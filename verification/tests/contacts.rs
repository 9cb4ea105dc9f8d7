use chat_backend::constants::{CONTACT_STATUS_APPROVED, CONTACT_STATUS_DELETED};
use chat_backend::entity::{ChangeContactEntity, ContactEntity};
use chat_backend::error::GraphqlError;
use chat_backend::mutation::{ContactUpdate, Mutation};

fn at(day: u32) -> chrono::NaiveDateTime {
    chrono::NaiveDate::from_ymd_opt(2021, 3, day).unwrap().and_hms_opt(12, 0, 0).unwrap()
}

fn contact(id: u64, user_id: u64, contact_user_id: u64, status: i32, blocked: bool) -> ContactEntity {
    ContactEntity { id, user_id, contact_user_id, status, blocked, created_at: at(1), updated_at: at(2) }
}

fn invalid(message: &str, field: &str) -> GraphqlError {
    GraphqlError::ValidationError(message.to_string(), field.to_string())
}

fn apply(c: &ContactEntity, ch: &ChangeContactEntity) -> ContactEntity {
    ContactEntity {
        id: c.id,
        user_id: ch.user_id.unwrap_or(c.user_id),
        contact_user_id: ch.contact_user_id.unwrap_or(c.contact_user_id),
        status: ch.status.unwrap_or(c.status),
        blocked: ch.blocked.unwrap_or(c.blocked),
        created_at: c.created_at,
        updated_at: c.updated_at,
    }
}

#[test]
fn create_contact_is_approved_and_unblocked() {
    let c = Mutation::create_contact(3, 8);
    assert_eq!(c.user_id, 3);
    assert_eq!(c.contact_user_id, 8);
    assert_eq!(c.status, CONTACT_STATUS_APPROVED);
    assert!(!c.blocked);
}

#[test]
fn delete_contact_changes_only_the_status() {
    let c = Some(contact(40, 7, 9, CONTACT_STATUS_APPROVED, false));
    let ch = Mutation::delete_contact(&c, 7).unwrap().change;
    assert_eq!(
        ch,
        ChangeContactEntity { id: 40, user_id: None, contact_user_id: None, status: Some(CONTACT_STATUS_DELETED), blocked: None }
    );
}

#[test]
fn delete_contact_errors() {
    assert_eq!(Mutation::delete_contact(&None, 7), Err(invalid("Unable to get contact", "contact_id")));
    let other = Some(contact(40, 8, 9, CONTACT_STATUS_APPROVED, false));
    assert_eq!(Mutation::delete_contact(&other, 7), Err(invalid("Invalid contact id", "contact_id")));
    let deleted = Some(contact(40, 7, 9, CONTACT_STATUS_DELETED, false));
    assert_eq!(Mutation::delete_contact(&deleted, 7), Err(invalid("Contact has already been deleted", "contact_id")));
}

#[test]
fn undelete_contact_restores_approved() {
    let c = Some(contact(41, 7, 9, CONTACT_STATUS_DELETED, true));
    let ch = Mutation::undelete_contact(&c, 7).unwrap().change;
    assert_eq!(
        ch,
        ChangeContactEntity { id: 41, user_id: None, contact_user_id: None, status: Some(CONTACT_STATUS_APPROVED), blocked: None }
    );
}

#[test]
fn undelete_contact_errors() {
    assert_eq!(Mutation::undelete_contact(&None, 7), Err(invalid("Unable to get contact", "contact_id")));
    let other = Some(contact(41, 8, 9, CONTACT_STATUS_DELETED, false));
    assert_eq!(Mutation::undelete_contact(&other, 7), Err(invalid("Invalid contact id", "contact_id")));
    let live = Some(contact(41, 7, 9, CONTACT_STATUS_APPROVED, false));
    assert_eq!(Mutation::undelete_contact(&live, 7), Err(invalid("Contacts have not been deleted", "contact_id")));
}

#[test]
fn block_and_unblock_contact() {
    let c = Some(contact(42, 7, 9, CONTACT_STATUS_APPROVED, false));
    let ch = Mutation::block_contact(&c, 7).unwrap().change;
    assert_eq!(ch, ChangeContactEntity { id: 42, user_id: None, contact_user_id: None, status: None, blocked: Some(true) });
    let b = Some(contact(42, 7, 9, CONTACT_STATUS_APPROVED, true));
    let ch = Mutation::unblock_contact(&b, 7).unwrap().change;
    assert_eq!(ch, ChangeContactEntity { id: 42, user_id: None, contact_user_id: None, status: None, blocked: Some(false) });
}

#[test]
fn block_and_unblock_errors() {
    assert_eq!(Mutation::block_contact(&None, 7), Err(invalid("Unable to get contact", "contact_id")));
    assert_eq!(Mutation::unblock_contact(&None, 7), Err(invalid("Unable to get contact", "contact_id")));
    let other = Some(contact(42, 8, 9, CONTACT_STATUS_APPROVED, true));
    assert_eq!(Mutation::block_contact(&other, 7), Err(invalid("Invalid contact id", "contact_id")));
    assert_eq!(Mutation::unblock_contact(&other, 7), Err(invalid("Invalid contact id", "contact_id")));
    let blocked = Some(contact(42, 7, 9, CONTACT_STATUS_APPROVED, true));
    assert_eq!(Mutation::block_contact(&blocked, 7), Err(invalid("Contact has already been blocked", "contact_id")));
    let open = Some(contact(42, 7, 9, CONTACT_STATUS_APPROVED, false));
    assert_eq!(Mutation::unblock_contact(&open, 7), Err(invalid("Contact is not blocked", "contact_id")));
}

#[test]
fn block_then_unblock_restores_the_contact() {
    let c = contact(43, 7, 9, CONTACT_STATUS_APPROVED, false);
    let blocked = apply(&c, &Mutation::block_contact(&Some(contact(43, 7, 9, CONTACT_STATUS_APPROVED, false)), 7).unwrap().change);
    assert!(blocked.blocked);
    let ch = Mutation::unblock_contact(&Some(contact(43, 7, 9, CONTACT_STATUS_APPROVED, true)), 7).unwrap().change;
    assert_eq!(apply(&blocked, &ch), c);
}

#[test]
fn delete_then_undelete_restores_the_contact() {
    let c = contact(44, 7, 9, CONTACT_STATUS_APPROVED, false);
    let del = Mutation::delete_contact(&Some(contact(44, 7, 9, CONTACT_STATUS_APPROVED, false)), 7).unwrap().change;
    let deleted = apply(&c, &del);
    assert_eq!(deleted.status, CONTACT_STATUS_DELETED);
    let undel = Mutation::undelete_contact(&Some(contact(44, 7, 9, CONTACT_STATUS_DELETED, false)), 7).unwrap().change;
    assert_eq!(apply(&deleted, &undel), c);
}

#[test]
fn a_second_delete_or_block_is_refused() {
    let deleted = Some(contact(45, 7, 9, CONTACT_STATUS_DELETED, false));
    assert_eq!(Mutation::delete_contact(&deleted, 7), Err(invalid("Contact has already been deleted", "contact_id")));
    let blocked = Some(contact(45, 7, 9, CONTACT_STATUS_APPROVED, true));
    assert_eq!(Mutation::block_contact(&blocked, 7), Err(invalid("Contact has already been blocked", "contact_id")));
}

#[test]
fn another_users_contact_is_refused_everywhere() {
    let c = Some(contact(46, 8, 9, CONTACT_STATUS_APPROVED, false));
    let e = Err(invalid("Invalid contact id", "contact_id"));
    assert_eq!(Mutation::send_message(&c, 7, "hi".to_string()).map(|_| ()), e.clone());
    assert_eq!(Mutation::read_message(&c, 7).map(|_| ()), e.clone());
    assert_eq!(Mutation::delete_contact(&c, 7).map(|_| ()), e.clone());
    assert_eq!(Mutation::undelete_contact(&c, 7).map(|_| ()), e.clone());
    assert_eq!(Mutation::block_contact(&c, 7).map(|_| ()), e.clone());
    assert_eq!(Mutation::unblock_contact(&c, 7).map(|_| ()), e);
}

#[test]
fn contact_changes_read_back_the_owners_contact() {
    let c = Some(contact(47, 7, 9, CONTACT_STATUS_APPROVED, false));
    assert_eq!(
        Mutation::block_contact(&c, 7),
        Ok(ContactUpdate {
            change: ChangeContactEntity { id: 47, user_id: None, contact_user_id: None, status: None, blocked: Some(true) },
            read_back: (7, 9),
        })
    );
    assert_eq!(Mutation::delete_contact(&c, 7).unwrap().read_back, (7, 9));
    let gone = Some(contact(47, 7, 9, CONTACT_STATUS_DELETED, true));
    assert_eq!(Mutation::undelete_contact(&gone, 7).unwrap().read_back, (7, 9));
    assert_eq!(Mutation::unblock_contact(&gone, 7).unwrap().read_back, (7, 9));
}

#[test]
fn default_contact_change_changes_nothing() {
    let ch = ChangeContactEntity::default();
    assert_eq!(ch, ChangeContactEntity { id: 0, user_id: None, contact_user_id: None, status: None, blocked: None });
}
