use chat_backend::constants::{
    CONTACT_STATUS_APPROVED, CONTACT_STATUS_DELETED, MESSAGE_CATEGORY_CONTACT_APPLICATION,
    MESSAGE_CATEGORY_CONTACT_APPROVAL, MESSAGE_CATEGORY_MESSAGE, MESSAGE_STATUS_DELETED,
    MESSAGE_STATUS_READ, MESSAGE_STATUS_UNREAD,
};
use chat_backend::entity::{ChangeMessageEntity, ContactEntity, MessageEntity, NewMessageEntity};
use chat_backend::error::GraphqlError;
use chat_backend::model::{MessageChanged, MutationType};
use chat_backend::mutation::{ContactApproval, Mutation};
use chat_backend::subscription::Subscription;

fn at(day: u32) -> chrono::NaiveDateTime {
    chrono::NaiveDate::from_ymd_opt(2022, 5, day).unwrap().and_hms_opt(8, 30, 0).unwrap()
}

fn contact(id: u64, user_id: u64, contact_user_id: u64, status: i32, blocked: bool) -> ContactEntity {
    ContactEntity { id, user_id, contact_user_id, status, blocked, created_at: at(1), updated_at: at(1) }
}

fn message(id: u64, tx: u64, rx: u64, category: i32, status: i32) -> MessageEntity {
    MessageEntity {
        id,
        tx_user_id: tx,
        rx_user_id: rx,
        category,
        message: Some("hello".to_string()),
        status,
        created_at: at(3),
        updated_at: at(4),
    }
}

fn invalid(message: &str, field: &str) -> GraphqlError {
    GraphqlError::ValidationError(message.to_string(), field.to_string())
}

#[test]
fn send_message_goes_to_the_contact_user() {
    let c = Some(contact(1, 7, 9, CONTACT_STATUS_APPROVED, false));
    let m = Mutation::send_message(&c, 7, "hello".to_string()).unwrap();
    assert_eq!(
        m,
        NewMessageEntity {
            tx_user_id: 7,
            rx_user_id: 9,
            category: MESSAGE_CATEGORY_MESSAGE,
            message: Some("hello".to_string()),
            status: MESSAGE_STATUS_UNREAD,
        }
    );
}

#[test]
fn send_message_errors() {
    let text = || "x".to_string();
    assert_eq!(Mutation::send_message(&None, 7, text()), Err(invalid("Unable to get contact.", "contact_id")));
    let other = Some(contact(1, 8, 9, CONTACT_STATUS_APPROVED, false));
    assert_eq!(Mutation::send_message(&other, 7, text()), Err(invalid("Invalid contact id", "contact_id")));
    let deleted = Some(contact(1, 7, 9, CONTACT_STATUS_DELETED, false));
    assert_eq!(Mutation::send_message(&deleted, 7, text()), Err(invalid("Contact has been deleted.", "contact_id")));
    let blocked = Some(contact(1, 7, 9, CONTACT_STATUS_APPROVED, true));
    assert_eq!(Mutation::send_message(&blocked, 7, text()), Err(invalid("Cntact is blocked", "contact_id")));
}

#[test]
fn deleted_check_comes_before_blocked_check() {
    let both = Some(contact(1, 7, 9, CONTACT_STATUS_DELETED, true));
    assert_eq!(Mutation::read_message(&both, 7), Err(invalid("Contact has been deleted.", "contact_id")));
}

#[test]
fn create_message_needs_a_signed_in_user() {
    assert_eq!(Mutation::create_message(None, 9, MESSAGE_CATEGORY_MESSAGE, None), Err(GraphqlError::AuthenticationError));
    let m = Mutation::create_message(Some(4), 9, MESSAGE_CATEGORY_CONTACT_APPLICATION, None).unwrap();
    assert_eq!(
        m,
        NewMessageEntity {
            tx_user_id: 4,
            rx_user_id: 9,
            category: MESSAGE_CATEGORY_CONTACT_APPLICATION,
            message: None,
            status: MESSAGE_STATUS_UNREAD,
        }
    );
}

#[test]
fn created_event_depends_on_the_receivers_contact() {
    let m = message(20, 7, 9, MESSAGE_CATEGORY_MESSAGE, MESSAGE_STATUS_UNREAD);
    let open = Some(contact(2, 9, 7, CONTACT_STATUS_APPROVED, false));
    assert_eq!(
        Mutation::created_event(&m, &open),
        Some(MessageChanged { id: 20, tx_user_id: 7, rx_user_id: 9, status: MESSAGE_STATUS_UNREAD, mutation_type: MutationType::Created })
    );
    let blocked = Some(contact(2, 9, 7, CONTACT_STATUS_APPROVED, true));
    assert_eq!(Mutation::created_event(&m, &blocked), None);
    assert_eq!(Mutation::created_event(&m, &None), None);
}

#[test]
fn new_message_event_reaches_only_the_receiver() {
    let m = message(21, 7, 9, MESSAGE_CATEGORY_MESSAGE, MESSAGE_STATUS_UNREAD);
    let e = Mutation::created_event(&m, &Some(contact(2, 9, 7, CONTACT_STATUS_APPROVED, false))).unwrap();
    assert!(Subscription::delivers(&e, 9));
    assert!(!Subscription::delivers(&e, 7));
    assert!(!Subscription::delivers(&e, 5));
    let own = message(22, 7, 7, MESSAGE_CATEGORY_MESSAGE, MESSAGE_STATUS_UNREAD);
    let e = Mutation::created_event(&own, &Some(contact(3, 7, 7, CONTACT_STATUS_APPROVED, false))).unwrap();
    assert!(!Subscription::delivers(&e, 7));
}

#[test]
fn read_message_gives_reader_and_sender() {
    let c = Some(contact(5, 7, 9, CONTACT_STATUS_APPROVED, false));
    assert_eq!(Mutation::read_message(&c, 7), Ok((7, 9)));
    assert_eq!(Mutation::read_message(&None, 7), Err(invalid("Unable to get contact.", "contact_id")));
    let blocked = Some(contact(5, 7, 9, CONTACT_STATUS_APPROVED, true));
    assert_eq!(Mutation::read_message(&blocked, 7), Err(invalid("Cntact is blocked", "contact_id")));
}

#[test]
fn read_events_mark_every_row_read() {
    let rows = vec![
        message(30, 9, 7, MESSAGE_CATEGORY_MESSAGE, MESSAGE_STATUS_UNREAD),
        message(31, 9, 7, MESSAGE_CATEGORY_MESSAGE, MESSAGE_STATUS_UNREAD),
    ];
    let open = Some(contact(6, 9, 7, CONTACT_STATUS_APPROVED, false));
    let events = Mutation::read_events(&rows, &open);
    assert_eq!(
        events,
        vec![
            MessageChanged { id: 30, tx_user_id: 9, rx_user_id: 7, status: MESSAGE_STATUS_READ, mutation_type: MutationType::Updated },
            MessageChanged { id: 31, tx_user_id: 9, rx_user_id: 7, status: MESSAGE_STATUS_READ, mutation_type: MutationType::Updated },
        ]
    );
    let blocked = Some(contact(6, 9, 7, CONTACT_STATUS_APPROVED, true));
    assert!(Mutation::read_events(&rows, &blocked).is_empty());
    assert!(Mutation::read_events(&rows, &None).is_empty());
    assert!(Mutation::read_events(&Vec::new(), &open).is_empty());
}

#[test]
fn delete_message_marks_it_deleted() {
    let m = Some(message(50, 7, 9, MESSAGE_CATEGORY_MESSAGE, MESSAGE_STATUS_READ));
    assert_eq!(
        Mutation::delete_message(&m, 7),
        Ok(ChangeMessageEntity {
            id: 50,
            tx_user_id: None,
            rx_user_id: None,
            category: None,
            message: None,
            status: Some(MESSAGE_STATUS_DELETED),
        })
    );
}

#[test]
fn delete_message_errors() {
    assert_eq!(Mutation::delete_message(&None, 7), Err(invalid("Unable to get message", "message_id")));
    let received = Some(message(50, 9, 7, MESSAGE_CATEGORY_MESSAGE, MESSAGE_STATUS_READ));
    assert_eq!(Mutation::delete_message(&received, 7), Err(invalid("Invalid message id", "message_id")));
    let deleted = Some(message(50, 7, 9, MESSAGE_CATEGORY_MESSAGE, MESSAGE_STATUS_DELETED));
    assert_eq!(Mutation::delete_message(&deleted, 7), Err(invalid("Message has already been deleted", "contact_id")));
}

#[test]
fn deleted_event_reports_the_stored_status() {
    let m = message(51, 7, 9, MESSAGE_CATEGORY_MESSAGE, MESSAGE_STATUS_DELETED);
    let open = Some(contact(8, 7, 9, CONTACT_STATUS_APPROVED, false));
    assert_eq!(
        Mutation::deleted_event(&m, &open),
        Some(MessageChanged { id: 51, tx_user_id: 7, rx_user_id: 9, status: MESSAGE_STATUS_DELETED, mutation_type: MutationType::Deleted })
    );
    let blocked = Some(contact(8, 7, 9, CONTACT_STATUS_APPROVED, true));
    assert_eq!(Mutation::deleted_event(&m, &blocked), None);
    assert_eq!(Mutation::deleted_event(&m, &None), None);
}

#[test]
fn contact_application_checks_registration() {
    assert_eq!(Mutation::contact_application(true, 9, 7), Err(invalid("Contact is already registered", "other_user_id")));
    assert_eq!(
        Mutation::contact_application(false, 9, 7),
        Ok(NewMessageEntity {
            tx_user_id: 7,
            rx_user_id: 9,
            category: MESSAGE_CATEGORY_CONTACT_APPLICATION,
            message: None,
            status: MESSAGE_STATUS_UNREAD,
        })
    );
}

#[test]
fn contact_approval_target_errors() {
    assert_eq!(
        Mutation::contact_approval_target(&None, 7),
        Err(invalid("Unable to get contact application message", "message_id"))
    );
    let plain = Some(message(60, 9, 7, MESSAGE_CATEGORY_MESSAGE, MESSAGE_STATUS_UNREAD));
    assert_eq!(
        Mutation::contact_approval_target(&plain, 7),
        Err(invalid("Message is not a contact application message", "message_id"))
    );
    let elsewhere = Some(message(60, 9, 5, MESSAGE_CATEGORY_CONTACT_APPLICATION, MESSAGE_STATUS_UNREAD));
    assert_eq!(
        Mutation::contact_approval_target(&elsewhere, 7),
        Err(invalid("Invalid contact application message id", "message_id"))
    );
    let ok = Some(message(60, 9, 7, MESSAGE_CATEGORY_CONTACT_APPLICATION, MESSAGE_STATUS_UNREAD));
    assert_eq!(Mutation::contact_approval_target(&ok, 7), Ok(9));
}

#[test]
fn contact_approval_rows() {
    let m = Some(message(61, 9, 7, MESSAGE_CATEGORY_CONTACT_APPLICATION, MESSAGE_STATUS_UNREAD));
    assert_eq!(Mutation::contact_approval(&m, 7, true), Err(invalid("Contact is already registered", "message_id")));
    assert_eq!(
        Mutation::contact_approval(&m, 7, false),
        Ok(ContactApproval {
            own_contact: Mutation::create_contact(7, 7),
            other_contact: Mutation::create_contact(7, 7),
            approval: NewMessageEntity {
                tx_user_id: 7,
                rx_user_id: 7,
                category: MESSAGE_CATEGORY_CONTACT_APPROVAL,
                message: None,
                status: MESSAGE_STATUS_UNREAD,
            },
        })
    );
    let plain = Some(message(61, 9, 7, MESSAGE_CATEGORY_MESSAGE, MESSAGE_STATUS_UNREAD));
    assert_eq!(
        Mutation::contact_approval(&plain, 7, false),
        Err(invalid("Message is not a contact application message", "message_id"))
    );
}

#[test]
fn subscription_filter() {
    let e = MessageChanged { id: 1, tx_user_id: 3, rx_user_id: 4, status: MESSAGE_STATUS_UNREAD, mutation_type: MutationType::Created };
    assert!(Subscription::delivers(&e, 4));
    assert!(!Subscription::delivers(&e, 3));
    assert!(!Subscription::delivers(&e, 1));
}
