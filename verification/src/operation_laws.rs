//! What each operation answers, stated over its inputs: which requests are
//! accepted, which refusal comes first, and what an accepted request writes.
use vstd::prelude::*;
use crate::constants::{
    CONTACT_STATUS_APPROVED, CONTACT_STATUS_DELETED, MESSAGE_CATEGORY_CONTACT_APPLICATION,
    MESSAGE_CATEGORY_CONTACT_APPROVAL, MESSAGE_CATEGORY_MESSAGE, MESSAGE_STATUS_DELETED,
    MESSAGE_STATUS_READ, MESSAGE_STATUS_UNREAD,
};
use crate::entity::{
    ChangeContactEntity, ChangeMessageEntity, ChangeUserEntity, ContactEntity, MessageEntity,
    NewContactEntity, NewMessageEntity,
};
use crate::error::Failure;
use crate::form::EditProfileInput;
use crate::model::{MessageChanged, MutationType};
use crate::mutation::{
    account_deletion_spec, approval_target_spec, block_contact_spec, change_password_check_spec,
    contact_application_spec, contact_approval_spec, create_message_spec, created_event_spec,
    delete_contact_spec, delete_message_spec, deleted_event_spec, edit_profile_spec,
    read_events_spec, read_message_spec, send_message_spec, sign_up_check_spec,
    unblock_contact_spec, undelete_contact_spec, ContactApproval, ContactUpdate,
};
use crate::subscription::delivered_to;

verus! {

/// Reading one's own usable contact (not deleted, not blocked) marks read
/// the messages that its contact user sent to the owner: the answer is the
/// pair (owner, contact user), receiver first, whatever the two ids are.
pub proof fn reading_a_contact_reads_the_owners_inbox(c: ContactEntity, identity_id: u64)
    requires
        c.user_id == identity_id,
        c.status != CONTACT_STATUS_DELETED,
        !c.blocked,
    ensures
        read_message_spec(Some(c), identity_id) == Ok::<(u64, u64), Failure>((identity_id, c.contact_user_id)),
{
}

/// Sending over one's own usable contact writes an unread text message from
/// the sender to the contact user, with the given text.
pub proof fn sending_writes_a_message_to_the_contact_user(c: ContactEntity, identity_id: u64, text: String)
    requires
        c.user_id == identity_id,
        c.status != CONTACT_STATUS_DELETED,
        !c.blocked,
    ensures
        send_message_spec(Some(c), identity_id, text) == Ok::<NewMessageEntity, Failure>(NewMessageEntity {
            tx_user_id: identity_id,
            rx_user_id: c.contact_user_id,
            category: MESSAGE_CATEGORY_MESSAGE,
            message: Some(text),
            status: MESSAGE_STATUS_UNREAD,
        }),
{
}

/// The sender may delete any message of theirs that is not deleted yet,
/// read or unread; the change sets only its status, to deleted.
pub proof fn senders_delete_their_undeleted_messages(m: MessageEntity, identity_id: u64)
    requires
        m.tx_user_id == identity_id,
        m.status != MESSAGE_STATUS_DELETED,
    ensures
        delete_message_spec(Some(m), identity_id) == Ok::<ChangeMessageEntity, Failure>(ChangeMessageEntity {
            id: m.id,
            tx_user_id: None,
            rx_user_id: None,
            category: None,
            message: None,
            status: Some(MESSAGE_STATUS_DELETED),
        }),
{
}

/// A message of someone else, or no message, is never deleted.
pub proof fn only_senders_delete_messages(m: Option<MessageEntity>, identity_id: u64)
    requires
        m is None || m->Some_0.tx_user_id != identity_id,
    ensures
        delete_message_spec(m, identity_id) is Err,
{
}

/// Sign-up's checks: the code's refusal comes first, then the email's, then
/// the password's; the comment's counts only where a comment was given;
/// with no refusal sign-up goes on.
pub proof fn sign_up_refusal_order(
    has_comment: bool,
    code: Result<(), Failure>,
    email: Result<(), Failure>,
    password: Result<(), Failure>,
    comment: Result<(), Failure>,
)
    ensures
        code is Err ==> sign_up_check_spec(has_comment, code, email, password, comment) == code,
        code is Ok && email is Err ==> sign_up_check_spec(has_comment, code, email, password, comment) == email,
        code is Ok && email is Ok && password is Err ==> sign_up_check_spec(
            has_comment,
            code,
            email,
            password,
            comment,
        ) == password,
        code is Ok && email is Ok && password is Ok && has_comment && comment is Err ==> sign_up_check_spec(
            has_comment,
            code,
            email,
            password,
            comment,
        ) == comment,
        sign_up_check_spec(has_comment, code, email, password, comment) is Ok <==> (code is Ok && email is Ok
            && password is Ok && !(has_comment && comment is Err)),
{
}

/// Editing the profile: the code's refusal first, whatever the email's
/// verdict; then the email's; with neither, the change sets exactly the
/// code, name, email, comment and avatar of the signed-in user.
pub proof fn edit_profile_refusal_order(
    identity_id: u64,
    input: EditProfileInput,
    code: Result<(), Failure>,
    email: Result<(), Failure>,
)
    ensures
        code is Err ==> edit_profile_spec(identity_id, input, code, email) == Err::<ChangeUserEntity, Failure>(
            code->Err_0,
        ),
        code is Ok && email is Err ==> edit_profile_spec(identity_id, input, code, email) == Err::<
            ChangeUserEntity,
            Failure,
        >(email->Err_0),
        code is Ok && email is Ok ==> edit_profile_spec(identity_id, input, code, email) == Ok::<
            ChangeUserEntity,
            Failure,
        >(ChangeUserEntity {
            id: identity_id,
            code: Some(input.code),
            name: Some(Some(input.name)),
            email: Some(input.email),
            password: None,
            remember_token: None,
            comment: Some(input.comment),
            avatar: Some(input.avatar),
            role: None,
            status: None,
        }),
{
}

/// Changing the password is refused as incorrect unless the current
/// password checked and matched, whatever the new password's verdict; after
/// that the new password's verdict decides.
pub proof fn change_password_refusal_order(verification: Option<bool>, new_password: Result<(), Failure>)
    ensures
        verification != Some(true) ==> change_password_check_spec(verification, new_password) == Err::<(), Failure>(
            Failure::Validation { message: "Password is incorrect."@, field: "password"@ },
        ),
        verification == Some(true) ==> change_password_check_spec(verification, new_password) == new_password,
{
}

/// Deleting an account goes through exactly where one row changed.
pub proof fn account_deletion_needs_one_row(count: nat)
    ensures
        account_deletion_spec(count) is Ok <==> count == 1,
{
}

/// Every event reaches the subscriber it is addressed to, unless that
/// subscriber sent it, whatever happened to the message (created, read or
/// deleted).
pub proof fn events_reach_their_receiver(event: MessageChanged, u: u64)
    ensures
        delivered_to(event, u) <==> (event.rx_user_id == u && event.tx_user_id != u),
        event.mutation_type == MutationType::Deleted && event.rx_user_id == u && event.tx_user_id != u
            ==> delivered_to(event, u),
        event.tx_user_id == u ==> !delivered_to(event, u),
{
}

/// The event of a new or deleted message carries the message's id, sender,
/// receiver and stored status, and exists exactly where the deciding contact
/// exists and is not blocked.
pub proof fn message_events_carry_the_message(m: MessageEntity, k: Option<ContactEntity>)
    ensures
        created_event_spec(m, k) is Some <==> (k is Some && !k->Some_0.blocked),
        deleted_event_spec(m, k) is Some <==> (k is Some && !k->Some_0.blocked),
        created_event_spec(m, k) is Some ==> created_event_spec(m, k)->Some_0 == (MessageChanged {
            id: m.id,
            tx_user_id: m.tx_user_id,
            rx_user_id: m.rx_user_id,
            status: m.status,
            mutation_type: MutationType::Created,
        }),
        deleted_event_spec(m, k) is Some ==> deleted_event_spec(m, k)->Some_0 == (MessageChanged {
            id: m.id,
            tx_user_id: m.tx_user_id,
            rx_user_id: m.rx_user_id,
            status: m.status,
            mutation_type: MutationType::Deleted,
        }),
{
}

/// Read receipts: one per row marked read, in order, each with the row's
/// id, sender and receiver and the read status, where the sender's contact
/// exists and is not blocked; none otherwise.
pub proof fn read_receipts_describe_the_rows(rows: Seq<MessageEntity>, k: Option<ContactEntity>)
    ensures
        (k is Some && !k->Some_0.blocked) ==> read_events_spec(rows, k).len() == rows.len(),
        !(k is Some && !k->Some_0.blocked) ==> read_events_spec(rows, k).len() == 0,
        (k is Some && !k->Some_0.blocked) ==> forall|i: int|
            0 <= i < rows.len() ==> #[trigger] read_events_spec(rows, k)[i] == (MessageChanged {
                id: rows[i].id,
                tx_user_id: rows[i].tx_user_id,
                rx_user_id: rows[i].rx_user_id,
                status: MESSAGE_STATUS_READ,
                mutation_type: MutationType::Updated,
            }),
{
}

/// A message needs a signed-in sender; it is then unread, from that sender.
pub proof fn messages_come_from_the_signed_in_user(
    identity: Option<u64>,
    rx_user_id: u64,
    category: i32,
    text: Option<String>,
)
    ensures
        identity is None ==> create_message_spec(identity, rx_user_id, category, text) == Err::<
            NewMessageEntity,
            Failure,
        >(Failure::Authentication),
        identity is Some ==> create_message_spec(identity, rx_user_id, category, text) == Ok::<
            NewMessageEntity,
            Failure,
        >(NewMessageEntity {
            tx_user_id: identity->Some_0,
            rx_user_id,
            category,
            message: text,
            status: MESSAGE_STATUS_UNREAD,
        }),
{
}

/// Applying to become a contact is refused exactly where the contact is
/// already registered; otherwise it writes an unread application without
/// text from the applicant to the other user.
pub proof fn applications_go_to_unregistered_users(registered: bool, other_user_id: u64, identity_id: u64)
    ensures
        contact_application_spec(registered, other_user_id, identity_id) is Err <==> registered,
        !registered ==> contact_application_spec(registered, other_user_id, identity_id) == Ok::<
            NewMessageEntity,
            Failure,
        >(NewMessageEntity {
            tx_user_id: identity_id,
            rx_user_id: other_user_id,
            category: MESSAGE_CATEGORY_CONTACT_APPLICATION,
            message: None,
            status: MESSAGE_STATUS_UNREAD,
        }),
{
}

/// Only an application addressed to the signed-in user can be approved; it
/// names its applicant, and approving it where no contact is registered
/// writes two approved, unblocked contacts and an unread approval, all
/// between the signed-in user and the application's receiver.
pub proof fn approvals_answer_applications_to_the_approver(m: MessageEntity, identity_id: u64, registered: bool)
    ensures
        approval_target_spec(Some(m), identity_id) is Ok <==> (m.category == MESSAGE_CATEGORY_CONTACT_APPLICATION
            && m.rx_user_id == identity_id),
        approval_target_spec(Some(m), identity_id) is Ok ==> approval_target_spec(Some(m), identity_id)->Ok_0
            == m.tx_user_id,
        approval_target_spec(Some(m), identity_id) is Ok && registered ==> contact_approval_spec(
            Some(m),
            identity_id,
            registered,
        ) is Err,
        approval_target_spec(Some(m), identity_id) is Ok && !registered ==> contact_approval_spec(
            Some(m),
            identity_id,
            registered,
        ) == Ok::<ContactApproval, Failure>(ContactApproval {
            own_contact: NewContactEntity {
                user_id: identity_id,
                contact_user_id: m.rx_user_id,
                status: CONTACT_STATUS_APPROVED,
                blocked: false,
            },
            other_contact: NewContactEntity {
                user_id: m.rx_user_id,
                contact_user_id: identity_id,
                status: CONTACT_STATUS_APPROVED,
                blocked: false,
            },
            approval: NewMessageEntity {
                tx_user_id: identity_id,
                rx_user_id: m.rx_user_id,
                category: MESSAGE_CATEGORY_CONTACT_APPROVAL,
                message: None,
                status: MESSAGE_STATUS_UNREAD,
            },
        }),
{
}

/// The contact changes of the owner: each is accepted exactly in its state
/// (delete: not deleted; undelete: deleted; block: not blocked; unblock:
/// blocked), changes only its one column, and reads back the owner's
/// contact with the same contact user.
pub proof fn contact_changes_of_the_owner(c: ContactEntity)
    ensures
        delete_contact_spec(Some(c), c.user_id) is Ok <==> c.status != CONTACT_STATUS_DELETED,
        undelete_contact_spec(Some(c), c.user_id) is Ok <==> c.status == CONTACT_STATUS_DELETED,
        block_contact_spec(Some(c), c.user_id) is Ok <==> !c.blocked,
        unblock_contact_spec(Some(c), c.user_id) is Ok <==> c.blocked,
        delete_contact_spec(Some(c), c.user_id) is Ok ==> delete_contact_spec(Some(c), c.user_id)->Ok_0
            == (ContactUpdate {
            change: ChangeContactEntity {
                id: c.id,
                user_id: None,
                contact_user_id: None,
                status: Some(CONTACT_STATUS_DELETED),
                blocked: None,
            },
            read_back: (c.user_id, c.contact_user_id),
        }),
        undelete_contact_spec(Some(c), c.user_id) is Ok ==> undelete_contact_spec(Some(c), c.user_id)->Ok_0
            == (ContactUpdate {
            change: ChangeContactEntity {
                id: c.id,
                user_id: None,
                contact_user_id: None,
                status: Some(CONTACT_STATUS_APPROVED),
                blocked: None,
            },
            read_back: (c.user_id, c.contact_user_id),
        }),
        block_contact_spec(Some(c), c.user_id) is Ok ==> block_contact_spec(Some(c), c.user_id)->Ok_0
            == (ContactUpdate {
            change: ChangeContactEntity {
                id: c.id,
                user_id: None,
                contact_user_id: None,
                status: None,
                blocked: Some(true),
            },
            read_back: (c.user_id, c.contact_user_id),
        }),
        unblock_contact_spec(Some(c), c.user_id) is Ok ==> unblock_contact_spec(Some(c), c.user_id)->Ok_0
            == (ContactUpdate {
            change: ChangeContactEntity {
                id: c.id,
                user_id: None,
                contact_user_id: None,
                status: None,
                blocked: Some(false),
            },
            read_back: (c.user_id, c.contact_user_id),
        }),
{
}

/// A missing contact or message is refused by every operation on it.
pub proof fn missing_rows_are_refused(identity_id: u64, text: String, registered: bool)
    ensures
        send_message_spec(None, identity_id, text) is Err,
        read_message_spec(None, identity_id) is Err,
        delete_message_spec(None, identity_id) is Err,
        approval_target_spec(None, identity_id) is Err,
        contact_approval_spec(None, identity_id, registered) is Err,
        delete_contact_spec(None, identity_id) is Err,
        undelete_contact_spec(None, identity_id) is Err,
        block_contact_spec(None, identity_id) is Err,
        unblock_contact_spec(None, identity_id) is Err,
{
}

/// The refusals over a contact used for messages, in order: someone else's
/// contact, then a deleted one (blocked or not), then a blocked one.
pub proof fn message_contact_refusal_order(c: ContactEntity, identity_id: u64, text: String)
    ensures
        c.user_id != identity_id ==> read_message_spec(Some(c), identity_id) == Err::<(u64, u64), Failure>(
            Failure::Validation { message: "Invalid contact id"@, field: "contact_id"@ },
        ),
        c.user_id == identity_id && c.status == CONTACT_STATUS_DELETED ==> read_message_spec(Some(c), identity_id)
            == Err::<(u64, u64), Failure>(
            Failure::Validation { message: "Contact has been deleted."@, field: "contact_id"@ },
        ),
        c.user_id == identity_id && c.status != CONTACT_STATUS_DELETED && c.blocked ==> read_message_spec(
            Some(c),
            identity_id,
        ) == Err::<(u64, u64), Failure>(Failure::Validation { message: "Cntact is blocked"@, field: "contact_id"@ }),
        read_message_spec(Some(c), identity_id) is Err <==> send_message_spec(Some(c), identity_id, text) is Err,
        read_message_spec(Some(c), identity_id) is Err ==> send_message_spec(Some(c), identity_id, text)->Err_0
            == read_message_spec(Some(c), identity_id)->Err_0,
{
}

/// The refusals of deleting a message, in order: someone else's message,
/// then one already deleted.
pub proof fn delete_message_refusal_order(m: MessageEntity, identity_id: u64)
    ensures
        m.tx_user_id != identity_id ==> delete_message_spec(Some(m), identity_id) == Err::<ChangeMessageEntity, Failure>(
            Failure::Validation { message: "Invalid message id"@, field: "message_id"@ },
        ),
        m.tx_user_id == identity_id && m.status == MESSAGE_STATUS_DELETED ==> delete_message_spec(Some(m), identity_id)
            == Err::<ChangeMessageEntity, Failure>(
            Failure::Validation { message: "Message has already been deleted"@, field: "contact_id"@ },
        ),
{
}

} // verus!
