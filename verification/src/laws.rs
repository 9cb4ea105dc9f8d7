//! What holds across the mutations and the subscription.
use vstd::prelude::*;
use crate::constants::{CONTACT_STATUS_APPROVED, CONTACT_STATUS_DELETED, MESSAGE_STATUS_DELETED};
use crate::entity::{contact_after, message_after, ContactEntity, MessageEntity};
use crate::error::{invalid, Failure};
use crate::model::MutationType;
use crate::mutation::{
    block_contact_spec, created_event_spec, delete_contact_spec, delete_message_spec,
    deleted_event_spec, read_events_spec, read_message_spec, send_message_spec,
    unblock_contact_spec, undelete_contact_spec,
};
use crate::subscription::delivered_to;

verus! {

/// Blocking one's own unblocked contact and then unblocking it are both
/// accepted, and leave the contact as it was.
pub proof fn block_then_unblock_restores(c: ContactEntity, identity_id: u64)
    requires
        c.user_id == identity_id,
        !c.blocked,
    ensures
        block_contact_spec(Some(c), identity_id) is Ok,
        ({
            let blocked = contact_after(c, block_contact_spec(Some(c), identity_id)->Ok_0.change);
            &&& blocked.blocked
            &&& unblock_contact_spec(Some(blocked), identity_id) is Ok
            &&& contact_after(blocked, unblock_contact_spec(Some(blocked), identity_id)->Ok_0.change) == c
        }),
{
}

/// Deleting one's own approved contact and then restoring it are both
/// accepted, and leave the contact as it was.
pub proof fn delete_then_undelete_restores(c: ContactEntity, identity_id: u64)
    requires
        c.user_id == identity_id,
        c.status == CONTACT_STATUS_APPROVED,
    ensures
        delete_contact_spec(Some(c), identity_id) is Ok,
        ({
            let deleted = contact_after(c, delete_contact_spec(Some(c), identity_id)->Ok_0.change);
            &&& deleted.status == CONTACT_STATUS_DELETED
            &&& undelete_contact_spec(Some(deleted), identity_id) is Ok
            &&& contact_after(deleted, undelete_contact_spec(Some(deleted), identity_id)->Ok_0.change) == c
        }),
{
}

/// A contact is deleted, blocked or unblocked at most once in a row: the
/// same request on the changed contact is refused.
pub proof fn contact_changes_are_not_repeated(c: ContactEntity, identity_id: u64)
    ensures
        delete_contact_spec(Some(c), identity_id) is Ok ==> delete_contact_spec(
            Some(contact_after(c, delete_contact_spec(Some(c), identity_id)->Ok_0.change)),
            identity_id,
        ) == Err::<crate::mutation::ContactUpdate, Failure>(
            invalid("Contact has already been deleted"@, "contact_id"@),
        ),
        block_contact_spec(Some(c), identity_id) is Ok ==> block_contact_spec(
            Some(contact_after(c, block_contact_spec(Some(c), identity_id)->Ok_0.change)),
            identity_id,
        ) == Err::<crate::mutation::ContactUpdate, Failure>(
            invalid("Contact has already been blocked"@, "contact_id"@),
        ),
        unblock_contact_spec(Some(c), identity_id) is Ok ==> unblock_contact_spec(
            Some(contact_after(c, unblock_contact_spec(Some(c), identity_id)->Ok_0.change)),
            identity_id,
        ) == Err::<crate::mutation::ContactUpdate, Failure>(
            invalid("Contact is not blocked"@, "contact_id"@),
        ),
{
}

/// A message is deleted at most once: deleting the deleted message again is
/// refused.
pub proof fn message_is_deleted_once(m: MessageEntity, identity_id: u64)
    requires
        delete_message_spec(Some(m), identity_id) is Ok,
    ensures
        message_after(m, delete_message_spec(Some(m), identity_id)->Ok_0).status == MESSAGE_STATUS_DELETED,
        delete_message_spec(
            Some(message_after(m, delete_message_spec(Some(m), identity_id)->Ok_0)),
            identity_id,
        ) == Err::<crate::entity::ChangeMessageEntity, Failure>(
            invalid("Message has already been deleted"@, "contact_id"@),
        ),
{
}

/// Only the owner of a contact can use it: every contact request of
/// another user is refused as an invalid contact id.
pub proof fn only_the_owner_uses_a_contact(c: ContactEntity, identity_id: u64, text: String)
    requires
        c.user_id != identity_id,
    ensures
        send_message_spec(Some(c), identity_id, text) == Err::<crate::entity::NewMessageEntity, Failure>(
            invalid("Invalid contact id"@, "contact_id"@),
        ),
        read_message_spec(Some(c), identity_id) == Err::<(u64, u64), Failure>(
            invalid("Invalid contact id"@, "contact_id"@),
        ),
        delete_contact_spec(Some(c), identity_id) == Err::<crate::mutation::ContactUpdate, Failure>(
            invalid("Invalid contact id"@, "contact_id"@),
        ),
        undelete_contact_spec(Some(c), identity_id) == Err::<crate::mutation::ContactUpdate, Failure>(
            invalid("Invalid contact id"@, "contact_id"@),
        ),
        block_contact_spec(Some(c), identity_id) == Err::<crate::mutation::ContactUpdate, Failure>(
            invalid("Invalid contact id"@, "contact_id"@),
        ),
        unblock_contact_spec(Some(c), identity_id) == Err::<crate::mutation::ContactUpdate, Failure>(
            invalid("Invalid contact id"@, "contact_id"@),
        ),
{
}

/// A message over a blocked contact is refused, and a blocked contact
/// receives no event of a new, deleted or read message.
pub proof fn blocked_contacts_hear_nothing(
    c: ContactEntity,
    identity_id: u64,
    text: String,
    m: MessageEntity,
    rows: Seq<MessageEntity>,
)
    requires
        c.blocked,
    ensures
        send_message_spec(Some(c), identity_id, text) is Err,
        read_message_spec(Some(c), identity_id) is Err,
        created_event_spec(m, Some(c)) is None,
        deleted_event_spec(m, Some(c)) is None,
        read_events_spec(rows, Some(c)).len() == 0,
{
}

/// The event of a new message reaches exactly its receiver, and not even
/// the receiver where it sent the message to itself.
pub proof fn new_messages_reach_only_their_receiver(m: MessageEntity, k: ContactEntity, u: u64)
    requires
        !k.blocked,
    ensures
        created_event_spec(m, Some(k)) is Some,
        created_event_spec(m, Some(k))->Some_0.mutation_type == MutationType::Created,
        delivered_to(created_event_spec(m, Some(k))->Some_0, u) <==> (u == m.rx_user_id && u != m.tx_user_id),
{
}

/// Each message marked read yields one event, in order, that reaches
/// exactly the message's receiver where it is not its sender.
pub proof fn read_receipts_follow_the_rows(rows: Seq<MessageEntity>, k: ContactEntity, u: u64)
    requires
        !k.blocked,
    ensures
        read_events_spec(rows, Some(k)).len() == rows.len(),
        forall|i: int| 0 <= i < rows.len() ==> {
            &&& (#[trigger] read_events_spec(rows, Some(k))[i]).id == rows[i].id
            &&& (delivered_to(read_events_spec(rows, Some(k))[i], u) <==> (u == rows[i].rx_user_id
                && u != rows[i].tx_user_id))
        },
{
}

/// A change of one's own contact writes that contact's row and answers the
/// contact of its owner with the same contact user.
pub proof fn contact_changes_answer_the_changed_contact(c: ContactEntity, identity_id: u64)
    ensures
        delete_contact_spec(Some(c), identity_id) is Ok ==> {
            &&& delete_contact_spec(Some(c), identity_id)->Ok_0.change.id == c.id
            &&& delete_contact_spec(Some(c), identity_id)->Ok_0.read_back == (c.user_id, c.contact_user_id)
        },
        undelete_contact_spec(Some(c), identity_id) is Ok ==> {
            &&& undelete_contact_spec(Some(c), identity_id)->Ok_0.change.id == c.id
            &&& undelete_contact_spec(Some(c), identity_id)->Ok_0.read_back == (c.user_id, c.contact_user_id)
        },
        block_contact_spec(Some(c), identity_id) is Ok ==> {
            &&& block_contact_spec(Some(c), identity_id)->Ok_0.change.id == c.id
            &&& block_contact_spec(Some(c), identity_id)->Ok_0.read_back == (c.user_id, c.contact_user_id)
        },
        unblock_contact_spec(Some(c), identity_id) is Ok ==> {
            &&& unblock_contact_spec(Some(c), identity_id)->Ok_0.change.id == c.id
            &&& unblock_contact_spec(Some(c), identity_id)->Ok_0.read_back == (c.user_id, c.contact_user_id)
        },
{
}

} // verus!
