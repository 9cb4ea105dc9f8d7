//! The decisions of the GraphQL mutations. Each function takes what the
//! resolver read from the database (the row it looked up, whether a contact
//! exists, what the password check answered) and gives what the resolver is
//! to write, or the error it is to answer with.
use vstd::prelude::*;
use crate::constants::{
    CONTACT_STATUS_APPROVED, CONTACT_STATUS_DELETED, MESSAGE_CATEGORY_CONTACT_APPLICATION,
    MESSAGE_CATEGORY_CONTACT_APPROVAL, MESSAGE_CATEGORY_MESSAGE, MESSAGE_STATUS_DELETED,
    MESSAGE_STATUS_READ, MESSAGE_STATUS_UNREAD, USER_ROLE_USER, USER_STATUS_ACTIVE,
    USER_STATUS_DELETED,
};
use crate::entity::{
    ChangeContactEntity, ChangeMessageEntity, ChangeUserEntity, ContactEntity, MessageEntity,
    NewContactEntity, NewMessageEntity, NewUserEntity, UserEntity,
};
use crate::error::{invalid, outcome, Failure, GraphqlError};
use crate::form::{ChangePasswordInput, EditProfileInput, SignUpInput};
use crate::model::{event_of, MessageChanged, MutationType};
use crate::text::{decimal, push_decimal};

verus! {

/// The root of the mutations.
pub struct Mutation;

/// The rows that approving a contact application writes: a contact for each
/// side and the approval message.
#[derive(Debug, Clone, PartialEq)]
pub struct ContactApproval {
    pub own_contact: NewContactEntity,
    pub other_contact: NewContactEntity,
    pub approval: NewMessageEntity,
}

/// What a change of one's own contact writes, and the pair of users
/// (owner, contact user) whose contact is read back and answered.
#[derive(Debug, Clone, Copy, PartialEq, Eq)]
pub struct ContactUpdate {
    pub change: ChangeContactEntity,
    pub read_back: (u64, u64),
}

// ---------------------------------------------------------------------------
// What each decision gives
// ---------------------------------------------------------------------------

/// The approved, unblocked contact of `user_id` with `contact_user_id`.
pub open spec fn new_contact(user_id: u64, contact_user_id: u64) -> NewContactEntity {
    NewContactEntity {
        user_id,
        contact_user_id,
        status: CONTACT_STATUS_APPROVED,
        blocked: false,
    }
}

/// The unread message of `category` from `tx_user_id` to `rx_user_id`.
pub open spec fn new_message(
    tx_user_id: u64,
    rx_user_id: u64,
    category: i32,
    message: Option<String>,
) -> NewMessageEntity {
    NewMessageEntity { tx_user_id, rx_user_id, category, message, status: MESSAGE_STATUS_UNREAD }
}

/// A message from the signed-in user, if there is one.
pub open spec fn create_message_spec(
    identity: Option<u64>,
    rx_user_id: u64,
    category: i32,
    message: Option<String>,
) -> Result<NewMessageEntity, Failure> {
    match identity {
        None => Err(Failure::Authentication),
        Some(id) => Ok(new_message(id, rx_user_id, category, message)),
    }
}

/// The event of a new message, published unless its receiver has no contact
/// with the sender or has blocked it.
pub open spec fn created_event_spec(
    message: MessageEntity,
    rx_user_contact: Option<ContactEntity>,
) -> Option<MessageChanged> {
    match rx_user_contact {
        Some(k) if !k.blocked => Some(event_of(message, message.status, MutationType::Created)),
        _ => None,
    }
}

/// Why a contact cannot carry messages: it is missing, it belongs to someone
/// else, it was deleted, or it is blocked.
pub open spec fn usable_contact_failure(contact: Option<ContactEntity>, identity_id: u64) -> Option<Failure> {
    match contact {
        None => Some(invalid("Unable to get contact."@, "contact_id"@)),
        Some(c) => if c.user_id != identity_id {
            Some(invalid("Invalid contact id"@, "contact_id"@))
        } else if c.status == CONTACT_STATUS_DELETED {
            Some(invalid("Contact has been deleted."@, "contact_id"@))
        } else if c.blocked {
            Some(invalid("Cntact is blocked"@, "contact_id"@))
        } else {
            None
        },
    }
}

/// Sending `message` over a contact: a text message to the contact's user.
pub open spec fn send_message_spec(
    contact: Option<ContactEntity>,
    identity_id: u64,
    message: String,
) -> Result<NewMessageEntity, Failure> {
    match usable_contact_failure(contact, identity_id) {
        Some(f) => Err(f),
        None => Ok(
            new_message(identity_id, contact.unwrap().contact_user_id, MESSAGE_CATEGORY_MESSAGE, Some(message)),
        ),
    }
}

/// Reading the messages of a contact: the pair of users whose unread
/// messages are marked read, receiver first.
pub open spec fn read_message_spec(contact: Option<ContactEntity>, identity_id: u64) -> Result<(u64, u64), Failure> {
    match usable_contact_failure(contact, identity_id) {
        Some(f) => Err(f),
        None => Ok((contact.unwrap().user_id, contact.unwrap().contact_user_id)),
    }
}

/// The events of the messages that were marked read, published unless the
/// sender has no contact with the reader or has blocked it.
pub open spec fn read_events_spec(
    target: Seq<MessageEntity>,
    contact_user_contact: Option<ContactEntity>,
) -> Seq<MessageChanged> {
    match contact_user_contact {
        Some(k) if !k.blocked => target.map_values(
            |m: MessageEntity| event_of(m, MESSAGE_STATUS_READ, MutationType::Updated),
        ),
        _ => Seq::empty(),
    }
}

/// Deleting a message: only its sender may, and only once.
pub open spec fn delete_message_spec(message: Option<MessageEntity>, identity_id: u64) -> Result<ChangeMessageEntity, Failure> {
    match message {
        None => Err(invalid("Unable to get message"@, "message_id"@)),
        Some(m) => if m.tx_user_id != identity_id {
            Err(invalid("Invalid message id"@, "message_id"@))
        } else if m.status == MESSAGE_STATUS_DELETED {
            Err(invalid("Message has already been deleted"@, "contact_id"@))
        } else {
            Ok(ChangeMessageEntity {
                id: m.id,
                tx_user_id: None,
                rx_user_id: None,
                category: None,
                message: None,
                status: Some(MESSAGE_STATUS_DELETED),
            })
        },
    }
}

/// The event of a deleted message, published unless the sender has no
/// contact with the receiver or has blocked it.
pub open spec fn deleted_event_spec(message: MessageEntity, sender_contact: Option<ContactEntity>) -> Option<MessageChanged> {
    match sender_contact {
        Some(k) if !k.blocked => Some(event_of(message, message.status, MutationType::Deleted)),
        _ => None,
    }
}

/// Applying to become a contact of `other_user_id`.
pub open spec fn contact_application_spec(
    registered: bool,
    other_user_id: u64,
    identity_id: u64,
) -> Result<NewMessageEntity, Failure> {
    if registered {
        Err(invalid("Contact is already registered"@, "other_user_id"@))
    } else {
        Ok(new_message(identity_id, other_user_id, MESSAGE_CATEGORY_CONTACT_APPLICATION, None))
    }
}

/// The applicant of a contact application addressed to the signed-in user.
pub open spec fn approval_target_spec(message: Option<MessageEntity>, identity_id: u64) -> Result<u64, Failure> {
    match message {
        None => Err(invalid("Unable to get contact application message"@, "message_id"@)),
        Some(m) => if m.category != MESSAGE_CATEGORY_CONTACT_APPLICATION {
            Err(invalid("Message is not a contact application message"@, "message_id"@))
        } else if m.rx_user_id != identity_id {
            Err(invalid("Invalid contact application message id"@, "message_id"@))
        } else {
            Ok(m.tx_user_id)
        },
    }
}

/// Approving a contact application; `registered` tells whether the
/// signed-in user already has the applicant as a contact. The rows connect
/// the signed-in user with the message's receiver.
pub open spec fn contact_approval_spec(
    message: Option<MessageEntity>,
    identity_id: u64,
    registered: bool,
) -> Result<ContactApproval, Failure> {
    match approval_target_spec(message, identity_id) {
        Err(f) => Err(f),
        Ok(_) => if registered {
            Err(invalid("Contact is already registered"@, "message_id"@))
        } else {
            let rx: u64 = message.unwrap().rx_user_id;
            Ok(ContactApproval {
                own_contact: new_contact(identity_id, rx),
                other_contact: new_contact(rx, identity_id),
                approval: new_message(identity_id, rx, MESSAGE_CATEGORY_CONTACT_APPROVAL, None),
            })
        },
    }
}

/// The change of a contact that sets only `status` or only `blocked`.
pub open spec fn contact_change(id: u64, status: Option<i32>, blocked: Option<bool>) -> ChangeContactEntity {
    ChangeContactEntity { id, user_id: None, contact_user_id: None, status, blocked }
}

/// The update of contact `c` of `identity_id` with the given change: the
/// contact read back afterwards is the one of `identity_id` with
/// `c.contact_user_id`.
pub open spec fn contact_update(
    c: ContactEntity,
    identity_id: u64,
    status: Option<i32>,
    blocked: Option<bool>,
) -> ContactUpdate {
    ContactUpdate {
        change: contact_change(c.id, status, blocked),
        read_back: (identity_id, c.contact_user_id),
    }
}

/// Deleting one's own contact that is not deleted yet.
pub open spec fn delete_contact_spec(contact: Option<ContactEntity>, identity_id: u64) -> Result<ContactUpdate, Failure> {
    match contact {
        None => Err(invalid("Unable to get contact"@, "contact_id"@)),
        Some(c) => if c.user_id != identity_id {
            Err(invalid("Invalid contact id"@, "contact_id"@))
        } else if c.status == CONTACT_STATUS_DELETED {
            Err(invalid("Contact has already been deleted"@, "contact_id"@))
        } else {
            Ok(contact_update(c, identity_id, Some(CONTACT_STATUS_DELETED), None))
        },
    }
}

/// Restoring one's own deleted contact as approved.
pub open spec fn undelete_contact_spec(contact: Option<ContactEntity>, identity_id: u64) -> Result<ContactUpdate, Failure> {
    match contact {
        None => Err(invalid("Unable to get contact"@, "contact_id"@)),
        Some(c) => if c.user_id != identity_id {
            Err(invalid("Invalid contact id"@, "contact_id"@))
        } else if c.status != CONTACT_STATUS_DELETED {
            Err(invalid("Contacts have not been deleted"@, "contact_id"@))
        } else {
            Ok(contact_update(c, identity_id, Some(CONTACT_STATUS_APPROVED), None))
        },
    }
}

/// Blocking one's own contact that is not blocked yet.
pub open spec fn block_contact_spec(contact: Option<ContactEntity>, identity_id: u64) -> Result<ContactUpdate, Failure> {
    match contact {
        None => Err(invalid("Unable to get contact"@, "contact_id"@)),
        Some(c) => if c.user_id != identity_id {
            Err(invalid("Invalid contact id"@, "contact_id"@))
        } else if c.blocked {
            Err(invalid("Contact has already been blocked"@, "contact_id"@))
        } else {
            Ok(contact_update(c, identity_id, None, Some(true)))
        },
    }
}

/// Unblocking one's own blocked contact.
pub open spec fn unblock_contact_spec(contact: Option<ContactEntity>, identity_id: u64) -> Result<ContactUpdate, Failure> {
    match contact {
        None => Err(invalid("Unable to get contact"@, "contact_id"@)),
        Some(c) => if c.user_id != identity_id {
            Err(invalid("Invalid contact id"@, "contact_id"@))
        } else if !c.blocked {
            Err(invalid("Contact is not blocked"@, "contact_id"@))
        } else {
            Ok(contact_update(c, identity_id, None, Some(false)))
        },
    }
}

/// The change of a user row that sets only the given columns.
pub open spec fn user_change(
    id: u64,
    code: Option<String>,
    name: Option<Option<String>>,
    email: Option<String>,
    password: Option<String>,
    comment: Option<Option<String>>,
    avatar: Option<Option<String>>,
    status: Option<i32>,
) -> ChangeUserEntity {
    ChangeUserEntity {
        id,
        code,
        name,
        email,
        password,
        remember_token: None,
        comment,
        avatar,
        role: None,
        status,
    }
}

/// The first refusal among sign-up's validators, in the order code, email,
/// password (against its confirmation), comment; the comment's verdict
/// counts only where a comment was given.
pub open spec fn sign_up_check_spec(
    has_comment: bool,
    code: Result<(), Failure>,
    email: Result<(), Failure>,
    password: Result<(), Failure>,
    comment: Result<(), Failure>,
) -> Result<(), Failure> {
    if code is Err {
        code
    } else if email is Err {
        email
    } else if password is Err {
        password
    } else if has_comment && comment is Err {
        comment
    } else {
        Ok(())
    }
}

/// Editing the profile: the code's refusal first, then the email's, else
/// the change of the profile columns.
pub open spec fn edit_profile_spec(
    identity_id: u64,
    input: EditProfileInput,
    code: Result<(), Failure>,
    email: Result<(), Failure>,
) -> Result<ChangeUserEntity, Failure> {
    if code is Err {
        Err(code->Err_0)
    } else if email is Err {
        Err(email->Err_0)
    } else {
        Ok(user_change(
            identity_id,
            Some(input.code),
            Some(Some(input.name)),
            Some(input.email),
            None,
            Some(input.comment),
            Some(input.avatar),
            None,
        ))
    }
}

/// Changing the password: refused unless the current password checked and
/// matched; then refused where the new password's validator refused.
pub open spec fn change_password_check_spec(verification: Option<bool>, new_password: Result<(), Failure>) -> Result<(), Failure> {
    if verification != Some(true) {
        Err(invalid("Password is incorrect."@, "password"@))
    } else {
        new_password
    }
}

/// What deleting an account answers when the update touched `count` rows.
pub open spec fn account_deletion_spec(count: nat) -> Result<(), Failure> {
    if count == 1 {
        Ok(())
    } else {
        Err(Failure::Server {
            message: "The process was terminated due to an unexpected error."@,
            detail: "Database status is invalid. There were "@ + decimal(count) + " updates."@,
        })
    }
}

// ---------------------------------------------------------------------------
// The decisions
// ---------------------------------------------------------------------------

impl Mutation {
    /// Whether signing in succeeds: a user was found by the email address
    /// and the password check (`None` where it failed to run) accepted.
    pub fn sign_in(user: &Option<UserEntity>, verification: Option<bool>) -> (r: bool)
        ensures
            r == (user.is_some() && verification == Some(true)),
    {
        match user {
            Some(_) => match verification {
                Some(matching) => matching,
                None => false,
            },
            None => false,
        }
    }

    /// Whether signing up may go on, given the verdicts of the validators of
    /// the code, the email, the password with its confirmation, and the
    /// comment (at most `COMMENT_MAX_LENGTH` bytes): the first refusal in
    /// that order, the comment's only where `input` has a comment.
    pub fn check_sign_up(
        input: &SignUpInput,
        code_check: Result<(), GraphqlError>,
        email_check: Result<(), GraphqlError>,
        password_check: Result<(), GraphqlError>,
        comment_check: Result<(), GraphqlError>,
    ) -> (r: Result<(), GraphqlError>)
        ensures
            outcome(r) == sign_up_check_spec(
                input.comment.is_some(),
                outcome(code_check),
                outcome(email_check),
                outcome(password_check),
                outcome(comment_check),
            ),
    {
        code_check?;
        email_check?;
        password_check?;
        if input.comment.is_some() {
            comment_check?;
        }
        Ok(())
    }

    /// The user row that signing up inserts, with the password's hash.
    pub fn sign_up(input: SignUpInput, password_hash: String) -> (r: NewUserEntity)
        ensures
            r == (NewUserEntity {
                code: input.code,
                name: Some(input.name),
                email: input.email,
                password: password_hash,
                comment: input.comment,
                avatar: input.avatar,
                role: USER_ROLE_USER,
                status: USER_STATUS_ACTIVE,
            }),
    {
        NewUserEntity {
            code: input.code,
            name: Some(input.name),
            email: input.email,
            password: password_hash,
            comment: input.comment,
            avatar: input.avatar,
            role: USER_ROLE_USER,
            status: USER_STATUS_ACTIVE,
        }
    }

    /// The contact of a new user with itself, which signing up inserts.
    pub fn sign_up_contact(user: &UserEntity) -> (r: NewContactEntity)
        ensures
            r == new_contact(user.id, user.id),
    {
        Self::create_contact(user.id, user.id)
    }

    /// Editing the signed-in user's profile, given the verdicts of the code
    /// validator and the email validator (each of which lets the user keep
    /// its own code and email).
    pub fn edit_profile(
        identity_id: u64,
        input: EditProfileInput,
        code_check: Result<(), GraphqlError>,
        email_check: Result<(), GraphqlError>,
    ) -> (r: Result<ChangeUserEntity, GraphqlError>)
        ensures
            outcome(r) == edit_profile_spec(identity_id, input, outcome(code_check), outcome(email_check)),
    {
        code_check?;
        email_check?;
        Ok(ChangeUserEntity {
            id: identity_id,
            code: Some(input.code),
            name: Some(Some(input.name)),
            email: Some(input.email),
            password: None,
            remember_token: None,
            comment: Some(input.comment),
            avatar: Some(input.avatar),
            role: None,
            status: None,
        })
    }

    /// Whether changing the password may go on: the current password must
    /// have checked and matched (`verification` is `None` where the check
    /// failed to run), then the new password must pass its validator
    /// (`new_password_check`, over the new password and its confirmation).
    pub fn check_change_password(verification: Option<bool>, new_password_check: Result<(), GraphqlError>) -> (r: Result<(), GraphqlError>)
        ensures
            outcome(r) == change_password_check_spec(verification, outcome(new_password_check)),
    {
        let matching: bool = match verification {
            Some(m) => m,
            None => false,
        };
        if !matching {
            return Err(GraphqlError::validation("Password is incorrect.", "password"));
        }
        new_password_check
    }

    /// The password that changing the password hashes and stores: the one
    /// given as the current password. The new password is only validated.
    pub fn password_to_hash(input: &ChangePasswordInput) -> (r: &str)
        ensures
            r@ == input.password@,
    {
        input.password.as_str()
    }

    /// The change of the signed-in user's password to the given hash.
    pub fn change_password(identity_id: u64, password_hash: String) -> (r: ChangeUserEntity)
        ensures
            r == user_change(identity_id, None, None, None, Some(password_hash), None, None, None),
    {
        ChangeUserEntity {
            id: identity_id,
            code: None,
            name: None,
            email: None,
            password: Some(password_hash),
            remember_token: None,
            comment: None,
            avatar: None,
            role: None,
            status: None,
        }
    }

    /// The change that marks the signed-in user's account deleted.
    pub fn delete_account(identity_id: u64) -> (r: ChangeUserEntity)
        ensures
            r == user_change(identity_id, None, None, None, None, None, None, Some(USER_STATUS_DELETED)),
    {
        ChangeUserEntity {
            id: identity_id,
            code: None,
            name: None,
            email: None,
            password: None,
            remember_token: None,
            comment: None,
            avatar: None,
            role: None,
            status: Some(USER_STATUS_DELETED),
        }
    }

    /// Whether deleting the account went through: exactly one row changed.
    pub fn check_account_deleted(count: usize) -> (r: Result<(), GraphqlError>)
        ensures
            outcome(r) == account_deletion_spec(count as nat),
    {
        if count != 1 {
            let mut detail = String::from_str("Database status is invalid. There were ");
            push_decimal(&mut detail, count);
            detail.append(" updates.");
            return Err(
                GraphqlError::server("The process was terminated due to an unexpected error.", detail),
            );
        }
        Ok(())
    }

    /// The approved, unblocked contact of `user_id` with `contact_user_id`.
    pub fn create_contact(user_id: u64, contact_user_id: u64) -> (r: NewContactEntity)
        ensures
            r == new_contact(user_id, contact_user_id),
    {
        NewContactEntity {
            user_id,
            contact_user_id,
            status: CONTACT_STATUS_APPROVED,
            blocked: false,
        }
    }

    /// The unread message from the signed-in user (`identity`) to
    /// `rx_user_id`; refused where nobody is signed in.
    pub fn create_message(
        identity: Option<u64>,
        rx_user_id: u64,
        category: i32,
        message: Option<String>,
    ) -> (r: Result<NewMessageEntity, GraphqlError>)
        ensures
            outcome(r) == create_message_spec(identity, rx_user_id, category, message),
    {
        match identity {
            None => Err(GraphqlError::AuthenticationError),
            Some(id) => Ok(NewMessageEntity {
                tx_user_id: id,
                rx_user_id,
                category,
                message,
                status: MESSAGE_STATUS_UNREAD,
            }),
        }
    }

    /// The event to publish for the message just created, given the
    /// receiver's contact with the sender.
    pub fn created_event(message: &MessageEntity, rx_user_contact: &Option<ContactEntity>) -> (r: Option<MessageChanged>)
        ensures
            r == created_event_spec(*message, *rx_user_contact),
    {
        match rx_user_contact {
            Some(k) => if !k.blocked {
                Some(MessageChanged {
                    id: message.id,
                    tx_user_id: message.tx_user_id,
                    rx_user_id: message.rx_user_id,
                    status: message.status,
                    mutation_type: MutationType::Created,
                })
            } else {
                None
            },
            None => None,
        }
    }

    /// Why `contact` cannot carry messages of `identity_id`, if it cannot.
    fn check_usable_contact(contact: &Option<ContactEntity>, identity_id: u64) -> (r: Result<(), GraphqlError>)
        ensures
            match usable_contact_failure(*contact, identity_id) {
                Some(f) => r is Err && r->Err_0@ == f,
                None => r is Ok,
            },
    {
        match contact {
            None => Err(GraphqlError::validation("Unable to get contact.", "contact_id")),
            Some(c) => {
                if c.user_id != identity_id {
                    return Err(GraphqlError::validation("Invalid contact id", "contact_id"));
                }
                if c.status == CONTACT_STATUS_DELETED {
                    return Err(GraphqlError::validation("Contact has been deleted.", "contact_id"));
                }
                if c.blocked {
                    return Err(GraphqlError::validation("Cntact is blocked", "contact_id"));
                }
                Ok(())
            },
        }
    }

    /// The message that sending `message` over `contact` creates.
    pub fn send_message(contact: &Option<ContactEntity>, identity_id: u64, message: String) -> (r: Result<NewMessageEntity, GraphqlError>)
        ensures
            outcome(r) == send_message_spec(*contact, identity_id, message),
    {
        Self::check_usable_contact(contact, identity_id)?;
        let c = contact.as_ref().unwrap();
        Self::create_message(Some(identity_id), c.contact_user_id, MESSAGE_CATEGORY_MESSAGE, Some(message))
    }

    /// The pair of users whose unread messages reading `contact` marks read.
    pub fn read_message(contact: &Option<ContactEntity>, identity_id: u64) -> (r: Result<(u64, u64), GraphqlError>)
        ensures
            outcome(r) == read_message_spec(*contact, identity_id),
    {
        Self::check_usable_contact(contact, identity_id)?;
        let c = contact.as_ref().unwrap();
        Ok((c.user_id, c.contact_user_id))
    }

    /// The events to publish for the messages that were marked read, given
    /// the sender's contact with the reader.
    pub fn read_events(target: &Vec<MessageEntity>, contact_user_contact: &Option<ContactEntity>) -> (r: Vec<MessageChanged>)
        ensures
            r@ == read_events_spec(target@, *contact_user_contact),
    {
        let mut events: Vec<MessageChanged> = Vec::new();
        let publish: bool = match contact_user_contact {
            Some(k) => !k.blocked,
            None => false,
        };
        if !publish {
            return events;
        }
        let n: usize = target.len();
        for i in 0..n
            invariant
                n == target@.len(),
                events@ == target@.take(i as int).map_values(
                    |m: MessageEntity| event_of(m, MESSAGE_STATUS_READ, MutationType::Updated),
                ),
        {
            let row = &target[i];
            events.push(MessageChanged {
                id: row.id,
                tx_user_id: row.tx_user_id,
                rx_user_id: row.rx_user_id,
                status: MESSAGE_STATUS_READ,
                mutation_type: MutationType::Updated,
            });
            assert(target@.take(i + 1) =~= target@.take(i as int).push(target@[i as int]));
        }
        assert(target@.take(n as int) =~= target@);
        events
    }

    /// The change that deletes `message`.
    pub fn delete_message(message: &Option<MessageEntity>, identity_id: u64) -> (r: Result<ChangeMessageEntity, GraphqlError>)
        ensures
            outcome(r) == delete_message_spec(*message, identity_id),
    {
        match message {
            None => Err(GraphqlError::validation("Unable to get message", "message_id")),
            Some(m) => {
                if m.tx_user_id != identity_id {
                    return Err(GraphqlError::validation("Invalid message id", "message_id"));
                }
                if m.status == MESSAGE_STATUS_DELETED {
                    return Err(GraphqlError::validation("Message has already been deleted", "contact_id"));
                }
                Ok(ChangeMessageEntity {
                    id: m.id,
                    tx_user_id: None,
                    rx_user_id: None,
                    category: None,
                    message: None,
                    status: Some(MESSAGE_STATUS_DELETED),
                })
            },
        }
    }

    /// The event to publish for the deleted message, as read back after the
    /// change, given the sender's contact with the receiver.
    pub fn deleted_event(message: &MessageEntity, sender_contact: &Option<ContactEntity>) -> (r: Option<MessageChanged>)
        ensures
            r == deleted_event_spec(*message, *sender_contact),
    {
        match sender_contact {
            Some(k) => if !k.blocked {
                Some(MessageChanged {
                    id: message.id,
                    tx_user_id: message.tx_user_id,
                    rx_user_id: message.rx_user_id,
                    status: message.status,
                    mutation_type: MutationType::Deleted,
                })
            } else {
                None
            },
            None => None,
        }
    }

    /// The application message to `other_user_id`; `registered` tells
    /// whether the signed-in user already has that user as a contact.
    pub fn contact_application(registered: bool, other_user_id: u64, identity_id: u64) -> (r: Result<NewMessageEntity, GraphqlError>)
        ensures
            outcome(r) == contact_application_spec(registered, other_user_id, identity_id),
    {
        if registered {
            return Err(GraphqlError::validation("Contact is already registered", "other_user_id"));
        }
        Self::create_message(Some(identity_id), other_user_id, MESSAGE_CATEGORY_CONTACT_APPLICATION, None)
    }

    /// The applicant of the application `message`, with whom the resolver
    /// then looks up an existing contact.
    pub fn contact_approval_target(message: &Option<MessageEntity>, identity_id: u64) -> (r: Result<u64, GraphqlError>)
        ensures
            outcome(r) == approval_target_spec(*message, identity_id),
    {
        match message {
            None => Err(GraphqlError::validation("Unable to get contact application message", "message_id")),
            Some(m) => {
                if m.category != MESSAGE_CATEGORY_CONTACT_APPLICATION {
                    return Err(GraphqlError::validation("Message is not a contact application message", "message_id"));
                }
                if m.rx_user_id != identity_id {
                    return Err(GraphqlError::validation("Invalid contact application message id", "message_id"));
                }
                Ok(m.tx_user_id)
            },
        }
    }

    /// The rows that approving the application `message` writes.
    pub fn contact_approval(message: &Option<MessageEntity>, identity_id: u64, registered: bool) -> (r: Result<ContactApproval, GraphqlError>)
        ensures
            outcome(r) == contact_approval_spec(*message, identity_id, registered),
    {
        Self::contact_approval_target(message, identity_id)?;
        if registered {
            return Err(GraphqlError::validation("Contact is already registered", "message_id"));
        }
        let rx: u64 = message.as_ref().unwrap().rx_user_id;
        let own_contact = Self::create_contact(identity_id, rx);
        let other_contact = Self::create_contact(rx, identity_id);
        let approval = Self::create_message(Some(identity_id), rx, MESSAGE_CATEGORY_CONTACT_APPROVAL, None)?;
        Ok(ContactApproval { own_contact, other_contact, approval })
    }

    /// The change that deletes `contact`.
    pub fn delete_contact(contact: &Option<ContactEntity>, identity_id: u64) -> (r: Result<ContactUpdate, GraphqlError>)
        ensures
            outcome(r) == delete_contact_spec(*contact, identity_id),
    {
        match contact {
            None => Err(GraphqlError::validation("Unable to get contact", "contact_id")),
            Some(c) => {
                if c.user_id != identity_id {
                    return Err(GraphqlError::validation("Invalid contact id", "contact_id"));
                }
                if c.status == CONTACT_STATUS_DELETED {
                    return Err(GraphqlError::validation("Contact has already been deleted", "contact_id"));
                }
                Ok(ContactUpdate {
                    change: ChangeContactEntity {
                    id: c.id,
                    user_id: None,
                    contact_user_id: None,
                    status: Some(CONTACT_STATUS_DELETED),
                    blocked: None,
                },
                    read_back: (identity_id, c.contact_user_id),
                })
            },
        }
    }

    /// The change that restores the deleted `contact`.
    pub fn undelete_contact(contact: &Option<ContactEntity>, identity_id: u64) -> (r: Result<ContactUpdate, GraphqlError>)
        ensures
            outcome(r) == undelete_contact_spec(*contact, identity_id),
    {
        match contact {
            None => Err(GraphqlError::validation("Unable to get contact", "contact_id")),
            Some(c) => {
                if c.user_id != identity_id {
                    return Err(GraphqlError::validation("Invalid contact id", "contact_id"));
                }
                if c.status != CONTACT_STATUS_DELETED {
                    return Err(GraphqlError::validation("Contacts have not been deleted", "contact_id"));
                }
                Ok(ContactUpdate {
                    change: ChangeContactEntity {
                    id: c.id,
                    user_id: None,
                    contact_user_id: None,
                    status: Some(CONTACT_STATUS_APPROVED),
                    blocked: None,
                },
                    read_back: (identity_id, c.contact_user_id),
                })
            },
        }
    }

    /// The change that blocks `contact`.
    pub fn block_contact(contact: &Option<ContactEntity>, identity_id: u64) -> (r: Result<ContactUpdate, GraphqlError>)
        ensures
            outcome(r) == block_contact_spec(*contact, identity_id),
    {
        match contact {
            None => Err(GraphqlError::validation("Unable to get contact", "contact_id")),
            Some(c) => {
                if c.user_id != identity_id {
                    return Err(GraphqlError::validation("Invalid contact id", "contact_id"));
                }
                if c.blocked {
                    return Err(GraphqlError::validation("Contact has already been blocked", "contact_id"));
                }
                Ok(ContactUpdate {
                    change: ChangeContactEntity {
                    id: c.id,
                    user_id: None,
                    contact_user_id: None,
                    status: None,
                    blocked: Some(true),
                },
                    read_back: (identity_id, c.contact_user_id),
                })
            },
        }
    }

    /// The change that unblocks `contact`.
    pub fn unblock_contact(contact: &Option<ContactEntity>, identity_id: u64) -> (r: Result<ContactUpdate, GraphqlError>)
        ensures
            outcome(r) == unblock_contact_spec(*contact, identity_id),
    {
        match contact {
            None => Err(GraphqlError::validation("Unable to get contact", "contact_id")),
            Some(c) => {
                if c.user_id != identity_id {
                    return Err(GraphqlError::validation("Invalid contact id", "contact_id"));
                }
                if !c.blocked {
                    return Err(GraphqlError::validation("Contact is not blocked", "contact_id"));
                }
                Ok(ContactUpdate {
                    change: ChangeContactEntity {
                    id: c.id,
                    user_id: None,
                    contact_user_id: None,
                    status: None,
                    blocked: Some(false),
                },
                    read_back: (identity_id, c.contact_user_id),
                })
            },
        }
    }
}

} // verus!
