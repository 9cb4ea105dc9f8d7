//! Rows of the database tables, the rows to insert and the changes to apply.
//! A change holds `None` for each column it leaves as it is.
use vstd::prelude::*;

verus! {

/// A date and time without a time zone, as the database stores it.
#[verifier::external_type_specification]
#[verifier::external_body]
pub struct ExNaiveDateTime(chrono::NaiveDateTime);

/// A row of `users`.
#[derive(Debug, PartialEq)]
pub struct UserEntity {
    pub id: u64,
    pub code: String,
    pub name: Option<String>,
    pub email: String,
    pub password: String,
    pub remember_token: Option<String>,
    pub comment: Option<String>,
    pub avatar: Option<String>,
    pub role: i32,
    pub status: i32,
    pub created_at: chrono::NaiveDateTime,
    pub updated_at: chrono::NaiveDateTime,
}

/// A row to insert into `users`.
#[derive(Debug, Clone, PartialEq)]
pub struct NewUserEntity {
    pub code: String,
    pub name: Option<String>,
    pub email: String,
    pub password: String,
    pub comment: Option<String>,
    pub avatar: Option<String>,
    pub role: i32,
    pub status: i32,
}

/// A change of the row of `users` with this `id`.
#[derive(Debug, Clone, PartialEq)]
pub struct ChangeUserEntity {
    pub id: u64,
    pub code: Option<String>,
    pub name: Option<Option<String>>,
    pub email: Option<String>,
    pub password: Option<String>,
    pub remember_token: Option<Option<String>>,
    pub comment: Option<Option<String>>,
    pub avatar: Option<Option<String>>,
    pub role: Option<i32>,
    pub status: Option<i32>,
}

impl Default for ChangeUserEntity {
    fn default() -> (r: Self)
        ensures
            r == (ChangeUserEntity {
                id: 0,
                code: None,
                name: None,
                email: None,
                password: None,
                remember_token: None,
                comment: None,
                avatar: None,
                role: None,
                status: None,
            }),
    {
        ChangeUserEntity {
            id: 0,
            code: None,
            name: None,
            email: None,
            password: None,
            remember_token: None,
            comment: None,
            avatar: None,
            role: None,
            status: None,
        }
    }
}

/// A row of `contacts`: `user_id` holds `contact_user_id` in its contact list.
#[derive(Debug, PartialEq)]
pub struct ContactEntity {
    pub id: u64,
    pub user_id: u64,
    pub contact_user_id: u64,
    pub status: i32,
    pub blocked: bool,
    pub created_at: chrono::NaiveDateTime,
    pub updated_at: chrono::NaiveDateTime,
}

/// A row to insert into `contacts`.
#[derive(Debug, Clone, Copy, PartialEq, Eq)]
pub struct NewContactEntity {
    pub user_id: u64,
    pub contact_user_id: u64,
    pub status: i32,
    pub blocked: bool,
}

/// A change of the row of `contacts` with this `id`.
#[derive(Debug, Clone, Copy, PartialEq, Eq)]
pub struct ChangeContactEntity {
    pub id: u64,
    pub user_id: Option<u64>,
    pub contact_user_id: Option<u64>,
    pub status: Option<i32>,
    pub blocked: Option<bool>,
}

impl Default for ChangeContactEntity {
    fn default() -> (r: Self)
        ensures
            r == (ChangeContactEntity {
                id: 0,
                user_id: None,
                contact_user_id: None,
                status: None,
                blocked: None,
            }),
    {
        ChangeContactEntity { id: 0, user_id: None, contact_user_id: None, status: None, blocked: None }
    }
}

/// A row of `messages`, sent by `tx_user_id` to `rx_user_id`.
#[derive(Debug, PartialEq)]
pub struct MessageEntity {
    pub id: u64,
    pub tx_user_id: u64,
    pub rx_user_id: u64,
    pub category: i32,
    pub message: Option<String>,
    pub status: i32,
    pub created_at: chrono::NaiveDateTime,
    pub updated_at: chrono::NaiveDateTime,
}

/// A row to insert into `messages`.
#[derive(Debug, Clone, PartialEq)]
pub struct NewMessageEntity {
    pub tx_user_id: u64,
    pub rx_user_id: u64,
    pub category: i32,
    pub message: Option<String>,
    pub status: i32,
}

/// A change of the row of `messages` with this `id`.
#[derive(Debug, Clone, PartialEq)]
pub struct ChangeMessageEntity {
    pub id: u64,
    pub tx_user_id: Option<u64>,
    pub rx_user_id: Option<u64>,
    pub category: Option<i32>,
    pub message: Option<Option<String>>,
    pub status: Option<i32>,
}

impl Default for ChangeMessageEntity {
    fn default() -> (r: Self)
        ensures
            r == (ChangeMessageEntity {
                id: 0,
                tx_user_id: None,
                rx_user_id: None,
                category: None,
                message: None,
                status: None,
            }),
    {
        ChangeMessageEntity {
            id: 0,
            tx_user_id: None,
            rx_user_id: None,
            category: None,
            message: None,
            status: None,
        }
    }
}

/// The latest message exchanged with one user, with that user's profile.
#[derive(Debug, Clone, PartialEq)]
pub struct LatestMessageEntity {
    pub user_id: u64,
    pub user_code: String,
    pub user_name: Option<String>,
    pub user_avatar: Option<String>,
    pub message_id: u64,
    pub message_category: i32,
    pub message: Option<String>,
    pub message_status: i32,
}

/// A row of `calls`, a call that belongs to a message.
#[derive(Debug, PartialEq)]
pub struct CallEntity {
    pub id: u64,
    pub message_id: u64,
    pub status: i32,
    pub started_at: Option<chrono::NaiveDateTime>,
    pub ended_at: Option<chrono::NaiveDateTime>,
    pub created_at: chrono::NaiveDateTime,
    pub updated_at: chrono::NaiveDateTime,
}

/// A row to insert into `calls`.
#[derive(Debug, Clone, Copy, PartialEq, Eq)]
pub struct NewCallEntity {
    pub message_id: u64,
    pub status: i32,
}

/// A change of the row of `calls` with this `id`.
#[derive(Debug, PartialEq)]
pub struct ChangeCallEntity {
    pub id: u64,
    pub message_id: Option<u64>,
    pub status: Option<i32>,
    pub started_at: Option<Option<chrono::NaiveDateTime>>,
    pub ended_at: Option<Option<chrono::NaiveDateTime>>,
}

impl Default for ChangeCallEntity {
    fn default() -> (r: Self)
        ensures
            r == (ChangeCallEntity {
                id: 0,
                message_id: None,
                status: None,
                started_at: None,
                ended_at: None,
            }),
    {
        ChangeCallEntity { id: 0, message_id: None, status: None, started_at: None, ended_at: None }
    }
}

/// A row of `email_verification_tokens`, keyed by `user_id`.
#[derive(Debug, PartialEq)]
pub struct EmailVerificationTokenEntity {
    pub user_id: u64,
    pub category: i32,
    pub email: String,
    pub token: String,
    pub created_at: chrono::NaiveDateTime,
}

/// A row to insert into `email_verification_tokens`.
#[derive(Debug, Clone, PartialEq)]
pub struct NewEmailVerificationTokenEntity {
    pub user_id: u64,
    pub category: i32,
    pub email: String,
    pub token: String,
}

/// A row of `password_reset_tokens`, keyed by `user_id`.
#[derive(Debug, PartialEq)]
pub struct PasswordResetTokenEntity {
    pub user_id: u64,
    pub token: String,
    pub created_at: chrono::NaiveDateTime,
}

/// A row to insert into `password_reset_tokens`.
#[derive(Debug, Clone, PartialEq)]
pub struct NewPasswordResetTokenEntity {
    pub user_id: u64,
    pub token: String,
}

/// The row of `contacts` that the change `ch` makes of `c`.
pub open spec fn contact_after(c: ContactEntity, ch: ChangeContactEntity) -> ContactEntity {
    ContactEntity {
        id: c.id,
        user_id: match ch.user_id { Some(v) => v, None => c.user_id },
        contact_user_id: match ch.contact_user_id { Some(v) => v, None => c.contact_user_id },
        status: match ch.status { Some(v) => v, None => c.status },
        blocked: match ch.blocked { Some(v) => v, None => c.blocked },
        created_at: c.created_at,
        updated_at: c.updated_at,
    }
}

/// The row of `messages` that the change `ch` makes of `m`.
pub open spec fn message_after(m: MessageEntity, ch: ChangeMessageEntity) -> MessageEntity {
    MessageEntity {
        id: m.id,
        tx_user_id: match ch.tx_user_id { Some(v) => v, None => m.tx_user_id },
        rx_user_id: match ch.rx_user_id { Some(v) => v, None => m.rx_user_id },
        category: match ch.category { Some(v) => v, None => m.category },
        message: match ch.message { Some(v) => v, None => m.message },
        status: match ch.status { Some(v) => v, None => m.status },
        created_at: m.created_at,
        updated_at: m.updated_at,
    }
}

} // verus!
