//! What the API hands out: the public profile of a user and the events that
//! the message subscription carries.
use vstd::prelude::*;
use crate::entity::{MessageEntity, UserEntity};

verus! {

/// The public profile of a user.
#[derive(Debug)]
pub struct User {
    pub id: u64,
    pub code: String,
    pub name: Option<String>,
    pub email: String,
    pub avatar: Option<String>,
}

impl Default for User {
    fn default() -> (r: Self)
        ensures
            r.id == 0,
            r.code@ == Seq::<char>::empty(),
            r.name.is_none(),
            r.email@ == Seq::<char>::empty(),
            r.avatar.is_none(),
    {
        User { id: 0, code: String::new(), name: None, email: String::new(), avatar: None }
    }
}

/// A copy of an optional text.
fn copy_text(t: &Option<String>) -> (r: Option<String>)
    ensures
        r == *t,
{
    match t {
        Some(s) => Some(s.clone()),
        None => None,
    }
}

/// The profile of a user row: its id, code, name, email and avatar.
pub open spec fn profile_of(entity: UserEntity) -> User {
    User {
        id: entity.id,
        code: entity.code,
        name: entity.name,
        email: entity.email,
        avatar: entity.avatar,
    }
}

impl<'a> From<&'a UserEntity> for User {
    fn from(entity: &'a UserEntity) -> (r: Self) {
        User {
            id: entity.id,
            code: entity.code.clone(),
            name: copy_text(&entity.name),
            email: entity.email.clone(),
            avatar: copy_text(&entity.avatar),
        }
    }
}

impl<'a> vstd::std_specs::convert::FromSpecImpl<&'a UserEntity> for User {
    open spec fn obeys_from_spec() -> bool {
        true
    }

    open spec fn from_spec(entity: &'a UserEntity) -> User {
        profile_of(*entity)
    }
}

/// A view of an optional text as an optional borrowed text.
fn borrow_text(t: &Option<String>) -> (r: Option<&str>)
    ensures
        r.is_some() == t.is_some(),
        r.is_some() ==> r.unwrap()@ == t.unwrap()@,
{
    match t {
        Some(s) => Some(s.as_str()),
        None => None,
    }
}

impl User {
    /// The user's id.
    pub fn id(&self) -> (r: u64)
        ensures
            r == self.id,
    {
        self.id
    }

    /// The user's code.
    pub fn code(&self) -> (r: &str)
        ensures
            r@ == self.code@,
    {
        self.code.as_str()
    }

    /// The user's name, if it has one.
    pub fn name(&self) -> (r: Option<&str>)
        ensures
            r.is_some() == self.name.is_some(),
            r.is_some() ==> r.unwrap()@ == self.name.unwrap()@,
    {
        borrow_text(&self.name)
    }

    /// The user's email address.
    pub fn email(&self) -> (r: &str)
        ensures
            r@ == self.email@,
    {
        self.email.as_str()
    }

    /// What the API answers for the avatar field: the user's name, as the
    /// schema has always resolved it.
    pub fn avatar(&self) -> (r: Option<&str>)
        ensures
            r.is_some() == self.name.is_some(),
            r.is_some() ==> r.unwrap()@ == self.name.unwrap()@,
    {
        borrow_text(&self.name)
    }
}

/// What happened to a message.
#[derive(Debug, Clone, Copy, PartialEq, Eq, Structural)]
pub enum MutationType {
    Created,
    Updated,
    Deleted,
}

/// An event about a message, published to its subscribers.
#[derive(Debug, Clone, Copy, PartialEq, Eq, Structural)]
pub struct MessageChanged {
    pub id: u64,
    pub tx_user_id: u64,
    pub rx_user_id: u64,
    pub status: i32,
    pub mutation_type: MutationType,
}

/// The event that reports `mutation_type` of message `m` with status `status`.
pub open spec fn event_of(m: MessageEntity, status: i32, mutation_type: MutationType) -> MessageChanged {
    MessageChanged {
        id: m.id,
        tx_user_id: m.tx_user_id,
        rx_user_id: m.rx_user_id,
        status,
        mutation_type,
    }
}

} // verus!
