//! Codes stored in the `role`, `status` and `category` columns.
use vstd::prelude::*;

verus! {

/// Role of an ordinary signed-up user.
pub const USER_ROLE_USER: i32 = 1;

/// Status of a user account that can sign in.
pub const USER_STATUS_ACTIVE: i32 = 1;

/// Status of a user account that was deleted by its owner.
pub const USER_STATUS_DELETED: i32 = 9;

/// Status of a contact that both sides agreed to.
pub const CONTACT_STATUS_APPROVED: i32 = 1;

/// Status of a contact that its owner deleted.
pub const CONTACT_STATUS_DELETED: i32 = 9;

/// Category of an ordinary text message.
pub const MESSAGE_CATEGORY_MESSAGE: i32 = 1;

/// Category of a message that asks the receiver to become a contact.
pub const MESSAGE_CATEGORY_CONTACT_APPLICATION: i32 = 2;

/// Category of a message that answers a contact application.
pub const MESSAGE_CATEGORY_CONTACT_APPROVAL: i32 = 3;

/// Status of a message that its receiver has not read yet.
pub const MESSAGE_STATUS_UNREAD: i32 = 1;

/// Status of a message that its receiver has read.
pub const MESSAGE_STATUS_READ: i32 = 2;

/// Status of a message that its sender deleted.
pub const MESSAGE_STATUS_DELETED: i32 = 9;

/// The most bytes a profile comment may hold: about fifty characters at
/// four bytes each. Sign-up hands it to the length validator of the comment.
pub const COMMENT_MAX_LENGTH: usize = 200;

} // verus!
