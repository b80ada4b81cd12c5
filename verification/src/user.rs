//! The part of a platform user's metadata that avatar resolution reads.

use vstd::prelude::*;

verus! {

/// A user as the platform reports it, reduced to what decides the avatar.
#[derive(Clone, Debug)]
pub struct UserRecord {
    /// The user's snowflake identifier.
    pub id: u64,
    /// The legacy four-digit suffix; `0` for an account on the unique-username system.
    pub discriminator: u16,
    /// The hash of the user's custom avatar, if the user has one.
    pub avatar: Option<String>,
}

/// The mathematical content of a [`UserRecord`].
pub struct UserModel {
    pub id: u64,
    pub discriminator: u16,
    pub avatar: Option<Seq<char>>,
}

impl View for UserRecord {
    type V = UserModel;

    open spec fn view(&self) -> UserModel {
        UserModel {
            id: self.id,
            discriminator: self.discriminator,
            avatar: match self.avatar {
                Some(hash) => Some(hash@),
                None => None,
            },
        }
    }
}

impl UserRecord {
    /// Builds a record from the three fields the platform sends.
    pub fn new(id: u64, discriminator: u16, avatar: Option<String>) -> (user: UserRecord)
        ensures
            user.id == id,
            user.discriminator == discriminator,
            user.avatar == avatar,
    {
        UserRecord { id, discriminator, avatar }
    }
}

} // verus!
