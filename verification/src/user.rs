//! The users of the room.

use vstd::prelude::*;
use crate::ids::{hyphenated, is_random_uuid, new_random_uuid, uuid_text};
use crate::source::Source;

verus! {

/// A user: a UUID, the account it has at a music service if any, a name and
/// an avatar URL.
#[derive(Debug)]
pub struct User {
    pub id: u128,
    pub source: Option<Source>,
    pub name: String,
    pub avatar: Option<String>,
}

impl User {
    /// The user of a session: the stored one, or else a new user with the
    /// id `id`, named by that id's hyphenated text, with no account and no
    /// avatar.
    pub fn create_with_id(stored: Option<User>, id: u128) -> (res: User)
        ensures
            match stored {
                Some(u) => res == u,
                None => {
                    &&& res.id == id
                    &&& res.source is None
                    &&& res.name@ == hyphenated(id)
                    &&& res.avatar is None
                },
            },
    {
        match stored {
            Some(u) => u,
            None => {
                let name = uuid_text(id);
                User { id, source: None, name, avatar: None }
            },
        }
    }

    /// The user of a session: the stored one, or else a new user with a new
    /// random UUID, as `create_with_id` makes it.
    pub fn create(stored: Option<User>) -> (res: User)
        ensures
            match stored {
                Some(u) => res == u,
                None => {
                    &&& is_random_uuid(res.id)
                    &&& res.source is None
                    &&& res.name@ == hyphenated(res.id)
                    &&& res.avatar is None
                },
            },
    {
        match stored {
            Some(u) => u,
            None => {
                let id = new_random_uuid();
                User::create_with_id(None, id)
            },
        }
    }
}

} // verus!
