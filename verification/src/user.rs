//! The user record that the backend reports.

use vstd::prelude::*;

verus! {

/// A user record: an integer identifier and a name. It is produced only by
/// decoding a backend response body; the gateway never constructs or mutates
/// one of its own.
pub struct User {
    pub id: u32,
    pub name: String,
}

/// Mathematical model of a user record.
pub struct UserModel {
    pub id: u32,
    pub name: Seq<char>,
}

impl View for User {
    type V = UserModel;

    open spec fn view(&self) -> UserModel {
        UserModel { id: self.id, name: self.name@ }
    }
}

} // verus!
