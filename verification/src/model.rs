//! The user record and the error taxonomy of the service.

use vstd::prelude::*;

verus! {

/// A user as exchanged on the wire and kept in storage. `id` is absent on a
/// creation payload and present on every stored record.
#[derive(Debug, Clone, PartialEq, Eq)]
pub struct User {
    pub id: Option<i32>,
    pub name: String,
    pub email: String,
}

/// The mathematical value of a [`User`].
pub struct UserModel {
    pub id: Option<int>,
    pub name: Seq<char>,
    pub email: Seq<char>,
}

impl View for User {
    type V = UserModel;

    open spec fn view(&self) -> UserModel {
        UserModel {
            id: match self.id {
                Some(n) => Some(n as int),
                None => None,
            },
            name: self.name@,
            email: self.email@,
        }
    }
}

/// What can go wrong while serving one request.
#[derive(Debug, Clone, Copy, PartialEq, Eq, Structural)]
pub enum ApiError {
    /// The body is not a JSON object with string `name` and `email`.
    MalformedPayload,
    /// No connection to the store could be established.
    StorageUnavailable,
    /// The store refused the statement, for instance on a key collision.
    StorageError,
    /// No row has the requested id, or no route matches the request.
    NotFound,
}

/// The smallest identifier the service assigns.
pub const MIN_ID: i32 = 1;

/// The largest identifier the service assigns.
pub const MAX_ID: i32 = 1000;

} // verus!
