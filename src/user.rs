//! The identity of the monitored user.

use vstd::prelude::*;
use vstd::string::*;

verus! {

/// Why a user identity request failed.
#[derive(Clone, Copy, Debug, PartialEq, Eq, Structural)]
pub enum UserError {
    /// The identifier is not known to the store.
    InvalidUserId,
    /// No identifier has been set.
    NotSet,
}

/// The identifier of the user the agent reports for, once set.
pub struct UserSession {
    user_id: Option<String>,
}

/// The name records are filed under while no user is set.
pub open spec fn unknown_user() -> Seq<char> {
    "unknown"@
}

impl View for UserSession {
    type V = Option<Seq<char>>;

    closed spec fn view(&self) -> Option<Seq<char>> {
        match self.user_id {
            None => None,
            Some(s) => Some(s@),
        }
    }
}

impl UserSession {
    /// No user set.
    pub fn new() -> (r: UserSession)
        ensures
            r@ is None,
    {
        UserSession { user_id: None }
    }

    /// Sets the user, given whether the store knows the identifier; an unknown
    /// one is refused and changes nothing.
    pub fn set_user_id(&mut self, user_id: String, known: bool) -> (r: Result<(), UserError>)
        ensures
            known ==> r is Ok && final(self)@ == Some(user_id@),
            !known ==> r == Err::<(), UserError>(UserError::InvalidUserId) && final(self)@ == old(
                self,
            )@,
    {
        if known {
            self.user_id = Some(user_id);
            Ok(())
        } else {
            Err(UserError::InvalidUserId)
        }
    }

    /// The user's identifier, if set.
    pub fn get_user_id(&self) -> (r: Result<String, UserError>)
        ensures
            match self@ {
                None => r == Err::<String, UserError>(UserError::NotSet),
                Some(id) => r matches Ok(s) && s@ == id,
            },
    {
        match &self.user_id {
            None => Err(UserError::NotSet),
            Some(s) => Ok(s.clone()),
        }
    }

    /// Whether a user is set.
    pub fn is_user_id_set(&self) -> (r: bool)
        ensures
            r == (self@ is Some),
    {
        self.user_id.is_some()
    }

    /// The identifier records are filed under: the user's, or `unknown`.
    pub fn effective_user_id(&self) -> (r: String)
        ensures
            r@ == match self@ {
                None => unknown_user(),
                Some(id) => id,
            },
    {
        match &self.user_id {
            None => String::from_str("unknown"),
            Some(s) => s.clone(),
        }
    }
}

/// Whether a user is set, for start-up code that decides which window to show.
pub fn is_user_id_set_sync(session: &UserSession) -> (r: bool)
    ensures
        r == (session@ is Some),
{
    session.is_user_id_set()
}

} // verus!
