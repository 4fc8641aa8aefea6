//! User records and login credentials, and the rules a registration must
//! meet before it reaches the credential store.

use vstd::prelude::*;
use vstd::string::StringExecFns;
use vstd::string::StringSliceAdditionalSpecFns;
use crate::text::is_prefix_of;
use crate::text::starts_with;

verus! {

/// Ids that begin with this prefix belong to guests.
pub open spec fn guest_prefix() -> Seq<char> {
    "guest_"@
}

/// Ids that begin with this prefix are reserved for the administrator.
pub open spec fn root_prefix() -> Seq<char> {
    "root"@
}

/// The shortest password hash a registration may carry, in bytes.
pub const MIN_PASSWORD_LEN: usize = 4;

/// A user record as the credential store keeps it.
#[derive(Clone, Debug, PartialEq, Eq)]
pub struct User {
    pub id: String,
    pub password_hash: String,
    pub bio: Option<String>,
    pub location: Option<String>,
}

/// The mathematical value of a [`User`].
pub struct UserView {
    pub id: Seq<char>,
    pub password_hash: Seq<char>,
    pub bio: Option<Seq<char>>,
    pub location: Option<Seq<char>>,
}

/// A login credential: a guest login, or an id with a password hash.
#[derive(Clone, Debug, PartialEq, Eq)]
pub struct Login {
    pub guest: bool,
    pub id: Option<String>,
    pub password_hash: Option<String>,
}

/// The mathematical value of a [`Login`].
pub struct LoginView {
    pub guest: bool,
    pub id: Option<Seq<char>>,
    pub password_hash: Option<Seq<char>>,
}

/// The characters of an optional string.
pub open spec fn opt_view(s: Option<String>) -> Option<Seq<char>> {
    match s {
        Some(x) => Some(x@),
        None => None,
    }
}

/// Whether `id` is the id of a guest.
pub open spec fn is_guest_id(id: Seq<char>) -> bool {
    is_prefix_of(guest_prefix(), id)
}

/// Whether `id` may not be registered: it reads as a guest id or begins
/// with the administrator's name.
pub open spec fn is_reserved_id(id: Seq<char>) -> bool {
    is_guest_id(id) || is_prefix_of(root_prefix(), id)
}

/// Why a registration is refused, if it is.
pub enum RegistrationError {
    /// The id is reserved.
    ReservedId,
    /// The password hash is shorter than [`MIN_PASSWORD_LEN`] bytes.
    ShortPassword,
}

impl RegistrationError {
    /// The reason as the client is told it.
    pub fn reason(&self) -> (s: String)
        ensures
            s@ == match self {
                RegistrationError::ReservedId => "Reserved id format"@,
                RegistrationError::ShortPassword => "too short password! (password >= 4)"@,
            },
    {
        match self {
            RegistrationError::ReservedId => String::from_str("Reserved id format"),
            RegistrationError::ShortPassword => String::from_str(
                "too short password! (password >= 4)",
            ),
        }
    }
}

impl View for User {
    type V = UserView;

    open spec fn view(&self) -> UserView {
        UserView {
            id: self.id@,
            password_hash: self.password_hash@,
            bio: opt_view(self.bio),
            location: opt_view(self.location),
        }
    }
}

impl View for Login {
    type V = LoginView;

    open spec fn view(&self) -> LoginView {
        LoginView {
            guest: self.guest,
            id: opt_view(self.id),
            password_hash: opt_view(self.password_hash),
        }
    }
}

impl UserView {
    /// The refusal that a registration of this record meets, if any. A
    /// reserved id is reported before a short password.
    pub open spec fn registration_error(self) -> Option<RegistrationError> {
        if is_reserved_id(self.id) {
            Some(RegistrationError::ReservedId)
        } else if vstd::utf8::encode_utf8(self.password_hash).len() < MIN_PASSWORD_LEN {
            Some(RegistrationError::ShortPassword)
        } else {
            None
        }
    }
}

/// Whether `id` is the id of a guest.
pub fn is_guest(id: &str) -> (r: bool)
    ensures
        r == is_guest_id(id@),
{
    starts_with(id, "guest_")
}

impl User {
    /// Checks this record against the rules for new accounts. `Ok` means the
    /// record may be handed to the credential store.
    pub fn validate(&self) -> (r: Result<(), RegistrationError>)
        ensures
            match r {
                Ok(_) => self@.registration_error() is None,
                Err(e) => self@.registration_error() == Some(e),
            },
    {
        if is_guest(self.id.as_str()) || starts_with(self.id.as_str(), "root") {
            Err(RegistrationError::ReservedId)
        } else if self.password_hash.as_str().as_bytes().len() < MIN_PASSWORD_LEN {
            Err(RegistrationError::ShortPassword)
        } else {
            Ok(())
        }
    }
}

impl Login {
    /// The credential of a guest.
    pub fn guest() -> (login: Login)
        ensures
            login@ == (LoginView { guest: true, id: None, password_hash: None }),
    {
        Login { guest: true, id: None, password_hash: None }
    }
}

} // verus!
