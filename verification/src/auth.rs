//! The steps that guard a protected operation. Every request starts
//! unauthenticated: a token is taken from the request and validated, the user
//! it names is looked up, and the user's role is held against the roles that
//! the operation allows. The lookup is the caller's to perform, between the
//! first step and the second.

use vstd::prelude::*;

use crate::error::{ErrorMessage, HttpError, StatusClass};
use crate::models::{User, UserRole, UserView};
use crate::outside::{parse_uuid, token_claims, uuid_from_text};
use crate::token::{decode_token, subject_at};

verus! {

/// The text of an optional string.
pub open spec fn text_of(text: Option<&str>) -> Option<Seq<char>> {
    match text {
        Some(t) => Some(t@),
        None => None,
    }
}

/// The token that a request carries: the value of the token cookie where
/// there is one; else what follows the scheme in an authorization header of
/// the bearer scheme; else none.
pub open spec fn token_in(cookie: Option<Seq<char>>, authorization: Option<Seq<char>>) -> Option<
    Seq<char>,
> {
    match cookie {
        Some(c) => Some(c),
        None => match authorization {
            Some(h) => if h.len() >= 7 && h.subrange(0, 7) == "Bearer "@ {
                Some(h.subrange(7, h.len() as int))
            } else {
                None
            },
            None => None,
        },
    }
}

/// The user that a request speaks for at the time `now`: the one whose
/// identifier is the subject of the request's token, where the request
/// carries a token that is valid under the secret.
pub open spec fn authentication(
    cookie: Option<Seq<char>>,
    authorization: Option<Seq<char>>,
    secret: Seq<u8>,
    now: u64,
) -> Result<u128, ErrorMessage> {
    match token_in(cookie, authorization) {
        None => Err(ErrorMessage::TokenNotProvided),
        Some(token) => subject_user(subject_at(token_claims(token, secret), now)),
    }
}

/// The user that the subject of a validated token names. A subject that is
/// no identifier makes the token invalid.
pub open spec fn subject_user(subject: Result<Seq<char>, ErrorMessage>) -> Result<
    u128,
    ErrorMessage,
> {
    match subject {
        Err(e) => Err(e),
        Ok(sub) => match uuid_from_text(sub) {
            Some(id) => Ok(id),
            None => Err(ErrorMessage::InvalidToken),
        },
    }
}

/// What the lookup of the user gives: the user where the directory still
/// holds one, a failure where it holds none.
pub open spec fn resolution(found: Option<UserView>) -> Result<UserView, ErrorMessage> {
    match found {
        Some(user) => Ok(user),
        None => Err(ErrorMessage::UserNoLongerExists),
    }
}

/// What the check of the role gives: the user where the role is among the
/// allowed ones, a denial where it is not.
pub open spec fn permission(user: UserView, allowed: Seq<UserRole>) -> Result<
    UserView,
    ErrorMessage,
> {
    if allowed.contains(user.role) {
        Ok(user)
    } else {
        Err(ErrorMessage::PermissionDenied)
    }
}

/// The whole decision on a request to an operation that allows the roles
/// `allowed`, where `found` is what the directory holds for the user that the
/// token names.
pub open spec fn access(
    cookie: Option<Seq<char>>,
    authorization: Option<Seq<char>>,
    secret: Seq<u8>,
    now: u64,
    found: Option<UserView>,
    allowed: Seq<UserRole>,
) -> Result<UserView, ErrorMessage> {
    match authentication(cookie, authorization, secret, now) {
        Err(e) => Err(e),
        Ok(_) => match resolution(found) {
            Err(e) => Err(e),
            Ok(user) => permission(user, allowed),
        },
    }
}

/// A request whose token was valid; the user it names is still to be looked
/// up.
#[derive(Debug)]
pub struct PendingUser {
    user_id: u128,
}

/// A request that speaks for a user whom the directory holds.
#[derive(Debug)]
pub struct Authenticated {
    user: User,
}

/// A request whose user has a role that the operation allows.
#[derive(Debug)]
pub struct Authorized {
    user: User,
}

impl PendingUser {
    /// The identifier that the token named.
    pub closed spec fn spec_user_id(&self) -> u128 {
        self.user_id
    }

    /// The identifier to look up.
    #[verifier::when_used_as_spec(spec_user_id)]
    pub fn user_id(&self) -> (id: u128)
        ensures
            id == self.spec_user_id(),
    {
        self.user_id
    }

    /// Takes what the directory holds for the user. The record that is handed
    /// in is the one of the identifier that the token named, and has both
    /// timestamps set.
    pub fn resolve(self, found: Option<User>) -> (result: Result<Authenticated, HttpError>)
        requires
            found matches Some(user) ==> user.id == self.spec_user_id() && user@.is_complete(),
        ensures
            match found {
                Some(user) => result matches Ok(auth) && auth.spec_user() == user,
                None => result matches Err(err) && err.reports(ErrorMessage::UserNoLongerExists),
            },
    {
        match found {
            Some(user) => Ok(Authenticated { user }),
            None => Err(HttpError::from_kind(ErrorMessage::UserNoLongerExists)),
        }
    }
}

impl Authenticated {
    #[verifier::type_invariant]
    spec fn complete(&self) -> bool {
        self.user@.is_complete()
    }

    /// The user that the request speaks for.
    pub closed spec fn spec_user(&self) -> User {
        self.user
    }

    /// The user that the request speaks for. Its record has both timestamps
    /// set.
    pub fn user(&self) -> (user: &User)
        ensures
            *user == self.spec_user(),
            user@.is_complete(),
    {
        proof {
            use_type_invariant(self);
        }
        &self.user
    }

    /// Holds the user's role against the roles that the operation allows.
    pub fn authorize(self, allowed: &[UserRole]) -> (result: Result<Authorized, HttpError>)
        ensures
            match permission(self.spec_user()@, allowed@) {
                Ok(_) => result matches Ok(granted) && granted.spec_user() == self.spec_user(),
                Err(kind) => result matches Err(err) && err.reports(kind),
            },
    {
        proof {
            use_type_invariant(&self);
        }
        if has_role(allowed, self.user.role) {
            Ok(Authorized { user: self.user })
        } else {
            Err(HttpError::from_kind(ErrorMessage::PermissionDenied))
        }
    }
}

impl Authorized {
    #[verifier::type_invariant]
    spec fn complete(&self) -> bool {
        self.user@.is_complete()
    }

    /// The user that was granted access.
    pub closed spec fn spec_user(&self) -> User {
        self.user
    }

    /// The user that was granted access. Its record has both timestamps set.
    pub fn user(&self) -> (user: &User)
        ensures
            *user == self.spec_user(),
            user@.is_complete(),
    {
        proof {
            use_type_invariant(self);
        }
        &self.user
    }
}

/// Tells whether `role` is among `allowed`.
pub fn has_role(allowed: &[UserRole], role: UserRole) -> (found: bool)
    ensures
        found == allowed@.contains(role),
{
    let n = allowed.len();
    let mut i: usize = 0;
    while i < n
        invariant
            n == allowed@.len(),
            i <= n,
            forall|j: int| 0 <= j < i ==> allowed@[j] != role,
        decreases n - i,
    {
        if allowed[i] == role {
            return true;
        }
        i += 1;
    }
    false
}

/// Takes the token out of a request, given the value of the token cookie and
/// the value of the authorization header, each where the request has one.
pub fn extract_token(cookie: Option<&str>, authorization: Option<&str>) -> (token: Option<String>)
    ensures
        match token_in(text_of(cookie), text_of(authorization)) {
            Some(t) => token matches Some(s) && s@ == t,
            None => token is None,
        },
{
    match cookie {
        Some(c) => Some(c.to_owned()),
        None => match authorization {
            Some(h) => {
                let n = h.unicode_len();
                if n >= 7 && h.substring_char(0, 7).to_owned() == "Bearer ".to_owned() {
                    Some(h.substring_char(7, n).to_owned())
                } else {
                    None
                }
            },
            None => None,
        },
    }
}

/// The request that follows from reading an identifier out of a token's
/// subject: pending on the user where one was read, an invalid token where
/// none was.
pub fn pending_user(parsed: Option<u128>) -> (result: Result<PendingUser, HttpError>)
    ensures
        match parsed {
            Some(id) => result matches Ok(pending) && pending.spec_user_id() == id,
            None => result matches Err(err) && err.reports(ErrorMessage::InvalidToken),
        },
{
    match parsed {
        Some(user_id) => Ok(PendingUser { user_id }),
        None => Err(HttpError::from_kind(ErrorMessage::InvalidToken)),
    }
}

/// The first step on every protected request: takes the token out of the
/// request and validates it under the secret at the time `now`.
pub fn authenticate(
    cookie: Option<&str>,
    authorization: Option<&str>,
    secret: &[u8],
    now: u64,
) -> (result: Result<PendingUser, HttpError>)
    ensures
        match authentication(text_of(cookie), text_of(authorization), secret@, now) {
            Ok(id) => result matches Ok(pending) && pending.spec_user_id() == id,
            Err(kind) => result matches Err(err) && err.reports(kind),
        },
{
    let token = match extract_token(cookie, authorization) {
        Some(token) => token,
        None => {
            return Err(HttpError::from_kind(ErrorMessage::TokenNotProvided));
        },
    };
    match decode_token(token.as_str(), secret, now) {
        Ok(subject) => pending_user(parse_uuid(subject.as_str())),
        Err(kind) => Err(HttpError::from_kind(kind)),
    }
}

/// A request is refused for the first reason that applies, in the order of the
/// steps: no token, an invalid token, a user that no longer exists, a role
/// that is not allowed. The first three are reported as unauthorized, the
/// last as forbidden.
pub proof fn law_access_refusals(
    cookie: Option<Seq<char>>,
    authorization: Option<Seq<char>>,
    secret: Seq<u8>,
    now: u64,
    found: Option<UserView>,
    allowed: Seq<UserRole>,
)
    ensures
        match access(cookie, authorization, secret, now, found, allowed) {
            Ok(user) => {
                &&& token_in(cookie, authorization) is Some
                &&& authentication(cookie, authorization, secret, now) is Ok
                &&& found == Some(user)
                &&& allowed.contains(user.role)
            },
            Err(ErrorMessage::TokenNotProvided) => token_in(cookie, authorization) is None,
            Err(ErrorMessage::InvalidToken) => {
                &&& token_in(cookie, authorization) is Some
                &&& authentication(cookie, authorization, secret, now) is Err
            },
            Err(ErrorMessage::UserNoLongerExists) => {
                &&& authentication(cookie, authorization, secret, now) is Ok
                &&& found is None
            },
            Err(ErrorMessage::PermissionDenied) => {
                &&& authentication(cookie, authorization, secret, now) is Ok
                &&& found matches Some(user)
                &&& !allowed.contains(user.role)
            },
            Err(_) => false,
        },
        access(cookie, authorization, secret, now, found, allowed) matches Err(kind) ==> {
            if kind == ErrorMessage::PermissionDenied {
                kind.spec_status_class() == StatusClass::Forbidden
            } else {
                kind.spec_status_class() == StatusClass::Unauthorized
            }
        },
{
}

/// A request without a token is refused for that, whatever else holds.
pub proof fn law_no_token_no_access(
    secret: Seq<u8>,
    now: u64,
    found: Option<UserView>,
    allowed: Seq<UserRole>,
)
    ensures
        access(None, None, secret, now, found, allowed) == Err::<UserView, ErrorMessage>(
            ErrorMessage::TokenNotProvided,
        ),
{
}

} // verus!
