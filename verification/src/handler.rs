//! The operations that the core offers to a transport: register, login,
//! logout, the current user, and the listing of users. Each operation is a
//! chain of steps. Between two steps the caller performs what the first one
//! asked of the user directory and hands the answer to the next.

use vstd::prelude::*;
use vstd::utf8::encode_utf8;

use crate::auth::{authentication, permission, Authenticated};
use crate::dtos::{
    outward_view, outward_views, views_of, FilterUserDto, LoginUserDto, RegisterUserDto,
    RequestQueryDto, Response, UserData, UserListResponseDto, UserLoginResponseDto,
    UserResponseDto,
};
use crate::error::{ErrorMessage, HttpError};
use crate::models::{uuid_text, User, UserRole, UserView};
use crate::outside::{hash_is_well_formed, hash_matches, uuid_from_text, uuid_to_string};
use crate::password::{compare, compare_result, hash, refusal};
use crate::token::{create_token, issue_result, TokenError};
use crate::validation::{report_text, ValidationErrors, MAX_PAGE_LIMIT};

verus! {

/// Whether `err` is the refusal of an input that broke the rules `found`: the
/// report of the violations, as a bad request.
pub open spec fn refuses(err: HttpError, found: Seq<crate::validation::Violation>) -> bool {
    err@ == (report_text(found), 400u16)
}

/// The refusal of an input that broke rules.
pub fn invalid_input(errors: &ValidationErrors) -> (err: HttpError)
    ensures
        refuses(err, errors@),
{
    HttpError::bad_request(errors.to_string())
}

/// The record that the directory is asked to store for a new user.
#[derive(Debug, Clone)]
pub struct NewUser {
    pub name: String,
    pub email: String,
    /// The hash of the password.
    pub password: String,
    pub role: UserRole,
    pub verified: bool,
}

/// Why the directory stored no record.
#[derive(Debug, Clone, Copy, PartialEq, Eq, Structural)]
pub enum InsertError {
    /// A record with the same address exists.
    UniqueViolation,
    /// Anything else.
    Other,
}

/// A registration that passed validation; whether its address is taken is
/// still to be looked up.
#[derive(Debug)]
pub struct RegisterLookup {
    dto: RegisterUserDto,
}

/// A login that passed validation; the user of its address is still to be
/// looked up.
#[derive(Debug)]
pub struct LoginLookup {
    dto: LoginUserDto,
}

/// The page of users that the directory is asked for.
#[derive(Debug, Clone, Copy, PartialEq, Eq, Structural)]
pub struct ListRequest {
    pub page: usize,
    pub limit: usize,
}

/// The first step of a registration: validates the input. Nothing is looked
/// up or hashed for an input that breaks a rule.
pub fn register(dto: RegisterUserDto) -> (result: Result<RegisterLookup, HttpError>)
    ensures
        match result {
            Ok(lookup) => dto.violations().len() == 0 && lookup.input() == dto,
            Err(err) => dto.violations().len() > 0 && refuses(err, dto.violations()),
        },
{
    match dto.validate() {
        Ok(_) => Ok(RegisterLookup { dto }),
        Err(errors) => Err(invalid_input(&errors)),
    }
}

/// What the second step of a registration gives, where `taken` says whether
/// the directory holds a user of the address. A taken address is a conflict.
/// A password that the hasher refuses is a hashing failure. Else the record
/// to store holds the name and the address as submitted, in place of the
/// password a hash against which the submitted password verifies, the lowest
/// role, and is not verified.
pub open spec fn registration(
    dto: RegisterUserDto,
    taken: bool,
    result: Result<NewUser, HttpError>,
) -> bool {
    if taken {
        result matches Err(err) && err.reports(ErrorMessage::EmailExists)
    } else if refusal(dto.password@) is Some {
        result matches Err(err) && err.reports(ErrorMessage::HashingError)
    } else {
        &&& result matches Ok(new_user)
        &&& new_user.name@ == dto.name@
        &&& new_user.email@ == dto.email@
        &&& hash_is_well_formed(new_user.password@)
        &&& hash_matches(encode_utf8(dto.password@), new_user.password@)
        &&& new_user.password@ != dto.password@
        &&& new_user.role == UserRole::User
        &&& !new_user.verified
    }
}

impl RegisterLookup {
    #[verifier::type_invariant]
    spec fn valid(&self) -> bool {
        self.dto.violations().len() == 0
    }

    /// The input that passed validation.
    pub closed spec fn input(&self) -> RegisterUserDto {
        self.dto
    }

    /// The address to look up. The input it comes from broke no rule.
    pub fn email(&self) -> (email: &str)
        ensures
            email@ == self.input().email@,
            self.input().violations().len() == 0,
    {
        proof {
            use_type_invariant(self);
        }
        self.dto.email.as_str()
    }

    /// The second step: takes what the directory holds for the address, and
    /// hashes the password where the address is free.
    pub fn on_lookup(self, existing: Option<User>) -> (result: Result<NewUser, HttpError>)
        ensures
            registration(self.input(), existing is Some, result),
    {
        if existing.is_some() {
            return Err(HttpError::from_kind(ErrorMessage::EmailExists));
        }
        let hashed = hash(self.dto.password.as_str());
        self.on_hashed(hashed)
    }

    /// The record to store, given what hashing the password gave: the record
    /// with the hash where there is one, a hashing failure where there is
    /// none.
    pub fn on_hashed(self, hashed: Result<String, ErrorMessage>) -> (result: Result<
        NewUser,
        HttpError,
    >)
        ensures
            match hashed {
                Ok(hash) => result matches Ok(new_user) && {
                    &&& new_user.name@ == self.input().name@
                    &&& new_user.email@ == self.input().email@
                    &&& new_user.password@ == hash@
                    &&& new_user.role == UserRole::User
                    &&& !new_user.verified
                },
                Err(_) => result matches Err(err) && err.reports(ErrorMessage::HashingError),
            },
    {
        match hashed {
            Ok(password) => Ok(
                NewUser {
                    name: self.dto.name,
                    email: self.dto.email,
                    password,
                    role: UserRole::User,
                    verified: false,
                },
            ),
            Err(_) => Err(HttpError::from_kind(ErrorMessage::HashingError)),
        }
    }
}

/// The answer about one user: the outward view of the record, tagged as a
/// success.
pub open spec fn shows_user(response: UserResponseDto, user: UserView) -> bool {
    response.status@ == "success"@ && response.data.user@ == outward_view(user)
}

/// The answer about a complete user record.
pub fn user_response(user: &User) -> (response: UserResponseDto)
    requires
        user@.is_complete(),
    ensures
        shows_user(response, user@),
{
    UserResponseDto {
        status: "success".to_owned(),
        data: UserData { user: FilterUserDto::filter_user(user) },
    }
}

/// The last step of a registration: takes what the directory stored. A
/// violation of uniqueness is the conflict that the lookup would have found;
/// any other failure is a server error. The record that is handed in has both
/// timestamps set.
pub fn registered(inserted: Result<User, InsertError>) -> (result: Result<
    UserResponseDto,
    HttpError,
>)
    requires
        inserted matches Ok(user) ==> user@.is_complete(),
    ensures
        match inserted {
            Ok(user) => result matches Ok(response) && shows_user(response, user@),
            Err(InsertError::UniqueViolation) => result matches Err(err) && err.reports(
                ErrorMessage::EmailExists,
            ),
            Err(InsertError::Other) => result matches Err(err) && err.reports(
                ErrorMessage::ServerError,
            ),
        },
{
    match inserted {
        Ok(user) => Ok(user_response(&user)),
        Err(InsertError::UniqueViolation) => Err(HttpError::from_kind(ErrorMessage::EmailExists)),
        Err(InsertError::Other) => Err(HttpError::from_kind(ErrorMessage::ServerError)),
    }
}

/// The first step of a login: validates the input. Nothing is looked up or
/// hashed for an input that breaks a rule.
pub fn login(dto: LoginUserDto) -> (result: Result<LoginLookup, HttpError>)
    ensures
        match result {
            Ok(lookup) => dto.violations().len() == 0 && lookup.input() == dto,
            Err(err) => dto.violations().len() > 0 && refuses(err, dto.violations()),
        },
{
    match dto.validate() {
        Ok(_) => Ok(LoginLookup { dto }),
        Err(errors) => Err(invalid_input(&errors)),
    }
}

/// Whether the submitted password opens the account that was found, or why
/// the login fails before a token is issued. An unknown address and a wrong
/// password fail alike.
pub open spec fn credentials(password: Seq<char>, found: Option<UserView>) -> Result<
    UserView,
    ErrorMessage,
> {
    match found {
        None => Err(ErrorMessage::WrongCredentials),
        Some(user) => match compare_result(password, user.password) {
            Err(kind) => Err(kind),
            Ok(false) => Err(ErrorMessage::WrongCredentials),
            Ok(true) => Ok(user),
        },
    }
}

/// What the second step of a login gives. Where the credentials fail, the
/// failure. Where the expiry `now + ttl` lies beyond the largest time that a
/// token can carry, a server error. Else a token whose subject is the text of
/// the user's identifier, from which the identifier is read back, issued at
/// `now` for `ttl` seconds under the secret.
pub open spec fn login_outcome(
    password: Seq<char>,
    found: Option<UserView>,
    secret: Seq<u8>,
    now: u64,
    ttl: u64,
    result: Result<UserLoginResponseDto, HttpError>,
) -> bool {
    match credentials(password, found) {
        Err(kind) => result matches Err(err) && err.reports(kind),
        Ok(user) => if now + ttl > u64::MAX {
            result matches Err(err) && err.reports(ErrorMessage::ServerError)
        } else {
            &&& result matches Ok(response)
            &&& response.status@ == "success"@
            &&& issue_result(
                uuid_text(user.id),
                secret,
                now,
                ttl,
                Ok::<String, TokenError>(response.token),
            )
            &&& uuid_from_text(uuid_text(user.id)) == Some(user.id)
        },
    }
}

/// The failure of a login whose password check gave `matched`, or `None`
/// where the password opened the account.
pub fn password_verdict(matched: Result<bool, ErrorMessage>) -> (failure: Option<HttpError>)
    ensures
        match matched {
            Ok(true) => failure is None,
            Ok(false) => failure matches Some(err) && err.reports(ErrorMessage::WrongCredentials),
            Err(kind) => failure matches Some(err) && err.reports(kind),
        },
{
    match matched {
        Ok(true) => None,
        Ok(false) => Some(HttpError::from_kind(ErrorMessage::WrongCredentials)),
        Err(kind) => Some(HttpError::from_kind(kind)),
    }
}

/// The answer to a login, given what issuing the token gave: the token,
/// tagged as a success, or a server error where none was issued.
pub fn login_response(issued: Result<String, TokenError>) -> (result: Result<
    UserLoginResponseDto,
    HttpError,
>)
    ensures
        match issued {
            Ok(token) => result matches Ok(response) && response.status@ == "success"@
                && response.token == token,
            Err(_) => result matches Err(err) && err.reports(ErrorMessage::ServerError),
        },
{
    match issued {
        Ok(token) => Ok(UserLoginResponseDto { status: "success".to_owned(), token }),
        Err(_) => Err(HttpError::from_kind(ErrorMessage::ServerError)),
    }
}

impl LoginLookup {
    #[verifier::type_invariant]
    spec fn valid(&self) -> bool {
        self.dto.violations().len() == 0
    }

    /// The input that passed validation.
    pub closed spec fn input(&self) -> LoginUserDto {
        self.dto
    }

    /// The address to look up. The input it comes from broke no rule.
    pub fn email(&self) -> (email: &str)
        ensures
            email@ == self.input().email@,
            self.input().violations().len() == 0,
    {
        proof {
            use_type_invariant(self);
        }
        self.dto.email.as_str()
    }

    /// The second step: takes what the directory holds for the address,
    /// checks the password against the stored hash and, where it verifies,
    /// issues a token at the time `now` for `ttl` seconds under the secret.
    pub fn on_lookup(self, found: Option<User>, secret: &[u8], now: u64, ttl: u64) -> (result:
        Result<UserLoginResponseDto, HttpError>)
        ensures
            login_outcome(
                self.input().password@,
                match found {
                    Some(user) => Some(user@),
                    None => None,
                },
                secret@,
                now,
                ttl,
                result,
            ),
    {
        let user = match found {
            Some(user) => user,
            None => {
                return Err(HttpError::from_kind(ErrorMessage::WrongCredentials));
            },
        };
        let matched = compare(self.dto.password.as_str(), user.password.as_str());
        match password_verdict(matched) {
            Some(failure) => Err(failure),
            None => {
                let subject = uuid_to_string(user.id);
                login_response(create_token(subject.as_str(), secret, now, ttl))
            },
        }
    }
}

/// A login with an address that the directory does not hold and a login with
/// a known address and a password that does not verify fail alike: with the
/// same status and the same message, those of wrong credentials.
pub proof fn law_login_failures_look_alike(
    password: Seq<char>,
    other_password: Seq<char>,
    user: UserView,
    secret: Seq<u8>,
    now: u64,
    ttl: u64,
    unknown: Result<UserLoginResponseDto, HttpError>,
    wrong: Result<UserLoginResponseDto, HttpError>,
)
    requires
        login_outcome(password, None, secret, now, ttl, unknown),
        login_outcome(other_password, Some(user), secret, now, ttl, wrong),
        compare_result(other_password, user.password) == Ok::<bool, ErrorMessage>(false),
    ensures
        unknown matches Err(a) && wrong matches Err(b) && a@ == b@ && a.reports(
            ErrorMessage::WrongCredentials,
        ),
{
}

/// The token that a login hands out opens the protected operations for the
/// user who logged in: carried in the cookie or in a bearer header, it names
/// that user at every time before its expiry, and is invalid from then on.
pub proof fn law_login_token_authenticates(
    password: Seq<char>,
    user: UserView,
    secret: Seq<u8>,
    now: u64,
    ttl: u64,
    result: Result<UserLoginResponseDto, HttpError>,
    at: u64,
)
    requires
        login_outcome(password, Some(user), secret, now, ttl, result),
        result is Ok,
    ensures
        at < now + ttl ==> authentication(Some(result->Ok_0.token@), None, secret, at) == Ok::<
            u128,
            ErrorMessage,
        >(user.id),
        at < now + ttl ==> authentication(
            None,
            Some("Bearer "@ + result->Ok_0.token@),
            secret,
            at,
        ) == Ok::<u128, ErrorMessage>(user.id),
        at >= now + ttl ==> authentication(Some(result->Ok_0.token@), None, secret, at) == Err::<
            u128,
            ErrorMessage,
        >(ErrorMessage::InvalidToken),
{
    let token = result->Ok_0.token@;
    let header = "Bearer "@ + token;
    reveal_strlit("Bearer ");
    assert(header.subrange(0, 7) =~= "Bearer "@);
    assert(header.subrange(7, header.len() as int) =~= token);
}

/// What a registration stores in place of the password is a hash against
/// which the password verifies, and not the password.
pub proof fn law_registration_stores_a_hash(dto: RegisterUserDto, result: Result<NewUser, HttpError>)
    requires
        registration(dto, false, result),
        result is Ok,
    ensures
        compare_result(dto.password@, result->Ok_0.password@) == Ok::<bool, ErrorMessage>(true),
        result->Ok_0.password@ != dto.password@,
        result->Ok_0.role == UserRole::User,
        !result->Ok_0.verified,
{
}

/// The password of a registration opens the account that was stored for it:
/// a login with that password against a record that holds the stored hash
/// does not fail on the credentials.
pub proof fn law_registered_password_opens_the_account(
    dto: RegisterUserDto,
    stored: Result<NewUser, HttpError>,
    user: UserView,
)
    requires
        registration(dto, false, stored),
        stored is Ok,
        user.password == stored->Ok_0.password@,
    ensures
        credentials(dto.password@, Some(user)) == Ok::<UserView, ErrorMessage>(user),
{
}

/// The acknowledgement of a logout. Tokens are not kept by the server, so
/// nothing changes: the client discards its token.
pub fn logout() -> (response: Response)
    ensures
        response.status@ == "success"@,
        response.message@ == "Logged out"@,
{
    Response { status: "success", message: "Logged out".to_owned() }
}

/// The answer about the user that a request speaks for.
pub fn get_me(auth: &Authenticated) -> (response: UserResponseDto)
    ensures
        shows_user(response, auth.spec_user()@),
{
    user_response(auth.user())
}

/// The roles that may list the users.
pub open spec fn listing_roles() -> Seq<UserRole> {
    seq![UserRole::Admin, UserRole::Moderator]
}

/// What a paging asks of the directory: the page and the page size that it
/// names, with the defaults where it names none; or the rules that it breaks.
pub open spec fn listing(query: RequestQueryDto) -> Result<
    ListRequest,
    Seq<crate::validation::Violation>,
> {
    if query.violations().len() > 0 {
        Err(query.violations())
    } else {
        Ok(ListRequest { page: query.spec_page_or_default(), limit: query.spec_limit_or_default() })
    }
}

/// The first step of a listing of users: a denial where the user's role may
/// not list; else the refusal of a paging that breaks a rule; else the page to
/// ask the directory for.
pub fn get_users(auth: Authenticated, query: &RequestQueryDto) -> (result: Result<
    ListRequest,
    HttpError,
>)
    ensures
        match permission(auth.spec_user()@, listing_roles()) {
            Err(kind) => result matches Err(err) && err.reports(kind),
            Ok(_) => match listing(*query) {
                Err(found) => result matches Err(err) && refuses(err, found),
                Ok(request) => result == Ok::<ListRequest, HttpError>(request),
            },
        },
        result matches Ok(request) ==> request.page >= 1 && 1 <= request.limit <= MAX_PAGE_LIMIT,
{
    let allowed = [UserRole::Admin, UserRole::Moderator];
    assert(allowed@ =~= listing_roles());
    match auth.authorize(allowed.as_slice()) {
        Err(err) => Err(err),
        Ok(_) => match query.validate() {
            Err(errors) => Err(invalid_input(&errors)),
            Ok(_) => Ok(
                ListRequest { page: query.page_or_default(), limit: query.limit_or_default() },
            ),
        },
    }
}

/// The last step of a listing: the outward views of the records that the
/// directory handed out, in their order, and their number. Each record has
/// both timestamps set.
pub fn listed(users: &[User]) -> (response: UserListResponseDto)
    requires
        forall|i: int| 0 <= i < users@.len() ==> (#[trigger] users@[i])@.is_complete(),
    ensures
        response.status@ == "success"@,
        views_of(response.users@) == outward_views(users@),
        response.results == users@.len(),
{
    let views = FilterUserDto::filter_users(users);
    assert(views@.len() == views_of(views@).len());
    UserListResponseDto { status: "success".to_owned(), results: users.len(), users: views }
}

} // verus!
