//! What a client submits and what it is answered with.

use vstd::prelude::*;

use crate::models::{uuid_text, Timestamp, User, UserView};
use crate::outside::{email_is_valid, uuid_to_string, validate_email};
use crate::validation::{ValidationErrors, Violation, MAX_PAGE_LIMIT, MIN_PASSWORD_CHARS};

verus! {

/// What a client submits to register.
#[derive(Debug, Clone)]
pub struct RegisterUserDto {
    pub name: String,
    pub email: String,
    pub password: String,
    pub password_confirm: String,
}

/// What a client submits to log in.
#[derive(Debug, Clone)]
pub struct LoginUserDto {
    pub email: String,
    pub password: String,
}

/// The paging that a client asks of a listing.
#[derive(Debug, Clone, Copy)]
pub struct RequestQueryDto {
    pub page: Option<usize>,
    pub limit: Option<usize>,
}

/// The page that is listed where the client names none.
pub const DEFAULT_PAGE: usize = 1;

/// The page size that is used where the client names none.
pub const DEFAULT_LIMIT: usize = 10;

/// The one violation `v` where `broken` holds, none otherwise.
pub open spec fn violation_if(broken: bool, v: Violation) -> Seq<Violation> {
    if broken {
        seq![v]
    } else {
        Seq::empty()
    }
}

/// The rules that a registration breaks, where `email_ok` says whether the
/// address is valid: the name and the address must not be empty, the address
/// must be valid, the password must have the minimum number of characters,
/// and the confirmation must not be empty and must equal the password.
pub open spec fn register_violations_with(
    name: Seq<char>,
    email: Seq<char>,
    email_ok: bool,
    password: Seq<char>,
    password_confirm: Seq<char>,
) -> Seq<Violation> {
    violation_if(name.len() < 1, Violation::NameRequired) + violation_if(
        email.len() < 1,
        Violation::EmailRequired,
    ) + violation_if(!email_ok, Violation::EmailInvalid) + violation_if(
        password.len() < MIN_PASSWORD_CHARS,
        Violation::PasswordTooShort,
    ) + violation_if(password_confirm.len() < 1, Violation::PasswordConfirmRequired)
        + violation_if(password_confirm != password, Violation::PasswordMismatch)
}

/// The rules that a registration breaks.
pub open spec fn register_violations(
    name: Seq<char>,
    email: Seq<char>,
    password: Seq<char>,
    password_confirm: Seq<char>,
) -> Seq<Violation> {
    register_violations_with(name, email, email_is_valid(email), password, password_confirm)
}

/// The rules that a login breaks, where `email_ok` says whether the address
/// is valid: the address must not be empty and must be valid, and the
/// password must have the minimum number of characters.
pub open spec fn login_violations_with(
    email: Seq<char>,
    email_ok: bool,
    password: Seq<char>,
) -> Seq<Violation> {
    violation_if(email.len() < 1, Violation::EmailRequired) + violation_if(
        !email_ok,
        Violation::EmailInvalid,
    ) + violation_if(password.len() < MIN_PASSWORD_CHARS, Violation::PasswordTooShort)
}

/// The rules that a login breaks.
pub open spec fn login_violations(email: Seq<char>, password: Seq<char>) -> Seq<Violation> {
    login_violations_with(email, email_is_valid(email), password)
}

/// The rules that a paging breaks: a page that is named must be at least one,
/// a page size that is named must lie between one and the maximum.
pub open spec fn query_violations(page: Option<usize>, limit: Option<usize>) -> Seq<Violation> {
    violation_if(page matches Some(p) && p < 1, Violation::PageTooSmall) + violation_if(
        limit matches Some(l) && (l < 1 || l > MAX_PAGE_LIMIT),
        Violation::LimitOutOfRange,
    )
}

/// The result of a validation that found the violations `found`.
pub open spec fn validation_result(
    found: Seq<Violation>,
    result: Result<(), ValidationErrors>,
) -> bool {
    match result {
        Ok(_) => found.len() == 0,
        Err(errors) => found.len() > 0 && errors@ == found,
    }
}

fn note(violations: &mut Vec<Violation>, broken: bool, v: Violation)
    ensures
        final(violations)@ == old(violations)@ + violation_if(broken, v),
{
    if broken {
        violations.push(v);
    }
    assert(violations@ =~= old(violations)@ + violation_if(broken, v));
}

fn finish(violations: Vec<Violation>) -> (result: Result<(), ValidationErrors>)
    ensures
        validation_result(violations@, result),
{
    if violations.len() == 0 {
        Ok(())
    } else {
        Err(ValidationErrors { violations })
    }
}

impl Default for RegisterUserDto {
    fn default() -> (dto: RegisterUserDto)
        ensures
            dto.name@.len() == 0,
            dto.email@.len() == 0,
            dto.password@.len() == 0,
            dto.password_confirm@.len() == 0,
    {
        RegisterUserDto {
            name: String::new(),
            email: String::new(),
            password: String::new(),
            password_confirm: String::new(),
        }
    }
}

impl Default for LoginUserDto {
    fn default() -> (dto: LoginUserDto)
        ensures
            dto.email@.len() == 0,
            dto.password@.len() == 0,
    {
        LoginUserDto { email: String::new(), password: String::new() }
    }
}

impl RegisterUserDto {
    /// The rules that this registration breaks.
    pub open spec fn violations(&self) -> Seq<Violation> {
        register_violations(self.name@, self.email@, self.password@, self.password_confirm@)
    }

    /// Checks every rule and reports all that are broken, in the order of
    /// their declaration.
    pub fn validate(&self) -> (result: Result<(), ValidationErrors>)
        ensures
            validation_result(self.violations(), result),
    {
        let email_ok = validate_email(self.email.as_str());
        self.validate_with(email_ok)
    }

    /// The validation, given what the check of the address said.
    pub fn validate_with(&self, email_ok: bool) -> (result: Result<(), ValidationErrors>)
        ensures
            validation_result(
                register_violations_with(
                    self.name@,
                    self.email@,
                    email_ok,
                    self.password@,
                    self.password_confirm@,
                ),
                result,
            ),
    {
        let mut found: Vec<Violation> = Vec::new();
        assert(found@ =~= Seq::<Violation>::empty());
        note(&mut found, self.name.as_str().is_empty(), Violation::NameRequired);
        note(&mut found, self.email.as_str().is_empty(), Violation::EmailRequired);
        note(&mut found, !email_ok, Violation::EmailInvalid);
        note(
            &mut found,
            self.password.as_str().unicode_len() < MIN_PASSWORD_CHARS,
            Violation::PasswordTooShort,
        );
        note(
            &mut found,
            self.password_confirm.as_str().is_empty(),
            Violation::PasswordConfirmRequired,
        );
        let same = self.password_confirm == self.password;
        note(&mut found, !same, Violation::PasswordMismatch);
        assert(found@ =~= register_violations_with(
            self.name@,
            self.email@,
            email_ok,
            self.password@,
            self.password_confirm@,
        ));
        finish(found)
    }
}

impl LoginUserDto {
    /// The rules that this login breaks.
    pub open spec fn violations(&self) -> Seq<Violation> {
        login_violations(self.email@, self.password@)
    }

    /// Checks every rule and reports all that are broken, in the order of
    /// their declaration.
    pub fn validate(&self) -> (result: Result<(), ValidationErrors>)
        ensures
            validation_result(self.violations(), result),
    {
        let email_ok = validate_email(self.email.as_str());
        self.validate_with(email_ok)
    }

    /// The validation, given what the check of the address said.
    pub fn validate_with(&self, email_ok: bool) -> (result: Result<(), ValidationErrors>)
        ensures
            validation_result(login_violations_with(self.email@, email_ok, self.password@), result),
    {
        let mut found: Vec<Violation> = Vec::new();
        assert(found@ =~= Seq::<Violation>::empty());
        note(&mut found, self.email.as_str().is_empty(), Violation::EmailRequired);
        note(&mut found, !email_ok, Violation::EmailInvalid);
        note(
            &mut found,
            self.password.as_str().unicode_len() < MIN_PASSWORD_CHARS,
            Violation::PasswordTooShort,
        );
        assert(found@ =~= login_violations_with(self.email@, email_ok, self.password@));
        finish(found)
    }
}

impl RequestQueryDto {
    /// The rules that this paging breaks.
    pub open spec fn violations(&self) -> Seq<Violation> {
        query_violations(self.page, self.limit)
    }

    /// The page to list: the one named, or the default.
    pub open spec fn spec_page_or_default(&self) -> usize {
        match self.page {
            Some(p) => p,
            None => DEFAULT_PAGE,
        }
    }

    /// The page size to use: the one named, or the default.
    pub open spec fn spec_limit_or_default(&self) -> usize {
        match self.limit {
            Some(l) => l,
            None => DEFAULT_LIMIT,
        }
    }

    /// Checks both rules and reports all that are broken, in the order of
    /// their declaration.
    pub fn validate(&self) -> (result: Result<(), ValidationErrors>)
        ensures
            validation_result(self.violations(), result),
    {
        let mut found: Vec<Violation> = Vec::new();
        assert(found@ =~= Seq::<Violation>::empty());
        let page_broken = match self.page {
            Some(p) => p < 1,
            None => false,
        };
        let limit_broken = match self.limit {
            Some(l) => l < 1 || l > MAX_PAGE_LIMIT,
            None => false,
        };
        note(&mut found, page_broken, Violation::PageTooSmall);
        note(&mut found, limit_broken, Violation::LimitOutOfRange);
        assert(found@ =~= self.violations());
        finish(found)
    }

    #[verifier::when_used_as_spec(spec_page_or_default)]
    pub fn page_or_default(&self) -> (page: usize)
        ensures
            page == self.spec_page_or_default(),
    {
        match self.page {
            Some(p) => p,
            None => DEFAULT_PAGE,
        }
    }

    #[verifier::when_used_as_spec(spec_limit_or_default)]
    pub fn limit_or_default(&self) -> (limit: usize)
        ensures
            limit == self.spec_limit_or_default(),
    {
        match self.limit {
            Some(l) => l,
            None => DEFAULT_LIMIT,
        }
    }
}

/// Validation reads nothing but the text of the fields: two registrations
/// with the same text break the same rules, however often they are checked.
pub proof fn law_register_validation_repeats(a: RegisterUserDto, b: RegisterUserDto)
    requires
        a.name@ == b.name@,
        a.email@ == b.email@,
        a.password@ == b.password@,
        a.password_confirm@ == b.password_confirm@,
    ensures
        a.violations() == b.violations(),
{
}

/// Two logins with the same text break the same rules.
pub proof fn law_login_validation_repeats(a: LoginUserDto, b: LoginUserDto)
    requires
        a.email@ == b.email@,
        a.password@ == b.password@,
    ensures
        a.violations() == b.violations(),
{
}

/// Two results of validating one registration agree: both accept, or both
/// report the same violations.
pub proof fn law_register_validation_is_a_function(
    dto: RegisterUserDto,
    first: Result<(), ValidationErrors>,
    second: Result<(), ValidationErrors>,
)
    requires
        validation_result(dto.violations(), first),
        validation_result(dto.violations(), second),
    ensures
        first is Ok <==> second is Ok,
        first matches Err(e1) ==> second matches Err(e2) && e1@ == e2@,
{
}

/// A registration is accepted exactly where every field is filled, the address
/// is valid, the password has the minimum length, and the confirmation equals
/// it.
pub proof fn law_register_accepts(dto: RegisterUserDto)
    ensures
        dto.violations().len() == 0 <==> {
            &&& dto.name@.len() >= 1
            &&& dto.email@.len() >= 1
            &&& email_is_valid(dto.email@)
            &&& dto.password@.len() >= MIN_PASSWORD_CHARS
            &&& dto.password_confirm@ == dto.password@
        },
{
}

/// The outward view of a user: everything but the stored hash.
#[derive(Debug, Clone)]
pub struct FilterUserDto {
    pub id: String,
    pub name: String,
    pub email: String,
    pub role: String,
    pub photo: String,
    pub verified: bool,
    pub created_at: Timestamp,
    pub updated_at: Timestamp,
}

/// The outward view as plain values.
pub struct FilterUserView {
    pub id: Seq<char>,
    pub name: Seq<char>,
    pub email: Seq<char>,
    pub role: Seq<char>,
    pub photo: Seq<char>,
    pub verified: bool,
    pub created_at: Timestamp,
    pub updated_at: Timestamp,
}

impl View for FilterUserDto {
    type V = FilterUserView;

    open spec fn view(&self) -> FilterUserView {
        FilterUserView {
            id: self.id@,
            name: self.name@,
            email: self.email@,
            role: self.role@,
            photo: self.photo@,
            verified: self.verified,
            created_at: self.created_at,
            updated_at: self.updated_at,
        }
    }
}

/// The outward view of a complete user record: the identifier as text, the
/// role by its name, the other fields as they are, and no password.
pub open spec fn outward_view(user: UserView) -> FilterUserView
    recommends
        user.is_complete(),
{
    outward_view_with(uuid_text(user.id), user)
}

/// The outward views of a list of users, one for each, in the same order.
pub open spec fn outward_views(users: Seq<User>) -> Seq<FilterUserView> {
    Seq::new(users.len(), |i: int| outward_view(users[i]@))
}

/// The views of a list of outward records.
pub open spec fn views_of(users: Seq<FilterUserDto>) -> Seq<FilterUserView> {
    Seq::new(users.len(), |i: int| users[i]@)
}

/// The outward view of a complete user record under the given text for its
/// identifier.
pub open spec fn outward_view_with(id: Seq<char>, user: UserView) -> FilterUserView
    recommends
        user.is_complete(),
{
    FilterUserView {
        id,
        name: user.name,
        email: user.email,
        role: user.role.name(),
        photo: user.photo,
        verified: user.verified,
        created_at: user.created_at->0,
        updated_at: user.updated_at->0,
    }
}

impl FilterUserDto {
    /// Projects a complete user record to its outward view, given the text of
    /// its identifier.
    pub fn with_id(id: String, user: &User) -> (out: FilterUserDto)
        requires
            user@.is_complete(),
        ensures
            out@ == outward_view_with(id@, user@),
    {
        FilterUserDto {
            id,
            name: user.name.clone(),
            email: user.email.clone(),
            role: user.role.to_str().to_owned(),
            photo: user.photo.clone(),
            verified: user.verified,
            created_at: user.created_at.unwrap(),
            updated_at: user.updated_at.unwrap(),
        }
    }

    /// Projects a complete user record to its outward view.
    pub fn filter_user(user: &User) -> (out: FilterUserDto)
        requires
            user@.is_complete(),
        ensures
            out@ == outward_view(user@),
    {
        FilterUserDto::with_id(uuid_to_string(user.id), user)
    }

    /// Projects each record of a list, keeping the order.
    pub fn filter_users(user: &[User]) -> (out: Vec<FilterUserDto>)
        requires
            forall|i: int| 0 <= i < user@.len() ==> (#[trigger] user@[i])@.is_complete(),
        ensures
            views_of(out@) == outward_views(user@),
    {
        let mut out: Vec<FilterUserDto> = Vec::new();
        let n = user.len();
        let mut i: usize = 0;
        while i < n
            invariant
                n == user@.len(),
                i <= n,
                out@.len() == i,
                forall|j: int| 0 <= j < user@.len() ==> (#[trigger] user@[j])@.is_complete(),
                forall|j: int| 0 <= j < i ==> (#[trigger] out@[j])@ == outward_view(user@[j]@),
            decreases n - i,
        {
            out.push(FilterUserDto::filter_user(&user[i]));
            i += 1;
        }
        assert(views_of(out@) =~= outward_views(user@));
        out
    }
}

/// The payload of an answer about one user.
#[derive(Debug, Clone)]
pub struct UserData {
    pub user: FilterUserDto,
}

/// The answer about one user.
#[derive(Debug, Clone)]
pub struct UserResponseDto {
    pub status: String,
    pub data: UserData,
}

/// The answer to a listing.
#[derive(Debug, Clone)]
pub struct UserListResponseDto {
    pub status: String,
    pub users: Vec<FilterUserDto>,
    pub results: usize,
}

/// The answer to a login.
#[derive(Debug, Clone)]
pub struct UserLoginResponseDto {
    pub status: String,
    pub token: String,
}

/// The body of any plain answer: a status tag and a message.
#[derive(Debug)]
pub struct Response {
    pub status: &'static str,
    pub message: String,
}

} // verus!
