//! The user record as the core reads it.

use vstd::prelude::*;

use crate::text::digit_char;

verus! {

/// The closed set of roles, from the most to the least privileged.
#[derive(Debug, Clone, Copy, PartialEq, Eq, Structural)]
pub enum UserRole {
    Admin,
    Moderator,
    User,
}

impl UserRole {
    /// The lower-case name under which a role is stored and shown.
    pub open spec fn name(self) -> Seq<char> {
        match self {
            UserRole::Admin => "admin"@,
            UserRole::Moderator => "moderator"@,
            UserRole::User => "user"@,
        }
    }

    pub fn to_str(&self) -> (name: &'static str)
        ensures
            name@ == self.name(),
    {
        match self {
            UserRole::Admin => "admin",
            UserRole::Moderator => "moderator",
            UserRole::User => "user",
        }
    }
}

/// The three names differ, so a name tells the role.
pub proof fn law_role_names_differ(a: UserRole, b: UserRole)
    ensures
        a.name() == b.name() <==> a == b,
{
    reveal_strlit("admin");
    reveal_strlit("moderator");
    reveal_strlit("user");
    if a != b {
        assert(a.name().len() != b.name().len());
    }
}

/// The character of the hexadecimal digit `d`, in lower case.
pub open spec fn hex_digit_char(d: nat) -> char
    recommends
        d < 16,
{
    if d < 10 {
        digit_char(d)
    } else if d == 10 {
        'a'
    } else if d == 11 {
        'b'
    } else if d == 12 {
        'c'
    } else if d == 13 {
        'd'
    } else if d == 14 {
        'e'
    } else {
        'f'
    }
}

/// The last `count` hexadecimal digits of `n`, in lower case, most
/// significant first.
pub open spec fn hex_digits(n: nat, count: nat) -> Seq<char>
    decreases count,
{
    if count == 0 {
        Seq::empty()
    } else {
        hex_digits(n / 16, (count - 1) as nat).push(hex_digit_char(n % 16))
    }
}

/// The text of the identifier with the 128-bit value `id`: its 32 hexadecimal
/// digits in lower case, most significant first, in groups of 8, 4, 4, 4 and
/// 12 with a hyphen between two groups.
pub open spec fn uuid_text(id: u128) -> Seq<char> {
    let digits = hex_digits(id as nat, 32);
    digits.subrange(0, 8) + seq!['-'] + digits.subrange(8, 12) + seq!['-'] + digits.subrange(
        12,
        16,
    ) + seq!['-'] + digits.subrange(16, 20) + seq!['-'] + digits.subrange(20, 32)
}

/// As many digits are written as are asked for.
pub proof fn lemma_hex_digits_len(n: nat, count: nat)
    ensures
        hex_digits(n, count).len() == count,
    decreases count,
{
    if count > 0 {
        lemma_hex_digits_len(n / 16, (count - 1) as nat);
    }
}

/// The text of an identifier has 36 characters, with the hyphens at the
/// places 8, 13, 18 and 23.
pub proof fn law_identifier_text_shape(id: u128)
    ensures
        uuid_text(id).len() == 36,
        uuid_text(id)[8] == '-',
        uuid_text(id)[13] == '-',
        uuid_text(id)[18] == '-',
        uuid_text(id)[23] == '-',
{
    lemma_hex_digits_len(id as nat, 32);
}

/// A point in time: whole seconds since the Unix epoch, and the nanoseconds
/// into that second.
#[derive(Debug, Clone, Copy, PartialEq, Eq, Structural)]
pub struct Timestamp {
    pub secs: i64,
    pub nanos: u32,
}

/// A user as the directory holds it. `id` is the 128-bit value of the user's
/// identifier, `password` the stored hash of the password, never the password.
#[derive(Debug, Clone)]
pub struct User {
    pub id: u128,
    pub name: String,
    pub email: String,
    pub password: String,
    pub role: UserRole,
    pub photo: String,
    pub verified: bool,
    pub created_at: Option<Timestamp>,
    pub updated_at: Option<Timestamp>,
}

/// A user as plain values.
pub struct UserView {
    pub id: u128,
    pub name: Seq<char>,
    pub email: Seq<char>,
    pub password: Seq<char>,
    pub role: UserRole,
    pub photo: Seq<char>,
    pub verified: bool,
    pub created_at: Option<Timestamp>,
    pub updated_at: Option<Timestamp>,
}

impl View for User {
    type V = UserView;

    open spec fn view(&self) -> UserView {
        UserView {
            id: self.id,
            name: self.name@,
            email: self.email@,
            password: self.password@,
            role: self.role,
            photo: self.photo@,
            verified: self.verified,
            created_at: self.created_at,
            updated_at: self.updated_at,
        }
    }
}

impl UserView {
    /// Whether both timestamps are set, as they are on every record that the
    /// directory hands out.
    pub open spec fn is_complete(self) -> bool {
        self.created_at is Some && self.updated_at is Some
    }
}

impl User {
    /// Whether both timestamps are set.
    pub fn is_complete(&self) -> (complete: bool)
        ensures
            complete == self@.is_complete(),
    {
        self.created_at.is_some() && self.updated_at.is_some()
    }
}

} // verus!
