//! The rules on the shape of what a client submits, and the report of the
//! rules that an input breaks.

use vstd::prelude::*;

verus! {

/// The fields that carry a rule.
#[derive(Debug, Clone, Copy, PartialEq, Eq, Structural)]
pub enum Field {
    Name,
    Email,
    Password,
    PasswordConfirm,
    Page,
    Limit,
}

/// A rule that an input broke.
#[derive(Debug, Clone, Copy, PartialEq, Eq, Structural)]
pub enum Violation {
    /// The name is empty.
    NameRequired,
    /// The e-mail address is empty.
    EmailRequired,
    /// The e-mail address is not a valid address.
    EmailInvalid,
    /// The password has fewer characters than the minimum.
    PasswordTooShort,
    /// The confirmation of the password is empty.
    PasswordConfirmRequired,
    /// The confirmation differs from the password.
    PasswordMismatch,
    /// The page number is below one.
    PageTooSmall,
    /// The page size is below one or above the maximum.
    LimitOutOfRange,
}

/// The least number of characters of a password.
pub const MIN_PASSWORD_CHARS: usize = 6;

/// The largest page size that a listing may ask for.
pub const MAX_PAGE_LIMIT: usize = 50;

impl Field {
    /// The name of the field in a report.
    pub open spec fn name(self) -> Seq<char> {
        match self {
            Field::Name => "name"@,
            Field::Email => "email"@,
            Field::Password => "password"@,
            Field::PasswordConfirm => "password_confirm"@,
            Field::Page => "page"@,
            Field::Limit => "limit"@,
        }
    }

    pub fn to_str(&self) -> (name: &'static str)
        ensures
            name@ == self.name(),
    {
        match self {
            Field::Name => "name",
            Field::Email => "email",
            Field::Password => "password",
            Field::PasswordConfirm => "password_confirm",
            Field::Page => "page",
            Field::Limit => "limit",
        }
    }
}

impl Violation {
    /// The field whose rule was broken.
    pub open spec fn spec_field(self) -> Field {
        match self {
            Violation::NameRequired => Field::Name,
            Violation::EmailRequired => Field::Email,
            Violation::EmailInvalid => Field::Email,
            Violation::PasswordTooShort => Field::Password,
            Violation::PasswordConfirmRequired => Field::PasswordConfirm,
            Violation::PasswordMismatch => Field::PasswordConfirm,
            Violation::PageTooSmall => Field::Page,
            Violation::LimitOutOfRange => Field::Limit,
        }
    }

    /// The text that tells the client which rule was broken.
    pub open spec fn message(self) -> Seq<char> {
        match self {
            Violation::NameRequired => "Name is required"@,
            Violation::EmailRequired => "Email is required"@,
            Violation::EmailInvalid => "Email is invalid"@,
            Violation::PasswordTooShort => "Password must be at least 6 characters "@,
            Violation::PasswordConfirmRequired => "Confirm Password is required"@,
            Violation::PasswordMismatch => "Password and confirm password do not match"@,
            Violation::PageTooSmall => "Page must be at least 1"@,
            Violation::LimitOutOfRange => "Limit must be between 1 and 50"@,
        }
    }

    #[verifier::when_used_as_spec(spec_field)]
    pub fn field(self) -> (field: Field)
        ensures
            field == self.spec_field(),
    {
        match self {
            Violation::NameRequired => Field::Name,
            Violation::EmailRequired => Field::Email,
            Violation::EmailInvalid => Field::Email,
            Violation::PasswordTooShort => Field::Password,
            Violation::PasswordConfirmRequired => Field::PasswordConfirm,
            Violation::PasswordMismatch => Field::PasswordConfirm,
            Violation::PageTooSmall => Field::Page,
            Violation::LimitOutOfRange => Field::Limit,
        }
    }

    pub fn to_str(&self) -> (message: &'static str)
        ensures
            message@ == self.message(),
    {
        match self {
            Violation::NameRequired => "Name is required",
            Violation::EmailRequired => "Email is required",
            Violation::EmailInvalid => "Email is invalid",
            Violation::PasswordTooShort => "Password must be at least 6 characters ",
            Violation::PasswordConfirmRequired => "Confirm Password is required",
            Violation::PasswordMismatch => "Password and confirm password do not match",
            Violation::PageTooSmall => "Page must be at least 1",
            Violation::LimitOutOfRange => "Limit must be between 1 and 50",
        }
    }
}

/// What one violation adds to a report. The first violation of a field opens
/// a line with the field's name; a further one of the same field follows on
/// the same line after a comma.
pub open spec fn entry_text(previous: Option<Violation>, violation: Violation) -> Seq<char> {
    match previous {
        None => violation.spec_field().name() + ": "@ + violation.message(),
        Some(p) => if p.spec_field() == violation.spec_field() {
            ", "@ + violation.message()
        } else {
            "\n"@ + violation.spec_field().name() + ": "@ + violation.message()
        },
    }
}

/// The report of a list of violations: one line for each field, in the order
/// of the list, with the messages of the field's violations.
pub open spec fn report_text(violations: Seq<Violation>) -> Seq<char>
    decreases violations.len(),
{
    if violations.len() == 0 {
        Seq::empty()
    } else if violations.len() == 1 {
        entry_text(None, violations[0])
    } else {
        report_text(violations.drop_last()) + entry_text(
            Some(violations[violations.len() - 2]),
            violations.last(),
        )
    }
}

/// The rules that an input broke, in the order in which the fields and their
/// rules are declared. Never empty where it is handed out as an error.
#[derive(Debug, Clone)]
pub struct ValidationErrors {
    pub violations: Vec<Violation>,
}

impl View for ValidationErrors {
    type V = Seq<Violation>;

    open spec fn view(&self) -> Seq<Violation> {
        self.violations@
    }
}

impl ValidationErrors {
    /// Writes the report.
    pub fn to_string(&self) -> (text: String)
        ensures
            text@ == report_text(self@),
    {
        let mut text = String::new();
        let n = self.violations.len();
        let mut i: usize = 0;
        while i < n
            invariant
                n == self.violations@.len(),
                i <= n,
                text@ == report_text(self.violations@.take(i as int)),
            decreases n - i,
        {
            let violation = self.violations[i];
            let ghost before = text@;
            let ghost previous = if i == 0 {
                None
            } else {
                Some(self.violations@[i - 1])
            };
            if i > 0 {
                if self.violations[i - 1].field() == violation.field() {
                    text.append(", ");
                } else {
                    text.append("\n");
                    text.append(violation.field().to_str());
                    text.append(": ");
                }
            } else {
                text.append(violation.field().to_str());
                text.append(": ");
            }
            text.append(violation.to_str());
            proof {
                let taken = self.violations@.take(i + 1);
                assert(taken.drop_last() =~= self.violations@.take(i as int));
                assert(taken.last() == violation);
                assert(text@ =~= before + entry_text(previous, violation));
                if i == 0 {
                    assert(before =~= Seq::<char>::empty());
                    assert(text@ =~= entry_text(None, violation));
                } else {
                    assert(taken[taken.len() - 2] == self.violations@[i - 1]);
                }
            }
            i += 1;
        }
        proof {
            assert(self.violations@.take(n as int) =~= self.violations@);
        }
        text
    }
}

} // verus!
