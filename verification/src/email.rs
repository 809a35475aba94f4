use vstd::prelude::*;

use crate::strings::{char_count, str_count_char};

verus! {

/// An email address, the natural key for credential and challenge records.
///
/// A valid email is exactly a non-empty local part and a non-empty
/// `@`-delimited domain; once constructed the value is immutable and
/// equality is value-based.
#[derive(Debug, Hash)]
pub struct Email(pub String);

/// The shape every stored email satisfies: exactly one `@`, with a
/// non-empty local part before it and a non-empty domain after it.
pub open spec fn valid_email(s: Seq<char>) -> bool {
    &&& char_count(s, '@') == 1
    &&& s.len() > 0
    &&& s[0] != '@'
    &&& s[s.len() - 1] != '@'
}

impl View for Email {
    type V = Seq<char>;

    open spec fn view(&self) -> Seq<char> {
        self.0@
    }
}

impl Clone for Email {
    fn clone(&self) -> (r: Self)
        ensures
            r@ == self@,
    {
        Email(self.0.clone())
    }
}

impl PartialEq for Email {
    fn eq(&self, other: &Self) -> (r: bool) {
        self.0 == other.0
    }
}

impl vstd::std_specs::cmp::PartialEqSpecImpl for Email {
    open spec fn obeys_eq_spec() -> bool {
        true
    }

    open spec fn eq_spec(&self, other: &Self) -> bool {
        self.0@ == other.0@
    }
}

impl Email {
    /// Validates the raw string and wraps it; rejects a string without
    /// exactly one `@`, with an empty local part, or with an empty domain.
    pub fn parse(value: String) -> (r: Result<Email, String>)
        ensures
            r matches Ok(e) ==> valid_email(value@) && e@ == value@,
            valid_email(value@) ==> (r matches Ok(e) && e@ == value@),
    {
        let at_count = str_count_char(value.as_str(), '@');
        if at_count == 0 {
            return Err(String::from_str("Invalid email format - missing at symbol."));
        }
        if at_count > 1 {
            return Err(String::from_str("Invalid email format - multiple at symbols."));
        }

        let n: usize = value.as_str().unicode_len();
        assert(n > 0) by {
            if value@.len() == 0 {
                assert(char_count(value@, '@') == 0);
            }
        }
        if value.as_str().get_char(0) == '@' {
            return Err(String::from_str("Invalid email format - missing subject."));
        }
        if value.as_str().get_char(n - 1) == '@' {
            return Err(String::from_str("Invalid email format - missing domain."));
        }

        Ok(Email(value))
    }

    /// The underlying address.
    pub fn as_str(&self) -> (r: &str)
        ensures
            r@ == self@,
    {
        self.0.as_str()
    }
}

} // verus!
