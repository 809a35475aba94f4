use vstd::prelude::*;

verus! {

/// A raw password as submitted by a caller, accepted only when it is at
/// least eight characters long.
#[derive(Debug)]
pub struct Password(String);

impl View for Password {
    type V = Seq<char>;

    closed spec fn view(&self) -> Seq<char> {
        self.0@
    }
}

impl Clone for Password {
    fn clone(&self) -> (r: Self)
        ensures
            r@ == self@,
    {
        Password(self.0.clone())
    }
}

impl PartialEq for Password {
    fn eq(&self, other: &Self) -> (r: bool) {
        self.0 == other.0
    }
}

impl vstd::std_specs::cmp::PartialEqSpecImpl for Password {
    open spec fn obeys_eq_spec() -> bool {
        true
    }

    open spec fn eq_spec(&self, other: &Self) -> bool {
        self@ == other@
    }
}

impl Password {
    /// Accepts the raw string exactly when it has at least eight characters.
    pub fn parse(value: String) -> (r: Result<Password, String>)
        ensures
            r matches Ok(p) ==> p@ == value@,
            r is Ok <==> value@.len() >= 8,
    {
        if value.as_str().unicode_len() < 8 {
            return Err(String::from_str("Password is to short"));
        }

        Ok(Password(value))
    }

    /// The underlying raw password.
    pub fn as_str(&self) -> (r: &str)
        ensures
            r@ == self@,
    {
        self.0.as_str()
    }
}

} // verus!
