use vstd::prelude::*;

use crate::email::Email;

verus! {

/// The key a revoked token is recorded under in a shared keyed backend:
/// a fixed prefix, to prevent collisions and organize data, followed by
/// the token itself.
pub fn get_key(token: &str) -> (r: String)
    ensures
        r@ == "banned_token:"@ + token@,
{
    let mut key = String::from_str("banned_token:");
    key.append(token);
    key
}

/// The key a live two-factor challenge is recorded under in a shared keyed
/// backend: a fixed prefix followed by the email the challenge was issued
/// for.
pub fn two_fa_code_key(email: &Email) -> (r: String)
    ensures
        r@ == "two_fa_code:"@ + email@,
{
    let mut key = String::from_str("two_fa_code:");
    key.append(email.as_str());
    key
}

} // verus!
