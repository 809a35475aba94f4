use vstd::prelude::*;

verus! {

/// Whether the password digest `digest` verifies the raw password
/// `password`.
///
/// This names the result of argon2's `verify_password`: the digest embeds
/// the salt and the parameters it was computed with, so verification is a
/// deterministic function of the digest and the candidate alone. A digest
/// that is not a well-formed PHC string verifies nothing.
pub uninterp spec fn digest_verifies(digest: Seq<char>, password: Seq<char>) -> bool;

/// The canonical re-rendering of a PHC-format digest string, if the string
/// is well-formed. Names the result of argon2's `PasswordHash::new`
/// followed by rendering, which depends on the input string alone.
pub uninterp spec fn phc_parsed(digest: Seq<char>) -> Option<Seq<char>>;

/// An opaque, irreversible password digest, only ever produced by the
/// hashing operation or reconstructed from a previously stored digest
/// string.
#[derive(Debug)]
pub struct HashedPassword(String);

impl View for HashedPassword {
    type V = Seq<char>;

    closed spec fn view(&self) -> Seq<char> {
        self.0@
    }
}

impl Clone for HashedPassword {
    fn clone(&self) -> (r: Self)
        ensures
            r@ == self@,
    {
        HashedPassword(self.0.clone())
    }
}

impl PartialEq for HashedPassword {
    fn eq(&self, other: &Self) -> (r: bool) {
        self.0 == other.0
    }
}

impl vstd::std_specs::cmp::PartialEqSpecImpl for HashedPassword {
    open spec fn obeys_eq_spec() -> bool {
        true
    }

    open spec fn eq_spec(&self, other: &Self) -> bool {
        self@ == other@
    }
}

/// Relies on rand's `fill` for a fresh salt and on argon2:
/// `SaltString::encode_b64` renders the salt, and `hash_password` with
/// Argon2id v19 and parameters (m=15000, t=2, p=1) renders a PHC digest
/// string, beginning `$argon2id$v=19$` and already in canonical form.
/// Whatever salt was drawn, the digest verifies the password it was
/// computed from, because verification recomputes the hash with the salt
/// and parameters embedded in the digest. For a password of fewer than
/// 0x4000_0000 characters (at most 0xFFFF_FFFC bytes, under argon2's
/// 0xFFFF_FFFF-byte cap) and this fixed 16-byte salt, hashing cannot
/// fail.
#[verifier::external_body]
fn compute_password_hash(password: &str) -> (r: Option<String>)
    ensures
        password@.len() < 0x4000_0000 ==> r is Some,
        r matches Some(d) ==> digest_verifies(d@, password@),
        r matches Some(d) ==> phc_parsed(d@) == Some(d@),
        r matches Some(d) ==> d@.len() > 15 && d@.subrange(0, 15) =~= "$argon2id$v=19$"@,
{
    let mut salt_bytes = [0u8; 16];
    rand::fill(&mut salt_bytes);
    let salt = match argon2::password_hash::SaltString::encode_b64(&salt_bytes) {
        Ok(s) => s,
        Err(_) => return None,
    };
    let params = match argon2::Params::new(15000, 2, 1, None) {
        Ok(p) => p,
        Err(_) => return None,
    };
    let hasher = argon2::Argon2::new(argon2::Algorithm::Argon2id, argon2::Version::V0x13, params);
    match argon2::PasswordHasher::hash_password(&hasher, password.as_bytes(), &salt) {
        Ok(h) => Some(h.to_string()),
        Err(_) => None,
    }
}

/// Relies on argon2: `PasswordHash::new` parses the digest and
/// `verify_password` recomputes the hash from the salt and parameters the
/// digest embeds, so the result is a function of the two strings alone. A
/// digest that does not parse verifies nothing.
#[verifier::external_body]
fn verify_password_digest(digest: &str, candidate: &str) -> (r: bool)
    ensures
        r == digest_verifies(digest@, candidate@),
{
    match argon2::PasswordHash::new(digest) {
        Ok(parsed) => argon2::PasswordVerifier::verify_password(
            &argon2::Argon2::default(),
            candidate.as_bytes(),
            &parsed,
        ).is_ok(),
        Err(_) => false,
    }
}

/// Relies on argon2's `PasswordHash::new`: it accepts exactly the
/// well-formed PHC digest strings, and rendering the parsed value back is
/// a function of the input string alone. The rendering is a normal form:
/// rendering, re-parsing and rendering again gives the same string.
#[verifier::external_body]
fn parse_phc_string(hash: &str) -> (r: Option<String>)
    ensures
        r matches Some(d) ==> phc_parsed(hash@) == Some(d@),
        r is Some <==> phc_parsed(hash@) is Some,
        r matches Some(d) ==> phc_parsed(d@) == Some(d@),
{
    match argon2::PasswordHash::new(hash) {
        Ok(p) => Some(p.to_string()),
        Err(_) => None,
    }
}

impl HashedPassword {
    /// Hashes a raw password of at least eight characters into a fresh,
    /// salted digest; the digest verifies exactly the password it was
    /// computed from, is a canonical PHC string, and is always produced
    /// for any password within argon2's input cap.
    pub fn parse(s: String) -> (r: Result<HashedPassword, String>)
        ensures
            r matches Ok(h) ==> s@.len() >= 8 && digest_verifies(h@, s@),
            r matches Ok(h) ==> phc_parsed(h@) == Some(h@),
            r matches Ok(h) ==> h@.len() > 15 && h@.subrange(0, 15) =~= "$argon2id$v=19$"@,
            s@.len() < 8 ==> r is Err,
            8 <= s@.len() < 0x4000_0000 ==> r is Ok,
    {
        if s.as_str().unicode_len() < 8 {
            return Err(String::from_str("Password is to short"));
        }

        match compute_password_hash(s.as_str()) {
            Some(d) => Ok(HashedPassword(d)),
            None => Err(String::from_str("Failed to hash password.")),
        }
    }

    /// Reconstructs a digest from a previously stored digest string,
    /// without re-hashing; fails exactly when the string is not a
    /// well-formed digest. The loaded digest is the canonical rendering,
    /// so a digest stored in canonical form — every digest this library
    /// produces — is loaded verbatim.
    pub fn parse_password_hash(hash: String) -> (r: Result<HashedPassword, String>)
        ensures
            r matches Ok(h) ==> phc_parsed(hash@) == Some(h@),
            r is Ok <==> phc_parsed(hash@) is Some,
            r matches Ok(h) ==> phc_parsed(h@) == Some(h@),
    {
        match parse_phc_string(hash.as_str()) {
            Some(d) => Ok(HashedPassword(d)),
            None => Err(String::from_str("Failed to parse password hash.")),
        }
    }

    /// Succeeds exactly when the candidate is the password this digest was
    /// computed from.
    pub fn verify_raw_password(&self, password_candidate: &str) -> (r: Result<(), String>)
        ensures
            r is Ok <==> digest_verifies(self@, password_candidate@),
    {
        if verify_password_digest(self.0.as_str(), password_candidate) {
            Ok(())
        } else {
            Err(String::from_str("Password verification failed."))
        }
    }

    /// The stored digest string.
    pub fn as_str(&self) -> (r: &str)
        ensures
            r@ == self@,
    {
        self.0.as_str()
    }
}

} // verus!
