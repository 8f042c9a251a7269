//! Per-connection authentication state and password hashing.

use vstd::prelude::*;

verus! {

use vstd::utf8::valid_utf8;
use vstd::utf8::decode_utf8;
use vstd::utf8::encode_utf8;
use vstd::string::StrSliceExecFns;
use vstd::slice::slice_to_vec;
use crate::error::ApiError;
use crate::wire::bytes_to_str;

/// Authentication state of one connection. It starts unauthenticated and is
/// mutated exactly once, by a successful credential check.
pub struct Login {
    pub email: Option<String>,
    pub is_authenticated: bool,
}

impl Login {
    /// A login is well formed when an authenticated session always carries
    /// the identity it was bound to.
    pub open spec fn wf(&self) -> bool {
        self.is_authenticated ==> self.email is Some
    }

    /// The state of a connection that has just been accepted.
    pub fn new() -> (r: Login)
        ensures
            !r.is_authenticated,
            r.email is None,
            r.wf(),
    {
        Login { email: None, is_authenticated: false }
    }

    /// Set a user as authenticated.
    pub fn authenticate(&mut self, email: String)
        ensures
            final(self).is_authenticated,
            final(self).email == Some(email),
            final(self).wf(),
    {
        self.email = Some(email);
        self.is_authenticated = true;
    }
}

/// The text that the outside hashing collaborator encodes a password hash
/// as, for a given password and salt (its default configuration). The text
/// is a function of password and salt alone.
pub uninterp spec fn argon2_hash_of(pwd: Seq<u8>, salt: Seq<u8>) -> Seq<char>;

/// The outcome of the outside hashing collaborator checking a password
/// against an encoded hash: whether it matches, or `None` where the text
/// is not an encoded hash. The outcome is a function of the two alone.
pub uninterp spec fn argon2_verify_of(encoded: Seq<char>, pwd: Seq<u8>) -> Option<bool>;

/// Relies on `argon2::hash_encoded` with the crate's default
/// configuration: the encoded hash depends on password and salt alone;
/// hashing succeeds whenever the salt is 8 bytes or longer (within the
/// crate's 32-bit bounds); and checking the result against the same
/// password succeeds.
#[verifier::external_body]
fn argon2_hash(pwd: &[u8], salt: &[u8]) -> (r: Option<String>)
    ensures
        8 <= salt@.len() <= u32::MAX && pwd@.len() <= u32::MAX ==> r is Some,
        r matches Some(h) ==> h@ == argon2_hash_of(pwd@, salt@),
        r matches Some(h) ==> argon2_verify_of(h@, pwd@) == Some(true),
{
    argon2::hash_encoded(pwd, salt, &argon2::Config::default()).ok()
}

/// Relies on `argon2::verify_encoded`: the outcome depends on the encoded
/// text and the password alone.
#[verifier::external_body]
fn argon2_check(encoded: &str, pwd: &[u8]) -> (r: Option<bool>)
    ensures
        r == argon2_verify_of(encoded@, pwd@),
{
    argon2::verify_encoded(encoded, pwd).ok()
}

/// Relies on `getrandom::getrandom`: fills the buffer with bytes from the
/// operating system's random source. Nothing is assumed of the values.
#[verifier::external_body]
fn fill_random(buf: &mut Vec<u8>) -> (r: bool)
    ensures
        r ==> final(buf)@.len() == old(buf)@.len(),
{
    getrandom::getrandom(buf.as_mut_slice()).is_ok()
}

/// A password as stored: the collaborator's encoded hash, and the salt it
/// was computed with.
pub struct Password {
    pub hash: Vec<u8>,
    pub salt: Vec<u8>,
}

impl Password {
    /// Create a password hash from a string and an (optionally provided)
    /// salt. Without a caller-supplied salt, a fresh random 32-byte salt is
    /// drawn; a caller never chooses the salt of a stored credential.
    pub fn hash(password: &str, salt: Option<&[u8]>) -> (r: Result<Password, ApiError>)
        ensures
            r matches Ok(p) ==> {
                &&& 8 <= p.salt@.len()
                &&& (salt matches Some(s) ==> p.salt@ == s@)
                &&& (salt is None ==> p.salt@.len() == 32)
                &&& p.hash@ == encode_utf8(argon2_hash_of(encode_utf8(password@), p.salt@))
                &&& argon2_verify_of(
                    argon2_hash_of(encode_utf8(password@), p.salt@),
                    encode_utf8(password@),
                ) == Some(true)
            },
            r matches Err(e) ==> e == ApiError::Collaborator,
            (salt matches Some(s) && 8 <= s@.len() <= u32::MAX && encode_utf8(password@).len()
                <= u32::MAX) ==> r is Ok,
    {
        let salt_vec: Vec<u8> = match salt {
            Some(s) => {
                if s.len() < 8 {
                    return Err(ApiError::Collaborator);
                }
                slice_to_vec(s)
            },
            None => {
                let mut v: Vec<u8> = Vec::new();
                let mut k: usize = 0;
                while k < 32
                    invariant
                        k <= 32,
                        v@.len() == k,
                    decreases 32 - k,
                {
                    v.push(0u8);
                    k = k + 1;
                }
                if !fill_random(&mut v) {
                    return Err(ApiError::Collaborator);
                }
                v
            },
        };
        let encoded = match argon2_hash(password.as_bytes(), salt_vec.as_slice()) {
            Some(h) => h,
            None => {
                return Err(ApiError::Collaborator);
            },
        };
        Ok(Password { hash: encoded.as_str().as_bytes_vec(), salt: salt_vec })
    }

    /// Check whether a password matches the stored hash.
    pub fn is_valid(&self, password: &str) -> (r: Result<bool, ApiError>)
        ensures
            valid_utf8(self.hash@) ==> match argon2_verify_of(
                decode_utf8(self.hash@),
                encode_utf8(password@),
            ) {
                Some(b) => r == Ok::<bool, ApiError>(b),
                None => r == Err::<bool, ApiError>(ApiError::Collaborator),
            },
            !valid_utf8(self.hash@) ==> r == Err::<bool, ApiError>(ApiError::Collaborator),
    {
        let encoded = match bytes_to_str(self.hash.as_slice()) {
            Some(h) => h,
            None => {
                return Err(ApiError::Collaborator);
            },
        };
        match argon2_check(encoded, password.as_bytes()) {
            Some(b) => Ok(b),
            None => Err(ApiError::Collaborator),
        }
    }
}

} // verus!
