//! What a sign-in hands over once its token is verified: the claims of the
//! identity provider, checked against the nonce of the session; and the claims
//! of the token that the journal issues itself.

use crate::entry::{text_view, Timestamp, UserId};
use crate::error::JrnlError;
use vstd::prelude::*;

verus! {

/// What a client sends to ask the identity provider for a token.
#[derive(Debug, PartialEq, Eq)]
pub struct RequestSignInArgs {
    pub nonce: String,
}

/// What the identity provider answers: the token to verify.
#[derive(Debug, PartialEq, Eq)]
pub struct RequestSignInResponse {
    pub id_token: String,
}

/// The claims of a verified Google token.
#[derive(Debug, PartialEq, Eq)]
pub struct GoogleIdTokenClaims {
    pub sub: String,
    pub name: Option<String>,
    pub given_name: Option<String>,
    pub nonce: String,
}

/// What is kept of the claims of a Google token.
#[derive(Debug, PartialEq, Eq)]
pub struct StrippedGoogleVerificationClaims {
    pub sub: String,
    pub name: Option<String>,
}

/// The name part of what Apple sends with a first sign-in.
#[derive(Debug, PartialEq, Eq)]
pub struct AppleCallbackUserName {
    pub first_name: String,
}

/// What Apple sends about the user with a first sign-in.
#[derive(Debug, PartialEq, Eq)]
pub struct AppleCallbackUser {
    pub name: AppleCallbackUserName,
}

/// Why a sign-in with Apple failed.
#[derive(Debug, PartialEq, Eq)]
pub enum AppleAuthenticationError {
    /// The callback names no session that is open.
    BadCallbackState,
    /// The token did not verify; the text says why.
    VerificationError(String),
}

/// The first of two optional names that is there.
pub open spec fn first_name_of(name: Option<Seq<char>>, given_name: Option<Seq<char>>) -> Option<
    Seq<char>,
> {
    match name {
        Some(name) => Some(name),
        None => given_name,
    }
}

impl GoogleIdTokenClaims {
    /// Checks the claims against the nonce of the session and keeps the
    /// subject and a name: the full name, else the given name. Claims with
    /// another nonce are refused.
    pub fn strip(self, nonce: &String) -> (r: Option<StrippedGoogleVerificationClaims>)
        ensures
            r is Some <==> self.nonce@ == nonce@,
            r matches Some(kept) ==> kept.sub@ == self.sub@ && text_view(kept.name)
                == first_name_of(text_view(self.name), text_view(self.given_name)),
    {
        if self.nonce != *nonce {
            return None;
        }
        let name = match self.name {
            Some(name) => Some(name),
            None => self.given_name,
        };
        Some(StrippedGoogleVerificationClaims { sub: self.sub, name })
    }
}

/// Whether the nonce that an Apple token claims is the nonce of the session. A
/// token without a nonce never matches.
pub fn apple_nonce_matches(claimed: &Option<String>, nonce: &String) -> (matches: bool)
    ensures
        matches == (text_view(*claimed) == Some(nonce@)),
{
    match claimed {
        Some(claimed) => *claimed == *nonce,
        None => false,
    }
}

/// The name under which a user who signs in with Apple is created: the first
/// name that Apple sent, else `no name`.
pub fn apple_display_name(user: Option<AppleCallbackUser>) -> (name: String)
    ensures
        name@ == match user {
            Some(user) => user.name.first_name@,
            None => "no name"@,
        },
{
    match user {
        Some(user) => user.name.first_name,
        None => "no name".to_owned(),
    }
}

/// Seconds for which a token of the journal is good: 30 days.
pub const TOKEN_LIFETIME_SECS: i64 = 2_592_000;

/// The claims of a token that the journal issues: whose it is, and the instant,
/// in seconds since 1970, after which it is good no longer.
#[derive(Clone, Copy, Debug, PartialEq, Eq, Structural)]
pub struct Claims {
    pub sub: UserId,
    pub exp: usize,
}

/// The instant at which a token issued at `now` runs out, where the machine
/// can hold it.
pub open spec fn expiration(now: Timestamp) -> Option<usize> {
    if 0 <= now + TOKEN_LIFETIME_SECS <= i64::MAX && now + TOKEN_LIFETIME_SECS <= usize::MAX {
        Some((now + TOKEN_LIFETIME_SECS) as usize)
    } else {
        None
    }
}

impl Claims {
    /// The claims of a token issued to `sub` at `now`, good for 30 days. There
    /// are none where the instant at which they run out lies before 1970 or is
    /// more than the machine holds.
    pub fn issue(sub: UserId, now: Timestamp) -> (r: Result<Claims, JrnlError>)
        ensures
            r == match expiration(now) {
                Some(exp) => Ok::<Claims, JrnlError>(Claims { sub, exp }),
                None => Err::<Claims, JrnlError>(JrnlError::Other),
            },
    {
        let expiration = match now.checked_add(TOKEN_LIFETIME_SECS) {
            Some(expiration) => expiration,
            None => {
                return Err(JrnlError::Other);
            },
        };
        if expiration < 0 || expiration as u64 > usize::MAX as u64 {
            return Err(JrnlError::Other);
        }
        Ok(Claims { sub, exp: expiration as usize })
    }

    /// Whether the claims are still good at `now`: they are until the instant
    /// they name has passed. A clock that reads before 1970 is a failure of the
    /// server.
    pub fn check_expiry(&self, now: Timestamp) -> (r: Result<(), JrnlError>)
        ensures
            r == (if now < 0 {
                Err::<(), JrnlError>(JrnlError::Other)
            } else if self.exp < now {
                Err::<(), JrnlError>(JrnlError::ExpiredToken)
            } else {
                Ok::<(), JrnlError>(())
            }),
    {
        if now < 0 {
            return Err(JrnlError::Other);
        }
        if (self.exp as u64) < now as u64 {
            return Err(JrnlError::ExpiredToken);
        }
        Ok(())
    }
}

/// `text` begins with `prefix`.
pub open spec fn begins_with(text: Seq<char>, prefix: Seq<char>) -> bool {
    prefix.len() <= text.len() && text.subrange(0, prefix.len() as int) == prefix
}

/// What is left of `text` behind `prefix`, where it begins with it.
pub open spec fn stripped(text: Seq<char>, prefix: Seq<char>) -> Option<Seq<char>> {
    if begins_with(text, prefix) {
        Some(text.skip(prefix.len() as int))
    } else {
        None
    }
}

/// The characters of an optional string slice.
pub open spec fn str_view(text: Option<&str>) -> Option<Seq<char>> {
    match text {
        Some(text) => Some(text@),
        None => None,
    }
}

/// Calls `str::strip_prefix`. The contract claims what its documentation says:
/// where the text begins with the prefix, the rest of the text, and else
/// nothing.
#[verifier::external_body]
fn strip_prefix<'a>(text: &'a str, prefix: &str) -> (rest: Option<&'a str>)
    ensures
        str_view(rest) == stripped(text@, prefix@),
{
    text.strip_prefix(prefix)
}

/// The token that an `Authorization` header carries behind `Bearer `. A
/// request without the header, or with another kind of header, is refused.
pub fn bearer_token<'a>(header: Option<&'a str>) -> (r: Result<&'a str, JrnlError>)
    ensures
        match r {
            Ok(token) => header is Some && stripped(header->Some_0@, "Bearer "@) == Some(token@),
            Err(e) => e == JrnlError::BadAuthenticationHeader && (header matches Some(text)
                ==> stripped(text@, "Bearer "@) is None),
        },
{
    let text = match header {
        Some(text) => text,
        None => {
            return Err(JrnlError::BadAuthenticationHeader);
        },
    };
    match strip_prefix(text, "Bearer ") {
        Some(token) => Ok(token),
        None => Err(JrnlError::BadAuthenticationHeader),
    }
}

} // verus!
