//! Request authentication: extracting the bearer token from the
//! `Authorization` header, the claims a login token carries, and the
//! decision taken after the hosting layer has verified a token's signature.

use vstd::prelude::*;

use crate::user::{UserDetail, UserSummary};

verus! {

/// The logged-in user of the current request, if any. A request without an
/// `Authorization` header is served anonymously.
#[derive(Clone, Debug)]
pub struct CurrentUser(pub Option<UserSummary>);

/// A rejected request: an HTTP status code and the reason.
#[derive(Clone, Copy, Debug, PartialEq, Eq)]
pub struct AuthRejection {
    pub status: u16,
    pub message: &'static str,
}

/// The bytes of the `"Bearer "` scheme prefix.
pub open spec fn bearer_prefix() -> Seq<u8> {
    seq![66u8, 101u8, 97u8, 114u8, 101u8, 114u8, 32u8]
}

/// Lifetime of a login token, in seconds.
pub const TOKEN_LIFETIME_SECS: u64 = 3600;

/// Extract the token from an `Authorization` header, as bytes.
///
/// No header means an anonymous request and is not an error; a header that
/// does not carry the `Bearer` scheme is rejected as unauthorized; otherwise
/// the token is everything after the scheme prefix.
pub fn bearer_token(header: Option<&Vec<u8>>) -> (r: Result<
    Option<Vec<u8>>,
    AuthRejection,
>)
    ensures
        header is None ==> r == Ok::<Option<Vec<u8>>, AuthRejection>(None),
        header matches Some(h) ==> {
            if h@.len() >= 7 && h@.subrange(0, 7) == bearer_prefix() {
                r matches Ok(t) && (t matches Some(tok) && tok@ == h@.skip(7))
            } else {
                r == Err::<Option<Vec<u8>>, AuthRejection>(
                    AuthRejection { status: 401, message: "Invalid token scheme" },
                )
            }
        },
{
    let h = match header {
        Some(h) => h,
        None => {
            return Ok(None);
        },
    };
    if h.len() < 7 {
        return Err(AuthRejection { status: 401, message: "Invalid token scheme" });
    }
    proof {
        assert forall|j: int| 0 <= j < 7 implies h@.subrange(0, 7)[j] == h@[j] by {}
    }
    let scheme_ok = h[0] == 66 && h[1] == 101 && h[2] == 97 && h[3] == 114 && h[4] == 101
        && h[5] == 114 && h[6] == 32;
    if !scheme_ok {
        return Err(AuthRejection { status: 401, message: "Invalid token scheme" });
    }
    let mut token: Vec<u8> = Vec::new();
    let mut k: usize = 7;
    while k < h.len()
        invariant
            7 <= k <= h@.len(),
            token@ == h@.subrange(7, k as int),
        decreases h@.len() - k,
    {
        token.push(h[k]);
        proof {
            assert(token@ =~= h@.subrange(7, k + 1));
        }
        k = k + 1;
    }
    proof {
        assert(h@.subrange(0, 7) =~= bearer_prefix());
        assert(token@ =~= h@.skip(7));
    }
    Ok(Some(token))
}

/// The decision once the hosting layer has tried to decode and validate a
/// bearer token's claims: valid claims log the user in, anything else is
/// rejected as unauthorized.
pub fn decoded_user(claims: Option<UserSummary>) -> (r: Result<CurrentUser, AuthRejection>)
    ensures
        claims matches Some(u) ==> r matches Ok(c) && (c.0 matches Some(v) && v == u),
        claims is None ==> r == Err::<CurrentUser, AuthRejection>(
            AuthRejection { status: 401, message: "Invalid or Expired Token" },
        ),
{
    match claims {
        Some(u) => Ok(CurrentUser(Some(u))),
        None => Err(AuthRejection { status: 401, message: "Invalid or Expired Token" }),
    }
}

/// The claims a freshly issued login token carries: the user's identity and
/// an expiry one token lifetime after `now_ts` (a unix timestamp in
/// seconds).
pub fn make_claims(user: &UserDetail, now_ts: u64) -> (r: UserSummary)
    requires
        now_ts + TOKEN_LIFETIME_SECS <= u64::MAX,
    ensures
        r.id == user.id,
        r.user_type == user.user_type,
        r.alias@ == user.alias@,
        r.username@ == user.username@,
        r.exp == now_ts + TOKEN_LIFETIME_SECS,
{
    UserSummary {
        id: user.id,
        user_type: user.user_type,
        alias: user.alias.clone(),
        username: user.username.clone(),
        exp: now_ts + TOKEN_LIFETIME_SECS,
    }
}

} // verus!
