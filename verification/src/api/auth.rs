//! Who is asking: the client address used to throttle registrations and
//! logins, and the bearer token of an authenticated request.

use vstd::prelude::*;
use crate::text::{
    before, before_first, chars_of, concat, owned, starts_with, starts_with_seq, string_of, trim,
    trim_seq,
};
use crate::utils::response::{is_bad_request, is_unauthorized, AppError};

verus! {

/// The client address: the first entry of `X-Forwarded-For`, trimmed;
/// else `X-Real-IP`; else `unknown`.
pub open spec fn client_address(forwarded_for: Option<Seq<char>>, real_ip: Option<Seq<char>>) -> Seq<char> {
    match forwarded_for {
        Some(f) => trim_seq(before_first(f, seq![','])),
        None => match real_ip {
            Some(r) => r,
            None => "unknown"@,
        },
    }
}

/// The client address of a request, from its forwarding headers (each
/// where it is present and readable as text).
pub fn client_ip(forwarded_for: Option<&str>, real_ip: Option<&str>) -> (r: String)
    ensures
        r@ == client_address(
            match forwarded_for {
                Some(f) => Some(f@),
                None => None,
            },
            match real_ip {
                Some(x) => Some(x@),
                None => None,
            },
        ),
{
    match forwarded_for {
        Some(f) => {
            let comma: Vec<char> = vec![','];
            assert(comma@ =~= seq![',']);
            string_of(&trim(&before(&chars_of(f), &comma)))
        },
        None => match real_ip {
            Some(x) => owned(x),
            None => owned("unknown"),
        },
    }
}

/// The key under which an action by a client is throttled:
/// `{action}:{ip}`.
pub fn throttle_key(action: &str, ip: &str) -> (r: String)
    ensures
        r@ == action@ + ":"@ + ip@,
{
    string_of(&concat(&concat(&chars_of(action), &chars_of(":")), &chars_of(ip)))
}

/// The refusal of a throttled request.
pub fn throttled() -> (r: AppError)
    ensures
        is_bad_request(r, "请求过于频繁，请稍后再试"@),
{
    AppError::bad_request("请求过于频繁，请稍后再试")
}

/// The token of an `Authorization: Bearer <token>` header, or the refusal
/// of a request without one.
pub fn bearer_token(authorization: Option<&str>) -> (r: Result<String, AppError>)
    ensures
        match authorization {
            Some(h) => if starts_with_seq(h@, "Bearer "@) {
                r matches Ok(t) && t@ == h@.skip("Bearer "@.len() as int)
            } else {
                r matches Err(e) && is_unauthorized(e, "缺少认证 Token"@)
            },
            None => r matches Err(e) && is_unauthorized(e, "缺少认证 Token"@),
        },
{
    match authorization {
        Some(h) => {
            let v = chars_of(h);
            let p = chars_of("Bearer ");
            if starts_with(&v, &p) {
                let mut t: Vec<char> = Vec::new();
                let mut i: usize = p.len();
                while i < v.len()
                    invariant
                        p.len() <= i <= v.len(),
                        t@ == v@.subrange(p.len() as int, i as int),
                    decreases v.len() - i,
                {
                    t.push(v[i]);
                    i = i + 1;
                    assert(t@ =~= v@.subrange(p.len() as int, i as int));
                }
                assert(t@ =~= v@.skip(p.len() as int));
                Ok(string_of(&t))
            } else {
                Err(AppError::unauthorized("缺少认证 Token"))
            }
        },
        None => Err(AppError::unauthorized("缺少认证 Token")),
    }
}

/// The refusal of a token that does not verify.
pub fn invalid_token() -> (r: AppError)
    ensures
        is_unauthorized(r, "Token 无效或已过期"@),
{
    AppError::unauthorized("Token 无效或已过期")
}

} // verus!
