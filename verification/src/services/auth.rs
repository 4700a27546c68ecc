//! Accounts: what a registration must hold, which role a new account
//! gets, and when a login is accepted.

use vstd::prelude::*;
use crate::text::{chars_of, owned, trim, trim_seq, utf8_len, utf8_len_exceeds};

verus! {

/// The claims a login token carries.
#[derive(Debug, Clone)]
pub struct Claims {
    /// The user's id.
    pub sub: String,
    pub username: String,
    pub role: String,
    /// When the token expires, in seconds since the epoch.
    pub exp: usize,
    /// When the token was issued, in seconds since the epoch.
    pub iat: usize,
}

/// The account service.
pub struct AuthService;

/// `char::is_uppercase`: the Unicode `Uppercase` property.
pub uninterp spec fn uppercase_char(c: char) -> bool;

/// `char::is_lowercase`: the Unicode `Lowercase` property.
pub uninterp spec fn lowercase_char(c: char) -> bool;

/// Asks `char::is_uppercase`; the answer is named `uppercase_char`. Of an
/// ASCII character it is whether the character is `A`-`Z`.
#[verifier::external_body]
fn is_uppercase(c: char) -> (r: bool)
    ensures
        r == uppercase_char(c),
        (c as u32) < 128 ==> r == ('A' <= c && c <= 'Z'),
{
    c.is_uppercase()
}

/// Asks `char::is_lowercase`; the answer is named `lowercase_char`. Of an
/// ASCII character it is whether the character is `a`-`z`.
#[verifier::external_body]
fn is_lowercase(c: char) -> (r: bool)
    ensures
        r == lowercase_char(c),
        (c as u32) < 128 ==> r == ('a' <= c && c <= 'z'),
{
    c.is_lowercase()
}

/// Some character of the text satisfies `p`.
pub open spec fn has_char(s: Seq<char>, p: spec_fn(char) -> bool) -> bool {
    exists|i: int| 0 <= i < s.len() && p(#[trigger] s[i])
}

/// The verdict on a registration: a user name that is not blank, and a
/// password of at least 8 bytes with an upper-case letter, a lower-case
/// letter and an ASCII digit.
pub open spec fn registration_verdict(username: Seq<char>, password: Seq<char>) -> Result<(), Seq<char>> {
    if trim_seq(username).len() == 0 {
        Err("用户名不能为空"@)
    } else if utf8_len(password) < 8 {
        Err("密码至少需要8个字符"@)
    } else if !has_char(password, |c: char| uppercase_char(c)) {
        Err("密码需要包含至少一个大写字母"@)
    } else if !has_char(password, |c: char| lowercase_char(c)) {
        Err("密码需要包含至少一个小写字母"@)
    } else if !has_char(password, |c: char| '0' <= c && c <= '9') {
        Err("密码需要包含至少一个数字"@)
    } else {
        Ok(())
    }
}

/// What the password holds, read in one pass: an upper-case letter, a
/// lower-case letter, an ASCII digit.
fn password_classes(p: &Vec<char>) -> (r: (bool, bool, bool))
    ensures
        r.0 == has_char(p@, |c: char| uppercase_char(c)),
        r.1 == has_char(p@, |c: char| lowercase_char(c)),
        r.2 == has_char(p@, |c: char| '0' <= c && c <= '9'),
{
    let mut up = false;
    let mut low = false;
    let mut digit = false;
    let mut i: usize = 0;
    while i < p.len()
        invariant
            i <= p.len(),
            up == exists|j: int| 0 <= j < i && uppercase_char(#[trigger] p@[j]),
            low == exists|j: int| 0 <= j < i && lowercase_char(#[trigger] p@[j]),
            digit == exists|j: int| 0 <= j < i && '0' <= #[trigger] p@[j] && p@[j] <= '9',
        decreases p.len() - i,
    {
        let c = p[i];
        if is_uppercase(c) {
            up = true;
        }
        if is_lowercase(c) {
            low = true;
        }
        if '0' <= c && c <= '9' {
            digit = true;
        }
        i = i + 1;
    }
    (up, low, digit)
}

impl AuthService {
    /// Checks a registration.
    pub fn check_registration(username: &str, password: &str) -> (r: Result<(), String>)
        ensures
            match registration_verdict(username@, password@) {
                Ok(()) => r is Ok,
                Err(m) => r matches Err(e) && e@ == m,
            },
    {
        if trim(&chars_of(username)).len() == 0 {
            return Err(owned("用户名不能为空"));
        }
        let p = chars_of(password);
        if !utf8_len_exceeds(&p, 7) {
            return Err(owned("密码至少需要8个字符"));
        }
        let (up, low, digit) = password_classes(&p);
        if !up {
            return Err(owned("密码需要包含至少一个大写字母"));
        }
        if !low {
            return Err(owned("密码需要包含至少一个小写字母"));
        }
        if !digit {
            return Err(owned("密码需要包含至少一个数字"));
        }
        Ok(())
    }

    /// The role of a new account: the first account is the administrator.
    pub fn first_user_role(existing_accounts: i32) -> (r: &'static str)
        ensures
            r@ == if existing_accounts == 0 {
                "admin"@
            } else {
                "user"@
            },
    {
        if existing_accounts == 0 {
            "admin"
        } else {
            "user"
        }
    }
}

/// `bcrypt::verify` of a password against a stored hash: whether they
/// match, or the text of the error when the hash cannot be read.
pub uninterp spec fn bcrypt_verify(password: Seq<char>, hash: Seq<char>) -> Result<bool, Seq<char>>;

/// Checks a password against a stored hash with `bcrypt::verify`. The
/// answer, and the error's message, are named `bcrypt_verify`.
#[verifier::external_body]
fn verify_password(password: &str, hash: &str) -> (r: Result<bool, String>)
    ensures
        match bcrypt_verify(password@, hash@) {
            Ok(b) => r == Ok::<bool, String>(b),
            Err(e) => r matches Err(m) && m@ == e,
        },
{
    bcrypt::verify(password, hash).map_err(|e| e.to_string())
}

pub open spec fn bad_login_message() -> Seq<char> {
    "用户名或密码错误"@
}

/// The verdict on a login, given the stored hash of the named account
/// (`None` when there is no such account).
pub open spec fn login_verdict(stored_hash: Option<Seq<char>>, password: Seq<char>) -> Result<(), Seq<char>> {
    match stored_hash {
        None => Err(bad_login_message()),
        Some(h) => match bcrypt_verify(password, h) {
            Err(e) => Err(e),
            Ok(true) => Ok(()),
            Ok(false) => Err(bad_login_message()),
        },
    }
}

impl AuthService {
    /// Checks a login.
    pub fn check_login(stored_hash: Option<&str>, password: &str) -> (r: Result<(), String>)
        ensures
            match login_verdict(
                match stored_hash {
                    Some(h) => Some(h@),
                    None => None,
                },
                password@,
            ) {
                Ok(()) => r is Ok,
                Err(m) => r matches Err(e) && e@ == m,
            },
    {
        match stored_hash {
            None => Err(owned("用户名或密码错误")),
            Some(h) => match verify_password(password, h) {
                Err(e) => Err(e),
                Ok(true) => Ok(()),
                Ok(false) => Err(owned("用户名或密码错误")),
            },
        }
    }
}

} // verus!
