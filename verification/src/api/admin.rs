//! Administration: only administrators may use it, and the last
//! administrator cannot be removed.

use vstd::prelude::*;
use crate::text::{chars_of, seq_eq};
use crate::utils::response::{is_bad_request, is_not_found, is_unauthorized, AppError};

verus! {

/// Only an administrator passes.
pub fn ensure_admin(role: &str) -> (r: Result<(), AppError>)
    ensures
        role@ == "admin"@ ==> r is Ok,
        role@ != "admin"@ ==> (r matches Err(e) && is_unauthorized(e, "无权限"@)),
{
    if seq_eq(&chars_of(role), &chars_of("admin")) {
        Ok(())
    } else {
        Err(AppError::unauthorized("无权限"))
    }
}

/// The roles an account may be given.
pub open spec fn valid_role(role: Seq<char>) -> bool {
    role == "admin"@ || role == "user"@
}

/// Checks a role that an account is to be given.
pub fn check_role(role: &str) -> (r: Result<(), AppError>)
    ensures
        valid_role(role@) ==> r is Ok,
        !valid_role(role@) ==> (r matches Err(e) && is_bad_request(e, "无效角色"@)),
{
    let v = chars_of(role);
    if seq_eq(&v, &chars_of("admin")) || seq_eq(&v, &chars_of("user")) {
        Ok(())
    } else {
        Err(AppError::bad_request("无效角色"))
    }
}

/// The verdict on deleting an account: nobody deletes themselves, and the
/// last administrator stays.
pub open spec fn user_deletion_verdict(
    target_id: Seq<char>,
    self_id: Seq<char>,
    admin_count: i32,
    target_role: Seq<char>,
) -> Result<(), Seq<char>> {
    if target_id == self_id {
        Err("不能删除自己"@)
    } else if admin_count <= 1 && target_role == "admin"@ {
        Err("不能删除最后一个管理员"@)
    } else {
        Ok(())
    }
}

/// Checks the deletion of an account.
pub fn check_user_deletion(target_id: &str, self_id: &str, admin_count: i32, target_role: &str) -> (r: Result<
    (),
    AppError,
>)
    ensures
        match user_deletion_verdict(target_id@, self_id@, admin_count, target_role@) {
            Ok(()) => r is Ok,
            Err(m) => r matches Err(e) && is_bad_request(e, m),
        },
{
    if seq_eq(&chars_of(target_id), &chars_of(self_id)) {
        Err(AppError::bad_request("不能删除自己"))
    } else if admin_count <= 1 && seq_eq(&chars_of(target_role), &chars_of("admin")) {
        Err(AppError::bad_request("不能删除最后一个管理员"))
    } else {
        Ok(())
    }
}

/// The last administrator is never deleted, and nobody deletes their own
/// account.
pub proof fn last_admin_survives(target_id: Seq<char>, self_id: Seq<char>, admin_count: i32, target_role: Seq<char>)
    ensures
        user_deletion_verdict(target_id, self_id, admin_count, target_role) is Ok ==> target_id
            != self_id && (target_role == "admin"@ ==> admin_count >= 2),
{
}

/// The answer when a platform's cookies were to be deleted and there were
/// none.
pub fn cookie_deletion_result(deleted: bool) -> (r: Result<(), AppError>)
    ensures
        deleted ==> r is Ok,
        !deleted ==> (r matches Err(e) && is_not_found(e, "平台尚未导入 Cookie"@)),
{
    if deleted {
        Ok(())
    } else {
        Err(AppError::not_found("平台尚未导入 Cookie"))
    }
}

} // verus!
