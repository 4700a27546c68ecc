//! The task endpoints' checks: what a new task must hold, how results are
//! exported, how an imported task's kind is read, and when a task may be
//! deleted.

use vstd::prelude::*;
use crate::text::{
    chars_of, concat, decimal, decimal_of, owned, seq_eq, string_of, strip, strip_chars, to_lowercase,
    trim, trim_seq, unicode_lowercase,
};
use crate::utils::response::{is_bad_request, is_not_found, is_unauthorized, AppError};

verus! {

/// The first page when a listing does not say.
pub fn default_page() -> (r: u32)
    ensures
        r == 1,
{
    1
}

/// The page size when a listing does not say.
pub fn default_size() -> (r: u32)
    ensures
        r == 20,
{
    20
}

/// The export format when a request does not say.
pub fn default_format() -> (r: String)
    ensures
        r@ == "xlsx"@,
{
    owned("xlsx")
}

/// The kinds of task that can be created directly.
pub open spec fn creatable_type(t: Seq<char>) -> bool {
    t == "website"@ || t == "download"@ || t == "video"@
}

/// Checks a request to create a task: at least one URL, and a kind that
/// can be created.
pub fn check_create_task(url_count: usize, task_type: &str) -> (r: Result<(), AppError>)
    ensures
        url_count == 0 ==> (r matches Err(e) && is_bad_request(e, "测试URL列表不能为空"@)),
        url_count > 0 && !creatable_type(task_type@) ==> (r matches Err(e) && is_bad_request(
            e,
            "无效的任务类型"@,
        )),
        url_count > 0 && creatable_type(task_type@) ==> r is Ok,
{
    if url_count == 0 {
        return Err(AppError::bad_request("测试URL列表不能为空"));
    }
    let t = chars_of(task_type);
    if !(seq_eq(&t, &chars_of("website")) || seq_eq(&t, &chars_of("download")) || seq_eq(
        &t,
        &chars_of("video"),
    )) {
        return Err(AppError::bad_request("无效的任务类型"));
    }
    Ok(())
}

/// The kinds of task whose results can be exported.
pub open spec fn exportable_type(t: Seq<char>) -> bool {
    t == "website"@ || t == "video"@ || t == "download"@ || t == "ping"@
}

/// How an export is written.
#[derive(Debug, Clone, Copy, PartialEq, Eq, Structural)]
pub enum ExportKind {
    Xlsx,
    Csv,
    Json,
}

/// The file an export is sent as.
pub struct ExportFile {
    pub kind: ExportKind,
    pub content_type: &'static str,
    pub filename: String,
}

pub open spec fn xlsx_type() -> Seq<char> {
    "application/vnd.openxmlformats-officedocument.spreadsheetml.sheet"@
}

/// How a task's results are exported in a requested format: a workbook for
/// `xlsx`, CSV for `csv`, JSON otherwise; the file is named
/// `{kind}_{task}.{ext}`.
pub open spec fn export_kind(format: Seq<char>) -> ExportKind {
    if format == "xlsx"@ {
        ExportKind::Xlsx
    } else if format == "csv"@ {
        ExportKind::Csv
    } else {
        ExportKind::Json
    }
}

pub open spec fn kind_type(k: ExportKind) -> Seq<char> {
    match k {
        ExportKind::Xlsx => xlsx_type(),
        ExportKind::Csv => "text/csv"@,
        ExportKind::Json => "application/json"@,
    }
}

pub open spec fn kind_ext(k: ExportKind) -> Seq<char> {
    match k {
        ExportKind::Xlsx => ".xlsx"@,
        ExportKind::Csv => ".csv"@,
        ExportKind::Json => ".json"@,
    }
}

/// The file for exporting a task's results, or the refusal of a task kind
/// that cannot be exported.
pub fn task_export_file(task_type: &str, format: &str, task_id: &str) -> (r: Result<ExportFile, AppError>)
    ensures
        !exportable_type(task_type@) ==> (r matches Err(e) && is_bad_request(e, "不支持的任务类型"@)),
        exportable_type(task_type@) ==> (r matches Ok(f) && f.kind == export_kind(format@)
            && f.content_type@ == kind_type(f.kind) && f.filename@ == task_type@ + "_"@ + task_id@
            + kind_ext(f.kind)),
{
    let t = chars_of(task_type);
    if !(seq_eq(&t, &chars_of("website")) || seq_eq(&t, &chars_of("video")) || seq_eq(
        &t,
        &chars_of("download"),
    ) || seq_eq(&t, &chars_of("ping"))) {
        return Err(AppError::bad_request("不支持的任务类型"));
    }
    let f = chars_of(format);
    let (kind, content_type, ext) = if seq_eq(&f, &chars_of("xlsx")) {
        (
            ExportKind::Xlsx,
            "application/vnd.openxmlformats-officedocument.spreadsheetml.sheet",
            ".xlsx",
        )
    } else if seq_eq(&f, &chars_of("csv")) {
        (ExportKind::Csv, "text/csv", ".csv")
    } else {
        (ExportKind::Json, "application/json", ".json")
    };
    let name = concat(
        &concat(&concat(&t, &chars_of("_")), &chars_of(task_id)),
        &chars_of(ext),
    );
    Ok(ExportFile { kind, content_type, filename: string_of(&name) })
}

/// The `Content-Disposition` value that sends a file as an attachment.
pub fn attachment(filename: &str) -> (r: String)
    ensures
        r@ == "attachment; filename="@ + filename@,
{
    string_of(&concat(&chars_of("attachment; filename="), &chars_of(filename)))
}

/// The kind of an imported task as read: `website` when absent, trimmed,
/// stripped of brackets and white space at both ends, lower-cased.
pub open spec fn imported_type(raw: Option<Seq<char>>) -> Seq<char> {
    let t = match raw {
        Some(s) => s,
        None => "website"@,
    };
    unicode_lowercase(strip(trim_seq(t), seq!['[', ']'], true))
}

/// Reads the kind of an imported task.
pub fn import_task_type(raw: Option<&str>) -> (r: String)
    ensures
        r@ == imported_type(
            match raw {
                Some(s) => Some(s@),
                None => None,
            },
        ),
{
    let t = match raw {
        Some(s) => chars_of(s),
        None => chars_of("website"),
    };
    let brackets: Vec<char> = vec!['[', ']'];
    assert(brackets@ =~= seq!['[', ']']);
    let s = strip_chars(&trim(&t), &brackets, true);
    to_lowercase(string_of(&s).as_str())
}

/// The kinds of task an import accepts.
pub open spec fn importable_type(t: Seq<char>) -> bool {
    t == "ping"@ || t == "website"@ || t == "download"@ || t == "video"@
}

/// Whether an import accepts the kind.
pub fn is_importable_type(t: &str) -> (r: bool)
    ensures
        r == importable_type(t@),
{
    let v = chars_of(t);
    seq_eq(&v, &chars_of("ping")) || seq_eq(&v, &chars_of("website")) || seq_eq(
        &v,
        &chars_of("download"),
    ) || seq_eq(&v, &chars_of("video"))
}

/// The summary of an import.
pub fn import_summary(created: u64, failed: u64) -> (r: String)
    ensures
        r@ == "导入完成: "@ + decimal(created as nat) + " 成功, "@ + decimal(failed as nat) + " 失败"@,
{
    let s = concat(
        &concat(
            &concat(&concat(&chars_of("导入完成: "), &decimal_of(created)), &chars_of(" 成功, ")),
            &decimal_of(failed),
        ),
        &chars_of(" 失败"),
    );
    string_of(&s)
}

/// A task in this state is still to finish.
pub open spec fn active_status(s: Seq<char>) -> bool {
    s == "pending"@ || s == "running"@
}

/// The verdict on deleting a task, given its owner and status (`None` when
/// there is no such task): only the owner, and only a finished task unless
/// forced.
pub fn check_task_deletion(task: Option<(&str, &str)>, user_id: &str, force: bool) -> (r: Result<
    (),
    AppError,
>)
    ensures
        match task {
            None => r matches Err(e) && is_not_found(e, "任务不存在"@),
            Some((owner, status)) => if owner@ != user_id@ {
                r matches Err(e) && is_unauthorized(e, "无权删除"@)
            } else if !force && active_status(status@) {
                r matches Err(e) && is_bad_request(e, "请先取消运行中的任务再删除"@)
            } else {
                r is Ok
            },
        },
{
    match task {
        None => Err(AppError::not_found("任务不存在")),
        Some((owner, status)) => {
            if !seq_eq(&chars_of(owner), &chars_of(user_id)) {
                return Err(AppError::unauthorized("无权删除"));
            }
            let s = chars_of(status);
            if !force && (seq_eq(&s, &chars_of("pending")) || seq_eq(&s, &chars_of("running"))) {
                return Err(AppError::bad_request("请先取消运行中的任务再删除"));
            }
            Ok(())
        },
    }
}

/// Whether a batch deletion removes a task: the requester's own, finished
/// task.
pub fn batch_deletes(owner: &str, status: &str, user_id: &str) -> (r: bool)
    ensures
        r == (owner@ == user_id@ && !active_status(status@)),
{
    let s = chars_of(status);
    seq_eq(&chars_of(owner), &chars_of(user_id)) && !(seq_eq(&s, &chars_of("pending")) || seq_eq(
        &s,
        &chars_of("running"),
    ))
}

/// Whether a query asks for forced deletion: `force=true`.
pub fn is_forced(force_param: Option<&str>) -> (r: bool)
    ensures
        r == (force_param matches Some(p) && p@ == "true"@),
{
    match force_param {
        Some(p) => seq_eq(&chars_of(p), &chars_of("true")),
        None => false,
    }
}

} // verus!
