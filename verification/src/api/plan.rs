//! The plan endpoints' defaults, and the file a plan run is exported as.

use vstd::prelude::*;
use crate::api::task::{export_kind, kind_ext, kind_type, ExportKind};
use crate::text::{chars_of, concat, owned, seq_eq, string_of};

verus! {

/// The first page when a listing does not say.
pub fn default_page() -> (r: u32)
    ensures
        r == 1,
{
    1
}

/// The page size when a listing does not say.
pub fn default_size() -> (r: u32)
    ensures
        r == 20,
{
    20
}

/// The export format when a request does not say.
pub fn default_export_format() -> (r: String)
    ensures
        r@ == "json"@,
{
    owned("json")
}

/// How many run records are listed when the request does not say.
pub fn default_run_limit(limit: Option<u32>) -> (r: u32)
    ensures
        r == match limit {
            Some(l) => l,
            None => 20,
        },
{
    match limit {
        Some(l) => l,
        None => 20,
    }
}

/// The first eight characters of a run id (all of it when shorter).
pub open spec fn short_id(id: Seq<char>) -> Seq<char> {
    if id.len() <= 8 {
        id
    } else {
        id.take(8)
    }
}

/// The kind, content type and file name of a plan run's export:
/// `plan_run_{first 8 characters of the run}.{ext}`.
pub fn plan_run_export(format: &str, run_id: &str) -> (r: (ExportKind, &'static str, String))
    ensures
        r.0 == export_kind(format@),
        r.1@ == kind_type(r.0),
        r.2@ == "plan_run_"@ + short_id(run_id@) + kind_ext(r.0),
{
    let f = chars_of(format);
    let (kind, content_type, ext) = if seq_eq(&f, &chars_of("xlsx")) {
        (
            ExportKind::Xlsx,
            "application/vnd.openxmlformats-officedocument.spreadsheetml.sheet",
            ".xlsx",
        )
    } else if seq_eq(&f, &chars_of("csv")) {
        (ExportKind::Csv, "text/csv", ".csv")
    } else {
        (ExportKind::Json, "application/json", ".json")
    };
    let id = chars_of(run_id);
    let mut short: Vec<char> = Vec::new();
    let mut i: usize = 0;
    while i < id.len() && i < 8
        invariant
            i <= id.len(),
            i <= 8,
            short@ == id@.take(i as int),
        decreases id.len() - i,
    {
        short.push(id[i]);
        i = i + 1;
        assert(short@ =~= id@.take(i as int));
    }
    assert(short@ =~= short_id(id@));
    let name = concat(&concat(&chars_of("plan_run_"), &short), &chars_of(ext));
    (kind, content_type, string_of(&name))
}

} // verus!
