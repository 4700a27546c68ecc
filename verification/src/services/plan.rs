//! The rules of test plans: what a plan request must hold, when a stored
//! item can be run, who may change or run a plan, when a scheduled plan is
//! due, and what deleting a run record does.

use vstd::prelude::*;
use crate::jsonlist::{
    int_text, json_int, json_null, json_object, json_string_text, json_top, member_texts, read_json_top,
    read_string_list, string_list_json, values_read, write_object, JsonTop, JsonTopRead,
};
use crate::models::plan::{PlanItemInput, TaskPlanItem};
use crate::text::{
    chars_of, concat, decimal, decimal_of, is_whitespace, is_ws, opt_str, opt_text, owned, seq_eq, string_of, trim,
    trim_seq,
};
use crate::urlcheck::{agrees, ping_verdict, url_verdict, validate_ping_target, validate_url};

verus! {

/// The plan service's limits.
pub struct PlanService;

/// The largest page of plans that is listed.
pub const MAX_PAGE_SIZE: u32 = 100;

/// The most run records that are listed.
pub const MAX_RUN_LIMIT: u32 = 100;

impl PlanService {
    /// The page size and the offset of a page of plans: the size is held
    /// between 1 and 100, pages count from 1 (0 counts as 1), and the offset
    /// saturates.
    pub fn page_window(page: u32, size: u32) -> (r: (u32, u32))
        ensures
            r.0 == (if size < 1 {
                1
            } else if size > MAX_PAGE_SIZE {
                MAX_PAGE_SIZE
            } else {
                size
            }),
            r.1 == (if page <= 1 {
                0
            } else if (page - 1) * r.0 > u32::MAX {
                u32::MAX as int
            } else {
                (page - 1) * r.0
            }),
    {
        let s = if size < 1 {
            1
        } else if size > MAX_PAGE_SIZE {
            MAX_PAGE_SIZE
        } else {
            size
        };
        let p = if page < 1 { 1 } else { page };
        let offset = (p - 1).checked_mul(s);
        let o = match offset {
            Some(o) => o,
            None => u32::MAX,
        };
        (s, o)
    }

    /// How many run records are listed: at most 100.
    pub fn run_limit(limit: u32) -> (r: u32)
        ensures
            r == if limit < MAX_RUN_LIMIT {
                limit
            } else {
                MAX_RUN_LIMIT
            },
    {
        if limit < MAX_RUN_LIMIT {
            limit
        } else {
            MAX_RUN_LIMIT
        }
    }
}

// ───────────────────────── schedules ─────────────────────────

/// How many whitespace-separated words the text holds
/// (`split_whitespace().count()`).
pub open spec fn word_count(s: Seq<char>) -> nat
    decreases s.len(),
{
    if s.len() == 0 {
        0
    } else {
        word_count(s.drop_last()) + if !is_ws(s.last()) && (s.len() == 1 || is_ws(s[s.len() - 2])) {
            1nat
        } else {
            0nat
        }
    }
}

/// The number of whitespace-separated words.
pub fn count_words(s: &Vec<char>) -> (r: usize)
    ensures
        r == word_count(s@),
{
    let mut n: usize = 0;
    let mut i: usize = 0;
    while i < s.len()
        invariant
            i <= s.len(),
            n == word_count(s@.take(i as int)),
            n <= i,
        decreases s.len() - i,
    {
        let starts = !is_whitespace(s[i]) && (i == 0 || is_whitespace(s[i - 1]));
        proof {
            let t = s@.take(i + 1);
            assert(t.drop_last() =~= s@.take(i as int));
            assert(t.last() == s@[i as int]);
            if i > 0 {
                assert(t[t.len() - 2] == s@[i - 1]);
            }
        }
        if starts {
            n = n + 1;
        }
        i = i + 1;
    }
    assert(s@.take(s.len() as int) =~= s@);
    n
}

/// A schedule as the cron reader takes it: a five-field expression gets a
/// leading seconds field of `0`.
pub open spec fn normalized_cron(expr: Seq<char>) -> Seq<char> {
    if word_count(expr) == 5 {
        "0 "@ + expr
    } else {
        expr
    }
}

/// `cron::Schedule::from_str` of the expression, then the first time after
/// `from` (read as an RFC 3339 UTC time) in `Schedule::after`, written with
/// `to_rfc3339`; nothing when either text does not parse or no time
/// follows.
pub uninterp spec fn cron_next_run(expr: Seq<char>, from: Seq<char>) -> Option<Seq<char>>;

/// `a` is strictly after `b`.
pub open spec fn later(a: (i64, u32), b: (i64, u32)) -> bool {
    a.0 > b.0 || (a.0 == b.0 && a.1 > b.1)
}

/// A time written by `to_rfc3339` reads back, and it lies strictly after
/// `from`, which also reads.
pub open spec fn fires_after(next: Seq<char>, from: Seq<char>) -> bool {
    match (utc_time(next), utc_time(from)) {
        (Some(n), Some(f)) => later(n, f),
        _ => false,
    }
}

/// The Unix second of chrono's last representable second
/// (`+262142-12-31T23:59:59`, `NaiveDate::MAX`).
pub const LAST_UTC_SECOND: i64 = 8210266876799;

/// A start time from which a schedule can be searched: it reads, and one
/// second after it is still a time chrono can hold (the cron crate starts
/// its search one second after the given time).
pub open spec fn searchable_from(from: Seq<char>) -> bool {
    match utc_time(from) {
        Some(t) => t.0 < LAST_UTC_SECOND,
        None => false,
    }
}

/// Asks the `cron` crate for the first time of a schedule after a given
/// time. The result is named `cron_next_run` of the two texts; `from` is
/// read as a `DateTime<Utc>` (the reading `utc_time` names), and
/// `Schedule::after` yields only times after it, written with
/// `to_rfc3339`, which reads back as the same time. The search adds a
/// second to `from` first, which chrono refuses with a panic at its last
/// second; such starts are left out.
#[verifier::external_body]
fn next_fire_time(expr: &str, from: &str) -> (r: Option<String>)
    requires
        searchable_from(from@),
    ensures
        match cron_next_run(expr@, from@) {
            Some(t) => r matches Some(s) && s@ == t,
            None => r is None,
        },
        r matches Some(s) ==> fires_after(s@, from@),
{
    let schedule = expr.parse::<cron::Schedule>().ok()?;
    let now = from.parse::<chrono::DateTime<chrono::Utc>>().ok()?;
    schedule.after(&now).next().map(|t| t.to_rfc3339())
}

/// The next time a schedule fires after `from`: nothing when `from` does
/// not read as a time, or lies in chrono's last second.
pub open spec fn next_run(expr: Seq<char>, from: Seq<char>) -> Option<Seq<char>> {
    if searchable_from(from) {
        cron_next_run(normalized_cron(expr), from)
    } else {
        None
    }
}

/// The next time a schedule fires after `from`.
pub fn compute_next_run(cron_expr: &str, from: &str) -> (r: Option<String>)
    ensures
        match next_run(cron_expr@, from@) {
            Some(t) => r matches Some(s) && s@ == t,
            None => r is None,
        },
        r matches Some(s) ==> fires_after(s@, from@),
{
    match parse_utc(from) {
        Some(t) => {
            if t.0 >= LAST_UTC_SECOND {
                return None;
            }
        },
        None => return None,
    }
    let e = chars_of(cron_expr);
    if count_words(&e) == 5 {
        let n = string_of(&concat(&chars_of("0 "), &e));
        next_fire_time(n.as_str(), from)
    } else {
        next_fire_time(cron_expr, from)
    }
}

/// A word in front of a text, separated by a space, adds one word.
proof fn lemma_word_count_prefix(s: Seq<char>)
    ensures
        word_count(seq!['0', ' '] + s) == word_count(s) + 1,
    decreases s.len(),
{
    let p = seq!['0', ' '];
    if s.len() == 0 {
        assert(p + s =~= p);
        assert(p.drop_last() =~= seq!['0']);
        assert(seq!['0'].drop_last() =~= Seq::<char>::empty());
        assert(!is_ws('0'));
        assert(is_ws(' '));
        assert(word_count(Seq::<char>::empty()) == 0);
        assert(word_count(seq!['0']) == 1);
        assert(word_count(p) == word_count(seq!['0']));
    } else {
        lemma_word_count_prefix(s.drop_last());
        let w = p + s;
        assert(w.drop_last() =~= p + s.drop_last());
        assert(w.last() == s.last());
        if s.len() == 1 {
            assert(w[w.len() - 2] == ' ');
            assert(is_ws(' '));
        } else {
            assert(w[w.len() - 2] == s[s.len() - 2]);
        }
        assert(word_count(w) == word_count(w.drop_last()) + if !is_ws(w.last()) && (w.len() == 1 || is_ws(
            w[w.len() - 2],
        )) {
            1nat
        } else {
            0nat
        });
    }
}

/// Only a five-field schedule gets a seconds field: an expression of any
/// other number of words (six-field ones with seconds, seven-field ones
/// with years) reaches the cron reader as it was given, while a
/// five-field one runs exactly as the six-field expression with `0`
/// seconds in front of it.
pub proof fn only_five_field_schedules_gain_seconds(expr: Seq<char>, from: Seq<char>)
    ensures
        word_count(expr) != 5 ==> next_run(expr, from) == (if searchable_from(from) {
            cron_next_run(expr, from)
        } else {
            None
        }),
        word_count(expr) == 5 ==> next_run(expr, from) == next_run("0 "@ + expr, from),
        word_count(expr) == 5 ==> word_count("0 "@ + expr) == 6,
{
    reveal_strlit("0 ");
    assert("0 "@ =~= seq!['0', ' ']);
    lemma_word_count_prefix(expr);
}

/// `DateTime<Utc>` read from RFC 3339 text (`str::parse`), as its
/// `timestamp` and `timestamp_subsec_nanos`, whose order is the order of
/// the times.
pub uninterp spec fn utc_time(text: Seq<char>) -> Option<(i64, u32)>;

/// Reads an RFC 3339 time with `chrono`. The result is named `utc_time` of
/// the text.
#[verifier::external_body]
fn parse_utc(text: &str) -> (r: Option<(i64, u32)>)
    ensures
        r == utc_time(text@),
{
    text.parse::<chrono::DateTime<chrono::Utc>>().ok().map(|t| (t.timestamp(), t.timestamp_subsec_nanos()))
}

/// `a` is at or after `b`.
pub open spec fn not_before(a: (i64, u32), b: (i64, u32)) -> bool {
    a.0 > b.0 || (a.0 == b.0 && a.1 >= b.1)
}

/// A scheduled plan is due at `now` when its next run time has come, or
/// when it has no readable next run time.
pub open spec fn due(next_run_at: Option<Seq<char>>, now: (i64, u32)) -> bool {
    match next_run_at {
        Some(t) => match utc_time(t) {
            Some(next) => not_before(now, next),
            None => true,
        },
        None => true,
    }
}

/// Whether a scheduled plan is due at `now` (seconds and nanoseconds of a
/// UTC time).
pub fn plan_is_due(next_run_at: Option<&str>, now_secs: i64, now_nanos: u32) -> (r: bool)
    ensures
        r == due(
            opt_str(next_run_at),
            (now_secs, now_nanos),
        ),
{
    match next_run_at {
        Some(t) => match parse_utc(t) {
            Some(next) => now_secs > next.0 || (now_secs == next.0 && now_nanos >= next.1),
            None => true,
        },
        None => true,
    }
}

// ───────────────────────── plan requests ─────────────────────────

/// The task kinds that a plan item may have.
pub open spec fn plan_task_type(t: Seq<char>) -> bool {
    t == "website"@ || t == "download"@ || t == "video"@ || t == "ping"@
}

/// Whether a plan item may have the task kind.
pub fn is_plan_task_type(t: &str) -> (r: bool)
    ensures
        r == plan_task_type(t@),
{
    let v = chars_of(t);
    seq_eq(&v, &chars_of("website")) || seq_eq(&v, &chars_of("download")) || seq_eq(
        &v,
        &chars_of("video"),
    ) || seq_eq(&v, &chars_of("ping"))
}

/// The verdict on one target of an item: ping targets are checked as ping
/// targets, others as URLs.
pub open spec fn target_verdict(task_type: Seq<char>, value: Seq<char>) -> Result<(), Seq<char>> {
    if task_type == "ping"@ {
        ping_verdict(value)
    } else {
        url_verdict(value)
    }
}

/// Checks one target of an item.
fn check_target(task_type: &str, value: &str) -> (r: Result<(), String>)
    ensures
        agrees(r, target_verdict(task_type@, value@)),
{
    if seq_eq(&chars_of(task_type), &chars_of("ping")) {
        validate_ping_target(value)
    } else {
        validate_url(value)
    }
}

/// "第 {n} 项" followed by the rest of a message.
pub open spec fn item_message(n: nat, rest: Seq<char>) -> Seq<char> {
    "第 "@ + decimal(n) + rest
}

/// Writes "第 {n} 项" followed by `rest`.
fn item_msg(n: u64, rest: &Vec<char>) -> (r: String)
    ensures
        r@ == item_message(n as nat, rest@),
{
    string_of(&concat(&concat(&chars_of("第 "), &decimal_of(n)), rest))
}

/// The verdict on the first `k` targets of the `n`-th submitted item.
pub open spec fn input_targets_verdict(n: nat, task_type: Seq<char>, urls: Seq<Seq<char>>, k: int) -> Result<
    (),
    Seq<char>,
>
    decreases k,
{
    if k <= 0 {
        Ok(())
    } else {
        match input_targets_verdict(n, task_type, urls, k - 1) {
            Err(e) => Err(e),
            Ok(()) => {
                let v = urls[k - 1];
                if trim_seq(v) != v {
                    Err(item_message(n, " 项包含带空格的目标"@))
                } else {
                    match target_verdict(task_type, v) {
                        Err(e) => Err(item_message(n, " 项包含无效目标: "@ + e)),
                        Ok(()) => Ok(()),
                    }
                }
            },
        }
    }
}

/// The texts of a list of strings.
pub open spec fn strs(v: Seq<String>) -> Seq<Seq<char>> {
    v.map_values(|s: String| s@)
}

/// The verdict on the `n`-th submitted item.
pub open spec fn input_item_verdict(n: nat, item: PlanItemInput) -> Result<(), Seq<char>> {
    if !plan_task_type(item.task_type@) {
        Err(item_message(n, " 项的任务类型无效"@))
    } else if !(1 <= item.repeat_count <= 100) {
        Err(item_message(n, " 项的重复次数必须在 1 到 100 之间"@))
    } else if item.urls.len() == 0 {
        Err(item_message(n, " 项至少需要一个 URL"@))
    } else {
        input_targets_verdict(n, item.task_type@, strs(item.urls@), item.urls.len() as int)
    }
}

/// The verdict on the first `k` submitted items.
pub open spec fn input_items_verdict(items: Seq<PlanItemInput>, k: int) -> Result<(), Seq<char>>
    decreases k,
{
    if k <= 0 {
        Ok(())
    } else {
        match input_items_verdict(items, k - 1) {
            Err(e) => Err(e),
            Ok(()) => input_item_verdict(k as nat, items[k - 1]),
        }
    }
}

/// The verdict on a plan request checked at time `now`: a name that is not
/// blank, at least one item, a schedule (if any) that is not blank and
/// fires after `now`, then each item in order.
pub open spec fn plan_request_verdict(
    name: Seq<char>,
    cron: Option<Seq<char>>,
    items: Seq<PlanItemInput>,
    now: Seq<char>,
) -> Result<(), Seq<char>> {
    if trim_seq(name).len() == 0 {
        Err("计划名不能为空"@)
    } else if items.len() == 0 {
        Err("计划至少需要包含一个测试项"@)
    } else if cron matches Some(e) && (trim_seq(e).len() == 0 || next_run(e, now) is None) {
        Err("无效的 cron 表达式"@)
    } else {
        input_items_verdict(items, items.len() as int)
    }
}

proof fn lemma_targets_refusal_persists(n: nat, t: Seq<char>, urls: Seq<Seq<char>>, k: int, m: int)
    requires
        0 <= k <= m,
        input_targets_verdict(n, t, urls, k) is Err,
    ensures
        input_targets_verdict(n, t, urls, m) == input_targets_verdict(n, t, urls, k),
    decreases m - k,
{
    if m > k {
        lemma_targets_refusal_persists(n, t, urls, k, m - 1);
    }
}

proof fn lemma_items_refusal_persists(items: Seq<PlanItemInput>, k: int, m: int)
    requires
        0 <= k <= m,
        input_items_verdict(items, k) is Err,
    ensures
        input_items_verdict(items, m) == input_items_verdict(items, k),
    decreases m - k,
{
    if m > k {
        lemma_items_refusal_persists(items, k, m - 1);
    }
}

/// Checks the `n`-th submitted item.
fn check_input_item(n: u64, item: &PlanItemInput) -> (r: Result<(), String>)
    ensures
        agrees(r, input_item_verdict(n as nat, *item)),
{
    if !is_plan_task_type(item.task_type.as_str()) {
        return Err(item_msg(n, &chars_of(" 项的任务类型无效")));
    }
    if !(1 <= item.repeat_count && item.repeat_count <= 100) {
        return Err(item_msg(n, &chars_of(" 项的重复次数必须在 1 到 100 之间")));
    }
    if item.urls.len() == 0 {
        return Err(item_msg(n, &chars_of(" 项至少需要一个 URL")));
    }
    let ghost urls = strs(item.urls@);
    let mut k: usize = 0;
    while k < item.urls.len()
        invariant
            k <= item.urls.len(),
            urls == strs(item.urls@),
            urls.len() == item.urls.len(),
            input_item_verdict(n as nat, *item) == input_targets_verdict(
                n as nat,
                item.task_type@,
                urls,
                item.urls.len() as int,
            ),
            input_targets_verdict(n as nat, item.task_type@, urls, k as int) is Ok,
        decreases item.urls.len() - k,
    {
        let value = &item.urls[k];
        let v = chars_of(value.as_str());
        let t = trim(&v);
        assert(urls[k as int] == v@);
        if !seq_eq(&t, &v) {
            proof {
                lemma_targets_refusal_persists(
                    n as nat,
                    item.task_type@,
                    urls,
                    k + 1,
                    item.urls.len() as int,
                );
            }
            return Err(item_msg(n, &chars_of(" 项包含带空格的目标")));
        }
        match check_target(item.task_type.as_str(), value.as_str()) {
            Err(e) => {
                proof {
                    lemma_targets_refusal_persists(
                        n as nat,
                        item.task_type@,
                        urls,
                        k + 1,
                        item.urls.len() as int,
                    );
                }
                let rest = concat(&chars_of(" 项包含无效目标: "), &chars_of(e.as_str()));
                return Err(item_msg(n, &rest));
            },
            Ok(()) => {},
        }
        k = k + 1;
    }
    Ok(())
}

/// Checks a plan request at time `now`.
pub fn check_plan_request(
    name: &str,
    cron_expression: Option<&str>,
    items: &Vec<PlanItemInput>,
    now: &str,
) -> (r: Result<(), String>)
    ensures
        agrees(
            r,
            plan_request_verdict(
                name@,
                opt_str(cron_expression),
                items@,
                now@,
            ),
        ),
{
    if trim(&chars_of(name)).len() == 0 {
        return Err(owned("计划名不能为空"));
    }
    if items.len() == 0 {
        return Err(owned("计划至少需要包含一个测试项"));
    }
    match cron_expression {
        Some(expr) => {
            if trim(&chars_of(expr)).len() == 0 || compute_next_run(expr, now).is_none() {
                return Err(owned("无效的 cron 表达式"));
            }
        },
        None => {},
    }
    let mut k: usize = 0;
    while k < items.len()
        invariant
            k <= items.len(),
            plan_request_verdict(name@, opt_str(cron_expression), items@, now@)
                == input_items_verdict(items@, items.len() as int),
            input_items_verdict(items@, k as int) is Ok,
        decreases items.len() - k,
    {
        match check_input_item((k + 1) as u64, &items[k]) {
            Err(e) => {
                proof {
                    lemma_items_refusal_persists(items@, k + 1, items.len() as int);
                }
                return Err(e);
            },
            Ok(()) => {},
        }
        k = k + 1;
    }
    Ok(())
}

/// The current time in RFC 3339 (`chrono::Utc::now().to_rfc3339()`). It
/// depends on the clock; no claim is made of it.
#[verifier::external_body]
fn now_rfc3339() -> (r: String) {
    chrono::Utc::now().to_rfc3339()
}

/// Checks a plan request now: the verdict is that of `check_plan_request`
/// at the time that was read.
pub fn validate_plan_request(
    name: &str,
    cron_expression: Option<&str>,
    items: &Vec<PlanItemInput>,
) -> (r: Result<(), String>)
    ensures
        exists|now: Seq<char>|
            agrees(
                r,
                #[trigger] plan_request_verdict(
                    name@,
                    opt_str(cron_expression),
                    items@,
                    now,
                ),
            ),
{
    let now = now_rfc3339();
    check_plan_request(name, cron_expression, items, now.as_str())
}

// ───────────────────────── stored items ─────────────────────────

/// The verdict on the first `k` targets of a stored item.
pub open spec fn stored_targets_verdict(task_type: Seq<char>, urls: Seq<Seq<char>>, k: int) -> Result<
    (),
    Seq<char>,
>
    decreases k,
{
    if k <= 0 {
        Ok(())
    } else {
        match stored_targets_verdict(task_type, urls, k - 1) {
            Err(e) => Err(e),
            Ok(()) => {
                let v = urls[k - 1];
                if trim_seq(v) != v {
                    Err("目标不能包含首尾空格"@)
                } else {
                    match target_verdict(task_type, v) {
                        Err(e) => Err("无效目标: "@ + e),
                        Ok(()) => Ok(()),
                    }
                }
            },
        }
    }
}

/// The verdict on a stored item about to run: its targets, or why it
/// cannot run.
pub open spec fn stored_item_verdict(item: TaskPlanItem) -> Result<Seq<Seq<char>>, Seq<char>> {
    if !plan_task_type(item.task_type@) {
        Err("任务类型无效: "@ + item.task_type@)
    } else if !(1 <= item.repeat_count <= 100) {
        Err("重复次数必须在 1 到 100 之间"@)
    } else {
        match string_list_json(item.urls@) {
            Err(e) => Err(e),
            Ok(urls) => if urls.len() == 0 {
                Err("计划项至少需要一个 URL"@)
            } else {
                match stored_targets_verdict(item.task_type@, urls, urls.len() as int) {
                    Err(e) => Err(e),
                    Ok(()) => Ok(urls),
                }
            },
        }
    }
}

// ───────────────────────── item options ─────────────────────────

/// A member that the merge sets itself.
pub open spec fn merge_key(k: Seq<char>) -> bool {
    k == "repeat_count"@ || k == "engine"@
}

/// The members, without those that the merge sets.
pub open spec fn without_merge_keys(e: Seq<(Seq<char>, Seq<char>)>) -> Seq<(Seq<char>, Seq<char>)>
    decreases e.len(),
{
    if e.len() == 0 {
        Seq::empty()
    } else {
        without_merge_keys(e.drop_last()) + if merge_key(e.last().0) {
            Seq::empty()
        } else {
            seq![e.last()]
        }
    }
}

/// The engine as a JSON value: its name, or `null`.
pub open spec fn engine_text(engine: Option<Seq<char>>) -> Seq<char> {
    match engine {
        Some(e) => json_string_text(e),
        None => "null"@,
    }
}

/// The message when a stored item's options are JSON but not an object.
pub open spec fn options_not_object() -> Seq<char> {
    "测试项选项必须是 JSON 对象"@
}

/// The options a stored item runs with: its options object (none, `null`
/// or unreadable text count as the empty object) with `repeat_count` and
/// `engine` set from the item; options that are any other JSON value are
/// refused.
pub open spec fn merged_options_of(options: Option<Seq<char>>, repeat_count: i32, engine: Option<Seq<char>>) -> Result<
    Seq<char>,
    Seq<char>,
> {
    let top = match options {
        Some(t) => json_top(t),
        None => JsonTop::Null,
    };
    let base = match top {
        JsonTop::Object(e) => Some(e),
        JsonTop::Null | JsonTop::Invalid => Some(Seq::<(Seq<char>, Seq<char>)>::empty()),
        _ => None,
    };
    match base {
        Some(e) => Ok(
            json_object(
                without_merge_keys(e) + seq![
                    ("repeat_count"@, int_text(repeat_count as int)),
                    ("engine"@, engine_text(engine)),
                ],
            ).unwrap(),
        ),
        None => Err(options_not_object()),
    }
}

/// The options a stored item runs with (see `merged_options_of`).
pub fn merged_item_options(options: Option<&str>, repeat_count: i32, engine: Option<&str>) -> (r: Result<
    String,
    String,
>)
    ensures
        match merged_options_of(opt_str(options), repeat_count, opt_str(engine)) {
            Ok(t) => r matches Ok(v) && v@ == t,
            Err(e) => r matches Err(m) && m@ == e,
        },
{
    let members: Vec<(String, String)> = match options {
        Some(t) => match read_json_top(t) {
            JsonTopRead::Object(v) => v,
            JsonTopRead::Null | JsonTopRead::Invalid => Vec::new(),
            _ => return Err(owned("测试项选项必须是 JSON 对象")),
        },
        None => Vec::new(),
    };
    let ghost e = member_texts(members@);
    assert(member_texts(Seq::<(String, String)>::empty()) =~= Seq::<(Seq<char>, Seq<char>)>::empty());
    let rk = chars_of("repeat_count");
    let ek = chars_of("engine");
    let mut kept: Vec<(String, String)> = Vec::new();
    let mut i: usize = 0;
    while i < members.len()
        invariant
            i <= members.len(),
            e == member_texts(members@),
            rk@ == "repeat_count"@,
            ek@ == "engine"@,
            member_texts(kept@) == without_merge_keys(e.take(i as int)),
            values_read(e),
            values_read(member_texts(kept@)),
        decreases members.len() - i,
    {
        let k = chars_of(members[i].0.as_str());
        assert(e.take(i + 1).drop_last() =~= e.take(i as int));
        assert(e.take(i + 1).last() == e[i as int]);
        if !seq_eq(&k, &rk) && !seq_eq(&k, &ek) {
            let pair = (members[i].0.clone(), members[i].1.clone());
            let ghost prev = member_texts(kept@);
            kept.push(pair);
            assert(member_texts(kept@) =~= prev + seq![e[i as int]]);
            assert(crate::jsonlist::reads_as_json(e[i as int].1));
            assert(values_read(member_texts(kept@))) by {
                let m = member_texts(kept@);
                assert forall|j: int| 0 <= j < m.len() implies crate::jsonlist::reads_as_json(#[trigger] m[j].1) by {
                    if j < prev.len() {
                        assert(m[j] == prev[j]);
                        assert(crate::jsonlist::reads_as_json(prev[j].1));
                    } else {
                        assert(m[j] == e[i as int]);
                    }
                }
            }
        }
        i = i + 1;
    }
    assert(e.take(members.len() as int) =~= e);
    let rc = json_int(repeat_count);
    let en = match engine {
        Some(name) => crate::jsonlist::json_string(name),
        None => json_null(),
    };
    let ghost before = member_texts(kept@);
    kept.push((owned("repeat_count"), rc));
    kept.push((owned("engine"), en));
    assert(member_texts(kept@) =~= before + seq![
        ("repeat_count"@, int_text(repeat_count as int)),
        ("engine"@, engine_text(opt_str(engine))),
    ]);
    assert(values_read(member_texts(kept@))) by {
        let m = member_texts(kept@);
        assert forall|j: int| 0 <= j < m.len() implies crate::jsonlist::reads_as_json(#[trigger] m[j].1) by {
            if j < m.len() - 2 {
                assert(m[j] == before[j]);
            }
        }
    }
    Ok(write_object(&kept).unwrap())
}

/// Prepares a stored item for a run: its checked targets (as
/// `prepare_plan_item`) and the options it runs with (as
/// `merged_item_options`), the checks first.
pub fn prepare_plan_run_item(item: &TaskPlanItem) -> (r: Result<(Vec<String>, String), String>)
    ensures
        match stored_item_verdict(*item) {
            Err(e) => r matches Err(m) && m@ == e,
            Ok(urls) => match merged_options_of(opt_text(item.options), item.repeat_count, opt_text(item.engine)) {
                Ok(t) => r matches Ok((v, o)) && strs(v@) == urls && o@ == t,
                Err(e) => r matches Err(m) && m@ == e,
            },
        },
{
    let urls = match prepare_plan_item(item) {
        Ok(u) => u,
        Err(e) => return Err(e),
    };
    let options: Option<&str> = match &item.options {
        Some(o) => Some(o.as_str()),
        None => None,
    };
    let engine: Option<&str> = match &item.engine {
        Some(e) => Some(e.as_str()),
        None => None,
    };
    assert(opt_str(options) == opt_text(item.options));
    assert(opt_str(engine) == opt_text(item.engine));
    match merged_item_options(options, item.repeat_count, engine) {
        Ok(o) => Ok((urls, o)),
        Err(e) => Err(e),
    }
}

proof fn lemma_stored_refusal_persists(t: Seq<char>, urls: Seq<Seq<char>>, k: int, m: int)
    requires
        0 <= k <= m,
        stored_targets_verdict(t, urls, k) is Err,
    ensures
        stored_targets_verdict(t, urls, m) == stored_targets_verdict(t, urls, k),
    decreases m - k,
{
    if m > k {
        lemma_stored_refusal_persists(t, urls, k, m - 1);
    }
}

/// Checks a stored item before it runs and returns its targets.
pub fn prepare_plan_item(item: &TaskPlanItem) -> (r: Result<Vec<String>, String>)
    ensures
        match stored_item_verdict(*item) {
            Ok(urls) => r matches Ok(v) && strs(v@) == urls,
            Err(e) => r matches Err(m) && m@ == e,
        },
{
    if !is_plan_task_type(item.task_type.as_str()) {
        return Err(
            string_of(&concat(&chars_of("任务类型无效: "), &chars_of(item.task_type.as_str()))),
        );
    }
    if !(1 <= item.repeat_count && item.repeat_count <= 100) {
        return Err(owned("重复次数必须在 1 到 100 之间"));
    }
    let urls = match read_string_list(item.urls.as_str()) {
        Ok(v) => v,
        Err(e) => return Err(e),
    };
    if urls.len() == 0 {
        return Err(owned("计划项至少需要一个 URL"));
    }
    let ghost us = strs(urls@);
    assert(string_list_json(item.urls@) == Ok::<Seq<Seq<char>>, Seq<char>>(us));
    let mut k: usize = 0;
    while k < urls.len()
        invariant
            k <= urls.len(),
            us == strs(urls@),
            us.len() == urls.len(),
            stored_item_verdict(*item) == match stored_targets_verdict(
                item.task_type@,
                us,
                us.len() as int,
            ) {
                Err(e) => Err(e),
                Ok(()) => Ok(us),
            },
            stored_targets_verdict(item.task_type@, us, k as int) is Ok,
        decreases urls.len() - k,
    {
        let v = chars_of(urls[k].as_str());
        assert(us[k as int] == v@);
        if !seq_eq(&trim(&v), &v) {
            proof {
                lemma_stored_refusal_persists(item.task_type@, us, k + 1, urls.len() as int);
            }
            return Err(owned("目标不能包含首尾空格"));
        }
        match check_target(item.task_type.as_str(), urls[k].as_str()) {
            Err(e) => {
                proof {
                    lemma_stored_refusal_persists(item.task_type@, us, k + 1, urls.len() as int);
                }
                return Err(string_of(&concat(&chars_of("无效目标: "), &chars_of(e.as_str()))));
            },
            Ok(()) => {},
        }
        k = k + 1;
    }
    Ok(urls)
}


// ───────────────────────── access and runs ─────────────────────────

/// What a user wants to do with a plan.
#[derive(Debug, Clone, Copy, PartialEq, Eq, Structural)]
pub enum PlanAction {
    Update,
    Delete,
    Run,
    DeleteRun,
}

/// The refusal for a user who does not own the plan.
pub open spec fn not_owner_message(action: PlanAction) -> Seq<char> {
    match action {
        PlanAction::Update => "无权修改此计划"@,
        PlanAction::Delete => "无权删除此计划"@,
        PlanAction::Run => "无权运行此计划"@,
        PlanAction::DeleteRun => "无权删除"@,
    }
}

/// The verdict on a user acting on a plan with the given owner (`None`
/// when there is no such plan): only the owner may act.
pub open spec fn access_verdict(owner: Option<Seq<char>>, user_id: Seq<char>, action: PlanAction) -> Result<
    (),
    Seq<char>,
> {
    match owner {
        None => Err("计划不存在"@),
        Some(o) => if o == user_id {
            Ok(())
        } else {
            Err(not_owner_message(action))
        },
    }
}

/// Whether a user may act on a plan.
pub fn plan_access(owner: Option<&str>, user_id: &str, action: PlanAction) -> (r: Result<(), String>)
    ensures
        agrees(r, access_verdict(opt_str(owner), user_id@, action)),
{
    match owner {
        None => Err(owned("计划不存在")),
        Some(o) => if seq_eq(&chars_of(o), &chars_of(user_id)) {
            Ok(())
        } else {
            Err(
                owned(
                    match action {
                        PlanAction::Update => "无权修改此计划",
                        PlanAction::Delete => "无权删除此计划",
                        PlanAction::Run => "无权运行此计划",
                        PlanAction::DeleteRun => "无权删除",
                    },
                ),
            )
        },
    }
}

/// The verdict on running a plan now: the owner's, a plan with items, and
/// no run of it still pending or running.
pub open spec fn run_now_verdict(owner: Option<Seq<char>>, user_id: Seq<char>, item_count: nat, active_runs: int) -> Result<
    (),
    Seq<char>,
> {
    match access_verdict(owner, user_id, PlanAction::Run) {
        Err(e) => Err(e),
        Ok(()) => if item_count == 0 {
            Err("计划无测试项"@)
        } else if active_runs > 0 {
            Err("计划已有运行中的任务"@)
        } else {
            Ok(())
        },
    }
}

/// Whether a plan may be run now.
pub fn run_now_check(owner: Option<&str>, user_id: &str, item_count: usize, active_runs: i64) -> (r: Result<
    (),
    String,
>)
    ensures
        agrees(r, run_now_verdict(opt_str(owner), user_id@, item_count as nat, active_runs as int)),
{
    match plan_access(owner, user_id, PlanAction::Run) {
        Err(e) => Err(e),
        Ok(()) => if item_count == 0 {
            Err(owned("计划无测试项"))
        } else if active_runs > 0 {
            Err(owned("计划已有运行中的任务"))
        } else {
            Ok(())
        },
    }
}

/// A run is over when each of its tasks has finished and it is still
/// marked running.
pub fn run_is_complete(completed_count: usize, task_count: usize, status: &str) -> (r: bool)
    ensures
        r == (completed_count == task_count && task_count > 0 && status@ == "running"@),
{
    completed_count == task_count && task_count > 0 && seq_eq(&chars_of(status), &chars_of("running"))
}

/// What deleting a run record comes to.
pub enum RunDeletion {
    /// Refused; nothing changes.
    Refused(String),
    /// The run's active tasks are cancelled, and the deletion is refused.
    CancelActiveAndRefuse(String),
    /// The record is deleted; with `purge_tasks`, its tasks and their
    /// results are deleted first.
    Delete { purge_tasks: bool },
}

/// A run deletion, with texts in place of strings.
pub enum RunDeletionView {
    Refused(Seq<char>),
    CancelActiveAndRefuse(Seq<char>),
    Delete { purge_tasks: bool },
}

impl View for RunDeletion {
    type V = RunDeletionView;

    open spec fn view(&self) -> RunDeletionView {
        match self {
            RunDeletion::Refused(m) => RunDeletionView::Refused(m@),
            RunDeletion::CancelActiveAndRefuse(m) => RunDeletionView::CancelActiveAndRefuse(m@),
            RunDeletion::Delete { purge_tasks } => RunDeletionView::Delete {
                purge_tasks: *purge_tasks,
            },
        }
    }
}

pub open spec fn still_running_message() -> Seq<char> {
    "请等待任务完成后再删除，或使用强制删除"@
}

pub open spec fn active_tasks_message() -> Seq<char> {
    "运行中的子任务已取消，请完成协调后再删除运行记录"@
}

/// What deleting a run record comes to, given the plan's owner (`None` when
/// there is no plan), the run's status (`None` when there is no such run),
/// whether deletion is forced, how many of its tasks are still active, and
/// whether its task list is empty text.
pub open spec fn run_deletion(
    owner: Option<Seq<char>>,
    user_id: Seq<char>,
    run_status: Option<Seq<char>>,
    force: bool,
    active_tasks: int,
    task_ids_empty: bool,
) -> RunDeletionView {
    match access_verdict(owner, user_id, PlanAction::DeleteRun) {
        Err(e) => RunDeletionView::Refused(e),
        Ok(()) => match run_status {
            None => RunDeletionView::Refused("运行记录不存在"@),
            Some(s) => if !force && (s == "pending"@ || s == "running"@) {
                RunDeletionView::Refused(still_running_message())
            } else if active_tasks > 0 {
                if force {
                    RunDeletionView::CancelActiveAndRefuse(active_tasks_message())
                } else {
                    RunDeletionView::Refused(active_tasks_message())
                }
            } else {
                RunDeletionView::Delete { purge_tasks: force && !task_ids_empty }
            },
        },
    }
}

/// Decides what deleting a run record comes to.
pub fn plan_run_deletion(
    owner: Option<&str>,
    user_id: &str,
    run_status: Option<&str>,
    force: bool,
    active_tasks: i64,
    task_ids_empty: bool,
) -> (r: RunDeletion)
    ensures
        r@ == run_deletion(
            opt_str(owner),
            user_id@,
            opt_str(run_status),
            force,
            active_tasks as int,
            task_ids_empty,
        ),
{
    match plan_access(owner, user_id, PlanAction::DeleteRun) {
        Err(e) => RunDeletion::Refused(e),
        Ok(()) => match run_status {
            None => RunDeletion::Refused(owned("运行记录不存在")),
            Some(s) => {
                let st = chars_of(s);
                if !force && (seq_eq(&st, &chars_of("pending")) || seq_eq(&st, &chars_of("running"))) {
                    RunDeletion::Refused(owned("请等待任务完成后再删除，或使用强制删除"))
                } else if active_tasks > 0 {
                    let m = owned("运行中的子任务已取消，请完成协调后再删除运行记录");
                    if force {
                        RunDeletion::CancelActiveAndRefuse(m)
                    } else {
                        RunDeletion::Refused(m)
                    }
                } else {
                    RunDeletion::Delete { purge_tasks: force && !task_ids_empty }
                }
            },
        },
    }
}

/// A run record is never deleted while any of its tasks is still active,
/// and never without force while the run itself is pending or running.
pub proof fn active_runs_are_never_deleted(
    owner: Option<Seq<char>>,
    user_id: Seq<char>,
    run_status: Option<Seq<char>>,
    force: bool,
    active_tasks: int,
    task_ids_empty: bool,
)
    ensures
        run_deletion(owner, user_id, run_status, force, active_tasks, task_ids_empty) is Delete
            ==> active_tasks <= 0 && owner == Some(user_id) && run_status is Some && (force || (
        run_status != Some("pending"@) && run_status != Some("running"@))),
{
}

} // verus!
