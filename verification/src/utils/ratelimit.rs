//! A sliding-window limiter: each key may make a bounded number of
//! attempts within any window of time.

use vstd::prelude::*;
use std::time::Instant;
use crate::clock::{instant_now, nanos_since};
use crate::text::{chars_of, seq_eq};

verus! {

/// The attempts recorded for one key, as nanoseconds since the limiter
/// was made.
struct KeyAttempts {
    key: String,
    stamps: Vec<u128>,
}

/// The recorded attempts, with every check made so far (each a key and
/// the time it was made), of which they are the outcome.
struct Records {
    entries: Vec<KeyAttempts>,
    checks: Ghost<Seq<(Seq<char>, u128)>>,
}

/// The limiter.
pub struct RateLimiter {
    records: Records,
    max_attempts: usize,
    window_nanos: u128,
    start: Instant,
}

/// The attempts recorded for a key: those of the last entry for it.
spec fn stamps_of(v: Seq<KeyAttempts>, key: Seq<char>) -> Seq<u128>
    decreases v.len(),
{
    if v.len() == 0 {
        Seq::empty()
    } else if v.last().key@ == key {
        v.last().stamps@
    } else {
        stamps_of(v.drop_last(), key)
    }
}

/// `now - t`, and zero when `t` is later than `now`.
pub open spec fn age(now: u128, t: u128) -> int {
    if t <= now {
        now - t
    } else {
        0
    }
}

/// The attempts that are still inside the window at `now`.
pub open spec fn recent(stamps: Seq<u128>, now: u128, window: u128) -> Seq<u128> {
    stamps.filter(|t: u128| age(now, t) < window)
}

/// What a check of `key` at `now` does to the recorded attempts: old ones
/// are forgotten, and the attempt is recorded when it is admitted.
pub open spec fn after_attempt(stamps: Seq<u128>, now: u128, window: u128, max: usize) -> (Seq<u128>, bool) {
    let kept = recent(stamps, now, window);
    if kept.len() >= max {
        (kept, false)
    } else {
        (kept.push(now), true)
    }
}

proof fn lemma_stamps_after_update(v: Seq<KeyAttempts>, i: int, e: KeyAttempts, key: Seq<char>)
    requires
        0 <= i < v.len(),
        v[i].key@ == e.key@,
        forall|j: int| i < j < v.len() ==> v[j].key@ != v[i].key@,
    ensures
        stamps_of(v.update(i, e), key) == if key == e.key@ {
            e.stamps@
        } else {
            stamps_of(v, key)
        },
    decreases v.len(),
{
    let w = v.update(i, e);
    if i == v.len() - 1 {
        assert(w.drop_last() =~= v.drop_last());
    } else {
        assert(w.drop_last() =~= v.drop_last().update(i, e));
        lemma_stamps_after_update(v.drop_last(), i, e, key);
    }
}

proof fn lemma_bounded(v: Seq<KeyAttempts>, key: Seq<char>, max: usize)
    requires
        forall|i: int| 0 <= i < v.len() ==> #[trigger] v[i].stamps@.len() <= max,
    ensures
        stamps_of(v, key).len() <= max,
    decreases v.len(),
{
    if v.len() > 0 && v.last().key@ != key {
        lemma_bounded(v.drop_last(), key, max);
    }
}

/// The position of the last entry for `key`, if there is one.
fn find_last(v: &Vec<KeyAttempts>, key: &Vec<char>) -> (r: Option<usize>)
    ensures
        match r {
            Some(i) => i < v.len() && v@[i as int].key@ == key@ && (forall|m: int|
                i < m < v@.len() ==> #[trigger] v@[m].key@ != key@) && stamps_of(v@, key@)
                == v@[i as int].stamps@,
            None => stamps_of(v@, key@) == Seq::<u128>::empty(),
        },
{
    let mut j: usize = v.len();
    assert(v@.take(v.len() as int) =~= v@);
    while j > 0
        invariant
            j <= v.len(),
            stamps_of(v@, key@) == stamps_of(v@.take(j as int), key@),
            forall|m: int| j <= m < v@.len() ==> #[trigger] v@[m].key@ != key@,
        decreases j,
    {
        assert(v@.take(j as int).drop_last() =~= v@.take(j - 1));
        if seq_eq(&chars_of(v[j - 1].key.as_str()), key) {
            return Some(j - 1);
        }
        j = j - 1;
    }
    assert(v@.take(0) =~= Seq::<KeyAttempts>::empty());
    None
}

impl RateLimiter {
    /// Every key holds at most `max_attempts` recorded attempts, and what
    /// is recorded for a key is what the checks made so far leave.
    #[verifier::type_invariant]
    spec fn consistent(self) -> bool {
        &&& forall|i: int| 0 <= i < self.records.entries@.len() ==> #[trigger] self.records.entries@[i].stamps@.len()
            <= self.max_attempts
        &&& forall|k: Seq<char>| #[trigger] stamps_of(self.records.entries@, k) == replay(
            self.records.checks@,
            k,
            self.window_nanos,
            self.max_attempts,
        )
    }

    /// Every check made so far, in order: its key and its time.
    pub closed spec fn checks(&self) -> Seq<(Seq<char>, u128)> {
        self.records.checks@
    }

    /// The attempts recorded for a key.
    pub open spec fn recorded(&self, key: Seq<char>) -> Seq<u128> {
        replay(self.checks(), key, self.window(), self.limit())
    }

    /// The most attempts a key may make within one window.
    pub closed spec fn limit(&self) -> usize {
        self.max_attempts
    }

    /// The window, in nanoseconds.
    pub closed spec fn window(&self) -> u128 {
        self.window_nanos
    }

    /// A limiter that admits `max_attempts` attempts per key within any
    /// `window_secs` seconds; nothing is recorded yet.
    pub fn new(max_attempts: usize, window_secs: u64) -> (r: RateLimiter)
        ensures
            r.limit() == max_attempts,
            r.window() == window_secs as u128 * 1_000_000_000,
            r.checks() == Seq::<(Seq<char>, u128)>::empty(),
            forall|k: Seq<char>| r.recorded(k) == Seq::<u128>::empty(),
    {
        RateLimiter {
            records: Records { entries: Vec::new(), checks: Ghost(Seq::empty()) },
            max_attempts,
            window_nanos: (window_secs as u128) * 1_000_000_000,
            start: instant_now(),
        }
    }

    /// Checks an attempt by `key` made `now` nanoseconds after the limiter
    /// was made: attempts older than the window are forgotten; the attempt
    /// is admitted, and recorded, when fewer than the limit remain.
    pub fn check_at(&mut self, key: &str, now: u128) -> (r: bool)
        ensures
            (final(self).recorded(key@), r) == after_attempt(
                old(self).recorded(key@),
                now,
                old(self).window(),
                old(self).limit(),
            ),
            forall|k: Seq<char>| k != key@ ==> final(self).recorded(k) == old(self).recorded(k),
            final(self).limit() == old(self).limit(),
            final(self).window() == old(self).window(),
            final(self).checks() == old(self).checks().push((key@, now)),
            forall|k: Seq<char>| #[trigger] final(self).recorded(k).len() <= final(self).limit(),
    {
        proof { use_type_invariant(&*self); }
        let mut taken = Records { entries: Vec::new(), checks: Ghost(Seq::empty()) };
        std::mem::swap(&mut taken, &mut self.records);
        let Records { entries: mut v, checks: Ghost(h) } = taken;
        let ghost old_v = v@;
        assert(forall|k: Seq<char>| #[trigger] stamps_of(old_v, k) == replay(h, k, self.window_nanos, self.max_attempts));
        let found = find_last(&v, &chars_of(key));
        let empty: Vec<u128> = Vec::new();
        let old_stamps: &Vec<u128> = match found {
            Some(i) => &v[i].stamps,
            None => &empty,
        };
        let ghost s = old_stamps@;
        assert(s == stamps_of(old_v, key@));
        let window = self.window_nanos;
        let ghost pred = |t: u128| age(now, t) < window;
        let mut kept: Vec<u128> = Vec::new();
        let mut m: usize = 0;
        assert(s.take(0) =~= Seq::<u128>::empty());
        while m < old_stamps.len()
            invariant
                m <= old_stamps.len(),
                s == old_stamps@,
                pred == (|t: u128| age(now, t) < window),
                kept@ == s.take(m as int).filter(pred),
                kept@.len() <= m,
            decreases old_stamps.len() - m,
        {
            let t = old_stamps[m];
            assert(s.take(m + 1).drop_last() =~= s.take(m as int));
            assert(s.take(m + 1).last() == t);
            let a: u128 = if t <= now { now - t } else { 0 };
            assert(a == age(now, t));
            let ghost before = kept@;
            if a < window {
                kept.push(t);
            }
            proof {
                reveal(Seq::filter);
                assert(pred(t) == (a < window));
                let p1 = s.take(m + 1);
                assert(p1.filter(pred) == if pred(p1.last()) {
                    p1.drop_last().filter(pred).push(p1.last())
                } else {
                    p1.drop_last().filter(pred)
                });
            }
            m = m + 1;
        }
        assert(s.take(s.len() as int) =~= s);
        let admitted = kept.len() < self.max_attempts;
        if admitted {
            kept.push(now);
        }
        match found {
            Some(i) => {
                let entry = KeyAttempts { key: key.to_owned(), stamps: kept };
                proof {
                    lemma_stamps_after_update(old_v, i as int, entry, key@);
                    assert forall|k2: Seq<char>| k2 != key@ implies #[trigger] stamps_of(
                        old_v.update(i as int, entry),
                        k2,
                    ) == stamps_of(old_v, k2) by {
                        lemma_stamps_after_update(old_v, i as int, entry, k2);
                    }
                }
                v.set(i, entry);
            },
            None => {
                let entry = KeyAttempts { key: key.to_owned(), stamps: kept };
                v.push(entry);
                assert(v@.drop_last() =~= old_v);
            },
        }
        let ghost h2 = h.push((key@, now));
        proof {
            assert(h2.drop_last() =~= h);
            assert forall|k2: Seq<char>| #[trigger] stamps_of(v@, k2) == replay(h2, k2, window, self.max_attempts) by {
                assert(stamps_of(old_v, k2) == replay(h, k2, window, self.max_attempts));
            }
            assert forall|k2: Seq<char>| #[trigger] replay(h2, k2, window, self.max_attempts).len() <= self.max_attempts by {
                lemma_bounded(v@, k2, self.max_attempts);
                assert(stamps_of(v@, k2) == replay(h2, k2, window, self.max_attempts));
            }
        }
        self.records = Records { entries: v, checks: Ghost(h2) };
        admitted
    }

    /// Checks an attempt by `key` now. Which attempts are still inside the
    /// window depends on the clock.
    pub fn check(&mut self, key: &str) -> (r: bool)
        ensures
            exists|now: u128|
                #[trigger] final(self).checks() == old(self).checks().push((key@, now)) && (
                final(self).recorded(key@), r) == after_attempt(
                    old(self).recorded(key@),
                    now,
                    old(self).window(),
                    old(self).limit(),
                ),
            forall|k: Seq<char>| k != key@ ==> final(self).recorded(k) == old(self).recorded(k),
            final(self).limit() == old(self).limit(),
            final(self).window() == old(self).window(),
    {
        let now = nanos_since(&self.start);
        self.check_at(key, now)
    }
}

/// A refused attempt changes only what is forgotten; an admitted attempt
/// is the newest recorded one, and the recorded attempts of a key never
/// exceed the limit.
pub proof fn admitted_attempts_stay_within_limit(stamps: Seq<u128>, now: u128, window: u128, max: usize)
    requires
        stamps.len() <= max,
    ensures
        after_attempt(stamps, now, window, max).0.len() <= max,
        after_attempt(stamps, now, window, max).1 ==> after_attempt(stamps, now, window, max).0.last()
            == now,
        after_attempt(stamps, now, window, max).1 <==> recent(stamps, now, window).len() < max,
{
    stamps.lemma_filter_len(|t: u128| age(now, t) < window);
}

/// The attempts recorded for `key` after a sequence of checks, each a key
/// and the time it was made, as `check_at` records them.
pub open spec fn replay(checks: Seq<(Seq<char>, u128)>, key: Seq<char>, window: u128, max: usize) -> Seq<u128>
    decreases checks.len(),
{
    if checks.len() == 0 {
        Seq::empty()
    } else {
        let before = replay(checks.drop_last(), key, window, max);
        if checks.last().0 == key {
            after_attempt(before, checks.last().1, window, max).0
        } else {
            before
        }
    }
}

/// The checks of one key, in order.
pub open spec fn checks_of(checks: Seq<(Seq<char>, u128)>, key: Seq<char>) -> Seq<(Seq<char>, u128)>
    decreases checks.len(),
{
    if checks.len() == 0 {
        Seq::empty()
    } else {
        checks_of(checks.drop_last(), key) + if checks.last().0 == key {
            seq![checks.last()]
        } else {
            Seq::empty()
        }
    }
}

/// Attempts under one key never affect another key: what is recorded for
/// a key, and so every answer it gets, is the same whether or not checks
/// of other keys came in between.
pub proof fn keys_are_independent(checks: Seq<(Seq<char>, u128)>, key: Seq<char>, window: u128, max: usize)
    ensures
        replay(checks, key, window, max) == replay(checks_of(checks, key), key, window, max),
    decreases checks.len(),
{
    if checks.len() > 0 {
        keys_are_independent(checks.drop_last(), key, window, max);
        let h = checks_of(checks.drop_last(), key);
        if checks.last().0 == key {
            let h2 = h + seq![checks.last()];
            assert(h2.drop_last() =~= h);
            assert(h2.last() == checks.last());
        } else {
            assert(checks_of(checks, key) =~= h);
        }
    }
}

/// The checks were made in time order.
pub open spec fn in_time_order(checks: Seq<(Seq<char>, u128)>) -> bool {
    forall|a: int, b: int| 0 <= a <= b < checks.len() ==> checks[a].1 <= checks[b].1
}

/// No check was made after `now`.
pub open spec fn made_by(checks: Seq<(Seq<char>, u128)>, now: u128) -> bool {
    forall|j: int| 0 <= j < checks.len() ==> #[trigger] checks[j].1 <= now
}

/// The times of the checks of `key` that were admitted, in order.
pub open spec fn admitted_times(checks: Seq<(Seq<char>, u128)>, key: Seq<char>, window: u128, max: usize) -> Seq<u128>
    decreases checks.len(),
{
    if checks.len() == 0 {
        Seq::empty()
    } else {
        let d = checks.drop_last();
        admitted_times(d, key, window, max) + if checks.last().0 == key && after_attempt(
            replay(d, key, window, max),
            checks.last().1,
            window,
            max,
        ).1 {
            seq![checks.last().1]
        } else {
            Seq::empty()
        }
    }
}

proof fn lemma_replay_bounded(checks: Seq<(Seq<char>, u128)>, key: Seq<char>, window: u128, max: usize)
    ensures
        replay(checks, key, window, max).len() <= max,
    decreases checks.len(),
{
    if checks.len() > 0 {
        let d = checks.drop_last();
        lemma_replay_bounded(d, key, window, max);
        admitted_attempts_stay_within_limit(replay(d, key, window, max), checks.last().1, window, max);
    }
}

/// Every recorded attempt is the time of a check, so none is later than a
/// bound on those times.
proof fn lemma_replay_below(checks: Seq<(Seq<char>, u128)>, key: Seq<char>, window: u128, max: usize, bound: u128)
    requires
        made_by(checks, bound),
    ensures
        forall|q: int|
            0 <= q < replay(checks, key, window, max).len() ==> #[trigger] replay(checks, key, window, max)[q]
                <= bound,
    decreases checks.len(),
{
    if checks.len() > 0 {
        let d = checks.drop_last();
        assert forall|j: int| 0 <= j < d.len() implies #[trigger] d[j].1 <= bound by {
            assert(d[j] == checks[j]);
        }
        lemma_replay_below(d, key, window, max, bound);
        if checks.last().0 == key {
            let x = replay(d, key, window, max);
            let now = checks.last().1;
            assert(checks[checks.len() - 1].1 <= bound);
            let f = recent(x, now, window);
            assert forall|q: int| 0 <= q < f.len() implies #[trigger] f[q] <= bound by {
                assert(f.contains(f[q]));
                x.lemma_filter_contains_rev(|t: u128| age(now, t) < window, f[q]);
                let i = choose|i: int| 0 <= i < x.len() && x[i] == f[q];
                assert(x[i] <= bound);
            }
            let r = after_attempt(x, now, window, max).0;
            assert forall|q: int| 0 <= q < r.len() implies #[trigger] r[q] <= bound by {
                if q < f.len() {
                    assert(r[q] == f[q]);
                }
            }
            assert(replay(checks, key, window, max) == r);
        } else {
            assert(replay(checks, key, window, max) == replay(d, key, window, max));
        }
    }
}

/// Forgetting what is outside the window at `a` and then at a later `b`
/// forgets what is outside the window at `b`, when nothing is later than `a`.
proof fn lemma_recent_twice(x: Seq<u128>, a: u128, b: u128, window: u128)
    requires
        a <= b,
        forall|q: int| 0 <= q < x.len() ==> #[trigger] x[q] <= a,
    ensures
        recent(recent(x, a, window), b, window) == recent(x, b, window),
    decreases x.len(),
{
    reveal(Seq::filter);
    if x.len() > 0 {
        let d = x.drop_last();
        assert forall|q: int| 0 <= q < d.len() implies #[trigger] d[q] <= a by {
            assert(d[q] == x[q]);
        }
        lemma_recent_twice(d, a, b, window);
        let y = x.last();
        assert(x[x.len() - 1] <= a);
        let ra = recent(x, a, window);
        let rd = recent(d, a, window);
        if age(a, y) < window {
            assert(ra == rd.push(y));
            assert(ra.drop_last() =~= rd);
        } else {
            assert(ra == rd);
        }
    }
}

/// What a key is answered follows from its own admitted checks alone.
/// With the checks made in time order and `now` no earlier than any of
/// them, the recorded attempts still inside the window at `now` are
/// exactly the admitted checks of the key made within the window before
/// `now`. So a check at `now` is admitted exactly when fewer than the
/// limit of those there are; an admitted check joins them, and a refused
/// one leaves them as they were.
pub proof fn answers_count_recent_admissions(
    checks: Seq<(Seq<char>, u128)>,
    key: Seq<char>,
    now: u128,
    window: u128,
    max: usize,
)
    requires
        in_time_order(checks),
        made_by(checks, now),
    ensures
        recent(replay(checks, key, window, max), now, window) == recent(
            admitted_times(checks, key, window, max),
            now,
            window,
        ),
        after_attempt(replay(checks, key, window, max), now, window, max).1 <==> recent(
            admitted_times(checks, key, window, max),
            now,
            window,
        ).len() < max,
        admitted_times(checks.push((key, now)), key, window, max) == if after_attempt(
            replay(checks, key, window, max),
            now,
            window,
            max,
        ).1 {
            admitted_times(checks, key, window, max).push(now)
        } else {
            admitted_times(checks, key, window, max)
        },
    decreases checks.len(),
{
    let c2 = checks.push((key, now));
    assert(c2.drop_last() =~= checks);
    assert(admitted_times(checks, key, window, max) + seq![now] =~= admitted_times(checks, key, window, max).push(now));
    assert(admitted_times(checks, key, window, max) + Seq::<u128>::empty() =~= admitted_times(checks, key, window, max));
    if checks.len() > 0 {
        let d = checks.drop_last();
        assert(in_time_order(d)) by {
            assert forall|a: int, b: int| 0 <= a <= b < d.len() implies d[a].1 <= d[b].1 by {
                assert(d[a] == checks[a]);
                assert(d[b] == checks[b]);
            }
        }
        assert forall|j: int| 0 <= j < d.len() implies #[trigger] d[j].1 <= now by {
            assert(d[j] == checks[j]);
        }
        answers_count_recent_admissions(d, key, now, window, max);
        let at = admitted_times(d, key, window, max);
        let pn = |u: u128| age(now, u) < window;
        if checks.last().0 == key {
            let t = checks.last().1;
            let x = replay(d, key, window, max);
            assert forall|j: int| 0 <= j < d.len() implies #[trigger] d[j].1 <= t by {
                assert(d[j] == checks[j]);
                assert(checks[j].1 <= checks[checks.len() - 1].1);
            }
            lemma_replay_below(d, key, window, max, t);
            assert(checks[checks.len() - 1].1 <= now);
            lemma_recent_twice(x, t, now, window);
            let rt = recent(x, t, window);
            if rt.len() < max {
                reveal(Seq::filter);
                let r = rt.push(t);
                assert(r.drop_last() =~= rt);
                Seq::filter_distributes_over_add(at, seq![t], pn);
                assert(seq![t].drop_last() =~= Seq::<u128>::empty());
                assert(recent(r, now, window) == recent(at + seq![t], now, window));
            } else {
                assert(at + Seq::<u128>::empty() =~= at);
            }
        } else {
            assert(at + Seq::<u128>::empty() =~= at);
        }
    }
}

/// Within the window before any moment no earlier than its checks, a key
/// has been admitted at most `max` times. Applied to the checks made up to
/// a moment, this bounds the admissions in every stretch of time shorter
/// than the window.
pub proof fn admissions_within_a_window_are_bounded(
    checks: Seq<(Seq<char>, u128)>,
    key: Seq<char>,
    now: u128,
    window: u128,
    max: usize,
)
    requires
        in_time_order(checks),
        made_by(checks, now),
    ensures
        recent(admitted_times(checks, key, window, max), now, window).len() <= max,
{
    answers_count_recent_admissions(checks, key, now, window, max);
    lemma_replay_bounded(checks, key, window, max);
    replay(checks, key, window, max).lemma_filter_len(|t: u128| age(now, t) < window);
}

/// A limiter whose limit is zero refuses every check, and so admits none.
pub proof fn a_zero_limit_refuses_every_check(checks: Seq<(Seq<char>, u128)>, key: Seq<char>, now: u128, window: u128)
    ensures
        !after_attempt(replay(checks, key, window, 0), now, window, 0).1,
        admitted_times(checks, key, window, 0) == Seq::<u128>::empty(),
    decreases checks.len(),
{
    if checks.len() > 0 {
        a_zero_limit_refuses_every_check(checks.drop_last(), key, checks.last().1, window);
        assert(admitted_times(checks.drop_last(), key, window, 0) + Seq::<u128>::empty() =~= Seq::<u128>::empty());
    }
}

} // verus!
