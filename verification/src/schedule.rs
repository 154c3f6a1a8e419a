//! Daily trigger times and the wait until the next one.
//!
//! Trigger times are times of day in the site's clock, eight hours ahead of
//! UTC. Instants and durations are counted in milliseconds.

use vstd::prelude::*;

verus! {

/// Milliseconds in one day.
pub const DAY_MS: u64 = 86_400_000;

/// How far the site's clock runs ahead of UTC, in milliseconds.
pub const OFFSET_MS: u64 = 28_800_000;

/// A time of day without a date: an hour below 24, a minute and a second
/// below 60.
#[derive(Clone, Copy, Debug, PartialEq, Eq)]
pub struct TimeOfDay {
    hour: u8,
    minute: u8,
    second: u8,
}

impl TimeOfDay {
    #[verifier::type_invariant]
    spec fn on_the_clock(self) -> bool {
        self.valid()
    }

    /// Hour, minute and second.
    pub closed spec fn fields(&self) -> (u8, u8, u8) {
        (self.hour, self.minute, self.second)
    }

    /// The fields name a time that a clock can show. Every time of day that
    /// a program holds does.
    pub open spec fn valid(&self) -> bool {
        self.fields().0 < 24 && self.fields().1 < 60 && self.fields().2 < 60
    }

    /// Milliseconds from midnight to this time.
    pub open spec fn millis(&self) -> int {
        (self.fields().0 * 3600 + self.fields().1 * 60 + self.fields().2) * 1000
    }

    /// The time of day with the given fields, if a clock can show it.
    pub fn new(hour: u8, minute: u8, second: u8) -> (r: Option<TimeOfDay>)
        ensures
            r is Some <==> hour < 24 && minute < 60 && second < 60,
            r matches Some(t) ==> t.fields() == (hour, minute, second) && t.valid(),
    {
        if hour < 24 && minute < 60 && second < 60 {
            Some(TimeOfDay { hour, minute, second })
        } else {
            None
        }
    }

    /// The hour, below 24.
    pub fn hour(&self) -> (r: u8)
        ensures
            r == self.fields().0,
            r < 24,
    {
        proof {
            use_type_invariant(self);
        }
        self.hour
    }

    /// The minute, below 60.
    pub fn minute(&self) -> (r: u8)
        ensures
            r == self.fields().1,
            r < 60,
    {
        proof {
            use_type_invariant(self);
        }
        self.minute
    }

    /// The second, below 60.
    pub fn second(&self) -> (r: u8)
        ensures
            r == self.fields().2,
            r < 60,
    {
        proof {
            use_type_invariant(self);
        }
        self.second
    }

    /// Milliseconds from midnight to this time.
    pub fn to_millis(&self) -> (r: u64)
        ensures
            r == self.millis(),
            r < DAY_MS,
            self.valid(),
    {
        proof {
            use_type_invariant(self);
        }
        let h: u64 = self.hour as u64;
        let m: u64 = self.minute as u64;
        let s: u64 = self.second as u64;
        (h * 3600 + m * 60 + s) * 1000
    }
}

/// Every entry is a time that a clock can show.
pub open spec fn all_valid(times: Seq<TimeOfDay>) -> bool {
    forall|i: int| 0 <= i < times.len() ==> (#[trigger] times[i]).valid()
}

/// The entries are in ascending order of time of day.
pub open spec fn ascending(times: Seq<TimeOfDay>) -> bool {
    forall|i: int, j: int|
        0 <= i <= j < times.len() ==> (#[trigger] times[i]).millis() <= (#[trigger] times[j]).millis()
}

/// The entries are in ascending order of time of day, and none occurs twice.
pub open spec fn strictly_ascending(times: Seq<TimeOfDay>) -> bool {
    forall|i: int, j: int|
        0 <= i < j < times.len() ==> (#[trigger] times[i]).millis() < (#[trigger] times[j]).millis()
}

/// The two lists hold the same times of day.
pub open spec fn same_times(a: Seq<TimeOfDay>, b: Seq<TimeOfDay>) -> bool {
    forall|t: TimeOfDay| a.contains(t) <==> b.contains(t)
}

/// Two times that a clock can show are the same time when they are equally
/// far from midnight.
pub proof fn lemma_millis_tell_times_apart(a: TimeOfDay, b: TimeOfDay)
    requires
        a.valid(),
        b.valid(),
        a.millis() == b.millis(),
    ensures
        a == b,
{
}

/// What is strictly ascending is ascending.
pub proof fn lemma_strictly_ascending_is_ascending(times: Seq<TimeOfDay>)
    requires
        strictly_ascending(times),
    ensures
        ascending(times),
{
    assert forall|i: int, j: int| 0 <= i <= j < times.len() implies (#[trigger] times[i]).millis() <= (
    #[trigger] times[j]).millis() by {
        if i < j {
            assert(times[i].millis() < times[j].millis());
        }
    }
}

/// A list of times has one strictly ascending order only: two strictly
/// ascending lists that hold the same times are the same list.
pub proof fn lemma_ascending_order_is_unique(a: Seq<TimeOfDay>, b: Seq<TimeOfDay>)
    requires
        strictly_ascending(a),
        strictly_ascending(b),
        same_times(a, b),
    ensures
        a == b,
    decreases a.len(),
{
    if a.len() == 0 {
        if b.len() > 0 {
            assert(b.contains(b[0]));
            assert(a.contains(b[0]));
        }
        assert(a =~= b);
    } else if b.len() == 0 {
        assert(a.contains(a[0]));
        assert(b.contains(a[0]));
    } else {
        // the greatest time stands last in both
        let la = a.last();
        let lb = b.last();
        assert(a.contains(la));
        assert(b.contains(la));
        let ia = choose|i: int| 0 <= i < b.len() && b[i] == la;
        assert(b.contains(lb));
        assert(a.contains(lb));
        let ib = choose|i: int| 0 <= i < a.len() && a[i] == lb;
        if ia < b.len() - 1 {
            assert(b[ia].millis() < b[b.len() - 1].millis());
        }
        if ib < a.len() - 1 {
            assert(a[ib].millis() < a[a.len() - 1].millis());
        }
        assert(la.millis() == lb.millis());
        assert(ia == b.len() - 1);
        assert(la == lb);
        let fa = a.drop_last();
        let fb = b.drop_last();
        assert forall|t: TimeOfDay| fa.contains(t) <==> fb.contains(t) by {
            if fa.contains(t) {
                let i = choose|i: int| 0 <= i < fa.len() && fa[i] == t;
                assert(a[i] == t);
                assert(a.contains(t));
                assert(a[i].millis() < a[a.len() - 1].millis());
                let j = choose|j: int| 0 <= j < b.len() && b[j] == t;
                assert(j < b.len() - 1);
                assert(fb[j] == t);
            }
            if fb.contains(t) {
                let i = choose|i: int| 0 <= i < fb.len() && fb[i] == t;
                assert(b[i] == t);
                assert(b.contains(t));
                assert(b[i].millis() < b[b.len() - 1].millis());
                let j = choose|j: int| 0 <= j < a.len() && a[j] == t;
                assert(j < a.len() - 1);
                assert(fa[j] == t);
            }
        }
        lemma_ascending_order_is_unique(fa, fb);
        assert(a =~= fa.push(la));
        assert(b =~= fb.push(lb));
    }
}

/// The times of the list in ascending order, each once.
pub fn sort_times(times: &Vec<TimeOfDay>) -> (r: Vec<TimeOfDay>)
    ensures
        strictly_ascending(r@),
        same_times(r@, times@),
        all_valid(r@),
{
    let mut sorted: Vec<TimeOfDay> = Vec::new();
    let mut i: usize = 0;
    while i < times.len()
        invariant
            0 <= i <= times.len(),
            strictly_ascending(sorted@),
            all_valid(sorted@),
            forall|t: TimeOfDay| sorted@.contains(t) <==> times@.take(i as int).contains(t),
        decreases times.len() - i,
    {
        let time = times[i];
        let at = time.to_millis();
        let mut p: usize = 0;
        while p < sorted.len() && sorted[p].to_millis() < at
            invariant
                0 <= p <= sorted.len(),
                forall|j: int| 0 <= j < p ==> (#[trigger] sorted@[j]).millis() < at,
            decreases sorted.len() - p,
        {
            p = p + 1;
        }
        let ghost before = sorted@;
        let ghost upto = times@.take(i as int);
        let ghost next = times@.take(i + 1);
        proof {
            assert(next.drop_last() == upto);
            assert(next.last() == time);
            assert forall|t: TimeOfDay| next.contains(t) <==> (upto.contains(t) || t == time) by {
                if next.contains(t) {
                    let j = choose|j: int| 0 <= j < next.len() && next[j] == t;
                    if j < i {
                        assert(upto[j] == t);
                    }
                }
                if upto.contains(t) {
                    let j = choose|j: int| 0 <= j < upto.len() && upto[j] == t;
                    assert(next[j] == t);
                }
                if t == time {
                    assert(next[i as int] == t);
                }
            }
        }
        if p < sorted.len() && sorted[p].to_millis() == at {
            proof {
                lemma_millis_tell_times_apart(sorted@[p as int], time);
                assert(sorted@.contains(time));
            }
        } else {
            sorted.insert(p, time);
            proof {
                let after = sorted@;
                assert(after == before.insert(p as int, time));
                assert forall|a: int, b: int| 0 <= a < b < after.len() implies (#[trigger] after[a]).millis() < (
                #[trigger] after[b]).millis() by {
                    if b < p {
                        assert(after[a] == before[a] && after[b] == before[b]);
                    } else if b == p {
                        assert(after[a] == before[a]);
                    } else if a < p {
                        assert(after[a] == before[a] && after[b] == before[b - 1]);
                        assert(before[p as int].millis() <= before[b - 1].millis()) by {
                            if p < b - 1 {
                                assert(before[p as int].millis() < before[b - 1].millis());
                            }
                        }
                    } else if a == p {
                        assert(after[b] == before[b - 1]);
                        assert(before[p as int].millis() <= before[b - 1].millis()) by {
                            if p < b - 1 {
                                assert(before[p as int].millis() < before[b - 1].millis());
                            }
                        }
                    } else {
                        assert(after[a] == before[a - 1] && after[b] == before[b - 1]);
                    }
                }
                assert forall|j: int| 0 <= j < after.len() implies (#[trigger] after[j]).valid() by {
                    if j < p {
                        assert(after[j] == before[j]);
                    } else if j > p {
                        assert(after[j] == before[j - 1]);
                    }
                }
                assert forall|t: TimeOfDay| after.contains(t) <==> (before.contains(t) || t == time) by {
                    if after.contains(t) {
                        let j = choose|j: int| 0 <= j < after.len() && after[j] == t;
                        if j < p {
                            assert(before[j] == t);
                        } else if j > p {
                            assert(before[j - 1] == t);
                        }
                    }
                    if before.contains(t) {
                        let j = choose|j: int| 0 <= j < before.len() && before[j] == t;
                        if j < p {
                            assert(after[j] == t);
                        } else {
                            assert(after[j + 1] == t);
                        }
                    }
                    if t == time {
                        assert(after[p as int] == t);
                    }
                }
            }
        }
        i = i + 1;
    }
    assert(times@.take(i as int) == times@);
    sorted
}

/// Sorting again changes nothing.
pub proof fn lemma_sorting_is_idempotent(times: Seq<TimeOfDay>, once: Seq<TimeOfDay>, twice: Seq<TimeOfDay>)
    requires
        strictly_ascending(once),
        same_times(once, times),
        strictly_ascending(twice),
        same_times(twice, once),
    ensures
        twice == once,
{
    lemma_ascending_order_is_unique(twice, once);
}

/// The time of day that the site's clock shows at an instant given in
/// milliseconds since the Unix epoch.
pub open spec fn local_millis(now_unix_ms: int) -> int {
    (now_unix_ms + OFFSET_MS) % (DAY_MS as int)
}

/// The wait from the time of day `now` to the next moment at which the clock
/// shows `at`: later today if `at` has not passed yet, tomorrow otherwise.
pub open spec fn gap(now: int, at: int) -> int {
    if at >= now {
        at - now
    } else {
        at + DAY_MS - now
    }
}

/// The shortest wait from `now` to any of the trigger times; zero when there
/// is none.
pub open spec fn next_gap(now: int, times: Seq<TimeOfDay>) -> int
    decreases times.len(),
{
    if times.len() == 0 {
        0
    } else if times.len() == 1 {
        gap(now, times[0].millis())
    } else {
        let rest = next_gap(now, times.drop_last());
        let last = gap(now, times.last().millis());
        if last < rest {
            last
        } else {
            rest
        }
    }
}

/// The wait before firing: the wait until the next trigger, started `lead_ms`
/// early, and never negative.
pub open spec fn fire_delay(now_unix_ms: int, times: Seq<TimeOfDay>, lead_ms: int) -> int {
    let wait = next_gap(local_millis(now_unix_ms), times);
    if wait > lead_ms {
        wait - lead_ms
    } else {
        0
    }
}

/// The shortest wait is the wait to one of the trigger times, and no trigger
/// time comes sooner.
pub proof fn lemma_next_gap_is_least(now: int, times: Seq<TimeOfDay>)
    requires
        times.len() > 0,
    ensures
        exists|k: int| 0 <= k < times.len() && next_gap(now, times) == gap(now, #[trigger] times[k].millis()),
        forall|j: int| 0 <= j < times.len() ==> next_gap(now, times) <= gap(now, #[trigger] times[j].millis()),
    decreases times.len(),
{
    if times.len() == 1 {
        assert(next_gap(now, times) == gap(now, times[0].millis()));
    } else {
        let front = times.drop_last();
        lemma_next_gap_is_least(now, front);
        let k0 = choose|k: int| 0 <= k < front.len() && next_gap(now, front) == gap(now, #[trigger] front[k].millis());
        assert(front[k0] == times[k0]);
        let last = times.len() - 1;
        if gap(now, times.last().millis()) < next_gap(now, front) {
            assert(next_gap(now, times) == gap(now, times[last].millis()));
        } else {
            assert(next_gap(now, times) == gap(now, times[k0].millis()));
        }
        assert forall|j: int| 0 <= j < times.len() implies next_gap(now, times) <= gap(now, #[trigger] times[j].millis()) by {
            if j < last {
                assert(front[j] == times[j]);
            }
        }
    }
}

/// With ascending trigger times and no lead, firing happens exactly at a
/// trigger time: at the earliest one that has not passed today, or, when all
/// have passed, at the first one tomorrow.
pub proof fn lemma_fires_at_next_trigger(now_unix_ms: int, times: Seq<TimeOfDay>)
    requires
        now_unix_ms >= 0,
        times.len() > 0,
        all_valid(times),
        ascending(times),
    ensures
        fire_delay(now_unix_ms, times, 0) >= 0,
        exists|k: int| 0 <= k < times.len()
            && local_millis(now_unix_ms + fire_delay(now_unix_ms, times, 0)) == #[trigger] times[k].millis(),
        (exists|k: int| 0 <= k < times.len() && #[trigger] times[k].millis() >= local_millis(now_unix_ms))
            ==> exists|k: int| 0 <= k < times.len()
                && #[trigger] times[k].millis() >= local_millis(now_unix_ms)
                && (forall|j: int| 0 <= j < k ==> #[trigger] times[j].millis() < local_millis(now_unix_ms))
                && local_millis(now_unix_ms) + fire_delay(now_unix_ms, times, 0) == times[k].millis(),
        (forall|k: int| 0 <= k < times.len() ==> #[trigger] times[k].millis() < local_millis(now_unix_ms))
            ==> local_millis(now_unix_ms) + fire_delay(now_unix_ms, times, 0) == DAY_MS + times[0].millis(),
{
    let tod = local_millis(now_unix_ms);
    let d = fire_delay(now_unix_ms, times, 0);
    lemma_next_gap_is_least(tod, times);
    let k = choose|k: int| 0 <= k < times.len() && next_gap(tod, times) == gap(tod, #[trigger] times[k].millis());
    assert(times[k].valid());
    assert(0 <= times[k].millis() < DAY_MS);
    assert(0 <= tod < DAY_MS);
    assert(d == gap(tod, times[k].millis()));
    // where the clock stands when the wait is over
    let q = (now_unix_ms + OFFSET_MS) / (DAY_MS as int);
    assert(now_unix_ms + OFFSET_MS == q * DAY_MS + tod) by {
        vstd::arithmetic::div_mod::lemma_fundamental_div_mod(now_unix_ms + OFFSET_MS, DAY_MS as int);
    }
    if times[k].millis() >= tod {
        assert(now_unix_ms + d + OFFSET_MS == q * DAY_MS + times[k].millis());
        vstd::arithmetic::div_mod::lemma_fundamental_div_mod_converse(
            now_unix_ms + d + OFFSET_MS, DAY_MS as int, q, times[k].millis());
    } else {
        assert(now_unix_ms + d + OFFSET_MS == (q + 1) * DAY_MS + times[k].millis()) by (nonlinear_arith)
            requires
                now_unix_ms + OFFSET_MS == q * DAY_MS + tod,
                d == times[k].millis() + DAY_MS - tod,
        ;
        vstd::arithmetic::div_mod::lemma_fundamental_div_mod_converse(
            now_unix_ms + d + OFFSET_MS, DAY_MS as int, q + 1, times[k].millis());
    }
    assert(local_millis(now_unix_ms + d) == times[k].millis());

    if exists|i: int| 0 <= i < times.len() && #[trigger] times[i].millis() >= tod {
        let i = choose|i: int| 0 <= i < times.len() && #[trigger] times[i].millis() >= tod;
        let first = lemma_first_at_or_after(tod, times, i);
        assert(times[first].valid());
        // no trigger time comes sooner than the first one that has not passed
        assert(gap(tod, times[k].millis()) <= gap(tod, times[first].millis()));
        if k < first {
            assert(times[k].millis() < tod);
        } else {
            assert(times[first].millis() <= times[k].millis());
        }
        assert(gap(tod, times[k].millis()) == gap(tod, times[first].millis()));
        assert(tod + d == times[first].millis());
    } else {
        assert forall|j: int| 0 <= j < times.len() implies #[trigger] times[j].millis() < tod by {}
        assert(times[0].valid());
        assert(gap(tod, times[k].millis()) <= gap(tod, times[0].millis()));
        assert(times[0].millis() <= times[k].millis());
    }
}

/// If some entry up to `upto` has not passed at `tod`, there is a first such
/// entry.
proof fn lemma_first_at_or_after(tod: int, times: Seq<TimeOfDay>, upto: int) -> (k: int)
    requires
        0 <= upto < times.len(),
        times[upto].millis() >= tod,
    ensures
        0 <= k <= upto,
        times[k].millis() >= tod,
        forall|j: int| 0 <= j < k ==> #[trigger] times[j].millis() < tod,
    decreases upto,
{
    if exists|j: int| 0 <= j < upto && #[trigger] times[j].millis() >= tod {
        let j = choose|j: int| 0 <= j < upto && #[trigger] times[j].millis() >= tod;
        lemma_first_at_or_after(tod, times, j)
    } else {
        upto
    }
}

/// How long to wait, from the instant `now_unix_ms`, before the next trigger
/// time fires.
///
/// The trigger times may come in any order. The result is the wait until the
/// clock next shows one of them, shortened by `lead_ms` and never negative;
/// with no trigger times it is zero.
pub fn next_fire_delay(now_unix_ms: u64, trigger_times: &Vec<TimeOfDay>, lead_ms: u64) -> (delay_ms: u64)
    ensures
        delay_ms == fire_delay(now_unix_ms as int, trigger_times@, lead_ms as int),
        trigger_times.len() == 0 ==> delay_ms == 0,
        delay_ms < DAY_MS,
{
    if trigger_times.len() == 0 {
        return 0;
    }
    let tod: u64 = (now_unix_ms % DAY_MS + OFFSET_MS) % DAY_MS;
    proof {
        vstd::arithmetic::div_mod::lemma_add_mod_noop(now_unix_ms as int, OFFSET_MS as int, DAY_MS as int);
        vstd::arithmetic::div_mod::lemma_small_mod(OFFSET_MS as nat, DAY_MS as nat);
        assert(tod == local_millis(now_unix_ms as int));
    }
    let mut best: u64 = wait_until(tod, &trigger_times[0]);
    let mut i: usize = 1;
    assert(trigger_times@.take(1).len() == 1);
    assert(trigger_times@.take(1)[0] == trigger_times@[0]);
    while i < trigger_times.len()
        invariant
            1 <= i <= trigger_times.len(),
            tod < DAY_MS,
            best == next_gap(tod as int, trigger_times@.take(i as int)),
            best < DAY_MS,
        decreases trigger_times.len() - i,
    {
        let wait = wait_until(tod, &trigger_times[i]);
        proof {
            let upto = trigger_times@.take(i + 1);
            assert(upto.drop_last() == trigger_times@.take(i as int));
            assert(upto.last() == trigger_times@[i as int]);
        }
        if wait < best {
            best = wait;
        }
        i = i + 1;
    }
    assert(trigger_times@.take(i as int) == trigger_times@);
    if best > lead_ms {
        best - lead_ms
    } else {
        0
    }
}

/// The wait from the time of day `tod` until the clock next shows `at`.
fn wait_until(tod: u64, at: &TimeOfDay) -> (r: u64)
    requires
        tod < DAY_MS,
    ensures
        r == gap(tod as int, at.millis()),
        r < DAY_MS,
{
    let at_ms = at.to_millis();
    if at_ms >= tod {
        at_ms - tod
    } else {
        at_ms + DAY_MS - tod
    }
}

} // verus!
