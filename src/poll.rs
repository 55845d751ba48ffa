//! The poll loop's decisions: whether a look met the condition, when to sleep,
//! when time is up, and what a failed wait reports.
//!
//! The loop itself sleeps and reads the clock, so it runs outside this module:
//! it starts a `Poll`, hands it each `Sample` it takes, sleeps for the span that
//! `look` returns, and asks `wake` whether to look again.
use crate::by::By;
use crate::condition::{Condition, Misuse, Target};
use crate::ec::Ec;
use crate::span::TimeSpan;
use crate::text::{decimal, decimal_text};
use crate::wait_options::WaitOptions;
use vstd::prelude::*;
use vstd::string::StringExecFns;

verus! {

/// What one look at the document found.
pub enum Sample {
    /// No object of the kind that the condition reads: none was found, the
    /// lookup failed, or what was found is of another kind.
    Missing,
    /// An object, and the text that the predicate reads of it (see
    /// `Ec::holds_of`); `None` where the object has no such text.
    Found(Option<String>),
}

/// The look met the condition. Waiting `until` (`negative` false), the object
/// must be there and the predicate hold of it; a selector alone asks only for
/// the object. Waiting `until_not`, a missing object is enough, or one of which
/// the predicate does not hold.
pub open spec fn sample_met(c: Condition, negative: bool, s: Sample) -> bool {
    match s {
        Sample::Missing => negative,
        Sample::Found(reading) => match c.ec {
            None => !negative,
            Some(ec) => ec.holds_of(reading) != negative,
        },
    }
}

/// Whether the look met the condition (see `sample_met`).
pub fn is_met(condition: &Condition, negative: bool, sample: &Sample) -> (r: bool)
    ensures
        r == sample_met(*condition, negative, *sample),
{
    match sample {
        Sample::Missing => negative,
        Sample::Found(reading) => match &condition.ec {
            None => !negative,
            Some(ec) => ec.holds(reading) != negative,
        },
    }
}

/// Milliseconds from `from` to `to` on the clock; none where the clock went
/// back.
pub open spec fn elapsed(from: nat, to: nat) -> nat {
    if to >= from {
        (to - from) as nat
    } else {
        0
    }
}

/// The state of one wait.
pub struct PollView {
    pub condition: Condition,
    pub target: Target,
    pub negative: bool,
    pub options: WaitOptions,
    /// The clock, in milliseconds, when the wait started.
    pub started_at: nat,
    /// The looks made so far.
    pub attempts: nat,
}

/// What to do after a look.
pub enum Step {
    /// The condition was met: the wait is over.
    Met,
    /// Sleep this long, then call `wake`.
    Sleep(TimeSpan),
}

/// What to do after a sleep.
#[derive(PartialEq, Eq, Structural, Clone, Copy, Debug)]
pub enum Wake {
    /// Look again.
    Look,
    /// The duration is used up: the wait failed.
    TimedOut,
}

/// The wait that starts at `now` on the clock.
pub open spec fn started(
    condition: Condition,
    target: Target,
    options: WaitOptions,
    negative: bool,
    now: nat,
) -> PollView {
    PollView { condition, target, negative, options, started_at: now, attempts: 0 }
}

/// The state after one more look.
pub open spec fn looked(p: PollView) -> PollView {
    PollView { attempts: p.attempts + 1, ..p }
}

/// What to do after a look that found `s`.
pub open spec fn step_after(p: PollView, s: Sample) -> Step {
    if sample_met(p.condition, p.negative, s) {
        Step::Met
    } else {
        Step::Sleep(p.options.poll_frecuency)
    }
}

/// At `now` on the clock the whole duration has passed since the start.
pub open spec fn timed_out(p: PollView, now: nat) -> bool {
    elapsed(p.started_at, now) * 1_000_000 >= p.options.duration@
}

/// The report of a wait that timed out after `attempts` looks.
pub open spec fn failure_view(c: Condition, o: WaitOptions, attempts: nat) -> Seq<char> {
    "\nExpected condition has not been met in the given time:\n"@ + match c.by {
        Some(by) => "  - Selector: "@ + by.description_view() + "\n"@,
        None => Seq::empty(),
    } + match c.ec {
        Some(ec) => "  - Condition: "@ + ec.description_view() + "\n"@,
        None => Seq::empty(),
    } + "  - Duration: "@ + o.duration.debug_view() + "\n"@ + "  - Poll frecuency: "@
        + o.poll_frecuency.debug_view() + "\n"@ + "  - Number of attempts: "@ + decimal(attempts)
        + "\n"@
}

/// How a wait ended: after how many looks, by the state's count and by the
/// number of samples that were taken.
pub enum Verdict {
    Met { attempts: nat, looks: nat },
    TimedOut { attempts: nat, looks: nat },
    /// The samples or the clock readings ran out first.
    Pending,
}

/// The wait from state `p`, where the look numbered `i` finds `looks[i]` and
/// the sleep after it ends at `clock[i]` on the clock. Each step is the one
/// that `Poll::look` and `Poll::wake` take.
pub open spec fn run(p: PollView, looks: Seq<Sample>, clock: Seq<nat>, i: nat) -> Verdict
    decreases looks.len() - i,
{
    if i >= looks.len() {
        Verdict::Pending
    } else {
        let q = looked(p);
        match step_after(p, looks[i as int]) {
            Step::Met => Verdict::Met { attempts: q.attempts, looks: i + 1 },
            Step::Sleep(_) => if i >= clock.len() {
                Verdict::Pending
            } else if timed_out(q, clock[i as int]) {
                Verdict::TimedOut { attempts: q.attempts, looks: i + 1 }
            } else {
                run(q, looks, clock, i + 1)
            },
        }
    }
}

/// How a run ends: the look that met the condition is the first one that did,
/// and time was not up before it; a timeout comes after looks of which none met
/// the condition, at the first sleep that ended with the whole duration gone.
/// Either way the count of attempts is the number of looks made.
proof fn lemma_run(p: PollView, looks: Seq<Sample>, clock: Seq<nat>, i: nat)
    requires
        p.attempts == i,
    ensures
        match run(p, looks, clock, i) {
            Verdict::Met { attempts, looks: n } => {
                &&& attempts == n
                &&& i < n <= looks.len()
                &&& sample_met(p.condition, p.negative, looks[n - 1])
                &&& forall|j: int|
                    i <= j < n - 1 ==> !sample_met(p.condition, p.negative, #[trigger] looks[j])
                        && !timed_out(p, clock[j])
            },
            Verdict::TimedOut { attempts, looks: n } => {
                &&& attempts == n
                &&& i < n <= looks.len()
                &&& n <= clock.len()
                &&& timed_out(p, clock[n - 1])
                &&& forall|j: int|
                    i <= j < n ==> !sample_met(p.condition, p.negative, #[trigger] looks[j])
                &&& forall|j: int| i <= j < n - 1 ==> !timed_out(p, #[trigger] clock[j])
            },
            Verdict::Pending => true,
        },
    decreases looks.len() - i,
{
    if i < looks.len() {
        let q = looked(p);
        if !sample_met(p.condition, p.negative, looks[i as int]) && i < clock.len() && !timed_out(
            q,
            clock[i as int],
        ) {
            lemma_run(q, looks, clock, i + 1);
        }
    }
}

/// Waiting `until`, a condition met by the first look ends the wait at once,
/// before any sleep, after one attempt.
pub proof fn lemma_until_met_at_first_look(
    c: Condition,
    target: Target,
    o: WaitOptions,
    now: nat,
    looks: Seq<Sample>,
    clock: Seq<nat>,
)
    requires
        looks.len() >= 1,
        sample_met(c, false, looks[0]),
    ensures
        run(started(c, target, o, false, now), looks, clock, 0) == (Verdict::Met {
            attempts: 1,
            looks: 1,
        }),
{
}

/// Waiting `until_not`, an object that is not there ends the wait at the first
/// look, whatever the condition.
pub proof fn lemma_until_not_met_when_missing(
    c: Condition,
    target: Target,
    o: WaitOptions,
    now: nat,
    looks: Seq<Sample>,
    clock: Seq<nat>,
)
    requires
        looks.len() >= 1,
        looks[0] is Missing,
    ensures
        run(started(c, target, o, true, now), looks, clock, 0) == (Verdict::Met {
            attempts: 1,
            looks: 1,
        }),
{
}

/// A wait that times out does so after at least one look, once at least the
/// whole duration has passed on the clock, and reports as its attempts the
/// number of looks made, none of which met the condition.
pub proof fn lemma_timeout(
    c: Condition,
    target: Target,
    o: WaitOptions,
    negative: bool,
    now: nat,
    looks: Seq<Sample>,
    clock: Seq<nat>,
)
    ensures
        run(started(c, target, o, negative, now), looks, clock, 0) matches Verdict::TimedOut {
            attempts,
            looks: n,
        } ==> {
            &&& attempts == n
            &&& n >= 1
            &&& elapsed(now, clock[n - 1]) * 1_000_000 >= o.duration@
            &&& forall|j: int| 0 <= j < n ==> !sample_met(c, negative, #[trigger] looks[j])
        },
{
    lemma_run(started(c, target, o, negative, now), looks, clock, 0);
}

/// Waiting `until_not` on an attribute that keeps its expected value for the
/// first `k` looks and then holds another value: the wait ends at the look that
/// sees the change, provided time was not up before it.
pub proof fn lemma_until_not_sees_change(
    by: By,
    attr: String,
    value: String,
    target: Target,
    o: WaitOptions,
    now: nat,
    looks: Seq<Sample>,
    clock: Seq<nat>,
    k: nat,
)
    requires
        k < looks.len(),
        k <= clock.len(),
        forall|j: int|
            0 <= j < k ==> #[trigger] looks[j] is Found && looks[j]->Found_0 is Some
                && looks[j]->Found_0->0@ == value@,
        looks[k as int] is Found && looks[k as int]->Found_0 is Some && looks[k as int]->Found_0->0@
            != value@,
        forall|j: int| 0 <= j < k ==> elapsed(now, #[trigger] clock[j]) * 1_000_000 < o.duration@,
    ensures
        run(
            started(
                Condition { by: Some(by), ec: Some(Ec::AttributeValueIs(attr, value)) },
                target,
                o,
                true,
                now,
            ),
            looks,
            clock,
            0,
        ) == (Verdict::Met { attempts: k + 1, looks: k + 1 }),
{
    let c = Condition { by: Some(by), ec: Some(Ec::AttributeValueIs(attr, value)) };
    let p = started(c, target, o, true, now);
    lemma_run(p, looks, clock, 0);
    match run(p, looks, clock, 0) {
        Verdict::Met { attempts, looks: n } => {
            if n < k + 1 {
                assert(!sample_met(c, true, looks[n - 1]));
            }
            if n > k + 1 {
                assert(!sample_met(c, true, looks[k as int]));
            }
        },
        Verdict::TimedOut { attempts, looks: n } => {
            if n <= k {
                assert(!timed_out(p, clock[n - 1]));
            } else {
                assert(!sample_met(c, true, looks[k as int]));
            }
        },
        Verdict::Pending => {
            lemma_pending_needs_more(p, looks, clock, 0, k);
        },
    }
}

/// A run whose looks up to `k` exist, with clock readings for the sleeps before
/// look `k`, ends by look `k` at the latest.
proof fn lemma_pending_needs_more(p: PollView, looks: Seq<Sample>, clock: Seq<nat>, i: nat, k: nat)
    requires
        i <= k < looks.len(),
        k <= clock.len(),
        p.negative,
        p.condition.ec matches Some(ec) && ec is AttributeValueIs,
        looks[k as int] is Found && looks[k as int]->Found_0 is Some && looks[k as int]->Found_0->0@
            != p.condition.ec->0->AttributeValueIs_1@,
    ensures
        !(run(p, looks, clock, i) is Pending),
    decreases k - i,
{
    if i < k {
        let q = looked(p);
        lemma_pending_needs_more(q, looks, clock, i + 1, k);
    }
}

/// One wait: a condition, its options, and the looks made.
pub struct Poll {
    condition: Condition,
    target: Target,
    negative: bool,
    options: WaitOptions,
    started_at: u64,
    attempts: u64,
}

impl View for Poll {
    type V = PollView;

    closed spec fn view(&self) -> PollView {
        PollView {
            condition: self.condition,
            target: self.target,
            negative: self.negative,
            options: self.options,
            started_at: self.started_at as nat,
            attempts: self.attempts as nat,
        }
    }
}

impl Poll {
    /// Starts a wait at `now` (milliseconds on the clock): `until` where
    /// `negative` is false, `until_not` where it is true. A condition that no
    /// wait can be made of is refused at once.
    pub fn start(condition: Condition, options: WaitOptions, negative: bool, now: u64) -> (r: Result<
        Poll,
        Misuse,
    >)
        ensures
            match condition.misuse_view() {
                Some(m) => r == Err::<Poll, Misuse>(m),
                None => r is Ok && r->Ok_0@ == started(
                    condition,
                    condition.target_view()->0,
                    options,
                    negative,
                    now as nat,
                ),
            },
    {
        match condition.target() {
            Err(m) => Err(m),
            Ok(target) => Ok(Poll { condition, target, negative, options, started_at: now, attempts: 0 }),
        }
    }

    /// The condition waited for.
    pub fn condition(&self) -> (r: &Condition)
        ensures
            *r == self@.condition,
    {
        &self.condition
    }

    /// The looks made so far.
    pub fn attempts(&self) -> (r: u64)
        ensures
            r == self@.attempts,
    {
        self.attempts
    }

    /// Records a look that found `sample`, and says whether the wait is over
    /// or how long to sleep before the next one.
    pub fn look(&mut self, sample: &Sample) -> (r: Step)
        requires
            old(self)@.attempts < u64::MAX,
        ensures
            final(self)@ == looked(old(self)@),
            r == step_after(old(self)@, *sample),
    {
        self.attempts = self.attempts + 1;
        if is_met(&self.condition, self.negative, sample) {
            Step::Met
        } else {
            Step::Sleep(self.options.poll_frecuency)
        }
    }

    /// After a sleep, at `now` on the clock: look again, or give up where the
    /// whole duration has passed.
    pub fn wake(&self, now: u64) -> (r: Wake)
        ensures
            r == (if timed_out(self@, now as nat) {
                Wake::TimedOut
            } else {
                Wake::Look
            }),
    {
        let passed: u64 = if now >= self.started_at {
            now - self.started_at
        } else {
            0
        };
        if passed as u128 * 1_000_000 >= self.options.duration.as_nanos() {
            Wake::TimedOut
        } else {
            Wake::Look
        }
    }

    /// The report of a wait that timed out: selector, condition, duration,
    /// interval and the number of looks made.
    pub fn failure_message(&self) -> (r: String)
        ensures
            r@ == failure_view(self@.condition, self@.options, self@.attempts),
    {
        let mut r = String::from_str("\nExpected condition has not been met in the given time:\n");
        if let Some(by) = &self.condition.by {
            r.append("  - Selector: ");
            r.append(by.description().as_str());
            r.append("\n");
        }
        if let Some(ec) = &self.condition.ec {
            r.append("  - Condition: ");
            r.append(ec.description().as_str());
            r.append("\n");
        }
        r.append("  - Duration: ");
        r.append(self.options.duration.debug_text().as_str());
        r.append("\n");
        r.append("  - Poll frecuency: ");
        r.append(self.options.poll_frecuency.debug_text().as_str());
        r.append("\n");
        r.append("  - Number of attempts: ");
        r.append(decimal_text(self.attempts).as_str());
        r.append("\n");
        r
    }
}

} // verus!
