//! The decisions of the isolated-retry loop. The caller runs each attempt in
//! a fresh scratch directory and reports how it ended; the loop says whether
//! to announce a retry and run again, or to finish with an exit code.

use vstd::prelude::*;

verus! {

/// The exit code that an attempt reports: its own code, or 1 when it ended
/// without one (killed by a signal).
pub open spec fn exit_code_of(code: Option<i32>) -> i32 {
    match code {
        Some(c) => c,
        None => 1,
    }
}

/// What to do after an attempt.
#[derive(Debug, Clone, Copy, PartialEq, Eq, Structural)]
pub enum Step {
    /// Announce retry number `n` and run another attempt.
    Retry(u16),
    /// Stop, and exit the whole process with this code.
    Finish(i32),
}

/// The state of the loop: attempts completed so far, and the budget of
/// extra attempts after the first.
#[derive(Debug, Clone, Copy, PartialEq, Eq, Structural)]
pub struct RetryLoop {
    pub attempts: u16,
    pub max_trial: u8,
}

/// The loop before any attempt.
pub open spec fn initial(max_trial: u8) -> RetryLoop {
    RetryLoop { attempts: 0, max_trial }
}

/// Whether another attempt may still be recorded.
pub open spec fn can_record(s: RetryLoop) -> bool {
    s.attempts <= s.max_trial
}

/// One attempt ended with `code`: the next state, and what to do.
pub open spec fn step(s: RetryLoop, code: Option<i32>) -> (RetryLoop, Step) {
    let n = s.attempts + 1;
    let next = RetryLoop { attempts: n as u16, max_trial: s.max_trial };
    if exit_code_of(code) == 0 || n > s.max_trial {
        (next, Step::Finish(exit_code_of(code)))
    } else {
        (next, Step::Retry(n as u16))
    }
}

/// The steps taken when successive attempts end with `codes`, up to and
/// including the one that finishes.
pub open spec fn run(s: RetryLoop, codes: Seq<Option<i32>>) -> Seq<Step>
    decreases codes.len(),
{
    if codes.len() == 0 {
        Seq::empty()
    } else {
        let (next, st) = step(s, codes[0]);
        if st is Finish {
            seq![st]
        } else {
            seq![st] + run(next, codes.drop_first())
        }
    }
}

impl RetryLoop {
    /// A loop with a budget of `max_trial` extra attempts.
    pub fn new(max_trial: u8) -> (r: RetryLoop)
        ensures
            r == initial(max_trial),
    {
        RetryLoop { attempts: 0, max_trial }
    }

    /// Whether the loop may take the outcome of another attempt.
    pub fn is_open(&self) -> (r: bool)
        ensures
            r == can_record(*self),
    {
        self.attempts <= self.max_trial as u16
    }

    /// Records that an attempt ended with `code` (none when it was killed):
    /// finish with success, or once the budget is spent; else retry.
    pub fn record(&mut self, code: Option<i32>) -> (r: Step)
        requires
            can_record(*old(self)),
        ensures
            (*final(self), r) == step(*old(self), code),
    {
        self.attempts = self.attempts + 1;
        let c = match code {
            Some(c) => c,
            None => 1,
        };
        if c == 0 || self.attempts > self.max_trial as u16 {
            Step::Finish(c)
        } else {
            Step::Retry(self.attempts)
        }
    }
}

/// A program that fails every time is run once and then retried for each
/// unit of the budget, with `k` attempts already made: the retries are
/// announced in order and the last attempt's code is the exit code.
proof fn lemma_failing_run_from(s: RetryLoop, codes: Seq<Option<i32>>)
    requires
        s.attempts <= s.max_trial,
        codes.len() >= s.max_trial + 1 - s.attempts,
        forall|i: int| 0 <= i < codes.len() ==> exit_code_of(#[trigger] codes[i]) != 0,
    ensures
        run(s, codes) == Seq::new(
            (s.max_trial + 1 - s.attempts) as nat,
            |i: int|
                if i < s.max_trial - s.attempts {
                    Step::Retry((s.attempts + i + 1) as u16)
                } else {
                    Step::Finish(exit_code_of(codes[s.max_trial - s.attempts]))
                },
        ),
    decreases codes.len(),
{
    let (next, st) = step(s, codes[0]);
    assert(exit_code_of(codes[0]) != 0);
    if s.attempts == s.max_trial {
        assert(run(s, codes) =~= seq![st]);
    } else {
        let rest = codes.drop_first();
        assert forall|i: int| 0 <= i < rest.len() implies exit_code_of(#[trigger] rest[i]) != 0 by {
            assert(rest[i] == codes[i + 1]);
        }
        lemma_failing_run_from(next, rest);
        assert(run(s, codes) =~= Seq::new(
            (s.max_trial + 1 - s.attempts) as nat,
            |i: int|
                if i < s.max_trial - s.attempts {
                    Step::Retry((s.attempts + i + 1) as u16)
                } else {
                    Step::Finish(exit_code_of(codes[s.max_trial - s.attempts]))
                },
        ));
    }
}

/// With a budget of `b` and a program that always exits with failure, the
/// loop makes exactly `1 + b` attempts: it announces retries 1 to `b`, in
/// order, and then finishes with the code of the last attempt.
pub proof fn lemma_failing_program_exhausts_budget(b: u8, codes: Seq<Option<i32>>)
    requires
        codes.len() >= b + 1,
        forall|i: int| 0 <= i < codes.len() ==> exit_code_of(#[trigger] codes[i]) != 0,
    ensures
        run(initial(b), codes).len() == b + 1,
        forall|i: int| 0 <= i < b ==> run(initial(b), codes)[i] == Step::Retry((i + 1) as u16),
        run(initial(b), codes)[b as int] == Step::Finish(exit_code_of(codes[b as int])),
{
    lemma_failing_run_from(initial(b), codes);
}

/// With a budget of at least one, a program that fails once and then
/// succeeds is run exactly twice, and the loop finishes with code 0.
pub proof fn lemma_success_on_second_attempt(b: u8, codes: Seq<Option<i32>>)
    requires
        b >= 1,
        codes.len() >= 2,
        exit_code_of(codes[0]) != 0,
        exit_code_of(codes[1]) == 0,
    ensures
        run(initial(b), codes) == seq![Step::Retry(1), Step::Finish(0)],
{
    let (s1, _) = step(initial(b), codes[0]);
    let rest = codes.drop_first();
    assert(rest[0] == codes[1]);
    assert(run(s1, rest) =~= seq![Step::Finish(0)]);
    assert(run(initial(b), codes) =~= seq![Step::Retry(1), Step::Finish(0)]);
}

} // verus!
