//! The bounded-concurrency task orchestrator.
//!
//! A run over `total` independent work items admits at most `limit`
//! operations at a time. The orchestrator itself is a pure state machine:
//! the surrounding application asks it for admission, performs the admitted
//! operation (a subprocess or an HTTP request), and reports the outcome
//! back. Every admitted operation occupies one of the `limit` slots until
//! its outcome has been recorded, every work item yields exactly one
//! recorded outcome, and the final aggregation is `Ok` exactly when no
//! recorded outcome was a failure.

use vstd::prelude::*;

verus! {

/// Number of `false` entries (failures) in a sequence of per-item
/// success flags.
pub open spec fn count_failures(s: Seq<bool>) -> nat
    decreases s.len(),
{
    if s.len() == 0 {
        0
    } else {
        count_failures(s.drop_last()) + if s.last() { 0nat } else { 1nat }
    }
}

/// At most every recorded outcome is a failure.
pub proof fn lemma_count_failures_le_len(s: Seq<bool>)
    ensures
        count_failures(s) <= s.len(),
    decreases s.len(),
{
    if s.len() > 0 {
        lemma_count_failures_le_len(s.drop_last());
    }
}

/// The aggregated failure report: how many items failed, and one
/// representative cause (the first one observed).
#[derive(Debug)]
pub struct AggregateError {
    pub count: usize,
    pub cause: String,
}

/// The decimal digit character for `n`.
pub open spec fn decimal_digit(n: int) -> char
    recommends
        0 <= n < 10,
{
    if n == 0 {
        '0'
    } else if n == 1 {
        '1'
    } else if n == 2 {
        '2'
    } else if n == 3 {
        '3'
    } else if n == 4 {
        '4'
    } else if n == 5 {
        '5'
    } else if n == 6 {
        '6'
    } else if n == 7 {
        '7'
    } else if n == 8 {
        '8'
    } else {
        '9'
    }
}

/// `n` written in decimal, without leading zeros (a lone zero for zero).
pub open spec fn decimal_spec(n: nat) -> Seq<char>
    decreases n,
{
    if n < 10 {
        seq![decimal_digit(n as int)]
    } else {
        decimal_spec(n / 10).push(decimal_digit(n as int % 10))
    }
}

/// Append the decimal digit character for `d`.
fn append_decimal_digit(out: &mut String, d: usize)
    requires
        d < 10,
    ensures
        final(out)@ == old(out)@ + seq![decimal_digit(d as int)],
{
    if d == 0 {
        out.append("0");
        proof {
            reveal_strlit("0");
            assert("0"@ =~= seq![decimal_digit(0)]);
        }
    } else if d == 1 {
        out.append("1");
        proof {
            reveal_strlit("1");
            assert("1"@ =~= seq![decimal_digit(1)]);
        }
    } else if d == 2 {
        out.append("2");
        proof {
            reveal_strlit("2");
            assert("2"@ =~= seq![decimal_digit(2)]);
        }
    } else if d == 3 {
        out.append("3");
        proof {
            reveal_strlit("3");
            assert("3"@ =~= seq![decimal_digit(3)]);
        }
    } else if d == 4 {
        out.append("4");
        proof {
            reveal_strlit("4");
            assert("4"@ =~= seq![decimal_digit(4)]);
        }
    } else if d == 5 {
        out.append("5");
        proof {
            reveal_strlit("5");
            assert("5"@ =~= seq![decimal_digit(5)]);
        }
    } else if d == 6 {
        out.append("6");
        proof {
            reveal_strlit("6");
            assert("6"@ =~= seq![decimal_digit(6)]);
        }
    } else if d == 7 {
        out.append("7");
        proof {
            reveal_strlit("7");
            assert("7"@ =~= seq![decimal_digit(7)]);
        }
    } else if d == 8 {
        out.append("8");
        proof {
            reveal_strlit("8");
            assert("8"@ =~= seq![decimal_digit(8)]);
        }
    } else {
        out.append("9");
        proof {
            reveal_strlit("9");
            assert("9"@ =~= seq![decimal_digit(9)]);
        }
    }
}

/// Append `n` written in decimal.
fn append_decimal(out: &mut String, n: usize)
    ensures
        final(out)@ == old(out)@ + decimal_spec(n as nat),
    decreases n,
{
    if n < 10 {
        append_decimal_digit(out, n);
    } else {
        append_decimal(out, n / 10);
        append_decimal_digit(out, n % 10);
        proof {
            assert(out@ =~= old(out)@ + decimal_spec(n as nat));
        }
    }
}

impl AggregateError {
    /// The failure text of an aggregated report: the failure count, the
    /// subject that failed, and the representative cause.
    pub fn message(&self, subject: &str) -> (r: String)
        ensures
            r@ == decimal_spec(self.count as nat) + " "@ + subject@ + " failed because of e.g. "@
                + self.cause@,
    {
        let mut r = String::new();
        append_decimal(&mut r, self.count);
        r.append(" ");
        r.append(subject);
        r.append(" failed because of e.g. ");
        r.append(self.cause.as_str());
        proof {
            assert(r@ =~= decimal_spec(self.count as nat) + " "@ + subject@
                + " failed because of e.g. "@ + self.cause@);
        }
        r
    }
}

/// State of one orchestrated batch run.
pub struct Orchestrator {
    /// Concurrency cap: at most this many operations are active at once.
    pub limit: usize,
    /// Number of work items in the batch.
    pub total: usize,
    /// Index of the next item to start; items before it have been admitted.
    pub next: usize,
    /// Number of admitted operations whose outcome is still pending.
    pub active: usize,
    /// Number of outcomes recorded so far.
    pub done: usize,
    /// Number of recorded outcomes that were failures.
    pub failures: usize,
    /// Cause of the first recorded failure, if any failure was recorded.
    pub first_cause: Option<String>,
    /// One success flag per recorded outcome, in observation order.
    pub history: Ghost<Seq<bool>>,
}

impl Orchestrator {
    /// The state invariant: the concurrency cap is respected, admission and
    /// completion counters agree, and the failure summary matches the
    /// recorded history.
    pub open spec fn wf(self) -> bool {
        &&& self.limit >= 1
        &&& self.active <= self.limit
        &&& self.next <= self.total
        &&& self.done + self.active == self.next
        &&& self.history@.len() == self.done
        &&& self.failures == count_failures(self.history@)
        &&& (self.first_cause is Some <==> self.failures > 0)
    }

    /// Start a batch of `total` items under concurrency cap `limit`.
    pub fn new(total: usize, limit: usize) -> (o: Orchestrator)
        requires
            limit >= 1,
        ensures
            o.wf(),
            o.total == total,
            o.limit == limit,
            o.next == 0,
            o.active == 0,
            o.done == 0,
            o.failures == 0,
            o.history@ == Seq::<bool>::empty(),
    {
        Orchestrator {
            limit,
            total,
            next: 0,
            active: 0,
            done: 0,
            failures: 0,
            first_cause: None,
            history: Ghost(Seq::empty()),
        }
    }

    /// Whether a further item may be admitted now: there is an item left
    /// and a free slot under the concurrency cap.
    pub fn can_start(&self) -> (b: bool)
        ensures
            b == (self.next < self.total && self.active < self.limit),
    {
        self.next < self.total && self.active < self.limit
    }

    /// Whether the batch is still running: either not every item has been
    /// admitted, or some admitted operation's outcome is still pending.
    pub fn pending(&self) -> (b: bool)
        ensures
            b == (self.next < self.total || self.active > 0),
    {
        self.next < self.total || self.active > 0
    }

    /// Start the next item, occupying one slot. Returns the index of the
    /// admitted item; items are admitted in submission order.
    pub fn start_next(&mut self) -> (i: usize)
        requires
            old(self).wf(),
            old(self).next < old(self).total,
            old(self).active < old(self).limit,
        ensures
            final(self).wf(),
            i == old(self).next,
            final(self).next == old(self).next + 1,
            final(self).active == old(self).active + 1,
            final(self).limit == old(self).limit,
            final(self).total == old(self).total,
            final(self).done == old(self).done,
            final(self).failures == old(self).failures,
            final(self).first_cause == old(self).first_cause,
            final(self).history == old(self).history,
    {
        let i = self.next;
        self.next = self.next + 1;
        self.active = self.active + 1;
        i
    }

    /// Record the outcome of one admitted operation, releasing its slot.
    /// The slot is released whether the operation succeeded or failed, so a
    /// failure never starves the remaining queue. The first failure's cause
    /// is retained as the representative cause.
    pub fn record(&mut self, outcome: Result<(), String>)
        requires
            old(self).wf(),
            old(self).active > 0,
        ensures
            final(self).wf(),
            final(self).active == old(self).active - 1,
            final(self).done == old(self).done + 1,
            final(self).next == old(self).next,
            final(self).limit == old(self).limit,
            final(self).total == old(self).total,
            final(self).history@ == old(self).history@.push(outcome is Ok),
            final(self).failures == old(self).failures + if outcome is Ok { 0int } else { 1int },
            final(self).first_cause == if old(self).failures == 0 && outcome is Err {
                Some(outcome->Err_0)
            } else {
                old(self).first_cause
            },
    {
        proof {
            assert(self.history@.push(outcome is Ok).drop_last() =~= self.history@);
            lemma_count_failures_le_len(self.history@);
        }
        self.active = self.active - 1;
        self.done = self.done + 1;
        match outcome {
            Ok(()) => {
                self.history = Ghost(self.history@.push(true));
            },
            Err(cause) => {
                self.history = Ghost(self.history@.push(false));
                self.failures = self.failures + 1;
                if self.first_cause.is_none() {
                    self.first_cause = Some(cause);
                }
            },
        }
    }

    /// Aggregate a finished batch: `Ok` exactly when every recorded outcome
    /// succeeded; otherwise the failure count together with the first
    /// observed cause.
    pub fn aggregate(&self) -> (r: Result<(), AggregateError>)
        requires
            self.wf(),
            self.next == self.total,
            self.active == 0,
        ensures
            r is Ok <==> count_failures(self.history@) == 0,
            r matches Err(e) ==> e.count == count_failures(self.history@)
                && Some(e.cause) == self.first_cause,
    {
        if self.failures == 0 {
            Ok(())
        } else {
            match &self.first_cause {
                Some(cause) => Err(AggregateError { count: self.failures, cause: cause.clone() }),
                None => {
                    proof {
                        assert(false);
                    }
                    Ok(())
                },
            }
        }
    }
}

/// The orchestrator never has more than `limit` operations simultaneously
/// active: in every reachable state the number of admitted, not yet
/// completed operations is at most the concurrency cap.
pub proof fn lemma_concurrency_bounded(o: Orchestrator)
    requires
        o.wf(),
    ensures
        o.active <= o.limit,
{
}

/// Once every item has been admitted and every admitted operation's outcome
/// recorded, the batch has produced exactly one outcome per work item: no
/// item was dropped, double-run, or left pending.
pub proof fn lemma_one_outcome_per_item(o: Orchestrator)
    requires
        o.wf(),
        o.next == o.total,
        o.active == 0,
    ensures
        o.done == o.total,
        o.history@.len() == o.total,
{
}

/// A history counts no failure exactly when every outcome in it
/// succeeded; so a finished batch aggregates to success exactly when all
/// of its operations succeeded.
pub proof fn lemma_no_failures_iff_all_success(s: Seq<bool>)
    ensures
        count_failures(s) == 0 <==> (forall|i: int| 0 <= i < s.len() ==> s[i]),
    decreases s.len(),
{
    if s.len() > 0 {
        lemma_no_failures_iff_all_success(s.drop_last());
        if count_failures(s) == 0 {
            assert(forall|i: int|
                0 <= i < s.len() ==> s[i] == if i < s.len() - 1 {
                    s.drop_last()[i]
                } else {
                    s.last()
                });
        }
    }
}

/// Removing one outcome from a history removes exactly that outcome's
/// contribution to the failure count.
proof fn lemma_count_failures_remove(s: Seq<bool>, i: int)
    requires
        0 <= i < s.len(),
    ensures
        count_failures(s) == count_failures(s.remove(i)) + if s[i] { 0nat } else { 1nat },
    decreases s.len(),
{
    if i == s.len() - 1 {
        assert(s.remove(i) =~= s.drop_last());
    } else {
        assert(s.remove(i).drop_last() =~= s.drop_last().remove(i));
        assert(s.remove(i).last() == s.last());
        lemma_count_failures_remove(s.drop_last(), i);
    }
}

/// The failure count of a batch does not depend on the order in which the
/// outcomes were observed: two histories holding the same outcomes in any
/// order have the same number of failures.
pub proof fn lemma_count_failures_order_independent(s1: Seq<bool>, s2: Seq<bool>)
    requires
        s1.to_multiset() == s2.to_multiset(),
    ensures
        count_failures(s1) == count_failures(s2),
    decreases s1.len(),
{
    s1.to_multiset_ensures();
    s2.to_multiset_ensures();
    if s1.len() == 0 {
        assert(s2.len() == 0);
    } else {
        let x = s1.last();
        assert(s1 =~= s1.drop_last().push(x));
        assert(s1.to_multiset().count(x) > 0) by {
            assert(s1.contains(x));
        }
        assert(s2.contains(x));
        let i = choose|i: int| 0 <= i < s2.len() && s2[i] == x;
        let s2r = s2.remove(i);
        assert(s2r.to_multiset() =~= s2.to_multiset().remove(x));
        assert(s1.drop_last().to_multiset() =~= s1.to_multiset().remove(x)) by {
            s1.drop_last().to_multiset_ensures();
            assert(s1.drop_last().push(x).to_multiset() =~= s1.drop_last().to_multiset().insert(
                x,
            ));
        }
        lemma_count_failures_remove(s2, i);
        lemma_count_failures_order_independent(s1.drop_last(), s2r);
    }
}

} // verus!
