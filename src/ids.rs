//! Job identifiers from an explicitly passed generator.

use vstd::prelude::*;
use crate::text::{decimal, decimal_chars, digit, owned, push_all, signed_decimal, signed_decimal_chars};

verus! {

/// A job id: the creation time and a sequence number, as `job-<now>-<seq>`.
pub open spec fn job_id_text(now: int, sequence: nat) -> Seq<char> {
    "job-"@ + signed_decimal(now) + seq!['-'] + decimal(sequence)
}

pub fn make_job_id(now: i64, sequence: u64) -> (r: String)
    ensures
        r@ == job_id_text(now as int, sequence as nat),
{
    let mut s = owned("job-");
    push_all(&mut s, &signed_decimal_chars(now));
    let mut dash: Vec<char> = Vec::new();
    dash.push('-');
    push_all(&mut s, &dash);
    push_all(&mut s, &decimal_chars(sequence));
    s
}

/// Hands out job ids whose sequence numbers never repeat; it is passed to
/// job creation explicitly instead of living in process-wide state.
pub struct JobIdGenerator {
    next: u64,
}

impl JobIdGenerator {
    /// The sequence number of the next id.
    pub closed spec fn next_sequence(&self) -> nat {
        self.next as nat
    }

    pub fn new() -> (r: JobIdGenerator)
        ensures
            r.next_sequence() == 0,
    {
        JobIdGenerator { next: 0 }
    }

    /// A generator whose next id carries the given sequence number.
    pub fn starting_at(sequence: u64) -> (r: JobIdGenerator)
        ensures
            r.next_sequence() == sequence,
    {
        JobIdGenerator { next: sequence }
    }

    /// The next id for a job created at `now`, or `None` once the sequence
    /// numbers are used up.
    pub fn next_id(&mut self, now: i64) -> (r: Option<String>)
        ensures
            old(self).next_sequence() < u64::MAX ==> (r matches Some(id) && id@ == job_id_text(
                now as int,
                old(self).next_sequence(),
            ) && final(self).next_sequence() == old(self).next_sequence() + 1),
            old(self).next_sequence() == u64::MAX ==> r is None && final(self).next_sequence()
                == old(self).next_sequence(),
    {
        if self.next == u64::MAX {
            return None;
        }
        let id = make_job_id(now, self.next);
        self.next = self.next + 1;
        Some(id)
    }
}

proof fn lemma_decimal_shape(n: nat)
    ensures
        decimal(n).len() >= 1,
        n < 10 ==> decimal(n).len() == 1,
        n >= 10 ==> decimal(n).len() >= 2,
        forall|i: int| 0 <= i < decimal(n).len() ==> '0' <= #[trigger] decimal(n)[i] <= '9',
    decreases n,
{
    if n >= 10 {
        lemma_decimal_shape(n / 10);
        let d = decimal(n / 10).push(digit(n % 10));
        assert forall|i: int| 0 <= i < d.len() implies '0' <= #[trigger] d[i] <= '9' by {
            if i < d.len() - 1 {
                assert(d[i] == decimal(n / 10)[i]);
            }
        }
    }
}

proof fn lemma_digit_injective(a: nat, b: nat)
    requires
        a < 10,
        b < 10,
        digit(a) == digit(b),
    ensures
        a == b,
{
    assert(((48 + a) as u8) as char == ((48 + b) as u8) as char);
    assert(((48 + a) as u8) as u32 == ((48 + b) as u8) as u32);
}

proof fn lemma_decimal_injective(a: nat, b: nat)
    requires
        decimal(a) == decimal(b),
    ensures
        a == b,
    decreases a,
{
    lemma_decimal_shape(a);
    lemma_decimal_shape(b);
    if a < 10 && b < 10 {
        assert(decimal(a)[0] == digit(a));
        assert(decimal(b)[0] == digit(b));
        assert(decimal(a)[0] == decimal(b)[0]);
        lemma_digit_injective(a, b);
    } else if a >= 10 && b >= 10 {
        assert(decimal(a).drop_last() =~= decimal(a / 10));
        assert(decimal(b).drop_last() =~= decimal(b / 10));
        lemma_decimal_injective(a / 10, b / 10);
        assert(decimal(a).last() == digit(a % 10));
        assert(decimal(b).last() == digit(b % 10));
        assert(decimal(a).last() == decimal(b).last());
        lemma_digit_injective(a % 10, b % 10);
    }
}

/// Ids with different sequence numbers differ, whatever their times: a
/// generator never hands out the same id twice.
pub proof fn lemma_job_ids_distinct(now1: int, now2: int, a: nat, b: nat)
    requires
        a != b,
    ensures
        job_id_text(now1, a) != job_id_text(now2, b),
{
    let head_a = "job-"@ + signed_decimal(now1) + seq!['-'];
    let head_b = "job-"@ + signed_decimal(now2) + seq!['-'];
    let da = decimal(a);
    let db = decimal(b);
    let s1 = job_id_text(now1, a);
    let s2 = job_id_text(now2, b);
    assert(s1 =~= head_a + da);
    assert(s2 =~= head_b + db);
    lemma_decimal_shape(a);
    lemma_decimal_shape(b);
    if s1 == s2 {
        if da.len() == db.len() {
            assert(da =~= s1.subrange(s1.len() - da.len(), s1.len() as int));
            assert(db =~= s2.subrange(s2.len() - db.len(), s2.len() as int));
            lemma_decimal_injective(a, b);
        } else if da.len() < db.len() {
            let i = s1.len() - da.len() - 1;
            assert(s1[i] == '-');
            assert(s2[i] == db[i - head_b.len()]);
        } else {
            let i = s2.len() - db.len() - 1;
            assert(s2[i] == '-');
            assert(s1[i] == da[i - head_a.len()]);
        }
    }
}

} // verus!
