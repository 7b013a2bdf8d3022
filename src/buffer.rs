//! The shared record buffer, fanned out as one queue per backend.
use vstd::prelude::*;

use crate::record::LogAnywhereRecord;

verus! {

/// The queues after `r` is appended to every one of them.
pub open spec fn appended(qs: Seq<Seq<LogAnywhereRecord>>, r: LogAnywhereRecord) -> Seq<
    Seq<LogAnywhereRecord>,
> {
    Seq::new(qs.len(), |k: int| qs[k].push(r))
}

/// The queues after each record of `rs` is appended, in order.
pub open spec fn appended_all(
    qs: Seq<Seq<LogAnywhereRecord>>,
    rs: Seq<LogAnywhereRecord>,
) -> Seq<Seq<LogAnywhereRecord>>
    decreases rs.len(),
{
    if rs.len() == 0 {
        qs
    } else {
        appended(appended_all(qs, rs.drop_last()), rs.last())
    }
}

/// The queues after queue `i` is drained.
pub open spec fn drained(qs: Seq<Seq<LogAnywhereRecord>>, i: int) -> Seq<Seq<LogAnywhereRecord>> {
    qs.update(i, Seq::empty())
}

/// Appending a sequence of records, one call after another, adds them to the
/// end of every queue in call order and keeps the number of queues.
pub proof fn lemma_appended_all(qs: Seq<Seq<LogAnywhereRecord>>, rs: Seq<LogAnywhereRecord>)
    ensures
        appended_all(qs, rs).len() == qs.len(),
        forall|k: int| 0 <= k < qs.len() ==> #[trigger] appended_all(qs, rs)[k] == qs[k] + rs,
    decreases rs.len(),
{
    if rs.len() == 0 {
        assert forall|k: int| 0 <= k < qs.len() implies #[trigger] appended_all(qs, rs)[k]
            == qs[k] + rs by {
            assert(qs[k] + rs =~= qs[k]);
        }
    } else {
        lemma_appended_all(qs, rs.drop_last());
        assert forall|k: int| 0 <= k < qs.len() implies #[trigger] appended_all(qs, rs)[k]
            == qs[k] + rs by {
            assert(rs.drop_last().push(rs.last()) =~= rs);
            assert((qs[k] + rs.drop_last()).push(rs.last()) =~= qs[k] + rs);
        }
    }
}

/// Order preservation: after records are appended one by one with no drain
/// in between, draining a queue that was empty returns exactly those records
/// in the order of the calls, and leaves the queue empty.
pub proof fn lemma_order_preserved(
    qs: Seq<Seq<LogAnywhereRecord>>,
    rs: Seq<LogAnywhereRecord>,
    i: int,
)
    requires
        0 <= i < qs.len(),
        qs[i].len() == 0,
    ensures
        appended_all(qs, rs)[i] == rs,
        drained(appended_all(qs, rs), i)[i].len() == 0,
{
    lemma_appended_all(qs, rs);
    assert(qs[i] + rs =~= rs);
}

/// Exclusive drain: of two drains of one queue, with appends before each,
/// the first returns what was waiting plus the first appends, the second
/// returns only the appends made after the first drain, so together they
/// return every appended record exactly once and in order.
pub proof fn lemma_exclusive_drain(
    qs: Seq<Seq<LogAnywhereRecord>>,
    i: int,
    rs1: Seq<LogAnywhereRecord>,
    rs2: Seq<LogAnywhereRecord>,
)
    requires
        0 <= i < qs.len(),
    ensures
        ({
            let s1 = appended_all(qs, rs1);
            let s2 = appended_all(drained(s1, i), rs2);
            &&& s1[i] == qs[i] + rs1
            &&& s2[i] == rs2
            &&& s1[i] + s2[i] == qs[i] + rs1 + rs2
            &&& drained(s2, i)[i].len() == 0
        }),
{
    let s1 = appended_all(qs, rs1);
    lemma_appended_all(qs, rs1);
    lemma_appended_all(drained(s1, i), rs2);
    assert(Seq::<LogAnywhereRecord>::empty() + rs2 =~= rs2);
}

/// Records waiting for delivery, one ordered queue per backend. Every record
/// appended goes to every queue, and each backend drains only its own, so a
/// backend sees each record once whatever the others do.
///
/// The queues have no capacity bound: intake never drops a record, so a
/// backend that keeps failing or falls behind lets its queue grow.
pub struct LogBuffer {
    queues: Vec<Vec<LogAnywhereRecord>>,
}

impl View for LogBuffer {
    type V = Seq<Seq<LogAnywhereRecord>>;

    closed spec fn view(&self) -> Seq<Seq<LogAnywhereRecord>> {
        Seq::new(self.queues@.len(), |k: int| self.queues@[k]@)
    }
}

impl LogBuffer {
    /// A buffer of `n` empty queues.
    pub fn new(n: usize) -> (r: Self)
        ensures
            r@ == Seq::new(n as nat, |k: int| Seq::<LogAnywhereRecord>::empty()),
    {
        let mut queues: Vec<Vec<LogAnywhereRecord>> = Vec::new();
        let mut k: usize = 0;
        while k < n
            invariant
                k <= n,
                queues@.len() == k,
                forall|j: int| 0 <= j < k ==> (#[trigger] queues@[j])@ == Seq::<
                    LogAnywhereRecord,
                >::empty(),
            decreases n - k,
        {
            queues.push(Vec::new());
            k = k + 1;
        }
        let r = LogBuffer { queues };
        assert(r@ =~= Seq::new(n as nat, |k: int| Seq::<LogAnywhereRecord>::empty()));
        r
    }

    /// The number of queues.
    pub fn queue_count(&self) -> (r: usize)
        ensures
            r == self@.len(),
    {
        self.queues.len()
    }

    /// The number of records waiting in queue `i`.
    pub fn pending(&self, i: usize) -> (r: usize)
        requires
            i < self@.len(),
        ensures
            r == self@[i as int].len(),
    {
        self.queues[i].len()
    }

    /// Appends a copy of `rec` to the end of every queue.
    pub fn append(&mut self, rec: LogAnywhereRecord)
        ensures
            final(self)@ == appended(old(self)@, rec),
    {
        let n = self.queues.len();
        let mut k: usize = 0;
        while k < n
            invariant
                k <= n,
                n == old(self)@.len(),
                self.queues@.len() == n,
                forall|j: int| 0 <= j < k ==> (#[trigger] self.queues@[j])@ == old(self)@[j].push(rec),
                forall|j: int| k <= j < n ==> (#[trigger] self.queues@[j])@ == old(self)@[j],
            decreases n - k,
        {
            let copy = rec.duplicate();
            self.queues[k].push(copy);
            k = k + 1;
        }
        assert(self@ =~= appended(old(self)@, rec));
    }

    /// Takes every record of queue `i`, in append order, and leaves it empty.
    pub fn drain(&mut self, i: usize) -> (batch: Vec<LogAnywhereRecord>)
        requires
            i < old(self)@.len(),
        ensures
            batch@ == old(self)@[i as int],
            final(self)@ == drained(old(self)@, i as int),
    {
        let mut batch: Vec<LogAnywhereRecord> = Vec::new();
        std::mem::swap(&mut batch, &mut self.queues[i]);
        assert(self@ =~= drained(old(self)@, i as int));
        batch
    }
}

} // verus!
