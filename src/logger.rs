//! The logger: intake of events, per-backend dispatch decisions and the
//! crash-flush handshake, over the shared buffer and crash state.
use vstd::prelude::*;

use crate::buffer::{appended, drained, LogBuffer};
use crate::crash::CrashState;
use crate::level::{Level, LevelFilter};
use crate::record::{panic_level_name, LogAnywhereRecord};

verus! {

/// Why the logger could not be set up.
#[derive(Clone, Copy, Debug, PartialEq, Eq, Structural)]
pub enum InitError {
    /// A process-wide logger was already installed.
    AlreadyInitialized,
    /// The flush interval is not positive.
    InvalidInterval,
}

/// The abstract state of a logger.
pub ghost struct LoggerState<P> {
    /// The backends, in registration order.
    pub providers: Seq<P>,
    /// One queue of pending records per backend.
    pub queues: Seq<Seq<LogAnywhereRecord>>,
    /// Seconds between two dispatch cycles.
    pub buffer_timing: u64,
    /// Longest time, in seconds, that a crash waits for the flush.
    pub grace_period: u64,
    /// Minimum severity let through.
    pub level: LevelFilter,
    /// Whether a crash is under way.
    pub crashing: bool,
    /// Whether a dispatch loop has seen its queue empty since the crash.
    pub drained: bool,
    /// Per backend: whether it has been handed, during the crash, a batch
    /// that holds a crash record.
    pub shipped: Seq<bool>,
}

/// The grace period used when none is given: two flush intervals and one
/// second more, or the largest value if that does not fit.
pub open spec fn default_grace_period(buffer_timing: u64) -> u64 {
    if 2 * buffer_timing + 1 <= u64::MAX {
        (2 * buffer_timing + 1) as u64
    } else {
        u64::MAX
    }
}

/// What a dispatch cycle ships from a queue: nothing when it is empty,
/// otherwise the whole queue in order.
pub open spec fn batch_of(qs: Seq<Seq<LogAnywhereRecord>>, i: int) -> Option<
    Seq<LogAnywhereRecord>,
> {
    if qs[i].len() == 0 {
        None
    } else {
        Some(qs[i])
    }
}

/// Whether a queue holds a record of crash severity.
pub open spec fn holds_crash_record(q: Seq<LogAnywhereRecord>) -> bool {
    exists|k: int| 0 <= k < q.len() && (#[trigger] q[k]).level@ == panic_level_name()
}

/// Whether `r` is the record of an event with these fields and a level named `name`.
pub open spec fn is_record_of(
    r: LogAnywhereRecord,
    name: Seq<char>,
    message: String,
    file: Option<String>,
    line: Option<u32>,
) -> bool {
    &&& r.level@ == name
    &&& r.message == message
    &&& r.file == file
    &&& r.line == line
}

/// Idle silence: once a queue has been drained, a cycle with no record
/// appended in between finds nothing to send.
pub proof fn lemma_idle_silence(qs: Seq<Seq<LogAnywhereRecord>>, i: int)
    requires
        0 <= i < qs.len(),
    ensures
        batch_of(drained(qs, i), i) is None,
{
}

/// Fan-out of one event: after a record is appended, the next cycle of
/// every backend ships a batch that ends with it, whatever the other
/// backends drained in the meantime.
pub proof fn lemma_every_backend_receives(
    qs: Seq<Seq<LogAnywhereRecord>>,
    r: LogAnywhereRecord,
    i: int,
    j: int,
)
    requires
        0 <= i < qs.len(),
        0 <= j < qs.len(),
        i != j,
    ensures
        batch_of(appended(qs, r), i) == Some(qs[i].push(r)),
        batch_of(drained(appended(qs, r), j), i) == Some(qs[i].push(r)),
{
}

/// Crash flush: during a crash, every backend either still has a crash
/// record waiting for its next batch or was already handed one; and once the
/// drained signal is up (which ends the crashing thread's wait), at least one
/// backend was handed a batch holding the crash record.
pub proof fn lemma_crash_flush<P>(l: &Logger<P>)
    requires
        l.wf(),
    ensures
        l@.crashing ==> forall|i: int|
            0 <= i < l@.providers.len() ==> #[trigger] l@.shipped[i] || (batch_of(l@.queues, i) is Some
                && holds_crash_record(batch_of(l@.queues, i)->0)),
        l@.drained ==> exists|i: int| 0 <= i < l@.providers.len() && #[trigger] l@.shipped[i],
{
    if l@.crashing {
        assert forall|i: int| 0 <= i < l@.providers.len() implies #[trigger] l@.shipped[i] || (batch_of(
            l@.queues,
            i,
        ) is Some && holds_crash_record(batch_of(l@.queues, i)->0)) by {
            assert(l@.shipped[i] || holds_crash_record(l@.queues[i]));
        }
    }
}

/// The log buffering core, generic over the backend handle `P`: a fixed list
/// of backends, one queue per backend, the flush interval, the severity
/// threshold and the crash state.
pub struct Logger<P> {
    providers: Vec<P>,
    buffer: LogBuffer,
    buffer_timing: u64,
    grace_period: u64,
    level: LevelFilter,
    crash: CrashState,
    shipped: Ghost<Seq<bool>>,
}

impl<P> View for Logger<P> {
    type V = LoggerState<P>;

    closed spec fn view(&self) -> LoggerState<P> {
        LoggerState {
            providers: self.providers@,
            queues: self.buffer@,
            buffer_timing: self.buffer_timing,
            grace_period: self.grace_period,
            level: self.level,
            crashing: self.crash.crashing(),
            drained: self.crash.drained(),
            shipped: self.shipped@,
        }
    }
}

impl<P> Logger<P> {
    /// Well-formed: one queue per backend; during a crash every backend
    /// either still has a crash record queued or was handed one; and the
    /// drained signal is raised only once some backend was handed one.
    pub open spec fn wf(&self) -> bool {
        &&& self@.queues.len() == self@.providers.len()
        &&& self@.shipped.len() == self@.providers.len()
        &&& self@.crashing ==> forall|i: int|
            0 <= i < self@.queues.len() ==> #[trigger] self@.shipped[i] || holds_crash_record(
                self@.queues[i],
            )
        &&& self@.drained ==> self@.crashing
        &&& self@.drained ==> exists|i: int| 0 <= i < self@.shipped.len() && #[trigger] self@.shipped[i]
    }

    /// A logger over `providers` that flushes every `buffer_timing` seconds
    /// and lets through events up to `level`; all queues start empty and the
    /// grace period is the default one.
    pub fn new(providers: Vec<P>, buffer_timing: u64, level: LevelFilter) -> (r: Self)
        ensures
            r.wf(),
            r@.providers == providers@,
            r@.queues == Seq::new(
                providers@.len(),
                |k: int| Seq::<LogAnywhereRecord>::empty(),
            ),
            r@.buffer_timing == buffer_timing,
            r@.grace_period == default_grace_period(buffer_timing),
            r@.level == level,
            !r@.crashing,
            !r@.drained,
            r@.shipped == Seq::new(providers@.len(), |k: int| false),
    {
        let buffer = LogBuffer::new(providers.len());
        let grace_period = if buffer_timing <= (u64::MAX - 1) / 2 {
            2 * buffer_timing + 1
        } else {
            u64::MAX
        };
        let ghost n = providers@.len();
        Logger {
            providers,
            buffer,
            buffer_timing,
            grace_period,
            level,
            crash: CrashState::new(),
            shipped: Ghost(Seq::new(n, |k: int| false)),
        }
    }

    /// The same logger with a grace period of `seconds`.
    pub fn with_grace_period(self, seconds: u64) -> (r: Self)
        requires
            self.wf(),
        ensures
            r.wf(),
            r@ == (LoggerState { grace_period: seconds, ..self@ }),
    {
        let mut r = self;
        r.grace_period = seconds;
        r
    }

    /// Checks the configuration before the logger is installed: the flush
    /// interval must be positive.
    pub fn check_init(&self) -> (r: Result<(), InitError>)
        ensures
            r == Ok::<(), InitError>(()) <==> self@.buffer_timing > 0,
            r == Err::<(), InitError>(InitError::InvalidInterval) <==> self@.buffer_timing == 0,
    {
        if self.buffer_timing == 0 {
            Err(InitError::InvalidInterval)
        } else {
            Ok(())
        }
    }

    /// Whether an event of `level` passes the configured threshold.
    pub fn enabled(&self, level: Level) -> (r: bool)
        ensures
            r == self@.level.spec_allows(level),
    {
        self.level.allows(level)
    }

    /// Appends `rec` to the queue of every backend.
    pub fn append(&mut self, rec: LogAnywhereRecord)
        requires
            old(self).wf(),
        ensures
            final(self).wf(),
            final(self)@ == (LoggerState { queues: appended(old(self)@.queues, rec), ..old(self)@ }),
    {
        self.buffer.append(rec);
        proof {
            assert forall|i: int| 0 <= i < old(self)@.queues.len() && holds_crash_record(
                old(self)@.queues[i],
            ) implies holds_crash_record(#[trigger] self@.queues[i]) by {
                let k = choose|k: int|
                    0 <= k < old(self)@.queues[i].len() && (#[trigger] old(
                        self,
                    )@.queues[i][k]).level@ == panic_level_name();
                assert(self@.queues[i][k] == old(self)@.queues[i][k]);
            }
        }
    }

    /// Takes in one event: its record goes to the end of every backend's
    /// queue. Filtering by severity is the caller's, through `enabled`.
    pub fn log(&mut self, level: Level, message: String, file: Option<String>, line: Option<u32>)
        requires
            old(self).wf(),
        ensures
            final(self).wf(),
            exists|r: LogAnywhereRecord|
                {
                    &&& is_record_of(r, level.spec_name(), message, file, line)
                    &&& final(self)@ == (LoggerState {
                        queues: appended(old(self)@.queues, r),
                        ..old(self)@
                    })
                },
    {
        let rec = LogAnywhereRecord::new(level, message, file, line);
        let ghost r = rec;
        self.append(rec);
        assert(is_record_of(r, level.spec_name(), message, file, line));
    }

    /// The crash guard's first steps: enters the crashing state and appends a
    /// record of the highest severity with the fault's message and location
    /// to every queue, in one step so that no dispatch loop can see the
    /// crash without its record.
    pub fn crash(&mut self, message: String, file: Option<String>, line: Option<u32>)
        requires
            old(self).wf(),
        ensures
            final(self).wf(),
            exists|r: LogAnywhereRecord|
                {
                    &&& is_record_of(r, panic_level_name(), message, file, line)
                    &&& final(self)@ == (LoggerState {
                        queues: appended(old(self)@.queues, r),
                        crashing: true,
                        ..old(self)@
                    })
                },
    {
        self.crash.set_crashing();
        let rec = LogAnywhereRecord::panic(message, file, line);
        let ghost r = rec;
        self.buffer.append(rec);
        assert(is_record_of(r, panic_level_name(), message, file, line));
        assert forall|i: int| 0 <= i < self@.queues.len() implies holds_crash_record(
            #[trigger] self@.queues[i],
        ) by {
            let q = self@.queues[i];
            assert(q[q.len() - 1] == r);
        }
        assert(self@.shipped == old(self)@.shipped);
        assert(self@.drained == old(self)@.drained);
    }

    /// Start of a dispatch cycle of backend `i`: drains its queue and returns
    /// the batch to send, or `None` when there is nothing to send. An empty
    /// queue during a crash means that this backend already shipped the
    /// crash record, and raises the drained signal.
    pub fn next_batch(&mut self, i: usize) -> (r: Option<Vec<LogAnywhereRecord>>)
        requires
            old(self).wf(),
            i < old(self)@.providers.len(),
        ensures
            final(self).wf(),
            match r {
                None => batch_of(old(self)@.queues, i as int) is None,
                Some(b) => batch_of(old(self)@.queues, i as int) == Some(b@),
            },
            final(self)@ == (LoggerState {
                queues: drained(old(self)@.queues, i as int),
                drained: old(self)@.drained || (old(self)@.crashing && old(
                    self,
                )@.queues[i as int].len() == 0),
                shipped: old(self)@.shipped.update(
                    i as int,
                    old(self)@.shipped[i as int] || (old(self)@.crashing && holds_crash_record(
                        old(self)@.queues[i as int],
                    )),
                ),
                ..old(self)@
            }),
    {
        let empty = self.buffer.pending(i) == 0;
        self.crash.observe_queue(empty);
        let batch = self.buffer.drain(i);
        proof {
            let old_s = old(self)@;
            let ship_i = old_s.shipped[i as int] || (old_s.crashing && holds_crash_record(
                old_s.queues[i as int],
            ));
            self.shipped = Ghost(old_s.shipped.update(i as int, ship_i));
            if old_s.crashing {
                assert(old_s.shipped[i as int] || holds_crash_record(old_s.queues[i as int]));
            }
            if self@.drained {
                if old_s.drained {
                    let j = choose|j: int| 0 <= j < old_s.shipped.len() && #[trigger] old_s.shipped[j];
                    assert(self@.shipped[j]);
                } else {
                    assert(self@.shipped[i as int]);
                }
            }
            assert forall|j: int| 0 <= j < self@.queues.len() && self@.crashing implies #[trigger] self@.shipped[j]
                || holds_crash_record(self@.queues[j]) by {
                if j != i {
                    assert(self@.queues[j] == old_s.queues[j]);
                    assert(old_s.shipped[j] || holds_crash_record(old_s.queues[j]));
                }
            }
        }
        if empty {
            None
        } else {
            Some(batch)
        }
    }

    /// End of a dispatch cycle of backend `i`, once its send has completed,
    /// whatever its outcome: during a crash, a queue found empty raises the
    /// drained signal.
    pub fn finish_cycle(&mut self, i: usize)
        requires
            old(self).wf(),
            i < old(self)@.providers.len(),
        ensures
            final(self).wf(),
            final(self)@ == (LoggerState {
                drained: old(self)@.drained || (old(self)@.crashing && old(
                    self,
                )@.queues[i as int].len() == 0),
                ..old(self)@
            }),
    {
        let empty = self.buffer.pending(i) == 0;
        self.crash.observe_queue(empty);
        proof {
            let old_s = old(self)@;
            if self@.drained && !old_s.drained {
                assert(old_s.shipped[i as int] || holds_crash_record(old_s.queues[i as int]));
                assert(self@.shipped[i as int]);
            }
        }
    }

    /// Whether a crashing thread that has waited `waited` seconds must keep
    /// waiting: only while no dispatch loop has confirmed the flush and the
    /// grace period has not run out.
    pub fn keep_waiting(&self, waited: u64) -> (r: bool)
        ensures
            r == (!self@.drained && waited < self@.grace_period),
    {
        !self.crash.drained_since_crash() && waited < self.grace_period
    }
    /// The backend handle registered at position `i`.
    pub fn provider(&self, i: usize) -> (r: &P)
        requires
            i < self@.providers.len(),
        ensures
            *r == self@.providers[i as int],
    {
        &self.providers[i]
    }

    /// The number of registered backends.
    pub fn provider_count(&self) -> (r: usize)
        ensures
            r == self@.providers.len(),
    {
        self.providers.len()
    }

    /// The number of records waiting for backend `i`.
    pub fn pending(&self, i: usize) -> (r: usize)
        requires
            self.wf(),
            i < self@.providers.len(),
        ensures
            r == self@.queues[i as int].len(),
    {
        self.buffer.pending(i)
    }

    /// Seconds between two dispatch cycles.
    pub fn buffer_timing(&self) -> (r: u64)
        ensures
            r == self@.buffer_timing,
    {
        self.buffer_timing
    }

    /// Longest wait of a crash for the flush, in seconds.
    pub fn grace_period(&self) -> (r: u64)
        ensures
            r == self@.grace_period,
    {
        self.grace_period
    }

    /// The configured minimum severity.
    pub fn level(&self) -> (r: LevelFilter)
        ensures
            r == self@.level,
    {
        self.level
    }

    /// Whether a crash is under way.
    pub fn is_crashing(&self) -> (r: bool)
        ensures
            r == self@.crashing,
    {
        self.crash.is_crashing()
    }

    /// Whether a dispatch loop has confirmed the flush since the crash.
    pub fn drained_since_crash(&self) -> (r: bool)
        ensures
            r == self@.drained,
    {
        self.crash.drained_since_crash()
    }
}

} // verus!
