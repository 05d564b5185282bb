//! The startup phase, the log of its changes, and cursors that replay the log.

use vstd::prelude::*;

verus! {

/// A coarse startup milestone.  The phases are ordered
/// `ServerWaiting < SqliteWaiting < Done`; `SqliteWaiting` may be skipped.
#[derive(Clone, Copy, Debug, PartialEq, Eq, Structural)]
pub enum InitStep {
    ServerWaiting,
    SqliteWaiting,
    Done,
}

impl InitStep {
    /// Position of the phase in the startup order.
    pub open spec fn rank(self) -> nat {
        match self {
            InitStep::ServerWaiting => 0,
            InitStep::SqliteWaiting => 1,
            InitStep::Done => 2,
        }
    }

    /// Whether `self` comes strictly before `other` in the startup order.
    pub fn precedes(self, other: InitStep) -> (earlier: bool)
        ensures
            earlier == (self.rank() < other.rank()),
    {
        match (self, other) {
            (InitStep::ServerWaiting, InitStep::SqliteWaiting) => true,
            (InitStep::ServerWaiting, InitStep::Done) => true,
            (InitStep::SqliteWaiting, InitStep::Done) => true,
            _ => false,
        }
    }

    /// Whether the phase is the terminal one.
    pub fn is_done(self) -> (done: bool)
        ensures
            done == (self == InitStep::Done),
    {
        match self {
            InitStep::Done => true,
            _ => false,
        }
    }
}

/// A sequence of phases that only moves forward: every phase ranks strictly
/// above the ones before it.  Such a sequence is a subsequence of
/// `ServerWaiting, SqliteWaiting, Done`.
pub open spec fn is_progression(phases: Seq<InitStep>) -> bool {
    forall|i: int, j: int| 0 <= i < j < phases.len() ==> phases[i].rank() < phases[j].rank()
}

/// Number of times `phase` occurs in `phases`.
pub open spec fn occurrences(phases: Seq<InitStep>, phase: InitStep) -> nat
    decreases phases.len(),
{
    if phases.len() == 0 {
        0
    } else {
        occurrences(phases.drop_last(), phase) + if phases.last() == phase {
            1nat
        } else {
            0nat
        }
    }
}

/// What a cursor that starts at index `from` of `log` yields when it is
/// polled until it has nothing more to give: the entries from `from` on, up to
/// and including the first `Done`.
pub open spec fn observed(log: Seq<InitStep>, from: int) -> Seq<InitStep>
    decreases log.len() - from,
{
    if from < 0 || from >= log.len() {
        Seq::empty()
    } else if log[from] == InitStep::Done {
        seq![InitStep::Done]
    } else {
        seq![log[from]] + observed(log, from + 1)
    }
}

/// Holds the current startup phase together with every value it had before.
///
/// The log is never empty: its first entry is the phase the broadcaster was
/// created with and its last entry is the current phase.
pub struct PhaseBroadcaster {
    initial: InitStep,
    changes: Vec<InitStep>,
}

impl View for PhaseBroadcaster {
    type V = Seq<InitStep>;

    closed spec fn view(&self) -> Seq<InitStep> {
        seq![self.initial] + self.changes@
    }
}

impl PhaseBroadcaster {
    /// A broadcaster whose current phase is `initial`.
    pub fn new(initial: InitStep) -> (broadcaster: PhaseBroadcaster)
        ensures
            broadcaster@ == seq![initial],
    {
        PhaseBroadcaster { initial, changes: Vec::new() }
    }

    /// Records `phase` as the new current phase.  Moving forward in the
    /// startup order is left to the caller.
    pub fn set(&mut self, phase: InitStep)
        ensures
            final(self)@ == old(self)@.push(phase),
    {
        self.changes.push(phase);
    }

    /// The log always holds the initial phase.
    pub proof fn lemma_never_empty(&self)
        ensures
            self@.len() >= 1,
    {
    }

    /// The entry of the log at `index`.
    fn entry(&self, index: usize) -> (phase: InitStep)
        requires
            index < self@.len(),
        ensures
            phase == self@[index as int],
    {
        if index == 0 {
            self.initial
        } else {
            self.changes[index - 1]
        }
    }

    /// The phase set last.
    pub fn current(&self) -> (phase: InitStep)
        ensures
            self@.len() >= 1,
            phase == self@.last(),
    {
        self.entry(self.changes.len())
    }

    /// A cursor whose first poll yields the current phase and whose later
    /// polls yield each phase set after this call.
    pub fn subscribe(&self) -> (cursor: PhaseCursor)
        ensures
            self@.len() >= 1,
            cursor@ == (CursorView { next: self@.len() - 1, exhausted: false }),
    {
        PhaseCursor { at_start: true, seen: self.changes.len(), exhausted: false }
    }
}

/// What a poll of a cursor found.
#[derive(Clone, Copy, Debug, PartialEq, Eq, Structural)]
pub enum PhasePoll {
    /// The next phase in the log.
    Ready(InitStep),
    /// The cursor has seen the whole log; a later poll may find more.
    Pending,
    /// The cursor has yielded `Done` and yields nothing any more.
    Exhausted,
}

/// Mathematical content of a [`PhaseCursor`].
pub struct CursorView {
    /// Index of the log entry that the next poll yields.
    pub next: int,
    /// Whether `Done` has been yielded.
    pub exhausted: bool,
}

/// State of a cursor and result of polling it once against `log`.
pub open spec fn poll_step(cursor: CursorView, log: Seq<InitStep>) -> (CursorView, PhasePoll) {
    if cursor.exhausted {
        (cursor, PhasePoll::Exhausted)
    } else if 0 <= cursor.next < log.len() {
        (
            CursorView { next: cursor.next + 1, exhausted: log[cursor.next] == InitStep::Done },
            PhasePoll::Ready(log[cursor.next]),
        )
    } else {
        (cursor, PhasePoll::Pending)
    }
}

/// What remains for a cursor to yield against `log` as it stands.
pub open spec fn remaining(cursor: CursorView, log: Seq<InitStep>) -> Seq<InitStep> {
    if cursor.exhausted {
        Seq::empty()
    } else {
        observed(log, cursor.next)
    }
}

/// The cursor after it has been polled against `log` until it yields nothing
/// more.
pub open spec fn drained(cursor: CursorView, log: Seq<InitStep>) -> CursorView
    decreases log.len() - cursor.next,
{
    if cursor.exhausted || cursor.next < 0 || cursor.next >= log.len() {
        cursor
    } else {
        drained(poll_step(cursor, log).0, log)
    }
}

/// A reader's position in the log of a [`PhaseBroadcaster`].
pub struct PhaseCursor {
    /// Whether the phase that was current at subscription is still to come.
    at_start: bool,
    /// Number of changes that came before the cursor's place in the log.
    seen: usize,
    exhausted: bool,
}

impl View for PhaseCursor {
    type V = CursorView;

    closed spec fn view(&self) -> CursorView {
        CursorView {
            next: if self.at_start {
                self.seen as int
            } else {
                self.seen + 1
            },
            exhausted: self.exhausted,
        }
    }
}

impl PhaseCursor {
    /// Whether the cursor has yielded `Done`.
    pub fn is_exhausted(&self) -> (exhausted: bool)
        ensures
            exhausted == self@.exhausted,
    {
        self.exhausted
    }

    /// Yields the next phase of `source` that this cursor has not seen, if
    /// there is one.  After `Done` has been yielded the cursor is exhausted.
    pub fn poll(&mut self, source: &PhaseBroadcaster) -> (found: PhasePoll)
        ensures
            (final(self)@, found) == poll_step(old(self)@, source@),
    {
        if self.exhausted {
            PhasePoll::Exhausted
        } else if self.at_start && self.seen <= source.changes.len() {
            let phase = source.entry(self.seen);
            self.at_start = false;
            self.exhausted = phase.is_done();
            PhasePoll::Ready(phase)
        } else if !self.at_start && self.seen < source.changes.len() {
            let phase = source.changes[self.seen];
            self.seen = self.seen + 1;
            self.exhausted = phase.is_done();
            PhasePoll::Ready(phase)
        } else {
            PhasePoll::Pending
        }
    }

    /// Polls until the cursor is pending or exhausted and appends what it
    /// yields to `sink`, in order.
    pub fn drain(&mut self, source: &PhaseBroadcaster, sink: &mut Vec<InitStep>)
        ensures
            final(sink)@ == old(sink)@ + remaining(old(self)@, source@),
            final(self)@ == drained(old(self)@, source@),
    {
        loop
            invariant
                old(sink)@ + remaining(old(self)@, source@) == sink@ + remaining(self@, source@),
                drained(old(self)@, source@) == drained(self@, source@),
            decreases
                    (if self@.exhausted {
                        0
                    } else {
                        1 + source@.len() - self@.next
                    }),
        {
            let ghost prior = self@;
            let ghost sunk = sink@;
            match self.poll(source) {
                PhasePoll::Ready(phase) => {
                    sink.push(phase);
                    proof {
                        assert(remaining(prior, source@) == seq![phase] + remaining(
                            self@,
                            source@,
                        ));
                        assert(sink@ + remaining(self@, source@) == sunk + remaining(
                            prior,
                            source@,
                        ));
                    }
                },
                _ => {
                    proof {
                        assert(sink@ + remaining(self@, source@) == sink@);
                    }
                    return ;
                },
            }
        }
    }
}

/// In a sequence that only moves forward, `Done` can only stand last.
pub proof fn lemma_done_is_last(phases: Seq<InitStep>, index: int)
    requires
        is_progression(phases),
        0 <= index < phases.len(),
        phases[index] == InitStep::Done,
    ensures
        index == phases.len() - 1,
{
    if index < phases.len() - 1 {
        assert(phases[index].rank() < phases[index + 1].rank());
    }
}

/// In a sequence that only moves forward, no phase occurs twice.
pub proof fn lemma_progression_occurs_once(phases: Seq<InitStep>, phase: InitStep)
    requires
        is_progression(phases),
    ensures
        occurrences(phases, phase) == if phases.contains(phase) {
            1nat
        } else {
            0nat
        },
    decreases phases.len(),
{
    if phases.len() > 0 {
        let front = phases.drop_last();
        assert(is_progression(front)) by {
            assert forall|i: int, j: int| 0 <= i < j < front.len() implies front[i].rank()
                < front[j].rank() by {
                assert(front[i] == phases[i] && front[j] == phases[j]);
            }
        }
        lemma_progression_occurs_once(front, phase);
        if front.contains(phase) {
            let i = choose|i: int| 0 <= i < front.len() && front[i] == phase;
            assert(phases[i] == phase);
            assert(phases[i].rank() < phases[phases.len() - 1].rank());
        } else if phases.contains(phase) {
            let i = choose|i: int| 0 <= i < phases.len() && phases[i] == phase;
            if i < phases.len() - 1 {
                assert(front[i] == phase);
            }
        } else {
            assert(phases.last() == phases[phases.len() - 1]);
        }
    }
}

/// A cursor on a log that only moves forward misses nothing: it yields the
/// whole log from the entry that was current when it subscribed.
pub proof fn lemma_observed_of_progression(log: Seq<InitStep>, from: int)
    requires
        is_progression(log),
        0 <= from <= log.len(),
    ensures
        observed(log, from) == log.subrange(from, log.len() as int),
    decreases log.len() - from,
{
    if from < log.len() {
        if log[from] == InitStep::Done {
            lemma_done_is_last(log, from);
        } else {
            lemma_observed_of_progression(log, from + 1);
        }
    }
}

/// What an observer sees of a log that only moves forward: phases in
/// startup order, none of them twice, and `Done` exactly once if the log has
/// reached it.  The observer may have subscribed at any entry `from`.
pub proof fn lemma_observer_sees_progression(log: Seq<InitStep>, from: int)
    requires
        is_progression(log),
        0 <= from < log.len(),
    ensures
        is_progression(observed(log, from)),
        occurrences(observed(log, from), InitStep::ServerWaiting) <= 1,
        occurrences(observed(log, from), InitStep::SqliteWaiting) <= 1,
        occurrences(observed(log, from), InitStep::Done) == if log.last() == InitStep::Done {
            1nat
        } else {
            0nat
        },
{
    let seen = observed(log, from);
    lemma_observed_of_progression(log, from);
    assert forall|i: int, j: int| 0 <= i < j < seen.len() implies seen[i].rank()
        < seen[j].rank() by {
        assert(seen[i] == log[from + i] && seen[j] == log[from + j]);
    }
    lemma_progression_occurs_once(seen, InitStep::ServerWaiting);
    lemma_progression_occurs_once(seen, InitStep::SqliteWaiting);
    lemma_progression_occurs_once(seen, InitStep::Done);
    if log.last() == InitStep::Done {
        assert(seen[seen.len() - 1] == log[log.len() - 1]);
    } else if seen.contains(InitStep::Done) {
        let i = choose|i: int| 0 <= i < seen.len() && seen[i] == InitStep::Done;
        assert(log[from + i] == InitStep::Done);
        lemma_done_is_last(log, from + i);
    }
}

/// An observer may read whenever it likes.  Reading a log to its end and
/// reading again after the log has grown yields, taken together, just what
/// one reading of the grown log yields: nothing is missed and nothing comes
/// twice.
pub proof fn lemma_rounds_miss_nothing(
    cursor: CursorView,
    earlier: Seq<InitStep>,
    later: Seq<InitStep>,
)
    requires
        earlier.len() <= later.len(),
        later.subrange(0, earlier.len() as int) == earlier,
    ensures
        remaining(cursor, earlier) + remaining(drained(cursor, earlier), later) == remaining(
            cursor,
            later,
        ),
        drained(drained(cursor, earlier), later) == drained(cursor, later),
    decreases earlier.len() - cursor.next,
{
    if cursor.exhausted || cursor.next < 0 || cursor.next >= earlier.len() {
        assert(remaining(cursor, earlier) == Seq::<InitStep>::empty());
        assert(Seq::<InitStep>::empty() + remaining(cursor, later) == remaining(cursor, later));
    } else {
        let entry = earlier[cursor.next];
        assert(later.subrange(0, earlier.len() as int)[cursor.next] == later[cursor.next]);
        let next = poll_step(cursor, earlier).0;
        assert(next == poll_step(cursor, later).0);
        if entry == InitStep::Done {
            assert(seq![InitStep::Done] + Seq::<InitStep>::empty() == seq![InitStep::Done]);
        } else {
            lemma_rounds_miss_nothing(next, earlier, later);
            assert((seq![entry] + remaining(next, earlier)) + remaining(drained(next, earlier), later)
                == seq![entry] + (remaining(next, earlier) + remaining(
                drained(next, earlier),
                later,
            )));
        }
    }
}

} // verus!
