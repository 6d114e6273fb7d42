use vstd::prelude::*;

use crate::error::LoggerError;

verus! {

/// The states of the once-only setup of the shared logger: nothing set up yet
/// (or the last attempt failed), one caller setting up, set up.
pub enum LoggerHandleState {
    Unloaded,
    Locked,
    Ready,
}

/// What a caller of the once-only setup does next.
pub enum InitDecision {
    /// The value is set up: read it.
    ReadValue,
    /// This caller now holds the setup: run it, then report with `finish`.
    RunSetup,
    /// Another caller is setting up: wait, then look again.
    WaitForReady,
}

/// The slot of a value set up once and shared afterwards. Callers take
/// turns on it (the runtime holds it behind a lock) and run the setup itself
/// outside their turn.
pub struct OnceSlot<T> {
    state: LoggerHandleState,
    inner: Option<T>,
}

/// The slot in specifications: its state and its value.
pub type SlotView<T> = (LoggerHandleState, Option<T>);

impl<T> View for OnceSlot<T> {
    type V = SlotView<T>;

    open spec fn view(&self) -> SlotView<T> {
        self.slot_view()
    }
}

/// A slot is well formed when it holds a value exactly when it is `Ready`.
pub open spec fn slot_wf<T>(s: SlotView<T>) -> bool {
    (s.0 is Ready) == (s.1 is Some)
}

/// The slot after a caller's look at it, and what the caller does: read a
/// set-up value, take over the setup when none is set up or running, or wait
/// while another caller sets up.
pub open spec fn after_enter<T>(s: SlotView<T>) -> (SlotView<T>, InitDecision) {
    match s.0 {
        LoggerHandleState::Ready => (s, InitDecision::ReadValue),
        LoggerHandleState::Unloaded => ((LoggerHandleState::Locked, None), InitDecision::RunSetup),
        LoggerHandleState::Locked => (s, InitDecision::WaitForReady),
    }
}

/// The slot after the setting-up caller reports the outcome of the setup: a
/// value is published and the slot is `Ready`; an error is reported and the
/// slot is `Unloaded` again, so that a later caller tries anew. A report while
/// no setup runs changes nothing and is `Poisoned`.
pub open spec fn after_finish<T>(s: SlotView<T>, outcome: Result<T, LoggerError>) -> (SlotView<T>, Result<(), LoggerError>) {
    if s.0 is Locked {
        match outcome {
            Ok(v) => ((LoggerHandleState::Ready, Some(v)), Ok(())),
            Err(e) => ((LoggerHandleState::Unloaded, None), Err(e)),
        }
    } else {
        (s, Err(LoggerError::Poisoned))
    }
}

impl<T> OnceSlot<T> {
    pub closed spec fn slot_view(&self) -> SlotView<T> {
        (self.state, self.inner)
    }

    /// An empty slot: nothing set up, no setup running.
    pub fn new() -> (slot: Self)
        ensures
            slot@ == (LoggerHandleState::Unloaded, None::<T>),
            slot_wf(slot@),
    {
        OnceSlot { state: LoggerHandleState::Unloaded, inner: None }
    }

    /// A caller's turn: decides whether it reads, sets up, or waits.
    pub fn enter(&mut self) -> (decision: InitDecision)
        requires
            slot_wf(old(self)@),
        ensures
            slot_wf(final(self)@),
            (final(self)@, decision) == after_enter(old(self)@),
    {
        match self.state {
            LoggerHandleState::Ready => InitDecision::ReadValue,
            LoggerHandleState::Unloaded => {
                self.state = LoggerHandleState::Locked;
                InitDecision::RunSetup
            },
            LoggerHandleState::Locked => InitDecision::WaitForReady,
        }
    }

    /// The setting-up caller's report of the outcome of its setup.
    pub fn finish(&mut self, outcome: Result<T, LoggerError>) -> (res: Result<(), LoggerError>)
        requires
            slot_wf(old(self)@),
        ensures
            slot_wf(final(self)@),
            (final(self)@, res) == after_finish(old(self)@, outcome),
    {
        match self.state {
            LoggerHandleState::Locked => match outcome {
                Ok(v) => {
                    self.inner = Some(v);
                    self.state = LoggerHandleState::Ready;
                    Ok(())
                },
                Err(e) => {
                    self.state = LoggerHandleState::Unloaded;
                    Err(e)
                },
            },
            _ => Err(LoggerError::Poisoned),
        }
    }

    /// The set-up value; `Poisoned` when there is none. A well-formed `Ready`
    /// slot always has its value.
    pub fn value(&self) -> (res: Result<&T, LoggerError>)
        requires
            slot_wf(self@),
        ensures
            match self@.1 {
                Some(v) => (res matches Ok(r) && *r == v),
                None => (res matches Err(e) && e is Poisoned),
            },
            self@.0 is Ready ==> res is Ok,
    {
        match &self.inner {
            Some(v) => Ok(v),
            None => Err(LoggerError::Poisoned),
        }
    }
}

/// One turn taken on the slot.
pub enum SlotOp<T> {
    /// A caller looks at the slot (`enter`).
    Enter,
    /// The setting-up caller reports its outcome (`finish`).
    Finish(Result<T, LoggerError>),
}

/// The slot after one turn.
pub open spec fn apply_slot_op<T>(s: SlotView<T>, op: SlotOp<T>) -> SlotView<T> {
    match op {
        SlotOp::Enter => after_enter(s).0,
        SlotOp::Finish(outcome) => after_finish(s, outcome).0,
    }
}

/// Whether a turn starts a setup.
pub open spec fn starts_setup<T>(s: SlotView<T>, op: SlotOp<T>) -> bool {
    op is Enter && after_enter(s).1 is RunSetup
}

/// Whether a turn publishes a value.
pub open spec fn publishes<T>(s: SlotView<T>, op: SlotOp<T>) -> bool {
    s.0 is Locked && (op matches SlotOp::Finish(Ok(_)))
}

/// The slot after a sequence of turns.
pub open spec fn run_slot<T>(s: SlotView<T>, ops: Seq<SlotOp<T>>) -> SlotView<T>
    decreases ops.len(),
{
    if ops.len() == 0 {
        s
    } else {
        run_slot(apply_slot_op(s, ops[0]), ops.drop_first())
    }
}

/// How many turns of a sequence publish a value.
pub open spec fn publications<T>(s: SlotView<T>, ops: Seq<SlotOp<T>>) -> nat
    decreases ops.len(),
{
    if ops.len() == 0 {
        0
    } else {
        (if publishes(s, ops[0]) { 1nat } else { 0nat }) + publications(apply_slot_op(s, ops[0]), ops.drop_first())
    }
}

/// How many turns of a sequence start a setup.
pub open spec fn setups_started<T>(s: SlotView<T>, ops: Seq<SlotOp<T>>) -> nat
    decreases ops.len(),
{
    if ops.len() == 0 {
        0
    } else {
        (if starts_setup(s, ops[0]) { 1nat } else { 0nat }) + setups_started(apply_slot_op(s, ops[0]), ops.drop_first())
    }
}

/// How many turns of a sequence report a failed setup.
pub open spec fn failures<T>(s: SlotView<T>, ops: Seq<SlotOp<T>>) -> nat
    decreases ops.len(),
{
    if ops.len() == 0 {
        0
    } else {
        (if s.0 is Locked && (ops[0] matches SlotOp::Finish(Err(_))) { 1nat } else { 0nat })
            + failures(apply_slot_op(s, ops[0]), ops.drop_first())
    }
}

/// Each turn keeps the slot well formed and moves its state only from
/// `Unloaded` to `Locked`, from `Locked` to `Ready` (publishing the value
/// reported) or back to `Unloaded` (after a failure); a setup starts only from
/// `Unloaded`, so no two run at once.
pub proof fn lemma_slot_turn<T>(s: SlotView<T>, op: SlotOp<T>)
    requires
        slot_wf(s),
    ensures
        slot_wf(apply_slot_op(s, op)),
        apply_slot_op(s, op).0 == s.0 || (s.0 is Unloaded && apply_slot_op(s, op).0 is Locked) || (s.0 is Locked
            && apply_slot_op(s, op).0 is Ready) || (s.0 is Locked && apply_slot_op(s, op).0 is Unloaded),
        starts_setup(s, op) ==> s.0 is Unloaded,
        apply_slot_op(s, op).0 is Ready && !(s.0 is Ready) ==> (op matches SlotOp::Finish(Ok(v)) && apply_slot_op(s, op).1 == Some(v)),
{
}

/// Once set up, always the same value: from a `Ready` slot with value `v`, any
/// sequence of turns leaves it `Ready` with `v`, starts no setup and publishes
/// nothing.
pub proof fn lemma_ready_is_final<T>(v: T, ops: Seq<SlotOp<T>>)
    ensures
        run_slot((LoggerHandleState::Ready, Some(v)), ops) == (LoggerHandleState::Ready, Some(v)),
        setups_started((LoggerHandleState::Ready, Some(v)), ops) == 0,
        publications((LoggerHandleState::Ready, Some(v)), ops) == 0,
    decreases ops.len(),
{
    if ops.len() > 0 {
        lemma_ready_is_final(v, ops.drop_first());
    }
}

/// The value is published at most once, and every setup but the last one
/// started failed: over any sequence of turns from a well-formed slot, at most
/// one value is published (none if one already was), and the setups started
/// are at most the failures reported plus one.
pub proof fn lemma_setup_succeeds_at_most_once<T>(s: SlotView<T>, ops: Seq<SlotOp<T>>)
    requires
        slot_wf(s),
    ensures
        publications(s, ops) <= 1,
        s.0 is Ready ==> publications(s, ops) == 0,
        setups_started(s, ops) <= failures(s, ops) + 1,
        s.0 is Locked ==> setups_started(s, ops) <= failures(s, ops),
        slot_wf(run_slot(s, ops)),
    decreases ops.len(),
{
    if ops.len() > 0 {
        let next = apply_slot_op(s, ops[0]);
        lemma_slot_turn(s, ops[0]);
        lemma_setup_succeeds_at_most_once(next, ops.drop_first());
        if next.0 is Ready && !(s.0 is Ready) {
            lemma_ready_is_final(next.1->0, ops.drop_first());
        }
        if s.0 is Ready {
            lemma_ready_is_final(s.1->0, ops);
        }
    }
}

} // verus!
