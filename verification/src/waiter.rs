//! The wait operation as a state machine.
//!
//! One wait runs through at most three phases — write the prompt, discard
//! stale input, read records until a deliberate key press — and ends in one
//! of two terminal states. Each non-terminal state calls for exactly one
//! outside action; the driver performs it and feeds the outcome back
//! through [`step`]. The machine never performs I/O itself, so every
//! decision it makes is verified for every outcome the platform can report.

use vstd::prelude::*;

use crate::event::InputEvent;
use crate::event::event_satisfies;
use crate::event::satisfies_wait;

verus! {

/// How the standard-input handle was classified before any console call.
#[derive(Clone, Copy, Debug, PartialEq, Eq, Structural)]
pub enum HandleStatus {
    /// The handle equals the platform's invalid-handle sentinel.
    Invalid,
    /// The handle is a null reference: as with the sentinel, no console
    /// call can be made on it and the wait fails.
    Null,
    /// A valid handle that does not refer to a character-mode console
    /// device: output is redirected to a file or piped elsewhere.
    NotConsole,
    /// A valid handle referring to an interactive console.
    Console,
}

/// The device type the platform reports for a character-mode console.
pub const FILE_TYPE_CHAR: u16 = 0x0002;

/// A reported device type that means an interactive character-mode
/// console, as opposed to a disk file, a pipe or a redirected stream.
pub open spec fn is_console_type(file_type: u16) -> bool {
    file_type == FILE_TYPE_CHAR
}

/// Whether the device type reported for a valid standard-input handle is
/// the character-mode console type: only then is there a key to wait for.
pub fn is_console(file_type: u16) -> (r: bool)
    ensures
        r == is_console_type(file_type),
{
    file_type == FILE_TYPE_CHAR
}

/// Why a wait failed.
#[derive(Clone, Copy, Debug, PartialEq, Eq, Structural)]
pub enum WaitError {
    /// A platform call failed; `code` is the operating system's last-error
    /// code at that point.
    Os { code: u32 },
    /// A read call succeeded but reported `count` records instead of the
    /// exactly one it is asked for.
    BadReadCount { count: u32 },
}

/// The phases of one wait operation.
#[derive(Clone, Copy, Debug, PartialEq, Eq, Structural)]
pub enum WaitState {
    /// A non-empty prompt still has to be written and flushed to standard
    /// output before anything is read.
    Prompting,
    /// Input events queued before this point still have to be discarded,
    /// so that a stale key press is not mistaken for the user's answer.
    Flushing,
    /// Records are being read one at a time until a deliberate key press
    /// arrives.
    Reading,
    /// The wait is over: a deliberate key press arrived, or there was no
    /// console to wait on.
    Done,
    /// The wait failed; no further action is taken.
    Failed { error: WaitError },
}

/// The outside action a state calls for.
#[derive(Clone, Copy, Debug, PartialEq, Eq, Structural)]
pub enum Action {
    /// Write the prompt to standard output and flush it.
    WritePrompt,
    /// Discard every input event currently queued on the console.
    DiscardInput,
    /// Read exactly one input record, blocking until one is available.
    ReadEvent,
}

/// What came back from performing an action.
#[derive(Clone, Copy, Debug, PartialEq, Eq, Structural)]
pub enum Outcome {
    /// The write-and-flush or the discard succeeded.
    Succeeded,
    /// A read call returned, reporting `read` records and delivering
    /// `event`. The record is meaningful only when `read` is exactly one.
    Delivered { read: u32, event: InputEvent },
    /// The platform call failed; `code` is the last-error code.
    OsError { code: u32 },
}

/// The action that `s` calls for; terminal states call for none.
pub open spec fn action_of(s: WaitState) -> Option<Action> {
    match s {
        WaitState::Prompting => Some(Action::WritePrompt),
        WaitState::Flushing => Some(Action::DiscardInput),
        WaitState::Reading => Some(Action::ReadEvent),
        WaitState::Done => None,
        WaitState::Failed { .. } => None,
    }
}

/// The state the wait starts in, given the classification of the
/// standard-input handle, the operating system's last-error code at that
/// point, and the prompt. An invalid or null handle fails at once with
/// that code; a non-console device means there is nothing to wait for; a
/// console proceeds to the prompt, or straight to the discard when the
/// prompt is empty.
pub open spec fn initial_state(status: HandleStatus, last_error: u32, prompt_empty: bool) -> WaitState {
    match status {
        HandleStatus::Invalid => WaitState::Failed { error: WaitError::Os { code: last_error } },
        HandleStatus::Null => WaitState::Failed { error: WaitError::Os { code: last_error } },
        HandleStatus::NotConsole => WaitState::Done,
        HandleStatus::Console => if prompt_empty {
            WaitState::Flushing
        } else {
            WaitState::Prompting
        },
    }
}

/// The state after `s` receives outcome `o`. An outcome that does not
/// answer the action `s` calls for leaves the state unchanged; in
/// particular the two terminal states never move again.
pub open spec fn next(s: WaitState, o: Outcome) -> WaitState {
    match s {
        WaitState::Prompting => match o {
            Outcome::Succeeded => WaitState::Flushing,
            Outcome::OsError { code } => WaitState::Failed { error: WaitError::Os { code } },
            Outcome::Delivered { .. } => s,
        },
        WaitState::Flushing => match o {
            Outcome::Succeeded => WaitState::Reading,
            Outcome::OsError { code } => WaitState::Failed { error: WaitError::Os { code } },
            Outcome::Delivered { .. } => s,
        },
        WaitState::Reading => match o {
            Outcome::OsError { code } => WaitState::Failed { error: WaitError::Os { code } },
            Outcome::Delivered { read, event } => if read != 1 {
                WaitState::Failed { error: WaitError::BadReadCount { count: read } }
            } else if satisfies_wait(event) {
                WaitState::Done
            } else {
                WaitState::Reading
            },
            Outcome::Succeeded => s,
        },
        WaitState::Done => s,
        WaitState::Failed { .. } => s,
    }
}

/// The state after `s` has received the outcomes of `outs` in order.
pub open spec fn run(s: WaitState, outs: Seq<Outcome>) -> WaitState
    decreases outs.len(),
{
    if outs.len() == 0 {
        s
    } else {
        run(next(s, outs[0]), outs.skip(1))
    }
}

impl WaitState {
    /// The action this state calls for, or `None` once the wait is over.
    pub fn action(&self) -> (a: Option<Action>)
        ensures
            a == action_of(*self),
    {
        match self {
            WaitState::Prompting => Some(Action::WritePrompt),
            WaitState::Flushing => Some(Action::DiscardInput),
            WaitState::Reading => Some(Action::ReadEvent),
            WaitState::Done => None,
            WaitState::Failed { .. } => None,
        }
    }
}

/// Begins a wait: classifies where it starts from the handle's status, the
/// last-error code and the prompt text. The prompt itself is not kept: the
/// machine only needs to know whether there is one to write.
pub fn start(status: HandleStatus, last_error: u32, msg: &str) -> (s: WaitState)
    ensures
        s == initial_state(status, last_error, msg@.len() == 0),
{
    match status {
        HandleStatus::Invalid => WaitState::Failed { error: WaitError::Os { code: last_error } },
        HandleStatus::Null => WaitState::Failed { error: WaitError::Os { code: last_error } },
        HandleStatus::NotConsole => WaitState::Done,
        HandleStatus::Console => if msg.is_empty() {
            WaitState::Flushing
        } else {
            WaitState::Prompting
        },
    }
}

/// Advances the wait by one outcome.
pub fn step(s: &WaitState, o: &Outcome) -> (t: WaitState)
    ensures
        t == next(*s, *o),
{
    match s {
        WaitState::Prompting => match o {
            Outcome::Succeeded => WaitState::Flushing,
            Outcome::OsError { code } => WaitState::Failed { error: WaitError::Os { code: *code } },
            Outcome::Delivered { .. } => *s,
        },
        WaitState::Flushing => match o {
            Outcome::Succeeded => WaitState::Reading,
            Outcome::OsError { code } => WaitState::Failed { error: WaitError::Os { code: *code } },
            Outcome::Delivered { .. } => *s,
        },
        WaitState::Reading => match o {
            Outcome::OsError { code } => WaitState::Failed { error: WaitError::Os { code: *code } },
            Outcome::Delivered { read, event } => if *read != 1 {
                WaitState::Failed { error: WaitError::BadReadCount { count: *read } }
            } else if event_satisfies(event) {
                WaitState::Done
            } else {
                WaitState::Reading
            },
            Outcome::Succeeded => *s,
        },
        WaitState::Done => *s,
        WaitState::Failed { .. } => *s,
    }
}

/// Receiving one more outcome after a run is the same as running on the
/// extended sequence.
pub proof fn lemma_run_snoc(s: WaitState, outs: Seq<Outcome>, o: Outcome)
    ensures
        run(s, outs.push(o)) == next(run(s, outs), o),
    decreases outs.len(),
{
    if outs.len() == 0 {
        assert(outs.push(o)[0] == o);
        assert(outs.push(o).skip(1) =~= Seq::<Outcome>::empty());
        assert(run(s, outs.push(o)) == run(next(s, o), outs.push(o).skip(1)));
    } else {
        assert(outs.push(o)[0] == outs[0]);
        assert(outs.push(o).skip(1) =~= outs.skip(1).push(o));
        lemma_run_snoc(next(s, outs[0]), outs.skip(1), o);
        assert(run(s, outs.push(o)) == run(next(s, outs[0]), outs.skip(1).push(o)));
    }
}

/// Runs the reading phase over a finite queue of outcomes, as the blocking
/// loop does over the live console: outcomes are consumed strictly in
/// order, one record at a time, until one of them ends the phase; whatever
/// follows that one is left unread. Returns the state the phase ended in
/// and how many outcomes were consumed.
pub fn scan_events(outcomes: &Vec<Outcome>) -> (r: (WaitState, usize))
    ensures
        r.1 <= outcomes@.len(),
        r.0 == run(WaitState::Reading, outcomes@.take(r.1 as int)),
        forall|j: int| 0 <= j < r.1 as int - 1 ==> next(WaitState::Reading, outcomes@[j]) is Reading,
        r.0 is Reading ==> r.1 == outcomes@.len(),
        !(r.0 is Reading) ==> r.1 >= 1 && r.0 == next(WaitState::Reading, outcomes@[r.1 - 1]),
{
    let mut i: usize = 0;
    while i < outcomes.len()
        invariant
            i <= outcomes@.len(),
            run(WaitState::Reading, outcomes@.take(i as int)) == WaitState::Reading,
            forall|j: int| 0 <= j < i as int ==> next(WaitState::Reading, outcomes@[j]) is Reading,
        decreases outcomes@.len() - i,
    {
        let t = step(&WaitState::Reading, &outcomes[i]);
        proof {
            lemma_run_snoc(WaitState::Reading, outcomes@.take(i as int), outcomes@[i as int]);
            assert(outcomes@.take(i as int).push(outcomes@[i as int]) =~= outcomes@.take(
                i as int + 1,
            ));
        }
        i = i + 1;
        match t {
            WaitState::Reading => {},
            _ => {
                return (t, i);
            },
        }
    }
    proof {
        assert(outcomes@.take(i as int) =~= outcomes@);
    }
    (WaitState::Reading, i)
}

/// Once the wait is over it stays over: a terminal state absorbs every
/// further outcome and calls for no action.
pub proof fn lemma_terminal_absorbs(s: WaitState, outs: Seq<Outcome>)
    requires
        action_of(s) is None,
    ensures
        run(s, outs) == s,
    decreases outs.len(),
{
    if outs.len() > 0 {
        lemma_terminal_absorbs(s, outs.skip(1));
    }
}

/// A standard-input handle that is the invalid-handle sentinel or a null
/// reference fails the wait at once with the platform's last-error code;
/// whatever happens afterwards, the machine never calls for a prompt write
/// or a read.
pub proof fn lemma_bad_handle_fails(
    status: HandleStatus,
    last_error: u32,
    prompt_empty: bool,
    outs: Seq<Outcome>,
)
    requires
        status is Invalid || status is Null,
    ensures
        initial_state(status, last_error, prompt_empty) == (WaitState::Failed {
            error: WaitError::Os { code: last_error },
        }),
        run(initial_state(status, last_error, prompt_empty), outs) == initial_state(
            status,
            last_error,
            prompt_empty,
        ),
        action_of(run(initial_state(status, last_error, prompt_empty), outs)) is None,
{
    lemma_terminal_absorbs(initial_state(status, last_error, prompt_empty), outs);
}

/// A valid handle that does not refer to a console ends the wait
/// successfully at once: the machine is born in its success state and
/// never calls for a prompt write or a read.
pub proof fn lemma_no_console_succeeds(last_error: u32, prompt_empty: bool, outs: Seq<Outcome>)
    ensures
        initial_state(HandleStatus::NotConsole, last_error, prompt_empty) == WaitState::Done,
        run(initial_state(HandleStatus::NotConsole, last_error, prompt_empty), outs)
            == WaitState::Done,
        action_of(run(initial_state(HandleStatus::NotConsole, last_error, prompt_empty), outs))
            is None,
{
    lemma_terminal_absorbs(initial_state(HandleStatus::NotConsole, last_error, prompt_empty), outs);
}

/// No outcome moves the machine into the prompting phase: the prompt is
/// written at most once, and never after discarding or reading has begun.
pub proof fn lemma_prompting_unreachable(s: WaitState, outs: Seq<Outcome>)
    requires
        !(s is Prompting),
    ensures
        !(run(s, outs) is Prompting),
    decreases outs.len(),
{
    if outs.len() > 0 {
        lemma_prompting_unreachable(next(s, outs[0]), outs.skip(1));
    }
}

/// With an empty prompt no prompt write is ever called for: on a console
/// the wait starts at the discard, and no later outcome brings the
/// prompting phase back.
pub proof fn lemma_empty_prompt_never_writes(status: HandleStatus, last_error: u32, outs: Seq<Outcome>)
    ensures
        !(initial_state(status, last_error, true) is Prompting),
        action_of(run(initial_state(status, last_error, true), outs)) != Some(
            Action::WritePrompt,
        ),
{
    lemma_prompting_unreachable(initial_state(status, last_error, true), outs);
}

/// A run that leaves the prompting or the flushing phase otherwise than by
/// failing consumed a success outcome while still in that phase: the
/// pending write or discard was acknowledged before the wait moved on.
pub proof fn lemma_phase_needs_success(s: WaitState, outs: Seq<Outcome>)
    requires
        s is Prompting || s is Flushing,
        run(s, outs) != s,
        !(run(s, outs) is Failed),
    ensures
        exists|i: int|
            0 <= i < outs.len() && outs[i] is Succeeded && run(s, outs.take(i)) == s,
    decreases outs.len(),
{
    let o = outs[0];
    if o is Succeeded {
        assert(outs.take(0) =~= Seq::<Outcome>::empty());
        assert(0 <= 0 < outs.len() && outs[0] is Succeeded && run(s, outs.take(0)) == s);
    } else if o is OsError {
        lemma_terminal_absorbs(next(s, o), outs.skip(1));
        assert(false);
    } else {
        assert(next(s, o) == s);
        lemma_phase_needs_success(s, outs.skip(1));
        let i0 = choose|i: int|
            0 <= i < outs.skip(1).len() && outs.skip(1)[i] is Succeeded && run(
                s,
                outs.skip(1).take(i),
            ) == s;
        assert(outs.take(i0 + 1)[0] == outs[0]);
        assert(outs.take(i0 + 1).skip(1) =~= outs.skip(1).take(i0));
        assert(run(s, outs.take(i0 + 1)) == run(s, outs.skip(1).take(i0)));
        assert(outs[i0 + 1] == outs.skip(1)[i0]);
        assert(0 <= i0 + 1 < outs.len() && outs[i0 + 1] is Succeeded && run(s, outs.take(i0 + 1))
            == s);
    }
}

/// The prompt is written and flushed before any record is read: a run from
/// the prompting phase that goes on to discard or read consumed a
/// successful write-and-flush outcome first, while the prompt write was
/// still the pending action.
pub proof fn lemma_prompt_written_before_reading(outs: Seq<Outcome>)
    requires
        run(WaitState::Prompting, outs) is Flushing || run(WaitState::Prompting, outs) is Reading
            || run(WaitState::Prompting, outs) is Done,
    ensures
        exists|i: int|
            0 <= i < outs.len() && outs[i] is Succeeded && run(WaitState::Prompting, outs.take(i))
                == WaitState::Prompting,
{
    lemma_phase_needs_success(WaitState::Prompting, outs);
}

/// Stale input is discarded before any record is read: a run from the
/// flushing phase that goes on to read consumed a successful discard
/// outcome first, while the discard was still the pending action. Records
/// delivered while the discard is pending answer no action and leave the
/// machine unmoved, so an event queued before the discard can never be the
/// one that satisfies the wait.
pub proof fn lemma_discard_acknowledged_before_reading(outs: Seq<Outcome>)
    requires
        run(WaitState::Flushing, outs) is Reading || run(WaitState::Flushing, outs) is Done,
    ensures
        exists|i: int|
            0 <= i < outs.len() && outs[i] is Succeeded && run(WaitState::Flushing, outs.take(i))
                == WaitState::Flushing,
{
    lemma_phase_needs_success(WaitState::Flushing, outs);
}

/// A key release, a pure-modifier key press, a non-key record: none of
/// them ends the reading phase. A queue made only of such one-record
/// deliveries leaves the machine still waiting.
pub proof fn lemma_nonqualifying_events_keep_waiting(outs: Seq<Outcome>)
    requires
        forall|i: int|
            0 <= i < outs.len() ==> (#[trigger] outs[i] matches Outcome::Delivered {
                read,
                event,
            } && read == 1 && !satisfies_wait(event)),
    ensures
        run(WaitState::Reading, outs) is Reading,
    decreases outs.len(),
{
    if outs.len() > 0 {
        assert(next(WaitState::Reading, outs[0]) == WaitState::Reading);
        assert(forall|i: int|
            0 <= i < outs.skip(1).len() ==> #[trigger] outs.skip(1)[i] == outs[i + 1]);
        lemma_nonqualifying_events_keep_waiting(outs.skip(1));
    }
}

/// The first deliberate key press ends the wait: when every earlier
/// outcome delivered one non-qualifying record and outcome `i` delivers
/// one qualifying record, the reading phase is still waiting just before
/// outcome `i` and completes exactly upon consuming it.
pub proof fn lemma_first_qualifying_key_ends_wait(outs: Seq<Outcome>, i: int)
    requires
        0 <= i < outs.len(),
        outs[i] matches Outcome::Delivered { read, event } && read == 1 && satisfies_wait(event),
        forall|j: int|
            0 <= j < i ==> (#[trigger] outs[j] matches Outcome::Delivered { read, event } && read
                == 1 && !satisfies_wait(event)),
    ensures
        run(WaitState::Reading, outs.take(i)) is Reading,
        run(WaitState::Reading, outs.take(i + 1)) is Done,
{
    lemma_nonqualifying_events_keep_waiting(outs.take(i));
    lemma_run_snoc(WaitState::Reading, outs.take(i), outs[i]);
    assert(outs.take(i).push(outs[i]) =~= outs.take(i + 1));
    assert(next(WaitState::Reading, outs[i]) is Done);
}

/// A read call that fails, or one that reports a record count other than
/// one, fails the wait with the corresponding error.
pub proof fn lemma_bad_read_fails(o: Outcome)
    ensures
        o matches Outcome::OsError { code } ==> next(WaitState::Reading, o) == (WaitState::Failed {
            error: WaitError::Os { code },
        }),
        o matches Outcome::Delivered { read, event } ==> read != 1 ==> next(WaitState::Reading, o)
            == (WaitState::Failed { error: WaitError::BadReadCount { count: read } }),
{
}

/// The overall result of a finished wait: success when a deliberate key
/// arrived or there was no console, the recorded error otherwise.
pub fn finish(s: &WaitState) -> (r: Result<(), WaitError>)
    requires
        action_of(*s) is None,
    ensures
        *s is Done ==> r == Result::<(), WaitError>::Ok(()),
        (*s) matches WaitState::Failed { error } ==> r == Result::<(), WaitError>::Err(error),
{
    match s {
        WaitState::Failed { error } => Err(*error),
        _ => Ok(()),
    }
}

} // verus!
