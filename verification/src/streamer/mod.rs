pub mod ftdi_wrapper;
pub mod global_data;

use vstd::prelude::*;

use crate::raplibs::settings::{RunSettings, same_parameters};
use global_data::FRESH_NIBBLES_AFTER_RESET;

verus! {

/// The states of the per-board state machine.
#[derive(PartialEq, Eq, Structural, Clone, Copy, Debug)]
pub enum StreamerState {
    OpenConnection,
    ReadFlash,
    PrepareInitialization,
    Initalize,
    TempStabilization,
    WriteSettings,
    ReadStream,
    ReadTests,
    TempCompensation,
    CheckSettings,
    Termination,
    ErrorHandler,
}

/// How the work of a state ended.
#[derive(PartialEq, Eq, Structural, Clone, Copy, Debug)]
pub enum StepOutcome {
    /// The work of the state succeeded.
    Completed,
    /// The work of the state failed; in the error handler, closing or
    /// reopening the board failed.
    Failed,
    /// Shutdown was requested while the state was being handled.
    Cancelled,
}

/// The state that follows `s` when its work succeeds.
pub open spec fn successor(s: StreamerState) -> StreamerState {
    match s {
        StreamerState::OpenConnection => StreamerState::ReadFlash,
        StreamerState::ReadFlash => StreamerState::PrepareInitialization,
        StreamerState::PrepareInitialization => StreamerState::Initalize,
        StreamerState::Initalize => StreamerState::WriteSettings,
        StreamerState::WriteSettings => StreamerState::TempStabilization,
        StreamerState::TempStabilization => StreamerState::ReadStream,
        StreamerState::ReadStream => StreamerState::ReadTests,
        StreamerState::ReadTests => StreamerState::TempCompensation,
        StreamerState::TempCompensation => StreamerState::CheckSettings,
        StreamerState::CheckSettings => StreamerState::ReadStream,
        StreamerState::Termination => StreamerState::Termination,
        StreamerState::ErrorHandler => StreamerState::ReadFlash,
    }
}

/// The state that follows `s` after `outcome`.
pub open spec fn next_state_spec(s: StreamerState, outcome: StepOutcome) -> StreamerState {
    match outcome {
        StepOutcome::Cancelled => StreamerState::Termination,
        StepOutcome::Failed => if s == StreamerState::ErrorHandler || s
            == StreamerState::Termination {
            StreamerState::Termination
        } else {
            StreamerState::ErrorHandler
        },
        StepOutcome::Completed => successor(s),
    }
}

/// The state that follows `s` after `outcome`: success moves along the
/// board's life cycle, failure leads to the error handler (and, from the
/// error handler, to termination), and shutdown leads to termination.
/// Termination is never left.
pub fn next_state(s: StreamerState, outcome: StepOutcome) -> (r: StreamerState)
    ensures
        r == next_state_spec(s, outcome),
{
    match outcome {
        StepOutcome::Cancelled => StreamerState::Termination,
        StepOutcome::Failed => {
            if s == StreamerState::ErrorHandler || s == StreamerState::Termination {
                StreamerState::Termination
            } else {
                StreamerState::ErrorHandler
            }
        },
        StepOutcome::Completed => match s {
            StreamerState::OpenConnection => StreamerState::ReadFlash,
            StreamerState::ReadFlash => StreamerState::PrepareInitialization,
            StreamerState::PrepareInitialization => StreamerState::Initalize,
            StreamerState::Initalize => StreamerState::WriteSettings,
            StreamerState::WriteSettings => StreamerState::TempStabilization,
            StreamerState::TempStabilization => StreamerState::ReadStream,
            StreamerState::ReadStream => StreamerState::ReadTests,
            StreamerState::ReadTests => StreamerState::TempCompensation,
            StreamerState::TempCompensation => StreamerState::CheckSettings,
            StreamerState::CheckSettings => StreamerState::ReadStream,
            StreamerState::Termination => StreamerState::Termination,
            StreamerState::ErrorHandler => StreamerState::ReadFlash,
        },
    }
}

/// The state reached from `s` after `k` successful steps.
pub open spec fn after_completed_steps(s: StreamerState, k: nat) -> StreamerState
    decreases k,
{
    if k == 0 {
        s
    } else {
        after_completed_steps(successor(s), (k - 1) as nat)
    }
}

/// The states of steady operation: generate, read the test FIFOs, compensate
/// for temperature, pick up new settings.
pub open spec fn in_streaming_cycle(s: StreamerState) -> bool {
    s == StreamerState::ReadStream || s == StreamerState::ReadTests || s
        == StreamerState::TempCompensation || s == StreamerState::CheckSettings
}

/// A shutdown request ends the board's life cycle from any state.
pub proof fn law_cancellation_terminates(s: StreamerState)
    ensures
        next_state_spec(s, StepOutcome::Cancelled) == StreamerState::Termination,
{
}

/// Once terminated, the machine stays terminated, whatever happens.
pub proof fn law_termination_is_final(outcome: StepOutcome)
    ensures
        next_state_spec(StreamerState::Termination, outcome) == StreamerState::Termination,
{
}

/// A failure outside the error handler and termination leads to the error handler; a failure
/// to recover there ends the life cycle; a recovery reopens the board and
/// goes on by reading its flash.
pub proof fn law_failures_are_handled(s: StreamerState)
    ensures
        s != StreamerState::ErrorHandler && s != StreamerState::Termination ==> next_state_spec(
            s,
            StepOutcome::Failed,
        )
            == StreamerState::ErrorHandler,
        next_state_spec(StreamerState::ErrorHandler, StepOutcome::Failed)
            == StreamerState::Termination,
        next_state_spec(StreamerState::ErrorHandler, StepOutcome::Completed)
            == StreamerState::ReadFlash,
{
}

/// A board is opened once per life cycle: no step leads back to opening it;
/// recovery reopens the board itself and goes on by reading its flash.
pub proof fn law_open_connection_not_reentered(s: StreamerState, outcome: StepOutcome)
    ensures
        next_state_spec(s, outcome) != StreamerState::OpenConnection,
{
}

/// A board that opens and initializes without failure streams after six
/// steps, through each initialization state in turn.
pub proof fn law_startup_sequence()
    ensures
        after_completed_steps(StreamerState::OpenConnection, 1) == StreamerState::ReadFlash,
        after_completed_steps(StreamerState::OpenConnection, 2)
            == StreamerState::PrepareInitialization,
        after_completed_steps(StreamerState::OpenConnection, 3) == StreamerState::Initalize,
        after_completed_steps(StreamerState::OpenConnection, 4) == StreamerState::WriteSettings,
        after_completed_steps(StreamerState::OpenConnection, 5)
            == StreamerState::TempStabilization,
        after_completed_steps(StreamerState::OpenConnection, 6) == StreamerState::ReadStream,
{
    reveal_with_fuel(after_completed_steps, 7);
}

/// Steady operation, once reached, is never left while steps succeed, and
/// it comes back to generation every four steps.
pub proof fn law_streaming_cycle(s: StreamerState, k: nat)
    requires
        in_streaming_cycle(s),
    ensures
        in_streaming_cycle(after_completed_steps(s, k)),
        after_completed_steps(s, 4) == s,
    decreases k,
{
    reveal_with_fuel(after_completed_steps, 5);
    if k > 0 {
        law_streaming_cycle(successor(s), (k - 1) as nat);
    }
}

/// A 32-bit word read as a two's complement number.
pub open spec fn signed_word(w: u32) -> int {
    if w <= i32::MAX {
        w as int
    } else {
        w as int - 0x1_0000_0000
    }
}

/// A 32-bit word read as a two's complement number.
pub fn word_as_i32(w: u32) -> (r: i32)
    ensures
        r == signed_word(w),
{
    let r = w as i32;
    assert(w <= 0x7fff_ffff ==> (w as i32) as int == w as int) by (bit_vector);
    assert(w > 0x7fff_ffff ==> (w as i32) as int == (w as int) - 0x1_0000_0000) by (bit_vector);
    r
}

/// How far the generation counter moved from `last` to `now`; the counter
/// has 30 bits and wraps.
pub open spec fn counter_advance(last: i32, now: int) -> int {
    if now - last < 0 {
        now - last + 0x4000_0000
    } else {
        now - last
    }
}

/// What the board's state machine decides by itself: its current state,
/// the last value read from the generation counter, and the settings that
/// the board was last given.
pub struct BoardStateMachine {
    state: StreamerState,
    v_counter_last: i32,
    run_settings_local: RunSettings,
}

impl BoardStateMachine {
    pub closed spec fn current_state(&self) -> StreamerState {
        self.state
    }

    pub closed spec fn last_counter(&self) -> i32 {
        self.v_counter_last
    }

    pub closed spec fn local_settings(&self) -> RunSettings {
        self.run_settings_local
    }

    /// A machine about to open its board.
    pub fn new() -> (r: BoardStateMachine)
        ensures
            r.current_state() == StreamerState::OpenConnection,
            r.last_counter() == 0,
            r.local_settings()@ == crate::raplibs::settings::default_settings(),
    {
        BoardStateMachine {
            state: StreamerState::OpenConnection,
            v_counter_last: 0,
            run_settings_local: RunSettings::default(),
        }
    }

    pub fn state(&self) -> (r: StreamerState)
        ensures
            r == self.current_state(),
    {
        self.state
    }

    /// The life cycle is over: the board is to be stopped and closed.
    pub fn is_finished(&self) -> (r: bool)
        ensures
            r == (self.current_state() == StreamerState::Termination),
    {
        self.state == StreamerState::Termination
    }

    /// Moves on after the work of the current state ended with `outcome`.
    pub fn step(&mut self, outcome: StepOutcome)
        ensures
            final(self).current_state() == next_state_spec(old(self).current_state(), outcome),
            final(self).last_counter() == old(self).last_counter(),
            final(self).local_settings() == old(self).local_settings(),
    {
        self.state = next_state(self.state, outcome);
    }

    /// The last value read from the generation counter.
    pub fn v_counter_last(&self) -> (r: i32)
        ensures
            r == self.last_counter(),
    {
        self.v_counter_last
    }

    /// The settings that the board is driven with.
    pub fn settings(&self) -> (r: RunSettings)
        ensures
            r == self.local_settings(),
    {
        self.run_settings_local
    }

    /// Takes the settings in force when the board is opened.
    pub fn load_settings(&mut self, settings: RunSettings)
        ensures
            final(self).local_settings() == settings,
            final(self).current_state() == old(self).current_state(),
            final(self).last_counter() == old(self).last_counter(),
    {
        self.run_settings_local = settings;
    }

    /// Takes `new_settings` where they differ from the board's settings;
    /// `true` means that the board has to be given them.
    pub fn adopt_settings(&mut self, new_settings: RunSettings) -> (changed: bool)
        ensures
            changed == !same_parameters(old(self).local_settings()@, new_settings@),
            changed ==> final(self).local_settings() == new_settings,
            !changed ==> final(self).local_settings() == old(self).local_settings(),
            final(self).current_state() == old(self).current_state(),
            final(self).last_counter() == old(self).last_counter(),
    {
        if self.run_settings_local != new_settings {
            self.run_settings_local = new_settings;
            true
        } else {
            false
        }
    }

    /// Records a reading of the generation counter and returns how far it
    /// moved since the last reading.
    pub fn counter_reading(&mut self, word: u32) -> (diff: i32)
        requires
            i32::MIN <= signed_word(word) - old(self).last_counter() <= i32::MAX,
        ensures
            diff == counter_advance(old(self).last_counter(), signed_word(word)),
            final(self).last_counter() == signed_word(word),
            final(self).current_state() == old(self).current_state(),
            final(self).local_settings() == old(self).local_settings(),
    {
        let v_counter_diff: i32 = self.counter_advance_of(word);
        self.v_counter_last = word_as_i32(word);
        v_counter_diff
    }

    /// How far the generation counter moved from the last reading to `word`,
    /// without recording the reading.
    pub fn counter_advance_of(&self, word: u32) -> (diff: i32)
        requires
            i32::MIN <= signed_word(word) - self.last_counter() <= i32::MAX,
        ensures
            diff == counter_advance(self.last_counter(), signed_word(word)),
    {
        let v_counter: i32 = word_as_i32(word);
        let mut v_counter_diff: i32 = v_counter - self.v_counter_last;
        if v_counter_diff < 0 {
            v_counter_diff = v_counter_diff + 0x4000_0000;
        }
        v_counter_diff
    }

    /// One step of waiting for the end of generation: records the counter
    /// reading `word`, adds how far the counter moved to `total`, and tells
    /// whether the counter stood still, which ends the wait.
    pub fn generation_step(&mut self, word: u32, total: i32) -> (r: (i32, bool))
        requires
            i32::MIN <= signed_word(word) - old(self).last_counter() <= i32::MAX,
            i32::MIN <= total + counter_advance(old(self).last_counter(), signed_word(word))
                <= i32::MAX,
        ensures
            r.0 == total + counter_advance(old(self).last_counter(), signed_word(word)),
            r.1 == (counter_advance(old(self).last_counter(), signed_word(word)) == 0),
            final(self).last_counter() == signed_word(word),
            final(self).current_state() == old(self).current_state(),
            final(self).local_settings() == old(self).local_settings(),
    {
        let diff = self.counter_reading(word);
        (total + diff, diff == 0)
    }

}

/// What to do after a reset attempt whose generation count was `total`.
#[derive(PartialEq, Eq, Structural, Clone, Copy, Debug)]
pub enum NibbleReset {
    /// The board came back to its known state.
    Done,
    /// Reset again.
    Retry,
    /// The board did not come back to its known state in five attempts.
    GiveUp,
}

/// Attempts at resetting the generator to its known state.
pub const NIBBLE_RESET_ATTEMPTS: u32 = 5;

/// After attempt number `attempt` (counting from one) produced `total`
/// fresh nibbles: done when the count is the one after a sound reset, else
/// retry while attempts are left.
pub fn nibble_reset_decision(attempt: u32, total: i32) -> (r: NibbleReset)
    ensures
        total == FRESH_NIBBLES_AFTER_RESET ==> r == NibbleReset::Done,
        total != FRESH_NIBBLES_AFTER_RESET && attempt < NIBBLE_RESET_ATTEMPTS ==> r
            == NibbleReset::Retry,
        total != FRESH_NIBBLES_AFTER_RESET && attempt >= NIBBLE_RESET_ATTEMPTS ==> r
            == NibbleReset::GiveUp,
{
    if total == FRESH_NIBBLES_AFTER_RESET {
        NibbleReset::Done
    } else if attempt < NIBBLE_RESET_ATTEMPTS {
        NibbleReset::Retry
    } else {
        NibbleReset::GiveUp
    }
}

} // verus!
