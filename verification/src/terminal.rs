//! Terminal handling decisions: giving history back when the inline
//! viewport shrinks, and owning the Windows console input mode.

use vstd::prelude::*;

verus! {

/// A screen rectangle, as the terminal library describes it.
#[derive(Clone, Copy, Debug, PartialEq, Eq, Structural)]
pub struct Rect {
    pub x: u16,
    pub y: u16,
    pub width: u16,
    pub height: u16,
}

/// What to do when the bottom-aligned viewport moves from one area to another.
#[derive(Clone, Copy, Debug, PartialEq, Eq, Structural)]
pub enum ContractionPlan {
    /// The viewport shrank downwards: clear from the old top, scroll the
    /// rows above the new top down by the height released, and put the
    /// cursor at the new top.
    Restore { clear_from_y: u16, scroll_region_end: u16, scroll_by: u16, cursor_y: u16 },
    /// Nothing to give back; the cursor goes to the higher of the two tops.
    Keep { cursor_y: u16 },
}

/// How a contracting viewport returns history to the rows it releases.
pub fn restore_history_on_contraction(previous: Rect, next: Rect) -> (res: ContractionPlan)
    ensures
        next.y > previous.y && next.height < previous.height ==> res == (ContractionPlan::Restore {
            clear_from_y: previous.y,
            scroll_region_end: next.y,
            scroll_by: (next.y - previous.y) as u16,
            cursor_y: next.y,
        }),
        !(next.y > previous.y && next.height < previous.height) ==> res == (ContractionPlan::Keep {
            cursor_y: if previous.y <= next.y { previous.y } else { next.y },
        }),
{
    if next.y > previous.y && next.height < previous.height {
        return ContractionPlan::Restore {
            clear_from_y: previous.y,
            scroll_region_end: next.y,
            scroll_by: next.y - previous.y,
            cursor_y: next.y,
        };
    }
    ContractionPlan::Keep { cursor_y: if previous.y <= next.y { previous.y } else { next.y } }
}

/// The console flag that routes input through virtual-terminal sequences.
pub const ENABLE_VIRTUAL_TERMINAL_INPUT: u32 = 0x0200;

/// Whether a console mode has virtual-terminal input on.
pub fn virtual_terminal_input(mode: u32) -> (res: bool)
    ensures
        res == ((mode & ENABLE_VIRTUAL_TERMINAL_INPUT) != 0),
{
    mode & ENABLE_VIRTUAL_TERMINAL_INPUT != 0
}

/// The mode with virtual-terminal input off and every other flag kept.
pub fn native_input_mode(mode: u32) -> (res: u32)
    ensures
        res == mode & !ENABLE_VIRTUAL_TERMINAL_INPUT,
        (res & ENABLE_VIRTUAL_TERMINAL_INPUT) == 0,
        res & !ENABLE_VIRTUAL_TERMINAL_INPUT == mode & !ENABLE_VIRTUAL_TERMINAL_INPUT,
{
    let res = mode & !ENABLE_VIRTUAL_TERMINAL_INPUT;
    assert((mode & !0x0200u32) & 0x0200u32 == 0) by (bit_vector);
    assert((mode & !0x0200u32) & !0x0200u32 == mode & !0x0200u32) by (bit_vector);
    res
}

/// The mode with virtual-terminal input as it initially was and every
/// other flag kept.
pub fn restored_input_mode(mode: u32, initially_enabled: bool) -> (res: u32)
    ensures
        initially_enabled ==> res == mode | ENABLE_VIRTUAL_TERMINAL_INPUT,
        !initially_enabled ==> res == mode & !ENABLE_VIRTUAL_TERMINAL_INPUT,
        ((res & ENABLE_VIRTUAL_TERMINAL_INPUT) != 0) == initially_enabled,
        res & !ENABLE_VIRTUAL_TERMINAL_INPUT == mode & !ENABLE_VIRTUAL_TERMINAL_INPUT,
{
    if initially_enabled {
        assert((mode | 0x0200u32) & 0x0200u32 != 0) by (bit_vector);
        assert((mode | 0x0200u32) & !0x0200u32 == mode & !0x0200u32) by (bit_vector);
        mode | ENABLE_VIRTUAL_TERMINAL_INPUT
    } else {
        assert((mode & !0x0200u32) & 0x0200u32 == 0) by (bit_vector);
        assert((mode & !0x0200u32) & !0x0200u32 == mode & !0x0200u32) by (bit_vector);
        mode & !ENABLE_VIRTUAL_TERMINAL_INPUT
    }
}

/// Who owns the console input mode: the virtual-terminal setting found
/// before the first change, once it is known.
pub struct InputModeOwner {
    initial: Option<bool>,
}

impl InputModeOwner {
    /// The setting found before the first change.
    pub closed spec fn spec_initial_setting(self) -> Option<bool> {
        self.initial
    }

    /// Nothing recorded yet.
    pub fn new() -> (res: InputModeOwner)
        ensures
            res.spec_initial_setting().is_none(),
    {
        InputModeOwner { initial: None }
    }

    /// Makes input native: remembers the setting it finds the first time,
    /// and gives the mode to set when it differs from the current one.
    pub fn ensure_native(&mut self, mode: u32) -> (res: Option<u32>)
        ensures
            final(self).spec_initial_setting() == match old(self).spec_initial_setting() {
                Some(o) => Some(o),
                None => Some((mode & ENABLE_VIRTUAL_TERMINAL_INPUT) != 0),
            },
            res == if mode & !ENABLE_VIRTUAL_TERMINAL_INPUT == mode {
                None::<u32>
            } else {
                Some(mode & !ENABLE_VIRTUAL_TERMINAL_INPUT)
            },
    {
        if self.initial.is_none() {
            self.initial = Some(virtual_terminal_input(mode));
        }
        let native = native_input_mode(mode);
        if native == mode { None } else { Some(native) }
    }

    /// The mode that restores the setting found first, when one was recorded
    /// and it differs from the current mode.
    pub fn restore(&self, mode: u32) -> (res: Option<u32>)
        ensures
            match self.spec_initial_setting() {
                None => res.is_none(),
                Some(o) => {
                    let restored = if o { mode | ENABLE_VIRTUAL_TERMINAL_INPUT } else { mode & !ENABLE_VIRTUAL_TERMINAL_INPUT };
                    res == if restored == mode { None::<u32> } else { Some(restored) }
                },
            },
    {
        match self.initial {
            None => None,
            Some(o) => {
                let restored = restored_input_mode(mode, o);
                if restored == mode { None } else { Some(restored) }
            },
        }
    }
}

/// What the terminal event stream does with the result of a poll once it
/// has checked the console input mode.
#[derive(Clone, Copy, Debug, PartialEq, Eq, Structural)]
pub enum PollAfterDriftCheck {
    /// Hand the result to the caller.
    Deliver,
    /// Drop the event read under the drifted mode and poll the fresh stream.
    PollAgain,
    /// Nothing is ready yet.
    Pending,
}

/// After a poll: when the input mode had drifted and was made native again
/// (the event stream was then replaced), an event that was ready is
/// dropped and the new stream polled, and a pending poll stays pending.
/// Otherwise the result is handed on as it is.
pub fn after_drift_check(mode_restored: bool, ready: bool) -> (res: PollAfterDriftCheck)
    ensures
        !mode_restored ==> res == PollAfterDriftCheck::Deliver,
        mode_restored && ready ==> res == PollAfterDriftCheck::PollAgain,
        mode_restored && !ready ==> res == PollAfterDriftCheck::Pending,
{
    if !mode_restored {
        PollAfterDriftCheck::Deliver
    } else if ready {
        PollAfterDriftCheck::PollAgain
    } else {
        PollAfterDriftCheck::Pending
    }
}

/// Making input native and then restoring it gives back the mode found
/// first: the flag returns to its initial state and no other flag moves.
pub proof fn lemma_native_then_restore_is_identity(mode: u32)
    ensures
        ((mode & ENABLE_VIRTUAL_TERMINAL_INPUT) != 0) ==> (mode & !ENABLE_VIRTUAL_TERMINAL_INPUT) | ENABLE_VIRTUAL_TERMINAL_INPUT == mode,
        ((mode & ENABLE_VIRTUAL_TERMINAL_INPUT) == 0) ==> (mode & !ENABLE_VIRTUAL_TERMINAL_INPUT) & !ENABLE_VIRTUAL_TERMINAL_INPUT == mode,
{
    assert(((mode & 0x0200u32) != 0) ==> (mode & !0x0200u32) | 0x0200u32 == mode) by (bit_vector);
    assert(((mode & 0x0200u32) == 0) ==> (mode & !0x0200u32) & !0x0200u32 == mode) by (bit_vector);
}

} // verus!
