use crate::structs::coord::Coord;
use crate::structs::small_rect::SmallRect;
use vstd::prelude::*;

verus! {

/// Information for a console selection. It has the fields of the native
/// `CONSOLE_SELECTION_INFO`.
#[derive(Debug, Copy, Clone, Eq, PartialEq)]
pub struct ConsoleSelectionInfo {
    /// The selection indicator
    pub selection_indicator: SelectionState,
    /// Specifies the selection anchor, in characters.
    pub selection_anchor: Coord,
    /// Specifies the selection rectangle.
    pub selection_rect: SmallRect,
}

/// The selection indicator state
#[derive(Debug, Copy, Clone, Eq, PartialEq)]
pub struct SelectionState(pub u32);

impl SelectionState {
    /// No selection
    pub const CONSOLE_NO_SELECTION: u32 = 0x0000;

    /// Selection has begun
    pub const CONSOLE_SELECTION_IN_PROGRESS: u32 = 0x0001;

    /// Selection rectangle is not empty
    pub const CONSOLE_SELECTION_NOT_EMPTY: u32 = 0x0002;

    /// Selecting with the mouse
    pub const CONSOLE_MOUSE_SELECTION: u32 = 0x0004;

    /// Mouse is down
    pub const CONSOLE_MOUSE_DOWN: u32 = 0x0008;

    /// The raw state, for contracts.
    pub open spec fn bits(self) -> u32 {
        self.0
    }

    /// Whether the raw state has a bit in common with `state`.
    pub open spec fn holds(self, state: u32) -> bool {
        (self.0 & state) != 0
    }

    /// Gets the state of the selection.
    #[inline]
    pub fn get_state(&self) -> (r: u32)
        ensures
            r == self.bits(),
    {
        self.0
    }

    /// Checks if the selection have the specified state.
    #[inline]
    pub fn has_state(&self, state: u32) -> (r: bool)
        ensures
            r == self.holds(state),
    {
        (self.0 & state) != 0
    }

    /// Checks if there is not selection.
    #[inline]
    pub fn no_selection(&self) -> (r: bool)
        ensures
            r == (self.bits() == 0),
    {
        self.0 == SelectionState::CONSOLE_NO_SELECTION
    }

    /// Checks if the selection has begun.
    #[inline]
    pub fn selection_in_progress(&self) -> (r: bool)
        ensures
            r == self.holds(0x0001),
    {
        self.has_state(SelectionState::CONSOLE_SELECTION_IN_PROGRESS)
    }

    /// Checks if the selection rect is not empty.
    #[inline]
    pub fn selection_not_empty(&self) -> (r: bool)
        ensures
            r == self.holds(0x0002),
    {
        self.has_state(SelectionState::CONSOLE_SELECTION_NOT_EMPTY)
    }

    /// Checks if is selecting with the mouse.
    #[inline]
    pub fn mouse_selection(&self) -> (r: bool)
        ensures
            r == self.holds(0x0004),
    {
        self.has_state(SelectionState::CONSOLE_MOUSE_SELECTION)
    }

    /// Checks if the mouse button is down.
    #[inline]
    pub fn is_mouse_down(&self) -> (r: bool)
        ensures
            r == self.holds(0x0008),
    {
        self.has_state(SelectionState::CONSOLE_MOUSE_DOWN)
    }
}

} // verus!
