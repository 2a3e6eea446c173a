use crate::grid::{Grid, Rect, TilePos};
use vstd::prelude::*;

verus! {

/// Where a two-key selection stands.
#[derive(Debug, Clone, Copy, PartialEq, Eq, Structural)]
pub enum SelectionState {
    Idle,
    FirstKeyPressed(TilePos),
    Complete(Rect),
    Cancelled,
}

/// The state after a key press: the first key that selects a tile marks it,
/// the second completes the selection with that tile's rectangle (same key)
/// or the rectangle spanning both tiles. A key that selects no tile changes
/// nothing, and a finished selection ignores every key.
pub open spec fn next_state(grid: Grid, state: SelectionState, key: char) -> SelectionState {
    match state {
        SelectionState::Idle => match grid.tile_of_key(key) {
            Some(pos) => SelectionState::FirstKeyPressed(pos),
            None => SelectionState::Idle,
        },
        SelectionState::FirstKeyPressed(first) => match grid.tile_of_key(key) {
            Some(second) => SelectionState::Complete(
                if first == second {
                    grid.rect_of_tile(first)
                } else {
                    grid.rect_of_tiles(first, second)
                },
            ),
            None => state,
        },
        SelectionState::Complete(_) | SelectionState::Cancelled => state,
    }
}

/// The state after each key of a sequence in turn.
pub open spec fn state_after(grid: Grid, state: SelectionState, keys: Seq<char>) -> SelectionState
    decreases keys.len(),
{
    if keys.len() == 0 {
        state
    } else {
        state_after(grid, next_state(grid, state, keys[0]), keys.drop_first())
    }
}

/// Turns key presses into a target rectangle on one grid.
pub struct TileSelector {
    state: SelectionState,
    grid: Grid,
}

impl TileSelector {
    #[verifier::type_invariant]
    spec fn inv(self) -> bool {
        &&& self.grid.wf()
        &&& self.state matches SelectionState::FirstKeyPressed(pos) ==> self.grid.contains(pos)
    }

    /// The current state.
    pub closed spec fn current(self) -> SelectionState {
        self.state
    }

    /// The grid that keys are resolved against.
    pub closed spec fn layout(self) -> Grid {
        self.grid
    }

    /// A selector waiting for its first key.
    pub fn new(grid: Grid) -> (s: TileSelector)
        requires
            grid.wf(),
        ensures
            s.current() == SelectionState::Idle,
            s.layout() == grid,
    {
        TileSelector { state: SelectionState::Idle, grid }
    }

    /// Feeds one key press and returns the new state.
    pub fn handle_key(&mut self, key: char) -> (r: SelectionState)
        ensures
            final(self).layout() == old(self).layout(),
            final(self).current() == next_state(old(self).layout(), old(self).current(), key),
            r == final(self).current(),
    {
        proof {
            use_type_invariant(&*self);
        }
        match self.state {
            SelectionState::Idle => {
                if let Some(pos) = self.grid.key_to_tile(key) {
                    self.state = SelectionState::FirstKeyPressed(pos);
                }
                self.state
            },
            SelectionState::FirstKeyPressed(first_pos) => {
                if let Some(second_pos) = self.grid.key_to_tile(key) {
                    let rect = if first_pos == second_pos {
                        self.grid.tile_rect(first_pos)
                    } else {
                        self.grid.combine_tiles(first_pos, second_pos)
                    };
                    self.state = SelectionState::Complete(rect);
                }
                self.state
            },
            SelectionState::Complete(_) | SelectionState::Cancelled => self.state,
        }
    }

    /// Abandons the selection, whatever its state.
    pub fn cancel(&mut self)
        ensures
            final(self).layout() == old(self).layout(),
            final(self).current() == SelectionState::Cancelled,
    {
        proof {
            use_type_invariant(&*self);
        }
        self.state = SelectionState::Cancelled;
    }

    /// Starts the selection over, whatever its state.
    pub fn reset(&mut self)
        ensures
            final(self).layout() == old(self).layout(),
            final(self).current() == SelectionState::Idle,
    {
        proof {
            use_type_invariant(&*self);
        }
        self.state = SelectionState::Idle;
    }

    pub fn state(&self) -> (r: SelectionState)
        ensures
            r == self.current(),
    {
        self.state
    }

    /// The tile marked by the first key, while the second is awaited.
    pub fn first_tile(&self) -> (r: Option<TilePos>)
        ensures
            r == (match self.current() {
                SelectionState::FirstKeyPressed(pos) => Some(pos),
                _ => None,
            }),
    {
        match self.state {
            SelectionState::FirstKeyPressed(pos) => Some(pos),
            _ => None,
        }
    }
}

/// A cancelled selection stays cancelled whatever keys follow.
pub proof fn lemma_cancelled_absorbs(grid: Grid, keys: Seq<char>)
    ensures
        state_after(grid, SelectionState::Cancelled, keys) == SelectionState::Cancelled,
    decreases keys.len(),
{
    if keys.len() > 0 {
        lemma_cancelled_absorbs(grid, keys.drop_first());
    }
}

} // verus!
