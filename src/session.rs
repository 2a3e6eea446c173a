use crate::config::{Config, GridConfig};
use crate::grid::{Grid, Rect, TilePos};
use crate::keyboard::{KeyInput, KeyboardHook};
use crate::selection::{next_state, SelectionState, TileSelector};
use vstd::prelude::*;

verus! {

/// What the caller has to carry out after the session took a decision.
/// Window and monitor handles are passed as plain integers.
#[derive(Debug, Clone, Copy, PartialEq, Eq, Structural)]
pub enum SessionAction {
    Nothing,
    /// Place the overlay over the grid's usable area, hand it the grid,
    /// clear its highlight and show it.
    ShowGrid(Grid),
    /// Highlight the tile picked by the first key.
    HighlightTile(TilePos),
    /// Look up the usable area of this monitor and report it back through
    /// `enter_monitor_area`.
    QueryMonitor(usize),
    /// Move the window to the rectangle, then hide the overlay and clear its
    /// highlight.
    MoveWindow(usize, Rect),
    /// Hide the overlay and clear its highlight.
    HideOverlay,
}

/// The grid that a configuration lays over a usable area.
pub open spec fn grid_for(config: GridConfig, area: Rect) -> Grid {
    Grid { cols: config.cols, rows: config.rows, gap: config.gap, work_area: area }
}

/// A usable area was found, within the coordinate range a grid supports.
pub open spec fn usable(area: Option<Rect>) -> bool {
    area matches Some(a) && a.in_bounds()
}

/// `i` is the first place of `x` in `s`, or 0 when `x` is not in `s`.
pub open spec fn first_index_or_zero(s: Seq<usize>, x: usize, i: int) -> bool {
    if exists|j: int| 0 <= j < s.len() && s[j] == x {
        &&& 0 <= i < s.len()
        &&& s[i] == x
        &&& forall|j: int| 0 <= j < i ==> s[j] != x
    } else {
        i == 0
    }
}

/// The action that a selection state calls for once a grid key was fed.
pub open spec fn action_after_key(state: SelectionState, target: Option<usize>) -> SessionAction {
    match state {
        SelectionState::FirstKeyPressed(pos) => SessionAction::HighlightTile(pos),
        SelectionState::Complete(rect) => match target {
            Some(window) => SessionAction::MoveWindow(window, rect),
            None => SessionAction::HideOverlay,
        },
        _ => SessionAction::Nothing,
    }
}

/// One grid-selection session at a time: the window to move, the monitors
/// and the one shown, the selection in progress and the interceptor's flags.
/// The interceptor is active exactly while a session runs.
pub struct Session {
    pub config: Config,
    pub selector: Option<TileSelector>,
    pub target: Option<usize>,
    pub monitors: Vec<usize>,
    pub current_monitor_idx: usize,
    pub current_work_area: Option<Rect>,
    pub hook: KeyboardHook,
}

fn position_of(monitors: &Vec<usize>, monitor: usize) -> (r: usize)
    ensures
        first_index_or_zero(monitors@, monitor, r as int),
{
    let mut i: usize = 0;
    while i < monitors.len()
        invariant
            i <= monitors@.len(),
            forall|j: int| 0 <= j < i ==> monitors@[j] != monitor,
        decreases monitors@.len() - i,
    {
        if monitors[i] == monitor {
            return i;
        }
        i = i + 1;
    }
    0
}

impl Session {
    /// The selection's state and grid, when there is a selector.
    pub open spec fn selection(self) -> Option<(SelectionState, Grid)> {
        match self.selector {
            Some(s) => Some((s.current(), s.layout())),
            None => None,
        }
    }

    /// A valid grid configuration, a monitor index within the list, and a
    /// selection awaiting keys whenever the interceptor is active.
    pub open spec fn wf(self) -> bool {
        &&& self.config.grid.valid()
        &&& (self.current_monitor_idx == 0 || self.current_monitor_idx < self.monitors@.len())
        &&& self.hook.active ==> (self.selection() matches Some((state, _)) && (state is Idle
            || state is FirstKeyPressed))
    }

    /// No session running yet, and the interceptor neither installed nor
    /// active.
    pub fn new(config: Config) -> (s: Session)
        requires
            config.grid.valid(),
        ensures
            s.wf(),
            s.config == config,
            s.selector is None,
            s.target is None,
            s.monitors@.len() == 0,
            s.current_monitor_idx == 0,
            s.current_work_area is None,
            !s.hook.installed,
            !s.hook.active,
    {
        Session {
            config,
            selector: None,
            target: None,
            monitors: Vec::new(),
            current_monitor_idx: 0,
            current_work_area: None,
            hook: KeyboardHook::new(),
        }
    }

    /// Starts a selection on a usable area: a fresh grid and selector, and
    /// the interceptor active.
    fn show_overlay_on_work_area(&mut self, area: Rect) -> (r: SessionAction)
        requires
            old(self).wf(),
            area.in_bounds(),
        ensures
            final(self).wf(),
            final(self).selection() == Some(
                (SelectionState::Idle, grid_for(old(self).config.grid, area)),
            ),
            final(self).hook.active,
            final(self).hook.installed == old(self).hook.installed,
            final(self).config == old(self).config,
            final(self).target == old(self).target,
            final(self).monitors == old(self).monitors,
            final(self).current_monitor_idx == old(self).current_monitor_idx,
            final(self).current_work_area == old(self).current_work_area,
            r == SessionAction::ShowGrid(grid_for(old(self).config.grid, area)),
    {
        let grid = Grid::new(self.config.grid.cols, self.config.grid.rows, self.config.grid.gap, area);
        self.selector = Some(TileSelector::new(grid));
        self.hook.active = true;
        SessionAction::ShowGrid(grid)
    }

    /// Starts a session for the focused window, given what was found out
    /// about it: the window, every monitor, the monitor the window is on,
    /// and that monitor's usable area. Without a window nothing starts; the
    /// monitor shown is the window's, or the first if it is not listed.
    /// Without a usable area (or one beyond the coordinate range a grid
    /// supports) no selection starts.
    pub fn handle_hotkey(
        &mut self,
        target: Option<usize>,
        monitors: Vec<usize>,
        window_monitor: usize,
        work_area: Option<Rect>,
    ) -> (r: SessionAction)
        requires
            old(self).wf(),
        ensures
            final(self).wf(),
            final(self).target == target,
            final(self).config == old(self).config,
            final(self).hook.installed == old(self).hook.installed,
            target is None ==> {
                &&& final(self).monitors == old(self).monitors
                &&& final(self).current_monitor_idx == old(self).current_monitor_idx
                &&& final(self).current_work_area == old(self).current_work_area
                &&& final(self).selection() == old(self).selection()
                &&& final(self).hook.active == old(self).hook.active
                &&& r == SessionAction::Nothing
            },
            target is Some ==> {
                &&& final(self).monitors@ == monitors@
                &&& first_index_or_zero(monitors@, window_monitor, final(self).current_monitor_idx as int)
            },
            target is Some && usable(work_area) ==> {
                &&& final(self).current_work_area == work_area
                &&& final(self).selection() == Some(
                    (SelectionState::Idle, grid_for(old(self).config.grid, work_area->0)),
                )
                &&& final(self).hook.active
                &&& r == SessionAction::ShowGrid(grid_for(old(self).config.grid, work_area->0))
            },
            target is Some && !usable(work_area) ==> {
                &&& final(self).current_work_area == old(self).current_work_area
                &&& final(self).selection() == old(self).selection()
                &&& final(self).hook.active == old(self).hook.active
                &&& r == SessionAction::Nothing
            },
    {
        self.target = target;
        if target.is_none() {
            return SessionAction::Nothing;
        }
        self.monitors = monitors;
        self.current_monitor_idx = position_of(&self.monitors, window_monitor);
        match work_area {
            Some(area) => {
                if area.is_in_bounds() {
                    self.current_work_area = Some(area);
                    self.show_overlay_on_work_area(area)
                } else {
                    SessionAction::Nothing
                }
            },
            None => SessionAction::Nothing,
        }
    }
    /// Reacts to a classified key while a session runs; with no session
    /// running every key is ignored. Escape cancels the selection and ends
    /// the session. A grid key goes to the selection: a first tile is
    /// highlighted, a completed selection moves the window (when there is
    /// one) and ends the session. Tab moves on to the next monitor.
    pub fn handle_key_input(&mut self, input: KeyInput) -> (r: SessionAction)
        requires
            old(self).wf(),
        ensures
            final(self).wf(),
            final(self).config == old(self).config,
            final(self).target == old(self).target,
            final(self).monitors == old(self).monitors,
            final(self).current_work_area == old(self).current_work_area,
            final(self).hook.installed == old(self).hook.installed,
            !old(self).hook.active ==> {
                &&& final(self).current_monitor_idx == old(self).current_monitor_idx
                &&& final(self).selection() == old(self).selection()
                &&& !final(self).hook.active
                &&& r == SessionAction::Nothing
            },
            old(self).hook.active && input is Escape ==> {
                let (_, grid) = old(self).selection()->0;
                &&& final(self).current_monitor_idx == old(self).current_monitor_idx
                &&& final(self).selection() == Some((SelectionState::Cancelled, grid))
                &&& !final(self).hook.active
                &&& r == SessionAction::HideOverlay
            },
            old(self).hook.active && input is GridKey ==> {
                let (state, grid) = old(self).selection()->0;
                let next = next_state(grid, state, input->GridKey_0);
                &&& final(self).current_monitor_idx == old(self).current_monitor_idx
                &&& final(self).selection() == Some((next, grid))
                &&& final(self).hook.active == !(next is Complete)
                &&& r == action_after_key(next, old(self).target)
            },
            old(self).hook.active && input is Tab ==> {
                &&& final(self).selection() == old(self).selection()
                &&& final(self).hook.active
                &&& old(self).monitors@.len() <= 1 ==> {
                    &&& final(self).current_monitor_idx == old(self).current_monitor_idx
                    &&& r == SessionAction::Nothing
                }
                &&& old(self).monitors@.len() > 1 ==> {
                    &&& final(self).current_monitor_idx == (old(self).current_monitor_idx + 1)
                        % old(self).monitors@.len() as int
                    &&& r == SessionAction::QueryMonitor(
                        old(self).monitors@[final(self).current_monitor_idx as int],
                    )
                }
            },
            old(self).hook.active && input is Other ==> {
                &&& final(self).current_monitor_idx == old(self).current_monitor_idx
                &&& final(self).selection() == old(self).selection()
                &&& final(self).hook.active
                &&& r == SessionAction::Nothing
            },
    {
        if !self.hook.active {
            return SessionAction::Nothing;
        }
        match input {
            KeyInput::Escape => {
                if let Some(selector) = &mut self.selector {
                    selector.cancel();
                }
                self.hook.active = false;
                SessionAction::HideOverlay
            },
            KeyInput::GridKey(key) => {
                match &mut self.selector {
                    Some(selector) => {
                        let new_state = selector.handle_key(key);
                        match new_state {
                            SelectionState::FirstKeyPressed(pos) => SessionAction::HighlightTile(
                                pos,
                            ),
                            SelectionState::Complete(rect) => {
                                self.hook.active = false;
                                match self.target {
                                    Some(window) => SessionAction::MoveWindow(window, rect),
                                    None => SessionAction::HideOverlay,
                                }
                            },
                            _ => SessionAction::Nothing,
                        }
                    },
                    None => SessionAction::Nothing,
                }
            },
            KeyInput::Tab => self.switch_to_next_monitor(),
            KeyInput::Other => SessionAction::Nothing,
        }
    }

    /// With more than one monitor, moves on to the next one, wrapping after
    /// the last, and asks for its usable area.
    pub fn switch_to_next_monitor(&mut self) -> (r: SessionAction)
        requires
            old(self).wf(),
        ensures
            final(self).wf(),
            final(self).config == old(self).config,
            final(self).selection() == old(self).selection(),
            final(self).target == old(self).target,
            final(self).monitors == old(self).monitors,
            final(self).current_work_area == old(self).current_work_area,
            final(self).hook == old(self).hook,
            old(self).monitors@.len() <= 1 ==> {
                &&& final(self).current_monitor_idx == old(self).current_monitor_idx
                &&& r == SessionAction::Nothing
            },
            old(self).monitors@.len() > 1 ==> {
                &&& final(self).current_monitor_idx == (old(self).current_monitor_idx + 1)
                    % old(self).monitors@.len() as int
                &&& r == SessionAction::QueryMonitor(
                    old(self).monitors@[final(self).current_monitor_idx as int],
                )
            },
    {
        if self.monitors.len() <= 1 {
            return SessionAction::Nothing;
        }
        self.current_monitor_idx = (self.current_monitor_idx + 1) % self.monitors.len();
        SessionAction::QueryMonitor(self.monitors[self.current_monitor_idx])
    }

    /// Takes the usable area of the monitor moved to. While a session runs
    /// and the area is usable, the selection starts over on a grid for that
    /// area; otherwise nothing changes.
    pub fn enter_monitor_area(&mut self, work_area: Option<Rect>) -> (r: SessionAction)
        requires
            old(self).wf(),
        ensures
            final(self).wf(),
            final(self).config == old(self).config,
            final(self).target == old(self).target,
            final(self).monitors == old(self).monitors,
            final(self).current_monitor_idx == old(self).current_monitor_idx,
            final(self).hook == old(self).hook,
            old(self).hook.active && usable(work_area) ==> {
                &&& final(self).current_work_area == work_area
                &&& final(self).selection() == Some(
                    (SelectionState::Idle, grid_for(old(self).config.grid, work_area->0)),
                )
                &&& r == SessionAction::ShowGrid(grid_for(old(self).config.grid, work_area->0))
            },
            !(old(self).hook.active && usable(work_area)) ==> {
                &&& final(self).current_work_area == old(self).current_work_area
                &&& final(self).selection() == old(self).selection()
                &&& r == SessionAction::Nothing
            },
    {
        if !self.hook.active {
            return SessionAction::Nothing;
        }
        match work_area {
            Some(area) => {
                if area.is_in_bounds() {
                    self.current_work_area = Some(area);
                    if let Some(selector) = &mut self.selector {
                        selector.reset();
                    }
                    self.show_overlay_on_work_area(area)
                } else {
                    SessionAction::Nothing
                }
            },
            None => SessionAction::Nothing,
        }
    }

    /// Takes a new configuration; a session that runs keeps its grid.
    pub fn on_settings_saved(&mut self, config: Config)
        requires
            old(self).wf(),
            config.grid.valid(),
        ensures
            final(self).wf(),
            final(self).config == config,
            final(self).selection() == old(self).selection(),
            final(self).target == old(self).target,
            final(self).monitors == old(self).monitors,
            final(self).current_monitor_idx == old(self).current_monitor_idx,
            final(self).current_work_area == old(self).current_work_area,
            final(self).hook == old(self).hook,
    {
        self.config = config;
    }
}

} // verus!
