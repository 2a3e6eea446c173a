use tactile_win::grid::{Grid, Rect, TilePos};
use tactile_win::selection::{SelectionState, TileSelector};

fn test_grid() -> Grid {
    Grid::new(4, 2, 10, Rect { left: 0, top: 0, right: 1920, bottom: 1080 })
}

#[test]
fn test_single_tile_selection() {
    let mut selector = TileSelector::new(test_grid());

    // First Q
    let state = selector.handle_key('Q');
    assert!(matches!(state, SelectionState::FirstKeyPressed(_)));

    // Second Q (same key)
    let state = selector.handle_key('Q');
    assert!(matches!(state, SelectionState::Complete(_)));
}

#[test]
fn test_two_tile_selection() {
    let mut selector = TileSelector::new(test_grid());

    // First Q
    selector.handle_key('Q');

    // Second F (different key)
    let state = selector.handle_key('F');
    assert!(matches!(state, SelectionState::Complete(_)));
}

#[test]
fn test_cancel() {
    let mut selector = TileSelector::new(test_grid());

    selector.handle_key('Q');
    selector.cancel();

    assert_eq!(selector.state(), SelectionState::Cancelled);
}

#[test]
fn test_reset() {
    let mut selector = TileSelector::new(test_grid());

    selector.handle_key('Q');
    selector.handle_key('F');
    selector.reset();

    assert_eq!(selector.state(), SelectionState::Idle);
}

#[test]
fn same_key_twice_selects_that_tile() {
    let grid = test_grid();
    let mut selector = TileSelector::new(grid);
    let q = TilePos { col: 0, row: 0 };
    assert_eq!(selector.handle_key('Q'), SelectionState::FirstKeyPressed(q));
    assert_eq!(selector.first_tile(), Some(q));
    assert_eq!(selector.handle_key('Q'), SelectionState::Complete(grid.tile_rect(q)));
    assert_eq!(
        selector.state(),
        SelectionState::Complete(Rect { left: 10, top: 10, right: 477, bottom: 535 })
    );
    assert_eq!(selector.first_tile(), None);
}

#[test]
fn two_keys_select_spanning_rect() {
    let grid = test_grid();
    let mut selector = TileSelector::new(grid);
    assert_eq!(selector.handle_key('Q'), SelectionState::FirstKeyPressed(TilePos { col: 0, row: 0 }));
    let done = selector.handle_key('F');
    assert_eq!(
        done,
        SelectionState::Complete(
            grid.combine_tiles(TilePos { col: 0, row: 0 }, TilePos { col: 3, row: 1 })
        )
    );
    assert_eq!(done, SelectionState::Complete(Rect { left: 10, top: 10, right: 1908, bottom: 1070 }));
}

#[test]
fn unresolved_keys_are_ignored() {
    let mut selector = TileSelector::new(test_grid());
    assert_eq!(selector.handle_key('1'), SelectionState::Idle);
    assert_eq!(selector.handle_key('z'), SelectionState::Idle);
    let w = TilePos { col: 1, row: 0 };
    assert_eq!(selector.handle_key('w'), SelectionState::FirstKeyPressed(w));
    assert_eq!(selector.handle_key('t'), SelectionState::FirstKeyPressed(w));
    assert_eq!(selector.handle_key('%'), SelectionState::FirstKeyPressed(w));
}

#[test]
fn finished_selection_ignores_keys() {
    let mut selector = TileSelector::new(test_grid());
    selector.handle_key('a');
    let done = selector.handle_key('s');
    assert!(matches!(done, SelectionState::Complete(_)));
    assert_eq!(selector.handle_key('q'), done);
    assert_eq!(selector.handle_key('f'), done);
}

#[test]
fn cancel_from_every_state_sticks() {
    let prefixes: [&[char]; 4] = [&[], &['q'], &['q', 'f'], &['x']];
    for prefix in prefixes {
        let mut selector = TileSelector::new(test_grid());
        for &k in prefix {
            selector.handle_key(k);
        }
        selector.cancel();
        assert_eq!(selector.state(), SelectionState::Cancelled);
        for k in ['q', 'Q', 'f', 'a', '1', ','] {
            assert_eq!(selector.handle_key(k), SelectionState::Cancelled);
        }
        assert_eq!(selector.first_tile(), None);
    }
}

#[test]
fn reset_restarts_selection() {
    let mut selector = TileSelector::new(test_grid());
    selector.handle_key('q');
    selector.cancel();
    selector.reset();
    assert_eq!(selector.state(), SelectionState::Idle);
    assert_eq!(selector.handle_key('d'), SelectionState::FirstKeyPressed(TilePos { col: 2, row: 1 }));
}
