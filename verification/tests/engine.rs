use tetris::shape::Pos;
use tetris::{CellLook, Direction, Kind, Tetris};

fn full_view(t: &Tetris) -> (bool, Vec<Pos>, Vec<Option<Kind>>, Vec<bool>, Vec<bool>, Option<tetris::Shape>) {
    let positions = t.iter_positions();
    let gets: Vec<Option<Kind>> = positions.iter().map(|p| t.get(*p)).collect();
    let at_piece: Vec<bool> = positions.iter().map(|p| t.is_current_shape_at_position(*p)).collect();
    let at_locked: Vec<bool> = positions.iter().map(|p| t.is_colliding_with_position(*p)).collect();
    (t.is_lost(), positions, gets, at_piece, at_locked, t.predict_landing_position())
}

fn run_until_lost(t: &mut Tetris, max_ticks: usize) -> usize {
    let mut n = 0;
    while !t.is_lost() {
        assert!(n < max_ticks, "game should have been lost by now");
        t.tick();
        n += 1;
    }
    n
}

#[test]
fn new_game_runs_with_first_piece_spawned() {
    let t = Tetris::new(10, 20);
    assert!(!t.is_lost());
    let s = t.current.expect("a running game has an active piece");
    assert_eq!(s.kind, Kind::I);
    assert_eq!(s.rot, 0);
    assert_eq!(s.anchor, Pos { col: 3, row: 0 });
}

#[test]
fn iter_positions_is_row_major_over_the_whole_extent() {
    let t = Tetris::new(10, 20);
    let ps = t.iter_positions();
    assert_eq!(ps.len(), 200);
    assert_eq!(ps[0], Pos { col: 0, row: 0 });
    assert_eq!(ps[199], Pos { col: 9, row: 19 });
    for (i, p) in ps.iter().enumerate() {
        assert_eq!(*p, Pos { col: (i % 10) as i32, row: (i / 10) as i32 });
    }
}

#[test]
fn get_reports_exactly_the_spawned_piece() {
    let t = Tetris::new(10, 20);
    let piece_cells = [
        Pos { col: 3, row: 1 },
        Pos { col: 4, row: 1 },
        Pos { col: 5, row: 1 },
        Pos { col: 6, row: 1 },
    ];
    for p in t.iter_positions() {
        let v = t.get(p);
        if piece_cells.contains(&p) {
            assert_eq!(v, Some(Kind::I));
        } else {
            assert_eq!(v, None);
        }
    }
}

#[test]
fn get_is_total_over_every_position() {
    let t = Tetris::new(7, 9);
    let mut occupied = 0;
    for p in t.iter_positions() {
        match t.get(p) {
            Some(_) => occupied += 1,
            None => {}
        }
    }
    assert_eq!(occupied, 4);
}

#[test]
fn shift_left_at_the_wall_is_rejected() {
    // In a 4-wide field the first piece spawns with its leftmost cell in
    // column 0.
    let mut t = Tetris::new(4, 6);
    let before = t.current.expect("active piece");
    assert!(t.is_current_shape_at_position(Pos { col: 0, row: 1 }));
    t.shift(Direction::Left);
    assert_eq!(t.current, Some(before));
}

#[test]
fn shift_right_at_the_wall_is_rejected() {
    let mut t = Tetris::new(4, 6);
    let before = t.current.expect("active piece");
    t.shift(Direction::Right);
    assert_eq!(t.current, Some(before));
}

#[test]
fn shift_moves_one_column_when_free() {
    let mut t = Tetris::new(10, 20);
    t.shift(Direction::Right);
    assert_eq!(t.current.unwrap().anchor, Pos { col: 4, row: 0 });
    t.shift(Direction::Left);
    t.shift(Direction::Left);
    assert_eq!(t.current.unwrap().anchor, Pos { col: 2, row: 0 });
}

#[test]
fn rotate_blocked_by_the_floor_keeps_the_rotation_state() {
    // A 2-tall field holds the flat piece but not its upright turn.
    let mut t = Tetris::new(4, 2);
    assert!(!t.is_lost());
    assert_eq!(t.current.unwrap().rot, 0);
    t.rotate();
    assert_eq!(t.current.unwrap().rot, 0);
}

#[test]
fn rotate_advances_the_rotation_state_when_free() {
    let mut t = Tetris::new(10, 20);
    let before = t.current.unwrap();
    t.rotate();
    let after = t.current.unwrap();
    assert_eq!(after.rot, 1);
    assert_eq!(after.kind, before.kind);
    assert_eq!(after.anchor, before.anchor);
    t.rotate();
    t.rotate();
    t.rotate();
    assert_eq!(t.current.unwrap().rot, 0);
}

#[test]
fn tick_moves_the_piece_down_one_row() {
    let mut t = Tetris::new(10, 20);
    let before = t.current.unwrap();
    t.tick();
    let after = t.current.unwrap();
    assert_eq!(after.anchor, Pos { col: before.anchor.col, row: before.anchor.row + 1 });
    assert_eq!(after.kind, before.kind);
    assert_eq!(after.rot, before.rot);
}

#[test]
fn tick_locks_a_blocked_piece_and_spawns_the_next_kind() {
    // 4 x 6 field: the flat piece spawns on row 1 and can fall four times;
    // the fifth tick locks it on the bottom row and spawns the next kind.
    let mut t = Tetris::new(4, 6);
    for _ in 0..4 {
        t.tick();
        assert_eq!(t.current.unwrap().kind, Kind::I);
    }
    assert_eq!(t.current.unwrap().anchor, Pos { col: 0, row: 4 });
    t.tick();
    assert!(!t.is_lost());
    assert_eq!(t.current.unwrap().kind, Kind::O);
    for col in 0..4 {
        assert!(t.is_colliding_with_position(Pos { col, row: 5 }));
        assert_eq!(t.get(Pos { col, row: 5 }), Some(Kind::I));
    }
    for col in 0..4 {
        assert!(!t.is_colliding_with_position(Pos { col, row: 4 }));
    }
}

#[test]
fn repeated_ticks_lock_pieces_and_eventually_lose() {
    let mut t = Tetris::new(4, 6);
    // The first lock happens while the game is still running.
    let mut ticks = 0;
    while !(0..4).any(|col| t.is_colliding_with_position(Pos { col, row: 5 })) {
        assert!(ticks < 100, "a piece should have locked by now");
        assert!(!t.is_lost());
        t.tick();
        ticks += 1;
    }
    assert!(!t.is_lost());
    // Piling pieces into a 4 x 6 field must end the game; the loss comes
    // only when a fresh spawn immediately collides, so locked cells exist.
    run_until_lost(&mut t, 1000);
    assert!(t.is_lost());
    assert!(t.current.is_none());
    let occupied = t
        .iter_positions()
        .into_iter()
        .filter(|p| t.is_colliding_with_position(*p))
        .count();
    assert!(occupied >= 4);
}

#[test]
fn predict_landing_is_stable_and_does_not_mutate() {
    let mut t = Tetris::new(10, 20);
    t.tick();
    t.shift(Direction::Right);
    let before = full_view(&t);
    let l1 = t.predict_landing_position();
    let l2 = t.predict_landing_position();
    assert_eq!(l1, l2);
    let after = full_view(&t);
    assert_eq!(before, after);
}

#[test]
fn predict_landing_rests_on_the_floor() {
    let t = Tetris::new(10, 20);
    let l = t.predict_landing_position().expect("running game");
    assert_eq!(l.kind, Kind::I);
    assert_eq!(l.rot, 0);
    assert_eq!(l.anchor, Pos { col: 3, row: 18 });
}

#[test]
fn predict_landing_rests_on_locked_blocks() {
    let mut t = Tetris::new(4, 6);
    for _ in 0..5 {
        t.tick();
    }
    // The bottom row is now locked; the fresh piece lands right above it.
    let l = t.predict_landing_position().expect("running game");
    assert_eq!(l.kind, Kind::O);
    assert_eq!(l.anchor, Pos { col: 0, row: 3 });
}

#[test]
fn lost_game_ignores_every_command() {
    let mut t = Tetris::new(4, 6);
    run_until_lost(&mut t, 1000);
    let before = full_view(&t);
    t.tick();
    assert_eq!(before, full_view(&t));
    t.shift(Direction::Left);
    assert_eq!(before, full_view(&t));
    t.shift(Direction::Right);
    assert_eq!(before, full_view(&t));
    t.rotate();
    assert_eq!(before, full_view(&t));
    assert!(t.is_lost());
    assert_eq!(t.predict_landing_position(), None);
}

#[test]
fn cell_look_marks_the_ghost_piece() {
    let t = Tetris::new(10, 20);
    // The ghost of the flat piece rests on the bottom row.
    for col in 3..7 {
        assert_eq!(t.cell_look(Pos { col, row: 19 }), CellLook::Preview(None));
    }
    // The active piece itself is drawn plainly, as are empty cells.
    assert_eq!(t.cell_look(Pos { col: 3, row: 1 }), CellLook::Plain(Some(Kind::I)));
    assert_eq!(t.cell_look(Pos { col: 0, row: 0 }), CellLook::Plain(None));
    assert_eq!(t.cell_look(Pos { col: 9, row: 19 }), CellLook::Plain(None));
}

#[test]
fn a_field_too_narrow_for_the_first_piece_is_lost_at_once() {
    // The flat first piece needs four columns; in a two-wide field it
    // collides with the wall the moment it spawns.
    let t = Tetris::new(2, 6);
    assert!(t.is_lost());
    assert!(t.current.is_none());
    for p in t.iter_positions() {
        assert_eq!(t.get(p), None);
    }
}
