use lattice_walkers::ant::{AntWalker, Orientation};
use lattice_walkers::viewport::Dirty;

const SPAN: i64 = 40;

fn marked_cells(w: &AntWalker) -> Vec<(i64, i64)> {
    let mut cells = Vec::new();
    for i in -SPAN..=SPAN {
        for j in -SPAN..=SPAN {
            if w.is_marked(i, j) {
                cells.push((i, j));
            }
        }
    }
    cells
}

fn snapshot(w: &AntWalker) -> ((i64, i64), Orientation, usize, Vec<(i64, i64)>) {
    (w.agent_position(), w.agent_orientation(), w.marked_count(), marked_cells(w))
}

fn listed(d: Dirty) -> Vec<(i64, i64)> {
    match d {
        Dirty::Listed(v) => v,
        Dirty::All => panic!("expected a list of cells"),
    }
}

#[test]
fn first_step_from_origin() {
    let mut w = AntWalker::new(35, 20);
    assert_eq!(w.agent_position(), (0, 0));
    assert_eq!(w.agent_orientation(), Orientation::Up);
    assert_eq!(w.marked_count(), 0);
    w.step();
    assert!(w.is_marked(0, 0));
    assert_eq!(w.agent_orientation(), Orientation::Right);
    assert_eq!(w.agent_position(), (1, 0));
    assert_eq!(w.marked_count(), 1);
    assert_eq!(w.steps_taken(), 1);
}

#[test]
fn first_ten_positions() {
    let expected = [
        (1, 0), (1, 1), (0, 1), (0, 0), (-1, 0), (-1, -1), (0, -1), (0, 0), (-1, 0), (-1, 1),
    ];
    let mut w = AntWalker::new(35, 20);
    for p in expected.iter() {
        w.step();
        assert_eq!(w.agent_position(), *p);
    }
    assert_eq!(w.marked_count(), 6);
    assert_eq!(w.agent_orientation(), Orientation::Down);
}

fn interleave_back_steps(n: usize) {
    let mut w = AntWalker::new(35, 20);
    for _ in 0..n {
        let before = snapshot(&w);
        w.step();
        w.step_back();
        assert_eq!(snapshot(&w), before);
        w.step();
    }
    assert_eq!(w.steps_taken(), n as u64);
}

#[test]
fn step_back_after_one_step() {
    interleave_back_steps(1);
}

#[test]
fn step_back_after_two_steps() {
    interleave_back_steps(2);
}

#[test]
fn step_back_after_ten_steps() {
    interleave_back_steps(10);
}

#[test]
fn step_back_along_five_hundred_steps() {
    interleave_back_steps(500);
}

#[test]
fn unwinding_returns_to_start() {
    let mut w = AntWalker::new(35, 20);
    let start = snapshot(&w);
    for _ in 0..300 {
        w.step();
    }
    for _ in 0..300 {
        w.step_back();
    }
    assert_eq!(snapshot(&w), start);
    assert_eq!(w.steps_taken(), 0);
}

#[test]
fn step_back_at_start_changes_nothing() {
    let mut w = AntWalker::new(35, 20);
    let _ = w.drain_dirty();
    let _ = w.take_ant_dirty();
    w.step_back();
    assert_eq!(w.agent_position(), (0, 0));
    assert_eq!(w.agent_orientation(), Orientation::Up);
    assert_eq!(w.marked_count(), 0);
    assert_eq!(w.steps_taken(), 0);
    assert!(listed(w.drain_dirty()).is_empty());
    assert!(!w.take_ant_dirty());
}

#[test]
fn ten_thousand_steps() {
    let mut w = AntWalker::new(35, 20);
    for _ in 0..10000 {
        w.step();
    }
    assert_eq!(w.marked_count(), 720);
    assert_eq!(w.agent_position(), (-16, -10));
    assert_eq!(w.agent_orientation(), Orientation::Up);
}

#[test]
fn highway_after_ten_thousand_steps() {
    let mut w = AntWalker::new(35, 20);
    let mut trail = Vec::new();
    trail.push(w.agent_position());
    for _ in 0..12000 {
        w.step();
        trail.push(w.agent_position());
    }
    for n in [10500usize, 11000, 11500].iter() {
        let a = trail[*n];
        let b = trail[*n + 104];
        assert_eq!((b.0 - a.0, b.1 - a.1), (-2, 2));
    }
    assert_eq!(w.marked_count(), 952);
}

#[test]
fn marked_exactly_where_left_an_odd_number_of_times() {
    let mut w = AntWalker::new(35, 20);
    let mut departures: Vec<((i64, i64), u32)> = Vec::new();
    for _ in 0..2000 {
        let p = w.agent_position();
        match departures.iter_mut().find(|e| e.0 == p) {
            Some(e) => e.1 += 1,
            None => departures.push((p, 1)),
        }
        w.step();
    }
    for (p, n) in departures.iter() {
        assert_eq!(w.is_marked(p.0, p.1), n % 2 == 1);
    }
    let odd = departures.iter().filter(|e| e.1 % 2 == 1).count();
    assert_eq!(w.marked_count(), odd);
}

#[test]
fn window_moves_at_most_one_cell_per_step() {
    let mut w = AntWalker::new(7, 4);
    for _ in 0..5000 {
        let c = w.center_coord();
        w.step();
        let d = w.center_coord();
        assert!((d.0 - c.0).abs() <= 1 && (d.1 - c.1).abs() <= 1);
        let s = w.agent_screen_position();
        let dim = w.dim();
        assert!(0 <= s.0 && s.0 <= dim.0 && 0 <= s.1 && s.1 <= dim.1);
    }
}

#[test]
fn fresh_walker_wants_full_redraw() {
    let mut w = AntWalker::new(35, 20);
    assert!(matches!(w.drain_dirty(), Dirty::All));
    assert!(w.take_ant_dirty());
    assert!(!w.take_ant_dirty());
    assert!(listed(w.drain_dirty()).is_empty());
}

#[test]
fn step_lists_old_and_new_cell() {
    let mut w = AntWalker::new(35, 20);
    let _ = w.drain_dirty();
    assert_eq!(w.agent_screen_position(), (17, 10));
    w.step();
    assert_eq!(listed(w.drain_dirty()), vec![(17, 10), (18, 10)]);
    assert!(w.take_ant_dirty());
    assert!(listed(w.drain_dirty()).is_empty());
}

#[test]
fn step_back_lists_neighbourhood() {
    let mut w = AntWalker::new(35, 20);
    w.step();
    let _ = w.drain_dirty();
    w.step_back();
    assert_eq!(
        listed(w.drain_dirty()),
        vec![(18, 10), (17, 10), (19, 10), (18, 9), (18, 11), (17, 10)]
    );
}

#[test]
fn leaving_the_window_moves_it_and_redraws_all() {
    let mut w = AntWalker::new(1, 1);
    let _ = w.drain_dirty();
    for _ in 0..4 {
        w.step();
    }
    assert_eq!(w.center_coord(), (0, 0));
    assert!(!matches!(w.drain_dirty(), Dirty::All));
    w.step();
    assert_eq!(w.agent_position(), (-1, 0));
    assert_eq!(w.center_coord(), (-1, 0));
    assert!(matches!(w.drain_dirty(), Dirty::All));
    assert_eq!(w.agent_screen_position(), (0, 0));
}

#[test]
fn board_and_screen_round_trip() {
    let mut w = AntWalker::new(35, 20);
    for _ in 0..3000 {
        w.step();
    }
    for &(x, y) in [(0i64, 0i64), (5, -7), (-1000, 1000), (123456789, -987654321)].iter() {
        let s = w.board_to_screen(x, y);
        assert_eq!(w.screen_to_board(s.0, s.1), (x, y));
    }
    let c = w.center_coord();
    assert_eq!(w.board_to_screen(c.0, c.1), (17, 10));
    assert_eq!(w.screen_to_board(17, 10), c);
}
