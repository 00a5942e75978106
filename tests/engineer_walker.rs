use lattice_walkers::engineer::{EngineerWalker, Orientation};
use lattice_walkers::viewport::Dirty;

const SPAN: i64 = 30;

fn bridges(w: &EngineerWalker) -> Vec<((i64, i64), (i64, i64))> {
    let mut found = Vec::new();
    for i in -SPAN..=SPAN {
        for j in -SPAN..=SPAN {
            if w.has_edge((i, j), (i + 1, j)) {
                found.push(((i, j), (i + 1, j)));
            }
            if w.has_edge((i, j), (i, j + 1)) {
                found.push(((i, j), (i, j + 1)));
            }
        }
    }
    found
}

fn snapshot(w: &EngineerWalker) -> ((i64, i64), Orientation, Vec<((i64, i64), (i64, i64))>) {
    (w.agent_position(), w.agent_orientation(), bridges(w))
}

fn cluster(s: (i64, i64)) -> Vec<(i64, i64)> {
    let mut v = Vec::new();
    for dj in -1..=1 {
        for di in -1..=1 {
            v.push((s.0 + di, s.1 + dj));
        }
    }
    v
}

#[test]
fn first_step_builds_upward_bridge() {
    let mut w = EngineerWalker::new(35, 20);
    w.step();
    assert!(w.has_edge((0, 0), (0, -1)));
    assert!(w.has_edge((0, -1), (0, 0)));
    assert_eq!(w.agent_position(), (0, 0));
    assert_eq!(w.agent_orientation(), Orientation::Right);
    assert_eq!(bridges(&w), vec![((0, -1), (0, 0))]);
}

#[test]
fn fifth_step_crosses_and_removes_bridge() {
    let mut w = EngineerWalker::new(35, 20);
    for _ in 0..4 {
        w.step();
    }
    assert_eq!(w.agent_orientation(), Orientation::Up);
    assert_eq!(
        bridges(&w),
        vec![((-1, 0), (0, 0)), ((0, -1), (0, 0)), ((0, 0), (1, 0)), ((0, 0), (0, 1))]
    );
    w.step();
    assert!(!w.has_edge((0, 0), (0, -1)));
    assert_eq!(w.agent_position(), (0, -1));
    assert_eq!(w.agent_orientation(), Orientation::Left);
    assert_eq!(bridges(&w), vec![((-1, 0), (0, 0)), ((0, 0), (1, 0)), ((0, 0), (0, 1))]);
}

#[test]
fn toggling_an_edge_twice_restores_bridges() {
    let mut w = EngineerWalker::new(35, 20);
    let before = bridges(&w);
    w.step();
    assert!(w.has_edge((0, -1), (0, 0)));
    for _ in 0..3 {
        w.step();
    }
    let others = bridges(&w);
    w.step();
    assert!(!w.has_edge((0, -1), (0, 0)));
    let mut with_it = bridges(&w);
    with_it.push(((0, -1), (0, 0)));
    with_it.sort();
    let mut expected = others.clone();
    expected.sort();
    assert_eq!(with_it, expected);
    assert!(before.is_empty());
}

#[test]
fn two_hundred_steps() {
    let mut w = EngineerWalker::new(35, 20);
    for _ in 0..100 {
        w.step();
    }
    assert_eq!(w.agent_position(), (1, -1));
    assert_eq!(w.agent_orientation(), Orientation::Up);
    assert_eq!(bridges(&w).len(), 20);
    for _ in 0..100 {
        w.step();
    }
    assert_eq!(w.agent_position(), (-3, -1));
    assert_eq!(w.agent_orientation(), Orientation::Up);
    assert_eq!(bridges(&w).len(), 40);
    assert!(w.has_edge((-4, -1), (-3, -1)));
    assert!(w.has_edge((3, 0), (2, 0)));
}

fn interleave_back_steps(n: usize) {
    let mut w = EngineerWalker::new(35, 20);
    for _ in 0..n {
        let before = snapshot(&w);
        w.step();
        w.step_back();
        assert_eq!(snapshot(&w), before);
        w.step();
    }
    assert_eq!(w.steps_taken(), n as u64);
}

#[test]
fn engineer_step_back_after_one_step() {
    interleave_back_steps(1);
}

#[test]
fn engineer_step_back_after_ten_steps() {
    interleave_back_steps(10);
}

#[test]
fn engineer_step_back_along_three_hundred_steps() {
    interleave_back_steps(300);
}

#[test]
fn engineer_unwinding_returns_to_start() {
    let mut w = EngineerWalker::new(35, 20);
    for _ in 0..250 {
        w.step();
    }
    for _ in 0..250 {
        w.step_back();
    }
    assert_eq!(w.agent_position(), (0, 0));
    assert_eq!(w.agent_orientation(), Orientation::Up);
    assert!(bridges(&w).is_empty());
    w.step_back();
    assert_eq!(w.agent_position(), (0, 0));
    assert_eq!(w.steps_taken(), 0);
}

#[test]
fn engineer_step_lists_both_blocks() {
    let mut w = EngineerWalker::new(35, 20);
    assert!(matches!(w.drain_dirty(), Dirty::All));
    assert!(w.take_engineer_dirty());
    for _ in 0..4 {
        w.step();
    }
    let _ = w.drain_dirty();
    w.step();
    let mut expected = cluster((17, 10));
    expected.extend(cluster((17, 9)));
    match w.drain_dirty() {
        Dirty::Listed(v) => assert_eq!(v, expected),
        Dirty::All => panic!("window should not have moved"),
    }
    assert!(w.take_engineer_dirty());
}

#[test]
fn engineer_window_follows() {
    let mut w = EngineerWalker::new(3, 2);
    for _ in 0..2000 {
        let c = w.center_coord();
        w.step();
        let d = w.center_coord();
        assert!((d.0 - c.0).abs() <= 1 && (d.1 - c.1).abs() <= 1);
        let s = w.agent_screen_position();
        assert!(0 <= s.0 && s.0 <= 3 && 0 <= s.1 && s.1 <= 2);
        let b = w.screen_to_board(s.0, s.1);
        assert_eq!(b, w.agent_position());
        assert_eq!(w.board_to_screen(b.0, b.1), s);
    }
}
