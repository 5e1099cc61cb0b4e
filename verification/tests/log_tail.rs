use hu::log::{grep_lines, tail_lines, tail_start_state, tail_step, TailAction, TailState};

fn lines(v: &[&str]) -> Vec<String> {
    v.iter().map(|s| s.to_string()).collect()
}

#[test]
fn last_lines_with_and_without_grep() {
    let all = lines(&["a error", "b", "c error", "d"]);
    assert_eq!(tail_lines(&all, 3, None), (lines(&["b", "c error", "d"]), 3));
    assert_eq!(tail_lines(&all, 3, Some("error")), (lines(&["c error"]), 3));
    assert_eq!(tail_lines(&all, 10, Some("error")), (lines(&["a error", "c error"]), 4));
    assert_eq!(tail_lines(&all, 0, None), (vec![], 0));
}

#[test]
fn grep_keeps_order() {
    let all = lines(&["x1", "y", "x2"]);
    assert_eq!(grep_lines(&all, Some("x")), lines(&["x1", "x2"]));
    assert_eq!(grep_lines(&all, None), all);
}

#[test]
fn following_a_log() {
    let s = tail_start_state(100);
    assert_eq!(s, TailState { last_size: 100, last_pos: 100 });
    let (s, a) = tail_step(s, 100);
    assert_eq!(a, TailAction::Wait);
    let (s, a) = tail_step(s, 150);
    assert_eq!(a, TailAction::ReadFrom(100));
    assert_eq!(s, TailState { last_size: 150, last_pos: 150 });
    let (s, a) = tail_step(s, 20);
    assert_eq!(a, TailAction::Wait);
    assert_eq!(s, TailState { last_size: 20, last_pos: 0 });
    let (_, a) = tail_step(s, 30);
    assert_eq!(a, TailAction::ReadFrom(0));
}
