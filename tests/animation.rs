use tinker::animation::{Animation, CursorData, Graphic};
use tinker::geometry::Direction;

#[test]
fn next_frame_cycles() {
    let g = Graphic::character();
    assert_eq!(g.walking.next(Direction::TopLeft, 8), 14);
    assert_eq!(g.walking.next(Direction::TopLeft, 14), 8);
    assert_eq!(g.walking.next(Direction::BotRight, 3), 7);
    assert_eq!(g.idle.next(Direction::BotLeft, 0), 0);
}

#[test]
fn next_frame_uses_first_occurrence() {
    let a = Animation { topleft: vec![1, 2, 1, 3], topright: vec![], botleft: vec![], botright: vec![] };
    assert_eq!(a.next(Direction::TopLeft, 1), 2);
    assert_eq!(a.next(Direction::TopLeft, 3), 1);
    assert_eq!(a.next(Direction::TopRight, 5), 5);
}

#[test]
fn facing_picks_frames() {
    let g = Graphic::character();
    assert_eq!(g.running.facing(Direction::TopRight), &vec![9, 15]);
    assert_eq!(g.idle.facing(Direction::BotRight), &vec![1]);
}

#[test]
fn select_animation() {
    let g = Graphic::character();
    assert_eq!(g.select(true, true).topleft, vec![2]);
    assert_eq!(g.select(false, true).botleft, vec![6, 12]);
    assert_eq!(g.select(false, false).botright, vec![7, 13]);
}

#[test]
fn cursor_rests_on_last_frame() {
    let c = CursorData { fps: 20 };
    assert_eq!(c.next(0), 1);
    assert_eq!(c.next(3), 4);
    assert_eq!(c.next(4), 4);
    assert_eq!(c.next(9), 4);
}
