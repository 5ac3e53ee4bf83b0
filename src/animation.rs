use vstd::prelude::*;
use crate::geometry::Direction;

verus! {

/// `i` is the first position of `v` in `s`.
pub open spec fn is_first(s: Seq<usize>, v: usize, i: int) -> bool {
    0 <= i < s.len() && s[i] == v && forall|j: int| 0 <= j < i ==> s[j] != v
}

/// The frame after `current` in the cycle `s`: the one following the first
/// occurrence of `current`; the first frame when `current` is last or absent;
/// `current` itself when the cycle is empty.
pub open spec fn next_frame(s: Seq<usize>, current: usize) -> usize {
    if exists|i: int| is_first(s, current, i) && i + 1 < s.len() {
        let i = choose|i: int| is_first(s, current, i) && i + 1 < s.len();
        s[i + 1]
    } else if s.len() > 0 {
        s[0]
    } else {
        current
    }
}

proof fn lemma_first_unique(s: Seq<usize>, v: usize, i: int, k: int)
    requires
        is_first(s, v, i),
        is_first(s, v, k),
    ensures
        i == k,
{
    if i < k {
        assert(s[i] != v);
    } else if k < i {
        assert(s[k] != v);
    }
}

/// The sprite-sheet frames of one movement, for each heading.
#[derive(Debug)]
pub struct Animation {
    pub topleft: Vec<usize>,
    pub topright: Vec<usize>,
    pub botleft: Vec<usize>,
    pub botright: Vec<usize>,
}

impl Animation {
    pub open spec fn facing_spec(&self, direction: Direction) -> Seq<usize> {
        match direction {
            Direction::TopLeft => self.topleft@,
            Direction::TopRight => self.topright@,
            Direction::BotLeft => self.botleft@,
            Direction::BotRight => self.botright@,
        }
    }

    /// The frames shown while facing `direction`.
    pub fn facing(&self, direction: Direction) -> (r: &Vec<usize>)
        ensures
            r@ == self.facing_spec(direction),
    {
        match direction {
            Direction::TopLeft => &self.topleft,
            Direction::TopRight => &self.topright,
            Direction::BotLeft => &self.botleft,
            Direction::BotRight => &self.botright,
        }
    }

    /// The frame to show after `current` while facing `direction`.
    pub fn next(&self, direction: Direction, current: usize) -> (r: usize)
        ensures
            r == next_frame(self.facing_spec(direction), current),
    {
        let frames = self.facing(direction);
        let ghost s = frames@;
        assert(s == self.facing_spec(direction));
        let mut i: usize = 0;
        while i < frames.len()
            invariant
                s == frames@,
                s == self.facing_spec(direction),
                i <= s.len(),
                forall|j: int| 0 <= j < i ==> s[j] != current,
            decreases s.len() - i,
        {
            if frames[i] == current {
                if i + 1 < frames.len() {
                    proof {
                        assert(is_first(s, current, i as int) && i + 1 < s.len());
                        let k = choose|k: int| is_first(s, current, k) && k + 1 < s.len();
                        lemma_first_unique(s, current, i as int, k);
                    }
                    return frames[i + 1];
                }
                proof {
                    assert(is_first(s, current, i as int));
                    assert forall|k: int| !(is_first(s, current, k) && k + 1 < s.len()) by {
                        if is_first(s, current, k) {
                            lemma_first_unique(s, current, i as int, k);
                        }
                    }
                }
                return frames[0];
            }
            i = i + 1;
        }
        assert forall|k: int| !(is_first(s, current, k) && k + 1 < s.len()) by {
            if 0 <= k < s.len() {
                assert(s[k] != current);
            }
        }
        if frames.len() > 0 {
            frames[0]
        } else {
            current
        }
    }
}

/// The animations of a character: standing, running and walking.
#[derive(Debug)]
pub struct Graphic {
    pub idle: Animation,
    pub running: Animation,
    pub walking: Animation,
}

impl Graphic {
    /// The frames of the character sprite sheet.
    pub fn character() -> (r: Graphic)
        ensures
            r.idle.topleft@ == seq![2usize],
            r.idle.topright@ == seq![3usize],
            r.idle.botleft@ == seq![0usize],
            r.idle.botright@ == seq![1usize],
            r.running.topleft@ == seq![8usize, 14],
            r.running.topright@ == seq![9usize, 15],
            r.running.botleft@ == seq![6usize, 12],
            r.running.botright@ == seq![7usize, 13],
            r.walking.topleft@ == seq![8usize, 14],
            r.walking.topright@ == seq![9usize, 15],
            r.walking.botleft@ == seq![6usize, 12],
            r.walking.botright@ == seq![7usize, 13],
    {
        Graphic {
            idle: Animation { topleft: vec![2], topright: vec![3], botleft: vec![0], botright: vec![1] },
            running: Animation {
                topleft: vec![8, 14],
                topright: vec![9, 15],
                botleft: vec![6, 12],
                botright: vec![7, 13],
            },
            walking: Animation {
                topleft: vec![8, 14],
                topright: vec![9, 15],
                botleft: vec![6, 12],
                botright: vec![7, 13],
            },
        }
    }

    /// The animation to play: standing when idle, otherwise running or
    /// walking.
    pub fn select(&self, idle: bool, running: bool) -> (r: &Animation)
        ensures
            r == (if idle {
                &self.idle
            } else if running {
                &self.running
            } else {
                &self.walking
            }),
    {
        if idle {
            &self.idle
        } else if running {
            &self.running
        } else {
            &self.walking
        }
    }
}

/// The last frame of the cursor's click animation, where it rests.
pub const CURSOR_LAST_FRAME: usize = 4;

/// The click marker's animation state.
#[derive(Clone, Copy, PartialEq, Eq, Structural, Debug)]
pub struct CursorData {
    /// Frames per second of the click animation.
    pub fps: u32,
}

impl CursorData {
    /// The frame after `index`: the animation plays once and rests on its
    /// last frame.
    pub fn next(&self, index: usize) -> (r: usize)
        ensures
            r == if index < CURSOR_LAST_FRAME {
                index + 1
            } else {
                CURSOR_LAST_FRAME as int
            },
    {
        if index < CURSOR_LAST_FRAME {
            index + 1
        } else {
            CURSOR_LAST_FRAME
        }
    }
}

} // verus!
