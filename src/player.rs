use vstd::prelude::*;
use crate::geometry::{Direction, Point};
use crate::world::{stamped, upserted, World};

verus! {

/// Whether an avatar is the one this client controls or a peer's.
#[derive(Clone, Copy, PartialEq, Eq, Structural, Debug)]
pub enum Role {
    Local,
    Remote,
}

#[derive(Clone, Copy, PartialEq, Eq, Structural, Debug)]
pub struct AccountId(pub i32);

#[derive(Debug)]
pub struct Name(pub String);

#[derive(Clone, Copy, PartialEq, Eq, Structural, Debug)]
pub struct Experience {
    pub current: usize,
    pub level: usize,
}

/// Movement speeds; `fixed` overrides the walking speed when present.
#[derive(Clone, Copy, PartialEq, Eq, Structural, Debug)]
pub struct Speed {
    pub walking: u32,
    pub running: u32,
    pub fixed: Option<u32>,
}

impl Speed {
    /// The speed the avatar moves at: the override if set, else walking.
    pub fn resolved(&self) -> (r: u32)
        ensures
            r == self.resolved_spec(),
    {
        match self.fixed {
            Some(v) => v,
            None => self.walking,
        }
    }

    pub open spec fn resolved_spec(&self) -> u32 {
        match self.fixed {
            Some(v) => v,
            None => self.walking,
        }
    }
}

#[derive(Clone, Copy, PartialEq, Eq, Structural, Debug)]
pub struct Health {
    pub current: usize,
    pub maximum: usize,
}

/// Where the avatar is heading; `None` means idle.
#[derive(Clone, Copy, PartialEq, Eq, Structural, Debug)]
pub struct Target(pub Option<Point>);

pub const WALKING_SPEED: u32 = 2;

pub const RUNNING_SPEED: u32 = 6;

/// A player avatar, local or remote.
#[derive(Debug)]
pub struct Player {
    pub id: AccountId,
    pub role: Role,
    pub name: Name,
    pub experience: Experience,
    pub health: Health,
    pub speed: Speed,
    pub target: Target,
    pub direction: Direction,
    pub position: Point,
}

impl Player {
    /// Starts building the avatar of account `id`: nameless, at the origin,
    /// idle, facing bottom right, level 1 with full health, default speeds.
    pub fn new(id: i32) -> (r: Player)
        ensures
            r.id == AccountId(id),
            r.role == Role::Remote,
            r.name.0@ == Seq::<char>::empty(),
            r.experience == (Experience { current: 0, level: 1 }),
            r.health == (Health { current: 100, maximum: 100 }),
            r.speed == (Speed { walking: WALKING_SPEED, running: RUNNING_SPEED, fixed: None }),
            r.target == Target(None),
            r.direction == Direction::BotRight,
            r.position == (Point { x: 0, y: 0 }),
    {
        Player {
            id: AccountId(id),
            role: Role::Remote,
            name: Name(String::new()),
            experience: Experience { current: 0, level: 1 },
            health: Health { current: 100, maximum: 100 },
            speed: Speed { walking: WALKING_SPEED, running: RUNNING_SPEED, fixed: None },
            target: Target(None),
            direction: Direction::BotRight,
            position: Point { x: 0, y: 0 },
        }
    }

    pub fn with_position(self, x: i32, y: i32) -> (r: Player)
        ensures
            r == (Player { position: Point { x, y }, ..self }),
    {
        let mut p = self;
        p.position = Point { x, y };
        p
    }

    pub fn with_name(self, name: String) -> (r: Player)
        ensures
            r == (Player { name: Name(name), ..self }),
    {
        let mut p = self;
        p.name = Name(name);
        p
    }

    pub fn with_speed(self, speed: u32) -> (r: Player)
        ensures
            r == (Player { speed: Speed { fixed: Some(speed), ..self.speed }, ..self }),
    {
        let mut p = self;
        p.speed.fixed = Some(speed);
        p
    }

    /// Places the finished avatar in `world`, replacing any avatar of the
    /// same account.
    pub fn build(self, world: &mut World)
        requires
            old(world).wf(),
        ensures
            final(world).wf(),
            final(world).local() == old(world).local(),
            final(world)@ == upserted(old(world)@, stamped(self, old(world).local())),
    {
        world.spawn(self);
    }

    pub fn account_id(&self) -> (r: i32)
        ensures
            r == self.id.0,
    {
        self.id.0
    }

    pub fn is_idle(&self) -> (r: bool)
        ensures
            r == self.target.0.is_none(),
    {
        self.target.0.is_none()
    }
}

} // verus!
