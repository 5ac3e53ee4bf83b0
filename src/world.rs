use vstd::prelude::*;
use crate::geometry::{direction_of, max_travel, step_spec, step_toward, Direction, Point};
use crate::message::{move_message, EntityEntry, Message, Value};
use crate::player::{AccountId, Name, Player, Role, Speed, Target};
use crate::queue::MessageQueue;
use crate::state::ConnectionState;

verus! {

/// The role an avatar of account `id` has in the world of `local`.
pub open spec fn role_for(id: i32, local: i32) -> Role {
    if id == local {
        Role::Local
    } else {
        Role::Remote
    }
}

/// No two avatars share an account id.
pub open spec fn ids_unique(s: Seq<Player>) -> bool {
    forall|i: int, j: int|
        0 <= i < s.len() && 0 <= j < s.len() && i != j ==> s[i].id.0 != s[j].id.0
}

/// Exactly the avatar of the local account is marked local.
pub open spec fn roles_match(s: Seq<Player>, local: i32) -> bool {
    forall|i: int| 0 <= i < s.len() ==> s[i].role == role_for(#[trigger] s[i].id.0, local)
}

pub open spec fn world_wf(s: Seq<Player>, local: i32) -> bool {
    ids_unique(s) && roles_match(s, local)
}

pub open spec fn has_id(s: Seq<Player>, id: i32) -> bool {
    exists|i: int| 0 <= i < s.len() && s[i].id.0 == id
}

/// The position of the avatar of account `id` (meaningful when `has_id`).
pub open spec fn index_of(s: Seq<Player>, id: i32) -> int {
    choose|i: int| 0 <= i < s.len() && s[i].id.0 == id
}

/// `p` with the role that its account has in the world of `local`.
pub open spec fn stamped(p: Player, local: i32) -> Player {
    Player { role: role_for(p.id.0, local), ..p }
}

/// Insert-or-replace by identity: an avatar of the same account is replaced
/// in place; otherwise `p` joins at the end.
pub open spec fn upserted(s: Seq<Player>, p: Player) -> Seq<Player> {
    if has_id(s, p.id.0) {
        s.update(index_of(s, p.id.0), p)
    } else {
        s.push(p)
    }
}

/// The avatar of account `id` removed; unchanged when there is none.
pub open spec fn removed(s: Seq<Player>, id: i32) -> Seq<Player> {
    if has_id(s, id) {
        s.remove(index_of(s, id))
    } else {
        s
    }
}

/// The avatar of account `id` heads for `to` at `speed`; unchanged when there
/// is none.
pub open spec fn moved(s: Seq<Player>, id: i32, speed: u32, to: Point) -> Seq<Player> {
    if has_id(s, id) {
        let i = index_of(s, id);
        s.update(
            i,
            Player { target: Target(Some(to)), speed: Speed { fixed: Some(speed), ..s[i].speed }, ..s[i] },
        )
    } else {
        s
    }
}

/// The avatar announced for a peer: named, placed, idle, speed override zero.
pub open spec fn announced(id: i32, name: String, x: i32, y: i32) -> Player {
    Player {
        id: AccountId(id),
        role: Role::Remote,
        name: Name(name),
        experience: crate::player::Experience { current: 0, level: 1 },
        health: crate::player::Health { current: 100, maximum: 100 },
        speed: Speed {
            walking: crate::player::WALKING_SPEED,
            running: crate::player::RUNNING_SPEED,
            fixed: Some(0),
        },
        target: Target(None),
        direction: Direction::BotRight,
        position: Point { x, y },
    }
}

proof fn lemma_index_of(s: Seq<Player>, id: i32, i: int)
    requires
        ids_unique(s),
        0 <= i < s.len(),
        s[i].id.0 == id,
    ensures
        has_id(s, id),
        index_of(s, id) == i,
{
    assert(has_id(s, id));
}

proof fn lemma_upserted_wf(s: Seq<Player>, p: Player, local: i32)
    requires
        world_wf(s, local),
        p.role == role_for(p.id.0, local),
    ensures
        world_wf(upserted(s, p), local),
        has_id(upserted(s, p), p.id.0),
        upserted(s, p).len() == s.len() + (if has_id(s, p.id.0) { 0int } else { 1int }),
{
    let t = upserted(s, p);
    if has_id(s, p.id.0) {
        let k = index_of(s, p.id.0);
        assert(t[k].id.0 == p.id.0);
    } else {
        assert(t[s.len() as int].id.0 == p.id.0);
    }
}

proof fn lemma_removed_wf(s: Seq<Player>, id: i32, local: i32)
    requires
        world_wf(s, local),
    ensures
        world_wf(removed(s, id), local),
        !has_id(removed(s, id), id),
        removed(s, id).len() == s.len() - (if has_id(s, id) { 1int } else { 0int }),
{
    if has_id(s, id) {
        let k = index_of(s, id);
        let t = removed(s, id);
        assert forall|j: int| 0 <= j < t.len() implies t[j].id.0 != id by {
            if j < k {
                assert(t[j] == s[j]);
            } else {
                assert(t[j] == s[j + 1]);
            }
        }
        assert forall|i: int, j: int|
            0 <= i < t.len() && 0 <= j < t.len() && i != j implies t[i].id.0 != t[j].id.0 by {
            let a = if i < k { i } else { i + 1 };
            let b = if j < k { j } else { j + 1 };
            assert(t[i] == s[a]);
            assert(t[j] == s[b]);
        }
        assert forall|i: int| 0 <= i < t.len() implies t[i].role == role_for(#[trigger] t[i].id.0, local) by {
            let a = if i < k { i } else { i + 1 };
            assert(t[i] == s[a]);
        }
    }
}

proof fn lemma_moved_wf(s: Seq<Player>, id: i32, speed: u32, to: Point, local: i32)
    requires
        world_wf(s, local),
    ensures
        world_wf(moved(s, id, speed, to), local),
        moved(s, id, speed, to).len() == s.len(),
{
    let t = moved(s, id, speed, to);
    if has_id(s, id) {
        assert forall|i: int| 0 <= i < t.len() implies t[i].id == s[i].id && t[i].role == s[i].role by {}
    }
}

/// The roster entries `es` upserted one after another.
pub open spec fn spawned_entries(s: Seq<Player>, local: i32, es: Seq<EntityEntry>) -> Seq<Player>
    decreases es.len(),
{
    if es.len() == 0 {
        s
    } else {
        let e = es.last();
        upserted(
            spawned_entries(s, local, es.drop_last()),
            stamped(announced(e.account_id, e.name, e.x, e.y), local),
        )
    }
}

/// The entity set after reconciling one inbound message.
pub open spec fn applied(s: Seq<Player>, local: i32, m: Message) -> Seq<Player> {
    match m.value {
        Value::Move(mv) => moved(s, m.header.account_id, mv.speed, Point { x: mv.x, y: mv.y }),
        Value::Initial(im) => spawned_entries(s, local, im.entities@),
        Value::Connect(c) => upserted(
            s,
            stamped(announced(m.header.account_id, c.entity.name, c.entity.x, c.entity.y), local),
        ),
        Value::Disconnect(_) => removed(s, m.header.account_id),
    }
}

/// The entity set after reconciling `ms` in order.
pub open spec fn applied_all(s: Seq<Player>, local: i32, ms: Seq<Message>) -> Seq<Player>
    decreases ms.len(),
{
    if ms.len() == 0 {
        s
    } else {
        applied(applied_all(s, local, ms.drop_last()), local, ms.last())
    }
}

proof fn lemma_spawned_entries_wf(s: Seq<Player>, local: i32, es: Seq<EntityEntry>)
    requires
        world_wf(s, local),
    ensures
        world_wf(spawned_entries(s, local, es), local),
    decreases es.len(),
{
    if es.len() > 0 {
        let e = es.last();
        lemma_spawned_entries_wf(s, local, es.drop_last());
        lemma_upserted_wf(
            spawned_entries(s, local, es.drop_last()),
            stamped(announced(e.account_id, e.name, e.x, e.y), local),
            local,
        );
    }
}

proof fn lemma_applied_wf(s: Seq<Player>, local: i32, m: Message)
    requires
        world_wf(s, local),
    ensures
        world_wf(applied(s, local, m), local),
{
    match m.value {
        Value::Move(mv) => lemma_moved_wf(s, m.header.account_id, mv.speed, Point { x: mv.x, y: mv.y }, local),
        Value::Initial(im) => lemma_spawned_entries_wf(s, local, im.entities@),
        Value::Connect(c) => lemma_upserted_wf(
            s,
            stamped(announced(m.header.account_id, c.entity.name, c.entity.x, c.entity.y), local),
            local,
        ),
        Value::Disconnect(_) => lemma_removed_wf(s, m.header.account_id, local),
    }
}

/// One tick of movement for avatar `p`: it steps toward its target at its
/// resolved speed and turns to face the target.
pub open spec fn ticked(p: Player, tick_ms: u32) -> Player {
    let travel = p.speed.resolved_spec() * tick_ms / 10;
    let st = step_spec(p.position, p.target.0, travel);
    Player {
        position: st.0,
        target: Target(st.1),
        direction: match p.target.0 {
            Some(t) => direction_of(t.x - p.position.x, t.y - p.position.y),
            None => p.direction,
        },
        ..p
    }
}

/// The outbound updates of one tick: a `Move` with the new position for each
/// avatar of account `local` that changed position.
pub open spec fn tick_outbound(s: Seq<Player>, local: i32, tick_ms: u32) -> Seq<Message>
    decreases s.len(),
{
    if s.len() == 0 {
        Seq::empty()
    } else {
        let rest = tick_outbound(s.drop_last(), local, tick_ms);
        let p = s.last();
        let q = ticked(p, tick_ms);
        if p.id.0 == local && q.position != p.position {
            rest.push(move_message(local, p.speed.resolved_spec(), q.position.x, q.position.y))
        } else {
            rest
        }
    }
}

/// The local avatar's input this tick: it runs or walks, and a click sets
/// its target.
pub open spec fn steered(s: Seq<Player>, local: i32, running: bool, click: Option<Point>) -> Seq<Player> {
    if has_id(s, local) {
        let i = index_of(s, local);
        let p = s[i];
        let speed = Speed { fixed: Some(if running { p.speed.running } else { p.speed.walking }), ..p.speed };
        let target = match click {
            Some(c) => Target(Some(c)),
            None => p.target,
        };
        s.update(i, Player { speed, target, ..p })
    } else {
        s
    }
}

proof fn lemma_upserted_has(s: Seq<Player>, p: Player, id: i32)
    ensures
        has_id(upserted(s, p), id) == (has_id(s, id) || id == p.id.0),
{
    let t = upserted(s, p);
    if has_id(s, p.id.0) {
        let k = index_of(s, p.id.0);
        if has_id(s, id) {
            let j = choose|j: int| 0 <= j < s.len() && s[j].id.0 == id;
            if j == k {
                assert(t[k].id.0 == id);
            } else {
                assert(t[j] == s[j]);
            }
        }
        if id == p.id.0 {
            assert(t[k].id.0 == id);
        }
        if has_id(t, id) {
            let j = choose|j: int| 0 <= j < t.len() && t[j].id.0 == id;
            if j != k {
                assert(t[j] == s[j]);
            }
        }
    } else {
        if has_id(s, id) {
            let j = choose|j: int| 0 <= j < s.len() && s[j].id.0 == id;
            assert(t[j] == s[j]);
        }
        if id == p.id.0 {
            assert(t[s.len() as int].id.0 == id);
        }
        if has_id(t, id) {
            let j = choose|j: int| 0 <= j < t.len() && t[j].id.0 == id;
            if j < s.len() {
                assert(t[j] == s[j]);
            }
        }
    }
}

/// After the roster `es` is upserted, each of its accounts is present, and
/// an account is present exactly when it was before or is listed.
proof fn lemma_spawned_has(s: Seq<Player>, local: i32, es: Seq<EntityEntry>, id: i32)
    ensures
        has_id(spawned_entries(s, local, es), id) == (has_id(s, id) || exists|k: int|
            0 <= k < es.len() && es[k].account_id == id),
    decreases es.len(),
{
    if es.len() > 0 {
        let e = es.last();
        let p = stamped(announced(e.account_id, e.name, e.x, e.y), local);
        lemma_spawned_has(s, local, es.drop_last(), id);
        lemma_upserted_has(spawned_entries(s, local, es.drop_last()), p, id);
        if exists|k: int| 0 <= k < es.drop_last().len() && es.drop_last()[k].account_id == id {
            let k = choose|k: int| 0 <= k < es.drop_last().len() && es.drop_last()[k].account_id == id;
            assert(es[k].account_id == id);
        }
        if exists|k: int| 0 <= k < es.len() && es[k].account_id == id {
            let k = choose|k: int| 0 <= k < es.len() && es[k].account_id == id;
            if k < es.len() - 1 {
                assert(es.drop_last()[k].account_id == id);
            }
        }
    }
}

/// Upserting a roster whose accounts are all present adds no avatar.
proof fn lemma_spawned_len_present(t: Seq<Player>, local: i32, es: Seq<EntityEntry>)
    requires
        forall|k: int| 0 <= k < es.len() ==> has_id(t, #[trigger] es[k].account_id),
    ensures
        spawned_entries(t, local, es).len() == t.len(),
    decreases es.len(),
{
    if es.len() > 0 {
        let e = es.last();
        let p = stamped(announced(e.account_id, e.name, e.x, e.y), local);
        assert forall|k: int| 0 <= k < es.drop_last().len() implies has_id(
            t,
            #[trigger] es.drop_last()[k].account_id,
        ) by {
            assert(es.drop_last()[k] == es[k]);
        }
        lemma_spawned_len_present(t, local, es.drop_last());
        lemma_spawned_has(t, local, es.drop_last(), e.account_id);
        assert(has_id(t, es[es.len() - 1].account_id));
    }
}

/// Disconnect is idempotent: for an account that is not present it changes
/// nothing, and a second disconnect of the same account changes nothing; the
/// entity count drops by one only when the account was present.
pub proof fn lemma_disconnect_idempotent(s: Seq<Player>, local: i32, id: i32)
    requires
        world_wf(s, local),
    ensures
        !has_id(s, id) ==> removed(s, id) == s,
        removed(removed(s, id), id) == removed(s, id),
        removed(s, id).len() == s.len() - (if has_id(s, id) { 1int } else { 0int }),
{
    lemma_removed_wf(s, id, local);
}

/// Replaying a roster snapshot duplicates no identity: after an `Initial`
/// every account is held by one avatar, and reconciling the same `Initial`
/// again leaves the entity count and the set of accounts present unchanged.
pub proof fn lemma_initial_replay(s: Seq<Player>, local: i32, m: Message)
    requires
        world_wf(s, local),
        m.value is Initial,
    ensures
        world_wf(applied(s, local, m), local),
        world_wf(applied(applied(s, local, m), local, m), local),
        applied(applied(s, local, m), local, m).len() == applied(s, local, m).len(),
        forall|id: i32|
            has_id(applied(applied(s, local, m), local, m), id) == has_id(applied(s, local, m), id),
{
    lemma_applied_wf(s, local, m);
    lemma_applied_wf(applied(s, local, m), local, m);
    match m.value {
        Value::Initial(im) => {
            let es = im.entities@;
            let t = spawned_entries(s, local, es);
            assert forall|k: int| 0 <= k < es.len() implies has_id(t, #[trigger] es[k].account_id) by {
                lemma_spawned_has(s, local, es, es[k].account_id);
            }
            lemma_spawned_len_present(t, local, es);
            assert forall|id: i32| has_id(spawned_entries(t, local, es), id) == has_id(t, id) by {
                lemma_spawned_has(t, local, es, id);
                if exists|k: int| 0 <= k < es.len() && es[k].account_id == id {
                    let k = choose|k: int| 0 <= k < es.len() && es[k].account_id == id;
                    lemma_spawned_has(s, local, es, id);
                }
            }
        },
        _ => {},
    }
}

/// What one tick sends: a single `Move` carrying the local avatar's new
/// position when that position changed, nothing otherwise.
pub open spec fn local_update(s: Seq<Player>, local: i32, tick_ms: u32) -> Seq<Message> {
    if has_id(s, local) {
        let p = s[index_of(s, local)];
        let q = ticked(p, tick_ms);
        if q.position != p.position {
            seq![move_message(local, p.speed.resolved_spec(), q.position.x, q.position.y)]
        } else {
            Seq::empty()
        }
    } else {
        Seq::empty()
    }
}

/// Local movement is sent exactly once per tick in which it happens: the
/// outbound messages of a tick are one `Move` with the local avatar's
/// post-move position if it moved, and none otherwise.
pub proof fn lemma_local_move_outbound(s: Seq<Player>, local: i32, tick_ms: u32)
    requires
        ids_unique(s),
    ensures
        tick_outbound(s, local, tick_ms) == local_update(s, local, tick_ms),
    decreases s.len(),
{
    if s.len() > 0 {
        let r = s.drop_last();
        let n = s.len() - 1;
        assert(ids_unique(r)) by {
            assert forall|i: int, j: int|
                0 <= i < r.len() && 0 <= j < r.len() && i != j implies r[i].id.0 != r[j].id.0 by {
                assert(r[i] == s[i]);
                assert(r[j] == s[j]);
            }
        }
        lemma_local_move_outbound(r, local, tick_ms);
        if s[n].id.0 == local {
            lemma_index_of(s, local, n);
            assert(!has_id(r, local)) by {
                if has_id(r, local) {
                    let j = choose|j: int| 0 <= j < r.len() && r[j].id.0 == local;
                    assert(r[j] == s[j]);
                }
            }
        } else {
            if has_id(r, local) {
                let j = index_of(r, local);
                assert(r[j] == s[j]);
                lemma_index_of(s, local, j);
            }
            if has_id(s, local) {
                let j = choose|j: int| 0 <= j < s.len() && s[j].id.0 == local;
                assert(j < n);
                assert(r[j] == s[j]);
            }
        }
    }
}

/// The entity set of the running game, with the account this client plays.
pub struct World {
    local_id: i32,
    entities: Vec<Player>,
}

impl View for World {
    type V = Seq<Player>;

    closed spec fn view(&self) -> Seq<Player> {
        self.entities@
    }
}

impl World {
    pub closed spec fn local(&self) -> i32 {
        self.local_id
    }

    pub open spec fn wf(&self) -> bool {
        world_wf(self@, self.local())
    }

    /// A world holding only the local avatar of `state`: named after the
    /// user, at the origin, idle, with default speeds.
    pub fn new(state: &ConnectionState) -> (r: World)
        ensures
            r.wf(),
            r.local() == state.id,
            r@.len() == 1,
            r@[0] == (Player {
                id: AccountId(state.id),
                role: Role::Local,
                name: Name(state.username),
                experience: crate::player::Experience { current: 0, level: 1 },
                health: crate::player::Health { current: 100, maximum: 100 },
                speed: Speed {
                    walking: crate::player::WALKING_SPEED,
                    running: crate::player::RUNNING_SPEED,
                    fixed: None,
                },
                target: Target(None),
                direction: Direction::BotRight,
                position: Point { x: 0, y: 0 },
            }),
    {
        let mut p = Player::new(state.id).with_name(state.username.clone());
        p.role = Role::Local;
        let mut entities: Vec<Player> = Vec::new();
        entities.push(p);
        World { local_id: state.id, entities }
    }

    pub fn local_id(&self) -> (r: i32)
        ensures
            r == self.local(),
    {
        self.local_id
    }

    pub fn len(&self) -> (r: usize)
        ensures
            r == self@.len(),
    {
        self.entities.len()
    }

    pub fn entities(&self) -> (r: &Vec<Player>)
        ensures
            r@ == self@,
    {
        &self.entities
    }

    /// The index of the avatar of account `id`, if there is one.
    pub fn find(&self, id: i32) -> (r: Option<usize>)
        requires
            self.wf(),
        ensures
            r.is_some() == has_id(self@, id),
            r.is_some() ==> r.unwrap() == index_of(self@, id),
    {
        let mut i: usize = 0;
        while i < self.entities.len()
            invariant
                self.wf(),
                i <= self@.len(),
                forall|j: int| 0 <= j < i ==> self@[j].id.0 != id,
            decreases self@.len() - i,
        {
            if self.entities[i].id.0 == id {
                proof {
                    lemma_index_of(self@, id, i as int);
                }
                return Some(i);
            }
            i = i + 1;
        }
        None
    }

    /// Looks up the avatar of account `id`.
    pub fn find_player(&self, id: i32) -> (r: Option<&Player>)
        requires
            self.wf(),
        ensures
            r.is_some() == has_id(self@, id),
            r.is_some() ==> *r.unwrap() == self@[index_of(self@, id)],
    {
        match self.find(id) {
            Some(i) => Some(&self.entities[i]),
            None => None,
        }
    }

    /// Adds `p` with the role its account has here; an avatar of the same
    /// account is replaced in place rather than duplicated.
    pub fn spawn(&mut self, p: Player)
        requires
            old(self).wf(),
        ensures
            final(self).wf(),
            final(self).local() == old(self).local(),
            final(self)@ == upserted(old(self)@, stamped(p, old(self).local())),
    {
        let mut p = p;
        p.role = if p.id.0 == self.local_id {
            Role::Local
        } else {
            Role::Remote
        };
        proof {
            assert(p == stamped(p, self.local()));
            lemma_upserted_wf(self@, p, self.local());
        }
        match self.find(p.id.0) {
            Some(i) => {
                self.entities[i] = p;
            },
            None => {
                self.entities.push(p);
            },
        }
    }

    /// A `Move` for account `id`: its avatar heads for `to` with speed
    /// override `speed`. Unknown accounts are ignored.
    pub fn apply_move(&mut self, id: i32, speed: u32, to: Point)
        requires
            old(self).wf(),
        ensures
            final(self).wf(),
            final(self).local() == old(self).local(),
            final(self)@ == moved(old(self)@, id, speed, to),
    {
        proof {
            lemma_moved_wf(self@, id, speed, to, self.local());
        }
        match self.find(id) {
            Some(i) => {
                self.entities[i].target = Target(Some(to));
                self.entities[i].speed.fixed = Some(speed);
                assert(self@ =~= moved(old(self)@, id, speed, to));
            },
            None => {},
        }
    }

    /// A `Disconnect` for account `id`: its avatar leaves. Unknown accounts
    /// are ignored.
    pub fn disconnect(&mut self, id: i32)
        requires
            old(self).wf(),
        ensures
            final(self).wf(),
            final(self).local() == old(self).local(),
            final(self)@ == removed(old(self)@, id),
    {
        proof {
            lemma_removed_wf(self@, id, self.local());
        }
        match self.find(id) {
            Some(i) => {
                self.entities.remove(i);
            },
            None => {},
        }
    }

    /// Upserts an announced avatar for each roster entry, in order.
    pub fn spawn_entries(&mut self, entries: Vec<EntityEntry>)
        requires
            old(self).wf(),
        ensures
            final(self).wf(),
            final(self).local() == old(self).local(),
            final(self)@ == spawned_entries(old(self)@, old(self).local(), entries@),
    {
        let ghost all = entries@;
        let ghost start = self@;
        let n: usize = entries.len();
        let mut rest = entries;
        let mut i: usize = 0;
        while rest.len() > 0
            invariant
                self.wf(),
                self.local() == old(self).local(),
                start == old(self)@,
                all.len() == n,
                i + rest@.len() == n,
                rest@ =~= all.subrange(i as int, n as int),
                self@ == spawned_entries(start, self.local(), all.subrange(0, i as int)),
            decreases rest@.len(),
        {
            let e = rest.remove(0);
            let p = Player::new(e.account_id).with_name(e.name).with_position(e.x, e.y).with_speed(0);
            assert(p == announced(e.account_id, e.name, e.x, e.y));
            self.spawn(p);
            assert(all.subrange(0, i + 1).drop_last() =~= all.subrange(0, i as int));
            i = i + 1;
            assert(rest@ =~= all.subrange(i as int, n as int));
        }
        assert(all.subrange(0, n as int) =~= all);
    }

    /// Reconciles one inbound message: `Move` retargets, `Initial` and
    /// `Connect` upsert announced avatars, `Disconnect` removes.
    pub fn apply(&mut self, msg: Message)
        requires
            old(self).wf(),
        ensures
            final(self).wf(),
            final(self).local() == old(self).local(),
            final(self)@ == applied(old(self)@, old(self).local(), msg),
    {
        let id = msg.header.account_id;
        match msg.value {
            Value::Move(m) => {
                self.apply_move(id, m.speed, Point { x: m.x, y: m.y });
            },
            Value::Initial(im) => {
                self.spawn_entries(im.entities);
            },
            Value::Connect(c) => {
                let p = Player::new(id).with_name(c.entity.name).with_position(c.entity.x, c.entity.y).with_speed(0);
                assert(p == announced(id, c.entity.name, c.entity.x, c.entity.y));
                self.spawn(p);
            },
            Value::Disconnect(_) => {
                self.disconnect(id);
            },
        }
    }

    /// Reconciles every message polled this tick, in arrival order.
    pub fn process_messages(&mut self, msgs: Vec<Message>)
        requires
            old(self).wf(),
        ensures
            final(self).wf(),
            final(self).local() == old(self).local(),
            final(self)@ == applied_all(old(self)@, old(self).local(), msgs@),
    {
        let ghost all = msgs@;
        let ghost start = self@;
        let n: usize = msgs.len();
        let mut rest = msgs;
        let mut i: usize = 0;
        while rest.len() > 0
            invariant
                self.wf(),
                self.local() == old(self).local(),
                start == old(self)@,
                all.len() == n,
                i + rest@.len() == n,
                rest@ =~= all.subrange(i as int, n as int),
                self@ == applied_all(start, self.local(), all.subrange(0, i as int)),
            decreases rest@.len(),
        {
            let m = rest.remove(0);
            self.apply(m);
            assert(all.subrange(0, i + 1).drop_last() =~= all.subrange(0, i as int));
            i = i + 1;
            assert(rest@ =~= all.subrange(i as int, n as int));
        }
        assert(all.subrange(0, n as int) =~= all);
    }

    /// Local input for this tick: the local avatar's speed override becomes
    /// its running or walking speed, and `click`, when present, its target.
    pub fn player_movement(&mut self, running: bool, click: Option<Point>)
        requires
            old(self).wf(),
        ensures
            final(self).wf(),
            final(self).local() == old(self).local(),
            final(self)@ == steered(old(self)@, old(self).local(), running, click),
    {
        match self.find(self.local_id) {
            Some(i) => {
                let speed = if running {
                    self.entities[i].speed.running
                } else {
                    self.entities[i].speed.walking
                };
                self.entities[i].speed.fixed = Some(speed);
                match click {
                    Some(c) => {
                        self.entities[i].target = Target(Some(c));
                    },
                    None => {},
                }
                assert(self@ =~= steered(old(self)@, old(self).local(), running, click));
                assert forall|j: int| 0 <= j < self@.len() implies self@[j].id == old(self)@[j].id
                    && self@[j].role == old(self)@[j].role by {}
            },
            None => {},
        }
    }

    /// One movement tick of `tick_ms` milliseconds for every avatar (see
    /// `ticked`); each change of the local avatar's position is pushed to
    /// `outbound` as a `Move` with the new position.
    pub fn character_movement(&mut self, tick_ms: u32, outbound: &mut MessageQueue)
        requires
            old(self).wf(),
        ensures
            final(self).wf(),
            final(self).local() == old(self).local(),
            final(self)@.len() == old(self)@.len(),
            forall|i: int| 0 <= i < old(self)@.len() ==> final(self)@[i] == ticked(#[trigger] old(self)@[i], tick_ms),
            final(outbound)@ == old(outbound)@ + tick_outbound(old(self)@, old(self).local(), tick_ms),
    {
        let ghost start = self@;
        let ghost out0 = outbound@;
        let n = self.entities.len();
        let mut i: usize = 0;
        while i < n
            invariant
                self.local() == old(self).local(),
                start == old(self)@,
                world_wf(start, self.local()),
                n == start.len(),
                self@.len() == n,
                i <= n,
                forall|j: int| 0 <= j < i ==> self@[j] == ticked(#[trigger] start[j], tick_ms),
                forall|j: int| i <= j < n ==> self@[j] == #[trigger] start[j],
                outbound@ == out0 + tick_outbound(start.subrange(0, i as int), self.local(), tick_ms),
            decreases n - i,
        {
            let pos = self.entities[i].position;
            let target = self.entities[i].target.0;
            let speed = self.entities[i].speed.resolved();
            let (np, nt) = step_toward(pos, target, max_travel(speed, tick_ms));
            let facing = match target {
                Some(t) => Direction::from(t.x as i64 - pos.x as i64, t.y as i64 - pos.y as i64),
                None => self.entities[i].direction,
            };
            let is_local = self.entities[i].id.0 == self.local_id;
            self.entities[i].position = np;
            self.entities[i].target = Target(nt);
            self.entities[i].direction = facing;
            assert(self@[i as int] == ticked(start[i as int], tick_ms));
            proof {
                let pre = start.subrange(0, i as int + 1);
                assert(pre.drop_last() =~= start.subrange(0, i as int));
                assert(pre.last() == start[i as int]);
            }
            if is_local && np != pos {
                outbound.push_back(Message::movement(self.local_id, speed, np.x, np.y));
            }
            i = i + 1;
        }
        assert(start.subrange(0, n as int) =~= start);
        assert forall|a: int| 0 <= a < self@.len() implies self@[a].id == start[a].id
            && self@[a].role == start[a].role by {
            assert(self@[a] == ticked(start[a], tick_ms));
        }
        assert forall|a: int, b: int|
            0 <= a < self@.len() && 0 <= b < self@.len() && a != b implies self@[a].id.0 != self@[b].id.0 by {
            assert(self@[a].id == start[a].id);
            assert(self@[b].id == start[b].id);
        }
        assert forall|a: int| 0 <= a < self@.len() implies self@[a].role == role_for(
            #[trigger] self@[a].id.0,
            self.local(),
        ) by {
            assert(self@[a].id == start[a].id);
        }
    }

    /// Leaving the game view: every avatar is despawned.
    pub fn despawn_all(&mut self)
        ensures
            final(self).wf(),
            final(self).local() == old(self).local(),
            final(self)@ == Seq::<Player>::empty(),
    {
        self.entities = Vec::new();
    }
}

} // verus!
