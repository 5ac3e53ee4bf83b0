use tinker::geometry::{Direction, Point};
use tinker::message::{
    ConnectMessage, DisconnectMessage, EntityEntry, Header, InitialMessage, Message, MoveMessage, NewEntity, Value,
};
use tinker::player::{Player, Role};
use tinker::queue::MessageQueue;
use tinker::state::ConnectionState;
use tinker::world::World;

fn session(id: i32, name: &str) -> ConnectionState {
    ConnectionState { id, username: name.to_string(), token: Some("token-1".to_string()) }
}

fn entry(id: i32, name: &str, x: i32, y: i32) -> EntityEntry {
    EntityEntry { account_id: id, name: name.to_string(), x, y }
}

fn initial(sender: i32, entities: Vec<EntityEntry>) -> Message {
    Message { header: Header { account_id: sender }, value: Value::Initial(InitialMessage { entities }) }
}

fn connect(id: i32, name: &str, x: i32, y: i32) -> Message {
    Message {
        header: Header { account_id: id },
        value: Value::Connect(ConnectMessage { entity: NewEntity { name: name.to_string(), x, y } }),
    }
}

fn disconnect(id: i32) -> Message {
    Message { header: Header { account_id: id }, value: Value::Disconnect(DisconnectMessage { account_id: id }) }
}

fn movement(id: i32, speed: u32, x: i32, y: i32) -> Message {
    Message { header: Header { account_id: id }, value: Value::Move(MoveMessage { account_id: id, speed, x, y }) }
}

#[test]
fn new_world_holds_local_player() {
    let w = World::new(&session(1, "Mike"));
    assert_eq!(w.len(), 1);
    let p = w.find_player(1).unwrap();
    assert_eq!(p.role, Role::Local);
    assert_eq!(p.name.0, "Mike");
    assert_eq!(p.position, Point::new(0, 0));
    assert!(p.is_idle());
    assert_eq!(p.speed.fixed, None);
    assert_eq!(p.speed.resolved(), 2);
}

#[test]
fn initial_snapshot_end_to_end() {
    let mut w = World::new(&session(1, "Mike"));
    w.process_messages(vec![initial(0, vec![entry(1, "Mike", 0, 0), entry(2, "Ann", 50, 50)])]);
    assert_eq!(w.len(), 2);
    let mike = w.find_player(1).unwrap();
    let ann = w.find_player(2).unwrap();
    assert_eq!(mike.role, Role::Local);
    assert_eq!(ann.role, Role::Remote);
    assert!(mike.is_idle());
    assert!(ann.is_idle());
    assert_eq!(ann.position, Point::new(50, 50));
    assert_eq!(ann.name.0, "Ann");
    assert_eq!(ann.speed.fixed, Some(0));
}

#[test]
fn initial_replay_does_not_duplicate() {
    let mut w = World::new(&session(1, "Mike"));
    let snapshot = || initial(0, vec![entry(2, "Ann", 50, 50), entry(3, "Bob", -5, 7)]);
    w.apply(snapshot());
    assert_eq!(w.len(), 3);
    w.apply(movement(2, 4, 100, 100));
    w.apply(snapshot());
    assert_eq!(w.len(), 3);
    let ids: Vec<i32> = w.entities().iter().map(|p| p.account_id()).collect();
    assert_eq!(ids, vec![1, 2, 3]);
    assert!(w.find_player(2).unwrap().is_idle());
}

#[test]
fn connect_adds_remote_peer() {
    let mut w = World::new(&session(1, "Mike"));
    w.apply(connect(7, "Zed", 3, 4));
    assert_eq!(w.len(), 2);
    let z = w.find_player(7).unwrap();
    assert_eq!(z.role, Role::Remote);
    assert_eq!(z.position, Point::new(3, 4));
    assert_eq!(z.name.0, "Zed");
}

#[test]
fn disconnect_twice_is_noop() {
    let mut w = World::new(&session(1, "Mike"));
    w.apply(connect(2, "Ann", 0, 0));
    w.apply(connect(3, "Bob", 0, 0));
    assert_eq!(w.len(), 3);
    w.apply(disconnect(2));
    assert_eq!(w.len(), 2);
    assert!(w.find_player(2).is_none());
    w.apply(disconnect(2));
    assert_eq!(w.len(), 2);
    w.apply(disconnect(99));
    assert_eq!(w.len(), 2);
    assert!(w.find_player(3).is_some());
}

#[test]
fn move_sets_target_and_speed() {
    let mut w = World::new(&session(1, "Mike"));
    w.apply(connect(2, "Ann", 0, 0));
    w.apply(movement(2, 5, 30, -40));
    let ann = w.find_player(2).unwrap();
    assert_eq!(ann.target.0, Some(Point::new(30, -40)));
    assert_eq!(ann.speed.fixed, Some(5));
    assert_eq!(ann.position, Point::new(0, 0));
}

#[test]
fn move_for_unknown_account_is_ignored() {
    let mut w = World::new(&session(1, "Mike"));
    w.apply(movement(42, 5, 30, -40));
    assert_eq!(w.len(), 1);
    assert!(w.find_player(1).unwrap().is_idle());
}

#[test]
fn local_moves_emit_one_message_per_tick() {
    let mut w = World::new(&session(1, "Mike"));
    let mut out = MessageQueue::new();
    w.player_movement(false, Some(Point::new(0, 1000)));
    for _ in 0..3 {
        w.character_movement(100, &mut out);
    }
    let sent = out.drain_all();
    assert_eq!(sent.len(), 3);
    let mut y = 0;
    for m in sent {
        y += 20;
        assert_eq!(m.header.account_id, 1);
        match m.value {
            Value::Move(mv) => {
                assert_eq!((mv.account_id, mv.speed, mv.x, mv.y), (1, 2, 0, y));
            },
            _ => panic!("expected a move"),
        }
    }
    assert_eq!(w.find_player(1).unwrap().position, Point::new(0, 60));
}

#[test]
fn remote_moves_emit_nothing() {
    let mut w = World::new(&session(1, "Mike"));
    let mut out = MessageQueue::new();
    w.apply(connect(2, "Ann", 0, 0));
    w.apply(movement(2, 6, -100, 0));
    w.character_movement(100, &mut out);
    assert!(out.is_empty());
    let ann = w.find_player(2).unwrap();
    assert_eq!(ann.position, Point::new(-60, 0));
    assert_eq!(ann.direction, Direction::TopLeft);
}

#[test]
fn idle_local_player_sends_nothing() {
    let mut w = World::new(&session(1, "Mike"));
    let mut out = MessageQueue::new();
    w.player_movement(true, None);
    w.character_movement(100, &mut out);
    assert!(out.is_empty());
    assert_eq!(w.find_player(1).unwrap().speed.fixed, Some(6));
}

#[test]
fn snapping_local_player_sends_final_position() {
    let mut w = World::new(&session(1, "Mike"));
    let mut out = MessageQueue::new();
    w.player_movement(false, Some(Point::new(5, 0)));
    w.character_movement(100, &mut out);
    let sent = out.drain_all();
    assert_eq!(sent.len(), 1);
    let me = w.find_player(1).unwrap();
    assert_eq!(me.position, Point::new(5, 0));
    assert!(me.is_idle());
    w.character_movement(100, &mut out);
    assert!(out.is_empty());
}

#[test]
fn builder_places_player() {
    let mut w = World::new(&session(1, "Mike"));
    Player::new(5).with_name("Eve".to_string()).with_position(8, 9).with_speed(3).build(&mut w);
    let eve = w.find_player(5).unwrap();
    assert_eq!(eve.role, Role::Remote);
    assert_eq!(eve.position, Point::new(8, 9));
    assert_eq!(eve.speed.fixed, Some(3));
    assert_eq!(eve.health.maximum, 100);
    assert_eq!(eve.experience.level, 1);
    Player::new(1).with_name("Mike".to_string()).build(&mut w);
    assert_eq!(w.len(), 2);
    assert_eq!(w.find_player(1).unwrap().role, Role::Local);
}

#[test]
fn teardown_empties_world() {
    let mut w = World::new(&session(1, "Mike"));
    w.apply(connect(2, "Ann", 0, 0));
    w.despawn_all();
    assert_eq!(w.len(), 0);
    assert_eq!(w.local_id(), 1);
    w.apply(disconnect(2));
    assert_eq!(w.len(), 0);
}
