use tinker::message::Message;
use tinker::queue::MessageQueue;

fn ids(ms: &[Message]) -> Vec<i32> {
    ms.iter().map(|m| m.header.account_id).collect()
}

#[test]
fn drain_returns_push_order() {
    let mut q = MessageQueue::new();
    for id in 1..=5 {
        q.push_back(Message::movement(id, 2, id, -id));
    }
    assert_eq!(q.len(), 5);
    let out = q.drain_all();
    assert_eq!(ids(&out), vec![1, 2, 3, 4, 5]);
    assert!(q.is_empty());
}

#[test]
fn consecutive_drains_deliver_once() {
    let mut q = MessageQueue::new();
    q.push_back(Message::movement(1, 2, 0, 0));
    q.push_back(Message::movement(2, 2, 0, 0));
    let first = q.drain_all();
    q.push_back(Message::movement(3, 2, 0, 0));
    let second = q.drain_all();
    let third = q.drain_all();
    assert_eq!(ids(&first), vec![1, 2]);
    assert_eq!(ids(&second), vec![3]);
    assert!(third.is_empty());
}

#[test]
fn drain_of_empty_queue_is_empty() {
    let mut q = MessageQueue::new();
    assert!(q.drain_all().is_empty());
}

#[test]
fn push_all_appends_in_order() {
    let mut q = MessageQueue::new();
    q.push_back(Message::movement(9, 1, 0, 0));
    q.push_all(vec![Message::movement(4, 1, 0, 0), Message::movement(5, 1, 0, 0)]);
    assert_eq!(ids(&q.drain_all()), vec![9, 4, 5]);
}
