use std::collections::VecDeque;

use panama::{channel, Inner, Step};

#[test]
fn ping_pong() {
    let (mut tx, mut rx) = channel();
    tx.send(42);
    assert_eq!(rx.recv(), Some(42));
}

#[test]
fn closed_tx() {
    let (tx, mut rx) = channel::<()>();
    drop(tx);
    assert_eq!(rx.recv(), None);
}

#[test]
fn closed_rx() {
    let (mut tx, rx) = channel();
    drop(rx);
    tx.send(42);
}

#[test]
fn iterator_rx() {
    let (mut tx, rx) = channel();
    tx.send(1);
    tx.send(2);
    tx.send(3);
    tx.send(4);
    drop(tx);
    let mut rx_iter = rx.into_iter();
    assert_eq!(rx_iter.next(), Some(1));
    assert_eq!(rx_iter.next(), Some(2));
    assert_eq!(rx_iter.next(), Some(3));
    assert_eq!(rx_iter.next(), Some(4));
    assert_eq!(rx_iter.next(), None);
}

#[test]
fn exhausted_receiver_stays_closed() {
    let (mut tx, rx) = channel();
    tx.send(1);
    tx.send(2);
    drop(tx);
    let mut rx = rx.into_iter();
    assert_eq!(rx.next(), Some(1));
    assert_eq!(rx.next(), Some(2));
    assert_eq!(rx.next(), None);
    assert_eq!(rx.next(), None);
    assert_eq!(rx.recv(), None);
}

#[test]
fn many_senders_every_value_arrives() {
    for k in 1..=100usize {
        let (tx, mut rx) = channel();
        let mut senders = vec![tx];
        while senders.len() < k {
            let next = senders[0].clone();
            senders.push(next);
        }
        for (i, sender) in senders.iter_mut().enumerate() {
            sender.send(i);
        }
        drop(senders);
        let mut got = Vec::new();
        while let Some(v) = rx.recv() {
            got.push(v);
        }
        got.sort();
        let expected: Vec<usize> = (0..k).collect();
        assert_eq!(got, expected);
        assert_eq!(rx.recv(), None);
    }
}

#[test]
fn clone_keeps_stream_open_until_last_drop() {
    let (tx, mut rx) = channel();
    let mut tx2 = tx.clone();
    drop(tx);
    tx2.send(7);
    assert_eq!(rx.recv(), Some(7));
    drop(tx2);
    assert_eq!(rx.recv(), None);
}

#[test]
fn inner_step_decides_all_three_cases() {
    let mut inner = Inner::new();
    inner.enqueue(1);
    inner.enqueue(2);
    inner.enqueue(3);
    match inner.step() {
        Step::Yield(head, rest) => {
            assert_eq!(head, 1);
            assert_eq!(rest, VecDeque::from(vec![2, 3]));
        }
        _ => panic!("a pending message must be yielded"),
    }
    assert!(matches!(inner.step(), Step::Wait));
    let was_last = inner.remove_sender();
    assert!(was_last);
    assert!(matches!(inner.step(), Step::Closed));
}

#[test]
fn inner_drain_is_fifo() {
    let mut inner = Inner::new();
    inner.enqueue(10);
    inner.enqueue(20);
    inner.enqueue(30);
    assert!(inner.remove_sender());
    assert_eq!(inner.drain(), vec![10, 20, 30]);
    assert_eq!(inner.drain(), Vec::<i32>::new());
}

#[test]
fn sender_count_reports_last_exactly_once() {
    let mut inner = Inner::<u8>::new();
    inner.add_sender();
    inner.add_sender();
    assert!(!inner.remove_sender());
    assert!(!inner.remove_sender());
    assert!(inner.remove_sender());
    assert!(!inner.remove_sender());
}

#[test]
fn accept_batch_refills_buffer_in_order() {
    let (tx, mut rx) = channel();
    drop(tx);
    let head = rx.accept_batch(5, VecDeque::from(vec![6, 7]));
    assert_eq!(head, 5);
    assert_eq!(rx.recv(), Some(6));
    assert_eq!(rx.recv(), Some(7));
    assert_eq!(rx.recv(), None);
}
