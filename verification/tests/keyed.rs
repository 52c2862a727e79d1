//! Behaviour of the keyed latest-value channel.

use latest::map::channel;
use latest::map::settle_try_recv;
use latest::map::settle_try_send;
use latest::map::RecvError;
use latest::map::SendError;
use latest::map::TryRecvError;
use latest::map::TrySendError;
use latest::GuardDenied;

#[test]
fn independent_keys_both_delivered() {
    let (tx, rx) = channel::<String, i32>();
    assert_eq!(tx.send(String::from("a"), 1), Ok(()));
    assert_eq!(tx.send(String::from("b"), 2), Ok(()));
    let mut batch = rx.recv().unwrap();
    batch.sort();
    assert_eq!(batch, vec![(String::from("a"), 1), (String::from("b"), 2)]);
}

#[test]
fn same_key_last_write_wins() {
    let (tx, rx) = channel::<String, i32>();
    assert_eq!(tx.send(String::from("k"), 1), Ok(()));
    assert_eq!(tx.send(String::from("k"), 2), Ok(()));
    let batch = rx.recv().unwrap();
    assert_eq!(batch, vec![(String::from("k"), 2)]);
}

#[test]
fn mixed_keys_snapshot() {
    let (tx, rx) = channel::<String, i32>();
    assert_eq!(tx.send(String::from("a"), 1), Ok(()));
    assert_eq!(tx.send(String::from("b"), 2), Ok(()));
    assert_eq!(tx.send(String::from("a"), 3), Ok(()));
    let mut batch = rx.recv().unwrap();
    batch.sort();
    assert_eq!(batch, vec![(String::from("a"), 3), (String::from("b"), 2)]);
}

#[test]
fn keyed_drain_is_idempotent() {
    let (tx, rx) = channel::<u64, u64>();
    assert_eq!(tx.send(1, 10), Ok(()));
    assert_eq!(rx.recv(), Ok(vec![(1, 10)]));
    assert_eq!(rx.recv(), Ok(vec![]));
    assert_eq!(rx.try_recv(), Ok(vec![]));
}

#[test]
fn keyed_try_variants_roundtrip() {
    let (tx, rx) = channel::<u64, i32>();
    assert_eq!(tx.try_send(1, 5), Ok(()));
    assert_eq!(tx.try_send(1, 6), Ok(()));
    assert_eq!(rx.try_recv(), Ok(vec![(1, 6)]));
    assert_eq!(rx.try_recv(), Ok(vec![]));
}

#[test]
fn keyed_clones_share_one_table() {
    let (tx, rx) = channel::<u64, i32>();
    let tx2 = tx.clone();
    assert_eq!(tx.send(1, 10), Ok(()));
    assert_eq!(tx2.send(2, 20), Ok(()));
    let mut batch = rx.recv().unwrap();
    batch.sort();
    assert_eq!(batch, vec![(1, 10), (2, 20)]);
}

#[test]
fn keyed_receiver_gone_closes_channel() {
    let (tx, rx) = channel::<String, i32>();
    drop(rx);
    match tx.send(String::from("k"), 3) {
        Err(SendError(k, v)) => {
            assert_eq!(k, "k");
            assert_eq!(v, 3);
        },
        Ok(()) => panic!("send succeeded with no receiver"),
    }
    match tx.try_send(String::from("k"), 4) {
        Err(TrySendError::ChannelClosed(k, v)) => {
            assert_eq!(k, "k");
            assert_eq!(v, 4);
        },
        _ => panic!("try_send did not report the closed channel"),
    }
}

#[test]
fn keyed_all_senders_gone_closes_channel() {
    let (tx, rx) = channel::<u64, i32>();
    let tx2 = tx.clone();
    drop(tx);
    drop(tx2);
    assert_eq!(rx.recv(), Err(RecvError));
    assert_eq!(rx.try_recv(), Err(TryRecvError::ChannelClosed));
}

#[test]
fn keyed_try_send_outcomes_map_exactly() {
    assert_eq!(settle_try_send::<u64, i32>(Ok(())), Ok(()));
    assert_eq!(
        settle_try_send::<u64, i32>(Err((GuardDenied::Broken, 1, 2))),
        Err(TrySendError::ChannelClosed(1, 2))
    );
    assert_eq!(
        settle_try_send::<u64, i32>(Err((GuardDenied::Busy, 1, 2))),
        Err(TrySendError::WouldBlock(1, 2))
    );
}

#[test]
fn keyed_try_recv_outcomes_map_exactly() {
    assert_eq!(settle_try_recv::<u64, i32>(Ok(vec![(1, 2)])), Ok(vec![(1, 2)]));
    assert_eq!(
        settle_try_recv::<u64, i32>(Err(GuardDenied::Broken)),
        Err(TryRecvError::ChannelClosed)
    );
    assert_eq!(settle_try_recv::<u64, i32>(Err(GuardDenied::Busy)), Err(TryRecvError::WouldBlock));
}
