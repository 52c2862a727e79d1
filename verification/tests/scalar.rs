//! Behaviour of the scalar latest-value channel.

use latest::value::channel;
use latest::value::settle_recv;
use latest::value::settle_try_recv;
use latest::value::settle_try_send;
use latest::value::RecvError;
use latest::value::SendError;
use latest::value::TryRecvError;
use latest::value::TrySendError;
use latest::GuardBroken;
use latest::GuardDenied;

#[test]
fn overwrite_then_recv() {
    let (tx, rx) = channel::<i32>();
    assert_eq!(tx.send(1), Ok(()));
    assert_eq!(tx.send(2), Ok(()));
    assert_eq!(rx.recv(), Ok(2));
    assert_eq!(rx.recv(), Err(RecvError::NoNewValue));
}

#[test]
fn drain_is_idempotent() {
    let (tx, rx) = channel::<u64>();
    assert_eq!(tx.send(7), Ok(()));
    assert_eq!(rx.recv(), Ok(7));
    assert_eq!(rx.recv(), Err(RecvError::NoNewValue));
    assert_eq!(rx.try_recv(), Err(TryRecvError::NoNewValue));
}

#[test]
fn empty_channel_reports_no_new_value() {
    let (_tx, rx) = channel::<String>();
    assert_eq!(rx.recv(), Err(RecvError::NoNewValue));
    assert_eq!(rx.try_recv(), Err(TryRecvError::NoNewValue));
}

#[test]
fn try_variants_roundtrip() {
    let (tx, rx) = channel::<i32>();
    assert_eq!(tx.try_send(5), Ok(()));
    assert_eq!(tx.try_send(6), Ok(()));
    assert_eq!(rx.try_recv(), Ok(6));
    assert_eq!(rx.try_recv(), Err(TryRecvError::NoNewValue));
}

#[test]
fn clones_share_one_slot() {
    let (tx, rx) = channel::<i32>();
    let tx2 = tx.clone();
    assert_eq!(tx2.send(9), Ok(()));
    assert_eq!(rx.recv(), Ok(9));
    assert_eq!(tx.send(10), Ok(()));
    assert_eq!(tx2.send(11), Ok(()));
    assert_eq!(rx.recv(), Ok(11));
}

#[test]
fn receiver_gone_closes_channel() {
    let (tx, rx) = channel::<i32>();
    drop(rx);
    assert_eq!(tx.send(3), Err(SendError(3)));
    assert_eq!(tx.try_send(4), Err(TrySendError::ChannelClosed(4)));
    // The terminal state persists, and the value always comes back.
    assert_eq!(tx.send(5), Err(SendError(5)));
}

#[test]
fn all_senders_gone_closes_channel() {
    let (tx, rx) = channel::<i32>();
    let tx2 = tx.clone();
    assert_eq!(tx.send(1), Ok(()));
    drop(tx);
    drop(tx2);
    assert_eq!(rx.recv(), Err(RecvError::ChannelClosed));
    assert_eq!(rx.try_recv(), Err(TryRecvError::ChannelClosed));
}

#[test]
fn one_sender_left_keeps_channel_open() {
    let (tx, rx) = channel::<i32>();
    let tx2 = tx.clone();
    drop(tx);
    assert_eq!(tx2.send(8), Ok(()));
    assert_eq!(rx.recv(), Ok(8));
}

#[test]
fn recv_outcomes_map_exactly() {
    assert_eq!(settle_recv::<i32>(Ok(Some(5))), Ok(5));
    assert_eq!(settle_recv::<i32>(Ok(None)), Err(RecvError::NoNewValue));
    assert_eq!(settle_recv::<i32>(Err(GuardBroken)), Err(RecvError::ChannelClosed));
}

#[test]
fn try_recv_outcomes_map_exactly() {
    assert_eq!(settle_try_recv::<i32>(Ok(Some(5))), Ok(5));
    assert_eq!(settle_try_recv::<i32>(Ok(None)), Err(TryRecvError::NoNewValue));
    assert_eq!(settle_try_recv::<i32>(Err(GuardDenied::Broken)), Err(TryRecvError::ChannelClosed));
    assert_eq!(settle_try_recv::<i32>(Err(GuardDenied::Busy)), Err(TryRecvError::WouldBlock));
}

#[test]
fn try_send_outcomes_map_exactly() {
    assert_eq!(settle_try_send::<i32>(Ok(())), Ok(()));
    assert_eq!(
        settle_try_send::<i32>(Err((GuardDenied::Broken, 3))),
        Err(TrySendError::ChannelClosed(3))
    );
    assert_eq!(
        settle_try_send::<i32>(Err((GuardDenied::Busy, 4))),
        Err(TrySendError::WouldBlock(4))
    );
}

#[test]
fn failed_send_hands_value_back() {
    let (tx, rx) = channel::<String>();
    drop(rx);
    match tx.send(String::from("kept")) {
        Err(SendError(v)) => assert_eq!(v, "kept"),
        Ok(()) => panic!("send succeeded with no receiver"),
    }
    match tx.try_send(String::from("also kept")) {
        Err(TrySendError::ChannelClosed(v)) => assert_eq!(v, "also kept"),
        _ => panic!("try_send did not report the closed channel"),
    }
}
