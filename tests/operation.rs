use pps::operation::{start, ChannelMessage, Outcome, CONDUIT_CAPACITY, SEVERED_DETAIL};
use tokio::sync::mpsc;

#[test]
fn updates_arrive_in_order_then_finish() {
    let (mut op, mut pw) = start::<u32>();
    let mut sent = Vec::new();
    for ev in [7u32, 3, 9] {
        sent.push(pw.send(ev));
    }
    sent.push(pw.finish(Ok(())));
    let mut got = Vec::new();
    let mut msgs = sent.into_iter();
    while let Some(u) = op.next_update(msgs.next()) {
        got.push(u);
    }
    assert_eq!(got, vec![7, 3, 9]);
    assert_eq!(op.outcome(), Outcome::Finish);
}

#[test]
fn failure_is_kept_as_outcome() {
    let (mut op, pw) = start::<u32>();
    let msg = pw.finish(Err("boom".to_string()));
    assert!(op.next_update(Some(msg)).is_none());
    assert_eq!(op.outcome(), Outcome::Error("boom".to_string()));
}

#[test]
fn severed_channel_becomes_error() {
    let (mut op, _pw) = start::<u32>();
    assert!(op.next_update(None).is_none());
    assert_eq!(op.outcome(), Outcome::Error(SEVERED_DETAIL.to_string()));
    assert_eq!(SEVERED_DETAIL, "operation was stopped in unexpected way");
}

#[test]
fn cancelled_outcome_passes_through() {
    let (mut op, _pw) = start::<String>();
    assert!(op.next_update(Some(ChannelMessage::Done(Outcome::Cancelled))).is_none());
    assert_eq!(op.outcome(), Outcome::Cancelled);
}

#[test]
fn empty_operation_finishes() {
    let (mut op, pw) = start::<u8>();
    let done = pw.finish(Ok(()));
    assert!(op.next_update(Some(done)).is_none());
    assert_eq!(op.outcome(), Outcome::Finish);
}

#[test]
fn send_waits_for_consumer() {
    let rt = tokio::runtime::Builder::new_current_thread().build().unwrap();
    rt.block_on(async {
        let (tx, mut rx) = mpsc::channel::<ChannelMessage<u32>>(CONDUIT_CAPACITY);
        let (mut op, mut pw) = start::<u32>();
        tx.send(pw.send(1)).await.unwrap();
        // The second update cannot be handed over while the first is unread.
        assert!(tx.try_send(pw.send(2)).is_err());
        assert_eq!(op.next_update(rx.recv().await), Some(1));
        tx.try_send(pw.send(2)).unwrap();
        let done = match tx.try_send(pw.finish(Ok(()))) {
            Err(mpsc::error::TrySendError::Full(msg)) => msg,
            _ => panic!("the outcome must wait for the second update to be taken"),
        };
        assert_eq!(op.next_update(rx.recv().await), Some(2));
        tx.try_send(done).unwrap();
        assert_eq!(op.next_update(rx.recv().await), None);
        assert_eq!(op.outcome(), Outcome::Finish);
    });
}
