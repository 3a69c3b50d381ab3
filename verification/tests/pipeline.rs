use tick_dashboard::record::Lvl1Data;
use tick_dashboard::tui::{Input, RenderAction, RenderEvent, Tui};
use tick_dashboard::ws_client::{IngestAction, IngestEvent, IngestStage, WsClient};
use tokio::sync::mpsc::{self, error::TrySendError};

fn named(id: i64) -> Lvl1Data {
    let mut record = Lvl1Data::default();
    record.tkr_id = id;
    record.tkr = format!("T{}", id);
    record
}

fn connected() -> WsClient {
    let mut client = WsClient::new(String::from("ws://localhost:8765"));
    client.step(IngestEvent::Connected);
    client
}

#[test]
fn full_channel_keeps_the_record_in_hand_until_a_receive() {
    let (tx, mut rx) = mpsc::channel::<Lvl1Data>(1);
    let mut client = connected();

    let first = match client.step(IngestEvent::Tick(named(1))) {
        Some(IngestAction::Send(record)) => record,
        other => panic!("no send: {:?}", other),
    };
    assert!(tx.try_send(first).is_ok());
    client.step(IngestEvent::Sent);

    let second = match client.step(IngestEvent::Tick(named(2))) {
        Some(IngestAction::Send(record)) => record,
        other => panic!("no send: {:?}", other),
    };
    let held = match tx.try_send(second) {
        Err(TrySendError::Full(record)) => record,
        other => panic!("the channel took a second record: {:?}", other),
    };
    assert_eq!(held.tkr_id, 2);
    assert_eq!(client.stage(), IngestStage::Sending);

    assert_eq!(rx.try_recv().map(|record| record.tkr_id).ok(), Some(1));
    assert!(tx.try_send(held).is_ok());
    assert!(matches!(client.step(IngestEvent::Sent), Some(IngestAction::Next)));
    assert_eq!(rx.try_recv().map(|record| record.tkr_id).ok(), Some(2));
}

#[test]
fn second_send_waits_for_the_consumer_and_order_is_kept() {
    let runtime = tokio::runtime::Builder::new_current_thread().build().expect("a runtime");
    runtime.block_on(async {
        let (tx, mut rx) = mpsc::channel::<Lvl1Data>(1);
        let producer = tokio::spawn(async move {
            let mut client = connected();
            for id in [1, 2] {
                if let Some(IngestAction::Send(record)) = client.step(IngestEvent::Tick(named(id)))
                {
                    let event = match tx.send(record).await {
                        Ok(()) => IngestEvent::Sent,
                        Err(_) => IngestEvent::ReceiverGone,
                    };
                    client.step(event);
                }
            }
            client.stage()
        });
        for _ in 0..16 {
            tokio::task::yield_now().await;
        }
        assert!(!producer.is_finished());
        assert_eq!(rx.recv().await.map(|record| record.tkr_id), Some(1));
        assert_eq!(rx.recv().await.map(|record| record.tkr_id), Some(2));
        assert_eq!(producer.await.ok(), Some(IngestStage::Listening));
    });
}

#[test]
fn dropped_receiver_ends_the_producer_with_channel_closed() {
    let (tx, rx) = mpsc::channel::<Lvl1Data>(1);
    drop(rx);
    let mut client = connected();
    let record = match client.step(IngestEvent::Tick(named(1))) {
        Some(IngestAction::Send(record)) => record,
        other => panic!("no send: {:?}", other),
    };
    let event = match tx.try_send(record) {
        Ok(()) => IngestEvent::Sent,
        Err(_) => IngestEvent::ReceiverGone,
    };
    assert!(matches!(
        client.step(event),
        Some(IngestAction::Finish(Some(tick_dashboard::error::TaskError::ChannelClosed)))
    ));
}

#[test]
fn records_cross_the_channel_into_the_history_in_order() {
    let (tx, mut rx) = mpsc::channel::<Lvl1Data>(5);
    let mut client = connected();
    for id in 1..=3 {
        if let Some(IngestAction::Send(record)) = client.step(IngestEvent::Tick(named(id))) {
            assert!(tx.try_send(record).is_ok());
            client.step(IngestEvent::Sent);
        }
    }
    let mut tui = Tui::new();
    let mut frames = 0;
    let mut rounds = 0;
    while rounds < 4 {
        let event = match tui.request() {
            RenderAction::Draw => {
                frames += 1;
                RenderEvent::Drawn
            }
            RenderAction::Poll(_) => RenderEvent::Polled(Input::Quiet),
            RenderAction::Receive => match rx.try_recv() {
                Ok(record) => RenderEvent::Received(record),
                Err(_) => RenderEvent::Empty,
            },
            RenderAction::Yield => {
                rounds += 1;
                RenderEvent::Yielded
            }
            RenderAction::Stop(error) => panic!("stopped: {:?}", error),
        };
        assert!(tui.step(event).is_some());
    }
    assert_eq!(frames, 7);
    let ring = tui.data_list();
    assert_eq!(ring.current().tkr_id, 3);
    let pairs: Vec<(i64, i64)> =
        ring.ordered_view().iter().take(3).map(|(a, b)| (a.tkr_id, b.tkr_id)).collect();
    assert_eq!(pairs, vec![(3, 2), (2, 1), (1, 0)]);
}
