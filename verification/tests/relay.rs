//! The hub protocol driven by real concurrent tasks: several relays parked
//! on a wakeup primitive, one broadcast wakes them all, and none sees a
//! signal that completed before it subscribed.

use std::sync::{Arc, Mutex};
use std::time::Duration;
use tokio::sync::{mpsc, Notify};
use typst_live::hub::Hub;
use typst_live::routes::refresh_frame;

struct Shared {
    hub: Mutex<Hub>,
    changed: Notify,
}

impl Shared {
    fn signal_change(&self) {
        {
            let mut hub = self.hub.lock().unwrap();
            if hub.generation < u64::MAX {
                hub.signal();
            }
        }
        self.changed.notify_waiters();
    }
}

#[test]
fn one_signal_pushes_to_every_connected_relay() {
    let rt = tokio::runtime::Builder::new_multi_thread()
        .worker_threads(4)
        .enable_time()
        .build()
        .unwrap();
    rt.block_on(async {
        let shared = Arc::new(Shared { hub: Mutex::new(Hub::new()), changed: Notify::new() });
        let (tx, mut rx) = mpsc::unbounded_channel::<(usize, String)>();

        let relays = 3usize;
        let mut subscribed = Vec::new();
        for id in 0..relays {
            let shared = shared.clone();
            let tx = tx.clone();
            let (ready_tx, ready_rx) = tokio::sync::oneshot::channel::<()>();
            subscribed.push(ready_rx);
            tokio::spawn(async move {
                let mut waiter = shared.hub.lock().unwrap().subscribe();
                ready_tx.send(()).unwrap();
                loop {
                    let woken = {
                        let hub = shared.hub.lock().unwrap();
                        if waiter.woken(&hub) {
                            waiter.acknowledge(&hub);
                            true
                        } else {
                            false
                        }
                    };
                    if woken {
                        tx.send((id, refresh_frame().to_string())).unwrap();
                    } else {
                        shared.changed.notified().await;
                    }
                }
            });
        }
        for ready in subscribed {
            ready.await.unwrap();
        }

        // one signal: every relay pushes exactly one refresh frame
        shared.signal_change();
        let mut seen = vec![0usize; relays];
        for _ in 0..relays {
            let (id, frame) = tokio::time::timeout(Duration::from_secs(5), rx.recv())
                .await
                .expect("a relay should have pushed")
                .unwrap();
            assert_eq!(frame, "refresh");
            seen[id] += 1;
        }
        assert_eq!(seen, vec![1, 1, 1]);

        // no further frame arrives without a further signal
        let extra = tokio::time::timeout(Duration::from_millis(200), rx.recv()).await;
        assert!(extra.is_err(), "a relay pushed without a new signal");

        // a second signal reaches every relay again
        shared.signal_change();
        let mut seen2 = vec![0usize; relays];
        for _ in 0..relays {
            let (id, _) = tokio::time::timeout(Duration::from_secs(5), rx.recv())
                .await
                .expect("a relay should have pushed after the second signal")
                .unwrap();
            seen2[id] += 1;
        }
        assert_eq!(seen2, vec![1, 1, 1]);
    });
}

#[test]
fn relay_subscribing_after_a_signal_waits_for_the_next() {
    let rt = tokio::runtime::Builder::new_multi_thread()
        .worker_threads(2)
        .enable_time()
        .build()
        .unwrap();
    rt.block_on(async {
        let shared = Arc::new(Shared { hub: Mutex::new(Hub::new()), changed: Notify::new() });

        // the signal completes before anyone subscribes
        shared.signal_change();

        let (tx, mut rx) = mpsc::unbounded_channel::<String>();
        let late = shared.clone();
        tokio::spawn(async move {
            let mut waiter = late.hub.lock().unwrap().subscribe();
            loop {
                let woken = {
                    let hub = late.hub.lock().unwrap();
                    if waiter.woken(&hub) {
                        waiter.acknowledge(&hub);
                        true
                    } else {
                        false
                    }
                };
                if woken {
                    tx.send(refresh_frame().to_string()).unwrap();
                } else {
                    late.changed.notified().await;
                }
            }
        });

        // the old signal is not replayed
        let replay = tokio::time::timeout(Duration::from_millis(200), rx.recv()).await;
        assert!(replay.is_err(), "a relay saw a signal that predated it");

        // the next signal is delivered
        shared.signal_change();
        let frame = tokio::time::timeout(Duration::from_secs(5), rx.recv())
            .await
            .expect("the relay should see the next signal")
            .unwrap();
        assert_eq!(frame, "refresh");
    });
}
