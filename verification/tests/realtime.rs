use std::sync::Arc;
use std::sync::Mutex;
use wiiboard::Acquisition;
use wiiboard::WiiBoardData;
use wiiboard::WiiBoardError;
use wiiboard::WiiBoardPoll;
use wiiboard::WiiBoardRealtime;
use wiiboard::WorkerEvent;

fn reading(tl: f32, tr: f32, bl: f32, br: f32) -> WiiBoardData {
    WiiBoardData {
        top_left: tl.to_bits(),
        top_right: tr.to_bits(),
        bottom_left: bl.to_bits(),
        bottom_right: br.to_bits(),
    }
}

fn balance(data: WiiBoardData) -> WorkerEvent {
    WorkerEvent::Polled(Ok(WiiBoardPoll::Balance(data)))
}

fn polling_board(interval_ms: u64) -> WiiBoardRealtime {
    let mut board = WiiBoardRealtime::new(5, interval_ms);
    assert_eq!(board.handle(WorkerEvent::Connected(Ok(()))), Acquisition::Poll);
    board
}

#[test]
fn realtime_starts_by_connecting_with_the_timeout() {
    let board = WiiBoardRealtime::new(7, 20);
    assert_eq!(board.stage(), Acquisition::Connect { timeout_seconds: 7 });
    assert_eq!(WiiBoardRealtime::poll(Some(&board)), Ok(None));
}

#[test]
fn realtime_has_no_reading_before_the_first_balance_event() {
    let mut board = WiiBoardRealtime::new(5, 10);
    assert_eq!(WiiBoardRealtime::poll(Some(&board)), Ok(None));
    board.handle(WorkerEvent::Connected(Ok(())));
    assert_eq!(WiiBoardRealtime::poll(Some(&board)), Ok(None));
    board.handle(WorkerEvent::Polled(Ok(WiiBoardPoll::Empty)));
    board.handle(WorkerEvent::Polled(Ok(WiiBoardPoll::Other)));
    assert_eq!(WiiBoardRealtime::poll(Some(&board)), Ok(None));
}

#[test]
fn realtime_returns_the_most_recent_reading() {
    let mut board = polling_board(10);
    let first = reading(1.0, 2.0, 3.0, 4.0);
    let second = reading(5.0, 6.0, 7.0, 8.0);
    assert_eq!(board.handle(balance(first)), Acquisition::Poll);
    assert_eq!(WiiBoardRealtime::poll(Some(&board)), Ok(Some(first)));
    assert_eq!(WiiBoardRealtime::poll(Some(&board)), Ok(Some(first)));
    assert_eq!(board.handle(balance(second)), Acquisition::Poll);
    assert_eq!(WiiBoardRealtime::poll(Some(&board)), Ok(Some(second)));
    board.handle(WorkerEvent::Polled(Ok(WiiBoardPoll::Empty)));
    board.handle(WorkerEvent::Polled(Ok(WiiBoardPoll::Other)));
    assert_eq!(WiiBoardRealtime::poll(Some(&board)), Ok(Some(second)));
}

#[test]
fn realtime_sleeps_the_interval_after_an_empty_probe() {
    let mut board = polling_board(25);
    assert_eq!(
        board.handle(WorkerEvent::Polled(Ok(WiiBoardPoll::Empty))),
        Acquisition::SleepThenPoll { millis: 25 }
    );
    assert_eq!(board.stage(), Acquisition::SleepThenPoll { millis: 25 });
    assert_eq!(
        board.handle(WorkerEvent::Polled(Ok(WiiBoardPoll::Empty))),
        Acquisition::SleepThenPoll { millis: 25 }
    );
    let mut unthrottled = polling_board(0);
    assert_eq!(
        unthrottled.handle(WorkerEvent::Polled(Ok(WiiBoardPoll::Empty))),
        Acquisition::SleepThenPoll { millis: 0 }
    );
    let mut slow = polling_board(u64::MAX);
    assert_eq!(
        slow.handle(WorkerEvent::Polled(Ok(WiiBoardPoll::Empty))),
        Acquisition::SleepThenPoll { millis: u64::MAX }
    );
}

#[test]
fn realtime_does_not_sleep_after_other_or_balance() {
    let mut board = polling_board(25);
    assert_eq!(board.handle(WorkerEvent::Polled(Ok(WiiBoardPoll::Other))), Acquisition::Poll);
    assert_eq!(board.handle(balance(reading(1.0, 2.0, 3.0, 4.0))), Acquisition::Poll);
    board.handle(WorkerEvent::Polled(Ok(WiiBoardPoll::Empty)));
    assert_eq!(board.handle(WorkerEvent::Polled(Ok(WiiBoardPoll::Other))), Acquisition::Poll);
    board.handle(WorkerEvent::Polled(Ok(WiiBoardPoll::Empty)));
    assert_eq!(board.handle(balance(reading(4.0, 3.0, 2.0, 1.0))), Acquisition::Poll);
    assert_eq!(WiiBoardRealtime::poll(Some(&board)), Ok(Some(reading(4.0, 3.0, 2.0, 1.0))));
}

#[test]
fn realtime_stops_when_connecting_fails() {
    for error in [WiiBoardError::NoBoardsFound, WiiBoardError::ConnectionFailed] {
        let mut board = WiiBoardRealtime::new(5, 10);
        assert_eq!(board.handle(WorkerEvent::Connected(Err(error))), Acquisition::Stopped(error));
        assert_eq!(board.stage(), Acquisition::Stopped(error));
        assert_eq!(WiiBoardRealtime::poll(Some(&board)), Ok(None));
    }
}

#[test]
fn realtime_stops_on_a_failed_probe_and_keeps_the_last_reading() {
    for error in [WiiBoardError::ConnectionDropped, WiiBoardError::NotABoard] {
        let mut board = polling_board(10);
        let last = reading(1.0, 2.0, 3.0, 4.0);
        board.handle(balance(last));
        assert_eq!(board.handle(WorkerEvent::Polled(Err(error))), Acquisition::Stopped(error));
        assert_eq!(WiiBoardRealtime::poll(Some(&board)), Ok(Some(last)));
    }
}

#[test]
fn realtime_that_stopped_stays_stopped() {
    let mut board = polling_board(10);
    let last = reading(1.0, 2.0, 3.0, 4.0);
    board.handle(balance(last));
    board.handle(WorkerEvent::Polled(Err(WiiBoardError::ConnectionDropped)));
    let stopped = Acquisition::Stopped(WiiBoardError::ConnectionDropped);
    assert_eq!(board.handle(WorkerEvent::Connected(Ok(()))), stopped);
    assert_eq!(board.handle(WorkerEvent::Polled(Ok(WiiBoardPoll::Empty))), stopped);
    assert_eq!(board.handle(balance(reading(9.0, 9.0, 9.0, 9.0))), stopped);
    assert_eq!(board.handle(WorkerEvent::Polled(Err(WiiBoardError::NotABoard))), stopped);
    assert_eq!(WiiBoardRealtime::poll(Some(&board)), Ok(Some(last)));
}

#[test]
fn realtime_ignores_reports_out_of_turn() {
    let mut board = WiiBoardRealtime::new(5, 10);
    let connect = Acquisition::Connect { timeout_seconds: 5 };
    assert_eq!(board.handle(balance(reading(1.0, 2.0, 3.0, 4.0))), connect);
    assert_eq!(board.handle(WorkerEvent::Polled(Err(WiiBoardError::NotABoard))), connect);
    assert_eq!(WiiBoardRealtime::poll(Some(&board)), Ok(None));
    let mut board = polling_board(10);
    assert_eq!(board.handle(WorkerEvent::Connected(Ok(()))), Acquisition::Poll);
    assert_eq!(
        board.handle(WorkerEvent::Connected(Err(WiiBoardError::NoBoardsFound))),
        Acquisition::Poll
    );
    board.handle(WorkerEvent::Polled(Ok(WiiBoardPoll::Empty)));
    assert_eq!(
        board.handle(WorkerEvent::Connected(Ok(()))),
        Acquisition::SleepThenPoll { millis: 10 }
    );
}

#[test]
fn realtime_reports_a_poisoned_lock() {
    assert_eq!(WiiBoardRealtime::poll(None), Err(WiiBoardError::MutexPoisoned));
}

#[test]
fn realtime_reads_through_a_lock_see_only_published_readings() {
    let shared = Arc::new(Mutex::new(polling_board(1)));
    let reader = shared.clone();
    let mut published: Vec<WiiBoardData> = Vec::new();
    for n in 1..=200u32 {
        let before = {
            let locked = reader.lock().ok();
            WiiBoardRealtime::poll(locked.as_deref())
        };
        assert_eq!(before, Ok(published.last().copied()));
        let event = match n % 4 {
            0 => WorkerEvent::Polled(Ok(WiiBoardPoll::Empty)),
            1 => WorkerEvent::Polled(Ok(WiiBoardPoll::Other)),
            _ => {
                let data = WiiBoardData {
                    top_left: n,
                    top_right: n.wrapping_mul(3),
                    bottom_left: !n,
                    bottom_right: n ^ 0x5a5a_5a5a,
                };
                published.push(data);
                balance(data)
            }
        };
        shared.lock().expect("lock").handle(event);
        let locked = reader.lock().ok();
        let after = WiiBoardRealtime::poll(locked.as_deref());
        assert_eq!(after, Ok(published.last().copied()));
        if let Ok(Some(seen)) = after {
            assert!(published.contains(&seen));
        }
    }
    assert_eq!(published.len(), 100);
}
