use debounce::{DebounceEngine, ScheduleRecord, Span, Timestamp};

fn runtime() -> tokio::runtime::Runtime {
    tokio::runtime::Builder::new_current_thread().build().unwrap()
}

#[test]
fn engine_first_value_is_immediate() {
    let mut e = DebounceEngine::new(Span::from_micros(1_000));
    let d = e.on_new_value(Timestamp::from_micros(0));
    assert_eq!(d.wait, None);
    assert!(!d.cancel_previous);
    assert_eq!(e.min_interval(), Span::from_micros(1_000));
}

#[test]
fn engine_sees_a_finished_task() {
    let rt = runtime();
    let mut e = DebounceEngine::new(Span::from_micros(1_000));
    e.on_new_value(Timestamp::from_micros(0));
    let h = rt.spawn(async {});
    rt.block_on(async {
        while !h.is_finished() {
            tokio::task::yield_now().await;
        }
    });
    e.attach(h);
    let d = e.on_new_value(Timestamp::from_micros(10));
    assert!(d.cancel_previous);
    assert_eq!(d.wait, Some(Span::from_micros(1_000)));
    assert_eq!(
        e.scheduler().last,
        Some(ScheduleRecord { scheduled_at: Timestamp::from_micros(10), wait: d.wait })
    );
}

#[test]
fn engine_sees_a_pending_task() {
    let rt = runtime();
    let mut e = DebounceEngine::new(Span::from_micros(1_000));
    e.on_new_value(Timestamp::from_micros(0));
    e.attach(rt.spawn(std::future::pending::<()>()));
    let d = e.on_new_value(Timestamp::from_micros(10));
    assert!(d.cancel_previous);
    assert_eq!(d.wait, None);
}
