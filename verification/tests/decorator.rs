use reqlog::HelloWorld;
use reqlog::InnerPoll;
use reqlog::LogEvent;
use reqlog::Logging;
use reqlog::Phase;

#[test]
fn new_keeps_inner_service() {
    let svc = Logging::new(7u32);
    assert_eq!(svc.inner, 7u32);
}

#[test]
fn readiness_matches_inner_ready() {
    let svc = Logging::new(HelloWorld);
    let r = svc.poll_ready::<String>(InnerPoll::Ready(Ok(())));
    assert!(matches!(r, InnerPoll::Ready(Ok(()))));
}

#[test]
fn readiness_matches_inner_pending() {
    let svc = Logging::new(HelloWorld);
    let r = svc.poll_ready::<String>(InnerPoll::Pending);
    assert!(matches!(r, InnerPoll::Pending));
}

#[test]
fn readiness_matches_inner_error() {
    let svc = Logging::new(HelloWorld);
    let r = svc.poll_ready::<String>(InnerPoll::Ready(Err(String::from("overloaded"))));
    match r {
        InnerPoll::Ready(Err(e)) => assert_eq!(e, "overloaded"),
        _ => panic!("readiness was not the inner service's readiness"),
    }
}

#[test]
fn hello_world_always_ready() {
    let r = HelloWorld.poll_ready::<String>();
    assert!(matches!(r, InnerPoll::Ready(Ok(()))));
}

#[test]
fn hello_world_fixed_body() {
    assert_eq!(HelloWorld.call(), "HelloWorld");
}

#[test]
fn immediate_response_logs_start_then_complete() {
    let svc = Logging::new(HelloWorld);
    let mut f = svc.call(String::from("GET"), String::from("/"), 0);
    assert!(matches!(f.phase, Phase::Created));

    let body = HelloWorld.call();
    let (events, out) = f.poll_step::<String, String>(0, InnerPoll::Ready(Ok(body)));

    assert_eq!(events.len(), 2);
    match &events[0] {
        LogEvent::Start { method, path } => {
            assert_eq!(method, "GET");
            assert_eq!(path, "/");
        }
        _ => panic!("first event was not the start event"),
    }
    match &events[1] {
        LogEvent::Complete { method, path, elapsed_ms } => {
            assert_eq!(method, "GET");
            assert_eq!(path, "/");
            assert_eq!(*elapsed_ms, 0);
        }
        _ => panic!("second event was not the completion event"),
    }
    match out {
        InnerPoll::Ready(Ok(body)) => assert_eq!(body, "HelloWorld"),
        _ => panic!("the inner outcome was not passed through"),
    }
    assert!(matches!(f.phase, Phase::Terminal));
}

#[test]
fn delayed_response_reports_elapsed_units() {
    let svc = Logging::new(HelloWorld);
    let mut f = svc.call(String::from("GET"), String::from("/slow"), 0);

    let (events, out) = f.poll_step::<String, String>(0, InnerPoll::Pending);
    assert_eq!(events.len(), 1);
    assert!(matches!(&events[0], LogEvent::Start { .. }));
    assert!(matches!(out, InnerPoll::Pending));
    assert!(matches!(f.phase, Phase::InProgress));

    let (events, out) = f.poll_step::<String, String>(5, InnerPoll::Ready(Ok(HelloWorld.call())));
    assert_eq!(events.len(), 1);
    match &events[0] {
        LogEvent::Complete { method, path, elapsed_ms } => {
            assert_eq!(method, "GET");
            assert_eq!(path, "/slow");
            assert_eq!(*elapsed_ms, 5);
        }
        _ => panic!("the terminal poll did not emit the completion event"),
    }
    assert!(matches!(out, InnerPoll::Ready(Ok(_))));
    assert!(matches!(f.phase, Phase::Terminal));
}

#[test]
fn error_passed_through_and_still_logged() {
    let svc = Logging::new(HelloWorld);
    let mut f = svc.call(String::from("GET"), String::from("/fail"), 3);

    let (events, out) = f.poll_step::<String, String>(10, InnerPoll::Ready(Err(String::from("boom"))));
    assert_eq!(events.len(), 2);
    match &events[1] {
        LogEvent::Complete { elapsed_ms, .. } => assert_eq!(*elapsed_ms, 7),
        _ => panic!("no completion event on failure"),
    }
    match out {
        InnerPoll::Ready(Err(e)) => assert_eq!(e, "boom"),
        _ => panic!("the error value was not delivered unchanged"),
    }
}

#[test]
fn start_logged_exactly_once() {
    let svc = Logging::new(HelloWorld);
    let mut f = svc.call(String::from("POST"), String::from("/job"), 0);

    let (events, _) = f.poll_step::<String, String>(1, InnerPoll::Pending);
    assert_eq!(events.len(), 1);
    let (events, _) = f.poll_step::<String, String>(2, InnerPoll::Pending);
    assert_eq!(events.len(), 0);
    let (events, _) = f.poll_step::<String, String>(3, InnerPoll::Pending);
    assert_eq!(events.len(), 0);
}

#[test]
fn dropped_future_emits_no_complete() {
    let svc = Logging::new(HelloWorld);
    let mut f = svc.call(String::from("GET"), String::from("/abandoned"), 0);

    let mut all_events = Vec::new();
    for now in [0u64, 2, 4, 9] {
        let (events, out) = f.poll_step::<String, String>(now, InnerPoll::Pending);
        assert!(matches!(out, InnerPoll::Pending));
        all_events.extend(events);
    }
    drop(f);

    assert!(all_events.iter().all(|e| !matches!(e, LogEvent::Complete { .. })));
    assert_eq!(all_events.len(), 1);
}

#[test]
fn concurrent_requests_keep_their_own_metadata() {
    let svc = Logging::new(HelloWorld);
    let mut a = svc.call(String::from("GET"), String::from("/a"), 0);
    let mut b = svc.call(String::from("POST"), String::from("/b"), 10);
    let mut c = svc.call(String::from("DELETE"), String::from("/c"), 20);

    // Interleave the three requests' polls as a scheduler might.
    let (ea1, _) = a.poll_step::<String, String>(1, InnerPoll::Pending);
    let (eb1, _) = b.poll_step::<String, String>(11, InnerPoll::Pending);
    let (eb2, _) = b.poll_step::<String, String>(14, InnerPoll::Ready(Ok(String::from("b"))));
    let (ec1, _) = c.poll_step::<String, String>(25, InnerPoll::Ready(Err(String::from("c"))));
    let (ea2, _) = a.poll_step::<String, String>(9, InnerPoll::Ready(Ok(String::from("a"))));

    let completes: Vec<(String, String, u64)> = ea1
        .iter()
        .chain(eb1.iter())
        .chain(eb2.iter())
        .chain(ec1.iter())
        .chain(ea2.iter())
        .filter_map(|e| match e {
            LogEvent::Complete { method, path, elapsed_ms } => {
                Some((method.clone(), path.clone(), *elapsed_ms))
            }
            _ => None,
        })
        .collect();

    assert_eq!(completes.len(), 3);
    assert!(completes.contains(&(String::from("POST"), String::from("/b"), 4)));
    assert!(completes.contains(&(String::from("DELETE"), String::from("/c"), 5)));
    assert!(completes.contains(&(String::from("GET"), String::from("/a"), 9)));
}
