use speedhive::download::{DownloadAction, DownloadSession};
use speedhive::endpoints::{download_candidates, is_blank, FALLBACK_PLAIN_URL, FALLBACK_TLS_URL};
use speedhive::event::DownloadEvent;
use speedhive::rate::Rate;

fn started(url: &str, duration_ms: u64) -> DownloadEvent {
    DownloadEvent::Started { url: url.to_string(), duration_ms }
}

#[test]
fn blank_url_uses_fallbacks_only() {
    assert_eq!(download_candidates("  \t "), vec![FALLBACK_TLS_URL.to_string(), FALLBACK_PLAIN_URL.to_string()]);
    assert_eq!(download_candidates(""), vec![FALLBACK_TLS_URL.to_string(), FALLBACK_PLAIN_URL.to_string()]);
}

#[test]
fn user_url_comes_first() {
    let c = download_candidates("http://example.test/file");
    assert_eq!(c.len(), 3);
    assert_eq!(c[0], "http://example.test/file");
    assert_eq!(c[1], FALLBACK_TLS_URL);
    assert_eq!(c[2], FALLBACK_PLAIN_URL);
}

#[test]
fn blank_detection() {
    assert!(is_blank(""));
    assert!(is_blank(" \n\t\u{3000}"));
    assert!(!is_blank(" a "));
}

#[test]
fn first_step_announces_first_candidate() {
    let (s, step) = DownloadSession::new("http://a.test/", 1000);
    assert_eq!(step.events, vec![started("http://a.test/", 1000)]);
    assert_eq!(step.action, DownloadAction::Connect { url: "http://a.test/".to_string() });
    assert_eq!(s.next_action(), step.action);
}

#[test]
fn even_stream_over_one_second() {
    let (mut s, _) = DownloadSession::new("http://a.test/", 1000);
    let step = s.responded(200, "200 OK", 0);
    assert!(step.events.is_empty());
    assert_eq!(step.action, DownloadAction::Pull);
    let mut events = Vec::new();
    let mut last = step;
    // 100 pieces of 12,500 bytes, one every 10 ms.
    for i in 1..=100u64 {
        last = s.received(12_500, i * 10_000);
        events.extend(last.events.clone());
    }
    assert_eq!(last.action, DownloadAction::Stop);
    match events.last().unwrap() {
        DownloadEvent::Finished { elapsed_ms, bytes, avg_mbps } => {
            assert_eq!(*elapsed_ms, 1000);
            assert_eq!(*bytes, 1_250_000);
            assert_eq!(*avg_mbps, Rate { bits: 10_000_000, micros: 1_000_000 });
            let mbps = avg_mbps.bits as f64 / avg_mbps.micros as f64;
            assert!((mbps - 10.0).abs() < 1e-9);
        }
        other => panic!("expected Finished, got {:?}", other),
    }
    // Progress every 250 ms: at 250, 500, 750 and 1000 ms.
    let progress: Vec<_> = events
        .iter()
        .filter_map(|e| match e {
            DownloadEvent::Progress { elapsed_ms, bytes, mbps } => Some((*elapsed_ms, *bytes, *mbps)),
            _ => None,
        })
        .collect();
    assert_eq!(progress.len(), 4);
    for w in progress.windows(2) {
        assert!(w[0].0 < w[1].0);
        assert!(w[0].1 <= w[1].1);
    }
    assert_eq!(progress[0], (250, 312_500, Rate { bits: 2_500_000, micros: 250_000 }));
}

#[test]
fn all_candidates_fail_with_cause_chain() {
    let (mut s, first) = DownloadSession::new("", 1000);
    let mut events = first.events;
    let causes = vec!["dns error".to_string(), "no such host".to_string()];
    let step = s.connect_failed("error sending request", &causes);
    assert_eq!(step.events, vec![started(FALLBACK_PLAIN_URL, 1000)]);
    events.extend(step.events);
    let step = s.connect_failed("error sending request", &causes);
    assert_eq!(step.action, DownloadAction::Stop);
    events.extend(step.events);
    assert_eq!(events.len(), 3);
    match &events[2] {
        DownloadEvent::Error { message } => {
            assert!(message.contains("caused by:"));
            assert_eq!(
                message,
                "Request failed:\nerror sending request\ncaused by: dns error\ncaused by: no such host"
            );
        }
        other => panic!("expected Error, got {:?}", other),
    }
}

#[test]
fn fallback_after_transport_failure() {
    let (mut s, _) = DownloadSession::new("http://down.test/", 500);
    let step = s.connect_failed("connection refused", &Vec::new());
    assert_eq!(step.events, vec![started(FALLBACK_TLS_URL, 500)]);
    assert_eq!(step.action, DownloadAction::Connect { url: FALLBACK_TLS_URL.to_string() });
}

#[test]
fn http_error_is_not_retried() {
    let (mut s, _) = DownloadSession::new("http://a.test/", 1000);
    let step = s.responded(404, "404 Not Found", 5_000);
    assert_eq!(
        step.events,
        vec![DownloadEvent::Error { message: "HTTP error from http://a.test/: 404 Not Found".to_string() }]
    );
    assert_eq!(step.action, DownloadAction::Stop);
    assert_eq!(s.next_action(), DownloadAction::Stop);
}

#[test]
fn read_error_ends_session() {
    let (mut s, _) = DownloadSession::new("http://a.test/", 1000);
    s.responded(200, "200 OK", 0);
    s.received(1000, 1000);
    let step = s.read_failed("connection reset");
    assert_eq!(step.events, vec![DownloadEvent::Error { message: "Download failed: connection reset".to_string() }]);
    assert_eq!(step.action, DownloadAction::Stop);
    // Nothing after the terminal event.
    let after = s.received(1000, 2000);
    assert!(after.events.is_empty());
    assert_eq!(after.action, DownloadAction::Stop);
}

#[test]
fn stream_end_finishes_with_what_was_measured() {
    let (mut s, _) = DownloadSession::new("http://a.test/", 10_000);
    s.responded(200, "200 OK", 0);
    s.received(500_000, 100_000);
    let step = s.stream_ended(400_000);
    assert_eq!(
        step.events,
        vec![DownloadEvent::Finished {
            elapsed_ms: 400,
            bytes: 500_000,
            avg_mbps: Rate { bits: 4_000_000, micros: 400_000 }
        }]
    );
}

#[test]
fn zero_duration_runs_for_minimum() {
    let (mut s, _) = DownloadSession::new("http://a.test/", 0);
    let step = s.responded(200, "200 OK", 0);
    assert_eq!(step.action, DownloadAction::Pull);
    let step = s.received(10, 249_999);
    assert_eq!(step.action, DownloadAction::Pull);
    let step = s.received(10, 250_000);
    assert_eq!(step.action, DownloadAction::Stop);
}

#[test]
fn clock_never_goes_backwards() {
    let (mut s, _) = DownloadSession::new("http://a.test/", 1000);
    s.responded(200, "200 OK", 300_000);
    let step = s.received(100, 10);
    assert!(step.events.is_empty());
    let step = s.stream_ended(20);
    match &step.events[0] {
        DownloadEvent::Finished { elapsed_ms, .. } => assert_eq!(*elapsed_ms, 300),
        other => panic!("expected Finished, got {:?}", other),
    }
}
