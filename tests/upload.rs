use speedhive::event::UploadEvent;
use speedhive::rate::Rate;
use speedhive::upload::{
    clamp_chunk_size, first_request_bytes, shrink_request, upload_progress, BodyPlan, UploadAction,
    UploadSession, MIN_REQUEST_BYTES,
};

#[test]
fn chunk_size_is_clamped() {
    assert_eq!(clamp_chunk_size(1_048_576_000), 1_048_576);
    assert_eq!(clamp_chunk_size(100), 8192);
    assert_eq!(clamp_chunk_size(262_144), 262_144);
}

#[test]
fn started_reports_clamped_chunk() {
    let (_, ev) = UploadSession::new("http://up.test/", 0, 1_048_576_000);
    assert_eq!(
        ev,
        UploadEvent::Started { url: "http://up.test/".to_string(), duration_ms: 0, chunk_size: 1_048_576 }
    );
    let (s, _) = UploadSession::new("http://up.test/", 0, 100);
    assert_eq!(s.chunk_size(), 8192);
}

#[test]
fn first_request_is_sixteen_chunks_within_bounds() {
    assert_eq!(first_request_bytes(262_144), 4_194_304);
    assert_eq!(first_request_bytes(8192), 131_072);
    assert_eq!(first_request_bytes(1_048_576), 8_388_608);
}

#[test]
fn shrinking_halves_down_to_minimum() {
    assert_eq!(shrink_request(8_388_608), Some(4_194_304));
    assert_eq!(shrink_request(100_000), Some(65_536));
    assert_eq!(shrink_request(65_536), None);
}

#[test]
fn server_rejecting_everything_stops_the_loop() {
    let (mut s, _) = UploadSession::new("http://up.test/", 60_000, 1_048_576);
    let mut posts = Vec::new();
    let mut now = 0u64;
    loop {
        match s.next_action(now, 0) {
            UploadAction::Post { request_bytes } => {
                assert!(request_bytes >= MIN_REQUEST_BYTES);
                posts.push(request_bytes);
                s.post_answered(413);
                now += 1000;
            }
            UploadAction::Settle => break,
            UploadAction::Stop => panic!("stopped before settling"),
        }
        assert!(posts.len() <= 8);
    }
    assert_eq!(
        posts,
        vec![8_388_608, 4_194_304, 2_097_152, 1_048_576, 524_288, 262_144, 131_072, 65_536]
    );
    let fin = s.finish(now + 50_000, 0).unwrap();
    assert!(matches!(fin, UploadEvent::Finished { bytes: 0, .. }));
    assert_eq!(s.next_action(now, 0), UploadAction::Stop);
}

#[test]
fn success_keeps_size_and_deadline_settles() {
    let (mut s, _) = UploadSession::new("http://up.test/", 1000, 262_144);
    assert_eq!(s.next_action(0, 0), UploadAction::Post { request_bytes: 4_194_304 });
    s.post_answered(200);
    assert_eq!(s.next_action(500_000, 4_194_304), UploadAction::Post { request_bytes: 4_194_304 });
    s.post_answered(200);
    assert_eq!(s.next_action(1_000_000, 8_388_608), UploadAction::Settle);
    assert_eq!(
        s.finish(1_050_000, 8_388_608),
        Some(UploadEvent::Finished {
            elapsed_ms: 1050,
            bytes: 8_388_608,
            avg_mbps: Rate { bits: 67_108_864, micros: 1_050_000 }
        })
    );
    assert_eq!(s.finish(2_000_000, 0), None);
}

#[test]
fn byte_cap_settles() {
    let (mut s, _) = UploadSession::new("http://up.test/", 60_000, 262_144);
    assert_eq!(s.next_action(1000, 209_715_200), UploadAction::Settle);
}

#[test]
fn transport_failure_finishes_instead_of_failing() {
    let (mut s, _) = UploadSession::new("http://up.test/", 10_000, 262_144);
    assert!(matches!(s.next_action(0, 0), UploadAction::Post { .. }));
    s.post_failed();
    assert_eq!(s.next_action(10, 1_000_000), UploadAction::Settle);
    let fin = s.finish(100_000, 1_000_000).unwrap();
    assert_eq!(
        fin,
        UploadEvent::Finished { elapsed_ms: 100, bytes: 1_000_000, avg_mbps: Rate { bits: 8_000_000, micros: 100_000 } }
    );
}

#[test]
fn client_failure_is_an_error_with_causes() {
    let (mut s, _) = UploadSession::new("http://up.test/", 1000, 262_144);
    let ev = s.client_failed("builder error", &vec!["bad tls backend".to_string()]).unwrap();
    assert_eq!(
        ev,
        UploadEvent::Error { message: "Failed to build HTTP client:\nbuilder error\ncaused by: bad tls backend".to_string() }
    );
    assert_eq!(s.client_failed("again", &Vec::new()), None);
    assert_eq!(s.next_action(0, 0), UploadAction::Stop);
}

#[test]
fn zero_duration_upload_runs_for_minimum() {
    let (mut s, _) = UploadSession::new("http://up.test/", 0, 262_144);
    assert!(matches!(s.next_action(0, 0), UploadAction::Post { .. }));
    s.post_answered(200);
    assert!(matches!(s.next_action(249_999, 0), UploadAction::Post { .. }));
    s.post_answered(200);
    assert_eq!(s.next_action(250_000, 0), UploadAction::Settle);
}

#[test]
fn progress_is_cumulative() {
    assert_eq!(
        upload_progress(2_500_000, 2_000_000),
        UploadEvent::Progress { elapsed_ms: 2000, bytes: 2_500_000, mbps: Rate { bits: 20_000_000, micros: 2_000_000 } }
    );
}

#[test]
fn body_plan_adds_up_to_request() {
    let mut plan = BodyPlan::new(20_000, 8192);
    let mut pieces = Vec::new();
    while let Some(p) = plan.next_piece() {
        pieces.push(p);
    }
    assert_eq!(pieces, vec![8192, 8192, 3616]);
    assert_eq!(plan.next_piece(), None);
}
