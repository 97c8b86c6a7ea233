use transcoder::assets::AssetDirectory;
use transcoder::error::CompressError;
use transcoder::orchestrator::{
    complete_compression, complete_thumbnail, plan_compression, plan_duration_probe,
    plan_thumbnail, probe_outcome, JANITOR_TTL_MILLIS,
};
use transcoder::session::{EncoderInvocation, Session, SessionState};

fn invocation(output: Option<&[u8]>) -> EncoderInvocation {
    EncoderInvocation {
        input_path: b"/videos/in.mov".to_vec(),
        output_path: output.map(|p| p.to_vec()),
        args: Vec::new(),
        video_id: None,
    }
}

#[test]
fn clean_exit_with_output_succeeds() {
    let mut session = Session::new(invocation(Some(b"/assets/out.mp4")));
    session.start();
    session.finish(true, Some(1234));
    assert_eq!(session.state, SessionState::Succeeded);
}

#[test]
fn clean_exit_without_output_fails() {
    let mut session = Session::new(invocation(Some(b"/assets/out.mp4")));
    session.start();
    session.finish(true, None);
    assert_eq!(session.state, SessionState::Failed);
}

#[test]
fn clean_exit_with_empty_output_fails() {
    let mut session = Session::new(invocation(Some(b"/assets/out.mp4")));
    session.start();
    session.finish(true, Some(0));
    assert_eq!(session.state, SessionState::Failed);
}

#[test]
fn unclean_exit_fails() {
    let mut session = Session::new(invocation(Some(b"/assets/out.mp4")));
    session.start();
    session.finish(false, Some(1234));
    assert_eq!(session.state, SessionState::Failed);
}

#[test]
fn fatal_line_fails_even_a_clean_exit() {
    let mut session = Session::new(invocation(Some(b"/assets/out.mp4")));
    session.start();
    session.observe_line(b"Error while decoding stream #0:0: Invalid data found");
    session.finish(true, Some(1234));
    assert_eq!(session.state, SessionState::Failed);
}

#[test]
fn spawn_failure_is_its_own_class() {
    let mut session = Session::new(invocation(Some(b"/assets/out.mp4")));
    let e = session.mark_spawn_failure();
    assert_eq!(e, CompressError::ProcessSpawnFailure);
    assert_eq!(session.state, SessionState::Failed);
    match complete_compression(&session, 1) {
        Err(err) => assert_eq!(err, CompressError::ProcessSpawnFailure),
        Ok(_) => panic!("a run that never started must not produce a result"),
    }
}

#[test]
fn failure_message_carries_the_captured_text() {
    let mut session = Session::new(invocation(Some(b"/assets/out.mp4")));
    session.start();
    session.observe_line(b"Error: invalid data");
    session.finish(true, Some(10));
    assert_eq!(session.state, SessionState::Failed);
    assert_eq!(
        session.failure_message(),
        b"the encoder failed or produced no output: Error: invalid data".to_vec()
    );
}

#[test]
fn failure_message_without_captured_text() {
    let mut session = Session::new(invocation(Some(b"/assets/out.mp4")));
    let _ = session.mark_spawn_failure();
    assert_eq!(
        session.failure_message(),
        b"could not start the encoder process".to_vec()
    );
}

#[test]
fn cancelling_running_session_kills_the_child() {
    let mut session = Session::new(invocation(Some(b"/assets/out.mp4")));
    session.start();
    let teardown = session.cancel();
    assert!(teardown.kill_process);
    assert!(teardown.remove_output);
    assert_eq!(session.state, SessionState::Cancelled);
}

#[test]
fn cancelling_before_start_has_nothing_to_kill() {
    let mut session = Session::new(invocation(Some(b"/assets/out.mp4")));
    let teardown = session.cancel();
    assert!(!teardown.kill_process);
    assert!(!teardown.remove_output);
    assert_eq!(session.state, SessionState::Cancelled);
}

#[test]
fn observed_lines_drive_duration_and_progress() {
    let mut session = Session::new(invocation(None));
    session.start();
    session.observe_line(b"Input #0, mov, from '/videos/in.mov':");
    assert_eq!(session.duration_millis, None);
    session.observe_line(b"  Duration: 00:01:30.50, start: 0.000000, bitrate: 1200 kb/s");
    assert_eq!(session.duration_millis, Some(90500));
    // the first announced duration is kept
    session.observe_line(b"  Duration: 00:09:00.00, start: 0.000000");
    assert_eq!(session.duration_millis, Some(90500));
    session.observe_line(b"frame= 10 time=00:00:01.00 bitrate= 400k");
    assert_eq!(session.progress_millis, Some(1000));
    // the latest progress wins
    session.observe_line(b"frame= 50 time=00:00:05.12 bitrate= 400k");
    assert_eq!(session.progress_millis, Some(5120));
    assert_eq!(session.state, SessionState::Running);
}

#[test]
fn progress_percent_tracks_elapsed_over_total() {
    let mut session = Session::new(invocation(None));
    session.start();
    assert_eq!(session.progress_percent(), None);
    session.observe_line(b"  Duration: 00:01:40.00, start: 0.000000");
    assert_eq!(session.progress_percent(), None);
    session.observe_line(b"frame= 10 time=00:00:25.00 bitrate= 400k");
    assert_eq!(session.progress_percent(), Some(25));
    // a progress report past the announced duration is capped
    session.observe_line(b"frame= 99 time=00:02:00.00 bitrate= 400k");
    assert_eq!(session.progress_percent(), Some(100));
}

#[test]
fn fatal_line_is_captured_as_diagnostic() {
    let mut session = Session::new(invocation(None));
    session.start();
    session.observe_line(b"Error while decoding stream #0:0: Invalid data found");
    assert_eq!(
        session.fatal_diagnostic.as_deref(),
        Some(b"Error while decoding stream #0:0: Invalid data found".as_slice())
    );
    session.observe_line(b"harmless trailing line");
    assert!(session.fatal_diagnostic.is_some());
}

#[test]
fn compress_plan_for_fast_mp4_yields_mp4_result() {
    let mut assets = AssetDirectory::new(b"/data/assets".to_vec());
    let inv = plan_compression(
        &mut assets,
        b"/videos/in.mov",
        b"mp4",
        "fast-mp4",
        Some("job-1".to_string()),
    )
    .unwrap();
    let out = inv.output_path.clone().unwrap();
    assert!(out.ends_with(b".mp4"));
    assert_eq!(inv.input_path, b"/videos/in.mov".to_vec());
    assert_eq!(inv.video_id.as_deref(), Some("job-1"));
    assert!(!inv.args.is_empty());

    let mut session = Session::new(inv);
    session.start();
    session.observe_line(b"  Duration: 00:01:30.50, start: 0.000000");
    session.finish(true, Some(4321));
    let result = complete_compression(&session, 10000).unwrap();
    assert!(result.output_path.ends_with(b".mp4"));
    assert!(result.output_size > 0);
    assert_eq!(result.output_size, 4321);
    assert_eq!(result.duration_millis, Some(90500));
    assert_eq!(result.original_size, 10000);
    assert_eq!(result.size_delta(), 10000i128 - 4321i128);
}

#[test]
fn compress_plan_rejects_unknown_preset() {
    let mut assets = AssetDirectory::new(b"/data/assets".to_vec());
    match plan_compression(&mut assets, b"/videos/in.mov", b"mp4", "vhs", None) {
        Err(e) => assert_eq!(e, CompressError::UnknownPreset),
        Ok(_) => panic!("unknown preset must be rejected"),
    }
    // nothing was allocated: the next path still carries the first token
    let first = assets.allocate_output_path(b"mp4");
    assert_eq!(first, b"/data/assets/00000000000000000000.mp4".to_vec());
}

#[test]
fn failed_session_reports_runtime_failure() {
    let mut session = Session::new(invocation(Some(b"/assets/out.mp4")));
    session.start();
    session.finish(false, None);
    match complete_compression(&session, 1) {
        Err(e) => assert_eq!(e, CompressError::EncoderRuntimeFailure),
        Ok(_) => panic!("failed run must not produce a result"),
    }
}

#[test]
fn cancelled_session_reports_cancellation() {
    let mut session = Session::new(invocation(Some(b"/assets/out.mp4")));
    session.start();
    session.cancel();
    match complete_compression(&session, 1) {
        Err(e) => assert_eq!(e, CompressError::Cancelled),
        Ok(_) => panic!("cancelled run must not produce a result"),
    }
}

#[test]
fn thumbnail_plan_and_completion() {
    let mut assets = AssetDirectory::new(b"/data/assets".to_vec());
    let inv = plan_thumbnail(&mut assets, b"/videos/in.mov");
    let args: Vec<&str> = inv.args.iter().map(|s| s.as_str()).collect();
    assert_eq!(args, ["-vframes", "1", "-f", "image2"]);
    assert!(inv.output_path.clone().unwrap().ends_with(b".jpg"));

    let mut session = Session::new(inv);
    session.start();
    session.finish(true, Some(800));
    let thumb = complete_thumbnail(&session, 320, 180).unwrap();
    assert!(thumb.image_path.ends_with(b".jpg"));
    assert_eq!((thumb.width, thumb.height), (320, 180));
}

#[test]
fn duration_probe_without_metadata_is_absent_not_error() {
    let inv = plan_duration_probe(b"/videos/in.mov");
    assert!(inv.output_path.is_none());
    assert!(inv.args.is_empty());

    let mut session = Session::new(inv);
    session.start();
    session.observe_line(b"Input #0, mov, from '/videos/in.mov':");
    session.observe_line(b"  Duration: N/A, start: 0.000000");
    assert_eq!(session.duration_millis, None);
    let outcome = probe_outcome(true, session.duration_millis).unwrap();
    assert_eq!(outcome, None);
}

#[test]
fn duration_probe_renders_what_it_heard() {
    let outcome = probe_outcome(true, Some(90500)).unwrap();
    assert_eq!(outcome, Some(b"00:01:30.500".to_vec()));
}

#[test]
fn duration_probe_spawn_failure_is_hard() {
    match probe_outcome(false, None) {
        Err(e) => assert_eq!(e, CompressError::ProcessSpawnFailure),
        Ok(_) => panic!("a probe that never ran must fail"),
    }
}

#[test]
fn janitor_ttl_is_a_day() {
    assert_eq!(JANITOR_TTL_MILLIS, 24 * 60 * 60 * 1000);
}
