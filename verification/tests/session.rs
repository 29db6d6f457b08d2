use roton::command::{Command, Reply};
use roton::config::{AudioMode, SessionConfig};
use roton::recorder::{Recorder, Step};
use roton::session::{Phase, RecorderError, SessionState};

fn strings(items: &[&str]) -> Vec<String> {
    items.iter().map(|s| s.to_string()).collect()
}

fn config(mode: &str, mic: Option<&str>, monitor: Option<&str>) -> SessionConfig {
    SessionConfig::new("/videos/out.mp4", None, mode, mic, monitor)
}

/// Hands `replies` to the recorder one by one for as long as it asks for
/// work, and returns the commands it asked for and the result, if it came.
fn run(
    rec: &mut Recorder,
    first: Step,
    replies: Vec<Reply>,
) -> (Vec<Command>, Option<Result<(), RecorderError>>) {
    let mut commands = Vec::new();
    let mut step = first;
    let mut replies = replies.into_iter();
    loop {
        match step {
            Step::Finished(result) => return (commands, Some(result)),
            Step::Run(command) => {
                commands.push(command);
                match replies.next() {
                    Some(reply) => step = rec.advance(reply),
                    None => return (commands, None),
                }
            }
        }
    }
}

fn recording(mode: &str, mic: Option<&str>, monitor: Option<&str>) -> Recorder {
    let mut rec = Recorder::new("/tmp");
    let first = rec.start_session_at(config(mode, mic, monitor), "t0");
    let replies = if mode == "Both" {
        vec![
            Reply::Loaded("11\n".to_string()),
            Reply::Loaded("12\n".to_string()),
            Reply::Loaded("13\n".to_string()),
            Reply::Done,
        ]
    } else {
        vec![Reply::Done]
    };
    let (_, result) = run(&mut rec, first, replies);
    assert_eq!(result, Some(Ok(())));
    rec
}

#[test]
fn new_recorder_is_idle_and_empty() {
    let rec = Recorder::new("/tmp");
    assert_eq!(rec.state(), SessionState::Idle);
    assert_eq!(rec.phase(), Phase::Idle);
    assert!(!rec.is_paused());
    assert!(rec.segments().is_empty());
    assert!(rec.route().is_empty());
    assert_eq!(rec.current_segment(), None);
    assert_eq!(rec.temp_dir(), "/tmp");
}

#[test]
fn start_then_finish_moves_the_one_segment() {
    let mut rec = Recorder::new("/tmp");
    let first = rec.start_session_at(config("Mute", None, None), "12-30-00-5");
    let (commands, result) = run(&mut rec, first, vec![Reply::Done]);
    assert_eq!(result, Some(Ok(())));
    assert_eq!(
        commands,
        vec![Command::Capture(strings(&["-f", "/tmp/roton_seg_12-30-00-5_0.mp4"]))]
    );
    assert_eq!(rec.state(), SessionState::Recording);
    assert_eq!(rec.current_segment(), Some("/tmp/roton_seg_12-30-00-5_0.mp4".to_string()));

    let first = rec.finish_session();
    let (commands, result) = run(&mut rec, first, vec![Reply::Done, Reply::Done]);
    assert_eq!(result, Some(Ok(())));
    assert_eq!(
        commands,
        vec![
            Command::Interrupt,
            Command::Rename {
                from: "/tmp/roton_seg_12-30-00-5_0.mp4".to_string(),
                to: "/videos/out.mp4".to_string(),
            },
        ]
    );
    assert_eq!(rec.state(), SessionState::Idle);
    assert!(rec.segments().is_empty());
    assert!(rec.route().is_empty());
    assert_eq!(rec.current_segment(), None);
}

#[test]
fn start_then_finish_with_mixing_unloads_the_route() {
    let mut rec = recording("Both", Some("src.mic"), Some("src.monitor"));
    assert_eq!(rec.route(), strings(&["11", "12", "13"]));
    let first = rec.finish_session();
    let (commands, result) = run(&mut rec, first, vec![Reply::Done; 5]);
    assert_eq!(result, Some(Ok(())));
    assert_eq!(
        commands,
        vec![
            Command::Interrupt,
            Command::UnloadModule("11".to_string()),
            Command::UnloadModule("12".to_string()),
            Command::UnloadModule("13".to_string()),
            Command::Rename {
                from: "/tmp/roton_seg_t0_0.mp4".to_string(),
                to: "/videos/out.mp4".to_string(),
            },
        ]
    );
    assert!(rec.route().is_empty());
    assert!(rec.segments().is_empty());
    assert_eq!(rec.state(), SessionState::Idle);
}

fn session_with_pauses(n: usize) -> (Vec<Command>, Recorder) {
    let mut rec = recording("Screen", None, Some("src.monitor"));
    for i in 0..n {
        let first = rec.pause_session();
        let (commands, result) = run(&mut rec, first, vec![Reply::Done]);
        assert_eq!(commands, vec![Command::Interrupt]);
        assert_eq!(result, Some(Ok(())));
        assert_eq!(rec.state(), SessionState::Paused);
        assert_eq!(rec.segments().len(), i + 1);
        let first = rec.resume_session_at(&format!("t{}", i + 1));
        let (commands, result) = run(&mut rec, first, vec![Reply::Done]);
        assert_eq!(commands.len(), 1);
        assert_eq!(result, Some(Ok(())));
        assert_eq!(rec.state(), SessionState::Recording);
    }
    let first = rec.finish_session();
    let (commands, result) = run(&mut rec, first, vec![Reply::Done; 2 * n + 6]);
    assert_eq!(result, Some(Ok(())));
    (commands, rec)
}

#[test]
fn no_pause_gives_one_segment() {
    let (commands, rec) = session_with_pauses(0);
    assert_eq!(
        commands,
        vec![
            Command::Interrupt,
            Command::Rename {
                from: "/tmp/roton_seg_t0_0.mp4".to_string(),
                to: "/videos/out.mp4".to_string(),
            },
        ]
    );
    assert!(rec.segments().is_empty());
}

#[test]
fn one_pause_gives_two_segments_merged_in_order() {
    let (commands, rec) = session_with_pauses(1);
    assert_eq!(
        commands,
        vec![
            Command::Interrupt,
            Command::WriteText {
                path: "/tmp/roton_concat_list.txt".to_string(),
                text: "file '/tmp/roton_seg_t0_0.mp4'\nfile '/tmp/roton_seg_t1_1.mp4'\n"
                    .to_string(),
            },
            Command::Merge(strings(&[
                "-f",
                "concat",
                "-safe",
                "0",
                "-i",
                "/tmp/roton_concat_list.txt",
                "-c",
                "copy",
                "-y",
                "/videos/out.mp4",
            ])),
            Command::Remove("/tmp/roton_concat_list.txt".to_string()),
            Command::Remove("/tmp/roton_seg_t0_0.mp4".to_string()),
            Command::Remove("/tmp/roton_seg_t1_1.mp4".to_string()),
        ]
    );
    assert!(rec.segments().is_empty());
    assert_eq!(rec.state(), SessionState::Idle);
}

#[test]
fn three_pauses_give_four_segments_merged_in_order() {
    let (commands, rec) = session_with_pauses(3);
    assert_eq!(
        commands[1],
        Command::WriteText {
            path: "/tmp/roton_concat_list.txt".to_string(),
            text: "file '/tmp/roton_seg_t0_0.mp4'\nfile '/tmp/roton_seg_t1_1.mp4'\n\
                   file '/tmp/roton_seg_t2_2.mp4'\nfile '/tmp/roton_seg_t3_3.mp4'\n"
                .to_string(),
        }
    );
    let removed: Vec<&Command> =
        commands.iter().filter(|c| matches!(c, Command::Remove(_))).collect();
    assert_eq!(removed.len(), 5);
    assert_eq!(commands.len(), 8);
    assert!(rec.segments().is_empty());
}

#[test]
fn both_mode_builds_sink_then_two_loopbacks_then_captures() {
    let mut rec = Recorder::new("/tmp");
    let first = rec.start_session_at(config("Both", Some("src.mic"), Some("src.monitor")), "t0");
    let (commands, result) = run(
        &mut rec,
        first,
        vec![
            Reply::Loaded("536870913\n".to_string()),
            Reply::Loaded(" 536870914 ".to_string()),
            Reply::Loaded("536870915".to_string()),
            Reply::Done,
        ],
    );
    assert_eq!(result, Some(Ok(())));
    assert_eq!(
        commands,
        vec![
            Command::LoadModule(strings(&[
                "module-null-sink",
                "sink_name=RotonMixer",
                "sink_properties=device.description=RotonMixer",
            ])),
            Command::LoadModule(strings(&[
                "module-loopback",
                "sink=RotonMixer",
                "source=src.mic",
                "latency_msec=1",
            ])),
            Command::LoadModule(strings(&[
                "module-loopback",
                "sink=RotonMixer",
                "source=src.monitor",
                "latency_msec=1",
            ])),
            Command::Capture(strings(&[
                "-f",
                "/tmp/roton_seg_t0_0.mp4",
                "--audio",
                "--audio-device",
                "RotonMixer.monitor",
            ])),
        ]
    );
    assert_eq!(rec.route(), strings(&["536870913", "536870914", "536870915"]));
    assert_eq!(rec.state(), SessionState::Recording);
}

#[test]
fn refused_sink_means_no_loopback_and_idle() {
    let mut rec = Recorder::new("/tmp");
    let first = rec.start_session_at(config("Both", Some("src.mic"), Some("src.monitor")), "t0");
    let (commands, result) = run(&mut rec, first, vec![Reply::Failed]);
    assert_eq!(result, Some(Err(RecorderError::RoutingFailed)));
    assert_eq!(commands.len(), 1);
    assert!(matches!(commands[0], Command::LoadModule(_)));
    assert_eq!(rec.state(), SessionState::Idle);
    assert_eq!(rec.phase(), Phase::Idle);
    assert!(rec.route().is_empty());
    assert_eq!(rec.current_segment(), None);
}

#[test]
fn sink_loaded_without_identifier_counts_as_refused() {
    let mut rec = Recorder::new("/tmp");
    let first = rec.start_session_at(config("Both", Some("a"), Some("b")), "t0");
    let (commands, result) = run(&mut rec, first, vec![Reply::Done]);
    assert_eq!(result, Some(Err(RecorderError::RoutingFailed)));
    assert_eq!(commands.len(), 1);
    assert_eq!(rec.phase(), Phase::Idle);
}

#[test]
fn refused_loopback_unloads_what_was_built() {
    let mut rec = Recorder::new("/tmp");
    let first = rec.start_session_at(config("Both", Some("a"), Some("b")), "t0");
    let (commands, result) = run(
        &mut rec,
        first,
        vec![
            Reply::Loaded("1".to_string()),
            Reply::Loaded("2".to_string()),
            Reply::Failed,
            Reply::Failed,
            Reply::Done,
        ],
    );
    assert_eq!(result, Some(Err(RecorderError::RoutingFailed)));
    assert_eq!(commands.len(), 5);
    assert_eq!(commands[3], Command::UnloadModule("1".to_string()));
    assert_eq!(commands[4], Command::UnloadModule("2".to_string()));
    assert_eq!(rec.state(), SessionState::Idle);
    assert_eq!(rec.phase(), Phase::Idle);
    assert!(rec.route().is_empty());
}

#[test]
fn failed_launch_tears_the_route_down() {
    let mut rec = Recorder::new("/tmp");
    let first = rec.start_session_at(config("Both", Some("a"), Some("b")), "t0");
    let (commands, result) = run(
        &mut rec,
        first,
        vec![
            Reply::Loaded("1".to_string()),
            Reply::Loaded("2".to_string()),
            Reply::Loaded("3".to_string()),
            Reply::Failed,
            Reply::Done,
            Reply::Done,
            Reply::Done,
        ],
    );
    assert_eq!(result, Some(Err(RecorderError::SpawnFailed)));
    assert_eq!(
        commands[4..].to_vec(),
        vec![
            Command::UnloadModule("1".to_string()),
            Command::UnloadModule("2".to_string()),
            Command::UnloadModule("3".to_string()),
        ]
    );
    assert_eq!(rec.phase(), Phase::Idle);
    assert!(rec.route().is_empty());
    assert!(rec.segments().is_empty());
}

#[test]
fn failed_launch_without_route_is_idle_at_once() {
    let mut rec = Recorder::new("/tmp");
    let first = rec.start_session_at(config("Mic", Some("a"), None), "t0");
    let (commands, result) = run(&mut rec, first, vec![Reply::Failed]);
    assert_eq!(result, Some(Err(RecorderError::SpawnFailed)));
    assert_eq!(commands.len(), 1);
    assert_eq!(rec.phase(), Phase::Idle);
}

#[test]
fn finish_without_session_is_no_recording() {
    let mut rec = Recorder::new("/tmp");
    let step = rec.finish_session();
    assert_eq!(step, Step::Finished(Err(RecorderError::NoRecording)));
    assert_eq!(rec.phase(), Phase::Idle);
    assert!(rec.segments().is_empty());
    assert!(rec.route().is_empty());
}

#[test]
fn second_pause_is_a_no_op() {
    let mut rec = recording("Both", Some("a"), Some("b"));
    let first = rec.pause_session();
    let (_, result) = run(&mut rec, first, vec![Reply::Done]);
    assert_eq!(result, Some(Ok(())));
    let segments = rec.segments();
    let route = rec.route();
    assert_eq!(segments, strings(&["/tmp/roton_seg_t0_0.mp4"]));
    assert_eq!(route, strings(&["11", "12", "13"]));

    let step = rec.pause_session();
    assert_eq!(step, Step::Finished(Ok(())));
    assert_eq!(rec.phase(), Phase::Paused);
    assert!(rec.is_paused());
    assert_eq!(rec.segments(), segments);
    assert_eq!(rec.route(), route);
}

#[test]
fn resume_while_recording_is_a_no_op() {
    let mut rec = recording("Mute", None, None);
    let step = rec.resume_session_at("t9");
    assert_eq!(step, Step::Finished(Ok(())));
    assert_eq!(rec.phase(), Phase::Recording);
    assert_eq!(rec.current_segment(), Some("/tmp/roton_seg_t0_0.mp4".to_string()));
}

#[test]
fn pause_and_resume_without_session_do_nothing() {
    let mut rec = Recorder::new("/tmp");
    assert_eq!(rec.pause_session(), Step::Finished(Ok(())));
    assert_eq!(rec.resume_session_at("t"), Step::Finished(Ok(())));
    assert_eq!(rec.phase(), Phase::Idle);
}

#[test]
fn abandon_without_session_does_nothing_each_time() {
    let mut rec = Recorder::new("/tmp");
    assert_eq!(rec.abandon_session(), Step::Finished(Ok(())));
    assert_eq!(rec.abandon_session(), Step::Finished(Ok(())));
    assert_eq!(rec.phase(), Phase::Idle);
    assert!(rec.route().is_empty());
}

#[test]
fn abandon_stops_capture_and_unloads_route() {
    let mut rec = recording("Both", Some("a"), Some("b"));
    let first = rec.abandon_session();
    let (commands, result) = run(
        &mut rec,
        first,
        vec![Reply::Failed, Reply::Failed, Reply::Done, Reply::Failed],
    );
    assert_eq!(result, Some(Ok(())));
    assert_eq!(
        commands,
        vec![
            Command::Interrupt,
            Command::UnloadModule("11".to_string()),
            Command::UnloadModule("12".to_string()),
            Command::UnloadModule("13".to_string()),
        ]
    );
    assert_eq!(rec.phase(), Phase::Idle);
    assert!(rec.route().is_empty());
    assert_eq!(rec.segments(), strings(&["/tmp/roton_seg_t0_0.mp4"]));
}

#[test]
fn cross_device_move_copies_then_deletes() {
    let mut rec = recording("Mute", None, None);
    let first = rec.finish_session();
    let (commands, result) = run(
        &mut rec,
        first,
        vec![Reply::Done, Reply::CrossDevice, Reply::Done, Reply::Done],
    );
    assert_eq!(result, Some(Ok(())));
    assert_eq!(
        commands,
        vec![
            Command::Interrupt,
            Command::Rename {
                from: "/tmp/roton_seg_t0_0.mp4".to_string(),
                to: "/videos/out.mp4".to_string(),
            },
            Command::Copy {
                from: "/tmp/roton_seg_t0_0.mp4".to_string(),
                to: "/videos/out.mp4".to_string(),
            },
            Command::Remove("/tmp/roton_seg_t0_0.mp4".to_string()),
        ]
    );
    assert!(rec.segments().is_empty());
    assert_eq!(rec.phase(), Phase::Idle);
}

#[test]
fn failed_copy_is_move_failed_and_keeps_the_segment() {
    let mut rec = recording("Mute", None, None);
    let first = rec.finish_session();
    let (commands, result) =
        run(&mut rec, first, vec![Reply::Done, Reply::CrossDevice, Reply::Failed]);
    assert_eq!(result, Some(Err(RecorderError::MoveFailed)));
    assert_eq!(commands.len(), 3);
    assert_eq!(rec.segments(), strings(&["/tmp/roton_seg_t0_0.mp4"]));
    assert_eq!(rec.phase(), Phase::Idle);
}

#[test]
fn failed_delete_after_copy_is_move_failed() {
    let mut rec = recording("Mute", None, None);
    let first = rec.finish_session();
    let (_, result) = run(
        &mut rec,
        first,
        vec![Reply::Done, Reply::CrossDevice, Reply::Done, Reply::Failed],
    );
    assert_eq!(result, Some(Err(RecorderError::MoveFailed)));
    assert_eq!(rec.phase(), Phase::Idle);
}

#[test]
fn failed_move_is_move_failed() {
    let mut rec = recording("Mute", None, None);
    let first = rec.finish_session();
    let (commands, result) = run(&mut rec, first, vec![Reply::Done, Reply::Failed]);
    assert_eq!(result, Some(Err(RecorderError::MoveFailed)));
    assert_eq!(commands.len(), 2);
    assert_eq!(rec.state(), SessionState::Idle);
    assert_eq!(rec.segments().len(), 1);
}

#[test]
fn both_mode_with_microphone_only_is_invalid() {
    let mut rec = Recorder::new("/tmp");
    let step = rec.start_session_at(config("Both", Some("src.mic"), None), "t0");
    assert_eq!(step, Step::Finished(Err(RecorderError::InvalidConfig)));
    assert_eq!(rec.phase(), Phase::Idle);
    assert_eq!(rec.current_segment(), None);
    let step = rec.start_session_at(config("Both", None, Some("src.monitor")), "t0");
    assert_eq!(step, Step::Finished(Err(RecorderError::InvalidConfig)));
    let step = rec.start_session_at(config("Both", None, None), "t0");
    assert_eq!(step, Step::Finished(Err(RecorderError::InvalidConfig)));
}

#[test]
fn start_while_recording_is_rejected() {
    let mut rec = recording("Mute", None, None);
    let step = rec.start_session_at(config("Mute", None, None), "t5");
    assert_eq!(step, Step::Finished(Err(RecorderError::AlreadyRecording)));
    assert_eq!(rec.phase(), Phase::Recording);
    assert_eq!(rec.current_segment(), Some("/tmp/roton_seg_t0_0.mp4".to_string()));
}

#[test]
fn start_while_paused_is_rejected() {
    let mut rec = recording("Mute", None, None);
    let first = rec.pause_session();
    run(&mut rec, first, vec![Reply::Done]);
    let step = rec.start_session_at(config("Mute", None, None), "t5");
    assert_eq!(step, Step::Finished(Err(RecorderError::AlreadyRecording)));
    assert_eq!(rec.phase(), Phase::Paused);
}

#[test]
fn failed_stop_on_pause_is_wait_failed_and_paused() {
    let mut rec = recording("Mute", None, None);
    let first = rec.pause_session();
    let (_, result) = run(&mut rec, first, vec![Reply::Failed]);
    assert_eq!(result, Some(Err(RecorderError::WaitFailed)));
    assert_eq!(rec.phase(), Phase::Paused);
    assert_eq!(rec.segments().len(), 1);
}

#[test]
fn failed_stop_on_finish_is_reported_after_finalizing() {
    let mut rec = recording("Mute", None, None);
    let first = rec.finish_session();
    let (commands, result) = run(&mut rec, first, vec![Reply::Failed, Reply::Done]);
    assert_eq!(result, Some(Err(RecorderError::WaitFailed)));
    assert_eq!(commands.len(), 2);
    assert_eq!(rec.phase(), Phase::Idle);
    assert!(rec.segments().is_empty());
}

#[test]
fn failed_resume_is_spawn_failed_and_stays_paused() {
    let mut rec = recording("Mute", None, None);
    let first = rec.pause_session();
    run(&mut rec, first, vec![Reply::Done]);
    let first = rec.resume_session_at("t1");
    let (_, result) = run(&mut rec, first, vec![Reply::Failed]);
    assert_eq!(result, Some(Err(RecorderError::SpawnFailed)));
    assert_eq!(rec.phase(), Phase::Paused);
    assert_eq!(rec.current_segment(), None);
    assert_eq!(rec.segments().len(), 1);
}

#[test]
fn failed_manifest_is_manifest_failed() {
    let mut rec = recording("Mute", None, None);
    let first = rec.pause_session();
    run(&mut rec, first, vec![Reply::Done]);
    let first = rec.resume_session_at("t1");
    run(&mut rec, first, vec![Reply::Done]);
    let first = rec.finish_session();
    let (commands, result) = run(&mut rec, first, vec![Reply::Done, Reply::Failed]);
    assert_eq!(result, Some(Err(RecorderError::ManifestFailed)));
    assert_eq!(commands.len(), 2);
    assert_eq!(rec.phase(), Phase::Idle);
    assert_eq!(rec.segments().len(), 2);
}

#[test]
fn failed_merge_is_concat_failed_and_deletes_nothing() {
    let mut rec = recording("Mute", None, None);
    let first = rec.pause_session();
    run(&mut rec, first, vec![Reply::Done]);
    let first = rec.resume_session_at("t1");
    run(&mut rec, first, vec![Reply::Done]);
    let first = rec.finish_session();
    let (commands, result) =
        run(&mut rec, first, vec![Reply::Done, Reply::Done, Reply::Failed]);
    assert_eq!(result, Some(Err(RecorderError::ConcatFailed)));
    assert!(commands.iter().all(|c| !matches!(c, Command::Remove(_))));
    assert_eq!(rec.state(), SessionState::Idle);
    assert_eq!(
        rec.segments(),
        strings(&["/tmp/roton_seg_t0_0.mp4", "/tmp/roton_seg_t1_1.mp4"])
    );
}

#[test]
fn next_start_forgets_segments_left_by_a_failed_finish() {
    let mut rec = recording("Mute", None, None);
    let first = rec.finish_session();
    run(&mut rec, first, vec![Reply::Done, Reply::Failed]);
    assert_eq!(rec.segments().len(), 1);
    let first = rec.start_session_at(config("Mute", None, None), "t7");
    let (commands, result) = run(&mut rec, first, vec![Reply::Done]);
    assert_eq!(result, Some(Ok(())));
    assert_eq!(commands, vec![Command::Capture(strings(&["-f", "/tmp/roton_seg_t7_1.mp4"]))]);
    assert!(rec.segments().is_empty());
}

#[test]
fn finish_while_paused_does_not_interrupt() {
    let mut rec = recording("Mute", None, None);
    let first = rec.pause_session();
    run(&mut rec, first, vec![Reply::Done]);
    let first = rec.finish_session();
    let (commands, result) = run(&mut rec, first, vec![Reply::Done]);
    assert_eq!(result, Some(Ok(())));
    assert_eq!(commands.len(), 1);
    assert!(matches!(commands[0], Command::Rename { .. }));
}

#[test]
fn requests_and_answers_out_of_turn_change_nothing() {
    let mut rec = Recorder::new("/tmp");
    assert_eq!(rec.advance(Reply::Done), Step::Finished(Err(RecorderError::OutOfTurn)));
    assert_eq!(rec.phase(), Phase::Idle);
    let first = rec.start_session_at(config("Both", Some("a"), Some("b")), "t0");
    assert!(matches!(first, Step::Run(Command::LoadModule(_))));
    assert_eq!(rec.phase(), Phase::LoadingSink);
    assert_eq!(rec.state(), SessionState::Idle);
    assert_eq!(rec.pause_session(), Step::Finished(Err(RecorderError::OutOfTurn)));
    assert_eq!(rec.resume_session_at("x"), Step::Finished(Err(RecorderError::OutOfTurn)));
    assert_eq!(rec.finish_session(), Step::Finished(Err(RecorderError::OutOfTurn)));
    assert_eq!(rec.abandon_session(), Step::Finished(Err(RecorderError::OutOfTurn)));
    assert_eq!(
        rec.start_session_at(config("Mute", None, None), "t1"),
        Step::Finished(Err(RecorderError::AlreadyRecording))
    );
    assert_eq!(rec.phase(), Phase::LoadingSink);
}

#[test]
fn states_follow_the_phases() {
    let mut rec = recording("Mute", None, None);
    let step = rec.pause_session();
    assert_eq!(step, Step::Run(Command::Interrupt));
    assert_eq!(rec.state(), SessionState::Recording);
    rec.advance(Reply::Done);
    assert_eq!(rec.state(), SessionState::Paused);
    rec.resume_session_at("t1");
    assert_eq!(rec.state(), SessionState::Paused);
    assert!(rec.is_paused());
    rec.advance(Reply::Done);
    assert_eq!(rec.state(), SessionState::Recording);
    rec.finish_session();
    assert_eq!(rec.state(), SessionState::Finishing);
    assert_eq!(rec.phase(), Phase::Stopping);
}

#[test]
fn capture_arguments_follow_the_mode() {
    let geometry = SessionConfig::new("/v/o.mp4", Some("10,20 300x400"), "Screen", Some("m"), Some("mon"));
    let mut rec = Recorder::new("/tmp/");
    let step = rec.start_session_at(geometry, "s");
    assert_eq!(
        step,
        Step::Run(Command::Capture(strings(&[
            "-f",
            "/tmp/roton_seg_s_0.mp4",
            "-g",
            "10,20 300x400",
            "--audio",
            "--audio-device",
            "mon",
        ])))
    );

    let mut rec = Recorder::new("");
    let step = rec.start_session_at(config("Mic", Some("m"), Some("mon")), "s");
    assert_eq!(
        step,
        Step::Run(Command::Capture(strings(&[
            "-f",
            "roton_seg_s_0.mp4",
            "--audio",
            "--audio-device",
            "m",
        ])))
    );

    let mut rec = Recorder::new("/tmp");
    let step = rec.start_session_at(config("Mic", None, Some("mon")), "s");
    assert_eq!(
        step,
        Step::Run(Command::Capture(strings(&["-f", "/tmp/roton_seg_s_0.mp4", "--audio"])))
    );

    let mut rec = Recorder::new("/tmp");
    let step = rec.start_session_at(config("Screen", Some("m"), None), "s");
    assert_eq!(
        step,
        Step::Run(Command::Capture(strings(&["-f", "/tmp/roton_seg_s_0.mp4", "--audio"])))
    );

    let mut rec = Recorder::new("/tmp");
    let step = rec.start_session_at(config("Nonsense", Some("m"), Some("mon")), "s");
    assert_eq!(step, Step::Run(Command::Capture(strings(&["-f", "/tmp/roton_seg_s_0.mp4"]))));
}

#[test]
fn start_session_reads_the_clock_for_the_segment_name() {
    let mut rec = Recorder::new("/tmp");
    let step = rec.start_session("/videos/out.mp4", None, "Mute", None, None);
    match step {
        Step::Run(Command::Capture(args)) => {
            assert_eq!(args.len(), 2);
            assert_eq!(args[0], "-f");
            assert!(args[1].starts_with("/tmp/roton_seg_"));
            assert!(args[1].ends_with("_0.mp4"));
            assert!(!args[1].contains('%'));
            let stamp = &args[1]["/tmp/roton_seg_".len()..args[1].len() - "_0.mp4".len()];
            assert!(stamp.len() >= 10);
            assert!(stamp.chars().all(|c| c.is_ascii_digit() || c == '-'));
        }
        other => panic!("unexpected step {:?}", other),
    }
    assert_eq!(rec.advance(Reply::Done), Step::Finished(Ok(())));
    let first = rec.pause_session();
    run(&mut rec, first, vec![Reply::Done]);
    let step = rec.resume_session();
    match step {
        Step::Run(Command::Capture(args)) => {
            assert!(args[1].starts_with("/tmp/roton_seg_"));
            assert!(args[1].ends_with("_1.mp4"));
            assert!(!args[1].contains('%'));
        }
        other => panic!("unexpected step {:?}", other),
    }
}

#[test]
fn output_path_is_named_after_the_time() {
    let p = Recorder::output_path_now("/home/me/Videos");
    assert!(p.starts_with("/home/me/Videos/recording_"));
    assert!(p.ends_with(".mp4"));
    assert!(!p.contains('%'));
    let stamp = &p["/home/me/Videos/recording_".len()..p.len() - 4];
    assert_eq!(stamp.len(), 19);
    assert!(stamp.chars().all(|c| c.is_ascii_digit() || c == '-' || c == '_'));
}

#[test]
fn audio_mode_of_config_is_read_from_its_name() {
    assert_eq!(config("Both", None, None).audio_mode, AudioMode::Both);
    assert_eq!(config("Mic", None, None).audio_mode, AudioMode::Mic);
    assert_eq!(config("Screen", None, None).audio_mode, AudioMode::Screen);
    assert_eq!(config("Mute", None, None).audio_mode, AudioMode::Mute);
    assert_eq!(config("both", None, None).audio_mode, AudioMode::Mute);
}

#[test]
fn every_error_has_its_message() {
    assert_eq!(RecorderError::NoRecording.message(), "No recordings made");
    assert_eq!(RecorderError::ConcatFailed.message(), "FFmpeg concat failed");
    assert_eq!(RecorderError::SpawnFailed.message(), "Failed to start segment");
    let all = [
        RecorderError::InvalidConfig,
        RecorderError::AlreadyRecording,
        RecorderError::RoutingFailed,
        RecorderError::SpawnFailed,
        RecorderError::WaitFailed,
        RecorderError::NoRecording,
        RecorderError::MoveFailed,
        RecorderError::ManifestFailed,
        RecorderError::ConcatFailed,
        RecorderError::OutOfTurn,
    ];
    for (i, a) in all.iter().enumerate() {
        assert!(!a.message().is_empty());
        for b in all.iter().skip(i + 1) {
            assert_ne!(a.message(), b.message());
        }
    }
}
