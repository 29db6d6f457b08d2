//! Whole requests, from the first command to the result: what the host is
//! asked to do, in which order, and what the session is afterwards.

use crate::command::{
    capture_args, loopback_args, manifest, manifest_path, merge_args, segment_path, sink_args,
    CommandView, ReplyView,
};
use crate::config::{valid, AudioMode, ConfigView};
use crate::session::{
    consistent, first_of, following, verdict, Outcome, Phase, RecorderError, SessionView, StepView,
};
use crate::text::{trimmed, Text};
use vstd::prelude::*;

verus! {

/// A request as far as the host's answers carried it.
pub struct Run {
    /// The session afterwards.
    pub session: SessionView,
    /// The commands that were handed to the host, in order.
    pub commands: Seq<CommandView>,
    /// The result, where the request came to its end.
    pub result: Option<Result<(), RecorderError>>,
}

/// The request that stands at `o`, carried on with the answers `replies`, one
/// for each command, until it is finished or the answers run out.
pub open spec fn drive(o: Outcome, replies: Seq<ReplyView>) -> Run
    decreases replies.len(),
{
    match o.step {
        StepView::Finished(r) => Run { session: o.session, commands: seq![], result: Some(r) },
        StepView::Run(c) => if replies.len() == 0 {
            Run { session: o.session, commands: seq![c], result: None }
        } else {
            let rest = drive(o.session.reply(replies[0]), replies.drop_first());
            Run { commands: seq![c] + rest.commands, ..rest }
        },
    }
}

/// The answer of a host that did what the command asked.
pub open spec fn grants(c: CommandView, r: ReplyView) -> bool {
    match c {
        CommandView::LoadModule(_) => r is Loaded,
        _ => r == ReplyView::Done,
    }
}

/// Whether `replies` carry the request at `o` to its end, each of them
/// granting the command it answers, and none left over.
pub open spec fn served(o: Outcome, replies: Seq<ReplyView>) -> bool
    decreases replies.len(),
{
    match o.step {
        StepView::Finished(_) => replies.len() == 0,
        StepView::Run(c) => {
            &&& replies.len() > 0
            &&& grants(c, replies[0])
            &&& served(o.session.reply(replies[0]), replies.drop_first())
        },
    }
}

/// The commands that unload the modules `ids`, in order.
pub open spec fn unloads(ids: Seq<Text>) -> Seq<CommandView> {
    Seq::new(ids.len(), |i: int| CommandView::UnloadModule(ids[i]))
}

/// The commands that delete the files `paths`, in order.
pub open spec fn removals(paths: Seq<Text>) -> Seq<CommandView> {
    Seq::new(paths.len(), |i: int| CommandView::Remove(paths[i]))
}

/// The commands that make the recording `target` of `segments`: one segment
/// is moved; several are listed in order, merged, and deleted with the list.
pub open spec fn assembly(dir: Text, segments: Seq<Text>, target: Text) -> Seq<CommandView> {
    if segments.len() == 1 {
        seq![CommandView::Rename { from: segments[0], to: target }]
    } else {
        seq![
            CommandView::WriteText { path: manifest_path(dir), text: manifest(segments) },
            CommandView::Merge(merge_args(manifest_path(dir), target)),
            CommandView::Remove(manifest_path(dir)),
        ] + removals(segments)
    }
}

/// The segments of a session, the one being captured last.
pub open spec fn all_segments(v: SessionView) -> Seq<Text> {
    if v.current is Some {
        v.segments.push(v.current->0)
    } else {
        v.segments
    }
}

/// The command that stops the capture, where one runs.
pub open spec fn stop(v: SessionView) -> Seq<CommandView> {
    if v.phase == Phase::Recording {
        seq![CommandView::Interrupt]
    } else {
        seq![]
    }
}

/// One answer carries a request one command further.
pub proof fn lemma_one_step(o: Outcome, replies: Seq<ReplyView>)
    requires
        o.step is Run,
        replies.len() > 0,
    ensures
        drive(o, replies).session == drive(
            o.session.reply(replies[0]),
            replies.drop_first(),
        ).session,
        drive(o, replies).result == drive(
            o.session.reply(replies[0]),
            replies.drop_first(),
        ).result,
        drive(o, replies).commands == seq![o.step->Run_0] + drive(
            o.session.reply(replies[0]),
            replies.drop_first(),
        ).commands,
        served(o, replies) == (grants(o.step->Run_0, replies[0]) && served(
            o.session.reply(replies[0]),
            replies.drop_first(),
        )),
{
}

/// Taking the route down asks for each module to be unloaded, oldest first,
/// whatever the host answers, and then ends the session with the failure that
/// was noted.
pub proof fn lemma_release_run(v: SessionView, replies: Seq<ReplyView>)
    requires
        replies.len() == v.route.len(),
    ensures
        drive(v.release(), replies) == (Run {
            session: v.ended(),
            commands: unloads(v.route),
            result: Some(verdict(v.failure)),
        }),
    decreases v.route.len(),
{
    if v.route.len() == 0 {
        assert(unloads(v.route) =~= seq![]);
    } else {
        let next = v.release().session;
        lemma_one_step(v.release(), replies);
        lemma_release_run(next, replies.drop_first());
        assert(next.ended() == v.ended());
        assert(seq![CommandView::UnloadModule(v.route[0])] + unloads(next.route) =~= unloads(
            v.route,
        ));
    }
}

/// Deleting the merged segments asks for each to be deleted, oldest first,
/// whatever the host answers, and then ends the session with an empty list.
pub proof fn lemma_sweep_run(v: SessionView, replies: Seq<ReplyView>)
    requires
        replies.len() == v.segments.len(),
    ensures
        drive(v.sweep(), replies) == (Run {
            session: v.conclude(None).session,
            commands: removals(v.segments),
            result: Some(verdict(v.failure)),
        }),
    decreases v.segments.len(),
{
    if v.segments.len() == 0 {
        assert(removals(v.segments) =~= seq![]);
    } else {
        let next = v.sweep().session;
        lemma_one_step(v.sweep(), replies);
        lemma_sweep_run(next, replies.drop_first());
        assert(next.conclude(None).session == v.conclude(None).session);
        assert(seq![CommandView::Remove(v.segments[0])] + removals(next.segments) =~= removals(
            v.segments,
        ));
    }
}

/// A host that serves the deletion of the merged segments gives one answer
/// for each.
pub proof fn lemma_sweep_served(v: SessionView, replies: Seq<ReplyView>)
    requires
        served(v.sweep(), replies),
    ensures
        replies.len() == v.segments.len(),
    decreases v.segments.len(),
{
    if v.segments.len() > 0 {
        lemma_one_step(v.sweep(), replies);
        lemma_sweep_served(v.sweep().session, replies.drop_first());
    }
}

/// With a host that does as it is asked, the segments become the recording:
/// the commands are those of [`assembly`], the list of segments is empty
/// afterwards and the session has ended.
pub proof fn lemma_finalize_run(v: SessionView, replies: Seq<ReplyView>)
    requires
        v.segments.len() >= 1,
        served(v.finalize(), replies),
    ensures
        drive(v.finalize(), replies) == (Run {
            session: v.conclude(None).session,
            commands: assembly(v.temp_dir, v.segments, v.config->0.final_path),
            result: Some(verdict(v.failure)),
        }),
{
    let o1 = v.finalize();
    lemma_one_step(o1, replies);
    let r1 = replies.drop_first();
    let o2 = o1.session.reply(replies[0]);
    if v.segments.len() == 1 {
        assert(o2 == v.conclude(None));
        assert(drive(o1, replies).commands =~= assembly(
            v.temp_dir,
            v.segments,
            v.config->0.final_path,
        ));
    } else {
        lemma_one_step(o2, r1);
        let r2 = r1.drop_first();
        let o3 = o2.session.reply(r1[0]);
        lemma_one_step(o3, r2);
        let r3 = r2.drop_first();
        let o4 = o3.session.reply(r2[0]);
        assert(o4 == o3.session.sweep());
        lemma_sweep_served(o3.session, r3);
        lemma_sweep_run(o3.session, r3);
        assert(o3.session.conclude(None).session == v.conclude(None).session);
        assert(drive(o1, replies).commands =~= assembly(
            v.temp_dir,
            v.segments,
            v.config->0.final_path,
        ));
    }
}

/// With a host that does as it is asked, the route is taken down, oldest
/// module first, and then the segments become the recording.
pub proof fn lemma_unload_run(v: SessionView, replies: Seq<ReplyView>)
    requires
        v.segments.len() >= 1,
        served(v.unload(), replies),
    ensures
        drive(v.unload(), replies) == (Run {
            session: v.conclude(None).session,
            commands: unloads(v.route) + assembly(
                v.temp_dir,
                v.segments,
                v.config->0.final_path,
            ),
            result: Some(verdict(v.failure)),
        }),
    decreases v.route.len(),
{
    if v.route.len() == 0 {
        lemma_finalize_run(v, replies);
        assert(unloads(v.route) + assembly(v.temp_dir, v.segments, v.config->0.final_path)
            =~= assembly(v.temp_dir, v.segments, v.config->0.final_path));
    } else {
        let next = v.unload().session;
        lemma_one_step(v.unload(), replies);
        lemma_unload_run(next, replies.drop_first());
        assert(next.conclude(None).session == v.conclude(None).session);
        assert(seq![CommandView::UnloadModule(v.route[0])] + (unloads(next.route) + assembly(
            v.temp_dir,
            v.segments,
            v.config->0.final_path,
        )) =~= unloads(v.route) + assembly(v.temp_dir, v.segments, v.config->0.final_path));
    }
}

/// Finishing a session whose host does as it is asked: a capture that runs is
/// stopped, the route is taken down, and every segment, in recording order,
/// goes into the recording. Afterwards there is no session, no route and no
/// segment left.
pub proof fn lemma_finish_run(v: SessionView, replies: Seq<ReplyView>)
    requires
        consistent(v),
        v.phase == Phase::Recording || v.phase == Phase::Paused,
        served(v.finish(), replies),
    ensures
        drive(v.finish(), replies) == (Run {
            session: SessionView { segments: Seq::empty(), ..v.ended() },
            commands: stop(v) + unloads(v.route) + assembly(
                v.temp_dir,
                all_segments(v),
                v.config->0.final_path,
            ),
            result: Some(Ok(())),
        }),
{
    if v.phase == Phase::Paused {
        lemma_unload_run(v, replies);
        assert(stop(v) + unloads(v.route) =~= unloads(v.route));
    } else {
        lemma_one_step(v.finish(), replies);
        let stopped = SessionView { failure: None, ..v.finish().session.recorded() };
        assert(v.finish().session.reply(replies[0]) == stopped.unload());
        lemma_unload_run(stopped, replies.drop_first());
        assert(seq![CommandView::Interrupt] + (unloads(v.route) + assembly(
            v.temp_dir,
            all_segments(v),
            v.config->0.final_path,
        )) =~= stop(v) + unloads(v.route) + assembly(
            v.temp_dir,
            all_segments(v),
            v.config->0.final_path,
        ));
    }
}

/// The session that records its first segment, with the modules `route`
/// loaded.
pub open spec fn started(v: SessionView, config: ConfigView, stamp: Text, route: Seq<Text>)
    -> SessionView {
    SessionView {
        temp_dir: v.temp_dir,
        phase: Phase::Recording,
        config: Some(config),
        route,
        segments: Seq::empty(),
        current: Some(v.next_path(stamp)),
        issued: following(v.issued),
        failure: None,
    }
}

/// Starting a session whose host does as it is asked.
///
/// Where both sources are recorded, the host is asked for the mixing sink,
/// then for the loopback of the microphone, then for that of the monitor
/// source, and only then for the capture tool: four commands, and the three
/// identifiers, trimmed, are the route. Otherwise it is asked for the capture
/// tool alone and there is no route. Either way the session records its first
/// segment afterwards.
pub proof fn lemma_start_run(
    v: SessionView,
    config: ConfigView,
    stamp: Text,
    replies: Seq<ReplyView>,
)
    requires
        consistent(v),
        v.phase == Phase::Idle,
        valid(config),
        served(v.start(config, stamp), replies),
    ensures
        config.audio_mode == AudioMode::Both ==> replies.len() == 4 && drive(
            v.start(config, stamp),
            replies,
        ) == (Run {
            session: started(
                v,
                config,
                stamp,
                seq![
                    trimmed(replies[0]->Loaded_0),
                    trimmed(replies[1]->Loaded_0),
                    trimmed(replies[2]->Loaded_0),
                ],
            ),
            commands: seq![
                CommandView::LoadModule(sink_args()),
                CommandView::LoadModule(loopback_args(config.mic_device->0)),
                CommandView::LoadModule(loopback_args(config.monitor_device->0)),
                CommandView::Capture(capture_args(v.next_path(stamp), config)),
            ],
            result: Some(Ok(())),
        }),
        config.audio_mode != AudioMode::Both ==> replies.len() == 1 && drive(
            v.start(config, stamp),
            replies,
        ) == (Run {
            session: started(v, config, stamp, Seq::empty()),
            commands: seq![CommandView::Capture(capture_args(v.next_path(stamp), config))],
            result: Some(Ok(())),
        }),
{
    let o1 = v.start(config, stamp);
    lemma_one_step(o1, replies);
    let r1 = replies.drop_first();
    let o2 = o1.session.reply(replies[0]);
    if config.audio_mode == AudioMode::Both {
        lemma_one_step(o2, r1);
        let r2 = r1.drop_first();
        let o3 = o2.session.reply(r1[0]);
        lemma_one_step(o3, r2);
        let r3 = r2.drop_first();
        let o4 = o3.session.reply(r2[0]);
        lemma_one_step(o4, r3);
        let o5 = o4.session.reply(r3[0]);
        assert(o5.step == StepView::Finished(Ok::<(), RecorderError>(())));
        assert(r3.drop_first().len() == 0);
        assert(o5.session.route =~= seq![
            trimmed(replies[0]->Loaded_0),
            trimmed(replies[1]->Loaded_0),
            trimmed(replies[2]->Loaded_0),
        ]);
        assert(drive(o1, replies).commands =~= seq![
            CommandView::LoadModule(sink_args()),
            CommandView::LoadModule(loopback_args(config.mic_device->0)),
            CommandView::LoadModule(loopback_args(config.monitor_device->0)),
            CommandView::Capture(capture_args(v.next_path(stamp), config)),
        ]);
    } else {
        assert(o2.step == StepView::Finished(Ok::<(), RecorderError>(())));
        assert(o2.session.route =~= Seq::<Text>::empty());
        assert(drive(o1, replies).commands =~= seq![
            CommandView::Capture(capture_args(v.next_path(stamp), config)),
        ]);
    }
}

/// Where the audio server refuses the mixing sink, no loopback is asked for
/// and no capture tool is launched: the start fails with `RoutingFailed`
/// after that one command, and there is no session.
pub proof fn lemma_sink_refused(v: SessionView, config: ConfigView, stamp: Text, r: ReplyView)
    requires
        consistent(v),
        v.phase == Phase::Idle,
        valid(config),
        config.audio_mode == AudioMode::Both,
        !(r is Loaded),
    ensures
        drive(v.start(config, stamp), seq![r]) == (Run {
            session: SessionView {
                segments: Seq::empty(),
                issued: following(v.issued),
                ..v
            },
            commands: seq![CommandView::LoadModule(sink_args())],
            result: Some(Err(RecorderError::RoutingFailed)),
        }),
{
    let o1 = v.start(config, stamp);
    lemma_one_step(o1, seq![r]);
    assert(seq![r].drop_first().len() == 0);
    let o2 = o1.session.reply(r);
    assert(o2.session.route =~= v.route);
    assert(drive(o1, seq![r]).commands =~= seq![CommandView::LoadModule(sink_args())]);
}

/// Where the audio server refuses a loopback, what was loaded before it is
/// unloaded again, oldest first, and the start fails with `RoutingFailed`:
/// no topology is left half built.
pub proof fn lemma_loopback_refused(v: SessionView, r: ReplyView, replies: Seq<ReplyView>)
    requires
        consistent(v),
        v.phase == Phase::LoadingMicLoopback || v.phase == Phase::LoadingMonitorLoopback,
        !(r is Loaded),
        replies.len() == v.route.len(),
    ensures
        drive(v.reply(r), replies) == (Run {
            session: v.ended(),
            commands: unloads(v.route),
            result: Some(Err(RecorderError::RoutingFailed)),
        }),
{
    let failed = SessionView {
        current: None,
        failure: Some(RecorderError::RoutingFailed),
        ..v
    };
    lemma_release_run(failed, replies);
    assert(failed.ended() == v.ended());
}

/// Where the capture tool cannot be launched for the first segment, the route
/// that was built for it is taken down again and the start fails with
/// `SpawnFailed`.
pub proof fn lemma_launch_refused(v: SessionView, r: ReplyView, replies: Seq<ReplyView>)
    requires
        consistent(v),
        v.phase == Phase::Launching,
        !r.ok(),
        replies.len() == v.route.len(),
    ensures
        drive(v.reply(r), replies) == (Run {
            session: v.ended(),
            commands: unloads(v.route),
            result: Some(Err(RecorderError::SpawnFailed)),
        }),
{
    let failed = SessionView { current: None, failure: Some(RecorderError::SpawnFailed), ..v };
    lemma_release_run(failed, replies);
    assert(failed.ended() == v.ended());
}

/// A start is refused, and nothing is asked of the host, where there is a
/// session already, and where the configuration does not name both sources
/// that it asks to mix.
pub proof fn lemma_start_refused(
    v: SessionView,
    config: ConfigView,
    stamp: Text,
    replies: Seq<ReplyView>,
)
    ensures
        v.phase != Phase::Idle ==> drive(v.start(config, stamp), replies) == (Run {
            session: v,
            commands: seq![],
            result: Some(Err(RecorderError::AlreadyRecording)),
        }),
        v.phase == Phase::Idle && config.audio_mode == AudioMode::Both && (config.mic_device
            is None || config.monitor_device is None) ==> drive(
            v.start(config, stamp),
            replies,
        ) == (Run {
            session: v,
            commands: seq![],
            result: Some(Err(RecorderError::InvalidConfig)),
        }),
{
}

/// Finishing without a session fails with `NoRecording`: nothing is asked of
/// the host and nothing changes.
pub proof fn lemma_finish_without_session(v: SessionView, replies: Seq<ReplyView>)
    requires
        v.phase == Phase::Idle,
    ensures
        drive(v.finish(), replies) == (Run {
            session: v,
            commands: seq![],
            result: Some(Err(RecorderError::NoRecording)),
        }),
{
}

/// Pausing stops the capture tool and adds the segment it wrote to the
/// completed ones. A second pause right after it does nothing: it asks
/// nothing of the host and the session stays as it is.
pub proof fn lemma_pause_twice(v: SessionView, replies: Seq<ReplyView>)
    requires
        consistent(v),
        v.phase == Phase::Recording,
    ensures
        ({
            let once = drive(v.pause(), seq![ReplyView::Done]);
            &&& once == (Run {
                session: SessionView { phase: Phase::Paused, ..v.recorded() },
                commands: seq![CommandView::Interrupt],
                result: Some(Ok(())),
            })
            &&& drive(once.session.pause(), replies) == (Run {
                session: once.session,
                commands: seq![],
                result: Some(Ok(())),
            })
        }),
{
    lemma_one_step(v.pause(), seq![ReplyView::Done]);
    assert(drive(v.pause(), seq![ReplyView::Done]).commands =~= seq![CommandView::Interrupt]);
}

/// Taking down a route that is empty asks nothing of the host, and giving up
/// where there is no session changes nothing, however often it is done.
pub proof fn lemma_teardown_of_nothing(v: SessionView, replies: Seq<ReplyView>)
    requires
        consistent(v),
    ensures
        v.route.len() == 0 ==> drive(v.release(), replies).commands == Seq::<CommandView>::empty()
            && drive(v.release(), replies).session.route == v.route,
        v.phase == Phase::Idle ==> drive(v.abandon(), replies) == (Run {
            session: v,
            commands: seq![],
            result: Some(Ok(())),
        }),
{
    if v.route.len() == 0 {
        assert(v.ended().route =~= v.route);
    }
}

/// Giving a session up stops a capture that runs and takes the route down,
/// whatever the host answers; afterwards there is no session and no route.
pub proof fn lemma_abandon_run(v: SessionView, replies: Seq<ReplyView>)
    requires
        consistent(v),
        v.phase == Phase::Recording || v.phase == Phase::Paused,
        replies.len() == stop(v).len() + v.route.len(),
    ensures
        drive(v.abandon(), replies) == (Run {
            session: SessionView { segments: all_segments(v), ..v.ended() },
            commands: stop(v) + unloads(v.route),
            result: Some(Ok(())),
        }),
{
    if v.phase == Phase::Paused {
        lemma_release_run(v, replies);
        assert(stop(v) + unloads(v.route) =~= unloads(v.route));
    } else {
        lemma_one_step(v.abandon(), replies);
        let halted = v.abandon().session.recorded();
        lemma_release_run(halted, replies.drop_first());
        assert(seq![CommandView::Interrupt] + unloads(v.route) =~= stop(v) + unloads(v.route));
    }
}

/// One segment whose move fails because source and destination lie on
/// different volumes is copied to the destination and then deleted; with
/// that the recording is made and the list of segments is empty.
pub proof fn lemma_cross_device(v: SessionView)
    requires
        v.segments.len() == 1,
    ensures
        drive(
            v.finalize(),
            seq![ReplyView::CrossDevice, ReplyView::Done, ReplyView::Done],
        ) == (Run {
            session: v.conclude(None).session,
            commands: seq![
                CommandView::Rename { from: v.segments[0], to: v.config->0.final_path },
                CommandView::Copy { from: v.segments[0], to: v.config->0.final_path },
                CommandView::Remove(v.segments[0]),
            ],
            result: Some(verdict(v.failure)),
        }),
{
    let rs = seq![ReplyView::CrossDevice, ReplyView::Done, ReplyView::Done];
    let o1 = v.finalize();
    lemma_one_step(o1, rs);
    let r1 = rs.drop_first();
    let o2 = o1.session.reply(rs[0]);
    lemma_one_step(o2, r1);
    let r2 = r1.drop_first();
    let o3 = o2.session.reply(r1[0]);
    lemma_one_step(o3, r2);
    let o4 = o3.session.reply(r2[0]);
    assert(o4 == v.conclude(None));
    assert(drive(o1, rs).commands =~= seq![
        CommandView::Rename { from: v.segments[0], to: v.config->0.final_path },
        CommandView::Copy { from: v.segments[0], to: v.config->0.final_path },
        CommandView::Remove(v.segments[0]),
    ]);
}

/// Where the merge tool fails, the finish fails with `ConcatFailed` unless it
/// had failed before, no segment is deleted, and the list of segments is kept.
pub proof fn lemma_merge_refused(v: SessionView, r: ReplyView, replies: Seq<ReplyView>)
    requires
        v.phase == Phase::Merging,
        !r.ok(),
    ensures
        drive(v.reply(r), replies) == (Run {
            session: v.ended(),
            commands: seq![],
            result: Some(Err(first_of(v.failure, Some(RecorderError::ConcatFailed))->0)),
        }),
{
}

/// Whatever the host answers, a request that is finished leaves the session
/// at rest, and a finish or a giving up that is finished leaves no session.
pub proof fn lemma_finished_at_rest(v: SessionView, r: ReplyView)
    requires
        consistent(v),
        v.reply(r).step is Finished,
    ensures
        v.reply(r).session.phase.at_rest(),
        v.phase.state() == crate::session::SessionState::Finishing ==> v.reply(r).session.phase
            == Phase::Idle,
{
}

/// The number that comes `k` segments after the number `n`.
pub open spec fn advanced(n: u64, k: nat) -> u64
    decreases k,
{
    if k == 0 {
        n
    } else {
        following(advanced(n, (k - 1) as nat))
    }
}

/// A recording session after it was paused and resumed once for each of
/// `stamps`, which mark the moments of the resumptions; the host stopped and
/// launched the capture tool each time.
pub open spec fn cycled(v: SessionView, stamps: Seq<Text>) -> SessionView
    decreases stamps.len(),
{
    if stamps.len() == 0 {
        v
    } else {
        let before = cycled(v, stamps.drop_last());
        let paused = drive(before.pause(), seq![ReplyView::Done]).session;
        drive(paused.resume(stamps.last()), seq![ReplyView::Done]).session
    }
}

/// The paths of the segments that the resumptions marked `stamps` begin.
pub open spec fn later_paths(v: SessionView, stamps: Seq<Text>) -> Seq<Text> {
    Seq::new(
        stamps.len(),
        |i: int| segment_path(v.temp_dir, stamps[i], advanced(v.issued, i as nat) as nat),
    )
}

/// Each pause and resumption adds one segment, after those that were there:
/// after `n` of them the session records again and has `n` segments more, in
/// the order of the resumptions. Configuration and route are untouched.
pub proof fn lemma_cycles(v: SessionView, stamps: Seq<Text>)
    requires
        consistent(v),
        v.phase == Phase::Recording,
    ensures
        ({
            let w = cycled(v, stamps);
            &&& consistent(w)
            &&& w.phase == Phase::Recording
            &&& w.temp_dir == v.temp_dir
            &&& w.config == v.config
            &&& w.route == v.route
            &&& w.issued == advanced(v.issued, stamps.len())
            &&& all_segments(w) == all_segments(v) + later_paths(v, stamps)
            &&& all_segments(w).len() == all_segments(v).len() + stamps.len()
        }),
    decreases stamps.len(),
{
    if stamps.len() == 0 {
        assert(all_segments(v) + later_paths(v, stamps) =~= all_segments(v));
    } else {
        let fewer = stamps.drop_last();
        lemma_cycles(v, fewer);
        let before = cycled(v, fewer);
        lemma_one_step(before.pause(), seq![ReplyView::Done]);
        let paused = drive(before.pause(), seq![ReplyView::Done]).session;
        assert(paused == SessionView { phase: Phase::Paused, ..before.recorded() });
        lemma_one_step(paused.resume(stamps.last()), seq![ReplyView::Done]);
        let w = cycled(v, stamps);
        assert(w == SessionView { phase: Phase::Recording, ..paused.resume(stamps.last()).session });
        assert(later_paths(v, stamps) =~= later_paths(v, fewer).push(
            segment_path(v.temp_dir, stamps.last(), advanced(v.issued, fewer.len()) as nat),
        ));
        assert(all_segments(w) =~= all_segments(before).push(w.current->0));
        assert(all_segments(w) =~= all_segments(v) + later_paths(v, stamps));
    }
}

/// A whole session with a host that does as it is asked: started, paused and
/// resumed once for each of `stamps`, and finished.
///
/// The finish stops the capture, takes the route down and makes the recording
/// at the configured path of one segment more than there were resumptions:
/// the first segment, then those of the resumptions, in that order. After it
/// there is no session, no route and no segment.
pub proof fn lemma_whole_session(
    v: SessionView,
    config: ConfigView,
    stamp: Text,
    first: Seq<ReplyView>,
    stamps: Seq<Text>,
    last: Seq<ReplyView>,
)
    requires
        consistent(v),
        v.phase == Phase::Idle,
        valid(config),
        served(v.start(config, stamp), first),
        served(cycled(drive(v.start(config, stamp), first).session, stamps).finish(), last),
    ensures
        ({
            let begun = drive(v.start(config, stamp), first);
            let run = drive(cycled(begun.session, stamps).finish(), last);
            let paths = seq![v.next_path(stamp)] + later_paths(begun.session, stamps);
            &&& begun.result == Some(Ok::<(), RecorderError>(()))
            &&& paths.len() == stamps.len() + 1
            &&& run.commands == seq![CommandView::Interrupt] + unloads(begun.session.route)
                + assembly(v.temp_dir, paths, config.final_path)
            &&& run.result == Some(Ok::<(), RecorderError>(()))
            &&& run.session == (SessionView {
                segments: Seq::empty(),
                issued: advanced(following(v.issued), stamps.len()),
                ..v
            })
        }),
{
    lemma_start_run(v, config, stamp, first);
    let rec = drive(v.start(config, stamp), first).session;
    assert(all_segments(rec) =~= seq![v.next_path(stamp)]);
    lemma_cycles(rec, stamps);
    let w = cycled(rec, stamps);
    lemma_finish_run(w, last);
    assert(stop(w) =~= seq![CommandView::Interrupt]);
    assert(w.ended().route =~= v.route);
}

/// A session that is started and finished at once, with a host that does as
/// it is asked: its one segment is moved to the configured path, and
/// afterwards there is no session, no route and no segment.
pub proof fn lemma_start_then_finish(
    v: SessionView,
    config: ConfigView,
    stamp: Text,
    first: Seq<ReplyView>,
    last: Seq<ReplyView>,
)
    requires
        consistent(v),
        v.phase == Phase::Idle,
        valid(config),
        served(v.start(config, stamp), first),
        served(drive(v.start(config, stamp), first).session.finish(), last),
    ensures
        ({
            let begun = drive(v.start(config, stamp), first);
            let run = drive(begun.session.finish(), last);
            &&& begun.result == Some(Ok::<(), RecorderError>(()))
            &&& begun.session.phase == Phase::Recording
            &&& run.result == Some(Ok::<(), RecorderError>(()))
            &&& run.commands.last() == (CommandView::Rename {
                from: v.next_path(stamp),
                to: config.final_path,
            })
            &&& run.session.phase == Phase::Idle
            &&& run.session.config is None
            &&& run.session.current is None
            &&& run.session.segments.len() == 0
            &&& run.session.route.len() == 0
        }),
{
    let none = Seq::<Text>::empty();
    lemma_start_run(v, config, stamp, first);
    let rec = drive(v.start(config, stamp), first).session;
    assert(cycled(rec, none) == rec);
    lemma_whole_session(v, config, stamp, first, none, last);
    assert(seq![v.next_path(stamp)] + later_paths(rec, none) =~= seq![v.next_path(stamp)]);
}

/// A finish takes the whole route down before it turns to the segments,
/// whatever the host answers while it does: neither a capture that could not
/// be stopped nor a module that could not be unloaded keeps the others
/// loaded.
pub proof fn lemma_finish_takes_route_down(v: SessionView, replies: Seq<ReplyView>)
    requires
        consistent(v),
        v.phase == Phase::Recording || v.phase == Phase::Paused,
        replies.len() == stop(v).len() + v.route.len(),
    ensures
        ({
            let run = drive(v.finish(), replies);
            &&& run.commands.len() == replies.len() + 1
            &&& run.commands.take(replies.len() as int) == stop(v) + unloads(v.route)
            &&& run.session.route.len() == 0
            &&& run.session.segments == all_segments(v)
            &&& run.result is None
        }),
{
    if v.phase == Phase::Paused {
        lemma_unloading(v, replies);
        assert(stop(v) + unloads(v.route) =~= unloads(v.route));
    } else {
        lemma_one_step(v.finish(), replies);
        let stopped = v.finish().session.reply(replies[0]);
        let recorded = SessionView {
            failure: if replies[0].ok() {
                None
            } else {
                Some(RecorderError::WaitFailed)
            },
            ..v.finish().session.recorded()
        };
        assert(stopped == recorded.unload());
        lemma_unloading(recorded, replies.drop_first());
        let rest = drive(recorded.unload(), replies.drop_first());
        assert(drive(v.finish(), replies).commands.take(replies.len() as int) =~= seq![
            CommandView::Interrupt,
        ] + rest.commands.take(replies.len() - 1));
        assert(seq![CommandView::Interrupt] + unloads(v.route) =~= stop(v) + unloads(v.route));
    }
}

/// Taking the route down before the segments are dealt with: one command for
/// each module, whatever the answers, and then the first command for the
/// segments.
proof fn lemma_unloading(v: SessionView, replies: Seq<ReplyView>)
    requires
        v.segments.len() >= 1,
        replies.len() == v.route.len(),
    ensures
        ({
            let run = drive(v.unload(), replies);
            &&& run.commands.len() == replies.len() + 1
            &&& run.commands.take(replies.len() as int) == unloads(v.route)
            &&& run.session.route.len() == 0
            &&& run.session.segments == v.segments
            &&& run.result is None
        }),
    decreases v.route.len(),
{
    if v.route.len() == 0 {
        assert(drive(v.unload(), replies).commands.take(0) =~= unloads(v.route));
    } else {
        let next = v.unload().session;
        lemma_one_step(v.unload(), replies);
        lemma_unloading(next, replies.drop_first());
        let rest = drive(next.unload(), replies.drop_first());
        assert(drive(v.unload(), replies).commands.take(replies.len() as int) =~= seq![
            CommandView::UnloadModule(v.route[0]),
        ] + rest.commands.take(replies.len() - 1));
        assert(seq![CommandView::UnloadModule(v.route[0])] + unloads(next.route) =~= unloads(
            v.route,
        ));
    }
}

} // verus!
