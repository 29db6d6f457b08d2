//! The session as mathematics: its states, and what each request and each
//! answer of the host makes of them.
//!
//! A session is at rest (`Idle`, `Recording`, `Paused`) or waits for the host's
//! answer to the one command it has handed out. Every function here is total:
//! a request or an answer that comes out of turn leaves the session as it is.

use crate::command::{
    capture_args, loopback_args, manifest, manifest_path, merge_args, segment_path, sink_args,
    CommandView, ReplyView,
};
use crate::config::{valid, AudioMode, ConfigView};
use crate::text::{trimmed, Text};
use vstd::prelude::*;

verus! {

/// Why a request did not do what was asked.
#[derive(Clone, Copy, Debug, PartialEq, Eq, Structural)]
pub enum RecorderError {
    /// Both sources were to be mixed and one of them was not named.
    InvalidConfig,
    /// A session exists already.
    AlreadyRecording,
    /// The audio server did not build the mixing topology.
    RoutingFailed,
    /// The capture tool could not be launched.
    SpawnFailed,
    /// The capture tool could not be stopped or waited for.
    WaitFailed,
    /// There is no session, and so nothing to finish.
    NoRecording,
    /// The one segment could not be moved to its destination.
    MoveFailed,
    /// The list of segments could not be written.
    ManifestFailed,
    /// The merge tool failed; the segments are still where they were.
    ConcatFailed,
    /// The host asked or answered while it was not its turn.
    OutOfTurn,
}

impl RecorderError {
    /// The failure in a few words.
    pub open spec fn description(self) -> Text {
        match self {
            RecorderError::InvalidConfig => "Both audio sources must be chosen to record both"@,
            RecorderError::AlreadyRecording => "A recording is already in progress"@,
            RecorderError::RoutingFailed => "The audio mixer could not be set up"@,
            RecorderError::SpawnFailed => "Failed to start segment"@,
            RecorderError::WaitFailed => "The capture tool could not be stopped"@,
            RecorderError::NoRecording => "No recordings made"@,
            RecorderError::MoveFailed => "The recording could not be moved to its destination"@,
            RecorderError::ManifestFailed => "The list of segments could not be written"@,
            RecorderError::ConcatFailed => "FFmpeg concat failed"@,
            RecorderError::OutOfTurn => "Another request is still being carried out"@,
        }
    }

    /// Computes [`RecorderError::description`].
    pub fn message(&self) -> (s: String)
        ensures
            s@ == self.description(),
    {
        match self {
            RecorderError::InvalidConfig => "Both audio sources must be chosen to record both".to_owned(),
            RecorderError::AlreadyRecording => "A recording is already in progress".to_owned(),
            RecorderError::RoutingFailed => "The audio mixer could not be set up".to_owned(),
            RecorderError::SpawnFailed => "Failed to start segment".to_owned(),
            RecorderError::WaitFailed => "The capture tool could not be stopped".to_owned(),
            RecorderError::NoRecording => "No recordings made".to_owned(),
            RecorderError::MoveFailed => "The recording could not be moved to its destination".to_owned(),
            RecorderError::ManifestFailed => "The list of segments could not be written".to_owned(),
            RecorderError::ConcatFailed => "FFmpeg concat failed".to_owned(),
            RecorderError::OutOfTurn => "Another request is still being carried out".to_owned(),
        }
    }
}

/// The state of the session as its user sees it.
#[derive(Clone, Copy, Debug, PartialEq, Eq, Structural)]
pub enum SessionState {
    Idle,
    Recording,
    Paused,
    Finishing,
}

/// Where the session stands: at rest, or waiting for the answer to a command.
#[derive(Clone, Copy, Debug, PartialEq, Eq, Structural)]
pub enum Phase {
    /// At rest: no session.
    Idle,
    /// Starting: the mixing sink is being created.
    LoadingSink,
    /// Starting: the microphone is being routed into the sink.
    LoadingMicLoopback,
    /// Starting: the monitor source is being routed into the sink.
    LoadingMonitorLoopback,
    /// Starting: the capture tool is being launched for the first segment.
    Launching,
    /// At rest: a segment is being captured.
    Recording,
    /// Pausing: the capture tool is being stopped.
    Pausing,
    /// At rest: no segment is being captured.
    Paused,
    /// Resuming: the capture tool is being launched for another segment.
    Resuming,
    /// Finishing: the capture tool is being stopped.
    Stopping,
    /// Finishing: a module of the audio route is being unloaded.
    Unloading,
    /// Finishing: the one segment is being moved to the destination.
    Renaming,
    /// Finishing: the one segment is being copied to the destination.
    Copying,
    /// Finishing: the one segment, copied, is being deleted.
    RemovingSource,
    /// Finishing: the list of segments is being written.
    WritingManifest,
    /// Finishing: the merge tool is running.
    Merging,
    /// Finishing: the list of segments is being deleted.
    RemovingManifest,
    /// Finishing: a merged segment is being deleted.
    RemovingSegments,
    /// Giving up: the capture tool is being stopped.
    Halting,
    /// Giving up, or undoing a start that failed: a module of the audio route
    /// is being unloaded.
    Releasing,
}

impl Phase {
    /// Whether no command is with the host.
    pub open spec fn at_rest(self) -> bool {
        self == Phase::Idle || self == Phase::Recording || self == Phase::Paused
    }

    /// Whether the session is being ended and the capture tool has been dealt
    /// with: the phases in which a failure may have been noted.
    pub open spec fn after_stop(self) -> bool {
        self.state() == SessionState::Finishing && self != Phase::Stopping && self
            != Phase::Halting
    }

    /// The state that the user sees in this phase. A session that is starting
    /// is not there yet; one that is pausing still records; one that is
    /// resuming is still paused.
    pub open spec fn state(self) -> SessionState {
        match self {
            Phase::Idle | Phase::LoadingSink | Phase::LoadingMicLoopback
            | Phase::LoadingMonitorLoopback | Phase::Launching => SessionState::Idle,
            Phase::Recording | Phase::Pausing => SessionState::Recording,
            Phase::Paused | Phase::Resuming => SessionState::Paused,
            _ => SessionState::Finishing,
        }
    }
}

/// Everything that a session holds.
pub struct SessionView {
    /// The directory for segments and the segment list.
    pub temp_dir: Text,
    /// Where the session stands.
    pub phase: Phase,
    /// The configuration, while there is a session.
    pub config: Option<ConfigView>,
    /// The identifiers of the audio modules that are loaded, oldest first.
    pub route: Seq<Text>,
    /// The paths of the completed segments, in recording order.
    pub segments: Seq<Text>,
    /// The path of the segment that the capture tool is writing, or is about
    /// to write.
    pub current: Option<Text>,
    /// The number that the next segment gets.
    pub issued: u64,
    /// The first failure of the request that is being carried out.
    pub failure: Option<RecorderError>,
}

/// What the session wants next.
pub enum StepView {
    /// The host is to carry out this command and answer.
    Run(CommandView),
    /// The request is done, with this result.
    Finished(Result<(), RecorderError>),
}

/// A session after a request or an answer, and what it wants next.
pub struct Outcome {
    pub session: SessionView,
    pub step: StepView,
}

/// The number after `n`; after the largest comes zero.
pub open spec fn following(n: u64) -> u64 {
    if n == u64::MAX {
        0
    } else {
        (n + 1) as u64
    }
}

/// The route that a mode needs is complete: three modules where both sources
/// are mixed, none otherwise.
pub open spec fn route_complete(c: ConfigView, route: Seq<Text>) -> bool {
    if c.audio_mode == AudioMode::Both {
        route.len() == 3
    } else {
        route.len() == 0
    }
}

/// What holds of every session that was made by [`SessionView::fresh`] and
/// changed by the functions of this module alone.
pub open spec fn consistent(v: SessionView) -> bool {
    &&& v.phase != Phase::Idle ==> v.config is Some && valid(v.config->0)
    &&& v.failure is Some ==> v.phase.after_stop()
    &&& match v.phase {
        Phase::Idle => v.config is None && v.current is None && v.route.len() == 0,
        Phase::LoadingSink => {
            &&& v.config->0.audio_mode == AudioMode::Both
            &&& v.route.len() == 0
            &&& v.current is Some
            &&& v.segments.len() == 0
        },
        Phase::LoadingMicLoopback => {
            &&& v.config->0.audio_mode == AudioMode::Both
            &&& v.route.len() == 1
            &&& v.current is Some
            &&& v.segments.len() == 0
        },
        Phase::LoadingMonitorLoopback => {
            &&& v.config->0.audio_mode == AudioMode::Both
            &&& v.route.len() == 2
            &&& v.current is Some
            &&& v.segments.len() == 0
        },
        Phase::Launching => {
            &&& route_complete(v.config->0, v.route)
            &&& v.current is Some
            &&& v.segments.len() == 0
        },
        Phase::Recording | Phase::Pausing | Phase::Stopping | Phase::Halting => {
            &&& route_complete(v.config->0, v.route)
            &&& v.current is Some
        },
        Phase::Paused => {
            &&& route_complete(v.config->0, v.route)
            &&& v.current is None
            &&& v.segments.len() >= 1
        },
        Phase::Resuming => {
            &&& route_complete(v.config->0, v.route)
            &&& v.current is Some
            &&& v.segments.len() >= 1
        },
        Phase::Unloading => v.current is None && v.segments.len() >= 1,
        Phase::Renaming | Phase::Copying | Phase::RemovingSource => {
            &&& v.current is None
            &&& v.route.len() == 0
            &&& v.segments.len() == 1
        },
        Phase::WritingManifest | Phase::Merging => {
            &&& v.current is None
            &&& v.route.len() == 0
            &&& v.segments.len() >= 2
        },
        Phase::RemovingManifest | Phase::RemovingSegments => {
            &&& v.current is None
            &&& v.route.len() == 0
        },
        Phase::Releasing => v.current is None,
    }
}

/// The result of a request whose first failure, if any, was `failure`.
pub open spec fn verdict(failure: Option<RecorderError>) -> Result<(), RecorderError> {
    match failure {
        Some(e) => Err(e),
        None => Ok(()),
    }
}

/// The earlier of two failures.
pub open spec fn first_of(a: Option<RecorderError>, b: Option<RecorderError>) -> Option<
    RecorderError,
> {
    if a is Some {
        a
    } else {
        b
    }
}

impl SessionView {
    /// A new session manager that keeps its segments in `temp_dir`.
    pub open spec fn fresh(temp_dir: Text) -> SessionView {
        SessionView {
            temp_dir,
            phase: Phase::Idle,
            config: None,
            route: Seq::empty(),
            segments: Seq::empty(),
            current: None,
            issued: 0,
            failure: None,
        }
    }

    /// The session left as it is, the request refused with `e`.
    pub open spec fn refuse(self, e: RecorderError) -> Outcome {
        Outcome { session: self, step: StepView::Finished(Err(e)) }
    }

    /// The session left as it is, the request done.
    pub open spec fn nothing_to_do(self) -> Outcome {
        Outcome { session: self, step: StepView::Finished(Ok(())) }
    }

    /// The session ended: no configuration, no route, no capture. The list of
    /// segments stays.
    pub open spec fn ended(self) -> SessionView {
        SessionView {
            phase: Phase::Idle,
            config: None,
            route: Seq::empty(),
            current: None,
            failure: None,
            ..self
        }
    }

    /// The segment that was being captured, added to the completed ones.
    pub open spec fn recorded(self) -> SessionView {
        SessionView { segments: self.segments.push(self.current->0), current: None, ..self }
    }

    /// The path of the segment that a capture started now, marked `stamp`,
    /// would write.
    pub open spec fn next_path(self, stamp: Text) -> Text {
        segment_path(self.temp_dir, stamp, self.issued as nat)
    }

    /// The command that launches the capture tool for the current segment.
    pub open spec fn capture(self) -> StepView {
        StepView::Run(CommandView::Capture(capture_args(self.current->0, self.config->0)))
    }

    /// A request to start a session with `config`, made at a moment marked
    /// `stamp`.
    ///
    /// It is refused unless the manager is idle, and unless the configuration
    /// is valid. Otherwise the session takes the configuration, forgets the
    /// segments of an earlier session and names its first segment; then it
    /// asks for the mixing sink, where both sources are recorded, and else for
    /// the capture tool at once.
    pub open spec fn start(self, config: ConfigView, stamp: Text) -> Outcome {
        if self.phase != Phase::Idle {
            self.refuse(RecorderError::AlreadyRecording)
        } else if !valid(config) {
            self.refuse(RecorderError::InvalidConfig)
        } else {
            let begun = SessionView {
                config: Some(config),
                segments: Seq::empty(),
                current: Some(self.next_path(stamp)),
                issued: following(self.issued),
                failure: None,
                ..self
            };
            if config.audio_mode == AudioMode::Both {
                Outcome {
                    session: SessionView { phase: Phase::LoadingSink, ..begun },
                    step: StepView::Run(CommandView::LoadModule(sink_args())),
                }
            } else {
                Outcome {
                    session: SessionView { phase: Phase::Launching, ..begun },
                    step: begun.capture(),
                }
            }
        }
    }

    /// A request to pause. While a segment is being captured the capture tool
    /// is stopped; at rest otherwise there is nothing to do.
    pub open spec fn pause(self) -> Outcome {
        if self.phase == Phase::Recording {
            Outcome {
                session: SessionView { phase: Phase::Pausing, ..self },
                step: StepView::Run(CommandView::Interrupt),
            }
        } else if self.phase.at_rest() {
            self.nothing_to_do()
        } else {
            self.refuse(RecorderError::OutOfTurn)
        }
    }

    /// A request to resume, made at a moment marked `stamp`. While the session
    /// is paused the capture tool is launched for a new segment; at rest
    /// otherwise there is nothing to do.
    pub open spec fn resume(self, stamp: Text) -> Outcome {
        if self.phase == Phase::Paused {
            let next = SessionView {
                phase: Phase::Resuming,
                current: Some(self.next_path(stamp)),
                issued: following(self.issued),
                ..self
            };
            Outcome { session: next, step: next.capture() }
        } else if self.phase.at_rest() {
            self.nothing_to_do()
        } else {
            self.refuse(RecorderError::OutOfTurn)
        }
    }

    /// A request to finish. Without a session there is nothing to finish. A
    /// capture that runs is stopped first; then the route is taken down and
    /// the segments are made into the recording.
    pub open spec fn finish(self) -> Outcome {
        match self.phase {
            Phase::Idle => self.refuse(RecorderError::NoRecording),
            Phase::Recording => Outcome {
                session: SessionView { phase: Phase::Stopping, ..self },
                step: StepView::Run(CommandView::Interrupt),
            },
            Phase::Paused => self.unload(),
            _ => self.refuse(RecorderError::OutOfTurn),
        }
    }

    /// A request to give the session up: a capture that runs is stopped and the
    /// route is taken down, and nothing is made of the segments.
    pub open spec fn abandon(self) -> Outcome {
        match self.phase {
            Phase::Idle => self.nothing_to_do(),
            Phase::Recording => Outcome {
                session: SessionView { phase: Phase::Halting, ..self },
                step: StepView::Run(CommandView::Interrupt),
            },
            Phase::Paused => self.release(),
            _ => self.refuse(RecorderError::OutOfTurn),
        }
    }

    /// Takes down what is left of the route, oldest module first, and then ends
    /// the session with the failure noted, if any.
    pub open spec fn release(self) -> Outcome {
        if self.route.len() == 0 {
            Outcome { session: self.ended(), step: StepView::Finished(verdict(self.failure)) }
        } else {
            Outcome {
                session: SessionView {
                    phase: Phase::Releasing,
                    route: self.route.drop_first(),
                    ..self
                },
                step: StepView::Run(CommandView::UnloadModule(self.route[0])),
            }
        }
    }

    /// Takes down what is left of the route, oldest module first, and then
    /// turns to the segments.
    pub open spec fn unload(self) -> Outcome {
        if self.route.len() == 0 {
            self.finalize()
        } else {
            Outcome {
                session: SessionView {
                    phase: Phase::Unloading,
                    route: self.route.drop_first(),
                    ..self
                },
                step: StepView::Run(CommandView::UnloadModule(self.route[0])),
            }
        }
    }

    /// Makes the recording of the segments: one segment is moved to the
    /// destination, several are listed for the merge tool.
    pub open spec fn finalize(self) -> Outcome {
        if self.segments.len() == 0 {
            self.conclude(Some(RecorderError::NoRecording))
        } else if self.segments.len() == 1 {
            Outcome {
                session: SessionView { phase: Phase::Renaming, ..self },
                step: StepView::Run(
                    CommandView::Rename { from: self.segments[0], to: self.config->0.final_path },
                ),
            }
        } else {
            Outcome {
                session: SessionView { phase: Phase::WritingManifest, ..self },
                step: StepView::Run(
                    CommandView::WriteText {
                        path: manifest_path(self.temp_dir),
                        text: manifest(self.segments),
                    },
                ),
            }
        }
    }

    /// Deletes what is left of the merged segments, oldest first, and then
    /// ends the session.
    pub open spec fn sweep(self) -> Outcome {
        if self.segments.len() == 0 {
            self.conclude(None)
        } else {
            Outcome {
                session: SessionView {
                    phase: Phase::RemovingSegments,
                    segments: self.segments.drop_first(),
                    ..self
                },
                step: StepView::Run(CommandView::Remove(self.segments[0])),
            }
        }
    }

    /// Ends the session after the segments were dealt with. Where that went
    /// well the list of segments is emptied; where it failed with `failure` the
    /// list stays. The result is the first failure of the whole request.
    pub open spec fn conclude(self, failure: Option<RecorderError>) -> Outcome {
        let kept = if failure is None {
            Seq::<Text>::empty()
        } else {
            self.segments
        };
        Outcome {
            session: SessionView { segments: kept, ..self.ended() },
            step: StepView::Finished(verdict(first_of(self.failure, failure))),
        }
    }

    /// Undoes a start that failed with `e`.
    pub open spec fn fail_start(self, e: RecorderError) -> Outcome {
        (SessionView { current: None, failure: Some(e), ..self }).release()
    }

    /// The host's answer `reply` to the command that is with it.
    pub open spec fn reply(self, reply: ReplyView) -> Outcome {
        match self.phase {
            Phase::Idle | Phase::Recording | Phase::Paused => self.refuse(RecorderError::OutOfTurn),
            Phase::LoadingSink => match reply {
                ReplyView::Loaded(id) => Outcome {
                    session: SessionView {
                        phase: Phase::LoadingMicLoopback,
                        route: self.route.push(trimmed(id)),
                        ..self
                    },
                    step: StepView::Run(
                        CommandView::LoadModule(loopback_args(self.config->0.mic_device->0)),
                    ),
                },
                _ => self.fail_start(RecorderError::RoutingFailed),
            },
            Phase::LoadingMicLoopback => match reply {
                ReplyView::Loaded(id) => Outcome {
                    session: SessionView {
                        phase: Phase::LoadingMonitorLoopback,
                        route: self.route.push(trimmed(id)),
                        ..self
                    },
                    step: StepView::Run(
                        CommandView::LoadModule(loopback_args(self.config->0.monitor_device->0)),
                    ),
                },
                _ => self.fail_start(RecorderError::RoutingFailed),
            },
            Phase::LoadingMonitorLoopback => match reply {
                ReplyView::Loaded(id) => Outcome {
                    session: SessionView {
                        phase: Phase::Launching,
                        route: self.route.push(trimmed(id)),
                        ..self
                    },
                    step: self.capture(),
                },
                _ => self.fail_start(RecorderError::RoutingFailed),
            },
            Phase::Launching => if reply.ok() {
                Outcome {
                    session: SessionView { phase: Phase::Recording, ..self },
                    step: StepView::Finished(Ok(())),
                }
            } else {
                self.fail_start(RecorderError::SpawnFailed)
            },
            Phase::Pausing => Outcome {
                session: SessionView { phase: Phase::Paused, ..self.recorded() },
                step: StepView::Finished(
                    if reply.ok() {
                        Ok(())
                    } else {
                        Err(RecorderError::WaitFailed)
                    },
                ),
            },
            Phase::Resuming => if reply.ok() {
                Outcome {
                    session: SessionView { phase: Phase::Recording, ..self },
                    step: StepView::Finished(Ok(())),
                }
            } else {
                Outcome {
                    session: SessionView { phase: Phase::Paused, current: None, ..self },
                    step: StepView::Finished(Err(RecorderError::SpawnFailed)),
                }
            },
            Phase::Stopping => (SessionView {
                failure: if reply.ok() {
                    None
                } else {
                    Some(RecorderError::WaitFailed)
                },
                ..self.recorded()
            }).unload(),
            Phase::Unloading => self.unload(),
            Phase::Renaming => match reply {
                ReplyView::CrossDevice => Outcome {
                    session: SessionView { phase: Phase::Copying, ..self },
                    step: StepView::Run(
                        CommandView::Copy {
                            from: self.segments[0],
                            to: self.config->0.final_path,
                        },
                    ),
                },
                _ => if reply.ok() {
                    self.conclude(None)
                } else {
                    self.conclude(Some(RecorderError::MoveFailed))
                },
            },
            Phase::Copying => if reply.ok() {
                Outcome {
                    session: SessionView { phase: Phase::RemovingSource, ..self },
                    step: StepView::Run(CommandView::Remove(self.segments[0])),
                }
            } else {
                self.conclude(Some(RecorderError::MoveFailed))
            },
            Phase::RemovingSource => if reply.ok() {
                self.conclude(None)
            } else {
                self.conclude(Some(RecorderError::MoveFailed))
            },
            Phase::WritingManifest => if reply.ok() {
                Outcome {
                    session: SessionView { phase: Phase::Merging, ..self },
                    step: StepView::Run(
                        CommandView::Merge(
                            merge_args(manifest_path(self.temp_dir), self.config->0.final_path),
                        ),
                    ),
                }
            } else {
                self.conclude(Some(RecorderError::ManifestFailed))
            },
            Phase::Merging => if reply.ok() {
                Outcome {
                    session: SessionView { phase: Phase::RemovingManifest, ..self },
                    step: StepView::Run(CommandView::Remove(manifest_path(self.temp_dir))),
                }
            } else {
                self.conclude(Some(RecorderError::ConcatFailed))
            },
            Phase::RemovingManifest | Phase::RemovingSegments => self.sweep(),
            Phase::Halting => self.recorded().release(),
            Phase::Releasing => self.release(),
        }
    }
}

/// No request and no answer breaks a session.
pub proof fn lemma_consistency_kept(v: SessionView, config: ConfigView, stamp: Text, r: ReplyView)
    requires
        consistent(v),
    ensures
        consistent(SessionView::fresh(v.temp_dir)),
        consistent(v.start(config, stamp).session),
        consistent(v.pause().session),
        consistent(v.resume(stamp).session),
        consistent(v.finish().session),
        consistent(v.abandon().session),
        consistent(v.reply(r).session),
{
}

} // verus!
