//! The session manager that a host drives.
//!
//! A request ([`Recorder::start_session`], [`Recorder::pause_session`],
//! [`Recorder::resume_session`], [`Recorder::finish_session`],
//! [`Recorder::abandon_session`]) returns a [`Step`]: either the request is
//! finished, or the host is to run a command and hand its answer to
//! [`Recorder::advance`], which returns the next step.

use crate::clock::local_time;
use crate::command::{
    build_capture_args, build_loopback_args, build_manifest, build_manifest_path,
    build_merge_args, build_segment_path, build_sink_args, Command, Reply,
};
use crate::config::{AudioMode, ConfigView, SessionConfig};
use crate::session::{Outcome, Phase, RecorderError, SessionState, SessionView, StepView, consistent};
use crate::text::{lemma_texts_push, lemma_texts_remove_first, texts, trim, Text};
use vstd::prelude::*;

verus! {

/// What the session wants next.
#[derive(Debug, PartialEq, Eq)]
pub enum Step {
    /// The host is to carry out this command and answer with
    /// [`Recorder::advance`].
    Run(Command),
    /// The request is done, with this result.
    Finished(Result<(), RecorderError>),
}

impl View for Step {
    type V = StepView;

    open spec fn view(&self) -> StepView {
        match self {
            Step::Run(c) => StepView::Run(c@),
            Step::Finished(r) => StepView::Finished(*r),
        }
    }
}

/// The content of an optional configuration.
pub open spec fn opt_config(c: Option<SessionConfig>) -> Option<ConfigView> {
    match c {
        Some(c) => Some(c@),
        None => None,
    }
}

/// The session manager without its invariant: every function says what it
/// needs.
struct Machine {
    temp_dir: String,
    phase: Phase,
    config: Option<SessionConfig>,
    route: Vec<String>,
    segments: Vec<String>,
    current: Option<String>,
    issued: u64,
    failure: Option<RecorderError>,
}

impl View for Machine {
    type V = SessionView;

    closed spec fn view(&self) -> SessionView {
        SessionView {
            temp_dir: self.temp_dir@,
            phase: self.phase,
            config: opt_config(self.config),
            route: texts(self.route@),
            segments: texts(self.segments@),
            current: crate::config::opt_text(self.current),
            issued: self.issued,
            failure: self.failure,
        }
    }
}

/// A copy of each string of `v`.
fn copy_all(v: &Vec<String>) -> (r: Vec<String>)
    ensures
        texts(r@) == texts(v@),
{
    let mut out: Vec<String> = Vec::new();
    let mut i: usize = 0;
    while i < v.len()
        invariant
            i <= v.len(),
            texts(out@) == texts(v@).take(i as int),
        decreases v.len() - i,
    {
        proof {
            lemma_texts_push(out@, v@[i as int]);
            assert(texts(v@).take(i as int + 1) =~= texts(v@).take(i as int).push(v@[i as int]@));
        }
        out.push(v[i].clone());
        i += 1;
    }
    assert(texts(v@).take(i as int) =~= texts(v@));
    out
}

impl Machine {
    /// Whether the session is one that the requests and answers can have
    /// produced.
    closed spec fn wf(&self) -> bool {
        consistent(self@)
    }

    /// A manager without a session, which keeps its segments in `temp_dir`.
    fn new(temp_dir: &str) -> (r: Machine)
        ensures
            r@ == SessionView::fresh(temp_dir@),
            r.wf(),
    {
        let r = Machine {
            temp_dir: temp_dir.to_owned(),
            phase: Phase::Idle,
            config: None,
            route: Vec::new(),
            segments: Vec::new(),
            current: None,
            issued: 0,
            failure: None,
        };
        assert(texts(r.route@) =~= Seq::<Text>::empty());
        assert(texts(r.segments@) =~= Seq::<Text>::empty());
        r
    }

    /// Where the session stands.
    fn phase(&self) -> (p: Phase)
        ensures
            p == self@.phase,
    {
        self.phase
    }

    /// The state of the session.
    fn state(&self) -> (s: SessionState)
        ensures
            s == self@.phase.state(),
    {
        match self.phase {
            Phase::Idle | Phase::LoadingSink | Phase::LoadingMicLoopback
            | Phase::LoadingMonitorLoopback | Phase::Launching => SessionState::Idle,
            Phase::Recording | Phase::Pausing => SessionState::Recording,
            Phase::Paused | Phase::Resuming => SessionState::Paused,
            _ => SessionState::Finishing,
        }
    }

    /// Whether the session is paused.
    fn is_paused(&self) -> (b: bool)
        ensures
            b == (self@.phase.state() == SessionState::Paused),
    {
        match self.phase {
            Phase::Paused | Phase::Resuming => true,
            _ => false,
        }
    }

    /// The paths of the completed segments, in recording order.
    fn segments(&self) -> (s: Vec<String>)
        ensures
            texts(s@) == self@.segments,
    {
        copy_all(&self.segments)
    }

    /// The identifiers of the audio modules that are loaded, oldest first.
    fn route(&self) -> (s: Vec<String>)
        ensures
            texts(s@) == self@.route,
    {
        copy_all(&self.route)
    }

    /// The path of the segment that is being captured.
    fn current_segment(&self) -> (s: Option<String>)
        ensures
            crate::config::opt_text(s) == self@.current,
    {
        crate::config::copied(&self.current)
    }

    /// The directory that the segments are kept in.
    fn temp_dir(&self) -> (s: String)
        ensures
            s@ == self@.temp_dir,
    {
        self.temp_dir.clone()
    }

    fn ended(&mut self)
        ensures
            final(self)@ == old(self)@.ended(),
    {
        self.phase = Phase::Idle;
        self.config = None;
        self.route.clear();
        self.current = None;
        self.failure = None;
        assert(texts(self.route@) =~= Seq::<Text>::empty());
    }

    fn record_current(&mut self)
        requires
            old(self)@.current is Some,
        ensures
            final(self)@ == old(self)@.recorded(),
    {
        let path = self.current.take().unwrap();
        proof {
            lemma_texts_push(self.segments@, path);
        }
        self.segments.push(path);
        assert(self@ =~= old(self)@.recorded());
    }

    fn name_next(&mut self, stamp: &str)
        ensures
            final(self)@ == (SessionView {
                current: Some(old(self)@.next_path(stamp@)),
                issued: crate::session::following(old(self)@.issued),
                ..old(self)@
            }),
    {
        let path = build_segment_path(self.temp_dir.as_str(), stamp, self.issued);
        self.current = Some(path);
        self.issued = if self.issued == u64::MAX {
            0
        } else {
            self.issued + 1
        };
    }

    fn capture_step(&self) -> (s: Step)
        requires
            self@.current is Some,
            self@.config is Some,
        ensures
            s@ == self@.capture(),
    {
        match (&self.current, &self.config) {
            (Some(path), Some(config)) => Step::Run(
                Command::Capture(build_capture_args(path.as_str(), config)),
            ),
            _ => Step::Finished(Ok(())),
        }
    }

    fn verdict(failure: Option<RecorderError>) -> (r: Result<(), RecorderError>)
        ensures
            r == crate::session::verdict(failure),
    {
        match failure {
            Some(e) => Err(e),
            None => Ok(()),
        }
    }

    fn release(&mut self) -> (s: Step)
        ensures
            (Outcome { session: final(self)@, step: s@ }) == old(self)@.release(),
    {
        if self.route.len() == 0 {
            let result = Self::verdict(self.failure);
            self.ended();
            Step::Finished(result)
        } else {
            proof {
                lemma_texts_remove_first(self.route@);
            }
            let id = self.route.remove(0);
            self.phase = Phase::Releasing;
            Step::Run(Command::UnloadModule(id))
        }
    }

    fn fail_start(&mut self, e: RecorderError) -> (s: Step)
        ensures
            (Outcome { session: final(self)@, step: s@ }) == old(self)@.fail_start(e),
    {
        self.current = None;
        self.failure = Some(e);
        self.release()
    }

    fn conclude(&mut self, failure: Option<RecorderError>) -> (s: Step)
        ensures
            (Outcome { session: final(self)@, step: s@ }) == old(self)@.conclude(failure),
    {
        let first = if self.failure.is_some() {
            self.failure
        } else {
            failure
        };
        if failure.is_none() {
            self.segments.clear();
            assert(texts(self.segments@) =~= Seq::<Text>::empty());
        }
        self.ended();
        Step::Finished(Self::verdict(first))
    }

    fn sweep(&mut self) -> (s: Step)
        ensures
            (Outcome { session: final(self)@, step: s@ }) == old(self)@.sweep(),
    {
        if self.segments.len() == 0 {
            self.conclude(None)
        } else {
            proof {
                lemma_texts_remove_first(self.segments@);
            }
            let path = self.segments.remove(0);
            self.phase = Phase::RemovingSegments;
            Step::Run(Command::Remove(path))
        }
    }

    fn finalize(&mut self) -> (s: Step)
        requires
            old(self)@.config is Some,
        ensures
            (Outcome { session: final(self)@, step: s@ }) == old(self)@.finalize(),
    {
        if self.segments.len() == 0 {
            return self.conclude(Some(RecorderError::NoRecording));
        }
        let target = match &self.config {
            Some(c) => c.final_path.clone(),
            None => String::new(),
        };
        if self.segments.len() == 1 {
            self.phase = Phase::Renaming;
            Step::Run(Command::Rename { from: self.segments[0].clone(), to: target })
        } else {
            self.phase = Phase::WritingManifest;
            Step::Run(
                Command::WriteText {
                    path: build_manifest_path(self.temp_dir.as_str()),
                    text: build_manifest(&self.segments),
                },
            )
        }
    }

    fn unload(&mut self) -> (s: Step)
        requires
            old(self)@.config is Some,
        ensures
            (Outcome { session: final(self)@, step: s@ }) == old(self)@.unload(),
    {
        if self.route.len() == 0 {
            self.finalize()
        } else {
            proof {
                lemma_texts_remove_first(self.route@);
            }
            let id = self.route.remove(0);
            self.phase = Phase::Unloading;
            Step::Run(Command::UnloadModule(id))
        }
    }

    fn load_loopback(&mut self, raw: &str, next: Phase, source: &Option<String>) -> (s: Step)
        requires
            *source is Some,
        ensures
            (Outcome { session: final(self)@, step: s@ }) == (Outcome {
                session: SessionView {
                    phase: next,
                    route: old(self)@.route.push(crate::text::trimmed(raw@)),
                    ..old(self)@
                },
                step: StepView::Run(
                    crate::command::CommandView::LoadModule(
                        crate::command::loopback_args(crate::config::opt_text(*source)->0),
                    ),
                ),
            }),
    {
        let id = trim(raw);
        proof {
            lemma_texts_push(self.route@, id);
        }
        self.route.push(id);
        self.phase = next;
        match source {
            Some(name) => Step::Run(Command::LoadModule(build_loopback_args(name.as_str()))),
            None => Step::Finished(Ok(())),
        }
    }

    /// The path of a recording in `save_dir` that is named after the time of
    /// the call: see [`crate::command::output_path`].
    fn output_path_now(save_dir: &str) -> (p: String)
        ensures
            exists|stamp: Text| p@ == crate::command::output_path(save_dir@, stamp),
    {
        let stamp = local_time("%Y-%m-%d_%H-%M-%S");
        let p = crate::command::build_output_path(save_dir, stamp.as_str());
        assert(p@ == crate::command::output_path(save_dir@, stamp@));
        p
    }

    /// Starts a session with `config`, at a moment marked `stamp`: see
    /// [`SessionView::start`].
    fn start_session_at(&mut self, config: SessionConfig, stamp: &str) -> (s: Step)
        requires
            old(self).wf(),
        ensures
            final(self).wf(),
            (Outcome { session: final(self)@, step: s@ }) == old(self)@.start(config@, stamp@),
    {
        proof {
            crate::session::lemma_consistency_kept(
                self@,
                config@,
                stamp@,
                crate::command::ReplyView::Done,
            );
        }
        match self.phase {
            Phase::Idle => {},
            _ => {
                return Step::Finished(Err(RecorderError::AlreadyRecording));
            },
        }
        if !config.is_valid() {
            return Step::Finished(Err(RecorderError::InvalidConfig));
        }
        let mixing = match config.audio_mode {
            AudioMode::Both => true,
            _ => false,
        };
        self.config = Some(config);
        self.segments.clear();
        assert(texts(self.segments@) =~= Seq::<Text>::empty());
        self.failure = None;
        self.name_next(stamp);
        if mixing {
            self.phase = Phase::LoadingSink;
            Step::Run(Command::LoadModule(build_sink_args()))
        } else {
            let step = self.capture_step();
            self.phase = Phase::Launching;
            step
        }
    }

    /// Starts a session, marked with the time of the call: see
    /// [`SessionView::start`]. `audio_mode` is read as
    /// [`AudioMode::named`] reads it.
    fn start_session(
        &mut self,
        final_path: &str,
        geometry: Option<&str>,
        audio_mode: &str,
        mic: Option<&str>,
        monitor: Option<&str>,
    ) -> (s: Step)
        requires
            old(self).wf(),
        ensures
            final(self).wf(),
            exists|stamp: Text|
                (Outcome { session: final(self)@, step: s@ }) == old(self)@.start(
                    ConfigView {
                        final_path: final_path@,
                        geometry: crate::config::opt_str(geometry),
                        audio_mode: AudioMode::named(audio_mode@),
                        mic_device: crate::config::opt_str(mic),
                        monitor_device: crate::config::opt_str(monitor),
                    },
                    stamp,
                ),
    {
        let config = SessionConfig::new(final_path, geometry, audio_mode, mic, monitor);
        let stamp = local_time("%H-%M-%S-%f");
        let ghost before = self@;
        let step = self.start_session_at(config, stamp.as_str());
        assert((Outcome { session: self@, step: step@ }) == before.start(config@, stamp@));
        step
    }

    /// Pauses the session: see [`SessionView::pause`].
    fn pause_session(&mut self) -> (s: Step)
        requires
            old(self).wf(),
        ensures
            final(self).wf(),
            (Outcome { session: final(self)@, step: s@ }) == old(self)@.pause(),
    {
        match self.phase {
            Phase::Recording => {
                self.phase = Phase::Pausing;
                Step::Run(Command::Interrupt)
            },
            Phase::Idle | Phase::Paused => Step::Finished(Ok(())),
            _ => Step::Finished(Err(RecorderError::OutOfTurn)),
        }
    }

    /// Resumes the session, at a moment marked `stamp`: see
    /// [`SessionView::resume`].
    fn resume_session_at(&mut self, stamp: &str) -> (s: Step)
        requires
            old(self).wf(),
        ensures
            final(self).wf(),
            (Outcome { session: final(self)@, step: s@ }) == old(self)@.resume(stamp@),
    {
        match self.phase {
            Phase::Paused => {
                self.name_next(stamp);
                self.phase = Phase::Resuming;
                self.capture_step()
            },
            Phase::Idle | Phase::Recording => Step::Finished(Ok(())),
            _ => Step::Finished(Err(RecorderError::OutOfTurn)),
        }
    }

    /// Resumes the session, marked with the time of the call: see
    /// [`SessionView::resume`].
    fn resume_session(&mut self) -> (s: Step)
        requires
            old(self).wf(),
        ensures
            final(self).wf(),
            exists|stamp: Text|
                (Outcome { session: final(self)@, step: s@ }) == old(self)@.resume(stamp),
    {
        let stamp = local_time("%H-%M-%S-%f");
        let ghost before = self@;
        let step = self.resume_session_at(stamp.as_str());
        assert((Outcome { session: self@, step: step@ }) == before.resume(stamp@));
        step
    }

    /// Finishes the session: see [`SessionView::finish`].
    fn finish_session(&mut self) -> (s: Step)
        requires
            old(self).wf(),
        ensures
            final(self).wf(),
            (Outcome { session: final(self)@, step: s@ }) == old(self)@.finish(),
    {
        proof {
            crate::session::lemma_consistency_kept(
                self@,
                arbitrary(),
                arbitrary(),
                crate::command::ReplyView::Done,
            );
        }
        match self.phase {
            Phase::Idle => Step::Finished(Err(RecorderError::NoRecording)),
            Phase::Recording => {
                self.phase = Phase::Stopping;
                Step::Run(Command::Interrupt)
            },
            Phase::Paused => self.unload(),
            _ => Step::Finished(Err(RecorderError::OutOfTurn)),
        }
    }

    /// Gives the session up: see [`SessionView::abandon`].
    fn abandon_session(&mut self) -> (s: Step)
        requires
            old(self).wf(),
        ensures
            final(self).wf(),
            (Outcome { session: final(self)@, step: s@ }) == old(self)@.abandon(),
    {
        proof {
            crate::session::lemma_consistency_kept(
                self@,
                arbitrary(),
                arbitrary(),
                crate::command::ReplyView::Done,
            );
        }
        match self.phase {
            Phase::Idle => Step::Finished(Ok(())),
            Phase::Recording => {
                self.phase = Phase::Halting;
                Step::Run(Command::Interrupt)
            },
            Phase::Paused => self.release(),
            _ => Step::Finished(Err(RecorderError::OutOfTurn)),
        }
    }

    /// Takes the host's answer to the command that is with it: see
    /// [`SessionView::reply`].
    fn advance(&mut self, reply: Reply) -> (s: Step)
        requires
            old(self).wf(),
        ensures
            final(self).wf(),
            (Outcome { session: final(self)@, step: s@ }) == old(self)@.reply(reply@),
    {
        proof {
            crate::session::lemma_consistency_kept(self@, arbitrary(), arbitrary(), reply@);
        }
        let ok = reply.is_ok();
        match self.phase {
            Phase::Idle | Phase::Recording | Phase::Paused => Step::Finished(
                Err(RecorderError::OutOfTurn),
            ),
            Phase::LoadingSink => match reply {
                Reply::Loaded(raw) => {
                    let source = match &self.config {
                        Some(c) => crate::config::copied(&c.mic_device),
                        None => None,
                    };
                    self.load_loopback(raw.as_str(), Phase::LoadingMicLoopback, &source)
                },
                _ => self.fail_start(RecorderError::RoutingFailed),
            },
            Phase::LoadingMicLoopback => match reply {
                Reply::Loaded(raw) => {
                    let source = match &self.config {
                        Some(c) => crate::config::copied(&c.monitor_device),
                        None => None,
                    };
                    self.load_loopback(raw.as_str(), Phase::LoadingMonitorLoopback, &source)
                },
                _ => self.fail_start(RecorderError::RoutingFailed),
            },
            Phase::LoadingMonitorLoopback => match reply {
                Reply::Loaded(raw) => {
                    let id = trim(raw.as_str());
                    proof {
                        lemma_texts_push(self.route@, id);
                    }
                    self.route.push(id);
                    self.phase = Phase::Launching;
                    self.capture_step()
                },
                _ => self.fail_start(RecorderError::RoutingFailed),
            },
            Phase::Launching => {
                if ok {
                    self.phase = Phase::Recording;
                    Step::Finished(Ok(()))
                } else {
                    self.fail_start(RecorderError::SpawnFailed)
                }
            },
            Phase::Pausing => {
                self.record_current();
                self.phase = Phase::Paused;
                if ok {
                    Step::Finished(Ok(()))
                } else {
                    Step::Finished(Err(RecorderError::WaitFailed))
                }
            },
            Phase::Resuming => {
                if ok {
                    self.phase = Phase::Recording;
                    Step::Finished(Ok(()))
                } else {
                    self.phase = Phase::Paused;
                    self.current = None;
                    Step::Finished(Err(RecorderError::SpawnFailed))
                }
            },
            Phase::Stopping => {
                self.record_current();
                self.failure = if ok {
                    None
                } else {
                    Some(RecorderError::WaitFailed)
                };
                self.unload()
            },
            Phase::Unloading => self.unload(),
            Phase::Renaming => match reply {
                Reply::CrossDevice => {
                    let target = match &self.config {
                        Some(c) => c.final_path.clone(),
                        None => String::new(),
                    };
                    self.phase = Phase::Copying;
                    Step::Run(Command::Copy { from: self.segments[0].clone(), to: target })
                },
                _ => {
                    if ok {
                        self.conclude(None)
                    } else {
                        self.conclude(Some(RecorderError::MoveFailed))
                    }
                },
            },
            Phase::Copying => {
                if ok {
                    self.phase = Phase::RemovingSource;
                    Step::Run(Command::Remove(self.segments[0].clone()))
                } else {
                    self.conclude(Some(RecorderError::MoveFailed))
                }
            },
            Phase::RemovingSource => {
                if ok {
                    self.conclude(None)
                } else {
                    self.conclude(Some(RecorderError::MoveFailed))
                }
            },
            Phase::WritingManifest => {
                if ok {
                    let target = match &self.config {
                        Some(c) => c.final_path.clone(),
                        None => String::new(),
                    };
                    let list = build_manifest_path(self.temp_dir.as_str());
                    self.phase = Phase::Merging;
                    Step::Run(Command::Merge(build_merge_args(list.as_str(), target.as_str())))
                } else {
                    self.conclude(Some(RecorderError::ManifestFailed))
                }
            },
            Phase::Merging => {
                if ok {
                    self.phase = Phase::RemovingManifest;
                    Step::Run(Command::Remove(build_manifest_path(self.temp_dir.as_str())))
                } else {
                    self.conclude(Some(RecorderError::ConcatFailed))
                }
            },
            Phase::RemovingManifest | Phase::RemovingSegments => self.sweep(),
            Phase::Halting => {
                self.record_current();
                self.release()
            },
            Phase::Releasing => self.release(),
        }
    }
}

/// The manager of the one recording session of a process.
///
/// Its content is a [`SessionView`] that is always
/// [`consistent`](crate::session::consistent).
pub struct Recorder {
    machine: Machine,
}

impl View for Recorder {
    type V = SessionView;

    closed spec fn view(&self) -> SessionView {
        self.machine@
    }
}

impl Recorder {
    #[verifier::type_invariant]
    closed spec fn sound(&self) -> bool {
        self.machine.wf()
    }

    /// A manager without a session, which keeps its segments in `temp_dir`.
    pub fn new(temp_dir: &str) -> (r: Recorder)
        ensures
            r@ == SessionView::fresh(temp_dir@),
            consistent(r@),
    {
        Recorder { machine: Machine::new(temp_dir) }
    }

    /// Where the session stands.
    pub fn phase(&self) -> (p: Phase)
        ensures
            p == self@.phase,
            consistent(self@),
    {
        proof {
            use_type_invariant(self);
        }
        self.machine.phase()
    }

    /// The state of the session.
    pub fn state(&self) -> (s: SessionState)
        ensures
            s == self@.phase.state(),
    {
        self.machine.state()
    }

    /// Whether the session is paused.
    pub fn is_paused(&self) -> (b: bool)
        ensures
            b == (self@.phase.state() == SessionState::Paused),
    {
        self.machine.is_paused()
    }

    /// The paths of the completed segments, in recording order.
    pub fn segments(&self) -> (s: Vec<String>)
        ensures
            texts(s@) == self@.segments,
    {
        self.machine.segments()
    }

    /// The identifiers of the audio modules that are loaded, oldest first.
    pub fn route(&self) -> (s: Vec<String>)
        ensures
            texts(s@) == self@.route,
    {
        self.machine.route()
    }

    /// The path of the segment that is being captured, or is about to be.
    pub fn current_segment(&self) -> (s: Option<String>)
        ensures
            crate::config::opt_text(s) == self@.current,
    {
        self.machine.current_segment()
    }

    /// The directory that the segments are kept in.
    pub fn temp_dir(&self) -> (s: String)
        ensures
            s@ == self@.temp_dir,
    {
        self.machine.temp_dir()
    }

    /// The path of a recording in `save_dir` that is named after the time of
    /// the call: see [`crate::command::output_path`].
    pub fn output_path_now(save_dir: &str) -> (p: String)
        ensures
            exists|stamp: Text| p@ == crate::command::output_path(save_dir@, stamp),
    {
        Machine::output_path_now(save_dir)
    }

    /// Starts a session with `config`, at a moment marked `stamp`: see
    /// [`SessionView::start`].
    pub fn start_session_at(&mut self, config: SessionConfig, stamp: &str) -> (s: Step)
        ensures
            consistent(final(self)@),
            (Outcome { session: final(self)@, step: s@ }) == old(self)@.start(config@, stamp@),
    {
        proof {
            use_type_invariant(&*self);
        }
        let mut machine = Machine::new("");
        core::mem::swap(&mut self.machine, &mut machine);
        let step = machine.start_session_at(config, stamp);
        self.machine = machine;
        step
    }

    /// Starts a session, marked with the time of the call: see
    /// [`SessionView::start`]. `audio_mode` is read as
    /// [`AudioMode::named`] reads it.
    pub fn start_session(
        &mut self,
        final_path: &str,
        geometry: Option<&str>,
        audio_mode: &str,
        mic: Option<&str>,
        monitor: Option<&str>,
    ) -> (s: Step)
        ensures
            consistent(final(self)@),
            exists|stamp: Text|
                (Outcome { session: final(self)@, step: s@ }) == old(self)@.start(
                    ConfigView {
                        final_path: final_path@,
                        geometry: crate::config::opt_str(geometry),
                        audio_mode: AudioMode::named(audio_mode@),
                        mic_device: crate::config::opt_str(mic),
                        monitor_device: crate::config::opt_str(monitor),
                    },
                    stamp,
                ),
    {
        proof {
            use_type_invariant(&*self);
        }
        let mut machine = Machine::new("");
        core::mem::swap(&mut self.machine, &mut machine);
        let ghost before = machine@;
        let step = machine.start_session(final_path, geometry, audio_mode, mic, monitor);
        proof {
            let config = ConfigView {
                final_path: final_path@,
                geometry: crate::config::opt_str(geometry),
                audio_mode: AudioMode::named(audio_mode@),
                mic_device: crate::config::opt_str(mic),
                monitor_device: crate::config::opt_str(monitor),
            };
            let stamp = choose|stamp: Text|
                (Outcome { session: machine@, step: step@ }) == before.start(config, stamp);
            assert((Outcome { session: machine@, step: step@ }) == old(self)@.start(config, stamp));
        }
        self.machine = machine;
        step
    }

    /// Pauses the session: see [`SessionView::pause`].
    pub fn pause_session(&mut self) -> (s: Step)
        ensures
            consistent(final(self)@),
            (Outcome { session: final(self)@, step: s@ }) == old(self)@.pause(),
    {
        proof {
            use_type_invariant(&*self);
        }
        let mut machine = Machine::new("");
        core::mem::swap(&mut self.machine, &mut machine);
        let step = machine.pause_session();
        self.machine = machine;
        step
    }

    /// Resumes the session, at a moment marked `stamp`: see
    /// [`SessionView::resume`].
    pub fn resume_session_at(&mut self, stamp: &str) -> (s: Step)
        ensures
            consistent(final(self)@),
            (Outcome { session: final(self)@, step: s@ }) == old(self)@.resume(stamp@),
    {
        proof {
            use_type_invariant(&*self);
        }
        let mut machine = Machine::new("");
        core::mem::swap(&mut self.machine, &mut machine);
        let step = machine.resume_session_at(stamp);
        self.machine = machine;
        step
    }

    /// Resumes the session, marked with the time of the call: see
    /// [`SessionView::resume`].
    pub fn resume_session(&mut self) -> (s: Step)
        ensures
            consistent(final(self)@),
            exists|stamp: Text|
                (Outcome { session: final(self)@, step: s@ }) == old(self)@.resume(stamp),
    {
        proof {
            use_type_invariant(&*self);
        }
        let mut machine = Machine::new("");
        core::mem::swap(&mut self.machine, &mut machine);
        let ghost before = machine@;
        let step = machine.resume_session();
        proof {
            let stamp = choose|stamp: Text|
                (Outcome { session: machine@, step: step@ }) == before.resume(stamp);
            assert((Outcome { session: machine@, step: step@ }) == old(self)@.resume(stamp));
        }
        self.machine = machine;
        step
    }

    /// Finishes the session: see [`SessionView::finish`].
    pub fn finish_session(&mut self) -> (s: Step)
        ensures
            consistent(final(self)@),
            (Outcome { session: final(self)@, step: s@ }) == old(self)@.finish(),
    {
        proof {
            use_type_invariant(&*self);
        }
        let mut machine = Machine::new("");
        core::mem::swap(&mut self.machine, &mut machine);
        let step = machine.finish_session();
        self.machine = machine;
        step
    }

    /// Gives the session up: see [`SessionView::abandon`].
    pub fn abandon_session(&mut self) -> (s: Step)
        ensures
            consistent(final(self)@),
            (Outcome { session: final(self)@, step: s@ }) == old(self)@.abandon(),
    {
        proof {
            use_type_invariant(&*self);
        }
        let mut machine = Machine::new("");
        core::mem::swap(&mut self.machine, &mut machine);
        let step = machine.abandon_session();
        self.machine = machine;
        step
    }

    /// Takes the host's answer to the command that is with it: see
    /// [`SessionView::reply`].
    pub fn advance(&mut self, reply: Reply) -> (s: Step)
        ensures
            consistent(final(self)@),
            (Outcome { session: final(self)@, step: s@ }) == old(self)@.reply(reply@),
    {
        proof {
            use_type_invariant(&*self);
        }
        let mut machine = Machine::new("");
        core::mem::swap(&mut self.machine, &mut machine);
        let step = machine.advance(reply);
        self.machine = machine;
        step
    }
}

} // verus!
