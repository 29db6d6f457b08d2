//! What a recording session is asked to do: where the result goes, what part of
//! the screen is captured, and which audio is recorded with it.

use crate::text::{same_text, Text};
use vstd::prelude::*;

verus! {

/// Which audio accompanies the picture.
#[derive(Clone, Copy, Debug, PartialEq, Eq, Structural)]
pub enum AudioMode {
    /// No audio.
    Mute,
    /// What the machine plays.
    Screen,
    /// The microphone.
    Mic,
    /// Both, mixed.
    Both,
}

impl AudioMode {
    /// The mode that `name` stands for; a name that is none of the four stands
    /// for `Mute`.
    pub open spec fn named(name: Text) -> AudioMode {
        if name == "Screen"@ {
            AudioMode::Screen
        } else if name == "Mic"@ {
            AudioMode::Mic
        } else if name == "Both"@ {
            AudioMode::Both
        } else {
            AudioMode::Mute
        }
    }

    /// Whether `name` is the name of a mode.
    pub open spec fn is_name(name: Text) -> bool {
        name == "Mute"@ || name == "Screen"@ || name == "Mic"@ || name == "Both"@
    }

    /// The name of the mode.
    pub open spec fn label(self) -> Text {
        match self {
            AudioMode::Mute => "Mute"@,
            AudioMode::Screen => "Screen"@,
            AudioMode::Mic => "Mic"@,
            AudioMode::Both => "Both"@,
        }
    }

    /// Decides [`AudioMode::is_name`].
    pub fn knows(name: &str) -> (r: bool)
        ensures
            r == Self::is_name(name@),
    {
        same_text(name, "Mute") || same_text(name, "Screen") || same_text(name, "Mic")
            || same_text(name, "Both")
    }

    /// Computes [`AudioMode::named`].
    pub fn from_name(name: &str) -> (m: AudioMode)
        ensures
            m == Self::named(name@),
    {
        if same_text(name, "Screen") {
            AudioMode::Screen
        } else if same_text(name, "Mic") {
            AudioMode::Mic
        } else if same_text(name, "Both") {
            AudioMode::Both
        } else {
            AudioMode::Mute
        }
    }

    /// Computes [`AudioMode::label`].
    pub fn name(self) -> (s: String)
        ensures
            s@ == self.label(),
    {
        match self {
            AudioMode::Mute => "Mute".to_owned(),
            AudioMode::Screen => "Screen".to_owned(),
            AudioMode::Mic => "Mic".to_owned(),
            AudioMode::Both => "Both".to_owned(),
        }
    }
}

/// A name and the mode it stands for agree: naming a mode and reading the name
/// back gives the mode.
pub proof fn lemma_mode_name_round_trip(m: AudioMode)
    ensures
        AudioMode::is_name(m.label()),
        AudioMode::named(m.label()) == m,
{
    reveal_strlit("Mute");
    reveal_strlit("Screen");
    reveal_strlit("Mic");
    reveal_strlit("Both");
    assert("Mute"@.len() == 4 && "Screen"@.len() == 6 && "Mic"@.len() == 3);
    assert("Mute"@[0] == 'M' && "Both"@[0] == 'B');
}

/// The configuration of one session. It does not change while the session lasts.
#[derive(Clone, Debug, PartialEq, Eq)]
pub struct SessionConfig {
    /// Where the finished recording goes.
    pub final_path: String,
    /// The screen region to capture; the whole screen where there is none.
    pub geometry: Option<String>,
    /// Which audio is recorded.
    pub audio_mode: AudioMode,
    /// The microphone source.
    pub mic_device: Option<String>,
    /// The source that carries what the machine plays.
    pub monitor_device: Option<String>,
}

/// The content of a [`SessionConfig`].
pub struct ConfigView {
    pub final_path: Text,
    pub geometry: Option<Text>,
    pub audio_mode: AudioMode,
    pub mic_device: Option<Text>,
    pub monitor_device: Option<Text>,
}

/// The content of an optional string.
pub open spec fn opt_text(s: Option<String>) -> Option<Text> {
    match s {
        Some(t) => Some(t@),
        None => None,
    }
}

/// The content of an optional string slice.
pub open spec fn opt_str(s: Option<&str>) -> Option<Text> {
    match s {
        Some(t) => Some(t@),
        None => None,
    }
}

/// A configuration may start a session unless it asks to mix both sources and
/// lacks one of them.
pub open spec fn valid(c: ConfigView) -> bool {
    c.audio_mode == AudioMode::Both ==> c.mic_device is Some && c.monitor_device is Some
}

impl View for SessionConfig {
    type V = ConfigView;

    open spec fn view(&self) -> ConfigView {
        ConfigView {
            final_path: self.final_path@,
            geometry: opt_text(self.geometry),
            audio_mode: self.audio_mode,
            mic_device: opt_text(self.mic_device),
            monitor_device: opt_text(self.monitor_device),
        }
    }
}

/// An owned copy of an optional string slice.
pub fn owned(s: Option<&str>) -> (r: Option<String>)
    ensures
        opt_text(r) == opt_str(s),
{
    match s {
        Some(t) => Some(t.to_owned()),
        None => None,
    }
}

/// A copy of an optional string.
pub fn copied(s: &Option<String>) -> (r: Option<String>)
    ensures
        opt_text(r) == opt_text(*s),
{
    match s {
        Some(t) => Some(t.clone()),
        None => None,
    }
}

impl SessionConfig {
    /// The configuration with these parts; `audio_mode` is read as
    /// [`AudioMode::named`] reads it.
    pub fn new(
        final_path: &str,
        geometry: Option<&str>,
        audio_mode: &str,
        mic: Option<&str>,
        monitor: Option<&str>,
    ) -> (c: SessionConfig)
        ensures
            c@ == (ConfigView {
                final_path: final_path@,
                geometry: opt_str(geometry),
                audio_mode: AudioMode::named(audio_mode@),
                mic_device: opt_str(mic),
                monitor_device: opt_str(monitor),
            }),
    {
        SessionConfig {
            final_path: final_path.to_owned(),
            geometry: owned(geometry),
            audio_mode: AudioMode::from_name(audio_mode),
            mic_device: owned(mic),
            monitor_device: owned(monitor),
        }
    }

    /// Decides [`valid`].
    pub fn is_valid(&self) -> (r: bool)
        ensures
            r == valid(self@),
    {
        match self.audio_mode {
            AudioMode::Both => self.mic_device.is_some() && self.monitor_device.is_some(),
            _ => true,
        }
    }

    /// A copy with the same content.
    pub fn duplicate(&self) -> (c: SessionConfig)
        ensures
            c@ == self@,
    {
        SessionConfig {
            final_path: self.final_path.clone(),
            geometry: copied(&self.geometry),
            audio_mode: self.audio_mode,
            mic_device: copied(&self.mic_device),
            monitor_device: copied(&self.monitor_device),
        }
    }
}

/// What is kept between runs of the program.
#[derive(Clone, Debug)]
pub struct Settings {
    /// The directory that recordings are saved to.
    pub save_path: String,
    /// The name of the audio mode last chosen.
    pub audio_mode: String,
}

impl Settings {
    /// The settings of a first run: recordings go to the user's video directory,
    /// to the home directory where there is none, and nowhere yet where not even
    /// that is known; no audio is recorded.
    pub open spec fn initial(video_dir: Option<Text>, home_dir: Option<Text>) -> (Text, Text) {
        (
            match (home_dir, video_dir) {
                (Some(_), Some(v)) => v,
                (Some(h), None) => h,
                (None, _) => Seq::<char>::empty(),
            },
            "Mute"@,
        )
    }

    /// Computes [`Settings::initial`].
    pub fn first_run(video_dir: Option<&str>, home_dir: Option<&str>) -> (s: Settings)
        ensures
            (s.save_path@, s.audio_mode@) == Self::initial(opt_str(video_dir), opt_str(home_dir)),
    {
        let save_path = match (home_dir, video_dir) {
            (Some(_), Some(v)) => v.to_owned(),
            (Some(h), None) => h.to_owned(),
            (None, _) => String::new(),
        };
        Settings { save_path, audio_mode: "Mute".to_owned() }
    }

    /// Settings read from storage are used as they are, except that a mode name
    /// which names no mode is replaced by `Mute`.
    pub fn checked(self) -> (s: Settings)
        ensures
            s.save_path@ == self.save_path@,
            s.audio_mode@ == (if AudioMode::is_name(self.audio_mode@) {
                self.audio_mode@
            } else {
                "Mute"@
            }),
    {
        if AudioMode::knows(self.audio_mode.as_str()) {
            self
        } else {
            Settings { save_path: self.save_path, audio_mode: "Mute".to_owned() }
        }
    }

    /// The settings to run with: what storage held, checked, or else those of a
    /// first run.
    pub fn load(stored: Option<Settings>, video_dir: Option<&str>, home_dir: Option<&str>) -> (s:
        Settings)
        ensures
            match stored {
                Some(t) => {
                    &&& s.save_path@ == t.save_path@
                    &&& s.audio_mode@ == (if AudioMode::is_name(t.audio_mode@) {
                        t.audio_mode@
                    } else {
                        "Mute"@
                    })
                },
                None => (s.save_path@, s.audio_mode@) == Self::initial(
                    opt_str(video_dir),
                    opt_str(home_dir),
                ),
            },
    {
        match stored {
            Some(t) => t.checked(),
            None => Self::first_run(video_dir, home_dir),
        }
    }
}

} // verus!
