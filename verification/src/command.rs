//! The work that the host does for a session, as typed commands with their
//! arguments, and the host's answers.

use crate::config::{AudioMode, ConfigView, SessionConfig};
use crate::text::{
    decimal, is_digit, join_path, joined, lemma_decimal_digits, lemma_decimal_injective,
    push_decimal, texts, Text,
};
use vstd::prelude::*;
use vstd::string::StringExecFns;

verus! {

/// One piece of work for the host.
#[derive(Clone, Debug, PartialEq, Eq)]
pub enum Command {
    /// Load a module into the audio server, with these arguments.
    LoadModule(Vec<String>),
    /// Unload the module with this identifier from the audio server.
    UnloadModule(String),
    /// Launch the capture tool with these arguments.
    Capture(Vec<String>),
    /// Ask the running capture tool to finish its file, and wait until it has
    /// exited.
    Interrupt,
    /// Move a file.
    Rename { from: String, to: String },
    /// Copy a file.
    Copy { from: String, to: String },
    /// Delete a file.
    Remove(String),
    /// Write a text file.
    WriteText { path: String, text: String },
    /// Run the merge tool with these arguments.
    Merge(Vec<String>),
}

/// The content of a [`Command`].
pub enum CommandView {
    LoadModule(Seq<Text>),
    UnloadModule(Text),
    Capture(Seq<Text>),
    Interrupt,
    Rename { from: Text, to: Text },
    Copy { from: Text, to: Text },
    Remove(Text),
    WriteText { path: Text, text: Text },
    Merge(Seq<Text>),
}

impl View for Command {
    type V = CommandView;

    open spec fn view(&self) -> CommandView {
        match self {
            Command::LoadModule(a) => CommandView::LoadModule(texts(a@)),
            Command::UnloadModule(id) => CommandView::UnloadModule(id@),
            Command::Capture(a) => CommandView::Capture(texts(a@)),
            Command::Interrupt => CommandView::Interrupt,
            Command::Rename { from, to } => CommandView::Rename { from: from@, to: to@ },
            Command::Copy { from, to } => CommandView::Copy { from: from@, to: to@ },
            Command::Remove(p) => CommandView::Remove(p@),
            Command::WriteText { path, text } => CommandView::WriteText { path: path@, text: text@ },
            Command::Merge(a) => CommandView::Merge(texts(a@)),
        }
    }
}

/// The host's answer to a command.
#[derive(Clone, Debug, PartialEq, Eq)]
pub enum Reply {
    /// The command was carried out.
    Done,
    /// The module was loaded; this is what the audio server printed.
    Loaded(String),
    /// The file could not be moved because the two paths lie on different
    /// volumes.
    CrossDevice,
    /// The command failed.
    Failed,
}

/// The content of a [`Reply`].
pub enum ReplyView {
    Done,
    Loaded(Text),
    CrossDevice,
    Failed,
}

impl View for Reply {
    type V = ReplyView;

    open spec fn view(&self) -> ReplyView {
        match self {
            Reply::Done => ReplyView::Done,
            Reply::Loaded(t) => ReplyView::Loaded(t@),
            Reply::CrossDevice => ReplyView::CrossDevice,
            Reply::Failed => ReplyView::Failed,
        }
    }
}

impl ReplyView {
    /// Whether the answer reports success.
    pub open spec fn ok(self) -> bool {
        self is Done || self is Loaded
    }
}

impl Reply {
    /// Decides [`ReplyView::ok`].
    pub fn is_ok(&self) -> (r: bool)
        ensures
            r == self@.ok(),
    {
        match self {
            Reply::Done => true,
            Reply::Loaded(_) => true,
            _ => false,
        }
    }
}

/// The name of the sink that the two sources are mixed in.
pub open spec fn mixer() -> Text {
    "RotonMixer"@
}

/// The source that yields what the mixing sink receives.
pub open spec fn mixer_monitor() -> Text {
    "RotonMixer.monitor"@
}

/// The arguments that create the mixing sink.
pub open spec fn sink_args() -> Seq<Text> {
    seq![
        "module-null-sink"@,
        "sink_name=RotonMixer"@,
        "sink_properties=device.description=RotonMixer"@,
    ]
}

/// The arguments that route `source` into the mixing sink.
pub open spec fn loopback_args(source: Text) -> Seq<Text> {
    seq!["module-loopback"@, "sink=RotonMixer"@, "source="@ + source, "latency_msec=1"@]
}

/// The capture tool's arguments that select the region.
pub open spec fn geometry_args(geometry: Option<Text>) -> Seq<Text> {
    match geometry {
        Some(g) => seq!["-g"@, g],
        None => seq![],
    }
}

/// The capture tool's arguments that record audio from one source, or from
/// the default source where none is named.
pub open spec fn source_args(device: Option<Text>) -> Seq<Text> {
    match device {
        Some(d) => seq!["--audio"@, "--audio-device"@, d],
        None => seq!["--audio"@],
    }
}

/// The capture tool's arguments that select the audio: none when muted, the
/// one source of the mode when there is one, the mixing sink's monitor when
/// both are recorded.
pub open spec fn audio_args(c: ConfigView) -> Seq<Text> {
    match c.audio_mode {
        AudioMode::Mute => seq![],
        AudioMode::Screen => source_args(c.monitor_device),
        AudioMode::Mic => source_args(c.mic_device),
        AudioMode::Both => source_args(Some(mixer_monitor())),
    }
}

/// The capture tool's arguments for one segment written to `path`.
pub open spec fn capture_args(path: Text, c: ConfigView) -> Seq<Text> {
    seq!["-f"@, path] + geometry_args(c.geometry) + audio_args(c)
}

/// The merge tool's arguments: copy the streams of the files that `list`
/// names, in its order, into `target`, replacing it.
pub open spec fn merge_args(list: Text, target: Text) -> Seq<Text> {
    seq!["-f"@, "concat"@, "-safe"@, "0"@, "-i"@, list, "-c"@, "copy"@, "-y"@, target]
}

/// The line of the list that names one segment.
pub open spec fn manifest_line(path: Text) -> Text {
    "file '"@ + path + "'\n"@
}

/// The list of segments that the merge tool reads: one line for each, in order.
pub open spec fn manifest(paths: Seq<Text>) -> Text
    decreases paths.len(),
{
    if paths.len() == 0 {
        Seq::<char>::empty()
    } else {
        manifest(paths.drop_last()) + manifest_line(paths.last())
    }
}

/// The file name of the segment with mark `stamp` and number `n`.
pub open spec fn segment_name(stamp: Text, n: nat) -> Text {
    "roton_seg_"@ + stamp + "_"@ + decimal(n) + ".mp4"@
}

/// The path of the segment with mark `stamp` and number `n` in `dir`.
pub open spec fn segment_path(dir: Text, stamp: Text, n: nat) -> Text {
    joined(dir, segment_name(stamp, n))
}

/// The path of the segment list in `dir`.
pub open spec fn manifest_path(dir: Text) -> Text {
    joined(dir, "roton_concat_list.txt"@)
}

/// The path of a recording begun at a moment marked `stamp`, in `dir`.
pub open spec fn output_path(dir: Text, stamp: Text) -> Text {
    joined(dir, "recording_"@ + stamp + ".mp4"@)
}

/// Builds [`output_path`].
pub fn build_output_path(dir: &str, stamp: &str) -> (p: String)
    ensures
        p@ == output_path(dir@, stamp@),
{
    let mut name = "recording_".to_owned();
    name.append(stamp);
    name.append(".mp4");
    join_path(dir, name.as_str())
}

/// The program that carries out a command, where it is one.
pub open spec fn program_of(c: CommandView) -> Option<Text> {
    match c {
        CommandView::LoadModule(_) | CommandView::UnloadModule(_) => Some("pactl"@),
        CommandView::Capture(_) => Some("wl-screenrec"@),
        CommandView::Merge(_) => Some("ffmpeg"@),
        _ => None,
    }
}

impl Command {
    /// Computes [`program_of`].
    pub fn program(&self) -> (p: Option<String>)
        ensures
            crate::config::opt_text(p) == program_of(self@),
    {
        match self {
            Command::LoadModule(_) | Command::UnloadModule(_) => Some("pactl".to_owned()),
            Command::Capture(_) => Some("wl-screenrec".to_owned()),
            Command::Merge(_) => Some("ffmpeg".to_owned()),
            _ => None,
        }
    }
}

/// Builds [`sink_args`].
pub fn build_sink_args() -> (a: Vec<String>)
    ensures
        texts(a@) == sink_args(),
{
    let mut a: Vec<String> = Vec::new();
    a.push("module-null-sink".to_owned());
    a.push("sink_name=RotonMixer".to_owned());
    a.push("sink_properties=device.description=RotonMixer".to_owned());
    assert(texts(a@) =~= sink_args());
    a
}

/// Builds [`loopback_args`].
pub fn build_loopback_args(source: &str) -> (a: Vec<String>)
    ensures
        texts(a@) == loopback_args(source@),
{
    let mut a: Vec<String> = Vec::new();
    a.push("module-loopback".to_owned());
    a.push("sink=RotonMixer".to_owned());
    let mut s = "source=".to_owned();
    s.append(source);
    a.push(s);
    a.push("latency_msec=1".to_owned());
    assert(texts(a@) =~= loopback_args(source@));
    a
}

/// Appends [`source_args`] to `a`.
fn push_source_args(a: &mut Vec<String>, device: &Option<String>)
    ensures
        texts(final(a)@) == texts(old(a)@) + source_args(crate::config::opt_text(*device)),
{
    a.push("--audio".to_owned());
    match device {
        Some(d) => {
            a.push("--audio-device".to_owned());
            a.push(d.clone());
        },
        None => {},
    }
    assert(texts(final(a)@) =~= texts(old(a)@) + source_args(crate::config::opt_text(*device)));
}

/// Builds [`capture_args`].
pub fn build_capture_args(path: &str, config: &SessionConfig) -> (a: Vec<String>)
    ensures
        texts(a@) == capture_args(path@, config@),
{
    let mut a: Vec<String> = Vec::new();
    a.push("-f".to_owned());
    a.push(path.to_owned());
    match &config.geometry {
        Some(g) => {
            a.push("-g".to_owned());
            a.push(g.clone());
        },
        None => {},
    }
    assert(texts(a@) =~= seq!["-f"@, path@] + geometry_args(config@.geometry));
    match config.audio_mode {
        AudioMode::Mute => {},
        AudioMode::Screen => {
            push_source_args(&mut a, &config.monitor_device);
        },
        AudioMode::Mic => {
            push_source_args(&mut a, &config.mic_device);
        },
        AudioMode::Both => {
            let m: Option<String> = Some("RotonMixer.monitor".to_owned());
            push_source_args(&mut a, &m);
        },
    }
    assert(texts(a@) =~= capture_args(path@, config@));
    a
}

/// Builds [`merge_args`].
pub fn build_merge_args(list: &str, target: &str) -> (a: Vec<String>)
    ensures
        texts(a@) == merge_args(list@, target@),
{
    let mut a: Vec<String> = Vec::new();
    a.push("-f".to_owned());
    a.push("concat".to_owned());
    a.push("-safe".to_owned());
    a.push("0".to_owned());
    a.push("-i".to_owned());
    a.push(list.to_owned());
    a.push("-c".to_owned());
    a.push("copy".to_owned());
    a.push("-y".to_owned());
    a.push(target.to_owned());
    assert(texts(a@) =~= merge_args(list@, target@));
    a
}

/// Builds [`manifest`].
pub fn build_manifest(paths: &Vec<String>) -> (m: String)
    ensures
        m@ == manifest(texts(paths@)),
{
    let mut out = String::new();
    let mut i: usize = 0;
    assert(texts(paths@).take(0) =~= Seq::<Text>::empty());
    while i < paths.len()
        invariant
            i <= paths.len(),
            out@ == manifest(texts(paths@).take(i as int)),
        decreases paths.len() - i,
    {
        let ghost before = out@;
        out.append("file '");
        out.append(paths[i].as_str());
        out.append("'\n");
        proof {
            let next = texts(paths@).take(i as int + 1);
            assert(next.drop_last() =~= texts(paths@).take(i as int));
            assert(next.last() == paths@[i as int]@);
            assert(out@ =~= before + manifest_line(paths@[i as int]@));
        }
        i += 1;
    }
    assert(texts(paths@).take(i as int) =~= texts(paths@));
    out
}

/// Builds [`segment_path`].
pub fn build_segment_path(dir: &str, stamp: &str, n: u64) -> (p: String)
    ensures
        p@ == segment_path(dir@, stamp@, n as nat),
{
    let mut name = "roton_seg_".to_owned();
    name.append(stamp);
    name.append("_");
    push_decimal(&mut name, n);
    name.append(".mp4");
    join_path(dir, name.as_str())
}

/// Builds [`manifest_path`].
pub fn build_manifest_path(dir: &str) -> (p: String)
    ensures
        p@ == manifest_path(dir@),
{
    join_path(dir, "roton_concat_list.txt")
}

/// Two texts that end with an underscore and a numeral, and are equal, end
/// with the numeral of the same number.
proof fn lemma_numbered_suffix(x1: Text, n1: nat, x2: Text, n2: nat)
    requires
        x1.push('_') + decimal(n1) == x2.push('_') + decimal(n2),
    ensures
        n1 == n2,
{
    let d1 = decimal(n1);
    let d2 = decimal(n2);
    let a = x1.push('_') + d1;
    let b = x2.push('_') + d2;
    lemma_decimal_digits(n1);
    lemma_decimal_digits(n2);
    assert(a.len() == x1.len() + 1 + d1.len());
    assert(b.len() == x2.len() + 1 + d2.len());
    if d1.len() == d2.len() {
        assert(a.subrange(a.len() - d1.len(), a.len() as int) =~= d1);
        assert(b.subrange(b.len() - d2.len(), b.len() as int) =~= d2);
        lemma_decimal_injective(n1, n2);
    } else if d1.len() < d2.len() {
        let k = a.len() - d1.len() - 1;
        assert(a[k] == '_');
        assert(b[k] == d2[k - (x2.len() + 1)]);
        assert(is_digit(d2[k - (x2.len() + 1)]));
    } else {
        let k = b.len() - d2.len() - 1;
        assert(b[k] == '_');
        assert(a[k] == d1[k - (x1.len() + 1)]);
        assert(is_digit(d1[k - (x1.len() + 1)]));
    }
}

/// Segments with different numbers have different paths, whatever their
/// marks: no two segments that one manager names within 2^64 segments of each
/// other share a file.
pub proof fn lemma_segment_paths_differ(dir: Text, s1: Text, n1: nat, s2: Text, n2: nat)
    requires
        n1 != n2,
    ensures
        segment_path(dir, s1, n1) != segment_path(dir, s2, n2),
{
    if segment_path(dir, s1, n1) == segment_path(dir, s2, n2) {
        let name1 = segment_name(s1, n1);
        let name2 = segment_name(s2, n2);
        let prefix = if dir.len() == 0 || dir.last() == '/' {
            dir
        } else {
            dir.push('/')
        };
        let p1 = prefix + name1;
        let p2 = prefix + name2;
        assert(p1 == p2);
        assert(p1.subrange(prefix.len() as int, p1.len() as int) =~= name1);
        assert(p2.subrange(prefix.len() as int, p2.len() as int) =~= name2);
        reveal_strlit("_");
        let x1 = "roton_seg_"@ + s1;
        let x2 = "roton_seg_"@ + s2;
        let a1 = x1.push('_') + decimal(n1);
        let a2 = x2.push('_') + decimal(n2);
        assert(x1 + "_"@ =~= x1.push('_'));
        assert(x2 + "_"@ =~= x2.push('_'));
        assert(name1 =~= a1 + ".mp4"@);
        assert(name2 =~= a2 + ".mp4"@);
        assert(a1.len() == a2.len());
        assert(name1.subrange(0, a1.len() as int) =~= a1);
        assert(name2.subrange(0, a2.len() as int) =~= a2);
        lemma_numbered_suffix(x1, n1, x2, n2);
    }
}

} // verus!
