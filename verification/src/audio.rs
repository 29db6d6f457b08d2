//! The audio sources of the machine, as the audio server lists them.

use crate::text::{
    after_repeated_prefix, begins_with, from_chars, has_prefix, part, same_text, to_chars,
    trim_bounds, trimmed, without_repeated_prefix, Text,
};
use vstd::prelude::*;

verus! {

/// One audio source.
#[derive(Debug, Clone)]
pub struct AudioDevice {
    /// The name by which the audio server knows the source.
    pub name: String,
    /// The name that is shown to the user.
    pub description: String,
    /// Whether the source yields what a sink receives.
    pub is_monitor: bool,
}

/// The content of an [`AudioDevice`].
pub struct DeviceView {
    pub name: Text,
    pub description: Text,
    pub is_monitor: bool,
}

impl View for AudioDevice {
    type V = DeviceView;

    open spec fn view(&self) -> DeviceView {
        DeviceView {
            name: self.name@,
            description: self.description@,
            is_monitor: self.is_monitor,
        }
    }
}

/// The contents of a list of devices, in order.
pub open spec fn device_views(v: Seq<AudioDevice>) -> Seq<DeviceView> {
    Seq::new(v.len(), |i: int| v[i]@)
}

/// The place of the first device that is shown as `description`, or the
/// length of the list where there is none.
pub open spec fn first_shown_as(devices: Seq<DeviceView>, description: Text) -> int
    decreases devices.len(),
{
    if devices.len() == 0 {
        0
    } else if devices[0].description == description {
        0
    } else {
        1 + first_shown_as(devices.drop_first(), description)
    }
}

/// The place that [`first_shown_as`] gives is that of the first such device.
pub proof fn lemma_first_shown_as(devices: Seq<DeviceView>, description: Text)
    ensures
        0 <= first_shown_as(devices, description) <= devices.len(),
        first_shown_as(devices, description) < devices.len() ==> devices[first_shown_as(
            devices,
            description,
        )].description == description,
        forall|j: int|
            0 <= j < first_shown_as(devices, description) ==> (#[trigger] devices[j]).description
                != description,
    decreases devices.len(),
{
    if devices.len() > 0 && devices[0].description != description {
        let rest = devices.drop_first();
        lemma_first_shown_as(rest, description);
        assert forall|j: int| 0 <= j < first_shown_as(devices, description) implies (
        #[trigger] devices[j]).description != description by {
            if j > 0 {
                assert(devices[j] == rest[j - 1]);
            }
        }
    }
}

/// The audio server's name of the first device that is shown as
/// `description`, if there is one.
pub open spec fn resolved(devices: Seq<DeviceView>, description: Text) -> Option<Text> {
    let i = first_shown_as(devices, description);
    if i < devices.len() {
        Some(devices[i].name)
    } else {
        None
    }
}

/// The descriptions of the devices that are monitors, or of those that are
/// not, in the order of the list.
pub open spec fn shown(devices: Seq<DeviceView>, monitors: bool) -> Seq<Text>
    decreases devices.len(),
{
    if devices.len() == 0 {
        Seq::empty()
    } else if devices.last().is_monitor == monitors {
        shown(devices.drop_last(), monitors).push(devices.last().description)
    } else {
        shown(devices.drop_last(), monitors)
    }
}

/// Computes [`resolved`].
pub fn resolve(devices: &Vec<AudioDevice>, description: &str) -> (name: Option<String>)
    ensures
        crate::config::opt_text(name) == resolved(device_views(devices@), description@),
{
    let ghost all = device_views(devices@);
    let mut i: usize = 0;
    assert(all.skip(0) =~= all);
    while i < devices.len()
        invariant
            i <= devices.len(),
            all == device_views(devices@),
            first_shown_as(all, description@) == i + first_shown_as(
                all.skip(i as int),
                description@,
            ),
        decreases devices.len() - i,
    {
        assert(all.skip(i as int).drop_first() =~= all.skip(i as int + 1));
        assert(all.skip(i as int)[0] == devices@[i as int]@);
        if same_text(devices[i].description.as_str(), description) {
            return Some(devices[i].name.clone());
        }
        i += 1;
    }
    None
}

/// Computes [`shown`].
pub fn descriptions(devices: &Vec<AudioDevice>, monitors: bool) -> (list: Vec<String>)
    ensures
        crate::text::texts(list@) == shown(device_views(devices@), monitors),
{
    let ghost all = device_views(devices@);
    let mut out: Vec<String> = Vec::new();
    let mut i: usize = 0;
    assert(crate::text::texts(out@) =~= shown(all.take(0), monitors));
    while i < devices.len()
        invariant
            i <= devices.len(),
            all == device_views(devices@),
            crate::text::texts(out@) == shown(all.take(i as int), monitors),
        decreases devices.len() - i,
    {
        assert(all.take(i as int + 1).drop_last() =~= all.take(i as int));
        assert(all.take(i as int + 1).last() == devices@[i as int]@);
        if devices[i].is_monitor == monitors {
            let d = devices[i].description.clone();
            proof {
                crate::text::lemma_texts_push(out@, d);
            }
            out.push(d);
        }
        i += 1;
    }
    assert(all.take(i as int) =~= all);
    out
}

/// The length of the first line of `s`: the place of its first line feed, or
/// its length where it has none.
pub open spec fn line_end(s: Text) -> int
    decreases s.len(),
{
    if s.len() == 0 || s[0] == '\n' {
        0
    } else {
        1 + line_end(s.drop_first())
    }
}

/// The first line ends within the text, and holds no line feed.
pub proof fn lemma_line_end(s: Text)
    ensures
        0 <= line_end(s) <= s.len(),
        line_end(s) < s.len() ==> s[line_end(s)] == '\n',
        forall|i: int| 0 <= i < line_end(s) ==> s[i] != '\n',
    decreases s.len(),
{
    if s.len() > 0 && s[0] != '\n' {
        let rest = s.drop_first();
        lemma_line_end(rest);
        assert forall|i: int| 0 <= i < line_end(s) implies s[i] != '\n' by {
            if i > 0 {
                assert(s[i] == rest[i - 1]);
            }
        }
    }
}

/// A text without a line feed in its first `n` places has a first line of `n`
/// places at least.
proof fn lemma_line_end_from(s: Text, n: int)
    requires
        0 <= n <= s.len(),
        forall|i: int| 0 <= i < n ==> s[i] != '\n',
    ensures
        line_end(s) == n + line_end(s.skip(n)),
    decreases n,
{
    if n == 0 {
        assert(s.skip(0) =~= s);
    } else {
        let rest = s.drop_first();
        assert forall|i: int| 0 <= i < n - 1 implies rest[i] != '\n' by {
            assert(rest[i] == s[i + 1]);
        }
        lemma_line_end_from(rest, n - 1);
        assert(rest.skip(n - 1) =~= s.skip(n));
    }
}

/// The lines of `s`: what stands between its line feeds, before the first
/// and after the last.
pub open spec fn lines(s: Text) -> Seq<Text>
    decreases s.len(),
{
    let n = line_end(s);
    if 0 <= n < s.len() {
        seq![s.take(n)] + lines(s.skip(n + 1))
    } else {
        seq![s]
    }
}

/// What is known of the source that the listing is describing.
pub struct Entry {
    pub name: Text,
    pub description: Text,
    pub monitor_of: Text,
}

/// An entry of which nothing is known yet.
pub open spec fn blank() -> Entry {
    Entry { name: Seq::empty(), description: Seq::empty(), monitor_of: Seq::empty() }
}

/// The entry after a line of the listing that does not begin a new source.
/// A line that, trimmed, begins with one of the three labels sets that
/// property to the rest of the line; any other line changes nothing.
pub open spec fn noted(e: Entry, line: Text) -> Entry {
    let t = trimmed(line);
    if has_prefix(t, "Name:"@) {
        Entry { name: without_repeated_prefix(t, "Name: "@), ..e }
    } else if has_prefix(t, "Description:"@) {
        Entry { description: without_repeated_prefix(t, "Description: "@), ..e }
    } else if has_prefix(t, "Monitor of Sink:"@) {
        Entry { monitor_of: without_repeated_prefix(t, "Monitor of Sink: "@), ..e }
    } else {
        e
    }
}

/// The device that an entry describes; one without a description is shown as
/// `unnamed`. It is a monitor where the listing names the sink that it
/// monitors.
pub open spec fn device_of(e: Entry, unnamed: Text) -> DeviceView {
    DeviceView {
        name: e.name,
        description: if e.description.len() == 0 {
            unnamed
        } else {
            e.description
        },
        is_monitor: e.monitor_of != "n/a"@ && e.monitor_of.len() > 0,
    }
}

/// The devices found so far, and the entry that is being read.
pub struct Scan {
    pub found: Seq<DeviceView>,
    pub entry: Entry,
}

/// The listing read line by line. A line that begins with `Source #` ends
/// the entry before it, which counts where it has a name and is then shown as
/// its name where it has no description; every other line adds to the entry.
pub open spec fn scanned(lines: Seq<Text>) -> Scan
    decreases lines.len(),
{
    if lines.len() == 0 {
        Scan { found: Seq::empty(), entry: blank() }
    } else {
        let before = scanned(lines.drop_last());
        if has_prefix(lines.last(), "Source #"@) {
            Scan {
                found: if before.entry.name.len() > 0 {
                    before.found.push(device_of(before.entry, before.entry.name))
                } else {
                    before.found
                },
                entry: blank(),
            }
        } else {
            Scan { found: before.found, entry: noted(before.entry, lines.last()) }
        }
    }
}

/// The devices that a listing of sources describes, in its order. The last
/// entry counts where it has a name, and is shown as `Unknown Device` where
/// it has no description.
pub open spec fn listed(listing: Text) -> Seq<DeviceView> {
    let s = scanned(lines(listing));
    if s.entry.name.len() > 0 {
        s.found.push(device_of(s.entry, "Unknown Device"@))
    } else {
        s.found
    }
}

/// Every device that was found while scanning has a name and a description.
pub proof fn lemma_scanned_named(lines: Seq<Text>)
    ensures
        forall|i: int|
            0 <= i < scanned(lines).found.len() ==> {
                &&& (#[trigger] scanned(lines).found[i]).name.len() > 0
                &&& scanned(lines).found[i].description.len() > 0
            },
    decreases lines.len(),
{
    if lines.len() > 0 {
        let before = scanned(lines.drop_last());
        lemma_scanned_named(lines.drop_last());
        assert forall|i: int| 0 <= i < scanned(lines).found.len() implies {
            &&& (#[trigger] scanned(lines).found[i]).name.len() > 0
            &&& scanned(lines).found[i].description.len() > 0
        } by {
            if i < before.found.len() {
                assert(scanned(lines).found[i] == before.found[i]);
            }
        }
    }
}

/// Every device of a listing has a name and a description: an entry without
/// a name is no device.
pub proof fn lemma_listed_named(listing: Text)
    ensures
        forall|i: int|
            0 <= i < listed(listing).len() ==> {
                &&& (#[trigger] listed(listing)[i]).name.len() > 0
                &&& listed(listing)[i].description.len() > 0
            },
{
    lemma_scanned_named(lines(listing));
    reveal_strlit("Unknown Device");
}

/// The contents of a list of lines.
pub open spec fn line_views(v: Seq<Vec<char>>) -> Seq<Text> {
    Seq::new(v.len(), |i: int| v[i]@)
}

/// Computes [`lines`].
pub fn split_lines(v: &Vec<char>) -> (out: Vec<Vec<char>>)
    ensures
        line_views(out@) == lines(v@),
{
    let mut out: Vec<Vec<char>> = Vec::new();
    let mut start: usize = 0;
    let mut i: usize = 0;
    assert(v@.skip(0) =~= v@);
    assert(line_views(out@) + lines(v@.skip(0)) =~= lines(v@));
    while i < v.len()
        invariant
            start <= i <= v.len(),
            line_views(out@) + lines(v@.skip(start as int)) == lines(v@),
            forall|j: int| start <= j < i ==> v@[j] != '\n',
        decreases v.len() - i,
    {
        if v[i] == '\n' {
            let ghost rest = v@.skip(start as int);
            let line = part(v, start, i);
            proof {
                assert forall|j: int| 0 <= j < i - start implies rest[j] != '\n' by {
                    assert(rest[j] == v@[start + j]);
                }
                lemma_line_end_from(rest, i - start);
                assert(rest.skip(i - start)[0] == '\n');
                assert(line_end(rest) == i - start);
                assert(rest.take(i - start) =~= line@);
                assert(rest.skip(i - start + 1) =~= v@.skip(i as int + 1));
                assert(line_views(out@.push(line)) =~= line_views(out@).push(line@));
                assert(line_views(out@).push(line@) + lines(v@.skip(i as int + 1))
                    =~= line_views(out@) + lines(rest));
            }
            out.push(line);
            start = i + 1;
        }
        i += 1;
    }
    let ghost rest = v@.skip(start as int);
    let line = part(v, start, i);
    proof {
        assert forall|j: int| 0 <= j < rest.len() implies rest[j] != '\n' by {
            assert(rest[j] == v@[start + j]);
        }
        lemma_line_end_from(rest, rest.len() as int);
        assert(rest.skip(rest.len() as int).len() == 0);
        assert(line_end(rest) == rest.len());
        assert(rest =~= line@);
        assert(line_views(out@.push(line)) =~= line_views(out@).push(line@));
        assert(line_views(out@).push(line@) =~= line_views(out@) + lines(rest));
    }
    out.push(line);
    out
}

/// The entry being read, as strings.
struct Notes {
    name: String,
    description: String,
    monitor_of: String,
}

impl View for Notes {
    type V = Entry;

    closed spec fn view(&self) -> Entry {
        Entry { name: self.name@, description: self.description@, monitor_of: self.monitor_of@ }
    }
}

impl Notes {
    fn new() -> (n: Notes)
        ensures
            n@ == blank(),
    {
        Notes { name: String::new(), description: String::new(), monitor_of: String::new() }
    }

    /// The rest of the trimmed line `t` after the label `full`, where `t`
    /// begins with `label`.
    fn value_after(t: &Vec<char>, label: &str, full: &str) -> (r: Option<String>)
        ensures
            match r {
                Some(s) => has_prefix(t@, label@) && s@ == without_repeated_prefix(t@, full@),
                None => !has_prefix(t@, label@),
            },
    {
        let l = to_chars(label);
        assert(t@.skip(0) =~= t@);
        if begins_with(t, 0, &l) {
            let f = to_chars(full);
            let k = after_repeated_prefix(t, &f);
            assert(t@.skip(k as int) =~= t@.subrange(k as int, t.len() as int));
            Some(from_chars(t, k, t.len()))
        } else {
            None
        }
    }

    /// Computes [`noted`].
    fn note(&mut self, line: &Vec<char>)
        ensures
            final(self)@ == noted(old(self)@, line@),
    {
        let (from, to) = trim_bounds(line);
        let t = part(line, from, to);
        match Self::value_after(&t, "Name:", "Name: ") {
            Some(s) => {
                self.name = s;
                return ;
            },
            None => {},
        }
        match Self::value_after(&t, "Description:", "Description: ") {
            Some(s) => {
                self.description = s;
                return ;
            },
            None => {},
        }
        match Self::value_after(&t, "Monitor of Sink:", "Monitor of Sink: ") {
            Some(s) => {
                self.monitor_of = s;
            },
            None => {},
        }
    }

    /// Whether the entry has a name.
    fn named(&self) -> (r: bool)
        ensures
            r == (self@.name.len() > 0),
    {
        !self.name.as_str().is_empty()
    }

    /// Computes [`device_of`].
    fn device(&self, unnamed: &str) -> (d: AudioDevice)
        ensures
            d@ == device_of(self@, unnamed@),
    {
        AudioDevice {
            name: self.name.clone(),
            description: if self.description.as_str().is_empty() {
                unnamed.to_owned()
            } else {
                self.description.clone()
            },
            is_monitor: !same_text(self.monitor_of.as_str(), "n/a")
                && !self.monitor_of.as_str().is_empty(),
        }
    }
}

/// The devices that the audio server's listing of its sources describes:
/// see [`listed`]. Without a listing there are none.
pub fn get_audio_devices(listing: Option<&str>) -> (devices: Vec<AudioDevice>)
    ensures
        device_views(devices@) == (match listing {
            Some(text) => listed(text@),
            None => Seq::empty(),
        }),
{
    let mut devices: Vec<AudioDevice> = Vec::new();
    assert(device_views(devices@) =~= Seq::<DeviceView>::empty());
    let text = match listing {
        Some(text) => text,
        None => {
            return devices;
        },
    };
    let chars = to_chars(text);
    let all = split_lines(&chars);
    let source = to_chars("Source #");
    let mut notes = Notes::new();
    let mut i: usize = 0;
    assert(line_views(all@).take(0) =~= Seq::<Text>::empty());
    while i < all.len()
        invariant
            i <= all.len(),
            source@ == "Source #"@,
            (Scan { found: device_views(devices@), entry: notes@ }) == scanned(
                line_views(all@).take(i as int),
            ),
        decreases all.len() - i,
    {
        proof {
            let next = line_views(all@).take(i as int + 1);
            assert(next.drop_last() =~= line_views(all@).take(i as int));
            assert(next.last() == all@[i as int]@);
            assert(all@[i as int]@.skip(0) =~= all@[i as int]@);
        }
        if begins_with(&all[i], 0, &source) {
            if notes.named() {
                let d = notes.device(notes.name.as_str());
                assert(device_views(devices@.push(d)) =~= device_views(devices@).push(d@));
                devices.push(d);
            }
            notes = Notes::new();
        } else {
            notes.note(&all[i]);
        }
        i += 1;
    }
    assert(line_views(all@).take(i as int) =~= line_views(all@));
    if notes.named() {
        let d = notes.device("Unknown Device");
        assert(device_views(devices@.push(d)) =~= device_views(devices@).push(d@));
        devices.push(d);
    }
    devices
}

} // verus!
