//! The playback session and the directory browser.

use vstd::prelude::*;
use vstd::string::StrSliceExecFns;
use crate::paths::{path_extension, path_file_name, path_join, path_parent, text_of};
use crate::queue::Queue;
use crate::stateful_list::StatefulList;

verus! {

/// Which pane takes the keys.
#[derive(Clone, Copy, Debug, PartialEq, Eq, Structural)]
pub enum InputMode {
    Browser,
    Queue,
}

/// What the audio sink reports at one instant.
#[derive(Clone, Copy, Debug)]
pub struct SinkStatus {
    /// The number of sounds that the sink holds.
    pub len: usize,
    /// Whether the sink is paused.
    pub paused: bool,
}

/// The state of playback.
#[derive(Clone, Copy, Debug, PartialEq, Eq, Structural)]
pub enum Playback {
    /// The sink holds nothing.
    Idle,
    /// The sink holds one track and plays it.
    Playing,
    /// The sink holds one track and is paused.
    Paused,
}

impl SinkStatus {
    /// The state that the sink is in. A sink that holds more than one
    /// sound is in none: the session never brings that about.
    pub open spec fn state(&self) -> Option<Playback> {
        if self.len == 0 {
            Some(Playback::Idle)
        } else if self.len == 1 {
            if self.paused {
                Some(Playback::Paused)
            } else {
                Some(Playback::Playing)
            }
        } else {
            None
        }
    }

    /// The state that the sink is in, or `None` where it holds more than
    /// one sound.
    pub fn playback(&self) -> (state: Option<Playback>)
        ensures
            state == self.state(),
    {
        if self.len == 0 {
            Some(Playback::Idle)
        } else if self.len == 1 {
            if self.paused {
                Some(Playback::Paused)
            } else {
                Some(Playback::Playing)
            }
        } else {
            None
        }
    }
}

/// What the caller is to tell the audio sink.
#[derive(Clone, Copy, Debug, PartialEq, Eq, Structural)]
pub enum SinkCommand {
    Resume,
    Pause,
    Stop,
}

/// Why a track cannot be played.
#[derive(Clone, Copy, Debug, PartialEq, Eq, Structural)]
pub enum TrackError {
    /// The path has no final component to show as the track's name.
    NoFileName,
    /// The file's metadata holds no duration.
    NoDuration,
    /// The duration is not of the form `HH:MM:SS`.
    MalformedDuration,
    /// The duration counts zero seconds.
    ZeroDuration,
}

/// What one heartbeat yields.
pub struct Tick {
    /// The share of the track that has been played, in percent.
    pub progress: u16,
    /// The queued track that the caller is to start now, if any.
    pub start: Option<String>,
}

/// The value of a decimal digit.
pub open spec fn digit_value(c: char) -> Option<nat> {
    if '0' <= c && c <= '9' {
        Some((c as nat - '0' as nat) as nat)
    } else {
        None
    }
}

/// The number that the two digits at `at` and `at + 1` spell.
pub open spec fn two_digits(text: Seq<char>, at: int) -> Option<nat>
    recommends
        0 <= at,
        at + 1 < text.len(),
{
    match (digit_value(text[at]), digit_value(text[at + 1])) {
        (Some(tens), Some(ones)) => Some(10 * tens + ones),
        _ => None,
    }
}

/// The seconds that a duration of the form `HH:MM:SS` counts by its minutes
/// and seconds: the two characters at index 3 and the two at index 6. The
/// hours do not count.
pub open spec fn clock_seconds(text: Seq<char>) -> Option<nat> {
    if text.len() < 8 {
        None
    } else {
        match (two_digits(text, 3), two_digits(text, 6)) {
            (Some(minutes), Some(seconds)) => Some(minutes * 60 + seconds),
            _ => None,
        }
    }
}

/// The share of `duration` that `elapsed` makes, in percent, rounded down
/// and capped at 100.
pub open spec fn percent(elapsed: nat, duration: nat) -> nat
    recommends
        duration > 0,
{
    let share = elapsed * 100 / duration;
    if share >= 100 {
        100
    } else {
        share
    }
}

/// The progress never falls as time passes, and it is full exactly from
/// the moment at which the whole track has been played.
pub proof fn lemma_percent_grows_to_full(earlier: nat, later: nat, duration: nat)
    requires
        duration > 0,
        earlier <= later,
    ensures
        percent(earlier, duration) <= percent(later, duration) <= 100,
        percent(later, duration) == 100 <==> later >= duration,
{
    assert(earlier * 100 / duration <= later * 100 / duration) by (nonlinear_arith)
        requires
            duration > 0,
            earlier <= later,
    ;
    assert(later * 100 / duration >= 100 <==> later >= duration) by (nonlinear_arith)
        requires
            duration > 0,
    ;
}

/// The elapsed time after a heartbeat: one more second while the sink plays
/// its one track, as long as the counter can hold it.
pub open spec fn ticked(elapsed: nat, sink: SinkStatus) -> nat {
    if sink.state() == Some(Playback::Playing) && elapsed < u16::MAX {
        elapsed + 1
    } else {
        elapsed
    }
}

/// Whether the session moves on to a queued track: the sink holds nothing
/// and a track waits.
pub open spec fn advances(sink_len: usize, queued: nat) -> bool {
    sink_len == 0 && queued > 0
}

fn digit(c: char) -> (d: Option<u16>)
    ensures
        d.is_some() == digit_value(c).is_some(),
        d.is_some() ==> d.unwrap() == digit_value(c).unwrap(),
        d.is_some() ==> d.unwrap() <= 9,
{
    if '0' <= c && c <= '9' {
        let v: u32 = c as u32 - '0' as u32;
        Some(v as u16)
    } else {
        None
    }
}

fn pair_at(text: &str, at: usize) -> (n: Option<u16>)
    requires
        at < usize::MAX,
        at + 1 < text@.len(),
    ensures
        n.is_some() == two_digits(text@, at as int).is_some(),
        n.is_some() ==> n.unwrap() == two_digits(text@, at as int).unwrap(),
        n.is_some() ==> n.unwrap() <= 99,
{
    let tens = digit(text.get_char(at));
    let ones = digit(text.get_char(at + 1));
    match (tens, ones) {
        (Some(t), Some(o)) => Some(10 * t + o),
        _ => None,
    }
}

/// Reads a duration of the form `HH:MM:SS` and returns the seconds that its
/// minutes and seconds count. Fails on a text that is too short or has
/// anything but digits in those places, and on a duration of zero.
pub fn parse_duration(text: &str) -> (seconds: Result<u16, TrackError>)
    ensures
        match seconds {
            Ok(n) => n > 0 && clock_seconds(text@) == Some(n as nat),
            Err(TrackError::MalformedDuration) => clock_seconds(text@).is_none(),
            Err(TrackError::ZeroDuration) => clock_seconds(text@) == Some(0nat),
            Err(_) => false,
        },
{
    if text.unicode_len() < 8 {
        return Err(TrackError::MalformedDuration);
    }
    match (pair_at(text, 3), pair_at(text, 6)) {
        (Some(minutes), Some(seconds)) => {
            let total: u16 = minutes * 60 + seconds;
            if total == 0 {
                Err(TrackError::ZeroDuration)
            } else {
                Ok(total)
            }
        },
        _ => Err(TrackError::MalformedDuration),
    }
}

/// The share of `duration` that `elapsed` makes, in percent.
pub fn progress_percent(elapsed: u16, duration: u16) -> (share: u16)
    requires
        duration > 0,
    ensures
        share == percent(elapsed as nat, duration as nat),
        share <= 100,
{
    let share: u32 = (elapsed as u32 * 100) / (duration as u32);
    if share >= 100 {
        100
    } else {
        share as u16
    }
}

/// One entry of a directory listing.
pub struct DirEntry {
    /// The entry's path as the listing gave it.
    pub name: String,
    /// Whether the entry is a directory.
    pub is_dir: bool,
}

/// Whether `ext` is one of the audio formats that the browser shows.
pub open spec fn audio_extension(ext: Seq<char>) -> bool {
    ext == "mp3"@ || ext == "mp4"@ || ext == "m4a"@ || ext == "wav"@ || ext == "flac"@
}

/// Whether the browser shows an entry with this final component and this
/// extension. A directory is shown exactly if its name holds no dot; a file
/// is shown exactly if its extension is an audio format.
pub open spec fn listed(is_dir: bool, name: Option<Seq<char>>, ext: Option<Seq<char>>) -> bool {
    if is_dir {
        name.is_some() && !name.unwrap().contains('.')
    } else {
        ext.is_some() && audio_extension(ext.unwrap())
    }
}

/// Whether the browser shows `entry`.
pub open spec fn keeps(entry: DirEntry) -> bool {
    listed(entry.is_dir, path_file_name(entry.name@), path_extension(entry.name@))
}

/// The names of the entries that the browser shows, in the listing's order.
pub open spec fn shown(entries: Seq<DirEntry>) -> Seq<String>
    decreases entries.len(),
{
    if entries.len() == 0 {
        Seq::empty()
    } else if keeps(entries.last()) {
        shown(entries.drop_last()).push(entries.last().name)
    } else {
        shown(entries.drop_last())
    }
}

/// The shown names are exactly the names of the kept entries, and there are
/// no more of them than entries.
pub proof fn lemma_shown_holds_the_kept(entries: Seq<DirEntry>, name: String)
    ensures
        shown(entries).contains(name) <==> exists|i: int|
            0 <= i < entries.len() && keeps(#[trigger] entries[i]) && entries[i].name == name,
        shown(entries).len() <= entries.len(),
    decreases entries.len(),
{
    if entries.len() > 0 {
        let front = entries.drop_last();
        let last = entries.last();
        lemma_shown_holds_the_kept(front, name);
        if shown(entries).contains(name) {
            let k = choose|k: int| 0 <= k < shown(entries).len() && shown(entries)[k] == name;
            if keeps(last) && k == shown(front).len() {
                assert(keeps(entries[entries.len() - 1]) && entries[entries.len() - 1].name
                    == name);
            } else {
                assert(shown(front)[k] == name);
                let i = choose|i: int|
                    0 <= i < front.len() && keeps(#[trigger] front[i]) && front[i].name == name;
                assert(keeps(entries[i]) && entries[i].name == name);
            }
        }
        if exists|i: int|
            0 <= i < entries.len() && keeps(#[trigger] entries[i]) && entries[i].name == name {
            let i = choose|i: int|
                0 <= i < entries.len() && keeps(#[trigger] entries[i]) && entries[i].name == name;
            if i == entries.len() - 1 {
                assert(shown(entries)[shown(front).len() as int] == name);
            } else {
                assert(keeps(front[i]) && front[i].name == name);
                let k = choose|k: int| 0 <= k < shown(front).len() && shown(front)[k] == name;
                assert(shown(entries)[k] == name);
            }
        }
    }
}

/// Whether two texts are the same.
pub fn same_text(a: &str, b: &str) -> (same: bool)
    ensures
        same == (a@ == b@),
{
    let n: usize = a.unicode_len();
    if n != b.unicode_len() {
        return false;
    }
    let mut i: usize = 0;
    while i < n
        invariant
            i <= n,
            n == a@.len(),
            n == b@.len(),
            forall|j: int| 0 <= j < i ==> a@[j] == b@[j],
        decreases n - i,
    {
        if a.get_char(i) != b.get_char(i) {
            return false;
        }
        i += 1;
    }
    assert(a@ =~= b@);
    true
}

/// Whether `text` holds a dot.
pub fn contains_dot(text: &str) -> (found: bool)
    ensures
        found == text@.contains('.'),
{
    let n: usize = text.unicode_len();
    let mut i: usize = 0;
    while i < n
        invariant
            i <= n,
            n == text@.len(),
            forall|j: int| 0 <= j < i ==> text@[j] != '.',
        decreases n - i,
    {
        if text.get_char(i) == '.' {
            return true;
        }
        i += 1;
    }
    false
}

/// Whether `ext` is one of the audio formats that the browser shows.
pub fn is_audio_extension(ext: &str) -> (audio: bool)
    ensures
        audio == audio_extension(ext@),
{
    same_text(ext, "mp3") || same_text(ext, "mp4") || same_text(ext, "m4a") || same_text(
        ext,
        "wav",
    ) || same_text(ext, "flac")
}

/// Whether the browser shows an entry, given its final component and its
/// extension.
pub fn is_listed(is_dir: bool, name: &Option<String>, ext: &Option<String>) -> (show: bool)
    ensures
        show == listed(is_dir, text_of(*name), text_of(*ext)),
{
    if is_dir {
        match name {
            Some(n) => !contains_dot(n.as_str()),
            None => false,
        }
    } else {
        match ext {
            Some(x) => is_audio_extension(x.as_str()),
            None => false,
        }
    }
}

/// What the selected entry asks for.
pub enum Selection {
    /// A directory to enter, by its path.
    Folder(String),
    /// A file to play, by its path.
    Track(String),
}

/// The state of the player: the browser's list and location, the queue,
/// and the track that plays with its length and the time played.
pub struct App {
    pub browser_items: StatefulList<String>,
    pub queue_items: Queue,
    pub currently_playing: String,
    pub input_mode: InputMode,
    pub current_path: String,
    pub song_time: u16,
    pub time_played: u16,
}

impl App {
    /// The directory that the browser shows.
    pub open spec fn location(&self) -> Seq<char> {
        self.current_path@
    }

    /// The length of the current track in seconds.
    pub open spec fn duration(&self) -> nat {
        self.song_time as nat
    }

    /// The seconds of the current track that have been played.
    pub open spec fn elapsed(&self) -> nat {
        self.time_played as nat
    }

    /// Both lists are well formed.
    pub open spec fn wf(&self) -> bool {
        self.browser_items.wf() && self.queue_items.wf()
    }

    /// Whether `after` differs from `before` in nothing but the time played.
    pub open spec fn same_but_elapsed(before: App, after: App) -> bool {
        &&& after.browser_items == before.browser_items
        &&& after.queue_items == before.queue_items
        &&& after.currently_playing == before.currently_playing
        &&& after.input_mode == before.input_mode
        &&& after.current_path == before.current_path
        &&& after.duration() == before.duration()
    }

    /// Whether `after` differs from `before` in nothing but the length of
    /// the track.
    pub open spec fn same_but_length(before: App, after: App) -> bool {
        &&& after.browser_items == before.browser_items
        &&& after.queue_items == before.queue_items
        &&& after.currently_playing == before.currently_playing
        &&& after.input_mode == before.input_mode
        &&& after.current_path == before.current_path
        &&& after.elapsed() == before.elapsed()
    }

    /// Whether `after` differs from `before` in nothing but the queue and
    /// the time played.
    pub open spec fn same_session(before: App, after: App) -> bool {
        &&& after.browser_items == before.browser_items
        &&& after.currently_playing == before.currently_playing
        &&& after.input_mode == before.input_mode
        &&& after.current_path == before.current_path
        &&& after.duration() == before.duration()
    }

    /// How the session moves on when the sink holds `sink_len` sounds: with
    /// an empty sink and a track waiting, that track leaves the queue to be
    /// started and the time played starts anew; else nothing changes.
    pub open spec fn auto_played(before: App, after: App, sink_len: usize, start: Option<String>)
        -> bool {
        &&& App::same_session(before, after)
        &&& if advances(sink_len, before.queue_items.items().len()) {
            Queue::popped(before.queue_items, after.queue_items, start) && after.elapsed() == 0
        } else {
            start.is_none() && after.queue_items == before.queue_items && after.elapsed()
                == before.elapsed()
        }
    }

    /// The names of the entries of a listing that the browser shows: the
    /// directories without a dot in their name and the audio files.
    pub fn scan_folder(entries: &Vec<DirEntry>) -> (names: Vec<String>)
        ensures
            names@ == shown(entries@),
    {
        let mut names: Vec<String> = Vec::new();
        let mut i: usize = 0;
        while i < entries.len()
            invariant
                i <= entries.len(),
                names@ == shown(entries@.take(i as int)),
            decreases entries.len() - i,
        {
            let entry = &entries[i];
            let name = crate::paths::file_name(entry.name.as_str());
            let ext = match &name {
                Some(n) => crate::paths::extension(n.as_str()),
                None => None,
            };
            proof {
                assert(entries@.take(i + 1).drop_last() == entries@.take(i as int));
                assert(entries@.take(i + 1).last() == entries@[i as int]);
            }
            if is_listed(entry.is_dir, &name, &ext) {
                names.push(entry.name.clone());
            }
            i += 1;
        }
        assert(entries@.take(i as int) == entries@);
        names
    }

    /// A player that browses `current_path`, whose listing is `entries`,
    /// with an empty queue and nothing played yet.
    pub fn new(current_path: String, entries: &Vec<DirEntry>) -> (app: App)
        ensures
            app.wf(),
            app.browser_items.items() == shown(entries@),
            app.browser_items.cursor() == 0,
            app.browser_items.selected().is_none(),
            app.queue_items.items().len() == 0,
            app.queue_items.selected().is_none(),
            app.currently_playing@ == "CURRENT SONG"@,
            app.input_mode == InputMode::Browser,
            app.location() == current_path@,
            app.duration() == 0,
            app.elapsed() == 0,
    {
        App {
            browser_items: StatefulList::with_items(App::scan_folder(entries)),
            queue_items: Queue::with_items(Vec::new()),
            currently_playing: "CURRENT SONG".to_owned(),
            input_mode: InputMode::Browser,
            current_path,
            song_time: 0,
            time_played: 0,
        }
    }

    /// The path of the selected entry: its name joined to the browser's
    /// directory. An empty list has no selected entry and no path.
    pub open spec fn selected_path(&self) -> Option<Seq<char>> {
        if self.browser_items.items().len() == 0 {
            None
        } else {
            Some(
                path_join(
                    self.location(),
                    self.browser_items.items()[self.browser_items.cursor() as int]@,
                ),
            )
        }
    }

    /// The path of the selected entry, or `None` where the browser's list
    /// is empty.
    pub fn selected_item(&self) -> (path: Option<String>)
        requires
            self.wf(),
        ensures
            text_of(path) == self.selected_path(),
    {
        if self.browser_items.is_empty() {
            None
        } else {
            Some(
                crate::paths::join(
                    self.current_path.as_str(),
                    self.browser_items.get_item().as_str(),
                ),
            )
        }
    }

    /// What the selected entry asks for, given whether it is a directory:
    /// to enter it, or to play it. An empty list asks for nothing.
    pub fn evaluate(&self, is_dir: bool) -> (selection: Option<Selection>)
        requires
            self.wf(),
        ensures
            match selection {
                None => self.selected_path().is_none(),
                Some(Selection::Folder(path)) => is_dir && self.selected_path() == Some(path@),
                Some(Selection::Track(path)) => !is_dir && self.selected_path() == Some(path@),
            },
    {
        match self.selected_item() {
            None => None,
            Some(path) => if is_dir {
                Some(Selection::Folder(path))
            } else {
                Some(Selection::Track(path))
            },
        }
    }

    /// Moves the browser to the directory `path`, whose listing is
    /// `entries`: the list is replaced and nothing is selected.
    pub fn enter(&mut self, path: String, entries: &Vec<DirEntry>)
        requires
            old(self).wf(),
        ensures
            final(self).wf(),
            final(self).location() == path@,
            final(self).browser_items.items() == shown(entries@),
            final(self).browser_items.cursor() == 0,
            final(self).browser_items.selected().is_none(),
            final(self).queue_items == old(self).queue_items,
            final(self).currently_playing == old(self).currently_playing,
            final(self).input_mode == old(self).input_mode,
            final(self).duration() == old(self).duration(),
            final(self).elapsed() == old(self).elapsed(),
    {
        self.current_path = path;
        self.browser_items = StatefulList::with_items(App::scan_folder(entries));
    }

    /// The directory above the browser's, or the browser's own where it
    /// has none above.
    pub fn parent_folder(&self) -> (path: String)
        ensures
            path@ == match path_parent(self.location()) {
                Some(up) => up,
                None => self.location(),
            },
    {
        match crate::paths::parent(self.current_path.as_str()) {
            Some(up) => up,
            None => self.current_path.clone(),
        }
    }

    /// Moves the browser one directory up, to `parent_folder`, whose listing
    /// is `entries`.
    pub fn backpedal(&mut self, entries: &Vec<DirEntry>)
        requires
            old(self).wf(),
        ensures
            final(self).wf(),
            final(self).location() == match path_parent(old(self).location()) {
                Some(up) => up,
                None => old(self).location(),
            },
            final(self).browser_items.items() == shown(entries@),
            final(self).browser_items.cursor() == 0,
            final(self).browser_items.selected().is_none(),
            final(self).queue_items == old(self).queue_items,
            final(self).currently_playing == old(self).currently_playing,
            final(self).input_mode == old(self).input_mode,
            final(self).duration() == old(self).duration(),
            final(self).elapsed() == old(self).elapsed(),
    {
        let up = self.parent_folder();
        self.enter(up, entries);
    }

    /// The name of the track that plays, or the placeholder.
    pub fn get_current_song(&self) -> (name: String)
        ensures
            name == self.currently_playing,
    {
        self.currently_playing.clone()
    }

    /// Sets the length of the current track from the duration that its
    /// metadata gives. On an error nothing changes.
    pub fn song_metadata(&mut self, duration: &Option<String>) -> (done: Result<(), TrackError>)
        ensures
            match done {
                Ok(_) => text_of(*duration).is_some() && clock_seconds(text_of(*duration).unwrap())
                    == Some(final(self).duration()) && final(self).duration() > 0
                    && App::same_but_length(*old(self), *final(self)),
                Err(e) => *final(self) == *old(self) && duration_fault(text_of(*duration)) == Some(
                    e,
                ),
            },
    {
        match duration {
            None => Err(TrackError::NoDuration),
            Some(text) => match parse_duration(text.as_str()) {
                Ok(seconds) => {
                    self.song_time = seconds;
                    Ok(())
                },
                Err(e) => Err(e),
            },
        }
    }

    /// Counts one more second of the current track while the sink plays
    /// it: unpaused and holding exactly one sound. The count stops at the
    /// most that it can hold. A paused or idle sink leaves the time as it
    /// is.
    pub fn increment_time(&mut self, sink: SinkStatus)
        ensures
            App::same_but_elapsed(*old(self), *final(self)),
            final(self).elapsed() == ticked(old(self).elapsed(), sink),
    {
        match sink.playback() {
            Some(Playback::Playing) => {
                if self.time_played < u16::MAX {
                    self.time_played += 1;
                }
            },
            _ => {},
        }
    }

    /// Makes the track with the final component `name` and the metadata
    /// duration `duration` the current one: its name is shown, its length
    /// is set, and the time played starts at zero. On an error nothing
    /// changes, and the caller leaves the sink as it is.
    pub fn start_track(&mut self, name: Option<String>, duration: &Option<String>) -> (done:
        Result<(), TrackError>)
        ensures
            match done {
                Ok(_) => name == Some(final(self).currently_playing) && clock_seconds(
                    text_of(*duration).unwrap(),
                ) == Some(final(self).duration()) && final(self).elapsed() == 0,
                Err(e) => *final(self) == *old(self),
            },
            done == track_outcome(text_of(name), text_of(*duration)),
            final(self).browser_items == old(self).browser_items,
            final(self).queue_items == old(self).queue_items,
            final(self).input_mode == old(self).input_mode,
            final(self).location() == old(self).location(),
    {
        match name {
            None => Err(TrackError::NoFileName),
            Some(shown_name) => match self.song_metadata(duration) {
                Ok(_) => {
                    self.time_played = 0;
                    self.currently_playing = shown_name;
                    Ok(())
                },
                Err(e) => Err(e),
            },
        }
    }

    /// Makes the track at `path`, whose metadata gives `duration`, the
    /// current one, as `start_track` does with the final component of
    /// `path`. After `Ok` the caller stops the sink, opens a new one and
    /// hands it the file.
    pub fn play(&mut self, path: &str, duration: &Option<String>) -> (done: Result<(), TrackError>)
        ensures
            match done {
                Ok(_) => path_file_name(path@) == Some(final(self).currently_playing@)
                    && clock_seconds(text_of(*duration).unwrap()) == Some(final(self).duration())
                    && final(self).elapsed() == 0,
                Err(e) => *final(self) == *old(self),
            },
            done == track_outcome(path_file_name(path@), text_of(*duration)),
            final(self).browser_items == old(self).browser_items,
            final(self).queue_items == old(self).queue_items,
            final(self).input_mode == old(self).input_mode,
            final(self).location() == old(self).location(),
    {
        let name = crate::paths::file_name(path);
        self.start_track(name, duration)
    }

    /// What to tell the sink to toggle between playing and paused.
    pub fn play_pause(&self, sink: SinkStatus) -> (command: SinkCommand)
        ensures
            command == if sink.paused {
                SinkCommand::Resume
            } else {
                SinkCommand::Pause
            },
    {
        if sink.paused {
            SinkCommand::Resume
        } else {
            SinkCommand::Pause
        }
    }

    /// What to tell the sink to leave the current track: to stop. The next
    /// heartbeat then moves on to the queue.
    pub fn skip(&self) -> (command: SinkCommand)
        ensures
            command == SinkCommand::Stop,
    {
        SinkCommand::Stop
    }

    /// Takes the next track from the queue to be started and starts the
    /// time played anew. With an empty queue it returns `None`.
    pub fn play_next(&mut self) -> (start: Option<String>)
        requires
            old(self).wf(),
        ensures
            final(self).wf(),
            App::same_session(*old(self), *final(self)),
            Queue::popped(old(self).queue_items, final(self).queue_items, start),
            final(self).elapsed() == 0,
            start.is_some() <==> old(self).queue_items.items().len() > 0,
    {
        self.time_played = 0;
        self.queue_items.pop()
    }

    /// Whether the session is about to move on to the queue: the sink holds
    /// nothing and a track waits. A caller that wants to make sure of an
    /// empty sink looks at it again after a moment before the heartbeat.
    pub fn moves_on(&self, sink: SinkStatus) -> (moving: bool)
        ensures
            moving == advances(sink.len, self.queue_items.items().len()),
    {
        sink.len == 0 && !self.queue_items.is_empty()
    }

    /// Moves on to the queue where the sink holds nothing and a track
    /// waits: returns the track that the caller is to start. Else it
    /// returns `None` and changes nothing; so it does with an empty queue.
    pub fn auto_play(&mut self, sink: SinkStatus) -> (start: Option<String>)
        requires
            old(self).wf(),
        ensures
            final(self).wf(),
            App::auto_played(*old(self), *final(self), sink.len, start),
            start.is_some() <==> advances(sink.len, old(self).queue_items.items().len()),
            old(self).queue_items.items().len() == 0 ==> start.is_none(),
    {
        if self.moves_on(sink) {
            self.play_next()
        } else {
            None
        }
    }

    /// The heartbeat. It first counts a second as `increment_time` does.
    /// With an empty sink and an empty queue the progress is 0. With one
    /// sound in the sink it is the share of the track played, in percent.
    /// Else the progress is 0 and the session moves on as `auto_play`
    /// does. A sink that holds one sound needs a track of some length.
    pub fn song_progress(&mut self, sink: SinkStatus) -> (tick: Tick)
        requires
            old(self).wf(),
            sink.len == 1 ==> old(self).duration() > 0,
        ensures
            final(self).wf(),
            App::same_session(*old(self), *final(self)),
            sink.len == 0 && old(self).queue_items.items().len() == 0 ==> tick.progress == 0
                && tick.start.is_none() && *final(self) == *old(self),
            sink.len == 1 ==> tick.progress == percent(final(self).elapsed(), final(self).duration())
                && tick.start.is_none() && final(self).queue_items == old(self).queue_items
                && final(self).elapsed() == ticked(old(self).elapsed(), sink),
            sink.len != 1 && !(sink.len == 0 && old(self).queue_items.items().len() == 0)
                ==> tick.progress == 0 && App::auto_played(
                *old(self),
                *final(self),
                sink.len,
                tick.start,
            ),
    {
        self.increment_time(sink);
        if sink.len == 0 && self.queue_items.is_empty() {
            Tick { progress: 0, start: None }
        } else if sink.len == 1 {
            Tick { progress: progress_percent(self.time_played, self.song_time), start: None }
        } else {
            let start = self.auto_play(sink);
            Tick { progress: 0, start }
        }
    }
}

/// The error that a duration gives, if any.
pub open spec fn duration_fault(duration: Option<Seq<char>>) -> Option<TrackError> {
    match duration {
        None => Some(TrackError::NoDuration),
        Some(text) => match clock_seconds(text) {
            None => Some(TrackError::MalformedDuration),
            Some(seconds) => if seconds == 0 {
                Some(TrackError::ZeroDuration)
            } else {
                None
            },
        },
    }
}

/// What starting a track with this final component and this metadata
/// duration gives: the first fault, or success.
pub open spec fn track_outcome(name: Option<Seq<char>>, duration: Option<Seq<char>>) -> Result<
    (),
    TrackError,
> {
    if name.is_none() {
        Err(TrackError::NoFileName)
    } else {
        match duration_fault(duration) {
            Some(e) => Err(e),
            None => Ok(()),
        }
    }
}

} // verus!
