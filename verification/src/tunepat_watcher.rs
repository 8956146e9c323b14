//! What the watcher of the TunePat output directory makes of a change under
//! it: which new files are tracks, and which artist and title their names
//! suggest.

use crate::probe::{first_existing, first_existing_path, probe_views, PathProbe};
use crate::std_specs::{file_name, final_component, join_path, joined_path, lowercase_of};
use crate::text::{
    chars_of, find, first_occurrence, is_one_of, last_index_of, rfind_char, slice_text, trim_range,
    trimmed,
};
use vstd::prelude::*;

verus! {

/// The topic under which the notice of a new track is published.
pub const NEW_TRACK_TOPIC: &'static str = "tunepat-new-track";

/// How many changes may wait between the file system observer and the
/// processing stage. The observer waits where the queue is full, so that no
/// change is lost.
pub const EVENT_QUEUE_CAPACITY: usize = 100;

/// The extension of a file name: what follows its last dot, unless that dot is
/// the first character of the name.
pub open spec fn extension_of(name: Seq<char>) -> Option<Seq<char>> {
    match last_index_of(name, '.') {
        Some(dot) => if dot > 0 {
            Some(name.subrange(dot + 1, name.len() as int))
        } else {
            None
        },
        None => None,
    }
}

/// The stem of a file name: what stands before its last dot, or the whole
/// name where `extension_of` finds no extension.
pub open spec fn stem_of(name: Seq<char>) -> Seq<char> {
    match last_index_of(name, '.') {
        Some(dot) => if dot > 0 {
            name.subrange(0, dot)
        } else {
            name
        },
        None => name,
    }
}

/// The extension of the file name `name`.
pub fn file_extension(name: &str) -> (r: Option<&str>)
    ensures
        match r {
            Some(extension) => extension_of(name@) == Some(extension@),
            None => extension_of(name@) is None,
        },
{
    let chars = chars_of(name);
    assert(chars@.subrange(0, chars.len() as int) =~= chars@);
    match rfind_char(&chars, 0, chars.len(), '.') {
        Some(dot) => if dot > 0 {
            Some(name.substring_char(dot + 1, chars.len()))
        } else {
            None
        },
        None => None,
    }
}

/// The stem of the file name `name`.
pub fn file_stem(name: &str) -> (r: &str)
    ensures
        r@ == stem_of(name@),
{
    let chars = chars_of(name);
    assert(chars@.subrange(0, chars.len() as int) =~= chars@);
    match rfind_char(&chars, 0, chars.len(), '.') {
        Some(dot) => if dot > 0 {
            name.substring_char(0, dot)
        } else {
            name
        },
        None => name,
    }
}

/// The extensions of the audio formats that make a file a track, in lower
/// case.
pub open spec fn audio_extensions() -> Seq<Seq<char>> {
    seq!["mp3"@, "flac"@, "wav"@, "m4a"@, "aac"@, "ogg"@, "wma"@]
}

/// Whether a file name has the extension of an audio format, in any mix of
/// upper and lower case.
pub open spec fn audio_name(name: Seq<char>) -> bool {
    match extension_of(name) {
        Some(extension) => audio_extensions().contains(lowercase_of(extension)),
        None => false,
    }
}

/// Whether the final component of a path is the name of an audio file.
pub open spec fn audio_path(path: Seq<char>) -> bool {
    match final_component(path) {
        Some(name) => audio_name(name),
        None => false,
    }
}

/// The extensions of the audio formats that make a file a track.
pub fn audio_extension_list() -> (list: Vec<String>)
    ensures
        list.deep_view() == audio_extensions(),
{
    let mut list: Vec<String> = Vec::new();
    list.push(String::from_str("mp3"));
    list.push(String::from_str("flac"));
    list.push(String::from_str("wav"));
    list.push(String::from_str("m4a"));
    list.push(String::from_str("aac"));
    list.push(String::from_str("ogg"));
    list.push(String::from_str("wma"));
    list
}

/// Whether `lowered`, an extension already in lower case, is that of an audio
/// format.
pub fn is_audio_extension(lowered: &str) -> (r: bool)
    ensures
        r == audio_extensions().contains(lowered@),
{
    let list = audio_extension_list();
    is_one_of(lowered, &list)
}

/// Whether the file name `name` has the extension of an audio format.
pub fn has_audio_extension(name: &str) -> (r: bool)
    ensures
        r == audio_name(name@),
{
    match file_extension(name) {
        Some(extension) => {
            let lowered = extension.to_lowercase();
            is_audio_extension(lowered.as_str())
        },
        None => false,
    }
}

/// Whether `path` names a file of a supported audio format.
pub fn is_audio_file(path: &str) -> (r: bool)
    ensures
        r == audio_path(path@),
{
    match file_name(path) {
        Some(name) => has_audio_extension(name),
        None => false,
    }
}

/// The separators looked for between an artist and a title, in the order in
/// which they are tried: a spaced hyphen, a spaced en dash, a hyphen between
/// underscores, a spaced underscore.
pub open spec fn separators() -> Seq<Seq<char>> {
    seq![" - "@, " \u{2013} "@, "_-_"@, " _ "@]
}

/// The artist and the title that `separator` parts `name` into: what stands
/// before and after its first occurrence, trimmed, provided neither is empty.
pub open spec fn split_on(name: Seq<char>, separator: Seq<char>) -> Option<
    (Seq<char>, Seq<char>),
> {
    match first_occurrence(name, separator) {
        Some(at) => {
            let artist = trimmed(name.subrange(0, at));
            let title = trimmed(name.subrange(at + separator.len(), name.len() as int));
            if artist.len() > 0 && title.len() > 0 {
                Some((artist, title))
            } else {
                None
            }
        },
        None => None,
    }
}

/// The artist and the title that the first of `separators` to part `name`
/// parts it into.
pub open spec fn split_on_first(name: Seq<char>, separators: Seq<Seq<char>>) -> Option<
    (Seq<char>, Seq<char>),
>
    decreases separators.len(),
{
    if separators.len() == 0 {
        None
    } else {
        match split_on(name, separators.first()) {
            Some(halves) => Some(halves),
            None => split_on_first(name, separators.drop_first()),
        }
    }
}

/// The artist and the title that a base name suggests. Where no separator
/// parts the name there is no artist, and the title is the whole name.
pub open spec fn artist_and_title(base: Seq<char>) -> (Option<Seq<char>>, Option<Seq<char>>) {
    match split_on_first(base, separators()) {
        Some(halves) => (Some(halves.0), Some(halves.1)),
        None => (None, Some(base)),
    }
}

/// The base name of a file: the stem of the final component of `filename`, or
/// `filename` itself where it has no final component.
pub open spec fn base_name(filename: Seq<char>) -> Seq<char> {
    match final_component(filename) {
        Some(name) => stem_of(name),
        None => filename,
    }
}

/// The artist and the title that a file name suggests.
pub open spec fn track_info(filename: Seq<char>) -> (Option<Seq<char>>, Option<Seq<char>>) {
    artist_and_title(base_name(filename))
}

/// The separators looked for between an artist and a title, in order.
pub fn separator_list() -> (list: Vec<Vec<char>>)
    ensures
        list.deep_view() == separators(),
{
    let mut list: Vec<Vec<char>> = Vec::new();
    list.push(chars_of(" - "));
    list.push(chars_of(" \u{2013} "));
    list.push(chars_of("_-_"));
    list.push(chars_of(" _ "));
    assert(list.deep_view() =~= separators()) by {
        assert forall|i: int| 0 <= i < list.len() implies list.deep_view()[i]
            == #[trigger] separators()[i] by {}
    }
    list
}

/// The artist and the title that the base name `base` suggests.
pub fn split_artist_title(base: &str) -> (r: (Option<String>, Option<String>))
    ensures
        r.0.deep_view() == artist_and_title(base@).0,
        r.1.deep_view() == artist_and_title(base@).1,
{
    let chars = chars_of(base);
    let list = separator_list();
    let mut i: usize = 0;
    assert(separators().skip(0) =~= separators());
    while i < list.len()
        invariant
            i <= list.len(),
            chars@ == base@,
            list.deep_view() == separators(),
            split_on_first(base@, separators()) == split_on_first(
                base@,
                separators().skip(i as int),
            ),
        decreases list.len() - i,
    {
        let separator = &list[i];
        proof {
            assert(separator.deep_view() =~= separator@);
            assert(separators().skip(i as int).drop_first() =~= separators().skip(i + 1));
        }
        if let Some(at) = find(&chars, separator) {
            let (artist_from, artist_to) = trim_range(&chars, 0, at);
            let (title_from, title_to) = trim_range(&chars, at + separator.len(), chars.len());
            if artist_from < artist_to && title_from < title_to {
                let artist = slice_text(&chars, artist_from, artist_to);
                let title = slice_text(&chars, title_from, title_to);
                return (Some(artist), Some(title));
            }
        }
        i += 1;
    }
    (None, Some(base.to_owned()))
}

/// The artist and the title that the file name `filename` suggests. A title
/// is always given; an artist only where a separator parts the name.
pub fn parse_track_info(filename: &str) -> (r: (Option<String>, Option<String>))
    ensures
        r.0.deep_view() == track_info(filename@).0,
        r.1.deep_view() == track_info(filename@).1,
{
    match file_name(filename) {
        Some(name) => split_artist_title(file_stem(name)),
        None => split_artist_title(filename),
    }
}

/// A file name always suggests a title. Where it suggests an artist too, a
/// separator parts its base name, and neither artist nor title is empty.
pub proof fn lemma_track_info(filename: Seq<char>)
    ensures
        track_info(filename).1 is Some,
        track_info(filename).0 is None ==> track_info(filename).1 == Some(base_name(filename)),
        track_info(filename).0 matches Some(artist) ==> {
            &&& artist.len() > 0
            &&& track_info(filename).1->0.len() > 0
            &&& exists|k: int|
                0 <= k < separators().len() && split_on(base_name(filename), #[trigger] separators()[k])
                    == Some((artist, track_info(filename).1->0))
        },
{
    lemma_split_on_first(base_name(filename), separators());
}

/// Where one of `separators` parts `name`, `split_on_first` gives the halves
/// that the earliest such separator parts it into; where none does, it gives
/// nothing.
pub proof fn lemma_split_on_first(name: Seq<char>, separators: Seq<Seq<char>>)
    ensures
        match split_on_first(name, separators) {
            Some(halves) => exists|k: int|
                {
                    &&& 0 <= k < separators.len()
                    &&& split_on(name, #[trigger] separators[k]) == Some(halves)
                    &&& forall|j: int| 0 <= j < k ==> split_on(name, separators[j]) is None
                },
            None => forall|j: int| 0 <= j < separators.len() ==> split_on(name, separators[j]) is None,
        },
    decreases separators.len(),
{
    if separators.len() > 0 {
        if split_on(name, separators.first()) is None {
            let rest = separators.drop_first();
            lemma_split_on_first(name, rest);
            match split_on_first(name, rest) {
                Some(halves) => {
                    let k = choose|k: int|
                        {
                            &&& 0 <= k < rest.len()
                            &&& split_on(name, #[trigger] rest[k]) == Some(halves)
                            &&& forall|j: int| 0 <= j < k ==> split_on(name, rest[j]) is None
                        };
                    assert forall|j: int| 0 <= j < k + 1 implies split_on(
                        name,
                        separators[j],
                    ) is None by {
                        if j > 0 {
                            assert(rest[j - 1] == separators[j]);
                        }
                    }
                },
                None => {
                    assert forall|j: int| 0 <= j < separators.len() implies split_on(
                        name,
                        separators[j],
                    ) is None by {
                        if j > 0 {
                            assert(rest[j - 1] == separators[j]);
                        }
                    }
                },
            }
        }
    }
}

/// The kind of change that the file system reported.
#[derive(Clone, Copy, Debug, PartialEq, Eq)]
pub enum ChangeKind {
    /// A file or directory was created.
    Create,
    /// A file or directory was modified.
    Modify,
    /// A file or directory was removed.
    Remove,
    /// Any other notification.
    Other,
}

/// A change that the file system reported under the watched directory.
#[derive(Clone, Debug, PartialEq, Eq)]
pub struct ChangeEvent {
    /// What happened.
    pub kind: ChangeKind,
    /// The paths it happened to, in the order in which they were reported.
    pub paths: Vec<String>,
}

/// A `ChangeEvent` with its paths as sequences of characters.
pub struct ChangeEventView {
    pub kind: ChangeKind,
    pub paths: Seq<Seq<char>>,
}

impl View for ChangeEvent {
    type V = ChangeEventView;

    open spec fn view(&self) -> ChangeEventView {
        ChangeEventView { kind: self.kind, paths: self.paths.deep_view() }
    }
}

/// The notice that a new track has appeared in the watched directory.
#[derive(Clone, Debug, PartialEq, Eq)]
pub struct NewTrackEvent {
    /// The path of the file.
    pub path: String,
    /// The final component of the path.
    pub filename: String,
    /// The artist that the file name suggests, if it suggests one.
    pub artist: Option<String>,
    /// The title that the file name suggests.
    pub title: Option<String>,
}

/// A `NewTrackEvent` with its texts as sequences of characters.
pub struct TrackView {
    pub path: Seq<char>,
    pub filename: Seq<char>,
    pub artist: Option<Seq<char>>,
    pub title: Option<Seq<char>>,
}

impl View for NewTrackEvent {
    type V = TrackView;

    open spec fn view(&self) -> TrackView {
        TrackView {
            path: self.path@,
            filename: self.filename@,
            artist: self.artist.deep_view(),
            title: self.title.deep_view(),
        }
    }
}

/// The views of a sequence of notices, in the same order.
pub open spec fn track_views(tracks: Seq<NewTrackEvent>) -> Seq<TrackView> {
    tracks.map_values(|track: NewTrackEvent| track@)
}

/// The views of a sequence of changes, in the same order.
pub open spec fn event_views(events: Seq<ChangeEvent>) -> Seq<ChangeEventView> {
    events.map_values(|event: ChangeEvent| event@)
}

/// The notice that the creation of `path` gives rise to: one for a path whose
/// final component is the name of an audio file, none for any other.
pub open spec fn track_at(path: Seq<char>) -> Option<TrackView> {
    match final_component(path) {
        Some(name) => if audio_name(name) {
            Some(
                TrackView {
                    path,
                    filename: name,
                    artist: track_info(name).0,
                    title: track_info(name).1,
                },
            )
        } else {
            None
        },
        None => None,
    }
}

/// The notices that the creation of `paths` gives rise to, in the order of the
/// paths.
pub open spec fn tracks_among(paths: Seq<Seq<char>>) -> Seq<TrackView> {
    paths.filter_map(|path: Seq<char>| track_at(path))
}

/// The notices that one change gives rise to: those of its paths where it is a
/// creation, none where it is anything else.
pub open spec fn discovered(event: ChangeEventView) -> Seq<TrackView> {
    if event.kind is Create {
        tracks_among(event.paths)
    } else {
        Seq::empty()
    }
}

/// The notices that a run of changes gives rise to, in the order of the
/// changes and, within one change, of its paths.
pub open spec fn discovered_in(events: Seq<ChangeEventView>) -> Seq<TrackView> {
    events.flat_map(|event: ChangeEventView| discovered(event))
}

/// The notice that the creation of `path` gives rise to, if any.
pub fn discover(path: &str) -> (r: Option<NewTrackEvent>)
    ensures
        match r {
            Some(track) => track_at(path@) == Some(track@),
            None => track_at(path@) is None,
        },
{
    match file_name(path) {
        Some(name) => if has_audio_extension(name) {
            let (artist, title) = parse_track_info(name);
            Some(NewTrackEvent { path: path.to_owned(), filename: name.to_owned(), artist, title })
        } else {
            None
        },
        None => None,
    }
}

/// The notices to publish for one change, in the order of its paths.
pub fn process_event(event: &ChangeEvent) -> (tracks: Vec<NewTrackEvent>)
    ensures
        track_views(tracks@) == discovered(event@),
        !(event.kind is Create) ==> tracks@.len() == 0,
{
    let mut tracks: Vec<NewTrackEvent> = Vec::new();
    match event.kind {
        ChangeKind::Create => {},
        _ => {
            return tracks;
        },
    }
    let mut i: usize = 0;
    while i < event.paths.len()
        invariant
            i <= event.paths.len(),
            track_views(tracks@) == tracks_among(event@.paths.take(i as int)),
        decreases event.paths.len() - i,
    {
        let found = discover(event.paths[i].as_str());
        proof {
            event@.paths.lemma_filter_map_take_succ(|path: Seq<char>| track_at(path), i as int);
        }
        if let Some(track) = found {
            tracks.push(track);
        }
        i += 1;
    }
    assert(event@.paths.take(i as int) =~= event@.paths);
    tracks
}

/// The notices to publish for a run of changes, in the order of the changes.
pub fn process_events(events: &Vec<ChangeEvent>) -> (tracks: Vec<NewTrackEvent>)
    ensures
        track_views(tracks@) == discovered_in(event_views(events@)),
{
    let mut tracks: Vec<NewTrackEvent> = Vec::new();
    let mut i: usize = 0;
    while i < events.len()
        invariant
            i <= events.len(),
            track_views(tracks@) == discovered_in(event_views(events@).take(i as int)),
        decreases events.len() - i,
    {
        let mut found = process_event(&events[i]);
        proof {
            event_views(events@).lemma_flat_map_take_append(
                |event: ChangeEventView| discovered(event),
                i as int,
            );
        }
        tracks.append(&mut found);
        i += 1;
    }
    assert(event_views(events@).take(i as int) =~= event_views(events@));
    tracks
}

/// A change that is no creation gives rise to no notice, whatever its paths.
pub proof fn lemma_only_creations_discover(event: ChangeEventView)
    requires
        !(event.kind is Create),
    ensures
        discovered(event).len() == 0,
{
}

/// A run of changes none of which is a creation gives rise to no notice.
pub proof fn lemma_no_creation_no_track(events: Seq<ChangeEventView>)
    requires
        forall|i: int| 0 <= i < events.len() ==> !(events[i].kind is Create),
    ensures
        discovered_in(events).len() == 0,
    decreases events.len(),
{
    let each = |event: ChangeEventView| discovered(event);
    if events.len() > 0 {
        let n = events.len() - 1;
        lemma_no_creation_no_track(events.take(n));
        events.lemma_flat_map_take_append(each, n);
        assert(events.take(n + 1) =~= events);
    }
}

/// The creation of a path gives rise to a notice exactly where the path names
/// an audio file, and the notice carries that path, its final component and a
/// title.
pub proof fn lemma_track_at(path: Seq<char>)
    ensures
        track_at(path) is Some <==> audio_path(path),
        track_at(path) matches Some(track) ==> {
            &&& track.path == path
            &&& final_component(path) == Some(track.filename)
            &&& track.title is Some
        },
{
}

/// Every notice that a change gives rise to comes from a creation, for one of
/// the paths of the change, and that path names an audio file.
pub proof fn lemma_discovered_are_created_audio(event: ChangeEventView, k: int)
    requires
        0 <= k < discovered(event).len(),
    ensures
        event.kind is Create,
        event.paths.contains(discovered(event)[k].path),
        audio_path(discovered(event)[k].path),
{
    let track = discovered(event)[k];
    event.paths.lemma_filter_map_contains(|path: Seq<char>| track_at(path), track);
}

/// Creations of one audio file each give rise to one notice each, in the order
/// of the creations: the notice at each place is that of the file created at
/// that place.
pub proof fn lemma_one_track_per_creation(events: Seq<ChangeEventView>)
    requires
        forall|i: int|
            0 <= i < events.len() ==> {
                &&& (#[trigger] events[i]).kind is Create
                &&& events[i].paths.len() == 1
                &&& audio_path(events[i].paths[0])
            },
    ensures
        discovered_in(events).len() == events.len(),
        forall|i: int|
            0 <= i < events.len() ==> {
                &&& Some(#[trigger] discovered_in(events)[i]) == track_at(events[i].paths[0])
                &&& discovered_in(events)[i].path == events[i].paths[0]
            },
    decreases events.len(),
{
    let each = |event: ChangeEventView| discovered(event);
    if events.len() > 0 {
        let n = events.len() - 1;
        let last = events[n];
        lemma_one_track_per_creation(events.take(n));
        events.lemma_flat_map_take_append(each, n);
        assert(events.take(n + 1) =~= events);
        Seq::lemma_filter_map_singleton(last.paths[0], |path: Seq<char>| track_at(path));
        assert(last.paths =~= seq![last.paths[0]]);
        assert forall|i: int| 0 <= i < events.len() implies {
            &&& Some(#[trigger] discovered_in(events)[i]) == track_at(events[i].paths[0])
            &&& discovered_in(events)[i].path == events[i].paths[0]
        } by {}
    }
}

/// The notices of two runs of changes, one after the other, are those of the
/// first followed by those of the second: nothing is reordered, merged or
/// dropped between changes.
pub proof fn lemma_discovered_in_order(first: Seq<ChangeEventView>, second: Seq<ChangeEventView>)
    ensures
        discovered_in(first + second) == discovered_in(first) + discovered_in(second),
    decreases second.len(),
{
    let each = |event: ChangeEventView| discovered(event);
    if second.len() > 0 {
        let rest = second.drop_last();
        lemma_discovered_in_order(first, rest);
        (first + rest).lemma_flat_map_push(each, second.last());
        rest.lemma_flat_map_push(each, second.last());
        assert(rest.push(second.last()) =~= second);
    }
}

/// The creation of paths gives rise to one notice for each path that names an
/// audio file, in the order of those paths, and to nothing else.
pub proof fn lemma_tracks_among(paths: Seq<Seq<char>>)
    ensures
        tracks_among(paths) == paths.filter(|path: Seq<char>| audio_path(path)).map_values(
            |path: Seq<char>| track_at(path)->0,
        ),
    decreases paths.len(),
{
    reveal(Seq::filter);
    if paths.len() > 0 {
        lemma_tracks_among(paths.drop_last());
    }
}

/// Why a request to start watching was turned down.
#[derive(Clone, Copy, Debug, PartialEq, Eq)]
pub enum WatchError {
    /// A watch is already running.
    AlreadyWatching,
    /// The directory to watch does not exist.
    PathNotFound,
    /// The file system observer could not be set up.
    ObserverInitFailure,
}

impl WatchError {
    /// What to tell the user who asked to watch `path`.
    pub open spec fn text(self, path: Seq<char>) -> Seq<char> {
        match self {
            WatchError::AlreadyWatching => "Already watching"@,
            WatchError::PathNotFound => "Directory does not exist: "@ + path,
            WatchError::ObserverInitFailure => "Failed to watch directory: "@ + path,
        }
    }

    /// What to tell the user who asked to watch `path`.
    pub fn describe(&self, path: &str) -> (r: String)
        ensures
            r@ == self.text(path@),
    {
        match self {
            WatchError::AlreadyWatching => String::from_str("Already watching"),
            WatchError::PathNotFound => String::from_str("Directory does not exist: ").concat(path),
            WatchError::ObserverInitFailure => String::from_str(
                "Failed to watch directory: ",
            ).concat(path),
        }
    }
}

/// Whether a watch is running.
#[derive(Clone, Copy, Debug, PartialEq, Eq)]
pub enum WatchState {
    /// No watch is running.
    Idle,
    /// A directory is being watched.
    Watching,
}

/// The one watch that the application runs at a time: whether it is running,
/// and the directory that it was last started on.
#[derive(Debug)]
pub struct WatchSession {
    running: bool,
    path: Option<String>,
}

impl WatchSession {
    /// A running watch has a directory.
    #[verifier::type_invariant]
    spec fn has_target_while_running(self) -> bool {
        self.running ==> self.path is Some
    }

    /// Whether the watch is running.
    pub closed spec fn state(&self) -> WatchState {
        if self.running {
            WatchState::Watching
        } else {
            WatchState::Idle
        }
    }

    /// The directory that the watch was last started on.
    pub closed spec fn target(&self) -> Option<Seq<char>> {
        self.path.deep_view()
    }

    /// A session on which no watch has been started yet.
    pub fn new() -> (session: WatchSession)
        ensures
            session.state() is Idle,
            session.target() is None,
    {
        WatchSession { running: false, path: None }
    }

    /// Whether the watch is running.
    pub fn is_watching(&self) -> (r: bool)
        ensures
            r == (self.state() is Watching),
    {
        self.running
    }

    /// The directory that the watch was last started on. A running watch
    /// always has one.
    pub fn path(&self) -> (r: Option<&str>)
        ensures
            self.state() is Watching ==> r is Some,
            match r {
                Some(path) => self.target() == Some(path@),
                None => self.target() is None,
            },
    {
        proof {
            use_type_invariant(self);
        }
        match &self.path {
            Some(path) => Some(path.as_str()),
            None => None,
        }
    }

    /// What the processing stage does with a change that was delivered to it:
    /// `None`, to leave, once the watch has been stopped; else the notices to
    /// publish for the change.
    pub fn handle(&self, event: &ChangeEvent) -> (r: Option<Vec<NewTrackEvent>>)
        ensures
            self.state() is Idle ==> r is None,
            self.state() is Watching ==> r is Some && track_views(r->0@) == discovered(event@),
    {
        if self.running {
            Some(process_event(event))
        } else {
            None
        }
    }
}

/// Starts the watch on `path`, given whether that directory exists. A running
/// watch and a missing directory are errors and leave the session as it was;
/// otherwise the session is watching `path`.
pub fn start_watching(session: &mut WatchSession, path: String, path_exists: bool) -> (r: Result<
    bool,
    WatchError,
>)
    ensures
        old(session).state() is Watching ==> r == Err::<bool, WatchError>(
            WatchError::AlreadyWatching,
        ) && *final(session) == *old(session),
        old(session).state() is Idle && !path_exists ==> r == Err::<bool, WatchError>(
            WatchError::PathNotFound,
        ) && *final(session) == *old(session),
        old(session).state() is Idle && path_exists ==> r == Ok::<bool, WatchError>(true)
            && final(session).state() is Watching && final(session).target() == Some(path@),
{
    if session.running {
        return Err(WatchError::AlreadyWatching);
    }
    if !path_exists {
        return Err(WatchError::PathNotFound);
    }
    session.path = Some(path);
    session.running = true;
    Ok(true)
}

/// Stops the watch. This always succeeds, also where no watch is running, and
/// leaves the session idle.
pub fn stop_watching(session: &mut WatchSession) -> (r: Result<bool, WatchError>)
    ensures
        r == Ok::<bool, WatchError>(true),
        final(session).state() is Idle,
        final(session).target() == old(session).target(),
        old(session).state() is Idle ==> *final(session) == *old(session),
{
    session.running = false;
    Ok(true)
}

/// Takes back a start for which the file system observer could not be set up:
/// the session is idle again, and the error to report is returned.
pub fn observer_failed(session: &mut WatchSession) -> (e: WatchError)
    ensures
        e == WatchError::ObserverInitFailure,
        final(session).state() is Idle,
        final(session).target() == old(session).target(),
{
    session.running = false;
    WatchError::ObserverInitFailure
}

/// The names of the directories that the TunePat converters write to, in the
/// order in which they are looked for.
pub open spec fn tunepat_folders() -> Seq<Seq<char>> {
    seq![
        "TunePat Spotify Converter"@,
        "TunePat"@,
        "TunePat Amazon Music Converter"@,
        "TunePat Apple Music Converter"@,
    ]
}

/// The directories under `music_dir` that the TunePat converters may write
/// to, in the order in which they are looked for.
pub open spec fn candidate_paths(music_dir: Seq<char>) -> Seq<Seq<char>> {
    tunepat_folders().map_values(|folder: Seq<char>| joined_path(music_dir, folder))
}

/// The directories under `music_dir` that the TunePat converters may write
/// to, in the order in which they are looked for.
pub fn tunepat_candidates(music_dir: &str) -> (candidates: Vec<String>)
    ensures
        candidates.deep_view() == candidate_paths(music_dir@),
{
    let mut candidates: Vec<String> = Vec::new();
    candidates.push(join_path(music_dir, "TunePat Spotify Converter"));
    candidates.push(join_path(music_dir, "TunePat"));
    candidates.push(join_path(music_dir, "TunePat Amazon Music Converter"));
    candidates.push(join_path(music_dir, "TunePat Apple Music Converter"));
    candidates
}

/// The default TunePat output directory, given whether the user has a home
/// directory and what the probes of the candidates found: the first candidate
/// that exists, if any does. Without a home directory there is nowhere to
/// look, which is an error.
pub fn get_default_tunepat_path(home_found: bool, probes: &Vec<PathProbe>) -> (r: Result<
    Option<String>,
    String,
>)
    ensures
        !home_found ==> r is Err && r->Err_0@ == "Could not find home directory"@,
        home_found ==> r is Ok && r->Ok_0.deep_view() == first_existing(probe_views(probes@)),
{
    if home_found {
        Ok(first_existing_path(probes))
    } else {
        Err(String::from_str("Could not find home directory"))
    }
}

/// Where to look for the user's music if the platform knows no audio
/// directory: `Music` in the home directory.
pub fn fallback_music_dir(home_dir: &str) -> (dir: String)
    ensures
        dir@ == joined_path(home_dir@, "Music"@),
{
    join_path(home_dir, "Music")
}

/// The directory to look for the TunePat folders in: the user's audio
/// directory where the platform knows one, else the probed fallback where it
/// exists.
pub fn choose_music_dir(audio_dir: Option<String>, fallback: PathProbe) -> (r: Option<String>)
    ensures
        audio_dir is Some ==> r == audio_dir,
        audio_dir is None && fallback.exists ==> r == Some(fallback.path),
        audio_dir is None && !fallback.exists ==> r is None,
{
    match audio_dir {
        Some(dir) => Some(dir),
        None => if fallback.exists {
            Some(fallback.path)
        } else {
            None
        },
    }
}

} // verus!
