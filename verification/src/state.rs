//! The player's state: the track index, the play queue, playlists and the timeline,
//! and what of it the window shows.
use crate::data_types::playlist::{AudioEntry, Playlist};
use crate::data_types::source::Source;
use crate::data_types::track::Track;
use crate::database_types::queue_item::QueueItem;
use crate::text::{decimal, push_decimal, string_from, u64_to_string};
use crate::time_format::{format_into_time, time_text};
use vstd::prelude::*;

verus! {

// ---------------------------------------------------------------------------
// Looking tracks up by id
// ---------------------------------------------------------------------------

/// Some track of `s` has the id.
pub open spec fn has_track(s: Seq<Track>, id: i32) -> bool {
    exists|p: int| 0 <= p < s.len() && #[trigger] s[p].id == id
}

/// Position `p` holds the first track of `s` with the id.
pub open spec fn is_first_track(s: Seq<Track>, id: i32, p: int) -> bool {
    &&& 0 <= p < s.len()
    &&& s[p].id == id
    &&& forall|j: int| 0 <= j < p ==> #[trigger] s[j].id != id
}

/// Position `p` holds the last track of `s` with the id.
pub open spec fn is_last_track(s: Seq<Track>, id: i32, p: int) -> bool {
    &&& 0 <= p < s.len()
    &&& s[p].id == id
    &&& forall|j: int| p < j < s.len() ==> #[trigger] s[j].id != id
}

/// The position of the first track with the id, or -1.
pub open spec fn first_track(s: Seq<Track>, id: i32) -> int {
    if has_track(s, id) {
        choose|p: int| is_first_track(s, id, p)
    } else {
        -1
    }
}

/// The position of the last track with the id, or -1.
pub open spec fn last_track(s: Seq<Track>, id: i32) -> int {
    if has_track(s, id) {
        choose|p: int| is_last_track(s, id, p)
    } else {
        -1
    }
}

/// A track with the id has a first and a last position, and they are unique.
pub proof fn lemma_track_positions(s: Seq<Track>, id: i32)
    ensures
        has_track(s, id) ==> is_first_track(s, id, first_track(s, id)),
        has_track(s, id) ==> is_last_track(s, id, last_track(s, id)),
        !has_track(s, id) ==> first_track(s, id) == -1 && last_track(s, id) == -1,
        forall|p: int| is_first_track(s, id, p) ==> p == first_track(s, id),
        forall|p: int| is_last_track(s, id, p) ==> p == last_track(s, id),
    decreases s.len(),
{
    if has_track(s, id) {
        let d = s.drop_last();
        let n = s.len() - 1;
        lemma_track_positions(d, id);
        if has_track(d, id) {
            let f = first_track(d, id);
            assert(d[f] == s[f]);
            assert forall|j: int| 0 <= j < f implies #[trigger] s[j].id != id by {
                assert(d[j] == s[j]);
            }
            assert(is_first_track(s, id, f));
        } else {
            assert forall|j: int| 0 <= j < n implies #[trigger] s[j].id != id by {
                assert(d[j] == s[j]);
            }
            assert(s[n].id == id);
            assert(is_first_track(s, id, n));
        }
        if s[n].id == id {
            assert(is_last_track(s, id, n));
        } else {
            let w = choose|p: int| 0 <= p < s.len() && #[trigger] s[p].id == id;
            assert(w < n);
            assert(d[w] == s[w]);
            assert(d[w].id == id);
            assert(has_track(d, id));
            let l = last_track(d, id);
            assert(d[l] == s[l]);
            assert forall|j: int| l < j < s.len() implies #[trigger] s[j].id != id by {
                if j < n {
                    assert(d[j] == s[j]);
                    assert(d[j].id != id);
                }
            }
            assert(is_last_track(s, id, l));
        }
    }
    assert forall|p: int| is_first_track(s, id, p) implies p == first_track(s, id) by {
        let f = first_track(s, id);
        assert(has_track(s, id));
        assert(is_first_track(s, id, f));
        if p < f {
            assert(s[p].id != id);
        } else if f < p {
            assert(s[f].id != id);
        }
    }
    assert forall|p: int| is_last_track(s, id, p) implies p == last_track(s, id) by {
        let l = last_track(s, id);
        assert(has_track(s, id));
        assert(is_last_track(s, id, l));
        if p < l {
            assert(s[l].id != id);
        } else if l < p {
            assert(s[p].id != id);
        }
    }
}

/// The position of the first track with the id.
pub fn find_track_pos(index: &Vec<Track>, id: i32) -> (r: Option<usize>)
    ensures
        match r {
            Some(p) => p as int == first_track(index@, id) && is_first_track(index@, id, p as int),
            None => !has_track(index@, id) && first_track(index@, id) == -1,
        },
{
    proof {
        lemma_track_positions(index@, id);
    }
    let mut i: usize = 0;
    while i < index.len()
        invariant
            i <= index.len(),
            forall|j: int| 0 <= j < i ==> #[trigger] index@[j].id != id,
        decreases index.len() - i,
    {
        if index[i].id == id {
            assert(is_first_track(index@, id, i as int));
            return Some(i);
        }
        i = i + 1;
    }
    None
}

/// The track with its `playing` flag set to `b`.
pub open spec fn with_playing(t: Track, b: bool) -> Track {
    Track {
        id: t.id,
        title: t.title,
        artist: t.artist,
        path: t.path,
        genre: t.genre,
        year: t.year,
        extension: t.extension,
        duration: t.duration,
        file_size: t.file_size,
        playing: b,
    }
}

/// Sets the `playing` flag of the track at position `p`.
pub fn set_track_playing(v: &mut Vec<Track>, p: usize, b: bool)
    requires
        p < old(v).len(),
    ensures
        final(v)@ == old(v)@.update(p as int, with_playing(old(v)@[p as int], b)),
{
    let mut t = v.remove(p);
    t.playing = b;
    v.insert(p, t);
    assert(v@ =~= old(v)@.update(p as int, with_playing(old(v)@[p as int], b)));
}

// ---------------------------------------------------------------------------
// What the window shows
// ---------------------------------------------------------------------------

/// A track as the window shows it.
pub struct TrackView {
    pub id: i32,
    pub artist: String,
    pub title: String,
    pub path: String,
    pub genre: String,
    pub year: i32,
    pub extension: String,
    pub duration: i32,
    pub str_duration: String,
    pub file_size: i32,
    pub playing: bool,
}

/// The view shows the track.
pub open spec fn shows_track(v: TrackView, t: Track) -> bool {
    &&& v.id == t.id
    &&& v.artist@ == t.artist@
    &&& v.title@ == t.title@
    &&& v.path@ == t.path@
    &&& v.genre@ == t.genre@
    &&& v.year == t.year as i32
    &&& v.extension@ == t.extension@
    &&& v.duration == t.duration
    &&& v.str_duration@ == time_text(t.duration as int)
    &&& v.file_size == t.file_size
    &&& v.playing == t.playing
}

/// The view is the stand-in for a queued id that the index does not hold.
pub open spec fn is_placeholder(v: TrackView) -> bool {
    &&& v.id == i32::MAX
    &&& v.artist@ == Seq::<char>::empty()
    &&& v.title@ == Seq::<char>::empty()
    &&& v.path@ == Seq::<char>::empty()
    &&& v.genre@ == Seq::<char>::empty()
    &&& v.year == 0
    &&& v.extension@ == Seq::<char>::empty()
    &&& v.duration == 0
    &&& v.str_duration@ == Seq::<char>::empty()
    &&& v.file_size == 0
    &&& !v.playing
}

/// The view of a track.
pub fn track_view(t: &Track) -> (r: TrackView)
    ensures
        shows_track(r, *t),
{
    TrackView {
        id: t.id,
        artist: t.artist.clone(),
        title: t.title.clone(),
        path: t.path.clone(),
        genre: t.genre.clone(),
        year: t.year as i32,
        extension: t.extension.clone(),
        duration: t.duration,
        str_duration: format_into_time(t.duration),
        file_size: t.file_size,
        playing: t.playing,
    }
}

/// The stand-in view of a queued id that the index does not hold.
pub fn placeholder_view() -> (r: TrackView)
    ensures
        is_placeholder(r),
{
    TrackView {
        id: i32::MAX,
        title: String::new(),
        artist: String::new(),
        path: String::new(),
        genre: String::new(),
        year: 0,
        extension: String::new(),
        file_size: 0,
        duration: 0,
        str_duration: String::new(),
        playing: false,
    }
}

/// A playlist as the window shows it: its sources, and its tracks as
/// `(added_at, id)` pairs.
pub struct PlaylistView {
    pub id: i32,
    pub name: String,
    pub artist: String,
    pub list_type: String,
    pub image_url: String,
    pub created_at: String,
    pub listened_at: String,
    pub sources: Vec<Source>,
    pub tracks: Vec<(String, i32)>,
}

/// The `(added_at, id)` pair an entry shows as.
pub open spec fn entry_pair(e: AudioEntry) -> (Seq<char>, i32) {
    (e.added_at@, e.id)
}

/// The view of an optional list, empty when absent.
pub open spec fn entries_of(o: Option<Vec<AudioEntry>>) -> Seq<AudioEntry> {
    match o {
        Some(v) => v@,
        None => Seq::empty(),
    }
}

/// The view of an optional list of sources, empty when absent.
pub open spec fn sources_of(o: Option<Vec<Source>>) -> Seq<Source> {
    match o {
        Some(v) => v@,
        None => Seq::empty(),
    }
}

/// The view shows the playlist.
pub open spec fn shows_playlist(v: PlaylistView, p: Playlist) -> bool {
    &&& v.id == p.id
    &&& v.name@ == p.name@
    &&& v.artist@ == (match p.artist {
        Some(a) => a@,
        None => Seq::empty(),
    })
    &&& v.list_type@ == p.list_type@
    &&& v.image_url@ == p.image_url@
    &&& v.created_at@ == p.created_at@
    &&& v.listened_at@ == p.listened_at@
    &&& v.sources@ == sources_of(p.sources)
    &&& v.tracks@.len() == entries_of(p.tracks).len()
    &&& forall|i: int|
        0 <= i < v.tracks@.len() ==> (#[trigger] v.tracks@[i]).0@ == entries_of(p.tracks)[i].added_at@
            && v.tracks@[i].1 == entries_of(p.tracks)[i].id
}

/// Turns playlist entries into the `(added_at, id)` pairs the window lists.
pub fn convert_to_slint_model(vec: Vec<AudioEntry>) -> (r: Vec<(String, i32)>)
    ensures
        r@.len() == vec@.len(),
        forall|i: int|
            0 <= i < r@.len() ==> (#[trigger] r@[i]).0@ == vec@[i].added_at@ && r@[i].1 == vec@[i].id,
{
    let mut out: Vec<(String, i32)> = Vec::new();
    let mut i: usize = 0;
    while i < vec.len()
        invariant
            i <= vec.len(),
            out@.len() == i,
            forall|k: int|
                0 <= k < i ==> (#[trigger] out@[k]).0@ == vec@[k].added_at@ && out@[k].1 == vec@[k].id,
        decreases vec.len() - i,
    {
        out.push((vec[i].added_at.clone(), vec[i].id));
        i = i + 1;
    }
    out
}

fn clone_entries(v: &Vec<AudioEntry>) -> (r: Vec<AudioEntry>)
    ensures
        r@ == v@,
{
    let mut out: Vec<AudioEntry> = Vec::new();
    let mut i: usize = 0;
    while i < v.len()
        invariant
            i <= v.len(),
            out@ == v@.subrange(0, i as int),
        decreases v.len() - i,
    {
        out.push(v[i].clone());
        i = i + 1;
        assert(out@ =~= v@.subrange(0, i as int));
    }
    assert(out@ =~= v@);
    out
}

fn clone_sources(v: &Vec<Source>) -> (r: Vec<Source>)
    ensures
        r@ == v@,
{
    let mut out: Vec<Source> = Vec::new();
    let mut i: usize = 0;
    while i < v.len()
        invariant
            i <= v.len(),
            out@ == v@.subrange(0, i as int),
        decreases v.len() - i,
    {
        out.push(v[i].clone());
        i = i + 1;
        assert(out@ =~= v@.subrange(0, i as int));
    }
    assert(out@ =~= v@);
    out
}

/// The view of a playlist.
pub fn playlist_view(p: &Playlist) -> (r: PlaylistView)
    ensures
        shows_playlist(r, *p),
{
    let sources = match &p.sources {
        Some(s) => clone_sources(s),
        None => Vec::new(),
    };
    let entries = match &p.tracks {
        Some(t) => clone_entries(t),
        None => Vec::new(),
    };
    let artist = match &p.artist {
        Some(a) => a.clone(),
        None => String::new(),
    };
    let tracks = convert_to_slint_model(entries);
    PlaylistView {
        id: p.id,
        name: p.name.clone(),
        artist,
        list_type: p.list_type.clone(),
        image_url: p.image_url.clone(),
        created_at: p.created_at.clone(),
        listened_at: p.listened_at.clone(),
        sources,
        tracks,
    }
}

// ---------------------------------------------------------------------------
// The timeline
// ---------------------------------------------------------------------------

/// The timeline as the window shows it.
pub struct TimelineView {
    pub current: i32,
    pub length: i32,
    pub str_current: String,
    pub str_length: String,
}

/// Where playback stands: seconds played, track length, and the positions of the
/// playing track in the index and in the queue.
#[derive(Clone, Copy, PartialEq, Eq, Debug)]
pub struct TimeLine {
    pub current: i32,
    pub length: i32,
    pub media_index: Option<usize>,
    pub queue_index: Option<usize>,
}

/// The view shows the timeline.
pub open spec fn shows_timeline(v: TimelineView, t: TimeLine) -> bool {
    &&& v.current == t.current
    &&& v.length == t.length
    &&& v.str_current@ == time_text(t.current as int)
    &&& v.str_length@ == time_text(t.length as int)
}

impl TimeLine {
    /// The timeline at rest: nothing played, nothing selected.
    pub fn new() -> (r: Self)
        ensures
            r.current == 0,
            r.length == 0,
            r.media_index is None,
            r.queue_index is None,
    {
        TimeLine { current: 0, length: 0, media_index: None, queue_index: None }
    }

    /// Starts the timeline on a track: its length, nothing played yet, and the
    /// track's id taken as its index position. Gives the new view.
    pub fn set_timeline(&mut self, track: &Track) -> (r: TimelineView)
        ensures
            final(self).length == track.duration,
            final(self).current == 0,
            final(self).media_index == Some(track.id as usize),
            final(self).queue_index == old(self).queue_index,
            shows_timeline(r, *final(self)),
    {
        self.length = track.duration;
        self.current = 0;
        self.media_index = Some(track.id as usize);
        self.convert_timeline_to_slint()
    }

    /// Moves the timeline to `value` seconds played. Gives the new view.
    pub fn update_timeline(&mut self, value: i32) -> (r: TimelineView)
        ensures
            final(self).current == value,
            final(self).length == old(self).length,
            final(self).media_index == old(self).media_index,
            final(self).queue_index == old(self).queue_index,
            shows_timeline(r, *final(self)),
    {
        self.current = value;
        self.convert_timeline_to_slint()
    }

    /// The view of the timeline.
    pub fn convert_timeline_to_slint(&self) -> (r: TimelineView)
        ensures
            shows_timeline(r, *self),
    {
        TimelineView {
            current: self.current,
            length: self.length,
            str_current: format_into_time(self.current),
            str_length: format_into_time(self.length),
        }
    }
}

// ---------------------------------------------------------------------------
// The state
// ---------------------------------------------------------------------------

/// Everything the player keeps between events.
pub struct State {
    pub index: Vec<Track>,
    pub queue: Vec<QueueItem>,
    pub trash_queue: Vec<QueueItem>,
    pub timeline: TimeLine,
    pub playlists: Vec<Playlist>,
    /// The volume in percent.
    pub volume: i32,
    pub search_result: Vec<Track>,
}

/// The tracks of `records` whose id the index does not hold yet, in order.
pub open spec fn unknown_records(index: Seq<Track>, records: Seq<Track>) -> Seq<Track>
    decreases records.len(),
{
    if records.len() == 0 {
        Seq::empty()
    } else if has_track(index, records.last().id) {
        unknown_records(index, records.drop_last())
    } else {
        unknown_records(index, records.drop_last()).push(records.last())
    }
}

/// The playlist after an entry `(media_id, added_at)` was appended to its tracks
/// (a missing track list becoming a list of that one entry).
pub open spec fn entry_appended(old: Playlist, new: Playlist, media_id: i32, added_at: Seq<char>) -> bool {
    &&& new.id == old.id
    &&& new.name == old.name
    &&& new.artist == old.artist
    &&& new.list_type == old.list_type
    &&& new.image_url == old.image_url
    &&& new.created_at == old.created_at
    &&& new.listened_at == old.listened_at
    &&& new.sources == old.sources
    &&& new.tracks is Some
    &&& entries_of(new.tracks).len() == entries_of(old.tracks).len() + 1
    &&& entries_of(new.tracks).subrange(0, entries_of(old.tracks).len() as int) == entries_of(old.tracks)
    &&& entries_of(new.tracks).last().id == media_id
    &&& entries_of(new.tracks).last().added_at@ == added_at
}

/// Position `p` holds the first playlist with the id.
pub open spec fn is_first_playlist(s: Seq<Playlist>, id: i32, p: int) -> bool {
    &&& 0 <= p < s.len()
    &&& s[p].id == id
    &&& forall|j: int| 0 <= j < p ==> #[trigger] s[j].id != id
}

impl State {
    /// The empty state: no tracks, nothing queued, no playlists, volume zero.
    pub fn new() -> (r: Self)
        ensures
            r.index@.len() == 0,
            r.queue@.len() == 0,
            r.trash_queue@.len() == 0,
            r.playlists@.len() == 0,
            r.search_result@.len() == 0,
            r.volume == 0,
            r.timeline.current == 0,
            r.timeline.length == 0,
            r.timeline.media_index is None,
            r.timeline.queue_index is None,
    {
        State {
            index: Vec::new(),
            queue: Vec::new(),
            trash_queue: Vec::new(),
            timeline: TimeLine::new(),
            playlists: Vec::new(),
            volume: 0,
            search_result: Vec::new(),
        }
    }

    /// Replaces the index when one is given, and gives the index's view.
    pub fn set_index(&mut self, index: Option<Vec<Track>>) -> (r: Vec<TrackView>)
        ensures
            final(self).index@ == (match index {
                Some(i) => i@,
                None => old(self).index@,
            }),
            final(self).queue == old(self).queue,
            final(self).trash_queue == old(self).trash_queue,
            final(self).timeline == old(self).timeline,
            final(self).playlists == old(self).playlists,
            final(self).volume == old(self).volume,
            final(self).search_result == old(self).search_result,
            r@.len() == final(self).index@.len(),
            forall|i: int| 0 <= i < r@.len() ==> shows_track(#[trigger] r@[i], final(self).index@[i]),
    {
        if let Some(i) = index {
            self.index = i;
        }
        self.convert_index()
    }

    /// Adding tracks on the fly is not done yet: nothing changes.
    pub fn add_to_index() {
    }

    /// Replaces the queue when one is given, and gives the queue's view.
    pub fn set_queue(&mut self, queue: Option<Vec<QueueItem>>) -> (r: Vec<TrackView>)
        ensures
            final(self).queue@ == (match queue {
                Some(q) => q@,
                None => old(self).queue@,
            }),
            final(self).index == old(self).index,
            final(self).trash_queue == old(self).trash_queue,
            final(self).timeline == old(self).timeline,
            final(self).playlists == old(self).playlists,
            final(self).volume == old(self).volume,
            final(self).search_result == old(self).search_result,
            r@.len() == final(self).queue@.len(),
            forall|i: int|
                0 <= i < r@.len() ==> #[trigger] self_shows_queued(
                    r@[i],
                    final(self).index@,
                    final(self).queue@[i],
                ),
    {
        if let Some(q) = queue {
            self.queue = q;
        }
        self.convert_queue()
    }

    /// The volume the window shows.
    pub fn set_volume(&self) -> (r: i32)
        ensures
            r == self.volume,
    {
        self.volume
    }

    /// The view of the current track, when there is one (see [`State::convert_track`]).
    pub fn set_current_track(&self) -> (r: Option<TrackView>)
        ensures
            match r {
                Some(v) => self.queue@.len() > 0 && has_track(self.index@, self.queue@[0].media_id)
                    && shows_track(v, self.index@[first_track(self.index@, self.queue@[0].media_id)]),
                None => self.queue@.len() == 0 || !has_track(self.index@, self.queue@[0].media_id),
            },
    {
        self.convert_track()
    }

    /// The views of the playlists.
    pub fn set_playlist(&self) -> (r: Vec<PlaylistView>)
        ensures
            r@.len() == self.playlists@.len(),
            forall|i: int| 0 <= i < r@.len() ==> shows_playlist(#[trigger] r@[i], self.playlists@[i]),
    {
        self.convert_playlist()
    }

    /// Clears the `playing` flag of every track of the index; nothing else changes.
    pub fn index_playing_reset(&mut self)
        ensures
            final(self).index@.len() == old(self).index@.len(),
            forall|i: int|
                0 <= i < final(self).index@.len() ==> #[trigger] final(self).index@[i] == with_playing(
                    old(self).index@[i],
                    false,
                ),
            final(self).queue == old(self).queue,
            final(self).trash_queue == old(self).trash_queue,
            final(self).timeline == old(self).timeline,
            final(self).playlists == old(self).playlists,
            final(self).volume == old(self).volume,
            final(self).search_result == old(self).search_result,
    {
        let mut i: usize = 0;
        while i < self.index.len()
            invariant
                i <= self.index@.len(),
                self.index@.len() == old(self).index@.len(),
                forall|k: int| 0 <= k < i ==> #[trigger] self.index@[k] == with_playing(old(self).index@[k], false),
                forall|k: int| i <= k < self.index@.len() ==> #[trigger] self.index@[k] == old(self).index@[k],
                self.queue == old(self).queue,
                self.trash_queue == old(self).trash_queue,
                self.timeline == old(self).timeline,
                self.playlists == old(self).playlists,
                self.volume == old(self).volume,
                self.search_result == old(self).search_result,
            decreases self.index@.len() - i,
        {
            if self.index[i].playing {
                set_track_playing(&mut self.index, i, false);
            } else {
                assert(self.index@[i as int] == with_playing(old(self).index@[i as int], false));
            }
            i = i + 1;
        }
    }

    /// With `i_know`, queues the first track of the index with the id (nothing is
    /// queued when there is none) and answers `true`; without it, changes nothing and
    /// answers `false`.
    pub fn add_to_queue(&mut self, track_id: i32, i_know: bool) -> (r: bool)
        ensures
            r == i_know,
            final(self).queue@ == (if i_know && has_track(old(self).index@, track_id) {
                old(self).queue@.push(QueueItem { media_id: track_id })
            } else {
                old(self).queue@
            }),
            final(self).index == old(self).index,
            final(self).trash_queue == old(self).trash_queue,
            final(self).timeline == old(self).timeline,
            final(self).playlists == old(self).playlists,
            final(self).volume == old(self).volume,
            final(self).search_result == old(self).search_result,
    {
        if i_know {
            if let Some(p) = find_track_pos(&self.index, track_id) {
                let id = self.index[p].id;
                self.queue.push(QueueItem { media_id: id });
            }
            return true;
        }
        false
    }

    /// Appends `(media_id, now)` to the tracks of the first playlist with the id, the
    /// time written in decimal seconds; a missing track list becomes a list. Without
    /// a time (the clock was before the epoch) the playlist stays as it is. Answers
    /// whether a playlist with the id exists.
    pub fn add_to_playlist(&mut self, playlist_id: i32, media_id: i32, now: Option<u64>) -> (r: bool)
        ensures
            r == (exists|p: int| 0 <= p < old(self).playlists@.len() && #[trigger] old(self).playlists@[p].id == playlist_id),
            final(self).playlists@.len() == old(self).playlists@.len(),
            forall|p: int|
                is_first_playlist(old(self).playlists@, playlist_id, p) ==> (match now {
                    Some(secs) => entry_appended(
                        old(self).playlists@[p],
                        final(self).playlists@[p],
                        media_id,
                        decimal(secs as nat),
                    ),
                    None => final(self).playlists@[p] == old(self).playlists@[p],
                }) && forall|j: int|
                    0 <= j < old(self).playlists@.len() && j != p ==> #[trigger] final(self).playlists@[j]
                        == old(self).playlists@[j],
            !r ==> final(self).playlists@ == old(self).playlists@,
            final(self).index == old(self).index,
            final(self).queue == old(self).queue,
            final(self).trash_queue == old(self).trash_queue,
            final(self).timeline == old(self).timeline,
            final(self).volume == old(self).volume,
            final(self).search_result == old(self).search_result,
    {
        let mut i: usize = 0;
        while i < self.playlists.len()
            invariant
                i <= self.playlists@.len(),
                self.playlists == old(self).playlists,
                self.index == old(self).index,
                self.queue == old(self).queue,
                self.trash_queue == old(self).trash_queue,
                self.timeline == old(self).timeline,
                self.volume == old(self).volume,
                self.search_result == old(self).search_result,
                forall|j: int| 0 <= j < i ==> #[trigger] self.playlists@[j].id != playlist_id,
            decreases self.playlists@.len() - i,
        {
            if self.playlists[i].id == playlist_id {
                assert(is_first_playlist(old(self).playlists@, playlist_id, i as int));
                match now {
                    Some(secs) => {
                        let mut p = self.playlists.remove(i);
                        let entry = AudioEntry { id: media_id, added_at: u64_to_string(secs) };
                        let ghost old_entries = entries_of(p.tracks);
                        let tracks = match p.tracks {
                            Some(mut t) => {
                                t.push(entry);
                                t
                            },
                            None => {
                                let mut t: Vec<AudioEntry> = Vec::new();
                                t.push(entry);
                                t
                            },
                        };
                        assert(tracks@.subrange(0, old_entries.len() as int) =~= old_entries);
                        p.tracks = Some(tracks);
                        self.playlists.insert(i, p);
                    },
                    None => {},
                }
                proof {
                    assert forall|q: int| is_first_playlist(old(self).playlists@, playlist_id, q) implies q
                        == i by {
                        if q < i {
                            assert(old(self).playlists@[q].id != playlist_id);
                        } else if i < q {
                            assert(old(self).playlists@[i as int].id != playlist_id);
                        }
                    }
                }
                return true;
            }
            i = i + 1;
        }
        false
    }

    /// Keeps a playlist made by the "create new playlist" action (see
    /// [`new_playlist`]) once the store has taken it: it is appended to the
    /// playlists when `stored` is true; otherwise nothing changes. Answers `stored`.
    pub fn add_new_playlist(&mut self, playlist: Playlist, stored: bool) -> (r: bool)
        ensures
            r == stored,
            final(self).playlists@ == (if stored {
                old(self).playlists@.push(playlist)
            } else {
                old(self).playlists@
            }),
            final(self).index == old(self).index,
            final(self).queue == old(self).queue,
            final(self).trash_queue == old(self).trash_queue,
            final(self).timeline == old(self).timeline,
            final(self).volume == old(self).volume,
            final(self).search_result == old(self).search_result,
    {
        if stored {
            self.playlists.push(playlist);
        }
        stored
    }

    /// The views of the index's tracks, in order.
    pub fn convert_index(&self) -> (r: Vec<TrackView>)
        ensures
            r@.len() == self.index@.len(),
            forall|i: int| 0 <= i < r@.len() ==> shows_track(#[trigger] r@[i], self.index@[i]),
    {
        let mut out: Vec<TrackView> = Vec::new();
        let mut i: usize = 0;
        while i < self.index.len()
            invariant
                i <= self.index@.len(),
                out@.len() == i,
                forall|k: int| 0 <= k < i ==> shows_track(#[trigger] out@[k], self.index@[k]),
            decreases self.index@.len() - i,
        {
            out.push(track_view(&self.index[i]));
            i = i + 1;
        }
        out
    }

    /// The views of the queue: each queued id shows the first track of the index with
    /// that id, or the stand-in when the index holds none.
    pub fn convert_queue(&self) -> (r: Vec<TrackView>)
        ensures
            r@.len() == self.queue@.len(),
            forall|i: int|
                0 <= i < r@.len() ==> #[trigger] self_shows_queued(r@[i], self.index@, self.queue@[i]),
    {
        let mut out: Vec<TrackView> = Vec::new();
        let mut i: usize = 0;
        while i < self.queue.len()
            invariant
                i <= self.queue@.len(),
                out@.len() == i,
                forall|k: int|
                    0 <= k < i ==> #[trigger] self_shows_queued(out@[k], self.index@, self.queue@[k]),
            decreases self.queue@.len() - i,
        {
            let v = match self.find_source_by_id(self.queue[i].media_id) {
                Some((_, t)) => track_view(&t),
                None => placeholder_view(),
            };
            out.push(v);
            i = i + 1;
        }
        out
    }

    /// The view of the track at the head of the queue, when the index holds it.
    pub fn convert_track(&self) -> (r: Option<TrackView>)
        ensures
            match r {
                Some(v) => self.queue@.len() > 0 && has_track(self.index@, self.queue@[0].media_id)
                    && shows_track(v, self.index@[first_track(self.index@, self.queue@[0].media_id)]),
                None => self.queue@.len() == 0 || !has_track(self.index@, self.queue@[0].media_id),
            },
    {
        if self.queue.len() > 0 {
            if let Some((_, t)) = self.find_source_by_id(self.queue[0].media_id) {
                return Some(track_view(&t));
            }
        }
        None
    }

    /// The views of the playlists, in order.
    pub fn convert_playlist(&self) -> (r: Vec<PlaylistView>)
        ensures
            r@.len() == self.playlists@.len(),
            forall|i: int| 0 <= i < r@.len() ==> shows_playlist(#[trigger] r@[i], self.playlists@[i]),
    {
        let mut out: Vec<PlaylistView> = Vec::new();
        let mut i: usize = 0;
        while i < self.playlists.len()
            invariant
                i <= self.playlists@.len(),
                out@.len() == i,
                forall|k: int| 0 <= k < i ==> shows_playlist(#[trigger] out@[k], self.playlists@[k]),
            decreases self.playlists@.len() - i,
        {
            out.push(playlist_view(&self.playlists[i]));
            i = i + 1;
        }
        out
    }

    /// The position and a copy of the first track of the index with the id.
    pub fn find_source_by_id(&self, id: i32) -> (r: Option<(usize, Track)>)
        ensures
            match r {
                Some((p, t)) => p as int == first_track(self.index@, id) && is_first_track(
                    self.index@,
                    id,
                    p as int,
                ) && t == self.index@[p as int],
                None => !has_track(self.index@, id) && first_track(self.index@, id) == -1,
            },
    {
        match find_track_pos(&self.index, id) {
            Some(p) => Some((p, self.index[p].clone())),
            None => None,
        }
    }

    /// Appends to the index the records whose id it does not hold yet, in order.
    pub fn merge_to_index(&mut self, records: Vec<Track>)
        ensures
            final(self).index@ == old(self).index@ + unknown_records(old(self).index@, records@),
            final(self).queue == old(self).queue,
            final(self).trash_queue == old(self).trash_queue,
            final(self).timeline == old(self).timeline,
            final(self).playlists == old(self).playlists,
            final(self).volume == old(self).volume,
            final(self).search_result == old(self).search_result,
    {
        let mut fresh: Vec<Track> = Vec::new();
        let mut i: usize = 0;
        while i < records.len()
            invariant
                i <= records@.len(),
                self.index == old(self).index,
                fresh@ == unknown_records(self.index@, records@.subrange(0, i as int)),
            decreases records@.len() - i,
        {
            let ghost pre = records@.subrange(0, i as int);
            assert(records@.subrange(0, i + 1).drop_last() =~= pre);
            if find_track_pos(&self.index, records[i].id).is_none() {
                fresh.push(records[i].clone());
            }
            i = i + 1;
        }
        assert(records@.subrange(0, records@.len() as int) =~= records@);
        self.index.append(&mut fresh);
    }

    /// Sets the `playing` flag of the track queued at `index` (the first track of the
    /// index with its id); when setting it, the timeline records that track and queue
    /// position. Answers `None`, changing nothing, when the queue position or the
    /// track does not exist.
    pub fn set_index_playing(&mut self, index: usize, value: bool) -> (r: Option<()>)
        ensures
            r is Some <==> (index < old(self).queue@.len() && has_track(
                old(self).index@,
                old(self).queue@[index as int].media_id,
            )),
            r is Some ==> {
                let p = first_track(old(self).index@, old(self).queue@[index as int].media_id);
                &&& final(self).index@ == old(self).index@.update(p, with_playing(old(self).index@[p], value))
                &&& final(self).timeline == (if value {
                    TimeLine {
                        media_index: Some(p as usize),
                        queue_index: Some(index),
                        ..old(self).timeline
                    }
                } else {
                    old(self).timeline
                })
            },
            r is None ==> final(self).index == old(self).index && final(self).timeline == old(self).timeline,
            final(self).queue == old(self).queue,
            final(self).trash_queue == old(self).trash_queue,
            final(self).playlists == old(self).playlists,
            final(self).volume == old(self).volume,
            final(self).search_result == old(self).search_result,
    {
        if index < self.queue.len() {
            let id = self.queue[index].media_id;
            if let Some(p) = find_track_pos(&self.index, id) {
                set_track_playing(&mut self.index, p, value);
                if value {
                    self.timeline.media_index = Some(p);
                    self.timeline.queue_index = Some(index);
                }
                return Some(());
            }
        }
        None
    }
}

/// The number in the name of a new playlist: the number of stored playlists plus
/// one, or 0 when they could not be read.
pub open spec fn new_playlist_number(stored: Option<usize>) -> nat {
    match stored {
        Some(n) => (n + 1) as nat,
        None => 0,
    }
}

/// The playlist the "create new playlist" action makes, given how many playlists the
/// store holds (`None` when they could not be read): named `Playlist N` (see
/// [`new_playlist_number`]), of type `playlist`, with id 0 and nothing else.
pub fn new_playlist(stored: Option<usize>) -> (r: Playlist)
    requires
        stored matches Some(n) ==> n < usize::MAX,
    ensures
        r.id == 0,
        r.name@ == "Playlist "@ + decimal(new_playlist_number(stored)),
        r.artist is None,
        r.list_type@ == "playlist"@,
        r.image_url@ == Seq::<char>::empty(),
        r.created_at@ == Seq::<char>::empty(),
        r.listened_at@ == Seq::<char>::empty(),
        r.sources is None,
        r.tracks is None,
{
    let number: u64 = match stored {
        Some(n) => (n + 1) as u64,
        None => 0,
    };
    let mut name = string_from("Playlist ");
    push_decimal(&mut name, number);
    Playlist {
        id: 0,
        name,
        artist: None,
        list_type: string_from("playlist"),
        image_url: String::new(),
        created_at: String::new(),
        listened_at: String::new(),
        sources: None,
        tracks: None,
    }
}

/// The view shows what the queue entry stands for: the first track of the index with
/// its id, or the stand-in when there is none.
pub open spec fn self_shows_queued(v: TrackView, index: Seq<Track>, item: QueueItem) -> bool {
    if has_track(index, item.media_id) {
        shows_track(v, index[first_track(index, item.media_id)])
    } else {
        is_placeholder(v)
    }
}

/// A track id found in `s` is still found after more tracks are appended.
pub proof fn lemma_has_track_append(s: Seq<Track>, t: Seq<Track>, id: i32)
    requires
        has_track(s, id),
    ensures
        has_track(s + t, id),
{
    let p = choose|p: int| 0 <= p < s.len() && #[trigger] s[p].id == id;
    assert((s + t)[p] == s[p]);
}

/// When the index already holds every record's id, no record is unknown.
pub proof fn lemma_no_unknown_records(index: Seq<Track>, records: Seq<Track>)
    requires
        forall|k: int| 0 <= k < records.len() ==> has_track(index, #[trigger] records[k].id),
    ensures
        unknown_records(index, records) == Seq::<Track>::empty(),
    decreases records.len(),
{
    if records.len() > 0 {
        let d = records.drop_last();
        assert forall|k: int| 0 <= k < d.len() implies has_track(index, #[trigger] d[k].id) by {
            assert(d[k] == records[k]);
        }
        lemma_no_unknown_records(index, d);
        assert(has_track(index, records[records.len() - 1].id));
    }
}

/// After a merge every record's id is in the index, so merging the same records
/// again adds nothing.
pub proof fn law_merge_to_index_covers_records(index: Seq<Track>, records: Seq<Track>)
    ensures
        forall|k: int|
            0 <= k < records.len() ==> has_track(
                index + unknown_records(index, records),
                #[trigger] records[k].id,
            ),
        unknown_records(index + unknown_records(index, records), records) == Seq::<Track>::empty(),
    decreases records.len(),
{
    let merged = index + unknown_records(index, records);
    if records.len() > 0 {
        let d = records.drop_last();
        let n = records.len() - 1;
        let last = records[n];
        let before = index + unknown_records(index, d);
        law_merge_to_index_covers_records(index, d);
        if has_track(index, last.id) {
            assert(merged =~= before);
            lemma_has_track_append(index, unknown_records(index, d), last.id);
        } else {
            assert(merged =~= before.push(last));
            assert(merged[before.len() as int] == last);
        }
        assert forall|k: int| 0 <= k < records.len() implies has_track(merged, #[trigger] records[k].id) by {
            if k < n {
                assert(d[k] == records[k]);
                assert(has_track(before, d[k].id));
                lemma_has_track_append(before, merged.skip(before.len() as int), d[k].id);
                assert(before + merged.skip(before.len() as int) =~= merged);
            }
        }
    }
    lemma_no_unknown_records(merged, records);
}

} // verus!
