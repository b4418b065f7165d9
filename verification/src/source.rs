//! Turning the files of a source folder into tracks.
use crate::data_types::playlist::Playlist;
use crate::data_types::source::Source;
use crate::data_types::track::Track;
use crate::text::{string_from, text_is};
use vstd::prelude::*;

verus! {

/// The extensions whose files get a duration read (only those become tracks).
pub open spec fn duration_readable(ext: Seq<char>) -> bool {
    ||| ext == "ogg"@
    ||| ext == "vorbis"@
    ||| ext == "mp3"@
    ||| ext == "flac"@
    ||| ext == "aac"@
    ||| ext == "aiff"@
}

/// Whether files with this extension get a duration read.
pub fn duration_supported(extension: &String) -> (r: bool)
    ensures
        r == duration_readable(extension@),
{
    text_is(extension, "ogg") || text_is(extension, "vorbis") || text_is(extension, "mp3")
        || text_is(extension, "flac") || text_is(extension, "aac") || text_is(extension, "aiff")
}

/// What the primary tag of a file holds.
pub struct TagInfo {
    pub artist: Option<String>,
    pub title: Option<String>,
    pub genre: Option<String>,
    pub album: Option<String>,
    pub year: Option<u32>,
}

/// A tag field, or `"???"` when the tag lacks it.
pub open spec fn field_or_unknown(o: Option<String>) -> Seq<char> {
    match o {
        Some(s) => s@,
        None => "???"@,
    }
}

/// The artist, title, genre and year a file's tag gives: `"unknown"`, `""`, `""` and
/// 0 without a tag; with one, its fields, `"???"` standing for a missing text and 0
/// for a missing year.
pub fn tag_fields(tag: Option<TagInfo>) -> (r: (String, String, String, u32))
    ensures
        match tag {
            None => r.0@ == "unknown"@ && r.1@ == Seq::<char>::empty() && r.2@
                == Seq::<char>::empty() && r.3 == 0,
            Some(t) => r.0@ == field_or_unknown(t.artist) && r.1@ == field_or_unknown(t.title)
                && r.2@ == field_or_unknown(t.genre) && r.3 == (match t.year {
                Some(y) => y,
                None => 0,
            }),
        },
{
    match tag {
        None => (string_from("unknown"), String::new(), String::new(), 0),
        Some(t) => {
            let artist = match t.artist {
                Some(a) => a,
                None => string_from("???"),
            };
            let title = match t.title {
                Some(a) => a,
                None => string_from("???"),
            };
            let genre = match t.genre {
                Some(a) => a,
                None => string_from("???"),
            };
            let year = match t.year {
                Some(y) => y,
                None => 0,
            };
            (artist, title, genre, year)
        },
    }
}

/// Some playlist has the name.
pub open spec fn names_playlist(playlists: Seq<Playlist>, name: Seq<char>) -> bool {
    exists|i: int| 0 <= i < playlists.len() && #[trigger] playlists[i].name@ == name
}

/// Whether a playlist with the name exists.
pub fn album_exists(playlists: &Vec<Playlist>, album_name: &String) -> (r: bool)
    ensures
        r == names_playlist(playlists@, album_name@),
{
    let mut i: usize = 0;
    while i < playlists.len()
        invariant
            i <= playlists@.len(),
            forall|j: int| 0 <= j < i ==> #[trigger] playlists@[j].name@ != album_name@,
        decreases playlists@.len() - i,
    {
        if playlists[i].name == *album_name {
            return true;
        }
        i = i + 1;
    }
    false
}

/// The album playlist made for a tag's album name.
pub open spec fn is_new_album(p: Playlist, name: Seq<char>, artist: Seq<char>) -> bool {
    &&& p.id == 0
    &&& p.name@ == name
    &&& p.list_type@ == "album"@
    &&& (match p.artist {
        Some(a) => a@ == artist,
        None => false,
    })
    &&& p.image_url@ == Seq::<char>::empty()
    &&& p.created_at@ == Seq::<char>::empty()
    &&& p.listened_at@ == Seq::<char>::empty()
    &&& p.tracks is None
    &&& p.sources is Some
    &&& p.sources->0@.len() == 0
}

/// The album a file's tag calls for: one named after the album, when the tag names
/// one and the known playlists (when they could be read) hold none of that name.
pub fn album_to_create(album: Option<String>, known: Option<&Vec<Playlist>>, artist: &String) -> (r: Option<Playlist>)
    ensures
        match r {
            Some(p) => album is Some && known is Some && !names_playlist(known->0@, album->0@)
                && is_new_album(p, album->0@, artist@),
            None => album is None || known is None || names_playlist(known->0@, album->0@),
        },
{
    match album {
        Some(name) => match known {
            Some(playlists) => {
                if album_exists(playlists, &name) {
                    None
                } else {
                    Some(
                        Playlist {
                            id: 0,
                            name: name,
                            list_type: string_from("album"),
                            artist: Some(artist.clone()),
                            sources: Some(Vec::new()),
                            image_url: String::new(),
                            created_at: String::new(),
                            listened_at: String::new(),
                            tracks: None,
                        },
                    )
                }
            },
            None => None,
        },
        None => None,
    }
}

/// The track a file becomes: only a file whose extension gets a duration read (see
/// [`duration_readable`]) and whose duration (whole seconds) could be read becomes
/// one. Its id is the number of tracks read before it and its size the byte count,
/// both cut to `i32`; it does not play.
pub fn track_from_file(
    list_len: usize,
    artist: String,
    title: String,
    genre: String,
    year: u32,
    extension: String,
    path: String,
    file_size: u64,
    duration: Option<i32>,
) -> (r: Option<Track>)
    ensures
        !duration_readable(extension@) ==> r is None,
        duration_readable(extension@) ==> match duration {
            Some(d) => r == Some(
                Track {
                    id: list_len as i32,
                    artist,
                    title,
                    genre,
                    year,
                    extension,
                    path,
                    file_size: file_size as i32,
                    duration: d,
                    playing: false,
                },
            ),
            None => r is None,
        },
{
    if !duration_supported(&extension) {
        return None;
    }
    match duration {
        Some(d) => Some(
            Track {
                id: list_len as i32,
                artist,
                title,
                genre,
                year,
                extension,
                path,
                file_size: file_size as i32,
                duration: d,
                playing: false,
            },
        ),
        None => None,
    }
}

/// The sources of the given origin, in order.
pub open spec fn local_sources(sources: Seq<Source>) -> Seq<Source>
    decreases sources.len(),
{
    if sources.len() == 0 {
        Seq::empty()
    } else if sources.last().origin@ == "local"@ {
        local_sources(sources.drop_last()).push(sources.last())
    } else {
        local_sources(sources.drop_last())
    }
}

/// The sources of origin `"local"`, in order: the ones whose folders are read.
pub fn local_source_list(source_list: &Vec<Source>) -> (r: Vec<Source>)
    ensures
        r@ == local_sources(source_list@),
{
    let mut out: Vec<Source> = Vec::new();
    let mut i: usize = 0;
    while i < source_list.len()
        invariant
            i <= source_list@.len(),
            out@ == local_sources(source_list@.subrange(0, i as int)),
        decreases source_list@.len() - i,
    {
        assert(source_list@.subrange(0, i + 1).drop_last() =~= source_list@.subrange(0, i as int));
        if text_is(&source_list[i].origin, "local") {
            out.push(source_list[i].clone());
        }
        i = i + 1;
    }
    assert(source_list@.subrange(0, source_list@.len() as int) =~= source_list@);
    out
}

} // verus!
