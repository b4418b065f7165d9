use music_player::data_types::playlist::Playlist;
use music_player::data_types::source::Source;
use music_player::database_types::playlist::Playlist as StoredPlaylist;
use music_player::database_types::track::{strip_path_quotes, Track as StoredTrack};
use music_player::database_types::CreateKey;
use music_player::legacy::source::{media_entry, mime_type, stem_of, MediaFile, SourceIndex};
use music_player::requests::auth::{
    api_key_of_url, find_last_path, find_param, insert_param, query_pairs, state_matches, text_from_draws,
    to_hex_lower, Api,
    ApiPath, Authentication,
};
use music_player::requests::search::{plan_search, search_extra_params, Fetch, SearchCall};
use music_player::requests::yt::{
    channel_ids_of, playlist_ids_of,
    channel_from_resource, channel_params, check_reply, first_channel, join_ids, parse_count,
    pick_thumbnail, playlist_params, playlists_from_resources, search_params, videos_from_search,
    playlists_from_search, channels_from_search, ApiErrorBody, ChannelContentDetails,
    ChannelResource, ChannelSelector, ChannelSnippet, ChannelStatistics, PlaylistContentDetails,
    PlaylistResource, PlaylistSnippet, PlaylistStatus, RelatedPlaylists, SearchKind,
    SearchResultId, SearchResultItem, SearchResultSnippet, Thumbnail, Thumbnails, YouTubeApiError,
};
use music_player::stream::{stream_start, stream_step, DecodeStep, StreamError, StreamStep};
use music_player::source::{
    album_exists, album_to_create, duration_supported, local_source_list, tag_fields,
    track_from_file, TagInfo,
};

fn pairs(v: &[(&str, &str)]) -> Vec<(String, String)> {
    v.iter().map(|(k, x)| (k.to_string(), x.to_string())).collect()
}

fn thumbs(default: Option<&str>, medium: Option<&str>, high: Option<&str>) -> Thumbnails {
    Thumbnails {
        default: default.map(|u| Thumbnail { url: u.to_string() }),
        medium: medium.map(|u| Thumbnail { url: u.to_string() }),
        high: high.map(|u| Thumbnail { url: u.to_string() }),
    }
}

fn item(video: Option<&str>, playlist: Option<&str>, channel: Option<&str>, title: &str) -> SearchResultItem {
    SearchResultItem {
        id: SearchResultId {
            video_id: video.map(|s| s.to_string()),
            playlist_id: playlist.map(|s| s.to_string()),
            channel_id: channel.map(|s| s.to_string()),
        },
        snippet: SearchResultSnippet {
            title: title.to_string(),
            description: "d".to_string(),
            channel_title: "ch".to_string(),
            published_at: "2020".to_string(),
            thumbnails: thumbs(Some("small"), None, None),
        },
    }
}

fn auth() -> Authentication {
    Authentication { scope: vec![], valid: false, expires: 0, hash: String::new() }
}

fn api_path(path: &str, params: &[(&str, &str)]) -> ApiPath {
    ApiPath {
        path: path.to_string(),
        headers: vec![],
        body_parameters: vec![],
        path_parameters: pairs(params),
    }
}

// ---------------------------------------------------------------------------
// Authentication
// ---------------------------------------------------------------------------

#[test]
fn bytes_render_as_lowercase_hex() {
    assert_eq!(to_hex_lower(&vec![0x00, 0xab, 0xff, 0x10]), "00abff10");
    assert_eq!(to_hex_lower(&vec![]), "");
}

#[test]
fn sha256_gives_the_hex_digest() {
    let a = auth();
    assert_eq!(
        a.sha256("abc".to_string()),
        "ba7816bf8f01cfea414140de5dae2223b00361a396177a9cb410ff61f20015ad"
    );
    assert_eq!(
        a.sha256(String::new()),
        "e3b0c44298fc1c149afbf4c8996fb92427ae41e4649b934ca495991b7852b855"
    );
}

#[test]
fn base64_gives_the_standard_text() {
    let a = auth();
    assert_eq!(a.base64("abc".to_string()), "YWJj");
    assert_eq!(a.base64("ab".to_string()), "YWI=");
    assert_eq!(a.base64(String::new()), "");
}

#[test]
fn random_strings_have_the_length_and_charset() {
    let a = auth();
    let s = a.generate_random_string(40);
    assert_eq!(s.chars().count(), 40);
    assert!(s.chars().all(|c| c.is_ascii_alphanumeric()));
    assert_eq!(a.generate_random_string(0), "");
}

#[test]
fn setting_a_parameter_twice_keeps_the_later_value() {
    let mut p = pairs(&[("a", "1"), ("b", "2")]);
    insert_param(&mut p, "b".to_string(), "x".to_string());
    insert_param(&mut p, "b".to_string(), "y".to_string());
    insert_param(&mut p, "c".to_string(), "3".to_string());
    assert_eq!(p, pairs(&[("a", "1"), ("b", "y"), ("c", "3")]));
}

#[test]
fn path_parameters_render_as_query_text() {
    let path = api_path("/auth", &[("a", "1"), ("b", "2")]);
    assert_eq!(path.stringify_path_parametrs(), "a=1&b=2&");
    let copy = path.copy();
    assert_eq!(copy.path, "/auth");
    let api = Api { url: "https://x.example.com".to_string(), paths: vec![], authentication: auth() };
    assert_eq!(api.request_url(&path), "https://x.example.com/autha=1&b=2&");
    assert_eq!(api.post_url(&path), "https://x.example.com/auth");
}

#[test]
fn apis_are_filed_by_domain() {
    assert_eq!(api_key_of_url(&"https://www.googleapis.com/youtube".to_string()), "googleapis");
    assert_eq!(api_key_of_url(&"https://accounts.spotify.com".to_string()), "spotify");
    assert_eq!(api_key_of_url(&"localhost".to_string()), "NO-DOMAIN");
    assert_eq!(api_key_of_url(&"a.".to_string()), "");
}

#[test]
fn last_path_with_a_name_wins() {
    let paths = vec![
        ("authenticate".to_string(), api_path("/first", &[])),
        ("token".to_string(), api_path("/token", &[])),
        ("authenticate".to_string(), api_path("/second", &[])),
    ];
    assert_eq!(find_last_path(&paths, "authenticate"), Some(2));
    assert_eq!(find_last_path(&paths, "missing"), None);
}

#[test]
fn authentication_request_sets_the_parameters() {
    let api = Api {
        url: "https://accounts.example.com".to_string(),
        paths: vec![("authenticate".to_string(), api_path("/authorize", &[("response_type", "code"), ("state", "old")]))],
        authentication: auth(),
    };
    let (path, state) = api.authentication_request("http://localhost/cb".to_string(), "client".to_string());
    assert_eq!(state.chars().count(), 16);
    assert!(state.chars().all(|c| c.is_ascii_alphanumeric()));
    assert_eq!(path.path, "/authorize");
    let names: Vec<&str> = path.path_parameters.iter().map(|(k, _)| k.as_str()).collect();
    assert_eq!(names, vec!["response_type", "state", "code_challenge", "redirect_uri", "client_id"]);
    assert_eq!(path.path_parameters[1].1, state);
    assert_eq!(path.path_parameters[3].1, "http://localhost/cb");
    assert_eq!(path.path_parameters[4].1, "client");
    // The Base64 text of a 64-character hex digest has 88 characters.
    assert_eq!(path.path_parameters[2].1.len(), 88);
}

#[test]
fn replies_are_trusted_when_the_state_matches() {
    let reply = pairs(&[("code", "abc"), ("sort", "s1"), ("sort", "s2")]);
    assert!(state_matches(&reply, &"s1".to_string()));
    assert!(!state_matches(&reply, &"s2".to_string()));
    assert!(!state_matches(&pairs(&[("code", "abc")]), &"s1".to_string()));
    assert_eq!(find_param(&reply, "code"), Some("abc".to_string()));
    assert_eq!(find_param(&reply, "nope"), None);
}

// ---------------------------------------------------------------------------
// YouTube replies and requests
// ---------------------------------------------------------------------------

#[test]
fn largest_thumbnail_is_picked() {
    assert_eq!(pick_thumbnail(&thumbs(Some("s"), Some("m"), Some("h"))), Some("h".to_string()));
    assert_eq!(pick_thumbnail(&thumbs(Some("s"), Some("m"), None)), Some("m".to_string()));
    assert_eq!(pick_thumbnail(&thumbs(Some("s"), None, None)), Some("s".to_string()));
    assert_eq!(pick_thumbnail(&thumbs(None, None, None)), None);
}

#[test]
fn replies_report_their_errors() {
    match check_reply(Some(ApiErrorBody { code: 403, message: "quota".to_string() }), 200, true) {
        Err(YouTubeApiError::Api { status, message }) => {
            assert_eq!(status, 403);
            assert_eq!(message, "quota");
        },
        _ => panic!("expected an API error"),
    }
    match check_reply(None, 500, false) {
        Err(YouTubeApiError::Api { status, message }) => {
            assert_eq!(status, 500);
            assert_eq!(message, "request failed with no error body");
        },
        _ => panic!("expected an API error"),
    }
    assert!(check_reply(None, 200, true).is_ok());
}

#[test]
fn search_items_split_by_kind() {
    let items = vec![
        item(Some("v1"), None, None, "first"),
        item(None, Some("p1"), None, "list"),
        item(None, None, Some("c1"), "chan"),
        item(Some("v2"), None, None, "second"),
    ];
    let videos = videos_from_search(&items);
    assert_eq!(videos.len(), 2);
    assert_eq!(videos[0].video_id, "v1");
    assert_eq!(videos[1].title, "second");
    assert_eq!(videos[0].thumbnail_url, Some("small".to_string()));
    let lists = playlists_from_search(&items);
    assert_eq!(lists.len(), 1);
    assert_eq!(lists[0].playlist_id, "p1");
    let chans = channels_from_search(&items);
    assert_eq!(chans.len(), 1);
    assert_eq!(chans[0].channel_id, "c1");
}

#[test]
fn playlist_resources_become_playlists() {
    let res = vec![PlaylistResource {
        id: "PL1".to_string(),
        snippet: PlaylistSnippet {
            title: "t".to_string(),
            description: "d".to_string(),
            channel_title: "c".to_string(),
            published_at: "p".to_string(),
            thumbnails: thumbs(None, Some("m"), None),
        },
        content_details: Some(PlaylistContentDetails { item_count: 12 }),
        status: Some(PlaylistStatus { privacy_status: "public".to_string() }),
    }];
    let out = playlists_from_resources(&res);
    assert_eq!(out.len(), 1);
    assert_eq!(out[0].playlist_id, "PL1");
    assert_eq!(out[0].item_count, Some(12));
    assert_eq!(out[0].privacy_status, Some("public".to_string()));
    assert_eq!(out[0].thumbnail_url, Some("m".to_string()));
}

#[test]
fn channel_counts_are_parsed() {
    assert_eq!(parse_count(&Some("123".to_string())), Some(123));
    assert_eq!(parse_count(&Some("12x".to_string())), None);
    assert_eq!(parse_count(&None), None);
    let res = ChannelResource {
        id: "UC1".to_string(),
        snippet: ChannelSnippet {
            title: "t".to_string(),
            description: "d".to_string(),
            custom_url: Some("@t".to_string()),
            published_at: "p".to_string(),
            thumbnails: thumbs(None, None, None),
            country: None,
        },
        statistics: Some(ChannelStatistics {
            view_count: Some("1000".to_string()),
            subscriber_count: Some("bad".to_string()),
            hidden_subscriber_count: Some(false),
            video_count: Some("7".to_string()),
        }),
        content_details: Some(ChannelContentDetails {
            related_playlists: Some(RelatedPlaylists { uploads: Some("UU1".to_string()) }),
        }),
    };
    let c = channel_from_resource(&res);
    assert_eq!(c.channel_id, "UC1");
    assert_eq!(c.view_count, Some(1000));
    assert_eq!(c.subscriber_count, None);
    assert_eq!(c.video_count, Some(7));
    assert_eq!(c.uploads_playlist_id, Some("UU1".to_string()));
    assert_eq!(c.custom_url, Some("@t".to_string()));
    let first = first_channel(vec![c]).unwrap();
    assert_eq!(first.channel_id, "UC1");
    assert!(first_channel(vec![]).is_none());
}

#[test]
fn search_parameters_in_order() {
    let key = "KEY".to_string();
    let p = search_params(SearchKind::Video, "song", &key, Some(search_extra_params()));
    assert_eq!(
        p,
        pairs(&[
            ("part", "snippet"),
            ("q", "song"),
            ("type", "video"),
            ("videoCategoryId", "10"),
            ("maxResults", "25"),
            ("key", "KEY"),
            ("order", "viewCount"),
            ("relevanceLanguage", "en"),
        ])
    );
    let p = search_params(SearchKind::Channel, "x", &key, None);
    assert_eq!(p[2], ("type".to_string(), "channel".to_string()));
    assert_eq!(p.len(), 5);
}

#[test]
fn detail_parameters_join_ids() {
    let ids = vec!["a".to_string(), "b".to_string(), "c".to_string()];
    assert_eq!(join_ids(&ids), "a,b,c");
    assert_eq!(join_ids(&vec![]), "");
    let key = "K".to_string();
    let p = playlist_params(&ids, &key, None);
    assert_eq!(p[0].1, "snippet,contentDetails,status");
    assert_eq!(p[1], ("id".to_string(), "a,b,c".to_string()));
    assert_eq!(p[2].1, "50");
    let p = channel_params(&ChannelSelector::Handle("@me".to_string()), &key, None);
    assert_eq!(p[0], ("forHandle".to_string(), "@me".to_string()));
    let p = channel_params(&ChannelSelector::Ids(ids), &key, None);
    assert_eq!(p[0], ("id".to_string(), "a,b,c".to_string()));
    assert_eq!(p[3], ("key".to_string(), "K".to_string()));
}

#[test]
fn searches_plan_their_calls() {
    assert_eq!(plan_search(Fetch::Search, &"x".to_string()), (SearchCall::Music, true));
    assert_eq!(plan_search(Fetch::Playlists, &"x".to_string()), (SearchCall::Playlists, false));
    assert_eq!(plan_search(Fetch::Channels, &"x".to_string()), (SearchCall::Channels, true));
    assert_eq!(plan_search(Fetch::PlaylistDetails, &"x".to_string()), (SearchCall::PlaylistsDetailed, false));
    assert_eq!(plan_search(Fetch::ChannelDetails, &"@band".to_string()), (SearchCall::ChannelByHandle, false));
    assert_eq!(plan_search(Fetch::ChannelDetails, &"band".to_string()), (SearchCall::ChannelsDetailed, false));
    assert_eq!(plan_search(Fetch::ChannelDetails, &String::new()), (SearchCall::ChannelsDetailed, false));
}

// ---------------------------------------------------------------------------
// Source folders and stored records
// ---------------------------------------------------------------------------

#[test]
fn only_some_extensions_get_a_duration() {
    for ext in ["ogg", "vorbis", "mp3", "flac", "aac", "aiff"] {
        assert!(duration_supported(&ext.to_string()));
    }
    assert!(!duration_supported(&"wav".to_string()));
    assert!(!duration_supported(&"MP3".to_string()));
}

#[test]
fn tags_fill_in_missing_fields() {
    let (a, t, g, y) = tag_fields(None);
    assert_eq!((a.as_str(), t.as_str(), g.as_str(), y), ("unknown", "", "", 0));
    let tag = TagInfo { artist: Some("A".to_string()), title: None, genre: Some("G".to_string()), album: None, year: None };
    let (a, t, g, y) = tag_fields(Some(tag));
    assert_eq!((a.as_str(), t.as_str(), g.as_str(), y), ("A", "???", "G", 0));
}

#[test]
fn albums_are_created_once() {
    let known = vec![Playlist {
        id: 1,
        name: "Known".to_string(),
        artist: None,
        list_type: "album".to_string(),
        image_url: String::new(),
        created_at: String::new(),
        listened_at: String::new(),
        tracks: None,
        sources: None,
    }];
    assert!(album_exists(&known, &"Known".to_string()));
    assert!(album_to_create(Some("Known".to_string()), Some(&known), &"A".to_string()).is_none());
    assert!(album_to_create(None, Some(&known), &"A".to_string()).is_none());
    assert!(album_to_create(Some("New".to_string()), None, &"A".to_string()).is_none());
    let p = album_to_create(Some("New".to_string()), Some(&known), &"A".to_string()).unwrap();
    assert_eq!(p.name, "New");
    assert_eq!(p.list_type, "album");
    assert_eq!(p.artist, Some("A".to_string()));
    assert_eq!(p.sources.unwrap().len(), 0);
}

#[test]
fn files_become_tracks_with_a_duration() {
    let t = track_from_file(
        3,
        "A".to_string(),
        "T".to_string(),
        "G".to_string(),
        1999,
        "mp3".to_string(),
        "/m/t.mp3".to_string(),
        4096,
        Some(180),
    )
    .unwrap();
    assert_eq!((t.id, t.duration, t.file_size, t.playing), (3, 180, 4096, false));
    assert!(track_from_file(0, String::new(), String::new(), String::new(), 0, String::new(), String::new(), 0, None).is_none());
}

#[test]
fn only_local_sources_are_read() {
    let list = vec![
        Source { origin: "local".to_string(), path: "/a".to_string() },
        Source { origin: "web".to_string(), path: "/b".to_string() },
        Source { origin: "local".to_string(), path: "/c".to_string() },
    ];
    let out = local_source_list(&list);
    let paths: Vec<&str> = out.iter().map(|s| s.path.as_str()).collect();
    assert_eq!(paths, vec!["/a", "/c"]);
}

#[test]
fn first_layout_media_files() {
    assert_eq!(mime_type(&"mp3".to_string()), Some("audio/mpeg".to_string()));
    assert_eq!(mime_type(&"webm".to_string()), Some("video/webm".to_string()));
    assert_eq!(mime_type(&"ogg".to_string()), None);
    assert_eq!(stem_of(&"a.b.c".to_string()), "a");
    assert_eq!(stem_of(&"plain".to_string()), "plain");
    let (key, file) = media_entry("song.live.mp3".to_string(), "mp3".to_string(), "/m".to_string(), 10).unwrap();
    assert_eq!(key, "song.unknown");
    assert_eq!(file.artist, "unknown");
    assert_eq!(file.create_key(), "unknown.song.live.mp3");
    assert!(media_entry("x.ogg".to_string(), "ogg".to_string(), "/m".to_string(), 1).is_none());
    let m = MediaFile { name: "n".to_string(), artist: "a".to_string(), path: "/p".to_string(), extension: "mp3".to_string(), file_size: 5 };
    assert_eq!(m.to_display_string(), "n, a, /p, mp3, 5");
    assert_eq!(SourceIndex::from_columns(-5, "/x".to_string()).create_key(), "-5");
}

#[test]
fn stored_paths_lose_their_quotes() {
    assert_eq!(strip_path_quotes(&"\"/music/a.mp3\"".to_string()), "/music/a.mp3");
    assert_eq!(strip_path_quotes(&"x\"a\"b\"y".to_string()), "ab");
    assert_eq!(strip_path_quotes(&"only\"one".to_string()), "");
    let t = StoredTrack::from_columns(1, "n".to_string(), "a".to_string(), "\"/p\"".to_string(), "mp3".to_string(), 10, 20, false);
    assert_eq!(t.path, "/p");
    assert_eq!(t.to_display_string(), "n, a, /p, mp3, 20, 10, false");
}

#[test]
fn stored_playlists_read_and_write_json() {
    let p = StoredPlaylist::from_columns(1, "n".to_string(), "[\"a\",\"b\"]", String::new(), String::new(), String::new(), vec![]);
    assert_eq!(p.sources, vec!["a".to_string(), "b".to_string()]);
    let mut bad = StoredPlaylist::from_columns(2, "n".to_string(), "not json", String::new(), String::new(), String::new(), vec![]);
    assert!(bad.sources.is_empty());
    let mut q = p;
    q.fill_text_columns();
    assert_eq!(q._sources_string, "[\"a\",\"b\"]");
    assert_eq!(q._audio_list_string, "\"\"");
    bad.fill_text_columns();
    assert_eq!(bad._sources_string, "[]");
}

#[test]
fn detail_requests_need_search_results() {
    let items = vec![item(None, Some("p1"), None, "a"), item(None, Some("p2"), Some("c1"), "b")];
    let lists = playlists_from_search(&items);
    assert_eq!(playlist_ids_of(&lists), Some(vec!["p1".to_string(), "p2".to_string()]));
    assert_eq!(playlist_ids_of(&vec![]), None);
    let chans = channels_from_search(&items);
    assert_eq!(channel_ids_of(&chans), Some(vec!["c1".to_string()]));
    assert_eq!(channel_ids_of(&vec![]), None);
}

#[test]
fn draws_become_alphabet_characters() {
    assert_eq!(text_from_draws(&vec![0, 25, 26, 51, 52, 61]), "AZaz09");
    assert_eq!(text_from_draws(&vec![]), "");
}

#[test]
fn base64_of_longer_texts() {
    let a = auth();
    assert_eq!(a.base64("Man".to_string()), "TWFu");
    assert_eq!(a.base64("hello".to_string()), "aGVsbG8=");
    assert_eq!(a.base64("hello!".to_string()), "aGVsbG8h");
    assert_eq!(a.base64("a".to_string()), "YQ==");
}

#[test]
fn queries_send_each_name_once() {
    let p = pairs(&[("q", "a"), ("order", "x"), ("q", "b"), ("key", "k"), ("order", "y")]);
    assert_eq!(query_pairs(&p), pairs(&[("q", "b"), ("order", "y"), ("key", "k")]));
    assert_eq!(query_pairs(&vec![]), vec![]);
}

#[test]
fn only_readable_extensions_become_tracks() {
    let make = |ext: &str, duration: Option<i32>| {
        track_from_file(0, "A".to_string(), "T".to_string(), "G".to_string(), 0, ext.to_string(), "/p".to_string(), 1, duration)
    };
    assert!(make("flac", Some(3)).is_some());
    assert!(make("wav", Some(3)).is_none());
    assert!(make("txt", Some(1)).is_none());
    assert!(make("ogg", None).is_none());
}

#[test]
fn stream_starts_on_the_default_audio_track() {
    assert_eq!(stream_start(true, Some((4, true))), Ok(4));
    assert_eq!(stream_start(true, Some((4, false))), Err(StreamError::NoAudioParameters));
    assert_eq!(stream_start(true, None), Err(StreamError::NoDefaultTrack));
    assert_eq!(stream_start(false, Some((4, true))), Err(StreamError::Probe));
}

#[test]
fn stream_steps_skip_decode_and_end() {
    assert_eq!(stream_step(1, Err(()), None), StreamStep::Done(Err(StreamError::Read)));
    assert_eq!(stream_step(1, Ok(None), None), StreamStep::Done(Ok(())));
    assert_eq!(stream_step(1, Ok(Some(2)), None), StreamStep::Skip);
    assert_eq!(stream_step(1, Ok(Some(1)), None), StreamStep::Decode);
    assert_eq!(stream_step(1, Ok(Some(1)), Some(DecodeStep::Decoded)), StreamStep::Continue);
    assert_eq!(stream_step(1, Ok(Some(1)), Some(DecodeStep::DecodeError)), StreamStep::Continue);
    assert_eq!(stream_step(1, Ok(Some(1)), Some(DecodeStep::Failed)), StreamStep::Done(Err(StreamError::Decode)));
}

#[test]
fn json_columns_escape_like_serde_json() {
    let mut p = StoredPlaylist::from_columns(1, "n".to_string(), "[]", String::new(), String::new(), String::new(), vec![]);
    p.sources = vec!["a\"b".to_string(), "\n\t\\".to_string(), "\u{1}\u{7f}é".to_string()];
    p._audio_list_string = "x\u{1f}".to_string();
    p.fill_text_columns();
    assert_eq!(p._sources_string, "[\"a\\\"b\",\"\\n\\t\\\\\",\"\\u0001\u{7f}é\"]");
    assert_eq!(p._audio_list_string, "\"x\\u001f\"");
}
