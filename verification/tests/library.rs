use music_player::cxxqt_object::QMediaController;
use music_player::data_types::playlist::{AudioEntry, Playlist};
use music_player::data_types::setting::Setting;
use music_player::data_types::source::Source;
use music_player::data_types::track::Track;
use music_player::database::{initialization_queries, is_recoverable, OpenErrorCode};
use music_player::database_types::queue_item::QueueItem;
use music_player::database_types::{CreateKey, GetQuery, Instanceable, SqlQueries};
use music_player::media_player::MediaPlayer;
use music_player::queue::Queue;
use music_player::sink::Sink;
use music_player::state::{new_playlist, State, TimeLine};
use music_player::text::{i32_to_string, join_comma, parse_i32, parse_u64, u64_to_string};
use music_player::time_format::format_into_time;
use music_player::ui_events::audio_control_events::{
    handle_add_media_queue, handle_media_change, handle_media_loop, handle_media_mix,
    handle_media_pause, handle_media_toggle, HandleAction,
};

fn track(id: i32, title: &str, duration: i32, playing: bool) -> Track {
    Track {
        id,
        title: title.to_string(),
        artist: "artist".to_string(),
        path: format!("/music/{}.mp3", title),
        genre: "rock".to_string(),
        year: 2001,
        extension: "mp3".to_string(),
        duration,
        file_size: 1024,
        playing,
    }
}

fn ids(v: &[Track]) -> Vec<i32> {
    v.iter().map(|t| t.id).collect()
}

fn queued(v: &[QueueItem]) -> Vec<i32> {
    v.iter().map(|q| q.media_id).collect()
}

fn state_with(index: Vec<Track>, queue: Vec<i32>) -> State {
    let mut s = State::new();
    s.index = index;
    s.queue = queue.into_iter().map(|media_id| QueueItem { media_id }).collect();
    s
}

fn playlist(id: i32, name: &str, tracks: Option<Vec<AudioEntry>>) -> Playlist {
    Playlist {
        id,
        name: name.to_string(),
        artist: None,
        list_type: "playlist".to_string(),
        image_url: String::new(),
        created_at: String::new(),
        listened_at: String::new(),
        tracks,
        sources: None,
    }
}

// ---------------------------------------------------------------------------
// Decimal text
// ---------------------------------------------------------------------------

#[test]
fn i32_renders_in_decimal() {
    assert_eq!(i32_to_string(0), "0");
    assert_eq!(i32_to_string(-42), "-42");
    assert_eq!(i32_to_string(i32::MAX), "2147483647");
    assert_eq!(i32_to_string(i32::MIN), "-2147483648");
    assert_eq!(u64_to_string(u64::MAX), "18446744073709551615");
}

#[test]
fn i32_parses_like_std() {
    assert_eq!(parse_i32("17"), Some(17));
    assert_eq!(parse_i32("+7"), Some(7));
    assert_eq!(parse_i32("-2147483648"), Some(i32::MIN));
    assert_eq!(parse_i32("2147483648"), None);
    assert_eq!(parse_i32(""), None);
    assert_eq!(parse_i32("-"), None);
    assert_eq!(parse_i32("1a"), None);
    assert_eq!(parse_i32(" 1"), None);
    for text in ["0", "-0", "+0", "00012", "-99999", "x"] {
        assert_eq!(parse_i32(text), text.parse::<i32>().ok());
    }
}

#[test]
fn u64_parses_like_std() {
    assert_eq!(parse_u64("18446744073709551615"), Some(u64::MAX));
    assert_eq!(parse_u64("18446744073709551616"), None);
    assert_eq!(parse_u64("+5"), Some(5));
    assert_eq!(parse_u64("-5"), None);
}

#[test]
fn parsing_reads_back_the_rendering() {
    for n in [0, 1, -1, 9, 10, -10, 12345, i32::MAX, i32::MIN] {
        assert_eq!(parse_i32(&i32_to_string(n)), Some(n));
    }
}

#[test]
fn strings_join_with_comma_space() {
    let parts = vec!["a".to_string(), "b".to_string(), "".to_string()];
    assert_eq!(join_comma(&parts), "a, b, ");
    assert_eq!(join_comma(&Vec::new()), "");
}

// ---------------------------------------------------------------------------
// Durations and settings
// ---------------------------------------------------------------------------

#[test]
fn durations_format_as_clock_text() {
    assert_eq!(format_into_time(0), "0:00");
    assert_eq!(format_into_time(59), "0:59");
    assert_eq!(format_into_time(61), "1:01");
    assert_eq!(format_into_time(600), "10:00");
    assert_eq!(format_into_time(3599), "59:59");
    assert_eq!(format_into_time(3600), "01:00:00");
    assert_eq!(format_into_time(3661), "01:01:01");
    assert_eq!(format_into_time(36000), "10:00:00");
    assert_eq!(format_into_time(-5), "0:00");
}

#[test]
fn numeric_settings_parse() {
    assert_eq!(Setting::is_numeric(&"12".to_string()), Some(12));
    assert_eq!(Setting::is_numeric(&"-3".to_string()), Some(-3));
    assert_eq!(Setting::is_numeric(&"abc".to_string()), None);
    assert_eq!(Setting::is_numeric(&"".to_string()), None);
    assert_eq!(Setting::is_numeric(&"99999999999".to_string()), None);
}

#[test]
fn records_display_their_fields() {
    let t = track(3, "song", 200, false);
    assert_eq!(
        t.to_display_string(),
        "song, artist, /music/song.mp3, rock, 2001, mp3, 200, 1024, false"
    );
    let s = Source { origin: "local".to_string(), path: "/music".to_string() };
    assert_eq!(s.to_display_string(), "local, /music");
    let setting = Setting {
        name: "volume".to_string(),
        value: "50".to_string(),
        default_value: "100".to_string(),
        created_at: "1".to_string(),
        updated_at: "2".to_string(),
    };
    assert_eq!(setting.to_display_string(), "volume, 50, 100, 1, 2");
}

#[test]
fn blank_records_and_keys() {
    let t = <Track as Instanceable>::new();
    assert_eq!(t.id, 0);
    assert!(t.title.is_empty() && !t.playing);
    let s = Source { origin: "local".to_string(), path: "/music".to_string() };
    assert_eq!(s.create_key(), "/music");
    assert_eq!(track(1, "a", 1, false).get_query(SqlQueries::Select), "SELECT * FROM tracks;");
}

// ---------------------------------------------------------------------------
// The state
// ---------------------------------------------------------------------------

#[test]
fn merging_adds_only_unknown_records() {
    let mut s = state_with(vec![track(1, "a", 10, false), track(2, "b", 20, false)], vec![]);
    s.merge_to_index(vec![track(2, "b2", 1, false), track(3, "c", 30, false), track(3, "c2", 1, false), track(4, "d", 40, false)]);
    // Records are checked against the index as it was: a repeated new id is added twice.
    assert_eq!(ids(&s.index), vec![1, 2, 3, 3, 4]);
    assert_eq!(s.index[1].title, "b");
    assert_eq!(s.index[2].title, "c");
    assert_eq!(s.index[3].title, "c2");
}

#[test]
fn merging_the_same_records_again_adds_nothing() {
    let records = vec![track(5, "e", 1, false), track(1, "a", 1, false), track(6, "f", 1, false)];
    let mut s = state_with(vec![track(1, "a", 10, false)], vec![]);
    s.merge_to_index(records.iter().cloned().collect());
    let once = ids(&s.index);
    s.merge_to_index(records);
    assert_eq!(ids(&s.index), once);
    assert_eq!(once, vec![1, 5, 6]);
}

#[test]
fn find_source_gives_first_track_with_id() {
    let s = state_with(vec![track(1, "a", 1, false), track(2, "b", 1, false), track(2, "c", 1, false)], vec![]);
    let (p, t) = s.find_source_by_id(2).unwrap();
    assert_eq!(p, 1);
    assert_eq!(t.title, "b");
    assert!(s.find_source_by_id(9).is_none());
}

#[test]
fn add_to_queue_needs_a_known_track() {
    let mut s = state_with(vec![track(1, "a", 1, false)], vec![]);
    assert!(s.add_to_queue(1, true));
    assert!(s.add_to_queue(7, true));
    assert!(!s.add_to_queue(1, false));
    assert_eq!(queued(&s.queue), vec![1]);
    handle_add_media_queue(&mut s, 1);
    handle_add_media_queue(&mut s, 8);
    assert_eq!(queued(&s.queue), vec![1, 1]);
}

#[test]
fn add_to_playlist_appends_an_entry() {
    let mut s = State::new();
    s.playlists = vec![playlist(1, "one", None), playlist(2, "two", Some(vec![AudioEntry { id: 9, added_at: "5".to_string() }]))];
    assert!(s.add_to_playlist(2, 4, Some(1700000000)));
    let t = s.playlists[1].tracks.as_ref().unwrap();
    assert_eq!(t.len(), 2);
    assert_eq!(t[1].id, 4);
    assert_eq!(t[1].added_at, "1700000000");
    assert!(s.add_to_playlist(1, 3, Some(0)));
    assert_eq!(s.playlists[0].tracks.as_ref().unwrap()[0].added_at, "0");
    assert!(!s.add_to_playlist(3, 3, Some(1)));
    assert!(s.add_to_playlist(1, 8, None));
    assert_eq!(s.playlists[0].tracks.as_ref().unwrap().len(), 1);
}

#[test]
fn views_show_tracks_and_placeholders() {
    let mut s = state_with(vec![track(1, "a", 75, true)], vec![]);
    let views = s.set_queue(Some(vec![QueueItem { media_id: 1 }, QueueItem { media_id: 5 }]));
    assert_eq!(views.len(), 2);
    assert_eq!(views[0].id, 1);
    assert_eq!(views[0].str_duration, "1:15");
    assert!(views[0].playing);
    assert_eq!(views[1].id, i32::MAX);
    assert_eq!(views[1].str_duration, "");
    let current = s.set_current_track().unwrap();
    assert_eq!(current.title, "a");
    let index_views = s.set_index(None);
    assert_eq!(index_views.len(), 1);
    assert_eq!(index_views[0].year, 2001);
}

#[test]
fn playing_flags_reset_and_set() {
    let mut s = state_with(vec![track(1, "a", 1, true), track(2, "b", 1, true)], vec![2, 1]);
    s.index_playing_reset();
    assert!(s.index.iter().all(|t| !t.playing));
    assert_eq!(s.set_index_playing(0, true), Some(()));
    assert!(s.index[1].playing);
    assert_eq!(s.timeline.media_index, Some(1));
    assert_eq!(s.timeline.queue_index, Some(0));
    assert_eq!(s.set_index_playing(2, true), None);
}

#[test]
fn timeline_tracks_position() {
    let mut tl = TimeLine::new();
    let v = tl.set_timeline(&track(4, "a", 3700, false));
    assert_eq!(v.length, 3700);
    assert_eq!(v.str_length, "01:01:40");
    assert_eq!(v.str_current, "0:00");
    assert_eq!(tl.media_index, Some(4));
    let v = tl.update_timeline(65);
    assert_eq!(v.str_current, "1:05");
    assert_eq!(tl.current, 65);
}

// ---------------------------------------------------------------------------
// The queue
// ---------------------------------------------------------------------------

#[test]
fn removing_an_added_entry_restores_the_queue() {
    let mut s = state_with(vec![track(1, "a", 1, false), track(2, "b", 1, false)], vec![1]);
    s.add_to_queue_item(&track(2, "b", 1, false));
    assert_eq!(queued(&s.queue), vec![1, 2]);
    s.remove_from_queue(2);
    assert_eq!(queued(&s.queue), vec![1]);
}

#[test]
fn remove_takes_the_first_entry_only() {
    let mut s = state_with(vec![], vec![3, 1, 3]);
    s.remove_from_queue(3);
    assert_eq!(queued(&s.queue), vec![1, 3]);
    s.remove_from_queue(9);
    assert_eq!(queued(&s.queue), vec![1, 3]);
}

#[test]
fn progress_moves_playing_to_the_next_entry() {
    let mut s = state_with(vec![track(1, "a", 1, true), track(2, "b", 1, false)], vec![1, 2]);
    let rest = s.progress_queue();
    assert_eq!(queued(&rest), vec![1, 2]);
    assert!(!s.index[0].playing);
    assert!(s.index[1].playing);
    let rest = s.progress_queue();
    assert_eq!(queued(&rest), vec![2]);
    assert!(s.index[1].playing);
    let mut idle = state_with(vec![track(1, "a", 1, false)], vec![1]);
    assert!(idle.progress_queue().is_empty());
}

#[test]
fn moving_the_playing_position() {
    let mut s = state_with(vec![track(1, "a", 1, true), track(2, "b", 1, false)], vec![1, 2]);
    s.timeline.queue_index = Some(0);
    assert_eq!(s.update_playing_audio_in_queue(1), Some((0, 1)));
    assert!(!s.index[0].playing);
    assert!(s.index[1].playing);
    assert_eq!(s.timeline.media_index, Some(1));
    assert_eq!(s.timeline.queue_index, Some(1));
    assert_eq!(s.update_playing_audio_in_queue(5), None);
}

#[test]
fn shuffle_keeps_the_entries() {
    let mut s = state_with(vec![], vec![1, 2, 3, 4, 5, 5, 6]);
    s.shuffle();
    let mut after = queued(&s.queue);
    after.sort();
    assert_eq!(after, vec![1, 2, 3, 4, 5, 5, 6]);
}

// ---------------------------------------------------------------------------
// The player and its controls
// ---------------------------------------------------------------------------

#[test]
fn play_marks_only_the_chosen_track() {
    let mut s = state_with(vec![track(1, "a", 1, true), track(2, "b", 1, false)], vec![]);
    let mut p = MediaPlayer::new(3);
    assert!(!p.play(&mut s, 1));
    assert!(!s.index[0].playing);
    assert!(s.index[1].playing);
    assert_eq!(p.currently.as_ref().unwrap().id, 2);
    p.set_handle(true);
    assert!(p.play(&mut s, 0));
    assert!(s.index[0].playing && !s.index[1].playing);
}

#[test]
fn pause_and_volume_need_a_handle() {
    let mut p = MediaPlayer::new(0);
    assert_eq!(p.volume(), 1);
    assert!(!p.pause());
    assert!(!p.is_paused());
    p.set_handle(true);
    assert!(p.pause());
    assert!(p.is_paused());
    assert!(p.unpause());
    assert!(!p.is_paused());
    assert!(p.set_volume(40));
    assert_eq!(p.volume(), 40);
    assert!(p.stop());
    p.clear();
    assert!(!p.stop());
    assert!(p.currently.is_none());
}

#[test]
fn toggling_twice_restores_the_controls() {
    let mut p = MediaPlayer::new(0);
    p.set_handle(true);
    let before = p.controls;
    assert_eq!(handle_media_toggle(&mut p), HandleAction::Pause);
    assert!(p.is_paused());
    assert_eq!(handle_media_toggle(&mut p), HandleAction::Resume);
    assert_eq!(p.controls, before);
    let mut idle = MediaPlayer::new(0);
    assert_eq!(handle_media_toggle(&mut idle), HandleAction::Nothing);
    assert!(!idle.is_paused());
}

#[test]
fn pause_button_pauses_a_playing_player() {
    let mut p = MediaPlayer::new(0);
    p.set_handle(true);
    assert!(handle_media_pause(&mut p));
    assert!(!handle_media_pause(&mut p));
    assert!(p.is_paused());
}

#[test]
fn loop_and_mix_exclude_each_other() {
    let mut p = MediaPlayer::new(0);
    handle_media_loop(&mut p);
    assert!(p.is_looped() && !p.is_rnged());
    handle_media_mix(&mut p);
    assert!(p.is_rnged() && !p.is_looped());
    handle_media_loop(&mut p);
    assert!(p.is_looped() && !p.is_rnged());
    let before = p.controls;
    handle_media_loop(&mut p);
    handle_media_loop(&mut p);
    assert_eq!(p.controls, before);
    p.set_queue_rng(true);
    assert!(!p.is_looped());
    p.set_queue_loop(true);
    assert!(!p.is_rnged());
}

#[test]
fn next_and_previous_look_tracks_up() {
    let mut s = state_with(vec![track(1, "a", 1, false), track(2, "b", 1, false)], vec![1, 2, 9]);
    s.trash_queue = vec![QueueItem { media_id: 1 }, QueueItem { media_id: 2 }];
    let mut p = MediaPlayer::new(0);
    assert_eq!(p.next(&mut s).unwrap().id, 1);
    assert_eq!(queued(&s.queue), vec![2, 9]);
    assert_eq!(p.previous(&s).unwrap().id, 2);
    assert_eq!(p.next(&mut s).unwrap().id, 2);
    assert!(p.next(&mut s).is_none());
    assert_eq!(queued(&s.queue), vec![9]);
    s.trash_queue.truncate(1);
    assert!(p.previous(&s).is_none());
}

#[test]
fn media_change_moves_on_for_small_steps() {
    let mut s = state_with(vec![track(1, "a", 1, false)], vec![1, 1, 1]);
    let mut p = MediaPlayer::new(0);
    assert_eq!(handle_media_change(&mut p, &mut s, (3, 2)).unwrap().id, 1);
    assert_eq!(s.queue.len(), 2);
    assert!(handle_media_change(&mut p, &mut s, (5, 2)).is_none());
    assert_eq!(s.queue.len(), 2);
    assert_eq!(handle_media_change(&mut p, &mut s, (1, 4)).unwrap().id, 1);
    assert_eq!(s.queue.len(), 1);
}

#[test]
fn controller_starts_a_track() {
    let mut c = QMediaController {
        state: state_with(vec![track(1, "a", 1, false), track(2, "b", 1, false)], vec![2]),
        player: MediaPlayer::new(0),
    };
    assert_eq!(c.handle_media_start(2), Some(false));
    assert!(c.state.index[1].playing);
    // Starting a track does not queue it.
    assert_eq!(queued(&c.state.queue), vec![2]);
    assert_eq!(c.state.timeline.media_index, Some(1));
    assert_eq!(c.state.timeline.queue_index, Some(0));
    // An unknown id clears every playing flag and changes nothing else.
    assert_eq!(c.handle_media_start(7), None);
    assert!(c.state.index.iter().all(|t| !t.playing));
    assert_eq!(c.state.timeline.media_index, Some(1));
    // A track that is not queued keeps the queue position as it was.
    assert_eq!(c.handle_media_start(1), Some(false));
    assert!(c.state.index[0].playing && !c.state.index[1].playing);
    assert_eq!(c.state.timeline.media_index, Some(0));
    assert_eq!(c.state.timeline.queue_index, Some(0));
    // The controller's volume change leaves the state as it is.
    assert!(!c.handle_media_change_volume(30));
    assert_eq!(c.player.volume(), 30);
    assert_eq!(c.state.volume, 0);
    assert_eq!(c.handle_media_toggle(), HandleAction::Nothing);
    c.handle_media_mix();
    assert!(c.player.is_rnged());
    assert_eq!(queued(&c.state.queue), vec![2]);
    c.state.playlists = vec![playlist(4, "p", None)];
    assert!(c.handle_add_to_playlist(4, 2, Some(12)));
    assert_eq!(c.state.playlists[0].tracks.as_ref().unwrap()[0].added_at, "12");
}

// ---------------------------------------------------------------------------
// The sink and the store
// ---------------------------------------------------------------------------

#[test]
fn sink_counts_sounds_and_skips() {
    let mut s = Sink::new();
    assert!(s.empty());
    assert!(!s.append());
    assert!(!s.append());
    assert_eq!(s.len(), 2);
    s.skip_one();
    s.skip_one();
    s.skip_one();
    assert_eq!(s.to_clear, 2);
    let t = s.periodic_access();
    assert!(t.skip && t.reset_position && !t.stop);
    assert_eq!(s.to_clear, 1);
    s.clear();
    assert_eq!(s.to_clear, 2);
    s.stop();
    assert!(s.periodic_access().stop);
    assert!(s.append());
    assert!(!s.stopped);
    s.sound_done();
    assert_eq!(s.len(), 2);
    assert!(s.drop_stops());
    s.detach();
    assert!(!s.drop_stops());
    s.pause();
    assert!(s.is_paused());
    s.play();
    assert!(!s.is_paused());
}

#[test]
fn store_opening_recovers_from_missing_file_only() {
    assert!(is_recoverable(Some(OpenErrorCode::NotFound)));
    assert!(is_recoverable(Some(OpenErrorCode::CannotOpen)));
    assert!(!is_recoverable(Some(OpenErrorCode::Other)));
    assert!(!is_recoverable(None));
    let q = initialization_queries();
    assert_eq!(q.len(), 8);
    assert_eq!(q[0], "PRAGMA foreign_keys = ON;");
    assert!(q[1].starts_with("CREATE TABLE IF NOT EXISTS playlists"));
}

#[test]
fn controller_moves_the_playing_position() {
    let mut c = QMediaController {
        state: state_with(vec![track(1, "a", 1, true), track(2, "b", 1, false), track(3, "c", 1, false)], vec![1, 2, 3]),
        player: MediaPlayer::new(0),
    };
    c.state.timeline.queue_index = Some(0);
    // The move from entry 0 to entry 1 is no step back, so the player moves on to
    // the head of the queue.
    let next = c.handle_media_change(1).unwrap();
    assert_eq!(next.id, 1);
    assert_eq!(queued(&c.state.queue), vec![2, 3]);
    assert!(!c.state.index[0].playing);
    assert!(c.state.index[1].playing);
    assert_eq!(c.state.timeline.queue_index, Some(1));
    // A move past the end of the queue lands on nothing.
    assert!(c.handle_media_change(4).is_none());
    assert_eq!(queued(&c.state.queue), vec![2, 3]);
}

#[test]
fn shuffle_with_picks_swaps_from_the_back() {
    let mut s = state_with(vec![], vec![1, 2, 3, 4]);
    s.shuffle_with(&vec![0, 0, 0]);
    assert_eq!(queued(&s.queue), vec![2, 3, 4, 1]);
    let mut same = state_with(vec![], vec![1, 2, 3, 4]);
    same.shuffle_with(&vec![3, 2, 1]);
    assert_eq!(queued(&same.queue), vec![1, 2, 3, 4]);
    let mut one = state_with(vec![], vec![7]);
    one.shuffle_with(&vec![]);
    assert_eq!(queued(&one.queue), vec![7]);
}

#[test]
fn new_playlists_are_numbered() {
    let p = new_playlist(Some(2));
    assert_eq!(p.name, "Playlist 3");
    assert_eq!(p.list_type, "playlist");
    assert!(p.tracks.is_none() && p.sources.is_none() && p.artist.is_none());
    assert_eq!(new_playlist(None).name, "Playlist 0");
    let mut s = State::new();
    assert!(!s.add_new_playlist(new_playlist(Some(0)), false));
    assert!(s.playlists.is_empty());
    assert!(s.add_new_playlist(new_playlist(Some(0)), true));
    assert_eq!(s.playlists[0].name, "Playlist 1");
}

#[test]
fn loop_and_mix_stay_apart_through_any_presses() {
    let mut p = MediaPlayer::new(0);
    p.set_handle(true);
    for step in 0..20 {
        match step % 5 {
            0 => handle_media_loop(&mut p),
            1 => handle_media_mix(&mut p),
            2 => {
                handle_media_toggle(&mut p);
            },
            3 => p.set_queue_loop(step % 2 == 0),
            _ => p.set_queue_rng(true),
        }
        assert!(!(p.is_looped() && p.is_rnged()));
    }
}
