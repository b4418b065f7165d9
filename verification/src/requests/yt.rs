//! The YouTube Data API client's logic: the query parameters of each request and
//! what the replies become. The HTTP exchange itself is the caller's.
use crate::text::{
    join_with, parse_u64, push_char, push_str, spec_parse_u64, string_from, views,
};
use vstd::prelude::*;

verus! {

/// The search endpoint.
pub const SEARCH_ENDPOINT: &'static str = "https://www.googleapis.com/youtube/v3/search";

/// The playlists endpoint.
pub const PLAYLISTS_ENDPOINT: &'static str = "https://www.googleapis.com/youtube/v3/playlists";

/// The channels endpoint.
pub const CHANNELS_ENDPOINT: &'static str = "https://www.googleapis.com/youtube/v3/channels";

/// The category id of music videos.
pub const MUSIC_CATEGORY_ID: &'static str = "10";

// ---------------------------------------------------------------------------
// Results
// ---------------------------------------------------------------------------

/// A music video found by a search.
pub struct MusicVideo {
    pub video_id: String,
    pub title: String,
    pub channel_title: String,
    pub description: String,
    pub published_at: String,
    pub thumbnail_url: Option<String>,
}

/// A playlist found by a search.
pub struct PlaylistSearchResult {
    pub playlist_id: String,
    pub title: String,
    pub channel_title: String,
    pub description: String,
    pub published_at: String,
    pub thumbnail_url: Option<String>,
}

/// A playlist with its details.
pub struct Playlist {
    pub playlist_id: String,
    pub title: String,
    pub channel_title: String,
    pub description: String,
    pub published_at: String,
    pub thumbnail_url: Option<String>,
    pub item_count: Option<u32>,
    pub privacy_status: Option<String>,
}

/// A channel found by a search.
pub struct ChannelSearchResult {
    pub channel_id: String,
    pub title: String,
    pub description: String,
    pub published_at: String,
    pub thumbnail_url: Option<String>,
}

/// A channel with its details.
pub struct Channel {
    pub channel_id: String,
    pub title: String,
    pub description: String,
    pub custom_url: Option<String>,
    pub country: Option<String>,
    pub published_at: String,
    pub thumbnail_url: Option<String>,
    pub subscriber_count: Option<u64>,
    pub hidden_subscriber_count: Option<bool>,
    pub video_count: Option<u64>,
    pub view_count: Option<u64>,
    pub uploads_playlist_id: Option<String>,
}

/// What a search gives, by kind.
pub enum SearchResults {
    Videos(Vec<MusicVideo>),
    Playlists(Vec<PlaylistSearchResult>),
    PlaylistsDetailed(Vec<Playlist>),
    Channels(Vec<ChannelSearchResult>),
    ChannelsDetailed(Vec<Channel>),
    Channel(Option<Channel>),
}

/// A failed request: the HTTP exchange failed (with its message), or the API
/// answered with an error status.
#[derive(Debug)]
pub enum YouTubeApiError {
    Http(String),
    Api { status: u16, message: String },
}

// ---------------------------------------------------------------------------
// Replies
// ---------------------------------------------------------------------------

/// The error body of a reply.
pub struct ApiErrorBody {
    pub code: u16,
    pub message: String,
}

/// A thumbnail of a reply.
pub struct Thumbnail {
    pub url: String,
}

/// The thumbnails of a reply item, by size.
pub struct Thumbnails {
    pub default: Option<Thumbnail>,
    pub medium: Option<Thumbnail>,
    pub high: Option<Thumbnail>,
}

/// What a search reply item points at.
pub struct SearchResultId {
    pub video_id: Option<String>,
    pub playlist_id: Option<String>,
    pub channel_id: Option<String>,
}

/// The snippet of a search reply item.
pub struct SearchResultSnippet {
    pub title: String,
    pub description: String,
    pub channel_title: String,
    pub published_at: String,
    pub thumbnails: Thumbnails,
}

/// An item of a search reply.
pub struct SearchResultItem {
    pub id: SearchResultId,
    pub snippet: SearchResultSnippet,
}

/// A search reply.
pub struct SearchListResponse {
    pub items: Vec<SearchResultItem>,
    pub next_page_token: Option<String>,
    pub error: Option<ApiErrorBody>,
}

/// The snippet of a playlist resource.
pub struct PlaylistSnippet {
    pub title: String,
    pub description: String,
    pub channel_title: String,
    pub published_at: String,
    pub thumbnails: Thumbnails,
}

/// The content details of a playlist resource.
pub struct PlaylistContentDetails {
    pub item_count: u32,
}

/// The status of a playlist resource.
pub struct PlaylistStatus {
    pub privacy_status: String,
}

/// A playlist resource of a reply.
pub struct PlaylistResource {
    pub id: String,
    pub snippet: PlaylistSnippet,
    pub content_details: Option<PlaylistContentDetails>,
    pub status: Option<PlaylistStatus>,
}

/// A playlists reply.
pub struct PlaylistListResponse {
    pub items: Vec<PlaylistResource>,
    pub error: Option<ApiErrorBody>,
}

/// The snippet of a channel resource.
pub struct ChannelSnippet {
    pub title: String,
    pub description: String,
    pub custom_url: Option<String>,
    pub published_at: String,
    pub thumbnails: Thumbnails,
    pub country: Option<String>,
}

/// The statistics of a channel resource; the counts come as decimal text.
pub struct ChannelStatistics {
    pub view_count: Option<String>,
    pub subscriber_count: Option<String>,
    pub hidden_subscriber_count: Option<bool>,
    pub video_count: Option<String>,
}

/// The related playlists of a channel.
pub struct RelatedPlaylists {
    pub uploads: Option<String>,
}

/// The content details of a channel resource.
pub struct ChannelContentDetails {
    pub related_playlists: Option<RelatedPlaylists>,
}

/// A channel resource of a reply.
pub struct ChannelResource {
    pub id: String,
    pub snippet: ChannelSnippet,
    pub statistics: Option<ChannelStatistics>,
    pub content_details: Option<ChannelContentDetails>,
}

/// A channels reply.
pub struct ChannelListResponse {
    pub items: Vec<ChannelResource>,
    pub error: Option<ApiErrorBody>,
}

// ---------------------------------------------------------------------------
// Reply processing
// ---------------------------------------------------------------------------

/// The url of the largest thumbnail there is: high, then medium, then default.
pub open spec fn thumb_of(t: Thumbnails) -> Option<String> {
    match t.high {
        Some(h) => Some(h.url),
        None => match t.medium {
            Some(m) => Some(m.url),
            None => match t.default {
                Some(d) => Some(d.url),
                None => None,
            },
        },
    }
}

fn clone_opt(o: &Option<String>) -> (r: Option<String>)
    ensures
        r == *o,
{
    match o {
        Some(s) => Some(s.clone()),
        None => None,
    }
}

/// The url of the largest thumbnail there is: high, then medium, then default.
pub fn pick_thumbnail(t: &Thumbnails) -> (r: Option<String>)
    ensures
        r == thumb_of(*t),
{
    match &t.high {
        Some(h) => Some(h.url.clone()),
        None => match &t.medium {
            Some(m) => Some(m.url.clone()),
            None => match &t.default {
                Some(d) => Some(d.url.clone()),
                None => None,
            },
        },
    }
}

/// The outcome of a reply: its error body when it has one, else an error with the
/// status when the status is no success, else success.
pub fn check_reply(error: Option<ApiErrorBody>, status: u16, success: bool) -> (r: Result<(), YouTubeApiError>)
    ensures
        match error {
            Some(e) => r matches Err(YouTubeApiError::Api { status: s, message: m }) && s == e.code
                && m == e.message,
            None => if success {
                r is Ok
            } else {
                r matches Err(YouTubeApiError::Api { status: s, message: m }) && s == status && m@
                    == "request failed with no error body"@
            },
        },
{
    if let Some(err) = error {
        return Err(YouTubeApiError::Api { status: err.code, message: err.message });
    }
    if !success {
        return Err(
            YouTubeApiError::Api {
                status: status,
                message: string_from("request failed with no error body"),
            },
        );
    }
    Ok(())
}

/// The positions of the items that point at a video, in order.
pub open spec fn video_positions(items: Seq<SearchResultItem>) -> Seq<int>
    decreases items.len(),
{
    if items.len() == 0 {
        Seq::empty()
    } else if items.last().id.video_id is Some {
        video_positions(items.drop_last()).push(items.len() - 1)
    } else {
        video_positions(items.drop_last())
    }
}

/// The positions of the items that point at a playlist, in order.
pub open spec fn playlist_positions(items: Seq<SearchResultItem>) -> Seq<int>
    decreases items.len(),
{
    if items.len() == 0 {
        Seq::empty()
    } else if items.last().id.playlist_id is Some {
        playlist_positions(items.drop_last()).push(items.len() - 1)
    } else {
        playlist_positions(items.drop_last())
    }
}

/// The positions of the items that point at a channel, in order.
pub open spec fn channel_positions(items: Seq<SearchResultItem>) -> Seq<int>
    decreases items.len(),
{
    if items.len() == 0 {
        Seq::empty()
    } else if items.last().id.channel_id is Some {
        channel_positions(items.drop_last()).push(items.len() - 1)
    } else {
        channel_positions(items.drop_last())
    }
}

/// The video is what the item makes.
pub open spec fn video_of(v: MusicVideo, item: SearchResultItem) -> bool {
    &&& item.id.video_id == Some(v.video_id)
    &&& v.title == item.snippet.title
    &&& v.channel_title == item.snippet.channel_title
    &&& v.description == item.snippet.description
    &&& v.published_at == item.snippet.published_at
    &&& v.thumbnail_url == thumb_of(item.snippet.thumbnails)
}

/// The playlist is what the item makes.
pub open spec fn playlist_result_of(p: PlaylistSearchResult, item: SearchResultItem) -> bool {
    &&& item.id.playlist_id == Some(p.playlist_id)
    &&& p.title == item.snippet.title
    &&& p.channel_title == item.snippet.channel_title
    &&& p.description == item.snippet.description
    &&& p.published_at == item.snippet.published_at
    &&& p.thumbnail_url == thumb_of(item.snippet.thumbnails)
}

/// The channel is what the item makes.
pub open spec fn channel_result_of(c: ChannelSearchResult, item: SearchResultItem) -> bool {
    &&& item.id.channel_id == Some(c.channel_id)
    &&& c.title == item.snippet.title
    &&& c.description == item.snippet.description
    &&& c.published_at == item.snippet.published_at
    &&& c.thumbnail_url == thumb_of(item.snippet.thumbnails)
}

/// The music videos of a search reply: one for each item that points at a video, in order.
pub fn videos_from_search(items: &Vec<SearchResultItem>) -> (r: Vec<MusicVideo>)
    ensures
        r@.len() == video_positions(items@).len(),
        forall|k: int|
            0 <= k < r@.len() ==> video_of(#[trigger] r@[k], items@[video_positions(items@)[k]]),
{
    let mut out: Vec<MusicVideo> = Vec::new();
    let mut i: usize = 0;
    while i < items.len()
        invariant
            i <= items@.len(),
            out@.len() == video_positions(items@.subrange(0, i as int)).len(),
            forall|k: int|
                0 <= k < out@.len() ==> video_of(
                    #[trigger] out@[k],
                    items@[video_positions(items@.subrange(0, i as int))[k]],
                ),
            forall|k: int|
                0 <= k < video_positions(items@.subrange(0, i as int)).len() ==> 0
                    <= #[trigger] video_positions(items@.subrange(0, i as int))[k] < i,
        decreases items@.len() - i,
    {
        let ghost pre = items@.subrange(0, i as int);
        let ghost next = items@.subrange(0, i + 1);
        assert(next.drop_last() =~= pre);
        let item = &items[i];
        match &item.id.video_id {
            Some(video_id) => {
                out.push(
                    MusicVideo {
                        video_id: video_id.clone(),
                        title: item.snippet.title.clone(),
                        channel_title: item.snippet.channel_title.clone(),
                        description: item.snippet.description.clone(),
                        published_at: item.snippet.published_at.clone(),
                        thumbnail_url: pick_thumbnail(&item.snippet.thumbnails),
                    },
                );
            },
            None => {},
        }
        i = i + 1;
    }
    assert(items@.subrange(0, items@.len() as int) =~= items@);
    out
}

/// The playlists of a search reply: one for each item that points at a playlist, in order.
pub fn playlists_from_search(items: &Vec<SearchResultItem>) -> (r: Vec<PlaylistSearchResult>)
    ensures
        r@.len() == playlist_positions(items@).len(),
        forall|k: int|
            0 <= k < r@.len() ==> playlist_result_of(
                #[trigger] r@[k],
                items@[playlist_positions(items@)[k]],
            ),
{
    let mut out: Vec<PlaylistSearchResult> = Vec::new();
    let mut i: usize = 0;
    while i < items.len()
        invariant
            i <= items@.len(),
            out@.len() == playlist_positions(items@.subrange(0, i as int)).len(),
            forall|k: int|
                0 <= k < out@.len() ==> playlist_result_of(
                    #[trigger] out@[k],
                    items@[playlist_positions(items@.subrange(0, i as int))[k]],
                ),
            forall|k: int|
                0 <= k < playlist_positions(items@.subrange(0, i as int)).len() ==> 0
                    <= #[trigger] playlist_positions(items@.subrange(0, i as int))[k] < i,
        decreases items@.len() - i,
    {
        let ghost pre = items@.subrange(0, i as int);
        let ghost next = items@.subrange(0, i + 1);
        assert(next.drop_last() =~= pre);
        let item = &items[i];
        match &item.id.playlist_id {
            Some(playlist_id) => {
                out.push(
                    PlaylistSearchResult {
                        playlist_id: playlist_id.clone(),
                        title: item.snippet.title.clone(),
                        channel_title: item.snippet.channel_title.clone(),
                        description: item.snippet.description.clone(),
                        published_at: item.snippet.published_at.clone(),
                        thumbnail_url: pick_thumbnail(&item.snippet.thumbnails),
                    },
                );
            },
            None => {},
        }
        i = i + 1;
    }
    assert(items@.subrange(0, items@.len() as int) =~= items@);
    out
}

/// The channels of a search reply: one for each item that points at a channel, in order.
pub fn channels_from_search(items: &Vec<SearchResultItem>) -> (r: Vec<ChannelSearchResult>)
    ensures
        r@.len() == channel_positions(items@).len(),
        forall|k: int|
            0 <= k < r@.len() ==> channel_result_of(
                #[trigger] r@[k],
                items@[channel_positions(items@)[k]],
            ),
{
    let mut out: Vec<ChannelSearchResult> = Vec::new();
    let mut i: usize = 0;
    while i < items.len()
        invariant
            i <= items@.len(),
            out@.len() == channel_positions(items@.subrange(0, i as int)).len(),
            forall|k: int|
                0 <= k < out@.len() ==> channel_result_of(
                    #[trigger] out@[k],
                    items@[channel_positions(items@.subrange(0, i as int))[k]],
                ),
            forall|k: int|
                0 <= k < channel_positions(items@.subrange(0, i as int)).len() ==> 0
                    <= #[trigger] channel_positions(items@.subrange(0, i as int))[k] < i,
        decreases items@.len() - i,
    {
        let ghost pre = items@.subrange(0, i as int);
        let ghost next = items@.subrange(0, i + 1);
        assert(next.drop_last() =~= pre);
        let item = &items[i];
        match &item.id.channel_id {
            Some(channel_id) => {
                out.push(
                    ChannelSearchResult {
                        channel_id: channel_id.clone(),
                        title: item.snippet.title.clone(),
                        description: item.snippet.description.clone(),
                        published_at: item.snippet.published_at.clone(),
                        thumbnail_url: pick_thumbnail(&item.snippet.thumbnails),
                    },
                );
            },
            None => {},
        }
        i = i + 1;
    }
    assert(items@.subrange(0, items@.len() as int) =~= items@);
    out
}

/// The playlist is what the resource makes.
pub open spec fn playlist_of(p: Playlist, r: PlaylistResource) -> bool {
    &&& p.playlist_id == r.id
    &&& p.title == r.snippet.title
    &&& p.channel_title == r.snippet.channel_title
    &&& p.description == r.snippet.description
    &&& p.published_at == r.snippet.published_at
    &&& p.thumbnail_url == thumb_of(r.snippet.thumbnails)
    &&& p.item_count == (match r.content_details {
        Some(c) => Some(c.item_count),
        None => None,
    })
    &&& p.privacy_status == (match r.status {
        Some(s) => Some(s.privacy_status),
        None => None,
    })
}

/// The playlists of a playlists reply, one for each resource, in order.
pub fn playlists_from_resources(items: &Vec<PlaylistResource>) -> (r: Vec<Playlist>)
    ensures
        r@.len() == items@.len(),
        forall|k: int| 0 <= k < r@.len() ==> playlist_of(#[trigger] r@[k], items@[k]),
        forall|k: int|
            0 <= k < r@.len() ==> {
                &&& (#[trigger] r@[k]).playlist_id == items@[k].id
                &&& r@[k].title == items@[k].snippet.title
                &&& r@[k].channel_title == items@[k].snippet.channel_title
                &&& r@[k].description == items@[k].snippet.description
                &&& r@[k].published_at == items@[k].snippet.published_at
            },
{
    let mut out: Vec<Playlist> = Vec::new();
    let mut i: usize = 0;
    while i < items.len()
        invariant
            i <= items@.len(),
            out@.len() == i,
            forall|k: int| 0 <= k < i ==> playlist_of(#[trigger] out@[k], items@[k]),
        decreases items@.len() - i,
    {
        let item = &items[i];
        let item_count = match &item.content_details {
            Some(c) => Some(c.item_count),
            None => None,
        };
        let privacy_status = match &item.status {
            Some(s) => Some(s.privacy_status.clone()),
            None => None,
        };
        out.push(
            Playlist {
                playlist_id: item.id.clone(),
                title: item.snippet.title.clone(),
                channel_title: item.snippet.channel_title.clone(),
                description: item.snippet.description.clone(),
                published_at: item.snippet.published_at.clone(),
                thumbnail_url: pick_thumbnail(&item.snippet.thumbnails),
                item_count,
                privacy_status,
            },
        );
        i = i + 1;
    }
    out
}

/// A count of the statistics: the decimal text parsed, `None` when it is missing or
/// no number.
pub open spec fn count_of(text: Option<String>) -> Option<u64> {
    match text {
        Some(t) => spec_parse_u64(t@),
        None => None,
    }
}

/// Parses an optional count text.
pub fn parse_count(text: &Option<String>) -> (r: Option<u64>)
    ensures
        r == count_of(*text),
{
    match text {
        Some(t) => parse_u64(t.as_str()),
        None => None,
    }
}

/// The channel is what the resource makes.
pub open spec fn channel_of(c: Channel, r: ChannelResource) -> bool {
    &&& c.channel_id == r.id
    &&& c.title == r.snippet.title
    &&& c.description == r.snippet.description
    &&& c.custom_url == r.snippet.custom_url
    &&& c.country == r.snippet.country
    &&& c.published_at == r.snippet.published_at
    &&& c.thumbnail_url == thumb_of(r.snippet.thumbnails)
    &&& c.subscriber_count == (match r.statistics {
        Some(s) => count_of(s.subscriber_count),
        None => None,
    })
    &&& c.hidden_subscriber_count == (match r.statistics {
        Some(s) => s.hidden_subscriber_count,
        None => None,
    })
    &&& c.video_count == (match r.statistics {
        Some(s) => count_of(s.video_count),
        None => None,
    })
    &&& c.view_count == (match r.statistics {
        Some(s) => count_of(s.view_count),
        None => None,
    })
    &&& c.uploads_playlist_id == (match r.content_details {
        Some(d) => match d.related_playlists {
            Some(p) => p.uploads,
            None => None,
        },
        None => None,
    })
}

/// The channel a channel resource makes.
pub fn channel_from_resource(item: &ChannelResource) -> (r: Channel)
    ensures
        channel_of(r, *item),
{
    let (subscriber_count, hidden_subscriber_count, video_count, view_count) = match &item.statistics {
        Some(s) => (
            parse_count(&s.subscriber_count),
            s.hidden_subscriber_count,
            parse_count(&s.video_count),
            parse_count(&s.view_count),
        ),
        None => (None, None, None, None),
    };
    let uploads_playlist_id = match &item.content_details {
        Some(d) => match &d.related_playlists {
            Some(p) => clone_opt(&p.uploads),
            None => None,
        },
        None => None,
    };
    Channel {
        channel_id: item.id.clone(),
        title: item.snippet.title.clone(),
        description: item.snippet.description.clone(),
        custom_url: clone_opt(&item.snippet.custom_url),
        country: clone_opt(&item.snippet.country),
        published_at: item.snippet.published_at.clone(),
        thumbnail_url: pick_thumbnail(&item.snippet.thumbnails),
        subscriber_count,
        hidden_subscriber_count,
        video_count,
        view_count,
        uploads_playlist_id,
    }
}

/// The channels of a channels reply, one for each resource, in order.
pub fn channels_from_resources(items: &Vec<ChannelResource>) -> (r: Vec<Channel>)
    ensures
        r@.len() == items@.len(),
        forall|k: int| 0 <= k < r@.len() ==> channel_of(#[trigger] r@[k], items@[k]),
{
    let mut out: Vec<Channel> = Vec::new();
    let mut i: usize = 0;
    while i < items.len()
        invariant
            i <= items@.len(),
            out@.len() == i,
            forall|k: int| 0 <= k < i ==> channel_of(#[trigger] out@[k], items@[k]),
        decreases items@.len() - i,
    {
        out.push(channel_from_resource(&items[i]));
        i = i + 1;
    }
    out
}

/// The channel a handle lookup gives: the first of the reply's channels, if any.
pub fn first_channel(mut results: Vec<Channel>) -> (r: Option<Channel>)
    ensures
        results@.len() == 0 ==> r is None,
        results@.len() > 0 ==> r == Some(results@[0]),
{
    if results.len() == 0 {
        None
    } else {
        Some(results.remove(0))
    }
}

// ---------------------------------------------------------------------------
// Request parameters
// ---------------------------------------------------------------------------

/// The views of a list of `(name, value)` parameters.
pub open spec fn pair_views(s: Seq<(String, String)>) -> Seq<(Seq<char>, Seq<char>)> {
    s.map_values(|p: (String, String)| (p.0@, p.1@))
}

/// The query a parameter list stands for: a later entry of a name replaces an
/// earlier one, as inserting into a map in order does.
pub open spec fn params_map(s: Seq<(Seq<char>, Seq<char>)>) -> Map<Seq<char>, Seq<char>>
    decreases s.len(),
{
    if s.len() == 0 {
        Map::empty()
    } else {
        params_map(s.drop_last()).insert(s.last().0, s.last().1)
    }
}

fn pair(k: &str, v: &str) -> (r: (String, String))
    ensures
        r.0@ == k@,
        r.1@ == v@,
{
    (string_from(k), string_from(v))
}

fn append_pairs(out: &mut Vec<(String, String)>, extra: Option<Vec<(String, String)>>)
    ensures
        pair_views(final(out)@) == pair_views(old(out)@) + (match extra {
            Some(e) => pair_views(e@),
            None => Seq::empty(),
        }),
{
    match extra {
        Some(mut e) => {
            let ghost o = out@;
            let ghost ev = e@;
            out.append(&mut e);
            assert(pair_views(out@) =~= pair_views(o) + pair_views(ev));
        },
        None => {
            assert(pair_views(out@) =~= pair_views(out@) + Seq::<(Seq<char>, Seq<char>)>::empty());
        },
    }
}

/// What a search request looks for.
#[derive(Clone, Copy, PartialEq, Eq, Debug)]
pub enum SearchKind {
    Video,
    Playlist,
    Channel,
}

/// The view of the optional extra parameters.
pub open spec fn extra_views(extra: Option<Vec<(String, String)>>) -> Seq<(Seq<char>, Seq<char>)> {
    match extra {
        Some(e) => pair_views(e@),
        None => Seq::empty(),
    }
}

/// The parameters of a search: the snippet part, the query, the kind (music videos
/// in the music category), 25 results, the key, then the extra parameters, which
/// replace same-named ones.
pub open spec fn search_params_spec(kind: SearchKind, query: Seq<char>, api_key: Seq<char>) -> Seq<(Seq<char>, Seq<char>)> {
    match kind {
        SearchKind::Video => seq![
            ("part"@, "snippet"@),
            ("q"@, query),
            ("type"@, "video"@),
            ("videoCategoryId"@, MUSIC_CATEGORY_ID@),
            ("maxResults"@, "25"@),
            ("key"@, api_key),
        ],
        SearchKind::Playlist => seq![
            ("part"@, "snippet"@),
            ("q"@, query),
            ("type"@, "playlist"@),
            ("maxResults"@, "25"@),
            ("key"@, api_key),
        ],
        SearchKind::Channel => seq![
            ("part"@, "snippet"@),
            ("q"@, query),
            ("type"@, "channel"@),
            ("maxResults"@, "25"@),
            ("key"@, api_key),
        ],
    }
}

/// The query parameters of a search request (see [`search_params_spec`]).
pub fn search_params(
    kind: SearchKind,
    query: &str,
    api_key: &String,
    extra: Option<Vec<(String, String)>>,
) -> (r: Vec<(String, String)>)
    ensures
        pair_views(r@) == search_params_spec(kind, query@, api_key@) + extra_views(extra),
{
    let mut params: Vec<(String, String)> = Vec::new();
    params.push(pair("part", "snippet"));
    params.push((string_from("q"), string_from(query)));
    match kind {
        SearchKind::Video => {
            params.push(pair("type", "video"));
            params.push(pair("videoCategoryId", MUSIC_CATEGORY_ID));
        },
        SearchKind::Playlist => {
            params.push(pair("type", "playlist"));
        },
        SearchKind::Channel => {
            params.push(pair("type", "channel"));
        },
    }
    params.push(pair("maxResults", "25"));
    params.push((string_from("key"), api_key.clone()));
    assert(pair_views(params@) =~= search_params_spec(kind, query@, api_key@));
    append_pairs(&mut params, extra);
    params
}

/// The ids joined with `,` between neighbours.
pub fn join_ids(ids: &Vec<String>) -> (r: String)
    ensures
        r@ == join_with(views(ids@), seq![',']),
{
    let ghost vs = views(ids@);
    let mut s = String::new();
    let mut i: usize = 0;
    while i < ids.len()
        invariant
            i <= ids@.len(),
            vs == views(ids@),
            s@ == join_with(vs.take(i as int), seq![',']),
        decreases ids@.len() - i,
    {
        if i > 0 {
            push_char(&mut s, ',');
        }
        push_str(&mut s, ids[i].as_str());
        proof {
            assert(vs.take(i + 1).drop_last() =~= vs.take(i as int));
            assert(vs[i as int] == ids@[i as int]@);
            if i == 0 {
                assert(vs.take(1) =~= seq![vs[0]]);
            }
        }
        i = i + 1;
    }
    assert(vs.take(ids@.len() as int) =~= vs);
    s
}

/// The parameters of a playlists request: snippet, content details and status of
/// the listed ids (joined with `,`), 50 results, the key, then the extra parameters.
pub fn playlist_params(
    playlist_ids: &Vec<String>,
    api_key: &String,
    extra: Option<Vec<(String, String)>>,
) -> (r: Vec<(String, String)>)
    ensures
        pair_views(r@) == seq![
            ("part"@, "snippet,contentDetails,status"@),
            ("id"@, join_with(views(playlist_ids@), seq![','])),
            ("maxResults"@, "50"@),
            ("key"@, api_key@),
        ] + extra_views(extra),
{
    let mut params: Vec<(String, String)> = Vec::new();
    params.push(pair("part", "snippet,contentDetails,status"));
    params.push((string_from("id"), join_ids(playlist_ids)));
    params.push(pair("maxResults", "50"));
    params.push((string_from("key"), api_key.clone()));
    assert(pair_views(params@) =~= seq![
        ("part"@, "snippet,contentDetails,status"@),
        ("id"@, join_with(views(playlist_ids@), seq![','])),
        ("maxResults"@, "50"@),
        ("key"@, api_key@),
    ]);
    append_pairs(&mut params, extra);
    params
}

/// How a channels request selects channels: by ids, or by handle.
pub enum ChannelSelector {
    Ids(Vec<String>),
    Handle(String),
}

/// The parameters of a channels request: the selector (`id` with the ids joined with
/// `,`, or `forHandle`), snippet, statistics and content details, 50 results, the
/// key, then the extra parameters.
pub fn channel_params(
    selector: &ChannelSelector,
    api_key: &String,
    extra: Option<Vec<(String, String)>>,
) -> (r: Vec<(String, String)>)
    ensures
        pair_views(r@) == seq![
            match selector {
                ChannelSelector::Ids(ids) => ("id"@, join_with(views(ids@), seq![','])),
                ChannelSelector::Handle(h) => ("forHandle"@, h@),
            },
            ("part"@, "snippet,statistics,contentDetails"@),
            ("maxResults"@, "50"@),
            ("key"@, api_key@),
        ] + extra_views(extra),
{
    let mut params: Vec<(String, String)> = Vec::new();
    match selector {
        ChannelSelector::Ids(ids) => {
            params.push((string_from("id"), join_ids(ids)));
        },
        ChannelSelector::Handle(h) => {
            params.push((string_from("forHandle"), h.clone()));
        },
    }
    params.push(pair("part", "snippet,statistics,contentDetails"));
    params.push(pair("maxResults", "50"));
    params.push((string_from("key"), api_key.clone()));
    assert(pair_views(params@) =~= seq![
        match selector {
            ChannelSelector::Ids(ids) => ("id"@, join_with(views(ids@), seq![','])),
            ChannelSelector::Handle(h) => ("forHandle"@, h@),
        },
        ("part"@, "snippet,statistics,contentDetails"@),
        ("maxResults"@, "50"@),
        ("key"@, api_key@),
    ]);
    append_pairs(&mut params, extra);
    params
}

/// The playlist ids a detailed playlist search asks the playlists endpoint about: those
/// of the search results, in order; `None` when the search found nothing, so that no
/// second request is made.
pub fn playlist_ids_of(found: &Vec<PlaylistSearchResult>) -> (r: Option<Vec<String>>)
    ensures
        found@.len() == 0 <==> r is None,
        r matches Some(ids) ==> ids@.len() == found@.len() && forall|k: int|
            0 <= k < ids@.len() ==> #[trigger] ids@[k] == found@[k].playlist_id,
{
    if found.len() == 0 {
        return None;
    }
    let mut out: Vec<String> = Vec::new();
    let mut i: usize = 0;
    while i < found.len()
        invariant
            i <= found@.len(),
            out@.len() == i,
            forall|k: int| 0 <= k < i ==> #[trigger] out@[k] == found@[k].playlist_id,
        decreases found@.len() - i,
    {
        out.push(found[i].playlist_id.clone());
        i = i + 1;
    }
    Some(out)
}

/// The channel ids a detailed channel search asks the channels endpoint about: those
/// of the search results, in order; `None` when the search found nothing, so that no
/// second request is made.
pub fn channel_ids_of(found: &Vec<ChannelSearchResult>) -> (r: Option<Vec<String>>)
    ensures
        found@.len() == 0 <==> r is None,
        r matches Some(ids) ==> ids@.len() == found@.len() && forall|k: int|
            0 <= k < ids@.len() ==> #[trigger] ids@[k] == found@[k].channel_id,
{
    if found.len() == 0 {
        return None;
    }
    let mut out: Vec<String> = Vec::new();
    let mut i: usize = 0;
    while i < found.len()
        invariant
            i <= found@.len(),
            out@.len() == i,
            forall|k: int| 0 <= k < i ==> #[trigger] out@[k] == found@[k].channel_id,
        decreases found@.len() - i,
    {
        out.push(found[i].channel_id.clone());
        i = i + 1;
    }
    Some(out)
}

/// A search asks for the kind searched for, with the query and the key: the only
/// `type` parameter is `video`, `playlist` or `channel` for a video, playlist or
/// channel search, the only `q` parameter is the query and the only `key` parameter
/// the API key; only a video search names the music category.
pub proof fn law_search_params_ask_for_kind(kind: SearchKind, query: Seq<char>, api_key: Seq<char>)
    ensures
        ({
            let ps = search_params_spec(kind, query, api_key);
            let wanted = match kind {
                SearchKind::Video => "video"@,
                SearchKind::Playlist => "playlist"@,
                SearchKind::Channel => "channel"@,
            };
            &&& exists|i: int| 0 <= i < ps.len() && #[trigger] ps[i] == ("type"@, wanted)
            &&& forall|i: int| 0 <= i < ps.len() && ps[i].0 == "type"@ ==> #[trigger] ps[i].1 == wanted
            &&& forall|i: int| 0 <= i < ps.len() && ps[i].0 == "q"@ ==> #[trigger] ps[i].1 == query
            &&& forall|i: int| 0 <= i < ps.len() && ps[i].0 == "key"@ ==> #[trigger] ps[i].1 == api_key
            &&& (exists|i: int| 0 <= i < ps.len() && #[trigger] ps[i].0 == "videoCategoryId"@) <==> kind
                == SearchKind::Video
        }),
{
    reveal_strlit("part");
    reveal_strlit("q");
    reveal_strlit("type");
    reveal_strlit("videoCategoryId");
    reveal_strlit("maxResults");
    reveal_strlit("key");
    let ps = search_params_spec(kind, query, api_key);
    assert("part"@.len() == 4);
    assert("q"@.len() == 1);
    assert("type"@.len() == 4);
    assert("videoCategoryId"@.len() == 15);
    assert("maxResults"@.len() == 10);
    assert("key"@.len() == 3);
    assert("part"@[0] == 'p');
    assert("type"@[0] == 't');
    assert("part"@ != "type"@);
    assert("type"@ == ps[2].0);
    if kind == SearchKind::Video {
        assert(ps[3].0 == "videoCategoryId"@);
    }
}

/// A playlist read from a resource keeps the resource's own texts in their places:
/// its id, its title, its channel's title, its description and its publication time
/// are the resource's, field for field.
pub proof fn law_playlist_keeps_resource_texts(p: Playlist, r: PlaylistResource)
    requires
        playlist_of(p, r),
    ensures
        p.playlist_id == r.id,
        p.title == r.snippet.title,
        p.channel_title == r.snippet.channel_title,
        p.description == r.snippet.description,
        p.published_at == r.snippet.published_at,
        p.item_count == (match r.content_details {
            Some(c) => Some(c.item_count),
            None => None,
        }),
{
}

} // verus!
