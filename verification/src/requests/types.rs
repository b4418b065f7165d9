//! The shapes of YouTube Data API resources.
use vstd::prelude::*;

verus! {

/// The privacy of a playlist.
#[derive(Clone, Copy, PartialEq, Eq, Debug)]
pub enum PrivacyStatus {
    Public,
    Private,
    Unlisted,
    Unknown,
}

/// The podcast status of a playlist.
#[derive(Clone, Copy, PartialEq, Eq, Debug)]
pub enum PodcastStatus {
    Unspecified,
    Active,
    Inactive,
    Unknown,
}

/// A thumbnail image.
pub struct Thumbnail {
    pub url: String,
    pub width: u32,
    pub height: u32,
}

/// Localised title and description.
pub struct Localized {
    pub title: String,
    pub description: String,
}

/// The snippet of a playlist; thumbnails are listed by size name.
pub struct Snippet {
    pub published_at: String,
    pub channel_id: String,
    pub title: String,
    pub description: String,
    pub thumbnails: Vec<(String, Thumbnail)>,
    pub channel_title: String,
    pub default_language: Option<String>,
    pub localized: Option<Localized>,
}

/// The status of a playlist.
pub struct Status {
    pub privacy_status: String,
    pub podcast_status: Option<PodcastStatus>,
}

/// The content details of a playlist.
pub struct ContentDetails {
    pub item_count: u32,
}

/// The embedded player of a playlist.
pub struct Player {
    pub embed_html: String,
}

/// A translation of title and description.
pub struct Localization {
    pub title: String,
    pub description: String,
}

/// What a search result points at.
pub struct SearchResultId {
    pub kind: String,
    pub video_id: Option<String>,
    pub channel_id: Option<String>,
    pub playlist_id: Option<String>,
}

/// The snippet of a search result; thumbnails are listed by size name.
pub struct SearchResultSnippet {
    pub published_at: String,
    pub channel_id: String,
    pub title: String,
    pub description: String,
    pub thumbnails: Vec<(String, Thumbnail)>,
    pub channel_title: String,
    pub live_broadcast_content: String,
}

/// A playlist resource; localizations are listed by language.
pub struct YouTubePlaylist {
    pub kind: String,
    pub etag: String,
    pub id: String,
    pub snippet: Snippet,
    pub status: Status,
    pub content_details: ContentDetails,
    pub player: Player,
    pub localizations: Option<Vec<(String, Localization)>>,
}

/// A search result resource.
pub struct YouTubeSearchResult {
    pub kind: String,
    pub etag: String,
    pub id: SearchResultId,
    pub snippet: SearchResultSnippet,
}

} // verus!
