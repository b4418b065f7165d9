//! The top-level search: which request a search term and kind lead to.
use crate::text::{chars_of, string_from};
use vstd::prelude::*;

verus! {

/// What to search for.
#[derive(Clone, Copy, PartialEq, Eq, Debug)]
pub enum Fetch {
    Search,
    Playlists,
    Channels,
    ChannelDetails,
    PlaylistDetails,
}

/// A result that reports its error when a program ends with it.
pub struct LibResult<T, E>(pub Result<T, E>);

/// The client call a search makes.
#[derive(Clone, Copy, PartialEq, Eq, Debug)]
pub enum SearchCall {
    Music,
    Playlists,
    Channels,
    PlaylistsDetailed,
    ChannelByHandle,
    ChannelsDetailed,
}

/// The term names a channel handle: it starts with `@`.
pub open spec fn is_handle(term: Seq<char>) -> bool {
    term.len() > 0 && term[0] == '@'
}

/// Whether the term starts with `@`.
pub fn starts_with_at(term: &String) -> (r: bool)
    ensures
        r == is_handle(term@),
{
    let cs = chars_of(term.as_str());
    cs.len() > 0 && cs[0] == '@'
}

/// The extra parameters of the searches that rank: by view count, in English.
pub fn search_extra_params() -> (r: Vec<(String, String)>)
    ensures
        r@.len() == 2,
        r@[0].0@ == "order"@,
        r@[0].1@ == "viewCount"@,
        r@[1].0@ == "relevanceLanguage"@,
        r@[1].1@ == "en"@,
{
    let mut extra: Vec<(String, String)> = Vec::new();
    extra.push((string_from("order"), string_from("viewCount")));
    extra.push((string_from("relevanceLanguage"), string_from("en")));
    extra
}

/// The call a search makes, and whether it passes the ranking extras: music and
/// channel searches rank, the others do not; channel details look a handle up when
/// the term starts with `@`, and search channels otherwise.
pub open spec fn plan_spec(fetch: Fetch, term: Seq<char>) -> (SearchCall, bool) {
    match fetch {
        Fetch::Search => (SearchCall::Music, true),
        Fetch::Playlists => (SearchCall::Playlists, false),
        Fetch::Channels => (SearchCall::Channels, true),
        Fetch::PlaylistDetails => (SearchCall::PlaylistsDetailed, false),
        Fetch::ChannelDetails => if is_handle(term) {
            (SearchCall::ChannelByHandle, false)
        } else {
            (SearchCall::ChannelsDetailed, false)
        },
    }
}

/// Decides the call a search makes (see [`plan_spec`]).
pub fn plan_search(fetch: Fetch, term: &String) -> (r: (SearchCall, bool))
    ensures
        r == plan_spec(fetch, term@),
{
    match fetch {
        Fetch::Search => (SearchCall::Music, true),
        Fetch::Playlists => (SearchCall::Playlists, false),
        Fetch::Channels => (SearchCall::Channels, true),
        Fetch::PlaylistDetails => (SearchCall::PlaylistsDetailed, false),
        Fetch::ChannelDetails => {
            if starts_with_at(term) {
                (SearchCall::ChannelByHandle, false)
            } else {
                (SearchCall::ChannelsDetailed, false)
            }
        },
    }
}

} // verus!
