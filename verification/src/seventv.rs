//! What the 7TV API hands out, and what is asked of it.

use crate::failure::{Failure, FailureView};
use vstd::prelude::*;
use vstd::string::StringExecFns;

verus! {

/// What an emote is to the specifications: its identifier, its keyword and
/// whether it is animated.
pub struct EmoteView {
    pub id: Seq<char>,
    pub name: Seq<char>,
    pub animated: bool,
}

/// One emote as the 7TV API describes it.
#[derive(Debug)]
pub struct SevenUserEmote {
    pub id: String,
    pub name: String,
    pub animated: bool,
}

impl View for SevenUserEmote {
    type V = EmoteView;

    open spec fn view(&self) -> EmoteView {
        EmoteView { id: self.id@, name: self.name@, animated: self.animated }
    }
}

impl Clone for SevenUserEmote {
    fn clone(&self) -> (res: Self)
        ensures
            res@ == self@,
    {
        SevenUserEmote { id: self.id.clone(), name: self.name.clone(), animated: self.animated }
    }
}

/// The views of a sequence of emotes, in order.
pub open spec fn emote_views(emotes: Seq<SevenUserEmote>) -> Seq<EmoteView> {
    emotes.map_values(|emote: SevenUserEmote| emote@)
}

/// The emote set of one broadcaster.
#[derive(Debug)]
pub struct SevenUserEmoteSet {
    pub id: String,
    pub name: String,
    pub emotes: Vec<SevenUserEmote>,
}

/// A broadcaster as the 7TV API describes one.
#[derive(Debug)]
pub struct SevenUserData {
    pub id: String,
    pub emote_set: SevenUserEmoteSet,
}

/// The emotes that a search found, the best match first.
#[derive(Debug)]
pub struct SevenEmotesData {
    items: Vec<SevenUserEmote>,
}

/// The answer to a search.
#[derive(Debug)]
pub struct SevenEmotesDataWrapper {
    emotes: SevenEmotesData,
}

impl SevenEmotesData {
    /// The emotes found, the best match first.
    pub closed spec fn items(self) -> Seq<SevenUserEmote> {
        self.items@
    }

    /// A search result that holds `items`.
    pub fn new(items: Vec<SevenUserEmote>) -> (data: Self)
        ensures
            data.items() == items@,
    {
        SevenEmotesData { items }
    }

    /// The emotes found.
    pub fn into_items(self) -> (items: Vec<SevenUserEmote>)
        ensures
            items@ == self.items(),
    {
        self.items
    }
}

impl SevenEmotesDataWrapper {
    /// The search result inside the answer.
    pub closed spec fn emotes(self) -> SevenEmotesData {
        self.emotes
    }

    /// An answer that holds `emotes`.
    pub fn new(emotes: SevenEmotesData) -> (wrapper: Self)
        ensures
            wrapper.emotes() == emotes,
    {
        SevenEmotesDataWrapper { emotes }
    }

    /// The search result inside the answer.
    pub fn into_emotes(self) -> (emotes: SevenEmotesData)
        ensures
            emotes == self.emotes(),
    {
        self.emotes
    }
}

/// The address that hands out the emote set of the broadcaster `twitch_id`.
pub open spec fn user_emote_set_url(twitch_id: Seq<char>) -> Seq<char> {
    "https://7tv.io/v3/users/twitch/"@ + twitch_id
}

/// The address that the asset `emote_id` is downloaded from.
pub open spec fn download_url(emote_id: Seq<char>) -> Seq<char> {
    "https://cdn.7tv.app/emote/"@ + emote_id + "/4x.webp"@
}

/// The name of the file that a download of the asset `emote_id` is kept in.
pub open spec fn download_file_name(emote_id: Seq<char>) -> Seq<char> {
    emote_id + ".webp"@
}

/// The address of the search API.
pub const SEARCH_URL: &'static str = "https://7tv.io/v3/gql";

/// What stands before the keyword in the body of a search request.
pub const SEARCH_BODY_HEAD: &'static str =
    "{\n            \"query\": \"query SearchEmotes($query: String!) { emotes(query: $query filter: { case_sensitive: true, exact_match: true } sort: { value: \\\"popularity\\\", order: DESCENDING }) { items { id name animated } } }\",\n            \"variables\": {\n                \"query\": \"";

/// What stands after the keyword in the body of a search request.
pub const SEARCH_BODY_TAIL: &'static str = "\"\n            }\n        }";

/// The body of the request that searches for the emotes named exactly
/// `keyword`, the most popular first. The keyword is put in as it is.
pub open spec fn search_body(keyword: Seq<char>) -> Seq<char> {
    SEARCH_BODY_HEAD@ + keyword + SEARCH_BODY_TAIL@
}

/// The address that hands out the emote set of the broadcaster `twitch_id`.
pub fn emote_set_url(twitch_id: &str) -> (url: String)
    ensures
        url@ == user_emote_set_url(twitch_id@),
{
    String::from_str("https://7tv.io/v3/users/twitch/").concat(twitch_id)
}

/// The address that the asset `emote_id` is downloaded from.
pub fn emote_download_url(emote_id: &str) -> (url: String)
    ensures
        url@ == download_url(emote_id@),
{
    String::from_str("https://cdn.7tv.app/emote/").concat(emote_id).concat("/4x.webp")
}

/// The name of the file that a download of the asset `emote_id` is kept in.
pub fn emote_download_file_name(emote_id: &str) -> (name: String)
    ensures
        name@ == download_file_name(emote_id@),
{
    String::from_str(emote_id).concat(".webp")
}

/// The body of the request that searches for `keyword`.
pub fn popular_emote_query(keyword: &str) -> (body: String)
    ensures
        body@ == search_body(keyword@),
{
    String::from_str(SEARCH_BODY_HEAD).concat(keyword).concat(SEARCH_BODY_TAIL)
}

/// The best match of a search: the first of the emotes found.
pub open spec fn most_popular(items: Seq<EmoteView>) -> Result<EmoteView, FailureView> {
    if items.len() > 0 {
        Ok(items[0])
    } else {
        Err(FailureView::NotFound)
    }
}

/// The best match among `items`, which come the most popular first.
pub fn most_popular_emote(items: &Vec<SevenUserEmote>) -> (r: Result<SevenUserEmote, Failure>)
    ensures
        match r {
            Ok(emote) => most_popular(emote_views(items@)) == Ok::<EmoteView, FailureView>(emote@),
            Err(failure) => most_popular(emote_views(items@)) == Err::<EmoteView, FailureView>(
                failure@,
            ),
        },
{
    if items.len() > 0 {
        Ok(items[0].clone())
    } else {
        Err(Failure::NotFound)
    }
}

} // verus!
