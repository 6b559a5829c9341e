//! Search of the result page: from the page's text to the list of videos.

use vstd::prelude::*;
use vstd::string::StringSliceAdditionalSpecFns;
use crate::document::{decoded, parse_document};
use crate::error::{SearchError, SearchFailure};
use crate::json::{JsonTree, JsonValue};
use crate::locate::{locate, located};
use crate::project::{project, projected};
use crate::query::{percent_encoded, search_url, RESULTS_URL};
use crate::video::{records_of, VideoRecord, YoutubeVideo};

verus! {

/// The document that a page embeds, decoded; or the one reason for which
/// it yields none.
pub open spec fn extracted(page: Seq<char>) -> Result<JsonTree, SearchFailure> {
    match located(page) {
        Ok(text) => decoded(text),
        Err(e) => Err(e),
    }
}

/// The records of a page's results, in the page's order; or the one reason
/// for which the search fails. A page never yields both, and the same page
/// always yields the same.
pub open spec fn page_results(page: Seq<char>) -> Result<Seq<VideoRecord>, SearchFailure> {
    match extracted(page) {
        Ok(tree) => Ok(projected(tree)),
        Err(e) => Err(e),
    }
}

/// A search that leaves the fetching to its caller: it says which page to
/// fetch for a query, and lists the videos of the page once it is fetched.
pub trait Search {
    /// The address of the page that lists the results for `query`.
    fn request_url(&self, query: &str) -> String;

    /// The videos that a fetched page lists, or the one reason for which
    /// the search fails.
    fn read_page(&self, body: &str) -> Result<Vec<YoutubeVideo>, SearchError>;
}

/// The search of a video site's result page. It keeps no state between
/// calls.
pub struct YoutubeSearch {}

impl Search for YoutubeSearch {
    fn request_url(&self, query: &str) -> (url: String)
        ensures
            url@ == RESULTS_URL@ + percent_encoded(query.spec_bytes()),
    {
        search_url(query)
    }

    fn read_page(&self, body: &str) -> (r: Result<Vec<YoutubeVideo>, SearchError>)
        ensures
            match r {
                Ok(videos) => page_results(body@) == Ok::<Seq<VideoRecord>, SearchFailure>(
                    records_of(videos@),
                ),
                Err(e) => page_results(body@) == Err::<Seq<VideoRecord>, SearchFailure>(e@),
            },
    {
        YoutubeSearch::videos_from_page(body)
    }
}

impl YoutubeSearch {
    pub fn new() -> (search: Self)
        ensures
            search == (YoutubeSearch {}),
    {
        YoutubeSearch {}
    }

    /// Locates the data that a page embeds and decodes it.
    pub fn extract_json_from_html(html: &str) -> (r: Result<JsonValue, SearchError>)
        ensures
            match r {
                Ok(value) => extracted(html@) == Ok::<JsonTree, SearchFailure>(value@),
                Err(e) => extracted(html@) == Err::<JsonTree, SearchFailure>(e@),
            },
    {
        match locate(html) {
            Ok(text) => parse_document(text),
            Err(e) => Err(e),
        }
    }

    /// Lists the videos of a decoded page, in the page's order.
    pub fn extract_videos_from_json(json: &JsonValue) -> (videos: Vec<YoutubeVideo>)
        ensures
            records_of(videos@) == projected(json@),
    {
        project(json)
    }

    /// Lists the videos of a fetched page.
    pub fn videos_from_page(body: &str) -> (r: Result<Vec<YoutubeVideo>, SearchError>)
        ensures
            match r {
                Ok(videos) => page_results(body@) == Ok::<Seq<VideoRecord>, SearchFailure>(
                    records_of(videos@),
                ),
                Err(e) => page_results(body@) == Err::<Seq<VideoRecord>, SearchFailure>(e@),
            },
    {
        match Self::extract_json_from_html(body) {
            Ok(json) => Ok(Self::extract_videos_from_json(&json)),
            Err(e) => Err(e),
        }
    }
}

} // verus!
