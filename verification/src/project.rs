//! From a decoded result page to video records.
//!
//! The page's layout is not documented and changes, so every step of every
//! path answers "absent" where a key is missing or a value has another shape,
//! and each field of a record is read on a path of its own.

use vstd::prelude::*;
use crate::json::{views_of, JsonTree, JsonValue};
use crate::video::{records_of, text_view, texts_view, VideoRecord, YoutubeVideo};

verus! {

/// The member under `key` of a node that may be absent.
pub open spec fn then_get(node: Option<JsonTree>, key: Seq<char>) -> Option<JsonTree> {
    match node {
        Some(tree) => tree.get(key),
        None => None,
    }
}

/// The element at `index` of a node that may be absent.
pub open spec fn then_at(node: Option<JsonTree>, index: int) -> Option<JsonTree> {
    match node {
        Some(tree) => tree.at(index),
        None => None,
    }
}

/// The characters of a node that may be absent, if it is a string.
pub open spec fn then_text(node: Option<JsonTree>) -> Option<Seq<char>> {
    match node {
        Some(tree) => tree.as_str(),
        None => None,
    }
}

/// The elements of a node that may be absent, if it is an array.
pub open spec fn then_items(node: Option<JsonTree>) -> Option<Seq<JsonTree>> {
    match node {
        Some(tree) => tree.as_array(),
        None => None,
    }
}

/// A string that stands directly under `field`.
pub open spec fn plain_text(node: JsonTree, field: Seq<char>) -> Option<Seq<char>> {
    then_text(node.get(field))
}

/// The text of the first fragment of the rich text under `field`.
pub open spec fn run_text(node: JsonTree, field: Seq<char>) -> Option<Seq<char>> {
    then_text(then_get(then_at(then_get(node.get(field), "runs"@), 0), "text"@))
}

/// The text of the simple text under `field`.
pub open spec fn simple_text(node: JsonTree, field: Seq<char>) -> Option<Seq<char>> {
    then_text(then_get(node.get(field), "simpleText"@))
}

/// The address that one thumbnail entry carries: none or one.
pub open spec fn entry_url(entry: JsonTree) -> Seq<Seq<char>> {
    match plain_text(entry, "url"@) {
        Some(url) => seq![url],
        None => seq![],
    }
}

/// The addresses of the thumbnail entries that carry one, in the entries'
/// order.
pub open spec fn thumbnail_urls(entries: Seq<JsonTree>) -> Seq<Seq<char>>
    decreases entries.len(),
{
    if entries.len() == 0 {
        seq![]
    } else {
        thumbnail_urls(entries.drop_last()) + entry_url(entries.last())
    }
}

/// The thumbnail addresses of an item; none where the item has no
/// thumbnail array.
pub open spec fn thumbnails_of(node: JsonTree) -> Seq<Seq<char>> {
    match then_items(then_get(node.get("thumbnail"@), "thumbnails"@)) {
        Some(entries) => thumbnail_urls(entries),
        None => seq![],
    }
}

/// The relative path of an item's navigation target.
pub open spec fn navigation_suffix(node: JsonTree) -> Option<Seq<char>> {
    then_text(
        then_get(
            then_get(
                then_get(node.get("navigationEndpoint"@), "commandMetadata"@),
                "webCommandMetadata"@,
            ),
            "url"@,
        ),
    )
}

/// The record of one item node.
pub open spec fn record_of(node: JsonTree) -> VideoRecord {
    VideoRecord {
        id: plain_text(node, "videoId"@),
        thumbnails: thumbnails_of(node),
        title: run_text(node, "title"@),
        long_desc: run_text(node, "descriptionSnippet"@),
        channel: run_text(node, "longBylineText"@),
        duration: simple_text(node, "lengthText"@),
        views: simple_text(node, "viewCountText"@),
        publish_time: simple_text(node, "publishedTimeText"@),
        url_suffix: navigation_suffix(node),
    }
}

/// The record that one entry of a section yields: one if the entry is a
/// video, none otherwise.
pub open spec fn entry_records(entry: JsonTree) -> Seq<VideoRecord> {
    match entry.get("videoRenderer"@) {
        Some(node) => seq![record_of(node)],
        None => seq![],
    }
}

/// The records of a section's entries, in the entries' order.
pub open spec fn entries_records(entries: Seq<JsonTree>) -> Seq<VideoRecord>
    decreases entries.len(),
{
    if entries.len() == 0 {
        seq![]
    } else {
        entries_records(entries.drop_last()) + entry_records(entries.last())
    }
}

/// The records of one section; none where it is no item section or has no
/// entry array.
pub open spec fn section_records(section: JsonTree) -> Seq<VideoRecord> {
    match then_items(then_get(section.get("itemSectionRenderer"@), "contents"@)) {
        Some(entries) => entries_records(entries),
        None => seq![],
    }
}

/// The records of all sections, section after section.
pub open spec fn sections_records(sections: Seq<JsonTree>) -> Seq<VideoRecord>
    decreases sections.len(),
{
    if sections.len() == 0 {
        seq![]
    } else {
        sections_records(sections.drop_last()) + section_records(sections.last())
    }
}

/// The sections of a result page, where it has any.
pub open spec fn result_sections(page: JsonTree) -> Option<Seq<JsonTree>> {
    then_items(
        then_get(
            then_get(
                then_get(
                    then_get(page.get("contents"@), "twoColumnSearchResultsRenderer"@),
                    "primaryContents"@,
                ),
                "sectionListRenderer"@,
            ),
            "contents"@,
        ),
    )
}

/// The records of a result page, in the order in which the page lists them;
/// none where the page has no result section.
pub open spec fn projected(page: JsonTree) -> Seq<VideoRecord> {
    match result_sections(page) {
        Some(sections) => sections_records(sections),
        None => seq![],
    }
}

/// The tree of a node that may be absent.
pub open spec fn node_view(node: Option<&JsonValue>) -> Option<JsonTree> {
    match node {
        Some(value) => Some(value@),
        None => None,
    }
}

/// Steps from a node that may be absent to its member under `key`.
pub fn member<'a>(node: Option<&'a JsonValue>, key: &str) -> (found: Option<&'a JsonValue>)
    ensures
        node_view(found) == then_get(node_view(node), key@),
{
    match node {
        Some(value) => value.get(key),
        None => None,
    }
}

/// Steps from a node that may be absent to its first element.
pub fn first_element<'a>(node: Option<&'a JsonValue>) -> (found: Option<&'a JsonValue>)
    ensures
        node_view(found) == then_at(node_view(node), 0),
{
    match node {
        Some(value) => value.at(0),
        None => None,
    }
}

/// Copies the string that a node holds.
pub fn owned_text(node: Option<&JsonValue>) -> (text: Option<String>)
    ensures
        text_view(text) == then_text(node_view(node)),
{
    match node {
        Some(value) => match value.as_str() {
            Some(s) => Some(s.to_owned()),
            None => None,
        },
        None => None,
    }
}

/// Reads the first fragment's text of the rich text under `field`.
pub fn read_run_text(node: &JsonValue, field: &str) -> (text: Option<String>)
    ensures
        text_view(text) == run_text(node@, field@),
{
    owned_text(member(first_element(member(node.get(field), "runs")), "text"))
}

/// Reads the text of the simple text under `field`.
pub fn read_simple_text(node: &JsonValue, field: &str) -> (text: Option<String>)
    ensures
        text_view(text) == simple_text(node@, field@),
{
    owned_text(member(node.get(field), "simpleText"))
}

/// The video's identifier.
pub fn video_id(node: &JsonValue) -> (text: Option<String>)
    ensures
        text_view(text) == plain_text(node@, "videoId"@),
{
    owned_text(node.get("videoId"))
}

/// The video's title.
pub fn title(node: &JsonValue) -> (text: Option<String>)
    ensures
        text_view(text) == run_text(node@, "title"@),
{
    read_run_text(node, "title")
}

/// The snippet of the video's description.
pub fn description_snippet(node: &JsonValue) -> (text: Option<String>)
    ensures
        text_view(text) == run_text(node@, "descriptionSnippet"@),
{
    read_run_text(node, "descriptionSnippet")
}

/// The name of the video's channel.
pub fn channel_name(node: &JsonValue) -> (text: Option<String>)
    ensures
        text_view(text) == run_text(node@, "longBylineText"@),
{
    read_run_text(node, "longBylineText")
}

/// The video's length as the page shows it.
pub fn duration_text(node: &JsonValue) -> (text: Option<String>)
    ensures
        text_view(text) == simple_text(node@, "lengthText"@),
{
    read_simple_text(node, "lengthText")
}

/// The video's view count as the page shows it.
pub fn view_count_text(node: &JsonValue) -> (text: Option<String>)
    ensures
        text_view(text) == simple_text(node@, "viewCountText"@),
{
    read_simple_text(node, "viewCountText")
}

/// The video's age as the page shows it.
pub fn published_time_text(node: &JsonValue) -> (text: Option<String>)
    ensures
        text_view(text) == simple_text(node@, "publishedTimeText"@),
{
    read_simple_text(node, "publishedTimeText")
}

/// The relative path of the video's navigation target.
pub fn url_suffix(node: &JsonValue) -> (text: Option<String>)
    ensures
        text_view(text) == navigation_suffix(node@),
{
    owned_text(
        member(
            member(member(node.get("navigationEndpoint"), "commandMetadata"), "webCommandMetadata"),
            "url",
        ),
    )
}

/// The addresses of the video's thumbnails.
pub fn thumbnails(node: &JsonValue) -> (urls: Vec<String>)
    ensures
        texts_view(urls@) == thumbnails_of(node@),
{
    let mut urls: Vec<String> = Vec::new();
    let entries = match member(node.get("thumbnail"), "thumbnails") {
        Some(list) => match list.as_array() {
            Some(entries) => entries,
            None => {
                assert(texts_view(urls@) =~= thumbnails_of(node@));
                return urls;
            },
        },
        None => {
            assert(texts_view(urls@) =~= thumbnails_of(node@));
            return urls;
        },
    };
    let ghost trees = views_of(entries@);
    let mut i: usize = 0;
    assert(texts_view(urls@) =~= thumbnail_urls(trees.take(0)));
    while i < entries.len()
        invariant
            i <= entries@.len(),
            trees == views_of(entries@),
            texts_view(urls@) == thumbnail_urls(trees.take(i as int)),
        decreases entries@.len() - i,
    {
        proof {
            assert(trees.take(i + 1).drop_last() =~= trees.take(i as int));
        }
        let ghost before = urls@;
        match owned_text(entries[i].get("url")) {
            Some(url) => {
                urls.push(url);
                assert(texts_view(urls@) =~= texts_view(before) + seq![url@]);
            },
            None => {},
        }
        i += 1;
    }
    assert(trees.take(i as int) =~= trees);
    urls
}

/// Builds the record of one item node. No field's absence stops another
/// from being read.
pub fn video_from_renderer(node: &JsonValue) -> (video: YoutubeVideo)
    ensures
        video@ == record_of(node@),
{
    YoutubeVideo {
        id: video_id(node),
        thumbnails: thumbnails(node),
        title: title(node),
        long_desc: description_snippet(node),
        channel: channel_name(node),
        duration: duration_text(node),
        views: view_count_text(node),
        publish_time: published_time_text(node),
        url_suffix: url_suffix(node),
    }
}

/// Appends the records of a section's entries to `results`.
pub fn append_entries(entries: &Vec<JsonValue>, results: &mut Vec<YoutubeVideo>)
    ensures
        records_of(final(results)@) == records_of(old(results)@) + entries_records(
            views_of(entries@),
        ),
{
    let ghost trees = views_of(entries@);
    let mut i: usize = 0;
    assert(records_of(results@) =~= records_of(old(results)@) + entries_records(trees.take(0)));
    while i < entries.len()
        invariant
            i <= entries@.len(),
            trees == views_of(entries@),
            records_of(results@) == records_of(old(results)@) + entries_records(
                trees.take(i as int),
            ),
        decreases entries@.len() - i,
    {
        proof {
            assert(trees.take(i + 1).drop_last() =~= trees.take(i as int));
        }
        let ghost before = results@;
        match entries[i].get("videoRenderer") {
            Some(node) => {
                let video = video_from_renderer(node);
                results.push(video);
                assert(records_of(results@) =~= records_of(before) + seq![video@]);
            },
            None => {},
        }
        i += 1;
    }
    assert(trees.take(i as int) =~= trees);
}

/// Projects a decoded result page into its video records, in the page's
/// order. A page without a result section yields an empty list.
pub fn project(page: &JsonValue) -> (videos: Vec<YoutubeVideo>)
    ensures
        records_of(videos@) == projected(page@),
{
    let mut results: Vec<YoutubeVideo> = Vec::new();
    let list = member(
        member(
            member(member(page.get("contents"), "twoColumnSearchResultsRenderer"), "primaryContents"),
            "sectionListRenderer",
        ),
        "contents",
    );
    let sections = match list {
        Some(value) => match value.as_array() {
            Some(sections) => sections,
            None => {
                assert(records_of(results@) =~= projected(page@));
                return results;
            },
        },
        None => {
            assert(records_of(results@) =~= projected(page@));
            return results;
        },
    };
    let ghost trees = views_of(sections@);
    let mut i: usize = 0;
    assert(records_of(results@) =~= sections_records(trees.take(0)));
    while i < sections.len()
        invariant
            i <= sections@.len(),
            trees == views_of(sections@),
            records_of(results@) == sections_records(trees.take(i as int)),
        decreases sections@.len() - i,
    {
        proof {
            assert(trees.take(i + 1).drop_last() =~= trees.take(i as int));
        }
        let ghost before = results@;
        match member(sections[i].get("itemSectionRenderer"), "contents") {
            Some(value) => match value.as_array() {
                Some(entries) => {
                    append_entries(entries, &mut results);
                },
                None => {},
            },
            None => {},
        }
        i += 1;
    }
    assert(trees.take(i as int) =~= trees);
    results
}

} // verus!
