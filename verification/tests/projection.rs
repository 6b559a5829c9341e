use video_search::json::JsonValue;
use video_search::project::{
    channel_name, description_snippet, duration_text, project, published_time_text, thumbnails,
    title, url_suffix, video_from_renderer, video_id, view_count_text,
};

fn text(s: &str) -> JsonValue {
    JsonValue::Text(s.to_string())
}

fn object(members: Vec<(&str, JsonValue)>) -> JsonValue {
    JsonValue::Object(members.into_iter().map(|(k, v)| (k.to_string(), v)).collect())
}

fn runs(s: &str) -> JsonValue {
    object(vec![("runs", JsonValue::Array(vec![object(vec![("text", text(s))])]))])
}

fn simple(s: &str) -> JsonValue {
    object(vec![("simpleText", text(s))])
}

fn full_renderer(id: &str) -> JsonValue {
    object(vec![
        ("videoId", text(id)),
        (
            "thumbnail",
            object(vec![(
                "thumbnails",
                JsonValue::Array(vec![
                    object(vec![("url", text("https://i/1.jpg"))]),
                    object(vec![("url", text("https://i/2.jpg"))]),
                ]),
            )]),
        ),
        ("title", runs("A title")),
        ("descriptionSnippet", runs("A description")),
        ("longBylineText", runs("A channel")),
        ("lengthText", simple("3:21")),
        ("viewCountText", simple("1,234 views")),
        ("publishedTimeText", simple("2 days ago")),
        (
            "navigationEndpoint",
            object(vec![(
                "commandMetadata",
                object(vec![(
                    "webCommandMetadata",
                    object(vec![("url", text("/watch?v=abc"))]),
                )]),
            )]),
        ),
    ])
}

fn entry(renderer: JsonValue) -> JsonValue {
    object(vec![("videoRenderer", renderer)])
}

fn section(entries: Vec<JsonValue>) -> JsonValue {
    object(vec![(
        "itemSectionRenderer",
        object(vec![("contents", JsonValue::Array(entries))]),
    )])
}

fn page(sections: Vec<JsonValue>) -> JsonValue {
    object(vec![(
        "contents",
        object(vec![(
            "twoColumnSearchResultsRenderer",
            object(vec![(
                "primaryContents",
                object(vec![(
                    "sectionListRenderer",
                    object(vec![("contents", JsonValue::Array(sections))]),
                )]),
            )]),
        )]),
    )])
}

#[test]
fn every_field_is_read_on_its_path() {
    let video = video_from_renderer(&full_renderer("abc"));
    assert_eq!(video.id.as_deref(), Some("abc"));
    assert_eq!(video.thumbnails, vec!["https://i/1.jpg", "https://i/2.jpg"]);
    assert_eq!(video.title.as_deref(), Some("A title"));
    assert_eq!(video.long_desc.as_deref(), Some("A description"));
    assert_eq!(video.channel.as_deref(), Some("A channel"));
    assert_eq!(video.duration.as_deref(), Some("3:21"));
    assert_eq!(video.views.as_deref(), Some("1,234 views"));
    assert_eq!(video.publish_time.as_deref(), Some("2 days ago"));
    assert_eq!(video.url_suffix.as_deref(), Some("/watch?v=abc"));
}

#[test]
fn accessors_agree_with_the_record() {
    let node = full_renderer("abc");
    assert_eq!(video_id(&node).as_deref(), Some("abc"));
    assert_eq!(title(&node).as_deref(), Some("A title"));
    assert_eq!(description_snippet(&node).as_deref(), Some("A description"));
    assert_eq!(channel_name(&node).as_deref(), Some("A channel"));
    assert_eq!(duration_text(&node).as_deref(), Some("3:21"));
    assert_eq!(view_count_text(&node).as_deref(), Some("1,234 views"));
    assert_eq!(published_time_text(&node).as_deref(), Some("2 days ago"));
    assert_eq!(url_suffix(&node).as_deref(), Some("/watch?v=abc"));
    assert_eq!(thumbnails(&node).len(), 2);
}

#[test]
fn missing_title_leaves_the_other_fields() {
    let node = match full_renderer("abc") {
        JsonValue::Object(members) => {
            JsonValue::Object(members.into_iter().filter(|(k, _)| k != "title").collect())
        }
        other => other,
    };
    let video = video_from_renderer(&node);
    assert_eq!(video.title, None);
    assert_eq!(video.id.as_deref(), Some("abc"));
    assert_eq!(video.channel.as_deref(), Some("A channel"));
    assert_eq!(video.duration.as_deref(), Some("3:21"));
    assert_eq!(video.thumbnails.len(), 2);
    assert_eq!(video.url_suffix.as_deref(), Some("/watch?v=abc"));
}

#[test]
fn title_of_another_shape_is_absent() {
    for broken in [
        text("plain"),
        object(vec![("runs", text("no array"))]),
        object(vec![("runs", JsonValue::Array(vec![]))]),
        object(vec![("runs", JsonValue::Array(vec![object(vec![])]))]),
        object(vec![(
            "runs",
            JsonValue::Array(vec![object(vec![("text", JsonValue::Number("1".to_string()))])]),
        )]),
    ] {
        let node = object(vec![("videoId", text("abc")), ("title", broken)]);
        let video = video_from_renderer(&node);
        assert_eq!(video.title, None);
        assert_eq!(video.id.as_deref(), Some("abc"));
    }
}

#[test]
fn title_is_the_first_run_only() {
    let node = object(vec![(
        "title",
        object(vec![(
            "runs",
            JsonValue::Array(vec![
                object(vec![("text", text("first"))]),
                object(vec![("text", text("second"))]),
            ]),
        )]),
    )]);
    assert_eq!(video_from_renderer(&node).title.as_deref(), Some("first"));
}

#[test]
fn renderer_without_fields_is_an_empty_record() {
    let video = video_from_renderer(&object(vec![]));
    assert_eq!(video.id, None);
    assert!(video.thumbnails.is_empty());
    assert_eq!(video.title, None);
    assert_eq!(video.long_desc, None);
    assert_eq!(video.channel, None);
    assert_eq!(video.duration, None);
    assert_eq!(video.views, None);
    assert_eq!(video.publish_time, None);
    assert_eq!(video.url_suffix, None);
    let videos = project(&page(vec![section(vec![entry(JsonValue::Null)])]));
    assert_eq!(videos.len(), 1);
    assert_eq!(videos[0].id, None);
}

#[test]
fn thumbnail_without_url_is_dropped() {
    let node = object(vec![(
        "thumbnail",
        object(vec![(
            "thumbnails",
            JsonValue::Array(vec![
                object(vec![("url", text("one"))]),
                object(vec![("width", JsonValue::Number("120".to_string()))]),
                object(vec![("url", text("three"))]),
            ]),
        )]),
    )]);
    assert_eq!(thumbnails(&node), vec!["one", "three"]);
}

#[test]
fn thumbnail_url_of_another_kind_is_dropped() {
    let node = object(vec![(
        "thumbnail",
        object(vec![(
            "thumbnails",
            JsonValue::Array(vec![
                object(vec![("url", JsonValue::Null)]),
                text("loose"),
                object(vec![("url", text("kept"))]),
            ]),
        )]),
    )]);
    assert_eq!(thumbnails(&node), vec!["kept"]);
    let none = object(vec![("thumbnail", object(vec![("thumbnails", text("no array"))]))]);
    assert!(thumbnails(&none).is_empty());
}

#[test]
fn items_keep_their_order() {
    let videos = project(&page(vec![section(vec![
        entry(full_renderer("A")),
        entry(full_renderer("B")),
        entry(full_renderer("C")),
    ])]));
    let ids: Vec<Option<&str>> = videos.iter().map(|v| v.id.as_deref()).collect();
    assert_eq!(ids, vec![Some("A"), Some("B"), Some("C")]);
}

#[test]
fn sections_follow_each_other_and_other_entries_are_skipped() {
    let videos = project(&page(vec![
        section(vec![
            entry(full_renderer("A")),
            object(vec![("shelfRenderer", object(vec![]))]),
            entry(full_renderer("B")),
        ]),
        object(vec![("continuationItemRenderer", object(vec![]))]),
        object(vec![("itemSectionRenderer", object(vec![("contents", text("no array"))]))]),
        section(vec![]),
        section(vec![entry(full_renderer("C")), entry(full_renderer("A"))]),
    ]));
    let ids: Vec<Option<&str>> = videos.iter().map(|v| v.id.as_deref()).collect();
    assert_eq!(ids, vec![Some("A"), Some("B"), Some("C"), Some("A")]);
}

#[test]
fn broken_path_to_the_sections_yields_no_videos() {
    assert!(project(&JsonValue::Null).is_empty());
    assert!(project(&object(vec![])).is_empty());
    assert!(project(&object(vec![("contents", JsonValue::Array(vec![]))])).is_empty());
    let not_a_list = object(vec![(
        "contents",
        object(vec![(
            "twoColumnSearchResultsRenderer",
            object(vec![(
                "primaryContents",
                object(vec![(
                    "sectionListRenderer",
                    object(vec![("contents", object(vec![]))]),
                )]),
            )]),
        )]),
    )]);
    assert!(project(&not_a_list).is_empty());
    assert!(project(&page(vec![])).is_empty());
}
