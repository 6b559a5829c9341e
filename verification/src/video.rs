//! One search result, every field of which may be absent.

use vstd::prelude::*;

verus! {

/// A video as the result page describes it. Texts are kept as the page
/// shows them; nothing is parsed into numbers or times, and an absent field
/// stays absent.
#[derive(Debug, Clone)]
pub struct YoutubeVideo {
    pub id: Option<String>,
    pub thumbnails: Vec<String>,
    pub title: Option<String>,
    pub long_desc: Option<String>,
    pub channel: Option<String>,
    pub duration: Option<String>,
    pub views: Option<String>,
    pub publish_time: Option<String>,
    pub url_suffix: Option<String>,
}

/// The mathematical value of a [`YoutubeVideo`].
pub struct VideoRecord {
    pub id: Option<Seq<char>>,
    pub thumbnails: Seq<Seq<char>>,
    pub title: Option<Seq<char>>,
    pub long_desc: Option<Seq<char>>,
    pub channel: Option<Seq<char>>,
    pub duration: Option<Seq<char>>,
    pub views: Option<Seq<char>>,
    pub publish_time: Option<Seq<char>>,
    pub url_suffix: Option<Seq<char>>,
}

/// The characters of a text that may be absent.
pub open spec fn text_view(text: Option<String>) -> Option<Seq<char>> {
    match text {
        Some(s) => Some(s@),
        None => None,
    }
}

/// The characters of each text of a list.
pub open spec fn texts_view(texts: Seq<String>) -> Seq<Seq<char>> {
    Seq::new(texts.len(), |i: int| texts[i]@)
}

impl View for YoutubeVideo {
    type V = VideoRecord;

    open spec fn view(&self) -> VideoRecord {
        VideoRecord {
            id: text_view(self.id),
            thumbnails: texts_view(self.thumbnails@),
            title: text_view(self.title),
            long_desc: text_view(self.long_desc),
            channel: text_view(self.channel),
            duration: text_view(self.duration),
            views: text_view(self.views),
            publish_time: text_view(self.publish_time),
            url_suffix: text_view(self.url_suffix),
        }
    }
}

/// The records that a list of videos holds, in the list's order.
pub open spec fn records_of(videos: Seq<YoutubeVideo>) -> Seq<VideoRecord> {
    Seq::new(videos.len(), |i: int| videos[i]@)
}

} // verus!
