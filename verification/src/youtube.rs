//! The site's official search interface: the request's address, the shape
//! of its answer, and the choice of the first video.

use vstd::prelude::*;
use vstd::string::*;
use crate::outside::percent_encode;
use crate::query::percent_encoded;

verus! {

/// The address of the search interface.
pub const YOUTUBE_API_BASE: &'static str = "https://www.googleapis.com/youtube/v3/search";

/// The address under which a video is watched, up to its identifier.
pub const WATCH_URL: &'static str = "https://www.youtube.com/watch?v=";

/// The answer to a search request.
#[derive(Debug)]
pub struct YouTubeSearchResponse {
    pub items: Vec<YouTubeSearchItem>,
}

/// One item of an answer.
#[derive(Debug)]
pub struct YouTubeSearchItem {
    pub id: YouTubeVideoId,
    pub snippet: YouTubeSnippet,
}

/// The identifier of an item, which is absent where the item is no video.
#[derive(Debug)]
pub struct YouTubeVideoId {
    pub video_id: Option<String>,
}

/// What an answer tells of a video.
#[derive(Debug)]
pub struct YouTubeSnippet {
    pub title: String,
    pub description: String,
    pub channel_title: String,
    pub published_at: String,
}

/// The mathematical value of a [`YouTubeSnippet`].
pub struct SnippetRecord {
    pub title: Seq<char>,
    pub description: Seq<char>,
    pub channel_title: Seq<char>,
    pub published_at: Seq<char>,
}

impl View for YouTubeSnippet {
    type V = SnippetRecord;

    open spec fn view(&self) -> SnippetRecord {
        SnippetRecord {
            title: self.title@,
            description: self.description@,
            channel_title: self.channel_title@,
            published_at: self.published_at@,
        }
    }
}

impl Clone for YouTubeSnippet {
    fn clone(&self) -> (copy: Self)
        ensures
            copy@ == self@,
    {
        YouTubeSnippet {
            title: self.title.clone(),
            description: self.description.clone(),
            channel_title: self.channel_title.clone(),
            published_at: self.published_at.clone(),
        }
    }
}

/// The first video of an answer: its identifier and its snippet; or the
/// message that says why there is none.
pub open spec fn first_video_of(items: Seq<YouTubeSearchItem>) -> Result<
    (Seq<char>, SnippetRecord),
    Seq<char>,
> {
    if items.len() == 0 {
        Err("Nenhum vídeo encontrado para essa busca"@)
    } else {
        match items[0].id.video_id {
            Some(id) => Ok((id@, items[0].snippet@)),
            None => Err("Vídeo não possui ID válido"@),
        }
    }
}

/// The key with which requests to the search interface are signed.
pub struct YouTubeClient {
    pub api_key: String,
}

impl YouTubeClient {
    /// Makes a client from the value of the variable `YOUTUBE_API_KEY`,
    /// which is absent where the variable is not set.
    pub fn from_env(api_key: Option<String>) -> (r: Result<Self, String>)
        ensures
            match r {
                Ok(client) => api_key == Some(client.api_key),
                Err(msg) => api_key is None && msg@
                    == "YOUTUBE_API_KEY não encontrada nas variáveis de ambiente"@,
            },
    {
        match api_key {
            Some(key) => Ok(YouTubeClient { api_key: key }),
            None => Err("YOUTUBE_API_KEY não encontrada nas variáveis de ambiente".to_owned()),
        }
    }

    /// The address of the request for the first video that matches `query`.
    pub fn search_url(&self, query: &str) -> (url: String)
        ensures
            url@ == YOUTUBE_API_BASE@ + "?part=snippet&q="@ + percent_encoded(query.spec_bytes())
                + "&type=video&maxResults=1&key="@ + self.api_key@,
    {
        let encoded = percent_encode(query);
        YOUTUBE_API_BASE.to_owned().concat("?part=snippet&q=").concat(encoded.as_str()).concat(
            "&type=video&maxResults=1&key=",
        ).concat(self.api_key.as_str())
    }

    /// The message for an answer whose status is no success.
    pub fn status_error(status: &str, body: &str) -> (msg: String)
        ensures
            msg@ == "YouTube API retornou erro "@ + status@ + ": "@ + body@,
    {
        "YouTube API retornou erro ".to_owned().concat(status).concat(": ").concat(body)
    }

    /// Picks the first video of an answer.
    pub fn first_video(response: &YouTubeSearchResponse) -> (r: Result<
        (String, YouTubeSnippet),
        String,
    >)
        ensures
            match r {
                Ok((id, snippet)) => first_video_of(response.items@) == Ok::<
                    (Seq<char>, SnippetRecord),
                    Seq<char>,
                >((id@, snippet@)),
                Err(msg) => first_video_of(response.items@) == Err::<
                    (Seq<char>, SnippetRecord),
                    Seq<char>,
                >(msg@),
            },
    {
        if response.items.len() == 0 {
            return Err("Nenhum vídeo encontrado para essa busca".to_owned());
        }
        let item = &response.items[0];
        match &item.id.video_id {
            Some(id) => Ok((id.clone(), item.snippet.clone())),
            None => Err("Vídeo não possui ID válido".to_owned()),
        }
    }

    /// The address under which the video with this identifier is watched.
    pub fn get_video_url(video_id: &str) -> (url: String)
        ensures
            url@ == WATCH_URL@ + video_id@,
    {
        WATCH_URL.to_owned().concat(video_id)
    }
}

} // verus!
