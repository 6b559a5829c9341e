use video_search::ai::{
    first_text, request_for, AIError, Candidate, GeminiProvider, GeminiResponse, ResponseContent,
    ResponsePart, DEFAULT_API_URL, DEFAULT_MODEL,
};
use video_search::gemini;
use video_search::youtube::{
    YouTubeClient, YouTubeSearchItem, YouTubeSearchResponse, YouTubeSnippet, YouTubeVideoId,
};

fn candidate(parts: &[&str]) -> Candidate {
    Candidate {
        content: ResponseContent {
            parts: parts.iter().map(|t| ResponsePart { text: t.to_string() }).collect(),
        },
    }
}

fn snippet(title: &str) -> YouTubeSnippet {
    YouTubeSnippet {
        title: title.to_string(),
        description: "about".to_string(),
        channel_title: "channel".to_string(),
        published_at: "2024-05-01T10:00:00Z".to_string(),
    }
}

fn item(id: Option<&str>, title: &str) -> YouTubeSearchItem {
    YouTubeSearchItem {
        id: YouTubeVideoId { video_id: id.map(|s| s.to_string()) },
        snippet: snippet(title),
    }
}

#[test]
fn provider_keeps_what_it_is_given() {
    let p = GeminiProvider::new("k".to_string(), "u".to_string(), "m".to_string());
    assert_eq!(p.api_key, "k");
    assert_eq!(p.api_url, "u");
    assert_eq!(p.model, "m");
    assert_eq!(p.name(), "Gemini");
}

#[test]
fn provider_from_variables() {
    let p = GeminiProvider::from_env(Some("k".to_string()), None, None).unwrap();
    assert_eq!(p.api_key, "k");
    assert_eq!(p.api_url, "https://generativelanguage.googleapis.com/v1beta/models");
    assert_eq!(p.api_url, DEFAULT_API_URL);
    assert_eq!(p.model, "gemini-2.5-flash");
    assert_eq!(p.model, DEFAULT_MODEL);
    let q = GeminiProvider::from_env(
        Some("k".to_string()),
        Some("https://x/".to_string()),
        Some("m2".to_string()),
    )
    .unwrap();
    assert_eq!(q.api_url, "https://x/");
    assert_eq!(q.model, "m2");
}

#[test]
fn provider_needs_a_key() {
    match GeminiProvider::from_env(None, Some("u".to_string()), Some("m".to_string())) {
        Err(AIError::ConfigurationError(msg)) => {
            assert_eq!(msg, "GEMINI_API_KEY environment variable not set")
        }
        _ => panic!("expected a configuration error"),
    }
}

#[test]
fn endpoint_has_one_slash_before_the_model() {
    let p = GeminiProvider::new("k".to_string(), "https://x/models//".to_string(), "m".to_string());
    assert_eq!(p.endpoint(), "https://x/models/m:generateContent");
    let q = GeminiProvider::from_env(Some("k".to_string()), None, None).unwrap();
    assert_eq!(
        q.endpoint(),
        "https://generativelanguage.googleapis.com/v1beta/models/gemini-2.5-flash:generateContent"
    );
}

#[test]
fn request_holds_the_prompt() {
    let r = request_for("why?");
    assert_eq!(r.contents.len(), 1);
    assert_eq!(r.contents[0].parts.len(), 1);
    assert_eq!(r.contents[0].parts[0].text, "why?");
}

#[test]
fn answer_is_the_first_part_of_the_first_candidate() {
    let response = GeminiResponse { candidates: vec![candidate(&["one", "two"]), candidate(&["x"])] };
    assert_eq!(first_text(&response).as_deref(), Some("one"));
    assert_eq!(GeminiProvider::answer(&response).unwrap(), "one");
    assert_eq!(gemini::answer(&response).unwrap(), "one");
}

#[test]
fn response_without_text_is_no_response() {
    for response in [
        GeminiResponse { candidates: vec![] },
        GeminiResponse { candidates: vec![candidate(&[])] },
        GeminiResponse { candidates: vec![candidate(&[]), candidate(&["late"])] },
    ] {
        assert_eq!(first_text(&response), None);
        assert!(matches!(GeminiProvider::answer(&response), Err(AIError::NoResponse)));
        assert_eq!(gemini::answer(&response).unwrap_err(), "No response from Gemini");
    }
}

#[test]
fn api_error_carries_status_and_body() {
    match GeminiProvider::api_error(503, Some("busy".to_string())) {
        AIError::ApiError { status, message } => {
            assert_eq!(status, 503);
            assert_eq!(message, "busy");
        }
        _ => panic!("expected an API error"),
    }
    match GeminiProvider::api_error(500, None) {
        AIError::ApiError { status, message } => {
            assert_eq!(status, 500);
            assert_eq!(message, "Unknown error");
        }
        _ => panic!("expected an API error"),
    }
}

#[test]
fn fixed_model_address_and_messages() {
    assert_eq!(
        gemini::request_url("K"),
        "https://generativelanguage.googleapis.com/v1beta/models/gemini-2.0-flash-exp:generateContent?key=K"
    );
    assert_eq!(
        gemini::status_error("404 Not Found", "nope"),
        "Gemini API error (404 Not Found): nope"
    );
}

#[test]
fn client_needs_a_key() {
    assert_eq!(YouTubeClient::from_env(Some("K".to_string())).ok().unwrap().api_key, "K");
    match YouTubeClient::from_env(None) {
        Err(msg) => assert_eq!(msg, "YOUTUBE_API_KEY não encontrada nas variáveis de ambiente"),
        Ok(_) => panic!("expected an error"),
    }
}

#[test]
fn client_builds_the_request_address() {
    let client = YouTubeClient { api_key: "K".to_string() };
    assert_eq!(
        client.search_url("rust & go"),
        "https://www.googleapis.com/youtube/v3/search?part=snippet&q=rust%20%26%20go&type=video&maxResults=1&key=K"
    );
    assert_eq!(
        YouTubeClient::status_error("403 Forbidden", "quota"),
        "YouTube API retornou erro 403 Forbidden: quota"
    );
}

#[test]
fn first_video_of_an_answer() {
    let response = YouTubeSearchResponse { items: vec![item(Some("v1"), "one"), item(Some("v2"), "two")] };
    let (id, snippet) = YouTubeClient::first_video(&response).unwrap();
    assert_eq!(id, "v1");
    assert_eq!(snippet.title, "one");
    assert_eq!(snippet.description, "about");
    assert_eq!(snippet.channel_title, "channel");
    assert_eq!(snippet.published_at, "2024-05-01T10:00:00Z");
}

#[test]
fn answer_without_a_video() {
    let empty = YouTubeSearchResponse { items: vec![] };
    assert_eq!(
        YouTubeClient::first_video(&empty).unwrap_err(),
        "Nenhum vídeo encontrado para essa busca"
    );
    let no_id = YouTubeSearchResponse { items: vec![item(None, "one"), item(Some("v2"), "two")] };
    assert_eq!(YouTubeClient::first_video(&no_id).unwrap_err(), "Vídeo não possui ID válido");
}

#[test]
fn watch_address_of_a_video() {
    assert_eq!(YouTubeClient::get_video_url("abc123"), "https://www.youtube.com/watch?v=abc123");
    assert_eq!(YouTubeClient::get_video_url(""), "https://www.youtube.com/watch?v=");
}

#[test]
fn snippet_clone_keeps_every_field() {
    let s = snippet("t");
    let c = s.clone();
    assert_eq!(c.title, s.title);
    assert_eq!(c.description, s.description);
    assert_eq!(c.channel_title, s.channel_title);
    assert_eq!(c.published_at, s.published_at);
}
