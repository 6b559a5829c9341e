use video_search::ai::AIError;
use video_search::error::SearchError;
use video_search::present::{
    answer_text, lookup_failure_text, video_heading, enhanced_question, limited_answer, missing_answer_text, published_date, results_description,
    search_failure_text, search_reply, short_description, text_or, video_link, Reply,
    EMBED_DESCRIPTION_LIMIT, TRUNCATE_SUFFIX,
};
use video_search::video::YoutubeVideo;

fn video(id: Option<&str>, title: Option<&str>) -> YoutubeVideo {
    YoutubeVideo {
        id: id.map(|s| s.to_string()),
        thumbnails: vec![],
        title: title.map(|s| s.to_string()),
        long_desc: None,
        channel: None,
        duration: None,
        views: None,
        publish_time: None,
        url_suffix: None,
    }
}

#[test]
fn described_video_with_every_field() {
    let v = YoutubeVideo {
        id: Some("abc".to_string()),
        thumbnails: vec![],
        title: Some("Title".to_string()),
        long_desc: None,
        channel: Some("Chan".to_string()),
        duration: Some("3:21".to_string()),
        views: Some("10 views".to_string()),
        publish_time: None,
        url_suffix: None,
    };
    assert_eq!(
        results_description(&vec![v]),
        "**1. Title**\n👤 Chan\n⏱️ 3:21 | 👁️ 10 views\n🔗 https://www.youtube.com/watch?v=abc\n\n"
    );
}

#[test]
fn absent_fields_get_their_fallbacks() {
    assert_eq!(
        results_description(&vec![video(None, None)]),
        "**1. Sem título**\n👤 Canal desconhecido\n⏱️ N/A | 👁️ N/A\n🔗 Link não disponível\n\n"
    );
    assert_eq!(video_link(&video(None, None)), "Link não disponível");
    assert_eq!(video_link(&video(Some("x"), None)), "https://www.youtube.com/watch?v=x");
    assert_eq!(text_or(&None, "fallback"), "fallback");
    assert_eq!(text_or(&Some("own".to_string()), "fallback"), "own");
}

#[test]
fn no_results_no_text() {
    assert_eq!(results_description(&vec![]), "");
}

#[test]
fn at_most_ten_results_are_shown() {
    let ten: Vec<YoutubeVideo> = (0..10).map(|i| video(None, Some(&format!("t{}", i)))).collect();
    let text = results_description(&ten);
    assert!(text.contains("**10. t9**\n"));
    assert!(!text.contains("Mostrando"));
    assert_eq!(text.matches("🔗").count(), 10);

    let twelve: Vec<YoutubeVideo> = (0..12).map(|i| video(None, Some(&format!("t{}", i)))).collect();
    let text = results_description(&twelve);
    assert!(text.starts_with("**1. t0**\n"));
    assert!(text.contains("**10. t9**\n"));
    assert!(!text.contains("t10"));
    assert_eq!(text.matches("🔗").count(), 10);
    assert!(text.ends_with("🔗 Link não disponível\n\n\n*Mostrando 10 de 12 resultados encontrados*"));
}

#[test]
fn reply_to_a_search() {
    match search_reply(&Err(SearchError::NotFound("x".to_string()))) {
        Reply::Say(text) => assert_eq!(text, "Erro ao buscar vídeos: Not found: x"),
        other => panic!("unexpected {:?}", other),
    }
    match search_reply(&Ok(vec![])) {
        Reply::Say(text) => assert_eq!(text, "Nenhum vídeo encontrado para essa busca."),
        other => panic!("unexpected {:?}", other),
    }
    match search_reply(&Ok(vec![video(Some("a"), Some("T"))])) {
        Reply::Embed(text) => assert_eq!(
            text,
            "**1. T**\n👤 Canal desconhecido\n⏱️ N/A | 👁️ N/A\n🔗 https://www.youtube.com/watch?v=a\n\n"
        ),
        other => panic!("unexpected {:?}", other),
    }
    assert_eq!(
        search_failure_text(&SearchError::NetworkError("down".to_string())),
        "Erro ao buscar vídeos: Network error: down"
    );
}

#[test]
fn long_descriptions_are_cut() {
    let short = "a".repeat(200);
    assert_eq!(short_description(&short), short);
    let long = "b".repeat(201);
    assert_eq!(short_description(&long), format!("{}...", "b".repeat(200)));
    assert_eq!(short_description(""), "");
    let wide = format!("{}é{}", "c".repeat(198), "d".repeat(10));
    assert_eq!(short_description(&wide), format!("{}é...", "c".repeat(198)));
}

#[test]
fn day_of_a_time_stamp() {
    assert_eq!(published_date("2024-05-01T10:00:00Z"), "2024-05-01");
    assert_eq!(published_date("2024-05-01"), "2024-05-01");
    assert_eq!(published_date(""), "");
}

#[test]
fn question_with_its_preamble() {
    assert_eq!(
        enhanced_question("Por quê?"),
        "Responda de forma clara e objetiva, limitando sua resposta a aproximadamente 3000 caracteres. Se a resposta for muito longa, priorize as informações mais importantes e relevantes.\n\nPergunta: Por quê?"
    );
    assert_eq!(
        missing_answer_text("Gemini", "Network error: down"),
        "Desculpe, não consegui obter uma resposta do Gemini: Network error: down"
    );
}

#[test]
fn answers_are_cut_to_the_limit() {
    assert_eq!(EMBED_DESCRIPTION_LIMIT, 4096);
    assert_eq!(TRUNCATE_SUFFIX.len(), 48);
    let fits = "a".repeat(4096);
    assert_eq!(limited_answer(fits.clone()), fits);
    assert_eq!(limited_answer(String::new()), "");
    let long = "b".repeat(5000);
    let cut = limited_answer(long);
    assert_eq!(cut.len(), 4096);
    assert_eq!(
        cut,
        format!("{}\n\n... *(resposta truncada por exceder o limite)*", "b".repeat(4048))
    );
}

#[test]
fn answer_or_the_reason_for_none() {
    assert_eq!(answer_text(Ok("42".to_string()), "Gemini"), "42");
    assert_eq!(
        answer_text(Err(AIError::NoResponse), "Gemini"),
        "Desculpe, não consegui obter uma resposta do Gemini: No response received from AI provider"
    );
    assert_eq!(
        answer_text(
            Err(AIError::ApiError { status: 429, message: "slow down".to_string() }),
            "Gemini"
        ),
        "Desculpe, não consegui obter uma resposta do Gemini: API error (429): slow down"
    );
}

#[test]
fn video_lookup_in_words() {
    assert_eq!(video_heading("Rust in an hour"), "🎥 Rust in an hour");
    assert_eq!(
        lookup_failure_text("Vídeo não possui ID válido"),
        "Não foi possível buscar vídeos: Vídeo não possui ID válido"
    );
}
