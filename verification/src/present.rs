//! The texts with which results and answers are shown. Fallbacks for
//! absent fields are put in here, never into the records themselves.

use vstd::prelude::*;
use vstd::string::*;
use vstd::utf8::*;
use crate::ai::AIError;
use crate::error::SearchError;
use crate::text::{
    before_first, decimal, decimal_text, leading_bytes, prefix, take_before,
};
use crate::video::{records_of, text_view, VideoRecord, YoutubeVideo};
use crate::youtube::WATCH_URL;

verus! {

/// How many results are shown at most.
pub const DISPLAY_COUNT: usize = 10;

/// How many bytes of an item's description are shown at most.
pub const SNIPPET_LIMIT: usize = 200;

/// How many bytes an answer may have when it is shown.
pub const EMBED_DESCRIPTION_LIMIT: usize = 4096;

/// What stands at the end of an answer that was cut.
pub const TRUNCATE_SUFFIX: &'static str = "\n\n... *(resposta truncada por exceder o limite)*";

/// What a question is preceded by when it is sent.
pub const QUESTION_PREAMBLE: &'static str =
    "Responda de forma clara e objetiva, limitando sua resposta a aproximadamente 3000 caracteres. Se a resposta for muito longa, priorize as informações mais importantes e relevantes.\n\nPergunta: ";

/// A text, or what is shown in its place where it is absent.
pub open spec fn or_text(text: Option<Seq<char>>, fallback: Seq<char>) -> Seq<char> {
    match text {
        Some(s) => s,
        None => fallback,
    }
}

/// The address under which a video is watched, or the words that say that
/// it has none.
pub open spec fn link_of(video: VideoRecord) -> Seq<char> {
    match video.id {
        Some(id) => WATCH_URL@ + id,
        None => "Link não disponível"@,
    }
}

/// The line with a result's number, counted from one, and its title.
pub open spec fn title_line(index: nat, video: VideoRecord) -> Seq<char> {
    "**"@ + decimal(index + 1) + ". "@ + or_text(video.title, "Sem título"@) + "**\n"@
}

/// The line with a result's channel.
pub open spec fn channel_line(video: VideoRecord) -> Seq<char> {
    "👤 "@ + or_text(video.channel, "Canal desconhecido"@) + "\n"@
}

/// The line with a result's length and view count.
pub open spec fn counts_line(video: VideoRecord) -> Seq<char> {
    "⏱️ "@ + or_text(video.duration, "N/A"@) + " | 👁️ "@ + or_text(video.views, "N/A"@) + "\n"@
}

/// The line with a result's address, and the empty line behind it.
pub open spec fn link_line(video: VideoRecord) -> Seq<char> {
    "🔗 "@ + link_of(video) + "\n\n"@
}

/// The lines that show the result at `index`, counted from zero.
pub open spec fn entry_lines(index: nat, video: VideoRecord) -> Seq<char> {
    title_line(index, video) + channel_line(video) + counts_line(video) + link_line(video)
}

/// The lines that show the first `count` results.
pub open spec fn entries_lines(videos: Seq<VideoRecord>, count: nat) -> Seq<char>
    decreases count,
{
    if count == 0 {
        seq![]
    } else {
        entries_lines(videos, (count - 1) as nat) + entry_lines(
            (count - 1) as nat,
            videos[count - 1],
        )
    }
}

/// How many of `total` results are shown.
pub open spec fn shown_count(total: nat) -> nat {
    if total > DISPLAY_COUNT {
        DISPLAY_COUNT as nat
    } else {
        total
    }
}

/// The text that shows a result list: the first results, and a note where
/// there are more than are shown.
pub open spec fn results_text(videos: Seq<VideoRecord>) -> Seq<char> {
    entries_lines(videos, shown_count(videos.len())) + if videos.len() > DISPLAY_COUNT {
        "\n*Mostrando 10 de "@ + decimal(videos.len()) + " resultados encontrados*"@
    } else {
        seq![]
    }
}

/// A text that may be absent, or its fallback.
pub fn text_or<'a>(text: &'a Option<String>, fallback: &'a str) -> (shown: &'a str)
    ensures
        shown@ == or_text(text_view(*text), fallback@),
{
    match text {
        Some(s) => s.as_str(),
        None => fallback,
    }
}

/// The address under which a video is watched.
pub fn video_link(video: &YoutubeVideo) -> (link: String)
    ensures
        link@ == link_of(video@),
{
    match &video.id {
        Some(id) => WATCH_URL.to_owned().concat(id.as_str()),
        None => "Link não disponível".to_owned(),
    }
}

/// Appends the lines that show the result at `index`.
pub fn append_entry(out: &mut String, index: usize, video: &YoutubeVideo)
    requires
        index < usize::MAX,
    ensures
        final(out)@ == old(out)@ + entry_lines(index as nat, video@),
{
    let number = decimal_text((index + 1) as u64);
    let title = "**".to_owned().concat(number.as_str()).concat(". ").concat(
        text_or(&video.title, "Sem título"),
    ).concat("**\n");
    let channel = "👤 ".to_owned().concat(text_or(&video.channel, "Canal desconhecido")).concat(
        "\n",
    );
    let counts = "⏱️ ".to_owned().concat(text_or(&video.duration, "N/A")).concat(" | 👁️ ").concat(
        text_or(&video.views, "N/A"),
    ).concat("\n");
    let link = "🔗 ".to_owned().concat(video_link(video).as_str()).concat("\n\n");
    out.append(title.as_str());
    out.append(channel.as_str());
    out.append(counts.as_str());
    out.append(link.as_str());
    assert(out@ =~= old(out)@ + entry_lines(index as nat, video@));
}

/// Writes the text that shows a result list.
pub fn results_description(videos: &Vec<YoutubeVideo>) -> (text: String)
    ensures
        text@ == results_text(records_of(videos@)),
{
    let shown: usize = if videos.len() > DISPLAY_COUNT {
        DISPLAY_COUNT
    } else {
        videos.len()
    };
    let mut text = String::new();
    let mut i: usize = 0;
    while i < shown
        invariant
            i <= shown <= videos@.len(),
            text@ == entries_lines(records_of(videos@), i as nat),
        decreases shown - i,
    {
        append_entry(&mut text, i, &videos[i]);
        i += 1;
    }
    if videos.len() > DISPLAY_COUNT {
        let total = decimal_text(videos.len() as u64);
        text.append("\n*Mostrando 10 de ");
        text.append(total.as_str());
        text.append(" resultados encontrados*");
        assert(text@ =~= results_text(records_of(videos@)));
    } else {
        assert(text@ =~= results_text(records_of(videos@)));
    }
    text
}

/// What a search command answers with.
#[derive(Debug)]
pub enum Reply {
    /// A plain message.
    Say(String),
    /// A framed message with this description.
    Embed(String),
}

/// The mathematical value of a [`Reply`].
pub enum ReplyText {
    Say(Seq<char>),
    Embed(Seq<char>),
}

impl View for Reply {
    type V = ReplyText;

    open spec fn view(&self) -> ReplyText {
        match self {
            Reply::Say(text) => ReplyText::Say(text@),
            Reply::Embed(text) => ReplyText::Embed(text@),
        }
    }
}

/// The answer to a search command: the failure in words, the word that
/// nothing was found, or the framed list of results.
pub fn search_reply(outcome: &Result<Vec<YoutubeVideo>, SearchError>) -> (reply: Reply)
    ensures
        reply@ == match outcome {
            Err(e) => ReplyText::Say("Erro ao buscar vídeos: "@ + e@.text()),
            Ok(videos) => if videos@.len() == 0 {
                ReplyText::Say("Nenhum vídeo encontrado para essa busca."@)
            } else {
                ReplyText::Embed(results_text(records_of(videos@)))
            },
        },
{
    match outcome {
        Err(e) => Reply::Say(search_failure_text(e)),
        Ok(videos) => if videos.len() == 0 {
            Reply::Say("Nenhum vídeo encontrado para essa busca.".to_owned())
        } else {
            Reply::Embed(results_description(videos))
        },
    }
}

/// The words that say that a search failed.
pub fn search_failure_text(error: &SearchError) -> (text: String)
    ensures
        text@ == "Erro ao buscar vídeos: "@ + error@.text(),
{
    "Erro ao buscar vídeos: ".to_owned().concat(error.to_text().as_str())
}

/// An item's description as it is shown: cut after its first bytes, with
/// three dots, where it is longer than the limit.
pub open spec fn shortened(description: Seq<char>) -> Seq<char> {
    if encode_utf8(description).len() > SNIPPET_LIMIT {
        leading_bytes(description, SNIPPET_LIMIT as int) + "..."@
    } else {
        description
    }
}

/// Shortens an item's description. A description that is longer than the
/// limit must not have a character across the limit.
pub fn short_description(description: &str) -> (text: String)
    requires
        description.spec_bytes().len() > SNIPPET_LIMIT ==> is_char_boundary(
            description.spec_bytes(),
            SNIPPET_LIMIT as int,
        ),
    ensures
        text@ == shortened(description@),
{
    if description.as_bytes().len() > SNIPPET_LIMIT {
        prefix(description, SNIPPET_LIMIT).to_owned().concat("...")
    } else {
        description.to_owned()
    }
}

/// The day of a time stamp: what stands before its first `T`.
pub fn published_date<'a>(published_at: &'a str) -> (day: &'a str)
    ensures
        day@ == before_first(published_at@, 0x54),
{
    take_before(published_at, 0x54)
}

/// A question as it is sent: behind the request for a short answer.
pub fn enhanced_question(question: &str) -> (text: String)
    ensures
        text@ == QUESTION_PREAMBLE@ + question@,
{
    QUESTION_PREAMBLE.to_owned().concat(question)
}

/// The words that are shown in place of an answer that could not be had.
pub fn missing_answer_text(provider: &str, error: &str) -> (text: String)
    ensures
        text@ == "Desculpe, não consegui obter uma resposta do "@ + provider@ + ": "@ + error@,
{
    "Desculpe, não consegui obter uma resposta do ".to_owned().concat(provider).concat(
        ": ",
    ).concat(error)
}

/// The text that answers a question: the service's answer, or the words
/// that say why there is none.
pub fn answer_text(outcome: Result<String, AIError>, provider: &str) -> (text: String)
    ensures
        text@ == match outcome {
            Ok(answer) => answer@,
            Err(e) => "Desculpe, não consegui obter uma resposta do "@ + provider@ + ": "@
                + e@.text(),
        },
{
    match outcome {
        Ok(answer) => answer,
        Err(e) => missing_answer_text(provider, e.to_text().as_str()),
    }
}

/// The heading under which a video is shown.
pub fn video_heading(title: &str) -> (text: String)
    ensures
        text@ == "🎥 "@ + title@,
{
    "🎥 ".to_owned().concat(title)
}

/// The words that say that a video could not be looked up.
pub fn lookup_failure_text(reason: &str) -> (text: String)
    ensures
        text@ == "Não foi possível buscar vídeos: "@ + reason@,
{
    "Não foi possível buscar vídeos: ".to_owned().concat(reason)
}

/// How many bytes of an answer are kept where it is cut.
pub open spec fn kept_bytes() -> int {
    EMBED_DESCRIPTION_LIMIT - encode_utf8(TRUNCATE_SUFFIX@).len()
}

/// An answer as it is shown: whole where it fits, else cut so that it fits
/// together with the note that says so.
pub open spec fn limited(answer: Seq<char>) -> Seq<char> {
    if encode_utf8(answer).len() > EMBED_DESCRIPTION_LIMIT {
        leading_bytes(answer, kept_bytes()) + TRUNCATE_SUFFIX@
    } else {
        answer
    }
}

/// The note is shorter than the limit.
pub proof fn lemma_suffix_fits()
    ensures
        0 < kept_bytes() < EMBED_DESCRIPTION_LIMIT,
{
    reveal_strlit("\n\n... *(resposta truncada por exceder o limite)*");
    let chars = TRUNCATE_SUFFIX@;
    assert(chars.len() == 48);
    assert(is_ascii_chars(chars));
    is_ascii_chars_encode_utf8(chars);
}

/// Cuts an answer to the limit. An answer that is longer than the limit
/// must not have a character across the place of the cut.
pub fn limited_answer(answer: String) -> (text: String)
    requires
        encode_utf8(answer@).len() > EMBED_DESCRIPTION_LIMIT ==> is_char_boundary(
            encode_utf8(answer@),
            kept_bytes(),
        ),
    ensures
        text@ == limited(answer@),
{
    proof {
        lemma_suffix_fits();
    }
    if answer.as_str().as_bytes().len() > EMBED_DESCRIPTION_LIMIT {
        let kept: usize = EMBED_DESCRIPTION_LIMIT - TRUNCATE_SUFFIX.as_bytes().len();
        prefix(answer.as_str(), kept).to_owned().concat(TRUNCATE_SUFFIX)
    } else {
        answer
    }
}

} // verus!
