//! What holds of the extraction as a whole, proved from the definitions
//! that the functions' contracts use.

use vstd::prelude::*;
use vstd::utf8::*;
use crate::document::decoded;
use crate::error::SearchFailure;
use crate::json::JsonTree;
use crate::locate::{
    block_end, block_start, brace_depth, closes_at, first_occurs_at, lemma_closes_once,
    lemma_first_occurrence, located, occurs_at, occurs_in, ANCHOR, OPEN_BRACE,
};
use crate::project::{entries_records, plain_text, record_of, sections_records, thumbnail_urls};
use crate::search::{extracted, page_results};
use crate::video::VideoRecord;

verus! {

/// A page is found to have no embedded data exactly where the anchor's
/// bytes stand nowhere in it. Such a page yields `NotFound` at every step:
/// never a document, never a list, not even an empty one.
pub proof fn lemma_not_found_iff_anchor_missing(page: Seq<char>)
    ensures
        !occurs_in(encode_utf8(ANCHOR@), encode_utf8(page)) <==> located(page) == Err::<
            Seq<char>,
            SearchFailure,
        >(SearchFailure::NotFound("Could not find ytInitialData in HTML"@)),
        located(page) matches Err(SearchFailure::NotFound(_)) <==> !occurs_in(
            encode_utf8(ANCHOR@),
            encode_utf8(page),
        ),
        extracted(page) matches Err(SearchFailure::NotFound(_)) <==> !occurs_in(
            encode_utf8(ANCHOR@),
            encode_utf8(page),
        ),
        page_results(page) matches Err(SearchFailure::NotFound(_)) <==> !occurs_in(
            encode_utf8(ANCHOR@),
            encode_utf8(page),
        ),
{
}

/// A page that holds the anchor, and whose brace depth is never back at
/// zero behind the brace that opens its block, is malformed: it yields the
/// parse error, and no shorter text is handed out. So is a page that holds
/// the anchor and no opening brace behind it.
pub proof fn lemma_unclosed_block_is_malformed(page: Seq<char>)
    requires
        occurs_in(encode_utf8(ANCHOR@), encode_utf8(page)),
        forall|start: int, end: int|
            block_start(ANCHOR@, page) == Some(start) && start <= end < encode_utf8(page).len()
                ==> #[trigger] brace_depth(encode_utf8(page), start, end + 1) != 0,
    ensures
        located(page) == Err::<Seq<char>, SearchFailure>(
            SearchFailure::ParseError("Invalid JSON structure in HTML"@),
        ),
        extracted(page) == Err::<JsonTree, SearchFailure>(
            SearchFailure::ParseError("Invalid JSON structure in HTML"@),
        ),
{
    let bytes = encode_utf8(page);
    match block_start(ANCHOR@, page) {
        Some(start) => {
            assert forall|end: int| !closes_at(bytes, start, end) by {
                if closes_at(bytes, start, end) {
                    assert(brace_depth(bytes, start, end + 1) == 0);
                }
            }
        },
        None => {},
    }
}

/// Whether the block of a page that holds the anchor closes: it opens
/// behind the anchor, and its brace depth is back at zero somewhere.
pub open spec fn block_closes(page: Seq<char>) -> bool {
    match block_start(ANCHOR@, page) {
        Some(start) => block_end(encode_utf8(page), start) is Some,
        None => false,
    }
}

/// A page is found malformed exactly where it holds the anchor and its
/// block never opens or never closes. Every other page with the anchor
/// yields the whole block, from its opening brace through the closing one.
pub proof fn lemma_malformed_iff_never_closed(page: Seq<char>)
    ensures
        located(page) == Err::<Seq<char>, SearchFailure>(
            SearchFailure::ParseError("Invalid JSON structure in HTML"@),
        ) <==> occurs_in(encode_utf8(ANCHOR@), encode_utf8(page)) && !block_closes(page),
        located(page) is Ok <==> occurs_in(encode_utf8(ANCHOR@), encode_utf8(page))
            && block_closes(page),
        located(page) is Ok ==> {
            let start = block_start(ANCHOR@, page).unwrap();
            let end = block_end(encode_utf8(page), start).unwrap();
            &&& closes_at(encode_utf8(page), start, end)
            &&& located(page) == Ok::<Seq<char>, SearchFailure>(
                decode_utf8(encode_utf8(page).subrange(start, end + 1)),
            )
        },
{
}

/// The anchor's bytes: twenty of them, the first a `v`, and no other a `v`.
/// So no occurrence of the anchor starts inside another.
pub proof fn lemma_anchor_bytes()
    ensures
        encode_utf8(ANCHOR@).len() == 20,
        encode_utf8(ANCHOR@)[0] == 0x76,
        forall|k: int| 0 < k < 20 ==> #[trigger] encode_utf8(ANCHOR@)[k] != 0x76,
{
    reveal_strlit("var ytInitialData = ");
    let chars = ANCHOR@;
    assert(chars.len() == 20);
    assert(is_ascii_chars(chars));
    is_ascii_chars_encode_utf8(chars);
    let bytes = encode_utf8(chars);
    assert(bytes[0] == chars[0] as u8);
    assert forall|k: int| 0 < k < 20 implies #[trigger] bytes[k] != 0x76 by {
        assert(bytes[k] == chars[k] as u8);
    }
}

/// The encoding of a text that is put together from two is put together
/// from their encodings.
pub proof fn lemma_encoding_of_concat(a: Seq<char>, b: Seq<char>)
    ensures
        encode_utf8(a + b) == encode_utf8(a) + encode_utf8(b),
    decreases a.len(),
{
    if a.len() == 0 {
        assert(a + b =~= b);
        assert(encode_utf8(a) + encode_utf8(b) =~= encode_utf8(b));
    } else {
        assert((a + b).drop_first() =~= a.drop_first() + b);
        lemma_encoding_of_concat(a.drop_first(), b);
        assert(encode_utf8(a + b) =~= encode_utf8(a) + encode_utf8(b));
    }
}

/// The brace depth inside a part of a byte string is the depth inside the
/// part taken alone.
pub proof fn lemma_depth_of_part(before: Seq<u8>, part: Seq<u8>, after: Seq<u8>, to: int)
    requires
        0 <= to <= part.len(),
    ensures
        brace_depth(before + part + after, before.len() as int, before.len() + to) == brace_depth(
            part,
            0,
            to,
        ),
    decreases to,
{
    if to > 0 {
        lemma_depth_of_part(before, part, after, to - 1);
        assert((before + part + after)[before.len() + to - 1] == part[to - 1]);
    }
}

/// Round trip: a page that holds, behind a text without the anchor, the
/// anchor and right behind it a JSON object, whatever follows, yields that
/// object's text, and so whatever that text decodes to. The object is one
/// balanced block: it starts with `{` and its brace depth is back at zero at
/// its end and not before.
pub proof fn lemma_embedded_text_round_trips(before: Seq<char>, json: Seq<char>, after: Seq<char>)
    requires
        !occurs_in(encode_utf8(ANCHOR@), encode_utf8(before)),
        encode_utf8(json).len() > 0,
        encode_utf8(json)[0] == OPEN_BRACE,
        brace_depth(encode_utf8(json), 0, encode_utf8(json).len() as int) == 0,
        forall|k: int|
            0 < k < encode_utf8(json).len() ==> #[trigger] brace_depth(encode_utf8(json), 0, k)
                != 0,
    ensures
        located(before + ANCHOR@ + json + after) == Ok::<Seq<char>, SearchFailure>(json),
        extracted(before + ANCHOR@ + json + after) == decoded(json),
{
    let page = before + ANCHOR@ + json + after;
    let lead = encode_utf8(before);
    let mark = encode_utf8(ANCHOR@);
    let body = encode_utf8(json);
    let tail = encode_utf8(after);
    let bytes = encode_utf8(page);
    lemma_encoding_of_concat(before + ANCHOR@ + json, after);
    lemma_encoding_of_concat(before + ANCHOR@, json);
    lemma_encoding_of_concat(before, ANCHOR@);
    assert(bytes == lead + mark + body + tail);
    lemma_anchor_bytes();
    let at = lead.len() as int;
    assert(first_occurs_at(mark, bytes, at)) by {
        assert(bytes.subrange(at, at + mark.len()) =~= mark);
        assert forall|earlier: int| 0 <= earlier < at implies !occurs_at(mark, bytes, earlier) by {
            if occurs_at(mark, bytes, earlier) {
                let found = bytes.subrange(earlier, earlier + mark.len());
                if earlier + mark.len() <= lead.len() {
                    assert(lead.subrange(earlier, earlier + mark.len()) =~= found);
                    assert(occurs_at(mark, lead, earlier));
                } else {
                    let k = at - earlier;
                    assert(found[k] == bytes[at]);
                    assert(bytes[at] == mark[0]);
                    assert(mark[k] != 0x76);
                }
            }
        }
    }
    lemma_first_occurrence(mark, bytes, at);
    let head = lead + mark;
    let start = head.len() as int;
    assert(bytes[start] == body[0]);
    assert(block_start(ANCHOR@, page) == Some(start));
    let end = start + body.len() - 1;
    assert(bytes == head + body + tail);
    assert(closes_at(bytes, start, end)) by {
        lemma_depth_of_part(head, body, tail, body.len() as int);
        assert forall|k: int| start < k <= end implies #[trigger] brace_depth(bytes, start, k)
            != 0 by {
            lemma_depth_of_part(head, body, tail, k - start);
        }
    }
    let chosen = choose|e: int| closes_at(bytes, start, e);
    lemma_closes_once(bytes, start, end, chosen);
    assert(block_end(bytes, start) == Some(end));
    assert(bytes.subrange(start, end + 1) =~= body);
    encode_utf8_decode_utf8(json);
}

/// The records of the entries of two lists, one behind the other, are the
/// records of the first list and behind them those of the second: entries
/// keep their order, and none is dropped, repeated or moved.
pub proof fn lemma_entries_keep_order(first: Seq<JsonTree>, second: Seq<JsonTree>)
    ensures
        entries_records(first + second) == entries_records(first) + entries_records(second),
    decreases second.len(),
{
    if second.len() == 0 {
        assert(first + second =~= first);
        assert(entries_records(first) + entries_records(second) =~= entries_records(first));
    } else {
        assert((first + second).drop_last() =~= first + second.drop_last());
        lemma_entries_keep_order(first, second.drop_last());
        assert(entries_records(first + second) =~= entries_records(first) + entries_records(
            second,
        ));
    }
}

/// The records of two lists of sections, one behind the other, are the
/// records of the first list and behind them those of the second.
pub proof fn lemma_sections_keep_order(first: Seq<JsonTree>, second: Seq<JsonTree>)
    ensures
        sections_records(first + second) == sections_records(first) + sections_records(second),
    decreases second.len(),
{
    if second.len() == 0 {
        assert(first + second =~= first);
        assert(sections_records(first) + sections_records(second) =~= sections_records(first));
    } else {
        assert((first + second).drop_last() =~= first + second.drop_last());
        lemma_sections_keep_order(first, second.drop_last());
        assert(sections_records(first + second) =~= sections_records(first) + sections_records(
            second,
        ));
    }
}

/// Three video entries in the order A, B, C yield exactly the records of
/// A, B and C, in that order.
pub proof fn lemma_three_entries_in_order(
    a: JsonTree,
    b: JsonTree,
    c: JsonTree,
    node_a: JsonTree,
    node_b: JsonTree,
    node_c: JsonTree,
)
    requires
        a.get("videoRenderer"@) == Some(node_a),
        b.get("videoRenderer"@) == Some(node_b),
        c.get("videoRenderer"@) == Some(node_c),
    ensures
        entries_records(seq![a, b, c]) == seq![
            record_of(node_a),
            record_of(node_b),
            record_of(node_c),
        ],
{
    lemma_entries_of_all_videos(seq![a, b, c]);
    assert(entries_records(seq![a, b, c]) =~= seq![
        record_of(node_a),
        record_of(node_b),
        record_of(node_c),
    ]);
}

/// Where every entry of a section is a video, the section's records are
/// the entries' records, one for one and in the same order.
pub proof fn lemma_entries_of_all_videos(entries: Seq<JsonTree>)
    requires
        forall|i: int| 0 <= i < entries.len() ==> entries[i].get("videoRenderer"@) is Some,
    ensures
        entries_records(entries).len() == entries.len(),
        forall|i: int|
            0 <= i < entries.len() ==> #[trigger] entries_records(entries)[i] == record_of(
                entries[i].get("videoRenderer"@).unwrap(),
            ),
    decreases entries.len(),
{
    if entries.len() > 0 {
        lemma_entries_of_all_videos(entries.drop_last());
    }
}

/// The thumbnail addresses of two lists of entries, one behind the other,
/// are those of the first list and behind them those of the second.
pub proof fn lemma_thumbnails_keep_order(first: Seq<JsonTree>, second: Seq<JsonTree>)
    ensures
        thumbnail_urls(first + second) == thumbnail_urls(first) + thumbnail_urls(second),
    decreases second.len(),
{
    if second.len() == 0 {
        assert(first + second =~= first);
        assert(thumbnail_urls(first) + thumbnail_urls(second) =~= thumbnail_urls(first));
    } else {
        assert((first + second).drop_last() =~= first + second.drop_last());
        lemma_thumbnails_keep_order(first, second.drop_last());
        assert(thumbnail_urls(first + second) =~= thumbnail_urls(first) + thumbnail_urls(second));
    }
}

/// Of three thumbnail entries of which the second carries no address, the
/// addresses of the first and the third are kept, in that order.
pub proof fn lemma_thumbnail_without_url_is_dropped(
    a: JsonTree,
    b: JsonTree,
    c: JsonTree,
    url_a: Seq<char>,
    url_c: Seq<char>,
)
    requires
        plain_text(a, "url"@) == Some(url_a),
        plain_text(b, "url"@) is None,
        plain_text(c, "url"@) == Some(url_c),
    ensures
        thumbnail_urls(seq![a, b, c]) == seq![url_a, url_c],
{
    let all = seq![a, b, c];
    assert(all.drop_last() =~= seq![a, b]);
    assert(seq![a, b].drop_last() =~= seq![a]);
    assert(seq![a].drop_last() =~= Seq::<JsonTree>::empty());
    assert(thumbnail_urls(Seq::<JsonTree>::empty()) =~= Seq::<Seq<char>>::empty());
    assert(thumbnail_urls(seq![a]) =~= seq![url_a]);
    assert(thumbnail_urls(seq![a, b]) =~= seq![url_a]);
    assert(thumbnail_urls(all) =~= seq![url_a, url_c]);
}

/// The fields of a record are read independently. Of two item nodes that
/// differ under the key `title` only, the second of which has no title,
/// the records agree in every field but the title, which the second lacks.
pub proof fn lemma_missing_title_spares_the_rest(with_title: JsonTree, without: JsonTree)
    requires
        without.get("title"@) is None,
        forall|key: Seq<char>| key != "title"@ ==> with_title.get(key) == without.get(key),
    ensures
        record_of(without) == (VideoRecord { title: None, ..record_of(with_title) }),
{
    reveal_strlit("title");
    reveal_strlit("videoId");
    reveal_strlit("thumbnail");
    reveal_strlit("descriptionSnippet");
    reveal_strlit("longBylineText");
    reveal_strlit("lengthText");
    reveal_strlit("viewCountText");
    reveal_strlit("publishedTimeText");
    reveal_strlit("navigationEndpoint");
    assert("title"@.len() == 5);
    assert("videoId"@.len() == 7);
    assert("thumbnail"@.len() == 9);
    assert("descriptionSnippet"@.len() == 18);
    assert("longBylineText"@.len() == 14);
    assert("lengthText"@.len() == 10);
    assert("viewCountText"@.len() == 13);
    assert("publishedTimeText"@.len() == 17);
    assert("navigationEndpoint"@.len() == 18);
}

} // verus!
