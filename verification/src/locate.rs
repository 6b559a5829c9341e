//! Finding the data blob that a result page embeds after its anchor: the
//! text from an opening brace through the brace that closes it.
//!
//! Braces are counted byte by byte and without regard to string literals, so
//! a brace inside a quoted JSON string moves the count like any other.

use vstd::prelude::*;
use vstd::string::StringSliceAdditionalSpecFns;
use vstd::utf8::*;
use crate::error::{SearchError, SearchFailure};
use crate::text::slice_between;

verus! {

/// The anchor: the text of the assignment that precedes the embedded data.
pub const ANCHOR: &'static str = "var ytInitialData = ";

/// The byte `{`.
pub const OPEN_BRACE: u8 = 0x7b;

/// The byte `}`.
pub const CLOSE_BRACE: u8 = 0x7d;

/// What one byte adds to the brace depth.
pub open spec fn brace_step(b: u8) -> int {
    if b == OPEN_BRACE {
        1
    } else if b == CLOSE_BRACE {
        -1
    } else {
        0
    }
}

/// The brace depth after the bytes from `from` up to, not including, `to`:
/// the opening braces among them less the closing ones.
pub open spec fn brace_depth(bytes: Seq<u8>, from: int, to: int) -> int
    decreases to - from,
{
    if to <= from {
        0
    } else {
        brace_depth(bytes, from, to - 1) + brace_step(bytes[to - 1])
    }
}

/// The block that opens at `start` closes at `end`: there the depth is back
/// at zero for the first time.
pub open spec fn closes_at(bytes: Seq<u8>, start: int, end: int) -> bool {
    &&& 0 <= start <= end < bytes.len()
    &&& brace_depth(bytes, start, end + 1) == 0
    &&& forall|k: int| start < k <= end ==> #[trigger] brace_depth(bytes, start, k) != 0
}

/// The index of the first `{` among the bytes from `from` up to `to`.
pub open spec fn first_open_brace(bytes: Seq<u8>, from: int, to: int) -> Option<int>
    decreases to - from,
{
    if from >= to {
        None
    } else if bytes[from] == OPEN_BRACE {
        Some(from)
    } else {
        first_open_brace(bytes, from + 1, to)
    }
}

/// The bytes of `needle` stand in `hay` from the index `at` on.
pub open spec fn occurs_at(needle: Seq<u8>, hay: Seq<u8>, at: int) -> bool {
    &&& 0 <= at
    &&& at + needle.len() <= hay.len()
    &&& hay.subrange(at, at + needle.len()) == needle
}

/// The bytes of `needle` stand somewhere in `hay`.
pub open spec fn occurs_in(needle: Seq<u8>, hay: Seq<u8>) -> bool {
    exists|at: int| occurs_at(needle, hay, at)
}

/// The bytes of `needle` stand in `hay` from `at` on, and from no index
/// before it.
pub open spec fn first_occurs_at(needle: Seq<u8>, hay: Seq<u8>, at: int) -> bool {
    &&& occurs_at(needle, hay, at)
    &&& forall|before: int| 0 <= before < at ==> !occurs_at(needle, hay, before)
}

/// Where `needle` first stands in `hay`; absent where it stands nowhere.
pub open spec fn first_occurrence(needle: Seq<u8>, hay: Seq<u8>) -> Option<int> {
    if occurs_in(needle, hay) {
        Some(choose|at: int| first_occurs_at(needle, hay, at))
    } else {
        None
    }
}

/// Where the block that opens at `start` closes, if it ever does.
pub open spec fn block_end(bytes: Seq<u8>, start: int) -> Option<int> {
    if exists|end: int| closes_at(bytes, start, end) {
        Some(choose|end: int| closes_at(bytes, start, end))
    } else {
        None
    }
}

/// Where a page's block opens: at the first `{` at or behind the end of
/// the anchor's first occurrence. Absent where the anchor stands nowhere in
/// the page, or no `{` behind it.
pub open spec fn block_start(anchor: Seq<char>, page: Seq<char>) -> Option<int> {
    let bytes = encode_utf8(page);
    let mark = encode_utf8(anchor);
    match first_occurrence(mark, bytes) {
        Some(at) => first_open_brace(bytes, at + mark.len(), bytes.len() as int),
        None => None,
    }
}

/// The text that a page embeds behind an anchor, or the reason for which
/// it has none.
///
/// The page has none where the anchor stands nowhere in it. Else its block
/// opens at the first `{` at or behind the end of the anchor's first
/// occurrence, and closes where the brace depth is back at zero for the
/// first time. A block that never opens or never closes is malformed.
pub open spec fn located_after(anchor: Seq<char>, page: Seq<char>) -> Result<
    Seq<char>,
    SearchFailure,
> {
    let bytes = encode_utf8(page);
    let mark = encode_utf8(anchor);
    if !occurs_in(mark, bytes) {
        Err(SearchFailure::NotFound("Could not find ytInitialData in HTML"@))
    } else {
        match block_start(anchor, page) {
            None => Err(SearchFailure::ParseError("Invalid JSON structure in HTML"@)),
            Some(start) => match block_end(bytes, start) {
                None => Err(SearchFailure::ParseError("Invalid JSON structure in HTML"@)),
                Some(end) => Ok(decode_utf8(bytes.subrange(start, end + 1))),
            },
        }
    }
}

/// The embedded JSON text of a result page, or the reason for which it has
/// none.
pub open spec fn located(page: Seq<char>) -> Result<Seq<char>, SearchFailure> {
    located_after(ANCHOR@, page)
}

/// A needle stands first at one place only, and that place is its first
/// occurrence.
pub proof fn lemma_first_occurrence(needle: Seq<u8>, hay: Seq<u8>, at: int)
    requires
        first_occurs_at(needle, hay, at),
    ensures
        first_occurrence(needle, hay) == Some(at),
{
    let chosen = choose|i: int| first_occurs_at(needle, hay, i);
    if chosen < at {
        assert(!occurs_at(needle, hay, chosen));
    } else if at < chosen {
        assert(!occurs_at(needle, hay, at));
    }
}

/// A block closes at one place only.
pub proof fn lemma_closes_once(bytes: Seq<u8>, start: int, e1: int, e2: int)
    requires
        closes_at(bytes, start, e1),
        closes_at(bytes, start, e2),
    ensures
        e1 == e2,
{
    if e1 < e2 {
        assert(brace_depth(bytes, start, e1 + 1) == 0);
    } else if e2 < e1 {
        assert(brace_depth(bytes, start, e2 + 1) == 0);
    }
}

/// Finds the first `{` among the bytes from `from` up to `to`.
pub fn find_open_brace(bytes: &[u8], from: usize, to: usize) -> (found: Option<usize>)
    requires
        from <= to <= bytes@.len(),
    ensures
        match found {
            Some(i) => first_open_brace(bytes@, from as int, to as int) == Some(i as int),
            None => first_open_brace(bytes@, from as int, to as int) is None,
        },
        found matches Some(i) ==> from <= i < to && bytes@[i as int] == OPEN_BRACE,
{
    let mut i: usize = from;
    while i < to
        invariant
            from <= i <= to <= bytes@.len(),
            first_open_brace(bytes@, from as int, to as int) == first_open_brace(
                bytes@,
                i as int,
                to as int,
            ),
        decreases to - i,
    {
        if bytes[i] == OPEN_BRACE {
            return Some(i);
        }
        i += 1;
    }
    None
}

/// Finds the brace that closes the block opening at `start`.
pub fn find_block_end(bytes: &[u8], start: usize) -> (found: Option<usize>)
    requires
        start < bytes@.len(),
        bytes@[start as int] == OPEN_BRACE,
    ensures
        match found {
            Some(end) => block_end(bytes@, start as int) == Some(end as int),
            None => block_end(bytes@, start as int) is None,
        },
        found matches Some(end) ==> start < end < bytes@.len() && bytes@[end as int]
            == CLOSE_BRACE,
{
    let mut depth: usize = 0;
    let mut i: usize = start;
    while i < bytes.len()
        invariant
            start <= i <= bytes@.len(),
            bytes@[start as int] == OPEN_BRACE,
            depth == brace_depth(bytes@, start as int, i as int),
            depth <= i - start,
            i > start ==> depth > 0,
            forall|k: int| start < k <= i ==> #[trigger] brace_depth(bytes@, start as int, k) != 0,
        decreases bytes@.len() - i,
    {
        let b = bytes[i];
        assert(brace_depth(bytes@, start as int, i + 1) == depth + brace_step(b));
        if b == OPEN_BRACE {
            depth += 1;
        } else if b == CLOSE_BRACE {
            depth -= 1;
            if depth == 0 {
                proof {
                    assert(closes_at(bytes@, start as int, i as int));
                    let chosen = choose|end: int| closes_at(bytes@, start as int, end);
                    lemma_closes_once(bytes@, start as int, i as int, chosen);
                }
                return Some(i);
            }
        }
        i += 1;
    }
    proof {
        assert forall|end: int| !closes_at(bytes@, start as int, end) by {
            if closes_at(bytes@, start as int, end) {
                assert(brace_depth(bytes@, start as int, end + 1) != 0);
            }
        }
    }
    None
}

/// Whether the bytes of `needle` stand in `hay` from `at` on.
pub fn stands_at(needle: &[u8], hay: &[u8], at: usize) -> (found: bool)
    requires
        at + needle@.len() <= hay@.len(),
    ensures
        found == occurs_at(needle@, hay@, at as int),
{
    let total: usize = hay.len();
    let mut k: usize = 0;
    while k < needle.len()
        invariant
            k <= needle@.len(),
            at + needle@.len() <= hay@.len() == total,
            forall|j: int| 0 <= j < k ==> hay@[at + j] == needle@[j],
        decreases needle@.len() - k,
    {
        if hay[at + k] != needle[k] {
            proof {
                assert(hay@.subrange(at as int, at + needle@.len())[k as int] == hay@[at + k]);
            }
            return false;
        }
        k += 1;
    }
    proof {
        assert(hay@.subrange(at as int, at + needle@.len()) =~= needle@);
    }
    true
}

/// Finds where `needle` first stands in `hay`.
pub fn find_bytes(needle: &[u8], hay: &[u8]) -> (found: Option<usize>)
    ensures
        match found {
            Some(at) => first_occurrence(needle@, hay@) == Some(at as int) && at + needle@.len()
                <= hay@.len(),
            None => first_occurrence(needle@, hay@) is None,
        },
{
    if needle.len() > hay.len() {
        return None;
    }
    let last: usize = hay.len() - needle.len();
    let mut at: usize = 0;
    loop
        invariant
            at <= last,
            last + needle@.len() == hay@.len(),
            forall|before: int| 0 <= before < at ==> !occurs_at(needle@, hay@, before),
        decreases last - at,
    {
        if stands_at(needle, hay, at) {
            proof {
                lemma_first_occurrence(needle@, hay@, at as int);
            }
            return Some(at);
        }
        if at == last {
            return None;
        }
        at += 1;
    }
}

/// Finds the text that a page embeds behind an anchor.
pub fn locate_after<'a>(anchor: &str, html: &'a str) -> (r: Result<&'a str, SearchError>)
    ensures
        match r {
            Ok(text) => located_after(anchor@, html@) == Ok::<Seq<char>, SearchFailure>(text@),
            Err(e) => located_after(anchor@, html@) == Err::<Seq<char>, SearchFailure>(e@),
        },
{
    let bytes = html.as_bytes();
    let mark = anchor.as_bytes();
    let total: usize = bytes.len();
    let at = match find_bytes(mark, bytes) {
        Some(at) => at,
        None => {
            return Err(SearchError::NotFound("Could not find ytInitialData in HTML".to_owned()));
        },
    };
    let start = match find_open_brace(bytes, at + mark.len(), total) {
        Some(start) => start,
        None => {
            return Err(SearchError::ParseError("Invalid JSON structure in HTML".to_owned()));
        },
    };
    match find_block_end(bytes, start) {
        Some(end) => Ok(slice_between(html, start, end)),
        None => Err(SearchError::ParseError("Invalid JSON structure in HTML".to_owned())),
    }
}

/// Finds the embedded JSON text of a result page.
///
/// The page has none where the anchor stands nowhere in it; its block is
/// malformed where the page ends before the brace depth is back at zero.
pub fn locate<'a>(html: &'a str) -> (r: Result<&'a str, SearchError>)
    ensures
        match r {
            Ok(text) => located(html@) == Ok::<Seq<char>, SearchFailure>(text@),
            Err(e) => located(html@) == Err::<Seq<char>, SearchFailure>(e@),
        },
{
    locate_after(ANCHOR, html)
}

} // verus!
