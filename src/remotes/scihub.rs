//! The fallback source: a landing page per identifier, with the document
//! embedded in a viewer tag whose address is scraped from the page.
use vstd::prelude::*;
use crate::text::{
    contains, lemma_contains_iff_found, lemma_find_char_from_result, lemma_find_from_result,
    occurs_at, after_last_char_before, after_last_char_exec, chars_of, find_char_exec, find_char_from,
    find_exec, find_from, string_of,
};

verus! {

/// The origin that serves the landing pages and relative document addresses.
pub const ORIGIN: &'static str = "https://sci-hub.ru";

/// The text that identifies the line of the embedded document viewer.
pub const EMBED_MARKER: &'static str = "embed type=\"application/pdf\" src=\"";

/// The token that opens the quoted document address.
pub const SRC_TOKEN: &'static str = "src=\"";

/// The landing page of an identifier: the origin, a slash, the identifier.
pub open spec fn page_url_of(doi: Seq<char>) -> Seq<char> {
    ORIGIN@ + seq!['/'] + doi
}

/// Where the line that holds index `m` ends: at its newline, without the
/// carriage return that precedes that newline; or at the end of the page.
pub open spec fn line_end(page: Seq<char>, m: int) -> int {
    match find_char_from(page, '\n', m) {
        Some(e) => if e > 0 && page[e - 1] == '\r' {
            e - 1
        } else {
            e
        },
        None => page.len() as int,
    }
}

/// The quoted address on the first line of `page` that holds the embed
/// marker: what follows the line's first `src="`, up to the next quote or
/// the end of the line.
pub open spec fn embedded_src(page: Seq<char>) -> Option<Seq<char>> {
    match find_from(page, EMBED_MARKER@, 0) {
        None => None,
        Some(m) => {
            let start = after_last_char_before(page, '\n', m);
            let end = line_end(page, m);
            match find_from(page, SRC_TOKEN@, start) {
                Some(t) if t + SRC_TOKEN@.len() <= end => {
                    let v = t + SRC_TOKEN@.len();
                    let stop = match find_char_from(page, '"', v) {
                        Some(q) if q < end => q,
                        _ => end,
                    };
                    Some(page.subrange(v, stop))
                },
                _ => None,
            }
        },
    }
}

/// An address as found on a page, made absolute: one that starts with a
/// slash is taken relative to `origin`.
pub open spec fn resolve_against(origin: Seq<char>, src: Seq<char>) -> Seq<char> {
    if src.len() > 0 && src[0] == '/' {
        origin + src
    } else {
        src
    }
}

/// The document address that a landing page embeds, resolved against
/// `origin`, if the page has an embedded document viewer.
pub open spec fn embedded_pdf_url_of(page: Seq<char>, origin: Seq<char>) -> Option<Seq<char>> {
    match embedded_src(page) {
        Some(src) => Some(resolve_against(origin, src)),
        None => None,
    }
}

proof fn lemma_line_start_before(s: Seq<char>, c: char, i: int)
    requires
        0 <= i,
    ensures
        0 <= after_last_char_before(s, c, i) <= i,
    decreases i,
{
    if i > 0 && s[i - 1] != c {
        lemma_line_start_before(s, c, i - 1);
    }
}

/// A landing page embeds a document address exactly when it holds the embed
/// marker: the marker's line always carries the `src="` that opens it.
pub proof fn lemma_embedded_iff_marker(page: Seq<char>)
    ensures
        embedded_src(page) is Some <==> contains(page, EMBED_MARKER@),
{
    lemma_contains_iff_found(page, EMBED_MARKER@);
    lemma_find_from_result(page, EMBED_MARKER@, 0);
    if let Some(m) = find_from(page, EMBED_MARKER@, 0) {
        reveal_strlit("embed type=\"application/pdf\" src=\"");
        reveal_strlit("src=\"");
        let mk = EMBED_MARKER@;
        assert(mk.len() == 34);
        assert(page.subrange(m, m + 34) == mk);
        let start = after_last_char_before(page, '\n', m);
        lemma_line_start_before(page, '\n', m);
        assert forall|k: int| 0 <= k < 34 implies page[m + k] == mk[k] by {
            assert(page.subrange(m, m + 34)[k] == mk[k]);
        }
        assert forall|k: int| 0 <= k < 5 implies page.subrange(m + 29, m + 34)[k]
            == SRC_TOKEN@[k] by {
            assert(page[m + 29 + k] == mk[29 + k]);
        }
        assert(page.subrange(m + 29, m + 34) =~= SRC_TOKEN@);
        assert(occurs_at(page, SRC_TOKEN@, m + 29));
        lemma_find_from_result(page, SRC_TOKEN@, start);
        lemma_find_char_from_result(page, '\n', m);
        let end = line_end(page, m);
        if let Some(e) = find_char_from(page, '\n', m) {
            if e < m + 34 {
                assert(page[e] == mk[e - m]);
            }
            assert(e >= m + 34);
            if e == m + 34 {
                assert(page[e - 1] == mk[33]);
            }
        }
        assert(end >= m + 34);
    }
}

/// The landing page to fetch for an identifier.
pub fn page_url(doi: &str) -> (r: String)
    ensures
        r@ == page_url_of(doi@),
{
    let r = String::from_str(ORIGIN).concat("/").concat(doi);
    proof {
        reveal_strlit("/");
        assert(r@ =~= page_url_of(doi@));
    }
    r
}

/// The characters of `s` from `from` up to `to`.
fn copy_range(s: &[char], from: usize, to: usize) -> (r: Vec<char>)
    requires
        from <= to <= s@.len(),
    ensures
        r@ == s@.subrange(from as int, to as int),
{
    let mut out: Vec<char> = Vec::new();
    let mut k: usize = from;
    while k < to
        invariant
            from <= k <= to <= s@.len(),
            out@ == s@.subrange(from as int, k as int),
        decreases to - k,
    {
        out.push(s[k]);
        k = k + 1;
        assert(out@ =~= s@.subrange(from as int, k as int));
    }
    out
}

/// Finds the embedded document address in a landing page and resolves it
/// against `origin`; `None` where no line holds the embed marker.
pub fn embedded_pdf_url(page: &str, origin: &str) -> (r: Option<String>)
    ensures
        match embedded_pdf_url_of(page@, origin@) {
            Some(u) => r matches Some(s) && s@ == u,
            None => r is None,
        },
{
    let p = chars_of(page);
    let n = p.len();
    let marker = chars_of(EMBED_MARKER);
    let token = chars_of(SRC_TOKEN);
    let m = match find_exec(p.as_slice(), marker.as_slice(), 0) {
        Some(m) => m,
        None => return None,
    };
    proof {
        crate::text::lemma_find_from_result(page@, EMBED_MARKER@, 0);
    }
    let start = after_last_char_exec(p.as_slice(), '\n', m);
    let end = match find_char_exec(p.as_slice(), '\n', m) {
        Some(e) => {
            proof {
                crate::text::lemma_find_char_from_result(page@, '\n', m as int);
            }
            if e > 0 && p[e - 1] == '\r' {
                e - 1
            } else {
                e
            }
        },
        None => n,
    };
    let t = match find_exec(p.as_slice(), token.as_slice(), start) {
        Some(t) => t,
        None => return None,
    };
    proof {
        crate::text::lemma_find_from_result(page@, SRC_TOKEN@, start as int);
    }
    if t + token.len() > end {
        return None;
    }
    let v = t + token.len();
    proof {
        crate::text::lemma_find_char_from_result(page@, '"', v as int);
    }
    let stop = match find_char_exec(p.as_slice(), '"', v) {
        Some(q) => if q < end {
            q
        } else {
            end
        },
        None => end,
    };
    let src = copy_range(p.as_slice(), v, stop);
    let url = if src.len() > 0 && src[0] == '/' {
        let s = string_of(src.as_slice());
        String::from_str(origin).concat(s.as_str())
    } else {
        string_of(src.as_slice())
    };
    Some(url)
}

} // verus!
