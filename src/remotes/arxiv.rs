//! Documents whose identifier names an arXiv record are fetched directly.
use vstd::prelude::*;
use crate::error::Error;
use crate::text::{chars_of, contains, find_exec, find_from, lemma_contains_iff_found, string_of};

verus! {

/// The segment that marks an arXiv identifier, as in `10.48550/ARXIV.2207.0282`.
pub const ARXIV_SEGMENT: &'static str = "/ARXIV.";

/// Where arXiv serves its documents; the record suffix and `.pdf` follow.
pub const ARXIV_PDF_BASE: &'static str = "https://arxiv.org/pdf/";

pub const PDF_EXTENSION: &'static str = ".pdf";

/// The download address for an arXiv identifier: the part after the first
/// arXiv segment, placed into the document template.
pub open spec fn arxiv_pdf_url(doi: Seq<char>) -> Option<Seq<char>> {
    match find_from(doi, ARXIV_SEGMENT@, 0) {
        Some(i) => Some(
            ARXIV_PDF_BASE@ + doi.subrange(i + ARXIV_SEGMENT@.len(), doi.len() as int)
                + PDF_EXTENSION@,
        ),
        None => None,
    }
}

/// Whether the identifier belongs to arXiv: it holds the arXiv segment.
pub fn is_arxiv(doi: &str) -> (r: bool)
    ensures
        r == contains(doi@, ARXIV_SEGMENT@),
{
    let d = chars_of(doi);
    let seg = chars_of(ARXIV_SEGMENT);
    let found = find_exec(d.as_slice(), seg.as_slice(), 0);
    proof {
        lemma_contains_iff_found(doi@, ARXIV_SEGMENT@);
    }
    found.is_some()
}

/// The document address of an arXiv identifier; `Parse` where the identifier
/// holds no arXiv segment.
pub fn pdf_url(doi: &str) -> (r: Result<String, Error>)
    ensures
        match arxiv_pdf_url(doi@) {
            Some(u) => r matches Ok(s) && s@ == u,
            None => r == Err::<String, Error>(Error::Parse),
        },
{
    let d = chars_of(doi);
    let seg = chars_of(ARXIV_SEGMENT);
    let n = d.len();
    match find_exec(d.as_slice(), seg.as_slice(), 0) {
        None => Err(Error::Parse),
        Some(i) => {
            proof {
                crate::text::lemma_find_from_result(doi@, ARXIV_SEGMENT@, 0);
            }
            let mut rest: Vec<char> = Vec::new();
            let mut k: usize = i + seg.len();
            while k < d.len()
                invariant
                    i + seg@.len() <= k <= d@.len(),
                    rest@ == d@.subrange(i + seg@.len(), k as int),
                decreases d@.len() - k,
            {
                rest.push(d[k]);
                k = k + 1;
                assert(rest@ =~= d@.subrange(i + seg@.len(), k as int));
            }
            let suffix = string_of(rest.as_slice());
            let url = String::from_str(ARXIV_PDF_BASE).concat(suffix.as_str()).concat(PDF_EXTENSION);
            Ok(url)
        }
    }
}

} // verus!
