//! The retrieval router: from a bibliography entry's identifier to a cached
//! document, one step at a time.
//!
//! The caller checks the cache, performs the HTTP requests and writes the
//! file; it hands each outcome to [`step`], which says what to do next. A
//! failure ends the item with a reported outcome and never the batch.
use vstd::prelude::*;
use crate::error::Error;
use crate::remotes::arxiv::{self, arxiv_pdf_url, is_arxiv, ARXIV_SEGMENT, PDF_EXTENSION};
use crate::remotes::scihub::{self, embedded_pdf_url_of, page_url_of, ORIGIN};
use crate::text::{chars_of, contains, string_of};

verus! {

/// The identifier made safe for a file name: each `/` becomes `--`.
pub open spec fn sanitize(s: Seq<char>) -> Seq<char>
    decreases s.len(),
{
    if s.len() == 0 {
        Seq::empty()
    } else {
        sanitize(s.drop_last()) + if s.last() == '/' {
            seq!['-', '-']
        } else {
            seq![s.last()]
        }
    }
}

/// The name of the cache file that holds an identifier's document.
pub open spec fn cache_file_of(doi: Seq<char>) -> Seq<char> {
    sanitize(doi) + PDF_EXTENSION@
}

/// Replaces every `/` of the identifier with `--`.
pub fn path_safe_doi(doi: &str) -> (r: String)
    ensures
        r@ == sanitize(doi@),
{
    let d = chars_of(doi);
    let mut out: Vec<char> = Vec::new();
    let mut i: usize = 0;
    while i < d.len()
        invariant
            i <= d@.len(),
            d@ == doi@,
            out@ == sanitize(d@.subrange(0, i as int)),
        decreases d@.len() - i,
    {
        let c = d[i];
        if c == '/' {
            out.push('-');
            out.push('-');
        } else {
            out.push(c);
        }
        proof {
            assert(d@.subrange(0, i + 1).drop_last() =~= d@.subrange(0, i as int));
        }
        i = i + 1;
        assert(out@ =~= sanitize(d@.subrange(0, i as int)));
    }
    assert(d@.subrange(0, d@.len() as int) =~= d@);
    string_of(out.as_slice())
}

proof fn lemma_sanitize_no_slash(s: Seq<char>)
    ensures
        forall|i: int| 0 <= i < sanitize(s).len() ==> sanitize(s)[i] != '/',
    decreases s.len(),
{
    if s.len() > 0 {
        lemma_sanitize_no_slash(s.drop_last());
        let head = sanitize(s.drop_last());
        let piece = if s.last() == '/' {
            seq!['-', '-']
        } else {
            seq![s.last()]
        };
        assert forall|i: int| 0 <= i < sanitize(s).len() implies sanitize(s)[i] != '/' by {
            if i >= head.len() {
                assert(sanitize(s)[i] == piece[i - head.len()]);
            } else {
                assert(sanitize(s)[i] == head[i]);
            }
        }
    }
}

proof fn lemma_sanitize_fixes_slash_free(s: Seq<char>)
    requires
        forall|i: int| 0 <= i < s.len() ==> s[i] != '/',
    ensures
        sanitize(s) == s,
    decreases s.len(),
{
    if s.len() > 0 {
        lemma_sanitize_fixes_slash_free(s.drop_last());
        assert(s.drop_last() + seq![s.last()] =~= s);
    }
}

/// Sanitizing twice is sanitizing once: a sanitized identifier holds no `/`.
pub proof fn lemma_sanitize_idempotent(s: Seq<char>)
    ensures
        sanitize(sanitize(s)) == sanitize(s),
{
    lemma_sanitize_no_slash(s);
    lemma_sanitize_fixes_slash_free(sanitize(s));
}

/// How one entry's retrieval ended.
#[derive(Debug, Clone, PartialEq, Eq)]
pub enum ItemOutcome {
    /// The document was already in the cache; nothing was requested.
    Cached,
    /// The document was fetched and is to be stored.
    Fetched,
    /// The retrieval failed; the batch goes on.
    Failed(Error),
}

/// Where one entry's retrieval stands.
#[derive(Debug, Clone, PartialEq, Eq)]
pub enum FetchState {
    /// Waiting to learn whether the cache file exists.
    CheckingCache { doi: String, file: String },
    /// Waiting for the landing page of the fallback source.
    FetchingPage { file: String },
    /// Waiting for the document itself.
    FetchingDocument { file: String },
    /// The retrieval has ended.
    Done(ItemOutcome),
}

/// What the caller observed after the last action.
#[derive(Debug, Clone, PartialEq, Eq)]
pub enum FetchEvent {
    /// Whether the cache file exists.
    CacheChecked { present: bool },
    /// The landing page, as text.
    PageFetched { page: String },
    /// The document's bytes arrived; the caller holds them.
    DocumentFetched,
    /// An HTTP request failed or answered with a failure status.
    RequestFailed,
}

/// What the caller is to do next.
#[derive(Debug, Clone, PartialEq, Eq)]
pub enum FetchAction {
    /// Check whether this file exists in the cache directory.
    CheckCache { file: String },
    /// GET this landing page as text.
    GetPage { url: String },
    /// GET this document as bytes.
    GetDocument { url: String },
    /// Write the fetched bytes to this file of the cache directory.
    Store { file: String },
    /// Nothing more to do for this item.
    Report(ItemOutcome),
}

impl ItemOutcome {
    /// An equal outcome.
    pub fn duplicate(&self) -> (r: ItemOutcome)
        ensures
            r == *self,
    {
        match self {
            ItemOutcome::Cached => ItemOutcome::Cached,
            ItemOutcome::Fetched => ItemOutcome::Fetched,
            ItemOutcome::Failed(e) => ItemOutcome::Failed(e.duplicate()),
        }
    }
}

/// The outcomes of a batch of retrievals, one per entry, in order. A failed
/// item is recorded like any other and the batch goes on.
#[derive(Debug, Clone, PartialEq, Eq)]
pub struct RetrievalReport {
    pub outcomes: Vec<ItemOutcome>,
}

impl RetrievalReport {
    /// An empty report.
    pub fn new() -> (r: RetrievalReport)
        ensures
            r.outcomes@ == Seq::<ItemOutcome>::empty(),
    {
        RetrievalReport { outcomes: Vec::new() }
    }

    /// Records how the next entry's retrieval ended.
    pub fn record(&mut self, o: ItemOutcome)
        ensures
            final(self).outcomes@ == old(self).outcomes@.push(o),
    {
        self.outcomes.push(o);
    }
}

impl FetchAction {
    /// The action issues an HTTP request.
    pub open spec fn is_request(self) -> bool {
        self is GetPage || self is GetDocument
    }
}

/// The first state and action for an entry with the given identifier.
pub open spec fn start_post(doi: Option<Seq<char>>, s: FetchState, a: FetchAction) -> bool {
    match doi {
        None => s == FetchState::Done(ItemOutcome::Failed(Error::MissingIdentifier)) && a
            == FetchAction::Report(ItemOutcome::Failed(Error::MissingIdentifier)),
        Some(d) => match (s, a) {
            (FetchState::CheckingCache { doi: x, file: f }, FetchAction::CheckCache { file: g }) => {
                x@ == d && f@ == cache_file_of(d) && g@ == f@
            },
            _ => false,
        },
    }
}

/// The item ends with `o`, and the caller is told so.
pub open spec fn ends_with(s: FetchState, a: FetchAction, o: ItemOutcome) -> bool {
    s == FetchState::Done(o) && a == FetchAction::Report(o)
}

/// The state and action that follow `s` once `e` was observed.
pub open spec fn step_post(s: FetchState, e: FetchEvent, s2: FetchState, a: FetchAction) -> bool {
    match s {
        FetchState::CheckingCache { doi, file } => match e {
            FetchEvent::CacheChecked { present: true } => ends_with(s2, a, ItemOutcome::Cached),
            FetchEvent::CacheChecked { present: false } => if contains(doi@, ARXIV_SEGMENT@) {
                match arxiv_pdf_url(doi@) {
                    Some(u) => match (s2, a) {
                        (
                            FetchState::FetchingDocument { file: f },
                            FetchAction::GetDocument { url },
                        ) => f@ == file@ && url@ == u,
                        _ => false,
                    },
                    None => ends_with(s2, a, ItemOutcome::Failed(Error::Parse)),
                }
            } else {
                match (s2, a) {
                    (FetchState::FetchingPage { file: f }, FetchAction::GetPage { url }) => {
                        f@ == file@ && url@ == page_url_of(doi@)
                    },
                    _ => false,
                }
            },
            FetchEvent::RequestFailed => ends_with(s2, a, ItemOutcome::Failed(Error::Network)),
            _ => ends_with(s2, a, ItemOutcome::Failed(Error::Parse)),
        },
        FetchState::FetchingPage { file } => match e {
            FetchEvent::PageFetched { page } => match embedded_pdf_url_of(page@, ORIGIN@) {
                Some(u) => match (s2, a) {
                    (FetchState::FetchingDocument { file: f }, FetchAction::GetDocument { url }) => {
                        f@ == file@ && url@ == u
                    },
                    _ => false,
                },
                None => ends_with(s2, a, ItemOutcome::Failed(Error::Parse)),
            },
            FetchEvent::RequestFailed => ends_with(s2, a, ItemOutcome::Failed(Error::Network)),
            _ => ends_with(s2, a, ItemOutcome::Failed(Error::Parse)),
        },
        FetchState::FetchingDocument { file } => match e {
            FetchEvent::DocumentFetched => s2 == FetchState::Done(ItemOutcome::Fetched) && (a matches FetchAction::Store { file: f } && f@ == file@),
            FetchEvent::RequestFailed => ends_with(s2, a, ItemOutcome::Failed(Error::Network)),
            _ => ends_with(s2, a, ItemOutcome::Failed(Error::Parse)),
        },
        FetchState::Done(o) => ends_with(s2, a, o),
    }
}

/// The actions `actions` answer the events `events` one by one, from `s`.
pub open spec fn runs(s: FetchState, events: Seq<FetchEvent>, actions: Seq<FetchAction>) -> bool
    decreases events.len(),
{
    events.len() == actions.len() && (events.len() > 0 ==> exists|s2: FetchState|
        step_post(s, events[0], s2, actions[0]) && #[trigger] runs(s2, events.drop_first(), actions.drop_first()))
}

/// Starts the retrieval of an entry's document: without an identifier the
/// item fails at once, else the cache is checked first.
pub fn start(doi: Option<&str>) -> (r: (FetchState, FetchAction))
    ensures
        start_post(
            match doi {
                Some(d) => Some(d@),
                None => None,
            },
            r.0,
            r.1,
        ),
{
    match doi {
        None => (
            FetchState::Done(ItemOutcome::Failed(Error::MissingIdentifier)),
            FetchAction::Report(ItemOutcome::Failed(Error::MissingIdentifier)),
        ),
        Some(d) => {
            let file = path_safe_doi(d).concat(PDF_EXTENSION);
            let file2 = String::from_str(file.as_str());
            let doi = String::from_str(d);
            (FetchState::CheckingCache { doi, file }, FetchAction::CheckCache { file: file2 })
        },
    }
}

fn done(o: ItemOutcome) -> (r: (FetchState, FetchAction))
    ensures
        ends_with(r.0, r.1, o),
{
    (FetchState::Done(o.duplicate()), FetchAction::Report(o))
}

/// Takes the retrieval one step further, given what the last action observed.
pub fn step(s: FetchState, e: FetchEvent) -> (r: (FetchState, FetchAction))
    ensures
        step_post(s, e, r.0, r.1),
{
    match s {
        FetchState::CheckingCache { doi, file } => match e {
            FetchEvent::CacheChecked { present } => {
                if present {
                    done(ItemOutcome::Cached)
                } else if is_arxiv(doi.as_str()) {
                    match arxiv::pdf_url(doi.as_str()) {
                        Ok(url) => (FetchState::FetchingDocument { file }, FetchAction::GetDocument { url }),
                        Err(_) => done(ItemOutcome::Failed(Error::Parse)),
                    }
                } else {
                    let url = scihub::page_url(doi.as_str());
                    (FetchState::FetchingPage { file }, FetchAction::GetPage { url })
                }
            },
            FetchEvent::RequestFailed => done(ItemOutcome::Failed(Error::Network)),
            _ => done(ItemOutcome::Failed(Error::Parse)),
        },
        FetchState::FetchingPage { file } => match e {
            FetchEvent::PageFetched { page } => match scihub::embedded_pdf_url(page.as_str(), ORIGIN) {
                Some(url) => (FetchState::FetchingDocument { file }, FetchAction::GetDocument { url }),
                None => done(ItemOutcome::Failed(Error::Parse)),
            },
            FetchEvent::RequestFailed => done(ItemOutcome::Failed(Error::Network)),
            _ => done(ItemOutcome::Failed(Error::Parse)),
        },
        FetchState::FetchingDocument { file } => match e {
            FetchEvent::DocumentFetched => (FetchState::Done(ItemOutcome::Fetched), FetchAction::Store { file }),
            FetchEvent::RequestFailed => done(ItemOutcome::Failed(Error::Network)),
            _ => done(ItemOutcome::Failed(Error::Parse)),
        },
        FetchState::Done(o) => done(o),
    }
}

proof fn lemma_done_absorbs(o: ItemOutcome, events: Seq<FetchEvent>, actions: Seq<FetchAction>)
    requires
        runs(FetchState::Done(o), events, actions),
    ensures
        forall|i: int| 0 <= i < actions.len() ==> actions[i] == FetchAction::Report(o),
    decreases events.len(),
{
    if events.len() > 0 {
        let s2 = choose|s2: FetchState|
            step_post(FetchState::Done(o), events[0], s2, actions[0]) && #[trigger] runs(
                s2,
                events.drop_first(),
                actions.drop_first(),
            );
        lemma_done_absorbs(o, events.drop_first(), actions.drop_first());
        assert forall|i: int| 0 <= i < actions.len() implies actions[i] == FetchAction::Report(o) by {
            if i > 0 {
                assert(actions[i] == actions.drop_first()[i - 1]);
            }
        }
    }
}

/// An entry whose document is already cached is left alone: whatever is
/// observed afterwards, no request is issued, nothing is stored, and the
/// item is reported as cached.
pub proof fn lemma_cached_entry_makes_no_request(
    doi: String,
    file: String,
    events: Seq<FetchEvent>,
    actions: Seq<FetchAction>,
)
    requires
        runs(
            FetchState::CheckingCache { doi, file },
            seq![FetchEvent::CacheChecked { present: true }] + events,
            actions,
        ),
    ensures
        forall|i: int|
            0 <= i < actions.len() ==> actions[i] == FetchAction::Report(ItemOutcome::Cached),
        forall|i: int|
            0 <= i < actions.len() ==> !actions[i].is_request() && !(actions[i] is Store),
{
    let evs = seq![FetchEvent::CacheChecked { present: true }] + events;
    let s0 = FetchState::CheckingCache { doi, file };
    assert(evs[0] == FetchEvent::CacheChecked { present: true });
    assert(evs.drop_first() =~= events);
    let s2 = choose|s2: FetchState|
        step_post(s0, evs[0], s2, actions[0]) && #[trigger] runs(
            s2,
            evs.drop_first(),
            actions.drop_first(),
        );
    lemma_done_absorbs(ItemOutcome::Cached, events, actions.drop_first());
    assert forall|i: int|
        0 <= i < actions.len() implies actions[i] == FetchAction::Report(ItemOutcome::Cached) by {
        if i > 0 {
            assert(actions[i] == actions.drop_first()[i - 1]);
        }
    }
}

/// Routing: once the cache is known to lack the document, an identifier that
/// holds the arXiv segment goes straight to its arXiv download, and any other
/// goes to the landing page of the fallback source.
pub proof fn lemma_routing(doi: String, file: String, s2: FetchState, a: FetchAction)
    requires
        step_post(
            FetchState::CheckingCache { doi, file },
            FetchEvent::CacheChecked { present: false },
            s2,
            a,
        ),
    ensures
        contains(doi@, ARXIV_SEGMENT@) ==> (a matches FetchAction::GetDocument { url } && Some(
            url@,
        ) == arxiv_pdf_url(doi@)),
        !contains(doi@, ARXIV_SEGMENT@) ==> (a matches FetchAction::GetPage { url } && url@
            == page_url_of(doi@)),
{
    crate::text::lemma_contains_iff_found(doi@, ARXIV_SEGMENT@);
}

/// A landing page is followed by the document's download exactly when it
/// holds the embed marker; without it the item ends as a `Parse` failure that
/// is reported to the caller, not raised.
pub proof fn lemma_scraped_page_outcome(file: String, page: String, s2: FetchState, a: FetchAction)
    requires
        step_post(FetchState::FetchingPage { file }, FetchEvent::PageFetched { page }, s2, a),
    ensures
        contains(page@, scihub::EMBED_MARKER@) ==> (a matches FetchAction::GetDocument { url }
            && Some(url@) == embedded_pdf_url_of(page@, ORIGIN@)),
        !contains(page@, scihub::EMBED_MARKER@) ==> ends_with(
            s2,
            a,
            ItemOutcome::Failed(Error::Parse),
        ),
{
    scihub::lemma_embedded_iff_marker(page@);
}

} // verus!
