//! The dblp bibliography search: its JSON response, and where a record's
//! BibTeX entry is served.
use vstd::prelude::*;

verus! {

/// The search endpoint; it takes `format=json` and the query as `q`.
pub const SEARCH_URL: &'static str = "https://dblp.org/search/publ/api";

/// Where the BibTeX entries of records are served; the record key follows.
pub const RECORD_BASE: &'static str = "https://dblp.org/rec/";

/// What follows the record key in the address of its BibTeX entry.
pub const RECORD_SUFFIX: &'static str = ".bib?param=1";

/// The whole answer of a search.
#[derive(Debug, Clone, PartialEq, Eq)]
pub struct Response {
    pub result: Result,
}

/// The body of a search answer.
#[derive(Debug, Clone, PartialEq, Eq)]
pub struct Result {
    pub query: String,
    pub status: Status,
    pub time: Time,
    pub completions: Completions,
    pub hits: Hits,
}

/// The query completions that the search proposes.
#[derive(Debug, Clone, PartialEq, Eq)]
pub struct Completions {
    pub total: String,
    pub computed: String,
    pub sent: String,
    pub c: C,
}

/// One proposed completion.
#[derive(Debug, Clone, PartialEq, Eq)]
pub struct C {
    pub sc: String,
    pub dc: String,
    pub oc: String,
    pub id: String,
    pub text: String,
}

/// The records found.
#[derive(Debug, Clone, PartialEq, Eq)]
pub struct Hits {
    pub total: String,
    pub computed: String,
    pub sent: String,
    pub first: String,
    pub hit: Vec<Hit>,
}

/// One record found.
#[derive(Debug, Clone, PartialEq, Eq)]
pub struct Hit {
    pub score: String,
    pub id: String,
    pub info: Info,
    pub url: String,
}

/// The bibliographic data of a record.
#[derive(Debug, Clone, PartialEq, Eq)]
pub struct Info {
    pub authors: Authors,
    pub title: String,
    pub venue: String,
    pub pages: Option<String>,
    pub year: String,
    pub info_type: String,
    pub access: String,
    pub key: String,
    pub doi: Option<String>,
    pub ee: String,
    pub url: String,
    pub volume: Option<String>,
    pub number: Option<String>,
}

/// The authors of a record.
#[derive(Debug, Clone, PartialEq, Eq)]
pub struct Authors {
    pub author: Vec<Author>,
}

/// One author.
#[derive(Debug, Clone, PartialEq, Eq)]
pub struct Author {
    pub pid: String,
    pub text: String,
}

/// The status of a search answer.
#[derive(Debug, Clone, PartialEq, Eq)]
pub struct Status {
    pub code: String,
    pub text: String,
}

/// The time a search took.
#[derive(Debug, Clone, PartialEq, Eq)]
pub struct Time {
    pub unit: String,
    pub text: String,
}

/// The address of the BibTeX entry of the record with key `key`.
pub open spec fn bib_url_of(key: Seq<char>) -> Seq<char> {
    RECORD_BASE@ + key + RECORD_SUFFIX@
}

impl Hit {
    /// The address at which this record's BibTeX entry is served.
    pub fn bib_url(&self) -> (r: String)
        ensures
            r@ == bib_url_of(self.info.key@),
    {
        String::from_str(RECORD_BASE).concat(self.info.key.as_str()).concat(RECORD_SUFFIX)
    }
}

} // verus!
