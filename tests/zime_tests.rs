use zime::config::{choose_base, setup_steps, Config, Locate, RemoteProbe, Setup, SetupStep};
use zime::error::{Error, GitStep};
use zime::library::{find_matches, matches_folded, EntrySummary};
use zime::remotes::arxiv::{is_arxiv, pdf_url};
use zime::remotes::dblp::{Author, Authors, Hit, Info};
use zime::remotes::scihub::{embedded_pdf_url, page_url};
use zime::retrieval::{
    path_safe_doi, start, step, FetchAction, FetchEvent, FetchState, ItemOutcome, RetrievalReport,
};
use zime::sync::{self, is_dirty, SyncAction, SyncEvent, SyncState};

fn run_sync(remote: bool, events: &[SyncEvent]) -> Vec<SyncAction> {
    let (mut s, a) = sync::begin(remote);
    let mut out = vec![a];
    for e in events {
        let (s2, a2) = sync::step(s, *e);
        s = s2;
        out.push(a2);
    }
    out
}

#[test]
fn sanitize_replaces_slashes() {
    assert_eq!(path_safe_doi("10.1109/5.771073"), "10.1109--5.771073");
}

#[test]
fn sanitize_twice_is_sanitize_once() {
    let once = path_safe_doi("10.1109/5.771073");
    assert_eq!(path_safe_doi(&once), once);
    let once = path_safe_doi("a/b//c/");
    assert_eq!(once, "a--b----c--");
    assert_eq!(path_safe_doi(&once), once);
}

#[test]
fn sanitize_empty() {
    assert_eq!(path_safe_doi(""), "");
}

#[test]
fn arxiv_identifiers_are_recognised() {
    assert!(is_arxiv("10.48550/ARXIV.2207.0282"));
    assert!(!is_arxiv("10.1109/5.771073"));
    assert!(!is_arxiv("10.48550/arxiv.2207.0282"));
    assert!(!is_arxiv(""));
}

#[test]
fn arxiv_pdf_url_strips_the_prefix() {
    assert_eq!(
        pdf_url("10.48550/ARXIV.2207.0282"),
        Ok("https://arxiv.org/pdf/2207.0282.pdf".to_string())
    );
}

#[test]
fn arxiv_pdf_url_without_segment_is_a_parse_error() {
    assert_eq!(pdf_url("10.1109/5.771073"), Err(Error::Parse));
}

#[test]
fn scihub_landing_page() {
    assert_eq!(page_url("10.1109/5.771073"), "https://sci-hub.ru/10.1109/5.771073");
}

#[test]
fn scrape_resolves_relative_address() {
    let page = "<html>\n<body>\n<embed type=\"application/pdf\" src=\"/downloads/x.pdf\" id=\"pdf\">\n</body>\n";
    assert_eq!(
        embedded_pdf_url(page, "https://example.test"),
        Some("https://example.test/downloads/x.pdf".to_string())
    );
}

#[test]
fn scrape_keeps_absolute_address() {
    let page = "x\r\n<embed type=\"application/pdf\" src=\"https://cdn.test/a.pdf#view\">\r\nend";
    assert_eq!(
        embedded_pdf_url(page, "https://example.test"),
        Some("https://cdn.test/a.pdf#view".to_string())
    );
}

#[test]
fn scrape_unterminated_quote_stops_at_line_end() {
    let page = "<embed type=\"application/pdf\" src=\"/a.pdf\r\nnext\"";
    assert_eq!(
        embedded_pdf_url(page, "https://example.test"),
        Some("https://example.test/a.pdf".to_string())
    );
}

#[test]
fn scrape_takes_first_marked_line() {
    let page = "<embed type=\"application/pdf\" src=\"/one.pdf\">\n<embed type=\"application/pdf\" src=\"/two.pdf\">";
    assert_eq!(embedded_pdf_url(page, "o"), Some("o/one.pdf".to_string()));
}

#[test]
fn scrape_without_marker_finds_nothing() {
    let page = "<html><body><iframe src=\"/downloads/x.pdf\"></iframe></body></html>";
    assert_eq!(embedded_pdf_url(page, "https://example.test"), None);
    assert_eq!(embedded_pdf_url("", "https://example.test"), None);
}

#[test]
fn retrieval_without_identifier_fails() {
    let (s, a) = start(None);
    assert_eq!(s, FetchState::Done(ItemOutcome::Failed(Error::MissingIdentifier)));
    assert_eq!(a, FetchAction::Report(ItemOutcome::Failed(Error::MissingIdentifier)));
}

#[test]
fn retrieval_checks_the_sanitized_cache_file() {
    let (_, a) = start(Some("10.1109/5.771073"));
    assert_eq!(a, FetchAction::CheckCache { file: "10.1109--5.771073.pdf".to_string() });
}

#[test]
fn cached_entry_makes_no_request() {
    let (s, _) = start(Some("10.1109/5.771073"));
    let (s, a) = step(s, FetchEvent::CacheChecked { present: true });
    assert_eq!(a, FetchAction::Report(ItemOutcome::Cached));
    let (s, a) = step(s, FetchEvent::DocumentFetched);
    assert_eq!(a, FetchAction::Report(ItemOutcome::Cached));
    let (_, a) = step(s, FetchEvent::PageFetched { page: "x".to_string() });
    assert_eq!(a, FetchAction::Report(ItemOutcome::Cached));
}

#[test]
fn arxiv_identifier_is_fetched_directly() {
    let (s, _) = start(Some("10.48550/ARXIV.2207.0282"));
    let (s, a) = step(s, FetchEvent::CacheChecked { present: false });
    assert_eq!(
        a,
        FetchAction::GetDocument { url: "https://arxiv.org/pdf/2207.0282.pdf".to_string() }
    );
    let (s, a) = step(s, FetchEvent::DocumentFetched);
    assert_eq!(a, FetchAction::Store { file: "10.48550--ARXIV.2207.0282.pdf".to_string() });
    assert_eq!(s, FetchState::Done(ItemOutcome::Fetched));
}

#[test]
fn other_identifier_is_scraped() {
    let (s, _) = start(Some("10.1109/5.771073"));
    let (s, a) = step(s, FetchEvent::CacheChecked { present: false });
    assert_eq!(
        a,
        FetchAction::GetPage { url: "https://sci-hub.ru/10.1109/5.771073".to_string() }
    );
    let page = "<embed type=\"application/pdf\" src=\"/downloads/x.pdf\">".to_string();
    let (s, a) = step(s, FetchEvent::PageFetched { page });
    assert_eq!(
        a,
        FetchAction::GetDocument { url: "https://sci-hub.ru/downloads/x.pdf".to_string() }
    );
    let (_, a) = step(s, FetchEvent::DocumentFetched);
    assert_eq!(a, FetchAction::Store { file: "10.1109--5.771073.pdf".to_string() });
}

#[test]
fn page_without_marker_fails_and_batch_goes_on() {
    let mut report = RetrievalReport::new();
    let (s, _) = start(Some("10.1109/5.771073"));
    let (s, _) = step(s, FetchEvent::CacheChecked { present: false });
    let (_, a) = step(s, FetchEvent::PageFetched { page: "<html></html>".to_string() });
    assert_eq!(a, FetchAction::Report(ItemOutcome::Failed(Error::Parse)));
    if let FetchAction::Report(o) = a {
        report.record(o);
    }
    let (s, _) = start(Some("10.48550/ARXIV.1"));
    let (_, a) = step(s, FetchEvent::CacheChecked { present: true });
    if let FetchAction::Report(o) = a {
        report.record(o);
    }
    assert_eq!(
        report.outcomes,
        vec![ItemOutcome::Failed(Error::Parse), ItemOutcome::Cached]
    );
}

#[test]
fn failed_request_is_a_network_error() {
    let (s, _) = start(Some("10.1109/5.771073"));
    let (s, _) = step(s, FetchEvent::CacheChecked { present: false });
    let (_, a) = step(s, FetchEvent::RequestFailed);
    assert_eq!(a, FetchAction::Report(ItemOutcome::Failed(Error::Network)));
}

#[test]
fn sync_without_remote_is_a_noop() {
    let actions = run_sync(false, &[SyncEvent::StepSucceeded, SyncEvent::StepFailed]);
    assert_eq!(actions, vec![SyncAction::Finish, SyncAction::Finish, SyncAction::Finish]);
}

#[test]
fn sync_clean_tree_only_pulls() {
    let actions = run_sync(true, &[SyncEvent::StatusRead { dirty: false }, SyncEvent::StepSucceeded]);
    assert_eq!(
        actions,
        vec![
            SyncAction::Run(GitStep::Status),
            SyncAction::Run(GitStep::PullRebase),
            SyncAction::Finish
        ]
    );
}

#[test]
fn sync_dirty_tree_commits_pulls_and_pushes() {
    let ok = SyncEvent::StepSucceeded;
    let actions = run_sync(true, &[SyncEvent::StatusRead { dirty: true }, ok, ok, ok, ok]);
    assert_eq!(
        actions,
        vec![
            SyncAction::Run(GitStep::Status),
            SyncAction::Run(GitStep::StageAll),
            SyncAction::Run(GitStep::Commit),
            SyncAction::Run(GitStep::PullRebase),
            SyncAction::Run(GitStep::Push),
            SyncAction::Finish
        ]
    );
}

#[test]
fn sync_failed_commit_stops() {
    let actions = run_sync(
        true,
        &[SyncEvent::StatusRead { dirty: true }, SyncEvent::StepSucceeded, SyncEvent::StepFailed, SyncEvent::StepSucceeded],
    );
    assert_eq!(
        actions,
        vec![
            SyncAction::Run(GitStep::Status),
            SyncAction::Run(GitStep::StageAll),
            SyncAction::Run(GitStep::Commit),
            SyncAction::Abort(GitStep::Commit),
            SyncAction::Abort(GitStep::Commit)
        ]
    );
}

#[test]
fn sync_failed_rebase_is_surfaced() {
    let actions = run_sync(true, &[SyncEvent::StatusRead { dirty: false }, SyncEvent::StepFailed]);
    assert_eq!(actions[2], SyncAction::Abort(GitStep::PullRebase));
    let (s, _) = sync::step(SyncState::AwaitingStatus, SyncEvent::StepFailed);
    assert_eq!(s, SyncState::Failed { step: GitStep::Status });
}

#[test]
fn porcelain_status_dirtiness() {
    assert!(!is_dirty(""));
    assert!(is_dirty(" M references.bib\n"));
}

#[test]
fn store_root_choice() {
    assert_eq!(choose_base(Some("/r".to_string()), Some("/d".to_string())), Ok("/r".to_string()));
    assert_eq!(choose_base(None, Some("/d".to_string())), Ok("/d".to_string()));
    assert_eq!(choose_base(None, None), Err(Error::Config));
}

#[test]
fn setup_prefers_the_bound_remote() {
    let s = Setup::new(Some("a".to_string()), "/r".to_string(), RemoteProbe::Bound("b".to_string())).unwrap();
    assert_eq!(s.git(), Some("b"));
    let s = Setup::new(Some("a".to_string()), "/r".to_string(), RemoteProbe::NotWorkTree).unwrap();
    assert_eq!(s.git(), Some("a"));
    assert_eq!(s.root(), "/r");
    assert!(matches!(
        Setup::new(None, "/r".to_string(), RemoteProbe::Unbound),
        Err(Error::NotBound)
    ));
}

#[test]
fn setup_files() {
    let s = Setup::new(None, "/home/u/.zime".to_string(), RemoteProbe::NotWorkTree).unwrap();
    assert_eq!(s.config_file(), "/home/u/.zime/zime.toml");
    assert_eq!(s.bib_path(), "/home/u/.zime/references.bib");
    assert_eq!(s.pdf_dir(), "/home/u/.zime/pdfs");
    assert_eq!(s.git(), None);
    assert_eq!(s.sync_git(), (SyncState::Finished, SyncAction::Finish));
    let s = Setup::new(Some("git@h:r".to_string()), "/r".to_string(), RemoteProbe::NotWorkTree).unwrap();
    assert_eq!(s.sync_git(), (SyncState::AwaitingStatus, SyncAction::Run(GitStep::Status)));
}

#[test]
fn discovery_three_levels_up() {
    let marked = "/tmp/x/.zime";
    let mut loc = zime::config::start_locate("/tmp/x/a/b/c");
    let mut probes = 0;
    let found = loop {
        match loc {
            Locate::Probe { dir, marker } => {
                probes += 1;
                loc = Setup::determine_from(&dir, marker == marked);
            }
            Locate::Found { base } => break Some(base),
            Locate::UseDefault => break None,
        }
    };
    assert_eq!(found, Some("/tmp/x/.zime".to_string()));
    assert_eq!(probes, 4);
}

#[test]
fn discovery_falls_back_to_default() {
    assert_eq!(
        Setup::determine_from("/a", false),
        Locate::Probe { dir: "/".to_string(), marker: "/.zime".to_string() }
    );
    assert_eq!(Setup::determine_from("/", false), Locate::UseDefault);
    assert_eq!(
        Setup::determine_from("/a", true),
        Locate::Found { base: "/a/.zime".to_string() }
    );
}

#[test]
fn first_time_setup_steps() {
    assert_eq!(setup_steps(true), vec![SetupStep::BindRemote, SetupStep::Pull]);
    assert_eq!(setup_steps(false), vec![SetupStep::Init, SetupStep::BindRemote, SetupStep::Pull]);
    assert!(SetupStep::Init.failure_is_fatal());
    assert!(!SetupStep::BindRemote.failure_is_fatal());
    assert!(!SetupStep::Pull.failure_is_fatal());
}

#[test]
fn config_default() {
    assert_eq!(Config::default(), Config {});
}

#[test]
fn dblp_record_address() {
    let hit = Hit {
        score: "1".to_string(),
        id: "2".to_string(),
        info: Info {
            authors: Authors { author: vec![Author { pid: "p".to_string(), text: "A".to_string() }] },
            title: "T".to_string(),
            venue: "V".to_string(),
            pages: None,
            year: "2020".to_string(),
            info_type: "Journal Articles".to_string(),
            access: "open".to_string(),
            key: "journals/x/Y20".to_string(),
            doi: None,
            ee: "e".to_string(),
            url: "u".to_string(),
            volume: None,
            number: None,
        },
        url: "u".to_string(),
    };
    assert_eq!(hit.bib_url(), "https://dblp.org/rec/journals/x/Y20.bib?param=1");
}

#[test]
fn lookup_by_identifier_or_title() {
    let entries = vec![
        EntrySummary { doi: Some("10.1/a".to_string()), title: Some("Deep Learning".to_string()) },
        EntrySummary { doi: None, title: Some("Shallow WATERS".to_string()) },
        EntrySummary { doi: Some("10.2/b".to_string()), title: None },
    ];
    assert_eq!(find_matches(&entries, "10.2/b"), Ok(vec![2]));
    assert_eq!(find_matches(&entries, "waters"), Ok(vec![1]));
    assert_eq!(find_matches(&entries, "L"), Ok(vec![0, 1]));
    assert_eq!(find_matches(&entries, "nothing"), Err(Error::NotFound));
    assert!(matches_folded(None, Some("abc"), "B", "b"));
    assert!(!matches_folded(Some("x"), None, "y", "y"));
}
