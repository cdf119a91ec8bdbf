//! The store: where it lives, which remote it is bound to, and the files it
//! holds.
use vstd::prelude::*;
use crate::error::Error;
use crate::sync::{self, SyncAction, SyncState};

verus! {

/// The directory that marks a store below a project directory.
pub const MARKER_DIR: &'static str = ".zime";

/// The configuration file of a store.
pub const CONFIG_FILE: &'static str = "zime.toml";

/// The bibliography file of a store.
pub const BIB_FILE: &'static str = "references.bib";

/// The cache directory of fetched documents.
pub const PDF_DIR: &'static str = "pdfs";

/// The path `name` adjoined to `base`, as camino computes it.
pub uninterp spec fn joined(base: Seq<char>, name: Seq<char>) -> Seq<char>;

/// The path without its final component, as camino computes it; `None` for a
/// path that ends in a root or prefix.
pub uninterp spec fn parent_of(path: Seq<char>) -> Option<Seq<char>>;

/// Relies on `camino::Utf8Path::join`: `name` adjoined to `base`.
#[verifier::external_body]
fn join_path(base: &str, name: &str) -> (r: String)
    ensures
        r@ == joined(base@, name@),
{
    camino::Utf8Path::new(base).join(name).into_string()
}

/// Relies on `camino::Utf8Path::parent`: the path without its final component.
#[verifier::external_body]
fn parent_dir(path: &str) -> (r: Option<String>)
    ensures
        match parent_of(path@) {
            Some(p) => r matches Some(q) && q@ == p,
            None => r is None,
        },
{
    camino::Utf8Path::new(path).parent().map(|p| p.as_str().to_string())
}

/// One step of the search for a store, upwards from a starting directory.
#[derive(Debug, Clone, PartialEq, Eq)]
pub enum Locate {
    /// Check whether the directory `marker`, the marker below `dir`, exists.
    Probe { dir: String, marker: String },
    /// The store is rooted at `base`.
    Found { base: String },
    /// No directory up to the root holds the marker: use the default store.
    UseDefault,
}

/// The mathematical value of a [`Locate`].
pub enum LocateView {
    Probe { dir: Seq<char>, marker: Seq<char> },
    Found { base: Seq<char> },
    UseDefault,
}

impl View for Locate {
    type V = LocateView;

    open spec fn view(&self) -> LocateView {
        match self {
            Locate::Probe { dir, marker } => LocateView::Probe { dir: dir@, marker: marker@ },
            Locate::Found { base } => LocateView::Found { base: base@ },
            Locate::UseDefault => LocateView::UseDefault,
        }
    }
}

/// The probe of `dir`.
pub open spec fn probe_of(dir: Seq<char>) -> LocateView {
    LocateView::Probe { dir, marker: joined(dir, MARKER_DIR@) }
}

/// What follows the probe of `dir`, given whether its marker exists.
pub open spec fn locate_spec(dir: Seq<char>, present: bool) -> LocateView {
    if present {
        LocateView::Found { base: joined(dir, MARKER_DIR@) }
    } else {
        match parent_of(dir) {
            Some(p) => probe_of(p),
            None => LocateView::UseDefault,
        }
    }
}

/// The outcome of a search that starts at `dir`, where `marked` holds the
/// directories whose marker exists, looking at no more than `fuel`
/// directories.
pub open spec fn search_spec(dir: Seq<char>, marked: Set<Seq<char>>, fuel: nat) -> LocateView
    decreases fuel,
{
    if fuel == 0 {
        probe_of(dir)
    } else {
        match locate_spec(dir, marked.contains(dir)) {
            LocateView::Probe { dir: p, marker: _ } => search_spec(p, marked, (fuel - 1) as nat),
            other => other,
        }
    }
}

/// The search for a store starts by probing the starting directory.
pub fn start_locate(dir: &str) -> (r: Locate)
    ensures
        r@ == probe_of(dir@),
{
    let marker = join_path(dir, MARKER_DIR);
    Locate::Probe { dir: String::from_str(dir), marker }
}

/// The number of directories between a start and the store found above it
/// does not matter: three levels below a marked directory, with none marked
/// in between, the search ends at that directory's store.
pub proof fn lemma_discovery_three_levels(
    d0: Seq<char>,
    d1: Seq<char>,
    d2: Seq<char>,
    d3: Seq<char>,
    marked: Set<Seq<char>>,
)
    requires
        parent_of(d0) == Some(d1),
        parent_of(d1) == Some(d2),
        parent_of(d2) == Some(d3),
        !marked.contains(d0),
        !marked.contains(d1),
        !marked.contains(d2),
        marked.contains(d3),
    ensures
        search_spec(d0, marked, 4) == (LocateView::Found { base: joined(d3, MARKER_DIR@) }),
{
    assert(search_spec(d3, marked, 1) == (LocateView::Found { base: joined(d3, MARKER_DIR@) }));
    assert(search_spec(d2, marked, 2) == search_spec(d3, marked, 1));
    assert(search_spec(d1, marked, 3) == search_spec(d2, marked, 2));
}

/// How a store's root is known.
#[derive(Debug, Clone, PartialEq, Eq)]
pub enum RemoteProbe {
    /// The root is not a git working tree.
    NotWorkTree,
    /// The root is a working tree whose `origin` has this address.
    Bound(String),
    /// The root is a working tree without an `origin`.
    Unbound,
}

/// A located store: its root directory and the remote it is bound to.
#[derive(Debug, Clone)]
pub struct Setup {
    git: Option<String>,
    config_base: String,
}

/// The default configuration of a store; it holds no setting yet.
#[derive(Debug, Clone, Copy, PartialEq, Eq, Structural)]
pub struct Config {}

impl Default for Config {
    fn default() -> (r: Config)
        ensures
            r == (Config {}),
    {
        Config {}
    }
}

/// The root of a store: the one asked for, else the default directory;
/// `Config` where neither is known.
pub fn choose_base(root: Option<String>, default_dir: Option<String>) -> (r: Result<String, Error>)
    ensures
        match (root, default_dir) {
            (Some(x), _) => r == Ok::<String, Error>(x),
            (None, Some(d)) => r == Ok::<String, Error>(d),
            (None, None) => r == Err::<String, Error>(Error::Config),
        },
{
    match root {
        Some(x) => Ok(x),
        None => match default_dir {
            Some(d) => Ok(d),
            None => Err(Error::Config),
        },
    }
}

impl Setup {
    /// The remote this store is bound to.
    pub closed spec fn remote(&self) -> Option<String> {
        self.git
    }

    /// The root directory of this store.
    pub closed spec fn base(&self) -> Seq<char> {
        self.config_base@
    }

    /// A store rooted at `config_base`. A working tree keeps the remote it
    /// is bound to, whatever was asked; one without `origin` is `NotBound`.
    /// Elsewhere the remote asked for is taken.
    pub fn new(git: Option<String>, config_base: String, probe: RemoteProbe) -> (r: Result<
        Setup,
        Error,
    >)
        ensures
            match probe {
                RemoteProbe::NotWorkTree => r matches Ok(s) && s.remote() == git && s.base()
                    == config_base@,
                RemoteProbe::Bound(found) => r matches Ok(s) && s.remote() == Some(found)
                    && s.base() == config_base@,
                RemoteProbe::Unbound => r == Err::<Setup, Error>(Error::NotBound),
            },
    {
        match probe {
            RemoteProbe::NotWorkTree => Ok(Setup { git, config_base }),
            RemoteProbe::Bound(found) => Ok(Setup { git: Some(found), config_base }),
            RemoteProbe::Unbound => Err(Error::NotBound),
        }
    }

    /// One step of the search for a store: the probe of `dir` answered
    /// whether its marker exists.
    pub fn determine_from(dir: &str, marker_present: bool) -> (r: Locate)
        ensures
            r@ == locate_spec(dir@, marker_present),
    {
        if marker_present {
            Locate::Found { base: join_path(dir, MARKER_DIR) }
        } else {
            match parent_dir(dir) {
                Some(p) => {
                    let marker = join_path(p.as_str(), MARKER_DIR);
                    Locate::Probe { dir: p, marker }
                },
                None => Locate::UseDefault,
            }
        }
    }

    /// The root directory of this store.
    pub fn root(&self) -> (r: String)
        ensures
            r@ == self.base(),
    {
        self.config_base.clone()
    }

    /// The configuration file.
    pub fn config_file(&self) -> (r: String)
        ensures
            r@ == joined(self.base(), CONFIG_FILE@),
    {
        join_path(self.config_base.as_str(), CONFIG_FILE)
    }

    /// The bibliography file.
    pub fn bib_path(&self) -> (r: String)
        ensures
            r@ == joined(self.base(), BIB_FILE@),
    {
        join_path(self.config_base.as_str(), BIB_FILE)
    }

    /// The cache directory of fetched documents.
    pub fn pdf_dir(&self) -> (r: String)
        ensures
            r@ == joined(self.base(), PDF_DIR@),
    {
        join_path(self.config_base.as_str(), PDF_DIR)
    }

    /// The address of the remote this store is bound to.
    pub fn git(&self) -> (r: Option<&str>)
        ensures
            match self.remote() {
                Some(g) => r matches Some(x) && x@ == g@,
                None => r is None,
            },
    {
        match &self.git {
            Some(g) => Some(g.as_str()),
            None => None,
        }
    }

    /// Starts the synchronization of this store with its remote.
    pub fn sync_git(&self) -> (r: (SyncState, SyncAction))
        ensures
            r == sync::begin_spec(self.remote() is Some),
    {
        sync::begin(self.git.is_some())
    }
}

/// A step of the first-time setup of a store bound to a remote.
#[derive(Debug, Clone, Copy, PartialEq, Eq, Structural)]
pub enum SetupStep {
    /// `init`: make the root a working tree.
    Init,
    /// `remote add origin <url>`.
    BindRemote,
    /// `pull origin main`.
    Pull,
}

impl SetupStep {
    /// A failure of this step ends the setup; the others are only logged,
    /// since a fresh remote may be empty or bound already.
    pub fn failure_is_fatal(&self) -> (r: bool)
        ensures
            r == (*self == SetupStep::Init),
    {
        match self {
            SetupStep::Init => true,
            _ => false,
        }
    }
}

/// The steps of the first-time setup, in order: `init` only where the root
/// is not a working tree yet, then the remote binding and a first pull.
pub fn setup_steps(has_worktree: bool) -> (r: Vec<SetupStep>)
    ensures
        r@ == if has_worktree {
            seq![SetupStep::BindRemote, SetupStep::Pull]
        } else {
            seq![SetupStep::Init, SetupStep::BindRemote, SetupStep::Pull]
        },
{
    let mut steps: Vec<SetupStep> = Vec::new();
    if !has_worktree {
        steps.push(SetupStep::Init);
    }
    steps.push(SetupStep::BindRemote);
    steps.push(SetupStep::Pull);
    proof {
        if has_worktree {
            assert(steps@ =~= seq![SetupStep::BindRemote, SetupStep::Pull]);
        } else {
            assert(steps@ =~= seq![SetupStep::Init, SetupStep::BindRemote, SetupStep::Pull]);
        }
    }
    steps
}

} // verus!
