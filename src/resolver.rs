//! Resolution of the executable as a state machine. The host performs each
//! [`Action`] and reports its outcome as an [`Event`]; every decision is taken
//! here, by [`Resolver::step`].
use crate::error::{outcome_view, ErrorView, FsOp, InstallStep, ResolveError};
use crate::platform::{
    archive_kind, archive_kind_spec, raw_binary_name, raw_binary_name_spec, tagged_binary_name,
    tagged_name_spec, ArchiveKind, Architecture, Os, LSP_BINARY,
};
use crate::release::{install_source, install_source_spec, ReleaseInfo, ReleaseView};
use vstd::prelude::*;
use vstd::string::*;

verus! {

/// An entry at the top level of the cache directory.
#[derive(Clone, Debug, PartialEq, Eq)]
pub struct CacheEntry {
    pub name: String,
    pub is_dir: bool,
}

/// Mathematical model of a [`CacheEntry`].
pub struct EntryView {
    pub name: Seq<char>,
    pub is_dir: bool,
}

impl View for CacheEntry {
    type V = EntryView;

    open spec fn view(&self) -> EntryView {
        EntryView { name: self.name@, is_dir: self.is_dir }
    }
}

/// Models of the entries of a listing, in order.
pub open spec fn entries_view(entries: Seq<CacheEntry>) -> Seq<EntryView> {
    entries.map_values(|c: CacheEntry| c@)
}

/// Installation progress reported to the host.
#[derive(Clone, Copy, Debug, PartialEq, Eq, Structural)]
pub enum InstallStatus {
    Downloading,
    Idle,
}

/// What the resolver waits for.
#[derive(Clone, Copy, Debug, PartialEq, Eq, Structural)]
pub enum Phase {
    AwaitPath,
    AwaitRelease,
    AwaitCacheCheck,
    AwaitListing,
    Evicting,
    AwaitDownloadStatus,
    AwaitDownload,
    AwaitRename,
    AwaitExecutable,
    AwaitIdleStatus,
    Finished,
}

/// Work for the host. Names of cache files are relative to the cache directory.
#[derive(Debug)]
pub enum Action {
    /// Look the executable up on the system search path.
    LookupPath(String),
    /// Fetch the latest release that has assets and is not a pre-release.
    FetchLatestRelease,
    /// Tell whether this file exists in the cache directory.
    CheckCache(String),
    /// List the top-level entries of the cache directory.
    ListCache,
    /// Remove this entry, recursively for a directory.
    Remove(CacheEntry),
    /// Report installation progress.
    SetStatus(InstallStatus),
    /// Download this URL into the cache directory and extract it.
    Download(String, ArchiveKind),
    /// Rename a file of the cache directory.
    Rename(String, String),
    /// Mark a file of the cache directory executable.
    MakeExecutable(String),
    /// Resolution is over: the command to run, or why there is none.
    Finish(Result<String, ResolveError>),
}

/// Mathematical model of an [`Action`].
pub enum ActionView {
    LookupPath(Seq<char>),
    FetchLatestRelease,
    CheckCache(Seq<char>),
    ListCache,
    Remove(EntryView),
    SetStatus(InstallStatus),
    Download(Seq<char>, ArchiveKind),
    Rename(Seq<char>, Seq<char>),
    MakeExecutable(Seq<char>),
    Finish(Result<Seq<char>, ErrorView>),
}

impl View for Action {
    type V = ActionView;

    open spec fn view(&self) -> ActionView {
        match self {
            Action::LookupPath(b) => ActionView::LookupPath(b@),
            Action::FetchLatestRelease => ActionView::FetchLatestRelease,
            Action::CheckCache(n) => ActionView::CheckCache(n@),
            Action::ListCache => ActionView::ListCache,
            Action::Remove(c) => ActionView::Remove(c@),
            Action::SetStatus(s) => ActionView::SetStatus(*s),
            Action::Download(u, k) => ActionView::Download(u@, *k),
            Action::Rename(f, t) => ActionView::Rename(f@, t@),
            Action::MakeExecutable(n) => ActionView::MakeExecutable(n@),
            Action::Finish(r) => ActionView::Finish(outcome_view(*r)),
        }
    }
}

/// The outcome of the host's last action.
#[derive(Debug)]
pub enum Event {
    /// Where the executable is on the system search path, if it is.
    PathLookedUp(Option<String>),
    /// The latest release, or the host's message on failure.
    ReleaseFetched(Result<ReleaseInfo, String>),
    /// Whether the file exists; fails when the directory is unknown.
    CacheChecked(Result<bool, String>),
    /// The entries of the cache directory, or the operation that failed.
    Listed(Result<Vec<CacheEntry>, (FsOp, String)>),
    Removed(Result<(), String>),
    /// The status was reported.
    StatusSet,
    Downloaded(Result<(), String>),
    Renamed(Result<(), String>),
    MadeExecutable(Result<(), String>),
}

/// Mathematical model of an [`Event`].
pub enum EventView {
    PathLookedUp(Option<Seq<char>>),
    ReleaseFetched(Result<ReleaseView, Seq<char>>),
    CacheChecked(Result<bool, Seq<char>>),
    Listed(Result<Seq<EntryView>, (FsOp, Seq<char>)>),
    Removed(Result<(), Seq<char>>),
    StatusSet,
    Downloaded(Result<(), Seq<char>>),
    Renamed(Result<(), Seq<char>>),
    MadeExecutable(Result<(), Seq<char>>),
}

/// Model of the outcome of a host operation that returns nothing.
pub open spec fn unit_view(r: Result<(), String>) -> Result<(), Seq<char>> {
    match r {
        Ok(()) => Ok(()),
        Err(d) => Err(d@),
    }
}

impl View for Event {
    type V = EventView;

    open spec fn view(&self) -> EventView {
        match self {
            Event::PathLookedUp(p) => EventView::PathLookedUp(
                match p {
                    Some(s) => Some(s@),
                    None => None,
                },
            ),
            Event::ReleaseFetched(r) => EventView::ReleaseFetched(
                match r {
                    Ok(rel) => Ok(rel@),
                    Err(d) => Err(d@),
                },
            ),
            Event::CacheChecked(r) => EventView::CacheChecked(
                match r {
                    Ok(b) => Ok(*b),
                    Err(d) => Err(d@),
                },
            ),
            Event::Listed(r) => EventView::Listed(
                match r {
                    Ok(es) => Ok(entries_view(es@)),
                    Err((op, d)) => Err((*op, d@)),
                },
            ),
            Event::Removed(r) => EventView::Removed(unit_view(*r)),
            Event::StatusSet => EventView::StatusSet,
            Event::Downloaded(r) => EventView::Downloaded(unit_view(*r)),
            Event::Renamed(r) => EventView::Renamed(unit_view(*r)),
            Event::MadeExecutable(r) => EventView::MadeExecutable(unit_view(*r)),
        }
    }
}

/// Mathematical model of a [`Resolver`].
pub struct ResolverView {
    pub os: Os,
    pub arch: Architecture,
    pub phase: Phase,
    /// Cache name of the latest release's executable.
    pub tagged: Seq<char>,
    /// Name of the executable as the release archive holds it.
    pub raw: Seq<char>,
    /// Download URL of the asset to install, or why there is none.
    pub source: Result<Seq<char>, ErrorView>,
    /// Cache entries to evict, and how many are gone.
    pub entries: Seq<EntryView>,
    pub next: int,
}

/// The state in which resolution starts, and the first action.
pub open spec fn initial_spec(os: Os, arch: Architecture) -> (ResolverView, ActionView) {
    (
        ResolverView {
            os,
            arch,
            phase: Phase::AwaitPath,
            tagged: Seq::empty(),
            raw: Seq::empty(),
            source: Ok(Seq::empty()),
            entries: Seq::empty(),
            next: 0,
        },
        ActionView::LookupPath(LSP_BINARY@),
    )
}

/// Which event answers the action that a phase waits on.
pub open spec fn accepts_spec(phase: Phase, e: EventView) -> bool {
    match e {
        EventView::PathLookedUp(_) => phase == Phase::AwaitPath,
        EventView::ReleaseFetched(_) => phase == Phase::AwaitRelease,
        EventView::CacheChecked(_) => phase == Phase::AwaitCacheCheck,
        EventView::Listed(_) => phase == Phase::AwaitListing,
        EventView::Removed(_) => phase == Phase::Evicting,
        EventView::StatusSet => phase == Phase::AwaitDownloadStatus || phase == Phase::AwaitIdleStatus,
        EventView::Downloaded(_) => phase == Phase::AwaitDownload,
        EventView::Renamed(_) => phase == Phase::AwaitRename,
        EventView::MadeExecutable(_) => phase == Phase::AwaitExecutable,
    }
}

/// The eviction cursor stays within the listing, and points at an entry while evicting.
pub open spec fn wf_view(s: ResolverView) -> bool {
    &&& 0 <= s.next <= s.entries.len()
    &&& s.phase == Phase::Evicting ==> s.next < s.entries.len()
}

/// End the attempt with `outcome`.
pub open spec fn finish_spec(s: ResolverView, outcome: Result<Seq<char>, ErrorView>) -> (
    ResolverView,
    ActionView,
) {
    (ResolverView { phase: Phase::Finished, ..s }, ActionView::Finish(outcome))
}

/// End the attempt with the error `e`.
pub open spec fn fail_spec(s: ResolverView, e: ErrorView) -> (ResolverView, ActionView) {
    finish_spec(s, Err(e))
}

/// Move to `phase` and ask for `a`.
pub open spec fn goto(s: ResolverView, phase: Phase, a: ActionView) -> (ResolverView, ActionView) {
    (ResolverView { phase, ..s }, a)
}

/// Remove the next entry, or, when none is left, start the installation.
pub open spec fn continue_eviction_spec(s: ResolverView) -> (ResolverView, ActionView) {
    if s.next < s.entries.len() {
        goto(s, Phase::Evicting, ActionView::Remove(s.entries[s.next]))
    } else {
        goto(s, Phase::AwaitDownloadStatus, ActionView::SetStatus(InstallStatus::Downloading))
    }
}

/// The removal that an entry needs: recursive for a directory.
pub open spec fn removal_op(entry: EntryView) -> FsOp {
    if entry.is_dir {
        FsOp::RemoveDir
    } else {
        FsOp::RemoveFile
    }
}

/// The resolver's decision on an event: its next state and action.
pub open spec fn next_spec(s: ResolverView, e: EventView) -> (ResolverView, ActionView) {
    match e {
        EventView::PathLookedUp(Some(p)) => finish_spec(s, Ok(p)),
        EventView::PathLookedUp(None) => goto(s, Phase::AwaitRelease, ActionView::FetchLatestRelease),
        EventView::ReleaseFetched(Err(d)) => fail_spec(s, ErrorView::ReleaseLookup(d)),
        EventView::ReleaseFetched(Ok(rel)) => {
            let tagged = tagged_name_spec(rel.version, s.os);
            (
                ResolverView {
                    phase: Phase::AwaitCacheCheck,
                    tagged,
                    raw: raw_binary_name_spec(s.os),
                    source: install_source_spec(rel, s.os, s.arch),
                    ..s
                },
                ActionView::CheckCache(tagged),
            )
        },
        EventView::CacheChecked(Err(d)) => fail_spec(s, ErrorView::Filesystem(FsOp::CurrentDir, d)),
        EventView::CacheChecked(Ok(true)) => finish_spec(s, Ok(s.tagged)),
        EventView::CacheChecked(Ok(false)) => goto(s, Phase::AwaitListing, ActionView::ListCache),
        EventView::Listed(Err((op, d))) => fail_spec(s, ErrorView::Filesystem(op, d)),
        EventView::Listed(Ok(es)) => continue_eviction_spec(ResolverView { entries: es, next: 0, ..s }),
        EventView::Removed(Err(d)) => fail_spec(
            s,
            ErrorView::Filesystem(removal_op(s.entries[s.next]), d),
        ),
        EventView::Removed(Ok(())) => continue_eviction_spec(ResolverView { next: s.next + 1, ..s }),
        EventView::StatusSet => if s.phase == Phase::AwaitDownloadStatus {
            match s.source {
                Ok(url) => goto(s, Phase::AwaitDownload, ActionView::Download(url, archive_kind_spec(s.os))),
                Err(err) => fail_spec(s, err),
            }
        } else {
            finish_spec(s, Ok(s.tagged))
        },
        EventView::Downloaded(Err(d)) => fail_spec(s, ErrorView::Install(InstallStep::Download, d)),
        EventView::Downloaded(Ok(())) => goto(s, Phase::AwaitRename, ActionView::Rename(s.raw, s.tagged)),
        EventView::Renamed(Err(d)) => fail_spec(s, ErrorView::Install(InstallStep::Rename, d)),
        EventView::Renamed(Ok(())) => goto(s, Phase::AwaitExecutable, ActionView::MakeExecutable(s.tagged)),
        EventView::MadeExecutable(Err(d)) => fail_spec(
            s,
            ErrorView::Install(InstallStep::MakeExecutable, d),
        ),
        EventView::MadeExecutable(Ok(())) => goto(
            s,
            Phase::AwaitIdleStatus,
            ActionView::SetStatus(InstallStatus::Idle),
        ),
    }
}

/// One resolution attempt in progress.
pub struct Resolver {
    os: Os,
    arch: Architecture,
    phase: Phase,
    tagged: String,
    raw: String,
    source: Result<String, ResolveError>,
    entries: Vec<CacheEntry>,
    next: usize,
}

impl View for Resolver {
    type V = ResolverView;

    closed spec fn view(&self) -> ResolverView {
        ResolverView {
            os: self.os,
            arch: self.arch,
            phase: self.phase,
            tagged: self.tagged@,
            raw: self.raw@,
            source: outcome_view(self.source),
            entries: entries_view(self.entries@),
            next: self.next as int,
        }
    }
}

impl Resolver {
    /// Well-formedness, kept by every step.
    pub open spec fn wf(&self) -> bool {
        wf_view(self@)
    }

    /// Starts resolving for the host platform (`os`, `arch`).
    pub fn start(os: Os, arch: Architecture) -> (r: (Resolver, Action))
        ensures
            r.0.wf(),
            (r.0@, r.1@) == initial_spec(os, arch),
    {
        let resolver = Resolver {
            os,
            arch,
            phase: Phase::AwaitPath,
            tagged: String::new(),
            raw: String::new(),
            source: Ok(String::new()),
            entries: Vec::new(),
            next: 0,
        };
        proof {
            assert(entries_view(resolver.entries@) =~= Seq::<EntryView>::empty());
        }
        (resolver, Action::LookupPath(String::from_str(LSP_BINARY)))
    }

    /// What the resolver waits for.
    pub fn phase(&self) -> (r: Phase)
        ensures
            r == self@.phase,
    {
        self.phase
    }

    /// Whether `event` answers the action that the resolver waits on.
    pub fn accepts(&self, event: &Event) -> (r: bool)
        ensures
            r == accepts_spec(self@.phase, event@),
    {
        match event {
            Event::PathLookedUp(_) => self.phase == Phase::AwaitPath,
            Event::ReleaseFetched(_) => self.phase == Phase::AwaitRelease,
            Event::CacheChecked(_) => self.phase == Phase::AwaitCacheCheck,
            Event::Listed(_) => self.phase == Phase::AwaitListing,
            Event::Removed(_) => self.phase == Phase::Evicting,
            Event::StatusSet => self.phase == Phase::AwaitDownloadStatus || self.phase
                == Phase::AwaitIdleStatus,
            Event::Downloaded(_) => self.phase == Phase::AwaitDownload,
            Event::Renamed(_) => self.phase == Phase::AwaitRename,
            Event::MadeExecutable(_) => self.phase == Phase::AwaitExecutable,
        }
    }

    fn goto(&mut self, phase: Phase, action: Action) -> (r: Action)
        ensures
            (final(self)@, r@) == goto(old(self)@, phase, action@),
    {
        self.phase = phase;
        action
    }

    fn finish(&mut self, outcome: Result<String, ResolveError>) -> (r: Action)
        ensures
            (final(self)@, r@) == finish_spec(old(self)@, outcome_view(outcome)),
    {
        self.phase = Phase::Finished;
        Action::Finish(outcome)
    }

    fn continue_eviction(&mut self) -> (r: Action)
        requires
            old(self).next <= old(self).entries.len(),
        ensures
            (final(self)@, r@) == continue_eviction_spec(old(self)@),
            final(self).wf(),
    {
        if self.next < self.entries.len() {
            let entry = CacheEntry {
                name: self.entries[self.next].name.clone(),
                is_dir: self.entries[self.next].is_dir,
            };
            self.goto(Phase::Evicting, Action::Remove(entry))
        } else {
            self.goto(Phase::AwaitDownloadStatus, Action::SetStatus(InstallStatus::Downloading))
        }
    }

    /// Takes the outcome of the last action and decides the next one.
    pub fn step(&mut self, event: Event) -> (r: Action)
        requires
            old(self).wf(),
            accepts_spec(old(self)@.phase, event@),
        ensures
            final(self).wf(),
            (final(self)@, r@) == next_spec(old(self)@, event@),
    {
        match event {
            Event::PathLookedUp(found) => match found {
                Some(path) => self.finish(Ok(path)),
                None => self.goto(Phase::AwaitRelease, Action::FetchLatestRelease),
            },
            Event::ReleaseFetched(fetched) => match fetched {
                Err(d) => self.finish(Err(ResolveError::ReleaseLookup(d))),
                Ok(release) => {
                    self.tagged = tagged_binary_name(release.version.as_str(), self.os);
                    self.raw = raw_binary_name(self.os);
                    self.source = install_source(&release, self.os, self.arch);
                    let check = Action::CheckCache(self.tagged.clone());
                    self.goto(Phase::AwaitCacheCheck, check)
                },
            },
            Event::CacheChecked(checked) => match checked {
                Err(d) => self.finish(Err(ResolveError::Filesystem(FsOp::CurrentDir, d))),
                Ok(true) => {
                    let hit = self.tagged.clone();
                    self.finish(Ok(hit))
                },
                Ok(false) => self.goto(Phase::AwaitListing, Action::ListCache),
            },
            Event::Listed(listed) => match listed {
                Err((op, d)) => self.finish(Err(ResolveError::Filesystem(op, d))),
                Ok(entries) => {
                    self.entries = entries;
                    self.next = 0;
                    self.continue_eviction()
                },
            },
            Event::Removed(removed) => match removed {
                Err(d) => {
                    assert(self.entries@.len() == entries_view(self.entries@).len());
                    let op = if self.entries[self.next].is_dir {
                        FsOp::RemoveDir
                    } else {
                        FsOp::RemoveFile
                    };
                    self.finish(Err(ResolveError::Filesystem(op, d)))
                },
                Ok(()) => {
                    let ghost len = self.entries.len();
                    assert(self.entries@.len() == entries_view(self.entries@).len());
                    self.next = self.next + 1;
                    self.continue_eviction()
                },
            },
            Event::StatusSet => {
                if self.phase == Phase::AwaitDownloadStatus {
                    match &self.source {
                        Ok(url) => {
                            let download = Action::Download(url.clone(), archive_kind(self.os));
                            self.goto(Phase::AwaitDownload, download)
                        },
                        Err(e) => {
                            let failure = e.duplicate();
                            self.finish(Err(failure))
                        },
                    }
                } else {
                    let done = self.tagged.clone();
                    self.finish(Ok(done))
                }
            },
            Event::Downloaded(downloaded) => match downloaded {
                Err(d) => self.finish(Err(ResolveError::Install(InstallStep::Download, d))),
                Ok(()) => {
                    let rename = Action::Rename(self.raw.clone(), self.tagged.clone());
                    self.goto(Phase::AwaitRename, rename)
                },
            },
            Event::Renamed(renamed) => match renamed {
                Err(d) => self.finish(Err(ResolveError::Install(InstallStep::Rename, d))),
                Ok(()) => {
                    let chmod = Action::MakeExecutable(self.tagged.clone());
                    self.goto(Phase::AwaitExecutable, chmod)
                },
            },
            Event::MadeExecutable(made) => match made {
                Err(d) => self.finish(
                    Err(ResolveError::Install(InstallStep::MakeExecutable, d)),
                ),
                Ok(()) => self.goto(Phase::AwaitIdleStatus, Action::SetStatus(InstallStatus::Idle)),
            },
        }
    }
}

} // verus!
