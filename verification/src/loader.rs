//! The repository loader. Reading directories and files is outside work, so
//! the loader is a state machine: it hands its driver one action at a time
//! (check a directory, list packages, read a file) and the driver feeds the
//! outcome back through `step`. Every decision — the fixed configuration
//! filename, error classification, and the fail-fast policy that one bad
//! package aborts the whole load — is made and specified here.

use vstd::prelude::*;
use crate::errors::LoadError;
use crate::meta::{meta_spec, FilterMeta};
use vstd::pervasive::unreached;

verus! {

/// One loaded filter: the full text of its entrypoint script, read once at
/// load time and immutable thereafter, and its metadata.
#[derive(Debug)]
pub struct Filter {
    pub src: String,
    pub meta: FilterMeta,
}

/// What the loader asks its driver to do next.
pub enum LoadAction {
    /// Ask whether the root path is a directory; answer with `IsDir`.
    CheckRoot,
    /// List the names of the root's immediate subdirectories (entries that
    /// are not directories are not candidate packages and are skipped);
    /// answer with `Packages`.
    ListPackages,
    /// Ask whether the named package is still a directory; answer with
    /// `IsDir`.
    CheckPackage(String),
    /// Read the file `config_file_name()` inside the named package as text;
    /// answer with `FileContent`.
    ReadConfig(String),
    /// Read the named entrypoint file inside the named package as text;
    /// answer with `FileContent`.
    ReadEntry(String, String),
    /// Loading finished: every package yielded a filter.
    Done(Vec<Filter>),
    /// Loading failed; by the fail-fast policy the whole load fails, and
    /// filters of earlier packages are discarded.
    Fail(LoadError),
}

/// The driver's answer to the most recent action.
pub enum LoadEvent {
    /// Whether the path in question is a directory.
    IsDir(bool),
    /// The names of the candidate package directories, or nothing if the
    /// root directory could not be enumerated.
    Packages(Option<Vec<String>>),
    /// The text of the requested file, or nothing if it could not be read.
    FileContent(Option<String>),
}

/// Where the loader stands: what it asked for last.
pub enum LoadPhase {
    AtRoot,
    AtList,
    AtPackage(String),
    AtConfig(String),
    AtEntry(String, FilterMeta),
    Finished,
}

/// The loader's state: the phase, the package names still to load, a cursor
/// into them, and the filters loaded so far.
pub struct Loader {
    pub phase: LoadPhase,
    pub pending: Vec<String>,
    pub cursor: usize,
    pub acc: Vec<Filter>,
}

/// The fixed name of the configuration file inside each package directory.
pub fn config_file_name() -> (r: &'static str)
    ensures
        r@ == "binchotan.toml"@,
{
    "binchotan.toml"
}

/// What moving on to the next package (or finishing) leaves behind, given
/// the pending names, the cursor, and the filters loaded so far.
pub open spec fn advanced(
    pending: Seq<String>,
    cursor: int,
    acc: Seq<Filter>,
    l: Loader,
    act: LoadAction,
) -> bool {
    if cursor < pending.len() {
        &&& (l.phase matches LoadPhase::AtPackage(n) && n == pending[cursor])
        &&& (act matches LoadAction::CheckPackage(n) && n == pending[cursor])
        &&& l.pending@ == pending
        &&& l.cursor == cursor + 1
        &&& l.acc@ == acc
    } else {
        &&& l.phase is Finished
        &&& (act matches LoadAction::Done(fs) && fs@ == acc)
    }
}

/// Loading one package is deterministic: two filters loaded from package
/// files with the same configuration text and the same entrypoint text have
/// identical script source and metadata. `Loader::step` ties every loaded
/// filter to its package's file contents exactly this way.
pub proof fn lemma_load_one_deterministic(c: Seq<char>, e: Seq<char>, f1: Filter, f2: Filter)
    requires
        meta_spec(c) matches Some(v1) && f1.meta@ == v1,
        f1.src@ == e,
        meta_spec(c) matches Some(v2) && f2.meta@ == v2,
        f2.src@ == e,
    ensures
        f1.src@ == f2.src@,
        f1.meta@ == f2.meta@,
{
}

fn advance(pending: Vec<String>, cursor: usize, acc: Vec<Filter>) -> (r: (Loader, LoadAction))
    ensures
        advanced(pending@, cursor as int, acc@, r.0, r.1),
{
    if cursor < pending.len() {
        let name = pending[cursor].clone();
        let name2 = name.clone();
        (
            Loader { phase: LoadPhase::AtPackage(name), pending, cursor: cursor + 1, acc },
            LoadAction::CheckPackage(name2),
        )
    } else {
        (
            Loader { phase: LoadPhase::Finished, pending, cursor, acc: Vec::new() },
            LoadAction::Done(acc),
        )
    }
}

impl Filter {
    /// Begins a repository load. The driver performs each returned action
    /// and feeds the outcome back through `Loader::step` until it is handed
    /// `Done` or `Fail`.
    pub fn load() -> (r: (Loader, LoadAction))
        ensures
            r.0.phase is AtRoot,
            r.0.pending@.len() == 0,
            r.0.cursor == 0,
            r.0.acc@.len() == 0,
            r.1 is CheckRoot,
    {
        (
            Loader {
                phase: LoadPhase::AtRoot,
                pending: Vec::new(),
                cursor: 0,
                acc: Vec::new(),
            },
            LoadAction::CheckRoot,
        )
    }
}

impl Loader {
    /// The event kind the loader expects in its current phase.
    pub open spec fn expects(&self, ev: LoadEvent) -> bool {
        match self.phase {
            LoadPhase::AtRoot => ev is IsDir,
            LoadPhase::AtList => ev is Packages,
            LoadPhase::AtPackage(_) => ev is IsDir,
            LoadPhase::AtConfig(_) => ev is FileContent,
            LoadPhase::AtEntry(_, _) => ev is FileContent,
            LoadPhase::Finished => false,
        }
    }

    /// How one loading decision relates the loader before an event to the
    /// loader and action after it: the transition relation that `step`'s
    /// contract promises, written out case by case.
    pub open spec fn step_rel(self, ev: LoadEvent, post: Loader, act: LoadAction) -> bool {
        let r = (post, act);
        match self.phase {
            LoadPhase::AtRoot => match ev {
                    LoadEvent::IsDir(true) => {
                        &&& r.0.phase is AtList
                        &&& r.0.pending@ == self.pending@
                        &&& r.0.cursor == self.cursor
                        &&& r.0.acc@ == self.acc@
                        &&& r.1 is ListPackages
                    },
                    LoadEvent::IsDir(false) => {
                        &&& r.0.phase is Finished
                        &&& (r.1 matches LoadAction::Fail(e) && e is NotADirectory)
                    },
                    _ => true,
                },
                LoadPhase::AtList => match ev {
                    LoadEvent::Packages(Option::None) => {
                        &&& r.0.phase is Finished
                        &&& (r.1 matches LoadAction::Fail(e) && e is IoError)
                    },
                    LoadEvent::Packages(Option::Some(names)) => advanced(
                        names@,
                        0,
                        self.acc@,
                        r.0,
                        r.1,
                    ),
                    _ => true,
                },
                LoadPhase::AtPackage(n) => match ev {
                    LoadEvent::IsDir(true) => {
                        &&& (r.0.phase matches LoadPhase::AtConfig(n2) && n2 == n)
                        &&& r.0.pending@ == self.pending@
                        &&& r.0.cursor == self.cursor
                        &&& r.0.acc@ == self.acc@
                        &&& (r.1 matches LoadAction::ReadConfig(n3) && n3 == n)
                    },
                    LoadEvent::IsDir(false) => {
                        &&& r.0.phase is Finished
                        &&& (r.1 matches LoadAction::Fail(e) && e is NotADirectory)
                    },
                    _ => true,
                },
                LoadPhase::AtConfig(n) => match ev {
                    LoadEvent::FileContent(Option::None) => {
                        &&& r.0.phase is Finished
                        &&& (r.1 matches LoadAction::Fail(e) && e is IoError)
                    },
                    LoadEvent::FileContent(Option::Some(cfg)) => {
                        &&& (meta_spec(cfg@) matches Some(v) ==> {
                            &&& (r.0.phase matches LoadPhase::AtEntry(n2, m) && n2 == n && m@ == v)
                            &&& r.0.pending@ == self.pending@
                            &&& r.0.cursor == self.cursor
                            &&& r.0.acc@ == self.acc@
                            &&& (r.1 matches LoadAction::ReadEntry(n3, entry) && n3 == n && entry@
                                == v.entrypoint)
                        })
                        &&& (meta_spec(cfg@) is None ==> {
                            &&& r.0.phase is Finished
                            &&& (r.1 matches LoadAction::Fail(e)
                                && e matches LoadError::MetaParseError(_))
                        })
                    },
                    _ => true,
                },
                LoadPhase::AtEntry(n, m) => match ev {
                    LoadEvent::FileContent(Option::None) => {
                        &&& r.0.phase is Finished
                        &&& (r.1 matches LoadAction::Fail(e) && e is IoError)
                    },
                    LoadEvent::FileContent(Option::Some(text)) => advanced(
                        self.pending@,
                        self.cursor as int,
                        self.acc@.push((Filter { src: text, meta: m })),
                        r.0,
                        r.1,
                    ),
                    _ => true,
                },
            LoadPhase::Finished => true,
        }
    }

    /// One loading decision. The contract pins the whole loader down:
    /// a root that is not a directory fails with `NotADirectory`; an
    /// unreadable configuration or entrypoint file fails with `IoError`
    /// at once, discarding every filter loaded before — the fail-fast
    /// policy; a configuration is parsed by `FilterMeta::parse` and its
    /// `entrypoint` names the next file to read; a read entrypoint becomes
    /// a `Filter` holding exactly that text and that metadata.
    pub fn step(self, ev: LoadEvent) -> (r: (Loader, LoadAction))
        requires
            self.expects(ev),
        ensures
            self.step_rel(ev, r.0, r.1),
    {
        let Loader { phase, pending, cursor, acc } = self;
        match (phase, ev) {
            (LoadPhase::AtRoot, LoadEvent::IsDir(true)) => (
                Loader { phase: LoadPhase::AtList, pending, cursor, acc },
                LoadAction::ListPackages,
            ),
            (LoadPhase::AtRoot, LoadEvent::IsDir(false)) => (
                Loader { phase: LoadPhase::Finished, pending, cursor, acc },
                LoadAction::Fail(LoadError::NotADirectory),
            ),
            (LoadPhase::AtList, LoadEvent::Packages(None)) => (
                Loader { phase: LoadPhase::Finished, pending, cursor, acc },
                LoadAction::Fail(LoadError::IoError),
            ),
            (LoadPhase::AtList, LoadEvent::Packages(Some(names))) => advance(names, 0, acc),
            (LoadPhase::AtPackage(n), LoadEvent::IsDir(true)) => {
                let n2 = n.clone();
                (
                    Loader { phase: LoadPhase::AtConfig(n), pending, cursor, acc },
                    LoadAction::ReadConfig(n2),
                )
            },
            (LoadPhase::AtPackage(_), LoadEvent::IsDir(false)) => (
                Loader { phase: LoadPhase::Finished, pending, cursor, acc },
                LoadAction::Fail(LoadError::NotADirectory),
            ),
            (LoadPhase::AtConfig(_), LoadEvent::FileContent(None)) => (
                Loader { phase: LoadPhase::Finished, pending, cursor, acc },
                LoadAction::Fail(LoadError::IoError),
            ),
            (LoadPhase::AtConfig(n), LoadEvent::FileContent(Some(cfg))) => {
                match FilterMeta::parse(cfg.as_str()) {
                    Ok(m) => {
                        let entry = m.entrypoint.clone();
                        let n2 = n.clone();
                        (
                            Loader { phase: LoadPhase::AtEntry(n, m), pending, cursor, acc },
                            LoadAction::ReadEntry(n2, entry),
                        )
                    },
                    Err(e) => (
                        Loader { phase: LoadPhase::Finished, pending, cursor, acc },
                        LoadAction::Fail(e),
                    ),
                }
            },
            (LoadPhase::AtEntry(_, _), LoadEvent::FileContent(None)) => (
                Loader { phase: LoadPhase::Finished, pending, cursor, acc },
                LoadAction::Fail(LoadError::IoError),
            ),
            (LoadPhase::AtEntry(_, m), LoadEvent::FileContent(Some(text))) => {
                let mut acc2 = acc;
                acc2.push(Filter { src: text, meta: m });
                advance(pending, cursor, acc2)
            },
            _ => unreached(),
        }
    }
}

/// A finished loader — one that has already answered `Done` or `Fail` —
/// expects no further event: nothing can be fed to it, so in particular no
/// filters can be coaxed out of a load after it has failed.
pub proof fn lemma_finished_is_final(l: Loader, ev: LoadEvent)
    requires
        l.phase is Finished,
    ensures
        !l.expects(ev),
{
}

/// A driver answer reporting that outside reading failed: a configuration
/// or entrypoint file that could not be read, or a root directory whose
/// packages could not be listed.
pub open spec fn failing_read(l: Loader, ev: LoadEvent) -> bool {
    match ev {
        LoadEvent::FileContent(Option::None) => l.phase is AtConfig || l.phase is AtEntry,
        LoadEvent::Packages(Option::None) => l.phase is AtList,
        _ => false,
    }
}

/// The fail-fast policy over a whole repository, stated over any driving
/// loop. A load trace is a chain of `step` transitions: state `i` expects
/// event `i`, and `step_rel` relates it to state `i + 1` and action `i`.
/// If at any point a read fails — a configuration or entrypoint file, or
/// the package listing itself — then no action of the whole trace hands
/// out filters: a repository with one malformed package never yields the
/// other packages' filters.
pub proof fn lemma_fail_fast_trace(
    states: Seq<Loader>,
    events: Seq<LoadEvent>,
    actions: Seq<LoadAction>,
    k: int,
)
    requires
        states.len() == events.len() + 1,
        actions.len() == events.len(),
        forall|i: int| 0 <= i < events.len() ==> (#[trigger] states[i]).expects(events[i]),
        forall|i: int|
            0 <= i < events.len() ==> states[i].step_rel(
                #[trigger] events[i],
                states[i + 1],
                actions[i],
            ),
        0 <= k < events.len(),
        failing_read(states[k], events[k]),
    ensures
        forall|j: int| 0 <= j < actions.len() ==> !((#[trigger] actions[j]) is Done),
{
    // The failing read finishes the loader with the I/O error at once ...
    assert(states[k].expects(events[k]));
    assert(states[k].step_rel(events[k], states[k + 1], actions[k]));
    assert(states[k + 1].phase is Finished && actions[k] is Fail);
    // ... and a finished loader takes part in no later transition, so the
    // failing read is the trace's last step.
    if k + 1 < events.len() {
        assert(states[k + 1].expects(events[k + 1]));
        assert(false);
    }
    assert forall|j: int| 0 <= j < actions.len() implies !((#[trigger] actions[j]) is Done) by {
        if actions[j] is Done {
            // Only finishing a load emits Done, and it finishes the loader,
            // so a Done could stand only where the failing read stands.
            assert(states[j].expects(events[j]));
            assert(states[j].step_rel(events[j], states[j + 1], actions[j]));
            assert(states[j + 1].phase is Finished);
            if j + 1 < events.len() {
                assert(states[j + 1].expects(events[j + 1]));
                assert(false);
            }
            assert(j == k);
            assert(false);
        }
    }
}

} // verus!
