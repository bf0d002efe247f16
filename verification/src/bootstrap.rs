//! First-run installation of the interpreter, as a machine that decides
//! and leaves the work on the file system to its driver.
//!
//! The file system is the only source of truth: every run starts by asking
//! whether the interpreter binary exists. Where it does, nothing else is
//! done. Where it does not, the bundled archive is looked for in two
//! places and unpacked entry by entry.

use vstd::prelude::*;
use vstd::string::*;

verus! {

/// Directory of the installation, below the data directory of the host.
pub const RUNTIME_DIR: &'static str = "python312";

/// The interpreter binary, below the installation directory.
pub const BINARY_NAME: &'static str = "python.exe";

/// Directory of the scripts, below the installation directory.
pub const SCRIPTS_DIR: &'static str = "scripts";

/// The bundled archive, below the resource directory of the host.
pub const ARCHIVE_NAME: &'static str = "python312.zip";

/// Directory below the resource directory in which the archive lies when
/// the host runs unpackaged.
pub const FALLBACK_DIR: &'static str = "resources";

/// Where the bundled archive is looked for.
#[derive(Clone, Copy, Debug, PartialEq, Eq, Structural)]
pub enum ArchiveLocation {
    /// Directly in the resource directory.
    Primary,
    /// In the nested directory of an unpackaged host.
    Fallback,
}

/// A step on the file system that can fail.
#[derive(Clone, Copy, Debug, PartialEq, Eq, Structural)]
pub enum IoStep {
    CreateRoot,
    OpenArchive,
    IndexArchive,
    ReadEntry,
    CreateDirectory,
    CreateParent,
    CreateFile,
    CopyEntry,
}

/// Why the installation failed.
#[derive(Debug, PartialEq, Eq)]
pub enum BootstrapError {
    /// The archive is in neither place; `searched` is the last place
    /// looked at, as reports show it.
    MissingArchive { searched: String },
    /// A step on the file system failed for `reason`; `target` is the
    /// path that the step worked on, as reports show it, or empty.
    Io { step: IoStep, target: String, reason: String },
}

/// `BootstrapError` with its texts as sequences of characters.
pub enum BootstrapErrorModel {
    MissingArchive { searched: Seq<char> },
    Io { step: IoStep, target: Seq<char>, reason: Seq<char> },
}

impl View for BootstrapError {
    type V = BootstrapErrorModel;

    open spec fn view(&self) -> BootstrapErrorModel {
        match self {
            BootstrapError::MissingArchive { searched } => BootstrapErrorModel::MissingArchive {
                searched: searched@,
            },
            BootstrapError::Io { step, target, reason } => BootstrapErrorModel::Io {
                step: *step,
                target: target@,
                reason: reason@,
            },
        }
    }
}

impl IoStep {
    /// How the report of a failure of this step begins.
    pub open spec fn lead(self) -> Seq<char> {
        match self {
            IoStep::CreateRoot => "Failed to create Python directory"@,
            IoStep::OpenArchive => "Failed to open Python archive"@,
            IoStep::IndexArchive => "Failed to read Python archive"@,
            IoStep::ReadEntry => "Failed to read archive entry"@,
            IoStep::CreateDirectory => "Failed to create directory "@,
            IoStep::CreateParent => "Failed to create parent dir"@,
            IoStep::CreateFile => "Failed to create file "@,
            IoStep::CopyEntry => "Failed to extract "@,
        }
    }

    /// Whether the report of a failure of this step names the path.
    pub open spec fn names_target(self) -> bool {
        self == IoStep::CreateDirectory || self == IoStep::CreateFile || self == IoStep::CopyEntry
    }

    fn lead_text(&self) -> (text: &'static str)
        ensures
            text@ == self.lead(),
    {
        match self {
            IoStep::CreateRoot => "Failed to create Python directory",
            IoStep::OpenArchive => "Failed to open Python archive",
            IoStep::IndexArchive => "Failed to read Python archive",
            IoStep::ReadEntry => "Failed to read archive entry",
            IoStep::CreateDirectory => "Failed to create directory ",
            IoStep::CreateParent => "Failed to create parent dir",
            IoStep::CreateFile => "Failed to create file ",
            IoStep::CopyEntry => "Failed to extract ",
        }
    }

    fn shows_target(&self) -> (shown: bool)
        ensures
            shown == self.names_target(),
    {
        match self {
            IoStep::CreateDirectory => true,
            IoStep::CreateFile => true,
            IoStep::CopyEntry => true,
            _ => false,
        }
    }
}

impl BootstrapErrorModel {
    /// The text that tells the caller why the installation failed.
    pub open spec fn message(self) -> Seq<char> {
        match self {
            BootstrapErrorModel::MissingArchive { searched } => "Python archive not found at: "@
                + searched + ". Reinstall MOBIUS."@,
            BootstrapErrorModel::Io { step, target, reason } => step.lead() + (if step.names_target() {
                target
            } else {
                Seq::empty()
            }) + ": "@ + reason,
        }
    }
}

impl BootstrapError {
    /// The text that tells the caller why the installation failed.
    pub fn message(&self) -> (text: String)
        ensures
            text@ == self@.message(),
    {
        match self {
            BootstrapError::MissingArchive { searched } => {
                let mut text = String::from_str("Python archive not found at: ");
                text.append(searched.as_str());
                text.append(". Reinstall MOBIUS.");
                text
            },
            BootstrapError::Io { step, target, reason } => {
                let mut text = String::from_str(step.lead_text());
                if step.shows_target() {
                    text.append(target.as_str());
                } else {
                    assert(text@ + Seq::<char>::empty() =~= text@);
                }
                text.append(": ");
                text.append(reason.as_str());
                text
            },
        }
    }
}

/// What the driver has to do next.
#[derive(Clone, Copy, Debug, PartialEq, Eq, Structural)]
pub enum BootstrapAction {
    /// Tell whether the interpreter binary exists.
    ProbeBinary,
    /// Tell whether the archive exists at `location`.
    ProbeArchive { location: ArchiveLocation },
    /// Create the installation directory with all its parents.
    CreateRoot,
    /// Open the archive at `location`.
    OpenArchive { location: ArchiveLocation },
    /// Read the directory of the archive and tell how many entries it has.
    IndexArchive,
    /// Read entry `index`: tell whether it is a directory, and its path
    /// below the installation directory.
    ReadEntry { index: usize },
    /// Create the directory of entry `index` with all its parents.
    CreateDirectory { index: usize },
    /// Create the parents of the file of entry `index`, if it has any.
    CreateParent { index: usize },
    /// Create the file of entry `index`.
    CreateFile { index: usize },
    /// Copy what entry `index` holds into its file.
    CopyEntry { index: usize },
    /// Nothing: the installation is there.
    Finish,
    /// Nothing: the installation failed.
    Abort,
}

impl BootstrapAction {
    /// Whether the action looks at the archive or reads from it.
    pub open spec fn touches_archive(self) -> bool {
        self is ProbeArchive || self is OpenArchive || self is IndexArchive || self is ReadEntry
            || self is CopyEntry
    }
}

/// What the driver hands back.
#[derive(Debug)]
pub enum BootstrapEvent {
    /// The answer to a probe.
    Exists { present: bool },
    /// The pending step was done.
    Done,
    /// The directory of the archive was read: it has `entries` entries.
    Indexed { entries: usize },
    /// The pending entry was read; `target` is its path below the
    /// installation directory, as reports show it.
    Entry { is_dir: bool, target: String },
    /// The pending step failed.
    Failed { reason: String },
}

/// `BootstrapEvent` with its texts as sequences of characters.
pub enum BootstrapEventModel {
    Exists { present: bool },
    Done,
    Indexed { entries: usize },
    Entry { is_dir: bool, target: Seq<char> },
    Failed { reason: Seq<char> },
}

impl View for BootstrapEvent {
    type V = BootstrapEventModel;

    open spec fn view(&self) -> BootstrapEventModel {
        match self {
            BootstrapEvent::Exists { present } => BootstrapEventModel::Exists {
                present: *present,
            },
            BootstrapEvent::Done => BootstrapEventModel::Done,
            BootstrapEvent::Indexed { entries } => BootstrapEventModel::Indexed {
                entries: *entries,
            },
            BootstrapEvent::Entry { is_dir, target } => BootstrapEventModel::Entry {
                is_dir: *is_dir,
                target: target@,
            },
            BootstrapEvent::Failed { reason } => BootstrapEventModel::Failed { reason: reason@ },
        }
    }
}

/// Where the installation stands.
#[derive(Debug)]
pub enum BootstrapStage {
    ProbingBinary,
    ProbingArchive { location: ArchiveLocation },
    CreatingRoot { location: ArchiveLocation },
    OpeningArchive { location: ArchiveLocation },
    IndexingArchive,
    ReadingEntry { index: usize, total: usize },
    CreatingDirectory { index: usize, total: usize, target: String },
    CreatingParent { index: usize, total: usize, target: String },
    CreatingFile { index: usize, total: usize, target: String },
    CopyingEntry { index: usize, total: usize, target: String },
    /// The installation is there; `extracted` is the number of entries
    /// that this run unpacked, `None` where it found the binary in place.
    Installed { extracted: Option<usize> },
    Failed { error: BootstrapError },
}

/// `BootstrapStage` with its texts as sequences of characters.
pub enum BootstrapStageModel {
    ProbingBinary,
    ProbingArchive { location: ArchiveLocation },
    CreatingRoot { location: ArchiveLocation },
    OpeningArchive { location: ArchiveLocation },
    IndexingArchive,
    ReadingEntry { index: usize, total: usize },
    CreatingDirectory { index: usize, total: usize, target: Seq<char> },
    CreatingParent { index: usize, total: usize, target: Seq<char> },
    CreatingFile { index: usize, total: usize, target: Seq<char> },
    CopyingEntry { index: usize, total: usize, target: Seq<char> },
    Installed { extracted: Option<usize> },
    Failed { error: BootstrapErrorModel },
}

impl View for BootstrapStage {
    type V = BootstrapStageModel;

    open spec fn view(&self) -> BootstrapStageModel {
        match self {
            BootstrapStage::ProbingBinary => BootstrapStageModel::ProbingBinary,
            BootstrapStage::ProbingArchive { location } => BootstrapStageModel::ProbingArchive {
                location: *location,
            },
            BootstrapStage::CreatingRoot { location } => BootstrapStageModel::CreatingRoot {
                location: *location,
            },
            BootstrapStage::OpeningArchive { location } => BootstrapStageModel::OpeningArchive {
                location: *location,
            },
            BootstrapStage::IndexingArchive => BootstrapStageModel::IndexingArchive,
            BootstrapStage::ReadingEntry { index, total } => BootstrapStageModel::ReadingEntry {
                index: *index,
                total: *total,
            },
            BootstrapStage::CreatingDirectory { index, total, target } => {
                BootstrapStageModel::CreatingDirectory {
                    index: *index,
                    total: *total,
                    target: target@,
                }
            },
            BootstrapStage::CreatingParent { index, total, target } => {
                BootstrapStageModel::CreatingParent {
                    index: *index,
                    total: *total,
                    target: target@,
                }
            },
            BootstrapStage::CreatingFile { index, total, target } => {
                BootstrapStageModel::CreatingFile { index: *index, total: *total, target: target@ }
            },
            BootstrapStage::CopyingEntry { index, total, target } => {
                BootstrapStageModel::CopyingEntry { index: *index, total: *total, target: target@ }
            },
            BootstrapStage::Installed { extracted } => BootstrapStageModel::Installed {
                extracted: *extracted,
            },
            BootstrapStage::Failed { error } => BootstrapStageModel::Failed { error: error@ },
        }
    }
}

impl BootstrapStageModel {
    /// The entry that is worked on, with the number of entries.
    pub open spec fn entry(self) -> Option<(usize, usize)> {
        match self {
            BootstrapStageModel::ReadingEntry { index, total } => Some((index, total)),
            BootstrapStageModel::CreatingDirectory { index, total, .. } => Some((index, total)),
            BootstrapStageModel::CreatingParent { index, total, .. } => Some((index, total)),
            BootstrapStageModel::CreatingFile { index, total, .. } => Some((index, total)),
            BootstrapStageModel::CopyingEntry { index, total, .. } => Some((index, total)),
            _ => None,
        }
    }

    /// The entry that is worked on is one of the archive.
    pub open spec fn well_formed(self) -> bool {
        self.entry() matches Some((index, total)) ==> index < total
    }

    /// The run has ended.
    pub open spec fn ended(self) -> bool {
        self is Installed || self is Failed
    }

    /// The stage that follows entry `index` of `total`: the next entry,
    /// or the end once all are unpacked.
    pub open spec fn following(index: usize, total: usize) -> BootstrapStageModel {
        if index + 1 < total {
            BootstrapStageModel::ReadingEntry { index: (index + 1) as usize, total }
        } else {
            BootstrapStageModel::Installed { extracted: Some(total) }
        }
    }

    /// The end of a run in which `step` failed.
    pub open spec fn broken(step: IoStep, target: Seq<char>, reason: Seq<char>)
        -> BootstrapStageModel {
        BootstrapStageModel::Failed { error: BootstrapErrorModel::Io { step, target, reason } }
    }

    /// The action that this stage asks for.
    pub open spec fn pending(self) -> BootstrapAction {
        match self {
            BootstrapStageModel::ProbingBinary => BootstrapAction::ProbeBinary,
            BootstrapStageModel::ProbingArchive { location } => BootstrapAction::ProbeArchive {
                location,
            },
            BootstrapStageModel::CreatingRoot { .. } => BootstrapAction::CreateRoot,
            BootstrapStageModel::OpeningArchive { location } => BootstrapAction::OpenArchive {
                location,
            },
            BootstrapStageModel::IndexingArchive => BootstrapAction::IndexArchive,
            BootstrapStageModel::ReadingEntry { index, .. } => BootstrapAction::ReadEntry { index },
            BootstrapStageModel::CreatingDirectory { index, .. } => {
                BootstrapAction::CreateDirectory { index }
            },
            BootstrapStageModel::CreatingParent { index, .. } => BootstrapAction::CreateParent {
                index,
            },
            BootstrapStageModel::CreatingFile { index, .. } => BootstrapAction::CreateFile {
                index,
            },
            BootstrapStageModel::CopyingEntry { index, .. } => BootstrapAction::CopyEntry { index },
            BootstrapStageModel::Installed { .. } => BootstrapAction::Finish,
            BootstrapStageModel::Failed { .. } => BootstrapAction::Abort,
        }
    }

    /// The stage after `event`; `fallback` is the second place of the
    /// archive as reports show it. An event that the stage does not wait
    /// for changes nothing.
    pub open spec fn after(self, event: BootstrapEventModel, fallback: Seq<char>)
        -> BootstrapStageModel {
        match (self, event) {
            (BootstrapStageModel::ProbingBinary, BootstrapEventModel::Exists { present }) => {
                if present {
                    BootstrapStageModel::Installed { extracted: None }
                } else {
                    BootstrapStageModel::ProbingArchive { location: ArchiveLocation::Primary }
                }
            },
            (
                BootstrapStageModel::ProbingArchive { location },
                BootstrapEventModel::Exists { present },
            ) => {
                if present {
                    BootstrapStageModel::CreatingRoot { location }
                } else if location == ArchiveLocation::Primary {
                    BootstrapStageModel::ProbingArchive { location: ArchiveLocation::Fallback }
                } else {
                    BootstrapStageModel::Failed {
                        error: BootstrapErrorModel::MissingArchive { searched: fallback },
                    }
                }
            },
            (BootstrapStageModel::CreatingRoot { location }, BootstrapEventModel::Done) => {
                BootstrapStageModel::OpeningArchive { location }
            },
            (BootstrapStageModel::CreatingRoot { .. }, BootstrapEventModel::Failed { reason }) => {
                BootstrapStageModel::broken(IoStep::CreateRoot, Seq::empty(), reason)
            },
            (BootstrapStageModel::OpeningArchive { .. }, BootstrapEventModel::Done) => {
                BootstrapStageModel::IndexingArchive
            },
            (BootstrapStageModel::OpeningArchive { .. }, BootstrapEventModel::Failed { reason }) => {
                BootstrapStageModel::broken(IoStep::OpenArchive, Seq::empty(), reason)
            },
            (BootstrapStageModel::IndexingArchive, BootstrapEventModel::Indexed { entries }) => {
                if entries == 0 {
                    BootstrapStageModel::Installed { extracted: Some(0) }
                } else {
                    BootstrapStageModel::ReadingEntry { index: 0, total: entries }
                }
            },
            (BootstrapStageModel::IndexingArchive, BootstrapEventModel::Failed { reason }) => {
                BootstrapStageModel::broken(IoStep::IndexArchive, Seq::empty(), reason)
            },
            (
                BootstrapStageModel::ReadingEntry { index, total },
                BootstrapEventModel::Entry { is_dir, target },
            ) => {
                if is_dir {
                    BootstrapStageModel::CreatingDirectory { index, total, target }
                } else {
                    BootstrapStageModel::CreatingParent { index, total, target }
                }
            },
            (BootstrapStageModel::ReadingEntry { .. }, BootstrapEventModel::Failed { reason }) => {
                BootstrapStageModel::broken(IoStep::ReadEntry, Seq::empty(), reason)
            },
            (
                BootstrapStageModel::CreatingDirectory { index, total, .. },
                BootstrapEventModel::Done,
            ) => BootstrapStageModel::following(index, total),
            (
                BootstrapStageModel::CreatingDirectory { target, .. },
                BootstrapEventModel::Failed { reason },
            ) => BootstrapStageModel::broken(IoStep::CreateDirectory, target, reason),
            (
                BootstrapStageModel::CreatingParent { index, total, target },
                BootstrapEventModel::Done,
            ) => BootstrapStageModel::CreatingFile { index, total, target },
            (
                BootstrapStageModel::CreatingParent { target, .. },
                BootstrapEventModel::Failed { reason },
            ) => BootstrapStageModel::broken(IoStep::CreateParent, target, reason),
            (
                BootstrapStageModel::CreatingFile { index, total, target },
                BootstrapEventModel::Done,
            ) => BootstrapStageModel::CopyingEntry { index, total, target },
            (
                BootstrapStageModel::CreatingFile { target, .. },
                BootstrapEventModel::Failed { reason },
            ) => BootstrapStageModel::broken(IoStep::CreateFile, target, reason),
            (
                BootstrapStageModel::CopyingEntry { index, total, .. },
                BootstrapEventModel::Done,
            ) => BootstrapStageModel::following(index, total),
            (
                BootstrapStageModel::CopyingEntry { target, .. },
                BootstrapEventModel::Failed { reason },
            ) => BootstrapStageModel::broken(IoStep::CopyEntry, target, reason),
            _ => self,
        }
    }

    /// The stage after all of `events`, in order.
    pub open spec fn after_all(self, events: Seq<BootstrapEventModel>, fallback: Seq<char>)
        -> BootstrapStageModel
        decreases events.len(),
    {
        if events.len() == 0 {
            self
        } else {
            self.after_all(events.drop_last(), fallback).after(events.last(), fallback)
        }
    }
}

/// One run of the installation.
pub struct Bootstrapper {
    fallback: String,
    stage: BootstrapStage,
}

/// What a `Bootstrapper` holds.
pub struct BootstrapperModel {
    /// The second place of the archive, as reports show it.
    pub fallback: Seq<char>,
    /// Where the run stands.
    pub stage: BootstrapStageModel,
}

impl View for Bootstrapper {
    type V = BootstrapperModel;

    closed spec fn view(&self) -> BootstrapperModel {
        BootstrapperModel { fallback: self.fallback@, stage: self.stage@ }
    }
}

impl BootstrapperModel {
    /// A run that has not begun.
    pub open spec fn initial(fallback: Seq<char>) -> BootstrapperModel {
        BootstrapperModel { fallback, stage: BootstrapStageModel::ProbingBinary }
    }

    /// The run after `event`.
    pub open spec fn after(self, event: BootstrapEventModel) -> BootstrapperModel {
        BootstrapperModel { stage: self.stage.after(event, self.fallback), ..self }
    }

    /// The run after all of `events`, in order.
    pub open spec fn after_all(self, events: Seq<BootstrapEventModel>) -> BootstrapperModel {
        BootstrapperModel { stage: self.stage.after_all(events, self.fallback), ..self }
    }
}

fn following(index: usize, total: usize) -> (stage: BootstrapStage)
    requires
        index < total,
    ensures
        stage@ == BootstrapStageModel::following(index, total),
{
    if index + 1 < total {
        BootstrapStage::ReadingEntry { index: index + 1, total }
    } else {
        BootstrapStage::Installed { extracted: Some(total) }
    }
}

fn broken(step: IoStep, target: String, reason: String) -> (stage: BootstrapStage)
    ensures
        stage@ == BootstrapStageModel::broken(step, target@, reason@),
{
    BootstrapStage::Failed { error: BootstrapError::Io { step, target, reason } }
}

impl Bootstrapper {
    #[verifier::type_invariant]
    spec fn entry_in_range(self) -> bool {
        self.stage@.well_formed()
    }

    /// A run that has not begun. `fallback` is the second place of the
    /// archive, as reports are to show it.
    pub fn new(fallback: String) -> (run: Self)
        ensures
            run@ == BootstrapperModel::initial(fallback@),
    {
        Bootstrapper { fallback, stage: BootstrapStage::ProbingBinary }
    }

    /// What the driver has to do now.
    pub fn action(&self) -> (action: BootstrapAction)
        ensures
            action == self@.stage.pending(),
    {
        match &self.stage {
            BootstrapStage::ProbingBinary => BootstrapAction::ProbeBinary,
            BootstrapStage::ProbingArchive { location } => BootstrapAction::ProbeArchive {
                location: *location,
            },
            BootstrapStage::CreatingRoot { .. } => BootstrapAction::CreateRoot,
            BootstrapStage::OpeningArchive { location } => BootstrapAction::OpenArchive {
                location: *location,
            },
            BootstrapStage::IndexingArchive => BootstrapAction::IndexArchive,
            BootstrapStage::ReadingEntry { index, .. } => BootstrapAction::ReadEntry {
                index: *index,
            },
            BootstrapStage::CreatingDirectory { index, .. } => BootstrapAction::CreateDirectory {
                index: *index,
            },
            BootstrapStage::CreatingParent { index, .. } => BootstrapAction::CreateParent {
                index: *index,
            },
            BootstrapStage::CreatingFile { index, .. } => BootstrapAction::CreateFile {
                index: *index,
            },
            BootstrapStage::CopyingEntry { index, .. } => BootstrapAction::CopyEntry {
                index: *index,
            },
            BootstrapStage::Installed { .. } => BootstrapAction::Finish,
            BootstrapStage::Failed { .. } => BootstrapAction::Abort,
        }
    }

    /// Takes in what happened and moves on.
    pub fn step(self, event: BootstrapEvent) -> (next: Self)
        ensures
            next@ == self@.after(event@),
    {
        proof {
            use_type_invariant(&self);
        }
        let Bootstrapper { fallback, stage } = self;
        let next_stage = match (stage, event) {
            (BootstrapStage::ProbingBinary, BootstrapEvent::Exists { present }) => {
                if present {
                    BootstrapStage::Installed { extracted: None }
                } else {
                    BootstrapStage::ProbingArchive { location: ArchiveLocation::Primary }
                }
            },
            (
                BootstrapStage::ProbingArchive { location },
                BootstrapEvent::Exists { present },
            ) => {
                if present {
                    BootstrapStage::CreatingRoot { location }
                } else {
                    match location {
                        ArchiveLocation::Primary => BootstrapStage::ProbingArchive {
                            location: ArchiveLocation::Fallback,
                        },
                        ArchiveLocation::Fallback => BootstrapStage::Failed {
                            error: BootstrapError::MissingArchive { searched: fallback.clone() },
                        },
                    }
                }
            },
            (BootstrapStage::CreatingRoot { location }, BootstrapEvent::Done) => {
                BootstrapStage::OpeningArchive { location }
            },
            (BootstrapStage::CreatingRoot { .. }, BootstrapEvent::Failed { reason }) => broken(
                IoStep::CreateRoot,
                String::new(),
                reason,
            ),
            (BootstrapStage::OpeningArchive { .. }, BootstrapEvent::Done) => {
                BootstrapStage::IndexingArchive
            },
            (BootstrapStage::OpeningArchive { .. }, BootstrapEvent::Failed { reason }) => broken(
                IoStep::OpenArchive,
                String::new(),
                reason,
            ),
            (BootstrapStage::IndexingArchive, BootstrapEvent::Indexed { entries }) => {
                if entries == 0 {
                    BootstrapStage::Installed { extracted: Some(0) }
                } else {
                    BootstrapStage::ReadingEntry { index: 0, total: entries }
                }
            },
            (BootstrapStage::IndexingArchive, BootstrapEvent::Failed { reason }) => broken(
                IoStep::IndexArchive,
                String::new(),
                reason,
            ),
            (
                BootstrapStage::ReadingEntry { index, total },
                BootstrapEvent::Entry { is_dir, target },
            ) => {
                if is_dir {
                    BootstrapStage::CreatingDirectory { index, total, target }
                } else {
                    BootstrapStage::CreatingParent { index, total, target }
                }
            },
            (BootstrapStage::ReadingEntry { .. }, BootstrapEvent::Failed { reason }) => broken(
                IoStep::ReadEntry,
                String::new(),
                reason,
            ),
            (BootstrapStage::CreatingDirectory { index, total, .. }, BootstrapEvent::Done) => {
                following(index, total)
            },
            (
                BootstrapStage::CreatingDirectory { target, .. },
                BootstrapEvent::Failed { reason },
            ) => broken(IoStep::CreateDirectory, target, reason),
            (BootstrapStage::CreatingParent { index, total, target }, BootstrapEvent::Done) => {
                BootstrapStage::CreatingFile { index, total, target }
            },
            (
                BootstrapStage::CreatingParent { target, .. },
                BootstrapEvent::Failed { reason },
            ) => broken(IoStep::CreateParent, target, reason),
            (BootstrapStage::CreatingFile { index, total, target }, BootstrapEvent::Done) => {
                BootstrapStage::CopyingEntry { index, total, target }
            },
            (BootstrapStage::CreatingFile { target, .. }, BootstrapEvent::Failed { reason }) => {
                broken(IoStep::CreateFile, target, reason)
            },
            (BootstrapStage::CopyingEntry { index, total, .. }, BootstrapEvent::Done) => {
                following(index, total)
            },
            (BootstrapStage::CopyingEntry { target, .. }, BootstrapEvent::Failed { reason }) => {
                broken(IoStep::CopyEntry, target, reason)
            },
            (unchanged, _) => unchanged,
        };
        Bootstrapper { fallback, stage: next_stage }
    }

    /// How the run ended: `None` while it has not, else whether the
    /// installation is there.
    pub fn into_result(self) -> (result: Option<Result<(), BootstrapError>>)
        ensures
            match result {
                None => !self@.stage.ended(),
                Some(Ok(_)) => self@.stage is Installed,
                Some(Err(error)) => self@.stage == (BootstrapStageModel::Failed { error: error@ }),
            },
    {
        match self.stage {
            BootstrapStage::Installed { .. } => Some(Ok(())),
            BootstrapStage::Failed { error } => Some(Err(error)),
            _ => None,
        }
    }
}

/// Well-formedness is kept by every event.
pub proof fn lemma_step_keeps_entry_in_range(
    stage: BootstrapStageModel,
    event: BootstrapEventModel,
    fallback: Seq<char>,
)
    requires
        stage.well_formed(),
    ensures
        stage.after(event, fallback).well_formed(),
{
}

/// A run that has ended stays as it is, whatever comes after.
pub proof fn lemma_ended_is_final(run: BootstrapperModel, events: Seq<BootstrapEventModel>)
    requires
        run.stage.ended(),
    ensures
        run.after_all(events) == run,
    decreases events.len(),
{
    if events.len() > 0 {
        lemma_ended_is_final(run, events.drop_last());
    }
}

/// Where the interpreter binary is found in place, the run ends at once
/// with the installation there, and the archive is never looked at: after
/// the first answer, and after whatever follows, the only thing asked of
/// the driver is to finish.
pub proof fn lemma_present_binary_reads_no_archive(
    fallback: Seq<char>,
    later: Seq<BootstrapEventModel>,
)
    ensures
        !BootstrapperModel::initial(fallback).stage.pending().touches_archive(),
        BootstrapperModel::initial(fallback).after(
            BootstrapEventModel::Exists { present: true },
        ).after_all(later).stage == (BootstrapStageModel::Installed { extracted: None }),
        !BootstrapperModel::initial(fallback).after(
            BootstrapEventModel::Exists { present: true },
        ).after_all(later).stage.pending().touches_archive(),
{
    lemma_ended_is_final(
        BootstrapperModel::initial(fallback).after(BootstrapEventModel::Exists { present: true }),
        later,
    );
}

/// A run reaches the installed state only in two ways: the binary was
/// found in place, or the last entry of the archive was unpacked. An
/// archive that is unpacked in part never counts as installed by the run
/// that unpacks it.
pub proof fn lemma_installed_means_complete(
    stage: BootstrapStageModel,
    event: BootstrapEventModel,
    fallback: Seq<char>,
)
    requires
        stage.well_formed(),
        !stage.ended(),
        stage.after(event, fallback) is Installed,
    ensures
        match stage.after(event, fallback) {
            BootstrapStageModel::Installed { extracted: None } => stage is ProbingBinary && event
                == (BootstrapEventModel::Exists { present: true }),
            BootstrapStageModel::Installed { extracted: Some(count) } => {
                ||| stage is IndexingArchive && count == 0
                ||| stage.entry() == Some(((count - 1) as usize, count))
            },
            _ => false,
        },
{
}

/// Every entry is unpacked once and in order: an entry that is a
/// directory takes one step on the file system, an entry that is a file
/// takes three, all for that same entry, and then the run stands at the
/// entry that follows, or at its end behind the last one.
pub proof fn lemma_entry_is_unpacked_once(
    index: usize,
    total: usize,
    target: Seq<char>,
    fallback: Seq<char>,
)
    requires
        index < total,
    ensures
        ({
            let reading = BootstrapStageModel::ReadingEntry { index, total };
            let directory = reading.after(
                BootstrapEventModel::Entry { is_dir: true, target },
                fallback,
            );
            let parent = reading.after(
                BootstrapEventModel::Entry { is_dir: false, target },
                fallback,
            );
            let file = parent.after(BootstrapEventModel::Done, fallback);
            let copy = file.after(BootstrapEventModel::Done, fallback);
            &&& directory.pending() == BootstrapAction::CreateDirectory { index }
            &&& directory.after(BootstrapEventModel::Done, fallback)
                == BootstrapStageModel::following(index, total)
            &&& parent.pending() == BootstrapAction::CreateParent { index }
            &&& file.pending() == BootstrapAction::CreateFile { index }
            &&& copy.pending() == BootstrapAction::CopyEntry { index }
            &&& copy.after(BootstrapEventModel::Done, fallback) == BootstrapStageModel::following(
                index,
                total,
            )
        }),
{
}

/// The archive is missing exactly where neither place holds it.
pub proof fn lemma_missing_archive(fallback: Seq<char>, primary: bool, nested: bool)
    ensures
        ({
            let run = BootstrapperModel::initial(fallback).after(
                BootstrapEventModel::Exists { present: false },
            ).after(BootstrapEventModel::Exists { present: primary });
            let end = if primary {
                run
            } else {
                run.after(BootstrapEventModel::Exists { present: nested })
            };
            if primary {
                end.stage == (BootstrapStageModel::CreatingRoot {
                    location: ArchiveLocation::Primary,
                })
            } else if nested {
                end.stage == (BootstrapStageModel::CreatingRoot {
                    location: ArchiveLocation::Fallback,
                })
            } else {
                end.stage == (BootstrapStageModel::Failed {
                    error: BootstrapErrorModel::MissingArchive { searched: fallback },
                })
            }
        }),
{
}

} // verus!
