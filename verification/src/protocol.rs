//! What passes between a state machine and its driver: the actions that
//! the machine asks for, the events that the driver reports back, and the
//! outcomes that come of them.

use crate::filter::{EntryMeta, FileKind};
use vstd::prelude::*;

verus! {

/// Why an entry was passed over.
#[derive(Clone, Copy, Debug, PartialEq, Eq, Structural)]
pub enum SkipReason {
    /// The filter does not select it.
    Filtered,
}

/// Why an entry could not be reproduced.
#[derive(Clone, Copy, Debug, PartialEq, Eq, Structural)]
pub enum FailReason {
    /// Its metadata could not be read.
    Unreadable,
    /// Its bytes could not be copied.
    CopyFailed,
    /// The symbolic link could not be read or recreated.
    LinkFailed,
    /// The special node could not be created.
    NodeFailed,
}

/// What became of one entry.
#[derive(Clone, Copy, Debug, PartialEq, Eq, Structural)]
pub enum EntryOutcome {
    Copied,
    SymlinkRecreated,
    SpecialNodeRecreated,
    Skipped(SkipReason),
    Failed(FailReason),
}

/// Why a run was given up.
#[derive(Clone, Copy, Debug, PartialEq, Eq, Structural)]
pub enum AbortReason {
    /// The source is missing or is not a directory.
    SourceInvalid,
    /// The destination is not a directory and cannot be made one.
    DestinationInvalid,
    /// A directory of the source could not be listed.
    ListingFailed,
    /// A directory of the destination could not be created or pruned.
    DirectoryFailed,
    /// The archive could not be written.
    ArchiveFailed,
    /// The driver reported an event that answers no pending action.
    OutOfTurn,
}

/// How a run ended.
#[derive(Clone, Copy, Debug, PartialEq, Eq, Structural)]
pub enum RunOutcome {
    /// Every entry was reproduced or skipped.
    Completed,
    /// The walk finished, and this many entries failed (the count stops at
    /// the largest number it can hold).
    CompletedWithFailures(u64),
    /// The run stopped early.
    Aborted(AbortReason),
}

/// The kinds of device node.
#[derive(Clone, Copy, Debug, PartialEq, Eq, Structural)]
pub enum DeviceKind {
    Char,
    Block,
}

/// Something noteworthy that does not stop a run.
#[derive(Clone, Copy, Debug, PartialEq, Eq, Structural)]
pub enum Warning {
    /// The destination directory already holds entries.
    DestinationNotEmpty,
}

/// Permission bits given to a recreated named pipe: read, write and
/// execute for the owner, nothing for anyone else.
pub const FIFO_MODE: u32 = 0o700u32;

/// The bits of a mode that are permissions, as opposed to the file type.
pub const PERMISSION_BITS: u32 = 0o7777u32;

/// What the driver is asked to do next.
#[derive(Clone, Debug, PartialEq, Eq)]
pub enum Action {
    /// Check that `path` exists and is a directory.
    CheckSource { path: String },
    /// Make sure that `path` is a directory, creating it and its parents
    /// where missing, and say whether it holds anything.
    PrepareDestination { path: String },
    /// Pack the whole tree under `source` into a new tar archive at
    /// `archive`, through a gzip compressor if `compress` is set.
    WriteArchive { source: String, archive: String, compress: bool },
    /// List the names of the children of the directory `source`.
    List { source: String },
    /// Read the metadata of `source` without following a symbolic link.
    Inspect { source: String },
    /// Create the directory `dest`; fine if it exists already.
    MakeDir { dest: String },
    /// Copy the bytes of `source` to `dest`, replacing what is there.
    CopyFile { source: String, dest: String },
    /// Read where the link `source` points, remove what is at `dest`, and
    /// create a link there that points to the same place.
    Relink { source: String, dest: String },
    /// Remove what is at `dest` and create a named pipe with these
    /// permission bits.
    MakeFifo { dest: String, mode: u32 },
    /// Remove what is at `dest` and create a device node of this kind, with
    /// these permission bits and this device number.
    MakeDevice { dest: String, kind: DeviceKind, mode: u32, rdev: u64 },
    /// Remove the directory `dest` if it holds nothing.
    Prune { dest: String },
    /// Nothing more: the run has ended.
    Finish(RunOutcome),
}

/// `Action`, with each path as its text.
pub enum ActionView {
    CheckSource { path: Seq<char> },
    PrepareDestination { path: Seq<char> },
    WriteArchive { source: Seq<char>, archive: Seq<char>, compress: bool },
    List { source: Seq<char> },
    Inspect { source: Seq<char> },
    MakeDir { dest: Seq<char> },
    CopyFile { source: Seq<char>, dest: Seq<char> },
    Relink { source: Seq<char>, dest: Seq<char> },
    MakeFifo { dest: Seq<char>, mode: u32 },
    MakeDevice { dest: Seq<char>, kind: DeviceKind, mode: u32, rdev: u64 },
    Prune { dest: Seq<char> },
    Finish(RunOutcome),
}

impl View for Action {
    type V = ActionView;

    open spec fn view(&self) -> ActionView {
        match *self {
            Action::CheckSource { path } => ActionView::CheckSource { path: path@ },
            Action::PrepareDestination { path } => ActionView::PrepareDestination { path: path@ },
            Action::WriteArchive { source, archive, compress } => ActionView::WriteArchive {
                source: source@,
                archive: archive@,
                compress,
            },
            Action::List { source } => ActionView::List { source: source@ },
            Action::Inspect { source } => ActionView::Inspect { source: source@ },
            Action::MakeDir { dest } => ActionView::MakeDir { dest: dest@ },
            Action::CopyFile { source, dest } => ActionView::CopyFile {
                source: source@,
                dest: dest@,
            },
            Action::Relink { source, dest } => ActionView::Relink { source: source@, dest: dest@ },
            Action::MakeFifo { dest, mode } => ActionView::MakeFifo { dest: dest@, mode },
            Action::MakeDevice { dest, kind, mode, rdev } => ActionView::MakeDevice {
                dest: dest@,
                kind,
                mode,
                rdev,
            },
            Action::Prune { dest } => ActionView::Prune { dest: dest@ },
            Action::Finish(outcome) => ActionView::Finish(outcome),
        }
    }
}

/// What the driver reports back.
#[derive(Clone, Debug, PartialEq, Eq)]
pub enum Event {
    /// Nothing has happened yet: asks for the first action.
    Begin,
    /// The directory was listed; these are its children's names.
    Listed(Vec<String>),
    /// The directory could not be listed.
    ListFailed,
    /// The entry's metadata.
    Inspected(EntryMeta),
    /// The entry's metadata could not be read.
    InspectFailed,
    /// The action was carried out.
    Succeeded,
    /// The action was carried out, and the destination directory was found
    /// to hold entries already.
    FoundNotEmpty,
    /// The action could not be carried out.
    Failed,
}

/// `Event`, with each name as its text.
pub enum EventView {
    Begin,
    Listed(Seq<Seq<char>>),
    ListFailed,
    Inspected(EntryMeta),
    InspectFailed,
    Succeeded,
    FoundNotEmpty,
    Failed,
}

/// The texts of a sequence of strings.
pub open spec fn texts(names: Seq<String>) -> Seq<Seq<char>> {
    names.map_values(|s: String| s@)
}

impl View for Event {
    type V = EventView;

    open spec fn view(&self) -> EventView {
        match *self {
            Event::Begin => EventView::Begin,
            Event::Listed(names) => EventView::Listed(texts(names@)),
            Event::ListFailed => EventView::ListFailed,
            Event::Inspected(meta) => EventView::Inspected(meta),
            Event::InspectFailed => EventView::InspectFailed,
            Event::Succeeded => EventView::Succeeded,
            Event::FoundNotEmpty => EventView::FoundNotEmpty,
            Event::Failed => EventView::Failed,
        }
    }
}

/// One entry's outcome, for the log.
#[derive(Clone, Debug, PartialEq, Eq)]
pub struct Record {
    pub path: String,
    pub outcome: EntryOutcome,
}

/// `Record`, with the path as its text.
pub struct RecordView {
    pub path: Seq<char>,
    pub outcome: EntryOutcome,
}

impl View for Record {
    type V = RecordView;

    open spec fn view(&self) -> RecordView {
        RecordView { path: self.path@, outcome: self.outcome }
    }
}

/// A machine's answer to an event: the next action, the outcome of the
/// entry that the event settled (if it settled one), and a warning (if
/// there is one to give).
#[derive(Clone, Debug, PartialEq, Eq)]
pub struct Step {
    pub action: Action,
    pub record: Option<Record>,
    pub warning: Option<Warning>,
}

/// `Step`, with each path as its text.
pub struct StepView {
    pub action: ActionView,
    pub record: Option<RecordView>,
    pub warning: Option<Warning>,
}

impl View for Step {
    type V = StepView;

    open spec fn view(&self) -> StepView {
        StepView {
            action: self.action@,
            record: match self.record {
                Some(r) => Some(r@),
                None => None,
            },
            warning: self.warning,
        }
    }
}

/// A step that settles no entry and warns of nothing.
pub open spec fn quiet(action: ActionView) -> StepView {
    StepView { action, record: None, warning: None }
}

/// A step that settles the entry at `path` with `outcome`.
pub open spec fn settling(action: ActionView, path: Seq<char>, outcome: EntryOutcome) -> StepView {
    StepView { action, record: Some(RecordView { path, outcome }), warning: None }
}

/// What is done to reproduce a selected entry that is not a directory.
#[derive(Clone, Copy, Debug, PartialEq, Eq, Structural)]
pub enum Operation {
    Copy,
    Relink,
    MakeFifo,
    MakeDevice,
}

/// The operation that reproduces an entry of this kind: links, pipes and
/// device nodes are recreated as what they are, everything else is copied.
pub open spec fn operation_for(kind: FileKind) -> Operation {
    match kind {
        FileKind::Symlink => Operation::Relink,
        FileKind::Fifo => Operation::MakeFifo,
        FileKind::CharDevice => Operation::MakeDevice,
        FileKind::BlockDevice => Operation::MakeDevice,
        _ => Operation::Copy,
    }
}

/// The action that reproduces the entry at `source` as `dest`.
pub open spec fn action_for(meta: EntryMeta, source: Seq<char>, dest: Seq<char>) -> ActionView {
    match meta.kind {
        FileKind::Symlink => ActionView::Relink { source, dest },
        FileKind::Fifo => ActionView::MakeFifo { dest, mode: FIFO_MODE },
        FileKind::CharDevice => ActionView::MakeDevice {
            dest,
            kind: DeviceKind::Char,
            mode: meta.mode & PERMISSION_BITS,
            rdev: meta.rdev,
        },
        FileKind::BlockDevice => ActionView::MakeDevice {
            dest,
            kind: DeviceKind::Block,
            mode: meta.mode & PERMISSION_BITS,
            rdev: meta.rdev,
        },
        _ => ActionView::CopyFile { source, dest },
    }
}

/// The outcome of an entry whose operation was carried out.
pub open spec fn success_of(op: Operation) -> EntryOutcome {
    match op {
        Operation::Copy => EntryOutcome::Copied,
        Operation::Relink => EntryOutcome::SymlinkRecreated,
        Operation::MakeFifo => EntryOutcome::SpecialNodeRecreated,
        Operation::MakeDevice => EntryOutcome::SpecialNodeRecreated,
    }
}

/// The outcome of an entry whose operation could not be carried out.
pub open spec fn failure_of(op: Operation) -> EntryOutcome {
    EntryOutcome::Failed(
        match op {
            Operation::Copy => FailReason::CopyFailed,
            Operation::Relink => FailReason::LinkFailed,
            Operation::MakeFifo => FailReason::NodeFailed,
            Operation::MakeDevice => FailReason::NodeFailed,
        },
    )
}

/// Chooses the operation and the action that reproduce a selected entry
/// which is not a directory.
pub fn plan_entry(meta: &EntryMeta, source: String, dest: String) -> (r: (Operation, Action))
    ensures
        r.0 == operation_for(meta.kind),
        r.1@ == action_for(*meta, source@, dest@),
{
    match meta.kind {
        FileKind::Symlink => (Operation::Relink, Action::Relink { source, dest }),
        FileKind::Fifo => (Operation::MakeFifo, Action::MakeFifo { dest, mode: FIFO_MODE }),
        FileKind::CharDevice => (
            Operation::MakeDevice,
            Action::MakeDevice {
                dest,
                kind: DeviceKind::Char,
                mode: meta.mode & PERMISSION_BITS,
                rdev: meta.rdev,
            },
        ),
        FileKind::BlockDevice => (
            Operation::MakeDevice,
            Action::MakeDevice {
                dest,
                kind: DeviceKind::Block,
                mode: meta.mode & PERMISSION_BITS,
                rdev: meta.rdev,
            },
        ),
        _ => (Operation::Copy, Action::CopyFile { source, dest }),
    }
}

/// The outcome of an entry once its operation has been tried.
pub fn settle(op: Operation, succeeded: bool) -> (r: EntryOutcome)
    ensures
        r == if succeeded {
            success_of(op)
        } else {
            failure_of(op)
        },
{
    if succeeded {
        match op {
            Operation::Copy => EntryOutcome::Copied,
            Operation::Relink => EntryOutcome::SymlinkRecreated,
            Operation::MakeFifo => EntryOutcome::SpecialNodeRecreated,
            Operation::MakeDevice => EntryOutcome::SpecialNodeRecreated,
        }
    } else {
        match op {
            Operation::Copy => EntryOutcome::Failed(FailReason::CopyFailed),
            Operation::Relink => EntryOutcome::Failed(FailReason::LinkFailed),
            Operation::MakeFifo => EntryOutcome::Failed(FailReason::NodeFailed),
            Operation::MakeDevice => EntryOutcome::Failed(FailReason::NodeFailed),
        }
    }
}

/// A symbolic link is never reproduced by copying bytes, and nothing but a
/// symbolic link is reproduced as one: the link action carries the link's
/// own path, from which the driver reads the target.
pub proof fn lemma_links_stay_links(meta: EntryMeta, source: Seq<char>, dest: Seq<char>)
    ensures
        meta.kind == FileKind::Symlink <==> action_for(meta, source, dest) == (ActionView::Relink {
            source,
            dest,
        }),
        meta.kind == FileKind::Symlink ==> operation_for(meta.kind) == Operation::Relink
            && success_of(operation_for(meta.kind)) == EntryOutcome::SymlinkRecreated,
        action_for(meta, source, dest) is CopyFile ==> meta.kind != FileKind::Symlink,
{
}

} // verus!
