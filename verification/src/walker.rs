//! The tree walk: a depth-first mirror of a source directory, as a state
//! machine. The machine asks for one action at a time and is told what came
//! of it; it never touches the file system itself.
//!
//! Per directory: list the children; for each child read its metadata; a
//! directory is created in the destination, walked, and then pruned; any
//! other entry is put to the filter and, if selected, reproduced according
//! to its kind. A failure on one entry is recorded and the walk goes on; a
//! directory that cannot be listed, created or pruned ends the run.

use crate::calendar::in_calendar;
use crate::filter::{check_file_properties, Constraints, FileKind, Filter};
use crate::paths::{join_path, joined_path};
use crate::protocol::{
    action_for, failure_of, operation_for, plan_entry, quiet, settle, settling, success_of,
    texts, AbortReason, Action, ActionView, EntryOutcome, Event, EventView, FailReason,
    Operation, Record, RecordView, RunOutcome, SkipReason, Step, StepView,
};
use vstd::prelude::*;

verus! {

/// What the machine is waiting for.
#[derive(Clone, Copy, Debug, PartialEq, Eq, Structural)]
pub enum Phase {
    /// Not started.
    Idle,
    /// The listing of the innermost directory.
    Listing,
    /// The metadata of the current child.
    Inspecting,
    /// The creation of the destination directory for the current child.
    MakingDir,
    /// The result of reproducing the current child.
    Acting(Operation),
    /// The pruning of the destination directory of the current child.
    Pruning,
    /// Nothing: the walk has ended.
    Done,
}

/// One directory being walked.
struct Frame {
    source: String,
    dest: String,
    names: Vec<String>,
    next: usize,
}

/// A directory being walked: where it is, where it is mirrored, the names
/// of its children, and how many of them have been dealt with.
#[verifier::ext_equal]
pub struct FrameView {
    pub source: Seq<char>,
    pub dest: Seq<char>,
    pub names: Seq<Seq<char>>,
    pub next: int,
}

impl FrameView {
    /// The frame of a directory that has not been listed yet.
    pub open spec fn unlisted(source: Seq<char>, dest: Seq<char>) -> FrameView {
        FrameView { source, dest, names: Seq::empty(), next: 0 }
    }

    /// Whether a child is left to deal with.
    pub open spec fn has_child(self) -> bool {
        0 <= self.next < self.names.len()
    }

    /// The source path of the current child.
    pub open spec fn child_source(self) -> Seq<char> {
        joined_path(self.source, self.names[self.next])
    }

    /// The destination path of the current child.
    pub open spec fn child_dest(self) -> Seq<char> {
        joined_path(self.dest, self.names[self.next])
    }
}

impl View for Frame {
    type V = FrameView;

    closed spec fn view(&self) -> FrameView {
        FrameView {
            source: self.source@,
            dest: self.dest@,
            names: texts(self.names@),
            next: self.next as int,
        }
    }
}

/// The views of a stack of frames, outermost first.
spec fn frames(stack: Seq<Frame>) -> Seq<FrameView> {
    stack.map_values(|f: Frame| f@)
}

/// The state of a walk.
#[verifier::ext_equal]
pub struct WalkerView {
    /// The source directory of the run; the filter's sub-path is taken
    /// relative to it.
    pub root: Seq<char>,
    /// The destination directory of the run.
    pub dest_root: Seq<char>,
    pub constraints: Constraints,
    /// The directories being walked, outermost first.
    pub stack: Seq<FrameView>,
    pub phase: Phase,
    /// How many entries have failed so far, up to the largest count.
    pub failures: u64,
    /// How the walk ended; meaningful in phase `Done`.
    pub outcome: RunOutcome,
    /// Every action asked for so far, oldest first.
    pub history: Seq<ActionView>,
    /// Every entry settled so far, oldest first.
    pub records: Seq<RecordView>,
}

/// One more failure, stopping at the largest count.
pub open spec fn one_more(failures: u64) -> u64 {
    if failures < u64::MAX {
        (failures + 1) as u64
    } else {
        failures
    }
}

/// A count of failures as the walk keeps it: exact up to the largest
/// number it can hold, and that number from there on.
pub open spec fn capped(count: nat) -> u64 {
    if count < u64::MAX {
        count as u64
    } else {
        u64::MAX
    }
}

/// How many of the settled entries failed.
pub open spec fn failed_count(records: Seq<RecordView>) -> nat
    decreases records.len(),
{
    if records.len() == 0 {
        0
    } else if records.last().outcome is Failed {
        failed_count(records.drop_last()) + 1
    } else {
        failed_count(records.drop_last())
    }
}

/// The outcome of a walk that ran to its end with this many failures.
pub open spec fn verdict(failures: u64) -> RunOutcome {
    if failures == 0 {
        RunOutcome::Completed
    } else {
        RunOutcome::CompletedWithFailures(failures)
    }
}

impl WalkerView {
    /// A walk that has not started.
    pub open spec fn initial(root: Seq<char>, dest_root: Seq<char>, constraints: Constraints)
        -> WalkerView {
        WalkerView {
            root,
            dest_root,
            constraints,
            stack: Seq::empty(),
            phase: Phase::Idle,
            failures: 0,
            outcome: RunOutcome::Completed,
            history: Seq::empty(),
            records: Seq::empty(),
        }
    }

    /// The innermost directory being walked.
    pub open spec fn top(self) -> FrameView {
        self.stack.last()
    }

    /// The current child counts as dealt with.
    pub open spec fn step_over(self) -> WalkerView {
        WalkerView {
            stack: self.stack.update(
                self.stack.len() - 1,
                FrameView { next: self.top().next + 1, ..self.top() },
            ),
            ..self
        }
    }

    /// One more entry has failed.
    pub open spec fn fail_one(self) -> WalkerView {
        WalkerView { failures: one_more(self.failures), ..self }
    }

    /// The run is given up.
    pub open spec fn abort(self, reason: AbortReason) -> (WalkerView, StepView) {
        (
            WalkerView { phase: Phase::Done, outcome: RunOutcome::Aborted(reason), ..self },
            quiet(ActionView::Finish(RunOutcome::Aborted(reason))),
        )
    }

    /// What comes after an entry has been dealt with: the next child of the
    /// innermost directory; or, when none is left, the pruning of that
    /// directory's mirror, which takes the walk back to its parent; or, when
    /// the directory is the root, the end of the walk.
    pub open spec fn resume(self) -> (WalkerView, ActionView) {
        if self.top().has_child() {
            (
                WalkerView { phase: Phase::Inspecting, ..self },
                ActionView::Inspect { source: self.top().child_source() },
            )
        } else if self.stack.len() == 1 {
            (
                WalkerView { phase: Phase::Done, outcome: verdict(self.failures), ..self },
                ActionView::Finish(verdict(self.failures)),
            )
        } else {
            (
                WalkerView { phase: Phase::Pruning, stack: self.stack.drop_last(), ..self },
                ActionView::Prune { dest: self.top().dest },
            )
        }
    }

    /// `resume`, as a step that settles no entry.
    pub open spec fn resume_quietly(self) -> (WalkerView, StepView) {
        (self.resume().0, quiet(self.resume().1))
    }

    /// `resume`, as a step that settles the entry at `path`.
    pub open spec fn resume_settling(self, path: Seq<char>, outcome: EntryOutcome) -> (
        WalkerView,
        StepView,
    ) {
        (self.resume().0, settling(self.resume().1, path, outcome))
    }

    /// The transition, before the action is entered in the history.
    /// `selected` says whether the filter selects the inspected entry; it
    /// matters only when metadata of something other than a directory
    /// arrives.
    pub open spec fn respond(self, event: EventView, selected: bool) -> (WalkerView, StepView) {
        match (self.phase, event) {
            (Phase::Idle, EventView::Begin) => (
                WalkerView {
                    phase: Phase::Listing,
                    stack: seq![FrameView::unlisted(self.root, self.dest_root)],
                    ..self
                },
                quiet(ActionView::List { source: self.root }),
            ),
            (Phase::Listing, EventView::Listed(names)) => WalkerView {
                stack: self.stack.update(
                    self.stack.len() - 1,
                    FrameView { names, next: 0, ..self.top() },
                ),
                ..self
            }.resume_quietly(),
            (Phase::Listing, EventView::ListFailed) => self.abort(AbortReason::ListingFailed),
            (Phase::Inspecting, EventView::Inspected(meta)) => {
                if meta.kind == FileKind::Directory {
                    (
                        WalkerView { phase: Phase::MakingDir, ..self },
                        quiet(ActionView::MakeDir { dest: self.top().child_dest() }),
                    )
                } else if selected {
                    (
                        WalkerView { phase: Phase::Acting(operation_for(meta.kind)), ..self },
                        quiet(
                            action_for(meta, self.top().child_source(), self.top().child_dest()),
                        ),
                    )
                } else {
                    self.step_over().resume_settling(
                        self.top().child_source(),
                        EntryOutcome::Skipped(SkipReason::Filtered),
                    )
                }
            },
            (Phase::Inspecting, EventView::InspectFailed) => self.fail_one().step_over()
                .resume_settling(
                self.top().child_source(),
                EntryOutcome::Failed(FailReason::Unreadable),
            ),
            (Phase::MakingDir, EventView::Succeeded) => (
                WalkerView {
                    phase: Phase::Listing,
                    stack: self.stack.push(
                        FrameView::unlisted(self.top().child_source(), self.top().child_dest()),
                    ),
                    ..self
                },
                quiet(ActionView::List { source: self.top().child_source() }),
            ),
            (Phase::MakingDir, EventView::Failed) => self.abort(AbortReason::DirectoryFailed),
            (Phase::Acting(op), EventView::Succeeded) => self.step_over().resume_settling(
                self.top().child_source(),
                success_of(op),
            ),
            (Phase::Acting(op), EventView::Failed) => self.fail_one().step_over().resume_settling(
                self.top().child_source(),
                failure_of(op),
            ),
            (Phase::Pruning, EventView::Succeeded) => self.step_over().resume_quietly(),
            (Phase::Pruning, EventView::Failed) => self.abort(AbortReason::DirectoryFailed),
            (Phase::Done, _) => (self, quiet(ActionView::Finish(self.outcome))),
            _ => self.abort(AbortReason::OutOfTurn),
        }
    }

    /// The transition: the state after `event`, and the step handed out.
    pub open spec fn react(self, event: EventView, selected: bool) -> (WalkerView, StepView) {
        let (next, step) = self.respond(event, selected);
        (
            WalkerView {
                history: self.history.push(step.action),
                records: match step.record {
                    Some(r) => self.records.push(r),
                    None => self.records,
                },
                ..next
            },
            step,
        )
    }

    /// Whether `selected` is a verdict that the filter may give on the
    /// entry that `event` describes. The constraints on path, name and
    /// length are necessary for selection, and sufficient where the filter
    /// asks for neither a day nor an owner; an entry modified at an instant
    /// beyond the calendar fails a date constraint.
    pub open spec fn admits(self, event: EventView, selected: bool) -> bool {
        match (self.phase, event) {
            (Phase::Inspecting, EventView::Inspected(meta)) => {
                let fixed = self.constraints.fixed_ok(
                    self.root,
                    self.top().child_source(),
                    meta.size,
                );
                meta.kind != FileKind::Directory ==> (selected ==> fixed) && (
                !self.constraints.asks_environment() ==> selected == fixed) && (
                self.constraints.day is Some && !in_calendar(meta.modified_secs) ==> !selected)
            },
            _ => true,
        }
    }

    /// The directories that are waiting for a child: all but the innermost.
    /// Each is at a child, and the next frame walks that child.
    pub open spec fn chained(self) -> bool {
        forall|i: int|
            0 <= i < self.stack.len() - 1 ==> {
                &&& (#[trigger] self.stack[i]).has_child()
                &&& self.stack[i + 1].source == self.stack[i].child_source()
                &&& self.stack[i + 1].dest == self.stack[i].child_dest()
            }
    }

    /// The invariant of a walk.
    pub open spec fn wf(self) -> bool {
        &&& self.failures == capped(failed_count(self.records))
        &&& self.shaped()
    }

    /// The part of the invariant that is about the directories.
    pub open spec fn shaped(self) -> bool {
        match self.phase {
            Phase::Idle => self.stack.len() == 0 && self.history.len() == 0,
            Phase::Done => !(self.outcome is Aborted) ==> open_dirs(self.history).len() == 0
                && self.outcome == verdict(self.failures),
            _ => {
                &&& self.stack.len() >= 1
                &&& self.stack[0].source == self.root
                &&& self.stack[0].dest == self.dest_root
                &&& self.chained()
                &&& 0 <= self.top().next <= self.top().names.len()
                &&& self.phase != Phase::Listing ==> self.top().has_child()
                &&& self.phase == Phase::Listing ==> self.top() == FrameView::unlisted(
                    self.top().source,
                    self.top().dest,
                )
                &&& open_dirs(self.history) == if self.phase == Phase::MakingDir {
                    mirrors(self.stack).push(self.top().child_dest())
                } else {
                    mirrors(self.stack)
                }
            },
        }
    }
}

/// The destination directories of the frames below the root, outermost
/// first.
pub open spec fn mirrors(stack: Seq<FrameView>) -> Seq<Seq<char>> {
    Seq::new((stack.len() - 1) as nat, |i: int| stack[i + 1].dest)
}

/// The destination directories that a history of actions has asked to
/// create and not yet asked to prune, oldest first.
pub open spec fn open_dirs(history: Seq<ActionView>) -> Seq<Seq<char>>
    decreases history.len(),
{
    if history.len() == 0 {
        Seq::empty()
    } else {
        let before = open_dirs(history.drop_last());
        match history.last() {
            ActionView::MakeDir { dest } => before.push(dest),
            ActionView::Prune { dest } => if before.len() > 0 && before.last() == dest {
                before.drop_last()
            } else {
                before
            },
            _ => before,
        }
    }
}

/// A walk of one source tree into one destination.
pub struct Walker {
    root: String,
    dest_root: String,
    filter: Filter,
    stack: Vec<Frame>,
    phase: Phase,
    failures: u64,
    outcome: RunOutcome,
    history: Ghost<Seq<ActionView>>,
    records: Ghost<Seq<RecordView>>,
}

impl View for Walker {
    type V = WalkerView;

    closed spec fn view(&self) -> WalkerView {
        WalkerView {
            root: self.root@,
            dest_root: self.dest_root@,
            constraints: self.filter@,
            stack: frames(self.stack@),
            phase: self.phase,
            failures: self.failures,
            outcome: self.outcome,
            history: self.history@,
            records: self.records@,
        }
    }
}

impl Walker {
    /// A walk of `root` into `dest_root` under `filter`, not yet started.
    pub fn new(root: String, dest_root: String, filter: Filter) -> (w: Walker)
        ensures
            w@ == WalkerView::initial(root@, dest_root@, filter@),
            w@.wf(),
    {
        let w = Walker {
            root,
            dest_root,
            filter,
            stack: Vec::new(),
            phase: Phase::Idle,
            failures: 0,
            outcome: RunOutcome::Completed,
            history: Ghost(Seq::empty()),
            records: Ghost(Seq::empty()),
        };
        assert(frames(w.stack@) =~= Seq::empty());
        w
    }

    /// What the walk is waiting for.
    pub fn phase(&self) -> (p: Phase)
        ensures
            p == self@.phase,
    {
        self.phase
    }

    /// How many entries have failed so far.
    pub fn failures(&self) -> (n: u64)
        ensures
            n == self@.failures,
    {
        self.failures
    }

    /// How deep the walk is: the number of directories being walked.
    pub fn depth(&self) -> (n: usize)
        ensures
            n == self@.stack.len(),
    {
        self.stack.len()
    }

    /// The source and destination paths of the current child.
    fn child_paths(&self) -> (r: (String, String))
        requires
            self@.stack.len() >= 1,
            self@.top().has_child(),
        ensures
            r.0@ == self@.top().child_source(),
            r.1@ == self@.top().child_dest(),
    {
        let top = &self.stack[self.stack.len() - 1];
        let name = &top.names[top.next];
        (join_path(top.source.as_str(), name.as_str()), join_path(top.dest.as_str(), name.as_str()))
    }

    fn step_over(&mut self)
        requires
            old(self)@.stack.len() >= 1,
            old(self)@.top().has_child(),
        ensures
            final(self)@ == old(self)@.step_over(),
    {
        let mut frame = self.stack.pop().unwrap();
        assert(frame@ == old(self)@.top());
        let count = frame.names.len();
        assert(frame.next < count);
        frame.next = frame.next + 1;
        self.stack.push(frame);
        assert(frames(self.stack@) =~= old(self)@.step_over().stack);
    }

    fn fail_one(&mut self)
        ensures
            final(self)@ == old(self)@.fail_one(),
    {
        if self.failures < u64::MAX {
            self.failures = self.failures + 1;
        }
    }

    fn abort(&mut self, reason: AbortReason) -> (step: Step)
        ensures
            (final(self)@, step@) == old(self)@.abort(reason),
    {
        self.phase = Phase::Done;
        self.outcome = RunOutcome::Aborted(reason);
        Step { action: Action::Finish(RunOutcome::Aborted(reason)), record: None, warning: None }
    }

    fn resume(&mut self) -> (action: Action)
        requires
            old(self)@.stack.len() >= 1,
            0 <= old(self)@.top().next <= old(self)@.top().names.len(),
        ensures
            (final(self)@, action@) == old(self)@.resume(),
    {
        let depth = self.stack.len();
        let top = &self.stack[depth - 1];
        if top.next < top.names.len() {
            let source = join_path(top.source.as_str(), top.names[top.next].as_str());
            self.phase = Phase::Inspecting;
            Action::Inspect { source }
        } else if depth == 1 {
            let outcome = if self.failures == 0 {
                RunOutcome::Completed
            } else {
                RunOutcome::CompletedWithFailures(self.failures)
            };
            self.phase = Phase::Done;
            self.outcome = outcome;
            Action::Finish(outcome)
        } else {
            let frame = self.stack.pop().unwrap();
            self.phase = Phase::Pruning;
            assert(frames(self.stack@) =~= old(self)@.stack.drop_last());
            Action::Prune { dest: frame.dest }
        }
    }

    fn on_idle(&mut self, event: Event) -> (r: (Step, Ghost<bool>))
        requires
            old(self)@.wf(),
            old(self)@.phase == Phase::Idle,
        ensures
            old(self)@.admits(event@, r.1@),
            (final(self)@, r.0@) == old(self)@.respond(event@, r.1@),
    {
        match event {
            Event::Begin => {
                let frame = Frame {
                    source: self.root.clone(),
                    dest: self.dest_root.clone(),
                    names: Vec::new(),
                    next: 0,
                };
                assert(texts(frame.names@) =~= Seq::empty());
                self.stack.push(frame);
                self.phase = Phase::Listing;
                assert(frames(self.stack@) =~= seq![
                    FrameView::unlisted(old(self)@.root, old(self)@.dest_root),
                ]);
                let action = Action::List { source: self.root.clone() };
                (Step { action, record: None, warning: None }, Ghost(false))
            },
            _ => (self.abort(AbortReason::OutOfTurn), Ghost(false)),
        }
    }

    fn on_listing(&mut self, event: Event) -> (r: (Step, Ghost<bool>))
        requires
            old(self)@.wf(),
            old(self)@.phase == Phase::Listing,
        ensures
            old(self)@.admits(event@, r.1@),
            (final(self)@, r.0@) == old(self)@.respond(event@, r.1@),
    {
        match event {
            Event::Listed(names) => {
                let mut frame = self.stack.pop().unwrap();
                assert(frame@ == old(self)@.top());
                frame.names = names;
                frame.next = 0;
                self.stack.push(frame);
                assert(frames(self.stack@) =~= old(self)@.stack.update(
                    old(self)@.stack.len() - 1,
                    FrameView { names: texts(names@), next: 0, ..old(self)@.top() },
                ));
                let action = self.resume();
                (Step { action, record: None, warning: None }, Ghost(false))
            },
            Event::ListFailed => (self.abort(AbortReason::ListingFailed), Ghost(false)),
            _ => (self.abort(AbortReason::OutOfTurn), Ghost(false)),
        }
    }

    fn on_inspecting(&mut self, event: Event) -> (r: (Step, Ghost<bool>))
        requires
            old(self)@.wf(),
            old(self)@.phase == Phase::Inspecting,
        ensures
            old(self)@.admits(event@, r.1@),
            (final(self)@, r.0@) == old(self)@.respond(event@, r.1@),
    {
        match event {
            Event::Inspected(meta) => {
                let (source, dest) = self.child_paths();
                if meta.kind == FileKind::Directory {
                    self.phase = Phase::MakingDir;
                    (
                        Step { action: Action::MakeDir { dest }, record: None, warning: None },
                        Ghost(false),
                    )
                } else if check_file_properties(
                    self.root.as_str(),
                    source.as_str(),
                    &meta,
                    &self.filter,
                ) {
                    let (op, action) = plan_entry(&meta, source, dest);
                    self.phase = Phase::Acting(op);
                    (Step { action, record: None, warning: None }, Ghost(true))
                } else {
                    self.step_over();
                    let action = self.resume();
                    let record = Record {
                        path: source,
                        outcome: EntryOutcome::Skipped(SkipReason::Filtered),
                    };
                    (Step { action, record: Some(record), warning: None }, Ghost(false))
                }
            },
            Event::InspectFailed => {
                let (source, _) = self.child_paths();
                self.fail_one();
                self.step_over();
                let action = self.resume();
                let record = Record {
                    path: source,
                    outcome: EntryOutcome::Failed(FailReason::Unreadable),
                };
                (Step { action, record: Some(record), warning: None }, Ghost(false))
            },
            _ => (self.abort(AbortReason::OutOfTurn), Ghost(false)),
        }
    }

    fn on_making_dir(&mut self, event: Event) -> (r: (Step, Ghost<bool>))
        requires
            old(self)@.wf(),
            old(self)@.phase == Phase::MakingDir,
        ensures
            old(self)@.admits(event@, r.1@),
            (final(self)@, r.0@) == old(self)@.respond(event@, r.1@),
    {
        match event {
            Event::Succeeded => {
                let (source, dest) = self.child_paths();
                let action = Action::List { source: source.clone() };
                let frame = Frame { source, dest, names: Vec::new(), next: 0 };
                assert(texts(frame.names@) =~= Seq::empty());
                self.stack.push(frame);
                self.phase = Phase::Listing;
                assert(frames(self.stack@) =~= old(self)@.stack.push(
                    FrameView::unlisted(
                        old(self)@.top().child_source(),
                        old(self)@.top().child_dest(),
                    ),
                ));
                (Step { action, record: None, warning: None }, Ghost(false))
            },
            Event::Failed => (self.abort(AbortReason::DirectoryFailed), Ghost(false)),
            _ => (self.abort(AbortReason::OutOfTurn), Ghost(false)),
        }
    }

    fn on_acting(&mut self, op: Operation, event: Event) -> (r: (Step, Ghost<bool>))
        requires
            old(self)@.wf(),
            old(self)@.phase == Phase::Acting(op),
        ensures
            old(self)@.admits(event@, r.1@),
            (final(self)@, r.0@) == old(self)@.respond(event@, r.1@),
    {
        let succeeded = match event {
            Event::Succeeded => true,
            Event::Failed => false,
            _ => {
                return (self.abort(AbortReason::OutOfTurn), Ghost(false));
            },
        };
        let (source, _) = self.child_paths();
        if !succeeded {
            self.fail_one();
        }
        self.step_over();
        let action = self.resume();
        let record = Record { path: source, outcome: settle(op, succeeded) };
        (Step { action, record: Some(record), warning: None }, Ghost(false))
    }

    fn on_pruning(&mut self, event: Event) -> (r: (Step, Ghost<bool>))
        requires
            old(self)@.wf(),
            old(self)@.phase == Phase::Pruning,
        ensures
            old(self)@.admits(event@, r.1@),
            (final(self)@, r.0@) == old(self)@.respond(event@, r.1@),
    {
        match event {
            Event::Succeeded => {
                self.step_over();
                let action = self.resume();
                (Step { action, record: None, warning: None }, Ghost(false))
            },
            Event::Failed => (self.abort(AbortReason::DirectoryFailed), Ghost(false)),
            _ => (self.abort(AbortReason::OutOfTurn), Ghost(false)),
        }
    }

    /// Takes in what came of the last action and hands out the next one,
    /// with the outcome of the entry that the event settled, if any.
    ///
    /// The step is the one that the transition function gives for the
    /// state, the event and the filter's verdict on the inspected entry;
    /// the invariant of the walk is kept.
    pub fn advance(&mut self, event: Event) -> (step: Step)
        requires
            old(self)@.wf(),
        ensures
            final(self)@.wf(),
            follows(old(self)@, event@, final(self)@, step@),
    {
        let ghost before = self@;
        let ghost seen = event@;
        let (step, selected) = match self.phase {
            Phase::Idle => self.on_idle(event),
            Phase::Listing => self.on_listing(event),
            Phase::Inspecting => self.on_inspecting(event),
            Phase::MakingDir => self.on_making_dir(event),
            Phase::Acting(op) => self.on_acting(op, event),
            Phase::Pruning => self.on_pruning(event),
            Phase::Done => (
                Step { action: Action::Finish(self.outcome), record: None, warning: None },
                Ghost(false),
            ),
        };
        self.history = Ghost(self.history@.push(step.action@));
        self.records = Ghost(
            match step@.record {
                Some(r) => self.records@.push(r),
                None => self.records@,
            },
        );
        proof {
            lemma_react_keeps_wf(before, seen, selected@);
        }
        step
    }
}

/// Whether `after` and `step` are what the walk in state `before` makes of
/// `event`, under a verdict that the filter may give.
pub open spec fn follows(before: WalkerView, event: EventView, after: WalkerView, step: StepView)
    -> bool {
    exists|selected: bool|
        before.admits(event, selected) && #[trigger] before.react(event, selected) == (after, step)
}

/// Entering an action in a history opens a directory, closes the innermost
/// open one, or leaves the open directories as they are.
pub proof fn lemma_open_dirs_push(history: Seq<ActionView>, action: ActionView)
    ensures
        open_dirs(history.push(action)) == match action {
            ActionView::MakeDir { dest } => open_dirs(history).push(dest),
            ActionView::Prune { dest } => if open_dirs(history).len() > 0 && open_dirs(
                history,
            ).last() == dest {
                open_dirs(history).drop_last()
            } else {
                open_dirs(history)
            },
            _ => open_dirs(history),
        },
{
    assert(history.push(action).drop_last() =~= history);
}

/// The transition keeps the invariant of the walk, whatever the event and
/// whatever the filter's verdict.
pub proof fn lemma_react_keeps_wf(v: WalkerView, event: EventView, selected: bool)
    requires
        v.wf(),
    ensures
        v.react(event, selected).0.wf(),
{
    let (next, step) = v.respond(event, selected);
    let after = v.react(event, selected).0;
    lemma_open_dirs_push(v.history, step.action);
    lemma_tally_kept(v, event, selected);
    if after.phase == Phase::Done {
        if !(after.outcome is Aborted) {
            if v.phase == Phase::Done {
            } else {
                lemma_resume_keeps_wf(v, event, selected);
            }
        }
    } else {
        match (v.phase, event) {
            (Phase::Idle, EventView::Begin) => {
                assert(mirrors(after.stack) =~= Seq::empty());
            },
            (Phase::MakingDir, EventView::Succeeded) => {
                assert(mirrors(after.stack) =~= mirrors(v.stack).push(v.top().child_dest()));
                assert forall|i: int| 0 <= i < after.stack.len() - 1 implies {
                    &&& (#[trigger] after.stack[i]).has_child()
                    &&& after.stack[i + 1].source == after.stack[i].child_source()
                    &&& after.stack[i + 1].dest == after.stack[i].child_dest()
                } by {
                    if i < v.stack.len() - 1 {
                        assert(v.stack[i].has_child());
                    }
                }
            },
            (Phase::Inspecting, EventView::Inspected(meta)) => {
                if meta.kind == FileKind::Directory || selected {
                    if meta.kind != FileKind::Directory {
                        assert(!(action_for(meta, v.top().child_source(), v.top().child_dest())
                            is MakeDir));
                        assert(!(action_for(meta, v.top().child_source(), v.top().child_dest())
                            is Prune));
                    }
                } else {
                    lemma_resume_keeps_wf(v, event, selected);
                }
            },
            _ => {
                lemma_resume_keeps_wf(v, event, selected);
            },
        }
    }
}

/// The state from which a transition resumes the walk, where it does: the
/// state before, with the listing taken in, the current child stepped
/// over, or a failure counted.
pub open spec fn resumed_from(v: WalkerView, event: EventView) -> WalkerView {
    match (v.phase, event) {
        (Phase::Listing, EventView::Listed(names)) => WalkerView {
            stack: v.stack.update(v.stack.len() - 1, FrameView { names, next: 0, ..v.top() }),
            ..v
        },
        (Phase::Inspecting, EventView::InspectFailed) => v.fail_one().step_over(),
        (Phase::Acting(_), EventView::Failed) => v.fail_one().step_over(),
        _ => v.step_over(),
    }
}

/// Whether a transition resumes the walk.
pub open spec fn resumes(v: WalkerView, event: EventView, selected: bool) -> bool {
    match (v.phase, event) {
        (Phase::Listing, EventView::Listed(_)) => true,
        (Phase::Inspecting, EventView::Inspected(meta)) => meta.kind != FileKind::Directory
            && !selected,
        (Phase::Inspecting, EventView::InspectFailed) => true,
        (Phase::Acting(_), EventView::Succeeded) => true,
        (Phase::Acting(_), EventView::Failed) => true,
        (Phase::Pruning, EventView::Succeeded) => true,
        _ => false,
    }
}

/// The count of failures stays the capped number of failed entries.
proof fn lemma_tally_kept(v: WalkerView, event: EventView, selected: bool)
    requires
        v.wf(),
    ensures
        v.react(event, selected).0.failures == capped(
            failed_count(v.react(event, selected).0.records),
        ),
{
    let step = v.respond(event, selected).1;
    match step.record {
        Some(r) => {
            assert(v.records.push(r).drop_last() =~= v.records);
        },
        None => {},
    }
}

proof fn lemma_resume_keeps_wf(v: WalkerView, event: EventView, selected: bool)
    requires
        v.wf(),
        v.phase != Phase::Done,
    ensures
        resumes(v, event, selected) ==> v.react(event, selected).0.shaped(),
{
    if resumes(v, event, selected) {
        let from = resumed_from(v, event);
        let (to, action) = from.resume();
        let after = v.react(event, selected).0;
        assert(v.respond(event, selected).0 == to);
        assert(v.respond(event, selected).1.action == action);
        lemma_open_dirs_push(v.history, action);
        assert(from.stack.len() == v.stack.len());
        assert(mirrors(from.stack) =~= mirrors(v.stack));
        assert(open_dirs(v.history) == mirrors(v.stack));
        assert forall|i: int| 0 <= i < from.stack.len() - 1 implies {
            &&& (#[trigger] from.stack[i]).has_child()
            &&& from.stack[i + 1].source == from.stack[i].child_source()
            &&& from.stack[i + 1].dest == from.stack[i].child_dest()
        } by {
            assert(v.stack[i].has_child());
        }
        if from.top().has_child() {
            assert(after.stack =~= from.stack);
        } else if from.stack.len() == 1 {
            assert(mirrors(from.stack) =~= Seq::empty());
        } else {
            assert(mirrors(from.stack).last() == from.top().dest);
            assert(mirrors(from.stack.drop_last()) =~= mirrors(from.stack).drop_last());
            assert(from.stack[from.stack.len() - 2].has_child());
            assert forall|i: int| 0 <= i < after.stack.len() - 1 implies {
                &&& (#[trigger] after.stack[i]).has_child()
                &&& after.stack[i + 1].source == after.stack[i].child_source()
                &&& after.stack[i + 1].dest == after.stack[i].child_dest()
            } by {
                assert(from.stack[i].has_child());
            }
        }
    }
}

/// A walk that ran to its end has asked to prune every directory that it
/// asked to create: no directory of the mirror is left unvisited by the
/// pruning, so none stays behind empty because the filter took all of its
/// entries.
pub proof fn lemma_finished_walk_prunes_all(v: WalkerView)
    requires
        v.wf(),
        v.phase == Phase::Done,
        !(v.outcome is Aborted),
    ensures
        open_dirs(v.history).len() == 0,
{
}

/// When the innermost directory has no child left and is not the root, the
/// walk asks to prune its mirror and goes back to the parent.
pub proof fn lemma_exhausted_directory_is_pruned(v: WalkerView)
    requires
        v.stack.len() >= 2,
        !v.top().has_child(),
    ensures
        v.resume().1 == (ActionView::Prune { dest: v.top().dest }),
        v.resume().0.stack == v.stack.drop_last(),
        v.resume().0.phase == Phase::Pruning,
{
}

/// A walk that ran to its end reports `Completed` exactly when no settled
/// entry failed, and otherwise reports how many did.
pub proof fn lemma_outcome_counts_failures(v: WalkerView)
    requires
        v.wf(),
        v.phase == Phase::Done,
        !(v.outcome is Aborted),
    ensures
        v.outcome == verdict(capped(failed_count(v.records))),
        v.outcome == RunOutcome::Completed <==> failed_count(v.records) == 0,
{
}

/// Where the filter asks nothing of the environment, the walk is a
/// function of its state and the event: two walks that agree on both take
/// the same step to the same state. Run again on an unchanged tree, the
/// walk therefore asks for the same actions in the same order.
pub proof fn lemma_walk_is_deterministic(
    before: WalkerView,
    event: EventView,
    after1: WalkerView,
    step1: StepView,
    after2: WalkerView,
    step2: StepView,
)
    requires
        !before.constraints.asks_environment(),
        follows(before, event, after1, step1),
        follows(before, event, after2, step2),
    ensures
        after1 == after2,
        step1 == step2,
{
    let s1 = choose|s: bool|
        before.admits(event, s) && #[trigger] before.react(event, s) == (after1, step1);
    let s2 = choose|s: bool|
        before.admits(event, s) && #[trigger] before.react(event, s) == (after2, step2);
    assert(before.respond(event, s1) == before.respond(event, s2));
}

} // verus!
