//! One backup run, as a state machine: check the source, prepare the
//! destination, then either pack the whole tree into one archive or mirror
//! it entry by entry under the filter.

use crate::config::{Config, OutputConfig};
use crate::filter::{config_error, constraints_of, ConfigError, Constraints, Filter};
use crate::paths::{join_path, joined_path};
use crate::protocol::{
    quiet, AbortReason, Action, ActionView, Event, EventView, RunOutcome, Step, StepView, Warning,
};
use crate::walker::{follows, Phase, Walker, WalkerView};
use vstd::prelude::*;

verus! {

/// What the run is waiting for.
#[derive(Clone, Copy, Debug, PartialEq, Eq, Structural)]
pub enum Stage {
    /// Not started.
    Idle,
    /// The check of the source directory.
    CheckingSource,
    /// The preparation of the destination directory.
    PreparingDestination,
    /// The writing of the archive.
    Archiving,
    /// Whatever the tree walk is waiting for.
    Walking,
    /// Nothing: the run has ended.
    Done,
}

/// The name of the archive file inside the destination directory.
pub open spec fn archive_name(compress: bool) -> Seq<char> {
    if compress {
        "backup.tar.gz"@
    } else {
        "backup.tar"@
    }
}

/// The state of a run.
pub struct EngineView {
    pub source: Seq<char>,
    pub dest: Seq<char>,
    pub output: OutputConfig,
    pub walker: WalkerView,
    pub stage: Stage,
    /// How the run ended; meaningful in stage `Done`.
    pub outcome: RunOutcome,
}

impl EngineView {
    /// A run that has not started.
    pub open spec fn initial(
        source: Seq<char>,
        dest: Seq<char>,
        output: OutputConfig,
        constraints: Constraints,
    ) -> EngineView {
        EngineView {
            source,
            dest,
            output,
            walker: WalkerView::initial(source, dest, constraints),
            stage: Stage::Idle,
            outcome: RunOutcome::Completed,
        }
    }

    /// The run ends with `outcome`.
    pub open spec fn finish(self, outcome: RunOutcome) -> (EngineView, StepView) {
        (EngineView { stage: Stage::Done, outcome, ..self }, quiet(ActionView::Finish(outcome)))
    }

    /// The state after a step of the walk: the run ends when the walk does.
    pub open spec fn after_walk(self, walker: WalkerView, step: StepView) -> EngineView {
        match step.action {
            ActionView::Finish(outcome) => EngineView {
                walker,
                stage: Stage::Done,
                outcome,
                ..self
            },
            _ => EngineView { walker, stage: Stage::Walking, ..self },
        }
    }

    /// What follows once the destination is ready: the archive is written,
    /// or the walk begins. `warning` goes out with the step.
    pub open spec fn set_out(self, warning: Option<Warning>, selected: bool) -> (
        EngineView,
        StepView,
    ) {
        if self.output.tar {
            (
                EngineView { stage: Stage::Archiving, ..self },
                StepView {
                    warning,
                    ..quiet(
                        ActionView::WriteArchive {
                            source: self.source,
                            archive: joined_path(self.dest, archive_name(self.output.gzip)),
                            compress: self.output.gzip,
                        },
                    )
                },
            )
        } else {
            let (walker, step) = self.walker.react(EventView::Begin, selected);
            (self.after_walk(walker, step), StepView { warning, ..step })
        }
    }

    /// The transition: the state after `event`, and the step handed out.
    /// `selected` is the filter's verdict on the inspected entry and matters
    /// only to the walk.
    pub open spec fn react(self, event: EventView, selected: bool) -> (EngineView, StepView) {
        match (self.stage, event) {
            (Stage::Idle, EventView::Begin) => (
                EngineView { stage: Stage::CheckingSource, ..self },
                quiet(ActionView::CheckSource { path: self.source }),
            ),
            (Stage::CheckingSource, EventView::Succeeded) => (
                EngineView { stage: Stage::PreparingDestination, ..self },
                quiet(ActionView::PrepareDestination { path: self.dest }),
            ),
            (Stage::CheckingSource, EventView::Failed) => self.finish(
                RunOutcome::Aborted(AbortReason::SourceInvalid),
            ),
            (Stage::PreparingDestination, EventView::Succeeded) => self.set_out(None, selected),
            (Stage::PreparingDestination, EventView::FoundNotEmpty) => self.set_out(
                Some(Warning::DestinationNotEmpty),
                selected,
            ),
            (Stage::PreparingDestination, EventView::Failed) => self.finish(
                RunOutcome::Aborted(AbortReason::DestinationInvalid),
            ),
            (Stage::Archiving, EventView::Succeeded) => self.finish(RunOutcome::Completed),
            (Stage::Archiving, EventView::Failed) => self.finish(
                RunOutcome::Aborted(AbortReason::ArchiveFailed),
            ),
            (Stage::Walking, _) => {
                let (walker, step) = self.walker.react(event, selected);
                (self.after_walk(walker, step), step)
            },
            (Stage::Done, _) => (self, quiet(ActionView::Finish(self.outcome))),
            _ => self.finish(RunOutcome::Aborted(AbortReason::OutOfTurn)),
        }
    }

    /// Whether `selected` is a verdict that the filter may give on the
    /// entry that `event` describes.
    pub open spec fn admits(self, event: EventView, selected: bool) -> bool {
        self.stage == Stage::Walking ==> self.walker.admits(event, selected)
    }

    /// Whether `after` and `step` are what the run in this state makes of
    /// `event`, under a verdict that the filter may give.
    pub open spec fn leads_to(self, event: EventView, after: EngineView, step: StepView) -> bool {
        exists|selected: bool|
            self.admits(event, selected) && #[trigger] self.react(event, selected) == (after, step)
    }

    /// The invariant of a run.
    pub open spec fn wf(self) -> bool {
        &&& self.walker.wf()
        &&& self.walker.root == self.source
        &&& self.walker.dest_root == self.dest
        &&& match self.stage {
            Stage::Walking => self.walker.phase != Phase::Idle && self.walker.phase != Phase::Done,
            Stage::Done => true,
            _ => self.walker.phase == Phase::Idle,
        }
    }
}

/// One backup run.
pub struct Engine {
    source: String,
    dest: String,
    output: OutputConfig,
    walker: Walker,
    stage: Stage,
    outcome: RunOutcome,
}

impl View for Engine {
    type V = EngineView;

    closed spec fn view(&self) -> EngineView {
        EngineView {
            source: self.source@,
            dest: self.dest@,
            output: self.output,
            walker: self.walker@,
            stage: self.stage,
            outcome: self.outcome,
        }
    }
}

impl Engine {
    /// Sets up a run from a configuration. The filter is compiled here,
    /// before anything is read or written: an unusable pattern or date
    /// fails the run at once, and nothing else does.
    pub fn new(config: &Config) -> (r: Result<Engine, ConfigError>)
        ensures
            match r {
                Ok(e) => config_error(config.file_config) is None && e@.wf() && e@
                    == EngineView::initial(
                    config.path_config.source_path@,
                    config.path_config.dest_path@,
                    config.output_config,
                    constraints_of(config.file_config),
                ),
                Err(e) => config_error(config.file_config) == Some(e),
            },
    {
        let filter = match Filter::compile(&config.file_config) {
            Ok(f) => f,
            Err(e) => {
                return Err(e);
            },
        };
        let source = config.path_config.source_path.clone();
        let dest = config.path_config.dest_path.clone();
        let walker = Walker::new(source.clone(), dest.clone(), filter);
        Ok(
            Engine {
                source,
                dest,
                output: config.output_config,
                walker,
                stage: Stage::Idle,
                outcome: RunOutcome::Completed,
            },
        )
    }

    /// What the run is waiting for.
    pub fn stage(&self) -> (s: Stage)
        ensures
            s == self@.stage,
    {
        self.stage
    }

    /// How the run ended, once it has.
    pub fn outcome(&self) -> (r: Option<RunOutcome>)
        ensures
            r == if self@.stage == Stage::Done {
                Some(self@.outcome)
            } else {
                None
            },
    {
        if self.stage == Stage::Done {
            Some(self.outcome)
        } else {
            None
        }
    }

    fn finish(&mut self, outcome: RunOutcome) -> (step: Step)
        ensures
            (final(self)@, step@) == old(self)@.finish(outcome),
    {
        self.stage = Stage::Done;
        self.outcome = outcome;
        Step { action: Action::Finish(outcome), record: None, warning: None }
    }

    /// Hands `event` to the walk and ends the run when the walk ends.
    fn walk(&mut self, event: Event, warning: Option<Warning>) -> (r: (Step, Ghost<bool>))
        requires
            old(self)@.walker.wf(),
        ensures
            old(self)@.walker.admits(event@, r.1@),
            final(self)@.walker.wf(),
            ({
                let (walker, step) = old(self)@.walker.react(event@, r.1@);
                &&& final(self)@ == old(self)@.after_walk(walker, step)
                &&& r.0@ == StepView { warning, ..step }
            }),
    {
        let ghost before = self.walker@;
        let step = self.walker.advance(event);
        let ghost selected = choose|s: bool|
            before.admits(event@, s) && #[trigger] before.react(event@, s) == (
                self.walker@,
                step@,
            );
        match step.action {
            Action::Finish(outcome) => {
                self.stage = Stage::Done;
                self.outcome = outcome;
            },
            _ => {
                self.stage = Stage::Walking;
            },
        }
        (Step { action: step.action, record: step.record, warning }, Ghost(selected))
    }

    fn set_out(&mut self, warning: Option<Warning>) -> (r: (Step, Ghost<bool>))
        requires
            old(self)@.wf(),
            old(self)@.stage == Stage::PreparingDestination,
        ensures
            final(self)@.walker.wf(),
            (final(self)@, r.0@) == old(self)@.set_out(warning, r.1@),
    {
        if self.output.tar {
            let name = if self.output.gzip {
                "backup.tar.gz"
            } else {
                "backup.tar"
            };
            let archive = join_path(self.dest.as_str(), name);
            self.stage = Stage::Archiving;
            (
                Step {
                    action: Action::WriteArchive {
                        source: self.source.clone(),
                        archive,
                        compress: self.output.gzip,
                    },
                    record: None,
                    warning,
                },
                Ghost(false),
            )
        } else {
            self.walk(Event::Begin, warning)
        }
    }

    /// Takes in what came of the last action and hands out the next one.
    ///
    /// The step is the one that the transition function gives for the
    /// state, the event and the filter's verdict on the inspected entry;
    /// the invariant of the run is kept.
    pub fn advance(&mut self, event: Event) -> (step: Step)
        requires
            old(self)@.wf(),
        ensures
            final(self)@.wf(),
            old(self)@.leads_to(event@, final(self)@, step@),
    {
        let ghost before = self@;
        let ghost seen = event@;
        let (step, selected) = match self.stage {
            Stage::Idle => match event {
                Event::Begin => {
                    self.stage = Stage::CheckingSource;
                    (
                        Step {
                            action: Action::CheckSource { path: self.source.clone() },
                            record: None,
                            warning: None,
                        },
                        Ghost(false),
                    )
                },
                _ => (self.finish(RunOutcome::Aborted(AbortReason::OutOfTurn)), Ghost(false)),
            },
            Stage::CheckingSource => match event {
                Event::Succeeded => {
                    self.stage = Stage::PreparingDestination;
                    (
                        Step {
                            action: Action::PrepareDestination { path: self.dest.clone() },
                            record: None,
                            warning: None,
                        },
                        Ghost(false),
                    )
                },
                Event::Failed => (
                    self.finish(RunOutcome::Aborted(AbortReason::SourceInvalid)),
                    Ghost(false),
                ),
                _ => (self.finish(RunOutcome::Aborted(AbortReason::OutOfTurn)), Ghost(false)),
            },
            Stage::PreparingDestination => match event {
                Event::Succeeded => self.set_out(None),
                Event::FoundNotEmpty => self.set_out(Some(Warning::DestinationNotEmpty)),
                Event::Failed => (
                    self.finish(RunOutcome::Aborted(AbortReason::DestinationInvalid)),
                    Ghost(false),
                ),
                _ => (self.finish(RunOutcome::Aborted(AbortReason::OutOfTurn)), Ghost(false)),
            },
            Stage::Archiving => match event {
                Event::Succeeded => (self.finish(RunOutcome::Completed), Ghost(false)),
                Event::Failed => (
                    self.finish(RunOutcome::Aborted(AbortReason::ArchiveFailed)),
                    Ghost(false),
                ),
                _ => (self.finish(RunOutcome::Aborted(AbortReason::OutOfTurn)), Ghost(false)),
            },
            Stage::Walking => self.walk(event, None),
            Stage::Done => (
                Step { action: Action::Finish(self.outcome), record: None, warning: None },
                Ghost(false),
            ),
        };
        assert(before.admits(seen, selected@));
        assert(before.react(seen, selected@) == (self@, step@));
        step
    }
}

/// An archive run never walks: once the destination is ready, the whole
/// tree goes into one archive, named by whether it is compressed, and the
/// filter is not consulted.
pub proof fn lemma_archive_mode_bypasses_walk(v: EngineView, selected: bool)
    requires
        v.stage == Stage::PreparingDestination,
        v.output.tar,
    ensures
        v.react(EventView::Succeeded, selected).1.action == (ActionView::WriteArchive {
            source: v.source,
            archive: joined_path(v.dest, archive_name(v.output.gzip)),
            compress: v.output.gzip,
        }),
        v.react(EventView::Succeeded, selected).0.walker == v.walker,
        v.react(EventView::Succeeded, selected).0.react(EventView::Succeeded, selected).0.outcome
            == RunOutcome::Completed,
{
}

} // verus!
