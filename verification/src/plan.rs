//! What a whole walk does, told in one piece. A source tree, with what the
//! driver will report of each entry, determines the actions that the walk
//! asks for and the outcomes that it records; they are defined here by
//! recursion over the tree, and the state machine is proved to follow
//! them.

use crate::filter::{Constraints, EntryMeta, FileKind};
use crate::paths::joined_path;
use crate::protocol::{
    action_for, failure_of, operation_for, success_of, ActionView, EntryOutcome, EventView,
    FailReason, RecordView, RunOutcome, SkipReason,
};
use crate::walker::{
    capped, failed_count, lemma_open_dirs_push, lemma_react_keeps_wf, open_dirs, verdict,
    FrameView, Phase, WalkerView,
};
use vstd::prelude::*;

verus! {

/// What a walk meets at one child of a directory, together with what its
/// driver will report of it.
pub enum Found {
    /// Something whose metadata cannot be read.
    Vanished,
    /// Something other than a directory: its metadata, whether the filter
    /// selects it, and whether reproducing it succeeds.
    Entry { meta: EntryMeta, selected: bool, reproduced: bool },
    /// A directory whose mirror can be created and pruned: its metadata,
    /// and its children by name, in the order of the listing.
    Dir { meta: EntryMeta, names: Seq<Seq<char>>, children: Seq<Found> },
}

impl Found {
    /// Directories are told from other entries by their kind, and a
    /// directory has a name for each child.
    pub open spec fn wf(self) -> bool
        decreases self,
    {
        match self {
            Found::Vanished => true,
            Found::Entry { meta, .. } => meta.kind != FileKind::Directory,
            Found::Dir { meta, names, children } => {
                &&& meta.kind == FileKind::Directory
                &&& all_wf(names, children)
            },
        }
    }
}

/// The children of a directory are well formed, and each has its name.
pub open spec fn all_wf(names: Seq<Seq<char>>, children: Seq<Found>) -> bool
    decreases children,
{
    &&& names.len() == children.len()
    &&& forall|i: int| 0 <= i < children.len() ==> (#[trigger] children[i]).wf()
}

/// One report of the driver, with the filter's verdict on the entry that
/// it is about (which matters only where metadata of something other than
/// a directory is reported).
pub struct Reply {
    pub event: EventView,
    pub selected: bool,
}

/// A report on which the filter has no say.
pub open spec fn said(event: EventView) -> Reply {
    Reply { event, selected: false }
}

/// What the driver reports while the walk deals with one child: from its
/// metadata to the last report that concerns it.
pub open spec fn replies(found: Found) -> Seq<Reply>
    decreases found, 0nat,
{
    match found {
        Found::Vanished => seq![said(EventView::InspectFailed)],
        Found::Entry { meta, selected, reproduced } => if selected {
            seq![
                Reply { event: EventView::Inspected(meta), selected: true },
                said(
                    if reproduced {
                        EventView::Succeeded
                    } else {
                        EventView::Failed
                    },
                ),
            ]
        } else {
            seq![Reply { event: EventView::Inspected(meta), selected: false }]
        },
        Found::Dir { meta, names, children } => seq![
            said(EventView::Inspected(meta)),
            said(EventView::Succeeded),
            said(EventView::Listed(names)),
        ] + replies_from(children, 0) + seq![said(EventView::Succeeded)],
    }
}

/// What the driver reports while the walk deals with the children of one
/// directory from the `i`-th on.
pub open spec fn replies_from(children: Seq<Found>, i: int) -> Seq<Reply>
    decreases children, children.len() - i,
{
    if 0 <= i < children.len() {
        replies(children[i]) + replies_from(children, i + 1)
    } else {
        Seq::empty()
    }
}

/// What the walk asks for on account of one child at `source`, mirrored at
/// `dest`, once it has asked for the child's metadata: nothing for what
/// cannot be read or is not selected; the reproducing action for a
/// selected entry; and for a directory its creation, its listing, the
/// visits of its children, and its pruning.
pub open spec fn actions(found: Found, source: Seq<char>, dest: Seq<char>) -> Seq<ActionView>
    decreases found, 0nat,
{
    match found {
        Found::Vanished => Seq::empty(),
        Found::Entry { meta, selected, reproduced } => if selected {
            seq![action_for(meta, source, dest)]
        } else {
            Seq::empty()
        },
        Found::Dir { meta, names, children } => seq![
            ActionView::MakeDir { dest },
            ActionView::List { source },
        ] + visits_from(names, children, source, dest, 0) + seq![ActionView::Prune { dest }],
    }
}

/// What the walk asks for on account of the children of the directory
/// `source` from the `i`-th on: for each child its inspection, then what
/// the child calls for.
pub open spec fn visits_from(
    names: Seq<Seq<char>>,
    children: Seq<Found>,
    source: Seq<char>,
    dest: Seq<char>,
    i: int,
) -> Seq<ActionView>
    decreases children, children.len() - i,
{
    if 0 <= i < children.len() {
        seq![ActionView::Inspect { source: joined_path(source, names[i]) }] + actions(
            children[i],
            joined_path(source, names[i]),
            joined_path(dest, names[i]),
        ) + visits_from(names, children, source, dest, i + 1)
    } else {
        Seq::empty()
    }
}

/// The outcome that the walk records of one entry that is not a
/// directory.
pub open spec fn outcome_of(meta: EntryMeta, selected: bool, reproduced: bool) -> EntryOutcome {
    if !selected {
        EntryOutcome::Skipped(SkipReason::Filtered)
    } else if reproduced {
        success_of(operation_for(meta.kind))
    } else {
        failure_of(operation_for(meta.kind))
    }
}

/// What the walk records on account of one child at `source`: one outcome
/// for each entry at or below it that is not a directory, in the order of
/// the walk.
pub open spec fn ledger(found: Found, source: Seq<char>) -> Seq<RecordView>
    decreases found, 0nat,
{
    match found {
        Found::Vanished => seq![
            RecordView { path: source, outcome: EntryOutcome::Failed(FailReason::Unreadable) },
        ],
        Found::Entry { meta, selected, reproduced } => seq![
            RecordView { path: source, outcome: outcome_of(meta, selected, reproduced) },
        ],
        Found::Dir { meta, names, children } => ledger_from(names, children, source, 0),
    }
}

/// What the walk records on account of the children of the directory
/// `source` from the `i`-th on.
pub open spec fn ledger_from(
    names: Seq<Seq<char>>,
    children: Seq<Found>,
    source: Seq<char>,
    i: int,
) -> Seq<RecordView>
    decreases children, children.len() - i,
{
    if 0 <= i < children.len() {
        ledger(children[i], joined_path(source, names[i])) + ledger_from(
            names,
            children,
            source,
            i + 1,
        )
    } else {
        Seq::empty()
    }
}

/// The state of a walk after a series of reports.
pub open spec fn run(v: WalkerView, reports: Seq<Reply>) -> WalkerView
    decreases reports.len(),
{
    if reports.len() == 0 {
        v
    } else {
        run(v.react(reports[0].event, reports[0].selected).0, reports.drop_first())
    }
}

/// Reports taken in one after the other are taken in as one series.
pub proof fn lemma_run_in_parts(v: WalkerView, first: Seq<Reply>, then: Seq<Reply>)
    ensures
        run(v, first + then) == run(run(v, first), then),
    decreases first.len(),
{
    if first.len() == 0 {
        assert(first + then =~= then);
    } else {
        assert((first + then).drop_first() =~= first.drop_first() + then);
        lemma_run_in_parts(
            v.react(first[0].event, first[0].selected).0,
            first.drop_first(),
            then,
        );
    }
}

/// A single report is one transition.
proof fn lemma_run_one(v: WalkerView, reply: Reply)
    ensures
        run(v, seq![reply]) == v.react(reply.event, reply.selected).0,
{
    assert(seq![reply].drop_first() =~= Seq::<Reply>::empty());
    reveal_with_fuel(run, 2);
}

/// A run keeps the invariant of the walk.
pub proof fn lemma_run_keeps_wf(v: WalkerView, reports: Seq<Reply>)
    requires
        v.wf(),
    ensures
        run(v, reports).wf(),
    decreases reports.len(),
{
    if reports.len() > 0 {
        lemma_react_keeps_wf(v, reports[0].event, reports[0].selected);
        lemma_run_keeps_wf(
            v.react(reports[0].event, reports[0].selected).0,
            reports.drop_first(),
        );
    }
}

/// The state of a walk that was waiting for the metadata of a child, once
/// the child is dealt with: the actions `acts` have been asked for on its
/// account and the outcomes `recs` recorded, the child is stepped over,
/// and the walk has resumed.
pub open spec fn settled(v: WalkerView, acts: Seq<ActionView>, recs: Seq<RecordView>)
    -> WalkerView {
    let tallied = WalkerView {
        records: v.records + recs,
        failures: capped(failed_count(v.records + recs)),
        history: v.history + acts,
        ..v.step_over()
    };
    WalkerView { history: tallied.history.push(tallied.resume().1), ..tallied.resume().0 }
}

/// Dealing with a child that is not a directory.
proof fn lemma_entry(v: WalkerView, found: Found)
    requires
        v.wf(),
        v.phase == Phase::Inspecting,
        found.wf(),
        !(found is Dir),
    ensures
        run(v, replies(found)) == settled(
            v,
            actions(found, v.top().child_source(), v.top().child_dest()),
            ledger(found, v.top().child_source()),
        ),
{
    let p = v.top().child_source();
    let q = v.top().child_dest();
    let want = settled(v, actions(found, p, q), ledger(found, p));
    match found {
        Found::Vanished => {
            lemma_run_one(v, said(EventView::InspectFailed));
            let got = v.react(EventView::InspectFailed, false).0;
            lemma_react_keeps_wf(v, EventView::InspectFailed, false);
            assert(got.records =~= v.records + ledger(found, p));
            assert(v.history + actions(found, p, q) =~= v.history);
            assert(got =~~= want);
        },
        Found::Entry { meta, selected, reproduced } => {
            if selected {
                let first = Reply { event: EventView::Inspected(meta), selected: true };
                let event = if reproduced {
                    EventView::Succeeded
                } else {
                    EventView::Failed
                };
                let mid = v.react(first.event, true).0;
                let got = mid.react(event, false).0;
                lemma_react_keeps_wf(v, first.event, true);
                lemma_react_keeps_wf(mid, event, false);
                assert(replies(found) =~= seq![first] + seq![said(event)]);
                lemma_run_in_parts(v, seq![first], seq![said(event)]);
                lemma_run_one(v, first);
                lemma_run_one(mid, said(event));
                assert(mid.stack == v.stack);
                assert(got.records =~= v.records + ledger(found, p));
                assert(mid.history =~= v.history + actions(found, p, q));
                assert(got =~~= want);
            } else {
                let only = Reply { event: EventView::Inspected(meta), selected: false };
                lemma_run_one(v, only);
                let got = v.react(only.event, false).0;
                lemma_react_keeps_wf(v, only.event, false);
                assert(got.records =~= v.records + ledger(found, p));
                assert(v.history + actions(found, p, q) =~= v.history);
                assert(got =~~= want);
            }
        },
        Found::Dir { .. } => {},
    }
}

/// The state of a walk that was waiting for the metadata of a child of
/// its innermost directory, once the last child of that directory is
/// dealt with: the actions `acts` have been asked for on account of the
/// remaining children and the outcomes `recs` recorded, no child is left,
/// and the walk has resumed.
pub open spec fn wound_up(u: WalkerView, acts: Seq<ActionView>, recs: Seq<RecordView>)
    -> WalkerView {
    let tallied = WalkerView {
        records: u.records + recs,
        failures: capped(failed_count(u.records + recs)),
        history: u.history + acts,
        stack: u.stack.update(
            u.stack.len() - 1,
            FrameView { next: u.top().names.len() as int, ..u.top() },
        ),
        ..u
    };
    WalkerView { history: tallied.history.push(tallied.resume().1), ..tallied.resume().0 }
}

/// What the walk asks for on account of the children of the directory
/// `source` from the `i`-th on, once it has asked for the metadata of the
/// `i`-th.
pub open spec fn rest_from(
    names: Seq<Seq<char>>,
    children: Seq<Found>,
    source: Seq<char>,
    dest: Seq<char>,
    i: int,
) -> Seq<ActionView> {
    actions(children[i], joined_path(source, names[i]), joined_path(dest, names[i]))
        + visits_from(names, children, source, dest, i + 1)
}

/// The three reports that open a directory: its metadata, the creation
/// of its mirror, and its listing. After them the walk is at the first
/// child of the directory, or, where there is none, has asked for the
/// mirror to be pruned.
proof fn lemma_dir_opens(v: WalkerView, meta: EntryMeta, names: Seq<Seq<char>>)
    requires
        v.wf(),
        v.phase == Phase::Inspecting,
        meta.kind == FileKind::Directory,
    ensures
        ({
            let p = v.top().child_source();
            let q = v.top().child_dest();
            let opened = run(
                v,
                seq![
                    said(EventView::Inspected(meta)),
                    said(EventView::Succeeded),
                    said(EventView::Listed(names)),
                ],
            );
            let asked = v.history + seq![
                ActionView::MakeDir { dest: q },
                ActionView::List { source: p },
            ];
            &&& opened.wf()
            &&& opened.records == v.records
            &&& opened.root == v.root
            &&& opened.dest_root == v.dest_root
            &&& opened.constraints == v.constraints
            &&& opened.outcome == v.outcome
            &&& opened.failures == v.failures
            &&& names.len() > 0 ==> {
                &&& opened.phase == Phase::Inspecting
                &&& opened.stack == v.stack.push(
                    FrameView { source: p, dest: q, names, next: 0 },
                )
                &&& opened.history == asked.push(
                    ActionView::Inspect { source: joined_path(p, names[0]) },
                )
            }
            &&& names.len() == 0 ==> {
                &&& opened.phase == Phase::Pruning
                &&& opened.stack == v.stack
                &&& opened.history == asked.push(ActionView::Prune { dest: q })
            }
        }),
{
    let p = v.top().child_source();
    let q = v.top().child_dest();
    let e1 = said(EventView::Inspected(meta));
    let e2 = said(EventView::Succeeded);
    let e3 = said(EventView::Listed(names));
    let b1 = v.react(e1.event, false).0;
    let b2 = b1.react(e2.event, false).0;
    let b3 = b2.react(e3.event, false).0;
    lemma_react_keeps_wf(v, e1.event, false);
    lemma_react_keeps_wf(b1, e2.event, false);
    lemma_react_keeps_wf(b2, e3.event, false);
    assert(run(v, seq![e1, e2, e3]) == b3) by {
        assert(seq![e1, e2, e3] =~= (seq![e1] + seq![e2]) + seq![e3]);
        lemma_run_in_parts(v, seq![e1] + seq![e2], seq![e3]);
        lemma_run_in_parts(v, seq![e1], seq![e2]);
        lemma_run_one(v, e1);
        lemma_run_one(b1, e2);
        lemma_run_one(b2, e3);
    }
    assert(b1.stack == v.stack);
    assert(b1.history == v.history.push(ActionView::MakeDir { dest: q }));
    assert(b2.stack == v.stack.push(FrameView::unlisted(p, q)));
    assert(b2.history =~= v.history + seq![
        ActionView::MakeDir { dest: q },
        ActionView::List { source: p },
    ]);
    let listed = b2.stack.update(
        b2.stack.len() - 1,
        FrameView { names, next: 0, ..b2.top() },
    );
    assert(listed =~= v.stack.push(FrameView { source: p, dest: q, names, next: 0 }));
    if names.len() > 0 {
        assert(b3.stack =~= listed);
    } else {
        assert(b3.stack =~= listed.drop_last());
        assert(listed.drop_last() =~= v.stack);
    }
}

/// The report that closes a directory: its mirror is pruned. The walk
/// steps over the directory and resumes in its parent.
proof fn lemma_dir_closes(
    v: WalkerView,
    closing: WalkerView,
    acts: Seq<ActionView>,
    recs: Seq<RecordView>,
)
    requires
        v.wf(),
        v.phase == Phase::Inspecting,
        closing.wf(),
        closing.phase == Phase::Pruning,
        closing.stack == v.stack,
        closing.history == v.history + acts,
        closing.records == v.records + recs,
        closing.root == v.root,
        closing.dest_root == v.dest_root,
        closing.constraints == v.constraints,
        closing.outcome == v.outcome,
    ensures
        closing.react(EventView::Succeeded, false).0 == settled(v, acts, recs),
{
    let got = closing.react(EventView::Succeeded, false).0;
    let want = settled(v, acts, recs);
    assert(closing.step_over().stack == v.step_over().stack);
    assert(got =~~= want);
}

/// Dealing with one child: the walk asks for the child's actions, records
/// its outcomes, steps over it and resumes.
pub proof fn lemma_child(v: WalkerView, found: Found)
    requires
        v.wf(),
        v.phase == Phase::Inspecting,
        found.wf(),
    ensures
        run(v, replies(found)) == settled(
            v,
            actions(found, v.top().child_source(), v.top().child_dest()),
            ledger(found, v.top().child_source()),
        ),
    decreases found, 0nat,
{
    let p = v.top().child_source();
    let q = v.top().child_dest();
    match found {
        Found::Dir { meta, names, children } => {
            let head = seq![
                said(EventView::Inspected(meta)),
                said(EventView::Succeeded),
                said(EventView::Listed(names)),
            ];
            let inner = replies_from(children, 0);
            let last = said(EventView::Succeeded);
            let opened = run(v, head);
            let closing = run(opened, inner);
            lemma_dir_opens(v, meta, names);
            lemma_run_keeps_wf(opened, inner);
            assert(run(v, replies(found)) == closing.react(EventView::Succeeded, false).0) by {
                assert(replies(found) =~= (head + inner) + seq![last]);
                lemma_run_in_parts(v, head + inner, seq![last]);
                lemma_run_in_parts(v, head, inner);
                lemma_run_one(closing, last);
            }
            let visits = visits_from(names, children, p, q, 0);
            let recs = ledger_from(names, children, p, 0);
            let asked = v.history + seq![
                ActionView::MakeDir { dest: q },
                ActionView::List { source: p },
            ];
            if children.len() > 0 {
                let rest = rest_from(names, children, p, q, 0);
                lemma_children(opened, names, children, 0);
                assert(closing == wound_up(opened, rest, recs));
                assert(visits =~= seq![
                    ActionView::Inspect { source: joined_path(p, names[0]) },
                ] + rest);
                assert(closing.stack =~= v.stack);
                assert(closing.history =~= (asked + visits).push(ActionView::Prune { dest: q }));
            } else {
                assert(inner =~= Seq::<Reply>::empty());
                assert(visits =~= Seq::<ActionView>::empty());
                assert(recs =~= Seq::<RecordView>::empty());
                assert(closing.history =~= (asked + visits).push(ActionView::Prune { dest: q }));
                assert(closing.records =~= v.records + recs);
            }
            assert((asked + visits).push(ActionView::Prune { dest: q }) =~= v.history + actions(
                found,
                p,
                q,
            ));
            lemma_dir_closes(v, closing, actions(found, p, q), ledger(found, p));
        },
        _ => {
            lemma_entry(v, found);
        },
    }
}

/// Dealing with the children of the innermost directory from the `i`-th
/// on: the walk asks for their actions in turn, records their outcomes,
/// and resumes after the last.
pub proof fn lemma_children(u: WalkerView, names: Seq<Seq<char>>, children: Seq<Found>, i: int)
    requires
        u.wf(),
        u.phase == Phase::Inspecting,
        u.top().names == names,
        u.top().next == i,
        0 <= i < children.len(),
        all_wf(names, children),
    ensures
        run(u, replies_from(children, i)) == wound_up(
            u,
            rest_from(names, children, u.top().source, u.top().dest, i),
            ledger_from(names, children, u.top().source, i),
        ),
    decreases children, children.len() - i,
{
    let p = u.top().source;
    let q = u.top().dest;
    let child = children[i];
    let acts = actions(child, u.top().child_source(), u.top().child_dest());
    let recs = ledger(child, u.top().child_source());
    let want = wound_up(u, rest_from(names, children, p, q, i), ledger_from(names, children, p, i));
    assert(child.wf());
    lemma_child(u, child);
    let s1 = run(u, replies(child));
    lemma_run_keeps_wf(u, replies(child));
    lemma_run_in_parts(u, replies(child), replies_from(children, i + 1));
    if i + 1 < children.len() {
        assert(s1.phase == Phase::Inspecting);
        assert(s1.top().names == names);
        assert(s1.top().next == i + 1);
        lemma_children(s1, names, children, i + 1);
        let later = rest_from(names, children, p, q, i + 1);
        let got = wound_up(s1, later, ledger_from(names, children, p, i + 1));
        assert(s1.history + later =~= u.history + rest_from(names, children, p, q, i)) by {
            assert(visits_from(names, children, p, q, i + 1) =~= seq![
                ActionView::Inspect { source: joined_path(p, names[i + 1]) },
            ] + later);
        }
        assert(s1.records + ledger_from(names, children, p, i + 1) =~= u.records + ledger_from(
            names,
            children,
            p,
            i,
        ));
        assert(got =~~= want);
    } else {
        assert(replies_from(children, i + 1) =~= Seq::<Reply>::empty());
        assert(replies(child) + replies_from(children, i + 1) =~= replies(child));
        assert(visits_from(names, children, p, q, i + 1) =~= Seq::<ActionView>::empty());
        assert(rest_from(names, children, p, q, i) =~= acts);
        assert(ledger_from(names, children, p, i) =~= recs);
        assert(s1 =~~= want);
    }
}

/// What the driver reports in the whole walk of a root directory that has
/// these children.
pub open spec fn whole_run(names: Seq<Seq<char>>, children: Seq<Found>) -> Seq<Reply> {
    seq![said(EventView::Begin), said(EventView::Listed(names))] + replies_from(children, 0)
}

/// What the whole walk records.
pub open spec fn whole_ledger(root: Seq<char>, names: Seq<Seq<char>>, children: Seq<Found>)
    -> Seq<RecordView> {
    ledger_from(names, children, root, 0)
}

/// How the whole walk ends: completed, with the number of recorded
/// failures where there are any.
pub open spec fn whole_outcome(root: Seq<char>, names: Seq<Seq<char>>, children: Seq<Found>)
    -> RunOutcome {
    verdict(capped(failed_count(whole_ledger(root, names, children))))
}

/// What the whole walk asks for: the listing of the root, the visits of
/// its children, and the end.
pub open spec fn whole_plan(
    root: Seq<char>,
    dest: Seq<char>,
    names: Seq<Seq<char>>,
    children: Seq<Found>,
) -> Seq<ActionView> {
    seq![ActionView::List { source: root }] + visits_from(names, children, root, dest, 0)
        + seq![ActionView::Finish(whole_outcome(root, names, children))]
}

/// A walk whose driver reports a tree as it is asks for exactly the
/// planned actions, in their order, records exactly the planned outcomes,
/// and ends completed with the number of entries that failed. What the
/// walk does is thus a function of the tree, of the filter's verdicts and
/// of what came of each action: walked again under the same, it asks for
/// the same.
pub proof fn lemma_walk_follows_plan(
    root: Seq<char>,
    dest: Seq<char>,
    constraints: Constraints,
    names: Seq<Seq<char>>,
    children: Seq<Found>,
)
    requires
        all_wf(names, children),
    ensures
        ({
            let end = run(
                WalkerView::initial(root, dest, constraints),
                whole_run(names, children),
            );
            &&& end.wf()
            &&& end.phase == Phase::Done
            &&& end.outcome == whole_outcome(root, names, children)
            &&& end.history == whole_plan(root, dest, names, children)
            &&& end.records == whole_ledger(root, names, children)
        }),
{
    let v0 = WalkerView::initial(root, dest, constraints);
    let e1 = said(EventView::Begin);
    let e2 = said(EventView::Listed(names));
    let inner = replies_from(children, 0);
    let v1 = v0.react(e1.event, false).0;
    let v2 = v1.react(e2.event, false).0;
    let end = run(v2, inner);
    lemma_react_keeps_wf(v0, e1.event, false);
    lemma_react_keeps_wf(v1, e2.event, false);
    lemma_run_keeps_wf(v2, inner);
    assert(run(v0, whole_run(names, children)) == end) by {
        assert(whole_run(names, children) =~= (seq![e1] + seq![e2]) + inner);
        lemma_run_in_parts(v0, seq![e1] + seq![e2], inner);
        lemma_run_in_parts(v0, seq![e1], seq![e2]);
        lemma_run_one(v0, e1);
        lemma_run_one(v1, e2);
    }
    assert(v1.history =~= seq![ActionView::List { source: root }]);
    assert(v1.stack =~= seq![FrameView::unlisted(root, dest)]);
    assert(v1.records =~= Seq::<RecordView>::empty());
    if children.len() > 0 {
        assert(v2.phase == Phase::Inspecting);
        assert(v2.top() == FrameView { source: root, dest, names, next: 0 });
        lemma_children(v2, names, children, 0);
        let rest = rest_from(names, children, root, dest, 0);
        assert(visits_from(names, children, root, dest, 0) =~= seq![
            ActionView::Inspect { source: joined_path(root, names[0]) },
        ] + rest);
        assert(v2.records + whole_ledger(root, names, children) =~= whole_ledger(
            root,
            names,
            children,
        ));
        assert(end.history =~= whole_plan(root, dest, names, children));
        assert(end.records =~= whole_ledger(root, names, children));
    } else {
        assert(inner =~= Seq::<Reply>::empty());
        assert(visits_from(names, children, root, dest, 0) =~= Seq::<ActionView>::empty());
        assert(whole_ledger(root, names, children) =~= Seq::<RecordView>::empty());
        assert(end.history =~= whole_plan(root, dest, names, children));
        assert(end.records =~= whole_ledger(root, names, children));
    }
}

/// Whether an action writes an entry other than a directory into the
/// mirror.
pub open spec fn writes_entry(action: ActionView) -> bool {
    action is CopyFile || action is Relink || action is MakeFifo || action is MakeDevice
}

impl Found {
    /// Whether nothing at or below this child is selected by the filter.
    pub open spec fn idle(self) -> bool
        decreases self,
    {
        match self {
            Found::Vanished => true,
            Found::Entry { selected, .. } => !selected,
            Found::Dir { children, .. } => forall|i: int|
                0 <= i < children.len() ==> (#[trigger] children[i]).idle(),
        }
    }
}

/// Whatever is found at a child, the directories that the walk asks to
/// create on its account are the ones that it asks to prune, innermost
/// first: when the child is dealt with, no directory at or below it is
/// left open. And where nothing at or below the child is selected, the
/// walk asks for no entry to be written on its account: the mirror of
/// such a subtree is created empty and pruned empty.
pub proof fn lemma_subtree_is_closed(
    found: Found,
    source: Seq<char>,
    dest: Seq<char>,
    before: Seq<ActionView>,
)
    requires
        found.wf(),
    ensures
        open_dirs(before + actions(found, source, dest)) == open_dirs(before),
        found.idle() ==> forall|k: int|
            0 <= k < actions(found, source, dest).len() ==> !writes_entry(
                #[trigger] actions(found, source, dest)[k],
            ),
    decreases found, 0nat,
{
    let acts = actions(found, source, dest);
    match found {
        Found::Dir { meta, names, children } => {
            let made = before.push(ActionView::MakeDir { dest });
            let listed = made.push(ActionView::List { source });
            let visits = visits_from(names, children, source, dest, 0);
            lemma_open_dirs_push(before, ActionView::MakeDir { dest });
            lemma_open_dirs_push(made, ActionView::List { source });
            lemma_children_are_closed(names, children, source, dest, 0, listed);
            lemma_open_dirs_push(listed + visits, ActionView::Prune { dest });
            assert(before + acts =~= (listed + visits).push(ActionView::Prune { dest }));
            assert(open_dirs(before).push(dest).drop_last() =~= open_dirs(before));
            if found.idle() {
                assert forall|k: int| 0 <= k < acts.len() implies !writes_entry(
                    #[trigger] acts[k],
                ) by {
                    if 2 <= k < 2 + visits.len() {
                        assert(acts[k] == visits[k - 2]);
                    }
                }
            }
        },
        Found::Entry { meta, selected, reproduced } => {
            if selected {
                lemma_open_dirs_push(before, action_for(meta, source, dest));
                assert(before + acts =~= before.push(action_for(meta, source, dest)));
            } else {
                assert(before + acts =~= before);
            }
        },
        Found::Vanished => {
            assert(before + acts =~= before);
        },
    }
}

/// The same of the children of a directory from the `i`-th on.
pub proof fn lemma_children_are_closed(
    names: Seq<Seq<char>>,
    children: Seq<Found>,
    source: Seq<char>,
    dest: Seq<char>,
    i: int,
    before: Seq<ActionView>,
)
    requires
        all_wf(names, children),
        0 <= i,
    ensures
        open_dirs(before + visits_from(names, children, source, dest, i)) == open_dirs(before),
        (forall|j: int| i <= j < children.len() ==> (#[trigger] children[j]).idle())
            ==> forall|k: int|
            0 <= k < visits_from(names, children, source, dest, i).len() ==> !writes_entry(
                #[trigger] visits_from(names, children, source, dest, i)[k],
            ),
    decreases children, children.len() - i,
{
    let visits = visits_from(names, children, source, dest, i);
    if i < children.len() {
        let p = joined_path(source, names[i]);
        let q = joined_path(dest, names[i]);
        let inspected = before.push(ActionView::Inspect { source: p });
        let acts = actions(children[i], p, q);
        let later = visits_from(names, children, source, dest, i + 1);
        assert(children[i].wf());
        lemma_open_dirs_push(before, ActionView::Inspect { source: p });
        lemma_subtree_is_closed(children[i], p, q, inspected);
        lemma_children_are_closed(names, children, source, dest, i + 1, inspected + acts);
        assert(before + visits =~= (inspected + acts) + later);
        if forall|j: int| i <= j < children.len() ==> (#[trigger] children[j]).idle() {
            assert(children[i].idle());
            assert forall|k: int| 0 <= k < visits.len() implies !writes_entry(
                #[trigger] visits[k],
            ) by {
                if 1 <= k < 1 + acts.len() {
                    assert(visits[k] == acts[k - 1]);
                } else if k >= 1 + acts.len() {
                    assert(visits[k] == later[k - 1 - acts.len()]);
                }
            }
        }
    } else {
        assert(before + visits =~= before);
    }
}

} // verus!
