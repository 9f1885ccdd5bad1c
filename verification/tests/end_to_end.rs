//! Whole runs of the engine. A small driver performs the actions on a tree
//! kept in memory and reports back, as a driver on a real file system
//! would.

use babycancer::config::{Config, FileConfig, OutputConfig, PathConfig};
use babycancer::engine::{Engine, Stage};
use babycancer::filter::{ConfigError, EntryMeta, FileKind};
use babycancer::protocol::{
    AbortReason, Action, DeviceKind, EntryOutcome, Event, FailReason, Record, RunOutcome,
    SkipReason, Warning,
};
use std::collections::BTreeMap;
use std::io::{Read, Write};
use std::path::Path;

#[derive(Clone, Debug, PartialEq, Eq)]
enum Node {
    Dir,
    File(Vec<u8>),
    Symlink(String),
    Fifo { mode: u32 },
    Device { kind: DeviceKind, mode: u32, rdev: u64 },
}

/// A file system in memory: absolute paths and what is at them.
#[derive(Clone, Debug, PartialEq, Eq)]
struct Store {
    nodes: BTreeMap<String, Node>,
    /// Directories that cannot be listed.
    unlistable: Vec<String>,
}

fn parent_of(path: &str) -> String {
    Path::new(path).parent().unwrap().to_string_lossy().into_owned()
}

impl Store {
    fn new() -> Store {
        let mut nodes = BTreeMap::new();
        nodes.insert("/".to_string(), Node::Dir);
        Store { nodes, unlistable: Vec::new() }
    }

    fn mkdir_all(&mut self, path: &str) -> bool {
        if path != "/" && !self.mkdir_all(&parent_of(path)) {
            return false;
        }
        match self.nodes.get(path) {
            Some(Node::Dir) => true,
            Some(_) => false,
            None => {
                self.nodes.insert(path.to_string(), Node::Dir);
                true
            }
        }
    }

    fn put(&mut self, path: &str, node: Node) {
        assert!(self.mkdir_all(&parent_of(path)));
        self.nodes.insert(path.to_string(), node);
    }

    fn file(&mut self, path: &str, bytes: &[u8]) {
        self.put(path, Node::File(bytes.to_vec()));
    }

    fn is_dir(&self, path: &str) -> bool {
        self.nodes.get(path) == Some(&Node::Dir)
    }

    fn children(&self, dir: &str) -> Vec<String> {
        self.nodes
            .keys()
            .filter(|p| p.as_str() != "/" && parent_of(p) == dir)
            .map(|p| Path::new(p).file_name().unwrap().to_string_lossy().into_owned())
            .collect()
    }

    /// Every path below `root`, relative to it, in order.
    fn tree(&self, root: &str) -> Vec<String> {
        self.nodes
            .keys()
            .filter_map(|p| Path::new(p).strip_prefix(root).ok())
            .map(|p| p.to_string_lossy().into_owned())
            .filter(|p| !p.is_empty())
            .collect()
    }

    fn bytes(&self, path: &str) -> Vec<u8> {
        match self.nodes.get(path) {
            Some(Node::File(b)) => b.clone(),
            other => panic!("{} is not a file: {:?}", path, other),
        }
    }

    /// Where a path leads once a link at it is followed (one step is all
    /// that these tests need).
    fn resolve(&self, path: &str) -> Option<&Node> {
        match self.nodes.get(path) {
            Some(Node::Symlink(target)) => {
                let full = Path::new(&parent_of(path)).join(target);
                self.nodes.get(full.to_string_lossy().as_ref())
            }
            other => other,
        }
    }

    fn meta(&self, path: &str) -> Option<EntryMeta> {
        let (kind, size, mode, rdev) = match self.nodes.get(path)? {
            Node::Dir => (FileKind::Directory, 0, 0o040755, 0),
            Node::File(b) => (FileKind::Regular, b.len() as u64, 0o100644, 0),
            Node::Symlink(t) => (FileKind::Symlink, t.len() as u64, 0o120777, 0),
            Node::Fifo { mode } => (FileKind::Fifo, 0, 0o010000 | mode, 0),
            Node::Device { kind: DeviceKind::Char, mode, rdev } => {
                (FileKind::CharDevice, 0, 0o020000 | mode, *rdev)
            }
            Node::Device { kind: DeviceKind::Block, mode, rdev } => {
                (FileKind::BlockDevice, 0, 0o060000 | mode, *rdev)
            }
        };
        Some(EntryMeta {
            kind,
            size,
            modified_secs: 1_672_574_400,
            modified_nanos: 0,
            uid: 0,
            mode,
            rdev,
        })
    }

    fn replace(&mut self, dest: &str, node: Node) -> bool {
        if self.is_dir(dest) || !self.is_dir(&parent_of(dest)) {
            return false;
        }
        self.nodes.insert(dest.to_string(), node);
        true
    }

    /// The files below `source` as a tar archive, gzip-compressed on demand.
    fn archive(&self, source: &str, compress: bool) -> Vec<u8> {
        let mut builder = tar::Builder::new(Vec::new());
        for name in self.tree(source) {
            let full = Path::new(source).join(&name).to_string_lossy().into_owned();
            if let Some(Node::File(bytes)) = self.nodes.get(&full) {
                let mut header = tar::Header::new_gnu();
                header.set_size(bytes.len() as u64);
                header.set_mode(0o644);
                header.set_cksum();
                builder.append_data(&mut header, &name, bytes.as_slice()).unwrap();
            }
        }
        let plain = builder.into_inner().unwrap();
        if compress {
            let mut encoder =
                flate2::write::GzEncoder::new(Vec::new(), flate2::Compression::default());
            encoder.write_all(&plain).unwrap();
            encoder.finish().unwrap()
        } else {
            plain
        }
    }
}

fn done(ok: bool) -> Event {
    if ok {
        Event::Succeeded
    } else {
        Event::Failed
    }
}

fn perform(store: &mut Store, action: &Action) -> Event {
    match action {
        Action::CheckSource { path } => done(store.is_dir(path)),
        Action::PrepareDestination { path } => {
            if store.is_dir(path) {
                if store.children(path).is_empty() {
                    Event::Succeeded
                } else {
                    Event::FoundNotEmpty
                }
            } else {
                done(store.mkdir_all(path))
            }
        }
        Action::WriteArchive { source, archive, compress } => {
            let bytes = store.archive(source, *compress);
            done(store.replace(archive, Node::File(bytes)))
        }
        Action::List { source } => {
            if store.is_dir(source) && !store.unlistable.contains(source) {
                Event::Listed(store.children(source))
            } else {
                Event::ListFailed
            }
        }
        Action::Inspect { source } => match store.meta(source) {
            Some(meta) => Event::Inspected(meta),
            None => Event::InspectFailed,
        },
        Action::MakeDir { dest } => done(store.mkdir_all(dest)),
        Action::CopyFile { source, dest } => match store.resolve(source).cloned() {
            Some(Node::File(bytes)) => done(store.replace(dest, Node::File(bytes))),
            _ => Event::Failed,
        },
        Action::Relink { source, dest } => match store.nodes.get(source.as_str()).cloned() {
            Some(Node::Symlink(target)) => done(store.replace(dest, Node::Symlink(target))),
            _ => Event::Failed,
        },
        Action::MakeFifo { dest, mode } => done(store.replace(dest, Node::Fifo { mode: *mode })),
        Action::MakeDevice { dest, kind, mode, rdev } => {
            done(store.replace(dest, Node::Device { kind: *kind, mode: *mode, rdev: *rdev }))
        }
        Action::Prune { dest } => {
            if store.is_dir(dest) && store.children(dest).is_empty() {
                store.nodes.remove(dest.as_str());
            }
            Event::Succeeded
        }
        Action::Finish(_) => Event::Succeeded,
    }
}

struct Run {
    outcome: RunOutcome,
    records: Vec<Record>,
    actions: Vec<Action>,
    warnings: Vec<Warning>,
}

/// Drives a run to its end. `before` is called on each action before it is
/// performed and may change the tree.
fn drive(store: &mut Store, config: &Config, before: &dyn Fn(&mut Store, &Action)) -> Run {
    let mut engine = Engine::new(config).expect("usable configuration");
    assert_eq!(engine.stage(), Stage::Idle);
    assert_eq!(engine.outcome(), None);
    let mut run = Run {
        outcome: RunOutcome::Completed,
        records: Vec::new(),
        actions: Vec::new(),
        warnings: Vec::new(),
    };
    let mut event = Event::Begin;
    loop {
        let step = engine.advance(event);
        if let Some(record) = step.record {
            run.records.push(record);
        }
        if let Some(warning) = step.warning {
            run.warnings.push(warning);
        }
        run.actions.push(step.action.clone());
        if let Action::Finish(outcome) = step.action {
            run.outcome = outcome;
            assert_eq!(engine.stage(), Stage::Done);
            assert_eq!(engine.outcome(), Some(outcome));
            return run;
        }
        before(store, &step.action);
        event = perform(store, &step.action);
    }
}

fn run(store: &mut Store, config: &Config) -> Run {
    drive(store, config, &|_, _| {})
}

fn config(file_config: FileConfig, tar: bool, gzip: bool) -> Config {
    Config {
        path_config: PathConfig { source_path: "/src".to_string(), dest_path: "/dest".to_string() },
        file_config,
        output_config: OutputConfig { tar, gzip },
    }
}

fn no_filter() -> FileConfig {
    FileConfig { file_path: None, file_name: None, date: None, size: None, user: None }
}

fn mirror(filter: FileConfig) -> Config {
    config(filter, false, false)
}

fn outcome_of(run: &Run, path: &str) -> Option<EntryOutcome> {
    run.records.iter().find(|r| r.path == path).map(|r| r.outcome)
}

fn strings(items: &[&str]) -> Vec<String> {
    items.iter().map(|s| s.to_string()).collect()
}

#[test]
fn name_pattern_keeps_only_matching_files() {
    let mut store = Store::new();
    store.file("/src/a.txt", b"0123456789");
    store.file("/src/b.log", b"0123456789");
    let filter = FileConfig { file_name: Some(".*\\.txt$".to_string()), ..no_filter() };
    let run = run(&mut store, &mirror(filter));
    assert_eq!(run.outcome, RunOutcome::Completed);
    assert_eq!(store.tree("/dest"), strings(&["a.txt"]));
    assert_eq!(store.bytes("/dest/a.txt"), b"0123456789".to_vec());
    assert_eq!(outcome_of(&run, "/src/a.txt"), Some(EntryOutcome::Copied));
    assert_eq!(
        outcome_of(&run, "/src/b.log"),
        Some(EntryOutcome::Skipped(SkipReason::Filtered))
    );
    assert_eq!(
        run.actions,
        vec![
            Action::CheckSource { path: "/src".to_string() },
            Action::PrepareDestination { path: "/dest".to_string() },
            Action::List { source: "/src".to_string() },
            Action::Inspect { source: "/src/a.txt".to_string() },
            Action::CopyFile { source: "/src/a.txt".to_string(), dest: "/dest/a.txt".to_string() },
            Action::Inspect { source: "/src/b.log".to_string() },
            Action::Finish(RunOutcome::Completed),
        ]
    );
}

#[test]
fn min_size_skips_smaller_file() {
    let mut store = Store::new();
    store.file("/src/small.bin", &[7u8; 500]);
    let filter = FileConfig { size: Some(1024), ..no_filter() };
    let run = run(&mut store, &mirror(filter));
    assert_eq!(run.outcome, RunOutcome::Completed);
    assert!(store.tree("/dest").is_empty());
    assert_eq!(
        outcome_of(&run, "/src/small.bin"),
        Some(EntryOutcome::Skipped(SkipReason::Filtered))
    );
}

#[test]
fn min_size_is_inclusive_and_zero_asks_nothing() {
    let mut store = Store::new();
    store.file("/src/exact.bin", &[7u8; 1024]);
    store.file("/src/short.bin", &[7u8; 1023]);
    let mut with_limit = store.clone();
    let limited = run(&mut with_limit, &mirror(FileConfig { size: Some(1024), ..no_filter() }));
    assert_eq!(limited.outcome, RunOutcome::Completed);
    assert_eq!(with_limit.tree("/dest"), strings(&["exact.bin"]));
    let mut with_zero = store.clone();
    run(&mut with_zero, &mirror(FileConfig { size: Some(0), ..no_filter() }));
    assert_eq!(with_zero.tree("/dest"), strings(&["exact.bin", "short.bin"]));
    let mut with_negative = store.clone();
    run(&mut with_negative, &mirror(FileConfig { size: Some(-5), ..no_filter() }));
    assert_eq!(with_negative.tree("/dest"), strings(&["exact.bin", "short.bin"]));
}

#[test]
fn subtree_without_selected_entries_leaves_no_directory() {
    let mut store = Store::new();
    store.file("/src/logs/a.log", b"x");
    store.file("/src/logs/old/b.log", b"x");
    store.file("/src/docs/readme.txt", b"hello");
    assert!(store.mkdir_all("/src/empty"));
    let filter = FileConfig { file_name: Some("\\.txt$".to_string()), ..no_filter() };
    let run = run(&mut store, &mirror(filter));
    assert_eq!(run.outcome, RunOutcome::Completed);
    assert_eq!(store.tree("/dest"), strings(&["docs", "docs/readme.txt"]));
    let made: Vec<&Action> =
        run.actions.iter().filter(|a| matches!(a, Action::MakeDir { .. })).collect();
    let pruned: Vec<&Action> =
        run.actions.iter().filter(|a| matches!(a, Action::Prune { .. })).collect();
    assert_eq!(
        made,
        vec![
            &Action::MakeDir { dest: "/dest/docs".to_string() },
            &Action::MakeDir { dest: "/dest/empty".to_string() },
            &Action::MakeDir { dest: "/dest/logs".to_string() },
            &Action::MakeDir { dest: "/dest/logs/old".to_string() },
        ]
    );
    // Innermost first: a directory is pruned once its own walk is over.
    assert_eq!(
        pruned,
        vec![
            &Action::Prune { dest: "/dest/docs".to_string() },
            &Action::Prune { dest: "/dest/empty".to_string() },
            &Action::Prune { dest: "/dest/logs/old".to_string() },
            &Action::Prune { dest: "/dest/logs".to_string() },
        ]
    );
}

#[test]
fn second_run_leaves_the_same_tree() {
    let mut store = Store::new();
    store.file("/src/one.txt", b"one");
    store.file("/src/sub/two.txt", b"two");
    store.put("/src/link", Node::Symlink("one.txt".to_string()));
    // Something already in the destination is overwritten, not added to.
    store.file("/dest/one.txt", b"stale content");
    let cfg = mirror(no_filter());
    let first = run(&mut store, &cfg);
    let after_first = store.clone();
    let second = run(&mut store, &cfg);
    assert_eq!(first.outcome, RunOutcome::Completed);
    assert_eq!(second.outcome, RunOutcome::Completed);
    assert_eq!(first.warnings, vec![Warning::DestinationNotEmpty]);
    assert_eq!(second.warnings, vec![Warning::DestinationNotEmpty]);
    assert_eq!(first.actions, second.actions);
    assert_eq!(first.records, second.records);
    assert_eq!(store, after_first);
    assert_eq!(store.tree("/dest"), strings(&["link", "one.txt", "sub", "sub/two.txt"]));
    assert_eq!(store.bytes("/dest/one.txt"), b"one".to_vec());
    assert_eq!(store.bytes("/dest/sub/two.txt"), b"two".to_vec());
}

#[test]
fn symbolic_link_keeps_its_target() {
    let mut store = Store::new();
    store.file("/src/data.txt", b"payload");
    store.file("/src/real_dir/inner.txt", b"inner");
    store.put("/src/to_file", Node::Symlink("data.txt".to_string()));
    store.put("/src/to_dir", Node::Symlink("real_dir".to_string()));
    store.put("/src/dangling", Node::Symlink("/nowhere/at/all".to_string()));
    let run = run(&mut store, &mirror(no_filter()));
    assert_eq!(run.outcome, RunOutcome::Completed);
    for (name, target) in
        [("to_file", "data.txt"), ("to_dir", "real_dir"), ("dangling", "/nowhere/at/all")]
    {
        assert_eq!(
            store.nodes.get(&format!("/dest/{}", name)),
            Some(&Node::Symlink(target.to_string()))
        );
        assert_eq!(
            outcome_of(&run, &format!("/src/{}", name)),
            Some(EntryOutcome::SymlinkRecreated)
        );
    }
    // A link to a directory is not walked: nothing below it is listed.
    assert!(!run.actions.contains(&Action::List { source: "/src/to_dir".to_string() }));
    assert!(!run.actions.iter().any(|a| matches!(
        a,
        Action::CopyFile { source, .. } if source.as_str() == "/src/to_file"
    )));
}

#[test]
fn special_nodes_are_recreated_as_what_they_are() {
    let mut store = Store::new();
    store.put("/src/pipe", Node::Fifo { mode: 0o644 });
    store.put("/src/tty", Node::Device { kind: DeviceKind::Char, mode: 0o620, rdev: 0x8801 });
    store.put("/src/disk", Node::Device { kind: DeviceKind::Block, mode: 0o4660, rdev: 0x0800 });
    let run = run(&mut store, &mirror(no_filter()));
    assert_eq!(run.outcome, RunOutcome::Completed);
    // A pipe gets fixed owner-only bits, whatever the source had.
    assert_eq!(store.nodes.get("/dest/pipe"), Some(&Node::Fifo { mode: 0o700 }));
    // A device keeps its kind, its permission bits and its device number;
    // the file type bits are not part of the permission bits.
    assert_eq!(
        store.nodes.get("/dest/tty"),
        Some(&Node::Device { kind: DeviceKind::Char, mode: 0o620, rdev: 0x8801 })
    );
    assert_eq!(
        store.nodes.get("/dest/disk"),
        Some(&Node::Device { kind: DeviceKind::Block, mode: 0o4660, rdev: 0x0800 })
    );
    for name in ["pipe", "tty", "disk"] {
        assert_eq!(
            outcome_of(&run, &format!("/src/{}", name)),
            Some(EntryOutcome::SpecialNodeRecreated)
        );
    }
}

/// The files of a tar archive, by name.
fn unpack(bytes: &[u8], compressed: bool) -> BTreeMap<String, Vec<u8>> {
    let mut plain = Vec::new();
    if compressed {
        flate2::read::GzDecoder::new(bytes).read_to_end(&mut plain).unwrap();
    } else {
        plain = bytes.to_vec();
    }
    assert!(!plain.is_empty());
    let mut files = BTreeMap::new();
    let mut archive = tar::Archive::new(plain.as_slice());
    for entry in archive.entries().unwrap() {
        let mut entry = entry.unwrap();
        let name = entry.path().unwrap().to_string_lossy().into_owned();
        let mut content = Vec::new();
        entry.read_to_end(&mut content).unwrap();
        files.insert(name, content);
    }
    files
}

#[test]
fn archive_holds_both_files() {
    let mut store = Store::new();
    store.file("/src/first.txt", b"first file");
    store.file("/src/second.bin", &[0u8, 1, 2, 3, 255]);
    // The filter is not consulted in archive mode.
    let filter = FileConfig { file_name: Some("\\.txt$".to_string()), ..no_filter() };
    let run = run(&mut store, &config(filter, true, false));
    assert_eq!(run.outcome, RunOutcome::Completed);
    assert_eq!(store.tree("/dest"), strings(&["backup.tar"]));
    assert!(run.records.is_empty());
    assert_eq!(
        run.actions,
        vec![
            Action::CheckSource { path: "/src".to_string() },
            Action::PrepareDestination { path: "/dest".to_string() },
            Action::WriteArchive {
                source: "/src".to_string(),
                archive: "/dest/backup.tar".to_string(),
                compress: false
            },
            Action::Finish(RunOutcome::Completed),
        ]
    );
    let files = unpack(&store.bytes("/dest/backup.tar"), false);
    assert_eq!(files.len(), 2);
    assert_eq!(files["first.txt"], b"first file".to_vec());
    assert_eq!(files["second.bin"], vec![0u8, 1, 2, 3, 255]);
}

#[test]
fn compressed_archive_reproduces_the_tree() {
    let mut store = Store::new();
    store.file("/src/top.txt", b"top");
    store.file("/src/nested/deep.txt", b"deep");
    let run = run(&mut store, &config(no_filter(), true, true));
    assert_eq!(run.outcome, RunOutcome::Completed);
    assert_eq!(store.tree("/dest"), strings(&["backup.tar.gz"]));
    assert!(run.actions.contains(&Action::WriteArchive {
        source: "/src".to_string(),
        archive: "/dest/backup.tar.gz".to_string(),
        compress: true
    }));
    let bytes = store.bytes("/dest/backup.tar.gz");
    assert_eq!(&bytes[..2], &[0x1f, 0x8b]);
    let files = unpack(&bytes, true);
    assert_eq!(files.len(), 2);
    assert_eq!(files["top.txt"], b"top".to_vec());
    assert_eq!(files["nested/deep.txt"], b"deep".to_vec());
}

#[test]
fn failed_archive_aborts_the_run() {
    let mut store = Store::new();
    store.file("/src/a.txt", b"a");
    // The archive's place is taken by a directory.
    assert!(store.mkdir_all("/dest/backup.tar"));
    let run = run(&mut store, &config(no_filter(), true, false));
    assert_eq!(run.outcome, RunOutcome::Aborted(AbortReason::ArchiveFailed));
    assert_eq!(run.warnings, vec![Warning::DestinationNotEmpty]);
}

#[test]
fn entry_broken_before_copy_fails_alone() {
    let mut store = Store::new();
    store.file("/src/a.txt", b"a");
    store.file("/src/b.txt", b"b");
    store.file("/src/c.txt", b"c");
    let run = drive(&mut store, &mirror(no_filter()), &|store, action| {
        if let Action::CopyFile { source, .. } = action {
            if source.as_str() == "/src/b.txt" {
                store.put("/src/b.txt", Node::Symlink("/nowhere/at/all".to_string()));
            }
        }
    });
    assert_eq!(run.outcome, RunOutcome::CompletedWithFailures(1));
    assert_eq!(outcome_of(&run, "/src/a.txt"), Some(EntryOutcome::Copied));
    assert_eq!(
        outcome_of(&run, "/src/b.txt"),
        Some(EntryOutcome::Failed(FailReason::CopyFailed))
    );
    assert_eq!(outcome_of(&run, "/src/c.txt"), Some(EntryOutcome::Copied));
    assert_eq!(store.tree("/dest"), strings(&["a.txt", "c.txt"]));
}

#[test]
fn entry_that_vanishes_before_inspection_fails_alone() {
    let mut store = Store::new();
    store.file("/src/a.txt", b"a");
    store.file("/src/gone.txt", b"g");
    store.file("/src/z.txt", b"z");
    let run = drive(&mut store, &mirror(no_filter()), &|store, action| {
        if *action == (Action::Inspect { source: "/src/gone.txt".to_string() }) {
            store.nodes.remove("/src/gone.txt");
        }
    });
    assert_eq!(run.outcome, RunOutcome::CompletedWithFailures(1));
    assert_eq!(
        outcome_of(&run, "/src/gone.txt"),
        Some(EntryOutcome::Failed(FailReason::Unreadable))
    );
    assert_eq!(store.tree("/dest"), strings(&["a.txt", "z.txt"]));
}

#[test]
fn missing_source_aborts_before_anything_is_written() {
    let mut store = Store::new();
    let run = run(&mut store, &mirror(no_filter()));
    assert_eq!(run.outcome, RunOutcome::Aborted(AbortReason::SourceInvalid));
    assert!(!store.nodes.contains_key("/dest"));
    assert_eq!(
        run.actions,
        vec![
            Action::CheckSource { path: "/src".to_string() },
            Action::Finish(RunOutcome::Aborted(AbortReason::SourceInvalid)),
        ]
    );
}

#[test]
fn source_that_is_a_file_aborts() {
    let mut store = Store::new();
    store.file("/src", b"not a directory");
    let run = run(&mut store, &mirror(no_filter()));
    assert_eq!(run.outcome, RunOutcome::Aborted(AbortReason::SourceInvalid));
}

#[test]
fn destination_that_is_a_file_aborts() {
    let mut store = Store::new();
    store.file("/src/a.txt", b"a");
    store.file("/dest", b"in the way");
    let run = run(&mut store, &mirror(no_filter()));
    assert_eq!(run.outcome, RunOutcome::Aborted(AbortReason::DestinationInvalid));
    assert_eq!(store.bytes("/dest"), b"in the way".to_vec());
}

#[test]
fn missing_destination_is_created_without_warning() {
    let mut store = Store::new();
    store.file("/src/a.txt", b"a");
    let run = run(&mut store, &mirror(no_filter()));
    assert_eq!(run.outcome, RunOutcome::Completed);
    assert!(run.warnings.is_empty());
    assert_eq!(store.tree("/dest"), strings(&["a.txt"]));
}

#[test]
fn unlistable_directory_aborts_after_what_came_before() {
    let mut store = Store::new();
    store.file("/src/a.txt", b"a");
    store.file("/src/locked/secret.txt", b"s");
    store.file("/src/z.txt", b"z");
    store.unlistable.push("/src/locked".to_string());
    let run = run(&mut store, &mirror(no_filter()));
    assert_eq!(run.outcome, RunOutcome::Aborted(AbortReason::ListingFailed));
    // What was walked before the failure stays; nothing after it is touched.
    assert_eq!(store.tree("/dest"), strings(&["a.txt", "locked"]));
    assert_eq!(outcome_of(&run, "/src/z.txt"), None);
}

#[test]
fn sub_path_constraint_keeps_one_subtree() {
    let mut store = Store::new();
    store.file("/src/keep/in.txt", b"in");
    store.file("/src/keep/deeper/too.txt", b"too");
    store.file("/src/keeper/out.txt", b"out");
    store.file("/src/top.txt", b"top");
    let filter = FileConfig { file_path: Some("keep".to_string()), ..no_filter() };
    let run = run(&mut store, &mirror(filter));
    assert_eq!(run.outcome, RunOutcome::Completed);
    // Whole components only: `keeper` is not under `keep`.
    assert_eq!(
        store.tree("/dest"),
        strings(&["keep", "keep/deeper", "keep/deeper/too.txt", "keep/in.txt"])
    );
}

#[test]
fn unusable_configuration_fails_before_the_first_action() {
    let bad_pattern = FileConfig { file_name: Some("[unclosed".to_string()), ..no_filter() };
    assert_eq!(Engine::new(&mirror(bad_pattern)).err(), Some(ConfigError::InvalidPattern));
    let bad_date = FileConfig { date: Some("yesterday".to_string()), ..no_filter() };
    assert_eq!(Engine::new(&mirror(bad_date)).err(), Some(ConfigError::InvalidDate));
    // Archive mode checks the configuration all the same.
    let bad_pattern = FileConfig { file_name: Some("(".to_string()), ..no_filter() };
    assert_eq!(
        Engine::new(&config(bad_pattern, true, true)).err(),
        Some(ConfigError::InvalidPattern)
    );
}

#[test]
fn event_out_of_turn_ends_the_run() {
    let mut engine = Engine::new(&mirror(no_filter())).unwrap();
    let step = engine.advance(Event::Listed(vec![]));
    assert_eq!(step.action, Action::Finish(RunOutcome::Aborted(AbortReason::OutOfTurn)));
    // A finished run answers every further event with its outcome.
    let again = engine.advance(Event::Begin);
    assert_eq!(again.action, Action::Finish(RunOutcome::Aborted(AbortReason::OutOfTurn)));
    assert_eq!(engine.outcome(), Some(RunOutcome::Aborted(AbortReason::OutOfTurn)));
}
