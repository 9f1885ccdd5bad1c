//! The configuration that a run is built from, and the rules by which the
//! `config` and `reset` commands change it.

use crate::document::{
    document_text, has_key, new_table, put_flag, put_integer, put_section, put_text,
    render_document, table_entries, Setting,
};
use crate::filter::{config_error, ConfigError, Filter};
use crate::paths::{join_path, joined_path};
use toml_edit::Table;
use vstd::prelude::*;

verus! {

/// Where to read from and where to write to.
#[derive(Clone, Debug, PartialEq, Eq)]
pub struct PathConfig {
    pub source_path: String,
    pub dest_path: String,
}

/// Which entries are selected. Every field is optional, and an absent field
/// selects everything.
#[derive(Clone, Debug, PartialEq, Eq)]
pub struct FileConfig {
    pub file_path: Option<String>,
    pub file_name: Option<String>,
    pub date: Option<String>,
    pub size: Option<i64>,
    pub user: Option<String>,
}

/// How the result is laid down: mirrored as a tree, or packed into one
/// archive, which may be compressed.
#[derive(Clone, Copy, Debug, PartialEq, Eq, Structural)]
pub struct OutputConfig {
    pub tar: bool,
    pub gzip: bool,
}

/// Everything a run is built from.
#[derive(Clone, Debug, PartialEq, Eq)]
pub struct Config {
    pub path_config: PathConfig,
    pub file_config: FileConfig,
    pub output_config: OutputConfig,
}

/// What the `config` command was given.
#[derive(Clone, Debug, PartialEq, Eq)]
pub struct ConfigArgs {
    pub config_path: Option<String>,
    pub source_path: Option<String>,
    pub dest_path: Option<String>,
    pub file_name: Option<String>,
    pub file_path: Option<String>,
    pub date: Option<String>,
    pub size: Option<i64>,
    pub user: Option<String>,
    pub tar: Option<bool>,
    pub gzip: Option<bool>,
    pub output: bool,
}

/// What the `reset` command was given: one flag per setting, and `all`.
#[derive(Clone, Debug, PartialEq, Eq)]
pub struct ResetArgs {
    pub config_path: Option<String>,
    pub source_path: bool,
    pub dest_path: bool,
    pub file_name: bool,
    pub file_path: bool,
    pub date: bool,
    pub size: bool,
    pub user: bool,
    pub tar: bool,
    pub gzip: bool,
    pub all: bool,
}

/// `new` where a value was given, `current` otherwise.
pub open spec fn replaced<T>(current: T, new: Option<T>) -> T {
    match new {
        Some(v) => v,
        None => current,
    }
}

/// `new` where a value was given, `current` otherwise.
pub open spec fn overlaid<T>(current: Option<T>, new: Option<T>) -> Option<T> {
    match new {
        Some(v) => Some(v),
        None => current,
    }
}

/// `None` where the setting is reset, `current` otherwise.
pub open spec fn cleared<T>(current: Option<T>, reset: bool) -> Option<T> {
    if reset {
        None
    } else {
        current
    }
}

fn overlay_text(current: &mut Option<String>, new: &Option<String>)
    ensures
        *final(current) == overlaid(*old(current), *new),
{
    match new {
        Some(v) => {
            *current = Some(v.clone());
        },
        None => {},
    }
}

/// Default source directory below the home directory.
pub open spec fn default_source(home: Seq<char>) -> Seq<char> {
    joined_path(home, ".config/babycancer/source"@)
}

/// Default destination directory below the home directory.
pub open spec fn default_dest(home: Seq<char>) -> Seq<char> {
    joined_path(home, ".config/babycancer/dest"@)
}

impl PathConfig {
    /// The two default directories below `home`.
    pub fn initialize(home: &str) -> (r: PathConfig)
        ensures
            r.source_path@ == default_source(home@),
            r.dest_path@ == default_dest(home@),
    {
        PathConfig {
            source_path: join_path(home, ".config/babycancer/source"),
            dest_path: join_path(home, ".config/babycancer/dest"),
        }
    }

    pub open spec fn updated(self, args: ConfigArgs) -> PathConfig {
        PathConfig {
            source_path: replaced(self.source_path, args.source_path),
            dest_path: replaced(self.dest_path, args.dest_path),
        }
    }

    /// Takes over each directory that `args` names.
    pub fn update(&mut self, args: &ConfigArgs)
        ensures
            *final(self) == old(self).updated(*args),
    {
        match &args.source_path {
            Some(p) => {
                self.source_path = p.clone();
            },
            None => {},
        }
        match &args.dest_path {
            Some(p) => {
                self.dest_path = p.clone();
            },
            None => {},
        }
    }

    /// Puts each directory that `args` names, or both under `all`, back to
    /// its default below `home`.
    pub fn reset(&mut self, args: &ResetArgs, home: &str)
        ensures
            final(self).source_path@ == if args.source_path || args.all {
                default_source(home@)
            } else {
                old(self).source_path@
            },
            final(self).dest_path@ == if args.dest_path || args.all {
                default_dest(home@)
            } else {
                old(self).dest_path@
            },
    {
        if args.source_path || args.all {
            self.source_path = join_path(home, ".config/babycancer/source");
        }
        if args.dest_path || args.all {
            self.dest_path = join_path(home, ".config/babycancer/dest");
        }
    }
}

impl FileConfig {
    /// The filter that selects everything.
    pub fn initialize() -> (r: FileConfig)
        ensures
            r == FileConfig::unconstrained(),
    {
        FileConfig { file_path: None, file_name: None, date: None, size: None, user: None }
    }

    pub open spec fn unconstrained() -> FileConfig {
        FileConfig { file_path: None, file_name: None, date: None, size: None, user: None }
    }

    pub open spec fn updated(self, args: ConfigArgs) -> FileConfig {
        FileConfig {
            file_path: overlaid(self.file_path, args.file_path),
            file_name: overlaid(self.file_name, args.file_name),
            date: overlaid(self.date, args.date),
            size: overlaid(self.size, args.size),
            user: overlaid(self.user, args.user),
        }
    }

    /// Takes over each constraint that `args` names; the others stay.
    pub fn update(&mut self, args: &ConfigArgs)
        ensures
            *final(self) == old(self).updated(*args),
    {
        overlay_text(&mut self.file_path, &args.file_path);
        overlay_text(&mut self.file_name, &args.file_name);
        overlay_text(&mut self.date, &args.date);
        match args.size {
            Some(n) => {
                self.size = Some(n);
            },
            None => {},
        }
        overlay_text(&mut self.user, &args.user);
    }

    pub open spec fn after_reset(self, args: ResetArgs) -> FileConfig {
        FileConfig {
            file_path: cleared(self.file_path, args.file_path || args.all),
            file_name: cleared(self.file_name, args.file_name || args.all),
            date: cleared(self.date, args.date || args.all),
            size: cleared(self.size, args.size || args.all),
            user: cleared(self.user, args.user || args.all),
        }
    }

    /// Drops each constraint that `args` names, or all of them under `all`.
    pub fn reset(&mut self, args: &ResetArgs)
        ensures
            *final(self) == old(self).after_reset(*args),
    {
        if args.file_path || args.all {
            self.file_path = None;
        }
        if args.file_name || args.all {
            self.file_name = None;
        }
        if args.date || args.all {
            self.date = None;
        }
        if args.size || args.all {
            self.size = None;
        }
        if args.user || args.all {
            self.user = None;
        }
    }
}

impl OutputConfig {
    /// A mirrored tree, uncompressed.
    pub fn initialize() -> (r: OutputConfig)
        ensures
            r == (OutputConfig { tar: false, gzip: false }),
    {
        OutputConfig { tar: false, gzip: false }
    }

    pub open spec fn updated(self, args: ConfigArgs) -> OutputConfig {
        OutputConfig { tar: replaced(self.tar, args.tar), gzip: replaced(self.gzip, args.gzip) }
    }

    /// Takes over each flag that `args` names.
    pub fn update(&mut self, args: &ConfigArgs)
        ensures
            *final(self) == old(self).updated(*args),
    {
        match args.tar {
            Some(t) => {
                self.tar = t;
            },
            None => {},
        }
        match args.gzip {
            Some(g) => {
                self.gzip = g;
            },
            None => {},
        }
    }

    pub open spec fn after_reset(self, args: ResetArgs) -> OutputConfig {
        OutputConfig {
            tar: self.tar && !(args.tar || args.all),
            gzip: self.gzip && !(args.gzip || args.all),
        }
    }

    /// Switches off each flag that `args` names, or both under `all`.
    pub fn reset(&mut self, args: &ResetArgs)
        ensures
            *final(self) == old(self).after_reset(*args),
    {
        if args.tar || args.all {
            self.tar = false;
        }
        if args.gzip || args.all {
            self.gzip = false;
        }
    }
}

/// The configuration file used when none was named, below the home
/// directory.
pub open spec fn default_config_file(home: Seq<char>) -> Seq<char> {
    joined_path(home, ".config/rustbackup/config.toml"@)
}

impl Config {
    /// Whether this is the configuration that a new file below `home`
    /// starts with: the default directories, no filter, a mirrored tree.
    pub open spec fn is_initial(self, home: Seq<char>) -> bool {
        &&& self.path_config.source_path@ == default_source(home)
        &&& self.path_config.dest_path@ == default_dest(home)
        &&& self.file_config == FileConfig::unconstrained()
        &&& self.output_config == (OutputConfig { tar: false, gzip: false })
    }

    /// The configuration that a new file below `home` starts with.
    pub fn initialize(home: &str) -> (r: Config)
        ensures
            r.is_initial(home@),
    {
        Config {
            path_config: PathConfig::initialize(home),
            file_config: FileConfig::initialize(),
            output_config: OutputConfig::initialize(),
        }
    }
}

/// Applies the `config` command's arguments to a configuration: every
/// setting that is named takes the new value, every other one stays.
pub fn update_config(config: &mut Config, args: &ConfigArgs)
    ensures
        final(config).path_config == old(config).path_config.updated(*args),
        final(config).file_config == old(config).file_config.updated(*args),
        final(config).output_config == old(config).output_config.updated(*args),
{
    config.path_config.update(args);
    config.file_config.update(args);
    config.output_config.update(args);
}

/// Whether `after` is `before` with the directories that `args` names put
/// back to their defaults below `home`.
pub open spec fn paths_reset(before: PathConfig, args: ResetArgs, home: Seq<char>, after: PathConfig)
    -> bool {
    &&& after.source_path@ == if args.source_path || args.all {
        default_source(home)
    } else {
        before.source_path@
    }
    &&& after.dest_path@ == if args.dest_path || args.all {
        default_dest(home)
    } else {
        before.dest_path@
    }
}

/// Applies the `reset` command's arguments to a configuration: every
/// setting that is named, or every setting under `all`, goes back to its
/// default; the directories go back to their defaults below `home`.
pub fn reset_config(config: &mut Config, args: &ResetArgs, home: &str)
    ensures
        paths_reset(old(config).path_config, *args, home@, final(config).path_config),
        final(config).file_config == old(config).file_config.after_reset(*args),
        final(config).output_config == old(config).output_config.after_reset(*args),
{
    config.path_config.reset(args, home);
    config.file_config.reset(args);
    config.output_config.reset(args);
}

/// `dirs::home_dir`, as text. The home directory comes from the
/// environment, so nothing is known of the result; `None` where the
/// system knows of none.
#[verifier::external_body]
fn home_directory() -> (r: Option<String>) {
    dirs::home_dir().map(|p| p.to_string_lossy().into_owned())
}

/// What the commands of one session share: the configuration file that
/// was last named explicitly.
pub struct Session {
    config_path: Option<String>,
}

impl Session {
    /// The retained configuration file, if one was named.
    pub closed spec fn retained(&self) -> Option<String> {
        self.config_path
    }

    /// A session in which no configuration file was named yet.
    pub fn new() -> (s: Session)
        ensures
            s.retained() is None,
    {
        Session { config_path: None }
    }

    /// Retains `path` for the commands that follow.
    pub fn set_current_config_path(&mut self, path: String)
        ensures
            final(self).retained() == Some(path),
    {
        self.config_path = Some(path);
    }

    /// The retained configuration file, if one was named.
    pub fn get_current_config_path(&self) -> (r: Option<String>)
        ensures
            r == self.retained(),
    {
        match &self.config_path {
            Some(p) => Some(p.clone()),
            None => None,
        }
    }

    /// Retains the file that a command names, if it names one.
    fn retain(&mut self, named: &Option<String>)
        ensures
            final(self).retained() == overlaid(old(self).retained(), *named),
    {
        overlay_text(&mut self.config_path, named);
    }
}

/// Where a command's configuration comes from.
#[derive(Clone, Debug, PartialEq, Eq)]
pub enum ConfigSource {
    /// This file, which must be there to be opened.
    File { path: String },
    /// The default file; where it is missing, it is created with `initial`
    /// as its content.
    Default { path: String, initial: Config },
}

/// The default source of configuration below `home`.
pub fn default_config(home: &str) -> (r: ConfigSource)
    ensures
        r matches ConfigSource::Default { path, initial } && path@ == default_config_file(home@)
            && initial.is_initial(home@),
{
    ConfigSource::Default {
        path: join_path(home, ".config/rustbackup/config.toml"),
        initial: Config::initialize(home),
    }
}

/// Finds the configuration for a command: the file that the command
/// names; else the file retained in the session; else the default file
/// below the home directory. Fails only where the default is needed and no
/// home directory is known.
pub fn get_config(config_path: &Option<String>, session: &Session) -> (r: Result<
    ConfigSource,
    ConfigError,
>)
    ensures
        match r {
            Ok(ConfigSource::File { path }) => Some(path) == overlaid(
                session.retained(),
                *config_path,
            ),
            Ok(ConfigSource::Default { path, initial }) => config_path is None
                && session.retained() is None && exists|home: Seq<char>|
                path@ == default_config_file(home) && #[trigger] initial.is_initial(home),
            Err(e) => config_path is None && session.retained() is None && e
                == ConfigError::NoHomeDirectory,
        },
{
    match config_path {
        Some(p) => {
            return Ok(ConfigSource::File { path: p.clone() });
        },
        None => {},
    }
    match session.get_current_config_path() {
        Some(p) => {
            return Ok(ConfigSource::File { path: p });
        },
        None => {},
    }
    match home_directory() {
        Some(home) => {
            let source = default_config(home.as_str());
            assert(source matches ConfigSource::Default { path, initial } && initial.is_initial(
                home@,
            ));
            Ok(source)
        },
        None => Err(ConfigError::NoHomeDirectory),
    }
}

/// The `config` command, on a configuration that has been read: retains
/// the file that the command names, applies the arguments, and checks the
/// resulting filter. Returns whether the configuration is to be shown. On
/// an error the changed configuration must not be written back.
pub fn command_config(args: &ConfigArgs, session: &mut Session, config: &mut Config) -> (r: Result<
    bool,
    ConfigError,
>)
    ensures
        final(session).retained() == overlaid(old(session).retained(), args.config_path),
        final(config).path_config == old(config).path_config.updated(*args),
        final(config).file_config == old(config).file_config.updated(*args),
        final(config).output_config == old(config).output_config.updated(*args),
        match r {
            Ok(show) => show == args.output && config_error(final(config).file_config) is None,
            Err(e) => config_error(final(config).file_config) == Some(e),
        },
{
    session.retain(&args.config_path);
    update_config(config, args);
    match Filter::compile(&config.file_config) {
        Ok(_) => Ok(args.output),
        Err(e) => Err(e),
    }
}

/// Whether a reset touches a directory, and so needs the home directory.
pub open spec fn resets_paths(args: ResetArgs) -> bool {
    args.source_path || args.dest_path || args.all
}

/// The `reset` command, on a configuration that has been read: retains the
/// file that the command names and puts the named settings back to their
/// defaults. Fails, leaving the configuration as it was, only where a
/// directory is to be reset and no home directory is known.
pub fn command_reset(args: &ResetArgs, session: &mut Session, config: &mut Config) -> (r: Result<
    (),
    ConfigError,
>)
    ensures
        final(session).retained() == overlaid(old(session).retained(), args.config_path),
        match r {
            Ok(_) => {
                &&& final(config).file_config == old(config).file_config.after_reset(*args)
                &&& final(config).output_config == old(config).output_config.after_reset(*args)
                &&& exists|home: Seq<char>| #[trigger]
                    paths_reset(old(config).path_config, *args, home, final(config).path_config)
            },
            Err(e) => resets_paths(*args) && e == ConfigError::NoHomeDirectory && *final(config)
                == *old(config),
        },
{
    session.retain(&args.config_path);
    if args.source_path || args.dest_path || args.all {
        match home_directory() {
            Some(home) => {
                reset_config(config, args, home.as_str());
                assert(paths_reset(
                    old(config).path_config,
                    *args,
                    home@,
                    config.path_config,
                ));
                Ok(())
            },
            None => Err(ConfigError::NoHomeDirectory),
        }
    } else {
        reset_config(config, args, "");
        assert(paths_reset(old(config).path_config, *args, ""@, config.path_config));
        Ok(())
    }
}

/// The entry of an optional text setting: none where it is absent.
pub open spec fn optional_text(key: Seq<char>, value: Option<String>) -> Seq<(Seq<char>, Setting)> {
    match value {
        Some(v) => seq![(key, Setting::Text(v@))],
        None => Seq::empty(),
    }
}

/// The entry of an optional number setting: none where it is absent.
pub open spec fn optional_integer(key: Seq<char>, value: Option<i64>) -> Seq<(Seq<char>, Setting)> {
    match value {
        Some(n) => seq![(key, Setting::Integer(n))],
        None => Seq::empty(),
    }
}

/// The entries of the table that holds the directories.
pub open spec fn path_entries(c: PathConfig) -> Seq<(Seq<char>, Setting)> {
    seq![
        ("source_path"@, Setting::Text(c.source_path@)),
        ("dest_path"@, Setting::Text(c.dest_path@)),
    ]
}

/// The entries of the table that holds the filter: one for each
/// constraint that is present, in a fixed order.
pub open spec fn file_entries(c: FileConfig) -> Seq<(Seq<char>, Setting)> {
    optional_text("file_path"@, c.file_path) + optional_text("file_name"@, c.file_name)
        + optional_text("date"@, c.date) + optional_integer("size"@, c.size) + optional_text(
        "user"@,
        c.user,
    )
}

/// The entries of the table that holds the output flags.
pub open spec fn output_entries(c: OutputConfig) -> Seq<(Seq<char>, Setting)> {
    seq![("tar"@, Setting::Flag(c.tar)), ("gzip"@, Setting::Flag(c.gzip))]
}

/// The entries of the whole document: one table for each part.
pub open spec fn config_entries(c: Config) -> Seq<(Seq<char>, Setting)> {
    seq![
        ("path_config"@, Setting::Section(path_entries(c.path_config))),
        ("file_config"@, Setting::Section(file_entries(c.file_config))),
        ("output_config"@, Setting::Section(output_entries(c.output_config))),
    ]
}

/// Whether every key of `entries` is one of `keys`.
pub open spec fn keys_among(entries: Seq<(Seq<char>, Setting)>, keys: Set<Seq<char>>) -> bool {
    forall|i: int| 0 <= i < entries.len() ==> keys.contains((#[trigger] entries[i]).0)
}

/// Sets `key` in a table that does not have it yet, where a value is
/// given.
fn put_optional_text(table: &mut Table, key: &str, value: &Option<String>)
    requires
        !has_key(table_entries(*old(table)), key@),
    ensures
        table_entries(*final(table)) == table_entries(*old(table)) + optional_text(key@, *value),
{
    match value {
        Some(v) => {
            put_text(table, key, v.as_str());
        },
        None => {},
    }
}

impl PathConfig {
    /// The table that holds the directories.
    pub fn table(&self) -> (t: Table)
        ensures
            table_entries(t) == path_entries(*self),
    {
        let mut t = new_table();
        put_text(&mut t, "source_path", self.source_path.as_str());
        proof {
            reveal_strlit("source_path");
            reveal_strlit("dest_path");
            assert(!has_key(table_entries(t), "dest_path"@)) by {
                assert("source_path"@.len() != "dest_path"@.len());
            }
        }
        put_text(&mut t, "dest_path", self.dest_path.as_str());
        t
    }
}

impl FileConfig {
    /// The table that holds the filter; an absent constraint has no entry.
    pub fn table(&self) -> (t: Table)
        ensures
            table_entries(t) == file_entries(*self),
    {
        proof {
            reveal_strlit("file_path");
            reveal_strlit("file_name");
            reveal_strlit("date");
            reveal_strlit("size");
            reveal_strlit("user");
            assert("file_path"@[5] != "file_name"@[5]);
            assert("date"@[0] != "size"@[0]);
            assert("date"@[0] != "user"@[0]);
            assert("size"@[0] != "user"@[0]);
            assert("file_path"@.len() != "date"@.len());
            assert("file_name"@.len() != "date"@.len());
        }
        let mut t = new_table();
        put_optional_text(&mut t, "file_path", &self.file_path);
        assert(keys_among(table_entries(t), set!["file_path"@]));
        put_optional_text(&mut t, "file_name", &self.file_name);
        assert(keys_among(table_entries(t), set!["file_path"@, "file_name"@]));
        put_optional_text(&mut t, "date", &self.date);
        assert(keys_among(table_entries(t), set!["file_path"@, "file_name"@, "date"@]));
        match self.size {
            Some(n) => {
                put_integer(&mut t, "size", n);
            },
            None => {},
        }
        assert(keys_among(table_entries(t), set!["file_path"@, "file_name"@, "date"@, "size"@]));
        put_optional_text(&mut t, "user", &self.user);
        t
    }
}

impl OutputConfig {
    /// The table that holds the output flags.
    pub fn table(&self) -> (t: Table)
        ensures
            table_entries(t) == output_entries(*self),
    {
        let mut t = new_table();
        put_flag(&mut t, "tar", self.tar);
        proof {
            reveal_strlit("tar");
            reveal_strlit("gzip");
            assert(!has_key(table_entries(t), "gzip"@)) by {
                assert("tar"@.len() != "gzip"@.len());
            }
        }
        put_flag(&mut t, "gzip", self.gzip);
        t
    }
}

impl Config {
    /// The root table of the configuration's document: a table for the
    /// directories, one for the filter and one for the output flags, in
    /// this order.
    pub fn table(&self) -> (t: Table)
        ensures
            table_entries(t) == config_entries(*self),
    {
        proof {
            reveal_strlit("path_config");
            reveal_strlit("file_config");
            reveal_strlit("output_config");
            assert("path_config"@[0] != "file_config"@[0]);
            assert("path_config"@.len() != "output_config"@.len());
            assert("file_config"@.len() != "output_config"@.len());
        }
        let mut t = new_table();
        put_section(&mut t, "path_config", self.path_config.table());
        put_section(&mut t, "file_config", self.file_config.table());
        assert(keys_among(table_entries(t), set!["path_config"@, "file_config"@]));
        put_section(&mut t, "output_config", self.output_config.table());
        t
    }

    /// The text of the configuration file: the rendering of a document
    /// whose root table holds exactly the configuration's entries.
    pub fn render(&self) -> (text: String)
        ensures
            exists|root: Table|
                table_entries(root) == config_entries(*self) && text@ == #[trigger] document_text(
                    root,
                ),
    {
        render_document(self.table())
    }
}

} // verus!
