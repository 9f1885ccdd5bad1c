//! The selection filter: a `FileConfig` compiled once per run, and the
//! predicate that decides for each entry whether it is selected.

use crate::calendar::{
    in_calendar, local_day, parse_day, parsed_day, CalendarDay, MAX_TIMESTAMP_SECS,
};
use crate::config::FileConfig;
use crate::paths::{base_name, file_name_of, is_under, join_path, joined_path, path_has_prefix};
use crate::pattern::{pattern_accepts, pattern_is_valid, NamePattern};
use nix::unistd::{Uid, User};
use vstd::prelude::*;

verus! {

/// What kind of file system object an entry is, read without following
/// symbolic links.
#[derive(Clone, Copy, Debug, PartialEq, Eq, Structural)]
pub enum FileKind {
    Regular,
    Directory,
    Symlink,
    Fifo,
    CharDevice,
    BlockDevice,
    Other,
}

/// What is read of an entry, once, before any decision about it.
#[derive(Clone, Copy, Debug, PartialEq, Eq, Structural)]
pub struct EntryMeta {
    pub kind: FileKind,
    /// Length in bytes.
    pub size: u64,
    /// Last modification, as seconds and nanoseconds since the epoch.
    pub modified_secs: i64,
    pub modified_nanos: u32,
    /// Numeric id of the owning user.
    pub uid: u32,
    /// Type and permission bits as the system reports them.
    pub mode: u32,
    /// Device number, for device nodes.
    pub rdev: u64,
}

/// Why a configuration cannot be used for a run.
#[derive(Clone, Copy, Debug, PartialEq, Eq, Structural)]
pub enum ConfigError {
    /// The name pattern is not a valid regular expression.
    InvalidPattern,
    /// The date is not a calendar day written as `YYYY-MM-DD`.
    InvalidDate,
    /// A scheduling interval of zero seconds.
    ZeroInterval,
    /// No home directory is known to place defaults under.
    NoHomeDirectory,
}

impl ConfigError {
    /// The text of the error, for the user.
    pub open spec fn text(self) -> Seq<char> {
        match self {
            ConfigError::InvalidPattern => "Invalid file name pattern"@,
            ConfigError::InvalidDate => "Invalid date, expected YYYY-MM-DD"@,
            ConfigError::ZeroInterval => "Interval must be greater than 0"@,
            ConfigError::NoHomeDirectory => "Home directory not found"@,
        }
    }

    /// A line of text for the user.
    pub fn message(&self) -> (r: String)
        ensures
            r@ == self.text(),
    {
        match self {
            ConfigError::InvalidPattern => "Invalid file name pattern".to_owned(),
            ConfigError::InvalidDate => "Invalid date, expected YYYY-MM-DD".to_owned(),
            ConfigError::ZeroInterval => "Interval must be greater than 0".to_owned(),
            ConfigError::NoHomeDirectory => "Home directory not found".to_owned(),
        }
    }
}

/// The constraints that a filter imposes, each absent or present.
pub struct Constraints {
    /// The entry must lie under this path, taken relative to the root.
    pub sub_path: Option<Seq<char>>,
    /// The entry's base name must match this regular expression.
    pub name: Option<Seq<char>>,
    /// The entry must have been modified on this local day.
    pub day: Option<CalendarDay>,
    /// The entry must be at least this long.
    pub min_size: Option<i64>,
    /// The entry must belong to the user of this name.
    pub owner: Option<Seq<char>>,
}

impl Constraints {
    /// No constraint at all.
    pub open spec fn none() -> Constraints {
        Constraints { sub_path: None, name: None, day: None, min_size: None, owner: None }
    }

    /// The entry lies under the sub-path, taken relative to `root`; whole
    /// components only.
    pub open spec fn path_ok(self, root: Seq<char>, path: Seq<char>) -> bool {
        self.sub_path matches Some(sub) ==> path_has_prefix(path, joined_path(root, sub))
    }

    /// The entry has a base name, and the pattern matches it.
    pub open spec fn name_ok(self, path: Seq<char>) -> bool {
        self.name matches Some(p) ==> (base_name(path) matches Some(n) && pattern_accepts(p, n))
    }

    /// The entry's local day of modification is known and is the day asked
    /// for.
    pub open spec fn day_ok(self, day: Option<CalendarDay>) -> bool {
        self.day matches Some(d) ==> day == Some(d)
    }

    /// The entry is at least as long as asked for.
    pub open spec fn size_ok(self, size: u64) -> bool {
        self.min_size matches Some(m) ==> size >= m
    }

    /// The name of the entry's owner is known and is the name asked for,
    /// letter for letter.
    pub open spec fn owner_ok(self, owner: Option<Seq<char>>) -> bool {
        self.owner matches Some(o) ==> owner == Some(o)
    }

    /// The constraints that are decided by the entry's path and length.
    pub open spec fn fixed_ok(self, root: Seq<char>, path: Seq<char>, size: u64) -> bool {
        self.path_ok(root, path) && self.name_ok(path) && self.size_ok(size)
    }

    /// Whether any constraint needs the machine's time zone or user table.
    pub open spec fn asks_environment(self) -> bool {
        self.day is Some || self.owner is Some
    }

    /// All constraints together, for an entry modified on local day `day`
    /// (where known) and owned by the user named `owner` (where known).
    pub open spec fn selects(
        self,
        root: Seq<char>,
        path: Seq<char>,
        size: u64,
        day: Option<CalendarDay>,
        owner: Option<Seq<char>>,
    ) -> bool {
        self.fixed_ok(root, path, size) && self.day_ok(day) && self.owner_ok(owner)
    }
}

/// The date constraint of a configuration: an absent or empty date asks
/// for nothing.
pub open spec fn wanted_date(cfg: FileConfig) -> Option<Seq<char>> {
    match cfg.date {
        Some(d) => if d@.len() == 0 {
            None
        } else {
            Some(d@)
        },
        None => None,
    }
}

/// The size constraint of a configuration: zero asks for nothing.
pub open spec fn wanted_size(cfg: FileConfig) -> Option<i64> {
    match cfg.size {
        Some(n) => if n == 0 {
            None
        } else {
            Some(n)
        },
        None => None,
    }
}

/// The owner constraint of a configuration: an empty name asks for nothing.
pub open spec fn wanted_owner(cfg: FileConfig) -> Option<Seq<char>> {
    match cfg.user {
        Some(u) => if u@.len() == 0 {
            None
        } else {
            Some(u@)
        },
        None => None,
    }
}

/// What is wrong with a configuration, if anything: the pattern is looked
/// at first, then the date.
pub open spec fn config_error(cfg: FileConfig) -> Option<ConfigError> {
    if cfg.file_name is Some && !pattern_is_valid(cfg.file_name->0@) {
        Some(ConfigError::InvalidPattern)
    } else if wanted_date(cfg) is Some && parsed_day(wanted_date(cfg)->0) is None {
        Some(ConfigError::InvalidDate)
    } else {
        None
    }
}

/// The constraints that a valid configuration stands for.
pub open spec fn constraints_of(cfg: FileConfig) -> Constraints {
    Constraints {
        sub_path: match cfg.file_path {
            Some(p) => Some(p@),
            None => None,
        },
        name: match cfg.file_name {
            Some(p) => Some(p@),
            None => None,
        },
        day: match wanted_date(cfg) {
            Some(d) => parsed_day(d),
            None => None,
        },
        min_size: wanted_size(cfg),
        owner: wanted_owner(cfg),
    }
}

/// `User::from_uid` of the system's user table, keeping the name. The
/// table belongs to the machine, so nothing ties the result to `uid`;
/// `None` when there is no such user or the lookup fails.
#[verifier::external_body]
pub(crate) fn owner_name(uid: u32) -> (r: Option<String>) {
    User::from_uid(Uid::from_raw(uid)).ok().flatten().map(|u| u.name)
}

/// A filter ready for a run: the pattern compiled, the date parsed.
pub struct Filter {
    sub_path: Option<String>,
    name: Option<NamePattern>,
    day: Option<CalendarDay>,
    min_size: Option<i64>,
    owner: Option<String>,
}

impl View for Filter {
    type V = Constraints;

    closed spec fn view(&self) -> Constraints {
        Constraints {
            sub_path: match self.sub_path {
                Some(p) => Some(p@),
                None => None,
            },
            name: match self.name {
                Some(p) => Some(p.source()),
                None => None,
            },
            day: self.day,
            min_size: self.min_size,
            owner: match self.owner {
                Some(o) => Some(o@),
                None => None,
            },
        }
    }
}

impl Filter {
    /// Compiles a configuration. Fails exactly when the pattern or the date
    /// is unusable, and says which; otherwise the filter imposes the
    /// configuration's constraints.
    pub fn compile(cfg: &FileConfig) -> (r: Result<Filter, ConfigError>)
        ensures
            match r {
                Ok(f) => config_error(*cfg) is None && f@ == constraints_of(*cfg),
                Err(e) => config_error(*cfg) == Some(e),
            },
    {
        let name = match &cfg.file_name {
            Some(p) => match NamePattern::compile(p.as_str()) {
                Some(c) => Some(c),
                None => {
                    return Err(ConfigError::InvalidPattern);
                },
            },
            None => None,
        };
        let day = match &cfg.date {
            Some(d) => if d.as_str().unicode_len() == 0 {
                None
            } else {
                match parse_day(d.as_str()) {
                    Some(day) => Some(day),
                    None => {
                        return Err(ConfigError::InvalidDate);
                    },
                }
            },
            None => None,
        };
        let min_size = match cfg.size {
            Some(n) => if n == 0 {
                None
            } else {
                Some(n)
            },
            None => None,
        };
        let owner = match &cfg.user {
            Some(u) => if u.as_str().unicode_len() == 0 {
                None
            } else {
                Some(u.clone())
            },
            None => None,
        };
        let sub_path = match &cfg.file_path {
            Some(p) => Some(p.clone()),
            None => None,
        };
        Ok(Filter { sub_path, name, day, min_size, owner })
    }

    /// Whether the constraints on path, name and length hold of an entry.
    pub fn fixed_part(&self, root: &str, entry_path: &str, size: u64) -> (b: bool)
        ensures
            b == self@.fixed_ok(root@, entry_path@, size),
    {
        match &self.sub_path {
            Some(sub) => {
                let base = join_path(root, sub.as_str());
                if !is_under(entry_path, base.as_str()) {
                    return false;
                }
            },
            None => {},
        }
        match &self.name {
            Some(pattern) => {
                match file_name_of(entry_path) {
                    Some(n) => {
                        if !pattern.accepts(n.as_str()) {
                            return false;
                        }
                    },
                    None => {
                        return false;
                    },
                }
            },
            None => {},
        }
        match self.min_size {
            Some(m) => {
                if m > 0 && size < m as u64 {
                    return false;
                }
            },
            None => {},
        }
        true
    }

    /// The whole predicate, for an entry whose local modification day and
    /// owner name have been found out already (`None` where they could not
    /// be).
    pub fn selects(
        &self,
        root: &str,
        entry_path: &str,
        size: u64,
        day: Option<CalendarDay>,
        owner: Option<&str>,
    ) -> (b: bool)
        ensures
            b == self@.selects(
                root@,
                entry_path@,
                size,
                day,
                match owner {
                    Some(o) => Some(o@),
                    None => None,
                },
            ),
    {
        if !self.fixed_part(root, entry_path, size) {
            return false;
        }
        match self.day {
            Some(wanted) => {
                match day {
                    Some(d) => {
                        if d != wanted {
                            return false;
                        }
                    },
                    None => {
                        return false;
                    },
                }
            },
            None => {},
        }
        match &self.owner {
            Some(wanted) => {
                match owner {
                    Some(o) => {
                        if !str_equal(o, wanted.as_str()) {
                            return false;
                        }
                    },
                    None => {
                        return false;
                    },
                }
            },
            None => {},
        }
        true
    }
}

/// Whether two strings hold the same text.
fn str_equal(a: &str, b: &str) -> (r: bool)
    ensures
        r == (a@ == b@),
{
    let x = a.to_owned();
    let y = b.to_owned();
    x == y
}

/// The filter predicate for one entry. The constraints on path, name and
/// length are decided here. The local day of modification and the owner's
/// name are looked up only where the filter asks for them, and an entry
/// whose day or owner cannot be found out fails such a constraint.
///
/// A selected entry always meets the constraints on path, name and length;
/// where the filter asks for neither a day nor an owner, those decide. An
/// entry modified at an instant beyond the calendar fails a date
/// constraint.
pub fn check_file_properties(root: &str, entry_path: &str, meta: &EntryMeta, filter: &Filter) -> (b:
    bool)
    ensures
        b ==> filter@.fixed_ok(root@, entry_path@, meta.size),
        !filter@.asks_environment() ==> b == filter@.fixed_ok(root@, entry_path@, meta.size),
        filter@.day is Some && !in_calendar(meta.modified_secs) ==> !b,
{
    if !filter.fixed_part(root, entry_path, meta.size) {
        return false;
    }
    let day = if filter.day.is_some() && -MAX_TIMESTAMP_SECS <= meta.modified_secs
        && meta.modified_secs <= MAX_TIMESTAMP_SECS {
        local_day(meta.modified_secs, meta.modified_nanos)
    } else {
        None
    };
    let owner = if filter.owner.is_some() {
        owner_name(meta.uid)
    } else {
        None
    };
    match &owner {
        Some(o) => filter.selects(root, entry_path, meta.size, day, Some(o.as_str())),
        None => filter.selects(root, entry_path, meta.size, day, None),
    }
}

/// A configuration without any constraint selects every entry, whatever
/// its path, length, modification day or owner.
pub proof fn lemma_unconstrained_selects_all(
    root: Seq<char>,
    path: Seq<char>,
    size: u64,
    day: Option<CalendarDay>,
    owner: Option<Seq<char>>,
)
    ensures
        config_error(FileConfig::unconstrained()) is None,
        constraints_of(FileConfig::unconstrained()) == Constraints::none(),
        Constraints::none().selects(root, path, size, day, owner),
        !Constraints::none().asks_environment(),
{
}

/// Under a filter with a name pattern, a selected entry has a base name
/// that the pattern matches; and where the pattern is the only constraint,
/// the filter selects exactly the entries whose base name it matches.
pub proof fn lemma_name_pattern_decides(
    c: Constraints,
    root: Seq<char>,
    path: Seq<char>,
    size: u64,
    day: Option<CalendarDay>,
    owner: Option<Seq<char>>,
)
    requires
        c.name is Some,
    ensures
        c.selects(root, path, size, day, owner) ==> base_name(path) is Some && pattern_accepts(
            c.name->0,
            base_name(path)->0,
        ),
        c == (Constraints { name: c.name, ..Constraints::none() }) ==> (c.selects(
            root,
            path,
            size,
            day,
            owner,
        ) <==> base_name(path) is Some && pattern_accepts(c.name->0, base_name(path)->0)),
{
}

} // verus!
