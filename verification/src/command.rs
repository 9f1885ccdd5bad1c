//! The commands of the interactive front end: their arguments as plain
//! values, the splitting of an input line into arguments, and the choice
//! of how a backup is run.

use crate::config::{ConfigArgs, ResetArgs};
use crate::filter::ConfigError;
use crate::protocol::texts;
use crate::schedule::IntervalScheduler;
use vstd::prelude::*;

verus! {

/// What the `backup` command was given.
#[derive(Clone, Debug, PartialEq, Eq)]
pub struct BackupArgs {
    pub config_path: Option<String>,
    /// Run again and again, this many seconds apart.
    pub interval: Option<u64>,
    /// Run whenever the source changes.
    pub realtime: bool,
}

/// The commands of the front end.
#[derive(Clone, Debug, PartialEq, Eq)]
pub enum Commands {
    /// Leave the program.
    Exit,
    /// Back up files.
    Backup(BackupArgs),
    /// Edit the configuration.
    Config(ConfigArgs),
    /// Put settings of the configuration back to their defaults.
    Reset(ResetArgs),
}

/// One parsed input line; no command at all is allowed.
#[derive(Clone, Debug, PartialEq, Eq)]
pub struct Args {
    pub command: Option<Commands>,
}

/// How a backup is run.
#[derive(Clone, Copy, Debug, PartialEq, Eq, Structural)]
pub enum BackupMode {
    /// One run, now.
    Once,
    /// Runs on a fixed interval, for ever.
    Every(IntervalScheduler),
    /// A run for each change of the source, for ever.
    OnChange,
}

/// Decides how the `backup` command runs, before anything is read or
/// written: watching wins over an interval, an interval over a single run;
/// an interval of zero is an error unless watching was asked for.
pub fn command_backup(args: &BackupArgs) -> (r: Result<BackupMode, ConfigError>)
    ensures
        match r {
            Ok(BackupMode::Once) => !args.realtime && args.interval is None,
            Ok(BackupMode::OnChange) => args.realtime,
            Ok(BackupMode::Every(s)) => !args.realtime && args.interval == Some(s.interval())
                && s.wf(),
            Err(e) => !args.realtime && args.interval == Some(0u64) && e
                == ConfigError::ZeroInterval,
        },
{
    if args.realtime {
        return Ok(BackupMode::OnChange);
    }
    match args.interval {
        Some(n) => match IntervalScheduler::new(n) {
            Ok(s) => Ok(BackupMode::Every(s)),
            Err(e) => Err(e),
        },
        None => Ok(BackupMode::Once),
    }
}

/// Whether a character separates arguments: the white space of Unicode.
pub uninterp spec fn is_space(c: char) -> bool;

/// `char::is_whitespace`: a fixed property of the character.
#[verifier::external_body]
fn char_is_space(c: char) -> (b: bool)
    ensures
        b == is_space(c),
{
    c.is_whitespace()
}

/// The words of a line: its maximal runs of characters that are not white
/// space, in order. Read from the end: a space adds nothing; any other
/// character lengthens the last word if it follows one, and starts a new
/// word if it follows a space or nothing.
pub open spec fn words(line: Seq<char>) -> Seq<Seq<char>>
    decreases line.len(),
{
    if line.len() == 0 {
        Seq::empty()
    } else {
        let before = words(line.drop_last());
        let c = line.last();
        if is_space(c) {
            before
        } else if line.len() >= 2 && !is_space(line[line.len() - 2]) && before.len() > 0 {
            before.drop_last().push(before.last().push(c))
        } else {
            before.push(seq![c])
        }
    }
}

/// The name under which the argument parser sees the program.
pub open spec fn program_name() -> Seq<char> {
    "myprog"@
}

/// Every word of a line is free of white space and not empty, and a line
/// that ends in anything but white space has at least one word.
pub proof fn lemma_words_hold_no_space(line: Seq<char>)
    ensures
        forall|i: int, j: int|
            0 <= i < words(line).len() && 0 <= j < words(line)[i].len() ==> !is_space(
                #[trigger] words(line)[i][j],
            ),
        forall|i: int| 0 <= i < words(line).len() ==> (#[trigger] words(line)[i]).len() > 0,
        line.len() > 0 && !is_space(line.last()) ==> words(line).len() > 0,
    decreases line.len(),
{
    if line.len() > 0 {
        lemma_words_hold_no_space(line.drop_last());
        let before = words(line.drop_last());
        let c = line.last();
        if is_space(c) {
        } else if line.len() >= 2 && !is_space(line[line.len() - 2]) && before.len() > 0 {
            let grown = before.last().push(c);
            let after = before.drop_last().push(grown);
            assert(words(line) == after);
            assert forall|i: int, j: int|
                0 <= i < after.len() && 0 <= j < after[i].len() implies !is_space(
                #[trigger] after[i][j],
            ) by {
                if i < after.len() - 1 {
                    assert(after[i] == before[i]);
                } else if j < grown.len() - 1 {
                    assert(grown[j] == before.last()[j]);
                }
            }
            assert forall|i: int| 0 <= i < after.len() implies (#[trigger] after[i]).len()
                > 0 by {
                if i < after.len() - 1 {
                    assert(after[i] == before[i]);
                }
            }
        } else {
            let after = before.push(seq![c]);
            assert(words(line) == after);
            assert forall|i: int, j: int|
                0 <= i < after.len() && 0 <= j < after[i].len() implies !is_space(
                #[trigger] after[i][j],
            ) by {
                if i < after.len() - 1 {
                    assert(after[i] == before[i]);
                }
            }
            assert forall|i: int| 0 <= i < after.len() implies (#[trigger] after[i]).len()
                > 0 by {
                if i < after.len() - 1 {
                    assert(after[i] == before[i]);
                }
            }
        }
    }
}

/// Splits an input line into the argument list that the argument parser
/// takes: the program's name, then the words of the line.
pub fn get_args(line: String) -> (argv: Vec<String>)
    ensures
        texts(argv@) == seq![program_name()] + words(line@),
{
    let text = line.as_str();
    let n = text.unicode_len();
    let mut argv: Vec<String> = Vec::new();
    argv.push("myprog".to_owned());
    assert(texts(argv@) =~= seq![program_name()] + words(text@.take(0))) by {
        assert(text@.take(0).len() == 0);
    }
    let mut start: usize = 0;
    let mut inside = false;
    let mut i: usize = 0;
    while i < n
        invariant
            n == text@.len(),
            i <= n,
            inside ==> start < i && !is_space(text@[i - 1]) && words(text@.take(i as int)).len()
                > 0 && words(text@.take(i as int)).last() == text@.subrange(
                start as int,
                i as int,
            ) && texts(argv@) == seq![program_name()] + words(text@.take(i as int)).drop_last(),
            !inside ==> (i == 0 || is_space(text@[i - 1])) && texts(argv@) == seq![program_name()]
                + words(text@.take(i as int)),
        decreases n - i,
    {
        let c = text.get_char(i);
        let ghost before = text@.take(i as int);
        let ghost now = text@.take(i + 1);
        proof {
            assert(now.drop_last() =~= before);
            assert(now.last() == c);
            if i > 0 {
                assert(now[now.len() - 2] == text@[i - 1]);
            }
            lemma_words_hold_no_space(before);
        }
        if char_is_space(c) {
            if inside {
                let word = text.substring_char(start, i).to_owned();
                let ghost earlier = argv@;
                argv.push(word);
                inside = false;
                proof {
                    let w = words(before);
                    assert(w =~= w.drop_last().push(w.last()));
                    assert(texts(argv@) =~= texts(earlier).push(word@));
                    assert(texts(argv@) =~= seq![program_name()] + words(now));
                }
            }
        } else {
            if inside {
                proof {
                    let w = words(before);
                    assert(words(now) == w.drop_last().push(w.last().push(c)));
                    assert(w.last().push(c) =~= text@.subrange(start as int, i + 1));
                    assert(words(now).drop_last() =~= w.drop_last());
                }
            } else {
                start = i;
                inside = true;
                proof {
                    let w = words(before);
                    assert(words(now) == w.push(seq![c]));
                    assert(seq![c] =~= text@.subrange(i as int, i + 1));
                    assert(words(now).drop_last() =~= w);
                }
            }
        }
        i = i + 1;
    }
    assert(text@.take(n as int) =~= text@);
    if inside {
        let word = text.substring_char(start, n).to_owned();
        let ghost earlier = argv@;
        argv.push(word);
        proof {
            let w = words(text@);
            assert(w =~= w.drop_last().push(w.last()));
            assert(texts(argv@) =~= texts(earlier).push(word@));
            assert(texts(argv@) =~= seq![program_name()] + words(text@));
        }
    }
    argv
}

} // verus!
