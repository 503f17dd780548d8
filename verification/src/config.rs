//! What the command line selects: the log mode and character counting.

use vstd::prelude::*;
use vstd::string::StringExecFns;

verus! {

/// Which per-file events are logged during a run.
#[derive(Clone, Copy, Debug, PartialEq, Eq, Structural)]
pub enum LogMode {
    /// Only the summary.
    Silent,
    /// Every visited file.
    LogAll,
    /// Only the files that were counted.
    LogCounted,
    /// Only the files that could not be counted.
    LogBad,
}

impl LogMode {
    /// Whether a counted file is logged in this mode.
    pub open spec fn shows_counted(self) -> bool {
        self == LogMode::LogAll || self == LogMode::LogCounted
    }

    /// Whether a bad file is logged in this mode.
    pub open spec fn shows_bad(self) -> bool {
        self == LogMode::LogAll || self == LogMode::LogBad
    }

    /// Whether a counted file is logged in this mode.
    pub fn logs_counted(self) -> (r: bool)
        ensures
            r == self.shows_counted(),
    {
        match self {
            LogMode::LogAll => true,
            LogMode::LogCounted => true,
            _ => false,
        }
    }

    /// Whether a bad file is logged in this mode.
    pub fn logs_bad(self) -> (r: bool)
        ensures
            r == self.shows_bad(),
    {
        match self {
            LogMode::LogAll => true,
            LogMode::LogBad => true,
            _ => false,
        }
    }
}

/// The log mode that one flag selects; any other text selects silence.
pub open spec fn mode_of_flag(flag: Seq<char>) -> LogMode {
    if flag == "--log-all"@ {
        LogMode::LogAll
    } else if flag == "--log-counted"@ {
        LogMode::LogCounted
    } else if flag == "--log-bad"@ {
        LogMode::LogBad
    } else {
        LogMode::Silent
    }
}

/// The log mode of an argument list: that of the first argument after the
/// program's name, and silence where there is none.
pub open spec fn mode_of_args(args: Seq<Seq<char>>) -> LogMode {
    if args.len() > 1 {
        mode_of_flag(args[1])
    } else {
        LogMode::Silent
    }
}

/// Whether `--chars` stands anywhere in the argument list.
pub open spec fn wants_chars(args: Seq<Seq<char>>) -> bool {
    exists|i: int| 0 <= i < args.len() && #[trigger] args[i] == "--chars"@
}

/// The text of each argument, in order.
pub open spec fn arg_texts(args: Seq<String>) -> Seq<Seq<char>> {
    Seq::new(args.len(), |i: int| args[i]@)
}

/// The settings of a run.
#[derive(Clone, Copy, Debug, PartialEq, Eq, Structural)]
pub struct Config {
    pub mode: LogMode,
    pub count_chars: bool,
}

impl Config {
    /// Reads the settings from the argument list of the process, the
    /// program's name first.
    pub fn from_args(args: &Vec<String>) -> (c: Config)
        ensures
            c.mode == mode_of_args(arg_texts(args@)),
            c.count_chars == wants_chars(arg_texts(args@)),
    {
        let mode = if args.len() > 1 {
            let flag = &args[1];
            if *flag == String::from_str("--log-all") {
                LogMode::LogAll
            } else if *flag == String::from_str("--log-counted") {
                LogMode::LogCounted
            } else if *flag == String::from_str("--log-bad") {
                LogMode::LogBad
            } else {
                LogMode::Silent
            }
        } else {
            LogMode::Silent
        };
        let chars_flag = String::from_str("--chars");
        let mut count_chars = false;
        let mut i: usize = 0;
        while i < args.len()
            invariant
                i <= args@.len(),
                chars_flag@ == "--chars"@,
                count_chars == exists|k: int|
                    0 <= k < i && #[trigger] arg_texts(args@)[k] == "--chars"@,
            decreases args@.len() - i,
        {
            if args[i] == chars_flag {
                assert(arg_texts(args@)[i as int] == "--chars"@);
                count_chars = true;
            }
            i = i + 1;
        }
        Config { mode, count_chars }
    }
}

} // verus!
