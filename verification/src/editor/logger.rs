//! A logger that writes the records that pass its level, one line each, to
//! whatever can take lines.

use vstd::prelude::*;
use vstd::string::*;

verus! {

/// How severe a log record is. `Error` is the most severe.
#[derive(Clone, Copy, Debug, PartialEq, Eq, Structural)]
pub enum Level {
    Error,
    Warn,
    Info,
    Debug,
    Trace,
}

/// The least severe level that a logger lets pass, or `Off` for none.
#[derive(Clone, Copy, Debug, PartialEq, Eq, Structural)]
pub enum LevelFilter {
    Off,
    Error,
    Warn,
    Info,
    Debug,
    Trace,
}

impl Level {
    /// The level's place in the order: 1 for `Error`, 5 for `Trace`.
    pub open spec fn rank(self) -> int {
        match self {
            Level::Error => 1,
            Level::Warn => 2,
            Level::Info => 3,
            Level::Debug => 4,
            Level::Trace => 5,
        }
    }

    /// The level's name, with blanks behind it up to five characters.
    pub open spec fn label(self) -> Seq<char> {
        match self {
            Level::Error => "ERROR"@,
            Level::Warn => "WARN "@,
            Level::Info => "INFO "@,
            Level::Debug => "DEBUG"@,
            Level::Trace => "TRACE"@,
        }
    }

    fn rank_of(self) -> (r: u8)
        ensures
            r == self.rank(),
    {
        match self {
            Level::Error => 1,
            Level::Warn => 2,
            Level::Info => 3,
            Level::Debug => 4,
            Level::Trace => 5,
        }
    }

    fn padded_name(self) -> (r: &'static str)
        ensures
            r@ == self.label(),
    {
        match self {
            Level::Error => "ERROR",
            Level::Warn => "WARN ",
            Level::Info => "INFO ",
            Level::Debug => "DEBUG",
            Level::Trace => "TRACE",
        }
    }
}

impl LevelFilter {
    /// The filter's place in the order: 0 for `Off`, 5 for `Trace`.
    pub open spec fn rank(self) -> int {
        match self {
            LevelFilter::Off => 0,
            LevelFilter::Error => 1,
            LevelFilter::Warn => 2,
            LevelFilter::Info => 3,
            LevelFilter::Debug => 4,
            LevelFilter::Trace => 5,
        }
    }

    /// Whether a record of this level passes the filter.
    pub open spec fn admits(self, level: Level) -> bool {
        level.rank() <= self.rank()
    }

    fn rank_of(self) -> (r: u8)
        ensures
            r == self.rank(),
    {
        match self {
            LevelFilter::Off => 0,
            LevelFilter::Error => 1,
            LevelFilter::Warn => 2,
            LevelFilter::Info => 3,
            LevelFilter::Debug => 4,
            LevelFilter::Trace => 5,
        }
    }
}

/// The name under which a record is logged: the module it comes from, or
/// nothing where the record names no module or has an empty target.
pub open spec fn shown_target(target: Seq<char>, module: Option<Seq<char>>) -> Seq<char> {
    if target.len() == 0 {
        target
    } else {
        match module {
            Some(path) => path,
            None => Seq::empty(),
        }
    }
}

/// The line that a record is written as.
pub open spec fn record_line(
    level: Level,
    target: Seq<char>,
    module: Option<Seq<char>>,
    message: Seq<char>,
) -> Seq<char> {
    level.label() + ": ["@ + shown_target(target, module) + "] "@ + message
}

/// The line that a record is written as.
pub fn format_record(level: Level, target: &str, module: Option<&str>, message: &str) -> (r: String)
    ensures
        r@ == record_line(
            level,
            target@,
            match module {
                Some(path) => Some(path@),
                None => None,
            },
            message@,
        ),
{
    let mut line = String::from_str(level.padded_name());
    line.append(": [");
    if target.is_empty() {
        line.append(target);
    } else {
        match module {
            Some(path) => line.append(path),
            None => {
                assert(line@ + Seq::<char>::empty() =~= line@);
            },
        }
    }
    line.append("] ");
    line.append(message);
    line
}

/// What takes the lines of a log.
pub trait Writeable {
    /// The lines that it holds, if it is known to hold what it takes. What
    /// says nothing here promises nothing.
    open spec fn written(&self) -> Option<Seq<Seq<char>>> {
        None
    }

    /// Takes one more line.
    fn write_line(&mut self, message: &str)
        ensures
            old(self).written() matches Some(lines) ==> final(self).written() == Some(lines.push(message@)),
    ;

    /// Lets go of the lines that it holds: after it, what is known to hold
    /// what it takes holds nothing.
    fn flush(&mut self)
        ensures
            old(self).written() is Some ==> final(self).written() == Some(Seq::<Seq<char>>::empty()),
    ;
}

/// A logger for the records at or above a level of severity.
pub struct LetterLogger<W: Writeable> {
    level: LevelFilter,
    writeable: W,
}

impl<W: Writeable> LetterLogger<W> {
    /// The filter that records must pass.
    pub closed spec fn level(&self) -> LevelFilter {
        self.level
    }

    /// Where the lines go.
    pub closed spec fn writeable(&self) -> W {
        self.writeable
    }

    /// A logger that writes to `writeable` what passes `log_level`.
    pub fn new(log_level: LevelFilter, writeable: W) -> (r: Box<LetterLogger<W>>)
        ensures
            r.level() == log_level,
            r.writeable() == writeable,
    {
        Box::new(LetterLogger { level: log_level, writeable })
    }

    /// Whether a record of this level is written.
    pub fn enabled(&self, level: Level) -> (r: bool)
        ensures
            r == self.level().admits(level),
    {
        level.rank_of() <= self.level.rank_of()
    }

    /// The line to write for a record: none if its level does not pass the filter.
    pub fn line_for(&self, level: Level, target: &str, module: Option<&str>, message: &str) -> (r: Option<String>)
        ensures
            r is Some == self.level().admits(level),
            r matches Some(line) ==> line@ == record_line(
                level,
                target@,
                match module {
                    Some(path) => Some(path@),
                    None => None,
                },
                message@,
            ),
    {
        if self.enabled(level) {
            Some(format_record(level, target, module, message))
        } else {
            None
        }
    }

    /// Writes the record as the line that `line_for` gives, if it gives one.
    pub fn log(&mut self, level: Level, target: &str, module: Option<&str>, message: &str)
        ensures
            final(self).level() == old(self).level(),
            !old(self).level().admits(level) ==> *final(self) == *old(self),
            old(self).level().admits(level) ==> (old(self).writeable().written() matches Some(lines)
                ==> final(self).writeable().written() == Some(
                lines.push(
                    record_line(
                        level,
                        target@,
                        match module {
                            Some(path) => Some(path@),
                            None => None,
                        },
                        message@,
                    ),
                ),
            )),
    {
        match self.line_for(level, target, module, message) {
            Some(line) => self.writeable.write_line(line.as_str()),
            None => {},
        }
    }

    /// Flushes what the lines were written to. The filter stays as it is,
    /// and a writer that is known to hold what it takes holds nothing after it.
    pub fn flush(&mut self)
        ensures
            final(self).level() == old(self).level(),
            old(self).writeable().written() is Some ==> final(self).writeable().written() == Some(
                Seq::<Seq<char>>::empty(),
            ),
    {
        self.writeable.flush();
    }

    /// What the lines were written to.
    pub fn get_ref(&self) -> (r: &W)
        ensures
            *r == self.writeable(),
    {
        &self.writeable
    }
}

} // verus!
