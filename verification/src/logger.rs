//! The logger, and the state that lets it be registered once and no more.

use vstd::prelude::*;

use crate::level::Level;
use crate::render::render;
use crate::sink::print;

verus! {

/// Where a record comes from and how severe it is.
#[derive(Clone, Copy, Debug)]
pub struct Metadata<'a> {
    pub level: Level,
    pub target: &'a str,
}

/// A leveled message, already formatted.
#[derive(Clone, Copy, Debug)]
pub struct Record<'a> {
    pub level: Level,
    pub target: &'a str,
    pub message: &'a str,
}

impl<'a> Record<'a> {
    /// The record's level and target, without its message.
    pub fn metadata(&self) -> (metadata: Metadata<'a>)
        ensures
            metadata.level == self.level,
            metadata.target@ == self.target@,
    {
        Metadata { level: self.level, target: self.target }
    }
}

/// The most verbose level that the logging facade lets through, or `Off` for none.
#[derive(Clone, Copy, PartialEq, Eq, Structural, Debug)]
pub enum LevelFilter {
    Off,
    Error,
    Warn,
    Info,
    Debug,
    Trace,
}

impl LevelFilter {
    /// The verbosity of the most verbose level that passes, 0 where none does.
    pub open spec fn verbosity(self) -> nat {
        match self {
            LevelFilter::Off => 0,
            LevelFilter::Error => 1,
            LevelFilter::Warn => 2,
            LevelFilter::Info => 3,
            LevelFilter::Debug => 4,
            LevelFilter::Trace => 5,
        }
    }
}

/// The logger: it shows every record it is given, as one colored line on the console.
/// Like the sink below it, it hands back what is to be transmitted.
#[derive(Clone, Copy, PartialEq, Eq, Structural, Debug)]
pub struct SimpleLogger;

impl SimpleLogger {
    /// Whether a record with this metadata would be shown. This logger filters
    /// nothing, whatever the level and the target.
    pub fn enabled(&self, metadata: &Metadata) -> (yes: bool)
        ensures
            yes,
    {
        true
    }

    /// The transmissions that show `record`: its line, whole and in order, nothing
    /// before it and nothing after.
    pub fn log(&self, record: &Record) -> (calls: Vec<usize>)
        ensures
            calls@ == crate::sink::codes(crate::render::rendered(record.level, record.message@)),
    {
        if !self.enabled(&record.metadata()) {
            return Vec::new();
        }
        let line = render(record.level, record.message);
        print(line.as_str())
    }

    /// Nothing is ever held back, so a flush transmits nothing.
    pub fn flush(&self) -> (calls: Vec<usize>)
        ensures
            calls@ == Seq::<usize>::empty(),
    {
        Vec::new()
    }
}

/// Why `init` failed.
#[derive(Clone, Copy, PartialEq, Eq, Structural, Debug)]
pub enum InitError {
    /// A logger was registered before.
    AlreadyRegistered,
}

/// What the process knows of its logger: which one is active, if any, and what the
/// facade lets through to it.
#[derive(Clone, Copy, PartialEq, Eq, Structural, Debug)]
pub struct Registration {
    pub logger: Option<SimpleLogger>,
    pub max_level: LevelFilter,
}

impl Registration {
    /// The state before any registration: no logger, and nothing passes.
    pub open spec fn unregistered() -> Registration {
        Registration { logger: None, max_level: LevelFilter::Off }
    }

    /// Whether a logger is in place.
    pub open spec fn is_registered(self) -> bool {
        self.logger is Some
    }

    /// Whether the facade hands records of `level` on to the logger.
    pub open spec fn admits(self, level: Level) -> bool {
        level.verbosity() <= self.max_level.verbosity()
    }

    /// The state that an attempt to register leaves behind: the logger is in place
    /// and everything passes, unless one was registered already, which changes
    /// nothing.
    pub open spec fn after_init(self) -> Registration {
        if self.is_registered() {
            self
        } else {
            Registration { logger: Some(SimpleLogger), max_level: LevelFilter::Trace }
        }
    }

    /// What an attempt to register answers.
    pub open spec fn init_outcome(self) -> Result<(), InitError> {
        if self.is_registered() {
            Err(InitError::AlreadyRegistered)
        } else {
            Ok(())
        }
    }

    /// The state of a process that has registered nothing yet.
    pub fn new() -> (state: Self)
        ensures
            state == Registration::unregistered(),
    {
        Registration { logger: None, max_level: LevelFilter::Off }
    }
}

/// Registers the logger and opens the facade's filter to every level. This works
/// once: with a logger in place it fails and leaves the state as it found it.
pub fn init(state: &mut Registration) -> (outcome: Result<(), InitError>)
    ensures
        outcome == old(state).init_outcome(),
        *final(state) == old(state).after_init(),
        outcome is Err <==> old(state).is_registered(),
        outcome is Err ==> *final(state) == *old(state),
        outcome is Ok ==> final(state).logger == Some(SimpleLogger)
            && final(state).max_level == LevelFilter::Trace,
        outcome is Ok ==> forall|level: Level| #[trigger] final(state).admits(level),
        final(state).is_registered(),
{
    if state.logger.is_some() {
        return Err(InitError::AlreadyRegistered);
    }
    state.logger = Some(SimpleLogger);
    state.max_level = LevelFilter::Trace;
    Ok(())
}

/// Registration happens once and holds: after any attempt a logger is in place, a
/// further attempt fails, and it changes nothing of what the first one set up.
pub proof fn lemma_init_once(state: Registration)
    ensures
        state.after_init().is_registered(),
        state.after_init().init_outcome() == Err::<(), InitError>(InitError::AlreadyRegistered),
        state.after_init().after_init() == state.after_init(),
{
}

/// Once registered from scratch, the facade lets every level through to the logger.
pub proof fn lemma_init_admits_all(level: Level)
    ensures
        Registration::unregistered().after_init().admits(level),
        !Registration::unregistered().admits(level),
{
}

} // verus!
