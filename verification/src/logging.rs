//! Logging sink adapter: marshals internal log events into boundary-safe
//! records and forwards them to a host-supplied sink installed exactly once.

use vstd::prelude::*;
use vstd::slice::slice_to_vec;
use vstd::string::StringSliceAdditionalSpecFns;

verus! {

/// Severity of a log record.
#[derive(Clone, Copy, PartialEq, Eq, Structural, Debug)]
pub enum LogLevel {
    Debug,
    Trace,
    Info,
    Warning,
    Error,
    Fatal,
}

impl LogLevel {
    /// The stable bit-flag discriminant under which this level crosses the
    /// boundary.
    pub fn code(&self) -> (c: u8)
        ensures
            *self == LogLevel::Debug ==> c == 1,
            *self == LogLevel::Trace ==> c == 2,
            *self == LogLevel::Info ==> c == 4,
            *self == LogLevel::Warning ==> c == 8,
            *self == LogLevel::Error ==> c == 16,
            *self == LogLevel::Fatal ==> c == 32,
    {
        match *self {
            LogLevel::Debug => 1,
            LogLevel::Trace => 2,
            LogLevel::Info => 4,
            LogLevel::Warning => 8,
            LogLevel::Error => 16,
            LogLevel::Fatal => 32,
        }
    }
}

/// A boundary-safe log record: a severity and the message bytes.
pub struct LogData {
    pub level: LogLevel,
    pub message: Vec<u8>,
}

/// The host-supplied sink consuming marshaled log records. What a sink does
/// with a record is outside this layer; the interface only fixes that each
/// accepted record is appended to the sink's history.
pub trait LogSink: Sized {
    /// The records this sink has accepted, in order: each a severity and the
    /// message bytes.
    spec fn records(&self) -> Seq<(LogLevel, Seq<u8>)>;

    fn accept(&mut self, record: LogData)
        ensures
            final(self).records() == old(self).records().push((record.level, record.message@)),
    ;
}

/// A sink that keeps every record handed to it, in order.
pub struct RecordingSink {
    pub stored: Vec<LogData>,
}

impl RecordingSink {
    pub fn new() -> (s: RecordingSink)
        ensures
            s.records() == Seq::<(LogLevel, Seq<u8>)>::empty(),
    {
        let s = RecordingSink { stored: Vec::new() };
        proof {
            assert(s.records() =~= Seq::<(LogLevel, Seq<u8>)>::empty());
        }
        s
    }
}

impl LogSink for RecordingSink {
    open spec fn records(&self) -> Seq<(LogLevel, Seq<u8>)> {
        Seq::new(self.stored@.len(), |i: int| (self.stored@[i].level, self.stored@[i].message@))
    }

    fn accept(&mut self, record: LogData)
    {
        self.stored.push(record);
        proof {
            assert(self.records() =~= old(self).records().push((record.level, record.message@)));
        }
    }
}

/// The process-wide logger: the host-supplied handler wrapped for the
/// boundary.
pub struct Logger<S> {
    pub handler: S,
}

impl<S: LogSink> Logger<S> {
    /// Marshals the level and message into a boundary record and forwards it
    /// to the host-supplied handler.
    pub fn log(&mut self, level: LogLevel, message: Vec<u8>)
        ensures
            final(self).handler.records() == old(self).handler.records().push((level, message@)),
    {
        let log_data = LogData { level, message };
        self.handler.accept(log_data);
    }
}

/// The installed-once state of the process-wide logger: empty until the host
/// installs a handler, then fixed for the life of the process.
pub struct LoggerInstance<S> {
    pub cell: Option<Logger<S>>,
}

impl<S: LogSink> LoggerInstance<S> {
    pub open spec fn is_initialized(&self) -> bool {
        self.cell is Some
    }

    /// The records the installed handler has accepted.
    pub open spec fn spec_records(&self) -> Seq<(LogLevel, Seq<u8>)>
        recommends
            self.is_initialized(),
    {
        match self.cell {
            Some(logger) => logger.handler.records(),
            None => Seq::<(LogLevel, Seq<u8>)>::empty(),
        }
    }

    /// The state before any handler is installed.
    pub fn new() -> (r: LoggerInstance<S>)
        ensures
            !r.is_initialized(),
    {
        LoggerInstance { cell: None }
    }
}

/// Installs the logger. Only the first installation succeeds; every later
/// call fails and leaves the installed logger in place.
pub fn initialize<S: LogSink>(instance: &mut LoggerInstance<S>, logger: Logger<S>) -> (r: Result<
    (),
    (),
>)
    ensures
        !old(instance).is_initialized() ==> {
            &&& r is Ok
            &&& final(instance).cell == Some(logger)
        },
        old(instance).is_initialized() ==> {
            &&& r is Err
            &&& final(instance).cell == old(instance).cell
        },
{
    if instance.cell.is_some() {
        Err(())
    } else {
        instance.cell = Some(logger);
        Ok(())
    }
}

/// Releases nothing: the installed handler lives for the whole process.
pub fn terminate() {
}

/// Marshals `message` and forwards it at `level` through the installed
/// handler. The logger must have been installed first.
pub fn log<S: LogSink>(instance: &mut LoggerInstance<S>, level: LogLevel, message: &str)
    requires
        old(instance).is_initialized(),
    ensures
        final(instance).is_initialized(),
        final(instance).spec_records() == old(instance).spec_records().push(
            (level, message.spec_bytes()),
        ),
{
    let bytes: Vec<u8> = slice_to_vec(message.as_bytes());
    match &mut instance.cell {
        Some(logger) => logger.log(level, bytes),
        None => {},
    }
}

} // verus!
