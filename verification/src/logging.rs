use vstd::prelude::*;

verus! {

/// Severity of a log record.
#[derive(Clone, Copy, Debug, PartialEq, Eq, Structural)]
pub enum Level {
    Trace,
    Debug,
    Info,
    Warn,
    Error,
}

impl Level {
    /// The name under which scripts reach the logging entry of this severity.
    pub open spec fn spec_name(self) -> Seq<char> {
        match self {
            Level::Trace => "trace"@,
            Level::Debug => "debug"@,
            Level::Info => "info"@,
            Level::Warn => "warn"@,
            Level::Error => "error"@,
        }
    }

    /// The name under which scripts reach the logging entry of this severity.
    pub fn name(self) -> (r: &'static str)
        ensures
            r@ == self.spec_name(),
    {
        match self {
            Level::Trace => "trace",
            Level::Debug => "debug",
            Level::Info => "info",
            Level::Warn => "warn",
            Level::Error => "error",
        }
    }
}

/// What a log record says, as plain values.
pub struct LogRecordView {
    pub level: Level,
    pub caller: Option<Seq<char>>,
    pub message: Seq<char>,
}

/// One record for the host's log sink. `caller` is the identifier of the
/// interpreter instance on whose behalf the record is written, where there is one.
#[derive(Debug, PartialEq, Eq)]
pub struct LogRecord {
    pub level: Level,
    pub caller: Option<String>,
    pub message: String,
}

impl View for LogRecord {
    type V = LogRecordView;

    open spec fn view(&self) -> LogRecordView {
        LogRecordView {
            level: self.level,
            caller: match self.caller {
                Some(id) => Some(id@),
                None => None,
            },
            message: self.message@,
        }
    }
}

impl Clone for LogRecord {
    fn clone(&self) -> (copy: LogRecord)
        ensures
            copy@ == self@,
    {
        LogRecord {
            level: self.level,
            caller: match &self.caller {
                Some(id) => Some(id.clone()),
                None => None,
            },
            message: self.message.clone(),
        }
    }
}

/// The logging scope of one registration call: every record written through it
/// carries the caller identifier that the host supplied.
#[derive(Debug, PartialEq, Eq)]
pub struct LogScope {
    caller: String,
}

impl View for LogScope {
    type V = Seq<char>;

    closed spec fn view(&self) -> Seq<char> {
        self.caller@
    }
}

impl Clone for LogScope {
    fn clone(&self) -> (copy: LogScope)
        ensures
            copy@ == self@,
    {
        LogScope { caller: self.caller.clone() }
    }
}

impl LogScope {
    /// Opens the scope for the interpreter instance that `caller_id` names.
    pub fn new(caller_id: &str) -> (scope: LogScope)
        ensures
            scope@ == caller_id@,
    {
        LogScope { caller: caller_id.to_owned() }
    }

    /// The caller identifier that tags the records of this scope.
    pub fn caller(&self) -> (id: &str)
        ensures
            id@ == self@,
    {
        self.caller.as_str()
    }

    /// The record by which a logging entry forwards `message`: the text as it
    /// came, at the entry's severity, tagged with the scope's caller.
    pub fn record(&self, level: Level, message: String) -> (record: LogRecord)
        ensures
            record@ == (LogRecordView { level, caller: Some(self@), message: message@ }),
    {
        LogRecord { level, caller: Some(self.caller.clone()), message }
    }
}

} // verus!
