//! Reports and the log records made of them.
//!
//! The rest of the crate says what is to be reported; a `Logger` turns each
//! report into the text for the console and the dated entry for the log file.
//! Writing them out is left to the caller.

use vstd::prelude::*;

verus! {

/// Something to tell the operator.
#[derive(Debug, Clone, PartialEq, Eq)]
pub enum Report {
    /// A line of progress.
    Line(String),
    /// An error.
    Error(String),
    /// Text that goes out as it is, with no line break added.
    Raw(String),
}

/// What a `Report` holds, as sequences of characters.
pub enum ReportView {
    Line(Seq<char>),
    Error(Seq<char>),
    Raw(Seq<char>),
}

impl View for Report {
    type V = ReportView;

    open spec fn view(&self) -> ReportView {
        match self {
            Report::Line(text) => ReportView::Line(text@),
            Report::Error(text) => ReportView::Error(text@),
            Report::Raw(text) => ReportView::Raw(text@),
        }
    }
}

impl DeepView for Report {
    type V = ReportView;

    open spec fn deep_view(&self) -> ReportView {
        self@
    }
}

/// A report made ready for writing.
#[derive(Debug, Clone, PartialEq, Eq)]
pub struct LogRecord {
    /// Whether `console` goes to the error stream.
    pub to_stderr: bool,
    /// The text for the console.
    pub console: String,
    /// The text to append to the log file.
    pub entry: String,
}

/// The format of the time at the head of a log entry.
pub open spec fn time_format() -> Seq<char> {
    "%Y-%m-%d %H:%M:%S"@
}

/// What goes to the console for a report.
pub open spec fn console_text(report: ReportView) -> Seq<char> {
    match report {
        ReportView::Line(text) => text + "\n"@,
        ReportView::Error(text) => "ERROR: "@ + text + "\n"@,
        ReportView::Raw(text) => text,
    }
}

/// The log entry for a report made at the time that `stamp` stands for.
pub open spec fn entry_text(stamp: Seq<char>, report: ReportView) -> Seq<char> {
    match report {
        ReportView::Line(text) => "["@ + stamp + "] "@ + text + "\n"@ + "\n"@,
        ReportView::Error(text) => "["@ + stamp + "] ERROR: "@ + text + "\n"@,
        ReportView::Raw(text) => "["@ + stamp + "] "@ + text + "\n"@,
    }
}

/// Whether `record` is `report` made ready at the time that `stamp` stands
/// for.
pub open spec fn records_at(record: LogRecord, stamp: Seq<char>, report: ReportView) -> bool {
    &&& record.to_stderr == (report is Error)
    &&& record.console@ == console_text(report)
    &&& record.entry@ == entry_text(stamp, report)
}

/// Whether `record` is `report` made ready at some time.
pub open spec fn records(record: LogRecord, report: ReportView) -> bool {
    exists|stamp: Seq<char>| records_at(record, stamp, report)
}

/// Whether `records` are `reports` made ready, one by one and in order.
pub open spec fn records_all(made: Seq<LogRecord>, reports: Seq<ReportView>) -> bool {
    &&& made.len() == reports.len()
    &&& forall|i: int| 0 <= i < made.len() ==> records(#[trigger] made[i], reports[i])
}

/// The local time of the machine's clock, written in `format`.
///
/// Calls `chrono::Local::now`, then `DateTime::format` on what it returns,
/// and writes the result out as a `String`. Nothing is claimed of the text:
/// it depends on the clock and on the time zone. The format is held to the
/// one that this module uses: its items are the year, month, day, hour,
/// minute and second, which `chrono` writes for every time of day; a format
/// with an item that it does not know would make the writing fail.
#[verifier::external_body]
fn local_time(format: &str) -> (stamp: String)
    requires
        format@ == time_format(),
{
    chrono::Local::now().format(format).to_string()
}

/// Makes log records, dated by the machine's clock, for the file at
/// `log_file`.
pub struct Logger {
    log_file: String,
}

impl Logger {
    /// A logger for the file at `log_file`.
    pub fn new(log_file: String) -> (logger: Self)
        ensures
            logger.log_file() == log_file@,
    {
        Logger { log_file }
    }

    /// The path of the log file.
    pub closed spec fn log_file(&self) -> Seq<char> {
        self.log_file@
    }

    /// The path of the file that the entries are meant for.
    pub fn path(&self) -> (path: &str)
        ensures
            path@ == self.log_file(),
    {
        self.log_file.as_str()
    }

    /// Makes `report` ready as of the time that `stamp` stands for.
    pub fn stamped(stamp: &str, report: &Report) -> (record: LogRecord)
        ensures
            records_at(record, stamp@, report@),
    {
        let mut entry = "[".to_owned();
        entry.append(stamp);
        match report {
            Report::Line(text) => {
                let mut console = text.clone();
                console.append("\n");
                entry.append("] ");
                entry.append(text.as_str());
                entry.append("\n");
                entry.append("\n");
                LogRecord { to_stderr: false, console, entry }
            },
            Report::Error(text) => {
                let mut console = "ERROR: ".to_owned();
                console.append(text.as_str());
                console.append("\n");
                entry.append("] ERROR: ");
                entry.append(text.as_str());
                entry.append("\n");
                LogRecord { to_stderr: true, console, entry }
            },
            Report::Raw(text) => {
                entry.append("] ");
                entry.append(text.as_str());
                entry.append("\n");
                LogRecord { to_stderr: false, console: text.clone(), entry }
            },
        }
    }

    /// Makes `report` ready as of now.
    pub fn record(&self, report: &Report) -> (record: LogRecord)
        ensures
            records(record, report@),
    {
        let stamp = local_time("%Y-%m-%d %H:%M:%S");
        let record = Logger::stamped(stamp.as_str(), report);
        assert(records_at(record, stamp@, report@));
        record
    }

    /// Makes `reports` ready, each as of the moment its turn comes.
    pub fn record_all(&self, reports: &Vec<Report>) -> (made: Vec<LogRecord>)
        ensures
            records_all(made@, reports.deep_view()),
    {
        let mut made: Vec<LogRecord> = Vec::new();
        let mut i: usize = 0;
        while i < reports.len()
            invariant
                i <= reports.len(),
                made.len() == i,
                forall|k: int| 0 <= k < i ==> records(#[trigger] made@[k], reports@[k]@),
            decreases reports.len() - i,
        {
            let record = self.record(&reports[i]);
            made.push(record);
            i += 1;
        }
        made
    }

    /// Logs `message` as it is: the console gets it unchanged, the file a
    /// dated entry.
    pub fn log(&self, message: &str) -> (record: LogRecord)
        ensures
            records(record, ReportView::Raw(message@)),
    {
        self.record(&Report::Raw(message.to_owned()))
    }

    /// Logs `message` as a line of its own.
    pub fn log_line(&self, message: &str) -> (record: LogRecord)
        ensures
            records(record, ReportView::Line(message@)),
    {
        self.record(&Report::Line(message.to_owned()))
    }

    /// Logs `message` as an error, on the error stream.
    pub fn log_error(&self, message: &str) -> (record: LogRecord)
        ensures
            records(record, ReportView::Error(message@)),
    {
        self.record(&Report::Error(message.to_owned()))
    }
}

} // verus!
