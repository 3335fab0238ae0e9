//! The state of a logger and its decisions: which messages are written, how a
//! line reads, when the log rotates, and which old files go.

use vstd::prelude::*;
use vstd::string::*;
use crate::infrastructure::text::{ends_with, has_suffix, same_text};
use super::level::LogLevel;

verus! {

/// One message that passed the filter, ready to be written.
#[derive(Clone, Debug, PartialEq, Eq)]
pub struct LogRecord {
    pub level: LogLevel,
    pub domain: String,
    pub message: String,
    /// Whether the message goes to the log file as well as to the console.
    pub to_file: bool,
}

/// The mathematical model of a [`LogRecord`].
pub struct LogRecordView {
    pub level: LogLevel,
    pub domain: Seq<char>,
    pub message: Seq<char>,
    pub to_file: bool,
}

impl LogRecordView {
    /// The line written for this record at the given time:
    /// `<timestamp> [<LEVEL>] <domain> - <message>`.
    pub open spec fn line(self, timestamp: Seq<char>) -> Seq<char> {
        timestamp + " ["@ + self.level.label() + "] "@ + self.domain + " - "@ + self.message
    }
}

impl View for LogRecord {
    type V = LogRecordView;

    open spec fn view(&self) -> LogRecordView {
        LogRecordView {
            level: self.level,
            domain: self.domain@,
            message: self.message@,
            to_file: self.to_file,
        }
    }
}

impl LogRecord {
    /// Writes the line of this record, stamped with `timestamp`.
    pub fn line(&self, timestamp: &str) -> (text: String)
        ensures
            text@ == self@.line(timestamp@),
    {
        let mut text = timestamp.to_owned();
        text.append(" [");
        text.append(self.level.as_label());
        text.append("] ");
        text.append(self.domain.as_str());
        text.append(" - ");
        text.append(self.message.as_str());
        text
    }
}

/// The model of an optional piece of text.
pub open spec fn text_view(text: Option<String>) -> Option<Seq<char>> {
    match text {
        Some(text) => Some(text@),
        None => None,
    }
}

/// The model of an optional record.
pub open spec fn record_view(record: Option<LogRecord>) -> Option<LogRecordView> {
    match record {
        Some(record) => Some(record@),
        None => None,
    }
}

/// The name of the log file of a day: `<date>.log`.
pub open spec fn log_file_name(date: Seq<char>) -> Seq<char> {
    date + ".log"@
}

/// The name a log file gets when it is rotated away: `<date>.log.old`.
pub open spec fn rotated_file_name(date: Seq<char>) -> Seq<char> {
    date + ".log.old"@
}

/// A file of the log directory: its name and when it was last modified.
pub type LogFileView = (Seq<char>, u64);

/// Whether a directory entry of this name is a log file: the name ends in
/// `.log`, with something before the dot.
pub open spec fn is_log_file(name: Seq<char>) -> bool {
    name.len() >= 5 && ends_with(name, ".log"@)
}

/// `sorted` with `file` put behind every file that was not modified later.
pub open spec fn placed(sorted: Seq<LogFileView>, file: LogFileView) -> Seq<LogFileView>
    decreases sorted.len(),
{
    if sorted.len() == 0 {
        seq![file]
    } else if sorted.last().1 <= file.1 {
        sorted.push(file)
    } else {
        placed(sorted.drop_last(), file).push(sorted.last())
    }
}

/// The log files among `entries`, the one modified longest ago first. Files
/// modified at the same time keep the order of the directory.
pub open spec fn oldest_first(entries: Seq<LogFileView>) -> Seq<LogFileView>
    decreases entries.len(),
{
    if entries.len() == 0 {
        Seq::empty()
    } else if is_log_file(entries.last().0) {
        placed(oldest_first(entries.drop_last()), entries.last())
    } else {
        oldest_first(entries.drop_last())
    }
}

/// The names of the log files to delete so that at most `keep` remain: the
/// ones modified longest ago, oldest first.
pub open spec fn expired(entries: Seq<LogFileView>, keep: nat) -> Seq<Seq<char>> {
    let files = oldest_first(entries);
    if files.len() <= keep {
        Seq::empty()
    } else {
        Seq::new((files.len() - keep) as nat, |i: int| files[i].0)
    }
}

/// Whether the files are in order of modification, oldest first.
pub open spec fn in_order(files: Seq<LogFileView>) -> bool {
    forall|i: int, j: int| 0 <= i <= j < files.len() ==> files[i].1 <= files[j].1
}

/// Placing a file keeps the order, adds the file and nothing else.
pub proof fn lemma_placed(sorted: Seq<LogFileView>, file: LogFileView)
    requires
        in_order(sorted),
    ensures
        in_order(placed(sorted, file)),
        placed(sorted, file).to_multiset() == sorted.to_multiset().insert(file),
        placed(sorted, file).len() == sorted.len() + 1,
    decreases sorted.len(),
{
    broadcast use vstd::seq_lib::group_to_multiset_ensures;

    if sorted.len() == 0 {
        assert(sorted =~= Seq::empty());
        assert(seq![file] =~= Seq::<LogFileView>::empty().push(file));
    } else if sorted.last().1 <= file.1 {
    } else {
        let shorter = sorted.drop_last();
        lemma_placed(shorter, file);
        let inner = placed(shorter, file);
        let result = inner.push(sorted.last());
        assert forall|i: int, j: int| 0 <= i <= j < result.len() implies result[i].1
            <= result[j].1 by {
            if j == result.len() - 1 && i < j {
                // every file of `inner` is `file` or a file of `shorter`
                assert(inner.to_multiset().count(inner[i]) > 0);
                if inner[i] != file {
                    assert(shorter.to_multiset().count(inner[i]) > 0);
                    let k = choose|k: int| 0 <= k < shorter.len() && shorter[k] == inner[i];
                    assert(sorted[k] == inner[i]);
                }
            }
        }
        assert(sorted =~= shorter.push(sorted.last()));
        assert(result.to_multiset() =~= sorted.to_multiset().insert(file));
    }
}

/// The files that `oldest_first` returns are the log files of the listing,
/// each as often as the listing holds it, in order of modification.
pub proof fn lemma_oldest_first_in_order(entries: Seq<LogFileView>)
    ensures
        in_order(oldest_first(entries)),
        oldest_first(entries).len() <= entries.len(),
        oldest_first(entries).to_multiset() == entries.filter(
            |file: LogFileView| is_log_file(file.0),
        ).to_multiset(),
    decreases entries.len(),
{
    broadcast use vstd::seq_lib::group_to_multiset_ensures;

    reveal(Seq::filter);
    let log = |file: LogFileView| is_log_file(file.0);
    if entries.len() > 0 {
        lemma_oldest_first_in_order(entries.drop_last());
        if is_log_file(entries.last().0) {
            lemma_placed(oldest_first(entries.drop_last()), entries.last());
            assert(entries.filter(log) == entries.drop_last().filter(log).push(entries.last()));
        } else {
            assert(entries.filter(log) == entries.drop_last().filter(log));
        }
    } else {
        assert(entries.filter(log) =~= Seq::empty());
        assert(oldest_first(entries) =~= Seq::empty());
    }
}

/// Where `file` goes among files in order, and that it goes there.
proof fn lemma_placed_at(sorted: Seq<LogFileView>, file: LogFileView, position: int)
    requires
        0 <= position <= sorted.len(),
        forall|i: int| position <= i < sorted.len() ==> sorted[i].1 > file.1,
        position > 0 ==> sorted[position - 1].1 <= file.1,
    ensures
        placed(sorted, file) == sorted.insert(position, file),
    decreases sorted.len() - position,
{
    if position == sorted.len() {
        assert(sorted.insert(position, file) =~= sorted.push(file));
        if sorted.len() == 0 {
            assert(sorted.push(file) =~= seq![file]);
        }
    } else {
        let shorter = sorted.drop_last();
        lemma_placed_at(shorter, file, position);
        assert(shorter.insert(position, file).push(sorted.last()) =~= sorted.insert(
            position,
            file,
        ));
    }
}

/// Puts `file` behind every file of `files` that was not modified later.
fn place(files: &mut Vec<(String, u64)>, file: (String, u64))
    ensures
        final(files).deep_view() == placed(old(files).deep_view(), file.deep_view()),
{
    let ghost sorted = files.deep_view();
    let mut position = files.len();
    while position > 0 && files[position - 1].1 > file.1
        invariant
            position <= files.len(),
            sorted == files.deep_view(),
            forall|i: int| position <= i < sorted.len() ==> sorted[i].1 > file.1,
        decreases position,
    {
        position -= 1;
    }
    proof {
        lemma_placed_at(sorted, file.deep_view(), position as int);
    }
    files.insert(position, file);
    assert(files.deep_view() =~= sorted.insert(position as int, file.deep_view()));
}

/// The state of a logger: what it lets through, which domain it writes
/// under, and where its file lives.
pub struct InternalLogger {
    log_level: LogLevel,
    is_enabled: bool,
    log_dir: Option<String>,
    max_log_size: u64,
    max_log_count: usize,
    domain: Option<String>,
    current_log_path: Option<String>,
}

/// The mathematical model of an [`InternalLogger`].
pub struct InternalLoggerView {
    pub log_level: LogLevel,
    pub is_enabled: bool,
    pub log_dir: Option<Seq<char>>,
    pub max_log_size: u64,
    pub max_log_count: usize,
    pub domain: Option<Seq<char>>,
    pub current_log_path: Option<Seq<char>>,
}

impl InternalLoggerView {
    /// The domain messages are written under: the one set, or `Logger`.
    pub open spec fn effective_domain(self) -> Seq<char> {
        match self.domain {
            Some(domain) => domain,
            None => "Logger"@,
        }
    }

    /// This state with the domain of the next message set: `LOGGER` for a
    /// message without a domain.
    pub open spec fn tagged(self, domain: Seq<char>) -> InternalLoggerView {
        InternalLoggerView {
            domain: Some(
                if domain.len() == 0 {
                    "LOGGER"@
                } else {
                    domain
                },
            ),
            ..self
        }
    }

    /// Whether messages go to a file: when a directory with a name is set.
    pub open spec fn writes_file(self) -> bool {
        self.log_dir matches Some(directory) && directory.len() > 0
    }

    /// The record written for a message: the message is written exactly
    /// when the logger is enabled and the level of the message does not come
    /// before the level of the logger.
    pub open spec fn record(self, level: LogLevel, message: Seq<char>) -> Option<LogRecordView> {
        if self.is_enabled && level.passes(self.log_level) {
            Some(
                LogRecordView {
                    level,
                    domain: self.effective_domain(),
                    message,
                    to_file: self.writes_file(),
                },
            )
        } else {
            None
        }
    }

    /// Whether the log is rotated, given its size if that could be read: it
    /// is when a directory is set and the size is beyond the limit.
    pub open spec fn rotation_due(self, size: Option<u64>) -> bool {
        &&& self.log_dir is Some
        &&& size matches Some(bytes) && bytes > self.max_log_size
    }

    /// Whether the file at `path` must be opened: when a directory is set
    /// and the file that is open, if any, is another one.
    pub open spec fn must_open(self, path: Seq<char>) -> bool {
        self.log_dir is Some && self.current_log_path != Some(path)
    }
}

impl View for InternalLogger {
    type V = InternalLoggerView;

    closed spec fn view(&self) -> InternalLoggerView {
        InternalLoggerView {
            log_level: self.log_level,
            is_enabled: self.is_enabled,
            log_dir: text_view(self.log_dir),
            max_log_size: self.max_log_size,
            max_log_count: self.max_log_count,
            domain: text_view(self.domain),
            current_log_path: text_view(self.current_log_path),
        }
    }
}

impl InternalLogger {
    /// A logger with no file open yet. Without a domain it writes under `Logger`.
    pub fn new(
        log_level: LogLevel,
        is_enabled: bool,
        log_dir: Option<String>,
        max_log_size: u64,
        max_log_count: usize,
        domain: Option<String>,
    ) -> (logger: Self)
        ensures
            logger@ == (InternalLoggerView {
                log_level,
                is_enabled,
                log_dir: text_view(log_dir),
                max_log_size,
                max_log_count,
                domain: Some(
                    match domain {
                        Some(domain) => domain@,
                        None => "Logger"@,
                    },
                ),
                current_log_path: None,
            }),
    {
        let domain = match domain {
            Some(domain) => domain,
            None => "Logger".to_owned(),
        };
        InternalLogger {
            log_level,
            is_enabled,
            log_dir,
            max_log_size,
            max_log_count,
            domain: Some(domain),
            current_log_path: None,
        }
    }

    pub fn set_domain(&mut self, domain: String)
        ensures
            final(self)@ == (InternalLoggerView { domain: Some(domain@), ..old(self)@ }),
    {
        self.domain = Some(domain);
    }

    pub fn set_level(&mut self, log_level: LogLevel)
        ensures
            final(self)@ == (InternalLoggerView { log_level, ..old(self)@ }),
    {
        self.log_level = log_level;
    }

    pub fn set_enabled(&mut self, enabled: bool)
        ensures
            final(self)@ == (InternalLoggerView { is_enabled: enabled, ..old(self)@ }),
    {
        self.is_enabled = enabled;
    }

    pub fn log_level(&self) -> (level: LogLevel)
        ensures
            level == self@.log_level,
    {
        self.log_level
    }

    pub fn is_enabled(&self) -> (enabled: bool)
        ensures
            enabled == self@.is_enabled,
    {
        self.is_enabled
    }

    /// The directory of the log files, if one is set.
    pub fn log_dir(&self) -> (directory: Option<&String>)
        ensures
            match directory {
                Some(directory) => self@.log_dir == Some(directory@),
                None => self@.log_dir is None,
            },
    {
        self.log_dir.as_ref()
    }

    pub fn max_log_size(&self) -> (limit: u64)
        ensures
            limit == self@.max_log_size,
    {
        self.max_log_size
    }

    pub fn max_log_count(&self) -> (limit: usize)
        ensures
            limit == self@.max_log_count,
    {
        self.max_log_count
    }

    /// Decides what to write for a message: nothing when the logger is
    /// disabled or the level of the message comes before the level of the
    /// logger, the record otherwise.
    pub fn log(&self, level: LogLevel, message: &str) -> (record: Option<LogRecord>)
        ensures
            record_view(record) == self@.record(level, message@),
    {
        if !self.is_enabled || !level.is_enabled_at(self.log_level) {
            return None;
        }
        let domain = match &self.domain {
            Some(domain) => domain.clone(),
            None => "Logger".to_owned(),
        };
        let to_file = match &self.log_dir {
            Some(directory) => !same_text(directory.as_str(), ""),
            None => false,
        };
        proof {
            reveal_strlit("");
            if self@.log_dir is Some {
                let directory = self@.log_dir->0;
                assert(directory.len() == 0 <==> directory =~= ""@);
            }
        }
        Some(LogRecord { level, domain, message: message.to_owned(), to_file })
    }

    /// Decides whether the log is rotated now. `size` is the size of the log
    /// in bytes, if it could be read. A logger that rotates lets go of its
    /// directory.
    pub fn rotate_logs(&mut self, size: Option<u64>) -> (due: bool)
        ensures
            due == old(self)@.rotation_due(size),
            final(self)@ == if due {
                InternalLoggerView { log_dir: None, ..old(self)@ }
            } else {
                old(self)@
            },
    {
        let due = match (&self.log_dir, size) {
            (Some(_), Some(bytes)) => bytes > self.max_log_size,
            _ => false,
        };
        if due {
            self.log_dir = None;
        }
        due
    }

    /// Decides whether the log file at `path` must be opened.
    pub fn init_log_file(&self, path: &str) -> (open: bool)
        ensures
            open == self@.must_open(path@),
    {
        match (&self.log_dir, &self.current_log_path) {
            (None, _) => false,
            (Some(_), None) => true,
            (Some(_), Some(current)) => !same_text(current.as_str(), path),
        }
    }

    /// Records that the log file at `path` is open.
    pub fn log_file_opened(&mut self, path: String)
        ensures
            final(self)@ == (InternalLoggerView { current_log_path: Some(path@), ..old(self)@ }),
    {
        self.current_log_path = Some(path);
    }

    /// Whether the directory entry `name` is a log file.
    pub fn is_log_file(name: &str) -> (log: bool)
        ensures
            log == is_log_file(name@),
    {
        name.unicode_len() >= 5 && has_suffix(name, ".log")
    }

    /// Chooses the log files to delete among the entries of the log
    /// directory, each given with the time it was last modified: the oldest
    /// ones, so that no more files remain than this logger keeps. A logger
    /// without a directory deletes nothing.
    pub fn cleanup_old_logs(&self, entries: &Vec<(String, u64)>) -> (doomed: Vec<String>)
        ensures
            doomed.deep_view() == if self@.log_dir is Some {
                expired(entries.deep_view(), self@.max_log_count as nat)
            } else {
                Seq::empty()
            },
    {
        let mut doomed: Vec<String> = Vec::new();
        if self.log_dir.is_none() {
            assert(doomed.deep_view() =~= Seq::empty());
            return doomed;
        }
        let ghost listed = entries.deep_view();
        let mut files: Vec<(String, u64)> = Vec::new();
        let mut i: usize = 0;
        assert(files.deep_view() =~= oldest_first(listed.take(0)));
        while i < entries.len()
            invariant
                i <= entries.len(),
                listed == entries.deep_view(),
                files.deep_view() == oldest_first(listed.take(i as int)),
            decreases entries.len() - i,
        {
            proof {
                assert(listed.take(i as int + 1).drop_last() =~= listed.take(i as int));
                assert(listed.take(i as int + 1).last() == listed[i as int]);
            }
            if Self::is_log_file(entries[i].0.as_str()) {
                place(&mut files, (entries[i].0.clone(), entries[i].1));
            }
            i += 1;
        }
        assert(listed.take(entries.len() as int) =~= listed);
        if files.len() <= self.max_log_count {
            assert(doomed.deep_view() =~= Seq::empty());
            return doomed;
        }
        let excess = files.len() - self.max_log_count;
        let mut k: usize = 0;
        while k < excess
            invariant
                k <= excess <= files.len(),
                doomed.len() == k,
                forall|j: int| 0 <= j < k ==> doomed[j]@ == files[j].0@,
            decreases excess - k,
        {
            doomed.push(files[k].0.clone());
            k += 1;
        }
        assert(doomed.deep_view() =~= expired(listed, self@.max_log_count as nat));
        doomed
    }

    /// The name of the log file of the day written as `date`.
    pub fn log_file_name(date: &str) -> (name: String)
        ensures
            name@ == log_file_name(date@),
    {
        let mut name = date.to_owned();
        name.append(".log");
        name
    }

    /// The name the log file of the day written as `date` gets when it is
    /// rotated away.
    pub fn rotated_file_name(date: &str) -> (name: String)
        ensures
            name@ == rotated_file_name(date@),
    {
        let mut name = date.to_owned();
        name.append(".log.old");
        name
    }
}

} // verus!
