//! The session log: an append-only transcript of one build session.
//!
//! The logger formats and orders the entries; it never touches a file. What
//! `flush` hands out is what has to be appended to the log file, so the file
//! is `header` followed by everything `flush` ever returned.

use crate::paths::{join_path, joined_path};
use crate::text::{decimal, lemma_deep_view_push, push_decimal, text3, text5};
use vstd::prelude::*;
use vstd::seq_lib::lemma_flatten_concat;
use vstd::string::*;

verus! {

/// What a logger is, to a contract.
pub struct LoggerModel {
    pub log_file: Seq<char>,
    pub build_id: Seq<char>,
    pub header: Seq<char>,
    /// One text per logged entry, in the order of the calls.
    pub entries: Seq<Seq<char>>,
    /// How many of the entries `flush` has handed out already.
    pub flushed: nat,
}

/// The directory that holds the session logs of `build_dir`.
pub open spec fn logs_dir_path(build_dir: Seq<char>, windows_host: bool) -> Seq<char> {
    joined_path(build_dir, "logs"@, windows_host)
}

/// The name of the log file of the session `build_id`.
pub open spec fn log_file_name(build_id: Seq<char>) -> Seq<char> {
    "build-"@ + build_id + ".log"@
}

/// The log file of the session `build_id` under `build_dir`.
pub open spec fn log_file_path(build_dir: Seq<char>, build_id: Seq<char>, windows_host: bool) -> Seq<
    char,
> {
    joined_path(logs_dir_path(build_dir, windows_host), log_file_name(build_id), windows_host)
}

/// The block that opens a log file.
pub open spec fn log_header(build_id: Seq<char>, timestamp: u64) -> Seq<char> {
    "=== repx Log ===\nBuild ID: "@ + build_id + "\nTimestamp: "@ + decimal(timestamp as nat)
        + "\n=====================\n\n"@
}

/// One entry: the time in square brackets, the message, a line feed.
pub open spec fn log_entry(timestamp: u64, message: Seq<char>) -> Seq<char> {
    "["@ + decimal(timestamp as nat) + "] "@ + message + "\n"@
}

/// The rule that closes a command's entry: eighty hyphens.
pub open spec fn command_rule() -> Seq<char> {
    "--------------------------------------------------------------------------------"@
}

/// The message that pairs a command with what it printed.
pub open spec fn command_message(command: Seq<char>, output: Seq<char>) -> Seq<char> {
    "Command: "@ + command + "\nOutput:\n"@ + output + "\n"@ + command_rule() + "\n"@
}

/// One line of a configuration snapshot.
pub open spec fn config_line(key: Seq<char>, value: Seq<char>) -> Seq<char> {
    "  "@ + key + ": "@ + value + "\n"@
}

/// The lines of a configuration snapshot, in the order given.
pub open spec fn config_lines(config: Seq<(Seq<char>, Seq<char>)>) -> Seq<char>
    decreases config.len(),
{
    if config.len() == 0 {
        Seq::empty()
    } else {
        config_lines(config.drop_last()) + config_line(config.last().0, config.last().1)
    }
}

/// The message that holds a configuration snapshot.
pub open spec fn config_message(config: Seq<(Seq<char>, Seq<char>)>) -> Seq<char> {
    "Build Configuration:\n"@ + config_lines(config)
}

/// The message that closes a session.
pub open spec fn completion_message(success: bool) -> Seq<char> {
    "\n=== Build Complete ===\nStatus: "@ + (if success {
        "SUCCESS"@
    } else {
        "FAILURE"@
    }) + "\n=====================\n"@
}

impl LoggerModel {
    /// The logger of a session that has logged nothing yet.
    pub open spec fn fresh(
        build_dir: Seq<char>,
        build_id: Seq<char>,
        timestamp: u64,
        windows_host: bool,
    ) -> Self {
        LoggerModel {
            log_file: log_file_path(build_dir, build_id, windows_host),
            build_id,
            header: log_header(build_id, timestamp),
            entries: Seq::empty(),
            flushed: 0,
        }
    }

    /// The logger after one more entry.
    pub open spec fn logged(self, timestamp: u64, message: Seq<char>) -> Self {
        LoggerModel { entries: self.entries.push(log_entry(timestamp, message)), ..self }
    }

    /// The logger after the messages `messages`, logged in order at one time.
    pub open spec fn logged_all(self, timestamp: u64, messages: Seq<Seq<char>>) -> Self
        decreases messages.len(),
    {
        if messages.len() == 0 {
            self
        } else {
            self.logged_all(timestamp, messages.drop_last()).logged(timestamp, messages.last())
        }
    }

    /// The entries that no `flush` has handed out yet, in a row.
    pub open spec fn pending(self) -> Seq<char> {
        self.entries.skip(self.flushed as int).flatten()
    }

    /// The logger after a `flush`.
    pub open spec fn flushed_all(self) -> Self {
        LoggerModel { flushed: self.entries.len(), ..self }
    }

    /// What the log file holds once everything that `flush` returned has
    /// been appended to the header.
    pub open spec fn on_disk(self) -> Seq<char> {
        self.header + self.entries.take(self.flushed as int).flatten()
    }

    /// The header and every entry, each once, in the order of the calls.
    pub open spec fn transcript(self) -> Seq<char> {
        self.header + self.entries.flatten()
    }

    /// No more entries count as handed out than were logged.
    pub open spec fn wf(self) -> bool {
        self.flushed <= self.entries.len()
    }
}

/// The message that pairs a command with what it printed.
pub fn command_entry(command: &str, output: &str) -> (r: String)
    ensures
        r@ == command_message(command@, output@),
{
    let mut r = text5("Command: ", command, "\nOutput:\n", output, "\n");
    r.append("--------------------------------------------------------------------------------");
    r.append("\n");
    r
}

/// The message that closes a session.
pub fn completion_entry(success: bool) -> (r: String)
    ensures
        r@ == completion_message(success),
{
    let mut r = String::from_str("\n=== Build Complete ===\nStatus: ");
    if success {
        r.append("SUCCESS");
    } else {
        r.append("FAILURE");
    }
    r.append("\n=====================\n");
    r
}

/// A digit of a number in base sixteen, in lower case.
pub open spec fn is_lower_hex(c: char) -> bool {
    ('0' <= c && c <= '9') || ('a' <= c && c <= 'f')
}

/// The form of a session identifier: thirty-six characters, hyphens after
/// the eighth, twelfth, sixteenth and twentieth digit, and digits in base
/// sixteen, in lower case, everywhere else.
pub open spec fn is_session_identifier(id: Seq<char>) -> bool {
    &&& id.len() == 36
    &&& id[8] == '-'
    &&& id[13] == '-'
    &&& id[18] == '-'
    &&& id[23] == '-'
    &&& forall|i: int|
        0 <= i < 36 && i != 8 && i != 13 && i != 18 && i != 23 ==> is_lower_hex(#[trigger] id[i])
}

/// A fresh random session identifier: `uuid::Uuid::new_v4`, written as its
/// `Display` writes it, in lower-case digits with hyphens. Nothing is
/// promised of the digits but that they are digits: every outcome has the
/// form of a session identifier.
#[verifier::external_body]
fn fresh_build_id() -> (id: String)
    ensures
        is_session_identifier(id@),
{
    uuid::Uuid::new_v4().to_string()
}

/// The transcript of one build session.
pub struct BuildLogger {
    log_file: String,
    build_id: String,
    header: String,
    /// The entries that `flush` has handed out.
    written: Ghost<Seq<Seq<char>>>,
    /// The entries that it has not, oldest first.
    pending: Vec<String>,
}

impl View for BuildLogger {
    type V = LoggerModel;

    closed spec fn view(&self) -> LoggerModel {
        LoggerModel {
            log_file: self.log_file@,
            build_id: self.build_id@,
            header: self.header@,
            entries: self.written@ + self.pending.deep_view(),
            flushed: self.written@.len(),
        }
    }
}

impl BuildLogger {
    /// No more entries count as handed out than were logged.
    pub proof fn lemma_well_formed(&self)
        ensures
            self@.wf(),
    {
    }

    /// The directory in which the log file of a session under `build_dir` is
    /// to be created.
    pub fn logs_dir(build_dir: &str, windows_host: bool) -> (r: String)
        ensures
            r@ == logs_dir_path(build_dir@, windows_host),
    {
        join_path(build_dir, "logs", windows_host)
    }

    /// A logger for a new session under `build_dir`, with an identifier of
    /// its own; `timestamp` is the time of creation, in seconds, and
    /// `windows_host` says whether the host is a Windows machine.
    pub fn new(build_dir: &str, timestamp: u64, windows_host: bool) -> (r: BuildLogger)
        ensures
            r@ == LoggerModel::fresh(build_dir@, r@.build_id, timestamp, windows_host),
            is_session_identifier(r@.build_id),
    {
        let id = fresh_build_id();
        BuildLogger::with_id(build_dir, id.as_str(), timestamp, windows_host)
    }

    /// A logger for the session `build_id` under `build_dir`.
    pub fn with_id(build_dir: &str, build_id: &str, timestamp: u64, windows_host: bool) -> (r:
        BuildLogger)
        ensures
            r@ == LoggerModel::fresh(build_dir@, build_id@, timestamp, windows_host),
    {
        let logs = BuildLogger::logs_dir(build_dir, windows_host);
        let name = text3("build-", build_id, ".log");
        let log_file = join_path(logs.as_str(), name.as_str(), windows_host);
        let mut header = String::from_str("=== repx Log ===\nBuild ID: ");
        header.append(build_id);
        header.append("\nTimestamp: ");
        push_decimal(&mut header, timestamp);
        header.append("\n=====================\n\n");
        let pending: Vec<String> = Vec::new();
        assert(Seq::<Seq<char>>::empty() + pending.deep_view() =~= Seq::<Seq<char>>::empty());
        BuildLogger {
            log_file,
            build_id: String::from_str(build_id),
            header,
            written: Ghost(Seq::empty()),
            pending,
        }
    }

    /// The session's identifier.
    pub fn build_id(&self) -> (r: &str)
        ensures
            r@ == self@.build_id,
    {
        self.build_id.as_str()
    }

    /// The path of the session's log file.
    pub fn log_file(&self) -> (r: &str)
        ensures
            r@ == self@.log_file,
    {
        self.log_file.as_str()
    }

    /// The block with which the log file starts.
    pub fn header(&self) -> (r: &str)
        ensures
            r@ == self@.header,
    {
        self.header.as_str()
    }

    /// Appends the entry for `message`, stamped with `timestamp`.
    pub fn log(&mut self, timestamp: u64, message: &str)
        ensures
            final(self)@ == old(self)@.logged(timestamp, message@),
    {
        let mut entry = String::from_str("[");
        push_decimal(&mut entry, timestamp);
        entry.append("] ");
        entry.append(message);
        entry.append("\n");
        let ghost before = self.pending;
        self.pending.push(entry);
        proof {
            lemma_deep_view_push(before, self.pending, entry);
            assert(self.written@ + before.deep_view().push(entry@) =~= (self.written@
                + before.deep_view()).push(entry@));
        }
    }

    /// Appends one entry for each of `messages`, in order, all stamped with
    /// `timestamp`.
    pub fn log_all(&mut self, timestamp: u64, messages: &Vec<String>)
        ensures
            final(self)@ == old(self)@.logged_all(timestamp, messages.deep_view()),
    {
        let mut i: usize = 0;
        assert(messages.deep_view().take(0) =~= Seq::<Seq<char>>::empty());
        while i < messages.len()
            invariant
                i <= messages.len(),
                self@ == old(self)@.logged_all(timestamp, messages.deep_view().take(i as int)),
            decreases messages.len() - i,
        {
            let ghost now = messages.deep_view().take(i + 1);
            assert(now.drop_last() =~= messages.deep_view().take(i as int));
            assert(now.last() == messages@[i as int]@);
            self.log(timestamp, messages[i].as_str());
            i += 1;
        }
        assert(messages.deep_view().take(messages.len() as int) =~= messages.deep_view());
    }

    /// Appends the entry that pairs `command` with what it printed.
    pub fn log_command(&mut self, timestamp: u64, command: &str, output: &str)
        ensures
            final(self)@ == old(self)@.logged(timestamp, command_message(command@, output@)),
    {
        let message = command_entry(command, output);
        self.log(timestamp, message.as_str());
    }

    /// Appends a snapshot of the build's configuration: one line for each
    /// pair of `config`, in the order given.
    pub fn log_build_config(&mut self, timestamp: u64, config: &Vec<(String, String)>)
        ensures
            final(self)@ == old(self)@.logged(timestamp, config_message(config.deep_view())),
    {
        let mut lines = String::new();
        let mut i: usize = 0;
        assert(config.deep_view().take(0) =~= Seq::<(Seq<char>, Seq<char>)>::empty());
        while i < config.len()
            invariant
                i <= config.len(),
                lines@ == config_lines(config.deep_view().take(i as int)),
            decreases config.len() - i,
        {
            let ghost now = config.deep_view().take(i + 1);
            assert(now.drop_last() =~= config.deep_view().take(i as int));
            assert(now.last() == (config@[i as int].0@, config@[i as int].1@));
            lines.append("  ");
            lines.append(config[i].0.as_str());
            lines.append(": ");
            lines.append(config[i].1.as_str());
            lines.append("\n");
            assert(lines@ =~= config_lines(now.drop_last()) + config_line(now.last().0, now.last().1));
            i += 1;
        }
        assert(config.deep_view().take(config.len() as int) =~= config.deep_view());
        let mut message = String::from_str("Build Configuration:\n");
        message.append(lines.as_str());
        self.log(timestamp, message.as_str());
    }

    /// Appends the entry that closes the session.
    pub fn log_build_completion(&mut self, timestamp: u64, success: bool)
        ensures
            final(self)@ == old(self)@.logged(timestamp, completion_message(success)),
    {
        let message = completion_entry(success);
        self.log(timestamp, message.as_str());
    }

    /// Hands out, once, every entry that no earlier `flush` has handed out:
    /// the text to append to the log file. A second `flush` right after
    /// returns the empty text.
    pub fn flush(&mut self) -> (r: String)
        ensures
            r@ == old(self)@.pending(),
            final(self)@ == old(self)@.flushed_all(),
            final(self)@.on_disk() == old(self)@.on_disk() + r@,
            final(self)@.on_disk() == final(self)@.transcript(),
    {
        let mut out = String::new();
        let mut i: usize = 0;
        assert(self.pending.deep_view().take(0).flatten() =~= Seq::<char>::empty());
        while i < self.pending.len()
            invariant
                i <= self.pending.len(),
                out@ == self.pending.deep_view().take(i as int).flatten(),
            decreases self.pending.len() - i,
        {
            let ghost done = self.pending.deep_view().take(i as int);
            out.append(self.pending[i].as_str());
            proof {
                done.lemma_flatten_push(self.pending@[i as int]@);
                assert(done.push(self.pending@[i as int]@) =~= self.pending.deep_view().take(
                    i + 1,
                ));
            }
            i += 1;
        }
        proof {
            let all = self@.entries;
            let f = self@.flushed as int;
            assert(self.pending.deep_view().take(self.pending.len() as int)
                =~= self.pending.deep_view());
            assert(all.skip(f) =~= self.pending.deep_view());
            lemma_flush_completes_the_file(self@);
        }
        self.written = Ghost(self.written@ + self.pending.deep_view());
        self.pending = Vec::new();
        assert(self@.entries =~= old(self)@.entries);
        out
    }
}

/// Whatever was flushed before, a `flush` completes the file: it then holds
/// the header and every entry logged so far, each exactly once, in the order
/// in which they were logged.
pub proof fn lemma_flush_completes_the_file(log: LoggerModel)
    requires
        log.wf(),
    ensures
        log.on_disk() + log.pending() == log.transcript(),
        log.flushed_all().on_disk() == log.transcript(),
        log.flushed_all().pending() == Seq::<char>::empty(),
{
    let f = log.flushed as int;
    lemma_flatten_concat(log.entries.take(f), log.entries.skip(f));
    assert(log.entries.take(f) + log.entries.skip(f) =~= log.entries);
    assert(log.header + (log.entries.take(f).flatten() + log.entries.skip(f).flatten()) =~= (
    log.header + log.entries.take(f).flatten()) + log.entries.skip(f).flatten());
    assert(log.entries.take(log.entries.len() as int) =~= log.entries);
    assert(log.entries.skip(log.entries.len() as int) =~= Seq::<Seq<char>>::empty());
}

/// Logging never touches what is on disk already, and adds exactly one
/// entry, after all earlier ones.
pub proof fn lemma_log_appends_one_entry(log: LoggerModel, timestamp: u64, message: Seq<char>)
    requires
        log.wf(),
    ensures
        log.logged(timestamp, message).wf(),
        log.logged(timestamp, message).on_disk() == log.on_disk(),
        log.logged(timestamp, message).transcript() == log.transcript() + log_entry(
            timestamp,
            message,
        ),
        log.logged(timestamp, message).pending() == log.pending() + log_entry(timestamp, message),
{
    let after = log.logged(timestamp, message);
    let e = log_entry(timestamp, message);
    let f = log.flushed as int;
    assert(after.entries.take(f) =~= log.entries.take(f));
    log.entries.lemma_flatten_push(e);
    assert(log.header + (log.entries.flatten() + e) =~= (log.header + log.entries.flatten()) + e);
    assert(after.entries.skip(f) =~= log.entries.skip(f).push(e));
    log.entries.skip(f).lemma_flatten_push(e);
}

} // verus!
