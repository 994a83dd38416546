//! Following one command while it runs.
//!
//! Whoever runs the command feeds each chunk of its output, with the time of
//! its arrival, to a `CommandMonitor`. The monitor keeps every chunk, decides
//! what the one-line progress display shows and when, and at the end turns
//! the exit status into the full output or a diagnosed failure.

use crate::text::{
    chars_of, contains_chars, contains_text, decimal, lemma_deep_view_push, lemma_first_index_of,
    lines, lines_of_chars, push_decimal, shorten_chars, shortened, signed_decimal,
    signed_decimal_text, text_of, trim_bounds, trimmed,
};
use vstd::prelude::*;
use vstd::string::*;

verus! {

// ---------------------------------------------------------------------------
// Failures
// ---------------------------------------------------------------------------

/// Why a command gave no output to go on with.
pub enum CommandError {
    /// The command ran and left with a status other than zero.
    Exit { exit_code: i64, command: String },
    /// The command could not be started, or could not be followed to its
    /// end.
    Aborted { command: String, reason: String },
}

/// What a `CommandError` is, to a contract.
pub enum CommandErrorModel {
    Exit { exit_code: i64, command: Seq<char> },
    Aborted { command: Seq<char>, reason: Seq<char> },
}

impl DeepView for CommandError {
    type V = CommandErrorModel;

    open spec fn deep_view(&self) -> CommandErrorModel {
        match self {
            CommandError::Exit { exit_code, command } => CommandErrorModel::Exit {
                exit_code: *exit_code,
                command: command@,
            },
            CommandError::Aborted { command, reason } => CommandErrorModel::Aborted {
                command: command@,
                reason: reason@,
            },
        }
    }
}

impl CommandErrorModel {
    /// The failure in one line.
    pub open spec fn message(self) -> Seq<char> {
        match self {
            CommandErrorModel::Exit { exit_code, command } => "Command failed with exit code "@
                + signed_decimal(exit_code as int),
            CommandErrorModel::Aborted { command, reason } => reason,
        }
    }

    /// The command that failed.
    pub open spec fn command(self) -> Seq<char> {
        match self {
            CommandErrorModel::Exit { exit_code, command } => command,
            CommandErrorModel::Aborted { command, reason } => command,
        }
    }
}

impl CommandError {
    /// The failure of a command that the environment did not attach to.
    pub fn not_started(command: &str) -> (r: CommandError)
        ensures
            r.deep_view() == (CommandErrorModel::Aborted {
                command: command@,
                reason: "Failed to start command execution"@,
            }),
    {
        CommandError::Aborted {
            command: String::from_str(command),
            reason: String::from_str("Failed to start command execution"),
        }
    }

    /// The failure in one line.
    pub fn message(&self) -> (r: String)
        ensures
            r@ == self.deep_view().message(),
    {
        match self {
            CommandError::Exit { exit_code, command } => {
                let mut r = String::from_str("Command failed with exit code ");
                let code = signed_decimal_text(*exit_code);
                r.append(code.as_str());
                r
            },
            CommandError::Aborted { command, reason } => reason.clone(),
        }
    }

    /// The command that failed.
    pub fn command(&self) -> (r: &str)
        ensures
            r@ == self.deep_view().command(),
    {
        match self {
            CommandError::Exit { exit_code, command } => command.as_str(),
            CommandError::Aborted { command, reason } => command.as_str(),
        }
    }
}

// ---------------------------------------------------------------------------
// What a chunk of output is
// ---------------------------------------------------------------------------

/// A notice of one more path copied: bulk noise, counted and not shown.
pub open spec fn is_noise(chunk: Seq<char>) -> bool {
    contains_text(chunk, "copying path"@)
}

/// A chunk that tells of progress: one of the engine's progress words
/// stands in it.
pub open spec fn is_progress(chunk: Seq<char>) -> bool {
    ||| contains_text(chunk, "evaluating"@)
    ||| contains_text(chunk, "building"@)
    ||| contains_text(chunk, "downloading"@)
    ||| contains_text(chunk, "fetching"@)
    ||| contains_text(chunk, "error"@)
    ||| contains_text(chunk, "warning"@)
}

/// A line that belongs to the diagnosis of a failed command: one that
/// holds a mark of an error or of a failure.
pub open spec fn is_marked(line: Seq<char>) -> bool {
    contains_text(line, "error"@) || contains_text(line, "failed"@)
}

/// What the status line is about.
#[derive(Clone, Copy, PartialEq, Eq, Structural, Debug)]
pub enum StatusKind {
    /// The count of copied paths.
    Copied,
    /// A line that speaks of an error.
    Error,
    /// A line that speaks of a warning.
    Warning,
    /// A line that speaks of something being built.
    Building,
    /// Any other progress.
    Other,
}

/// The kind of a progress line: the first of error, warning and building
/// that stands in it.
pub open spec fn progress_kind(line: Seq<char>) -> StatusKind {
    if contains_text(line, "error"@) {
        StatusKind::Error
    } else if contains_text(line, "warning"@) {
        StatusKind::Warning
    } else if contains_text(line, "building"@) {
        StatusKind::Building
    } else {
        StatusKind::Other
    }
}

/// The last line of a chunk, trimmed; empty where the chunk has no line.
pub open spec fn progress_line(chunk: Seq<char>) -> Seq<char> {
    if lines(chunk).len() == 0 {
        Seq::empty()
    } else {
        trimmed(lines(chunk).last())
    }
}

/// The first line of `s`, or `s` itself where it has no line.
pub open spec fn first_line(s: Seq<char>) -> Seq<char> {
    if lines(s).len() == 0 {
        s
    } else {
        lines(s)[0]
    }
}

/// A command as the status line shows it: its first line, cut to 67
/// characters and three dots where it has more than 70.
pub open spec fn display_command(command: Seq<char>) -> Seq<char> {
    shortened(first_line(command), 70, 67)
}

/// How many characters of a progress line the status line shows: less
/// beside a long command.
pub open spec fn progress_limit(display: Seq<char>) -> int {
    if display.len() > 30 {
        40
    } else {
        60
    }
}

/// The text that reports `count` copied paths.
pub open spec fn copied_text(count: u64) -> Seq<char> {
    "(copied "@ + decimal(count as nat) + " paths)"@
}

/// The time between two redraws of the status line, in milliseconds.
pub const REDRAW_INTERVAL_MS: u64 = 500;

/// How many new copy notices make the copy count worth a redraw.
pub const NOISE_BURST: u64 = 10;

/// How many lines a diagnosis shows at most.
pub const PREVIEW_LINES: usize = 5;

/// The milliseconds from `last` to `now`; none where the clock went back.
pub open spec fn elapsed(now: u64, last: u64) -> int {
    if now >= last {
        now - last
    } else {
        0
    }
}

/// `count` and one, as far as the counter goes.
pub open spec fn bumped(count: u64) -> u64 {
    if count < u64::MAX {
        (count + 1) as u64
    } else {
        count
    }
}

// ---------------------------------------------------------------------------
// The status line
// ---------------------------------------------------------------------------

/// What the status line shows after a redraw.
pub struct StatusLine {
    pub kind: StatusKind,
    pub text: String,
}

/// What a `StatusLine` is, to a contract.
pub struct StatusLineModel {
    pub kind: StatusKind,
    pub text: Seq<char>,
}

impl DeepView for StatusLine {
    type V = StatusLineModel;

    open spec fn deep_view(&self) -> StatusLineModel {
        StatusLineModel { kind: self.kind, text: self.text@ }
    }
}

// ---------------------------------------------------------------------------
// The monitor
// ---------------------------------------------------------------------------

/// What a monitor is, to a contract.
pub struct MonitorModel {
    /// The command as it was given.
    pub command: Seq<char>,
    /// The command as the status line shows it.
    pub display: Seq<char>,
    /// Every chunk of output so far, in the order of arrival.
    pub chunks: Seq<Seq<char>>,
    /// The progress line that the status line showed last.
    pub last_progress: Seq<char>,
    /// When the status line was drawn last.
    pub last_update: u64,
    /// How many copy notices have arrived.
    pub copied: u64,
    /// The count of copy notices that the status line showed last.
    pub copied_shown: u64,
}

impl MonitorModel {
    /// The monitor of a command that has printed nothing yet.
    pub open spec fn started(command: Seq<char>, now: u64) -> Self {
        MonitorModel {
            command,
            display: display_command(command),
            chunks: Seq::empty(),
            last_progress: Seq::empty(),
            last_update: now,
            copied: 0,
            copied_shown: 0,
        }
    }

    /// Everything the command has printed, in the order of arrival.
    pub open spec fn output(self) -> Seq<char> {
        self.chunks.flatten()
    }

    /// Whether the redraw interval has passed at `now`.
    pub open spec fn due(self, now: u64) -> bool {
        elapsed(now, self.last_update) >= REDRAW_INTERVAL_MS
    }

    /// What to draw when `chunk` arrives at `now`, if anything. Copy notices
    /// are drawn as a count, once the interval has passed and ten more have
    /// come since the last count shown. A chunk that tells of progress is
    /// drawn by its last line, once the interval has passed, unless that
    /// line is empty or the one already shown.
    pub open spec fn redraw(self, chunk: Seq<char>, now: u64) -> Option<StatusLineModel> {
        if is_noise(chunk) {
            if self.due(now) && bumped(self.copied) - self.copied_shown >= NOISE_BURST {
                Some(
                    StatusLineModel {
                        kind: StatusKind::Copied,
                        text: copied_text(bumped(self.copied)),
                    },
                )
            } else {
                None
            }
        } else if is_progress(chunk) && self.due(now) && progress_line(chunk).len() > 0
            && progress_line(chunk) != self.last_progress {
            Some(
                StatusLineModel {
                    kind: progress_kind(progress_line(chunk)),
                    text: shortened(
                        progress_line(chunk),
                        progress_limit(self.display),
                        progress_limit(self.display) - 3,
                    ),
                },
            )
        } else {
            None
        }
    }

    /// The monitor after `chunk` arrived at `now`.
    pub open spec fn after_chunk(self, chunk: Seq<char>, now: u64) -> Self {
        let drawn = self.redraw(chunk, now) is Some;
        MonitorModel {
            chunks: self.chunks.push(chunk),
            copied: if is_noise(chunk) {
                bumped(self.copied)
            } else {
                self.copied
            },
            copied_shown: if is_noise(chunk) && drawn {
                bumped(self.copied)
            } else {
                self.copied_shown
            },
            last_progress: if !is_noise(chunk) && drawn {
                progress_line(chunk)
            } else {
                self.last_progress
            },
            last_update: if drawn {
                now
            } else {
                self.last_update
            },
            ..self
        }
    }

    /// How the command ended. Where the stream of its output broke, the
    /// command failed, whatever had come by then. Where the stream came to
    /// its end, the command failed if it left with a status other than
    /// zero, and the failure names that status and the command; else it
    /// yields all of its output.
    pub open spec fn outcome(self, end: StreamEndModel, exit_code: Option<i64>) -> Result<
        Seq<char>,
        CommandErrorModel,
    > {
        match end {
            StreamEndModel::Broken(reason) => Err(
                CommandErrorModel::Aborted { command: self.command, reason },
            ),
            StreamEndModel::Complete => match exit_code {
                Some(code) => if code != 0 {
                    Err(CommandErrorModel::Exit { exit_code: code, command: self.command })
                } else {
                    Ok(self.output())
                },
                None => Ok(self.output()),
            },
        }
    }
}

/// How the stream of a command's output ended.
pub enum StreamEnd {
    /// The stream came to its end: every chunk has arrived.
    Complete,
    /// The stream broke, for the reason given: chunks may be missing.
    Broken(String),
}

/// What a `StreamEnd` is, to a contract.
pub enum StreamEndModel {
    Complete,
    Broken(Seq<char>),
}

impl DeepView for StreamEnd {
    type V = StreamEndModel;

    open spec fn deep_view(&self) -> StreamEndModel {
        match self {
            StreamEnd::Complete => StreamEndModel::Complete,
            StreamEnd::Broken(reason) => StreamEndModel::Broken(reason@),
        }
    }
}

/// The marked lines among `all`, in order.
pub open spec fn marked_lines(all: Seq<Seq<char>>) -> Seq<Seq<char>>
    decreases all.len(),
{
    if all.len() == 0 {
        Seq::empty()
    } else if is_marked(all.last()) {
        marked_lines(all.drop_last()).push(all.last())
    } else {
        marked_lines(all.drop_last())
    }
}

/// The first lines of `all`, as many as a diagnosis shows.
pub open spec fn preview(all: Seq<Seq<char>>) -> Seq<Seq<char>> {
    if all.len() > PREVIEW_LINES {
        all.take(PREVIEW_LINES as int)
    } else {
        all
    }
}

/// What the output of a failed command says about the failure.
pub struct Diagnosis {
    /// The first marked lines of the output, up to five, as they came.
    pub lines: Vec<String>,
    /// How many marked lines there are beyond those.
    pub more: usize,
}

/// What a `Diagnosis` is, to a contract.
pub struct DiagnosisModel {
    pub lines: Seq<Seq<char>>,
    pub more: nat,
}

impl DeepView for Diagnosis {
    type V = DiagnosisModel;

    open spec fn deep_view(&self) -> DiagnosisModel {
        DiagnosisModel { lines: self.lines.deep_view(), more: self.more as nat }
    }
}

/// The diagnosis of the output that came in `chunks`: of the lines of the
/// whole output, those that hold a mark of an error or of a failure; the
/// first five of them in the order of arrival, and the count of the rest.
pub open spec fn diagnosis_of(chunks: Seq<Seq<char>>) -> DiagnosisModel {
    let marked = marked_lines(lines(chunks.flatten()));
    DiagnosisModel { lines: preview(marked), more: (marked.len() - preview(marked).len()) as nat }
}

fn chunk_is_noise(chunk: &Vec<char>) -> (r: bool)
    ensures
        r == is_noise(chunk@),
{
    let k = chars_of("copying path");
    contains_chars(chunk, &k)
}

fn has_word(text: &Vec<char>, word: &str) -> (r: bool)
    ensures
        r == contains_text(text@, word@),
{
    let k = chars_of(word);
    contains_chars(text, &k)
}

fn chunk_is_progress(chunk: &Vec<char>) -> (r: bool)
    ensures
        r == is_progress(chunk@),
{
    has_word(chunk, "evaluating") || has_word(chunk, "building") || has_word(chunk, "downloading")
        || has_word(chunk, "fetching") || has_word(chunk, "error") || has_word(chunk, "warning")
}

fn line_is_marked(line: &Vec<char>) -> (r: bool)
    ensures
        r == is_marked(line@),
{
    has_word(line, "error") || has_word(line, "failed")
}

fn kind_of_progress(line: &Vec<char>) -> (r: StatusKind)
    ensures
        r == progress_kind(line@),
{
    if has_word(line, "error") {
        StatusKind::Error
    } else if has_word(line, "warning") {
        StatusKind::Warning
    } else if has_word(line, "building") {
        StatusKind::Building
    } else {
        StatusKind::Other
    }
}

/// The trimmed text of `s`, as characters.
fn trimmed_chars(s: &Vec<char>) -> (r: Vec<char>)
    ensures
        r@ == trimmed(s@),
{
    let (a, b) = trim_bounds(s, 0, s.len());
    assert(s@.subrange(0, s.len() as int) =~= s@);
    let t = text_of(s, a, b);
    chars_of(t.as_str())
}

/// The last line of `chunk`, trimmed.
fn progress_line_of(chunk: &Vec<char>) -> (r: Vec<char>)
    ensures
        r@ == progress_line(chunk@),
{
    let ls = lines_of_chars(chunk);
    if ls.len() == 0 {
        Vec::new()
    } else {
        let last = chars_of(ls[ls.len() - 1].as_str());
        assert(ls.deep_view().last() == ls@[ls.len() - 1]@);
        trimmed_chars(&last)
    }
}

/// A command as the status line shows it.
pub fn display_command_of(command: &str) -> (r: String)
    ensures
        r@ == display_command(command@),
{
    let v = chars_of(command);
    let mut n: usize = 0;
    while n < v.len() && v[n] != '\n'
        invariant
            n <= v.len(),
            forall|j: int| 0 <= j < n ==> v@[j] != '\n',
        decreases v.len() - n,
    {
        n += 1;
    }
    proof {
        lemma_first_index_of(v@, '\n', n as int);
    }
    if n < v.len() {
        let end: usize = if n > 0 && v[n - 1] == '\r' {
            n - 1
        } else {
            n
        };
        proof {
            assert(v@.take(n as int) =~= v@.subrange(0, n as int));
            if n > 0 && v@[n - 1] == '\r' {
                assert(v@.subrange(0, n as int).drop_last() =~= v@.subrange(0, n - 1));
            }
            assert(first_line(v@) == v@.subrange(0, end as int));
        }
        shorten_chars(&v, 0, end, 70, 67)
    } else {
        proof {
            assert(v@.subrange(0, v.len() as int) =~= v@);
            assert(first_line(v@) == v@);
        }
        shorten_chars(&v, 0, v.len(), 70, 67)
    }
}

/// Follows one command from its start to its exit.
pub struct CommandMonitor {
    command: String,
    display: String,
    chunks: Vec<String>,
    last_progress: String,
    last_update: u64,
    copied: u64,
    copied_shown: u64,
}

impl View for CommandMonitor {
    type V = MonitorModel;

    closed spec fn view(&self) -> MonitorModel {
        MonitorModel {
            command: self.command@,
            display: self.display@,
            chunks: self.chunks.deep_view(),
            last_progress: self.last_progress@,
            last_update: self.last_update,
            copied: self.copied,
            copied_shown: self.copied_shown,
        }
    }
}

impl CommandMonitor {
    /// The monitor of `command`, started at `now` milliseconds.
    pub fn start(command: &str, now: u64) -> (r: CommandMonitor)
        ensures
            r@ == MonitorModel::started(command@, now),
    {
        let chunks: Vec<String> = Vec::new();
        assert(chunks.deep_view() =~= Seq::<Seq<char>>::empty());
        CommandMonitor {
            command: String::from_str(command),
            display: display_command_of(command),
            chunks,
            last_progress: String::new(),
            last_update: now,
            copied: 0,
            copied_shown: 0,
        }
    }

    /// The command as the status line shows it.
    pub fn display(&self) -> (r: &str)
        ensures
            r@ == self@.display,
    {
        self.display.as_str()
    }

    /// How many copy notices have arrived.
    pub fn copied(&self) -> (r: u64)
        ensures
            r == self@.copied,
    {
        self.copied
    }

    /// Takes in the chunk that arrived at `now` milliseconds, and returns
    /// what to draw on the status line, if anything.
    pub fn on_chunk(&mut self, chunk: &str, now: u64) -> (r: Option<StatusLine>)
        ensures
            final(self)@ == old(self)@.after_chunk(chunk@, now),
            r.deep_view() == old(self)@.redraw(chunk@, now),
    {
        let v = chars_of(chunk);
        let ghost before = self.chunks;
        let kept = String::from_str(chunk);
        self.chunks.push(kept);
        proof {
            lemma_deep_view_push(before, self.chunks, kept);
        }
        let due = now >= self.last_update && now - self.last_update >= REDRAW_INTERVAL_MS;
        if chunk_is_noise(&v) {
            if self.copied < u64::MAX {
                self.copied = self.copied + 1;
            }
            if due && self.copied >= self.copied_shown && self.copied - self.copied_shown
                >= NOISE_BURST {
                let mut text = String::from_str("(copied ");
                push_decimal(&mut text, self.copied);
                text.append(" paths)");
                self.last_update = now;
                self.copied_shown = self.copied;
                return Some(StatusLine { kind: StatusKind::Copied, text });
            }
            return None;
        }
        if due && chunk_is_progress(&v) {
            let line = progress_line_of(&v);
            if line.len() > 0 {
                let shown = chars_of(self.last_progress.as_str());
                if !crate::text::same_chars(&line, &shown) {
                    let limit: usize = if self.display.as_str().unicode_len() > 30 {
                        40
                    } else {
                        60
                    };
                    let text = shorten_chars(&line, 0, line.len(), limit, limit - 3);
                    assert(line@.subrange(0, line.len() as int) =~= line@);
                    let kind = kind_of_progress(&line);
                    self.last_progress = crate::text::text_of_all(&line);
                    self.last_update = now;
                    return Some(StatusLine { kind, text });
                }
            }
        }
        None
    }

    /// Everything the command has printed so far, in the order of arrival.
    pub fn output(&self) -> (r: String)
        ensures
            r@ == self@.output(),
    {
        let mut out = String::new();
        let mut i: usize = 0;
        assert(self.chunks.deep_view().take(0).flatten() =~= Seq::<char>::empty());
        while i < self.chunks.len()
            invariant
                i <= self.chunks.len(),
                out@ == self.chunks.deep_view().take(i as int).flatten(),
            decreases self.chunks.len() - i,
        {
            let ghost done = self.chunks.deep_view().take(i as int);
            out.append(self.chunks[i].as_str());
            proof {
                done.lemma_flatten_push(self.chunks@[i as int]@);
                assert(done.push(self.chunks@[i as int]@) =~= self.chunks.deep_view().take(i + 1));
            }
            i += 1;
        }
        assert(self.chunks.deep_view().take(self.chunks.len() as int)
            =~= self.chunks.deep_view());
        out
    }

    /// What the output so far says about a failure.
    pub fn diagnosis(&self) -> (r: Diagnosis)
        ensures
            r.deep_view() == diagnosis_of(self@.chunks),
    {
        let output = self.output();
        let all = lines_of_chars(&chars_of(output.as_str()));
        let mut marked: Vec<String> = Vec::new();
        let mut i: usize = 0;
        assert(marked.deep_view() =~= Seq::<Seq<char>>::empty());
        assert(all.deep_view().take(0) =~= Seq::<Seq<char>>::empty());
        while i < all.len()
            invariant
                i <= all.len(),
                marked.deep_view() == marked_lines(all.deep_view().take(i as int)),
            decreases all.len() - i,
        {
            let ghost now = all.deep_view().take(i + 1);
            assert(now.drop_last() =~= all.deep_view().take(i as int));
            assert(now.last() == all@[i as int]@);
            if line_is_marked(&chars_of(all[i].as_str())) {
                let line = all[i].clone();
                let ghost before = marked;
                marked.push(line);
                proof {
                    lemma_deep_view_push(before, marked, line);
                }
            }
            i += 1;
        }
        assert(all.deep_view().take(all.len() as int) =~= all.deep_view());
        let total = marked.len();
        let ghost found = marked.deep_view();
        let lines = first_lines(marked);
        let shown = lines.len();
        assert(lines.deep_view().len() == shown);
        assert(found.len() == total);
        Diagnosis { lines, more: total - shown }
    }

    /// Ends the monitoring, given how the stream ended and the command's
    /// exit status, as far as the environment reported one: the full
    /// output, or the failure. After a stream that broke there is no
    /// output to return, only the failure.
    pub fn finish(self, end: StreamEnd, exit_code: Option<i64>) -> (r: Result<String, CommandError>)
        ensures
            match r {
                Ok(output) => self@.outcome(end.deep_view(), exit_code) == Ok::<
                    Seq<char>,
                    CommandErrorModel,
                >(output@),
                Err(e) => self@.outcome(end.deep_view(), exit_code) == Err::<
                    Seq<char>,
                    CommandErrorModel,
                >(e.deep_view()),
            },
    {
        match end {
            StreamEnd::Broken(reason) => {
                return Err(CommandError::Aborted { command: self.command, reason });
            },
            StreamEnd::Complete => {},
        }
        match exit_code {
            Some(code) => {
                if code != 0 {
                    return Err(CommandError::Exit { exit_code: code, command: self.command });
                }
            },
            None => {},
        }
        Ok(self.output())
    }
}

/// The first lines of `all`, as many as a diagnosis shows.
fn first_lines(all: Vec<String>) -> (r: Vec<String>)
    ensures
        r.deep_view() == preview(all.deep_view()),
{
    if all.len() <= PREVIEW_LINES {
        return all;
    }
    let mut out: Vec<String> = Vec::new();
    let mut i: usize = 0;
    assert(out.deep_view() =~= all.deep_view().take(0));
    while i < PREVIEW_LINES
        invariant
            i <= PREVIEW_LINES < all.len(),
            out.deep_view() == all.deep_view().take(i as int),
        decreases PREVIEW_LINES - i,
    {
        let line = all[i].clone();
        let ghost before = out;
        out.push(line);
        proof {
            lemma_deep_view_push(before, out, line);
            assert(all.deep_view().take(i as int).push(all@[i as int]@) =~= all.deep_view().take(
                i + 1,
            ));
        }
        i += 1;
    }
    out
}

/// The status line is redrawn at most once in an interval: a chunk is only
/// drawn once the interval has passed since the last redraw, and the time
/// of its arrival is then the time of the last redraw. A chunk that is not
/// drawn leaves that time as it was.
pub proof fn lemma_redraws_keep_their_distance(m: MonitorModel, chunk: Seq<char>, now: u64)
    ensures
        m.redraw(chunk, now) is Some ==> now - m.last_update >= REDRAW_INTERVAL_MS
            && m.after_chunk(chunk, now).last_update == now,
        m.redraw(chunk, now) is None ==> m.after_chunk(chunk, now).last_update == m.last_update
            && m.after_chunk(chunk, now).last_progress == m.last_progress
            && m.after_chunk(chunk, now).copied_shown == m.copied_shown,
{
}

/// Whatever arrives, nothing is lost and nothing moves: the output after a
/// chunk is the output before it, followed by the chunk.
pub proof fn lemma_output_grows_by_the_chunk(m: MonitorModel, chunk: Seq<char>, now: u64)
    ensures
        m.after_chunk(chunk, now).output() == m.output() + chunk,
        m.after_chunk(chunk, now).command == m.command,
{
    m.chunks.lemma_flatten_push(chunk);
}

// ---------------------------------------------------------------------------
// A whole command
// ---------------------------------------------------------------------------

/// One chunk of a command's output, with the time of its arrival in
/// milliseconds.
pub struct Chunk {
    pub text: String,
    pub at: u64,
}

/// What a `Chunk` is, to a contract.
pub struct ChunkModel {
    pub text: Seq<char>,
    pub at: u64,
}

impl DeepView for Chunk {
    type V = ChunkModel;

    open spec fn deep_view(&self) -> ChunkModel {
        ChunkModel { text: self.text@, at: self.at }
    }
}

/// The texts of `stream`, in the order of arrival.
pub open spec fn texts_of(stream: Seq<ChunkModel>) -> Seq<Seq<char>> {
    stream.map_values(|c: ChunkModel| c.text)
}

impl MonitorModel {
    /// The monitor after the chunks of `stream`, taken in one after the
    /// other.
    pub open spec fn fed(self, stream: Seq<ChunkModel>) -> MonitorModel
        decreases stream.len(),
    {
        if stream.len() == 0 {
            self
        } else {
            self.fed(stream.drop_last()).after_chunk(stream.last().text, stream.last().at)
        }
    }

    /// What was drawn on the status line while the chunks of `stream` came
    /// in, in order.
    pub open spec fn drawn(self, stream: Seq<ChunkModel>) -> Seq<StatusLineModel>
        decreases stream.len(),
    {
        if stream.len() == 0 {
            Seq::empty()
        } else {
            let before = self.drawn(stream.drop_last());
            match self.fed(stream.drop_last()).redraw(stream.last().text, stream.last().at) {
                Some(line) => before.push(line),
                None => before,
            }
        }
    }
}

/// Feeding a stream keeps every chunk, in the order of arrival, after
/// those that were there; the command stays what it was.
pub proof fn lemma_fed_keeps_every_chunk(m: MonitorModel, stream: Seq<ChunkModel>)
    ensures
        m.fed(stream).chunks == m.chunks + texts_of(stream),
        m.fed(stream).command == m.command,
        m.fed(stream).output() == m.output() + texts_of(stream).flatten(),
    decreases stream.len(),
{
    if stream.len() == 0 {
        assert(m.chunks + texts_of(stream) =~= m.chunks);
        assert(texts_of(stream).flatten() =~= Seq::<char>::empty());
        assert(m.output() + texts_of(stream).flatten() =~= m.output());
    } else {
        let front = stream.drop_last();
        lemma_fed_keeps_every_chunk(m, front);
        assert(texts_of(stream) =~= texts_of(front).push(stream.last().text));
        assert((m.chunks + texts_of(front)).push(stream.last().text) =~= m.chunks + texts_of(
            stream,
        ));
        texts_of(front).lemma_flatten_push(stream.last().text);
        (m.chunks + texts_of(front)).lemma_flatten_push(stream.last().text);
        assert(m.output() + (texts_of(front).flatten() + stream.last().text) =~= (m.output()
            + texts_of(front).flatten()) + stream.last().text);
    }
}

/// How a command went, once it is over.
pub struct Execution {
    /// The full output, or the failure.
    pub result: Result<String, CommandError>,
    /// What was drawn on the status line, in order.
    pub drawn: Vec<StatusLine>,
    /// What the output says about a failure.
    pub diagnosis: Diagnosis,
}

/// Follows a whole command: started at `started`, it printed `stream`,
/// the stream ended as `end` says, and the command left with `exit_code`,
/// as far as one was reported.
///
/// After a stream that came to its end, with exit status zero, or none, the
/// result is the whole output: every chunk of the stream, in the order of
/// arrival, nothing added and nothing left out. With any other status the
/// result is the failure, which holds that status and the command as it
/// was given. After a stream that broke the result is a failure, whatever
/// had come: a part of the output is never returned as the output.
pub fn execute_command(
    command: &str,
    started: u64,
    stream: &Vec<Chunk>,
    end: StreamEnd,
    exit_code: Option<i64>,
) -> (r: Execution)
    ensures
        match r.result {
            Ok(output) => MonitorModel::started(command@, started).fed(
                stream.deep_view(),
            ).outcome(end.deep_view(), exit_code) == Ok::<Seq<char>, CommandErrorModel>(output@),
            Err(e) => MonitorModel::started(command@, started).fed(stream.deep_view()).outcome(
                end.deep_view(),
                exit_code,
            ) == Err::<Seq<char>, CommandErrorModel>(e.deep_view()),
        },
        end is Complete && (exit_code == Some(0i64) || exit_code is None) ==> (r.result matches Ok(
            output,
        ) && output@ == texts_of(stream.deep_view()).flatten()),
        end is Complete && exit_code is Some && exit_code->0 != 0 ==> (r.result matches Err(e)
            && e.deep_view() == (CommandErrorModel::Exit {
            exit_code: exit_code->0,
            command: command@,
        })),
        end is Broken ==> (r.result matches Err(e) && e.deep_view() == (CommandErrorModel::Aborted {
            command: command@,
            reason: end->Broken_0@,
        })),
        r.drawn.deep_view() == MonitorModel::started(command@, started).drawn(stream.deep_view()),
        r.diagnosis.deep_view() == diagnosis_of(texts_of(stream.deep_view())),
{
    let mut monitor = CommandMonitor::start(command, started);
    let ghost start = monitor@;
    let mut drawn: Vec<StatusLine> = Vec::new();
    let mut i: usize = 0;
    assert(stream.deep_view().take(0) =~= Seq::<ChunkModel>::empty());
    assert(drawn.deep_view() =~= Seq::<StatusLineModel>::empty());
    while i < stream.len()
        invariant
            i <= stream.len(),
            start == MonitorModel::started(command@, started),
            monitor@ == start.fed(stream.deep_view().take(i as int)),
            drawn.deep_view() == start.drawn(stream.deep_view().take(i as int)),
        decreases stream.len() - i,
    {
        let ghost now = stream.deep_view().take(i + 1);
        assert(now.drop_last() =~= stream.deep_view().take(i as int));
        assert(now.last() == stream@[i as int].deep_view());
        let ghost before = drawn.deep_view();
        match monitor.on_chunk(stream[i].text.as_str(), stream[i].at) {
            Some(line) => {
                drawn.push(line);
                assert(drawn.deep_view() =~= before.push(line.deep_view()));
            },
            None => {},
        }
        i += 1;
    }
    proof {
        assert(stream.deep_view().take(stream.len() as int) =~= stream.deep_view());
        lemma_fed_keeps_every_chunk(start, stream.deep_view());
        assert(start.chunks + texts_of(stream.deep_view()) =~= texts_of(stream.deep_view()));
    }
    let diagnosis = monitor.diagnosis();
    let result = monitor.finish(end, exit_code);
    Execution { result, drawn, diagnosis }
}

} // verus!
