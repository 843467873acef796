//! The worker that runs a task as a single process: cutting the output into
//! lines, reading progress from them, and judging how the process ended.

use vstd::prelude::*;
use vstd::string::StringExecFns;
use crate::conversion::args::{input_fault, validate_task_input, PathKind};
use crate::conversion::error::{ConversionError, ErrorKind};
use crate::conversion::manager::ManagerMessage;
use crate::conversion::patterns::{
    capture_duration, capture_time, DURATION_PATTERN, TIME_PATTERN,
};
use crate::conversion::progress::{percent_of, progress_percent};
use crate::conversion::types::{ConversionConfig, ConversionTask};
use crate::conversion::utils::{parse_time, parsed_time};
use crate::matching::first_capture;
use crate::text::{
    chars_of, integer_text, push_integer, rows, split, split_chars, str_eq, string_of, texts, trim,
    trimmed,
};

verus! {

/// Whether a configuration asks for the pipeline that processes single
/// frames: it names an upscale mode other than the empty one and `none`.
pub open spec fn wants_upscale(config: ConversionConfig) -> bool {
    config.ml_upscale matches Some(mode) && mode@ != "none"@ && mode@.len() > 0
}

/// Whether a job with this configuration runs as the pipeline of three
/// stages, not as a single process.
pub fn uses_upscale_pipeline(config: &ConversionConfig) -> (upscale: bool)
    ensures
        upscale == wants_upscale(*config),
{
    match &config.ml_upscale {
        Some(mode) => !str_eq(mode.as_str(), "none") && mode.as_str().unicode_len() > 0,
        None => false,
    }
}

/// `s` with every carriage return replaced by a line feed.
pub open spec fn unify_breaks(s: Seq<char>) -> Seq<char> {
    s.map_values(
        |c: char|
            if c == '\r' {
                '\n'
            } else {
                c
            },
    )
}

/// The pieces, each without the white space around it, that are not empty.
pub open spec fn kept_lines(pieces: Seq<Seq<char>>) -> Seq<Seq<char>>
    decreases pieces.len(),
{
    if pieces.len() == 0 {
        Seq::empty()
    } else {
        let line = trim(pieces.last());
        if line.len() > 0 {
            kept_lines(pieces.drop_last()).push(line)
        } else {
            kept_lines(pieces.drop_last())
        }
    }
}

/// The lines of a piece of diagnostic output: it is cut at carriage returns
/// and line feeds, each piece loses the white space around it, and empty
/// pieces are left out.
pub open spec fn log_lines(raw: Seq<char>) -> Seq<Seq<char>> {
    kept_lines(split(unify_breaks(raw), '\n'))
}

/// Cuts a piece of diagnostic output into its lines.
pub fn split_log_lines(raw: &str) -> (lines: Vec<String>)
    ensures
        texts(lines@) == log_lines(raw@),
{
    let pieces = split_chars(&unified(raw), '\n');
    let mut lines: Vec<String> = Vec::new();
    let mut k: usize = 0;
    assert(rows(pieces@).subrange(0, 0) =~= Seq::<Seq<char>>::empty());
    assert(texts(lines@) =~= Seq::<Seq<char>>::empty());
    while k < pieces.len()
        invariant
            k <= pieces@.len(),
            texts(lines@) == kept_lines(rows(pieces@).subrange(0, k as int)),
        decreases pieces@.len() - k,
    {
        let line = trimmed(&pieces[k]);
        proof {
            let upto = rows(pieces@).subrange(0, k + 1);
            assert(upto.drop_last() =~= rows(pieces@).subrange(0, k as int));
            assert(upto.last() == pieces@[k as int]@);
        }
        if line.len() > 0 {
            let ghost before = texts(lines@);
            lines.push(string_of(&line));
            assert(texts(lines@) =~= before.push(line@));
        }
        k += 1;
    }
    assert(rows(pieces@).subrange(0, pieces@.len() as int) =~= rows(pieces@));
    lines
}

/// Whether a byte ends a line: a line feed or a carriage return.
pub open spec fn is_break(b: u8) -> bool {
    b == 0x0A || b == 0x0D
}

/// Where the last byte that ends a line stands in `bytes`; nothing where
/// none does.
pub open spec fn last_break(bytes: Seq<u8>) -> Option<int>
    decreases bytes.len(),
{
    if bytes.len() == 0 {
        None
    } else if is_break(bytes.last()) {
        Some(bytes.len() - 1)
    } else {
        last_break(bytes.drop_last())
    }
}

/// Takes the whole lines out of the bytes that have arrived: what stands up
/// to the last line break leaves the buffer and is returned, the unfinished
/// line behind it stays. Without a line break nothing leaves.
pub fn take_whole_lines(buffer: &mut Vec<u8>) -> (piece: Option<Vec<u8>>)
    ensures
        match last_break(old(buffer)@) {
            Some(at) => {
                &&& piece matches Some(p) && p@ == old(buffer)@.subrange(0, at + 1)
                &&& final(buffer)@ == old(buffer)@.subrange(at + 1, old(buffer)@.len() as int)
            },
            None => piece is None && final(buffer)@ == old(buffer)@,
        },
{
    let n: usize = buffer.len();
    let mut end: usize = n;
    assert(buffer@.subrange(0, n as int) =~= buffer@);
    while end > 0 && !(buffer[end - 1] == 0x0Au8 || buffer[end - 1] == 0x0Du8)
        invariant
            n == buffer@.len(),
            end <= n,
            buffer@ == old(buffer)@,
            last_break(buffer@) == last_break(buffer@.subrange(0, end as int)),
        decreases end,
    {
        proof {
            let upto = buffer@.subrange(0, end as int);
            assert(upto.last() == buffer@[end - 1]);
            assert(upto.drop_last() =~= buffer@.subrange(0, end - 1));
        }
        end -= 1;
    }
    proof {
        let upto = buffer@.subrange(0, end as int);
        if end > 0 {
            assert(upto.last() == buffer@[end - 1]);
        }
    }
    if end == 0 {
        return None;
    }
    let mut piece: Vec<u8> = Vec::new();
    let mut rest: Vec<u8> = Vec::new();
    let mut i: usize = 0;
    while i < n
        invariant
            n == buffer@.len(),
            0 < end <= n,
            i <= n,
            buffer@ == old(buffer)@,
            piece@ == buffer@.subrange(0, if i < end {
                i as int
            } else {
                end as int
            }),
            rest@ == buffer@.subrange(end as int, if i < end {
                end as int
            } else {
                i as int
            }),
        decreases n - i,
    {
        if i < end {
            piece.push(buffer[i]);
            assert(piece@ =~= buffer@.subrange(0, i + 1));
        } else {
            rest.push(buffer[i]);
            assert(rest@ =~= buffer@.subrange(end as int, i + 1));
        }
        i += 1;
    }
    *buffer = rest;
    Some(piece)
}

/// The pieces of a text between its line breaks that are not empty, as they
/// stand.
pub open spec fn filled_lines(pieces: Seq<Seq<char>>) -> Seq<Seq<char>>
    decreases pieces.len(),
{
    if pieces.len() == 0 {
        Seq::empty()
    } else if pieces.last().len() > 0 {
        filled_lines(pieces.drop_last()).push(pieces.last())
    } else {
        filled_lines(pieces.drop_last())
    }
}

/// The lines of a piece of output as they stand: it is cut at carriage
/// returns and line feeds, and empty pieces are left out.
pub open spec fn raw_lines(raw: Seq<char>) -> Seq<Seq<char>> {
    filled_lines(split(unify_breaks(raw), '\n'))
}

fn unified(raw: &str) -> (out: Vec<char>)
    ensures
        out@ == unify_breaks(raw@),
{
    let chars = chars_of(raw);
    let mut out: Vec<char> = Vec::new();
    let mut i: usize = 0;
    while i < chars.len()
        invariant
            i <= chars@.len(),
            out@ == unify_breaks(chars@.subrange(0, i as int)),
        decreases chars@.len() - i,
    {
        let c = chars[i];
        out.push(if c == '\r' {
            '\n'
        } else {
            c
        });
        i += 1;
        assert(out@ =~= unify_breaks(chars@.subrange(0, i as int)));
    }
    assert(chars@.subrange(0, chars@.len() as int) =~= chars@);
    out
}

/// Cuts a piece of output into its lines, as they stand.
pub fn split_raw_lines(raw: &str) -> (lines: Vec<String>)
    ensures
        texts(lines@) == raw_lines(raw@),
{
    let pieces = split_chars(&unified(raw), '\n');
    let mut lines: Vec<String> = Vec::new();
    let mut k: usize = 0;
    assert(rows(pieces@).subrange(0, 0) =~= Seq::<Seq<char>>::empty());
    assert(texts(lines@) =~= Seq::<Seq<char>>::empty());
    while k < pieces.len()
        invariant
            k <= pieces@.len(),
            texts(lines@) == filled_lines(rows(pieces@).subrange(0, k as int)),
        decreases pieces@.len() - k,
    {
        proof {
            let upto = rows(pieces@).subrange(0, k + 1);
            assert(upto.drop_last() =~= rows(pieces@).subrange(0, k as int));
            assert(upto.last() == pieces@[k as int]@);
        }
        if pieces[k].len() > 0 {
            let ghost before = texts(lines@);
            lines.push(string_of(&pieces[k]));
            assert(texts(lines@) =~= before.push(pieces@[k as int]@));
        }
        k += 1;
    }
    assert(rows(pieces@).subrange(0, pieces@.len() as int) =~= rows(pieces@));
    lines
}

/// What a worker knows about the length of the work: the duration that was
/// expected before the tool started, and the one that the tool itself has
/// stated since. Both are in millionths of a second; an expected duration of
/// zero stands for "not known".
pub struct DurationTracker {
    pub expected: u64,
    pub discovered: Option<u64>,
}

impl DurationTracker {
    /// The tracker after a line in which the tool states a length as
    /// `duration`: the first length that is stated and can be read is kept.
    pub open spec fn observe(self, duration: Option<Seq<char>>) -> DurationTracker {
        match (self.discovered, duration) {
            (None, Some(text)) => DurationTracker { discovered: parsed_time(text), ..self },
            _ => self,
        }
    }

    /// The duration against which progress is measured: the expected one
    /// where it is known, else the discovered one, else zero.
    pub open spec fn total(self) -> u64 {
        if self.expected > 0 {
            self.expected
        } else {
            match self.discovered {
                Some(d) => d,
                None => 0,
            }
        }
    }

    /// The progress to report for a line in which the tool states its
    /// position as `time`: none where it states none, where the position
    /// cannot be read, or where the total is not known.
    pub open spec fn progress(self, time: Option<Seq<char>>) -> Option<u32> {
        match time {
            Some(text) => match parsed_time(text) {
                Some(position) => if self.total() > 0 {
                    Some(percent_of(position, self.total()))
                } else {
                    None
                },
                None => None,
            },
            None => None,
        }
    }

    /// A tracker for a job whose expected duration is `expected`.
    pub fn new(expected: u64) -> (tracker: Self)
        ensures
            tracker == (DurationTracker { expected, discovered: None }),
    {
        DurationTracker { expected, discovered: None }
    }

    /// Takes what one line of output states: `duration` is the text behind
    /// `Duration:`, `time` the text behind `time=`, each where the line has
    /// one. Returns the progress to report, if any.
    pub fn line_progress(
        &mut self,
        time: Option<&str>,
        duration: Option<&str>,
    ) -> (progress: Option<u32>)
        ensures
            *final(self) == old(self).observe(
                match duration {
                    Some(d) => Some(d@),
                    None => None,
                },
            ),
            progress == final(self).progress(
                match time {
                    Some(t) => Some(t@),
                    None => None,
                },
            ),
            progress matches Some(p) ==> p <= 100_000,
    {
        if self.discovered.is_none() {
            if let Some(text) = duration {
                self.discovered = parse_time(text);
            }
        }
        let position = match time {
            Some(text) => match parse_time(text) {
                Some(position) => position,
                None => {
                    return None;
                },
            },
            None => {
                return None;
            },
        };
        let total = if self.expected > 0 {
            self.expected
        } else {
            match self.discovered {
                Some(d) => d,
                None => 0,
            }
        };
        progress_percent(position, total)
    }

    /// Takes one line of the tool's output and returns the progress to
    /// report, if any.
    pub fn on_line(&mut self, line: &str) -> (progress: Option<u32>)
        ensures
            *final(self) == old(self).observe(first_capture(DURATION_PATTERN@, line@)),
            progress == final(self).progress(first_capture(TIME_PATTERN@, line@)),
            progress matches Some(p) ==> p <= 100_000,
    {
        let time = capture_time(line);
        let duration = capture_duration(line);
        let time_text: Option<&str> = match &time {
            Some(t) => Some(t.as_str()),
            None => None,
        };
        let duration_text: Option<&str> = match &duration {
            Some(d) => Some(d.as_str()),
            None => None,
        };
        self.line_progress(time_text, duration_text)
    }
}

/// Once the duration against which progress is measured is known, no line
/// changes it.
pub proof fn lemma_total_is_stable(tracker: DurationTracker, duration: Option<Seq<char>>)
    requires
        tracker.total() > 0,
    ensures
        tracker.observe(duration).total() == tracker.total(),
{
}

/// Within one run, a later position never reports less progress: of two
/// lines that state their positions, the one with the later position reports
/// at least as much, whatever lengths the lines in between have stated, and
/// neither reports more than one hundred percent.
pub proof fn lemma_progress_never_falls(
    tracker: DurationTracker,
    earlier: Seq<char>,
    between: Seq<Seq<char>>,
    later: Seq<char>,
)
    requires
        tracker.progress(Some(earlier)) is Some,
        parsed_time(later) is Some,
        parsed_time(earlier)->0 <= parsed_time(later)->0,
    ensures
        tracker.after_lines(between).progress(Some(later)) is Some,
        tracker.progress(Some(earlier))->0 <= tracker.after_lines(between).progress(
            Some(later),
        )->0 <= 100_000,
{
    lemma_lines_keep_total(tracker, between);
    crate::conversion::progress::lemma_percent_monotonic(
        parsed_time(earlier)->0,
        parsed_time(later)->0,
        tracker.total(),
    );
}

/// Once the duration against which progress is measured is known, no
/// sequence of lines changes it.
pub proof fn lemma_lines_keep_total(tracker: DurationTracker, lines: Seq<Seq<char>>)
    requires
        tracker.total() > 0,
    ensures
        tracker.after_lines(lines).total() == tracker.total(),
    decreases lines.len(),
{
    if lines.len() > 0 {
        lemma_lines_keep_total(tracker, lines.drop_last());
        lemma_total_is_stable(
            tracker.after_lines(lines.drop_last()),
            first_capture(DURATION_PATTERN@, lines.last()),
        );
    }
}

/// How the exit status of a process prints: `Some(` and the code and `)`
/// where the process gave one, `None` where it did not.
pub open spec fn exit_code_text(code: Option<i32>) -> Seq<char> {
    match code {
        Some(n) => "Some("@ + integer_text(n as int) + ")"@,
        None => "None"@,
    }
}

/// Appends to `out` how the exit status `code` prints.
pub fn push_exit_code(out: &mut String, code: Option<i32>)
    ensures
        final(out)@ == old(out)@ + exit_code_text(code),
{
    match code {
        Some(n) => {
            out.append("Some(");
            push_integer(out, n as i64);
            out.append(")");
            assert(old(out)@ + "Some("@ + integer_text(n as int) + ")"@ =~= old(out)@ + ("Some("@
                + integer_text(n as int) + ")"@));
        },
        None => {
            out.append("None");
        },
    }
}

/// How a job that ran as a single process ends: in success where the
/// process left with status zero, else in a worker error that names the
/// status.
pub fn conclude(exit_code: Option<i32>) -> (outcome: Result<(), ConversionError>)
    ensures
        exit_code == Some(0i32) ==> outcome is Ok,
        exit_code != Some(0i32) ==> (outcome matches Err(ConversionError::Worker(m)) && m@
            == "Process terminated with code "@ + exit_code_text(exit_code)),
{
    match exit_code {
        Some(0) => Ok(()),
        _ => {
            let mut text = String::from_str("Process terminated with code ");
            push_exit_code(&mut text, exit_code);
            Err(ConversionError::Worker(text))
        },
    }
}

/// What a worker that runs a single process reports while the process runs.
pub enum WorkerEvent {
    /// A line of the tool's output.
    Log(String),
    /// Progress, in thousandths of a percent.
    Progress(u32),
}

/// A [`WorkerEvent`] as a mathematical value.
pub enum WorkerEffect {
    Log(Seq<char>),
    Progress(u32),
}

impl View for WorkerEvent {
    type V = WorkerEffect;

    open spec fn view(&self) -> WorkerEffect {
        match self {
            WorkerEvent::Log(line) => WorkerEffect::Log(line@),
            WorkerEvent::Progress(p) => WorkerEffect::Progress(*p),
        }
    }
}

/// The effects that a list of events stands for.
pub open spec fn worker_effects(events: Seq<WorkerEvent>) -> Seq<WorkerEffect> {
    events.map_values(|e: WorkerEvent| e@)
}

impl DurationTracker {
    /// The tracker after the lines have been taken one after the other.
    pub open spec fn after_lines(self, lines: Seq<Seq<char>>) -> DurationTracker
        decreases lines.len(),
    {
        if lines.len() == 0 {
            self
        } else {
            self.after_lines(lines.drop_last()).observe(
                first_capture(DURATION_PATTERN@, lines.last()),
            )
        }
    }

    /// What is reported for the lines, in order: each line itself, and
    /// behind it the progress that it states, if any.
    pub open spec fn line_effects(self, lines: Seq<Seq<char>>) -> Seq<WorkerEffect>
        decreases lines.len(),
    {
        if lines.len() == 0 {
            Seq::empty()
        } else {
            let line = lines.last();
            let now = self.after_lines(lines);
            let shown = self.line_effects(lines.drop_last()).push(WorkerEffect::Log(line));
            match now.progress(first_capture(TIME_PATTERN@, line)) {
                Some(p) => shown.push(WorkerEffect::Progress(p)),
                None => shown,
            }
        }
    }

    /// Takes a piece of the tool's diagnostic output and returns what is to
    /// be reported for it, in order.
    pub fn on_chunk(&mut self, raw: &str) -> (events: Vec<WorkerEvent>)
        ensures
            *final(self) == old(self).after_lines(log_lines(raw@)),
            worker_effects(events@) == old(self).line_effects(log_lines(raw@)),
    {
        let lines = split_log_lines(raw);
        let mut events: Vec<WorkerEvent> = Vec::new();
        let mut i: usize = 0;
        let ghost all = texts(lines@);
        assert(all.subrange(0, 0) =~= Seq::<Seq<char>>::empty());
        assert(worker_effects(events@) =~= Seq::<WorkerEffect>::empty());
        while i < lines.len()
            invariant
                i <= lines@.len(),
                all == texts(lines@),
                *self == old(self).after_lines(all.subrange(0, i as int)),
                worker_effects(events@) == old(self).line_effects(all.subrange(0, i as int)),
            decreases lines@.len() - i,
        {
            proof {
                let upto = all.subrange(0, i + 1);
                assert(upto.drop_last() =~= all.subrange(0, i as int));
                assert(upto.last() == lines@[i as int]@);
            }
            let ghost shown = worker_effects(events@);
            let progress = self.on_line(lines[i].as_str());
            events.push(WorkerEvent::Log(lines[i].clone()));
            assert(worker_effects(events@) =~= shown.push(WorkerEffect::Log(lines@[i as int]@)));
            match progress {
                Some(p) => {
                    let ghost logged = worker_effects(events@);
                    events.push(WorkerEvent::Progress(p));
                    assert(worker_effects(events@) =~= logged.push(WorkerEffect::Progress(p)));
                },
                None => {},
            }
            i += 1;
        }
        assert(all.subrange(0, lines@.len() as int) =~= all);
        events
    }
}

/// What a worker tells the manager once a process of its job runs.
pub fn started_message(id: &str, pid: u32) -> (message: ManagerMessage)
    ensures
        message matches ManagerMessage::TaskStarted(i, p) && i@ == id@ && p == pid,
{
    ManagerMessage::TaskStarted(String::from_str(id), pid)
}

/// What a worker tells the manager when its job has ended: that it is
/// complete, or that it failed and why.
pub fn finished_message(id: &str, outcome: Result<(), ConversionError>) -> (message: ManagerMessage)
    ensures
        match outcome {
            Ok(_) => (message matches ManagerMessage::TaskCompleted(i) && i@ == id@),
            Err(e) => (message matches ManagerMessage::TaskError(i, err) && i@ == id@ && err == e),
        },
{
    match outcome {
        Ok(_) => ManagerMessage::TaskCompleted(String::from_str(id)),
        Err(e) => ManagerMessage::TaskError(String::from_str(id), e),
    }
}

/// Checks a request and, where it is sound, makes the message that puts it
/// into the queue; `kind` is what the file system says about `file_path`. A
/// request that is rejected never becomes a message.
pub fn prepare_enqueue(
    id: String,
    file_path: String,
    kind: PathKind,
    output_name: Option<String>,
    config: ConversionConfig,
) -> (result: Result<ManagerMessage, ConversionError>)
    ensures
        match input_fault(file_path@, kind, config) {
            Some(reason) => (result matches Err(e) && e@ == (ErrorKind::InvalidInput, reason)),
            None => result == Ok::<ManagerMessage, ConversionError>(
                ManagerMessage::Enqueue(ConversionTask { id, file_path, output_name, config }),
            ),
        },
{
    match validate_task_input(file_path.as_str(), kind, &config) {
        Ok(_) => Ok(ManagerMessage::Enqueue(ConversionTask { id, file_path, output_name, config })),
        Err(e) => Err(e),
    }
}

} // verus!
