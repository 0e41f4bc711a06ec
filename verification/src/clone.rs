//! The clone pipeline: the progress of fetching the configuration
//! repository, read from the version-control client's output.

use crate::lists::{empty_list, push_deep};
use crate::text;
use vstd::prelude::*;

verus! {

/// How a child process ended, as far as the pipelines care.
#[derive(Debug)]
pub enum ProcessExit {
    /// It ran and reported success.
    Success,
    /// It ran and reported failure; the code is absent where a signal
    /// ended it.
    Failed(Option<i32>),
    /// It was started but its end could not be awaited.
    WaitFailed(String),
    /// It could not be started.
    SpawnFailed(String),
}

/// What a [`ProcessExit`] holds.
pub ghost enum ProcessExitView {
    Success,
    Failed(Option<i32>),
    WaitFailed(Seq<char>),
    SpawnFailed(Seq<char>),
}

impl DeepView for ProcessExit {
    type V = ProcessExitView;

    open spec fn deep_view(&self) -> ProcessExitView {
        match self {
            ProcessExit::Success => ProcessExitView::Success,
            ProcessExit::Failed(code) => ProcessExitView::Failed(*code),
            ProcessExit::WaitFailed(why) => ProcessExitView::WaitFailed(why@),
            ProcessExit::SpawnFailed(why) => ProcessExitView::SpawnFailed(why@),
        }
    }
}

impl View for ProcessExit {
    type V = ProcessExitView;

    open spec fn view(&self) -> ProcessExitView {
        self.deep_view()
    }
}

/// The progress of the clone, shared between the worker that writes it and
/// the wizard that shows it.
#[derive(Debug)]
pub struct CloneState {
    /// Every line reported so far, oldest first.
    pub log: Vec<String>,
    /// The latest progress line.
    pub phase: String,
    pub percent: u8,
    /// Why the clone failed, once it has.
    pub error: Option<String>,
    pub done: bool,
}

/// What a [`CloneState`] holds.
pub ghost struct CloneStateView {
    pub log: Seq<Seq<char>>,
    pub phase: Seq<char>,
    pub percent: u8,
    pub error: Option<Seq<char>>,
    pub done: bool,
}

impl DeepView for CloneState {
    type V = CloneStateView;

    open spec fn deep_view(&self) -> CloneStateView {
        CloneStateView {
            log: self.log.deep_view(),
            phase: self.phase@,
            percent: self.percent,
            error: self.error.deep_view(),
            done: self.done,
        }
    }
}

impl View for CloneState {
    type V = CloneStateView;

    open spec fn view(&self) -> CloneStateView {
        self.deep_view()
    }
}

impl Clone for CloneState {
    fn clone(&self) -> (r: Self)
        ensures
            r@ == self@,
    {
        let log = self.log.clone();
        assert(log.deep_view() =~= self.log.deep_view());
        CloneState {
            log,
            phase: self.phase.clone(),
            percent: self.percent,
            error: self.error.clone(),
            done: self.done,
        }
    }
}

/// The percentage that a progress line reports: the number written by the
/// digits that stand directly before its first `%`, where there are such
/// digits and the number is at most 255.
pub open spec fn percent_of(line: Seq<char>) -> Option<u8> {
    let at = text::index_of(line, '%');
    if at < line.len() {
        text::parsed_u8(text::trailing_digits(line.take(at)))
    } else {
        None
    }
}

/// Reads the percentage that a progress line reports.
pub fn extract_percent(line: &str) -> (r: Option<u8>)
    ensures
        r == percent_of(line@),
{
    let v = text::chars_of(line);
    let at = text::find_from(&v, 0, '%');
    proof {
        assert(v@.skip(0) == v@);
    }
    if at == v.len() {
        return None;
    }
    let mut from: usize = at;
    while from > 0 && text::is_ascii_digit(v[from - 1])
        invariant
            from <= at < v.len(),
            forall|k: int| from <= k < at ==> text::is_digit(v@[k]),
        decreases from,
    {
        from -= 1;
    }
    let digits = text::string_of_range(&v, from, at);
    proof {
        let before = v@.take(at as int);
        assert forall|k: int| from <= k < before.len() implies text::is_digit(before[k]) by {
            assert(before[k] == v@[k]);
        }
        text::lemma_trailing_digits(before, from as int);
        assert(before.skip(from as int) == v@.subrange(from as int, at as int));
    }
    text::parse_u8(digits.as_str())
}

/// The state before the clone has reported anything.
pub open spec fn fresh_clone() -> CloneStateView {
    CloneStateView {
        log: Seq::empty(),
        phase: Seq::empty(),
        percent: 0,
        error: None,
        done: false,
    }
}

/// The message that a failed clone leaves as its error.
pub open spec fn clone_failure(exit: ProcessExitView) -> Seq<char> {
    match exit {
        ProcessExitView::Success => Seq::empty(),
        ProcessExitView::Failed(code) => "git clone failed with exit code "@
            + text::exit_code_text(code),
        ProcessExitView::WaitFailed(why) => "Failed to wait for git clone: "@ + why,
        ProcessExitView::SpawnFailed(why) => "Failed to run git clone: "@ + why,
    }
}

/// The state after the client's process has ended.
pub open spec fn clone_finished(s: CloneStateView, exit: ProcessExitView) -> CloneStateView {
    match exit {
        ProcessExitView::Success => CloneStateView {
            log: s.log.push("Clone completed successfully."@),
            phase: "Clone complete!"@,
            percent: 100,
            done: true,
            ..s
        },
        _ => CloneStateView {
            log: s.log.push(clone_failure(exit)),
            error: Some(clone_failure(exit)),
            ..s
        },
    }
}

impl CloneState {
    /// The state before the clone has reported anything.
    pub fn new() -> (s: CloneState)
        ensures
            s@ == fresh_clone(),
    {
        CloneState {
            log: empty_list(),
            phase: String::new(),
            percent: 0,
            error: None,
            done: false,
        }
    }

    /// Notes that the clone of `url` begins.
    pub fn begin(&mut self, url: &str)
        ensures
            final(self)@ == (CloneStateView {
                log: old(self)@.log.push("Cloning "@ + url@ + "..."@),
                phase: "Starting clone..."@,
                ..old(self)@
            }),
    {
        let mut line = String::from_str("Cloning ");
        line.append(url);
        line.append("...");
        push_deep(&mut self.log, line);
        self.phase = String::from_str("Starting clone...");
    }

    /// Takes in one complete progress line: it becomes the phase and the
    /// last line of the log, and the percentage follows it where it reports
    /// one.
    pub fn record_line(&mut self, line: String)
        ensures
            final(self)@ == (CloneStateView {
                log: old(self)@.log.push(line@),
                phase: line@,
                percent: match percent_of(line@) {
                    Some(p) => p,
                    None => old(self)@.percent,
                },
                ..old(self)@
            }),
    {
        self.phase = line.clone();
        match extract_percent(line.as_str()) {
            Some(p) => {
                self.percent = p;
            },
            None => {},
        }
        push_deep(&mut self.log, line);
    }

    /// Takes in what the client wrote after its last line break: it is
    /// logged and nothing else.
    pub fn record_tail(&mut self, line: String)
        ensures
            final(self)@ == (CloneStateView { log: old(self)@.log.push(line@), ..old(self)@ }),
    {
        push_deep(&mut self.log, line);
    }

    /// Takes in how the client's process ended. Only success completes the
    /// clone; a failure leaves its message as the error and `done` as it
    /// was.
    pub fn finish(&mut self, exit: &ProcessExit)
        ensures
            final(self)@ == clone_finished(old(self)@, exit@),
    {
        match exit {
            ProcessExit::Success => {
                push_deep(&mut self.log, String::from_str("Clone completed successfully."));
                self.percent = 100;
                self.phase = String::from_str("Clone complete!");
                self.done = true;
            },
            ProcessExit::Failed(code) => {
                let mut msg = String::from_str("git clone failed with exit code ");
                text::push_exit_code(&mut msg, *code);
                push_deep(&mut self.log, msg.clone());
                self.error = Some(msg);
            },
            ProcessExit::WaitFailed(why) => {
                let mut msg = String::from_str("Failed to wait for git clone: ");
                msg.append(why.as_str());
                push_deep(&mut self.log, msg.clone());
                self.error = Some(msg);
            },
            ProcessExit::SpawnFailed(why) => {
                let mut msg = String::from_str("Failed to run git clone: ");
                msg.append(why.as_str());
                push_deep(&mut self.log, msg.clone());
                self.error = Some(msg);
            },
        }
    }
}

/// Splits a stream that arrives byte by byte into its lines. A line ends at
/// a carriage return or a line feed, so that progress that the client
/// rewrites in place is seen update by update.
#[derive(Debug)]
pub struct LineSplitter {
    /// What has arrived since the last line break.
    pub pending: Vec<char>,
}

impl View for LineSplitter {
    type V = Seq<char>;

    open spec fn view(&self) -> Seq<char> {
        self.pending@
    }
}

/// Whether a byte ends a line.
pub open spec fn is_break(byte: u8) -> bool {
    byte == 13 || byte == 10
}

/// The line that `pending` makes once it is complete: its text without the
/// white space around it, unless nothing is left of it.
pub open spec fn completed(pending: Seq<char>) -> Option<Seq<char>> {
    if text::trimmed(pending).len() > 0 {
        Some(text::trimmed(pending))
    } else {
        None
    }
}

impl LineSplitter {
    /// A splitter that has seen nothing.
    pub fn new() -> (s: LineSplitter)
        ensures
            s@ == Seq::<char>::empty(),
    {
        LineSplitter { pending: Vec::new() }
    }

    /// Takes in one byte. A line break completes the pending line, which is
    /// handed out unless it is blank; any other byte joins the pending line
    /// as the character with its code.
    pub fn feed(&mut self, byte: u8) -> (line: Option<String>)
        ensures
            is_break(byte) ==> final(self)@ == Seq::<char>::empty() && line.deep_view()
                == completed(old(self)@),
            !is_break(byte) ==> final(self)@ == old(self)@.push(byte as char) && line is None,
    {
        if byte == 13 || byte == 10 {
            let line = self.take_pending();
            line
        } else {
            self.pending.push(byte as char);
            None
        }
    }

    /// Ends the stream: what is pending is the last line, handed out unless
    /// it is blank.
    pub fn finish(&mut self) -> (line: Option<String>)
        ensures
            final(self)@ == Seq::<char>::empty(),
            line.deep_view() == completed(old(self)@),
    {
        self.take_pending()
    }

    fn take_pending(&mut self) -> (line: Option<String>)
        ensures
            final(self)@ == Seq::<char>::empty(),
            line.deep_view() == completed(old(self)@),
    {
        let (from, to) = text::trim_bounds(&self.pending);
        let line = if from < to {
            Some(text::string_of_range(&self.pending, from, to))
        } else {
            None
        };
        self.pending.clear();
        line
    }
}


/// A clone is marked as done by the success of the client and by nothing
/// else: a line of progress, whatever percentage it reports, does not
/// complete it, and a failure leaves it incomplete and sets the error.
pub proof fn lemma_done_only_on_success(s: CloneStateView, exit: ProcessExitView)
    requires
        !s.done,
    ensures
        clone_finished(s, exit).done <==> exit is Success,
        exit is Success ==> clone_finished(s, exit).percent == 100 && clone_finished(s, exit).error
            == s.error,
        !(exit is Success) ==> clone_finished(s, exit).error == Some(clone_failure(exit))
            && clone_finished(s, exit).percent == s.percent,
        s.log.is_prefix_of(clone_finished(s, exit).log),
{
}


/// The record after one complete progress line has been taken in.
pub open spec fn recorded(s: CloneStateView, line: Seq<char>) -> CloneStateView {
    CloneStateView {
        log: s.log.push(line),
        phase: line,
        percent: match percent_of(line) {
            Some(p) => p,
            None => s.percent,
        },
        ..s
    }
}

/// The record, and what is pending of the line at hand, after bytes of
/// the client's output have been taken in one by one.
pub open spec fn absorbed(s: CloneStateView, pending: Seq<char>, bytes: Seq<u8>) -> (
    CloneStateView,
    Seq<char>,
)
    decreases bytes.len(),
{
    if bytes.len() == 0 {
        (s, pending)
    } else {
        let before = absorbed(s, pending, bytes.drop_last());
        if is_break(bytes.last()) {
            (
                match completed(before.1) {
                    Some(line) => recorded(before.0, line),
                    None => before.0,
                },
                Seq::empty(),
            )
        } else {
            (before.0, before.1.push(bytes.last() as char))
        }
    }
}

/// The record that a clone of `url` leaves, given everything that the
/// client wrote and how it ended: the clone is announced, every line of
/// the output is taken in as progress, what follows the last line break is
/// logged, and the end of the client completes the clone or fails it.
pub open spec fn clone_record(url: Seq<char>, output: Seq<u8>, exit: ProcessExitView)
    -> CloneStateView {
    let begun = CloneStateView {
        log: seq!["Cloning "@ + url + "..."@],
        phase: "Starting clone..."@,
        ..fresh_clone()
    };
    let read = absorbed(begun, Seq::empty(), output);
    let tailed = match completed(read.1) {
        Some(line) => CloneStateView { log: read.0.log.push(line), ..read.0 },
        None => read.0,
    };
    clone_finished(tailed, exit)
}

/// The record that a clone of `url` leaves, given everything that the
/// client wrote to its error stream and how it ended.
pub fn clone_repo(url: &str, output: &Vec<u8>, exit: &ProcessExit) -> (state: CloneState)
    ensures
        state@ == clone_record(url@, output@, exit@),
{
    let mut state = CloneState::new();
    state.begin(url);
    assert(state@.log =~= seq!["Cloning "@ + url@ + "..."@]);
    let ghost begun = state@;
    let mut splitter = LineSplitter::new();
    let mut i: usize = 0;
    assert(output@.take(0) =~= Seq::<u8>::empty());
    while i < output.len()
        invariant
            i <= output.len(),
            (state@, splitter@) == absorbed(begun, Seq::empty(), output@.take(i as int)),
        decreases output.len() - i,
    {
        proof {
            assert(output@.take(i + 1).drop_last() == output@.take(i as int));
            assert(output@.take(i + 1).last() == output@[i as int]);
        }
        match splitter.feed(output[i]) {
            Some(line) => {
                state.record_line(line);
            },
            None => {},
        }
        i += 1;
    }
    assert(output@.take(output.len() as int) == output@);
    match splitter.finish() {
        Some(line) => {
            state.record_tail(line);
        },
        None => {},
    }
    state.finish(exit);
    state
}

} // verus!
