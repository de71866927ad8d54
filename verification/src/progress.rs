//! What a running server tells the terminal about its compilations.
use crate::style::{purple, purple_text};
use crate::text::{decimal, decimal_text};
use vstd::prelude::*;
use vstd::string::StringExecFns;

verus! {

/// How many milliseconds of changes are taken together as one update.
pub const UPDATE_AGGREGATION_MILLIS: u64 = 100;

/// A span of time.
#[derive(Clone, Copy, Debug, PartialEq, Eq, Structural)]
pub struct Duration {
    pub secs: u64,
    pub nanos: u32,
}

impl Duration {
    /// The span in nanoseconds.
    pub open spec fn total_nanos(self) -> int {
        self.secs * 1_000_000_000 + self.nanos
    }

    /// Whether the span is longer than `secs` seconds.
    pub fn exceeds_secs(&self, secs: u64) -> (r: bool)
        ensures
            r == (self.total_nanos() > secs * 1_000_000_000),
            r == (self.secs * 1_000_000_000 + self.nanos > secs * 1_000_000_000),
    {
        self.secs as u128 * 1_000_000_000 + self.nanos as u128 > secs as u128 * 1_000_000_000
    }
}

/// An update: some tasks were run again.
pub struct UpdateInfo {
    /// How long the tasks took.
    pub duration: Duration,
    /// `duration` in words.
    pub duration_text: String,
    /// How many tasks were run.
    pub tasks: usize,
    /// Why they were run, in words, if there are reasons.
    pub reasons: Option<String>,
}

/// Something to write to the terminal.
pub enum Output {
    /// Nothing.
    Nothing,
    /// A line.
    Line(String),
    /// A text that the next one replaces. It is written without a line break, and at once.
    Status(String),
}

/// Something to write to the terminal, as a mathematical value.
pub enum OutputText {
    Nothing,
    Line(Seq<char>),
    Status(Seq<char>),
}

impl View for Output {
    type V = OutputText;

    open spec fn view(&self) -> OutputText {
        match self {
            Output::Nothing => OutputText::Nothing,
            Output::Line(text) => OutputText::Line(text@),
            Output::Status(text) => OutputText::Status(text@),
        }
    }
}

/// What precedes the text of every event.
pub open spec fn event_text() -> Seq<char> {
    purple_text("event"@) + " - "@
}

/// The text of an event that replaces what is on the terminal's current line.
pub open spec fn replacing(text: Seq<char>) -> Seq<char> {
    "\x1b[2K"@ + event_text() + text
}

/// The text that tells of the first compilation.
pub open spec fn initial_text(elapsed: Seq<char>, memory: Seq<char>) -> Seq<char> {
    event_text() + "initial compilation "@ + elapsed + " ("@ + memory + ")"@
}

impl UpdateInfo {
    /// What was done, and how long it took.
    pub open spec fn summary_text(self) -> Seq<char> {
        let what = match self.reasons {
            Some(reasons) => reasons@,
            None => "compilation"@,
        };
        what + " "@ + self.duration_text@
    }

    /// How many tasks were run, and how much memory is used.
    pub open spec fn detail_text(self, memory: Seq<char>) -> Seq<char> {
        " ("@ + decimal_text(self.tasks as nat) + " tasks, "@ + memory + ")"@
    }

    /// Whether the update is told of where details are not: it has reasons, or took longer than a
    /// second.
    pub open spec fn notable(self) -> bool {
        self.reasons is Some || self.duration.total_nanos() > 1_000_000_000
    }
}

/// The state of the progress reports.
pub struct ProgressState {
    /// Whether details are told.
    pub log_detail: bool,
    /// For how many seconds there was no update.
    pub progress_counter: int,
}

impl ProgressState {
    /// The state after an update, or after a second without one.
    pub open spec fn after(self, update: Option<UpdateInfo>) -> ProgressState {
        ProgressState {
            progress_counter: if update is Some {
                0
            } else {
                self.progress_counter + 1
            },
            ..self
        }
    }

    /// What is written after an update, or after a second without one.
    pub open spec fn output(self, update: Option<UpdateInfo>, memory: Seq<char>) -> OutputText {
        match update {
            Some(info) => if self.log_detail {
                OutputText::Line(replacing(info.summary_text() + info.detail_text(memory)))
            } else if info.notable() {
                OutputText::Line(replacing(info.summary_text()))
            } else {
                OutputText::Nothing
            },
            None => {
                let counter = self.after(update).progress_counter;
                let seconds = "updating for "@ + decimal_text(counter as nat) + "s..."@;
                if self.log_detail {
                    OutputText::Status(replacing(seconds + " ("@ + memory + ")"@ + "\r"@))
                } else {
                    OutputText::Status(replacing(seconds + "\r"@))
                }
            },
        }
    }
}

/// Reports the progress of a running server.
pub struct ProgressReporter {
    log_detail: bool,
    progress_counter: i32,
}

impl View for ProgressReporter {
    type V = ProgressState;

    closed spec fn view(&self) -> ProgressState {
        ProgressState {
            log_detail: self.log_detail,
            progress_counter: self.progress_counter as int,
        }
    }
}

fn event() -> (s: String)
    ensures
        s@ == event_text(),
{
    purple("event").concat(" - ")
}

fn replace_line(text: &str) -> (s: String)
    ensures
        s@ == replacing(text@),
{
    "\x1b[2K".to_owned().concat(event().as_str()).concat(text)
}

fn summary(info: &UpdateInfo) -> (s: String)
    ensures
        s@ == info.summary_text(),
{
    let what = match &info.reasons {
        Some(reasons) => reasons.clone(),
        None => "compilation".to_owned(),
    };
    what.concat(" ").concat(info.duration_text.as_str())
}

fn detail(info: &UpdateInfo, memory: &str) -> (s: String)
    ensures
        s@ == info.detail_text(memory@),
{
    " (".to_owned().concat(decimal(info.tasks as u64).as_str()).concat(" tasks, ").concat(
        memory,
    ).concat(")")
}

impl ProgressReporter {
    #[verifier::type_invariant]
    closed spec fn inv(self) -> bool {
        self.progress_counter >= 0
    }

    /// A reporter that has not counted yet.
    pub fn new(log_detail: bool) -> (reporter: Self)
        ensures
            reporter@ == (ProgressState { log_detail, progress_counter: 0 }),
    {
        ProgressReporter { log_detail, progress_counter: 0 }
    }

    /// For how many seconds there was no update.
    pub fn progress_counter(&self) -> (seconds: i32)
        ensures
            seconds == self@.progress_counter,
            seconds >= 0,
    {
        proof {
            use_type_invariant(self);
        }
        self.progress_counter
    }

    /// What is written once the server has started, given for how long it has run and how much
    /// memory it uses.
    pub fn on_start(&self, elapsed: &str, memory: &str) -> (output: Output)
        ensures
            output@ == if self@.log_detail {
                OutputText::Line(initial_text(elapsed@, memory@))
            } else {
                OutputText::Nothing
            },
            match output {
                Output::Line(line) => {
                    &&& self@.log_detail
                    &&& line@ == purple_text("event"@) + " - "@ + "initial compilation "@ + elapsed@
                        + " ("@ + memory@ + ")"@
                },
                Output::Nothing => !self@.log_detail,
                Output::Status(_) => false,
            },
    {
        if self.log_detail {
            Output::Line(
                event().concat("initial compilation ").concat(elapsed).concat(" (").concat(
                    memory,
                ).concat(")"),
            )
        } else {
            Output::Nothing
        }
    }

    /// Takes note of an update, or of a second without one, and says what is written of it.
    pub fn on_event(&mut self, update: &Option<UpdateInfo>, memory: &str) -> (output: Output)
        requires
            *update is None ==> old(self)@.progress_counter < i32::MAX,
        ensures
            final(self)@ == old(self)@.after(*update),
            output@ == old(self)@.output(*update, memory@),
            final(self)@.log_detail == old(self)@.log_detail,
            *update is Some ==> final(self)@.progress_counter == 0,
            *update is None ==> final(self)@.progress_counter == old(self)@.progress_counter + 1,
            (output is Nothing) == ((*update) is Some && !old(self)@.log_detail && (*update)->0.reasons is None
                && (*update)->0.duration.secs * 1_000_000_000 + (*update)->0.duration.nanos <= 1_000_000_000),
            (output is Status) == (*update is None),
            match (output, *update) {
                (Output::Line(line), Some(info)) => line@ == "\x1b[2K"@ + purple_text("event"@) + " - "@ + (match info.reasons {
                    Some(reasons) => reasons@,
                    None => "compilation"@,
                }) + " "@ + info.duration_text@ + (if old(self)@.log_detail {
                    " ("@ + decimal_text(info.tasks as nat) + " tasks, "@ + memory@ + ")"@
                } else {
                    Seq::<char>::empty()
                }),
                (Output::Status(status), None) => status@ == "\x1b[2K"@ + purple_text("event"@) + " - "@ + "updating for "@
                    + decimal_text((old(self)@.progress_counter + 1) as nat) + "s..."@ + (if old(self)@.log_detail {
                    " ("@ + memory@ + ")"@
                } else {
                    Seq::<char>::empty()
                }) + "\r"@,
                (Output::Nothing, Some(_)) => true,
                _ => false,
            },
    {
        proof {
            use_type_invariant(&*self);
        }
        match update {
            Some(info) => {
                self.progress_counter = 0;
                if self.log_detail {
                    let text = summary(info).concat(detail(info, memory).as_str());
                    Output::Line(replace_line(text.as_str()))
                } else if info.reasons.is_some() || info.duration.exceeds_secs(1) {
                    Output::Line(replace_line(summary(info).as_str()))
                } else {
                    Output::Nothing
                }
            },
            None => {
                self.progress_counter = self.progress_counter + 1;
                let seconds = "updating for ".to_owned().concat(
                    decimal(self.progress_counter as u64).as_str(),
                ).concat("s...");
                let text = if self.log_detail {
                    seconds.concat(" (").concat(memory).concat(")").concat("\r")
                } else {
                    seconds.concat("\r")
                };
                Output::Status(replace_line(text.as_str()))
            },
        }
    }
}

/// The state after `n` seconds without an update.
pub open spec fn after_seconds(state: ProgressState, n: nat) -> ProgressState
    decreases n,
{
    if n == 0 {
        state
    } else {
        after_seconds(state, (n - 1) as nat).after(None)
    }
}

/// The counter tells for how many seconds there was no update since the last one.
pub proof fn counter_counts_since_last_update(state: ProgressState, info: UpdateInfo, n: nat)
    ensures
        after_seconds(state.after(Some(info)), n) == (ProgressState {
            progress_counter: n as int,
            ..state
        }),
    decreases n,
{
    if n > 0 {
        counter_counts_since_last_update(state, info, (n - 1) as nat);
    }
}

/// Nothing is written in one case only: details are not told, and the update is not notable. An
/// update is told of in a line, a second without an update in a status.
pub proof fn only_minor_updates_are_silent(
    state: ProgressState,
    update: Option<UpdateInfo>,
    memory: Seq<char>,
)
    ensures
        (state.output(update, memory) is Nothing) == (update is Some && !state.log_detail
            && !update->0.notable()),
        (state.output(update, memory) is Status) == (update is None),
{
}

/// What is written replaces what was on the terminal's line, and after a status the cursor is
/// back at the start of the line.
pub proof fn output_replaces_status(
    state: ProgressState,
    update: Option<UpdateInfo>,
    memory: Seq<char>,
)
    ensures
        match state.output(update, memory) {
            OutputText::Nothing => true,
            OutputText::Line(text) => "\x1b[2K"@.is_prefix_of(text),
            OutputText::Status(text) => "\x1b[2K"@.is_prefix_of(text) && text.last() == '\r',
        },
{
    reveal_strlit("\r");
}

/// Nothing is written exactly if details are not told, the update has no reasons, and it took a
/// second at most. With reasons it is told however long it took.
pub proof fn silence_needs_no_reasons_and_a_short_time(
    state: ProgressState,
    update: Option<UpdateInfo>,
    memory: Seq<char>,
)
    ensures
        (state.output(update, memory) is Nothing) == (update is Some && !state.log_detail && update->0.reasons is None
            && update->0.duration.secs * 1_000_000_000 + update->0.duration.nanos <= 1_000_000_000),
        (state.output(update, memory) is Status) == (update is None),
{
}

/// The line of an update tells its reasons, or that it was a compilation, and how long it took;
/// with details also how many tasks were run, and how much memory is used.
pub proof fn line_tells_of_the_update(state: ProgressState, info: UpdateInfo, memory: Seq<char>)
    ensures
        match state.output(Some(info), memory) {
            OutputText::Line(line) => line == "\x1b[2K"@ + purple_text("event"@) + " - "@ + (match info.reasons {
                Some(reasons) => reasons@,
                None => "compilation"@,
            }) + " "@ + info.duration_text@ + (if state.log_detail {
                " ("@ + decimal_text(info.tasks as nat) + " tasks, "@ + memory + ")"@
            } else {
                Seq::<char>::empty()
            }),
            OutputText::Nothing => !state.log_detail,
            OutputText::Status(_) => false,
        },
{
    if state.log_detail {
        assert(replacing(info.summary_text() + info.detail_text(memory)) =~= "\x1b[2K"@ + purple_text("event"@) + " - "@ + (match info.reasons {
            Some(reasons) => reasons@,
            None => "compilation"@,
        }) + " "@ + info.duration_text@ + (if true {
            " ("@ + decimal_text(info.tasks as nat) + " tasks, "@ + memory + ")"@
        } else {
            Seq::<char>::empty()
        }));
    } else {
        assert(replacing(info.summary_text()) =~= "\x1b[2K"@ + purple_text("event"@) + " - "@ + (match info.reasons {
            Some(reasons) => reasons@,
            None => "compilation"@,
        }) + " "@ + info.duration_text@ + (if false {
            " ("@ + decimal_text(info.tasks as nat) + " tasks, "@ + memory + ")"@
        } else {
            Seq::<char>::empty()
        }));
    }
}

/// A status tells for how many seconds there was no update, the last one counted; with details
/// also how much memory is used.
pub proof fn status_tells_the_seconds(state: ProgressState, memory: Seq<char>)
    ensures
        state.output(None, memory) matches OutputText::Status(status) && status == "\x1b[2K"@ + purple_text("event"@) + " - "@ + "updating for "@
                + decimal_text((state.progress_counter + 1) as nat) + "s..."@ + (if state.log_detail {
                " ("@ + memory + ")"@
            } else {
                Seq::<char>::empty()
            }) + "\r"@,
{
    let status = "\x1b[2K"@ + purple_text("event"@) + " - "@ + "updating for "@
            + decimal_text((state.progress_counter + 1) as nat) + "s..."@ + (if state.log_detail {
            " ("@ + memory + ")"@
        } else {
            Seq::<char>::empty()
        }) + "\r"@;
    assert(state.output(None, memory)->Status_0 =~= status);
}

/// An update sets the counter back, a second without one adds one to it, and neither changes
/// whether details are told.
pub proof fn counter_goes_up_by_one_or_back(state: ProgressState, update: Option<UpdateInfo>)
    ensures
        update is Some ==> state.after(update).progress_counter == 0,
        update is None ==> state.after(update).progress_counter == state.progress_counter + 1,
        state.after(update).log_detail == state.log_detail,
{
}

/// Changes are taken together for a tenth of a second.
pub proof fn updates_come_ten_times_a_second_at_most()
    ensures
        UPDATE_AGGREGATION_MILLIS * 10 == 1000,
{
}

/// The first compilation is told of exactly if details are, with the time and the memory.
pub proof fn first_compilation_is_a_detail(
    reporter: ProgressReporter,
    elapsed: &str,
    memory: &str,
    output: Output,
)
    ensures
        call_ensures(ProgressReporter::on_start, (&reporter, elapsed, memory), output) ==> {
            &&& output is Line == reporter@.log_detail
            &&& output is Nothing == !reporter@.log_detail
            &&& output is Line ==> output->Line_0@ == purple_text("event"@) + " - "@
                + "initial compilation "@ + elapsed@ + " ("@ + memory@ + ")"@
        },
{
}

} // verus!
