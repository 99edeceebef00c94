//! The exchanges that the commands hold with the interpreter.
//!
//! A command never touches the process. It asks for one thing at a time, a
//! [`Request`], and is told how that went, a [`Reply`]; in between, all it
//! knows is held in a [`Dialog`]. Whoever owns the process performs the
//! requests in the order in which they are made.

use crate::command_result::{CommandResult, CommandResultView};
use crate::commands::{finish, Command, CommandView};
use crate::text::{contains, contains_text, lowercase, to_lowercase};
use crate::{Error, ErrorView, FILENAME_PROMPT_REGEX, PROMPT_REGEX};
use vstd::prelude::*;
use vstd::string::*;

verus! {

/// What ends the wait after a save file was named: a request to confirm
/// overwriting, an acknowledgment, or a prompt glyph.
pub const SAVE_REPLY_REGEX: &'static str = r"(?i)Overwrite existing file\? |Ok\.|Failed\.|>";

/// What ends the wait for the outcome of a save or restore.
pub const ACKNOWLEDGMENT_REGEX: &'static str = r"(?i)Ok\.|Failed\.|>";

/// What ends the wait after `quit`: a request to confirm, or a prompt glyph.
pub const QUIT_REPLY_REGEX: &'static str = r"(?i)Are you sure|>";

/// What a read waits for.
#[derive(Clone, Copy, Debug, PartialEq, Eq, Structural)]
pub enum Wait {
    /// The idle prompt.
    Prompt,
    /// The prompt for a file name.
    FilenamePrompt,
    /// The interpreter's answer to a save file name.
    SaveReply,
    /// The outcome of a save or restore.
    Acknowledgment,
    /// The interpreter's answer to `quit`.
    QuitReply,
}

impl Wait {
    /// The pattern whose first match ends the read.
    pub open spec fn pattern_text(self) -> Seq<char> {
        match self {
            Wait::Prompt => PROMPT_REGEX@,
            Wait::FilenamePrompt => FILENAME_PROMPT_REGEX@,
            Wait::SaveReply => SAVE_REPLY_REGEX@,
            Wait::Acknowledgment => ACKNOWLEDGMENT_REGEX@,
            Wait::QuitReply => QUIT_REPLY_REGEX@,
        }
    }

    /// The pattern whose first match ends the read.
    pub fn pattern(&self) -> (r: &'static str)
        ensures
            r@ == self.pattern_text(),
    {
        match self {
            Wait::Prompt => PROMPT_REGEX,
            Wait::FilenamePrompt => FILENAME_PROMPT_REGEX,
            Wait::SaveReply => SAVE_REPLY_REGEX,
            Wait::Acknowledgment => ACKNOWLEDGMENT_REGEX,
            Wait::QuitReply => QUIT_REPLY_REGEX,
        }
    }
}

/// One thing that a command asks of the process.
#[derive(Debug)]
pub enum Request {
    /// Send this line to the interpreter.
    Write(String),
    /// Read the interpreter's output until the pattern appears or time is up.
    Read(Wait),
    /// Make sure that the directory for save files exists.
    PrepareSaves,
    /// Let the interpreter take in a confirmation.
    Settle,
    /// End the interpreter process.
    Terminate,
}

/// The mathematical value of a [`Request`].
pub enum RequestView {
    Write(Seq<char>),
    Read(Wait),
    PrepareSaves,
    Settle,
    Terminate,
}

impl View for Request {
    type V = RequestView;

    open spec fn view(&self) -> RequestView {
        match self {
            Request::Write(line) => RequestView::Write(line@),
            Request::Read(wait) => RequestView::Read(*wait),
            Request::PrepareSaves => RequestView::PrepareSaves,
            Request::Settle => RequestView::Settle,
            Request::Terminate => RequestView::Terminate,
        }
    }
}

/// How a request went.
#[derive(Debug)]
pub enum Reply {
    /// It was carried out and there is nothing to report.
    Done,
    /// A read captured this text.
    Output(String),
    /// It failed.
    Failed(Error),
}

/// The mathematical value of a [`Reply`].
pub enum ReplyView {
    Done,
    Output(Seq<char>),
    Failed(ErrorView),
}

impl View for Reply {
    type V = ReplyView;

    open spec fn view(&self) -> ReplyView {
        match self {
            Reply::Done => ReplyView::Done,
            Reply::Output(text) => ReplyView::Output(text@),
            Reply::Failed(e) => ReplyView::Failed(e@),
        }
    }
}

/// A command in the middle of its exchange: how many of its requests have
/// been answered, and what its reads have captured so far.
#[derive(Debug)]
pub struct Dialog {
    pub command: Command,
    pub position: usize,
    pub transcript: String,
}

/// The mathematical value of a [`Dialog`].
pub struct DialogView {
    pub command: CommandView,
    pub position: int,
    pub transcript: Seq<char>,
}

impl View for Dialog {
    type V = DialogView;

    open spec fn view(&self) -> DialogView {
        DialogView {
            command: self.command@,
            position: self.position as int,
            transcript: self.transcript@,
        }
    }
}

/// What comes next in an exchange: another request, or the end.
#[derive(Debug)]
pub enum Step {
    /// The exchange goes on with this request.
    Next(Dialog, Request),
    /// The exchange is over.
    Done(Result<CommandResult, Error>),
}

/// The mathematical value of a [`Step`].
pub enum StepView {
    Next(DialogView, RequestView),
    Done(Result<CommandResultView, ErrorView>),
}

impl View for Step {
    type V = StepView;

    open spec fn view(&self) -> StepView {
        match self {
            Step::Next(dialog, request) => StepView::Next(dialog@, request@),
            Step::Done(Ok(result)) => StepView::Done(Ok(result@)),
            Step::Done(Err(e)) => StepView::Done(Err(e@)),
        }
    }
}

/// The interpreter asked whether to overwrite an existing save file;
/// `lowered` is what was captured, in lower case.
pub open spec fn overwrite_asked(lowered: Seq<char>) -> bool {
    contains_text(lowered, "overwrite existing file?"@)
}

/// The interpreter asked whether the player is sure; `lowered` is what was
/// captured, in lower case.
pub open spec fn confirmation_asked(lowered: Seq<char>) -> bool {
    contains_text(lowered, "are you sure"@)
}

/// The requests that `command` makes, in order, when its reads have captured
/// a text whose lower-case form is `lowered`.
pub open spec fn planned(command: CommandView, lowered: Seq<char>) -> Seq<RequestView> {
    match command {
        CommandView::Start => seq![RequestView::Read(Wait::Prompt)],
        CommandView::Action(input) => seq![
            RequestView::Write(input),
            RequestView::Read(Wait::Prompt),
        ],
        CommandView::Score => seq![
            RequestView::Write("score"@),
            RequestView::Read(Wait::Prompt),
        ],
        CommandView::Save(s) => if overwrite_asked(lowered) {
            seq![
                RequestView::PrepareSaves,
                RequestView::Write("save"@),
                RequestView::Read(Wait::FilenamePrompt),
                RequestView::Write(s.filename()),
                RequestView::Read(Wait::SaveReply),
                RequestView::Write("y"@),
                RequestView::Read(Wait::Acknowledgment),
            ]
        } else {
            seq![
                RequestView::PrepareSaves,
                RequestView::Write("save"@),
                RequestView::Read(Wait::FilenamePrompt),
                RequestView::Write(s.filename()),
                RequestView::Read(Wait::SaveReply),
            ]
        },
        CommandView::Restore(s) => seq![
            RequestView::Write("restore"@),
            RequestView::Read(Wait::FilenamePrompt),
            RequestView::Write(s.filename()),
            RequestView::Read(Wait::Acknowledgment),
        ],
        CommandView::Quit => if confirmation_asked(lowered) {
            seq![
                RequestView::Write("quit"@),
                RequestView::Read(Wait::QuitReply),
                RequestView::Write("y"@),
                RequestView::Settle,
                RequestView::Terminate,
            ]
        } else {
            seq![
                RequestView::Write("quit"@),
                RequestView::Read(Wait::QuitReply),
                RequestView::Terminate,
            ]
        },
    }
}

/// The requests that `command` makes, in order, when its reads have captured
/// `transcript`. The interpreter's questions are recognised in any letter
/// case. What was captured decides only what follows the read that captured
/// it.
pub open spec fn plan(command: CommandView, transcript: Seq<char>) -> Seq<RequestView> {
    planned(command, lowercase(transcript))
}

/// The request at `position` of `requests`, if there is one.
pub open spec fn request_at(requests: Seq<RequestView>, position: int) -> Option<RequestView> {
    if 0 <= position < requests.len() {
        Some(requests[position])
    } else {
        None
    }
}

/// The request that `dialog` is waiting on, if it is waiting on one.
pub open spec fn pending_request(dialog: DialogView) -> Option<RequestView> {
    request_at(plan(dialog.command, dialog.transcript), dialog.position)
}

/// What the reads of `dialog` have captured once `reply` is in. The answer
/// to the prompt for a file name is not kept; every other read is.
pub open spec fn heard(dialog: DialogView, reply: ReplyView) -> Seq<char> {
    match (pending_request(dialog), reply) {
        (Some(RequestView::Read(wait)), ReplyView::Output(text)) => if wait
            == Wait::FilenamePrompt {
            dialog.transcript
        } else {
            dialog.transcript + text
        },
        _ => dialog.transcript,
    }
}

/// Where `command` stands once `position` of its requests are answered and
/// its reads have captured `transcript`.
pub open spec fn step_at(command: CommandView, position: int, transcript: Seq<char>) -> StepView {
    let dialog = DialogView { command, position, transcript };
    match pending_request(dialog) {
        Some(request) => StepView::Next(dialog, request),
        None => StepView::Done(Ok(finish(command, transcript))),
    }
}

/// The first step of the exchange that `command` needs.
pub open spec fn first_step(command: CommandView) -> StepView {
    step_at(command, 0, Seq::empty())
}

/// The step that follows `reply`. A failure ends the exchange with its
/// error; anything else moves it on by one request.
pub open spec fn next_step(dialog: DialogView, reply: ReplyView) -> StepView {
    match reply {
        ReplyView::Failed(e) => StepView::Done(Err(e)),
        _ => step_at(dialog.command, dialog.position + 1, heard(dialog, reply)),
    }
}

/// No exchange makes more than seven requests.
pub proof fn lemma_plan_is_short(command: CommandView, transcript: Seq<char>)
    ensures
        1 <= plan(command, transcript).len() <= 7,
{
}

/// When the interpreter asks, in any letter case, whether to overwrite the
/// save file, the answer `y` is written once, after the file name and before
/// the second read, and the result is read from both captures joined.
pub proof fn lemma_overwrite_is_confirmed_once(
    save: crate::savefile::SavefileView,
    first: Seq<char>,
    second: Seq<char>,
)
    requires
        overwrite_asked(lowercase(first)),
    ensures
        plan(CommandView::Save(save), first).len() == 7,
        plan(CommandView::Save(save), first)[3] == RequestView::Write(save.filename()),
        plan(CommandView::Save(save), first)[4] == RequestView::Read(Wait::SaveReply),
        plan(CommandView::Save(save), first)[5] == RequestView::Write("y"@),
        plan(CommandView::Save(save), first)[6] == RequestView::Read(Wait::Acknowledgment),
        next_step(
            DialogView { command: CommandView::Save(save), position: 4, transcript: Seq::empty() },
            ReplyView::Output(first),
        ) == StepView::Next(
            DialogView { command: CommandView::Save(save), position: 5, transcript: first },
            RequestView::Write("y"@),
        ),
        next_step(
            DialogView { command: CommandView::Save(save), position: 5, transcript: first },
            ReplyView::Done,
        ) == StepView::Next(
            DialogView { command: CommandView::Save(save), position: 6, transcript: first },
            RequestView::Read(Wait::Acknowledgment),
        ),
        next_step(
            DialogView { command: CommandView::Save(save), position: 6, transcript: first },
            ReplyView::Output(second),
        ) == StepView::Done(Ok(crate::commands::save_result(save, first + second))),
{
    assert(Seq::<char>::empty() + first =~= first);
}

/// An exchange moves forward one request at a time and is over after seven
/// replies at most: a step that follows a reply either ends the exchange or
/// waits on the next request of the same command's plan.
pub proof fn lemma_exchange_advances(dialog: DialogView, reply: ReplyView)
    ensures
        match next_step(dialog, reply) {
            StepView::Next(next, request) => {
                &&& next.command == dialog.command
                &&& next.position == dialog.position + 1
                &&& 0 <= next.position < 7
                &&& pending_request(next) == Some(request)
                &&& next.transcript == heard(dialog, reply)
            },
            StepView::Done(Ok(result)) => {
                &&& !(reply is Failed)
                &&& result == finish(dialog.command, heard(dialog, reply))
            },
            StepView::Done(Err(e)) => reply == ReplyView::Failed(e),
        },
{
}

/// What a command's reads captured is what its result reports as raw output:
/// reading a result from the transcript never changes the transcript.
pub proof fn lemma_result_keeps_the_capture(command: CommandView, transcript: Seq<char>)
    ensures
        finish(command, transcript).raw_output == transcript,
        finish(command, transcript).operation == command.operation(),
        finish(command, transcript).input == command.input(),
        !(finish(command, transcript).operation == crate::command_result::Operation::Error),
{
}

impl Dialog {
    /// The request that the dialog is waiting on, given the lower-case form
    /// `lowered` of its transcript.
    pub fn request_given(&self, lowered: &str) -> (r: Option<Request>)
        ensures
            (match r {
                Some(request) => Some(request@),
                None => None,
            }) == request_at(planned(self@.command, lowered@), self@.position),
    {
        let at = self.position;
        match &self.command {
            Command::Start(_) => if at == 0 {
                Some(Request::Read(Wait::Prompt))
            } else {
                None
            },
            Command::Action(action) => if at == 0 {
                Some(Request::Write(action.input.clone()))
            } else if at == 1 {
                Some(Request::Read(Wait::Prompt))
            } else {
                None
            },
            Command::Score(_) => if at == 0 {
                Some(Request::Write("score".to_owned()))
            } else if at == 1 {
                Some(Request::Read(Wait::Prompt))
            } else {
                None
            },
            Command::Save(save) => if at == 0 {
                Some(Request::PrepareSaves)
            } else if at == 1 {
                Some(Request::Write("save".to_owned()))
            } else if at == 2 {
                Some(Request::Read(Wait::FilenamePrompt))
            } else if at == 3 {
                Some(Request::Write(save.savefile.filename()))
            } else if at == 4 {
                Some(Request::Read(Wait::SaveReply))
            } else if at <= 6 && contains(lowered, "overwrite existing file?") {
                if at == 5 {
                    Some(Request::Write("y".to_owned()))
                } else {
                    Some(Request::Read(Wait::Acknowledgment))
                }
            } else {
                None
            },
            Command::Restore(restore) => if at == 0 {
                Some(Request::Write("restore".to_owned()))
            } else if at == 1 {
                Some(Request::Read(Wait::FilenamePrompt))
            } else if at == 2 {
                Some(Request::Write(restore.savefile.filename()))
            } else if at == 3 {
                Some(Request::Read(Wait::Acknowledgment))
            } else {
                None
            },
            Command::Quit(_) => if at == 0 {
                Some(Request::Write("quit".to_owned()))
            } else if at == 1 {
                Some(Request::Read(Wait::QuitReply))
            } else if at > 4 {
                None
            } else if contains(lowered, "are you sure") {
                if at == 2 {
                    Some(Request::Write("y".to_owned()))
                } else if at == 3 {
                    Some(Request::Settle)
                } else {
                    Some(Request::Terminate)
                }
            } else if at == 2 {
                Some(Request::Terminate)
            } else {
                None
            },
        }
    }

    /// The request that the dialog is waiting on, if it is waiting on one.
    pub fn current(&self) -> (r: Option<Request>)
        ensures
            (match r {
                Some(request) => Some(request@),
                None => None,
            }) == pending_request(self@),
    {
        let lowered = to_lowercase(self.transcript.as_str());
        self.request_given(lowered.as_str())
    }

    /// Where `command` stands once `position` of its requests are answered
    /// and its reads have captured `transcript`.
    pub fn at(command: Command, position: usize, transcript: String) -> (r: Step)
        ensures
            r@ == step_at(command@, position as int, transcript@),
    {
        let dialog = Dialog { command, position, transcript };
        match dialog.current() {
            Some(request) => Step::Next(dialog, request),
            None => {
                let Dialog { command, position: _, transcript } = dialog;
                Step::Done(Ok(command.complete(transcript)))
            },
        }
    }

    /// Takes the reply to the request that the dialog was waiting on and
    /// says what comes next. A failure ends the exchange with its error. A
    /// read adds what it captured to the transcript, except the read of the
    /// prompt for a file name. When no request is left, the command's result
    /// is read from the transcript.
    pub fn resume(self, reply: Reply) -> (r: Step)
        ensures
            r@ == next_step(self@, reply@),
    {
        let kept = match self.current() {
            Some(Request::Read(wait)) => wait != Wait::FilenamePrompt,
            _ => false,
        };
        let ghost before = self@;
        let Dialog { command, position, mut transcript } = self;
        match reply {
            Reply::Failed(e) => Step::Done(Err(e)),
            Reply::Output(text) => {
                if kept {
                    transcript.append(text.as_str());
                }
                if position >= 7 {
                    proof {
                        lemma_plan_is_short(command@, transcript@);
                    }
                    Step::Done(Ok(command.complete(transcript)))
                } else {
                    Dialog::at(command, position + 1, transcript)
                }
            },
            Reply::Done => {
                if position >= 7 {
                    proof {
                        lemma_plan_is_short(command@, transcript@);
                    }
                    Step::Done(Ok(command.complete(transcript)))
                } else {
                    Dialog::at(command, position + 1, transcript)
                }
            },
        }
    }
}

impl Command {
    /// Begins the exchange that the command needs and says what comes first.
    pub fn execute(self) -> (r: Step)
        ensures
            r@ == first_step(self@),
    {
        Dialog::at(self, 0, String::new())
    }
}

} // verus!
