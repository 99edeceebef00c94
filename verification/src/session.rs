//! The session: one game, one driver, one command at a time.
//!
//! A session decides; it does not act. Each operation answers with a
//! [`Turn`]: either the result of the command, or an [`Action`] for the owner
//! of the process to perform, whose outcome goes back in through
//! [`Session::resume`].

use crate::command_result::{option_text, CommandResult, CommandResultView, Operation};
use crate::commands::{
    resolve, Command, CommandView, Commands, QuitCommand, RestoreCommand, SaveCommand,
    ScoreCommand, StartCommand,
};
use crate::dfrotz::{Dfrotz, DfrotzView, Launch, Lifecycle, Reader, ReaderView, Transmission};
use crate::gamefile::{Gamefile, GamefileView};
use crate::protocol::{
    first_step, next_step, pending_request, Dialog, DialogView, Reply, ReplyView, Request,
    RequestView, Step, StepView,
};
use crate::savefile::{slot_name, Savefile, SavefileView};
use crate::{Error, ErrorView};
use vstd::prelude::*;
use vstd::string::*;

verus! {

/// Milliseconds that the interpreter is given to take in a confirmation.
pub const SETTLE_MS: u64 = 100;

/// The directory that holds the save files.
pub const SAVES_DIR: &'static str = "saves";

/// Message of the result that a command gets when no game is running.
pub const NOT_RUNNING: &'static str = "Game not running";

/// Reason given to a command that arrives while another is in progress.
pub const BUSY: &'static str = "a command is in progress";

/// Reason given to a reply that arrives while no command is in progress.
pub const IDLE: &'static str = "no command is in progress";

/// Reason given to a start after a start that failed.
pub const START_FAILED: &'static str = "the game did not start";

/// Something for the owner of the process to do.
#[derive(Debug)]
pub enum Action {
    /// Start the interpreter with its pipes attached.
    Spawn(Launch),
    /// Put the line on the interpreter's input, flush, and pause.
    Send(Transmission),
    /// Read the interpreter's output as the reader directs.
    Receive(Reader),
    /// Make sure that the directory exists; failure is of no account.
    CreateDirectory(String),
    /// Wait this many milliseconds.
    Pause(u64),
    /// Release the pipes, then kill the process and await its end.
    Kill,
}

/// The mathematical value of an [`Action`].
pub enum ActionView {
    Spawn { program: Seq<char>, game_path: Seq<char> },
    Send { line: Seq<char>, pause_ms: u64 },
    Receive(ReaderView),
    CreateDirectory(Seq<char>),
    Pause(u64),
    Kill,
}

impl View for Action {
    type V = ActionView;

    open spec fn view(&self) -> ActionView {
        match self {
            Action::Spawn(launch) => ActionView::Spawn {
                program: launch.program@,
                game_path: launch.game_path@,
            },
            Action::Send(t) => ActionView::Send { line: t.line@, pause_ms: t.pause_ms },
            Action::Receive(reader) => ActionView::Receive(reader@),
            Action::CreateDirectory(path) => ActionView::CreateDirectory(path@),
            Action::Pause(ms) => ActionView::Pause(*ms),
            Action::Kill => ActionView::Kill,
        }
    }
}

/// The answer of a session to an operation.
#[derive(Debug)]
pub enum Turn {
    /// The owner of the process is to perform this and report back.
    Perform(Action),
    /// The operation is over.
    Finish(Result<CommandResult, Error>),
}

/// The mathematical value of a [`Turn`].
pub enum TurnView {
    Perform(ActionView),
    Finish(Result<CommandResultView, ErrorView>),
}

impl View for Turn {
    type V = TurnView;

    open spec fn view(&self) -> TurnView {
        match self {
            Turn::Perform(action) => TurnView::Perform(action@),
            Turn::Finish(Ok(result)) => TurnView::Finish(Ok(result@)),
            Turn::Finish(Err(e)) => TurnView::Finish(Err(e@)),
        }
    }
}

/// A game session.
#[derive(Debug)]
pub struct Session {
    gamefile: Gamefile,
    game: Dfrotz,
    started: bool,
    start_result: Option<CommandResult>,
    launching: bool,
    pending: Option<Dialog>,
}

/// The mathematical value of a [`Session`].
pub struct SessionView {
    pub gamefile: GamefileView,
    pub game: DfrotzView,
    /// A start went as far as a live process.
    pub started: bool,
    /// The result of the start exchange, once there is one.
    pub start_result: Option<CommandResultView>,
    /// The session waits to hear how the launch went.
    pub launching: bool,
    /// The exchange in progress.
    pub pending: Option<DialogView>,
}

impl View for Session {
    type V = SessionView;

    closed spec fn view(&self) -> SessionView {
        SessionView {
            gamefile: self.gamefile@,
            game: self.game@,
            started: self.started,
            start_result: match self.start_result {
                Some(r) => Some(r@),
                None => None,
            },
            launching: self.launching,
            pending: match self.pending {
                Some(d) => Some(d@),
                None => None,
            },
        }
    }
}

/// The result that stands in for a command when no game is running.
pub open spec fn not_running_result(input: Seq<char>) -> CommandResultView {
    CommandResultView {
        input,
        raw_output: Seq::empty(),
        operation: Operation::Error,
        success: false,
        message: Some(NOT_RUNNING@),
        details: Seq::empty(),
    }
}

impl SessionView {
    /// Whether the game was started and its process is live.
    pub open spec fn is_running(self) -> bool {
        self.started && self.game.is_running()
    }

    /// Whether the session waits for a reply.
    pub open spec fn is_busy(self) -> bool {
        self.launching || self.pending is Some
    }

    /// Every exchange in progress waits on a request. While it waits on
    /// anything but the end of the process, the game is running; once it
    /// waits for the process to be ended, the driver no longer runs. Every
    /// session is made so and stays so.
    pub open spec fn coherent(self) -> bool {
        &&& self.launching ==> self.pending is None
        &&& self.pending matches Some(d) ==> pending_request(d) is Some && (pending_request(d)
            == Some(RequestView::Terminate) <==> !self.is_running())
    }

    /// The session and its answer once an exchange has reached `step`;
    /// `caches` says that the exchange is the start, whose result is kept.
    pub open spec fn carried_out(self, caches: bool, step: StepView) -> (SessionView, TurnView) {
        match step {
            StepView::Done(result) => (
                SessionView {
                    pending: None,
                    start_result: match result {
                        Ok(r) => if caches {
                            Some(r)
                        } else {
                            self.start_result
                        },
                        Err(_) => self.start_result,
                    },
                    ..self
                },
                TurnView::Finish(result),
            ),
            StepView::Next(dialog, request) => match request {
                RequestView::Write(text) => if self.game.is_running() {
                    (
                        SessionView { pending: Some(dialog), ..self },
                        TurnView::Perform(
                            ActionView::Send {
                                line: text + "\n"@,
                                pause_ms: self.game.command_delay_ms,
                            },
                        ),
                    )
                } else {
                    (
                        SessionView { pending: None, ..self },
                        TurnView::Finish(Err(ErrorView::GameNotRunning)),
                    )
                },
                RequestView::Read(wait) => if self.game.is_running() {
                    (
                        SessionView { pending: Some(dialog), ..self },
                        TurnView::Perform(
                            ActionView::Receive(
                                ReaderView {
                                    pattern: Some(wait.pattern_text()),
                                    timeout_ms: self.game.timeout_ms,
                                    output: Seq::empty(),
                                    tail: Seq::empty(),
                                },
                            ),
                        ),
                    )
                } else {
                    (
                        SessionView { pending: None, ..self },
                        TurnView::Finish(Err(ErrorView::GameNotRunning)),
                    )
                },
                RequestView::PrepareSaves => (
                    SessionView { pending: Some(dialog), ..self },
                    TurnView::Perform(ActionView::CreateDirectory(SAVES_DIR@)),
                ),
                RequestView::Settle => (
                    SessionView { pending: Some(dialog), ..self },
                    TurnView::Perform(ActionView::Pause(SETTLE_MS)),
                ),
                RequestView::Terminate => (
                    SessionView { pending: Some(dialog), game: self.game.terminated(), ..self },
                    TurnView::Perform(ActionView::Kill),
                ),
            },
        }
    }

    /// The session and its answer when `command` is issued. Without a running
    /// game the answer is the stand-in result and nothing changes; while
    /// another command is in progress the new one is turned away.
    pub open spec fn begun(self, command: CommandView) -> (SessionView, TurnView) {
        if !self.is_running() {
            (self, TurnView::Finish(Ok(not_running_result(command.input()))))
        } else if self.is_busy() {
            (self, TurnView::Finish(Err(ErrorView::Process(BUSY@))))
        } else {
            self.carried_out(command is Start, first_step(command))
        }
    }

    /// The session and its answer when the game is started.
    pub open spec fn launched(self) -> (SessionView, TurnView) {
        if self.is_busy() {
            (self, TurnView::Finish(Err(ErrorView::Process(BUSY@))))
        } else if self.started {
            match self.start_result {
                Some(r) => (self, TurnView::Finish(Ok(r))),
                None => (self, TurnView::Finish(Err(ErrorView::Process(START_FAILED@)))),
            }
        } else if self.game.is_running() {
            (SessionView { started: true, ..self }).begun(CommandView::Start)
        } else {
            (
                SessionView { launching: true, ..self },
                TurnView::Perform(
                    ActionView::Spawn {
                        program: self.game.dfrotz_path,
                        game_path: self.game.game_path,
                    },
                ),
            )
        }
    }

    /// The session and its answer when `reply` comes in.
    pub open spec fn resumed(self, reply: ReplyView) -> (SessionView, TurnView) {
        if self.launching {
            match reply {
                ReplyView::Failed(e) => (
                    SessionView { launching: false, ..self },
                    TurnView::Finish(Err(e)),
                ),
                _ => (SessionView {
                    launching: false,
                    started: true,
                    game: DfrotzView { state: Lifecycle::Running, ..self.game },
                    ..self
                }).begun(CommandView::Start),
            }
        } else {
            match self.pending {
                Some(dialog) => (SessionView { pending: None, ..self }).carried_out(
                    dialog.command is Start,
                    next_step(dialog, reply),
                ),
                None => (self, TurnView::Finish(Err(ErrorView::Process(IDLE@)))),
            }
        }
    }

    /// The command that saves or restores `slot` in this session's game.
    pub open spec fn savefile(self, slot: Option<Seq<char>>) -> SavefileView {
        SavefileView { game_name: Some(self.gamefile.name), slot: slot_name(slot) }
    }
}

impl Session {
    /// A session of `gamefile` on the driver `game`. Nothing is started.
    pub fn new(gamefile: Gamefile, game: Dfrotz) -> (r: Session)
        ensures
            r@ == (SessionView {
                gamefile: gamefile@,
                game: game@,
                started: false,
                start_result: None,
                launching: false,
                pending: None,
            }),
            r@.coherent(),
    {
        Session { gamefile, game, started: false, start_result: None, launching: false, pending: None }
    }

    /// The game of the session.
    pub fn gamefile(&self) -> (r: &Gamefile)
        ensures
            r@ == self@.gamefile,
    {
        &self.gamefile
    }

    /// The driver of the session.
    pub fn driver(&self) -> (r: &Dfrotz)
        ensures
            r@ == self@.game,
    {
        &self.game
    }

    /// Whether the game was started and its process is live.
    pub fn is_running(&self) -> (r: bool)
        ensures
            r == self@.is_running(),
    {
        self.started && self.game.is_running()
    }

    /// Whether the session waits for a reply.
    pub fn is_busy(&self) -> (r: bool)
        ensures
            r == self@.is_busy(),
    {
        self.launching || self.pending.is_some()
    }

    /// Moves on to `step` of an exchange: hands an action out, or ends the
    /// exchange with its result.
    fn carry_out(&mut self, caches: bool, step: Step) -> (turn: Turn)
        ensures
            final(self)@ == old(self)@.carried_out(caches, step@).0,
            turn@ == old(self)@.carried_out(caches, step@).1,
    {
        match step {
            Step::Done(result) => {
                self.pending = None;
                if caches {
                    if let Ok(r) = &result {
                        self.start_result = Some(r.duplicate());
                    }
                }
                Turn::Finish(result)
            },
            Step::Next(dialog, request) => match request {
                Request::Write(text) => match self.game.write(text.as_str()) {
                    Ok(transmission) => {
                        self.pending = Some(dialog);
                        Turn::Perform(Action::Send(transmission))
                    },
                    Err(e) => {
                        self.pending = None;
                        Turn::Finish(Err(e))
                    },
                },
                Request::Read(wait) => match self.game.read_until(Some(wait.pattern())) {
                    Some(reader) => {
                        self.pending = Some(dialog);
                        Turn::Perform(Action::Receive(reader))
                    },
                    None => {
                        self.pending = None;
                        Turn::Finish(Err(Error::GameNotRunning))
                    },
                },
                Request::PrepareSaves => {
                    self.pending = Some(dialog);
                    Turn::Perform(Action::CreateDirectory(SAVES_DIR.to_owned()))
                },
                Request::Settle => {
                    self.pending = Some(dialog);
                    Turn::Perform(Action::Pause(SETTLE_MS))
                },
                Request::Terminate => {
                    self.pending = Some(dialog);
                    let _ = self.game.terminate();
                    Turn::Perform(Action::Kill)
                },
            },
        }
    }

    /// Issues `command`. On a running game the command's exchange begins.
    /// Without a running game nothing is asked of the process: the answer is
    /// the stand-in result, tagged as an error and without output, and the
    /// session stays as it is.
    pub fn execute_command(&mut self, command: Command) -> (turn: Turn)
        ensures
            final(self)@ == old(self)@.begun(command@).0,
            turn@ == old(self)@.begun(command@).1,
            !old(self)@.is_running() ==> final(self)@ == old(self)@ && turn@ == TurnView::Finish(
                Ok(not_running_result(command@.input())),
            ),
            old(self)@.coherent() ==> final(self)@.coherent(),
    {
        proof {
            if self@.coherent() {
                lemma_transitions_keep_coherence(self@, command@, ReplyView::Done);
            }
        }
        if !self.is_running() {
            Turn::Finish(
                Ok(
                    CommandResult::new(
                        command.input(),
                        String::new(),
                        Operation::Error,
                        false,
                        Some(NOT_RUNNING.to_owned()),
                    ),
                ),
            )
        } else if self.is_busy() {
            Turn::Finish(Err(Error::Process(BUSY.to_owned())))
        } else {
            let caches = match &command {
                Command::Start(_) => true,
                _ => false,
            };
            let step = command.execute();
            self.carry_out(caches, step)
        }
    }

    /// Starts the game: asks for the interpreter to be launched, then reads
    /// its opening text, whose result it keeps. Once that result is there,
    /// starting again gives it back and asks nothing of the process.
    pub fn start(&mut self) -> (turn: Turn)
        ensures
            final(self)@ == old(self)@.launched().0,
            turn@ == old(self)@.launched().1,
            old(self)@.coherent() ==> final(self)@.coherent(),
    {
        proof {
            if self@.coherent() {
                lemma_transitions_keep_coherence(self@, CommandView::Start, ReplyView::Done);
            }
        }
        if self.is_busy() {
            return Turn::Finish(Err(Error::Process(BUSY.to_owned())));
        }
        if self.started {
            return match &self.start_result {
                Some(r) => Turn::Finish(Ok(r.duplicate())),
                None => Turn::Finish(Err(Error::Process(START_FAILED.to_owned()))),
            };
        }
        match self.game.start() {
            None => {
                self.started = true;
                self.execute_command(Command::Start(StartCommand))
            },
            Some(launch) => {
                self.launching = true;
                Turn::Perform(Action::Spawn(launch))
            },
        }
    }

    /// Takes in how the action that the session last handed out went, and
    /// answers with the next action or with the result of the command.
    pub fn resume(&mut self, reply: Reply) -> (turn: Turn)
        ensures
            final(self)@ == old(self)@.resumed(reply@).0,
            turn@ == old(self)@.resumed(reply@).1,
            old(self)@.coherent() ==> final(self)@.coherent(),
    {
        proof {
            if self@.coherent() {
                lemma_transitions_keep_coherence(self@, CommandView::Start, reply@);
            }
        }
        if self.launching {
            self.launching = false;
            match reply {
                Reply::Failed(e) => Turn::Finish(Err(e)),
                _ => {
                    self.game.started();
                    self.started = true;
                    self.execute_command(Command::Start(StartCommand))
                },
            }
        } else {
            match self.pending.take() {
                Some(dialog) => {
                    let caches = match &dialog.command {
                        Command::Start(_) => true,
                        _ => false,
                    };
                    let step = dialog.resume(reply);
                    self.carry_out(caches, step)
                },
                None => Turn::Finish(Err(Error::Process(IDLE.to_owned()))),
            }
        }
    }

    /// Issues a line of input as the command it stands for.
    pub fn call(&mut self, cmd: &str) -> (turn: Turn)
        ensures
            final(self)@ == old(self)@.begun(resolve(cmd@, Some(old(self)@.gamefile.name))).0,
            turn@ == old(self)@.begun(resolve(cmd@, Some(old(self)@.gamefile.name))).1,
            !old(self)@.is_running() ==> final(self)@ == old(self)@ && turn@ == TurnView::Finish(
                Ok(not_running_result(resolve(cmd@, Some(old(self)@.gamefile.name)).input())),
            ),
            old(self)@.coherent() ==> final(self)@.coherent(),
    {
        let command = Commands::create(cmd, Some(self.gamefile.name.as_str()));
        proof {
            if self@.coherent() {
                lemma_transitions_keep_coherence(self@, command@, ReplyView::Done);
            }
        }
        self.execute_command(command)
    }

    /// Asks for the score.
    pub fn score(&mut self) -> (turn: Turn)
        ensures
            final(self)@ == old(self)@.begun(CommandView::Score).0,
            turn@ == old(self)@.begun(CommandView::Score).1,
            !old(self)@.is_running() ==> final(self)@ == old(self)@ && turn@ == TurnView::Finish(
                Ok(not_running_result("score"@)),
            ),
            old(self)@.coherent() ==> final(self)@.coherent(),
    {
        proof {
            if self@.coherent() {
                lemma_transitions_keep_coherence(self@, CommandView::Score, ReplyView::Done);
            }
        }
        self.execute_command(Command::Score(ScoreCommand))
    }

    /// Saves the game to `slot`.
    pub fn save(&mut self, slot: Option<String>) -> (turn: Turn)
        ensures
            final(self)@ == old(self)@.begun(
                CommandView::Save(old(self)@.savefile(option_text(slot))),
            ).0,
            turn@ == old(self)@.begun(
                CommandView::Save(old(self)@.savefile(option_text(slot))),
            ).1,
            !old(self)@.is_running() ==> final(self)@ == old(self)@ && turn@ == TurnView::Finish(
                Ok(not_running_result("save"@)),
            ),
            old(self)@.coherent() ==> final(self)@.coherent(),
    {
        let savefile = Savefile::new(Some(self.gamefile.name.clone()), slot);
        proof {
            if self@.coherent() {
                lemma_transitions_keep_coherence(
                    self@,
                    CommandView::Save(savefile@),
                    ReplyView::Done,
                );
            }
        }
        self.execute_command(Command::Save(SaveCommand { savefile }))
    }

    /// Restores the game from `slot`.
    pub fn restore(&mut self, slot: Option<String>) -> (turn: Turn)
        ensures
            final(self)@ == old(self)@.begun(
                CommandView::Restore(old(self)@.savefile(option_text(slot))),
            ).0,
            turn@ == old(self)@.begun(
                CommandView::Restore(old(self)@.savefile(option_text(slot))),
            ).1,
            !old(self)@.is_running() ==> final(self)@ == old(self)@ && turn@ == TurnView::Finish(
                Ok(not_running_result("restore"@)),
            ),
            old(self)@.coherent() ==> final(self)@.coherent(),
    {
        let savefile = Savefile::new(Some(self.gamefile.name.clone()), slot);
        proof {
            if self@.coherent() {
                lemma_transitions_keep_coherence(
                    self@,
                    CommandView::Restore(savefile@),
                    ReplyView::Done,
                );
            }
        }
        self.execute_command(Command::Restore(RestoreCommand { savefile }))
    }

    /// Quits the game.
    pub fn quit(&mut self) -> (turn: Turn)
        ensures
            final(self)@ == old(self)@.begun(CommandView::Quit).0,
            turn@ == old(self)@.begun(CommandView::Quit).1,
            !old(self)@.is_running() ==> final(self)@ == old(self)@ && turn@ == TurnView::Finish(
                Ok(not_running_result("quit"@)),
            ),
            old(self)@.coherent() ==> final(self)@.coherent(),
    {
        proof {
            if self@.coherent() {
                lemma_transitions_keep_coherence(self@, CommandView::Quit, ReplyView::Done);
            }
        }
        self.execute_command(Command::Quit(QuitCommand))
    }
}

/// Issuing a command, starting and taking in a reply all keep a session
/// coherent.
pub proof fn lemma_transitions_keep_coherence(
    session: SessionView,
    command: CommandView,
    reply: ReplyView,
)
    requires
        session.coherent(),
    ensures
        session.begun(command).0.coherent(),
        session.launched().0.coherent(),
        session.resumed(reply).0.coherent(),
{
}

/// Quitting always succeeds and always leaves the session without a running
/// game: when the exchange of a quit ends with a result, whether or not the
/// interpreter asked for confirmation, the result reports success and the
/// session is no longer running.
pub proof fn lemma_quit_ends_session(session: SessionView, reply: ReplyView)
    requires
        session.coherent(),
        !session.launching,
        session.pending matches Some(dialog) && dialog.command is Quit,
        session.resumed(reply).1 matches TurnView::Finish(Ok(_)),
    ensures
        session.resumed(reply).1 matches TurnView::Finish(Ok(result)) && result.success
            && result.operation == Operation::Quit && result.message == Some("Game ended"@),
        !session.resumed(reply).0.is_running(),
        !session.resumed(reply).0.is_busy(),
{
}

/// The exchange of a quit on a running game ends the driver's process before
/// it ends: the request that precedes the result is the one to terminate.
pub proof fn lemma_quit_terminates_last(transcript: Seq<char>)
    ensures
        crate::protocol::plan(CommandView::Quit, transcript).last() == RequestView::Terminate,
{
}

/// Without a running game every command gets the stand-in result: tagged as
/// an error, with no output, and with nothing asked of the process; the
/// session stays as it is.
pub proof fn lemma_not_running_is_refused(session: SessionView, command: CommandView)
    requires
        !session.is_running(),
    ensures
        session.begun(command).0 == session,
        session.begun(command).1 matches TurnView::Finish(Ok(result)) && result.operation
            == Operation::Error && !result.success && result.raw_output == Seq::<char>::empty()
            && result.input == command.input(),
{
}

/// Saving to a slot and restoring from it in one session name the same file
/// to the interpreter.
pub proof fn lemma_save_restore_round_trip(
    session: SessionView,
    slot: Option<Seq<char>>,
    saved: Seq<char>,
    restored: Seq<char>,
)
    ensures
        crate::protocol::plan(CommandView::Save(session.savefile(slot)), saved)[3]
            == RequestView::Write(session.savefile(slot).filename()),
        crate::protocol::plan(CommandView::Restore(session.savefile(slot)), restored)[2]
            == RequestView::Write(session.savefile(slot).filename()),
        crate::commands::save_result(session.savefile(slot), saved).details
            == crate::commands::restore_result(session.savefile(slot), restored).details,
{
}

/// The result of the start exchange is kept, and starting again gives it back
/// without asking anything of the process.
pub proof fn lemma_start_is_kept(session: SessionView, reply: ReplyView)
    requires
        session.started,
        !session.launching,
        session.pending matches Some(dialog) && dialog.command is Start,
        session.resumed(reply).1 matches TurnView::Finish(Ok(_)),
    ensures
        session.resumed(reply).1 matches TurnView::Finish(Ok(result)) && session.resumed(
            reply,
        ).0.start_result == Some(result) && session.resumed(reply).0.launched() == (
            session.resumed(reply).0,
            TurnView::Finish(Ok(result)),
        ),
{
}

/// Commands run one at a time: while one is in progress on a running game, a
/// new one is turned away and the session stays as it is.
pub proof fn lemma_one_command_at_a_time(session: SessionView, command: CommandView)
    requires
        session.is_running(),
        session.is_busy(),
    ensures
        session.begun(command) == (session, TurnView::Finish(Err(ErrorView::Process(BUSY@)))),
{
}

} // verus!
