//! The commands of a session: how a line of input resolves to one of them,
//! which exchange with the interpreter each one needs, and how the captured
//! output is read.

use crate::command_result::{
    inserted, CommandResult, CommandResultView, Detail, DetailView, Details, Operation,
};
use crate::pattern::{captures, found_in, has_match, regex_captures};
use crate::savefile::{slot_name, Savefile, SavefileView};
use crate::text::{
    char_is_whitespace, contains, contains_text, format_i32, int_text, is_whitespace, lowercase,
    parse_i32, parsed_i32, same_text, split_whitespace, starts_with, to_lowercase, trim, trimmed,
    words,
};
use crate::SCORE_REGEX;
use vstd::prelude::*;
use vstd::string::*;

verus! {

/// Reads the interpreter's opening text.
#[derive(Debug)]
pub struct StartCommand;

/// Sends a line of free text to the game.
#[derive(Debug)]
pub struct ActionCommand {
    pub input: String,
}

/// Asks for the score.
#[derive(Debug)]
pub struct ScoreCommand;

/// Saves the game to a slot.
#[derive(Debug)]
pub struct SaveCommand {
    pub savefile: Savefile,
}

/// Restores the game from a slot.
#[derive(Debug)]
pub struct RestoreCommand {
    pub savefile: Savefile,
}

/// Ends the game.
#[derive(Debug)]
pub struct QuitCommand;

/// One of the six commands.
#[derive(Debug)]
pub enum Command {
    Start(StartCommand),
    Action(ActionCommand),
    Score(ScoreCommand),
    Save(SaveCommand),
    Restore(RestoreCommand),
    Quit(QuitCommand),
}

/// The mathematical value of a [`Command`].
pub enum CommandView {
    Start,
    Action(Seq<char>),
    Score,
    Save(SavefileView),
    Restore(SavefileView),
    Quit,
}

impl View for Command {
    type V = CommandView;

    open spec fn view(&self) -> CommandView {
        match self {
            Command::Start(_) => CommandView::Start,
            Command::Action(a) => CommandView::Action(a.input@),
            Command::Score(_) => CommandView::Score,
            Command::Save(s) => CommandView::Save(s.savefile@),
            Command::Restore(r) => CommandView::Restore(r.savefile@),
            Command::Quit(_) => CommandView::Quit,
        }
    }
}

impl CommandView {
    /// The text that the command's result reports as its input.
    pub open spec fn input(self) -> Seq<char> {
        match self {
            CommandView::Start => Seq::empty(),
            CommandView::Action(input) => input,
            CommandView::Score => "score"@,
            CommandView::Save(_) => "save"@,
            CommandView::Restore(_) => "restore"@,
            CommandView::Quit => "quit"@,
        }
    }

    /// The operation that the command's result reports.
    pub open spec fn operation(self) -> Operation {
        match self {
            CommandView::Start => Operation::Start,
            CommandView::Action(_) => Operation::Action,
            CommandView::Score => Operation::Score,
            CommandView::Save(_) => Operation::Save,
            CommandView::Restore(_) => Operation::Restore,
            CommandView::Quit => Operation::Quit,
        }
    }
}

/// The text of an optional string slice.
pub open spec fn option_str(o: Option<&str>) -> Option<Seq<char>> {
    match o {
        Some(s) => Some(s@),
        None => None,
    }
}

/// The refusal and confusion phrasings of the interpreter, as patterns.
pub open spec fn failure_catalogue() -> Seq<Seq<char>> {
    seq![
        "(?i)I don't understand"@,
        "(?i)I don't know"@,
        "(?i)You can't"@,
        "(?i)You're not"@,
        "(?i)I can't see"@,
        "(?i)That doesn't make sense"@,
        "(?i)That's not a verb I recognize"@,
        "(?i)What do you want to"@,
        "(?i)You don't see"@,
        "(?i)There is no"@,
        "(?i)I don't see"@,
        "(?i)I beg your pardon"@,
    ]
}

/// Some phrasing of the catalogue occurs in `output`.
pub open spec fn refused(output: Seq<char>) -> bool {
    exists|i: int|
        0 <= i < failure_catalogue().len() && has_match(#[trigger] failure_catalogue()[i], output)
}

/// What follows a command word, read as a request for a slot: nothing asks
/// for the default slot, and one word set off by whitespace names the slot.
/// Anything else, a word that runs on from the command word or more than one
/// word, is no request for a slot.
pub open spec fn slot_request(rest: Seq<char>) -> Option<Option<Seq<char>>> {
    let parts = words(rest);
    if parts.len() == 0 {
        Some(None)
    } else if parts.len() == 1 && is_whitespace(rest[0]) {
        Some(Some(parts[0]))
    } else {
        None
    }
}

/// The save that the text after `save` or `restore` names for the game
/// `game_name`, where it is a request for a slot.
pub open spec fn parsed_save(rest: Seq<char>, game_name: Option<Seq<char>>) -> Option<
    SavefileView,
> {
    match slot_request(rest) {
        Some(slot) => Some(SavefileView { game_name, slot: slot_name(slot) }),
        None => None,
    }
}

/// The form in which a line is read: without surrounding whitespace, in
/// lower case.
pub open spec fn normal_form(input: Seq<char>) -> Seq<char> {
    lowercase(trimmed(input))
}

/// The command that a line stands for, given its normal form `form`. The
/// command word and the slot are read from the normal form; `input`, the
/// line as typed, is what goes to the game when the line is no command.
pub open spec fn classified(form: Seq<char>, input: Seq<char>, game_name: Option<Seq<char>>)
    -> CommandView {
    if form == "score"@ {
        CommandView::Score
    } else if form == "quit"@ {
        CommandView::Quit
    } else if "save"@.is_prefix_of(form) {
        match parsed_save(form.skip("save"@.len() as int), game_name) {
            Some(s) => CommandView::Save(s),
            None => CommandView::Action(input),
        }
    } else if "restore"@.is_prefix_of(form) {
        match parsed_save(form.skip("restore"@.len() as int), game_name) {
            Some(s) => CommandView::Restore(s),
            None => CommandView::Action(input),
        }
    } else {
        CommandView::Action(input)
    }
}

/// The command that a line of input stands for.
pub open spec fn resolve(input: Seq<char>, game_name: Option<Seq<char>>) -> CommandView {
    classified(normal_form(input), input, game_name)
}

/// The text of capture group `i`, where the group exists and took part.
pub open spec fn group_text(groups: Seq<Option<Seq<char>>>, i: int) -> Option<Seq<char>> {
    if 0 <= i < groups.len() {
        groups[i]
    } else {
        None
    }
}

/// The number that `text` denotes, or zero where it denotes none.
pub open spec fn number_or_zero(text: Seq<char>) -> i32 {
    match parsed_i32(text) {
        Some(n) => n,
        None => 0,
    }
}

/// The score and the attainable total that the capture groups of the score
/// pattern carry: group 1 is the score, group 2 the total.
pub open spec fn score_reading(groups: Option<Seq<Option<Seq<char>>>>) -> Option<
    (i32, Option<i32>),
> {
    match groups {
        Some(g) => match group_text(g, 1) {
            Some(score) => Some(
                (
                    number_or_zero(score),
                    match group_text(g, 2) {
                        Some(total) => Some(number_or_zero(total)),
                        None => None,
                    },
                ),
            ),
            None => None,
        },
        None => None,
    }
}

/// The result of the start exchange.
pub open spec fn start_result(raw: Seq<char>) -> CommandResultView {
    CommandResultView {
        input: Seq::empty(),
        raw_output: raw,
        operation: Operation::Start,
        success: true,
        message: None,
        details: Seq::empty(),
    }
}

/// The result of a game action: it succeeded unless the output holds a
/// phrasing of the failure catalogue.
pub open spec fn action_result(input: Seq<char>, raw: Seq<char>) -> CommandResultView {
    CommandResultView {
        input,
        raw_output: raw,
        operation: Operation::Action,
        success: !refused(raw),
        message: None,
        details: Seq::empty(),
    }
}

/// The result of a score query, given the capture groups of the score pattern.
pub open spec fn score_result_from(
    raw: Seq<char>,
    groups: Option<Seq<Option<Seq<char>>>>,
) -> CommandResultView {
    let (message, details) = match score_reading(groups) {
        Some((score, Some(total))) => (
            Some("Score: "@ + int_text(score as int) + "/"@ + int_text(total as int)),
            inserted(
                inserted(Seq::empty(), "score"@, DetailView::Number(score as int)),
                "out_of"@,
                DetailView::Number(total as int),
            ),
        ),
        Some((score, None)) => (
            Some("Score: "@ + int_text(score as int)),
            inserted(Seq::empty(), "score"@, DetailView::Number(score as int)),
        ),
        None => (None, Seq::empty()),
    };
    CommandResultView {
        input: "score"@,
        raw_output: raw,
        operation: Operation::Score,
        success: true,
        message,
        details,
    }
}

/// The result of a score query.
pub open spec fn score_result(raw: Seq<char>) -> CommandResultView {
    score_result_from(raw, regex_captures(SCORE_REGEX@, raw))
}

/// The details of a save or restore: the slot and the file.
pub open spec fn save_details(savefile: SavefileView) -> Seq<(Seq<char>, DetailView)> {
    inserted(
        inserted(Seq::empty(), "slot"@, DetailView::Text(savefile.slot)),
        "filename"@,
        DetailView::Text(savefile.filename()),
    )
}

/// The result of a save: it went through exactly when the captured text
/// holds `Ok.`.
pub open spec fn save_result(savefile: SavefileView, raw: Seq<char>) -> CommandResultView {
    let success = contains_text(raw, "Ok."@);
    CommandResultView {
        input: "save"@,
        raw_output: raw,
        operation: Operation::Save,
        success,
        message: if success {
            Some("["@ + savefile.slot + "] Game saved successfully"@)
        } else {
            Some("Save operation failed"@)
        },
        details: save_details(savefile),
    }
}

/// The result of a restore: it went through exactly when the captured text
/// holds `Ok.`.
pub open spec fn restore_result(savefile: SavefileView, raw: Seq<char>) -> CommandResultView {
    let success = contains_text(raw, "Ok."@);
    CommandResultView {
        input: "restore"@,
        raw_output: raw,
        operation: Operation::Restore,
        success,
        message: if success {
            Some("["@ + savefile.slot + "] Game restored successfully"@)
        } else {
            Some("Restore operation failed"@)
        },
        details: save_details(savefile),
    }
}

/// The result of quitting: always a success.
pub open spec fn quit_result(raw: Seq<char>) -> CommandResultView {
    CommandResultView {
        input: "quit"@,
        raw_output: raw,
        operation: Operation::Quit,
        success: true,
        message: Some("Game ended"@),
        details: Seq::empty(),
    }
}

/// The result of `command` once its exchange has captured `raw`.
pub open spec fn finish(command: CommandView, raw: Seq<char>) -> CommandResultView {
    match command {
        CommandView::Start => start_result(raw),
        CommandView::Action(input) => action_result(input, raw),
        CommandView::Score => score_result(raw),
        CommandView::Save(s) => save_result(s, raw),
        CommandView::Restore(s) => restore_result(s, raw),
        CommandView::Quit => quit_result(raw),
    }
}

/// What a line stands for is decided by its normal form: two lines with the
/// same normal form stand for commands of the same kind, whatever game they
/// are issued in, and in one game for the same command unless they are
/// actions, which carry the line as typed.
pub proof fn lemma_resolution_follows_form(
    first: Seq<char>,
    first_game: Option<Seq<char>>,
    second: Seq<char>,
    second_game: Option<Seq<char>>,
)
    requires
        normal_form(first) == normal_form(second),
    ensures
        resolve(first, first_game).operation() == resolve(second, second_game).operation(),
        first_game == second_game && !(resolve(first, first_game) is Action) ==> resolve(
            first,
            first_game,
        ) == resolve(second, second_game),
        resolve(first, first_game) is Action ==> resolve(first, first_game)
            == CommandView::Action(first),
{
}

/// A line is the score command exactly when its normal form is `score`, and
/// the quit command exactly when it is `quit`. It is a save or a restore
/// only when its normal form begins with that word and what follows is a
/// request for a slot. Every other line, the empty one too, goes to the game
/// as typed.
pub proof fn lemma_resolution_cases(input: Seq<char>, game: Option<Seq<char>>)
    ensures
        resolve(input, game) is Score <==> normal_form(input) == "score"@,
        resolve(input, game) is Quit <==> normal_form(input) == "quit"@,
        resolve(input, game) is Save ==> "save"@.is_prefix_of(normal_form(input)) && slot_request(
            normal_form(input).skip(4),
        ) is Some,
        resolve(input, game) is Restore ==> "restore"@.is_prefix_of(normal_form(input))
            && slot_request(normal_form(input).skip(7)) is Some,
        resolve(input, game) is Action ==> resolve(input, game) == CommandView::Action(input),
        normal_form(input).len() == 0 ==> resolve(input, game) == CommandView::Action(input),
        !(resolve(input, game) is Start),
{
    reveal_strlit("quit");
    reveal_strlit("score");
    reveal_strlit("save");
    reveal_strlit("restore");
    let form = normal_form(input);
    if form == "quit"@ {
        assert(form.len() == 4);
        assert(form != "score"@);
    }
    if "save"@.is_prefix_of(form) {
        assert(form[0] == "save"@[0]);
        assert(form.subrange(0, 4)[1] == form[1]);
        assert(form[1] == "save"@[1]);
        assert(form != "quit"@);
        assert(form != "score"@);
    }
    if "restore"@.is_prefix_of(form) {
        assert(form[0] == "restore"@[0]);
        assert(form != "quit"@);
        assert(form != "score"@);
        assert(!"save"@.is_prefix_of(form));
    }
}

/// More than one word after `save` or `restore` makes the line a game
/// action: `save the game` is no save.
pub proof fn lemma_many_words_are_no_slot(rest: Seq<char>, game: Option<Seq<char>>)
    requires
        words(rest).len() > 1,
    ensures
        slot_request(rest) is None,
        parsed_save(rest, game) is None,
{
}

/// Saving to a slot and restoring from the same slot of the same game name
/// the same file.
pub proof fn lemma_same_slot_same_file(
    save_line: Seq<char>,
    restore_line: Seq<char>,
    game: Option<Seq<char>>,
)
    requires
        resolve(save_line, game) is Save,
        resolve(restore_line, game) is Restore,
        slot_request(normal_form(save_line).skip(4)) == slot_request(
            normal_form(restore_line).skip(7),
        ),
    ensures
        resolve(save_line, game)->Save_0 == resolve(restore_line, game)->Restore_0,
        resolve(save_line, game)->Save_0.filename() == resolve(
            restore_line,
            game,
        )->Restore_0.filename(),
{
    lemma_resolution_cases(save_line, game);
    lemma_resolution_cases(restore_line, game);
    reveal_strlit("save");
    reveal_strlit("restore");
}

/// An action whose output holds a phrasing of the failure catalogue fails.
pub proof fn lemma_refusal_fails(input: Seq<char>, raw: Seq<char>, i: int)
    requires
        0 <= i < failure_catalogue().len(),
        has_match(failure_catalogue()[i], raw),
    ensures
        !action_result(input, raw).success,
        action_result(input, raw).raw_output == raw,
{
}

/// An action whose output holds no phrasing of the failure catalogue succeeds.
pub proof fn lemma_no_refusal_succeeds(input: Seq<char>, raw: Seq<char>)
    requires
        forall|i: int|
            0 <= i < failure_catalogue().len() ==> !has_match(
                #[trigger] failure_catalogue()[i],
                raw,
            ),
    ensures
        action_result(input, raw).success,
{
}

/// The patterns of the failure catalogue.
pub fn failure_patterns() -> (r: Vec<&'static str>)
    ensures
        r.deep_view() == failure_catalogue(),
{
    let r = vec![
        "(?i)I don't understand",
        "(?i)I don't know",
        "(?i)You can't",
        "(?i)You're not",
        "(?i)I can't see",
        "(?i)That doesn't make sense",
        "(?i)That's not a verb I recognize",
        "(?i)What do you want to",
        "(?i)You don't see",
        "(?i)There is no",
        "(?i)I don't see",
        "(?i)I beg your pardon",
    ];
    assert(r.deep_view() =~= failure_catalogue());
    r
}

/// The save that `input`, the text after `save` or `restore`, names for the
/// game `game_name`; `None` where the text is no request for a slot.
pub fn parse_save_restore(input: &str, game_name: Option<&str>) -> (r: Option<Savefile>)
    ensures
        (match r {
            Some(s) => Some(s@),
            None => None,
        }) == parsed_save(input@, option_str(game_name)),
{
    let parts = split_whitespace(input);
    let slot = if parts.len() == 0 {
        None
    } else {
        assert(parts.deep_view()[0] == parts@[0]@);
        assert(input@.len() > 0);
        if parts.len() == 1 && char_is_whitespace(input.get_char(0)) {
            Some(parts[0].clone())
        } else {
            return None;
        }
    };
    let game = match game_name {
        Some(g) => Some(g.to_owned()),
        None => None,
    };
    Some(Savefile::new(game, slot))
}

/// The text of `form` after its first `count` characters.
fn text_after(form: &str, count: usize) -> (r: &str)
    requires
        count <= form@.len(),
    ensures
        r@ == form@.skip(count as int),
{
    let n = form.unicode_len();
    form.substring_char(count, n)
}

/// Resolves lines of input to commands.
pub struct Commands;

impl Commands {
    /// The command that a line stands for, given its normal form `form`:
    /// the line without surrounding whitespace, in lower case. `score` and
    /// `quit` are whole lines. `save` and `restore` begin a line that goes on
    /// with nothing or with one word, the slot; with anything else after
    /// them the line is no command. What is no command goes to the game as
    /// `input`, the line as typed.
    pub fn from_form(form: &str, input: &str, game_name: Option<&str>) -> (r: Command)
        ensures
            r@ == classified(form@, input@, option_str(game_name)),
    {
        proof {
            reveal_strlit("save");
            reveal_strlit("restore");
        }
        if same_text(form, "score") {
            Command::Score(ScoreCommand)
        } else if same_text(form, "quit") {
            Command::Quit(QuitCommand)
        } else if starts_with(form, "save") {
            match parse_save_restore(text_after(form, 4), game_name) {
                Some(savefile) => Command::Save(SaveCommand { savefile }),
                None => Command::Action(ActionCommand { input: input.to_owned() }),
            }
        } else if starts_with(form, "restore") {
            match parse_save_restore(text_after(form, 7), game_name) {
                Some(savefile) => Command::Restore(RestoreCommand { savefile }),
                None => Command::Action(ActionCommand { input: input.to_owned() }),
            }
        } else {
            Command::Action(ActionCommand { input: input.to_owned() })
        }
    }

    /// The command that `input` stands for in a session of the game
    /// `game_name`: the one that its normal form gives.
    pub fn create(input: &str, game_name: Option<&str>) -> (r: Command)
        ensures
            r@ == resolve(input@, option_str(game_name)),
    {
        let form = to_lowercase(trim(input));
        Commands::from_form(form.as_str(), input, game_name)
    }
}

impl StartCommand {
    /// The text that the result reports as input: none.
    pub fn input(&self) -> (r: String)
        ensures
            r@ == CommandView::Start.input(),
    {
        String::new()
    }

    /// The result of the start exchange, which always succeeds.
    pub fn complete(&self, raw_output: String) -> (r: CommandResult)
        ensures
            r@ == start_result(raw_output@),
    {
        CommandResult::new(String::new(), raw_output, Operation::Start, true, None)
    }
}

impl ActionCommand {
    /// The text that was sent to the game.
    pub fn input(&self) -> (r: String)
        ensures
            r@ == self.input@,
    {
        self.input.clone()
    }

    /// Whether `output` holds one of the interpreter's refusals.
    pub fn failure_detected(output: &str) -> (r: bool)
        ensures
            r == refused(output@),
    {
        let patterns = failure_patterns();
        let mut i: usize = 0;
        while i < patterns.len()
            invariant
                i <= patterns.len(),
                patterns.deep_view() == failure_catalogue(),
                forall|k: int| 0 <= k < i ==> !has_match(#[trigger] failure_catalogue()[k], output@),
            decreases patterns.len() - i,
        {
            assert(patterns.deep_view()[i as int] == patterns@[i as int]@);
            if found_in(patterns[i], output) {
                return true;
            }
            i += 1;
        }
        false
    }

    /// The result of the action, read from what the interpreter answered.
    /// The interpreter gives no verdict of its own: an answer without a
    /// refusal counts as success.
    pub fn complete(&self, raw_output: String) -> (r: CommandResult)
        ensures
            r@ == action_result(self.input@, raw_output@),
            r@.raw_output == raw_output@,
            r@.success <==> !refused(raw_output@),
    {
        let success = !ActionCommand::failure_detected(raw_output.as_str());
        CommandResult::new(self.input.clone(), raw_output, Operation::Action, success, None)
    }
}

/// The number that `text` denotes, or zero.
fn number_of(text: &str) -> (n: i32)
    ensures
        n == number_or_zero(text@),
{
    match parse_i32(text) {
        Some(n) => n,
        None => 0,
    }
}

impl ScoreCommand {
    /// The text that the result reports as input.
    pub fn input(&self) -> (r: String)
        ensures
            r@ == CommandView::Score.input(),
    {
        "score".to_owned()
    }

    /// The result of a score query whose output gave `groups` to the score
    /// pattern. The query itself never fails; without a score there is no
    /// message and no detail.
    pub fn interpret(raw_output: String, groups: Option<Vec<Option<String>>>) -> (r:
        CommandResult)
        ensures
            r@ == score_result_from(raw_output@, groups.deep_view()),
    {
        let mut details = Details::new();
        let mut message: Option<String> = None;
        if let Some(g) = &groups {
            assert(groups.deep_view() == Some(g.deep_view()));
            if g.len() > 1 {
                assert(g.deep_view()[1] == g@[1].deep_view());
                if let Some(score_text) = &g[1] {
                    let score = number_of(score_text.as_str());
                    details.insert("score".to_owned(), Detail::Number(score as i64));
                    let mut text = "Score: ".to_owned();
                    text.append(format_i32(score).as_str());
                    if g.len() > 2 {
                        assert(g.deep_view()[2] == g@[2].deep_view());
                        if let Some(total_text) = &g[2] {
                            let total = number_of(total_text.as_str());
                            details.insert("out_of".to_owned(), Detail::Number(total as i64));
                            text.append("/");
                            text.append(format_i32(total).as_str());
                        }
                    }
                    message = Some(text);
                }
            }
        }
        CommandResult::with_details(
            "score".to_owned(),
            raw_output,
            Operation::Score,
            true,
            message,
            details,
        )
    }

    /// The result of a score query, read from what the interpreter answered.
    pub fn complete(&self, raw_output: String) -> (r: CommandResult)
        ensures
            r@ == score_result(raw_output@),
    {
        let groups = captures(SCORE_REGEX, raw_output.as_str());
        ScoreCommand::interpret(raw_output, groups)
    }
}

/// The slot and the file of `savefile`, as details.
fn details_of(savefile: &Savefile) -> (r: Details)
    ensures
        r@ == save_details(savefile@),
{
    let mut details = Details::new();
    details.insert("slot".to_owned(), Detail::Text(savefile.slot.clone()));
    details.insert("filename".to_owned(), Detail::Text(savefile.filename()));
    details
}

impl SaveCommand {
    /// The text that the result reports as input.
    pub fn input(&self) -> (r: String)
        ensures
            r@ == CommandView::Save(self.savefile@).input(),
    {
        "save".to_owned()
    }

    /// The result of a save, read from everything that the interpreter
    /// answered after it was given the file name.
    pub fn complete(&self, raw_output: String) -> (r: CommandResult)
        ensures
            r@ == save_result(self.savefile@, raw_output@),
    {
        let success = contains(raw_output.as_str(), "Ok.");
        let message = if success {
            let mut text = "[".to_owned();
            text.append(self.savefile.slot.as_str());
            text.append("] Game saved successfully");
            text
        } else {
            "Save operation failed".to_owned()
        };
        CommandResult::with_details(
            "save".to_owned(),
            raw_output,
            Operation::Save,
            success,
            Some(message),
            details_of(&self.savefile),
        )
    }
}

impl RestoreCommand {
    /// The text that the result reports as input.
    pub fn input(&self) -> (r: String)
        ensures
            r@ == CommandView::Restore(self.savefile@).input(),
    {
        "restore".to_owned()
    }

    /// The result of a restore, read from what the interpreter answered
    /// after it was given the file name.
    pub fn complete(&self, raw_output: String) -> (r: CommandResult)
        ensures
            r@ == restore_result(self.savefile@, raw_output@),
    {
        let success = contains(raw_output.as_str(), "Ok.");
        let message = if success {
            let mut text = "[".to_owned();
            text.append(self.savefile.slot.as_str());
            text.append("] Game restored successfully");
            text
        } else {
            "Restore operation failed".to_owned()
        };
        CommandResult::with_details(
            "restore".to_owned(),
            raw_output,
            Operation::Restore,
            success,
            Some(message),
            details_of(&self.savefile),
        )
    }
}

impl QuitCommand {
    /// The text that the result reports as input.
    pub fn input(&self) -> (r: String)
        ensures
            r@ == CommandView::Quit.input(),
    {
        "quit".to_owned()
    }

    /// The result of quitting. What the interpreter answered is kept but
    /// carries no weight: quitting always succeeds.
    pub fn complete(&self, raw_output: String) -> (r: CommandResult)
        ensures
            r@ == quit_result(raw_output@),
            r@.success,
    {
        CommandResult::new(
            "quit".to_owned(),
            raw_output,
            Operation::Quit,
            true,
            Some("Game ended".to_owned()),
        )
    }
}

impl Command {
    /// The text that the command's result reports as its input.
    pub fn input(&self) -> (r: String)
        ensures
            r@ == self@.input(),
    {
        match self {
            Command::Start(c) => c.input(),
            Command::Action(c) => c.input(),
            Command::Score(c) => c.input(),
            Command::Save(c) => c.input(),
            Command::Restore(c) => c.input(),
            Command::Quit(c) => c.input(),
        }
    }

    /// The result of the command once its exchange has captured `raw_output`.
    pub fn complete(&self, raw_output: String) -> (r: CommandResult)
        ensures
            r@ == finish(self@, raw_output@),
            r@.raw_output == raw_output@,
            r@.operation == self@.operation(),
            r@.input == self@.input(),
    {
        match self {
            Command::Start(c) => c.complete(raw_output),
            Command::Action(c) => c.complete(raw_output),
            Command::Score(c) => c.complete(raw_output),
            Command::Save(c) => c.complete(raw_output),
            Command::Restore(c) => c.complete(raw_output),
            Command::Quit(c) => c.complete(raw_output),
        }
    }
}

} // verus!
