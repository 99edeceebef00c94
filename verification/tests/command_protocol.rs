use textplayer::command_result::{CommandResult, Detail, Operation};
use textplayer::commands::{
    failure_patterns, parse_save_restore, ActionCommand, Command, Commands, QuitCommand,
    RestoreCommand, SaveCommand, ScoreCommand, StartCommand,
};
use textplayer::protocol::{Dialog, Reply, Request, Step, Wait};
use textplayer::savefile::Savefile;
use textplayer::Error;

fn text_detail(result: &CommandResult, key: &str) -> Option<String> {
    match result.get_detail(key) {
        Some(Detail::Text(t)) => Some(t.clone()),
        _ => None,
    }
}

fn number_detail(result: &CommandResult, key: &str) -> Option<i64> {
    match result.get_detail(key) {
        Some(Detail::Number(n)) => Some(*n),
        _ => None,
    }
}

fn next(step: Step) -> (Dialog, Request) {
    match step {
        Step::Next(dialog, request) => (dialog, request),
        Step::Done(result) => panic!("the exchange ended early: {:?}", result),
    }
}

fn done(step: Step) -> CommandResult {
    match step {
        Step::Done(Ok(result)) => result,
        other => panic!("the exchange did not end with a result: {:?}", other),
    }
}

fn written(request: &Request) -> String {
    match request {
        Request::Write(line) => line.clone(),
        other => panic!("not a write: {:?}", other),
    }
}

fn awaited(request: &Request) -> Wait {
    match request {
        Request::Read(wait) => *wait,
        other => panic!("not a read: {:?}", other),
    }
}

#[test]
fn score_and_quit_are_whole_lines() {
    assert!(matches!(Commands::create("score", None), Command::Score(_)));
    assert!(matches!(Commands::create("  QUIT \n", None), Command::Quit(_)));
    assert!(matches!(Commands::create("Score", Some("zork")), Command::Score(_)));
    assert!(matches!(Commands::create("score now", None), Command::Action(_)));
    assert!(matches!(Commands::create("quit!", None), Command::Action(_)));
}

#[test]
fn other_lines_are_actions_as_typed() {
    match Commands::create("  Go North ", None) {
        Command::Action(action) => assert_eq!(action.input, "  Go North "),
        other => panic!("unexpected command {:?}", other),
    }
    match Commands::create("", None) {
        Command::Action(action) => assert_eq!(action.input, ""),
        other => panic!("unexpected command {:?}", other),
    }
}

#[test]
fn save_takes_one_word_as_slot() {
    match Commands::create("save 1", Some("zork1.z5")) {
        Command::Save(save) => {
            assert_eq!(save.savefile.slot, "1");
            assert_eq!(save.savefile.game_name.as_deref(), Some("zork1.z5"));
            assert_eq!(save.savefile.filename(), "saves/zork1.z5_1.qzl");
        }
        other => panic!("unexpected command {:?}", other),
    }
    match Commands::create("save", Some("zork")) {
        Command::Save(save) => assert_eq!(save.savefile.slot, "autosave"),
        other => panic!("unexpected command {:?}", other),
    }
    match Commands::create("  save \t two  ", None) {
        Command::Save(save) => {
            assert_eq!(save.savefile.slot, "two");
            assert!(save.savefile.game_name.is_none());
        }
        other => panic!("unexpected command {:?}", other),
    }
}

#[test]
fn save_with_more_words_is_a_game_action() {
    match Commands::create("save the game", Some("zork1.z5")) {
        Command::Action(action) => {
            assert_eq!(action.input, "save the game");
            assert_eq!(action.input(), "save the game");
        }
        other => panic!("unexpected command {:?}", other),
    }
    match Commands::create("  SAVE MySlot extra", None) {
        Command::Action(action) => assert_eq!(action.input, "  SAVE MySlot extra"),
        other => panic!("unexpected command {:?}", other),
    }
    assert!(matches!(Commands::create("restore my old game", None), Command::Action(_)));
}

#[test]
fn save_that_runs_on_is_a_game_action() {
    assert!(matches!(Commands::create("savegame now", None), Command::Action(_)));
    assert!(matches!(Commands::create("savegame", None), Command::Action(_)));
    assert!(matches!(Commands::create("saves", None), Command::Action(_)));
    assert!(matches!(Commands::create("restored", None), Command::Action(_)));
}

#[test]
fn save_slot_is_read_in_lower_case() {
    let upper = match Commands::create("SAVE A", Some("zork1.z5")) {
        Command::Save(save) => save.savefile,
        other => panic!("unexpected command {:?}", other),
    };
    let lower = match Commands::create("save a", Some("zork1.z5")) {
        Command::Save(save) => save.savefile,
        other => panic!("unexpected command {:?}", other),
    };
    assert_eq!(upper.slot, "a");
    assert_eq!(lower.slot, "a");
    assert_eq!(upper.filename(), lower.filename());
    assert_eq!(upper.filename(), "saves/zork1.z5_a.qzl");
}

#[test]
fn restore_takes_one_word_as_slot() {
    match Commands::create("Restore 1", Some("zork1.z5")) {
        Command::Restore(restore) => {
            assert_eq!(restore.savefile.slot, "1");
            assert_eq!(restore.savefile.filename(), "saves/zork1.z5_1.qzl");
        }
        other => panic!("unexpected command {:?}", other),
    }
    match Commands::create("restore", None) {
        Command::Restore(restore) => assert_eq!(restore.savefile.filename(), "saves/autosave.qzl"),
        other => panic!("unexpected command {:?}", other),
    }
}

#[test]
fn command_is_read_from_a_given_form() {
    assert!(matches!(Commands::from_form("score", "SCORE", None), Command::Score(_)));
    assert!(matches!(Commands::from_form("quit", " Quit ", None), Command::Quit(_)));
    match Commands::from_form("save b", "typed", Some("zork")) {
        Command::Save(save) => assert_eq!(save.savefile.filename(), "saves/zork_b.qzl"),
        other => panic!("unexpected command {:?}", other),
    }
    match Commands::from_form("restore b", "typed", Some("zork")) {
        Command::Restore(restore) => assert_eq!(restore.savefile.slot, "b"),
        other => panic!("unexpected command {:?}", other),
    }
    match Commands::from_form("save the game", "typed", None) {
        Command::Action(action) => assert_eq!(action.input, "typed"),
        other => panic!("unexpected command {:?}", other),
    }
    match Commands::from_form("", "   ", None) {
        Command::Action(action) => assert_eq!(action.input, "   "),
        other => panic!("unexpected command {:?}", other),
    }
    match Commands::from_form("look", "Look", None) {
        Command::Action(action) => assert_eq!(action.input, "Look"),
        other => panic!("unexpected command {:?}", other),
    }
}

#[test]
fn resolution_depends_on_the_line_alone() {
    for line in vec!["score", " save 3 ", "look", "QUIT", "restore x"] {
        let first = Commands::create(line, Some("zork"));
        let second = Commands::create(line, Some("zork"));
        assert_eq!(first.input(), second.input());
        assert_eq!(format!("{:?}", first), format!("{:?}", second));
    }
    let spaced = Commands::create("   Score\t", None);
    let plain = Commands::create("score", None);
    assert_eq!(format!("{:?}", spaced), format!("{:?}", plain));
}

#[test]
fn save_and_restore_lines_name_the_same_file() {
    let saved = match Commands::create("save 7", Some("zork1.z5")) {
        Command::Save(save) => save.savefile.filename(),
        other => panic!("unexpected command {:?}", other),
    };
    let restored = match Commands::create("restore 7", Some("zork1.z5")) {
        Command::Restore(restore) => restore.savefile.filename(),
        other => panic!("unexpected command {:?}", other),
    };
    assert_eq!(saved, restored);
    assert_eq!(saved, "saves/zork1.z5_7.qzl");
}

#[test]
fn parse_save_restore_reads_what_follows_the_command_word() {
    assert_eq!(parse_save_restore("", Some("zork")).unwrap().slot, "autosave");
    assert_eq!(parse_save_restore("  \t ", None).unwrap().slot, "autosave");
    let parsed = parse_save_restore("  two ", Some("zork")).unwrap();
    assert_eq!(parsed.slot, "two");
    assert_eq!(parsed.game_name.as_deref(), Some("zork"));
    assert!(parse_save_restore(" two three", Some("zork")).is_none());
    assert!(parse_save_restore("game", None).is_none());
    assert!(parse_save_restore("d two", None).is_none());
}

#[test]
fn command_inputs_are_fixed_words() {
    assert_eq!(StartCommand.input(), "");
    assert_eq!(ScoreCommand.input(), "score");
    assert_eq!(QuitCommand.input(), "quit");
    assert_eq!(ActionCommand { input: "look".to_string() }.input(), "look");
    assert_eq!(SaveCommand { savefile: Savefile::new(None, None) }.input(), "save");
    assert_eq!(RestoreCommand { savefile: Savefile::new(None, None) }.input(), "restore");
    assert_eq!(Command::Score(ScoreCommand).input(), "score");
}

#[test]
fn every_refusal_phrase_fails_an_action() {
    let phrases = vec![
        "I don't understand",
        "I don't know",
        "You can't",
        "You're not",
        "I can't see",
        "That doesn't make sense",
        "That's not a verb I recognize",
        "What do you want to",
        "You don't see",
        "There is no",
        "I don't see",
        "I beg your pardon",
    ];
    assert_eq!(failure_patterns().len(), phrases.len());
    for phrase in phrases {
        let output = format!("Hm. {} that.\n>\n", phrase);
        assert!(ActionCommand::failure_detected(&output), "{}", phrase);
        let shouted = format!("{}\n>", phrase.to_uppercase());
        assert!(ActionCommand::failure_detected(&shouted), "{}", phrase);
        let action = ActionCommand { input: "xyzzy".to_string() };
        let result = action.complete(output.clone());
        assert!(!result.success);
        assert_eq!(result.raw_output, output);
    }
}

#[test]
fn output_without_refusal_is_a_success() {
    assert!(!ActionCommand::failure_detected("West of House\nThere is a small mailbox here.\n>"));
    assert!(!ActionCommand::failure_detected(""));
    let action = ActionCommand { input: "look".to_string() };
    let result = action.complete("West of House\n>".to_string());
    assert!(result.success);
    assert_eq!(result.operation, Operation::Action);
    assert!(result.message.is_none());
    assert!(result.details.is_empty());
}

#[test]
fn refused_move_is_a_failed_action() {
    let command = Commands::create("go north", Some("zork1.z5"));
    let (dialog, request) = next(command.execute());
    assert_eq!(written(&request), "go north");
    let (dialog, request) = next(dialog.resume(Reply::Done));
    assert_eq!(awaited(&request), Wait::Prompt);
    let result = done(dialog.resume(Reply::Output("You can't go that way.\n>\n".to_string())));
    assert_eq!(result.operation, Operation::Action);
    assert!(!result.success);
    assert_eq!(result.raw_output, "You can't go that way.\n>\n");
    assert_eq!(result.input, "go north");
}

#[test]
fn start_reads_until_the_prompt() {
    let (dialog, request) = next(Command::Start(StartCommand).execute());
    assert_eq!(awaited(&request), Wait::Prompt);
    let result = done(dialog.resume(Reply::Output("ZORK I\nWest of House\n\n>".to_string())));
    assert_eq!(result.operation, Operation::Start);
    assert!(result.success);
    assert_eq!(result.input, "");
    assert_eq!(result.raw_output, "ZORK I\nWest of House\n\n>");
    assert!(result.message.is_none());
}

#[test]
fn score_reports_score_and_total() {
    let (dialog, request) = next(Command::Score(ScoreCommand).execute());
    assert_eq!(written(&request), "score");
    let (dialog, request) = next(dialog.resume(Reply::Done));
    assert_eq!(awaited(&request), Wait::Prompt);
    let raw = "Your score is 10 (total of 350), in 5 moves.\n>";
    let result = done(dialog.resume(Reply::Output(raw.to_string())));
    assert_eq!(result.operation, Operation::Score);
    assert!(result.success);
    assert_eq!(result.input, "score");
    assert_eq!(result.raw_output, raw);
    assert_eq!(result.message.as_deref(), Some("Score: 10/350"));
    assert_eq!(number_detail(&result, "score"), Some(10));
    assert_eq!(number_detail(&result, "out_of"), Some(350));
}

#[test]
fn score_without_total_reports_the_score() {
    let result = ScoreCommand.complete("Your score is 25 (total of 350 points).\n>".to_string());
    assert_eq!(result.message.as_deref(), Some("Score: 25"));
    assert_eq!(number_detail(&result, "score"), Some(25));
    assert!(result.get_detail("out_of").is_none());
    assert!(result.success);
}

#[test]
fn score_without_number_still_succeeds() {
    let result = ScoreCommand.complete("No score here.\n>".to_string());
    assert!(result.success);
    assert!(result.message.is_none());
    assert!(result.details.is_empty());
}

#[test]
fn score_too_large_counts_as_zero() {
    let result = ScoreCommand.complete("99999999999 points".to_string());
    assert_eq!(result.message.as_deref(), Some("Score: 0"));
    assert_eq!(number_detail(&result, "score"), Some(0));
}

#[test]
fn score_is_read_from_given_groups() {
    let groups = Some(vec![
        Some("7 (total of 9)".to_string()),
        Some("7".to_string()),
        Some("9".to_string()),
    ]);
    let result = ScoreCommand::interpret("raw".to_string(), groups);
    assert_eq!(result.message.as_deref(), Some("Score: 7/9"));
    assert_eq!(result.raw_output, "raw");
    let partial = ScoreCommand::interpret("raw".to_string(), Some(vec![Some("7".to_string())]));
    assert!(partial.message.is_none());
    let absent = ScoreCommand::interpret("raw".to_string(), Some(vec![None, None, None]));
    assert!(absent.message.is_none());
    assert!(ScoreCommand::interpret("raw".to_string(), None).details.is_empty());
}

#[test]
fn save_to_slot_one_succeeds_on_ok() {
    let command = Commands::create("save 1", Some("zork1.z5"));
    let (dialog, request) = next(command.execute());
    assert!(matches!(request, Request::PrepareSaves));
    let (dialog, request) = next(dialog.resume(Reply::Done));
    assert_eq!(written(&request), "save");
    let (dialog, request) = next(dialog.resume(Reply::Done));
    assert_eq!(awaited(&request), Wait::FilenamePrompt);
    let prompt = "Please enter a filename [zork1.qzl]: ".to_string();
    let (dialog, request) = next(dialog.resume(Reply::Output(prompt)));
    assert_eq!(written(&request), "saves/zork1.z5_1.qzl");
    let (dialog, request) = next(dialog.resume(Reply::Done));
    assert_eq!(awaited(&request), Wait::SaveReply);
    let result = done(dialog.resume(Reply::Output("Ok.\n\n>".to_string())));
    assert_eq!(result.operation, Operation::Save);
    assert!(result.success);
    assert_eq!(result.input, "save");
    assert_eq!(result.raw_output, "Ok.\n\n>");
    assert_eq!(text_detail(&result, "slot"), Some("1".to_string()));
    assert_eq!(text_detail(&result, "filename"), Some("saves/zork1.z5_1.qzl".to_string()));
    assert_eq!(result.message.as_deref(), Some("[1] Game saved successfully"));
    assert!(result.message.unwrap().contains("1"));
}

#[test]
fn save_confirms_an_overwrite_once() {
    let save = SaveCommand { savefile: Savefile::new(Some("zork".to_string()), None) };
    let (dialog, _) = next(Command::Save(save).execute());
    let (dialog, _) = next(dialog.resume(Reply::Done));
    let (dialog, _) = next(dialog.resume(Reply::Done));
    let (dialog, _) = next(dialog.resume(Reply::Output("Please enter a filename [x]: ".into())));
    let (dialog, _) = next(dialog.resume(Reply::Done));
    let (dialog, request) =
        next(dialog.resume(Reply::Output("Overwrite existing file? ".to_string())));
    assert_eq!(written(&request), "y");
    let (dialog, request) = next(dialog.resume(Reply::Done));
    assert_eq!(awaited(&request), Wait::Acknowledgment);
    let result = done(dialog.resume(Reply::Output("Ok.\n>".to_string())));
    assert!(result.success);
    assert_eq!(result.raw_output, "Overwrite existing file? Ok.\n>");
    assert_eq!(result.message.as_deref(), Some("[autosave] Game saved successfully"));
}

#[test]
fn save_confirms_an_overwrite_in_any_letter_case() {
    let save = SaveCommand { savefile: Savefile::new(None, Some("s".to_string())) };
    let (dialog, _) = next(Command::Save(save).execute());
    let (dialog, _) = next(dialog.resume(Reply::Done));
    let (dialog, _) = next(dialog.resume(Reply::Done));
    let (dialog, _) = next(dialog.resume(Reply::Output("Please enter a filename [x]: ".into())));
    let (dialog, _) = next(dialog.resume(Reply::Done));
    let (dialog, request) =
        next(dialog.resume(Reply::Output("OVERWRITE EXISTING FILE? ".to_string())));
    assert_eq!(written(&request), "y");
    let (dialog, request) = next(dialog.resume(Reply::Done));
    assert_eq!(awaited(&request), Wait::Acknowledgment);
    let result = done(dialog.resume(Reply::Output("Ok.".to_string())));
    assert!(result.success);
    assert_eq!(result.raw_output, "OVERWRITE EXISTING FILE? Ok.");
}

#[test]
fn request_follows_the_lower_case_transcript() {
    let save = SaveCommand { savefile: Savefile::new(None, None) };
    let asked = Dialog { command: Command::Save(save), position: 5, transcript: String::new() };
    assert!(matches!(asked.request_given("overwrite existing file? "), Some(Request::Write(_))));
    assert!(asked.request_given("Overwrite existing file? ").is_none());
    assert!(asked.request_given("ok.").is_none());
    let quit = Dialog { command: Command::Quit(QuitCommand), position: 2, transcript: String::new() };
    assert!(matches!(quit.request_given("are you sure?"), Some(Request::Write(_))));
    assert!(matches!(quit.request_given("Are you sure?"), Some(Request::Terminate)));
    assert!(matches!(quit.request_given(">"), Some(Request::Terminate)));
    let late = Dialog { command: Command::Quit(QuitCommand), position: 3, transcript: String::new() };
    assert!(matches!(late.request_given("are you sure"), Some(Request::Settle)));
    assert!(late.request_given(">").is_none());
}

#[test]
fn save_fails_without_ok() {
    let save = SaveCommand { savefile: Savefile::new(None, Some("s".to_string())) };
    let result = save.complete("Failed.\n>".to_string());
    assert!(!result.success);
    assert_eq!(result.message.as_deref(), Some("Save operation failed"));
    assert_eq!(text_detail(&result, "slot"), Some("s".to_string()));
    assert_eq!(text_detail(&result, "filename"), Some("saves/s.qzl".to_string()));
    assert_eq!(result.operation, Operation::Save);
}

#[test]
fn restore_names_the_file_and_reads_the_outcome() {
    let command = Commands::create("restore 1", Some("zork1.z5"));
    let (dialog, request) = next(command.execute());
    assert_eq!(written(&request), "restore");
    let (dialog, request) = next(dialog.resume(Reply::Done));
    assert_eq!(awaited(&request), Wait::FilenamePrompt);
    let (dialog, request) = next(dialog.resume(Reply::Output("Please enter ...".to_string())));
    assert_eq!(written(&request), "saves/zork1.z5_1.qzl");
    let (dialog, request) = next(dialog.resume(Reply::Done));
    assert_eq!(awaited(&request), Wait::Acknowledgment);
    let result = done(dialog.resume(Reply::Output("Ok.\n>".to_string())));
    assert_eq!(result.operation, Operation::Restore);
    assert!(result.success);
    assert_eq!(result.raw_output, "Ok.\n>");
    assert_eq!(result.message.as_deref(), Some("[1] Game restored successfully"));
    assert_eq!(text_detail(&result, "filename"), Some("saves/zork1.z5_1.qzl".to_string()));
}

#[test]
fn restore_fails_without_ok() {
    let restore = RestoreCommand { savefile: Savefile::new(None, None) };
    let result = restore.complete("Failed.\n>".to_string());
    assert!(!result.success);
    assert_eq!(result.message.as_deref(), Some("Restore operation failed"));
    assert_eq!(result.input, "restore");
}

#[test]
fn quit_without_confirmation_terminates() {
    let (dialog, request) = next(Command::Quit(QuitCommand).execute());
    assert_eq!(written(&request), "quit");
    let (dialog, request) = next(dialog.resume(Reply::Done));
    assert_eq!(awaited(&request), Wait::QuitReply);
    let (dialog, request) = next(dialog.resume(Reply::Output("\n>".to_string())));
    assert!(matches!(request, Request::Terminate));
    let result = done(dialog.resume(Reply::Done));
    assert_eq!(result.operation, Operation::Quit);
    assert!(result.success);
    assert_eq!(result.message.as_deref(), Some("Game ended"));
    assert_eq!(result.raw_output, "\n>");
    assert_eq!(result.input, "quit");
}

#[test]
fn quit_with_confirmation_answers_and_settles() {
    let (dialog, _) = next(Command::Quit(QuitCommand).execute());
    let (dialog, _) = next(dialog.resume(Reply::Done));
    let question = "ARE YOU SURE you want to quit? ".to_string();
    let (dialog, request) = next(dialog.resume(Reply::Output(question.clone())));
    assert_eq!(written(&request), "y");
    let (dialog, request) = next(dialog.resume(Reply::Done));
    assert!(matches!(request, Request::Settle));
    let (dialog, request) = next(dialog.resume(Reply::Done));
    assert!(matches!(request, Request::Terminate));
    let result = done(dialog.resume(Reply::Done));
    assert!(result.success);
    assert_eq!(result.raw_output, question);
    assert_eq!(result.message.as_deref(), Some("Game ended"));
}

#[test]
fn failed_request_ends_the_exchange_with_its_error() {
    let (dialog, _) = next(Command::Score(ScoreCommand).execute());
    match dialog.resume(Reply::Failed(Error::GameNotRunning)) {
        Step::Done(Err(Error::GameNotRunning)) => {}
        other => panic!("unexpected step {:?}", other),
    }
    let (dialog, _) = next(Command::Quit(QuitCommand).execute());
    let broken = std::io::Error::new(std::io::ErrorKind::BrokenPipe, "pipe closed");
    match dialog.resume(Reply::Failed(Error::Io(broken))) {
        Step::Done(Err(Error::Io(e))) => assert_eq!(e.kind(), std::io::ErrorKind::BrokenPipe),
        other => panic!("unexpected step {:?}", other),
    }
}

#[test]
fn dialog_positions_walk_the_plan() {
    let step = Dialog::at(Command::Score(ScoreCommand), 1, String::new());
    let (dialog, request) = next(step);
    assert_eq!(awaited(&request), Wait::Prompt);
    assert_eq!(dialog.position, 1);
    assert!(matches!(dialog.current(), Some(Request::Read(Wait::Prompt))));
    let finished = Dialog::at(Command::Quit(QuitCommand), 40, "bye".to_string());
    assert_eq!(done(finished).raw_output, "bye");
    let late = Dialog { command: Command::Start(StartCommand), position: usize::MAX, transcript: "t".to_string() };
    assert!(late.current().is_none());
    assert_eq!(done(late.resume(Reply::Output("more".to_string()))).raw_output, "t");
}

#[test]
fn waits_carry_their_patterns() {
    assert_eq!(Wait::Prompt.pattern(), r"(?m)^>\s*$");
    assert_eq!(Wait::FilenamePrompt.pattern(), r"Please enter a filename \[.*\]: ");
    assert_eq!(Wait::SaveReply.pattern(), r"(?i)Overwrite existing file\? |Ok\.|Failed\.|>");
    assert_eq!(Wait::Acknowledgment.pattern(), r"(?i)Ok\.|Failed\.|>");
    assert_eq!(Wait::QuitReply.pattern(), r"(?i)Are you sure|>");
}
