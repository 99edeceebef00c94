use textplayer::command_result::{CommandResult, Detail, Details, Operation};
use textplayer::formatters::{
    DataFormatter, Formatter, Formatters, ShellFormatter, Style, TextFormatter,
};

fn action(raw: &str, success: bool) -> CommandResult {
    CommandResult::new("look".to_string(), raw.to_string(), Operation::Action, success, None)
}

fn text_of(details: &Details, key: &str) -> Option<String> {
    match details.get(key) {
        Some(Detail::Text(t)) => Some(t.clone()),
        _ => None,
    }
}

fn number_of(details: &Details, key: &str) -> Option<i64> {
    match details.get(key) {
        Some(Detail::Number(n)) => Some(*n),
        _ => None,
    }
}

#[test]
fn formatters_are_picked_by_name() {
    assert_eq!(Formatters::by_name("shell").style(), Style::Shell);
    assert_eq!(Formatters::by_name("TEXT").style(), Style::Text);
    assert_eq!(Formatters::by_name("Json").style(), Style::Json);
    assert_eq!(Formatters::by_name("data").style(), Style::Data);
    assert_eq!(Formatters::by_name("fancy").style(), Style::Shell);
    assert!(matches!(Formatters::by_name("text"), Formatter::Text(_)));
}

#[test]
fn formatters_are_picked_by_lower_case_form() {
    assert_eq!(Formatters::by_form("text").style(), Style::Text);
    assert_eq!(Formatters::by_form("json").style(), Style::Json);
    assert_eq!(Formatters::by_form("data").style(), Style::Data);
    assert_eq!(Formatters::by_form("shell").style(), Style::Shell);
    assert_eq!(Formatters::by_form("TEXT").style(), Style::Shell);
    assert_eq!(Formatters::by_form("").style(), Style::Shell);
}

#[test]
fn standalone_location_is_judged_on_given_texts() {
    let f = DataFormatter;
    assert_eq!(f.standalone_location_given("Attic", "attic"), Some("Attic".to_string()));
    assert_eq!(f.standalone_location_given("Attic", "no response"), None);
    assert_eq!(f.standalone_location_given("Response", "anything"), Some("Response".to_string()));
    assert_eq!(f.standalone_location_given("At 5 PM", "at 5 pm"), None);
    assert_eq!(f.standalone_location_given("", ""), Some(String::new()));
}

#[test]
fn text_formatter_drops_the_prompt() {
    let result = action("West of House\nA mailbox.\n\n>", true);
    assert_eq!(TextFormatter.format(&result), "West of House\nA mailbox.\n\n");
    assert_eq!(TextFormatter.remove_prompt("Room\n>  "), "Room");
    assert_eq!(TextFormatter.remove_prompt("no prompt  \n"), "no prompt");
}

#[test]
fn text_formatter_prefers_the_message() {
    let result = CommandResult::new(
        "quit".to_string(),
        "raw\n>".to_string(),
        Operation::Quit,
        true,
        Some("Game ended".to_string()),
    );
    assert_eq!(TextFormatter.format(&result), "Game ended\n\n");
}

#[test]
fn shell_formatter_splits_the_prompt_off() {
    let (content, prompt) = ShellFormatter.extract_prompt("West of House\n>");
    assert_eq!(content, "West of House\n\n");
    assert_eq!(prompt, Some("> "));
    let (content, prompt) = ShellFormatter.extract_prompt("still going");
    assert_eq!(content, "still going");
    assert_eq!(prompt, None);
}

#[test]
fn shell_formatter_shows_actions_as_they_are() {
    let result = action("West of House\n>", true);
    assert_eq!(ShellFormatter.format(&result), "West of House\n>");
    assert_eq!(ShellFormatter.format_game_output(&result), "West of House\n>");
}

#[test]
fn shell_formatter_colours_the_prompt() {
    let good = action("West of House\n>", true);
    assert_eq!(ShellFormatter.write_to(&good), "West of House\n\n\x1b[32m> \x1b[0m");
    let bad = action("You can't go that way.\n>", false);
    assert_eq!(ShellFormatter.write_to(&bad), "You can't go that way.\n\n\x1b[31m> \x1b[0m");
    let open = action("no prompt yet", true);
    assert_eq!(ShellFormatter.write_to(&open), "no prompt yet");
}

#[test]
fn shell_formatter_reports_system_commands() {
    let mut details = Details::new();
    details.insert("slot".to_string(), Detail::Text("1".to_string()));
    details.insert("filename".to_string(), Detail::Text("saves/a \"b\".qzl".to_string()));
    details.insert("tries".to_string(), Detail::Number(-3));
    details.insert("fresh".to_string(), Detail::Flag(true));
    let saved = CommandResult::with_details(
        "save".to_string(),
        "Ok.".to_string(),
        Operation::Save,
        true,
        Some("[1] Game saved successfully".to_string()),
        details,
    );
    let expected = "\x1b[32m\u{2713}\x1b[0m SAVE: [1] Game saved successfully\n  slot: \"1\"\n  filename: \"saves/a \\\"b\\\".qzl\"\n  tries: -3\n  fresh: true";
    assert_eq!(ShellFormatter.format_system_feedback(&saved), expected);
    assert_eq!(ShellFormatter.format(&saved), expected);
    assert_eq!(ShellFormatter.write_to(&saved), expected);

    let failed = CommandResult::new(
        "look".to_string(),
        String::new(),
        Operation::Error,
        false,
        Some("Game not running".to_string()),
    );
    assert_eq!(
        ShellFormatter.format(&failed),
        "\x1b[31m\u{2717}\x1b[0m ERROR: Game not running"
    );
    let silent = CommandResult::new("quit".into(), "x".into(), Operation::Quit, true, None);
    assert_eq!(ShellFormatter.format(&silent), "\x1b[32m\u{2713}\x1b[0m QUIT: ");
}

#[test]
fn shell_formatter_passes_start_and_score_through() {
    let start = CommandResult::new("".into(), "ZORK I\n>".into(), Operation::Start, true, None);
    assert_eq!(ShellFormatter.format(&start), "ZORK I\n>");
    let score = CommandResult::new(
        "score".into(),
        "Your score is 5.\n>".into(),
        Operation::Score,
        true,
        Some("Score: 5".into()),
    );
    assert_eq!(ShellFormatter.format(&score), "Your score is 5.\n>");
}

#[test]
fn data_formatter_finds_locations() {
    let f = DataFormatter;
    assert_eq!(
        f.extract_location_with_stats(" Canyon Bottom                    Score: 0        Moves: 26"),
        Some("Canyon Bottom".to_string())
    );
    assert_eq!(f.extract_location_with_stats("Canyon Bottom"), None);
    assert_eq!(f.extract_location_with_stats("    indented"), None);
    assert_eq!(f.extract_standalone_location("  West of House "), Some("West of House".to_string()));
    assert_eq!(f.extract_standalone_location("Score: 5"), None);
    assert_eq!(f.extract_standalone_location("It is 5 PM"), None);
    assert_eq!(f.extract_standalone_location("You can't go that way."), None);
    assert_eq!(f.extract_standalone_location("Really?"), None);
    assert_eq!(f.extract_standalone_location("Stop!"), None);
    assert_eq!(f.extract_standalone_location("No Response here"), None);
    let long = "a".repeat(50);
    assert_eq!(f.extract_standalone_location(&long), None);
    let short = "a".repeat(49);
    assert_eq!(f.extract_standalone_location(&short), Some(short.clone()));
    let wide = "é".repeat(25);
    assert_eq!(f.extract_standalone_location(&wide), None);
    assert_eq!(f.extract_location("West of House\nYou are standing in a field.\n>"), Some("West of House".to_string()));
    assert_eq!(f.extract_location(" Forest   Score: 1\nTrees."), Some("Forest".to_string()));
    assert_eq!(f.extract_location("You are lost\n>"), None);
    assert_eq!(f.extract_location("\nWest of House"), None);
    assert_eq!(f.extract_location(""), None);
}

#[test]
fn data_formatter_knows_refusals_from_places() {
    let f = DataFormatter;
    assert!(f.valid_location("West of House"));
    assert!(!f.valid_location(""));
    for refusal in vec![
        "I don't know the word",
        "I can't see that",
        "What do you want",
        "You're nowhere",
        "You are here",
        "That's not a verb",
        "I beg your pardon?",
    ] {
        assert!(!f.valid_location(refusal), "{}", refusal);
    }
}

#[test]
fn data_formatter_reads_the_status_line() {
    let f = DataFormatter;
    let status = " Kitchen      score: 10      MOVES:  26     9:05 PM";
    assert_eq!(f.extract_score(status), Some(10));
    assert_eq!(f.extract_moves(status), Some(26));
    assert_eq!(f.extract_time(status), Some("9:05 PM".to_string()));
    assert_eq!(f.extract_score("nothing"), None);
    assert_eq!(f.extract_moves("Moves: 99999999999"), None);
    assert_eq!(f.extract_time("at 9 o'clock"), None);
    assert_eq!(DataFormatter::number_from(&Some(vec![None, Some("12".to_string())])), Some(12));
    assert_eq!(DataFormatter::number_from(&Some(vec![None, None])), None);
    assert_eq!(DataFormatter::number_from(&Some(vec![None])), None);
    assert_eq!(DataFormatter::number_from(&None), None);
    assert_eq!(DataFormatter::text_from(&Some(vec![None, Some("t".to_string())])), Some("t".to_string()));
    assert_eq!(DataFormatter::text_from(&None), None);
}

#[test]
fn data_formatter_tidies_text() {
    let f = DataFormatter;
    assert_eq!(f.final_cleanup("  a\n\n\n\nb  \n   \nc \t"), "a\n\nb  \n\nc");
    assert_eq!(f.final_cleanup(""), "");
}

#[test]
fn data_formatter_parses_a_result() {
    let raw = " Kitchen      Score: 10      Moves: 26\n\nYou are in the kitchen.\n\n>";
    let data = DataFormatter.parse(&action(raw, true));
    assert_eq!(text_of(&data, "location"), Some("Kitchen".to_string()));
    assert_eq!(number_of(&data, "score"), Some(10));
    assert_eq!(number_of(&data, "moves"), Some(26));
    assert!(data.get("time").is_none());
    assert_eq!(text_of(&data, "prompt"), Some(">".to_string()));
    assert_eq!(text_of(&data, "output"), Some("Kitchen            \n\nYou are in the kitchen.".to_string()));
    assert!(matches!(data.get("has_prompt"), Some(Detail::Flag(true))));
    assert_eq!(data.len(), 6);
    assert_eq!(data.name_at(0), "location");
    assert_eq!(data.name_at(5), "has_prompt");
}

#[test]
fn data_formatter_assembles_in_order() {
    let data = DataFormatter::assemble(
        None,
        Some(3),
        None,
        Some("9:05 AM".to_string()),
        false,
        "text".to_string(),
    );
    assert_eq!(data.len(), 5);
    assert_eq!(data.name_at(0), "score");
    assert_eq!(data.name_at(1), "time");
    assert_eq!(data.name_at(2), "prompt");
    assert_eq!(data.name_at(3), "output");
    assert_eq!(data.name_at(4), "has_prompt");
    assert!(matches!(data.get("has_prompt"), Some(Detail::Flag(false))));
}

#[test]
fn data_formatter_removes_the_time() {
    let raw = "Deck   9:05 AM\nThe clock says 9:05 AM.";
    let data = DataFormatter.parse(&action(raw, true));
    assert_eq!(text_of(&data, "time"), Some("9:05 AM".to_string()));
    assert_eq!(text_of(&data, "output"), Some("Deck   \nThe clock says .".to_string()));
    assert!(matches!(data.get("has_prompt"), Some(Detail::Flag(false))));
}
