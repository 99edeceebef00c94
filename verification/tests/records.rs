use textplayer::command_result::{CommandResult, Detail, Details, Operation};
use textplayer::gamefile::Gamefile;
use textplayer::savefile::Savefile;
use textplayer::{game_dir, Error, AUTO_SAVE_SLOT, GAME_DIR};

fn text_of(detail: Option<&Detail>) -> Option<String> {
    match detail {
        Some(Detail::Text(t)) => Some(t.clone()),
        _ => None,
    }
}

fn number_of(detail: Option<&Detail>) -> Option<i64> {
    match detail {
        Some(Detail::Number(n)) => Some(*n),
        _ => None,
    }
}

#[test]
fn operation_names_are_lower_case() {
    assert_eq!(Operation::Action.name(), "action");
    assert_eq!(Operation::Start.name(), "start");
    assert_eq!(Operation::Save.name(), "save");
    assert_eq!(Operation::Restore.name(), "restore");
    assert_eq!(Operation::Score.name(), "score");
    assert_eq!(Operation::Quit.name(), "quit");
    assert_eq!(Operation::Error.name(), "error");
}

#[test]
fn details_bind_and_rebind_names() {
    let mut details = Details::new();
    assert!(details.is_empty());
    details.insert("score".to_string(), Detail::Number(10));
    details.insert("slot".to_string(), Detail::Text("one".to_string()));
    assert_eq!(details.len(), 2);
    assert_eq!(number_of(details.get("score")), Some(10));
    details.insert("score".to_string(), Detail::Number(25));
    assert_eq!(details.len(), 2);
    assert_eq!(number_of(details.get("score")), Some(25));
    assert_eq!(details.name_at(0), "score");
    assert_eq!(details.name_at(1), "slot");
    assert_eq!(text_of(details.get("slot")), Some("one".to_string()));
    assert!(details.get("missing").is_none());
    let copy = details.duplicate();
    assert_eq!(copy.len(), 2);
    assert_eq!(number_of(copy.get("score")), Some(25));
    assert_eq!(text_of(Some(copy.detail_at(1))), Some("one".to_string()));
}

#[test]
fn result_without_details_reports_its_fields() {
    let result = CommandResult::new(
        "look".to_string(),
        "West of House\n>".to_string(),
        Operation::Action,
        true,
        None,
    );
    assert_eq!(result.input, "look");
    assert_eq!(result.raw_output, "West of House\n>");
    assert_eq!(result.operation, Operation::Action);
    assert!(result.is_action_command());
    assert!(!result.is_system_command());
    assert!(result.is_success());
    assert!(!result.is_failure());
    assert!(result.message.is_none());
    assert!(result.details.is_empty());
}

#[test]
fn result_with_details_keeps_them() {
    let mut details = Details::new();
    details.insert("slot".to_string(), Detail::Text("1".to_string()));
    let mut result = CommandResult::with_details(
        "save".to_string(),
        "Ok.".to_string(),
        Operation::Save,
        false,
        Some("Save operation failed".to_string()),
        details,
    );
    assert!(result.is_system_command());
    assert!(result.is_failure());
    assert_eq!(text_of(result.get_detail("slot")), Some("1".to_string()));
    result.add_detail("flag".to_string(), Detail::Flag(true));
    assert!(matches!(result.get_detail("flag"), Some(Detail::Flag(true))));
    assert_eq!(result.raw_output, "Ok.");
    let copy = result.clone();
    assert_eq!(copy.input, "save");
    assert_eq!(copy.message.as_deref(), Some("Save operation failed"));
    assert_eq!(copy.details.len(), 2);
}

#[test]
fn savefile_defaults_to_the_autosave_slot() {
    assert_eq!(AUTO_SAVE_SLOT, "autosave");
    assert_eq!(Savefile::new(None, None).slot, "autosave");
    assert_eq!(Savefile::new(None, Some("".to_string())).slot, "autosave");
    assert_eq!(Savefile::new(None, Some("  \t".to_string())).slot, "autosave");
    assert_eq!(Savefile::new(None, Some("  mine ".to_string())).slot, "mine");
}

#[test]
fn savefile_derives_its_path() {
    let with_game = Savefile::new(Some("zork1.z5".to_string()), Some("1".to_string()));
    assert_eq!(with_game.filename(), "saves/zork1.z5_1.qzl");
    let without_game = Savefile::new(None, Some("1".to_string()));
    assert_eq!(without_game.filename(), "saves/1.qzl");
    let auto = Savefile::new(Some("zork".to_string()), None);
    assert_eq!(auto.filename(), "saves/zork_autosave.qzl");
    assert_eq!(auto.clone().filename(), "saves/zork_autosave.qzl");
}

#[test]
fn save_and_restore_of_one_slot_share_the_file() {
    let saved = Savefile::new(Some("zork1.z5".to_string()), Some("slot7".to_string()));
    let restored = Savefile::new(Some("zork1.z5".to_string()), Some("slot7".to_string()));
    assert_eq!(saved.filename(), restored.filename());
    assert_eq!(saved.filename(), "saves/zork1.z5_slot7.qzl");
}

fn listing(names: Vec<&str>) -> Vec<Gamefile> {
    names.into_iter().map(|n| Gamefile::new(n.to_string(), format!("games/{}", n))).collect()
}

#[test]
fn game_dir_is_games() {
    assert_eq!(GAME_DIR, "games");
    assert_eq!(game_dir(), "games");
}

#[test]
fn game_name_with_two_matches_is_ambiguous() {
    let games = listing(vec!["zork1.z5", "advent.z5", "zork2.z5"]);
    match Gamefile::from_input("zork", &games) {
        Err(Error::MultipleGamesFound(name, names)) => {
            assert_eq!(name, "zork");
            assert_eq!(names, vec!["zork1.z5".to_string(), "zork2.z5".to_string()]);
        }
        other => panic!("unexpected resolution {:?}", other),
    }
}

#[test]
fn game_name_without_match_is_not_found() {
    let games = listing(vec!["zork1.z5", "advent.z5"]);
    match Gamefile::from_input("trinity", &games) {
        Err(Error::GameNotFound(name)) => assert_eq!(name, "trinity"),
        other => panic!("unexpected resolution {:?}", other),
    }
    assert!(matches!(Gamefile::from_input("zork", &Vec::new()), Err(Error::GameNotFound(_))));
}

#[test]
fn game_name_with_one_match_resolves() {
    let games = listing(vec!["zork1.z5", "advent.z5", "zork2.z5"]);
    match Gamefile::from_input("adv", &games) {
        Ok(game) => {
            assert_eq!(game.name, "advent.z5");
            assert_eq!(game.path, "games/advent.z5");
        }
        other => panic!("unexpected resolution {:?}", other),
    }
}

#[test]
fn game_path_is_taken_as_it_stands() {
    let games = listing(vec!["zork1.z5"]);
    match Gamefile::from_input("stories/deep/zork1.z5", &games) {
        Ok(game) => {
            assert_eq!(game.name, "zork1.z5");
            assert_eq!(game.path, "stories/deep/zork1.z5");
        }
        other => panic!("unexpected resolution {:?}", other),
    }
    match Gamefile::from_input("stories/deep/", &games) {
        Ok(game) => {
            assert_eq!(game.name, "deep");
            assert_eq!(game.path, "stories/deep/");
        }
        other => panic!("unexpected resolution {:?}", other),
    }
    match Gamefile::from_input("stories/..", &games) {
        Ok(game) => {
            assert_eq!(game.name, "stories/..");
            assert_eq!(game.path, "stories/..");
        }
        other => panic!("unexpected resolution {:?}", other),
    }
}

#[test]
fn game_from_path_names_by_component_or_input() {
    let named = Gamefile::from_path("a/b.z5", Some("b.z5".to_string()));
    assert_eq!(named.name, "b.z5");
    assert_eq!(named.path, "a/b.z5");
    let unnamed = Gamefile::from_path("/", None);
    assert_eq!(unnamed.name, "/");
    assert_eq!(unnamed.path, "/");
}

#[test]
fn full_path_prefers_the_canonical_form() {
    let game = Gamefile::new("zork1.z5".to_string(), "games/zork1.z5".to_string());
    assert_eq!(game.full_path(Some("/srv/games/zork1.z5".to_string())), "/srv/games/zork1.z5");
    assert_eq!(game.full_path(None), "games/zork1.z5");
    assert_eq!(game.clone().name, "zork1.z5");
}
