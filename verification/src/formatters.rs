//! Presentations of a command result: for a shell, as plain text, and as
//! data extracted from the game's output.

use crate::command_result::{
    inserted, CommandResult, CommandResultView, Detail, DetailView, Details, Entries, Operation,
};
use crate::commands::group_text;
use crate::pattern::{captures, found_in, has_match, regex_captures, replace, replaced};
use crate::text::{
    chars_of, contains, contains_text, ends_with, ends_with_char, find, first_line, format_i64,
    int_text, lowercase, occurs_at, parse_i32, parsed_i32, remove_all, same_text, starts_with,
    take_first_line, to_lowercase, trim, trim_end, trimmed, trimmed_end, without,
};
use crate::PROMPT_REGEX;
use vstd::prelude::*;
use vstd::string::*;
use vstd::utf8::encode_utf8;

verus! {

/// The score in a status line.
pub const SCORE_PATTERN: &'static str = r"(?i)Score:\s*(\d+)";

/// The move count in a status line.
pub const MOVES_PATTERN: &'static str = r"(?i)Moves:\s*(\d+)";

/// The time of day in a status line.
pub const TIME_PATTERN: &'static str = r"(\d{1,2}:\d{2}\s*(?:AM|PM))";

/// Three line feeds or more in a row.
pub const BLANK_RUN_PATTERN: &'static str = r"\n{3,}";

/// A line that holds whitespace only.
pub const BLANK_LINE_PATTERN: &'static str = r"(?m)^\s+$";

/// Spaces and tabs at the end of the text.
pub const TRAILING_SPACE_PATTERN: &'static str = r"[ \t]+$";

/// What separates a location from the figures in a status line.
pub const STATUS_GAP: &'static str = "   ";

/// Colour for a prompt after a success.
pub const GREEN: &'static str = "\x1b[32m";

/// Colour for a prompt after a failure.
pub const RED: &'static str = "\x1b[31m";

/// End of a coloured stretch.
pub const RESET: &'static str = "\x1b[0m";

/// The mark of a system command that succeeded: a green check.
pub const SUCCESS_MARK: &'static str = "\x1b[32m\u{2713}\x1b[0m";

/// The mark of a system command that failed: a red cross.
pub const FAILURE_MARK: &'static str = "\x1b[31m\u{2717}\x1b[0m";

/// The prompt that the shell shows.
pub const SHELL_PROMPT: &'static str = "> ";

/// The JSON string literal for `text`, quotes and escapes included, as
/// `serde_json` writes a `Value::String`.
pub uninterp spec fn json_string(text: Seq<char>) -> Seq<char>;

/// Writes `text` as a JSON string literal: makes a `serde_json::Value::String`
/// of it and takes its `Display` form. The literal is named, not described.
#[verifier::external_body]
fn to_json_string(text: &str) -> (r: String)
    ensures
        r@ == json_string(text@),
{
    serde_json::Value::String(text.to_string()).to_string()
}

/// What a result shows: its message where it has one, else the raw output.
pub open spec fn display_text(result: CommandResultView) -> Seq<char> {
    match result.message {
        Some(m) => m,
        None => result.raw_output,
    }
}

/// `content` without its prompt lines and without trailing whitespace.
pub open spec fn without_prompt(content: Seq<char>) -> Seq<char> {
    trimmed_end(replaced(PROMPT_REGEX@, content, ""@))
}

/// A result as plain text.
pub open spec fn plain_text(result: CommandResultView) -> Seq<char> {
    without_prompt(display_text(result)) + "\n\n"@
}

/// `content` parted from its prompt: where it holds a prompt line, the text
/// without it, then a blank line, and the prompt to show; else the text as it
/// stands and no prompt.
pub open spec fn prompt_split(content: Seq<char>) -> (Seq<char>, Option<Seq<char>>) {
    if has_match(PROMPT_REGEX@, content) {
        (without_prompt(content) + "\n\n"@, Some(SHELL_PROMPT@))
    } else {
        (content, None)
    }
}

/// The name of an operation in capitals.
pub open spec fn upper_name(operation: Operation) -> Seq<char> {
    match operation {
        Operation::Action => "ACTION"@,
        Operation::Start => "START"@,
        Operation::Save => "SAVE"@,
        Operation::Restore => "RESTORE"@,
        Operation::Score => "SCORE"@,
        Operation::Quit => "QUIT"@,
        Operation::Error => "ERROR"@,
    }
}

/// A detail as JSON text.
pub open spec fn detail_text(detail: DetailView) -> Seq<char> {
    match detail {
        DetailView::Number(n) => int_text(n),
        DetailView::Text(t) => json_string(t),
        DetailView::Flag(b) => if b {
            "true"@
        } else {
            "false"@
        },
    }
}

/// The line that shows one detail.
pub open spec fn detail_line(entry: (Seq<char>, DetailView)) -> Seq<char> {
    "  "@ + entry.0 + ": "@ + detail_text(entry.1)
}

/// The lines that show `entries`, each detail on a line of its own.
pub open spec fn detail_lines(entries: Entries) -> Seq<char>
    decreases entries.len(),
{
    if entries.len() == 0 {
        Seq::empty()
    } else if entries.len() == 1 {
        detail_line(entries[0])
    } else {
        detail_lines(entries.drop_last()) + "\n"@ + detail_line(entries.last())
    }
}

/// The feedback on a system command: the output itself for a start or a
/// score, else a mark, the operation, the message, and the details.
pub open spec fn system_feedback(result: CommandResultView) -> Seq<char> {
    if result.operation == Operation::Start || result.operation == Operation::Score {
        result.raw_output
    } else {
        let head = (if result.success {
            SUCCESS_MARK@
        } else {
            FAILURE_MARK@
        }) + " "@ + upper_name(result.operation) + ": "@ + (match result.message {
            Some(m) => m,
            None => Seq::empty(),
        });
        if result.details.len() > 0 {
            head + "\n"@ + detail_lines(result.details)
        } else {
            head
        }
    }
}

/// A result as the shell formatter gives it.
pub open spec fn shell_text(result: CommandResultView) -> Seq<char> {
    if result.operation == Operation::Action {
        display_text(result)
    } else {
        system_feedback(result)
    }
}

/// A result as the shell formatter writes it to a terminal: the output of an
/// action ends in a prompt that is green after a success and red after a
/// failure.
pub open spec fn shell_written(result: CommandResultView) -> Seq<char> {
    if result.operation == Operation::Action {
        let (content, prompt) = prompt_split(display_text(result));
        match prompt {
            Some(p) => content + (if result.success {
                GREEN@
            } else {
                RED@
            }) + p + RESET@,
            None => content,
        }
    } else {
        shell_text(result)
    }
}

/// The least index at which `needle` occurs in `text`.
pub open spec fn first_index(text: Seq<char>, needle: Seq<char>) -> int {
    choose|i: int|
        occurs_at(text, needle, i) && forall|k: int| 0 <= k < i ==> !occurs_at(text, needle, k)
}

/// The location at the head of a status line: what stands before the first
/// wide gap, where there is a gap and something before it.
pub open spec fn location_with_stats(line: Seq<char>) -> Option<Seq<char>> {
    if contains_text(line, STATUS_GAP@) && trimmed(
        line.take(first_index(line, STATUS_GAP@)),
    ).len() > 0 {
        Some(trimmed(line.take(first_index(line, STATUS_GAP@))))
    } else {
        None
    }
}

/// The location that `candidate` is by itself, given its lower-case form
/// `lowered`: a short text without figures, without a colon, and without the
/// punctuation of a sentence.
pub open spec fn standalone_given(candidate: Seq<char>, lowered: Seq<char>) -> Option<
    Seq<char>,
> {
    if !contains_text(candidate, "Score"@) && !contains_text(candidate, "Moves"@)
        && !contains_text(candidate, "AM"@) && !contains_text(candidate, "PM"@) && !contains_text(
        candidate,
        ":"@,
    ) && !ends_with(candidate, '.') && !ends_with(candidate, '!') && !ends_with(candidate, '?')
        && encode_utf8(candidate).len() < 50 && !contains_text(lowered, "response"@) {
        Some(candidate)
    } else {
        None
    }
}

/// The location that a line is by itself.
pub open spec fn standalone_location(line: Seq<char>) -> Option<Seq<char>> {
    standalone_given(trimmed(line), lowercase(trimmed(line)))
}

/// Whether `location` can name a place: it is not empty and does not begin
/// like one of the interpreter's refusals.
pub open spec fn is_valid_location(location: Seq<char>) -> bool {
    location.len() > 0 && !"I don't "@.is_prefix_of(location) && !"I can't "@.is_prefix_of(
        location,
    ) && !"What do you "@.is_prefix_of(location) && !"You're "@.is_prefix_of(location)
        && !"You "@.is_prefix_of(location) && !"That's not "@.is_prefix_of(location)
        && !"I beg your pardon"@.is_prefix_of(location)
}

/// The location that the first line of `text` names, if it names one.
pub open spec fn location_of(text: Seq<char>) -> Option<Seq<char>> {
    let line = trimmed(first_line(text));
    if line.len() == 0 {
        None
    } else {
        let found = match location_with_stats(line) {
            Some(l) => Some(l),
            None => standalone_location(line),
        };
        match found {
            Some(l) => if is_valid_location(l) {
                Some(l)
            } else {
                None
            },
            None => None,
        }
    }
}

/// The number in capture group 1, where the group took part and holds an `i32`.
pub open spec fn number_in(groups: Option<Seq<Option<Seq<char>>>>) -> Option<i32> {
    match groups {
        Some(g) => match group_text(g, 1) {
            Some(t) => parsed_i32(t),
            None => None,
        },
        None => None,
    }
}

/// The text of capture group 1, where the group took part.
pub open spec fn text_in(groups: Option<Seq<Option<Seq<char>>>>) -> Option<Seq<char>> {
    match groups {
        Some(g) => group_text(g, 1),
        None => None,
    }
}

/// `text` tidied: no surrounding whitespace, no run of more than one blank
/// line, no line of whitespace only, no spaces at the end.
pub open spec fn cleaned_up(text: Seq<char>) -> Seq<char> {
    trimmed(
        replaced(
            TRAILING_SPACE_PATTERN@,
            replaced(
                BLANK_LINE_PATTERN@,
                replaced(BLANK_RUN_PATTERN@, trimmed(text), "\n\n"@),
                ""@,
            ),
            ""@,
        ),
    )
}

/// `entries` with `name` bound to `value` where there is a value.
pub open spec fn with_optional(entries: Entries, name: Seq<char>, value: Option<DetailView>)
    -> Entries {
    match value {
        Some(v) => inserted(entries, name, v),
        None => entries,
    }
}

/// The data of a result, put together from what was extracted.
pub open spec fn assembled(
    location: Option<Seq<char>>,
    score: Option<i32>,
    moves: Option<i32>,
    time: Option<Seq<char>>,
    has_prompt: bool,
    output: Seq<char>,
) -> Entries {
    let e0 = with_optional(
        Seq::empty(),
        "location"@,
        match location {
            Some(l) => Some(DetailView::Text(l)),
            None => None,
        },
    );
    let e1 = with_optional(
        e0,
        "score"@,
        match score {
            Some(s) => Some(DetailView::Number(s as int)),
            None => None,
        },
    );
    let e2 = with_optional(
        e1,
        "moves"@,
        match moves {
            Some(m) => Some(DetailView::Number(m as int)),
            None => None,
        },
    );
    let e3 = with_optional(
        e2,
        "time"@,
        match time {
            Some(t) => Some(DetailView::Text(t)),
            None => None,
        },
    );
    let e4 = inserted(e3, "prompt"@, DetailView::Text(">"@));
    let e5 = inserted(e4, "output"@, DetailView::Text(output));
    inserted(e5, "has_prompt"@, DetailView::Flag(has_prompt))
}

/// The output of the game without what was extracted from it, tidied.
pub open spec fn remaining_output(
    raw: Seq<char>,
    score: Option<i32>,
    moves: Option<i32>,
    time: Option<Seq<char>>,
    has_prompt: bool,
) -> Seq<char> {
    let c1 = if score is Some {
        replaced(SCORE_PATTERN@, raw, ""@)
    } else {
        raw
    };
    let c2 = if moves is Some {
        replaced(MOVES_PATTERN@, c1, ""@)
    } else {
        c1
    };
    let c3 = match time {
        Some(t) => without(c2, t),
        None => c2,
    };
    let c4 = if has_prompt {
        replaced(PROMPT_REGEX@, c3, ""@)
    } else {
        c3
    };
    cleaned_up(c4)
}

/// The data that the data formatter extracts from the raw output `raw`.
pub open spec fn parsed_data(raw: Seq<char>) -> Entries {
    let score = number_in(regex_captures(SCORE_PATTERN@, raw));
    let moves = number_in(regex_captures(MOVES_PATTERN@, raw));
    let time = text_in(regex_captures(TIME_PATTERN@, raw));
    let has_prompt = has_match(PROMPT_REGEX@, raw);
    assembled(
        location_of(raw),
        score,
        moves,
        time,
        has_prompt,
        remaining_output(raw, score, moves, time, has_prompt),
    )
}

/// The least index at which a needle occurs is the only index that has the
/// needle and none before it.
pub proof fn lemma_first_index(text: Seq<char>, needle: Seq<char>, i: int)
    requires
        occurs_at(text, needle, i),
        forall|k: int| 0 <= k < i ==> !occurs_at(text, needle, k),
    ensures
        first_index(text, needle) == i,
{
    let j = first_index(text, needle);
    if j < i {
        assert(!occurs_at(text, needle, j));
    }
    if i < j {
        assert(!occurs_at(text, needle, i));
    }
}

/// The appearance of a formatter.
#[derive(Clone, Copy, Debug, PartialEq, Eq, Structural)]
pub enum Style {
    Shell,
    Text,
    Json,
    Data,
}

/// The style that a name asks for, given the name in lower case; a name
/// that asks for none gets the shell.
pub open spec fn style_of_form(form: Seq<char>) -> Style {
    if form == "text"@ {
        Style::Text
    } else if form == "json"@ {
        Style::Json
    } else if form == "data"@ {
        Style::Data
    } else {
        Style::Shell
    }
}

/// The style that `name` asks for, in any letter case.
pub open spec fn style_named(name: Seq<char>) -> Style {
    style_of_form(lowercase(name))
}

/// Shows results to a player at a terminal, with a prompt and colours.
#[derive(Debug)]
pub struct ShellFormatter;

/// Shows results as plain text.
#[derive(Debug)]
pub struct TextFormatter;

/// Shows results as JSON records.
#[derive(Debug)]
pub struct JsonFormatter;

/// Shows the data that can be extracted from the game's output.
#[derive(Debug)]
pub struct DataFormatter;

/// One of the four formatters.
#[derive(Debug)]
pub enum Formatter {
    Shell(ShellFormatter),
    Text(TextFormatter),
    Json(JsonFormatter),
    Data(DataFormatter),
}

impl Formatter {
    /// The appearance that the formatter gives.
    pub open spec fn style_of(self) -> Style {
        match self {
            Formatter::Shell(_) => Style::Shell,
            Formatter::Text(_) => Style::Text,
            Formatter::Json(_) => Style::Json,
            Formatter::Data(_) => Style::Data,
        }
    }

    /// The appearance that the formatter gives.
    pub fn style(&self) -> (r: Style)
        ensures
            r == self.style_of(),
    {
        match self {
            Formatter::Shell(_) => Style::Shell,
            Formatter::Text(_) => Style::Text,
            Formatter::Json(_) => Style::Json,
            Formatter::Data(_) => Style::Data,
        }
    }
}

/// Picks formatters by name.
pub struct Formatters;

impl Formatters {
    /// The formatter that a name in lower case asks for: the shell formatter
    /// for a name that is none of `shell`, `text`, `json` and `data`.
    pub fn by_form(form: &str) -> (r: Formatter)
        ensures
            r.style_of() == style_of_form(form@),
    {
        if same_text(form, "text") {
            Formatter::Text(TextFormatter)
        } else if same_text(form, "json") {
            Formatter::Json(JsonFormatter)
        } else if same_text(form, "data") {
            Formatter::Data(DataFormatter)
        } else {
            Formatter::Shell(ShellFormatter)
        }
    }

    /// The formatter called `name`, in any letter case.
    pub fn by_name(name: &str) -> (r: Formatter)
        ensures
            r.style_of() == style_named(name@),
    {
        let form = to_lowercase(name);
        Formatters::by_form(form.as_str())
    }
}

/// What a result shows: its message where it has one, else the raw output.
fn display_of(result: &CommandResult) -> (r: &str)
    ensures
        r@ == display_text(result@),
{
    match &result.message {
        Some(m) => m.as_str(),
        None => result.raw_output.as_str(),
    }
}

/// The name of an operation in capitals.
fn upper_name_of(operation: Operation) -> (r: &'static str)
    ensures
        r@ == upper_name(operation),
{
    match operation {
        Operation::Action => "ACTION",
        Operation::Start => "START",
        Operation::Save => "SAVE",
        Operation::Restore => "RESTORE",
        Operation::Score => "SCORE",
        Operation::Quit => "QUIT",
        Operation::Error => "ERROR",
    }
}

/// A detail as JSON text.
fn detail_text_of(detail: &Detail) -> (r: String)
    ensures
        r@ == detail_text(detail@),
{
    match detail {
        Detail::Number(n) => format_i64(*n),
        Detail::Text(t) => to_json_string(t.as_str()),
        Detail::Flag(b) => if *b {
            "true".to_owned()
        } else {
            "false".to_owned()
        },
    }
}

impl TextFormatter {
    /// `content` without its prompt lines and without trailing whitespace.
    pub fn remove_prompt(&self, content: &str) -> (r: String)
        ensures
            r@ == without_prompt(content@),
    {
        let replaced = replace(PROMPT_REGEX, content, "");
        trim_end(replaced.as_str()).to_owned()
    }

    /// The result as plain text: what it shows, without prompt lines, and a
    /// blank line after it.
    pub fn format(&self, result: &CommandResult) -> (r: String)
        ensures
            r@ == plain_text(result@),
    {
        let mut text = self.remove_prompt(display_of(result));
        text.append("\n\n");
        text
    }
}

impl ShellFormatter {
    /// Parts `content` from its prompt.
    pub fn extract_prompt(&self, content: &str) -> (r: (String, Option<&'static str>))
        ensures
            r.0@ == prompt_split(content@).0,
            (match r.1 {
                Some(p) => Some(p@),
                None => None,
            }) == prompt_split(content@).1,
    {
        if found_in(PROMPT_REGEX, content) {
            let replaced = replace(PROMPT_REGEX, content, "");
            let mut cleaned = trim_end(replaced.as_str()).to_owned();
            cleaned.append("\n\n");
            (cleaned, Some(SHELL_PROMPT))
        } else {
            (content.to_owned(), None)
        }
    }

    /// The output of a game action as it is shown.
    pub fn format_game_output(&self, result: &CommandResult) -> (r: String)
        ensures
            r@ == display_text(result@),
    {
        display_of(result).to_owned()
    }

    /// The lines that show the details of a result.
    fn detail_lines_of(details: &Details) -> (r: String)
        ensures
            r@ == detail_lines(details@),
    {
        let mut text = String::new();
        let mut i: usize = 0;
        proof {
            assert(details@.take(0) =~= Seq::<(Seq<char>, DetailView)>::empty());
        }
        while i < details.len()
            invariant
                i <= details@.len(),
                text@ == detail_lines(details@.take(i as int)),
            decreases details@.len() - i,
        {
            let ghost before = text@;
            let ghost upto = details@.take(i + 1);
            proof {
                assert(upto.drop_last() =~= details@.take(i as int));
                assert(upto.last() == details@[i as int]);
            }
            if i > 0 {
                text.append("\n");
            }
            text.append("  ");
            text.append(details.name_at(i).as_str());
            text.append(": ");
            text.append(detail_text_of(details.detail_at(i)).as_str());
            proof {
                let line = detail_line(details@[i as int]);
                assert("  "@ + details@[i as int].0 + ": "@ + detail_text(details@[i as int].1)
                    == line);
                if i > 0 {
                    assert(text@ =~= before + "\n"@ + line);
                } else {
                    assert(before =~= Seq::<char>::empty());
                    assert(text@ =~= line);
                }
            }
            i += 1;
        }
        proof {
            assert(details@.take(details@.len() as int) =~= details@);
        }
        text
    }

    /// The feedback on a system command.
    pub fn format_system_feedback(&self, result: &CommandResult) -> (r: String)
        ensures
            r@ == system_feedback(result@),
    {
        if result.operation == Operation::Start || result.operation == Operation::Score {
            return result.raw_output.clone();
        }
        let mut feedback = if result.success {
            SUCCESS_MARK.to_owned()
        } else {
            FAILURE_MARK.to_owned()
        };
        feedback.append(" ");
        feedback.append(upper_name_of(result.operation));
        feedback.append(": ");
        match &result.message {
            Some(m) => {
                feedback.append(m.as_str());
            },
            None => {
                assert(feedback@ + Seq::<char>::empty() =~= feedback@);
            },
        }
        if !result.details.is_empty() {
            feedback.append("\n");
            feedback.append(ShellFormatter::detail_lines_of(&result.details).as_str());
        }
        feedback
    }

    /// The result as the shell shows it: the output of an action as it is,
    /// feedback on anything else.
    pub fn format(&self, result: &CommandResult) -> (r: String)
        ensures
            r@ == shell_text(result@),
    {
        if result.is_action_command() {
            self.format_game_output(result)
        } else {
            self.format_system_feedback(result)
        }
    }

    /// The text to write to a terminal for the result.
    pub fn write_to(&self, result: &CommandResult) -> (r: String)
        ensures
            r@ == shell_written(result@),
    {
        if result.is_action_command() {
            let (mut content, prompt) = self.extract_prompt(display_of(result));
            match prompt {
                Some(p) => {
                    if result.success {
                        content.append(GREEN);
                    } else {
                        content.append(RED);
                    }
                    content.append(p);
                    content.append(RESET);
                    content
                },
                None => content,
            }
        } else {
            self.format(result)
        }
    }
}

impl DataFormatter {
    /// The location at the head of a status line such as
    /// `Canyon Bottom        Score: 0        Moves: 26`.
    pub fn extract_location_with_stats(&self, line: &str) -> (r: Option<String>)
        ensures
            (match r {
                Some(l) => Some(l@),
                None => None,
            }) == location_with_stats(line@),
    {
        let v = chars_of(line);
        let gap = chars_of(STATUS_GAP);
        match find(&v, &gap) {
            Some(i) => {
                proof {
                    lemma_first_index(line@, STATUS_GAP@, i as int);
                    assert(v@.take(i as int) =~= v@.subrange(0, i as int));
                }
                let head = line.substring_char(0, i);
                let candidate = trim(head);
                if candidate.is_empty() {
                    None
                } else {
                    Some(candidate.to_owned())
                }
            },
            None => None,
        }
    }

    /// The location that `candidate` is by itself, given its lower-case form.
    pub fn standalone_location_given(&self, candidate: &str, lowered: &str) -> (r: Option<String>)
        ensures
            (match r {
                Some(l) => Some(l@),
                None => None,
            }) == standalone_given(candidate@, lowered@),
    {
        if !contains(candidate, "Score") && !contains(candidate, "Moves") && !contains(
            candidate,
            "AM",
        ) && !contains(candidate, "PM") && !contains(candidate, ":") && !ends_with_char(
            candidate,
            '.',
        ) && !ends_with_char(candidate, '!') && !ends_with_char(candidate, '?')
            && candidate.as_bytes().len() < 50 && !contains(lowered, "response") {
            Some(candidate.to_owned())
        } else {
            None
        }
    }

    /// The location that a line is by itself.
    pub fn extract_standalone_location(&self, line: &str) -> (r: Option<String>)
        ensures
            (match r {
                Some(l) => Some(l@),
                None => None,
            }) == standalone_location(line@),
    {
        let candidate = trim(line);
        let lowered = to_lowercase(candidate);
        self.standalone_location_given(candidate, lowered.as_str())
    }

    /// Whether `location` can name a place.
    pub fn valid_location(&self, location: &str) -> (r: bool)
        ensures
            r == is_valid_location(location@),
    {
        !location.is_empty() && !starts_with(location, "I don't ") && !starts_with(
            location,
            "I can't ",
        ) && !starts_with(location, "What do you ") && !starts_with(location, "You're ")
            && !starts_with(location, "You ") && !starts_with(location, "That's not ")
            && !starts_with(location, "I beg your pardon")
    }

    /// The location that the first line of `text` names.
    pub fn extract_location(&self, text: &str) -> (r: Option<String>)
        ensures
            (match r {
                Some(l) => Some(l@),
                None => None,
            }) == location_of(text@),
    {
        let line = trim(take_first_line(text));
        if line.is_empty() {
            return None;
        }
        let found = match self.extract_location_with_stats(line) {
            Some(l) => Some(l),
            None => self.extract_standalone_location(line),
        };
        match found {
            Some(l) => if self.valid_location(l.as_str()) {
                Some(l)
            } else {
                None
            },
            None => None,
        }
    }

    /// The number in capture group 1 of `groups`.
    pub fn number_from(groups: &Option<Vec<Option<String>>>) -> (r: Option<i32>)
        ensures
            r == number_in(groups.deep_view()),
    {
        match groups {
            Some(g) => {
                assert(groups.deep_view() == Some(g.deep_view()));
                if g.len() > 1 {
                    assert(g.deep_view()[1] == g@[1].deep_view());
                    match &g[1] {
                        Some(t) => parse_i32(t.as_str()),
                        None => None,
                    }
                } else {
                    None
                }
            },
            None => None,
        }
    }

    /// The text of capture group 1 of `groups`.
    pub fn text_from(groups: &Option<Vec<Option<String>>>) -> (r: Option<String>)
        ensures
            (match r {
                Some(t) => Some(t@),
                None => None,
            }) == text_in(groups.deep_view()),
    {
        match groups {
            Some(g) => {
                assert(groups.deep_view() == Some(g.deep_view()));
                if g.len() > 1 {
                    assert(g.deep_view()[1] == g@[1].deep_view());
                    match &g[1] {
                        Some(t) => Some(t.clone()),
                        None => None,
                    }
                } else {
                    None
                }
            },
            None => None,
        }
    }

    /// The score that a status line in `text` gives.
    pub fn extract_score(&self, text: &str) -> (r: Option<i32>)
        ensures
            r == number_in(regex_captures(SCORE_PATTERN@, text@)),
    {
        DataFormatter::number_from(&captures(SCORE_PATTERN, text))
    }

    /// The move count that a status line in `text` gives.
    pub fn extract_moves(&self, text: &str) -> (r: Option<i32>)
        ensures
            r == number_in(regex_captures(MOVES_PATTERN@, text@)),
    {
        DataFormatter::number_from(&captures(MOVES_PATTERN, text))
    }

    /// The time of day that a status line in `text` gives.
    pub fn extract_time(&self, text: &str) -> (r: Option<String>)
        ensures
            (match r {
                Some(t) => Some(t@),
                None => None,
            }) == text_in(regex_captures(TIME_PATTERN@, text@)),
    {
        DataFormatter::text_from(&captures(TIME_PATTERN, text))
    }

    /// `text` tidied, with its paragraphs kept.
    pub fn final_cleanup(&self, text: &str) -> (r: String)
        ensures
            r@ == cleaned_up(text@),
    {
        let a = replace(BLANK_RUN_PATTERN, trim(text), "\n\n");
        let b = replace(BLANK_LINE_PATTERN, a.as_str(), "");
        let c = replace(TRAILING_SPACE_PATTERN, b.as_str(), "");
        trim(c.as_str()).to_owned()
    }

    /// The data of a result, put together from what was extracted.
    pub fn assemble(
        location: Option<String>,
        score: Option<i32>,
        moves: Option<i32>,
        time: Option<String>,
        has_prompt: bool,
        output: String,
    ) -> (r: Details)
        ensures
            r@ == assembled(
                crate::command_result::option_text(location),
                score,
                moves,
                crate::command_result::option_text(time),
                has_prompt,
                output@,
            ),
    {
        let mut data = Details::new();
        if let Some(l) = location {
            data.insert("location".to_owned(), Detail::Text(l));
        }
        if let Some(s) = score {
            data.insert("score".to_owned(), Detail::Number(s as i64));
        }
        if let Some(m) = moves {
            data.insert("moves".to_owned(), Detail::Number(m as i64));
        }
        if let Some(t) = time {
            data.insert("time".to_owned(), Detail::Text(t));
        }
        data.insert("prompt".to_owned(), Detail::Text(">".to_owned()));
        data.insert("output".to_owned(), Detail::Text(output));
        data.insert("has_prompt".to_owned(), Detail::Flag(has_prompt));
        data
    }

    /// The data in the raw output of a result: the location, the figures of
    /// the status line, whether a prompt was there, and the output without
    /// all of these.
    pub fn parse(&self, result: &CommandResult) -> (r: Details)
        ensures
            r@ == parsed_data(result@.raw_output),
    {
        let text = result.raw_output.as_str();
        let location = self.extract_location(text);
        let score = self.extract_score(text);
        let moves = self.extract_moves(text);
        let time = self.extract_time(text);
        let has_prompt = found_in(PROMPT_REGEX, text);
        let mut cleaned = result.raw_output.clone();
        if score.is_some() {
            cleaned = replace(SCORE_PATTERN, cleaned.as_str(), "");
        }
        if moves.is_some() {
            cleaned = replace(MOVES_PATTERN, cleaned.as_str(), "");
        }
        if let Some(t) = &time {
            cleaned = remove_all(cleaned.as_str(), t.as_str());
        }
        if has_prompt {
            cleaned = replace(PROMPT_REGEX, cleaned.as_str(), "");
        }
        let output = self.final_cleanup(cleaned.as_str());
        DataFormatter::assemble(location, score, moves, time, has_prompt, output)
    }
}

} // verus!
