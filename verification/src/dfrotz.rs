//! The decisions of the driver of an interpreter process: when a process may
//! be started, written to or read, and how a timed read goes on from one
//! chunk of output to the next.
//!
//! The driver holds no process. It keeps the state that a process owner needs
//! in order to act as the interpreter expects, and says what to do; spawning,
//! the pipes and the clock are the owner's.

use crate::command_result::option_text;
use crate::commands::option_str;
use crate::pattern::{found_in, has_match};
use crate::text::from_utf8;
use crate::{Error, ErrorView};
use vstd::prelude::*;
use vstd::string::*;
use vstd::utf8::{
    decode_first_scalar, decode_utf8, is_char_boundary_iff_not_is_continuation_byte,
    is_char_boundary_start_end_of_seq, length_of_first_scalar,
    partial_valid_partial_invalid_utf8, pop_first_scalar, valid_utf8, valid_utf8_concat,
    valid_utf8_split,
};

verus! {

/// Seconds that a read waits for its pattern.
pub const TIMEOUT_SECS: u64 = 1;

/// The most bytes that one read of the output pipe asks for.
pub const CHUNK_SIZE: usize = 1024;

/// Milliseconds to pause after a line was sent: the interpreter's answer is
/// not there at once.
pub const COMMAND_DELAY_MS: u64 = 100;

/// Milliseconds to back off when the output pipe has nothing to give.
pub const BACKOFF_MS: u64 = 10;

/// The interpreter's executable when nothing else names one.
pub const SYSTEM_PATH: &'static str = "dfrotz";

/// Where a driver stands in the life of its process.
#[derive(Clone, Copy, Debug, PartialEq, Eq, Structural)]
pub enum Lifecycle {
    NotStarted,
    Running,
    Terminated,
}

/// What it takes to start the interpreter: the executable and the game file
/// that is its only argument.
#[derive(Debug)]
pub struct Launch {
    pub program: String,
    pub game_path: String,
}

/// A line to put on the interpreter's input, terminator included, and the
/// pause to make once it is flushed.
#[derive(Debug)]
pub struct Transmission {
    pub line: String,
    pub pause_ms: u64,
}

/// What one attempt to read the output pipe gave.
#[derive(Debug)]
pub enum ReadEvent {
    /// Some bytes arrived.
    Chunk(Vec<u8>),
    /// The pipe had nothing to give.
    Empty,
    /// The read failed.
    Failed,
    /// The pipe was in use.
    Busy,
}

/// What a reader does after an attempt to read.
#[derive(Clone, Copy, Debug, PartialEq, Eq, Structural)]
pub enum ReadAction {
    /// Read again at once.
    Continue,
    /// Wait a moment, then read again.
    Backoff,
    /// The pattern has appeared: stop.
    Stop,
}

/// A timed read in progress: the pattern it waits for, if any, the time it
/// has, the text gathered so far, and the bytes that arrived but do not yet
/// make up whole characters.
#[derive(Debug)]
pub struct Reader {
    pattern: Option<String>,
    timeout_ms: u64,
    output: String,
    tail: Vec<u8>,
}

/// What a read has taken in: the text decoded so far, and the bytes after it
/// that are kept until they decode.
pub struct Gathered {
    pub text: Seq<char>,
    pub tail: Seq<u8>,
}

/// The mathematical value of a [`Reader`].
pub struct ReaderView {
    pub pattern: Option<Seq<char>>,
    pub timeout_ms: u64,
    pub output: Seq<char>,
    pub tail: Seq<u8>,
}

impl ReaderView {
    /// What the reader has taken in.
    pub open spec fn state(self) -> Gathered {
        Gathered { text: self.output, tail: self.tail }
    }
}

impl Gathered {
    /// No decodable bytes are held back: the kept bytes are none, or they are
    /// not valid UTF-8 as they stand.
    pub open spec fn settled(self) -> bool {
        self.tail.len() == 0 || !valid_utf8(self.tail)
    }
}

impl View for Reader {
    type V = ReaderView;

    closed spec fn view(&self) -> ReaderView {
        ReaderView {
            pattern: option_text(self.pattern),
            timeout_ms: self.timeout_ms,
            output: self.output@,
            tail: self.tail@,
        }
    }
}

/// What bytes are decoded when `bytes` arrive after the kept bytes `tail`:
/// both together where that is valid UTF-8; else the new bytes alone where
/// they are valid UTF-8 by themselves, which gives up on the kept ones;
/// else none.
pub open spec fn decodable(tail: Seq<u8>, bytes: Seq<u8>) -> Option<Seq<u8>> {
    if valid_utf8(tail + bytes) {
        Some(tail + bytes)
    } else if bytes.len() > 0 && valid_utf8(bytes) {
        Some(bytes)
    } else {
        None
    }
}

/// What a read has taken in once `event` is in. The bytes of a chunk join
/// the kept bytes; as soon as these are valid UTF-8 they are decoded onto the
/// text and nothing is kept. Kept bytes that a chunk cannot complete, while
/// the chunk is valid by itself, were no text: they go, and the chunk is
/// decoded. Anything but a chunk changes nothing.
pub open spec fn gathered(state: Gathered, event: ReadEvent) -> Gathered {
    match event {
        ReadEvent::Chunk(bytes) => match decodable(state.tail, bytes@) {
            Some(whole) => Gathered { text: state.text + decode_utf8(whole), tail: Seq::empty() },
            None => Gathered { text: state.text, tail: state.tail + bytes@ },
        },
        _ => state,
    }
}

/// What a reader that waits for `pattern` does after `event`, given what it
/// had taken in before: it stops when the event added to the text and the
/// pattern then matches the text.
pub open spec fn reaction(pattern: Option<Seq<char>>, state: Gathered, event: ReadEvent)
    -> ReadAction {
    match event {
        ReadEvent::Chunk(bytes) => if decodable(state.tail, bytes@) is Some && pattern is Some
            && has_match(pattern->Some_0, gathered(state, event).text) {
            ReadAction::Stop
        } else {
            ReadAction::Continue
        },
        _ => ReadAction::Backoff,
    }
}

/// What a read has taken in when its attempts give `events`, in order, and
/// time runs out after the last of them, unless the pattern appears first.
pub open spec fn read_outcome(pattern: Option<Seq<char>>, state: Gathered, events: Seq<
    ReadEvent,
>) -> Gathered
    decreases events.len(),
{
    if events.len() == 0 {
        state
    } else if reaction(pattern, state, events[0]) == ReadAction::Stop {
        gathered(state, events[0])
    } else {
        read_outcome(pattern, gathered(state, events[0]), events.drop_first())
    }
}

/// What a read has taken in after all of `events`.
pub open spec fn gathered_all(state: Gathered, events: Seq<ReadEvent>) -> Gathered
    decreases events.len(),
{
    if events.len() == 0 {
        state
    } else {
        gathered_all(gathered(state, events[0]), events.drop_first())
    }
}

/// The bytes that `events` carry, in order.
pub open spec fn carried(events: Seq<ReadEvent>) -> Seq<u8>
    decreases events.len(),
{
    if events.len() == 0 {
        Seq::empty()
    } else {
        (match events[0] {
            ReadEvent::Chunk(bytes) => bytes@,
            _ => Seq::empty(),
        }) + carried(events.drop_first())
    }
}

/// The first attempt after which a reader stops, if there is one.
pub open spec fn first_stop(pattern: Option<Seq<char>>, state: Gathered, events: Seq<
    ReadEvent,
>) -> Option<int>
    decreases events.len(),
{
    if events.len() == 0 {
        None
    } else if reaction(pattern, state, events[0]) == ReadAction::Stop {
        Some(0)
    } else {
        match first_stop(pattern, gathered(state, events[0]), events.drop_first()) {
            Some(k) => Some(k + 1),
            None => None,
        }
    }
}

/// A read returns as soon as its pattern appears in what it has gathered, and
/// returns all it has gathered when the pattern never appears in time: with a
/// first stopping attempt `k`, the outcome is what the attempts up to `k`
/// carry, its text holds the pattern, and no earlier attempt made the reader
/// stop; without one, the outcome is what all attempts carry.
pub proof fn lemma_read_returns_at_first_match(
    pattern: Option<Seq<char>>,
    state: Gathered,
    events: Seq<ReadEvent>,
)
    ensures
        match first_stop(pattern, state, events) {
            Some(k) => {
                &&& 0 <= k < events.len()
                &&& read_outcome(pattern, state, events) == gathered_all(
                    state,
                    events.take(k + 1),
                )
                &&& pattern is Some
                &&& has_match(pattern->Some_0, read_outcome(pattern, state, events).text)
                &&& forall|j: int|
                    0 <= j < k ==> reaction(
                        pattern,
                        gathered_all(state, events.take(j)),
                        #[trigger] events[j],
                    ) != ReadAction::Stop
            },
            None => {
                &&& read_outcome(pattern, state, events) == gathered_all(state, events)
                &&& forall|j: int|
                    0 <= j < events.len() ==> reaction(
                        pattern,
                        gathered_all(state, events.take(j)),
                        #[trigger] events[j],
                    ) != ReadAction::Stop
            },
        },
    decreases events.len(),
{
    if events.len() == 0 {
    } else if reaction(pattern, state, events[0]) == ReadAction::Stop {
        assert(events.take(1).drop_first() =~= Seq::<ReadEvent>::empty());
        assert(events.take(1)[0] == events[0]);
        assert(gathered_all(gathered(state, events[0]), Seq::<ReadEvent>::empty()) == gathered(
            state,
            events[0],
        ));
        assert(gathered_all(state, events.take(1)) == gathered(state, events[0]));
    } else {
        let rest = events.drop_first();
        let next = gathered(state, events[0]);
        lemma_read_returns_at_first_match(pattern, next, rest);
        assert(events.take(0) =~= Seq::<ReadEvent>::empty());
        assert(gathered_all(state, events.take(0)) == state);
        assert(gathered_all(state, events) == gathered_all(next, rest));
        assert forall|j: int| 0 <= j <= events.len() && j >= 1 implies gathered_all(
            state,
            #[trigger] events.take(j),
        ) == gathered_all(next, rest.take(j - 1)) by {
            assert(events.take(j).drop_first() =~= rest.take(j - 1));
            assert(events.take(j)[0] == events[0]);
        }
        assert(events.take(events.len() as int) =~= events);
        assert(rest.take(rest.len() as int) =~= rest);
        match first_stop(pattern, next, rest) {
            Some(k) => {
                assert(gathered_all(state, events.take(k + 2)) == gathered_all(
                    next,
                    rest.take(k + 1),
                ));
                assert forall|j: int| 0 <= j < k + 1 implies reaction(
                    pattern,
                    gathered_all(state, events.take(j)),
                    #[trigger] events[j],
                ) != ReadAction::Stop by {
                    if j >= 1 {
                        assert(gathered_all(state, events.take(j)) == gathered_all(
                            next,
                            rest.take(j - 1),
                        ));
                        assert(events[j] == rest[j - 1]);
                    }
                }
            },
            None => {
                assert forall|j: int| 0 <= j < events.len() implies reaction(
                    pattern,
                    gathered_all(state, events.take(j)),
                    #[trigger] events[j],
                ) != ReadAction::Stop by {
                    if j >= 1 {
                        assert(gathered_all(state, events.take(j)) == gathered_all(
                            next,
                            rest.take(j - 1),
                        ));
                        assert(events[j] == rest[j - 1]);
                    }
                }
            },
        }
    }
}

/// Decoding two valid byte strings one after the other decodes their
/// concatenation.
pub proof fn lemma_decode_concat(first: Seq<u8>, second: Seq<u8>)
    requires
        valid_utf8(first),
        valid_utf8(second),
    ensures
        valid_utf8(first + second),
        decode_utf8(first + second) == decode_utf8(first) + decode_utf8(second),
    decreases first.len(),
{
    valid_utf8_concat(first, second);
    if first.len() == 0 {
        assert(first + second =~= second);
        assert(decode_utf8(first) + decode_utf8(second) =~= decode_utf8(second));
    } else {
        let rest = pop_first_scalar(first);
        assert(length_of_first_scalar(first) <= first.len() as int);
        assert(rest.len() < first.len());
        lemma_decode_concat(rest, second);
        assert(pop_first_scalar(first + second) =~= rest + second);
        assert(decode_first_scalar(first + second) == decode_first_scalar(first));
        assert(decode_utf8(first + second) =~= decode_utf8(first) + decode_utf8(second));
    }
}

/// The bytes of `stream` before its last `kept` bytes.
pub open spec fn decoded_part(stream: Seq<u8>, kept: Seq<u8>) -> Seq<u8> {
    stream.take(stream.len() - kept.len())
}

/// In valid UTF-8, bytes that are valid by themselves begin at the start of
/// a character: what stands before them is valid too.
pub proof fn lemma_valid_bytes_follow_valid_bytes(
    before: Seq<u8>,
    bytes: Seq<u8>,
    after: Seq<u8>,
)
    requires
        valid_utf8(before + bytes + after),
        valid_utf8(bytes),
        bytes.len() > 0,
    ensures
        valid_utf8(before),
{
    let whole = before + bytes + after;
    let cut = before.len() as int;
    assert(whole[cut] == bytes[0]);
    is_char_boundary_start_end_of_seq(bytes);
    is_char_boundary_iff_not_is_continuation_byte(bytes, 0);
    is_char_boundary_iff_not_is_continuation_byte(whole, cut);
    valid_utf8_split(whole, cut);
    assert(whole.subrange(0, cut) =~= before);
}

/// In valid UTF-8, what follows a valid beginning is valid.
pub proof fn lemma_valid_rest(first: Seq<u8>, rest: Seq<u8>)
    requires
        valid_utf8(first),
        valid_utf8(first + rest),
    ensures
        valid_utf8(rest),
{
    let whole = first + rest;
    if !valid_utf8(rest) {
        assert(whole.subrange(0, first.len() as int) =~= first);
        assert(whole.subrange(first.len() as int, whole.len() as int) =~= rest);
        partial_valid_partial_invalid_utf8(whole, first.len() as int);
    }
}

/// A reader that holds back no decodable bytes never comes to hold any.
pub proof fn lemma_reader_stays_settled(state: Gathered, events: Seq<ReadEvent>)
    requires
        state.settled(),
    ensures
        gathered_all(state, events).settled(),
    decreases events.len(),
{
    if events.len() > 0 {
        lemma_reader_stays_settled(gathered(state, events[0]), events.drop_first());
    }
}

/// No byte of the interpreter's text is dropped, doubled or moved, however
/// the reads cut it. When the bytes received so far, going on with `onward`,
/// are valid UTF-8, then they are the bytes that were decoded followed by the
/// bytes that are kept, the decoded ones are valid UTF-8, and the text grew
/// by exactly what they decode to: the text is the decoding of a prefix of
/// the stream, and the rest of what arrived is kept for the next chunk.
pub proof fn lemma_text_is_a_decoded_prefix(
    state: Gathered,
    events: Seq<ReadEvent>,
    onward: Seq<u8>,
)
    requires
        state.settled(),
        valid_utf8(state.tail + carried(events) + onward),
    ensures
        ({
            let after = gathered_all(state, events);
            let stream = state.tail + carried(events);
            &&& after.tail.len() <= stream.len()
            &&& decoded_part(stream, after.tail) + after.tail == stream
            &&& valid_utf8(decoded_part(stream, after.tail))
            &&& after.text == state.text + decode_utf8(decoded_part(stream, after.tail))
        }),
    decreases events.len(),
{
    let stream = state.tail + carried(events);
    if events.len() == 0 {
        assert(stream =~= state.tail);
        assert(decoded_part(stream, state.tail) =~= Seq::<u8>::empty());
        assert(state.text + decode_utf8(Seq::<u8>::empty()) =~= state.text);
        assert(decoded_part(stream, state.tail) + state.tail =~= stream);
    } else {
        let rest = events.drop_first();
        let next = gathered(state, events[0]);
        let after = gathered_all(next, rest);
        match events[0] {
            ReadEvent::Chunk(bytes) => {
                let all = state.tail + bytes@;
                assert(stream =~= all + carried(rest));
                assert(stream + onward =~= all + (carried(rest) + onward));
                if valid_utf8(all) {
                    lemma_valid_rest(all, carried(rest) + onward);
                    assert(next.tail + carried(rest) + onward =~= carried(rest) + onward);
                    lemma_text_is_a_decoded_prefix(next, rest, onward);
                    let later = next.tail + carried(rest);
                    let part = decoded_part(later, after.tail);
                    assert(later =~= carried(rest));
                    assert(decoded_part(stream, after.tail) =~= all + part);
                    lemma_decode_concat(all, part);
                    assert(state.text + decode_utf8(all) + decode_utf8(part) =~= state.text + (
                    decode_utf8(all) + decode_utf8(part)));
                    assert(all + part + after.tail =~= all + (part + after.tail));
                } else {
                    if bytes@.len() > 0 && valid_utf8(bytes@) {
                        assert(stream + onward =~= state.tail + bytes@ + (carried(rest) + onward));
                        lemma_valid_bytes_follow_valid_bytes(
                            state.tail,
                            bytes@,
                            carried(rest) + onward,
                        );
                        assert(state.tail.len() == 0);
                        assert(all =~= bytes@);
                    }
                    assert(next.tail + carried(rest) + onward =~= stream + onward);
                    lemma_text_is_a_decoded_prefix(next, rest, onward);
                    assert(next.tail + carried(rest) =~= stream);
                }
            },
            _ => {
                assert(next.tail + carried(rest) =~= stream);
                lemma_text_is_a_decoded_prefix(next, rest, onward);
            },
        }
    }
}

/// When the bytes that the attempts carry, after those already kept, are
/// valid UTF-8 as a whole, the text is extended by exactly what they decode
/// to and nothing is kept back.
pub proof fn lemma_valid_stream_is_kept(state: Gathered, events: Seq<ReadEvent>)
    requires
        state.settled(),
        valid_utf8(state.tail + carried(events)),
    ensures
        gathered_all(state, events) == (Gathered {
            text: state.text + decode_utf8(state.tail + carried(events)),
            tail: Seq::empty(),
        }),
{
    let stream = state.tail + carried(events);
    let after = gathered_all(state, events);
    assert(stream + Seq::<u8>::empty() =~= stream);
    lemma_text_is_a_decoded_prefix(state, events, Seq::empty());
    lemma_reader_stays_settled(state, events);
    lemma_valid_rest(decoded_part(stream, after.tail), after.tail);
    assert(after.tail =~= Seq::<u8>::empty());
    assert(decoded_part(stream, after.tail) =~= stream);
}

impl Reader {
    /// A read that has gathered nothing yet.
    pub fn new(pattern: Option<&str>, timeout_ms: u64) -> (r: Reader)
        ensures
            r@ == (ReaderView {
                pattern: option_str(pattern),
                timeout_ms,
                output: Seq::empty(),
                tail: Seq::empty(),
            }),
            r@.state().settled(),
    {
        let pattern = match pattern {
            Some(p) => Some(p.to_owned()),
            None => None,
        };
        Reader { pattern, timeout_ms, output: String::new(), tail: Vec::new() }
    }

    /// Whether time is up after `elapsed_ms` milliseconds: the read ends then,
    /// with whatever it has gathered.
    pub fn expired(&self, elapsed_ms: u64) -> (r: bool)
        ensures
            r == (elapsed_ms >= self@.timeout_ms),
    {
        elapsed_ms >= self.timeout_ms
    }

    /// Takes in what one attempt to read gave and says how to go on. The
    /// bytes of a chunk join those kept from earlier chunks; once they are
    /// valid UTF-8 together they are added to the text, and the read stops
    /// when the pattern then matches the text. Bytes that end in the middle
    /// of a character are kept for the next chunk. Kept bytes that the next
    /// chunk does not complete are given up when that chunk is valid by
    /// itself. An attempt that gave nothing asks for a short wait.
    pub fn accept(&mut self, event: ReadEvent) -> (r: ReadAction)
        ensures
            final(self)@.pattern == old(self)@.pattern,
            final(self)@.timeout_ms == old(self)@.timeout_ms,
            final(self)@.state() == gathered(old(self)@.state(), event),
            r == reaction(old(self)@.pattern, old(self)@.state(), event),
            old(self)@.state().settled() ==> final(self)@.state().settled(),
    {
        match event {
            ReadEvent::Chunk(bytes) => {
                let mut chunk = bytes;
                let alone = if self.tail.len() > 0 && chunk.len() > 0 {
                    from_utf8(chunk.as_slice())
                } else {
                    None
                };
                self.tail.append(&mut chunk);
                let decoded = match from_utf8(self.tail.as_slice()) {
                    Some(text) => Some(text),
                    None => alone,
                };
                match decoded {
                    Some(text) => {
                        self.output.append(text.as_str());
                        self.tail = Vec::new();
                        let stop = match &self.pattern {
                            Some(pattern) => found_in(pattern.as_str(), self.output.as_str()),
                            None => false,
                        };
                        if stop {
                            ReadAction::Stop
                        } else {
                            ReadAction::Continue
                        }
                    },
                    None => ReadAction::Continue,
                }
            },
            _ => ReadAction::Backoff,
        }
    }

    /// The text gathered so far.
    pub fn output(&self) -> (r: &str)
        ensures
            r@ == self@.output,
    {
        self.output.as_str()
    }

    /// Ends the read and hands out the text it gathered.
    pub fn into_output(self) -> (r: String)
        ensures
            r@ == self@.output,
    {
        self.output
    }

    /// Ends the read and hands out the text it gathered together with the
    /// bytes it kept: they belong at the head of what the next read takes in.
    pub fn finish(self) -> (r: (String, Vec<u8>))
        ensures
            r.0@ == self@.output,
            r.1@ == self@.tail,
    {
        (self.output, self.tail)
    }
}

/// The driver of one interpreter process.
#[derive(Debug)]
pub struct Dfrotz {
    game_path: String,
    dfrotz_path: String,
    timeout_ms: u64,
    command_delay_ms: u64,
    state: Lifecycle,
}

/// The mathematical value of a [`Dfrotz`].
pub struct DfrotzView {
    pub game_path: Seq<char>,
    pub dfrotz_path: Seq<char>,
    pub timeout_ms: u64,
    pub command_delay_ms: u64,
    pub state: Lifecycle,
}

impl DfrotzView {
    /// Whether the driver has a live process.
    pub open spec fn is_running(self) -> bool {
        self.state == Lifecycle::Running
    }

    /// The driver after its process was ended: a driver that never had one
    /// stays as it is.
    pub open spec fn terminated(self) -> DfrotzView {
        if self.is_running() {
            DfrotzView { state: Lifecycle::Terminated, ..self }
        } else {
            self
        }
    }
}

impl View for Dfrotz {
    type V = DfrotzView;

    closed spec fn view(&self) -> DfrotzView {
        DfrotzView {
            game_path: self.game_path@,
            dfrotz_path: self.dfrotz_path@,
            timeout_ms: self.timeout_ms,
            command_delay_ms: self.command_delay_ms,
            state: self.state,
        }
    }
}

/// The executable to run: the one given, else the one that the environment
/// names, else the default.
pub open spec fn chosen_executable(explicit: Option<Seq<char>>, environment: Option<Seq<char>>)
    -> Seq<char> {
    match explicit {
        Some(path) => path,
        None => match environment {
            Some(path) => path,
            None => SYSTEM_PATH@,
        },
    }
}

/// Ending a driver's process twice is ending it once, and a driver whose
/// process was ended is not running.
pub proof fn lemma_terminate_is_idempotent(driver: DfrotzView)
    ensures
        driver.terminated().terminated() == driver.terminated(),
        !driver.terminated().is_running(),
{
}

impl Dfrotz {
    /// The executable to run: `explicit` where given, else `environment`,
    /// the value of the variable `DFROTZ_PATH`, else `dfrotz`.
    pub fn executable(explicit: Option<String>, environment: Option<String>) -> (r: String)
        ensures
            r@ == chosen_executable(option_text(explicit), option_text(environment)),
    {
        match explicit {
            Some(path) => path,
            None => match environment {
                Some(path) => path,
                None => SYSTEM_PATH.to_owned(),
            },
        }
    }

    /// A driver for the game at `game_path`, with no process yet. `found`
    /// says whether the system could locate the executable `dfrotz_path`;
    /// without it there is no driver.
    pub fn new(game_path: String, dfrotz_path: String, found: bool) -> (r: Result<Dfrotz, Error>)
        ensures
            found ==> r is Ok && r->Ok_0@ == (DfrotzView {
                game_path: game_path@,
                dfrotz_path: dfrotz_path@,
                timeout_ms: (TIMEOUT_SECS * 1000) as u64,
                command_delay_ms: COMMAND_DELAY_MS,
                state: Lifecycle::NotStarted,
            }),
            !found ==> r is Err && r->Err_0@ == ErrorView::DfrotzNotFound(dfrotz_path@),
    {
        if !found {
            return Err(Error::DfrotzNotFound(dfrotz_path));
        }
        Ok(
            Dfrotz {
                game_path,
                dfrotz_path,
                timeout_ms: TIMEOUT_SECS * 1000,
                command_delay_ms: COMMAND_DELAY_MS,
                state: Lifecycle::NotStarted,
            },
        )
    }

    /// Where the driver stands in the life of its process.
    pub fn state(&self) -> (r: Lifecycle)
        ensures
            r == self@.state,
    {
        self.state
    }

    /// Milliseconds that a read waits for its pattern.
    pub fn timeout_ms(&self) -> (r: u64)
        ensures
            r == self@.timeout_ms,
    {
        self.timeout_ms
    }

    /// Milliseconds to pause after a line was sent.
    pub fn command_delay_ms(&self) -> (r: u64)
        ensures
            r == self@.command_delay_ms,
    {
        self.command_delay_ms
    }

    /// Whether the driver has a process that was not ended.
    pub fn is_running(&self) -> (r: bool)
        ensures
            r == self@.is_running(),
    {
        self.state == Lifecycle::Running
    }

    /// What to launch, or `None` when a process is running already: starting
    /// twice starts once. The driver counts as running only once
    /// [`Dfrotz::started`] reports that the launch went through.
    pub fn start(&self) -> (r: Option<Launch>)
        ensures
            self@.is_running() <==> r is None,
            r matches Some(launch) ==> launch.program@ == self@.dfrotz_path && launch.game_path@
                == self@.game_path,
    {
        if self.is_running() {
            None
        } else {
            Some(Launch { program: self.dfrotz_path.clone(), game_path: self.game_path.clone() })
        }
    }

    /// Records that the process was launched: the driver is running.
    pub fn started(&mut self)
        ensures
            final(self)@ == (DfrotzView { state: Lifecycle::Running, ..old(self)@ }),
    {
        self.state = Lifecycle::Running;
    }

    /// The line to send for `cmd`, with its terminator, and the pause to make
    /// after it; without a running process, the error.
    pub fn write(&self, cmd: &str) -> (r: Result<Transmission, Error>)
        ensures
            self@.is_running() ==> r is Ok && r->Ok_0.line@ == cmd@ + "\n"@ && r->Ok_0.pause_ms
                == self@.command_delay_ms,
            !self@.is_running() ==> r is Err && r->Err_0@ == ErrorView::GameNotRunning,
    {
        if !self.is_running() {
            return Err(Error::GameNotRunning);
        }
        let mut line = cmd.to_owned();
        line.append("\n");
        Ok(Transmission { line, pause_ms: self.command_delay_ms })
    }

    /// A read that waits for `pattern`, within the driver's timeout; `None`
    /// without a running process, where a read gives the empty text.
    pub fn read_until(&self, pattern: Option<&str>) -> (r: Option<Reader>)
        ensures
            self@.is_running() ==> r is Some && r->Some_0@ == (ReaderView {
                pattern: option_str(pattern),
                timeout_ms: self@.timeout_ms,
                output: Seq::empty(),
                tail: Seq::empty(),
            }),
            !self@.is_running() ==> r is None,
    {
        if !self.is_running() {
            return None;
        }
        Some(Reader::new(pattern, self.timeout_ms))
    }

    /// A read of everything that arrives within the driver's timeout.
    pub fn read_all(&self) -> (r: Option<Reader>)
        ensures
            self@.is_running() ==> r is Some && r->Some_0@ == (ReaderView {
                pattern: None,
                timeout_ms: self@.timeout_ms,
                output: Seq::empty(),
                tail: Seq::empty(),
            }),
            !self@.is_running() ==> r is None,
    {
        self.read_until(None)
    }

    /// Ends the driver's hold on its process. Returns whether there was a
    /// process to end: its pipes are to be released, then the process killed
    /// and awaited. Afterwards the driver is not running, whatever becomes
    /// of the kill.
    pub fn terminate(&mut self) -> (r: bool)
        ensures
            r == old(self)@.is_running(),
            final(self)@ == old(self)@.terminated(),
            !final(self)@.is_running(),
    {
        if !self.is_running() {
            return false;
        }
        self.state = Lifecycle::Terminated;
        true
    }
}

} // verus!
