//! The record of one exchange with the interpreter.

use vstd::prelude::*;
use vstd::string::*;

verus! {

/// The kind of exchange a result reports. `Error` marks the synthetic result
/// of a command that could not be run; no exchange produces it.
#[derive(Clone, Copy, Debug, PartialEq, Eq, Structural)]
pub enum Operation {
    Action,
    Start,
    Save,
    Restore,
    Score,
    Quit,
    Error,
}

impl Operation {
    /// The lower-case name of the operation.
    pub open spec fn name_text(self) -> Seq<char> {
        match self {
            Operation::Action => "action"@,
            Operation::Start => "start"@,
            Operation::Save => "save"@,
            Operation::Restore => "restore"@,
            Operation::Score => "score"@,
            Operation::Quit => "quit"@,
            Operation::Error => "error"@,
        }
    }

    /// The lower-case name of the operation.
    pub fn name(&self) -> (r: String)
        ensures
            r@ == self.name_text(),
    {
        match self {
            Operation::Action => "action".to_owned(),
            Operation::Start => "start".to_owned(),
            Operation::Save => "save".to_owned(),
            Operation::Restore => "restore".to_owned(),
            Operation::Score => "score".to_owned(),
            Operation::Quit => "quit".to_owned(),
            Operation::Error => "error".to_owned(),
        }
    }
}

/// One extracted detail: a number, a text or a flag.
#[derive(Debug)]
pub enum Detail {
    Number(i64),
    Text(String),
    Flag(bool),
}

/// The mathematical value of a [`Detail`].
pub enum DetailView {
    Number(int),
    Text(Seq<char>),
    Flag(bool),
}

impl View for Detail {
    type V = DetailView;

    open spec fn view(&self) -> DetailView {
        match self {
            Detail::Number(n) => DetailView::Number(*n as int),
            Detail::Text(t) => DetailView::Text(t@),
            Detail::Flag(b) => DetailView::Flag(*b),
        }
    }
}

impl Clone for Detail {
    fn clone(&self) -> (r: Detail)
        ensures
            r@ == self@,
    {
        self.duplicate()
    }
}

impl Detail {
    /// A copy with the same value.
    pub fn duplicate(&self) -> (r: Detail)
        ensures
            r@ == self@,
    {
        match self {
            Detail::Number(n) => Detail::Number(*n),
            Detail::Text(t) => Detail::Text(t.clone()),
            Detail::Flag(b) => Detail::Flag(*b),
        }
    }
}

/// Named details in the order in which their names first appeared.
pub type Entries = Seq<(Seq<char>, DetailView)>;

/// No name occurs twice in `entries`.
pub open spec fn distinct_names(entries: Entries) -> bool {
    forall|i: int, j: int|
        0 <= i < j < entries.len() ==> (#[trigger] entries[i]).0 != (#[trigger] entries[j]).0
}

/// Whether `entries` holds a detail called `name`.
pub open spec fn has_name(entries: Entries, name: Seq<char>) -> bool {
    exists|i: int| 0 <= i < entries.len() && (#[trigger] entries[i]).0 == name
}

/// The detail called `name`, if `entries` holds one.
pub open spec fn lookup(entries: Entries, name: Seq<char>) -> Option<DetailView>
    decreases entries.len(),
{
    if entries.len() == 0 {
        None
    } else if entries[0].0 == name {
        Some(entries[0].1)
    } else {
        lookup(entries.drop_first(), name)
    }
}

/// `entries` with `name` bound to `value`: a detail of that name keeps its
/// place and takes the new value, a new name goes to the end.
pub open spec fn inserted(entries: Entries, name: Seq<char>, value: DetailView) -> Entries
    decreases entries.len(),
{
    if entries.len() == 0 {
        seq![(name, value)]
    } else if entries[0].0 == name {
        seq![(name, value)] + entries.drop_first()
    } else {
        seq![entries[0]] + inserted(entries.drop_first(), name, value)
    }
}

/// Looking a name up finds the first entry that carries it.
pub proof fn lemma_lookup_index(entries: Entries, name: Seq<char>, i: int)
    requires
        0 <= i < entries.len(),
        entries[i].0 == name,
        forall|k: int| 0 <= k < i ==> (#[trigger] entries[k]).0 != name,
    ensures
        lookup(entries, name) == Some(entries[i].1),
    decreases i,
{
    if i > 0 {
        assert(entries[0].0 != name);
        let rest = entries.drop_first();
        assert forall|k: int| 0 <= k < i - 1 implies (#[trigger] rest[k]).0 != name by {
            assert(entries[k + 1].0 != name);
        }
        lemma_lookup_index(rest, name, i - 1);
    }
}

/// A name that no entry carries is not found.
pub proof fn lemma_lookup_absent(entries: Entries, name: Seq<char>)
    requires
        !has_name(entries, name),
    ensures
        lookup(entries, name) is None,
    decreases entries.len(),
{
    if entries.len() > 0 {
        assert(entries[0].0 != name);
        let rest = entries.drop_first();
        assert forall|k: int| 0 <= k < rest.len() implies (#[trigger] rest[k]).0 != name by {
            assert(entries[k + 1].0 != name);
        }
        lemma_lookup_absent(rest, name);
    }
}

/// Binding the name of entry `i` replaces that entry.
pub proof fn lemma_inserted_present(entries: Entries, name: Seq<char>, value: DetailView, i: int)
    requires
        0 <= i < entries.len(),
        entries[i].0 == name,
        forall|k: int| 0 <= k < i ==> (#[trigger] entries[k]).0 != name,
    ensures
        inserted(entries, name, value) == entries.update(i, (name, value)),
    decreases i,
{
    if i == 0 {
        assert(seq![(name, value)] + entries.drop_first() =~= entries.update(0, (name, value)));
    } else {
        assert(entries[0].0 != name);
        let rest = entries.drop_first();
        assert forall|k: int| 0 <= k < i - 1 implies (#[trigger] rest[k]).0 != name by {
            assert(entries[k + 1].0 != name);
        }
        lemma_inserted_present(rest, name, value, i - 1);
        assert(seq![entries[0]] + rest.update(i - 1, (name, value)) =~= entries.update(
            i,
            (name, value),
        ));
    }
}

/// Binding a name that no entry carries appends an entry.
pub proof fn lemma_inserted_absent(entries: Entries, name: Seq<char>, value: DetailView)
    requires
        !has_name(entries, name),
    ensures
        inserted(entries, name, value) == entries.push((name, value)),
    decreases entries.len(),
{
    if entries.len() == 0 {
        assert(seq![(name, value)] =~= entries.push((name, value)));
    } else {
        assert(entries[0].0 != name);
        let rest = entries.drop_first();
        assert forall|k: int| 0 <= k < rest.len() implies (#[trigger] rest[k]).0 != name by {
            assert(entries[k + 1].0 != name);
        }
        lemma_inserted_absent(rest, name, value);
        assert(seq![entries[0]] + rest.push((name, value)) =~= entries.push((name, value)));
    }
}

/// After binding a name, looking it up gives the bound value, and every other
/// name is found as before.
pub proof fn lemma_lookup_inserted(
    entries: Entries,
    name: Seq<char>,
    value: DetailView,
    other: Seq<char>,
)
    ensures
        lookup(inserted(entries, name, value), name) == Some(value),
        other != name ==> lookup(inserted(entries, name, value), other) == lookup(entries, other),
    decreases entries.len(),
{
    if entries.len() == 0 {
        assert(seq![(name, value)].drop_first() =~= entries);
    } else if entries[0].0 == name {
        assert((seq![(name, value)] + entries.drop_first()).drop_first() =~= entries.drop_first());
    } else {
        let rest = entries.drop_first();
        lemma_lookup_inserted(rest, name, value, other);
        assert((seq![entries[0]] + inserted(rest, name, value)).drop_first() =~= inserted(
            rest,
            name,
            value,
        ));
    }
}

/// An open-ended mapping from names to details. It keeps the order in which
/// names were first bound and never holds a name twice.
#[derive(Debug)]
pub struct Details {
    entries: Vec<(String, Detail)>,
}

impl View for Details {
    type V = Entries;

    closed spec fn view(&self) -> Entries {
        Seq::new(self.entries@.len(), |i: int| (self.entries@[i].0@, self.entries@[i].1@))
    }
}

impl Clone for Details {
    fn clone(&self) -> (r: Details)
        ensures
            r@ == self@,
    {
        self.duplicate()
    }
}

impl Details {
    #[verifier::type_invariant]
    spec fn unique(self) -> bool {
        distinct_names(self@)
    }

    /// The empty mapping.
    pub fn new() -> (r: Details)
        ensures
            r@ == Seq::<(Seq<char>, DetailView)>::empty(),
            distinct_names(r@),
    {
        let r = Details { entries: Vec::new() };
        assert(r@ =~= Seq::<(Seq<char>, DetailView)>::empty());
        r
    }

    /// The number of details.
    pub fn len(&self) -> (n: usize)
        ensures
            n == self@.len(),
            distinct_names(self@),
    {
        proof {
            use_type_invariant(self);
        }
        self.entries.len()
    }

    /// Whether no detail is bound.
    pub fn is_empty(&self) -> (r: bool)
        ensures
            r == (self@.len() == 0),
    {
        self.entries.len() == 0
    }

    /// The position of the entry called `name`.
    fn position(&self, name: &String) -> (r: Option<usize>)
        ensures
            match r {
                Some(i) => i < self@.len() && self@[i as int].0 == name@ && forall|k: int|
                    0 <= k < i ==> (#[trigger] self@[k]).0 != name@,
                None => !has_name(self@, name@),
            },
    {
        let mut i: usize = 0;
        while i < self.entries.len()
            invariant
                i <= self.entries@.len(),
                self@.len() == self.entries@.len(),
                forall|k: int| 0 <= k < i ==> (#[trigger] self@[k]).0 != name@,
            decreases self.entries.len() - i,
        {
            if self.entries[i].0 == *name {
                return Some(i);
            }
            i += 1;
        }
        None
    }

    /// Binds `name` to `value`, replacing the value of a detail already called so.
    pub fn insert(&mut self, name: String, value: Detail)
        ensures
            final(self)@ == inserted(old(self)@, name@, value@),
            distinct_names(final(self)@),
    {
        proof {
            use_type_invariant(&*self);
        }
        let ghost before = self@;
        let ghost bound = (name@, value@);
        match self.position(&name) {
            Some(i) => {
                proof {
                    lemma_inserted_present(before, name@, value@, i as int);
                    assert forall|a: int, b: int| 0 <= a < b < before.len() implies (
                    #[trigger] before.update(i as int, bound)[a]).0 != (#[trigger] before.update(
                        i as int,
                        bound,
                    )[b]).0 by {
                        assert(before[a].0 != before[b].0);
                    }
                }
                let mut entries: Vec<(String, Detail)> = Vec::new();
                core::mem::swap(&mut entries, &mut self.entries);
                entries.set(i, (name, value));
                assert(Seq::new(entries@.len(), |k: int| (entries@[k].0@, entries@[k].1@))
                    =~= before.update(i as int, bound));
                *self = Details { entries };
            },
            None => {
                proof {
                    lemma_inserted_absent(before, name@, value@);
                    assert forall|a: int, b: int| 0 <= a < b < before.len() + 1 implies (
                    #[trigger] before.push(bound)[a]).0 != (#[trigger] before.push(bound)[b]).0 by {
                        if b < before.len() {
                            assert(before[a].0 != before[b].0);
                        } else {
                            assert(before[a].0 != name@);
                        }
                    }
                }
                let mut entries: Vec<(String, Detail)> = Vec::new();
                core::mem::swap(&mut entries, &mut self.entries);
                entries.push((name, value));
                assert(Seq::new(entries@.len(), |k: int| (entries@[k].0@, entries@[k].1@))
                    =~= before.push(bound));
                *self = Details { entries };
            },
        }
    }

    /// The detail called `name`.
    pub fn get(&self, name: &str) -> (r: Option<&Detail>)
        ensures
            r is Some <==> has_name(self@, name@),
            match r {
                Some(d) => lookup(self@, name@) == Some(d@),
                None => lookup(self@, name@) is None,
            },
    {
        let key = name.to_owned();
        match self.position(&key) {
            Some(i) => {
                proof {
                    lemma_lookup_index(self@, name@, i as int);
                }
                Some(&self.entries[i].1)
            },
            None => {
                proof {
                    lemma_lookup_absent(self@, name@);
                }
                None
            },
        }
    }

    /// The name of entry `i`.
    pub fn name_at(&self, i: usize) -> (r: &String)
        requires
            i < self@.len(),
        ensures
            r@ == self@[i as int].0,
    {
        &self.entries[i].0
    }

    /// The detail of entry `i`.
    pub fn detail_at(&self, i: usize) -> (r: &Detail)
        requires
            i < self@.len(),
        ensures
            r@ == self@[i as int].1,
    {
        &self.entries[i].1
    }

    /// A copy that binds the same names to the same values in the same order.
    pub fn duplicate(&self) -> (r: Details)
        ensures
            r@ == self@,
    {
        proof {
            use_type_invariant(self);
        }
        let mut entries: Vec<(String, Detail)> = Vec::new();
        let mut i: usize = 0;
        while i < self.entries.len()
            invariant
                i <= self.entries@.len(),
                entries@.len() == i,
                forall|k: int|
                    0 <= k < i ==> (#[trigger] entries@[k]).0@ == self.entries@[k].0@
                        && entries@[k].1@ == self.entries@[k].1@,
            decreases self.entries.len() - i,
        {
            entries.push((self.entries[i].0.clone(), self.entries[i].1.duplicate()));
            i += 1;
        }
        let ghost copied = Seq::new(entries@.len(), |i: int| (entries@[i].0@, entries@[i].1@));
        assert(copied =~= self@);
        Details { entries }
    }
}

/// The result of one exchange: what was sent, what came back, and how it was
/// read. `raw_output` is the capture as it arrived; interpreting it never
/// changes it.
#[derive(Debug)]
pub struct CommandResult {
    pub input: String,
    pub raw_output: String,
    pub operation: Operation,
    pub success: bool,
    pub message: Option<String>,
    pub details: Details,
}

/// The mathematical value of a [`CommandResult`].
pub struct CommandResultView {
    pub input: Seq<char>,
    pub raw_output: Seq<char>,
    pub operation: Operation,
    pub success: bool,
    pub message: Option<Seq<char>>,
    pub details: Entries,
}

/// The text of an optional string.
pub open spec fn option_text(message: Option<String>) -> Option<Seq<char>> {
    match message {
        Some(m) => Some(m@),
        None => None,
    }
}

impl View for CommandResult {
    type V = CommandResultView;

    open spec fn view(&self) -> CommandResultView {
        CommandResultView {
            input: self.input@,
            raw_output: self.raw_output@,
            operation: self.operation,
            success: self.success,
            message: option_text(self.message),
            details: self.details@,
        }
    }
}

impl Clone for CommandResult {
    fn clone(&self) -> (r: CommandResult)
        ensures
            r@ == self@,
    {
        self.duplicate()
    }
}

impl CommandResult {
    /// A result without details.
    pub fn new(
        input: String,
        raw_output: String,
        operation: Operation,
        success: bool,
        message: Option<String>,
    ) -> (r: CommandResult)
        ensures
            r@ == (CommandResultView {
                input: input@,
                raw_output: raw_output@,
                operation,
                success,
                message: option_text(message),
                details: Seq::empty(),
            }),
    {
        CommandResult { input, raw_output, operation, success, message, details: Details::new() }
    }

    /// A result that carries `details`.
    pub fn with_details(
        input: String,
        raw_output: String,
        operation: Operation,
        success: bool,
        message: Option<String>,
        details: Details,
    ) -> (r: CommandResult)
        ensures
            r@ == (CommandResultView {
                input: input@,
                raw_output: raw_output@,
                operation,
                success,
                message: option_text(message),
                details: details@,
            }),
    {
        CommandResult { input, raw_output, operation, success, message, details }
    }

    /// Whether the result reports a game action.
    pub fn is_action_command(&self) -> (r: bool)
        ensures
            r == (self.operation == Operation::Action),
    {
        self.operation == Operation::Action
    }

    /// Whether the result reports anything but a game action.
    pub fn is_system_command(&self) -> (r: bool)
        ensures
            r == (self.operation != Operation::Action),
    {
        !self.is_action_command()
    }

    /// Whether the exchange succeeded.
    pub fn is_success(&self) -> (r: bool)
        ensures
            r == self.success,
    {
        self.success
    }

    /// Whether the exchange failed.
    pub fn is_failure(&self) -> (r: bool)
        ensures
            r == !self.success,
    {
        !self.success
    }

    /// Binds the detail `key` to `value`; everything else stays as it was.
    pub fn add_detail(&mut self, key: String, value: Detail)
        ensures
            final(self)@ == (CommandResultView {
                details: inserted(old(self)@.details, key@, value@),
                ..old(self)@
            }),
    {
        self.details.insert(key, value);
    }

    /// The detail called `key`.
    pub fn get_detail(&self, key: &str) -> (r: Option<&Detail>)
        ensures
            r is Some <==> has_name(self@.details, key@),
            match r {
                Some(d) => lookup(self@.details, key@) == Some(d@),
                None => lookup(self@.details, key@) is None,
            },
    {
        self.details.get(key)
    }

    /// A copy with the same value.
    pub fn duplicate(&self) -> (r: CommandResult)
        ensures
            r@ == self@,
    {
        let message = match &self.message {
            Some(m) => Some(m.clone()),
            None => None,
        };
        CommandResult {
            input: self.input.clone(),
            raw_output: self.raw_output.clone(),
            operation: self.operation,
            success: self.success,
            message,
            details: self.details.duplicate(),
        }
    }
}

} // verus!
