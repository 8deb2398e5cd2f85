//! The command interpreter: what a submitted line means.
//!
//! A line is `:h` for help, holds `:q` to quit, or is a list of words
//! separated by spaces. A word `:name` opens an entry with the key `name`.
//! A word `key:value` opens an entry with the key `key` and gives it `value`
//! as its first argument. Any other word is an argument of the entry that was
//! opened last; before the first key it is dropped.

use vstd::prelude::*;
use vstd::string::*;
use crate::screen::{Action, Paint};
use crate::text::{
    chars_of, contains, find, first_index, has, same, split, split_on, string_of, trim, trimmed,
};

verus! {

/// What the interpreter makes of a line.
pub enum Command {
    Help,
    Quit,
    Load(String),
    Invalid,
    Command(Box<Command>),
}

/// What the interpreter makes of a line, with text as a sequence of
/// characters.
pub enum Verdict {
    Help,
    Quit,
    Load(Seq<char>),
    Invalid,
    Command(Box<Verdict>),
}

/// The verdict that a command stands for.
pub open spec fn verdict(command: Command) -> Verdict
    decreases command,
{
    match command {
        Command::Help => Verdict::Help,
        Command::Quit => Verdict::Quit,
        Command::Load(text) => Verdict::Load(text@),
        Command::Invalid => Verdict::Invalid,
        Command::Command(inner) => Verdict::Command(Box::new(verdict(*inner))),
    }
}

impl View for Command {
    type V = Verdict;

    open spec fn view(&self) -> Verdict {
        verdict(*self)
    }
}

/// A key and the arguments given to it.
#[derive(Debug)]
pub struct CommandMap {
    key: String,
    arg: Vec<String>,
}

/// A key and its arguments, as sequences of characters.
#[verifier::ext_equal]
pub struct Entry {
    pub key: Seq<char>,
    pub args: Seq<Seq<char>>,
}

impl Entry {
    /// The entry of `key` with no argument yet.
    pub open spec fn new(key: Seq<char>) -> Entry {
        Entry { key, args: Seq::empty() }
    }

    /// The entry with `value`, trimmed, as one more argument; a value that
    /// is all white space adds nothing.
    pub open spec fn with_arg(self, value: Seq<char>) -> Entry {
        if trimmed(value).len() == 0 {
            self
        } else {
            Entry { args: self.args.push(trimmed(value)), ..self }
        }
    }

    /// The entry as text: `{key: k}` without arguments, `{key: k, arg: a }`
    /// with one, `{key: k, args: a b }` with more.
    pub open spec fn rendered(self) -> Seq<char> {
        if self.args.len() == 0 {
            "{key: "@ + self.key + "}"@
        } else {
            "{key: "@ + self.key + ", "@ + (if self.args.len() == 1 {
                "arg"@
            } else {
                "args"@
            }) + ": "@ + spaced(self.args) + "}"@
        }
    }
}

/// Each of `args` followed by one space.
pub open spec fn spaced(args: Seq<Seq<char>>) -> Seq<char>
    decreases args.len(),
{
    if args.len() == 0 {
        Seq::empty()
    } else {
        spaced(args.drop_last()) + args.last() + " "@
    }
}

/// The entries with `value` given to the last of them.
pub open spec fn last_with_arg(entries: Seq<Entry>, value: Seq<char>) -> Seq<Entry> {
    if entries.len() == 0 {
        entries
    } else {
        entries.update(entries.len() - 1, entries.last().with_arg(value))
    }
}

/// What stands in a word between its first colon and the next, or the end
/// of the word.
pub open spec fn after_colon(token: Seq<char>) -> Seq<char> {
    let rest = token.skip(first_index(token, ':') + 1);
    rest.take(first_index(rest, ':'))
}

/// The entries after one more word. A word without a colon is given to the
/// last entry. A word that starts with a colon opens an entry with what
/// follows the colon as its key. Any other word opens an entry with what
/// stands before its first colon as the key, and gives it what follows the
/// colon.
pub open spec fn with_token(entries: Seq<Entry>, token: Seq<char>) -> Seq<Entry> {
    let colon = first_index(token, ':');
    if colon >= token.len() {
        last_with_arg(entries, token)
    } else if colon == 0 {
        entries.push(Entry::new(after_colon(token)))
    } else {
        entries.push(Entry::new(token.take(colon)).with_arg(after_colon(token)))
    }
}

/// The entries that a list of words makes, taken from left to right.
pub open spec fn entries_of(tokens: Seq<Seq<char>>) -> Seq<Entry>
    decreases tokens.len(),
{
    if tokens.len() == 0 {
        Seq::empty()
    } else {
        with_token(entries_of(tokens.drop_last()), tokens.last())
    }
}

/// The entries as text, one after the other.
pub open spec fn rendered(entries: Seq<Entry>) -> Seq<char>
    decreases entries.len(),
{
    if entries.len() == 0 {
        Seq::empty()
    } else {
        rendered(entries.drop_last()) + entries.last().rendered()
    }
}

/// Whether the line asks to quit.
pub open spec fn asks_to_quit(line: Seq<char>) -> bool {
    contains(line, ":quit"@) || contains(line, ":q"@)
}

/// The entries that the words of a line make.
pub open spec fn entries(line: Seq<char>) -> Seq<Entry> {
    entries_of(split(line, ' '))
}

/// What `line` means: help for `:h`, to quit for a line that holds `:q`,
/// else the entries of its words as text, and `Invalid` where it has none.
pub open spec fn meaning(line: Seq<char>) -> Verdict {
    if line == ":h"@ {
        Verdict::Help
    } else if asks_to_quit(line) {
        Verdict::Quit
    } else if entries(line).len() == 0 {
        Verdict::Invalid
    } else {
        Verdict::Load(rendered(entries(line)))
    }
}

/// An entry is never rendered as the empty text, so the text of a list of
/// entries is empty exactly when the list is.
pub proof fn lemma_nothing_loaded(entries: Seq<Entry>)
    ensures
        rendered(entries).len() == 0 <==> entries.len() == 0,
{
    reveal_strlit("{key: ");
    if entries.len() > 0 {
        let last = entries.last();
        assert(last.rendered().len() > 0);
    }
}

impl View for CommandMap {
    type V = Entry;

    closed spec fn view(&self) -> Entry {
        Entry { key: self.key@, args: self.arg.deep_view() }
    }
}

impl DeepView for CommandMap {
    type V = Entry;

    open spec fn deep_view(&self) -> Entry {
        self.view()
    }
}

impl CommandMap {
    /// The entry of the key `name`, with no argument yet.
    pub fn new(name: &str) -> (map: Self)
        ensures
            map@ == Entry::new(name@),
    {
        let map = Self { key: name.to_owned(), arg: Vec::new() };
        assert(map@ =~~= Entry::new(name@));
        map
    }

    /// Gives `value` to the entry. White space around it is dropped, and a
    /// value that is nothing else is not added.
    pub fn add(&mut self, value: &str)
        ensures
            final(self)@ == old(self)@.with_arg(value@),
    {
        let tmp = trim(value);
        self.add_trimmed(tmp);
    }

    /// Gives `value` to the entry as it stands, unless it is empty.
    pub fn add_trimmed(&mut self, value: String)
        ensures
            final(self)@ == if value@.len() == 0 {
                old(self)@
            } else {
                Entry { args: old(self)@.args.push(value@), ..old(self)@ }
            },
    {
        if !value.as_str().is_empty() {
            let ghost before = self.arg.deep_view();
            self.arg.push(value);
            assert(self.arg.deep_view() =~= before.push(value@));
        }
    }

    /// The entry as text.
    pub fn to_string(&self) -> (text: String)
        ensures
            text@ == self@.rendered(),
    {
        let mut text = String::from_str("{key: ");
        text.append(self.key.as_str());
        let n: usize = self.arg.len();
        if n == 0 {
            text.append("}");
        } else {
            text.append(", ");
            text.append(
                if n == 1 {
                    "arg"
                } else {
                    "args"
                },
            );
            text.append(": ");
            let ghost head = text@;
            let ghost args = self.arg.deep_view();
            let mut i: usize = 0;
            assert(args.take(0) =~= Seq::<Seq<char>>::empty());
            assert(head + spaced(args.take(0)) =~= head);
            while i < n
                invariant
                    n == self.arg@.len(),
                    args == self.arg.deep_view(),
                    i <= n,
                    text@ == head + spaced(args.take(i as int)),
                decreases n - i,
            {
                text.append(self.arg[i].as_str());
                text.append(" ");
                proof {
                    let next = args.take(i + 1);
                    assert(next.drop_last() =~= args.take(i as int));
                    assert(next.last() == self.arg[i as int]@);
                    assert(text@ =~= head + spaced(next));
                }
                i += 1;
            }
            assert(args.take(n as int) =~= args);
            text.append("}");
        }
        text
    }
}

/// Gives `value` to the last of `keys`, if there is one.
fn add_to_last(keys: &mut Vec<CommandMap>, value: &str)
    ensures
        final(keys).deep_view() == last_with_arg(old(keys).deep_view(), value@),
{
    let ghost before = keys.deep_view();
    match keys.pop() {
        Some(mut last) => {
            last.add(value);
            keys.push(last);
            assert(keys.deep_view() =~= last_with_arg(before, value@));
        },
        None => {
            assert(keys.deep_view() =~= before);
        },
    }
}

/// Takes one more word into `keys`.
fn absorb(keys: &mut Vec<CommandMap>, token: &str)
    ensures
        final(keys).deep_view() == with_token(old(keys).deep_view(), token@),
{
    let chars = chars_of(token);
    let n: usize = chars.len();
    assert(chars@.skip(0) =~= chars@);
    let colon: usize = find(chars.as_slice(), 0, ':');
    if colon == n {
        add_to_last(keys, token);
    } else {
        let end: usize = find(chars.as_slice(), colon + 1, ':');
        let value = string_of(chars.as_slice(), colon + 1, end);
        assert(value@ =~= after_colon(token@));
        let ghost before = keys.deep_view();
        if colon == 0 {
            keys.push(CommandMap::new(value.as_str()));
            assert(keys.deep_view() =~= before.push(Entry::new(value@)));
        } else {
            let key = string_of(chars.as_slice(), 0, colon);
            assert(key@ =~= token@.take(colon as int));
            let mut map = CommandMap::new(key.as_str());
            map.add(value.as_str());
            let ghost entry = map@;
            keys.push(map);
            assert(keys.deep_view() =~= before.push(entry));
        }
    }
}

/// The entries as text, one after the other.
fn render(keys: &Vec<CommandMap>) -> (text: String)
    ensures
        text@ == rendered(keys.deep_view()),
{
    let ghost entries = keys.deep_view();
    let n: usize = keys.len();
    let mut text = String::new();
    let mut i: usize = 0;
    assert(entries.take(0) =~= Seq::<Entry>::empty());
    while i < n
        invariant
            n == keys@.len(),
            entries == keys.deep_view(),
            i <= n,
            text@ == rendered(entries.take(i as int)),
        decreases n - i,
    {
        let one = keys[i].to_string();
        text.append(one.as_str());
        proof {
            let next = entries.take(i + 1);
            assert(next.drop_last() =~= entries.take(i as int));
            assert(next.last() == keys[i as int]@);
        }
        i += 1;
    }
    assert(entries.take(n as int) =~= entries);
    text
}

/// The operations that show the help text.
pub open spec fn help_shown() -> Seq<Paint> {
    seq![Paint::Print("\nHelp!"@), Paint::Flush]
}

/// The operations that show the help text, below the line.
pub fn print_help() -> (actions: Vec<Action>)
    ensures
        actions.deep_view() == help_shown(),
{
    let mut actions: Vec<Action> = Vec::new();
    actions.push(Action::Print(String::from_str("\nHelp!")));
    actions.push(Action::Flush);
    assert(actions.deep_view() =~= help_shown());
    actions
}

/// What the line means: help for `:h`, quit for a line that holds `:q`,
/// else the entries that its words make, rendered, and `Invalid` where they
/// make none.
pub fn parse(string: String) -> (command: Command)
    ensures
        command@ == meaning(string@),
{
    let line = chars_of(string.as_str());
    if same(line.as_slice(), chars_of(":h").as_slice()) {
        Command::Help
    } else if has(line.as_slice(), chars_of(":quit").as_slice()) || has(
        line.as_slice(),
        chars_of(":q").as_slice(),
    ) {
        Command::Quit
    } else {
        let tokens = split_on(string.as_str(), ' ');
        let ghost words = tokens.deep_view();
        let n: usize = tokens.len();
        let mut keys: Vec<CommandMap> = Vec::new();
        let mut i: usize = 0;
        assert(words.take(0) =~= Seq::<Seq<char>>::empty());
        assert(keys.deep_view() =~= Seq::<Entry>::empty());
        while i < n
            invariant
                n == tokens@.len(),
                words == tokens.deep_view(),
                i <= n,
                keys.deep_view() == entries_of(words.take(i as int)),
            decreases n - i,
        {
            absorb(&mut keys, tokens[i].as_str());
            proof {
                let next = words.take(i + 1);
                assert(next.drop_last() =~= words.take(i as int));
                assert(next.last() == tokens[i as int]@);
            }
            i += 1;
        }
        assert(words.take(n as int) =~= words);
        let result = render(&keys);
        proof {
            lemma_nothing_loaded(keys.deep_view());
        }
        if result.as_str().is_empty() {
            Command::Invalid
        } else {
            Command::Load(result)
        }
    }
}

} // verus!
