//! Reading a request line: its command name, its argument, and where the
//! registry sends it.
use vstd::prelude::*;
use crate::commands::{names_are_single_words, spec_name, CommandKind};
use crate::registry::Registry;
use crate::words::{join_from, join_spaced, lemma_one_word, split_words, texts, words};

verus! {

/// The first word of a line, or nothing for a blank line.
pub open spec fn first_word(s: Seq<char>) -> Seq<char> {
    let ws = words(s);
    if ws.len() > 0 {
        ws[0]
    } else {
        Seq::empty()
    }
}

/// The words after the first, with a single space between each two.
pub open spec fn rest_words(s: Seq<char>) -> Seq<char> {
    let ws = words(s);
    if ws.len() > 1 {
        join_spaced(ws.subrange(1, ws.len() as int))
    } else {
        Seq::empty()
    }
}

/// A request line split into a command name and its argument.
#[derive(Debug)]
pub struct ParsedCommand {
    pub name: String,
    pub argument: String,
}

/// Splits a request line: the name is its first word, the argument the
/// remaining words joined by single spaces; a blank line gives two empty
/// strings.
pub fn tokenize(raw: &str) -> (r: ParsedCommand)
    ensures
        r.name@ == first_word(raw@),
        r.argument@ == rest_words(raw@),
{
    let ws = split_words(raw);
    proof {
        assert(texts(ws@).len() == ws@.len());
    }
    if ws.len() == 0 {
        return ParsedCommand { name: String::new(), argument: String::new() };
    }
    let name = ws[0].clone();
    let argument = join_from(&ws, 1);
    proof {
        assert(texts(ws@)[0] == ws@[0]@);
        if ws@.len() == 1 {
            assert(texts(ws@).subrange(1, 1) =~= Seq::<Seq<char>>::empty());
        }
    }
    ParsedCommand { name, argument }
}

/// Where a request line goes.
#[derive(Debug)]
pub enum Route {
    /// No command has the line's first word as its name.
    Fallback,
    /// The command to run, with the argument to hand it.
    Invoke(CommandKind, String),
}

/// `r` is where the table sends the line `raw`.
pub open spec fn routes_to(table: Map<Seq<char>, CommandKind>, raw: Seq<char>, r: Route) -> bool {
    match r {
        Route::Fallback => !table.contains_key(first_word(raw)),
        Route::Invoke(k, a) => table.contains_key(first_word(raw)) && table[first_word(raw)] == k
            && a@ == rest_words(raw),
    }
}

/// The answer to a line that names no command.
pub open spec fn fallback_text() -> Seq<char> {
    "Sorry, I didn't get you."@
}

/// The answer to a line that names no command.
pub fn fallback_reply() -> (r: String)
    ensures
        r@ == fallback_text(),
{
    String::from_str("Sorry, I didn't get you.")
}

impl Registry {
    /// Finds the command that a request line names, by exact match of its
    /// first word, and the argument to hand it.
    pub fn route(&self, raw: &str) -> (r: Route)
        requires
            self.wf(),
        ensures
            routes_to(self@, raw@, r),
    {
        let parsed = tokenize(raw);
        match self.lookup(parsed.name.as_str()) {
            Some(k) => Route::Invoke(k, parsed.argument),
            None => Route::Fallback,
        }
    }
}

/// A line whose first word names no command goes to the fallback answer,
/// whatever its argument.
pub proof fn unknown_name_falls_back(table: Map<Seq<char>, CommandKind>, raw: Seq<char>, r: Route)
    requires
        !table.contains_key(first_word(raw)),
        routes_to(table, raw, r),
    ensures
        r is Fallback,
{
}

/// A line that is just the name of a registered command reaches a command of
/// that name, with an empty argument.
pub proof fn registered_name_routes(table: Map<Seq<char>, CommandKind>, k: CommandKind, r: Route)
    requires
        table.contains_key(spec_name(k)),
        forall|n: Seq<char>| #[trigger] table.contains_key(n) ==> spec_name(table[n]) == n,
        routes_to(table, spec_name(k), r),
    ensures
        r matches Route::Invoke(found, arg) && spec_name(found) == spec_name(k) && arg@.len() == 0,
{
    names_are_single_words(k);
    lemma_one_word(spec_name(k));
}

} // verus!
