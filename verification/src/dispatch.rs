//! Classifying a token sequence into its dispatch target.
//!
//! The rules, in order: the reserved internal prefix consumes exactly one
//! token and routes what follows to the internal-command namespace; the
//! built-in names `cd` and `exit` shadow external programs of the same
//! name unconditionally; everything else is forwarded to the external
//! executor unchanged.

use vstd::prelude::*;

use crate::tokenizer::str_eq;

verus! {

/// The reserved token that routes a line to the internal-command
/// namespace.
pub fn internal_prefix() -> (r: &'static str)
    ensures
        r@ == "m"@,
{
    "m"
}

/// The closed set of built-in directives.
#[derive(Clone, Copy, PartialEq, Eq, Structural, Debug)]
pub enum BuiltinKind {
    Cd,
    Exit,
}

/// The dispatch target of one line of input.
pub enum Directive {
    /// No tokens at all: nothing to dispatch.
    Empty,
    /// The internal prefix with no command name after it: a no-op, not
    /// an out-of-bounds access.
    PrefixOnly,
    /// A built-in directive with its arguments.
    Builtin { which: BuiltinKind, args: Vec<String> },
    /// An internal-namespace command with its arguments.
    Internal { name: String, args: Vec<String> },
    /// An external program with its arguments, in order, unmodified.
    External { name: String, args: Vec<String> },
}

/// The mathematical value of a dispatch target.
pub enum DirectiveModel {
    Empty,
    PrefixOnly,
    Builtin { which: BuiltinKind, args: Seq<Seq<char>> },
    Internal { name: Seq<char>, args: Seq<Seq<char>> },
    External { name: Seq<char>, args: Seq<Seq<char>> },
}

impl Directive {
    /// The mathematical value of this directive.
    pub open spec fn model(self) -> DirectiveModel {
        match self {
            Directive::Empty => DirectiveModel::Empty,
            Directive::PrefixOnly => DirectiveModel::PrefixOnly,
            Directive::Builtin { which, args } => DirectiveModel::Builtin {
                which,
                args: args.deep_view(),
            },
            Directive::Internal { name, args } => DirectiveModel::Internal {
                name: name@,
                args: args.deep_view(),
            },
            Directive::External { name, args } => DirectiveModel::External {
                name: name@,
                args: args.deep_view(),
            },
        }
    }
}

/// Classification of a token sequence: the internal prefix first, then
/// the built-in set, then the external fallthrough.
pub open spec fn classify_spec(toks: Seq<Seq<char>>) -> DirectiveModel {
    if toks.len() == 0 {
        DirectiveModel::Empty
    } else if toks[0] == "m"@ {
        if toks.len() == 1 {
            DirectiveModel::PrefixOnly
        } else {
            DirectiveModel::Internal { name: toks[1], args: toks.skip(2) }
        }
    } else if toks[0] == "cd"@ {
        DirectiveModel::Builtin { which: BuiltinKind::Cd, args: toks.skip(1) }
    } else if toks[0] == "exit"@ {
        DirectiveModel::Builtin { which: BuiltinKind::Exit, args: toks.skip(1) }
    } else {
        DirectiveModel::External { name: toks[0], args: toks.skip(1) }
    }
}

/// Built-in names shadow external programs: a line whose first token is
/// a built-in name always dispatches to the built-in, never to an
/// external process, whatever the search path holds.
pub proof fn lemma_builtin_precedence(toks: Seq<Seq<char>>)
    requires
        toks.len() > 0,
        toks[0] == "cd"@ || toks[0] == "exit"@,
    ensures
        classify_spec(toks) matches DirectiveModel::Builtin { which, args } && args == toks.skip(1)
            && (toks[0] == "cd"@ ==> which == BuiltinKind::Cd) && (toks[0] == "exit"@ ==> which
            == BuiltinKind::Exit),
{
    reveal_strlit("m");
    reveal_strlit("cd");
    reveal_strlit("exit");
    assert("m"@.len() == 1);
    assert("cd"@.len() == 2);
    assert("exit"@.len() == 4);
    assert(toks[0] != "m"@);
}

fn tail_from(tokens: &Vec<String>, k: usize) -> (r: Vec<String>)
    requires
        k <= tokens@.len(),
    ensures
        r.deep_view() == tokens.deep_view().skip(k as int),
{
    let mut r: Vec<String> = Vec::new();
    let mut i: usize = k;
    while i < tokens.len()
        invariant
            k <= i <= tokens@.len(),
            r.deep_view() == tokens.deep_view().subrange(k as int, i as int),
        decreases tokens@.len() - i,
    {
        let ghost prev = r.deep_view();
        r.push(tokens[i].clone());
        proof {
            assert(r.deep_view() =~= prev.push(tokens@[i as int]@));
            assert(prev.push(tokens@[i as int]@) =~= tokens.deep_view().subrange(
                k as int,
                i + 1 as int,
            ));
        }
        i = i + 1;
    }
    proof {
        assert(tokens.deep_view().subrange(k as int, tokens@.len() as int) =~= tokens.deep_view()
            .skip(k as int));
    }
    r
}

/// Determine the dispatch target of a token sequence.
pub fn classify(tokens: &Vec<String>) -> (d: Directive)
    ensures
        d.model() == classify_spec(tokens.deep_view()),
{
    if tokens.len() == 0 {
        return Directive::Empty;
    }
    if str_eq(tokens[0].as_str(), "m") {
        if tokens.len() == 1 {
            Directive::PrefixOnly
        } else {
            Directive::Internal { name: tokens[1].clone(), args: tail_from(tokens, 2) }
        }
    } else if str_eq(tokens[0].as_str(), "cd") {
        Directive::Builtin { which: BuiltinKind::Cd, args: tail_from(tokens, 1) }
    } else if str_eq(tokens[0].as_str(), "exit") {
        Directive::Builtin { which: BuiltinKind::Exit, args: tail_from(tokens, 1) }
    } else {
        Directive::External { name: tokens[0].clone(), args: tail_from(tokens, 1) }
    }
}

} // verus!
