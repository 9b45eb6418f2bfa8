//! The host functions that scripts call like their own: `print`, `read` and
//! `sleep`. They act on a console that queues the lines to be read and records
//! what is to be written and waited for.

use vstd::prelude::*;
use vstd::string::*;
use crate::error::RuntimeError;
use crate::text::{chars_of, equals_ignoring_case, matches_ignoring_case, parse_decimal, parse_int};
use crate::value::{display, Value, ValueView};

verus! {

/// A host function.
#[derive(PartialEq, Eq, Debug, Clone, Copy, Structural)]
pub enum Builtin {
    Read,
    Print,
    Sleep,
}

/// Something for the host to do, in the order in which scripts asked for it.
#[derive(PartialEq, Eq, Debug)]
pub enum Effect {
    /// Show this prose block on the display.
    Render(String),
    /// Write this line to the output.
    Print(String),
    /// Wait this many seconds.
    Sleep(u64),
}

/// What an [`Effect`] is, mathematically.
pub enum EffectView {
    Render(Seq<char>),
    Print(Seq<char>),
    Sleep(u64),
}

impl View for Effect {
    type V = EffectView;

    open spec fn view(&self) -> EffectView {
        match self {
            Effect::Render(s) => EffectView::Render(s@),
            Effect::Print(s) => EffectView::Print(s@),
            Effect::Sleep(n) => EffectView::Sleep(*n),
        }
    }
}

/// The host function that `name` names, if any.
pub open spec fn builtin_named(name: Seq<char>) -> Option<Builtin> {
    if name == "read"@ {
        Some(Builtin::Read)
    } else if name == "print"@ {
        Some(Builtin::Print)
    } else if name == "sleep"@ {
        Some(Builtin::Sleep)
    } else {
        None
    }
}

/// The display forms of `args`, joined by single spaces.
pub open spec fn join_display(args: Seq<ValueView>) -> Seq<char>
    decreases args.len(),
{
    if args.len() == 0 {
        Seq::empty()
    } else if args.len() == 1 {
        display(args[0])
    } else {
        join_display(args.drop_last()) + seq![' '] + display(args.last())
    }
}

/// The value that a line of input stands for: a boolean where it reads `true`
/// or `false` in any case, else an integer where it is one in base 10, else
/// the line itself.
pub open spec fn interpret_line(line: Seq<char>) -> ValueView {
    if matches_ignoring_case(line, "true"@) {
        ValueView::Bool(true)
    } else if matches_ignoring_case(line, "false"@) {
        ValueView::Bool(false)
    } else {
        match parse_decimal(line) {
            Some(i) => ValueView::Int(i),
            None => ValueView::Str(line),
        }
    }
}

/// The seconds that `sleep` is asked to wait: its one argument, a
/// non-negative integer.
pub open spec fn sleep_seconds(args: Seq<ValueView>) -> Result<u64, RuntimeError> {
    if args.len() != 1 {
        Err(RuntimeError::InvalidArgument)
    } else {
        match args[0] {
            ValueView::Int(i) => if i < 0 {
                Err(RuntimeError::InvalidArgument)
            } else {
                Ok(i as u64)
            },
            _ => Err(RuntimeError::Type),
        }
    }
}

/// The host functions by name.
pub fn builtins() -> (r: Vec<(String, Builtin)>)
    ensures
        r@.len() == 3,
        forall|i: int| 0 <= i < 3 ==> builtin_named((#[trigger] r@[i]).0@) == Some(r@[i].1),
        r@[0].1 == Builtin::Read,
        r@[1].1 == Builtin::Print,
        r@[2].1 == Builtin::Sleep,
{
    proof {
        lemma_names_differ();
    }
    let mut h: Vec<(String, Builtin)> = Vec::new();
    h.push((String::from_str("read"), Builtin::Read));
    h.push((String::from_str("print"), Builtin::Print));
    h.push((String::from_str("sleep"), Builtin::Sleep));
    h
}

proof fn lemma_names_differ()
    ensures
        "read"@ != "print"@,
        "read"@ != "sleep"@,
        "print"@ != "sleep"@,
{
    reveal_strlit("read");
    reveal_strlit("print");
    reveal_strlit("sleep");
    assert("print"@[0] == 'p');
    assert("sleep"@[0] == 's');
    assert("read"@[0] == 'r');
}

/// Finds the host function that `name` names.
pub fn find_builtin(name: &String) -> (r: Option<Builtin>)
    ensures
        r == builtin_named(name@),
{
    if *name == String::from_str("read") {
        Some(Builtin::Read)
    } else if *name == String::from_str("print") {
        Some(Builtin::Print)
    } else if *name == String::from_str("sleep") {
        Some(Builtin::Sleep)
    } else {
        None
    }
}

/// The views of a sequence of values.
pub open spec fn values_view(values: Seq<Value>) -> Seq<ValueView> {
    Seq::new(values.len(), |i: int| values[i]@)
}

/// The line that `print` writes for `args`.
pub fn print(args: &Vec<Value>) -> (line: String)
    ensures
        line@ == join_display(values_view(args@)),
{
    let mut line = String::new();
    let mut i: usize = 0;
    while i < args.len()
        invariant
            i <= args.len(),
            line@ == join_display(values_view(args@).take(i as int)),
        decreases args.len() - i,
    {
        let ghost prefix = values_view(args@).take(i as int);
        let ghost next = values_view(args@).take(i + 1);
        assert(next.drop_last() =~= prefix);
        assert(next.last() == args@[i as int]@);
        if i > 0 {
            line.append(" ");
        }
        let text = args[i].to_text();
        line.append(text.as_str());
        proof {
            reveal_strlit(" ");
            if i == 0 {
                assert(prefix.len() == 0);
                assert(line@ =~= display(next[0]));
            } else {
                assert(line@ =~= join_display(prefix) + seq![' '] + display(next.last()));
            }
        }
        i += 1;
    }
    assert(values_view(args@).take(args@.len() as int) =~= values_view(args@));
    line
}

/// The value that `read` makes of a line of input.
pub fn read(line: String) -> (v: Value)
    ensures
        v@ == interpret_line(line@),
{
    let chars = chars_of(line.as_str());
    if equals_ignoring_case(&chars, "true") {
        Value::Bool(true)
    } else if equals_ignoring_case(&chars, "false") {
        Value::Bool(false)
    } else {
        match parse_int(&chars) {
            Some(i) => Value::Int(i),
            None => Value::Str(line),
        }
    }
}

/// The seconds that `sleep` is to wait for `args`, or why it refuses them.
pub fn sleep(args: &Vec<Value>) -> (r: Result<u64, RuntimeError>)
    ensures
        r == sleep_seconds(values_view(args@)),
{
    if args.len() != 1 {
        return Err(RuntimeError::InvalidArgument);
    }
    match &args[0] {
        Value::Int(i) => if *i < 0 {
            Err(RuntimeError::InvalidArgument)
        } else {
            Ok(*i as u64)
        },
        _ => Err(RuntimeError::Type),
    }
}

} // verus!
