//! Laws of the language: what holds of every state and every program.

use vstd::prelude::*;
use crate::ast::{ExpressionView, Operator, Pattern, StatementView};
use crate::document::{named_at, position, SectionView};
use crate::error::RuntimeError;
use crate::grammar::{
    binary, binary_rest, digits_end, operator_at, primary, program, skip, statement,
    statements, unary, word_at, ParseError, NESTING_LIMIT,
};
use crate::navigator::{next_section, RunError};
use crate::semantics::{
    eval_arguments, eval_expression, eval_statement, statics_of, ExpressionResultView, Machine, Outcome,
    StatementResultView,
};
use crate::text::{
    all_digits, decimal, decimal_nat, digit_char, digits_value, is_digit,
    numeral_digits, parse_decimal,
};
use crate::value::{add_values, display, ValueView};

verus! {

/// An integer literal evaluates to its integer, in every state, and leaves
/// the state as it was.
pub proof fn lemma_integer_literal_evaluates_to_itself(
    n: i64,
    m: Machine,
    current: Option<int>,
    depth: nat,
)
    ensures
        eval_expression(ExpressionView::Int(n), m, current, depth) == (Outcome {
            machine: m,
            result: Ok(ExpressionResultView::Value(ValueView::Int(n))),
        }),
{
}

/// The decimal rendering of a natural number is a run of digits, not empty,
/// that stands for the number.
pub proof fn lemma_decimal_nat_reads_back(n: nat)
    ensures
        decimal_nat(n).len() > 0,
        all_digits(decimal_nat(n)),
        digits_value(decimal_nat(n)) == n,
    decreases n,
{
    let s = decimal_nat(n);
    if n < 10 {
        assert(s.drop_last() =~= Seq::<char>::empty());
        assert(digits_value(s.drop_last()) == 0);
        assert(s.last() == digit_char(n as int));
    } else {
        lemma_decimal_nat_reads_back(n / 10);
        assert(s.drop_last() =~= decimal_nat(n / 10));
        assert(s.last() == digit_char((n % 10) as int));
        assert forall|i: int| 0 <= i < s.len() implies is_digit(#[trigger] s[i]) by {
            if i < s.len() - 1 {
                assert(s[i] == decimal_nat(n / 10)[i]);
            }
        }
    }
}

/// Reading the decimal rendering of a 64-bit integer gives the integer back.
pub proof fn lemma_decimal_round_trip(n: i64)
    ensures
        parse_decimal(decimal(n as int)) == Some(n),
{
    let s = decimal(n as int);
    if n < 0 {
        let tail = decimal_nat((-n) as nat);
        lemma_decimal_nat_reads_back((-n) as nat);
        assert(s[0] == '-');
        assert(numeral_digits(s) =~= tail);
    } else {
        lemma_decimal_nat_reads_back(n as nat);
        assert(is_digit(s[0]));
        assert(numeral_digits(s) == s);
    }
}

proof fn lemma_digits_run_to_the_end(s: Seq<char>, k: int)
    requires
        0 <= k <= s.len(),
        forall|i: int| k <= i < s.len() ==> is_digit(#[trigger] s[i]),
    ensures
        digits_end(s, k) == s.len(),
    decreases s.len() - k,
{
    if k < s.len() {
        assert(is_digit(s[k]));
        lemma_digits_run_to_the_end(s, k + 1);
    }
}

proof fn lemma_nothing_at_the_end(s: Seq<char>, level: int, depth: nat)
    requires
        0 <= level <= 5,
    ensures
        binary(s, s.len() as int, level, depth) is None,
    decreases 5 - level,
{
    let end = s.len() as int;
    reveal_strlit("not");
    assert(skip(s, end, false) == end);
    assert(word_at(s, end) =~= Seq::<char>::empty());
    assert(primary(s, end, depth) is None);
    assert(unary(s, end, depth) is None);
    if level < 5 {
        lemma_nothing_at_the_end(s, level + 1, depth);
    }
}

proof fn lemma_no_operator_at_the_end(s: Seq<char>, level: int, left: ExpressionView, depth: nat)
    requires
        0 <= level < 5,
    ensures
        binary_rest(s, s.len() as int, level, left, depth) == Some((left, s.len() as int)),
{
    let end = s.len() as int;
    reveal_strlit("or");
    reveal_strlit("and");
    assert(skip(s, end, false) == end);
    assert(word_at(s, end) =~= Seq::<char>::empty());
    assert(operator_at(s, end, level) is None);
}

proof fn lemma_literal_at_level(s: Seq<char>, n: i64, level: int, depth: nat)
    requires
        0 <= level <= 5,
        unary(s, 0, depth) == Some((ExpressionView::Int(n), s.len() as int)),
    ensures
        binary(s, 0, level, depth) == Some((ExpressionView::Int(n), s.len() as int)),
    decreases 5 - level,
{
    if level < 5 {
        lemma_literal_at_level(s, n, level + 1, depth);
        lemma_no_operator_at_the_end(s, level, ExpressionView::Int(n), depth);
    }
}

/// The decimal rendering of a 64-bit integer is a program of one statement:
/// the expression that is this integer's literal.
pub proof fn lemma_integer_literal_parses(n: i64)
    ensures
        program(decimal(n as int)) == Ok::<Seq<StatementView>, ParseError>(
            seq![StatementView::Expression(ExpressionView::Int(n))],
        ),
{
    let s = decimal(n as int);
    let end = s.len() as int;
    let depth = NESTING_LIMIT as nat;
    lemma_decimal_round_trip(n);
    if n < 0 {
        let tail = decimal_nat((-n) as nat);
        lemma_decimal_nat_reads_back((-n) as nat);
        assert(s[0] == '-');
        assert forall|i: int| 1 <= i < s.len() implies is_digit(#[trigger] s[i]) by {
            assert(s[i] == tail[i - 1]);
        }
    } else {
        lemma_decimal_nat_reads_back(n as nat);
        assert(is_digit(s[0]));
    }
    assert(is_digit(s[0]) || s[0] == '-');
    lemma_digits_run_to_the_end(s, 1);
    assert(s.subrange(0, end) =~= s);
    assert(primary(s, 0, depth) == Some((ExpressionView::Int(n), end)));
    reveal_strlit("not");
    reveal_strlit("goto");
    reveal_strlit("return");
    reveal_strlit("declare");
    reveal_strlit("if");
    reveal_strlit("function");
    assert(skip(s, 0, false) == 0);
    assert(skip(s, 0, true) == 0);
    assert(word_at(s, 0) =~= Seq::<char>::empty());
    if n < 0 {
        assert(is_digit(s[1]));
    }
    assert(unary(s, 0, depth) == Some((ExpressionView::Int(n), end)));
    lemma_literal_at_level(s, n, 0, depth);
    let one = StatementView::Expression(ExpressionView::Int(n));
    assert(statement(s, 0, depth) == Some((one, end)));
    lemma_nothing_at_the_end(s, 0, depth);
    assert(skip(s, end, true) == end);
    assert(word_at(s, end) =~= Seq::<char>::empty());
    assert(statement(s, end, depth) is None);
    assert(Seq::<StatementView>::empty().push(one) =~= seq![one]);
    assert(statements(s, end, seq![one], depth) == (seq![one], end));
    assert(statements(s, 0, Seq::empty(), depth) == (seq![one], end));
}

/// Declaring a static variable that the function being executed holds
/// changes nothing: the variable keeps what an earlier call left in it.
pub proof fn lemma_static_declare_is_idempotent(
    name: Seq<char>,
    expression: ExpressionView,
    m: Machine,
    current: Option<int>,
    depth: nat,
)
    requires
        statics_of(m.context, current).contains_key(name),
    ensures
        eval_statement(
            StatementView::Declare { pattern: Pattern::Static, name, expression },
            m,
            current,
            depth,
        ) == (Outcome { machine: m, result: Ok(StatementResultView::Continue) }),
{
}

/// Declaring a global that is declared changes nothing: not the state, and
/// the initializer is not evaluated.
pub proof fn lemma_global_declare_is_idempotent(
    name: Seq<char>,
    expression: ExpressionView,
    m: Machine,
    current: Option<int>,
    depth: nat,
)
    requires
        m.context.global_variables.contains_key(name),
    ensures
        eval_statement(
            StatementView::Declare { pattern: Pattern::Global, name, expression },
            m,
            current,
            depth,
        ) == (Outcome { machine: m, result: Ok(StatementResultView::Continue) }),
{
}

/// A global declaration after which the run goes on has declared its name.
pub proof fn lemma_global_declare_declares(
    name: Seq<char>,
    expression: ExpressionView,
    m: Machine,
    current: Option<int>,
    depth: nat,
)
    ensures
        ({
            let o = eval_statement(
                StatementView::Declare { pattern: Pattern::Global, name, expression },
                m,
                current,
                depth,
            );
            o.result == Ok::<StatementResultView, RuntimeError>(StatementResultView::Continue)
                ==> o.machine.context.global_variables.contains_key(name)
        }),
{
}

/// Declaring a local that the frame holds fails, and changes nothing.
pub proof fn lemma_local_redeclare_fails(
    name: Seq<char>,
    expression: ExpressionView,
    m: Machine,
    current: Option<int>,
    depth: nat,
)
    requires
        m.locals.contains_key(name),
    ensures
        eval_statement(
            StatementView::Declare { pattern: Pattern::Var, name, expression },
            m,
            current,
            depth,
        ) == (Outcome::<StatementResultView> {
            machine: m,
            result: Err(RuntimeError::Redeclaration),
        }),
{
}

/// A local declaration after which the run goes on has put its name into
/// the frame: the same declaration right behind it fails.
pub proof fn lemma_local_declare_twice_fails(
    name: Seq<char>,
    first: ExpressionView,
    second: ExpressionView,
    m: Machine,
    current: Option<int>,
    depth: nat,
)
    ensures
        ({
            let o = eval_statement(
                StatementView::Declare { pattern: Pattern::Var, name, expression: first },
                m,
                current,
                depth,
            );
            o.result == Ok::<StatementResultView, RuntimeError>(StatementResultView::Continue)
                ==> eval_statement(
                StatementView::Declare { pattern: Pattern::Var, name, expression: second },
                o.machine,
                current,
                depth,
            ).result == Err::<StatementResultView, RuntimeError>(RuntimeError::Redeclaration)
        }),
{
}

/// Addition goes by its left operand: a string takes anything, an integer
/// takes integers only, a boolean takes nothing.
pub proof fn lemma_add_is_left_driven(s: Seq<char>, i: i64, b: bool, right: ValueView)
    ensures
        add_values(ValueView::Str(s), right) == Ok::<ValueView, RuntimeError>(
            ValueView::Str(s + display(right)),
        ),
        !(right is Int) ==> add_values(ValueView::Int(i), right) == Err::<ValueView, RuntimeError>(
            RuntimeError::Type,
        ),
        add_values(ValueView::Bool(b), right) == Err::<ValueView, RuntimeError>(RuntimeError::Type),
{
}

/// Equality is total: it never fails, and values of different variants are
/// unequal.
pub proof fn lemma_equality_is_total(left: ValueView, right: ValueView)
    ensures
        crate::value::binary(Operator::Equals, left, right) == Ok::<ValueView, RuntimeError>(
            ValueView::Bool(left == right),
        ),
        (left is Int && right is Bool) ==> crate::value::binary(Operator::Equals, left, right) == Ok::<
            ValueView,
            RuntimeError,
        >(ValueView::Bool(false)),
{
}

/// A jump lands on a section of the name it gives, wherever the run
/// stands, whenever the document has such a section; where it has none,
/// the jump is a navigation error.
pub proof fn lemma_jump_lands_on_the_named_section(
    sections: Seq<SectionView>,
    pc: int,
    label: Seq<char>,
)
    ensures
        match next_section(sections, pc, Some(label)) {
            Ok(target) => named_at(sections, label, target),
            Err(e) => e == RunError::Navigation && forall|i: int| !named_at(sections, label, i),
        },
        (exists|i: int| named_at(sections, label, i)) ==> next_section(
            sections,
            pc,
            Some(label),
        ) is Ok,
{
}

/// Where section names are distinct, a jump lands on the one section of
/// the name it gives.
pub proof fn lemma_jump_target_is_unique(
    sections: Seq<SectionView>,
    pc: int,
    label: Seq<char>,
    target: int,
)
    requires
        forall|i: int, j: int|
            0 <= i < j < sections.len() ==> (#[trigger] sections[i]).name != (
            #[trigger] sections[j]).name,
        named_at(sections, label, target),
    ensures
        next_section(sections, pc, Some(label)) == Ok::<int, RunError>(target),
{
    let found = position(sections, label).unwrap();
    assert(named_at(sections, label, found));
    if found < target {
        assert(sections[found].name != sections[target].name);
    } else if target < found {
        assert(sections[target].name != sections[found].name);
    }
}

/// Without a jump the run goes on to the next section.
pub proof fn lemma_no_jump_goes_to_the_next_section(sections: Seq<SectionView>, pc: int)
    ensures
        next_section(sections, pc, None) == Ok::<int, RunError>(pc + 1),
{
}

/// Evaluating an expression leaves the local frame as it was: what a call
/// declares in its own frame is gone when the call is over, so that each
/// call starts from its parameters alone.
pub proof fn lemma_expression_keeps_the_frame(
    e: ExpressionView,
    m: Machine,
    current: Option<int>,
    depth: nat,
)
    ensures
        eval_expression(e, m, current, depth).machine.locals == m.locals,
    decreases depth, 0nat, e, 0nat,
{
    match e {
        ExpressionView::OperatorExpression { operator, left, right } => {
            lemma_expression_keeps_the_frame(*left, m, current, depth);
            let l = eval_expression(*left, m, current, depth);
            lemma_expression_keeps_the_frame(*right, l.machine, current, depth);
        },
        ExpressionView::UnaryExpression { operator, expression } => {
            lemma_expression_keeps_the_frame(*expression, m, current, depth);
        },
        ExpressionView::FunctionCall { name, arguments } => {
            lemma_arguments_keep_the_frame(arguments, 0, Seq::empty(), m, current, depth);
        },
        _ => {},
    }
}

/// Evaluating the arguments of a call leaves the local frame as it was.
pub proof fn lemma_arguments_keep_the_frame(
    arguments: Seq<ExpressionView>,
    i: int,
    done: Seq<ValueView>,
    m: Machine,
    current: Option<int>,
    depth: nat,
)
    ensures
        eval_arguments(arguments, i, done, m, current, depth).machine.locals == m.locals,
    decreases depth, 0nat, arguments, arguments.len() - i,
{
    if 0 <= i < arguments.len() {
        lemma_expression_keeps_the_frame(arguments[i], m, current, depth);
        let o = eval_expression(arguments[i], m, current, depth);
        match o.result {
            Ok(ExpressionResultView::Value(v)) => {
                lemma_arguments_keep_the_frame(
                    arguments,
                    i + 1,
                    done.push(v),
                    o.machine,
                    current,
                    depth,
                );
            },
            _ => {},
        }
    }
}

} // verus!
