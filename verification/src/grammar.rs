//! The grammar of the language, as functions from a text and a position to
//! what stands there and where it ends.
//!
//! A program is a list of statements; `;` and white space separate them.
//! Expressions bind, from loosest to tightest: `or`, `and`, `==`, `+ -`,
//! `* / %`, then the prefixes `not` and `-`.

use vstd::prelude::*;
use crate::ast::{ExpressionView, Operator, Pattern, StatementView, UnaryOperator};
use crate::text::{is_digit, parse_decimal};

verus! {

/// Why a text is no program: the place where no statement could be read.
#[derive(PartialEq, Eq, Debug, Clone, Copy, Structural)]
pub struct ParseError {
    pub position: usize,
}

/// How deep expressions and blocks may nest.
pub const NESTING_LIMIT: usize = 128;

/// Whether `c` is white space.
pub open spec fn is_space(c: char) -> bool {
    c == ' ' || c == '\t' || c == '\n' || c == '\r'
}

/// Whether a word may start with `c`: a letter or `_`.
pub open spec fn is_word_start(c: char) -> bool {
    ('a' <= c && c <= 'z') || ('A' <= c && c <= 'Z') || c == '_'
}

/// Whether a word may go on with `c`: a letter, `_` or a digit.
pub open spec fn is_word_char(c: char) -> bool {
    is_word_start(c) || is_digit(c)
}

/// Whether the character at `pos` is `c`.
pub open spec fn at(s: Seq<char>, pos: int, c: char) -> bool {
    0 <= pos < s.len() && s[pos] == c
}

/// Whether a decimal digit stands at `pos`.
pub open spec fn digit_at(s: Seq<char>, pos: int) -> bool {
    0 <= pos < s.len() && is_digit(s[pos])
}

/// The first place from `pos` on that holds no white space, nor `;` where
/// `separators` is set.
pub open spec fn skip(s: Seq<char>, pos: int, separators: bool) -> int
    decreases s.len() - pos,
{
    if 0 <= pos < s.len() && (is_space(s[pos]) || (separators && s[pos] == ';')) {
        skip(s, pos + 1, separators)
    } else {
        pos
    }
}

/// Where the run of word characters from `pos` ends.
pub open spec fn word_end(s: Seq<char>, pos: int) -> int
    decreases s.len() - pos,
{
    if 0 <= pos < s.len() && is_word_char(s[pos]) {
        word_end(s, pos + 1)
    } else {
        pos
    }
}

/// Where the run of digits from `pos` ends.
pub open spec fn digits_end(s: Seq<char>, pos: int) -> int
    decreases s.len() - pos,
{
    if 0 <= pos < s.len() && is_digit(s[pos]) {
        digits_end(s, pos + 1)
    } else {
        pos
    }
}

/// The word that starts at `pos`: empty where none does.
pub open spec fn word_at(s: Seq<char>, pos: int) -> Seq<char> {
    if 0 <= pos < s.len() && is_word_start(s[pos]) && pos <= word_end(s, pos) <= s.len() {
        s.subrange(pos, word_end(s, pos))
    } else {
        Seq::empty()
    }
}

/// Whether `w` is a word that the language keeps for itself.
pub open spec fn is_keyword(w: Seq<char>) -> bool {
    w == "if"@ || w == "else"@ || w == "goto"@ || w == "declare"@ || w == "global"@ || w
        == "static"@ || w == "return"@ || w == "function"@ || w == "true"@ || w == "false"@ || w
        == "not"@ || w == "and"@ || w == "or"@
}

/// The name at `pos` and where it ends: a word that is no keyword.
pub open spec fn name_at(s: Seq<char>, pos: int) -> Option<(Seq<char>, int)> {
    let w = word_at(s, pos);
    if w.len() == 0 || is_keyword(w) {
        None
    } else {
        Some((w, word_end(s, pos)))
    }
}

/// The body of a string literal from `pos` on, behind `done`, and the place
/// after its closing quote. A doubled quote stands for one quote.
pub open spec fn string_body(s: Seq<char>, pos: int, quote: char, done: Seq<char>) -> Option<
    (Seq<char>, int),
>
    decreases s.len() - pos,
{
    if !(0 <= pos < s.len()) {
        None
    } else if s[pos] == quote {
        if at(s, pos + 1, quote) {
            string_body(s, pos + 2, quote, done.push(quote))
        } else {
            Some((done, pos + 1))
        }
    } else {
        string_body(s, pos + 1, quote, done.push(s[pos]))
    }
}

/// The binary operator of precedence `level` at `pos`, and where it ends.
pub open spec fn operator_at(s: Seq<char>, pos: int, level: int) -> Option<(Operator, int)> {
    if level == 0 {
        if word_at(s, pos) == "or"@ {
            Some((Operator::Or, word_end(s, pos)))
        } else {
            None
        }
    } else if level == 1 {
        if word_at(s, pos) == "and"@ {
            Some((Operator::And, word_end(s, pos)))
        } else {
            None
        }
    } else if level == 2 {
        if at(s, pos, '=') && at(s, pos + 1, '=') {
            Some((Operator::Equals, pos + 2))
        } else {
            None
        }
    } else if level == 3 {
        if at(s, pos, '+') {
            Some((Operator::Add, pos + 1))
        } else if at(s, pos, '-') {
            Some((Operator::Subtract, pos + 1))
        } else {
            None
        }
    } else {
        if at(s, pos, '*') {
            Some((Operator::Multiply, pos + 1))
        } else if at(s, pos, '/') {
            Some((Operator::Divide, pos + 1))
        } else if at(s, pos, '%') {
            Some((Operator::Remainder, pos + 1))
        } else {
            None
        }
    }
}

/// The rank of the binary expressions of precedence `level` in the order
/// in which the grammar's functions call each other.
pub open spec fn rank(level: int) -> nat {
    if 0 <= level < 5 {
        (2 * (5 - level) + 3) as nat
    } else {
        3
    }
}

/// The expression at `pos` whose operators have precedence `level` or
/// tighter, and where it ends. `depth` is how deep it may still nest.
pub open spec fn binary(s: Seq<char>, pos: int, level: int, depth: nat) -> Option<
    (ExpressionView, int),
>
    decreases depth, rank(level), 0nat,
{
    if !(0 <= level < 5) {
        unary(s, pos, depth)
    } else {
        match binary(s, pos, level + 1, depth) {
            Some((left, p)) => binary_rest(s, p, level, left, depth),
            None => None,
        }
    }
}

/// The expression that `left` and the operators of precedence `level` from
/// `pos` on make, grouped to the left.
pub open spec fn binary_rest(
    s: Seq<char>,
    pos: int,
    level: int,
    left: ExpressionView,
    depth: nat,
) -> Option<(ExpressionView, int)>
    decreases depth, (rank(level) - 1) as nat, s.len() - pos,
{
    if !(0 <= level < 5) {
        None
    } else {
        match operator_at(s, skip(s, pos, false), level) {
            None => Some((left, pos)),
            Some((operator, p)) => match binary(s, p, level + 1, depth) {
                Some((right, q)) => if pos < q <= s.len() {
                    binary_rest(
                        s,
                        q,
                        level,
                        ExpressionView::OperatorExpression {
                            operator,
                            left: Box::new(left),
                            right: Box::new(right),
                        },
                        depth,
                    )
                } else {
                    None
                },
                None => None,
            },
        }
    }
}

/// The expression at `pos` with its prefix operators.
pub open spec fn unary(s: Seq<char>, pos: int, depth: nat) -> Option<(ExpressionView, int)>
    decreases depth, 2nat, 0nat,
{
    let p = skip(s, pos, false);
    if word_at(s, p) == "not"@ {
        if depth == 0 {
            None
        } else {
            match unary(s, word_end(s, p), (depth - 1) as nat) {
                Some((e, q)) => Some(
                    (
                        ExpressionView::UnaryExpression {
                            operator: UnaryOperator::Not,
                            expression: Box::new(e),
                        },
                        q,
                    ),
                ),
                None => None,
            }
        }
    } else if at(s, p, '-') && !digit_at(s, p + 1) {
        if depth == 0 {
            None
        } else {
            match unary(s, p + 1, (depth - 1) as nat) {
                Some((e, q)) => Some(
                    (
                        ExpressionView::UnaryExpression {
                            operator: UnaryOperator::Negative,
                            expression: Box::new(e),
                        },
                        q,
                    ),
                ),
                None => None,
            }
        }
    } else {
        primary(s, p, depth)
    }
}

/// The literal, name, call or bracketed expression that starts at `pos`.
pub open spec fn primary(s: Seq<char>, pos: int, depth: nat) -> Option<(ExpressionView, int)>
    decreases depth, 1nat, 0nat,
{
    if !(0 <= pos < s.len()) {
        None
    } else if s[pos] == '(' {
        if depth == 0 {
            None
        } else {
            match binary(s, pos + 1, 0, (depth - 1) as nat) {
                Some((e, q)) => if at(s, skip(s, q, false), ')') {
                    Some((e, skip(s, q, false) + 1))
                } else {
                    None
                },
                None => None,
            }
        }
    } else if s[pos] == '"' || s[pos] == '\'' {
        match string_body(s, pos + 1, s[pos], Seq::empty()) {
            Some((body, q)) => Some((ExpressionView::Str(body), q)),
            None => None,
        }
    } else if is_digit(s[pos]) || s[pos] == '-' {
        let e = digits_end(s, pos + 1);
        if pos < e <= s.len() {
            match parse_decimal(s.subrange(pos, e)) {
                Some(i) => Some((ExpressionView::Int(i), e)),
                None => None,
            }
        } else {
            None
        }
    } else {
        let w = word_at(s, pos);
        let e = word_end(s, pos);
        if w.len() == 0 {
            None
        } else if w == "true"@ {
            Some((ExpressionView::Boolean(true), e))
        } else if w == "false"@ {
            Some((ExpressionView::Boolean(false), e))
        } else if is_keyword(w) {
            None
        } else if at(s, e, '(') {
            if depth == 0 {
                None
            } else {
                match arguments(s, e + 1, Seq::empty(), (depth - 1) as nat) {
                    Some((list, q)) => Some(
                        (ExpressionView::FunctionCall { name: w, arguments: list }, q),
                    ),
                    None => None,
                }
            }
        } else {
            Some((ExpressionView::Ident(w), e))
        }
    }
}

/// The arguments of a call from `pos` on, behind `done`, up to and with the
/// closing bracket.
pub open spec fn arguments(s: Seq<char>, pos: int, done: Seq<ExpressionView>, depth: nat) -> Option<
    (Seq<ExpressionView>, int),
>
    decreases depth, 20nat, s.len() - pos,
{
    let p = skip(s, pos, false);
    if at(s, p, ')') && done.len() == 0 {
        Some((done, p + 1))
    } else {
        match binary(s, p, 0, depth) {
            Some((e, q)) => {
                let r = skip(s, q, false);
                if at(s, r, ')') {
                    Some((done.push(e), r + 1))
                } else if at(s, r, ',') && pos < r + 1 {
                    arguments(s, r + 1, done.push(e), depth)
                } else {
                    None
                }
            },
            None => None,
        }
    }
}

/// The parameters of a function definition from `pos` on, behind `done`,
/// up to and with the closing bracket.
pub open spec fn parameters(s: Seq<char>, pos: int, done: Seq<Seq<char>>) -> Option<
    (Seq<Seq<char>>, int),
>
    decreases s.len() - pos,
{
    let p = skip(s, pos, false);
    if at(s, p, ')') && done.len() == 0 {
        Some((done, p + 1))
    } else {
        match name_at(s, p) {
            Some((n, q)) => {
                let r = skip(s, q, false);
                if at(s, r, ')') {
                    Some((done.push(n), r + 1))
                } else if at(s, r, ',') && pos < r + 1 {
                    parameters(s, r + 1, done.push(n))
                } else {
                    None
                }
            },
            None => None,
        }
    }
}

/// Whether a single `=`, the sign of an assignment, stands at `pos`.
pub open spec fn assigns_at(s: Seq<char>, pos: int) -> bool {
    at(s, pos, '=') && !at(s, pos + 1, '=')
}

/// The statement that starts at `pos`, and where it ends.
pub open spec fn statement(s: Seq<char>, pos: int, depth: nat) -> Option<(StatementView, int)>
    decreases depth, 30nat, 0nat,
{
    let w = word_at(s, pos);
    let e = word_end(s, pos);
    if w == "goto"@ {
        match binary(s, e, 0, depth) {
            Some((label, q)) => Some((StatementView::Goto(label), q)),
            None => None,
        }
    } else if w == "return"@ {
        match binary(s, e, 0, depth) {
            Some((value, q)) => Some((StatementView::Return(value), q)),
            None => None,
        }
    } else if w == "declare"@ {
        let p = skip(s, e, false);
        let scope = word_at(s, p);
        let pattern = if scope == "global"@ {
            Pattern::Global
        } else if scope == "static"@ {
            Pattern::Static
        } else {
            Pattern::Var
        };
        let start = if pattern == Pattern::Var {
            p
        } else {
            skip(s, word_end(s, p), false)
        };
        match name_at(s, start) {
            Some((name, q)) => if assigns_at(s, skip(s, q, false)) {
                match binary(s, skip(s, q, false) + 1, 0, depth) {
                    Some((expression, r)) => Some(
                        (StatementView::Declare { pattern, name, expression }, r),
                    ),
                    None => None,
                }
            } else {
                None
            },
            None => None,
        }
    } else if w == "if"@ {
        match binary(s, e, 0, depth) {
            Some((conditional, q)) => match block(s, q, depth) {
                Some((statements, r)) => if word_at(s, skip(s, r, false)) == "else"@ {
                    match block(s, word_end(s, skip(s, r, false)), depth) {
                        Some((otherwise, t)) => Some(
                            (
                                StatementView::If {
                                    conditional,
                                    statements,
                                    else_statements: Some(otherwise),
                                },
                                t,
                            ),
                        ),
                        None => None,
                    }
                } else {
                    Some(
                        (StatementView::If { conditional, statements, else_statements: None }, r),
                    )
                },
                None => None,
            },
            None => None,
        }
    } else if w == "function"@ {
        match name_at(s, skip(s, e, false)) {
            Some((name, q)) => if at(s, q, '(') {
                match parameters(s, q + 1, Seq::empty()) {
                    Some((list, r)) => match block(s, r, depth) {
                        Some((statements, t)) => Some(
                            (StatementView::Function { name, parameters: list, statements }, t),
                        ),
                        None => None,
                    },
                    None => None,
                }
            } else {
                None
            },
            None => None,
        }
    } else if w.len() > 0 && !is_keyword(w) && assigns_at(s, skip(s, e, false)) {
        match binary(s, skip(s, e, false) + 1, 0, depth) {
            Some((expression, q)) => Some((StatementView::Assignment { name: w, expression }, q)),
            None => None,
        }
    } else {
        match binary(s, pos, 0, depth) {
            Some((expression, q)) => Some((StatementView::Expression(expression), q)),
            None => None,
        }
    }
}

/// The block in braces that starts at or after `pos`, and where it ends.
pub open spec fn block(s: Seq<char>, pos: int, depth: nat) -> Option<(Seq<StatementView>, int)>
    decreases depth, 25nat, 0nat,
{
    let p = skip(s, pos, false);
    if at(s, p, '{') && depth > 0 {
        let inner = statements(s, p + 1, Seq::empty(), (depth - 1) as nat);
        let q = skip(s, inner.1, true);
        if at(s, q, '}') {
            Some((inner.0, q + 1))
        } else {
            None
        }
    } else {
        None
    }
}

/// The statements from `pos` on, behind `done`, as far as they can be read,
/// and where reading stopped.
pub open spec fn statements(s: Seq<char>, pos: int, done: Seq<StatementView>, depth: nat) -> (
    Seq<StatementView>,
    int,
)
    decreases depth, 40nat, s.len() - pos,
{
    match statement(s, skip(s, pos, true), depth) {
        Some((one, q)) => if pos < q <= s.len() {
            statements(s, q, done.push(one), depth)
        } else {
            (done, pos)
        },
        None => (done, pos),
    }
}

/// The program that a text is: all of it read as statements; else the place
/// where reading stopped.
pub open spec fn program(s: Seq<char>) -> Result<Seq<StatementView>, ParseError> {
    let read = statements(s, 0, Seq::empty(), NESTING_LIMIT as nat);
    let stop = skip(s, read.1, true);
    if stop >= s.len() {
        Ok(read.0)
    } else {
        Err(ParseError { position: stop as usize })
    }
}

} // verus!
