//! The parser: it reads a text as the grammar says.

use vstd::prelude::*;
use vstd::string::*;
use crate::ast::{
    expressions_view, names_view, statements_view, Expression, ExpressionView, Operator, Pattern,
    Statement, StatementView, UnaryOperator,
};
use crate::grammar::{
    arguments, assigns_at, at, binary, binary_rest, block, digits_end, is_keyword,
    is_space, is_word_char, is_word_start, name_at, operator_at, parameters, primary, program,
    rank, skip, statement, statements, string_body, unary, word_at, word_end, ParseError,
    NESTING_LIMIT,
};
use crate::text::{chars_of, is_digit, parse_decimal, parse_int};

verus! {

/// A text to be parsed, held with its characters.
#[derive(Debug)]
pub struct LanguageParser {
    text: String,
    chars: Vec<char>,
}

/// The view of an expression that was read, and of where it ends.
pub open spec fn expression_at(r: Option<(Expression, usize)>) -> Option<(ExpressionView, int)> {
    match r {
        Some((e, q)) => Some((e@, q as int)),
        None => None,
    }
}

/// The view of a statement that was read, and of where it ends.
pub open spec fn statement_at(r: Option<(Statement, usize)>) -> Option<(StatementView, int)> {
    match r {
        Some((e, q)) => Some((e@, q as int)),
        None => None,
    }
}

/// The view of the expressions that were read, and of where they end.
pub open spec fn expressions_at(r: Option<(Vec<Expression>, usize)>) -> Option<
    (Seq<ExpressionView>, int),
> {
    match r {
        Some((e, q)) => Some((expressions_view(e@), q as int)),
        None => None,
    }
}

/// The view of the statements that were read, and of where they end.
pub open spec fn statements_at(r: Option<(Vec<Statement>, usize)>) -> Option<
    (Seq<StatementView>, int),
> {
    match r {
        Some((e, q)) => Some((statements_view(e@), q as int)),
        None => None,
    }
}

/// The view of the names that were read, and of where they end.
pub open spec fn names_at(r: Option<(Vec<String>, usize)>) -> Option<(Seq<Seq<char>>, int)> {
    match r {
        Some((e, q)) => Some((names_view(e@), q as int)),
        None => None,
    }
}

/// The view of a name that was read, and of where it ends.
pub open spec fn name_view(r: Option<(String, usize)>) -> Option<(Seq<char>, int)> {
    match r {
        Some((e, q)) => Some((e@, q as int)),
        None => None,
    }
}

/// The view of an operator that was read, and of where it ends.
pub open spec fn operator_view(r: Option<(Operator, usize)>) -> Option<(Operator, int)> {
    match r {
        Some((e, q)) => Some((e, q as int)),
        None => None,
    }
}

/// The view of a program that was read, or of why none was.
pub open spec fn program_view(r: Result<Vec<Statement>, ParseError>) -> Result<
    Seq<StatementView>,
    ParseError,
> {
    match r {
        Ok(list) => Ok(statements_view(list@)),
        Err(e) => Err(e),
    }
}

fn space(c: char) -> (b: bool)
    ensures
        b == is_space(c),
{
    c == ' ' || c == '\t' || c == '\n' || c == '\r'
}

fn digit(c: char) -> (b: bool)
    ensures
        b == is_digit(c),
{
    '0' <= c && c <= '9'
}

fn word_start(c: char) -> (b: bool)
    ensures
        b == is_word_start(c),
{
    ('a' <= c && c <= 'z') || ('A' <= c && c <= 'Z') || c == '_'
}

impl LanguageParser {
    /// The text, as the grammar sees it.
    pub closed spec fn source(&self) -> Seq<char> {
        self.chars@
    }

    /// The characters held are those of the text.
    pub closed spec fn well_formed(&self) -> bool {
        self.chars@ == self.text@
    }

    /// A parser for `source`.
    pub fn new(source: &str) -> (r: LanguageParser)
        ensures
            r.well_formed(),
            r.source() == source@,
    {
        LanguageParser { text: String::from_str(source), chars: chars_of(source) }
    }

    fn is_at(&self, pos: usize, c: char) -> (b: bool)
        ensures
            b == at(self.chars@, pos as int, c),
            b ==> pos < usize::MAX,
    {
        pos < self.chars.len() && self.chars[pos] == c
    }

    fn skip(&self, pos: usize, separators: bool) -> (q: usize)
        requires
            pos <= self.chars@.len(),
        ensures
            q == skip(self.chars@, pos as int, separators),
            pos <= q <= self.chars@.len(),
    {
        let mut q = pos;
        while q < self.chars.len() && (space(self.chars[q]) || (separators && self.chars[q]
            == ';'))
            invariant
                pos <= q <= self.chars@.len(),
                skip(self.chars@, q as int, separators) == skip(
                    self.chars@,
                    pos as int,
                    separators,
                ),
            decreases self.chars@.len() - q,
        {
            q += 1;
        }
        q
    }

    fn word_end(&self, pos: usize) -> (q: usize)
        requires
            pos <= self.chars@.len(),
        ensures
            q == word_end(self.chars@, pos as int),
            pos <= q <= self.chars@.len(),
    {
        let mut q = pos;
        while q < self.chars.len() && (word_start(self.chars[q]) || digit(self.chars[q]))
            invariant
                pos <= q <= self.chars@.len(),
                word_end(self.chars@, q as int) == word_end(self.chars@, pos as int),
            decreases self.chars@.len() - q,
        {
            q += 1;
        }
        q
    }

    fn digits_end(&self, pos: usize) -> (q: usize)
        requires
            pos <= self.chars@.len(),
        ensures
            q == digits_end(self.chars@, pos as int),
            pos <= q <= self.chars@.len(),
    {
        let mut q = pos;
        while q < self.chars.len() && digit(self.chars[q])
            invariant
                pos <= q <= self.chars@.len(),
                digits_end(self.chars@, q as int) == digits_end(self.chars@, pos as int),
            decreases self.chars@.len() - q,
        {
            q += 1;
        }
        q
    }

    fn extract(&self, from: usize, to: usize) -> (r: String)
        requires
            self.well_formed(),
            from <= to <= self.chars@.len(),
        ensures
            r@ == self.chars@.subrange(from as int, to as int),
    {
        String::from_str(self.text.as_str().substring_char(from, to))
    }

    /// Where the word at `pos` ends, if one starts there: else `pos`.
    fn word(&self, pos: usize) -> (e: usize)
        requires
            pos <= self.chars@.len(),
        ensures
            pos <= e <= self.chars@.len(),
            self.chars@.subrange(pos as int, e as int) == word_at(self.chars@, pos as int),
            e > pos ==> e == word_end(self.chars@, pos as int),
    {
        if pos < self.chars.len() && word_start(self.chars[pos]) {
            assert(is_word_char(self.chars@[pos as int]));
            self.word_end(pos + 1)
        } else {
            assert(self.chars@.subrange(pos as int, pos as int) =~= Seq::<char>::empty());
            pos
        }
    }

    fn is_word(&self, pos: usize, e: usize, word: &str) -> (b: bool)
        requires
            pos <= e <= self.chars@.len(),
        ensures
            b == (self.chars@.subrange(pos as int, e as int) == word@),
    {
        let n = word.unicode_len();
        if e - pos != n {
            return false;
        }
        let mut i: usize = 0;
        while i < n
            invariant
                i <= n,
                n == word@.len(),
                e - pos == n,
                pos <= e <= self.chars@.len(),
                forall|j: int| 0 <= j < i ==> self.chars@[pos + j] == word@[j],
            decreases n - i,
        {
            if self.chars[pos + i] != word.get_char(i) {
                assert(self.chars@.subrange(pos as int, e as int)[i as int] != word@[i as int]);
                return false;
            }
            i += 1;
        }
        assert(self.chars@.subrange(pos as int, e as int) =~= word@);
        true
    }

    fn keyword(&self, pos: usize, e: usize) -> (b: bool)
        requires
            pos <= e <= self.chars@.len(),
        ensures
            b == is_keyword(self.chars@.subrange(pos as int, e as int)),
    {
        self.is_word(pos, e, "if") || self.is_word(pos, e, "else") || self.is_word(pos, e, "goto")
            || self.is_word(pos, e, "declare") || self.is_word(pos, e, "global") || self.is_word(
            pos,
            e,
            "static",
        ) || self.is_word(pos, e, "return") || self.is_word(pos, e, "function") || self.is_word(
            pos,
            e,
            "true",
        ) || self.is_word(pos, e, "false") || self.is_word(pos, e, "not") || self.is_word(
            pos,
            e,
            "and",
        ) || self.is_word(pos, e, "or")
    }

    fn name_at(&self, pos: usize) -> (r: Option<(String, usize)>)
        requires
            self.well_formed(),
            pos <= self.chars@.len(),
        ensures
            name_view(r) == name_at(self.chars@, pos as int),
            r matches Some((_, q)) ==> pos < q <= self.chars@.len(),
    {
        let e = self.word(pos);
        if e == pos || self.keyword(pos, e) {
            None
        } else {
            Some((self.extract(pos, e), e))
        }
    }

    fn string_body(&self, pos: usize, quote: char) -> (r: Option<(String, usize)>)
        requires
            self.well_formed(),
            pos <= self.chars@.len(),
        ensures
            name_view(r) == string_body(self.chars@, pos as int, quote, Seq::empty()),
            r matches Some((_, q)) ==> pos < q <= self.chars@.len(),
    {
        let mut out = String::new();
        let mut from: usize = pos;
        let mut i: usize = pos;
        assert(out@ + self.chars@.subrange(from as int, i as int) =~= Seq::<char>::empty());
        while i < self.chars.len()
            invariant
                self.well_formed(),
                pos <= from <= i <= self.chars@.len(),
                string_body(self.chars@, pos as int, quote, Seq::empty()) == string_body(
                    self.chars@,
                    i as int,
                    quote,
                    out@ + self.chars@.subrange(from as int, i as int),
                ),
            decreases self.chars@.len() - i,
        {
            let ghost done = out@ + self.chars@.subrange(from as int, i as int);
            if self.chars[i] == quote {
                if self.is_at(i + 1, quote) {
                    let piece = self.extract(from, i + 1);
                    out.append(piece.as_str());
                    from = i + 2;
                    i = i + 2;
                    assert(out@ + self.chars@.subrange(from as int, i as int) =~= done.push(
                        quote,
                    ));
                } else {
                    let piece = self.extract(from, i);
                    out.append(piece.as_str());
                    assert(out@ =~= done);
                    return Some((out, i + 1));
                }
            } else {
                assert(out@ + self.chars@.subrange(from as int, i + 1) =~= done.push(
                    self.chars@[i as int],
                ));
                i = i + 1;
            }
        }
        None
    }

    fn operator_at(&self, pos: usize, level: u8) -> (r: Option<(Operator, usize)>)
        requires
            pos <= self.chars@.len(),
        ensures
            operator_view(r) == operator_at(self.chars@, pos as int, level as int),
            r matches Some((_, q)) ==> pos < q <= self.chars@.len(),
    {
        proof {
            reveal_strlit("or");
            reveal_strlit("and");
        }
        if level == 0 {
            let e = self.word(pos);
            if self.is_word(pos, e, "or") {
                assert(self.chars@.subrange(pos as int, e as int).len() == 2);
                Some((Operator::Or, e))
            } else {
                None
            }
        } else if level == 1 {
            let e = self.word(pos);
            if self.is_word(pos, e, "and") {
                assert(self.chars@.subrange(pos as int, e as int).len() == 3);
                Some((Operator::And, e))
            } else {
                None
            }
        } else if level == 2 {
            if self.is_at(pos, '=') && self.is_at(pos + 1, '=') {
                Some((Operator::Equals, pos + 2))
            } else {
                None
            }
        } else if level == 3 {
            if self.is_at(pos, '+') {
                Some((Operator::Add, pos + 1))
            } else if self.is_at(pos, '-') {
                Some((Operator::Subtract, pos + 1))
            } else {
                None
            }
        } else {
            if self.is_at(pos, '*') {
                Some((Operator::Multiply, pos + 1))
            } else if self.is_at(pos, '/') {
                Some((Operator::Divide, pos + 1))
            } else if self.is_at(pos, '%') {
                Some((Operator::Remainder, pos + 1))
            } else {
                None
            }
        }
    }

    fn literal_int(&self, pos: usize, e: usize) -> (r: Option<i64>)
        requires
            pos <= e <= self.chars@.len(),
        ensures
            r == parse_decimal(self.chars@.subrange(pos as int, e as int)),
    {
        let mut digits: Vec<char> = Vec::new();
        let mut i: usize = pos;
        while i < e
            invariant
                pos <= i <= e <= self.chars@.len(),
                digits@ == self.chars@.subrange(pos as int, i as int),
            decreases e - i,
        {
            digits.push(self.chars[i]);
            assert(digits@ =~= self.chars@.subrange(pos as int, i + 1));
            i += 1;
        }
        parse_int(&digits)
    }

    /// Reads the expression at `pos` whose operators have precedence `level`
    /// or tighter.
    pub fn binary(&self, pos: usize, level: u8, depth: usize) -> (r: Option<(Expression, usize)>)
        requires
            self.well_formed(),
            pos <= self.source().len(),
        ensures
            expression_at(r) == binary(self.source(), pos as int, level as int, depth as nat),
            r matches Some((_, q)) ==> q <= self.source().len(),
        decreases depth, rank(level as int), 0nat,
    {
        if level >= 5 {
            self.unary(pos, depth)
        } else {
            match self.binary(pos, level + 1, depth) {
                Some((left, p)) => self.binary_rest(p, level, left, depth),
                None => None,
            }
        }
    }

    fn binary_rest(&self, pos: usize, level: u8, left: Expression, depth: usize) -> (r: Option<
        (Expression, usize),
    >)
        requires
            self.well_formed(),
            pos <= self.chars@.len(),
            level < 5,
        ensures
            expression_at(r) == binary_rest(
                self.chars@,
                pos as int,
                level as int,
                left@,
                depth as nat,
            ),
            r matches Some((_, q)) ==> q <= self.chars@.len(),
        decreases depth, (rank(level as int) - 1) as nat, self.chars@.len() - pos,
    {
        let mut acc = left;
        let mut cur = pos;
        let ghost goal = binary_rest(self.chars@, pos as int, level as int, left@, depth as nat);
        loop
            invariant
                goal == binary_rest(self.chars@, pos as int, level as int, left@, depth as nat),
                self.well_formed(),
                cur <= self.chars@.len(),
                level < 5,
                goal == binary_rest(self.chars@, cur as int, level as int, acc@, depth as nat),
            decreases self.chars@.len() - cur,
        {
            let start = self.skip(cur, false);
            match self.operator_at(start, level) {
                None => {
                    return Some((acc, cur));
                },
                Some((operator, p)) => match self.binary(p, level + 1, depth) {
                    Some((right, q)) => {
                        if q <= cur {
                            return None;
                        }
                        acc = Expression::OperatorExpression {
                            operator,
                            left: Box::new(acc),
                            right: Box::new(right),
                        };
                        cur = q;
                    },
                    None => {
                        return None;
                    },
                },
            }
        }
    }

    fn unary(&self, pos: usize, depth: usize) -> (r: Option<(Expression, usize)>)
        requires
            self.well_formed(),
            pos <= self.chars@.len(),
        ensures
            expression_at(r) == unary(self.chars@, pos as int, depth as nat),
            r matches Some((_, q)) ==> q <= self.chars@.len(),
        decreases depth, 2nat, 0nat,
    {
        let p = self.skip(pos, false);
        let e = self.word(p);
        if self.is_word(p, e, "not") {
            proof {
                reveal_strlit("not");
                assert(self.chars@.subrange(p as int, e as int).len() == 3);
            }
            if depth == 0 {
                return None;
            }
            match self.unary(e, depth - 1) {
                Some((operand, q)) => Some(
                    (
                        Expression::UnaryExpression {
                            operator: UnaryOperator::Not,
                            expression: Box::new(operand),
                        },
                        q,
                    ),
                ),
                None => None,
            }
        } else if self.is_at(p, '-') && !(p + 1 < self.chars.len() && digit(self.chars[p + 1])) {
            if depth == 0 {
                return None;
            }
            match self.unary(p + 1, depth - 1) {
                Some((operand, q)) => Some(
                    (
                        Expression::UnaryExpression {
                            operator: UnaryOperator::Negative,
                            expression: Box::new(operand),
                        },
                        q,
                    ),
                ),
                None => None,
            }
        } else {
            self.primary(p, depth)
        }
    }

    fn primary(&self, pos: usize, depth: usize) -> (r: Option<(Expression, usize)>)
        requires
            self.well_formed(),
            pos <= self.chars@.len(),
        ensures
            expression_at(r) == primary(self.chars@, pos as int, depth as nat),
            r matches Some((_, q)) ==> q <= self.chars@.len(),
        decreases depth, 1nat, 0nat,
    {
        if pos >= self.chars.len() {
            return None;
        }
        let c = self.chars[pos];
        if c == '(' {
            if depth == 0 {
                return None;
            }
            match self.binary(pos + 1, 0, depth - 1) {
                Some((inner, q)) => {
                    let close = self.skip(q, false);
                    if self.is_at(close, ')') {
                        Some((inner, close + 1))
                    } else {
                        None
                    }
                },
                None => None,
            }
        } else if c == '"' || c == '\'' {
            match self.string_body(pos + 1, c) {
                Some((body, q)) => Some((Expression::Str(body), q)),
                None => None,
            }
        } else if digit(c) || c == '-' {
            let e = self.digits_end(pos + 1);
            match self.literal_int(pos, e) {
                Some(i) => Some((Expression::Int(i), e)),
                None => None,
            }
        } else {
            let e = self.word(pos);
            proof {
                reveal_strlit("true");
                reveal_strlit("false");
            }
            if e == pos {
                None
            } else if self.is_word(pos, e, "true") {
                Some((Expression::Boolean(true), e))
            } else if self.is_word(pos, e, "false") {
                Some((Expression::Boolean(false), e))
            } else if self.keyword(pos, e) {
                None
            } else if self.is_at(e, '(') {
                if depth == 0 {
                    return None;
                }
                match self.arguments(e + 1, depth - 1) {
                    Some((list, q)) => Some(
                        (Expression::FunctionCall { name: self.extract(pos, e), arguments: list }, q),
                    ),
                    None => None,
                }
            } else {
                Some((Expression::Ident(self.extract(pos, e)), e))
            }
        }
    }

    fn arguments(&self, pos: usize, depth: usize) -> (r: Option<(Vec<Expression>, usize)>)
        requires
            self.well_formed(),
            pos <= self.chars@.len(),
        ensures
            expressions_at(r) == arguments(self.chars@, pos as int, Seq::empty(), depth as nat),
            r matches Some((_, q)) ==> q <= self.chars@.len(),
        decreases depth, 20nat, self.chars@.len() - pos,
    {
        let mut list: Vec<Expression> = Vec::new();
        let mut cur = pos;
        let ghost goal = arguments(self.chars@, pos as int, Seq::empty(), depth as nat);
        assert(expressions_view(list@) =~= Seq::empty());
        loop
            invariant
                goal == arguments(self.chars@, pos as int, Seq::empty(), depth as nat),
                self.well_formed(),
                cur <= self.chars@.len(),
                goal == arguments(self.chars@, cur as int, expressions_view(list@), depth as nat),
            decreases self.chars@.len() - cur,
        {
            let p = self.skip(cur, false);
            if self.is_at(p, ')') && list.len() == 0 {
                return Some((list, p + 1));
            }
            match self.binary(p, 0, depth) {
                Some((e, q)) => {
                    let ghost before = expressions_view(list@);
                    let after = self.skip(q, false);
                    list.push(e);
                    assert(expressions_view(list@) =~= before.push(e@));
                    if self.is_at(after, ')') {
                        return Some((list, after + 1));
                    } else if self.is_at(after, ',') && cur < after + 1 {
                        cur = after + 1;
                    } else {
                        return None;
                    }
                },
                None => {
                    return None;
                },
            }
        }
    }

    fn parameters(&self, pos: usize) -> (r: Option<(Vec<String>, usize)>)
        requires
            self.well_formed(),
            pos <= self.chars@.len(),
        ensures
            names_at(r) == parameters(self.chars@, pos as int, Seq::empty()),
            r matches Some((_, q)) ==> q <= self.chars@.len(),
    {
        let mut list: Vec<String> = Vec::new();
        let mut cur = pos;
        let ghost goal = parameters(self.chars@, pos as int, Seq::empty());
        assert(names_view(list@) =~= Seq::empty());
        loop
            invariant
                goal == parameters(self.chars@, pos as int, Seq::empty()),
                self.well_formed(),
                cur <= self.chars@.len(),
                goal == parameters(self.chars@, cur as int, names_view(list@)),
            decreases self.chars@.len() - cur,
        {
            let p = self.skip(cur, false);
            if self.is_at(p, ')') && list.len() == 0 {
                return Some((list, p + 1));
            }
            match self.name_at(p) {
                Some((n, q)) => {
                    let ghost before = names_view(list@);
                    let after = self.skip(q, false);
                    list.push(n);
                    assert(names_view(list@) =~= before.push(n@));
                    if self.is_at(after, ')') {
                        return Some((list, after + 1));
                    } else if self.is_at(after, ',') && cur < after + 1 {
                        cur = after + 1;
                    } else {
                        return None;
                    }
                },
                None => {
                    return None;
                },
            }
        }
    }

    fn assigns_at(&self, pos: usize) -> (b: bool)
        ensures
            b == assigns_at(self.chars@, pos as int),
            b ==> pos < self.chars@.len() && pos < usize::MAX,
    {
        self.is_at(pos, '=') && !self.is_at(pos + 1, '=')
    }

    /// Reads the statement that starts at `pos`.
    pub fn statement(&self, pos: usize, depth: usize) -> (r: Option<(Statement, usize)>)
        requires
            self.well_formed(),
            pos <= self.source().len(),
        ensures
            statement_at(r) == statement(self.source(), pos as int, depth as nat),
            r matches Some((_, q)) ==> q <= self.source().len(),
        decreases depth, 30nat, 0nat,
    {
        let e = self.word(pos);
        proof {
            reveal_strlit("goto");
            reveal_strlit("return");
            reveal_strlit("declare");
            reveal_strlit("if");
            reveal_strlit("function");
            reveal_strlit("global");
            reveal_strlit("static");
            reveal_strlit("else");
        }
        let ghost w = self.chars@.subrange(pos as int, e as int);
        if self.is_word(pos, e, "goto") {
            assert(w.len() == 4);
            match self.binary(e, 0, depth) {
                Some((label, q)) => Some((Statement::Goto(Box::new(label)), q)),
                None => None,
            }
        } else if self.is_word(pos, e, "return") {
            assert(w.len() == 6);
            match self.binary(e, 0, depth) {
                Some((value, q)) => Some((Statement::Return(Box::new(value)), q)),
                None => None,
            }
        } else if self.is_word(pos, e, "declare") {
            assert(w.len() == 7);
            let p = self.skip(e, false);
            let scope_end = self.word(p);
            let ghost scope = self.chars@.subrange(p as int, scope_end as int);
            let pattern = if self.is_word(p, scope_end, "global") {
                assert(scope.len() == 6);
                Pattern::Global
            } else if self.is_word(p, scope_end, "static") {
                assert(scope.len() == 6);
                Pattern::Static
            } else {
                Pattern::Var
            };
            let start = match pattern {
                Pattern::Var => p,
                _ => self.skip(scope_end, false),
            };
            match self.name_at(start) {
                Some((name, q)) => {
                    let sign = self.skip(q, false);
                    if self.assigns_at(sign) {
                        match self.binary(sign + 1, 0, depth) {
                            Some((expression, r)) => Some(
                                (
                                    Statement::Declare {
                                        pattern: Box::new(pattern),
                                        name,
                                        expression: Box::new(expression),
                                    },
                                    r,
                                ),
                            ),
                            None => None,
                        }
                    } else {
                        None
                    }
                },
                None => None,
            }
        } else if self.is_word(pos, e, "if") {
            assert(w.len() == 2);
            match self.binary(e, 0, depth) {
                Some((conditional, q)) => match self.block(q, depth) {
                    Some((statements, r)) => {
                        let p = self.skip(r, false);
                        let else_end = self.word(p);
                        if self.is_word(p, else_end, "else") {
                            assert(self.chars@.subrange(p as int, else_end as int).len() == 4);
                            match self.block(else_end, depth) {
                                Some((otherwise, t)) => Some(
                                    (
                                        Statement::If {
                                            conditional: Box::new(conditional),
                                            statements,
                                            else_statements: Some(otherwise),
                                        },
                                        t,
                                    ),
                                ),
                                None => None,
                            }
                        } else {
                            Some(
                                (
                                    Statement::If {
                                        conditional: Box::new(conditional),
                                        statements,
                                        else_statements: None,
                                    },
                                    r,
                                ),
                            )
                        }
                    },
                    None => None,
                },
                None => None,
            }
        } else if self.is_word(pos, e, "function") {
            assert(w.len() == 8);
            let p = self.skip(e, false);
            match self.name_at(p) {
                Some((name, q)) => {
                    if self.is_at(q, '(') {
                        match self.parameters(q + 1) {
                            Some((list, r)) => match self.block(r, depth) {
                                Some((statements, t)) => Some(
                                    (Statement::Function { name, parameters: list, statements }, t),
                                ),
                                None => None,
                            },
                            None => None,
                        }
                    } else {
                        None
                    }
                },
                None => None,
            }
        } else {
            if e > pos && !self.keyword(pos, e) {
                let sign = self.skip(e, false);
                if self.assigns_at(sign) {
                    return match self.binary(sign + 1, 0, depth) {
                        Some((expression, q)) => Some(
                            (
                                Statement::Assignment {
                                    name: self.extract(pos, e),
                                    expression: Box::new(expression),
                                },
                                q,
                            ),
                        ),
                        None => None,
                    };
                }
            }
            match self.binary(pos, 0, depth) {
                Some((expression, q)) => Some((Statement::Expression(Box::new(expression)), q)),
                None => None,
            }
        }
    }

    fn block(&self, pos: usize, depth: usize) -> (r: Option<(Vec<Statement>, usize)>)
        requires
            self.well_formed(),
            pos <= self.chars@.len(),
        ensures
            statements_at(r) == block(self.chars@, pos as int, depth as nat),
            r matches Some((_, q)) ==> q <= self.chars@.len(),
        decreases depth, 25nat, 0nat,
    {
        let p = self.skip(pos, false);
        if self.is_at(p, '{') && depth > 0 {
            let (list, stop) = self.statements(p + 1, depth - 1);
            let q = self.skip(stop, true);
            if self.is_at(q, '}') {
                Some((list, q + 1))
            } else {
                None
            }
        } else {
            None
        }
    }

    /// Reads statements from `pos` on, as far as they go.
    pub fn statements(&self, pos: usize, depth: usize) -> (r: (Vec<Statement>, usize))
        requires
            self.well_formed(),
            pos <= self.source().len(),
        ensures
            (statements_view(r.0@), r.1 as int) == statements(
                self.source(),
                pos as int,
                Seq::empty(),
                depth as nat,
            ),
            r.1 <= self.source().len(),
        decreases depth, 40nat, self.source().len() - pos,
    {
        let mut list: Vec<Statement> = Vec::new();
        let mut cur = pos;
        let ghost goal = statements(self.chars@, pos as int, Seq::empty(), depth as nat);
        assert(statements_view(list@) =~= Seq::empty());
        loop
            invariant
                goal == statements(self.chars@, pos as int, Seq::empty(), depth as nat),
                self.well_formed(),
                cur <= self.chars@.len(),
                goal == statements(self.chars@, cur as int, statements_view(list@), depth as nat),
            decreases self.chars@.len() - cur,
        {
            let p = self.skip(cur, true);
            match self.statement(p, depth) {
                Some((one, q)) => {
                    if q <= cur {
                        return (list, cur);
                    }
                    let ghost before = statements_view(list@);
                    list.push(one);
                    assert(statements_view(list@) =~= before.push(one@));
                    cur = q;
                },
                None => {
                    return (list, cur);
                },
            }
        }
    }

    /// Reads the whole text as a program.
    pub fn parse_program(&self) -> (r: Result<Vec<Statement>, ParseError>)
        requires
            self.well_formed(),
        ensures
            program_view(r) == program(self.source()),
    {
        let (list, stop) = self.statements(0, NESTING_LIMIT);
        let end = self.skip(stop, true);
        if end >= self.chars.len() {
            Ok(list)
        } else {
            Err(ParseError { position: end })
        }
    }
}

/// Reads `source` as a program: its statements in order, or the place where
/// no statement could be read. Nothing of a text that fails is kept.
pub fn parse(source: &str) -> (r: Result<Vec<Statement>, ParseError>)
    ensures
        program_view(r) == program(source@),
{
    LanguageParser::new(source).parse_program()
}

} // verus!
