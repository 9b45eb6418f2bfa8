//! The evaluator: it walks the syntax tree and does to the context what the
//! semantics say.

use vstd::prelude::*;
use crate::ast::{
    clone_names, clone_statements, expressions_view, names_view, statements_view, Expression,
    Pattern, Statement,
};
use crate::builtins::{
    find_builtin, join_display, print, read, sleep, values_view, Builtin, Effect, EffectView,
};
use crate::error::RuntimeError;
use crate::scope::Scope;
use crate::semantics::{
    bind, bind_from, call_builtin, eval_arguments, eval_expression, eval_statement,
    eval_statements, first_function, function_index, lookup, run, with_function, with_static, ArgumentsView, ContextView, ExpressionResultView, FunctionView, Machine, Outcome,
    StatementResultView,
};
use crate::semantics::{assign, statics_of};
use crate::value::{value_result_view, Value, ValueView};

verus! {

/// A defined function, with the static variables that it keeps.
#[derive(Debug)]
pub struct FunctionContext {
    name: String,
    parameters: Vec<String>,
    statements: Vec<Statement>,
    static_variables: Scope,
}

impl View for FunctionContext {
    type V = FunctionView;

    closed spec fn view(&self) -> FunctionView {
        FunctionView {
            name: self.name@,
            parameters: names_view(self.parameters@),
            statements: statements_view(self.statements@),
            static_variables: self.static_variables@,
        }
    }
}

/// What lives as long as the run: global variables, functions, and the
/// console, which queues the lines to be read and records what the host is
/// to do.
#[derive(Debug)]
pub struct Context {
    global_variables: Scope,
    function_contexts: Vec<FunctionContext>,
    input: Vec<String>,
    consumed: usize,
    input_open: bool,
    effects: Vec<Effect>,
    call_depth: usize,
}

/// How a statement ended.
#[derive(Debug, PartialEq, Eq)]
pub enum StatementResult {
    Continue,
    Goto(String),
    Return(Value),
}

/// What an expression came to.
#[derive(Debug, PartialEq, Eq)]
pub enum ExpressionResult {
    Value(Value),
    Goto(String),
}

enum Arguments {
    Values(Vec<Value>),
    Goto(String),
}

impl View for StatementResult {
    type V = StatementResultView;

    open spec fn view(&self) -> StatementResultView {
        match self {
            StatementResult::Continue => StatementResultView::Continue,
            StatementResult::Goto(l) => StatementResultView::Goto(l@),
            StatementResult::Return(v) => StatementResultView::Return(v@),
        }
    }
}

impl View for ExpressionResult {
    type V = ExpressionResultView;

    open spec fn view(&self) -> ExpressionResultView {
        match self {
            ExpressionResult::Value(v) => ExpressionResultView::Value(v@),
            ExpressionResult::Goto(l) => ExpressionResultView::Goto(l@),
        }
    }
}

impl View for Arguments {
    type V = ArgumentsView;

    closed spec fn view(&self) -> ArgumentsView {
        match self {
            Arguments::Values(vs) => ArgumentsView::Values(values_view(vs@)),
            Arguments::Goto(l) => ArgumentsView::Goto(l@),
        }
    }
}

/// The view of how a statement ended or failed.
pub open spec fn statement_result_view(r: Result<StatementResult, RuntimeError>) -> Result<
    StatementResultView,
    RuntimeError,
> {
    match r {
        Ok(s) => Ok(s@),
        Err(e) => Err(e),
    }
}

/// The view of what an expression came to or how it failed.
pub open spec fn expression_result_view(r: Result<ExpressionResult, RuntimeError>) -> Result<
    ExpressionResultView,
    RuntimeError,
> {
    match r {
        Ok(s) => Ok(s@),
        Err(e) => Err(e),
    }
}

spec fn arguments_result_view(r: Result<Arguments, RuntimeError>) -> Result<
    ArgumentsView,
    RuntimeError,
> {
    match r {
        Ok(s) => Ok(s@),
        Err(e) => Err(e),
    }
}

/// The function being executed, as the semantics name it.
pub open spec fn current_view(current: Option<usize>) -> Option<int> {
    match current {
        Some(f) => Some(f as int),
        None => None,
    }
}

spec fn functions_view(functions: Seq<FunctionContext>) -> Seq<FunctionView> {
    Seq::new(functions.len(), |i: int| functions[i]@)
}

spec fn pending_view(input: Seq<String>, consumed: int) -> Seq<Seq<char>> {
    if 0 <= consumed <= input.len() {
        Seq::new((input.len() - consumed) as nat, |i: int| input[consumed + i]@)
    } else {
        Seq::empty()
    }
}

proof fn lemma_function_at(functions: Seq<FunctionView>, name: Seq<char>, i: int)
    requires
        first_function(functions, name, i),
    ensures
        function_index(functions, name) == Some(i),
{
    let j = choose|j: int| first_function(functions, name, j);
    assert(first_function(functions, name, j));
    if j < i {
        assert(functions[j].name != name);
    } else if i < j {
        assert(functions[i].name != name);
    }
}

impl View for Context {
    type V = ContextView;

    closed spec fn view(&self) -> ContextView {
        ContextView {
            global_variables: self.global_variables@,
            functions: functions_view(self.function_contexts@),
            input: pending_view(self.input@, self.consumed as int),
            input_open: self.input_open,
            effects: effects_of(self.effects@),
        }
    }
}

impl Context {
    /// How many calls may nest.
    pub closed spec fn depth_limit(&self) -> nat {
        self.call_depth as nat
    }

    /// A context with nothing declared, no input to come and nothing to do,
    /// in which up to `call_depth` calls may nest.
    pub fn new(call_depth: usize) -> (r: Context)
        ensures
            r@ == (ContextView {
                global_variables: Map::empty(),
                functions: Seq::empty(),
                input: Seq::empty(),
                input_open: false,
                effects: Seq::empty(),
            }),
            r.depth_limit() == call_depth,
    {
        let r = Context {
            global_variables: Scope::new(),
            function_contexts: Vec::new(),
            input: Vec::new(),
            consumed: 0,
            input_open: false,
            effects: Vec::new(),
            call_depth,
        };
        assert(r@.functions =~= Seq::empty());
        assert(r@.input =~= Seq::empty());
        assert(r@.effects =~= Seq::empty());
        r
    }

    /// Queues a line for `read`, behind those that wait.
    pub fn push_input(&mut self, line: String)
        ensures
            final(self)@ == (ContextView { input: old(self)@.input.push(line@), ..old(self)@ }),
            final(self).depth_limit() == old(self).depth_limit(),
    {
        if self.consumed > self.input.len() {
            self.consumed = self.input.len();
        }
        self.input.push(line);
        assert(self@.input =~= old(self)@.input.push(line@));
    }

    /// Says whether more input may come. While it may, a `read` that finds
    /// no line waiting suspends the run; once it may not, such a `read`
    /// yields the empty string.
    pub fn set_input_open(&mut self, open: bool)
        ensures
            final(self)@ == (ContextView { input_open: open, ..old(self)@ }),
            final(self).depth_limit() == old(self).depth_limit(),
    {
        self.input_open = open;
    }

    /// Records a prose block for the host to show.
    pub fn render(&mut self, prose: String)
        ensures
            final(self)@ == (ContextView {
                effects: old(self)@.effects.push(EffectView::Render(prose@)),
                ..old(self)@
            }),
            final(self).depth_limit() == old(self).depth_limit(),
    {
        self.effects.push(Effect::Render(prose));
        assert(self@.effects =~= old(self)@.effects.push(EffectView::Render(prose@)));
    }

    /// Hands out what the host is to do, in order, and forgets it.
    pub fn take_effects(&mut self) -> (r: Vec<Effect>)
        ensures
            effects_of(r@) == old(self)@.effects,
            final(self)@ == (ContextView { effects: Seq::empty(), ..old(self)@ }),
            final(self).depth_limit() == old(self).depth_limit(),
    {
        let mut out: Vec<Effect> = Vec::new();
        core::mem::swap(&mut out, &mut self.effects);
        assert(self@.effects =~= Seq::empty());
        assert(effects_of(out@) =~= old(self)@.effects);
        out
    }

    /// The global variable `name`, if it is declared.
    pub fn global(&self, name: &String) -> (r: Option<Value>)
        ensures
            match r {
                Some(v) => self@.global_variables.contains_key(name@)
                    && self@.global_variables[name@] == v@,
                None => !self@.global_variables.contains_key(name@),
            },
    {
        self.global_variables.get(name)
    }

    fn find_function(&self, name: &String) -> (r: Option<usize>)
        ensures
            current_view(r) == function_index(self@.functions, name@),
            r matches Some(f) ==> f < self.function_contexts@.len(),
    {
        let mut i: usize = 0;
        while i < self.function_contexts.len()
            invariant
                i <= self.function_contexts@.len(),
                forall|j: int| 0 <= j < i ==> (#[trigger] self@.functions[j]).name != name@,
            decreases self.function_contexts@.len() - i,
        {
            assert(self@.functions[i as int] == self.function_contexts@[i as int]@);
            if self.function_contexts[i].name == *name {
                proof {
                    assert(first_function(self@.functions, name@, i as int));
                    lemma_function_at(self@.functions, name@, i as int);
                }
                return Some(i);
            }
            i += 1;
        }
        assert forall|k: int| !first_function(self@.functions, name@, k) by {
            if 0 <= k < self@.functions.len() {
                assert(self@.functions[k].name != name@);
            }
        }
        None
    }

    fn define_function(&mut self, function: FunctionContext)
        ensures
            final(self)@ == with_function(old(self)@, function@),
            final(self).depth_limit() == old(self).depth_limit(),
    {
        match self.find_function(&function.name) {
            Some(f) => {
                self.function_contexts.set(f, function);
                assert(self@.functions =~= old(self)@.functions.update(f as int, function@));
            },
            None => {
                self.function_contexts.push(function);
                assert(self@.functions =~= old(self)@.functions.push(function@));
            },
        }
    }

    fn set_static(&mut self, f: usize, name: &String, value: Value)
        requires
            f < old(self).function_contexts@.len(),
        ensures
            final(self)@ == with_static(old(self)@, f as int, name@, value@),
            final(self).depth_limit() == old(self).depth_limit(),
    {
        let mut function = self.function_contexts.remove(f);
        function.static_variables.insert(name, value);
        self.function_contexts.insert(f, function);
        assert(self@.functions =~= with_static(old(self)@, f as int, name@, value@).functions);
    }

    fn call_builtin(&mut self, b: Builtin, args: &Vec<Value>) -> (r: Result<Value, RuntimeError>)
        ensures
            (final(self)@, value_result_view(r)) == call_builtin(b, values_view(args@), old(self)@),
            final(self).depth_limit() == old(self).depth_limit(),
    {
        match b {
            Builtin::Print => {
                let line = print(args);
                self.effects.push(Effect::Print(line));
                assert(self@.effects =~= old(self)@.effects.push(
                    EffectView::Print(join_display(values_view(args@))),
                ));
                Ok(Value::Bool(true))
            },
            Builtin::Read => {
                if self.consumed < self.input.len() {
                    let line = self.input[self.consumed].clone();
                    self.consumed = self.consumed + 1;
                    assert(self@.input =~= old(self)@.input.drop_first());
                    assert(old(self)@.input[0] == line@);
                    Ok(read(line))
                } else if self.input_open {
                    assert(old(self)@.input.len() == 0);
                    Err(RuntimeError::InputPending)
                } else {
                    assert(old(self)@.input.len() == 0);
                    Ok(Value::Str(String::new()))
                }
            },
            Builtin::Sleep => match sleep(args) {
                Ok(n) => {
                    self.effects.push(Effect::Sleep(n));
                    assert(self@.effects =~= old(self)@.effects.push(EffectView::Sleep(n)));
                    Ok(Value::Bool(true))
                },
                Err(e) => Err(e),
            },
        }
    }
}

/// The view of a value that may be missing.
pub open spec fn option_value_view(v: Option<Value>) -> Option<ValueView> {
    match v {
        Some(v) => Some(v@),
        None => None,
    }
}

fn bind_frame(parameters: &Vec<String>, arguments: &Vec<Value>) -> (frame: Scope)
    ensures
        frame@ == bind(names_view(parameters@), values_view(arguments@)),
{
    let mut frame = Scope::new();
    let mut i: usize = 0;
    while i < parameters.len() && i < arguments.len()
        invariant
            i <= parameters.len(),
            i <= arguments.len(),
            bind(names_view(parameters@), values_view(arguments@)) == bind_from(
                names_view(parameters@),
                values_view(arguments@),
                i as int,
                frame@,
            ),
        decreases parameters.len() - i,
    {
        frame.insert(&parameters[i], arguments[i].clone());
        i += 1;
    }
    frame
}

impl Context {
    fn lookup(&self, local_variables: &Scope, current: Option<usize>, name: &String) -> (r:
        Option<Value>)
        ensures
            option_value_view(r) == lookup(
                Machine { context: self@, locals: local_variables@ },
                current_view(current),
                name@,
            ),
    {
        match local_variables.get(name) {
            Some(v) => {
                return Some(v);
            },
            None => {},
        }
        match self.get_static(current, name) {
            Some(v) => {
                return Some(v);
            },
            None => {},
        }
        self.global_variables.get(name)
    }

    fn get_static(&self, current: Option<usize>, name: &String) -> (r: Option<Value>)
        ensures
            match r {
                Some(v) => statics_of(self@, current_view(current)).contains_key(name@)
                    && statics_of(self@, current_view(current))[name@] == v@,
                None => !statics_of(self@, current_view(current)).contains_key(name@),
            },
            r is Some ==> current is Some && current.unwrap() < self.function_contexts@.len(),
    {
        match current {
            Some(f) => if f < self.function_contexts.len() {
                assert(self@.functions[f as int] == self.function_contexts@[f as int]@);
                self.function_contexts[f].static_variables.get(name)
            } else {
                None
            },
            None => None,
        }
    }

    fn assign(
        &mut self,
        local_variables: &mut Scope,
        current: Option<usize>,
        name: &String,
        value: Value,
    ) -> (done: bool)
        ensures
            match assign(
                Machine { context: old(self)@, locals: old(local_variables)@ },
                current_view(current),
                name@,
                value@,
            ) {
                Some(next) => done && next == (Machine {
                    context: final(self)@,
                    locals: final(local_variables)@,
                }),
                None => !done && final(self)@ == old(self)@ && final(local_variables)@ == old(
                    local_variables,
                )@,
            },
            final(self).depth_limit() == old(self).depth_limit(),
    {
        if local_variables.contains_key(name) {
            local_variables.insert(name, value);
            true
        } else if self.get_static(current, name).is_some() {
            self.set_static(current.unwrap(), name, value);
            true
        } else if self.global_variables.contains_key(name) {
            self.global_variables.insert(name, value);
            true
        } else {
            false
        }
    }

    /// Evaluates an expression. `current` is the function being executed, if
    /// any; `depth` is how many calls may still nest.
    pub fn eval_expression(
        &mut self,
        expression: &Expression,
        local_variables: &mut Scope,
        current: Option<usize>,
        depth: usize,
    ) -> (r: Result<ExpressionResult, RuntimeError>)
        ensures
            (Outcome {
                machine: Machine { context: final(self)@, locals: final(local_variables)@ },
                result: expression_result_view(r),
            }) == eval_expression(
                expression@,
                Machine { context: old(self)@, locals: old(local_variables)@ },
                current_view(current),
                depth as nat,
            ),
            final(self).depth_limit() == old(self).depth_limit(),
        decreases depth, 0nat, expression, 0nat,
    {
        match expression {
            Expression::Str(s) => Ok(ExpressionResult::Value(Value::Str(s.clone()))),
            Expression::Int(i) => Ok(ExpressionResult::Value(Value::Int(*i))),
            Expression::Boolean(b) => Ok(ExpressionResult::Value(Value::Bool(*b))),
            Expression::Ident(name) => match self.lookup(local_variables, current, name) {
                Some(v) => Ok(ExpressionResult::Value(v)),
                None => Err(RuntimeError::UndeclaredVariable),
            },
            Expression::OperatorExpression { operator, left, right } => {
                let lhs = match self.eval_expression(left, local_variables, current, depth) {
                    Ok(ExpressionResult::Value(v)) => v,
                    other => {
                        return other;
                    },
                };
                let rhs = match self.eval_expression(right, local_variables, current, depth) {
                    Ok(ExpressionResult::Value(v)) => v,
                    other => {
                        return other;
                    },
                };
                match Value::binary(*operator, &lhs, rhs) {
                    Ok(v) => Ok(ExpressionResult::Value(v)),
                    Err(e) => Err(e),
                }
            },
            Expression::UnaryExpression { operator, expression } => {
                let v = match self.eval_expression(expression, local_variables, current, depth) {
                    Ok(ExpressionResult::Value(v)) => v,
                    other => {
                        return other;
                    },
                };
                match Value::unary(*operator, &v) {
                    Ok(v) => Ok(ExpressionResult::Value(v)),
                    Err(e) => Err(e),
                }
            },
            Expression::FunctionCall { name, arguments } => {
                assert(expressions_view(arguments@).len() == arguments@.len());
                match find_builtin(name) {
                    Some(b) => {
                        match self.eval_arguments(arguments, local_variables, current, depth) {
                            Ok(Arguments::Values(values)) => match self.call_builtin(b, &values) {
                                Ok(v) => Ok(ExpressionResult::Value(v)),
                                Err(e) => Err(e),
                            },
                            Ok(Arguments::Goto(l)) => Ok(ExpressionResult::Goto(l)),
                            Err(e) => Err(e),
                        }
                    },
                    None => match self.find_function(name) {
                        None => Err(RuntimeError::UnknownFunction),
                        Some(f) => {
                            assert(self@.functions[f as int] == self.function_contexts@[f as int]@);
                            if arguments.len() != self.function_contexts[f].parameters.len() {
                                return Err(RuntimeError::Arity);
                            }
                            match self.eval_arguments(arguments, local_variables, current, depth) {
                                Ok(Arguments::Values(values)) => {
                                    if depth == 0 || f >= self.function_contexts.len() {
                                        return Err(RuntimeError::CallDepth);
                                    }
                                    assert(self@.functions[f as int]
                                        == self.function_contexts@[f as int]@);
                                    let body = clone_statements(
                                        &self.function_contexts[f].statements,
                                    );
                                    let mut frame = bind_frame(
                                        &self.function_contexts[f].parameters,
                                        &values,
                                    );
                                    match self.eval_statements(
                                        &body,
                                        &mut frame,
                                        Some(f),
                                        depth - 1,
                                    ) {
                                        Ok(StatementResult::Return(v)) => Ok(
                                            ExpressionResult::Value(v),
                                        ),
                                        Ok(StatementResult::Goto(l)) => Ok(
                                            ExpressionResult::Goto(l),
                                        ),
                                        Ok(StatementResult::Continue) => Ok(
                                            ExpressionResult::Value(Value::Str(String::new())),
                                        ),
                                        Err(e) => Err(e),
                                    }
                                },
                                Ok(Arguments::Goto(l)) => Ok(ExpressionResult::Goto(l)),
                                Err(e) => Err(e),
                            }
                        },
                    },
                }
            },
        }
    }

    fn eval_arguments(
        &mut self,
        arguments: &Vec<Expression>,
        local_variables: &mut Scope,
        current: Option<usize>,
        depth: usize,
    ) -> (r: Result<Arguments, RuntimeError>)
        ensures
            (Outcome {
                machine: Machine { context: final(self)@, locals: final(local_variables)@ },
                result: arguments_result_view(r),
            }) == eval_arguments(
                expressions_view(arguments@),
                0,
                Seq::empty(),
                Machine { context: old(self)@, locals: old(local_variables)@ },
                current_view(current),
                depth as nat,
            ),
            final(self).depth_limit() == old(self).depth_limit(),
        decreases depth, 0nat, arguments, arguments.len(),
    {
        let mut values: Vec<Value> = Vec::new();
        let mut i: usize = 0;
        let ghost goal = eval_arguments(
            expressions_view(arguments@),
            0,
            Seq::empty(),
            Machine { context: self@, locals: local_variables@ },
            current_view(current),
            depth as nat,
        );
        assert(values_view(values@) =~= Seq::empty());
        while i < arguments.len()
            invariant
                i <= arguments.len(),
                goal == eval_arguments(
                    expressions_view(arguments@),
                    0,
                    Seq::empty(),
                    Machine { context: old(self)@, locals: old(local_variables)@ },
                    current_view(current),
                    depth as nat,
                ),
                goal == eval_arguments(
                    expressions_view(arguments@),
                    i as int,
                    values_view(values@),
                    Machine { context: self@, locals: local_variables@ },
                    current_view(current),
                    depth as nat,
                ),
                self.depth_limit() == old(self).depth_limit(),
            decreases arguments.len() - i,
        {
            assert(expressions_view(arguments@)[i as int] == arguments@[i as int]@);
            let ghost before = values_view(values@);
            match self.eval_expression(&arguments[i], local_variables, current, depth) {
                Ok(ExpressionResult::Value(v)) => {
                    values.push(v);
                    assert(values_view(values@) =~= before.push(v@));
                },
                Ok(ExpressionResult::Goto(l)) => {
                    return Ok(Arguments::Goto(l));
                },
                Err(e) => {
                    return Err(e);
                },
            }
            i += 1;
        }
        Ok(Arguments::Values(values))
    }

    /// Evaluates one statement.
    pub fn eval_statement(
        &mut self,
        statement: &Statement,
        local_variables: &mut Scope,
        current: Option<usize>,
        depth: usize,
    ) -> (r: Result<StatementResult, RuntimeError>)
        ensures
            (Outcome {
                machine: Machine { context: final(self)@, locals: final(local_variables)@ },
                result: statement_result_view(r),
            }) == eval_statement(
                statement@,
                Machine { context: old(self)@, locals: old(local_variables)@ },
                current_view(current),
                depth as nat,
            ),
            final(self).depth_limit() == old(self).depth_limit(),
        decreases depth, 1nat, statement, 0nat,
    {
        match statement {
            Statement::Goto(expression) => {
                match self.eval_expression(expression, local_variables, current, depth) {
                    Ok(ExpressionResult::Value(Value::Str(s))) => Ok(StatementResult::Goto(s)),
                    Ok(ExpressionResult::Value(_)) => Err(RuntimeError::Type),
                    Ok(ExpressionResult::Goto(s)) => Ok(StatementResult::Goto(s)),
                    Err(e) => Err(e),
                }
            },
            Statement::Declare { pattern, name, expression } => match **pattern {
                Pattern::Global => {
                    if self.global_variables.contains_key(name) {
                        return Ok(StatementResult::Continue);
                    }
                    match self.eval_expression(expression, local_variables, current, depth) {
                        Ok(ExpressionResult::Value(v)) => {
                            self.global_variables.insert(name, v);
                            Ok(StatementResult::Continue)
                        },
                        Ok(ExpressionResult::Goto(s)) => Ok(StatementResult::Goto(s)),
                        Err(e) => Err(e),
                    }
                },
                Pattern::Static => {
                    let f = match current {
                        Some(f) => f,
                        None => {
                            return Err(RuntimeError::Scope);
                        },
                    };
                    if self.get_static(current, name).is_some() {
                        return Ok(StatementResult::Continue);
                    }
                    match self.eval_expression(expression, local_variables, current, depth) {
                        Ok(ExpressionResult::Value(v)) => {
                            if f < self.function_contexts.len() {
                                self.set_static(f, name, v);
                                Ok(StatementResult::Continue)
                            } else {
                                Err(RuntimeError::Scope)
                            }
                        },
                        Ok(ExpressionResult::Goto(s)) => Ok(StatementResult::Goto(s)),
                        Err(e) => Err(e),
                    }
                },
                Pattern::Var => {
                    if local_variables.contains_key(name) {
                        return Err(RuntimeError::Redeclaration);
                    }
                    match self.eval_expression(expression, local_variables, current, depth) {
                        Ok(ExpressionResult::Value(v)) => {
                            local_variables.insert(name, v);
                            Ok(StatementResult::Continue)
                        },
                        Ok(ExpressionResult::Goto(s)) => Ok(StatementResult::Goto(s)),
                        Err(e) => Err(e),
                    }
                },
            },
            Statement::Assignment { name, expression } => {
                match self.eval_expression(expression, local_variables, current, depth) {
                    Ok(ExpressionResult::Value(v)) => {
                        if self.assign(local_variables, current, name, v) {
                            Ok(StatementResult::Continue)
                        } else {
                            Err(RuntimeError::UndeclaredVariable)
                        }
                    },
                    Ok(ExpressionResult::Goto(s)) => Ok(StatementResult::Goto(s)),
                    Err(e) => Err(e),
                }
            },
            Statement::If { conditional, statements, else_statements } => {
                match self.eval_expression(conditional, local_variables, current, depth) {
                    Ok(ExpressionResult::Value(v)) => {
                        if v.as_bool() {
                            self.eval_statements(statements, local_variables, current, depth)
                        } else {
                            match else_statements {
                                Some(otherwise) => self.eval_statements(
                                    otherwise,
                                    local_variables,
                                    current,
                                    depth,
                                ),
                                None => Ok(StatementResult::Continue),
                            }
                        }
                    },
                    Ok(ExpressionResult::Goto(s)) => Ok(StatementResult::Goto(s)),
                    Err(e) => Err(e),
                }
            },
            Statement::Function { name, parameters, statements } => {
                if current.is_some() {
                    return Err(RuntimeError::NestedFunction);
                }
                self.define_function(
                    FunctionContext {
                        name: name.clone(),
                        parameters: clone_names(parameters),
                        statements: clone_statements(statements),
                        static_variables: Scope::new(),
                    },
                );
                Ok(StatementResult::Continue)
            },
            Statement::Expression(expression) => {
                match self.eval_expression(expression, local_variables, current, depth) {
                    Ok(ExpressionResult::Value(_)) => Ok(StatementResult::Continue),
                    Ok(ExpressionResult::Goto(s)) => Ok(StatementResult::Goto(s)),
                    Err(e) => Err(e),
                }
            },
            Statement::Return(expression) => {
                match self.eval_expression(expression, local_variables, current, depth) {
                    Ok(ExpressionResult::Value(v)) => {
                        if current.is_none() {
                            Err(RuntimeError::Control)
                        } else {
                            Ok(StatementResult::Return(v))
                        }
                    },
                    Ok(ExpressionResult::Goto(s)) => Ok(StatementResult::Goto(s)),
                    Err(e) => Err(e),
                }
            },
        }
    }

    /// Evaluates a list of statements in order, until one jumps, returns or
    /// fails.
    pub fn eval_statements(
        &mut self,
        statements: &Vec<Statement>,
        local_variables: &mut Scope,
        current: Option<usize>,
        depth: usize,
    ) -> (r: Result<StatementResult, RuntimeError>)
        ensures
            (Outcome {
                machine: Machine { context: final(self)@, locals: final(local_variables)@ },
                result: statement_result_view(r),
            }) == eval_statements(
                statements_view(statements@),
                0,
                Machine { context: old(self)@, locals: old(local_variables)@ },
                current_view(current),
                depth as nat,
            ),
            final(self).depth_limit() == old(self).depth_limit(),
        decreases depth, 1nat, statements, statements.len(),
    {
        let mut i: usize = 0;
        let ghost goal = eval_statements(
            statements_view(statements@),
            0,
            Machine { context: self@, locals: local_variables@ },
            current_view(current),
            depth as nat,
        );
        while i < statements.len()
            invariant
                i <= statements.len(),
                goal == eval_statements(
                    statements_view(statements@),
                    0,
                    Machine { context: old(self)@, locals: old(local_variables)@ },
                    current_view(current),
                    depth as nat,
                ),
                goal == eval_statements(
                    statements_view(statements@),
                    i as int,
                    Machine { context: self@, locals: local_variables@ },
                    current_view(current),
                    depth as nat,
                ),
                self.depth_limit() == old(self).depth_limit(),
            decreases statements.len() - i,
        {
            assert(statements_view(statements@)[i as int] == statements@[i as int]@);
            match self.eval_statement(&statements[i], local_variables, current, depth) {
                Ok(StatementResult::Continue) => {},
                exit => {
                    return exit;
                },
            }
            i += 1;
        }
        Ok(StatementResult::Continue)
    }

    /// Runs a top-level list of statements in a fresh local frame.
    pub fn eval(&mut self, statements: &Vec<Statement>) -> (r: Result<
        StatementResult,
        RuntimeError,
    >)
        ensures
            (final(self)@, statement_result_view(r)) == run(
                statements_view(statements@),
                old(self)@,
                old(self).depth_limit(),
            ),
            final(self).depth_limit() == old(self).depth_limit(),
    {
        let mut local_variables = Scope::new();
        let depth = self.call_depth;
        self.eval_statements(statements, &mut local_variables, None, depth)
    }
}

/// The views of a sequence of effects.
pub open spec fn effects_of(effects: Seq<Effect>) -> Seq<EffectView> {
    Seq::new(effects.len(), |i: int| effects[i]@)
}

} // verus!
