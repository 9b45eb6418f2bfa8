//! What a script means: the evaluation of expressions and statements as
//! mathematical functions on the state of the runtime.

use vstd::prelude::*;
use crate::ast::{ExpressionView, Pattern, StatementView};
use crate::builtins::{
    builtin_named, interpret_line, join_display, sleep_seconds, Builtin, EffectView,
};
use crate::error::RuntimeError;
use crate::value::{binary, truthy, unary, ValueView};

verus! {

/// A defined function: its parameters, its body, and the static variables
/// that it keeps from call to call.
pub struct FunctionView {
    pub name: Seq<char>,
    pub parameters: Seq<Seq<char>>,
    pub statements: Seq<StatementView>,
    pub static_variables: Map<Seq<char>, ValueView>,
}

/// What lives as long as the run: the global variables, the functions in the
/// order of their first definition, the lines of input not yet read,
/// whether more lines may come, and what the host has been asked to do.
pub struct ContextView {
    pub global_variables: Map<Seq<char>, ValueView>,
    pub functions: Seq<FunctionView>,
    pub input: Seq<Seq<char>>,
    pub input_open: bool,
    pub effects: Seq<EffectView>,
}

/// The state that evaluation works on: the context and the local frame.
pub struct Machine {
    pub context: ContextView,
    pub locals: Map<Seq<char>, ValueView>,
}

/// What an expression comes to: a value, or a jump that a call raised.
pub enum ExpressionResultView {
    Value(ValueView),
    Goto(Seq<char>),
}

/// What a list of arguments comes to: their values, or a jump.
pub enum ArgumentsView {
    Values(Seq<ValueView>),
    Goto(Seq<char>),
}

/// What a statement comes to: go on, jump to a section, or return a value.
pub enum StatementResultView {
    Continue,
    Goto(Seq<char>),
    Return(ValueView),
}

/// The state after an evaluation, and what it came to.
pub struct Outcome<T> {
    pub machine: Machine,
    pub result: Result<T, RuntimeError>,
}

/// Whether `i` is the first function of `functions` that is called `name`.
pub open spec fn first_function(functions: Seq<FunctionView>, name: Seq<char>, i: int) -> bool {
    &&& 0 <= i < functions.len()
    &&& functions[i].name == name
    &&& forall|j: int| 0 <= j < i ==> (#[trigger] functions[j]).name != name
}

/// The place of the function called `name`, if it is defined.
pub open spec fn function_index(functions: Seq<FunctionView>, name: Seq<char>) -> Option<int> {
    if exists|i: int| first_function(functions, name, i) {
        Some(choose|i: int| first_function(functions, name, i))
    } else {
        None
    }
}

/// The static variables in reach: those of the function being executed.
pub open spec fn statics_of(c: ContextView, current: Option<int>) -> Map<Seq<char>, ValueView> {
    match current {
        Some(f) => if 0 <= f < c.functions.len() {
            c.functions[f].static_variables
        } else {
            Map::empty()
        },
        None => Map::empty(),
    }
}

/// The context with the static variable `name` of function `f` bound to `v`.
pub open spec fn with_static(c: ContextView, f: int, name: Seq<char>, v: ValueView) -> ContextView {
    ContextView {
        functions: c.functions.update(
            f,
            FunctionView {
                static_variables: c.functions[f].static_variables.insert(name, v),
                ..c.functions[f]
            },
        ),
        ..c
    }
}

/// The context with the global variable `name` bound to `v`.
pub open spec fn with_global(c: ContextView, name: Seq<char>, v: ValueView) -> ContextView {
    ContextView { global_variables: c.global_variables.insert(name, v), ..c }
}

/// The context with the function `function` defined: in the place of the one
/// of that name, if there is one, else behind the others. Its static
/// variables start empty either way.
pub open spec fn with_function(c: ContextView, function: FunctionView) -> ContextView {
    ContextView {
        functions: match function_index(c.functions, function.name) {
            Some(f) => c.functions.update(f, function),
            None => c.functions.push(function),
        },
        ..c
    }
}

/// What a name stands for: the local of that name, else the static variable
/// of the function being executed, else the global.
pub open spec fn lookup(m: Machine, current: Option<int>, name: Seq<char>) -> Option<ValueView> {
    if m.locals.contains_key(name) {
        Some(m.locals[name])
    } else if statics_of(m.context, current).contains_key(name) {
        Some(statics_of(m.context, current)[name])
    } else if m.context.global_variables.contains_key(name) {
        Some(m.context.global_variables[name])
    } else {
        None
    }
}

/// The state after `name` is assigned `v` where it was found, in the order
/// of [`lookup`]; nothing where no scope in reach declares it.
pub open spec fn assign(m: Machine, current: Option<int>, name: Seq<char>, v: ValueView) -> Option<
    Machine,
> {
    if m.locals.contains_key(name) {
        Some(Machine { locals: m.locals.insert(name, v), ..m })
    } else if statics_of(m.context, current).contains_key(name) {
        Some(Machine { context: with_static(m.context, current.unwrap(), name, v), ..m })
    } else if m.context.global_variables.contains_key(name) {
        Some(Machine { context: with_global(m.context, name, v), ..m })
    } else {
        None
    }
}

/// The frame `frame` with the parameters from the `i`-th on bound to their
/// arguments, in order.
pub open spec fn bind_from(
    parameters: Seq<Seq<char>>,
    arguments: Seq<ValueView>,
    i: int,
    frame: Map<Seq<char>, ValueView>,
) -> Map<Seq<char>, ValueView>
    decreases parameters.len() - i,
{
    if i < 0 || i >= parameters.len() || i >= arguments.len() {
        frame
    } else {
        bind_from(parameters, arguments, i + 1, frame.insert(parameters[i], arguments[i]))
    }
}

/// The frame of a call: each parameter bound to its argument, in order.
pub open spec fn bind(parameters: Seq<Seq<char>>, arguments: Seq<ValueView>) -> Map<
    Seq<char>,
    ValueView,
> {
    bind_from(parameters, arguments, 0, Map::empty())
}

/// What a top-level list of statements does to the context, and how it
/// ends: it runs in a fresh local frame, outside any function.
pub open spec fn run(statements: Seq<StatementView>, c: ContextView, depth: nat) -> (
    ContextView,
    Result<StatementResultView, RuntimeError>,
) {
    let o = eval_statements(statements, 0, Machine { context: c, locals: Map::empty() }, None, depth);
    (o.machine.context, o.result)
}

/// What a host function does to the context, and what it returns. `print`
/// asks the host to write a line; `sleep` asks it to wait; `read` takes the
/// next line of input, and at the end of the input the empty string.
pub open spec fn call_builtin(b: Builtin, args: Seq<ValueView>, c: ContextView) -> (
    ContextView,
    Result<ValueView, RuntimeError>,
) {
    match b {
        Builtin::Print => (
            ContextView { effects: c.effects.push(EffectView::Print(join_display(args))), ..c },
            Ok(ValueView::Bool(true)),
        ),
        Builtin::Read => if c.input.len() > 0 {
            (ContextView { input: c.input.drop_first(), ..c }, Ok(interpret_line(c.input[0])))
        } else if c.input_open {
            (c, Err(RuntimeError::InputPending))
        } else {
            (c, Ok(ValueView::Str(Seq::empty())))
        },
        Builtin::Sleep => match sleep_seconds(args) {
            Ok(n) => (
                ContextView { effects: c.effects.push(EffectView::Sleep(n)), ..c },
                Ok(ValueView::Bool(true)),
            ),
            Err(e) => (c, Err(e)),
        },
    }
}

/// A result that holds a value, as the result of an expression.
pub open spec fn as_expression_result(r: Result<ValueView, RuntimeError>) -> Result<
    ExpressionResultView,
    RuntimeError,
> {
    match r {
        Ok(v) => Ok(ExpressionResultView::Value(v)),
        Err(e) => Err(e),
    }
}

/// What a call makes of the way its body ended: the value returned, the
/// empty string where the body ran to its end, a jump passed on.
pub open spec fn as_call_result(r: Result<StatementResultView, RuntimeError>) -> Result<
    ExpressionResultView,
    RuntimeError,
> {
    match r {
        Ok(StatementResultView::Return(v)) => Ok(ExpressionResultView::Value(v)),
        Ok(StatementResultView::Goto(l)) => Ok(ExpressionResultView::Goto(l)),
        Ok(StatementResultView::Continue) => Ok(
            ExpressionResultView::Value(ValueView::Str(Seq::empty())),
        ),
        Err(e) => Err(e),
    }
}

/// The evaluation of an expression. `current` is the function being
/// executed, if any; `depth` is how many calls may still nest.
pub open spec fn eval_expression(
    e: ExpressionView,
    m: Machine,
    current: Option<int>,
    depth: nat,
) -> Outcome<ExpressionResultView>
    decreases depth, 0nat, e, 0nat,
{
    match e {
        ExpressionView::Str(s) => Outcome {
            machine: m,
            result: Ok(ExpressionResultView::Value(ValueView::Str(s))),
        },
        ExpressionView::Int(i) => Outcome {
            machine: m,
            result: Ok(ExpressionResultView::Value(ValueView::Int(i))),
        },
        ExpressionView::Boolean(b) => Outcome {
            machine: m,
            result: Ok(ExpressionResultView::Value(ValueView::Bool(b))),
        },
        ExpressionView::Ident(name) => match lookup(m, current, name) {
            Some(v) => Outcome { machine: m, result: Ok(ExpressionResultView::Value(v)) },
            None => Outcome { machine: m, result: Err(RuntimeError::UndeclaredVariable) },
        },
        ExpressionView::OperatorExpression { operator, left, right } => {
            let l = eval_expression(*left, m, current, depth);
            match l.result {
                Ok(ExpressionResultView::Value(lv)) => {
                    let r = eval_expression(*right, l.machine, current, depth);
                    match r.result {
                        Ok(ExpressionResultView::Value(rv)) => Outcome {
                            machine: r.machine,
                            result: as_expression_result(binary(operator, lv, rv)),
                        },
                        _ => r,
                    }
                },
                _ => l,
            }
        },
        ExpressionView::UnaryExpression { operator, expression } => {
            let o = eval_expression(*expression, m, current, depth);
            match o.result {
                Ok(ExpressionResultView::Value(v)) => Outcome {
                    machine: o.machine,
                    result: as_expression_result(unary(operator, v)),
                },
                _ => o,
            }
        },
        ExpressionView::FunctionCall { name, arguments } => match builtin_named(name) {
            Some(b) => {
                let a = eval_arguments(arguments, 0, Seq::empty(), m, current, depth);
                match a.result {
                    Ok(ArgumentsView::Values(vs)) => {
                        let done = call_builtin(b, vs, a.machine.context);
                        Outcome {
                            machine: Machine { context: done.0, ..a.machine },
                            result: as_expression_result(done.1),
                        }
                    },
                    Ok(ArgumentsView::Goto(l)) => Outcome {
                        machine: a.machine,
                        result: Ok(ExpressionResultView::Goto(l)),
                    },
                    Err(e) => Outcome { machine: a.machine, result: Err(e) },
                }
            },
            None => match function_index(m.context.functions, name) {
                None => Outcome { machine: m, result: Err(RuntimeError::UnknownFunction) },
                Some(f) => if arguments.len() != m.context.functions[f].parameters.len() {
                    Outcome { machine: m, result: Err(RuntimeError::Arity) }
                } else {
                    let a = eval_arguments(arguments, 0, Seq::empty(), m, current, depth);
                    match a.result {
                        Ok(ArgumentsView::Values(vs)) => if depth == 0 || !(0 <= f
                            < a.machine.context.functions.len()) {
                            Outcome { machine: a.machine, result: Err(RuntimeError::CallDepth) }
                        } else {
                            let function = a.machine.context.functions[f];
                            let body = eval_statements(
                                function.statements,
                                0,
                                Machine {
                                    context: a.machine.context,
                                    locals: bind(function.parameters, vs),
                                },
                                Some(f),
                                (depth - 1) as nat,
                            );
                            Outcome {
                                machine: Machine {
                                    context: body.machine.context,
                                    locals: a.machine.locals,
                                },
                                result: as_call_result(body.result),
                            }
                        },
                        Ok(ArgumentsView::Goto(l)) => Outcome {
                            machine: a.machine,
                            result: Ok(ExpressionResultView::Goto(l)),
                        },
                        Err(e) => Outcome { machine: a.machine, result: Err(e) },
                    }
                },
            },
        },
    }
}

/// The evaluation of the arguments of a call from the `i`-th on, left to
/// right, behind the values `done` of those before.
pub open spec fn eval_arguments(
    arguments: Seq<ExpressionView>,
    i: int,
    done: Seq<ValueView>,
    m: Machine,
    current: Option<int>,
    depth: nat,
) -> Outcome<ArgumentsView>
    decreases depth, 0nat, arguments, arguments.len() - i,
{
    if i < 0 || i >= arguments.len() {
        Outcome { machine: m, result: Ok(ArgumentsView::Values(done)) }
    } else {
        let o = eval_expression(arguments[i], m, current, depth);
        match o.result {
            Ok(ExpressionResultView::Value(v)) => eval_arguments(
                arguments,
                i + 1,
                done.push(v),
                o.machine,
                current,
                depth,
            ),
            Ok(ExpressionResultView::Goto(l)) => Outcome {
                machine: o.machine,
                result: Ok(ArgumentsView::Goto(l)),
            },
            Err(e) => Outcome { machine: o.machine, result: Err(e) },
        }
    }
}

/// The state and the result of a statement whose expression raised a jump
/// or failed; for a value, what `then` makes of it.
pub open spec fn pass_on(o: Outcome<ExpressionResultView>) -> Outcome<StatementResultView> {
    Outcome {
        machine: o.machine,
        result: match o.result {
            Ok(ExpressionResultView::Goto(l)) => Ok(StatementResultView::Goto(l)),
            Ok(ExpressionResultView::Value(_)) => Ok(StatementResultView::Continue),
            Err(e) => Err(e),
        },
    }
}

/// The evaluation of one statement.
pub open spec fn eval_statement(
    s: StatementView,
    m: Machine,
    current: Option<int>,
    depth: nat,
) -> Outcome<StatementResultView>
    decreases depth, 1nat, s, 0nat,
{
    match s {
        StatementView::Goto(e) => {
            let o = eval_expression(e, m, current, depth);
            match o.result {
                Ok(ExpressionResultView::Value(ValueView::Str(l))) => Outcome {
                    machine: o.machine,
                    result: Ok(StatementResultView::Goto(l)),
                },
                Ok(ExpressionResultView::Value(_)) => Outcome {
                    machine: o.machine,
                    result: Err(RuntimeError::Type),
                },
                _ => pass_on(o),
            }
        },
        StatementView::Declare { pattern, name, expression } => match pattern {
            Pattern::Global => if m.context.global_variables.contains_key(name) {
                Outcome { machine: m, result: Ok(StatementResultView::Continue) }
            } else {
                let o = eval_expression(expression, m, current, depth);
                match o.result {
                    Ok(ExpressionResultView::Value(v)) => Outcome {
                        machine: Machine {
                            context: with_global(o.machine.context, name, v),
                            ..o.machine
                        },
                        result: Ok(StatementResultView::Continue),
                    },
                    _ => pass_on(o),
                }
            },
            Pattern::Static => if current is None {
                Outcome { machine: m, result: Err(RuntimeError::Scope) }
            } else if statics_of(m.context, current).contains_key(name) {
                Outcome { machine: m, result: Ok(StatementResultView::Continue) }
            } else {
                let o = eval_expression(expression, m, current, depth);
                match o.result {
                    Ok(ExpressionResultView::Value(v)) => if 0 <= current.unwrap()
                        < o.machine.context.functions.len() {
                        Outcome {
                            machine: Machine {
                                context: with_static(o.machine.context, current.unwrap(), name, v),
                                ..o.machine
                            },
                            result: Ok(StatementResultView::Continue),
                        }
                    } else {
                        Outcome { machine: o.machine, result: Err(RuntimeError::Scope) }
                    },
                    _ => pass_on(o),
                }
            },
            Pattern::Var => if m.locals.contains_key(name) {
                Outcome { machine: m, result: Err(RuntimeError::Redeclaration) }
            } else {
                let o = eval_expression(expression, m, current, depth);
                match o.result {
                    Ok(ExpressionResultView::Value(v)) => Outcome {
                        machine: Machine { locals: o.machine.locals.insert(name, v), ..o.machine },
                        result: Ok(StatementResultView::Continue),
                    },
                    _ => pass_on(o),
                }
            },
        },
        StatementView::Assignment { name, expression } => {
            let o = eval_expression(expression, m, current, depth);
            match o.result {
                Ok(ExpressionResultView::Value(v)) => match assign(o.machine, current, name, v) {
                    Some(next) => Outcome {
                        machine: next,
                        result: Ok(StatementResultView::Continue),
                    },
                    None => Outcome {
                        machine: o.machine,
                        result: Err(RuntimeError::UndeclaredVariable),
                    },
                },
                _ => pass_on(o),
            }
        },
        StatementView::If { conditional, statements, else_statements } => {
            let o = eval_expression(conditional, m, current, depth);
            match o.result {
                Ok(ExpressionResultView::Value(v)) => if truthy(v) {
                    eval_statements(statements, 0, o.machine, current, depth)
                } else {
                    match else_statements {
                        Some(otherwise) => eval_statements(
                            otherwise,
                            0,
                            o.machine,
                            current,
                            depth,
                        ),
                        None => pass_on(o),
                    }
                },
                _ => pass_on(o),
            }
        },
        StatementView::Function { name, parameters, statements } => if current is Some {
            Outcome { machine: m, result: Err(RuntimeError::NestedFunction) }
        } else {
            Outcome {
                machine: Machine {
                    context: with_function(
                        m.context,
                        FunctionView {
                            name,
                            parameters,
                            statements,
                            static_variables: Map::empty(),
                        },
                    ),
                    ..m
                },
                result: Ok(StatementResultView::Continue),
            }
        },
        StatementView::Expression(e) => pass_on(eval_expression(e, m, current, depth)),
        StatementView::Return(e) => {
            let o = eval_expression(e, m, current, depth);
            match o.result {
                Ok(ExpressionResultView::Value(v)) => Outcome {
                    machine: o.machine,
                    result: if current is None {
                        Err(RuntimeError::Control)
                    } else {
                        Ok(StatementResultView::Return(v))
                    },
                },
                _ => pass_on(o),
            }
        },
    }
}

/// The evaluation of a list of statements from the `i`-th on: in order,
/// until one jumps, returns or fails.
pub open spec fn eval_statements(
    statements: Seq<StatementView>,
    i: int,
    m: Machine,
    current: Option<int>,
    depth: nat,
) -> Outcome<StatementResultView>
    decreases depth, 1nat, statements, statements.len() - i,
{
    if i < 0 || i >= statements.len() {
        Outcome { machine: m, result: Ok(StatementResultView::Continue) }
    } else {
        let o = eval_statement(statements[i], m, current, depth);
        match o.result {
            Ok(StatementResultView::Continue) => eval_statements(
                statements,
                i + 1,
                o.machine,
                current,
                depth,
            ),
            _ => o,
        }
    }
}

} // verus!
