use rundown::ast::{Expression, Operator, Pattern, Statement, UnaryOperator};
use rundown::builtins::{builtins, find_builtin, print, read, sleep, Builtin, Effect};
use rundown::error::RuntimeError;
use rundown::eval::{Context, ExpressionResult, StatementResult};
use rundown::grammar::ParseError;
use rundown::parser::parse;
use rundown::scope::Scope;
use rundown::text::{parse_int, render_int};
use rundown::value::Value;

fn run(context: &mut Context, source: &str) -> Result<StatementResult, RuntimeError> {
    let statements = parse(source).expect("the source parses");
    context.eval(&statements)
}

fn value_of(source: &str) -> Result<ExpressionResult, RuntimeError> {
    let statements = parse(source).expect("the source parses");
    assert_eq!(statements.len(), 1);
    let expression = match &statements[0] {
        Statement::Expression(e) => (**e).clone(),
        other => panic!("not an expression: {:?}", other),
    };
    let mut context = Context::new(64);
    let mut locals = Scope::new();
    context.eval_expression(&expression, &mut locals, None, 64)
}

fn text(s: &str) -> Value {
    Value::Str(s.to_string())
}

fn global(context: &Context, name: &str) -> Option<Value> {
    context.global(&name.to_string())
}

#[test]
fn integer_literals_round_trip() {
    for n in [0i64, 7, 42, -1, -300, i64::MAX, i64::MIN] {
        let source = format!("{}", n);
        let statements = parse(&source).unwrap();
        assert_eq!(statements, vec![Statement::Expression(Box::new(Expression::Int(n)))]);
        assert_eq!(value_of(&source), Ok(ExpressionResult::Value(Value::Int(n))));
    }
}

#[test]
fn integer_literal_out_of_range_is_rejected() {
    assert_eq!(parse("9223372036854775808"), Err(ParseError { position: 0 }));
    assert!(parse("9223372036854775807").is_ok());
}

#[test]
fn global_declare_is_idempotent() {
    let mut context = Context::new(64);
    assert_eq!(run(&mut context, "declare global x = 1"), Ok(StatementResult::Continue));
    assert_eq!(run(&mut context, "declare global x = 2"), Ok(StatementResult::Continue));
    assert_eq!(global(&context, "x"), Some(Value::Int(1)));
}

#[test]
fn global_redeclare_does_not_evaluate_the_initializer() {
    let mut context = Context::new(64);
    run(&mut context, "declare global x = 1; declare global x = print('again')").unwrap();
    assert_eq!(context.take_effects(), vec![]);
    assert_eq!(global(&context, "x"), Some(Value::Int(1)));
}

#[test]
fn local_redeclare_fails() {
    let mut context = Context::new(64);
    assert_eq!(run(&mut context, "declare x = 1\ndeclare x = 2"), Err(RuntimeError::Redeclaration));
}

#[test]
fn locals_do_not_outlive_their_frame() {
    let mut context = Context::new(64);
    assert_eq!(run(&mut context, "declare x = 1"), Ok(StatementResult::Continue));
    assert_eq!(run(&mut context, "declare x = 2"), Ok(StatementResult::Continue));
    assert_eq!(run(&mut context, "x"), Err(RuntimeError::UndeclaredVariable));
}

#[test]
fn add_is_left_driven() {
    assert_eq!(value_of("\"ab\" + 3"), Ok(ExpressionResult::Value(text("ab3"))));
    assert_eq!(value_of("3 + \"ab\""), Err(RuntimeError::Type));
    assert_eq!(value_of("'ab' + true"), Ok(ExpressionResult::Value(text("abtrue"))));
    assert_eq!(value_of("'ab' + -12"), Ok(ExpressionResult::Value(text("ab-12"))));
    assert_eq!(value_of("true + 1"), Err(RuntimeError::Type));
    assert_eq!(value_of("2 + 3"), Ok(ExpressionResult::Value(Value::Int(5))));
}

#[test]
fn arithmetic_on_integers() {
    assert_eq!(value_of("7 - 10"), Ok(ExpressionResult::Value(Value::Int(-3))));
    assert_eq!(value_of("6 * 7"), Ok(ExpressionResult::Value(Value::Int(42))));
    assert_eq!(value_of("7 / 2"), Ok(ExpressionResult::Value(Value::Int(3))));
    assert_eq!(value_of("-7 / 2"), Ok(ExpressionResult::Value(Value::Int(-3))));
    assert_eq!(value_of("7 / -2"), Ok(ExpressionResult::Value(Value::Int(-3))));
    assert_eq!(value_of("-7 / -2"), Ok(ExpressionResult::Value(Value::Int(3))));
    assert_eq!(value_of("7 % 3"), Ok(ExpressionResult::Value(Value::Int(1))));
    assert_eq!(value_of("-7 % 3"), Ok(ExpressionResult::Value(Value::Int(-1))));
    assert_eq!(value_of("7 % -3"), Ok(ExpressionResult::Value(Value::Int(1))));
    assert_eq!(value_of("1 / 0"), Err(RuntimeError::DivisionByZero));
    assert_eq!(value_of("1 % 0"), Err(RuntimeError::DivisionByZero));
    assert_eq!(value_of("'a' - 1"), Err(RuntimeError::Type));
    assert_eq!(value_of("1 * true"), Err(RuntimeError::Type));
}

#[test]
fn arithmetic_overflow_is_an_error() {
    assert_eq!(value_of("9223372036854775807 + 1"), Err(RuntimeError::Overflow));
    assert_eq!(value_of("-9223372036854775808 - 1"), Err(RuntimeError::Overflow));
    assert_eq!(value_of("4611686018427387904 * 2"), Err(RuntimeError::Overflow));
    assert_eq!(value_of("-9223372036854775808 / -1"), Err(RuntimeError::Overflow));
    assert_eq!(value_of("-9223372036854775808 % -1"), Ok(ExpressionResult::Value(Value::Int(0))));
    assert_eq!(value_of("-(-9223372036854775808)"), Err(RuntimeError::Overflow));
}

#[test]
fn precedence_is_conventional() {
    assert_eq!(value_of("1 + 2 * 3"), Ok(ExpressionResult::Value(Value::Int(7))));
    assert_eq!(value_of("(1 + 2) * 3"), Ok(ExpressionResult::Value(Value::Int(9))));
    assert_eq!(value_of("10 - 4 - 3"), Ok(ExpressionResult::Value(Value::Int(3))));
    assert_eq!(value_of("1 + 1 == 2"), Ok(ExpressionResult::Value(Value::Bool(true))));
    assert_eq!(value_of("1 == 2 or 3 == 3 and 0"), Ok(ExpressionResult::Value(Value::Bool(false))));
    assert_eq!(value_of("1 == 1 or 0 and 0"), Ok(ExpressionResult::Value(Value::Bool(true))));
    assert_eq!(value_of("not 0 and 1"), Ok(ExpressionResult::Value(Value::Bool(true))));
}

#[test]
fn logic_uses_truthiness() {
    assert_eq!(value_of("'' or 0"), Ok(ExpressionResult::Value(Value::Bool(false))));
    assert_eq!(value_of("'x' and 5"), Ok(ExpressionResult::Value(Value::Bool(true))));
    assert_eq!(value_of("not ''"), Ok(ExpressionResult::Value(Value::Bool(true))));
    assert_eq!(value_of("not 3"), Ok(ExpressionResult::Value(Value::Bool(false))));
    assert_eq!(value_of("- 'x'"), Err(RuntimeError::Type));
    assert_eq!(value_of("- (2)"), Ok(ExpressionResult::Value(Value::Int(-2))));
}

#[test]
fn truthiness_of_values() {
    assert!(!text("").as_bool());
    assert!(text("false").as_bool());
    assert!(!Value::Int(0).as_bool());
    assert!(Value::Int(-1).as_bool());
    assert!(Value::Bool(true).as_bool());
    assert!(!Value::Bool(false).as_bool());
}

#[test]
fn equality_is_total() {
    assert_eq!(value_of("1 == true"), Ok(ExpressionResult::Value(Value::Bool(false))));
    assert_eq!(
        Value::binary(Operator::Equals, &Value::Int(1), Value::Bool(true)),
        Ok(Value::Bool(false))
    );
    assert_eq!(value_of("'a' == 'a'"), Ok(ExpressionResult::Value(Value::Bool(true))));
    assert_eq!(value_of("'1' == 1"), Ok(ExpressionResult::Value(Value::Bool(false))));
    assert_eq!(value_of("false == false"), Ok(ExpressionResult::Value(Value::Bool(true))));
    assert_eq!(value_of("2 == 3"), Ok(ExpressionResult::Value(Value::Bool(false))));
}

#[test]
fn both_operands_are_always_evaluated() {
    let mut context = Context::new(64);
    run(&mut context, "print('l') or print('r')").unwrap();
    assert_eq!(
        context.take_effects(),
        vec![Effect::Print("l".to_string()), Effect::Print("r".to_string())]
    );
}

#[test]
fn sleep_checks_its_argument() {
    assert_eq!(value_of("sleep(-1)"), Err(RuntimeError::InvalidArgument));
    assert_eq!(value_of("sleep(0)"), Ok(ExpressionResult::Value(Value::Bool(true))));
    assert_eq!(value_of("sleep('x')"), Err(RuntimeError::Type));
    assert_eq!(value_of("sleep()"), Err(RuntimeError::InvalidArgument));
    assert_eq!(value_of("sleep(1, 2)"), Err(RuntimeError::InvalidArgument));
    assert_eq!(sleep(&vec![Value::Int(3)]), Ok(3));
    let mut context = Context::new(64);
    run(&mut context, "sleep(0) sleep(2)").unwrap();
    assert_eq!(context.take_effects(), vec![Effect::Sleep(0), Effect::Sleep(2)]);
}

#[test]
fn print_joins_display_forms() {
    assert_eq!(print(&vec![]), "");
    assert_eq!(print(&vec![Value::Int(-5)]), "-5");
    assert_eq!(print(&vec![text("a"), Value::Int(10), Value::Bool(false)]), "a 10 false");
    let mut context = Context::new(64);
    assert_eq!(run(&mut context, "print('x', 1 + 1, true)"), Ok(StatementResult::Continue));
    assert_eq!(context.take_effects(), vec![Effect::Print("x 2 true".to_string())]);
    assert_eq!(context.take_effects(), vec![]);
}

#[test]
fn read_interprets_a_line() {
    assert_eq!(read("TrUe".to_string()), Value::Bool(true));
    assert_eq!(read("false".to_string()), Value::Bool(false));
    assert_eq!(read("42".to_string()), Value::Int(42));
    assert_eq!(read("-42".to_string()), Value::Int(-42));
    assert_eq!(read("+7".to_string()), Value::Int(7));
    assert_eq!(read("42\n".to_string()), text("42\n"));
    assert_eq!(read("true\n".to_string()), text("true\n"));
    assert_eq!(read("hello".to_string()), text("hello"));
    assert_eq!(read("".to_string()), text(""));
    assert_eq!(read("99999999999999999999".to_string()), text("99999999999999999999"));
}

#[test]
fn read_takes_lines_in_order() {
    let mut context = Context::new(64);
    context.push_input("7".to_string());
    context.push_input("yes".to_string());
    run(&mut context, "declare global a = read() declare global b = read(1, 2) declare global c = read()").unwrap();
    assert_eq!(global(&context, "a"), Some(Value::Int(7)));
    assert_eq!(global(&context, "b"), Some(text("yes")));
    assert_eq!(global(&context, "c"), Some(text("")));
}

#[test]
fn builtins_are_three() {
    let table = builtins();
    assert_eq!(
        table,
        vec![
            ("read".to_string(), Builtin::Read),
            ("print".to_string(), Builtin::Print),
            ("sleep".to_string(), Builtin::Sleep)
        ]
    );
    assert_eq!(find_builtin(&"print".to_string()), Some(Builtin::Print));
    assert_eq!(find_builtin(&"Print".to_string()), None);
}

#[test]
fn builtins_come_before_defined_functions() {
    let mut context = Context::new(64);
    run(&mut context, "function print(x) { return 5 } declare global r = print('hi')").unwrap();
    assert_eq!(global(&context, "r"), Some(Value::Bool(true)));
    assert_eq!(context.take_effects(), vec![Effect::Print("hi".to_string())]);
}

#[test]
fn statics_persist_and_locals_reset() {
    let mut context = Context::new(64);
    let source = "
        function counter() {
            declare static n = 0
            declare m = 0
            n = n + 1
            m = m + 1
            return n * 10 + m
        }
        declare global first = counter()
        declare global second = counter()
    ";
    assert_eq!(run(&mut context, source), Ok(StatementResult::Continue));
    assert_eq!(global(&context, "first"), Some(Value::Int(11)));
    assert_eq!(global(&context, "second"), Some(Value::Int(21)));
    run(&mut context, "declare global third = counter()").unwrap();
    assert_eq!(global(&context, "third"), Some(Value::Int(31)));
}

#[test]
fn redefining_a_function_resets_its_statics() {
    let mut context = Context::new(64);
    let define = "function f() { declare static n = 0; n = n + 1; return n }";
    run(&mut context, define).unwrap();
    run(&mut context, "declare global a = f() + f()").unwrap();
    run(&mut context, define).unwrap();
    run(&mut context, "declare global b = f()").unwrap();
    assert_eq!(global(&context, "a"), Some(Value::Int(3)));
    assert_eq!(global(&context, "b"), Some(Value::Int(1)));
}

#[test]
fn static_outside_a_function_fails() {
    let mut context = Context::new(64);
    assert_eq!(run(&mut context, "declare static x = 1"), Err(RuntimeError::Scope));
}

#[test]
fn nested_function_definition_fails() {
    let mut context = Context::new(64);
    let source = "function outer() { function inner() { return 1 } return 2 } outer()";
    assert_eq!(run(&mut context, source), Err(RuntimeError::NestedFunction));
}

#[test]
fn return_outside_a_function_fails() {
    let mut context = Context::new(64);
    assert_eq!(run(&mut context, "return 1"), Err(RuntimeError::Control));
    assert_eq!(run(&mut context, "if true { return 1 }"), Err(RuntimeError::Control));
}

#[test]
fn calls_check_name_and_arity() {
    let mut context = Context::new(64);
    assert_eq!(run(&mut context, "nothing()"), Err(RuntimeError::UnknownFunction));
    run(&mut context, "function two(a, b) { return a + b }").unwrap();
    assert_eq!(run(&mut context, "two(1)"), Err(RuntimeError::Arity));
    assert_eq!(run(&mut context, "two(1, 2, 3)"), Err(RuntimeError::Arity));
    run(&mut context, "declare global s = two('a', 2)").unwrap();
    assert_eq!(global(&context, "s"), Some(text("a2")));
}

#[test]
fn a_call_without_return_yields_the_empty_string() {
    let mut context = Context::new(64);
    run(&mut context, "function quiet() { declare x = 1 } declare global r = quiet()").unwrap();
    assert_eq!(global(&context, "r"), Some(text("")));
}

#[test]
fn runaway_recursion_hits_the_depth_limit() {
    let mut context = Context::new(16);
    run(&mut context, "function forever(n) { return forever(n + 1) }").unwrap();
    assert_eq!(run(&mut context, "forever(0)"), Err(RuntimeError::CallDepth));
    let mut shallow = Context::new(3);
    run(&mut shallow, "function down(n) { if n == 0 { return 0 } return down(n - 1) }").unwrap();
    assert_eq!(run(&mut shallow, "declare global a = down(2)"), Ok(StatementResult::Continue));
    assert_eq!(run(&mut shallow, "down(3)"), Err(RuntimeError::CallDepth));
}

#[test]
fn recursion_computes() {
    let mut context = Context::new(64);
    let source = "
        function fact(n) { if n == 0 { return 1 } else { return n * fact(n - 1) } }
        declare global r = fact(10)
    ";
    run(&mut context, source).unwrap();
    assert_eq!(global(&context, "r"), Some(Value::Int(3628800)));
}

#[test]
fn goto_propagates_out_of_blocks_and_calls() {
    let mut context = Context::new(64);
    assert_eq!(
        run(&mut context, "if 1 { goto 'there' } print('skipped')"),
        Ok(StatementResult::Goto("there".to_string()))
    );
    assert_eq!(context.take_effects(), vec![]);
    run(&mut context, "function leave() { goto 'out' }").unwrap();
    assert_eq!(
        run(&mut context, "declare x = 1 + leave() print('skipped')"),
        Ok(StatementResult::Goto("out".to_string()))
    );
    assert_eq!(run(&mut context, "goto 5"), Err(RuntimeError::Type));
    assert_eq!(run(&mut context, "goto 'a' + 1"), Ok(StatementResult::Goto("a1".to_string())));
}

#[test]
fn assignment_follows_the_scope_chain() {
    let mut context = Context::new(64);
    let source = "
        declare global g = 1
        function f() {
            declare static g = 10
            g = g + 1
            return g
        }
        function h() {
            g = g + 100
            return g
        }
        declare global a = f()
        declare global b = h()
        declare g = 5
        g = 6
        declare global c = g
    ";
    run(&mut context, source).unwrap();
    assert_eq!(global(&context, "a"), Some(Value::Int(11)));
    assert_eq!(global(&context, "b"), Some(Value::Int(101)));
    assert_eq!(global(&context, "c"), Some(Value::Int(6)));
    assert_eq!(global(&context, "g"), Some(Value::Int(101)));
    assert_eq!(run(&mut context, "missing = 1"), Err(RuntimeError::UndeclaredVariable));
}

#[test]
fn if_without_else_continues() {
    let mut context = Context::new(64);
    assert_eq!(run(&mut context, "if 0 { print('no') }"), Ok(StatementResult::Continue));
    assert_eq!(run(&mut context, "if '' { print('no') } else { print('yes') }"), Ok(StatementResult::Continue));
    assert_eq!(context.take_effects(), vec![Effect::Print("yes".to_string())]);
}

#[test]
fn parse_builds_the_tree() {
    let statements = parse("declare static total = - a * f(1, 'it''s')").unwrap();
    assert_eq!(
        statements,
        vec![Statement::Declare {
            pattern: Box::new(Pattern::Static),
            name: "total".to_string(),
            expression: Box::new(Expression::OperatorExpression {
                operator: Operator::Multiply,
                left: Box::new(Expression::UnaryExpression {
                    operator: UnaryOperator::Negative,
                    expression: Box::new(Expression::Ident("a".to_string())),
                }),
                right: Box::new(Expression::FunctionCall {
                    name: "f".to_string(),
                    arguments: vec![Expression::Int(1), Expression::Str("it's".to_string())],
                }),
            }),
        }]
    );
}

#[test]
fn parse_reads_every_statement_kind() {
    let source = "goto \"a\"; x = 1; declare global y = true; declare z = false
        if x == 1 { return x } else { f() }
        function f(a, b) { }
        not x";
    let statements = parse(source).unwrap();
    assert_eq!(statements.len(), 7);
    assert_eq!(statements[0], Statement::Goto(Box::new(Expression::Str("a".to_string()))));
    assert_eq!(
        statements[1],
        Statement::Assignment { name: "x".to_string(), expression: Box::new(Expression::Int(1)) }
    );
    assert_eq!(
        statements[2],
        Statement::Declare {
            pattern: Box::new(Pattern::Global),
            name: "y".to_string(),
            expression: Box::new(Expression::Boolean(true)),
        }
    );
    assert_eq!(
        statements[3],
        Statement::Declare {
            pattern: Box::new(Pattern::Var),
            name: "z".to_string(),
            expression: Box::new(Expression::Boolean(false)),
        }
    );
    assert_eq!(
        statements[4],
        Statement::If {
            conditional: Box::new(Expression::OperatorExpression {
                operator: Operator::Equals,
                left: Box::new(Expression::Ident("x".to_string())),
                right: Box::new(Expression::Int(1)),
            }),
            statements: vec![Statement::Return(Box::new(Expression::Ident("x".to_string())))],
            else_statements: Some(vec![Statement::Expression(Box::new(
                Expression::FunctionCall { name: "f".to_string(), arguments: vec![] }
            ))]),
        }
    );
    assert_eq!(
        statements[5],
        Statement::Function {
            name: "f".to_string(),
            parameters: vec!["a".to_string(), "b".to_string()],
            statements: vec![],
        }
    );
    assert_eq!(
        statements[6],
        Statement::Expression(Box::new(Expression::UnaryExpression {
            operator: UnaryOperator::Not,
            expression: Box::new(Expression::Ident("x".to_string())),
        }))
    );
}

#[test]
fn parse_rejects_the_whole_block() {
    assert_eq!(parse("declare x = 1\n)"), Err(ParseError { position: 14 }));
    assert_eq!(parse("x = "), Err(ParseError { position: 0 }));
    assert_eq!(parse("'open"), Err(ParseError { position: 0 }));
    assert_eq!(parse("if x { y"), Err(ParseError { position: 0 }));
    assert_eq!(parse("declare if = 1"), Err(ParseError { position: 0 }));
    assert_eq!(parse("f(1,)"), Err(ParseError { position: 0 }));
    assert_eq!(parse(""), Ok(vec![]));
    assert_eq!(parse("  ;; \n"), Ok(vec![]));
}

#[test]
fn string_literals_double_their_quote() {
    assert_eq!(value_of("'it''s'"), Ok(ExpressionResult::Value(text("it's"))));
    assert_eq!(value_of("\"say \"\"hi\"\"\""), Ok(ExpressionResult::Value(text("say \"hi\""))));
    assert_eq!(value_of("'a\\n'"), Ok(ExpressionResult::Value(text("a\\n"))));
    assert_eq!(value_of("''"), Ok(ExpressionResult::Value(text(""))));
    assert_eq!(value_of("'\"'"), Ok(ExpressionResult::Value(text("\""))));
}

#[test]
fn integers_render_and_read_in_decimal() {
    assert_eq!(render_int(0), "0");
    assert_eq!(render_int(-9223372036854775808), "-9223372036854775808");
    assert_eq!(render_int(1234567890), "1234567890");
    assert_eq!(parse_int(&"-9223372036854775808".chars().collect()), Some(i64::MIN));
    assert_eq!(parse_int(&"9223372036854775808".chars().collect()), None);
    assert_eq!(parse_int(&"007".chars().collect()), Some(7));
    assert_eq!(parse_int(&"-".chars().collect()), None);
    assert_eq!(parse_int(&"1x".chars().collect()), None);
    assert_eq!(parse_int(&"".chars().collect()), None);
}

#[test]
fn scope_binds_and_rebinds() {
    let mut scope = Scope::new();
    let name = "x".to_string();
    assert!(!scope.contains_key(&name));
    assert_eq!(scope.get(&name), None);
    scope.insert(&name, Value::Int(1));
    scope.insert(&"y".to_string(), Value::Int(2));
    scope.insert(&name, Value::Int(3));
    assert_eq!(scope.get(&name), Some(Value::Int(3)));
    assert_eq!(scope.get(&"y".to_string()), Some(Value::Int(2)));
    assert!(scope.contains_key(&name));
}

#[test]
fn nesting_is_limited() {
    let shallow = format!("{}1{}", "(".repeat(100), ")".repeat(100));
    assert_eq!(value_of(&shallow), Ok(ExpressionResult::Value(Value::Int(1))));
    let deep = format!("{}1{}", "(".repeat(200), ")".repeat(200));
    assert_eq!(parse(&deep), Err(ParseError { position: 0 }));
    let blocks = format!("{}{}", "if 1 { ".repeat(200), "}".repeat(200));
    assert_eq!(parse(&blocks), Err(ParseError { position: 0 }));
}

#[test]
fn calls_need_their_bracket_right_behind_the_name() {
    let statements = parse("f (1)").unwrap();
    assert_eq!(
        statements,
        vec![
            Statement::Expression(Box::new(Expression::Ident("f".to_string()))),
            Statement::Expression(Box::new(Expression::Int(1)))
        ]
    );
}

#[test]
fn negative_literals_and_subtraction() {
    assert_eq!(value_of("5 -3"), Ok(ExpressionResult::Value(Value::Int(2))));
    assert_eq!(value_of("5 - -3"), Ok(ExpressionResult::Value(Value::Int(8))));
    assert_eq!(value_of("-3 * -3"), Ok(ExpressionResult::Value(Value::Int(9))));
    let statements = parse("-x").unwrap();
    assert_eq!(
        statements,
        vec![Statement::Expression(Box::new(Expression::UnaryExpression {
            operator: UnaryOperator::Negative,
            expression: Box::new(Expression::Ident("x".to_string())),
        }))]
    );
}

#[test]
fn read_suspends_while_input_may_come() {
    let mut context = Context::new(64);
    context.set_input_open(true);
    context.push_input("1".to_string());
    assert_eq!(
        run(&mut context, "print('first') declare global a = read() print('second') read()"),
        Err(RuntimeError::InputPending)
    );
    assert_eq!(
        context.take_effects(),
        vec![Effect::Print("first".to_string()), Effect::Print("second".to_string())]
    );
    context.set_input_open(false);
    assert_eq!(run(&mut context, "declare global b = read()"), Ok(StatementResult::Continue));
    assert_eq!(global(&context, "a"), Some(Value::Int(1)));
    assert_eq!(global(&context, "b"), Some(text("")));
}
