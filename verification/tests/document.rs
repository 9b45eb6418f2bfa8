use rundown::builtins::Effect;
use rundown::document::{construct_index, Block, ContentBlock};
use rundown::error::RuntimeError;
use rundown::eval::Context;
use rundown::grammar::ParseError;
use rundown::navigator::{run_section, Navigator, RunError};

fn header(text: &str) -> Block {
    Block::Header(text.to_string())
}

fn code(source: &str) -> Block {
    Block::CodeBlock {
        syntax: Some("rundown".to_string()),
        content: source.to_string(),
        markdown: format!("```rundown\n{}\n```", source),
    }
}

fn prose(text: &str) -> Block {
    Block::Other(text.to_string())
}

fn rendered(text: &str) -> Effect {
    Effect::Render(text.to_string())
}

#[test]
fn headings_become_slugs() {
    let index = construct_index(&vec![header("Hello, World!"), prose("p"), header("ÆTHER  Wind")]);
    assert_eq!(index.len(), 3);
    assert_eq!(index.section(0).unwrap().0, "intro");
    assert_eq!(index.section(1).unwrap().0, "hello-world");
    assert_eq!(index.section(2).unwrap().0, "aether-wind");
    assert_eq!(index.position(&"hello-world".to_string()), Some(1));
    assert_eq!(index.position(&"Hello, World!".to_string()), None);
    assert!(index.section(3).is_none());
}

#[test]
fn headings_are_folded_to_lower_case_first() {
    let index = construct_index(&vec![header("\u{212A}elvin Scale")]);
    assert_eq!(index.section(1).unwrap().0, "kelvin-scale");
    assert_eq!(index.position(&"kelvin-scale".to_string()), Some(1));
}

#[test]
fn repeated_headings_share_a_section() {
    let index = construct_index(&vec![
        prose("before"),
        header("One"),
        prose("a"),
        header("Two"),
        prose("b"),
        header("one"),
        prose("c"),
    ]);
    assert_eq!(index.len(), 3);
    assert_eq!(index.section(0).unwrap().1, &vec![ContentBlock::Prose("before".to_string())]);
    assert_eq!(
        index.section(1).unwrap().1,
        &vec![ContentBlock::Prose("a".to_string()), ContentBlock::Prose("c".to_string())]
    );
    assert_eq!(index.section(2).unwrap().1, &vec![ContentBlock::Prose("b".to_string())]);
}

#[test]
fn an_empty_document_has_an_empty_intro() {
    let index = construct_index(&vec![]);
    assert_eq!(index.len(), 1);
    assert_eq!(index.section(0).unwrap().0, "intro");
    assert_eq!(index.section(0).unwrap().1.len(), 0);
}

#[test]
fn only_tagged_code_blocks_are_code() {
    let index = construct_index(&vec![
        code("x"),
        Block::CodeBlock {
            syntax: Some("python".to_string()),
            content: "y".to_string(),
            markdown: "```python\ny\n```".to_string(),
        },
        Block::CodeBlock { syntax: None, content: "z".to_string(), markdown: "    z".to_string() },
    ]);
    assert_eq!(
        index.section(0).unwrap().1,
        &vec![
            ContentBlock::Code("x".to_string()),
            ContentBlock::Prose("```python\ny\n```".to_string()),
            ContentBlock::Prose("    z".to_string())
        ]
    );
}

#[test]
fn sections_run_in_order() {
    let index = construct_index(&vec![
        prose("welcome"),
        code("declare global n = 1 print(n)"),
        header("Next"),
        code("n = n + 1 print(n)"),
        prose("bye"),
    ]);
    let mut navigator = Navigator::new(index);
    let mut context = Context::new(64);
    assert_eq!(navigator.current(), Some("intro".to_string()));
    assert_eq!(navigator.step(&mut context), Ok(()));
    assert_eq!(navigator.pc(), 1);
    assert_eq!(navigator.current(), Some("next".to_string()));
    assert!(!navigator.finished());
    assert_eq!(navigator.step(&mut context), Ok(()));
    assert_eq!(navigator.pc(), 2);
    assert!(navigator.finished());
    assert_eq!(navigator.current(), None);
    assert_eq!(navigator.step(&mut context), Ok(()));
    assert_eq!(navigator.pc(), 2);
    assert_eq!(
        context.take_effects(),
        vec![
            rendered("welcome"),
            Effect::Print("1".to_string()),
            Effect::Print("2".to_string()),
            rendered("bye")
        ]
    );
}

#[test]
fn goto_moves_the_counter_to_the_named_section() {
    let index = construct_index(&vec![
        code("goto 'other'"),
        prose("never shown"),
        header("Middle"),
        prose("skipped"),
        header("Other"),
        prose("arrived"),
    ]);
    let mut navigator = Navigator::new(index);
    let mut context = Context::new(64);
    assert_eq!(navigator.step(&mut context), Ok(()));
    assert_eq!(navigator.pc(), 2);
    assert_eq!(navigator.current(), Some("other".to_string()));
    assert_eq!(navigator.step(&mut context), Ok(()));
    assert!(navigator.finished());
    assert_eq!(context.take_effects(), vec![rendered("arrived")]);
}

#[test]
fn goto_may_go_back() {
    let index = construct_index(&vec![
        code("declare global visits = 0"),
        header("Loop"),
        code("visits = visits + 1 if visits == 3 { goto 'end' } goto 'loop'"),
        header("End"),
        code("print(visits)"),
    ]);
    let mut navigator = Navigator::new(index);
    let mut context = Context::new(64);
    let mut steps = 0;
    while !navigator.finished() {
        assert_eq!(navigator.step(&mut context), Ok(()));
        steps += 1;
    }
    assert_eq!(steps, 5);
    assert_eq!(context.take_effects(), vec![Effect::Print("3".to_string())]);
}

#[test]
fn goto_to_an_unknown_section_fails() {
    let index = construct_index(&vec![code("goto 'nowhere'"), header("Somewhere")]);
    let mut navigator = Navigator::new(index);
    let mut context = Context::new(64);
    assert_eq!(navigator.step(&mut context), Err(RunError::Navigation));
    assert_eq!(navigator.pc(), 0);
}

#[test]
fn advance_follows_the_jump() {
    let index = construct_index(&vec![header("A"), header("B")]);
    let mut navigator = Navigator::new(index);
    assert_eq!(navigator.advance(&Some("b".to_string())), Ok(()));
    assert_eq!(navigator.pc(), 2);
    let index = construct_index(&vec![header("A"), header("B")]);
    let mut navigator = Navigator::new(index);
    assert_eq!(navigator.advance(&None), Ok(()));
    assert_eq!(navigator.pc(), 1);
    assert_eq!(navigator.advance(&Some("intro".to_string())), Ok(()));
    assert_eq!(navigator.pc(), 0);
    assert_eq!(navigator.advance(&Some("c".to_string())), Err(RunError::Navigation));
    assert_eq!(navigator.pc(), 0);
}

#[test]
fn script_errors_end_the_run() {
    let mut context = Context::new(64);
    assert_eq!(
        run_section(&vec![ContentBlock::Code("return 1".to_string())], &mut context),
        Err(RunError::Runtime(RuntimeError::Control))
    );
    assert_eq!(
        run_section(&vec![ContentBlock::Code("1 / 0".to_string())], &mut context),
        Err(RunError::Runtime(RuntimeError::DivisionByZero))
    );
    assert_eq!(
        run_section(
            &vec![
                ContentBlock::Code("print('ran')".to_string()),
                ContentBlock::Code("print('not run') }".to_string()),
                ContentBlock::Prose("not shown".to_string())
            ],
            &mut context
        ),
        Err(RunError::Parse(ParseError { position: 17 }))
    );
    assert_eq!(context.take_effects(), vec![Effect::Print("ran".to_string())]);
}

#[test]
fn a_jump_skips_the_rest_of_the_section() {
    let mut context = Context::new(64);
    assert_eq!(
        run_section(
            &vec![
                ContentBlock::Prose("shown".to_string()),
                ContentBlock::Code("goto 'x'".to_string()),
                ContentBlock::Prose("not shown".to_string())
            ],
            &mut context
        ),
        Ok(Some("x".to_string()))
    );
    assert_eq!(context.take_effects(), vec![rendered("shown")]);
}
