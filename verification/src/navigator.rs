//! The navigator: it runs the sections of a document one after the other,
//! and goes where a script tells it to.

use vstd::prelude::*;
use vstd::string::*;
use crate::builtins::EffectView;
use crate::document::{
    contents_view, position, ContentBlock, ContentBlockView, SectionIndex, SectionView,
};
use crate::error::RuntimeError;
use crate::eval::{Context, StatementResult};
use crate::grammar::{program, ParseError};
use crate::parser::parse;
use crate::semantics::{run, ContextView, StatementResultView};

verus! {

/// Why a run ended before the document did.
#[derive(PartialEq, Eq, Debug, Clone, Copy, Structural)]
pub enum RunError {
    /// A code block is no program.
    Parse(ParseError),
    /// A script failed.
    Runtime(RuntimeError),
    /// A script jumped to a section that the document does not have.
    Navigation,
}

/// Where the run goes after a section: to the section that a jump names,
/// where the document has it; past the section where nothing jumped.
pub open spec fn next_section(sections: Seq<SectionView>, pc: int, jump: Option<Seq<char>>) -> Result<
    int,
    RunError,
> {
    match jump {
        None => Ok(pc + 1),
        Some(label) => match position(sections, label) {
            Some(target) => Ok(target),
            None => Err(RunError::Navigation),
        },
    }
}

/// What the blocks of a section from the `i`-th on do to the context, and
/// how they end: with the label of a jump, with nothing where all of them
/// ran, or with an error. Prose is handed to the host; code is parsed as a
/// whole and then executed.
pub open spec fn run_blocks(blocks: Seq<ContentBlockView>, i: int, c: ContextView, depth: nat) -> (
    ContextView,
    Result<Option<Seq<char>>, RunError>,
)
    decreases blocks.len() - i,
{
    if i < 0 || i >= blocks.len() {
        (c, Ok(None))
    } else {
        match blocks[i] {
            ContentBlockView::Prose(text) => run_blocks(
                blocks,
                i + 1,
                ContextView { effects: c.effects.push(EffectView::Render(text)), ..c },
                depth,
            ),
            ContentBlockView::Code(source) => match program(source) {
                Err(e) => (c, Err(RunError::Parse(e))),
                Ok(statements) => {
                    let done = run(statements, c, depth);
                    match done.1 {
                        Ok(StatementResultView::Continue) => run_blocks(
                            blocks,
                            i + 1,
                            done.0,
                            depth,
                        ),
                        Ok(StatementResultView::Goto(label)) => (done.0, Ok(Some(label))),
                        Ok(StatementResultView::Return(_)) => (
                            done.0,
                            Err(RunError::Runtime(RuntimeError::Control)),
                        ),
                        Err(e) => (done.0, Err(RunError::Runtime(e))),
                    }
                },
            },
        }
    }
}

/// The view of a jump that may have been raised.
pub open spec fn jump_view(jump: Option<String>) -> Option<Seq<char>> {
    match jump {
        Some(label) => Some(label@),
        None => None,
    }
}

/// The view of how the blocks of a section ended.
pub open spec fn blocks_result_view(r: Result<Option<String>, RunError>) -> Result<
    Option<Seq<char>>,
    RunError,
> {
    match r {
        Ok(jump) => Ok(jump_view(jump)),
        Err(e) => Err(e),
    }
}

/// Runs the blocks of a section in order, up to the first jump or error.
pub fn run_section(blocks: &Vec<ContentBlock>, context: &mut Context) -> (r: Result<
    Option<String>,
    RunError,
>)
    ensures
        (final(context)@, blocks_result_view(r)) == run_blocks(
            contents_view(blocks@),
            0,
            old(context)@,
            old(context).depth_limit(),
        ),
        final(context).depth_limit() == old(context).depth_limit(),
{
    let ghost goal = run_blocks(contents_view(blocks@), 0, context@, context.depth_limit());
    let mut i: usize = 0;
    while i < blocks.len()
        invariant
            i <= blocks.len(),
            context.depth_limit() == old(context).depth_limit(),
            goal == run_blocks(
                contents_view(blocks@),
                0,
                old(context)@,
                old(context).depth_limit(),
            ),
            goal == run_blocks(contents_view(blocks@), i as int, context@, context.depth_limit()),
        decreases blocks.len() - i,
    {
        assert(contents_view(blocks@)[i as int] == blocks@[i as int]@);
        match &blocks[i] {
            ContentBlock::Prose(text) => {
                context.render(text.clone());
            },
            ContentBlock::Code(source) => {
                let statements = match parse(source.as_str()) {
                    Ok(statements) => statements,
                    Err(e) => {
                        return Err(RunError::Parse(e));
                    },
                };
                match context.eval(&statements) {
                    Ok(StatementResult::Continue) => {},
                    Ok(StatementResult::Goto(label)) => {
                        return Ok(Some(label));
                    },
                    Ok(StatementResult::Return(_)) => {
                        return Err(RunError::Runtime(RuntimeError::Control));
                    },
                    Err(e) => {
                        return Err(RunError::Runtime(e));
                    },
                }
            },
        }
        i += 1;
    }
    Ok(None)
}

/// The sections of a document and the place of the one that runs next.
#[derive(Debug)]
pub struct Navigator {
    sections: SectionIndex,
    pc: usize,
}

impl Navigator {
    /// The sections that the navigator runs.
    pub closed spec fn sections(&self) -> Seq<SectionView> {
        self.sections@
    }

    /// The program counter: the place of the section that runs next.
    pub closed spec fn counter(&self) -> int {
        self.pc as int
    }

    /// A navigator at the first section of `sections`.
    pub fn new(sections: SectionIndex) -> (r: Navigator)
        ensures
            r.sections() == sections@,
            r.counter() == 0,
    {
        Navigator { sections, pc: 0 }
    }

    /// The place of the section that runs next.
    pub fn pc(&self) -> (pc: usize)
        ensures
            pc == self.counter(),
    {
        self.pc
    }

    /// Whether the document is finished: the counter is past its last section.
    pub fn finished(&self) -> (b: bool)
        ensures
            b == (self.counter() >= self.sections().len()),
    {
        self.pc >= self.sections.len()
    }

    /// The name of the section that runs next, if the document is not
    /// finished.
    pub fn current(&self) -> (r: Option<String>)
        ensures
            match r {
                Some(name) => self.counter() < self.sections().len() && name@
                    == self.sections()[self.counter()].name,
                None => self.counter() >= self.sections().len(),
            },
    {
        match self.sections.section(self.pc) {
            Some((name, _)) => Some(name.clone()),
            None => None,
        }
    }

    /// Moves the counter as the end of a section asks: to the section that
    /// `jump` names, or to the next one. An unknown name is an error, and
    /// the counter stays.
    pub fn advance(&mut self, jump: &Option<String>) -> (r: Result<(), RunError>)
        requires
            old(self).counter() < old(self).sections().len(),
        ensures
            final(self).sections() == old(self).sections(),
            match next_section(old(self).sections(), old(self).counter(), jump_view(*jump)) {
                Ok(target) => r is Ok && final(self).counter() == target,
                Err(e) => r == Err::<(), RunError>(e) && final(self).counter() == old(
                    self,
                ).counter(),
            },
    {
        let n = self.sections.len();
        match jump {
            None => {
                self.pc = self.pc + 1;
                Ok(())
            },
            Some(label) => match self.sections.position(label) {
                Some(target) => {
                    self.pc = target;
                    Ok(())
                },
                None => Err(RunError::Navigation),
            },
        }
    }

    /// Runs the section at the counter and moves the counter. Where the
    /// document is finished, nothing happens.
    pub fn step(&mut self, context: &mut Context) -> (r: Result<(), RunError>)
        ensures
            final(self).sections() == old(self).sections(),
            final(context).depth_limit() == old(context).depth_limit(),
            old(self).counter() >= old(self).sections().len() ==> r is Ok && final(self).counter()
                == old(self).counter() && final(context)@ == old(context)@,
            old(self).counter() < old(self).sections().len() ==> ({
                let ran = run_blocks(
                    old(self).sections()[old(self).counter()].blocks,
                    0,
                    old(context)@,
                    old(context).depth_limit(),
                );
                &&& final(context)@ == ran.0
                &&& match ran.1 {
                    Ok(jump) => match next_section(
                        old(self).sections(),
                        old(self).counter(),
                        jump,
                    ) {
                        Ok(target) => r is Ok && final(self).counter() == target,
                        Err(e) => r == Err::<(), RunError>(e) && final(self).counter() == old(
                            self,
                        ).counter(),
                    },
                    Err(e) => r == Err::<(), RunError>(e) && final(self).counter() == old(
                        self,
                    ).counter(),
                }
            }),
    {
        let jump = match self.sections.section(self.pc) {
            Some((_, blocks)) => match run_section(blocks, context) {
                Ok(jump) => jump,
                Err(e) => {
                    return Err(e);
                },
            },
            None => {
                return Ok(());
            },
        };
        self.advance(&jump)
    }
}

} // verus!
