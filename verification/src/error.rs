//! The errors of the runtime.

use vstd::prelude::*;

verus! {

/// Why the evaluation of a script failed. Every one of them is fatal.
#[derive(PartialEq, Eq, Debug, Clone, Copy, Structural)]
pub enum RuntimeError {
    /// A name was read or assigned that no scope in reach declares.
    UndeclaredVariable,
    /// A local name was declared twice in one frame.
    Redeclaration,
    /// A static variable was declared outside any function call.
    Scope,
    /// A function was defined inside a function body.
    NestedFunction,
    /// An operand or argument has the wrong type.
    Type,
    /// Division or remainder by zero.
    DivisionByZero,
    /// A call with the wrong number of arguments.
    Arity,
    /// A host function refused an argument's value.
    InvalidArgument,
    /// `return` outside any function call.
    Control,
    /// A call of a name that is neither a host function nor defined.
    UnknownFunction,
    /// An arithmetic result outside the 64-bit signed range.
    Overflow,
    /// Calls nested deeper than the context allows.
    CallDepth,
    /// `read` found no line waiting while more input may come. The script
    /// is not at fault: the host queues a line and runs again.
    InputPending,
}

} // verus!
