use vstd::prelude::*;

use crate::ast::Expression;
use crate::ast::Identifier;
use crate::env::Environment;
use std::rc::Rc;

verus! {

/// The reasons an evaluation can fail: a reference to a name that no frame
/// of the active environment binds, or a value whose shape is not the one
/// the enclosing form requires.
#[derive(Clone, Copy, Debug, PartialEq, Eq, Structural)]
pub enum EvalError {
    /// A looked-up name is bound by no frame of the environment chain.
    NameNotFound,
    /// A value had to be a number and was not.
    NotANumber,
    /// A value had to be a boolean and was not.
    NotABoolean,
    /// A value had to be a procedure and was not.
    NotAProcedure,
}

/// A procedure value: the formal parameter, the body expression (shared with
/// the syntax tree, never a second copy), and the environment in effect when
/// the procedure was made, which gives the language its lexical scoping.
#[derive(Debug)]
pub enum ProcType {
    Procedure { var: Identifier, body: Rc<Expression>, closure: Rc<Environment> },
}

/// A runtime value: the tagged union of everything an evaluation can
/// produce.  Values are immutable once produced.
#[derive(Debug)]
pub enum ExpVal {
    NumVal { val: i32 },
    BoolVal { val: bool },
    ProcVal { val: ProcType },
}

/// What one evaluation yields: a runtime value, a failure, or the admission
/// that the evaluation's fuel ran out before the source program finished.
#[derive(Debug)]
pub enum Outcome {
    /// The evaluation finished with this value.
    Value(ExpVal),
    /// The evaluation failed, and this is why.
    Error(EvalError),
    /// The source program needed more procedure applications than the given
    /// fuel allows; nothing is known of what it would eventually yield.
    OutOfFuel,
}

impl ExpVal {
    /// The number a value carries, or `NotANumber` for the other shapes.
    pub open spec fn spec_to_num(self) -> Result<i32, EvalError> {
        match self {
            ExpVal::NumVal { val } => Ok(val),
            _ => Err(EvalError::NotANumber),
        }
    }

    /// The boolean a value carries, or `NotABoolean` for the other shapes.
    pub open spec fn spec_to_bool(self) -> Result<bool, EvalError> {
        match self {
            ExpVal::BoolVal { val } => Ok(val),
            _ => Err(EvalError::NotABoolean),
        }
    }

    /// The procedure a value carries, or `NotAProcedure` for the other shapes.
    pub open spec fn spec_to_proc(self) -> Result<ProcType, EvalError> {
        match self {
            ExpVal::ProcVal { val } => Ok(val),
            _ => Err(EvalError::NotAProcedure),
        }
    }

    /// Narrows a value to a number; the sole way the evaluator reads one.
    pub fn toNum(&self) -> (r: Result<i32, EvalError>)
        ensures
            r == self.spec_to_num(),
    {
        match self {
            ExpVal::NumVal { val } => Ok(*val),
            _ => Err(EvalError::NotANumber),
        }
    }

    /// Narrows a value to a boolean; the sole way the evaluator reads one.
    pub fn toBool(&self) -> (r: Result<bool, EvalError>)
        ensures
            r == self.spec_to_bool(),
    {
        match self {
            ExpVal::BoolVal { val } => Ok(*val),
            _ => Err(EvalError::NotABoolean),
        }
    }

    /// Narrows a value to a procedure; the sole way the evaluator reads one.
    /// The pieces of the returned procedure are shared with `self`, not
    /// copied: its body and captured environment are cheap `Rc` handles.
    pub fn toProc(&self) -> (r: Result<ProcType, EvalError>)
        ensures
            r == self.spec_to_proc(),
    {
        match self {
            ExpVal::ProcVal { val: ProcType::Procedure { var, body, closure } } => Ok(
                ProcType::Procedure {
                    var: var.clone(),
                    body: body.clone(),
                    closure: closure.clone(),
                },
            ),
            _ => Err(EvalError::NotAProcedure),
        }
    }
}

impl Clone for ExpVal {
    /// Duplicates a value without touching the structures it shares: number
    /// and boolean tags are copied, and a procedure's body and captured
    /// environment are shared through their `Rc` handles.
    fn clone(&self) -> (res: Self)
        ensures
            res == *self,
    {
        match self {
            ExpVal::NumVal { val } => ExpVal::NumVal { val: *val },
            ExpVal::BoolVal { val } => ExpVal::BoolVal { val: *val },
            ExpVal::ProcVal { val: ProcType::Procedure { var, body, closure } } => ExpVal::ProcVal {
                val: ProcType::Procedure {
                    var: var.clone(),
                    body: body.clone(),
                    closure: closure.clone(),
                },
            },
        }
    }
}

} // verus!
