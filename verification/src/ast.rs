use vstd::prelude::*;

use std::rc::Rc;

verus! {

/// A binding name: an immutable string token, compared by value.
pub type Identifier = String;

/// The abstract syntax of the language: an immutable tree of expression
/// nodes, produced by an external parser and consumed by the evaluator.
///
/// Every compound node owns its sub-expressions, so the tree is acyclic and
/// never changes after construction.  The two nodes whose bodies end up
/// inside runtime structures — `ProcExp`, whose body a closure captures, and
/// `LetrecExp`, whose procedure body a recursive environment frame keeps —
/// hold those bodies behind `Rc`, so that a closure shares the tree instead
/// of owning a second copy of it.
#[derive(Debug)]
pub enum Expression {
    /// A literal number.
    ConstExp { num: i32 },
    /// A reference to a bound name.
    VarExp { var: Identifier },
    /// The difference `exp1 - exp2` of two sub-expressions.
    DiffExp { exp1: Box<Expression>, exp2: Box<Expression> },
    /// Asks whether a sub-expression evaluates to zero.
    ZeroTestExp { exp: Box<Expression> },
    /// A two-way conditional on a boolean condition.
    IfExp { condExp: Box<Expression>, trueExp: Box<Expression>, falseExp: Box<Expression> },
    /// Binds `var` to the value of `valExp` while evaluating `bodyExp`.
    LetExp { var: Identifier, valExp: Box<Expression>, bodyExp: Box<Expression> },
    /// A one-argument procedure expression; evaluating it builds a closure.
    ProcExp { var: Identifier, body: Rc<Expression> },
    /// Applies the procedure that `operator` yields to the value of `operand`.
    CallExp { operator: Box<Expression>, operand: Box<Expression> },
    /// Binds `name` to the recursive procedure `proc(var) procbody` while
    /// evaluating `letbody`; the procedure may call itself through `name`.
    LetrecExp {
        name: Identifier,
        var: Identifier,
        procbody: Rc<Expression>,
        letbody: Box<Expression>,
    },
}

} // verus!
