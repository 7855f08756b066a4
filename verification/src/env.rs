use vstd::prelude::*;

use crate::ast::Expression;
use crate::ast::Identifier;
use crate::value::EvalError;
use crate::value::ExpVal;
use crate::value::ProcType;
use std::rc::Rc;

verus! {

/// A persistent, immutable association from names to runtime values: a
/// singly linked chain of frames that grows only by prepending and is never
/// changed after construction.  Frames are shared, not copied — a frame's
/// `tail` is an `Rc` handle to a previously built chain, and any number of
/// closures and extensions may hang onto the same tail.
#[derive(Debug)]
pub enum Environment {
    /// The base of every chain: no bindings at all.
    EmptyEnvironment,
    /// Binds `var` to the already-computed value `val`, deferring to `tail`
    /// for every other name.
    ExtendEnvironment { var: Identifier, val: ExpVal, tail: Rc<Environment> },
    /// Binds `name` to the recursive procedure `proc(var) body`.  Looking
    /// `name` up yields a fresh closure whose captured environment is this
    /// very frame — not `tail` — so the procedure can reach itself again
    /// through `name`, with no mutation and no cyclic structure.
    ExtendRecEnvironment {
        name: Identifier,
        var: Identifier,
        body: Rc<Expression>,
        tail: Rc<Environment>,
    },
}

impl Environment {
    /// What looking a name up in a chain yields: the value of the nearest
    /// `ExtendEnvironment` frame binding it; for the nearest
    /// `ExtendRecEnvironment` frame binding it, a procedure value whose
    /// captured environment is that frame itself; and `NameNotFound` once
    /// the chain is exhausted.  Nearer frames shadow farther ones.
    pub open spec fn spec_lookup(self, key: Seq<char>) -> Result<ExpVal, EvalError>
        decreases self,
    {
        match self {
            Environment::EmptyEnvironment => Err(EvalError::NameNotFound),
            Environment::ExtendEnvironment { var, val, tail } => if var@ == key {
                Ok(val)
            } else {
                (*tail).spec_lookup(key)
            },
            Environment::ExtendRecEnvironment { name, var, body, tail } => if name@ == key {
                Ok(
                    ExpVal::ProcVal {
                        val: ProcType::Procedure { var, body, closure: Rc::new(self) },
                    },
                )
            } else {
                (*tail).spec_lookup(key)
            },
        }
    }

    /// Walks the chain from the given frame toward the empty base, a pure
    /// read that never changes a frame.  The environment comes as an `Rc`
    /// handle so that, on a recursive binding, the returned closure can
    /// share the found frame itself rather than copy it.
    pub fn lookup(env: &Rc<Environment>, key: &Identifier) -> (r: Result<ExpVal, EvalError>)
        ensures
            r == env.spec_lookup(key@),
        decreases **env,
    {
        match &**env {
            Environment::EmptyEnvironment => Err(EvalError::NameNotFound),
            Environment::ExtendEnvironment { var, val, tail } => if *var == *key {
                Ok(val.clone())
            } else {
                Environment::lookup(tail, key)
            },
            Environment::ExtendRecEnvironment { name, var, body, tail } => if *name == *key {
                Ok(
                    ExpVal::ProcVal {
                        val: ProcType::Procedure {
                            var: var.clone(),
                            body: body.clone(),
                            closure: env.clone(),
                        },
                    },
                )
            } else {
                Environment::lookup(tail, key)
            },
        }
    }

    /// Law: the most recent binding of a name shadows every earlier one.
    /// Whatever bindings `tail` holds for `var`, a lookup in the extended
    /// chain returns the value just bound.
    pub proof fn lemma_extend_shadows(var: Identifier, val: ExpVal, tail: Rc<Environment>)
        ensures
            (Environment::ExtendEnvironment { var, val, tail }).spec_lookup(var@) == Ok::<
                ExpVal,
                EvalError,
            >(val),
    {
    }

    /// Law: looking up a recursively bound name yields a procedure whose
    /// captured environment is the very frame that binds the name.  A later
    /// use of that name from inside the procedure's body meets the same
    /// frame and gets the same reconstruction, so the procedure can call
    /// itself for ever — with no mutation and no cyclic structure.
    pub proof fn lemma_recursive_lookup_captures_its_own_frame(
        name: Identifier,
        var: Identifier,
        body: Rc<Expression>,
        tail: Rc<Environment>,
    )
        ensures
            ({
                let frame = Environment::ExtendRecEnvironment { name, var, body, tail };
                frame.spec_lookup(name@) == Ok::<ExpVal, EvalError>(
                    ExpVal::ProcVal {
                        val: ProcType::Procedure { var, body, closure: Rc::new(frame) },
                    },
                )
            }),
    {
    }
}

} // verus!
