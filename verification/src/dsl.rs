//! The composition layer: a single generic constructor for operator
//! applications, and the fluent per-type methods that build the six
//! full-text-search compositions.
//!
//! Every method is pure: it returns a new node that owns both operand
//! sub-expressions. Growth is by wrapping only; a malformed composition
//! simply fails to build.

use vstd::prelude::*;
use crate::types::BuildError;
use crate::types::Dialect;
use crate::types::ScalarType;
use crate::expr::Expr;
use crate::operators::InfixOp;
use crate::operators::op_dialect;
use crate::operators::operands_ok;
use crate::operators::spec_op_dialect;
use crate::operators::spec_operands_ok;
use crate::operators::spec_result_type;
use crate::operators::spec_token;

verus! {

/// Apply a declared infix operator to two operand expressions for a target
/// dialect. The operator must be declared for the target dialect and must
/// accept the operands' type tags; the new node is ungrouped, rendering
/// exactly `left token right`.
pub fn infix(op: InfixOp, target: Dialect, left: Expr, right: Expr) -> (r: Result<
    Expr,
    BuildError,
>)
    ensures
        spec_op_dialect(op) != target ==> r == Err::<Expr, BuildError>(
            BuildError::DialectMismatch,
        ),
        spec_op_dialect(op) == target && !spec_operands_ok(op, left.ty(), right.ty())
            ==> r == Err::<Expr, BuildError>(BuildError::TypeMismatch),
        spec_op_dialect(op) == target && spec_operands_ok(op, left.ty(), right.ty()) ==> match r {
            Ok(e) => {
                &&& e.ty() == spec_result_type(op)
                &&& (e.wf() <==> left.wf() && right.wf())
                &&& e.spec_render() == left.spec_render() + spec_token(op) + right.spec_render()
            },
            Err(_) => false,
        },
{
    if op_dialect(op) != target {
        return Err(BuildError::DialectMismatch);
    }
    if !operands_ok(op, left.sql_type(), right.sql_type()) {
        return Err(BuildError::TypeMismatch);
    }
    Ok(Expr::Infix { op, left: Box::new(left), right: Box::new(right) })
}

impl Expr {
    /// Match a vector against a query (either operand order): the ` @@ `
    /// operator, ungrouped, of boolean result.
    pub fn matches(self, other: Expr) -> (r: Result<Expr, BuildError>)
        ensures
            !spec_operands_ok(InfixOp::Matches, self.ty(), other.ty()) ==> r == Err::<
                Expr,
                BuildError,
            >(BuildError::TypeMismatch),
            spec_operands_ok(InfixOp::Matches, self.ty(), other.ty()) ==> match r {
                Ok(e) => {
                    &&& e.ty() == ScalarType::Bool
                    &&& (e.wf() <==> self.wf() && other.wf())
                    &&& e.spec_render() == self.spec_render() + spec_token(InfixOp::Matches)
                        + other.spec_render()
                },
                Err(_) => false,
            },
    {
        infix(InfixOp::Matches, Dialect::Pg, self, other)
    }

    /// Concatenate two vectors: the ` || ` operator. The result is wrapped
    /// in a grouping node — parenthesization is mandatory because the token
    /// is also the query-disjunction token, and an ungrouped rendering
    /// embedded in an or-chain would be ambiguous.
    pub fn concat(self, other: Expr) -> (r: Result<Expr, BuildError>)
        ensures
            !spec_operands_ok(InfixOp::Concat, self.ty(), other.ty()) ==> r == Err::<
                Expr,
                BuildError,
            >(BuildError::TypeMismatch),
            spec_operands_ok(InfixOp::Concat, self.ty(), other.ty()) ==> match r {
                Ok(e) => {
                    &&& e.ty() == ScalarType::Tsvector
                    &&& (e.wf() <==> self.wf() && other.wf())
                    &&& e.spec_render() == "("@ + self.spec_render() + spec_token(InfixOp::Concat)
                        + other.spec_render() + ")"@
                },
                Err(_) => false,
            },
    {
        let ghost s0 = self;
        let ghost o0 = other;
        match infix(InfixOp::Concat, Dialect::Pg, self, other) {
            Ok(e) => {
                let g = Expr::Grouped { inner: Box::new(e) };
                proof {
                    assert(g.spec_render() =~= "("@ + s0.spec_render() + spec_token(
                        InfixOp::Concat,
                    ) + o0.spec_render() + ")"@);
                }
                Ok(g)
            },
            Err(err) => Err(err),
        }
    }

    /// Conjoin two queries: the ` && ` operator, ungrouped, of query result,
    /// permitting further chaining.
    pub fn and(self, other: Expr) -> (r: Result<Expr, BuildError>)
        ensures
            !spec_operands_ok(InfixOp::And, self.ty(), other.ty()) ==> r == Err::<
                Expr,
                BuildError,
            >(BuildError::TypeMismatch),
            spec_operands_ok(InfixOp::And, self.ty(), other.ty()) ==> match r {
                Ok(e) => {
                    &&& e.ty() == ScalarType::Tsquery
                    &&& (e.wf() <==> self.wf() && other.wf())
                    &&& e.spec_render() == self.spec_render() + spec_token(InfixOp::And)
                        + other.spec_render()
                },
                Err(_) => false,
            },
    {
        infix(InfixOp::And, Dialect::Pg, self, other)
    }

    /// Disjoin two queries: the ` || ` operator, ungrouped, of query result,
    /// relying on the dialect's native operator precedence.
    pub fn or(self, other: Expr) -> (r: Result<Expr, BuildError>)
        ensures
            !spec_operands_ok(InfixOp::Or, self.ty(), other.ty()) ==> r == Err::<
                Expr,
                BuildError,
            >(BuildError::TypeMismatch),
            spec_operands_ok(InfixOp::Or, self.ty(), other.ty()) ==> match r {
                Ok(e) => {
                    &&& e.ty() == ScalarType::Tsquery
                    &&& (e.wf() <==> self.wf() && other.wf())
                    &&& e.spec_render() == self.spec_render() + spec_token(InfixOp::Or)
                        + other.spec_render()
                },
                Err(_) => false,
            },
    {
        infix(InfixOp::Or, Dialect::Pg, self, other)
    }

    /// Ask whether this query contains another: the ` @> ` operator,
    /// ungrouped, of boolean result.
    pub fn contains(self, other: Expr) -> (r: Result<Expr, BuildError>)
        ensures
            !spec_operands_ok(InfixOp::Contains, self.ty(), other.ty()) ==> r == Err::<
                Expr,
                BuildError,
            >(BuildError::TypeMismatch),
            spec_operands_ok(InfixOp::Contains, self.ty(), other.ty()) ==> match r {
                Ok(e) => {
                    &&& e.ty() == ScalarType::Bool
                    &&& (e.wf() <==> self.wf() && other.wf())
                    &&& e.spec_render() == self.spec_render() + spec_token(InfixOp::Contains)
                        + other.spec_render()
                },
                Err(_) => false,
            },
    {
        infix(InfixOp::Contains, Dialect::Pg, self, other)
    }

    /// Ask whether this query is contained in another: the ` <@ ` operator,
    /// ungrouped, of boolean result.
    pub fn contained_by(self, other: Expr) -> (r: Result<Expr, BuildError>)
        ensures
            !spec_operands_ok(InfixOp::ContainedBy, self.ty(), other.ty()) ==> r == Err::<
                Expr,
                BuildError,
            >(BuildError::TypeMismatch),
            spec_operands_ok(InfixOp::ContainedBy, self.ty(), other.ty()) ==> match r {
                Ok(e) => {
                    &&& e.ty() == ScalarType::Bool
                    &&& (e.wf() <==> self.wf() && other.wf())
                    &&& e.spec_render() == self.spec_render() + spec_token(InfixOp::ContainedBy)
                        + other.spec_render()
                },
                Err(_) => false,
            },
    {
        infix(InfixOp::ContainedBy, Dialect::Pg, self, other)
    }
}

} // verus!
