//! Typed SQL expression trees and their rendering.
//!
//! An expression is built bottom-up: leaves carry their rendered SQL text
//! and a type tag; function calls and operator applications wrap
//! sub-expressions. Trees are immutable once built — composition only ever
//! wraps, never mutates — and `render` emits the exact SQL text of a tree.

use vstd::prelude::*;
use vstd::string::StringExecFns;
use crate::types::ScalarType;
use crate::functions::FuncId;
use crate::functions::rendered_name;
use crate::functions::ret_type;
use crate::functions::spec_arg_types;
use crate::functions::spec_rendered_name;
use crate::functions::spec_ret_type;
use crate::operators::InfixOp;
use crate::operators::result_type;
use crate::operators::spec_operands_ok;
use crate::operators::spec_result_type;
use crate::operators::spec_token;
use crate::operators::token;

verus! {

/// A node in a typed SQL expression tree, parameterized by the result type
/// tag `ty()` it carries.
#[derive(Debug)]
pub enum Expr {
    /// A leaf the host hands in — a column reference or an already-bound
    /// literal — with its rendered SQL text and its type tag.
    Leaf { sql: String, ty: ScalarType },
    /// A call of a unary catalog function.
    Call1 { func: FuncId, arg: Box<Expr> },
    /// A call of a binary catalog function.
    Call2 { func: FuncId, arg0: Box<Expr>, arg1: Box<Expr> },
    /// An application of an infix operator to two sub-expressions.
    Infix { op: InfixOp, left: Box<Expr>, right: Box<Expr> },
    /// A sub-expression whose rendering is forcibly parenthesized.
    Grouped { inner: Box<Expr> },
}

impl Expr {
    /// The result type tag the node carries: a leaf's declared tag, a call's
    /// declared return type, an operator's declared result type; grouping
    /// does not change the type.
    pub open spec fn ty(self) -> ScalarType
        decreases self,
    {
        match self {
            Expr::Leaf { ty, .. } => ty,
            Expr::Call1 { func, .. } => spec_ret_type(func),
            Expr::Call2 { func, .. } => spec_ret_type(func),
            Expr::Infix { op, .. } => spec_result_type(op),
            Expr::Grouped { inner } => inner.ty(),
        }
    }

    /// Well-typedness: every function call supplies exactly the declared
    /// argument count and types, and every operator is applied to an
    /// accepted operand type pair.
    pub open spec fn wf(self) -> bool
        decreases self,
    {
        match self {
            Expr::Leaf { .. } => true,
            Expr::Call1 { func, arg } => {
                &&& spec_arg_types(func).len() == 1
                &&& arg.ty() == spec_arg_types(func)[0]
                &&& arg.wf()
            },
            Expr::Call2 { func, arg0, arg1 } => {
                &&& spec_arg_types(func).len() == 2
                &&& arg0.ty() == spec_arg_types(func)[0]
                &&& arg1.ty() == spec_arg_types(func)[1]
                &&& arg0.wf()
                &&& arg1.wf()
            },
            Expr::Infix { op, left, right } => {
                &&& spec_operands_ok(op, left.ty(), right.ty())
                &&& left.wf()
                &&& right.wf()
            },
            Expr::Grouped { inner } => inner.wf(),
        }
    }

    /// The exact SQL text the node renders to: a call is
    /// `name(arg)` or `name(arg0, arg1)`, an operator application is
    /// `left token right`, a grouped sub-expression is parenthesized.
    pub open spec fn spec_render(self) -> Seq<char>
        decreases self,
    {
        match self {
            Expr::Leaf { sql, .. } => sql@,
            Expr::Call1 { func, arg } => spec_rendered_name(func) + "("@ + arg.spec_render()
                + ")"@,
            Expr::Call2 { func, arg0, arg1 } => spec_rendered_name(func) + "("@
                + arg0.spec_render() + ", "@ + arg1.spec_render() + ")"@,
            Expr::Infix { op, left, right } => left.spec_render() + spec_token(op)
                + right.spec_render(),
            Expr::Grouped { inner } => "("@ + inner.spec_render() + ")"@,
        }
    }

    /// Build a leaf from its rendered SQL text and its type tag.
    pub fn leaf(sql: String, ty: ScalarType) -> (e: Expr)
        ensures
            e == (Expr::Leaf { sql, ty }),
    {
        Expr::Leaf { sql, ty }
    }

    /// The node's result type tag.
    pub fn sql_type(&self) -> (t: ScalarType)
        ensures
            t == self.ty(),
        decreases self,
    {
        match self {
            Expr::Leaf { ty, .. } => *ty,
            Expr::Call1 { func, .. } => ret_type(*func),
            Expr::Call2 { func, .. } => ret_type(*func),
            Expr::Infix { op, .. } => result_type(*op),
            Expr::Grouped { inner } => inner.sql_type(),
        }
    }

    /// Render the tree to its SQL text. Rendering reads the tree alone, so
    /// rendering the same tree twice yields byte-identical text.
    pub fn render(&self) -> (r: String)
        ensures
            r@ == self.spec_render(),
        decreases self,
    {
        match self {
            Expr::Leaf { sql, .. } => sql.clone(),
            Expr::Call1 { func, arg } => {
                let mut s = String::from_str(rendered_name(*func));
                s.append("(");
                let a = arg.render();
                s.append(a.as_str());
                s.append(")");
                proof {
                    assert(s@ =~= self.spec_render());
                }
                s
            },
            Expr::Call2 { func, arg0, arg1 } => {
                let mut s = String::from_str(rendered_name(*func));
                s.append("(");
                let a0 = arg0.render();
                s.append(a0.as_str());
                s.append(", ");
                let a1 = arg1.render();
                s.append(a1.as_str());
                s.append(")");
                proof {
                    assert(s@ =~= self.spec_render());
                }
                s
            },
            Expr::Infix { op, left, right } => {
                let mut s = left.render();
                s.append(token(*op));
                let r = right.render();
                s.append(r.as_str());
                proof {
                    assert(s@ =~= self.spec_render());
                }
                s
            },
            Expr::Grouped { inner } => {
                let mut s = String::from_str("(");
                let i = inner.render();
                s.append(i.as_str());
                s.append(")");
                proof {
                    assert(s@ =~= self.spec_render());
                }
                s
            },
        }
    }
}

} // verus!
