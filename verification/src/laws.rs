//! The library-wide laws: what holds of every composition, stated over the
//! same spec functions the constructors' contracts use.

use vstd::prelude::*;
use crate::types::ScalarType;
use crate::expr::Expr;
use crate::functions::FuncId;
use crate::functions::spec_arg_types;
use crate::functions::spec_rendered_name;
use crate::functions::spec_ret_type;
use crate::operators::InfixOp;
use crate::operators::spec_operands_ok;
use crate::operators::spec_result_type;
use crate::operators::spec_token;

verus! {

/// Composing an operator over any operands yields SQL text exactly
/// `left token right`; a grouped node renders exactly its inner text in
/// parentheses, and nothing else changes.
pub proof fn lemma_operator_render_shape(e: Expr)
    ensures
        e matches Expr::Infix { op, left, right } ==> e.spec_render() == left.spec_render()
            + spec_token(op) + right.spec_render(),
        e matches Expr::Grouped { inner } ==> e.spec_render() == "("@ + inner.spec_render()
            + ")"@,
{
}

/// Every operator token is the bare token with a single space on either
/// side: it begins and ends with one space, and holds no other space.
pub proof fn lemma_token_spacing(op: InfixOp)
    ensures
        spec_token(op).len() == 4,
        spec_token(op).first() == ' ',
        spec_token(op).last() == ' ',
        forall|i: int| 1 <= i < spec_token(op).len() - 1 ==> spec_token(op)[i] != ' ',
{
    reveal_strlit(" @@ ");
    reveal_strlit(" || ");
    reveal_strlit(" && ");
    reveal_strlit(" @> ");
    reveal_strlit(" <@ ");
}

/// Rendering reads the expression tree alone: two renderings of equal trees
/// are byte-identical. Together with `Expr::render`'s contract, two calls of
/// `render` on one tree return the same text.
pub proof fn lemma_render_deterministic(e1: Expr, e2: Expr)
    requires
        e1 == e2,
    ensures
        e1.spec_render() == e2.spec_render(),
{
}

/// A call node carries its function's declared return type, and is well
/// formed exactly when each argument carries the declared argument type: a
/// function's result is accepted wherever its declared return type is
/// expected, and rejected wherever a different type is expected.
pub proof fn lemma_return_type_reuse(e: Expr)
    ensures
        e matches Expr::Call1 { func, .. } ==> e.ty() == spec_ret_type(func),
        e matches Expr::Call2 { func, .. } ==> e.ty() == spec_ret_type(func),
        e matches Expr::Call1 { func, arg } ==> (arg.wf() ==> (e.wf() <==> spec_arg_types(
            func,
        ).len() == 1 && arg.ty() == spec_arg_types(func)[0])),
        e matches Expr::Call2 { func, arg0, arg1 } ==> (arg0.wf() && arg1.wf() ==> (e.wf()
            <==> spec_arg_types(func).len() == 2 && arg0.ty() == spec_arg_types(func)[0]
            && arg1.ty() == spec_arg_types(func)[1])),
{
}

/// Vector concatenation and query disjunction render the identical token,
/// yet are never interchangeable: a concatenation result is a vector, which
/// no disjunction operand position accepts, and a disjunction result is a
/// query, which no concatenation operand position accepts.
pub proof fn lemma_concat_or_distinct()
    ensures
        spec_token(InfixOp::Concat) == spec_token(InfixOp::Or),
        spec_result_type(InfixOp::Concat) != spec_result_type(InfixOp::Or),
        forall|t: ScalarType|
            !spec_operands_ok(InfixOp::Or, spec_result_type(InfixOp::Concat), t)
                && !spec_operands_ok(InfixOp::Or, t, spec_result_type(InfixOp::Concat)),
        forall|t: ScalarType|
            !spec_operands_ok(InfixOp::Concat, spec_result_type(InfixOp::Or), t)
                && !spec_operands_ok(InfixOp::Concat, t, spec_result_type(InfixOp::Or)),
{
}

/// The plain and the configuration-qualified query conversions render the
/// identical SQL function name and return the identical type, differing
/// only in their declared argument lists; likewise the vector conversions.
/// The dialect overloads these functions by argument count.
pub proof fn lemma_search_config_overloads()
    ensures
        spec_rendered_name(FuncId::ToTsquery) == spec_rendered_name(
            FuncId::ToTsqueryWithSearchConfig,
        ),
        spec_ret_type(FuncId::ToTsquery) == spec_ret_type(FuncId::ToTsqueryWithSearchConfig),
        spec_arg_types(FuncId::ToTsquery) =~= seq![ScalarType::Text],
        spec_arg_types(FuncId::ToTsqueryWithSearchConfig) =~= seq![
            ScalarType::Regconfig,
            ScalarType::Text,
        ],
        spec_rendered_name(FuncId::ToTsvector) == spec_rendered_name(
            FuncId::ToTsvectorWithSearchConfig,
        ),
        spec_ret_type(FuncId::ToTsvector) == spec_ret_type(FuncId::ToTsvectorWithSearchConfig),
        spec_arg_types(FuncId::ToTsvector) =~= seq![ScalarType::Text],
        spec_arg_types(FuncId::ToTsvectorWithSearchConfig) =~= seq![
            ScalarType::Regconfig,
            ScalarType::Text,
        ],
{
}

} // verus!
