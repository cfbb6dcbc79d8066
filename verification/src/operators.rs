//! The operator set: the infix operators that combine full-text-search
//! values, each with its literal SQL token, its accepted operand types, its
//! result type and the dialect it is declared for.

use vstd::prelude::*;
use crate::types::Dialect;
use crate::types::ScalarType;

verus! {

/// One declared infix operator.
///
/// `Concat` and `Or` render the identical token; they are distinct operator
/// kinds told apart by their declared operand types alone, never by token
/// text — overload resolution is type-directed.
#[derive(Clone, Copy, Debug, PartialEq, Eq, Structural)]
pub enum InfixOp {
    /// A vector matched against a query, in either operand order.
    Matches,
    /// Vector concatenation.
    Concat,
    /// Query conjunction.
    And,
    /// Query disjunction.
    Or,
    /// One query containing another.
    Contains,
    /// One query contained in another.
    ContainedBy,
}

/// The literal SQL token of the operator, with one space on either side.
pub open spec fn spec_token(op: InfixOp) -> Seq<char> {
    match op {
        InfixOp::Matches => " @@ "@,
        InfixOp::Concat => " || "@,
        InfixOp::And => " && "@,
        InfixOp::Or => " || "@,
        InfixOp::Contains => " @> "@,
        InfixOp::ContainedBy => " <@ "@,
    }
}

/// Look up the literal SQL token of an operator.
pub fn token(op: InfixOp) -> (r: &'static str)
    ensures
        r@ == spec_token(op),
{
    match op {
        InfixOp::Matches => " @@ ",
        InfixOp::Concat => " || ",
        InfixOp::And => " && ",
        InfixOp::Or => " || ",
        InfixOp::Contains => " @> ",
        InfixOp::ContainedBy => " <@ ",
    }
}

/// Which operand type pairs the operator accepts.
pub open spec fn spec_operands_ok(op: InfixOp, l: ScalarType, r: ScalarType) -> bool {
    match op {
        InfixOp::Matches => (l == ScalarType::Tsvector && r == ScalarType::Tsquery)
            || (l == ScalarType::Tsquery && r == ScalarType::Tsvector),
        InfixOp::Concat => l == ScalarType::Tsvector && r == ScalarType::Tsvector,
        InfixOp::And => l == ScalarType::Tsquery && r == ScalarType::Tsquery,
        InfixOp::Or => l == ScalarType::Tsquery && r == ScalarType::Tsquery,
        InfixOp::Contains => l == ScalarType::Tsquery && r == ScalarType::Tsquery,
        InfixOp::ContainedBy => l == ScalarType::Tsquery && r == ScalarType::Tsquery,
    }
}

/// Check a pair of operand type tags against the operator's declaration.
pub fn operands_ok(op: InfixOp, l: ScalarType, r: ScalarType) -> (b: bool)
    ensures
        b == spec_operands_ok(op, l, r),
{
    match op {
        InfixOp::Matches => (l == ScalarType::Tsvector && r == ScalarType::Tsquery)
            || (l == ScalarType::Tsquery && r == ScalarType::Tsvector),
        InfixOp::Concat => l == ScalarType::Tsvector && r == ScalarType::Tsvector,
        InfixOp::And => l == ScalarType::Tsquery && r == ScalarType::Tsquery,
        InfixOp::Or => l == ScalarType::Tsquery && r == ScalarType::Tsquery,
        InfixOp::Contains => l == ScalarType::Tsquery && r == ScalarType::Tsquery,
        InfixOp::ContainedBy => l == ScalarType::Tsquery && r == ScalarType::Tsquery,
    }
}

/// The result type of the operator. The chaining operators over queries
/// (`And`, `Or`) and over vectors (`Concat`) return their operand type,
/// permitting further chaining; the predicates return the boolean type.
pub open spec fn spec_result_type(op: InfixOp) -> ScalarType {
    match op {
        InfixOp::Matches => ScalarType::Bool,
        InfixOp::Concat => ScalarType::Tsvector,
        InfixOp::And => ScalarType::Tsquery,
        InfixOp::Or => ScalarType::Tsquery,
        InfixOp::Contains => ScalarType::Bool,
        InfixOp::ContainedBy => ScalarType::Bool,
    }
}

/// Look up the result type of an operator.
pub fn result_type(op: InfixOp) -> (r: ScalarType)
    ensures
        r == spec_result_type(op),
{
    match op {
        InfixOp::Matches => ScalarType::Bool,
        InfixOp::Concat => ScalarType::Tsvector,
        InfixOp::And => ScalarType::Tsquery,
        InfixOp::Or => ScalarType::Tsquery,
        InfixOp::Contains => ScalarType::Bool,
        InfixOp::ContainedBy => ScalarType::Bool,
    }
}

/// The dialect each operator is declared for.
pub open spec fn spec_op_dialect(op: InfixOp) -> Dialect {
    match op {
        InfixOp::Matches => Dialect::Pg,
        InfixOp::Concat => Dialect::Pg,
        InfixOp::And => Dialect::Pg,
        InfixOp::Or => Dialect::Pg,
        InfixOp::Contains => Dialect::Pg,
        InfixOp::ContainedBy => Dialect::Pg,
    }
}

/// Look up the dialect an operator is declared for.
pub fn op_dialect(op: InfixOp) -> (d: Dialect)
    ensures
        d == spec_op_dialect(op),
{
    match op {
        InfixOp::Matches => Dialect::Pg,
        InfixOp::Concat => Dialect::Pg,
        InfixOp::And => Dialect::Pg,
        InfixOp::Or => Dialect::Pg,
        InfixOp::Contains => Dialect::Pg,
        InfixOp::ContainedBy => Dialect::Pg,
    }
}

} // verus!
