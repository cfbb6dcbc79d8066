//! The type registry: compile-time tags for every SQL scalar type that can
//! appear in a full-text-search expression, together with the wire identity
//! each tag resolves to.

use vstd::prelude::*;

verus! {

/// A zero-payload tag standing for one SQL scalar type. Function and operator
/// signatures are stated solely in terms of these tags; no runtime value of a
/// tagged type is ever held by the library.
#[derive(Clone, Copy, Debug, PartialEq, Eq, Structural)]
pub enum ScalarType {
    /// A parsed search query (lexemes combined by logical operators).
    Tsquery,
    /// A normalized, searchable document representation.
    Tsvector,
    /// A named search configuration (language/ruleset) selecting stemming
    /// and stopword behaviour for text conversion functions.
    Regconfig,
    /// The host's character-string type.
    Text,
    /// The host's integer type.
    Integer,
    /// The host's single-precision numeric type (`real`); only a tag, the
    /// library never holds such a value.
    Float,
    /// The host's boolean type.
    Bool,
}

/// A SQL backend that the host query framework can target. Every
/// full-text-search operator in this library is declared for `Pg`.
#[derive(Clone, Copy, Debug, PartialEq, Eq, Structural)]
pub enum Dialect {
    Pg,
    Mysql,
    Sqlite,
}

/// How a scalar type is identified at the wire level for value
/// encoding and decoding.
#[derive(Clone, Copy, Debug, PartialEq, Eq, Structural)]
pub enum WireIdent {
    /// Registered under fixed object identifiers: the scalar form and the
    /// array form.
    Oids { oid: u32, array_oid: u32 },
    /// Looked up by its SQL type name at connection time.
    ByName,
    /// Built into the host; the extension declares nothing for it.
    HostBuiltin,
}

/// The ways a composition can fail to build. Every check is made at
/// construction time; a rejected composition never yields an expression
/// node, so no runtime recovery exists or is needed.
#[derive(Clone, Copy, Debug, PartialEq, Eq, Structural)]
pub enum BuildError {
    /// An expression's type tag does not satisfy a declared argument or
    /// operand type (a wrong argument count included).
    TypeMismatch,
    /// A referenced function name was never declared in the catalog.
    UnknownIdentifier,
    /// An operator declared for one target dialect was requested for
    /// another.
    DialectMismatch,
}

/// The wire identity that each tag resolves to. The two search types carry
/// fixed object identifiers; the search-configuration type is identified by
/// name; the remaining tags belong to the host.
pub open spec fn spec_wire_ident(t: ScalarType) -> WireIdent {
    match t {
        ScalarType::Tsquery => WireIdent::Oids { oid: 3615, array_oid: 3645 },
        ScalarType::Tsvector => WireIdent::Oids { oid: 3614, array_oid: 3643 },
        ScalarType::Regconfig => WireIdent::ByName,
        _ => WireIdent::HostBuiltin,
    }
}

/// Look up the wire identity of a tag.
pub fn wire_ident(t: ScalarType) -> (w: WireIdent)
    ensures
        w == spec_wire_ident(t),
{
    match t {
        ScalarType::Tsquery => WireIdent::Oids { oid: 3615, array_oid: 3645 },
        ScalarType::Tsvector => WireIdent::Oids { oid: 3614, array_oid: 3643 },
        ScalarType::Regconfig => WireIdent::ByName,
        _ => WireIdent::HostBuiltin,
    }
}

/// The SQL name of the type each tag stands for.
pub open spec fn spec_sql_type_name(t: ScalarType) -> Seq<char> {
    match t {
        ScalarType::Tsquery => "tsquery"@,
        ScalarType::Tsvector => "tsvector"@,
        ScalarType::Regconfig => "regconfig"@,
        ScalarType::Text => "text"@,
        ScalarType::Integer => "integer"@,
        ScalarType::Float => "real"@,
        ScalarType::Bool => "boolean"@,
    }
}

/// Look up the SQL type name of a tag.
pub fn sql_type_name(t: ScalarType) -> (r: &'static str)
    ensures
        r@ == spec_sql_type_name(t),
{
    match t {
        ScalarType::Tsquery => "tsquery",
        ScalarType::Tsvector => "tsvector",
        ScalarType::Regconfig => "regconfig",
        ScalarType::Text => "text",
        ScalarType::Integer => "integer",
        ScalarType::Float => "real",
        ScalarType::Bool => "boolean",
    }
}

/// Registry uniqueness: distinct tags never share a SQL type name, and the
/// two tags registered under object identifiers never share them. Every
/// scalar type participating in an expression therefore resolves to exactly
/// one tag.
pub proof fn lemma_registry_unique(a: ScalarType, b: ScalarType)
    ensures
        a != b ==> spec_sql_type_name(a) != spec_sql_type_name(b),
        a != b ==> (spec_wire_ident(a) matches WireIdent::Oids { .. })
            && (spec_wire_ident(b) matches WireIdent::Oids { .. })
            ==> spec_wire_ident(a) != spec_wire_ident(b),
{
    reveal_strlit("tsquery");
    reveal_strlit("tsvector");
    reveal_strlit("regconfig");
    reveal_strlit("text");
    reveal_strlit("integer");
    reveal_strlit("real");
    reveal_strlit("boolean");
    assert("tsquery"@.len() == 7);
    assert("tsvector"@.len() == 8);
    assert("regconfig"@.len() == 9);
    assert("text"@.len() == 4);
    assert("integer"@.len() == 7);
    assert("real"@.len() == 4);
    assert("boolean"@.len() == 7);
    assert("tsquery"@[0] == 't');
    assert("integer"@[0] == 'i');
    assert("boolean"@[0] == 'b');
    assert("text"@[0] == 't');
    assert("real"@[0] == 'r');
}

} // verus!
