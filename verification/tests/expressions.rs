use fts_dsl::dsl::infix;
use fts_dsl::expr::Expr;
use fts_dsl::functions::call;
use fts_dsl::functions::length;
use fts_dsl::functions::lookup_function;
use fts_dsl::functions::numnode;
use fts_dsl::functions::phraseto_tsquery;
use fts_dsl::functions::plainto_tsquery;
use fts_dsl::functions::querytree;
use fts_dsl::functions::rendered_name;
use fts_dsl::functions::strip;
use fts_dsl::functions::to_tsquery;
use fts_dsl::functions::to_tsquery_with_search_config;
use fts_dsl::functions::to_tsvector;
use fts_dsl::functions::to_tsvector_with_search_config;
use fts_dsl::functions::ts_headline;
use fts_dsl::functions::ts_rank;
use fts_dsl::functions::ts_rank_cd;
use fts_dsl::functions::websearch_to_tsquery;
use fts_dsl::functions::FuncId;
use fts_dsl::operators::op_dialect;
use fts_dsl::operators::operands_ok;
use fts_dsl::operators::result_type;
use fts_dsl::operators::token;
use fts_dsl::operators::InfixOp;
use fts_dsl::types::sql_type_name;
use fts_dsl::types::wire_ident;
use fts_dsl::types::BuildError;
use fts_dsl::types::Dialect;
use fts_dsl::types::ScalarType;
use fts_dsl::types::WireIdent;

fn leaf(sql: &str, ty: ScalarType) -> Expr {
    Expr::leaf(sql.to_string(), ty)
}

fn vector(sql: &str) -> Expr {
    leaf(sql, ScalarType::Tsvector)
}

fn query(sql: &str) -> Expr {
    leaf(sql, ScalarType::Tsquery)
}

fn text(sql: &str) -> Expr {
    leaf(sql, ScalarType::Text)
}

#[test]
fn to_tsvector_renders_call_with_one_argument() {
    let e = to_tsvector(text("$1")).unwrap();
    assert_eq!(e.render(), "to_tsvector($1)");
    assert_eq!(e.sql_type(), ScalarType::Tsvector);
}

#[test]
fn vector_matches_query_renders_match_operator() {
    let v = vector("document");
    let q = to_tsquery(text("'cat & rat'")).unwrap();
    let e = v.matches(q).unwrap();
    assert_eq!(e.render(), "document @@ to_tsquery('cat & rat')");
    assert_eq!(e.sql_type(), ScalarType::Bool);
}

#[test]
fn query_matches_vector_renders_match_operator() {
    let q = query("q");
    let v = vector("v");
    let e = q.matches(v).unwrap();
    assert_eq!(e.render(), "q @@ v");
    assert_eq!(e.sql_type(), ScalarType::Bool);
}

#[test]
fn and_then_or_chain_renders_ungrouped() {
    let a = query("a");
    let b = query("b");
    let c = query("c");
    let e = a.and(b).unwrap().or(c).unwrap();
    assert_eq!(e.render(), "a && b || c");
    assert_eq!(e.sql_type(), ScalarType::Tsquery);
}

#[test]
fn concat_renders_grouped() {
    let a = vector("a");
    let b = vector("b");
    let e = a.concat(b).unwrap();
    assert_eq!(e.render(), "(a || b)");
    assert_eq!(e.sql_type(), ScalarType::Tsvector);
}

#[test]
fn ts_rank_renders_two_arguments_and_float_result() {
    let e = ts_rank(vector("v"), query("q")).unwrap();
    assert_eq!(e.render(), "ts_rank(v, q)");
    assert_eq!(e.sql_type(), ScalarType::Float);
}

#[test]
fn rendering_twice_is_byte_identical() {
    let e = vector("v").matches(to_tsquery(text("'x'")).unwrap()).unwrap();
    let once = e.render();
    let twice = e.render();
    assert_eq!(once, twice);
}

#[test]
fn every_operator_renders_token_with_single_spaces() {
    let m = vector("l").matches(query("r")).unwrap();
    assert_eq!(m.render(), "l @@ r");
    let a = query("l").and(query("r")).unwrap();
    assert_eq!(a.render(), "l && r");
    let o = query("l").or(query("r")).unwrap();
    assert_eq!(o.render(), "l || r");
    let c = query("l").contains(query("r")).unwrap();
    assert_eq!(c.render(), "l @> r");
    let cb = query("l").contained_by(query("r")).unwrap();
    assert_eq!(cb.render(), "l <@ r");
    let cat = vector("l").concat(vector("r")).unwrap();
    assert_eq!(cat.render(), "(l || r)");
}

#[test]
fn return_type_reuse_type_checks() {
    let q = to_tsquery(text("'x'")).unwrap();
    let n = numnode(q).unwrap();
    assert_eq!(n.render(), "numnode(to_tsquery('x'))");
    assert_eq!(n.sql_type(), ScalarType::Integer);
    let q2 = plainto_tsquery(text("'y'")).unwrap();
    let t = querytree(q2).unwrap();
    assert_eq!(t.render(), "querytree(plainto_tsquery('y'))");
    assert_eq!(t.sql_type(), ScalarType::Text);
}

#[test]
fn return_type_reuse_with_wrong_expectation_fails() {
    let q = to_tsquery(text("'x'")).unwrap();
    assert_eq!(length(q).unwrap_err(), BuildError::TypeMismatch);
    let v = to_tsvector(text("'y'")).unwrap();
    assert_eq!(numnode(v).unwrap_err(), BuildError::TypeMismatch);
}

#[test]
fn concat_result_is_no_query_operand() {
    assert_eq!(token(InfixOp::Concat), token(InfixOp::Or));
    let cat = vector("a").concat(vector("b")).unwrap();
    assert_eq!(cat.sql_type(), ScalarType::Tsvector);
    let err = cat.or(query("c")).unwrap_err();
    assert_eq!(err, BuildError::TypeMismatch);
    let cat2 = vector("a").concat(vector("b")).unwrap();
    let err2 = query("c").or(cat2).unwrap_err();
    assert_eq!(err2, BuildError::TypeMismatch);
}

#[test]
fn query_result_is_no_concat_operand() {
    let o = query("a").or(query("b")).unwrap();
    let err = o.concat(vector("v")).unwrap_err();
    assert_eq!(err, BuildError::TypeMismatch);
}

#[test]
fn both_query_conversions_render_the_same_sql_name() {
    assert_eq!(rendered_name(FuncId::ToTsquery), "to_tsquery");
    assert_eq!(rendered_name(FuncId::ToTsqueryWithSearchConfig), "to_tsquery");
    let plain = to_tsquery(text("$1")).unwrap();
    assert_eq!(plain.render(), "to_tsquery($1)");
    let qualified =
        to_tsquery_with_search_config(leaf("'english'", ScalarType::Regconfig), text("$1"))
            .unwrap();
    assert_eq!(qualified.render(), "to_tsquery('english', $1)");
}

#[test]
fn both_vector_conversions_render_the_same_sql_name() {
    assert_eq!(rendered_name(FuncId::ToTsvector), "to_tsvector");
    assert_eq!(rendered_name(FuncId::ToTsvectorWithSearchConfig), "to_tsvector");
    let qualified =
        to_tsvector_with_search_config(leaf("'english'", ScalarType::Regconfig), text("$2"))
            .unwrap();
    assert_eq!(qualified.render(), "to_tsvector('english', $2)");
    assert_eq!(qualified.sql_type(), ScalarType::Tsvector);
}

#[test]
fn remaining_catalog_functions_render_exactly() {
    assert_eq!(length(vector("v")).unwrap().render(), "length(v)");
    assert_eq!(strip(vector("v")).unwrap().render(), "strip(v)");
    assert_eq!(
        ts_headline(text("d"), query("q")).unwrap().render(),
        "ts_headline(d, q)"
    );
    assert_eq!(ts_rank_cd(vector("v"), query("q")).unwrap().render(), "ts_rank_cd(v, q)");
    assert_eq!(
        phraseto_tsquery(text("'a b'")).unwrap().render(),
        "phraseto_tsquery('a b')"
    );
    assert_eq!(
        websearch_to_tsquery(text("'a -b'")).unwrap().render(),
        "websearch_to_tsquery('a -b')"
    );
}

#[test]
fn generic_call_builds_the_same_text_as_the_named_constructor() {
    let via_call = call(FuncId::TsRank, vec![vector("v"), query("q")]).unwrap();
    let via_named = ts_rank(vector("v"), query("q")).unwrap();
    assert_eq!(via_call.render(), via_named.render());
}

#[test]
fn generic_call_rejects_a_wrong_argument_count() {
    let err = call(FuncId::TsRank, vec![vector("v")]).unwrap_err();
    assert_eq!(err, BuildError::TypeMismatch);
    let err2 = call(FuncId::Length, vec![vector("v"), vector("w")]).unwrap_err();
    assert_eq!(err2, BuildError::TypeMismatch);
}

#[test]
fn operator_for_another_dialect_is_refused() {
    assert_eq!(op_dialect(InfixOp::Matches), Dialect::Pg);
    let err = infix(InfixOp::Matches, Dialect::Mysql, vector("v"), query("q")).unwrap_err();
    assert_eq!(err, BuildError::DialectMismatch);
    let ok = infix(InfixOp::Matches, Dialect::Pg, vector("v"), query("q")).unwrap();
    assert_eq!(ok.render(), "v @@ q");
}

#[test]
fn undeclared_name_is_an_unknown_identifier() {
    let err = lookup_function("to_tsfoo").unwrap_err();
    assert_eq!(err, BuildError::UnknownIdentifier);
    assert_eq!(lookup_function("ts_rank").unwrap(), FuncId::TsRank);
    assert_eq!(
        lookup_function("to_tsquery_with_search_config").unwrap(),
        FuncId::ToTsqueryWithSearchConfig
    );
}

#[test]
fn operator_metadata_matches_the_declarations() {
    assert_eq!(token(InfixOp::Matches), " @@ ");
    assert_eq!(token(InfixOp::And), " && ");
    assert_eq!(token(InfixOp::Or), " || ");
    assert_eq!(token(InfixOp::Concat), " || ");
    assert_eq!(token(InfixOp::Contains), " @> ");
    assert_eq!(token(InfixOp::ContainedBy), " <@ ");
    assert_eq!(result_type(InfixOp::Concat), ScalarType::Tsvector);
    assert_eq!(result_type(InfixOp::Or), ScalarType::Tsquery);
    assert!(operands_ok(InfixOp::Matches, ScalarType::Tsquery, ScalarType::Tsvector));
    assert!(!operands_ok(InfixOp::Matches, ScalarType::Tsquery, ScalarType::Tsquery));
}

#[test]
fn wire_identifiers_match_the_registry() {
    assert_eq!(
        wire_ident(ScalarType::Tsquery),
        WireIdent::Oids { oid: 3615, array_oid: 3645 }
    );
    assert_eq!(
        wire_ident(ScalarType::Tsvector),
        WireIdent::Oids { oid: 3614, array_oid: 3643 }
    );
    assert_eq!(wire_ident(ScalarType::Regconfig), WireIdent::ByName);
    assert_eq!(wire_ident(ScalarType::Text), WireIdent::HostBuiltin);
    assert_eq!(sql_type_name(ScalarType::Tsquery), "tsquery");
    assert_eq!(sql_type_name(ScalarType::Tsvector), "tsvector");
    assert_eq!(sql_type_name(ScalarType::Regconfig), "regconfig");
}
