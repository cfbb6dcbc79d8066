//! The function catalog: the full-text-search function signatures the
//! library declares, each an ordered list of argument type tags and a
//! return type tag, rendered under a fixed SQL name.

use vstd::prelude::*;
use vstd::string::StringExecFns;
use crate::types::BuildError;
use crate::types::ScalarType;
use crate::expr::Expr;

verus! {

/// One declared function signature of the catalog.
///
/// `ToTsquery` / `ToTsqueryWithSearchConfig` (and likewise the `ToTsvector`
/// pair) are distinct constructors that render the identical SQL name: the
/// target dialect overloads these functions by argument count, so the catalog
/// keeps one signature per argument list.
#[derive(Clone, Copy, Debug, PartialEq, Eq, Structural)]
pub enum FuncId {
    Length,
    Numnode,
    PlaintoTsquery,
    Querytree,
    Strip,
    ToTsquery,
    ToTsqueryWithSearchConfig,
    ToTsvector,
    ToTsvectorWithSearchConfig,
    TsHeadline,
    TsRank,
    TsRankCd,
    PhrasetoTsquery,
    WebsearchToTsquery,
}

/// The SQL name a call of the function renders to.
pub open spec fn spec_rendered_name(f: FuncId) -> Seq<char> {
    match f {
        FuncId::Length => "length"@,
        FuncId::Numnode => "numnode"@,
        FuncId::PlaintoTsquery => "plainto_tsquery"@,
        FuncId::Querytree => "querytree"@,
        FuncId::Strip => "strip"@,
        FuncId::ToTsquery => "to_tsquery"@,
        FuncId::ToTsqueryWithSearchConfig => "to_tsquery"@,
        FuncId::ToTsvector => "to_tsvector"@,
        FuncId::ToTsvectorWithSearchConfig => "to_tsvector"@,
        FuncId::TsHeadline => "ts_headline"@,
        FuncId::TsRank => "ts_rank"@,
        FuncId::TsRankCd => "ts_rank_cd"@,
        FuncId::PhrasetoTsquery => "phraseto_tsquery"@,
        FuncId::WebsearchToTsquery => "websearch_to_tsquery"@,
    }
}

/// Look up the rendered SQL name of a function.
pub fn rendered_name(f: FuncId) -> (r: &'static str)
    ensures
        r@ == spec_rendered_name(f),
{
    match f {
        FuncId::Length => "length",
        FuncId::Numnode => "numnode",
        FuncId::PlaintoTsquery => "plainto_tsquery",
        FuncId::Querytree => "querytree",
        FuncId::Strip => "strip",
        FuncId::ToTsquery => "to_tsquery",
        FuncId::ToTsqueryWithSearchConfig => "to_tsquery",
        FuncId::ToTsvector => "to_tsvector",
        FuncId::ToTsvectorWithSearchConfig => "to_tsvector",
        FuncId::TsHeadline => "ts_headline",
        FuncId::TsRank => "ts_rank",
        FuncId::TsRankCd => "ts_rank_cd",
        FuncId::PhrasetoTsquery => "phraseto_tsquery",
        FuncId::WebsearchToTsquery => "websearch_to_tsquery",
    }
}

/// The declared argument types of the function, in order. Every call must
/// supply exactly these, checked at construction time.
pub open spec fn spec_arg_types(f: FuncId) -> Seq<ScalarType> {
    match f {
        FuncId::Length => seq![ScalarType::Tsvector],
        FuncId::Numnode => seq![ScalarType::Tsquery],
        FuncId::PlaintoTsquery => seq![ScalarType::Text],
        FuncId::Querytree => seq![ScalarType::Tsquery],
        FuncId::Strip => seq![ScalarType::Tsvector],
        FuncId::ToTsquery => seq![ScalarType::Text],
        FuncId::ToTsqueryWithSearchConfig => seq![ScalarType::Regconfig, ScalarType::Text],
        FuncId::ToTsvector => seq![ScalarType::Text],
        FuncId::ToTsvectorWithSearchConfig => seq![ScalarType::Regconfig, ScalarType::Text],
        FuncId::TsHeadline => seq![ScalarType::Text, ScalarType::Tsquery],
        FuncId::TsRank => seq![ScalarType::Tsvector, ScalarType::Tsquery],
        FuncId::TsRankCd => seq![ScalarType::Tsvector, ScalarType::Tsquery],
        FuncId::PhrasetoTsquery => seq![ScalarType::Text],
        FuncId::WebsearchToTsquery => seq![ScalarType::Text],
    }
}

/// The declared return type of the function.
pub open spec fn spec_ret_type(f: FuncId) -> ScalarType {
    match f {
        FuncId::Length => ScalarType::Integer,
        FuncId::Numnode => ScalarType::Integer,
        FuncId::PlaintoTsquery => ScalarType::Tsquery,
        FuncId::Querytree => ScalarType::Text,
        FuncId::Strip => ScalarType::Tsvector,
        FuncId::ToTsquery => ScalarType::Tsquery,
        FuncId::ToTsqueryWithSearchConfig => ScalarType::Tsquery,
        FuncId::ToTsvector => ScalarType::Tsvector,
        FuncId::ToTsvectorWithSearchConfig => ScalarType::Tsvector,
        FuncId::TsHeadline => ScalarType::Text,
        FuncId::TsRank => ScalarType::Float,
        FuncId::TsRankCd => ScalarType::Float,
        FuncId::PhrasetoTsquery => ScalarType::Tsquery,
        FuncId::WebsearchToTsquery => ScalarType::Tsquery,
    }
}

/// Look up the declared return type of a function.
pub fn ret_type(f: FuncId) -> (r: ScalarType)
    ensures
        r == spec_ret_type(f),
{
    match f {
        FuncId::Length => ScalarType::Integer,
        FuncId::Numnode => ScalarType::Integer,
        FuncId::PlaintoTsquery => ScalarType::Tsquery,
        FuncId::Querytree => ScalarType::Text,
        FuncId::Strip => ScalarType::Tsvector,
        FuncId::ToTsquery => ScalarType::Tsquery,
        FuncId::ToTsqueryWithSearchConfig => ScalarType::Tsquery,
        FuncId::ToTsvector => ScalarType::Tsvector,
        FuncId::ToTsvectorWithSearchConfig => ScalarType::Tsvector,
        FuncId::TsHeadline => ScalarType::Text,
        FuncId::TsRank => ScalarType::Float,
        FuncId::TsRankCd => ScalarType::Float,
        FuncId::PhrasetoTsquery => ScalarType::Tsquery,
        FuncId::WebsearchToTsquery => ScalarType::Tsquery,
    }
}

/// Look up the declared argument types of a function, in order.
pub fn arg_types(f: FuncId) -> (r: Vec<ScalarType>)
    ensures
        r@ == spec_arg_types(f),
{
    let mut v: Vec<ScalarType> = Vec::new();
    match f {
        FuncId::Length => { v.push(ScalarType::Tsvector); }
        FuncId::Numnode => { v.push(ScalarType::Tsquery); }
        FuncId::PlaintoTsquery => { v.push(ScalarType::Text); }
        FuncId::Querytree => { v.push(ScalarType::Tsquery); }
        FuncId::Strip => { v.push(ScalarType::Tsvector); }
        FuncId::ToTsquery => { v.push(ScalarType::Text); }
        FuncId::ToTsqueryWithSearchConfig => {
            v.push(ScalarType::Regconfig);
            v.push(ScalarType::Text);
        }
        FuncId::ToTsvector => { v.push(ScalarType::Text); }
        FuncId::ToTsvectorWithSearchConfig => {
            v.push(ScalarType::Regconfig);
            v.push(ScalarType::Text);
        }
        FuncId::TsHeadline => {
            v.push(ScalarType::Text);
            v.push(ScalarType::Tsquery);
        }
        FuncId::TsRank => {
            v.push(ScalarType::Tsvector);
            v.push(ScalarType::Tsquery);
        }
        FuncId::TsRankCd => {
            v.push(ScalarType::Tsvector);
            v.push(ScalarType::Tsquery);
        }
        FuncId::PhrasetoTsquery => { v.push(ScalarType::Text); }
        FuncId::WebsearchToTsquery => { v.push(ScalarType::Text); }
    }
    proof {
        assert(v@ =~= spec_arg_types(f));
    }
    v
}

/// Whether an argument list matches the function's declared signature:
/// exactly the declared count, and the declared type tag at every position.
pub open spec fn spec_args_match(f: FuncId, args: Seq<Expr>) -> bool {
    &&& args.len() == spec_arg_types(f).len()
    &&& forall|i: int| 0 <= i < args.len() ==> args[i].ty() == spec_arg_types(f)[i]
}

/// The rendered text of an argument list: the arguments' renderings joined
/// by a comma and a single space.
pub open spec fn spec_render_args(args: Seq<Expr>) -> Seq<char>
    decreases args.len(),
{
    if args.len() == 0 {
        Seq::empty()
    } else if args.len() == 1 {
        args[0].spec_render()
    } else {
        args[0].spec_render() + ", "@ + spec_render_args(args.drop_first())
    }
}

fn unary(f: FuncId, x: Expr) -> (r: Result<Expr, BuildError>)
    requires
        spec_arg_types(f).len() == 1,
    ensures
        x.ty() != spec_arg_types(f)[0] ==> r == Err::<Expr, BuildError>(BuildError::TypeMismatch),
        x.ty() == spec_arg_types(f)[0] ==> match r {
            Ok(e) => {
                &&& e.ty() == spec_ret_type(f)
                &&& (e.wf() <==> x.wf())
                &&& e.spec_render() == spec_rendered_name(f) + "("@ + x.spec_render() + ")"@
            },
            Err(_) => false,
        },
{
    let types = arg_types(f);
    if x.sql_type() == types[0] {
        Ok(Expr::Call1 { func: f, arg: Box::new(x) })
    } else {
        Err(BuildError::TypeMismatch)
    }
}

fn binary(f: FuncId, x: Expr, y: Expr) -> (r: Result<Expr, BuildError>)
    requires
        spec_arg_types(f).len() == 2,
    ensures
        !(x.ty() == spec_arg_types(f)[0] && y.ty() == spec_arg_types(f)[1]) ==> r == Err::<
            Expr,
            BuildError,
        >(BuildError::TypeMismatch),
        x.ty() == spec_arg_types(f)[0] && y.ty() == spec_arg_types(f)[1] ==> match r {
            Ok(e) => {
                &&& e.ty() == spec_ret_type(f)
                &&& (e.wf() <==> x.wf() && y.wf())
                &&& e.spec_render() == spec_rendered_name(f) + "("@ + x.spec_render() + ", "@
                    + y.spec_render() + ")"@
            },
            Err(_) => false,
        },
{
    let types = arg_types(f);
    if x.sql_type() == types[0] && y.sql_type() == types[1] {
        Ok(Expr::Call2 { func: f, arg0: Box::new(x), arg1: Box::new(y) })
    } else {
        Err(BuildError::TypeMismatch)
    }
}

/// The single generic constructor behind the catalog: apply a declared
/// function to an argument list. Construction checks the supplied count and
/// each expression's tag against the declared signature exactly; a mismatch
/// fails the build, and a match yields the call node, which renders as
/// `name(arg)` or `name(arg0, arg1)` under the declared SQL name.
pub fn call(f: FuncId, args: Vec<Expr>) -> (r: Result<Expr, BuildError>)
    ensures
        !spec_args_match(f, args@) ==> r == Err::<Expr, BuildError>(BuildError::TypeMismatch),
        spec_args_match(f, args@) ==> match r {
            Ok(e) => {
                &&& e.ty() == spec_ret_type(f)
                &&& (e.wf() <==> (forall|i: int| 0 <= i < args@.len() ==> args@[i].wf()))
                &&& e.spec_render() == spec_rendered_name(f) + "("@ + spec_render_args(args@)
                    + ")"@
            },
            Err(_) => false,
        },
{
    let ghost a0 = args@;
    let types = arg_types(f);
    let mut args = args;
    if args.len() != types.len() {
        return Err(BuildError::TypeMismatch);
    }
    if args.len() == 1 {
        let x = args.pop().unwrap();
        let r = unary(f, x);
        proof {
            assert(x == a0[0]);
            if x.ty() != spec_arg_types(f)[0] {
                assert(!spec_args_match(f, a0));
            } else {
                assert(spec_args_match(f, a0));
                assert(spec_render_args(a0) == x.spec_render());
            }
        }
        r
    } else {
        proof {
            assert(spec_arg_types(f).len() == 1 || spec_arg_types(f).len() == 2);
            assert(a0.len() == 2);
        }
        let y = args.pop().unwrap();
        let x = args.pop().unwrap();
        let r = binary(f, x, y);
        proof {
            assert(x == a0[0]);
            assert(y == a0[1]);
            if x.ty() == spec_arg_types(f)[0] && y.ty() == spec_arg_types(f)[1] {
                assert(spec_args_match(f, a0)) by {
                    assert(forall|i: int| 0 <= i < a0.len() ==> a0[i].ty()
                        == spec_arg_types(f)[i]) by {
                        assert(a0[0].ty() == spec_arg_types(f)[0]);
                        assert(a0[1].ty() == spec_arg_types(f)[1]);
                    }
                }
                assert(a0.drop_first().len() == 1);
                assert(a0.drop_first()[0] == a0[1]);
                assert(spec_render_args(a0.drop_first()) == y.spec_render());
                assert(spec_render_args(a0) =~= x.spec_render() + ", "@ + y.spec_render());
                if r is Ok {
                    assert((r->Ok_0).spec_render() =~= spec_rendered_name(f) + "("@
                        + spec_render_args(a0) + ")"@);
                }
            } else {
                assert(!spec_args_match(f, a0));
            }
        }
        r
    }
}

/// Build `length(vector)`: the number of lexemes in a vector.
pub fn length(x: Expr) -> (r: Result<Expr, BuildError>)
    ensures
        x.ty() != ScalarType::Tsvector ==> r == Err::<Expr, BuildError>(BuildError::TypeMismatch),
        x.ty() == ScalarType::Tsvector ==> match r {
            Ok(e) => {
                &&& e.ty() == ScalarType::Integer
                &&& (e.wf() <==> x.wf())
                &&& e.spec_render() == spec_rendered_name(FuncId::Length) + "("@ + x.spec_render()
                    + ")"@
            },
            Err(_) => false,
        },
{
    unary(FuncId::Length, x)
}

/// Build `numnode(query)`: the number of lexemes plus operators in a query.
pub fn numnode(x: Expr) -> (r: Result<Expr, BuildError>)
    ensures
        x.ty() != ScalarType::Tsquery ==> r == Err::<Expr, BuildError>(BuildError::TypeMismatch),
        x.ty() == ScalarType::Tsquery ==> match r {
            Ok(e) => {
                &&& e.ty() == ScalarType::Integer
                &&& (e.wf() <==> x.wf())
                &&& e.spec_render() == spec_rendered_name(FuncId::Numnode) + "("@ + x.spec_render()
                    + ")"@
            },
            Err(_) => false,
        },
{
    unary(FuncId::Numnode, x)
}

/// Build `plainto_tsquery(text)`: plain text converted to a query.
pub fn plainto_tsquery(x: Expr) -> (r: Result<Expr, BuildError>)
    ensures
        x.ty() != ScalarType::Text ==> r == Err::<Expr, BuildError>(BuildError::TypeMismatch),
        x.ty() == ScalarType::Text ==> match r {
            Ok(e) => {
                &&& e.ty() == ScalarType::Tsquery
                &&& (e.wf() <==> x.wf())
                &&& e.spec_render() == spec_rendered_name(FuncId::PlaintoTsquery) + "("@
                    + x.spec_render() + ")"@
            },
            Err(_) => false,
        },
{
    unary(FuncId::PlaintoTsquery, x)
}

/// Build `querytree(query)`: the indexable part of a query, as text.
pub fn querytree(x: Expr) -> (r: Result<Expr, BuildError>)
    ensures
        x.ty() != ScalarType::Tsquery ==> r == Err::<Expr, BuildError>(BuildError::TypeMismatch),
        x.ty() == ScalarType::Tsquery ==> match r {
            Ok(e) => {
                &&& e.ty() == ScalarType::Text
                &&& (e.wf() <==> x.wf())
                &&& e.spec_render() == spec_rendered_name(FuncId::Querytree) + "("@
                    + x.spec_render() + ")"@
            },
            Err(_) => false,
        },
{
    unary(FuncId::Querytree, x)
}

/// Build `strip(vector)`: the vector with position information removed.
pub fn strip(x: Expr) -> (r: Result<Expr, BuildError>)
    ensures
        x.ty() != ScalarType::Tsvector ==> r == Err::<Expr, BuildError>(BuildError::TypeMismatch),
        x.ty() == ScalarType::Tsvector ==> match r {
            Ok(e) => {
                &&& e.ty() == ScalarType::Tsvector
                &&& (e.wf() <==> x.wf())
                &&& e.spec_render() == spec_rendered_name(FuncId::Strip) + "("@ + x.spec_render()
                    + ")"@
            },
            Err(_) => false,
        },
{
    unary(FuncId::Strip, x)
}

/// Build `to_tsquery(text)`: query syntax parsed under the default search
/// configuration.
pub fn to_tsquery(x: Expr) -> (r: Result<Expr, BuildError>)
    ensures
        x.ty() != ScalarType::Text ==> r == Err::<Expr, BuildError>(BuildError::TypeMismatch),
        x.ty() == ScalarType::Text ==> match r {
            Ok(e) => {
                &&& e.ty() == ScalarType::Tsquery
                &&& (e.wf() <==> x.wf())
                &&& e.spec_render() == spec_rendered_name(FuncId::ToTsquery) + "("@
                    + x.spec_render() + ")"@
            },
            Err(_) => false,
        },
{
    unary(FuncId::ToTsquery, x)
}

/// Build `to_tsquery(config, text)`: the configuration-qualified overload of
/// `to_tsquery`, rendering the identical SQL name with a two-argument list.
pub fn to_tsquery_with_search_config(config: Expr, querytext: Expr) -> (r: Result<
    Expr,
    BuildError,
>)
    ensures
        !(config.ty() == ScalarType::Regconfig && querytext.ty() == ScalarType::Text) ==> r
            == Err::<Expr, BuildError>(BuildError::TypeMismatch),
        config.ty() == ScalarType::Regconfig && querytext.ty() == ScalarType::Text ==> match r {
            Ok(e) => {
                &&& e.ty() == ScalarType::Tsquery
                &&& (e.wf() <==> config.wf() && querytext.wf())
                &&& e.spec_render() == spec_rendered_name(FuncId::ToTsqueryWithSearchConfig)
                    + "("@ + config.spec_render() + ", "@ + querytext.spec_render() + ")"@
            },
            Err(_) => false,
        },
{
    binary(FuncId::ToTsqueryWithSearchConfig, config, querytext)
}

/// Build `to_tsvector(text)`: a document converted to a vector under the
/// default search configuration.
pub fn to_tsvector(x: Expr) -> (r: Result<Expr, BuildError>)
    ensures
        x.ty() != ScalarType::Text ==> r == Err::<Expr, BuildError>(BuildError::TypeMismatch),
        x.ty() == ScalarType::Text ==> match r {
            Ok(e) => {
                &&& e.ty() == ScalarType::Tsvector
                &&& (e.wf() <==> x.wf())
                &&& e.spec_render() == spec_rendered_name(FuncId::ToTsvector) + "("@
                    + x.spec_render() + ")"@
            },
            Err(_) => false,
        },
{
    unary(FuncId::ToTsvector, x)
}

/// Build `to_tsvector(config, text)`: the configuration-qualified overload of
/// `to_tsvector`, rendering the identical SQL name with a two-argument list.
pub fn to_tsvector_with_search_config(config: Expr, document_content: Expr) -> (r: Result<
    Expr,
    BuildError,
>)
    ensures
        !(config.ty() == ScalarType::Regconfig && document_content.ty() == ScalarType::Text) ==> r
            == Err::<Expr, BuildError>(BuildError::TypeMismatch),
        config.ty() == ScalarType::Regconfig && document_content.ty() == ScalarType::Text
            ==> match r {
            Ok(e) => {
                &&& e.ty() == ScalarType::Tsvector
                &&& (e.wf() <==> config.wf() && document_content.wf())
                &&& e.spec_render() == spec_rendered_name(FuncId::ToTsvectorWithSearchConfig)
                    + "("@ + config.spec_render() + ", "@ + document_content.spec_render() + ")"@
            },
            Err(_) => false,
        },
{
    binary(FuncId::ToTsvectorWithSearchConfig, config, document_content)
}

/// Build `ts_headline(text, query)`: the document fragments that match the
/// query, as text.
pub fn ts_headline(x: Expr, y: Expr) -> (r: Result<Expr, BuildError>)
    ensures
        !(x.ty() == ScalarType::Text && y.ty() == ScalarType::Tsquery) ==> r == Err::<
            Expr,
            BuildError,
        >(BuildError::TypeMismatch),
        x.ty() == ScalarType::Text && y.ty() == ScalarType::Tsquery ==> match r {
            Ok(e) => {
                &&& e.ty() == ScalarType::Text
                &&& (e.wf() <==> x.wf() && y.wf())
                &&& e.spec_render() == spec_rendered_name(FuncId::TsHeadline) + "("@
                    + x.spec_render() + ", "@ + y.spec_render() + ")"@
            },
            Err(_) => false,
        },
{
    binary(FuncId::TsHeadline, x, y)
}

/// Build `ts_rank(vector, query)`: how well the vector matches the query,
/// of floating-point result type.
pub fn ts_rank(x: Expr, y: Expr) -> (r: Result<Expr, BuildError>)
    ensures
        !(x.ty() == ScalarType::Tsvector && y.ty() == ScalarType::Tsquery) ==> r == Err::<
            Expr,
            BuildError,
        >(BuildError::TypeMismatch),
        x.ty() == ScalarType::Tsvector && y.ty() == ScalarType::Tsquery ==> match r {
            Ok(e) => {
                &&& e.ty() == ScalarType::Float
                &&& (e.wf() <==> x.wf() && y.wf())
                &&& e.spec_render() == spec_rendered_name(FuncId::TsRank) + "("@ + x.spec_render()
                    + ", "@ + y.spec_render() + ")"@
            },
            Err(_) => false,
        },
{
    binary(FuncId::TsRank, x, y)
}

/// Build `ts_rank_cd(vector, query)`: cover-density ranking, of
/// floating-point result type.
pub fn ts_rank_cd(x: Expr, y: Expr) -> (r: Result<Expr, BuildError>)
    ensures
        !(x.ty() == ScalarType::Tsvector && y.ty() == ScalarType::Tsquery) ==> r == Err::<
            Expr,
            BuildError,
        >(BuildError::TypeMismatch),
        x.ty() == ScalarType::Tsvector && y.ty() == ScalarType::Tsquery ==> match r {
            Ok(e) => {
                &&& e.ty() == ScalarType::Float
                &&& (e.wf() <==> x.wf() && y.wf())
                &&& e.spec_render() == spec_rendered_name(FuncId::TsRankCd) + "("@
                    + x.spec_render() + ", "@ + y.spec_render() + ")"@
            },
            Err(_) => false,
        },
{
    binary(FuncId::TsRankCd, x, y)
}

/// Build `phraseto_tsquery(text)`: plain text converted to a phrase query.
pub fn phraseto_tsquery(x: Expr) -> (r: Result<Expr, BuildError>)
    ensures
        x.ty() != ScalarType::Text ==> r == Err::<Expr, BuildError>(BuildError::TypeMismatch),
        x.ty() == ScalarType::Text ==> match r {
            Ok(e) => {
                &&& e.ty() == ScalarType::Tsquery
                &&& (e.wf() <==> x.wf())
                &&& e.spec_render() == spec_rendered_name(FuncId::PhrasetoTsquery) + "("@
                    + x.spec_render() + ")"@
            },
            Err(_) => false,
        },
{
    unary(FuncId::PhrasetoTsquery, x)
}

/// Build `websearch_to_tsquery(text)`: web-search syntax converted to a
/// query.
pub fn websearch_to_tsquery(x: Expr) -> (r: Result<Expr, BuildError>)
    ensures
        x.ty() != ScalarType::Text ==> r == Err::<Expr, BuildError>(BuildError::TypeMismatch),
        x.ty() == ScalarType::Text ==> match r {
            Ok(e) => {
                &&& e.ty() == ScalarType::Tsquery
                &&& (e.wf() <==> x.wf())
                &&& e.spec_render() == spec_rendered_name(FuncId::WebsearchToTsquery) + "("@
                    + x.spec_render() + ")"@
            },
            Err(_) => false,
        },
{
    unary(FuncId::WebsearchToTsquery, x)
}

/// The name a constructor is declared under. Unlike the rendered SQL name,
/// declared names are unique: the configuration-qualified overloads carry
/// their own names.
pub open spec fn spec_constructor_name(f: FuncId) -> Seq<char> {
    match f {
        FuncId::Length => "length"@,
        FuncId::Numnode => "numnode"@,
        FuncId::PlaintoTsquery => "plainto_tsquery"@,
        FuncId::Querytree => "querytree"@,
        FuncId::Strip => "strip"@,
        FuncId::ToTsquery => "to_tsquery"@,
        FuncId::ToTsqueryWithSearchConfig => "to_tsquery_with_search_config"@,
        FuncId::ToTsvector => "to_tsvector"@,
        FuncId::ToTsvectorWithSearchConfig => "to_tsvector_with_search_config"@,
        FuncId::TsHeadline => "ts_headline"@,
        FuncId::TsRank => "ts_rank"@,
        FuncId::TsRankCd => "ts_rank_cd"@,
        FuncId::PhrasetoTsquery => "phraseto_tsquery"@,
        FuncId::WebsearchToTsquery => "websearch_to_tsquery"@,
    }
}

/// Resolve a declared constructor name to its catalog entry. A name the
/// catalog never declared is an unknown identifier.
pub fn lookup_function(name: &str) -> (r: Result<FuncId, BuildError>)
    ensures
        match r {
            Ok(f) => name@ == spec_constructor_name(f),
            Err(err) => {
                &&& err == BuildError::UnknownIdentifier
                &&& forall|f: FuncId| name@ != #[trigger] spec_constructor_name(f)
            },
        },
{
    let n = String::from_str(name);
    if n == String::from_str("length") {
        Ok(FuncId::Length)
    } else if n == String::from_str("numnode") {
        Ok(FuncId::Numnode)
    } else if n == String::from_str("plainto_tsquery") {
        Ok(FuncId::PlaintoTsquery)
    } else if n == String::from_str("querytree") {
        Ok(FuncId::Querytree)
    } else if n == String::from_str("strip") {
        Ok(FuncId::Strip)
    } else if n == String::from_str("to_tsquery") {
        Ok(FuncId::ToTsquery)
    } else if n == String::from_str("to_tsquery_with_search_config") {
        Ok(FuncId::ToTsqueryWithSearchConfig)
    } else if n == String::from_str("to_tsvector") {
        Ok(FuncId::ToTsvector)
    } else if n == String::from_str("to_tsvector_with_search_config") {
        Ok(FuncId::ToTsvectorWithSearchConfig)
    } else if n == String::from_str("ts_headline") {
        Ok(FuncId::TsHeadline)
    } else if n == String::from_str("ts_rank") {
        Ok(FuncId::TsRank)
    } else if n == String::from_str("ts_rank_cd") {
        Ok(FuncId::TsRankCd)
    } else if n == String::from_str("phraseto_tsquery") {
        Ok(FuncId::PhrasetoTsquery)
    } else if n == String::from_str("websearch_to_tsquery") {
        Ok(FuncId::WebsearchToTsquery)
    } else {
        Err(BuildError::UnknownIdentifier)
    }
}

} // verus!
