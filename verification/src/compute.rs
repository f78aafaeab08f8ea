//! The computation evaluator: a small provider-authored expression evaluated
//! against a JSON context.  Expressions project fields out of the context,
//! name literal values, and compose results into nested objects.  Evaluation
//! is pure and total: a malformed projection yields an error, never a trap.

use crate::json::{fields_v, get_spec, json_v, Json, JsonV};
use vstd::prelude::*;

verus! {

/// A provider-authored expression.
#[derive(Debug, PartialEq, Eq)]
pub enum Expr {
    /// A literal JSON value.
    Lit(Json),
    /// Projection of a (possibly nested) field out of the context.
    Path(Vec<String>),
    /// Construction of an object, each field built from a sub-expression.
    Object(Vec<(String, Expr)>),
}

/// Mathematical model of an expression.
#[verifier::ext_equal]
pub enum ExprV {
    Lit(JsonV),
    Path(Seq<Seq<char>>),
    Object(Seq<(Seq<char>, ExprV)>),
}

/// Model of an expression.
pub open spec fn expr_v(e: Expr) -> ExprV
    decreases e,
{
    match e {
        Expr::Lit(j) => ExprV::Lit(json_v(j)),
        Expr::Path(p) => ExprV::Path(p@.map_values(|s: String| s@)),
        Expr::Object(v) => ExprV::Object(expr_fields_v(v@)),
    }
}

/// Model of an object expression's field list.
pub open spec fn expr_fields_v(fields: Seq<(String, Expr)>) -> Seq<(Seq<char>, ExprV)>
    decreases fields,
{
    Seq::new(
        fields.len(),
        |i: int|
            if 0 <= i < fields.len() {
                (fields[i].0@, expr_v(fields[i].1))
            } else {
                (Seq::<char>::empty(), ExprV::Lit(JsonV::Null))
            },
    )
}

impl View for Expr {
    type V = ExprV;

    open spec fn view(&self) -> ExprV {
        expr_v(*self)
    }
}

/// Walks `path` down through nested objects of `j`; `None` as soon as a
/// component is missing or the current value is not an object.
pub open spec fn project_v(j: JsonV, path: Seq<Seq<char>>) -> Option<JsonV>
    decreases path.len(),
{
    if path.len() == 0 {
        Some(j)
    } else {
        match get_spec(j, path[0]) {
            Some(v) => project_v(v, path.skip(1)),
            None => None,
        }
    }
}

/// What evaluating an expression against a context yields; `None` is an
/// evaluation error.
pub open spec fn eval_v(e: ExprV, ctx: JsonV) -> Option<JsonV>
    decreases e, 0int,
{
    match e {
        ExprV::Lit(j) => Some(j),
        ExprV::Path(p) => project_v(ctx, p),
        ExprV::Object(fields) => match eval_fields_v(fields, ctx, 0) {
            Some(out) => Some(JsonV::Obj(out)),
            None => None,
        },
    }
}

/// Evaluates the field expressions from position `i` on; `None` as soon as
/// one of them fails.
pub open spec fn eval_fields_v(fields: Seq<(Seq<char>, ExprV)>, ctx: JsonV, i: int) -> Option<
    Seq<(Seq<char>, JsonV)>,
>
    decreases fields, fields.len() - i,
{
    if i < 0 || i >= fields.len() {
        Some(Seq::empty())
    } else {
        match eval_v(fields[i].1, ctx) {
            Some(head) => match eval_fields_v(fields, ctx, i + 1) {
                Some(rest) => Some(seq![(fields[i].0, head)] + rest),
                None => None,
            },
            None => None,
        }
    }
}

/// Evaluation failed: a malformed projection or sub-expression.
#[derive(Debug, PartialEq, Eq)]
pub struct EvalError;

/// Evaluates `e` against the context `ctx`.
pub fn evaluate(e: &Expr, ctx: &Json) -> (r: Result<Json, EvalError>)
    ensures
        match r {
            Ok(j) => eval_v(e@, ctx@) == Some(j@),
            Err(_) => eval_v(e@, ctx@) is None,
        },
    decreases *e, 0int,
{
    match e {
        Expr::Lit(j) => Ok(j.deep_copy()),
        Expr::Path(p) => {
            let mut cur: &Json = ctx;
            let mut i: usize = 0;
            proof {
                assert(p@.map_values(|s: String| s@).skip(0) =~= p@.map_values(|s: String| s@));
            }
            while i < p.len()
                invariant
                    *e is Path,
                    (*e)->Path_0 == *p,
                    i <= p.len(),
                    project_v(ctx@, p@.map_values(|s: String| s@)) == project_v(
                        cur@,
                        p@.map_values(|s: String| s@).skip(i as int),
                    ),
                decreases p.len() - i,
            {
                proof {
                    let pv = p@.map_values(|s: String| s@);
                    assert(pv.skip(i as int)[0] == pv[i as int]);
                    assert(pv.skip(i as int).skip(1) =~= pv.skip(i as int + 1));
                }
                match cur.get(&p[i]) {
                    Some(v) => {
                        cur = v;
                        i = i + 1;
                    },
                    None => {
                        return Err(EvalError);
                    },
                }
            }
            proof {
                let pv = p@.map_values(|s: String| s@);
                assert(pv.skip(i as int) =~= Seq::<Seq<char>>::empty());
                assert(pv.skip(i as int).len() == 0);
            }
            Ok(cur.deep_copy())
        },
        Expr::Object(fields) => {
            match eval_fields(fields, ctx, 0) {
                Ok(out) => Ok(Json::Obj(out)),
                Err(e) => Err(e),
            }
        },
    }
}

/// Evaluates the field expressions from position `i` on.
fn eval_fields(fields: &Vec<(String, Expr)>, ctx: &Json, i: usize) -> (r: Result<
    Vec<(String, Json)>,
    EvalError,
>)
    requires
        i <= fields@.len(),
    ensures
        match r {
            Ok(v) => eval_fields_v(expr_fields_v(fields@), ctx@, i as int) == Some(fields_v(v@)),
            Err(_) => eval_fields_v(expr_fields_v(fields@), ctx@, i as int) is None,
        },
    decreases fields@, fields@.len() - i,
{
    if i == fields.len() {
        let r: Vec<(String, Json)> = Vec::new();
        proof {
            assert(fields_v(r@) =~= Seq::<(Seq<char>, JsonV)>::empty());
        }
        Ok(r)
    } else {
        proof {
            assert(decreases_to!(fields@ => fields@[i as int]));
            assert(decreases_to!(fields@[i as int] => fields@[i as int].1));
        }
        let head = match evaluate(&fields[i].1, ctx) {
            Ok(h) => h,
            Err(e) => {
                return Err(e);
            },
        };
        let ghost headv = head@;
        let mut rest = match eval_fields(fields, ctx, i + 1) {
            Ok(v) => v,
            Err(e) => {
                return Err(e);
            },
        };
        let ghost restv = rest@;
        let mut out: Vec<(String, Json)> = Vec::new();
        out.push((fields[i].0.clone(), head));
        out.append(&mut rest);
        proof {
            let efv = expr_fields_v(fields@);
            assert(efv[i as int] == (fields@[i as int].0@, expr_v(fields@[i as int].1)));
            let target = seq![(fields@[i as int].0@, headv)] + fields_v(restv);
            assert forall|k: int| 0 <= k < out@.len() implies fields_v(out@)[k] == target[k] by {
                if k > 0 {
                    assert(out@[k] == restv[k - 1]);
                    assert(fields_v(restv)[k - 1] == (restv[k - 1].0@, json_v(restv[k - 1].1)));
                }
            }
            assert(fields_v(out@) =~= target);
        }
        Ok(out)
    }
}

} // verus!
