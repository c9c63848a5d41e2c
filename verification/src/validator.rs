//! The compiled validator tree and its mathematical semantics.
//!
//! `CombinedValidator` is the closed set of variant nodes; one variant per
//! schema shape.  `eval_node` is the mathematical meaning of validation:
//! every executable `validate` is proved to return exactly what
//! `eval_node` says, so laws about the engine are laws about `eval_node`.

use vstd::prelude::*;
use std::sync::Arc;
use crate::value::Value;
use crate::value::ValueS;
use crate::errors::ErrorKind;
use crate::errors::LineS;
use crate::errors::ValError;
use crate::state::Exactness;
use crate::state::RECURSION_LIMIT;
use crate::state::ValidationState;
use crate::state::spec_exact_opt_min;
use crate::generator::InternalValidator;
use crate::generator::Producer;
use crate::generator::ValidatorIterator;

verus! {

broadcast use vstd::seq::axiom_seq_index_decreases, vstd::std_specs::vec::axiom_vec_decreases_to_view, vstd::std_specs::vec::axiom_vec_index_decreases;

/// The lazy-sequence variant: validates a producer of values pulled one
/// at a time, deferring per-item validation to consumption time.
#[derive(Debug)]
pub struct GeneratorValidator {
    pub item_validator: Option<Arc<CombinedValidator>>,
    pub min_length: Option<usize>,
    pub max_length: Option<usize>,
    pub name: String,
    pub hide_input_in_errors: bool,
    pub validation_error_cause: bool,
}

/// One compiled variant node of the validator tree.
#[derive(Debug)]
pub enum CombinedValidator {
    /// Accepts any input unchanged.
    Any,
    /// Accepts an integer exactly; in lax mode coerces a boolean.
    Int,
    /// Accepts a string exactly.
    Str,
    /// Wraps one inner node; the null sentinel short-circuits to null.
    Nullable(Box<CombinedValidator>),
    /// Tries alternatives in declaration order, keeping the best match.
    Union(Vec<CombinedValidator>),
    /// Reference into the definitions table, resolved at validation time.
    DefinitionRef(usize),
    /// Lazy sequence of per-item validations.
    Generator(GeneratorValidator),
}

/// The flat table of compiled definitions that references resolve into.
#[derive(Debug)]
pub struct Definitions {
    pub nodes: Vec<CombinedValidator>,
}

/// Well-formedness of a node against a definitions table of `n` entries:
/// every reference stays inside the table.
pub open spec fn wf_node(node: CombinedValidator, n: int) -> bool
    decreases node, 0nat,
{
    match node {
        CombinedValidator::Nullable(inner) => wf_node(*inner, n),
        CombinedValidator::Union(alts) => wf_alts(alts, n, 0),
        CombinedValidator::DefinitionRef(i) => 0 <= i < n,
        CombinedValidator::Generator(g) => match g.item_validator {
            Some(a) => wf_node(*a, n),
            None => true,
        },
        _ => true,
    }
}

pub open spec fn wf_alts(alts: Vec<CombinedValidator>, n: int, k: int) -> bool
    decreases alts, alts@.len() - k + 1,
{
    k >= alts@.len() || (0 <= k && wf_node(alts@[k], n) && wf_alts(alts, n, k + 1))
}

impl Definitions {
    /// Every node of the table is well-formed against the table itself.
    pub open spec fn wf(&self) -> bool {
        forall|i: int|
            0 <= i < self.nodes@.len() ==> wf_node(#[trigger] self.nodes@[i], self.nodes@.len() as int)
    }
}

/// Context a lazy stream re-validates items under, seeded from the state
/// at the moment the stream was created.
pub struct ItemCtxS {
    pub name: Seq<char>,
    pub node: CombinedValidator,
    pub defs: Seq<CombinedValidator>,
    pub strict: bool,
    pub depth: nat,
}

/// Mathematical model of a validated-producer handle.
pub struct StreamS {
    pub items: Seq<ValueS>,
    pub pos: nat,
    pub yielded: nat,
    pub min_length: Option<usize>,
    pub max_length: Option<usize>,
    pub hide: bool,
    pub cause: bool,
    pub item: Option<ItemCtxS>,
}

/// A successful validation produces either a converted value or a
/// validated-producer handle (for lazy sequences).
pub enum OutS {
    Val(ValueS),
    Stream(StreamS),
}

/// Everything one validation of one node yields: the result, the
/// exactness of the match, and whether partial mode was forced off.
pub struct SOut {
    pub res: Result<OutS, Seq<LineS>>,
    pub exact: Exactness,
    pub partial_off: bool,
}

/// A single failure line with an empty path.
pub open spec fn one_line(kind: ErrorKind, input: ValueS) -> Seq<LineS> {
    seq![(LineS { kind, path: Seq::empty(), input })]
}

/// The meaning of validating `input` against `node` with `depth`
/// schema-reference resolutions already active.
pub open spec fn eval_node(
    node: CombinedValidator,
    defs: Seq<CombinedValidator>,
    input: ValueS,
    strict: bool,
    depth: nat,
) -> SOut
    decreases RECURSION_LIMIT - depth, node, 0nat,
{
    match node {
        CombinedValidator::Any => SOut {
            res: Ok(OutS::Val(input)),
            exact: Exactness::Exact,
            partial_off: false,
        },
        CombinedValidator::Int => match input {
            ValueS::Int(_) => SOut {
                res: Ok(OutS::Val(input)),
                exact: Exactness::Exact,
                partial_off: false,
            },
            ValueS::Bool(b) => if !strict {
                SOut {
                    res: Ok(OutS::Val(ValueS::Int(if b { 1int } else { 0int }))),
                    exact: Exactness::Lax,
                    partial_off: false,
                }
            } else {
                SOut {
                    res: Err(one_line(ErrorKind::IntType, input)),
                    exact: Exactness::Exact,
                    partial_off: false,
                }
            },
            _ => SOut {
                res: Err(one_line(ErrorKind::IntType, input)),
                exact: Exactness::Exact,
                partial_off: false,
            },
        },
        CombinedValidator::Str => match input {
            ValueS::Str(_) => SOut {
                res: Ok(OutS::Val(input)),
                exact: Exactness::Exact,
                partial_off: false,
            },
            _ => SOut {
                res: Err(one_line(ErrorKind::StrType, input)),
                exact: Exactness::Exact,
                partial_off: false,
            },
        },
        CombinedValidator::Nullable(inner) => if input is Null {
            SOut { res: Ok(OutS::Val(ValueS::Null)), exact: Exactness::Exact, partial_off: false }
        } else {
            eval_node(*inner, defs, input, strict, depth)
        },
        CombinedValidator::Union(alts) => eval_alts(alts, defs, input, strict, depth, 0, None),
        CombinedValidator::DefinitionRef(i) => if depth >= RECURSION_LIMIT || i >= defs.len() {
            SOut {
                res: Err(one_line(ErrorKind::Recursion, input)),
                exact: Exactness::Exact,
                partial_off: false,
            }
        } else {
            eval_node(defs[i as int], defs, input, strict, (depth + 1) as nat)
        },
        CombinedValidator::Generator(g) => match input {
            ValueS::List(items) => SOut {
                res: Ok(
                    OutS::Stream(
                        StreamS {
                            items,
                            pos: 0,
                            yielded: 0,
                            min_length: g.min_length,
                            max_length: g.max_length,
                            hide: g.hide_input_in_errors,
                            cause: g.validation_error_cause,
                            item: match g.item_validator {
                                Some(a) => Some(
                                    ItemCtxS {
                                        name: "ValidatorIterator"@,
                                        node: *a,
                                        defs,
                                        strict,
                                        depth,
                                    },
                                ),
                                None => None,
                            },
                        },
                    ),
                ),
                exact: Exactness::Exact,
                partial_off: true,
            },
            _ => SOut {
                res: Err(one_line(ErrorKind::IterableType, input)),
                exact: Exactness::Exact,
                partial_off: true,
            },
        },
    }
}

/// The meaning of a union scanning its alternatives from index `k`,
/// carrying the best non-exact success seen so far.  The first alternative
/// to match exactly wins outright; otherwise a strictly better exactness
/// replaces the carried best, so on ties the first-declared wins.  If no
/// alternative succeeds the failures of all of them are reported together.
pub open spec fn eval_alts(
    alts: Vec<CombinedValidator>,
    defs: Seq<CombinedValidator>,
    input: ValueS,
    strict: bool,
    depth: nat,
    k: int,
    best: Option<(OutS, Exactness)>,
) -> SOut
    decreases RECURSION_LIMIT - depth, alts, alts@.len() - k + 1,
{
    if k < 0 || k >= alts@.len() {
        match best {
            Some((v, e)) => SOut { res: Ok(v), exact: e, partial_off: false },
            None => SOut { res: Err(Seq::empty()), exact: Exactness::Exact, partial_off: false },
        }
    } else {
        let o = eval_node(alts@[k], defs, input, strict, depth);
        match o.res {
            Ok(v) => if o.exact == Exactness::Exact {
                SOut { res: Ok(v), exact: Exactness::Exact, partial_off: o.partial_off }
            } else {
                let nb = match best {
                    Some((bv, be)) => if be.rank() >= o.exact.rank() {
                        Some((bv, be))
                    } else {
                        Some((v, o.exact))
                    },
                    None => Some((v, o.exact)),
                };
                let rec = eval_alts(alts, defs, input, strict, depth, k + 1, nb);
                SOut {
                    res: rec.res,
                    exact: rec.exact,
                    partial_off: o.partial_off || rec.partial_off,
                }
            },
            Err(es) => {
                let rec = eval_alts(alts, defs, input, strict, depth, k + 1, best);
                SOut {
                    res: match rec.res {
                        Ok(v) => Ok(v),
                        Err(es2) => Err(es + es2),
                    },
                    exact: rec.exact,
                    partial_off: o.partial_off || rec.partial_off,
                }
            },
        }
    }
}

/// What one executable validation returned.
#[derive(Debug)]
pub enum Validated {
    Value(Value),
    Stream(ValidatorIterator),
}

impl Validated {
    pub open spec fn deep(&self) -> OutS {
        match self {
            Validated::Value(v) => OutS::Val(v.deep()),
            Validated::Stream(it) => OutS::Stream(it.stream_view()),
        }
    }
}

pub fn exact_rank(e: Exactness) -> (r: u8)
    ensures
        r as int == e.rank(),
{
    match e {
        Exactness::Lax => 0,
        Exactness::Strict => 1,
        Exactness::Exact => 2,
    }
}

/// Mathematical shadow of a carried best-so-far union alternative.
pub open spec fn best_deep(b: Option<(Validated, Exactness)>) -> Option<(OutS, Exactness)> {
    match b {
        Some((v, e)) => Some((v.deep(), e)),
        None => None,
    }
}

/// Relies on std::sync::Arc::clone: returns a second handle to the same
/// shared node.
#[verifier::external_body]
fn share_node(a: &Arc<CombinedValidator>) -> (r: Arc<CombinedValidator>)
    ensures
        r == *a,
{
    Arc::clone(a)
}

/// Relies on std::sync::Arc's Deref: borrows the shared node.
#[verifier::external_body]
pub fn arc_node_ref(a: &Arc<CombinedValidator>) -> (r: &CombinedValidator)
    ensures
        *r == **a,
{
    &**a
}

/// Relies on std::sync::Arc's Deref: borrows the shared definitions table.
#[verifier::external_body]
pub fn arc_defs_ref(a: &Arc<Definitions>) -> (r: &Definitions)
    ensures
        *r == **a,
{
    &**a
}

/// Relies on std::sync::Arc::clone: returns a second handle to the same
/// shared definitions table.
#[verifier::external_body]
pub fn share_defs(a: &Arc<Definitions>) -> (r: Arc<Definitions>)
    ensures
        r == *a,
{
    Arc::clone(a)
}

impl CombinedValidator {
    /// Validate `input`, threading the per-call state through the tree.
    ///
    /// The whole behaviour is pinned to `eval_node`: the returned value or
    /// error, the exactness folded into the state, and whether partial
    /// mode was forced off.  The ambient parameters, the recursion guard
    /// and the field-completeness counter come back unchanged.
    pub fn validate(&self, defs: &Arc<Definitions>, input: &Value, state: &mut ValidationState) -> (r:
        Result<Validated, ValError>)
        requires
            wf_node(*self, defs.nodes@.len() as int),
            defs.wf(),
            old(state).recursion_guard.depth <= RECURSION_LIMIT,
        ensures
            final(state).extra == old(state).extra,
            final(state).recursion_guard == old(state).recursion_guard,
            final(state).fields_set_count == old(state).fields_set_count,
            ({
                let out = eval_node(
                    *self,
                    defs.nodes@,
                    input.deep(),
                    old(state).extra.strictness(),
                    old(state).recursion_guard.depth as nat,
                );
                &&& final(state).allow_partial == (old(state).allow_partial && !out.partial_off)
                &&& match r {
                    Ok(v) => {
                        &&& out.res is Ok
                        &&& v.deep() == out.res->Ok_0
                        &&& final(state).exactness == spec_exact_opt_min(
                            old(state).exactness,
                            Some(out.exact),
                        )
                    },
                    Err(e) => {
                        &&& out.res is Err
                        &&& e.deep() == out.res->Err_0
                        &&& final(state).exactness == old(state).exactness
                    },
                }
            }),
        decreases RECURSION_LIMIT - state.recursion_guard.depth, *self, 0nat,
    {
        let strict: bool = match state.extra.strict {
            Some(true) => true,
            _ => false,
        };
        match self {
            CombinedValidator::Any => {
                state.floor_exactness(Exactness::Exact);
                Ok(Validated::Value(input.dup()))
            },
            CombinedValidator::Int => match input {
                Value::Int(_) => {
                    state.floor_exactness(Exactness::Exact);
                    Ok(Validated::Value(input.dup()))
                },
                Value::Bool(b) => if !strict {
                    state.floor_exactness(Exactness::Lax);
                    Ok(Validated::Value(Value::Int(if *b { 1 } else { 0 })))
                } else {
                    Err(ValError::new_custom(ErrorKind::IntType, input.dup()))
                },
                _ => Err(ValError::new_custom(ErrorKind::IntType, input.dup())),
            },
            CombinedValidator::Str => match input {
                Value::Str(_) => {
                    state.floor_exactness(Exactness::Exact);
                    Ok(Validated::Value(input.dup()))
                },
                _ => Err(ValError::new_custom(ErrorKind::StrType, input.dup())),
            },
            CombinedValidator::Nullable(inner) => if input.is_null() {
                state.floor_exactness(Exactness::Exact);
                Ok(Validated::Value(Value::Null))
            } else {
                inner.validate(defs, input, state)
            },
            CombinedValidator::Union(alts) => {
                let save = state.exactness;
                let r0 = validate_alts(alts, defs, input, state, 0, None, ValError { lines: Vec::new() });
                match r0 {
                    Ok((v, e)) => {
                        state.exactness = save;
                        state.floor_exactness(e);
                        Ok(v)
                    },
                    Err(err) => {
                        state.exactness = save;
                        Err(err)
                    },
                }
            },
            CombinedValidator::DefinitionRef(i) => {
                if state.recursion_guard.depth >= RECURSION_LIMIT {
                    Err(ValError::new_custom(ErrorKind::Recursion, input.dup()))
                } else {
                    state.recursion_guard.depth = state.recursion_guard.depth + 1;
                    let table = arc_defs_ref(defs);
                    let node = &table.nodes[*i];
                    let r = node.validate(defs, input, state);
                    state.recursion_guard.depth = state.recursion_guard.depth - 1;
                    r
                }
            },
            CombinedValidator::Generator(g) => g.validate(defs, input, state),
        }
    }

    /// The stable, composable name of this node.
    pub fn get_name(&self) -> (r: &str)
        ensures
            r@ == self.spec_name(),
    {
        match self {
            CombinedValidator::Any => "any",
            CombinedValidator::Int => "int",
            CombinedValidator::Str => "str",
            CombinedValidator::Nullable(_) => "nullable",
            CombinedValidator::Union(_) => "union",
            CombinedValidator::DefinitionRef(_) => "definition-ref",
            CombinedValidator::Generator(g) => g.name.as_str(),
        }
    }

    pub open spec fn spec_name(&self) -> Seq<char> {
        match self {
            CombinedValidator::Any => "any"@,
            CombinedValidator::Int => "int"@,
            CombinedValidator::Str => "str"@,
            CombinedValidator::Nullable(_) => "nullable"@,
            CombinedValidator::Union(_) => "union"@,
            CombinedValidator::DefinitionRef(_) => "definition-ref"@,
            CombinedValidator::Generator(g) => g.name@,
        }
    }
}

impl GeneratorValidator {
    /// Validate a pullable input into a validated-producer handle: the
    /// producer paired with a suspended validation context seeded from
    /// the current call's state (when an item schema exists) and the
    /// configured length bounds.  Partial mode is unconditionally forced
    /// off the moment this variant is entered: partial validation of a
    /// lazy, possibly unbounded source is not well-defined.
    pub fn validate(&self, defs: &Arc<Definitions>, input: &Value, state: &mut ValidationState) -> (r:
        Result<Validated, ValError>)
        requires
            (match self.item_validator {
                Some(a) => wf_node(*a, defs.nodes@.len() as int),
                None => true,
            }),
            defs.wf(),
            old(state).recursion_guard.depth <= RECURSION_LIMIT,
        ensures
            final(state).extra == old(state).extra,
            final(state).recursion_guard == old(state).recursion_guard,
            final(state).fields_set_count == old(state).fields_set_count,
            !final(state).allow_partial,
            ({
                let out = eval_node(
                    CombinedValidator::Generator(*self),
                    defs.nodes@,
                    input.deep(),
                    old(state).extra.strictness(),
                    old(state).recursion_guard.depth as nat,
                );
                match r {
                    Ok(v) => {
                        &&& out.res is Ok
                        &&& v.deep() == out.res->Ok_0
                        &&& final(state).exactness == spec_exact_opt_min(
                            old(state).exactness,
                            Some(out.exact),
                        )
                    },
                    Err(e) => {
                        &&& out.res is Err
                        &&& e.deep() == out.res->Err_0
                        &&& final(state).exactness == old(state).exactness
                    },
                }
            }),
    {
        // this validator cannot produce a partial result; force partial
        // mode off for the rest of the call
        state.allow_partial = false;
        match input {
            Value::List(items) => {
                let producer = Producer { items: crate::value::dup_list(items), index: 0 };
                let validator: Option<InternalValidator> = match &self.item_validator {
                    Some(a) => Some(
                        InternalValidator::new(
                            "ValidatorIterator",
                            share_node(a),
                            share_defs(defs),
                            state,
                            self.hide_input_in_errors,
                            self.validation_error_cause,
                        ),
                    ),
                    None => None,
                };
                let it = ValidatorIterator {
                    producer,
                    validator,
                    min_length: self.min_length,
                    max_length: self.max_length,
                    yielded: 0,
                    hide_input_in_errors: self.hide_input_in_errors,
                    validation_error_cause: self.validation_error_cause,
                };
                state.floor_exactness(Exactness::Exact);
                Ok(Validated::Stream(it))
            },
            _ => Err(ValError::new_custom(ErrorKind::IterableType, input.dup())),
        }
    }

    /// The synthesized, composable name of this node.
    pub fn get_name(&self) -> (r: &str)
        ensures
            r@ == self.name@,
    {
        self.name.as_str()
    }
}

/// Scan union alternatives from index `k`, mirroring `eval_alts`.
/// `errs` carries the failures of the alternatives already tried; on
/// overall failure the caller receives them followed by the failures of
/// the remaining alternatives.
fn validate_alts(
    alts: &Vec<CombinedValidator>,
    defs: &Arc<Definitions>,
    input: &Value,
    state: &mut ValidationState,
    k: usize,
    best: Option<(Validated, Exactness)>,
    errs: ValError,
) -> (r: Result<(Validated, Exactness), ValError>)
    requires
        wf_alts(*alts, defs.nodes@.len() as int, k as int),
        defs.wf(),
        k <= alts@.len(),
        old(state).recursion_guard.depth <= RECURSION_LIMIT,
    ensures
        final(state).extra == old(state).extra,
        final(state).recursion_guard == old(state).recursion_guard,
        final(state).fields_set_count == old(state).fields_set_count,
        ({
            let out = eval_alts(
                *alts,
                defs.nodes@,
                input.deep(),
                old(state).extra.strictness(),
                old(state).recursion_guard.depth as nat,
                k as int,
                best_deep(best),
            );
            &&& final(state).allow_partial == (old(state).allow_partial && !out.partial_off)
            &&& match r {
                Ok((v, e)) => {
                    &&& out.res is Ok
                    &&& v.deep() == out.res->Ok_0
                    &&& e == out.exact
                },
                Err(err) => {
                    &&& out.res is Err
                    &&& err.deep() == errs.deep() + out.res->Err_0
                },
            }
        }),
    decreases RECURSION_LIMIT - state.recursion_guard.depth, *alts, alts@.len() - k + 1,
{
    if k >= alts.len() {
        match best {
            Some((v, e)) => Ok((v, e)),
            None => {
                proof {
                    assert(errs.deep() + Seq::<LineS>::empty() =~= errs.deep());
                }
                Err(errs)
            },
        }
    } else {
        state.exactness = Some(Exactness::Exact);
        proof {
            assert(decreases_to!(*alts => alts@[k as int]));
        }
        let node = &alts[k];
        let r0 = node.validate(defs, input, state);
        match r0 {
            Ok(v) => {
                let e = match state.exactness {
                    Some(x) => x,
                    None => Exactness::Exact,
                };
                match e {
                    Exactness::Exact => Ok((v, e)),
                    _ => {
                        let better: bool = match &best {
                            Some((_, be)) => exact_rank(e) > exact_rank(*be),
                            None => true,
                        };
                        if better {
                            validate_alts(alts, defs, input, state, k + 1, Some((v, e)), errs)
                        } else {
                            validate_alts(alts, defs, input, state, k + 1, best, errs)
                        }
                    },
                }
            },
            Err(e0) => {
                let mut errs2 = errs;
                let ghost pre = errs2.deep();
                let ghost es0 = e0.deep();
                errs2.extend(e0);
                let r1 = validate_alts(alts, defs, input, state, k + 1, best, errs2);
                proof {
                    let out_rec = eval_alts(
                        *alts,
                        defs.nodes@,
                        input.deep(),
                        old(state).extra.strictness(),
                        old(state).recursion_guard.depth as nat,
                        k as int + 1,
                        best_deep(best),
                    );
                    if out_rec.res is Err {
                        assert((pre + es0) + out_rec.res->Err_0 =~= pre + (es0
                            + out_rec.res->Err_0));
                    }
                }
                r1
            },
        }
    }
}

} // verus!
