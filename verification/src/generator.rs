//! Lazy-sequence validation: the validated-producer handle and the
//! suspended validation context that keeps validating items after the
//! call that created the handle has returned.

use vstd::prelude::*;
use vstd::string::StringExecFns;
use std::sync::Arc;
use crate::value::Value;
use crate::value::ValueS;
use crate::value::deep_seq;
use crate::value::dup_list;
use crate::value::opt_deep;
use crate::value::dup_opt;
use crate::errors::ErrorKind;
use crate::errors::LineS;
use crate::errors::LocItem;
use crate::errors::LocS;
use crate::errors::ValError;
use crate::errors::ValidationError;
use crate::errors::report_of;
use crate::errors::opt_loc_deep;
use crate::state::Exactness;
use crate::state::Extra;
use crate::state::InputType;
use crate::state::RECURSION_LIMIT;
use crate::state::RecursionGuard;
use crate::state::StringCacheMode;
use crate::state::ValidationState;
use crate::state::spec_exact_opt_min;
use crate::validator::CombinedValidator;
use crate::validator::Definitions;
use crate::validator::ItemCtxS;
use crate::validator::OutS;
use crate::validator::StreamS;
use crate::validator::Validated;
use crate::validator::arc_defs_ref;
use crate::validator::arc_node_ref;
use crate::validator::eval_node;
use crate::validator::wf_node;

verus! {

broadcast use crate::value::deep_seq_props;

/// A finite producer of values, advanced one step at a time.  It stands
/// for the external pull source a lazy sequence wraps; the engine never
/// drains it further than the pull protocol asks.
#[derive(Debug)]
pub struct Producer {
    pub items: Vec<Value>,
    pub index: usize,
}

impl Producer {
    pub open spec fn wf(&self) -> bool {
        self.index <= self.items@.len()
    }

    /// Yield the next item together with its position, or report
    /// exhaustion; never looks past one item.
    pub fn next(&mut self) -> (r: Option<(Value, usize)>)
        requires
            old(self).wf(),
        ensures
            final(self).wf(),
            final(self).items == old(self).items,
            if old(self).index < old(self).items@.len() {
                &&& r matches Some((v, i)) && v.deep() == old(self).items@[old(self).index as int].deep()
                    && i == old(self).index
                &&& final(self).index == old(self).index + 1
            } else {
                &&& r is None
                &&& final(self).index == old(self).index
            },
    {
        if self.index < self.items.len() {
            let v = self.items[self.index].dup();
            let i = self.index;
            self.index = self.index + 1;
            Some((v, i))
        } else {
            None
        }
    }
}

/// The suspended validation context: an owned snapshot of everything one
/// validation call carried, detachable from that call's frame, so that
/// item validation can resume later and results can still be folded back.
#[derive(Debug)]
pub struct InternalValidator {
    pub name: String,
    pub validator: Arc<CombinedValidator>,
    pub defs: Arc<Definitions>,
    pub data: Option<Value>,
    pub strict: Option<bool>,
    pub from_attributes: Option<bool>,
    pub context: Option<Value>,
    pub self_instance: Option<Value>,
    pub recursion_guard: RecursionGuard,
    pub exactness: Option<Exactness>,
    pub fields_set_count: Option<usize>,
    pub validation_mode: InputType,
    pub hide_input_in_errors: bool,
    pub validation_error_cause: bool,
    pub cache_str: StringCacheMode,
}

impl InternalValidator {
    pub open spec fn wf(&self) -> bool {
        &&& self.recursion_guard.depth <= RECURSION_LIMIT
        &&& wf_node(*self.validator, self.defs.nodes@.len() as int)
        &&& self.defs.wf()
    }

    /// The strictness this context will validate under.
    pub open spec fn strictness(&self) -> bool {
        self.strict == Some(true)
    }

    /// Snapshot the ambient parameters and trackers of `state` into an
    /// owned context that outlives the current call frame.
    pub fn new(
        name: &str,
        validator: Arc<CombinedValidator>,
        defs: Arc<Definitions>,
        state: &ValidationState,
        hide_input_in_errors: bool,
        validation_error_cause: bool,
    ) -> (r: InternalValidator)
        ensures
            r.name@ == name@,
            r.validator == validator,
            r.defs == defs,
            opt_deep(&r.data) == opt_deep(&state.extra.data),
            r.strict == state.extra.strict,
            r.from_attributes == state.extra.from_attributes,
            opt_deep(&r.context) == opt_deep(&state.extra.context),
            opt_deep(&r.self_instance) == opt_deep(&state.extra.self_instance),
            r.recursion_guard == state.recursion_guard,
            r.exactness == state.exactness,
            r.fields_set_count == state.fields_set_count,
            r.validation_mode == state.extra.input_type,
            r.hide_input_in_errors == hide_input_in_errors,
            r.validation_error_cause == validation_error_cause,
            r.cache_str == state.extra.cache_str,
    {
        InternalValidator {
            name: String::from_str(name),
            validator,
            defs,
            data: dup_opt(&state.extra.data),
            strict: state.extra.strict,
            from_attributes: state.extra.from_attributes,
            context: dup_opt(&state.extra.context),
            self_instance: dup_opt(&state.extra.self_instance),
            recursion_guard: state.recursion_guard,
            exactness: state.exactness,
            fields_set_count: state.fields_set_count,
            validation_mode: state.extra.input_type,
            hide_input_in_errors,
            validation_error_cause,
            cache_str: state.extra.cache_str,
        }
    }

    /// Run one resumed validation of `input` against the wrapped node,
    /// folding the resulting exactness and field-completeness back into
    /// this context, and converting any failure into a host-facing report
    /// under this context's synthetic name and the given outer location.
    pub fn validate(&mut self, input: &Value, outer_location: Option<LocItem>) -> (r: Result<
        Validated,
        ValidationError,
    >)
        requires
            old(self).wf(),
        ensures
            final(self).wf(),
            final(self).name == old(self).name,
            final(self).validator == old(self).validator,
            final(self).defs == old(self).defs,
            final(self).strict == old(self).strict,
            final(self).recursion_guard == old(self).recursion_guard,
            final(self).hide_input_in_errors == old(self).hide_input_in_errors,
            final(self).validation_error_cause == old(self).validation_error_cause,
            ({
                let out = eval_node(
                    *old(self).validator,
                    old(self).defs.nodes@,
                    input.deep(),
                    old(self).strictness(),
                    old(self).recursion_guard.depth as nat,
                );
                match r {
                    Ok(v) => {
                        &&& out.res is Ok
                        &&& v.deep() == out.res->Ok_0
                        &&& final(self).exactness == spec_exact_opt_min(
                            old(self).exactness,
                            Some(out.exact),
                        )
                    },
                    Err(rep) => {
                        &&& out.res is Err
                        &&& rep.deep() == report_of(
                            old(self).name@,
                            out.res->Err_0,
                            opt_loc_deep(&outer_location),
                            old(self).hide_input_in_errors,
                            old(self).validation_error_cause,
                        )
                        &&& final(self).exactness == old(self).exactness
                        &&& final(self).fields_set_count == old(self).fields_set_count
                    },
                }
            }),
    {
        let extra = Extra {
            input_type: self.validation_mode,
            data: dup_opt(&self.data),
            strict: self.strict,
            from_attributes: self.from_attributes,
            field_name: None,
            context: dup_opt(&self.context),
            self_instance: dup_opt(&self.self_instance),
            cache_str: self.cache_str,
            by_alias: None,
            by_name: None,
        };
        let mut state = ValidationState::new(extra, self.recursion_guard, false);
        state.exactness = self.exactness;
        state.fields_set_count = self.fields_set_count;
        let node = arc_node_ref(&self.validator);
        let result = node.validate(&self.defs, input, &mut state);
        self.recursion_guard = state.recursion_guard;
        match result {
            Ok(v) => {
                self.exactness = state.exactness;
                self.fields_set_count = state.fields_set_count;
                Ok(v)
            },
            Err(e) => Err(
                ValidationError::from_val_error(
                    self.name.clone(),
                    e,
                    outer_location,
                    self.hide_input_in_errors,
                    self.validation_error_cause,
                ),
            ),
        }
    }

    /// Revalidate one field of an already-constructed value, as on
    /// assignment after construction: the field's new value is validated
    /// against the wrapped node, failures are located under the field's
    /// name, and trackers are folded back as for `validate`.
    pub fn validate_assignment(
        &mut self,
        field_name: &str,
        field_value: &Value,
        outer_location: Option<LocItem>,
    ) -> (r: Result<Validated, ValidationError>)
        requires
            old(self).wf(),
        ensures
            final(self).wf(),
            final(self).name == old(self).name,
            final(self).validator == old(self).validator,
            final(self).defs == old(self).defs,
            final(self).strict == old(self).strict,
            final(self).recursion_guard == old(self).recursion_guard,
            final(self).hide_input_in_errors == old(self).hide_input_in_errors,
            final(self).validation_error_cause == old(self).validation_error_cause,
            ({
                let out = eval_node(
                    *old(self).validator,
                    old(self).defs.nodes@,
                    field_value.deep(),
                    old(self).strictness(),
                    old(self).recursion_guard.depth as nat,
                );
                match r {
                    Ok(v) => {
                        &&& out.res is Ok
                        &&& v.deep() == out.res->Ok_0
                        &&& final(self).exactness == spec_exact_opt_min(
                            old(self).exactness,
                            Some(out.exact),
                        )
                    },
                    Err(rep) => {
                        &&& out.res is Err
                        &&& rep.deep() == report_of(
                            old(self).name@,
                            out.res->Err_0.map_values(
                                |l: LineS| (LineS {
                                    kind: l.kind,
                                    path: seq![LocS::Key(field_name@)] + l.path,
                                    input: l.input,
                                }),
                            ),
                            opt_loc_deep(&outer_location),
                            old(self).hide_input_in_errors,
                            old(self).validation_error_cause,
                        )
                        &&& final(self).exactness == old(self).exactness
                        &&& final(self).fields_set_count == old(self).fields_set_count
                    },
                }
            }),
    {
        let extra = Extra {
            input_type: self.validation_mode,
            data: dup_opt(&self.data),
            strict: self.strict,
            from_attributes: self.from_attributes,
            field_name: Some(String::from_str(field_name)),
            context: dup_opt(&self.context),
            self_instance: dup_opt(&self.self_instance),
            cache_str: self.cache_str,
            by_alias: None,
            by_name: None,
        };
        let mut state = ValidationState::new(extra, self.recursion_guard, false);
        state.exactness = self.exactness;
        state.fields_set_count = self.fields_set_count;
        let node = arc_node_ref(&self.validator);
        let result = node.validate(&self.defs, field_value, &mut state);
        self.recursion_guard = state.recursion_guard;
        match result {
            Ok(v) => {
                self.exactness = state.exactness;
                self.fields_set_count = state.fields_set_count;
                Ok(v)
            },
            Err(mut e) => {
                e.prepend_loc(&LocItem::Key(String::from_str(field_name)));
                Err(
                    ValidationError::from_val_error(
                        self.name.clone(),
                        e,
                        outer_location,
                        self.hide_input_in_errors,
                        self.validation_error_cause,
                    ),
                )
            },
        }
    }
}

/// Whether a stream of `n` items breaks a configured maximum length.
pub open spec fn stream_too_long(n: nat, max_length: Option<usize>) -> bool {
    match max_length {
        Some(mx) => n > mx,
        None => false,
    }
}

/// Whether a stream of `n` items falls short of a configured minimum.
pub open spec fn stream_too_short(n: nat, min_length: Option<usize>) -> bool {
    match min_length {
        Some(mn) => n < mn,
        None => false,
    }
}

/// The validated-producer handle: pairs the producer with the suspended
/// validation context and the configured length bounds.  Each pull
/// advances the producer by exactly one step and validates the yielded
/// item through the suspended context.
#[derive(Debug)]
pub struct ValidatorIterator {
    pub producer: Producer,
    pub validator: Option<InternalValidator>,
    pub min_length: Option<usize>,
    pub max_length: Option<usize>,
    pub yielded: usize,
    pub hide_input_in_errors: bool,
    pub validation_error_cause: bool,
}

impl ValidatorIterator {
    pub open spec fn wf(&self) -> bool {
        &&& self.producer.wf()
        &&& self.yielded <= self.producer.index
        &&& match self.validator {
            Some(iv) => iv.wf() && iv.hide_input_in_errors == self.hide_input_in_errors
                && iv.validation_error_cause == self.validation_error_cause,
            None => true,
        }
    }

    /// The stream this handle models: the underlying items, the live
    /// positions, the bounds and the suspended item context.
    pub open spec fn stream_view(&self) -> StreamS {
        StreamS {
            items: deep_seq(self.producer.items@),
            pos: self.producer.index as nat,
            yielded: self.yielded as nat,
            min_length: self.min_length,
            max_length: self.max_length,
            hide: self.hide_input_in_errors,
            cause: self.validation_error_cause,
            item: match self.validator {
                Some(iv) => Some(
                    ItemCtxS {
                        name: iv.name@,
                        node: *iv.validator,
                        defs: iv.defs.nodes@,
                        strict: iv.strictness(),
                        depth: iv.recursion_guard.depth as nat,
                    },
                ),
                None => None,
            },
        }
    }

    /// The live position counter: how many items were successfully
    /// yielded so far.
    pub fn index(&self) -> (r: usize)
        ensures
            r == self.yielded,
    {
        self.yielded
    }

    /// Advance the pull protocol by one step.
    ///
    /// An item at position `pos` with a configured maximum and
    /// `pos >= max` fails with `TooLong` without consuming further; an
    /// in-bound item is validated through the suspended context (or
    /// passed through unchanged when no item schema exists); exhaustion
    /// below a configured minimum fails with `TooShort` carrying the
    /// observed count; otherwise exhaustion ends the sequence.
    pub fn next(&mut self) -> (r: Result<Option<Validated>, ValidationError>)
        requires
            old(self).wf(),
        ensures
            final(self).wf(),
            final(self).min_length == old(self).min_length,
            final(self).max_length == old(self).max_length,
            final(self).hide_input_in_errors == old(self).hide_input_in_errors,
            final(self).validation_error_cause == old(self).validation_error_cause,
            final(self).producer.items == old(self).producer.items,
            final(self).stream_view().item == old(self).stream_view().item,
            ({
                let sv = old(self).stream_view();
                let over_max = match sv.max_length {
                    Some(mx) => sv.pos >= mx,
                    None => false,
                };
                if sv.pos < sv.items.len() {
                    &&& final(self).producer.index == old(self).producer.index + 1
                    &&& if over_max {
                        &&& r matches Err(rep) && sv.max_length matches Some(mx) && rep.deep()
                            == report_of(
                            "ValidatorIterator"@,
                            seq![
                                (LineS {
                                    kind: (ErrorKind::TooLong { max_length: mx }),
                                    path: Seq::empty(),
                                    input: ValueS::List(sv.items),
                                }),
                            ],
                            None,
                            sv.hide,
                            sv.cause,
                        )
                        &&& final(self).yielded == old(self).yielded
                    } else {
                        match sv.item {
                            None => {
                                &&& r matches Ok(Some(v)) && v.deep() == OutS::Val(
                                    sv.items[sv.pos as int],
                                )
                                &&& final(self).yielded == old(self).yielded + 1
                            },
                            Some(ctx) => {
                                let out = eval_node(
                                    ctx.node,
                                    ctx.defs,
                                    sv.items[sv.pos as int],
                                    ctx.strict,
                                    ctx.depth,
                                );
                                match r {
                                    Ok(o) => {
                                        &&& o matches Some(v)
                                        &&& out.res is Ok
                                        &&& v.deep() == out.res->Ok_0
                                        &&& final(self).yielded == old(self).yielded + 1
                                    },
                                    Err(rep) => {
                                        &&& out.res is Err
                                        &&& rep.deep() == report_of(
                                            ctx.name,
                                            out.res->Err_0,
                                            Some(LocS::Index(sv.pos as int)),
                                            sv.hide,
                                            sv.cause,
                                        )
                                        &&& final(self).yielded == old(self).yielded
                                    },
                                }
                            },
                        }
                    }
                } else {
                    let under_min = match sv.min_length {
                        Some(mn) => sv.yielded < mn,
                        None => false,
                    };
                    &&& final(self).producer.index == old(self).producer.index
                    &&& final(self).yielded == old(self).yielded
                    &&& if under_min {
                        r matches Err(rep) && sv.min_length matches Some(mn) && rep.deep()
                            == report_of(
                            "ValidatorIterator"@,
                            seq![
                                (LineS {
                                    kind: (ErrorKind::TooShort {
                                        min_length: mn,
                                        actual_length: old(self).yielded,
                                    }),
                                    path: Seq::empty(),
                                    input: ValueS::List(sv.items),
                                }),
                            ],
                            None,
                            sv.hide,
                            sv.cause,
                        )
                    } else {
                        r matches Ok(None)
                    }
                }
            }),
    {
        let step = self.producer.next();
        match step {
            Some((item, index)) => {
                match self.max_length {
                    Some(mx) if index >= mx => {
                        let input_val = Value::List(dup_list(&self.producer.items));
                        let err = ValError::new_custom(
                            ErrorKind::TooLong { max_length: mx },
                            input_val,
                        );
                        return Err(
                            ValidationError::from_val_error(
                                String::from_str("ValidatorIterator"),
                                err,
                                None,
                                self.hide_input_in_errors,
                                self.validation_error_cause,
                            ),
                        );
                    },
                    _ => (),
                }
                let vopt = self.validator.take();
                match vopt {
                    Some(mut iv) => {
                        let r0 = iv.validate(&item, Some(LocItem::Index(index)));
                        self.validator = Some(iv);
                        match r0 {
                            Ok(v) => {
                                self.yielded = self.yielded + 1;
                                Ok(Some(v))
                            },
                            Err(rep) => Err(rep),
                        }
                    },
                    None => {
                        self.validator = vopt;
                        self.yielded = self.yielded + 1;
                        Ok(Some(Validated::Value(item)))
                    },
                }
            },
            None => {
                match self.min_length {
                    Some(mn) if self.yielded < mn => {
                        let input_val = Value::List(dup_list(&self.producer.items));
                        let err = ValError::new_custom(
                            ErrorKind::TooShort { min_length: mn, actual_length: self.yielded },
                            input_val,
                        );
                        Err(
                            ValidationError::from_val_error(
                                String::from_str("ValidatorIterator"),
                                err,
                                None,
                                self.hide_input_in_errors,
                                self.validation_error_cause,
                            ),
                        )
                    },
                    _ => Ok(None),
                }
            },
        }
    }

    /// Drain a raw stream (one with no item schema) to the end.
    ///
    /// The outcome is a function of the items and the bounds alone:
    /// too many items fail with `TooLong` the moment the bound is
    /// crossed, too few fail with `TooShort` at exhaustion, and otherwise
    /// every item comes back unchanged, in order.  Running this against a
    /// fresh producer of the same shape therefore classifies the same
    /// way every time.
    pub fn collect_all(&mut self) -> (r: Result<Vec<Value>, ValidationError>)
        requires
            old(self).wf(),
            old(self).validator is None,
            old(self).producer.index == 0,
            old(self).yielded == 0,
        ensures
            ({
                let items = deep_seq(old(self).producer.items@);
                let n = items.len();
                let mx = old(self).max_length;
                let mn = old(self).min_length;
                match r {
                    Ok(vs) => {
                        &&& !stream_too_long(n, mx)
                        &&& !stream_too_short(n, mn)
                        &&& vs@.len() == n
                        &&& forall|i: int| 0 <= i < n ==> #[trigger] vs@[i].deep() == items[i]
                    },
                    Err(rep) => if stream_too_long(n, mx) {
                        mx matches Some(m) && rep.deep() == report_of(
                            "ValidatorIterator"@,
                            seq![
                                (LineS {
                                    kind: (ErrorKind::TooLong { max_length: m }),
                                    path: Seq::empty(),
                                    input: ValueS::List(items),
                                }),
                            ],
                            None,
                            old(self).hide_input_in_errors,
                            old(self).validation_error_cause,
                        )
                    } else {
                        &&& stream_too_short(n, mn)
                        &&& mn matches Some(m) && rep.deep() == report_of(
                            "ValidatorIterator"@,
                            seq![
                                (LineS {
                                    kind: (ErrorKind::TooShort {
                                        min_length: m,
                                        actual_length: n as usize,
                                    }),
                                    path: Seq::empty(),
                                    input: ValueS::List(items),
                                }),
                            ],
                            None,
                            old(self).hide_input_in_errors,
                            old(self).validation_error_cause,
                        )
                    },
                }
            }),
    {
        let ghost items = deep_seq(old(self).producer.items@);
        let ghost n = items.len();
        let mut out: Vec<Value> = Vec::new();
        loop
            invariant
                self.wf(),
                self.validator is None,
                self.min_length == old(self).min_length,
                self.max_length == old(self).max_length,
                self.hide_input_in_errors == old(self).hide_input_in_errors,
                self.validation_error_cause == old(self).validation_error_cause,
                self.producer.items == old(self).producer.items,
                items == deep_seq(self.producer.items@),
                n == items.len(),
                self.producer.index == self.yielded,
                out@.len() == self.yielded,
                forall|i: int| 0 <= i < out@.len() ==> #[trigger] out@[i].deep() == items[i],
                match self.max_length {
                    Some(mx) => self.producer.index <= mx,
                    None => true,
                },
            decreases n - self.producer.index,
        {
            let step = self.next();
            match step {
                Ok(None) => {
                    return Ok(out);
                },
                Err(e) => {
                    return Err(e);
                },
                Ok(Some(Validated::Value(x))) => {
                    out.push(x);
                },
                Ok(Some(Validated::Stream(_))) => {
                    // a raw stream has no item schema, so a pull can
                    // never yield a nested handle
                    proof {
                        assert(false);
                    }
                    return Ok(out);
                },
            }
        }
    }

    /// The composed name of the wrapped item schema, for debugging.
    pub fn schema_name(&self) -> (r: &str)
        ensures
            match self.validator {
                Some(iv) => r@ == (*iv.validator).spec_name(),
                None => r@ == "any"@,
            },
    {
        match &self.validator {
            Some(iv) => arc_node_ref(&iv.validator).get_name(),
            None => "any",
        }
    }

    /// A debug rendering showing the live position and the wrapped item
    /// schema's name.
    pub fn repr(&self) -> String {
        fmt_repr(self.yielded, self.schema_name())
    }
}

/// Relies on the format! macro of std: renders the position and schema
/// name of a validated-producer handle for debugging.
#[verifier::external_body]
fn fmt_repr(index: usize, schema: &str) -> String {
    format!("ValidatorIterator(index={index}, schema={schema})")
}

} // verus!
