//! The serializer tree: converts typed values back to a host-native
//! representation, to a mapping-key rendering, or to a stream of sink
//! events for a wire encoder.  The nullable wrapper is the representative
//! "short-circuit on the sentinel, else delegate" variant.

use vstd::prelude::*;
use vstd::string::StringExecFns;
use crate::value::Value;
use crate::value::ValueS;
use crate::value::deep_seq;

verus! {

broadcast use vstd::seq::axiom_seq_index_decreases, vstd::std_specs::vec::axiom_vec_decreases_to_view, vstd::std_specs::vec::axiom_vec_index_decreases, crate::value::deep_seq_props;

/// Serialization failure: the value cannot be rendered in the requested
/// form (for example, a sequence used as a mapping key).
#[derive(Clone, Copy, PartialEq, Eq, Structural, Debug)]
pub enum SerError {
    InvalidKey,
}

/// One event written into the abstract serialization sink.
#[derive(Debug)]
pub enum SerEvent {
    Null,
    Bool(bool),
    Int(i64),
    Str(String),
    SeqStart(usize),
    SeqEnd,
}

/// Mathematical model of a sink event.
pub enum EventS {
    Null,
    Bool(bool),
    Int(int),
    Str(Seq<char>),
    SeqStart(int),
    SeqEnd,
}

impl SerEvent {
    pub open spec fn deep(&self) -> EventS {
        match self {
            SerEvent::Null => EventS::Null,
            SerEvent::Bool(b) => EventS::Bool(*b),
            SerEvent::Int(i) => EventS::Int(*i as int),
            SerEvent::Str(s) => EventS::Str(s@),
            SerEvent::SeqStart(n) => EventS::SeqStart(*n as int),
            SerEvent::SeqEnd => EventS::SeqEnd,
        }
    }
}

/// Model of a list of sink events.
pub open spec fn events_deep(ev: Seq<SerEvent>) -> Seq<EventS> {
    ev.map_values(|e: SerEvent| e.deep())
}

/// The nullable wrapper: exactly the null sentinel short-circuits; any
/// other value delegates entirely to the wrapped serializer.
#[derive(Debug)]
pub struct NullableSerializer {
    pub serializer: Box<CombinedSerializer>,
}

/// One compiled variant node of the serializer tree.
#[derive(Debug)]
pub enum CombinedSerializer {
    /// Serializes any value by its own shape.
    Any,
    /// Expects a string; other values fall back to their own shape.
    Str,
    /// Short-circuits the null sentinel, else delegates.
    Nullable(NullableSerializer),
}

/// The host-native rendering of `v` under serializer `s`.  Scalars and
/// sequences are their own host representation; the nullable wrapper
/// renders the sentinel as the host null and delegates everything else.
pub open spec fn ser_to_python(s: CombinedSerializer, v: ValueS) -> ValueS
    decreases s,
{
    match s {
        CombinedSerializer::Nullable(n) => if v is Null {
            ValueS::Null
        } else {
            ser_to_python(*n.serializer, v)
        },
        _ => v,
    }
}

/// The rendering of `v` as a mapping key under serializer `s`.  The null
/// sentinel always renders as the fixed literal `"null"`, booleans as
/// their literals, strings as themselves; other shapes cannot be keys.
pub open spec fn ser_json_key(s: CombinedSerializer, v: ValueS) -> Result<Seq<char>, SerError>
    decreases s,
{
    match s {
        CombinedSerializer::Nullable(n) => if v is Null {
            Ok("null"@)
        } else {
            ser_json_key(*n.serializer, v)
        },
        _ => match v {
            ValueS::Null => Ok("null"@),
            ValueS::Bool(b) => Ok(if b { "true"@ } else { "false"@ }),
            ValueS::Str(t) => Ok(t),
            _ => Err(SerError::InvalidKey),
        },
    }
}

/// The sink events `v` writes under serializer `s`: the null sentinel is
/// one null event; scalars are one scalar event; a sequence opens, emits
/// its items by their own shape, and closes.
pub open spec fn ser_events(s: CombinedSerializer, v: ValueS) -> Seq<EventS>
    decreases s, v, 1nat,
{
    match s {
        CombinedSerializer::Nullable(n) => if v is Null {
            seq![EventS::Null]
        } else {
            ser_events(*n.serializer, v)
        },
        _ => value_events(v),
    }
}

/// The sink events of a value by its own shape.
pub open spec fn value_events(v: ValueS) -> Seq<EventS>
    decreases v, 0nat,
{
    match v {
        ValueS::Null => seq![EventS::Null],
        ValueS::Bool(b) => seq![EventS::Bool(b)],
        ValueS::Int(i) => seq![EventS::Int(i)],
        ValueS::Str(t) => seq![EventS::Str(t)],
        ValueS::List(items) => seq![EventS::SeqStart(items.len() as int)] + items_events(
            items,
            0,
        ) + seq![EventS::SeqEnd],
    }
}

/// The concatenated events of the items of a sequence, from index `k`.
pub open spec fn items_events(items: Seq<ValueS>, k: int) -> Seq<EventS>
    decreases items, items.len() - k + 1,
{
    if k < 0 || k >= items.len() {
        Seq::empty()
    } else {
        value_events(items[k]) + items_events(items, k + 1)
    }
}

impl CombinedSerializer {
    /// Convert a value to the host-native representation.
    pub fn to_python(
        &self,
        value: &Value,
        incl: Option<&Value>,
        excl: Option<&Value>,
    ) -> (r: Value)
        ensures
            r.deep() == ser_to_python(*self, value.deep()),
        decreases *self,
    {
        match self {
            CombinedSerializer::Nullable(n) => if value.is_null() {
                Value::Null
            } else {
                n.serializer.to_python(value, incl, excl)
            },
            _ => value.dup(),
        }
    }

    /// Render a value used as a mapping key.
    pub fn json_key(&self, key: &Value) -> (r: Result<String, SerError>)
        ensures
            match r {
                Ok(t) => ser_json_key(*self, key.deep()) matches Ok(t2) && t@ == t2,
                Err(e) => ser_json_key(*self, key.deep()) matches Err(e2) && e == e2,
            },
        decreases *self,
    {
        match self {
            CombinedSerializer::Nullable(n) => if key.is_null() {
                Ok(String::from_str("null"))
            } else {
                n.serializer.json_key(key)
            },
            _ => match key {
                Value::Null => Ok(String::from_str("null")),
                Value::Bool(b) => Ok(
                    if *b {
                        String::from_str("true")
                    } else {
                        String::from_str("false")
                    },
                ),
                Value::Str(t) => Ok(t.clone()),
                _ => Err(SerError::InvalidKey),
            },
        }
    }

    /// Write the value's events into the sink.
    pub fn serialize_events(
        &self,
        value: &Value,
        incl: Option<&Value>,
        excl: Option<&Value>,
        sink: &mut Vec<SerEvent>,
    )
        ensures
            events_deep(final(sink)@) == events_deep(old(sink)@) + ser_events(*self, value.deep()),
        decreases *self,
    {
        match self {
            CombinedSerializer::Nullable(n) => if value.is_null() {
                sink.push(SerEvent::Null);
                proof {
                    assert(events_deep(final(sink)@) =~= events_deep(old(sink)@) + ser_events(
                        *self,
                        value.deep(),
                    ));
                }
            } else {
                n.serializer.serialize_events(value, incl, excl, sink);
            },
            _ => {
                write_value_events(value, sink);
                proof {
                    assert(events_deep(final(sink)@) =~= events_deep(old(sink)@) + ser_events(
                        *self,
                        value.deep(),
                    ));
                }
            },
        }
    }

    /// The stable name of this serializer node.
    pub fn get_name(&self) -> (r: &str)
        ensures
            r@ == self.spec_name(),
    {
        match self {
            CombinedSerializer::Any => "any",
            CombinedSerializer::Str => "str",
            CombinedSerializer::Nullable(_) => "nullable",
        }
    }

    pub open spec fn spec_name(&self) -> Seq<char> {
        match self {
            CombinedSerializer::Any => "any"@,
            CombinedSerializer::Str => "str"@,
            CombinedSerializer::Nullable(_) => "nullable"@,
        }
    }

    /// Whether, after a strict-mode failure, the engine should retry this
    /// node under relaxed rules.  The nullable wrapper delegates.
    pub fn retry_with_lax_check(&self) -> (r: bool)
        ensures
            r == spec_retry(*self),
        decreases *self,
    {
        match self {
            CombinedSerializer::Nullable(n) => n.serializer.retry_with_lax_check(),
            _ => false,
        }
    }
}

pub open spec fn spec_retry(s: CombinedSerializer) -> bool
    decreases s,
{
    match s {
        CombinedSerializer::Nullable(n) => spec_retry(*n.serializer),
        _ => false,
    }
}

/// Write the events of a value by its own shape.
pub fn write_value_events(value: &Value, sink: &mut Vec<SerEvent>)
    ensures
        events_deep(final(sink)@) == events_deep(old(sink)@) + value_events(value.deep()),
    decreases *value, 0nat,
{
    match value {
        Value::Null => {
            sink.push(SerEvent::Null);
        },
        Value::Bool(b) => {
            sink.push(SerEvent::Bool(*b));
        },
        Value::Int(i) => {
            sink.push(SerEvent::Int(*i));
        },
        Value::Str(t) => {
            sink.push(SerEvent::Str(t.clone()));
        },
        Value::List(items) => {
            let ghost e0 = events_deep(old(sink)@);
            sink.push(SerEvent::SeqStart(items.len()));
            let ghost mid = sink@;
            proof {
                assert(events_deep(mid) =~= e0 + seq![EventS::SeqStart(items@.len() as int)]);
            }
            write_items_events(items, sink);
            let ghost body = items_events_prefix(deep_seq(items@), items@.len() as int);
            sink.push(SerEvent::SeqEnd);
            proof {
                lemma_items_events_prefix_full(deep_seq(items@));
                assert(events_deep(sink@) =~= events_deep(mid) + body + seq![EventS::SeqEnd]);
                assert(value_events(value.deep()) =~= seq![
                    EventS::SeqStart(items@.len() as int),
                ] + items_events(deep_seq(items@), 0) + seq![EventS::SeqEnd]);
                assert(events_deep(sink@) =~= e0 + value_events(value.deep()));
            }
        },
    }
    proof {
        assert(events_deep(final(sink)@) =~= events_deep(old(sink)@) + value_events(value.deep()));
    }
}

/// Write the events of each item of a sequence, in order.
pub fn write_items_events(items: &Vec<Value>, sink: &mut Vec<SerEvent>)
    ensures
        events_deep(final(sink)@) == events_deep(old(sink)@) + items_events_prefix(
            deep_seq(items@),
            items@.len() as int,
        ),
    decreases *items, 1nat,
{
    let mut k: usize = 0;
    while k < items.len()
        invariant
            k <= items.len(),
            events_deep(sink@) == events_deep(old(sink)@) + items_events_prefix(
                deep_seq(items@),
                k as int,
            ),
        decreases items.len() - k,
    {
        proof {
            assert(decreases_to!(*items => items@[k as int]));
        }
        write_value_events(&items[k], sink);
        proof {
            lemma_items_events_prefix_step(deep_seq(items@), k as int);
            assert(events_deep(sink@) =~= events_deep(old(sink)@) + items_events_prefix(
                deep_seq(items@),
                k as int + 1,
            ));
        }
        k += 1;
    }
}

/// The concatenated events of the first `k` items of a sequence.
pub open spec fn items_events_prefix(items: Seq<ValueS>, k: int) -> Seq<EventS>
    decreases items, k + 1,
{
    if k <= 0 || k > items.len() {
        Seq::empty()
    } else {
        items_events_prefix(items, k - 1) + value_events(items[k - 1])
    }
}

proof fn lemma_items_events_prefix_step(items: Seq<ValueS>, k: int)
    requires
        0 <= k < items.len(),
    ensures
        items_events_prefix(items, k + 1) == items_events_prefix(items, k) + value_events(
            items[k],
        ),
{
}

/// The prefix of all items equals the suffix form used by `value_events`.
proof fn lemma_items_events_prefix_full(items: Seq<ValueS>)
    ensures
        items_events_prefix(items, items.len() as int) == items_events(items, 0),
{
    lemma_items_events_agree(items, 0);
}

proof fn lemma_items_events_agree(items: Seq<ValueS>, k: int)
    requires
        0 <= k <= items.len(),
    ensures
        items_events_prefix(items, items.len() as int) == items_events_prefix(items, k)
            + items_events(items, k),
    decreases items.len() - k,
{
    if k >= items.len() {
        assert(items_events_prefix(items, k) + items_events(items, k) =~= items_events_prefix(
            items,
            k,
        ));
    } else {
        lemma_items_events_agree(items, k + 1);
        lemma_items_events_prefix_step(items, k);
        assert(items_events_prefix(items, k + 1) + items_events(items, k + 1)
            =~= items_events_prefix(items, k) + (value_events(items[k]) + items_events(
            items,
            k + 1,
        )));
    }
}

} // verus!
