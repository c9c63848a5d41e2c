//! The generic input/output value model.
//!
//! The engine consumes and produces dynamically-shaped values: the null
//! sentinel, booleans, integers, strings and sequences.  `Value` is the
//! executable representation; `ValueS` is its mathematical shadow, used by
//! every contract in the crate.

use vstd::prelude::*;

verus! {

broadcast use vstd::seq::axiom_seq_index_decreases, vstd::std_specs::vec::axiom_vec_decreases_to_view, vstd::std_specs::vec::axiom_vec_index_decreases;

/// A dynamically-shaped value, as handed to the engine by a host.
///
/// `Null` is the null sentinel.  There is exactly one null value: a value is
/// treated as null by the nullable wrapper only when it is this variant, so
/// look-alikes (for example the string `"None"`) are never short-circuited.
#[derive(Debug)]
pub enum Value {
    Null,
    Bool(bool),
    Int(i64),
    Str(String),
    List(Vec<Value>),
}

/// The mathematical model of a `Value`.
pub enum ValueS {
    Null,
    Bool(bool),
    Int(int),
    Str(Seq<char>),
    List(Seq<ValueS>),
}

/// Model of a sequence of values, element by element.
pub open spec fn deep_seq(s: Seq<Value>) -> Seq<ValueS>
    decreases s,
{
    if s.len() <= 0 {
        Seq::empty()
    } else {
        deep_seq(s.drop_last()).push(s.last().deep())
    }
}

pub broadcast proof fn deep_seq_props(s: Seq<Value>)
    ensures
        #[trigger] deep_seq(s).len() == s.len(),
        forall|i: int| 0 <= i < s.len() ==> #[trigger] deep_seq(s)[i] == s[i].deep(),
    decreases s.len(),
{
    if s.len() > 0 {
        deep_seq_props(s.drop_last());
        assert forall|i: int| 0 <= i < s.len() implies #[trigger] deep_seq(s)[i] == s[i].deep() by {
            if i < s.len() - 1 {
                assert(s.drop_last()[i] == s[i]);
            }
        }
    }
}

impl Value {
    /// The mathematical value this executable value stands for.
    pub open spec fn deep(&self) -> ValueS
        decreases self,
    {
        match self {
            Value::Null => ValueS::Null,
            Value::Bool(b) => ValueS::Bool(*b),
            Value::Int(i) => ValueS::Int(*i as int),
            Value::Str(s) => ValueS::Str(s@),
            Value::List(items) => ValueS::List(deep_seq(items@)),
        }
    }

    /// Structural copy: the copy models the same mathematical value.
    pub fn dup(&self) -> (r: Value)
        ensures
            r.deep() == self.deep(),
        decreases self,
    {
        match self {
            Value::Null => Value::Null,
            Value::Bool(b) => Value::Bool(*b),
            Value::Int(i) => Value::Int(*i),
            Value::Str(s) => Value::Str(s.clone()),
            Value::List(items) => Value::List(dup_list(items)),
        }
    }

    /// True exactly on the null sentinel.
    pub fn is_null(&self) -> (r: bool)
        ensures
            r <==> self.deep() is Null,
    {
        match self {
            Value::Null => true,
            _ => false,
        }
    }
}

/// Model of an optional value.
pub open spec fn opt_deep(o: &Option<Value>) -> Option<ValueS> {
    match o {
        Some(v) => Some(v.deep()),
        None => None,
    }
}

/// Structural copy of an optional value.
pub fn dup_opt(o: &Option<Value>) -> (r: Option<Value>)
    ensures
        opt_deep(&r) == opt_deep(o),
{
    match o {
        Some(v) => Some(v.dup()),
        None => None,
    }
}

/// Structural copy of a list of values.
pub fn dup_list(items: &Vec<Value>) -> (r: Vec<Value>)
    ensures
        r@.len() == items@.len(),
        forall|j: int| 0 <= j < items@.len() ==> #[trigger] r@[j].deep() == items@[j].deep(),
        deep_seq(r@) == deep_seq(items@),
    decreases *items,
{
    let mut out: Vec<Value> = Vec::new();
    let mut k: usize = 0;
    while k < items.len()
        invariant
            k <= items.len(),
            out@.len() == k as int,
            forall|j: int| 0 <= j < k ==> #[trigger] out@[j].deep() == items@[j].deep(),
        decreases items.len() - k,
    {
        proof {
            assert(decreases_to!(*items => items@[k as int]));
        }
        let d = items[k].dup();
        out.push(d);
        k += 1;
    }
    proof {
        deep_seq_props(out@);
        deep_seq_props(items@);
        assert(deep_seq(out@) =~= deep_seq(items@));
    }
    out
}

} // verus!
