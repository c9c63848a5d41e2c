//! Per-call validation state: exactness scoring, the recursion guard and
//! the ambient call parameters threaded through every node of the tree.

use vstd::prelude::*;
use crate::value::Value;

verus! {

/// How well an input matched a type without coercion.  A union combinator
/// keeps the alternative with the best (highest) exactness.
#[derive(Clone, Copy, PartialEq, Eq, Structural, Debug)]
pub enum Exactness {
    Lax,
    Strict,
    Exact,
}

impl Exactness {
    /// Total order on exactness levels: `Lax < Strict < Exact`.
    pub open spec fn rank(self) -> int {
        match self {
            Exactness::Lax => 0,
            Exactness::Strict => 1,
            Exactness::Exact => 2,
        }
    }
}

/// The lower of two exactness levels.
pub open spec fn spec_exact_min(a: Exactness, b: Exactness) -> Exactness {
    if a.rank() <= b.rank() {
        a
    } else {
        b
    }
}

/// The lower of two optional exactness levels; an absent level is treated
/// as no information and the other side wins.
pub open spec fn spec_exact_opt_min(a: Option<Exactness>, b: Option<Exactness>) -> Option<
    Exactness,
> {
    match (a, b) {
        (Some(x), Some(y)) => Some(spec_exact_min(x, y)),
        (Some(x), None) => Some(x),
        (None, y) => y,
    }
}

pub fn exact_min(a: Exactness, b: Exactness) -> (r: Exactness)
    ensures
        r == spec_exact_min(a, b),
{
    let ra: u8 = match a {
        Exactness::Lax => 0,
        Exactness::Strict => 1,
        Exactness::Exact => 2,
    };
    let rb: u8 = match b {
        Exactness::Lax => 0,
        Exactness::Strict => 1,
        Exactness::Exact => 2,
    };
    if ra <= rb {
        a
    } else {
        b
    }
}

/// String-interning policy carried through a validation call; the engine
/// only copies it for later re-entrant validation.
#[derive(Clone, Copy, PartialEq, Eq, Structural, Debug)]
pub enum StringCacheMode {
    CacheAll,
    CacheKeys,
    CacheNone,
}

/// Which representation the top-level input arrived in.
#[derive(Clone, Copy, PartialEq, Eq, Structural, Debug)]
pub enum InputType {
    Python,
    Json,
}

/// Ambient parameters of one validation call, owned by the call.
#[derive(Debug)]
pub struct Extra {
    pub input_type: InputType,
    pub data: Option<Value>,
    pub strict: Option<bool>,
    pub from_attributes: Option<bool>,
    pub field_name: Option<String>,
    pub context: Option<Value>,
    pub self_instance: Option<Value>,
    pub cache_str: StringCacheMode,
    pub by_alias: Option<bool>,
    pub by_name: Option<bool>,
}

impl Extra {
    /// Whether strict matching is in force; unset means lax.
    pub open spec fn strictness(&self) -> bool {
        self.strict == Some(true)
    }
}

/// Bound on the depth of in-flight schema-reference resolutions; past it a
/// validation fails with a recursion error instead of exhausting the stack.
pub const RECURSION_LIMIT: usize = 255;

/// Tracks how many schema-reference resolutions are currently active on
/// the validation path.  Self-referential schemas re-enter through a
/// reference, so bounding this depth bounds all re-entrant validation.
#[derive(Clone, Copy, PartialEq, Eq, Structural, Debug)]
pub struct RecursionGuard {
    pub depth: usize,
}

impl RecursionGuard {
    pub open spec fn wf(&self) -> bool {
        self.depth <= RECURSION_LIMIT
    }

    pub fn new() -> (r: RecursionGuard)
        ensures
            r.depth == 0,
    {
        RecursionGuard { depth: 0 }
    }
}

/// Mutable context threaded through the whole node tree during one
/// top-level validation call.
pub struct ValidationState {
    pub extra: Extra,
    pub recursion_guard: RecursionGuard,
    pub exactness: Option<Exactness>,
    pub fields_set_count: Option<usize>,
    pub allow_partial: bool,
}

impl ValidationState {
    pub fn new(extra: Extra, recursion_guard: RecursionGuard, allow_partial: bool) -> (r:
        ValidationState)
        ensures
            r.extra == extra,
            r.recursion_guard == recursion_guard,
            r.exactness is None,
            r.fields_set_count is None,
            r.allow_partial == allow_partial,
    {
        ValidationState {
            extra,
            recursion_guard,
            exactness: None,
            fields_set_count: None,
            allow_partial,
        }
    }

    /// Lower the accumulated exactness to at most `e`.
    pub fn floor_exactness(&mut self, e: Exactness)
        ensures
            final(self).exactness == spec_exact_opt_min(old(self).exactness, Some(e)),
            final(self).extra == old(self).extra,
            final(self).recursion_guard == old(self).recursion_guard,
            final(self).fields_set_count == old(self).fields_set_count,
            final(self).allow_partial == old(self).allow_partial,
    {
        let cur = self.exactness;
        match cur {
            Some(x) => {
                self.exactness = Some(exact_min(x, e));
            },
            None => {
                self.exactness = Some(e);
            },
        }
    }
}

} // verus!
