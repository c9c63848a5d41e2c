//! Engine-wide laws, stated over the mathematical semantics that every
//! executable entry point is proved to implement.

use vstd::prelude::*;
use crate::value::ValueS;
use crate::errors::ErrorKind;
use crate::serializer::CombinedSerializer;
use crate::serializer::ser_json_key;
use crate::serializer::ser_to_python;
use crate::state::Exactness;
use crate::state::RECURSION_LIMIT;
use crate::validator::CombinedValidator;
use crate::validator::OutS;
use crate::validator::SOut;
use crate::validator::eval_alts;
use crate::validator::eval_node;
use crate::validator::one_line;
use crate::schema::nullable_inner;

verus! {

/// Delegation transparency of the nullable wrapper: on exactly the null
/// sentinel it returns null without consulting the inner node — the
/// outcome is a constant, whatever the inner node is — and on every
/// other input it returns exactly what the inner node returns standalone.
pub proof fn lemma_nullable_transparency(
    node: CombinedValidator,
    defs: Seq<CombinedValidator>,
    input: ValueS,
    strict: bool,
    depth: nat,
)
    requires
        node is Nullable,
    ensures
        input is Null ==> eval_node(node, defs, input, strict, depth) == (SOut {
            res: Ok(OutS::Val(ValueS::Null)),
            exact: Exactness::Exact,
            partial_off: false,
        }),
        !(input is Null) ==> eval_node(node, defs, input, strict, depth) == eval_node(
            nullable_inner(node),
            defs,
            input,
            strict,
            depth,
        ),
{
}

/// The nullable wrapper renders the null sentinel used as a mapping key
/// as the fixed literal `"null"`, independent of the inner node; any
/// other key delegates to the inner node, and the host-native rendering
/// short-circuits the sentinel the same way.
pub proof fn lemma_nullable_null_key(node: CombinedSerializer, key: ValueS)
    requires
        node is Nullable,
    ensures
        key is Null ==> ser_json_key(node, key) == Ok::<Seq<char>, crate::serializer::SerError>(
            "null"@,
        ),
        key is Null ==> ser_to_python(node, key) == ValueS::Null,
{
}

/// The recursion guard is deterministic and bounded: a definition that
/// resolves directly to itself fails with a recursion error, at every
/// input and under every strictness, rather than descending without end.
/// (That no validation whatever the schema exhausts the call stack is the
/// termination measure of `eval_node` itself, checked on every recursive
/// call.)
pub proof fn lemma_self_reference_recursion(
    defs: Seq<CombinedValidator>,
    i: int,
    input: ValueS,
    strict: bool,
    depth: nat,
)
    requires
        0 <= i < defs.len(),
        defs[i] == CombinedValidator::DefinitionRef(i as usize),
        i <= usize::MAX,
        depth <= RECURSION_LIMIT,
    ensures
        eval_node(defs[i], defs, input, strict, depth).res == Err::<OutS, Seq<crate::errors::LineS>>(
            one_line(ErrorKind::Recursion, input),
        ),
    decreases RECURSION_LIMIT - depth,
{
    if depth < RECURSION_LIMIT {
        lemma_self_reference_recursion(defs, i, input, strict, (depth + 1) as nat);
    }
}

/// A cycle through a composite node is also caught: a definition that is
/// a nullable wrapper around a reference to itself fails with a recursion
/// error on every input other than the null sentinel.
pub proof fn lemma_nullable_cycle_recursion(
    defs: Seq<CombinedValidator>,
    i: int,
    input: ValueS,
    strict: bool,
    depth: nat,
)
    requires
        0 <= i < defs.len(),
        defs[i] is Nullable,
        nullable_inner(defs[i]) == CombinedValidator::DefinitionRef(i as usize),
        i <= usize::MAX,
        depth <= RECURSION_LIMIT,
        !(input is Null),
    ensures
        eval_node(defs[i], defs, input, strict, depth).res == Err::<OutS, Seq<crate::errors::LineS>>(
            one_line(ErrorKind::Recursion, input),
        ),
    decreases RECURSION_LIMIT - depth,
{
    let node = defs[i];
    let inner = nullable_inner(node);
    assert(eval_node(node, defs, input, strict, depth) == eval_node(
        inner,
        defs,
        input,
        strict,
        depth,
    ));
    if depth < RECURSION_LIMIT {
        lemma_nullable_cycle_recursion(defs, i, input, strict, (depth + 1) as nat);
        assert(eval_node(inner, defs, input, strict, depth) == eval_node(
            node,
            defs,
            input,
            strict,
            (depth + 1) as nat,
        ));
    }
}

/// Exactness tie-break: when the first-declared alternative of a union
/// matches exactly, its result is the union's result — later
/// alternatives, exact or not, are never consulted.
pub proof fn lemma_union_first_exact_wins(
    alts: Vec<CombinedValidator>,
    defs: Seq<CombinedValidator>,
    input: ValueS,
    strict: bool,
    depth: nat,
)
    requires
        alts@.len() >= 1,
        eval_node(alts@[0], defs, input, strict, depth).res is Ok,
        eval_node(alts@[0], defs, input, strict, depth).exact == Exactness::Exact,
    ensures
        ({
            let u = eval_alts(alts, defs, input, strict, depth, 0, None);
            &&& u.res == eval_node(alts@[0], defs, input, strict, depth).res
            &&& u.exact == Exactness::Exact
        }),
{
}

} // verus!
