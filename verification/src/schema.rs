//! The definitions resolver: compiles a declarative schema tree into the
//! executable validator tree, resolving forward and cyclic references by
//! name into indices of a flat definitions table, so compiled nodes form
//! no owning cycle even when the schema is self-referential.

use vstd::prelude::*;
use vstd::string::StringExecFns;
use std::sync::Arc;
use crate::errors::DefinitionError;
use crate::serializer::CombinedSerializer;
use crate::serializer::NullableSerializer;
use crate::validator::CombinedValidator;
use crate::validator::Definitions;
use crate::validator::GeneratorValidator;
use crate::validator::wf_node;
use crate::validator::wf_alts;

verus! {

broadcast use vstd::seq::axiom_seq_index_decreases, vstd::std_specs::vec::axiom_vec_decreases_to_view, vstd::std_specs::vec::axiom_vec_index_decreases;

/// One node of a parsed, declarative schema description.
#[derive(Debug)]
pub enum SchemaNode {
    Any,
    Int,
    Str,
    Nullable { schema: Box<SchemaNode> },
    Union { choices: Vec<SchemaNode> },
    Generator {
        items_schema: Option<Box<SchemaNode>>,
        min_length: Option<usize>,
        max_length: Option<usize>,
    },
    Ref { name: String },
}

/// A whole schema: named definitions plus the root node.
pub struct SchemaSpec {
    pub definitions: Vec<(String, SchemaNode)>,
    pub root: SchemaNode,
}

/// Ambient configuration options the resolver hands to each variant.
#[derive(Clone, Copy, PartialEq, Eq, Structural, Debug)]
pub struct CoreConfig {
    pub hide_input_in_errors: bool,
    pub validation_error_cause: bool,
}

/// The table of definition names, fixed before any body is compiled, so
/// a reference to a not-yet-compiled definition already has its index.
pub struct DefinitionsBuilder {
    pub names: Vec<String>,
}

impl DefinitionsBuilder {
    pub open spec fn names_view(&self) -> Seq<Seq<char>> {
        self.names@.map_values(|s: String| s@)
    }

    /// The index of `name` in the table, if it is defined.
    pub fn lookup(&self, name: &String) -> (r: Option<usize>)
        ensures
            match r {
                Some(i) => i < self.names_view().len() && self.names_view()[i as int] == name@,
                None => !defined(name@, self.names_view()),
            },
    {
        let mut k: usize = 0;
        while k < self.names.len()
            invariant
                k <= self.names@.len(),
                forall|j: int| 0 <= j < k ==> self.names_view()[j] != name@,
            decreases self.names@.len() - k,
        {
            if self.names[k].eq(name) {
                return Some(k);
            }
            k += 1;
        }
        None
    }
}

/// Whether `name` is one of the defined names.
pub open spec fn defined(name: Seq<char>, names: Seq<Seq<char>>) -> bool {
    exists|i: int| 0 <= i < names.len() && names[i] == name
}

/// Whether every reference in the schema resolves to a defined name.
pub open spec fn resolvable(s: SchemaNode, names: Seq<Seq<char>>) -> bool
    decreases s, 0nat,
{
    match s {
        SchemaNode::Nullable { schema } => resolvable(*schema, names),
        SchemaNode::Union { choices } => resolvable_list(choices, names, 0),
        SchemaNode::Generator { items_schema, .. } => match items_schema {
            Some(b) => resolvable(*b, names),
            None => true,
        },
        SchemaNode::Ref { name } => defined(name@, names),
        _ => true,
    }
}

pub open spec fn resolvable_list(choices: Vec<SchemaNode>, names: Seq<Seq<char>>, k: int) -> bool
    decreases choices, choices@.len() - k + 1,
{
    k >= choices@.len() || (0 <= k && resolvable(choices@[k], names) && resolvable_list(
        choices,
        names,
        k + 1,
    ))
}

/// Structural correspondence between a schema node and its compiled
/// validator, against the fixed name table.
pub open spec fn shape_matches(
    s: SchemaNode,
    v: CombinedValidator,
    names: Seq<Seq<char>>,
    config: CoreConfig,
) -> bool
    decreases s, 0nat,
{
    match s {
        SchemaNode::Any => v is Any,
        SchemaNode::Int => v is Int,
        SchemaNode::Str => v is Str,
        SchemaNode::Nullable { schema } => v matches CombinedValidator::Nullable(inner)
            && shape_matches(*schema, *inner, names, config),
        SchemaNode::Union { choices } => v matches CombinedValidator::Union(alts) && alts@.len()
            == choices@.len() && shapes_match(choices, alts, names, config, 0),
        SchemaNode::Generator { items_schema, min_length, max_length } => v matches
            CombinedValidator::Generator(g) && g.min_length == min_length && g.max_length
            == max_length && g.hide_input_in_errors == config.hide_input_in_errors
            && g.validation_error_cause == config.validation_error_cause && (match (
            items_schema,
            g.item_validator,
        ) {
            (Some(s2), Some(a)) => shape_matches(*s2, *a, names, config) && g.name@ == "generator["@
                + (*a).spec_name() + "]"@,
            (None, None) => g.name@ == "generator[any]"@,
            _ => false,
        }),
        SchemaNode::Ref { name } => v matches CombinedValidator::DefinitionRef(i) && i
            < names.len() && names[i as int] == name@,
    }
}

pub open spec fn shapes_match(
    choices: Vec<SchemaNode>,
    alts: Vec<CombinedValidator>,
    names: Seq<Seq<char>>,
    config: CoreConfig,
    k: int,
) -> bool
    decreases choices, choices@.len() - k + 1,
{
    k >= choices@.len() || (0 <= k && k < alts@.len() && shape_matches(
        choices@[k],
        alts@[k],
        names,
        config,
    ) && shapes_match(choices, alts, names, config, k + 1))
}

/// The inner node of a compiled nullable wrapper.
pub open spec fn nullable_inner(v: CombinedValidator) -> CombinedValidator {
    *(v->Nullable_0)
}

/// The item node of a compiled lazy-sequence validator.
pub open spec fn generator_item(v: CombinedValidator) -> CombinedValidator {
    *(v->Generator_0.item_validator->Some_0)
}

/// A compiled node whose shape matches its schema is well-formed against
/// any table with as many entries as there are names.
pub proof fn lemma_shape_wf(s: SchemaNode, v: CombinedValidator, names: Seq<Seq<char>>, config: CoreConfig)
    requires
        shape_matches(s, v, names, config),
    ensures
        wf_node(v, names.len() as int),
    decreases s, 1nat,
{
    match s {
        SchemaNode::Nullable { schema } => {
            lemma_shape_wf(*schema, nullable_inner(v), names, config);
        },
        SchemaNode::Union { choices } => {
            lemma_shapes_wf(choices, v->Union_0, names, config, 0);
        },
        SchemaNode::Generator { items_schema, .. } => {
            match items_schema {
                Some(s2) => {
                    lemma_shape_wf(*s2, generator_item(v), names, config);
                },
                None => (),
            }
        },
        _ => (),
    }
}

pub proof fn lemma_shapes_wf(
    choices: Vec<SchemaNode>,
    alts: Vec<CombinedValidator>,
    names: Seq<Seq<char>>,
    config: CoreConfig,
    k: int,
)
    requires
        0 <= k,
        shapes_match(choices, alts, names, config, k),
        alts@.len() == choices@.len(),
    ensures
        wf_alts(alts, names.len() as int, k),
    decreases choices, choices@.len() - k + 1,
{
    if k < choices@.len() {
        lemma_shape_wf(choices@[k], alts@[k], names, config);
        lemma_shapes_wf(choices, alts, names, config, k + 1);
    }
}

/// Compile one schema node against the fixed name table.
pub fn compile_node(
    node: &SchemaNode,
    config: &CoreConfig,
    builder: &DefinitionsBuilder,
) -> (r: Result<CombinedValidator, DefinitionError>)
    ensures
        r matches Ok(v) ==> shape_matches(*node, v, builder.names_view(), *config),
        r is Ok <==> resolvable(*node, builder.names_view()),
    decreases *node, 1nat,
{
    match node {
        SchemaNode::Any => Ok(CombinedValidator::Any),
        SchemaNode::Int => Ok(CombinedValidator::Int),
        SchemaNode::Str => Ok(CombinedValidator::Str),
        SchemaNode::Nullable { schema } => match compile_node(schema, config, builder) {
            Ok(inner) => Ok(CombinedValidator::Nullable(Box::new(inner))),
            Err(e) => Err(e),
        },
        SchemaNode::Union { choices } => match compile_list(choices, config, builder) {
            Ok(alts) => Ok(CombinedValidator::Union(alts)),
            Err(e) => Err(e),
        },
        SchemaNode::Generator { items_schema, min_length, max_length } => GeneratorValidator::build(
            items_schema,
            *min_length,
            *max_length,
            config,
            builder,
        ),
        SchemaNode::Ref { name } => match builder.lookup(name) {
            Some(i) => Ok(CombinedValidator::DefinitionRef(i)),
            None => Err(DefinitionError { name: name.clone() }),
        },
    }
}

/// Compile each alternative of a union, in declaration order.
fn compile_list(
    choices: &Vec<SchemaNode>,
    config: &CoreConfig,
    builder: &DefinitionsBuilder,
) -> (r: Result<Vec<CombinedValidator>, DefinitionError>)
    ensures
        r matches Ok(alts) ==> alts@.len() == choices@.len() && shapes_match(
            *choices,
            alts,
            builder.names_view(),
            *config,
            0,
        ),
        r is Ok <==> resolvable_list(*choices, builder.names_view(), 0),
    decreases *choices, 2nat,
{
    let mut alts: Vec<CombinedValidator> = Vec::new();
    let mut k: usize = 0;
    while k < choices.len()
        invariant
            k <= choices@.len(),
            alts@.len() == k as int,
            forall|j: int|
                0 <= j < k ==> shape_matches(
                    choices@[j],
                    #[trigger] alts@[j],
                    builder.names_view(),
                    *config,
                ),
            forall|j: int| 0 <= j < k ==> resolvable(#[trigger] choices@[j], builder.names_view()),
        decreases choices@.len() - k,
    {
        proof {
            assert(decreases_to!(*choices => choices@[k as int]));
        }
        let c = &choices[k];
        match compile_node(c, config, builder) {
            Ok(v) => {
                alts.push(v);
            },
            Err(e) => {
                proof {
                    lemma_resolvable_list_index(*choices, builder.names_view(), k as int);
                }
                return Err(e);
            },
        }
        k += 1;
    }
    proof {
        lemma_shapes_match_index(*choices, alts, builder.names_view(), *config, 0);
        lemma_resolvable_list_all(*choices, builder.names_view(), 0);
    }
    Ok(alts)
}

/// If one alternative does not resolve, the whole list does not.
proof fn lemma_resolvable_list_index(choices: Vec<SchemaNode>, names: Seq<Seq<char>>, k: int)
    requires
        0 <= k < choices@.len(),
        !resolvable(choices@[k], names),
    ensures
        !resolvable_list(choices, names, 0),
    decreases k,
{
    lemma_resolvable_list_prefix(choices, names, 0, k);
}

proof fn lemma_resolvable_list_prefix(choices: Vec<SchemaNode>, names: Seq<Seq<char>>, j: int, k: int)
    requires
        0 <= j <= k < choices@.len(),
        !resolvable(choices@[k], names),
    ensures
        !resolvable_list(choices, names, j),
    decreases k - j,
{
    if j < k {
        lemma_resolvable_list_prefix(choices, names, j + 1, k);
    }
}

/// Element-wise resolvability gives the recursive form.
proof fn lemma_resolvable_list_all(choices: Vec<SchemaNode>, names: Seq<Seq<char>>, k: int)
    requires
        0 <= k <= choices@.len(),
        forall|j: int| k <= j < choices@.len() ==> resolvable(#[trigger] choices@[j], names),
    ensures
        resolvable_list(choices, names, k),
    decreases choices@.len() - k,
{
    if k < choices@.len() {
        lemma_resolvable_list_all(choices, names, k + 1);
    }
}

/// Element-wise shape correspondence gives the recursive form.
proof fn lemma_shapes_match_index(
    choices: Vec<SchemaNode>,
    alts: Vec<CombinedValidator>,
    names: Seq<Seq<char>>,
    config: CoreConfig,
    k: int,
)
    requires
        0 <= k <= choices@.len(),
        alts@.len() == choices@.len(),
        forall|j: int|
            k <= j < choices@.len() ==> shape_matches(choices@[j], #[trigger] alts@[j], names, config),
    ensures
        shapes_match(choices, alts, names, config, k),
    decreases choices@.len() - k,
{
    if k < choices@.len() {
        lemma_shapes_match_index(choices, alts, names, config, k + 1);
    }
}

impl GeneratorValidator {
    /// Build the lazy-sequence variant from its schema options: compile
    /// the optional item schema and synthesize the composed name.
    pub fn build(
        items_schema: &Option<Box<SchemaNode>>,
        min_length: Option<usize>,
        max_length: Option<usize>,
        config: &CoreConfig,
        builder: &DefinitionsBuilder,
    ) -> (r: Result<CombinedValidator, DefinitionError>)
        ensures
            r matches Ok(v) ==> shape_matches(
                (SchemaNode::Generator {
                    items_schema: *items_schema,
                    min_length,
                    max_length,
                }),
                v,
                builder.names_view(),
                *config,
            ),
            r is Ok <==> resolvable(
                (SchemaNode::Generator {
                    items_schema: *items_schema,
                    min_length,
                    max_length,
                }),
                builder.names_view(),
            ),
        decreases *items_schema, 3nat,
    {
        let item_validator: Option<Arc<CombinedValidator>> = match items_schema {
            Some(s2) => match compile_node(s2, config, builder) {
                Ok(v) => Some(Arc::new(v)),
                Err(e) => {
                    return Err(e);
                },
            },
            None => None,
        };
        let name: String = match &item_validator {
            Some(a) => {
                let inner_name = crate::validator::arc_node_ref(a).get_name();
                String::from_str("generator[").concat(inner_name).concat("]")
            },
            None => String::from_str("generator[any]"),
        };
        Ok(
            CombinedValidator::Generator(
                GeneratorValidator {
                    item_validator,
                    min_length,
                    max_length,
                    name,
                    hide_input_in_errors: config.hide_input_in_errors,
                    validation_error_cause: config.validation_error_cause,
                },
            ),
        )
    }
}

impl NullableSerializer {
    /// Build the nullable serializer around its wrapped schema.
    pub fn build(schema: &SchemaNode) -> (r: CombinedSerializer)
        ensures
            r matches CombinedSerializer::Nullable(n) && *n.serializer == build_serializer_spec(
                *schema,
            ),
        decreases *schema, 1nat,
    {
        CombinedSerializer::Nullable(
            NullableSerializer { serializer: Box::new(build_serializer(schema)) },
        )
    }
}

/// The serializer a schema node compiles to: strings serialize as
/// strings, nullable wraps its inner serializer, everything else
/// serializes by the value's own shape.
pub open spec fn build_serializer_spec(s: SchemaNode) -> CombinedSerializer
    decreases s, 0nat,
{
    match s {
        SchemaNode::Str => CombinedSerializer::Str,
        SchemaNode::Nullable { schema } => CombinedSerializer::Nullable(
            NullableSerializer { serializer: Box::new(build_serializer_spec(*schema)) },
        ),
        _ => CombinedSerializer::Any,
    }
}

/// Compile a schema node into its serializer.
pub fn build_serializer(node: &SchemaNode) -> (r: CombinedSerializer)
    ensures
        r == build_serializer_spec(*node),
    decreases *node, 0nat,
{
    match node {
        SchemaNode::Str => CombinedSerializer::Str,
        SchemaNode::Nullable { schema } => NullableSerializer::build(schema),
        _ => CombinedSerializer::Any,
    }
}

/// Compile a whole schema: fix every definition's index first, so
/// forward and mutually recursive references resolve, then compile each
/// definition body and the root.  Fails exactly when some reference
/// names a definition that is never defined.
pub fn build_schema(schema: &SchemaSpec, config: &CoreConfig) -> (r: Result<
    (CombinedValidator, Arc<Definitions>),
    DefinitionError,
>)
    ensures
        ({
            let names = schema.definitions@.map_values(|d: (String, SchemaNode)| d.0@);
            &&& r matches Ok((root, defs)) ==> {
                &&& defs.nodes@.len() == schema.definitions@.len()
                &&& defs.wf()
                &&& wf_node(root, defs.nodes@.len() as int)
                &&& shape_matches(schema.root, root, names, *config)
                &&& forall|i: int|
                    0 <= i < defs.nodes@.len() ==> shape_matches(
                        schema.definitions@[i].1,
                        #[trigger] defs.nodes@[i],
                        names,
                        *config,
                    )
            }
            &&& r is Ok <==> (resolvable(schema.root, names) && forall|i: int|
                0 <= i < schema.definitions@.len() ==> resolvable(
                    #[trigger] schema.definitions@[i].1,
                    names,
                ))
        }),
{
    let mut names: Vec<String> = Vec::new();
    let mut k: usize = 0;
    while k < schema.definitions.len()
        invariant
            k <= schema.definitions@.len(),
            names@.len() == k as int,
            forall|j: int| 0 <= j < k ==> names@[j]@ == #[trigger] schema.definitions@[j].0@,
        decreases schema.definitions@.len() - k,
    {
        names.push(schema.definitions[k].0.clone());
        k += 1;
    }
    let builder = DefinitionsBuilder { names };
    proof {
        assert(builder.names_view() =~= schema.definitions@.map_values(
            |d: (String, SchemaNode)| d.0@,
        ));
    }
    let mut nodes: Vec<CombinedValidator> = Vec::new();
    let mut k2: usize = 0;
    while k2 < schema.definitions.len()
        invariant
            k2 <= schema.definitions@.len(),
            nodes@.len() == k2 as int,
            builder.names_view() == schema.definitions@.map_values(
                |d: (String, SchemaNode)| d.0@,
            ),
            builder.names_view().len() == schema.definitions@.len(),
            forall|j: int|
                0 <= j < k2 ==> shape_matches(
                    schema.definitions@[j].1,
                    #[trigger] nodes@[j],
                    builder.names_view(),
                    *config,
                ),
            forall|j: int|
                0 <= j < k2 ==> resolvable(#[trigger] schema.definitions@[j].1, builder.names_view()),
        decreases schema.definitions@.len() - k2,
    {
        match compile_node(&schema.definitions[k2].1, config, &builder) {
            Ok(v) => {
                nodes.push(v);
            },
            Err(e) => {
                return Err(e);
            },
        }
        k2 += 1;
    }
    let root = match compile_node(&schema.root, config, &builder) {
        Ok(v) => v,
        Err(e) => {
            return Err(e);
        },
    };
    let defs = Definitions { nodes };
    proof {
        let names_s = builder.names_view();
        assert forall|i: int| 0 <= i < defs.nodes@.len() implies wf_node(
            #[trigger] defs.nodes@[i],
            defs.nodes@.len() as int,
        ) by {
            lemma_shape_wf(schema.definitions@[i].1, defs.nodes@[i], names_s, *config);
        }
        lemma_shape_wf(schema.root, root, names_s, *config);
    }
    Ok((root, Arc::new(defs)))
}

} // verus!
