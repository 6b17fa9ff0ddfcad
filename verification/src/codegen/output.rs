use vstd::prelude::*;
use crate::codegen::node_types::{TypeInfo, NodeType};
use crate::codegen::names::{sanitized, sanitized_pascal};
use crate::codegen::registry::{CodegenState, CodegenModel, types_view, id_lookup, operators_name};
use crate::codegen::plan::{FieldPlan, FieldPlanModel, field_plans_view, struct_fields};
use crate::text::{string_chars, string_from_chars, clone_string, concat_str};

verus! {

/// One variant of a generated enum.
pub struct VariantPlan {
    /// The Rust name of the variant, and of the type it holds.
    pub name: String,
    /// The tree-sitter kind it stands for.
    pub kind: String,
    /// The tree-sitter id of that kind, if registered.
    pub kind_id: Option<u16>,
}

/// A generated struct.
pub struct StructPlan {
    /// The Rust name of the struct.
    pub name: String,
    /// The tree-sitter kind it stands for.
    pub kind: String,
    /// The tree-sitter id of that kind, if registered; otherwise the kind is
    /// matched by its text.
    pub kind_id: Option<u16>,
    /// Its fields, in order.
    pub fields: Vec<FieldPlan>,
}

/// A generated enum.
pub struct EnumPlan {
    /// The Rust name of the enum.
    pub name: String,
    /// Its variants, in order.
    pub variants: Vec<VariantPlan>,
}

/// One item of the generated code.
pub enum OutputItem {
    Struct(StructPlan),
    Enum(EnumPlan),
}

/// Abstract content of an [`OutputItem`].
pub enum OutputModel {
    Struct { name: Seq<char>, kind: Seq<char>, kind_id: Option<u16>, fields: Seq<FieldPlanModel> },
    Enum { name: Seq<char>, variants: Seq<(Seq<char>, Seq<char>, Option<u16>)> },
}

impl View for VariantPlan {
    type V = (Seq<char>, Seq<char>, Option<u16>);

    open spec fn view(&self) -> (Seq<char>, Seq<char>, Option<u16>) {
        (self.name@, self.kind@, self.kind_id)
    }
}

/// Views of a list of variants.
pub open spec fn variants_view(v: Seq<VariantPlan>) -> Seq<(Seq<char>, Seq<char>, Option<u16>)> {
    v.map_values(|p: VariantPlan| p@)
}

impl View for OutputItem {
    type V = OutputModel;

    open spec fn view(&self) -> OutputModel {
        match self {
            OutputItem::Struct(s) => OutputModel::Struct {
                name: s.name@,
                kind: s.kind@,
                kind_id: s.kind_id,
                fields: field_plans_view(s.fields@),
            },
            OutputItem::Enum(e) => OutputModel::Enum { name: e.name@, variants: variants_view(e.variants@) },
        }
    }
}

/// Views of a list of output items.
pub open spec fn items_view(v: Seq<OutputItem>) -> Seq<OutputModel> {
    v.map_values(|i: OutputItem| i@)
}

/// The id of a kind: as a named node if it is one, else as an unnamed node.
pub open spec fn kind_id_of(m: CodegenModel, kind: Seq<char>) -> Option<u16> {
    match id_lookup(m.named_ids, kind) {
        Some(id) => Some(id),
        None => id_lookup(m.unnamed_ids, kind),
    }
}

/// The id of a node type, looked up by whether it is named.
pub open spec fn type_id_of(m: CodegenModel, t: (Seq<char>, bool)) -> Option<u16> {
    if t.1 {
        id_lookup(m.named_ids, t.0)
    } else {
        id_lookup(m.unnamed_ids, t.0)
    }
}

/// The variant generated for a node type.
pub open spec fn variant_of(m: CodegenModel, t: (Seq<char>, bool)) -> (Seq<char>, Seq<char>, Option<u16>) {
    (sanitized_pascal(m.tokens, t.0), t.0, type_id_of(m, t))
}

/// The enum named `name` over `types`.
pub open spec fn enum_model(m: CodegenModel, name: Seq<char>, types: Seq<(Seq<char>, bool)>) -> OutputModel {
    OutputModel::Enum { name, variants: types.map_values(|t: (Seq<char>, bool)| variant_of(m, t)) }
}

/// The struct named `name` for `kind`, with `fields`.
pub open spec fn struct_model(m: CodegenModel, name: Seq<char>, kind: Seq<char>, fields: Seq<FieldPlanModel>) -> OutputModel {
    OutputModel::Struct { name, kind, kind_id: kind_id_of(m, kind), fields }
}

/// What one entry of `node-types.json` generates, and the records this adds.
///
/// A struct node gets a struct with its fields; an enum node an enum of its
/// subtypes; a token the struct `Token_<Name>`; any other node but a
/// supertype a struct without fields; a supertype nothing here.
pub open spec fn node_output(m: CodegenModel, node: NodeType) -> (Option<OutputModel>, CodegenModel) {
    let name = sanitized_pascal(m.tokens, node.kind@);
    if node.spec_is_struct() {
        let (fs, m2) = struct_fields(m, node);
        (Some(struct_model(m, name, node.kind@, fs)), m2)
    } else if node.spec_is_enum() {
        (Some(enum_model(m, name, types_view(node.subtypes->0@))), m)
    } else if node.spec_is_token() {
        (Some(struct_model(m, "Token_"@ + name, node.kind@, Seq::empty())), m)
    } else if !node.spec_is_supertype() {
        (Some(struct_model(m, name, node.kind@, Seq::empty())), m)
    } else {
        (None, m)
    }
}

/// The items generated after all nodes: one enum per operator list, one
/// enum per inline rule, one struct per anonymous type and one enum per
/// supertype, in that order.
pub open spec fn tail_output(m: CodegenModel) -> Seq<OutputModel> {
    let ops = Seq::new(m.operators.len(), |i: int| enum_model(m, operators_name(i as nat), m.operators[i].1));
    let inl = m.inline_rules.map_values(|r: (Seq<char>, Seq<(Seq<char>, bool)>)| enum_model(m, sanitized(m.tokens, r.0), r.1));
    let anon = m.anonymous_types.map_values(|k: Seq<char>| struct_model(m, sanitized_pascal(m.tokens, k), k, Seq::empty()));
    let sup = m.super_types.map_values(
        |s: (Seq<char>, (Seq<(Seq<char>, bool)>, Seq<Seq<char>>))| enum_model(m, sanitized_pascal(m.tokens, s.0), s.1.0),
    );
    ops + inl + anon + sup
}

impl CodegenState {
    /// The id of a kind, as a named node first.
    pub fn kind_id_of(&self, kind: &Vec<char>) -> (r: Option<u16>)
        ensures
            r == kind_id_of(self@, kind@),
    {
        match self.named_ids.get(kind) {
            Some(id) => Some(id),
            None => self.unnamed_ids.get(kind),
        }
    }

    /// The variant generated for a node type.
    pub fn variant_plan(&self, t: &TypeInfo) -> (r: VariantPlan)
        ensures
            r@ == variant_of(self@, t@),
    {
        let name = self.tokens.sanitize_to_pascal(t.kind.as_str());
        let k = string_chars(&t.kind);
        let kind_id = if t.named { self.named_ids.get(&k) } else { self.unnamed_ids.get(&k) };
        VariantPlan { name, kind: clone_string(&t.kind), kind_id }
    }

    /// The enum named `name` over `types`.
    pub fn enum_plan(&self, name: String, types: &Vec<TypeInfo>) -> (r: OutputItem)
        ensures
            r@ == enum_model(self@, name@, types_view(types@)),
    {
        let ghost m = self@;
        let mut variants: Vec<VariantPlan> = Vec::new();
        let mut i: usize = 0;
        while i < types.len()
            invariant
                m == self@,
                i <= types@.len(),
                variants@.len() == i,
                forall|j: int| 0 <= j < i ==> (#[trigger] variants@[j])@ == variant_of(m, types@[j]@),
            decreases types@.len() - i,
        {
            let v = self.variant_plan(&types[i]);
            variants.push(v);
            i = i + 1;
        }
        let r = OutputItem::Enum(EnumPlan { name, variants });
        assert(variants_view(variants@) =~= types_view(types@).map_values(|t: (Seq<char>, bool)| variant_of(m, t)));
        r
    }

    /// The struct named `name` for `kind`, with `fields`.
    pub fn struct_plan(&self, name: String, kind: &String, fields: Vec<FieldPlan>) -> (r: OutputItem)
        ensures
            r@ == struct_model(self@, name@, kind@, field_plans_view(fields@)),
    {
        let k = string_chars(kind);
        let kind_id = self.kind_id_of(&k);
        OutputItem::Struct(StructPlan { name, kind: clone_string(kind), kind_id, fields })
    }

    /// What one entry of `node-types.json` generates.
    pub fn plan_node(&mut self, node: &NodeType) -> (r: Option<OutputItem>)
        requires
            old(self).wf(),
        ensures
            final(self).wf(),
            (match r {
                Some(i) => Some(i@),
                None => None::<OutputModel>,
            }, final(self)@) == node_output(old(self)@, *node),
    {
        let name = self.tokens.sanitize_to_pascal(node.kind.as_str());
        if node.is_struct() {
            let k = string_chars(&node.kind);
            let kind_id = self.kind_id_of(&k);
            let fields = self.plan_struct_fields(node);
            Some(OutputItem::Struct(StructPlan { name, kind: clone_string(&node.kind), kind_id, fields }))
        } else if node.is_enum() {
            match &node.subtypes {
                Some(subtypes) => Some(self.enum_plan(name, subtypes)),
                None => None,
            }
        } else if node.is_token() {
            let n = string_chars(&name);
            let full = concat_str("Token_", &n);
            assert(field_plans_view(Seq::<FieldPlan>::empty()) =~= Seq::<FieldPlanModel>::empty());
            Some(self.struct_plan(string_from_chars(&full), &node.kind, Vec::new()))
        } else if !node.is_supertype() {
            let r = self.struct_plan(name, &node.kind, Vec::new());
            assert(field_plans_view(Seq::<FieldPlan>::empty()) =~= Seq::<FieldPlanModel>::empty());
            Some(r)
        } else {
            None
        }
    }
}

} // verus!
