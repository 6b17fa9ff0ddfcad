use vstd::prelude::*;
use crate::codegen::node_types::{TypeInfo, FieldInfo, NodeType};
use crate::codegen::names::{TokenTable, sanitized, sanitized_pascal};
use crate::codegen::registry::{CodegenState, CodegenModel, SuperType, types_view, strings_view, super_view, supers_view, key_pos, lemma_key_pos, operators_name, clone_types};
use crate::codegen::output::{OutputItem, OutputModel, items_view, node_output, tail_output, enum_model, struct_model};
use crate::codegen::plan::{FieldPlan, FieldPlanModel, field_plans_view};
use crate::text::{string_chars, chars_eq, clone_string, concat_str, decimal_chars, string_from_chars};

verus! {

/// Number of field ids a node registers: one per field of a named node.
pub open spec fn field_count(node: NodeType) -> nat {
    if node.named {
        match node.fields {
            Some(fs) => fs@.len(),
            None => 0,
        }
    } else {
        0
    }
}

/// `ids` after registering `fids[i]` for the name of field `i`, in order.
pub open spec fn add_field_ids(ids: Seq<(Seq<char>, u16)>, fs: Seq<(String, FieldInfo)>, fids: Seq<u16>) -> Seq<(Seq<char>, u16)>
    decreases fs.len(),
{
    if fs.len() == 0 {
        ids
    } else {
        seq![(fs.last().0@, fids[fs.len() - 1])] + add_field_ids(ids, fs.drop_last(), fids)
    }
}

/// The supertype recorded for a node: its subtypes, and their kinds.
pub open spec fn super_entry(node: NodeType) -> (Seq<(Seq<char>, bool)>, Seq<Seq<char>>) {
    let sub = match node.subtypes {
        Some(s) => types_view(s@),
        None => Seq::empty(),
    };
    (sub, sub.map_values(|t: (Seq<char>, bool)| t.0))
}

/// `sts` with the supertype `name` set to `e`, replacing an earlier one.
pub open spec fn super_insert(
    sts: Seq<(Seq<char>, (Seq<(Seq<char>, bool)>, Seq<Seq<char>>))>,
    name: Seq<char>,
    e: (Seq<(Seq<char>, bool)>, Seq<Seq<char>>),
) -> Seq<(Seq<char>, (Seq<(Seq<char>, bool)>, Seq<Seq<char>>))> {
    let p = key_pos(sts, name);
    if p < sts.len() {
        sts.update(p, (name, e))
    } else {
        sts.push((name, e))
    }
}

/// The records that one entry of `node-types.json` adds, given the id the
/// grammar has for its kind and the ids it has for its fields.
pub open spec fn record_step(m: CodegenModel, node: NodeType, kind_id: u16, fids: Seq<u16>) -> CodegenModel {
    if node.named {
        let field_ids = match node.fields {
            Some(fs) => add_field_ids(m.field_ids, fs@, fids),
            None => m.field_ids,
        };
        let super_types = if node.spec_is_supertype() {
            super_insert(m.super_types, node.kind@, super_entry(node))
        } else {
            m.super_types
        };
        CodegenModel {
            named_rules: m.named_rules.push(sanitized_pascal(m.tokens, node.kind@)),
            named_ids: seq![(node.kind@, kind_id)] + m.named_ids,
            field_ids,
            super_types,
            ..m
        }
    } else {
        CodegenModel { unnamed_ids: seq![(node.kind@, kind_id)] + m.unnamed_ids, ..m }
    }
}

/// The kinds a supertype's kind `k` stands for: the kinds of the supertype
/// named `k` if there is one, else `k` itself.
pub open spec fn expand_super(sts: Seq<(Seq<char>, (Seq<(Seq<char>, bool)>, Seq<Seq<char>>))>, k: Seq<char>) -> Seq<Seq<char>> {
    let p = key_pos(sts, k);
    if p < sts.len() {
        sts[p].1.1
    } else {
        seq![k]
    }
}

/// `ts` with every kind expanded by [`expand_super`].
pub open spec fn flatten_types(sts: Seq<(Seq<char>, (Seq<(Seq<char>, bool)>, Seq<Seq<char>>))>, ts: Seq<Seq<char>>) -> Seq<Seq<char>>
    decreases ts.len(),
{
    if ts.len() == 0 {
        Seq::empty()
    } else {
        flatten_types(sts, ts.drop_last()) + expand_super(sts, ts.last())
    }
}

/// Every supertype with its kinds flattened, against the list as it was.
pub open spec fn flatten_supers(sts: Seq<(Seq<char>, (Seq<(Seq<char>, bool)>, Seq<Seq<char>>))>) -> Seq<(Seq<char>, (Seq<(Seq<char>, bool)>, Seq<Seq<char>>))> {
    sts.map_values(|e: (Seq<char>, (Seq<(Seq<char>, bool)>, Seq<Seq<char>>))| (e.0, (e.1.0, flatten_types(sts, e.1.1))))
}

/// The supertype generated for a node.
pub fn generate_super_type(node: &NodeType) -> (r: SuperType)
    ensures
        super_view(r) == (node.kind@, super_entry(*node)),
{
    let mut variants: Vec<TypeInfo> = Vec::new();
    let mut types: Vec<String> = Vec::new();
    match &node.subtypes {
        Some(subtypes) => {
            variants = clone_types(subtypes);
            let mut i: usize = 0;
            while i < subtypes.len()
                invariant
                    i <= subtypes@.len(),
                    types@.len() == i,
                    forall|j: int| 0 <= j < i ==> (#[trigger] types@[j])@ == subtypes@[j].kind@,
                decreases subtypes@.len() - i,
            {
                types.push(clone_string(&subtypes[i].kind));
                i = i + 1;
            }
            assert(strings_view(types@) =~= super_entry(*node).1);
        },
        None => {
            assert(types_view(variants@) =~= Seq::<(Seq<char>, bool)>::empty());
            assert(strings_view(types@) =~= Seq::<Seq<char>>::empty());
            assert(super_entry(*node).1 =~= Seq::<Seq<char>>::empty());
        },
    }
    SuperType { name: clone_string(&node.kind), variants, types }
}

/// Copy of a list of strings.
pub fn clone_strings(v: &Vec<String>) -> (r: Vec<String>)
    ensures
        strings_view(r@) == strings_view(v@),
{
    let mut r: Vec<String> = Vec::new();
    let mut i: usize = 0;
    while i < v.len()
        invariant
            i <= v@.len(),
            r@.len() == i,
            forall|j: int| 0 <= j < i ==> (#[trigger] r@[j])@ == v@[j]@,
        decreases v@.len() - i,
    {
        r.push(clone_string(&v[i]));
        i = i + 1;
    }
    assert(strings_view(r@) =~= strings_view(v@));
    r
}

impl CodegenState {
    /// Position of the supertype named `name`, or their number.
    pub fn find_super(&self, name: &Vec<char>) -> (r: usize)
        ensures
            r == key_pos(self@.super_types, name@),
    {
        let mut i: usize = 0;
        assert(self@.super_types.subrange(0, self@.super_types.len() as int) =~= self@.super_types);
        while i < self.super_types.len()
            invariant
                i <= self.super_types@.len(),
                self@.super_types.len() == self.super_types@.len(),
                key_pos(self@.super_types, name@) == i + key_pos(self@.super_types.subrange(i as int, self@.super_types.len() as int), name@),
            decreases self.super_types@.len() - i,
        {
            let ghost rest = self@.super_types.subrange(i as int, self@.super_types.len() as int);
            assert(rest.drop_first() =~= self@.super_types.subrange(i + 1, self@.super_types.len() as int));
            let c = string_chars(&self.super_types[i].name);
            if chars_eq(&c, name) {
                return i;
            }
            i = i + 1;
        }
        i
    }

    /// Sets the supertype of the same name to `st`, or adds it.
    pub fn insert_super(&mut self, st: SuperType)
        requires
            old(self).wf(),
        ensures
            final(self).wf(),
            final(self)@ == (CodegenModel {
                super_types: super_insert(old(self)@.super_types, st.name@, super_view(st).1),
                ..old(self)@
            }),
    {
        let name = string_chars(&st.name);
        let p = self.find_super(&name);
        proof { lemma_key_pos(self@.super_types, name@); }
        let ghost before = self@;
        let ghost sv = super_view(st);
        if p < self.super_types.len() {
            self.super_types.set(p, st);
            assert(supers_view(self.super_types@) =~= before.super_types.update(p as int, sv));
        } else {
            self.super_types.push(st);
            assert(supers_view(self.super_types@) =~= before.super_types.push(sv));
        }
    }

    /// Records one entry of `node-types.json`, given the id the grammar has
    /// for its kind and, for a named node, the ids it has for its fields.
    ///
    /// A named node adds its Pascal name to the named rules, its id to the
    /// ids of named kinds, the ids of its fields, and, for a supertype, the
    /// supertype. An unnamed node adds its id to the ids of unnamed kinds.
    pub fn record_node(&mut self, node: &NodeType, kind_id: u16, field_ids: &Vec<u16>)
        requires
            old(self).wf(),
            field_ids@.len() == field_count(*node),
        ensures
            final(self).wf(),
            final(self)@ == record_step(old(self)@, *node, kind_id, field_ids@),
    {
        let ghost m0 = self@;
        if node.named {
            let name = self.tokens.sanitize_to_pascal(node.kind.as_str());
            let ghost rules0 = self.named_rules@;
            self.named_rules.push(name);
            assert(strings_view(self.named_rules@) =~= strings_view(rules0).push(name@));
            self.named_ids.insert(clone_string(&node.kind), kind_id);
            let ghost m1 = self@;
            match &node.fields {
                Some(fs) => {
                    let mut i: usize = 0;
                    while i < fs.len()
                        invariant
                            self.wf(),
                            i <= fs@.len(),
                            fs@.len() == field_ids@.len(),
                            self@ == (CodegenModel { field_ids: add_field_ids(m1.field_ids, fs@.subrange(0, i as int), field_ids@), ..m1 }),
                        decreases fs@.len() - i,
                    {
                        proof {
                            let next = fs@.subrange(0, i + 1);
                            assert(next.drop_last() =~= fs@.subrange(0, i as int));
                        }
                        self.field_ids.insert(clone_string(&fs[i].0), field_ids[i]);
                        i = i + 1;
                    }
                    assert(fs@.subrange(0, fs@.len() as int) =~= fs@);
                },
                None => {},
            }
            if node.is_supertype() {
                let st = generate_super_type(node);
                self.insert_super(st);
            }
        } else {
            self.unnamed_ids.insert(clone_string(&node.kind), kind_id);
        }
    }

    /// Replaces the kinds of every supertype by their expansion against
    /// the supertypes as they were: a kind that names a supertype stands
    /// for the kinds of that supertype.
    pub fn flatten_super_types(&mut self)
        requires
            old(self).wf(),
        ensures
            final(self).wf(),
            final(self)@ == (CodegenModel { super_types: flatten_supers(old(self)@.super_types), ..old(self)@ }),
    {
        let ghost sts = self@.super_types;
        let mut flat: Vec<SuperType> = Vec::new();
        let mut i: usize = 0;
        while i < self.super_types.len()
            invariant
                sts == self@.super_types,
                i <= sts.len(),
                flat@.len() == i,
                forall|j: int| 0 <= j < i ==> #[trigger] super_view(flat@[j]) == (sts[j].0, (sts[j].1.0, flatten_types(sts, sts[j].1.1))),
            decreases sts.len() - i,
        {
            let st = &self.super_types[i];
            let ghost ts = strings_view(st.types@);
            assert(ts == sts[i as int].1.1);
            let mut types: Vec<String> = Vec::new();
            let mut j: usize = 0;
            while j < st.types.len()
                invariant
                    sts == self@.super_types,
                    ts == strings_view(st.types@),
                    j <= st.types@.len(),
                    strings_view(types@) == flatten_types(sts, ts.subrange(0, j as int)),
                decreases st.types@.len() - j,
            {
                let k = string_chars(&st.types[j]);
                let p = self.find_super(&k);
                proof {
                    lemma_key_pos(sts, k@);
                    assert(ts.subrange(0, j + 1).drop_last() =~= ts.subrange(0, j as int));
                }
                let ghost before = strings_view(types@);
                if p < self.super_types.len() {
                    let inner = &self.super_types[p].types;
                    let mut q: usize = 0;
                    while q < inner.len()
                        invariant
                            q <= inner@.len(),
                            strings_view(types@) == before + strings_view(inner@).subrange(0, q as int),
                        decreases inner@.len() - q,
                    {
                        let ghost b2 = strings_view(types@);
                        types.push(clone_string(&inner[q]));
                        assert(strings_view(types@) =~= b2.push(inner@[q as int]@));
                        assert(strings_view(inner@).subrange(0, q + 1) =~= strings_view(inner@).subrange(0, q as int).push(inner@[q as int]@));
                        q = q + 1;
                    }
                    assert(strings_view(inner@).subrange(0, inner@.len() as int) =~= strings_view(inner@));
                    assert(strings_view(inner@) == sts[p as int].1.1);
                } else {
                    types.push(clone_string(&st.types[j]));
                    assert(strings_view(types@) =~= before + seq![k@]);
                }
                j = j + 1;
            }
            assert(ts.subrange(0, ts.len() as int) =~= ts);
            let variants = clone_types(&st.variants);
            flat.push(SuperType { name: clone_string(&st.name), variants, types });
            i = i + 1;
        }
        assert(supers_view(flat@) =~= flatten_supers(sts));
        self.super_types = flat;
    }
}


/// A state that records nothing yet, with the given token names.
pub open spec fn initial_model(tokens: Seq<(String, String)>) -> CodegenModel {
    CodegenModel {
        tokens,
        named_rules: Seq::empty(),
        anonymous_types: Seq::empty(),
        operators: Seq::empty(),
        inline_rules: Seq::empty(),
        named_ids: Seq::empty(),
        unnamed_ids: Seq::empty(),
        field_ids: Seq::empty(),
        super_types: Seq::empty(),
    }
}

/// Whether `kids` and `fids` give an id for each node and for each field.
pub open spec fn ids_fit(nodes: Seq<NodeType>, kids: Seq<u16>, fids: Seq<Seq<u16>>) -> bool {
    &&& kids.len() == nodes.len()
    &&& fids.len() == nodes.len()
    &&& forall|i: int| 0 <= i < nodes.len() ==> (#[trigger] fids[i]).len() == field_count(nodes[i])
}

/// The records of all nodes, in order.
pub open spec fn register_all(m: CodegenModel, nodes: Seq<NodeType>, kids: Seq<u16>, fids: Seq<Seq<u16>>) -> CodegenModel
    decreases nodes.len(),
{
    if nodes.len() == 0 {
        m
    } else {
        let n = nodes.len() - 1;
        record_step(register_all(m, nodes.drop_last(), kids, fids), nodes[n], kids[n], fids[n])
    }
}

/// The items of all nodes, in order, and the records they add.
pub open spec fn outputs_all(m: CodegenModel, nodes: Seq<NodeType>) -> (Seq<OutputModel>, CodegenModel)
    decreases nodes.len(),
{
    if nodes.len() == 0 {
        (Seq::empty(), m)
    } else {
        let (items, m1) = outputs_all(m, nodes.drop_last());
        let (o, m2) = node_output(m1, nodes.last());
        (match o {
            Some(x) => items.push(x),
            None => items,
        }, m2)
    }
}

/// The whole generated code, as items: all nodes are registered first,
/// the supertypes flattened, then each node generates its item, and the
/// operator lists, inline rules, anonymous types and supertypes follow.
pub open spec fn generate_model(nodes: Seq<NodeType>, tokens: Seq<(String, String)>, kids: Seq<u16>, fids: Seq<Seq<u16>>) -> Seq<OutputModel> {
    let m1 = register_all(initial_model(tokens), nodes, kids, fids);
    let m2 = CodegenModel { super_types: flatten_supers(m1.super_types), ..m1 };
    let (items, m3) = outputs_all(m2, nodes);
    items + tail_output(m3)
}

/// Views of a list of id lists.
pub open spec fn id_lists_view(v: Seq<Vec<u16>>) -> Seq<Seq<u16>> {
    v.map_values(|x: Vec<u16>| x@)
}

impl CodegenState {
    /// The items generated after all nodes: operator lists, inline rules,
    /// anonymous types and supertypes.
    pub fn plan_tail(&self) -> (r: Vec<OutputItem>)
        ensures
            items_view(r@) == tail_output(self@),
    {
        let ghost m = self@;
        let mut out: Vec<OutputItem> = Vec::new();
        let mut i: usize = 0;
        while i < self.operators.len()
            invariant
                m == self@,
                i <= self.operators@.len(),
                items_view(out@) =~= Seq::new(i as nat, |k: int| enum_model(m, operators_name(k as nat), m.operators[k].1)),
            decreases self.operators@.len() - i,
        {
            let digits = decimal_chars(i);
            let name = concat_str("Operators_", &digits);
            let item = self.enum_plan(string_from_chars(&name), &self.operators[i].operators);
            let ghost before = items_view(out@);
            out.push(item);
            assert(items_view(out@) =~= before.push(item@));
            i = i + 1;
        }
        let ghost ops = items_view(out@);
        let mut i: usize = 0;
        while i < self.inline_rules.len()
            invariant
                m == self@,
                i <= self.inline_rules@.len(),
                items_view(out@) =~= ops + m.inline_rules.subrange(0, i as int).map_values(
                    |r: (Seq<char>, Seq<(Seq<char>, bool)>)| enum_model(m, sanitized(m.tokens, r.0), r.1),
                ),
            decreases self.inline_rules@.len() - i,
        {
            let name = self.tokens.sanitize(self.inline_rules[i].name.as_str());
            let item = self.enum_plan(name, &self.inline_rules[i].variants);
            let ghost before = items_view(out@);
            out.push(item);
            assert(items_view(out@) =~= before.push(item@));
            assert(m.inline_rules.subrange(0, i + 1) =~= m.inline_rules.subrange(0, i as int).push(m.inline_rules[i as int]));
            i = i + 1;
        }
        assert(m.inline_rules.subrange(0, m.inline_rules.len() as int) =~= m.inline_rules);
        let ghost inl = items_view(out@);
        let mut i: usize = 0;
        while i < self.anonymous_types.len()
            invariant
                m == self@,
                i <= self.anonymous_types@.len(),
                items_view(out@) =~= inl + m.anonymous_types.subrange(0, i as int).map_values(
                    |k: Seq<char>| struct_model(m, sanitized_pascal(m.tokens, k), k, Seq::empty()),
                ),
            decreases self.anonymous_types@.len() - i,
        {
            let name = self.tokens.sanitize_to_pascal(self.anonymous_types[i].as_str());
            let item = self.struct_plan(name, &self.anonymous_types[i], Vec::new());
            assert(field_plans_view(Seq::<FieldPlan>::empty()) =~= Seq::<FieldPlanModel>::empty());
            let ghost before = items_view(out@);
            out.push(item);
            assert(items_view(out@) =~= before.push(item@));
            assert(m.anonymous_types.subrange(0, i + 1) =~= m.anonymous_types.subrange(0, i as int).push(m.anonymous_types[i as int]));
            i = i + 1;
        }
        assert(m.anonymous_types.subrange(0, m.anonymous_types.len() as int) =~= m.anonymous_types);
        let ghost anon = items_view(out@);
        let mut i: usize = 0;
        while i < self.super_types.len()
            invariant
                m == self@,
                i <= self.super_types@.len(),
                items_view(out@) =~= anon + m.super_types.subrange(0, i as int).map_values(
                    |s: (Seq<char>, (Seq<(Seq<char>, bool)>, Seq<Seq<char>>))| enum_model(m, sanitized_pascal(m.tokens, s.0), s.1.0),
                ),
            decreases self.super_types@.len() - i,
        {
            let name = self.tokens.sanitize_to_pascal(self.super_types[i].name.as_str());
            let item = self.enum_plan(name, &self.super_types[i].variants);
            let ghost before = items_view(out@);
            out.push(item);
            assert(items_view(out@) =~= before.push(item@));
            assert(m.super_types.subrange(0, i + 1) =~= m.super_types.subrange(0, i as int).push(m.super_types[i as int]));
            i = i + 1;
        }
        assert(m.super_types.subrange(0, m.super_types.len() as int) =~= m.super_types);
        out
    }
}


/// The generated code for the entries of `node-types.json`, given the id the
/// grammar has for each node kind and for each field of a named node.
pub fn generate_with_ids(nodes: &Vec<NodeType>, tokens: TokenTable, kind_ids: &Vec<u16>, field_ids: &Vec<Vec<u16>>) -> (r: Vec<OutputItem>)
    requires
        ids_fit(nodes@, kind_ids@, id_lists_view(field_ids@)),
    ensures
        items_view(r@) == generate_model(nodes@, tokens.entries@, kind_ids@, id_lists_view(field_ids@)),
{
    let ghost kids = kind_ids@;
    let ghost fids = id_lists_view(field_ids@);
    let ghost m0 = initial_model(tokens.entries@);
    let mut st = CodegenState::new(tokens);
    assert(st@ =~= m0) by {
        assert(st@.named_rules =~= m0.named_rules);
        assert(st@.anonymous_types =~= m0.anonymous_types);
        assert(st@.operators =~= m0.operators);
        assert(st@.inline_rules =~= m0.inline_rules);
        assert(st@.named_ids =~= m0.named_ids);
        assert(st@.unnamed_ids =~= m0.unnamed_ids);
        assert(st@.field_ids =~= m0.field_ids);
        assert(st@.super_types =~= m0.super_types);
    }
    let mut i: usize = 0;
    while i < nodes.len()
        invariant
            st.wf(),
            i <= nodes@.len(),
            kids == kind_ids@,
            fids == id_lists_view(field_ids@),
            ids_fit(nodes@, kids, fids),
            st@ == register_all(m0, nodes@.subrange(0, i as int), kids, fids),
        decreases nodes@.len() - i,
    {
        proof {
            let next = nodes@.subrange(0, i + 1);
            assert(next.drop_last() =~= nodes@.subrange(0, i as int));
            assert(fids[i as int] == field_ids@[i as int]@);
            assert(fids[i as int].len() == field_count(nodes@[i as int]));
        }
        st.record_node(&nodes[i], kind_ids[i], &field_ids[i]);
        i = i + 1;
    }
    assert(nodes@.subrange(0, nodes@.len() as int) =~= nodes@);
    st.flatten_super_types();
    let ghost m2 = st@;
    let mut out: Vec<OutputItem> = Vec::new();
    let mut i: usize = 0;
    while i < nodes.len()
        invariant
            st.wf(),
            i <= nodes@.len(),
            (items_view(out@), st@) == outputs_all(m2, nodes@.subrange(0, i as int)),
        decreases nodes@.len() - i,
    {
        proof {
            let next = nodes@.subrange(0, i + 1);
            assert(next.drop_last() =~= nodes@.subrange(0, i as int));
        }
        let ghost before = items_view(out@);
        match st.plan_node(&nodes[i]) {
            Some(item) => {
                out.push(item);
                assert(items_view(out@) =~= before.push(item@));
            },
            None => {},
        }
        i = i + 1;
    }
    let mut tail = st.plan_tail();
    let ghost a = out@;
    let ghost b = tail@;
    out.append(&mut tail);
    assert(items_view(out@) =~= items_view(a) + items_view(b));
    out
}

/// The external type of a tree-sitter grammar.
#[verifier::external_type_specification]
#[verifier::external_body]
pub struct ExLanguage(tree_sitter::Language);

/// The id that the grammar `language` has for the node kind `kind`, named
/// or not (0 where it has none).
pub uninterp spec fn grammar_kind_id(language: tree_sitter::Language, kind: Seq<char>, named: bool) -> u16;

/// The id that the grammar `language` has for the field `name`, if any.
pub uninterp spec fn grammar_field_id(language: tree_sitter::Language, name: Seq<char>) -> Option<u16>;

/// Calls `tree_sitter::Language::id_for_node_kind`: the grammar's numeric id
/// for the node kind `kind`, named or not (0 where the grammar has none).
/// The id is read from the grammar's own tables, so it is named by
/// [`grammar_kind_id`], not stated.
#[verifier::external_body]
fn id_for_node_kind(language: &tree_sitter::Language, kind: &str, named: bool) -> (r: u16)
    ensures
        r == grammar_kind_id(*language, kind@, named),
{
    language.id_for_node_kind(kind, named)
}

/// Calls `tree_sitter::Language::field_id_for_name`: the grammar's numeric id
/// for the field `name`, `None` where the grammar has no such field, named
/// by [`grammar_field_id`]. The id is a `NonZeroU16`, so it is never 0.
#[verifier::external_body]
fn field_id_for_name(language: &tree_sitter::Language, name: &str) -> (r: Option<u16>)
    ensures
        r == grammar_field_id(*language, name@),
        r matches Some(id) ==> id != 0,
{
    match language.field_id_for_name(name) {
        Some(id) => Some(id.get()),
        None => None,
    }
}

/// The name of field `b` of `node`.
pub open spec fn field_name(node: NodeType, b: int) -> Seq<char> {
    match node.fields {
        Some(fs) => fs@[b].0@,
        None => Seq::empty(),
    }
}

/// The id the grammar has for field `b` of `node` (0 where it has none).
pub open spec fn grammar_field_id_of(language: tree_sitter::Language, node: NodeType, b: int) -> u16 {
    match grammar_field_id(language, field_name(node, b)) {
        Some(id) => id,
        None => 0,
    }
}

/// The grammar's ids of the node kinds of `nodes`.
pub open spec fn grammar_kind_ids(language: tree_sitter::Language, nodes: Seq<NodeType>) -> Seq<u16> {
    Seq::new(nodes.len(), |j: int| grammar_kind_id(language, nodes[j].kind@, nodes[j].named))
}

/// The grammar's ids of the fields of the named nodes of `node`.
pub open spec fn grammar_field_ids_of(language: tree_sitter::Language, node: NodeType) -> Seq<u16> {
    Seq::new(field_count(node), |b: int| grammar_field_id_of(language, node, b))
}

/// The grammar's ids of the fields of each node of `nodes`.
pub open spec fn grammar_field_ids(language: tree_sitter::Language, nodes: Seq<NodeType>) -> Seq<Seq<u16>> {
    Seq::new(nodes.len(), |j: int| grammar_field_ids_of(language, nodes[j]))
}

/// Whether the grammar has an id for every field of every named node.
pub open spec fn fields_known(language: tree_sitter::Language, nodes: Seq<NodeType>) -> bool {
    forall|j: int, b: int| 0 <= j < nodes.len() && 0 <= b < field_count(nodes[j])
        ==> (#[trigger] grammar_field_id(language, field_name(nodes[j], b))) is Some
}

/// The generated code for the entries of `node-types.json` of `language`.
///
/// The ids of node kinds and fields are asked of the grammar; the result is
/// `None` exactly when a field of a named node has no id there. Otherwise it
/// is the code [`generate_with_ids`] builds from the ids the grammar has for
/// each node's kind and namedness and for each field's name.
pub fn generate(nodes: &Vec<NodeType>, language: &tree_sitter::Language, tokens: TokenTable) -> (r: Option<Vec<OutputItem>>)
    ensures
        r is Some <==> fields_known(*language, nodes@),
        r matches Some(items) ==> items_view(items@) == generate_model(
            nodes@,
            tokens.entries@,
            grammar_kind_ids(*language, nodes@),
            grammar_field_ids(*language, nodes@),
        ),
{
    let ghost lang = *language;
    let mut kind_ids: Vec<u16> = Vec::new();
    let mut field_ids: Vec<Vec<u16>> = Vec::new();
    let mut i: usize = 0;
    while i < nodes.len()
        invariant
            lang == *language,
            i <= nodes@.len(),
            kind_ids@.len() == i,
            field_ids@.len() == i,
            forall|j: int| 0 <= j < i ==> #[trigger] kind_ids@[j] == grammar_kind_ids(lang, nodes@)[j],
            forall|j: int| 0 <= j < i ==> (#[trigger] field_ids@[j])@ == grammar_field_ids(lang, nodes@)[j],
            forall|j: int, b: int| 0 <= j < i && 0 <= b < field_count(nodes@[j])
                ==> (#[trigger] grammar_field_id(lang, field_name(nodes@[j], b))) is Some,
        decreases nodes@.len() - i,
    {
        let node = &nodes[i];
        let kid = id_for_node_kind(language, node.kind.as_str(), node.named);
        let mut ids: Vec<u16> = Vec::new();
        if node.named {
            match &node.fields {
                Some(fs) => {
                    let mut j: usize = 0;
                    while j < fs.len()
                        invariant
                            lang == *language,
                            j <= fs@.len(),
                            ids@.len() == j,
                            i < nodes@.len(),
                            *node == nodes@[i as int],
                            node.named,
                            node.fields == Some(*fs),
                            forall|b: int| 0 <= b < j ==> #[trigger] ids@[b] == grammar_field_id_of(lang, *node, b),
                            forall|b: int| 0 <= b < j ==> (#[trigger] grammar_field_id(lang, field_name(*node, b))) is Some,
                        decreases fs@.len() - j,
                    {
                        let name = fs[j].0.as_str();
                        assert(name@ == field_name(*node, j as int));
                        match field_id_for_name(language, name) {
                            Some(id) => ids.push(id),
                            None => {
                                assert(!fields_known(lang, nodes@)) by {
                                    assert(grammar_field_id(lang, field_name(nodes@[i as int], j as int)) is None);
                                }
                                return None;
                            },
                        }
                        j = j + 1;
                    }
                    assert(ids@ =~= grammar_field_ids_of(lang, *node));
                },
                None => {
                    assert(ids@ =~= grammar_field_ids_of(lang, *node));
                },
            }
        } else {
            assert(ids@ =~= grammar_field_ids_of(lang, *node));
        }
        kind_ids.push(kid);
        field_ids.push(ids);
        i = i + 1;
    }
    assert(kind_ids@ =~= grammar_kind_ids(lang, nodes@));
    assert(id_lists_view(field_ids@) =~= grammar_field_ids(lang, nodes@));
    assert(fields_known(lang, nodes@));
    assert(ids_fit(nodes@, kind_ids@, id_lists_view(field_ids@)));
    Some(generate_with_ids(nodes, tokens, &kind_ids, &field_ids))
}

} // verus!
