use vstd::prelude::*;
use crate::codegen::node_types::TypeInfo;
use crate::codegen::names::{TokenTable, sanitized_pascal};
use crate::text::{chars_eq, decimal, decimal_chars, concat_str, push_chars, string_chars, string_from_chars};

verus! {

impl View for TypeInfo {
    type V = (Seq<char>, bool);

    open spec fn view(&self) -> (Seq<char>, bool) {
        (self.kind@, self.named)
    }
}

/// Views of a list of node types.
pub open spec fn types_view(v: Seq<TypeInfo>) -> Seq<(Seq<char>, bool)> {
    v.map_values(|t: TypeInfo| t@)
}

/// Views of a list of strings.
pub open spec fn strings_view(v: Seq<String>) -> Seq<Seq<char>> {
    v.map_values(|s: String| s@)
}

/// Copy of a node type.
pub fn clone_type_info(t: &TypeInfo) -> (r: TypeInfo)
    ensures
        r@ == t@,
{
    TypeInfo { kind: t.kind.clone(), named: t.named }
}

/// Copy of a list of node types.
pub fn clone_types(v: &Vec<TypeInfo>) -> (r: Vec<TypeInfo>)
    ensures
        types_view(r@) == types_view(v@),
{
    let mut r: Vec<TypeInfo> = Vec::new();
    let mut i: usize = 0;
    while i < v.len()
        invariant
            i <= v@.len(),
            types_view(r@) == types_view(v@.subrange(0, i as int)),
        decreases v@.len() - i,
    {
        r.push(clone_type_info(&v[i]));
        assert(types_view(v@.subrange(0, i + 1)) =~= types_view(v@.subrange(0, i as int)).push(v@[i as int]@));
        i = i + 1;
    }
    assert(v@.subrange(0, v@.len() as int) =~= v@);
    r
}

/// A table from names to tree-sitter ids; the latest entry for a name wins.
pub struct IdTable {
    /// Pairs of (name, id), latest first.
    pub entries: Vec<(String, u16)>,
}

/// Views of the entries of an id table.
pub open spec fn id_entries_view(v: Seq<(String, u16)>) -> Seq<(Seq<char>, u16)> {
    v.map_values(|e: (String, u16)| (e.0@, e.1))
}

/// The first id registered for `name`.
pub open spec fn id_lookup(entries: Seq<(Seq<char>, u16)>, name: Seq<char>) -> Option<u16>
    decreases entries.len(),
{
    if entries.len() == 0 {
        None
    } else if entries[0].0 == name {
        Some(entries[0].1)
    } else {
        id_lookup(entries.drop_first(), name)
    }
}

impl View for IdTable {
    type V = Seq<(Seq<char>, u16)>;

    open spec fn view(&self) -> Seq<(Seq<char>, u16)> {
        id_entries_view(self.entries@)
    }
}

impl IdTable {
    /// An empty table.
    pub fn new() -> (r: Self)
        ensures
            r@ == Seq::<(Seq<char>, u16)>::empty(),
    {
        let r = IdTable { entries: Vec::new() };
        assert(r@ =~= Seq::<(Seq<char>, u16)>::empty());
        r
    }

    /// Registers `id` for `name`, replacing any earlier id.
    pub fn insert(&mut self, name: String, id: u16)
        ensures
            final(self)@ == seq![(name@, id)] + old(self)@,
    {
        self.entries.insert(0, (name, id));
        assert(final(self)@ =~= seq![(name@, id)] + old(self)@);
    }

    /// The id registered for `name`.
    pub fn get(&self, name: &Vec<char>) -> (r: Option<u16>)
        ensures
            r == id_lookup(self@, name@),
    {
        let mut i: usize = 0;
        assert(self@.subrange(0, self@.len() as int) =~= self@);
        while i < self.entries.len()
            invariant
                i <= self.entries@.len(),
                self@.len() == self.entries@.len(),
                id_lookup(self@, name@) == id_lookup(self@.subrange(i as int, self@.len() as int), name@),
            decreases self.entries@.len() - i,
        {
            let ghost rest = self@.subrange(i as int, self@.len() as int);
            assert(rest.drop_first() =~= self@.subrange(i + 1, self@.len() as int));
            let key = string_chars(&self.entries[i].0);
            if chars_eq(&key, name) {
                return Some(self.entries[i].1);
            }
            i = i + 1;
        }
        None
    }
}

/// An enum generated for a list of unnamed tokens.
pub struct OperatorList {
    /// The concatenated kinds of the tokens, the key of the list.
    pub rule: String,
    /// The number of the list, used in its name.
    pub index: usize,
    /// The tokens.
    pub operators: Vec<TypeInfo>,
}

/// An enum generated for a field or child list that mixes named and unnamed types.
pub struct InlineRule {
    /// The name of the enum.
    pub name: String,
    /// The types it can hold.
    pub variants: Vec<TypeInfo>,
}

/// Everything the generator records while it walks `node-types.json`.
pub struct CodegenState {
    /// Names of tokens, user entries first.
    pub tokens: TokenTable,
    /// Pascal names of all named rules.
    pub named_rules: Vec<String>,
    /// Kinds referenced as a single type that are not named rules.
    pub anonymous_types: Vec<String>,
    /// Lists of tokens, numbered by position.
    pub operators: Vec<OperatorList>,
    /// Enums for lists of mixed types.
    pub inline_rules: Vec<InlineRule>,
    /// Ids of named node kinds.
    pub named_ids: IdTable,
    /// Ids of unnamed node kinds.
    pub unnamed_ids: IdTable,
    /// Ids of field names.
    pub field_ids: IdTable,
    /// Supertypes, one per name.
    pub super_types: Vec<SuperType>,
}

/// A supertype: the enum of its subtypes.
pub struct SuperType {
    /// The kind of the supertype.
    pub name: String,
    /// Its subtypes, the variants of the enum.
    pub variants: Vec<TypeInfo>,
    /// The kinds of the subtypes, with nested supertypes replaced by their own kinds.
    pub types: Vec<String>,
}

/// Abstract content of a [`SuperType`]: its name, then its variants and kinds.
pub open spec fn super_view(s: SuperType) -> (Seq<char>, (Seq<(Seq<char>, bool)>, Seq<Seq<char>>)) {
    (s.name@, (types_view(s.variants@), strings_view(s.types@)))
}

/// Abstract content of a list of supertypes.
pub open spec fn supers_view(v: Seq<SuperType>) -> Seq<(Seq<char>, (Seq<(Seq<char>, bool)>, Seq<Seq<char>>))> {
    v.map_values(|s: SuperType| super_view(s))
}

/// Abstract content of a [`CodegenState`].
pub struct CodegenModel {
    pub tokens: Seq<(String, String)>,
    pub named_rules: Seq<Seq<char>>,
    pub anonymous_types: Seq<Seq<char>>,
    pub operators: Seq<(Seq<char>, Seq<(Seq<char>, bool)>)>,
    pub inline_rules: Seq<(Seq<char>, Seq<(Seq<char>, bool)>)>,
    pub named_ids: Seq<(Seq<char>, u16)>,
    pub unnamed_ids: Seq<(Seq<char>, u16)>,
    pub field_ids: Seq<(Seq<char>, u16)>,
    pub super_types: Seq<(Seq<char>, (Seq<(Seq<char>, bool)>, Seq<Seq<char>>))>,
}

impl View for CodegenState {
    type V = CodegenModel;

    open spec fn view(&self) -> CodegenModel {
        CodegenModel {
            tokens: self.tokens.entries@,
            named_rules: strings_view(self.named_rules@),
            anonymous_types: strings_view(self.anonymous_types@),
            operators: self.operators@.map_values(|o: OperatorList| (o.rule@, types_view(o.operators@))),
            inline_rules: self.inline_rules@.map_values(|r: InlineRule| (r.name@, types_view(r.variants@))),
            named_ids: self.named_ids@,
            unnamed_ids: self.unnamed_ids@,
            field_ids: self.field_ids@,
            super_types: supers_view(self.super_types@),
        }
    }
}

/// The kinds of `types`, concatenated.
pub open spec fn concat_kinds(types: Seq<(Seq<char>, bool)>) -> Seq<char>
    decreases types.len(),
{
    if types.len() == 0 {
        Seq::empty()
    } else {
        concat_kinds(types.drop_last()) + types.last().0
    }
}

/// The key of an operator list holds all its kinds, in order: a single
/// token's key is its kind, and the key of two lists put together is their
/// keys put together. So every token of a list counts in its key.
pub proof fn lemma_concat_kinds_joins_all(a: Seq<(Seq<char>, bool)>, b: Seq<(Seq<char>, bool)>, t: (Seq<char>, bool))
    ensures
        concat_kinds(seq![t]) == t.0,
        concat_kinds(a + b) == concat_kinds(a) + concat_kinds(b),
        concat_kinds(a.push(t)).len() == concat_kinds(a).len() + t.0.len(),
    decreases b.len(),
{
    let none = Seq::<(Seq<char>, bool)>::empty();
    assert(seq![t].drop_last() =~= none);
    assert(concat_kinds(none) == Seq::<char>::empty());
    assert(Seq::<char>::empty() + t.0 =~= t.0);
    if b.len() == 0 {
        assert(a + b =~= a);
        assert(concat_kinds(a) + Seq::<char>::empty() =~= concat_kinds(a));
    } else {
        lemma_concat_kinds_joins_all(a, b.drop_last(), t);
        assert((a + b).drop_last() =~= a + b.drop_last());
        assert((a + b).last() == b.last());
        assert(concat_kinds(a) + concat_kinds(b) =~= concat_kinds(a) + concat_kinds(b.drop_last()) + b.last().0);
    }
    assert(a.push(t).drop_last() =~= a);
}

/// The Pascal names of `types`, joined by underscores.
pub open spec fn pascal_join(tokens: Seq<(String, String)>, types: Seq<(Seq<char>, bool)>) -> Seq<char>
    decreases types.len(),
{
    if types.len() == 0 {
        Seq::empty()
    } else if types.len() == 1 {
        sanitized_pascal(tokens, types[0].0)
    } else {
        pascal_join(tokens, types.drop_last()) + seq!['_'] + sanitized_pascal(tokens, types.last().0)
    }
}

/// Whether no type of the list is named.
pub open spec fn all_unnamed(types: Seq<(Seq<char>, bool)>) -> bool {
    forall|i: int| 0 <= i < types.len() ==> !types[i].1
}

/// Position of the first entry keyed by `key`, or the length when there is none.
pub open spec fn key_pos<V>(entries: Seq<(Seq<char>, V)>, key: Seq<char>) -> int
    decreases entries.len(),
{
    if entries.len() == 0 {
        0
    } else if entries[0].0 == key {
        0
    } else {
        1 + key_pos(entries.drop_first(), key)
    }
}

/// The position found by [`key_pos`] is at most the length, and an entry
/// stands there when it is less.
pub proof fn lemma_key_pos<V>(entries: Seq<(Seq<char>, V)>, key: Seq<char>)
    ensures
        0 <= key_pos(entries, key) <= entries.len(),
        key_pos(entries, key) < entries.len() ==> entries[key_pos(entries, key)].0 == key,
        forall|j: int| 0 <= j < key_pos(entries, key) ==> entries[j].0 != key,
    decreases entries.len(),
{
    if entries.len() > 0 && entries[0].0 != key {
        let rest = entries.drop_first();
        lemma_key_pos(rest, key);
        assert forall|j: int| 0 <= j < key_pos(entries, key) implies entries[j].0 != key by {
            if j > 0 {
                assert(entries[j] == rest[j - 1]);
            }
        }
    }
}

/// Whether no string occurs twice in `v`.
pub open spec fn distinct(v: Seq<Seq<char>>) -> bool {
    forall|i: int, j: int| 0 <= i < j < v.len() ==> v[i] != v[j]
}

/// Whether no key occurs twice in `v`.
pub open spec fn distinct_keys<V>(v: Seq<(Seq<char>, V)>) -> bool {
    forall|i: int, j: int| 0 <= i < j < v.len() ==> v[i].0 != v[j].0
}

/// Whether `s` occurs in `v`.
pub open spec fn seq_has(v: Seq<Seq<char>>, s: Seq<char>) -> bool {
    exists|i: int| 0 <= i < v.len() && v[i] == s
}

/// `v` with `s` added at the end unless it already occurs.
pub open spec fn set_add(v: Seq<Seq<char>>, s: Seq<char>) -> Seq<Seq<char>> {
    if seq_has(v, s) {
        v
    } else {
        v.push(s)
    }
}

/// Name of the operator list numbered `n`.
pub open spec fn operators_name(n: nat) -> Seq<char> {
    "Operators_"@ + decimal(n)
}

/// The type name generated for a field or child list of `types`, and the
/// records that naming it adds.
pub open spec fn base_step(m: CodegenModel, types: Seq<(Seq<char>, bool)>) -> (Seq<char>, CodegenModel) {
    if types.len() == 1 {
        let name = sanitized_pascal(m.tokens, types[0].0);
        if seq_has(m.named_rules, name) {
            (name, m)
        } else {
            (name, CodegenModel { anonymous_types: set_add(m.anonymous_types, types[0].0), ..m })
        }
    } else if all_unnamed(types) {
        let rule = concat_kinds(types);
        let pos = key_pos(m.operators, rule);
        if pos < m.operators.len() {
            (operators_name(pos as nat), m)
        } else {
            (operators_name(pos as nat), CodegenModel { operators: m.operators.push((rule, types)), ..m })
        }
    } else {
        let name = pascal_join(m.tokens, types);
        let pos = key_pos(m.inline_rules, name);
        if pos < m.inline_rules.len() {
            (name, m)
        } else {
            (name, CodegenModel { inline_rules: m.inline_rules.push((name, types)), ..m })
        }
    }
}

impl CodegenState {
    /// Operator lists are numbered by their position.
    ///
    /// No anonymous type is recorded twice, and no two operator lists,
    /// inline rules or supertypes share a key.
    pub open spec fn wf(&self) -> bool {
        &&& forall|i: int| 0 <= i < self.operators@.len() ==> self.operators@[i].index == i
        &&& distinct(self@.anonymous_types)
        &&& distinct_keys(self@.operators)
        &&& distinct_keys(self@.inline_rules)
        &&& distinct_keys(self@.super_types)
    }

    /// A state that records nothing yet, with the given token names.
    pub fn new(tokens: TokenTable) -> (r: Self)
        ensures
            r.wf(),
            r@.tokens == tokens.entries@,
            r@.named_rules.len() == 0,
            r@.anonymous_types.len() == 0,
            r@.operators.len() == 0,
            r@.inline_rules.len() == 0,
            r@.named_ids.len() == 0,
            r@.unnamed_ids.len() == 0,
            r@.field_ids.len() == 0,
            r@.super_types.len() == 0,
    {
        CodegenState {
            tokens,
            named_rules: Vec::new(),
            anonymous_types: Vec::new(),
            operators: Vec::new(),
            inline_rules: Vec::new(),
            named_ids: IdTable::new(),
            unnamed_ids: IdTable::new(),
            field_ids: IdTable::new(),
            super_types: Vec::new(),
        }
    }

    /// Whether `name` is a named rule.
    pub fn has_named_rule(&self, name: &Vec<char>) -> (r: bool)
        ensures
            r == seq_has(self@.named_rules, name@),
    {
        let mut i: usize = 0;
        while i < self.named_rules.len()
            invariant
                i <= self.named_rules@.len(),
                forall|j: int| 0 <= j < i ==> self@.named_rules[j] != name@,
            decreases self.named_rules@.len() - i,
        {
            let c = string_chars(&self.named_rules[i]);
            if chars_eq(&c, name) {
                assert(self@.named_rules[i as int] == name@);
                return true;
            }
            i = i + 1;
        }
        false
    }

    /// Records `kind` as an anonymous type unless it is one already.
    pub fn add_anonymous(&mut self, kind: &Vec<char>)
        requires
            old(self).wf(),
        ensures
            final(self).wf(),
            final(self)@ == (CodegenModel { anonymous_types: set_add(old(self)@.anonymous_types, kind@), ..old(self)@ }),
    {
        let mut i: usize = 0;
        while i < self.anonymous_types.len()
            invariant
                i <= self.anonymous_types@.len(),
                self.wf(),
                forall|j: int| 0 <= j < i ==> self@.anonymous_types[j] != kind@,
            decreases self.anonymous_types@.len() - i,
        {
            let c = string_chars(&self.anonymous_types[i]);
            if chars_eq(&c, kind) {
                assert(self@.anonymous_types[i as int] == kind@);
                assert(self@ == (CodegenModel { anonymous_types: set_add(self@.anonymous_types, kind@), ..self@ }));
                return;
            }
            i = i + 1;
        }
        let ghost before = self@;
        self.anonymous_types.push(string_from_chars(kind));
        assert(strings_view(self.anonymous_types@) =~= before.anonymous_types.push(kind@));
        assert(!seq_has(before.anonymous_types, kind@));
    }

    /// Position of the operator list keyed by `rule`, or their number.
    pub fn find_operators(&self, rule: &Vec<char>) -> (r: usize)
        ensures
            r == key_pos(self@.operators, rule@),
    {
        let mut i: usize = 0;
        assert(self@.operators.subrange(0, self@.operators.len() as int) =~= self@.operators);
        while i < self.operators.len()
            invariant
                i <= self.operators@.len(),
                self@.operators.len() == self.operators@.len(),
                key_pos(self@.operators, rule@) == i + key_pos(self@.operators.subrange(i as int, self@.operators.len() as int), rule@),
            decreases self.operators@.len() - i,
        {
            let ghost rest = self@.operators.subrange(i as int, self@.operators.len() as int);
            assert(rest.drop_first() =~= self@.operators.subrange(i + 1, self@.operators.len() as int));
            let c = string_chars(&self.operators[i].rule);
            if chars_eq(&c, rule) {
                return i;
            }
            i = i + 1;
        }
        i
    }

    /// Position of the inline rule named `name`, or their number.
    pub fn find_inline(&self, name: &Vec<char>) -> (r: usize)
        ensures
            r == key_pos(self@.inline_rules, name@),
    {
        let mut i: usize = 0;
        assert(self@.inline_rules.subrange(0, self@.inline_rules.len() as int) =~= self@.inline_rules);
        while i < self.inline_rules.len()
            invariant
                i <= self.inline_rules@.len(),
                self@.inline_rules.len() == self.inline_rules@.len(),
                key_pos(self@.inline_rules, name@) == i + key_pos(self@.inline_rules.subrange(i as int, self@.inline_rules.len() as int), name@),
            decreases self.inline_rules@.len() - i,
        {
            let ghost rest = self@.inline_rules.subrange(i as int, self@.inline_rules.len() as int);
            assert(rest.drop_first() =~= self@.inline_rules.subrange(i + 1, self@.inline_rules.len() as int));
            let c = string_chars(&self.inline_rules[i].name);
            if chars_eq(&c, name) {
                return i;
            }
            i = i + 1;
        }
        i
    }

    /// The type name generated for a field or child list of `types`.
    ///
    /// One type is named after it (and recorded as anonymous unless it is a
    /// named rule); a list of tokens gets a numbered operator list; a mixed
    /// list gets an inline enum named after its types.
    pub fn base_ty_name(&mut self, types: &Vec<TypeInfo>) -> (r: String)
        requires
            old(self).wf(),
        ensures
            final(self).wf(),
            (r@, final(self)@) == base_step(old(self)@, types_view(types@)),
    {
        let ghost tv = types_view(types@);
        assert(tv.len() == types@.len());
        if types.len() == 1 {
            assert(tv[0].0 == types@[0].kind@);
            let name = self.tokens.sanitize_to_pascal(types[0].kind.as_str());
            let name_chars = string_chars(&name);
            if !self.has_named_rule(&name_chars) {
                let kind = string_chars(&types[0].kind);
                self.add_anonymous(&kind);
            }
            assert(name@ == base_step(old(self)@, tv).0);
            assert(self@ == base_step(old(self)@, tv).1);
            name
        } else {
            let mut all_tokens = true;
            let mut i: usize = 0;
            while i < types.len()
                invariant
                    i <= types@.len(),
                    tv == types_view(types@),
                    all_tokens == (forall|j: int| 0 <= j < i ==> !tv[j].1),
                decreases types@.len() - i,
            {
                assert(tv[i as int].1 == types@[i as int].named);
                if types[i].named {
                    all_tokens = false;
                }
                i = i + 1;
            }
            if all_tokens {
                let rule = self.concat_kinds_of(types);
                let pos = self.find_operators(&rule);
                proof { lemma_key_pos(self@.operators, rule@); }
                let digits = decimal_chars(pos);
                let name = concat_str("Operators_", &digits);
                if pos == self.operators.len() {
                    let ghost before = self@;
                    let ops = clone_types(types);
                    self.operators.push(OperatorList { rule: string_from_chars(&rule), index: pos, operators: ops });
                    assert(self@.operators =~= before.operators.push((rule@, tv)));
                    assert(self@ == (CodegenModel { operators: before.operators.push((rule@, tv)), ..before }));
                }
                assert(all_unnamed(tv));
                assert(name@ == base_step(old(self)@, tv).0);
                assert(self@ == base_step(old(self)@, tv).1);
                string_from_chars(&name)
            } else {
                assert(!all_unnamed(tv));
                let name = self.join_pascal(types);
                let pos = self.find_inline(&name);
                proof { lemma_key_pos(self@.inline_rules, name@); }
                if pos == self.inline_rules.len() {
                    let ghost before = self@;
                    let variants = clone_types(types);
                    self.inline_rules.push(InlineRule { name: string_from_chars(&name), variants });
                    assert(self@.inline_rules =~= before.inline_rules.push((name@, tv)));
                    assert(self@ == (CodegenModel { inline_rules: before.inline_rules.push((name@, tv)), ..before }));
                }
                string_from_chars(&name)
            }
        }
    }

    /// The kinds of `types`, concatenated.
    fn concat_kinds_of(&self, types: &Vec<TypeInfo>) -> (r: Vec<char>)
        ensures
            r@ == concat_kinds(types_view(types@)),
    {
        let mut r: Vec<char> = Vec::new();
        let mut i: usize = 0;
        while i < types.len()
            invariant
                i <= types@.len(),
                r@ == concat_kinds(types_view(types@.subrange(0, i as int))),
            decreases types@.len() - i,
        {
            let k = string_chars(&types[i].kind);
            push_chars(&mut r, &k);
            assert(types_view(types@.subrange(0, i + 1)).drop_last() =~= types_view(types@.subrange(0, i as int)));
            i = i + 1;
        }
        assert(types@.subrange(0, types@.len() as int) =~= types@);
        r
    }

    /// The Pascal names of `types`, joined by underscores.
    fn join_pascal(&self, types: &Vec<TypeInfo>) -> (r: Vec<char>)
        ensures
            r@ == pascal_join(self.tokens.entries@, types_view(types@)),
    {
        let mut r: Vec<char> = Vec::new();
        let mut i: usize = 0;
        while i < types.len()
            invariant
                i <= types@.len(),
                r@ == pascal_join(self.tokens.entries@, types_view(types@.subrange(0, i as int))),
            decreases types@.len() - i,
        {
            let p = self.tokens.sanitize_to_pascal(types[i].kind.as_str());
            let pc = string_chars(&p);
            if i > 0 {
                r.push('_');
            }
            push_chars(&mut r, &pc);
            assert(types_view(types@.subrange(0, i + 1)).drop_last() =~= types_view(types@.subrange(0, i as int)));
            i = i + 1;
        }
        assert(types@.subrange(0, types@.len() as int) =~= types@);
        r
    }
}

} // verus!
