use vstd::prelude::*;
use crate::codegen::names::{sanitized, sanitized_pascal, table_find, token_name, pascal, spaces_to_underscores, expand_chars};
use crate::codegen::tables::{rust_keyword, is_ascii_punctuation, is_pascal_fragment, lemma_single_punctuation_named};
use crate::codegen::names::char_piece;
use crate::codegen::node_types::NodeType;
use crate::codegen::plan::{fields_fold, struct_fields};
use crate::codegen::registry::{CodegenModel, base_step, key_pos, lemma_key_pos, seq_has, set_add};

verus! {

/// A token name given by the user wins over the built-in tables: once
/// `token` is registered as `name`, both forms of sanitizing `token` give
/// exactly `name`.
pub proof fn lemma_user_token_wins(entries: Seq<(String, String)>, token: String, name: String)
    ensures
        sanitized(seq![(token, name)] + entries, token@) == name@,
        sanitized_pascal(seq![(token, name)] + entries, token@) == name@,
{
    let e = seq![(token, name)] + entries;
    assert(e[0] == (token, name));
    assert(table_find(e, token@) == Some(name@));
    assert(token_name(e, token@) == Some(name@));
}

/// Pascal case holds no underscore.
pub proof fn lemma_pascal_has_no_underscore(s: Seq<char>)
    ensures
        forall|i: int| 0 <= i < pascal(s).len() ==> pascal(s)[i] != '_',
    decreases s.len(),
{
    if s.len() > 0 {
        lemma_pascal_has_no_underscore(s.drop_last());
        let c = s.last();
        let p = pascal(s.drop_last());
        if c != '_' {
            let up = if 'a' <= c && c <= 'z' { ((c as u32) - 32) as char } else { c };
            assert('a' <= c && c <= 'z' ==> up != '_') by {
                if 'a' <= c && c <= 'z' {
                    let x: u32 = ((c as u32) - 32) as u32;
                    assert(65 <= x <= 90);
                    assert(x as char != '_');
                }
            }
        }
    }
}

/// `key_pos` finds a key pushed at the end when no earlier entry has it.
pub proof fn lemma_key_pos_push<V>(entries: Seq<(Seq<char>, V)>, key: Seq<char>, v: V)
    requires
        key_pos(entries, key) == entries.len(),
    ensures
        key_pos(entries.push((key, v)), key) == entries.len(),
    decreases entries.len(),
{
    lemma_key_pos(entries, key);
    if entries.len() > 0 {
        let rest = entries.drop_first();
        assert(entries.push((key, v)).drop_first() =~= rest.push((key, v)));
        assert(entries[0].0 != key);
        lemma_key_pos(rest, key);
        lemma_key_pos_push(rest, key, v);
    }
}

/// Naming the type of a field or child list twice with the same types gives
/// the same name, and the second time records nothing: each anonymous
/// type, operator list and inline rule is generated once.
pub proof fn lemma_base_step_idempotent(m: CodegenModel, types: Seq<(Seq<char>, bool)>)
    ensures
        base_step(base_step(m, types).1, types) == base_step(m, types),
{
    let (n1, m1) = base_step(m, types);
    if types.len() == 1 {
        let k = types[0].0;
        if !seq_has(m.named_rules, sanitized_pascal(m.tokens, k)) {
            let v = m.anonymous_types;
            if !seq_has(v, k) {
                assert(set_add(v, k)[v.len() as int] == k);
            }
            assert(seq_has(set_add(v, k), k));
            assert(set_add(set_add(v, k), k) == set_add(v, k));
        }
    } else if forall|i: int| 0 <= i < types.len() ==> !types[i].1 {
        let rule = crate::codegen::registry::concat_kinds(types);
        lemma_key_pos(m.operators, rule);
        if key_pos(m.operators, rule) == m.operators.len() {
            lemma_key_pos_push(m.operators, rule, types);
        }
    } else {
        let name = crate::codegen::registry::pascal_join(m.tokens, types);
        lemma_key_pos(m.inline_rules, name);
        if key_pos(m.inline_rules, name) == m.inline_rules.len() {
            lemma_key_pos_push(m.inline_rules, name, types);
        }
    }
}

/// A kind that is neither a token nor a keyword becomes an identifier
/// without spaces: each space becomes an underscore.
pub proof fn lemma_sanitized_has_no_space(entries: Seq<(String, String)>, s: Seq<char>)
    requires
        token_name(entries, s) is None,
        rust_keyword(s) is None,
    ensures
        forall|i: int| 0 <= i < sanitized(entries, s).len() ==> sanitized(entries, s)[i] != ' ',
{
    let e = expand_chars(entries, s);
    assert(sanitized(entries, s) == spaces_to_underscores(e));
}

/// The plans of the named fields are one per field, in order.
pub proof fn lemma_fields_fold_len(m: CodegenModel, fs: Seq<(String, crate::codegen::node_types::FieldInfo)>)
    ensures
        fields_fold(m, fs).0.len() == fs.len(),
    decreases fs.len(),
{
    if fs.len() > 0 {
        lemma_fields_fold_len(m, fs.drop_last());
    }
}

/// A struct gets one field per named field of its node, and one more for
/// the node's children when it has some.
pub proof fn lemma_struct_field_count(m: CodegenModel, node: NodeType)
    ensures
        struct_fields(m, node).0.len() == (match node.fields {
            Some(fs) => fs@.len(),
            None => 0,
        }) + (if node.children is Some { 1int } else { 0int }),
{
    match node.fields {
        Some(fs) => lemma_fields_fold_len(m, fs@),
        None => {},
    }
}

/// Whether `c` may stand in a Rust identifier: an ASCII letter, digit or
/// underscore.
pub open spec fn is_ident_char(c: char) -> bool {
    ('A' <= c && c <= 'Z') || ('a' <= c && c <= 'z') || ('0' <= c && c <= '9') || c == '_'
}

/// Without user entries, a token that is one ASCII punctuation character
/// (the backtick aside) is sanitized, plain or in Pascal case, to a
/// Pascal-case identifier fragment: `,` gives a name, never `,` itself.
pub proof fn lemma_punctuation_token_sanitized_to_identifier(c: char)
    requires
        is_ascii_punctuation(c),
    ensures
        is_pascal_fragment(sanitized(Seq::empty(), seq![c])),
        is_pascal_fragment(sanitized_pascal(Seq::empty(), seq![c])),
{
    lemma_single_punctuation_named(c);
    assert(table_find(Seq::<(String, String)>::empty(), seq![c]) is None);
}

/// Without user entries, every character of a string made of ASCII
/// punctuation (the backtick aside) becomes identifier characters: the
/// pieces a sanitized name is built of hold no punctuation.
pub proof fn lemma_punctuation_expands_to_identifier_chars(s: Seq<char>)
    requires
        forall|i: int| 0 <= i < s.len() ==> is_ascii_punctuation(#[trigger] s[i]),
    ensures
        forall|i: int| 0 <= i < expand_chars(Seq::empty(), s).len() ==> is_ident_char(#[trigger] expand_chars(Seq::empty(), s)[i]),
    decreases s.len(),
{
    let none = Seq::<(String, String)>::empty();
    if s.len() > 0 {
        let prev = s.drop_last();
        let c = s.last();
        assert(forall|i: int| 0 <= i < prev.len() ==> prev[i] == s[i]);
        lemma_punctuation_expands_to_identifier_chars(prev);
        lemma_single_punctuation_named(c);
        assert(table_find(none, seq![c]) is None);
        let piece = char_piece(none, c);
        assert(forall|i: int| 0 <= i < piece.len() ==> is_ident_char(#[trigger] piece[i]));
        let whole = expand_chars(none, s);
        assert(whole == expand_chars(none, prev) + piece);
        assert forall|i: int| 0 <= i < whole.len() implies is_ident_char(#[trigger] whole[i]) by {
            if i < expand_chars(none, prev).len() {
                assert(whole[i] == expand_chars(none, prev)[i]);
            } else {
                assert(whole[i] == piece[i - expand_chars(none, prev).len()]);
            }
        }
    }
}

/// Sanitizing replaces each character by its piece, in order and
/// independently of the others: one character gives its piece, and two
/// strings put together give their expansions put together.
pub proof fn lemma_expand_chars_piecewise(entries: Seq<(String, String)>, a: Seq<char>, b: Seq<char>, c: char)
    ensures
        expand_chars(entries, seq![c]) == char_piece(entries, c),
        expand_chars(entries, a + b) == expand_chars(entries, a) + expand_chars(entries, b),
    decreases b.len(),
{
    let none = Seq::<char>::empty();
    assert(seq![c].drop_last() =~= none);
    assert(expand_chars(entries, none) == Seq::<char>::empty());
    assert(Seq::<char>::empty() + char_piece(entries, c) =~= char_piece(entries, c));
    if b.len() == 0 {
        assert(a + b =~= a);
        assert(expand_chars(entries, a) + Seq::<char>::empty() =~= expand_chars(entries, a));
    } else {
        lemma_expand_chars_piecewise(entries, a, b.drop_last(), c);
        assert((a + b).drop_last() =~= a + b.drop_last());
        assert((a + b).last() == b.last());
        assert(expand_chars(entries, a) + expand_chars(entries, b)
            =~= expand_chars(entries, a) + expand_chars(entries, b.drop_last()) + char_piece(entries, b.last()));
    }
}

} // verus!
