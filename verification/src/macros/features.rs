use vstd::prelude::*;
use crate::macros::paths::{Paths, TraitPath};
use crate::macros::fields::Fields;
use crate::text::{string_chars, string_from_chars, push_str, clone_string};

verus! {

/// The options of the `seq` attribute: the query name, and which LSP
/// features the user implements by hand.
pub struct DarlingInput {
    pub query: String,
    pub declaration: bool,
    pub definition: bool,
    pub hover: bool,
    pub document_symbols: bool,
    pub code_actions: bool,
    pub code_lenses: bool,
    pub completions: bool,
    pub triggered_completions: bool,
    pub inlay_hints: bool,
    pub semantic_tokens: bool,
    pub scope: bool,
}

/// A trait implementation the derive macro emits for the input type: the
/// trait's path and, unless the trait's defaults are kept, the body.
pub struct TraitImpl {
    pub path: String,
    pub body: Option<String>,
}

/// Abstract content of a list of trait implementations.
pub open spec fn impls_view(v: Seq<TraitImpl>) -> Seq<(Seq<char>, Option<Seq<char>>)> {
    v.map_values(|t: TraitImpl| (t.path@, match t.body {
        Some(b) => Some(b@),
        None => None,
    }))
}

/// Each LSP feature with whether the user implements it, and its trait.
pub open spec fn lsp_features(d: DarlingInput, p: Paths) -> Seq<(bool, Seq<char>)> {
    seq![
        (d.declaration, p.lsp_go_to_declaration.path@),
        (d.definition, p.lsp_go_to_definition.path@),
        (d.hover, p.lsp_hover_info.path@),
        (d.document_symbols, p.lsp_document_symbols.path@),
        (d.code_actions, p.lsp_code_actions.path@),
        (d.code_lenses, p.lsp_code_lens.path@),
        (d.completions, p.lsp_completion_items.path@),
        (d.triggered_completions, p.lsp_invoked_completion_items.path@),
        (d.inlay_hints, p.lsp_inlay_hint.path@),
        (d.semantic_tokens, p.lsp_semantic_token.path@),
    ]
}

/// A default implementation for every feature the user does not implement.
pub open spec fn default_impls(fs: Seq<(bool, Seq<char>)>) -> Seq<(Seq<char>, Option<Seq<char>>)>
    decreases fs.len(),
{
    if fs.len() == 0 {
        Seq::empty()
    } else {
        let prev = default_impls(fs.drop_last());
        if fs.last().0 {
            prev
        } else {
            prev.push((fs.last().1, None))
        }
    }
}

/// The scope implementation: the default one, or one whose `is_scope`
/// answers `true`.
pub open spec fn scope_impl(d: DarlingInput, p: Paths) -> (Seq<char>, Option<Seq<char>>) {
    if d.scope {
        (p.scope.path@, Some(p.scope.methods@[0].sig@ + " { true }"@))
    } else {
        (p.scope.path@, None)
    }
}

/// What the feature part of the derive macro emits for a type.
pub struct Features<'a> {
    pub paths: &'a Paths,
    pub darling_input: &'a DarlingInput,
    pub input_name: &'a String,
    pub fields: &'a Fields,
}

impl<'a> Features<'a> {
    pub fn new(paths: &'a Paths, darling_input: &'a DarlingInput, input_name: &'a String, fields: &'a Fields) -> (r: Self)
        ensures
            r.paths == paths,
            r.darling_input == darling_input,
            r.input_name == input_name,
            r.fields == fields,
    {
        Features { paths, darling_input, input_name, fields }
    }

    /// The trait implementations for the input type, in order: a default
    /// one for each LSP feature the user does not implement, then the
    /// scope implementation.
    pub fn trait_impls(&self) -> (r: Vec<TraitImpl>)
        requires
            self.paths.scope.methods@.len() > 0,
        ensures
            impls_view(r@) == default_impls(lsp_features(*self.darling_input, *self.paths))
                .push(scope_impl(*self.darling_input, *self.paths)),
    {
        let d = self.darling_input;
        let p = self.paths;
        let flags: Vec<(bool, &TraitPath)> = vec![
            (d.declaration, &p.lsp_go_to_declaration),
            (d.definition, &p.lsp_go_to_definition),
            (d.hover, &p.lsp_hover_info),
            (d.document_symbols, &p.lsp_document_symbols),
            (d.code_actions, &p.lsp_code_actions),
            (d.code_lenses, &p.lsp_code_lens),
            (d.completions, &p.lsp_completion_items),
            (d.triggered_completions, &p.lsp_invoked_completion_items),
            (d.inlay_hints, &p.lsp_inlay_hint),
            (d.semantic_tokens, &p.lsp_semantic_token),
        ];
        let ghost fs = lsp_features(*d, *p);
        assert(flags@.len() == fs.len());
        assert(forall|i: int| 0 <= i < fs.len() ==> flags@[i].0 == fs[i].0 && flags@[i].1.path@ == fs[i].1);
        let mut r: Vec<TraitImpl> = Vec::new();
        let mut i: usize = 0;
        while i < flags.len()
            invariant
                i <= flags@.len(),
                flags@.len() == fs.len(),
                forall|j: int| 0 <= j < fs.len() ==> flags@[j].0 == fs[j].0 && flags@[j].1.path@ == fs[j].1,
                impls_view(r@) == default_impls(fs.subrange(0, i as int)),
            decreases flags@.len() - i,
        {
            let ghost before = impls_view(r@);
            assert(fs.subrange(0, i + 1).drop_last() =~= fs.subrange(0, i as int));
            if !flags[i].0 {
                r.push(TraitImpl { path: clone_string(&flags[i].1.path), body: None });
                assert(impls_view(r@) =~= before.push((fs[i as int].1, None)));
            }
            i = i + 1;
        }
        assert(fs.subrange(0, fs.len() as int) =~= fs);
        let ghost before = impls_view(r@);
        if d.scope {
            let mut body = string_chars(&p.scope.methods[0].sig);
            push_str(&mut body, " { true }");
            r.push(TraitImpl { path: clone_string(&p.scope.path), body: Some(string_from_chars(&body)) });
        } else {
            r.push(TraitImpl { path: clone_string(&p.scope.path), body: None });
        }
        assert(impls_view(r@) =~= before.push(scope_impl(*d, *p)));
        r
    }
}

} // verus!
