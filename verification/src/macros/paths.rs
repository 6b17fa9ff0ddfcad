use vstd::prelude::*;
use crate::text::{str_chars, push_str, string_from_chars, string_from_str};

verus! {

/// A method of a trait, as the derive macros emit it: its signature, and
/// the call that forwards to it (both as Rust source).
pub struct Method {
    pub sig: String,
    pub variant: String,
}

/// A trait the derive macros implement: its path and its methods.
pub struct TraitPath {
    pub path: String,
    pub methods: Vec<Method>,
}

/// Abstract content of a trait path: the path, then each method's
/// signature and call.
pub open spec fn trait_view(t: TraitPath) -> (Seq<char>, Seq<(Seq<char>, Seq<char>)>) {
    (t.path@, t.methods@.map_values(|m: Method| (m.sig@, m.variant@)))
}

/// The path of an item of the `ast` module of the core crate.
pub open spec fn core_ast_path(name: Seq<char>) -> Seq<char> {
    "auto_lsp::core::ast::"@ + name
}

/// The path of an item of the `build` module of the core crate.
pub open spec fn core_build_path(name: Seq<char>) -> Seq<char> {
    "auto_lsp::core::build::"@ + name
}

/// The path of an item of the `ast` module of the core crate.
pub fn core_ast(name: &str) -> (r: String)
    ensures
        r@ == core_ast_path(name@),
{
    let mut v = str_chars("auto_lsp::core::ast::");
    push_str(&mut v, name);
    string_from_chars(&v)
}

/// The path of an item of the `build` module of the core crate.
pub fn core_build(name: &str) -> (r: String)
    ensures
        r@ == core_build_path(name@),
{
    let mut v = str_chars("auto_lsp::core::build::");
    push_str(&mut v, name);
    string_from_chars(&v)
}

/// A method from its signature and call.
fn method(sig: &str, variant: &str) -> (r: Method)
    ensures
        r.sig@ == sig@,
        r.variant@ == variant@,
{
    Method { sig: string_from_str(sig), variant: string_from_str(variant) }
}

/// The paths of the items of the core crate that the derive macros name.
pub struct Paths {
    pub symbol: String,
    pub dyn_symbol: String,
    pub weak_symbol: String,
    pub symbol_data: String,
    pub pending_symbol: String,
    pub maybe_pending_symbol: String,
    pub parsers: String,
    pub add_symbol_trait: String,
    pub try_downcast_trait: String,
    pub finalize_trait: String,
    pub queryable: TraitPath,
    pub symbol_trait: TraitPath,
    pub symbol_builder_trait: TraitPath,
    pub lsp_code_lens: TraitPath,
    pub lsp_code_actions: TraitPath,
    pub lsp_document_symbols: TraitPath,
    pub lsp_completion_items: TraitPath,
    pub lsp_invoked_completion_items: TraitPath,
    pub lsp_go_to_definition: TraitPath,
    pub lsp_go_to_declaration: TraitPath,
    pub lsp_hover_info: TraitPath,
    pub lsp_inlay_hint: TraitPath,
    pub lsp_semantic_token: TraitPath,
    pub scope: TraitPath,
    pub traverse: TraitPath,
    pub parent: TraitPath,
    pub display: TraitPath,
    pub indented_display: TraitPath,
}

impl Default for Paths {
    /// The paths of the core crate, with each trait's methods.
    fn default() -> (r: Paths)
        ensures
            r.symbol@ == core_ast_path("Symbol"@),
            r.dyn_symbol@ == core_ast_path("DynSymbol"@),
            r.weak_symbol@ == core_ast_path("WeakSymbol"@),
            r.symbol_data@ == core_ast_path("SymbolData"@),
            r.pending_symbol@ == core_build_path("PendingSymbol"@),
            r.maybe_pending_symbol@ == core_build_path("MaybePendingSymbol"@),
            r.parsers@ == "auto_lsp::core::parsers::Parsers"@,
            r.add_symbol_trait@ == core_build_path("AddSymbol"@),
            r.try_downcast_trait@ == core_build_path("TryDownCast"@),
            r.finalize_trait@ == core_build_path("Finalize"@),
            trait_view(r.queryable) == (core_build_path("Queryable"@), seq![("const QUERY_NAMES: &'static [&'static str]"@, "QUERY_NAMES"@)]),
            trait_view(r.symbol_trait) == (core_ast_path("AstSymbol"@), seq![("#[inline] fn get_data(&self) -> &auto_lsp::core::ast::SymbolData"@, "get_data()"@), ("#[doc(hidden)] #[inline] fn get_mut_data(&mut self) -> &mut auto_lsp::core::ast::SymbolData"@, "get_mut_data()"@)]),
            trait_view(r.symbol_builder_trait) == (core_build_path("Buildable"@), seq![("fn new(query: &auto_lsp::tree_sitter::Query, capture: &auto_lsp::tree_sitter::QueryCapture,) -> Option<Self>"@, "new(query, capture)"@), ("fn add(&mut self, capture: &auto_lsp::tree_sitter::QueryCapture, parsers: &'static auto_lsp::core::parsers::Parsers, document: &auto_lsp::core::document::Document,) -> Result<Option<auto_lsp::core::build::PendingSymbol>, auto_lsp::core::errors::AstError>"@, "add(capture, parsers, document)"@), ("fn get_range(&self) -> std::ops::Range<usize>"@, "get_range()"@), ("fn get_query_index(&self) -> usize"@, "get_query_index()"@)]),
            trait_view(r.lsp_code_lens) == (core_ast_path("BuildCodeLenses"@), seq![("fn build_code_lenses(&self, doc: &auto_lsp::core::document::Document, acc: &mut Vec<auto_lsp::lsp_types::CodeLens>) -> auto_lsp::anyhow::Result<()>"@, "build_code_lenses(doc, acc)"@)]),
            trait_view(r.lsp_code_actions) == (core_ast_path("BuildCodeActions"@), seq![("fn build_code_actions(&self, doc: &auto_lsp::core::document::Document, acc: &mut Vec<auto_lsp::lsp_types::CodeActionOrCommand>) -> auto_lsp::anyhow::Result<()>"@, "build_code_actions(doc, acc)"@)]),
            trait_view(r.lsp_document_symbols) == (core_ast_path("BuildDocumentSymbols"@), seq![("fn build_document_symbols(&self, doc: &auto_lsp::core::document::Document, builder: &mut auto_lsp::core::document_symbols_builder::DocumentSymbolsBuilder) -> auto_lsp::anyhow::Result<()>"@, "build_document_symbols(doc, builder)"@)]),
            trait_view(r.lsp_completion_items) == (core_ast_path("BuildCompletionItems"@), seq![("fn build_completion_items(&self, doc: &auto_lsp::core::document::Document, acc: &mut Vec<auto_lsp::lsp_types::CompletionItem>) -> auto_lsp::anyhow::Result<()>"@, "build_completion_items(doc, acc)"@)]),
            trait_view(r.lsp_invoked_completion_items) == (core_ast_path("BuildTriggeredCompletionItems"@), seq![("fn build_triggered_completion_items(&self, trigger: &str, doc: &auto_lsp::core::document::Document, acc: &mut Vec<auto_lsp::lsp_types::CompletionItem>) -> auto_lsp::anyhow::Result<()>"@, "build_triggered_completion_items(trigger, doc, acc)"@)]),
            trait_view(r.lsp_go_to_definition) == (core_ast_path("GetGoToDefinition"@), seq![("fn go_to_definition(&self, doc: &auto_lsp::core::document::Document) -> auto_lsp::anyhow::Result<Option<auto_lsp::lsp_types::GotoDefinitionResponse>>"@, "go_to_definition(doc)"@)]),
            trait_view(r.lsp_go_to_declaration) == (core_ast_path("GetGoToDeclaration"@), seq![("fn go_to_declaration(&self, doc: &auto_lsp::core::document::Document) -> auto_lsp::anyhow::Result<Option<auto_lsp::lsp_types::request::GotoDeclarationResponse>>"@, "go_to_declaration(doc)"@)]),
            trait_view(r.lsp_hover_info) == (core_ast_path("GetHover"@), seq![("fn get_hover(&self, doc: &auto_lsp::core::document::Document) -> anyhow::Result<Option<auto_lsp::lsp_types::Hover>>"@, "get_hover(doc)"@)]),
            trait_view(r.lsp_inlay_hint) == (core_ast_path("BuildInlayHints"@), seq![("fn build_inlay_hints(&self, doc: &auto_lsp::core::document::Document, acc: &mut Vec<auto_lsp::lsp_types::InlayHint>) -> auto_lsp::anyhow::Result<()>"@, "build_inlay_hints(doc, acc)"@)]),
            trait_view(r.lsp_semantic_token) == (core_ast_path("BuildSemanticTokens"@), seq![("fn build_semantic_tokens(&self, doc: &auto_lsp::core::document::Document, builder: &mut auto_lsp::core::semantic_tokens_builder::SemanticTokensBuilder) -> auto_lsp::anyhow::Result<()>"@, "build_semantic_tokens(doc, builder)"@)]),
            trait_view(r.scope) == (core_ast_path("Scope"@), seq![("fn is_scope(&self) -> bool"@, "is_scope()"@)]),
            trait_view(r.traverse) == (core_ast_path("Traverse"@), seq![("fn descendant_at(&self, offset: usize) -> Option<auto_lsp::core::ast::DynSymbol>"@, "descendant_at(offset)"@), ("fn descendant_at_and_collect(&self, offset: usize, collect_fn: fn(auto_lsp::core::ast::DynSymbol) -> bool, collect: &mut Vec<auto_lsp::core::ast::DynSymbol>) -> Option<auto_lsp::core::ast::DynSymbol>"@, "descendant_at_and_collect(offset, collect_fn, collect)"@), ("fn traverse_and_collect(&self, collect_fn: fn(auto_lsp::core::ast::DynSymbol) -> bool, collect: &mut Vec<auto_lsp::core::ast::DynSymbol>)"@, "traverse_and_collect(collect_fn, collect)"@)]),
            trait_view(r.parent) == (core_build_path("Parent"@), seq![("fn inject_parent(&mut self, parent: auto_lsp::core::ast::WeakSymbol)"@, "inject_parent(parent)"@)]),
            trait_view(r.display) == ("std::fmt::Display"@, seq![("fn fmt(&self, f: &mut std::fmt::Formatter) -> std::fmt::Result"@, "fmt(f)"@)]),
            trait_view(r.indented_display) == (core_ast_path("IndentedDisplay"@), seq![("fn fmt_with_indent(&self, f: &mut std::fmt::Formatter, indent: usize) -> std::fmt::Result"@, "fmt_with_indent(f, indent)"@)]),
    {
        let mut queryable_methods: Vec<Method> = Vec::new();
        queryable_methods.push(method("const QUERY_NAMES: &'static [&'static str]", "QUERY_NAMES"));
        let queryable = TraitPath { path: core_build("Queryable"), methods: queryable_methods };
        assert(trait_view(queryable).1 =~= seq![("const QUERY_NAMES: &'static [&'static str]"@, "QUERY_NAMES"@)]);
        let mut symbol_trait_methods: Vec<Method> = Vec::new();
        symbol_trait_methods.push(method("#[inline] fn get_data(&self) -> &auto_lsp::core::ast::SymbolData", "get_data()"));
        symbol_trait_methods.push(method("#[doc(hidden)] #[inline] fn get_mut_data(&mut self) -> &mut auto_lsp::core::ast::SymbolData", "get_mut_data()"));
        let symbol_trait = TraitPath { path: core_ast("AstSymbol"), methods: symbol_trait_methods };
        assert(trait_view(symbol_trait).1 =~= seq![("#[inline] fn get_data(&self) -> &auto_lsp::core::ast::SymbolData"@, "get_data()"@), ("#[doc(hidden)] #[inline] fn get_mut_data(&mut self) -> &mut auto_lsp::core::ast::SymbolData"@, "get_mut_data()"@)]);
        let mut symbol_builder_trait_methods: Vec<Method> = Vec::new();
        symbol_builder_trait_methods.push(method("fn new(query: &auto_lsp::tree_sitter::Query, capture: &auto_lsp::tree_sitter::QueryCapture,) -> Option<Self>", "new(query, capture)"));
        symbol_builder_trait_methods.push(method("fn add(&mut self, capture: &auto_lsp::tree_sitter::QueryCapture, parsers: &'static auto_lsp::core::parsers::Parsers, document: &auto_lsp::core::document::Document,) -> Result<Option<auto_lsp::core::build::PendingSymbol>, auto_lsp::core::errors::AstError>", "add(capture, parsers, document)"));
        symbol_builder_trait_methods.push(method("fn get_range(&self) -> std::ops::Range<usize>", "get_range()"));
        symbol_builder_trait_methods.push(method("fn get_query_index(&self) -> usize", "get_query_index()"));
        let symbol_builder_trait = TraitPath { path: core_build("Buildable"), methods: symbol_builder_trait_methods };
        assert(trait_view(symbol_builder_trait).1 =~= seq![("fn new(query: &auto_lsp::tree_sitter::Query, capture: &auto_lsp::tree_sitter::QueryCapture,) -> Option<Self>"@, "new(query, capture)"@), ("fn add(&mut self, capture: &auto_lsp::tree_sitter::QueryCapture, parsers: &'static auto_lsp::core::parsers::Parsers, document: &auto_lsp::core::document::Document,) -> Result<Option<auto_lsp::core::build::PendingSymbol>, auto_lsp::core::errors::AstError>"@, "add(capture, parsers, document)"@), ("fn get_range(&self) -> std::ops::Range<usize>"@, "get_range()"@), ("fn get_query_index(&self) -> usize"@, "get_query_index()"@)]);
        let mut lsp_code_lens_methods: Vec<Method> = Vec::new();
        lsp_code_lens_methods.push(method("fn build_code_lenses(&self, doc: &auto_lsp::core::document::Document, acc: &mut Vec<auto_lsp::lsp_types::CodeLens>) -> auto_lsp::anyhow::Result<()>", "build_code_lenses(doc, acc)"));
        let lsp_code_lens = TraitPath { path: core_ast("BuildCodeLenses"), methods: lsp_code_lens_methods };
        assert(trait_view(lsp_code_lens).1 =~= seq![("fn build_code_lenses(&self, doc: &auto_lsp::core::document::Document, acc: &mut Vec<auto_lsp::lsp_types::CodeLens>) -> auto_lsp::anyhow::Result<()>"@, "build_code_lenses(doc, acc)"@)]);
        let mut lsp_code_actions_methods: Vec<Method> = Vec::new();
        lsp_code_actions_methods.push(method("fn build_code_actions(&self, doc: &auto_lsp::core::document::Document, acc: &mut Vec<auto_lsp::lsp_types::CodeActionOrCommand>) -> auto_lsp::anyhow::Result<()>", "build_code_actions(doc, acc)"));
        let lsp_code_actions = TraitPath { path: core_ast("BuildCodeActions"), methods: lsp_code_actions_methods };
        assert(trait_view(lsp_code_actions).1 =~= seq![("fn build_code_actions(&self, doc: &auto_lsp::core::document::Document, acc: &mut Vec<auto_lsp::lsp_types::CodeActionOrCommand>) -> auto_lsp::anyhow::Result<()>"@, "build_code_actions(doc, acc)"@)]);
        let mut lsp_document_symbols_methods: Vec<Method> = Vec::new();
        lsp_document_symbols_methods.push(method("fn build_document_symbols(&self, doc: &auto_lsp::core::document::Document, builder: &mut auto_lsp::core::document_symbols_builder::DocumentSymbolsBuilder) -> auto_lsp::anyhow::Result<()>", "build_document_symbols(doc, builder)"));
        let lsp_document_symbols = TraitPath { path: core_ast("BuildDocumentSymbols"), methods: lsp_document_symbols_methods };
        assert(trait_view(lsp_document_symbols).1 =~= seq![("fn build_document_symbols(&self, doc: &auto_lsp::core::document::Document, builder: &mut auto_lsp::core::document_symbols_builder::DocumentSymbolsBuilder) -> auto_lsp::anyhow::Result<()>"@, "build_document_symbols(doc, builder)"@)]);
        let mut lsp_completion_items_methods: Vec<Method> = Vec::new();
        lsp_completion_items_methods.push(method("fn build_completion_items(&self, doc: &auto_lsp::core::document::Document, acc: &mut Vec<auto_lsp::lsp_types::CompletionItem>) -> auto_lsp::anyhow::Result<()>", "build_completion_items(doc, acc)"));
        let lsp_completion_items = TraitPath { path: core_ast("BuildCompletionItems"), methods: lsp_completion_items_methods };
        assert(trait_view(lsp_completion_items).1 =~= seq![("fn build_completion_items(&self, doc: &auto_lsp::core::document::Document, acc: &mut Vec<auto_lsp::lsp_types::CompletionItem>) -> auto_lsp::anyhow::Result<()>"@, "build_completion_items(doc, acc)"@)]);
        let mut lsp_invoked_completion_items_methods: Vec<Method> = Vec::new();
        lsp_invoked_completion_items_methods.push(method("fn build_triggered_completion_items(&self, trigger: &str, doc: &auto_lsp::core::document::Document, acc: &mut Vec<auto_lsp::lsp_types::CompletionItem>) -> auto_lsp::anyhow::Result<()>", "build_triggered_completion_items(trigger, doc, acc)"));
        let lsp_invoked_completion_items = TraitPath { path: core_ast("BuildTriggeredCompletionItems"), methods: lsp_invoked_completion_items_methods };
        assert(trait_view(lsp_invoked_completion_items).1 =~= seq![("fn build_triggered_completion_items(&self, trigger: &str, doc: &auto_lsp::core::document::Document, acc: &mut Vec<auto_lsp::lsp_types::CompletionItem>) -> auto_lsp::anyhow::Result<()>"@, "build_triggered_completion_items(trigger, doc, acc)"@)]);
        let mut lsp_go_to_definition_methods: Vec<Method> = Vec::new();
        lsp_go_to_definition_methods.push(method("fn go_to_definition(&self, doc: &auto_lsp::core::document::Document) -> auto_lsp::anyhow::Result<Option<auto_lsp::lsp_types::GotoDefinitionResponse>>", "go_to_definition(doc)"));
        let lsp_go_to_definition = TraitPath { path: core_ast("GetGoToDefinition"), methods: lsp_go_to_definition_methods };
        assert(trait_view(lsp_go_to_definition).1 =~= seq![("fn go_to_definition(&self, doc: &auto_lsp::core::document::Document) -> auto_lsp::anyhow::Result<Option<auto_lsp::lsp_types::GotoDefinitionResponse>>"@, "go_to_definition(doc)"@)]);
        let mut lsp_go_to_declaration_methods: Vec<Method> = Vec::new();
        lsp_go_to_declaration_methods.push(method("fn go_to_declaration(&self, doc: &auto_lsp::core::document::Document) -> auto_lsp::anyhow::Result<Option<auto_lsp::lsp_types::request::GotoDeclarationResponse>>", "go_to_declaration(doc)"));
        let lsp_go_to_declaration = TraitPath { path: core_ast("GetGoToDeclaration"), methods: lsp_go_to_declaration_methods };
        assert(trait_view(lsp_go_to_declaration).1 =~= seq![("fn go_to_declaration(&self, doc: &auto_lsp::core::document::Document) -> auto_lsp::anyhow::Result<Option<auto_lsp::lsp_types::request::GotoDeclarationResponse>>"@, "go_to_declaration(doc)"@)]);
        let mut lsp_hover_info_methods: Vec<Method> = Vec::new();
        lsp_hover_info_methods.push(method("fn get_hover(&self, doc: &auto_lsp::core::document::Document) -> anyhow::Result<Option<auto_lsp::lsp_types::Hover>>", "get_hover(doc)"));
        let lsp_hover_info = TraitPath { path: core_ast("GetHover"), methods: lsp_hover_info_methods };
        assert(trait_view(lsp_hover_info).1 =~= seq![("fn get_hover(&self, doc: &auto_lsp::core::document::Document) -> anyhow::Result<Option<auto_lsp::lsp_types::Hover>>"@, "get_hover(doc)"@)]);
        let mut lsp_inlay_hint_methods: Vec<Method> = Vec::new();
        lsp_inlay_hint_methods.push(method("fn build_inlay_hints(&self, doc: &auto_lsp::core::document::Document, acc: &mut Vec<auto_lsp::lsp_types::InlayHint>) -> auto_lsp::anyhow::Result<()>", "build_inlay_hints(doc, acc)"));
        let lsp_inlay_hint = TraitPath { path: core_ast("BuildInlayHints"), methods: lsp_inlay_hint_methods };
        assert(trait_view(lsp_inlay_hint).1 =~= seq![("fn build_inlay_hints(&self, doc: &auto_lsp::core::document::Document, acc: &mut Vec<auto_lsp::lsp_types::InlayHint>) -> auto_lsp::anyhow::Result<()>"@, "build_inlay_hints(doc, acc)"@)]);
        let mut lsp_semantic_token_methods: Vec<Method> = Vec::new();
        lsp_semantic_token_methods.push(method("fn build_semantic_tokens(&self, doc: &auto_lsp::core::document::Document, builder: &mut auto_lsp::core::semantic_tokens_builder::SemanticTokensBuilder) -> auto_lsp::anyhow::Result<()>", "build_semantic_tokens(doc, builder)"));
        let lsp_semantic_token = TraitPath { path: core_ast("BuildSemanticTokens"), methods: lsp_semantic_token_methods };
        assert(trait_view(lsp_semantic_token).1 =~= seq![("fn build_semantic_tokens(&self, doc: &auto_lsp::core::document::Document, builder: &mut auto_lsp::core::semantic_tokens_builder::SemanticTokensBuilder) -> auto_lsp::anyhow::Result<()>"@, "build_semantic_tokens(doc, builder)"@)]);
        let mut scope_methods: Vec<Method> = Vec::new();
        scope_methods.push(method("fn is_scope(&self) -> bool", "is_scope()"));
        let scope = TraitPath { path: core_ast("Scope"), methods: scope_methods };
        assert(trait_view(scope).1 =~= seq![("fn is_scope(&self) -> bool"@, "is_scope()"@)]);
        let mut traverse_methods: Vec<Method> = Vec::new();
        traverse_methods.push(method("fn descendant_at(&self, offset: usize) -> Option<auto_lsp::core::ast::DynSymbol>", "descendant_at(offset)"));
        traverse_methods.push(method("fn descendant_at_and_collect(&self, offset: usize, collect_fn: fn(auto_lsp::core::ast::DynSymbol) -> bool, collect: &mut Vec<auto_lsp::core::ast::DynSymbol>) -> Option<auto_lsp::core::ast::DynSymbol>", "descendant_at_and_collect(offset, collect_fn, collect)"));
        traverse_methods.push(method("fn traverse_and_collect(&self, collect_fn: fn(auto_lsp::core::ast::DynSymbol) -> bool, collect: &mut Vec<auto_lsp::core::ast::DynSymbol>)", "traverse_and_collect(collect_fn, collect)"));
        let traverse = TraitPath { path: core_ast("Traverse"), methods: traverse_methods };
        assert(trait_view(traverse).1 =~= seq![("fn descendant_at(&self, offset: usize) -> Option<auto_lsp::core::ast::DynSymbol>"@, "descendant_at(offset)"@), ("fn descendant_at_and_collect(&self, offset: usize, collect_fn: fn(auto_lsp::core::ast::DynSymbol) -> bool, collect: &mut Vec<auto_lsp::core::ast::DynSymbol>) -> Option<auto_lsp::core::ast::DynSymbol>"@, "descendant_at_and_collect(offset, collect_fn, collect)"@), ("fn traverse_and_collect(&self, collect_fn: fn(auto_lsp::core::ast::DynSymbol) -> bool, collect: &mut Vec<auto_lsp::core::ast::DynSymbol>)"@, "traverse_and_collect(collect_fn, collect)"@)]);
        let mut parent_methods: Vec<Method> = Vec::new();
        parent_methods.push(method("fn inject_parent(&mut self, parent: auto_lsp::core::ast::WeakSymbol)", "inject_parent(parent)"));
        let parent = TraitPath { path: core_build("Parent"), methods: parent_methods };
        assert(trait_view(parent).1 =~= seq![("fn inject_parent(&mut self, parent: auto_lsp::core::ast::WeakSymbol)"@, "inject_parent(parent)"@)]);
        let mut display_methods: Vec<Method> = Vec::new();
        display_methods.push(method("fn fmt(&self, f: &mut std::fmt::Formatter) -> std::fmt::Result", "fmt(f)"));
        let display = TraitPath { path: string_from_str("std::fmt::Display"), methods: display_methods };
        assert(trait_view(display).1 =~= seq![("fn fmt(&self, f: &mut std::fmt::Formatter) -> std::fmt::Result"@, "fmt(f)"@)]);
        let mut indented_display_methods: Vec<Method> = Vec::new();
        indented_display_methods.push(method("fn fmt_with_indent(&self, f: &mut std::fmt::Formatter, indent: usize) -> std::fmt::Result", "fmt_with_indent(f, indent)"));
        let indented_display = TraitPath { path: core_ast("IndentedDisplay"), methods: indented_display_methods };
        assert(trait_view(indented_display).1 =~= seq![("fn fmt_with_indent(&self, f: &mut std::fmt::Formatter, indent: usize) -> std::fmt::Result"@, "fmt_with_indent(f, indent)"@)]);
        Paths {
            symbol: core_ast("Symbol"),
            dyn_symbol: core_ast("DynSymbol"),
            weak_symbol: core_ast("WeakSymbol"),
            symbol_data: core_ast("SymbolData"),
            pending_symbol: core_build("PendingSymbol"),
            maybe_pending_symbol: core_build("MaybePendingSymbol"),
            parsers: string_from_str("auto_lsp::core::parsers::Parsers"),
            add_symbol_trait: core_build("AddSymbol"),
            try_downcast_trait: core_build("TryDownCast"),
            finalize_trait: core_build("Finalize"),
            queryable,
            symbol_trait,
            symbol_builder_trait,
            lsp_code_lens,
            lsp_code_actions,
            lsp_document_symbols,
            lsp_completion_items,
            lsp_invoked_completion_items,
            lsp_go_to_definition,
            lsp_go_to_declaration,
            lsp_hover_info,
            lsp_inlay_hint,
            lsp_semantic_token,
            scope,
            traverse,
            parent,
            display,
            indented_display,
        }
    }
}

} // verus!
