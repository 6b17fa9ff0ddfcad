use vstd::prelude::*;
use crate::ast::range::TsRange;
use crate::ast::errors::LexerError;
use crate::text::{str_chars, push_str, push_chars, string_chars, string_from_chars, clone_string};

verus! {

/// What the error collection reads of a node of a tree-sitter tree.
pub struct SyntaxNode {
    pub range: TsRange,
    /// Whether the node or one of its descendants is an error.
    pub has_error: bool,
    /// Whether the node was inserted by the parser in place of a missing one.
    pub is_missing: bool,
    /// The grammar's name of the node's kind.
    pub grammar_name: String,
    /// The node's text, `None` when it is not UTF-8.
    pub text: Option<String>,
    pub children: Vec<SyntaxNode>,
}

/// Abstract content of a lexer error: whether a node is missing, its
/// range, the message, and the grammar name or the affected text.
pub open spec fn lexer_view(e: LexerError) -> (bool, TsRange, Seq<char>, Seq<char>) {
    match e {
        LexerError::Missing { range, error, grammar_name } => (true, range, error@, grammar_name@),
        LexerError::Syntax { range, error, affected } => (false, range, error@, affected@),
    }
}

/// Abstract content of a list of lexer errors.
pub open spec fn lexers_view(v: Seq<LexerError>) -> Seq<(bool, TsRange, Seq<char>, Seq<char>)> {
    v.map_values(|e: LexerError| lexer_view(e))
}

/// Whether some child of `n` has an error.
pub open spec fn child_has_error(n: SyntaxNode) -> bool {
    exists|i: int| 0 <= i < n.children@.len() && (#[trigger] n.children@[i]).has_error
}

/// The texts of the children of `n`, joined by spaces.
pub open spec fn joined_texts(cs: Seq<SyntaxNode>) -> Seq<char>
    decreases cs.len(),
{
    if cs.len() == 0 {
        Seq::empty()
    } else if cs.len() == 1 {
        cs[0].text->0@
    } else {
        joined_texts(cs.drop_last()) + seq![' '] + cs.last().text->0@
    }
}

/// The error reported for an error node none of whose children has one.
pub open spec fn error_of(n: SyntaxNode) -> (bool, TsRange, Seq<char>, Seq<char>) {
    if n.is_missing {
        (true, n.range, "Syntax error: Missing '"@ + n.grammar_name@ + "'"@, n.grammar_name@)
    } else {
        let t = joined_texts(n.children@);
        (false, n.range, "Unexpected token(s): '"@ + t + "'"@, t)
    }
}

/// The errors of a tree: nothing where there is no error; the errors of
/// the children when some child has one; else the node itself.
pub open spec fn errors_of(n: SyntaxNode) -> Seq<(bool, TsRange, Seq<char>, Seq<char>)>
    decreases n, 1int, 0int,
{
    if !n.has_error {
        Seq::empty()
    } else if child_has_error(n) {
        children_errors(n, n.children@.len() as int)
    } else {
        seq![error_of(n)]
    }
}

/// The errors of the first `k` children of `n`, in order.
pub open spec fn children_errors(n: SyntaxNode, k: int) -> Seq<(bool, TsRange, Seq<char>, Seq<char>)>
    decreases n, 0int, k,
{
    if 0 < k <= n.children@.len() {
        children_errors(n, k - 1) + errors_of(n.children@[k - 1])
    } else {
        Seq::empty()
    }
}

/// Whether the texts the errors of a tree need are defined: those of the
/// children of each reported node that is not missing.
pub open spec fn texts_defined(n: SyntaxNode) -> bool
    decreases n, 1int, 0int,
{
    if !n.has_error {
        true
    } else if child_has_error(n) {
        children_texts_defined(n, n.children@.len() as int)
    } else {
        !n.is_missing ==> forall|i: int| 0 <= i < n.children@.len() ==> (#[trigger] n.children@[i]).text is Some
    }
}

/// [`texts_defined`] for the first `k` children of `n`.
pub open spec fn children_texts_defined(n: SyntaxNode, k: int) -> bool
    decreases n, 0int, k,
{
    if 0 < k <= n.children@.len() {
        children_texts_defined(n, k - 1) && texts_defined(n.children@[k - 1])
    } else {
        true
    }
}

/// `children_texts_defined` holds of every prefix when it holds of all children.
proof fn lemma_children_texts_prefix(n: SyntaxNode, k: int, j: int)
    requires
        0 <= j <= k <= n.children@.len(),
        children_texts_defined(n, k),
    ensures
        children_texts_defined(n, j),
        j < k ==> texts_defined(n.children@[j]),
    decreases k - j,
{
    if j < k {
        if j < k - 1 {
            lemma_children_texts_prefix(n, k - 1, j);
        }
    }
}

impl SyntaxNode {
    /// The texts of the children, joined by spaces.
    fn children_text(&self) -> (r: Vec<char>)
        requires
            forall|i: int| 0 <= i < self.children@.len() ==> (#[trigger] self.children@[i]).text is Some,
        ensures
            r@ == joined_texts(self.children@),
    {
        let mut r: Vec<char> = Vec::new();
        let mut i: usize = 0;
        while i < self.children.len()
            invariant
                i <= self.children@.len(),
                forall|j: int| 0 <= j < self.children@.len() ==> (#[trigger] self.children@[j]).text is Some,
                r@ == joined_texts(self.children@.subrange(0, i as int)),
            decreases self.children@.len() - i,
        {
            proof {
                let next = self.children@.subrange(0, i + 1);
                assert(next.drop_last() =~= self.children@.subrange(0, i as int));
            }
            if i > 0 {
                r.push(' ');
            }
            match &self.children[i].text {
                Some(t) => {
                    let c = string_chars(t);
                    push_chars(&mut r, &c);
                },
                None => {},
            }
            i = i + 1;
        }
        assert(self.children@.subrange(0, self.children@.len() as int) =~= self.children@);
        r
    }

    /// The error reported for this node.
    pub fn format_error(&self) -> (r: LexerError)
        requires
            !self.is_missing ==> forall|i: int| 0 <= i < self.children@.len() ==> (#[trigger] self.children@[i]).text is Some,
        ensures
            lexer_view(r) == error_of(*self),
    {
        if self.is_missing {
            let mut m = str_chars("Syntax error: Missing '");
            let g = string_chars(&self.grammar_name);
            push_chars(&mut m, &g);
            push_str(&mut m, "'");
            LexerError::Missing { range: self.range, error: string_from_chars(&m), grammar_name: clone_string(&self.grammar_name) }
        } else {
            let t = self.children_text();
            let mut m = str_chars("Unexpected token(s): '");
            push_chars(&mut m, &t);
            push_str(&mut m, "'");
            LexerError::Syntax { range: self.range, error: string_from_chars(&m), affected: string_from_chars(&t) }
        }
    }

    /// Whether some child has an error.
    fn any_child_error(&self) -> (r: bool)
        ensures
            r == child_has_error(*self),
    {
        let mut i: usize = 0;
        while i < self.children.len()
            invariant
                i <= self.children@.len(),
                forall|j: int| 0 <= j < i ==> !(#[trigger] self.children@[j]).has_error,
            decreases self.children@.len() - i,
        {
            if self.children[i].has_error {
                return true;
            }
            i = i + 1;
        }
        false
    }

    /// Appends the errors of this tree to `out`, depth first: a node with
    /// an error whose children have none is reported; otherwise its
    /// children are searched.
    pub fn get_tree_sitter_errors(&self, out: &mut Vec<LexerError>)
        requires
            texts_defined(*self),
        ensures
            lexers_view(final(out)@) == lexers_view(old(out)@) + errors_of(*self),
        decreases self,
    {
        if self.has_error {
            if self.any_child_error() {
                let ghost out0 = lexers_view(out@);
                let ghost n = *self;
                let mut i: usize = 0;
                while i < self.children.len()
                    invariant
                        n == *self,
                        i <= self.children@.len(),
                        children_texts_defined(n, n.children@.len() as int),
                        lexers_view(out@) == out0 + children_errors(n, i as int),
                    decreases self.children@.len() - i,
                {
                    proof {
                        lemma_children_texts_prefix(n, n.children@.len() as int, i as int);
                    }
                    let ghost before = lexers_view(out@);
                    self.children[i].get_tree_sitter_errors(out);
                    assert(children_errors(n, i + 1) == children_errors(n, i as int) + errors_of(n.children@[i as int]));
                    assert(lexers_view(out@) =~= out0 + children_errors(n, i + 1));
                    i = i + 1;
                }
            } else {
                let e = self.format_error();
                let ghost before = lexers_view(out@);
                out.push(e);
                assert(lexers_view(out@) =~= before + seq![error_of(*self)]);
            }
        } else {
            assert(lexers_view(out@) =~= lexers_view(out@) + Seq::<(bool, TsRange, Seq<char>, Seq<char>)>::empty());
        }
    }
}

} // verus!
