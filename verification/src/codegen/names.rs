use vstd::prelude::*;
use crate::codegen::tables::{lookup_punctuation, lookup_rust_keyword, punctuation, rust_keyword};
use crate::text::{chars_eq, str_chars, string_chars, string_from_chars, push_chars};

verus! {

/// Extra token names supplied by the user of the generator.
///
/// They take precedence over the built-in punctuation table.
pub struct TokenTable {
    /// Pairs of (token text, identifier fragment).
    pub entries: Vec<(String, String)>,
}

/// The first fragment registered for `s` in `entries`.
pub open spec fn table_find(entries: Seq<(String, String)>, s: Seq<char>) -> Option<Seq<char>>
    decreases entries.len(),
{
    if entries.len() == 0 {
        None
    } else if entries[0].0@ == s {
        Some(entries[0].1@)
    } else {
        table_find(entries.drop_first(), s)
    }
}

/// The name of token `s`: a user entry first, then the punctuation table.
pub open spec fn token_name(entries: Seq<(String, String)>, s: Seq<char>) -> Option<Seq<char>> {
    match table_find(entries, s) {
        Some(v) => Some(v),
        None => punctuation(s),
    }
}

/// What one character becomes inside a sanitized identifier.
pub open spec fn char_piece(entries: Seq<(String, String)>, c: char) -> Seq<char> {
    if c == '_' {
        seq![c]
    } else {
        match token_name(entries, seq![c]) {
            Some(v) => v,
            None => seq![c],
        }
    }
}

/// Every character of `s` replaced by its piece.
pub open spec fn expand_chars(entries: Seq<(String, String)>, s: Seq<char>) -> Seq<char>
    decreases s.len(),
{
    if s.len() == 0 {
        Seq::empty()
    } else {
        expand_chars(entries, s.drop_last()) + char_piece(entries, s.last())
    }
}

/// `s` with every space replaced by an underscore.
pub open spec fn spaces_to_underscores(s: Seq<char>) -> Seq<char> {
    s.map_values(|c: char| if c == ' ' { '_' } else { c })
}

/// ASCII upper case of `c`; other characters are unchanged.
pub open spec fn ascii_upper(c: char) -> char {
    if 'a' <= c && c <= 'z' {
        ((c as u32) - 32) as char
    } else {
        c
    }
}

/// Pascal case of underscore-separated words: underscores are dropped and
/// the first character of every word is made ASCII upper case.
pub open spec fn pascal(s: Seq<char>) -> Seq<char>
    decreases s.len(),
{
    if s.len() == 0 {
        Seq::empty()
    } else {
        let prev = s.drop_last();
        let c = s.last();
        if c == '_' {
            pascal(prev)
        } else if prev.len() == 0 || prev.last() == '_' {
            pascal(prev).push(ascii_upper(c))
        } else {
            pascal(prev).push(c)
        }
    }
}

/// A token, a keyword, or any other node kind turned into a Rust identifier.
pub open spec fn sanitized(entries: Seq<(String, String)>, s: Seq<char>) -> Seq<char> {
    match token_name(entries, s) {
        Some(v) => v,
        None => match rust_keyword(s) {
            Some(v) => v,
            None => spaces_to_underscores(expand_chars(entries, s)),
        },
    }
}

/// Same as [`sanitized`], but the result of the last case is in Pascal case.
pub open spec fn sanitized_pascal(entries: Seq<(String, String)>, s: Seq<char>) -> Seq<char> {
    match token_name(entries, s) {
        Some(v) => v,
        None => match rust_keyword(s) {
            Some(v) => v,
            None => pascal(spaces_to_underscores(expand_chars(entries, s))),
        },
    }
}

/// ASCII upper case of `c`.
pub fn to_ascii_upper(c: char) -> (r: char)
    ensures
        r == ascii_upper(c),
{
    if 'a' <= c && c <= 'z' {
        let b: u8 = c as u8;
        (b - 32) as char
    } else {
        c
    }
}

impl TokenTable {
    /// A table without user entries.
    pub fn empty() -> (r: Self)
        ensures
            r.entries@ == Seq::<(String, String)>::empty(),
    {
        TokenTable { entries: Vec::new() }
    }

    /// Registers `name` for `token`, ahead of any earlier entry for the same token.
    pub fn insert(&mut self, token: String, name: String)
        ensures
            final(self).entries@ == seq![(token, name)] + old(self).entries@,
    {
        self.entries.insert(0, (token, name));
    }

    /// The user entry for `s`, if any.
    pub fn find(&self, s: &Vec<char>) -> (r: Option<Vec<char>>)
        ensures
            match r {
                Some(v) => table_find(self.entries@, s@) == Some(v@),
                None => table_find(self.entries@, s@) is None,
            },
    {
        let mut i: usize = 0;
        assert(self.entries@.subrange(0, self.entries@.len() as int) =~= self.entries@);
        while i < self.entries.len()
            invariant
                i <= self.entries@.len(),
                table_find(self.entries@, s@) == table_find(self.entries@.subrange(i as int, self.entries@.len() as int), s@),
            decreases self.entries@.len() - i,
        {
            let ghost rest = self.entries@.subrange(i as int, self.entries@.len() as int);
            assert(rest.drop_first() =~= self.entries@.subrange(i + 1, self.entries@.len() as int));
            let key = string_chars(&self.entries[i].0);
            if chars_eq(&key, s) {
                return Some(string_chars(&self.entries[i].1));
            }
            i = i + 1;
        }
        None
    }

    /// The name of token `s`: a user entry first, then the punctuation table.
    pub fn token(&self, s: &Vec<char>) -> (r: Option<Vec<char>>)
        ensures
            match r {
                Some(v) => token_name(self.entries@, s@) == Some(v@),
                None => token_name(self.entries@, s@) is None,
            },
    {
        match self.find(s) {
            Some(v) => Some(v),
            None => match lookup_punctuation(s) {
                Some(p) => Some(str_chars(p)),
                None => None,
            },
        }
    }

    /// Every character of `s` replaced by its piece.
    fn expand(&self, s: &Vec<char>) -> (r: Vec<char>)
        ensures
            r@ == expand_chars(self.entries@, s@),
    {
        let mut r: Vec<char> = Vec::new();
        let mut i: usize = 0;
        while i < s.len()
            invariant
                i <= s@.len(),
                r@ == expand_chars(self.entries@, s@.subrange(0, i as int)),
            decreases s@.len() - i,
        {
            let c = s[i];
            proof {
                let next = s@.subrange(0, i + 1);
                assert(next.drop_last() =~= s@.subrange(0, i as int));
                assert(next.last() == c);
            }
            if c == '_' {
                r.push(c);
                assert(seq![c] =~= seq![c]);
            } else {
                let one = vec![c];
                assert(one@ =~= seq![c]);
                match self.token(&one) {
                    Some(v) => push_chars(&mut r, &v),
                    None => r.push(c),
                }
            }
            i = i + 1;
        }
        assert(s@.subrange(0, s@.len() as int) =~= s@);
        r
    }

    /// Turns a node kind into a Rust identifier.
    pub fn sanitize(&self, string: &str) -> (r: String)
        ensures
            r@ == sanitized(self.entries@, string@),
    {
        let s = str_chars(string);
        match self.token(&s) {
            Some(v) => string_from_chars(&v),
            None => match lookup_rust_keyword(&s) {
                Some(k) => string_from_chars(&str_chars(k)),
                None => {
                    let e = self.expand(&s);
                    let u = replace_spaces(&e);
                    string_from_chars(&u)
                },
            },
        }
    }

    /// Turns a node kind into a Rust type name in Pascal case.
    pub fn sanitize_to_pascal(&self, string: &str) -> (r: String)
        ensures
            r@ == sanitized_pascal(self.entries@, string@),
    {
        let s = str_chars(string);
        match self.token(&s) {
            Some(v) => string_from_chars(&v),
            None => match lookup_rust_keyword(&s) {
                Some(k) => string_from_chars(&str_chars(k)),
                None => {
                    let e = self.expand(&s);
                    let u = replace_spaces(&e);
                    let p = to_pascal(&u);
                    string_from_chars(&p)
                },
            },
        }
    }
}

/// `s` with every space replaced by an underscore.
pub fn replace_spaces(s: &Vec<char>) -> (r: Vec<char>)
    ensures
        r@ == spaces_to_underscores(s@),
{
    let mut r: Vec<char> = Vec::new();
    let mut i: usize = 0;
    while i < s.len()
        invariant
            i <= s@.len(),
            r@ == spaces_to_underscores(s@.subrange(0, i as int)),
        decreases s@.len() - i,
    {
        let c = s[i];
        if c == ' ' {
            r.push('_');
        } else {
            r.push(c);
        }
        assert(spaces_to_underscores(s@.subrange(0, i + 1)) =~= spaces_to_underscores(s@.subrange(0, i as int)).push(
            if c == ' ' { '_' } else { c }));
        i = i + 1;
    }
    assert(s@.subrange(0, s@.len() as int) =~= s@);
    r
}

/// Pascal case of underscore-separated words.
pub fn to_pascal(s: &Vec<char>) -> (r: Vec<char>)
    ensures
        r@ == pascal(s@),
{
    let mut r: Vec<char> = Vec::new();
    let mut i: usize = 0;
    while i < s.len()
        invariant
            i <= s@.len(),
            r@ == pascal(s@.subrange(0, i as int)),
        decreases s@.len() - i,
    {
        let c = s[i];
        proof {
            let next = s@.subrange(0, i + 1);
            assert(next.drop_last() =~= s@.subrange(0, i as int));
            assert(next.last() == c);
            if i > 0 {
                assert(next.drop_last().last() == s@[i - 1]);
            }
        }
        if c == '_' {
        } else if i == 0 || s[i - 1] == '_' {
            r.push(to_ascii_upper(c));
        } else {
            r.push(c);
        }
        i = i + 1;
    }
    assert(s@.subrange(0, s@.len() as int) =~= s@);
    r
}

/// Turns a node kind into a Rust identifier, with the built-in tables only.
pub fn sanitize_string(string: &str) -> (r: String)
    ensures
        r@ == sanitized(Seq::empty(), string@),
{
    let t = TokenTable::empty();
    t.sanitize(string)
}

/// Turns a node kind into a Rust type name in Pascal case, with the built-in tables only.
pub fn sanitize_string_to_pascal(string: &str) -> (r: String)
    ensures
        r@ == sanitized_pascal(Seq::empty(), string@),
{
    let t = TokenTable::empty();
    t.sanitize_to_pascal(string)
}

} // verus!
