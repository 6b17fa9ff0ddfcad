use vstd::prelude::*;
use crate::text::chars_eq_str;

verus! {

/// The characters of an optional string.
pub open spec fn str_opt_view(o: Option<&str>) -> Option<Seq<char>> {
    match o {
        Some(s) => Some(s@),
        None => None,
    }
}

/// The identifier fragment that stands for a punctuation token, if `s` is one.
pub open spec fn punctuation(s: Seq<char>) -> Option<Seq<char>> {
    if s == "{"@ {
        Some("LeftCurly"@)
    } else if s == "}"@ {
        Some("RightCurly"@)
    } else if s == "("@ {
        Some("LeftParen"@)
    } else if s == ")"@ {
        Some("RightParen"@)
    } else if s == "["@ {
        Some("LeftBracket"@)
    } else if s == "]"@ {
        Some("RightBracket"@)
    } else if s == ","@ {
        Some("Comma"@)
    } else if s == ":"@ {
        Some("Colon"@)
    } else if s == ";"@ {
        Some("Semicolon"@)
    } else if s == "."@ {
        Some("Dot"@)
    } else if s == "'"@ {
        Some("Quote"@)
    } else if s == "\""@ {
        Some("DoubleQuote"@)
    } else if s == "@"@ {
        Some("At"@)
    } else if s == "!"@ {
        Some("Bang"@)
    } else if s == "#"@ {
        Some("Hash"@)
    } else if s == "$"@ {
        Some("Dollar"@)
    } else if s == "%"@ {
        Some("Percent"@)
    } else if s == "^"@ {
        Some("Caret"@)
    } else if s == "&"@ {
        Some("Ampersand"@)
    } else if s == "*"@ {
        Some("Star"@)
    } else if s == "-"@ {
        Some("Minus"@)
    } else if s == "_"@ {
        Some("Underscore"@)
    } else if s == "+"@ {
        Some("Plus"@)
    } else if s == "="@ {
        Some("Equal"@)
    } else if s == ">"@ {
        Some("Greater"@)
    } else if s == "<"@ {
        Some("Less"@)
    } else if s == "|"@ {
        Some("Pipe"@)
    } else if s == "~"@ {
        Some("Tilde"@)
    } else if s == "/"@ {
        Some("Slash"@)
    } else if s == "\\"@ {
        Some("Backslash"@)
    } else if s == "//"@ {
        Some("SlashSlash"@)
    } else if s == "//=>"@ {
        Some("SlashSlashEqual"@)
    } else if s == "//="@ {
        Some("SlashSlashEqual"@)
    } else if s == "/="@ {
        Some("SlashEqual"@)
    } else if s == "/>"@ {
        Some("SlashGreater"@)
    } else if s == "/?"@ {
        Some("SlashQuestion"@)
    } else if s == "/??"@ {
        Some("SlashNullish"@)
    } else if s == "/*"@ {
        Some("SlashStar"@)
    } else if s == "*/"@ {
        Some("StarSlash"@)
    } else if s == "+++"@ {
        Some("PlusPlusPlus"@)
    } else if s == "!!"@ {
        Some("BangBang"@)
    } else if s == "!!="@ {
        Some("BangBangEqual"@)
    } else if s == "!!?"@ {
        Some("BangBangQuestion"@)
    } else if s == "!!??"@ {
        Some("BangBangNullish"@)
    } else if s == "!!???"@ {
        Some("BangBangNullishQuestion"@)
    } else if s == "?"@ {
        Some("Question"@)
    } else if s == "->"@ {
        Some("Arrow"@)
    } else if s == "=>"@ {
        Some("FatArrow"@)
    } else if s == "++"@ {
        Some("PlusPlus"@)
    } else if s == "--"@ {
        Some("MinusMinus"@)
    } else if s == "&&"@ {
        Some("And"@)
    } else if s == "||"@ {
        Some("Or"@)
    } else if s == "=="@ {
        Some("EqualEqual"@)
    } else if s == "!="@ {
        Some("NotEqual"@)
    } else if s == ">="@ {
        Some("GreaterEqual"@)
    } else if s == "<="@ {
        Some("LessEqual"@)
    } else if s == "==="@ {
        Some("TripleEqual"@)
    } else if s == "!=="@ {
        Some("NotTripleEqual"@)
    } else if s == "<<"@ {
        Some("ShiftLeft"@)
    } else if s == ">>"@ {
        Some("ShiftRight"@)
    } else if s == ">>>"@ {
        Some("ShiftRightUnsigned"@)
    } else if s == "+="@ {
        Some("PlusEqual"@)
    } else if s == "-="@ {
        Some("MinusEqual"@)
    } else if s == "*="@ {
        Some("StarEqual"@)
    } else if s == "%="@ {
        Some("PercentEqual"@)
    } else if s == "&="@ {
        Some("AmpersandEqual"@)
    } else if s == "|="@ {
        Some("PipeEqual"@)
    } else if s == "^="@ {
        Some("CaretEqual"@)
    } else if s == "&&="@ {
        Some("AndEqual"@)
    } else if s == "||="@ {
        Some("OrEqual"@)
    } else if s == "??="@ {
        Some("NullishEqual"@)
    } else if s == "??"@ {
        Some("Nullish"@)
    } else if s == "???"@ {
        Some("NullishQuestion"@)
    } else if s == "**"@ {
        Some("StarStar"@)
    } else if s == "**="@ {
        Some("StarStarEqual"@)
    } else if s == "<>"@ {
        Some("LessGreater"@)
    } else if s == "<=>"@ {
        Some("LessGreaterEqual"@)
    } else if s == "<!"@ {
        Some("LessBang"@)
    } else if s == "</"@ {
        Some("LessSlash"@)
    } else {
        None
    }
}

/// Whether `c` is an ASCII punctuation character other than the backtick:
/// `!` to `/`, `:` to `@`, `[` to `_`, and `{` to `~`.
pub open spec fn is_ascii_punctuation(c: char) -> bool {
    ('!' <= c && c <= '/') || (':' <= c && c <= '@') || ('[' <= c && c <= '_') || ('{' <= c && c <= '~')
}

/// Whether `s` can stand in a Rust type name: an ASCII upper-case letter,
/// then ASCII letters and digits.
pub open spec fn is_pascal_fragment(s: Seq<char>) -> bool {
    &&& s.len() > 0
    &&& 'A' <= s[0] && s[0] <= 'Z'
    &&& forall|i: int| 0 <= i < s.len() ==>
        ('A' <= #[trigger] s[i] && s[i] <= 'Z') || ('a' <= s[i] && s[i] <= 'z') || ('0' <= s[i] && s[i] <= '9')
}

/// Whether a one-character sequence equals `s`.
proof fn lemma_one_char_eq(c: char, s: Seq<char>)
    ensures
        (seq![c] == s) <==> (s.len() == 1 && s[0] == c),
{
    if s.len() == 1 && s[0] == c {
        assert(seq![c] =~= s);
    }
}

/// The punctuation table names '{' `LeftCurly`.
proof fn lemma_punctuation_entry_0()
    ensures
        punctuation(seq!['{']) == Some("LeftCurly"@),
        is_pascal_fragment("LeftCurly"@),
{
    reveal_strlit("{");
    reveal_strlit("LeftCurly");
    assert(seq!['{'] =~= "{"@);
}

/// The punctuation table names '}' `RightCurly`.
proof fn lemma_punctuation_entry_1()
    ensures
        punctuation(seq!['}']) == Some("RightCurly"@),
        is_pascal_fragment("RightCurly"@),
{
    reveal_strlit("{");
    reveal_strlit("}");
    reveal_strlit("RightCurly");
    lemma_one_char_eq('}', "{"@);
    assert(seq!['}'] =~= "}"@);
}

/// The punctuation table names '(' `LeftParen`.
proof fn lemma_punctuation_entry_2()
    ensures
        punctuation(seq!['(']) == Some("LeftParen"@),
        is_pascal_fragment("LeftParen"@),
{
    reveal_strlit("{");
    reveal_strlit("}");
    reveal_strlit("(");
    reveal_strlit("LeftParen");
    lemma_one_char_eq('(', "{"@);
    lemma_one_char_eq('(', "}"@);
    assert(seq!['('] =~= "("@);
}

/// The punctuation table names ')' `RightParen`.
proof fn lemma_punctuation_entry_3()
    ensures
        punctuation(seq![')']) == Some("RightParen"@),
        is_pascal_fragment("RightParen"@),
{
    reveal_strlit("{");
    reveal_strlit("}");
    reveal_strlit("(");
    reveal_strlit(")");
    reveal_strlit("RightParen");
    lemma_one_char_eq(')', "{"@);
    lemma_one_char_eq(')', "}"@);
    lemma_one_char_eq(')', "("@);
    assert(seq![')'] =~= ")"@);
}

/// The punctuation table names '[' `LeftBracket`.
proof fn lemma_punctuation_entry_4()
    ensures
        punctuation(seq!['[']) == Some("LeftBracket"@),
        is_pascal_fragment("LeftBracket"@),
{
    reveal_strlit("{");
    reveal_strlit("}");
    reveal_strlit("(");
    reveal_strlit(")");
    reveal_strlit("[");
    reveal_strlit("LeftBracket");
    lemma_one_char_eq('[', "{"@);
    lemma_one_char_eq('[', "}"@);
    lemma_one_char_eq('[', "("@);
    lemma_one_char_eq('[', ")"@);
    assert(seq!['['] =~= "["@);
}

/// The punctuation table names ']' `RightBracket`.
proof fn lemma_punctuation_entry_5()
    ensures
        punctuation(seq![']']) == Some("RightBracket"@),
        is_pascal_fragment("RightBracket"@),
{
    reveal_strlit("{");
    reveal_strlit("}");
    reveal_strlit("(");
    reveal_strlit(")");
    reveal_strlit("[");
    reveal_strlit("]");
    reveal_strlit("RightBracket");
    lemma_one_char_eq(']', "{"@);
    lemma_one_char_eq(']', "}"@);
    lemma_one_char_eq(']', "("@);
    lemma_one_char_eq(']', ")"@);
    lemma_one_char_eq(']', "["@);
    assert(seq![']'] =~= "]"@);
}

/// The punctuation table names ',' `Comma`.
proof fn lemma_punctuation_entry_6()
    ensures
        punctuation(seq![',']) == Some("Comma"@),
        is_pascal_fragment("Comma"@),
{
    reveal_strlit("{");
    reveal_strlit("}");
    reveal_strlit("(");
    reveal_strlit(")");
    reveal_strlit("[");
    reveal_strlit("]");
    reveal_strlit(",");
    reveal_strlit("Comma");
    lemma_one_char_eq(',', "{"@);
    lemma_one_char_eq(',', "}"@);
    lemma_one_char_eq(',', "("@);
    lemma_one_char_eq(',', ")"@);
    lemma_one_char_eq(',', "["@);
    lemma_one_char_eq(',', "]"@);
    assert(seq![','] =~= ","@);
}

/// The punctuation table names ':' `Colon`.
proof fn lemma_punctuation_entry_7()
    ensures
        punctuation(seq![':']) == Some("Colon"@),
        is_pascal_fragment("Colon"@),
{
    reveal_strlit("{");
    reveal_strlit("}");
    reveal_strlit("(");
    reveal_strlit(")");
    reveal_strlit("[");
    reveal_strlit("]");
    reveal_strlit(",");
    reveal_strlit(":");
    reveal_strlit("Colon");
    lemma_one_char_eq(':', "{"@);
    lemma_one_char_eq(':', "}"@);
    lemma_one_char_eq(':', "("@);
    lemma_one_char_eq(':', ")"@);
    lemma_one_char_eq(':', "["@);
    lemma_one_char_eq(':', "]"@);
    lemma_one_char_eq(':', ","@);
    assert(seq![':'] =~= ":"@);
}

/// The punctuation table names ';' `Semicolon`.
proof fn lemma_punctuation_entry_8()
    ensures
        punctuation(seq![';']) == Some("Semicolon"@),
        is_pascal_fragment("Semicolon"@),
{
    reveal_strlit("{");
    reveal_strlit("}");
    reveal_strlit("(");
    reveal_strlit(")");
    reveal_strlit("[");
    reveal_strlit("]");
    reveal_strlit(",");
    reveal_strlit(":");
    reveal_strlit(";");
    reveal_strlit("Semicolon");
    lemma_one_char_eq(';', "{"@);
    lemma_one_char_eq(';', "}"@);
    lemma_one_char_eq(';', "("@);
    lemma_one_char_eq(';', ")"@);
    lemma_one_char_eq(';', "["@);
    lemma_one_char_eq(';', "]"@);
    lemma_one_char_eq(';', ","@);
    lemma_one_char_eq(';', ":"@);
    assert(seq![';'] =~= ";"@);
}

/// The punctuation table names '.' `Dot`.
proof fn lemma_punctuation_entry_9()
    ensures
        punctuation(seq!['.']) == Some("Dot"@),
        is_pascal_fragment("Dot"@),
{
    reveal_strlit("{");
    reveal_strlit("}");
    reveal_strlit("(");
    reveal_strlit(")");
    reveal_strlit("[");
    reveal_strlit("]");
    reveal_strlit(",");
    reveal_strlit(":");
    reveal_strlit(";");
    reveal_strlit(".");
    reveal_strlit("Dot");
    lemma_one_char_eq('.', "{"@);
    lemma_one_char_eq('.', "}"@);
    lemma_one_char_eq('.', "("@);
    lemma_one_char_eq('.', ")"@);
    lemma_one_char_eq('.', "["@);
    lemma_one_char_eq('.', "]"@);
    lemma_one_char_eq('.', ","@);
    lemma_one_char_eq('.', ":"@);
    lemma_one_char_eq('.', ";"@);
    assert(seq!['.'] =~= "."@);
}

/// The punctuation table names '\'' `Quote`.
proof fn lemma_punctuation_entry_10()
    ensures
        punctuation(seq!['\'']) == Some("Quote"@),
        is_pascal_fragment("Quote"@),
{
    reveal_strlit("{");
    reveal_strlit("}");
    reveal_strlit("(");
    reveal_strlit(")");
    reveal_strlit("[");
    reveal_strlit("]");
    reveal_strlit(",");
    reveal_strlit(":");
    reveal_strlit(";");
    reveal_strlit(".");
    reveal_strlit("'");
    reveal_strlit("Quote");
    lemma_one_char_eq('\'', "{"@);
    lemma_one_char_eq('\'', "}"@);
    lemma_one_char_eq('\'', "("@);
    lemma_one_char_eq('\'', ")"@);
    lemma_one_char_eq('\'', "["@);
    lemma_one_char_eq('\'', "]"@);
    lemma_one_char_eq('\'', ","@);
    lemma_one_char_eq('\'', ":"@);
    lemma_one_char_eq('\'', ";"@);
    lemma_one_char_eq('\'', "."@);
    assert(seq!['\''] =~= "'"@);
}

/// The punctuation table names '"' `DoubleQuote`.
proof fn lemma_punctuation_entry_11()
    ensures
        punctuation(seq!['"']) == Some("DoubleQuote"@),
        is_pascal_fragment("DoubleQuote"@),
{
    reveal_strlit("{");
    reveal_strlit("}");
    reveal_strlit("(");
    reveal_strlit(")");
    reveal_strlit("[");
    reveal_strlit("]");
    reveal_strlit(",");
    reveal_strlit(":");
    reveal_strlit(";");
    reveal_strlit(".");
    reveal_strlit("'");
    reveal_strlit("\"");
    reveal_strlit("DoubleQuote");
    lemma_one_char_eq('"', "{"@);
    lemma_one_char_eq('"', "}"@);
    lemma_one_char_eq('"', "("@);
    lemma_one_char_eq('"', ")"@);
    lemma_one_char_eq('"', "["@);
    lemma_one_char_eq('"', "]"@);
    lemma_one_char_eq('"', ","@);
    lemma_one_char_eq('"', ":"@);
    lemma_one_char_eq('"', ";"@);
    lemma_one_char_eq('"', "."@);
    lemma_one_char_eq('"', "'"@);
    assert(seq!['"'] =~= "\""@);
}

/// The punctuation table names '@' `At`.
proof fn lemma_punctuation_entry_12()
    ensures
        punctuation(seq!['@']) == Some("At"@),
        is_pascal_fragment("At"@),
{
    reveal_strlit("{");
    reveal_strlit("}");
    reveal_strlit("(");
    reveal_strlit(")");
    reveal_strlit("[");
    reveal_strlit("]");
    reveal_strlit(",");
    reveal_strlit(":");
    reveal_strlit(";");
    reveal_strlit(".");
    reveal_strlit("'");
    reveal_strlit("\"");
    reveal_strlit("@");
    reveal_strlit("At");
    lemma_one_char_eq('@', "{"@);
    lemma_one_char_eq('@', "}"@);
    lemma_one_char_eq('@', "("@);
    lemma_one_char_eq('@', ")"@);
    lemma_one_char_eq('@', "["@);
    lemma_one_char_eq('@', "]"@);
    lemma_one_char_eq('@', ","@);
    lemma_one_char_eq('@', ":"@);
    lemma_one_char_eq('@', ";"@);
    lemma_one_char_eq('@', "."@);
    lemma_one_char_eq('@', "'"@);
    lemma_one_char_eq('@', "\""@);
    assert(seq!['@'] =~= "@"@);
}

/// The punctuation table names '!' `Bang`.
proof fn lemma_punctuation_entry_13()
    ensures
        punctuation(seq!['!']) == Some("Bang"@),
        is_pascal_fragment("Bang"@),
{
    reveal_strlit("{");
    reveal_strlit("}");
    reveal_strlit("(");
    reveal_strlit(")");
    reveal_strlit("[");
    reveal_strlit("]");
    reveal_strlit(",");
    reveal_strlit(":");
    reveal_strlit(";");
    reveal_strlit(".");
    reveal_strlit("'");
    reveal_strlit("\"");
    reveal_strlit("@");
    reveal_strlit("!");
    reveal_strlit("Bang");
    lemma_one_char_eq('!', "{"@);
    lemma_one_char_eq('!', "}"@);
    lemma_one_char_eq('!', "("@);
    lemma_one_char_eq('!', ")"@);
    lemma_one_char_eq('!', "["@);
    lemma_one_char_eq('!', "]"@);
    lemma_one_char_eq('!', ","@);
    lemma_one_char_eq('!', ":"@);
    lemma_one_char_eq('!', ";"@);
    lemma_one_char_eq('!', "."@);
    lemma_one_char_eq('!', "'"@);
    lemma_one_char_eq('!', "\""@);
    lemma_one_char_eq('!', "@"@);
    assert(seq!['!'] =~= "!"@);
}

/// The punctuation table names '#' `Hash`.
proof fn lemma_punctuation_entry_14()
    ensures
        punctuation(seq!['#']) == Some("Hash"@),
        is_pascal_fragment("Hash"@),
{
    reveal_strlit("{");
    reveal_strlit("}");
    reveal_strlit("(");
    reveal_strlit(")");
    reveal_strlit("[");
    reveal_strlit("]");
    reveal_strlit(",");
    reveal_strlit(":");
    reveal_strlit(";");
    reveal_strlit(".");
    reveal_strlit("'");
    reveal_strlit("\"");
    reveal_strlit("@");
    reveal_strlit("!");
    reveal_strlit("#");
    reveal_strlit("Hash");
    lemma_one_char_eq('#', "{"@);
    lemma_one_char_eq('#', "}"@);
    lemma_one_char_eq('#', "("@);
    lemma_one_char_eq('#', ")"@);
    lemma_one_char_eq('#', "["@);
    lemma_one_char_eq('#', "]"@);
    lemma_one_char_eq('#', ","@);
    lemma_one_char_eq('#', ":"@);
    lemma_one_char_eq('#', ";"@);
    lemma_one_char_eq('#', "."@);
    lemma_one_char_eq('#', "'"@);
    lemma_one_char_eq('#', "\""@);
    lemma_one_char_eq('#', "@"@);
    lemma_one_char_eq('#', "!"@);
    assert(seq!['#'] =~= "#"@);
}

/// The punctuation table names '$' `Dollar`.
proof fn lemma_punctuation_entry_15()
    ensures
        punctuation(seq!['$']) == Some("Dollar"@),
        is_pascal_fragment("Dollar"@),
{
    reveal_strlit("{");
    reveal_strlit("}");
    reveal_strlit("(");
    reveal_strlit(")");
    reveal_strlit("[");
    reveal_strlit("]");
    reveal_strlit(",");
    reveal_strlit(":");
    reveal_strlit(";");
    reveal_strlit(".");
    reveal_strlit("'");
    reveal_strlit("\"");
    reveal_strlit("@");
    reveal_strlit("!");
    reveal_strlit("#");
    reveal_strlit("$");
    reveal_strlit("Dollar");
    lemma_one_char_eq('$', "{"@);
    lemma_one_char_eq('$', "}"@);
    lemma_one_char_eq('$', "("@);
    lemma_one_char_eq('$', ")"@);
    lemma_one_char_eq('$', "["@);
    lemma_one_char_eq('$', "]"@);
    lemma_one_char_eq('$', ","@);
    lemma_one_char_eq('$', ":"@);
    lemma_one_char_eq('$', ";"@);
    lemma_one_char_eq('$', "."@);
    lemma_one_char_eq('$', "'"@);
    lemma_one_char_eq('$', "\""@);
    lemma_one_char_eq('$', "@"@);
    lemma_one_char_eq('$', "!"@);
    lemma_one_char_eq('$', "#"@);
    assert(seq!['$'] =~= "$"@);
}

/// The punctuation table names '%' `Percent`.
proof fn lemma_punctuation_entry_16()
    ensures
        punctuation(seq!['%']) == Some("Percent"@),
        is_pascal_fragment("Percent"@),
{
    reveal_strlit("{");
    reveal_strlit("}");
    reveal_strlit("(");
    reveal_strlit(")");
    reveal_strlit("[");
    reveal_strlit("]");
    reveal_strlit(",");
    reveal_strlit(":");
    reveal_strlit(";");
    reveal_strlit(".");
    reveal_strlit("'");
    reveal_strlit("\"");
    reveal_strlit("@");
    reveal_strlit("!");
    reveal_strlit("#");
    reveal_strlit("$");
    reveal_strlit("%");
    reveal_strlit("Percent");
    lemma_one_char_eq('%', "{"@);
    lemma_one_char_eq('%', "}"@);
    lemma_one_char_eq('%', "("@);
    lemma_one_char_eq('%', ")"@);
    lemma_one_char_eq('%', "["@);
    lemma_one_char_eq('%', "]"@);
    lemma_one_char_eq('%', ","@);
    lemma_one_char_eq('%', ":"@);
    lemma_one_char_eq('%', ";"@);
    lemma_one_char_eq('%', "."@);
    lemma_one_char_eq('%', "'"@);
    lemma_one_char_eq('%', "\""@);
    lemma_one_char_eq('%', "@"@);
    lemma_one_char_eq('%', "!"@);
    lemma_one_char_eq('%', "#"@);
    lemma_one_char_eq('%', "$"@);
    assert(seq!['%'] =~= "%"@);
}

/// The punctuation table names '^' `Caret`.
proof fn lemma_punctuation_entry_17()
    ensures
        punctuation(seq!['^']) == Some("Caret"@),
        is_pascal_fragment("Caret"@),
{
    reveal_strlit("{");
    reveal_strlit("}");
    reveal_strlit("(");
    reveal_strlit(")");
    reveal_strlit("[");
    reveal_strlit("]");
    reveal_strlit(",");
    reveal_strlit(":");
    reveal_strlit(";");
    reveal_strlit(".");
    reveal_strlit("'");
    reveal_strlit("\"");
    reveal_strlit("@");
    reveal_strlit("!");
    reveal_strlit("#");
    reveal_strlit("$");
    reveal_strlit("%");
    reveal_strlit("^");
    reveal_strlit("Caret");
    lemma_one_char_eq('^', "{"@);
    lemma_one_char_eq('^', "}"@);
    lemma_one_char_eq('^', "("@);
    lemma_one_char_eq('^', ")"@);
    lemma_one_char_eq('^', "["@);
    lemma_one_char_eq('^', "]"@);
    lemma_one_char_eq('^', ","@);
    lemma_one_char_eq('^', ":"@);
    lemma_one_char_eq('^', ";"@);
    lemma_one_char_eq('^', "."@);
    lemma_one_char_eq('^', "'"@);
    lemma_one_char_eq('^', "\""@);
    lemma_one_char_eq('^', "@"@);
    lemma_one_char_eq('^', "!"@);
    lemma_one_char_eq('^', "#"@);
    lemma_one_char_eq('^', "$"@);
    lemma_one_char_eq('^', "%"@);
    assert(seq!['^'] =~= "^"@);
}

/// The punctuation table names '&' `Ampersand`.
proof fn lemma_punctuation_entry_18()
    ensures
        punctuation(seq!['&']) == Some("Ampersand"@),
        is_pascal_fragment("Ampersand"@),
{
    reveal_strlit("{");
    reveal_strlit("}");
    reveal_strlit("(");
    reveal_strlit(")");
    reveal_strlit("[");
    reveal_strlit("]");
    reveal_strlit(",");
    reveal_strlit(":");
    reveal_strlit(";");
    reveal_strlit(".");
    reveal_strlit("'");
    reveal_strlit("\"");
    reveal_strlit("@");
    reveal_strlit("!");
    reveal_strlit("#");
    reveal_strlit("$");
    reveal_strlit("%");
    reveal_strlit("^");
    reveal_strlit("&");
    reveal_strlit("Ampersand");
    lemma_one_char_eq('&', "{"@);
    lemma_one_char_eq('&', "}"@);
    lemma_one_char_eq('&', "("@);
    lemma_one_char_eq('&', ")"@);
    lemma_one_char_eq('&', "["@);
    lemma_one_char_eq('&', "]"@);
    lemma_one_char_eq('&', ","@);
    lemma_one_char_eq('&', ":"@);
    lemma_one_char_eq('&', ";"@);
    lemma_one_char_eq('&', "."@);
    lemma_one_char_eq('&', "'"@);
    lemma_one_char_eq('&', "\""@);
    lemma_one_char_eq('&', "@"@);
    lemma_one_char_eq('&', "!"@);
    lemma_one_char_eq('&', "#"@);
    lemma_one_char_eq('&', "$"@);
    lemma_one_char_eq('&', "%"@);
    lemma_one_char_eq('&', "^"@);
    assert(seq!['&'] =~= "&"@);
}

/// The punctuation table names '*' `Star`.
proof fn lemma_punctuation_entry_19()
    ensures
        punctuation(seq!['*']) == Some("Star"@),
        is_pascal_fragment("Star"@),
{
    reveal_strlit("{");
    reveal_strlit("}");
    reveal_strlit("(");
    reveal_strlit(")");
    reveal_strlit("[");
    reveal_strlit("]");
    reveal_strlit(",");
    reveal_strlit(":");
    reveal_strlit(";");
    reveal_strlit(".");
    reveal_strlit("'");
    reveal_strlit("\"");
    reveal_strlit("@");
    reveal_strlit("!");
    reveal_strlit("#");
    reveal_strlit("$");
    reveal_strlit("%");
    reveal_strlit("^");
    reveal_strlit("&");
    reveal_strlit("*");
    reveal_strlit("Star");
    lemma_one_char_eq('*', "{"@);
    lemma_one_char_eq('*', "}"@);
    lemma_one_char_eq('*', "("@);
    lemma_one_char_eq('*', ")"@);
    lemma_one_char_eq('*', "["@);
    lemma_one_char_eq('*', "]"@);
    lemma_one_char_eq('*', ","@);
    lemma_one_char_eq('*', ":"@);
    lemma_one_char_eq('*', ";"@);
    lemma_one_char_eq('*', "."@);
    lemma_one_char_eq('*', "'"@);
    lemma_one_char_eq('*', "\""@);
    lemma_one_char_eq('*', "@"@);
    lemma_one_char_eq('*', "!"@);
    lemma_one_char_eq('*', "#"@);
    lemma_one_char_eq('*', "$"@);
    lemma_one_char_eq('*', "%"@);
    lemma_one_char_eq('*', "^"@);
    lemma_one_char_eq('*', "&"@);
    assert(seq!['*'] =~= "*"@);
}

/// The punctuation table names '-' `Minus`.
proof fn lemma_punctuation_entry_20()
    ensures
        punctuation(seq!['-']) == Some("Minus"@),
        is_pascal_fragment("Minus"@),
{
    reveal_strlit("{");
    reveal_strlit("}");
    reveal_strlit("(");
    reveal_strlit(")");
    reveal_strlit("[");
    reveal_strlit("]");
    reveal_strlit(",");
    reveal_strlit(":");
    reveal_strlit(";");
    reveal_strlit(".");
    reveal_strlit("'");
    reveal_strlit("\"");
    reveal_strlit("@");
    reveal_strlit("!");
    reveal_strlit("#");
    reveal_strlit("$");
    reveal_strlit("%");
    reveal_strlit("^");
    reveal_strlit("&");
    reveal_strlit("*");
    reveal_strlit("-");
    reveal_strlit("Minus");
    lemma_one_char_eq('-', "{"@);
    lemma_one_char_eq('-', "}"@);
    lemma_one_char_eq('-', "("@);
    lemma_one_char_eq('-', ")"@);
    lemma_one_char_eq('-', "["@);
    lemma_one_char_eq('-', "]"@);
    lemma_one_char_eq('-', ","@);
    lemma_one_char_eq('-', ":"@);
    lemma_one_char_eq('-', ";"@);
    lemma_one_char_eq('-', "."@);
    lemma_one_char_eq('-', "'"@);
    lemma_one_char_eq('-', "\""@);
    lemma_one_char_eq('-', "@"@);
    lemma_one_char_eq('-', "!"@);
    lemma_one_char_eq('-', "#"@);
    lemma_one_char_eq('-', "$"@);
    lemma_one_char_eq('-', "%"@);
    lemma_one_char_eq('-', "^"@);
    lemma_one_char_eq('-', "&"@);
    lemma_one_char_eq('-', "*"@);
    assert(seq!['-'] =~= "-"@);
}

/// The punctuation table names '_' `Underscore`.
proof fn lemma_punctuation_entry_21()
    ensures
        punctuation(seq!['_']) == Some("Underscore"@),
        is_pascal_fragment("Underscore"@),
{
    reveal_strlit("{");
    reveal_strlit("}");
    reveal_strlit("(");
    reveal_strlit(")");
    reveal_strlit("[");
    reveal_strlit("]");
    reveal_strlit(",");
    reveal_strlit(":");
    reveal_strlit(";");
    reveal_strlit(".");
    reveal_strlit("'");
    reveal_strlit("\"");
    reveal_strlit("@");
    reveal_strlit("!");
    reveal_strlit("#");
    reveal_strlit("$");
    reveal_strlit("%");
    reveal_strlit("^");
    reveal_strlit("&");
    reveal_strlit("*");
    reveal_strlit("-");
    reveal_strlit("_");
    reveal_strlit("Underscore");
    lemma_one_char_eq('_', "{"@);
    lemma_one_char_eq('_', "}"@);
    lemma_one_char_eq('_', "("@);
    lemma_one_char_eq('_', ")"@);
    lemma_one_char_eq('_', "["@);
    lemma_one_char_eq('_', "]"@);
    lemma_one_char_eq('_', ","@);
    lemma_one_char_eq('_', ":"@);
    lemma_one_char_eq('_', ";"@);
    lemma_one_char_eq('_', "."@);
    lemma_one_char_eq('_', "'"@);
    lemma_one_char_eq('_', "\""@);
    lemma_one_char_eq('_', "@"@);
    lemma_one_char_eq('_', "!"@);
    lemma_one_char_eq('_', "#"@);
    lemma_one_char_eq('_', "$"@);
    lemma_one_char_eq('_', "%"@);
    lemma_one_char_eq('_', "^"@);
    lemma_one_char_eq('_', "&"@);
    lemma_one_char_eq('_', "*"@);
    lemma_one_char_eq('_', "-"@);
    assert(seq!['_'] =~= "_"@);
}

/// The punctuation table names '+' `Plus`.
proof fn lemma_punctuation_entry_22()
    ensures
        punctuation(seq!['+']) == Some("Plus"@),
        is_pascal_fragment("Plus"@),
{
    reveal_strlit("{");
    reveal_strlit("}");
    reveal_strlit("(");
    reveal_strlit(")");
    reveal_strlit("[");
    reveal_strlit("]");
    reveal_strlit(",");
    reveal_strlit(":");
    reveal_strlit(";");
    reveal_strlit(".");
    reveal_strlit("'");
    reveal_strlit("\"");
    reveal_strlit("@");
    reveal_strlit("!");
    reveal_strlit("#");
    reveal_strlit("$");
    reveal_strlit("%");
    reveal_strlit("^");
    reveal_strlit("&");
    reveal_strlit("*");
    reveal_strlit("-");
    reveal_strlit("_");
    reveal_strlit("+");
    reveal_strlit("Plus");
    lemma_one_char_eq('+', "{"@);
    lemma_one_char_eq('+', "}"@);
    lemma_one_char_eq('+', "("@);
    lemma_one_char_eq('+', ")"@);
    lemma_one_char_eq('+', "["@);
    lemma_one_char_eq('+', "]"@);
    lemma_one_char_eq('+', ","@);
    lemma_one_char_eq('+', ":"@);
    lemma_one_char_eq('+', ";"@);
    lemma_one_char_eq('+', "."@);
    lemma_one_char_eq('+', "'"@);
    lemma_one_char_eq('+', "\""@);
    lemma_one_char_eq('+', "@"@);
    lemma_one_char_eq('+', "!"@);
    lemma_one_char_eq('+', "#"@);
    lemma_one_char_eq('+', "$"@);
    lemma_one_char_eq('+', "%"@);
    lemma_one_char_eq('+', "^"@);
    lemma_one_char_eq('+', "&"@);
    lemma_one_char_eq('+', "*"@);
    lemma_one_char_eq('+', "-"@);
    lemma_one_char_eq('+', "_"@);
    assert(seq!['+'] =~= "+"@);
}

/// The punctuation table names '=' `Equal`.
proof fn lemma_punctuation_entry_23()
    ensures
        punctuation(seq!['=']) == Some("Equal"@),
        is_pascal_fragment("Equal"@),
{
    reveal_strlit("{");
    reveal_strlit("}");
    reveal_strlit("(");
    reveal_strlit(")");
    reveal_strlit("[");
    reveal_strlit("]");
    reveal_strlit(",");
    reveal_strlit(":");
    reveal_strlit(";");
    reveal_strlit(".");
    reveal_strlit("'");
    reveal_strlit("\"");
    reveal_strlit("@");
    reveal_strlit("!");
    reveal_strlit("#");
    reveal_strlit("$");
    reveal_strlit("%");
    reveal_strlit("^");
    reveal_strlit("&");
    reveal_strlit("*");
    reveal_strlit("-");
    reveal_strlit("_");
    reveal_strlit("+");
    reveal_strlit("=");
    reveal_strlit("Equal");
    lemma_one_char_eq('=', "{"@);
    lemma_one_char_eq('=', "}"@);
    lemma_one_char_eq('=', "("@);
    lemma_one_char_eq('=', ")"@);
    lemma_one_char_eq('=', "["@);
    lemma_one_char_eq('=', "]"@);
    lemma_one_char_eq('=', ","@);
    lemma_one_char_eq('=', ":"@);
    lemma_one_char_eq('=', ";"@);
    lemma_one_char_eq('=', "."@);
    lemma_one_char_eq('=', "'"@);
    lemma_one_char_eq('=', "\""@);
    lemma_one_char_eq('=', "@"@);
    lemma_one_char_eq('=', "!"@);
    lemma_one_char_eq('=', "#"@);
    lemma_one_char_eq('=', "$"@);
    lemma_one_char_eq('=', "%"@);
    lemma_one_char_eq('=', "^"@);
    lemma_one_char_eq('=', "&"@);
    lemma_one_char_eq('=', "*"@);
    lemma_one_char_eq('=', "-"@);
    lemma_one_char_eq('=', "_"@);
    lemma_one_char_eq('=', "+"@);
    assert(seq!['='] =~= "="@);
}

/// The punctuation table names '>' `Greater`.
proof fn lemma_punctuation_entry_24()
    ensures
        punctuation(seq!['>']) == Some("Greater"@),
        is_pascal_fragment("Greater"@),
{
    reveal_strlit("{");
    reveal_strlit("}");
    reveal_strlit("(");
    reveal_strlit(")");
    reveal_strlit("[");
    reveal_strlit("]");
    reveal_strlit(",");
    reveal_strlit(":");
    reveal_strlit(";");
    reveal_strlit(".");
    reveal_strlit("'");
    reveal_strlit("\"");
    reveal_strlit("@");
    reveal_strlit("!");
    reveal_strlit("#");
    reveal_strlit("$");
    reveal_strlit("%");
    reveal_strlit("^");
    reveal_strlit("&");
    reveal_strlit("*");
    reveal_strlit("-");
    reveal_strlit("_");
    reveal_strlit("+");
    reveal_strlit("=");
    reveal_strlit(">");
    reveal_strlit("Greater");
    lemma_one_char_eq('>', "{"@);
    lemma_one_char_eq('>', "}"@);
    lemma_one_char_eq('>', "("@);
    lemma_one_char_eq('>', ")"@);
    lemma_one_char_eq('>', "["@);
    lemma_one_char_eq('>', "]"@);
    lemma_one_char_eq('>', ","@);
    lemma_one_char_eq('>', ":"@);
    lemma_one_char_eq('>', ";"@);
    lemma_one_char_eq('>', "."@);
    lemma_one_char_eq('>', "'"@);
    lemma_one_char_eq('>', "\""@);
    lemma_one_char_eq('>', "@"@);
    lemma_one_char_eq('>', "!"@);
    lemma_one_char_eq('>', "#"@);
    lemma_one_char_eq('>', "$"@);
    lemma_one_char_eq('>', "%"@);
    lemma_one_char_eq('>', "^"@);
    lemma_one_char_eq('>', "&"@);
    lemma_one_char_eq('>', "*"@);
    lemma_one_char_eq('>', "-"@);
    lemma_one_char_eq('>', "_"@);
    lemma_one_char_eq('>', "+"@);
    lemma_one_char_eq('>', "="@);
    assert(seq!['>'] =~= ">"@);
}

/// The punctuation table names '<' `Less`.
proof fn lemma_punctuation_entry_25()
    ensures
        punctuation(seq!['<']) == Some("Less"@),
        is_pascal_fragment("Less"@),
{
    reveal_strlit("{");
    reveal_strlit("}");
    reveal_strlit("(");
    reveal_strlit(")");
    reveal_strlit("[");
    reveal_strlit("]");
    reveal_strlit(",");
    reveal_strlit(":");
    reveal_strlit(";");
    reveal_strlit(".");
    reveal_strlit("'");
    reveal_strlit("\"");
    reveal_strlit("@");
    reveal_strlit("!");
    reveal_strlit("#");
    reveal_strlit("$");
    reveal_strlit("%");
    reveal_strlit("^");
    reveal_strlit("&");
    reveal_strlit("*");
    reveal_strlit("-");
    reveal_strlit("_");
    reveal_strlit("+");
    reveal_strlit("=");
    reveal_strlit(">");
    reveal_strlit("<");
    reveal_strlit("Less");
    lemma_one_char_eq('<', "{"@);
    lemma_one_char_eq('<', "}"@);
    lemma_one_char_eq('<', "("@);
    lemma_one_char_eq('<', ")"@);
    lemma_one_char_eq('<', "["@);
    lemma_one_char_eq('<', "]"@);
    lemma_one_char_eq('<', ","@);
    lemma_one_char_eq('<', ":"@);
    lemma_one_char_eq('<', ";"@);
    lemma_one_char_eq('<', "."@);
    lemma_one_char_eq('<', "'"@);
    lemma_one_char_eq('<', "\""@);
    lemma_one_char_eq('<', "@"@);
    lemma_one_char_eq('<', "!"@);
    lemma_one_char_eq('<', "#"@);
    lemma_one_char_eq('<', "$"@);
    lemma_one_char_eq('<', "%"@);
    lemma_one_char_eq('<', "^"@);
    lemma_one_char_eq('<', "&"@);
    lemma_one_char_eq('<', "*"@);
    lemma_one_char_eq('<', "-"@);
    lemma_one_char_eq('<', "_"@);
    lemma_one_char_eq('<', "+"@);
    lemma_one_char_eq('<', "="@);
    lemma_one_char_eq('<', ">"@);
    assert(seq!['<'] =~= "<"@);
}

/// The punctuation table names '|' `Pipe`.
proof fn lemma_punctuation_entry_26()
    ensures
        punctuation(seq!['|']) == Some("Pipe"@),
        is_pascal_fragment("Pipe"@),
{
    reveal_strlit("{");
    reveal_strlit("}");
    reveal_strlit("(");
    reveal_strlit(")");
    reveal_strlit("[");
    reveal_strlit("]");
    reveal_strlit(",");
    reveal_strlit(":");
    reveal_strlit(";");
    reveal_strlit(".");
    reveal_strlit("'");
    reveal_strlit("\"");
    reveal_strlit("@");
    reveal_strlit("!");
    reveal_strlit("#");
    reveal_strlit("$");
    reveal_strlit("%");
    reveal_strlit("^");
    reveal_strlit("&");
    reveal_strlit("*");
    reveal_strlit("-");
    reveal_strlit("_");
    reveal_strlit("+");
    reveal_strlit("=");
    reveal_strlit(">");
    reveal_strlit("<");
    reveal_strlit("|");
    reveal_strlit("Pipe");
    lemma_one_char_eq('|', "{"@);
    lemma_one_char_eq('|', "}"@);
    lemma_one_char_eq('|', "("@);
    lemma_one_char_eq('|', ")"@);
    lemma_one_char_eq('|', "["@);
    lemma_one_char_eq('|', "]"@);
    lemma_one_char_eq('|', ","@);
    lemma_one_char_eq('|', ":"@);
    lemma_one_char_eq('|', ";"@);
    lemma_one_char_eq('|', "."@);
    lemma_one_char_eq('|', "'"@);
    lemma_one_char_eq('|', "\""@);
    lemma_one_char_eq('|', "@"@);
    lemma_one_char_eq('|', "!"@);
    lemma_one_char_eq('|', "#"@);
    lemma_one_char_eq('|', "$"@);
    lemma_one_char_eq('|', "%"@);
    lemma_one_char_eq('|', "^"@);
    lemma_one_char_eq('|', "&"@);
    lemma_one_char_eq('|', "*"@);
    lemma_one_char_eq('|', "-"@);
    lemma_one_char_eq('|', "_"@);
    lemma_one_char_eq('|', "+"@);
    lemma_one_char_eq('|', "="@);
    lemma_one_char_eq('|', ">"@);
    lemma_one_char_eq('|', "<"@);
    assert(seq!['|'] =~= "|"@);
}

/// The punctuation table names '~' `Tilde`.
proof fn lemma_punctuation_entry_27()
    ensures
        punctuation(seq!['~']) == Some("Tilde"@),
        is_pascal_fragment("Tilde"@),
{
    reveal_strlit("{");
    reveal_strlit("}");
    reveal_strlit("(");
    reveal_strlit(")");
    reveal_strlit("[");
    reveal_strlit("]");
    reveal_strlit(",");
    reveal_strlit(":");
    reveal_strlit(";");
    reveal_strlit(".");
    reveal_strlit("'");
    reveal_strlit("\"");
    reveal_strlit("@");
    reveal_strlit("!");
    reveal_strlit("#");
    reveal_strlit("$");
    reveal_strlit("%");
    reveal_strlit("^");
    reveal_strlit("&");
    reveal_strlit("*");
    reveal_strlit("-");
    reveal_strlit("_");
    reveal_strlit("+");
    reveal_strlit("=");
    reveal_strlit(">");
    reveal_strlit("<");
    reveal_strlit("|");
    reveal_strlit("~");
    reveal_strlit("Tilde");
    lemma_one_char_eq('~', "{"@);
    lemma_one_char_eq('~', "}"@);
    lemma_one_char_eq('~', "("@);
    lemma_one_char_eq('~', ")"@);
    lemma_one_char_eq('~', "["@);
    lemma_one_char_eq('~', "]"@);
    lemma_one_char_eq('~', ","@);
    lemma_one_char_eq('~', ":"@);
    lemma_one_char_eq('~', ";"@);
    lemma_one_char_eq('~', "."@);
    lemma_one_char_eq('~', "'"@);
    lemma_one_char_eq('~', "\""@);
    lemma_one_char_eq('~', "@"@);
    lemma_one_char_eq('~', "!"@);
    lemma_one_char_eq('~', "#"@);
    lemma_one_char_eq('~', "$"@);
    lemma_one_char_eq('~', "%"@);
    lemma_one_char_eq('~', "^"@);
    lemma_one_char_eq('~', "&"@);
    lemma_one_char_eq('~', "*"@);
    lemma_one_char_eq('~', "-"@);
    lemma_one_char_eq('~', "_"@);
    lemma_one_char_eq('~', "+"@);
    lemma_one_char_eq('~', "="@);
    lemma_one_char_eq('~', ">"@);
    lemma_one_char_eq('~', "<"@);
    lemma_one_char_eq('~', "|"@);
    assert(seq!['~'] =~= "~"@);
}

/// The punctuation table names '/' `Slash`.
proof fn lemma_punctuation_entry_28()
    ensures
        punctuation(seq!['/']) == Some("Slash"@),
        is_pascal_fragment("Slash"@),
{
    reveal_strlit("{");
    reveal_strlit("}");
    reveal_strlit("(");
    reveal_strlit(")");
    reveal_strlit("[");
    reveal_strlit("]");
    reveal_strlit(",");
    reveal_strlit(":");
    reveal_strlit(";");
    reveal_strlit(".");
    reveal_strlit("'");
    reveal_strlit("\"");
    reveal_strlit("@");
    reveal_strlit("!");
    reveal_strlit("#");
    reveal_strlit("$");
    reveal_strlit("%");
    reveal_strlit("^");
    reveal_strlit("&");
    reveal_strlit("*");
    reveal_strlit("-");
    reveal_strlit("_");
    reveal_strlit("+");
    reveal_strlit("=");
    reveal_strlit(">");
    reveal_strlit("<");
    reveal_strlit("|");
    reveal_strlit("~");
    reveal_strlit("/");
    reveal_strlit("Slash");
    lemma_one_char_eq('/', "{"@);
    lemma_one_char_eq('/', "}"@);
    lemma_one_char_eq('/', "("@);
    lemma_one_char_eq('/', ")"@);
    lemma_one_char_eq('/', "["@);
    lemma_one_char_eq('/', "]"@);
    lemma_one_char_eq('/', ","@);
    lemma_one_char_eq('/', ":"@);
    lemma_one_char_eq('/', ";"@);
    lemma_one_char_eq('/', "."@);
    lemma_one_char_eq('/', "'"@);
    lemma_one_char_eq('/', "\""@);
    lemma_one_char_eq('/', "@"@);
    lemma_one_char_eq('/', "!"@);
    lemma_one_char_eq('/', "#"@);
    lemma_one_char_eq('/', "$"@);
    lemma_one_char_eq('/', "%"@);
    lemma_one_char_eq('/', "^"@);
    lemma_one_char_eq('/', "&"@);
    lemma_one_char_eq('/', "*"@);
    lemma_one_char_eq('/', "-"@);
    lemma_one_char_eq('/', "_"@);
    lemma_one_char_eq('/', "+"@);
    lemma_one_char_eq('/', "="@);
    lemma_one_char_eq('/', ">"@);
    lemma_one_char_eq('/', "<"@);
    lemma_one_char_eq('/', "|"@);
    lemma_one_char_eq('/', "~"@);
    assert(seq!['/'] =~= "/"@);
}

/// The punctuation table names '\\' `Backslash`.
proof fn lemma_punctuation_entry_29()
    ensures
        punctuation(seq!['\\']) == Some("Backslash"@),
        is_pascal_fragment("Backslash"@),
{
    reveal_strlit("{");
    reveal_strlit("}");
    reveal_strlit("(");
    reveal_strlit(")");
    reveal_strlit("[");
    reveal_strlit("]");
    reveal_strlit(",");
    reveal_strlit(":");
    reveal_strlit(";");
    reveal_strlit(".");
    reveal_strlit("'");
    reveal_strlit("\"");
    reveal_strlit("@");
    reveal_strlit("!");
    reveal_strlit("#");
    reveal_strlit("$");
    reveal_strlit("%");
    reveal_strlit("^");
    reveal_strlit("&");
    reveal_strlit("*");
    reveal_strlit("-");
    reveal_strlit("_");
    reveal_strlit("+");
    reveal_strlit("=");
    reveal_strlit(">");
    reveal_strlit("<");
    reveal_strlit("|");
    reveal_strlit("~");
    reveal_strlit("/");
    reveal_strlit("\\");
    reveal_strlit("Backslash");
    lemma_one_char_eq('\\', "{"@);
    lemma_one_char_eq('\\', "}"@);
    lemma_one_char_eq('\\', "("@);
    lemma_one_char_eq('\\', ")"@);
    lemma_one_char_eq('\\', "["@);
    lemma_one_char_eq('\\', "]"@);
    lemma_one_char_eq('\\', ","@);
    lemma_one_char_eq('\\', ":"@);
    lemma_one_char_eq('\\', ";"@);
    lemma_one_char_eq('\\', "."@);
    lemma_one_char_eq('\\', "'"@);
    lemma_one_char_eq('\\', "\""@);
    lemma_one_char_eq('\\', "@"@);
    lemma_one_char_eq('\\', "!"@);
    lemma_one_char_eq('\\', "#"@);
    lemma_one_char_eq('\\', "$"@);
    lemma_one_char_eq('\\', "%"@);
    lemma_one_char_eq('\\', "^"@);
    lemma_one_char_eq('\\', "&"@);
    lemma_one_char_eq('\\', "*"@);
    lemma_one_char_eq('\\', "-"@);
    lemma_one_char_eq('\\', "_"@);
    lemma_one_char_eq('\\', "+"@);
    lemma_one_char_eq('\\', "="@);
    lemma_one_char_eq('\\', ">"@);
    lemma_one_char_eq('\\', "<"@);
    lemma_one_char_eq('\\', "|"@);
    lemma_one_char_eq('\\', "~"@);
    lemma_one_char_eq('\\', "/"@);
    assert(seq!['\\'] =~= "\\"@);
}

/// The punctuation table names '?' `Question`.
proof fn lemma_punctuation_entry_30()
    ensures
        punctuation(seq!['?']) == Some("Question"@),
        is_pascal_fragment("Question"@),
{
    reveal_strlit("{");
    reveal_strlit("}");
    reveal_strlit("(");
    reveal_strlit(")");
    reveal_strlit("[");
    reveal_strlit("]");
    reveal_strlit(",");
    reveal_strlit(":");
    reveal_strlit(";");
    reveal_strlit(".");
    reveal_strlit("'");
    reveal_strlit("\"");
    reveal_strlit("@");
    reveal_strlit("!");
    reveal_strlit("#");
    reveal_strlit("$");
    reveal_strlit("%");
    reveal_strlit("^");
    reveal_strlit("&");
    reveal_strlit("*");
    reveal_strlit("-");
    reveal_strlit("_");
    reveal_strlit("+");
    reveal_strlit("=");
    reveal_strlit(">");
    reveal_strlit("<");
    reveal_strlit("|");
    reveal_strlit("~");
    reveal_strlit("/");
    reveal_strlit("\\");
    reveal_strlit("//");
    reveal_strlit("//=>");
    reveal_strlit("//=");
    reveal_strlit("/=");
    reveal_strlit("/>");
    reveal_strlit("/?");
    reveal_strlit("/??");
    reveal_strlit("/*");
    reveal_strlit("*/");
    reveal_strlit("+++");
    reveal_strlit("!!");
    reveal_strlit("!!=");
    reveal_strlit("!!?");
    reveal_strlit("!!??");
    reveal_strlit("!!???");
    reveal_strlit("?");
    reveal_strlit("Question");
    lemma_one_char_eq('?', "{"@);
    lemma_one_char_eq('?', "}"@);
    lemma_one_char_eq('?', "("@);
    lemma_one_char_eq('?', ")"@);
    lemma_one_char_eq('?', "["@);
    lemma_one_char_eq('?', "]"@);
    lemma_one_char_eq('?', ","@);
    lemma_one_char_eq('?', ":"@);
    lemma_one_char_eq('?', ";"@);
    lemma_one_char_eq('?', "."@);
    lemma_one_char_eq('?', "'"@);
    lemma_one_char_eq('?', "\""@);
    lemma_one_char_eq('?', "@"@);
    lemma_one_char_eq('?', "!"@);
    lemma_one_char_eq('?', "#"@);
    lemma_one_char_eq('?', "$"@);
    lemma_one_char_eq('?', "%"@);
    lemma_one_char_eq('?', "^"@);
    lemma_one_char_eq('?', "&"@);
    lemma_one_char_eq('?', "*"@);
    lemma_one_char_eq('?', "-"@);
    lemma_one_char_eq('?', "_"@);
    lemma_one_char_eq('?', "+"@);
    lemma_one_char_eq('?', "="@);
    lemma_one_char_eq('?', ">"@);
    lemma_one_char_eq('?', "<"@);
    lemma_one_char_eq('?', "|"@);
    lemma_one_char_eq('?', "~"@);
    lemma_one_char_eq('?', "/"@);
    lemma_one_char_eq('?', "\\"@);
    lemma_one_char_eq('?', "//"@);
    lemma_one_char_eq('?', "//=>"@);
    lemma_one_char_eq('?', "//="@);
    lemma_one_char_eq('?', "/="@);
    lemma_one_char_eq('?', "/>"@);
    lemma_one_char_eq('?', "/?"@);
    lemma_one_char_eq('?', "/??"@);
    lemma_one_char_eq('?', "/*"@);
    lemma_one_char_eq('?', "*/"@);
    lemma_one_char_eq('?', "+++"@);
    lemma_one_char_eq('?', "!!"@);
    lemma_one_char_eq('?', "!!="@);
    lemma_one_char_eq('?', "!!?"@);
    lemma_one_char_eq('?', "!!??"@);
    lemma_one_char_eq('?', "!!???"@);
    assert(seq!['?'] =~= "?"@);
}

/// Every single ASCII punctuation character (the backtick aside) has a
/// name in the punctuation table, and that name is a Pascal-case
/// identifier fragment.
pub proof fn lemma_single_punctuation_named(c: char)
    requires
        is_ascii_punctuation(c),
    ensures
        punctuation(seq![c]) matches Some(v) && is_pascal_fragment(v),
{
    if c == '{' {
        lemma_punctuation_entry_0();
    } else if c == '}' {
        lemma_punctuation_entry_1();
    } else if c == '(' {
        lemma_punctuation_entry_2();
    } else if c == ')' {
        lemma_punctuation_entry_3();
    } else if c == '[' {
        lemma_punctuation_entry_4();
    } else if c == ']' {
        lemma_punctuation_entry_5();
    } else if c == ',' {
        lemma_punctuation_entry_6();
    } else if c == ':' {
        lemma_punctuation_entry_7();
    } else if c == ';' {
        lemma_punctuation_entry_8();
    } else if c == '.' {
        lemma_punctuation_entry_9();
    } else if c == '\'' {
        lemma_punctuation_entry_10();
    } else if c == '"' {
        lemma_punctuation_entry_11();
    } else if c == '@' {
        lemma_punctuation_entry_12();
    } else if c == '!' {
        lemma_punctuation_entry_13();
    } else if c == '#' {
        lemma_punctuation_entry_14();
    } else if c == '$' {
        lemma_punctuation_entry_15();
    } else if c == '%' {
        lemma_punctuation_entry_16();
    } else if c == '^' {
        lemma_punctuation_entry_17();
    } else if c == '&' {
        lemma_punctuation_entry_18();
    } else if c == '*' {
        lemma_punctuation_entry_19();
    } else if c == '-' {
        lemma_punctuation_entry_20();
    } else if c == '_' {
        lemma_punctuation_entry_21();
    } else if c == '+' {
        lemma_punctuation_entry_22();
    } else if c == '=' {
        lemma_punctuation_entry_23();
    } else if c == '>' {
        lemma_punctuation_entry_24();
    } else if c == '<' {
        lemma_punctuation_entry_25();
    } else if c == '|' {
        lemma_punctuation_entry_26();
    } else if c == '~' {
        lemma_punctuation_entry_27();
    } else if c == '/' {
        lemma_punctuation_entry_28();
    } else if c == '\\' {
        lemma_punctuation_entry_29();
    } else if c == '?' {
        lemma_punctuation_entry_30();
    }
}

/// The punctuation table names every single ASCII punctuation character
/// (the backtick aside) with a Pascal-case identifier fragment, so a
/// sanitized token made of them holds no punctuation.
pub proof fn lemma_punctuation_names_ascii_punctuation()
    ensures
        forall|c: char| is_ascii_punctuation(c) ==>
            ((#[trigger] punctuation(seq![c])) matches Some(v) && is_pascal_fragment(v)),
{
    assert forall|c: char| is_ascii_punctuation(c) implies
        ((#[trigger] punctuation(seq![c])) matches Some(v) && is_pascal_fragment(v)) by {
        lemma_single_punctuation_named(c);
    }
}

/// The identifier that replaces a Rust keyword or prelude name, if `s` is one.
pub open spec fn rust_keyword(s: Seq<char>) -> Option<Seq<char>> {
    if s == "abstract"@ {
        Some("Abstract"@)
    } else if s == "as"@ {
        Some("As"@)
    } else if s == "async"@ {
        Some("Async"@)
    } else if s == "await"@ {
        Some("Await"@)
    } else if s == "break"@ {
        Some("Break"@)
    } else if s == "const"@ {
        Some("Const"@)
    } else if s == "continue"@ {
        Some("Continue"@)
    } else if s == "crate"@ {
        Some("Crate"@)
    } else if s == "dyn"@ {
        Some("Dyn"@)
    } else if s == "else"@ {
        Some("Else"@)
    } else if s == "enum"@ {
        Some("Enum"@)
    } else if s == "extern"@ {
        Some("Extern"@)
    } else if s == "false"@ {
        Some("False"@)
    } else if s == "final"@ {
        Some("Final"@)
    } else if s == "fn"@ {
        Some("Fn"@)
    } else if s == "for"@ {
        Some("For"@)
    } else if s == "if"@ {
        Some("If"@)
    } else if s == "impl"@ {
        Some("Impl"@)
    } else if s == "in"@ {
        Some("In"@)
    } else if s == "let"@ {
        Some("Let"@)
    } else if s == "loop"@ {
        Some("Loop"@)
    } else if s == "match"@ {
        Some("Match"@)
    } else if s == "mod"@ {
        Some("Mod"@)
    } else if s == "move"@ {
        Some("Move"@)
    } else if s == "mut"@ {
        Some("Mut"@)
    } else if s == "pub"@ {
        Some("Pub"@)
    } else if s == "ref"@ {
        Some("Ref"@)
    } else if s == "return"@ {
        Some("Return"@)
    } else if s == "self"@ {
        Some("Self"@)
    } else if s == "static"@ {
        Some("Static"@)
    } else if s == "struct"@ {
        Some("Struct"@)
    } else if s == "super"@ {
        Some("Super"@)
    } else if s == "trait"@ {
        Some("Trait"@)
    } else if s == "true"@ {
        Some("True"@)
    } else if s == "type"@ {
        Some("Type"@)
    } else if s == "unsafe"@ {
        Some("Unsafe"@)
    } else if s == "use"@ {
        Some("Use"@)
    } else if s == "where"@ {
        Some("Where"@)
    } else if s == "while"@ {
        Some("While"@)
    } else if s == "with"@ {
        Some("With"@)
    } else if s == "yield"@ {
        Some("Yield"@)
    } else if s == "None"@ {
        Some("_None"@)
    } else if s == "Some"@ {
        Some("_Some"@)
    } else if s == "Ok"@ {
        Some("_Ok"@)
    } else if s == "Err"@ {
        Some("_Err"@)
    } else if s == "Result"@ {
        Some("_Result"@)
    } else if s == "Option"@ {
        Some("_Option"@)
    } else if s == "Vec"@ {
        Some("_Vec"@)
    } else {
        None
    }
}

/// Looks `s` up in the punctuation table.
pub fn lookup_punctuation(s: &Vec<char>) -> (r: Option<&'static str>)
    ensures
        str_opt_view(r) == punctuation(s@),
{
    if chars_eq_str(s, "{") {
        return Some("LeftCurly");
    }
    if chars_eq_str(s, "}") {
        return Some("RightCurly");
    }
    if chars_eq_str(s, "(") {
        return Some("LeftParen");
    }
    if chars_eq_str(s, ")") {
        return Some("RightParen");
    }
    if chars_eq_str(s, "[") {
        return Some("LeftBracket");
    }
    if chars_eq_str(s, "]") {
        return Some("RightBracket");
    }
    if chars_eq_str(s, ",") {
        return Some("Comma");
    }
    if chars_eq_str(s, ":") {
        return Some("Colon");
    }
    if chars_eq_str(s, ";") {
        return Some("Semicolon");
    }
    if chars_eq_str(s, ".") {
        return Some("Dot");
    }
    if chars_eq_str(s, "'") {
        return Some("Quote");
    }
    if chars_eq_str(s, "\"") {
        return Some("DoubleQuote");
    }
    if chars_eq_str(s, "@") {
        return Some("At");
    }
    if chars_eq_str(s, "!") {
        return Some("Bang");
    }
    if chars_eq_str(s, "#") {
        return Some("Hash");
    }
    if chars_eq_str(s, "$") {
        return Some("Dollar");
    }
    if chars_eq_str(s, "%") {
        return Some("Percent");
    }
    if chars_eq_str(s, "^") {
        return Some("Caret");
    }
    if chars_eq_str(s, "&") {
        return Some("Ampersand");
    }
    if chars_eq_str(s, "*") {
        return Some("Star");
    }
    if chars_eq_str(s, "-") {
        return Some("Minus");
    }
    if chars_eq_str(s, "_") {
        return Some("Underscore");
    }
    if chars_eq_str(s, "+") {
        return Some("Plus");
    }
    if chars_eq_str(s, "=") {
        return Some("Equal");
    }
    if chars_eq_str(s, ">") {
        return Some("Greater");
    }
    if chars_eq_str(s, "<") {
        return Some("Less");
    }
    if chars_eq_str(s, "|") {
        return Some("Pipe");
    }
    if chars_eq_str(s, "~") {
        return Some("Tilde");
    }
    if chars_eq_str(s, "/") {
        return Some("Slash");
    }
    if chars_eq_str(s, "\\") {
        return Some("Backslash");
    }
    if chars_eq_str(s, "//") {
        return Some("SlashSlash");
    }
    if chars_eq_str(s, "//=>") {
        return Some("SlashSlashEqual");
    }
    if chars_eq_str(s, "//=") {
        return Some("SlashSlashEqual");
    }
    if chars_eq_str(s, "/=") {
        return Some("SlashEqual");
    }
    if chars_eq_str(s, "/>") {
        return Some("SlashGreater");
    }
    if chars_eq_str(s, "/?") {
        return Some("SlashQuestion");
    }
    if chars_eq_str(s, "/??") {
        return Some("SlashNullish");
    }
    if chars_eq_str(s, "/*") {
        return Some("SlashStar");
    }
    if chars_eq_str(s, "*/") {
        return Some("StarSlash");
    }
    if chars_eq_str(s, "+++") {
        return Some("PlusPlusPlus");
    }
    if chars_eq_str(s, "!!") {
        return Some("BangBang");
    }
    if chars_eq_str(s, "!!=") {
        return Some("BangBangEqual");
    }
    if chars_eq_str(s, "!!?") {
        return Some("BangBangQuestion");
    }
    if chars_eq_str(s, "!!??") {
        return Some("BangBangNullish");
    }
    if chars_eq_str(s, "!!???") {
        return Some("BangBangNullishQuestion");
    }
    if chars_eq_str(s, "?") {
        return Some("Question");
    }
    if chars_eq_str(s, "->") {
        return Some("Arrow");
    }
    if chars_eq_str(s, "=>") {
        return Some("FatArrow");
    }
    if chars_eq_str(s, "++") {
        return Some("PlusPlus");
    }
    if chars_eq_str(s, "--") {
        return Some("MinusMinus");
    }
    if chars_eq_str(s, "&&") {
        return Some("And");
    }
    if chars_eq_str(s, "||") {
        return Some("Or");
    }
    if chars_eq_str(s, "==") {
        return Some("EqualEqual");
    }
    if chars_eq_str(s, "!=") {
        return Some("NotEqual");
    }
    if chars_eq_str(s, ">=") {
        return Some("GreaterEqual");
    }
    if chars_eq_str(s, "<=") {
        return Some("LessEqual");
    }
    if chars_eq_str(s, "===") {
        return Some("TripleEqual");
    }
    if chars_eq_str(s, "!==") {
        return Some("NotTripleEqual");
    }
    if chars_eq_str(s, "<<") {
        return Some("ShiftLeft");
    }
    if chars_eq_str(s, ">>") {
        return Some("ShiftRight");
    }
    if chars_eq_str(s, ">>>") {
        return Some("ShiftRightUnsigned");
    }
    if chars_eq_str(s, "+=") {
        return Some("PlusEqual");
    }
    if chars_eq_str(s, "-=") {
        return Some("MinusEqual");
    }
    if chars_eq_str(s, "*=") {
        return Some("StarEqual");
    }
    if chars_eq_str(s, "%=") {
        return Some("PercentEqual");
    }
    if chars_eq_str(s, "&=") {
        return Some("AmpersandEqual");
    }
    if chars_eq_str(s, "|=") {
        return Some("PipeEqual");
    }
    if chars_eq_str(s, "^=") {
        return Some("CaretEqual");
    }
    if chars_eq_str(s, "&&=") {
        return Some("AndEqual");
    }
    if chars_eq_str(s, "||=") {
        return Some("OrEqual");
    }
    if chars_eq_str(s, "??=") {
        return Some("NullishEqual");
    }
    if chars_eq_str(s, "??") {
        return Some("Nullish");
    }
    if chars_eq_str(s, "???") {
        return Some("NullishQuestion");
    }
    if chars_eq_str(s, "**") {
        return Some("StarStar");
    }
    if chars_eq_str(s, "**=") {
        return Some("StarStarEqual");
    }
    if chars_eq_str(s, "<>") {
        return Some("LessGreater");
    }
    if chars_eq_str(s, "<=>") {
        return Some("LessGreaterEqual");
    }
    if chars_eq_str(s, "<!") {
        return Some("LessBang");
    }
    if chars_eq_str(s, "</") {
        return Some("LessSlash");
    }
    None
}

/// Looks `s` up in the Rust keyword table.
pub fn lookup_rust_keyword(s: &Vec<char>) -> (r: Option<&'static str>)
    ensures
        str_opt_view(r) == rust_keyword(s@),
{
    if chars_eq_str(s, "abstract") {
        return Some("Abstract");
    }
    if chars_eq_str(s, "as") {
        return Some("As");
    }
    if chars_eq_str(s, "async") {
        return Some("Async");
    }
    if chars_eq_str(s, "await") {
        return Some("Await");
    }
    if chars_eq_str(s, "break") {
        return Some("Break");
    }
    if chars_eq_str(s, "const") {
        return Some("Const");
    }
    if chars_eq_str(s, "continue") {
        return Some("Continue");
    }
    if chars_eq_str(s, "crate") {
        return Some("Crate");
    }
    if chars_eq_str(s, "dyn") {
        return Some("Dyn");
    }
    if chars_eq_str(s, "else") {
        return Some("Else");
    }
    if chars_eq_str(s, "enum") {
        return Some("Enum");
    }
    if chars_eq_str(s, "extern") {
        return Some("Extern");
    }
    if chars_eq_str(s, "false") {
        return Some("False");
    }
    if chars_eq_str(s, "final") {
        return Some("Final");
    }
    if chars_eq_str(s, "fn") {
        return Some("Fn");
    }
    if chars_eq_str(s, "for") {
        return Some("For");
    }
    if chars_eq_str(s, "if") {
        return Some("If");
    }
    if chars_eq_str(s, "impl") {
        return Some("Impl");
    }
    if chars_eq_str(s, "in") {
        return Some("In");
    }
    if chars_eq_str(s, "let") {
        return Some("Let");
    }
    if chars_eq_str(s, "loop") {
        return Some("Loop");
    }
    if chars_eq_str(s, "match") {
        return Some("Match");
    }
    if chars_eq_str(s, "mod") {
        return Some("Mod");
    }
    if chars_eq_str(s, "move") {
        return Some("Move");
    }
    if chars_eq_str(s, "mut") {
        return Some("Mut");
    }
    if chars_eq_str(s, "pub") {
        return Some("Pub");
    }
    if chars_eq_str(s, "ref") {
        return Some("Ref");
    }
    if chars_eq_str(s, "return") {
        return Some("Return");
    }
    if chars_eq_str(s, "self") {
        return Some("Self");
    }
    if chars_eq_str(s, "static") {
        return Some("Static");
    }
    if chars_eq_str(s, "struct") {
        return Some("Struct");
    }
    if chars_eq_str(s, "super") {
        return Some("Super");
    }
    if chars_eq_str(s, "trait") {
        return Some("Trait");
    }
    if chars_eq_str(s, "true") {
        return Some("True");
    }
    if chars_eq_str(s, "type") {
        return Some("Type");
    }
    if chars_eq_str(s, "unsafe") {
        return Some("Unsafe");
    }
    if chars_eq_str(s, "use") {
        return Some("Use");
    }
    if chars_eq_str(s, "where") {
        return Some("Where");
    }
    if chars_eq_str(s, "while") {
        return Some("While");
    }
    if chars_eq_str(s, "with") {
        return Some("With");
    }
    if chars_eq_str(s, "yield") {
        return Some("Yield");
    }
    if chars_eq_str(s, "None") {
        return Some("_None");
    }
    if chars_eq_str(s, "Some") {
        return Some("_Some");
    }
    if chars_eq_str(s, "Ok") {
        return Some("_Ok");
    }
    if chars_eq_str(s, "Err") {
        return Some("_Err");
    }
    if chars_eq_str(s, "Result") {
        return Some("_Result");
    }
    if chars_eq_str(s, "Option") {
        return Some("_Option");
    }
    if chars_eq_str(s, "Vec") {
        return Some("_Vec");
    }
    None
}

} // verus!
