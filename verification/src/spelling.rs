//! Spelling resolution: the canonical source spelling of a punctuator kind,
//! the (always absent) keyword spelling of a token kind, and the directive
//! spelling of a preprocessor keyword kind.
use vstd::prelude::*;

use crate::kinds::{TokenKind, PPKeywordKind, is_punctuator};

verus! {

/// The canonical source spelling of a token kind (such as "[" or "<=>"):
/// present exactly for the punctuator sub-class, whose spelling is wholly
/// determined by the kind. Re-emitting a punctuator never needs the
/// original lexeme text.
pub open spec fn punctuator_spelling(k: TokenKind) -> Option<Seq<char>> {
    match k {
        TokenKind::Lsquare => Some("["@),
        TokenKind::Rsquare => Some("]"@),
        TokenKind::Lparen => Some("("@),
        TokenKind::Rparen => Some(")"@),
        TokenKind::Lbrace => Some("{"@),
        TokenKind::Rbrace => Some("}"@),
        TokenKind::Period => Some("."@),
        TokenKind::Ellipsis => Some("..."@),
        TokenKind::Amp => Some("&"@),
        TokenKind::Ampamp => Some("&&"@),
        TokenKind::Ampequal => Some("&="@),
        TokenKind::Star => Some("*"@),
        TokenKind::Starequal => Some("*="@),
        TokenKind::Plus => Some("+"@),
        TokenKind::Plusplus => Some("++"@),
        TokenKind::Plusequal => Some("+="@),
        TokenKind::Minus => Some("-"@),
        TokenKind::Arrow => Some("->"@),
        TokenKind::Minusminus => Some("--"@),
        TokenKind::Minusequal => Some("-="@),
        TokenKind::Tilde => Some("~"@),
        TokenKind::Exclaim => Some("!"@),
        TokenKind::Exclaimequal => Some("!="@),
        TokenKind::Slash => Some("/"@),
        TokenKind::Slashequal => Some("/="@),
        TokenKind::Percent => Some("%"@),
        TokenKind::Percentequal => Some("%="@),
        TokenKind::Less => Some("<"@),
        TokenKind::Lessless => Some("<<"@),
        TokenKind::Lessequal => Some("<="@),
        TokenKind::Lesslessequal => Some("<<="@),
        TokenKind::Spaceship => Some("<=>"@),
        TokenKind::Greater => Some(">"@),
        TokenKind::Greatergreater => Some(">>"@),
        TokenKind::Greaterequal => Some(">="@),
        TokenKind::Greatergreaterequal => Some(">>="@),
        TokenKind::Caret => Some("^"@),
        TokenKind::Caretequal => Some("^="@),
        TokenKind::Pipe => Some("|"@),
        TokenKind::Pipepipe => Some("||"@),
        TokenKind::Pipeequal => Some("|="@),
        TokenKind::Question => Some("?"@),
        TokenKind::Colon => Some(":"@),
        TokenKind::Semi => Some(";"@),
        TokenKind::Equal => Some("="@),
        TokenKind::Equalequal => Some("=="@),
        TokenKind::Comma => Some(","@),
        TokenKind::Hash => Some("#"@),
        TokenKind::Hashhash => Some("##"@),
        TokenKind::Hashat => Some("#@"@),
        TokenKind::Periodstar => Some(".*"@),
        TokenKind::Arrowstar => Some("->*"@),
        TokenKind::Coloncolon => Some("::"@),
        TokenKind::At => Some("@"@),
        TokenKind::Lesslessless => Some("<<<"@),
        TokenKind::Greatergreatergreater => Some(">>>"@),
        _ => None,
    }
}

/// The keyword spelling of a token kind. This taxonomy keeps no dedicated
/// keyword variants: a reserved word stays an `Identifier` token and carries
/// its auxiliary keyword kind beside it, so no token kind has a keyword
/// spelling and the result is absent for every kind.
pub open spec fn keyword_spelling(k: TokenKind) -> Option<Seq<char>> {
    match k {
        _ => None,
    }
}

/// The directive spelling of a preprocessor keyword kind: present exactly
/// for the kinds other than `NotKeyword`.
pub open spec fn pp_keyword_spelling(k: PPKeywordKind) -> Option<Seq<char>> {
    match k {
        PPKeywordKind::NotKeyword => None,
        PPKeywordKind::If => Some("if"@),
        PPKeywordKind::Ifdef => Some("ifdef"@),
        PPKeywordKind::Ifndef => Some("ifndef"@),
        PPKeywordKind::Elif => Some("elif"@),
        PPKeywordKind::Elifdef => Some("elifdef"@),
        PPKeywordKind::Elifndef => Some("elifndef"@),
        PPKeywordKind::Else => Some("else"@),
        PPKeywordKind::Endif => Some("endif"@),
        PPKeywordKind::Defined => Some("defined"@),
        PPKeywordKind::Include => Some("include"@),
        PPKeywordKind::IncludeMacros => Some("__include_macros"@),
        PPKeywordKind::Define => Some("define"@),
        PPKeywordKind::Undef => Some("undef"@),
        PPKeywordKind::Line => Some("line"@),
        PPKeywordKind::Error => Some("error"@),
        PPKeywordKind::Pragma => Some("pragma"@),
        PPKeywordKind::Embed => Some("embed"@),
        PPKeywordKind::Import => Some("import"@),
        PPKeywordKind::IncludeNext => Some("include_next"@),
        PPKeywordKind::Warning => Some("warning"@),
        PPKeywordKind::Ident => Some("ident"@),
        PPKeywordKind::Sccs => Some("sccs"@),
        PPKeywordKind::Assert => Some("assert"@),
        PPKeywordKind::Unassert => Some("unassert"@),
        PPKeywordKind::PublicMacro => Some("__public_macro"@),
        PPKeywordKind::PrivateMacro => Some("__private_macro"@),
    }
}

/// The exact source spelling of a punctuator kind (such as "[" or "<=>"),
/// and `None` for every other kind.
pub fn get_punctuator_spelling(kind: TokenKind) -> (r: Option<&'static str>)
    ensures
        r is Some <==> punctuator_spelling(kind) is Some,
        r matches Some(s) ==> punctuator_spelling(kind) == Some(s@),
{
    match kind {
        TokenKind::Lsquare => Some("["),
        TokenKind::Rsquare => Some("]"),
        TokenKind::Lparen => Some("("),
        TokenKind::Rparen => Some(")"),
        TokenKind::Lbrace => Some("{"),
        TokenKind::Rbrace => Some("}"),
        TokenKind::Period => Some("."),
        TokenKind::Ellipsis => Some("..."),
        TokenKind::Amp => Some("&"),
        TokenKind::Ampamp => Some("&&"),
        TokenKind::Ampequal => Some("&="),
        TokenKind::Star => Some("*"),
        TokenKind::Starequal => Some("*="),
        TokenKind::Plus => Some("+"),
        TokenKind::Plusplus => Some("++"),
        TokenKind::Plusequal => Some("+="),
        TokenKind::Minus => Some("-"),
        TokenKind::Arrow => Some("->"),
        TokenKind::Minusminus => Some("--"),
        TokenKind::Minusequal => Some("-="),
        TokenKind::Tilde => Some("~"),
        TokenKind::Exclaim => Some("!"),
        TokenKind::Exclaimequal => Some("!="),
        TokenKind::Slash => Some("/"),
        TokenKind::Slashequal => Some("/="),
        TokenKind::Percent => Some("%"),
        TokenKind::Percentequal => Some("%="),
        TokenKind::Less => Some("<"),
        TokenKind::Lessless => Some("<<"),
        TokenKind::Lessequal => Some("<="),
        TokenKind::Lesslessequal => Some("<<="),
        TokenKind::Spaceship => Some("<=>"),
        TokenKind::Greater => Some(">"),
        TokenKind::Greatergreater => Some(">>"),
        TokenKind::Greaterequal => Some(">="),
        TokenKind::Greatergreaterequal => Some(">>="),
        TokenKind::Caret => Some("^"),
        TokenKind::Caretequal => Some("^="),
        TokenKind::Pipe => Some("|"),
        TokenKind::Pipepipe => Some("||"),
        TokenKind::Pipeequal => Some("|="),
        TokenKind::Question => Some("?"),
        TokenKind::Colon => Some(":"),
        TokenKind::Semi => Some(";"),
        TokenKind::Equal => Some("="),
        TokenKind::Equalequal => Some("=="),
        TokenKind::Comma => Some(","),
        TokenKind::Hash => Some("#"),
        TokenKind::Hashhash => Some("##"),
        TokenKind::Hashat => Some("#@"),
        TokenKind::Periodstar => Some(".*"),
        TokenKind::Arrowstar => Some("->*"),
        TokenKind::Coloncolon => Some("::"),
        TokenKind::At => Some("@"),
        TokenKind::Lesslessless => Some("<<<"),
        TokenKind::Greatergreatergreater => Some(">>>"),
        _ => None,
    }
}

/// The literal keyword text of a keyword-class token kind. No variant of
/// this taxonomy is keyword-class (reserved words stay `Identifier` tokens
/// with an auxiliary keyword kind beside them), so the result is `None` for
/// every kind.
pub fn get_keyword_spelling(kind: TokenKind) -> (r: Option<&'static str>)
    ensures
        r is Some <==> keyword_spelling(kind) is Some,
        r matches Some(s) ==> keyword_spelling(kind) == Some(s@),
{
    match kind {
        _ => None,
    }
}

/// The directive name of a preprocessor keyword kind (such as "ifdef" or
/// "pragma"), and `None` for `NotKeyword`.
pub fn get_pp_keyword_spelling(kind: PPKeywordKind) -> (r: Option<&'static str>)
    ensures
        r is Some <==> pp_keyword_spelling(kind) is Some,
        r matches Some(s) ==> pp_keyword_spelling(kind) == Some(s@),
{
    match kind {
        PPKeywordKind::NotKeyword => None,
        PPKeywordKind::If => Some("if"),
        PPKeywordKind::Ifdef => Some("ifdef"),
        PPKeywordKind::Ifndef => Some("ifndef"),
        PPKeywordKind::Elif => Some("elif"),
        PPKeywordKind::Elifdef => Some("elifdef"),
        PPKeywordKind::Elifndef => Some("elifndef"),
        PPKeywordKind::Else => Some("else"),
        PPKeywordKind::Endif => Some("endif"),
        PPKeywordKind::Defined => Some("defined"),
        PPKeywordKind::Include => Some("include"),
        PPKeywordKind::IncludeMacros => Some("__include_macros"),
        PPKeywordKind::Define => Some("define"),
        PPKeywordKind::Undef => Some("undef"),
        PPKeywordKind::Line => Some("line"),
        PPKeywordKind::Error => Some("error"),
        PPKeywordKind::Pragma => Some("pragma"),
        PPKeywordKind::Embed => Some("embed"),
        PPKeywordKind::Import => Some("import"),
        PPKeywordKind::IncludeNext => Some("include_next"),
        PPKeywordKind::Warning => Some("warning"),
        PPKeywordKind::Ident => Some("ident"),
        PPKeywordKind::Sccs => Some("sccs"),
        PPKeywordKind::Assert => Some("assert"),
        PPKeywordKind::Unassert => Some("unassert"),
        PPKeywordKind::PublicMacro => Some("__public_macro"),
        PPKeywordKind::PrivateMacro => Some("__private_macro"),
    }
}

/// A token kind has a canonical source spelling exactly when it is a
/// punctuator, and that spelling is never empty.
pub proof fn lemma_punctuator_spelling_iff(k: TokenKind)
    ensures
        punctuator_spelling(k) is Some <==> is_punctuator(k),
        punctuator_spelling(k) matches Some(s) ==> s.len() > 0,
{
    reveal_strlit("[");
    reveal_strlit("]");
    reveal_strlit("(");
    reveal_strlit(")");
    reveal_strlit("{");
    reveal_strlit("}");
    reveal_strlit(".");
    reveal_strlit("...");
    reveal_strlit("&");
    reveal_strlit("&&");
    reveal_strlit("&=");
    reveal_strlit("*");
    reveal_strlit("*=");
    reveal_strlit("+");
    reveal_strlit("++");
    reveal_strlit("+=");
    reveal_strlit("-");
    reveal_strlit("->");
    reveal_strlit("--");
    reveal_strlit("-=");
    reveal_strlit("~");
    reveal_strlit("!");
    reveal_strlit("!=");
    reveal_strlit("/");
    reveal_strlit("/=");
    reveal_strlit("%");
    reveal_strlit("%=");
    reveal_strlit("<");
    reveal_strlit("<<");
    reveal_strlit("<=");
    reveal_strlit("<<=");
    reveal_strlit("<=>");
    reveal_strlit(">");
    reveal_strlit(">>");
    reveal_strlit(">=");
    reveal_strlit(">>=");
    reveal_strlit("^");
    reveal_strlit("^=");
    reveal_strlit("|");
    reveal_strlit("||");
    reveal_strlit("|=");
    reveal_strlit("?");
    reveal_strlit(":");
    reveal_strlit(";");
    reveal_strlit("=");
    reveal_strlit("==");
    reveal_strlit(",");
    reveal_strlit("#");
    reveal_strlit("##");
    reveal_strlit("#@");
    reveal_strlit(".*");
    reveal_strlit("->*");
    reveal_strlit("::");
    reveal_strlit("@");
    reveal_strlit("<<<");
    reveal_strlit(">>>");
}

/// No two punctuator kinds share a spelling: among the punctuators, the
/// spelling alone determines the kind.
///
/// As in `names::lemma_token_names_distinct`, the proof states the length
/// and every character of every spelling, which refutes each pair of
/// distinct spellings.
pub proof fn lemma_punctuator_spellings_distinct(k1: TokenKind, k2: TokenKind)
    requires
        k1 != k2,
        is_punctuator(k1),
        is_punctuator(k2),
    ensures
        punctuator_spelling(k1) != punctuator_spelling(k2),
{
    reveal_strlit("[");
    reveal_strlit("]");
    reveal_strlit("(");
    reveal_strlit(")");
    reveal_strlit("{");
    reveal_strlit("}");
    reveal_strlit(".");
    reveal_strlit("...");
    reveal_strlit("&");
    reveal_strlit("&&");
    reveal_strlit("&=");
    reveal_strlit("*");
    reveal_strlit("*=");
    reveal_strlit("+");
    reveal_strlit("++");
    reveal_strlit("+=");
    reveal_strlit("-");
    reveal_strlit("->");
    reveal_strlit("--");
    reveal_strlit("-=");
    reveal_strlit("~");
    reveal_strlit("!");
    reveal_strlit("!=");
    reveal_strlit("/");
    reveal_strlit("/=");
    reveal_strlit("%");
    reveal_strlit("%=");
    reveal_strlit("<");
    reveal_strlit("<<");
    reveal_strlit("<=");
    reveal_strlit("<<=");
    reveal_strlit("<=>");
    reveal_strlit(">");
    reveal_strlit(">>");
    reveal_strlit(">=");
    reveal_strlit(">>=");
    reveal_strlit("^");
    reveal_strlit("^=");
    reveal_strlit("|");
    reveal_strlit("||");
    reveal_strlit("|=");
    reveal_strlit("?");
    reveal_strlit(":");
    reveal_strlit(";");
    reveal_strlit("=");
    reveal_strlit("==");
    reveal_strlit(",");
    reveal_strlit("#");
    reveal_strlit("##");
    reveal_strlit("#@");
    reveal_strlit(".*");
    reveal_strlit("->*");
    reveal_strlit("::");
    reveal_strlit("@");
    reveal_strlit("<<<");
    reveal_strlit(">>>");
    assert("["@.len() == 1);
    assert("]"@.len() == 1);
    assert("("@.len() == 1);
    assert(")"@.len() == 1);
    assert("{"@.len() == 1);
    assert("}"@.len() == 1);
    assert("."@.len() == 1);
    assert("..."@.len() == 3);
    assert("&"@.len() == 1);
    assert("&&"@.len() == 2);
    assert("&="@.len() == 2);
    assert("*"@.len() == 1);
    assert("*="@.len() == 2);
    assert("+"@.len() == 1);
    assert("++"@.len() == 2);
    assert("+="@.len() == 2);
    assert("-"@.len() == 1);
    assert("->"@.len() == 2);
    assert("--"@.len() == 2);
    assert("-="@.len() == 2);
    assert("~"@.len() == 1);
    assert("!"@.len() == 1);
    assert("!="@.len() == 2);
    assert("/"@.len() == 1);
    assert("/="@.len() == 2);
    assert("%"@.len() == 1);
    assert("%="@.len() == 2);
    assert("<"@.len() == 1);
    assert("<<"@.len() == 2);
    assert("<="@.len() == 2);
    assert("<<="@.len() == 3);
    assert("<=>"@.len() == 3);
    assert(">"@.len() == 1);
    assert(">>"@.len() == 2);
    assert(">="@.len() == 2);
    assert(">>="@.len() == 3);
    assert("^"@.len() == 1);
    assert("^="@.len() == 2);
    assert("|"@.len() == 1);
    assert("||"@.len() == 2);
    assert("|="@.len() == 2);
    assert("?"@.len() == 1);
    assert(":"@.len() == 1);
    assert(";"@.len() == 1);
    assert("="@.len() == 1);
    assert("=="@.len() == 2);
    assert(","@.len() == 1);
    assert("#"@.len() == 1);
    assert("##"@.len() == 2);
    assert("#@"@.len() == 2);
    assert(".*"@.len() == 2);
    assert("->*"@.len() == 3);
    assert("::"@.len() == 2);
    assert("@"@.len() == 1);
    assert("<<<"@.len() == 3);
    assert(">>>"@.len() == 3);
    assert("["@[0] == '[');
    assert("]"@[0] == ']');
    assert("("@[0] == '(');
    assert(")"@[0] == ')');
    assert("{"@[0] == '{');
    assert("}"@[0] == '}');
    assert("."@[0] == '.');
    assert("..."@[0] == '.');
    assert("..."@[1] == '.');
    assert("..."@[2] == '.');
    assert("&"@[0] == '&');
    assert("&&"@[0] == '&');
    assert("&&"@[1] == '&');
    assert("&="@[0] == '&');
    assert("&="@[1] == '=');
    assert("*"@[0] == '*');
    assert("*="@[0] == '*');
    assert("*="@[1] == '=');
    assert("+"@[0] == '+');
    assert("++"@[0] == '+');
    assert("++"@[1] == '+');
    assert("+="@[0] == '+');
    assert("+="@[1] == '=');
    assert("-"@[0] == '-');
    assert("->"@[0] == '-');
    assert("->"@[1] == '>');
    assert("--"@[0] == '-');
    assert("--"@[1] == '-');
    assert("-="@[0] == '-');
    assert("-="@[1] == '=');
    assert("~"@[0] == '~');
    assert("!"@[0] == '!');
    assert("!="@[0] == '!');
    assert("!="@[1] == '=');
    assert("/"@[0] == '/');
    assert("/="@[0] == '/');
    assert("/="@[1] == '=');
    assert("%"@[0] == '%');
    assert("%="@[0] == '%');
    assert("%="@[1] == '=');
    assert("<"@[0] == '<');
    assert("<<"@[0] == '<');
    assert("<<"@[1] == '<');
    assert("<="@[0] == '<');
    assert("<="@[1] == '=');
    assert("<<="@[0] == '<');
    assert("<<="@[1] == '<');
    assert("<<="@[2] == '=');
    assert("<=>"@[0] == '<');
    assert("<=>"@[1] == '=');
    assert("<=>"@[2] == '>');
    assert(">"@[0] == '>');
    assert(">>"@[0] == '>');
    assert(">>"@[1] == '>');
    assert(">="@[0] == '>');
    assert(">="@[1] == '=');
    assert(">>="@[0] == '>');
    assert(">>="@[1] == '>');
    assert(">>="@[2] == '=');
    assert("^"@[0] == '^');
    assert("^="@[0] == '^');
    assert("^="@[1] == '=');
    assert("|"@[0] == '|');
    assert("||"@[0] == '|');
    assert("||"@[1] == '|');
    assert("|="@[0] == '|');
    assert("|="@[1] == '=');
    assert("?"@[0] == '?');
    assert(":"@[0] == ':');
    assert(";"@[0] == ';');
    assert("="@[0] == '=');
    assert("=="@[0] == '=');
    assert("=="@[1] == '=');
    assert(","@[0] == ',');
    assert("#"@[0] == '#');
    assert("##"@[0] == '#');
    assert("##"@[1] == '#');
    assert("#@"@[0] == '#');
    assert("#@"@[1] == '@');
    assert(".*"@[0] == '.');
    assert(".*"@[1] == '*');
    assert("->*"@[0] == '-');
    assert("->*"@[1] == '>');
    assert("->*"@[2] == '*');
    assert("::"@[0] == ':');
    assert("::"@[1] == ':');
    assert("@"@[0] == '@');
    assert("<<<"@[0] == '<');
    assert("<<<"@[1] == '<');
    assert("<<<"@[2] == '<');
    assert(">>>"@[0] == '>');
    assert(">>>"@[1] == '>');
    assert(">>>"@[2] == '>');
}

/// A kind yields a spelling from at most one of the two resolution
/// functions: no kind has both a punctuator and a keyword spelling.
pub proof fn lemma_spelling_categories_disjoint(k: TokenKind)
    ensures
        !(punctuator_spelling(k) is Some && keyword_spelling(k) is Some),
{
}

/// The directive spelling is absent exactly for `NotKeyword`, and non-empty
/// wherever it is present.
pub proof fn lemma_pp_keyword_spelling_present(k: PPKeywordKind)
    ensures
        pp_keyword_spelling(k) is Some <==> !(k is NotKeyword),
        pp_keyword_spelling(k) matches Some(s) ==> s.len() > 0,
{
    reveal_strlit("if");
    reveal_strlit("ifdef");
    reveal_strlit("ifndef");
    reveal_strlit("elif");
    reveal_strlit("elifdef");
    reveal_strlit("elifndef");
    reveal_strlit("else");
    reveal_strlit("endif");
    reveal_strlit("defined");
    reveal_strlit("include");
    reveal_strlit("__include_macros");
    reveal_strlit("define");
    reveal_strlit("undef");
    reveal_strlit("line");
    reveal_strlit("error");
    reveal_strlit("pragma");
    reveal_strlit("embed");
    reveal_strlit("import");
    reveal_strlit("include_next");
    reveal_strlit("warning");
    reveal_strlit("ident");
    reveal_strlit("sccs");
    reveal_strlit("assert");
    reveal_strlit("unassert");
    reveal_strlit("__public_macro");
    reveal_strlit("__private_macro");
}

} // verus!
