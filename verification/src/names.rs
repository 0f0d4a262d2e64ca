//! The ordinal-indexed name table of the token taxonomy: every token kind
//! resolves to a distinct, non-empty internal diagnostic name.
use vstd::prelude::*;

use crate::kinds::{TokenKind, NUM_TOKEN_KINDS, token_ordinal, kind_with_ordinal};
use crate::kinds::{lemma_token_ordinal_in_range, lemma_token_ordinal_inverse, lemma_token_ordinal_injective};

verus! {

/// The internal diagnostic name of a token kind: a lower-case word such as
/// "identifier" or "l_square". It identifies the kind in logs and tooling
/// and is never the source spelling, nor user-facing diagnostic text.
pub open spec fn token_name(k: TokenKind) -> Seq<char> {
    match k {
        TokenKind::Unknown => "unknown"@,
        TokenKind::Eof => "eof"@,
        TokenKind::Eod => "eod"@,
        TokenKind::CodeCompletion => "code_completion"@,
        TokenKind::Comment => "comment"@,
        TokenKind::Identifier => "identifier"@,
        TokenKind::RawIdentifier => "raw_identifier"@,
        TokenKind::NumericConstant => "numeric_constant"@,
        TokenKind::BinaryData => "binary_data"@,
        TokenKind::CharConstant => "char_constant"@,
        TokenKind::WideCharConstant => "wide_char_constant"@,
        TokenKind::Utf8CharConstant => "utf8_char_constant"@,
        TokenKind::Utf16CharConstant => "utf16_char_constant"@,
        TokenKind::Utf32CharConstant => "utf32_char_constant"@,
        TokenKind::StringLiteral => "string_literal"@,
        TokenKind::WideStringLiteral => "wide_string_literal"@,
        TokenKind::HeaderName => "header_name"@,
        TokenKind::Utf8StringLiteral => "utf8_string_literal"@,
        TokenKind::Utf16StringLiteral => "utf16_string_literal"@,
        TokenKind::Utf32StringLiteral => "utf32_string_literal"@,
        TokenKind::Lsquare => "l_square"@,
        TokenKind::Rsquare => "r_square"@,
        TokenKind::Lparen => "l_paren"@,
        TokenKind::Rparen => "r_paren"@,
        TokenKind::Lbrace => "l_brace"@,
        TokenKind::Rbrace => "r_brace"@,
        TokenKind::Period => "period"@,
        TokenKind::Ellipsis => "ellipsis"@,
        TokenKind::Amp => "amp"@,
        TokenKind::Ampamp => "ampamp"@,
        TokenKind::Ampequal => "ampequal"@,
        TokenKind::Star => "star"@,
        TokenKind::Starequal => "starequal"@,
        TokenKind::Plus => "plus"@,
        TokenKind::Plusplus => "plusplus"@,
        TokenKind::Plusequal => "plusequal"@,
        TokenKind::Minus => "minus"@,
        TokenKind::Arrow => "arrow"@,
        TokenKind::Minusminus => "minusminus"@,
        TokenKind::Minusequal => "minusequal"@,
        TokenKind::Tilde => "tilde"@,
        TokenKind::Exclaim => "exclaim"@,
        TokenKind::Exclaimequal => "exclaimequal"@,
        TokenKind::Slash => "slash"@,
        TokenKind::Slashequal => "slashequal"@,
        TokenKind::Percent => "percent"@,
        TokenKind::Percentequal => "percentequal"@,
        TokenKind::Less => "less"@,
        TokenKind::Lessless => "lessless"@,
        TokenKind::Lessequal => "lessequal"@,
        TokenKind::Lesslessequal => "lesslessequal"@,
        TokenKind::Spaceship => "spaceship"@,
        TokenKind::Greater => "greater"@,
        TokenKind::Greatergreater => "greatergreater"@,
        TokenKind::Greaterequal => "greaterequal"@,
        TokenKind::Greatergreaterequal => "greatergreaterequal"@,
        TokenKind::Caret => "caret"@,
        TokenKind::Caretequal => "caretequal"@,
        TokenKind::Pipe => "pipe"@,
        TokenKind::Pipepipe => "pipepipe"@,
        TokenKind::Pipeequal => "pipeequal"@,
        TokenKind::Question => "question"@,
        TokenKind::Colon => "colon"@,
        TokenKind::Semi => "semi"@,
        TokenKind::Equal => "equal"@,
        TokenKind::Equalequal => "equalequal"@,
        TokenKind::Comma => "comma"@,
        TokenKind::Hash => "hash"@,
        TokenKind::Hashhash => "hashhash"@,
        TokenKind::Hashat => "hashat"@,
        TokenKind::Periodstar => "periodstar"@,
        TokenKind::Arrowstar => "arrowstar"@,
        TokenKind::Coloncolon => "coloncolon"@,
        TokenKind::At => "at"@,
        TokenKind::Lesslessless => "lesslessless"@,
        TokenKind::Greatergreatergreater => "greatergreatergreater"@,
    }
}

/// The name table, indexed by ordinal: entry `i` names the token kind whose
/// ordinal is `i`, and the length equals the number of token kinds.
pub open spec fn token_name_table() -> Seq<Seq<char>> {
    seq![
        "unknown"@,
        "eof"@,
        "eod"@,
        "code_completion"@,
        "comment"@,
        "identifier"@,
        "raw_identifier"@,
        "numeric_constant"@,
        "binary_data"@,
        "char_constant"@,
        "wide_char_constant"@,
        "utf8_char_constant"@,
        "utf16_char_constant"@,
        "utf32_char_constant"@,
        "string_literal"@,
        "wide_string_literal"@,
        "header_name"@,
        "utf8_string_literal"@,
        "utf16_string_literal"@,
        "utf32_string_literal"@,
        "l_square"@,
        "r_square"@,
        "l_paren"@,
        "r_paren"@,
        "l_brace"@,
        "r_brace"@,
        "period"@,
        "ellipsis"@,
        "amp"@,
        "ampamp"@,
        "ampequal"@,
        "star"@,
        "starequal"@,
        "plus"@,
        "plusplus"@,
        "plusequal"@,
        "minus"@,
        "arrow"@,
        "minusminus"@,
        "minusequal"@,
        "tilde"@,
        "exclaim"@,
        "exclaimequal"@,
        "slash"@,
        "slashequal"@,
        "percent"@,
        "percentequal"@,
        "less"@,
        "lessless"@,
        "lessequal"@,
        "lesslessequal"@,
        "spaceship"@,
        "greater"@,
        "greatergreater"@,
        "greaterequal"@,
        "greatergreaterequal"@,
        "caret"@,
        "caretequal"@,
        "pipe"@,
        "pipepipe"@,
        "pipeequal"@,
        "question"@,
        "colon"@,
        "semi"@,
        "equal"@,
        "equalequal"@,
        "comma"@,
        "hash"@,
        "hashhash"@,
        "hashat"@,
        "periodstar"@,
        "arrowstar"@,
        "coloncolon"@,
        "at"@,
        "lesslessless"@,
        "greatergreatergreater"@,
    ]
}

/// The name of a token as used within the front end.
///
/// The name of a token will be an internal name (such as "l_square") and
/// should not be used as part of diagnostic messages.
pub fn get_token_name(kind: TokenKind) -> (r: &'static str)
    ensures
        r@ == token_name(kind),
{
    match kind {
        TokenKind::Unknown => "unknown",
        TokenKind::Eof => "eof",
        TokenKind::Eod => "eod",
        TokenKind::CodeCompletion => "code_completion",
        TokenKind::Comment => "comment",
        TokenKind::Identifier => "identifier",
        TokenKind::RawIdentifier => "raw_identifier",
        TokenKind::NumericConstant => "numeric_constant",
        TokenKind::BinaryData => "binary_data",
        TokenKind::CharConstant => "char_constant",
        TokenKind::WideCharConstant => "wide_char_constant",
        TokenKind::Utf8CharConstant => "utf8_char_constant",
        TokenKind::Utf16CharConstant => "utf16_char_constant",
        TokenKind::Utf32CharConstant => "utf32_char_constant",
        TokenKind::StringLiteral => "string_literal",
        TokenKind::WideStringLiteral => "wide_string_literal",
        TokenKind::HeaderName => "header_name",
        TokenKind::Utf8StringLiteral => "utf8_string_literal",
        TokenKind::Utf16StringLiteral => "utf16_string_literal",
        TokenKind::Utf32StringLiteral => "utf32_string_literal",
        TokenKind::Lsquare => "l_square",
        TokenKind::Rsquare => "r_square",
        TokenKind::Lparen => "l_paren",
        TokenKind::Rparen => "r_paren",
        TokenKind::Lbrace => "l_brace",
        TokenKind::Rbrace => "r_brace",
        TokenKind::Period => "period",
        TokenKind::Ellipsis => "ellipsis",
        TokenKind::Amp => "amp",
        TokenKind::Ampamp => "ampamp",
        TokenKind::Ampequal => "ampequal",
        TokenKind::Star => "star",
        TokenKind::Starequal => "starequal",
        TokenKind::Plus => "plus",
        TokenKind::Plusplus => "plusplus",
        TokenKind::Plusequal => "plusequal",
        TokenKind::Minus => "minus",
        TokenKind::Arrow => "arrow",
        TokenKind::Minusminus => "minusminus",
        TokenKind::Minusequal => "minusequal",
        TokenKind::Tilde => "tilde",
        TokenKind::Exclaim => "exclaim",
        TokenKind::Exclaimequal => "exclaimequal",
        TokenKind::Slash => "slash",
        TokenKind::Slashequal => "slashequal",
        TokenKind::Percent => "percent",
        TokenKind::Percentequal => "percentequal",
        TokenKind::Less => "less",
        TokenKind::Lessless => "lessless",
        TokenKind::Lessequal => "lessequal",
        TokenKind::Lesslessequal => "lesslessequal",
        TokenKind::Spaceship => "spaceship",
        TokenKind::Greater => "greater",
        TokenKind::Greatergreater => "greatergreater",
        TokenKind::Greaterequal => "greaterequal",
        TokenKind::Greatergreaterequal => "greatergreaterequal",
        TokenKind::Caret => "caret",
        TokenKind::Caretequal => "caretequal",
        TokenKind::Pipe => "pipe",
        TokenKind::Pipepipe => "pipepipe",
        TokenKind::Pipeequal => "pipeequal",
        TokenKind::Question => "question",
        TokenKind::Colon => "colon",
        TokenKind::Semi => "semi",
        TokenKind::Equal => "equal",
        TokenKind::Equalequal => "equalequal",
        TokenKind::Comma => "comma",
        TokenKind::Hash => "hash",
        TokenKind::Hashhash => "hashhash",
        TokenKind::Hashat => "hashat",
        TokenKind::Periodstar => "periodstar",
        TokenKind::Arrowstar => "arrowstar",
        TokenKind::Coloncolon => "coloncolon",
        TokenKind::At => "at",
        TokenKind::Lesslessless => "lesslessless",
        TokenKind::Greatergreatergreater => "greatergreatergreater",
    }
}

/// The table and the enumeration agree: the table has one entry per token
/// kind, entry `token_ordinal(k)` is `token_name(k)`, the numbering is
/// injective, and every index of the table is the ordinal of some kind.
pub proof fn lemma_name_table_parity()
    ensures
        token_name_table().len() == NUM_TOKEN_KINDS as int,
        forall|k: TokenKind| 0 <= #[trigger] token_ordinal(k) < NUM_TOKEN_KINDS as int,
        forall|k: TokenKind| token_name_table()[#[trigger] token_ordinal(k)] == token_name(k),
        forall|k1: TokenKind, k2: TokenKind|
            #[trigger] token_ordinal(k1) == #[trigger] token_ordinal(k2) ==> k1 == k2,
        forall|i: int| 0 <= i < NUM_TOKEN_KINDS as int ==> token_ordinal(#[trigger] kind_with_ordinal(i)) == i,
{
    assert forall|k: TokenKind| 0 <= #[trigger] token_ordinal(k) < NUM_TOKEN_KINDS as int by {
        lemma_token_ordinal_in_range(k);
    }
    assert forall|k: TokenKind| token_name_table()[#[trigger] token_ordinal(k)] == token_name(k) by {
        lemma_token_name_at_ordinal(k);
    }
    assert forall|k1: TokenKind, k2: TokenKind|
        #[trigger] token_ordinal(k1) == #[trigger] token_ordinal(k2) implies k1 == k2 by {
        lemma_token_ordinal_injective(k1, k2);
    }
    assert forall|i: int| 0 <= i < NUM_TOKEN_KINDS as int implies token_ordinal(#[trigger] kind_with_ordinal(i)) == i by {
        lemma_token_ordinal_inverse(i);
    }
}

/// Entry `token_ordinal(k)` of the name table is exactly `token_name(k)`.
pub proof fn lemma_token_name_at_ordinal(k: TokenKind)
    ensures
        token_name_table()[token_ordinal(k)] == token_name(k),
{
}

/// No token kind has an empty diagnostic name.
pub proof fn lemma_token_names_nonempty(k: TokenKind)
    ensures
        token_name(k).len() > 0,
{
    reveal_strlit("unknown");
    reveal_strlit("eof");
    reveal_strlit("eod");
    reveal_strlit("code_completion");
    reveal_strlit("comment");
    reveal_strlit("identifier");
    reveal_strlit("raw_identifier");
    reveal_strlit("numeric_constant");
    reveal_strlit("binary_data");
    reveal_strlit("char_constant");
    reveal_strlit("wide_char_constant");
    reveal_strlit("utf8_char_constant");
    reveal_strlit("utf16_char_constant");
    reveal_strlit("utf32_char_constant");
    reveal_strlit("string_literal");
    reveal_strlit("wide_string_literal");
    reveal_strlit("header_name");
    reveal_strlit("utf8_string_literal");
    reveal_strlit("utf16_string_literal");
    reveal_strlit("utf32_string_literal");
    reveal_strlit("l_square");
    reveal_strlit("r_square");
    reveal_strlit("l_paren");
    reveal_strlit("r_paren");
    reveal_strlit("l_brace");
    reveal_strlit("r_brace");
    reveal_strlit("period");
    reveal_strlit("ellipsis");
    reveal_strlit("amp");
    reveal_strlit("ampamp");
    reveal_strlit("ampequal");
    reveal_strlit("star");
    reveal_strlit("starequal");
    reveal_strlit("plus");
    reveal_strlit("plusplus");
    reveal_strlit("plusequal");
    reveal_strlit("minus");
    reveal_strlit("arrow");
    reveal_strlit("minusminus");
    reveal_strlit("minusequal");
    reveal_strlit("tilde");
    reveal_strlit("exclaim");
    reveal_strlit("exclaimequal");
    reveal_strlit("slash");
    reveal_strlit("slashequal");
    reveal_strlit("percent");
    reveal_strlit("percentequal");
    reveal_strlit("less");
    reveal_strlit("lessless");
    reveal_strlit("lessequal");
    reveal_strlit("lesslessequal");
    reveal_strlit("spaceship");
    reveal_strlit("greater");
    reveal_strlit("greatergreater");
    reveal_strlit("greaterequal");
    reveal_strlit("greatergreaterequal");
    reveal_strlit("caret");
    reveal_strlit("caretequal");
    reveal_strlit("pipe");
    reveal_strlit("pipepipe");
    reveal_strlit("pipeequal");
    reveal_strlit("question");
    reveal_strlit("colon");
    reveal_strlit("semi");
    reveal_strlit("equal");
    reveal_strlit("equalequal");
    reveal_strlit("comma");
    reveal_strlit("hash");
    reveal_strlit("hashhash");
    reveal_strlit("hashat");
    reveal_strlit("periodstar");
    reveal_strlit("arrowstar");
    reveal_strlit("coloncolon");
    reveal_strlit("at");
    reveal_strlit("lesslessless");
    reveal_strlit("greatergreatergreater");
}

/// No two token kinds share a diagnostic name.
///
/// Two revealed literals are told apart by their lengths or by a character
/// where they differ, so the proof states the length and every character of
/// every name; each pair of distinct names is then refuted by one of these
/// facts.
pub proof fn lemma_token_names_distinct(k1: TokenKind, k2: TokenKind)
    requires
        k1 != k2,
    ensures
        token_name(k1) != token_name(k2),
{
    reveal_strlit("unknown");
    reveal_strlit("eof");
    reveal_strlit("eod");
    reveal_strlit("code_completion");
    reveal_strlit("comment");
    reveal_strlit("identifier");
    reveal_strlit("raw_identifier");
    reveal_strlit("numeric_constant");
    reveal_strlit("binary_data");
    reveal_strlit("char_constant");
    reveal_strlit("wide_char_constant");
    reveal_strlit("utf8_char_constant");
    reveal_strlit("utf16_char_constant");
    reveal_strlit("utf32_char_constant");
    reveal_strlit("string_literal");
    reveal_strlit("wide_string_literal");
    reveal_strlit("header_name");
    reveal_strlit("utf8_string_literal");
    reveal_strlit("utf16_string_literal");
    reveal_strlit("utf32_string_literal");
    reveal_strlit("l_square");
    reveal_strlit("r_square");
    reveal_strlit("l_paren");
    reveal_strlit("r_paren");
    reveal_strlit("l_brace");
    reveal_strlit("r_brace");
    reveal_strlit("period");
    reveal_strlit("ellipsis");
    reveal_strlit("amp");
    reveal_strlit("ampamp");
    reveal_strlit("ampequal");
    reveal_strlit("star");
    reveal_strlit("starequal");
    reveal_strlit("plus");
    reveal_strlit("plusplus");
    reveal_strlit("plusequal");
    reveal_strlit("minus");
    reveal_strlit("arrow");
    reveal_strlit("minusminus");
    reveal_strlit("minusequal");
    reveal_strlit("tilde");
    reveal_strlit("exclaim");
    reveal_strlit("exclaimequal");
    reveal_strlit("slash");
    reveal_strlit("slashequal");
    reveal_strlit("percent");
    reveal_strlit("percentequal");
    reveal_strlit("less");
    reveal_strlit("lessless");
    reveal_strlit("lessequal");
    reveal_strlit("lesslessequal");
    reveal_strlit("spaceship");
    reveal_strlit("greater");
    reveal_strlit("greatergreater");
    reveal_strlit("greaterequal");
    reveal_strlit("greatergreaterequal");
    reveal_strlit("caret");
    reveal_strlit("caretequal");
    reveal_strlit("pipe");
    reveal_strlit("pipepipe");
    reveal_strlit("pipeequal");
    reveal_strlit("question");
    reveal_strlit("colon");
    reveal_strlit("semi");
    reveal_strlit("equal");
    reveal_strlit("equalequal");
    reveal_strlit("comma");
    reveal_strlit("hash");
    reveal_strlit("hashhash");
    reveal_strlit("hashat");
    reveal_strlit("periodstar");
    reveal_strlit("arrowstar");
    reveal_strlit("coloncolon");
    reveal_strlit("at");
    reveal_strlit("lesslessless");
    reveal_strlit("greatergreatergreater");
    assert("unknown"@.len() == 7);
    assert("eof"@.len() == 3);
    assert("eod"@.len() == 3);
    assert("code_completion"@.len() == 15);
    assert("comment"@.len() == 7);
    assert("identifier"@.len() == 10);
    assert("raw_identifier"@.len() == 14);
    assert("numeric_constant"@.len() == 16);
    assert("binary_data"@.len() == 11);
    assert("char_constant"@.len() == 13);
    assert("wide_char_constant"@.len() == 18);
    assert("utf8_char_constant"@.len() == 18);
    assert("utf16_char_constant"@.len() == 19);
    assert("utf32_char_constant"@.len() == 19);
    assert("string_literal"@.len() == 14);
    assert("wide_string_literal"@.len() == 19);
    assert("header_name"@.len() == 11);
    assert("utf8_string_literal"@.len() == 19);
    assert("utf16_string_literal"@.len() == 20);
    assert("utf32_string_literal"@.len() == 20);
    assert("l_square"@.len() == 8);
    assert("r_square"@.len() == 8);
    assert("l_paren"@.len() == 7);
    assert("r_paren"@.len() == 7);
    assert("l_brace"@.len() == 7);
    assert("r_brace"@.len() == 7);
    assert("period"@.len() == 6);
    assert("ellipsis"@.len() == 8);
    assert("amp"@.len() == 3);
    assert("ampamp"@.len() == 6);
    assert("ampequal"@.len() == 8);
    assert("star"@.len() == 4);
    assert("starequal"@.len() == 9);
    assert("plus"@.len() == 4);
    assert("plusplus"@.len() == 8);
    assert("plusequal"@.len() == 9);
    assert("minus"@.len() == 5);
    assert("arrow"@.len() == 5);
    assert("minusminus"@.len() == 10);
    assert("minusequal"@.len() == 10);
    assert("tilde"@.len() == 5);
    assert("exclaim"@.len() == 7);
    assert("exclaimequal"@.len() == 12);
    assert("slash"@.len() == 5);
    assert("slashequal"@.len() == 10);
    assert("percent"@.len() == 7);
    assert("percentequal"@.len() == 12);
    assert("less"@.len() == 4);
    assert("lessless"@.len() == 8);
    assert("lessequal"@.len() == 9);
    assert("lesslessequal"@.len() == 13);
    assert("spaceship"@.len() == 9);
    assert("greater"@.len() == 7);
    assert("greatergreater"@.len() == 14);
    assert("greaterequal"@.len() == 12);
    assert("greatergreaterequal"@.len() == 19);
    assert("caret"@.len() == 5);
    assert("caretequal"@.len() == 10);
    assert("pipe"@.len() == 4);
    assert("pipepipe"@.len() == 8);
    assert("pipeequal"@.len() == 9);
    assert("question"@.len() == 8);
    assert("colon"@.len() == 5);
    assert("semi"@.len() == 4);
    assert("equal"@.len() == 5);
    assert("equalequal"@.len() == 10);
    assert("comma"@.len() == 5);
    assert("hash"@.len() == 4);
    assert("hashhash"@.len() == 8);
    assert("hashat"@.len() == 6);
    assert("periodstar"@.len() == 10);
    assert("arrowstar"@.len() == 9);
    assert("coloncolon"@.len() == 10);
    assert("at"@.len() == 2);
    assert("lesslessless"@.len() == 12);
    assert("greatergreatergreater"@.len() == 21);
    assert("unknown"@[0] == 'u');
    assert("unknown"@[1] == 'n');
    assert("unknown"@[2] == 'k');
    assert("unknown"@[3] == 'n');
    assert("unknown"@[4] == 'o');
    assert("unknown"@[5] == 'w');
    assert("unknown"@[6] == 'n');
    assert("eof"@[0] == 'e');
    assert("eof"@[1] == 'o');
    assert("eof"@[2] == 'f');
    assert("eod"@[0] == 'e');
    assert("eod"@[1] == 'o');
    assert("eod"@[2] == 'd');
    assert("code_completion"@[0] == 'c');
    assert("code_completion"@[1] == 'o');
    assert("code_completion"@[2] == 'd');
    assert("code_completion"@[3] == 'e');
    assert("code_completion"@[4] == '_');
    assert("code_completion"@[5] == 'c');
    assert("code_completion"@[6] == 'o');
    assert("code_completion"@[7] == 'm');
    assert("code_completion"@[8] == 'p');
    assert("code_completion"@[9] == 'l');
    assert("code_completion"@[10] == 'e');
    assert("code_completion"@[11] == 't');
    assert("code_completion"@[12] == 'i');
    assert("code_completion"@[13] == 'o');
    assert("code_completion"@[14] == 'n');
    assert("comment"@[0] == 'c');
    assert("comment"@[1] == 'o');
    assert("comment"@[2] == 'm');
    assert("comment"@[3] == 'm');
    assert("comment"@[4] == 'e');
    assert("comment"@[5] == 'n');
    assert("comment"@[6] == 't');
    assert("identifier"@[0] == 'i');
    assert("identifier"@[1] == 'd');
    assert("identifier"@[2] == 'e');
    assert("identifier"@[3] == 'n');
    assert("identifier"@[4] == 't');
    assert("identifier"@[5] == 'i');
    assert("identifier"@[6] == 'f');
    assert("identifier"@[7] == 'i');
    assert("identifier"@[8] == 'e');
    assert("identifier"@[9] == 'r');
    assert("raw_identifier"@[0] == 'r');
    assert("raw_identifier"@[1] == 'a');
    assert("raw_identifier"@[2] == 'w');
    assert("raw_identifier"@[3] == '_');
    assert("raw_identifier"@[4] == 'i');
    assert("raw_identifier"@[5] == 'd');
    assert("raw_identifier"@[6] == 'e');
    assert("raw_identifier"@[7] == 'n');
    assert("raw_identifier"@[8] == 't');
    assert("raw_identifier"@[9] == 'i');
    assert("raw_identifier"@[10] == 'f');
    assert("raw_identifier"@[11] == 'i');
    assert("raw_identifier"@[12] == 'e');
    assert("raw_identifier"@[13] == 'r');
    assert("numeric_constant"@[0] == 'n');
    assert("numeric_constant"@[1] == 'u');
    assert("numeric_constant"@[2] == 'm');
    assert("numeric_constant"@[3] == 'e');
    assert("numeric_constant"@[4] == 'r');
    assert("numeric_constant"@[5] == 'i');
    assert("numeric_constant"@[6] == 'c');
    assert("numeric_constant"@[7] == '_');
    assert("numeric_constant"@[8] == 'c');
    assert("numeric_constant"@[9] == 'o');
    assert("numeric_constant"@[10] == 'n');
    assert("numeric_constant"@[11] == 's');
    assert("numeric_constant"@[12] == 't');
    assert("numeric_constant"@[13] == 'a');
    assert("numeric_constant"@[14] == 'n');
    assert("numeric_constant"@[15] == 't');
    assert("binary_data"@[0] == 'b');
    assert("binary_data"@[1] == 'i');
    assert("binary_data"@[2] == 'n');
    assert("binary_data"@[3] == 'a');
    assert("binary_data"@[4] == 'r');
    assert("binary_data"@[5] == 'y');
    assert("binary_data"@[6] == '_');
    assert("binary_data"@[7] == 'd');
    assert("binary_data"@[8] == 'a');
    assert("binary_data"@[9] == 't');
    assert("binary_data"@[10] == 'a');
    assert("char_constant"@[0] == 'c');
    assert("char_constant"@[1] == 'h');
    assert("char_constant"@[2] == 'a');
    assert("char_constant"@[3] == 'r');
    assert("char_constant"@[4] == '_');
    assert("char_constant"@[5] == 'c');
    assert("char_constant"@[6] == 'o');
    assert("char_constant"@[7] == 'n');
    assert("char_constant"@[8] == 's');
    assert("char_constant"@[9] == 't');
    assert("char_constant"@[10] == 'a');
    assert("char_constant"@[11] == 'n');
    assert("char_constant"@[12] == 't');
    assert("wide_char_constant"@[0] == 'w');
    assert("wide_char_constant"@[1] == 'i');
    assert("wide_char_constant"@[2] == 'd');
    assert("wide_char_constant"@[3] == 'e');
    assert("wide_char_constant"@[4] == '_');
    assert("wide_char_constant"@[5] == 'c');
    assert("wide_char_constant"@[6] == 'h');
    assert("wide_char_constant"@[7] == 'a');
    assert("wide_char_constant"@[8] == 'r');
    assert("wide_char_constant"@[9] == '_');
    assert("wide_char_constant"@[10] == 'c');
    assert("wide_char_constant"@[11] == 'o');
    assert("wide_char_constant"@[12] == 'n');
    assert("wide_char_constant"@[13] == 's');
    assert("wide_char_constant"@[14] == 't');
    assert("wide_char_constant"@[15] == 'a');
    assert("wide_char_constant"@[16] == 'n');
    assert("wide_char_constant"@[17] == 't');
    assert("utf8_char_constant"@[0] == 'u');
    assert("utf8_char_constant"@[1] == 't');
    assert("utf8_char_constant"@[2] == 'f');
    assert("utf8_char_constant"@[3] == '8');
    assert("utf8_char_constant"@[4] == '_');
    assert("utf8_char_constant"@[5] == 'c');
    assert("utf8_char_constant"@[6] == 'h');
    assert("utf8_char_constant"@[7] == 'a');
    assert("utf8_char_constant"@[8] == 'r');
    assert("utf8_char_constant"@[9] == '_');
    assert("utf8_char_constant"@[10] == 'c');
    assert("utf8_char_constant"@[11] == 'o');
    assert("utf8_char_constant"@[12] == 'n');
    assert("utf8_char_constant"@[13] == 's');
    assert("utf8_char_constant"@[14] == 't');
    assert("utf8_char_constant"@[15] == 'a');
    assert("utf8_char_constant"@[16] == 'n');
    assert("utf8_char_constant"@[17] == 't');
    assert("utf16_char_constant"@[0] == 'u');
    assert("utf16_char_constant"@[1] == 't');
    assert("utf16_char_constant"@[2] == 'f');
    assert("utf16_char_constant"@[3] == '1');
    assert("utf16_char_constant"@[4] == '6');
    assert("utf16_char_constant"@[5] == '_');
    assert("utf16_char_constant"@[6] == 'c');
    assert("utf16_char_constant"@[7] == 'h');
    assert("utf16_char_constant"@[8] == 'a');
    assert("utf16_char_constant"@[9] == 'r');
    assert("utf16_char_constant"@[10] == '_');
    assert("utf16_char_constant"@[11] == 'c');
    assert("utf16_char_constant"@[12] == 'o');
    assert("utf16_char_constant"@[13] == 'n');
    assert("utf16_char_constant"@[14] == 's');
    assert("utf16_char_constant"@[15] == 't');
    assert("utf16_char_constant"@[16] == 'a');
    assert("utf16_char_constant"@[17] == 'n');
    assert("utf16_char_constant"@[18] == 't');
    assert("utf32_char_constant"@[0] == 'u');
    assert("utf32_char_constant"@[1] == 't');
    assert("utf32_char_constant"@[2] == 'f');
    assert("utf32_char_constant"@[3] == '3');
    assert("utf32_char_constant"@[4] == '2');
    assert("utf32_char_constant"@[5] == '_');
    assert("utf32_char_constant"@[6] == 'c');
    assert("utf32_char_constant"@[7] == 'h');
    assert("utf32_char_constant"@[8] == 'a');
    assert("utf32_char_constant"@[9] == 'r');
    assert("utf32_char_constant"@[10] == '_');
    assert("utf32_char_constant"@[11] == 'c');
    assert("utf32_char_constant"@[12] == 'o');
    assert("utf32_char_constant"@[13] == 'n');
    assert("utf32_char_constant"@[14] == 's');
    assert("utf32_char_constant"@[15] == 't');
    assert("utf32_char_constant"@[16] == 'a');
    assert("utf32_char_constant"@[17] == 'n');
    assert("utf32_char_constant"@[18] == 't');
    assert("string_literal"@[0] == 's');
    assert("string_literal"@[1] == 't');
    assert("string_literal"@[2] == 'r');
    assert("string_literal"@[3] == 'i');
    assert("string_literal"@[4] == 'n');
    assert("string_literal"@[5] == 'g');
    assert("string_literal"@[6] == '_');
    assert("string_literal"@[7] == 'l');
    assert("string_literal"@[8] == 'i');
    assert("string_literal"@[9] == 't');
    assert("string_literal"@[10] == 'e');
    assert("string_literal"@[11] == 'r');
    assert("string_literal"@[12] == 'a');
    assert("string_literal"@[13] == 'l');
    assert("wide_string_literal"@[0] == 'w');
    assert("wide_string_literal"@[1] == 'i');
    assert("wide_string_literal"@[2] == 'd');
    assert("wide_string_literal"@[3] == 'e');
    assert("wide_string_literal"@[4] == '_');
    assert("wide_string_literal"@[5] == 's');
    assert("wide_string_literal"@[6] == 't');
    assert("wide_string_literal"@[7] == 'r');
    assert("wide_string_literal"@[8] == 'i');
    assert("wide_string_literal"@[9] == 'n');
    assert("wide_string_literal"@[10] == 'g');
    assert("wide_string_literal"@[11] == '_');
    assert("wide_string_literal"@[12] == 'l');
    assert("wide_string_literal"@[13] == 'i');
    assert("wide_string_literal"@[14] == 't');
    assert("wide_string_literal"@[15] == 'e');
    assert("wide_string_literal"@[16] == 'r');
    assert("wide_string_literal"@[17] == 'a');
    assert("wide_string_literal"@[18] == 'l');
    assert("header_name"@[0] == 'h');
    assert("header_name"@[1] == 'e');
    assert("header_name"@[2] == 'a');
    assert("header_name"@[3] == 'd');
    assert("header_name"@[4] == 'e');
    assert("header_name"@[5] == 'r');
    assert("header_name"@[6] == '_');
    assert("header_name"@[7] == 'n');
    assert("header_name"@[8] == 'a');
    assert("header_name"@[9] == 'm');
    assert("header_name"@[10] == 'e');
    assert("utf8_string_literal"@[0] == 'u');
    assert("utf8_string_literal"@[1] == 't');
    assert("utf8_string_literal"@[2] == 'f');
    assert("utf8_string_literal"@[3] == '8');
    assert("utf8_string_literal"@[4] == '_');
    assert("utf8_string_literal"@[5] == 's');
    assert("utf8_string_literal"@[6] == 't');
    assert("utf8_string_literal"@[7] == 'r');
    assert("utf8_string_literal"@[8] == 'i');
    assert("utf8_string_literal"@[9] == 'n');
    assert("utf8_string_literal"@[10] == 'g');
    assert("utf8_string_literal"@[11] == '_');
    assert("utf8_string_literal"@[12] == 'l');
    assert("utf8_string_literal"@[13] == 'i');
    assert("utf8_string_literal"@[14] == 't');
    assert("utf8_string_literal"@[15] == 'e');
    assert("utf8_string_literal"@[16] == 'r');
    assert("utf8_string_literal"@[17] == 'a');
    assert("utf8_string_literal"@[18] == 'l');
    assert("utf16_string_literal"@[0] == 'u');
    assert("utf16_string_literal"@[1] == 't');
    assert("utf16_string_literal"@[2] == 'f');
    assert("utf16_string_literal"@[3] == '1');
    assert("utf16_string_literal"@[4] == '6');
    assert("utf16_string_literal"@[5] == '_');
    assert("utf16_string_literal"@[6] == 's');
    assert("utf16_string_literal"@[7] == 't');
    assert("utf16_string_literal"@[8] == 'r');
    assert("utf16_string_literal"@[9] == 'i');
    assert("utf16_string_literal"@[10] == 'n');
    assert("utf16_string_literal"@[11] == 'g');
    assert("utf16_string_literal"@[12] == '_');
    assert("utf16_string_literal"@[13] == 'l');
    assert("utf16_string_literal"@[14] == 'i');
    assert("utf16_string_literal"@[15] == 't');
    assert("utf16_string_literal"@[16] == 'e');
    assert("utf16_string_literal"@[17] == 'r');
    assert("utf16_string_literal"@[18] == 'a');
    assert("utf16_string_literal"@[19] == 'l');
    assert("utf32_string_literal"@[0] == 'u');
    assert("utf32_string_literal"@[1] == 't');
    assert("utf32_string_literal"@[2] == 'f');
    assert("utf32_string_literal"@[3] == '3');
    assert("utf32_string_literal"@[4] == '2');
    assert("utf32_string_literal"@[5] == '_');
    assert("utf32_string_literal"@[6] == 's');
    assert("utf32_string_literal"@[7] == 't');
    assert("utf32_string_literal"@[8] == 'r');
    assert("utf32_string_literal"@[9] == 'i');
    assert("utf32_string_literal"@[10] == 'n');
    assert("utf32_string_literal"@[11] == 'g');
    assert("utf32_string_literal"@[12] == '_');
    assert("utf32_string_literal"@[13] == 'l');
    assert("utf32_string_literal"@[14] == 'i');
    assert("utf32_string_literal"@[15] == 't');
    assert("utf32_string_literal"@[16] == 'e');
    assert("utf32_string_literal"@[17] == 'r');
    assert("utf32_string_literal"@[18] == 'a');
    assert("utf32_string_literal"@[19] == 'l');
    assert("l_square"@[0] == 'l');
    assert("l_square"@[1] == '_');
    assert("l_square"@[2] == 's');
    assert("l_square"@[3] == 'q');
    assert("l_square"@[4] == 'u');
    assert("l_square"@[5] == 'a');
    assert("l_square"@[6] == 'r');
    assert("l_square"@[7] == 'e');
    assert("r_square"@[0] == 'r');
    assert("r_square"@[1] == '_');
    assert("r_square"@[2] == 's');
    assert("r_square"@[3] == 'q');
    assert("r_square"@[4] == 'u');
    assert("r_square"@[5] == 'a');
    assert("r_square"@[6] == 'r');
    assert("r_square"@[7] == 'e');
    assert("l_paren"@[0] == 'l');
    assert("l_paren"@[1] == '_');
    assert("l_paren"@[2] == 'p');
    assert("l_paren"@[3] == 'a');
    assert("l_paren"@[4] == 'r');
    assert("l_paren"@[5] == 'e');
    assert("l_paren"@[6] == 'n');
    assert("r_paren"@[0] == 'r');
    assert("r_paren"@[1] == '_');
    assert("r_paren"@[2] == 'p');
    assert("r_paren"@[3] == 'a');
    assert("r_paren"@[4] == 'r');
    assert("r_paren"@[5] == 'e');
    assert("r_paren"@[6] == 'n');
    assert("l_brace"@[0] == 'l');
    assert("l_brace"@[1] == '_');
    assert("l_brace"@[2] == 'b');
    assert("l_brace"@[3] == 'r');
    assert("l_brace"@[4] == 'a');
    assert("l_brace"@[5] == 'c');
    assert("l_brace"@[6] == 'e');
    assert("r_brace"@[0] == 'r');
    assert("r_brace"@[1] == '_');
    assert("r_brace"@[2] == 'b');
    assert("r_brace"@[3] == 'r');
    assert("r_brace"@[4] == 'a');
    assert("r_brace"@[5] == 'c');
    assert("r_brace"@[6] == 'e');
    assert("period"@[0] == 'p');
    assert("period"@[1] == 'e');
    assert("period"@[2] == 'r');
    assert("period"@[3] == 'i');
    assert("period"@[4] == 'o');
    assert("period"@[5] == 'd');
    assert("ellipsis"@[0] == 'e');
    assert("ellipsis"@[1] == 'l');
    assert("ellipsis"@[2] == 'l');
    assert("ellipsis"@[3] == 'i');
    assert("ellipsis"@[4] == 'p');
    assert("ellipsis"@[5] == 's');
    assert("ellipsis"@[6] == 'i');
    assert("ellipsis"@[7] == 's');
    assert("amp"@[0] == 'a');
    assert("amp"@[1] == 'm');
    assert("amp"@[2] == 'p');
    assert("ampamp"@[0] == 'a');
    assert("ampamp"@[1] == 'm');
    assert("ampamp"@[2] == 'p');
    assert("ampamp"@[3] == 'a');
    assert("ampamp"@[4] == 'm');
    assert("ampamp"@[5] == 'p');
    assert("ampequal"@[0] == 'a');
    assert("ampequal"@[1] == 'm');
    assert("ampequal"@[2] == 'p');
    assert("ampequal"@[3] == 'e');
    assert("ampequal"@[4] == 'q');
    assert("ampequal"@[5] == 'u');
    assert("ampequal"@[6] == 'a');
    assert("ampequal"@[7] == 'l');
    assert("star"@[0] == 's');
    assert("star"@[1] == 't');
    assert("star"@[2] == 'a');
    assert("star"@[3] == 'r');
    assert("starequal"@[0] == 's');
    assert("starequal"@[1] == 't');
    assert("starequal"@[2] == 'a');
    assert("starequal"@[3] == 'r');
    assert("starequal"@[4] == 'e');
    assert("starequal"@[5] == 'q');
    assert("starequal"@[6] == 'u');
    assert("starequal"@[7] == 'a');
    assert("starequal"@[8] == 'l');
    assert("plus"@[0] == 'p');
    assert("plus"@[1] == 'l');
    assert("plus"@[2] == 'u');
    assert("plus"@[3] == 's');
    assert("plusplus"@[0] == 'p');
    assert("plusplus"@[1] == 'l');
    assert("plusplus"@[2] == 'u');
    assert("plusplus"@[3] == 's');
    assert("plusplus"@[4] == 'p');
    assert("plusplus"@[5] == 'l');
    assert("plusplus"@[6] == 'u');
    assert("plusplus"@[7] == 's');
    assert("plusequal"@[0] == 'p');
    assert("plusequal"@[1] == 'l');
    assert("plusequal"@[2] == 'u');
    assert("plusequal"@[3] == 's');
    assert("plusequal"@[4] == 'e');
    assert("plusequal"@[5] == 'q');
    assert("plusequal"@[6] == 'u');
    assert("plusequal"@[7] == 'a');
    assert("plusequal"@[8] == 'l');
    assert("minus"@[0] == 'm');
    assert("minus"@[1] == 'i');
    assert("minus"@[2] == 'n');
    assert("minus"@[3] == 'u');
    assert("minus"@[4] == 's');
    assert("arrow"@[0] == 'a');
    assert("arrow"@[1] == 'r');
    assert("arrow"@[2] == 'r');
    assert("arrow"@[3] == 'o');
    assert("arrow"@[4] == 'w');
    assert("minusminus"@[0] == 'm');
    assert("minusminus"@[1] == 'i');
    assert("minusminus"@[2] == 'n');
    assert("minusminus"@[3] == 'u');
    assert("minusminus"@[4] == 's');
    assert("minusminus"@[5] == 'm');
    assert("minusminus"@[6] == 'i');
    assert("minusminus"@[7] == 'n');
    assert("minusminus"@[8] == 'u');
    assert("minusminus"@[9] == 's');
    assert("minusequal"@[0] == 'm');
    assert("minusequal"@[1] == 'i');
    assert("minusequal"@[2] == 'n');
    assert("minusequal"@[3] == 'u');
    assert("minusequal"@[4] == 's');
    assert("minusequal"@[5] == 'e');
    assert("minusequal"@[6] == 'q');
    assert("minusequal"@[7] == 'u');
    assert("minusequal"@[8] == 'a');
    assert("minusequal"@[9] == 'l');
    assert("tilde"@[0] == 't');
    assert("tilde"@[1] == 'i');
    assert("tilde"@[2] == 'l');
    assert("tilde"@[3] == 'd');
    assert("tilde"@[4] == 'e');
    assert("exclaim"@[0] == 'e');
    assert("exclaim"@[1] == 'x');
    assert("exclaim"@[2] == 'c');
    assert("exclaim"@[3] == 'l');
    assert("exclaim"@[4] == 'a');
    assert("exclaim"@[5] == 'i');
    assert("exclaim"@[6] == 'm');
    assert("exclaimequal"@[0] == 'e');
    assert("exclaimequal"@[1] == 'x');
    assert("exclaimequal"@[2] == 'c');
    assert("exclaimequal"@[3] == 'l');
    assert("exclaimequal"@[4] == 'a');
    assert("exclaimequal"@[5] == 'i');
    assert("exclaimequal"@[6] == 'm');
    assert("exclaimequal"@[7] == 'e');
    assert("exclaimequal"@[8] == 'q');
    assert("exclaimequal"@[9] == 'u');
    assert("exclaimequal"@[10] == 'a');
    assert("exclaimequal"@[11] == 'l');
    assert("slash"@[0] == 's');
    assert("slash"@[1] == 'l');
    assert("slash"@[2] == 'a');
    assert("slash"@[3] == 's');
    assert("slash"@[4] == 'h');
    assert("slashequal"@[0] == 's');
    assert("slashequal"@[1] == 'l');
    assert("slashequal"@[2] == 'a');
    assert("slashequal"@[3] == 's');
    assert("slashequal"@[4] == 'h');
    assert("slashequal"@[5] == 'e');
    assert("slashequal"@[6] == 'q');
    assert("slashequal"@[7] == 'u');
    assert("slashequal"@[8] == 'a');
    assert("slashequal"@[9] == 'l');
    assert("percent"@[0] == 'p');
    assert("percent"@[1] == 'e');
    assert("percent"@[2] == 'r');
    assert("percent"@[3] == 'c');
    assert("percent"@[4] == 'e');
    assert("percent"@[5] == 'n');
    assert("percent"@[6] == 't');
    assert("percentequal"@[0] == 'p');
    assert("percentequal"@[1] == 'e');
    assert("percentequal"@[2] == 'r');
    assert("percentequal"@[3] == 'c');
    assert("percentequal"@[4] == 'e');
    assert("percentequal"@[5] == 'n');
    assert("percentequal"@[6] == 't');
    assert("percentequal"@[7] == 'e');
    assert("percentequal"@[8] == 'q');
    assert("percentequal"@[9] == 'u');
    assert("percentequal"@[10] == 'a');
    assert("percentequal"@[11] == 'l');
    assert("less"@[0] == 'l');
    assert("less"@[1] == 'e');
    assert("less"@[2] == 's');
    assert("less"@[3] == 's');
    assert("lessless"@[0] == 'l');
    assert("lessless"@[1] == 'e');
    assert("lessless"@[2] == 's');
    assert("lessless"@[3] == 's');
    assert("lessless"@[4] == 'l');
    assert("lessless"@[5] == 'e');
    assert("lessless"@[6] == 's');
    assert("lessless"@[7] == 's');
    assert("lessequal"@[0] == 'l');
    assert("lessequal"@[1] == 'e');
    assert("lessequal"@[2] == 's');
    assert("lessequal"@[3] == 's');
    assert("lessequal"@[4] == 'e');
    assert("lessequal"@[5] == 'q');
    assert("lessequal"@[6] == 'u');
    assert("lessequal"@[7] == 'a');
    assert("lessequal"@[8] == 'l');
    assert("lesslessequal"@[0] == 'l');
    assert("lesslessequal"@[1] == 'e');
    assert("lesslessequal"@[2] == 's');
    assert("lesslessequal"@[3] == 's');
    assert("lesslessequal"@[4] == 'l');
    assert("lesslessequal"@[5] == 'e');
    assert("lesslessequal"@[6] == 's');
    assert("lesslessequal"@[7] == 's');
    assert("lesslessequal"@[8] == 'e');
    assert("lesslessequal"@[9] == 'q');
    assert("lesslessequal"@[10] == 'u');
    assert("lesslessequal"@[11] == 'a');
    assert("lesslessequal"@[12] == 'l');
    assert("spaceship"@[0] == 's');
    assert("spaceship"@[1] == 'p');
    assert("spaceship"@[2] == 'a');
    assert("spaceship"@[3] == 'c');
    assert("spaceship"@[4] == 'e');
    assert("spaceship"@[5] == 's');
    assert("spaceship"@[6] == 'h');
    assert("spaceship"@[7] == 'i');
    assert("spaceship"@[8] == 'p');
    assert("greater"@[0] == 'g');
    assert("greater"@[1] == 'r');
    assert("greater"@[2] == 'e');
    assert("greater"@[3] == 'a');
    assert("greater"@[4] == 't');
    assert("greater"@[5] == 'e');
    assert("greater"@[6] == 'r');
    assert("greatergreater"@[0] == 'g');
    assert("greatergreater"@[1] == 'r');
    assert("greatergreater"@[2] == 'e');
    assert("greatergreater"@[3] == 'a');
    assert("greatergreater"@[4] == 't');
    assert("greatergreater"@[5] == 'e');
    assert("greatergreater"@[6] == 'r');
    assert("greatergreater"@[7] == 'g');
    assert("greatergreater"@[8] == 'r');
    assert("greatergreater"@[9] == 'e');
    assert("greatergreater"@[10] == 'a');
    assert("greatergreater"@[11] == 't');
    assert("greatergreater"@[12] == 'e');
    assert("greatergreater"@[13] == 'r');
    assert("greaterequal"@[0] == 'g');
    assert("greaterequal"@[1] == 'r');
    assert("greaterequal"@[2] == 'e');
    assert("greaterequal"@[3] == 'a');
    assert("greaterequal"@[4] == 't');
    assert("greaterequal"@[5] == 'e');
    assert("greaterequal"@[6] == 'r');
    assert("greaterequal"@[7] == 'e');
    assert("greaterequal"@[8] == 'q');
    assert("greaterequal"@[9] == 'u');
    assert("greaterequal"@[10] == 'a');
    assert("greaterequal"@[11] == 'l');
    assert("greatergreaterequal"@[0] == 'g');
    assert("greatergreaterequal"@[1] == 'r');
    assert("greatergreaterequal"@[2] == 'e');
    assert("greatergreaterequal"@[3] == 'a');
    assert("greatergreaterequal"@[4] == 't');
    assert("greatergreaterequal"@[5] == 'e');
    assert("greatergreaterequal"@[6] == 'r');
    assert("greatergreaterequal"@[7] == 'g');
    assert("greatergreaterequal"@[8] == 'r');
    assert("greatergreaterequal"@[9] == 'e');
    assert("greatergreaterequal"@[10] == 'a');
    assert("greatergreaterequal"@[11] == 't');
    assert("greatergreaterequal"@[12] == 'e');
    assert("greatergreaterequal"@[13] == 'r');
    assert("greatergreaterequal"@[14] == 'e');
    assert("greatergreaterequal"@[15] == 'q');
    assert("greatergreaterequal"@[16] == 'u');
    assert("greatergreaterequal"@[17] == 'a');
    assert("greatergreaterequal"@[18] == 'l');
    assert("caret"@[0] == 'c');
    assert("caret"@[1] == 'a');
    assert("caret"@[2] == 'r');
    assert("caret"@[3] == 'e');
    assert("caret"@[4] == 't');
    assert("caretequal"@[0] == 'c');
    assert("caretequal"@[1] == 'a');
    assert("caretequal"@[2] == 'r');
    assert("caretequal"@[3] == 'e');
    assert("caretequal"@[4] == 't');
    assert("caretequal"@[5] == 'e');
    assert("caretequal"@[6] == 'q');
    assert("caretequal"@[7] == 'u');
    assert("caretequal"@[8] == 'a');
    assert("caretequal"@[9] == 'l');
    assert("pipe"@[0] == 'p');
    assert("pipe"@[1] == 'i');
    assert("pipe"@[2] == 'p');
    assert("pipe"@[3] == 'e');
    assert("pipepipe"@[0] == 'p');
    assert("pipepipe"@[1] == 'i');
    assert("pipepipe"@[2] == 'p');
    assert("pipepipe"@[3] == 'e');
    assert("pipepipe"@[4] == 'p');
    assert("pipepipe"@[5] == 'i');
    assert("pipepipe"@[6] == 'p');
    assert("pipepipe"@[7] == 'e');
    assert("pipeequal"@[0] == 'p');
    assert("pipeequal"@[1] == 'i');
    assert("pipeequal"@[2] == 'p');
    assert("pipeequal"@[3] == 'e');
    assert("pipeequal"@[4] == 'e');
    assert("pipeequal"@[5] == 'q');
    assert("pipeequal"@[6] == 'u');
    assert("pipeequal"@[7] == 'a');
    assert("pipeequal"@[8] == 'l');
    assert("question"@[0] == 'q');
    assert("question"@[1] == 'u');
    assert("question"@[2] == 'e');
    assert("question"@[3] == 's');
    assert("question"@[4] == 't');
    assert("question"@[5] == 'i');
    assert("question"@[6] == 'o');
    assert("question"@[7] == 'n');
    assert("colon"@[0] == 'c');
    assert("colon"@[1] == 'o');
    assert("colon"@[2] == 'l');
    assert("colon"@[3] == 'o');
    assert("colon"@[4] == 'n');
    assert("semi"@[0] == 's');
    assert("semi"@[1] == 'e');
    assert("semi"@[2] == 'm');
    assert("semi"@[3] == 'i');
    assert("equal"@[0] == 'e');
    assert("equal"@[1] == 'q');
    assert("equal"@[2] == 'u');
    assert("equal"@[3] == 'a');
    assert("equal"@[4] == 'l');
    assert("equalequal"@[0] == 'e');
    assert("equalequal"@[1] == 'q');
    assert("equalequal"@[2] == 'u');
    assert("equalequal"@[3] == 'a');
    assert("equalequal"@[4] == 'l');
    assert("equalequal"@[5] == 'e');
    assert("equalequal"@[6] == 'q');
    assert("equalequal"@[7] == 'u');
    assert("equalequal"@[8] == 'a');
    assert("equalequal"@[9] == 'l');
    assert("comma"@[0] == 'c');
    assert("comma"@[1] == 'o');
    assert("comma"@[2] == 'm');
    assert("comma"@[3] == 'm');
    assert("comma"@[4] == 'a');
    assert("hash"@[0] == 'h');
    assert("hash"@[1] == 'a');
    assert("hash"@[2] == 's');
    assert("hash"@[3] == 'h');
    assert("hashhash"@[0] == 'h');
    assert("hashhash"@[1] == 'a');
    assert("hashhash"@[2] == 's');
    assert("hashhash"@[3] == 'h');
    assert("hashhash"@[4] == 'h');
    assert("hashhash"@[5] == 'a');
    assert("hashhash"@[6] == 's');
    assert("hashhash"@[7] == 'h');
    assert("hashat"@[0] == 'h');
    assert("hashat"@[1] == 'a');
    assert("hashat"@[2] == 's');
    assert("hashat"@[3] == 'h');
    assert("hashat"@[4] == 'a');
    assert("hashat"@[5] == 't');
    assert("periodstar"@[0] == 'p');
    assert("periodstar"@[1] == 'e');
    assert("periodstar"@[2] == 'r');
    assert("periodstar"@[3] == 'i');
    assert("periodstar"@[4] == 'o');
    assert("periodstar"@[5] == 'd');
    assert("periodstar"@[6] == 's');
    assert("periodstar"@[7] == 't');
    assert("periodstar"@[8] == 'a');
    assert("periodstar"@[9] == 'r');
    assert("arrowstar"@[0] == 'a');
    assert("arrowstar"@[1] == 'r');
    assert("arrowstar"@[2] == 'r');
    assert("arrowstar"@[3] == 'o');
    assert("arrowstar"@[4] == 'w');
    assert("arrowstar"@[5] == 's');
    assert("arrowstar"@[6] == 't');
    assert("arrowstar"@[7] == 'a');
    assert("arrowstar"@[8] == 'r');
    assert("coloncolon"@[0] == 'c');
    assert("coloncolon"@[1] == 'o');
    assert("coloncolon"@[2] == 'l');
    assert("coloncolon"@[3] == 'o');
    assert("coloncolon"@[4] == 'n');
    assert("coloncolon"@[5] == 'c');
    assert("coloncolon"@[6] == 'o');
    assert("coloncolon"@[7] == 'l');
    assert("coloncolon"@[8] == 'o');
    assert("coloncolon"@[9] == 'n');
    assert("at"@[0] == 'a');
    assert("at"@[1] == 't');
    assert("lesslessless"@[0] == 'l');
    assert("lesslessless"@[1] == 'e');
    assert("lesslessless"@[2] == 's');
    assert("lesslessless"@[3] == 's');
    assert("lesslessless"@[4] == 'l');
    assert("lesslessless"@[5] == 'e');
    assert("lesslessless"@[6] == 's');
    assert("lesslessless"@[7] == 's');
    assert("lesslessless"@[8] == 'l');
    assert("lesslessless"@[9] == 'e');
    assert("lesslessless"@[10] == 's');
    assert("lesslessless"@[11] == 's');
    assert("greatergreatergreater"@[0] == 'g');
    assert("greatergreatergreater"@[1] == 'r');
    assert("greatergreatergreater"@[2] == 'e');
    assert("greatergreatergreater"@[3] == 'a');
    assert("greatergreatergreater"@[4] == 't');
    assert("greatergreatergreater"@[5] == 'e');
    assert("greatergreatergreater"@[6] == 'r');
    assert("greatergreatergreater"@[7] == 'g');
    assert("greatergreatergreater"@[8] == 'r');
    assert("greatergreatergreater"@[9] == 'e');
    assert("greatergreatergreater"@[10] == 'a');
    assert("greatergreatergreater"@[11] == 't');
    assert("greatergreatergreater"@[12] == 'e');
    assert("greatergreatergreater"@[13] == 'r');
    assert("greatergreatergreater"@[14] == 'g');
    assert("greatergreatergreater"@[15] == 'r');
    assert("greatergreatergreater"@[16] == 'e');
    assert("greatergreatergreater"@[17] == 'a');
    assert("greatergreatergreater"@[18] == 't');
    assert("greatergreatergreater"@[19] == 'e');
    assert("greatergreatergreater"@[20] == 'r');
}

} // verus!
