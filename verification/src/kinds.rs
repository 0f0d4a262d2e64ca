//! The closed enumerations of the token taxonomy: the token kinds a scanner
//! can assign to a lexeme, and the auxiliary keyword registries that attach
//! to identifier tokens, together with their ordinal numbering.
use vstd::prelude::*;

verus! {

/// Number of variants of `TokenKind`. The name table has exactly this many
/// entries; `names::lemma_name_table_parity` proves the correspondence.
pub const NUM_TOKEN_KINDS: usize = 76;

/// Ordinal of the first punctuator variant. The punctuators form the tail of
/// the enumeration, from `Lsquare` up to `Greatergreatergreater`.
pub const FIRST_PUNCTUATOR_ORDINAL: usize = 20;

/// One uniform namespace for the tokens of all the C languages: sentinels,
/// trivia, identifiers, literals, and punctuators. Keywords are not token
/// kinds of their own here: a reserved word reaches the consumer as an
/// `Identifier` carrying an auxiliary keyword classification beside it.
#[derive(Debug, Clone, Copy, PartialEq, Eq, Hash)]
pub enum TokenKind {
    Unknown, Eof, Eod, CodeCompletion, Comment,
    Identifier, RawIdentifier, NumericConstant, BinaryData, CharConstant,
    WideCharConstant, Utf8CharConstant, Utf16CharConstant, Utf32CharConstant, StringLiteral,
    WideStringLiteral, HeaderName, Utf8StringLiteral, Utf16StringLiteral, Utf32StringLiteral,
    // punctuators
    Lsquare, Rsquare, Lparen, Rparen, Lbrace,
    Rbrace, Period, Ellipsis, Amp, Ampamp,
    Ampequal, Star, Starequal, Plus, Plusplus,
    Plusequal, Minus, Arrow, Minusminus, Minusequal,
    Tilde, Exclaim, Exclaimequal, Slash, Slashequal,
    Percent, Percentequal, Less, Lessless, Lessequal,
    Lesslessequal, Spaceship, Greater, Greatergreater, Greaterequal,
    Greatergreaterequal, Caret, Caretequal, Pipe, Pipepipe,
    Pipeequal, Question, Colon, Semi, Equal,
    Equalequal, Comma, Hash, Hashhash, Hashat,
    Periodstar, Arrowstar, Coloncolon, At, Lesslessless,
    Greatergreatergreater,
}

/// Keywords of preprocessing directives: lines that begin with a `#`.
/// `NotKeyword` (ordinal zero) says that no directive keyword applies.
#[derive(Debug, Clone, Copy)]
pub enum PPKeywordKind {
    NotKeyword, If, Ifdef, Ifndef, Elif, Elifdef,
    Elifndef, Else, Endif, Defined, Include, IncludeMacros,
    Define, Undef, Line, Error, Pragma, Embed,
    Import, IncludeNext, Warning, Ident, Sccs, Assert,
    Unassert, PublicMacro, PrivateMacro,
}

/// Objective-C keywords: identifiers that follow an `@`. `NotKeyword`
/// (ordinal zero) says that no such keyword applies.
#[derive(Debug, Clone, Copy)]
pub enum ObjCKeywordKind {
    NotKeyword, Class, CompatibilityAlias, Defs, Encode, End,
    Implementation, Interface, Private, Protected, Protocol, Public,
    Selector, Throw, Try, Catch, Finally, Synchronized,
    Autoreleasepool, Property, Package, Required, Optional, Synthesize,
    Dynamic, Import, Available,
}

/// Well-known identifiers (such as `float_t` and `double_t`) that a front
/// end tracks for special-case handling. `NotNotable` (ordinal zero) says
/// that no such classification applies.
#[derive(Debug, Clone, Copy)]
pub enum NotableIdentifierKind {
    NotNotable, FILE, JmpBuf, SigjmpBuf, Ucontextt, Floatt, Doublet,
}

/// The tri-state value of an on/off/default pragma switch.
#[derive(Debug, Clone, Copy)]
pub enum OnOffSwitch {
    OosON,
    OosOFF,
    OosDEFAULT,
}

/// The stable, contiguous ordinal of a token kind, starting from zero.
pub open spec fn token_ordinal(k: TokenKind) -> int {
    match k {
        TokenKind::Unknown => 0,
        TokenKind::Eof => 1,
        TokenKind::Eod => 2,
        TokenKind::CodeCompletion => 3,
        TokenKind::Comment => 4,
        TokenKind::Identifier => 5,
        TokenKind::RawIdentifier => 6,
        TokenKind::NumericConstant => 7,
        TokenKind::BinaryData => 8,
        TokenKind::CharConstant => 9,
        TokenKind::WideCharConstant => 10,
        TokenKind::Utf8CharConstant => 11,
        TokenKind::Utf16CharConstant => 12,
        TokenKind::Utf32CharConstant => 13,
        TokenKind::StringLiteral => 14,
        TokenKind::WideStringLiteral => 15,
        TokenKind::HeaderName => 16,
        TokenKind::Utf8StringLiteral => 17,
        TokenKind::Utf16StringLiteral => 18,
        TokenKind::Utf32StringLiteral => 19,
        TokenKind::Lsquare => 20,
        TokenKind::Rsquare => 21,
        TokenKind::Lparen => 22,
        TokenKind::Rparen => 23,
        TokenKind::Lbrace => 24,
        TokenKind::Rbrace => 25,
        TokenKind::Period => 26,
        TokenKind::Ellipsis => 27,
        TokenKind::Amp => 28,
        TokenKind::Ampamp => 29,
        TokenKind::Ampequal => 30,
        TokenKind::Star => 31,
        TokenKind::Starequal => 32,
        TokenKind::Plus => 33,
        TokenKind::Plusplus => 34,
        TokenKind::Plusequal => 35,
        TokenKind::Minus => 36,
        TokenKind::Arrow => 37,
        TokenKind::Minusminus => 38,
        TokenKind::Minusequal => 39,
        TokenKind::Tilde => 40,
        TokenKind::Exclaim => 41,
        TokenKind::Exclaimequal => 42,
        TokenKind::Slash => 43,
        TokenKind::Slashequal => 44,
        TokenKind::Percent => 45,
        TokenKind::Percentequal => 46,
        TokenKind::Less => 47,
        TokenKind::Lessless => 48,
        TokenKind::Lessequal => 49,
        TokenKind::Lesslessequal => 50,
        TokenKind::Spaceship => 51,
        TokenKind::Greater => 52,
        TokenKind::Greatergreater => 53,
        TokenKind::Greaterequal => 54,
        TokenKind::Greatergreaterequal => 55,
        TokenKind::Caret => 56,
        TokenKind::Caretequal => 57,
        TokenKind::Pipe => 58,
        TokenKind::Pipepipe => 59,
        TokenKind::Pipeequal => 60,
        TokenKind::Question => 61,
        TokenKind::Colon => 62,
        TokenKind::Semi => 63,
        TokenKind::Equal => 64,
        TokenKind::Equalequal => 65,
        TokenKind::Comma => 66,
        TokenKind::Hash => 67,
        TokenKind::Hashhash => 68,
        TokenKind::Hashat => 69,
        TokenKind::Periodstar => 70,
        TokenKind::Arrowstar => 71,
        TokenKind::Coloncolon => 72,
        TokenKind::At => 73,
        TokenKind::Lesslessless => 74,
        TokenKind::Greatergreatergreater => 75,
    }
}

/// The token kind at a given ordinal: the inverse of `token_ordinal` on
/// the range `0 .. NUM_TOKEN_KINDS`.
pub open spec fn kind_with_ordinal(i: int) -> TokenKind {
    if i == 1 {
        TokenKind::Eof
    } else if i == 2 {
        TokenKind::Eod
    } else if i == 3 {
        TokenKind::CodeCompletion
    } else if i == 4 {
        TokenKind::Comment
    } else if i == 5 {
        TokenKind::Identifier
    } else if i == 6 {
        TokenKind::RawIdentifier
    } else if i == 7 {
        TokenKind::NumericConstant
    } else if i == 8 {
        TokenKind::BinaryData
    } else if i == 9 {
        TokenKind::CharConstant
    } else if i == 10 {
        TokenKind::WideCharConstant
    } else if i == 11 {
        TokenKind::Utf8CharConstant
    } else if i == 12 {
        TokenKind::Utf16CharConstant
    } else if i == 13 {
        TokenKind::Utf32CharConstant
    } else if i == 14 {
        TokenKind::StringLiteral
    } else if i == 15 {
        TokenKind::WideStringLiteral
    } else if i == 16 {
        TokenKind::HeaderName
    } else if i == 17 {
        TokenKind::Utf8StringLiteral
    } else if i == 18 {
        TokenKind::Utf16StringLiteral
    } else if i == 19 {
        TokenKind::Utf32StringLiteral
    } else if i == 20 {
        TokenKind::Lsquare
    } else if i == 21 {
        TokenKind::Rsquare
    } else if i == 22 {
        TokenKind::Lparen
    } else if i == 23 {
        TokenKind::Rparen
    } else if i == 24 {
        TokenKind::Lbrace
    } else if i == 25 {
        TokenKind::Rbrace
    } else if i == 26 {
        TokenKind::Period
    } else if i == 27 {
        TokenKind::Ellipsis
    } else if i == 28 {
        TokenKind::Amp
    } else if i == 29 {
        TokenKind::Ampamp
    } else if i == 30 {
        TokenKind::Ampequal
    } else if i == 31 {
        TokenKind::Star
    } else if i == 32 {
        TokenKind::Starequal
    } else if i == 33 {
        TokenKind::Plus
    } else if i == 34 {
        TokenKind::Plusplus
    } else if i == 35 {
        TokenKind::Plusequal
    } else if i == 36 {
        TokenKind::Minus
    } else if i == 37 {
        TokenKind::Arrow
    } else if i == 38 {
        TokenKind::Minusminus
    } else if i == 39 {
        TokenKind::Minusequal
    } else if i == 40 {
        TokenKind::Tilde
    } else if i == 41 {
        TokenKind::Exclaim
    } else if i == 42 {
        TokenKind::Exclaimequal
    } else if i == 43 {
        TokenKind::Slash
    } else if i == 44 {
        TokenKind::Slashequal
    } else if i == 45 {
        TokenKind::Percent
    } else if i == 46 {
        TokenKind::Percentequal
    } else if i == 47 {
        TokenKind::Less
    } else if i == 48 {
        TokenKind::Lessless
    } else if i == 49 {
        TokenKind::Lessequal
    } else if i == 50 {
        TokenKind::Lesslessequal
    } else if i == 51 {
        TokenKind::Spaceship
    } else if i == 52 {
        TokenKind::Greater
    } else if i == 53 {
        TokenKind::Greatergreater
    } else if i == 54 {
        TokenKind::Greaterequal
    } else if i == 55 {
        TokenKind::Greatergreaterequal
    } else if i == 56 {
        TokenKind::Caret
    } else if i == 57 {
        TokenKind::Caretequal
    } else if i == 58 {
        TokenKind::Pipe
    } else if i == 59 {
        TokenKind::Pipepipe
    } else if i == 60 {
        TokenKind::Pipeequal
    } else if i == 61 {
        TokenKind::Question
    } else if i == 62 {
        TokenKind::Colon
    } else if i == 63 {
        TokenKind::Semi
    } else if i == 64 {
        TokenKind::Equal
    } else if i == 65 {
        TokenKind::Equalequal
    } else if i == 66 {
        TokenKind::Comma
    } else if i == 67 {
        TokenKind::Hash
    } else if i == 68 {
        TokenKind::Hashhash
    } else if i == 69 {
        TokenKind::Hashat
    } else if i == 70 {
        TokenKind::Periodstar
    } else if i == 71 {
        TokenKind::Arrowstar
    } else if i == 72 {
        TokenKind::Coloncolon
    } else if i == 73 {
        TokenKind::At
    } else if i == 74 {
        TokenKind::Lesslessless
    } else if i == 75 {
        TokenKind::Greatergreatergreater
    } else {
        TokenKind::Unknown
    }
}

/// Whether `k` belongs to the punctuator sub-class: the fixed operator and
/// delimiter kinds that make up the tail of the enumeration.
pub open spec fn is_punctuator(k: TokenKind) -> bool {
    token_ordinal(k) >= FIRST_PUNCTUATOR_ORDINAL as int
}

/// Whether `kind` is some form of identifier: `Identifier` or
/// `RawIdentifier`, and nothing else. Keyword-class auxiliary values never
/// make a token an identifier; this predicate is the one authoritative test.
pub fn is_any_identifier(kind: TokenKind) -> (r: bool)
    ensures
        r <==> (kind is Identifier || kind is RawIdentifier),
{
    match kind {
        TokenKind::Identifier => true,
        TokenKind::RawIdentifier => true,
        _ => false,
    }
}

/// Every token kind has an ordinal below `NUM_TOKEN_KINDS`.
pub proof fn lemma_token_ordinal_in_range(k: TokenKind)
    ensures
        0 <= token_ordinal(k) < NUM_TOKEN_KINDS as int,
{
}

/// `kind_with_ordinal` undoes `token_ordinal`: the numbering never maps two
/// kinds to one ordinal.
pub proof fn lemma_kind_with_ordinal_inverse(k: TokenKind)
    ensures
        kind_with_ordinal(token_ordinal(k)) == k,
{
}

/// `token_ordinal` undoes `kind_with_ordinal`: every ordinal below
/// `NUM_TOKEN_KINDS` is taken by some kind, so the numbering is contiguous.
pub proof fn lemma_token_ordinal_inverse(i: int)
    requires
        0 <= i < NUM_TOKEN_KINDS as int,
    ensures
        token_ordinal(kind_with_ordinal(i)) == i,
{
}

/// Distinct token kinds carry distinct ordinals.
pub proof fn lemma_token_ordinal_injective(k1: TokenKind, k2: TokenKind)
    ensures
        token_ordinal(k1) == token_ordinal(k2) ==> k1 == k2,
{
    if token_ordinal(k1) == token_ordinal(k2) {
        lemma_kind_with_ordinal_inverse(k1);
        lemma_kind_with_ordinal_inverse(k2);
    }
}

/// `OnOffSwitch` is exactly the three-valued switch: every value is `OosON`,
/// `OosOFF` or `OosDEFAULT`, and those three are pairwise distinct.
pub proof fn lemma_on_off_switch_exhaustive(s: OnOffSwitch)
    ensures
        s is OosON || s is OosOFF || s is OosDEFAULT,
        OnOffSwitch::OosON != OnOffSwitch::OosOFF,
        OnOffSwitch::OosON != OnOffSwitch::OosDEFAULT,
        OnOffSwitch::OosOFF != OnOffSwitch::OosDEFAULT,
{
}

} // verus!
