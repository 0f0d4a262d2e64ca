use token::{
    get_keyword_spelling, get_pp_keyword_spelling, get_punctuator_spelling, get_token_name,
    is_any_identifier, NotableIdentifierKind, ObjCKeywordKind, OnOffSwitch, PPKeywordKind,
    TokenKind, FIRST_PUNCTUATOR_ORDINAL, NUM_TOKEN_KINDS,
};

#[test]
fn token_names_nonempty_and_distinct() {
    let all_kinds: Vec<TokenKind> = vec![
        TokenKind::Unknown, TokenKind::Eof, TokenKind::Eod, TokenKind::CodeCompletion,
        TokenKind::Comment, TokenKind::Identifier, TokenKind::RawIdentifier, TokenKind::NumericConstant,
        TokenKind::BinaryData, TokenKind::CharConstant, TokenKind::WideCharConstant, TokenKind::Utf8CharConstant,
        TokenKind::Utf16CharConstant, TokenKind::Utf32CharConstant, TokenKind::StringLiteral, TokenKind::WideStringLiteral,
        TokenKind::HeaderName, TokenKind::Utf8StringLiteral, TokenKind::Utf16StringLiteral, TokenKind::Utf32StringLiteral,
        TokenKind::Lsquare, TokenKind::Rsquare, TokenKind::Lparen, TokenKind::Rparen,
        TokenKind::Lbrace, TokenKind::Rbrace, TokenKind::Period, TokenKind::Ellipsis,
        TokenKind::Amp, TokenKind::Ampamp, TokenKind::Ampequal, TokenKind::Star,
        TokenKind::Starequal, TokenKind::Plus, TokenKind::Plusplus, TokenKind::Plusequal,
        TokenKind::Minus, TokenKind::Arrow, TokenKind::Minusminus, TokenKind::Minusequal,
        TokenKind::Tilde, TokenKind::Exclaim, TokenKind::Exclaimequal, TokenKind::Slash,
        TokenKind::Slashequal, TokenKind::Percent, TokenKind::Percentequal, TokenKind::Less,
        TokenKind::Lessless, TokenKind::Lessequal, TokenKind::Lesslessequal, TokenKind::Spaceship,
        TokenKind::Greater, TokenKind::Greatergreater, TokenKind::Greaterequal, TokenKind::Greatergreaterequal,
        TokenKind::Caret, TokenKind::Caretequal, TokenKind::Pipe, TokenKind::Pipepipe,
        TokenKind::Pipeequal, TokenKind::Question, TokenKind::Colon, TokenKind::Semi,
        TokenKind::Equal, TokenKind::Equalequal, TokenKind::Comma, TokenKind::Hash,
        TokenKind::Hashhash, TokenKind::Hashat, TokenKind::Periodstar, TokenKind::Arrowstar,
        TokenKind::Coloncolon, TokenKind::At, TokenKind::Lesslessless, TokenKind::Greatergreatergreater,
    ];
    assert_eq!(all_kinds.len(), NUM_TOKEN_KINDS);
    let names: Vec<&str> = all_kinds.iter().map(|k| get_token_name(*k)).collect();
    for name in &names {
        assert!(!name.is_empty());
    }
    for i in 0..names.len() {
        for j in 0..names.len() {
            if i != j {
                assert_ne!(names[i], names[j]);
            }
        }
    }
}

#[test]
fn classification_scenario() {
    assert_eq!(get_token_name(TokenKind::Identifier), "identifier");
    assert_eq!(get_punctuator_spelling(TokenKind::Lsquare), Some("["));
    assert_eq!(get_punctuator_spelling(TokenKind::Identifier), None);
    assert!(is_any_identifier(TokenKind::RawIdentifier));
    assert!(!is_any_identifier(TokenKind::Lsquare));
}

#[test]
fn token_name_spot_values() {
    assert_eq!(get_token_name(TokenKind::Unknown), "unknown");
    assert_eq!(get_token_name(TokenKind::Eof), "eof");
    assert_eq!(get_token_name(TokenKind::Eod), "eod");
    assert_eq!(get_token_name(TokenKind::CodeCompletion), "code_completion");
    assert_eq!(get_token_name(TokenKind::HeaderName), "header_name");
    assert_eq!(get_token_name(TokenKind::Utf32StringLiteral), "utf32_string_literal");
    assert_eq!(get_token_name(TokenKind::Lsquare), "l_square");
    assert_eq!(get_token_name(TokenKind::Rparen), "r_paren");
    assert_eq!(get_token_name(TokenKind::Ellipsis), "ellipsis");
    assert_eq!(get_token_name(TokenKind::Spaceship), "spaceship");
    assert_eq!(get_token_name(TokenKind::Hashat), "hashat");
    assert_eq!(get_token_name(TokenKind::Coloncolon), "coloncolon");
    assert_eq!(get_token_name(TokenKind::Lesslessless), "lesslessless");
    assert_eq!(get_token_name(TokenKind::Greatergreatergreater), "greatergreatergreater");
}

#[test]
fn punctuator_spelling_exactly_for_punctuators() {
    let all_kinds: Vec<TokenKind> = vec![
        TokenKind::Unknown, TokenKind::Eof, TokenKind::Eod, TokenKind::CodeCompletion,
        TokenKind::Comment, TokenKind::Identifier, TokenKind::RawIdentifier, TokenKind::NumericConstant,
        TokenKind::BinaryData, TokenKind::CharConstant, TokenKind::WideCharConstant, TokenKind::Utf8CharConstant,
        TokenKind::Utf16CharConstant, TokenKind::Utf32CharConstant, TokenKind::StringLiteral, TokenKind::WideStringLiteral,
        TokenKind::HeaderName, TokenKind::Utf8StringLiteral, TokenKind::Utf16StringLiteral, TokenKind::Utf32StringLiteral,
        TokenKind::Lsquare, TokenKind::Rsquare, TokenKind::Lparen, TokenKind::Rparen,
        TokenKind::Lbrace, TokenKind::Rbrace, TokenKind::Period, TokenKind::Ellipsis,
        TokenKind::Amp, TokenKind::Ampamp, TokenKind::Ampequal, TokenKind::Star,
        TokenKind::Starequal, TokenKind::Plus, TokenKind::Plusplus, TokenKind::Plusequal,
        TokenKind::Minus, TokenKind::Arrow, TokenKind::Minusminus, TokenKind::Minusequal,
        TokenKind::Tilde, TokenKind::Exclaim, TokenKind::Exclaimequal, TokenKind::Slash,
        TokenKind::Slashequal, TokenKind::Percent, TokenKind::Percentequal, TokenKind::Less,
        TokenKind::Lessless, TokenKind::Lessequal, TokenKind::Lesslessequal, TokenKind::Spaceship,
        TokenKind::Greater, TokenKind::Greatergreater, TokenKind::Greaterequal, TokenKind::Greatergreaterequal,
        TokenKind::Caret, TokenKind::Caretequal, TokenKind::Pipe, TokenKind::Pipepipe,
        TokenKind::Pipeequal, TokenKind::Question, TokenKind::Colon, TokenKind::Semi,
        TokenKind::Equal, TokenKind::Equalequal, TokenKind::Comma, TokenKind::Hash,
        TokenKind::Hashhash, TokenKind::Hashat, TokenKind::Periodstar, TokenKind::Arrowstar,
        TokenKind::Coloncolon, TokenKind::At, TokenKind::Lesslessless, TokenKind::Greatergreatergreater,
    ];
    for (i, kind) in all_kinds.iter().enumerate() {
        let spelling = get_punctuator_spelling(*kind);
        if i >= FIRST_PUNCTUATOR_ORDINAL {
            let s = spelling.unwrap();
            assert!(!s.is_empty());
            assert_ne!(s, get_token_name(*kind));
        } else {
            assert!(spelling.is_none());
        }
    }
}

#[test]
fn punctuator_spellings_distinct() {
    let all_kinds: Vec<TokenKind> = vec![
        TokenKind::Unknown, TokenKind::Eof, TokenKind::Eod, TokenKind::CodeCompletion,
        TokenKind::Comment, TokenKind::Identifier, TokenKind::RawIdentifier, TokenKind::NumericConstant,
        TokenKind::BinaryData, TokenKind::CharConstant, TokenKind::WideCharConstant, TokenKind::Utf8CharConstant,
        TokenKind::Utf16CharConstant, TokenKind::Utf32CharConstant, TokenKind::StringLiteral, TokenKind::WideStringLiteral,
        TokenKind::HeaderName, TokenKind::Utf8StringLiteral, TokenKind::Utf16StringLiteral, TokenKind::Utf32StringLiteral,
        TokenKind::Lsquare, TokenKind::Rsquare, TokenKind::Lparen, TokenKind::Rparen,
        TokenKind::Lbrace, TokenKind::Rbrace, TokenKind::Period, TokenKind::Ellipsis,
        TokenKind::Amp, TokenKind::Ampamp, TokenKind::Ampequal, TokenKind::Star,
        TokenKind::Starequal, TokenKind::Plus, TokenKind::Plusplus, TokenKind::Plusequal,
        TokenKind::Minus, TokenKind::Arrow, TokenKind::Minusminus, TokenKind::Minusequal,
        TokenKind::Tilde, TokenKind::Exclaim, TokenKind::Exclaimequal, TokenKind::Slash,
        TokenKind::Slashequal, TokenKind::Percent, TokenKind::Percentequal, TokenKind::Less,
        TokenKind::Lessless, TokenKind::Lessequal, TokenKind::Lesslessequal, TokenKind::Spaceship,
        TokenKind::Greater, TokenKind::Greatergreater, TokenKind::Greaterequal, TokenKind::Greatergreaterequal,
        TokenKind::Caret, TokenKind::Caretequal, TokenKind::Pipe, TokenKind::Pipepipe,
        TokenKind::Pipeequal, TokenKind::Question, TokenKind::Colon, TokenKind::Semi,
        TokenKind::Equal, TokenKind::Equalequal, TokenKind::Comma, TokenKind::Hash,
        TokenKind::Hashhash, TokenKind::Hashat, TokenKind::Periodstar, TokenKind::Arrowstar,
        TokenKind::Coloncolon, TokenKind::At, TokenKind::Lesslessless, TokenKind::Greatergreatergreater,
    ];
    let spellings: Vec<&str> = all_kinds
        .iter()
        .filter_map(|k| get_punctuator_spelling(*k))
        .collect();
    assert_eq!(spellings.len(), NUM_TOKEN_KINDS - FIRST_PUNCTUATOR_ORDINAL);
    for i in 0..spellings.len() {
        for j in 0..spellings.len() {
            if i != j {
                assert_ne!(spellings[i], spellings[j]);
            }
        }
    }
}

#[test]
fn punctuator_spelling_spot_values() {
    assert_eq!(get_punctuator_spelling(TokenKind::Ellipsis), Some("..."));
    assert_eq!(get_punctuator_spelling(TokenKind::Spaceship), Some("<=>"));
    assert_eq!(get_punctuator_spelling(TokenKind::Arrowstar), Some("->*"));
    assert_eq!(get_punctuator_spelling(TokenKind::Greatergreatergreater), Some(">>>"));
    assert_eq!(get_punctuator_spelling(TokenKind::Eof), None);
    assert_eq!(get_punctuator_spelling(TokenKind::NumericConstant), None);
    assert_eq!(get_punctuator_spelling(TokenKind::Comment), None);
}

#[test]
fn keyword_spelling_always_absent() {
    let all_kinds: Vec<TokenKind> = vec![
        TokenKind::Unknown, TokenKind::Eof, TokenKind::Eod, TokenKind::CodeCompletion,
        TokenKind::Comment, TokenKind::Identifier, TokenKind::RawIdentifier, TokenKind::NumericConstant,
        TokenKind::BinaryData, TokenKind::CharConstant, TokenKind::WideCharConstant, TokenKind::Utf8CharConstant,
        TokenKind::Utf16CharConstant, TokenKind::Utf32CharConstant, TokenKind::StringLiteral, TokenKind::WideStringLiteral,
        TokenKind::HeaderName, TokenKind::Utf8StringLiteral, TokenKind::Utf16StringLiteral, TokenKind::Utf32StringLiteral,
        TokenKind::Lsquare, TokenKind::Rsquare, TokenKind::Lparen, TokenKind::Rparen,
        TokenKind::Lbrace, TokenKind::Rbrace, TokenKind::Period, TokenKind::Ellipsis,
        TokenKind::Amp, TokenKind::Ampamp, TokenKind::Ampequal, TokenKind::Star,
        TokenKind::Starequal, TokenKind::Plus, TokenKind::Plusplus, TokenKind::Plusequal,
        TokenKind::Minus, TokenKind::Arrow, TokenKind::Minusminus, TokenKind::Minusequal,
        TokenKind::Tilde, TokenKind::Exclaim, TokenKind::Exclaimequal, TokenKind::Slash,
        TokenKind::Slashequal, TokenKind::Percent, TokenKind::Percentequal, TokenKind::Less,
        TokenKind::Lessless, TokenKind::Lessequal, TokenKind::Lesslessequal, TokenKind::Spaceship,
        TokenKind::Greater, TokenKind::Greatergreater, TokenKind::Greaterequal, TokenKind::Greatergreaterequal,
        TokenKind::Caret, TokenKind::Caretequal, TokenKind::Pipe, TokenKind::Pipepipe,
        TokenKind::Pipeequal, TokenKind::Question, TokenKind::Colon, TokenKind::Semi,
        TokenKind::Equal, TokenKind::Equalequal, TokenKind::Comma, TokenKind::Hash,
        TokenKind::Hashhash, TokenKind::Hashat, TokenKind::Periodstar, TokenKind::Arrowstar,
        TokenKind::Coloncolon, TokenKind::At, TokenKind::Lesslessless, TokenKind::Greatergreatergreater,
    ];
    for kind in &all_kinds {
        assert!(get_keyword_spelling(*kind).is_none());
    }
}

#[test]
fn is_any_identifier_exact() {
    let all_kinds: Vec<TokenKind> = vec![
        TokenKind::Unknown, TokenKind::Eof, TokenKind::Eod, TokenKind::CodeCompletion,
        TokenKind::Comment, TokenKind::Identifier, TokenKind::RawIdentifier, TokenKind::NumericConstant,
        TokenKind::BinaryData, TokenKind::CharConstant, TokenKind::WideCharConstant, TokenKind::Utf8CharConstant,
        TokenKind::Utf16CharConstant, TokenKind::Utf32CharConstant, TokenKind::StringLiteral, TokenKind::WideStringLiteral,
        TokenKind::HeaderName, TokenKind::Utf8StringLiteral, TokenKind::Utf16StringLiteral, TokenKind::Utf32StringLiteral,
        TokenKind::Lsquare, TokenKind::Rsquare, TokenKind::Lparen, TokenKind::Rparen,
        TokenKind::Lbrace, TokenKind::Rbrace, TokenKind::Period, TokenKind::Ellipsis,
        TokenKind::Amp, TokenKind::Ampamp, TokenKind::Ampequal, TokenKind::Star,
        TokenKind::Starequal, TokenKind::Plus, TokenKind::Plusplus, TokenKind::Plusequal,
        TokenKind::Minus, TokenKind::Arrow, TokenKind::Minusminus, TokenKind::Minusequal,
        TokenKind::Tilde, TokenKind::Exclaim, TokenKind::Exclaimequal, TokenKind::Slash,
        TokenKind::Slashequal, TokenKind::Percent, TokenKind::Percentequal, TokenKind::Less,
        TokenKind::Lessless, TokenKind::Lessequal, TokenKind::Lesslessequal, TokenKind::Spaceship,
        TokenKind::Greater, TokenKind::Greatergreater, TokenKind::Greaterequal, TokenKind::Greatergreaterequal,
        TokenKind::Caret, TokenKind::Caretequal, TokenKind::Pipe, TokenKind::Pipepipe,
        TokenKind::Pipeequal, TokenKind::Question, TokenKind::Colon, TokenKind::Semi,
        TokenKind::Equal, TokenKind::Equalequal, TokenKind::Comma, TokenKind::Hash,
        TokenKind::Hashhash, TokenKind::Hashat, TokenKind::Periodstar, TokenKind::Arrowstar,
        TokenKind::Coloncolon, TokenKind::At, TokenKind::Lesslessless, TokenKind::Greatergreatergreater,
    ];
    for kind in &all_kinds {
        let expected = matches!(kind, TokenKind::Identifier | TokenKind::RawIdentifier);
        assert_eq!(is_any_identifier(*kind), expected);
    }
}

#[test]
fn pp_keyword_spelling_absent_only_for_not_keyword() {
    let all_pp: Vec<PPKeywordKind> = vec![
        PPKeywordKind::NotKeyword, PPKeywordKind::If, PPKeywordKind::Ifdef, PPKeywordKind::Ifndef,
        PPKeywordKind::Elif, PPKeywordKind::Elifdef, PPKeywordKind::Elifndef, PPKeywordKind::Else,
        PPKeywordKind::Endif, PPKeywordKind::Defined, PPKeywordKind::Include, PPKeywordKind::IncludeMacros,
        PPKeywordKind::Define, PPKeywordKind::Undef, PPKeywordKind::Line, PPKeywordKind::Error,
        PPKeywordKind::Pragma, PPKeywordKind::Embed, PPKeywordKind::Import, PPKeywordKind::IncludeNext,
        PPKeywordKind::Warning, PPKeywordKind::Ident, PPKeywordKind::Sccs, PPKeywordKind::Assert,
        PPKeywordKind::Unassert, PPKeywordKind::PublicMacro, PPKeywordKind::PrivateMacro,
    ];
    assert_eq!(all_pp.len(), 27);
    for (i, kind) in all_pp.iter().enumerate() {
        let spelling = get_pp_keyword_spelling(*kind);
        if i == 0 {
            assert!(spelling.is_none());
        } else {
            assert!(!spelling.unwrap().is_empty());
        }
    }
}

#[test]
fn pp_keyword_spelling_spot_values() {
    assert_eq!(get_pp_keyword_spelling(PPKeywordKind::NotKeyword), None);
    assert_eq!(get_pp_keyword_spelling(PPKeywordKind::If), Some("if"));
    assert_eq!(get_pp_keyword_spelling(PPKeywordKind::Ifdef), Some("ifdef"));
    assert_eq!(get_pp_keyword_spelling(PPKeywordKind::Elifdef), Some("elifdef"));
    assert_eq!(get_pp_keyword_spelling(PPKeywordKind::Elifndef), Some("elifndef"));
    assert_eq!(get_pp_keyword_spelling(PPKeywordKind::IncludeMacros), Some("__include_macros"));
    assert_eq!(get_pp_keyword_spelling(PPKeywordKind::IncludeNext), Some("include_next"));
    assert_eq!(get_pp_keyword_spelling(PPKeywordKind::Pragma), Some("pragma"));
    assert_eq!(get_pp_keyword_spelling(PPKeywordKind::Embed), Some("embed"));
    assert_eq!(get_pp_keyword_spelling(PPKeywordKind::PrivateMacro), Some("__private_macro"));
}

#[test]
fn pp_keyword_spellings_distinct() {
    let all_pp: Vec<PPKeywordKind> = vec![
        PPKeywordKind::NotKeyword, PPKeywordKind::If, PPKeywordKind::Ifdef, PPKeywordKind::Ifndef,
        PPKeywordKind::Elif, PPKeywordKind::Elifdef, PPKeywordKind::Elifndef, PPKeywordKind::Else,
        PPKeywordKind::Endif, PPKeywordKind::Defined, PPKeywordKind::Include, PPKeywordKind::IncludeMacros,
        PPKeywordKind::Define, PPKeywordKind::Undef, PPKeywordKind::Line, PPKeywordKind::Error,
        PPKeywordKind::Pragma, PPKeywordKind::Embed, PPKeywordKind::Import, PPKeywordKind::IncludeNext,
        PPKeywordKind::Warning, PPKeywordKind::Ident, PPKeywordKind::Sccs, PPKeywordKind::Assert,
        PPKeywordKind::Unassert, PPKeywordKind::PublicMacro, PPKeywordKind::PrivateMacro,
    ];
    let spellings: Vec<&str> = all_pp
        .iter()
        .filter_map(|k| get_pp_keyword_spelling(*k))
        .collect();
    assert_eq!(spellings.len(), 26);
    for i in 0..spellings.len() {
        for j in 0..spellings.len() {
            if i != j {
                assert_ne!(spellings[i], spellings[j]);
            }
        }
    }
}

#[test]
fn on_off_switch_three_values() {
    let on: usize = match OnOffSwitch::OosON {
        OnOffSwitch::OosON => 0,
        OnOffSwitch::OosOFF => 1,
        OnOffSwitch::OosDEFAULT => 2,
    };
    let off: usize = match OnOffSwitch::OosOFF {
        OnOffSwitch::OosON => 0,
        OnOffSwitch::OosOFF => 1,
        OnOffSwitch::OosDEFAULT => 2,
    };
    let default: usize = match OnOffSwitch::OosDEFAULT {
        OnOffSwitch::OosON => 0,
        OnOffSwitch::OosOFF => 1,
        OnOffSwitch::OosDEFAULT => 2,
    };
    assert_eq!(on, 0);
    assert_eq!(off, 1);
    assert_eq!(default, 2);
}

#[test]
fn auxiliary_registries_are_attributes() {
    let objc = ObjCKeywordKind::Synchronized;
    assert!(matches!(objc, ObjCKeywordKind::Synchronized));
    assert!(matches!(ObjCKeywordKind::NotKeyword, ObjCKeywordKind::NotKeyword));
    let notable = NotableIdentifierKind::Floatt;
    assert!(matches!(notable, NotableIdentifierKind::Floatt));
    assert!(matches!(NotableIdentifierKind::NotNotable, NotableIdentifierKind::NotNotable));
}
