//! The canonical lexical-token taxonomy of a C-family front end: a closed
//! classification of every distinguishable lexeme kind a scanner can produce,
//! with name and spelling resolution from a kind back to a human-readable or
//! source-exact string.

pub mod kinds;
pub mod names;
pub mod spelling;

pub use kinds::{
    NotableIdentifierKind, ObjCKeywordKind, OnOffSwitch, PPKeywordKind, TokenKind,
    is_any_identifier, NUM_TOKEN_KINDS, FIRST_PUNCTUATOR_ORDINAL,
};
pub use names::get_token_name;
pub use spelling::{get_keyword_spelling, get_pp_keyword_spelling, get_punctuator_spelling};
