//! Punctuation tagger: spoken punctuation words to their symbols.
//!
//! "period" -> ".", "comma" -> ",", "question mark" -> "?". A phrase matches
//! only when it equals the entire trimmed input; substrings never fire.

use vstd::prelude::*;

use crate::text;
use crate::text::{lower_seq, trim_seq, view_opt_chars, view_opt_str};

verus! {

/// The symbol of a spoken punctuation phrase, multi-word phrases first.
pub open spec fn punct_symbol(t: Seq<char>) -> Option<Seq<char>> {
    if t == "exclamation point"@ {
        Some("!"@)
    } else if t == "exclamation mark"@ {
        Some("!"@)
    } else if t == "question mark"@ {
        Some("?"@)
    } else if t == "open parenthesis"@ {
        Some("("@)
    } else if t == "close parenthesis"@ {
        Some(")"@)
    } else if t == "left parenthesis"@ {
        Some("("@)
    } else if t == "right parenthesis"@ {
        Some(")"@)
    } else if t == "open bracket"@ {
        Some("["@)
    } else if t == "close bracket"@ {
        Some("]"@)
    } else if t == "left bracket"@ {
        Some("["@)
    } else if t == "right bracket"@ {
        Some("]"@)
    } else if t == "open brace"@ {
        Some("{"@)
    } else if t == "close brace"@ {
        Some("}"@)
    } else if t == "left brace"@ {
        Some("{"@)
    } else if t == "right brace"@ {
        Some("}"@)
    } else if t == "double quote"@ {
        Some("\""@)
    } else if t == "single quote"@ {
        Some("'"@)
    } else if t == "forward slash"@ {
        Some("/"@)
    } else if t == "back slash"@ {
        Some("\\"@)
    } else if t == "period"@ {
        Some("."@)
    } else if t == "dot"@ {
        Some("."@)
    } else if t == "comma"@ {
        Some(","@)
    } else if t == "colon"@ {
        Some(":"@)
    } else if t == "semicolon"@ {
        Some(";"@)
    } else if t == "hyphen"@ {
        Some("-"@)
    } else if t == "dash"@ {
        Some("-"@)
    } else if t == "ellipsis"@ {
        Some("..."@)
    } else if t == "ampersand"@ {
        Some("&"@)
    } else if t == "asterisk"@ {
        Some("*"@)
    } else if t == "at sign"@ {
        Some("@"@)
    } else if t == "hash"@ {
        Some("#"@)
    } else if t == "percent"@ {
        Some("%"@)
    } else if t == "plus"@ {
        Some("+"@)
    } else if t == "equals"@ {
        Some("="@)
    } else if t == "tilde"@ {
        Some("~"@)
    } else if t == "underscore"@ {
        Some("_"@)
    } else if t == "pipe"@ {
        Some("|"@)
    } else if t == "slash"@ {
        Some("/"@)
    } else {
        None
    }
}

/// The symbol of the whole trimmed, lowercased input, if it is exactly a
/// spoken punctuation phrase.
pub open spec fn punctuation_spec(s: Seq<char>) -> Option<Seq<char>> {
    punct_symbol(trim_seq(lower_seq(s)))
}

/// Character-vector form of [`parse`].
pub fn parse_chars(cv: &Vec<char>) -> (r: Option<Vec<char>>)
    ensures
        view_opt_chars(r) == punctuation_spec(cv@),
{
    let lowv = text::lower_chars(cv);
    let t = text::trim_chars(&lowv);
    let sym: Option<&str> = if text::eq_str(&t, "exclamation point") {
        Some("!")
    } else if text::eq_str(&t, "exclamation mark") {
        Some("!")
    } else if text::eq_str(&t, "question mark") {
        Some("?")
    } else if text::eq_str(&t, "open parenthesis") {
        Some("(")
    } else if text::eq_str(&t, "close parenthesis") {
        Some(")")
    } else if text::eq_str(&t, "left parenthesis") {
        Some("(")
    } else if text::eq_str(&t, "right parenthesis") {
        Some(")")
    } else if text::eq_str(&t, "open bracket") {
        Some("[")
    } else if text::eq_str(&t, "close bracket") {
        Some("]")
    } else if text::eq_str(&t, "left bracket") {
        Some("[")
    } else if text::eq_str(&t, "right bracket") {
        Some("]")
    } else if text::eq_str(&t, "open brace") {
        Some("{")
    } else if text::eq_str(&t, "close brace") {
        Some("}")
    } else if text::eq_str(&t, "left brace") {
        Some("{")
    } else if text::eq_str(&t, "right brace") {
        Some("}")
    } else if text::eq_str(&t, "double quote") {
        Some("\"")
    } else if text::eq_str(&t, "single quote") {
        Some("'")
    } else if text::eq_str(&t, "forward slash") {
        Some("/")
    } else if text::eq_str(&t, "back slash") {
        Some("\\")
    } else if text::eq_str(&t, "period") {
        Some(".")
    } else if text::eq_str(&t, "dot") {
        Some(".")
    } else if text::eq_str(&t, "comma") {
        Some(",")
    } else if text::eq_str(&t, "colon") {
        Some(":")
    } else if text::eq_str(&t, "semicolon") {
        Some(";")
    } else if text::eq_str(&t, "hyphen") {
        Some("-")
    } else if text::eq_str(&t, "dash") {
        Some("-")
    } else if text::eq_str(&t, "ellipsis") {
        Some("...")
    } else if text::eq_str(&t, "ampersand") {
        Some("&")
    } else if text::eq_str(&t, "asterisk") {
        Some("*")
    } else if text::eq_str(&t, "at sign") {
        Some("@")
    } else if text::eq_str(&t, "hash") {
        Some("#")
    } else if text::eq_str(&t, "percent") {
        Some("%")
    } else if text::eq_str(&t, "plus") {
        Some("+")
    } else if text::eq_str(&t, "equals") {
        Some("=")
    } else if text::eq_str(&t, "tilde") {
        Some("~")
    } else if text::eq_str(&t, "underscore") {
        Some("_")
    } else if text::eq_str(&t, "pipe") {
        Some("|")
    } else if text::eq_str(&t, "slash") {
        Some("/")
    } else {
        None
    };
    match sym {
        Some(s) => Some(text::str_to_chars(s)),
        None => None,
    }
}

/// Parse a spoken punctuation phrase; only an exact full-input match fires.
pub fn parse(input: &str) -> (r: Option<String>)
    ensures
        view_opt_str(r) == punctuation_spec(input@),
{
    let cv = text::str_to_chars(input);
    match parse_chars(&cv) {
        Some(out) => Some(text::chars_to_string(&out)),
        None => None,
    }
}

} // verus!
