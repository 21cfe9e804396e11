//! Validation of HTTP method text.

use reqwest::Method;
use vstd::prelude::*;
use vstd::string::StringExecFns;

verus! {

/// The characters that a method token may hold: ASCII letters and digits
/// and ten punctuation marks.
pub open spec fn is_method_char(c: char) -> bool {
    ||| 'a' <= c <= 'z'
    ||| 'A' <= c <= 'Z'
    ||| '0' <= c <= '9'
    ||| c == '!'
    ||| c == '*'
    ||| c == '+'
    ||| c == '-'
    ||| c == '.'
    ||| c == '^'
    ||| c == '_'
    ||| c == '`'
    ||| c == '|'
    ||| c == '~'
}

/// A method token is a non-empty text made of method characters only.
pub open spec fn is_method_token(text: Seq<char>) -> bool {
    &&& text.len() > 0
    &&& forall|i: int| 0 <= i < text.len() ==> is_method_char(#[trigger] text[i])
}

/// The fixed vocabulary of verbs that a request may be given.
pub open spec fn is_http_verb(text: Seq<char>) -> bool {
    ||| text == "OPTIONS"@
    ||| text == "GET"@
    ||| text == "POST"@
    ||| text == "PUT"@
    ||| text == "DELETE"@
    ||| text == "HEAD"@
    ||| text == "TRACE"@
    ||| text == "CONNECT"@
    ||| text == "PATCH"@
}

/// What is reported for a text that is no method token.
pub open spec fn invalid_method_message() -> Seq<char> {
    "invalid HTTP method"@
}

/// Every verb of the vocabulary is a method token.
pub proof fn lemma_verbs_are_tokens(text: Seq<char>)
    requires
        is_http_verb(text),
    ensures
        is_method_token(text),
{
    reveal_strlit("OPTIONS");
    reveal_strlit("GET");
    reveal_strlit("POST");
    reveal_strlit("PUT");
    reveal_strlit("DELETE");
    reveal_strlit("HEAD");
    reveal_strlit("TRACE");
    reveal_strlit("CONNECT");
    reveal_strlit("PATCH");
}

/// Parses `text` with `reqwest::Method::from_bytes`, the method parser of
/// the `http` crate, and hands back the method's own spelling
/// (`Method::as_str`), or the message of the parse error. The contract claims what the parser's source shows: it accepts
/// exactly the non-empty texts made of method characters, spells an
/// accepted method as it was written, and reports every other text with
/// the one message of its error type.
#[verifier::external_body]
pub(crate) fn parse_method(text: &str) -> (parsed: Result<String, String>)
    ensures
        is_method_token(text@) ==> parsed is Ok && parsed->Ok_0@ == text@,
        !is_method_token(text@) ==> parsed is Err && parsed->Err_0@ == invalid_method_message(),
{
    match Method::from_bytes(text.as_bytes()) {
        Ok(method) => Ok(method.as_str().to_string()),
        Err(error) => Err(error.to_string()),
    }
}

/// Tells whether `text` is one of the verbs of the vocabulary.
pub fn is_verb(text: &str) -> (known: bool)
    ensures
        known == is_http_verb(text@),
{
    let text = String::from_str(text);
    text == String::from_str("OPTIONS") || text == String::from_str("GET") || text
        == String::from_str("POST") || text == String::from_str("PUT") || text == String::from_str(
        "DELETE",
    ) || text == String::from_str("HEAD") || text == String::from_str("TRACE") || text
        == String::from_str("CONNECT") || text == String::from_str("PATCH")
}

/// Validates the text of a method field: the verb it names, if it names
/// one of the vocabulary.
pub fn checked_verb(text: &str) -> (verb: Option<String>)
    ensures
        is_http_verb(text@) ==> verb is Some && verb->Some_0@ == text@,
        !is_http_verb(text@) ==> verb is None,
{
    match parse_method(text) {
        Ok(name) => {
            if is_verb(name.as_str()) {
                Some(name)
            } else {
                None
            }
        },
        Err(_) => {
            proof {
                if is_http_verb(text@) {
                    lemma_verbs_are_tokens(text@);
                }
            }
            None
        },
    }
}

} // verus!
