//! The type-dispatch encoding engine.
//!
//! [`handle_type`] takes raw text and a type tag, validates the text against
//! that tag's shape rule, and either renders the value's bytes as a
//! debug-hex display or reports a precise validation error. Dispatch is
//! total: a tag with no encoding rule yields an explicit "not handled"
//! error, never a silent fallthrough.

use vstd::prelude::*;
use vstd::string::StrSliceExecFns;
use vstd::string::StringExecFns;
use vstd::string::StringSliceAdditionalSpecFns;
use vstd::utf8::encode_utf8;

use crate::render::debug_hex;
use crate::render::debug_hex_string;
use crate::render::dec_rep;
use crate::render::hex_token;
use crate::render::hex_tokens;
use crate::render::usize_to_decimal;

verus! {

/// Why an encode request was rejected: a single human-readable message.
#[derive(Debug, Clone)]
pub struct TypeError {
    pub message: String,
}

/// The four bytes of `x` in big-endian order: most significant byte first.
pub open spec fn be_bytes_u32(x: u32) -> Seq<u8> {
    seq![
        ((x >> 24) & 0xFF) as u8,
        ((x >> 16) & 0xFF) as u8,
        ((x >> 8) & 0xFF) as u8,
        (x & 0xFF) as u8,
    ]
}

/// The message for a `char` request whose text has `n` characters instead
/// of exactly one.
pub open spec fn arity_message(n: nat) -> Seq<char> {
    "Text must be exactly 1 character, not "@ + dec_rep(n) + " characters."@
}

/// The message for a type tag that no dispatch arm handles; it names the
/// tag verbatim.
pub open spec fn unhandled_message(tag: Seq<char>) -> Seq<char> {
    "Type `"@ + tag + "` not handled."@
}

/// What encoding returns, as a function of the text and the tag alone: the
/// rendered display on success, the error message on failure.
pub open spec fn encode_spec(text: Seq<char>, tag: Seq<char>) -> Result<Seq<char>, Seq<char>> {
    if tag == "char"@ {
        if text.len() == 1 {
            Ok(debug_hex(be_bytes_u32(text[0] as u32)))
        } else {
            Err(arity_message(text.len()))
        }
    } else if tag == "string"@ {
        Ok(debug_hex(encode_utf8(text)))
    } else {
        Err(unhandled_message(tag))
    }
}

/// Character-by-character equality of two string slices.
pub fn str_eq(a: &str, b: &str) -> (r: bool)
    ensures
        r == (a@ == b@),
{
    let a_len: usize = a.unicode_len();
    let b_len: usize = b.unicode_len();
    if a_len != b_len {
        return false;
    }
    let mut i: usize = 0;
    while i < a_len
        invariant
            i <= a_len,
            a_len == a@.len(),
            a_len == b@.len(),
            forall|j: int| 0 <= j < i ==> a@[j] == b@[j],
        decreases a_len - i,
    {
        if a.get_char(i) != b.get_char(i) {
            return false;
        }
        i = i + 1;
    }
    proof {
        assert(a@ =~= b@);
    }
    true
}

/// Encodes `text` under the `char` rule: the text must hold exactly one
/// character (counted by logical character, not by storage unit); its code
/// point is rendered as four big-endian bytes in debug-hex. Otherwise the
/// error message reports the required count (1) and the actual count.
pub fn handle_char(text: &String) -> (r: Result<String, TypeError>)
    ensures
        text@.len() == 1 ==> (r matches Ok(s) && s@ == debug_hex(
            be_bytes_u32(text@[0] as u32),
        )),
        text@.len() != 1 ==> (r matches Err(e) && e.message@ == arity_message(text@.len())),
{
    let n: usize = text.as_str().unicode_len();
    if n != 1 {
        let mut message: String = "Text must be exactly 1 character, not ".to_owned();
        let count: String = usize_to_decimal(n);
        message.append(count.as_str());
        message.append(" characters.");
        proof {
            assert(message@ =~= arity_message(text@.len()));
        }
        return Err(TypeError { message });
    }
    let c: char = text.as_str().get_char(0);
    let x: u32 = c as u32;
    proof {
        assert((x >> 24) & 0xFF < 256) by (bit_vector);
        assert((x >> 16) & 0xFF < 256) by (bit_vector);
        assert((x >> 8) & 0xFF < 256) by (bit_vector);
        assert(x & 0xFF < 256) by (bit_vector);
    }
    let mut bytes: Vec<u8> = Vec::new();
    bytes.push(((x >> 24) & 0xFF) as u8);
    bytes.push(((x >> 16) & 0xFF) as u8);
    bytes.push(((x >> 8) & 0xFF) as u8);
    bytes.push((x & 0xFF) as u8);
    proof {
        assert(bytes@ =~= be_bytes_u32(x));
    }
    Ok(debug_hex_string(bytes.as_slice()))
}

/// Encodes `text` under the `string` rule: always valid; the text's byte
/// encoding is rendered as debug-hex, one token per byte, in order.
pub fn handle_string(text: &String) -> (r: Result<String, TypeError>)
    ensures
        r matches Ok(s) && s@ == debug_hex(encode_utf8(text@)),
{
    Ok(debug_hex_string(text.as_str().as_bytes()))
}

/// Dispatches on the type tag: `"char"` and `"string"` get their encoding
/// rules; any other tag fails with a message naming it verbatim. The result
/// is the one that `encode_spec` fixes for this input.
pub fn handle_type(text: &String, text_type: &String) -> (r: Result<String, TypeError>)
    ensures
        r is Ok <==> encode_spec(text@, text_type@) is Ok,
        r matches Ok(s) ==> encode_spec(text@, text_type@) == Ok::<Seq<char>, Seq<char>>(s@),
        r matches Err(e) ==> encode_spec(text@, text_type@) == Err::<Seq<char>, Seq<char>>(
            e.message@,
        ),
{
    if str_eq(text_type.as_str(), "char") {
        handle_char(text)
    } else if str_eq(text_type.as_str(), "string") {
        handle_string(text)
    } else {
        let mut message: String = "Type `".to_owned();
        message.append(text_type.as_str());
        message.append("` not handled.");
        proof {
            assert(message@ =~= unhandled_message(text_type@));
        }
        Err(TypeError { message })
    }
}

/// Law: a single character always encodes successfully under the `char`
/// rule, as exactly one hex token per byte of the four-byte big-endian
/// rendering of its code point, most significant byte first.
pub proof fn lemma_char_encoding(c: char)
    ensures
        encode_spec(seq![c], "char"@) == Ok::<Seq<char>, Seq<char>>(
            debug_hex(be_bytes_u32(c as u32)),
        ),
        be_bytes_u32(c as u32).len() == 4,
        hex_tokens(be_bytes_u32(c as u32)).len() == 4,
        forall|k: int|
            0 <= k < 4 ==> #[trigger] hex_tokens(be_bytes_u32(c as u32))[k] == hex_token(
                be_bytes_u32(c as u32)[k],
            ),
        be_bytes_u32(c as u32)[0] == ((c as u32) >> 24) & 0xFF,
        be_bytes_u32(c as u32)[1] == ((c as u32) >> 16) & 0xFF,
        be_bytes_u32(c as u32)[2] == ((c as u32) >> 8) & 0xFF,
        be_bytes_u32(c as u32)[3] == (c as u32) & 0xFF,
{
    let x = c as u32;
    assert((x >> 24) & 0xFF < 256) by (bit_vector);
    assert((x >> 16) & 0xFF < 256) by (bit_vector);
    assert((x >> 8) & 0xFF < 256) by (bit_vector);
    assert(x & 0xFF < 256) by (bit_vector);
}

/// Law: a `char` request whose text does not have exactly one character
/// fails, and the error message carries the decimal rendering of the
/// actual character count, right after its 38-character prefix.
pub proof fn lemma_char_arity_error(text: Seq<char>)
    requires
        text.len() != 1,
    ensures
        encode_spec(text, "char"@) == Err::<Seq<char>, Seq<char>>(arity_message(text.len())),
        arity_message(text.len()).subrange(38, 38 + dec_rep(text.len()).len() as int) == dec_rep(
            text.len(),
        ),
{
    reveal_strlit("Text must be exactly 1 character, not ");
    assert(arity_message(text.len()).subrange(38, 38 + dec_rep(text.len()).len() as int)
        =~= dec_rep(text.len()));
}

/// Law: a `string` request always succeeds, rendering one hex token per
/// byte of the text's byte encoding, in original sequence order.
pub proof fn lemma_string_encoding(text: Seq<char>)
    ensures
        encode_spec(text, "string"@) == Ok::<Seq<char>, Seq<char>>(
            debug_hex(encode_utf8(text)),
        ),
        hex_tokens(encode_utf8(text)).len() == encode_utf8(text).len(),
        forall|k: int|
            0 <= k < encode_utf8(text).len() ==> #[trigger] hex_tokens(encode_utf8(text))[k]
                == hex_token(encode_utf8(text)[k]),
{
    reveal_strlit("char");
    reveal_strlit("string");
    assert("string"@.len() != "char"@.len());
}

/// Law: any tag other than `char` and `string` fails, with a message that
/// holds the tag verbatim between backticks and the phrase "not handled".
pub proof fn lemma_unhandled_tag(text: Seq<char>, tag: Seq<char>)
    requires
        tag != "char"@,
        tag != "string"@,
    ensures
        encode_spec(text, tag) == Err::<Seq<char>, Seq<char>>(unhandled_message(tag)),
        unhandled_message(tag).len() == tag.len() + 20,
        unhandled_message(tag).subrange(6, 6 + tag.len() as int) == tag,
        unhandled_message(tag).subrange(8 + tag.len() as int, 19 + tag.len() as int)
            == "not handled"@,
{
    reveal_strlit("Type `");
    reveal_strlit("` not handled.");
    reveal_strlit("not handled");
    assert(unhandled_message(tag).subrange(6, 6 + tag.len() as int) =~= tag);
    assert(unhandled_message(tag).subrange(8 + tag.len() as int, 19 + tag.len() as int)
        =~= "not handled"@);
}

/// Law: encoding is deterministic — for one input, the contract of
/// `handle_type` admits exactly one result, so two calls with identical
/// arguments yield identical renderings or identical messages.
pub proof fn lemma_encode_deterministic(
    text: Seq<char>,
    tag: Seq<char>,
    r1: Result<Seq<char>, Seq<char>>,
    r2: Result<Seq<char>, Seq<char>>,
)
    requires
        r1 == encode_spec(text, tag),
        r2 == encode_spec(text, tag),
    ensures
        r1 == r2,
{
}

/// Law: exactly the `string` requests and the one-character `char`
/// requests succeed; every other request yields an error value.
pub proof fn lemma_encode_success_iff(text: Seq<char>, tag: Seq<char>)
    ensures
        encode_spec(text, tag) is Ok <==> (tag == "string"@ || (tag == "char"@ && text.len()
            == 1)),
{
    reveal_strlit("char");
    reveal_strlit("string");
    assert("string"@.len() != "char"@.len());
}

} // verus!
