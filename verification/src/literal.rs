//! Reading an opcode from an integer literal.
use vstd::prelude::*;
use vstd::string::StrSliceExecFns;

verus! {

/// A character that an integer literal can hold: a digit, a letter (of a
/// base prefix, a hexadecimal digit or a suffix) or an underscore.
pub open spec fn is_word_char(c: char) -> bool {
    ('0' <= c && c <= '9') || ('a' <= c && c <= 'z') || ('A' <= c && c <= 'Z') || c == '_'
}

/// Whether `text` has the shape of an integer literal: it starts with a digit
/// and holds nothing but digits, letters and underscores.
pub open spec fn is_literal_word(text: Seq<char>) -> bool {
    &&& text.len() > 0
    &&& '0' <= text[0] && text[0] <= '9'
    &&& forall|i: int| 0 <= i < text.len() ==> is_word_char(#[trigger] text[i])
}

/// The value that the text of a literal denotes as an opcode: `Some` where the
/// text is one integer literal whose value fits in eight bits, `None`
/// otherwise.
pub uninterp spec fn opcode_literal(text: Seq<char>) -> Option<u8>;

/// The opcode that `text` denotes: none unless it has the shape of an integer
/// literal.
pub open spec fn literal_opcode(text: Seq<char>) -> Option<u8> {
    if is_literal_word(text) {
        opcode_literal(text)
    } else {
        None
    }
}

/// Parses `text` with `syn::parse_str::<syn::LitInt>` and reads the literal
/// with `syn::LitInt::base10_parse::<u8>`. A failure of either gives `None`.
/// The contract only names the result: it claims that the same text always
/// gives the same result, and nothing about which texts are accepted.
///
/// `syn` panics on a literal token of a kind it does not know. A text of the
/// required shape lexes to nothing, or to a token that starts with a digit and
/// holds only digits, letters and underscores, which `syn` reads as an integer
/// or as a floating-point literal.
#[verifier::external_body]
fn parse_opcode_literal(text: &str) -> (r: Option<u8>)
    requires
        is_literal_word(text@),
    ensures
        r == opcode_literal(text@),
{
    match syn::parse_str::<syn::LitInt>(text) {
        Ok(lit) => lit.base10_parse::<u8>().ok(),
        Err(_) => None,
    }
}

/// Whether `text` has the shape of an integer literal.
pub fn has_literal_shape(text: &str) -> (b: bool)
    ensures
        b == is_literal_word(text@),
{
    let n: usize = text.unicode_len();
    if n == 0 {
        return false;
    }
    let first = text.get_char(0);
    if !('0' <= first && first <= '9') {
        return false;
    }
    let mut i: usize = 0;
    while i < n
        invariant
            i <= n,
            n == text@.len(),
            forall|k: int| 0 <= k < i ==> is_word_char(#[trigger] text@[k]),
        decreases n - i,
    {
        let c = text.get_char(i);
        let ok = ('0' <= c && c <= '9') || ('a' <= c && c <= 'z') || ('A' <= c && c <= 'Z') || c
            == '_';
        if !ok {
            return false;
        }
        i += 1;
    }
    true
}

/// Reads an opcode from the text of a literal: `Some` where the text is an
/// integer literal whose value fits in eight bits.
pub fn read_opcode_literal(text: &str) -> (r: Option<u8>)
    ensures
        r == literal_opcode(text@),
{
    if has_literal_shape(text) {
        parse_opcode_literal(text)
    } else {
        None
    }
}

} // verus!
