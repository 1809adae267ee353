//! Qualified names of crate roots.
//!
//! The root of a crate `demo` has the qualified name `demo::`. The name of
//! the crate is that qualified name without its last two bytes.

use vstd::prelude::*;
use vstd::string::*;
use vstd::utf8::*;

verus! {

/// The separator that ends the qualified name of a crate root.
pub open spec fn path_separator() -> Seq<char> {
    seq![':', ':']
}

/// Whether the last two bytes of the UTF-8 encoding of `qualname` can be cut
/// off: there are two of them, and what is left ends at a character boundary.
pub open spec fn strippable(qualname: Seq<char>) -> bool {
    let bytes = encode_utf8(qualname);
    bytes.len() >= 2 && is_char_boundary(bytes, bytes.len() - 2)
}

/// The characters of `qualname` that are left when the last two bytes of its
/// UTF-8 encoding are cut off. Meaningful where `strippable(qualname)`.
pub open spec fn stripped(qualname: Seq<char>) -> Seq<char> {
    let bytes = encode_utf8(qualname);
    decode_utf8(bytes.subrange(0, bytes.len() - 2))
}

/// Whether the last two bytes of `qualname` can be cut off.
pub fn is_strippable(qualname: &str) -> (yes: bool)
    ensures
        yes == strippable(qualname@),
{
    let len = qualname.as_bytes().len();
    len >= 2 && qualname.is_char_boundary(len - 2)
}

/// Cuts the two-byte path separator off the end of a root's qualified name.
///
/// The cut is a fixed slice: the last two bytes go, whatever they are.
/// `None` is returned where no such slice exists.
pub fn strip_trailing_path_separator(qualname: &str) -> (name: Option<String>)
    ensures
        name is Some <==> strippable(qualname@),
        name matches Some(n) ==> n@ == stripped(qualname@),
{
    if !is_strippable(qualname) {
        return None;
    }
    let (head, _) = qualname.split_at(qualname.as_bytes().len() - 2);
    proof {
        encode_utf8_decode_utf8(head@);
    }
    Some(head.to_owned())
}

/// The UTF-8 encoding of two sequences, one after the other, is the
/// encoding of the first followed by that of the second.
proof fn lemma_encode_utf8_concat(a: Seq<char>, b: Seq<char>)
    ensures
        encode_utf8(a + b) == encode_utf8(a) + encode_utf8(b),
    decreases a.len(),
{
    if a.len() == 0 {
        assert(a + b =~= b);
        assert(encode_utf8(a) + encode_utf8(b) =~= encode_utf8(b));
    } else {
        assert((a + b).drop_first() =~= a.drop_first() + b);
        lemma_encode_utf8_concat(a.drop_first(), b);
        assert(encode_utf8(a + b) =~= encode_utf8(a) + encode_utf8(b));
    }
}

/// The cut takes exactly the last two characters where both are ASCII,
/// whatever they are: `name` followed by two such characters can be
/// stripped, and what is left is `name`.
pub proof fn lemma_strip_ascii_pair(name: Seq<char>, pair: Seq<char>)
    requires
        pair.len() == 2,
        is_ascii_chars(pair),
    ensures
        strippable(name + pair),
        stripped(name + pair) == name,
{
    let bytes = encode_utf8(name + pair);
    lemma_encode_utf8_concat(name, pair);
    is_ascii_chars_encode_utf8(pair);
    let head = encode_utf8(name);
    let tail = encode_utf8(pair);
    assert(tail[0] == pair[0] as u8);
    assert(bytes.subrange(0, bytes.len() - 2) =~= head);
    encode_utf8_valid_utf8(name + pair);
    assert(bytes[bytes.len() - 2] == tail[0]);
    assert(!is_continuation_byte(bytes[bytes.len() - 2]));
    is_char_boundary_iff_not_is_continuation_byte(bytes, bytes.len() - 2);
    encode_utf8_decode_utf8(name);
}

/// A qualified name of the form `<name>::` can be stripped, and what is left
/// is `<name>`.
pub proof fn lemma_strip_root_qualname(name: Seq<char>)
    ensures
        strippable(name + path_separator()),
        stripped(name + path_separator()) == name,
{
    lemma_strip_ascii_pair(name, path_separator());
}

} // verus!
