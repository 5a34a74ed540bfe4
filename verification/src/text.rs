//! String helpers, proved over the UTF-8 encoding of `str`.

use vstd::prelude::*;
use vstd::utf8::*;

verus! {

/// Two character sequences with the same UTF-8 encoding are the same.
pub proof fn lemma_encoding_injective(a: Seq<char>, b: Seq<char>)
    requires
        encode_utf8(a) == encode_utf8(b),
    ensures
        a == b,
{
    encode_utf8_decode_utf8(a);
    encode_utf8_decode_utf8(b);
}

/// Whether two strings hold the same characters.
pub fn str_eq(a: &str, b: &str) -> (same: bool)
    ensures
        same == (a@ == b@),
{
    let x = a.as_bytes();
    let y = b.as_bytes();
    if x.len() != y.len() {
        return false;
    }
    let mut i: usize = 0;
    while i < x.len()
        invariant
            i <= x.len(),
            x.len() == y.len(),
            x@ == encode_utf8(a@),
            y@ == encode_utf8(b@),
            forall|k: int| 0 <= k < i ==> x@[k] == y@[k],
        decreases x.len() - i,
    {
        if x[i] != y[i] {
            return false;
        }
        i += 1;
    }
    proof {
        assert(x@ =~= y@);
        lemma_encoding_injective(a@, b@);
    }
    true
}

/// The line feed that ends a line.
pub open spec fn line_feed() -> char {
    '\n'
}

/// Whether the sequence ends with a line feed.
pub open spec fn ends_with_line_feed(chars: Seq<char>) -> bool {
    chars.len() > 0 && chars.last() == line_feed()
}

/// The sequence without the one line feed that ends it, if one does.
pub open spec fn without_line_feed(chars: Seq<char>) -> Seq<char> {
    if ends_with_line_feed(chars) {
        chars.drop_last()
    } else {
        chars
    }
}

/// Encoding a sequence with one more character appends that character's bytes.
pub proof fn lemma_encoding_push(chars: Seq<char>, c: char)
    ensures
        encode_utf8(chars.push(c)) == encode_utf8(chars) + encode_scalar(c as u32),
    decreases chars.len(),
{
    let longer = chars.push(c);
    if chars.len() == 0 {
        assert(longer.drop_first() =~= chars);
        assert(encode_utf8(chars) =~= Seq::<u8>::empty());
        assert(encode_utf8(longer) =~= encode_utf8(chars) + encode_scalar(c as u32));
    } else {
        assert(longer.drop_first() =~= chars.drop_first().push(c));
        lemma_encoding_push(chars.drop_first(), c);
        assert(encode_utf8(longer) =~= encode_utf8(chars) + encode_scalar(c as u32));
    }
}

/// A line feed is encoded as the single byte 10.
pub proof fn lemma_line_feed_encoding()
    ensures
        encode_scalar(line_feed() as u32) == seq![10u8],
{
    assert(line_feed() as u32 == 10u32);
    assert((10u32 & 0x7F) as u8 == 10u8) by (bit_vector);
}

/// Takes the line feed off the end of a line that has one.
pub fn strip_line_feed(line: &str) -> (rest: &str)
    ensures
        rest@ == without_line_feed(line@),
{
    let bytes = line.as_bytes();
    let n = bytes.len();
    if n > 0 && bytes[n - 1] == 10u8 {
        proof {
            encode_utf8_valid_utf8(line@);
            is_char_boundary_iff_not_is_continuation_byte(bytes@, n - 1);
        }
        let (head, _) = line.split_at(n - 1);
        proof {
            lemma_encoding_push(head@, line_feed());
            lemma_line_feed_encoding();
            assert(encode_utf8(head@.push(line_feed())) =~= bytes@);
            lemma_encoding_injective(head@.push(line_feed()), line@);
            assert(head@ =~= line@.drop_last());
        }
        head
    } else {
        proof {
            if ends_with_line_feed(line@) {
                let init = line@.drop_last();
                assert(line@ =~= init.push(line_feed()));
                lemma_encoding_push(init, line_feed());
                lemma_line_feed_encoding();
                assert(bytes@[n - 1] == 10u8);
            }
        }
        line
    }
}

} // verus!
