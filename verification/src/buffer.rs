//! Byte buffers, as the transports hand them over and take them.

use vstd::prelude::*;
use vstd::string::*;
use vstd::utf8::*;
use bytes::Buf;
use bytes::Bytes;

verus! {

/// A shared, immutable run of bytes, with a position from which it is read.
#[verifier::external_type_specification]
#[verifier::external_body]
pub struct ExBytes(bytes::Bytes);

/// The bytes that a buffer still holds, from its position on.
pub uninterp spec fn content(buffer: bytes::Bytes) -> Seq<u8>;

/// The text that `String::from_utf8_lossy` makes of some bytes.
pub uninterp spec fn lossy_text(bytes: Seq<u8>) -> Seq<char>;

/// The text that some bytes are taken for: their decoding when they are valid
/// UTF-8, and else what can be made of them.
pub open spec fn text_in(bytes: Seq<u8>) -> Seq<char> {
    if valid_utf8(bytes) {
        decode_utf8(bytes)
    } else {
        lossy_text(bytes)
    }
}

/// `n` copies of one byte.
pub open spec fn filled(byte: u8, n: nat) -> Seq<u8> {
    Seq::new(n, |i: int| byte)
}

/// The contents of some buffers, one after the other.
pub open spec fn joined(parts: Seq<Seq<u8>>) -> Seq<u8>
    decreases parts.len(),
{
    if parts.len() == 0 {
        Seq::empty()
    } else {
        joined(parts.drop_last()) + parts.last()
    }
}

/// `Bytes::clone`: the copy holds the bytes that the buffer holds.
pub assume_specification[ <bytes::Bytes as Clone>::clone ](b: &bytes::Bytes) -> (copy: bytes::Bytes)
    ensures
        content(copy) == content(*b),
;

/// `Bytes::from(Vec<u8>)`: the buffer holds the bytes of the vector.
#[verifier::external_body]
pub(crate) fn buffer_of(data: Vec<u8>) -> (buffer: Bytes)
    ensures
        content(buffer) == data@,
{
    Bytes::from(data)
}

/// `Bytes::from(String)`: the buffer holds the text in UTF-8.
#[verifier::external_body]
pub(crate) fn buffer_of_text(text: String) -> (buffer: Bytes)
    ensures
        content(buffer) == encode_utf8(text@),
{
    Bytes::from(text)
}

/// `Bytes::from(&'static str)`: the buffer holds the text in UTF-8.
#[verifier::external_body]
pub(crate) fn buffer_of_literal(text: &'static str) -> (buffer: Bytes)
    ensures
        content(buffer) == encode_utf8(text@),
{
    Bytes::from(text)
}

/// `Bytes::copy_from_slice`: the buffer holds a copy of the bytes.
#[verifier::external_body]
pub(crate) fn buffer_copied_from(data: &[u8]) -> (buffer: Bytes)
    ensures
        content(buffer) == data@,
{
    Bytes::copy_from_slice(data)
}

/// `Buf::has_remaining` of a `Bytes`: whether any byte is left.
#[verifier::external_body]
fn has_remaining(buffer: &Bytes) -> (left: bool)
    ensures
        left == (content(*buffer).len() > 0),
{
    buffer.has_remaining()
}

/// `Buf::chunk` of a `Bytes`, which lies in one piece: all the bytes that are left.
#[verifier::external_body]
fn chunk(buffer: &Bytes) -> (piece: &[u8])
    ensures
        piece@ == content(*buffer),
{
    buffer.chunk()
}

/// `Buf::advance` of a `Bytes`: moves the position on by `count` bytes. It
/// panics when fewer are left.
#[verifier::external_body]
fn advance(buffer: &mut Bytes, count: usize)
    requires
        count <= content(*old(buffer)).len(),
    ensures
        content(*final(buffer)) == content(*old(buffer)).skip(count as int),
{
    buffer.advance(count)
}

/// `String::from_utf8_lossy`: the text of some bytes, which is their decoding
/// when they are valid UTF-8. What stands in place of the parts that are not
/// is left open here.
#[verifier::external_body]
fn from_utf8_lossy(bytes: &[u8]) -> (text: String)
    ensures
        text@ == lossy_text(bytes@),
        valid_utf8(bytes@) ==> text@ == decode_utf8(bytes@),
{
    String::from_utf8_lossy(bytes).into_owned()
}

/// The text that a received body is taken for.
pub fn text_of(bytes: &Vec<u8>) -> (text: String)
    ensures
        text@ == text_in(bytes@),
{
    from_utf8_lossy(bytes.as_slice())
}

/// A vector of `n` copies of one byte. No vector is longer than `isize::MAX` bytes.
pub fn fill(byte: u8, n: usize) -> (data: Vec<u8>)
    requires
        n <= isize::MAX,
    ensures
        data@ == filled(byte, n as nat),
{
    let data = vec![byte; n];
    assert(data@ =~= filled(byte, n as nat));
    data
}

/// A vector of copies of one byte, as long as another vector.
pub fn fill_like(byte: u8, other: &Vec<u8>) -> (data: Vec<u8>)
    ensures
        data@ == filled(byte, other@.len()),
{
    let data = vec![byte; other.len()];
    assert(data@ =~= filled(byte, other@.len()));
    data
}

/// The number of bytes that a buffer still holds.
pub fn length(buffer: &Bytes) -> (n: usize)
    ensures
        n == content(*buffer).len(),
{
    chunk(buffer).len()
}

/// Reads a buffer to its end and adds the number of bytes read to `total`.
pub fn count_bytes(total: usize, buffer: Bytes) -> (sum: usize)
    requires
        total + content(buffer).len() <= usize::MAX,
    ensures
        sum == total + content(buffer).len(),
{
    let ghost all = content(buffer).len();
    let mut buffer = buffer;
    let mut sum: usize = total;
    while has_remaining(&buffer)
        invariant
            sum + content(buffer).len() == total + all,
            total + all <= usize::MAX,
        decreases content(buffer).len(),
    {
        let len: usize = chunk(&buffer).len();
        sum = sum + len;
        advance(&mut buffer, len);
    }
    sum
}

/// Reads a buffer to its end and appends what it held to `data`.
pub fn collect_bytes(data: &mut Vec<u8>, buffer: Bytes)
    ensures
        final(data)@ == old(data)@ + content(buffer),
{
    let ghost all = content(buffer);
    let mut buffer = buffer;
    assert(data@ + content(buffer) =~= old(data)@ + all);
    while has_remaining(&buffer)
        invariant
            data@ + content(buffer) == old(data)@ + all,
        decreases content(buffer).len(),
    {
        let ghost before = data@;
        let piece = chunk(&buffer);
        let len: usize = piece.len();
        data.extend_from_slice(piece);
        assert(data@ =~= before + content(buffer));
        advance(&mut buffer, len);
        assert(content(buffer) =~= Seq::<u8>::empty());
        assert(data@ + content(buffer) =~= data@);
    }
    assert(data@ + content(buffer) =~= data@);
}

/// Reads a buffer to its end and copies each piece that it yields. A buffer
/// lies in one piece, so one copy comes out, and none of an empty buffer.
pub fn copy_pieces(buffer: Bytes) -> (pieces: Vec<Bytes>)
    ensures
        content(buffer).len() == 0 ==> pieces@.len() == 0,
        content(buffer).len() > 0 ==> pieces@.len() == 1 && content(pieces@[0]) == content(buffer),
{
    let ghost all = content(buffer);
    let mut buffer = buffer;
    let mut pieces: Vec<Bytes> = Vec::new();
    while has_remaining(&buffer)
        invariant
            pieces@.len() == 0 ==> content(buffer) == all,
            pieces@.len() > 0 ==> pieces@.len() == 1 && content(buffer).len() == 0 && all.len() > 0
                && content(pieces@[0]) == all,
        decreases content(buffer).len(),
    {
        let piece = chunk(&buffer);
        let copy = buffer_copied_from(piece);
        let len: usize = piece.len();
        advance(&mut buffer, len);
        pieces.push(copy);
    }
    pieces
}

/// A text that travels as UTF-8 arrives as it was.
pub proof fn law_encoded_text_arrives(text: Seq<char>)
    ensures
        text_in(encode_utf8(text)) == text,
{
    encode_utf8_valid_utf8(text);
    encode_utf8_decode_utf8(text);
}

/// Copies of one byte are as many as were asked for, and hold nothing else.
pub proof fn law_filling_is_uniform(byte: u8, n: nat)
    ensures
        filled(byte, n).len() == n,
        forall|i: int| 0 <= i < n ==> #[trigger] filled(byte, n)[i] == byte,
{
}

/// Joining keeps every byte and the sequence of the chunks: nothing joins to
/// nothing, a chunk to itself, and two rows of chunks to what each joins to.
pub proof fn law_joining_keeps_the_sequence(
    front: Seq<Seq<u8>>,
    back: Seq<Seq<u8>>,
    chunk: Seq<u8>,
)
    ensures
        joined(Seq::<Seq<u8>>::empty()) == Seq::<u8>::empty(),
        joined(seq![chunk]) == chunk,
        joined(front + back) == joined(front) + joined(back),
    decreases back.len(),
{
    reveal_with_fuel(joined, 2);
    assert(seq![chunk].drop_last() =~= Seq::<Seq<u8>>::empty());
    assert(Seq::<u8>::empty() + chunk =~= chunk);
    if back.len() == 0 {
        assert(front + back =~= front);
        assert(joined(front) + joined(back) =~= joined(front));
    } else {
        law_joining_keeps_the_sequence(front, back.drop_last(), chunk);
        assert((front + back).drop_last() =~= front + back.drop_last());
        assert((front + back).last() == back.last());
        assert(joined(front) + (joined(back.drop_last()) + back.last()) =~= joined(front) + joined(
            back.drop_last(),
        ) + back.last());
    }
}

/// The text of a body loses nothing: where the bytes are UTF-8, they are the
/// encoding of their text, so that two such bodies have one text only where
/// they are the same. Where they are not, the text is what the standard library
/// makes of them.
pub proof fn law_text_loses_nothing(a: Seq<u8>, b: Seq<u8>)
    ensures
        valid_utf8(a) ==> encode_utf8(text_in(a)) == a,
        valid_utf8(a) && valid_utf8(b) && text_in(a) == text_in(b) ==> a == b,
        !valid_utf8(a) ==> text_in(a) == lossy_text(a),
{
    if valid_utf8(a) {
        decode_utf8_encode_utf8(a);
    }
    if valid_utf8(b) {
        decode_utf8_encode_utf8(b);
    }
}

} // verus!
