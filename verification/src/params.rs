//! The parameters of a server stream, as a request body spells them: the
//! number of chunks, a colon, and the size of each.

use vstd::prelude::*;
use vstd::string::*;
use vstd::utf8::*;
use crate::buffer;
use crate::buffer::text_of;
use crate::decimal;
use crate::decimal::{decimal, read_number};
use crate::payload::{STREAM_CHUNKS, STREAM_CHUNK_SIZE};
use crate::text::{characters, join3};

verus! {

/// How many chunks a server streams when the body does not say.
pub const DEFAULT_CHUNKS: usize = 100;

/// How large the chunks are when the body does not say.
pub const DEFAULT_CHUNK_SIZE: usize = 10240;

/// What a client asks of a server stream.
#[derive(Clone, Copy, Debug, PartialEq, Eq, Structural)]
pub struct StreamParams {
    pub chunks: usize,
    pub chunk_size: usize,
}

/// A text up to its first colon, or all of it.
pub open spec fn first_field(text: Seq<char>) -> Seq<char> {
    match text.index_of_first(':') {
        Some(i) => text.take(i),
        None => text,
    }
}

/// What lies between the first colon of a text and the next one or the end.
/// `None` in a text without a colon.
pub open spec fn second_field(text: Seq<char>) -> Option<Seq<char>> {
    match text.index_of_first(':') {
        Some(i) => Some(first_field(text.skip(i + 1))),
        None => None,
    }
}

/// The parameters that a text spells. A field that is no number, or is
/// missing, stands for its default.
pub open spec fn params_in(text: Seq<char>) -> StreamParams {
    StreamParams {
        chunks: match decimal::number_in(first_field(text)) {
            Some(n) => n,
            None => DEFAULT_CHUNKS,
        },
        chunk_size: match second_field(text) {
            Some(field) => match decimal::number_in(field) {
                Some(n) => n,
                None => DEFAULT_CHUNK_SIZE,
            },
            None => DEFAULT_CHUNK_SIZE,
        },
    }
}

/// Two numbers with a colon between them.
pub open spec fn pair_text(a: nat, b: nat) -> Seq<char> {
    decimal::digits(a) + ":"@ + decimal::digits(b)
}

/// A decimal text holds no colon.
proof fn lemma_no_colon_in_digits(n: nat)
    ensures
        !decimal::digits(n).contains(':'),
{
    decimal::lemma_digits_are_digits(n);
    if decimal::digits(n).contains(':') {
        let i = choose|i: int| 0 <= i < decimal::digits(n).len() && decimal::digits(n)[i] == ':';
        assert(decimal::is_digit(decimal::digits(n)[i]));
    }
}

/// The fields of two numbers with a colon between them.
pub proof fn lemma_fields_of_pair(a: nat, b: nat)
    ensures
        first_field(pair_text(a, b)) == decimal::digits(a),
        second_field(pair_text(a, b)) == Some(decimal::digits(b)),
{
    reveal_strlit(":");
    let left = decimal::digits(a);
    let right = decimal::digits(b);
    let text = pair_text(a, b);
    lemma_no_colon_in_digits(a);
    lemma_no_colon_in_digits(b);
    text.index_of_first_ensures(':');
    assert(text[left.len() as int] == ':');
    let i = text.index_of_first(':').unwrap();
    if i < left.len() {
        assert(left[i] == text[i]);
        assert(left.contains(':'));
    }
    assert(i == left.len());
    assert(text.take(i) =~= left);
    assert(text.skip(i + 1) =~= right);
    right.index_of_first_ensures(':');
}

/// What a client spells, the server reads: every pair of parameters comes
/// back out of the text that spells it.
pub proof fn law_params_read_back(chunks: usize, chunk_size: usize)
    ensures
        params_in(pair_text(chunks as nat, chunk_size as nat)) == (StreamParams {
            chunks,
            chunk_size,
        }),
{
    lemma_fields_of_pair(chunks as nat, chunk_size as nat);
    decimal::law_written_number_reads_back(chunks);
    decimal::law_written_number_reads_back(chunk_size);
}

/// An empty body, and any body whose first field is no number and that has no
/// colon, asks for the defaults.
pub proof fn law_silent_body_asks_for_defaults(text: Seq<char>)
    requires
        !text.contains(':'),
        decimal::number_in(text) is None,
    ensures
        params_in(text) == (StreamParams {
            chunks: DEFAULT_CHUNKS,
            chunk_size: DEFAULT_CHUNK_SIZE,
        }),
{
    text.index_of_first_ensures(':');
}

/// The place of the first colon in `text[from..]`; the length of `text` if there is none.
fn find_colon(text: &Vec<char>, from: usize) -> (at: usize)
    requires
        from <= text@.len(),
    ensures
        from <= at <= text@.len(),
        at < text@.len() ==> text@.skip(from as int).index_of_first(':') == Some(at - from),
        at == text@.len() ==> text@.skip(from as int).index_of_first(':') is None,
{
    let ghost rest = text@.skip(from as int);
    let mut at: usize = from;
    while at < text.len() && text[at] != ':'
        invariant
            from <= at <= text@.len(),
            rest == text@.skip(from as int),
            forall|j: int| 0 <= j < at - from ==> #[trigger] rest[j] != ':',
        decreases text@.len() - at,
    {
        assert(rest[at - from] == text@[at as int]);
        at = at + 1;
    }
    proof {
        rest.index_of_first_ensures(':');
        if at < text@.len() {
            assert(rest[at - from] == ':');
            assert(rest.contains(':'));
        }
    }
    at
}

/// Reads the parameters that a text spells.
pub fn parse_params(text: &str) -> (params: StreamParams)
    ensures
        params == params_in(text@),
{
    let chars = characters(text);
    assert(chars@.skip(0) =~= chars@);
    let end: usize = find_colon(&chars, 0);
    assert(chars@.subrange(0, end as int) =~= first_field(text@));
    let chunks: usize = match read_number(&chars, 0, end) {
        Some(n) => n,
        None => DEFAULT_CHUNKS,
    };
    let chunk_size: usize = if end < chars.len() {
        let start: usize = end + 1;
        let stop: usize = find_colon(&chars, start);
        assert(chars@.subrange(start as int, stop as int) =~= first_field(
            chars@.skip(start as int),
        ));
        match read_number(&chars, start, stop) {
            Some(n) => n,
            None => DEFAULT_CHUNK_SIZE,
        }
    } else {
        DEFAULT_CHUNK_SIZE
    };
    StreamParams { chunks, chunk_size }
}

/// Reads the parameters out of a request body.
pub fn read_params(body: &Vec<u8>) -> (params: StreamParams)
    ensures
        params == params_in(buffer::text_in(body@)),
{
    let text = text_of(body);
    parse_params(text.as_str())
}

/// Two numbers with a colon between them.
pub fn write_pair(a: usize, b: usize) -> (text: String)
    ensures
        text@ == pair_text(a as nat, b as nat),
{
    join3(decimal(a as u64).as_str(), ":", decimal(b as u64).as_str())
}

/// What the stream test asks for, spelled out.
pub fn stream_test_params() -> (text: String)
    ensures
        text@ == pair_text(STREAM_CHUNKS as nat, STREAM_CHUNK_SIZE as nat),
{
    write_pair(STREAM_CHUNKS, STREAM_CHUNK_SIZE)
}

/// A body that spells a pair of parameters in UTF-8 is read as that pair.
pub proof fn law_encoded_params_read_back(chunks: usize, chunk_size: usize)
    ensures
        params_in(
            buffer::text_in(encode_utf8(pair_text(chunks as nat, chunk_size as nat))),
        ) == (StreamParams { chunks, chunk_size }),
{
    buffer::law_encoded_text_arrives(pair_text(chunks as nat, chunk_size as nat));
    law_params_read_back(chunks, chunk_size);
}

/// A text without a colon is one field.
proof fn lemma_single_field(a: Seq<char>)
    requires
        !a.contains(':'),
    ensures
        first_field(a) == a,
        second_field(a) is None,
{
    a.index_of_first_ensures(':');
}

/// The first field ends at the first colon, and the second one starts there.
proof fn lemma_leading_field(a: Seq<char>, rest: Seq<char>)
    requires
        !a.contains(':'),
    ensures
        first_field(a + seq![':'] + rest) == a,
        second_field(a + seq![':'] + rest) == Some(first_field(rest)),
{
    let text = a + seq![':'] + rest;
    text.index_of_first_ensures(':');
    assert(text[a.len() as int] == ':');
    let i = text.index_of_first(':').unwrap();
    if i < a.len() {
        assert(a[i] == text[i]);
        assert(a.contains(':'));
    }
    assert(i == a.len());
    assert(text.take(i) =~= a);
    assert(text.skip(i + 1) =~= rest);
}

/// The fields of a body are read apart: the number of chunks is what the first
/// one spells and else 100, their size is what the second one spells and else
/// 10240, and neither reading depends on the other field. What follows a second
/// colon is not read.
pub proof fn law_fields_are_read_apart(a: Seq<char>, b: Seq<char>, rest: Seq<char>)
    requires
        !a.contains(':'),
        !b.contains(':'),
    ensures
        ({
            let both = a + seq![':'] + b;
            &&& decimal::number_in(a) matches Some(n) ==> {
                &&& params_in(a).chunks == n
                &&& params_in(both).chunks == n
            }
            &&& decimal::number_in(a) is None ==> {
                &&& params_in(a).chunks == 100
                &&& params_in(both).chunks == 100
            }
            &&& params_in(a).chunk_size == 10240
            &&& decimal::number_in(b) matches Some(n) ==> params_in(both).chunk_size == n
            &&& decimal::number_in(b) is None ==> params_in(both).chunk_size == 10240
            &&& params_in(both + seq![':'] + rest) == params_in(both)
        }),
{
    let both = a + seq![':'] + b;
    lemma_single_field(a);
    lemma_single_field(b);
    lemma_leading_field(a, b);
    lemma_leading_field(b, rest);
    lemma_leading_field(a, b + seq![':'] + rest);
    assert(both + seq![':'] + rest =~= a + seq![':'] + (b + seq![':'] + rest));
}

/// A pair is its two numbers, in their sequence, with one colon between them.
pub proof fn law_pair_holds_both_numbers(a: nat, b: nat)
    ensures
        ({
            let left = decimal::digits(a);
            let text = pair_text(a, b);
            &&& text.take(left.len() as int) == left
            &&& text[left.len() as int] == ':'
            &&& text.skip(left.len() as int + 1) == decimal::digits(b)
        }),
{
    reveal_strlit(":");
    let left = decimal::digits(a);
    let text = pair_text(a, b);
    assert(text.take(left.len() as int) =~= left);
    assert(text.skip(left.len() as int + 1) =~= decimal::digits(b));
}

} // verus!
