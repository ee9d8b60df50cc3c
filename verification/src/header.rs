//! The container's layout: a header of 21 bytes, then the coded data.
//!
//! ```text
//! offset  0  packed parameters     1 byte
//! offset  1  dictionary size       4 bytes, little-endian
//! offset  5  length of plain data  8 bytes, little-endian
//! offset 13  length of coded data  8 bytes, little-endian
//! offset 21  coded data
//! ```
//!
//! There is no magic number: whoever reads a container knows where it starts.

use crate::endian::{le_bytes_u64, le_value_u64};
use crate::endian::{lemma_u64_bytes_of_value, lemma_u64_value_of_bytes};
use crate::props::{lemma_params_round_trip, lemma_props_round_trip};
use crate::props::{params_of, props_of, CodecParameters};
use vstd::prelude::*;

verus! {

/// Length of each of the two length fields in bytes.
pub const LENGTH_LEN: usize = 8;

/// Length of the whole header in bytes.
pub const HEADER_LEN: usize = 21;

/// What the header of a container says.
#[derive(Clone, Copy, Debug, PartialEq, Eq, Structural)]
pub struct ContainerHeader {
    /// The parameters that the data was coded with.
    pub params: CodecParameters,
    /// The length of the data before coding.
    pub uncompressed_length: u64,
    /// The length of the coded data, which follows the header at once.
    pub compressed_length: u64,
}

/// The 21 bytes of a header.
pub open spec fn header_bytes(header: ContainerHeader) -> Seq<u8>
    recommends
        header.params.encodable(),
{
    props_of(header.params) + le_bytes_u64(header.uncompressed_length) + le_bytes_u64(
        header.compressed_length,
    )
}

/// The header that a stream starts with.
pub open spec fn header_of(stream: Seq<u8>) -> ContainerHeader
    recommends
        stream.len() >= HEADER_LEN,
{
    ContainerHeader {
        params: params_of(stream.subrange(0, 5)),
        uncompressed_length: le_value_u64(stream.subrange(5, 13)) as u64,
        compressed_length: le_value_u64(stream.subrange(13, 21)) as u64,
    }
}

/// The coded data of the container that a stream starts with.
pub open spec fn body_of(stream: Seq<u8>) -> Seq<u8>
    recommends
        stream.len() >= HEADER_LEN + header_of(stream).compressed_length,
{
    stream.subrange(HEADER_LEN as int, HEADER_LEN + header_of(stream).compressed_length)
}

/// What follows the container that a stream starts with.
pub open spec fn rest_of(stream: Seq<u8>) -> Seq<u8>
    recommends
        stream.len() >= HEADER_LEN + header_of(stream).compressed_length,
{
    stream.skip(HEADER_LEN + header_of(stream).compressed_length)
}

/// A header is 21 bytes long.
pub proof fn lemma_header_len(header: ContainerHeader)
    ensures
        header_bytes(header).len() == HEADER_LEN,
{
}

/// A header whose parameters are in range is read back as it was written,
/// whatever follows it.
pub proof fn lemma_header_round_trip(header: ContainerHeader, rest: Seq<u8>)
    requires
        header.params.lc < 9,
        header.params.lp < 5,
        header.params.encodable(),
    ensures
        header_of(header_bytes(header) + rest) == header,
{
    let stream = header_bytes(header) + rest;
    assert(stream.subrange(0, 5) =~= props_of(header.params));
    assert(stream.subrange(5, 13) =~= le_bytes_u64(header.uncompressed_length));
    assert(stream.subrange(13, 21) =~= le_bytes_u64(header.compressed_length));
    lemma_params_round_trip(header.params);
    lemma_u64_value_of_bytes(header.uncompressed_length);
    lemma_u64_value_of_bytes(header.compressed_length);
}

/// Any 21 bytes are the header of what they are read as.
pub proof fn lemma_header_bytes_round_trip(stream: Seq<u8>)
    requires
        stream.len() >= HEADER_LEN,
    ensures
        header_of(stream).params.encodable(),
        header_bytes(header_of(stream)) == stream.subrange(0, HEADER_LEN as int),
{
    lemma_props_round_trip(stream.subrange(0, 5));
    lemma_u64_bytes_of_value(stream.subrange(5, 13));
    lemma_u64_bytes_of_value(stream.subrange(13, 21));
    assert(header_bytes(header_of(stream)) =~= stream.subrange(0, HEADER_LEN as int));
}

/// Three strings in a row can be told apart by the lengths of the first two.
proof fn lemma_three_parts(first: Seq<u8>, second: Seq<u8>, third: Seq<u8>)
    ensures
        first + second + third == first + (second + third),
        (first + second + third).subrange(
            first.len() as int,
            (first.len() + second.len()) as int,
        ) == second,
        (first + second + third).skip((first.len() + second.len()) as int) == third,
{
    let all = first + second + third;
    assert(all =~= first + (second + third));
    assert(all.subrange(first.len() as int, (first.len() + second.len()) as int) =~= second);
    assert(all.skip((first.len() + second.len()) as int) =~= third);
}

/// The length field alone tells where a container ends: of a container
/// followed by anything, the coded data and what follows are found again
/// without decoding a byte.
pub proof fn lemma_container_split(header: ContainerHeader, body: Seq<u8>, rest: Seq<u8>)
    requires
        header.params.lc < 9,
        header.params.lp < 5,
        header.params.encodable(),
        body.len() == header.compressed_length,
    ensures
        header_of(header_bytes(header) + body + rest) == header,
        body_of(header_bytes(header) + body + rest) == body,
        rest_of(header_bytes(header) + body + rest) == rest,
{
    let head = header_bytes(header);
    let stream = head + body + rest;
    assert(head.len() == HEADER_LEN) by {
        lemma_header_len(header);
    }
    lemma_three_parts(head, body, rest);
    assert(header_of(stream) == header) by {
        lemma_header_round_trip(header, body + rest);
    }
}

} // verus!
