//! The five-byte parameter record: one byte that packs the three
//! entropy-model parameters, then the dictionary size.

use crate::endian::{le_bytes_u32, le_value_u32, u32_from_le, u32_to_le};
use crate::endian::{lemma_u32_bytes_of_value, lemma_u32_value_of_bytes};
use vstd::prelude::*;

verus! {

/// Length of the parameter record in bytes.
pub const PROPS_LEN: usize = 5;

/// The tuning values of the raw coder.
#[derive(Clone, Copy, Debug, PartialEq, Eq, Structural)]
pub struct CodecParameters {
    /// Number of literal-context bits.
    pub lc: u32,
    /// Number of literal-position bits.
    pub lp: u32,
    /// Number of position bits.
    pub pb: u32,
    /// Size of the dictionary window in bytes.
    pub dict_size: u32,
}

impl CodecParameters {
    /// The packed form of `lc`, `lp` and `pb`: a number in mixed radix, `lc`
    /// the lowest digit in base 9, then `lp` in base 5, then `pb`.
    pub open spec fn packed(self) -> int {
        (self.pb * 5 + self.lp) * 9 + self.lc
    }

    /// Each parameter is within the range that the coder accepts.
    pub open spec fn in_range(self) -> bool {
        self.lc < 9 && self.lp < 5 && self.pb < 5
    }

    /// The packed form fits the one byte that the record has for it.
    pub open spec fn encodable(self) -> bool {
        self.packed() <= u8::MAX
    }

    /// Tells whether the packed form fits one byte.
    pub fn is_encodable(&self) -> (fits: bool)
        ensures
            fits == self.encodable(),
    {
        self.pb <= 5 && self.lp <= 255 && self.lc <= 255 && (self.pb * 5 + self.lp) * 9 + self.lc
            <= 255
    }

}

/// The record of `params`: the packed byte, then the dictionary size in
/// little-endian order.
pub open spec fn props_of(params: CodecParameters) -> Seq<u8>
    recommends
        params.encodable(),
{
    seq![params.packed() as u8] + le_bytes_u32(params.dict_size)
}

/// The parameters that a record stands for. The packed byte is taken apart by
/// dividing by 9 first and by 5 second; whatever is left is `pb`, in range or
/// not.
pub open spec fn params_of(props: Seq<u8>) -> CodecParameters
    recommends
        props.len() == PROPS_LEN,
{
    CodecParameters {
        lc: (props[0] % 9) as u32,
        lp: (props[0] / 9 % 5) as u32,
        pb: (props[0] / 45) as u32,
        dict_size: le_value_u32(props.subrange(1, 5)) as u32,
    }
}

/// Parameters within the coder's ranges fit the packed byte.
pub proof fn lemma_in_range_is_encodable(params: CodecParameters)
    requires
        params.in_range(),
    ensures
        params.encodable(),
        params.packed() <= 224,
{
}

/// Parameters survive being written and read back, provided `lc` and `lp`
/// are digits of their radix and the packed form fits its byte. All
/// parameters within the coder's ranges are such.
pub proof fn lemma_params_round_trip(params: CodecParameters)
    requires
        params.lc < 9,
        params.lp < 5,
        params.encodable(),
    ensures
        props_of(params).len() == PROPS_LEN,
        params_of(props_of(params)) == params,
{
    let props = props_of(params);
    assert(props.subrange(1, 5) =~= le_bytes_u32(params.dict_size));
    lemma_u32_value_of_bytes(params.dict_size);
}

/// Every record survives being read and written back, so no two records
/// stand for the same parameters.
pub proof fn lemma_props_round_trip(props: Seq<u8>)
    requires
        props.len() == PROPS_LEN,
    ensures
        params_of(props).encodable(),
        params_of(props).lc < 9,
        params_of(props).lp < 5,
        params_of(props).pb <= 5,
        props_of(params_of(props)) == props,
{
    lemma_u32_bytes_of_value(props.subrange(1, 5));
    assert(props_of(params_of(props)) =~= props);
}

/// Builds the parameter record.
pub fn write_props(options: &CodecParameters) -> (props: [u8; 5])
    requires
        options.encodable(),
    ensures
        props@ == props_of(*options),
{
    let dict = u32_to_le(options.dict_size);
    let packed = ((options.pb * 5 + options.lp) * 9 + options.lc) as u8;
    let props = [packed, dict[0], dict[1], dict[2], dict[3]];
    assert(props@ =~= props_of(*options));
    props
}

/// Takes a parameter record apart. Nothing is checked: a record that no
/// coder accepts still gives parameters.
pub fn read_props(props: &[u8; 5]) -> (options: CodecParameters)
    ensures
        options == params_of(props@),
{
    let dict = [props[1], props[2], props[3], props[4]];
    assert(dict@ =~= props@.subrange(1, 5));
    let mut x = props[0];
    let lc = (x % 9) as u32;
    x = x / 9;
    let lp = (x % 5) as u32;
    x = x / 5;
    let pb = x as u32;
    CodecParameters { lc, lp, pb, dict_size: u32_from_le(&dict) }
}

} // verus!
