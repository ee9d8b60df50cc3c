//! A seekable container around a raw LZMA1 stream, written without I/O.
//!
//! A container is a header of 21 bytes (the coder's parameters, the length
//! of the plain data, the length of the coded data) and then the coded data.
//! Because the header says how long the coded data is, a reader can step
//! over a container without decoding it, and a decoder can be kept from
//! reading past its end.
//!
//! Nothing here reads, writes, seeks or codes. [`lzma_compress`],
//! [`lzma_decompress`] and [`lzma_stream_raw`] each take the report of the
//! last action and answer with the next one; the caller owns the source, the
//! sink and the coder, does what is asked, and reports back. To stop on a
//! failed read or write, the caller just stops.

pub mod buffer;
pub mod compress;
pub mod decompress;
pub mod endian;
pub mod header;
pub mod limit;
pub mod props;
pub mod pump;

pub use buffer::SlideBuffer;
pub use compress::{lzma_compress, CompressAction, CompressEvent, CompressStage, Compressor};
pub use decompress::{lzma_decompress, DecompressAction, DecompressEvent, DecompressStage};
pub use decompress::Decompressor;
pub use endian::{u32_from_le, u32_to_le, u64_from_le, u64_to_le};
pub use header::{ContainerHeader, HEADER_LEN, LENGTH_LEN};
pub use limit::LimitReader;
pub use props::{read_props, write_props, CodecParameters, PROPS_LEN};
pub use pump::{lzma_stream_raw, Fault, Mode, Next, Phase, Pump, PumpAction, PumpEvent};
pub use pump::{BUFFER_SIZE, PRESET_DEFAULT, STATUS_MEM_ERROR, STATUS_OK, STATUS_STREAM_END};
