//! Transmission parameters as plain values, and the checks that decide
//! whether a decoding engine may be built from them.
use vstd::prelude::*;

verus! {

/// The number of bytes in a serialized parameter header.
pub const HEADER_LEN: usize = 12;

/// The largest transfer length the engine accepts.
pub const MAX_TRANSFER_LENGTH: u64 = 942574504275;

/// The largest number of source symbols in one source block.
pub const MAX_SYMBOLS_PER_BLOCK: u64 = 56403;

/// The transmission parameters of one object: its length in bytes and the
/// layout of the symbols that carry it.
#[derive(Clone, Copy, Debug, PartialEq, Eq, Structural)]
pub struct TransmissionParams {
    pub transfer_length: u64,
    pub symbol_size: u16,
    pub source_blocks: u8,
    pub sub_blocks: u16,
    pub alignment: u8,
}

/// `a / b` rounded up.
pub open spec fn ceil_div(a: int, b: int) -> int {
    (a + b - 1) / b
}

/// The number of source symbols in the largest source block.
pub open spec fn symbols_per_block(p: TransmissionParams) -> int {
    ceil_div(ceil_div(p.transfer_length as int, p.symbol_size as int), p.source_blocks as int)
}

/// Parameters from which a decoding engine can be built and fed without
/// faulting: no zero divisor in the layout, symbols aligned, and blocks
/// within the engine's limits.
pub open spec fn params_ok(p: TransmissionParams) -> bool {
    &&& p.symbol_size > 0
    &&& p.alignment > 0
    &&& p.symbol_size % (p.alignment as u16) == 0
    &&& p.source_blocks > 0
    &&& p.sub_blocks > 0
    &&& p.transfer_length <= MAX_TRANSFER_LENGTH
    &&& symbols_per_block(p) <= MAX_SYMBOLS_PER_BLOCK
}

/// The parameters written in a 12-byte header: a 40-bit big-endian transfer
/// length, a reserved byte, a 16-bit symbol size, the number of source
/// blocks, a 16-bit number of sub-blocks and the symbol alignment.
pub open spec fn header_layout(h: Seq<u8>) -> TransmissionParams {
    TransmissionParams {
        transfer_length: (h[0] as int * 0x1_0000_0000 + h[1] as int * 0x100_0000 + h[2] as int
            * 0x1_0000 + h[3] as int * 0x100 + h[4] as int) as u64,
        symbol_size: (h[6] as int * 0x100 + h[7] as int) as u16,
        source_blocks: h[8],
        sub_blocks: (h[9] as int * 0x100 + h[10] as int) as u16,
        alignment: h[11],
    }
}

/// A fragment that the engine can take: a 4-byte payload id whose first byte
/// names an existing source block, then exactly one symbol.
pub open spec fn fragment_fits(p: TransmissionParams, frag: Seq<u8>) -> bool {
    &&& frag.len() >= 4
    &&& frag[0] < p.source_blocks
    &&& frag.len() - 4 == p.symbol_size
}

/// The alignment that the engine picks for a largest packet size.
pub open spec fn default_alignment(max_packet_size: u16) -> u8 {
    if max_packet_size >= 64 { 8 } else { 1 }
}

/// The symbol size that the engine picks for a largest packet size: the
/// largest multiple of the alignment that fits.
pub open spec fn default_symbol_size(max_packet_size: u16) -> u16 {
    (max_packet_size - max_packet_size % (default_alignment(max_packet_size) as u16)) as u16
}

impl TransmissionParams {
    /// Tells whether a decoding engine may be built from these parameters.
    pub fn is_usable(&self) -> (r: bool)
        ensures
            r == params_ok(*self),
    {
        if self.symbol_size == 0 || self.alignment == 0 || self.source_blocks == 0
            || self.sub_blocks == 0 {
            return false;
        }
        if self.symbol_size % (self.alignment as u16) != 0 {
            return false;
        }
        if self.transfer_length > MAX_TRANSFER_LENGTH {
            return false;
        }
        let symbol_size = self.symbol_size as u64;
        let blocks = self.source_blocks as u64;
        let symbols = (self.transfer_length + symbol_size - 1) / symbol_size;
        let per_block = (symbols + blocks - 1) / blocks;
        per_block <= MAX_SYMBOLS_PER_BLOCK
    }

    /// Tells whether the engine can take `frag` under these parameters.
    pub fn accepts_fragment(&self, frag: &[u8]) -> (r: bool)
        ensures
            r == fragment_fits(*self, frag@),
    {
        frag.len() >= 4 && frag[0] < self.source_blocks && frag.len() - 4 == self.symbol_size as usize
    }
}

} // verus!
