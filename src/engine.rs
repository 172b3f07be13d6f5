//! The boundary to the RaptorQ engine: its decoder type, and one trusted
//! wrapper for each engine operation that a session performs. Each wrapper's
//! `requires` excludes the inputs on which the engine would fault.
use vstd::prelude::*;
use raptorq::{Decoder, EncodingPacket, ObjectTransmissionInformation};
use crate::params::{
    TransmissionParams, ceil_div, default_alignment, default_symbol_size, fragment_fits,
    header_layout, params_ok,
};

verus! {

#[verifier::external_type_specification]
#[verifier::external_body]
pub struct ExDecoder(Decoder);

/// The number of source blocks and of sub-blocks that the engine picks for
/// a transfer length and a largest packet size.
pub uninterp spec fn default_block_layout(transfer_length: u64, max_packet_size: u16) -> (u8, u16);

/// The parameters that a decoder was built with.
pub uninterp spec fn decoder_params(d: Decoder) -> TransmissionParams;

/// What the engine returns for a fragment, given the decoder as it stands
/// before the fragment: the object once every source block is recovered,
/// and nothing before.
pub uninterp spec fn decode_outcome(d: Decoder, frag: Seq<u8>) -> Option<Seq<u8>>;

/// The bytes of an optional buffer.
pub open spec fn bytes_of(b: Option<Vec<u8>>) -> Option<Seq<u8>> {
    match b {
        Some(v) => Some(v@),
        None => None,
    }
}

/// The engine counts symbols in a `u32`; a count that wraps to zero leaves
/// it without a single source block.
pub open spec fn default_request_ok(transfer_length: u64, max_packet_size: u16) -> bool {
    &&& max_packet_size > 0
    &&& ceil_div(transfer_length as int, default_symbol_size(max_packet_size) as int)
        % 0x1_0000_0000 != 0
}

/// The parameters that the engine picks for a transfer length and a
/// largest packet size.
pub open spec fn defaults_of(transfer_length: u64, max_packet_size: u16) -> TransmissionParams {
    TransmissionParams {
        transfer_length,
        symbol_size: default_symbol_size(max_packet_size),
        source_blocks: default_block_layout(transfer_length, max_packet_size).0,
        sub_blocks: default_block_layout(transfer_length, max_packet_size).1,
        alignment: default_alignment(max_packet_size),
    }
}

/// Relies on `ObjectTransmissionInformation::deserialize`, which reads each
/// field of the header at a fixed offset, and on that type's getters.
#[verifier::external_body]
pub(crate) fn header_params(header: &[u8]) -> (p: TransmissionParams)
    requires
        header@.len() == 12,
    ensures
        p == header_layout(header@),
{
    let mut buf = [0u8; 12];
    buf.copy_from_slice(header);
    let oti = ObjectTransmissionInformation::deserialize(&buf);
    TransmissionParams {
        transfer_length: oti.transfer_length(),
        symbol_size: oti.symbol_size(),
        source_blocks: oti.source_blocks(),
        sub_blocks: oti.sub_blocks(),
        alignment: oti.symbol_alignment(),
    }
}

/// Relies on `ObjectTransmissionInformation::with_defaults`: it keeps the
/// transfer length, aligns symbols to 8 bytes from a packet size of 64 on and
/// to 1 byte below it, and takes the largest aligned symbol that fits; the
/// block layout comes from its own tables.
#[verifier::external_body]
pub(crate) fn default_params(transfer_length: u64, max_packet_size: u16) -> (p: TransmissionParams)
    requires
        default_request_ok(transfer_length, max_packet_size),
    ensures
        p.transfer_length == transfer_length,
        p.alignment == default_alignment(max_packet_size),
        p.symbol_size == default_symbol_size(max_packet_size),
        (p.source_blocks, p.sub_blocks) == default_block_layout(transfer_length, max_packet_size),
{
    let oti = ObjectTransmissionInformation::with_defaults(transfer_length, max_packet_size);
    TransmissionParams {
        transfer_length: oti.transfer_length(),
        symbol_size: oti.symbol_size(),
        source_blocks: oti.source_blocks(),
        sub_blocks: oti.sub_blocks(),
        alignment: oti.symbol_alignment(),
    }
}

/// Relies on `ObjectTransmissionInformation::new`, whose assertions
/// `params_ok` meets, and on `Decoder::new`, which keeps that configuration.
#[verifier::external_body]
pub(crate) fn new_decoder(p: &TransmissionParams) -> (d: Decoder)
    requires
        params_ok(*p),
    ensures
        decoder_params(d) == *p,
{
    Decoder::new(ObjectTransmissionInformation::new(
        p.transfer_length,
        p.symbol_size,
        p.source_blocks,
        p.sub_blocks,
        p.alignment,
    ))
}

/// Relies on `EncodingPacket::deserialize`, which splits a fragment into its
/// payload id and its symbol, and on `Decoder::decode`, whose answer depends
/// on the decoder and the packet alone, which keeps the decoder's
/// configuration and, once every source block is recovered,
/// returns the blocks joined and cut to the transfer length.
#[verifier::external_body]
pub(crate) fn decode_fragment(d: &mut Decoder, frag: &[u8]) -> (r: Option<Vec<u8>>)
    requires
        params_ok(decoder_params(*old(d))),
        fragment_fits(decoder_params(*old(d)), frag@),
    ensures
        decoder_params(*final(d)) == decoder_params(*old(d)),
        bytes_of(r) == decode_outcome(*old(d), frag@),
        r matches Some(v) ==> v@.len() == decoder_params(*old(d)).transfer_length,
{
    d.decode(EncodingPacket::deserialize(frag))
}

} // verus!
