//! The SEI message envelope: payload types, sizes and offsets.  Payload
//! contents are located, not interpreted.

use vstd::prelude::*;

use crate::bitreader::{bits_value, BitReader};
use crate::errors::HevcError;
use crate::nal::{NAL_SEI_PREFIX, NAL_SEI_SUFFIX};

verus! {

/// One SEI message: its payload type, and the byte offsets and size of its
/// payload inside the unescaped NAL unit.
#[derive(Debug, Clone, Copy, PartialEq, Eq, Structural)]
pub struct SeiMessage {
    /// Byte offset of the message inside the NAL unit.
    pub msg_offset: usize,
    /// The accumulated payload type code.
    pub payload_type: u64,
    /// Byte offset of the payload inside the NAL unit.
    pub payload_offset: usize,
    /// Payload size in bytes.
    pub payload_size: u64,
}

impl SeiMessage {
    /// Split an unescaped SEI NAL unit into its messages: after the NAL
    /// header, each message carries a type and a size, each accumulated
    /// over `FF` continuation bytes, then the payload.  A NAL of another
    /// type fails with `UnexpectedNalType`; a payload running past the NAL
    /// fails with `PayloadExceedsNalu`.
    pub fn parse_sei_rbsp(data: &[u8]) -> (r: Result<Vec<SeiMessage>, HevcError>)
        requires
            data@.len() * 8 <= usize::MAX,
        ensures
            r matches Err(HevcError::UnexpectedNalType(t)) ==> {
                &&& 7 <= data@.len() * 8
                &&& t == bits_value(data@, 1, 6)
                &&& t != NAL_SEI_PREFIX
                &&& t != NAL_SEI_SUFFIX
            },
            (7 <= data@.len() * 8 && bits_value(data@, 1, 6) != NAL_SEI_PREFIX as nat
                && bits_value(data@, 1, 6) != NAL_SEI_SUFFIX as nat) ==> r == Err::<
                Vec<SeiMessage>,
                HevcError,
            >(HevcError::UnexpectedNalType(bits_value(data@, 1, 6) as u8)),
            r matches Ok(msgs) ==> msgs@.len() >= 1,
    {
        proof {
            vstd::arithmetic::power2::lemma2_to64();
        }
        let mut reader = BitReader::new(copy_bytes(data));
        reader.skip_n(1)?;  // forbidden_zero_bit
        let nal_type = reader.get_n(6)? as u8;
        if nal_type != NAL_SEI_PREFIX && nal_type != NAL_SEI_SUFFIX {
            return Err(HevcError::UnexpectedNalType(nal_type));
        }
        if reader.available() < 9 {
            // too short to carry the layer and temporal fields
        } else {
            reader.skip_n(6)?;  // nuh_layer_id
            reader.skip_n(3)?;  // nuh_temporal_id_plus1
        }
        let mut messages: Vec<SeiMessage> = Vec::new();
        loop
            invariant
                reader.wf(),
                bits_value(data@, 1, 6) == NAL_SEI_PREFIX as nat || bits_value(data@, 1, 6)
                    == NAL_SEI_SUFFIX as nat,
            ensures
                messages@.len() >= 1,
            decreases reader.total_bits() + 1 - reader.cursor(),
        {
            let ghost before = reader.cursor();
            let msg = Self::parse_sei_message(&mut reader)?;
            messages.push(msg);
            proof {
                assert(reader.cursor() > before);
            }
            if reader.available() <= 8 {
                break ;
            }
        }
        Ok(messages)
    }

    /// Decode one SEI message envelope and skip its payload.
    fn parse_sei_message(reader: &mut BitReader) -> (r: Result<SeiMessage, HevcError>)
        requires
            old(reader).wf(),
        ensures
            final(reader).wf(),
            final(reader).bytes() == old(reader).bytes(),
            r is Ok ==> final(reader).cursor() > old(reader).cursor(),
            r matches Err(e) ==> !(e matches HevcError::UnexpectedNalType(_)),
    {
        proof {
            vstd::arithmetic::power2::lemma2_to64();
        }
        let mut msg = SeiMessage { msg_offset: 0, payload_type: 0, payload_offset: 0, payload_size: 0 };
        msg.msg_offset = reader.position() / 8;
        let mut last_payload_type_byte = reader.get_n(8)?;
        while last_payload_type_byte == 0xFF
            invariant
                reader.wf(),
                reader.bytes() == old(reader).bytes(),
                reader.cursor() > old(reader).cursor(),
                msg.payload_type <= 0xFFFFFFFF,
                msg.payload_size == 0,
                last_payload_type_byte <= 0xFF,
            decreases reader.total_bits() - reader.cursor(),
        {
            proof {
                vstd::arithmetic::power2::lemma2_to64();
            }
            if msg.payload_type > 0xFFFFFF00 {
                return Err(HevcError::FieldOutOfRange);
            }
            msg.payload_type = msg.payload_type + 255;
            last_payload_type_byte = reader.get_n(8)?;
        }
        msg.payload_type = msg.payload_type + last_payload_type_byte;
        let mut last_payload_size_byte = reader.get_n(8)?;
        while last_payload_size_byte == 0xFF
            invariant
                reader.wf(),
                reader.bytes() == old(reader).bytes(),
                reader.cursor() > old(reader).cursor(),
                msg.payload_size <= 0xFFFFFFFF,
                last_payload_size_byte <= 0xFF,
            decreases reader.total_bits() - reader.cursor(),
        {
            proof {
                vstd::arithmetic::power2::lemma2_to64();
            }
            if msg.payload_size > 0xFFFFFF00 {
                return Err(HevcError::PayloadExceedsNalu);
            }
            msg.payload_size = msg.payload_size + 255;
            last_payload_size_byte = reader.get_n(8)?;
        }
        msg.payload_size = msg.payload_size + last_payload_size_byte;
        msg.payload_offset = reader.position() / 8;
        let avail_bytes = (reader.available() / 8) as u64;
        if msg.payload_size > avail_bytes {
            return Err(HevcError::PayloadExceedsNalu);
        }
        reader.skip_n(msg.payload_size * 8)?;
        Ok(msg)
    }
}

/// A fresh vector holding the same bytes.
fn copy_bytes(data: &[u8]) -> (r: Vec<u8>)
    ensures
        r@ == data@,
{
    let mut out: Vec<u8> = Vec::new();
    let mut i: usize = 0;
    while i < data.len()
        invariant
            i <= data@.len(),
            out@ == data@.subrange(0, i as int),
        decreases data@.len() - i,
    {
        let b = data[i];
        out.push(b);
        i = i + 1;
        proof {
            assert(out@ =~= data@.subrange(0, i as int));
        }
    }
    proof {
        assert(out@ =~= data@);
    }
    out
}

} // verus!
