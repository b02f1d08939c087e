//! The 8-bit cyclic redundancy check used by the CO2 device: polynomial
//! 0x31, initial value 0xFF, processed byte by byte, most significant bit
//! first, with no final inversion.

use vstd::prelude::*;

verus! {

/// One shift-and-conditionally-xor round of the CRC register.
pub open spec fn spec_crc8_round(crc: u8) -> u8 {
    if crc & 0x80 != 0 {
        (crc << 1) ^ 0x31
    } else {
        crc << 1
    }
}

/// `n` rounds of the CRC register, applied after xoring one input byte in.
pub open spec fn spec_crc8_rounds(crc: u8, n: nat) -> u8
    decreases n,
{
    if n == 0 {
        crc
    } else {
        spec_crc8_round(spec_crc8_rounds(crc, (n - 1) as nat))
    }
}

/// The CRC register after absorbing one input byte.
pub open spec fn spec_crc8_byte(crc: u8, byte: u8) -> u8 {
    spec_crc8_rounds(crc ^ byte, 8)
}

/// The CRC register after absorbing a whole message, starting from `crc`:
/// every byte is absorbed in order, the last one outermost.
pub open spec fn spec_crc8_from(crc: u8, data: Seq<u8>) -> u8
    decreases data.len(),
{
    if data.len() == 0 {
        crc
    } else {
        spec_crc8_byte(spec_crc8_from(crc, data.drop_last()), data.last())
    }
}

/// The checksum of a message: initial value 0xFF, then every byte absorbed.
pub open spec fn spec_crc8(data: Seq<u8>) -> u8 {
    spec_crc8_from(0xFF, data)
}

/// Computes the CRC-8 checksum of `data`.
pub fn crc8(data: &[u8]) -> (r: u8)
    ensures
        r == spec_crc8(data@),
{
    let mut crc: u8 = 0xFF;
    let mut i: usize = 0;
    while i < data.len()
        invariant
            0 <= i <= data@.len(),
            crc == spec_crc8_from(0xFF, data@.take(i as int)),
        decreases data@.len() - i,
    {
        crc = crc ^ data[i];
        let mut round: usize = 0;
        while round < 8
            invariant
                0 <= round <= 8,
                crc == spec_crc8_rounds((spec_crc8_from(0xFF, data@.take(i as int))) ^ data@[
                    i as int], round as nat),
            decreases 8 - round,
        {
            if crc & 0x80 != 0 {
                crc = (crc << 1) ^ 0x31;
            } else {
                crc = crc << 1;
            }
            round = round + 1;
        }
        proof {
            assert(data@.take(i + 1).drop_last() =~= data@.take(i as int));
            assert(data@.take(i + 1).last() == data@[i as int]);
        }
        i = i + 1;
    }
    proof {
        assert(data@.take(data@.len() as int) =~= data@);
    }
    crc
}

/// The checksum of one two-byte data word, as the CO2 device appends it.
pub fn crc8_word(hi: u8, lo: u8) -> (r: u8)
    ensures
        r == spec_crc8(seq![hi, lo]),
{
    let buf: [u8; 2] = [hi, lo];
    proof {
        assert(buf@ =~= seq![hi, lo]);
    }
    crc8(buf.as_slice())
}

} // verus!
