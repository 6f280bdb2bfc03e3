//! The header that opens the shared audio region.

use vstd::prelude::*;
use crate::bytes::{patched, read_u32, word, words_le, write_words};

verus! {

/// The fourteen words at the start of the shared audio region.
#[derive(Debug, Clone, Copy)]
pub struct ShmHeader {
    pub magic: u32,
    pub version: u32,
    pub num_inputs: u32,
    pub num_outputs: u32,
    pub block_size: u32,
    pub sample_rate: u32,
    pub host_ready: u32,
    pub client_ready: u32,
    pub input_offset: u32,
    pub output_offset: u32,
    pub reserved: [u32; 4],
}

impl ShmHeader {
    /// Bytes that the header takes.
    pub const SIZE: usize = 56;

    /// The fourteen words of the header, in their order.
    pub open spec fn words(self) -> Seq<u32> {
        seq![
            self.magic,
            self.version,
            self.num_inputs,
            self.num_outputs,
            self.block_size,
            self.sample_rate,
            self.host_ready,
            self.client_ready,
            self.input_offset,
            self.output_offset,
            self.reserved@[0],
            self.reserved@[1],
            self.reserved@[2],
            self.reserved@[3],
        ]
    }

    /// The 56 bytes of the header in the region.
    pub open spec fn wire(self) -> Seq<u8> {
        words_le(self.words())
    }

    /// The header holds what the first fourteen words of `b` say.
    pub open spec fn is_read_from(self, b: Seq<u8>) -> bool {
        &&& self.magic == word(b, 0)
        &&& self.version == word(b, 1)
        &&& self.num_inputs == word(b, 2)
        &&& self.num_outputs == word(b, 3)
        &&& self.block_size == word(b, 4)
        &&& self.sample_rate == word(b, 5)
        &&& self.host_ready == word(b, 6)
        &&& self.client_ready == word(b, 7)
        &&& self.input_offset == word(b, 8)
        &&& self.output_offset == word(b, 9)
        &&& self.reserved@ == seq![word(b, 10), word(b, 11), word(b, 12), word(b, 13)]
    }

    /// Reads the header of a region, if the region is long enough to hold
    /// one.
    pub fn from_bytes(region: &[u8]) -> (r: Option<ShmHeader>)
        ensures
            r is Some <==> region@.len() >= 56,
            r matches Some(h) ==> h.is_read_from(region@),
    {
        if region.len() < 56 {
            return None;
        }
        let reserved: [u32; 4] = [
            read_u32(region, 40),
            read_u32(region, 44),
            read_u32(region, 48),
            read_u32(region, 52),
        ];
        let h = ShmHeader {
            magic: read_u32(region, 0),
            version: read_u32(region, 4),
            num_inputs: read_u32(region, 8),
            num_outputs: read_u32(region, 12),
            block_size: read_u32(region, 16),
            sample_rate: read_u32(region, 20),
            host_ready: read_u32(region, 24),
            client_ready: read_u32(region, 28),
            input_offset: read_u32(region, 32),
            output_offset: read_u32(region, 36),
            reserved,
        };
        assert(h.reserved@ =~= seq![
            word(region@, 10),
            word(region@, 11),
            word(region@, 12),
            word(region@, 13),
        ]);
        Some(h)
    }

    fn to_words(&self) -> (words: [u32; 14])
        ensures
            words@ == self.words(),
    {
        let words: [u32; 14] = [
            self.magic,
            self.version,
            self.num_inputs,
            self.num_outputs,
            self.block_size,
            self.sample_rate,
            self.host_ready,
            self.client_ready,
            self.input_offset,
            self.output_offset,
            self.reserved[0],
            self.reserved[1],
            self.reserved[2],
            self.reserved[3],
        ];
        assert(words@ =~= self.words());
        words
    }

    /// The bytes of the header.
    pub fn to_bytes(&self) -> (b: [u8; 56])
        ensures
            b@ == self.wire(),
    {
        let words: [u32; 14] = self.to_words();
        let mut buf: [u8; 56] = [0u8; 56];
        write_words(&mut buf, 0, &words, 14);
        assert(words@.take(14) =~= words@);
        assert(buf@ =~= self.wire());
        buf
    }

    /// Writes the header at the start of a region, where the region can
    /// hold it; says whether it did.
    pub fn write_to(&self, region: &mut [u8]) -> (written: bool)
        ensures
            written <==> old(region)@.len() >= 56,
            written ==> final(region)@ == patched(old(region)@, 0, self.wire()),
            !written ==> final(region)@ == old(region)@,
    {
        if region.len() < 56 {
            return false;
        }
        let words: [u32; 14] = self.to_words();
        write_words(region, 0, &words, 14);
        assert(words@.take(14) =~= words@);
        true
    }
}

} // verus!
