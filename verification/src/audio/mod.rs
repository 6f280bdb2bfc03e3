//! The shared audio region: its geometry, and how samples go in and come
//! out of it. A sample is held as the bit pattern of a 32-bit float.

pub mod copy;
pub mod laws;

pub use copy::{copy_inputs, copy_outputs};

use vstd::prelude::*;
use crate::bytes::{patched, words_le};
use crate::error::{Error, SetupFault};
use crate::protocol::{ShmHeader, RACK_WINE_PROTOCOL_VERSION, RACK_WINE_SHM_MAGIC};

verus! {

/// Bytes of a region that holds the header and `block_size` samples for
/// each input and each output channel.
pub open spec fn plane_bytes(num_inputs: int, num_outputs: int, block_size: int) -> int {
    56 + (num_inputs + num_outputs) * block_size * 4
}

/// Where the block of channel `ch` begins, in a run of blocks of
/// `block_size` samples that begins at `offset`.
pub open spec fn block_start(offset: int, block_size: int, ch: int) -> int {
    offset + ch * block_size * 4
}

/// A run of `channels` blocks of `block_size` samples that begins at
/// `offset` lies behind the header and within `region_len` bytes.
pub open spec fn blocks_fit(offset: int, channels: int, block_size: int, region_len: int) -> bool {
    56 <= offset && offset + channels * block_size * 4 <= region_len
}

/// The geometry of an audio plane as mathematical values.
pub struct PlaneView {
    pub num_inputs: u32,
    pub num_outputs: u32,
    pub block_size: u32,
    pub sample_rate: u32,
}

impl PlaneView {
    /// Bytes of the plane's region.
    pub open spec fn region_size(self) -> int {
        plane_bytes(self.num_inputs as int, self.num_outputs as int, self.block_size as int)
    }

    /// The 56 bytes that the host stamps on the plane's region: the header
    /// with the magic and the version, the geometry, both readiness words
    /// at zero, the inputs right behind the header, the outputs right
    /// behind the inputs, and four reserved words at zero.
    pub open spec fn stamp(self) -> Seq<u8> {
        words_le(
            seq![
                RACK_WINE_SHM_MAGIC,
                RACK_WINE_PROTOCOL_VERSION,
                self.num_inputs,
                self.num_outputs,
                self.block_size,
                self.sample_rate,
                0,
                0,
                56,
                (56 + self.num_inputs * self.block_size * 4) as u32,
                0,
                0,
                0,
                0,
            ],
        )
    }

    /// `h` is the header that the host stamps on the plane's region.
    pub open spec fn is_stamped_as(self, h: ShmHeader) -> bool {
        &&& h.magic == RACK_WINE_SHM_MAGIC
        &&& h.version == RACK_WINE_PROTOCOL_VERSION
        &&& h.num_inputs == self.num_inputs
        &&& h.num_outputs == self.num_outputs
        &&& h.block_size == self.block_size
        &&& h.sample_rate == self.sample_rate
        &&& h.host_ready == 0
        &&& h.client_ready == 0
        &&& h.input_offset == 56
        &&& h.output_offset == 56 + self.num_inputs * self.block_size * 4
        &&& h.reserved@ == seq![0u32, 0u32, 0u32, 0u32]
    }
}

/// The geometry of an armed audio plane. Its region, header included, is
/// no longer than a 32-bit offset can reach.
#[derive(Debug, Clone, Copy)]
pub struct AudioPlane {
    num_inputs: u32,
    num_outputs: u32,
    block_size: u32,
    sample_rate: u32,
}

impl View for AudioPlane {
    type V = PlaneView;

    closed spec fn view(&self) -> PlaneView {
        PlaneView {
            num_inputs: self.num_inputs,
            num_outputs: self.num_outputs,
            block_size: self.block_size,
            sample_rate: self.sample_rate,
        }
    }
}

pub(crate) proof fn lemma_products(inputs: int, outputs: int, block: int)
    requires
        0 <= inputs,
        0 <= outputs,
        0 <= block,
    ensures
        (inputs + outputs) * block * 4 == inputs * block * 4 + outputs * block * 4,
        0 <= inputs * block * 4,
        0 <= outputs * block * 4,
        (inputs + outputs) * block * 4 == ((inputs + outputs) * block) * 4,
        0 <= (inputs + outputs) * block,
{
    assert((inputs + outputs) * block * 4 == inputs * block * 4 + outputs * block * 4)
        by (nonlinear_arith);
    assert(0 <= inputs * block * 4) by (nonlinear_arith)
        requires
            0 <= inputs,
            0 <= block,
    ;
    assert(0 <= outputs * block * 4) by (nonlinear_arith)
        requires
            0 <= outputs,
            0 <= block,
    ;
    assert(0 <= (inputs + outputs) * block) by (nonlinear_arith)
        requires
            0 <= inputs,
            0 <= outputs,
            0 <= block,
    ;
}

/// The size of a plane's region, where a 32-bit offset can reach its end.
pub fn plane_size(num_inputs: u32, num_outputs: u32, block_size: u32) -> (size: Option<u32>)
    ensures
        size is Some <==> plane_bytes(num_inputs as int, num_outputs as int, block_size as int)
            <= u32::MAX,
        size matches Some(n) ==> n == plane_bytes(
            num_inputs as int,
            num_outputs as int,
            block_size as int,
        ),
{
    proof {
        lemma_products(num_inputs as int, num_outputs as int, block_size as int);
    }
    let channels: u64 = num_inputs as u64 + num_outputs as u64;
    let samples: u64 = match channels.checked_mul(block_size as u64) {
        Some(n) => n,
        None => {
            return None;
        },
    };
    if samples > 0x3fff_fff2 {
        return None;
    }
    let bytes: u64 = 56 + samples * 4;
    if bytes > 0xffff_ffff {
        return None;
    }
    Some(bytes as u32)
}

impl AudioPlane {
    #[verifier::type_invariant]
    spec fn reachable(self) -> bool {
        plane_bytes(self.num_inputs as int, self.num_outputs as int, self.block_size as int)
            <= u32::MAX
    }

    /// The plane of the given geometry, where a 32-bit offset can reach the
    /// end of its region.
    pub fn new(num_inputs: u32, num_outputs: u32, block_size: u32, sample_rate: u32) -> (r: Option<
        AudioPlane,
    >)
        ensures
            r is Some <==> plane_bytes(num_inputs as int, num_outputs as int, block_size as int)
                <= u32::MAX,
            r matches Some(plane) ==> plane@ == (PlaneView {
                num_inputs,
                num_outputs,
                block_size,
                sample_rate,
            }),
    {
        match plane_size(num_inputs, num_outputs, block_size) {
            Some(_) => Some(AudioPlane { num_inputs, num_outputs, block_size, sample_rate }),
            None => None,
        }
    }

    /// How many input channels the plane has.
    pub fn num_inputs(&self) -> (n: u32)
        ensures
            n == self@.num_inputs,
    {
        self.num_inputs
    }

    /// How many output channels the plane has.
    pub fn num_outputs(&self) -> (n: u32)
        ensures
            n == self@.num_outputs,
    {
        self.num_outputs
    }

    /// How many samples a block holds for each channel.
    pub fn block_size(&self) -> (n: u32)
        ensures
            n == self@.block_size,
    {
        self.block_size
    }

    /// Samples in a second.
    pub fn sample_rate(&self) -> (n: u32)
        ensures
            n == self@.sample_rate,
    {
        self.sample_rate
    }

    /// Bytes of the region: the header, then a block for each input and
    /// each output channel.
    pub fn region_size(&self) -> (n: usize)
        ensures
            n == self@.region_size(),
            n <= u32::MAX,
    {
        proof {
            use_type_invariant(self);
            lemma_products(
                self.num_inputs as int,
                self.num_outputs as int,
                self.block_size as int,
            );
        }
        let channels: u64 = self.num_inputs as u64 + self.num_outputs as u64;
        let samples: u64 = channels * (self.block_size as u64);
        (56 + samples * 4) as usize
    }

    /// The header that the host stamps on the region: the magic and the
    /// version, the geometry, both readiness words at zero, the inputs right
    /// behind the header and the outputs right behind the inputs.
    pub fn header(&self) -> (h: ShmHeader)
        ensures
            self@.is_stamped_as(h),
            h.wire() == self@.stamp(),
            h.output_offset + self@.num_outputs * self@.block_size * 4 == self@.region_size(),
    {
        proof {
            use_type_invariant(self);
            lemma_products(
                self.num_inputs as int,
                self.num_outputs as int,
                self.block_size as int,
            );
        }
        assert(0 <= self.num_inputs * self.block_size <= self.num_inputs * self.block_size * 4)
            by (nonlinear_arith);
        let input_bytes: u32 = self.num_inputs * self.block_size * 4;
        let reserved: [u32; 4] = [0, 0, 0, 0];
        assert(reserved@ =~= seq![0u32, 0u32, 0u32, 0u32]);
        let h = ShmHeader {
            magic: RACK_WINE_SHM_MAGIC,
            version: RACK_WINE_PROTOCOL_VERSION,
            num_inputs: self.num_inputs,
            num_outputs: self.num_outputs,
            block_size: self.block_size,
            sample_rate: self.sample_rate,
            host_ready: 0,
            client_ready: 0,
            input_offset: 56,
            output_offset: 56 + input_bytes,
            reserved,
        };
        assert(h.words() =~= seq![
            RACK_WINE_SHM_MAGIC,
            RACK_WINE_PROTOCOL_VERSION,
            self.num_inputs,
            self.num_outputs,
            self.block_size,
            self.sample_rate,
            0,
            0,
            56,
            (56 + self.num_inputs * self.block_size * 4) as u32,
            0,
            0,
            0,
            0,
        ]);
        h
    }

    /// Whether the region is one that was made for the plane and stamped:
    /// it is as long as the plane asks, and opens with the plane's header.
    pub fn is_stamped_on(&self, region: &[u8]) -> (stamped: bool)
        ensures
            stamped == (region@.len() >= self@.region_size() && region@.subrange(0, 56)
                == self@.stamp()),
    {
        proof {
            lemma_products(
                self.num_inputs as int,
                self.num_outputs as int,
                self.block_size as int,
            );
        }
        if region.len() < self.region_size() {
            return false;
        }
        let header: [u8; 56] = self.header().to_bytes();
        let mut i: usize = 0;
        while i < 56
            invariant
                i <= 56,
                region@.len() >= 56,
                header@ == self@.stamp(),
                header@.len() == 56,
                forall|k: int| 0 <= k < i ==> region@[k] == header@[k],
            decreases 56 - i,
        {
            if region[i] != header[i] {
                assert(region@.subrange(0, 56)[i as int] != self@.stamp()[i as int]);
                return false;
            }
            i += 1;
        }
        assert(region@.subrange(0, 56) =~= self@.stamp());
        true
    }

    /// Stamps the header on the region that was made for the plane. A
    /// region smaller than the plane is left as it is, and arming fails.
    pub fn stamp(&self, region: &mut [u8]) -> (r: Result<(), Error>)
        ensures
            old(region)@.len() >= self@.region_size() ==> r is Ok && final(region)@ == patched(
                old(region)@,
                0,
                self@.stamp(),
            ),
            old(region)@.len() < self@.region_size() ==> r == Err::<(), Error>(
                Error::Setup(SetupFault::SharedMemory),
            ) && final(region)@ == old(region)@,
    {
        if region.len() < self.region_size() {
            return Err(Error::Setup(SetupFault::SharedMemory));
        }
        if self.header().write_to(region) {
            Ok(())
        } else {
            Err(Error::Setup(SetupFault::SharedMemory))
        }
    }
}

} // verus!
