//! Moving one block of samples into and out of the shared region, by the
//! offsets and the block size that the region's own header gives.

use vstd::prelude::*;
use crate::audio::{block_start, blocks_fit};
use crate::bytes::{patched, read_u32, u32_from_le, word, words_le, write_words};
use crate::error::{Error, Fault};
use crate::protocol::ShmHeader;

verus! {

/// The lesser of two numbers: of a buffer's length and the frames asked
/// for, or of the buffers given and the channels there are.
pub open spec fn lesser(a: nat, b: nat) -> nat {
    if b <= a {
        b
    } else {
        a
    }
}

/// The sample that stands at byte `at` of `region`.
pub open spec fn sample_at(region: Seq<u8>, at: int) -> u32 {
    u32_from_le(region.subrange(at, at + 4))
}

/// Why a block of `frames` frames cannot be moved between `channels`
/// channels and a region, if it cannot: the region is too short for a
/// header, or for the blocks that its header places at the offset in word
/// `offset_word`, or a block is shorter than `frames`.
pub open spec fn transfer_fault(region: Seq<u8>, offset_word: int, channels: u32, frames: usize)
    -> Option<Error> {
    if region.len() < 56 {
        Some(Error::Transport(Fault::CorruptRegion))
    } else if !blocks_fit(
        word(region, offset_word) as int,
        channels as int,
        word(region, 4) as int,
        region.len() as int,
    ) {
        Some(Error::Transport(Fault::CorruptRegion))
    } else if frames > word(region, 4) {
        Some(Error::InvalidParameter(frames))
    } else {
        None
    }
}

/// `region` once the first `channels` of `inputs` are in it: of each, as
/// many samples as it has, `frames` at most, at the start of its block.
pub open spec fn with_inputs(
    region: Seq<u8>,
    offset: int,
    block_size: int,
    inputs: Seq<Vec<u32>>,
    channels: nat,
    frames: nat,
) -> Seq<u8>
    decreases channels,
{
    if channels == 0 {
        region
    } else {
        let ch = (channels - 1) as int;
        patched(
            with_inputs(region, offset, block_size, inputs, (channels - 1) as nat, frames),
            block_start(offset, block_size, ch),
            words_le(inputs[ch]@.take(lesser(inputs[ch]@.len(), frames) as int)),
        )
    }
}

/// `outputs` once the region's samples are in them: in each of the first
/// `channels` buffers, the first `frames` samples, or as many as it holds,
/// come from the start of its block; every other sample stays.
pub open spec fn with_outputs(
    outputs: Seq<Vec<u32>>,
    region: Seq<u8>,
    offset: int,
    block_size: int,
    channels: nat,
    frames: nat,
) -> Seq<Seq<u32>> {
    Seq::new(
        outputs.len(),
        |c: int|
            Seq::new(
                outputs[c]@.len(),
                |i: int|
                    if c < channels && i < frames {
                        sample_at(region, block_start(offset, block_size, c) + 4 * i)
                    } else {
                        outputs[c]@[i]
                    },
            ),
    )
}

/// The samples of each buffer.
pub open spec fn samples_of(buffers: Seq<Vec<u32>>) -> Seq<Seq<u32>> {
    Seq::new(buffers.len(), |c: int| buffers[c]@)
}

pub(crate) proof fn lemma_block_within(
    offset: int,
    channels: int,
    block_size: int,
    ch: int,
    count: int,
)
    requires
        0 <= ch < channels,
        0 <= count <= block_size,
        0 <= offset,
    ensures
        block_start(offset, block_size, ch + 1) == block_start(offset, block_size, ch) + block_size
            * 4,
        offset <= block_start(offset, block_size, ch),
        block_start(offset, block_size, ch) + 4 * count <= offset + channels * block_size * 4,
        block_start(offset, block_size, ch + 1) <= offset + channels * block_size * 4,
{
    assert((ch + 1) * block_size * 4 == ch * block_size * 4 + block_size * 4)
        by (nonlinear_arith);
    assert(0 <= ch * block_size * 4) by (nonlinear_arith)
        requires
            0 <= ch,
            0 <= block_size,
    ;
    assert((ch + 1) * block_size * 4 <= channels * block_size * 4) by (nonlinear_arith)
        requires
            0 <= ch < channels,
            0 <= block_size,
    ;
}

/// Whether a run of blocks lies behind the header and within the region.
fn check_blocks(offset: u32, channels: u32, block_size: u32, region_len: usize) -> (ok: bool)
    ensures
        ok == blocks_fit(offset as int, channels as int, block_size as int, region_len as int),
{
    if offset < 56 {
        return false;
    }
    assert(channels * block_size * 4 == (channels * block_size) * 4 && 0 <= channels
        * block_size) by (nonlinear_arith);
    let samples: u64 = match (channels as u64).checked_mul(block_size as u64) {
        Some(n) => n,
        None => {
            return false;
        },
    };
    let bytes: u64 = match samples.checked_mul(4) {
        Some(n) => n,
        None => {
            return false;
        },
    };
    match bytes.checked_add(offset as u64) {
        Some(end) => end <= region_len as u64,
        None => false,
    }
}

/// Copies one block of input samples into the region, as its header places
/// them. Of each of the first `channels` buffers it writes as many samples
/// as the buffer has, `num_frames` at most; buffers beyond `channels` are
/// passed over. Nothing is written where the region does not hold the
/// blocks that its header announces, or where a block is shorter than
/// `num_frames`.
pub fn copy_inputs(region: &mut [u8], channels: u32, inputs: &[Vec<u32>], num_frames: usize) -> (r:
    Result<(), Error>)
    ensures
        final(region)@.len() == old(region)@.len(),
        match transfer_fault(old(region)@, 8, channels, num_frames) {
            Some(e) => r == Err::<(), Error>(e) && final(region)@ == old(region)@,
            None => r is Ok && final(region)@ == with_inputs(
                old(region)@,
                word(old(region)@, 8) as int,
                word(old(region)@, 4) as int,
                inputs@,
                lesser(inputs@.len(), channels as nat),
                num_frames as nat,
            ),
        },
{
    let header: ShmHeader = match ShmHeader::from_bytes(region) {
        Some(h) => h,
        None => {
            return Err(Error::Transport(Fault::CorruptRegion));
        },
    };
    if !check_blocks(header.input_offset, channels, header.block_size, region.len()) {
        return Err(Error::Transport(Fault::CorruptRegion));
    }
    if num_frames > header.block_size as usize {
        return Err(Error::InvalidParameter(num_frames));
    }
    let present: usize = if inputs.len() < channels as usize {
        inputs.len()
    } else {
        channels as usize
    };
    if present == 0 {
        return Ok(());
    }
    proof {
        broadcast use vstd::slice::group_slice_axioms;

        assert(region@.len() == region.len() <= usize::MAX);
        lemma_block_within(
            header.input_offset as int,
            channels as int,
            header.block_size as int,
            0,
            0,
        );
    }
    let offset: usize = header.input_offset as usize;
    let stride: usize = header.block_size as usize * 4;
    let mut ch: usize = 0;
    let mut start: usize = offset;
    while ch < present
        invariant
            ch <= present <= channels,
            present <= inputs@.len(),
            present == lesser(inputs@.len(), channels as nat),
            region@.len() == old(region)@.len(),
            region@.len() <= usize::MAX,
            num_frames <= header.block_size,
            stride == header.block_size * 4,
            offset == header.input_offset,
            blocks_fit(
                offset as int,
                channels as int,
                header.block_size as int,
                region@.len() as int,
            ),
            start == block_start(offset as int, header.block_size as int, ch as int),
            region@ == with_inputs(
                old(region)@,
                offset as int,
                header.block_size as int,
                inputs@,
                ch as nat,
                num_frames as nat,
            ),
        decreases present - ch,
    {
        let input: &Vec<u32> = &inputs[ch];
        let count: usize = if num_frames < input.len() {
            num_frames
        } else {
            input.len()
        };
        proof {
            lemma_block_within(
                offset as int,
                channels as int,
                header.block_size as int,
                ch as int,
                count as int,
            );
        }
        write_words(region, start, input.as_slice(), count);
        start = start + stride;
        ch += 1;
    }
    Ok(())
}

/// Copies one block of output samples out of the region, as its header
/// places them. In each of the first `channels` buffers it overwrites the
/// first `num_frames` samples, or as many as the buffer holds; it leaves
/// every other sample, and every buffer beyond `channels`, as it was.
/// Nothing is copied where the region does not hold the blocks that its
/// header announces, or where a block is shorter than `num_frames`.
pub fn copy_outputs(
    region: &[u8],
    channels: u32,
    outputs: &mut Vec<Vec<u32>>,
    num_frames: usize,
) -> (r: Result<(), Error>)
    ensures
        match transfer_fault(region@, 9, channels, num_frames) {
            Some(e) => r == Err::<(), Error>(e) && final(outputs)@ == old(outputs)@,
            None => r is Ok && samples_of(final(outputs)@) == with_outputs(
                old(outputs)@,
                region@,
                word(region@, 9) as int,
                word(region@, 4) as int,
                channels as nat,
                num_frames as nat,
            ),
        },
{
    let header: ShmHeader = match ShmHeader::from_bytes(region) {
        Some(h) => h,
        None => {
            return Err(Error::Transport(Fault::CorruptRegion));
        },
    };
    if !check_blocks(header.output_offset, channels, header.block_size, region.len()) {
        return Err(Error::Transport(Fault::CorruptRegion));
    }
    if num_frames > header.block_size as usize {
        return Err(Error::InvalidParameter(num_frames));
    }
    let present: usize = if outputs.len() < channels as usize {
        outputs.len()
    } else {
        channels as usize
    };
    assert(region@.len() == region.len() <= usize::MAX) by {
        broadcast use vstd::slice::group_slice_axioms;

    }
    if present == 0 {
        assert(samples_of(outputs@) =~~= with_outputs(
            outputs@,
            region@,
            header.output_offset as int,
            header.block_size as int,
            channels as nat,
            num_frames as nat,
        ));
        return Ok(());
    }
    proof {
        lemma_block_within(
            header.output_offset as int,
            channels as int,
            header.block_size as int,
            0,
            0,
        );
    }
    let offset: usize = header.output_offset as usize;
    let stride: usize = header.block_size as usize * 4;
    let ghost goal = with_outputs(
        old(outputs)@,
        region@,
        offset as int,
        header.block_size as int,
        channels as nat,
        num_frames as nat,
    );
    let mut ch: usize = 0;
    let mut start: usize = offset;
    while ch < present
        invariant
            ch <= present <= channels,
            present <= outputs@.len(),
            present == lesser(old(outputs)@.len(), channels as nat),
            outputs@.len() == old(outputs)@.len(),
            region@.len() <= usize::MAX,
            num_frames <= header.block_size,
            stride == header.block_size * 4,
            offset == header.output_offset,
            blocks_fit(
                offset as int,
                channels as int,
                header.block_size as int,
                region@.len() as int,
            ),
            start == block_start(offset as int, header.block_size as int, ch as int),
            goal == with_outputs(
                old(outputs)@,
                region@,
                offset as int,
                header.block_size as int,
                channels as nat,
                num_frames as nat,
            ),
            forall|c: int| 0 <= c < ch ==> outputs@[c]@ == goal[c],
            forall|c: int| ch <= c < outputs@.len() ==> outputs@[c] == old(outputs)@[c],
        decreases present - ch,
    {
        let held: usize = outputs[ch].len();
        let count: usize = if num_frames < held {
            num_frames
        } else {
            held
        };
        proof {
            lemma_block_within(
                offset as int,
                channels as int,
                header.block_size as int,
                ch as int,
                count as int,
            );
        }
        let mut i: usize = 0;
        while i < count
            invariant
                i <= count <= num_frames,
                count <= held,
                ch < present <= outputs@.len(),
                outputs@.len() == old(outputs)@.len(),
                outputs@[ch as int]@.len() == held,
                held == old(outputs)@[ch as int]@.len(),
                region@.len() <= usize::MAX,
                goal.len() == outputs@.len(),
                start + 4 * count <= region@.len(),
                start == block_start(offset as int, header.block_size as int, ch as int),
                forall|k: int|
                    0 <= k < i ==> outputs@[ch as int]@[k] == sample_at(region@, start + 4 * k),
                forall|k: int|
                    i <= k < held ==> outputs@[ch as int]@[k] == old(outputs)@[ch as int]@[k],
                forall|c: int| 0 <= c < ch ==> outputs@[c]@ == goal[c],
                forall|c: int| ch < c < outputs@.len() ==> outputs@[c] == old(outputs)@[c],
            decreases count - i,
        {
            let sample: u32 = read_u32(region, start + 4 * i);
            outputs[ch][i] = sample;
            i += 1;
        }
        assert(outputs@[ch as int]@ =~= goal[ch as int]);
        start = start + stride;
        ch += 1;
    }
    assert(samples_of(outputs@) =~~= goal);
    Ok(())
}

} // verus!
