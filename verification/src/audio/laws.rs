//! What holds of a region once the host has stamped it.

use vstd::prelude::*;
use crate::audio::copy::{
    lemma_block_within, lesser, sample_at, transfer_fault, with_inputs, with_outputs,
};
use crate::audio::{block_start, lemma_products, PlaneView};
use crate::bytes::{lemma_word_of_words, lemma_word_written, patched, word, words_le};
use crate::protocol::{ShmHeader, RACK_WINE_PROTOCOL_VERSION, RACK_WINE_SHM_MAGIC};

verus! {

/// A region that a header was written to reads back as that header.
pub proof fn lemma_header_reads_back(h: ShmHeader, region: Seq<u8>)
    requires
        region.len() >= 56,
    ensures
        h.is_read_from(patched(region, 0, h.wire())),
{
    let b = patched(region, 0, h.wire());
    lemma_word_written(region, h.words(), 0);
    lemma_word_written(region, h.words(), 1);
    lemma_word_written(region, h.words(), 2);
    lemma_word_written(region, h.words(), 3);
    lemma_word_written(region, h.words(), 4);
    lemma_word_written(region, h.words(), 5);
    lemma_word_written(region, h.words(), 6);
    lemma_word_written(region, h.words(), 7);
    lemma_word_written(region, h.words(), 8);
    lemma_word_written(region, h.words(), 9);
    lemma_word_written(region, h.words(), 10);
    lemma_word_written(region, h.words(), 11);
    lemma_word_written(region, h.words(), 12);
    lemma_word_written(region, h.words(), 13);
    assert(h.reserved@ =~= seq![word(b, 10), word(b, 11), word(b, 12), word(b, 13)]);
}

/// Right after arming, the header of the region holds the magic and the
/// version, places the inputs right behind itself and the outputs right
/// behind the inputs, and the region reaches to the end of the outputs. So
/// a block of no more frames than the block size can be moved in and out.
pub proof fn lemma_armed_region(plane: PlaneView, region: Seq<u8>, frames: usize)
    requires
        plane.region_size() <= u32::MAX,
        region.len() >= plane.region_size(),
        frames <= plane.block_size,
    ensures
        ({
            let armed = patched(region, 0, plane.stamp());
            &&& armed.len() == region.len()
            &&& word(armed, 0) == RACK_WINE_SHM_MAGIC
            &&& word(armed, 1) == RACK_WINE_PROTOCOL_VERSION
            &&& word(armed, 2) == plane.num_inputs
            &&& word(armed, 3) == plane.num_outputs
            &&& word(armed, 4) == plane.block_size
            &&& word(armed, 5) == plane.sample_rate
            &&& word(armed, 6) == 0
            &&& word(armed, 7) == 0
            &&& word(armed, 8) == 56
            &&& word(armed, 9) == word(armed, 8) + plane.num_inputs * plane.block_size * 4
            &&& armed.len() >= word(armed, 9) + plane.num_outputs * plane.block_size * 4
            &&& transfer_fault(armed, 8, plane.num_inputs, frames) is None
            &&& transfer_fault(armed, 9, plane.num_outputs, frames) is None
        }),
{
    let words = seq![
        RACK_WINE_SHM_MAGIC,
        RACK_WINE_PROTOCOL_VERSION,
        plane.num_inputs,
        plane.num_outputs,
        plane.block_size,
        plane.sample_rate,
        0,
        0,
        56,
        (56 + plane.num_inputs * plane.block_size * 4) as u32,
        0,
        0,
        0,
        0,
    ];
    lemma_products(plane.num_inputs as int, plane.num_outputs as int, plane.block_size as int);
    lemma_word_written(region, words, 0);
    lemma_word_written(region, words, 1);
    lemma_word_written(region, words, 2);
    lemma_word_written(region, words, 3);
    lemma_word_written(region, words, 4);
    lemma_word_written(region, words, 5);
    lemma_word_written(region, words, 6);
    lemma_word_written(region, words, 7);
    lemma_word_written(region, words, 8);
    lemma_word_written(region, words, 9);
}

/// Copying inputs in leaves the region as long as it was.
pub proof fn lemma_with_inputs_len(
    region: Seq<u8>,
    offset: int,
    block_size: int,
    inputs: Seq<Vec<u32>>,
    channels: nat,
    frames: nat,
)
    ensures
        with_inputs(region, offset, block_size, inputs, channels, frames).len() == region.len(),
    decreases channels,
{
    if channels > 0 {
        lemma_with_inputs_len(region, offset, block_size, inputs, (channels - 1) as nat, frames);
    }
}

/// Copying inputs in changes no byte outside the blocks of the channels
/// that are copied: the header, the outputs and all that lies behind them
/// stay as they are.
pub proof fn lemma_inputs_stay_in_their_blocks(
    region: Seq<u8>,
    offset: int,
    block_size: int,
    inputs: Seq<Vec<u32>>,
    channels: nat,
    frames: nat,
    k: int,
)
    requires
        0 <= offset,
        frames <= block_size,
        channels <= inputs.len(),
        0 <= k < region.len(),
        k < offset || k >= offset + channels * block_size * 4,
    ensures
        with_inputs(region, offset, block_size, inputs, channels, frames).len() == region.len(),
        with_inputs(region, offset, block_size, inputs, channels, frames)[k] == region[k],
    decreases channels,
{
    if channels > 0 {
        let ch = (channels - 1) as int;
        let count = lesser(inputs[ch]@.len(), frames);
        lemma_block_within(offset, channels as int, block_size, ch, count as int);
        lemma_inputs_stay_in_their_blocks(
            region,
            offset,
            block_size,
            inputs,
            (channels - 1) as nat,
            frames,
            k,
        );
    }
}

/// What the host copies in is what stands in the region: the `i`-th sample
/// of a copied channel is read back from the `i`-th place of its block.
pub proof fn lemma_inputs_read_back(
    region: Seq<u8>,
    offset: int,
    block_size: int,
    inputs: Seq<Vec<u32>>,
    channels: nat,
    frames: nat,
    ch: int,
    i: int,
)
    requires
        0 <= offset,
        frames <= block_size,
        channels <= inputs.len(),
        offset + channels * block_size * 4 <= region.len(),
        0 <= ch < channels,
        0 <= i < lesser(inputs[ch]@.len(), frames),
    ensures
        with_inputs(region, offset, block_size, inputs, channels, frames).len() == region.len(),
        sample_at(
            with_inputs(region, offset, block_size, inputs, channels, frames),
            block_start(offset, block_size, ch) + 4 * i,
        ) == inputs[ch]@[i],
    decreases channels,
{
    let last = (channels - 1) as int;
    let before = with_inputs(region, offset, block_size, inputs, (channels - 1) as nat, frames);
    let after = with_inputs(region, offset, block_size, inputs, channels, frames);
    let at = block_start(offset, block_size, ch) + 4 * i;
    let count = lesser(inputs[last]@.len(), frames);
    let written = inputs[last]@.take(count as int);
    lemma_block_within(offset, channels as int, block_size, last, count as int);
    lemma_block_within(offset, channels as int, block_size, ch, i + 1);
    lemma_with_inputs_len(region, offset, block_size, inputs, (channels - 1) as nat, frames);
    if ch == last {
        lemma_word_of_words(written, i);
        assert(after.subrange(at, at + 4) =~= words_le(written).subrange(4 * i, 4 * i + 4));
    } else {
        lemma_inputs_read_back(
            region,
            offset,
            block_size,
            inputs,
            (channels - 1) as nat,
            frames,
            ch,
            i,
        );
        lemma_block_within(offset, last, block_size, ch, i + 1);
        assert(after.subrange(at, at + 4) =~= before.subrange(at, at + 4));
    }
}

/// Copying outputs out overwrites, in each buffer that the plug-in has a
/// channel for, exactly the first `frames` samples, or as many as the
/// buffer holds, with the samples at the start of the channel's block;
/// every other sample stays, and so does the length of every buffer.
pub proof fn lemma_outputs_overwritten(
    outputs: Seq<Vec<u32>>,
    region: Seq<u8>,
    offset: int,
    block_size: int,
    channels: nat,
    frames: nat,
    c: int,
    i: int,
)
    requires
        0 <= c < outputs.len(),
        0 <= i < outputs[c]@.len(),
    ensures
        ({
            let after = with_outputs(outputs, region, offset, block_size, channels, frames);
            &&& after.len() == outputs.len()
            &&& after[c].len() == outputs[c]@.len()
            &&& c < channels && i < lesser(outputs[c]@.len(), frames) ==> after[c][i] == sample_at(
                region,
                block_start(offset, block_size, c) + 4 * i,
            )
            &&& c >= channels || i >= lesser(outputs[c]@.len(), frames) ==> after[c][i]
                == outputs[c]@[i]
        }),
{
}

} // verus!
