//! The payloads that the host sends.

use vstd::prelude::*;
use vstd::string::StringSliceAdditionalSpecFns;
use crate::bytes::{append, fill_field, fixed_field, u32_le, u32_to_le, u64_le, u64_to_le};

verus! {

/// Payload of `LoadPlugin`: the plug-in's path in a field of 1024 bytes,
/// then the index of the class to load.
pub struct CmdLoadPlugin {
    pub path: [u8; 1024],
    pub class_index: u32,
}

impl CmdLoadPlugin {
    /// The 1028 bytes of the payload.
    pub open spec fn wire(self) -> Seq<u8> {
        self.path@ + u32_le(self.class_index)
    }

    /// The payload for the plug-in at `path`: as much of the path as leaves
    /// one NUL at the end of its field.
    pub fn new(path: &str, class_index: u32) -> (cmd: CmdLoadPlugin)
        ensures
            cmd.path@ == fixed_field(path.spec_bytes(), 1024),
            cmd.class_index == class_index,
    {
        let mut field: [u8; 1024] = [0u8; 1024];
        fill_field(&mut field, path.as_bytes());
        CmdLoadPlugin { path: field, class_index }
    }

    /// The 1028 bytes of the payload.
    pub fn to_bytes(&self) -> (b: Vec<u8>)
        ensures
            b@ == self.wire(),
    {
        let mut buf: Vec<u8> = Vec::with_capacity(1028);
        append(&mut buf, &self.path);
        append(&mut buf, &u32_to_le(self.class_index));
        buf
    }
}

/// Payload of `InitAudio`: the geometry of the audio plane, then the name of
/// the shared region in a field of 64 bytes.
pub struct CmdInitAudio {
    pub sample_rate: u32,
    pub block_size: u32,
    pub num_inputs: u32,
    pub num_outputs: u32,
    pub shm_name: [u8; 64],
}

impl CmdInitAudio {
    /// The 80 bytes of the payload.
    pub open spec fn wire(self) -> Seq<u8> {
        u32_le(self.sample_rate) + u32_le(self.block_size) + u32_le(self.num_inputs) + u32_le(
            self.num_outputs,
        ) + self.shm_name@
    }

    /// The payload for a plane of the given geometry behind the file
    /// `shm_name`: as much of the name as leaves one NUL at the end of its
    /// field.
    pub fn new(
        sample_rate: u32,
        block_size: u32,
        num_inputs: u32,
        num_outputs: u32,
        shm_name: &str,
    ) -> (cmd: CmdInitAudio)
        ensures
            cmd.sample_rate == sample_rate,
            cmd.block_size == block_size,
            cmd.num_inputs == num_inputs,
            cmd.num_outputs == num_outputs,
            cmd.shm_name@ == fixed_field(shm_name.spec_bytes(), 64),
    {
        let mut field: [u8; 64] = [0u8; 64];
        fill_field(&mut field, shm_name.as_bytes());
        CmdInitAudio { sample_rate, block_size, num_inputs, num_outputs, shm_name: field }
    }

    /// The 80 bytes of the payload.
    pub fn to_bytes(&self) -> (b: Vec<u8>)
        ensures
            b@ == self.wire(),
    {
        let mut buf: Vec<u8> = Vec::with_capacity(80);
        append(&mut buf, &u32_to_le(self.sample_rate));
        append(&mut buf, &u32_to_le(self.block_size));
        append(&mut buf, &u32_to_le(self.num_inputs));
        append(&mut buf, &u32_to_le(self.num_outputs));
        append(&mut buf, &self.shm_name);
        buf
    }
}

/// Payload of `ProcessAudio`: how many frames of the block to process.
#[derive(Debug, Clone, Copy, PartialEq, Eq, Structural)]
pub struct CmdProcessAudio {
    pub num_samples: u32,
}

impl CmdProcessAudio {
    /// The payload for `num_samples` frames.
    pub fn new(num_samples: u32) -> (cmd: CmdProcessAudio)
        ensures
            cmd.num_samples == num_samples,
    {
        CmdProcessAudio { num_samples }
    }

    /// The four bytes of the payload.
    pub fn to_bytes(&self) -> (b: [u8; 4])
        ensures
            b@ == u32_le(self.num_samples),
    {
        u32_to_le(self.num_samples)
    }
}

/// Payload of `GetParam` and `SetParam`: the parameter's id and a value,
/// held as the bit pattern of a 64-bit float.
#[derive(Debug, Clone, Copy, PartialEq, Eq, Structural)]
pub struct CmdParam {
    pub param_id: u32,
    pub value_bits: u64,
}

impl CmdParam {
    /// The twelve bytes of the payload.
    pub open spec fn wire(self) -> Seq<u8> {
        u32_le(self.param_id) + u64_le(self.value_bits)
    }

    /// The payload for the parameter with the id `param_id`.
    pub fn new(param_id: u32, value_bits: u64) -> (cmd: CmdParam)
        ensures
            cmd == (CmdParam { param_id, value_bits }),
    {
        CmdParam { param_id, value_bits }
    }

    /// The twelve bytes of the payload.
    pub fn to_bytes(&self) -> (b: Vec<u8>)
        ensures
            b@ == self.wire(),
    {
        let mut buf: Vec<u8> = Vec::with_capacity(12);
        append(&mut buf, &u32_to_le(self.param_id));
        append(&mut buf, &u64_to_le(self.value_bits));
        buf
    }
}

/// One MIDI event on the wire: its offset in the block, then status, two
/// data bytes and a padding byte.
#[derive(Debug, Clone, Copy)]
pub struct MidiEvent {
    pub sample_offset: u32,
    pub data: [u8; 4],
}

impl MidiEvent {
    /// The eight bytes of the record.
    pub open spec fn wire(self) -> Seq<u8> {
        u32_le(self.sample_offset) + self.data@
    }

    /// The event with the given status and data bytes at `sample_offset`.
    pub fn new(sample_offset: u32, status: u8, data1: u8, data2: u8) -> (e: MidiEvent)
        ensures
            e.sample_offset == sample_offset,
            e.data@ == seq![status, data1, data2, 0u8],
    {
        let data: [u8; 4] = [status, data1, data2, 0];
        assert(data@ =~= seq![status, data1, data2, 0u8]);
        MidiEvent { sample_offset, data }
    }

    /// The eight bytes of the record.
    pub fn to_bytes(&self) -> (b: [u8; 8])
        ensures
            b@ == self.wire(),
    {
        let o: [u8; 4] = u32_to_le(self.sample_offset);
        let b: [u8; 8] = [
            o[0],
            o[1],
            o[2],
            o[3],
            self.data[0],
            self.data[1],
            self.data[2],
            self.data[3],
        ];
        assert(b@ =~= self.wire());
        b
    }
}

/// What opens the payload of `SendMidi`: the number of events that follow.
#[derive(Debug, Clone, Copy, PartialEq, Eq, Structural)]
pub struct CmdMidi {
    pub num_events: u32,
}

impl CmdMidi {
    /// The four bytes of the count.
    pub fn to_bytes(&self) -> (b: [u8; 4])
        ensures
            b@ == u32_le(self.num_events),
    {
        u32_to_le(self.num_events)
    }
}

} // verus!
