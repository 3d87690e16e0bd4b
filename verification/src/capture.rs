//! What the capture engine decides before and during streaming.
//!
//! Before streaming: whether the device's format can be used at all, and
//! whether its rate has to be converted. During streaming: how the deliveries
//! of the hardware, which come in any size, are cut into the fixed-size blocks
//! that the rate converter takes.

use crate::audio::{CHUNK_SIZE, TARGET_SAMPLE_RATE};
use vstd::prelude::*;

verus! {

/// Sample format that an input device announces.
#[derive(Debug, Clone, Copy, PartialEq, Eq, Structural)]
pub enum DeviceFormat {
    /// 32-bit floating point.
    F32,
    /// Signed 16-bit integers.
    I16,
    /// Anything else.
    Other,
}

/// Sample format that the capture engine can read.
#[derive(Debug, Clone, Copy, PartialEq, Eq, Structural)]
pub enum SampleEncoding {
    F32,
    I16,
}

/// Why capture could not start.
#[derive(Debug, Clone, Copy, PartialEq, Eq, Structural)]
pub enum CaptureError {
    /// The host has no default input device.
    NoInputDevice,
    /// The device delivers a format that is not supported.
    UnsupportedSampleFormat,
}

impl CaptureError {
    /// A short description for logs and status lines.
    pub fn message(&self) -> (text: String)
        ensures
            text@ == match *self {
                CaptureError::NoInputDevice => "No input device available"@,
                CaptureError::UnsupportedSampleFormat => "Unsupported sample format"@,
            },
    {
        match self {
            CaptureError::NoInputDevice => String::from_str("No input device available"),
            CaptureError::UnsupportedSampleFormat => String::from_str("Unsupported sample format"),
        }
    }
}

/// How the input stream is to be read.
#[derive(Debug, Clone, Copy, PartialEq, Eq, Structural)]
pub struct CapturePlan {
    /// Format in which the device delivers samples.
    pub encoding: SampleEncoding,
    /// Rate at which the device delivers samples, in Hz.
    pub input_rate: u32,
    /// Whether the samples pass through a rate converter. They do exactly
    /// when the device's rate differs from the target rate.
    pub resample: bool,
}

/// Plans the capture for a device that delivers `format` at `input_rate`.
/// Formats other than 32-bit float and 16-bit integer are refused.
pub fn plan_capture(input_rate: u32, format: DeviceFormat) -> (plan: Result<
    CapturePlan,
    CaptureError,
>)
    ensures
        plan == match format {
            DeviceFormat::F32 => Ok::<CapturePlan, CaptureError>(
                CapturePlan {
                    encoding: SampleEncoding::F32,
                    input_rate,
                    resample: input_rate != TARGET_SAMPLE_RATE,
                },
            ),
            DeviceFormat::I16 => Ok(
                CapturePlan {
                    encoding: SampleEncoding::I16,
                    input_rate,
                    resample: input_rate != TARGET_SAMPLE_RATE,
                },
            ),
            DeviceFormat::Other => Err(CaptureError::UnsupportedSampleFormat),
        },
{
    let resample = input_rate != TARGET_SAMPLE_RATE;
    match format {
        DeviceFormat::F32 => Ok(CapturePlan { encoding: SampleEncoding::F32, input_rate, resample }),
        DeviceFormat::I16 => Ok(CapturePlan { encoding: SampleEncoding::I16, input_rate, resample }),
        DeviceFormat::Other => Err(CaptureError::UnsupportedSampleFormat),
    }
}

/// The `index`-th full block of `pending`.
pub open spec fn block_at<T>(pending: Seq<T>, index: int) -> Seq<T> {
    pending.subrange(index * CHUNK_SIZE, (index + 1) * CHUNK_SIZE)
}

/// Collects deliveries of any size and hands them out again in blocks of
/// exactly [`CHUNK_SIZE`] items, in the order in which they came.
pub struct BlockAccumulator<T> {
    pending: Vec<T>,
}

impl<T> View for BlockAccumulator<T> {
    type V = Seq<T>;

    closed spec fn view(&self) -> Seq<T> {
        self.pending@
    }
}

impl<T> BlockAccumulator<T> {
    pub fn new() -> (accumulator: BlockAccumulator<T>)
        ensures
            accumulator@ == Seq::<T>::empty(),
    {
        BlockAccumulator { pending: Vec::new() }
    }

    pub fn len(&self) -> (len: usize)
        ensures
            len == self@.len(),
    {
        self.pending.len()
    }

    /// Takes the oldest full block, if there is one.
    pub fn next_block(&mut self) -> (block: Option<Vec<T>>)
        ensures
            block is Some == (old(self)@.len() >= CHUNK_SIZE),
            block matches Some(items) ==> items@ == old(self)@.take(CHUNK_SIZE as int),
            block is Some ==> final(self)@ == old(self)@.skip(CHUNK_SIZE as int),
            block is None ==> final(self)@ == old(self)@,
    {
        if self.pending.len() < CHUNK_SIZE {
            return None;
        }
        let mut block = self.pending.split_off(CHUNK_SIZE);
        std::mem::swap(&mut block, &mut self.pending);
        Some(block)
    }

    /// Takes every full block, oldest first. Fewer than [`CHUNK_SIZE`] items
    /// stay behind, so that no backlog builds up however large a delivery was.
    pub fn drain_blocks(&mut self) -> (blocks: Vec<Vec<T>>)
        ensures
            blocks@.len() == old(self)@.len() / CHUNK_SIZE as nat,
            forall|k: int|
                0 <= k < blocks@.len() ==> (#[trigger] blocks@[k])@ == block_at(old(self)@, k),
            final(self)@ == old(self)@.skip(blocks@.len() * CHUNK_SIZE),
            final(self)@.len() == old(self)@.len() % CHUNK_SIZE as nat,
    {
        let mut blocks: Vec<Vec<T>> = Vec::new();
        let ghost all = self@;
        proof {
            assert(all.skip(0) =~= all);
        }
        loop
            invariant
                blocks@.len() * CHUNK_SIZE <= all.len(),
                self@ == all.skip(blocks@.len() * CHUNK_SIZE),
                forall|k: int| 0 <= k < blocks@.len() ==> (#[trigger] blocks@[k])@ == block_at(all, k),
            ensures
                blocks@.len() * CHUNK_SIZE <= all.len(),
                self@ == all.skip(blocks@.len() * CHUNK_SIZE),
                self@.len() < CHUNK_SIZE,
                forall|k: int| 0 <= k < blocks@.len() ==> (#[trigger] blocks@[k])@ == block_at(all, k),
            decreases all.len() - blocks@.len() * CHUNK_SIZE,
        {
            let ghost done = blocks@.len() as int;
            match self.next_block() {
                Some(block) => {
                    proof {
                        assert(block@ =~= block_at(all, done));
                        assert(self@ =~= all.skip((done + 1) * CHUNK_SIZE));
                    }
                    blocks.push(block);
                },
                None => {
                    break ;
                },
            }
        }
        proof {
            let count = blocks@.len() as int;
            let left = self@.len() as int;
            let size = CHUNK_SIZE as int;
            assert(all.len() == count * size + left);
            assert(count == all.len() as int / size && left == all.len() as int % size) by {
                vstd::arithmetic::div_mod::lemma_fundamental_div_mod_converse(
                    all.len() as int,
                    size,
                    count,
                    left,
                );
            }
        }
        blocks
    }

    /// Takes everything that is pending, whatever its length.
    pub fn take_all(&mut self) -> (items: Vec<T>)
        ensures
            items@ == old(self)@,
            final(self)@ == Seq::<T>::empty(),
    {
        let mut items: Vec<T> = Vec::new();
        std::mem::swap(&mut items, &mut self.pending);
        items
    }
}

impl<T: Copy> BlockAccumulator<T> {
    /// Appends one delivery.
    pub fn extend(&mut self, delivery: &[T])
        ensures
            final(self)@ == old(self)@ + delivery@,
    {
        let mut i: usize = 0;
        while i < delivery.len()
            invariant
                i <= delivery@.len(),
                self@ == old(self)@ + delivery@.take(i as int),
            decreases delivery@.len() - i,
        {
            self.pending.push(delivery[i]);
            assert(self@ =~= old(self)@ + delivery@.take(i + 1));
            i += 1;
        }
        assert(delivery@.take(delivery@.len() as int) =~= delivery@);
    }
}

} // verus!
