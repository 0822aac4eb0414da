//! The interrupt-driven acquisition pipeline and its host protocol.
//!
//! Two hardware edges drive the pipeline: a trigger-input edge starts a
//! single measurement, and the data-ready edge that follows it captures the
//! result into the sample queue.  A foreground loop serves the queue and
//! the overflow flag to a host, one request byte at a time.  The handlers
//! here are the decisions of that state machine; the surrounding board
//! support code owns the interrupt sources, the diagnostic trigger-output
//! pin mirrored from [`Pipeline::trigger_out`], and the host byte stream.

use vstd::prelude::*;

use crate::RM3100;
use crate::Transport;
use crate::mincircularbuffer::MinCircularBuffer;
use crate::mincircularbuffer::push_contents;
use crate::mincircularbuffer::push_fits;

verus! {

/// Capacity of the sample queue (it holds one less sample than this).
pub const BUFFER_SIZE: usize = 32;

/// Request byte asking for one buffered sample.
pub const CMD_READ_SAMPLE: u8 = 0x80;

/// Request byte asking for the overflow flag.
pub const CMD_QUERY_OVERFLOW: u8 = 0x81;

/// A sample as the 32-bit word sent on the wire: its two's-complement
/// value read as unsigned.
pub open spec fn sample_word(sample: i32) -> int {
    if sample >= 0 {
        sample as int
    } else {
        sample + 0x1_0000_0000
    }
}

/// The five-byte response that serves `sample`: a leading `1` marks data
/// present, then the sample's 32-bit word, most significant byte first.
pub open spec fn sample_response(sample: i32) -> Seq<u8> {
    let word = sample_word(sample);
    seq![
        1u8,
        (word / 0x1000000 % 0x100) as u8,
        (word / 0x10000 % 0x100) as u8,
        (word / 0x100 % 0x100) as u8,
        (word % 0x100) as u8,
    ]
}

/// The five-byte response that reports an empty queue.
pub open spec fn empty_response() -> Seq<u8> {
    seq![0u8, 0u8, 0u8, 0u8, 0u8]
}

/// Serve one sample: a status byte of `1`, then the sample big-endian.
fn encode_sample(sample: i32) -> (resp: Vec<u8>)
    ensures
        resp@ == sample_response(sample),
{
    let word: u32 = if sample >= 0 {
        sample as u32
    } else {
        ((sample as i64) + 0x1_0000_0000i64) as u32
    };
    let resp = vec![
        1u8,
        (word / 0x1000000) as u8,
        (word / 0x10000 % 0x100) as u8,
        (word / 0x100 % 0x100) as u8,
        (word % 0x100) as u8,
    ];
    proof {
        assert(resp@ =~= sample_response(sample));
    }
    resp
}

/// The shared acquisition state: the driver, the sample queue, the latched
/// overflow flag, and the diagnostic trigger-output level.  The board
/// support code serializes access across the two interrupt handlers and
/// the foreground loop, so each handler runs to completion on this state.
pub struct Pipeline<B> {
    sensor: RM3100<B>,
    buffer: MinCircularBuffer<i32, BUFFER_SIZE>,
    overflow: bool,
    trigger_out: bool,
}

impl<B: Transport> Pipeline<B> {
    /// The queue indices stay inside the backing array.
    pub closed spec fn wf(&self) -> bool {
        self.buffer.wf()
    }

    /// The queued samples, oldest first.
    pub closed spec fn samples(&self) -> Seq<i32> {
        self.buffer@
    }

    /// Whether a push has ever failed.
    pub closed spec fn overflowed(&self) -> bool {
        self.overflow
    }

    /// The level of the diagnostic trigger-output pin.
    pub closed spec fn trigger_high(&self) -> bool {
        self.trigger_out
    }

    /// A pipeline around a configured driver: empty queue, no overflow,
    /// trigger output low.
    pub fn new(sensor: RM3100<B>) -> (p: Self)
        ensures
            p.wf(),
            p.samples() == Seq::<i32>::empty(),
            !p.overflowed(),
            !p.trigger_high(),
    {
        Pipeline {
            sensor,
            buffer: MinCircularBuffer::new(0),
            overflow: false,
            trigger_out: false,
        }
    }

    /// The level the board support code should drive on the diagnostic
    /// trigger-output pin.
    pub fn trigger_output(&self) -> (high: bool)
        ensures
            high == self.trigger_high(),
    {
        self.trigger_out
    }

    /// Whether a push has ever failed; once set it stays set until an
    /// external reset.
    pub fn is_overflow(&self) -> (of: bool)
        ensures
            of == self.overflowed(),
    {
        self.overflow
    }

    /// The trigger-input edge: raise the diagnostic output and request a
    /// single x-axis measurement.  The queue and the overflow flag are
    /// untouched; the output stays high until the data-ready edge.
    pub fn on_trigger(&mut self)
        requires
            old(self).wf(),
        ensures
            final(self).wf(),
            final(self).trigger_high(),
            final(self).samples() == old(self).samples(),
            final(self).overflowed() == old(self).overflowed(),
    {
        self.trigger_out = true;
        self.sensor.start_single_measure(true, false, false);
    }

    /// Queue one captured sample, latching the overflow flag if the queue
    /// cannot take it.
    pub fn push_sample(&mut self, sample: i32) -> (ok: bool)
        requires
            old(self).wf(),
        ensures
            final(self).wf(),
            final(self).trigger_high() == old(self).trigger_high(),
            ok == push_fits(old(self).samples(), BUFFER_SIZE as int),
            final(self).samples() == push_contents(old(self).samples(), sample, BUFFER_SIZE as int),
            final(self).overflowed() == (old(self).overflowed() || !ok),
    {
        let ok = self.buffer.push(sample);
        if !ok {
            self.overflow = true;
        }
        ok
    }

    /// The data-ready edge: drop the diagnostic output, read the completed
    /// x-axis sample, and queue it.  While there is room the queue grows
    /// by exactly that one sample; otherwise the overflow flag latches.
    pub fn on_data_ready(&mut self)
        requires
            old(self).wf(),
        ensures
            final(self).wf(),
            !final(self).trigger_high(),
            old(self).overflowed() ==> final(self).overflowed(),
            push_fits(old(self).samples(), BUFFER_SIZE as int) ==> {
                &&& final(self).samples().len() == old(self).samples().len() + 1
                &&& final(self).samples().drop_last() == old(self).samples()
                &&& final(self).overflowed() == old(self).overflowed()
            },
            !push_fits(old(self).samples(), BUFFER_SIZE as int) ==> {
                &&& final(self).samples() == Seq::<i32>::empty()
                &&& final(self).overflowed()
            },
    {
        self.trigger_out = false;
        let sample = self.sensor.read_magx();
        self.push_sample(sample);
        proof {
            if push_fits(old(self).samples(), BUFFER_SIZE as int) {
                assert(self.samples().drop_last() =~= old(self).samples());
            }
        }
    }

    /// Serve one host request byte.  `0x80` pops one sample: five bytes,
    /// a leading `1` and the sample big-endian, or five zero bytes when
    /// the queue is empty.  `0x81` reports the overflow flag as one byte.
    /// Any other byte is ignored with an empty response.
    pub fn handle_command(&mut self, instruction: u8) -> (resp: Vec<u8>)
        requires
            old(self).wf(),
        ensures
            final(self).wf(),
            final(self).overflowed() == old(self).overflowed(),
            final(self).trigger_high() == old(self).trigger_high(),
            instruction == CMD_READ_SAMPLE && old(self).samples().len() > 0 ==> {
                &&& resp@ == sample_response(old(self).samples()[0])
                &&& final(self).samples() == old(self).samples().drop_first()
            },
            instruction == CMD_READ_SAMPLE && old(self).samples().len() == 0 ==> {
                &&& resp@ == empty_response()
                &&& final(self).samples() == old(self).samples()
            },
            instruction == CMD_QUERY_OVERFLOW ==> {
                &&& resp@ == seq![
                    if old(self).overflowed() {
                        1u8
                    } else {
                        0u8
                    },
                ]
                &&& final(self).samples() == old(self).samples()
            },
            instruction != CMD_READ_SAMPLE && instruction != CMD_QUERY_OVERFLOW ==> {
                &&& resp@ == Seq::<u8>::empty()
                &&& final(self).samples() == old(self).samples()
            },
    {
        if instruction == CMD_READ_SAMPLE {
            match self.buffer.pop() {
                Some(sample) => encode_sample(sample),
                None => {
                    let resp = vec![0u8, 0u8, 0u8, 0u8, 0u8];
                    proof {
                        assert(resp@ =~= empty_response());
                    }
                    resp
                },
            }
        } else if instruction == CMD_QUERY_OVERFLOW {
            let byte: u8 = if self.overflow {
                1
            } else {
                0
            };
            let resp = vec![byte];
            proof {
                assert(resp@ =~= seq![
                    if old(self).overflowed() {
                        1u8
                    } else {
                        0u8
                    },
                ]);
            }
            resp
        } else {
            Vec::new()
        }
    }
}

} // verus!
