//! Per-stage diagnostic counters of the video path. Pad probes count what
//! passes each stage; once per second the statistics logger takes the counts
//! and starts them again from zero, so each reading is a per-second rate.
use vstd::prelude::*;

verus! {

/// The buffers (and, for the RTP stages, bytes) counted since the last reading.
/// Like the atomic counters they stand for, the counts wrap around on overflow.
#[derive(Clone, Copy, PartialEq, Eq, Debug, Structural)]
pub struct StreamCounters {
    /// Raw frames leaving the capture source.
    pub src_buffers: u64,
    /// Frames reaching the encoder's sink pad.
    pub enc_in_buffers: u64,
    /// Encoded frames leaving the encoder.
    pub enc_buffers: u64,
    /// RTP packets leaving the H.264 payloader.
    pub pay_buffers: u64,
    /// Bytes of those packets.
    pub pay_bytes: u64,
    /// RTP packets reaching the video UDP sink.
    pub udp_buffers: u64,
    /// Bytes of those packets.
    pub udp_bytes: u64,
}

/// The stages at which whole frames are counted.
#[derive(Clone, Copy, PartialEq, Eq, Debug, Structural)]
pub enum FrameStage {
    /// The capture source's output.
    Source,
    /// The encoder's input.
    EncoderInput,
    /// The encoder's output.
    EncoderOutput,
}

/// The stages at which RTP packets and their bytes are counted.
#[derive(Clone, Copy, PartialEq, Eq, Debug, Structural)]
pub enum RtpStage {
    /// The H.264 payloader's output.
    Payloader,
    /// The video UDP sink's input.
    UdpSink,
}

/// All counts at zero.
pub open spec fn zero_counters() -> StreamCounters {
    StreamCounters {
        src_buffers: 0,
        enc_in_buffers: 0,
        enc_buffers: 0,
        pay_buffers: 0,
        pay_bytes: 0,
        udp_buffers: 0,
        udp_bytes: 0,
    }
}

/// The counts after one more frame passes `stage`.
pub open spec fn after_frame(c: StreamCounters, stage: FrameStage) -> StreamCounters {
    match stage {
        FrameStage::Source => StreamCounters { src_buffers: c.src_buffers.wrapping_add(1), ..c },
        FrameStage::EncoderInput => StreamCounters { enc_in_buffers: c.enc_in_buffers.wrapping_add(1), ..c },
        FrameStage::EncoderOutput => StreamCounters { enc_buffers: c.enc_buffers.wrapping_add(1), ..c },
    }
}

/// The counts after `packets` packets of `bytes` bytes in all pass `stage`.
pub open spec fn after_packets(c: StreamCounters, stage: RtpStage, packets: u64, bytes: u64) -> StreamCounters {
    match stage {
        RtpStage::Payloader => StreamCounters {
            pay_buffers: c.pay_buffers.wrapping_add(packets),
            pay_bytes: c.pay_bytes.wrapping_add(bytes),
            ..c
        },
        RtpStage::UdpSink => StreamCounters {
            udp_buffers: c.udp_buffers.wrapping_add(packets),
            udp_bytes: c.udp_bytes.wrapping_add(bytes),
            ..c
        },
    }
}

impl StreamCounters {
    /// Counters with nothing counted yet.
    pub fn new() -> (c: StreamCounters)
        ensures
            c == zero_counters(),
    {
        StreamCounters {
            src_buffers: 0,
            enc_in_buffers: 0,
            enc_buffers: 0,
            pay_buffers: 0,
            pay_bytes: 0,
            udp_buffers: 0,
            udp_bytes: 0,
        }
    }

    /// Counts one frame passing `stage`.
    pub fn count_frame(&mut self, stage: FrameStage)
        ensures
            *final(self) == after_frame(*old(self), stage),
    {
        match stage {
            FrameStage::Source => self.src_buffers = self.src_buffers.wrapping_add(1),
            FrameStage::EncoderInput => self.enc_in_buffers = self.enc_in_buffers.wrapping_add(1),
            FrameStage::EncoderOutput => self.enc_buffers = self.enc_buffers.wrapping_add(1),
        }
    }

    /// Counts `packets` RTP packets of `bytes` bytes in all passing `stage`: one
    /// buffer, or a buffer list taken as a whole.
    pub fn count_packets(&mut self, stage: RtpStage, packets: u64, bytes: u64)
        ensures
            *final(self) == after_packets(*old(self), stage, packets, bytes),
    {
        match stage {
            RtpStage::Payloader => {
                self.pay_buffers = self.pay_buffers.wrapping_add(packets);
                self.pay_bytes = self.pay_bytes.wrapping_add(bytes);
            },
            RtpStage::UdpSink => {
                self.udp_buffers = self.udp_buffers.wrapping_add(packets);
                self.udp_bytes = self.udp_bytes.wrapping_add(bytes);
            },
        }
    }

    /// Takes a reading: returns the counts so far and starts every count again
    /// from zero.
    pub fn take(&mut self) -> (reading: StreamCounters)
        ensures
            reading == *old(self),
            *final(self) == zero_counters(),
    {
        let reading = *self;
        *self = StreamCounters::new();
        reading
    }
}

/// The sum of some buffer sizes.
pub open spec fn total_size(sizes: Seq<u64>) -> int
    decreases sizes.len(),
{
    if sizes.len() == 0 { 0 } else { total_size(sizes.drop_last()) + sizes.last() }
}

proof fn total_size_prefix_bounded(sizes: Seq<u64>, i: int)
    requires
        0 <= i <= sizes.len(),
    ensures
        0 <= total_size(sizes.subrange(0, i)) <= total_size(sizes),
    decreases sizes.len(),
{
    if i == sizes.len() {
        assert(sizes.subrange(0, i) =~= sizes);
        if sizes.len() > 0 {
            total_size_prefix_bounded(sizes.drop_last(), 0);
        }
    } else {
        let rest = sizes.drop_last();
        assert(sizes.subrange(0, i) =~= rest.subrange(0, i));
        total_size_prefix_bounded(rest, i);
    }
}

/// The number of buffers in a buffer list and their total size, as the RTP
/// probes count a list. The sizes of buffers held in memory at once cannot add
/// up past `u64::MAX`.
pub fn buffer_list_totals(sizes: &Vec<u64>) -> (r: (u64, u64))
    requires
        total_size(sizes@) <= u64::MAX,
    ensures
        r.0 == sizes@.len(),
        r.1 == total_size(sizes@),
{
    let mut n: u64 = 0;
    let mut b: u64 = 0;
    let mut i: usize = 0;
    while i < sizes.len()
        invariant
            i <= sizes.len(),
            n == i,
            b == total_size(sizes@.subrange(0, i as int)),
            total_size(sizes@) <= u64::MAX,
        decreases sizes.len() - i,
    {
        proof {
            total_size_prefix_bounded(sizes@, i + 1);
            assert(sizes@.subrange(0, i + 1).drop_last() =~= sizes@.subrange(0, i as int));
        }
        n = n + 1;
        b = b + sizes[i];
        i = i + 1;
    }
    assert(sizes@.subrange(0, sizes.len() as int) =~= sizes@);
    (n, b)
}

/// A reading returns exactly what was counted since the previous reading: a
/// reading right after another (or after starting) is all zero, and one frame
/// or one batch of packets counted in between shows up in its own counts only.
pub proof fn reading_returns_what_was_counted(f: FrameStage, r: RtpStage, packets: u64, bytes: u64)
    ensures
        after_frame(zero_counters(), f) == (match f {
            FrameStage::Source => StreamCounters { src_buffers: 1, ..zero_counters() },
            FrameStage::EncoderInput => StreamCounters { enc_in_buffers: 1, ..zero_counters() },
            FrameStage::EncoderOutput => StreamCounters { enc_buffers: 1, ..zero_counters() },
        }),
        after_packets(zero_counters(), r, packets, bytes) == (match r {
            RtpStage::Payloader => StreamCounters { pay_buffers: packets, pay_bytes: bytes, ..zero_counters() },
            RtpStage::UdpSink => StreamCounters { udp_buffers: packets, udp_bytes: bytes, ..zero_counters() },
        }),
{
    assert(0u64.wrapping_add(1) == 1u64);
    assert(0u64.wrapping_add(packets) == packets);
    assert(0u64.wrapping_add(bytes) == bytes);
}

} // verus!

verus! {

/// The value of the count kept for frame stage `f`.
pub open spec fn frame_count(c: StreamCounters, f: FrameStage) -> u64 {
    match f {
        FrameStage::Source => c.src_buffers,
        FrameStage::EncoderInput => c.enc_in_buffers,
        FrameStage::EncoderOutput => c.enc_buffers,
    }
}

/// Counting a frame adds one, modulo 2^64, to the count of its own stage and
/// leaves every other count as it was; counting packets adds their number and
/// their bytes, modulo 2^64, to the packet and byte counts of their own stage
/// and leaves every other count as it was.
pub proof fn counting_adds_to_its_own_stage(c: StreamCounters, f: FrameStage, r: RtpStage, packets: u64, bytes: u64)
    ensures
        forall|g: FrameStage| #[trigger] frame_count(after_frame(c, f), g)
            == if g == f { ((frame_count(c, g) + 1) % 0x1_0000_0000_0000_0000) as u64 } else { frame_count(c, g) },
        after_frame(c, f).pay_buffers == c.pay_buffers && after_frame(c, f).pay_bytes == c.pay_bytes,
        after_frame(c, f).udp_buffers == c.udp_buffers && after_frame(c, f).udp_bytes == c.udp_bytes,
        after_packets(c, r, packets, bytes).pay_buffers
            == if r == RtpStage::Payloader { ((c.pay_buffers + packets) % 0x1_0000_0000_0000_0000) as u64 } else { c.pay_buffers },
        after_packets(c, r, packets, bytes).pay_bytes
            == if r == RtpStage::Payloader { ((c.pay_bytes + bytes) % 0x1_0000_0000_0000_0000) as u64 } else { c.pay_bytes },
        after_packets(c, r, packets, bytes).udp_buffers
            == if r == RtpStage::UdpSink { ((c.udp_buffers + packets) % 0x1_0000_0000_0000_0000) as u64 } else { c.udp_buffers },
        after_packets(c, r, packets, bytes).udp_bytes
            == if r == RtpStage::UdpSink { ((c.udp_bytes + bytes) % 0x1_0000_0000_0000_0000) as u64 } else { c.udp_bytes },
        forall|g: FrameStage| #[trigger] frame_count(after_packets(c, r, packets, bytes), g) == frame_count(c, g),
{
}

/// The counts after `n` frames pass stage `f`, starting from `c`.
pub open spec fn after_frames(c: StreamCounters, f: FrameStage, n: nat) -> StreamCounters
    decreases n,
{
    if n == 0 { c } else { after_frame(after_frames(c, f, (n - 1) as nat), f) }
}

/// Starting from zero, a reading after `n` frames passed a stage (fewer than
/// 2^64 of them) shows `n` at that stage and nothing anywhere else.
pub proof fn frames_counted_from_zero(f: FrameStage, n: nat)
    requires
        n < 0x1_0000_0000_0000_0000,
    ensures
        forall|g: FrameStage| #[trigger] frame_count(after_frames(zero_counters(), f, n), g) == if g == f { n } else { 0 },
        after_frames(zero_counters(), f, n).pay_buffers == 0 && after_frames(zero_counters(), f, n).pay_bytes == 0,
        after_frames(zero_counters(), f, n).udp_buffers == 0 && after_frames(zero_counters(), f, n).udp_bytes == 0,
    decreases n,
{
    if n > 0 {
        frames_counted_from_zero(f, (n - 1) as nat);
        counting_adds_to_its_own_stage(after_frames(zero_counters(), f, (n - 1) as nat), f, RtpStage::Payloader, 0, 0);
    }
}

} // verus!
