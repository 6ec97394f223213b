//! The sample source: the 16-byte record the overlay publishes, the samples made
//! from it, and the rolling window that smooths them.

use vstd::prelude::*;
use vstd::bytes::spec_u64_from_le_bytes;
use vstd::bytes::spec_u64_to_le_bytes;
use vstd::bytes::u64_from_le_bytes;
use vstd::bytes::u64_to_le_bytes;
use vstd::relations::sorted_by;
use vstd::relations::total_ordering;
use vstd::slice::slice_subrange;
use vstd::string::StringExecFns;
use std::collections::VecDeque;
use crate::clock::Clock;
use crate::error::ShmError;
use crate::rolling::pushed;

verus! {

/// Name of the shared-memory segment the overlay publishes its record in.
pub const MANGOHUD_SHM_NAME: &'static str = "/mangohud-overlay";

/// Number of samples the rolling window keeps: twelve seconds at ten a second.
pub const RING_BUFFER_CAPACITY: usize = 120;

/// Length of the overlay's record in bytes.
pub const RECORD_SIZE: usize = 16;

/// The thousandth part that the 99th percentile is taken at.
pub const P99_PERMILLE: u32 = 990;

/// The overlay's record: two unsigned 64-bit numbers, little end first.
#[derive(Debug, Clone, Copy, PartialEq, Eq, Structural)]
pub struct MangoHudData {
    /// Frames per second.
    pub fps_val: u64,
    /// Time of one frame in microseconds.
    pub frametime: u64,
}

impl Default for MangoHudData {
    fn default() -> (d: Self)
        ensures
            d == (MangoHudData { fps_val: 0, frametime: 0 }),
    {
        MangoHudData { fps_val: 0, frametime: 0 }
    }
}

impl MangoHudData {
    /// The 16 bytes that stand for a record.
    pub open spec fn encoding(self) -> Seq<u8> {
        spec_u64_to_le_bytes(self.fps_val) + spec_u64_to_le_bytes(self.frametime)
    }

    /// The record that 16 bytes stand for.
    pub open spec fn decoding(bytes: Seq<u8>) -> MangoHudData {
        MangoHudData {
            fps_val: spec_u64_from_le_bytes(bytes.subrange(0, 8)),
            frametime: spec_u64_from_le_bytes(bytes.subrange(8, 16)),
        }
    }

    /// A record with the given numbers.
    pub fn new(fps_val: u64, frametime: u64) -> (d: Self)
        ensures
            d == (MangoHudData { fps_val, frametime }),
    {
        Self { fps_val, frametime }
    }

    /// Length of a record in bytes.
    pub fn size() -> (n: usize)
        ensures
            n == 16,
    {
        RECORD_SIZE
    }

    /// Reads a record from exactly 16 bytes.
    pub fn from_bytes(bytes: &[u8]) -> (r: Option<Self>)
        ensures
            r is Some <==> bytes@.len() == 16,
            r matches Some(d) ==> d == Self::decoding(bytes@),
    {
        if bytes.len() != RECORD_SIZE {
            return None;
        }
        let fps_val: u64 = u64_from_le_bytes(slice_subrange(bytes, 0, 8));
        let frametime: u64 = u64_from_le_bytes(slice_subrange(bytes, 8, 16));
        Some(Self { fps_val, frametime })
    }

    /// Writes the record as 16 bytes.
    pub fn to_bytes(&self) -> (bytes: Vec<u8>)
        ensures
            bytes@ == self.encoding(),
            bytes@.len() == 16,
    {
        let mut bytes: Vec<u8> = u64_to_le_bytes(self.fps_val);
        let mut rest: Vec<u8> = u64_to_le_bytes(self.frametime);
        bytes.append(&mut rest);
        bytes
    }
}

/// A record that is written out and read back is the same record.
pub proof fn lemma_record_round_trip(fps_val: u64, frametime: u64)
    ensures
        (MangoHudData { fps_val, frametime }).encoding().len() == 16,
        MangoHudData::decoding((MangoHudData { fps_val, frametime }).encoding()) == (MangoHudData {
            fps_val,
            frametime,
        }),
{
    vstd::bytes::lemma_auto_spec_u64_to_from_le_bytes();
    let first = spec_u64_to_le_bytes(fps_val);
    let second = spec_u64_to_le_bytes(frametime);
    assert((first + second).subrange(0, 8) =~= first);
    assert((first + second).subrange(8, 16) =~= second);
}

/// Sixteen bytes that are read and written out again are the same bytes.
pub proof fn lemma_bytes_round_trip(bytes: Seq<u8>)
    requires
        bytes.len() == 16,
    ensures
        MangoHudData::decoding(bytes).encoding() == bytes,
{
    vstd::bytes::lemma_auto_spec_u64_to_from_le_bytes();
    let first = bytes.subrange(0, 8);
    let second = bytes.subrange(8, 16);
    assert(spec_u64_to_le_bytes(spec_u64_from_le_bytes(first)) == first);
    assert(spec_u64_to_le_bytes(spec_u64_from_le_bytes(second)) == second);
    assert(first + second =~= bytes);
}

/// One reading of the frame rate.
#[derive(Debug, Clone, Copy, PartialEq, Eq, Structural)]
pub struct FpsSample {
    /// Frames per second.
    pub fps: u64,
    /// Time of one frame in microseconds.
    pub frametime: u64,
    /// When the reading was taken, in milliseconds on the daemon's clock.
    pub timestamp: u64,
}

impl FpsSample {
    /// A sample taken at the clock's present reading.
    pub fn new(fps: u64, frametime: u64, clock: &Clock) -> (s: Self)
        ensures
            s.fps == fps,
            s.frametime == frametime,
    {
        Self { fps, frametime, timestamp: clock.now_ms() }
    }

    /// A sample taken at `timestamp`.
    pub fn with_timestamp(fps: u64, frametime: u64, timestamp: u64) -> (s: Self)
        ensures
            s == (FpsSample { fps, frametime, timestamp }),
    {
        Self { fps, frametime, timestamp }
    }
}

/// The sum of the frame rates of the samples.
pub open spec fn fps_total(s: Seq<FpsSample>) -> int
    decreases s.len(),
{
    if s.len() == 0 {
        0
    } else {
        fps_total(s.drop_last()) + s.last().fps
    }
}

/// The mean frame rate of the samples in thousandths of a frame per second, rounded
/// down; zero for no samples.
pub open spec fn average_milli(s: Seq<FpsSample>) -> int {
    if s.len() == 0 {
        0
    } else {
        (fps_total(s) * 1000) / (s.len() as int)
    }
}

/// The frame times of the samples, in their order.
pub open spec fn frametimes(s: Seq<FpsSample>) -> Seq<u64> {
    s.map_values(|x: FpsSample| x.frametime)
}

/// The place in the ordered frame times that the given thousandth part falls on:
/// the part of the last place, rounded to the nearest place.
pub open spec fn percentile_index(len: int, permille: int) -> int {
    let part = if permille > 1000 {
        1000
    } else {
        permille
    };
    ((len - 1) * part + 500) / 1000
}

/// The order of the frame times.
pub open spec fn at_most() -> spec_fn(u64, u64) -> bool {
    |a: u64, b: u64| a <= b
}

/// The frame time at the given thousandth part of the ordered frame times; zero for
/// no samples.
pub open spec fn percentile_of(s: Seq<FpsSample>, permille: int) -> int {
    if s.len() == 0 {
        0
    } else {
        frametimes(s).sort_by(at_most())[percentile_index(s.len() as int, permille)] as int
    }
}

/// The samples taken at or after `cutoff`, in their order.
pub open spec fn taken_since(s: Seq<FpsSample>, cutoff: u64) -> Seq<FpsSample> {
    s.filter(|x: FpsSample| x.timestamp >= cutoff)
}

/// Calls `sort_unstable` on the vector's slice, which sorts it in ascending order:
/// afterwards no element stands before a smaller one, and the elements are those
/// that were there before, each as often as before.
#[verifier::external_body]
fn sort_ascending(v: &mut Vec<u64>)
    ensures
        sorted_by(final(v)@, at_most()),
        final(v)@.to_multiset() == old(v)@.to_multiset(),
{
    v.sort_unstable();
}

/// The rolling window of samples: it keeps the most recent ones, oldest first.
#[derive(Debug)]
pub struct FpsRingBuffer {
    samples: VecDeque<FpsSample>,
    capacity: usize,
}

impl View for FpsRingBuffer {
    type V = Seq<FpsSample>;

    closed spec fn view(&self) -> Seq<FpsSample> {
        self.samples@
    }
}

impl FpsRingBuffer {
    /// The number of samples the window was made for.
    pub closed spec fn limit(&self) -> usize {
        self.capacity
    }

    /// A window for 120 samples.
    pub fn new() -> (b: Self)
        ensures
            b@ == Seq::<FpsSample>::empty(),
            b.limit() == RING_BUFFER_CAPACITY,
    {
        Self::with_capacity(RING_BUFFER_CAPACITY)
    }

    /// A window for `capacity` samples.
    pub fn with_capacity(capacity: usize) -> (b: Self)
        ensures
            b@ == Seq::<FpsSample>::empty(),
            b.limit() == capacity,
    {
        Self { samples: VecDeque::new(), capacity }
    }

    /// Adds a sample; a window that is full gives up its oldest sample for it.
    pub fn push(&mut self, sample: FpsSample)
        ensures
            final(self)@ == pushed(old(self)@, old(self).limit() as int, sample),
            final(self).limit() == old(self).limit(),
    {
        if self.samples.len() >= self.capacity {
            let _ = self.samples.pop_front();
        }
        self.samples.push_back(sample);
        proof {
            assert(old(self)@.len() > 0 ==> old(self)@.drop_first() =~= old(self)@.subrange(
                1,
                old(self)@.len() as int,
            ));
        }
    }

    /// The mean frame rate in thousandths of a frame per second, rounded down; zero
    /// for an empty window.
    pub fn average(&self) -> (mean: u128)
        ensures
            mean == average_milli(self@),
    {
        let n: usize = self.samples.len();
        if n == 0 {
            return 0;
        }
        let mut total: u128 = 0;
        let mut i: usize = 0;
        while i < n
            invariant
                n == self.samples@.len(),
                i <= n,
                total == fps_total(self.samples@.take(i as int)),
                total <= i * 0xffff_ffff_ffff_ffff,
            decreases n - i,
        {
            let sample: FpsSample = self.samples[i];
            proof {
                assert(self.samples@.take(i as int + 1).drop_last() =~= self.samples@.take(
                    i as int,
                ));
                assert(i * 0xffff_ffff_ffff_ffff + 0xffff_ffff_ffff_ffff == (i + 1)
                    * 0xffff_ffff_ffff_ffff) by (nonlinear_arith);
                assert((i + 1) * 0xffff_ffff_ffff_ffff <= 0xffff_ffff_ffff_ffff
                    * 0xffff_ffff_ffff_ffff) by (nonlinear_arith)
                    requires
                        i + 1 <= 0xffff_ffff_ffff_ffff,
                ;
            }
            total = total + sample.fps as u128;
            i = i + 1;
        }
        assert(self.samples@.take(n as int) =~= self.samples@);
        let count: u128 = n as u128;
        let whole: u128 = total / count;
        let left: u128 = total % count;
        proof {
            assert(whole <= 0xffff_ffff_ffff_ffff) by (nonlinear_arith)
                requires
                    whole == total / count,
                    total <= count * 0xffff_ffff_ffff_ffff,
                    count >= 1,
            ;
            let part = (left * 1000) / (count as int);
            let rest = (left * 1000) % (count as int);
            vstd::arithmetic::div_mod::lemma_fundamental_div_mod(total as int, count as int);
            vstd::arithmetic::div_mod::lemma_fundamental_div_mod(left * 1000, count as int);
            assert(total * 1000 == (whole * 1000 + part) * count + rest) by (nonlinear_arith)
                requires
                    total == count * whole + left,
                    left * 1000 == count * part + rest,
            ;
            vstd::arithmetic::div_mod::lemma_fundamental_div_mod_converse(
                total * 1000,
                count as int,
                whole * 1000 + part,
                rest as int,
            );
        }
        whole * 1000 + (left * 1000) / count
    }

    /// The frame time at the given thousandth part of the ordered frame times: 500
    /// for the median, 990 for the 99th percentile. A part above 1000 counts as 1000.
    /// Zero for an empty window.
    pub fn percentile(&self, permille: u32) -> (value: u64)
        ensures
            value == percentile_of(self@, permille as int),
    {
        let n: usize = self.samples.len();
        if n == 0 {
            return 0;
        }
        let mut times: Vec<u64> = Vec::new();
        let mut i: usize = 0;
        while i < n
            invariant
                n == self.samples@.len(),
                i <= n,
                times@ == frametimes(self.samples@.take(i as int)),
            decreases n - i,
        {
            let sample: FpsSample = self.samples[i];
            times.push(sample.frametime);
            assert(times@ =~= frametimes(self.samples@.take(i as int + 1)));
            i = i + 1;
        }
        assert(self.samples@.take(n as int) =~= self.samples@);
        let ghost unsorted = times@;
        sort_ascending(&mut times);
        proof {
            lemma_at_most_is_total();
            unsorted.lemma_sort_by_ensures(at_most());
            vstd::seq_lib::lemma_sorted_unique(times@, unsorted.sort_by(at_most()), at_most());
            unsorted.to_multiset_ensures();
            times@.to_multiset_ensures();
            assert(times@.len() == n);
        }
        let part: u128 = if permille > 1000 {
            1000
        } else {
            permille as u128
        };
        let last: u128 = (n - 1) as u128;
        assert(last * part <= last * 1000) by (nonlinear_arith)
            requires
                part <= 1000,
                last >= 0,
        ;
        let index: u128 = (last * part + 500) / 1000;
        assert(index <= last);
        times[index as usize]
    }

    /// The number of samples held.
    pub fn len(&self) -> (n: usize)
        ensures
            n == self@.len(),
    {
        self.samples.len()
    }

    /// Whether the window holds no sample.
    pub fn is_empty(&self) -> (empty: bool)
        ensures
            empty == (self@.len() == 0),
    {
        self.samples.len() == 0
    }

    /// The number of samples the window was made for.
    pub fn capacity(&self) -> (n: usize)
        ensures
            n == self.limit(),
    {
        self.capacity
    }

    /// Forgets every sample.
    pub fn clear(&mut self)
        ensures
            final(self)@ == Seq::<FpsSample>::empty(),
            final(self).limit() == old(self).limit(),
    {
        self.samples.clear();
    }

    /// The samples taken at or after `cutoff`, oldest first.
    pub fn samples_since(&self, cutoff: u64) -> (found: Vec<FpsSample>)
        ensures
            found@ == taken_since(self@, cutoff),
    {
        let n: usize = self.samples.len();
        let mut found: Vec<FpsSample> = Vec::new();
        let mut i: usize = 0;
        let ghost keep = |x: FpsSample| x.timestamp >= cutoff;
        assert(self.samples@.take(0).filter(keep) =~= Seq::<FpsSample>::empty()) by {
            self.samples@.take(0).lemma_filter_len(keep);
        }
        while i < n
            invariant
                n == self.samples@.len(),
                i <= n,
                keep == |x: FpsSample| x.timestamp >= cutoff,
                found@ == self.samples@.take(i as int).filter(keep),
            decreases n - i,
        {
            let sample: FpsSample = self.samples[i];
            proof {
                let before = self.samples@.take(i as int);
                assert(self.samples@.take(i as int + 1) =~= before + seq![sample]);
                Seq::filter_distributes_over_add(before, seq![sample], keep);
                reveal(Seq::filter);
                assert(seq![sample].drop_last() =~= Seq::<FpsSample>::empty());
                assert(Seq::<FpsSample>::empty().filter(keep) =~= Seq::<FpsSample>::empty());
                assert(seq![sample].filter(keep) =~= if keep(sample) {
                    seq![sample]
                } else {
                    Seq::<FpsSample>::empty()
                });
            }
            if sample.timestamp >= cutoff {
                found.push(sample);
            }
            assert(found@ =~= self.samples@.take(i as int + 1).filter(keep));
            i = i + 1;
        }
        assert(self.samples@.take(n as int) =~= self.samples@);
        found
    }

    /// The samples taken within the last `duration_ms` milliseconds before the
    /// clock's present reading, oldest first.
    pub fn samples_in_window(&self, duration_ms: u64, clock: &Clock) -> (found: Vec<FpsSample>)
        ensures
            exists|cutoff: u64| found@ == taken_since(self@, cutoff),
    {
        let now: u64 = clock.now_ms();
        let cutoff: u64 = if now >= duration_ms {
            now - duration_ms
        } else {
            0
        };
        self.samples_since(cutoff)
    }

    /// The samples held, oldest first.
    pub fn iter(&self) -> (all: Vec<FpsSample>)
        ensures
            all@ == self@,
    {
        let n: usize = self.samples.len();
        let mut all: Vec<FpsSample> = Vec::new();
        let mut i: usize = 0;
        while i < n
            invariant
                n == self.samples@.len(),
                i <= n,
                all@ == self.samples@.take(i as int),
            decreases n - i,
        {
            all.push(self.samples[i]);
            assert(all@ =~= self.samples@.take(i as int + 1));
            i = i + 1;
        }
        assert(self.samples@.take(n as int) =~= self.samples@);
        all
    }
}

impl Default for FpsRingBuffer {
    fn default() -> (b: Self)
        ensures
            b@ == Seq::<FpsSample>::empty(),
            b.limit() == RING_BUFFER_CAPACITY,
    {
        Self::new()
    }
}

/// The order of unsigned numbers is a total order.
pub proof fn lemma_at_most_is_total()
    ensures
        total_ordering(at_most()),
{
    let leq = at_most();
    assert(vstd::relations::reflexive(leq));
    assert(vstd::relations::antisymmetric(leq));
    assert(vstd::relations::transitive(leq));
    assert(vstd::relations::strongly_connected(leq));
}

/// Turns the overlay's records into samples and keeps the rolling window of them.
/// Mapping the segment and reading its bytes is left to the caller.
#[derive(Debug)]
pub struct MangoHudReader {
    ring_buffer: FpsRingBuffer,
}

impl View for MangoHudReader {
    type V = Seq<FpsSample>;

    closed spec fn view(&self) -> Seq<FpsSample> {
        self.ring_buffer@
    }
}

impl MangoHudReader {
    /// The reader's window is one for 120 samples.
    pub closed spec fn wf(&self) -> bool {
        self.ring_buffer.limit() == RING_BUFFER_CAPACITY
    }

    /// A reader with an empty window.
    pub fn new() -> (r: Self)
        ensures
            r.wf(),
            r@ == Seq::<FpsSample>::empty(),
    {
        Self { ring_buffer: FpsRingBuffer::new() }
    }

    /// Takes the record that was read at `now` into the window and returns the
    /// sample made from it. Bytes that are no record are refused and change nothing.
    pub fn poll_at(&mut self, record: &[u8], now: u64) -> (r: Result<FpsSample, ShmError>)
        requires
            old(self).wf(),
        ensures
            final(self).wf(),
            r is Ok <==> record@.len() == 16,
            r matches Ok(sample) ==> sample == (FpsSample {
                fps: MangoHudData::decoding(record@).fps_val,
                frametime: MangoHudData::decoding(record@).frametime,
                timestamp: now,
            }) && final(self)@ == pushed(old(self)@, RING_BUFFER_CAPACITY as int, sample),
            r matches Err(e) ==> e matches ShmError::InvalidData(_) && final(self)@ == old(self)@,
    {
        match MangoHudData::from_bytes(record) {
            Some(data) => {
                let sample: FpsSample = FpsSample::with_timestamp(data.fps_val, data.frametime, now);
                self.ring_buffer.push(sample);
                Ok(sample)
            },
            None => Err(ShmError::InvalidData(String::from_str("record is not 16 bytes long"))),
        }
    }

    /// Takes the record that was just read into the window, stamped with the clock's
    /// present reading, and returns the sample made from it.
    pub fn poll(&mut self, record: &[u8], clock: &Clock) -> (r: Result<FpsSample, ShmError>)
        requires
            old(self).wf(),
        ensures
            final(self).wf(),
            r is Ok <==> record@.len() == 16,
            r matches Ok(sample) ==> sample.fps == MangoHudData::decoding(record@).fps_val
                && sample.frametime == MangoHudData::decoding(record@).frametime && final(self)@
                == pushed(old(self)@, RING_BUFFER_CAPACITY as int, sample),
            r matches Err(e) ==> e matches ShmError::InvalidData(_) && final(self)@ == old(self)@,
    {
        let now: u64 = clock.now_ms();
        self.poll_at(record, now)
    }

    /// The smoothed frame rate: the mean over the window in thousandths of a frame
    /// per second, rounded down and held at `u32::MAX`.
    pub fn get_smoothed_fps(&self) -> (fps: u32)
        ensures
            fps == if average_milli(self@) > u32::MAX {
                u32::MAX as int
            } else {
                average_milli(self@)
            },
    {
        let mean: u128 = self.ring_buffer.average();
        if mean > 0xffff_ffff {
            u32::MAX
        } else {
            mean as u32
        }
    }

    /// The 99th percentile of the frame times in the window.
    pub fn get_p99_frametime(&self) -> (value: u64)
        ensures
            value == percentile_of(self@, P99_PERMILLE as int),
    {
        self.ring_buffer.percentile(P99_PERMILLE)
    }

    /// The window of samples.
    pub fn get_ring_buffer(&self) -> (b: &FpsRingBuffer)
        ensures
            b@ == self@,
    {
        &self.ring_buffer
    }
}

} // verus!
