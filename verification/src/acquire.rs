//! The capture acquirer: open a stream, pull frames until one is non-blank,
//! release the stream on every exit path.
//!
//! The device is modelled as a script of read outcomes. `scan` is the
//! mathematical account of the acquisition loop over such a script, and
//! `acquire` is proved to follow it exactly.

use vstd::prelude::*;

use crate::capture::RawCapture;
use crate::capture::RawCaptureView;
use crate::capture::decode;
use crate::capture::decode_ok;
use crate::capture::decoded_view;
use crate::errors::AcquisitionError;
use crate::frame::Frame;
use crate::frame::FrameView;
use crate::frame::PixelLayout;

verus! {

/// Mathematical model of one read from a device.
pub enum ReadOutcomeView {
    /// The read delivered a raw capture unit.
    Capture(RawCaptureView),
    /// The read itself errored.
    Failure,
}

/// One scripted outcome of pulling a raw capture unit from a device.
pub enum ReadOutcome {
    /// The read delivers this raw capture unit.
    Capture(RawCapture),
    /// The read itself errors.
    Failure,
}

impl View for ReadOutcome {
    type V = ReadOutcomeView;

    open spec fn view(&self) -> ReadOutcomeView {
        match self {
            ReadOutcome::Capture(raw) => ReadOutcomeView::Capture(raw@),
            ReadOutcome::Failure => ReadOutcomeView::Failure,
        }
    }
}

/// An outcome the loop silently retries: a capture that decodes to a blank
/// frame.
pub open spec fn outcome_blank_ok(o: ReadOutcomeView) -> bool {
    match o {
        ReadOutcomeView::Capture(raw) => decode_ok(raw) && decoded_view(raw).is_blank(),
        ReadOutcomeView::Failure => false,
    }
}

/// An outcome the loop accepts: a capture that decodes to a non-blank frame.
pub open spec fn outcome_nonblank_ok(o: ReadOutcomeView) -> bool {
    match o {
        ReadOutcomeView::Capture(raw) => decode_ok(raw) && !decoded_view(raw).is_blank(),
        ReadOutcomeView::Failure => false,
    }
}

/// The frame an outcome decodes to (meaningful only for capture outcomes).
pub open spec fn outcome_frame(o: ReadOutcomeView) -> FrameView {
    match o {
        ReadOutcomeView::Capture(raw) => decoded_view(raw),
        ReadOutcomeView::Failure => FrameView {
            width: 0,
            height: 0,
            layout: PixelLayout::Rgb,
            data: Seq::empty(),
        },
    }
}

/// How an acquisition over a script of read outcomes ends, and how many
/// reads it consumed from the script.
#[verifier::ext_equal]
pub enum ScanResult {
    /// A non-blank frame was acquired.
    Acquired { reads_used: int, frame: FrameView },
    /// A read errored, or the script was exhausted by blank frames.
    ReadFailed { reads_used: int },
    /// A capture unit was malformed.
    DecodeFailed { reads_used: int },
}

impl ScanResult {
    pub open spec fn reads_used(self) -> int {
        match self {
            ScanResult::Acquired { reads_used, .. } => reads_used,
            ScanResult::ReadFailed { reads_used } => reads_used,
            ScanResult::DecodeFailed { reads_used } => reads_used,
        }
    }
}

/// The acquisition loop over the script's suffix starting at `i`: blank
/// frames are skipped, the first non-blank frame is acquired, the first
/// error stops everything. A read past the script's end fails without
/// consuming anything.
pub open spec fn scan_from(reads: Seq<ReadOutcomeView>, i: int) -> ScanResult
    decreases reads.len() - i,
{
    if i < 0 || i >= reads.len() {
        ScanResult::ReadFailed { reads_used: i }
    } else {
        match reads[i] {
            ReadOutcomeView::Failure => ScanResult::ReadFailed { reads_used: i + 1 },
            ReadOutcomeView::Capture(raw) => if !decode_ok(raw) {
                ScanResult::DecodeFailed { reads_used: i + 1 }
            } else if decoded_view(raw).is_blank() {
                scan_from(reads, i + 1)
            } else {
                ScanResult::Acquired { reads_used: i + 1, frame: decoded_view(raw) }
            },
        }
    }
}

/// The acquisition loop over a whole script of read outcomes.
pub open spec fn scan(reads: Seq<ReadOutcomeView>) -> ScanResult {
    scan_from(reads, 0)
}

/// A blank outcome is retried: it leaves the scan of the rest unchanged.
pub proof fn lemma_blank_outcome_continues(reads: Seq<ReadOutcomeView>, i: int)
    requires
        0 <= i < reads.len(),
        outcome_blank_ok(reads[i]),
    ensures
        scan_from(reads, i) == scan_from(reads, i + 1),
{
}

/// A non-blank outcome stops the loop at once, yielding exactly that
/// outcome's decoded frame, unmodified.
pub proof fn lemma_nonblank_outcome_stops(reads: Seq<ReadOutcomeView>, i: int)
    requires
        0 <= i < reads.len(),
        outcome_nonblank_ok(reads[i]),
    ensures
        scan_from(reads, i) == (ScanResult::Acquired { reads_used: i + 1, frame: outcome_frame(reads[i]) }),
{
}

/// While every outcome before `k` is blank, scanning from `i` equals
/// scanning from `k`: blank warm-up frames change nothing but the count.
pub proof fn lemma_scan_advances(reads: Seq<ReadOutcomeView>, i: int, k: int)
    requires
        0 <= i <= k <= reads.len(),
        forall|j: int| i <= j < k ==> outcome_blank_ok(reads[j]),
    ensures
        scan_from(reads, i) == scan_from(reads, k),
    decreases k - i,
{
    if i < k {
        lemma_blank_outcome_continues(reads, i);
        lemma_scan_advances(reads, i + 1, k);
    }
}

/// A script of exactly `n` blank outcomes followed by a non-blank outcome
/// is acquired with exactly `n + 1` reads, returning the `n + 1`-th
/// outcome's frame.
pub proof fn lemma_warmup_then_acquired(reads: Seq<ReadOutcomeView>, n: int)
    requires
        0 <= n < reads.len(),
        forall|j: int| 0 <= j < n ==> outcome_blank_ok(reads[j]),
        outcome_nonblank_ok(reads[n]),
    ensures
        scan(reads) == (ScanResult::Acquired { reads_used: n + 1, frame: outcome_frame(reads[n]) }),
{
    lemma_scan_advances(reads, 0, n);
    lemma_nonblank_outcome_stops(reads, n);
}

/// A read failure after `k` blank outcomes is propagated at once, after
/// exactly `k + 1` reads: read errors are never retried.
pub proof fn lemma_read_failure_propagates(reads: Seq<ReadOutcomeView>, k: int)
    requires
        0 <= k < reads.len(),
        forall|j: int| 0 <= j < k ==> outcome_blank_ok(reads[j]),
        reads[k] is Failure,
    ensures
        scan(reads) == (ScanResult::ReadFailed { reads_used: k + 1 }),
{
    lemma_scan_advances(reads, 0, k);
}

/// A device simulated by a script: it accepts or rejects the open request,
/// then yields its scripted outcomes in order, counting every consumed read
/// and every release.
pub struct SimulatedDevice {
    /// Whether the device will accept the request to start streaming.
    pub open_ok: bool,
    /// The outcomes still to be yielded, in reverse order: the next one is
    /// the vector's last element.
    pub pending: Vec<ReadOutcome>,
    /// How many reads have consumed a scripted outcome.
    pub reads_done: usize,
    /// Whether a stream is currently open on this handle.
    pub stream_open: bool,
    /// How many times the stream's resources have been released.
    pub releases: usize,
}

impl SimulatedDevice {
    /// The outcomes the device will yield, in order.
    pub open spec fn remaining(self) -> Seq<ReadOutcomeView> {
        Seq::new(self.pending@.len(), |i: int| self.pending@[self.pending@.len() - 1 - i]@)
    }

    /// The consumed and pending reads together fit the read counter.
    pub open spec fn wf(self) -> bool {
        self.reads_done + self.remaining().len() <= usize::MAX
    }

    /// A closed device that will accept or reject the open request per
    /// `open_ok` and then yield the given outcomes, in order.
    pub fn new(open_ok: bool, script: Vec<ReadOutcome>) -> (d: SimulatedDevice)
        ensures
            d.open_ok == open_ok,
            d.remaining() == script@.map_values(|o: ReadOutcome| o@),
            d.reads_done == 0,
            !d.stream_open,
            d.releases == 0,
            d.wf(),
    {
        let ghost orig = script@.map_values(|o: ReadOutcome| o@);
        let mut script = script;
        let mut pending: Vec<ReadOutcome> = Vec::new();
        loop
            invariant
                script@.len() + pending@.len() == orig.len(),
                forall|i: int| 0 <= i < script@.len() ==> script@[i]@ == orig[i],
                forall|i: int| 0 <= i < pending@.len() ==> pending@[i]@ == orig[orig.len() - 1
                    - i],
            ensures
                script@.len() == 0,
                pending@.len() == orig.len(),
                forall|i: int| 0 <= i < pending@.len() ==> pending@[i]@ == orig[orig.len() - 1
                    - i],
            decreases script@.len(),
        {
            match script.pop() {
                Some(o) => pending.push(o),
                None => break,
            }
        }
        let n = pending.len();
        let d = SimulatedDevice {
            open_ok,
            pending,
            reads_done: 0,
            stream_open: false,
            releases: 0,
        };
        proof {
            // the script fits a vector, so the read counter cannot overflow
            assert(n == orig.len());
            assert(d.remaining() =~= orig);
        }
        d
    }

    /// Ask the device to start streaming; succeeds iff the device accepts.
    pub fn open_stream(&mut self) -> (r: Result<(), AcquisitionError>)
        requires
            !old(self).stream_open,
        ensures
            final(self).open_ok == old(self).open_ok,
            final(self).reads_done == old(self).reads_done,
            final(self).releases == old(self).releases,
            final(self).remaining() == old(self).remaining(),
            r is Ok <==> old(self).open_ok,
            final(self).stream_open <==> old(self).open_ok,
            r is Err ==> r->Err_0 == AcquisitionError::StreamOpen,
    {
        if self.open_ok {
            self.stream_open = true;
            Ok(())
        } else {
            Err(AcquisitionError::StreamOpen)
        }
    }

    /// Pull the next raw capture unit. The read fails when the script says
    /// so; a read past the script's end fails without consuming anything.
    pub fn read_frame(&mut self) -> (r: Result<RawCapture, AcquisitionError>)
        requires
            old(self).wf(),
            old(self).stream_open,
        ensures
            final(self).wf(),
            final(self).open_ok == old(self).open_ok,
            final(self).stream_open,
            final(self).releases == old(self).releases,
            old(self).remaining().len() == 0 ==> r == Err::<RawCapture, AcquisitionError>(
                AcquisitionError::FrameRead,
            ) && final(self).reads_done == old(self).reads_done && final(self).remaining() == old(
                self,
            ).remaining(),
            old(self).remaining().len() > 0 ==> {
                &&& final(self).reads_done == old(self).reads_done + 1
                &&& final(self).remaining() == old(self).remaining().drop_first()
                &&& match old(self).remaining()[0] {
                    ReadOutcomeView::Capture(raw) => r is Ok && r->Ok_0@ == raw,
                    ReadOutcomeView::Failure => r == Err::<RawCapture, AcquisitionError>(
                        AcquisitionError::FrameRead,
                    ),
                }
            },
    {
        match self.pending.pop() {
            None => Err(AcquisitionError::FrameRead),
            Some(o) => {
                self.reads_done = self.reads_done + 1;
                proof {
                    assert(self.remaining() =~= old(self).remaining().drop_first());
                }
                match o {
                    ReadOutcome::Capture(raw) => Ok(raw),
                    ReadOutcome::Failure => Err(AcquisitionError::FrameRead),
                }
            },
        }
    }

    /// Stop streaming and release the stream's resources.
    pub fn stop_stream(&mut self)
        requires
            old(self).stream_open,
            old(self).releases < usize::MAX,
        ensures
            final(self).open_ok == old(self).open_ok,
            final(self).reads_done == old(self).reads_done,
            final(self).remaining() == old(self).remaining(),
            !final(self).stream_open,
            final(self).releases == old(self).releases + 1,
    {
        self.stream_open = false;
        self.releases = self.releases + 1;
    }
}

/// Open the stream on the device, pull frames until one decodes to a
/// non-blank frame, and stop the stream before returning, on the success
/// path and on every error path alike. Blank frames are the only retried
/// condition; a failed open performs no read and releases nothing, since
/// nothing was opened. The result, the number of reads consumed and the
/// single release are exactly what `scan` of the device's script says.
pub fn acquire(dev: &mut SimulatedDevice) -> (r: Result<Frame, AcquisitionError>)
    requires
        old(dev).wf(),
        !old(dev).stream_open,
        old(dev).releases < usize::MAX,
    ensures
        final(dev).wf(),
        !final(dev).stream_open,
        final(dev).open_ok == old(dev).open_ok,
        !old(dev).open_ok ==> {
            &&& r == Err::<Frame, AcquisitionError>(AcquisitionError::StreamOpen)
            &&& final(dev).reads_done == old(dev).reads_done
            &&& final(dev).releases == old(dev).releases
            &&& final(dev).remaining() == old(dev).remaining()
        },
        old(dev).open_ok ==> {
            &&& final(dev).releases == old(dev).releases + 1
            &&& final(dev).reads_done == old(dev).reads_done + scan(old(dev).remaining()).reads_used()
            &&& final(dev).remaining() == old(dev).remaining().skip(
                scan(old(dev).remaining()).reads_used(),
            )
            &&& match scan(old(dev).remaining()) {
                ScanResult::Acquired { frame, .. } => r is Ok && r->Ok_0@ == frame
                    && frame.wf() && !frame.is_blank(),
                ScanResult::ReadFailed { .. } => r == Err::<Frame, AcquisitionError>(
                    AcquisitionError::FrameRead,
                ),
                ScanResult::DecodeFailed { .. } => r == Err::<Frame, AcquisitionError>(
                    AcquisitionError::Decode,
                ),
            }
        },
{
    match dev.open_stream() {
        Err(e) => {
            return Err(e);
        },
        Ok(()) => {},
    }
    let ghost script = dev.remaining();
    let ghost open0 = dev.open_ok;
    let ghost base_reads: int = dev.reads_done as int;
    let ghost base_releases: int = dev.releases as int;
    let ghost mut idx: int = 0;
    let mut result: Result<Frame, AcquisitionError> = Err(AcquisitionError::FrameRead);
    proof {
        assert(script.skip(0) =~= script);
    }
    loop
        invariant_except_break
            dev.wf(),
            dev.stream_open,
            dev.open_ok == open0,
            dev.releases as int == base_releases,
            0 <= idx <= script.len(),
            dev.remaining() == script.skip(idx),
            dev.reads_done as int == base_reads + idx,
            scan_from(script, idx) == scan(script),
        ensures
            dev.wf(),
            dev.stream_open,
            dev.open_ok == open0,
            dev.releases as int == base_releases,
            dev.reads_done as int == base_reads + scan(script).reads_used(),
            dev.remaining() == script.skip(scan(script).reads_used()),
            match scan(script) {
                ScanResult::Acquired { frame, .. } => result is Ok && result->Ok_0@
                    == frame && frame.wf() && !frame.is_blank(),
                ScanResult::ReadFailed { .. } => result == Err::<Frame, AcquisitionError>(
                    AcquisitionError::FrameRead,
                ),
                ScanResult::DecodeFailed { .. } => result == Err::<Frame, AcquisitionError>(
                    AcquisitionError::Decode,
                ),
            },
        decreases script.len() - idx,
    {
        match dev.read_frame() {
            Err(e) => {
                proof {
                    if idx < script.len() {
                        assert(script.skip(idx).drop_first() =~= script.skip(idx + 1));
                        idx = idx + 1;
                    }
                }
                result = Err(e);
                break;
            },
            Ok(raw) => {
                proof {
                    assert(script.skip(idx).drop_first() =~= script.skip(idx + 1));
                    idx = idx + 1;
                }
                match decode(raw) {
                    Err(e) => {
                        result = Err(e);
                        break;
                    },
                    Ok(f) => {
                        if !f.is_blank() {
                            result = Ok(f);
                            break;
                        }
                    },
                }
            },
        }
    }
    dev.stop_stream();
    result
}

} // verus!
