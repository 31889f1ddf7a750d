//! Network speed measurement: the arithmetic and decision logic behind a
//! simple HTTP download/upload throughput probe.
//!
//! A probe transfers bytes over the network, records wall-clock timestamps
//! around the transfer, and reports a speed in megabits per second.  This
//! crate holds everything that can be stated and proved: converting a byte
//! count and an elapsed time into a speed, deciding whether a probe run
//! succeeded or failed, building the upload payload, and laying out the
//! positions of a cosmetic progress display.  The network transfers
//! themselves happen outside the crate; they hand in plain events
//! (timestamps, byte counts, status flags, error text) and take outcomes
//! back.

use vstd::prelude::*;
use vstd::string::StringExecFns;

verus! {

/// Nominal size of the remote download file, used only to scale the
/// progress display when the response declares no content length; the
/// speed result always uses the bytes actually received.
pub const DOWNLOAD_NOMINAL_BYTES: u64 = 100000000;

/// Fixed size of the upload payload: 10 megabytes.
pub const UPLOAD_PAYLOAD_BYTES: u64 = 10485760;

/// Size of one segment of the simulated upload progress display:
/// 1 megabyte.
pub const UPLOAD_SEGMENT_BYTES: u64 = 1048576;

/// Cosmetic pause between simulated upload progress segments, in
/// milliseconds.
pub const UPLOAD_PAUSE_MILLIS: u64 = 100;

/// Speed in hundredths of a megabit per second, as an exact integer:
/// `(bytes / 1048576) * 8 / (elapsed_ms / 1000)`, scaled by 100 and
/// truncated.  The factor 800000 is 8 bits per byte times 1000 ms per
/// second times 100 hundredths per unit.
pub open spec fn speed_centi_mbps(bytes: nat, elapsed_ms: nat) -> nat
    recommends
        elapsed_ms > 0,
{
    (bytes * 800000) / (elapsed_ms * 1048576)
}

/// Computes the speed, in hundredths of a megabit per second, for a
/// transfer of `bytes` bytes over `elapsed_ms` milliseconds.
pub fn compute_centi_mbps(bytes: u64, elapsed_ms: u64) -> (r: u64)
    requires
        elapsed_ms > 0,
    ensures
        r == speed_centi_mbps(bytes as nat, elapsed_ms as nat),
{
    let num: u128 = (bytes as u128) * 800000;
    let den: u128 = (elapsed_ms as u128) * 1048576;
    let q: u128 = num / den;
    proof {
        vstd::arithmetic::div_mod::lemma_div_is_ordered_by_denominator(
            num as int,
            1048576,
            den as int,
        );
        vstd::arithmetic::div_mod::lemma_div_is_ordered(
            num as int,
            (bytes as int) * 1048576,
            1048576,
        );
        vstd::arithmetic::div_mod::lemma_div_multiples_vanish(bytes as int, 1048576);
    }
    q as u64
}

/// Timestamps and byte count recorded around one transfer.  Timestamps are
/// milliseconds on the wall clock; the byte count is what actually crossed
/// the wire.  A speed may be derived only when the elapsed time is positive.
#[derive(Clone, Copy, PartialEq, Eq, Structural, Debug)]
pub struct TransferMeasurement {
    /// Wall-clock milliseconds immediately before the transfer began.
    pub start_ms: i64,
    /// Wall-clock milliseconds immediately after the last byte was consumed.
    pub end_ms: i64,
    /// Total bytes transferred.
    pub bytes: u64,
}

impl TransferMeasurement {
    /// Milliseconds elapsed between the two timestamps.
    pub open spec fn elapsed_ms(self) -> int {
        self.end_ms - self.start_ms
    }

    /// A speed may be derived only from a positive elapsed time.
    pub open spec fn has_positive_elapsed(self) -> bool {
        self.elapsed_ms() > 0
    }

    /// The measurement's speed in hundredths of a megabit per second.
    pub open spec fn speed(self) -> nat
        recommends
            self.has_positive_elapsed(),
    {
        speed_centi_mbps(self.bytes as nat, self.elapsed_ms() as nat)
    }

    /// Returns the elapsed milliseconds, or `None` when the clock readings
    /// yield a zero or negative duration.
    pub fn elapsed_millis(&self) -> (r: Option<u64>)
        ensures
            self.has_positive_elapsed() ==> r == Some(self.elapsed_ms() as u64),
            !self.has_positive_elapsed() ==> r is None,
    {
        let d: i128 = (self.end_ms as i128) - (self.start_ms as i128);
        if d > 0 {
            Some(d as u64)
        } else {
            None
        }
    }
}

/// What one probe reports: a speed in hundredths of a megabit per second,
/// or a failure carrying a human-readable cause.  There is no partial or
/// success-with-warning state.
#[derive(PartialEq, Eq, Debug)]
pub enum ProbeOutcome {
    /// The probe succeeded; the speed is in hundredths of a megabit per second.
    Speed(u64),
    /// The probe failed; the text describes the cause.
    Failure(String),
}

/// Mathematical model of a [`ProbeOutcome`].
pub enum OutcomeView {
    Speed(nat),
    Failure(Seq<char>),
}

impl View for ProbeOutcome {
    type V = OutcomeView;

    open spec fn view(&self) -> OutcomeView {
        match self {
            ProbeOutcome::Speed(c) => OutcomeView::Speed(*c as nat),
            ProbeOutcome::Failure(m) => OutcomeView::Failure(m@),
        }
    }
}

impl ProbeOutcome {
    /// True exactly when the outcome carries a speed.
    pub fn is_success(&self) -> (r: bool)
        ensures
            r == (self@ is Speed),
    {
        match self {
            ProbeOutcome::Speed(_) => true,
            ProbeOutcome::Failure(_) => false,
        }
    }
}

/// The failure text reported when a transfer finished so fast that the
/// clock shows no positive elapsed time.
pub open spec fn zero_elapsed_message() -> Seq<char> {
    "elapsed time is not positive"@
}

/// The failure text reported when the upload endpoint answers with a
/// non-success status.
pub open spec fn upload_failed_message() -> Seq<char> {
    "Upload failed"@
}

fn zero_elapsed_text() -> (r: String)
    ensures
        r@ == zero_elapsed_message(),
{
    String::from_str("elapsed time is not positive")
}

fn upload_failed_text() -> (r: String)
    ensures
        r@ == upload_failed_message(),
{
    String::from_str("Upload failed")
}

/// What the download transfer hands back: either a completed measurement,
/// or the text of the transport error that ended it (connection failure,
/// read error, non-success status).
#[derive(PartialEq, Eq, Debug)]
pub enum DownloadEvent {
    /// The body was fully consumed; timestamps and actual bytes received.
    Completed(TransferMeasurement),
    /// The connection or the stream failed; partial bytes are discarded.
    Failed(String),
}

/// Mathematical model of a [`DownloadEvent`].
pub enum DownloadEventView {
    Completed(TransferMeasurement),
    Failed(Seq<char>),
}

impl View for DownloadEvent {
    type V = DownloadEventView;

    open spec fn view(&self) -> DownloadEventView {
        match self {
            DownloadEvent::Completed(m) => DownloadEventView::Completed(*m),
            DownloadEvent::Failed(e) => DownloadEventView::Failed(e@),
        }
    }
}

/// What the upload transfer hands back: either the response status with the
/// timestamps around the request, or the text of the transport error.
#[derive(PartialEq, Eq, Debug)]
pub enum UploadEvent {
    /// The request completed; whether the response status was success-class,
    /// and the timestamps bracketing the measured interval.
    Completed { status_success: bool, start_ms: i64, end_ms: i64 },
    /// The connection or the request failed before a response arrived.
    Failed(String),
}

/// Mathematical model of an [`UploadEvent`].
pub enum UploadEventView {
    Completed { status_success: bool, start_ms: i64, end_ms: i64 },
    Failed(Seq<char>),
}

impl View for UploadEvent {
    type V = UploadEventView;

    open spec fn view(&self) -> UploadEventView {
        match self {
            UploadEvent::Completed { status_success, start_ms, end_ms } => {
                UploadEventView::Completed {
                    status_success: *status_success,
                    start_ms: *start_ms,
                    end_ms: *end_ms,
                }
            },
            UploadEvent::Failed(e) => UploadEventView::Failed(e@),
        }
    }
}

/// The outcome the download probe owes for each possible event: a transport
/// failure keeps its own text; a completed transfer with no positive elapsed
/// time fails rather than divide by zero; otherwise the speed is derived
/// from the actual bytes received and the elapsed time.
pub open spec fn download_outcome_spec(e: DownloadEventView) -> OutcomeView {
    match e {
        DownloadEventView::Failed(msg) => OutcomeView::Failure(msg),
        DownloadEventView::Completed(m) => {
            if m.has_positive_elapsed() {
                OutcomeView::Speed(m.speed())
            } else {
                OutcomeView::Failure(zero_elapsed_message())
            }
        },
    }
}

/// The outcome the upload probe owes for each possible event: a transport
/// failure keeps its own text; a non-success response status fails with the
/// fixed text `Upload failed`; a response with no positive elapsed time
/// fails rather than divide by zero; otherwise the speed is derived from
/// the nominal payload size and the elapsed time.
pub open spec fn upload_outcome_spec(e: UploadEventView) -> OutcomeView {
    match e {
        UploadEventView::Failed(msg) => OutcomeView::Failure(msg),
        UploadEventView::Completed { status_success, start_ms, end_ms } => {
            if !status_success {
                OutcomeView::Failure(upload_failed_message())
            } else if end_ms - start_ms > 0 {
                OutcomeView::Speed(
                    speed_centi_mbps(UPLOAD_PAYLOAD_BYTES as nat, (end_ms - start_ms) as nat),
                )
            } else {
                OutcomeView::Failure(zero_elapsed_message())
            }
        },
    }
}

/// Decides the download probe's outcome from what the transfer handed back.
pub fn download_outcome(e: DownloadEvent) -> (r: ProbeOutcome)
    ensures
        r@ == download_outcome_spec(e@),
{
    match e {
        DownloadEvent::Failed(msg) => ProbeOutcome::Failure(msg),
        DownloadEvent::Completed(m) => {
            match m.elapsed_millis() {
                Some(ms) => ProbeOutcome::Speed(compute_centi_mbps(m.bytes, ms)),
                None => ProbeOutcome::Failure(zero_elapsed_text()),
            }
        },
    }
}

/// Decides the upload probe's outcome from what the transfer handed back.
pub fn upload_outcome(e: UploadEvent) -> (r: ProbeOutcome)
    ensures
        r@ == upload_outcome_spec(e@),
{
    match e {
        UploadEvent::Failed(msg) => ProbeOutcome::Failure(msg),
        UploadEvent::Completed { status_success, start_ms, end_ms } => {
            if !status_success {
                ProbeOutcome::Failure(upload_failed_text())
            } else {
                let m = TransferMeasurement { start_ms, end_ms, bytes: UPLOAD_PAYLOAD_BYTES };
                match m.elapsed_millis() {
                    Some(ms) => ProbeOutcome::Speed(compute_centi_mbps(UPLOAD_PAYLOAD_BYTES, ms)),
                    None => ProbeOutcome::Failure(zero_elapsed_text()),
                }
            }
        },
    }
}

/// Decides both outcomes of one run.  Each component of the result is
/// determined by its own probe's event alone: a failure on one side can
/// neither block nor change what the other side reports.
pub fn evaluate_probes(d: DownloadEvent, u: UploadEvent) -> (r: (ProbeOutcome, ProbeOutcome))
    ensures
        r.0@ == download_outcome_spec(d@),
        r.1@ == upload_outcome_spec(u@),
{
    (download_outcome(d), upload_outcome(u))
}

/// The total size used to scale the download progress display: the
/// response's declared content length when there is one, the nominal file
/// size otherwise.  This figure never enters the speed result.
pub fn expected_download_total(content_length: Option<u64>) -> (r: u64)
    ensures
        r == (match content_length {
            Some(n) => n,
            None => DOWNLOAD_NOMINAL_BYTES,
        }),
{
    match content_length {
        Some(n) => n,
        None => DOWNLOAD_NOMINAL_BYTES,
    }
}

/// Advances the running byte counter by one received chunk, reporting
/// `None` instead of wrapping if the sum would not fit.
pub fn accumulate_chunk(total: u64, chunk_len: usize) -> (r: Option<u64>)
    ensures
        r == (if total + chunk_len <= u64::MAX {
            Some((total + chunk_len) as u64)
        } else {
            None::<u64>
        }),
{
    total.checked_add(chunk_len as u64)
}

/// Builds the fixed 10-megabyte upload payload.  Only its size matters to
/// the measurement, so it is zero-filled.
pub fn build_upload_payload() -> (r: Vec<u8>)
    ensures
        r@.len() == UPLOAD_PAYLOAD_BYTES,
        forall|i: int| 0 <= i < r@.len() ==> r@[i] == 0u8,
{
    let mut v: Vec<u8> = Vec::new();
    let mut i: u64 = 0;
    while i < UPLOAD_PAYLOAD_BYTES
        invariant
            i <= UPLOAD_PAYLOAD_BYTES,
            v@.len() == i,
            forall|j: int| 0 <= j < v@.len() ==> v@[j] == 0u8,
        decreases UPLOAD_PAYLOAD_BYTES - i,
    {
        v.push(0u8);
        i = i + 1;
    }
    v
}

/// The cumulative byte position the simulated progress display shows after
/// segment `i`: a full segment further than the last, capped at the total.
pub open spec fn progress_position(total: nat, segment: nat, i: nat) -> nat {
    if (i + 1) * segment < total {
        ((i + 1) * segment) as nat
    } else {
        total
    }
}

/// Where the progress display stands before segment `k` is shown: `k`
/// whole segments in, capped at the total.
pub open spec fn progress_start(total: nat, segment: nat, k: nat) -> nat {
    if k * segment < total {
        (k * segment) as nat
    } else {
        total
    }
}

/// Lays out the positions of the simulated upload progress display: one
/// entry per segment, each a full segment beyond the last, the final entry
/// exactly at the total.  The entry count is pinned by the two bounds on
/// `r@.len() * segment`: as many segments as are needed to cover the total,
/// and no more.
pub fn upload_progress_steps(total: u64, segment: u64) -> (r: Vec<u64>)
    ensures
        segment == 0 || total == 0 ==> r@.len() == 0,
        segment > 0 && total > 0 ==> (r@.len() - 1) * segment < total <= r@.len() * segment,
        forall|i: int|
            0 <= i < r@.len() ==> r@[i] == progress_position(total as nat, segment as nat, i as nat),
{
    let mut v: Vec<u64> = Vec::new();
    if segment == 0 {
        return v;
    }
    let mut pos: u64 = 0;
    while pos < total
        invariant
            segment > 0,
            pos <= total,
            pos == progress_start(total as nat, segment as nat, v@.len()),
            v@.len() * segment < total + segment,
            forall|i: int|
                0 <= i < v@.len() ==> v@[i] == progress_position(
                    total as nat,
                    segment as nat,
                    i as nat,
                ),
        decreases total - pos,
    {
        let next: u64 = if total - pos <= segment {
            total
        } else {
            pos + segment
        };
        proof {
            let k = v@.len() as int;
            assert((k + 1) * segment == k * segment + segment) by (nonlinear_arith);
        }
        v.push(next);
        pos = next;
    }
    proof {
        let k = v@.len() as int;
        let s = segment as int;
        if total == 0 {
            assert(k == 0) by (nonlinear_arith)
                requires
                    k >= 0,
                    s >= 1,
                    k * s < s,
            ;
        } else {
            assert(k > 0);
            assert((k - 1) * s == k * s - s) by (nonlinear_arith);
        }
    }
    v
}

/// A completed download whose clock readings show no positive elapsed time
/// yields a failure, never a speed: degenerate timing is an error, not a
/// division by zero.
pub proof fn lemma_zero_elapsed_download_fails(m: TransferMeasurement)
    requires
        m.end_ms <= m.start_ms,
    ensures
        download_outcome_spec(DownloadEventView::Completed(m)) == OutcomeView::Failure(
            zero_elapsed_message(),
        ),
{
}

/// A completed upload whose clock readings show no positive elapsed time
/// yields a failure, never a speed, whatever the response status was.
pub proof fn lemma_zero_elapsed_upload_fails(status_success: bool, start_ms: i64, end_ms: i64)
    requires
        end_ms <= start_ms,
    ensures
        upload_outcome_spec(
            UploadEventView::Completed { status_success, start_ms, end_ms },
        ) is Failure,
{
}

/// A non-success response status on the upload endpoint yields a failure
/// with the fixed text `Upload failed`, whatever the timestamps say.
pub proof fn lemma_upload_bad_status_fails(start_ms: i64, end_ms: i64)
    ensures
        upload_outcome_spec(
            UploadEventView::Completed { status_success: false, start_ms, end_ms },
        ) == OutcomeView::Failure(upload_failed_message()),
{
}

/// A transport failure on either path yields a failure outcome carrying
/// the transport's own error text.
pub proof fn lemma_transport_failure_is_reported(msg: Seq<char>)
    ensures
        download_outcome_spec(DownloadEventView::Failed(msg)) == OutcomeView::Failure(msg),
        upload_outcome_spec(UploadEventView::Failed(msg)) == OutcomeView::Failure(msg),
{
}

/// Running the whole sequence twice under the same conditions gives the
/// same pair of outcomes: each probe's outcome is a function of its own
/// event alone, so two runs that hand back equal events report equal
/// speeds and equal failure texts.
pub proof fn lemma_outcomes_repeatable(
    d1: DownloadEventView,
    u1: UploadEventView,
    d2: DownloadEventView,
    u2: UploadEventView,
)
    requires
        d1 == d2,
        u1 == u2,
    ensures
        download_outcome_spec(d1) == download_outcome_spec(d2),
        upload_outcome_spec(u1) == upload_outcome_spec(u2),
{
}

} // verus!
