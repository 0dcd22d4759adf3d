//! The worker's job lifecycle: the processing pipeline for one job, and the
//! decisions of the fetch/post loop.

use vstd::prelude::*;
use crate::annotate::render;
use crate::codec::{b64_decode, b64_decode_of, decoded_rgba_of, load_rgba};
use crate::detector::analyze;
use crate::model::{Classification, Job, JobError, QueryResult, error_text, failed_with,
    failure_result};

verus! {

/// Dimensions the detector cannot take (see `detector::analyze`).
pub open spec fn dims_unsupported(w: nat, h: nat) -> bool {
    w < 8 || h < 8 || w > 65535 || h > 65535
}

/// Everything `detect_fraud` promises of its result, as a predicate over the
/// input string's view, so the orchestrator can restate it verbatim.
///
/// Stage failures and failure results correspond both ways: a failed decode,
/// load or dimension check forces exactly its `Failed` result, and a
/// `Failed` result points back at the stage that failed — when the input
/// decodes to a loadable, supported image, only the detector itself can have
/// failed.  A result that is not `Failed` keeps the decision table: clean
/// and cropped pass the input through untouched with empty text, edited and
/// editcrop carry a non-empty summary.
pub open spec fn detect_fraud_post(r: QueryResult, enc_img_in: Seq<char>) -> bool {
    &&& (b64_decode_of(enc_img_in) is None ==> failed_with(r, error_text(JobError::Decode)))
    &&& match b64_decode_of(enc_img_in) {
        Some(bytes) => match decoded_rgba_of(bytes) {
            None => failed_with(r, error_text(JobError::ImageLoad)),
            Some(d) => dims_unsupported(d.0, d.1) ==> failed_with(
                r,
                error_text(JobError::Unsupported),
            ),
        },
        None => true,
    }
    &&& (r.result == Classification::Failed ==> match b64_decode_of(enc_img_in) {
        None => failed_with(r, error_text(JobError::Decode)),
        Some(bytes) => match decoded_rgba_of(bytes) {
            None => failed_with(r, error_text(JobError::ImageLoad)),
            Some(d) => (dims_unsupported(d.0, d.1) && failed_with(
                r,
                error_text(JobError::Unsupported),
            )) || !dims_unsupported(d.0, d.1),
        },
    })
    &&& (r.result == Classification::Failed ==> r.enc_img_out@ == Seq::<char>::empty())
    &&& ((r.result == Classification::Clean || r.result == Classification::Cropped) ==> (
    r.enc_img_out@ == enc_img_in && r.text@ == Seq::<char>::empty()))
    &&& ((r.result == Classification::Edited || r.result == Classification::Editcrop)
        ==> r.text@.len() > 0)
}

/// Runs the whole analysis for one encoded image: base64 decode, image load,
/// forgery detection, annotation.  Never fails — any stage failure becomes a
/// `Failed` result whose text names the failure — and never panics, so the
/// worker loop survives every job.
pub fn detect_fraud(enc_img_in: &str) -> (r: QueryResult)
    ensures
        detect_fraud_post(r, enc_img_in@),
{
    let bytes = match b64_decode(enc_img_in) {
        Some(b) => b,
        None => {
            return failure_result(&JobError::Decode);
        },
    };
    let rgba = match load_rgba(&bytes) {
        Some(b) => b,
        None => {
            return failure_result(&JobError::ImageLoad);
        },
    };
    if rgba.width < 8 || rgba.height < 8 || rgba.width > 65535 || rgba.height > 65535 {
        return failure_result(&JobError::Unsupported);
    }
    let outcome = match analyze(&bytes) {
        Ok(o) => o,
        Err(e) => {
            return failure_result(&e);
        },
    };
    match render(rgba, enc_img_in, &outcome) {
        Ok(q) => q,
        Err(e) => failure_result(&e),
    }
}

/// What the fetch loop does with one response status.
#[derive(Clone, Copy, Debug, PartialEq, Eq, Structural)]
pub enum FetchDisposition {
    /// Status 200: the body should hold a job; hand it over.
    UseBody,
    /// No job yet (204) or an anomalous status: ask again at once, without
    /// any delay.
    RetryNow,
}

/// A fetch that could not produce a job.
pub enum FetchError {
    /// The transport failed outright (connection error, timeout).
    Transport(String),
    /// Status 200 arrived but its body was not a well-formed job.
    Deserialization(String),
}

/// The job-source policy: only a 200 response carries a job; a 204 — no job
/// ready — and every other status are retried immediately, with no delay in
/// between.
pub fn classify_fetch_status(status: u16) -> (d: FetchDisposition)
    ensures
        d == FetchDisposition::UseBody <==> status == 200,
        status == 204 ==> d == FetchDisposition::RetryNow,
{
    if status == 200 {
        FetchDisposition::UseBody
    } else {
        FetchDisposition::RetryNow
    }
}

/// What a result post came to.
#[derive(Clone, Copy, Debug, PartialEq, Eq, Structural)]
pub enum PostOutcome {
    /// The queue acknowledged with 204.
    Delivered,
    /// Any other status or a transport failure: logged and swallowed, never
    /// retried and never raised.
    Dropped,
}

/// The result-sink policy: 204 is the only acknowledgement.
pub fn classify_post_status(status: u16) -> (o: PostOutcome)
    ensures
        o == PostOutcome::Delivered <==> status == 204,
{
    if status == 204 {
        PostOutcome::Delivered
    } else {
        PostOutcome::Dropped
    }
}

/// What the orchestrator does after one fetch attempt.
pub enum WorkerStep {
    /// Post exactly this result under this job id, then fetch the next job.
    Post { job_id: String, result: QueryResult },
    /// The fetch failed: sleep this many seconds, then fetch again.  The
    /// loop never terminates on fetch failure.
    Backoff { seconds: u64 },
}

/// One iteration of the orchestrator, after the fetch: a fetched job yields
/// exactly one result to post — the whole pipeline's result for the job's
/// image, so success or `Failed`, never nothing — and a failed fetch yields
/// a one-second backoff and no post.
pub fn run_iteration(fetch: Result<Job, FetchError>) -> (step: WorkerStep)
    ensures
        match fetch {
            Ok(job) => step matches WorkerStep::Post { job_id, result } && job_id@ == job.id@
                && detect_fraud_post(result, job.enc_img_in@),
            Err(_) => step matches WorkerStep::Backoff { seconds } && seconds == 1,
        },
{
    match fetch {
        Ok(job) => {
            let result = detect_fraud(job.enc_img_in.as_str());
            WorkerStep::Post { job_id: job.id, result }
        },
        Err(_) => WorkerStep::Backoff { seconds: 1 },
    }
}

} // verus!
