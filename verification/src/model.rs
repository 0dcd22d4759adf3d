//! The worker's data model: jobs, detector outcomes, result payloads and the
//! job-processing error taxonomy.

use vstd::prelude::*;
use vstd::string::StringExecFns;
use crate::region::{Region, all_in_bounds};

verus! {

/// One unit of work fetched from the queue.
pub struct Job {
    /// Opaque identifier; the result is posted back under it.
    pub id: String,
    pub query_type: String,
    /// The image to analyze, base64-encoded.
    pub enc_img_in: String,
}

/// What the forgery detector reports for one image.
pub struct DetectionOutcome {
    /// Areas whose JPEG grid differs from the main grid.
    pub forged: Vec<Region>,
    /// Areas with missing JPEG traces, from the secondary analysis.
    pub missing: Vec<Region>,
    /// Whether the image was likely cropped from a larger original.
    pub is_cropped: bool,
}

impl DetectionOutcome {
    /// Both region lists, forged first, each in its reported order.
    pub open spec fn merged(self) -> Seq<Region> {
        self.forged@ + self.missing@
    }

    /// Every reported region fits the image.
    pub open spec fn regions_within(self, width: int, height: int) -> bool {
        all_in_bounds(self.merged(), width, height)
    }
}

/// The classification posted with every result.
#[derive(Clone, Copy, Debug, PartialEq, Eq, Structural)]
pub enum Classification {
    Clean,
    Cropped,
    Edited,
    Editcrop,
    Failed,
}

/// The wire label of a classification.
pub open spec fn label(c: Classification) -> Seq<char> {
    match c {
        Classification::Clean => "clean"@,
        Classification::Cropped => "cropped"@,
        Classification::Edited => "edited"@,
        Classification::Editcrop => "editcrop"@,
        Classification::Failed => "Failed"@,
    }
}

impl Classification {
    pub fn label_string(&self) -> (s: String)
        ensures
            s@ == label(*self),
    {
        match self {
            Classification::Clean => String::from_str("clean"),
            Classification::Cropped => String::from_str("cropped"),
            Classification::Edited => String::from_str("edited"),
            Classification::Editcrop => String::from_str("editcrop"),
            Classification::Failed => String::from_str("Failed"),
        }
    }
}

/// Why processing one job failed.  Any of these becomes a `Failed` result
/// carrying the error text; none of them stops the worker.
#[derive(Debug)]
pub enum JobError {
    /// The job's image field is not valid base64.
    Decode,
    /// The decoded bytes are not a loadable image.
    ImageLoad,
    /// The image is outside the dimensions the detector can analyze.
    Unsupported,
    /// The detector's secondary missing-grid analysis was unavailable.
    MissingGrid,
    /// The detector itself failed, with its message.
    Detector(String),
    /// Re-encoding the annotated image failed, with the encoder's message.
    Encode(String),
}

/// The text a failed result carries for each error.
pub open spec fn error_text(e: JobError) -> Seq<char> {
    match e {
        JobError::Decode => "Failed to deserialize base64 enc image"@,
        JobError::ImageLoad => "failed to load image"@,
        JobError::Unsupported => "image dimensions unsupported by the detector"@,
        JobError::MissingGrid => "missing grid analysis unavailable"@,
        JobError::Detector(m) => m@,
        JobError::Encode(m) => m@,
    }
}

impl JobError {
    pub fn message(&self) -> (s: String)
        ensures
            s@ == error_text(*self),
    {
        match self {
            JobError::Decode => String::from_str("Failed to deserialize base64 enc image"),
            JobError::ImageLoad => String::from_str("failed to load image"),
            JobError::Unsupported => String::from_str(
                "image dimensions unsupported by the detector",
            ),
            JobError::MissingGrid => String::from_str("missing grid analysis unavailable"),
            JobError::Detector(m) => m.clone(),
            JobError::Encode(m) => m.clone(),
        }
    }
}

/// The payload posted back for one job.
pub struct QueryResult {
    /// Annotated image, base64-encoded; the input string when nothing was
    /// drawn; empty on failure.
    pub enc_img_out: String,
    /// One summary line per drawn region; the error text on failure.
    pub text: String,
    pub result: Classification,
}

/// The shape of every failed result: empty image, the given text, `Failed`.
pub open spec fn failed_with(r: QueryResult, text: Seq<char>) -> bool {
    r.result == Classification::Failed && r.enc_img_out@ == Seq::<char>::empty() && r.text@
        == text
}

/// Turns a job-processing error into the result posted for the job.
pub fn failure_result(e: &JobError) -> (r: QueryResult)
    ensures
        failed_with(r, error_text(*e)),
{
    let r = QueryResult {
        enc_img_out: String::new(),
        text: e.message(),
        result: Classification::Failed,
    };
    proof {
        assert(r.enc_img_out@ =~= Seq::<char>::empty());
    }
    r
}

} // verus!
