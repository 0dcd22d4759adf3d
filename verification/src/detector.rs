//! Trusted boundary to the forgery detector.

use vstd::prelude::*;
use forgery_detection_zero::{ForgedRegion, Zero};
use image::load_from_memory;
use crate::codec::decoded_rgba_of;
use crate::model::{DetectionOutcome, JobError};
use crate::region::Region;

verus! {

/// Relies on `forgery_detection_zero::Zero`: `from_image` plus
/// `detect_forgeries` report the areas whose JPEG grid disagrees with the
/// main grid, `detect_missing_grid_areas` reports the areas without JPEG
/// traces (`Ok(None)` when no main grid exists), and `is_cropped` reports a
/// main grid whose origin is off `(0, 0)`.  Its region growing only visits
/// pixels of the image, so every reported rectangle has ordered corners and
/// lies inside the image.  The detector needs both dimensions at least 8,
/// and it re-encodes the image through JPEG, whose dimensions are 16-bit, so
/// smaller and larger images are excluded here.  The image is loaded from
/// the bytes with `image::load_from_memory`.
#[verifier::external_body]
pub(crate) fn analyze(bytes: &Vec<u8>) -> (r: Result<DetectionOutcome, JobError>)
    requires
        match decoded_rgba_of(bytes@) {
            Some(d) => 8 <= d.0 <= 65535 && 8 <= d.1 <= 65535,
            None => true,
        },
    ensures
        match r {
            Ok(o) => match decoded_rgba_of(bytes@) {
                Some(d) => o.regions_within(d.0 as int, d.1 as int),
                None => false,
            },
            Err(e) => e is ImageLoad || e is MissingGrid || e is Detector,
        },
{
    let conv = |r: &ForgedRegion| Region::new(r.start.0, r.start.1, r.end.0, r.end.1);
    let img = match load_from_memory(bytes.as_slice()) { Ok(i) => i, Err(_) => return Err(JobError::ImageLoad) };
    let areas = Zero::from_image(&img).detect_forgeries();
    let missing_areas = match areas.detect_missing_grid_areas() {
        Ok(Some(m)) => m,
        Ok(None) => return Err(JobError::MissingGrid),
        Err(e) => return Err(JobError::Detector(format!("{e}"))),
    };
    Ok(DetectionOutcome {
        forged: areas.forged_regions().iter().map(conv).collect(),
        missing: missing_areas.forged_regions().iter().map(conv).collect(),
        is_cropped: areas.is_cropped(),
    })
}

} // verus!
