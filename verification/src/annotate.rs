//! The annotator: turns a decoded image and a detector outcome into the
//! result payload — drawing, summary text and classification.

use vstd::prelude::*;
use vstd::string::StrSliceExecFns;
use crate::codec::{b64_encode, b64_encode_of, png_encode, png_of};
use crate::model::{Classification, DetectionOutcome, JobError, QueryResult};
use crate::pixbuf::{RgbaBuffer, annotated};
use crate::region::Region;
use crate::summary::{lemma_summary_nonempty, summary_string, summary_text};

verus! {

/// Concatenates the outcome's two region lists, forged first.
fn merge_regions(outcome: &DetectionOutcome) -> (merged: Vec<Region>)
    ensures
        merged@ == outcome.merged(),
{
    let mut merged: Vec<Region> = Vec::new();
    let mut i: usize = 0;
    while i < outcome.forged.len()
        invariant
            0 <= i <= outcome.forged.len(),
            merged@ == outcome.forged@.take(i as int),
        decreases outcome.forged.len() - i,
    {
        merged.push(outcome.forged[i]);
        proof {
            assert(outcome.forged@.take(i + 1) =~= outcome.forged@.take(i as int).push(
                outcome.forged@[i as int],
            ));
        }
        i = i + 1;
    }
    proof {
        assert(outcome.forged@.take(i as int) =~= outcome.forged@);
    }
    let mut j: usize = 0;
    while j < outcome.missing.len()
        invariant
            0 <= j <= outcome.missing.len(),
            merged@ == outcome.forged@ + outcome.missing@.take(j as int),
        decreases outcome.missing.len() - j,
    {
        merged.push(outcome.missing[j]);
        proof {
            assert(outcome.forged@ + outcome.missing@.take(j + 1) =~= (outcome.forged@
                + outcome.missing@.take(j as int)).push(outcome.missing@[j as int]));
        }
        j = j + 1;
    }
    proof {
        assert(outcome.forged@ + outcome.missing@.take(j as int) =~= outcome.merged());
    }
    merged
}

/// Renders one detector outcome.
///
/// The four-way rule: with at least one reported region the image is
/// re-encoded with every region's outline highlighted, the summary carries
/// one line per region, and the classification is `Editcrop` or `Edited` by
/// the cropped flag; with no regions the input string passes through
/// byte-for-byte, the summary is empty, and the classification is `Cropped`
/// or `Clean` by the cropped flag.  The only failure is the re-encoder's,
/// and the re-encoder cannot fail within the 16-bit dimension range the
/// pipeline admits, so success is owed there.
pub fn render(rgba: RgbaBuffer, enc_img_in: &str, outcome: &DetectionOutcome) -> (r: Result<
    QueryResult,
    JobError,
>)
    requires
        rgba.wf(),
        outcome.regions_within(rgba.width as int, rgba.height as int),
    ensures
        match r {
            Ok(q) => {
                let merged = outcome.merged();
                &&& (merged.len() == 0 && !outcome.is_cropped) ==> (q.result
                    == Classification::Clean && q.enc_img_out@ == enc_img_in@ && q.text@
                    == Seq::<char>::empty())
                &&& (merged.len() == 0 && outcome.is_cropped) ==> (q.result
                    == Classification::Cropped && q.enc_img_out@ == enc_img_in@ && q.text@
                    == Seq::<char>::empty())
                &&& merged.len() > 0 ==> (q.result == (if outcome.is_cropped {
                    Classification::Editcrop
                } else {
                    Classification::Edited
                }) && q.text@ == summary_text(merged) && q.text@.len() > 0 && q.enc_img_out@
                    == b64_encode_of(
                    png_of(
                        rgba.width as nat,
                        rgba.height as nat,
                        annotated(rgba.data@, rgba.width as int, merged),
                    ),
                ))
            },
            Err(e) => outcome.merged().len() > 0 && (rgba.width > 65535 || rgba.height > 65535)
                && e is Encode,
        },
        outcome.merged().len() == 0 ==> r is Ok,
        (rgba.width <= 65535 && rgba.height <= 65535) ==> r is Ok,
{
    let merged = merge_regions(outcome);
    if merged.len() == 0 {
        let result = if outcome.is_cropped {
            Classification::Cropped
        } else {
            Classification::Clean
        };
        let text = String::new();
        proof {
            assert(text@ =~= Seq::<char>::empty());
        }
        Ok(QueryResult { enc_img_out: enc_img_in.to_owned(), text, result })
    } else {
        let mut buf = rgba;
        buf.draw_regions(&merged);
        let text = summary_string(&merged);
        proof {
            lemma_summary_nonempty(merged@);
            // A region inside the image forces both dimensions to be >= 1.
            assert(outcome.merged()[0].in_bounds(buf.width as int, buf.height as int));
        }
        match png_encode(&buf) {
            Ok(png) => {
                let enc_img_out = b64_encode(&png);
                let result = if outcome.is_cropped {
                    Classification::Editcrop
                } else {
                    Classification::Edited
                };
                Ok(QueryResult { enc_img_out, text, result })
            },
            Err(m) => Err(JobError::Encode(m)),
        }
    }
}

} // verus!
