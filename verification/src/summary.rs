//! The human-readable summary: one line per reported region.

use vstd::prelude::*;
use vstd::string::StringExecFns;
use crate::numfmt::{dec_str, push_u32};
use crate::region::Region;

verus! {

/// The summary line for one region.
pub open spec fn region_line(r: Region) -> Seq<char> {
    "Forged region: from ("@ + dec_str(r.start.x as nat) + ", "@ + dec_str(r.start.y as nat)
        + ") to ("@ + dec_str(r.end.x as nat) + ", "@ + dec_str(r.end.y as nat) + ")\n"@
}

/// The whole summary: the regions' lines, in order.
pub open spec fn summary_text(rs: Seq<Region>) -> Seq<char>
    decreases rs.len(),
{
    if rs.len() == 0 {
        Seq::empty()
    } else {
        region_line(rs[0]) + summary_text(rs.drop_first())
    }
}

/// A summary of at least one region is never empty.
pub proof fn lemma_summary_nonempty(rs: Seq<Region>)
    requires
        rs.len() > 0,
    ensures
        summary_text(rs).len() > 0,
{
    reveal_strlit("Forged region: from (");
}

/// Law: the summary decomposes around any one region — everything before
/// its line comes from the regions before it, everything after from the
/// regions after it.  So the text holds exactly one line per region, in
/// order.
pub proof fn lemma_summary_one_line_per_region(rs: Seq<Region>, i: int)
    requires
        0 <= i < rs.len(),
    ensures
        summary_text(rs) == summary_text(rs.take(i)) + region_line(rs[i]) + summary_text(
            rs.skip(i + 1),
        ),
    decreases i,
{
    if i == 0 {
        assert(rs.take(0) =~= Seq::<Region>::empty());
        assert(summary_text(Seq::<Region>::empty()) == Seq::<char>::empty());
        assert(rs.skip(1) =~= rs.drop_first());
        assert(summary_text(rs) =~= summary_text(rs.take(0)) + region_line(rs[0])
            + summary_text(rs.skip(1)));
    } else {
        let tail = rs.drop_first();
        lemma_summary_one_line_per_region(tail, i - 1);
        assert(rs.take(i)[0] == rs[0]);
        assert(rs.take(i).drop_first() =~= tail.take(i - 1));
        assert(rs.skip(i + 1) =~= tail.skip(i));
        assert(tail[i - 1] == rs[i]);
        assert(summary_text(rs) =~= summary_text(rs.take(i)) + region_line(rs[i])
            + summary_text(rs.skip(i + 1)));
    }
}

/// Appending a region appends exactly its line.
proof fn lemma_summary_snoc(s: Seq<Region>, r: Region)
    ensures
        summary_text(s.push(r)) == summary_text(s) + region_line(r),
    decreases s.len(),
{
    if s.len() == 0 {
        assert(s.push(r)[0] == r);
        assert(s.push(r).drop_first() =~= Seq::<Region>::empty());
        assert(summary_text(Seq::<Region>::empty()) == Seq::<char>::empty());
        assert(summary_text(s.push(r)) == region_line(r) + Seq::<char>::empty());
        assert(summary_text(s.push(r)) =~= summary_text(s) + region_line(r));
    } else {
        assert(s.push(r)[0] == s[0]);
        assert(s.push(r).drop_first() =~= s.drop_first().push(r));
        lemma_summary_snoc(s.drop_first(), r);
        assert(summary_text(s.push(r)) =~= summary_text(s) + region_line(r));
    }
}

/// Appends one region's line.
fn append_region_line(out: &mut String, r: &Region)
    ensures
        final(out)@ == old(out)@ + region_line(*r),
{
    out.append("Forged region: from (");
    push_u32(out, r.start.x);
    out.append(", ");
    push_u32(out, r.start.y);
    out.append(") to (");
    push_u32(out, r.end.x);
    out.append(", ");
    push_u32(out, r.end.y);
    out.append(")\n");
    proof {
        assert(out@ =~= old(out)@ + region_line(*r));
    }
}

/// Builds the whole summary for the regions, in order.
pub fn summary_string(regions: &Vec<Region>) -> (s: String)
    ensures
        s@ == summary_text(regions@),
{
    let mut s = String::new();
    let mut i: usize = 0;
    while i < regions.len()
        invariant
            0 <= i <= regions.len(),
            s@ == summary_text(regions@.take(i as int)),
        decreases regions.len() - i,
    {
        append_region_line(&mut s, &regions[i]);
        proof {
            assert(regions@.take(i + 1) =~= regions@.take(i as int).push(regions@[i as int]));
            lemma_summary_snoc(regions@.take(i as int), regions@[i as int]);
        }
        i = i + 1;
    }
    proof {
        assert(regions@.take(i as int) =~= regions@);
    }
    s
}

} // verus!
