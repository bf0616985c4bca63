//! Assembling a transcript from the recognition engine's segment texts:
//! each segment is trimmed, empty segments are dropped, and the rest are
//! joined with single spaces.

use vstd::prelude::*;

verus! {

/// What `str::trim` returns for the given characters.
pub uninterp spec fn trimmed_of(s: Seq<char>) -> Seq<char>;

/// Relies on str::trim: the text with leading and trailing whitespace
/// removed. The result depends on the characters alone.
#[verifier::external_body]
fn trim_str(s: &str) -> (r: String)
    ensures
        r@ == trimmed_of(s@),
{
    s.trim().to_owned()
}

/// The joined transcript of the given segment texts: each trimmed, the
/// empty ones dropped, the rest separated by single spaces, in order.
pub open spec fn spec_join_trimmed(segments: Seq<Seq<char>>) -> Seq<char>
    decreases segments.len(),
{
    if segments.len() == 0 {
        Seq::<char>::empty()
    } else {
        let rest = spec_join_trimmed(segments.drop_last());
        let t = trimmed_of(segments.last());
        if t.len() == 0 {
            rest
        } else if rest.len() == 0 {
            t
        } else {
            rest + " "@ + t
        }
    }
}

/// Joins the engine's segment texts into one transcript: trims each
/// segment, drops the empty ones, and separates the rest with single
/// spaces.
pub fn join_segments(segments: &Vec<String>) -> (r: String)
    ensures
        r@ == spec_join_trimmed(segments@.map_values(|s: String| s@)),
{
    let ghost all = segments@.map_values(|s: String| s@);
    let mut out = String::new();
    let n: usize = segments.len();
    let mut i: usize = 0;
    while i < n
        invariant
            i <= n,
            n == segments@.len(),
            all == segments@.map_values(|s: String| s@),
            out@ == spec_join_trimmed(all.subrange(0, i as int)),
        decreases n - i,
    {
        let t = trim_str(segments[i].as_str());
        if !t.as_str().is_empty() {
            if !out.as_str().is_empty() {
                out.append(" ");
            }
            out.append(t.as_str());
        }
        i = i + 1;
        proof {
            let prefix = all.subrange(0, i as int);
            assert(prefix.drop_last() =~= all.subrange(0, i as int - 1));
            assert(prefix.last() == segments@[i as int - 1]@);
            assert(out@ == spec_join_trimmed(prefix));
        }
    }
    proof {
        assert(all.subrange(0, n as int) =~= all);
    }
    out
}

} // verus!
