use vstd::prelude::*;
use vstd::string::StringExecFns;

use crate::chart::{Chart, Charts};

verus! {

/// The lower-hex rendering of the md5 state after consuming the text's bytes;
/// named here, computed only by the md5 crate.
pub uninterp spec fn md5_hex(s: Seq<char>) -> Seq<char>;

/// A lowercase hexadecimal digit.
pub open spec fn is_lower_hex_digit(c: char) -> bool {
    ('0' <= c && c <= '9') || ('a' <= c && c <= 'f')
}

/// Relies on md5::compute and the lower-hex rendering of its digest: the
/// result depends on the consumed bytes alone, and renders the sixteen digest
/// bytes as two lowercase hex digits each.
#[verifier::external_body]
fn md5_hex_of(s: &str) -> (r: String)
    ensures
        r@ == md5_hex(s@),
        r@.len() == 32,
        forall|i: int| 0 <= i < r@.len() ==> is_lower_hex_digit(#[trigger] r@[i]),
{
    format!("{:x}", md5::compute(s.as_bytes()))
}

/// What one chart feeds the accumulator: release, then name, then the version
/// only if present, concatenated with no separators.
pub open spec fn chart_entry(c: Chart) -> Seq<char> {
    c.release@ + c.name@ + if c.version is Some {
        c.version->Some_0@
    } else {
        Seq::<char>::empty()
    }
}

/// The separator-free fold of the ordered inventory.
pub open spec fn chart_fold(cs: Seq<Chart>) -> Seq<char>
    decreases cs.len(),
{
    if cs.len() == 0 {
        Seq::<char>::empty()
    } else {
        chart_fold(cs.drop_last()) + chart_entry(cs.last())
    }
}

/// The fold — and with it the digest — is a pure function of the ordered
/// inventory: two inventories whose charts agree pointwise on release, name
/// and version fold to the same text, so re-deriving the marker from an
/// unchanged, same-order inventory yields identical output.
pub proof fn lemma_digest_pure(a: Seq<Chart>, b: Seq<Chart>)
    requires
        a.len() == b.len(),
        forall|k: int|
            0 <= k < a.len() ==> {
                &&& (#[trigger] a[k]).release@ == b[k].release@
                &&& a[k].name@ == b[k].name@
                &&& (a[k].version is Some <==> b[k].version is Some)
                &&& (a[k].version matches Some(v) ==> b[k].version matches Some(w) && v@ == w@)
            },
    ensures
        chart_fold(a) == chart_fold(b),
    decreases a.len(),
{
    if a.len() > 0 {
        assert forall|k: int| 0 <= k < a.len() - 1 implies {
            &&& (#[trigger] a.drop_last()[k]).release@ == b.drop_last()[k].release@
            &&& a.drop_last()[k].name@ == b.drop_last()[k].name@
            &&& (a.drop_last()[k].version is Some <==> b.drop_last()[k].version is Some)
            &&& (a.drop_last()[k].version matches Some(v) ==> b.drop_last()[k].version matches Some(
                w,
            ) && v@ == w@)
        } by {
            assert(a.drop_last()[k] == a[k]);
            assert(b.drop_last()[k] == b[k]);
        }
        lemma_digest_pure(a.drop_last(), b.drop_last());
        assert(chart_entry(a.last()) == chart_entry(b.last()));
    }
}

/// Folds the ordered inventory into its change marker: the hex md5 of
/// releases, names and versions concatenated in request order with no
/// separators. A best-effort stability heuristic, not collision-proof:
/// distinct inventories can coincide and permutations can differ.
pub fn digest_of(charts: &Charts) -> (r: String)
    ensures
        r@ == md5_hex(chart_fold(charts@)),
        r@.len() == 32,
        forall|i: int| 0 <= i < r@.len() ==> is_lower_hex_digit(#[trigger] r@[i]),
{
    let mut acc = String::new();
    let mut i: usize = 0;
    while i < charts.len()
        invariant
            i <= charts@.len(),
            acc@ == chart_fold(charts@.take(i as int)),
        decreases charts@.len() - i,
    {
        let ghost acc0 = acc@;
        let c = &charts[i];
        acc.append(c.release.as_str());
        acc.append(c.name.as_str());
        if let Some(v) = &c.version {
            acc.append(v.as_str());
        }
        proof {
            assert(charts@.take(i + 1).drop_last() =~= charts@.take(i as int));
            assert(charts@.take(i + 1).last() == charts@[i as int]);
            assert(acc@ =~= acc0 + chart_entry(charts@[i as int]));
        }
        i = i + 1;
    }
    proof {
        assert(charts@.take(charts@.len() as int) =~= charts@);
    }
    md5_hex_of(acc.as_str())
}

} // verus!
