use vstd::prelude::*;
use vstd::string::StrSliceExecFns;

verus! {

/// One managed release: the stable mutation key `release`, the chart name, an
/// optional pinned version, and optional value overrides (only meaningful for
/// an upgrade).
pub struct Chart {
    pub release: String,
    pub name: String,
    pub version: Option<String>,
    pub overrides: Option<std::collections::HashMap<String, serde_json::Value>>,
}

pub type Charts = Vec<Chart>;

/// The index of the last hyphen of `s`, if `s` holds one.
pub open spec fn last_hyphen(s: Seq<char>) -> Option<int>
    decreases s.len(),
{
    if s.len() == 0 {
        None
    } else if s[s.len() - 1] == '-' {
        Some(s.len() - 1)
    } else {
        last_hyphen(s.take(s.len() - 1))
    }
}

pub proof fn lemma_last_hyphen_at(s: Seq<char>, i: int)
    requires
        0 <= i < s.len(),
        s[i] == '-',
        forall|j: int| i < j < s.len() ==> s[j] != '-',
    ensures
        last_hyphen(s) == Some(i),
    decreases s.len(),
{
    if i < s.len() - 1 {
        lemma_last_hyphen_at(s.take(s.len() - 1), i);
    }
}

pub proof fn lemma_no_hyphen(s: Seq<char>)
    requires
        forall|j: int| 0 <= j < s.len() ==> s[j] != '-',
    ensures
        last_hyphen(s) is None,
    decreases s.len(),
{
    if s.len() > 0 {
        lemma_no_hyphen(s.take(s.len() - 1));
    }
}

/// Splits a composite chart label on its last hyphen into (name, version):
/// the name is everything before the final hyphen and the version is the
/// suffix after it. A label with no hyphen yields `None`.
pub fn split_chart_label(label: &str) -> (r: Option<(String, String)>)
    ensures
        r is Some <==> last_hyphen(label@) is Some,
        r matches Some(nv) ==> {
            let i = last_hyphen(label@)->Some_0;
            &&& nv.0@ == label@.subrange(0, i)
            &&& nv.1@ == label@.subrange(i + 1, label@.len() as int)
        },
{
    let n = label.unicode_len();
    let mut i = n;
    while i > 0
        invariant
            n == label@.len(),
            i <= n,
            forall|j: int| i <= j < n ==> label@[j] != '-',
        decreases i,
    {
        i = i - 1;
        if label.get_char(i) == '-' {
            let name = label.substring_char(0, i).to_owned();
            let version = label.substring_char(i + 1, n).to_owned();
            proof {
                lemma_last_hyphen_at(label@, i as int);
            }
            return Some((name, version));
        }
    }
    proof {
        lemma_no_hyphen(label@);
    }
    None
}

} // verus!
