use vstd::prelude::*;

use crate::chart::{Chart, Charts};
use crate::config::Config;

verus! {

/// The source section of a request: connection details for the cluster and
/// the namespace the invocation works in.
pub struct Source {
    pub url: String,
    pub username: String,
    pub password: String,
    pub namespace: String,
    pub skip_tls_verify: Option<bool>,
    pub ca_data: Option<String>,
}

impl Source {
    /// The connection config this source stands for, field by field.
    pub fn into_config(self) -> (c: Config)
        ensures
            c.url == self.url,
            c.username == self.username,
            c.password == self.password,
            c.namespace == self.namespace,
            c.skip_tls_verify == self.skip_tls_verify,
            c.ca_data == self.ca_data,
    {
        Config {
            url: self.url,
            username: self.username,
            password: self.password,
            namespace: self.namespace,
            skip_tls_verify: self.skip_tls_verify,
            ca_data: self.ca_data,
        }
    }
}

/// An opaque change marker; equality is its only meaningful operation.
pub struct Version {
    pub digest: String,
}

/// The check verb's request: a source and an optional prior version, which
/// the verb ignores — it always reports the single current digest.
pub struct CheckRequest {
    pub source: Source,
    pub version: Option<Version>,
}

pub type InRequest = CheckRequest;

/// The response of the in and out verbs: the digest of the actual state, with
/// open metadata (an empty object in practice).
pub struct InResponse<M> {
    pub version: Version,
    pub metadata: M,
}

/// The out verb's request: a source and the verb's parameters.
pub struct OutRequest<P> {
    pub source: Source,
    pub params: P,
}

pub type OutResponse<M> = InResponse<M>;

/// How many upgrade commands the out verb issues over charts whose attempts
/// would come back as `outcomes`, one entry per chart in request order:
/// attempts run strictly in order and the first failure stops the sequence.
pub open spec fn issued_count(outcomes: Seq<bool>) -> nat
    decreases outcomes.len(),
{
    if outcomes.len() == 0 {
        0
    } else if outcomes[0] {
        (1 + issued_count(outcomes.drop_first())) as nat
    } else {
        1
    }
}

/// A mid-sequence failure aborts the remainder and nothing else: when the
/// attempt at position k is the first to fail, exactly the first k + 1
/// upgrade commands are issued — every earlier chart's command has run and no
/// later chart's command is ever attempted.
pub proof fn lemma_failure_stops_the_sequence(outcomes: Seq<bool>, k: int)
    requires
        0 <= k < outcomes.len(),
        !outcomes[k],
        forall|j: int| 0 <= j < k ==> outcomes[j],
    ensures
        issued_count(outcomes) == k + 1,
    decreases k,
{
    if k > 0 {
        lemma_failure_stops_the_sequence(outcomes.drop_first(), k - 1);
    }
}

/// With no charts to mutate, the out verb issues no upgrade command at all.
pub proof fn lemma_no_charts_no_commands(outcomes: Seq<bool>)
    requires
        outcomes.len() == 0,
    ensures
        issued_count(outcomes) == 0,
{
}

/// Drives the out verb's mutation phase: upgrades are attempted strictly in
/// request order, sequentially and non-transactionally — a failure aborts the
/// remainder, leaving earlier charts mutated and later ones untouched.
pub struct OutSession {
    charts: Charts,
    next: usize,
    aborted: bool,
}

impl OutSession {
    /// The charts to upgrade, in request order.
    pub closed spec fn charts(&self) -> Seq<Chart> {
        self.charts@
    }

    /// The position of the next chart to attempt.
    pub closed spec fn next(&self) -> int {
        self.next as int
    }

    /// Whether an attempt has failed, aborting the remainder.
    pub closed spec fn aborted(&self) -> bool {
        self.aborted
    }

    pub closed spec fn wf(&self) -> bool {
        self.next <= self.charts@.len()
    }

    pub fn new(charts: Charts) -> (s: Self)
        ensures
            s.wf(),
            s.charts() == charts@,
            s.next() == 0,
            !s.aborted(),
    {
        OutSession { charts, next: 0, aborted: false }
    }

    /// The chart the next upgrade command is due for, or `None` when every
    /// chart was attempted or an earlier attempt failed.
    pub fn next_chart(&self) -> (r: Option<&Chart>)
        requires
            self.wf(),
        ensures
            r matches Some(c) ==> (!self.aborted() && self.next() < self.charts().len() && *c
                == self.charts()[self.next()]),
            r is None <==> (self.aborted() || self.next() >= self.charts().len()),
    {
        if self.aborted {
            None
        } else if self.next < self.charts.len() {
            Some(&self.charts[self.next])
        } else {
            None
        }
    }

    /// Records the outcome of the attempted upgrade: success moves on to the
    /// following chart, failure aborts the remainder for good.
    pub fn record(&mut self, success: bool)
        requires
            old(self).wf(),
            !old(self).aborted(),
            old(self).next() < old(self).charts().len(),
        ensures
            final (self).wf(),
            final (self).charts() == old(self).charts(),
            success ==> (final (self).next() == old(self).next() + 1 && !final (self).aborted()),
            !success ==> (final (self).aborted() && final (self).next() == old(self).next()),
    {
        let total = self.charts.len();
        if success {
            assert(self.next < total);
            self.next = self.next + 1;
        } else {
            self.aborted = true;
        }
    }
}

} // verus!
