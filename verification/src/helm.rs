use vstd::prelude::*;
use vstd::string::StringExecFns;

use crate::chart::{Chart, Charts};
use crate::commands::{delete_command_text, upgrade_command_text};
use crate::config::BootstrapPlan;
use crate::digest::{chart_fold, digest_of, is_lower_hex_digit, md5_hex};
use crate::errors::HelmError;
use crate::inventory::{
    chart_matches_item, charts_from_items, item_meta, kept_items, metas_view, spec_item_meta,
    ItemMeta, MetaView,
};
use crate::json::{
    as_array_of, map_get_of, obj_of_text, object_get, parse_object, parses_as_object,
    value_as_array,
};
use crate::text::{trim_of, trim_str};

verus! {

/// The URL with six path segments appended in order; named here, computed
/// only by the url crate.
pub uninterp spec fn url_with_path(
    base: Seq<char>,
    s1: Seq<char>,
    s2: Seq<char>,
    s3: Seq<char>,
    s4: Seq<char>,
    s5: Seq<char>,
    s6: Seq<char>,
) -> Seq<char>;

/// Whether the base URL parses and can take appended path segments; named
/// here, decided only by the url crate. Appending itself never fails, so this
/// depends on the base alone.
pub uninterp spec fn url_joinable(base: Seq<char>) -> bool;

/// Relies on url::Url::parse, Url::path_segments_mut and
/// PathSegmentsMut::push: appends six path segments to the base URL; `None`
/// exactly when the base does not parse or cannot take appended segments
/// (cannot-be-a-base), which depends on the base alone — `push` itself always
/// succeeds.
#[verifier::external_body]
fn join_url(
    base: &str,
    s1: &str,
    s2: &str,
    s3: &str,
    s4: &str,
    s5: &str,
    s6: &str,
) -> (r: Option<String>)
    ensures
        r is Some <==> url_joinable(base@),
        r matches Some(u) ==> u@ == url_with_path(base@, s1@, s2@, s3@, s4@, s5@, s6@),
{
    let mut url = match url::Url::parse(base) {
        Ok(u) => u,
        Err(_) => return None,
    };
    match url.path_segments_mut() {
        Ok(mut segments) => {
            segments.push(s1).push(s2).push(s3).push(s4).push(s5).push(s6);
        },
        Err(()) => return None,
    }
    Some(String::from(url))
}

/// The raw items a parsed response object holds: the elements of its `items`
/// array, or nothing at all when `items` is absent or not an array — that is
/// an empty inventory, never an error.
pub open spec fn spec_items_of(obj: serde_json::Map<String, serde_json::Value>) -> Seq<
    serde_json::Value,
> {
    match map_get_of(obj, "items"@) {
        Some(v) => match as_array_of(v) {
            Some(a) => a,
            None => Seq::empty(),
        },
        None => Seq::empty(),
    }
}

/// The decoded metadata of every item a response body carries, in response
/// order: the tolerant decode of each element of the parsed object's `items`
/// array.
pub open spec fn spec_body_metas(body: Seq<char>) -> Seq<MetaView> {
    spec_items_of(obj_of_text(trim_of(body))).map_values(|v: serde_json::Value| spec_item_meta(v))
}

/// A usable connection: namespace, server and credentials, plus the paths of
/// the scoped artifacts that bootstrap materialized. The artifacts are owned
/// by the invocation that wrote them and are released when it ends.
pub struct Helm {
    pub namespace: String,
    pub server: String,
    pub username: String,
    pub password: String,
    /// Path of the rendered client-config artifact; shell commands run with
    /// exactly one environment override pointing the tool at it.
    pub kube_config: String,
    /// Path of the trust-anchor artifact. When present it is the sole root of
    /// trust for cluster API reads; when absent, peer verification is
    /// disabled (only reachable when skip_tls_verify was explicitly set).
    pub kube_ca_cert: Option<String>,
}

impl Helm {
    /// Assembles the connection from a validated bootstrap plan and the paths
    /// of the artifacts written from it. The caller then runs `init_command`
    /// and `repo_update_command` through the executor; either failing is
    /// fatal and aborts bootstrap.
    pub fn configure(plan: BootstrapPlan, kube_config: String, kube_ca_cert: Option<String>) -> (h:
        Helm)
        requires
            plan.ca_data is Some <==> kube_ca_cert is Some,
        ensures
            h.namespace == plan.namespace,
            h.server == plan.url,
            h.username == plan.username,
            h.password == plan.password,
            h.kube_config == kube_config,
            h.kube_ca_cert == kube_ca_cert,
            h.kube_ca_cert is Some <==> plan.ca_data is Some,
    {
        Helm {
            namespace: plan.namespace,
            server: plan.url,
            username: plan.username,
            password: plan.password,
            kube_config,
            kube_ca_cert,
        }
    }

    /// The inventory endpoint: the fixed path segments and the namespace
    /// appended to the connection's base URL.
    pub fn deployments_endpoint(&self) -> (r: Result<String, HelmError>)
        ensures
            r is Ok <==> url_joinable(self.server@),
            r matches Ok(u) ==> u@ == url_with_path(
                self.server@,
                "apis"@,
                "extensions"@,
                "v1beta1"@,
                "namespaces"@,
                self.namespace@,
                "deployments"@,
            ),
            r matches Err(e) ==> e is UrlConstructionFailure,
    {
        match join_url(
            self.server.as_str(),
            "apis",
            "extensions",
            "v1beta1",
            "namespaces",
            self.namespace.as_str(),
            "deployments",
        ) {
            Some(u) => Ok(u),
            None => Err(HelmError::UrlConstructionFailure),
        }
    }

    /// Reconstructs the current inventory from the raw response of the
    /// inventory endpoint. The caller issues the authenticated GET — with the
    /// trust-anchor artifact as sole root of trust when present, else with
    /// peer verification disabled — and hands the body here; `None` stands
    /// for a transport failure. A body that is not a JSON object fails with
    /// `NetworkOrApiFailure`; a missing or non-array `items` field is an
    /// empty inventory, never an error. Output order follows the response.
    pub fn list(&self, response: Option<&String>) -> (r: Result<Charts, HelmError>)
        ensures
            r matches Err(e) ==> e is NetworkOrApiFailure,
            response is None ==> r is Err,
            response matches Some(b) ==> (r is Ok <==> parses_as_object(trim_of(b@))),
            r matches Ok(cs) ==> (response matches Some(b) && {
                let metas = spec_body_metas(b@);
                &&& cs@.len() == kept_items(metas, self.namespace@).len()
                &&& forall|k: int|
                    0 <= k < cs@.len() ==> chart_matches_item(
                        #[trigger] cs@[k],
                        kept_items(metas, self.namespace@)[k],
                        self.namespace@,
                    )
            }),
    {
        let body = match response {
            Some(b) => b,
            None => {
                return Err(HelmError::NetworkOrApiFailure);
            },
        };
        let trimmed = trim_str(body.as_str());
        let obj = match parse_object(trimmed.as_str()) {
            Some(o) => o,
            None => {
                return Err(HelmError::NetworkOrApiFailure);
            },
        };
        let ghost raw_items: Seq<serde_json::Value> = spec_items_of(obj);
        let mut metas: Vec<ItemMeta> = Vec::new();
        let items = match object_get(&obj, "items") {
            Some(v) => value_as_array(v),
            None => None,
        };
        match items {
            Some(items) => {
                assert(items@ == raw_items);
                let mut i: usize = 0;
                while i < items.len()
                    invariant
                        i <= items@.len(),
                        items@ == raw_items,
                        metas@.len() == i,
                        forall|k: int| 0 <= k < i ==> (#[trigger] metas@[k])@ == spec_item_meta(
                            raw_items[k],
                        ),
                    decreases items@.len() - i,
                {
                    metas.push(item_meta(&items[i]));
                    i = i + 1;
                }
                proof {
                    assert(metas_view(metas@) =~= raw_items.map_values(
                        |v: serde_json::Value| spec_item_meta(v),
                    ));
                }
            },
            None => {
                proof {
                    assert(metas_view(metas@) =~= raw_items.map_values(
                        |v: serde_json::Value| spec_item_meta(v),
                    ));
                }
            },
        }
        let charts = charts_from_items(&metas, &self.namespace);
        proof {
            assert(metas_view(metas@) == spec_body_metas(body@));
        }
        Ok(charts)
    }

    /// The current change marker: the digest of the inventory reconstructed
    /// from the response body, under the same tolerant decode as `list`.
    pub fn digest(&self, response: Option<&String>) -> (r: Result<String, HelmError>)
        ensures
            r matches Err(e) ==> e is NetworkOrApiFailure,
            response is None ==> r is Err,
            response matches Some(b) ==> (r is Ok <==> parses_as_object(trim_of(b@))),
            r matches Ok(d) ==> (d@.len() == 32 && forall|i: int|
                0 <= i < d@.len() ==> is_lower_hex_digit(#[trigger] d@[i])),
            r matches Ok(d) ==> (response matches Some(b) && exists|cs: Seq<Chart>|
                {
                    let metas = spec_body_metas(b@);
                    &&& cs.len() == kept_items(metas, self.namespace@).len()
                    &&& (forall|k: int|
                        0 <= k < cs.len() ==> chart_matches_item(
                            #[trigger] cs[k],
                            kept_items(metas, self.namespace@)[k],
                            self.namespace@,
                        ))
                    &&& d@ == #[trigger] md5_hex(chart_fold(cs))
                }),
    {
        match self.list(response) {
            Ok(charts) => {
                let d = digest_of(&charts);
                proof {
                    let metas = spec_body_metas(response->Some_0@);
                    assert({
                        &&& charts@.len() == kept_items(metas, self.namespace@).len()
                        &&& (forall|k: int|
                            0 <= k < charts@.len() ==> chart_matches_item(
                                #[trigger] charts@[k],
                                kept_items(metas, self.namespace@)[k],
                                self.namespace@,
                            ))
                        &&& d@ == md5_hex(chart_fold(charts@))
                    });
                }
                Ok(d)
            },
            Err(e) => Err(e),
        }
    }

    /// The idempotent install-or-upgrade command for one chart into the
    /// connection's namespace: pins the version when the chart sets one, and
    /// references the scoped values artifact the caller serialized the
    /// overrides to, exactly when the chart has overrides. The caller runs
    /// the command, interprets its outcome with `run_result`, and releases
    /// the values artifact after the run attempt completes.
    pub fn upgrade(&self, chart: &Chart, values_path: Option<&String>) -> (cmd: String)
        requires
            chart.overrides is Some <==> values_path is Some,
        ensures
            cmd@ == upgrade_command_text(
                self.namespace@,
                *chart,
                match values_path {
                    Some(p) => Some(p@),
                    None => None,
                },
            ),
    {
        let mut cmd: String = "helm upgrade -i --namespace ".to_owned();
        cmd.append(self.namespace.as_str());
        if let Some(v) = &chart.version {
            cmd.append(" --version ");
            cmd.append(v.as_str());
        }
        if let Some(p) = values_path {
            cmd.append(" --values ");
            cmd.append(p.as_str());
        }
        cmd.append(" ");
        cmd.append(chart.release.as_str());
        cmd.append(" stable/");
        cmd.append(chart.name.as_str());
        proof {
            assert(cmd@ =~= upgrade_command_text(
                self.namespace@,
                *chart,
                match values_path {
                    Some(p) => Some(p@),
                    None => None,
                },
            ));
        }
        cmd
    }

    /// The fixed-template removal command, addressed by release name alone
    /// (the release name is unique within the namespace for this purpose).
    /// The caller runs it and interprets the outcome with `run_result`.
    pub fn delete(&self, release: &str) -> (cmd: String)
        ensures
            cmd@ == delete_command_text(release@),
    {
        let mut cmd: String = "helm delete ".to_owned();
        cmd.append(release);
        cmd
    }
}

} // verus!
