use vstd::prelude::*;

use crate::chart::Chart;
use crate::errors::HelmError;
use crate::text::{trim_of, trim_str};

verus! {

/// The idempotent install-or-upgrade command for one chart: namespace-scoped,
/// version-pinned when the chart pins one, referencing the values artifact
/// when one was written, then the release and the qualified chart name.
pub open spec fn upgrade_command_text(
    ns: Seq<char>,
    c: Chart,
    values_path: Option<Seq<char>>,
) -> Seq<char> {
    "helm upgrade -i --namespace "@ + ns + (if c.version is Some {
        " --version "@ + c.version->Some_0@
    } else {
        Seq::<char>::empty()
    }) + (if values_path is Some {
        " --values "@ + values_path->Some_0
    } else {
        Seq::<char>::empty()
    }) + " "@ + c.release@ + " stable/"@ + c.name@
}

/// The fixed-template removal command, addressed by release name alone.
pub open spec fn delete_command_text(release: Seq<char>) -> Seq<char> {
    "helm delete "@ + release
}

/// What one attempted shell command came back with: whether it exited zero,
/// and its captured standard output.
pub struct CommandOutcome {
    pub success: bool,
    pub stdout: String,
}

/// The one-time client initialization command run during bootstrap.
pub fn init_command() -> (r: String)
    ensures
        r@ == "helm init --client-only 1>&2"@,
{
    "helm init --client-only 1>&2".to_owned()
}

/// The repository-index refresh command run during bootstrap.
pub fn repo_update_command() -> (r: String)
    ensures
        r@ == "helm repo update"@,
{
    "helm repo update".to_owned()
}

/// Interprets one command attempt: a non-zero exit fails with the literal
/// command text, and a zero exit returns the trimmed captured stdout.
pub fn run_result(cmd: &str, outcome: CommandOutcome) -> (r: Result<String, HelmError>)
    ensures
        outcome.success ==> (r matches Ok(s) && s@ == trim_of(outcome.stdout@)),
        !outcome.success ==> (r matches Err(e) && (e matches HelmError::CommandExecutionFailure(c)
            && c@ == cmd@)),
{
    if outcome.success {
        Ok(trim_str(outcome.stdout.as_str()))
    } else {
        Err(HelmError::CommandExecutionFailure(cmd.to_owned()))
    }
}

} // verus!
