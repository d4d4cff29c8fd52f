use vstd::prelude::*;
use vstd::string::StringExecFns;

verus! {

/// POSIX mode every workspace directory gets: traversable and listable by any
/// identity, since the stack's containers mount the workspace and may run as
/// a user other than the orchestrator's.
pub const WORKSPACE_DIR_MODE: u32 = 0o755;
/// POSIX mode every workspace file gets: readable by any identity.
pub const WORKSPACE_FILE_MODE: u32 = 0o644;

/// The mode a workspace entry must be normalized to.
pub fn mode_for_entry(is_dir: bool) -> (m: u32)
    ensures
        m == (if is_dir { WORKSPACE_DIR_MODE } else { WORKSPACE_FILE_MODE }),
{
    if is_dir {
        WORKSPACE_DIR_MODE
    } else {
        WORKSPACE_FILE_MODE
    }
}

/// The directories a workspace holds, relative to its root, in creation
/// order (parents before children).
pub fn workspace_dirs() -> (r: Vec<String>)
    ensures
        r@.len() == 3,
        r@[0]@ == "grafana/provisioning/datasources"@,
        r@[1]@ == "grafana/provisioning/dashboards"@,
        r@[2]@ == "grafana/dashboards"@,
{
    let mut v: Vec<String> = Vec::new();
    v.push(String::from_str("grafana/provisioning/datasources"));
    v.push(String::from_str("grafana/provisioning/dashboards"));
    v.push(String::from_str("grafana/dashboards"));
    v
}

/// The manifest files a workspace holds, relative to its root: the stack
/// topology, the metrics-scrape declaration, and the dashboard provisioning
/// set, in the order they are written.
pub fn workspace_files() -> (r: Vec<String>)
    ensures
        r@.len() == 5,
        r@[0]@ == "docker-compose.yaml"@,
        r@[1]@ == "prometheus.yaml"@,
        r@[2]@ == "grafana/provisioning/datasources/prometheus.yaml"@,
        r@[3]@ == "grafana/provisioning/dashboards/dashboards.yaml"@,
        r@[4]@ == "grafana/dashboards/condash.json"@,
{
    let mut v: Vec<String> = Vec::new();
    v.push(String::from_str("docker-compose.yaml"));
    v.push(String::from_str("prometheus.yaml"));
    v.push(String::from_str("grafana/provisioning/datasources/prometheus.yaml"));
    v.push(String::from_str("grafana/provisioning/dashboards/dashboards.yaml"));
    v.push(String::from_str("grafana/dashboards/condash.json"));
    v
}

/// The topology declaration's single substitution point: the target
/// identifier spliced between the fixed text before and after it, and
/// nothing else changed.
pub fn inject_target(before: &str, target: &str, after: &str) -> (r: String)
    ensures
        r@ == before@ + target@ + after@,
{
    let mut s = String::from_str(before);
    s.append(target);
    s.append(after);
    s
}

/// The fixed prefix of the dashboard URL; the target identifier follows it,
/// so the dashboard opens pre-filtered to the monitored container.
pub open spec fn spec_dashboard_url_base() -> Seq<char> {
    "http://localhost:3000/d/condash?var-container="@
}

/// The dashboard URL for a target: the fixed base with the target identifier
/// appended as the container filter.
pub fn dashboard_url(target: &str) -> (r: String)
    ensures
        r@ == spec_dashboard_url_base() + target@,
{
    let mut s = String::from_str("http://localhost:3000/d/condash?var-container=");
    s.append(target);
    s
}

} // verus!
