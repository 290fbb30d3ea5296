use vstd::prelude::*;

verus! {

/// Settings that decide whether and where heartbeats are delivered.
#[derive(Debug, Clone)]
pub struct WakaTimeConfig {
    pub enabled: bool,
    pub api_key: Option<String>,
    pub api_url: String,
    pub timeout: u64,
    pub project: Option<String>,
    pub hide_file_names: bool,
    pub hide_project_names: bool,
}

} // verus!
