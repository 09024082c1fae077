//! The configuration snapshot a scan cycle runs against, and the folding
//! of legacy single-server fields into the server list.

use vstd::prelude::*;

verus! {

/// One remote deployment target.
#[derive(Clone, Debug)]
pub struct DeployServer {
    pub id: String,
    pub enabled: bool,
    pub name: String,
    pub host: String,
    pub port: u16,
    pub user: String,
    pub password: String,
    pub remote_path: String,
}

/// The immutable configuration snapshot of one cycle.
#[derive(Clone, Debug)]
pub struct AppConfig {
    pub remote_paths: Vec<String>,
    pub target_versions: Vec<String>,
    pub local_path: String,
    pub interval_minutes: u64,
    pub time_ranges: Vec<String>,
    pub file_extensions: Vec<String>,
    pub filename_includes: Vec<String>,
    pub deploy_enabled: bool,
    pub servers: Vec<DeployServer>,
    pub ssh_host: String,
    pub ssh_port: u16,
    pub ssh_user: String,
    pub ssh_password: String,
    pub remote_linux_path: String,
    pub post_commands: Vec<String>,
}

impl Default for AppConfig {
    /// The stock configuration: no tasks, no filters, no time windows,
    /// deployment off, and the desktop defaults for the local destination
    /// and the legacy SSH fields.
    fn default() -> (c: AppConfig)
        ensures
            c.remote_paths@.len() == 0,
            c.target_versions@.len() == 0,
            c.local_path@ == "E:\\UMS_TEMP"@,
            c.interval_minutes == 10,
            c.time_ranges@.len() == 0,
            c.file_extensions@.len() == 0,
            c.filename_includes@.len() == 0,
            c.deploy_enabled == false,
            c.servers@.len() == 0,
            c.ssh_host@.len() == 0,
            c.ssh_port == 22,
            c.ssh_user@.len() == 0,
            c.ssh_password@.len() == 0,
            c.remote_linux_path@ == "/tmp/upload"@,
            c.post_commands@.len() == 0,
    {
        AppConfig {
            remote_paths: Vec::new(),
            target_versions: Vec::new(),
            local_path: String::from_str("E:\\UMS_TEMP"),
            interval_minutes: 10,
            time_ranges: Vec::new(),
            file_extensions: Vec::new(),
            filename_includes: Vec::new(),
            deploy_enabled: false,
            servers: Vec::new(),
            ssh_host: String::new(),
            ssh_port: 22,
            ssh_user: String::new(),
            ssh_password: String::new(),
            remote_linux_path: String::from_str("/tmp/upload"),
            post_commands: Vec::new(),
        }
    }
}

/// Fold the legacy single-server fields into the server list: when the
/// list is empty and a legacy host is configured, one enabled server named
/// "Default Server" is added from those fields, under a fresh identifier;
/// otherwise the configuration is returned unchanged.
pub fn migrate_legacy(config: AppConfig) -> (r: AppConfig)
    ensures
        !(config.servers@.len() == 0 && config.ssh_host@.len() > 0) ==> r == config,
        (config.servers@.len() == 0 && config.ssh_host@.len() > 0) ==> {
            &&& r.servers@.len() == 1
            &&& r.servers@[0].id@.len() == 36
            &&& r.servers@[0].enabled == true
            &&& r.servers@[0].name@ == "Default Server"@
            &&& r.servers@[0].host == config.ssh_host
            &&& r.servers@[0].port == config.ssh_port
            &&& r.servers@[0].user == config.ssh_user
            &&& r.servers@[0].password == config.ssh_password
            &&& r.servers@[0].remote_path == config.remote_linux_path
            &&& r.remote_paths == config.remote_paths
            &&& r.target_versions == config.target_versions
            &&& r.local_path == config.local_path
            &&& r.interval_minutes == config.interval_minutes
            &&& r.time_ranges == config.time_ranges
            &&& r.file_extensions == config.file_extensions
            &&& r.filename_includes == config.filename_includes
            &&& r.deploy_enabled == config.deploy_enabled
            &&& r.ssh_host == config.ssh_host
            &&& r.ssh_port == config.ssh_port
            &&& r.ssh_user == config.ssh_user
            &&& r.ssh_password == config.ssh_password
            &&& r.remote_linux_path == config.remote_linux_path
            &&& r.post_commands == config.post_commands
        },
{
    let mut config = config;
    if config.servers.len() == 0 && !config.ssh_host.as_str().is_empty() {
        let server = DeployServer {
            id: crate::ids::fresh_id(),
            enabled: true,
            name: String::from_str("Default Server"),
            host: config.ssh_host.clone(),
            port: config.ssh_port,
            user: config.ssh_user.clone(),
            password: config.ssh_password.clone(),
            remote_path: config.remote_linux_path.clone(),
        };
        config.servers.push(server);
    }
    config
}

} // verus!
