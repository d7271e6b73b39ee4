//! Domain records of the hosting panel and the pure string computations the
//! REST client is driven by: endpoint paths, the bearer header, the panel's
//! base URL and the display labels the selection screens show.
//!
//! The shell performs the HTTP calls and the JSON decoding; it hands this
//! module plain values and sends back exactly the strings built here.

use vstd::prelude::*;
use vstd::string::StringExecFns;

verus! {

/// One server as the panel reports it.
pub struct Server {
    /// The short identifier used in per-server API paths.
    pub identifier: String,
    /// The server's full unique id.
    pub uuid: String,
    /// The human-readable name shown on the selection screen.
    pub name: String,
}

/// One backup of a server as the panel reports it.
pub struct Backup {
    /// The backup's unique id; also names the destination file.
    pub uuid: String,
    /// The human-readable name shown on the selection screen.
    pub name: String,
    /// When the backup was taken, as the panel formatted it.
    pub created_at: String,
    /// The backup's size in bytes as the panel reported it.
    pub bytes: u64,
}

/// The selection label for a server: its name.
pub fn display_server(server: &Server) -> (label: String)
    ensures
        label@ == server.name@,
{
    server.name.clone()
}

/// The selection label for a backup: its name and creation time.
pub fn display_backup(backup: &Backup) -> (label: String)
    ensures
        label@ == backup.name@ + " - "@ + backup.created_at@,
{
    backup.name.clone().concat(" - ").concat(backup.created_at.as_str())
}

/// The panel's base URL from what the user typed (already trimmed): the
/// default panel when the line was empty, otherwise the host under `https`.
pub fn panel_url(input: &str) -> (url: String)
    ensures
        input@.len() == 0 ==> url@ == "https://mc.bloom.host"@,
        input@.len() > 0 ==> url@ == "https://"@ + input@,
{
    if input.is_empty() {
        "https://mc.bloom.host".to_owned()
    } else {
        "https://".to_owned().concat(input)
    }
}

/// The endpoint listing the account's servers.
pub fn servers_endpoint(base: &str) -> (url: String)
    ensures
        url@ == base@ + "/api/client"@,
{
    base.to_owned().concat("/api/client")
}

/// The endpoint listing one server's backups.
pub fn backups_endpoint(base: &str, server_uuid: &str) -> (url: String)
    ensures
        url@ == base@ + "/api/client/servers/"@ + server_uuid@ + "/backups"@,
{
    base.to_owned().concat("/api/client/servers/").concat(server_uuid).concat("/backups")
}

/// The endpoint resolving a signed download link for one backup.
pub fn download_link_endpoint(base: &str, server_id: &str, backup_uuid: &str) -> (url: String)
    ensures
        url@ == base@ + "/api/client/servers/"@ + server_id@ + "/backups/"@ + backup_uuid@
            + "/download"@,
{
    base.to_owned().concat("/api/client/servers/").concat(server_id).concat("/backups/").concat(
        backup_uuid,
    ).concat("/download")
}

/// The value of the `Authorization` header for the panel's API.
pub fn bearer_token(api_key: &str) -> (header: String)
    ensures
        header@ == "Bearer "@ + api_key@,
{
    "Bearer ".to_owned().concat(api_key)
}

} // verus!
