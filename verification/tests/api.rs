use clumsy_loader::api::{
    backups_endpoint, bearer_token, display_backup, display_server, download_link_endpoint,
    panel_url, servers_endpoint, Backup, Server,
};

fn sample_server() -> Server {
    Server {
        identifier: "1a2b3c4d".to_string(),
        uuid: "1a2b3c4d-0000-4000-8000-123456789abc".to_string(),
        name: "Creative World".to_string(),
    }
}

fn sample_backup() -> Backup {
    Backup {
        uuid: "9f8e7d6c-0000-4000-8000-cba987654321".to_string(),
        name: "nightly".to_string(),
        created_at: "2024-05-01T03:00:00+00:00".to_string(),
        bytes: 123456789,
    }
}

#[test]
fn server_label_is_its_name() {
    assert_eq!(display_server(&sample_server()), "Creative World");
}

#[test]
fn backup_label_joins_name_and_date() {
    assert_eq!(display_backup(&sample_backup()), "nightly - 2024-05-01T03:00:00+00:00");
}

#[test]
fn empty_input_falls_back_to_the_default_panel() {
    assert_eq!(panel_url(""), "https://mc.bloom.host");
}

#[test]
fn nonempty_input_becomes_an_https_host() {
    assert_eq!(panel_url("panel.example.org"), "https://panel.example.org");
}

#[test]
fn servers_endpoint_path() {
    assert_eq!(servers_endpoint("https://mc.bloom.host"), "https://mc.bloom.host/api/client");
}

#[test]
fn backups_endpoint_path() {
    assert_eq!(
        backups_endpoint("https://mc.bloom.host", "1a2b3c4d-0000-4000-8000-123456789abc"),
        "https://mc.bloom.host/api/client/servers/1a2b3c4d-0000-4000-8000-123456789abc/backups"
    );
}

#[test]
fn download_link_endpoint_path() {
    assert_eq!(
        download_link_endpoint("https://mc.bloom.host", "1a2b3c4d", "9f8e7d6c"),
        "https://mc.bloom.host/api/client/servers/1a2b3c4d/backups/9f8e7d6c/download"
    );
}

#[test]
fn bearer_token_prefixes_the_key() {
    assert_eq!(bearer_token("ptlc_abc123"), "Bearer ptlc_abc123");
}
