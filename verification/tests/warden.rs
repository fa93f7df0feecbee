use stakpak::warden::{stakpak_agent_default_mounts, WardenConfig};

#[test]
fn default_mounts_cover_credentials_and_workdir() {
    let mounts = stakpak_agent_default_mounts();
    assert_eq!(mounts.len(), 27);
    assert_eq!(mounts[0], "~/.stakpak/config.toml:/home/agent/.stakpak/config.toml:ro");
    assert!(mounts.contains(&"./:/agent:ro".to_string()));
    assert_eq!(mounts[26], "stakpak-aqua-cache:/home/agent/.local/share/aquaproj-aqua");
    for m in &mounts {
        let parts: Vec<&str> = m.split(':').collect();
        assert!(parts.len() == 2 || (parts.len() == 3 && parts[2] == "ro"), "{}", m);
        assert!(parts[1].starts_with('/'), "{}", m);
    }
}

#[test]
fn readonly_profile_uses_default_mounts() {
    let config = WardenConfig::readonly_profile();
    assert!(config.enabled);
    assert_eq!(config.volumes, stakpak_agent_default_mounts());
}

#[test]
fn default_mounts_have_distinct_sources_and_targets() {
    let mounts = stakpak_agent_default_mounts();
    let sources: std::collections::HashSet<&str> = mounts.iter().map(|m| m.split(':').next().unwrap()).collect();
    let targets: std::collections::HashSet<&str> = mounts.iter().map(|m| m.split(':').nth(1).unwrap()).collect();
    assert_eq!(sources.len(), mounts.len());
    assert_eq!(targets.len(), mounts.len());
}

#[test]
fn home_sources_mount_under_agent_home() {
    for m in stakpak_agent_default_mounts() {
        let parts: Vec<&str> = m.split(':').collect();
        match parts[0] {
            "./" => assert_eq!(parts[1], "/agent"),
            "./.stakpak" => assert_eq!(parts[1], "/agent/.stakpak"),
            "stakpak-aqua-cache" => {}
            source => {
                let rest = source.strip_prefix("~/").expect("home source");
                assert_eq!(parts[1], format!("/home/agent/{}", rest));
            }
        }
    }
}

#[test]
fn exactly_eleven_mounts_are_writable() {
    let writable: Vec<String> = stakpak_agent_default_mounts()
        .into_iter()
        .filter(|m| !m.ends_with(":ro"))
        .map(|m| m.split(':').next().unwrap().to_string())
        .collect();
    assert_eq!(
        writable,
        vec![
            "~/.stakpak/data/local.db",
            "~/.agent-board/data.db",
            "./.stakpak",
            "~/.aws/sso",
            "~/.aws/cli",
            "~/.config/gcloud/logs",
            "~/.config/gcloud/cache",
            "~/.azure/msal_token_cache.json",
            "~/.azure/msal_http_cache.bin",
            "~/.azure/logs",
            "stakpak-aqua-cache",
        ]
    );
}
