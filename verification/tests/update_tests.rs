use dhcp_monitor::update::{evaluate_release, GitHubAsset, GitHubRelease, Platform, UpdateInfo};

fn asset(name: &str, url: &str) -> GitHubAsset {
    GitHubAsset { name: name.to_string(), browser_download_url: url.to_string(), size: 1000 }
}

fn release(tag: &str, assets: Vec<GitHubAsset>) -> GitHubRelease {
    GitHubRelease {
        tag_name: tag.to_string(),
        name: "A release".to_string(),
        body: "Notes".to_string(),
        html_url: "https://example.invalid/release".to_string(),
        published_at: "2024-01-01T00:00:00Z".to_string(),
        assets,
    }
}

#[test]
fn equal_versions_mean_no_update() {
    let r: UpdateInfo = evaluate_release("1.2.3", release("v1.2.3", vec![]), Platform::Linux);
    assert!(!r.has_update);
    assert_eq!(r.current_version, "1.2.3");
    assert_eq!(r.latest_version.as_deref(), Some("1.2.3"));
    assert!(r.download_url.is_none());
    assert_eq!(r.release_info.unwrap().tag_name, "v1.2.3");
}

#[test]
fn different_versions_mean_update() {
    let r = evaluate_release("1.2.3", release("v1.3.0", vec![]), Platform::Linux);
    assert!(r.has_update);
    assert_eq!(r.latest_version.as_deref(), Some("1.3.0"));
}

#[test]
fn every_leading_v_is_trimmed() {
    let r = evaluate_release("vv2.0", release("v2.0", vec![]), Platform::Linux);
    assert_eq!(r.current_version, "2.0");
    assert_eq!(r.latest_version.as_deref(), Some("2.0"));
    assert!(!r.has_update);
}

#[test]
fn platform_picks_its_installer_asset() {
    let assets = vec![
        asset("tool-setup.exe", "https://example.invalid/w"),
        asset("tool.AppImage", "https://example.invalid/l"),
        asset("tool.dmg", "https://example.invalid/m"),
    ];
    let w = evaluate_release("1.0", release("2.0", assets.clone()), Platform::Windows);
    assert_eq!(w.download_url.as_deref(), Some("https://example.invalid/w"));
    let l = evaluate_release("1.0", release("2.0", assets.clone()), Platform::Linux);
    assert_eq!(l.download_url.as_deref(), Some("https://example.invalid/l"));
    let m = evaluate_release("1.0", release("2.0", assets), Platform::MacOs);
    assert_eq!(m.download_url.as_deref(), Some("https://example.invalid/m"));
}

#[test]
fn first_matching_asset_wins() {
    let assets = vec![
        asset("alpha.exe", "https://example.invalid/1"),
        asset("beta.exe", "https://example.invalid/2"),
    ];
    let r = evaluate_release("1.0", release("2.0", assets), Platform::Windows);
    assert_eq!(r.download_url.as_deref(), Some("https://example.invalid/1"));
}

#[test]
fn no_matching_asset_means_no_download() {
    let assets = vec![asset("source.tar.gz", "https://example.invalid/s")];
    let r = evaluate_release("1.0", release("2.0", assets), Platform::MacOs);
    assert!(r.download_url.is_none());
}
