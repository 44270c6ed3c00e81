//! Release evaluation for the update checker: given the release record the
//! HTTP collaborator fetched, decide whether an update exists and which asset
//! fits the running platform. The fetch itself is the collaborator's.

use vstd::prelude::*;

use crate::text::{contains_seq, contains_str, spec_trim_leading_v, str_eq, trim_leading_v};

verus! {

/// One downloadable file attached to a release.
#[derive(Clone, Debug)]
pub struct GitHubAsset {
    pub name: String,
    pub browser_download_url: String,
    pub size: u64,
}

/// The mathematical value of an asset.
pub struct AssetModel {
    pub name: Seq<char>,
    pub browser_download_url: Seq<char>,
    pub size: u64,
}

impl View for GitHubAsset {
    type V = AssetModel;

    open spec fn view(&self) -> AssetModel {
        AssetModel {
            name: self.name@,
            browser_download_url: self.browser_download_url@,
            size: self.size,
        }
    }
}

impl DeepView for GitHubAsset {
    type V = AssetModel;

    open spec fn deep_view(&self) -> AssetModel {
        self.view()
    }
}

/// One published release as the HTTP collaborator reports it.
#[derive(Clone, Debug)]
pub struct GitHubRelease {
    pub tag_name: String,
    pub name: String,
    pub body: String,
    pub html_url: String,
    pub published_at: String,
    pub assets: Vec<GitHubAsset>,
}

/// What the update check answers.
#[derive(Clone, Debug)]
pub struct UpdateInfo {
    pub current_version: String,
    pub latest_version: Option<String>,
    pub has_update: bool,
    pub release_info: Option<GitHubRelease>,
    pub download_url: Option<String>,
}

/// The platform whose installer asset is wanted.
#[derive(Clone, Copy, Debug, PartialEq, Eq, Structural)]
pub enum Platform {
    Windows,
    Linux,
    MacOs,
}

/// The file-name fragment that marks an asset as this platform's installer.
pub open spec fn spec_asset_pattern(p: Platform) -> Seq<char> {
    match p {
        Platform::Windows => ".exe"@,
        Platform::Linux => ".AppImage"@,
        Platform::MacOs => ".dmg"@,
    }
}

fn asset_pattern(p: Platform) -> (r: &'static str)
    ensures
        r@ == spec_asset_pattern(p),
{
    match p {
        Platform::Windows => ".exe",
        Platform::Linux => ".AppImage",
        Platform::MacOs => ".dmg",
    }
}

/// The download address of the first asset whose name holds the pattern, if
/// any.
pub open spec fn spec_download_url(assets: Seq<AssetModel>, pattern: Seq<char>) -> Option<
    Seq<char>,
>
    decreases assets.len(),
{
    if assets.len() == 0 {
        None
    } else if contains_seq(assets[0].name, pattern) {
        Some(assets[0].browser_download_url)
    } else {
        spec_download_url(assets.drop_first(), pattern)
    }
}

/// Decides from a fetched release whether an update exists: version tags are
/// compared after every leading 'v' is removed, an update is any difference,
/// and the download address is the first asset whose name carries the
/// platform's installer mark.
pub fn evaluate_release(current_version: &str, release: GitHubRelease, platform: Platform) -> (r:
    UpdateInfo)
    ensures
        r.current_version@ == spec_trim_leading_v(current_version@),
        r.latest_version matches Some(l) && l@ == spec_trim_leading_v(release.tag_name@),
        r.has_update == (spec_trim_leading_v(release.tag_name@) != spec_trim_leading_v(
            current_version@,
        )),
        r.release_info matches Some(rel) && rel == release,
        match spec_download_url(release.assets.deep_view(), spec_asset_pattern(platform)) {
            Some(u) => r.download_url matches Some(x) && x@ == u,
            None => r.download_url is None,
        },
{
    let latest = trim_leading_v(release.tag_name.as_str());
    let current = trim_leading_v(current_version);
    let has_update = !str_eq(latest.as_str(), current.as_str());
    let pattern = asset_pattern(platform);
    let n = release.assets.len();
    let ghost av = release.assets.deep_view();
    let mut download_url: Option<String> = None;
    let mut i: usize = 0;
    proof {
        assert(av.skip(0) =~= av);
    }
    while i < n
        invariant_except_break
            download_url is None,
        invariant
            n == release.assets@.len(),
            av == release.assets.deep_view(),
            i <= n,
            pattern@ == spec_asset_pattern(platform),
            spec_download_url(av, spec_asset_pattern(platform)) == spec_download_url(
                av.skip(i as int),
                spec_asset_pattern(platform),
            ),
        ensures
            match spec_download_url(av, spec_asset_pattern(platform)) {
                Some(u) => download_url matches Some(x) && x@ == u,
                None => download_url is None,
            },
        decreases n - i,
    {
        proof {
            assert(av[i as int] == release.assets@[i as int]@);
            assert(av.skip(i as int)[0] == av[i as int]);
            assert(av.skip(i as int).drop_first() =~= av.skip(i as int + 1));
        }
        if contains_str(release.assets[i].name.as_str(), pattern) {
            download_url = Some(release.assets[i].browser_download_url.clone());
            proof {
                assert(spec_download_url(av.skip(i as int), spec_asset_pattern(platform))
                    == Some(av[i as int].browser_download_url));
            }
            break;
        }
        i = i + 1;
    }
    proof {
        if i >= n && download_url is None {
            assert(av.skip(n as int) =~= Seq::<AssetModel>::empty());
        }
    }
    UpdateInfo {
        current_version: current,
        latest_version: Some(latest),
        has_update,
        release_info: Some(release),
        download_url,
    }
}

} // verus!
