use remix_fetch::json::{member_items, member_text, member_u64, parse_document};
use remix_fetch::listing::{
    artifacts_from_json, release_assets_from_json, resolve_artifact, resolve_release,
    successful_run_from_json, workflow_runs_from_json,
};
use remix_fetch::resolve::{
    artifact_download_url, select_artifact, select_release_asset, select_successful_run,
    CiArtifact, ReleaseAsset, ResolveError, WorkflowRun,
};
use remix_fetch::selection::{Architecture, BuildType};

fn asset(name: &str, url: &str) -> ReleaseAsset {
    ReleaseAsset { name: Some(name.to_string()), download_url: Some(url.to_string()) }
}

#[test]
fn stable_asset_fixture_picks_correct_entry() {
    let body = br#"{"tag_name":"v1","assets":[
        {"name":"remix-1.0-debug.zip","browser_download_url":"https://x/debug"},
        {"name":"remix-1.0-symbols-release.zip","browser_download_url":"https://x/symbols"},
        {"name":"remix-1.0-release.zip","browser_download_url":"https://x/release"},
        {"name":"remix-1.0-other-release.zip","browser_download_url":"https://x/other"}
    ]}"#;
    let a = resolve_release(body, BuildType::Release).unwrap();
    assert_eq!(a.display_name, "remix-1.0-release.zip");
    assert_eq!(a.download_url, "https://x/release");
}

#[test]
fn stable_asset_earlier_match_wins() {
    let assets = vec![
        asset("a-debugoptimized.zip", "u1"),
        asset("b-debugoptimized.zip", "u2"),
    ];
    let a = select_release_asset(&assets, BuildType::DebugOptimized).unwrap();
    assert_eq!(a.display_name, "a-debugoptimized.zip");
    assert_eq!(a.download_url, "u1");
}

#[test]
fn stable_asset_suffix_must_be_exact() {
    let assets = vec![
        asset("remix-release.zip.sha", "u0"),
        asset("remix-prerelease.zip", "u1"),
        asset("remix-debugoptimized.zip", "u2"),
    ];
    // "-debug.zip" is not a suffix of "-debugoptimized.zip"
    assert_eq!(
        select_release_asset(&assets, BuildType::Debug).unwrap_err(),
        ResolveError::NoSuitablePackage
    );
    assert_eq!(
        select_release_asset(&assets, BuildType::Release).unwrap_err(),
        ResolveError::NoSuitablePackage
    );
}

#[test]
fn stable_asset_errors() {
    assert_eq!(
        resolve_release(b"not json", BuildType::Release).unwrap_err(),
        ResolveError::MalformedResponse
    );
    assert_eq!(
        resolve_release(br#"{"message":"rate limited"}"#, BuildType::Release).unwrap_err(),
        ResolveError::NoSuitablePackage
    );
    assert_eq!(
        resolve_release(br#"{"assets":[{"name":"r-release.zip"}]}"#, BuildType::Release)
            .unwrap_err(),
        ResolveError::MissingDownloadUrl
    );
    let unnamed = vec![ReleaseAsset { name: None, download_url: Some("u".to_string()) }];
    assert_eq!(
        select_release_asset(&unnamed, BuildType::Release).unwrap_err(),
        ResolveError::NoSuitablePackage
    );
}

#[test]
fn first_successful_run_by_list_order() {
    let body = br#"{"workflow_runs":[
        {"conclusion":"failure","created_at":"2024-03-01T00:00:00Z","artifacts_url":"https://x/1"},
        {"conclusion":null,"created_at":"2024-03-05T00:00:00Z","artifacts_url":"https://x/2"},
        {"conclusion":"success","created_at":"2024-01-01T00:00:00Z","artifacts_url":"https://x/older"},
        {"conclusion":"success","created_at":"2024-06-01T00:00:00Z","artifacts_url":"https://x/newer"}
    ]}"#;
    assert_eq!(successful_run_from_json(body).unwrap(), "https://x/older");
    let runs = workflow_runs_from_json(body).unwrap();
    assert_eq!(runs.len(), 4);
    assert_eq!(select_successful_run(&runs).unwrap(), "https://x/older");
}

#[test]
fn run_selection_errors() {
    let none = br#"{"workflow_runs":[{"conclusion":"failure","artifacts_url":"u"}]}"#;
    assert_eq!(successful_run_from_json(none).unwrap_err(), ResolveError::NoSuccessfulRun);
    assert_eq!(successful_run_from_json(b"{").unwrap_err(), ResolveError::MalformedResponse);
    let no_url = vec![WorkflowRun { conclusion: Some("success".to_string()), artifacts_url: None }];
    assert_eq!(select_successful_run(&no_url).unwrap_err(), ResolveError::NoSuccessfulRun);
    let case = vec![WorkflowRun {
        conclusion: Some("Success".to_string()),
        artifacts_url: Some("u".to_string()),
    }];
    assert_eq!(select_successful_run(&case).unwrap_err(), ResolveError::NoSuccessfulRun);
}

#[test]
fn artifact_url_from_id() {
    assert_eq!(
        artifact_download_url(1234567890),
        "https://nightly.link/NVIDIAGameWorks/dxvk-remix/actions/artifacts/1234567890.zip"
    );
    assert_eq!(
        artifact_download_url(0),
        "https://nightly.link/NVIDIAGameWorks/dxvk-remix/actions/artifacts/0.zip"
    );
}

#[test]
fn unified_x86_artifact_selection() {
    let body = br#"{"artifacts":[
        {"name":"rtx-remix-x64-release","id":11},
        {"name":"rtx-remix-for-x86-games-debug","id":12},
        {"name":"rtx-remix-for-x86-games-release","id":13},
        {"name":"rtx-remix-for-x86-games-release-2","id":14}
    ]}"#;
    let a = resolve_artifact(body, BuildType::Release, Architecture::X86).unwrap();
    assert_eq!(a.display_name, "rtx-remix-for-x86-games-release");
    assert_eq!(
        a.download_url,
        "https://nightly.link/NVIDIAGameWorks/dxvk-remix/actions/artifacts/13.zip"
    );
}

#[test]
fn x64_artifact_selection() {
    let body = br#"{"artifacts":[
        {"name":"rtx-remix-for-x86-games-release","id":1},
        {"name":"dxvk-remix-release-symbols","id":2},
        {"name":"dxvk-remix-release","id":3}
    ]}"#;
    let list = artifacts_from_json(body).unwrap();
    assert_eq!(list.len(), 3);
    assert_eq!(list[2].id, Some(3));
    let a = select_artifact(&list, BuildType::Release, Architecture::X64).unwrap();
    assert_eq!(a.display_name, "dxvk-remix-release");
    assert_eq!(
        a.download_url,
        "https://nightly.link/NVIDIAGameWorks/dxvk-remix/actions/artifacts/3.zip"
    );
}

#[test]
fn artifact_errors() {
    let body = br#"{"artifacts":[{"name":"dxvk-remix-debug","id":5}]}"#;
    assert_eq!(
        resolve_artifact(body, BuildType::Release, Architecture::X64).unwrap_err(),
        ResolveError::NoMatchingArtifact
    );
    let no_id = br#"{"artifacts":[{"name":"dxvk-remix-release","id":"x"}]}"#;
    assert_eq!(
        resolve_artifact(no_id, BuildType::Release, Architecture::X64).unwrap_err(),
        ResolveError::MissingArtifactId
    );
    assert_eq!(
        resolve_artifact(b"[", BuildType::Release, Architecture::X86).unwrap_err(),
        ResolveError::MalformedResponse
    );
    let missing = vec![CiArtifact { name: None, id: Some(1) }];
    assert_eq!(
        select_artifact(&missing, BuildType::Debug, Architecture::X86).unwrap_err(),
        ResolveError::NoMatchingArtifact
    );
}

#[test]
fn json_documents_and_members() {
    let body = br#"{"b":[1,{"x":"y"}],"a":"text","n":42,"neg":-3,"f":1.5,"t":true,"z":null}"#;
    let doc = parse_document(body).unwrap();
    assert_eq!(member_text(&doc, "a"), Some("text".to_string()));
    assert_eq!(member_text(&doc, "n"), None);
    assert_eq!(member_text(&doc, "missing"), None);
    assert_eq!(member_u64(&doc, "n"), Some(42));
    assert_eq!(member_u64(&doc, "neg"), None);
    assert_eq!(member_u64(&doc, "f"), None);
    assert_eq!(member_u64(&doc, "a"), None);
    let items = member_items(&doc, "b").unwrap();
    assert_eq!(items.len(), 2);
    assert_eq!(member_text(&items[1], "x"), Some("y".to_string()));
    assert!(member_items(&doc, "a").is_none());
    assert!(parse_document(b"{\"a\":").is_none());
    assert!(parse_document(b"").is_none());
    let top = parse_document(b"[1,2]").unwrap();
    assert_eq!(member_text(&top, "a"), None);
}

#[test]
fn listing_readers_keep_order_and_fields() {
    let body = br#"{"assets":[
        {"name":"one","browser_download_url":"u1"},
        {"name":7},
        {"browser_download_url":"u3"}
    ]}"#;
    let assets = release_assets_from_json(body).unwrap();
    assert_eq!(assets.len(), 3);
    assert_eq!(assets[0].name.as_deref(), Some("one"));
    assert_eq!(assets[0].download_url.as_deref(), Some("u1"));
    assert_eq!(assets[1].name, None);
    assert_eq!(assets[2].download_url.as_deref(), Some("u3"));
    assert!(release_assets_from_json(br#"{"assets":"none"}"#).unwrap().is_empty());
    assert_eq!(
        release_assets_from_json(b"nope").unwrap_err(),
        ResolveError::MalformedResponse
    );
    assert_eq!(workflow_runs_from_json(b"]").unwrap_err(), ResolveError::MalformedResponse);
    assert_eq!(artifacts_from_json(b"x").unwrap_err(), ResolveError::MalformedResponse);
}
