use remix_fetch::cleanup::{debug_file_positions, is_debug_file_name};
use remix_fetch::display::{clickable_path, display_path};
use remix_fetch::manifest::manifest_text;
use remix_fetch::reorganize::{
    plan_x64_reorganization, stray_root_file, PackageLayout, ReorgError, ReorgStep,
};

fn strings(names: &[&str]) -> Vec<String> {
    names.iter().map(|n| n.to_string()).collect()
}

#[test]
fn debug_file_names() {
    assert!(is_debug_file_name("d3d9.pdb"));
    assert!(is_debug_file_name("CRC.txt"));
    assert!(is_debug_file_name("artifacts_readme.txt"));
    assert!(!is_debug_file_name(".pdb"));
    assert!(is_debug_file_name("..pdb"));
    assert!(!is_debug_file_name("d3d9.pdb.bak"));
    assert!(!is_debug_file_name("crc.txt"));
    assert!(!is_debug_file_name("d3d9.dll"));
}

#[test]
fn debug_cleanup_is_idempotent() {
    let names = strings(&["a.dll", "a.pdb", "CRC.txt", "b.ini", "sub.pdb", "artifacts_readme.txt"]);
    let first = debug_file_positions(&names);
    assert_eq!(first, vec![1, 2, 4, 5]);
    let kept: Vec<String> = names
        .iter()
        .enumerate()
        .filter(|(i, _)| !first.contains(i))
        .map(|(_, n)| n.clone())
        .collect();
    assert_eq!(kept, strings(&["a.dll", "b.ini"]));
    assert!(debug_file_positions(&kept).is_empty());
    assert!(debug_file_positions(&Vec::new()).is_empty());
}

#[test]
fn manifest_round_trip() {
    let names = strings(&["rtx-remix-1.0-release.zip", "dxvk-remix-release", ""]);
    let text = manifest_text(&names);
    assert_eq!(text, "rtx-remix-1.0-release.zip\ndxvk-remix-release\n\n");
    let lines: Vec<&str> = text.lines().collect();
    assert_eq!(lines.len(), 3);
    assert_eq!(lines, vec!["rtx-remix-1.0-release.zip", "dxvk-remix-release", ""]);
    assert_eq!(manifest_text(&Vec::new()), "");
}

#[test]
fn x64_reorganization_scenario() {
    let layout = PackageLayout {
        nested_dir_present: true,
        root_marker_present: false,
        nested_files: strings(&["nvremixbridge.exe", "d3d9.dll", "dxvk.conf"]),
        nested_usd_present: true,
    };
    let steps = plan_x64_reorganization(&layout).unwrap();
    assert_eq!(
        steps,
        vec![
            ReorgStep::RemoveNestedBridge,
            ReorgStep::MoveNestedFile(1),
            ReorgStep::MoveNestedFile(2),
            ReorgStep::ReplaceRootUsd,
            ReorgStep::RemoveNestedDir,
            ReorgStep::RemoveRootFile(0),
            ReorgStep::RemoveRootFile(1),
            ReorgStep::RemoveRootFile(2),
            ReorgStep::RemoveRootFile(3),
            ReorgStep::RemoveRootFile(4),
            ReorgStep::RemoveRootFile(5),
        ]
    );
}

#[test]
fn x64_reorganization_flat_package() {
    let layout = PackageLayout {
        nested_dir_present: false,
        root_marker_present: true,
        nested_files: Vec::new(),
        nested_usd_present: false,
    };
    let steps = plan_x64_reorganization(&layout).unwrap();
    assert_eq!(steps.len(), 6);
    assert_eq!(steps[0], ReorgStep::RemoveRootFile(0));
    assert_eq!(stray_root_file(0), "nvremixbridge.exe");
    assert_eq!(stray_root_file(3), "d3d8_off.dll");
    assert_eq!(stray_root_file(5), "dxwrapper.ini");
}

#[test]
fn x64_reorganization_missing_prerequisite() {
    let layout = PackageLayout {
        nested_dir_present: false,
        root_marker_present: false,
        nested_files: strings(&["d3d9.dll"]),
        nested_usd_present: true,
    };
    assert_eq!(plan_x64_reorganization(&layout).unwrap_err(), ReorgError::MissingStructure);
}

#[test]
fn path_display() {
    assert_eq!(display_path("\\\\?\\C:\\games\\remix"), "C:\\games\\remix");
    assert_eq!(display_path("/home/u/remix"), "/home/u/remix");
    assert_eq!(display_path("\\\\?\\\\?\\x"), "\\?\\x");
    assert_eq!(
        clickable_path("\\\\?\\C:\\remix"),
        "\x1B]8;;file://C:\\remix\x07C:\\remix\x1B]8;;\x07"
    );
}
