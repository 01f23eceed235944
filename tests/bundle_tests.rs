use bundler::archive::{entry_name, plan_extraction, plan_packing, ArchiveItem, WalkEntry};
use bundler::bundle::{
    bundle_file_name, clear_outcome, next_stage, skeleton_dirs, target_dir, Removal, Stage, Target,
};
use bundler::error::{Arch, BundleError};
use bundler::layout::{
    contains_text, find_first_with, payload_repo, select_launcher_assets, select_single_asset,
    LauncherPick,
};
use bundler::parser::{BundleSettings, RepoSpec};
use bundler::readme::{
    decimal_text, readme_parameters, readme_text, signed_decimal_text, readme_for_today, CalendarDay,
};
use bundler::unpack::read_archive;
use std::io::{Cursor, Write};

fn strings(v: &[&str]) -> Vec<String> {
    v.iter().map(|s| s.to_string()).collect()
}

fn walk(path: &[&str], is_dir: bool) -> WalkEntry {
    WalkEntry { path: Some(strings(path)), is_dir }
}

#[test]
fn parse_accepts_one_separator() {
    let r = RepoSpec::parse("AndrasteFramework/Payload.Generic").unwrap();
    assert_eq!(r.organisation, "AndrasteFramework");
    assert_eq!(r.repository, "Payload.Generic");
    let e = RepoSpec::parse("a/").unwrap();
    assert_eq!(e.organisation, "a");
    assert_eq!(e.repository, "");
}

#[test]
fn parse_rejects_other_separator_counts() {
    assert!(RepoSpec::parse("noslash").is_err());
    assert!(RepoSpec::parse("a/b/c").is_err());
    assert!(RepoSpec::parse("").is_err());
    assert!(RepoSpec::parse("//").is_err());
}

#[test]
fn from_str_matches_parse() {
    let r: RepoSpec = "org/repo".parse().unwrap();
    assert_eq!(r.organisation, "org");
    assert_eq!(r.repository, "repo");
    assert!("x".parse::<RepoSpec>().is_err());
}

#[test]
fn new_keeps_fields() {
    let r = RepoSpec::new("o", "r");
    assert_eq!(r.organisation, "o");
    assert_eq!(r.repository, "r");
}

#[test]
fn launcher_assets_by_marker_in_order() {
    let names = strings(&["launcher-x64.zip", "launcher-x86.zip"]);
    assert_eq!(select_launcher_assets(&names), Ok(LauncherPick { x64: 0, x86: 1 }));
}

#[test]
fn launcher_assets_by_marker_reversed() {
    let names = strings(&["launcher-x86.zip", "launcher-x64.zip"]);
    assert_eq!(select_launcher_assets(&names), Ok(LauncherPick { x64: 1, x86: 0 }));
}

#[test]
fn launcher_single_asset_is_refused() {
    let names = strings(&["launcher-x64.zip"]);
    assert_eq!(
        select_launcher_assets(&names),
        Err(BundleError::UnexpectedAssetCount { expected: 2, found: 1 })
    );
}

#[test]
fn launcher_missing_architecture() {
    let names = strings(&["a.zip", "b-x86.zip"]);
    assert_eq!(
        select_launcher_assets(&names),
        Err(BundleError::AssetNotFound { arch: Arch::X64 })
    );
    let names = strings(&["a-x64.zip", "b-x64.zip"]);
    assert_eq!(
        select_launcher_assets(&names),
        Err(BundleError::AssetNotFound { arch: Arch::X86 })
    );
}

#[test]
fn launcher_first_match_wins() {
    let names = strings(&["x64-x86.zip", "other-x86.zip"]);
    assert_eq!(select_launcher_assets(&names), Ok(LauncherPick { x64: 0, x86: 0 }));
}

#[test]
fn single_asset_counts() {
    assert_eq!(select_single_asset(&strings(&["ui.zip"])), Ok(0));
    assert_eq!(
        select_single_asset(&strings(&[])),
        Err(BundleError::UnexpectedAssetCount { expected: 1, found: 0 })
    );
    assert_eq!(
        select_single_asset(&strings(&["a", "b"])),
        Err(BundleError::UnexpectedAssetCount { expected: 1, found: 2 })
    );
}

#[test]
fn substring_search() {
    assert!(contains_text("launcher-x64.zip", "x64"));
    assert!(!contains_text("launcher-x86.zip", "x64"));
    assert!(contains_text("abc", ""));
    assert!(!contains_text("x6", "x64"));
    assert_eq!(find_first_with(&strings(&["a", "bx", "cx"]), "x"), Some(1));
    assert_eq!(find_first_with(&strings(&["a"]), "x"), None);
}

#[test]
fn payload_repo_default_and_override() {
    let mut s = BundleSettings { version: "1.0".to_string(), framework_repo: None, readme_template_path: None };
    let d = payload_repo(&s);
    assert_eq!(d.organisation, "AndrasteFramework");
    assert_eq!(d.repository, "Payload.Generic");
    s.framework_repo = Some(RepoSpec::new("me", "mine"));
    let o = payload_repo(&s);
    assert_eq!(o.organisation, "me");
    assert_eq!(o.repository, "mine");
}

#[test]
fn entry_names_use_forward_slashes() {
    assert_eq!(entry_name(&strings(&["a", "b.txt"])), "a/b.txt");
    assert_eq!(entry_name(&strings(&["a\\b", "c"])), "a/b/c");
    assert_eq!(entry_name(&strings(&[])), "");
}

#[test]
fn packing_puts_directories_first_and_skips_root() {
    let entries = vec![
        walk(&[], true),
        walk(&["a"], true),
        walk(&["a", "f.txt"], false),
        walk(&["top.txt"], false),
        walk(&["b"], true),
    ];
    let plan = plan_packing(&entries).unwrap();
    let got: Vec<(String, bool, usize)> =
        plan.iter().map(|e| (e.name.clone(), e.is_dir, e.source)).collect();
    assert_eq!(
        got,
        vec![
            ("a".to_string(), true, 1),
            ("b".to_string(), true, 4),
            ("a/f.txt".to_string(), false, 2),
            ("top.txt".to_string(), false, 3),
        ]
    );
}

#[test]
fn packing_root_and_one_file() {
    let entries = vec![walk(&[], true), walk(&["notes.txt"], false)];
    let plan = plan_packing(&entries).unwrap();
    assert_eq!(plan.len(), 1);
    assert_eq!(plan[0].name, "notes.txt");
    assert!(!plan[0].is_dir);
}

#[test]
fn packing_fails_on_untextual_path() {
    let entries = vec![walk(&["ok"], false), WalkEntry { path: None, is_dir: false }];
    assert_eq!(plan_packing(&entries).unwrap_err(), BundleError::InvalidPathEncoding);
}

#[test]
fn extraction_creates_parents_and_skips_unsafe() {
    let prefix = strings(&["out"]);
    let items = vec![
        ArchiveItem { path: Some(strings(&["d"])), is_dir: true },
        ArchiveItem { path: None, is_dir: false },
        ArchiveItem { path: Some(strings(&["d", "e", "f.txt"])), is_dir: false },
    ];
    let steps = plan_extraction(&prefix, &items);
    assert_eq!(steps.len(), 2);
    assert_eq!(steps[0].dir, strings(&["out", "d"]));
    assert_eq!(steps[0].file, None);
    assert_eq!(steps[0].source, 0);
    assert_eq!(steps[1].dir, strings(&["out", "d", "e"]));
    assert_eq!(steps[1].file, Some(strings(&["out", "d", "e", "f.txt"])));
    assert_eq!(steps[1].source, 2);
}

#[test]
fn payload_lands_under_both_framework_targets() {
    let items = vec![ArchiveItem { path: Some(strings(&["a", "b.txt"])), is_dir: false }];
    let x86 = plan_extraction(&target_dir(Target::Framework(Arch::X86)), &items);
    let x64 = plan_extraction(&target_dir(Target::Framework(Arch::X64)), &items);
    assert_eq!(x86[0].file, Some(strings(&["out", "GenericFramework", "x86", "a", "b.txt"])));
    assert_eq!(x64[0].file, Some(strings(&["out", "GenericFramework", "x64", "a", "b.txt"])));
}

#[test]
fn layout_paths() {
    assert_eq!(target_dir(Target::BundleRoot), strings(&["out"]));
    let s = skeleton_dirs();
    assert_eq!(s, vec![strings(&["out"]), strings(&["out", "GenericFramework"])]);
    assert_eq!(bundle_file_name("1.2.3"), "AndrasteBundle-1.2.3.zip");
}

#[test]
fn clear_twice_succeeds() {
    assert_eq!(clear_outcome(Removal::Removed), Ok(()));
    assert_eq!(clear_outcome(Removal::NotFound), Ok(()));
    assert_eq!(clear_outcome(Removal::Failed), Err(BundleError::Filesystem));
}

#[test]
fn stages_advance_and_abort() {
    assert_eq!(next_stage(Stage::Init, Ok(())), Stage::Fetching);
    assert_eq!(next_stage(Stage::Fetching, Ok(())), Stage::Packaging);
    assert_eq!(next_stage(Stage::Packaging, Ok(())), Stage::Done);
    assert_eq!(next_stage(Stage::Fetching, Err(BundleError::RemoteFailure)), Stage::Failed);
    assert_eq!(next_stage(Stage::Packaging, Err(BundleError::Filesystem)), Stage::Failed);
}

#[test]
fn decimals() {
    assert_eq!(decimal_text(0), "0");
    assert_eq!(decimal_text(4096), "4096");
    assert_eq!(decimal_text(u32::MAX), "4294967295");
    assert_eq!(signed_decimal_text(-12), "-12");
    assert_eq!(signed_decimal_text(i32::MIN), "-2147483648");
    assert_eq!(signed_decimal_text(2024), "2024");
}

#[test]
fn readme_fills_parameters() {
    let day = CalendarDay { year: 2024, month0: 0, day0: 9 };
    let params = readme_parameters("v1", day);
    assert_eq!(
        params,
        vec![
            ("RELEASE".to_string(), "v1".to_string()),
            ("YEAR".to_string(), "2024".to_string()),
            ("MONTH".to_string(), "0".to_string()),
            ("DAY".to_string(), "9".to_string()),
        ]
    );
    let text = readme_text("Release ${RELEASE} of ${YEAR}-${MONTH}-${DAY}", "v1", day).unwrap();
    assert_eq!(text, "Release v1 of 2024-0-9");
}

#[test]
fn pack_then_extract_round_trip() {
    let entries = vec![
        walk(&[], true),
        walk(&["a"], true),
        walk(&["a", "b.txt"], false),
        walk(&["notes.txt"], false),
    ];
    let contents: Vec<Vec<u8>> = vec![vec![], vec![], b"inner".to_vec(), b"top".to_vec()];
    let plan = plan_packing(&entries).unwrap();
    let mut writer = zip::ZipWriter::new(Cursor::new(Vec::new()));
    let options = zip::write::SimpleFileOptions::default()
        .compression_method(zip::CompressionMethod::Deflated)
        .compression_level(Some(9));
    for e in &plan {
        if e.is_dir {
            writer.add_directory(e.name.as_str(), options).unwrap();
        } else {
            writer.start_file(e.name.as_str(), options).unwrap();
            writer.write_all(&contents[e.source]).unwrap();
        }
    }
    let bytes = writer.finish().unwrap().into_inner();

    let read = read_archive(bytes).unwrap();
    let items = read.items;
    let data = read.data;
    let steps = plan_extraction(&strings(&["dest"]), &items);
    let mut files: Vec<(Vec<String>, Vec<u8>)> = steps
        .iter()
        .filter_map(|s| s.file.clone().map(|f| (f, data[s.source].clone())))
        .collect();
    files.sort();
    assert_eq!(
        files,
        vec![
            (strings(&["dest", "a", "b.txt"]), b"inner".to_vec()),
            (strings(&["dest", "notes.txt"]), b"top".to_vec()),
        ]
    );
    let dirs: Vec<Vec<String>> = steps.iter().filter(|s| s.file.is_none()).map(|s| s.dir.clone()).collect();
    assert_eq!(dirs, vec![strings(&["dest", "a"])]);
}

#[test]
fn today_is_a_calendar_day() {
    let text = readme_for_today("${RELEASE}|${YEAR}|${MONTH}|${DAY}", "v2").unwrap();
    let parts: Vec<&str> = text.split('|').collect();
    assert_eq!(parts[0], "v2");
    assert!(parts[1].parse::<i32>().unwrap() >= 2000);
    assert!(parts[2].parse::<u32>().unwrap() < 12);
    assert!(parts[3].parse::<u32>().unwrap() < 31);
}

#[test]
fn corrupt_bytes_are_refused() {
    assert_eq!(read_archive(b"not an archive".to_vec()).err(), Some(BundleError::ArchiveCorrupt));
}

#[test]
fn wide_whitespace_template_is_refused() {
    let day = CalendarDay { year: 2024, month0: 1, day0: 2 };
    assert_eq!(
        readme_text("${\u{a0}RELEASE}", "v1", day),
        Err(BundleError::UnsupportedTemplate)
    );
    assert_eq!(readme_for_today("a\u{3000}b", "v1"), Err(BundleError::UnsupportedTemplate));
    assert_eq!(readme_text("caf\u{e9} ${ RELEASE }", "v1", day), Ok("caf\u{e9}  v1 ".to_string()));
}

#[test]
fn archive_entries_are_read_back_in_order() {
    let mut writer = zip::ZipWriter::new(Cursor::new(Vec::new()));
    let options = zip::write::SimpleFileOptions::default();
    writer.add_directory("d", options).unwrap();
    writer.start_file("d/x.bin", options).unwrap();
    writer.write_all(&[1, 2, 3]).unwrap();
    writer.start_file("../escape.txt", options).unwrap();
    writer.write_all(b"no").unwrap();
    let bytes = writer.finish().unwrap().into_inner();
    let read = read_archive(bytes).unwrap();
    assert_eq!(read.items.len(), 3);
    assert_eq!(read.items[0].path, Some(strings(&["d"])));
    assert!(read.items[0].is_dir);
    assert_eq!(read.items[1].path, Some(strings(&["d", "x.bin"])));
    assert_eq!(read.data[1], vec![1, 2, 3]);
    assert_eq!(read.items[2].path, None);
}
