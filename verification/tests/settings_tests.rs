use hachimi_core::hachimi::{
    language_for_locale, updater_enabled, AssetInfo, AssetMetadata, Language, OsOption, TLAutoUpdaterMode,
    UpdaterSchedule, UpdaterStep,
};
use hachimi_core::tl_repo::{
    file_update_check, is_github_hosted, is_gitlab_hosted, is_unsafe_path, plan_update, should_use_zip_download,
    zip_progress_total, FileCheck, Region, RepoFile, RepoInfo, UpdateProgress,
};

#[test]
fn language_tags_and_names() {
    assert_eq!(Language::English.locale_str(), "en");
    assert_eq!(Language::TChinese.locale_str(), "zh-tw");
    assert_eq!(Language::BPortuguese.locale_str(), "pt-br");
    assert_eq!(Language::Filipino.locale_str(), "fil");
    assert_eq!(Language::SChinese.name(), "简体中文");
    assert_eq!(Language::Spanish.choice(), (Language::Spanish, "Español (ES)"));
    let choices = Language::choices();
    assert_eq!(choices.len(), 8);
    assert_eq!(choices[0], (Language::English, "English"));
    assert_eq!(choices[7], (Language::Filipino, "Filipino"));
}

#[test]
fn language_from_system_locale() {
    assert_eq!(language_for_locale("zh-Hant-TW"), Language::TChinese);
    assert_eq!(language_for_locale("zh-HK"), Language::TChinese);
    assert_eq!(language_for_locale("zh_CN"), Language::SChinese);
    assert_eq!(language_for_locale("vi_VN"), Language::Vietnamese);
    assert_eq!(language_for_locale("id-ID"), Language::Indonesian);
    assert_eq!(language_for_locale("es-MX"), Language::Spanish);
    assert_eq!(language_for_locale("pt-BR"), Language::BPortuguese);
    assert_eq!(language_for_locale("pt-PT"), Language::English);
    assert_eq!(language_for_locale("fil-PH"), Language::Filipino);
    assert_eq!(language_for_locale("de-DE"), Language::English);
}

#[test]
fn platform_options_and_assets() {
    let some = OsOption { value: Some(3) };
    assert_eq!(some.as_ref(), Some(&3));
    let none: OsOption<i32> = OsOption { value: None };
    assert_eq!(none.as_ref(), None);
    let info: AssetInfo<u8> = AssetInfo {
        platform_metadata: AssetMetadata { bundle_name: Some("b".to_string()) },
        data: Some(1),
    };
    assert_eq!(info.metadata_ref().bundle_name.as_deref(), Some("b"));
    assert_eq!(info.metadata().bundle_name, Some("b".to_string()));
    let empty: AssetInfo<u8> = AssetInfo::default();
    assert!(empty.data.is_none());
    assert!(empty.metadata().bundle_name.is_none());
    assert_eq!(TLAutoUpdaterMode::default(), TLAutoUpdaterMode::Disabled);
}

#[test]
fn updater_runs_only_when_configured() {
    assert!(!updater_enabled(TLAutoUpdaterMode::Disabled, 60, false));
    assert!(!updater_enabled(TLAutoUpdaterMode::Periodic, 0, false));
    assert!(!updater_enabled(TLAutoUpdaterMode::Silent, 60, true));
    assert!(updater_enabled(TLAutoUpdaterMode::Periodic, 60, false));
}

#[test]
fn updater_schedule_checks_each_interval() {
    let mut s = UpdaterSchedule::start(0, 10);
    assert_eq!(s.next_check_ms, 10_000);
    assert_eq!(s.step(5_000, TLAutoUpdaterMode::Periodic, 10, false, false),
        UpdaterStep::Wait { check: false, silent: false, sleep_ms: 1000 });
    assert_eq!(s.step(10_000, TLAutoUpdaterMode::Periodic, 10, false, false),
        UpdaterStep::Wait { check: true, silent: false, sleep_ms: 1000 });
    assert_eq!(s.next_check_ms, 20_000);
    assert_eq!(s.step(19_500, TLAutoUpdaterMode::Periodic, 10, false, false),
        UpdaterStep::Wait { check: false, silent: false, sleep_ms: 500 });
}

#[test]
fn updater_schedule_reacts_to_settings() {
    let mut s = UpdaterSchedule::start(0, 10);
    assert_eq!(s.step(20_000, TLAutoUpdaterMode::Silent, 5, false, false),
        UpdaterStep::Wait { check: false, silent: true, sleep_ms: 1000 });
    assert_eq!(s.next_check_ms, 25_000);
    assert_eq!(s.step(21_000, TLAutoUpdaterMode::Silent, 5, false, true), UpdaterStep::Retry);
    assert_eq!(s.next_check_ms, 26_000);
    assert_eq!(s.step(30_000, TLAutoUpdaterMode::Disabled, 5, false, false), UpdaterStep::Stop);
    assert_eq!(s.next_check_ms, 26_000);
}

fn repo(language: Option<&str>) -> RepoInfo {
    RepoInfo {
        name: "r".to_string(),
        index: "i".to_string(),
        short_desc: None,
        language: language.map(|s| s.to_string()),
        region: Region::Global,
    }
}

#[test]
fn repo_recommendation_by_language() {
    assert!(repo(Some("en-US")).is_recommended_for("en", "fr-FR"));
    assert!(repo(Some("EN")).is_recommended_for("en", "fr"));
    assert!(repo(Some("ja")).is_recommended_for("en", "ja-JP"));
    assert!(repo(Some("ja-JP")).is_recommended_for("en", "ja"));
    assert!(!repo(Some("ja")).is_recommended_for("en", "fr"));
    assert!(!repo(None).is_recommended_for("en", "en"));
    assert!(!repo(None).is_recommended("en"));
}

#[test]
fn hosts_are_recognized() {
    assert!(is_github_hosted("https://raw.githubusercontent.com/a/b"));
    assert!(is_github_hosted("https://x.github.io/r"));
    assert!(!is_github_hosted("https://gitlab.com/a"));
    assert!(is_gitlab_hosted("https://gitlab.com/a"));
    assert!(!is_gitlab_hosted("https://example.com"));
}

#[test]
fn zip_download_choice() {
    assert!(should_use_zip_download(56, 1, 100, "https://github.com/a"));
    assert!(!should_use_zip_download(55, 10, 100, "https://github.com/a"));
    assert!(should_use_zip_download(251, 1, 100, "https://gitlab.com/a"));
    assert!(!should_use_zip_download(1000, 1, 100, "https://example.com"));
    assert!(should_use_zip_download(1, 80, 100, "https://example.com"));
    assert!(!should_use_zip_download(1, 79, 100, "https://example.com"));
    assert!(should_use_zip_download(1, 0, 0, "https://example.com"));
}

#[test]
fn progress_total_prefers_server_size() {
    assert_eq!(zip_progress_total(Some(500), 100), 500);
    assert_eq!(zip_progress_total(Some(0), 100), 100);
    assert_eq!(zip_progress_total(None, 100), 100);
    assert_eq!(UpdateProgress::new(3, 9), UpdateProgress { current: 3, total: 9 });
}

#[test]
fn file_checks() {
    assert_eq!(file_update_check(true, false, false, true, true, Some("h"), "h", true, true), FileCheck::Download);
    assert_eq!(file_update_check(false, false, false, true, true, Some("x"), "h", true, false), FileCheck::Skip);
    assert_eq!(file_update_check(false, true, false, true, true, Some("h"), "h", true, true), FileCheck::VerifyContents);
    assert_eq!(file_update_check(false, false, false, true, false, None, "h", true, true), FileCheck::Download);
    assert_eq!(file_update_check(false, false, true, false, false, Some("h"), "h", true, true), FileCheck::Skip);
    assert_eq!(file_update_check(false, false, false, false, false, Some("h"), "h", true, true), FileCheck::Download);
    assert_eq!(file_update_check(false, false, false, true, false, Some("h"), "h", false, true), FileCheck::Download);
    assert_eq!(file_update_check(false, false, false, true, false, Some("g"), "h", true, true), FileCheck::Download);
    assert_eq!(file_update_check(false, false, false, true, false, Some("h"), "h", true, false), FileCheck::Download);
    assert_eq!(file_update_check(false, false, false, true, false, Some("h"), "h", true, true), FileCheck::Skip);
}

fn file(path: &str, size: usize) -> RepoFile {
    RepoFile { path: path.to_string(), hash: "h".to_string(), size }
}

#[test]
fn unsafe_paths_are_left_out() {
    assert!(is_unsafe_path("../evil"));
    assert!(is_unsafe_path("/etc/passwd"));
    assert!(!is_unsafe_path("localize_dict.json"));
    let files = vec![file("a.json", 10), file("../evil", 5), file("x/atlas/y.png", 20)];
    let plan = plan_update(&files, &vec![true, true, false], "https://example.com").unwrap();
    assert_eq!(plan.files, vec![0]);
    assert_eq!(plan.total_size, 30);
    assert_eq!(plan.update_size, 10);
    assert!(!plan.modifies_atlas);
    assert!(!plan.will_use_zip);
    assert_eq!(plan.size, 10);
}

#[test]
fn full_update_uses_zip_and_flags_atlas() {
    let files = vec![file("a.json", 10), file("x/atlas/y.png", 20)];
    let plan = plan_update(&files, &vec![true, true], "https://example.com").unwrap();
    assert_eq!(plan.files, vec![0, 1]);
    assert_eq!(plan.update_size, 30);
    assert!(plan.modifies_atlas);
    assert!(plan.will_use_zip);
    assert_eq!(plan.size, 30);
    assert!(plan_update(&files, &vec![false, false], "https://example.com").is_none());
}

use hachimi_core::hachimi::{needs_legacy_migration, repo_repair_plan, RepoRepair};
use hachimi_core::tl_repo::normalize_exclude_line;

#[test]
fn exclude_lines_are_normalized() {
    assert_eq!(normalize_exclude_line("  a\\b\\c.json \t"), Some("a/b/c.json".to_string()));
    assert_eq!(normalize_exclude_line("x/y"), Some("x/y".to_string()));
    assert_eq!(normalize_exclude_line("   "), None);
    assert_eq!(normalize_exclude_line(""), None);
}

#[test]
fn repo_selection_repair() {
    assert_eq!(repo_repair_plan(Some(3), true, true, Some(3)), RepoRepair::Keep);
    assert_eq!(repo_repair_plan(Some(3), true, false, Some(5)), RepoRepair::Select { clear_first: true, id: 5 });
    assert_eq!(repo_repair_plan(Some(3), true, false, None), RepoRepair::AddAndSelect { clear_first: true });
    assert_eq!(repo_repair_plan(Some(3), false, false, None), RepoRepair::ClearSelection);
    assert_eq!(repo_repair_plan(None, true, false, Some(1)), RepoRepair::Select { clear_first: false, id: 1 });
    assert_eq!(repo_repair_plan(None, true, false, None), RepoRepair::AddAndSelect { clear_first: false });
    assert_eq!(repo_repair_plan(None, false, false, None), RepoRepair::Keep);
    assert!(needs_legacy_migration(false, true));
    assert!(!needs_legacy_migration(true, true));
    assert!(!needs_legacy_migration(false, false));
}

use hachimi_core::tl_repo::{auto_selected_repo, repo_label, repo_list_order};

#[test]
fn picker_lists_recommended_repos_first() {
    let regions = vec![Region::Global, Region::Japan, Region::Global, Region::Global];
    let rec = vec![false, true, true, false];
    assert_eq!(repo_list_order(&regions, &rec, Region::Global), vec![2, 0, 3]);
    assert_eq!(auto_selected_repo(&regions, &rec, Region::Global), Some(2));
    assert_eq!(repo_list_order(&regions, &rec, Region::Japan), vec![1]);
    assert_eq!(repo_list_order(&regions, &rec, Region::Taiwan), Vec::<usize>::new());
    let none = vec![false, false, false, false];
    assert_eq!(repo_list_order(&regions, &none, Region::Global), vec![0, 2, 3]);
    assert_eq!(auto_selected_repo(&regions, &none, Region::Global), None);
}

#[test]
fn picker_labels() {
    assert_eq!(repo_label("Repo", true, Some("(downloaded)")), "★ Repo (downloaded)");
    assert_eq!(repo_label("Repo", false, Some("(downloaded)")), "Repo (downloaded)");
    assert_eq!(repo_label("Repo", true, None), "★ Repo");
    assert_eq!(repo_label("Repo", false, None), "Repo");
}

use hachimi_core::tl_repo::non_excluded_paths;

#[test]
fn excludes_editor_lists_paths_not_excluded() {
    let available: Vec<String> = vec!["a/", "a/b.json", "c.json", "d/", "e//"].into_iter().map(String::from).collect();
    let excludes: Vec<String> = vec!["a", "c.json", "e"].into_iter().map(String::from).collect();
    assert_eq!(
        non_excluded_paths(&available, &excludes),
        vec![(1, "a/b.json".to_string()), (3, "d/".to_string())]
    );
    assert_eq!(non_excluded_paths(&available, &vec!["d/".to_string()]).len(), 4);
    assert!(non_excluded_paths(&vec![], &excludes).is_empty());
}

#[test]
fn each_locale_code_picks_its_language() {
    let all = [
        Language::English, Language::TChinese, Language::SChinese, Language::Vietnamese,
        Language::Indonesian, Language::Spanish, Language::BPortuguese, Language::Filipino,
    ];
    for lang in all {
        assert_eq!(language_for_locale(lang.locale_str()), lang);
    }
}

use hachimi_core::gui::ExcludesEditor;

fn strings(v: &[&str]) -> Vec<String> {
    v.iter().map(|s| s.to_string()).collect()
}

#[test]
fn excludes_editor_adds_each_path_once() {
    let mut e = ExcludesEditor::new(strings(&["a"]));
    e.add_path("b/");
    assert_eq!(e.excludes, strings(&["a", "b"]));
    e.add_path("b");
    e.add_path("b//");
    assert_eq!(e.excludes, strings(&["a", "b"]));
    e.add_path("/");
    e.add_path("");
    assert_eq!(e.excludes, strings(&["a", "b"]));
    e.add_path("c.json");
    assert_eq!(e.excludes, strings(&["a", "b", "c.json"]));
}

#[test]
fn excludes_editor_search_remove_and_edit() {
    let mut e = ExcludesEditor::new(strings(&["Story/x.json", "ui/", "story/y.json"]));
    assert_eq!(e.visible_excludes("").len(), 3);
    assert_eq!(
        e.visible_excludes("STORY"),
        vec![(0, "Story/x.json".to_string()), (2, "story/y.json".to_string())]
    );
    assert!(e.visible_excludes("zzz").is_empty());
    assert_eq!(e.begin_edit(2), "story/y.json");
    assert_eq!(e.edit_index, Some(2));
    e.remove_exclude(0);
    assert_eq!(e.excludes, strings(&["ui/", "story/y.json"]));
    assert_eq!(e.edit_index, Some(1));
    e.confirm_edit(1, "story/z.json".to_string());
    assert_eq!(e.excludes, strings(&["ui/", "story/z.json"]));
    assert_eq!(e.edit_index, None);
    e.begin_edit(0);
    e.remove_exclude(0);
    assert_eq!(e.edit_index, None);
    assert_eq!(e.excludes, strings(&["story/z.json"]));
}

use hachimi_core::tl_repo::{contributor_names, prepare_changelog, sanitize_plain_text};

#[test]
fn plain_text_loses_control_characters() {
    assert_eq!(sanitize_plain_text("a\u{7}b\tc\r\n\u{0}d\u{9f}"), "ab\tc\r\nd");
    assert_eq!(sanitize_plain_text(""), "");
}

#[test]
fn changelog_refused_with_nul_else_prepared() {
    assert_eq!(prepare_changelog("x\0y", false), None);
    assert_eq!(prepare_changelog("x\0y", true), None);
    assert_eq!(prepare_changelog("# T\u{1}", true), Some("# T\u{1}".to_string()));
    assert_eq!(prepare_changelog("- fix\u{1b}[1m\n", false), Some("- fix[1m\n".to_string()));
}

#[test]
fn contributors_joined_from_lines() {
    assert_eq!(contributor_names("Alice\n\n  Bob \r\nCarol"), "Alice, Bob, Carol");
    assert_eq!(contributor_names(""), "");
    assert_eq!(contributor_names("\u{1}Dave\n"), "Dave");
    assert_eq!(contributor_names(" \n\t\n"), "");
}

#[test]
fn sanitizing_twice_is_sanitizing_once() {
    let s = "a\u{7}\u{1b}b\n\tc\u{0}";
    let once = sanitize_plain_text(s);
    assert_eq!(sanitize_plain_text(&once), once);
}

use hachimi_core::gui::{commit_meta_index_url, default_meta_index_url, page_step, PageButton};

#[test]
fn blank_index_address_falls_back_to_default() {
    let d = default_meta_index_url();
    assert_eq!(d, "https://gitlab.com/umatl/hachimi-meta/-/raw/main/meta.json");
    assert_eq!(commit_meta_index_url("  ", d, d), (d.to_string(), false));
    assert_eq!(commit_meta_index_url("", "https://x/meta.json", d), (d.to_string(), true));
    assert_eq!(
        commit_meta_index_url("https://y/meta.json", d, d),
        ("https://y/meta.json".to_string(), true)
    );
    assert_eq!(
        commit_meta_index_url("https://y/meta.json", "https://y/meta.json", d),
        ("https://y/meta.json".to_string(), false)
    );
}

#[test]
fn setup_pages_step_and_close() {
    assert_eq!(page_step(0, 4, true, PageButton::Next), (1, true));
    assert_eq!(page_step(1, 4, false, PageButton::Next), (1, true));
    assert_eq!(page_step(3, 4, true, PageButton::Next), (3, true));
    assert_eq!(page_step(0, 4, true, PageButton::Previous), (0, true));
    assert_eq!(page_step(2, 4, true, PageButton::Previous), (1, true));
    assert_eq!(page_step(2, 4, true, PageButton::Done), (2, true));
    assert_eq!(page_step(3, 4, true, PageButton::Done), (3, false));
}

use hachimi_core::tl_repo::verify_integrity;

#[test]
fn integrity_check_compares_blake3_digest() {
    let empty = "af1349b9f5f9a1a6a0404dea36dcc9499bcb25c9adc112b7cc9a93cae41f3262";
    assert!(verify_integrity(b"", empty));
    assert!(!verify_integrity(b"x", empty));
    assert!(!verify_integrity(b"", "AF1349B9F5F9A1A6A0404DEA36DCC9499BCB25C9ADC112B7CC9A93CAE41F3262"));
    assert!(!verify_integrity(b"", ""));
}

#[test]
fn control_characters_are_the_cc_category() {
    assert_eq!(sanitize_plain_text("\u{1f}\u{20}\u{7e}\u{7f}\u{80}\u{9f}\u{a0}"), "\u{20}\u{7e}\u{a0}");
}

use hachimi_core::hachimi::language_for_system_locale;
use hachimi_core::tl_repo::{plan_update_checked, PlanError};

#[test]
fn system_locale_absent_counts_as_english() {
    assert_eq!(language_for_system_locale(None), Language::English);
    assert_eq!(language_for_system_locale(Some("zh-TW")), Language::TChinese);
    assert_eq!(language_for_system_locale(Some("vi-VN")), Language::Vietnamese);
    let r = repo(Some("en"));
    assert!(r.is_recommended_for_locale("vi", None));
    assert!(!r.is_recommended_for_locale("vi", Some("id-ID")));
    assert!(!repo(None).is_recommended_for_locale("en", None));
}

#[test]
fn checked_plan_refuses_size_overflow() {
    let files = vec![file("a.json", usize::MAX), file("b.json", 1)];
    assert_eq!(plan_update_checked(&files, &vec![true, true], "https://example.com").err(), Some(PlanError::SizeOverflow));
    let unsafe_files = vec![file("a.json", usize::MAX), file("../b.json", 1)];
    let plan = plan_update_checked(&unsafe_files, &vec![true, true], "https://example.com").unwrap().unwrap();
    assert_eq!(plan.total_size, usize::MAX);
    assert_eq!(plan.files, vec![0]);
    assert_eq!(plan_update_checked(&vec![], &vec![], "https://example.com").unwrap().is_none(), true);
}

#[test]
fn trimming_strips_unicode_white_space_only() {
    assert_eq!(normalize_exclude_line("\u{3000}\u{a0} a\\b \u{2028}\u{85}\t"), Some("a/b".to_string()));
    assert_eq!(normalize_exclude_line("\u{200b}x"), Some("\u{200b}x".to_string()));
    assert_eq!(normalize_exclude_line(" \u{2000}\u{200a}\u{202f}\u{205f}\u{1680}\r\n"), None);
    let d = default_meta_index_url();
    assert_eq!(commit_meta_index_url("\u{3000}", d, d), (d.to_string(), false));
    assert_eq!(contributor_names(" \u{a0}Eve\u{3000}\n"), "Eve");
}
