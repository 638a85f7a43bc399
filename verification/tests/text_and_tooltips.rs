use codex_tui::i18n::explicit_lang_choice;
use codex_tui::i18n::tr;
use codex_tui::i18n::use_zh_cn;
use codex_tui::text::contains;
use codex_tui::text::lower_ascii;
use codex_tui::text::str_eq;
use codex_tui::text::trim_str;
use codex_tui::tooltips::PlanType;
use codex_tui::tooltips::filter_tooltips;
use codex_tui::tooltips::get_tooltip;
use codex_tui::tooltips::localize_tooltip;
use codex_tui::tooltips::pick_tooltip;

#[test]
fn explicit_code_overrides_locale_detection() {
    let explicit = lower_ascii(trim_str("en"));
    let locales = vec![lower_ascii("zh_CN.UTF-8")];
    let zh = use_zh_cn(Some(&explicit), &locales, false);
    assert_eq!(tr("Hello", "你好", zh), "Hello");
}

#[test]
fn locale_detection_enables_chinese_when_no_explicit_override() {
    let locales = vec![lower_ascii("zh_CN.UTF-8")];
    let zh = use_zh_cn(None, &locales, false);
    assert_eq!(tr("Hello", "你好", zh), "你好");
}

#[test]
fn explicit_codes_cover_both_spellings() {
    assert_eq!(explicit_lang_choice("zh"), Some(true));
    assert_eq!(explicit_lang_choice("zh-hans"), Some(true));
    assert_eq!(explicit_lang_choice("zh_cn"), Some(true));
    assert_eq!(explicit_lang_choice("en-us"), Some(false));
    assert_eq!(explicit_lang_choice("fr"), None);
}

#[test]
fn platform_locale_is_a_fallback() {
    assert!(use_zh_cn(None, &vec![], true));
    assert!(!use_zh_cn(None, &vec!["en_US.UTF-8".to_string()], false));
    assert!(!use_zh_cn(Some(&"en".to_string()), &vec![], true));
}

#[test]
fn text_helpers_behave() {
    assert_eq!(trim_str("  a b\t\r\n"), "a b");
    assert_eq!(trim_str("\n\t "), "");
    assert!(str_eq("héllo", "héllo"));
    assert!(!str_eq("héllo", "hello"));
    assert!(contains("the codex app is here", "codex app"));
    assert!(!contains("the codex. app", "codex app"));
    assert!(contains("anything", ""));
    assert_eq!(lower_ascii("Zh_CN.UTF-8"), "zh_cn.utf-8");
    assert_eq!(lower_ascii("你好A"), "你好a");
}

#[test]
fn tooltip_file_is_filtered_line_by_line() {
    let raw = "# comment\n\n  tip one  \nrun codex app today\ntip two";
    let other = filter_tooltips(raw, false);
    assert_eq!(other, vec!["tip one".to_string(), "tip two".to_string()]);
    let mac = filter_tooltips(raw, true);
    assert_eq!(
        mac,
        vec![
            "tip one".to_string(),
            "run codex app today".to_string(),
            "tip two".to_string()
        ]
    );
    assert_eq!(filter_tooltips("", false), Vec::<String>::new());
}

#[test]
fn localize_tooltip_translates_known_tips() {
    assert_eq!(
        localize_tooltip("Use /mcp to list configured MCP tools.", true),
        "用 /mcp 查看已配置的 MCP 工具。"
    );
    assert_eq!(
        localize_tooltip("Use /mcp to list configured MCP tools.", false),
        "Use /mcp to list configured MCP tools."
    );
    assert_eq!(localize_tooltip("A new tip nobody translated", true), "A new tip nobody translated");
}

#[test]
fn pick_tooltip_picks_a_member_or_nothing() {
    assert_eq!(pick_tooltip(&vec![]), None);
    let one = vec!["only".to_string()];
    assert_eq!(pick_tooltip(&one), Some("only".to_string()));
    let several = vec!["a".to_string(), "b".to_string(), "c".to_string()];
    let picked = pick_tooltip(&several).unwrap();
    assert!(several.contains(&picked));
}

#[test]
fn announcement_wins_over_everything() {
    let tips = vec!["a tip".to_string()];
    let got = get_tooltip(
        Some(PlanType::Pro),
        Some("the announcement".to_string()),
        &tips,
        true,
        false,
    );
    assert_eq!(got, Some("the announcement".to_string()));
}

#[test]
fn tooltip_without_announcement_is_from_the_known_pool() {
    let tips = vec!["a tip".to_string()];
    let free_go =
        "*New* Codex is included in your plan for free through *March 2nd* – let’s build together.";
    for _ in 0..32 {
        let got = get_tooltip(Some(PlanType::Free), None, &tips, true, false).unwrap();
        assert!(got == "a tip" || got == free_go);
    }
}
