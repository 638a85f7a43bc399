use codex_tui::skills::SkillInterface;
use codex_tui::skills::SkillMetadata;
use codex_tui::skills::localized_skill_description;
use codex_tui::skills::match_skill;
use codex_tui::skills::skill_description;
use codex_tui::skills::skill_display_name;
use codex_tui::skills::truncate_skill_name;

fn skill(name: &str, description: &str) -> SkillMetadata {
    SkillMetadata {
        name: name.to_string(),
        description: description.to_string(),
        short_description: None,
        interface: None,
    }
}

#[test]
fn display_name_prefers_the_interface() {
    let mut s = skill("linear", "manage Linear");
    assert_eq!(skill_display_name(&s), "linear");
    s.interface = Some(SkillInterface {
        display_name: Some("Linear".to_string()),
        short_description: None,
    });
    assert_eq!(skill_display_name(&s), "Linear");
}

#[test]
fn description_falls_back_in_order() {
    let mut s = skill("doc", "full description");
    assert_eq!(skill_description(&s), "full description");
    s.short_description = Some("short".to_string());
    assert_eq!(skill_description(&s), "short");
    s.interface = Some(SkillInterface {
        display_name: None,
        short_description: Some("interface short".to_string()),
    });
    assert_eq!(skill_description(&s), "interface short");
}

#[test]
fn localized_description_uses_the_chinese_table() {
    let s = skill("linear", "Manage Linear issues, projects and teams.");
    assert_eq!(
        localized_skill_description(&s, true),
        "管理 Linear 工单、项目与团队流程。"
    );
    assert_eq!(
        localized_skill_description(&s, false),
        "Manage Linear issues, projects and teams."
    );
}

#[test]
fn localized_description_passes_unknown_skills_through() {
    let s = skill("my-own-skill", "  does a thing  ");
    assert_eq!(localized_skill_description(&s, true), "does a thing");
    assert_eq!(localized_skill_description(&s, false), "does a thing");
    let empty = skill("my-own-skill", "   ");
    assert_eq!(localized_skill_description(&empty, true), "");
}

#[test]
fn truncation_keeps_short_names_and_marks_long_ones() {
    assert_eq!(truncate_skill_name("doc"), "doc");
    assert_eq!(truncate_skill_name("exactly-twenty-one-21"), "exactly-twenty-one-21");
    assert_eq!(
        truncate_skill_name("a-very-long-skill-name-indeed"),
        "a-very-long-skill-na…"
    );
}

#[test]
fn skill_match_prefers_the_display_name() {
    let got = match_skill(Some((vec![0, 1], 80)), Some((vec![2], 50)), true);
    assert_eq!(got, Some((Some(vec![0, 1]), 80)));

    let got = match_skill(None, Some((vec![2], 50)), true);
    assert_eq!(got, Some((None, 50)));

    let got = match_skill(None, Some((vec![2], 50)), false);
    assert_eq!(got, None);

    let got = match_skill(None, None, true);
    assert_eq!(got, None);
}
