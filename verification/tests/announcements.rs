use codex_tui::announcement::AnnouncementTipRaw;
use codex_tui::announcement::Date;
use codex_tui::announcement::date_lt;
use codex_tui::announcement::parse_announcement_tip_toml;
use codex_tui::announcement::parse_date;
use codex_tui::announcement::pick_announcement;

fn today() -> Date {
    Date { year: 2026, month: 10, day: 11 }
}

const VERSION: &str = "0.0.0";

#[test]
fn announcement_tip_toml_picks_last_matching() {
    let toml = r#"
[[announcements]]
content = "first"
from_date = "2000-01-01"

[[announcements]]
content = "latest match"
version_regex = ".*"
target_app = "cli"

[[announcements]]
content = "should not match"
to_date = "2000-01-01"
        "#;

    assert_eq!(
        Some("latest match".to_string()),
        parse_announcement_tip_toml(toml, today(), VERSION)
    );

    let toml = r#"
[[announcements]]
content = "first"
from_date = "2000-01-01"
target_app = "cli"

[[announcements]]
content = "latest match"
version_regex = ".*"

[[announcements]]
content = "should not match"
to_date = "2000-01-01"
        "#;

    assert_eq!(
        Some("latest match".to_string()),
        parse_announcement_tip_toml(toml, today(), VERSION)
    );
}

#[test]
fn announcement_tip_toml_picks_no_match() {
    let toml = r#"
[[announcements]]
content = "first"
from_date = "2000-01-01"
to_date = "2000-01-05"

[[announcements]]
content = "latest match"
version_regex = "invalid_version_name"

[[announcements]]
content = "should not match either "
target_app = "vsce"
        "#;

    assert_eq!(None, parse_announcement_tip_toml(toml, today(), VERSION));
}

#[test]
fn announcement_tip_toml_bad_deserialization() {
    let toml = r#"
[[announcements]]
content = 123
from_date = "2000-01-01"
        "#;

    assert_eq!(None, parse_announcement_tip_toml(toml, today(), VERSION));
}

#[test]
fn announcement_tip_toml_parse_comments() {
    let toml = r#"
# Example announcement tips for Codex TUI.
# Each [[announcements]] entry is evaluated in order; the last matching one is shown.
# Dates are UTC, formatted as YYYY-MM-DD. The from_date is inclusive and the to_date is exclusive.
# version_regex matches against the CLI version (env!("CARGO_PKG_VERSION")); omit to apply to all versions.
# target_app specify which app should display the announcement (cli, vsce, ...).

[[announcements]]
content = "Welcome to Codex! Check out the new onboarding flow."
from_date = "2024-10-01"
to_date = "2024-10-15"
target_app = "cli"
version_regex = "^0\\.0\\.0$"

[[announcements]]
content = "This is a test announcement"
        "#;

    assert_eq!(
        Some("This is a test announcement".to_string()),
        parse_announcement_tip_toml(toml, today(), VERSION)
    );
}

#[test]
fn announcement_without_announcements_key_is_nothing() {
    assert_eq!(None, parse_announcement_tip_toml("title = \"x\"", today(), VERSION));
    assert_eq!(None, parse_announcement_tip_toml("not toml at [ all", today(), VERSION));
    assert_eq!(None, parse_announcement_tip_toml("announcements = []", today(), VERSION));
}

#[test]
fn from_date_is_inclusive_and_to_date_exclusive() {
    let raws = vec![AnnouncementTipRaw {
        content: "on the edge".to_string(),
        from_date: Some("2026-10-11".to_string()),
        to_date: Some("2026-10-12".to_string()),
        version_regex: None,
        target_app: None,
    }];
    assert_eq!(
        Some("on the edge".to_string()),
        pick_announcement(&raws, today(), VERSION)
    );

    let raws = vec![AnnouncementTipRaw {
        content: "over".to_string(),
        from_date: None,
        to_date: Some("2026-10-11".to_string()),
        version_regex: None,
        target_app: None,
    }];
    assert_eq!(None, pick_announcement(&raws, today(), VERSION));

    let raws = vec![AnnouncementTipRaw {
        content: "not yet".to_string(),
        from_date: Some("2026-10-12".to_string()),
        to_date: None,
        version_regex: None,
        target_app: None,
    }];
    assert_eq!(None, pick_announcement(&raws, today(), VERSION));
}

#[test]
fn entries_with_broken_constraints_are_skipped() {
    let raws = vec![
        AnnouncementTipRaw {
            content: "bad date".to_string(),
            from_date: Some("2026-13-01".to_string()),
            to_date: None,
            version_regex: None,
            target_app: None,
        },
        AnnouncementTipRaw {
            content: "bad pattern".to_string(),
            from_date: None,
            to_date: None,
            version_regex: Some("(".to_string()),
            target_app: None,
        },
        AnnouncementTipRaw {
            content: "   ".to_string(),
            from_date: None,
            to_date: None,
            version_regex: None,
            target_app: None,
        },
        AnnouncementTipRaw {
            content: "sound".to_string(),
            from_date: None,
            to_date: None,
            version_regex: None,
            target_app: Some("CLI".to_string()),
        },
    ];
    assert_eq!(Some("sound".to_string()), pick_announcement(&raws, today(), VERSION));
}

#[test]
fn parse_date_checks_the_calendar() {
    assert_eq!(
        parse_date("2024-02-29"),
        Some(Date { year: 2024, month: 2, day: 29 })
    );
    assert_eq!(parse_date("2023-02-29"), None);
    assert_eq!(parse_date("2100-02-29"), None);
    assert_eq!(
        parse_date("2000-02-29"),
        Some(Date { year: 2000, month: 2, day: 29 })
    );
    assert_eq!(parse_date("2024-13-01"), None);
    assert_eq!(parse_date("2024-00-10"), None);
    assert_eq!(parse_date("2024-04-31"), None);
    assert_eq!(parse_date("2024-1-01"), None);
    assert_eq!(parse_date("2024-01-01x"), None);
    assert_eq!(
        parse_date("1999-12-31"),
        Some(Date { year: 1999, month: 12, day: 31 })
    );
}

#[test]
fn date_order_is_calendar_order() {
    let a = Date { year: 2024, month: 12, day: 31 };
    let b = Date { year: 2025, month: 1, day: 1 };
    let c = Date { year: 2025, month: 1, day: 2 };
    assert!(date_lt(&a, &b));
    assert!(date_lt(&b, &c));
    assert!(!date_lt(&b, &a));
    assert!(!date_lt(&b, &b));
}
