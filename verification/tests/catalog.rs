use codex_tui::slash_command::SlashCommand;
use codex_tui::slash_command::all_slash_commands;
use codex_tui::slash_command::built_in_slash_commands;

#[test]
fn command_strings_use_kebab_case_and_kept_names() {
    assert_eq!(SlashCommand::Model.command(), "model");
    assert_eq!(SlashCommand::DebugConfig.command(), "debug-config");
    assert_eq!(SlashCommand::ElevateSandbox.command(), "setup-default-sandbox");
    assert_eq!(SlashCommand::SandboxReadRoot.command(), "sandbox-add-read-dir");
    assert_eq!(SlashCommand::MemoryDrop.command(), "debug-m-drop");
    assert_eq!(SlashCommand::MemoryUpdate.command(), "debug-m-update");
    assert_eq!(SlashCommand::TestApproval.command(), "test-approval");
}

#[test]
fn descriptions_are_the_catalog_text() {
    assert_eq!(SlashCommand::Feedback.description(false), "send logs to maintainers");
    assert_eq!(SlashCommand::Quit.description(false), "exit Codex");
    assert_eq!(SlashCommand::Exit.description(false), "exit Codex");
    assert_eq!(
        SlashCommand::Compact.description(false),
        "summarize conversation to prevent hitting the context limit"
    );
    assert_eq!(
        SlashCommand::SandboxReadRoot.description(false),
        "let sandbox read a directory: /sandbox-add-read-dir <absolute_path>"
    );
}

#[test]
fn descriptions_are_localized() {
    assert_eq!(SlashCommand::Feedback.description(true), "发送日志给维护者");
    assert_eq!(SlashCommand::Quit.description(true), "退出 Codex");
    assert_eq!(SlashCommand::Model.description(true), "选择模型与推理强度");
    assert_eq!(
        SlashCommand::Compact.description(true),
        "压缩总结对话，避免触发上下文上限"
    );
}

#[test]
fn inline_args_support_is_limited_to_four_commands() {
    let with_args = [
        SlashCommand::Review,
        SlashCommand::Rename,
        SlashCommand::Plan,
        SlashCommand::SandboxReadRoot,
    ];
    for (_, c) in built_in_slash_commands(true, true) {
        assert_eq!(c.supports_inline_args(), with_args.contains(&c));
    }
}

#[test]
fn availability_during_task_matches_catalog() {
    assert!(!SlashCommand::New.available_during_task());
    assert!(!SlashCommand::Model.available_during_task());
    assert!(!SlashCommand::Statusline.available_during_task());
    assert!(SlashCommand::Diff.available_during_task());
    assert!(SlashCommand::Rename.available_during_task());
    assert!(SlashCommand::Quit.available_during_task());
    assert!(SlashCommand::Collab.available_during_task());
}

#[test]
fn built_in_commands_follow_visibility() {
    let all = all_slash_commands();
    assert_eq!(all.len(), 35);
    assert_eq!(all[0], SlashCommand::Model);

    let everywhere = built_in_slash_commands(false, false);
    assert_eq!(everywhere.len(), 32);
    assert!(everywhere.iter().all(|(_, c)| *c != SlashCommand::SandboxReadRoot));
    assert!(everywhere.iter().all(|(_, c)| *c != SlashCommand::Rollout));
    assert!(everywhere.iter().all(|(_, c)| *c != SlashCommand::TestApproval));
    assert_eq!(everywhere[0], ("model", SlashCommand::Model));

    let debug_windows = built_in_slash_commands(true, true);
    assert_eq!(debug_windows.len(), 35);
    assert!(debug_windows.iter().any(|(s, c)| *s == "rollout" && *c == SlashCommand::Rollout));

    let windows_only = built_in_slash_commands(true, false);
    assert_eq!(windows_only.len(), 33);
    assert!(
        windows_only
            .iter()
            .any(|(s, c)| *s == "sandbox-add-read-dir" && *c == SlashCommand::SandboxReadRoot)
    );
}

#[test]
fn command_order_is_presentation_order() {
    let cmds = built_in_slash_commands(false, false);
    let names: Vec<&str> = cmds.iter().map(|(s, _)| *s).collect();
    let model_pos = names.iter().position(|s| *s == "model").unwrap();
    let quit_pos = names.iter().position(|s| *s == "quit").unwrap();
    let new_pos = names.iter().position(|s| *s == "new").unwrap();
    assert!(model_pos < new_pos);
    assert!(new_pos < quit_pos);
}
