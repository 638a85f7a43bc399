//! The catalog of commands invoked by starting a message with a slash.

use vstd::prelude::*;

verus! {

/// Commands that can be invoked by starting a message with a leading slash.
///
/// The order of the variants is the presentation order in the popup, so the
/// more frequently used commands come first.
#[derive(Clone, Copy, Debug, PartialEq, Eq, Hash, Structural)]
pub enum SlashCommand {
    Model,
    Approvals,
    Permissions,
    ElevateSandbox,
    SandboxReadRoot,
    Experimental,
    Skills,
    Review,
    Rename,
    New,
    Resume,
    Fork,
    Init,
    Compact,
    Plan,
    Collab,
    Agent,
    Diff,
    Mention,
    Status,
    DebugConfig,
    Statusline,
    Mcp,
    Apps,
    Logout,
    Quit,
    Exit,
    Feedback,
    Rollout,
    Ps,
    Clean,
    Personality,
    TestApproval,
    MemoryDrop,
    MemoryUpdate,
}

/// The English description of each command.
pub open spec fn description_en_spec(c: SlashCommand) -> Seq<char> {
    match c {
        SlashCommand::Feedback => "send logs to maintainers"@,
        SlashCommand::New => "start a new chat during a conversation"@,
        SlashCommand::Init => "create an AGENTS.md file with instructions for Codex"@,
        SlashCommand::Compact => "summarize conversation to prevent hitting the context limit"@,
        SlashCommand::Review => "review my current changes and find issues"@,
        SlashCommand::Rename => "rename the current thread"@,
        SlashCommand::Resume => "resume a saved chat"@,
        SlashCommand::Fork => "fork the current chat"@,
        SlashCommand::Quit => "exit Codex"@,
        SlashCommand::Exit => "exit Codex"@,
        SlashCommand::Diff => "show git diff (including untracked files)"@,
        SlashCommand::Mention => "mention a file"@,
        SlashCommand::Skills => "use skills to improve how Codex performs specific tasks"@,
        SlashCommand::Status => "show current session configuration and token usage"@,
        SlashCommand::DebugConfig => "show config layers and requirement sources for debugging"@,
        SlashCommand::Statusline => "configure which items appear in the status line"@,
        SlashCommand::Ps => "list background terminals"@,
        SlashCommand::Clean => "stop all background terminals"@,
        SlashCommand::MemoryDrop => "DO NOT USE"@,
        SlashCommand::MemoryUpdate => "DO NOT USE"@,
        SlashCommand::Model => "choose what model and reasoning effort to use"@,
        SlashCommand::Personality => "choose a communication style for Codex"@,
        SlashCommand::Plan => "switch to Plan mode"@,
        SlashCommand::Collab => "change collaboration mode (experimental)"@,
        SlashCommand::Agent => "switch the active agent thread"@,
        SlashCommand::Approvals => "choose what Codex is allowed to do"@,
        SlashCommand::Permissions => "choose what Codex is allowed to do"@,
        SlashCommand::ElevateSandbox => "set up elevated agent sandbox"@,
        SlashCommand::SandboxReadRoot => "let sandbox read a directory: /sandbox-add-read-dir <absolute_path>"@,
        SlashCommand::Experimental => "toggle experimental features"@,
        SlashCommand::Mcp => "list configured MCP tools"@,
        SlashCommand::Apps => "manage apps"@,
        SlashCommand::Logout => "log out of Codex"@,
        SlashCommand::Rollout => "print the rollout file path"@,
        SlashCommand::TestApproval => "test approval request"@,
    }
}

/// The Chinese description of each command.
pub open spec fn description_zh_spec(c: SlashCommand) -> Seq<char> {
    match c {
        SlashCommand::Feedback => "发送日志给维护者"@,
        SlashCommand::New => "在当前会话中开启新对话"@,
        SlashCommand::Init => "创建 AGENTS.md 指令文件"@,
        SlashCommand::Compact => "压缩总结对话，避免触发上下文上限"@,
        SlashCommand::Review => "审查当前改动并找问题"@,
        SlashCommand::Rename => "重命名当前会话"@,
        SlashCommand::Resume => "恢复已保存会话"@,
        SlashCommand::Fork => "从当前会话分叉"@,
        SlashCommand::Quit => "退出 Codex"@,
        SlashCommand::Exit => "退出 Codex"@,
        SlashCommand::Diff => "显示 git diff（含未跟踪文件）"@,
        SlashCommand::Mention => "引用文件"@,
        SlashCommand::Skills => "使用技能来提升特定任务效果"@,
        SlashCommand::Status => "显示当前会话配置与 token 使用"@,
        SlashCommand::DebugConfig => "显示配置层级与来源（调试用）"@,
        SlashCommand::Statusline => "配置状态栏显示项"@,
        SlashCommand::Ps => "列出后台终端"@,
        SlashCommand::Clean => "停止所有后台终端"@,
        SlashCommand::MemoryDrop => "请勿使用"@,
        SlashCommand::MemoryUpdate => "请勿使用"@,
        SlashCommand::Model => "选择模型与推理强度"@,
        SlashCommand::Personality => "选择 Codex 的表达风格"@,
        SlashCommand::Plan => "切换到 Plan 模式"@,
        SlashCommand::Collab => "切换协作模式（实验）"@,
        SlashCommand::Agent => "切换活动代理线程"@,
        SlashCommand::Approvals => "设置 Codex 允许执行的操作"@,
        SlashCommand::Permissions => "设置 Codex 允许执行的操作"@,
        SlashCommand::ElevateSandbox => "设置高权限智能体沙盒"@,
        SlashCommand::SandboxReadRoot => "允许沙盒读取目录：/sandbox-add-read-dir <absolute_path>"@,
        SlashCommand::Experimental => "切换实验功能"@,
        SlashCommand::Mcp => "列出已配置的 MCP 工具"@,
        SlashCommand::Apps => "管理应用"@,
        SlashCommand::Logout => "退出登录"@,
        SlashCommand::Rollout => "输出 rollout 文件路径"@,
        SlashCommand::TestApproval => "测试审批请求"@,
    }
}

/// The description shown for each command in the popup, in the language in
/// use.
pub open spec fn description_spec(c: SlashCommand, use_zh: bool) -> Seq<char> {
    if use_zh {
        description_zh_spec(c)
    } else {
        description_en_spec(c)
    }
}

/// Each command's string, written without the leading slash: the variant
/// name in kebab case, except where a command keeps an older serialized
/// name.
pub open spec fn command_spec(c: SlashCommand) -> Seq<char> {
    match c {
        SlashCommand::Model => "model"@,
        SlashCommand::Approvals => "approvals"@,
        SlashCommand::Permissions => "permissions"@,
        SlashCommand::ElevateSandbox => "setup-default-sandbox"@,
        SlashCommand::SandboxReadRoot => "sandbox-add-read-dir"@,
        SlashCommand::Experimental => "experimental"@,
        SlashCommand::Skills => "skills"@,
        SlashCommand::Review => "review"@,
        SlashCommand::Rename => "rename"@,
        SlashCommand::New => "new"@,
        SlashCommand::Resume => "resume"@,
        SlashCommand::Fork => "fork"@,
        SlashCommand::Init => "init"@,
        SlashCommand::Compact => "compact"@,
        SlashCommand::Plan => "plan"@,
        SlashCommand::Collab => "collab"@,
        SlashCommand::Agent => "agent"@,
        SlashCommand::Diff => "diff"@,
        SlashCommand::Mention => "mention"@,
        SlashCommand::Status => "status"@,
        SlashCommand::DebugConfig => "debug-config"@,
        SlashCommand::Statusline => "statusline"@,
        SlashCommand::Mcp => "mcp"@,
        SlashCommand::Apps => "apps"@,
        SlashCommand::Logout => "logout"@,
        SlashCommand::Quit => "quit"@,
        SlashCommand::Exit => "exit"@,
        SlashCommand::Feedback => "feedback"@,
        SlashCommand::Rollout => "rollout"@,
        SlashCommand::Ps => "ps"@,
        SlashCommand::Clean => "clean"@,
        SlashCommand::Personality => "personality"@,
        SlashCommand::TestApproval => "test-approval"@,
        SlashCommand::MemoryDrop => "debug-m-drop"@,
        SlashCommand::MemoryUpdate => "debug-m-update"@,
    }
}

/// Whether a command is shown: the sandbox read-root command only on
/// Windows, the debugging commands only in debug builds.
pub open spec fn is_visible_spec(c: SlashCommand, windows: bool, debug: bool) -> bool {
    match c {
        SlashCommand::SandboxReadRoot => windows,
        SlashCommand::Rollout => debug,
        SlashCommand::TestApproval => debug,
        _ => true,
    }
}

/// Every command, in presentation order.
pub open spec fn all_commands_spec() -> Seq<SlashCommand> {
    seq![
        SlashCommand::Model,
        SlashCommand::Approvals,
        SlashCommand::Permissions,
        SlashCommand::ElevateSandbox,
        SlashCommand::SandboxReadRoot,
        SlashCommand::Experimental,
        SlashCommand::Skills,
        SlashCommand::Review,
        SlashCommand::Rename,
        SlashCommand::New,
        SlashCommand::Resume,
        SlashCommand::Fork,
        SlashCommand::Init,
        SlashCommand::Compact,
        SlashCommand::Plan,
        SlashCommand::Collab,
        SlashCommand::Agent,
        SlashCommand::Diff,
        SlashCommand::Mention,
        SlashCommand::Status,
        SlashCommand::DebugConfig,
        SlashCommand::Statusline,
        SlashCommand::Mcp,
        SlashCommand::Apps,
        SlashCommand::Logout,
        SlashCommand::Quit,
        SlashCommand::Exit,
        SlashCommand::Feedback,
        SlashCommand::Rollout,
        SlashCommand::Ps,
        SlashCommand::Clean,
        SlashCommand::Personality,
        SlashCommand::TestApproval,
        SlashCommand::MemoryDrop,
        SlashCommand::MemoryUpdate,
    ]
}

/// The visible commands of `s`, in order.
pub open spec fn visible_of(s: Seq<SlashCommand>, windows: bool, debug: bool) -> Seq<SlashCommand>
    decreases s.len(),
{
    if s.len() == 0 {
        Seq::empty()
    } else {
        let rest = visible_of(s.drop_first(), windows, debug);
        if is_visible_spec(s[0], windows, debug) {
            seq![s[0]] + rest
        } else {
            rest
        }
    }
}

proof fn lemma_visible_of_push(s: Seq<SlashCommand>, x: SlashCommand, windows: bool, debug: bool)
    ensures
        visible_of(s.push(x), windows, debug) == if is_visible_spec(x, windows, debug) {
            visible_of(s, windows, debug).push(x)
        } else {
            visible_of(s, windows, debug)
        },
    decreases s.len(),
{
    if s.len() == 0 {
        assert(s.push(x)[0] == x);
        assert(s.push(x).drop_first() =~= Seq::<SlashCommand>::empty());
        assert(visible_of(Seq::<SlashCommand>::empty(), windows, debug) == Seq::<
            SlashCommand,
        >::empty());
        assert(s =~= Seq::<SlashCommand>::empty());
        if is_visible_spec(x, windows, debug) {
            assert(seq![x] + Seq::<SlashCommand>::empty() =~= Seq::<
                SlashCommand,
            >::empty().push(x));
        }
    } else {
        let rest = s.drop_first();
        assert(s.push(x).len() == s.len() + 1);
        assert(s.push(x)[0] == s[0]);
        assert(s.push(x).drop_first() =~= rest.push(x));
        lemma_visible_of_push(rest, x, windows, debug);
        if is_visible_spec(s[0], windows, debug) {
            assert(visible_of(s.push(x), windows, debug) == seq![s[0]] + visible_of(
                rest.push(x),
                windows,
                debug,
            ));
            assert(visible_of(s, windows, debug) == seq![s[0]] + visible_of(rest, windows, debug));
            if is_visible_spec(x, windows, debug) {
                assert(seq![s[0]] + visible_of(rest, windows, debug).push(x) =~= (seq![s[0]]
                    + visible_of(rest, windows, debug)).push(x));
            }
        } else {
            assert(visible_of(s.push(x), windows, debug) == visible_of(
                rest.push(x),
                windows,
                debug,
            ));
            assert(visible_of(s, windows, debug) == visible_of(rest, windows, debug));
        }
    }
}

impl SlashCommand {
    /// User-visible description shown in the popup, in the language in
    /// use.
    pub fn description(self, use_zh: bool) -> (r: &'static str)
        ensures
            r@ == description_spec(self, use_zh),
    {
        match self {
            SlashCommand::Feedback => crate::i18n::tr(
                "send logs to maintainers",
                "发送日志给维护者",
                use_zh,
            ),
            SlashCommand::New => crate::i18n::tr(
                "start a new chat during a conversation",
                "在当前会话中开启新对话",
                use_zh,
            ),
            SlashCommand::Init => crate::i18n::tr(
                "create an AGENTS.md file with instructions for Codex",
                "创建 AGENTS.md 指令文件",
                use_zh,
            ),
            SlashCommand::Compact => crate::i18n::tr(
                "summarize conversation to prevent hitting the context limit",
                "压缩总结对话，避免触发上下文上限",
                use_zh,
            ),
            SlashCommand::Review => crate::i18n::tr(
                "review my current changes and find issues",
                "审查当前改动并找问题",
                use_zh,
            ),
            SlashCommand::Rename => crate::i18n::tr(
                "rename the current thread",
                "重命名当前会话",
                use_zh,
            ),
            SlashCommand::Resume => crate::i18n::tr(
                "resume a saved chat",
                "恢复已保存会话",
                use_zh,
            ),
            SlashCommand::Fork => crate::i18n::tr(
                "fork the current chat",
                "从当前会话分叉",
                use_zh,
            ),
            SlashCommand::Quit => crate::i18n::tr("exit Codex", "退出 Codex", use_zh),
            SlashCommand::Exit => crate::i18n::tr("exit Codex", "退出 Codex", use_zh),
            SlashCommand::Diff => crate::i18n::tr(
                "show git diff (including untracked files)",
                "显示 git diff（含未跟踪文件）",
                use_zh,
            ),
            SlashCommand::Mention => crate::i18n::tr("mention a file", "引用文件", use_zh),
            SlashCommand::Skills => crate::i18n::tr(
                "use skills to improve how Codex performs specific tasks",
                "使用技能来提升特定任务效果",
                use_zh,
            ),
            SlashCommand::Status => crate::i18n::tr(
                "show current session configuration and token usage",
                "显示当前会话配置与 token 使用",
                use_zh,
            ),
            SlashCommand::DebugConfig => crate::i18n::tr(
                "show config layers and requirement sources for debugging",
                "显示配置层级与来源（调试用）",
                use_zh,
            ),
            SlashCommand::Statusline => crate::i18n::tr(
                "configure which items appear in the status line",
                "配置状态栏显示项",
                use_zh,
            ),
            SlashCommand::Ps => crate::i18n::tr(
                "list background terminals",
                "列出后台终端",
                use_zh,
            ),
            SlashCommand::Clean => crate::i18n::tr(
                "stop all background terminals",
                "停止所有后台终端",
                use_zh,
            ),
            SlashCommand::MemoryDrop => crate::i18n::tr("DO NOT USE", "请勿使用", use_zh),
            SlashCommand::MemoryUpdate => crate::i18n::tr("DO NOT USE", "请勿使用", use_zh),
            SlashCommand::Model => crate::i18n::tr(
                "choose what model and reasoning effort to use",
                "选择模型与推理强度",
                use_zh,
            ),
            SlashCommand::Personality => crate::i18n::tr(
                "choose a communication style for Codex",
                "选择 Codex 的表达风格",
                use_zh,
            ),
            SlashCommand::Plan => crate::i18n::tr(
                "switch to Plan mode",
                "切换到 Plan 模式",
                use_zh,
            ),
            SlashCommand::Collab => crate::i18n::tr(
                "change collaboration mode (experimental)",
                "切换协作模式（实验）",
                use_zh,
            ),
            SlashCommand::Agent => crate::i18n::tr(
                "switch the active agent thread",
                "切换活动代理线程",
                use_zh,
            ),
            SlashCommand::Approvals => crate::i18n::tr(
                "choose what Codex is allowed to do",
                "设置 Codex 允许执行的操作",
                use_zh,
            ),
            SlashCommand::Permissions => crate::i18n::tr(
                "choose what Codex is allowed to do",
                "设置 Codex 允许执行的操作",
                use_zh,
            ),
            SlashCommand::ElevateSandbox => crate::i18n::tr(
                "set up elevated agent sandbox",
                "设置高权限智能体沙盒",
                use_zh,
            ),
            SlashCommand::SandboxReadRoot => crate::i18n::tr(
                "let sandbox read a directory: /sandbox-add-read-dir <absolute_path>",
                "允许沙盒读取目录：/sandbox-add-read-dir <absolute_path>",
                use_zh,
            ),
            SlashCommand::Experimental => crate::i18n::tr(
                "toggle experimental features",
                "切换实验功能",
                use_zh,
            ),
            SlashCommand::Mcp => crate::i18n::tr(
                "list configured MCP tools",
                "列出已配置的 MCP 工具",
                use_zh,
            ),
            SlashCommand::Apps => crate::i18n::tr("manage apps", "管理应用", use_zh),
            SlashCommand::Logout => crate::i18n::tr("log out of Codex", "退出登录", use_zh),
            SlashCommand::Rollout => crate::i18n::tr(
                "print the rollout file path",
                "输出 rollout 文件路径",
                use_zh,
            ),
            SlashCommand::TestApproval => crate::i18n::tr(
                "test approval request",
                "测试审批请求",
                use_zh,
            ),
        }
    }

    /// Command string without the leading '/'.
    pub fn command(self) -> (r: &'static str)
        ensures
            r@ == command_spec(self),
    {
        match self {
            SlashCommand::Model => "model",
            SlashCommand::Approvals => "approvals",
            SlashCommand::Permissions => "permissions",
            SlashCommand::ElevateSandbox => "setup-default-sandbox",
            SlashCommand::SandboxReadRoot => "sandbox-add-read-dir",
            SlashCommand::Experimental => "experimental",
            SlashCommand::Skills => "skills",
            SlashCommand::Review => "review",
            SlashCommand::Rename => "rename",
            SlashCommand::New => "new",
            SlashCommand::Resume => "resume",
            SlashCommand::Fork => "fork",
            SlashCommand::Init => "init",
            SlashCommand::Compact => "compact",
            SlashCommand::Plan => "plan",
            SlashCommand::Collab => "collab",
            SlashCommand::Agent => "agent",
            SlashCommand::Diff => "diff",
            SlashCommand::Mention => "mention",
            SlashCommand::Status => "status",
            SlashCommand::DebugConfig => "debug-config",
            SlashCommand::Statusline => "statusline",
            SlashCommand::Mcp => "mcp",
            SlashCommand::Apps => "apps",
            SlashCommand::Logout => "logout",
            SlashCommand::Quit => "quit",
            SlashCommand::Exit => "exit",
            SlashCommand::Feedback => "feedback",
            SlashCommand::Rollout => "rollout",
            SlashCommand::Ps => "ps",
            SlashCommand::Clean => "clean",
            SlashCommand::Personality => "personality",
            SlashCommand::TestApproval => "test-approval",
            SlashCommand::MemoryDrop => "debug-m-drop",
            SlashCommand::MemoryUpdate => "debug-m-update",
        }
    }

    /// Whether this command supports inline args (for example `/review ...`).
    pub fn supports_inline_args(self) -> (r: bool)
        ensures
            r == (self is Review || self is Rename || self is Plan || self is SandboxReadRoot),
    {
        matches!(
            self,
            SlashCommand::Review
                | SlashCommand::Rename
                | SlashCommand::Plan
                | SlashCommand::SandboxReadRoot
        )
    }

    /// Whether this command can be run while a task is in progress.
    pub fn available_during_task(self) -> (r: bool)
        ensures
            r == available_during_task_spec(self),
    {
        match self {
            SlashCommand::New
            | SlashCommand::Resume
            | SlashCommand::Fork
            | SlashCommand::Init
            | SlashCommand::Compact
            | SlashCommand::Model
            | SlashCommand::Personality
            | SlashCommand::Approvals
            | SlashCommand::Permissions
            | SlashCommand::ElevateSandbox
            | SlashCommand::SandboxReadRoot
            | SlashCommand::Experimental
            | SlashCommand::Review
            | SlashCommand::Plan
            | SlashCommand::Logout
            | SlashCommand::MemoryDrop
            | SlashCommand::MemoryUpdate => false,
            SlashCommand::Diff
            | SlashCommand::Rename
            | SlashCommand::Mention
            | SlashCommand::Skills
            | SlashCommand::Status
            | SlashCommand::DebugConfig
            | SlashCommand::Ps
            | SlashCommand::Clean
            | SlashCommand::Mcp
            | SlashCommand::Apps
            | SlashCommand::Feedback
            | SlashCommand::Quit
            | SlashCommand::Exit => true,
            SlashCommand::Rollout => true,
            SlashCommand::TestApproval => true,
            SlashCommand::Collab => true,
            SlashCommand::Agent => true,
            SlashCommand::Statusline => false,
        }
    }

    /// Whether this command is shown. The platform and build flavour are
    /// the host's to say: `windows` on that platform, `debug` in debug
    /// builds.
    pub fn is_visible(self, windows: bool, debug: bool) -> (r: bool)
        ensures
            r == is_visible_spec(self, windows, debug),
    {
        match self {
            SlashCommand::SandboxReadRoot => windows,
            SlashCommand::Rollout | SlashCommand::TestApproval => debug,
            _ => true,
        }
    }
}

/// Whether a command can be run while a task is in progress.
pub open spec fn available_during_task_spec(c: SlashCommand) -> bool {
    match c {
        SlashCommand::New => false,
        SlashCommand::Resume => false,
        SlashCommand::Fork => false,
        SlashCommand::Init => false,
        SlashCommand::Compact => false,
        SlashCommand::Model => false,
        SlashCommand::Personality => false,
        SlashCommand::Approvals => false,
        SlashCommand::Permissions => false,
        SlashCommand::ElevateSandbox => false,
        SlashCommand::SandboxReadRoot => false,
        SlashCommand::Experimental => false,
        SlashCommand::Review => false,
        SlashCommand::Plan => false,
        SlashCommand::Logout => false,
        SlashCommand::MemoryDrop => false,
        SlashCommand::MemoryUpdate => false,
        SlashCommand::Statusline => false,
        _ => true,
    }
}

/// Every command, in presentation order.
pub fn all_slash_commands() -> (r: Vec<SlashCommand>)
    ensures
        r@ == all_commands_spec(),
{
    let mut v: Vec<SlashCommand> = Vec::new();
    v.push(SlashCommand::Model);
    v.push(SlashCommand::Approvals);
    v.push(SlashCommand::Permissions);
    v.push(SlashCommand::ElevateSandbox);
    v.push(SlashCommand::SandboxReadRoot);
    v.push(SlashCommand::Experimental);
    v.push(SlashCommand::Skills);
    v.push(SlashCommand::Review);
    v.push(SlashCommand::Rename);
    v.push(SlashCommand::New);
    v.push(SlashCommand::Resume);
    v.push(SlashCommand::Fork);
    v.push(SlashCommand::Init);
    v.push(SlashCommand::Compact);
    v.push(SlashCommand::Plan);
    v.push(SlashCommand::Collab);
    v.push(SlashCommand::Agent);
    v.push(SlashCommand::Diff);
    v.push(SlashCommand::Mention);
    v.push(SlashCommand::Status);
    v.push(SlashCommand::DebugConfig);
    v.push(SlashCommand::Statusline);
    v.push(SlashCommand::Mcp);
    v.push(SlashCommand::Apps);
    v.push(SlashCommand::Logout);
    v.push(SlashCommand::Quit);
    v.push(SlashCommand::Exit);
    v.push(SlashCommand::Feedback);
    v.push(SlashCommand::Rollout);
    v.push(SlashCommand::Ps);
    v.push(SlashCommand::Clean);
    v.push(SlashCommand::Personality);
    v.push(SlashCommand::TestApproval);
    v.push(SlashCommand::MemoryDrop);
    v.push(SlashCommand::MemoryUpdate);
    proof {
        assert(v@ =~= all_commands_spec());
    }
    v
}

/// All visible commands, in order, each paired with its command string.
pub fn built_in_slash_commands(windows: bool, debug: bool) -> (r: Vec<
    (&'static str, SlashCommand),
>)
    ensures
        r@.len() == visible_of(all_commands_spec(), windows, debug).len(),
        forall|i: int|
            0 <= i < r@.len() ==> (#[trigger] r@[i]).1 == visible_of(
                all_commands_spec(),
                windows,
                debug,
            )[i] && r@[i].0@ == command_spec(r@[i].1),
{
    let all = all_slash_commands();
    let mut out: Vec<(&'static str, SlashCommand)> = Vec::new();
    let mut i: usize = 0;
    proof {
        assert(all@.subrange(0, 0) =~= Seq::<SlashCommand>::empty());
    }
    while i < all.len()
        invariant
            all@ == all_commands_spec(),
            0 <= i <= all@.len(),
            out@.len() == visible_of(all@.subrange(0, i as int), windows, debug).len(),
            forall|j: int|
                0 <= j < out@.len() ==> (#[trigger] out@[j]).1 == visible_of(
                    all@.subrange(0, i as int),
                    windows,
                    debug,
                )[j] && out@[j].0@ == command_spec(out@[j].1),
        decreases all@.len() - i,
    {
        let c = all[i];
        proof {
            assert(all@.subrange(0, i + 1) =~= all@.subrange(0, i as int).push(all@[i as int]));
            lemma_visible_of_push(all@.subrange(0, i as int), all@[i as int], windows, debug);
        }
        if c.is_visible(windows, debug) {
            let name = c.command();
            out.push((name, c));
        }
        i += 1;
    }
    proof {
        assert(all@.subrange(0, all@.len() as int) =~= all@);
    }
    out
}

} // verus!
