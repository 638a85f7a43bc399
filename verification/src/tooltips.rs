//! Tooltips shown when the terminal starts.
//!
//! The host hands over the raw tooltip file and the running session's
//! facts (plan, platform, language, a fetched announcement); this module
//! filters the file, draws the tooltip and localizes it.

use rand::RngExt;
use vstd::prelude::*;

verus! {

use crate::text::contains_spec;
use crate::text::trim_spec;

/// The index of the first newline in `s`, or `s.len()` if there is none.
pub open spec fn first_newline(s: Seq<char>) -> int
    decreases s.len(),
{
    if s.len() == 0 {
        0
    } else if s[0] == '\n' {
        0
    } else {
        1 + first_newline(s.drop_first())
    }
}

/// The lines of `s`: split at each newline, no extra empty line after a
/// trailing newline.
pub open spec fn split_lines_spec(s: Seq<char>) -> Seq<Seq<char>>
    decreases s.len(),
{
    if s.len() == 0 {
        Seq::empty()
    } else if s[0] == '\n' {
        seq![Seq::<char>::empty()] + split_lines_spec(s.drop_first())
    } else if s.len() == 1 {
        seq![s]
    } else {
        let rest = split_lines_spec(s.drop_first());
        seq![seq![s[0]] + rest[0]] + rest.drop_first()
    }
}

/// A line of the tooltip file is kept when its trimmed text is not empty,
/// is no comment, and does not mention the desktop application on a
/// platform without it.
pub open spec fn tooltip_kept(line: Seq<char>, is_macos: bool) -> bool {
    let t = trim_spec(line);
    t.len() > 0 && t[0] != '#' && (is_macos || !contains_spec(t, "codex app"@))
}

/// The kept lines, trimmed, in order.
pub open spec fn kept_tooltips(lines: Seq<Seq<char>>, is_macos: bool) -> Seq<Seq<char>>
    decreases lines.len(),
{
    if lines.len() == 0 {
        Seq::empty()
    } else {
        let rest = kept_tooltips(lines.drop_first(), is_macos);
        if tooltip_kept(lines[0], is_macos) {
            seq![trim_spec(lines[0])] + rest
        } else {
            rest
        }
    }
}

proof fn lemma_split_at_newline(s: Seq<char>, j: int)
    requires
        s.len() > 0,
        0 <= j <= s.len(),
        forall|k: int| 0 <= k < j ==> s[k] != '\n',
        j < s.len() ==> s[j] == '\n',
    ensures
        split_lines_spec(s) == seq![s.subrange(0, j)] + split_lines_spec(
            s.subrange(
                if j + 1 <= s.len() {
                    j + 1
                } else {
                    s.len() as int
                },
                s.len() as int,
            ),
        ),
    decreases j,
{
    if j == 0 {
        assert(s[0] == '\n');
        assert(s.subrange(0, 0) =~= Seq::<char>::empty());
        assert(s.drop_first() =~= s.subrange(1, s.len() as int));
    } else {
        assert(s[0] != '\n');
        if s.len() == 1 {
            assert(j == 1);
            assert(s.subrange(0, 1) =~= s);
            assert(s.subrange(1, 1) =~= Seq::<char>::empty());
            assert(split_lines_spec(Seq::<char>::empty()) == Seq::<Seq<char>>::empty());
            assert(seq![s] =~= seq![s.subrange(0, 1)] + split_lines_spec(s.subrange(1, 1)));
        } else {
            let rest = s.drop_first();
            assert forall|k: int| 0 <= k < j - 1 implies rest[k] != '\n' by {
                assert(rest[k] == s[k + 1]);
            }
            assert(j - 1 < rest.len() ==> rest[j - 1] == s[j]);
            lemma_split_at_newline(rest, j - 1);
            let next = if j + 1 <= s.len() {
                j + 1
            } else {
                s.len() as int
            };
            let next_r = if j <= rest.len() {
                j
            } else {
                rest.len() as int
            };
            assert(rest.subrange(0, j - 1) =~= s.subrange(1, j));
            assert(rest.subrange(next_r, rest.len() as int) =~= s.subrange(next, s.len() as int));
            assert(seq![s[0]] + rest.subrange(0, j - 1) =~= s.subrange(0, j));
            assert((seq![seq![s[0]] + split_lines_spec(rest)[0]] + split_lines_spec(
                rest,
            ).drop_first()) =~= seq![s.subrange(0, j)] + split_lines_spec(
                s.subrange(next, s.len() as int),
            ));
        }
    }
}

/// Filter the raw tooltip file: one tooltip per kept line, trimmed.
pub fn filter_tooltips(raw: &str, is_macos: bool) -> (r: Vec<String>)
    ensures
        r@.len() == kept_tooltips(split_lines_spec(raw@), is_macos).len(),
        forall|k: int|
            0 <= k < r@.len() ==> (#[trigger] r@[k])@ == kept_tooltips(
                split_lines_spec(raw@),
                is_macos,
            )[k],
{
    let total = raw.unicode_len();
    let mut out: Vec<String> = Vec::new();
    let mut pos: usize = 0;
    proof {
        assert(raw@.subrange(0, total as int) =~= raw@);
    }
    while pos < total
        invariant
            total == raw@.len(),
            0 <= pos <= total,
            kept_tooltips(split_lines_spec(raw@), is_macos).len() == out@.len() + kept_tooltips(
                split_lines_spec(raw@.subrange(pos as int, total as int)),
                is_macos,
            ).len(),
            forall|k: int|
                0 <= k < out@.len() ==> (#[trigger] out@[k])@ == kept_tooltips(
                    split_lines_spec(raw@),
                    is_macos,
                )[k],
            forall|k: int|
                0 <= k < kept_tooltips(
                    split_lines_spec(raw@.subrange(pos as int, total as int)),
                    is_macos,
                ).len() ==> #[trigger] kept_tooltips(
                    split_lines_spec(raw@.subrange(pos as int, total as int)),
                    is_macos,
                )[k] == kept_tooltips(split_lines_spec(raw@), is_macos)[out@.len() + k],
        decreases total - pos,
    {
        let mut j: usize = pos;
        while j < total && raw.get_char(j) != '\n'
            invariant
                total == raw@.len(),
                pos <= j <= total,
                forall|k: int| pos <= k < j ==> raw@[k] != '\n',
            decreases total - j,
        {
            j += 1;
        }
        let line = raw.substring_char(pos, j);
        let new_pos = if j < total {
            j + 1
        } else {
            total
        };
        proof {
            let rem = raw@.subrange(pos as int, total as int);
            assert forall|k: int| 0 <= k < j - pos implies rem[k] != '\n' by {
                assert(rem[k] == raw@[pos + k]);
            }
            assert(j < total ==> rem[j - pos] == raw@[j as int]);
            lemma_split_at_newline(rem, j - pos);
            assert(rem.subrange(0, j - pos) =~= raw@.subrange(pos as int, j as int));
            assert(rem.subrange(
                if j - pos + 1 <= rem.len() {
                    j - pos + 1
                } else {
                    rem.len() as int
                },
                rem.len() as int,
            ) =~= raw@.subrange(new_pos as int, total as int));
            let lines_rem = split_lines_spec(rem);
            let lines_next = split_lines_spec(raw@.subrange(new_pos as int, total as int));
            assert(lines_rem == seq![line@] + lines_next);
            assert(lines_rem[0] == line@);
            assert(lines_rem.drop_first() =~= lines_next);
        }
        let t = crate::text::trim_str(line);
        let keep = t.unicode_len() > 0 && t.get_char(0) != '#' && (is_macos || !crate::text::contains(
            t,
            "codex app",
        ));
        let ghost olen = out@.len() as int;
        let ghost kf = kept_tooltips(split_lines_spec(raw@), is_macos);
        let ghost kept_next = kept_tooltips(
            split_lines_spec(raw@.subrange(new_pos as int, total as int)),
            is_macos,
        );
        let ghost kept_rem = kept_tooltips(
            split_lines_spec(raw@.subrange(pos as int, total as int)),
            is_macos,
        );
        proof {
            assert(keep == tooltip_kept(line@, is_macos));
            assert(kept_rem == if tooltip_kept(line@, is_macos) {
                seq![trim_spec(line@)] + kept_next
            } else {
                kept_next
            });
        }
        if keep {
            out.push(t.to_owned());
            proof {
                assert(kept_rem[0] == trim_spec(line@));
                assert(kf[olen] == kept_rem[0]);
                assert(out@[olen]@ == kf[olen]);
                assert forall|k: int| 0 <= k < kept_next.len() implies #[trigger] kept_next[k]
                    == kf[out@.len() + k] by {
                    assert(kept_rem[1 + k] == kf[olen + 1 + k]);
                    assert(kept_next[k] == kept_rem[1 + k]);
                }
            }
        } else {
            proof {
                assert forall|k: int| 0 <= k < kept_next.len() implies #[trigger] kept_next[k]
                    == kf[out@.len() + k] by {
                    assert(kept_rem[k] == kf[olen + k]);
                }
            }
        }
        pos = new_pos;
    }
    proof {
        assert(raw@.subrange(pos as int, total as int) =~= Seq::<char>::empty());
        assert(split_lines_spec(Seq::<char>::empty()) == Seq::<Seq<char>>::empty());
        assert(kept_tooltips(Seq::<Seq<char>>::empty(), is_macos) == Seq::<Seq<char>>::empty());
    }
    out
}

/// The account plan of the signed-in session, as far as the tooltip choice
/// cares; plans outside this list behave like `Unknown`.
#[derive(Clone, Copy, Debug, PartialEq, Eq, Structural)]
pub enum PlanType {
    Free,
    Go,
    Plus,
    Pro,
    Business,
    Team,
    Enterprise,
    Edu,
    Unknown,
}

/// The promotional tooltip for paid plans.
pub open spec fn paid_tooltip_spec(use_zh: bool, is_macos: bool) -> Seq<char> {
    if is_macos {
        if use_zh {
            "*新功能* 在 *4 月 2 日* 前可体验 **Codex App**（速率上限 2 倍）。运行 `codex app` 或访问 https://chatgpt.com/codex?app-landing-page=true"@
        } else {
            "*New* Try the **Codex App** with 2x rate limits until *April 2nd*. Run 'codex app' or visit https://chatgpt.com/codex?app-landing-page=true"@
        }
    } else {
        if use_zh {
            "*新功能* 在 *4 月 2 日* 前享受 2 倍速率上限。"@
        } else {
            "*New* 2x rate limits until *April 2nd*."@
        }
    }
}

fn paid_tooltip(use_zh: bool, is_macos: bool) -> (r: &'static str)
    ensures
        r@ == paid_tooltip_spec(use_zh, is_macos),
{
    if is_macos {
        crate::i18n::tr(
            "*New* Try the **Codex App** with 2x rate limits until *April 2nd*. Run 'codex app' or visit https://chatgpt.com/codex?app-landing-page=true",
            "*新功能* 在 *4 月 2 日* 前可体验 **Codex App**（速率上限 2 倍）。运行 `codex app` 或访问 https://chatgpt.com/codex?app-landing-page=true",
            use_zh,
        )
    } else {
        crate::i18n::tr(
            "*New* 2x rate limits until *April 2nd*.",
            "*新功能* 在 *4 月 2 日* 前享受 2 倍速率上限。",
            use_zh,
        )
    }
}

/// The promotional tooltip for the remaining plans.
pub open spec fn other_tooltip_spec(use_zh: bool, is_macos: bool) -> Seq<char> {
    if is_macos {
        if use_zh {
            "*新功能* 用 **Codex App** 更快构建。运行 `codex app` 或访问 https://chatgpt.com/codex?app-landing-page=true"@
        } else {
            "*New* Build faster with the **Codex App**. Run 'codex app' or visit https://chatgpt.com/codex?app-landing-page=true"@
        }
    } else {
        if use_zh {
            "*新功能* 用 Codex 更快构建。"@
        } else {
            "*New* Build faster with Codex."@
        }
    }
}

fn other_tooltip(use_zh: bool, is_macos: bool) -> (r: &'static str)
    ensures
        r@ == other_tooltip_spec(use_zh, is_macos),
{
    if is_macos {
        crate::i18n::tr(
            "*New* Build faster with the **Codex App**. Run 'codex app' or visit https://chatgpt.com/codex?app-landing-page=true",
            "*新功能* 用 **Codex App** 更快构建。运行 `codex app` 或访问 https://chatgpt.com/codex?app-landing-page=true",
            use_zh,
        )
    } else {
        crate::i18n::tr(
            "*New* Build faster with Codex.",
            "*新功能* 用 Codex 更快构建。",
            use_zh,
        )
    }
}

/// The promotional tooltip for the free and go plans.
pub open spec fn free_go_tooltip_spec(use_zh: bool) -> Seq<char> {
    if use_zh {
        "*新功能* 在 *3 月 2 日* 前，Codex 已免费包含在你的套餐中，一起构建吧。"@
    } else {
        "*New* Codex is included in your plan for free through *March 2nd* – let’s build together."@
    }
}

fn free_go_tooltip(use_zh: bool) -> (r: &'static str)
    ensures
        r@ == free_go_tooltip_spec(use_zh),
{
    crate::i18n::tr(
        "*New* Codex is included in your plan for free through *March 2nd* – let’s build together.",
        "*新功能* 在 *3 月 2 日* 前，Codex 已免费包含在你的套餐中，一起构建吧。",
        use_zh,
    )
}

/// Relies on `rand::rng` and `rand::Rng::random_ratio`: a Bernoulli draw.
/// Nothing is promised of the outcome.
#[verifier::external_body]
fn random_chance_8_in_10() -> bool {
    rand::rng().random_ratio(8, 10)
}

/// Relies on `rand::rng` and `rand::Rng::random_range`: an index drawn
/// below `n`. Nothing more is promised of the outcome.
#[verifier::external_body]
fn random_index(n: usize) -> (r: usize)
    requires
        n > 0,
    ensures
        r < n,
{
    rand::rng().random_range(0..n)
}

/// Pick a random tooltip from the list: one of its entries, or nothing
/// exactly when the list is empty.
pub fn pick_tooltip(tips: &Vec<String>) -> (r: Option<String>)
    ensures
        r is Some <==> tips@.len() > 0,
        r matches Some(t) ==> exists|i: int| 0 <= i < tips@.len() && t@ == (#[trigger] tips@[i])@,
{
    if tips.len() == 0 {
        None
    } else {
        let i = random_index(tips.len());
        let t = tips[i].clone();
        proof {
            assert(t@ == tips@[i as int]@);
        }
        Some(t)
    }
}

/// The Chinese rendering of the built-in tooltips; a tooltip without one,
/// or any tooltip when English is in use, is returned as it came.
pub open spec fn localize_tooltip_spec(tip: Seq<char>, use_zh: bool) -> Seq<char> {
    if !use_zh {
        tip
    } else if tip == "Use /compact when the conversation gets long to summarize history and free up context."@ {
        "当对话变长时，使用 /compact 总结历史并释放上下文。"@
    } else if tip == "Start a fresh idea with /new; the previous session stays in history."@ {
        "用 /new 开启新话题；上一会话会保留在历史中。"@
    } else if tip == "Use /feedback to send logs to the maintainers when something looks off."@ {
        "出现异常时，用 /feedback 把日志发给维护者。"@
    } else if tip == "Switch models or reasoning effort quickly with /model."@ {
        "用 /model 可快速切换模型或推理强度。"@
    } else if tip == "Use /permissions to control when Codex asks for confirmation."@ {
        "用 /permissions 控制 Codex 何时请求确认。"@
    } else if tip == "Run /review to get a code review of your current changes."@ {
        "运行 /review 获取当前改动的代码审查。"@
    } else if tip == "Use /skills to list available skills or ask Codex to use one."@ {
        "用 /skills 查看可用技能，或让 Codex 使用某个技能。"@
    } else if tip == "Use /status to see the current model, approvals, and token usage."@ {
        "用 /status 查看当前模型、审批策略和 Token 使用情况。"@
    } else if tip == "Use /fork to branch the current chat into a new thread."@ {
        "用 /fork 将当前聊天分叉为新线程。"@
    } else if tip == "Use /init to create an AGENTS.md with project-specific guidance."@ {
        "用 /init 创建带项目指引的 AGENTS.md。"@
    } else if tip == "Use /mcp to list configured MCP tools."@ {
        "用 /mcp 查看已配置的 MCP 工具。"@
    } else if tip == "Run `codex app` to open Codex Desktop (it installs on macOS if needed)."@ {
        "运行 `codex app` 打开 Codex 桌面端（macOS 缺失时会自动安装）。"@
    } else if tip == "Use /personality to customize how Codex communicates."@ {
        "用 /personality 自定义 Codex 的沟通风格。"@
    } else if tip == "Use /rename to rename your threads for easier thread resuming."@ {
        "用 /rename 重命名线程，便于后续恢复。"@
    } else if tip == "Use the OpenAI docs MCP for API questions; enable it with `codex mcp add openaiDeveloperDocs --url https://developers.openai.com/mcp`."@ {
        "遇到 API 问题可用 OpenAI Docs MCP；可通过 `codex mcp add openaiDeveloperDocs --url https://developers.openai.com/mcp` 启用。"@
    } else if tip == "Join the OpenAI community Discord: http://discord.gg/openai"@ {
        "加入 OpenAI 社区 Discord：http://discord.gg/openai"@
    } else if tip == "Visit the Codex community forum: https://community.openai.com/c/codex/37"@ {
        "访问 Codex 社区论坛：https://community.openai.com/c/codex/37"@
    } else if tip == "You can run any shell command from Codex using `!` (e.g. `!ls`)"@ {
        "你可以在 Codex 中用 `!` 运行任意 shell 命令（例如 `!ls`）。"@
    } else if tip == "Type / to open the command popup; Tab autocompletes slash commands."@ {
        "输入 / 打开命令弹窗；Tab 可自动补全斜杠命令。"@
    } else if tip == "When the composer is empty, press Esc to step back and edit your last message; Enter confirms."@ {
        "当输入框为空时，按 Esc 可回退并编辑上一条消息；Enter 确认。"@
    } else if tip == "Press Tab to queue a message when a task is running; otherwise it sends immediately (except `!`)."@ {
        "任务运行中按 Tab 可将消息入队；否则会立即发送（`!` 例外）。"@
    } else if tip == "Paste an image with Ctrl+V to attach it to your next message."@ {
        "按 Ctrl+V 粘贴图片，可将其附加到下一条消息。"@
    } else if tip == "You can resume a previous conversation by running `codex resume`"@ {
        "运行 `codex resume` 可恢复之前的对话。"@
    } else {
        tip
    }
}

/// Localize a built-in tooltip.
pub fn localize_tooltip(tip: &str, use_zh: bool) -> (r: String)
    ensures
        r@ == localize_tooltip_spec(tip@, use_zh),
{
    if !use_zh {
        return tip.to_owned();
    }
    if crate::text::str_eq(
        tip,
        "Use /compact when the conversation gets long to summarize history and free up context.",
    ) {
        String::from_str("当对话变长时，使用 /compact 总结历史并释放上下文。")
    } else if crate::text::str_eq(
        tip,
        "Start a fresh idea with /new; the previous session stays in history.",
    ) {
        String::from_str("用 /new 开启新话题；上一会话会保留在历史中。")
    } else if crate::text::str_eq(
        tip,
        "Use /feedback to send logs to the maintainers when something looks off.",
    ) {
        String::from_str("出现异常时，用 /feedback 把日志发给维护者。")
    } else if crate::text::str_eq(tip, "Switch models or reasoning effort quickly with /model.") {
        String::from_str("用 /model 可快速切换模型或推理强度。")
    } else if crate::text::str_eq(
        tip,
        "Use /permissions to control when Codex asks for confirmation.",
    ) {
        String::from_str("用 /permissions 控制 Codex 何时请求确认。")
    } else if crate::text::str_eq(
        tip,
        "Run /review to get a code review of your current changes.",
    ) {
        String::from_str("运行 /review 获取当前改动的代码审查。")
    } else if crate::text::str_eq(
        tip,
        "Use /skills to list available skills or ask Codex to use one.",
    ) {
        String::from_str("用 /skills 查看可用技能，或让 Codex 使用某个技能。")
    } else if crate::text::str_eq(
        tip,
        "Use /status to see the current model, approvals, and token usage.",
    ) {
        String::from_str("用 /status 查看当前模型、审批策略和 Token 使用情况。")
    } else if crate::text::str_eq(
        tip,
        "Use /fork to branch the current chat into a new thread.",
    ) {
        String::from_str("用 /fork 将当前聊天分叉为新线程。")
    } else if crate::text::str_eq(
        tip,
        "Use /init to create an AGENTS.md with project-specific guidance.",
    ) {
        String::from_str("用 /init 创建带项目指引的 AGENTS.md。")
    } else if crate::text::str_eq(tip, "Use /mcp to list configured MCP tools.") {
        String::from_str("用 /mcp 查看已配置的 MCP 工具。")
    } else if crate::text::str_eq(
        tip,
        "Run `codex app` to open Codex Desktop (it installs on macOS if needed).",
    ) {
        String::from_str("运行 `codex app` 打开 Codex 桌面端（macOS 缺失时会自动安装）。")
    } else if crate::text::str_eq(tip, "Use /personality to customize how Codex communicates.") {
        String::from_str("用 /personality 自定义 Codex 的沟通风格。")
    } else if crate::text::str_eq(
        tip,
        "Use /rename to rename your threads for easier thread resuming.",
    ) {
        String::from_str("用 /rename 重命名线程，便于后续恢复。")
    } else if crate::text::str_eq(
        tip,
        "Use the OpenAI docs MCP for API questions; enable it with `codex mcp add openaiDeveloperDocs --url https://developers.openai.com/mcp`.",
    ) {
        String::from_str(
            "遇到 API 问题可用 OpenAI Docs MCP；可通过 `codex mcp add openaiDeveloperDocs --url https://developers.openai.com/mcp` 启用。",
        )
    } else if crate::text::str_eq(tip, "Join the OpenAI community Discord: http://discord.gg/openai") {
        String::from_str("加入 OpenAI 社区 Discord：http://discord.gg/openai")
    } else if crate::text::str_eq(
        tip,
        "Visit the Codex community forum: https://community.openai.com/c/codex/37",
    ) {
        String::from_str("访问 Codex 社区论坛：https://community.openai.com/c/codex/37")
    } else if crate::text::str_eq(
        tip,
        "You can run any shell command from Codex using `!` (e.g. `!ls`)",
    ) {
        String::from_str("你可以在 Codex 中用 `!` 运行任意 shell 命令（例如 `!ls`）。")
    } else if crate::text::str_eq(
        tip,
        "Type / to open the command popup; Tab autocompletes slash commands.",
    ) {
        String::from_str("输入 / 打开命令弹窗；Tab 可自动补全斜杠命令。")
    } else if crate::text::str_eq(
        tip,
        "When the composer is empty, press Esc to step back and edit your last message; Enter confirms.",
    ) {
        String::from_str("当输入框为空时，按 Esc 可回退并编辑上一条消息；Enter 确认。")
    } else if crate::text::str_eq(
        tip,
        "Press Tab to queue a message when a task is running; otherwise it sends immediately (except `!`).",
    ) {
        String::from_str("任务运行中按 Tab 可将消息入队；否则会立即发送（`!` 例外）。")
    } else if crate::text::str_eq(
        tip,
        "Paste an image with Ctrl+V to attach it to your next message.",
    ) {
        String::from_str("按 Ctrl+V 粘贴图片，可将其附加到下一条消息。")
    } else if crate::text::str_eq(
        tip,
        "You can resume a previous conversation by running `codex resume`",
    ) {
        String::from_str("运行 `codex resume` 可恢复之前的对话。")
    } else {
        tip.to_owned()
    }
}

/// The plans whose promotional tooltip is the paid one.
pub open spec fn plan_is_paid(plan: Option<PlanType>) -> bool {
    match plan {
        Some(PlanType::Plus) => true,
        Some(PlanType::Business) => true,
        Some(PlanType::Team) => true,
        Some(PlanType::Enterprise) => true,
        Some(PlanType::Pro) => true,
        _ => false,
    }
}

/// The plans whose promotional tooltip is the free-and-go one.
pub open spec fn plan_is_free_go(plan: Option<PlanType>) -> bool {
    match plan {
        Some(PlanType::Go) => true,
        Some(PlanType::Free) => true,
        _ => false,
    }
}

/// The result is some entry of the tip list, localized.
pub open spec fn localized_from_list(tips: Seq<String>, t: Seq<char>, use_zh: bool) -> bool {
    exists|i: int|
        0 <= i < tips.len() && t == localize_tooltip_spec((#[trigger] tips[i])@, use_zh)
}

/// Pick the tooltip to show at startup.
///
/// A fetched announcement wins outright. Otherwise, most of the time, the
/// promotional tooltip of the session's plan group is shown; now and then
/// a random entry of the tip list (the filtered tooltip file, plus any
/// feature announcements the host adds) is shown instead, localized. The
/// draw is random: what is promised is that the result is the
/// announcement, the plan group's own promotional text, or a localized
/// list entry, and that only an empty list can yield nothing.
pub fn get_tooltip(
    plan: Option<PlanType>,
    announcement: Option<String>,
    tips: &Vec<String>,
    is_macos: bool,
    use_zh: bool,
) -> (r: Option<String>)
    ensures
        announcement matches Some(a) ==> r matches Some(t) && t@ == a@,
        announcement is None ==> match r {
            Some(t) => {
                if plan_is_paid(plan) {
                    t@ == paid_tooltip_spec(use_zh, is_macos) || localized_from_list(
                        tips@,
                        t@,
                        use_zh,
                    )
                } else if plan_is_free_go(plan) {
                    t@ == free_go_tooltip_spec(use_zh) || localized_from_list(tips@, t@, use_zh)
                } else {
                    t@ == other_tooltip_spec(use_zh, is_macos) || localized_from_list(
                        tips@,
                        t@,
                        use_zh,
                    )
                }
            },
            None => tips@.len() == 0,
        },
{
    if let Some(a) = announcement {
        return Some(a);
    }
    if random_chance_8_in_10() {
        match plan {
            Some(PlanType::Plus) | Some(PlanType::Business) | Some(PlanType::Team) | Some(
                PlanType::Enterprise,
            ) | Some(PlanType::Pro) => Some(String::from_str(paid_tooltip(use_zh, is_macos))),
            Some(PlanType::Go) | Some(PlanType::Free) => Some(
                String::from_str(free_go_tooltip(use_zh)),
            ),
            _ => Some(String::from_str(other_tooltip(use_zh, is_macos))),
        }
    } else {
        match pick_tooltip(tips) {
            Some(t) => {
                let l = localize_tooltip(t.as_str(), use_zh);
                proof {
                    let i = choose|i: int| 0 <= i < tips@.len() && t@ == tips@[i]@;
                    assert(l@ == localize_tooltip_spec(tips@[i]@, use_zh));
                    assert(localized_from_list(tips@, l@, use_zh));
                }
                Some(l)
            },
            None => None,
        }
    }
}

} // verus!
