//! Skill metadata helpers: display names, descriptions and their Chinese
//! renderings, and the selection logic for fuzzy skill matching.

use vstd::prelude::*;

verus! {

use crate::text::trim_spec;

/// The optional interface block of a skill's metadata.
#[derive(Clone, Debug)]
pub struct SkillInterface {
    pub display_name: Option<String>,
    pub short_description: Option<String>,
}

/// A skill's metadata, as far as the interface reads it.
#[derive(Clone, Debug)]
pub struct SkillMetadata {
    pub name: String,
    pub description: String,
    pub short_description: Option<String>,
    pub interface: Option<SkillInterface>,
}

/// The name shown for a skill: its interface display name, or its plain
/// name.
pub open spec fn display_name_spec(s: SkillMetadata) -> Seq<char> {
    match s.interface {
        Some(i) => match i.display_name {
            Some(d) => d@,
            None => s.name@,
        },
        None => s.name@,
    }
}

/// The name shown for a skill.
pub fn skill_display_name(skill: &SkillMetadata) -> (r: &str)
    ensures
        r@ == display_name_spec(*skill),
{
    match &skill.interface {
        Some(i) => match &i.display_name {
            Some(d) => d.as_str(),
            None => skill.name.as_str(),
        },
        None => skill.name.as_str(),
    }
}

/// The description shown for a skill: the interface's short description,
/// else the skill's own short description, else its full description.
pub open spec fn description_chain_spec(s: SkillMetadata) -> Seq<char> {
    match s.interface {
        Some(i) => match i.short_description {
            Some(d) => d@,
            None => match s.short_description {
                Some(d) => d@,
                None => s.description@,
            },
        },
        None => match s.short_description {
            Some(d) => d@,
            None => s.description@,
        },
    }
}

/// The description shown for a skill.
pub fn skill_description(skill: &SkillMetadata) -> (r: &str)
    ensures
        r@ == description_chain_spec(*skill),
{
    match &skill.interface {
        Some(i) => match &i.short_description {
            Some(d) => {
                return d.as_str();
            },
            None => {},
        },
        None => {},
    }
    match &skill.short_description {
        Some(d) => d.as_str(),
        None => skill.description.as_str(),
    }
}

/// The Chinese rendering of the descriptions of the known skills, by skill
/// name.
pub open spec fn skill_zh_description_spec(name: Seq<char>) -> Option<Seq<char>> {
    if name == "agent-browser"@ {
        Some("基于 Rust 的高速无头浏览器自动化 CLI（含 Node.js 回退），可用于导航、点击、输入和页面快照。"@)
    } else if name == "atlas"@ {
        Some("仅限 macOS 的 ChatGPT Atlas 桌面端 AppleScript 控制技能；仅在明确需要控制 Atlas 标签/书签/历史时使用。"@)
    } else if name == "autofillin"@ {
        Some("基于 Playwright 的自动填表与文件上传技能，支持登录态保持、表单识别与提交前人工确认。"@)
    } else if name == "browser-daemon"@ {
        Some("基于 Playwright 守护进程的持久浏览器自动化（无 MCP/无 Puppeteer），可持续接收导航与脚本命令。"@)
    } else if name == "browser-max-automation"@ {
        Some("使用 Playwright MCP 的浏览器自动化，适用于网页测试、表单操作、截图与 iframe/复杂 JS 场景。"@)
    } else if name == "clean-code-auditor"@ {
        Some("用于 JS/TS 代码的 Clean Code + SOLID + TDD 审核与重构，重点处理命名、职责划分与错误模型问题。"@)
    } else if name == "cloudflare-deploy"@ {
        Some("将应用与基础设施部署到 Cloudflare（Workers/Pages 等）。"@)
    } else if name == "codex-cli"@ {
        Some("编排 OpenAI Codex CLI 的并行任务执行：协调子任务、上下文注入与会话复用。"@)
    } else if name == "dev-browser"@ {
        Some("带持久页面状态的浏览器自动化技能，适用于导航、填表、截图、抓取和 Web 测试。"@)
    } else if name == "develop-web-game"@ {
        Some("用于 Web 游戏迭代开发：小步修改、Playwright 测试、截图检查和控制台错误回归。"@)
    } else if name == "disk-growth-forensics"@ {
        Some("Windows C 盘突增空间取证流程，支持按时间窗口扫描并给出分级清理建议。"@)
    } else if name == "doc"@ {
        Some("用于 .docx 文档读取/创建/编辑，重视排版与布局一致性。"@)
    } else if name == "e2e-playwright"@ {
        Some("Playwright 端到端测试专家技能，覆盖跨浏览器、视觉回归、移动模拟、可访问性与 CI 集成。"@)
    } else if name == "figma"@ {
        Some("通过 Figma MCP 获取设计上下文、截图、变量与资源，并辅助设计到代码实现。"@)
    } else if name == "figma-implement-design"@ {
        Some("将 Figma 节点高保真实现为生产代码（1:1 视觉还原）。"@)
    } else if name == "find-skills"@ {
        Some("帮助发现并安装可用技能，适合用户询问“有没有技能可做某事”时使用。"@)
    } else if name == "gh-address-comments"@ {
        Some("使用 gh CLI 处理当前分支 PR 的 review/issue 评论，并先校验 gh 登录状态。"@)
    } else if name == "gh-fix-ci"@ {
        Some("排查并修复 GitHub Actions 失败检查：先收集失败上下文和计划，再在获批后实施修复。"@)
    } else if name == "imagegen"@ {
        Some("通过 OpenAI Image API 生成或编辑图片（含修补、换背景、透明底与批量变体）。"@)
    } else if name == "jupyter-notebook"@ {
        Some("创建和维护 Jupyter Notebook（.ipynb），优先使用模板与脚本快速生成。"@)
    } else if name == "linear"@ {
        Some("管理 Linear 工单、项目与团队流程。"@)
    } else if name == "netlify-deploy"@ {
        Some("使用 Netlify CLI 部署网站，支持预览与生产发布。"@)
    } else if name == "notion-knowledge-capture"@ {
        Some("把对话与决策沉淀到结构化 Notion 页面（知识库/FAQ/决策记录）。"@)
    } else if name == "notion-meeting-intelligence"@ {
        Some("结合 Notion 上下文与研究结果，准备会议议程、预读和参会人定制材料。"@)
    } else if name == "notion-research-documentation"@ {
        Some("跨 Notion 做信息检索与综合，输出结构化文档并附引用。"@)
    } else if name == "notion-spec-to-implementation"@ {
        Some("将 Notion 规格转为实施计划、任务拆分与进度跟踪。"@)
    } else if name == "openai-docs"@ {
        Some("当用户询问 OpenAI 产品/API 开发时，提供带引用的官方最新文档答案。"@)
    } else if name == "pdf"@ {
        Some("用于 PDF 的读取、生成与版面校验（重视渲染结果）。"@)
    } else if name == "playwright"@ {
        Some("在终端中自动化真实浏览器（导航、填表、截图、抓取、UI 流调试）。"@)
    } else if name == "playwright-cli"@ {
        Some("使用 playwright-cli 做网页交互自动化、截图与信息提取。"@)
    } else if name == "pretty-table"@ {
        Some("渲染对齐良好的终端表格（兼容 CJK/emoji 宽度），并支持 Markdown 表格格式化。"@)
    } else if name == "proxmox"@ {
        Some("通过 REST API 管理 Proxmox 集群（VM/LXC 启停、快照、任务与节点状态）。"@)
    } else if name == "proxmox-vm"@ {
        Some("与 Proxmox 虚拟机交互：截图、按键注入与网络信息查看。"@)
    } else if name == "remote-chrome"@ {
        Some("通过 CDP 连接已运行的 Chrome/Edge，复用已登录配置进行自动化。"@)
    } else if name == "render-deploy"@ {
        Some("分析代码并生成 Render 部署蓝图（render.yaml）与控制台直达链接。"@)
    } else if name == "screenshot"@ {
        Some("执行系统级截图（全屏/窗口/区域），用于工具内截图能力不足的场景。"@)
    } else if name == "security-best-practices"@ {
        Some("按语言/框架执行安全最佳实践审查，并给出加固建议。"@)
    } else if name == "security-ownership-map"@ {
        Some("基于 Git 历史构建安全责任拓扑，分析敏感代码归属与 bus factor 风险。"@)
    } else if name == "security-threat-model"@ {
        Some("基于仓库进行威胁建模：资产、边界、攻击路径与缓解措施。"@)
    } else if name == "selenium"@ {
        Some("Selenium 跨浏览器自动化测试（Chrome/Firefox/Safari/Edge）。"@)
    } else if name == "sentry"@ {
        Some("查询 Sentry 问题与事件，汇总近期线上错误（只读）。"@)
    } else if name == "skill-scanner"@ {
        Some("安装前扫描技能包中的恶意代码风险（挖矿、后门、外传等）。"@)
    } else if name == "skill-vetter"@ {
        Some("以安全优先方式评估技能来源、权限范围与可疑模式。"@)
    } else if name == "skillguard"@ {
        Some("对 AgentSkill 做安全扫描（凭据窃取、注入、越权、数据外传等）。"@)
    } else if name == "skills-audit"@ {
        Some("使用 SkillLens 审计本地技能目录，输出风险导向报告。"@)
    } else if name == "skills-search"@ {
        Some("在 skills.sh 注册表中搜索并发现技能。"@)
    } else if name == "sora"@ {
        Some("通过 OpenAI 视频 API 生成/混剪/下载/删除 Sora 视频内容。"@)
    } else if name == "speech"@ {
        Some("通过 OpenAI Audio API 执行文本转语音（旁白、无障碍朗读、批量语音）。"@)
    } else if name == "spreadsheet"@ {
        Some("处理电子表格（xlsx/csv/tsv）的创建、编辑、分析与格式保持。"@)
    } else if name == "transcribe"@ {
        Some("音视频转写技能，支持说话人区分与已知说话人提示。"@)
    } else if name == "uisheji"@ {
        Some("编排并演示 UI 交付闭环（概念稿→选择→落地页面→自动打开）。"@)
    } else if name == "vercel-deploy"@ {
        Some("使用脚本与 Vercel 流程完成预览与生产部署。"@)
    } else if name == "vercel-react-best-practices"@ {
        Some("Vercel 的 React/Next.js 性能优化实践指南。"@)
    } else if name == "web-design-guidelines"@ {
        Some("按 Web 界面规范审查 UI/UX 与可访问性。"@)
    } else if name == "yeet"@ {
        Some("仅在用户明确要求时，执行一体化流程：stage + commit + push + 创建 PR。"@)
    } else {
        None
    }
}

/// The localized description: the trimmed description chain, empty if it
/// is blank, the Chinese table entry when Chinese is in use and the skill
/// is known, and the trimmed chain otherwise.
pub open spec fn localized_description_spec(s: SkillMetadata, use_zh: bool) -> Seq<char> {
    let d = trim_spec(description_chain_spec(s));
    if d.len() == 0 {
        Seq::empty()
    } else if !use_zh {
        d
    } else {
        match skill_zh_description_spec(s.name@) {
            Some(zh) => zh,
            None => d,
        }
    }
}

fn skill_zh_description(name: &str) -> (r: Option<&'static str>)
    ensures
        match r {
            Some(zh) => skill_zh_description_spec(name@) == Some(zh@),
            None => skill_zh_description_spec(name@) is None,
        },
{
    if crate::text::str_eq(name, "agent-browser") {
        Some("基于 Rust 的高速无头浏览器自动化 CLI（含 Node.js 回退），可用于导航、点击、输入和页面快照。")
    } else if crate::text::str_eq(name, "atlas") {
        Some("仅限 macOS 的 ChatGPT Atlas 桌面端 AppleScript 控制技能；仅在明确需要控制 Atlas 标签/书签/历史时使用。")
    } else if crate::text::str_eq(name, "autofillin") {
        Some("基于 Playwright 的自动填表与文件上传技能，支持登录态保持、表单识别与提交前人工确认。")
    } else if crate::text::str_eq(name, "browser-daemon") {
        Some("基于 Playwright 守护进程的持久浏览器自动化（无 MCP/无 Puppeteer），可持续接收导航与脚本命令。")
    } else if crate::text::str_eq(name, "browser-max-automation") {
        Some("使用 Playwright MCP 的浏览器自动化，适用于网页测试、表单操作、截图与 iframe/复杂 JS 场景。")
    } else if crate::text::str_eq(name, "clean-code-auditor") {
        Some("用于 JS/TS 代码的 Clean Code + SOLID + TDD 审核与重构，重点处理命名、职责划分与错误模型问题。")
    } else if crate::text::str_eq(name, "cloudflare-deploy") {
        Some("将应用与基础设施部署到 Cloudflare（Workers/Pages 等）。")
    } else if crate::text::str_eq(name, "codex-cli") {
        Some("编排 OpenAI Codex CLI 的并行任务执行：协调子任务、上下文注入与会话复用。")
    } else if crate::text::str_eq(name, "dev-browser") {
        Some("带持久页面状态的浏览器自动化技能，适用于导航、填表、截图、抓取和 Web 测试。")
    } else if crate::text::str_eq(name, "develop-web-game") {
        Some("用于 Web 游戏迭代开发：小步修改、Playwright 测试、截图检查和控制台错误回归。")
    } else if crate::text::str_eq(name, "disk-growth-forensics") {
        Some("Windows C 盘突增空间取证流程，支持按时间窗口扫描并给出分级清理建议。")
    } else if crate::text::str_eq(name, "doc") {
        Some("用于 .docx 文档读取/创建/编辑，重视排版与布局一致性。")
    } else if crate::text::str_eq(name, "e2e-playwright") {
        Some("Playwright 端到端测试专家技能，覆盖跨浏览器、视觉回归、移动模拟、可访问性与 CI 集成。")
    } else if crate::text::str_eq(name, "figma") {
        Some("通过 Figma MCP 获取设计上下文、截图、变量与资源，并辅助设计到代码实现。")
    } else if crate::text::str_eq(name, "figma-implement-design") {
        Some("将 Figma 节点高保真实现为生产代码（1:1 视觉还原）。")
    } else if crate::text::str_eq(name, "find-skills") {
        Some("帮助发现并安装可用技能，适合用户询问“有没有技能可做某事”时使用。")
    } else if crate::text::str_eq(name, "gh-address-comments") {
        Some("使用 gh CLI 处理当前分支 PR 的 review/issue 评论，并先校验 gh 登录状态。")
    } else if crate::text::str_eq(name, "gh-fix-ci") {
        Some("排查并修复 GitHub Actions 失败检查：先收集失败上下文和计划，再在获批后实施修复。")
    } else if crate::text::str_eq(name, "imagegen") {
        Some("通过 OpenAI Image API 生成或编辑图片（含修补、换背景、透明底与批量变体）。")
    } else if crate::text::str_eq(name, "jupyter-notebook") {
        Some("创建和维护 Jupyter Notebook（.ipynb），优先使用模板与脚本快速生成。")
    } else if crate::text::str_eq(name, "linear") {
        Some("管理 Linear 工单、项目与团队流程。")
    } else if crate::text::str_eq(name, "netlify-deploy") {
        Some("使用 Netlify CLI 部署网站，支持预览与生产发布。")
    } else if crate::text::str_eq(name, "notion-knowledge-capture") {
        Some("把对话与决策沉淀到结构化 Notion 页面（知识库/FAQ/决策记录）。")
    } else if crate::text::str_eq(name, "notion-meeting-intelligence") {
        Some("结合 Notion 上下文与研究结果，准备会议议程、预读和参会人定制材料。")
    } else if crate::text::str_eq(name, "notion-research-documentation") {
        Some("跨 Notion 做信息检索与综合，输出结构化文档并附引用。")
    } else if crate::text::str_eq(name, "notion-spec-to-implementation") {
        Some("将 Notion 规格转为实施计划、任务拆分与进度跟踪。")
    } else if crate::text::str_eq(name, "openai-docs") {
        Some("当用户询问 OpenAI 产品/API 开发时，提供带引用的官方最新文档答案。")
    } else if crate::text::str_eq(name, "pdf") {
        Some("用于 PDF 的读取、生成与版面校验（重视渲染结果）。")
    } else if crate::text::str_eq(name, "playwright") {
        Some("在终端中自动化真实浏览器（导航、填表、截图、抓取、UI 流调试）。")
    } else if crate::text::str_eq(name, "playwright-cli") {
        Some("使用 playwright-cli 做网页交互自动化、截图与信息提取。")
    } else if crate::text::str_eq(name, "pretty-table") {
        Some("渲染对齐良好的终端表格（兼容 CJK/emoji 宽度），并支持 Markdown 表格格式化。")
    } else if crate::text::str_eq(name, "proxmox") {
        Some("通过 REST API 管理 Proxmox 集群（VM/LXC 启停、快照、任务与节点状态）。")
    } else if crate::text::str_eq(name, "proxmox-vm") {
        Some("与 Proxmox 虚拟机交互：截图、按键注入与网络信息查看。")
    } else if crate::text::str_eq(name, "remote-chrome") {
        Some("通过 CDP 连接已运行的 Chrome/Edge，复用已登录配置进行自动化。")
    } else if crate::text::str_eq(name, "render-deploy") {
        Some("分析代码并生成 Render 部署蓝图（render.yaml）与控制台直达链接。")
    } else if crate::text::str_eq(name, "screenshot") {
        Some("执行系统级截图（全屏/窗口/区域），用于工具内截图能力不足的场景。")
    } else if crate::text::str_eq(name, "security-best-practices") {
        Some("按语言/框架执行安全最佳实践审查，并给出加固建议。")
    } else if crate::text::str_eq(name, "security-ownership-map") {
        Some("基于 Git 历史构建安全责任拓扑，分析敏感代码归属与 bus factor 风险。")
    } else if crate::text::str_eq(name, "security-threat-model") {
        Some("基于仓库进行威胁建模：资产、边界、攻击路径与缓解措施。")
    } else if crate::text::str_eq(name, "selenium") {
        Some("Selenium 跨浏览器自动化测试（Chrome/Firefox/Safari/Edge）。")
    } else if crate::text::str_eq(name, "sentry") {
        Some("查询 Sentry 问题与事件，汇总近期线上错误（只读）。")
    } else if crate::text::str_eq(name, "skill-scanner") {
        Some("安装前扫描技能包中的恶意代码风险（挖矿、后门、外传等）。")
    } else if crate::text::str_eq(name, "skill-vetter") {
        Some("以安全优先方式评估技能来源、权限范围与可疑模式。")
    } else if crate::text::str_eq(name, "skillguard") {
        Some("对 AgentSkill 做安全扫描（凭据窃取、注入、越权、数据外传等）。")
    } else if crate::text::str_eq(name, "skills-audit") {
        Some("使用 SkillLens 审计本地技能目录，输出风险导向报告。")
    } else if crate::text::str_eq(name, "skills-search") {
        Some("在 skills.sh 注册表中搜索并发现技能。")
    } else if crate::text::str_eq(name, "sora") {
        Some("通过 OpenAI 视频 API 生成/混剪/下载/删除 Sora 视频内容。")
    } else if crate::text::str_eq(name, "speech") {
        Some("通过 OpenAI Audio API 执行文本转语音（旁白、无障碍朗读、批量语音）。")
    } else if crate::text::str_eq(name, "spreadsheet") {
        Some("处理电子表格（xlsx/csv/tsv）的创建、编辑、分析与格式保持。")
    } else if crate::text::str_eq(name, "transcribe") {
        Some("音视频转写技能，支持说话人区分与已知说话人提示。")
    } else if crate::text::str_eq(name, "uisheji") {
        Some("编排并演示 UI 交付闭环（概念稿→选择→落地页面→自动打开）。")
    } else if crate::text::str_eq(name, "vercel-deploy") {
        Some("使用脚本与 Vercel 流程完成预览与生产部署。")
    } else if crate::text::str_eq(name, "vercel-react-best-practices") {
        Some("Vercel 的 React/Next.js 性能优化实践指南。")
    } else if crate::text::str_eq(name, "web-design-guidelines") {
        Some("按 Web 界面规范审查 UI/UX 与可访问性。")
    } else if crate::text::str_eq(name, "yeet") {
        Some("仅在用户明确要求时，执行一体化流程：stage + commit + push + 创建 PR。")
    } else {
        None
    }
}

/// The description shown for a skill, localized.
pub fn localized_skill_description(skill: &SkillMetadata, use_zh: bool) -> (r: String)
    ensures
        r@ == localized_description_spec(*skill, use_zh),
{
    let description = crate::text::trim_str(skill_description(skill));
    if description.unicode_len() == 0 {
        return String::new();
    }
    if !use_zh {
        return description.to_owned();
    }
    match skill_zh_description(skill.name.as_str()) {
        Some(zh) => String::from_str(zh),
        None => description.to_owned(),
    }
}

/// A name truncated for the skill list: unchanged when it fits the width,
/// otherwise cut one short of the width with an ellipsis appended.
pub open spec fn truncate_spec(s: Seq<char>, max: int) -> Seq<char> {
    if s.len() <= max {
        s
    } else {
        s.subrange(0, max - 1).push('…')
    }
}

/// The width the skill list truncates names to.
pub open spec fn skill_name_width() -> int {
    21
}

/// Truncate a skill name for the list.
pub fn truncate_skill_name(name: &str) -> (r: String)
    ensures
        r@ == truncate_spec(name@, skill_name_width()),
{
    let len = name.unicode_len();
    if len <= 21 {
        name.to_owned()
    } else {
        let mut r = name.substring_char(0, 20).to_owned();
        crate::text::push_char(&mut r, '…');
        r
    }
}

/// Choose the match to report for a skill, from the fuzzy-match results of
/// its display name and of its plain name: a display-name match wins and
/// carries its highlight indices; else, when the two names differ, a
/// plain-name match counts but its indices are withheld (they index the
/// wrong string); else there is no match.
pub fn match_skill(
    display_match: Option<(Vec<usize>, i32)>,
    name_match: Option<(Vec<usize>, i32)>,
    names_differ: bool,
) -> (r: Option<(Option<Vec<usize>>, i32)>)
    ensures
        match display_match {
            Some(m) => r matches Some(p) && p.0 matches Some(ix) && ix@ == m.0@ && p.1 == m.1,
            None => match name_match {
                Some(m) => if names_differ {
                    r matches Some(p) && p.0 is None && p.1 == m.1
                } else {
                    r is None
                },
                None => r is None,
            },
        },
{
    match display_match {
        Some((indices, score)) => Some((Some(indices), score)),
        None => match name_match {
            Some((_, score)) => if names_differ {
                Some((None, score))
            } else {
                None
            },
            None => None,
        },
    }
}

} // verus!
