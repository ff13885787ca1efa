//! The slash commands: the palette that suggests them, and what a typed line asks for.
use vstd::prelude::*;
use vstd::string::*;

use crate::style::Tone;
use crate::text;

verus! {

#[derive(Clone, Copy, Debug, PartialEq, Eq, Structural)]
pub enum CommandCategory {
    Display,
    Account,
    Obs,
    Ai,
    System,
}

pub open spec fn category_tone(category: CommandCategory) -> Tone {
    match category {
        CommandCategory::Display => Tone::Host,
        CommandCategory::Account => Tone::Info,
        CommandCategory::Obs => Tone::Name,
        CommandCategory::Ai => Tone::Success,
        CommandCategory::System => Tone::Content,
    }
}

impl CommandCategory {
    pub fn color(self) -> (r: Tone)
        ensures
            r == category_tone(self),
    {
        match self {
            CommandCategory::Display => Tone::Host,
            CommandCategory::Account => Tone::Info,
            CommandCategory::Obs => Tone::Name,
            CommandCategory::Ai => Tone::Success,
            CommandCategory::System => Tone::Content,
        }
    }
}

/// A command of the palette: what it completes to, its title and its description.
#[derive(Clone, Copy, Debug)]
pub struct CommandSpec {
    pub completion: &'static str,
    pub usage: &'static str,
    pub description: &'static str,
    pub category: CommandCategory,
    pub danger: bool,
}

pub open spec fn entry(
    completion: &'static str,
    usage: &'static str,
    description: &'static str,
    category: CommandCategory,
    danger: bool,
) -> CommandSpec {
    CommandSpec { completion, usage, description, category, danger }
}

fn make(
    completion: &'static str,
    usage: &'static str,
    description: &'static str,
    category: CommandCategory,
    danger: bool,
) -> (r: CommandSpec)
    ensures
        r == entry(completion, usage, description, category, danger),
{
    CommandSpec { completion, usage, description, category, danger }
}

/// The commands of the palette.
pub open spec fn main_table() -> Seq<CommandSpec> {
    seq![
        entry("/mute", "静音麦克风", "关闭声音；重复执行仍静音", CommandCategory::Obs, false),
        entry("/unmute", "恢复麦克风", "声音将公开", CommandCategory::Obs, true),
        entry("/scene", "切换场景", "输入场景名称", CommandCategory::Obs, true),
        entry("/commands", "指令", "中文搜索，保留草稿", CommandCategory::System, false),
        entry("/more", "更多", "OBS、诊断、帮助、退出", CommandCategory::System, false),
        entry("/settings", "设置与操作", "五类设置、本场与常用操作", CommandCategory::System, false),
        entry("/diag", "诊断", "历史告警与连接信息", CommandCategory::System, false),
        entry("/pin", "重点消息", "标记选中或最新消息", CommandCategory::System, false),
        entry("/find", "搜索归档", "输入关键词；也可直接带参数", CommandCategory::System, false),
        entry("/obs ", "OBS", "已有连接与控制操作", CommandCategory::Obs, false),
        entry("/help", "帮助", "操作说明", CommandCategory::System, false),
        entry("/quit", "退出弹幕台", "不停止推流", CommandCategory::System, true),
        entry("/ai", "AI助手", "打开运行面板，不启动", CommandCategory::Ai, false),
        entry("/review", "待审回复", "全文审核后发送", CommandCategory::Ai, false),
        entry("/pause", "暂停AI", "撤权，保留可继续状态", CommandCategory::Ai, false),
        entry("/ai start", "启动AI", "连接工具，处理新弹幕", CommandCategory::Ai, false),
        entry("/ai auto on", "自动发送", "公开发送 · 同房间同账号记住", CommandCategory::Ai, true),
        entry("/ai auto off", "逐条发送", "立即撤销自动许可", CommandCategory::Ai, false),
        entry("/ai range", "本场范围", "仅改变当前场次", CommandCategory::Ai, false),
        entry("/ai topic", "本场主题", "仅影响AI上下文，不修改直播间", CommandCategory::Ai, false),
        entry("/ai visible", "处理可见弹幕", "重建上下文，处理可见内容", CommandCategory::Ai, true),
        entry("/ai reset", "重建上下文", "丢弃当前上下文", CommandCategory::Ai, true),
        entry("/ai stop", "结束AI", "释放进程并撤销许可", CommandCategory::Ai, true),
        entry("/diag repair", "重建历史", "先备份，再修复副本", CommandCategory::System, true),
        entry("/ai model", "模型", "AI工具与原生选项", CommandCategory::Ai, false),
        entry("/ai replies", "发送策略", "方案与默认范围", CommandCategory::Ai, false),
        entry("/ai materials", "人设与资料", "AI名字、人设与上下文", CommandCategory::Ai, false),
        entry("/ai advanced", "Agent配置", "规则、运行策略与维护", CommandCategory::Ai, false),
        entry("/ai workspace", "工作空间", "编辑Agent工作目录", CommandCategory::Ai, false),
        entry("/about", "关于弹幕台", "官网、创始人、版本与源码", CommandCategory::System, false),
        entry("/room title", "直播间标题", "公开修改B站标题；不改AI主题", CommandCategory::Account, true),
        entry("/room cover", "直播间封面", "上传本地图片并提交审核", CommandCategory::Account, true),
        entry("/display theme", "主题", "选择界面主题", CommandCategory::Display, false),
        entry("/display names on", "显示昵称", "保存显示设置", CommandCategory::Display, false),
        entry("/display names off", "隐藏昵称", "保存显示设置", CommandCategory::Display, false),
        entry("/display time on", "显示时间", "保存显示设置", CommandCategory::Display, false),
        entry("/display time off", "隐藏时间", "保存显示设置", CommandCategory::Display, false),
        entry("/display layout chat", "聊天布局", "保存显示设置", CommandCategory::Display, false),
        entry("/display layout list", "列表布局", "保存显示设置", CommandCategory::Display, false),
    ]
}

/// The commands of the palette.
pub fn main_commands() -> (r: Vec<CommandSpec>)
    ensures
        r@ == main_table(),
{
    let mut table: Vec<CommandSpec> = Vec::new();
    table.push(make("/mute", "静音麦克风", "关闭声音；重复执行仍静音", CommandCategory::Obs, false));
    table.push(make("/unmute", "恢复麦克风", "声音将公开", CommandCategory::Obs, true));
    table.push(make("/scene", "切换场景", "输入场景名称", CommandCategory::Obs, true));
    table.push(make("/commands", "指令", "中文搜索，保留草稿", CommandCategory::System, false));
    table.push(make("/more", "更多", "OBS、诊断、帮助、退出", CommandCategory::System, false));
    table.push(make("/settings", "设置与操作", "五类设置、本场与常用操作", CommandCategory::System, false));
    table.push(make("/diag", "诊断", "历史告警与连接信息", CommandCategory::System, false));
    table.push(make("/pin", "重点消息", "标记选中或最新消息", CommandCategory::System, false));
    table.push(make("/find", "搜索归档", "输入关键词；也可直接带参数", CommandCategory::System, false));
    table.push(make("/obs ", "OBS", "已有连接与控制操作", CommandCategory::Obs, false));
    table.push(make("/help", "帮助", "操作说明", CommandCategory::System, false));
    table.push(make("/quit", "退出弹幕台", "不停止推流", CommandCategory::System, true));
    table.push(make("/ai", "AI助手", "打开运行面板，不启动", CommandCategory::Ai, false));
    table.push(make("/review", "待审回复", "全文审核后发送", CommandCategory::Ai, false));
    table.push(make("/pause", "暂停AI", "撤权，保留可继续状态", CommandCategory::Ai, false));
    table.push(make("/ai start", "启动AI", "连接工具，处理新弹幕", CommandCategory::Ai, false));
    table.push(make("/ai auto on", "自动发送", "公开发送 · 同房间同账号记住", CommandCategory::Ai, true));
    table.push(make("/ai auto off", "逐条发送", "立即撤销自动许可", CommandCategory::Ai, false));
    table.push(make("/ai range", "本场范围", "仅改变当前场次", CommandCategory::Ai, false));
    table.push(make("/ai topic", "本场主题", "仅影响AI上下文，不修改直播间", CommandCategory::Ai, false));
    table.push(make("/ai visible", "处理可见弹幕", "重建上下文，处理可见内容", CommandCategory::Ai, true));
    table.push(make("/ai reset", "重建上下文", "丢弃当前上下文", CommandCategory::Ai, true));
    table.push(make("/ai stop", "结束AI", "释放进程并撤销许可", CommandCategory::Ai, true));
    table.push(make("/diag repair", "重建历史", "先备份，再修复副本", CommandCategory::System, true));
    table.push(make("/ai model", "模型", "AI工具与原生选项", CommandCategory::Ai, false));
    table.push(make("/ai replies", "发送策略", "方案与默认范围", CommandCategory::Ai, false));
    table.push(make("/ai materials", "人设与资料", "AI名字、人设与上下文", CommandCategory::Ai, false));
    table.push(make("/ai advanced", "Agent配置", "规则、运行策略与维护", CommandCategory::Ai, false));
    table.push(make("/ai workspace", "工作空间", "编辑Agent工作目录", CommandCategory::Ai, false));
    table.push(make("/about", "关于弹幕台", "官网、创始人、版本与源码", CommandCategory::System, false));
    table.push(make("/room title", "直播间标题", "公开修改B站标题；不改AI主题", CommandCategory::Account, true));
    table.push(make("/room cover", "直播间封面", "上传本地图片并提交审核", CommandCategory::Account, true));
    table.push(make("/display theme", "主题", "选择界面主题", CommandCategory::Display, false));
    table.push(make("/display names on", "显示昵称", "保存显示设置", CommandCategory::Display, false));
    table.push(make("/display names off", "隐藏昵称", "保存显示设置", CommandCategory::Display, false));
    table.push(make("/display time on", "显示时间", "保存显示设置", CommandCategory::Display, false));
    table.push(make("/display time off", "隐藏时间", "保存显示设置", CommandCategory::Display, false));
    table.push(make("/display layout chat", "聊天布局", "保存显示设置", CommandCategory::Display, false));
    table.push(make("/display layout list", "列表布局", "保存显示设置", CommandCategory::Display, false));
    table
}

/// The commands behind `/obs `.
pub open spec fn obs_table() -> Seq<CommandSpec> {
    seq![
        entry("/obs config host", "接入地址", "编辑OBS WebSocket主机名或IP", CommandCategory::Obs, false),
        entry("/obs config port", "接入端口", "编辑OBS WebSocket端口", CommandCategory::Obs, false),
        entry("/obs status", "连接状态", "查看OBS", CommandCategory::Obs, false),
        entry("/obs connect", "检查连接", "检查OBS", CommandCategory::Obs, false),
        entry("/obs config mic", "麦克风配置", "输入麦克风名称", CommandCategory::Obs, false),
        entry("/obs config password", "连接密码", "编辑私有密码", CommandCategory::Obs, false),
        entry("/obs start", "开始推流", "立即开始直播", CommandCategory::Obs, true),
        entry("/obs stop", "停止推流", "直播将中断", CommandCategory::Obs, true),
    ]
}

/// The commands behind `/obs `.
pub fn obs_commands() -> (r: Vec<CommandSpec>)
    ensures
        r@ == obs_table(),
{
    let mut table: Vec<CommandSpec> = Vec::new();
    table.push(make("/obs config host", "接入地址", "编辑OBS WebSocket主机名或IP", CommandCategory::Obs, false));
    table.push(make("/obs config port", "接入端口", "编辑OBS WebSocket端口", CommandCategory::Obs, false));
    table.push(make("/obs status", "连接状态", "查看OBS", CommandCategory::Obs, false));
    table.push(make("/obs connect", "检查连接", "检查OBS", CommandCategory::Obs, false));
    table.push(make("/obs config mic", "麦克风配置", "输入麦克风名称", CommandCategory::Obs, false));
    table.push(make("/obs config password", "连接密码", "编辑私有密码", CommandCategory::Obs, false));
    table.push(make("/obs start", "开始推流", "立即开始直播", CommandCategory::Obs, true));
    table.push(make("/obs stop", "停止推流", "直播将中断", CommandCategory::Obs, true));
    table
}

/// The commands behind `/settings `.
pub open spec fn settings_table() -> Seq<CommandSpec> {
    seq![
        entry("/settings reading", "外观与显示", "主题、布局与阅读", CommandCategory::Display, false),
        entry("/settings account", "B站账号与直播间", "主账号、AI发送账号、标题与封面", CommandCategory::Account, false),
        entry("/settings obs", "OBS设置", "接入配置与当前控制", CommandCategory::Obs, false),
        entry("/settings ai", "AI助手设置", "工作空间、Agent与发送策略", CommandCategory::Ai, false),
        entry("/settings system", "系统与关于", "工具信息、诊断与修复", CommandCategory::System, false),
    ]
}

/// The commands behind `/settings `.
pub fn settings_commands() -> (r: Vec<CommandSpec>)
    ensures
        r@ == settings_table(),
{
    let mut table: Vec<CommandSpec> = Vec::new();
    table.push(make("/settings reading", "外观与显示", "主题、布局与阅读", CommandCategory::Display, false));
    table.push(make("/settings account", "B站账号与直播间", "主账号、AI发送账号、标题与封面", CommandCategory::Account, false));
    table.push(make("/settings obs", "OBS设置", "接入配置与当前控制", CommandCategory::Obs, false));
    table.push(make("/settings ai", "AI助手设置", "工作空间、Agent与发送策略", CommandCategory::Ai, false));
    table.push(make("/settings system", "系统与关于", "工具信息、诊断与修复", CommandCategory::System, false));
    table
}

/// What is left of a line behind a number of words.
pub open spec fn behind_words(raw: Seq<char>, words: nat) -> Seq<char>
    decreases words,
{
    if words == 0 {
        raw
    } else {
        behind_words(text::after_word(text::trimmed_start(raw)), (words - 1) as nat)
    }
}

/// The text behind a number of words, where there is one.
pub open spec fn value_behind(raw: Seq<char>, words: nat) -> Option<Seq<char>> {
    let value = text::trimmed(behind_words(raw, words));
    if value.len() == 0 {
        None
    } else {
        Some(value)
    }
}

/// The text behind a number of words, where there is one.
pub fn command_value(raw: &str, tokens: usize) -> (r: Option<String>)
    ensures
        text::opt_view(r) == value_behind(raw@, tokens as nat),
{
    let mut rest: String = raw.to_owned();
    let mut left: usize = tokens;
    while left > 0
        invariant
            behind_words(raw@, tokens as nat) == behind_words(rest@, left as nat),
        decreases left,
    {
        rest = text::drop_word(text::trim_start(rest.as_str()).as_str());
        left = left - 1;
    }
    let value: String = text::trim(rest.as_str());
    if value.as_str().is_empty() {
        None
    } else {
        Some(value)
    }
}

/// A command that only makes sense with the assistant.
pub open spec fn is_ai_command(completion: Seq<char>) -> bool {
    completion == "/ai"@ || completion == "/review"@ || completion == "/pause"@ || text::has_prefix(
        completion,
        "/ai "@,
    ) || completion == "/settings ai"@
}

pub fn ai_command(spec: &CommandSpec) -> (r: bool)
    ensures
        r == is_ai_command(spec.completion@),
{
    text::same(spec.completion, "/ai") || text::same(spec.completion, "/review") || text::same(
        spec.completion,
        "/pause",
    ) || text::starts_with(spec.completion, "/ai ") || text::same(spec.completion, "/settings ai")
}

/// A command that reaches for the broadcasting software.
pub open spec fn is_obs_command(command: Seq<char>) -> bool {
    command == "/obs"@ || command == "/mute"@ || command == "/unmute"@ || command == "/scene"@
        || text::has_prefix(command, "/obs "@)
}

pub fn obs_command(command: &str) -> (r: bool)
    ensures
        r == is_obs_command(command@),
{
    text::same(command, "/obs") || text::same(command, "/mute") || text::same(command, "/unmute")
        || text::same(command, "/scene") || text::starts_with(command, "/obs ")
}

/// The commands that are offered before anything is typed.
pub open spec fn is_common(completion: Seq<char>) -> bool {
    completion == "/mute"@ || completion == "/unmute"@ || completion == "/scene"@ || completion
        == "/ai"@ || completion == "/review"@ || completion == "/pause"@ || completion == "/pin"@
        || completion == "/find"@ || completion == "/settings"@ || completion == "/diag"@
        || completion == "/help"@ || completion == "/quit"@
}

fn common_command(completion: &str) -> (r: bool)
    ensures
        r == is_common(completion@),
{
    text::same(completion, "/mute") || text::same(completion, "/unmute") || text::same(
        completion,
        "/scene",
    ) || text::same(completion, "/ai") || text::same(completion, "/review") || text::same(
        completion,
        "/pause",
    ) || text::same(completion, "/pin") || text::same(completion, "/find") || text::same(
        completion,
        "/settings",
    ) || text::same(completion, "/diag") || text::same(completion, "/help") || text::same(
        completion,
        "/quit",
    )
}

/// What a query is compared with.
#[derive(Clone, Copy, Debug, PartialEq, Eq, Structural)]
pub enum Target {
    Completion,
    Usage,
    Description,
}

/// A text without its leading slashes.
pub open spec fn without_slashes(value: Seq<char>) -> Seq<char>
    decreases value.len(),
{
    if value.len() > 0 && value[0] == '/' {
        without_slashes(value.skip(1))
    } else {
        value
    }
}

/// Whether a query finds a command: at the beginning of what it completes to, or anywhere in its
/// title or its description.
pub open spec fn found_by(spec: CommandSpec, query: Seq<char>, target: Target) -> bool {
    match target {
        Target::Completion => text::has_prefix(without_slashes(spec.completion@), query),
        Target::Usage => text::occurs_in(query, spec.usage@),
        Target::Description => text::occurs_in(query, spec.description@),
    }
}

/// Whether a command is offered at all: assistant commands only where they are wanted, and before
/// anything is typed only the common ones.
pub open spec fn is_offered(spec: CommandSpec, query: Seq<char>, show_ai: bool) -> bool {
    (show_ai || !is_ai_command(spec.completion@)) && (query.len() > 0 || is_common(
        spec.completion@,
    ))
}

/// The commands of a table that a query finds.
pub open spec fn found_in(
    table: Seq<CommandSpec>,
    query: Seq<char>,
    show_ai: bool,
    target: Target,
) -> Seq<CommandSpec>
    decreases table.len(),
{
    if table.len() == 0 {
        Seq::empty()
    } else {
        let rest = found_in(table.drop_last(), query, show_ai, target);
        if is_offered(table.last(), query, show_ai) && found_by(table.last(), query, target) {
            rest.push(table.last())
        } else {
            rest
        }
    }
}

/// What is searched for: the typed text without the slash that opened the palette.
pub open spec fn query_of(input: Seq<char>) -> Seq<char> {
    if input.len() > 0 && input[0] == '/' {
        input.skip(1)
    } else {
        input
    }
}

/// The table that a typed text is searched in.
pub open spec fn table_for(input: Seq<char>) -> Seq<CommandSpec> {
    if text::has_prefix(input, "/obs "@) {
        obs_table()
    } else if text::has_prefix(input, "/settings "@) {
        settings_table()
    } else {
        main_table() + settings_table() + obs_table()
    }
}

/// The commands suggested for a typed text: those that complete it, else those whose title holds
/// it, else those whose description does.
pub open spec fn suggestions(input: Seq<char>, include_ai: bool) -> Seq<CommandSpec> {
    let query = query_of(input);
    let show_ai = include_ai || text::trimmed(query).len() > 0;
    let table = table_for(input);
    let completed = found_in(table, query, show_ai, Target::Completion);
    let titled = found_in(table, query, show_ai, Target::Usage);
    if completed.len() > 0 {
        completed
    } else if titled.len() > 0 {
        titled
    } else {
        found_in(table, query, show_ai, Target::Description)
    }
}

fn strip_slashes(value: &str) -> (r: String)
    ensures
        r@ == without_slashes(value@),
{
    let chars: Vec<char> = text::chars_of(value);
    let mut from: usize = 0;
    proof {
        assert(value@.skip(0) =~= value@);
    }
    while from < chars.len() && chars[from] == '/'
        invariant
            from <= chars@.len(),
            chars@ == value@,
            without_slashes(value@) == without_slashes(value@.skip(from as int)),
        decreases chars@.len() - from,
    {
        proof {
            assert(value@.skip(from as int).skip(1) =~= value@.skip(from + 1));
        }
        from = from + 1;
    }
    proof {
        assert(chars@.subrange(from as int, chars@.len() as int) =~= value@.skip(from as int));
    }
    text::string_of(&chars, from, chars.len())
}

fn find_in(table: &Vec<CommandSpec>, query: &str, show_ai: bool, target: Target) -> (r: Vec<
    CommandSpec,
>)
    ensures
        r@ == found_in(table@, query@, show_ai, target),
{
    let mut out: Vec<CommandSpec> = Vec::new();
    let mut i: usize = 0;
    proof {
        assert(table@.take(0) =~= Seq::empty());
    }
    while i < table.len()
        invariant
            i <= table@.len(),
            out@ == found_in(table@.take(i as int), query@, show_ai, target),
        decreases table@.len() - i,
    {
        proof {
            assert(table@.take(i + 1).drop_last() =~= table@.take(i as int));
        }
        let spec: CommandSpec = table[i];
        let offered: bool = (show_ai || !ai_command(&spec)) && (!query.is_empty()
            || common_command(spec.completion));
        if offered {
            let found: bool = match target {
                Target::Completion => text::starts_with(
                    strip_slashes(spec.completion).as_str(),
                    query,
                ),
                Target::Usage => text::contains(spec.usage, query),
                Target::Description => text::contains(spec.description, query),
            };
            if found {
                out.push(spec);
            }
        }
        i = i + 1;
    }
    proof {
        assert(table@.take(i as int) =~= table@);
    }
    out
}

/// The commands suggested for a typed text.
pub fn command_suggestions(input: &str, include_ai: bool) -> (r: Vec<CommandSpec>)
    ensures
        r@ == suggestions(input@, include_ai),
{
    let stripped: Option<String> = text::strip_prefix(input, "/");
    proof {
        reveal_strlit("/");
        if input@.len() > 0 {
            assert(text::has_prefix(input@, "/"@) == (input@[0] == '/')) by {
                assert(input@.subrange(0, 1) =~= seq![input@[0]]);
                assert("/"@ =~= seq!['/']);
                if input@[0] != '/' {
                    assert(input@.subrange(0, 1)[0] != "/"@[0]);
                }
            }
        }
    }
    let query: String = match stripped {
        Some(rest) => rest,
        None => input.to_owned(),
    };
    let table: Vec<CommandSpec> = if text::starts_with(input, "/obs ") {
        obs_commands()
    } else if text::starts_with(input, "/settings ") {
        settings_commands()
    } else {
        let mut all: Vec<CommandSpec> = main_commands();
        let mut settings: Vec<CommandSpec> = settings_commands();
        let mut obs: Vec<CommandSpec> = obs_commands();
        all.append(&mut settings);
        all.append(&mut obs);
        all
    };
    let show_ai: bool = include_ai || !text::trim(query.as_str()).as_str().is_empty();
    let completed: Vec<CommandSpec> = find_in(&table, query.as_str(), show_ai, Target::Completion);
    if completed.len() > 0 {
        return completed;
    }
    let titled: Vec<CommandSpec> = find_in(&table, query.as_str(), show_ai, Target::Usage);
    if titled.len() > 0 {
        return titled;
    }
    find_in(&table, query.as_str(), show_ai, Target::Description)
}

proof fn lemma_found(
    table: Seq<CommandSpec>,
    query: Seq<char>,
    show_ai: bool,
    target: Target,
    i: int,
)
    requires
        0 <= i < found_in(table, query, show_ai, target).len(),
    ensures
        ({
            let spec = found_in(table, query, show_ai, target)[i];
            is_offered(spec, query, show_ai) && found_by(spec, query, target) && table.contains(spec)
        }),
    decreases table.len(),
{
    let rest = found_in(table.drop_last(), query, show_ai, target);
    if i < rest.len() {
        lemma_found(table.drop_last(), query, show_ai, target, i);
        let spec = rest[i];
        let at = choose|k: int| 0 <= k < table.drop_last().len() && table.drop_last()[k] == spec;
        assert(table[at] == spec);
    } else {
        assert(table[table.len() - 1] == table.last());
    }
}

/// Before anything is typed, the palette offers only common commands, and none of the assistant
/// unless it is in use.
pub proof fn law_the_idle_palette_is_short(input: Seq<char>, i: int)
    requires
        input.len() == 0,
        0 <= i < suggestions(input, false).len(),
    ensures
        !is_ai_command(suggestions(input, false)[i].completion@),
        is_common(suggestions(input, false)[i].completion@),
{
    let query = query_of(input);
    text::lemma_trimmed(query);
    let table = table_for(input);
    assert(text::trimmed(query).len() == 0);
    let completed = found_in(table, query, false, Target::Completion);
    let titled = found_in(table, query, false, Target::Usage);
    if completed.len() > 0 {
        lemma_found(table, query, false, Target::Completion, i);
    } else if titled.len() > 0 {
        lemma_found(table, query, false, Target::Usage, i);
    } else {
        lemma_found(table, query, false, Target::Description, i);
    }
}

/// Every suggestion is a command of the table that is searched, and the typed text finds it.
pub proof fn law_suggestions_are_commands_that_the_text_finds(
    input: Seq<char>,
    include_ai: bool,
    i: int,
)
    requires
        0 <= i < suggestions(input, include_ai).len(),
    ensures
        table_for(input).contains(suggestions(input, include_ai)[i]),
        exists|target: Target| #[trigger]
            found_by(suggestions(input, include_ai)[i], query_of(input), target),
{
    let query = query_of(input);
    let show_ai = include_ai || text::trimmed(query).len() > 0;
    let table = table_for(input);
    let completed = found_in(table, query, show_ai, Target::Completion);
    let titled = found_in(table, query, show_ai, Target::Usage);
    if completed.len() > 0 {
        lemma_found(table, query, show_ai, Target::Completion, i);
    } else if titled.len() > 0 {
        lemma_found(table, query, show_ai, Target::Usage, i);
    } else {
        lemma_found(table, query, show_ai, Target::Description, i);
    }
}

/// The settings that are kept outside the program: in the room, or by the broadcasting software.
#[derive(Clone, Copy, Debug, PartialEq, Eq, Structural)]
pub enum ExternalField {
    RoomTitle,
    RoomCover,
    ObsHost,
    ObsPort,
    ObsMicrophone,
    ObsScene,
}

pub open spec fn field_is_obs(field: ExternalField) -> bool {
    !(field is RoomTitle || field is RoomCover)
}

pub open spec fn field_label(field: ExternalField) -> Seq<char> {
    match field {
        ExternalField::RoomTitle => "直播间标题"@,
        ExternalField::RoomCover => "直播间封面"@,
        ExternalField::ObsHost => "接入地址"@,
        ExternalField::ObsPort => "接入端口"@,
        ExternalField::ObsMicrophone => "麦克风配置"@,
        ExternalField::ObsScene => "切换场景"@,
    }
}

pub open spec fn field_description(field: ExternalField) -> Seq<char> {
    match field {
        ExternalField::RoomTitle => "公开修改B站标题；不改AI主题"@,
        ExternalField::RoomCover => "上传本地图片并提交审核"@,
        ExternalField::ObsHost => "编辑OBS WebSocket主机名或IP"@,
        ExternalField::ObsPort => "编辑OBS WebSocket端口"@,
        ExternalField::ObsMicrophone => "输入麦克风名称"@,
        ExternalField::ObsScene => "输入场景名称"@,
    }
}

impl ExternalField {
    pub fn is_obs(self) -> (r: bool)
        ensures
            r == field_is_obs(self),
    {
        match self {
            ExternalField::RoomTitle | ExternalField::RoomCover => false,
            _ => true,
        }
    }

    pub fn label(self) -> (r: &'static str)
        ensures
            r@ == field_label(self),
    {
        match self {
            ExternalField::RoomTitle => "直播间标题",
            ExternalField::RoomCover => "直播间封面",
            ExternalField::ObsHost => "接入地址",
            ExternalField::ObsPort => "接入端口",
            ExternalField::ObsMicrophone => "麦克风配置",
            ExternalField::ObsScene => "切换场景",
        }
    }

    pub fn description(self) -> (r: &'static str)
        ensures
            r@ == field_description(self),
    {
        match self {
            ExternalField::RoomTitle => "公开修改B站标题；不改AI主题",
            ExternalField::RoomCover => "上传本地图片并提交审核",
            ExternalField::ObsHost => "编辑OBS WebSocket主机名或IP",
            ExternalField::ObsPort => "编辑OBS WebSocket端口",
            ExternalField::ObsMicrophone => "输入麦克风名称",
            ExternalField::ObsScene => "输入场景名称",
        }
    }
}

/// The sections of the assistant's settings that a command opens.
#[derive(Clone, Copy, Debug, PartialEq, Eq, Structural)]
pub enum AiSection {
    Model,
    Replies,
    Materials,
    Advanced,
}

/// What a typed line asks for.
#[derive(Debug)]
pub enum Command {
    /// The line reaches for accounts, the room or the broadcasting software in a local session.
    Refused,
    About,
    ThemePage,
    Display { setting: String, value: String },
    AiPage(AiSection),
    Workspace(Option<String>),
    ObsSettings,
    External(ExternalField, Option<String>),
    Commands,
    More,
    StartAssistant { visible: bool, rebuild: bool },
    Automatic(bool),
    AiRange,
    AiTopic,
    StopAssistant,
    RepairHistory,
    SettingsSection(String),
    Settings,
    Diagnostics,
    Assistant,
    Review,
    Pause,
    Quit,
    Help,
    Pin,
    FindEditor,
    Find(String),
    ObsStatus,
    Microphone { muted: bool },
    ObsPassword,
    ObsStart,
    ObsStop,
    Unknown,
}

/// What a typed line asks for, as contracts speak of it.
pub ghost enum CommandView {
    Refused,
    About,
    ThemePage,
    Display { setting: Seq<char>, value: Seq<char> },
    AiPage(AiSection),
    Workspace(Option<Seq<char>>),
    ObsSettings,
    External(ExternalField, Option<Seq<char>>),
    Commands,
    More,
    StartAssistant { visible: bool, rebuild: bool },
    Automatic(bool),
    AiRange,
    AiTopic,
    StopAssistant,
    RepairHistory,
    SettingsSection(Seq<char>),
    Settings,
    Diagnostics,
    Assistant,
    Review,
    Pause,
    Quit,
    Help,
    Pin,
    FindEditor,
    Find(Seq<char>),
    ObsStatus,
    Microphone { muted: bool },
    ObsPassword,
    ObsStart,
    ObsStop,
    Unknown,
}

impl View for Command {
    type V = CommandView;

    open spec fn view(&self) -> CommandView {
        match *self {
            Command::Refused => CommandView::Refused,
            Command::About => CommandView::About,
            Command::ThemePage => CommandView::ThemePage,
            Command::Display { setting, value } => CommandView::Display {
                setting: setting@,
                value: value@,
            },
            Command::AiPage(section) => CommandView::AiPage(section),
            Command::Workspace(value) => CommandView::Workspace(text::opt_view(value)),
            Command::ObsSettings => CommandView::ObsSettings,
            Command::External(field, value) => CommandView::External(field, text::opt_view(value)),
            Command::Commands => CommandView::Commands,
            Command::More => CommandView::More,
            Command::StartAssistant { visible, rebuild } => CommandView::StartAssistant {
                visible,
                rebuild,
            },
            Command::Automatic(on) => CommandView::Automatic(on),
            Command::AiRange => CommandView::AiRange,
            Command::AiTopic => CommandView::AiTopic,
            Command::StopAssistant => CommandView::StopAssistant,
            Command::RepairHistory => CommandView::RepairHistory,
            Command::SettingsSection(section) => CommandView::SettingsSection(section@),
            Command::Settings => CommandView::Settings,
            Command::Diagnostics => CommandView::Diagnostics,
            Command::Assistant => CommandView::Assistant,
            Command::Review => CommandView::Review,
            Command::Pause => CommandView::Pause,
            Command::Quit => CommandView::Quit,
            Command::Help => CommandView::Help,
            Command::Pin => CommandView::Pin,
            Command::FindEditor => CommandView::FindEditor,
            Command::Find(query) => CommandView::Find(query@),
            Command::ObsStatus => CommandView::ObsStatus,
            Command::Microphone { muted } => CommandView::Microphone { muted },
            Command::ObsPassword => CommandView::ObsPassword,
            Command::ObsStart => CommandView::ObsStart,
            Command::ObsStop => CommandView::ObsStop,
            Command::Unknown => CommandView::Unknown,
        }
    }
}

/// The words are exactly this one.
pub open spec fn one(words: Seq<Seq<char>>, a: Seq<char>) -> bool {
    words.len() == 1 && words[0] == a
}

/// The words are exactly these two.
pub open spec fn two(words: Seq<Seq<char>>, a: Seq<char>, b: Seq<char>) -> bool {
    words.len() == 2 && words[0] == a && words[1] == b
}

/// The words are exactly these three.
pub open spec fn three(words: Seq<Seq<char>>, a: Seq<char>, b: Seq<char>, c: Seq<char>) -> bool {
    words.len() == 3 && words[0] == a && words[1] == b && words[2] == c
}

/// The words begin with these two.
pub open spec fn first_two(words: Seq<Seq<char>>, a: Seq<char>, b: Seq<char>) -> bool {
    words.len() >= 2 && words[0] == a && words[1] == b
}

/// The words begin with these three.
pub open spec fn first_three(
    words: Seq<Seq<char>>,
    a: Seq<char>,
    b: Seq<char>,
    c: Seq<char>,
) -> bool {
    words.len() >= 3 && words[0] == a && words[1] == b && words[2] == c
}

/// What a typed line asks for. In a local session nothing reaches beyond the machine.
pub open spec fn parsed(raw: Seq<char>, local: bool) -> CommandView {
    let words = text::words_of(raw);
    if local && words.len() > 0 && (is_obs_command(words[0]) || words[0] == "/room"@) {
        CommandView::Refused
    } else if one(words, "/about"@) {
        CommandView::About
    } else if two(words, "/display"@, "theme"@) {
        CommandView::ThemePage
    } else if words.len() == 3 && words[0] == "/display"@ {
        CommandView::Display { setting: words[1], value: words[2] }
    } else if two(words, "/ai"@, "model"@) {
        CommandView::AiPage(AiSection::Model)
    } else if two(words, "/ai"@, "replies"@) {
        CommandView::AiPage(AiSection::Replies)
    } else if two(words, "/ai"@, "materials"@) {
        CommandView::AiPage(AiSection::Materials)
    } else if two(words, "/ai"@, "advanced"@) {
        CommandView::AiPage(AiSection::Advanced)
    } else if first_two(words, "/ai"@, "workspace"@) {
        CommandView::Workspace(value_behind(raw, 2))
    } else if two(words, "/settings"@, "obs"@) {
        CommandView::ObsSettings
    } else if first_two(words, "/room"@, "title"@) {
        CommandView::External(ExternalField::RoomTitle, value_behind(raw, 2))
    } else if first_two(words, "/room"@, "cover"@) {
        CommandView::External(ExternalField::RoomCover, value_behind(raw, 2))
    } else if first_three(words, "/obs"@, "config"@, "host"@) {
        CommandView::External(ExternalField::ObsHost, value_behind(raw, 3))
    } else if first_three(words, "/obs"@, "config"@, "port"@) {
        CommandView::External(ExternalField::ObsPort, value_behind(raw, 3))
    } else if first_three(words, "/obs"@, "config"@, "mic"@) {
        CommandView::External(ExternalField::ObsMicrophone, value_behind(raw, 3))
    } else if words.len() > 0 && words[0] == "/scene"@ {
        CommandView::External(ExternalField::ObsScene, value_behind(raw, 1))
    } else if one(words, "/commands"@) {
        CommandView::Commands
    } else if one(words, "/more"@) {
        CommandView::More
    } else if two(words, "/ai"@, "start"@) {
        CommandView::StartAssistant { visible: false, rebuild: false }
    } else if three(words, "/ai"@, "auto"@, "on"@) {
        CommandView::Automatic(true)
    } else if three(words, "/ai"@, "auto"@, "off"@) {
        CommandView::Automatic(false)
    } else if two(words, "/ai"@, "range"@) {
        CommandView::AiRange
    } else if two(words, "/ai"@, "topic"@) {
        CommandView::AiTopic
    } else if two(words, "/ai"@, "visible"@) {
        CommandView::StartAssistant { visible: true, rebuild: true }
    } else if two(words, "/ai"@, "reset"@) {
        CommandView::StartAssistant { visible: false, rebuild: true }
    } else if two(words, "/ai"@, "stop"@) {
        CommandView::StopAssistant
    } else if two(words, "/diag"@, "repair"@) {
        CommandView::RepairHistory
    } else if words.len() == 2 && words[0] == "/settings"@ {
        CommandView::SettingsSection(words[1])
    } else if one(words, "/settings"@) {
        CommandView::Settings
    } else if one(words, "/diag"@) {
        CommandView::Diagnostics
    } else if one(words, "/ai"@) {
        CommandView::Assistant
    } else if one(words, "/review"@) {
        CommandView::Review
    } else if one(words, "/pause"@) {
        CommandView::Pause
    } else if one(words, "/quit"@) {
        CommandView::Quit
    } else if one(words, "/help"@) {
        CommandView::Help
    } else if one(words, "/pin"@) {
        CommandView::Pin
    } else if one(words, "/find"@) {
        CommandView::FindEditor
    } else if words.len() > 0 && words[0] == "/find"@ {
        CommandView::Find(text::joined(words.skip(1), " "@))
    } else if one(words, "/obs"@) || two(words, "/obs"@, "status"@) || two(
        words,
        "/obs"@,
        "connect"@,
    ) {
        CommandView::ObsStatus
    } else if one(words, "/mute"@) {
        CommandView::Microphone { muted: true }
    } else if one(words, "/unmute"@) {
        CommandView::Microphone { muted: false }
    } else if three(words, "/obs"@, "config"@, "password"@) {
        CommandView::ObsPassword
    } else if two(words, "/obs"@, "start"@) {
        CommandView::ObsStart
    } else if two(words, "/obs"@, "stop"@) {
        CommandView::ObsStop
    } else {
        CommandView::Unknown
    }
}

fn word_is(words: &Vec<String>, at: usize, word: &str) -> (r: bool)
    ensures
        r == (at < words@.len() && text::views(words@)[at as int] == word@),
{
    at < words.len() && text::same(words[at].as_str(), word)
}

fn is_one(words: &Vec<String>, a: &str) -> (r: bool)
    ensures
        r == one(text::views(words@), a@),
{
    words.len() == 1 && word_is(words, 0, a)
}

fn is_two(words: &Vec<String>, a: &str, b: &str) -> (r: bool)
    ensures
        r == two(text::views(words@), a@, b@),
{
    words.len() == 2 && word_is(words, 0, a) && word_is(words, 1, b)
}

fn is_three(words: &Vec<String>, a: &str, b: &str, c: &str) -> (r: bool)
    ensures
        r == three(text::views(words@), a@, b@, c@),
{
    words.len() == 3 && word_is(words, 0, a) && word_is(words, 1, b) && word_is(words, 2, c)
}

fn begins_two(words: &Vec<String>, a: &str, b: &str) -> (r: bool)
    ensures
        r == first_two(text::views(words@), a@, b@),
{
    word_is(words, 0, a) && word_is(words, 1, b)
}

fn begins_three(words: &Vec<String>, a: &str, b: &str, c: &str) -> (r: bool)
    ensures
        r == first_three(text::views(words@), a@, b@, c@),
{
    word_is(words, 0, a) && word_is(words, 1, b) && word_is(words, 2, c)
}

/// What a typed line asks for.
#[verifier::rlimit(60)]
pub fn parse_command(raw: &str, local: bool) -> (r: Command)
    ensures
        r@ == parsed(raw@, local),
{
    let mut words: Vec<String> = text::split_words(raw);
    if local && words.len() > 0 && (obs_command(words[0].as_str()) || word_is(&words, 0, "/room")) {
        return Command::Refused;
    }
    if is_one(&words, "/about") {
        return Command::About;
    }
    if is_two(&words, "/display", "theme") {
        return Command::ThemePage;
    }
    if words.len() == 3 && word_is(&words, 0, "/display") {
        let value: String = words.remove(2);
        let setting: String = words.remove(1);
        return Command::Display { setting, value };
    }
    if is_two(&words, "/ai", "model") {
        return Command::AiPage(AiSection::Model);
    }
    if is_two(&words, "/ai", "replies") {
        return Command::AiPage(AiSection::Replies);
    }
    if is_two(&words, "/ai", "materials") {
        return Command::AiPage(AiSection::Materials);
    }
    if is_two(&words, "/ai", "advanced") {
        return Command::AiPage(AiSection::Advanced);
    }
    if begins_two(&words, "/ai", "workspace") {
        return Command::Workspace(command_value(raw, 2));
    }
    if is_two(&words, "/settings", "obs") {
        return Command::ObsSettings;
    }
    if begins_two(&words, "/room", "title") {
        return Command::External(ExternalField::RoomTitle, command_value(raw, 2));
    }
    if begins_two(&words, "/room", "cover") {
        return Command::External(ExternalField::RoomCover, command_value(raw, 2));
    }
    if begins_three(&words, "/obs", "config", "host") {
        return Command::External(ExternalField::ObsHost, command_value(raw, 3));
    }
    if begins_three(&words, "/obs", "config", "port") {
        return Command::External(ExternalField::ObsPort, command_value(raw, 3));
    }
    if begins_three(&words, "/obs", "config", "mic") {
        return Command::External(ExternalField::ObsMicrophone, command_value(raw, 3));
    }
    if word_is(&words, 0, "/scene") {
        return Command::External(ExternalField::ObsScene, command_value(raw, 1));
    }
    if is_one(&words, "/commands") {
        return Command::Commands;
    }
    if is_one(&words, "/more") {
        return Command::More;
    }
    if is_two(&words, "/ai", "start") {
        return Command::StartAssistant { visible: false, rebuild: false };
    }
    if is_three(&words, "/ai", "auto", "on") {
        return Command::Automatic(true);
    }
    if is_three(&words, "/ai", "auto", "off") {
        return Command::Automatic(false);
    }
    if is_two(&words, "/ai", "range") {
        return Command::AiRange;
    }
    if is_two(&words, "/ai", "topic") {
        return Command::AiTopic;
    }
    if is_two(&words, "/ai", "visible") {
        return Command::StartAssistant { visible: true, rebuild: true };
    }
    if is_two(&words, "/ai", "reset") {
        return Command::StartAssistant { visible: false, rebuild: true };
    }
    if is_two(&words, "/ai", "stop") {
        return Command::StopAssistant;
    }
    if is_two(&words, "/diag", "repair") {
        return Command::RepairHistory;
    }
    if words.len() == 2 && word_is(&words, 0, "/settings") {
        return Command::SettingsSection(words.remove(1));
    }
    if is_one(&words, "/settings") {
        return Command::Settings;
    }
    if is_one(&words, "/diag") {
        return Command::Diagnostics;
    }
    if is_one(&words, "/ai") {
        return Command::Assistant;
    }
    if is_one(&words, "/review") {
        return Command::Review;
    }
    if is_one(&words, "/pause") {
        return Command::Pause;
    }
    if is_one(&words, "/quit") {
        return Command::Quit;
    }
    if is_one(&words, "/help") {
        return Command::Help;
    }
    if is_one(&words, "/pin") {
        return Command::Pin;
    }
    if is_one(&words, "/find") {
        return Command::FindEditor;
    }
    if word_is(&words, 0, "/find") {
        let ghost all = words@;
        let first: String = words.remove(0);
        proof {
            assert(text::views(words@) =~= text::views(all).skip(1));
        }
        return Command::Find(text::join(&words, " "));
    }
    if is_one(&words, "/obs") || is_two(&words, "/obs", "status") || is_two(
        &words,
        "/obs",
        "connect",
    ) {
        return Command::ObsStatus;
    }
    if is_one(&words, "/mute") {
        return Command::Microphone { muted: true };
    }
    if is_one(&words, "/unmute") {
        return Command::Microphone { muted: false };
    }
    if is_three(&words, "/obs", "config", "password") {
        return Command::ObsPassword;
    }
    if is_two(&words, "/obs", "start") {
        return Command::ObsStart;
    }
    if is_two(&words, "/obs", "stop") {
        return Command::ObsStop;
    }
    Command::Unknown
}

/// In a local session no typed line reaches the room or the broadcasting software.
pub proof fn law_local_sessions_reach_nothing_outside(raw: Seq<char>)
    ensures
        ({
            let command = parsed(raw, true);
            &&& !(command is ObsStatus)
            &&& !(command is Microphone)
            &&& !(command is ObsPassword)
            &&& !(command is ObsStart)
            &&& !(command is ObsStop)
            &&& !(command is External)
        }),
{
}

/// How the first words of the commands are spelt, as far as it tells them apart.
proof fn lemma_first_words()
    ensures
        "/about"@.len() == 6,
        "/about"@[1] == 'a' && "/about"@[2] == 'b' && "/about"@[3] == 'o',
        "/display"@.len() == 8,
        "/display"@[1] == 'd' && "/display"@[2] == 'i' && "/display"@[3] == 's',
        "/ai"@.len() == 3,
        "/ai"@[1] == 'a' && "/ai"@[2] == 'i',
        "/settings"@.len() == 9,
        "/settings"@[1] == 's' && "/settings"@[2] == 'e' && "/settings"@[3] == 't',
        "/room"@.len() == 5,
        "/room"@[1] == 'r' && "/room"@[2] == 'o' && "/room"@[3] == 'o',
        "/obs"@.len() == 4,
        "/obs"@[1] == 'o' && "/obs"@[2] == 'b' && "/obs"@[3] == 's',
        "/scene"@.len() == 6,
        "/scene"@[1] == 's' && "/scene"@[2] == 'c' && "/scene"@[3] == 'e',
        "/commands"@.len() == 9,
        "/commands"@[1] == 'c' && "/commands"@[2] == 'o' && "/commands"@[3] == 'm',
        "/more"@.len() == 5,
        "/more"@[1] == 'm' && "/more"@[2] == 'o' && "/more"@[3] == 'r',
        "/diag"@.len() == 5,
        "/diag"@[1] == 'd' && "/diag"@[2] == 'i' && "/diag"@[3] == 'a',
        "/review"@.len() == 7,
        "/review"@[1] == 'r' && "/review"@[2] == 'e' && "/review"@[3] == 'v',
        "/pause"@.len() == 6,
        "/pause"@[1] == 'p' && "/pause"@[2] == 'a' && "/pause"@[3] == 'u',
        "/quit"@.len() == 5,
        "/quit"@[1] == 'q' && "/quit"@[2] == 'u' && "/quit"@[3] == 'i',
        "/help"@.len() == 5,
        "/help"@[1] == 'h' && "/help"@[2] == 'e' && "/help"@[3] == 'l',
        "/pin"@.len() == 4,
        "/pin"@[1] == 'p' && "/pin"@[2] == 'i' && "/pin"@[3] == 'n',
        "/find"@.len() == 5,
        "/find"@[1] == 'f' && "/find"@[2] == 'i' && "/find"@[3] == 'n',
        "/mute"@.len() == 5,
        "/mute"@[1] == 'm' && "/mute"@[2] == 'u' && "/mute"@[3] == 't',
        "/unmute"@.len() == 7,
        "/unmute"@[1] == 'u' && "/unmute"@[2] == 'n' && "/unmute"@[3] == 'm',
{
    reveal_strlit("/about");
    reveal_strlit("/display");
    reveal_strlit("/ai");
    reveal_strlit("/settings");
    reveal_strlit("/room");
    reveal_strlit("/obs");
    reveal_strlit("/scene");
    reveal_strlit("/commands");
    reveal_strlit("/more");
    reveal_strlit("/diag");
    reveal_strlit("/review");
    reveal_strlit("/pause");
    reveal_strlit("/quit");
    reveal_strlit("/help");
    reveal_strlit("/pin");
    reveal_strlit("/find");
    reveal_strlit("/mute");
    reveal_strlit("/unmute");
}

/// How the words that follow are spelt, as far as it tells them apart.
proof fn lemma_second_words()
    ensures
        "theme"@.len() == 5,
        "theme"@[0] == 't' && "theme"@[1] == 'h' && "theme"@[2] == 'e',
        "model"@.len() == 5,
        "model"@[0] == 'm' && "model"@[1] == 'o' && "model"@[2] == 'd',
        "replies"@.len() == 7,
        "replies"@[0] == 'r' && "replies"@[1] == 'e' && "replies"@[2] == 'p',
        "materials"@.len() == 9,
        "materials"@[0] == 'm' && "materials"@[1] == 'a' && "materials"@[2] == 't',
        "advanced"@.len() == 8,
        "advanced"@[0] == 'a' && "advanced"@[1] == 'd' && "advanced"@[2] == 'v',
        "workspace"@.len() == 9,
        "workspace"@[0] == 'w' && "workspace"@[1] == 'o' && "workspace"@[2] == 'r',
        "obs"@.len() == 3,
        "obs"@[0] == 'o' && "obs"@[1] == 'b' && "obs"@[2] == 's',
        "title"@.len() == 5,
        "title"@[0] == 't' && "title"@[1] == 'i' && "title"@[2] == 't',
        "cover"@.len() == 5,
        "cover"@[0] == 'c' && "cover"@[1] == 'o' && "cover"@[2] == 'v',
        "config"@.len() == 6,
        "config"@[0] == 'c' && "config"@[1] == 'o' && "config"@[2] == 'n',
        "host"@.len() == 4,
        "host"@[0] == 'h' && "host"@[1] == 'o' && "host"@[2] == 's',
        "port"@.len() == 4,
        "port"@[0] == 'p' && "port"@[1] == 'o' && "port"@[2] == 'r',
        "mic"@.len() == 3,
        "mic"@[0] == 'm' && "mic"@[1] == 'i' && "mic"@[2] == 'c',
        "start"@.len() == 5,
        "start"@[0] == 's' && "start"@[1] == 't' && "start"@[2] == 'a',
        "auto"@.len() == 4,
        "auto"@[0] == 'a' && "auto"@[1] == 'u' && "auto"@[2] == 't',
        "on"@.len() == 2,
        "on"@[0] == 'o' && "on"@[1] == 'n',
        "off"@.len() == 3,
        "off"@[0] == 'o' && "off"@[1] == 'f' && "off"@[2] == 'f',
        "range"@.len() == 5,
        "range"@[0] == 'r' && "range"@[1] == 'a' && "range"@[2] == 'n',
        "topic"@.len() == 5,
        "topic"@[0] == 't' && "topic"@[1] == 'o' && "topic"@[2] == 'p',
        "visible"@.len() == 7,
        "visible"@[0] == 'v' && "visible"@[1] == 'i' && "visible"@[2] == 's',
        "reset"@.len() == 5,
        "reset"@[0] == 'r' && "reset"@[1] == 'e' && "reset"@[2] == 's',
        "stop"@.len() == 4,
        "stop"@[0] == 's' && "stop"@[1] == 't' && "stop"@[2] == 'o',
        "repair"@.len() == 6,
        "repair"@[0] == 'r' && "repair"@[1] == 'e' && "repair"@[2] == 'p',
        "status"@.len() == 6,
        "status"@[0] == 's' && "status"@[1] == 't' && "status"@[2] == 'a',
        "connect"@.len() == 7,
        "connect"@[0] == 'c' && "connect"@[1] == 'o' && "connect"@[2] == 'n',
        "password"@.len() == 8,
        "password"@[0] == 'p' && "password"@[1] == 'a' && "password"@[2] == 's',
{
    reveal_strlit("theme");
    reveal_strlit("model");
    reveal_strlit("replies");
    reveal_strlit("materials");
    reveal_strlit("advanced");
    reveal_strlit("workspace");
    reveal_strlit("obs");
    reveal_strlit("title");
    reveal_strlit("cover");
    reveal_strlit("config");
    reveal_strlit("host");
    reveal_strlit("port");
    reveal_strlit("mic");
    reveal_strlit("start");
    reveal_strlit("auto");
    reveal_strlit("on");
    reveal_strlit("off");
    reveal_strlit("range");
    reveal_strlit("topic");
    reveal_strlit("visible");
    reveal_strlit("reset");
    reveal_strlit("stop");
    reveal_strlit("repair");
    reveal_strlit("status");
    reveal_strlit("connect");
    reveal_strlit("password");
}

/// Where a session may reach OBS, the line `/mute` closes the microphone and `/unmute` opens it,
/// whatever white space stands around, and no other line does either.
pub proof fn law_the_microphone_obeys_its_words(raw: Seq<char>)
    ensures
        ({
            let words = text::words_of(raw);
            let command = parsed(raw, false);
            &&& words =~= seq!["/mute"@] <==> command == (CommandView::Microphone { muted: true })
            &&& words =~= seq!["/unmute"@] <==> command == (CommandView::Microphone { muted: false })
        }),
{
    lemma_first_words();
    lemma_second_words();
}

/// Each command of one word is what its word says, and no other line is that command.
pub proof fn law_single_words_have_their_commands(raw: Seq<char>)
    ensures
        ({
            let words = text::words_of(raw);
            let command = parsed(raw, false);
            &&& words =~= seq!["/about"@] <==> command is About
            &&& words =~= seq!["/commands"@] <==> command is Commands
            &&& words =~= seq!["/more"@] <==> command is More
            &&& words =~= seq!["/settings"@] <==> command is Settings
            &&& words =~= seq!["/diag"@] <==> command is Diagnostics
            &&& words =~= seq!["/ai"@] <==> command is Assistant
            &&& words =~= seq!["/review"@] <==> command is Review
            &&& words =~= seq!["/pause"@] <==> command is Pause
            &&& words =~= seq!["/quit"@] <==> command is Quit
            &&& words =~= seq!["/help"@] <==> command is Help
            &&& words =~= seq!["/pin"@] <==> command is Pin
            &&& words =~= seq!["/find"@] <==> command is FindEditor
        }),
{
    lemma_first_words();
    lemma_second_words();
}

/// Each command of two words is what they say, and no other line is that command.
pub proof fn law_pairs_of_words_have_their_commands(raw: Seq<char>)
    ensures
        ({
            let words = text::words_of(raw);
            let command = parsed(raw, false);
            &&& words =~= seq!["/display"@, "theme"@] <==> command is ThemePage
            &&& words =~= seq!["/ai"@, "range"@] <==> command is AiRange
            &&& words =~= seq!["/ai"@, "topic"@] <==> command is AiTopic
            &&& words =~= seq!["/ai"@, "stop"@] <==> command is StopAssistant
            &&& words =~= seq!["/diag"@, "repair"@] <==> command is RepairHistory
            &&& words =~= seq!["/settings"@, "obs"@] <==> command is ObsSettings
            &&& words =~= seq!["/obs"@, "start"@] <==> command is ObsStart
            &&& words =~= seq!["/obs"@, "stop"@] <==> command is ObsStop
        }),
{
    lemma_first_words();
    lemma_second_words();
}

/// Starting the assistant, letting it send and its pages of settings each have their own line, and
/// no other line leads there.
pub proof fn law_the_assistant_obeys_its_words(raw: Seq<char>)
    ensures
        ({
            let words = text::words_of(raw);
            let command = parsed(raw, false);
            &&& words =~= seq!["/ai"@, "start"@] <==> command == (CommandView::StartAssistant {
                visible: false,
                rebuild: false,
            })
            &&& words =~= seq!["/ai"@, "visible"@] <==> command == (CommandView::StartAssistant {
                visible: true,
                rebuild: true,
            })
            &&& words =~= seq!["/ai"@, "reset"@] <==> command == (CommandView::StartAssistant {
                visible: false,
                rebuild: true,
            })
            &&& words =~= seq!["/ai"@, "auto"@, "on"@] <==> command == CommandView::Automatic(true)
            &&& words =~= seq!["/ai"@, "auto"@, "off"@] <==> command == CommandView::Automatic(false)
            &&& words =~= seq!["/ai"@, "model"@] <==> command == CommandView::AiPage(AiSection::Model)
            &&& words =~= seq!["/ai"@, "replies"@] <==> command == CommandView::AiPage(AiSection::Replies)
            &&& words =~= seq!["/ai"@, "materials"@] <==> command == CommandView::AiPage(
                AiSection::Materials,
            )
            &&& words =~= seq!["/ai"@, "advanced"@] <==> command == CommandView::AiPage(AiSection::Advanced)
        }),
{
    lemma_first_words();
    lemma_second_words();
}

/// A command that sets a value names the field by its first words, and the value is what stands
/// behind them; no other line sets the field.
pub proof fn law_values_go_to_their_fields(raw: Seq<char>)
    ensures
        ({
            let words = text::words_of(raw);
            let command = parsed(raw, false);
            &&& words.len() >= 2 && words[0] == "/room"@ && words[1] == "title"@ <==> command is External
                && command->External_0 == ExternalField::RoomTitle
            &&& words.len() >= 2 && words[0] == "/room"@ && words[1] == "cover"@ <==> command is External
                && command->External_0 == ExternalField::RoomCover
            &&& words.len() >= 3 && words[0] == "/obs"@ && words[1] == "config"@ && words[2] == "host"@ <==> command is External
                && command->External_0 == ExternalField::ObsHost
            &&& words.len() >= 3 && words[0] == "/obs"@ && words[1] == "config"@ && words[2] == "port"@ <==> command is External
                && command->External_0 == ExternalField::ObsPort
            &&& words.len() >= 3 && words[0] == "/obs"@ && words[1] == "config"@ && words[2] == "mic"@ <==> command is External
                && command->External_0 == ExternalField::ObsMicrophone
            &&& words.len() >= 1 && words[0] == "/scene"@ <==> command is External
                && command->External_0 == ExternalField::ObsScene
            &&& words.len() >= 2 && words[0] == "/ai"@ && words[1] == "workspace"@ <==> command is Workspace
            &&& words.len() >= 1 && words[0] == "/scene"@ ==> command->External_1 == value_behind(raw, 1)
            &&& words.len() >= 2 && words[0] == "/room"@ && command is External ==> command->External_1 == value_behind(raw, 2)
            &&& words.len() >= 3 && words[0] == "/obs"@ && command is External ==> command->External_1 == value_behind(raw, 3)
            &&& command is Workspace ==> command->Workspace_0 == value_behind(raw, 2)
            &&& words =~= seq!["/obs"@, "config"@, "password"@] <==> command is ObsPassword
        }),
{
    lemma_first_words();
    lemma_second_words();
}

/// A search takes the words behind `/find`, a display setting its two words, a page of the settings
/// its name, and looking at OBS has three lines.
pub proof fn law_the_rest_of_the_lines(raw: Seq<char>)
    ensures
        ({
            let words = text::words_of(raw);
            let command = parsed(raw, false);
            &&& words.len() >= 2 && words[0] == "/find"@ <==> command is Find
            &&& command is Find ==> command->Find_0 == text::joined(words.skip(1), seq![' '])
            &&& words.len() == 3 && words[0] == "/display"@ <==> command is Display
            &&& command is Display ==> command->setting == words[1] && command->value == words[2]
            &&& words.len() == 2 && words[0] == "/settings"@ && words[1] != "obs"@ <==> command is SettingsSection
            &&& command is SettingsSection ==> command->SettingsSection_0 == words[1]
            &&& words =~= seq!["/obs"@] || words =~= seq!["/obs"@, "status"@] || words =~= seq![
                "/obs"@,
                "connect"@,
            ] <==> command is ObsStatus
            &&& !(command is Refused)
        }),
{
    lemma_first_words();
    lemma_second_words();
    reveal_strlit(" ");
    assert(" "@ =~= seq![' ']);
}

/// What stands behind the first words of a line is found by passing over them one by one.
pub proof fn law_the_value_stands_behind_the_words(
    before: Seq<char>,
    word: Seq<char>,
    rest: Seq<char>,
    words: nat,
)
    requires
        text::is_blank(before),
        text::is_word(word),
        rest.len() == 0 || text::is_whitespace(rest[0]),
    ensures
        behind_words(before + word + rest, words + 1) == behind_words(rest, words),
        behind_words(rest, 0) == rest,
        value_behind(before + word + rest, 1) == (if text::trimmed(rest).len() == 0 {
            None
        } else {
            Some(text::trimmed(rest))
        }),
{
    text::law_a_word_is_passed_over(before, word, rest);
    reveal_with_fuel(behind_words, 2);
}

/// A local session keeps every command that reaches neither OBS nor the room; of the others it
/// refuses each.
pub proof fn law_local_sessions_keep_the_rest(raw: Seq<char>)
    ensures
        ({
            let words = text::words_of(raw);
            let outside = words.len() > 0 && (words[0] == "/obs"@ || words[0] == "/mute"@
                || words[0] == "/unmute"@ || words[0] == "/scene"@ || words[0] == "/room"@);
            &&& outside ==> parsed(raw, true) is Refused
            &&& !outside ==> parsed(raw, true) == parsed(raw, false)
        }),
{
    let words = text::words_of(raw);
    if words.len() > 0 {
        lemma_words_hold_no_space(raw);
        if text::has_prefix(words[0], "/obs "@) {
            reveal_strlit("/obs ");
            assert(words[0].subrange(0, 5)[4] == ' ');
            assert(words[0][4] == ' ');
            assert(text::is_whitespace(words[0][4]));
        }
    }
}

proof fn lemma_words_hold_no_space(raw: Seq<char>)
    ensures
        forall|i: int|
            0 <= i < text::words_of(raw).len() ==> text::is_word(#[trigger] text::words_of(raw)[i]),
{
    lemma_words_from_hold_no_space(raw, Seq::empty());
}

proof fn lemma_words_from_hold_no_space(raw: Seq<char>, begun: Seq<char>)
    requires
        forall|i: int| 0 <= i < begun.len() ==> !text::is_whitespace(#[trigger] begun[i]),
    ensures
        forall|i: int|
            0 <= i < text::words_from(raw, begun).len() ==> text::is_word(
                #[trigger] text::words_from(raw, begun)[i],
            ),
    decreases raw.len(),
{
    if raw.len() > 0 {
        if text::is_whitespace(raw[0]) {
            let rest = text::words_from(raw.skip(1), Seq::empty());
            lemma_words_from_hold_no_space(raw.skip(1), Seq::empty());
            let all = text::words_from(raw, begun);
            assert forall|i: int| 0 <= i < all.len() implies text::is_word(#[trigger] all[i]) by {
                if begun.len() == 0 {
                    assert(all =~= rest);
                    assert(rest[i] == all[i]);
                } else {
                    assert(all =~= seq![begun] + rest);
                    if i > 0 {
                        assert(rest[i - 1] == all[i]);
                    }
                }
            }
        } else {
            lemma_words_from_hold_no_space(raw.skip(1), begun.push(raw[0]));
            assert(text::words_from(raw, begun) == text::words_from(
                raw.skip(1),
                begun.push(raw[0]),
            ));
        }
    } else if begun.len() > 0 {
        assert(text::words_from(raw, begun) =~= seq![begun]);
        assert(text::is_word(begun));
    }
}

proof fn lemma_all_found(
    table: Seq<CommandSpec>,
    query: Seq<char>,
    show_ai: bool,
    target: Target,
    i: int,
)
    requires
        0 <= i < table.len(),
        is_offered(table[i], query, show_ai),
        found_by(table[i], query, target),
    ensures
        found_in(table, query, show_ai, target).contains(table[i]),
    decreases table.len(),
{
    let rest = found_in(table.drop_last(), query, show_ai, target);
    let all = found_in(table, query, show_ai, target);
    if i == table.len() - 1 {
        assert(all[rest.len() as int] == table[i]);
    } else {
        lemma_all_found(table.drop_last(), query, show_ai, target, i);
        let k = choose|k: int| 0 <= k < rest.len() && rest[k] == table[i];
        assert(all[k] == table[i]);
    }
}

/// Typing a command finds it: every command of the table that begins with what was typed behind
/// the slash is offered, and where there is one, only such are.
pub proof fn law_typing_a_command_finds_it(
    input: Seq<char>,
    rest: Seq<char>,
    include_ai: bool,
    i: int,
    k: int,
)
    requires
        input.len() > 1,
        input[0] == '/',
        input[1] != '/',
        exists|j: int| 1 <= j < input.len() && !text::is_whitespace(#[trigger] input[j]),
        0 <= i < table_for(input).len(),
        table_for(input)[i].completion@ == input + rest,
        0 <= k < suggestions(input, include_ai).len(),
    ensures
        suggestions(input, include_ai).contains(table_for(input)[i]),
        text::has_prefix(without_slashes(suggestions(input, include_ai)[k].completion@), input.skip(1)),
{
    let query = query_of(input);
    let found = table_for(input)[i];
    let show_ai = include_ai || text::trimmed(query).len() > 0;
    lemma_something_is_typed(input);
    assert(found.completion@[0] == '/');
    assert(found.completion@.skip(1)[0] == input[1]);
    reveal_with_fuel(without_slashes, 2);
    assert(without_slashes(found.completion@) == found.completion@.skip(1));
    assert(found.completion@.skip(1).subrange(0, query.len() as int) =~= query);
    lemma_all_found(table_for(input), query, show_ai, Target::Completion, i);
    lemma_found(table_for(input), query, show_ai, Target::Completion, k);
}

proof fn lemma_something_is_typed(input: Seq<char>)
    requires
        input.len() > 1,
        input[0] == '/',
        exists|j: int| 1 <= j < input.len() && !text::is_whitespace(#[trigger] input[j]),
    ensures
        text::trimmed(input.skip(1)).len() > 0,
{
    let query = input.skip(1);
    let j = choose|j: int| 1 <= j < input.len() && !text::is_whitespace(#[trigger] input[j]);
    text::law_trimming_takes_white_space_alone(query);
    let (before, behind) = choose|before: Seq<char>, behind: Seq<char>|
        text::is_blank(before) && text::is_blank(behind) && query == #[trigger] (before
            + text::trimmed(query) + behind);
    assert(query[j - 1] == input[j]);
    if text::trimmed(query).len() == 0 {
        if j - 1 < before.len() {
            assert(query[j - 1] == before[j - 1]);
        } else {
            assert(query[j - 1] == behind[j - 1 - before.len()]);
        }
    }
}

/// A line that begins with one of these words is none that reaches OBS or the room.
pub proof fn lemma_named_lines(raw: Seq<char>)
    ensures
        ({
            let words = text::words_of(raw);
            let first = words.len() > 0 && (words[0] == "/ai"@ || words[0] == "/pause"@ || words[0]
                == "/diag"@ || words[0] == "/quit"@ || words[0] == "/help"@);
            first ==> words[0] != "/obs"@ && words[0] != "/mute"@ && words[0] != "/unmute"@
                && words[0] != "/scene"@ && words[0] != "/room"@
        }),
{
    lemma_first_words();
}

/// Where no command begins with what was typed, those whose title holds it are offered, all of them
/// and only they.
pub proof fn law_titles_are_looked_through_next(input: Seq<char>, include_ai: bool, i: int, k: int)
    requires
        input.len() > 0,
        input[0] != '/',
        exists|j: int| 0 <= j < input.len() && !text::is_whitespace(#[trigger] input[j]),
        !text::has_prefix(input, "/obs "@),
        !text::has_prefix(input, "/settings "@),
        forall|j: int|
            0 <= j < table_for(input).len() ==> !text::has_prefix(
                without_slashes((#[trigger] table_for(input)[j]).completion@),
                input,
            ),
        0 <= i < table_for(input).len(),
        text::occurs_in(input, table_for(input)[i].usage@),
        0 <= k < suggestions(input, include_ai).len(),
    ensures
        suggestions(input, include_ai).contains(table_for(input)[i]),
        text::occurs_in(input, suggestions(input, include_ai)[k].usage@),
{
    let table = table_for(input);
    let show_ai = include_ai || text::trimmed(input).len() > 0;
    let slashed = seq!['/'] + input;
    assert(slashed.skip(1) =~= input);
    assert(exists|j: int| 1 <= j < slashed.len() && !text::is_whitespace(#[trigger] slashed[j])) by {
        let j = choose|j: int| 0 <= j < input.len() && !text::is_whitespace(#[trigger] input[j]);
        assert(slashed[j + 1] == input[j]);
    }
    lemma_something_is_typed(slashed);
    let completed = found_in(table, input, show_ai, Target::Completion);
    if completed.len() > 0 {
        lemma_found(table, input, show_ai, Target::Completion, 0);
        let at = choose|j: int| 0 <= j < table.len() && table[j] == completed[0];
        assert(!text::has_prefix(without_slashes(table[at].completion@), input));
    }
    lemma_all_found(table, input, show_ai, Target::Usage, i);
    lemma_found(table, input, show_ai, Target::Usage, k);
}

/// A line that begins with one of these words is none that reaches OBS or the room.
pub proof fn lemma_own_lines(raw: Seq<char>)
    ensures
        ({
            let words = text::words_of(raw);
            let first = words.len() > 0 && (words[0] == "/settings"@ || words[0] == "/ai"@
                || words[0] == "/review"@ || words[0] == "/diag"@ || words[0] == "/more"@
                || words[0] == "/about"@ || words[0] == "/display"@ || words[0] == "/pin"@);
            first ==> words[0] != "/obs"@ && words[0] != "/mute"@ && words[0] != "/unmute"@
                && words[0] != "/scene"@ && words[0] != "/room"@
        }),
        "obs"@ != "account"@ && "obs"@ != "reading"@ && "obs"@ != "ai"@ && "obs"@ != "system"@,
{
    lemma_first_words();
    reveal_strlit("obs");
    reveal_strlit("account");
    reveal_strlit("reading");
    reveal_strlit("ai");
    reveal_strlit("system");
    assert("obs"@.len() == 3 && "account"@.len() == 7 && "reading"@.len() == 7 && "ai"@.len() == 2
        && "system"@.len() == 6);
}

/// Behind `/obs` only the commands of OBS are offered, behind `/settings` only the parts of the
/// settings.
pub proof fn law_a_table_offers_its_own_commands(input: Seq<char>, include_ai: bool, i: int)
    requires
        0 <= i < suggestions(input, include_ai).len(),
    ensures
        text::has_prefix(input, "/obs "@) ==> obs_table().contains(
            suggestions(input, include_ai)[i],
        ),
        text::has_prefix(input, "/settings "@) ==> settings_table().contains(
            suggestions(input, include_ai)[i],
        ),
{
    law_suggestions_are_commands_that_the_text_finds(input, include_ai, i);
    reveal_strlit("/obs ");
    reveal_strlit("/settings ");
    if text::has_prefix(input, "/obs "@) && text::has_prefix(input, "/settings "@) {
        assert(input.subrange(0, 5)[1] == 'o');
        assert(input.subrange(0, 10)[1] == 's');
        assert(input[1] == 'o' && input[1] == 's');
    }
}

} // verus!
