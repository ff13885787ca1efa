//! The explanations under the panel's rows, and the layout of the panel.
use vstd::prelude::*;
use vstd::string::*;

use crate::accounts;
use crate::commands;
use crate::geometry;
use crate::geometry::Rect;
use crate::menu_text;
use crate::panel;
use crate::panel::{
    AssistantSettings, ChoiceTarget, Discovery, Facts, Field, Page, Panel, PresetFacts, Row,
    Switch,
};
use crate::panel_actions;
use crate::panel_edits;
use crate::panel_keys;
use crate::style::Tone;
use crate::text;
use crate::unicode;

verus! {

/// One line of the preview of a preset: what a setting is and what it would be.
pub open spec fn preview_line(name: Seq<char>, before: Seq<char>, after: Seq<char>) -> Seq<char> {
    name + "："@ + before + " → "@ + after
}

fn preview(name: &str, before: &str, after: &str) -> (r: String)
    ensures
        r@ == preview_line(name@, before@, after@),
{
    let mut line: String = text::add3(name, "：", before);
    line.append(" → ");
    line.append(after);
    line
}

/// A setting that presets set.
#[derive(Clone, Copy, Debug, PartialEq, Eq, Structural)]
pub enum PresetItem {
    Range,
    Search,
    Switch(Switch),
}

/// The settings that presets set, in the order in which they are shown.
pub open spec fn preset_items() -> Seq<PresetItem> {
    seq![
        PresetItem::Range,
        PresetItem::Switch(Switch::ThankGifts),
        PresetItem::Switch(Switch::ThankLikes),
        PresetItem::Switch(Switch::ThankFollows),
        PresetItem::Switch(Switch::ThankShares),
        PresetItem::Switch(Switch::MentionSender),
        PresetItem::Search,
        PresetItem::Switch(Switch::RepairBlocked),
        PresetItem::Switch(Switch::HostPriority),
        PresetItem::Switch(Switch::MutedSupport),
    ]
}

fn list_items() -> (r: Vec<PresetItem>)
    ensures
        r@ == preset_items(),
{
    let items: Vec<PresetItem> = vec![
        PresetItem::Range,
        PresetItem::Switch(Switch::ThankGifts),
        PresetItem::Switch(Switch::ThankLikes),
        PresetItem::Switch(Switch::ThankFollows),
        PresetItem::Switch(Switch::ThankShares),
        PresetItem::Switch(Switch::MentionSender),
        PresetItem::Search,
        PresetItem::Switch(Switch::RepairBlocked),
        PresetItem::Switch(Switch::HostPriority),
        PresetItem::Switch(Switch::MutedSupport),
    ];
    proof {
        assert(items@ =~= preset_items());
    }
    items
}

/// The preview line of a setting.
pub open spec fn item_line(item: PresetItem, preset: PresetFacts, facts: Facts) -> Seq<char> {
    let before = facts.settings;
    let after = panel_actions::with_preset(before, preset);
    match item {
        PresetItem::Range => preview_line(
            "默认范围"@,
            menu_text::activity_text(before.reply_activity, facts),
            menu_text::activity_text(after.reply_activity, facts),
        ),
        PresetItem::Search => preview_line(
            "联网搜索"@,
            menu_text::on_off_text(before.web_search),
            menu_text::on_off_text(after.web_search),
        ),
        PresetItem::Switch(switch) => preview_line(
            menu_text::switch_name(switch),
            menu_text::on_off_text(panel::switch_on(before.switches, switch)),
            menu_text::on_off_text(panel::switch_on(after.switches, switch)),
        ),
    }
}

fn item_preview(item: PresetItem, preset: &PresetFacts, facts: &Facts) -> (r: String)
    ensures
        r@ == item_line(item, *preset, *facts),
{
    let s: &AssistantSettings = &facts.settings;
    match item {
        PresetItem::Range => preview(
            "默认范围",
            menu_text::activity_label(s.reply_activity, facts).as_str(),
            menu_text::activity_label(preset.reply_activity, facts).as_str(),
        ),
        PresetItem::Search => preview(
            "联网搜索",
            menu_text::on_off(s.web_search),
            menu_text::on_off(preset.web_search),
        ),
        PresetItem::Switch(switch) => preview(
            menu_text::switch_label(switch),
            menu_text::on_off(s.switches.is_on(switch)),
            menu_text::on_off(panel_actions::take_preset(s.switches, preset).is_on(switch)),
        ),
    }
}

/// The preview lines of the first settings.
pub open spec fn preview_lines(preset: PresetFacts, facts: Facts, count: nat) -> Seq<Seq<char>> {
    Seq::new(count, |i: int| item_line(preset_items()[i], preset, facts))
}

/// The description of a preset, and what it would change.
pub open spec fn preset_text(preset: PresetFacts, facts: Facts) -> Seq<char> {
    preset.description@ + "\n只修改以下十项；不改账号、模型和发送许可。\n"@ + text::joined(
        preview_lines(preset, facts, preset_items().len()),
        "\n"@,
    )
}

fn preset_details(preset: &PresetFacts, facts: &Facts) -> (r: String)
    ensures
        r@ == preset_text(*preset, *facts),
{
    let items: Vec<PresetItem> = list_items();
    let mut lines: Vec<String> = text::no_lines();
    let mut i: usize = 0;
    proof {
        assert(preview_lines(*preset, *facts, 0) =~= Seq::empty());
    }
    while i < items.len()
        invariant
            i <= items@.len(),
            items@ == preset_items(),
            text::views(lines@) == preview_lines(*preset, *facts, i as nat),
        decreases items@.len() - i,
    {
        text::push_line(&mut lines, item_preview(items[i], preset, facts));
        i = i + 1;
        proof {
            assert(preview_lines(*preset, *facts, i as nat) =~= preview_lines(
                *preset,
                *facts,
                (i - 1) as nat,
            ).push(item_line(items@[i - 1], *preset, *facts)));
        }
    }
    text::add3(
        preset.description.as_str(),
        "\n只修改以下十项；不改账号、模型和发送许可。\n",
        text::join(&lines, "\n").as_str(),
    )
}

/// The place of the first discovery of a host.
pub open spec fn discovery_of(found: Seq<Discovery>, host: usize) -> Option<int>
    decreases found.len(),
{
    if found.len() == 0 {
        None
    } else if found[0].host == host {
        Some(0)
    } else {
        match discovery_of(found.skip(1), host) {
            Some(i) => Some(i + 1),
            None => None,
        }
    }
}

fn find_discovery(found: &Vec<Discovery>, host: usize) -> (r: Option<usize>)
    ensures
        match discovery_of(found@, host) {
            Some(i) => r matches Some(at) && at == i && i < found@.len(),
            None => r is None,
        },
{
    let mut i: usize = 0;
    proof {
        assert(found@.skip(0) =~= found@);
    }
    while i < found.len()
        invariant
            i <= found@.len(),
            match discovery_of(found@.skip(i as int), host) {
                Some(k) => discovery_of(found@, host) == Some(k + i),
                None => discovery_of(found@, host) is None,
            },
        decreases found@.len() - i,
    {
        proof {
            assert(found@.skip(i as int).skip(1) =~= found@.skip(i + 1));
        }
        if found[i].host == host {
            return Some(i);
        }
        i = i + 1;
    }
    None
}

pub open spec fn or_unfound(path: Option<String>) -> Seq<char> {
    match path {
        Some(path) => path@,
        None => "未发现"@,
    }
}

fn path_label(path: &Option<String>) -> (r: String)
    ensures
        r@ == or_unfound(*path),
{
    match path {
        Some(path) => path.clone(),
        None => "未发现".to_owned(),
    }
}

/// What is known of a host.
pub open spec fn host_details_text(host: usize, panel: Panel, facts: Facts) -> Seq<char> {
    let description = if host < facts.hosts@.len() {
        facts.hosts@[host as int].description@
    } else {
        ""@
    };
    let program = match discovery_of(panel.discovered@, host) {
        Some(i) => or_unfound(panel.discovered@[i].program),
        None => "未发现"@,
    };
    let native = match discovery_of(panel.discovered@, host) {
        Some(i) => or_unfound(panel.discovered@[i].native),
        None => "未发现"@,
    };
    description + "\nACP："@ + program + "\n原生 CLI："@ + native
}

fn host_details(host: usize, panel: &Panel, facts: &Facts) -> (r: String)
    ensures
        r@ == host_details_text(host, *panel, *facts),
{
    let description: &str = if host < facts.hosts.len() {
        facts.hosts[host].description.as_str()
    } else {
        ""
    };
    let (program, native): (String, String) = match find_discovery(&panel.discovered, host) {
        Some(i) => (
            path_label(&panel.discovered[i].program),
            path_label(&panel.discovered[i].native),
        ),
        None => ("未发现".to_owned(), "未发现".to_owned()),
    };
    let mut out: String = text::add3(description, "\nACP：", program.as_str());
    out.append("\n原生 CLI：");
    out.append(native.as_str());
    out
}

/// The rules for thanking that a row explains: each names what it thanks for and how long the
/// kind rests after a batch.
pub open spec fn thanks_text(switch: Switch) -> Option<Seq<char>> {
    match switch {
        Switch::ThankGifts => Some(
            "礼物与上舰由代码在个体/集体各3句文案中轮换：5秒收集；不超过5名不同观众时逐人原生@，更多时发集体文案；全局15秒，每批完成后同类冷却15秒。已开始批次不被后来事件改变，仍保留过期、审核与本场授权。"@,
        ),
        Switch::ThankFollows => Some(
            "关注由代码在个体/集体各3句文案中轮换：5秒收集；不超过5名不同观众时逐人原生@，更多时发集体文案；全局15秒，每批完成后同类冷却30秒。已开始批次不被后来事件改变，仍保留过期、审核与本场授权。"@,
        ),
        Switch::ThankLikes => Some(
            "点赞由代码在个体/集体各3句文案中轮换：5秒收集；不超过5名不同观众时逐人原生@，更多时发集体文案；全局15秒，每批完成后同类冷却60秒。已开始批次不被后来事件改变，仍保留过期、审核与本场授权。"@,
        ),
        Switch::ThankShares => Some(
            "分享由代码在个体/集体各3句文案中轮换：5秒收集；不超过5名不同观众时逐人原生@，更多时发集体文案；全局15秒，每批完成后同类冷却60秒。已开始批次不被后来事件改变，仍保留过期、审核与本场授权。"@,
        ),
        Switch::MentionSender => Some(
            "只控制普通问答是否原生@提问者；互动感谢按人数规则独立决定是否逐人@，不受此开关影响。"@,
        ),
        _ => None,
    }
}

fn thanks_details(switch: Switch) -> (r: Option<&'static str>)
    ensures
        match thanks_text(switch) {
            Some(text) => r matches Some(said) && said@ == text,
            None => r is None,
        },
{
    match switch {
        Switch::ThankGifts => Some(
            "礼物与上舰由代码在个体/集体各3句文案中轮换：5秒收集；不超过5名不同观众时逐人原生@，更多时发集体文案；全局15秒，每批完成后同类冷却15秒。已开始批次不被后来事件改变，仍保留过期、审核与本场授权。",
        ),
        Switch::ThankFollows => Some(
            "关注由代码在个体/集体各3句文案中轮换：5秒收集；不超过5名不同观众时逐人原生@，更多时发集体文案；全局15秒，每批完成后同类冷却30秒。已开始批次不被后来事件改变，仍保留过期、审核与本场授权。",
        ),
        Switch::ThankLikes => Some(
            "点赞由代码在个体/集体各3句文案中轮换：5秒收集；不超过5名不同观众时逐人原生@，更多时发集体文案；全局15秒，每批完成后同类冷却60秒。已开始批次不被后来事件改变，仍保留过期、审核与本场授权。",
        ),
        Switch::ThankShares => Some(
            "分享由代码在个体/集体各3句文案中轮换：5秒收集；不超过5名不同观众时逐人原生@，更多时发集体文案；全局15秒，每批完成后同类冷却60秒。已开始批次不被后来事件改变，仍保留过期、审核与本场授权。",
        ),
        Switch::MentionSender => Some(
            "只控制普通问答是否原生@提问者；互动感谢按人数规则独立决定是否逐人@，不受此开关影响。",
        ),
        _ => None,
    }
}

/// A row as one line: its name and its value.
pub open spec fn plain_details(row: Row, panel: Panel, facts: Facts) -> Seq<char> {
    menu_text::row_name(row, panel, facts) + "："@ + menu_text::row_value(row, panel, facts)
}

fn plain_row(row: Row, panel: &Panel, facts: &Facts) -> (r: String)
    ensures
        r@ == plain_details(row, *panel, *facts),
{
    let (name, value): (String, String) = menu_text::row_columns(row, panel, facts);
    text::add3(name.as_str(), "：", value.as_str())
}

/// The explanation of a row.
pub open spec fn row_details_text(row: Row, panel: Panel, facts: Facts) -> Seq<char> {
    match row {
        Row::ToggleThanks => "关注、礼物与上舰、点赞、分享各有3句个体与3句集体文案轮换。每批收集5秒：不超过5名不同观众逐人原生@，更多时集体感谢；全局至少15秒，每批完成后同类再冷却（关注30秒、礼物与上舰15秒、点赞与分享60秒）。已开始批次冻结，仍保留过期、审核与本场授权。"@,
        Row::Switch(switch) => if switch is UseProfile {
            facts.profile_summary@
        } else {
            match thanks_text(switch) {
                Some(text) => text,
                None => plain_details(row, panel, facts),
            }
        },
        Row::Edit(Field::External(field)) => commands::field_description(field),
        Row::Preset(i) => if i < facts.presets@.len() {
            preset_text(facts.presets@[i as int], facts)
        } else {
            plain_details(row, panel, facts)
        },
        Row::Permission => "当前发送账号："@ + facts.assistant_label@ + " · 房间 "@ + facts.room_id@
            + "。自动发送会公开发送，并按同房间同账号记住；逐条发送立即撤权。"@,
        Row::Edit(Field::Workspace) => "资料状态："@ + menu_text::workspace_text(
            facts.workspace_status,
        ) + "\n"@ + (match facts.workspace {
            Ok(path) => path@,
            Err(problem) => problem@,
        }) + "\n"@ + facts.workspace_note@,
        Row::Host(host) => host_details_text(host, panel, facts),
        Row::DefaultSource | Row::Edit(Field::Profile) | Row::Edit(Field::Prompt) =>
            facts.source_description@,
        Row::DynamicStrategy => "由 OBS 麦克风状态与两个开关决定；不接收或识别语音。"@,
        Row::RepairHistory => match facts.repair_result {
            Some(result) => "先备份派生历史副本，再从私有原件重建；原件不变。"@ + "\n上次结果："@
                + result@,
            None => "先备份派生历史副本，再从私有原件重建；原件不变。"@,
        },
        Row::Visible => "新建上下文并处理当前可见弹幕；可能消耗模型额度，不开启自动发送。"@,
        Row::Context => "丢弃旧上下文，从后续弹幕重建；不开启自动发送。"@,
        Row::Stop => "结束专用进程，清除续用意图和自动发送权；候选与人工草稿保留。"@,
        Row::Option(i) => match menu_text::option_at(i, facts) {
            Some(option) => "原生选项 "@ + option.name@ + "（"@ + option.id@ + "）。当前值："@
                + option.current_label@
                + "。未知或受宿主策略禁止的值保持只读；修改后等待原生 ACK。"@,
            None => "由 AI 工具原生报告的运行模式；修改后等待原生 ACK，未报告时保持继承。"@,
        },
        row => plain_details(row, panel, facts),
    }
}

fn option_details(i: usize, facts: &Facts) -> (r: String)
    ensures
        forall|panel: Panel| #[trigger] row_details_text(Row::Option(i), panel, *facts) == r@,
{
    if let Some(options) = &facts.options {
        if i < options.len() {
            let mut out: String = text::add3("原生选项 ", options[i].name.as_str(), "（");
            out.append(options[i].id.as_str());
            out.append("）。当前值：");
            out.append(options[i].current_label.as_str());
            out.append("。未知或受宿主策略禁止的值保持只读；修改后等待原生 ACK。");
            return out;
        }
    }
    "由 AI 工具原生报告的运行模式；修改后等待原生 ACK，未报告时保持继承。".to_owned()
}

fn workspace_details(facts: &Facts) -> (r: String)
    ensures
        forall|panel: Panel| #[trigger]
            row_details_text(Row::Edit(Field::Workspace), panel, *facts) == r@,
{
    let mut out: String = text::add3(
        "资料状态：",
        menu_text::workspace_status(facts.workspace_status),
        "\n",
    );
    match &facts.workspace {
        Ok(path) => out.append(path.as_str()),
        Err(problem) => out.append(problem.as_str()),
    }
    out.append("\n");
    out.append(facts.workspace_note.as_str());
    out
}

fn permission_details(facts: &Facts) -> (r: String)
    ensures
        forall|panel: Panel| #[trigger] row_details_text(Row::Permission, panel, *facts) == r@,
{
    let mut out: String = text::add3(
        "当前发送账号：",
        facts.assistant_label.as_str(),
        " · 房间 ",
    );
    out.append(facts.room_id.as_str());
    out.append("。自动发送会公开发送，并按同房间同账号记住；逐条发送立即撤权。");
    out
}

/// The explanation of a row.
pub fn row_details(row: Row, panel: &Panel, facts: &Facts) -> (r: String)
    ensures
        r@ == row_details_text(row, *panel, *facts),
{
    match row {
        Row::ToggleThanks => "关注、礼物与上舰、点赞、分享各有3句个体与3句集体文案轮换。每批收集5秒：不超过5名不同观众逐人原生@，更多时集体感谢；全局至少15秒，每批完成后同类再冷却（关注30秒、礼物与上舰15秒、点赞与分享60秒）。已开始批次冻结，仍保留过期、审核与本场授权。".to_owned(),
        Row::Switch(switch) => if matches!(switch, Switch::UseProfile) {
            facts.profile_summary.clone()
        } else {
            match thanks_details(switch) {
                Some(text) => text.to_owned(),
                None => plain_row(row, panel, facts),
            }
        },
        Row::Edit(Field::External(field)) => field.description().to_owned(),
        Row::Preset(i) => if i < facts.presets.len() {
            preset_details(&facts.presets[i], facts)
        } else {
            plain_row(row, panel, facts)
        },
        Row::Permission => permission_details(facts),
        Row::Edit(Field::Workspace) => workspace_details(facts),
        Row::Host(host) => host_details(host, panel, facts),
        Row::DefaultSource | Row::Edit(Field::Profile) | Row::Edit(Field::Prompt) => {
            facts.source_description.clone()
        },
        Row::DynamicStrategy => "由 OBS 麦克风状态与两个开关决定；不接收或识别语音。".to_owned(),
        Row::RepairHistory => match &facts.repair_result {
            Some(result) => text::add3(
                "先备份派生历史副本，再从私有原件重建；原件不变。",
                "\n上次结果：",
                result.as_str(),
            ),
            None => "先备份派生历史副本，再从私有原件重建；原件不变。".to_owned(),
        },
        Row::Visible => "新建上下文并处理当前可见弹幕；可能消耗模型额度，不开启自动发送。".to_owned(),
        Row::Context => "丢弃旧上下文，从后续弹幕重建；不开启自动发送。".to_owned(),
        Row::Stop => "结束专用进程，清除续用意图和自动发送权；候选与人工草稿保留。".to_owned(),
        Row::Option(i) => option_details(i, facts),
        row => plain_row(row, panel, facts),
    }
}

/// What the diagnostics page tells beside what the panel knows.
#[derive(Debug)]
pub struct Diagnostics {
    pub connection: String,
    pub config_path: String,
    pub journal_path: String,
    pub marker: String,
    pub state: String,
    pub note: String,
    pub last_round: String,
    pub scene_id: String,
    pub native_id: String,
    pub room: Option<DiagnosticRoom>,
    pub routing: Routing,
}

#[derive(Debug)]
pub struct DiagnosticRoom {
    pub room_id: String,
    pub broadcaster_id: String,
    pub title: String,
}

/// How messages were routed.
#[derive(Clone, Copy, Debug)]
pub struct Routing {
    pub pending_models: u64,
    pub pending_templates: u64,
    pub model_dispatched: u64,
    pub template_dispatched: u64,
    pub merged: u64,
    pub deduplicated: u64,
    pub expired: u64,
    pub overflow: u64,
    pub skipped: u64,
    pub likes: u64,
    pub shares: u64,
}

pub open spec fn room_line(room: Option<DiagnosticRoom>) -> Seq<char> {
    match room {
        Some(room) => "房间 "@ + room.room_id@ + " · 主播 "@ + room.broadcaster_id@ + " · 标题 "@
            + menu_text::filled(room.title@, "未获取"@),
        None => "房间资料未建立"@,
    }
}

fn room_text(room: &Option<DiagnosticRoom>) -> (r: String)
    ensures
        r@ == room_line(*room),
{
    match room {
        Some(room) => {
            let mut out: String = text::add3("房间 ", room.room_id.as_str(), " · 主播 ");
            out.append(room.broadcaster_id.as_str());
            out.append(" · 标题 ");
            out.append(menu_text::fill(room.title.as_str(), "未获取").as_str());
            out
        },
        None => "房间资料未建立".to_owned(),
    }
}

pub open spec fn number(n: u64) -> Seq<char> {
    text::decimal_digits(n as nat)
}

/// The lines of the diagnostics page.
pub open spec fn diagnostic_lines(d: Diagnostics, facts: Facts) -> Seq<Seq<char>> {
    let n = d.routing;
    seq![
        "B站连接："@ + d.connection@,
        "主账号："@ + accounts::identity_text(facts.account_status),
        "OBS："@ + menu_text::obs_text(facts, "场景 "@, " · 推流 "@, " · 麦克风 "@),
        "配置："@ + d.config_path@,
        "会话日志："@ + d.journal_path@,
        ""@,
        "AI状态："@ + d.marker@ + " "@ + d.state@,
        "当前原因："@ + d.note@,
        "上轮结果："@ + d.last_round@,
        "场次上下文："@ + d.scene_id@,
        "原生会话："@ + d.native_id@,
        room_line(d.room),
        "工作区："@ + (match facts.workspace {
            Ok(path) => path@,
            Err(problem) => problem@,
        }),
        "历史重建："@ + (match facts.repair_result {
            Some(result) => result@,
            None => "尚未运行"@,
        }),
        ""@,
        "消息分流：模型待处理 "@ + number(n.pending_models) + " / 128 · 致谢组 "@ + number(
            n.pending_templates,
        ),
        "已交模型 "@ + number(n.model_dispatched) + " · 代码致谢 "@ + number(
            n.template_dispatched,
        ) + " · 合并 "@ + number(n.merged),
        "去重 "@ + number(n.deduplicated) + " · 过期 "@ + number(n.expired) + " · 容量淘汰 "@
            + number(n.overflow) + " · 跳过 "@ + number(n.skipped),
        "点赞 "@ + number(n.likes) + " · 分享 "@ + number(n.shares) + "；分流明细见本场日志"@,
    ]
}

fn routing_line(a: &str, first: u64, b: &str, second: u64) -> (r: String)
    ensures
        r@ == a@ + number(first) + b@ + number(second),
{
    let mut out: String = text::add3(a, text::decimal(first).as_str(), b);
    out.append(text::decimal(second).as_str());
    out
}

/// The text of the diagnostics page.
pub fn diagnostics_details(d: &Diagnostics, facts: &Facts) -> (r: String)
    ensures
        r@ == text::joined(diagnostic_lines(*d, *facts), "\n"@),
{
    let n: Routing = d.routing;
    let mut lines: Vec<String> = Vec::new();
    lines.push(text::add2("B站连接：", d.connection.as_str()));
    lines.push(
        text::add2("主账号：", accounts::account_label(&facts.account_status).as_str()),
    );
    lines.push(
        text::add2(
            "OBS：",
            menu_text::obs_summary(facts, "场景 ", " · 推流 ", " · 麦克风 ").as_str(),
        ),
    );
    lines.push(text::add2("配置：", d.config_path.as_str()));
    lines.push(text::add2("会话日志：", d.journal_path.as_str()));
    lines.push("".to_owned());
    let mut state: String = text::add3("AI状态：", d.marker.as_str(), " ");
    state.append(d.state.as_str());
    lines.push(state);
    lines.push(text::add2("当前原因：", d.note.as_str()));
    lines.push(text::add2("上轮结果：", d.last_round.as_str()));
    lines.push(text::add2("场次上下文：", d.scene_id.as_str()));
    lines.push(text::add2("原生会话：", d.native_id.as_str()));
    lines.push(room_text(&d.room));
    lines.push(
        match &facts.workspace {
            Ok(path) => text::add2("工作区：", path.as_str()),
            Err(problem) => text::add2("工作区：", problem.as_str()),
        },
    );
    lines.push(
        match &facts.repair_result {
            Some(result) => text::add2("历史重建：", result.as_str()),
            None => text::add2("历史重建：", "尚未运行"),
        },
    );
    lines.push("".to_owned());
    lines.push(
        routing_line(
            "消息分流：模型待处理 ",
            n.pending_models,
            " / 128 · 致谢组 ",
            n.pending_templates,
        ),
    );
    let mut sent: String = routing_line(
        "已交模型 ",
        n.model_dispatched,
        " · 代码致谢 ",
        n.template_dispatched,
    );
    sent.append(" · 合并 ");
    sent.append(text::decimal(n.merged).as_str());
    lines.push(sent);
    let mut dropped: String = routing_line("去重 ", n.deduplicated, " · 过期 ", n.expired);
    dropped.append(" · 容量淘汰 ");
    dropped.append(text::decimal(n.overflow).as_str());
    dropped.append(" · 跳过 ");
    dropped.append(text::decimal(n.skipped).as_str());
    lines.push(dropped);
    let mut counted: String = routing_line("点赞 ", n.likes, " · 分享 ", n.shares);
    counted.append("；分流明细见本场日志");
    lines.push(counted);
    proof {
        assert(text::views(lines@) =~= diagnostic_lines(*d, *facts));
    }
    text::join(&lines, "\n")
}

/// The explanation of the selected row.
pub open spec fn selected_text(panel: Panel, facts: Facts, diagnostics: Diagnostics) -> Seq<char> {
    let rows = panel::page_rows(panel, facts);
    if panel.row < rows.len() {
        row_details_text(rows[panel.row as int], panel, facts)
    } else if panel.page == Page::Diagnostics {
        text::joined(diagnostic_lines(diagnostics, facts), "\n"@)
    } else {
        "暂无可操作项"@
    }
}

/// The explanation of the selected row.
pub fn selected_details(panel: &Panel, facts: &Facts, diagnostics: &Diagnostics) -> (r: String)
    ensures
        r@ == selected_text(*panel, *facts, *diagnostics),
{
    let rows: Vec<Row> = panel.rows(facts);
    if panel.row < rows.len() {
        row_details(rows[panel.row], panel, facts)
    } else if matches!(panel.page, Page::Diagnostics) {
        diagnostics_details(diagnostics, facts)
    } else {
        "暂无可操作项".to_owned()
    }
}

/// What the program is built from.
#[derive(Debug)]
pub struct About {
    pub version: String,
    pub repository: String,
    pub license: String,
}

pub open spec fn about_text(about: About) -> Seq<char> {
    "拾穗弹幕台 DANMU\n面向知识型主播的弹幕与提问工作台\n\n版本："@ + about.version@
        + "\n官网：https://danmu.elazer.wang\n创始人：Elazer\n联系：apps@elazer.wang\n源码："@
        + about.repository@ + "\n许可："@ + about.license@
}

fn about_details(about: &About) -> (r: String)
    ensures
        r@ == about_text(*about),
{
    let mut out: String = text::add3(
        "拾穗弹幕台 DANMU\n面向知识型主播的弹幕与提问工作台\n\n版本：",
        about.version.as_str(),
        "\n官网：https://danmu.elazer.wang\n创始人：Elazer\n联系：apps@elazer.wang\n源码：",
    );
    out.append(about.repository.as_str());
    out.append("\n许可：");
    out.append(about.license.as_str());
    out
}

/// The open list of choices is the one on how to send.
pub open spec fn chooses_sending(panel: Panel) -> bool {
    match panel.choices {
        Some(choices) => choices.target is Sending,
        None => false,
    }
}

/// The full explanation: the problem first, then what is edited, chosen or selected.
pub open spec fn details_text(
    panel: Panel,
    facts: Facts,
    diagnostics: Diagnostics,
    about: About,
) -> Seq<char> {
    match panel.error {
        Some(problem) => problem@ + "\n\n"@ + selected_text(panel, facts, diagnostics),
        None => match panel.editor {
            Some((Field::External(field), line)) => commands::field_label(field) + "："@
                + line.text() + "\n"@ + commands::field_description(field)
                + "\n保存失败时内容保留。"@,
            Some((field, line)) => panel::field_title(field) + "："@ + line.text() + "\n"@ + (if field
                == Field::ArchiveSearch {
                "输入关键词后搜索；取消不搜索。"@
            } else {
                "保存失败时内容保留；取消不写入。"@
            }),
            None => if panel.choices is Some {
                if chooses_sending(panel) {
                    "发送账号："@ + facts.assistant_label@ + " · 房间 "@ + facts.room_id@
                        + "。选择自动发送会公开发送并记住本房间与账号；选择逐条立即撤权。"@
                } else {
                    "选中后提交给 AI 工具；收到原生 ACK 前显示当前值。未知选项保持只读。"@
                }
            } else if panel.page == Page::About {
                about_text(about)
            } else if panel.page == Page::Diagnostics {
                text::joined(diagnostic_lines(diagnostics, facts), "\n"@)
            } else {
                selected_text(panel, facts, diagnostics)
            },
        },
    }
}

impl Panel {
    fn sending_list(&self) -> (r: bool)
        ensures
            r == chooses_sending(*self),
    {
        match &self.choices {
            Some(choices) => matches!(choices.target, ChoiceTarget::Sending),
            None => false,
        }
    }
}

/// The full explanation: the problem first, then what is edited, chosen or selected.
pub fn details(
    panel: &Panel,
    facts: &Facts,
    diagnostics: &Diagnostics,
    about: &About,
) -> (r: String)
    ensures
        r@ == details_text(*panel, *facts, *diagnostics, *about),
{
    if let Some(problem) = &panel.error {
        return text::add3(
            problem.as_str(),
            "\n\n",
            selected_details(panel, facts, diagnostics).as_str(),
        );
    }
    match &panel.editor {
        Some((Field::External(field), line)) => {
            let mut out: String = text::add3(field.label(), "：", line.as_str());
            out.append("\n");
            out.append(field.description());
            out.append("\n保存失败时内容保留。");
            return out;
        },
        Some((field, line)) => {
            let mut out: String = text::add3(field.label(), "：", line.as_str());
            out.append("\n");
            if matches!(*field, Field::ArchiveSearch) {
                out.append("输入关键词后搜索；取消不搜索。");
            } else {
                out.append("保存失败时内容保留；取消不写入。");
            }
            return out;
        },
        None => {},
    }
    if panel.choices.is_some() {
        if panel.sending_list() {
            let mut out: String = text::add3(
                "发送账号：",
                facts.assistant_label.as_str(),
                " · 房间 ",
            );
            out.append(facts.room_id.as_str());
            out.append("。选择自动发送会公开发送并记住本房间与账号；选择逐条立即撤权。");
            return out;
        }
        return "选中后提交给 AI 工具；收到原生 ACK 前显示当前值。未知选项保持只读。".to_owned();
    }
    if matches!(panel.page, Page::About) {
        about_details(about)
    } else if matches!(panel.page, Page::Diagnostics) {
        diagnostics_details(diagnostics, facts)
    } else {
        selected_details(panel, facts, diagnostics)
    }
}

/// The text under the menu: everything where it is unfolded, else only what must be seen.
pub open spec fn note_text(
    panel: Panel,
    facts: Facts,
    diagnostics: Diagnostics,
    about: About,
) -> Seq<char> {
    let rows = panel::page_rows(panel, facts);
    if panel.expanded {
        details_text(panel, facts, diagnostics, about)
    } else if panel.error is Some {
        panel.error->0@
    } else if chooses_sending(panel) || panel.page == Page::Home {
        "公开发送 · 同房间同账号记住"@
    } else if panel.page == Page::Models {
        menu_text::configuration_text(facts)
    } else if panel.row < rows.len() && menu_text::is_danger(rows[panel.row as int], facts) {
        selected_text(panel, facts, diagnostics)
    } else {
        ""@
    }
}

/// The text under the menu.
pub fn panel_note(
    panel: &Panel,
    facts: &Facts,
    diagnostics: &Diagnostics,
    about: &About,
) -> (r: String)
    ensures
        r@ == note_text(*panel, *facts, *diagnostics, *about),
{
    if panel.expanded {
        return details(panel, facts, diagnostics, about);
    }
    if let Some(problem) = &panel.error {
        return problem.clone();
    }
    if panel.sending_list() || matches!(panel.page, Page::Home) {
        return "公开发送 · 同房间同账号记住".to_owned();
    }
    if matches!(panel.page, Page::Models) {
        return menu_text::configuration_status(facts).to_owned();
    }
    let rows: Vec<Row> = panel.rows(facts);
    if panel.row < rows.len() && menu_text::row_danger(rows[panel.row], facts) {
        return selected_details(panel, facts, diagnostics);
    }
    "".to_owned()
}

/// The keys that the last line names.
pub open spec fn footer_text(panel: Panel) -> Seq<char> {
    if panel.pending_save is Some {
        "保存中 · Esc返回，操作仍继续"@
    } else if panel_keys::edits_topic(panel) {
        "Esc取消 · Enter保存 · F2直播标题"@
    } else if panel.editor is Some {
        "Esc取消 · Enter保存"@
    } else if panel.choices is Some {
        "Esc返回 · ↑↓ Enter确认 · ?说明"@
    } else if panel::in_settings(panel.page) {
        "Esc返回 · ↑↓ Enter · Tab分类 · ?说明"@
    } else {
        "Esc返回 · ↑↓ Enter · ?说明"@
    }
}

/// The keys that the last line names.
pub fn footer(panel: &Panel) -> (r: &'static str)
    ensures
        r@ == footer_text(*panel),
{
    let topic: bool = match &panel.editor {
        Some((field, _)) => matches!(*field, Field::Topic),
        None => false,
    };
    if panel.pending_save.is_some() {
        "保存中 · Esc返回，操作仍继续"
    } else if topic {
        "Esc取消 · Enter保存 · F2直播标题"
    } else if panel.editor.is_some() {
        "Esc取消 · Enter保存"
    } else if panel.choices.is_some() {
        "Esc返回 · ↑↓ Enter确认 · ?说明"
    } else if panel::is_settings_page(panel.page) {
        "Esc返回 · ↑↓ Enter · Tab分类 · ?说明"
    } else {
        "Esc返回 · ↑↓ Enter · ?说明"
    }
}

/// The characters before the first full-width semicolon.
pub open spec fn first_clause(state: Seq<char>) -> Seq<char>
    decreases state.len(),
{
    if state.len() == 0 || state[0] == '；' {
        Seq::empty()
    } else {
        seq![state[0]] + first_clause(state.skip(1))
    }
}

fn clause(state: &str) -> (r: String)
    ensures
        r@ == first_clause(state@),
{
    let chars: Vec<char> = text::chars_of(state);
    let mut out: String = String::new();
    let mut i: usize = 0;
    proof {
        assert(state@.skip(0) =~= state@);
        assert(out@ + first_clause(state@) =~= first_clause(state@));
    }
    while i < chars.len()
        invariant
            i <= chars@.len(),
            chars@ == state@,
            first_clause(state@) == out@ + first_clause(state@.skip(i as int)),
        decreases chars@.len() - i,
    {
        let ghost rest = state@.skip(i as int);
        proof {
            assert(rest[0] == chars@[i as int]);
            assert(rest.skip(1) =~= state@.skip(i + 1));
        }
        if chars[i] == '；' {
            proof {
                assert(out@ + Seq::<char>::empty() =~= out@);
            }
            return out;
        }
        proof {
            assert(out@ + (seq![rest[0]] + first_clause(rest.skip(1))) =~= out@.push(rest[0])
                + first_clause(rest.skip(1)));
        }
        out.push(chars[i]);
        i = i + 1;
    }
    proof {
        assert(state@.skip(i as int) =~= Seq::<char>::empty());
        assert(out@ + Seq::<char>::empty() =~= out@);
    }
    out
}

/// The first line of a page.
pub open spec fn header_text(panel: Panel, facts: Facts, state: Seq<char>) -> Seq<char> {
    if panel.page == Page::Home {
        first_clause(state) + " · "@ + facts.assistant_label@ + " · 房间 "@ + facts.room_id@ + " · "@
            + menu_text::policy_text(facts)
    } else if panel.page == Page::Models {
        menu_text::configuration_text(facts)
    } else if panel.within_settings() {
        "设置按需保存；当前操作立即执行"@
    } else {
        "方向键选择，Enter 执行"@
    }
}

/// The first line of a page.
pub fn header(panel: &Panel, facts: &Facts, state: &str) -> (r: String)
    ensures
        r@ == header_text(*panel, *facts, state@),
{
    if matches!(panel.page, Page::Home) {
        let mut out: String = text::add3(
            clause(state).as_str(),
            " · ",
            facts.assistant_label.as_str(),
        );
        out.append(" · 房间 ");
        out.append(facts.room_id.as_str());
        out.append(" · ");
        out.append(menu_text::policy_label(facts));
        out
    } else if matches!(panel.page, Page::Models) {
        menu_text::configuration_status(facts).to_owned()
    } else if panel.is_settings() {
        "设置按需保存；当前操作立即执行".to_owned()
    } else {
        "方向键选择，Enter 执行".to_owned()
    }
}

/// The widest name of the rows, but never so wide that the values vanish.
pub open spec fn label_width(
    rows: Seq<Row>,
    panel: Panel,
    facts: Facts,
    width: int,
) -> int {
    unicode::least(widest_name(rows, panel, facts) as int, unicode::minus(width, 6) as int)
}

pub open spec fn widest_name(rows: Seq<Row>, panel: Panel, facts: Facts) -> nat
    decreases rows.len(),
{
    if rows.len() == 0 {
        0
    } else {
        let others = widest_name(rows.drop_last(), panel, facts);
        let last = unicode::display_width(menu_text::row_name(rows.last(), panel, facts));
        if others >= last {
            others
        } else {
            last
        }
    }
}

/// The tone of a row: a warning, a row that cannot be used, or any other.
pub open spec fn row_tone(row: Row, facts: Facts) -> Tone {
    if menu_text::is_danger(row, facts) {
        Tone::Warning
    } else if panel::readonly_text(row, facts) is Some {
        Tone::Time
    } else {
        Tone::Content
    }
}

/// A line of the menu.
#[derive(Debug)]
pub struct MenuLine {
    pub text: String,
    pub tone: Tone,
}

/// The lines of the menu: the choices where a list is open, else the rows in two columns.
pub open spec fn menu_line_text(
    panel: Panel,
    facts: Facts,
    width: int,
    i: int,
) -> Seq<char> {
    match panel.choices {
        Some(choices) => {
            let current = if choices.target is Sending {
                i == if facts.settings.automatic {
                    1int
                } else {
                    0
                }
            } else {
                panel_edits::is_current(choices.target, choices.values@[i].value@, facts)
            };
            if current {
                "[当前] "@ + choices.values@[i].name@
            } else {
                choices.values@[i].name@
            }
        },
        None => {
            let rows = panel::page_rows(panel, facts);
            let inside = unicode::minus(width, 2);
            unicode::column_text(
                menu_text::row_name(rows[i], panel, facts),
                menu_text::row_value(rows[i], panel, facts),
                inside,
                label_width(rows, panel, facts, inside as int) as nat,
            )
        },
    }
}

pub open spec fn menu_count(panel: Panel, facts: Facts) -> nat {
    match panel.choices {
        Some(choices) => choices.values@.len(),
        None => panel::page_rows(panel, facts).len(),
    }
}

pub open spec fn menu_tone(panel: Panel, facts: Facts, i: int) -> Tone {
    match panel.choices {
        Some(_) => Tone::Content,
        None => row_tone(panel::page_rows(panel, facts)[i], facts),
    }
}

fn measure_names(rows: &Vec<Row>, panel: &Panel, facts: &Facts) -> (r: usize)
    ensures
        r == widest_name(rows@, *panel, *facts),
{
    let mut widest: usize = 0;
    let mut i: usize = 0;
    proof {
        assert(rows@.take(0) =~= Seq::empty());
    }
    while i < rows.len()
        invariant
            i <= rows@.len(),
            widest == widest_name(rows@.take(i as int), *panel, *facts),
        decreases rows@.len() - i,
    {
        let (name, _): (String, String) = menu_text::row_columns(rows[i], panel, facts);
        let width: usize = unicode::width_of(name.as_str());
        proof {
            assert(rows@.take(i + 1).drop_last() =~= rows@.take(i as int));
        }
        if width > widest {
            widest = width;
        }
        i = i + 1;
    }
    proof {
        assert(rows@.take(i as int) =~= rows@);
    }
    widest
}

/// The lines of the menu in a given width.
pub fn menu_lines(panel: &Panel, facts: &Facts, width: u16) -> (r: Vec<MenuLine>)
    ensures
        r@.len() == menu_count(*panel, *facts),
        forall|i: int|
            0 <= i < r@.len() ==> (#[trigger] r@[i]).text@ == menu_line_text(
                *panel,
                *facts,
                width as int,
                i,
            ) && r@[i].tone == menu_tone(*panel, *facts, i),
{
    let mut out: Vec<MenuLine> = Vec::new();
    let mut i: usize = 0;
    if let Some(choices) = &panel.choices {
        while i < choices.values.len()
            invariant
                i <= choices.values@.len(),
                panel.choices == Some(*choices),
                out@.len() == i,
                forall|k: int|
                    0 <= k < i ==> (#[trigger] out@[k]).text@ == menu_line_text(
                        *panel,
                        *facts,
                        width as int,
                        k,
                    ) && out@[k].tone == menu_tone(*panel, *facts, k),
            decreases choices.values@.len() - i,
        {
            let current: bool = if matches!(choices.target, ChoiceTarget::Sending) {
                i == if facts.settings.automatic {
                    1usize
                } else {
                    0usize
                }
            } else {
                panel_edits::choice_is_current(
                    &choices.target,
                    &choices.values[i].value,
                    facts,
                )
            };
            let text: String = if current {
                text::add2("[当前] ", choices.values[i].name.as_str())
            } else {
                choices.values[i].name.clone()
            };
            out.push(MenuLine { text, tone: Tone::Content });
            i = i + 1;
        }
        return out;
    }
    let rows: Vec<Row> = panel.rows(facts);
    let inside: usize = (width as usize).saturating_sub(2);
    let widest: usize = measure_names(&rows, panel, facts);
    let limit: usize = inside.saturating_sub(6);
    let label: usize = if widest < limit {
        widest
    } else {
        limit
    };
    proof {
        assert(label == label_width(rows@, *panel, *facts, inside as int));
    }
    while i < rows.len()
        invariant
            i <= rows@.len(),
            panel.choices is None,
            rows@ == panel::page_rows(*panel, *facts),
            inside == unicode::minus(width as int, 2),
            label == label_width(rows@, *panel, *facts, inside as int),
            label <= inside,
            out@.len() == i,
            forall|k: int|
                0 <= k < i ==> (#[trigger] out@[k]).text@ == menu_line_text(
                    *panel,
                    *facts,
                    width as int,
                    k,
                ) && out@[k].tone == menu_tone(*panel, *facts, k),
        decreases rows@.len() - i,
    {
        let row: Row = rows[i];
        let (name, value): (String, String) = menu_text::row_columns(row, panel, facts);
        let text: String = unicode::column_line(name.as_str(), value.as_str(), inside, label);
        let tone: Tone = if menu_text::row_danger(row, facts) {
            Tone::Warning
        } else if panel::readonly_reason(row, facts).is_some() {
            Tone::Time
        } else {
            Tone::Content
        };
        out.push(MenuLine { text, tone });
        i = i + 1;
    }
    out
}

/// A rectangle of at most the given size in the middle of the screen.
pub open spec fn middle(screen: Rect, width: int, height: int) -> Rect {
    let w = unicode::least(screen.width as int, width);
    let h = unicode::least(screen.height as int, height);
    Rect {
        x: ((screen.width - w) / 2) as u16,
        y: ((screen.height - h) / 2) as u16,
        width: w as u16,
        height: h as u16,
    }
}

fn place_middle(screen: Rect, width: u16, height: u16) -> (r: Rect)
    ensures
        r == middle(screen, width as int, height as int),
{
    let w: u16 = if screen.width < width {
        screen.width
    } else {
        width
    };
    let h: u16 = if screen.height < height {
        screen.height
    } else {
        height
    };
    Rect {
        x: (screen.width - w) / 2,
        y: (screen.height - h) / 2,
        width: w,
        height: h,
    }
}

/// Where the panel stands on the screen.
pub open spec fn panel_place(page: Page, screen: Rect) -> Rect {
    if page == Page::Candidates {
        middle(screen, 92, 28)
    } else if page == Page::Home {
        middle(screen, 104, 18)
    } else {
        middle(screen, 104, 30)
    }
}

/// Where the panel stands on the screen.
pub fn panel_area(page: Page, screen: Rect) -> (r: Rect)
    ensures
        r == panel_place(page, screen),
{
    match page {
        Page::Candidates => place_middle(screen, 92, 28),
        Page::Home => place_middle(screen, 104, 18),
        _ => place_middle(screen, 104, 30),
    }
}

/// The panel never reaches beyond the screen.
pub proof fn law_the_panel_fits_the_screen(page: Page, screen: Rect)
    ensures
        panel_place(page, screen).x + panel_place(page, screen).width <= screen.width,
        panel_place(page, screen).y + panel_place(page, screen).height <= screen.height,
{
}

/// The heights of the panel's parts inside its border.
#[derive(Clone, Copy, Debug, PartialEq, Eq, Structural)]
pub struct PanelParts {
    pub navigation: bool,
    pub columns: u16,
    pub header: u16,
    pub detail: u16,
}

pub open spec fn least_u16(a: int, b: int) -> u16 {
    if a < b {
        a as u16
    } else {
        b as u16
    }
}

pub open spec fn panel_layout(panel: Panel, inner: Rect) -> PanelParts {
    let wanted: int = if panel.editor is Some {
        5
    } else if panel.expanded {
        unicode::minus(inner.height as int, 8) as int
    } else {
        3
    };
    let navigation = panel::in_settings(panel.page) && panel.editor is None && panel.choices is None;
    let cells: int = if inner.width == u16::MAX {
        u16::MAX as int
    } else {
        inner.width + 1
    };
    let columns: int = if cells / 7 == 0 {
        1
    } else {
        cells / 7
    };
    PanelParts {
        navigation,
        columns: columns as u16,
        header: if navigation {
            ((5 + columns - 1) / columns) as u16
        } else {
            1
        },
        detail: least_u16(wanted, unicode::minus(inner.height as int, 7) as int),
    }
}

/// The heights of the panel's parts inside its border.
pub fn panel_parts(panel: &Panel, inner: Rect) -> (r: PanelParts)
    ensures
        r == panel_layout(*panel, inner),
{
    let wanted: u16 = if panel.editor.is_some() {
        5
    } else if panel.expanded {
        inner.height.saturating_sub(8)
    } else {
        3
    };
    let navigation: bool = panel::is_settings_page(panel.page) && panel.editor.is_none()
        && panel.choices.is_none();
    let cells: u16 = inner.width.saturating_add(1) / 7;
    let columns: u16 = if cells == 0 {
        1
    } else {
        cells
    };
    let header: u16 = if navigation {
        ((5 + columns as u32 - 1) / (columns as u32)) as u16
    } else {
        1
    };
    proof {
        let c = columns as int;
        assert(0 <= (5 + c - 1) / c <= 5) by (nonlinear_arith)
            requires
                c >= 1,
        ;
    }
    PanelParts {
        navigation,
        columns,
        header,
        detail: geometry::min_u16(wanted, inner.height.saturating_sub(7)),
    }
}

/// The names that the navigation shows.
pub open spec fn tab_text(page: Page) -> Seq<char> {
    match page {
        Page::Reading => "外观"@,
        Page::Account => "B站"@,
        Page::Obs => "OBS"@,
        Page::AiSettings => "AI"@,
        _ => "系统"@,
    }
}

pub fn tab_label(page: Page) -> (r: &'static str)
    ensures
        r@ == tab_text(page),
{
    match page {
        Page::Reading => "外观",
        Page::Account => "B站",
        Page::Obs => "OBS",
        Page::AiSettings => "AI",
        _ => "系统",
    }
}

/// The place of a tab, where it fits the navigation.
pub open spec fn tab_fit(index: u16, columns: u16, area: Rect) -> Option<(u16, u16)> {
    let column = index % columns;
    let row = index / columns;
    if row >= area.height || column * 7 + 6 > area.width {
        None
    } else {
        Some(((column * 7) as u16, row))
    }
}

/// The place of a tab, where it fits the navigation.
pub fn tab_place(index: u16, columns: u16, area: Rect) -> (r: Option<(u16, u16)>)
    requires
        columns > 0,
    ensures
        r == tab_fit(index, columns, area),
{
    let column: u16 = index % columns;
    let row: u16 = index / columns;
    if row >= area.height || column as u32 * 7 + 6 > area.width as u32 {
        None
    } else {
        Some((column * 7, row))
    }
}

/// The scroll that a text of some lines allows.
pub open spec fn scroll_limit(scroll: u16, lines: usize, height: u16) -> u16 {
    let most = unicode::minus(lines as int, height as int);
    if scroll < most {
        scroll
    } else {
        most as u16
    }
}

/// The scroll that a text of some lines allows.
pub fn hold_scroll(scroll: u16, lines: usize, height: u16) -> (r: u16)
    ensures
        r == scroll_limit(scroll, lines, height),
{
    let most: usize = lines.saturating_sub(height as usize);
    if (scroll as usize) < most {
        scroll
    } else {
        most as u16
    }
}

} // verus!
