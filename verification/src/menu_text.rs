//! The texts of the panel's rows.
use vstd::prelude::*;
use vstd::string::*;

use crate::accounts;
use crate::commands;
use crate::commands::{CommandSpec, ExternalField};
use crate::panel;
use crate::panel::{
    Action, AssistantSettings, Facts, Field, Group, MenuCommand, Page, Panel, PersonaKind,
    ReplyActivity, Row, Source, Switch, WorkspaceStatus,
};
use crate::panel_actions;
use crate::text;

verus! {

pub open spec fn on_off_text(enabled: bool) -> Seq<char> {
    if enabled {
        "开启"@
    } else {
        "关闭"@
    }
}

pub fn on_off(enabled: bool) -> (r: &'static str)
    ensures
        r@ == on_off_text(enabled),
{
    if enabled {
        "开启"
    } else {
        "关闭"
    }
}

/// A text, or another where there is none.
pub fn self_or(value: Option<String>, fallback: &str) -> (r: String)
    ensures
        r@ == match value {
            Some(value) => value@,
            None => fallback@,
        },
{
    match value {
        Some(value) => value,
        None => fallback.to_owned(),
    }
}

pub open spec fn run_text(facts: Facts) -> Seq<char> {
    if facts.running || facts.resume_pending {
        "暂停 AI"@
    } else if facts.has_context {
        "继续 AI"@
    } else {
        "启动 AI"@
    }
}

pub fn run_label(facts: &Facts) -> (r: &'static str)
    ensures
        r@ == run_text(*facts),
{
    if facts.running || facts.resume_pending {
        "暂停 AI"
    } else if facts.has_context {
        "继续 AI"
    } else {
        "启动 AI"
    }
}

pub open spec fn policy_text(facts: Facts) -> Seq<char> {
    if !facts.settings.automatic {
        "逐条确认后发送"@
    } else if facts.sending_enabled {
        "自动发送 · 本场已许可"@
    } else {
        "自动发送 · 本场未许可"@
    }
}

pub fn policy_label(facts: &Facts) -> (r: &'static str)
    ensures
        r@ == policy_text(*facts),
{
    if !facts.settings.automatic {
        "逐条确认后发送"
    } else if facts.sending_enabled {
        "自动发送 · 本场已许可"
    } else {
        "自动发送 · 本场未许可"
    }
}

pub open spec fn workspace_text(status: WorkspaceStatus) -> Seq<char> {
    match status {
        WorkspaceStatus::Unread => "尚未读取"@,
        WorkspaceStatus::Pending => "待下轮载入"@,
        WorkspaceStatus::Loaded => "本轮已载入"@,
        WorkspaceStatus::Error => "资料读取失败"@,
    }
}

pub fn workspace_status(status: WorkspaceStatus) -> (r: &'static str)
    ensures
        r@ == workspace_text(status),
{
    match status {
        WorkspaceStatus::Unread => "尚未读取",
        WorkspaceStatus::Pending => "待下轮载入",
        WorkspaceStatus::Loaded => "本轮已载入",
        WorkspaceStatus::Error => "资料读取失败",
    }
}

pub open spec fn configuration_text(facts: Facts) -> Seq<char> {
    if facts.setting_pending {
        "设置等待生效"@
    } else if facts.configuring {
        "等待AI工具确认设置"@
    } else if !facts.connected {
        "尚未读取模型设置"@
    } else {
        "显示AI工具已确认的设置"@
    }
}

pub fn configuration_status(facts: &Facts) -> (r: &'static str)
    ensures
        r@ == configuration_text(*facts),
{
    if facts.setting_pending {
        "设置等待生效"
    } else if facts.configuring {
        "等待AI工具确认设置"
    } else if !facts.connected {
        "尚未读取模型设置"
    } else {
        "显示AI工具已确认的设置"
    }
}

pub open spec fn activity_text(activity: ReplyActivity, facts: Facts) -> Seq<char> {
    match activity {
        ReplyActivity::Cautious => facts.activity_labels.0@,
        ReplyActivity::Balanced => facts.activity_labels.1@,
        ReplyActivity::Active => facts.activity_labels.2@,
    }
}

pub fn activity_label(activity: ReplyActivity, facts: &Facts) -> (r: String)
    ensures
        r@ == activity_text(activity, *facts),
{
    match activity {
        ReplyActivity::Cautious => facts.activity_labels.0.clone(),
        ReplyActivity::Balanced => facts.activity_labels.1.clone(),
        ReplyActivity::Active => facts.activity_labels.2.clone(),
    }
}

pub open spec fn persona_text(persona: PersonaKind, facts: Facts) -> Seq<char> {
    match persona {
        PersonaKind::Assistant => facts.persona_labels.0@,
        PersonaKind::Broadcaster => facts.persona_labels.1@,
    }
}

fn persona_label(persona: PersonaKind, facts: &Facts) -> (r: String)
    ensures
        r@ == persona_text(persona, *facts),
{
    match persona {
        PersonaKind::Assistant => facts.persona_labels.0.clone(),
        PersonaKind::Broadcaster => facts.persona_labels.1.clone(),
    }
}

pub open spec fn host_text(host: usize, facts: Facts) -> Seq<char> {
    if host < facts.hosts@.len() {
        facts.hosts@[host as int].label@
    } else {
        Seq::empty()
    }
}

fn host_label(host: usize, facts: &Facts) -> (r: String)
    ensures
        r@ == host_text(host, *facts),
{
    if host < facts.hosts.len() {
        facts.hosts[host].label.clone()
    } else {
        String::new()
    }
}

/// The command of a table that a line stands for.
pub open spec fn named_in(table: Seq<CommandSpec>, raw: Seq<char>) -> Option<CommandSpec>
    decreases table.len(),
{
    if table.len() == 0 {
        None
    } else if text::trimmed(table[0].completion@) == raw {
        Some(table[0])
    } else {
        named_in(table.skip(1), raw)
    }
}

fn find_named(table: &Vec<CommandSpec>, raw: &str) -> (r: Option<CommandSpec>)
    ensures
        r == named_in(table@, raw@),
{
    let mut i: usize = 0;
    proof {
        assert(table@.skip(0) =~= table@);
    }
    while i < table.len()
        invariant
            i <= table@.len(),
            named_in(table@, raw@) == named_in(table@.skip(i as int), raw@),
        decreases table@.len() - i,
    {
        proof {
            assert(table@.skip(i as int).skip(1) =~= table@.skip(i + 1));
        }
        if text::same(text::trim(table[i].completion).as_str(), raw) {
            return Some(table[i]);
        }
        i = i + 1;
    }
    None
}

/// The command that a line stands for.
pub open spec fn named(raw: Seq<char>) -> Option<CommandSpec> {
    match named_in(commands::main_table(), raw) {
        Some(spec) => Some(spec),
        None => named_in(commands::obs_table(), raw),
    }
}

fn find_command(raw: &str) -> (r: Option<CommandSpec>)
    ensures
        r == named(raw@),
{
    match find_named(&commands::main_commands(), raw) {
        Some(spec) => Some(spec),
        None => find_named(&commands::obs_commands(), raw),
    }
}

pub open spec fn group_name(group: Group) -> Seq<char> {
    match group {
        Group::Settings => "设置"@,
        Group::Operations => "当前操作"@,
        Group::Scene => "本场操作"@,
        Group::Connection => "连接配置"@,
        Group::Control => "当前控制"@,
        Group::Room => "直播间"@,
        Group::Manual => "人工发送"@,
        Group::AiSending => "AI 发送"@,
    }
}

/// What is known of the broadcasting software.
pub open spec fn obs_text(facts: Facts, scene: Seq<char>, stream: Seq<char>, microphone: Seq<char>) -> Seq<
    char,
> {
    match facts.obs {
        Some(obs) => scene + obs.current_scene@ + stream + obs.stream@ + microphone
            + obs.microphone@,
        None => match facts.obs_error {
            Some(problem) => problem@,
            None => "未连接"@,
        },
    }
}

pub fn obs_summary(facts: &Facts, scene: &str, stream: &str, microphone: &str) -> (r: String)
    ensures
        r@ == obs_text(*facts, scene@, stream@, microphone@),
{
    match &facts.obs {
        Some(obs) => {
            let mut out: String = text::add3(scene, obs.current_scene.as_str(), stream);
            out.append(obs.stream.as_str());
            out.append(microphone);
            out.append(obs.microphone.as_str());
            out
        },
        None => match &facts.obs_error {
            Some(problem) => problem.clone(),
            None => "未连接".to_owned(),
        },
    }
}

pub open spec fn group_value(group: Group, facts: Facts) -> Seq<char> {
    match group {
        Group::Manual => accounts::identity_text(facts.account_status),
        Group::AiSending => facts.assistant_label@,
        Group::Room => match facts.room {
            Some(room) => room.room_id@ + " · "@ + room.broadcaster_name@,
            None => facts.room_id@,
        },
        Group::Control => obs_text(facts, ""@, " · "@, " · "@),
        _ => ""@,
    }
}

fn group_columns(group: Group, facts: &Facts) -> (r: (String, String))
    ensures
        r.0@ == group_name(group),
        r.1@ == group_value(group, *facts),
{
    let name: &'static str = match group {
        Group::Settings => "设置",
        Group::Operations => "当前操作",
        Group::Scene => "本场操作",
        Group::Connection => "连接配置",
        Group::Control => "当前控制",
        Group::Room => "直播间",
        Group::Manual => "人工发送",
        Group::AiSending => "AI 发送",
    };
    let value: String = match group {
        Group::Manual => accounts::account_label(&facts.account_status),
        Group::AiSending => facts.assistant_label.clone(),
        Group::Room => match &facts.room {
            Some(room) => text::add3(
                room.room_id.as_str(),
                " · ",
                room.broadcaster_name.as_str(),
            ),
            None => facts.room_id.clone(),
        },
        Group::Control => obs_summary(facts, "", " · ", " · "),
        _ => "".to_owned(),
    };
    (name.to_owned(), value)
}

pub open spec fn command_name(command: MenuCommand) -> Seq<char> {
    match command {
        MenuCommand::Diag => "诊断"@,
        MenuCommand::Help => "帮助"@,
        MenuCommand::Commands => "指令搜索"@,
        MenuCommand::Quit => "退出弹幕台"@,
        _ => match named(panel::menu_raw(command)@) {
            Some(spec) => spec.usage@,
            None => panel::menu_raw(command)@,
        },
    }
}

pub open spec fn command_value(command: MenuCommand) -> Seq<char> {
    match command {
        MenuCommand::Diag => "连接与历史"@,
        MenuCommand::Help => ""@,
        MenuCommand::Commands => "中文搜索，保留草稿"@,
        MenuCommand::Quit => "不停止推流"@,
        _ => match named(panel::menu_raw(command)@) {
            Some(spec) => spec.description@,
            None => ""@,
        },
    }
}

fn command_columns(command: MenuCommand) -> (r: (&'static str, &'static str))
    ensures
        r.0@ == command_name(command),
        r.1@ == command_value(command),
{
    match command {
        MenuCommand::Diag => ("诊断", "连接与历史"),
        MenuCommand::Help => ("帮助", ""),
        MenuCommand::Commands => ("指令搜索", "中文搜索，保留草稿"),
        MenuCommand::Quit => ("退出弹幕台", "不停止推流"),
        _ => match find_command(command.raw()) {
            Some(spec) => (spec.usage, spec.description),
            None => (command.raw(), ""),
        },
    }
}

/// The name of a row that opens a page.
pub open spec fn page_name(page: Page, at: Page) -> Seq<char> {
    match page {
        Page::Account => if at == Page::AiSettings {
            "发送账号"@
        } else {
            "B站账号与直播间"@
        },
        Page::Home => "本场 AI"@,
        Page::Presets => "方案"@,
        page => panel::page_title(page),
    }
}

/// The value of a row that opens a page.
pub open spec fn page_value(page: Page, at: Page, facts: Facts) -> Seq<char> {
    match page {
        Page::Reading => "主题、布局、阅读"@,
        Page::Account => if at == Page::AiSettings {
            facts.assistant_label@
        } else {
            "账号、标题、封面"@
        },
        Page::Obs => "连接配置与当前控制"@,
        Page::AiSettings => "工作空间、Agent、发送策略"@,
        Page::System => "工具信息、诊断与修复"@,
        Page::Home => policy_text(facts),
        Page::Models => configuration_text(facts),
        Page::Assistant => "默认范围、互动与回复"@,
        Page::Materials => "名字、身份与上下文"@,
        Page::Advanced => "规则、运行策略与维护"@,
        Page::Themes => facts.theme_name@,
        Page::Agents => host_text(facts.settings.host, facts),
        Page::Presets => "选择后立即保存"@,
        Page::ReplyRange { scene } => activity_text(
            panel_actions::current_activity(scene, facts),
            facts,
        ),
        _ => "打开"@,
    }
}

fn page_columns(page: Page, at: Page, facts: &Facts) -> (r: (String, String))
    ensures
        r.0@ == page_name(page, at),
        r.1@ == page_value(page, at, *facts),
{
    let sending: bool = matches!(at, Page::AiSettings);
    let name: &'static str = match page {
        Page::Account => if sending {
            "发送账号"
        } else {
            "B站账号与直播间"
        },
        Page::Home => "本场 AI",
        Page::Presets => "方案",
        page => page.title(),
    };
    let value: String = match page {
        Page::Reading => "主题、布局、阅读".to_owned(),
        Page::Account => if sending {
            facts.assistant_label.clone()
        } else {
            "账号、标题、封面".to_owned()
        },
        Page::Obs => "连接配置与当前控制".to_owned(),
        Page::AiSettings => "工作空间、Agent、发送策略".to_owned(),
        Page::System => "工具信息、诊断与修复".to_owned(),
        Page::Home => policy_label(facts).to_owned(),
        Page::Models => configuration_status(facts).to_owned(),
        Page::Assistant => "默认范围、互动与回复".to_owned(),
        Page::Materials => "名字、身份与上下文".to_owned(),
        Page::Advanced => "规则、运行策略与维护".to_owned(),
        Page::Themes => facts.theme_name.clone(),
        Page::Agents => host_label(facts.settings.host, facts),
        Page::Presets => "选择后立即保存".to_owned(),
        Page::ReplyRange { scene } => activity_label(
            if scene {
                facts.effective_activity
            } else {
                facts.settings.reply_activity
            },
            facts,
        ),
        _ => "打开".to_owned(),
    };
    (name.to_owned(), value)
}

pub open spec fn field_name(field: Field) -> Seq<char> {
    match field {
        Field::Workspace => "工作区"@,
        Field::HistorySeconds => "回到最新"@,
        field => panel::field_title(field),
    }
}

/// A text, or another where it is empty.
pub open spec fn filled(value: Seq<char>, fallback: Seq<char>) -> Seq<char> {
    if value.len() == 0 {
        fallback
    } else {
        value
    }
}

/// The entries of a list, or what stands for an empty one.
pub open spec fn listed(values: Seq<Seq<char>>, fallback: Seq<char>) -> Seq<char> {
    if values.len() == 0 {
        fallback
    } else {
        text::joined(values, "，"@)
    }
}

/// The value of a row that edits a text.
pub open spec fn field_value(field: Field, panel: Panel, facts: Facts) -> Seq<char> {
    let s = facts.settings;
    match field {
        Field::External(field) => panel_actions::external_value(field, panel, facts),
        Field::ArchiveSearch => "输入关键词"@,
        Field::Workspace => match facts.workspace {
            Ok(path) => path@,
            Err(_) => "未设置"@,
        },
        Field::Name => s.name@,
        Field::Preferences => filled(s.preferences@, "默认"@),
        Field::Topic => filled(facts.topic@, "未设置"@),
        Field::HistorySeconds => if facts.history_idle_seconds == 0 {
            "关闭"@
        } else {
            text::decimal_digits(facts.history_idle_seconds as nat) + " 秒"@
        },
        Field::Profile => match s.source {
            Source::OmpProfile(profile) => profile@,
            _ => "未选用"@,
        },
        Field::Prompt => match s.source {
            Source::NativePrompt(path) => path@,
            _ => "未选用"@,
        },
        Field::Skills => listed(text::views(s.skills@), "未设置"@),
        Field::BlockedWords => listed(text::views(s.blocked_words@), "未设置"@),
        Field::Binary => filled(s.binary@, "自动发现"@),
    }
}

pub fn fill(value: &str, fallback: &str) -> (r: String)
    ensures
        r@ == filled(value@, fallback@),
{
    if value.is_empty() {
        fallback.to_owned()
    } else {
        value.to_owned()
    }
}

fn list(values: &Vec<String>, fallback: &str) -> (r: String)
    ensures
        r@ == listed(text::views(values@), fallback@),
{
    if values.len() == 0 {
        fallback.to_owned()
    } else {
        text::join(values, "，")
    }
}

fn field_columns(field: Field, panel: &Panel, facts: &Facts) -> (r: (String, String))
    ensures
        r.0@ == field_name(field),
        r.1@ == field_value(field, *panel, *facts),
{
    let s: &AssistantSettings = &facts.settings;
    let name: &'static str = match field {
        Field::Workspace => "工作区",
        Field::HistorySeconds => "回到最新",
        field => field.label(),
    };
    let value: String = match field {
        Field::External(field) => panel_actions::external_setting_value(field, panel, facts),
        Field::ArchiveSearch => "输入关键词".to_owned(),
        Field::Workspace => self_or(
            match &facts.workspace {
                Ok(path) => Some(path.clone()),
                Err(_) => None,
            },
            "未设置",
        ),
        Field::Name => s.name.clone(),
        Field::Preferences => fill(s.preferences.as_str(), "默认"),
        Field::Topic => fill(facts.topic.as_str(), "未设置"),
        Field::HistorySeconds => if facts.history_idle_seconds == 0 {
            "关闭".to_owned()
        } else {
            text::add2(text::decimal(facts.history_idle_seconds as u64).as_str(), " 秒")
        },
        Field::Profile => match &s.source {
            Source::OmpProfile(profile) => profile.clone(),
            _ => "未选用".to_owned(),
        },
        Field::Prompt => match &s.source {
            Source::NativePrompt(path) => path.clone(),
            _ => "未选用".to_owned(),
        },
        Field::Skills => list(&s.skills, "未设置"),
        Field::BlockedWords => list(&s.blocked_words, "未设置"),
        Field::Binary => fill(s.binary.as_str(), "自动发现"),
    };
    (name.to_owned(), value)
}

pub open spec fn switch_name(switch: Switch) -> Seq<char> {
    match switch {
        Switch::HostPriority => "开麦主播优先"@,
        Switch::MutedSupport => "静音文字补位"@,
        Switch::UseProfile => "主播简介"@,
        Switch::UseProject => "项目资料"@,
        Switch::ThankGifts => "礼物与上舰"@,
        Switch::ThankLikes => "点赞"@,
        Switch::ThankFollows => "关注"@,
        Switch::ThankShares => "分享"@,
        Switch::MentionSender => "问答时 @ 对方"@,
        Switch::RepairBlocked => "拒绝时改写"@,
    }
}

pub fn switch_label(switch: Switch) -> (r: &'static str)
    ensures
        r@ == switch_name(switch),
{
    match switch {
        Switch::HostPriority => "开麦主播优先",
        Switch::MutedSupport => "静音文字补位",
        Switch::UseProfile => "主播简介",
        Switch::UseProject => "项目资料",
        Switch::ThankGifts => "礼物与上舰",
        Switch::ThankLikes => "点赞",
        Switch::ThankFollows => "关注",
        Switch::ThankShares => "分享",
        Switch::MentionSender => "问答时 @ 对方",
        Switch::RepairBlocked => "拒绝时改写",
    }
}

pub open spec fn fold_text(open: bool) -> Seq<char> {
    if open {
        "收起"@
    } else {
        "展开"@
    }
}

fn fold_label(open: bool) -> (r: &'static str)
    ensures
        r@ == fold_text(open),
{
    if open {
        "收起"
    } else {
        "展开"
    }
}

pub open spec fn chosen_text(current: bool) -> Seq<char> {
    if current {
        "当前"@
    } else {
        "选择"@
    }
}

fn chosen_label(current: bool) -> (r: &'static str)
    ensures
        r@ == chosen_text(current),
{
    if current {
        "当前"
    } else {
        "选择"
    }
}

pub open spec fn action_name(action: Action, facts: Facts) -> Seq<char> {
    match action {
        Action::Run => run_text(facts),
        Action::Review => "待审回复"@,
        Action::ApproveCandidate => "发送"@,
        Action::EditCandidate => "编辑"@,
        Action::DiscardCandidate => "丢弃"@,
        Action::NextCandidate => "下一条"@,
        Action::ApproveAllCandidates => "全部发送"@,
        Action::DiscardAllCandidates => "全部丢弃"@,
    }
}

pub open spec fn action_value(action: Action, facts: Facts) -> Seq<char> {
    match action {
        Action::Review => text::decimal_digits(facts.candidates as nat) + " 条"@,
        Action::ApproveCandidate => "完整看完后可用"@,
        Action::EditCandidate => "只保存"@,
        Action::ApproveAllCandidates => "批准当前待审批次，不开启自动发送"@,
        Action::DiscardAllCandidates => "不影响在途或结果不确定的回复"@,
        _ => ""@,
    }
}

fn action_columns(action: Action, facts: &Facts) -> (r: (&'static str, String))
    ensures
        r.0@ == action_name(action, *facts),
        r.1@ == action_value(action, *facts),
{
    let name: &'static str = match action {
        Action::Run => run_label(facts),
        Action::Review => "待审回复",
        Action::ApproveCandidate => "发送",
        Action::EditCandidate => "编辑",
        Action::DiscardCandidate => "丢弃",
        Action::NextCandidate => "下一条",
        Action::ApproveAllCandidates => "全部发送",
        Action::DiscardAllCandidates => "全部丢弃",
    };
    let value: String = match action {
        Action::Review => text::add2(
            text::decimal(facts.candidates as u64).as_str(),
            " 条",
        ),
        Action::ApproveCandidate => "完整看完后可用".to_owned(),
        Action::EditCandidate => "只保存".to_owned(),
        Action::ApproveAllCandidates => "批准当前待审批次，不开启自动发送".to_owned(),
        Action::DiscardAllCandidates => "不影响在途或结果不确定的回复".to_owned(),
        _ => "".to_owned(),
    };
    (name, value)
}

/// The option of a row, where the tool reports it.
pub open spec fn option_at(i: usize, facts: Facts) -> Option<panel::OptionFacts> {
    match facts.options {
        Some(options) => if i < options@.len() {
            Some(options@[i as int])
        } else {
            None
        },
        None => None,
    }
}

/// The value of an option: the name of the choice that is current, or the value itself.
pub open spec fn option_text(option: panel::OptionFacts) -> Seq<char> {
    if exists|k: int|
        0 <= k < option.choices@.len() && #[trigger] option.choices@[k].value@
            == option.current@ {
        option.choices@[panel_actions::first_place(option.choices@, option.current@)].name@
    } else {
        option.current_label@
    }
}

fn option_label(option: &panel::OptionFacts) -> (r: String)
    ensures
        r@ == option_text(*option),
{
    let mut i: usize = 0;
    while i < option.choices.len()
        invariant
            i <= option.choices@.len(),
            forall|k: int|
                0 <= k < i ==> (#[trigger] option.choices@[k]).value@ != option.current@,
        decreases option.choices@.len() - i,
    {
        if option.choices[i].value.same(&option.current) {
            proof {
                panel_actions::lemma_first_place(option.choices@, option.current@, i as int);
                assert(option.choices@[i as int].value@ == option.current@);
            }
            return option.choices[i].name.clone();
        }
        i = i + 1;
    }
    option.current_label.clone()
}

/// The name of a row.
pub open spec fn row_name(row: Row, panel: Panel, facts: Facts) -> Seq<char> {
    match row {
        Row::Group(group) => group_name(group),
        Row::ToggleThanks => "互动感谢"@,
        Row::AdvancedGroup(group) => if group == 0 {
            "规则"@
        } else if group == 1 {
            "运行策略"@
        } else {
            "维护"@
        },
        Row::Command(command) => command_name(command),
        Row::Page(page) => page_name(page, panel.page),
        Row::Edit(field) => field_name(field),
        Row::Preset(i) => if i < facts.presets@.len() {
            facts.presets@[i as int].label@
        } else {
            ""@
        },
        Row::Switch(switch) => switch_name(switch),
        Row::DynamicStrategy => "当前策略"@,
        Row::Permission => "发送模式"@,
        Row::ReplyActivity => "默认范围"@,
        Row::Activity { activity, .. } => activity_text(activity, facts),
        Row::RestoreTopic => "用直播标题"@,
        Row::Persona => "人设"@,
        Row::RepairHistory => "重建历史"@,
        Row::WebSearch => "联网搜索"@,
        Row::DefaultSource => "默认规则"@,
        Row::Theme(i) => if i < facts.themes@.len() {
            facts.themes@[i as int].name@
        } else {
            "主题"@
        },
        Row::ReloadThemes => "重载主题"@,
        Row::Layout => "布局"@,
        Row::Usernames => "昵称"@,
        Row::Timestamps => "时间"@,
        Row::ConnectOptions => "读取模型"@,
        Row::Login => "登录"@,
        Row::Logout => "退出人工账号"@,
        Row::ReuseMain => "复用人工账号"@,
        Row::AssistantLogin => "扫码更换"@,
        Row::CancelAssistantLogin => "取消扫码"@,
        Row::SignOutIndependent => "退出 AI 账号"@,
        Row::Action(action) => action_name(action, facts),
        Row::Host(host) => host_text(host, facts),
        Row::Option(i) => match option_at(i, facts) {
            Some(option) => option.name@,
            None => "运行模式"@,
        },
        Row::Visible => "处理可见弹幕"@,
        Row::Context => "重建上下文"@,
        Row::Stop => "结束 AI"@,
    }
}

/// The value of a row.
pub open spec fn row_value(row: Row, panel: Panel, facts: Facts) -> Seq<char> {
    let s = facts.settings;
    match row {
        Row::Group(group) => group_value(group, facts),
        Row::ToggleThanks => fold_text(panel.thanks_expanded),
        Row::AdvancedGroup(group) => fold_text(
            panel.advanced_group == Some(
                if group < 2 {
                    group
                } else {
                    2
                },
            ),
        ),
        Row::Command(command) => command_value(command),
        Row::Page(page) => page_value(page, panel.page, facts),
        Row::Edit(field) => field_value(field, panel, facts),
        Row::Switch(switch) => on_off_text(panel::switch_on(s.switches, switch)),
        Row::DynamicStrategy => facts.strategy_label@,
        Row::Permission => if facts.sending_enabled {
            "自动 · 公开发送"@
        } else if s.automatic {
            "未授权"@
        } else {
            "逐条"@
        },
        Row::ReplyActivity => activity_text(s.reply_activity, facts),
        Row::Activity { activity, scene } => chosen_text(
            activity == panel_actions::current_activity(scene, facts),
        ),
        Row::Persona => persona_text(s.persona, facts),
        Row::RepairHistory => if facts.repairing {
            "重建中"@
        } else {
            "保留原件"@
        },
        Row::WebSearch => on_off_text(s.web_search),
        Row::DefaultSource => "使用工具默认值"@,
        Row::Theme(i) => if i < facts.themes@.len() {
            if facts.themes@[i as int].id@ == facts.theme_name@ {
                "当前"@
            } else {
                facts.themes@[i as int].id@
            }
        } else {
            ""@
        },
        Row::ReloadThemes => "读取 themes.json"@,
        Row::Layout => if facts.layout_chat {
            "聊天"@
        } else {
            "列表"@
        },
        Row::Usernames => on_off_text(facts.show_name),
        Row::Timestamps => on_off_text(facts.show_time),
        Row::ConnectOptions => if facts.configuring {
            "读取中"@
        } else {
            "未连接"@
        },
        Row::Login | Row::Logout | Row::ReuseMain => accounts::identity_text(
            facts.account_status,
        ),
        Row::AssistantLogin | Row::SignOutIndependent => facts.assistant_label@,
        Row::Action(action) => action_value(action, facts),
        Row::Host(host) => chosen_text(host == s.host),
        Row::Option(i) => match option_at(i, facts) {
            Some(option) => option_text(option),
            None => match facts.tool_mode {
                Some(mode) => mode.current@,
                None => "继承"@,
            },
        },
        Row::Visible => "重建上下文"@,
        Row::Context => "从后续弹幕开始"@,
        Row::Stop => "清除续用与发送权"@,
        Row::Preset(_) | Row::RestoreTopic | Row::CancelAssistantLogin => ""@,
    }
}

fn theme_columns(i: usize, facts: &Facts) -> (r: (String, String))
    ensures
        forall|panel: Panel| #[trigger] row_name(Row::Theme(i), panel, *facts) == r.0@,
        forall|panel: Panel| #[trigger] row_value(Row::Theme(i), panel, *facts) == r.1@,
{
    if i < facts.themes.len() {
        let id: &String = &facts.themes[i].id;
        let value: String = if text::same(id.as_str(), facts.theme_name.as_str()) {
            "当前".to_owned()
        } else {
            id.clone()
        };
        (facts.themes[i].name.clone(), value)
    } else {
        ("主题".to_owned(), "".to_owned())
    }
}

fn option_columns(i: usize, facts: &Facts) -> (r: (String, String))
    ensures
        forall|panel: Panel| #[trigger] row_name(Row::Option(i), panel, *facts) == r.0@,
        forall|panel: Panel| #[trigger] row_value(Row::Option(i), panel, *facts) == r.1@,
{
    if let Some(options) = &facts.options {
        if i < options.len() {
            return (options[i].name.clone(), option_label(&options[i]));
        }
    }
    let value: String = match &facts.tool_mode {
        Some(mode) => mode.current.clone(),
        None => "继承".to_owned(),
    };
    ("运行模式".to_owned(), value)
}

fn pair(name: &str, value: &str) -> (r: (String, String))
    ensures
        r.0@ == name@,
        r.1@ == value@,
{
    (name.to_owned(), value.to_owned())
}

/// The name and the value of a row.
#[verifier::rlimit(60)]
pub fn row_columns(row: Row, panel: &Panel, facts: &Facts) -> (r: (String, String))
    ensures
        r.0@ == row_name(row, *panel, *facts),
        r.1@ == row_value(row, *panel, *facts),
{
    let s: &AssistantSettings = &facts.settings;
    match row {
        Row::Group(group) => group_columns(group, facts),
        Row::ToggleThanks => pair("互动感谢", fold_label(panel.thanks_expanded)),
        Row::AdvancedGroup(group) => {
            let fold: u8 = if group < 2 {
                group
            } else {
                2
            };
            let open: bool = match panel.advanced_group {
                Some(open) => open == fold,
                None => false,
            };
            let name: &'static str = if group == 0 {
                "规则"
            } else if group == 1 {
                "运行策略"
            } else {
                "维护"
            };
            pair(name, fold_label(open))
        },
        Row::Command(command) => {
            let (name, value): (&'static str, &'static str) = command_columns(command);
            pair(name, value)
        },
        Row::Page(page) => page_columns(page, panel.page, facts),
        Row::Edit(field) => field_columns(field, panel, facts),
        Row::Preset(i) => if i < facts.presets.len() {
            pair(facts.presets[i].label.as_str(), "")
        } else {
            pair("", "")
        },
        Row::Switch(switch) => pair(switch_label(switch), on_off(s.switches.is_on(switch))),
        Row::DynamicStrategy => pair("当前策略", facts.strategy_label.as_str()),
        Row::Permission => pair(
            "发送模式",
            if facts.sending_enabled {
                "自动 · 公开发送"
            } else if s.automatic {
                "未授权"
            } else {
                "逐条"
            },
        ),
        Row::ReplyActivity => (
            "默认范围".to_owned(),
            activity_label(s.reply_activity, facts),
        ),
        Row::Activity { activity, scene } => {
            let current: ReplyActivity = if scene {
                facts.effective_activity
            } else {
                s.reply_activity
            };
            (
                activity_label(activity, facts),
                chosen_label(activity == current).to_owned(),
            )
        },
        Row::RestoreTopic => pair("用直播标题", ""),
        Row::Persona => ("人设".to_owned(), persona_label(s.persona, facts)),
        Row::RepairHistory => pair(
            "重建历史",
            if facts.repairing {
                "重建中"
            } else {
                "保留原件"
            },
        ),
        Row::WebSearch => pair("联网搜索", on_off(s.web_search)),
        Row::DefaultSource => pair("默认规则", "使用工具默认值"),
        Row::Theme(i) => theme_columns(i, facts),
        Row::ReloadThemes => pair("重载主题", "读取 themes.json"),
        Row::Layout => pair(
            "布局",
            if facts.layout_chat {
                "聊天"
            } else {
                "列表"
            },
        ),
        Row::Usernames => pair("昵称", on_off(facts.show_name)),
        Row::Timestamps => pair("时间", on_off(facts.show_time)),
        Row::ConnectOptions => pair(
            "读取模型",
            if facts.configuring {
                "读取中"
            } else {
                "未连接"
            },
        ),
        Row::Login => ("登录".to_owned(), accounts::account_label(&facts.account_status)),
        Row::Logout => (
            "退出人工账号".to_owned(),
            accounts::account_label(&facts.account_status),
        ),
        Row::ReuseMain => (
            "复用人工账号".to_owned(),
            accounts::account_label(&facts.account_status),
        ),
        Row::AssistantLogin => pair("扫码更换", facts.assistant_label.as_str()),
        Row::CancelAssistantLogin => pair("取消扫码", ""),
        Row::SignOutIndependent => pair("退出 AI 账号", facts.assistant_label.as_str()),
        Row::Action(action) => {
            let (name, value): (&'static str, String) = action_columns(action, facts);
            (name.to_owned(), value)
        },
        Row::Host(host) => (
            host_label(host, facts),
            chosen_label(host == s.host).to_owned(),
        ),
        Row::Option(i) => option_columns(i, facts),
        Row::Visible => pair("处理可见弹幕", "重建上下文"),
        Row::Context => pair("重建上下文", "从后续弹幕开始"),
        Row::Stop => pair("结束 AI", "清除续用与发送权"),
    }
}

/// A row that warns before it is used.
pub open spec fn is_danger(row: Row, facts: Facts) -> bool {
    match row {
        Row::Command(command) => match named(panel::menu_raw(command)@) {
            Some(spec) => spec.danger,
            None => false,
        },
        Row::Visible
        | Row::Context
        | Row::Stop
        | Row::RepairHistory
        | Row::Logout
        | Row::SignOutIndependent => true,
        Row::Edit(Field::External(field)) => field is RoomTitle || field is RoomCover
            || field is ObsScene,
        Row::Permission => facts.sending_enabled,
        _ => false,
    }
}

pub fn row_danger(row: Row, facts: &Facts) -> (r: bool)
    ensures
        r == is_danger(row, *facts),
{
    match row {
        Row::Command(command) => match find_command(command.raw()) {
            Some(spec) => spec.danger,
            None => false,
        },
        Row::Visible
        | Row::Context
        | Row::Stop
        | Row::RepairHistory
        | Row::Logout
        | Row::SignOutIndependent => true,
        Row::Edit(Field::External(field)) => matches!(
            field,
            ExternalField::RoomTitle | ExternalField::RoomCover | ExternalField::ObsScene
        ),
        Row::Permission => facts.sending_enabled,
        _ => false,
    }
}

/// What the menu says of a row agrees with what the row does: a row that pauses says so, and a
/// switch shows on exactly where using it switches off.
pub proof fn law_the_menu_says_what_a_row_does(panel: Panel, row: Row, facts: Facts)
    requires
        panel::readonly_text(row, facts) is None,
    ensures
        ({
            let effect = panel_actions::row_effect(panel, row, facts);
            &&& row == Row::Action(Action::Run) ==> (row_name(row, panel, facts) == "暂停 AI"@
                <==> effect == Ok::<panel_actions::Effect, Seq<char>>(panel_actions::Effect::Pause))
            &&& row is Usernames ==> (row_value(row, panel, facts) == "开启"@ <==> effect == Ok::<
                panel_actions::Effect,
                Seq<char>,
            >(panel_actions::Effect::ShowNames(false)))
            &&& row is Timestamps ==> (row_value(row, panel, facts) == "开启"@ <==> effect == Ok::<
                panel_actions::Effect,
                Seq<char>,
            >(panel_actions::Effect::ShowTimes(false)))
            &&& row is Layout ==> (row_value(row, panel, facts) == "聊天"@ <==> effect == Ok::<
                panel_actions::Effect,
                Seq<char>,
            >(panel_actions::Effect::ChatLayout(false)))
            &&& row matches Row::Activity { activity, scene } ==> (row_value(row, panel, facts)
                == "当前"@ <==> effect == Ok::<panel_actions::Effect, Seq<char>>(
                panel_actions::Effect::Nothing,
            ))
        }),
        row matches Row::Switch(switch) ==> (row_value(row, panel, facts) == "开启"@
            <==> panel::switch_on(facts.settings.switches, switch)),
        row is WebSearch ==> (row_value(row, panel, facts) == "开启"@ <==> facts.settings.web_search),
        row matches Row::Host(host) ==> (row_value(row, panel, facts) == "当前"@ <==> host
            == facts.settings.host),
{
    reveal_strlit("暂停 AI");
    reveal_strlit("继续 AI");
    reveal_strlit("启动 AI");
    reveal_strlit("开启");
    reveal_strlit("关闭");
    reveal_strlit("聊天");
    reveal_strlit("列表");
    reveal_strlit("当前");
    reveal_strlit("选择");
    assert("暂停 AI"@[0] == '暂' && "继续 AI"@[0] == '继' && "启动 AI"@[0] == '启');
    assert("开启"@[0] == '开' && "关闭"@[0] == '关');
    assert("聊天"@[0] == '聊' && "列表"@[0] == '列');
    assert("当前"@[0] == '当' && "选择"@[0] == '选');
}

/// How replies are sent is told as it is: by itself where the assistant may send, not allowed where
/// it is set to but may not, and one by one where it is not set to.
pub proof fn law_the_menu_tells_how_replies_are_sent(panel: Panel, facts: Facts)
    ensures
        row_value(Row::Permission, panel, facts) == "自动 · 公开发送"@ <==> facts.sending_enabled,
        row_value(Row::Permission, panel, facts) == "未授权"@ <==> !facts.sending_enabled
            && facts.settings.automatic,
        row_value(Row::Permission, panel, facts) == "逐条"@ <==> !facts.sending_enabled
            && !facts.settings.automatic,
        is_danger(Row::Permission, facts) <==> facts.sending_enabled,
{
    reveal_strlit("自动 · 公开发送");
    reveal_strlit("未授权");
    reveal_strlit("逐条");
    assert("自动 · 公开发送"@.len() == 9 && "未授权"@.len() == 3 && "逐条"@.len() == 2);
}

/// The rows that decide a reply bear the name of what they do, each its own.
pub proof fn law_reply_rows_bear_their_name(action: Action, facts: Facts)
    ensures
        action_name(action, facts) == "发送"@ <==> action is ApproveCandidate,
        action_name(action, facts) == "丢弃"@ <==> action is DiscardCandidate,
        action_name(action, facts) == "编辑"@ <==> action is EditCandidate,
        action_name(action, facts) == "全部发送"@ <==> action is ApproveAllCandidates,
        action_name(action, facts) == "全部丢弃"@ <==> action is DiscardAllCandidates,
{
    reveal_strlit("暂停 AI");
    reveal_strlit("继续 AI");
    reveal_strlit("启动 AI");
    reveal_strlit("待审回复");
    reveal_strlit("发送");
    reveal_strlit("编辑");
    reveal_strlit("丢弃");
    reveal_strlit("下一条");
    reveal_strlit("全部发送");
    reveal_strlit("全部丢弃");
    assert("暂停 AI"@.len() == 5 && "继续 AI"@.len() == 5 && "启动 AI"@.len() == 5);
    assert("发送"@[0] == '发' && "编辑"@[0] == '编' && "丢弃"@[0] == '丢' && "下一条"@.len() == 3);
    assert("待审回复"@[0] == '待' && "全部发送"@[0] == '全' && "全部丢弃"@[0] == '全');
    assert("全部发送"@[2] == '发' && "全部丢弃"@[2] == '丢');
}

} // verus!
