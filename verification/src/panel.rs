//! The settings and assistant panel: its pages, the rows on each, and how keys move through them.
use vstd::prelude::*;
use vstd::string::*;

use crate::commands;
use crate::commands::ExternalField;
use crate::domain::{AccountStatus, RoomSnapshot};
use crate::input::EditorInput;
use crate::text;

verus! {

#[derive(Clone, Copy, Debug, PartialEq, Eq, Structural)]
pub enum Page {
    Home,
    Settings,
    Reading,
    Account,
    Obs,
    AiSettings,
    System,
    About,
    Models,
    Assistant,
    Materials,
    Advanced,
    ReplyRange { scene: bool },
    Themes,
    Presets,
    Agents,
    More,
    Candidates,
    Diagnostics,
}

pub open spec fn page_title(page: Page) -> Seq<char> {
    match page {
        Page::Home => "AI"@,
        Page::Settings => "设置与操作"@,
        Page::Reading => "外观与显示"@,
        Page::Account => "B站账号与直播间"@,
        Page::Obs => "OBS"@,
        Page::AiSettings => "AI助手"@,
        Page::System => "系统与关于"@,
        Page::About => "关于弹幕台"@,
        Page::Models => "模型"@,
        Page::Assistant => "发送策略"@,
        Page::Materials => "人设与资料"@,
        Page::Advanced => "Agent配置"@,
        Page::ReplyRange { scene } => if scene {
            "本场范围"@
        } else {
            "默认范围"@
        },
        Page::Themes => "主题"@,
        Page::Presets => "回复方案"@,
        Page::Agents => "AI 工具"@,
        Page::More => "更多"@,
        Page::Candidates => "待审回复"@,
        Page::Diagnostics => "诊断"@,
    }
}

impl Page {
    pub fn title(self) -> (r: &'static str)
        ensures
            r@ == page_title(self),
    {
        match self {
            Page::Home => "AI",
            Page::Settings => "设置与操作",
            Page::Reading => "外观与显示",
            Page::Account => "B站账号与直播间",
            Page::Obs => "OBS",
            Page::AiSettings => "AI助手",
            Page::System => "系统与关于",
            Page::About => "关于弹幕台",
            Page::Models => "模型",
            Page::Assistant => "发送策略",
            Page::Materials => "人设与资料",
            Page::Advanced => "Agent配置",
            Page::ReplyRange { scene } => if scene {
                "本场范围"
            } else {
                "默认范围"
            },
            Page::Themes => "主题",
            Page::Presets => "回复方案",
            Page::Agents => "AI 工具",
            Page::More => "更多",
            Page::Candidates => "待审回复",
            Page::Diagnostics => "诊断",
        }
    }
}

/// A text that can be edited on the panel.
#[derive(Clone, Copy, Debug, PartialEq, Eq, Structural)]
pub enum Field {
    External(ExternalField),
    Binary,
    Profile,
    Prompt,
    Name,
    Preferences,
    Topic,
    BlockedWords,
    HistorySeconds,
    Workspace,
    Skills,
    ArchiveSearch,
}

pub open spec fn field_title(field: Field) -> Seq<char> {
    match field {
        Field::External(field) => commands::field_label(field),
        Field::Binary => "ACP 程序"@,
        Field::Profile => "OMP profile"@,
        Field::Prompt => "规则文件"@,
        Field::Name => "AI 名字"@,
        Field::Preferences => "补充要求"@,
        Field::Topic => "本场主题"@,
        Field::BlockedWords => "屏蔽词"@,
        Field::HistorySeconds => "回到最新（秒）"@,
        Field::Workspace => "工作区路径"@,
        Field::Skills => "Skills"@,
        Field::ArchiveSearch => "搜索归档"@,
    }
}

impl Field {
    pub fn label(self) -> (r: &'static str)
        ensures
            r@ == field_title(self),
    {
        match self {
            Field::External(field) => field.label(),
            Field::Binary => "ACP 程序",
            Field::Profile => "OMP profile",
            Field::Prompt => "规则文件",
            Field::Name => "AI 名字",
            Field::Preferences => "补充要求",
            Field::Topic => "本场主题",
            Field::BlockedWords => "屏蔽词",
            Field::HistorySeconds => "回到最新（秒）",
            Field::Workspace => "工作区路径",
            Field::Skills => "Skills",
            Field::ArchiveSearch => "搜索归档",
        }
    }
}

#[derive(Clone, Copy, Debug, PartialEq, Eq, Structural)]
pub enum Action {
    Run,
    Review,
    EditCandidate,
    ApproveCandidate,
    DiscardCandidate,
    NextCandidate,
    ApproveAllCandidates,
    DiscardAllCandidates,
}

/// The headings between rows.
#[derive(Clone, Copy, Debug, PartialEq, Eq, Structural)]
pub enum Group {
    Settings,
    Operations,
    Scene,
    Connection,
    Control,
    Room,
    Manual,
    AiSending,
}

/// The commands that stand on the panel.
#[derive(Clone, Copy, Debug, PartialEq, Eq, Structural)]
pub enum MenuCommand {
    Pin,
    Commands,
    Quit,
    ObsPassword,
    ObsConnect,
    Mute,
    Unmute,
    ObsStart,
    ObsStop,
    Help,
    Diag,
}

pub open spec fn menu_raw(command: MenuCommand) -> &'static str {
    match command {
        MenuCommand::Pin => "/pin",
        MenuCommand::Commands => "/commands",
        MenuCommand::Quit => "/quit",
        MenuCommand::ObsPassword => "/obs config password",
        MenuCommand::ObsConnect => "/obs connect",
        MenuCommand::Mute => "/mute",
        MenuCommand::Unmute => "/unmute",
        MenuCommand::ObsStart => "/obs start",
        MenuCommand::ObsStop => "/obs stop",
        MenuCommand::Help => "/help",
        MenuCommand::Diag => "/diag",
    }
}

impl MenuCommand {
    /// The line that the command stands for.
    pub fn raw(self) -> (r: &'static str)
        ensures
            r == menu_raw(self),
    {
        match self {
            MenuCommand::Pin => "/pin",
            MenuCommand::Commands => "/commands",
            MenuCommand::Quit => "/quit",
            MenuCommand::ObsPassword => "/obs config password",
            MenuCommand::ObsConnect => "/obs connect",
            MenuCommand::Mute => "/mute",
            MenuCommand::Unmute => "/unmute",
            MenuCommand::ObsStart => "/obs start",
            MenuCommand::ObsStop => "/obs stop",
            MenuCommand::Help => "/help",
            MenuCommand::Diag => "/diag",
        }
    }
}

/// How readily the assistant replies.
#[derive(Clone, Copy, Debug, PartialEq, Eq, Structural)]
pub enum ReplyActivity {
    Cautious,
    Balanced,
    Active,
}

/// The settings of the assistant that are on or off.
#[derive(Clone, Copy, Debug, PartialEq, Eq, Structural)]
pub enum Switch {
    UseProfile,
    UseProject,
    ThankGifts,
    ThankLikes,
    ThankFollows,
    ThankShares,
    MentionSender,
    RepairBlocked,
    HostPriority,
    MutedSupport,
}

/// A row of a page. Hosts, presets, themes and options are told by their place in the lists that
/// they come from.
#[derive(Clone, Copy, Debug, PartialEq, Eq, Structural)]
pub enum Row {
    Preset(usize),
    Group(Group),
    ToggleThanks,
    AdvancedGroup(u8),
    Command(MenuCommand),
    DynamicStrategy,
    Action(Action),
    Page(Page),
    Host(usize),
    Edit(Field),
    Permission,
    ReplyActivity,
    Activity { activity: ReplyActivity, scene: bool },
    RestoreTopic,
    Switch(Switch),
    Persona,
    RepairHistory,
    WebSearch,
    DefaultSource,
    Option(usize),
    Theme(usize),
    ReloadThemes,
    Layout,
    Usernames,
    Timestamps,
    ConnectOptions,
    Login,
    Logout,
    ReuseMain,
    AssistantLogin,
    CancelAssistantLogin,
    SignOutIndependent,
    Visible,
    Context,
    Stop,
}

#[derive(Clone, Copy, Debug, PartialEq, Eq, Structural)]
pub struct HistoryEntry {
    pub page: Page,
    pub row: usize,
    pub scroll: u16,
    pub list_offset: usize,
    pub expanded: bool,
    pub thanks_expanded: bool,
    pub advanced_group: Option<u8>,
}

/// A value of an option that an assistant tool reports.
#[derive(Debug)]
pub enum SettingValue {
    Bool(bool),
    Id(String),
}

pub ghost enum SettingView {
    Bool(bool),
    Id(Seq<char>),
}

impl View for SettingValue {
    type V = SettingView;

    open spec fn view(&self) -> SettingView {
        match *self {
            SettingValue::Bool(on) => SettingView::Bool(on),
            SettingValue::Id(id) => SettingView::Id(id@),
        }
    }
}

impl SettingValue {
    pub fn same(&self, other: &SettingValue) -> (r: bool)
        ensures
            r == (self@ == other@),
    {
        match (self, other) {
            (SettingValue::Bool(a), SettingValue::Bool(b)) => *a == *b,
            (SettingValue::Id(a), SettingValue::Id(b)) => text::same(a.as_str(), b.as_str()),
            _ => false,
        }
    }

    pub fn copy(&self) -> (r: Self)
        ensures
            r == *self,
    {
        match self {
            SettingValue::Bool(on) => SettingValue::Bool(*on),
            SettingValue::Id(id) => SettingValue::Id(id.clone()),
        }
    }
}

#[derive(Debug)]
pub struct Choice {
    pub value: SettingValue,
    pub name: String,
}

impl Choice {
    pub fn copy(&self) -> (r: Self)
        ensures
            r == *self,
    {
        Choice { value: self.value.copy(), name: self.name.clone() }
    }
}

/// What a list of choices is for: how messages are sent, an option, or the mode of the tool.
#[derive(Debug)]
pub enum ChoiceTarget {
    Sending,
    Option(String),
    ToolMode,
}

#[derive(Debug)]
pub struct Choices {
    pub target: ChoiceTarget,
    pub values: Vec<Choice>,
    pub selected: usize,
}

/// An assistant tool that was looked for on the machine.
#[derive(Debug)]
pub struct Discovery {
    pub host: usize,
    pub program: Option<String>,
    pub native: Option<String>,
}

#[derive(Debug)]
pub struct ObsConfiguration {
    pub host: String,
    pub port: u16,
    pub microphone_input_name: String,
}

pub struct Panel {
    pub page: Page,
    pub row: usize,
    pub editor: Option<(Field, EditorInput)>,
    pub choices: Option<Choices>,
    pub discovered: Vec<Discovery>,
    pub error: Option<String>,
    pub scroll: u16,
    pub history: Vec<HistoryEntry>,
    pub list_offset: usize,
    pub menu_height: usize,
    pub expanded: bool,
    pub thanks_expanded: bool,
    pub advanced_group: Option<u8>,
    pub pending_save: Option<u64>,
    pub obs_configuration: Option<ObsConfiguration>,
}

/// What the broadcasting software reported.
#[derive(Debug)]
pub struct ObsFacts {
    pub current_scene: String,
    pub stream: String,
    pub microphone: String,
}

/// An option that the assistant tool reports.
#[derive(Debug)]
pub struct OptionFacts {
    pub id: String,
    pub name: String,
    pub current: SettingValue,
    pub current_label: String,
    pub choices: Vec<Choice>,
    pub unsupported: bool,
}

/// The running mode that the assistant tool reports.
#[derive(Debug)]
pub struct ModeFacts {
    pub current: String,
    pub choices: Vec<Choice>,
}

#[derive(Clone, Copy, Debug, PartialEq, Eq, Structural)]
pub enum PersonaKind {
    Assistant,
    Broadcaster,
}

/// Where the rules of the assistant come from.
#[derive(Debug)]
pub enum Source {
    Default,
    OmpProfile(String),
    NativePrompt(String),
}

/// The settings that are on or off.
#[derive(Clone, Copy, Debug, PartialEq, Eq, Structural)]
pub struct Switches {
    pub use_profile: bool,
    pub use_project: bool,
    pub thank_gifts: bool,
    pub thank_likes: bool,
    pub thank_follows: bool,
    pub thank_shares: bool,
    pub mention_sender: bool,
    pub repair_blocked: bool,
    pub host_priority: bool,
    pub muted_support: bool,
}

/// The settings of the assistant.
#[derive(Debug)]
pub struct AssistantSettings {
    pub host: usize,
    pub binary: String,
    pub source: Source,
    pub name: String,
    pub preferences: String,
    pub skills: Vec<String>,
    pub blocked_words: Vec<String>,
    pub persona: PersonaKind,
    pub reply_activity: ReplyActivity,
    pub automatic: bool,
    pub resume_on_start: bool,
    pub web_search: bool,
    pub switches: Switches,
}

pub open spec fn switch_on(settings: Switches, switch: Switch) -> bool {
    match switch {
        Switch::UseProfile => settings.use_profile,
        Switch::UseProject => settings.use_project,
        Switch::ThankGifts => settings.thank_gifts,
        Switch::ThankLikes => settings.thank_likes,
        Switch::ThankFollows => settings.thank_follows,
        Switch::ThankShares => settings.thank_shares,
        Switch::MentionSender => settings.mention_sender,
        Switch::RepairBlocked => settings.repair_blocked,
        Switch::HostPriority => settings.host_priority,
        Switch::MutedSupport => settings.muted_support,
    }
}

impl Switches {
    pub fn is_on(self, switch: Switch) -> (r: bool)
        ensures
            r == switch_on(self, switch),
    {
        match switch {
            Switch::UseProfile => self.use_profile,
            Switch::UseProject => self.use_project,
            Switch::ThankGifts => self.thank_gifts,
            Switch::ThankLikes => self.thank_likes,
            Switch::ThankFollows => self.thank_follows,
            Switch::ThankShares => self.thank_shares,
            Switch::MentionSender => self.mention_sender,
            Switch::RepairBlocked => self.repair_blocked,
            Switch::HostPriority => self.host_priority,
            Switch::MutedSupport => self.muted_support,
        }
    }
}

/// An assistant tool that the program knows.
#[derive(Debug)]
pub struct HostFacts {
    pub label: String,
    pub description: String,
    pub supports_search: bool,
    pub takes_rules: bool,
}

/// A set of reply settings that can be chosen together.
#[derive(Debug)]
pub struct PresetFacts {
    pub label: String,
    pub description: String,
    pub reply_activity: ReplyActivity,
    pub thank_gifts: bool,
    pub thank_likes: bool,
    pub thank_follows: bool,
    pub thank_shares: bool,
    pub mention_sender: bool,
    pub web_search: bool,
    pub repair_blocked: bool,
    pub host_priority: bool,
    pub muted_support: bool,
}

/// A theme by its identifier and its name.
#[derive(Debug)]
pub struct ThemeFacts {
    pub id: String,
    pub name: String,
}

/// What the panel reads of the rest of the program.
pub struct Facts {
    /// The session reaches nothing outside the machine.
    pub local: bool,
    pub account_status: AccountStatus,
    pub assistant_label: String,
    pub login_pending: bool,
    pub has_independent: bool,
    pub room: Option<RoomSnapshot>,
    pub room_id: String,
    pub obs: Option<ObsFacts>,
    pub obs_error: Option<String>,
    pub settings: AssistantSettings,
    pub saved_settings: bool,
    pub running: bool,
    pub resume_pending: bool,
    pub has_context: bool,
    pub in_flight: bool,
    pub needs_rebuild: bool,
    pub setting_pending: bool,
    pub configuring: bool,
    pub repairing: bool,
    pub repair_result: Option<String>,
    pub connected: bool,
    pub has_session: bool,
    pub options: Option<Vec<OptionFacts>>,
    pub tool_mode: Option<ModeFacts>,
    pub sending_enabled: bool,
    pub candidates: usize,
    /// Why the candidate on the screen cannot be sent, where it cannot.
    pub approval_problem: Option<String>,
    pub themes: Vec<ThemeFacts>,
    pub theme_name: String,
    pub selected_theme: String,
    pub hosts: Vec<HostFacts>,
    pub presets: Vec<PresetFacts>,
    pub effective_activity: ReplyActivity,
    pub activity_labels: (String, String, String),
    pub persona_labels: (String, String),
    pub source_description: String,
    pub topic: String,
    pub topic_override: Option<String>,
    pub strategy_label: String,
    pub workspace: Result<String, String>,
    pub workspace_status: WorkspaceStatus,
    pub workspace_note: String,
    pub profile_summary: String,
    pub history_idle_seconds: u32,
    pub layout_chat: bool,
    pub show_name: bool,
    pub show_time: bool,
}

#[derive(Clone, Copy, Debug, PartialEq, Eq, Structural)]
pub enum WorkspaceStatus {
    Unread,
    Pending,
    Loaded,
    Error,
}

/// The pages that the tabulator key goes through, in their order.
pub open spec fn settings_pages() -> Seq<Page> {
    seq![Page::Reading, Page::Account, Page::Obs, Page::AiSettings, Page::System]
}

/// The place of a page among those, or their number.
pub open spec fn settings_index(page: Page) -> int {
    match page {
        Page::Reading => 0,
        Page::Account => 1,
        Page::Obs => 2,
        Page::AiSettings => 3,
        Page::System => 4,
        _ => 5,
    }
}

pub open spec fn in_settings(page: Page) -> bool {
    settings_index(page) < 5
}

pub fn is_settings_page(page: Page) -> (r: bool)
    ensures
        r == in_settings(page),
        r ==> settings_pages()[settings_index(page)] == page,
{
    match page {
        Page::Reading | Page::Account | Page::Obs | Page::AiSettings | Page::System => true,
        _ => false,
    }
}

/// The next page for the tabulator key, or the one before.
pub open spec fn next_settings_page(page: Page, forward: bool) -> Page {
    settings_pages()[(settings_index(page) + if forward {
        1int
    } else {
        4
    }) % 5]
}

pub fn step_settings_page(page: Page, forward: bool) -> (r: Page)
    requires
        in_settings(page),
    ensures
        r == next_settings_page(page, forward),
{
    if forward {
        match page {
            Page::Reading => Page::Account,
            Page::Account => Page::Obs,
            Page::Obs => Page::AiSettings,
            Page::AiSettings => Page::System,
            _ => Page::Reading,
        }
    } else {
        match page {
            Page::Reading => Page::System,
            Page::Account => Page::Reading,
            Page::Obs => Page::Account,
            Page::AiSettings => Page::Obs,
            _ => Page::AiSettings,
        }
    }
}

/// The tabulator key goes around the settings pages: forward and back again is where it began,
/// and five steps forward too.
pub proof fn law_tab_goes_around_the_settings(page: Page)
    requires
        in_settings(page),
    ensures
        in_settings(next_settings_page(page, true)),
        next_settings_page(next_settings_page(page, true), false) == page,
        next_settings_page(next_settings_page(page, false), true) == page,
{
}

/// The rows of the account page.
pub open spec fn account_rows(facts: Facts) -> Seq<Row> {
    let signed_in = facts.account_status is SignedIn;
    seq![
        Row::Group(Group::Room),
        Row::Edit(Field::External(ExternalField::RoomTitle)),
        Row::Edit(Field::External(ExternalField::RoomCover)),
        Row::Group(Group::Manual),
        if signed_in {
            Row::Logout
        } else {
            Row::Login
        },
        Row::Group(Group::AiSending),
    ] + (if signed_in {
        seq![Row::ReuseMain]
    } else {
        Seq::empty()
    }) + seq![Row::AssistantLogin] + (if facts.login_pending {
        seq![Row::CancelAssistantLogin]
    } else {
        Seq::empty()
    }) + (if facts.has_independent {
        seq![Row::SignOutIndependent]
    } else {
        Seq::empty()
    })
}

/// How many options the assistant tool reports.
pub open spec fn option_count(facts: Facts) -> nat {
    match facts.options {
        Some(options) => options@.len(),
        None => if facts.tool_mode is Some {
            1
        } else {
            0
        },
    }
}

/// The rows of a fold of the advanced page.
pub open spec fn advanced_rows(group: u8) -> Seq<Row> {
    if group == 0 {
        seq![
            Row::DefaultSource,
            Row::Edit(Field::Profile),
            Row::Edit(Field::Prompt),
            Row::Edit(Field::Skills),
            Row::Edit(Field::BlockedWords),
            Row::Switch(Switch::RepairBlocked),
            Row::Edit(Field::Binary),
        ]
    } else if group == 1 {
        seq![
            Row::Switch(Switch::HostPriority),
            Row::Switch(Switch::MutedSupport),
            Row::DynamicStrategy,
        ]
    } else {
        seq![Row::Visible, Row::Context, Row::Stop]
    }
}

/// A fold of the advanced page with its rows, where it is open.
pub open spec fn advanced_fold(group: u8, open: Option<u8>) -> Seq<Row> {
    seq![Row::AdvancedGroup(group)] + (if open == Some(group) {
        advanced_rows(group)
    } else {
        Seq::empty()
    })
}

/// The rows of a page.
pub open spec fn page_rows(panel: Panel, facts: Facts) -> Seq<Row> {
    match panel.page {
        Page::Home => seq![
            Row::Action(Action::Run),
            Row::Permission,
            Row::Page(Page::ReplyRange { scene: true }),
            Row::Edit(Field::Topic),
            Row::Action(Action::Review),
            Row::Page(Page::Settings),
        ],
        Page::Settings => seq![
            Row::Group(Group::Settings),
            Row::Page(Page::Reading),
            Row::Page(Page::Account),
            Row::Page(Page::Obs),
            Row::Page(Page::AiSettings),
            Row::Page(Page::System),
            Row::Group(Group::Operations),
            Row::Page(Page::Home),
            Row::Command(MenuCommand::Pin),
            Row::Edit(Field::ArchiveSearch),
            Row::Command(MenuCommand::Commands),
            Row::Command(MenuCommand::Quit),
        ],
        Page::AiSettings => seq![
            Row::Edit(Field::Workspace),
            Row::Page(Page::Models),
            Row::Page(Page::Assistant),
            Row::Page(Page::Materials),
            Row::Page(Page::Advanced),
            Row::Group(Group::Scene),
            Row::Page(Page::Home),
            Row::Page(Page::Account),
        ],
        Page::Obs => seq![
            Row::Group(Group::Connection),
            Row::Edit(Field::External(ExternalField::ObsHost)),
            Row::Edit(Field::External(ExternalField::ObsPort)),
            Row::Command(MenuCommand::ObsPassword),
            Row::Edit(Field::External(ExternalField::ObsMicrophone)),
            Row::Command(MenuCommand::ObsConnect),
            Row::Group(Group::Control),
            Row::Edit(Field::External(ExternalField::ObsScene)),
            Row::Command(MenuCommand::Mute),
            Row::Command(MenuCommand::Unmute),
            Row::Command(MenuCommand::ObsStart),
            Row::Command(MenuCommand::ObsStop),
        ],
        Page::System => seq![
            Row::Page(Page::About),
            Row::Page(Page::Diagnostics),
            Row::RepairHistory,
            Row::Command(MenuCommand::Help),
        ],
        Page::About => Seq::empty(),
        Page::Reading => seq![
            Row::Page(Page::Themes),
            Row::Layout,
            Row::Usernames,
            Row::Timestamps,
            Row::Edit(Field::HistorySeconds),
        ],
        Page::Account => account_rows(facts),
        Page::Models => seq![Row::Page(Page::Agents)] + (if facts.connected {
            Seq::new(option_count(facts), |i: int| Row::Option(i as usize))
        } else {
            seq![Row::ConnectOptions]
        }),
        Page::Assistant => seq![
            Row::Page(Page::Presets),
            Row::ReplyActivity,
            Row::Edit(Field::Preferences),
            Row::WebSearch,
            Row::Switch(Switch::MentionSender),
            Row::ToggleThanks,
        ] + (if panel.thanks_expanded {
            seq![
                Row::Switch(Switch::ThankGifts),
                Row::Switch(Switch::ThankLikes),
                Row::Switch(Switch::ThankFollows),
                Row::Switch(Switch::ThankShares),
            ]
        } else {
            Seq::empty()
        }),
        Page::Materials => seq![
            Row::Edit(Field::Name),
            Row::Persona,
            Row::Switch(Switch::UseProfile),
            Row::Switch(Switch::UseProject),
        ],
        Page::Advanced => advanced_fold(0, panel.advanced_group) + advanced_fold(
            1,
            panel.advanced_group,
        ) + advanced_fold(2, panel.advanced_group),
        Page::ReplyRange { scene } => seq![
            Row::Activity { activity: ReplyActivity::Cautious, scene },
            Row::Activity { activity: ReplyActivity::Balanced, scene },
            Row::Activity { activity: ReplyActivity::Active, scene },
        ],
        Page::Themes => Seq::new(facts.themes@.len(), |i: int| Row::Theme(i as usize)).push(
            Row::ReloadThemes,
        ),
        Page::Presets => Seq::new(facts.presets@.len(), |i: int| Row::Preset(i as usize)),
        Page::Agents => Seq::new(
            panel.discovered@.len(),
            |i: int| Row::Host(panel.discovered@[i].host),
        ),
        Page::More => seq![
            Row::Page(Page::Obs),
            Row::Command(MenuCommand::Diag),
            Row::Command(MenuCommand::Help),
            Row::Command(MenuCommand::Quit),
        ],
        Page::Candidates => if facts.candidates == 0 {
            Seq::empty()
        } else {
            seq![
                Row::Action(Action::ApproveCandidate),
                Row::Action(Action::EditCandidate),
                Row::Action(Action::DiscardCandidate),
                Row::Action(Action::NextCandidate),
            ]
        },
        Page::Diagnostics => seq![Row::RepairHistory],
    }
}

/// Why a row cannot be used now, where it cannot.
pub open spec fn readonly_text(row: Row, facts: Facts) -> Option<Seq<char>> {
    match row {
        Row::Edit(Field::External(field)) => if facts.local {
            Some("本地模式禁止真实账号与OBS操作"@)
        } else if !commands::field_is_obs(field) && !(facts.account_status is SignedIn) {
            Some("请先登录直播间所属B站主账号"@)
        } else {
            None
        },
        Row::Command(command) => if commands::is_obs_command(menu_raw(command)@) && facts.local {
            Some("本地模式禁止OBS操作"@)
        } else {
            None
        },
        Row::Action(Action::ApproveCandidate) => text::opt_view(facts.approval_problem),
        Row::Action(Action::Run) => None,
        Row::Action(_) => if facts.candidates == 0 {
            Some("暂无待审回复"@)
        } else {
            None
        },
        Row::Group(_) | Row::DynamicStrategy => Some("只读信息"@),
        Row::Edit(field) => if (field is Profile || field is Prompt) && !host_takes_rules(facts) {
            Some("当前工具不支持此规则来源"@)
        } else {
            None
        },
        Row::RepairHistory => if facts.repairing {
            Some("重建中"@)
        } else {
            None
        },
        Row::WebSearch => if !facts.settings.web_search && !host_searches(facts) {
            Some("当前工具不支持联网搜索"@)
        } else {
            None
        },
        Row::Login | Row::Logout | Row::AssistantLogin => if facts.local {
            Some("本地模式禁止真实账号操作"@)
        } else {
            None
        },
        Row::CancelAssistantLogin => if !facts.login_pending {
            Some("没有待取消的扫码"@)
        } else {
            None
        },
        Row::Preset(_) => if facts.running {
            Some("请先暂停 AI"@)
        } else if facts.in_flight {
            Some("等待当前回复结束"@)
        } else {
            None
        },
        Row::Option(_) => if facts.setting_pending || facts.configuring {
            Some("设置中"@)
        } else {
            None
        },
        _ => None,
    }
}

/// Whether the chosen tool takes rules from a profile or a file.
pub open spec fn host_takes_rules(facts: Facts) -> bool {
    facts.settings.host < facts.hosts@.len()
        && facts.hosts@[facts.settings.host as int].takes_rules
}

/// Whether the chosen tool can search the network.
pub open spec fn host_searches(facts: Facts) -> bool {
    facts.settings.host < facts.hosts@.len()
        && facts.hosts@[facts.settings.host as int].supports_search
}

impl Facts {
    pub fn takes_rules(&self) -> (r: bool)
        ensures
            r == host_takes_rules(*self),
    {
        self.settings.host < self.hosts.len() && self.hosts[self.settings.host].takes_rules
    }

    pub fn searches(&self) -> (r: bool)
        ensures
            r == host_searches(*self),
    {
        self.settings.host < self.hosts.len() && self.hosts[self.settings.host].supports_search
    }

    pub fn option_count(&self) -> (r: usize)
        ensures
            r == option_count(*self),
    {
        match &self.options {
            Some(options) => options.len(),
            None => if self.tool_mode.is_some() {
                1
            } else {
                0
            },
        }
    }
}

/// Why a row cannot be used now, where it cannot.
pub fn readonly_reason(row: Row, facts: &Facts) -> (r: Option<String>)
    ensures
        text::opt_view(r) == readonly_text(row, *facts),
{
    match row {
        Row::Edit(Field::External(field)) => if facts.local {
            Some("本地模式禁止真实账号与OBS操作".to_owned())
        } else if !field.is_obs() && !facts.account_status.is_signed_in() {
            Some("请先登录直播间所属B站主账号".to_owned())
        } else {
            None
        },
        Row::Command(command) => if commands::obs_command(command.raw()) && facts.local {
            Some("本地模式禁止OBS操作".to_owned())
        } else {
            None
        },
        Row::Action(Action::ApproveCandidate) => match &facts.approval_problem {
            Some(problem) => Some(problem.clone()),
            None => None,
        },
        Row::Action(Action::Run) => None,
        Row::Action(_) => if facts.candidates == 0 {
            Some("暂无待审回复".to_owned())
        } else {
            None
        },
        Row::Group(_) | Row::DynamicStrategy => Some("只读信息".to_owned()),
        Row::Edit(field) => {
            let rules: bool = match field {
                Field::Profile | Field::Prompt => true,
                _ => false,
            };
            if rules && !facts.takes_rules() {
                Some("当前工具不支持此规则来源".to_owned())
            } else {
                None
            }
        },
        Row::RepairHistory => if facts.repairing {
            Some("重建中".to_owned())
        } else {
            None
        },
        Row::WebSearch => if !facts.settings.web_search && !facts.searches() {
            Some("当前工具不支持联网搜索".to_owned())
        } else {
            None
        },
        Row::Login | Row::Logout | Row::AssistantLogin => if facts.local {
            Some("本地模式禁止真实账号操作".to_owned())
        } else {
            None
        },
        Row::CancelAssistantLogin => if !facts.login_pending {
            Some("没有待取消的扫码".to_owned())
        } else {
            None
        },
        Row::Preset(_) => if facts.running {
            Some("请先暂停 AI".to_owned())
        } else if facts.in_flight {
            Some("等待当前回复结束".to_owned())
        } else {
            None
        },
        Row::Option(_) => if facts.setting_pending || facts.configuring {
            Some("设置中".to_owned())
        } else {
            None
        },
        _ => None,
    }
}

/// In a local session nothing on the panel that reaches outside the machine can be used.
pub proof fn law_local_panels_reach_nothing_outside(row: Row, facts: Facts)
    requires
        facts.local,
        (row matches Row::Edit(Field::External(_))) || row is Login || row is Logout
            || row is AssistantLogin || (row matches Row::Command(command)
            && commands::is_obs_command(menu_raw(command)@)),
    ensures
        readonly_text(row, facts) is Some,
{
}

impl Panel {
    pub open spec fn wf(self) -> bool {
        &&& match self.editor {
            Some((_, input)) => input.wf(),
            None => true,
        }
        &&& self.choices is Some ==> self.choices->0.selected < self.choices->0.values@.len()
    }

    /// The place where the panel stands.
    pub open spec fn place(self) -> HistoryEntry {
        HistoryEntry {
            page: self.page,
            row: self.row,
            scroll: self.scroll,
            list_offset: self.list_offset,
            expanded: self.expanded,
            thanks_expanded: self.thanks_expanded,
            advanced_group: self.advanced_group,
        }
    }

    /// The panel at another place.
    pub open spec fn at(self, place: HistoryEntry) -> Panel {
        Panel {
            page: place.page,
            row: place.row,
            scroll: place.scroll,
            list_offset: place.list_offset,
            expanded: place.expanded,
            thanks_expanded: place.thanks_expanded,
            advanced_group: place.advanced_group,
            ..self
        }
    }

    pub fn new() -> (r: Self)
        ensures
            r.wf(),
            r.place() == (HistoryEntry {
                page: Page::Home,
                row: 0,
                scroll: 0,
                list_offset: 0,
                expanded: false,
                thanks_expanded: false,
                advanced_group: None,
            }),
            r.editor is None,
            r.choices is None,
            r.discovered@.len() == 0,
            r.error is None,
            r.history@.len() == 0,
            r.menu_height == 5,
            r.pending_save is None,
            r.obs_configuration is None,
    {
        Panel {
            page: Page::Home,
            row: 0,
            editor: None,
            choices: None,
            discovered: Vec::new(),
            error: None,
            scroll: 0,
            history: Vec::new(),
            list_offset: 0,
            menu_height: 5,
            expanded: false,
            thanks_expanded: false,
            advanced_group: None,
            pending_save: None,
            obs_configuration: None,
        }
    }

    /// The place that a page is entered at.
    pub open spec fn entry_of(self, page: Page) -> HistoryEntry {
        HistoryEntry {
            page,
            row: 0,
            scroll: 0,
            list_offset: 0,
            expanded: page is Diagnostics || page is About,
            ..self.place()
        }
    }

    /// Goes to another page, and remembers the way back.
    pub fn navigate(&mut self, page: Page)
        ensures
            final(self).history@ == old(self).history@.push(old(self).place()),
            *final(self) == (Panel { error: None, history: final(self).history, ..*old(self) }).at(
                old(self).entry_of(page),
            ),
    {
        self.history.push(
            HistoryEntry {
                page: self.page,
                row: self.row,
                scroll: self.scroll,
                list_offset: self.list_offset,
                expanded: self.expanded,
                thanks_expanded: self.thanks_expanded,
                advanced_group: self.advanced_group,
            },
        );
        self.page = page;
        self.row = 0;
        self.list_offset = 0;
        self.scroll = 0;
        self.expanded = match page {
            Page::Diagnostics | Page::About => true,
            _ => false,
        };
        self.error = None;
    }

    /// Goes back to the page before. The answer says that there is none, and the panel closes.
    pub fn back(&mut self) -> (r: bool)
        ensures
            r == (old(self).history@.len() == 0),
            r ==> *final(self) == *old(self),
            !r ==> {
                &&& final(self).history@ == old(self).history@.drop_last()
                &&& *final(self) == (Panel {
                    error: None,
                    history: final(self).history,
                    ..*old(self)
                }).at(old(self).history@.last())
            },
    {
        if self.history.len() == 0 {
            return true;
        }
        match self.history.pop() {
            None => true,
            Some(place) => {
                self.page = place.page;
                self.row = place.row;
                self.scroll = place.scroll;
                self.list_offset = place.list_offset;
                self.expanded = place.expanded;
                self.thanks_expanded = place.thanks_expanded;
                self.advanced_group = place.advanced_group;
                self.error = None;
                false
            },
        }
    }

    /// The panel stands within the settings.
    pub open spec fn within_settings(self) -> bool {
        self.page == Page::Settings || exists|i: int|
            0 <= i < self.history@.len() && (#[trigger] self.history@[i]).page == Page::Settings
    }

    pub fn is_settings(&self) -> (r: bool)
        ensures
            r == self.within_settings(),
    {
        if matches!(self.page, Page::Settings) {
            return true;
        }
        let mut i: usize = 0;
        while i < self.history.len()
            invariant
                i <= self.history@.len(),
                forall|k: int| 0 <= k < i ==> (#[trigger] self.history@[k]).page != Page::Settings,
            decreases self.history@.len() - i,
        {
            if matches!(self.history[i].page, Page::Settings) {
                proof {
                    assert(self.history@[i as int].page == Page::Settings);
                }
                return true;
            }
            i = i + 1;
        }
        false
    }

    pub fn is_editing(&self) -> (r: bool)
        ensures
            r == self.editor is Some,
    {
        self.editor.is_some()
    }

    fn account_rows(facts: &Facts) -> (r: Vec<Row>)
        ensures
            r@ == account_rows(*facts),
    {
        let signed_in: bool = facts.account_status.is_signed_in();
        let mut rows: Vec<Row> = Vec::new();
        rows.push(Row::Group(Group::Room));
        rows.push(Row::Edit(Field::External(ExternalField::RoomTitle)));
        rows.push(Row::Edit(Field::External(ExternalField::RoomCover)));
        rows.push(Row::Group(Group::Manual));
        if signed_in {
            rows.push(Row::Logout);
        } else {
            rows.push(Row::Login);
        }
        rows.push(Row::Group(Group::AiSending));
        if signed_in {
            rows.push(Row::ReuseMain);
        }
        rows.push(Row::AssistantLogin);
        if facts.login_pending {
            rows.push(Row::CancelAssistantLogin);
        }
        if facts.has_independent {
            rows.push(Row::SignOutIndependent);
        }
        proof {
            assert(rows@ =~= account_rows(*facts));
        }
        rows
    }

    fn push_fold(rows: &mut Vec<Row>, group: u8, open: Option<u8>)
        requires
            group < 3,
        ensures
            final(rows)@ == old(rows)@ + advanced_fold(group, open),
    {
        let ghost before = rows@;
        rows.push(Row::AdvancedGroup(group));
        let is_open: bool = match open {
            Some(open) => open == group,
            None => false,
        };
        if is_open {
            if group == 0 {
                rows.push(Row::DefaultSource);
                rows.push(Row::Edit(Field::Profile));
                rows.push(Row::Edit(Field::Prompt));
                rows.push(Row::Edit(Field::Skills));
                rows.push(Row::Edit(Field::BlockedWords));
                rows.push(Row::Switch(Switch::RepairBlocked));
                rows.push(Row::Edit(Field::Binary));
            } else if group == 1 {
                rows.push(Row::Switch(Switch::HostPriority));
                rows.push(Row::Switch(Switch::MutedSupport));
                rows.push(Row::DynamicStrategy);
            } else {
                rows.push(Row::Visible);
                rows.push(Row::Context);
                rows.push(Row::Stop);
            }
        }
        proof {
            assert(rows@ =~= before + advanced_fold(group, open));
        }
    }

    fn page_list(page: Page) -> (r: Vec<Row>)
        requires
            page is Home || page is Settings || page is AiSettings || page is Obs || page is System
                || page is About || page is Reading || page is Materials || page is More
                || page is Diagnostics || page is ReplyRange,
        ensures
            forall|panel: Panel, facts: Facts|
                panel.page == page ==> #[trigger] page_rows(panel, facts) == r@,
    {
        let rows: Vec<Row> = match page {
            Page::Home => vec![
                Row::Action(Action::Run),
                Row::Permission,
                Row::Page(Page::ReplyRange { scene: true }),
                Row::Edit(Field::Topic),
                Row::Action(Action::Review),
                Row::Page(Page::Settings),
            ],
            Page::Settings => vec![
                Row::Group(Group::Settings),
                Row::Page(Page::Reading),
                Row::Page(Page::Account),
                Row::Page(Page::Obs),
                Row::Page(Page::AiSettings),
                Row::Page(Page::System),
                Row::Group(Group::Operations),
                Row::Page(Page::Home),
                Row::Command(MenuCommand::Pin),
                Row::Edit(Field::ArchiveSearch),
                Row::Command(MenuCommand::Commands),
                Row::Command(MenuCommand::Quit),
            ],
            Page::AiSettings => vec![
                Row::Edit(Field::Workspace),
                Row::Page(Page::Models),
                Row::Page(Page::Assistant),
                Row::Page(Page::Materials),
                Row::Page(Page::Advanced),
                Row::Group(Group::Scene),
                Row::Page(Page::Home),
                Row::Page(Page::Account),
            ],
            Page::Obs => vec![
                Row::Group(Group::Connection),
                Row::Edit(Field::External(ExternalField::ObsHost)),
                Row::Edit(Field::External(ExternalField::ObsPort)),
                Row::Command(MenuCommand::ObsPassword),
                Row::Edit(Field::External(ExternalField::ObsMicrophone)),
                Row::Command(MenuCommand::ObsConnect),
                Row::Group(Group::Control),
                Row::Edit(Field::External(ExternalField::ObsScene)),
                Row::Command(MenuCommand::Mute),
                Row::Command(MenuCommand::Unmute),
                Row::Command(MenuCommand::ObsStart),
                Row::Command(MenuCommand::ObsStop),
            ],
            Page::System => vec![
                Row::Page(Page::About),
                Row::Page(Page::Diagnostics),
                Row::RepairHistory,
                Row::Command(MenuCommand::Help),
            ],
            Page::Reading => vec![
                Row::Page(Page::Themes),
                Row::Layout,
                Row::Usernames,
                Row::Timestamps,
                Row::Edit(Field::HistorySeconds),
            ],
            Page::Materials => vec![
                Row::Edit(Field::Name),
                Row::Persona,
                Row::Switch(Switch::UseProfile),
                Row::Switch(Switch::UseProject),
            ],
            Page::More => vec![
                Row::Page(Page::Obs),
                Row::Command(MenuCommand::Diag),
                Row::Command(MenuCommand::Help),
                Row::Command(MenuCommand::Quit),
            ],
            Page::Diagnostics => vec![Row::RepairHistory],
            Page::ReplyRange { scene } => vec![
                Row::Activity { activity: ReplyActivity::Cautious, scene },
                Row::Activity { activity: ReplyActivity::Balanced, scene },
                Row::Activity { activity: ReplyActivity::Active, scene },
            ],
            _ => Vec::new(),
        };
        proof {
            assert forall|panel: Panel, facts: Facts| panel.page == page implies #[trigger]
            page_rows(panel, facts) == rows@ by {
                assert(page_rows(panel, facts) =~= rows@);
            }
        }
        rows
    }

    /// The rows of the page.
    pub fn rows(&self, facts: &Facts) -> (r: Vec<Row>)
        ensures
            r@ == page_rows(*self, *facts),
    {
        match self.page {
            Page::Account => Panel::account_rows(facts),
            Page::Models => {
                let mut rows: Vec<Row> = Vec::new();
                rows.push(Row::Page(Page::Agents));
                if !facts.connected {
                    rows.push(Row::ConnectOptions);
                } else {
                    let count: usize = facts.option_count();
                    let mut i: usize = 0;
                    while i < count
                        invariant
                            i <= count == option_count(*facts),
                            rows@ == seq![Row::Page(Page::Agents)] + Seq::new(
                                i as nat,
                                |k: int| Row::Option(k as usize),
                            ),
                        decreases count - i,
                    {
                        rows.push(Row::Option(i));
                        i = i + 1;
                        proof {
                            assert(rows@ =~= seq![Row::Page(Page::Agents)] + Seq::new(
                                i as nat,
                                |k: int| Row::Option(k as usize),
                            ));
                        }
                    }
                }
                proof {
                    assert(rows@ =~= page_rows(*self, *facts));
                }
                rows
            },
            Page::Assistant => {
                let mut rows: Vec<Row> = vec![
                    Row::Page(Page::Presets),
                    Row::ReplyActivity,
                    Row::Edit(Field::Preferences),
                    Row::WebSearch,
                    Row::Switch(Switch::MentionSender),
                    Row::ToggleThanks,
                ];
                if self.thanks_expanded {
                    rows.push(Row::Switch(Switch::ThankGifts));
                    rows.push(Row::Switch(Switch::ThankLikes));
                    rows.push(Row::Switch(Switch::ThankFollows));
                    rows.push(Row::Switch(Switch::ThankShares));
                }
                proof {
                    assert(rows@ =~= page_rows(*self, *facts));
                }
                rows
            },
            Page::Advanced => {
                let mut rows: Vec<Row> = Vec::new();
                Panel::push_fold(&mut rows, 0, self.advanced_group);
                Panel::push_fold(&mut rows, 1, self.advanced_group);
                Panel::push_fold(&mut rows, 2, self.advanced_group);
                proof {
                    assert(rows@ =~= page_rows(*self, *facts));
                }
                rows
            },
            Page::Themes => {
                let mut rows: Vec<Row> = Vec::new();
                let mut i: usize = 0;
                while i < facts.themes.len()
                    invariant
                        i <= facts.themes@.len(),
                        rows@ == Seq::new(i as nat, |k: int| Row::Theme(k as usize)),
                    decreases facts.themes@.len() - i,
                {
                    rows.push(Row::Theme(i));
                    i = i + 1;
                    proof {
                        assert(rows@ =~= Seq::new(i as nat, |k: int| Row::Theme(k as usize)));
                    }
                }
                rows.push(Row::ReloadThemes);
                rows
            },
            Page::Presets => {
                let mut rows: Vec<Row> = Vec::new();
                let mut i: usize = 0;
                while i < facts.presets.len()
                    invariant
                        i <= facts.presets@.len(),
                        rows@ == Seq::new(i as nat, |k: int| Row::Preset(k as usize)),
                    decreases facts.presets@.len() - i,
                {
                    rows.push(Row::Preset(i));
                    i = i + 1;
                    proof {
                        assert(rows@ =~= Seq::new(i as nat, |k: int| Row::Preset(k as usize)));
                    }
                }
                rows
            },
            Page::Agents => {
                let mut rows: Vec<Row> = Vec::new();
                let mut i: usize = 0;
                while i < self.discovered.len()
                    invariant
                        i <= self.discovered@.len(),
                        rows@ == Seq::new(
                            i as nat,
                            |k: int| Row::Host(self.discovered@[k].host),
                        ),
                    decreases self.discovered@.len() - i,
                {
                    rows.push(Row::Host(self.discovered[i].host));
                    i = i + 1;
                    proof {
                        assert(rows@ =~= Seq::new(
                            i as nat,
                            |k: int| Row::Host(self.discovered@[k].host),
                        ));
                    }
                }
                rows
            },
            Page::Candidates => {
                let mut rows: Vec<Row> = Vec::new();
                if facts.candidates != 0 {
                    rows.push(Row::Action(Action::ApproveCandidate));
                    rows.push(Row::Action(Action::EditCandidate));
                    rows.push(Row::Action(Action::DiscardCandidate));
                    rows.push(Row::Action(Action::NextCandidate));
                }
                proof {
                    assert(rows@ =~= page_rows(*self, *facts));
                }
                rows
            },
            page => Panel::page_list(page),
        }
    }
}

/// Going to a page and back is where one was, with the row, the fold and the scroll as they were.
pub proof fn law_back_undoes_navigation(panel: Panel, page: Page, there: Panel, again: Panel)
    requires
        there.history@ == panel.history@.push(panel.place()),
        there == (Panel { error: None, history: there.history, ..panel }).at(panel.entry_of(page)),
        again.history@ == there.history@.drop_last(),
        again == (Panel { error: None, history: again.history, ..there }).at(there.history@.last()),
    ensures
        again.place() == panel.place(),
        again.history@ == panel.history@,
{
    assert(again.history@ =~= panel.history@);
}

/// Only one fold of the advanced page is open at a time.
pub proof fn law_one_advanced_fold_is_open(panel: Panel, facts: Facts, open: u8)
    requires
        panel.page == Page::Advanced,
        panel.advanced_group == Some(open),
        open < 3,
    ensures
        page_rows(panel, facts).len() == 3 + advanced_rows(open).len(),
        open != 0 ==> !page_rows(panel, facts).contains(Row::Edit(Field::Profile)),
{
    let rows = page_rows(panel, facts);
    if open != 0 {
        assert forall|i: int| 0 <= i < rows.len() implies rows[i] != Row::Edit(Field::Profile) by {
            if open == 1 {
                assert(rows =~= seq![
                    Row::AdvancedGroup(0),
                    Row::AdvancedGroup(1),
                    Row::Switch(Switch::HostPriority),
                    Row::Switch(Switch::MutedSupport),
                    Row::DynamicStrategy,
                    Row::AdvancedGroup(2),
                ]);
            } else {
                assert(rows =~= seq![
                    Row::AdvancedGroup(0),
                    Row::AdvancedGroup(1),
                    Row::AdvancedGroup(2),
                    Row::Visible,
                    Row::Context,
                    Row::Stop,
                ]);
            }
        }
    }
}

/// A row can be used unless it is only a heading, what it needs is missing, or the session may not
/// reach what it is about.
pub proof fn law_rows_are_locked_for_a_reason(row: Row, facts: Facts)
    ensures
        row is Group ==> readonly_text(row, facts) is Some,
        row matches Row::Edit(Field::External(field)) ==> (readonly_text(row, facts) is Some
            <==> facts.local || ((field is RoomTitle || field is RoomCover)
            && !(facts.account_status is SignedIn))),
        row is Login || row is Logout || row is AssistantLogin ==> (readonly_text(row, facts)
            is Some <==> facts.local),
        row == Row::Action(Action::Run) ==> readonly_text(row, facts) is None,
        row == Row::Action(Action::ApproveCandidate) ==> (readonly_text(row, facts) is Some
            <==> facts.approval_problem is Some),
        row == Row::Action(Action::DiscardCandidate) || row == Row::Action(Action::EditCandidate)
            || row == Row::Action(Action::DiscardAllCandidates) || row == Row::Action(
            Action::ApproveAllCandidates,
        ) ==> (readonly_text(row, facts) is Some <==> facts.candidates == 0),
        row is Preset ==> (readonly_text(row, facts) is Some <==> facts.running || facts.in_flight),
        row is Option ==> (readonly_text(row, facts) is Some <==> facts.setting_pending
            || facts.configuring),
        row is RepairHistory ==> (readonly_text(row, facts) is Some <==> facts.repairing),
        row is Switch || row is Layout || row is Usernames || row is Timestamps || row is Persona
            || row is Page || row is Stop || row is Theme ==> readonly_text(row, facts) is None,
        row is WebSearch && facts.settings.web_search ==> readonly_text(row, facts) is None,
{
}

/// The rows of an account are those that make sense for it: signing out for who is signed in,
/// signing in for who is not, and cancelling and signing out an account of the assistant only where
/// there is such a thing.
pub proof fn law_account_rows_fit_the_account(facts: Facts, row: Row)
    requires
        account_rows(facts).contains(row),
    ensures
        row is Logout ==> facts.account_status is SignedIn,
        row is Login ==> !(facts.account_status is SignedIn),
        row is ReuseMain ==> facts.account_status is SignedIn,
        row is CancelAssistantLogin ==> facts.login_pending,
        row is SignOutIndependent ==> facts.has_independent,
{
}

/// What a panel of replies, of the range of replies, of themes or of presets lists is what there is.
pub proof fn law_lists_show_what_there_is(panel: Panel, facts: Facts)
    ensures
        panel.page == Page::Candidates ==> (page_rows(panel, facts).len() == 0 <==> facts.candidates
            == 0),
        panel.page == Page::Presets ==> page_rows(panel, facts).len() == facts.presets@.len(),
        panel.page == Page::Themes ==> page_rows(panel, facts).len() == facts.themes@.len() + 1
            && page_rows(panel, facts).last() == Row::ReloadThemes,
        panel.page == Page::Agents ==> page_rows(panel, facts).len() == panel.discovered@.len(),
        panel.page == Page::Agents ==> forall|i: int|
            0 <= i < panel.discovered@.len() ==> #[trigger] page_rows(panel, facts)[i] == Row::Host(
                panel.discovered@[i].host,
            ),
{
}

/// The switch of a setting shows that setting.
pub proof fn law_switches_show_their_setting(settings: Switches)
    ensures
        switch_on(settings, Switch::UseProfile) == settings.use_profile,
        switch_on(settings, Switch::UseProject) == settings.use_project,
        switch_on(settings, Switch::ThankGifts) == settings.thank_gifts,
        switch_on(settings, Switch::ThankLikes) == settings.thank_likes,
        switch_on(settings, Switch::ThankFollows) == settings.thank_follows,
        switch_on(settings, Switch::ThankShares) == settings.thank_shares,
        switch_on(settings, Switch::MentionSender) == settings.mention_sender,
        switch_on(settings, Switch::RepairBlocked) == settings.repair_blocked,
        switch_on(settings, Switch::HostPriority) == settings.host_priority,
        switch_on(settings, Switch::MutedSupport) == settings.muted_support,
{
}

/// A command of the menu is the typed command that it stands for.
pub proof fn law_menu_commands_are_typed_commands(command: MenuCommand)
    ensures
        ({
            let parsed = commands::parsed(menu_raw(command)@, false);
            &&& command == MenuCommand::Mute ==> parsed == (commands::CommandView::Microphone {
                muted: true,
            })
            &&& command == MenuCommand::Unmute ==> parsed == (commands::CommandView::Microphone {
                muted: false,
            })
            &&& command == MenuCommand::Pin ==> parsed is Pin
            &&& command == MenuCommand::Commands ==> parsed is Commands
            &&& command == MenuCommand::Quit ==> parsed is Quit
            &&& command == MenuCommand::Help ==> parsed is Help
            &&& command == MenuCommand::Diag ==> parsed is Diagnostics
        }),
{
    let raw = menu_raw(command)@;
    reveal_strlit("/mute");
    reveal_strlit("/unmute");
    reveal_strlit("/pin");
    reveal_strlit("/commands");
    reveal_strlit("/quit");
    reveal_strlit("/help");
    reveal_strlit("/diag");
    let none = Seq::<char>::empty();
    if command is Mute || command is Unmute || command is Pin || command is Commands || command
        is Quit || command is Help || command is Diag {
        assert(none + raw + none =~= raw);
        assert forall|i: int| 0 <= i < raw.len() implies !text::is_whitespace(
            #[trigger] raw[i],
        ) by {}
        assert(text::is_blank(none));
        text::law_words_are_read_off(none, raw, none);
        text::law_white_space_holds_no_words(none);
        assert(text::words_of(raw) =~= seq![raw]);
        commands::law_the_microphone_obeys_its_words(raw);
        commands::law_single_words_have_their_commands(raw);
    }
}

} // verus!
