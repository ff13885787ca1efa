//! What typed commands do.
use vstd::prelude::*;
use vstd::string::*;

use crate::activity;
use crate::app;
use crate::app::TerminalApp;
use crate::commands;
use crate::commands::{AiSection, Command, CommandView};
use crate::desk::{Desk, HelpState, StopFlow};
use crate::input::EditorInput;
use crate::notice::NoticeLevel;
use crate::panel::{Facts, Field, ObsConfiguration, Page, Panel, Row};
use crate::panel_actions;
use crate::panel_edits;
use crate::panel_edits::Display;
use crate::review::Execution;
use crate::segments;
use crate::text;
use crate::unicode;

verus! {

/// What a command asks of the rest of the program.
#[derive(Debug)]
pub enum CommandEffect {
    /// Nothing more is to be done.
    Nothing,
    /// The command failed, and the board says why.
    Failed,
    /// The assistant's page was opened: what it shows is to be read again.
    Refresh,
    Display(Display),
    /// The text that the panel edits is to be saved.
    SaveEditor,
    Start { visible: bool, rebuild: bool },
    Automatic(bool),
    Stop,
    RepairHistory,
    Pause,
    Search(String),
    ObsStatus,
    Microphone { muted: bool },
    ObsStart,
}

pub ghost enum EffectView {
    Nothing,
    Failed,
    Refresh,
    Display(Display),
    SaveEditor,
    Start { visible: bool, rebuild: bool },
    Automatic(bool),
    Stop,
    RepairHistory,
    Pause,
    Search(Seq<char>),
    ObsStatus,
    Microphone { muted: bool },
    ObsStart,
}

impl View for CommandEffect {
    type V = EffectView;

    open spec fn view(&self) -> EffectView {
        match *self {
            CommandEffect::Nothing => EffectView::Nothing,
            CommandEffect::Failed => EffectView::Failed,
            CommandEffect::Refresh => EffectView::Refresh,
            CommandEffect::Display(display) => EffectView::Display(display),
            CommandEffect::SaveEditor => EffectView::SaveEditor,
            CommandEffect::Start { visible, rebuild } => EffectView::Start { visible, rebuild },
            CommandEffect::Automatic(on) => EffectView::Automatic(on),
            CommandEffect::Stop => EffectView::Stop,
            CommandEffect::RepairHistory => EffectView::RepairHistory,
            CommandEffect::Pause => EffectView::Pause,
            CommandEffect::Search(query) => EffectView::Search(query@),
            CommandEffect::ObsStatus => EffectView::ObsStatus,
            CommandEffect::Microphone { muted } => EffectView::Microphone { muted },
            CommandEffect::ObsStart => EffectView::ObsStart,
        }
    }
}

/// The panel may be opened: nothing else waits to be finished.
pub open spec fn may_open(app: TerminalApp) -> bool {
    app.review.edit is None && !app.desk.secret_mode && app.desk.stop_flow is None
        && app.desk.login_qr is None
}

/// The panel was opened at a page, with nothing behind it.
pub open spec fn opened(before: TerminalApp, after: TerminalApp, page: Page, row: usize) -> bool {
    &&& after == (TerminalApp { panel: after.panel, ..before })
    &&& after.panel matches Some(panel) && panel.page == page && panel.row == row
        && panel_edits::is_fresh(panel)
}

/// The board says that something else has to be finished first.
pub open spec fn refused(before: TerminalApp, after: TerminalApp, now: u64) -> bool {
    app::only_said(
        before,
        after,
        "请先完成当前编辑或弹窗；人工草稿保留"@,
        NoticeLevel::Error,
        now,
    )
}

/// The panel was opened at a page, or the board says why not.
pub open spec fn opens(
    before: TerminalApp,
    after: TerminalApp,
    page: Page,
    row: usize,
    effect: EffectView,
    success: EffectView,
    failure: EffectView,
    now: u64,
) -> bool {
    if may_open(before) {
        effect == success && opened(before, after, page, row)
    } else {
        effect == failure && refused(before, after, now)
    }
}

/// A text is edited on a page of the panel that was just opened. With a value given, that value
/// is to be saved. A row that cannot be used says why on the panel and on the board.
pub open spec fn edits(
    before: TerminalApp,
    after: TerminalApp,
    page: Page,
    field: Field,
    value: Option<Seq<char>>,
    obs: Option<ObsConfiguration>,
    facts: Facts,
    effect: EffectView,
    success: EffectView,
    now: u64,
) -> bool {
    if !may_open(before) {
        effect is Failed && refused(before, after, now)
    } else {
        &&& after.panel matches Some(panel) && panel.page == page && panel.row == 0
            && panel.obs_configuration == obs && panel_edits::is_fresh(
            Panel { editor: None, error: None, obs_configuration: None, ..panel },
        )
        &&& match panel_actions::row_effect(
            Panel { editor: None, error: None, ..after.panel->0 },
            Row::Edit(field),
            facts,
        ) {
            Ok(_) => {
                &&& after == (TerminalApp { panel: after.panel, ..before })
                &&& after.panel->0.error is None
                &&& after.panel->0.editor matches Some((edited, line)) && edited == field
                    && line.text() == match value {
                    Some(value) => value,
                    None => panel_actions::edit_value(
                        field,
                        Panel { editor: None, error: None, ..after.panel->0 },
                        facts,
                    )->Ok_0,
                } && line.position() == line.text().len()
                &&& effect == if value is Some {
                    EffectView::SaveEditor
                } else {
                    success
                }
            },
            Err(problem) => {
                &&& effect is Failed
                &&& app::only_said(
                    TerminalApp { panel: after.panel, ..before },
                    after,
                    problem,
                    NoticeLevel::Error,
                    now,
                )
                &&& text::opt_view(after.panel->0.error) == Some(problem)
                &&& after.panel->0.editor is None
            },
        }
    }
}

pub open spec fn ai_page(section: AiSection) -> Page {
    match section {
        AiSection::Model => Page::Models,
        AiSection::Replies => Page::Assistant,
        AiSection::Materials => Page::Materials,
        AiSection::Advanced => Page::Advanced,
    }
}

/// What a typed command does.
pub open spec fn commanded(
    before: TerminalApp,
    after: TerminalApp,
    raw: Seq<char>,
    obs: Option<ObsConfiguration>,
    facts: Facts,
    state: Option<Execution>,
    effect: EffectView,
    now: u64,
) -> bool {
    let d = before.desk;
    match commands::parsed(raw, facts.local) {
        CommandView::Refused => effect is Failed && app::only_said(
            before,
            after,
            "本地模式禁止账号与OBS操作"@,
            NoticeLevel::Error,
            now,
        ),
        CommandView::About => if may_open(before) {
            &&& effect is Nothing
            &&& after == (TerminalApp { panel: after.panel, ..before })
            &&& after.panel matches Some(panel) && panel.page == Page::About && panel.expanded
                && panel_edits::is_fresh(Panel { expanded: false, ..panel })
        } else {
            effect is Failed && refused(before, after, now)
        },
        CommandView::ThemePage => opens(
            before,
            after,
            Page::Themes,
            0,
            effect,
            EffectView::Nothing, EffectView::Failed,
            now,
        ),
        CommandView::Display { setting, value } => match panel_edits::display_of(setting, value) {
            Some(display) => effect == EffectView::Display(display) && after == before,
            None => effect is Failed && app::only_said(
                before,
                after,
                "显示参数：names/time on|off，layout chat|list"@,
                NoticeLevel::Error,
                now,
            ),
        },
        CommandView::AiPage(section) => opens(
            before,
            after,
            ai_page(section),
            0,
            effect,
            EffectView::Nothing, EffectView::Failed,
            now,
        ),
        CommandView::Workspace(value) => edits(
            before,
            after,
            Page::AiSettings,
            Field::Workspace,
            value,
            None,
            facts,
            effect,
            EffectView::Nothing,
            now,
        ),
        CommandView::ObsSettings => if may_open(before) {
            &&& effect is Nothing
            &&& after == (TerminalApp { panel: after.panel, ..before })
            &&& after.panel matches Some(panel) && panel.page == Page::Obs && panel.row == 0
                && panel_edits::is_fresh(Panel { obs_configuration: None, ..panel })
                && panel.obs_configuration == obs
        } else {
            effect is Failed && refused(before, after, now)
        },
        CommandView::External(field, value) => edits(
            before,
            after,
            if commands::field_is_obs(field) {
                Page::Obs
            } else {
                Page::Account
            },
            Field::External(field),
            value,
            if commands::field_is_obs(field) {
                obs
            } else {
                None
            },
            facts,
            effect,
            EffectView::Nothing,
            now,
        ),
        CommandView::Commands => {
            &&& effect is Nothing
            &&& after == (TerminalApp { desk: after.desk, review: after.review, ..before })
            &&& app::hidden(before.review, after.review, state)
            &&& if d.search is Some {
                after.desk == (Desk { slash_selection: 0, ..d })
            } else {
                &&& after.desk == (Desk {
                    input: after.desk.input,
                    search: Some(d.input),
                    slash_selection: 0,
                    ..d
                })
                &&& after.desk.input.text().len() == 0
            }
        },
        CommandView::More => opens(before, after, Page::More, 0, effect, EffectView::Nothing, EffectView::Failed, now),
        CommandView::StartAssistant { visible, rebuild } => effect == EffectView::Start {
            visible,
            rebuild,
        } && after == before,
        CommandView::Automatic(on) => effect == EffectView::Automatic(on) && after == before,
        CommandView::AiRange => opens(
            before,
            after,
            Page::ReplyRange { scene: true },
            0,
            effect,
            EffectView::Refresh, EffectView::Failed,
            now,
        ),
        CommandView::AiTopic => edits(
            before,
            after,
            Page::Home,
            Field::Topic,
            None,
            None,
            facts,
            effect,
            EffectView::Refresh,
            now,
        ),
        CommandView::StopAssistant => effect is Stop && after == before,
        CommandView::RepairHistory => effect is RepairHistory && after == before,
        CommandView::SettingsSection(section) => match panel_edits::section_page(section) {
            Some(page) => opens(before, after, page, 0, effect, EffectView::Nothing, EffectView::Nothing, now),
            None => effect is Nothing && app::only_said(
                before,
                after,
                "未知设置分类"@,
                NoticeLevel::Error,
                now,
            ),
        },
        CommandView::Settings => opens(
            before,
            after,
            Page::Settings,
            1,
            effect,
            EffectView::Nothing, EffectView::Nothing,
            now,
        ),
        CommandView::Diagnostics => opens(
            before,
            after,
            Page::Diagnostics,
            0,
            effect,
            EffectView::Nothing, EffectView::Nothing,
            now,
        ),
        CommandView::Assistant => opens(
            before,
            after,
            Page::Home,
            0,
            effect,
            EffectView::Refresh, EffectView::Nothing,
            now,
        ),
        CommandView::Review => opens(
            before,
            after,
            Page::Candidates,
            0,
            effect,
            EffectView::Nothing, EffectView::Nothing,
            now,
        ),
        CommandView::Pause => effect is Pause && after == before,
        CommandView::Quit => effect is Nothing && after == (TerminalApp {
            desk: Desk { quit_requested: true, ..d },
            ..before
        }),
        CommandView::Help => effect is Nothing && after == (TerminalApp {
            desk: Desk {
                help: Some(HelpState { scroll: 0, max_scroll: 0, page_rows: 0 }),
                ..d
            },
            ..before
        }),
        CommandView::Pin => effect is Nothing && pinned(before, after, now),
        CommandView::FindEditor => if may_open(before) {
            &&& effect is Nothing
            &&& after == (TerminalApp { panel: after.panel, ..before })
            &&& after.panel matches Some(panel) && panel.page == Page::Settings && panel.row == 1
                && panel_edits::is_fresh(Panel { editor: None, ..panel })
            &&& after.panel->0.editor matches Some((field, line)) && field == Field::ArchiveSearch
                && line.text().len() == 0
        } else {
            effect is Failed && refused(before, after, now)
        },
        CommandView::Find(query) => effect == EffectView::Search(query) && after == before,
        CommandView::ObsStatus => effect is ObsStatus && app::only_said(
            before,
            after,
            "正在检查 OBS 连接…"@,
            NoticeLevel::Progress,
            now,
        ),
        CommandView::Microphone { muted } => effect == EffectView::Microphone { muted }
            && app::only_said(
            before,
            after,
            if muted {
                "正在静音麦克风…"@
            } else {
                "正在取消麦克风静音…"@
            },
            NoticeLevel::Progress,
            now,
        ),
        CommandView::ObsPassword => {
            &&& effect is Nothing
            &&& after.desk.input.text().len() == 0
            &&& app::only_said(
                TerminalApp {
                    desk: Desk {
                        input: after.desk.input,
                        secret_mode: true,
                        secret_draft: Some(d.input),
                        ..d
                    },
                    ..before
                },
                after,
                "请输入 OBS WebSocket 密码并按 Enter；输入不会显示或进入历史"@,
                NoticeLevel::Progress,
                now,
            )
        },
        CommandView::ObsStart => effect is ObsStart && app::only_said(
            before,
            after,
            "正在启动 OBS 推流…"@,
            NoticeLevel::Progress,
            now,
        ),
        CommandView::ObsStop => effect is Nothing && after == (TerminalApp {
            desk: Desk {
                stop_flow: if d.stop_flow is None {
                    Some(StopFlow::Confirm { stop_selected: false })
                } else {
                    d.stop_flow
                },
                ..d
            },
            ..before
        }),
        CommandView::Unknown => effect is Nothing && app::only_said(
            before,
            after,
            "未知命令："@ + raw + "；输入 /help 查看命令"@,
            NoticeLevel::Error,
            now,
        ),
    }
}

/// The selected message, or the newest one, was marked.
pub open spec fn pinned(before: TerminalApp, after: TerminalApp, now: u64) -> bool {
    let feed = before.stream.feed;
    if feed.selected < feed.events().len() {
        &&& crate::feed::marked(feed, after.stream.feed)
        &&& app::only_said(
            app::with_feed(before, after.stream.feed),
            after,
            if feed.selection_active {
                "已将选中消息设为重点"@
            } else {
                "未选择消息，已将最新一条设为重点"@
            },
            NoticeLevel::Success,
            now,
        )
    } else {
        app::only_said(before, after, "当前没有可操作的消息"@, NoticeLevel::Info, now)
    }
}

impl TerminalApp {
    pub(crate) fn can_open(&self) -> (r: bool)
        ensures
            r == may_open(*self),
    {
        self.review.edit.is_none() && !self.desk.secret_mode && self.desk.stop_flow.is_none()
            && self.desk.login_qr.is_none()
    }

    /// Tells something.
    pub fn say(&mut self, message: &str, level: NoticeLevel, now: u64)
        requires
            old(self).wf(),
            now <= activity::LAST_INSTANT,
        ensures
            final(self).wf(),
            app::only_said(*old(self), *final(self), message@, level, now),
    {
        self.stream.board.say(message, level, now);
    }

    fn refuse(&mut self, now: u64)
        requires
            old(self).wf(),
            now <= activity::LAST_INSTANT,
        ensures
            final(self).wf(),
            refused(*old(self), *final(self), now),
    {
        self.say("请先完成当前编辑或弹窗；人工草稿保留", NoticeLevel::Error, now);
    }

    /// Opens the panel at a page, or says why not. The answer says whether it was opened.
    pub fn open_direct(&mut self, page: Page, now: u64) -> (r: bool)
        requires
            old(self).wf(),
            now <= activity::LAST_INSTANT,
        ensures
            final(self).wf(),
            r == may_open(*old(self)),
            r ==> opened(*old(self), *final(self), page, 0),
            !r ==> refused(*old(self), *final(self), now),
    {
        if !self.can_open() {
            self.refuse(now);
            return false;
        }
        self.panel = Some(Panel::open_direct(page));
        true
    }

    /// Opens the assistant's page, or says why not. The answer says whether it was opened: what the
    /// page shows is then to be read again.
    pub fn open_assistant(&mut self, now: u64) -> (r: bool)
        requires
            old(self).wf(),
            now <= activity::LAST_INSTANT,
        ensures
            final(self).wf(),
            r == may_open(*old(self)),
            r ==> opened(*old(self), *final(self), Page::Home, 0),
            !r ==> refused(*old(self), *final(self), now),
    {
        self.open_direct(Page::Home, now)
    }

    fn open_page(&mut self, page: Page, now: u64) -> (r: CommandEffect)
        requires
            old(self).wf(),
            now <= activity::LAST_INSTANT,
        ensures
            final(self).wf(),
            opens(*old(self), *final(self), page, 0, r@, EffectView::Nothing, EffectView::Failed, now),
    {
        if self.open_direct(page, now) {
            CommandEffect::Nothing
        } else {
            CommandEffect::Failed
        }
    }

    fn visit_page(&mut self, page: Page, now: u64) -> (r: CommandEffect)
        requires
            old(self).wf(),
            now <= activity::LAST_INSTANT,
        ensures
            final(self).wf(),
            opens(*old(self), *final(self), page, 0, r@, EffectView::Nothing, EffectView::Nothing, now),
    {
        self.open_direct(page, now);
        CommandEffect::Nothing
    }

    /// Opens the panel at a page to edit a text there. With no value to be saved, the answer is the
    /// effect that is given.
    pub fn open_editor(
        &mut self,
        page: Page,
        field: Field,
        value: Option<String>,
        obs: Option<ObsConfiguration>,
        facts: &Facts,
        success: CommandEffect,
        now: u64,
    ) -> (r: CommandEffect)
        requires
            old(self).wf(),
            now <= activity::LAST_INSTANT,
        ensures
            final(self).wf(),
            edits(
                *old(self),
                *final(self),
                page,
                field,
                text::opt_view(value),
                obs,
                *facts,
                r@,
                success@,
                now,
            ),
    {
        if !self.can_open() {
            self.refuse(now);
            return CommandEffect::Failed;
        }
        let mut panel: Panel = Panel::open_direct(page);
        panel.obs_configuration = obs;
        let ghost ready = panel;
        match panel.apply_assistant_row(Row::Edit(field), facts) {
            Ok(_) => {
                let ghost edited = panel;
                let effect: CommandEffect = match value {
                    Some(value) => {
                        panel.editor = Some((field, EditorInput::from_string(value)));
                        CommandEffect::SaveEditor
                    },
                    None => success,
                };
                proof {
                    assert(ready == (Panel {
                        editor: None,
                        error: None,
                        ..panel
                    }));
                }
                self.panel = Some(panel);
                effect
            },
            Err(problem) => {
                panel.error = Some(problem.clone());
                proof {
                    assert(ready == (Panel {
                        editor: None,
                        error: None,
                        ..panel
                    }));
                }
                self.panel = Some(panel);
                self.say(problem.as_str(), NoticeLevel::Error, now);
                CommandEffect::Failed
            },
        }
    }

    fn pin(&mut self, now: u64)
        requires
            old(self).wf(),
            now <= activity::LAST_INSTANT,
        ensures
            final(self).wf(),
            pinned(*old(self), *final(self), now),
    {
        let said: &'static str = if self.stream.feed.selection_active {
            "已将选中消息设为重点"
        } else {
            "未选择消息，已将最新一条设为重点"
        };
        if self.stream.feed.with_selected() {
            self.say(said, NoticeLevel::Success, now);
        } else {
            self.say("当前没有可操作的消息", NoticeLevel::Info, now);
        }
    }

    fn settings_section(&mut self, section: &str, now: u64) -> (r: CommandEffect)
        requires
            old(self).wf(),
            now <= activity::LAST_INSTANT,
        ensures
            final(self).wf(),
            match panel_edits::section_page(section@) {
                Some(page) => opens(
                    *old(self),
                    *final(self),
                    page,
                    0,
                    r@,
                    EffectView::Nothing, EffectView::Nothing,
                    now,
                ),
                None => r@ is Nothing && app::only_said(
                    *old(self),
                    *final(self),
                    "未知设置分类"@,
                    NoticeLevel::Error,
                    now,
                ),
            },
    {
        match panel_edits::open_settings_section(section) {
            Some(page) => self.visit_page(page, now),
            None => {
                self.say("未知设置分类", NoticeLevel::Error, now);
                CommandEffect::Nothing
            },
        }
    }

    /// Runs a typed command. The broadcasting software's settings are handed in for the pages that
    /// show them.
    #[verifier::rlimit(60)]
    pub fn command(
        &mut self,
        raw: &str,
        obs: Option<ObsConfiguration>,
        facts: &Facts,
        state: Option<Execution>,
        now: u64,
    ) -> (r: CommandEffect)
        requires
            old(self).wf(),
            now <= activity::LAST_INSTANT,
        ensures
            final(self).wf(),
            commanded(*old(self), *final(self), raw@, obs, *facts, state, r@, now),
    {
        match commands::parse_command(raw, facts.local) {
            Command::Refused => {
                self.say("本地模式禁止账号与OBS操作", NoticeLevel::Error, now);
                CommandEffect::Failed
            },
            Command::About => {
                if !self.can_open() {
                    self.refuse(now);
                    return CommandEffect::Failed;
                }
                self.panel = Some(Panel::open_about());
                CommandEffect::Nothing
            },
            Command::ThemePage => self.open_page(Page::Themes, now),
            Command::Display { setting, value } => match panel_edits::configure_display(
                setting.as_str(),
                value.as_str(),
            ) {
                Some(display) => CommandEffect::Display(display),
                None => {
                    self.say(
                        "显示参数：names/time on|off，layout chat|list",
                        NoticeLevel::Error,
                        now,
                    );
                    CommandEffect::Failed
                },
            },
            Command::AiPage(section) => {
                let page: Page = match section {
                    AiSection::Model => Page::Models,
                    AiSection::Replies => Page::Assistant,
                    AiSection::Materials => Page::Materials,
                    AiSection::Advanced => Page::Advanced,
                };
                self.open_page(page, now)
            },
            Command::Workspace(value) => self.open_editor(
                Page::AiSettings,
                Field::Workspace,
                value,
                None,
                facts,
                CommandEffect::Nothing,
                now,
            ),
            Command::ObsSettings => {
                if !self.can_open() {
                    self.refuse(now);
                    return CommandEffect::Failed;
                }
                let mut panel: Panel = Panel::open_direct(Page::Obs);
                panel.obs_configuration = obs;
                self.panel = Some(panel);
                CommandEffect::Nothing
            },
            Command::External(field, value) => if field.is_obs() {
                self.open_editor(Page::Obs, Field::External(field), value, obs, facts, CommandEffect::Nothing, now)
            } else {
                self.open_editor(Page::Account, Field::External(field), value, None, facts, CommandEffect::Nothing, now)
            },
            Command::Commands => {
                self.desk.open_commands();
                self.review.clear_review_surface(state);
                CommandEffect::Nothing
            },
            Command::More => self.open_page(Page::More, now),
            Command::StartAssistant { visible, rebuild } => CommandEffect::Start {
                visible,
                rebuild,
            },
            Command::Automatic(on) => CommandEffect::Automatic(on),
            Command::AiRange => if self.open_direct(Page::ReplyRange { scene: true }, now) {
                CommandEffect::Refresh
            } else {
                CommandEffect::Failed
            },
            Command::AiTopic => self.open_editor(
                Page::Home,
                Field::Topic,
                None,
                None,
                facts,
                CommandEffect::Refresh,
                now,
            ),
            Command::StopAssistant => CommandEffect::Stop,
            Command::RepairHistory => CommandEffect::RepairHistory,
            Command::SettingsSection(section) => self.settings_section(section.as_str(), now),
            Command::Settings => {
                if self.can_open() {
                    self.panel = Some(Panel::open_settings());
                } else {
                    self.refuse(now);
                }
                CommandEffect::Nothing
            },
            Command::Diagnostics => self.visit_page(Page::Diagnostics, now),
            Command::Assistant => if self.open_assistant(now) {
                CommandEffect::Refresh
            } else {
                CommandEffect::Nothing
            },
            Command::Review => self.visit_page(Page::Candidates, now),
            Command::Pause => CommandEffect::Pause,
            Command::Quit => {
                self.desk.quit_requested = true;
                CommandEffect::Nothing
            },
            Command::Help => {
                self.desk.help = Some(HelpState { scroll: 0, max_scroll: 0, page_rows: 0 });
                CommandEffect::Nothing
            },
            Command::Pin => {
                self.pin(now);
                CommandEffect::Nothing
            },
            Command::FindEditor => {
                if !self.can_open() {
                    self.refuse(now);
                    return CommandEffect::Failed;
                }
                self.panel = Some(Panel::open_archive_search());
                CommandEffect::Nothing
            },
            Command::Find(query) => CommandEffect::Search(query),
            Command::ObsStatus => {
                self.say("正在检查 OBS 连接…", NoticeLevel::Progress, now);
                CommandEffect::ObsStatus
            },
            Command::Microphone { muted } => {
                self.say(
                    if muted {
                        "正在静音麦克风…"
                    } else {
                        "正在取消麦克风静音…"
                    },
                    NoticeLevel::Progress,
                    now,
                );
                CommandEffect::Microphone { muted }
            },
            Command::ObsPassword => {
                self.desk.enter_secret();
                self.say(
                    "请输入 OBS WebSocket 密码并按 Enter；输入不会显示或进入历史",
                    NoticeLevel::Progress,
                    now,
                );
                CommandEffect::Nothing
            },
            Command::ObsStart => {
                self.say("正在启动 OBS 推流…", NoticeLevel::Progress, now);
                CommandEffect::ObsStart
            },
            Command::ObsStop => {
                if self.desk.stop_flow.is_none() {
                    self.desk.stop_flow = Some(StopFlow::Confirm { stop_selected: false });
                }
                CommandEffect::Nothing
            },
            Command::Unknown => {
                self.say(
                    text::add3("未知命令：", raw, "；输入 /help 查看命令").as_str(),
                    NoticeLevel::Error,
                    now,
                );
                CommandEffect::Nothing
            },
        }
    }
}

/// What a submitted line is: the secret that was asked for, a command, or a message, which is sent
/// in pieces.
pub open spec fn submitted(app: TerminalApp, line: Seq<char>, r: Submission) -> bool {
    if app.desk.secret_mode {
        r matches Submission::Secret(secret) && secret@ == line
    } else if crate::desk::slashed(line) {
        r matches Submission::Command(command) && command@ == line
    } else {
        r matches Submission::Send(pieces) && text::views(pieces@) == segments::chunked(
            unicode::graphemes(line),
            40,
        )
    }
}

/// What a submitted line is.
#[derive(Debug)]
pub enum Submission {
    /// The secret that was asked for.
    Secret(String),
    Command(String),
    /// The messages to send.
    Send(Vec<String>),
}

impl TerminalApp {
    /// What a submitted line is: the secret that was asked for, a command, or a message.
    pub fn submit(&self, line: String) -> (r: Submission)
        ensures
            submitted(*self, line@, r),
            match r {
                Submission::Secret(secret) => secret@ == line@,
                Submission::Command(command) => command@ == line@,
                Submission::Send(pieces) => text::concat(text::views(pieces@)) == line@,
            },
    {
        if self.desk.secret_mode {
            return Submission::Secret(line);
        }
        let chars: Vec<char> = text::chars_of(line.as_str());
        if chars.len() > 0 && chars[0] == '/' {
            return Submission::Command(line);
        }
        Submission::Send(
            segments::segment_message(line.as_str(), segments::SEND_SEGMENT_LIMIT),
        )
    }

    /// The secret was saved, or stays in the line with what went wrong.
    pub fn secret_saved(&mut self, secret: String, saved: Result<(), String>, now: u64)
        requires
            old(self).wf(),
            now <= activity::LAST_INSTANT,
        ensures
            final(self).wf(),
            match saved {
                Ok(_) => {
                    &&& app::only_said(
                        TerminalApp {
                            desk: Desk {
                                input: final(self).desk.input,
                                secret_mode: false,
                                secret_draft: None,
                                ..old(self).desk
                            },
                            ..*old(self)
                        },
                        *final(self),
                        "已保存"@,
                        NoticeLevel::Success,
                        now,
                    )
                    &&& crate::desk::restored(old(self).desk.secret_draft, final(self).desk.input)
                },
                Err(error) => {
                    &&& app::only_said(
                        TerminalApp {
                            desk: Desk { input: final(self).desk.input, ..old(self).desk },
                            ..*old(self)
                        },
                        *final(self),
                        "保存失败："@ + error@ + "（内容保留）"@,
                        NoticeLevel::Error,
                        now,
                    )
                    &&& final(self).desk.input.text() == secret@
                    &&& final(self).desk.input.position() == secret@.len()
                },
            },
    {
        match saved {
            Ok(_) => {
                self.desk.leave_secret();
                self.say("已保存", NoticeLevel::Success, now);
            },
            Err(error) => {
                self.desk.input.replace(secret);
                self.say(
                    text::add3("保存失败：", error.as_str(), "（内容保留）").as_str(),
                    NoticeLevel::Error,
                    now,
                );
            },
        }
    }
}

/// A secret is never sent and never taken for a command.
pub proof fn law_secrets_are_not_sent(app: TerminalApp, line: Seq<char>, r: Submission)
    requires
        app.desk.secret_mode,
        submitted(app, line, r),
    ensures
        !(r is Send) && !(r is Command),
{
}

/// Outside a request for a secret, a line that does not begin with a slash is sent, and sent
/// whole: its pieces, one behind the other, are its clusters one behind the other, and each piece
/// is made of at most forty of them that follow each other.
pub proof fn law_a_line_is_sent_whole(
    app: TerminalApp,
    line: Seq<char>,
    r: Submission,
    i: int,
)
    requires
        submitted(app, line, r),
        !app.desk.secret_mode,
        line.len() == 0 || line[0] != '/',
    ensures
        r is Send,
        text::concat(text::views(r->Send_0@)) == text::concat(unicode::graphemes(line)),
        0 <= i < r->Send_0@.len() ==> exists|from: int, to: int|
            0 <= from < to <= unicode::graphemes(line).len() && to - from <= 40
                && r->Send_0@[i]@ == text::concat(
                #[trigger] unicode::graphemes(line).subrange(from, to),
            ),
{
    let clusters = unicode::graphemes(line);
    segments::law_segments_are_the_clusters(clusters, 40);
    if 0 <= i < r->Send_0@.len() {
        assert(text::views(r->Send_0@)[i] == r->Send_0@[i]@);
        segments::law_segments_fit_their_limit(clusters, 40, i);
        let from = i * 40;
        let to = unicode::least((i + 1) * 40, clusters.len() as int);
        assert(r->Send_0@[i]@ == text::concat(clusters.subrange(from, to)));
    }
}

/// A line that begins with a slash is a command and is not sent, unless a secret was asked for.
pub proof fn law_commands_are_not_sent(app: TerminalApp, line: Seq<char>, r: Submission)
    requires
        submitted(app, line, r),
        !app.desk.secret_mode,
        line.len() > 0,
        line[0] == '/',
    ensures
        r is Command,
        r->Command_0@ == line,
{
}

/// Where a session may reach OBS, `/mute` leads to muting the microphone and `/unmute` to opening
/// it, and nothing else leads to either.
pub proof fn law_the_microphone_is_switched_as_told(
    before: TerminalApp,
    after: TerminalApp,
    raw: Seq<char>,
    obs: Option<ObsConfiguration>,
    facts: Facts,
    state: Option<Execution>,
    effect: EffectView,
    now: u64,
)
    requires
        commanded(before, after, raw, obs, facts, state, effect, now),
    ensures
        !facts.local && text::words_of(raw) =~= seq!["/mute"@] ==> effect == (
        EffectView::Microphone { muted: true }),
        !facts.local && text::words_of(raw) =~= seq!["/unmute"@] ==> effect == (
        EffectView::Microphone { muted: false }),
        effect == (EffectView::Microphone { muted: true }) ==> !facts.local && text::words_of(raw)
            =~= seq!["/mute"@],
        effect == (EffectView::Microphone { muted: false }) ==> !facts.local && text::words_of(raw)
            =~= seq!["/unmute"@],
{
    commands::law_the_microphone_obeys_its_words(raw);
    commands::law_local_sessions_reach_nothing_outside(raw);
}

/// A line starts the stream only where it says so, and stops it never: `/obs stop` asks first.
pub proof fn law_the_stream_is_not_stopped_unasked(
    before: TerminalApp,
    after: TerminalApp,
    raw: Seq<char>,
    obs: Option<ObsConfiguration>,
    facts: Facts,
    state: Option<Execution>,
    effect: EffectView,
    now: u64,
)
    requires
        commanded(before, after, raw, obs, facts, state, effect, now),
    ensures
        effect is ObsStart <==> !facts.local && text::words_of(raw) =~= seq!["/obs"@, "start"@],
        !facts.local && text::words_of(raw) =~= seq!["/obs"@, "stop"@] ==> effect is Nothing
            && after.desk.stop_flow is Some,
        !facts.local && text::words_of(raw) =~= seq!["/obs"@, "stop"@] && before.desk.stop_flow
            is None ==> after.desk.stop_flow == Some(StopFlow::Confirm { stop_selected: false }),
{
    commands::law_pairs_of_words_have_their_commands(raw);
    commands::law_local_sessions_reach_nothing_outside(raw);
}

/// The assistant is started, paused, ended and given leave to send, or it is taken, exactly where
/// the line says so; none of these lines changes anything by itself.
pub proof fn law_the_assistant_is_led_as_told(
    before: TerminalApp,
    after: TerminalApp,
    raw: Seq<char>,
    obs: Option<ObsConfiguration>,
    facts: Facts,
    state: Option<Execution>,
    effect: EffectView,
    now: u64,
)
    requires
        commanded(before, after, raw, obs, facts, state, effect, now),
    ensures
        effect == EffectView::Automatic(true) <==> text::words_of(raw) =~= seq![
            "/ai"@,
            "auto"@,
            "on"@,
        ],
        effect == EffectView::Automatic(false) <==> text::words_of(raw) =~= seq![
            "/ai"@,
            "auto"@,
            "off"@,
        ],
        effect == (EffectView::Start { visible: false, rebuild: false }) <==> text::words_of(raw)
            =~= seq!["/ai"@, "start"@],
        effect == (EffectView::Start { visible: true, rebuild: true }) <==> text::words_of(raw)
            =~= seq!["/ai"@, "visible"@],
        effect == (EffectView::Start { visible: false, rebuild: true }) <==> text::words_of(raw)
            =~= seq!["/ai"@, "reset"@],
        effect is Stop <==> text::words_of(raw) =~= seq!["/ai"@, "stop"@],
        effect is Pause <==> text::words_of(raw) =~= seq!["/pause"@],
        effect is RepairHistory <==> text::words_of(raw) =~= seq!["/diag"@, "repair"@],
        effect is Automatic || effect is Start || effect is Stop || effect is Pause || effect
            is RepairHistory ==> after == before,
{
    commands::lemma_named_lines(raw);
    commands::law_the_assistant_obeys_its_words(raw);
    commands::law_pairs_of_words_have_their_commands(raw);
    commands::law_single_words_have_their_commands(raw);
    commands::law_local_sessions_keep_the_rest(raw);
}

/// `/quit` asks to leave and leaves all else as it is, `/help` opens the help at its top, and no
/// other line asks to leave.
pub proof fn law_leaving_and_help_are_asked_for(
    before: TerminalApp,
    after: TerminalApp,
    raw: Seq<char>,
    obs: Option<ObsConfiguration>,
    facts: Facts,
    state: Option<Execution>,
    effect: EffectView,
    now: u64,
)
    requires
        commanded(before, after, raw, obs, facts, state, effect, now),
        !before.desk.quit_requested,
    ensures
        after.desk.quit_requested <==> text::words_of(raw) =~= seq!["/quit"@],
        text::words_of(raw) =~= seq!["/quit"@] ==> effect is Nothing && after.desk.input
            == before.desk.input && after.stream == before.stream && after.panel == before.panel,
        text::words_of(raw) =~= seq!["/help"@] ==> effect is Nothing && after.desk.help is Some
            && after.desk.help->0.scroll == 0 && after.desk.input == before.desk.input,
{
    commands::lemma_named_lines(raw);
    commands::law_single_words_have_their_commands(raw);
    commands::law_local_sessions_keep_the_rest(raw);
}

/// A line that names a page opens that page, as long as nothing is in the way; then nothing else
/// changes, and otherwise nothing opens.
pub proof fn law_lines_open_their_pages(
    before: TerminalApp,
    after: TerminalApp,
    raw: Seq<char>,
    obs: Option<ObsConfiguration>,
    facts: Facts,
    state: Option<Execution>,
    effect: EffectView,
    now: u64,
)
    requires
        commanded(before, after, raw, obs, facts, state, effect, now),
        before.panel is None,
    ensures
        ({
            let words = text::words_of(raw);
            let open = before.review.edit is None && !before.desk.secret_mode
                && before.desk.stop_flow is None && before.desk.login_qr is None;
            let page = if after.panel is Some {
                Some(after.panel->0.page)
            } else {
                None
            };
            &&& open && words =~= seq!["/settings"@] ==> page == Some(Page::Settings)
            &&& open && words =~= seq!["/ai"@] ==> page == Some(Page::Home)
            &&& open && words =~= seq!["/review"@] ==> page == Some(Page::Candidates)
            &&& open && words =~= seq!["/diag"@] ==> page == Some(Page::Diagnostics)
            &&& open && words =~= seq!["/more"@] ==> page == Some(Page::More)
            &&& open && words =~= seq!["/about"@] ==> page == Some(Page::About)
            &&& open && words =~= seq!["/display"@, "theme"@] ==> page == Some(Page::Themes)
            &&& open && words =~= seq!["/ai"@, "model"@] ==> page == Some(Page::Models)
            &&& open && words =~= seq!["/ai"@, "materials"@] ==> page == Some(Page::Materials)
            &&& open && words =~= seq!["/ai"@, "advanced"@] ==> page == Some(Page::Advanced)
            &&& open && words =~= seq!["/settings"@, "obs"@] ==> page == Some(Page::Obs)
            &&& open && words =~= seq!["/settings"@, "account"@] ==> page == Some(Page::Account)
            &&& open && words =~= seq!["/settings"@, "reading"@] ==> page == Some(Page::Reading)
            &&& open && words =~= seq!["/settings"@, "ai"@] ==> page == Some(Page::AiSettings)
            &&& open && words =~= seq!["/settings"@, "system"@] ==> page == Some(Page::System)
            &&& !open ==> after.panel is None
        }),
        after.automation == before.automation,
        after.stream.deliveries == before.stream.deliveries,
{
    let words = text::words_of(raw);
    commands::law_single_words_have_their_commands(raw);
    commands::law_pairs_of_words_have_their_commands(raw);
    commands::law_the_assistant_obeys_its_words(raw);
    commands::law_the_rest_of_the_lines(raw);
    commands::law_local_sessions_keep_the_rest(raw);
    commands::lemma_own_lines(raw);
    if words.len() == 2 {
        panel_edits::law_sections_open_their_page(words[1]);
    }
}

/// `/pin` marks the selected message and tells so; where there is none it marks nothing. No other
/// line marks a message.
pub proof fn law_pin_marks_the_selected_message(
    before: TerminalApp,
    after: TerminalApp,
    raw: Seq<char>,
    obs: Option<ObsConfiguration>,
    facts: Facts,
    state: Option<Execution>,
    effect: EffectView,
    now: u64,
)
    requires
        commanded(before, after, raw, obs, facts, state, effect, now),
    ensures
        ({
            let pin = text::words_of(raw) =~= seq!["/pin"@];
            let feed = before.stream.feed;
            &&& pin && feed.selected < feed.events().len()
                ==> after.stream.feed.session.featured_event is Some
                && after.stream.feed.session.featured_event->0.id
                == feed.events()[feed.selected as int].id
            &&& !pin || feed.selected >= feed.events().len() ==> after.stream.feed
                == before.stream.feed
        }),
{
    commands::law_single_words_have_their_commands(raw);
    commands::law_local_sessions_keep_the_rest(raw);
    commands::lemma_own_lines(raw);
}

/// A value behind its command is put in the editor of its field, at once to be saved; a command
/// without a value opens the editor on the present one.
pub proof fn law_values_are_put_in_their_field(
    before: TerminalApp,
    after: TerminalApp,
    raw: Seq<char>,
    obs: Option<ObsConfiguration>,
    facts: Facts,
    state: Option<Execution>,
    effect: EffectView,
    now: u64,
    field: commands::ExternalField,
    value: Seq<char>,
)
    requires
        commanded(before, after, raw, obs, facts, state, effect, now),
        commands::parsed(raw, facts.local) == CommandView::External(field, Some(value)),
        may_open(before),
        facts.account_status is SignedIn,
        !facts.local,
    ensures
        effect is SaveEditor,
        after.panel is Some,
        after.panel->0.editor is Some,
        after.panel->0.editor matches Some((edited, line)) ==> edited == Field::External(field)
            && line.text() == value,
{
}

/// Looking for a command puts the typed line aside and hides the reply on the screen, which then
/// waits to be looked at again.
pub proof fn law_looking_for_a_command_hides_the_reply(
    before: TerminalApp,
    after: TerminalApp,
    raw: Seq<char>,
    obs: Option<ObsConfiguration>,
    facts: Facts,
    state: Option<Execution>,
    effect: EffectView,
    now: u64,
)
    requires
        commanded(before, after, raw, obs, facts, state, effect, now),
        commands::parsed(raw, facts.local) is Commands,
        before.desk.search is None,
    ensures
        after.desk.search == Some(before.desk.input),
        after.desk.input.text().len() == 0,
        after.review.edit == before.review.edit,
        after.review.frame is Some ==> !after.review.frame->0.visible,
        after.stream == before.stream,
{
    app::law_a_hidden_reply_waits(before.review, after.review, state);
}

/// A field that cannot be edited opens its page with the reason and edits nothing.
pub proof fn law_locked_fields_are_not_edited(
    before: TerminalApp,
    after: TerminalApp,
    page: Page,
    field: Field,
    value: Option<Seq<char>>,
    obs: Option<ObsConfiguration>,
    facts: Facts,
    effect: EffectView,
    success: EffectView,
    now: u64,
)
    requires
        edits(before, after, page, field, value, obs, facts, effect, success, now),
        crate::panel::readonly_text(Row::Edit(field), facts) is Some,
    ensures
        effect is Failed,
        may_open(before) ==> after.panel is Some && after.panel->0.page == page
            && after.panel->0.editor is None && after.panel->0.error is Some,
        !may_open(before) ==> after.panel == before.panel,
        after.stream.board@.notice_level == NoticeLevel::Error,
        after.desk == before.desk,
{
}

} // verus!
