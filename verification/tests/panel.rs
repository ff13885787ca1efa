use danmu_terminal::accounts::{AssistantAccounts, Credential, LoadedSelection};
use danmu_terminal::app::{KeyAction, TerminalApp};
use danmu_terminal::app_commands::{CommandEffect, Submission};
use danmu_terminal::app_events::{SavedSetting, UiEvent};
use danmu_terminal::app_panel::PanelStep;
use danmu_terminal::app_run::Beginning;
use danmu_terminal::automation::Automation;
use danmu_terminal::commands::ExternalField;
use danmu_terminal::desk::StopFlow;
use danmu_terminal::domain::{AccountStatus, DanmuSession};
use danmu_terminal::input::EditorInput;
use danmu_terminal::keys::{KeyCode, KeyEvent};
use danmu_terminal::menu_text::{on_off, row_columns, self_or};
use danmu_terminal::notice::{NoticeBoard, NoticeLevel};
use danmu_terminal::panel::{
    AssistantSettings, Choice, Choices, ChoiceTarget, Discovery, Facts, Field, HistoryEntry,
    HostFacts, MenuCommand, OptionFacts, Page, Panel, PersonaKind, PresetFacts, ReplyActivity,
    Row, SettingValue, Source, Switch, Switches, ThemeFacts, WorkspaceStatus,
};
use danmu_terminal::panel_actions::{Change, Effect};
use danmu_terminal::panel_edits::{
    choose_tool, open_settings_section, start_assistant, Activation, ChoiceEffect, EditorEffect,
    StartStep, ToolChoice,
};
use danmu_terminal::panel_keys::PanelAction;
use danmu_terminal::review::Reply;

const NOW: u64 = 10_000_000;
const WALL: i64 = 1_700_000_000_000;

fn settings() -> AssistantSettings {
    AssistantSettings {
        host: 0,
        binary: String::new(),
        source: Source::Default,
        name: "助手".into(),
        preferences: String::new(),
        skills: vec![],
        blocked_words: vec![],
        persona: PersonaKind::Assistant,
        reply_activity: ReplyActivity::Balanced,
        automatic: false,
        resume_on_start: false,
        web_search: false,
        switches: Switches {
            use_profile: true,
            use_project: true,
            thank_gifts: false,
            thank_likes: false,
            thank_follows: false,
            thank_shares: false,
            mention_sender: false,
            repair_blocked: false,
            host_priority: false,
            muted_support: false,
        },
    }
}

fn facts() -> Facts {
    Facts {
        local: false,
        account_status: AccountStatus::SignedOut,
        assistant_label: "主账号".into(),
        login_pending: false,
        has_independent: false,
        room: None,
        room_id: "1".into(),
        obs: None,
        obs_error: None,
        settings: settings(),
        saved_settings: false,
        running: false,
        resume_pending: false,
        has_context: false,
        in_flight: false,
        needs_rebuild: false,
        setting_pending: false,
        configuring: false,
        repairing: false,
        repair_result: None,
        connected: false,
        has_session: false,
        options: None,
        tool_mode: None,
        sending_enabled: false,
        candidates: 0,
        approval_problem: None,
        themes: vec![ThemeFacts { id: "shisui".into(), name: "拾穗".into() }],
        theme_name: "拾穗".into(),
        selected_theme: "shisui".into(),
        hosts: vec![HostFacts {
            label: "工具".into(),
            description: "说明".into(),
            supports_search: false,
            takes_rules: true,
        }],
        presets: vec![PresetFacts {
            label: "日常".into(),
            description: "说明".into(),
            reply_activity: ReplyActivity::Active,
            thank_gifts: true,
            thank_likes: false,
            thank_follows: true,
            thank_shares: false,
            mention_sender: true,
            web_search: false,
            repair_blocked: true,
            host_priority: false,
            muted_support: false,
        }],
        effective_activity: ReplyActivity::Balanced,
        activity_labels: ("谨慎".into(), "平衡".into(), "积极".into()),
        persona_labels: ("助手".into(), "主播".into()),
        source_description: "默认".into(),
        topic: String::new(),
        topic_override: None,
        strategy_label: String::new(),
        workspace: Ok("workspace".into()),
        workspace_status: WorkspaceStatus::Unread,
        workspace_note: String::new(),
        profile_summary: String::new(),
        history_idle_seconds: 0,
        layout_chat: false,
        show_name: true,
        show_time: false,
    }
}

fn app() -> TerminalApp {
    let mut app = TerminalApp::new(
        Beginning {
            session: DanmuSession::new("session", "local"),
            automation: Automation {
                accounts: AssistantAccounts::load(
                    Credential { id: "account.json".into() },
                    LoadedSelection::Missing,
                    None,
                ),
                automatic: false,
                resume_on_start: false,
                sending: false,
                running: false,
                resume_pending: false,
            },
            account_status: AccountStatus::SignedOut,
            room: None,
            layout_chat: false,
            show_name: true,
            show_time: false,
        },
        NOW,
        WALL,
    );
    app.stream.board = NoticeBoard::new();
    app
}

/// The step that a key leads to. What a menu command asks for is carried out.
fn press(app: &mut TerminalApp, code: KeyCode, facts: &Facts) -> PanelStep {
    press_key(app, KeyEvent::press(code), facts)
}

fn press_key(app: &mut TerminalApp, key: KeyEvent, facts: &Facts) -> PanelStep {
    let none: Vec<Reply> = vec![];
    match app.handle_key(key, facts, &none, 0, None, NOW) {
        KeyAction::Panel(action) => {
            let step = app.follow_panel(action, facts);
            if let PanelStep::Activation(Activation::Run(command)) = step {
                let _ = app.command(command.raw(), None, facts, None, NOW);
                app.activation_settled(Activation::Run(command), Ok(()));
            }
            step
        },
        KeyAction::Submit(line) => {
            assert!(!matches!(app.submit(line), Submission::Send(_)));
            PanelStep::Nothing
        },
        _ => PanelStep::Nothing,
    }
}

fn panel(app: &TerminalApp) -> &Panel {
    app.panel.as_ref().unwrap()
}

fn edited(app: &TerminalApp) -> &str {
    panel(app).editor.as_ref().unwrap().1.as_str()
}

#[test]
fn direct_sections_close_without_synthetic_parents() {
    let mut app = app();
    app.command("/ai model", None, &facts(), None, NOW);
    assert_eq!(panel(&app).page, Page::Models);
    assert!(panel(&app).history.is_empty());
}

#[test]
fn settings_categories_and_details_are_keyboard_reachable() {
    let mut app = app();
    let page = open_settings_section("reading").unwrap();
    app.panel = Some(Panel::open_direct(page));
    press(&mut app, KeyCode::Tab, &facts());
    assert_eq!(panel(&app).page, Page::Account);
    assert!(panel(&app).history.is_empty());
    press(&mut app, KeyCode::Char('?'), &facts());
    assert!(panel(&app).expanded);
    press(&mut app, KeyCode::Esc, &facts());
    assert!(app.panel.is_none());
}

#[test]
fn topic_editor_f2_restores_the_live_title_source() {
    let mut app = app();
    let mut facts = facts();
    facts.topic_override = Some("临时主题".into());
    facts.topic = "临时主题".into();
    app.command("/ai topic", None, &facts, None, NOW);
    assert_eq!(edited(&app), "临时主题");
    assert!(matches!(press(&mut app, KeyCode::F(2), &facts), PanelStep::RestoreTopic));
    app.topic_restored("直播间标题".into());
    assert_eq!(edited(&app), "直播间标题");
}

#[test]
fn folds_stay_on_the_same_page_and_only_one_advanced_group_opens() {
    let facts = facts();
    let mut p = Panel::new();
    p.page = Page::Assistant;
    p.apply_assistant_row(Row::ToggleThanks, &facts).unwrap();
    assert!(p.thanks_expanded);
    assert!(p.rows(&facts).contains(&Row::Switch(Switch::ThankGifts)));
    assert!(p.rows(&facts).contains(&Row::Switch(Switch::ThankShares)));
    p.page = Page::Advanced;
    p.apply_assistant_row(Row::AdvancedGroup(0), &facts).unwrap();
    p.apply_assistant_row(Row::AdvancedGroup(1), &facts).unwrap();
    assert_eq!(p.advanced_group, Some(1));
    assert!(!p.rows(&facts).contains(&Row::Edit(Field::Profile)));
}

#[test]
fn preset_applies_once_without_preview_and_preserves_identity_fields() {
    let mut facts = facts();
    facts.settings.name = "保留名字".into();
    facts.settings.automatic = true;
    let mut p = Panel::new();
    p.page = Page::Presets;
    p.history.push(HistoryEntry {
        page: Page::Assistant,
        row: 0,
        scroll: 0,
        list_offset: 0,
        expanded: false,
        thanks_expanded: false,
        advanced_group: None,
    });
    let effect = p.apply_assistant_row(Row::Preset(0), &facts).unwrap();
    let Effect::Save { change, .. } = effect else {
        panic!("{effect:?}");
    };
    facts.settings.change(change, &facts.presets, &p.discovered);
    p.settle_row(effect, Ok(()));
    assert_eq!(p.page, Page::Assistant);
    assert_eq!(facts.settings.name, "保留名字");
    assert!(facts.settings.automatic);
    assert_eq!(facts.settings.reply_activity, ReplyActivity::Active);
    assert!(facts.settings.switches.thank_gifts);
    assert!(facts.settings.switches.use_profile);
}

#[test]
fn sending_mode_is_an_explicit_choice() {
    let mut p = Panel::new();
    p.apply_assistant_row(Row::Permission, &facts()).unwrap();
    let c = p.choices.as_ref().unwrap();
    assert_eq!(c.values.len(), 2);
    assert_eq!(c.values[0].name, "逐条发送");
    assert_eq!(c.values[1].name, "自动发送");
}

#[test]
fn failed_editor_save_keeps_the_exact_input() {
    let mut app = app();
    let facts = facts();
    let mut shown = Panel::open_direct(open_settings_section("reading").unwrap());
    shown.apply_assistant_row(Row::Edit(Field::HistorySeconds), &facts).unwrap();
    shown.editor.as_mut().unwrap().1.clear();
    shown.editor.as_mut().unwrap().1.insert_text("137");
    app.panel = Some(shown);
    let PanelStep::Editor(effect) = press(&mut app, KeyCode::Enter, &facts) else {
        panic!("nothing to save");
    };
    assert!(matches!(effect, EditorEffect::HistorySeconds(137)));
    app.editor_settled(&effect, Err("无法写入".into()), NOW);
    assert_eq!(edited(&app), "137");
    assert!(panel(&app).error.is_some());
    app.editor_settled(&effect, Ok(()), NOW + 5);
    assert!(panel(&app).editor.is_none());
    assert_eq!(app.desk.last_user_activity, NOW + 5);
    assert_eq!(app.stream.board.notice, "已保存");
}

#[test]
fn child_back_restores_parent_selection_and_direct_back_closes() {
    let facts = facts();
    let mut p = Panel::open_settings();
    p.row = 4;
    p.apply_assistant_row(Row::Page(Page::Materials), &facts).unwrap();
    assert_eq!(p.page, Page::Materials);
    assert!(!p.back());
    assert_eq!(p.page, Page::Settings);
    assert_eq!(p.row, 4);
    let mut app = app();
    app.panel = Some(p);
    app.command("/ai materials", None, &facts, None, NOW);
    assert!(app.panel.as_mut().unwrap().back());
}

#[test]
fn reselecting_current_agent_keeps_custom_binary_and_source() {
    let mut facts = facts();
    facts.settings.binary = "custom/omp".into();
    facts.settings.source = Source::OmpProfile("live".into());
    let mut p = Panel::new();
    p.discovered = vec![Discovery { host: 0, program: Some("/bin/omp".into()), native: None }];
    if let Effect::Save { change, .. } = p.apply_assistant_row(Row::Host(0), &facts).unwrap() {
        facts.settings.change(change, &facts.presets, &p.discovered);
    }
    assert_eq!(facts.settings.binary, "custom/omp");
    assert!(matches!(&facts.settings.source, Source::OmpProfile(name) if name == "live"));
}

#[test]
fn preset_running_gate_changes_nothing_and_keeps_permission() {
    let mut facts = facts();
    facts.settings.name = "保留".into();
    facts.settings.automatic = true;
    facts.sending_enabled = true;
    facts.running = true;
    let mut p = Panel::new();
    p.page = Page::Presets;
    assert!(p.apply_assistant_row(Row::Preset(0), &facts).is_err());
    assert_eq!(p.page, Page::Presets);
    assert!(facts.sending_enabled);
}

#[test]
fn unsupported_native_option_never_opens_choices() {
    let mut facts = facts();
    facts.options = Some(vec![OptionFacts {
        id: "future".into(),
        name: "未知".into(),
        current: SettingValue::Bool(false),
        current_label: "关".into(),
        choices: vec![],
        unsupported: true,
    }]);
    let mut p = Panel::new();
    assert!(p.apply_assistant_row(Row::Option(0), &facts).is_err());
    assert!(p.choices.is_none());
}

#[test]
fn choosing_per_item_clears_stale_automatic_preference_without_permission() {
    let mut facts = facts();
    facts.settings.automatic = true;
    let mut p = Panel::new();
    p.apply_assistant_row(Row::Permission, &facts).unwrap();
    assert!(matches!(
        p.select_assistant_choice(0, &facts),
        Ok(ChoiceEffect::Automatic(false))
    ));
    facts.settings.automatic = false;
    assert!(matches!(p.select_assistant_choice(0, &facts), Ok(ChoiceEffect::Nothing)));
    assert!(matches!(
        p.select_assistant_choice(1, &facts),
        Ok(ChoiceEffect::Automatic(true))
    ));
    assert!(p.select_assistant_choice(2, &facts).is_err());
}

#[test]
fn external_save_keeps_failed_input_and_manual_draft_until_real_ack() {
    let mut app = app();
    let facts = facts();
    app.desk.input = EditorInput::from_text("甲🙂乙");
    app.desk.input.move_left();
    let cursor = app.desk.input.cursor();
    assert!(matches!(
        app.command("/obs config port 0", None, &facts, None, NOW),
        CommandEffect::SaveEditor
    ));
    assert!(matches!(
        app.follow_panel(PanelAction::SaveEditor, &facts),
        PanelStep::Editor(EditorEffect::External { field: ExternalField::ObsPort, ref value })
            if value == "0"
    ));
    app.save_begun(1);
    app.handle_paste("999", &facts, NOW);
    press(&mut app, KeyCode::Enter, &facts);
    app.handle_ui_event(
        UiEvent::SettingSaved { token: 1, result: Err("端口必须在 1 到 65535 之间".into()) },
        NOW,
        WALL,
    );
    assert_eq!(edited(&app), "0");
    assert!(panel(&app).error.is_some());
    press_key(&mut app, KeyEvent::control('u'), &facts);
    app.handle_paste("4567", &facts, NOW);
    assert!(matches!(
        press(&mut app, KeyCode::Enter, &facts),
        PanelStep::Editor(EditorEffect::External { ref value, .. }) if value == "4567"
    ));
    app.save_begun(2);
    app.handle_ui_event(
        UiEvent::SettingSaved {
            token: 2,
            result: Ok(SavedSetting {
                message: "OBS 端口已保存".into(),
                level: NoticeLevel::Success,
                obs_configuration: None,
            }),
        },
        NOW,
        WALL,
    );
    assert!(panel(&app).editor.is_none());
    assert_eq!(app.desk.input.as_str(), "甲🙂乙");
    assert_eq!(app.desk.input.cursor(), cursor);
}

#[test]
fn late_settings_ack_does_not_close_another_editor() {
    let mut app = app();
    let facts = facts();
    app.command("/obs config host example.invalid", None, &facts, None, NOW);
    app.save_begun(1);
    press(&mut app, KeyCode::Esc, &facts);
    app.panel = None;
    app.command("/ai workspace", None, &facts, None, NOW);
    let before = edited(&app).to_owned();
    app.handle_ui_event(
        UiEvent::SettingSaved {
            token: 1,
            result: Ok(SavedSetting {
                message: "OBS 地址已保存".into(),
                level: NoticeLevel::Success,
                obs_configuration: None,
            }),
        },
        NOW,
        WALL,
    );
    assert_eq!(edited(&app), before);
}

#[test]
fn obs_menu_password_and_stop_overlays_own_keyboard_focus() {
    let mut app = app();
    let facts = facts();
    app.desk.input = EditorInput::from_text("人工草稿");
    app.panel = Some(Panel::open_direct(Page::Obs));
    for command in [MenuCommand::ObsPassword, MenuCommand::ObsStop] {
        let index = panel(&app)
            .rows(&facts)
            .iter()
            .position(|row| *row == Row::Command(command))
            .unwrap();
        app.panel.as_mut().unwrap().row = index;
        press(&mut app, KeyCode::Enter, &facts);
        if command == MenuCommand::ObsPassword {
            assert!(app.desk.secret_mode);
            app.handle_paste("secret-not-saved", &facts, NOW);
        } else {
            assert!(matches!(
                app.desk.stop_flow,
                Some(StopFlow::Confirm { stop_selected: false })
            ));
        }
        press(&mut app, KeyCode::Esc, &facts);
        assert!(!app.desk.secret_mode && app.desk.stop_flow.is_none());
        assert_eq!(panel(&app).page, Page::Obs);
        assert_eq!(app.desk.input.as_str(), "人工草稿");
    }
}

#[test]
fn settings_archive_search_requires_a_keyword_and_cancel_preserves_the_draft() {
    let mut app = app();
    let facts = facts();
    app.desk.input = EditorInput::from_text("甲🙂乙");
    app.desk.input.set_cursor(1);
    app.panel = Some(Panel::open_settings());
    let search = panel(&app)
        .rows(&facts)
        .iter()
        .position(|row| *row == Row::Edit(Field::ArchiveSearch))
        .unwrap();
    app.panel.as_mut().unwrap().row = search;
    press(&mut app, KeyCode::Enter, &facts);
    app.handle_paste("模型 复盘", &facts, NOW);
    press(&mut app, KeyCode::Esc, &facts);
    assert!(panel(&app).editor.is_none());
    assert_eq!(app.desk.input.as_str(), "甲🙂乙");
    assert_eq!(app.desk.input.cursor(), 1);

    press(&mut app, KeyCode::Enter, &facts);
    assert!(matches!(press(&mut app, KeyCode::Enter, &facts), PanelStep::Nothing));
    assert!(panel(&app).error.is_some());
    app.handle_paste("模型 复盘", &facts, NOW);
    let PanelStep::Editor(effect) = press(&mut app, KeyCode::Enter, &facts) else {
        panic!("nothing to search");
    };
    assert!(matches!(&effect, EditorEffect::Search(query) if query == "模型 复盘"));
    app.search_archive(Ok(vec![]), NOW);
    app.editor_settled(&effect, Ok(()), NOW);
    assert!(panel(&app).editor.is_none());
    assert!(app.stream.board.notice.contains("归档会话"));
    assert_eq!(app.desk.input.as_str(), "甲🙂乙");
    assert_eq!(app.desk.input.cursor(), 1);
}

#[test]
fn settings_quit_exits_the_application() {
    let mut app = app();
    let facts = facts();
    app.panel = Some(Panel::open_settings());
    press(&mut app, KeyCode::End, &facts);
    press(&mut app, KeyCode::Enter, &facts);
    assert!(app.desk.quit_requested);
    assert!(app.panel.is_none());
}

#[test]
fn every_page_and_field_has_a_name() {
    for page in [Page::Settings, Page::Reading, Page::Account, Page::Obs, Page::About] {
        assert!(!page.title().is_empty());
    }
    assert_ne!(Field::Name.label(), Field::Topic.label());
    assert_eq!(on_off(true), "开启");
    assert_ne!(on_off(true), on_off(false));
    assert_eq!(self_or(Some("值".into()), "空"), "值");
    assert_eq!(self_or(None, "空"), "空");
    let (name, _) = row_columns(Row::Switch(Switch::ThankGifts), &Panel::new(), &facts());
    assert!(!name.is_empty());
}

#[test]
fn a_switch_is_turned_and_turned_back() {
    let mut facts = facts();
    let found: Vec<Discovery> = vec![];
    facts.settings.change(Change::Toggle(Switch::ThankLikes), &facts.presets, &found);
    assert!(facts.settings.switches.thank_likes);
    facts.settings.change(Change::Toggle(Switch::ThankLikes), &facts.presets, &found);
    assert!(!facts.settings.switches.thank_likes);
}

#[test]
fn a_tool_is_chosen_only_where_it_is_clear() {
    let none: Vec<Discovery> = vec![];
    let settings = settings();
    assert!(matches!(choose_tool(&none, &settings), ToolChoice::NoneFound));
    let one = vec![Discovery { host: 0, program: Some("/bin/a".into()), native: None }];
    assert!(matches!(choose_tool(&one, &settings), ToolChoice::Only(0)));
    assert!(ToolChoice::NoneFound.question().is_some());
    let mut facts = facts();
    facts.running = true;
    assert!(matches!(start_assistant(false, &facts), StartStep::Running));
}

#[test]
fn an_open_list_is_left_without_a_choice() {
    let mut app = app();
    let facts = facts();
    let mut shown = Panel::new();
    shown.choices = Some(Choices {
        target: ChoiceTarget::Option("model".into()),
        values: vec![Choice { value: SettingValue::Id("a".into()), name: "甲".into() }],
        selected: 0,
    });
    app.panel = Some(shown);
    press(&mut app, KeyCode::Esc, &facts);
    assert!(panel(&app).choices.is_none());
}
