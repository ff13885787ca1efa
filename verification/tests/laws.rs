use danmu_terminal::accounts::{AccountEvent, AssistantAccounts, Credential, LoadedSelection};
use danmu_terminal::app::TerminalApp;
use danmu_terminal::app_commands::CommandEffect;
use danmu_terminal::app_events::{operation_notice, UiAction, UiEvent};
use danmu_terminal::app_facts::Services;
use danmu_terminal::app_input::BridgeReport;
use danmu_terminal::app_run::{Beginning, BeginningFailures};
use danmu_terminal::automation::Automation;
use danmu_terminal::commands::{command_suggestions, parse_command, Command};
use danmu_terminal::domain::{AccountStatus, DanmuEvent, DanmuEventKind, DanmuSession};
use danmu_terminal::events::map_bili_emotes;
use danmu_terminal::fields::{parse_seconds, split_list};
use danmu_terminal::geometry::Rect;
use danmu_terminal::input::EditorInput;
use danmu_terminal::keys::{KeyCode, KeyEvent, KeyKind};
use danmu_terminal::notice::{DeliveryStatus, NoticeBoard, NoticeLevel};
use danmu_terminal::panel::{
    readonly_reason, step_settings_page, AssistantSettings, Facts, Field, HostFacts, Page, Panel,
    PersonaKind, PresetFacts, ReplyActivity, Row, Source, Switches, ThemeFacts, WorkspaceStatus,
};
use danmu_terminal::panel_actions::Effect;
use danmu_terminal::panel_details::{menu_lines, panel_area, panel_parts};
use danmu_terminal::panel_edits::EditorEffect;
use danmu_terminal::panel_keys::PanelAction;
use danmu_terminal::qr::{module_lines, qr_lines, qr_popup, QrPopup};
use danmu_terminal::reports::{
    late_echo, login_failed, microphone_done, obs_status_text, room_refresh_failed, stream_started,
};
use danmu_terminal::review::{Execution, Reply, Review};
use danmu_terminal::screen::{draw_compact, is_small, stop_area, Overlay, SmallScreen};
use danmu_terminal::send::guard_reply;
use danmu_terminal::startup::{Startup, StartupCheck, StartupGate};
use danmu_terminal::startup_view::startup_progress_line;
use danmu_terminal::status_view::Pulse;
use danmu_terminal::style::{wrap_styled_spans, Span, Tone};
use danmu_terminal::text::{decimal, trim};

const NOW: u64 = 10_000_000;
const WALL: i64 = 1_700_000_000_000;

fn settings() -> AssistantSettings {
    AssistantSettings {
        host: 0,
        binary: String::new(),
        source: Source::Default,
        name: "助手".into(),
        preferences: String::new(),
        skills: vec![],
        blocked_words: vec![],
        persona: PersonaKind::Assistant,
        reply_activity: ReplyActivity::Balanced,
        automatic: false,
        resume_on_start: false,
        web_search: false,
        switches: Switches {
            use_profile: true,
            use_project: true,
            thank_gifts: false,
            thank_likes: false,
            thank_follows: false,
            thank_shares: false,
            mention_sender: false,
            repair_blocked: false,
            host_priority: false,
            muted_support: false,
        },
    }
}

fn facts() -> Facts {
    Facts {
        local: false,
        account_status: AccountStatus::SignedOut,
        assistant_label: "主账号".into(),
        login_pending: false,
        has_independent: false,
        room: None,
        room_id: "1".into(),
        obs: None,
        obs_error: None,
        settings: settings(),
        saved_settings: false,
        running: false,
        resume_pending: false,
        has_context: false,
        in_flight: false,
        needs_rebuild: false,
        setting_pending: false,
        configuring: false,
        repairing: false,
        repair_result: None,
        connected: false,
        has_session: false,
        options: None,
        tool_mode: None,
        sending_enabled: false,
        candidates: 0,
        approval_problem: None,
        themes: vec![ThemeFacts { id: "shisui".into(), name: "拾穗".into() }],
        theme_name: "拾穗".into(),
        selected_theme: "shisui".into(),
        hosts: vec![HostFacts {
            label: "工具".into(),
            description: "说明".into(),
            supports_search: false,
            takes_rules: true,
        }],
        presets: vec![PresetFacts {
            label: "日常".into(),
            description: "说明".into(),
            reply_activity: ReplyActivity::Active,
            thank_gifts: true,
            thank_likes: false,
            thank_follows: true,
            thank_shares: false,
            mention_sender: true,
            web_search: false,
            repair_blocked: true,
            host_priority: false,
            muted_support: false,
        }],
        effective_activity: ReplyActivity::Balanced,
        activity_labels: ("谨慎".into(), "平衡".into(), "积极".into()),
        persona_labels: ("助手".into(), "主播".into()),
        source_description: "默认".into(),
        topic: String::new(),
        topic_override: None,
        strategy_label: String::new(),
        workspace: Ok("workspace".into()),
        workspace_status: WorkspaceStatus::Unread,
        workspace_note: String::new(),
        profile_summary: String::new(),
        history_idle_seconds: 0,
        layout_chat: false,
        show_name: true,
        show_time: false,
    }
}

fn app() -> TerminalApp {
    let mut app = TerminalApp::new(
        Beginning {
            session: DanmuSession::new("session", "local"),
            automation: Automation {
                accounts: AssistantAccounts::load(
                    Credential { id: "account.json".into() },
                    LoadedSelection::Missing,
                    None,
                ),
                automatic: false,
                resume_on_start: false,
                sending: false,
                running: false,
                resume_pending: false,
            },
            account_status: AccountStatus::SignedOut,
            room: None,
            layout_chat: false,
            show_name: true,
            show_time: false,
        },
        NOW,
        WALL,
    );
    app.stream.board = NoticeBoard::new();
    app
}

fn signed_in(uid: &str) -> AccountStatus {
    AccountStatus::SignedIn {
        display_name: format!("用户{uid}"),
        user_id: uid.into(),
    }
}

fn line(spans: &[Span]) -> String {
    spans.iter().map(|span| span.content.as_str()).collect()
}

fn screen(width: u16, height: u16) -> Rect {
    Rect { x: 0, y: 0, width, height }
}

#[test]
fn news_permit_nothing() {
    for event in [
        UiEvent::DeliveryCompleted,
        UiEvent::OnlineViewers(Ok(Some(3))),
        operation_notice(Ok("完成".into())),
        operation_notice(Err("失败".into())),
    ] {
        let mut app = app();
        app.handle_ui_event(event, NOW, WALL);
        assert!(!app.automation.sending);
        assert!(!app.automation.automatic);
    }
}

#[test]
fn late_sign_ins_are_ignored() {
    let mut app = app();
    app.start_login(1);
    app.cancel_main_login();
    let action = app.handle_ui_event(
        UiEvent::LoginDone { token: 1, status: signed_in("11") },
        NOW,
        WALL,
    );
    assert!(matches!(action, UiAction::Nothing));
    app.start_login(2);
    let action = app.handle_ui_event(
        UiEvent::LoginDone { token: 2, status: signed_in("11") },
        NOW,
        WALL,
    );
    assert!(matches!(action, UiAction::Persist(_)));
}

#[test]
fn a_new_main_account_stops_the_assistant() {
    let mut app = app();
    app.automation.sending = true;
    app.automation.running = true;
    assert!(app.main_login_saved(signed_in("11"), Ok(()), Ok(()), NOW));
    assert!(!app.automation.sending);
    assert!(app.account_status.is_signed_in());
    assert_eq!(app.stream.board.notice, "主账号登录成功；助手仍暂停，未授权发送");
    assert!(!app.main_login_saved(signed_in("22"), Err("磁盘".into()), Ok(()), NOW));
    assert_eq!(app.stream.board.notice, "登录态保存失败，原账号保留：磁盘");
}

#[test]
fn an_independent_account_is_taken_up_once_it_is_verified() {
    let mut app = app();
    app.account_status = signed_in("11");
    let main = Ok(signed_in("11"));
    assert!(app.independent_ready(&main, "22.json".into(), Ok(()), Ok(()), NOW).is_none());
    assert!(app.automation.accounts.independent.is_none());
    app.automation.accounts.start_login(1);
    app.automation
        .accounts
        .apply_event(AccountEvent::Ready { token: 1, status: signed_in("22") });
    app.independent_ready(&main, "22.json".into(), Ok(()), Ok(()), NOW);
    assert_eq!(app.automation.accounts.independent.as_ref().unwrap().id, "22.json");
    assert!(app.stream.board.notice.contains("UID 22"));
    app.account_unavailable("登录态不可用".into(), Ok(()), NOW);
    assert_eq!(app.stream.board.notice, "登录态不可用");
}

#[test]
fn what_failed_at_the_beginning_is_told() {
    let mut app = app();
    let failures = |history: bool, room: Option<&str>| BeginningFailures {
        history,
        session: None,
        room: room.map(str::to_owned),
        automatic: None,
    };
    app.tell_beginning(failures(false, Some("超时")), NOW);
    assert_eq!(app.stream.board.notice, "房间数据读取失败：超时");
    app.tell_beginning(failures(true, Some("超时")), NOW);
    assert_eq!(app.stream.board.notice, "历史后台加载未启动；输入 /diag 查看");
}

#[test]
fn the_assistant_resumes_only_as_decided() {
    let mut app = app();
    app.begin_resume(true, NOW);
    assert!(app.automation.resume_pending);
    app.resume_started(Err("未连接".into()), NOW);
    assert!(!app.automation.resume_pending);
    assert_eq!(app.stream.board.notice, "助手未启用：未连接；请从 /ai 检查后重试");
    app.begin_resume(true, NOW);
    app.resume_refused("身份不符", NOW);
    assert!(!app.automation.resume_pending);
    assert_eq!(app.stream.board.notice, "自动发送未恢复：身份不符；请从 /ai 检查身份");
    app.begin_resume(true, NOW);
    app.resume_cancelled(NOW);
    assert!(!app.automation.resume_pending);
    assert_eq!(app.stream.board.notice, "已取消本次待启用；助手保持关闭");
}

#[test]
fn what_cannot_be_noted_down_stops_the_assistant() {
    let report = || BridgeReport {
        history_load: None,
        history_repair: None,
        routing: Ok(()),
        round: None,
        note: "未通过".into(),
        broke: None,
    };
    let mut app = app();
    assert!(!app.advance_bridge(report(), NOW));
    let mut failed = report();
    failed.routing = Err("磁盘".into());
    assert!(app.advance_bridge(failed, NOW));
    assert_eq!(app.stream.board.notice, "消息分流归档失败，助手已暂停：磁盘");
    let mut rejected = report();
    rejected.round = Some((true, Ok(())));
    assert!(!app.advance_bridge(rejected, NOW));
    assert_eq!(app.stream.board.notice, "未通过");
}

#[test]
fn time_alone_keeps_the_line() {
    let mut app = app();
    app.desk.input = EditorInput::from_text("草稿");
    app.say("完成", NoticeLevel::Success, NOW);
    assert!(!app.tick_at(60, NOW + 3_000));
    assert!(app.stream.board.notice.is_empty());
    assert_eq!(app.desk.input.as_str(), "草稿");
}

#[test]
fn a_held_key_decides_nothing() {
    let mut app = app();
    let none: Vec<Reply> = vec![];
    app.desk.input = EditorInput::from_text("你好");
    let mut held = KeyEvent::press(KeyCode::Enter);
    held.kind = KeyKind::Release;
    app.handle_key(held, &facts(), &none, 0, None, NOW);
    assert_eq!(app.desk.input.as_str(), "你好");
}

#[test]
fn seconds_and_lists_are_read_back() {
    for seconds in [0_u32, 7, 60, u32::MAX] {
        assert_eq!(parse_seconds(&decimal(u64::from(seconds))), Some(seconds));
    }
    assert_eq!(parse_seconds("4294967296"), None);
    assert_eq!(parse_seconds("x"), None);
    assert_eq!(parse_seconds(""), None);
    assert_eq!(split_list("甲，乙; 丙\n,,丁"), ["甲", "乙", "丙", "丁"]);
}

#[test]
fn tab_goes_around_the_settings() {
    let mut page = Page::Reading;
    for _ in 0..5 {
        page = step_settings_page(page, true);
    }
    assert_eq!(page, Page::Reading);
    assert_eq!(step_settings_page(step_settings_page(Page::Obs, true), false), Page::Obs);
}

#[test]
fn local_sessions_reach_nothing_outside() {
    assert!(matches!(parse_command("/obs start", true), Command::Refused));
    assert!(matches!(parse_command("/obs start", false), Command::ObsStart));
    assert!(matches!(parse_command("/nonsense", false), Command::Unknown));
    assert!(matches!(parse_command("/quit", true), Command::Quit));
}

#[test]
fn suggestions_find_what_was_typed() {
    for spec in command_suggestions("/obs", false) {
        assert!(spec.completion.contains("/obs"));
    }
    assert!(command_suggestions("没有这样的命令", true).is_empty());
}

#[test]
fn locked_rows_do_nothing() {
    let mut running = facts();
    running.running = true;
    let mut p = Panel::new();
    p.page = Page::Presets;
    for row in [Row::Preset(0), Row::Host(0)] {
        if readonly_reason(row, &running).is_some() {
            let refused = p.apply_assistant_row(row, &running).unwrap_err();
            assert!(refused.starts_with("只读："));
            assert_eq!(p.page, Page::Presets);
        }
    }
    assert!(readonly_reason(Row::Preset(0), &running).is_some());
}

#[test]
fn no_row_permits_sending_by_itself() {
    for page in [Page::Home, Page::Assistant, Page::Advanced, Page::Candidates] {
        let mut p = Panel::new();
        p.page = page;
        for row in p.rows(&facts()) {
            let mut fresh = Panel::new();
            fresh.page = page;
            if let Ok(effect) = fresh.apply_assistant_row(row, &facts()) {
                assert!(!matches!(effect, Effect::ApproveReview) || page == Page::Candidates);
            }
        }
    }
}

#[test]
fn selection_lands_on_usable_rows() {
    let facts = facts();
    let mut p = Panel::open_settings();
    for _ in 0..12 {
        p.move_assistant_selection(true, &facts);
        assert!(!matches!(p.rows(&facts)[p.row], Row::Group(_)));
    }
}

#[test]
fn editing_runs_nothing() {
    let facts = facts();
    let mut p = Panel::new();
    p.editor = Some((Field::Name, EditorInput::from_text("甲")));
    assert_eq!(
        p.assistant_key(KeyEvent::press(KeyCode::Char('a')), &facts),
        PanelAction::Keep
    );
    assert_eq!(p.editor.as_ref().unwrap().1.as_str(), "甲a");
    assert_eq!(
        p.assistant_key(KeyEvent::press(KeyCode::Enter), &facts),
        PanelAction::SaveEditor
    );
    let mut settings = settings();
    assert!(settings.take_edit(EditorEffect::Name("乙".into())));
    assert_eq!(settings.name, "乙");
    assert!(!settings.take_edit(EditorEffect::HistorySeconds(5)));
}

#[test]
fn the_panel_fits_every_screen() {
    for (width, height) in [(1, 1), (40, 10), (80, 24), (300, 90)] {
        for page in [Page::Home, Page::Candidates, Page::Settings] {
            let area = panel_area(page, screen(width, height));
            assert!(area.x + area.width <= width && area.y + area.height <= height);
        }
    }
    let p = Panel::open_settings();
    let parts = panel_parts(&p, screen(80, 24));
    assert!(parts.header >= 1);
    assert_eq!(menu_lines(&p, &facts(), 80).len(), p.rows(&facts()).len());
}

#[test]
fn the_selected_command_is_shown() {
    let mut app = app();
    app.desk.open_commands();
    app.desk.slash_selection = 1_000;
    let page = app.draw_command_palette(&facts(), screen(100, 30)).unwrap();
    assert!(page.selected < page.items.len());
    assert_eq!(app.overlay(), Overlay::Palette);
    assert!(app.draw_command_palette(&facts(), screen(1, 1)).is_none());
}

#[test]
fn help_is_kept_within_its_lines() {
    let mut app = app();
    assert!(app.draw_help(false, 60, 12).is_none());
    assert!(matches!(
        app.command("/help", None, &facts(), None, NOW),
        CommandEffect::Nothing
    ));
    app.desk.help.as_mut().unwrap().scroll = 10_000;
    let page = app.draw_help(false, 60, 12).unwrap();
    assert!(!page.lines.is_empty());
    assert!(app.desk.help.as_ref().unwrap().scroll < 10_000);
}

#[test]
fn drawn_codes_keep_their_modules_and_border() {
    let dark = vec![true, false, false, true];
    assert_eq!(module_lines(&dark, 2), ["      ", "  ▀▄  ", "      "]);
    let rows = qr_lines("hello").unwrap();
    assert!(rows.iter().all(|row| row.starts_with("  ") && row.ends_with("  ")));
    assert!(rows[0].trim().is_empty());
    let QrPopup::Code(area) = qr_popup(&rows, screen(120, 60)) else {
        panic!("the code fits");
    };
    assert!(usize::from(area.height) >= rows.len() + 2);
}

#[test]
fn a_cut_reply_is_not_complete() {
    let reply = |text: &str| Reply {
        session: "scene".into(),
        caller: "a".into(),
        request_id: "one".into(),
        revision: 1,
        text: text.into(),
        state: Execution::AwaitingApproval,
        reply_to: None,
        original_username: None,
        retry_of: None,
        diagnosis: None,
    };
    let mut review = Review::new();
    let long = vec![reply(&"长".repeat(30))];
    review.prepare_review(false, &long, 1);
    assert!(!review.review_line(1, "主账号", 40).unwrap().complete);
    assert!(review.review_line(1, "主账号", 200).unwrap().complete);
    review.discard_review();
    assert!(review.frame.is_none());
    review.prepare_review(false, &long, 1);
    review.review_all_candidates(true);
    assert!(review.frame.as_ref().unwrap().delivery);
}

#[test]
fn only_a_full_bar_is_done() {
    let text = |ready: bool| line(&startup_progress_line(10_000_000, ready, 10));
    assert_ne!(text(true), text(false));
    let mut startup = Startup::new(false);
    startup.password_saved(false);
    assert!(matches!(startup.gate, StartupGate::Blocked));
    startup.password_saved(true);
    assert!(matches!(startup.gate, StartupGate::Checking));
    assert!(matches!(startup.view.obs, StartupCheck::Running));
}

#[test]
fn red_means_automatic() {
    let mut app = app();
    app.automation.running = true;
    let pulse = Pulse { connected: true, attached: true, tick: 0 };
    let waiting = app.compact(pulse, 16);
    app.automation.automatic = true;
    app.automation.sending = true;
    let sending = app.compact(pulse, 16);
    assert_eq!(waiting.tone, Some(Tone::Green));
    assert_ne!(sending.tone, waiting.tone);
}

#[test]
fn wrapping_styled_text_keeps_it() {
    let spans = vec![
        Span::styled("红色的文字很长".into(), Tone::Red),
        Span::raw("后面还有一些".into()),
    ];
    let lines = wrap_styled_spans(&spans, 6);
    assert!(lines.len() > 2);
    assert_eq!(
        lines.iter().map(|spans| line(spans)).collect::<String>(),
        "红色的文字很长后面还有一些"
    );
    assert_eq!(lines[0][0].tone, Some(Tone::Red));
}

#[test]
fn only_delivered_messages_are_ticked() {
    let mut app = app();
    for (status, ticked) in [
        (DeliveryStatus::Delivered, true),
        (DeliveryStatus::Uncertain, false),
        (DeliveryStatus::Sending, false),
        (DeliveryStatus::Failed, false),
    ] {
        app.stream.board.set_delivery_status_at(status, NOW);
        let header = line(&app.draw_input(None, 0, 100, 3).lines[0]);
        assert_eq!(header.contains('✓'), ticked, "{header}");
    }
}

#[test]
fn the_cursor_stays_in_its_box() {
    let mut app = app();
    app.desk.input = EditorInput::from_string("很长的一行文字".repeat(20));
    let (x, y) = app.draw_input(None, 0, 40, 4).cursor.unwrap();
    assert!((3..38).contains(&x) && (1..4).contains(&y));
    app.desk.stop_flow = Some(danmu_terminal::desk::StopFlow::Stopping);
    assert!(app.draw_input(None, 0, 40, 4).cursor.is_none());
}

#[test]
fn small_screens_show_what_fits() {
    assert!(is_small(31, 40) && is_small(80, 6) && !is_small(80, 24));
    assert!(matches!(draw_compact(0, false, 2), SmallScreen::Nothing));
    assert!(matches!(draw_compact(2, true, 2), SmallScreen::HistoryOnly));
    assert!(matches!(draw_compact(2, false, 2), SmallScreen::OneLine));
    assert!(matches!(draw_compact(6, false, 3), SmallScreen::Newest { input: 3 }));
    assert_eq!(
        stop_area(screen(100, 40)),
        Rect { x: 29, y: 17, width: 42, height: 6 }
    );
}

#[test]
fn hidden_names_do_not_show() {
    let mut app = app();
    let mut event = DanmuEvent::new("one", DanmuEventKind::Danmu, "你好", WALL);
    event.username = Some("观众甲".into());
    let shown = |app: &TerminalApp, event: &DanmuEvent| {
        app.event_lines(event, None, None, true, 60)
            .lines
            .iter()
            .map(|spans| line(spans))
            .collect::<String>()
    };
    assert!(shown(&app, &event).contains("观众甲"));
    app.show_name = false;
    assert!(!shown(&app, &event).contains("观众甲"));
}

#[test]
fn a_blocked_word_is_not_sent() {
    let refused = guard_reply(Some("词")).unwrap();
    assert_eq!(
        refused.detail,
        "命中用户配置的已知词「词」；未向平台发送，不认定为平台本次屏蔽证据"
    );
    assert!(guard_reply(None).is_none());
}

#[test]
fn operations_report_their_end() {
    let told = |event: UiEvent| match event {
        UiEvent::Notice { message, level } => (message, level),
        _ => panic!("a notice"),
    };
    assert_eq!(
        told(microphone_done(true, Ok(()))),
        ("麦克风已静音".to_owned(), NoticeLevel::Success)
    );
    assert_eq!(
        told(microphone_done(false, Err("超时".into()))),
        ("超时".to_owned(), NoticeLevel::Error)
    );
    assert_eq!(told(stream_started(Ok(()))).0, "OBS 已开始推流");
    assert_eq!(
        told(room_refresh_failed("超时")).0,
        "房间数据刷新失败，继续显示上次成功值：超时"
    );
    assert_eq!(
        obs_status_text("直播", "Live", "Muted", Some("旧版本")),
        "OBS 场景：直播；推流：Live；麦克风：Muted；旧版本"
    );
    assert!(matches!(
        login_failed(3, "过期"),
        UiEvent::LoginFailed { token: 3, message } if message == "主账号登录失败，原账号未更改：过期"
    ));
}

#[test]
fn a_late_echo_confirms_and_sends_nothing_again() {
    let mut app = app();
    app.stream.board.set_delivery_status_at(DeliveryStatus::Uncertain, NOW);
    let events = late_echo("one".into(), true);
    assert_eq!(events.len(), 3);
    for event in events {
        app.handle_ui_event(event, NOW, WALL);
    }
    assert_eq!(app.stream.board.notice, "原段迟到回显已确认；不自动重发");
    assert!(matches!(
        late_echo("one".into(), false).as_slice(),
        [UiEvent::DeliveryExpired(id)] if id == "one"
    ));
}

#[test]
fn what_was_not_noted_down_is_told() {
    let mut app = app();
    app.event_noted(Ok(()), Ok(()), NOW);
    assert!(app.stream.board.notice.is_empty());
    app.event_noted(Err("索引".into()), Ok(()), NOW);
    assert_eq!(app.stream.board.notice, "历史索引未更新；原件仍单独保存：索引");
    app.event_noted(Err("索引".into()), Err("磁盘".into()), NOW);
    assert_eq!(app.stream.board.notice, "直播原始归档或工作区副本未完整保存：磁盘");
}

#[test]
fn a_tool_that_is_missing_opens_its_page() {
    let mut app = app();
    app.assistant_started(Err("未安装".into()), Ok(()), NOW).unwrap();
    let panel = app.panel.as_ref().unwrap();
    assert_eq!(panel.page, Page::Models);
    assert_eq!(panel.error.as_deref(), Some("AI 工具未就绪：未安装"));
    app.panel = None;
    app.assistant_started(Ok(()), Ok(()), NOW).unwrap();
    assert_eq!(app.stream.board.notice, "AI启动请求已提交");
    assert!(app.assistant_started(Ok(()), Err("忙".into()), NOW).is_err());
    app.desk.secret_mode = true;
    assert!(app.assistant_started(Err("未安装".into()), Ok(()), NOW).is_err());
}

#[test]
fn decisions_are_told_and_permit_nothing() {
    let mut app = app();
    let waiting: Vec<Reply> = (0..12).map(waiting_reply).collect();
    let generation = app.automation.accounts.generation();
    assert_eq!(
        app.approve_review(&waiting, Ok(()), NOW),
        Err("请先查看回复正文".to_owned())
    );
    app.review.prepare_review(false, &waiting, generation);
    assert_eq!(
        app.approve_review(&waiting, Ok(()), NOW),
        Err("发送身份或可见页面已改变，请重新查看候选".to_owned())
    );
    app.review.shown_on_line(true, false);
    assert_eq!(
        app.reviewed_reply(true, &waiting).err().as_deref(),
        Some("正文尚未完整查看；请展开并从头滚动查看后发送")
    );
    assert!(app.approve_review(&waiting, Ok(()), NOW).is_err());
    assert!(!app.review.frame.as_ref().unwrap().delivery);
    app.review.shown_on_line(true, true);
    assert_eq!(app.reviewed_reply(true, &waiting).unwrap().request_id, "0");
    assert_eq!(
        app.approve_review(&waiting, Err("已处理".into()), NOW),
        Err("已处理".to_owned())
    );
    assert!(!app.review.frame.as_ref().unwrap().delivery);
    assert!(app.stream.board.notice.is_empty());
    app.approve_review(&waiting, Ok(()), NOW).unwrap();
    assert_eq!(app.stream.board.notice, "本条已批准；不授予自动权限，等待发送结果");
    assert!(app.review.frame.as_ref().unwrap().delivery);
    assert!(app.discard_review(&waiting, Ok(()), NOW).is_err());
    app.review.discard_review();
    app.review.prepare_review(false, &waiting, generation);
    app.review.shown_on_line(true, true);
    app.discard_review(&waiting, Ok(()), NOW).unwrap();
    assert_eq!(app.stream.board.notice, "回复已丢弃");
    assert_eq!(
        app.review_all_candidates(true, "scene", &waiting, Ok(()), NOW),
        Err("请先打开待审列表".to_owned())
    );
    app.review.prepare_review(false, &waiting, generation);
    app.review.shown_on_line(true, true);
    assert!(app.reviewed_all("scene", &waiting).is_ok());
    assert_eq!(
        app.reviewed_all("another", &waiting),
        Err("场次或发送身份已改变，请重新查看待审列表".to_owned())
    );
    let none: Vec<Reply> = vec![];
    assert_eq!(app.reviewed_all("scene", &none), Err("暂无待审回复".to_owned()));
    app.review_all_candidates(true, "scene", &waiting, Ok(()), NOW).unwrap();
    assert_eq!(
        app.stream.board.notice,
        "已批准发送 12 条待审回复；不改变自动发送授权"
    );
    app.review.discard_review();
    let one = vec![waiting_reply(0)];
    app.review.prepare_review(false, &one, generation);
    app.review.shown_on_line(true, true);
    app.review_all_candidates(false, "scene", &one, Ok(()), NOW).unwrap();
    assert_eq!(app.stream.board.notice, "已丢弃 1 条待审回复；不改变自动发送授权");
    app.next_candidate(&none, NOW);
    assert!(!app.automation.sending);
}

fn waiting_reply(number: usize) -> Reply {
    Reply {
        session: "scene".into(),
        caller: "a".into(),
        request_id: number.to_string(),
        revision: 1,
        text: "回答".into(),
        state: Execution::AwaitingApproval,
        reply_to: None,
        original_username: None,
        retry_of: None,
        diagnosis: None,
    }
}

#[test]
fn facts_are_gathered_from_the_program() {
    let mut app = app();
    app.account_status = signed_in("42");
    app.automation.running = true;
    app.automation.sending = true;
    app.automation.automatic = true;
    app.layout_chat = true;
    app.stream.status.obs_error = Some("未连接".into());
    let waiting = vec![waiting_reply(0)];
    let told = app.facts(services(), &waiting);
    assert!(told.running && told.sending_enabled && told.settings.automatic && told.layout_chat);
    assert!(matches!(&told.account_status, AccountStatus::SignedIn { user_id, .. } if user_id == "42"));
    assert_eq!(told.assistant_label, app.automation.accounts.label(&app.account_status));
    assert!(!told.has_independent && !told.login_pending);
    assert_eq!(told.room_id, "local");
    assert_eq!(told.obs_error.as_deref(), Some("未连接"));
    assert_eq!(told.candidates, 1);
    assert_eq!(told.approval_problem.as_deref(), Some("请先查看回复正文"));
    assert_eq!(told.profile_summary, "尚未获取，不影响启动");
    assert_eq!(told.theme_name, "shisui");
    let generation = app.automation.accounts.generation();
    app.review.prepare_review(false, &waiting, generation);
    app.review.shown_on_line(true, true);
    assert!(app.facts(services(), &waiting).approval_problem.is_none());
}

fn services() -> Services {
    Services {
        local: false,
        settings: settings(),
        saved_settings: false,
        has_context: false,
        in_flight: false,
        needs_rebuild: false,
        setting_pending: false,
        configuring: false,
        repairing: false,
        repair_result: None,
        connected: false,
        has_session: false,
        options: None,
        tool_mode: None,
        themes: vec![],
        theme_name: "shisui".into(),
        selected_theme: "shisui".into(),
        hosts: vec![],
        presets: vec![],
        effective_activity: ReplyActivity::Balanced,
        activity_labels: (String::new(), String::new(), String::new()),
        persona_labels: (String::new(), String::new()),
        source_description: String::new(),
        topic: String::new(),
        topic_override: None,
        strategy_label: String::new(),
        workspace: Ok(String::new()),
        workspace_status: WorkspaceStatus::Unread,
        workspace_note: String::new(),
        history_idle_seconds: 0,
    }
}

#[test]
fn the_mouse_is_taken_only_by_what_lies_above() {
    let mut app = app();
    assert!(!app.captures_mouse());
    app.desk.input = EditorInput::from_text("正文");
    assert!(!app.captures_mouse());
    app.desk.input = EditorInput::from_text("/help");
    assert!(app.captures_mouse());
    app.desk.input.clear();
    app.panel = Some(Panel::new());
    assert!(app.captures_mouse());
    app.panel = None;
    app.desk.secret_mode = true;
    assert!(app.captures_mouse());
}

#[test]
fn time_that_passes_leaves_the_rest() {
    let mut app = app();
    app.desk.secret_mode = true;
    app.account_status = signed_in("42");
    assert!(!app.tick_at(0, NOW + 5));
    assert_eq!(app.desk.last_user_activity, NOW + 5);
    assert!(app.desk.secret_mode);
    assert!(matches!(&app.account_status, AccountStatus::SignedIn { user_id, .. } if user_id == "42"));
}

#[test]
fn no_known_code_is_left() {
    let shown = map_bili_emotes("[dog][doge][[OK]OK][未知][爱心]");
    assert_eq!(shown, "🐶🐕[👌OK][未知]❤️");
    assert_eq!(map_bili_emotes(&shown), shown);
}

#[test]
fn white_space_is_that_of_the_property() {
    let points = [
        0x9..=0xd,
        0x20..=0x20,
        0x85..=0x85,
        0xa0..=0xa0,
        0x1680..=0x1680,
        0x2000..=0x200a,
        0x2028..=0x2029,
        0x202f..=0x202f,
        0x205f..=0x205f,
        0x3000..=0x3000,
    ];
    for point in 0..=0x10ffff_u32 {
        if let Some(c) = char::from_u32(point) {
            let white = points.iter().any(|range| range.contains(&point));
            assert_eq!(c.is_whitespace(), white, "{point:x}");
        }
    }
    assert_eq!(trim("\u{3000}\u{85} 正文\t\u{2003}"), "正文");
    assert_eq!(trim("\u{200b}正文"), "\u{200b}正文");
}
