use danmu_terminal::accounts::{AssistantAccounts, Credential, LoadedSelection, Mode, Selection};
use danmu_terminal::app::{KeyAction, TerminalApp};
use danmu_terminal::app_commands::{CommandEffect, Submission};
use danmu_terminal::app_events::{UiAction, UiEvent};
use danmu_terminal::app_panel::PanelStep;
use danmu_terminal::app_input::ArchiveHit;
use danmu_terminal::app_run::{local_command, replay_fits, Beginning, LocalCommand};
use danmu_terminal::automation::{Automation, Cached, Scene, Writes};
use danmu_terminal::delivery::{Echo, PendingDelivery};
use danmu_terminal::desk::{SlashAction, StopFlow};
use danmu_terminal::domain::{
    AccountStatus, DanmuEvent, DanmuEventKind, DanmuEventOrigin, DanmuSession, RoomLiveStatus,
    RoomSnapshot,
};
use danmu_terminal::event_view::event_color;
use danmu_terminal::events::display_events;
use danmu_terminal::gift::{GiftDetails, GiftReceipt};
use danmu_terminal::input::EditorInput;
use danmu_terminal::keys::{KeyCode, KeyEvent, KeyKind, Modifiers, MouseKind};
use danmu_terminal::meter::{MicrophoneLevel, MicrophoneState};
use danmu_terminal::notice::{
    DeliveryStatus, NoticeBoard, NoticeLevel, DELIVERY_NOTICE_LIFETIME,
};
use danmu_terminal::panel::{
    AssistantSettings, Facts, HostFacts, ObsFacts, Page, Panel, PersonaKind, PresetFacts, ReplyActivity,
    Source, Switches, ThemeFacts, WorkspaceStatus,
};
use danmu_terminal::panel_edits::Display;
use danmu_terminal::review::{Execution, Reply, ReviewAction};
use danmu_terminal::screen::divide;
use danmu_terminal::status_view::Pulse;
use danmu_terminal::stream::{ClientEvent, Ingested};
use danmu_terminal::style::{Span, Tone};
use danmu_terminal::unicode::{wrapped_cursor_position, wrapped_input_lines};

const NOW: u64 = 10_000_000;
const WALL: i64 = 1_700_000_000_000;

fn settings() -> AssistantSettings {
    AssistantSettings {
        host: 0,
        binary: String::new(),
        source: Source::Default,
        name: "助手".into(),
        preferences: String::new(),
        skills: vec![],
        blocked_words: vec![],
        persona: PersonaKind::Assistant,
        reply_activity: ReplyActivity::Balanced,
        automatic: false,
        resume_on_start: false,
        web_search: false,
        switches: Switches {
            use_profile: true,
            use_project: true,
            thank_gifts: false,
            thank_likes: false,
            thank_follows: false,
            thank_shares: false,
            mention_sender: false,
            repair_blocked: false,
            host_priority: false,
            muted_support: false,
        },
    }
}

fn facts() -> Facts {
    Facts {
        local: false,
        account_status: AccountStatus::SignedOut,
        assistant_label: "主账号".into(),
        login_pending: false,
        has_independent: false,
        room: None,
        room_id: "1".into(),
        obs: None,
        obs_error: None,
        settings: settings(),
        saved_settings: false,
        running: false,
        resume_pending: false,
        has_context: false,
        in_flight: false,
        needs_rebuild: false,
        setting_pending: false,
        configuring: false,
        repairing: false,
        repair_result: None,
        connected: false,
        has_session: false,
        options: None,
        tool_mode: None,
        sending_enabled: false,
        candidates: 0,
        approval_problem: None,
        themes: vec![ThemeFacts { id: "shisui".into(), name: "拾穗".into() }],
        theme_name: "拾穗".into(),
        selected_theme: "shisui".into(),
        hosts: vec![HostFacts {
            label: "工具".into(),
            description: "说明".into(),
            supports_search: false,
            takes_rules: true,
        }],
        presets: vec![PresetFacts {
            label: "日常".into(),
            description: "说明".into(),
            reply_activity: ReplyActivity::Active,
            thank_gifts: true,
            thank_likes: false,
            thank_follows: true,
            thank_shares: false,
            mention_sender: true,
            web_search: false,
            repair_blocked: true,
            host_priority: false,
            muted_support: false,
        }],
        effective_activity: ReplyActivity::Balanced,
        activity_labels: ("谨慎".into(), "平衡".into(), "积极".into()),
        persona_labels: ("助手".into(), "主播".into()),
        source_description: "默认".into(),
        topic: String::new(),
        topic_override: None,
        strategy_label: String::new(),
        workspace: Ok("workspace".into()),
        workspace_status: WorkspaceStatus::Unread,
        workspace_note: String::new(),
        profile_summary: String::new(),
        history_idle_seconds: 0,
        layout_chat: false,
        show_name: true,
        show_time: false,
    }
}

fn app_with(session: DanmuSession, accounts: AssistantAccounts) -> TerminalApp {
    let mut app = TerminalApp::new(
        Beginning {
            session,
            automation: Automation {
                accounts,
                automatic: false,
                resume_on_start: false,
                sending: false,
                running: false,
                resume_pending: false,
            },
            account_status: AccountStatus::SignedOut,
            room: None,
            layout_chat: false,
            show_name: true,
            show_time: false,
        },
        NOW,
        WALL,
    );
    app.stream.board = NoticeBoard::new();
    app
}

fn app(session: DanmuSession) -> TerminalApp {
    app_with(
        session,
        AssistantAccounts::load(
            Credential { id: "account.json".into() },
            LoadedSelection::Missing,
            None,
        ),
    )
}

fn session() -> DanmuSession {
    DanmuSession::new("session", "1")
}

fn event(id: &str, kind: DanmuEventKind, content: &str, at: i64) -> DanmuEvent {
    DanmuEvent::new(id, kind, content, at)
}

fn danmu(id: &str, content: &str, at: i64) -> DanmuEvent {
    event(id, DanmuEventKind::Danmu, content, at)
}

fn writes() -> Writes {
    Writes {
        permission: Ok(()),
        settings: Ok(()),
        grant: Ok(()),
        cleared: Ok(()),
        disabled: Ok(()),
    }
}

fn run(app: &mut TerminalApp, line: &str, now: u64) -> CommandEffect {
    app.command(line, None, &facts(), None, now)
}

/// Carries out what a key leads to; whether the program ends.
fn press_at(app: &mut TerminalApp, key: KeyEvent, now: u64) -> bool {
    let facts = facts();
    let none: Vec<Reply> = vec![];
    match app.handle_key(key, &facts, &none, 0, None, now) {
        KeyAction::Quit => return true,
        KeyAction::Submit(line) => match app.submit(line) {
            Submission::Command(raw) => {
                run(app, &raw, now);
            },
            Submission::Send(_) | Submission::Secret(_) => {},
        },
        KeyAction::Pause => {
            app.automation.pause_assistant(&writes());
        },
        KeyAction::CancelMainLogin => app.cancel_main_login(),
        KeyAction::Panel(action) => {
            assert!(matches!(app.follow_panel(action, &facts), PanelStep::Nothing));
        },
        _ => {},
    }
    app.desk.quit_requested
}

fn press(app: &mut TerminalApp, code: KeyCode) -> bool {
    press_at(app, KeyEvent::press(code), NOW)
}

fn line(spans: &[Span]) -> String {
    spans.iter().map(|span| span.content.as_str()).collect()
}

fn confirmed(ingested: &Ingested) -> bool {
    matches!(ingested.echo, Echo::Confirmed(_))
}

fn notice(app: &TerminalApp) -> &str {
    app.stream.board.notice.as_str()
}

fn set_line(app: &mut TerminalApp, text: &str, cursor: usize) {
    app.desk.input = EditorInput::from_text(text);
    app.desk.input.set_cursor(cursor);
}

#[test]
fn independent_assistant_message_color_requires_uid_not_name_or_prefix() {
    let mut app = app_with(
        session(),
        AssistantAccounts::load(
            Credential { id: "account.json".into() },
            LoadedSelection::Found(Selection {
                mode: Mode::Independent,
                account: Some("22.json".into()),
                remembered_automatic: None,
            }),
            Some(AccountStatus::SignedIn {
                display_name: "助手".into(),
                user_id: "22".into(),
            }),
        ),
    );
    let mut event = danmu("one", "✦ 同名同前缀回复", WALL);
    event.username = Some("助手".into());
    let emphasized = |event: &DanmuEvent, app: &TerminalApp| {
        app.event_lines(event, None, None, true, 80)
            .lines
            .into_iter()
            .flatten()
            .filter(|span| span.tone == Some(Tone::Assistant))
            .map(|span| span.content)
            .collect::<Vec<_>>()
    };
    for uid in [None, Some("33")] {
        event.author_id = uid.map(str::to_owned);
        assert!(emphasized(&event, &app).is_empty());
    }
    event.author_id = Some("22".into());
    for running in [true, false] {
        app.automation.running = running;
        assert_eq!(emphasized(&event, &app), ["助手"]);
    }
    let shown = app.event_lines(&event, None, None, true, 80);
    let body = shown
        .lines
        .iter()
        .flatten()
        .find(|span| span.content.contains("同名同前缀回复"))
        .unwrap();
    assert_eq!(body.tone, Some(Tone::Content));
    assert!(!body.bold);

    app.show_name = false;
    assert!(emphasized(&event, &app).is_empty());
    app.account_status = AccountStatus::SignedIn {
        display_name: "主账号".into(),
        user_id: "22".into(),
    };
    assert!(emphasized(&event, &app).is_empty());
    app.account_status = AccountStatus::SignedOut;
    app.automation.accounts.reuse_main(Ok(())).unwrap();
    assert!(emphasized(&event, &app).is_empty());
}

#[test]
fn stop_flow_requires_selection_and_supports_cancelling_countdown() {
    let mut app = app(session());
    run(&mut app, "/obs stop", NOW);
    assert!(!press(&mut app, KeyCode::Enter));
    assert!(!app.desk.advance_stop_at(NOW + 10_000));
    assert!(app.desk.stop_flow.is_none());

    run(&mut app, "/obs stop", NOW);
    press(&mut app, KeyCode::Up);
    press_at(
        &mut app,
        KeyEvent {
            code: KeyCode::Enter,
            modifiers: KeyEvent::press(KeyCode::Enter).modifiers,
            kind: KeyKind::Repeat,
        },
        NOW,
    );
    assert!(matches!(app.desk.stop_flow, Some(StopFlow::Confirm { .. })));
    press(&mut app, KeyCode::Enter);
    assert!(matches!(app.desk.stop_flow, Some(StopFlow::Countdown { .. })));
    press(&mut app, KeyCode::Char('x'));
    assert!(app.desk.input.is_empty());
    assert!(!press(&mut app, KeyCode::Esc));
    assert!(!app.desk.advance_stop_at(NOW + 10_000));
    assert!(app.desk.stop_flow.is_none());

    run(&mut app, "/obs stop", NOW);
    press(&mut app, KeyCode::Enter);
    assert!(app.desk.stop_flow.is_none(), "reopening must reset selection to return");
}

#[test]
fn stop_flow_sends_one_request_only_after_three_seconds() {
    let mut app = app(session());
    run(&mut app, "/obs stop", NOW);
    press(&mut app, KeyCode::Up);
    press(&mut app, KeyCode::Enter);
    assert!(!app.desk.advance_stop_at(NOW + 2_999));
    assert!(app.desk.advance_stop_at(NOW + 3_000));
    assert!(matches!(app.desk.stop_flow, Some(StopFlow::Stopping)));
    assert!(!app.desk.advance_stop_at(NOW + 3_001));
    app.handle_ui_event(UiEvent::ObsStopDone(Ok(())), NOW + 4_000, WALL);
    assert!(app.desk.stop_flow.is_none());
}

#[test]
fn input_header_renders_live_meter_and_hides_it_when_obs_disconnects() {
    let mut app = app(session());
    app.stream.obs_reported(
        Ok((
            ObsFacts {
                current_scene: "直播".into(),
                stream: "直播中".into(),
                microphone: "麦克风已开".into(),
            },
            MicrophoneState::Unmuted,
        )),
        WALL,
    );
    let level = Some(MicrophoneLevel { peak: -1200 });
    let header = line(&app.draw_input(level, 0, 120, 2).lines[0]);
    assert!(header.contains("MIC"));
    assert!(header.contains("-12"));

    app.stream.status.obs_error = Some("OBS 未连接".into());
    let header = line(&app.draw_input(level, 0, 120, 2).lines[0]);
    assert!(!header.contains("MIC"));
}

#[test]
fn application_notices_render_below_the_danmu_frame() {
    let mut session = session();
    session.ingest(danmu("one", "真实弹幕", WALL));
    let mut app = app(session);
    app.say("测试错误提示", NoticeLevel::Error, NOW);
    let shown = app.application_notice_lines(80).unwrap();
    assert!(shown.content.contains("测试错误提示"));
    let parts = divide(16, 1, 1, 0, 2);
    assert!(parts.notice > 0);
    assert_eq!(
        parts.status + parts.body + parts.notice + parts.review + parts.input,
        16
    );
}

#[test]
fn activity_bursts_and_expiry_leave_chat_rows_unchanged() {
    for chat_layout in [false, true] {
        for (browsing, selecting) in [(false, false), (true, false), (false, true)] {
            let mut session = DanmuSession::with_limit("session", "1", 12);
            for index in 0..12 {
                session.ingest(danmu(
                    &format!("chat-{index}"),
                    &format!("历史弹幕-{index:02}，这是一条需要保留的消息"),
                    WALL - 60_000 + index * 1000,
                ));
            }
            let mut app = app(session);
            app.layout_chat = chat_layout;
            if browsing {
                app.stream.feed.scroll_offset = 4;
            }
            if selecting {
                app.stream.feed.selection_active = true;
                app.stream.feed.selected = 4;
            }
            let rows = |app: &TerminalApp| {
                (
                    app.event_list(),
                    app.list_title("Events"),
                    display_events(&app.stream.feed.session.recent_events)
                        .into_iter()
                        .map(|event| {
                            app.event_lines(event, None, None, true, 40)
                                .lines
                                .iter()
                                .map(|spans| line(spans))
                                .collect::<Vec<_>>()
                        })
                        .collect::<Vec<_>>(),
                )
            };
            let before = rows(&app);
            for index in 0..30 {
                let kind = if index % 2 == 0 {
                    DanmuEventKind::Enter
                } else {
                    DanmuEventKind::Like
                };
                app.stream.ingest_event(
                    event(&format!("activity-{index}"), kind, "临时互动提示", WALL + 60_000),
                    NOW,
                    WALL,
                );
                assert_eq!(rows(&app), before);
                let footer = app.stream.activity.render(40, true, NOW).unwrap().1;
                assert!(footer.contains("观众"), "{footer}");
            }
            app.stream.expire_notice_at(NOW + 10_000);
            assert!(app.stream.activity.render(40, true, NOW + 10_000).is_none());
            assert_eq!(rows(&app), before);
        }
    }
}

#[test]
fn history_scrolling_skips_activity_even_after_it_expires() {
    let mut app = app(session());
    for index in 0..10 {
        app.stream.ingest_event(
            danmu(
                &format!("chat-{index}"),
                &format!("message-{index}"),
                WALL - (30 - index * 2) * 1000,
            ),
            NOW,
            WALL,
        );
        app.stream.ingest_event(
            event(
                &format!("like-{index}"),
                DanmuEventKind::Like,
                "过期的点赞",
                WALL - (29 - index * 2) * 1000,
            ),
            NOW,
            WALL,
        );
    }
    for (older, expected) in [(true, "message-8"), (true, "message-7"), (false, "message-8")] {
        app.stream.feed.scroll_history(older);
        let feed = &app.stream.feed;
        assert_eq!(feed.session.recent_events[feed.scroll_offset].content, expected);
    }
    app.stream.feed.unread_live_count = 2;
    app.stream.feed.scroll_history(false);
    assert_eq!(app.stream.feed.scroll_offset, 0);
    assert_eq!(app.stream.feed.unread_live_count, 0);
}

#[test]
fn polled_likes_cannot_overwrite_a_newer_realtime_total() {
    let mut app = app(session());
    app.stream.handle_client_event(ClientEvent::Likes(300), NOW, WALL);
    app.handle_ui_event(UiEvent::Likes(Ok(Some(221))), NOW, WALL);
    assert_eq!(app.stream.status.likes, Some(300));
}

#[test]
fn event_badges_use_type_colors_and_strip_bilibili_markup() {
    let event = event("one", DanmuEventKind::Enter, "<%战区超人%> 来了", WALL);
    let app = app(session());
    let rendered = app.event_lines(&event, None, None, true, 80);
    let text = line(&rendered.lines[0]);
    assert!(text.contains("战区超人 来了"));
    assert!(!text.contains("<%"));
    assert!(!text.contains("%>"));
    assert!(rendered.lines[0].iter().any(|span| span.background == Some(Tone::Info)));
    assert_ne!(event_color(DanmuEventKind::Enter), event_color(DanmuEventKind::Danmu));
    assert_ne!(event_color(DanmuEventKind::Gift), event_color(DanmuEventKind::Superchat));
    assert_ne!(event_color(DanmuEventKind::Follow), event_color(DanmuEventKind::Like));
}

#[test]
fn broadcaster_name_has_identity_mark_and_pink_color() {
    let mut app = app(session());
    app.stream.status.room = Some(RoomSnapshot {
        room_id: "1".into(),
        broadcaster_id: "42".into(),
        broadcaster_name: "停车拾穗".into(),
        title: "测试直播".into(),
        area: "知识".into(),
        live_started_at: None,
        live_status: RoomLiveStatus::Offline,
    });
    let mut event = danmu("one", "主播消息", WALL);
    event.username = Some("停车拾穗".into());
    event.author_id = Some("42".into());
    let rendered = app.event_lines(&event, None, None, true, 80);
    let crown = rendered.lines[0].iter().find(|span| span.content == "♚ ").unwrap();
    let identity = rendered.lines[0].iter().find(|span| span.content == "停车拾穗").unwrap();
    assert_eq!(crown.tone, Some(Tone::Rank));
    assert_eq!(identity.tone, Some(Tone::Host));
}

#[test]
fn pin_command_keeps_the_selected_message_when_live_messages_arrive() {
    let mut session = session();
    let mut question = danmu("question", "需要重点回答的问题", WALL);
    question.username = Some("观众".into());
    session.ingest(question);
    let mut app = app(session);
    press_at(&mut app, KeyEvent::shift(KeyCode::Up), NOW);
    for character in "/pin".chars() {
        press(&mut app, KeyCode::Char(character));
    }
    let mut incoming = danmu("incoming", "稍后到达的新消息", WALL + 1000);
    incoming.origin = DanmuEventOrigin::Live;
    app.stream.handle_client_event(ClientEvent::Danmu(incoming), NOW, WALL);
    press(&mut app, KeyCode::Enter);
    assert_eq!(
        app.stream.feed.session.featured_event.as_ref().map(|event| event.id.as_str()),
        Some("question")
    );
    assert!(app.desk.input.is_empty());
}

#[test]
fn login_qr_consumes_keys_before_the_underlying_settings_panel() {
    let mut app = app(session());
    set_line(&mut app, "人工草稿", 4);
    app.panel = Some(Panel::open_settings());
    let token = 7;
    app.start_login(token);
    app.handle_ui_event(UiEvent::LoginQr { token, lines: vec!["QR".into()] }, NOW, WALL);
    for code in [KeyCode::Enter, KeyCode::Char('x')] {
        press(&mut app, code);
    }
    press(&mut app, KeyCode::Esc);
    assert!(app.desk.login_qr.is_none());
    assert!(app.panel.is_some());
    let before = notice(&app).to_owned();
    app.handle_ui_event(
        UiEvent::LoginQr { token, lines: vec!["迟到二维码".into()] },
        NOW,
        WALL,
    );
    let action = app.handle_ui_event(
        UiEvent::LoginDone {
            token,
            status: AccountStatus::SignedIn {
                display_name: "迟到账号".into(),
                user_id: "99".into(),
            },
        },
        NOW,
        WALL,
    );
    assert!(matches!(action, UiAction::Nothing));
    assert!(app.desk.login_qr.is_none());
    assert!(matches!(app.account_status, AccountStatus::SignedOut));
    assert_eq!(notice(&app), before);
    press(&mut app, KeyCode::Esc);
    assert!(app.panel.is_none());
    assert_eq!(app.desk.input.as_str(), "人工草稿");
}

#[test]
fn escape_and_selection_behavior_remain_intact() {
    let mut session = session();
    let mut event = danmu("one", "问题", WALL);
    event.username = Some("观众".into());
    session.ingest(event);
    let mut app = app(session);

    press(&mut app, KeyCode::Up);
    assert!(!app.stream.feed.selection_active);
    press_at(&mut app, KeyEvent::shift(KeyCode::Up), NOW);
    assert!(app.stream.feed.selection_active);
    press(&mut app, KeyCode::Char('x'));
    assert!(app.desk.input.is_empty());
    assert!(!press(&mut app, KeyCode::Esc));
    assert!(!app.stream.feed.selection_active);
    for _ in 0..3 {
        assert!(!press(&mut app, KeyCode::Esc));
    }
    assert!(press_at(&mut app, KeyEvent::control('c'), NOW));
}

#[test]
fn successful_delivery_clears_only_transient_delivery_notices() {
    let mut app = app(session());
    app.handle_ui_event(UiEvent::DeliveryNotice("未确认送达".into()), NOW, WALL);
    assert!(app.stream.board.notice_deadline.is_some());
    app.handle_ui_event(UiEvent::DeliveryCompleted, NOW, WALL);
    assert!(notice(&app).is_empty());
    app.handle_ui_event(UiEvent::DeliveryNotice("再次未确认".into()), NOW, WALL);
    app.stream.expire_notice_at(NOW + DELIVERY_NOTICE_LIFETIME);
    assert!(notice(&app).is_empty());
    app.handle_ui_event(
        UiEvent::Notice { message: "登录态需处理".into(), level: NoticeLevel::Error },
        NOW,
        WALL,
    );
    app.handle_ui_event(UiEvent::DeliveryCompleted, NOW, WALL);
    assert_eq!(notice(&app), "登录态需处理");
}

#[test]
fn late_echo_keeps_its_identity_and_expires_at_the_delivery_window() {
    let mut app = app(session());
    let delivery = PendingDelivery::new("late", "late reply", "host", "42", WALL);
    let mut boundary = danmu("boundary", "late reply", WALL + 90_000);
    boundary.author_id = Some("42".into());
    assert!(delivery.matches(&boundary));
    boundary.timestamp += 1;
    assert!(!delivery.matches(&boundary));
    app.handle_ui_event(UiEvent::DeliveryStarted(delivery), NOW, WALL);
    app.handle_ui_event(UiEvent::DeliveryEchoMissing(vec!["late".into()]), NOW, WALL);
    assert_eq!(app.stream.board.delivery_status, DeliveryStatus::Uncertain);
    let mut impostor = danmu("impostor", "late reply", WALL + 30_000);
    impostor.author_id = Some("43".into());
    impostor.username = Some("host".into());
    assert!(!confirmed(&app.stream.ingest_event(impostor, NOW, WALL)));
    let mut echo = danmu("echo", "late reply", WALL + 30_000);
    echo.author_id = Some("42".into());
    assert!(confirmed(&app.stream.ingest_event(echo, NOW, WALL)));
    app.handle_ui_event(UiEvent::DeliveryCompleted, NOW, WALL);
    assert_eq!(app.stream.board.delivery_status, DeliveryStatus::Delivered);
    app.handle_ui_event(UiEvent::DeliveryEchoMissing(vec!["late".into()]), NOW, WALL);
    assert_eq!(app.stream.board.delivery_status, DeliveryStatus::Delivered);
}

#[test]
fn masked_live_echo_after_history_confirmation_is_not_inserted_twice() {
    let mut app = app(session());
    let text = "古天乐，神殿侠侣，应该看过吧";
    app.handle_ui_event(
        UiEvent::DeliveryStarted(PendingDelivery::new("one", text, "停车拾穗", "42", WALL)),
        NOW,
        WALL,
    );
    let mut history = danmu("history", text, WALL + 1000);
    history.username = Some("停车拾穗".into());
    history.author_id = Some("42".into());
    history.origin = DanmuEventOrigin::History;
    assert!(confirmed(&app.stream.ingest_event(history, NOW, WALL)));

    let mut live = danmu("live", text, WALL + 8000);
    live.username = Some("停***".into());
    live.author_id = Some("0".into());
    app.stream.ingest_event(live, NOW, WALL);

    assert_eq!(app.stream.deliveries.confirmed.len(), 1);
    assert_eq!(app.stream.feed.session.recent_events.len(), 1);
    assert_eq!(
        app.stream.feed.session.recent_events[0].username.as_deref(),
        Some("停车拾穗")
    );
}

#[test]
fn app_shows_its_own_live_echo_immediately() {
    let mut app = app(session());
    app.handle_ui_event(
        UiEvent::DeliveryStarted(PendingDelivery::new("one", "主播消息", "拾穗数据", "42", WALL)),
        NOW,
        WALL,
    );
    assert_eq!(app.stream.board.delivery_status, DeliveryStatus::Sending);
    app.handle_ui_event(UiEvent::DeliveryAccepted, NOW, WALL);
    assert_eq!(app.stream.board.delivery_status, DeliveryStatus::AwaitingEcho);

    let mut event = danmu("echo", "主播消息", WALL + 1000);
    event.username = Some("拾***据".into());
    event.author_id = Some("0".into());
    let taken = app
        .stream
        .handle_client_event(ClientEvent::Danmu(event), NOW, WALL)
        .unwrap();

    assert!(confirmed(&taken));
    assert_eq!(app.stream.feed.session.recent_events.len(), 1);
    assert_eq!(
        app.stream.feed.session.recent_events[0].username.as_deref(),
        Some("拾穗数据")
    );
    assert!(app.stream.status.last_live_danmu_at.is_some());
    assert_eq!(app.stream.board.delivery_status, DeliveryStatus::Verifying);
    app.handle_ui_event(UiEvent::DeliveryCompleted, NOW, WALL);
    assert_eq!(app.stream.board.delivery_status, DeliveryStatus::Delivered);
    assert!(notice(&app).is_empty());
}

#[test]
fn segmented_send_tracks_multiple_unconfirmed_echoes_without_overwriting() {
    let mut app = app(session());
    for (id, text, at) in [("first", "第一段", WALL), ("second", "第二段", WALL + 2000)] {
        app.handle_ui_event(
            UiEvent::DeliveryStarted(PendingDelivery::new(id, text, "拾穗数据", "42", at)),
            NOW,
            WALL,
        );
    }
    assert_eq!(app.stream.deliveries.pending.len(), 2);
    let mut second_echo = danmu("echo-2", "第二段", WALL + 3000);
    second_echo.username = Some("拾***据".into());
    second_echo.author_id = Some("0".into());
    let second = app.stream.ingest_event(second_echo, NOW, WALL);
    assert!(matches!(second.echo, Echo::Confirmed(ref id) if id == "second"));
    assert_eq!(app.stream.deliveries.pending.len(), 1);
    assert_eq!(app.stream.board.delivery_status, DeliveryStatus::Verifying);

    let mut first_echo = danmu("echo-1", "第一段", WALL + 4000);
    first_echo.username = Some("拾***据".into());
    first_echo.author_id = Some("0".into());
    let first = app.stream.ingest_event(first_echo, NOW, WALL);
    assert!(matches!(first.echo, Echo::Confirmed(ref id) if id == "first"));
    assert!(app.stream.deliveries.pending.is_empty());
    app.handle_ui_event(UiEvent::DeliveryCompleted, NOW, WALL);
    assert_eq!(app.stream.board.delivery_status, DeliveryStatus::Delivered);
}

#[test]
fn delivery_reminders_include_content_and_expire_once() {
    let mut app = app(session());
    app.handle_ui_event(
        UiEvent::DeliveryRejected {
            content: "请手动重发这条消息".into(),
            message: "发送失败：还没有 B 站登录态".into(),
        },
        NOW,
        WALL,
    );
    assert_eq!(app.stream.board.delivery_status, DeliveryStatus::Failed);
    assert!(notice(&app).contains("请手动重发这条消息"));

    let deadline = app.stream.board.notice_deadline.expect("发送失败提醒应自动消失");
    app.stream.expire_notice_at(deadline);
    assert!(notice(&app).is_empty());
    assert_eq!(app.stream.board.delivery_status, DeliveryStatus::Idle);

    app.handle_ui_event(
        UiEvent::DeliveryStarted(PendingDelivery::new("one", "待确认消息", "拾穗数据", "42", WALL)),
        deadline,
        WALL,
    );
    app.handle_ui_event(UiEvent::DeliveryHistory(vec![]), deadline, WALL);
    assert_eq!(app.stream.board.delivery_status, DeliveryStatus::Verifying);
    app.handle_ui_event(UiEvent::DeliveryTimedOut(vec!["one".into()]), deadline, WALL);
    assert_eq!(app.stream.board.delivery_status, DeliveryStatus::Uncertain);
    assert!(notice(&app).contains("待确认消息"));

    let deadline = app.stream.board.notice_deadline.expect("未确认提醒应自动消失");
    app.stream.expire_notice_at(deadline);
    assert!(notice(&app).is_empty());
    assert_eq!(app.stream.board.delivery_status, DeliveryStatus::Idle);
}

#[test]
fn success_notice_expires_but_warning_remains() {
    let mut app = app(session());
    app.stream.board.set_notice_at("已切换主题：chatroom".into(), NoticeLevel::Success, NOW);
    app.stream.expire_notice_at(NOW + 2_999);
    assert_eq!(notice(&app), "已切换主题：chatroom");
    app.stream.expire_notice_at(NOW + 3_000);
    assert!(notice(&app).is_empty());
    app.stream.board.set_delivery_status_at(DeliveryStatus::Delivered, NOW);
    app.stream.expire_notice_at(NOW + 2_999);
    assert_eq!(app.stream.board.delivery_status, DeliveryStatus::Delivered);
    app.stream.expire_notice_at(NOW + 3_000);
    assert_eq!(app.stream.board.delivery_status, DeliveryStatus::Idle);

    app.stream.board.set_notice_at("停止推流有中断直播风险".into(), NoticeLevel::Warning, NOW);
    app.stream.expire_notice_at(NOW + 60_000);
    assert_eq!(notice(&app), "停止推流有中断直播风险");
}

#[test]
fn overflowing_live_feed_keeps_newest_event_visible() {
    let mut session = session();
    for index in 0..30 {
        let mut event = danmu(
            &format!("old-{index}"),
            &format!("历史消息-{index:02}"),
            WALL + index * 10,
        );
        event.username = Some(format!("观众-{index:02}"));
        session.ingest(event);
    }
    let mut app = app(session);
    let mut latest = danmu("latest", "最新实时弹幕", WALL + 1000);
    latest.origin = DanmuEventOrigin::Live;
    latest.username = Some("新观众".into());
    app.stream.handle_client_event(ClientEvent::Danmu(latest), NOW, WALL);

    let list = app.event_list();
    assert!(!list.browsing);
    let shown = display_events(&app.stream.feed.session.recent_events);
    assert_eq!(shown[list.target.unwrap()].content, "最新实时弹幕");
    assert_eq!(list.target, Some(shown.len() - 1));
}

#[test]
fn periodic_history_recovery_restores_a_message_missed_by_websocket() {
    let mut session = session();
    session.ingest(danmu("previous", "上一条消息", WALL - 10_000));
    let mut app = app(session);
    for _ in 0..2 {
        let mut recovered = danmu("bili-recovered", "做点小玩意", WALL);
        recovered.platform_event_id = Some("recovered".into());
        recovered.origin = DanmuEventOrigin::History;
        recovered.username = Some("停车拾穗".into());
        app.stream.handle_client_event(ClientEvent::Danmu(recovered), NOW, WALL);
    }
    assert_eq!(app.stream.feed.session.recent_events[0].content, "做点小玩意");
    assert_eq!(app.stream.feed.session.recent_events.len(), 2);
}

#[test]
fn incoming_live_event_preserves_the_message_being_browsed() {
    let mut session = session();
    for index in 0..10 {
        session.ingest(danmu(
            &format!("event-{index}"),
            &format!("消息-{index}"),
            WALL + index,
        ));
    }
    let mut app = app(session);
    app.stream.feed.selection_active = true;
    app.stream.feed.selected = 5;
    let selected = app.stream.feed.session.recent_events[5].id.clone();

    let mut latest = danmu("live-latest", "最新实时弹幕", WALL + 1000);
    latest.origin = DanmuEventOrigin::Live;
    app.stream.handle_client_event(ClientEvent::Danmu(latest), NOW, WALL);

    let feed = &app.stream.feed;
    assert_eq!(feed.session.recent_events[feed.selected].id, selected);
}

#[test]
fn history_idle_timeout_tracks_input_not_incoming_messages() {
    let mut session = session();
    for index in 0..8 {
        session.ingest(danmu(
            &format!("old-{index}"),
            &format!("历史-{index}"),
            WALL + index,
        ));
    }
    let mut app = app(session);
    app.handle_mouse(MouseKind::ScrollUp, &facts(), NOW);
    app.desk.last_user_activity = NOW - 120_000;
    press(&mut app, KeyCode::Char('x'));
    let input_at = app.desk.last_user_activity;
    assert_eq!(input_at, NOW);
    let anchor = app.stream.feed.session.recent_events[app.stream.feed.scroll_offset].id.clone();
    app.advance_history_at(60, input_at + 59_000);
    let feed = &app.stream.feed;
    assert_eq!(feed.session.recent_events[feed.scroll_offset].id, anchor);
    assert!(feed.is_browsing_history());
    let mut latest = danmu("latest", "超时后应该看到的最新弹幕", WALL + 1000);
    latest.origin = DanmuEventOrigin::Live;
    app.stream.handle_client_event(ClientEvent::Danmu(latest), NOW, WALL);
    let feed = &app.stream.feed;
    assert_eq!(feed.unread_live_count, 1);
    assert_eq!(feed.session.recent_events[feed.scroll_offset].id, anchor);
    app.advance_history_at(60, input_at + 60_000);
    assert!(!app.stream.feed.is_browsing_history());
    assert_eq!(app.stream.feed.unread_live_count, 0);
    assert_eq!(app.desk.input.as_str(), "x");

    app.handle_mouse(MouseKind::ScrollUp, &facts(), NOW + 60_000);
    app.advance_history_at(0, NOW + 60_000 + 3_600_000);
    assert!(app.stream.feed.is_browsing_history());
    assert!(!press(&mut app, KeyCode::Esc));
    assert!(!app.stream.feed.is_browsing_history());
    assert_eq!(app.desk.input.as_str(), "x");
}

#[test]
fn history_idle_timeout_waits_for_modal_operation_to_finish() {
    let mut session = session();
    session.ingest(danmu("one", "正在准备回复的问题", WALL));
    let mut app = app(session);
    app.stream.feed.selection_active = true;
    app.desk.stop_flow = Some(StopFlow::Confirm { stop_selected: false });
    let now = app.desk.last_user_activity + 120_000;
    app.advance_history_at(60, now);
    assert!(app.stream.feed.selection_active);
    app.desk.stop_flow = None;
    app.advance_history_at(60, now + 59_000);
    assert!(app.stream.feed.selection_active);
    app.advance_history_at(60, now + 60_000);
    assert!(!app.stream.feed.is_browsing_history());
}

#[test]
fn end_returns_from_history_browsing_to_live_feed() {
    let mut app = app(session());
    app.stream.feed.selection_active = true;
    app.stream.feed.selected = 7;
    app.stream.feed.unread_live_count = 3;
    press(&mut app, KeyCode::End);
    assert!(!app.stream.feed.selection_active);
    assert_eq!(app.stream.feed.selected, 0);
    assert_eq!(app.stream.feed.unread_live_count, 0);
}

#[test]
fn chinese_archive_search_completes_without_execution() {
    let mut app = app(session());
    set_line(&mut app, "/搜索", 3);
    press(&mut app, KeyCode::Tab);
    assert_eq!(app.desk.input.as_str().trim(), "/find");
}

#[test]
fn paste_stays_in_draft_and_cannot_cross_modal_confirmation() {
    let mut app = app(session());
    app.handle_paste("/quit\r\n/obs start\t\u{3}\u{10}", &facts(), NOW);
    assert_eq!(app.desk.input.as_str(), "/quit /obs start ");
    assert!(!app.desk.quit_requested);
    assert!(app.desk.stop_flow.is_none());
    assert!(app.stream.deliveries.pending.is_empty());

    set_line(&mut app, "保留人工草稿", 6);
    app.desk.stop_flow = Some(StopFlow::Confirm { stop_selected: true });
    app.handle_paste("\r\n/quit\u{1b}", &facts(), NOW);
    assert!(matches!(app.desk.stop_flow, Some(StopFlow::Confirm { stop_selected: true })));
    assert_eq!(app.desk.input.as_str(), "保留人工草稿");
    app.desk.stop_flow = None;
    app.desk.login_qr = Some(vec!["QR".into()]);
    app.handle_paste("/quit\r", &facts(), NOW);
    assert_eq!(app.desk.input.as_str(), "保留人工草稿");
    assert!(app.desk.login_qr.is_some());
    app.desk.login_qr = None;
    app.stream.feed.selection_active = true;
    app.handle_paste("不应编辑回复对象下的草稿\n", &facts(), NOW);
    assert_eq!(app.desk.input.as_str(), "保留人工草稿");
}

#[test]
fn secret_paste_stays_hidden_and_bypasses_slash_completion() {
    let mut app = app(session());
    app.desk.secret_mode = true;
    app.handle_paste("/obs config password\r\nsecret-marker\u{3}", &facts(), NOW);
    let secret = "/obs config password secret-marker";
    assert_eq!(app.desk.input.as_str(), secret);
    press(&mut app, KeyCode::Tab);
    assert_eq!(app.desk.input.as_str(), secret);
    for shown in app.draw_input(None, 0, 100, 6).lines.iter().map(|spans| line(spans)) {
        assert!(!shown.contains("secret-marker"));
        assert!(!shown.contains("/obs config password"));
    }
    assert!(!notice(&app).contains("secret-marker"));
    press(&mut app, KeyCode::Esc);
    assert!(!app.desk.secret_mode);
    assert!(app.desk.input.is_empty());
    assert!(app.stream.feed.session.recent_events.is_empty());
}

#[test]
fn command_search_restores_cursor_and_never_sends_query_text() {
    let mut app = app(session());
    set_line(&mut app, "草稿甲🙂乙", 3);
    app.stream.feed.selection_active = true;
    press_at(&mut app, KeyEvent::control('o'), NOW);
    app.handle_paste("没有匹配的中文搜索", &facts(), NOW);
    press(&mut app, KeyCode::Enter);
    assert!(app.desk.search.is_some());
    assert_eq!(app.stream.board.delivery_status, DeliveryStatus::Idle);
    press_at(&mut app, KeyEvent::control('p'), NOW);
    assert!(!app.automation.running);
    assert!(!app.automation.sending);
    press(&mut app, KeyCode::Esc);
    assert_eq!(app.desk.input.as_str(), "草稿甲🙂乙");
    assert_eq!(app.desk.input.cursor(), 3);
    assert!(app.stream.feed.selection_active);
    press_at(&mut app, KeyEvent::control('o'), NOW);
    app.handle_paste("/ai materials", &facts(), NOW);
    press(&mut app, KeyCode::Enter);
    assert!(app.panel.is_some());
    assert!(app.desk.search.is_none());
    assert_eq!(app.desk.input.as_str(), "草稿甲🙂乙");
    assert_eq!(app.desk.input.cursor(), 3);
    assert_eq!(app.stream.board.delivery_status, DeliveryStatus::Idle);
}

#[test]
fn command_search_obs_submenu_and_password_preserve_the_original_draft() {
    let mut app = app(session());
    set_line(&mut app, "未完成的人工回复", 2);
    press_at(&mut app, KeyEvent::control('o'), NOW);
    app.desk.input.replace("/obs".into());
    press(&mut app, KeyCode::Enter);
    assert_eq!(app.desk.input.as_str(), "/obs ");
    assert!(app.desk.search.is_some());
    app.desk.input.replace("/obs config password".into());
    press(&mut app, KeyCode::Enter);
    assert!(app.desk.secret_mode);
    assert!(app.desk.input.is_empty());
    app.handle_paste("secret", &facts(), NOW);
    press(&mut app, KeyCode::Esc);
    assert_eq!(app.desk.input.as_str(), "未完成的人工回复");
    assert_eq!(app.desk.input.cursor(), 2);
    assert!(!app.desk.secret_mode);
}

#[test]
fn obs_poll_failure_clears_stale_status_without_polluting_room_strip() {
    let mut app = app(session());
    let report = |microphone: MicrophoneState| {
        UiEvent::ObsStatus(Ok((
            ObsFacts {
                current_scene: "直播".into(),
                stream: "直播中".into(),
                microphone: "麦克风".into(),
            },
            microphone,
        )))
    };
    app.handle_ui_event(report(MicrophoneState::Muted), NOW, WALL);
    assert!(app.stream.status.obs.is_some());
    assert!(app.stream.status.obs_error.is_none());
    assert_eq!(app.stream.status.microphone, MicrophoneState::Muted);

    app.handle_ui_event(UiEvent::ObsStatus(Err("OBS WebSocket 连接失败".into())), NOW, WALL);
    assert!(app.stream.status.obs.is_none());
    assert_eq!(app.stream.status.obs_error.as_deref(), Some("OBS WebSocket 连接失败"));
    assert!(app.stream.status.obs_checked_at.is_some());
    assert_eq!(app.stream.status.microphone, MicrophoneState::Unknown);

    let header = line(&app.draw_input(None, 0, 120, 2).lines[0]);
    assert!(!header.contains("OBS"), "{header}");

    app.handle_ui_event(report(MicrophoneState::Unmuted), NOW, WALL);
    assert_eq!(app.stream.status.microphone, MicrophoneState::Unmuted);
}

#[test]
fn long_input_wraps_inside_the_input_frame() {
    let mut app = app(session());
    app.desk.input = EditorInput::from_string(format!("{}TAIL", "a".repeat(35)));
    assert_eq!(
        wrapped_cursor_position(app.desk.input.as_str(), app.desk.input.cursor(), 35),
        (1, 4)
    );
    assert_eq!(
        wrapped_input_lines("甲乙丙丁", 6),
        vec!["甲乙丙".to_string(), "丁".to_string()]
    );
    let shown = app.draw_input(None, 0, 40, 3);
    assert_eq!(line(&shown.lines[2]), format!("╰─ TAIL{}─╯", " ".repeat(31)));
}

#[test]
fn mouse_and_arrow_history_navigation_preserve_the_draft() {
    let mut session = session();
    for index in 0..8 {
        session.ingest(danmu(&index.to_string(), &format!("消息 {index}"), WALL + index));
    }
    let mut app = app(session);
    let shown = |app: &TerminalApp| {
        let feed = &app.stream.feed;
        feed.session.recent_events[feed.scroll_offset].content.clone()
    };
    app.handle_mouse(MouseKind::ScrollUp, &facts(), NOW);
    assert_eq!(shown(&app), "消息 6");
    assert!(!app.stream.feed.selection_active);
    app.handle_mouse(MouseKind::ScrollDown, &facts(), NOW);
    assert_eq!(app.stream.feed.scroll_offset, 0);
    assert!(!app.stream.feed.selection_active);

    app.stream.feed.selection_active = true;
    app.stream.feed.selected = 3;
    app.handle_mouse(MouseKind::ScrollUp, &facts(), NOW);
    assert_eq!(shown(&app), "消息 3");
    assert!(!app.stream.feed.selection_active);
    app.stream.ingest_event(danmu("arrival", "新到达的消息", WALL + 1000), NOW, WALL);
    assert_eq!(shown(&app), "消息 3");
    assert_eq!(app.stream.feed.unread_live_count, 1);

    for _ in 0..20 {
        app.handle_mouse(MouseKind::ScrollUp, &facts(), NOW);
    }
    assert_eq!(shown(&app), "消息 0");
    for _ in 0..20 {
        app.handle_mouse(MouseKind::ScrollDown, &facts(), NOW);
    }
    assert_eq!(app.stream.feed.scroll_offset, 0);
    assert_eq!(app.stream.feed.unread_live_count, 0);
    set_line(&mut app, "草稿🙂保留", 2);
    press(&mut app, KeyCode::Up);
    assert_eq!(shown(&app), "消息 7");
    assert!(!app.stream.feed.selection_active);
    press(&mut app, KeyCode::End);
    assert_eq!(app.stream.feed.scroll_offset, 0);
    assert_eq!(app.desk.input.as_str(), "草稿🙂保留");
    assert_eq!(app.desk.input.cursor(), 2);
}

#[test]
fn failed_online_refresh_preserves_the_last_successful_value() {
    let mut app = app(session());
    app.handle_ui_event(UiEvent::OnlineViewers(Ok(Some(11))), NOW, WALL);
    app.handle_ui_event(UiEvent::OnlineViewers(Err("暂时失败".into())), NOW, WALL);
    assert_eq!(app.stream.status.online_viewers, Some(11));
    assert!(notice(&app).contains("继续显示上次成功值"));
}

#[test]
fn keyboard_palette_restores_unicode_draft_and_direct_page_closes_once() {
    let mut app = app(session());
    set_line(&mut app, "甲🙂乙", 1);
    press_at(&mut app, KeyEvent::control('o'), NOW);
    app.handle_paste("模型", &facts(), NOW);
    let index = app
        .desk
        .command_suggestions(false)
        .iter()
        .position(|spec| spec.completion == "/ai model")
        .unwrap();
    for _ in 0..index {
        press(&mut app, KeyCode::Down);
    }
    press(&mut app, KeyCode::Enter);
    assert_eq!(app.desk.input.as_str(), "甲🙂乙");
    assert_eq!(app.desk.input.cursor(), 1);
    assert!(app.panel.is_some());
    press(&mut app, KeyCode::Esc);
    assert!(app.panel.is_none());
    run(&mut app, "/ai model", NOW);
    press(&mut app, KeyCode::Esc);
    assert!(app.panel.is_none());
}

#[test]
fn palette_opens_optional_argument_editor_and_preserves_unicode_parameters() {
    let mut app = app(session());
    app.desk.open_commands();
    app.desk.input.replace("/scene".into());
    press(&mut app, KeyCode::Tab);
    assert!(app.panel.is_none(), "Tab must not activate the editor");
    press(&mut app, KeyCode::Enter);
    assert!(app.panel.as_ref().is_some_and(Panel::is_editing));
    press(&mut app, KeyCode::Esc);
    press(&mut app, KeyCode::Esc);
    app.desk.open_commands();
    app.desk.input.replace("/find 档案 甲".into());
    assert!(matches!(
        app.desk.handle_slash_key(KeyEvent::press(KeyCode::Enter), false),
        SlashAction::Submit(raw) if raw == "/find 档案 甲"
    ));
}

#[test]
fn slash_obs_reports_progress_and_quit_exits() {
    let mut app = app(session());
    run(&mut app, "/obs", NOW);
    assert!(matches!(app.stream.board.notice_level, NoticeLevel::Progress));
    run(&mut app, "/quit", NOW);
    assert!(app.desk.quit_requested);
}

#[test]
fn explicit_display_setting_persists_even_when_runtime_override_already_matches() {
    let mut app = app(session());
    app.show_time = false;
    assert!(matches!(
        run(&mut app, "/display time off", NOW),
        CommandEffect::Display(Display::Times(false))
    ));
    app.display_saved(Display::Times(false), Ok(()), NOW);
    assert!(!app.show_time);
}

#[test]
fn compact_assistant_only_becomes_ready_after_acp_session_is_connected() {
    let mut app = app(session());
    let mut pulse = Pulse { connected: false, attached: false, tick: 0 };
    assert!(app.compact(pulse, 16).content.is_empty());
    app.automation.resume_pending = true;
    assert!(app.compact(pulse, 16).content.contains("AI启动中"));
    app.automation.pause_assistant(&writes());
    assert!(app.compact(pulse, 16).content.is_empty());

    app.automation.running = true;
    let first = app.compact(pulse, 16);
    assert!(first.content.contains("AI启动中"));
    assert_eq!(first.tone, Some(Tone::Cyan));

    pulse.tick += 1;
    let next = app.compact(pulse, 16);
    assert!(next.content.contains("AI启动中"));
    assert_ne!(first.content, next.content);

    pulse.attached = true;
    assert!(app.compact(pulse, 16).content.contains("AI启动中"));
    pulse.connected = true;
    pulse.attached = false;
    assert!(app.compact(pulse, 16).content.contains("AI启动中"));

    pulse.attached = true;
    app.automation.automatic = false;
    let ready = app.compact(pulse, 16);
    assert_eq!(ready.content, "✦ ");
    assert_eq!(ready.tone, Some(Tone::Green));

    app.automation.running = false;
    assert!(app.compact(pulse, 16).content.is_empty());
}

#[test]
fn a_secret_line_is_never_a_message() {
    let mut app = app(session());
    app.desk.secret_mode = true;
    assert!(matches!(app.submit("secret".into()), Submission::Secret(text) if text == "secret"));
    app.desk.secret_mode = false;
    assert!(matches!(app.submit("/quit".into()), Submission::Command(text) if text == "/quit"));
    assert!(matches!(app.submit("你好".into()), Submission::Send(parts) if parts == ["你好"]));
}

#[test]
fn control_and_alt_together_type_nothing() {
    let mut app = app(session());
    press_at(
        &mut app,
        KeyEvent {
            code: KeyCode::Char('x'),
            modifiers: Modifiers { shift: false, control: true, alt: true, extra: false },
            kind: KeyKind::Press,
        },
        NOW,
    );
    assert!(app.desk.input.is_empty());
}

fn offered() -> Vec<Reply> {
    vec![Reply {
        session: "scene".into(),
        caller: "a".into(),
        request_id: "one".into(),
        revision: 1,
        text: "原候选".into(),
        state: Execution::AwaitingApproval,
        reply_to: None,
        original_username: None,
        retry_of: None,
        diagnosis: None,
    }]
}

/// Presses a key while a reply waits on its line.
fn press_offered(app: &mut TerminalApp, key: KeyEvent) -> KeyAction {
    let candidates = offered();
    app.handle_key(key, &facts(), &candidates, 1, None, NOW)
}

fn show_offered(app: &mut TerminalApp) {
    app.review.prepare_review(false, &offered(), 1);
    app.review.shown_on_line(true, true);
}

#[test]
fn mouse_clicks_cannot_open_or_send_a_visible_candidate() {
    let mut app = app(session());
    set_line(&mut app, "人工草稿甲🙂乙", 3);
    show_offered(&mut app);
    for _ in 0..8 {
        app.handle_mouse(MouseKind::Other, &facts(), NOW);
    }
    assert!(app.panel.is_none());
    assert_eq!(app.desk.input.as_str(), "人工草稿甲🙂乙");
    assert_eq!(app.desk.input.cursor(), 3);
    assert!(!app.review.frame.as_ref().unwrap().delivery);
}

#[test]
fn help_blocks_drafts_and_review_but_keeps_global_safety_keys() {
    let mut app = app(session());
    set_line(&mut app, "人工草稿甲🙂乙", 3);
    run(&mut app, "/help", NOW);
    show_offered(&mut app);
    app.handle_paste("/quit\r\n不发送\u{3}", &facts(), NOW);
    press_offered(&mut app, KeyEvent::press(KeyCode::Char('x')));
    assert_eq!(app.desk.input.as_str(), "人工草稿甲🙂乙");
    assert!(app.desk.help.is_some());
    assert!(matches!(press_offered(&mut app, KeyEvent::control('p')), KeyAction::Pause));
    assert!(app.desk.help.is_some());
    let action = press_offered(&mut app, KeyEvent::shift(KeyCode::Enter));
    assert!(app.desk.help.is_none());
    assert!(matches!(action, KeyAction::Nothing));
    run(&mut app, "/help", NOW);
    press(&mut app, KeyCode::Esc);
    assert!(app.desk.help.is_none());
    run(&mut app, "/help", NOW);
    assert!(press_at(&mut app, KeyEvent::control('c'), NOW));
}

#[test]
fn assistant_menu_preserves_manual_input_without_starting_or_sending() {
    let mut app = app(session());
    set_line(&mut app, "人工草稿甲🙂乙", 3);
    for code in 6..=9 {
        press_offered(&mut app, KeyEvent::press(KeyCode::F(code)));
        assert!(app.panel.is_none());
        assert!(app.review.edit.is_none());
    }
    assert!(matches!(press_offered(&mut app, KeyEvent::control('g')), KeyAction::OpenAssistant));
    app.open_assistant(NOW);
    assert!(app.panel.is_some());
    assert!(!app.automation.running);
    assert!(!app.automation.sending);
    press(&mut app, KeyCode::Esc);
    assert!(app.panel.is_none());
    assert_eq!(app.desk.input.as_str(), "人工草稿甲🙂乙");
    assert_eq!(app.desk.input.cursor(), 3);
}

#[test]
fn cancel_and_validation_errors_keep_candidate_and_manual_draft_separate() {
    let mut app = app(session());
    set_line(&mut app, "人工草稿甲🙂乙", 3);
    let candidates = offered();
    show_offered(&mut app);
    app.edit_review(&candidates, 1, NOW).unwrap();
    for invalid in [String::new(), "界".repeat(1366), "含\n控制字符".into()] {
        app.desk.input.replace(invalid.clone());
        let request = app.save_candidate_edit(1, NOW).unwrap();
        assert_eq!(request.text, invalid);
        app.candidate_saved(Err("内容无效".into()), NOW);
        assert!(app.review.edit.is_some());
        assert_eq!(app.desk.input.as_str(), invalid);
        assert!(notice(&app).contains("保存失败"));
    }
    press_offered(&mut app, KeyEvent::press(KeyCode::Esc));
    assert_eq!(app.desk.input.as_str(), "人工草稿甲🙂乙");
    assert_eq!(app.desk.input.cursor(), 3);
    show_offered(&mut app);
    app.edit_review(&candidates, 1, NOW).unwrap();
    app.desk.input.replace("/quit".into());
    assert!(matches!(
        press_offered(&mut app, KeyEvent::press(KeyCode::Enter)),
        KeyAction::SaveEdit
    ));
    let request = app.save_candidate_edit(1, NOW).unwrap();
    assert_eq!(request.text, "/quit");
    assert_eq!(request.request, "one");
    app.candidate_saved(Ok(()), NOW);
    assert!(!app.desk.quit_requested);
    assert_eq!(app.desk.input.as_str(), "人工草稿甲🙂乙");
}

#[test]
fn a_late_identity_cannot_save_an_edit() {
    let mut app = app(session());
    set_line(&mut app, "草稿", 2);
    show_offered(&mut app);
    app.edit_review(&offered(), 1, NOW).unwrap();
    assert!(app.save_candidate_edit(2, NOW).is_none());
    assert!(app.review.edit.is_some());
}

#[test]
fn archive_hits_are_told() {
    let mut app = app(session());
    app.search_archive(Err("无法读取".into()), NOW);
    assert!(notice(&app).contains("无法读取"));
    app.search_archive(
        Ok(vec![ArchiveHit { room_id: "1".into(), started: "2024-01-01 20:00".into() }]),
        NOW,
    );
    assert!(notice(&app).contains("2024-01-01 20:00"));
}

#[test]
fn local_commands_are_read() {
    assert!(matches!(
        local_command("/event 观众 你好 世界"),
        LocalCommand::Event { name, author, content }
            if name == "观众" && author == "观众" && content == "你好 世界"
    ));
    assert!(matches!(local_command("/event 观众"), LocalCommand::EventUsage));
    assert!(matches!(local_command("/local uncertain"), LocalCommand::Outcome(1)));
    assert!(matches!(local_command("/local later"), LocalCommand::OutcomeUsage));
    assert!(matches!(local_command("/session new"), LocalCommand::NewSession));
    assert!(matches!(local_command("/session end"), LocalCommand::EndSession));
    assert!(matches!(local_command("你好"), LocalCommand::Other));
    assert!(replay_fits(1 << 20));
    assert!(!replay_fits((1 << 20) + 1));
}

#[test]
fn invalid_identity_command_keeps_the_room_and_manual_sending_alive() {
    for search in [false, true] {
        let mut app = app(DanmuSession::new("session", "100"));
        set_line(&mut app, "人工草稿", 4);
        if search {
            app.desk.open_commands();
        }
        app.automation.running = true;
        let scene = Scene { local: false, active: true, session: "scene".into() };
        let cached = Cached { readable: true, status: Ok(AccountStatus::SignedOut) };
        let refused = app.set_automatic_permission(true, &scene, &cached, &writes(), NOW);
        let message = refused.unwrap_err();
        assert!(!app.automation.sending);
        assert!(!app.automation.running);
        assert!(!app.automation.automatic);
        assert_eq!(notice(&app), message);
        assert_eq!(app.panel.as_ref().unwrap().page, Page::Account);
        assert!(!app.desk.quit_requested);
        app.panel = None;
        if search {
            app.desk.close_command_search();
        }
        assert_eq!(app.desk.input.as_str(), "人工草稿");
        assert!(matches!(app.submit("你好".into()), Submission::Send(_)));
    }
}

fn waiting(text: &str) -> Reply {
    Reply {
        session: "scene".into(),
        caller: "a".into(),
        request_id: "one".into(),
        revision: 1,
        text: text.into(),
        state: Execution::AwaitingApproval,
        reply_to: None,
        original_username: Some("观众".into()),
        retry_of: None,
        diagnosis: None,
    }
}

/// The screen is drawn: what was visible is looked at anew.
fn paint(app: &mut TerminalApp, candidates: &Vec<Reply>) {
    app.review.clear_review_surface(None);
    app.show_review(candidates, 120, 1);
}

#[test]
fn command_search_cannot_approve_a_reply_hidden_below_it() {
    let mut app = app(session());
    app.desk.input = EditorInput::from_text("人工草稿甲🙂乙");
    app.desk.input.set_cursor(3);
    let candidates = vec![waiting("原候选")];
    let generation = app.automation.accounts.generation();
    let submit = KeyEvent::shift(KeyCode::Enter);
    let open = KeyEvent::control('o');
    paint(&mut app, &candidates);
    assert!(app.review.frame.as_ref().unwrap().visible);
    app.handle_key(open, &facts(), &candidates, generation, None, NOW);
    assert!(app.desk.search.is_some());
    paint(&mut app, &candidates);
    let pressed = app.handle_key(submit, &facts(), &candidates, generation, None, NOW);
    assert!(!matches!(pressed, KeyAction::Review(ReviewAction::Approve)), "{pressed:?}");
    assert!(app.reviewed_reply(true, &candidates).is_err());
    assert!(!app.review.frame.as_ref().unwrap().delivery);
    app.handle_key(KeyEvent::press(KeyCode::Esc), &facts(), &candidates, generation, None, NOW);
    assert_eq!(app.desk.input.as_str(), "人工草稿甲🙂乙");
    assert_eq!(app.desk.input.cursor(), 3);
    paint(&mut app, &candidates);
    let pressed = app.handle_key(submit, &facts(), &candidates, generation, None, NOW);
    assert!(matches!(pressed, KeyAction::Review(ReviewAction::Approve)), "{pressed:?}");
}

#[test]
fn the_line_of_a_reply_is_seen_only_where_nothing_covers_it() {
    let mut app = app(session());
    let candidates = vec![waiting("原候选")];
    assert!(app.show_review(&candidates, 0, 1).is_none());
    assert!(app.show_review(&candidates, 120, 0).is_none());
    assert!(app.show_review(&vec![], 120, 1).is_none());
    assert!(app.review.frame.is_none());
    let line = app.show_review(&candidates, 120, 1).unwrap();
    assert!(line.text.starts_with("待审 1 · 未登录 → "), "{}", line.text);
    assert!(line.complete);
    assert!(app.reviewed_reply(true, &candidates).is_ok());
    assert!(!app.show_review(&candidates, 20, 1).unwrap().complete);
    assert!(app.reviewed_reply(true, &candidates).is_err());
    app.desk.secret_mode = true;
    assert!(app.show_review(&candidates, 120, 1).is_some());
    assert!(!app.review.frame.as_ref().unwrap().visible);
    app.desk.secret_mode = false;
    app.panel = Some(Panel::new());
    assert!(app.show_review(&candidates, 120, 1).is_none());
    app.panel = None;
    let long = vec![waiting(&"需要逐页审核的正文".repeat(140))];
    let (lines, at) = app.show_review_body(&long, 60, 10, u16::MAX).unwrap();
    assert_eq!(usize::from(at), lines.len() - 10);
    assert!(app.reviewed_reply(true, &long).is_err());
    for page in 0..64 {
        app.show_review_body(&long, 60, 10, page * 10);
    }
    assert!(app.reviewed_reply(true, &long).is_ok());
    assert!(app.show_review_body(&vec![], 60, 10, 0).is_none());
    assert!(app.review.frame.is_none());
}

#[test]
fn gift_combo_renders_one_row_without_moving_past_newer_chat() {
    let mut app = app(session());
    for index in 0..2 {
        let gift = GiftDetails {
            name: "人气票".into(),
            action: "投喂".into(),
            blind_gift: None,
            receipts: vec![GiftReceipt { id: format!("receipt-{index}"), quantity: 1 }],
            reported_quantity: 0,
        };
        let at = WALL + 2 * index;
        let mut gifted = event("one-gift-batch", DanmuEventKind::Gift, &gift.content(), at);
        gifted.gift = Some(gift);
        app.stream.ingest_event(gifted, NOW, WALL);
        if index == 0 {
            app.stream.ingest_event(danmu("chat", "后来的聊天", WALL + 1), NOW, WALL);
        }
    }
    let rendered = display_events(&app.stream.feed.session.recent_events)
        .into_iter()
        .flat_map(|event| app.event_lines(event, None, None, true, 100).lines)
        .map(|line| line.into_iter().map(|span| span.content).collect::<String>())
        .collect::<Vec<_>>()
        .join("\n")
        .replace(' ', "");
    assert_eq!(rendered.matches("人气票").count(), 1, "{rendered}");
    assert!(rendered.contains("人气票×2"), "{rendered}");
    assert!(
        rendered.find("人气票").unwrap() < rendered.find("后来的聊天").unwrap(),
        "{rendered}"
    );
}

#[test]
fn a_receipt_counts_once() {
    let gift = |receipts: &[(&str, u64)], reported: u64| GiftDetails {
        name: "小花".into(),
        action: "投喂".into(),
        blind_gift: None,
        receipts: receipts
            .iter()
            .map(|(id, quantity)| GiftReceipt { id: (*id).into(), quantity: *quantity })
            .collect(),
        reported_quantity: reported,
    };
    let mut known = gift(&[("a", 2)], 0);
    assert_eq!(known.content(), "投喂 小花 ×2");
    assert!(!known.combine(&gift(&[("a", 2)], 0)));
    assert!(known.combine(&gift(&[("a", 2), ("b", 3)], 1)));
    assert_eq!(known.quantity(), 5);
    assert!(!known.combine(&gift(&[("b", 3)], 1)));
    assert!(known.combine(&gift(&[], 9)));
    assert_eq!(known.quantity(), 9);
    assert_eq!(gift(&[("a", u64::MAX), ("b", 1)], 0).quantity(), u64::MAX);
    let mut app = app(session());
    for _ in 0..2 {
        let mut gifted = event("g", DanmuEventKind::Gift, "投喂 小花 ×2", WALL);
        gifted.gift = Some(gift(&[("a", 2)], 0));
        app.stream.ingest_event(gifted, NOW, WALL);
    }
    assert_eq!(app.stream.feed.session.recent_events[0].content, "投喂 小花 ×2");
}

#[test]
fn times_are_shown_only_where_they_are_wanted() {
    let mut app = app(session());
    let message = danmu("one", "正文", WALL);
    let first = |app: &TerminalApp| {
        app.event_lines(&message, Some("12:34"), None, true, 80).lines[0][0].content.clone()
    };
    assert_ne!(first(&app), "12:34 ");
    app.show_time = true;
    assert_eq!(first(&app), "12:34 ");
}

#[test]
fn a_local_echo_is_a_live_message() {
    let mut app = app(session());
    app.stream.local_echo("echo", "本机正文", NOW, WALL);
    let shown = &app.stream.feed.session.recent_events[0];
    assert_eq!(shown.origin, DanmuEventOrigin::Live);
    assert!(shown.emotes.is_empty() && shown.reply_to.is_none() && shown.gift.is_none());
    assert!(shown.platform_event_id.is_none());
    assert_eq!(shown.username.as_deref(), Some("本机发送"));
}
