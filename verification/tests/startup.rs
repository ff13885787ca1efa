use danmu_terminal::accounts::{AssistantAccounts, Credential, LoadedSelection};
use danmu_terminal::app::TerminalApp;
use danmu_terminal::app_run::Beginning;
use danmu_terminal::automation::Automation;
use danmu_terminal::domain::{
    AccountStatus, DanmuEvent, DanmuEventKind, DanmuEventOrigin, DanmuSession,
};
use danmu_terminal::geometry::Rect;
use danmu_terminal::input::EditorInput;
use danmu_terminal::keys::{KeyCode, KeyEvent};
use danmu_terminal::startup::{
    account_result, local_result, obs_result, room_result, ObsAnswer, Resume, ResumeStep, Startup,
    StartupAction, StartupCheck, StartupGate, StartupUpdate, StartupView,
};
use danmu_terminal::startup_view::{startup_layout, startup_progress_line, StartupLayout};
use danmu_terminal::style::Span;

fn text(lines: &[Vec<Span>]) -> String {
    lines
        .iter()
        .map(|spans| spans.iter().map(|span| span.content.as_str()).collect::<String>())
        .collect::<Vec<_>>()
        .join("\n")
}

#[test]
fn optional_startup_checks_do_not_block_and_password_stays_private() {
    let mut startup = Startup::new(false);
    startup.view.account = StartupCheck::Passed("未登录 · 监看模式");
    startup.view.room = StartupCheck::Passed("房间可访问");
    startup.view.metrics = StartupCheck::Skipped("未登录 · 已跳过");
    startup.view.obs = StartupCheck::Warning("需要密码 · /obs config password");
    startup.view.local = StartupCheck::Passed("已读取");

    assert!(!startup.view.has_warning());
    startup.view.account = StartupCheck::Warning("账号未登录");
    startup.view.metrics = StartupCheck::Warning("指标不可用");
    assert!(!startup.view.has_warning());
    startup.view.room = StartupCheck::Warning("直播间不可访问");
    assert!(startup.view.has_warning());

    startup.gate = StartupGate::EnteringObsPassword(EditorInput::from_text("secret"));
    let shown = text(&startup.status_lines(0, 0));
    assert!(shown.contains("●●●●●●"), "{shown}");
    assert!(!shown.contains("secret"), "{shown}");
    assert!(StartupGate::Skipped.can_finish());
}

#[test]
fn startup_animation_degrades_to_the_active_compact_check() {
    let startup = Startup::new(false);
    let area = Rect { x: 0, y: 0, width: 30, height: 3 };
    assert!(matches!(startup_layout(area), StartupLayout::Tight(_)));
    let shown = text(&startup.tight_lines(2, 1000));
    assert!(shown.contains("DANMU"));
    assert!(shown.contains("Elazer"), "{shown}");
    assert!(shown.contains("elazer.wang"), "{shown}");
    assert!(shown.replace(' ', "").contains("恢复本地会话"), "{shown}");
}

#[test]
fn a_large_screen_shows_all_parts_of_the_beginning() {
    let area = Rect { x: 0, y: 0, width: 120, height: 40 };
    assert!(matches!(startup_layout(area), StartupLayout::Full { .. }));
    assert_ne!(
        text(&[startup_progress_line(0, false, 20)]),
        text(&[startup_progress_line(0, true, 20)])
    );
}

#[test]
fn the_first_answers_open_the_way_in() {
    let mut startup = Startup::new(false);
    assert!(!startup.settle(false, false));
    startup.view.apply(local_result(Some(true)));
    startup.view.apply(account_result(Some(false)));
    startup.view.apply(room_result(true));
    startup.view.metrics = StartupCheck::Skipped("未登录 · 已跳过");
    startup.view.obs = obs_result(&ObsAnswer::TimedOut);
    startup.data_ready = true;
    startup.session_ready = true;
    startup.obs_done = true;
    assert!(startup.settle(false, false));
}

#[test]
fn a_room_that_cannot_be_reached_waits_for_the_user() {
    let mut startup = Startup::new(false);
    startup.view.apply(local_result(Some(false)));
    startup.view.apply(account_result(Some(true)));
    startup.view.apply(room_result(false));
    startup.data_ready = true;
    startup.session_ready = true;
    startup.obs_done = true;
    assert!(!startup.settle(false, false));
    assert!(matches!(startup.gate, StartupGate::Blocked));
    assert!(matches!(
        startup.handle_key(KeyEvent::press(KeyCode::Enter)),
        StartupAction::Retry
    ));
    assert!(matches!(
        startup.handle_key(KeyEvent::control('c')),
        StartupAction::Quit
    ));
}

#[test]
fn the_view_names_what_it_waits_for() {
    let mut view = StartupView::new();
    let first = view.active_label();
    view.apply(StartupUpdate::Local(StartupCheck::Passed("已读取")));
    assert!(!first.is_empty());
    assert!(!view.obs_requires_password());
    view.obs = obs_result(&ObsAnswer::Failed("需要密码".into()));
    assert!(!view.has_warning());
}

#[test]
fn nothing_resumes_before_it_is_verified() {
    let mut resume = Resume::new(Some(true));
    assert!(resume.pending);
    assert!(matches!(resume.step(true, true), ResumeStep::Wait));
    assert!(Resume::new(None).step(false, true) != ResumeStep::Restore);
    assert!(resume.cancelled_by(KeyEvent::control('p')));
    assert!(!resume.pending);
}

#[test]
fn startup_history_creates_a_fresh_session_without_live_metrics() {
    let mut archived = DanmuSession::new("earlier", "42");
    let event = || DanmuEvent::new("event", DanmuEventKind::Danmu, "上次直播的弹幕", 1_000);
    archived.ingest(event());

    let mut loaded = DanmuSession::new("fresh", "42");
    loaded.preload_history(vec![event()]);

    assert_ne!(loaded.id, archived.id);
    assert_eq!(loaded.recent_events.len(), 1);
    assert_eq!(loaded.recent_events[0].id, "event");
    assert_eq!(loaded.recent_events[0].origin, DanmuEventOrigin::Archived);
    assert_eq!(archived.recent_events[0].origin, DanmuEventOrigin::Live);
    let app = TerminalApp::new(
        Beginning {
            session: loaded,
            automation: Automation {
                accounts: AssistantAccounts::load(
                    Credential { id: "account.json".into() },
                    LoadedSelection::Missing,
                    None,
                ),
                automatic: false,
                resume_on_start: false,
                sending: false,
                running: false,
                resume_pending: false,
            },
            account_status: AccountStatus::SignedOut,
            room: None,
            layout_chat: false,
            show_name: true,
            show_time: false,
        },
        1_000,
        1_000,
    );
    assert_eq!(app.stream.status.watched, None);
    assert_eq!(app.stream.status.likes, None);
    assert_eq!(app.stream.status.online_viewers, None);
}

#[test]
fn a_session_keeps_its_newest_messages_and_activity_apart() {
    let mut session = DanmuSession::with_limit("session", "1", 2);
    for at in 0..4 {
        let id = format!("chat-{at}");
        session.ingest(DanmuEvent::new(&id, DanmuEventKind::Danmu, &id, at));
        let id = format!("like-{at}");
        session.ingest(DanmuEvent::new(&id, DanmuEventKind::Like, &id, at));
    }
    let ids = session
        .recent_events
        .iter()
        .map(|event| event.id.as_str())
        .collect::<Vec<_>>();
    assert_eq!(ids, ["like-3", "chat-3", "like-2", "chat-2"]);
    assert!(!session.ingest(DanmuEvent::new("old", DanmuEventKind::Danmu, "旧", 1)));
    assert!(session.ingest(DanmuEvent::new("chat-3", DanmuEventKind::Danmu, "改", 9)));
    assert_eq!(session.recent_events[1].content, "改");
    assert_eq!(session.recent_events[1].timestamp, 3);
}
