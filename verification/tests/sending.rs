use danmu_terminal::ai_settings::{
    persist_ai_safety_stop, Account, AiAction, AiProblem, ApiModel, Connection, ConnectionEvent,
    Model, Provider, ReplyMode, Settings,
};
use danmu_terminal::app_run::{configure_obs, ObsAnswers, ObsSetup};
use danmu_terminal::geometry::{centered_rect, Rect};
use danmu_terminal::send::{
    advance_wait, begin, finish_wait, local_send, sleep_millis, Authorization, Cause, Outcome,
    PostReply, SendConfirm, SendEvent, Step, Wait, WaitEvent, WaitStep, ATTEMPTS,
};
use danmu_terminal::status_view::{color_luma, contrast_foreground, live_elapsed, Canvas, Color};
use danmu_terminal::domain::{RoomLiveStatus, RoomSnapshot};

fn permitted() -> Authorization {
    Authorization {
        identity_counts: true,
        queue_paused: false,
        same_queue: true,
        reply_approved: true,
    }
}

fn registered(authorization: Authorization, blocked_word: Option<&str>) -> SendEvent {
    SendEvent::Registered {
        listening: true,
        authorization,
        blocked_word: blocked_word.map(str::to_owned),
        has_account: true,
    }
}

/// A message that was posted, and whose echo is waited for.
fn posted() -> SendConfirm {
    let mut sending = SendConfirm::new();
    assert!(matches!(
        sending.send_confirm(SendEvent::Begin { identity_counts: true }),
        Some(Step::CheckStatus)
    ));
    assert!(matches!(
        sending.send_confirm(SendEvent::Status(Some(("主播".into(), "42".into())))),
        Some(Step::Register { ref name, ref user_id }) if name == "主播" && user_id == "42"
    ));
    assert!(matches!(
        sending.send_confirm(registered(permitted(), None)),
        Some(Step::Post)
    ));
    assert!(matches!(
        sending.send_confirm(SendEvent::Posted(PostReply::Responded {
            evidence: Some("proof".into()),
            detail: "ok".into(),
        })),
        Some(Step::Await)
    ));
    sending
}

#[test]
fn an_echo_confirms_a_message() {
    let mut sending = posted();
    let Some(Step::Finish(ending)) =
        sending.send_confirm(SendEvent::Waited(WaitEvent::Echo { came: true }))
    else {
        panic!("the message is confirmed");
    };
    assert_eq!(ending.delivery.outcome, Outcome::Confirmed);
    assert_eq!(ending.delivery.cause, Cause::EchoConfirmed);
}

#[test]
fn a_missing_echo_leaves_a_message_uncertain() {
    let mut sending = posted();
    let mut steps = 0;
    let ending = loop {
        steps += 1;
        assert!(steps < 100, "the wait ends");
        if let Some(Step::Finish(ending)) =
            sending.send_confirm(SendEvent::Waited(WaitEvent::Elapsed))
        {
            break ending;
        }
    };
    assert_eq!(ending.delivery.outcome, Outcome::Uncertain);
    assert_eq!(ending.delivery.cause, Cause::EchoMissing);
    assert!(steps >= ATTEMPTS as usize);
}

#[test]
fn what_is_not_permitted_is_not_posted() {
    for authorization in [
        Authorization { identity_counts: false, ..permitted() },
        Authorization { queue_paused: true, ..permitted() },
        Authorization { same_queue: false, ..permitted() },
        Authorization { reply_approved: false, ..permitted() },
    ] {
        assert!(!authorization.allowed());
        let mut sending = SendConfirm::new();
        sending.send_confirm(SendEvent::Begin { identity_counts: true });
        sending.send_confirm(SendEvent::Status(Some(("主播".into(), "42".into()))));
        assert!(matches!(
            sending.send_confirm(registered(authorization, None)),
            Some(Step::Finish(ending)) if ending.delivery.outcome == Outcome::Cancelled
        ));
    }
    assert!(matches!(begin(false), Step::Finish(_)));
}

#[test]
fn a_known_word_is_not_posted() {
    let mut sending = SendConfirm::new();
    sending.send_confirm(SendEvent::Begin { identity_counts: true });
    sending.send_confirm(SendEvent::Status(Some(("主播".into(), "42".into()))));
    assert!(matches!(
        sending.send_confirm(registered(permitted(), Some("词"))),
        Some(Step::Finish(ending)) if ending.delivery.cause == Cause::KnownWord
            && ending.delivery.detail == "命中用户配置已知词「词」；未向平台发送"
            && ending.expired && !ending.stop_account && !ending.timed_out
    ));
}

#[test]
fn a_message_without_its_echo_ends_for_that_cause() {
    for (news, outcome, cause) in [
        (WaitEvent::Echo { came: true }, Outcome::Confirmed, Cause::EchoConfirmed),
        (WaitEvent::Echo { came: false }, Outcome::Uncertain, Cause::EchoMissing),
        (WaitEvent::Deadline, Outcome::Uncertain, Cause::EchoMissing),
    ] {
        let mut sending = SendConfirm::new();
        sending.send_confirm(SendEvent::Begin { identity_counts: true });
        sending.send_confirm(SendEvent::Status(Some(("主播".into(), "42".into()))));
        assert!(matches!(
            sending.send_confirm(registered(permitted(), None)),
            Some(Step::Post)
        ));
        assert!(sending.send_confirm(registered(permitted(), None)).is_none());
        let reply = PostReply::Responded { evidence: Some("证据".into()), detail: "已受理".into() };
        assert!(matches!(sending.send_confirm(SendEvent::Posted(reply)), Some(Step::Await)));
        let Some(Step::Finish(ending)) = sending.send_confirm(SendEvent::Waited(news)) else {
            panic!("{news:?}");
        };
        assert_eq!(ending.delivery.outcome, outcome);
        assert_eq!(ending.delivery.cause, cause);
        assert_eq!(ending.watch, outcome == Outcome::Uncertain);
        assert_eq!(ending.delivery.acceptance_proof.as_deref(), Some("证据"));
        assert_eq!(ending.delivery.platform_code, Some(0));
        assert!(ending.delivery.response_received && ending.delivery.detail.starts_with("已受理；"));
        assert!(!ending.stop_account && !ending.expired && !ending.timed_out);
        assert!(ending.rejected.is_none());
    }
}

#[test]
fn every_refusal_has_its_cause() {
    for (reply, outcome, cause) in [
        (
            PostReply::ContentRejected { code: 10024, message: "内容".into() },
            Outcome::Rejected,
            Cause::ContentRejected,
        ),
        (
            PostReply::Rejected { code: -101, message: "未登录".into() },
            Outcome::Rejected,
            Cause::OtherRejected,
        ),
        (PostReply::TimedOut, Outcome::Uncertain, Cause::TransportUncertain),
        (
            PostReply::Failed { error: "断开".into() },
            Outcome::Uncertain,
            Cause::TransportUncertain,
        ),
        (PostReply::Withdrawn, Outcome::Cancelled, Cause::Unspecified),
    ] {
        let mut sending = SendConfirm::new();
        sending.send_confirm(SendEvent::Begin { identity_counts: true });
        sending.send_confirm(SendEvent::Status(Some(("主播".into(), "42".into()))));
        sending.send_confirm(registered(permitted(), None));
        match sending.send_confirm(SendEvent::Posted(reply)) {
            Some(Step::Finish(ending)) => {
                assert_eq!(ending.delivery.outcome, outcome);
                assert_eq!(ending.delivery.cause, cause);
            },
            step => panic!("{step:?}"),
        }
    }
}

#[test]
fn the_wait_goes_on_in_steps() {
    assert!(sleep_millis(Wait::Sleeping(0)) > 0);
    assert!(matches!(
        advance_wait(Wait::Last, WaitEvent::Elapsed),
        WaitStep::Ended { confirmed: false }
    ));
    assert_eq!(finish_wait(true, None, "").delivery.outcome, Outcome::Confirmed);
    let (first, _) = local_send(0, true);
    assert_eq!(first.outcome, Outcome::Confirmed);
    let (second, _) = local_send(1, true);
    assert_eq!(second.outcome, Outcome::Uncertain);
    let (third, _) = local_send(2, true);
    assert_eq!(third.outcome, Outcome::Rejected);
}

fn connection() -> Connection {
    Connection {
        provider: Provider::Chatgpt,
        enabled: false,
        mode: ReplyMode::Suggest,
        model: None,
        effort: None,
        api: None,
    }
}

fn ai() -> Settings {
    Settings {
        open: false,
        status: String::new(),
        account: Account { signed_in: true, plan: None, quota: String::new() },
        models: vec![Model {
            model: "large".into(),
            display_name: "Large".into(),
            efforts: vec!["low".into(), "high".into()],
            default_effort: "low".into(),
        }],
        checked: true,
        busy: false,
        epoch: 1,
        url: None,
    }
}

fn words(line: &str) -> Vec<String> {
    line.split_whitespace().map(str::to_owned).collect()
}

#[test]
fn only_what_is_ready_is_enabled() {
    let mut config = connection();
    let mut settings = ai();
    assert!(!settings.ready(&config));
    assert!(matches!(
        settings.ai_command(&mut config, &words("enable"), true),
        Err(AiProblem::NoModel)
    ));
    assert!(!config.enabled);
    settings.account.signed_in = false;
    assert!(matches!(
        settings.ai_command(&mut config, &words("enable"), true),
        Err(AiProblem::NotSignedIn)
    ));
    settings.account.signed_in = true;
    let longest = "m".repeat(200);
    assert!(matches!(
        settings.ai_command(&mut config, &words(&format!("model {longest}")), true),
        Err(AiProblem::ModelUnlisted)
    ));
    assert!(matches!(
        settings.ai_command(&mut config, &words(&format!("model {longest}m")), true),
        Err(AiProblem::ModelId)
    ));
    assert!(matches!(
        settings.ai_command(&mut config, &words("model large"), false),
        Err(AiProblem::ModelId)
    ));
    settings.ai_command(&mut config, &words("model large"), true).unwrap();
    assert_eq!(config.model.as_deref(), Some("large"));
    assert!(matches!(
        settings.ai_command(&mut config, &words("model missing"), true),
        Err(AiProblem::ModelUnlisted)
    ));
    assert!(matches!(
        settings.ai_command(&mut config, &words("effort extreme"), true),
        Err(AiProblem::EffortNotOffered | AiProblem::EffortUnsupported)
    ));
    settings.ai_command(&mut config, &words("effort high"), true).unwrap();
    assert_eq!(config.effort.as_deref(), Some("high"));
    assert!(settings.ready(&config));
    config.effort = Some("extreme".into());
    assert!(matches!(
        settings.ai_command(&mut config, &words("enable"), true),
        Err(AiProblem::EffortUnsupported)
    ));
    assert!(!config.enabled && !settings.ready(&config));
    settings.models.push(Model {
        model: "large".into(),
        display_name: "Large 2".into(),
        efforts: vec!["extreme".into()],
        default_effort: "extreme".into(),
    });
    assert!(settings.ready(&config));
    config.effort = Some("low".into());
    assert!(matches!(
        settings.ai_command(&mut config, &words("enable"), true),
        Ok(AiAction::Save)
    ));
    assert!(config.enabled);
}

#[test]
fn signing_out_waits_for_the_save() {
    let mut config = connection();
    config.enabled = true;
    let mut settings = ai();
    let mut draft = connection();
    draft.enabled = true;
    assert!(matches!(
        settings.ai_command(&mut draft, &words("logout"), true),
        Ok(AiAction::LogOut)
    ));
    assert!(!draft.enabled && !settings.open);
    assert!(AiAction::LogOut.drops_replies() && AiAction::Save.drops_replies());
    assert!(AiAction::SaveAndQueue { running: false }.drops_replies());
    assert!(!AiAction::ToggleSettings.drops_replies() && !AiAction::Approve.drops_replies());
    assert_eq!(
        settings.log_out(&mut config, draft, Err("磁盘".into())),
        Err("磁盘".to_owned())
    );
    assert!(config.enabled && !settings.open && !settings.busy);
    assert_eq!(settings.log_out(&mut config, connection(), Ok(())), Ok(Some(2)));
    assert!(!config.enabled && settings.open && settings.busy);
    assert!(matches!(
        settings.ai_command(&mut config, &words("status"), true),
        Ok(AiAction::Connect { action }) if action == "status"
    ));
}

#[test]
fn an_interface_needs_an_address_and_a_key() {
    let mut config = connection();
    config.provider = Provider::Api;
    let settings = ai();
    assert!(!settings.ready(&config));
    config.api = Some(ApiModel {
        id: "m".into(),
        url_valid: true,
        key_env: "DANMU_KEY".into(),
        key_present: true,
    });
    assert!(settings.ready(&config));
    config.api.as_mut().unwrap().key_present = false;
    assert!(!settings.ready(&config));
}

#[test]
fn a_late_answer_of_a_connection_is_dropped() {
    let mut settings = ai();
    let epoch = settings.start("login").unwrap();
    assert!(settings.busy);
    assert!(settings.start("login").is_none());
    assert!(!settings.apply(ConnectionEvent::Url { epoch: epoch + 1, url: "u".into() }));
    assert!(settings.url.is_none());
    settings.apply(ConnectionEvent::Url { epoch, url: "u".into() });
    assert_eq!(settings.url.as_deref(), Some("u"));
    settings.apply(ConnectionEvent::Finished { epoch, result: Err("失败".into()) });
    assert!(!settings.busy);
    assert!(!settings.lines(false, "suggest", "").is_empty());
}

#[test]
fn a_safety_stop_is_written_down_once() {
    assert!(persist_ai_safety_stop(true, true, ReplyMode::Paused, ReplyMode::Auto));
    assert!(!persist_ai_safety_stop(false, true, ReplyMode::Auto, ReplyMode::Auto));
    let mut config = connection();
    let mut settings = ai();
    assert!(config.safety_stopped(true).is_none());
    assert!(config.safety_stopped(false).is_some());
    assert_eq!(config.mode, ReplyMode::Paused);
    let mut used = connection();
    assert!(settings.apply_ai_config(&mut used, connection(), Err("磁盘".into())).is_err());
    assert!(settings.status.is_empty());
    let mut draft = connection();
    draft.mode = ReplyMode::Auto;
    settings.apply_ai_config(&mut used, draft, Ok(())).unwrap();
    assert_eq!(used.mode, ReplyMode::Auto);
    assert!(settings.status.starts_with("设置已保存"));
    assert!(matches!(
        settings.ai_command(&mut config, &words("nonsense"), true),
        Err(AiProblem::Usage)
    ));
    assert!(matches!(
        settings.ai_command(&mut config, &words("settings"), true),
        Ok(AiAction::ToggleSettings)
    ));
}

#[test]
fn unanswered_questions_keep_their_settings() {
    let before = || ObsSetup {
        host: "127.0.0.1".into(),
        port: 4455,
        scene: "直播".into(),
        microphone: "麦克风".into(),
    };
    let answers = |host: &str, port: &str| ObsAnswers {
        host: host.into(),
        port: port.into(),
        scene: String::new(),
        microphone: String::new(),
    };
    let kept = configure_obs(before(), &answers("", "x"));
    assert_eq!((kept.host.as_str(), kept.port), ("127.0.0.1", 4455));
    let changed = configure_obs(before(), &answers("example", "4567"));
    assert_eq!((changed.host.as_str(), changed.port), ("example", 4567));
    assert_eq!(changed.scene, "直播");
}

#[test]
fn the_ink_stands_out_from_its_ground() {
    let dark = Color::Rgb { red: 0, green: 0, blue: 0 };
    let light = Color::Rgb { red: 255, green: 255, blue: 255 };
    assert!(color_luma(dark) < color_luma(light));
    assert_eq!(color_luma(Color::Own), None);
    let canvas = Canvas { content: light, background: dark };
    assert_ne!(contrast_foreground(dark, canvas), contrast_foreground(light, canvas));
}

#[test]
fn a_broadcast_shows_how_long_it_runs() {
    let room = RoomSnapshot {
        room_id: "1".into(),
        broadcaster_id: "42".into(),
        broadcaster_name: "主播".into(),
        title: "标题".into(),
        area: "知识".into(),
        live_started_at: Some(1_000_000),
        live_status: RoomLiveStatus::Live,
    };
    assert!(live_elapsed(&room, 1_000_000 + 3_661_000).contains("01:01"));
    let area = Rect { x: 0, y: 0, width: 100, height: 40 };
    assert_eq!(
        centered_rect(20, 10, area),
        Rect { x: 40, y: 15, width: 20, height: 10 }
    );
}
