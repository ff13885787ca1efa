use danmu_terminal::permission::{PermissionWrite as Write, Request, Written};
use danmu_terminal::accounts::{
    AssistantAccounts, AutomaticGrant, Credential, LoadedSelection, Selection,
};
use danmu_terminal::automation::{
    advance_scene, Automation, Cached, LiveScope, ProfileState, PublicProfile, Scene, Writes,
};
use danmu_terminal::domain::{AccountStatus, RoomLiveStatus, RoomSnapshot};

fn signed_in(uid: &str) -> AccountStatus {
    AccountStatus::SignedIn {
        display_name: format!("用户{uid}"),
        user_id: uid.into(),
    }
}

fn writes() -> Writes {
    Writes {
        permission: Ok(()),
        settings: Ok(()),
        grant: Ok(()),
        cleared: Ok(()),
        disabled: Ok(()),
    }
}

struct Stage {
    automation: Automation,
    scene: Scene,
    room_id: String,
    main: AccountStatus,
    cached: Cached,
}

fn automatic_app(room_id: &str, uid: &str, local: bool, saved: Option<&Stage>) -> Stage {
    let loaded = match saved {
        None => LoadedSelection::Missing,
        Some(stage) => {
            let selection = &stage.automation.accounts.selection;
            LoadedSelection::Found(Selection {
                mode: selection.mode,
                account: selection.account.clone(),
                remembered_automatic: selection.remembered_automatic.as_ref().map(|grant| {
                    AutomaticGrant {
                        room_id: grant.room_id.clone(),
                        user_id: grant.user_id.clone(),
                    }
                }),
            })
        },
    };
    Stage {
        automation: Automation {
            accounts: AssistantAccounts::load(
                Credential { id: "account.json".into() },
                loaded,
                None,
            ),
            automatic: saved.is_some_and(|stage| stage.automation.automatic),
            resume_on_start: saved.is_some_and(|stage| stage.automation.resume_on_start),
            sending: false,
            running: false,
            resume_pending: false,
        },
        scene: Scene { local, active: true, session: "scene-1".into() },
        room_id: room_id.into(),
        main: signed_in(uid),
        cached: Cached { readable: true, status: Ok(signed_in(uid)) },
    }
}

fn permit(stage: &mut Stage, enabled: bool) -> Result<(), String> {
    stage.automation.set_automatic_permission(
        enabled,
        &stage.scene,
        &stage.room_id,
        &stage.main,
        &stage.cached,
        &writes(),
    )
}

fn restore(stage: &mut Stage, session: &str, generation: u64) -> Result<(), String> {
    stage.automation.restore_automatic(
        &stage.scene,
        session,
        generation,
        &stage.room_id,
        &stage.main,
        stage.cached.readable,
        &Ok(()),
    )
}

fn restore_current(stage: &mut Stage) -> Result<(), String> {
    let session = stage.scene.session.clone();
    let generation = stage.automation.accounts.generation();
    restore(stage, &session, generation)
}

#[test]
fn automatic_permission_reloads_only_for_the_same_room_and_sending_uid() {
    let mut authorized = automatic_app("100", "11", false, None);
    permit(&mut authorized, true).unwrap();
    assert!(authorized.automation.sending);

    let mut reloaded = automatic_app("100", "11", false, Some(&authorized));
    assert!(!reloaded.automation.sending);
    restore_current(&mut reloaded).unwrap();
    assert!(reloaded.automation.sending);

    let mut reloaded = automatic_app("200", "11", false, Some(&authorized));
    assert!(restore_current(&mut reloaded).is_err());
    assert!(!reloaded.automation.sending);

    let mut reloaded = automatic_app("100", "22", false, Some(&authorized));
    assert!(restore_current(&mut reloaded).is_err());
    assert!(!reloaded.automation.sending);
}

#[test]
fn missing_credentials_cannot_restore_a_saved_automatic_grant() {
    let mut authorized = automatic_app("100", "11", false, None);
    permit(&mut authorized, true).unwrap();
    let mut reloaded = automatic_app("100", "11", false, Some(&authorized));
    reloaded.cached.readable = false;
    assert!(restore_current(&mut reloaded).is_err());
    assert!(!reloaded.automation.sending);
    reloaded.main = AccountStatus::SignedOut;
    assert!(restore_current(&mut reloaded).is_err());
    assert!(!reloaded.automation.sending);
}

#[test]
fn automatic_restore_rejects_late_identity_generation_and_scene() {
    let mut authorized = automatic_app("100", "11", false, None);
    permit(&mut authorized, true).unwrap();

    let mut reloaded = automatic_app("100", "11", false, Some(&authorized));
    let session = reloaded.scene.session.clone();
    let stale_generation = reloaded.automation.accounts.generation();
    reloaded.automation.accounts.main_changed(Ok(())).unwrap();
    reloaded
        .automation
        .accounts
        .remember_automatic("100", &reloaded.main, true, &reloaded.cached.status, Ok(()))
        .unwrap();
    assert!(restore(&mut reloaded, &session, stale_generation).is_err());
    assert!(!reloaded.automation.sending);

    let mut reloaded = automatic_app("100", "11", false, Some(&authorized));
    let stale_session = reloaded.scene.session.clone();
    let generation = reloaded.automation.accounts.generation();
    reloaded.scene.session = "scene-2".into();
    assert!(restore(&mut reloaded, &stale_session, generation).is_err());
    assert!(!reloaded.automation.sending);
}

#[test]
fn explicit_disable_survives_reload_and_removes_the_restore_grant() {
    let mut authorized = automatic_app("100", "11", false, None);
    permit(&mut authorized, true).unwrap();
    permit(&mut authorized, false).unwrap();
    assert!(!authorized.automation.sending);

    let mut reloaded = automatic_app("100", "11", false, Some(&authorized));
    assert!(restore_current(&mut reloaded).is_err());
    assert!(!reloaded.automation.sending);
}

#[test]
fn local_permission_never_becomes_a_persistent_production_grant() {
    let mut local = automatic_app("100", "11", true, None);
    permit(&mut local, true).unwrap();
    assert!(local.automation.sending);

    let mut production = automatic_app("100", "11", false, Some(&local));
    assert!(restore_current(&mut production).is_err());
    assert!(!production.automation.sending);
}

#[test]
fn automatic_permission_rejects_unverified_identity_before_changing_settings() {
    let mut signed_out = automatic_app("100", "11", false, None);
    signed_out.main = AccountStatus::SignedOut;
    assert!(permit(&mut signed_out, true).is_err());
    assert!(!signed_out.automation.sending);
    assert!(!signed_out.automation.automatic);

    let mut mismatched = automatic_app("100", "11", false, None);
    mismatched.main = AccountStatus::SignedIn {
        display_name: "错误缓存身份".into(),
        user_id: "22".into(),
    };
    assert!(permit(&mut mismatched, true).is_err());
    assert!(!mismatched.automation.sending);
    assert!(!mismatched.automation.automatic);
}

#[test]
fn pause_revokes_and_forgets_automatic_permission_without_erasing_preference() {
    let mut stage = automatic_app("100", "11", false, None);
    permit(&mut stage, true).unwrap();
    assert!(stage.automation.pause_assistant(&writes()).is_none());
    assert!(!stage.automation.sending);
    assert!(stage.automation.automatic, "pause keeps the user's mode preference");
    assert!(!stage.automation.resume_on_start, "pause clears resume intent");

    let mut reloaded = automatic_app("100", "11", false, Some(&stage));
    assert!(restore_current(&mut reloaded).is_err());
    assert!(!reloaded.automation.sending);
}

#[test]
fn a_pause_that_is_not_written_down_is_told() {
    let mut stage = automatic_app("100", "11", false, None);
    permit(&mut stage, true).unwrap();
    let mut failing = writes();
    failing.disabled = Err("磁盘已满".into());
    let said = stage.automation.pause_assistant(&failing).unwrap();
    assert_eq!(said, "助手已暂停；未能清除下次续用提醒：磁盘已满");
    assert!(!stage.automation.sending);
}

fn room(started: i64) -> RoomSnapshot {
    RoomSnapshot {
        room_id: "100".into(),
        broadcaster_id: "42".into(),
        broadcaster_name: "测试主播".into(),
        title: "标题".into(),
        area: "知识".into(),
        live_started_at: Some(started),
        live_status: RoomLiveStatus::Live,
    }
}

#[test]
fn a_broadcast_is_one_scene() {
    let mut scope: Option<LiveScope> = None;
    let first = advance_scene(&mut scope, &Some(room(1)), false, "已连接 100", false);
    assert!(first.new_session);
    assert!(first.available);
    let same = advance_scene(&mut scope, &Some(room(1)), true, "已连接 100", false);
    assert!(!same.new_session && !same.end);
    let next = advance_scene(&mut scope, &Some(room(2)), true, "已连接 100", false);
    assert!(next.new_session);
}

#[test]
fn the_profile_belongs_to_the_room_that_was_asked_about() {
    let mut profile = ProfileState::new();
    let room = Some(room(1));
    assert!(profile.sync_assistant_room(&room).is_some());
    assert!(profile.refresh_assistant_profile(false, true, true, true, 1_000));
    assert!(!profile.refresh_assistant_profile(false, true, true, true, 1_001));
    let found = PublicProfile { source_url: "https://space".into(), description: "介绍".into() };
    assert!(!profile.answered(&room, "200", "42", Ok(None), 1_002));
    assert!(profile.answered(&room, "100", "42", Ok(Some(found)), 1_003));
    assert!(profile.value.is_some());
}

#[test]
fn a_permission_for_another_room_is_dropped_at_the_start() {
    let mut authorized = automatic_app("100", "11", false, None);
    permit(&mut authorized, true).unwrap();

    let mut same = automatic_app("100", "11", false, Some(&authorized));
    assert!(same.automation.forget_elsewhere("100", &same.main, Ok(())).is_none());
    assert!(same.automation.accounts.has_automatic_grant());

    let mut other = automatic_app("200", "11", false, Some(&authorized));
    assert_eq!(
        other.automation.forget_elsewhere("200", &other.main, Err("磁盘".into())).as_deref(),
        Some("房间或账号不匹配，未恢复自动发送；清除旧授权失败：磁盘")
    );
    assert!(other.automation.accounts.has_automatic_grant());
    assert!(other.automation.forget_elsewhere("200", &other.main, Ok(())).is_none());
    assert!(!other.automation.accounts.has_automatic_grant());
}

#[test]
fn a_permission_that_could_not_be_written_down_is_removed() {
    let mut stage = automatic_app("100", "11", false, None);
    permit(&mut stage, true).unwrap();
    let failed = Writes { grant: Err("磁盘".into()), ..writes() };
    let said = stage.automation.set_automatic_permission(
        true,
        &stage.scene,
        &stage.room_id,
        &stage.main,
        &stage.cached,
        &failed,
    );
    assert_eq!(said, Err("磁盘".to_owned()));
    assert!(!stage.automation.accounts.has_automatic_grant());
    assert!(!stage.automation.sending && !stage.automation.resume_on_start);

    let mut stage = automatic_app("100", "11", false, None);
    permit(&mut stage, true).unwrap();
    let failed = Writes {
        grant: Err("磁盘".into()),
        cleared: Err("只读".into()),
        ..writes()
    };
    let said = stage.automation.set_automatic_permission(
        true,
        &stage.scene,
        &stage.room_id,
        &stage.main,
        &stage.cached,
        &failed,
    );
    assert_eq!(said, Err("磁盘；清除自动发送授权失败：只读".to_owned()));
    assert!(stage.automation.accounts.has_automatic_grant());
    assert!(!stage.automation.sending);
}

#[test]
fn the_permission_is_told_last() {
    let request = Request {
        enabled: true,
        local: false,
        active: true,
        valid: true,
        remembered: true,
    };
    let made = |request: Request, failing: Option<Write>| {
        let mut written = Written::new();
        let mut order = vec![];
        while let Some(write) = written.next(request) {
            order.push(write);
            let outcome = if failing == Some(write) {
                Err("磁盘".to_owned())
            } else {
                Ok(())
            };
            written.note(write, outcome);
        }
        order
    };
    assert_eq!(made(request, None), [Write::Settings, Write::Grant, Write::Permit]);
    assert_eq!(made(request, Some(Write::Settings)), [Write::Settings]);
    assert_eq!(made(request, Some(Write::Grant)), [Write::Settings, Write::Grant, Write::Halt, Write::Disable, Write::Clear]);
    assert_eq!(made(Request { valid: false, ..request }, None), [Write::Halt, Write::Disable, Write::Clear]);
    assert_eq!(made(Request { local: true, valid: false, ..request }, None), [Write::Settings, Write::Permit]);
    assert!(made(Request { active: false, ..request }, None).is_empty());
    let taken = Request { enabled: false, ..request };
    assert_eq!(made(taken, None), [Write::Revoke, Write::Settings, Write::Clear]);
    assert_eq!(made(taken, Some(Write::Revoke)), [Write::Revoke]);
    assert_eq!(made(taken, Some(Write::Settings)), [Write::Revoke, Write::Settings, Write::Clear]);
    assert_eq!(made(Request { remembered: false, ..taken }, None), [Write::Revoke, Write::Settings]);
    let mut written = Written::new();
    written.note(Write::Settings, Err("磁盘".into()));
    let writes = written.settle();
    assert_eq!(writes.settings, Err("磁盘".to_owned()));
    assert!(writes.grant.is_ok());
}
