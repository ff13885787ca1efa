use danmu_terminal::accounts::{
    account_label, login_step, same_user, AccountEvent, AssistantAccounts, Credential,
    LoadedSelection, LoginPoll, LoginStep, Mode, PendingLogin, Problem, Selection, SendIdentity,
};
use danmu_terminal::domain::AccountStatus;

fn signed_in(uid: &str) -> AccountStatus {
    AccountStatus::SignedIn {
        display_name: format!("用户{uid}"),
        user_id: uid.into(),
    }
}

fn credential(id: &str) -> Credential {
    Credential { id: id.into() }
}

fn load() -> AssistantAccounts {
    AssistantAccounts::load(credential("main.json"), LoadedSelection::Missing, None)
}

/// What is loaded from the choice that was saved last.
fn reload(accounts: &AssistantAccounts) -> AssistantAccounts {
    let selection = Selection {
        mode: accounts.selection.mode,
        account: accounts.selection.account.clone(),
        remembered_automatic: accounts.selection.remembered_automatic.as_ref().map(|grant| {
            danmu_terminal::accounts::AutomaticGrant {
                room_id: grant.room_id.clone(),
                user_id: grant.user_id.clone(),
            }
        }),
    };
    AssistantAccounts::load(
        accounts.main.copy(),
        LoadedSelection::Found(selection),
        Some(accounts.independent_status.copy()),
    )
}

fn stage(accounts: &mut AssistantAccounts, token: u64, status: &AccountStatus) {
    accounts.pending = Some(PendingLogin { token, status: Some(status.copy()) });
    assert!(
        accounts
            .apply_event(AccountEvent::Ready {
                token,
                status: status.copy(),
            })
            .is_some(),
        "the sign-in that waits must be accepted"
    );
}

fn confirm(accounts: &mut AssistantAccounts, status: &AccountStatus, uid: &str) -> bool {
    accounts
        .confirm_independent(status, &Ok(status.copy()), format!("{uid}.json"), Ok(()), Ok(()))
        .is_ok()
}

#[test]
fn account_isolation_confirmation_cancel_and_restart() {
    let status = signed_in("11");
    let mut accounts = load();
    let independent = signed_in("22");
    stage(&mut accounts, 1, &independent);
    let (message, replaced) = accounts
        .complete_independent_ready(
            &status,
            &Ok(status.copy()),
            "22.json".into(),
            Ok(()),
            Ok(()),
        )
        .unwrap();
    assert!(message.contains("用户22") && message.contains("UID 22"));
    assert!(replaced.is_none());
    let old = accounts.send_identity(&status, true);
    accounts.start_login(2);
    accounts.cancel_login();
    assert!(
        accounts
            .apply_event(AccountEvent::Ready {
                token: 2,
                status: signed_in("33"),
            })
            .is_none()
    );
    assert!(
        accounts
            .apply_event(AccountEvent::Qr {
                token: 2,
                lines: vec!["late".into()],
            })
            .is_none()
    );
    assert!(!accounts.login_pending());
    assert!(accounts.qr_lines().is_none());
    let restored = reload(&accounts);
    assert!(same_user(restored.status(&status), &independent));
    accounts.reuse_main(Ok(())).unwrap();
    assert!(!old.valid(&accounts.gate));
    assert_eq!(old.account().unwrap().id, "22.json");
    assert!(same_user(accounts.status(&status), &status));
}

#[test]
fn account_isolation_same_uid_and_failed_commit_preserve_old_credentials() {
    let status = signed_in("11");
    let mut accounts = load();
    stage(&mut accounts, 1, &signed_in("22"));
    assert!(confirm(&mut accounts, &status, "22"));
    let sender = accounts.send_identity(&status, true);
    assert!(!confirm(&mut accounts, &status, "22"));
    assert!(sender.valid(&accounts.gate));
    stage(&mut accounts, 2, &status);
    assert!(accounts.pending_is_main(&status));
    assert!(
        accounts
            .complete_independent_ready(
                &status,
                &Ok(status.copy()),
                "same.json".into(),
                Ok(()),
                Ok(()),
            )
            .is_err()
    );
    assert!(sender.valid(&accounts.gate));
    assert!(same_user(accounts.status(&status), &signed_in("22")));
    stage(&mut accounts, 3, &signed_in("33"));
    for (persisted, saved) in [
        (Err("disk".to_owned()), Ok(())),
        (Ok(()), Err("disk".to_owned())),
    ] {
        let outcome = accounts.complete_independent_ready(
            &status,
            &Ok(status.copy()),
            "33.json".into(),
            persisted,
            saved,
        );
        assert!(matches!(outcome, Err(Problem::Storage(_))));
        assert!(sender.valid(&accounts.gate));
        assert!(same_user(accounts.status(&status), &signed_in("22")));
        assert_eq!(accounts.selection.account.as_deref(), Some("22.json"));
    }
}

#[test]
fn account_isolation_expired_and_signed_out_never_fall_back() {
    let status = signed_in("11");
    let mut accounts = load();
    stage(&mut accounts, 1, &signed_in("22"));
    assert!(confirm(&mut accounts, &status, "22"));
    let sender = accounts.send_identity(&status, true);
    let manual = SendIdentity::manual(Some(credential("main.json")));
    let generation = accounts.generation();
    assert_eq!(sender.invalidate(&mut accounts.gate), Some(generation));
    assert!(!accounts.send_identity(&status, true).valid(&accounts.gate));
    assert!(manual.valid(&accounts.gate));
    accounts.sign_out_independent(Ok(())).unwrap();
    assert!(accounts.send_identity(&status, true).account().is_none());
    let restored = reload(&accounts);
    assert!(restored.send_identity(&status, true).account().is_none());
    assert_eq!(manual.account().unwrap().id, "main.json");
    accounts.reuse_main(Ok(())).unwrap();
    assert!(accounts.send_identity(&status, true).valid(&accounts.gate));
    assert_eq!(sender.invalidate(&mut accounts.gate), None);
    assert!(accounts.send_identity(&status, true).valid(&accounts.gate));
}

#[test]
fn account_isolation_corrupt_selection_does_not_disable_manual() {
    let status = signed_in("11");
    let mut accounts = AssistantAccounts::load(
        credential("main.json"),
        LoadedSelection::Broken("选择文件无法读取".into()),
        None,
    );
    assert!(!accounts.send_identity(&status, true).valid(&accounts.gate));
    assert!(accounts.send_identity(&status, true).account().is_none());
    assert!(SendIdentity::manual(Some(credential("main.json"))).valid(&accounts.gate));
    accounts.forget_automatic(Ok(())).unwrap();
    assert!(accounts.load_error.as_ref().unwrap().starts_with("选择文件无法读取；助手不可用"));
    accounts.reuse_main(Ok(())).unwrap();
    assert!(accounts.send_identity(&status, true).valid(&accounts.gate));
    assert!(same_user(accounts.status(&status), &status));
}

#[test]
fn automatic_grant_is_scoped_persisted_and_revocable() {
    let status = signed_in("11");
    let mut accounts = AssistantAccounts::load(
        credential("main.json"),
        LoadedSelection::Found(Selection {
            mode: Mode::ReuseMain,
            account: None,
            remembered_automatic: None,
        }),
        None,
    );
    assert!(!accounts.has_automatic_grant());
    assert!(!accounts.automatic_matches("100", &status));

    accounts
        .remember_automatic("100", &status, true, &Ok(status.copy()), Ok(()))
        .unwrap();
    assert!(accounts.has_automatic_grant());
    let mut restored = reload(&accounts);
    assert!(restored.automatic_matches("100", &status));
    assert!(!restored.automatic_matches("200", &status));
    assert!(!restored.automatic_matches("100", &signed_in("22")));
    assert!(!restored.automatic_matches("100", &AccountStatus::SignedOut));

    restored.forget_automatic(Ok(())).unwrap();
    assert!(!restored.has_automatic_grant());
    let revoked = reload(&restored);
    assert!(!revoked.has_automatic_grant());
    assert!(!revoked.automatic_matches("100", &status));
}

#[test]
fn every_problem_of_an_account_is_told() {
    let status = signed_in("11");
    let mut accounts = load();
    let main = Ok(status.copy());
    assert!(matches!(accounts.validate_independent(&status, &main), Err(Problem::NotScanned)));
    accounts.start_login(1);
    assert!(matches!(
        accounts.validate_independent(&status, &main),
        Err(Problem::ScanUnfinished)
    ));
    accounts.apply_event(AccountEvent::Ready { token: 1, status: signed_in("22") });
    assert!(matches!(
        accounts.validate_independent(&AccountStatus::SignedOut, &main),
        Err(Problem::MainUnverified)
    ));
    assert!(matches!(
        accounts.validate_independent(&signed_in("22"), &main),
        Err(Problem::SameAsMain)
    ));
    assert!(matches!(
        accounts.validate_independent(&status, &Ok(signed_in("22"))),
        Err(Problem::SameAsMainCredential)
    ));
    assert!(matches!(
        accounts.validate_independent(&status, &Err("无法读取".into())),
        Err(Problem::Storage(_))
    ));
    assert!(accounts.validate_independent(&status, &main).is_ok());
    accounts.start_login(2);
    accounts.apply_event(AccountEvent::Ready { token: 2, status: signed_in("") });
    assert!(matches!(
        accounts.validate_independent(&status, &main),
        Err(Problem::StagedInvalid)
    ));
    assert!(matches!(
        accounts.validate_automatic_identity("", &status, true, &Ok(status.copy())),
        Err(Problem::EmptyRoom)
    ));
    assert!(matches!(
        accounts.validate_automatic_identity("100", &AccountStatus::SignedOut, true, &Ok(status.copy())),
        Err(Problem::NotSignedIn)
    ));
    assert!(matches!(
        accounts.validate_automatic_identity("100", &status, false, &Ok(status.copy())),
        Err(Problem::NoCredentials)
    ));
    assert!(matches!(
        accounts.validate_automatic_identity("100", &status, true, &Ok(signed_in("33"))),
        Err(Problem::CredentialMismatch)
    ));
    assert!(!Problem::NotScanned.message().is_empty());
}

#[test]
fn a_failed_scan_says_why_and_ends_the_wait() {
    let mut accounts = load();
    accounts.start_login(7);
    assert!(accounts.login_pending());
    accounts.apply_event(AccountEvent::Qr {
        token: 7,
        lines: vec!["▀".into()],
    });
    assert_eq!(accounts.qr_lines().unwrap().len(), 1);
    let said = accounts.apply_event(AccountEvent::Failed {
        token: 7,
        message: "二维码已过期".into(),
    });
    assert!(said.unwrap().contains("二维码已过期"));
    assert!(!accounts.login_pending());
}

#[test]
fn labels_and_polls_of_a_sign_in() {
    assert!(account_label(&signed_in("11")).contains("用户11"));
    assert_ne!(account_label(&AccountStatus::SignedOut), account_label(&signed_in("11")));
    assert!(!same_user(&AccountStatus::SignedOut, &AccountStatus::SignedOut));
    assert_eq!(login_step(false, false, LoginPoll::SignedIn), LoginStep::Done);
    assert_eq!(login_step(false, false, LoginPoll::Expired), LoginStep::GiveUp);
    assert_eq!(login_step(true, false, LoginPoll::Waiting), LoginStep::Ask);
}
