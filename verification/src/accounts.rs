//! Who the assistant sends as: the main account, or an account of its own. The two are never
//! mixed up: an account of its own that is missing, damaged or signed out is no reason to send as
//! the main account.
use vstd::prelude::*;
use vstd::string::*;

use crate::domain::AccountStatus;
use crate::text;

verus! {

#[derive(Clone, Copy, Debug, PartialEq, Eq, Structural)]
pub enum Mode {
    ReuseMain,
    Independent,
}

/// Permission to send automatically, for one room and one sending account.
#[derive(Debug)]
pub struct AutomaticGrant {
    pub room_id: String,
    pub user_id: String,
}

/// The choice that is kept on disk.
#[derive(Debug)]
pub struct Selection {
    pub mode: Mode,
    pub account: Option<String>,
    pub remembered_automatic: Option<AutomaticGrant>,
}

/// A stored credential, by the name it is stored under.
#[derive(Debug)]
pub struct Credential {
    pub id: String,
}

impl Credential {
    pub fn copy(&self) -> (r: Self)
        ensures
            r == *self,
    {
        Credential { id: self.id.clone() }
    }
}

/// A login that waits to be scanned.
#[derive(Debug)]
pub struct PendingLogin {
    pub token: u64,
    pub status: Option<AccountStatus>,
}

/// What every identity that was handed out is measured by: it counts only as long as the
/// generation is its own and the login has not been found unusable.
#[derive(Clone, Copy, Debug, PartialEq, Eq, Structural)]
pub struct IdentityGate {
    pub generation: u64,
    pub unavailable: bool,
}

/// News of a login, or of an identity that can no longer be used.
#[derive(Debug)]
pub enum AccountEvent {
    Qr { token: u64, lines: Vec<String> },
    Scanned { token: u64 },
    Ready { token: u64, status: AccountStatus },
    Failed { token: u64, message: String },
    Unavailable { generation: u64 },
}

/// Why an account cannot be used.
#[derive(Debug)]
pub enum Problem {
    NotScanned,
    ScanUnfinished,
    MainUnverified,
    SameAsMain,
    SameAsMainCredential,
    StagedInvalid,
    EmptyRoom,
    IdentityChanged,
    NoCredentials,
    NotSignedIn,
    CredentialMismatch,
    SameAsMainForGrant,
    ReportedMismatch,
    ReportedSameAsMain,
    /// Reading or storing failed, for the reason given.
    Storage(String),
}

pub open spec fn problem_text(problem: Problem) -> Seq<char> {
    match problem {
        Problem::NotScanned => "请先扫描独立账号二维码"@,
        Problem::ScanUnfinished => "扫码尚未完成"@,
        Problem::MainUnverified => "请先验证主账号 UID，才能确认是独立身份"@,
        Problem::SameAsMain => "该 UID 与主账号相同，不能称为独立账号；请重新扫码或选择复用主账号"@,
        Problem::SameAsMainCredential => "扫码 UID 与当前主凭据相同；请重扫或明确复用"@,
        Problem::StagedInvalid => "暂存登录态无效，请重新扫码"@,
        Problem::EmptyRoom => "直播间 ID 为空，不能记住自动发送许可"@,
        Problem::IdentityChanged => "助手身份已更改或登录态不可用"@,
        Problem::NoCredentials => "当前发送身份没有可用凭据"@,
        Problem::NotSignedIn => "当前发送身份未登录，不能记住自动发送许可"@,
        Problem::CredentialMismatch => "发送凭据 UID 与已加载身份不一致，不能记住自动发送许可"@,
        Problem::SameAsMainForGrant => "助手 UID 与主账号相同，不能记住自动发送许可"@,
        Problem::ReportedMismatch => "实际发送 UID 与已显示身份不一致；请重新确认账号"@,
        Problem::ReportedSameAsMain => "助手 UID 与主账号相同；请重扫或明确选择复用"@,
        Problem::Storage(reason) => reason@,
    }
}

impl Problem {
    pub fn message(&self) -> (r: String)
        ensures
            r@ == problem_text(*self),
    {
        match self {
            Problem::NotScanned => "请先扫描独立账号二维码".to_owned(),
            Problem::ScanUnfinished => "扫码尚未完成".to_owned(),
            Problem::MainUnverified => "请先验证主账号 UID，才能确认是独立身份".to_owned(),
            Problem::SameAsMain => "该 UID 与主账号相同，不能称为独立账号；请重新扫码或选择复用主账号".to_owned(),
            Problem::SameAsMainCredential => "扫码 UID 与当前主凭据相同；请重扫或明确复用".to_owned(),
            Problem::StagedInvalid => "暂存登录态无效，请重新扫码".to_owned(),
            Problem::EmptyRoom => "直播间 ID 为空，不能记住自动发送许可".to_owned(),
            Problem::IdentityChanged => "助手身份已更改或登录态不可用".to_owned(),
            Problem::NoCredentials => "当前发送身份没有可用凭据".to_owned(),
            Problem::NotSignedIn => "当前发送身份未登录，不能记住自动发送许可".to_owned(),
            Problem::CredentialMismatch => "发送凭据 UID 与已加载身份不一致，不能记住自动发送许可".to_owned(),
            Problem::SameAsMainForGrant => "助手 UID 与主账号相同，不能记住自动发送许可".to_owned(),
            Problem::ReportedMismatch => "实际发送 UID 与已显示身份不一致；请重新确认账号".to_owned(),
            Problem::ReportedSameAsMain => "助手 UID 与主账号相同；请重扫或明确选择复用".to_owned(),
            Problem::Storage(reason) => reason.clone(),
        }
    }
}

/// Two statuses of one user.
pub open spec fn is_same_user(left: AccountStatus, right: AccountStatus) -> bool {
    left.user() is Some && left.user() == right.user()
}

pub fn same_user(left: &AccountStatus, right: &AccountStatus) -> (r: bool)
    ensures
        r == is_same_user(*left, *right),
{
    match (left, right) {
        (
            AccountStatus::SignedIn { user_id: a, .. },
            AccountStatus::SignedIn { user_id: b, .. },
        ) => text::same(a.as_str(), b.as_str()),
        _ => false,
    }
}

/// A user is signed in and has an identifier.
pub open spec fn is_known(status: AccountStatus) -> bool {
    status.user() is Some && status.user()->0.len() > 0
}

fn known(status: &AccountStatus) -> (r: bool)
    ensures
        r == is_known(*status),
{
    match status {
        AccountStatus::SignedIn { user_id, .. } => !user_id.as_str().is_empty(),
        AccountStatus::SignedOut => false,
    }
}

/// The name and the identifier of who is signed in.
pub open spec fn identity_text(status: AccountStatus) -> Seq<char> {
    match status {
        AccountStatus::SignedIn { display_name, user_id } => display_name@ + " · UID "@ + user_id@,
        AccountStatus::SignedOut => "未登录"@,
    }
}

/// The name and the identifier of who is signed in.
pub fn account_label(status: &AccountStatus) -> (r: String)
    ensures
        r@ == identity_text(*status),
{
    match status {
        AccountStatus::SignedIn { display_name, user_id } => text::add3(
            display_name.as_str(),
            " · UID ",
            user_id.as_str(),
        ),
        AccountStatus::SignedOut => "未登录".to_owned(),
    }
}

/// What was found on disk where the choice is kept.
#[derive(Debug)]
pub enum LoadedSelection {
    Found(Selection),
    Missing,
    /// The file could not be read or understood, for the reason given.
    Broken(String),
}

/// The accounts that the assistant may send as.
pub struct AssistantAccounts {
    pub main: Credential,
    pub independent: Option<Credential>,
    pub independent_status: AccountStatus,
    pub selection: Selection,
    pub gate: IdentityGate,
    pub load_error: Option<String>,
    pub pending: Option<PendingLogin>,
    pub qr: Option<Vec<String>>,
}

impl Selection {
    /// The choice without a permission to send automatically.
    pub open spec fn without_grant(self) -> Selection {
        Selection { remembered_automatic: None, ..self }
    }
}

fn copy_id(id: &Option<String>) -> (r: Option<String>)
    ensures
        r == *id,
{
    match id {
        Some(id) => Some(id.clone()),
        None => None,
    }
}

/// The assistant sends through the main account once that is saved.
pub open spec fn reused(
    before: AssistantAccounts,
    after: AssistantAccounts,
    saved: Result<(), String>,
    r: Result<(), Problem>,
) -> bool {
    &&& r is Ok == saved is Ok
    &&& match r {
        Ok(_) => after == (AssistantAccounts {
            selection: Selection {
                mode: Mode::ReuseMain,
                ..before.selection.without_grant()
            },
            gate: IdentityGate {
                generation: (before.gate.generation + 1) as u64,
                unavailable: false,
            },
            load_error: None,
            ..before.without_login()
        }),
        Err(problem) => problem_text(problem) == saved->Err_0@ && after == before.without_login().next_generation(),
    }
}

/// The assistant's own account is gone once that is saved.
pub open spec fn signed_out(
    before: AssistantAccounts,
    after: AssistantAccounts,
    saved: Result<(), String>,
    r: Result<Option<Credential>, Problem>,
) -> bool {
    &&& r is Ok == saved is Ok
    &&& match r {
        Ok(old_credential) => {
            &&& old_credential == before.independent
            &&& after == (AssistantAccounts {
                independent: None,
                independent_status: AccountStatus::SignedOut,
                selection: Selection {
                    account: None,
                    ..before.selection.without_grant()
                },
                ..before.without_login().next_generation()
            })
        },
        Err(problem) => problem_text(problem) == saved->Err_0@ && after == before.without_login().next_generation(),
    }
}

impl AssistantAccounts {
    pub open spec fn wf(self) -> bool {
        self.gate.generation < u64::MAX
    }

    /// The status of the account that the assistant sends as.
    pub open spec fn sender(self, main: AccountStatus) -> AccountStatus {
        if self.selection.mode == Mode::ReuseMain {
            main
        } else {
            self.independent_status
        }
    }

    /// The credential that the assistant sends with.
    pub open spec fn sender_credential(self) -> Option<Credential> {
        if self.selection.mode == Mode::ReuseMain {
            Some(self.main)
        } else {
            self.independent
        }
    }

    /// The accounts with the next generation: whatever was handed out before no longer counts.
    pub open spec fn next_generation(self) -> AssistantAccounts {
        AssistantAccounts {
            gate: IdentityGate { generation: (self.gate.generation + 1) as u64, ..self.gate },
            ..self
        }
    }

    /// The accounts without a login that waits.
    pub open spec fn without_login(self) -> AssistantAccounts {
        AssistantAccounts { pending: None, qr: None, ..self }
    }

    /// The accounts at the start of the program. A choice that cannot be read leaves the assistant
    /// without an account, never with the main one.
    pub fn load(
        main: Credential,
        loaded: LoadedSelection,
        cached: Option<AccountStatus>,
    ) -> (r: Self)
        ensures
            r.wf(),
            r.main == main,
            r.gate.generation == 1,
            r.gate.unavailable == (loaded is Broken),
            r.pending is None,
            r.qr is None,
            match loaded {
                LoadedSelection::Found(selection) => r.selection == selection,
                LoadedSelection::Missing => r.selection == (Selection {
                    mode: Mode::ReuseMain,
                    account: None,
                    remembered_automatic: None,
                }),
                LoadedSelection::Broken(_) => r.selection == (Selection {
                    mode: Mode::Independent,
                    account: None,
                    remembered_automatic: None,
                }),
            },
            match loaded {
                LoadedSelection::Broken(error) => r.load_error is Some && r.load_error->0@ == error@
                    + "；助手不可用，请重扫或明确复用主账号"@,
                _ => r.load_error is None,
            },
            match r.selection.account {
                Some(id) => r.independent == Some(Credential { id }) && r.independent_status == (
                match cached {
                    Some(status) => status,
                    None => AccountStatus::SignedOut,
                }),
                None => r.independent is None && r.independent_status is SignedOut,
            },
    {
        let broken: bool = matches!(loaded, LoadedSelection::Broken(_));
        let mut load_error: Option<String> = None;
        let selection: Selection = match loaded {
            LoadedSelection::Found(selection) => selection,
            LoadedSelection::Missing => Selection {
                mode: Mode::ReuseMain,
                account: None,
                remembered_automatic: None,
            },
            LoadedSelection::Broken(error) => {
                load_error = Some(
                    text::add2(error.as_str(), "；助手不可用，请重扫或明确复用主账号"),
                );
                Selection { mode: Mode::Independent, account: None, remembered_automatic: None }
            },
        };
        let independent: Option<Credential> = match &selection.account {
            Some(id) => Some(Credential { id: id.clone() }),
            None => None,
        };
        let independent_status: AccountStatus = if independent.is_some() {
            match cached {
                Some(status) => status,
                None => AccountStatus::SignedOut,
            }
        } else {
            AccountStatus::SignedOut
        };
        AssistantAccounts {
            main,
            independent,
            independent_status,
            selection,
            gate: IdentityGate { generation: 1, unavailable: broken },
            load_error,
            pending: None,
            qr: None,
        }
    }

    pub fn generation(&self) -> (r: u64)
        ensures
            r == self.gate.generation,
    {
        self.gate.generation
    }

    /// What is shown of the sending account.
    pub open spec fn label_text(self, main: AccountStatus) -> Seq<char> {
        match self.load_error {
            Some(error) => error@,
            None => {
                let status = self.sender(main);
                (if self.selection.mode == Mode::ReuseMain {
                    "复用主账号"@
                } else {
                    "独立助手账号"@
                }) + " · "@ + identity_text(status) + (if self.gate.unavailable {
                    " · 登录态不可用，助手已停发"@
                } else if self.selection.mode == Mode::Independent && is_same_user(status, main) {
                    " · 与主账号相同，不是独立身份；请重扫或复用"@
                } else {
                    ""@
                })
            },
        }
    }

    pub fn label(&self, main: &AccountStatus) -> (r: String)
        ensures
            r@ == self.label_text(*main),
    {
        if let Some(error) = &self.load_error {
            return error.clone();
        }
        let status: &AccountStatus = self.status(main);
        let prefix: &str = if self.selection.mode == Mode::ReuseMain {
            "复用主账号"
        } else {
            "独立助手账号"
        };
        let warning: &str = if self.gate.unavailable {
            " · 登录态不可用，助手已停发"
        } else if self.selection.mode == Mode::Independent && same_user(status, main) {
            " · 与主账号相同，不是独立身份；请重扫或复用"
        } else {
            ""
        };
        let mut out: String = text::add3(prefix, " · ", account_label(status).as_str());
        out.append(warning);
        out
    }

    pub fn status<'a>(&'a self, main: &'a AccountStatus) -> (r: &'a AccountStatus)
        ensures
            *r == self.sender(*main),
    {
        if self.selection.mode == Mode::ReuseMain {
            main
        } else {
            &self.independent_status
        }
    }

    /// The user that the assistant sends as, where that is not the main user.
    pub open spec fn independent_user(self, main: AccountStatus) -> Option<Seq<char>> {
        if self.selection.mode == Mode::Independent && !is_same_user(self.independent_status, main)
            && is_known(self.independent_status) {
            self.independent_status.user()
        } else {
            None
        }
    }

    pub fn independent_user_id(&self, main: &AccountStatus) -> (r: Option<&str>)
        ensures
            match r {
                Some(id) => Some(id@),
                None => None,
            } == self.independent_user(*main),
    {
        if self.selection.mode != Mode::Independent || same_user(&self.independent_status, main) {
            return None;
        }
        match &self.independent_status {
            AccountStatus::SignedIn { user_id, .. } => if user_id.as_str().is_empty() {
                None
            } else {
                Some(user_id.as_str())
            },
            AccountStatus::SignedOut => None,
        }
    }

    pub open spec fn scanned_status(self) -> Option<AccountStatus> {
        match self.pending {
            Some(pending) => pending.status,
            None => None,
        }
    }

    pub fn pending_status(&self) -> (r: Option<&AccountStatus>)
        ensures
            match r {
                Some(status) => Some(*status),
                None => None,
            } == self.scanned_status(),
    {
        match &self.pending {
            Some(pending) => match &pending.status {
                Some(status) => Some(status),
                None => None,
            },
            None => None,
        }
    }

    pub fn pending_is_main(&self, main: &AccountStatus) -> (r: bool)
        ensures
            r == (self.scanned_status() is Some && is_same_user(self.scanned_status()->0, *main)),
    {
        match self.pending_status() {
            Some(status) => same_user(status, main),
            None => false,
        }
    }

    pub fn qr_lines(&self) -> (r: Option<&Vec<String>>)
        ensures
            match r {
                Some(lines) => Some(*lines),
                None => None,
            } == self.qr,
    {
        match &self.qr {
            Some(lines) => Some(lines),
            None => None,
        }
    }

    pub fn login_pending(&self) -> (r: bool)
        ensures
            r == self.pending is Some,
    {
        self.pending.is_some()
    }

    /// The permission to send automatically could not be taken off the disk.
    pub open spec fn keeps_grant(self, saved: Result<(), String>) -> bool {
        self.selection.remembered_automatic is Some && saved is Err
    }

    /// The accounts after the main account has changed.
    pub open spec fn with_new_main(self, saved: Result<(), String>) -> AssistantAccounts {
        AssistantAccounts {
            gate: IdentityGate {
                generation: (self.gate.generation + 1) as u64,
                unavailable: self.keeps_grant(saved) || (self.gate.unavailable
                    && self.selection.mode != Mode::ReuseMain),
            },
            selection: if self.keeps_grant(saved) {
                self.selection
            } else {
                self.selection.without_grant()
            },
            ..self
        }
    }

    /// The main account has changed. Whatever was handed out before no longer counts, and the
    /// permission to send automatically is gone; where it could not be taken off the disk (`saved`
    /// says how that went), the assistant does not send at all.
    pub fn main_changed(&mut self, saved: Result<(), String>) -> (r: Result<(), Problem>)
        requires
            old(self).wf(),
        ensures
            r is Err == old(self).keeps_grant(saved),
            r is Err ==> problem_text(r->Err_0) == saved->Err_0@,
            *final(self) == old(self).with_new_main(saved),
    {
        self.gate.generation = self.gate.generation + 1;
        let result: Result<(), Problem> = self.forget_automatic(saved);
        if result.is_err() {
            self.gate.unavailable = true;
        } else if self.selection.mode == Mode::ReuseMain {
            self.gate.unavailable = false;
        }
        result
    }

    /// A new login waits to be scanned.
    pub fn start_login(&mut self, token: u64)
        requires
            old(self).wf(),
        ensures
            *final(self) == (AssistantAccounts {
                pending: Some(PendingLogin { token, status: None }),
                ..old(self).without_login().next_generation()
            }),
    {
        self.cancel_login();
        self.gate.generation = self.gate.generation + 1;
        self.pending = Some(PendingLogin { token, status: None });
    }

    pub fn cancel_login(&mut self)
        ensures
            *final(self) == old(self).without_login(),
    {
        self.pending = None;
        self.qr = None;
    }

    /// Whether news of a login is of the one that waits.
    pub open spec fn awaits(self, token: u64) -> bool {
        self.pending is Some && self.pending->0.token == token
    }

    /// The accounts after news of a login, and what is said of it. News of a login that no longer
    /// waits is passed over.
    pub open spec fn informed(
        self,
        after: AssistantAccounts,
        event: AccountEvent,
        said: Option<Seq<char>>,
    ) -> bool {
        match event {
            AccountEvent::Unavailable { generation } => {
                &&& after == self
                &&& said == (if generation == self.gate.generation && self.gate.unavailable {
                    Some(
                        "助手登录态不可用，已停止助手发送；人工主账号不受影响，请重新登录并重新确认许可"@,
                    )
                } else {
                    None
                })
            },
            AccountEvent::Qr { token, lines } => if self.awaits(token) {
                &&& said == Some("请用 AI 发送账号扫码；扫码成功后将直接启用"@)
                &&& after == (AssistantAccounts { qr: Some(lines), ..self })
            } else {
                said is None && after == self
            },
            AccountEvent::Scanned { token } => {
                &&& after == self
                &&& said == (if self.awaits(token) {
                    Some("助手二维码已扫码，请在 B 站客户端确认"@)
                } else {
                    None
                })
            },
            AccountEvent::Ready { token, status } => if self.awaits(token) {
                &&& said == Some("扫码成功，正在验证独立账号"@)
                &&& after == (AssistantAccounts {
                    pending: Some(PendingLogin { token, status: Some(status) }),
                    qr: None,
                    ..self
                })
            } else {
                said is None && after == self
            },
            AccountEvent::Failed { token, message } => if self.awaits(token) {
                said == Some(message@) && after == self.without_login()
            } else {
                said is None && after == self
            },
        }
    }

    /// Takes in news of a login.
    pub fn apply_event(&mut self, event: AccountEvent) -> (r: Option<String>)
        ensures
            old(self).informed(*final(self), event, text::opt_view(r)),
    {
        let waiting: Option<u64> = match &self.pending {
            Some(pending) => Some(pending.token),
            None => None,
        };
        match event {
            AccountEvent::Unavailable { generation } => {
                if generation == self.gate.generation && self.gate.unavailable {
                    Some(
                        "助手登录态不可用，已停止助手发送；人工主账号不受影响，请重新登录并重新确认许可".to_owned(),
                    )
                } else {
                    None
                }
            },
            AccountEvent::Qr { token, lines } => {
                if waiting != Some(token) {
                    return None;
                }
                self.qr = Some(lines);
                Some("请用 AI 发送账号扫码；扫码成功后将直接启用".to_owned())
            },
            AccountEvent::Scanned { token } => {
                if waiting != Some(token) {
                    return None;
                }
                Some("助手二维码已扫码，请在 B 站客户端确认".to_owned())
            },
            AccountEvent::Ready { token, status } => {
                if waiting != Some(token) {
                    return None;
                }
                self.pending = Some(PendingLogin { token, status: Some(status) });
                self.qr = None;
                Some("扫码成功，正在验证独立账号".to_owned())
            },
            AccountEvent::Failed { token, message } => {
                if waiting != Some(token) {
                    return None;
                }
                self.cancel_login();
                Some(message)
            },
        }
    }

    /// What stands against the scanned account as an account of the assistant's own. `stored` is
    /// what the stored main credential says, where it can be read.
    pub open spec fn independence_problem(
        self,
        main: AccountStatus,
        stored: Result<AccountStatus, String>,
    ) -> Option<Seq<char>> {
        if self.pending is None {
            Some(problem_text(Problem::NotScanned))
        } else if self.pending->0.status is None {
            Some(problem_text(Problem::ScanUnfinished))
        } else {
            let status = self.pending->0.status->0;
            if !is_known(main) {
                Some(problem_text(Problem::MainUnverified))
            } else if is_same_user(status, main) {
                Some(problem_text(Problem::SameAsMain))
            } else if stored is Err {
                Some(stored->Err_0@)
            } else if is_same_user(status, stored->Ok_0) {
                Some(problem_text(Problem::SameAsMainCredential))
            } else if !is_known(status) {
                Some(problem_text(Problem::StagedInvalid))
            } else {
                None
            }
        }
    }

    pub fn validate_independent(
        &self,
        main: &AccountStatus,
        stored: &Result<AccountStatus, String>,
    ) -> (r: Result<(), Problem>)
        ensures
            match r {
                Ok(_) => self.independence_problem(*main, *stored) is None,
                Err(problem) => self.independence_problem(*main, *stored) == Some(
                    problem_text(problem),
                ),
            },
    {
        let status: &AccountStatus = match &self.pending {
            Some(pending) => match &pending.status {
                Some(status) => status,
                None => {
                    return Err(Problem::ScanUnfinished);
                },
            },
            None => {
                return Err(Problem::NotScanned);
            },
        };
        if !known(main) {
            return Err(Problem::MainUnverified);
        }
        if same_user(status, main) {
            return Err(Problem::SameAsMain);
        }
        match stored {
            Err(reason) => {
                return Err(Problem::Storage(reason.clone()));
            },
            Ok(stored) => {
                if same_user(status, stored) {
                    return Err(Problem::SameAsMainCredential);
                }
            },
        }
        if !known(status) {
            return Err(Problem::StagedInvalid);
        }
        Ok(())
    }

    /// The accounts once the scanned one is the assistant's own, under the given name.
    pub open spec fn made_independent(self, id: String) -> AssistantAccounts {
        AssistantAccounts {
            main: self.main,
            independent: Some(Credential { id }),
            independent_status: self.scanned_status()->0,
            selection: Selection {
                mode: Mode::Independent,
                account: Some(id),
                remembered_automatic: None,
            },
            gate: IdentityGate {
                generation: (self.gate.generation + 1) as u64,
                unavailable: false,
            },
            load_error: None,
            pending: None,
            qr: None,
        }
    }

    /// What keeps the scanned account from becoming the assistant's own.
    pub open spec fn unconfirmed(
        self,
        main: AccountStatus,
        stored: Result<AccountStatus, String>,
        persisted: Result<(), String>,
        saved: Result<(), String>,
    ) -> Option<Seq<char>> {
        if self.independence_problem(main, stored) is Some {
            self.independence_problem(main, stored)
        } else if persisted is Err {
            Some(persisted->Err_0@)
        } else if saved is Err {
            Some(saved->Err_0@)
        } else {
            None
        }
    }

    /// Makes the scanned account the assistant's own, under the given name. `persisted` and
    /// `saved` say how storing the credential and the choice went. Where anything failed, the old
    /// account stays as it was; otherwise the answer holds the old credential, which is to be
    /// removed.
    pub fn confirm_independent(
        &mut self,
        main: &AccountStatus,
        stored: &Result<AccountStatus, String>,
        id: String,
        persisted: Result<(), String>,
        saved: Result<(), String>,
    ) -> (r: Result<Option<Credential>, Problem>)
        requires
            old(self).wf(),
        ensures
            match r {
                Ok(old_credential) => {
                    &&& old(self).unconfirmed(*main, *stored, persisted, saved) is None
                    &&& old_credential == old(self).independent
                    &&& *final(self) == old(self).made_independent(id)
                },
                Err(problem) => {
                    &&& *final(self) == *old(self)
                    &&& old(self).unconfirmed(*main, *stored, persisted, saved) == Some(
                        problem_text(problem),
                    )
                },
            },
    {
        if let Err(problem) = self.validate_independent(main, stored) {
            return Err(problem);
        }
        if let Err(reason) = persisted {
            return Err(Problem::Storage(reason));
        }
        if let Err(reason) = saved {
            return Err(Problem::Storage(reason));
        }
        let status: AccountStatus = match &self.pending {
            Some(pending) => match &pending.status {
                Some(status) => status.copy(),
                None => AccountStatus::SignedOut,
            },
            None => AccountStatus::SignedOut,
        };
        let old_credential: Option<Credential> = self.independent.take();
        self.gate.generation = self.gate.generation + 1;
        self.independent = Some(Credential { id: id.clone() });
        self.independent_status = status;
        self.selection = Selection {
            mode: Mode::Independent,
            account: Some(id),
            remembered_automatic: None,
        };
        self.cancel_login();
        self.gate.unavailable = false;
        self.load_error = None;
        Ok(old_credential)
    }

    /// What is said once the scanned account has become the assistant's own.
    pub fn ready_message(status: &AccountStatus) -> (r: String)
        ensures
            r@ == "已启用 AI 发送账号："@ + identity_text(*status),
    {
        text::add2("已启用 AI 发送账号：", account_label(status).as_str())
    }

    /// Makes the scanned account the assistant's own, as `confirm_independent` does, and says so.
    pub fn complete_independent_ready(
        &mut self,
        main: &AccountStatus,
        stored: &Result<AccountStatus, String>,
        id: String,
        persisted: Result<(), String>,
        saved: Result<(), String>,
    ) -> (r: Result<(String, Option<Credential>), Problem>)
        requires
            old(self).wf(),
        ensures
            match r {
                Ok((message, old_credential)) => {
                    &&& old(self).independence_problem(*main, *stored) is None
                    &&& persisted is Ok
                    &&& saved is Ok
                    &&& message@ == "已启用 AI 发送账号："@ + identity_text(
                        old(self).scanned_status()->0,
                    )
                    &&& old_credential == old(self).independent
                    &&& *final(self) == old(self).made_independent(id)
                },
                Err(problem) => {
                    &&& *final(self) == *old(self)
                    &&& old(self).unconfirmed(*main, *stored, persisted, saved) == Some(
                        problem_text(problem),
                    )
                },
            },
    {
        let message: String = match self.pending_status() {
            Some(status) => AssistantAccounts::ready_message(status),
            None => String::new(),
        };
        match self.confirm_independent(main, stored, id, persisted, saved) {
            Ok(old_credential) => Ok((message, old_credential)),
            Err(problem) => Err(problem),
        }
    }

    /// The assistant sends as the main account. Where the choice could not be saved, the old one
    /// stays; in any case what was handed out before no longer counts.
    pub fn reuse_main(&mut self, saved: Result<(), String>) -> (r: Result<(), Problem>)
        requires
            old(self).wf(),
        ensures
            reused(*old(self), *final(self), saved, r),
    {
        self.cancel_login();
        self.gate.generation = self.gate.generation + 1;
        if let Err(reason) = saved {
            return Err(Problem::Storage(reason));
        }
        self.selection = Selection {
            mode: Mode::ReuseMain,
            account: copy_id(&self.selection.account),
            remembered_automatic: None,
        };
        self.gate.unavailable = false;
        self.load_error = None;
        Ok(())
    }

    /// The account of the assistant's own is signed out. The mode stays: signing out is never
    /// consent to send as the main account. The answer holds the credential to be removed.
    pub fn sign_out_independent(&mut self, saved: Result<(), String>) -> (r: Result<
        Option<Credential>,
        Problem,
    >)
        requires
            old(self).wf(),
        ensures
            signed_out(*old(self), *final(self), saved, r),
    {
        self.cancel_login();
        self.gate.generation = self.gate.generation + 1;
        if let Err(reason) = saved {
            return Err(Problem::Storage(reason));
        }
        self.selection = Selection {
            mode: self.selection.mode,
            account: None,
            remembered_automatic: None,
        };
        self.independent_status = AccountStatus::SignedOut;
        Ok(self.independent.take())
    }

    /// What stands against a permission to send automatically. `readable` says whether the
    /// credential could be read, `cached` whom it is of.
    pub open spec fn grant_problem(
        self,
        room_id: Seq<char>,
        main: AccountStatus,
        readable: bool,
        cached: Result<AccountStatus, String>,
    ) -> Option<Seq<char>> {
        let selected = self.sender(main);
        if room_id.len() == 0 {
            Some(problem_text(Problem::EmptyRoom))
        } else if self.gate.unavailable {
            Some(problem_text(Problem::IdentityChanged))
        } else if self.sender_credential() is None || !readable {
            Some(problem_text(Problem::NoCredentials))
        } else if cached is Err {
            Some(cached->Err_0@)
        } else if !is_known(selected) {
            Some(problem_text(Problem::NotSignedIn))
        } else if !is_same_user(selected, cached->Ok_0) {
            Some(problem_text(Problem::CredentialMismatch))
        } else if self.selection.mode == Mode::Independent && is_same_user(selected, main) {
            Some(problem_text(Problem::SameAsMainForGrant))
        } else {
            None
        }
    }

    pub fn validate_automatic_identity(
        &self,
        room_id: &str,
        main: &AccountStatus,
        readable: bool,
        cached: &Result<AccountStatus, String>,
    ) -> (r: Result<(), Problem>)
        ensures
            match r {
                Ok(_) => self.grant_problem(room_id@, *main, readable, *cached) is None,
                Err(problem) => self.grant_problem(room_id@, *main, readable, *cached) == Some(
                    problem_text(problem),
                ),
            },
    {
        if room_id.is_empty() {
            return Err(Problem::EmptyRoom);
        }
        let identity: SendIdentity = self.send_identity(main, readable);
        if !identity.valid(&self.gate) {
            return Err(Problem::IdentityChanged);
        }
        if identity.account().is_none() {
            return Err(Problem::NoCredentials);
        }
        let cached: &AccountStatus = match cached {
            Ok(cached) => cached,
            Err(reason) => {
                return Err(Problem::Storage(reason.clone()));
            },
        };
        let selected: &AccountStatus = self.status(main);
        if !known(selected) {
            return Err(Problem::NotSignedIn);
        }
        if !same_user(selected, cached) {
            return Err(Problem::CredentialMismatch);
        }
        if self.selection.mode == Mode::Independent && same_user(selected, main) {
            return Err(Problem::SameAsMainForGrant);
        }
        Ok(())
    }

    /// Remembers the permission to send automatically in a room, for the account that sends.
    /// Where it could not be saved, nothing changes.
    pub fn remember_automatic(
        &mut self,
        room_id: &str,
        main: &AccountStatus,
        readable: bool,
        cached: &Result<AccountStatus, String>,
        saved: Result<(), String>,
    ) -> (r: Result<(), Problem>)
        ensures
            r is Ok == (old(self).grant_problem(room_id@, *main, readable, *cached) is None
                && saved is Ok),
            match r {
                Ok(_) => {
                    let grant = final(self).selection.remembered_automatic;
                    &&& grant is Some
                    &&& grant->0.room_id@ == room_id@
                    &&& Some(grant->0.user_id@) == old(self).sender(*main).user()
                    &&& *final(self) == (AssistantAccounts {
                        selection: Selection { remembered_automatic: grant, ..old(self).selection },
                        ..*old(self)
                    })
                },
                Err(problem) => {
                    &&& *final(self) == *old(self)
                    &&& problem_text(problem) == (match old(self).grant_problem(
                        room_id@,
                        *main,
                        readable,
                        *cached,
                    ) {
                        Some(reason) => reason,
                        None => saved->Err_0@,
                    })
                },
            },
    {
        if let Err(problem) = self.validate_automatic_identity(room_id, main, readable, cached) {
            return Err(problem);
        }
        if let Err(reason) = saved {
            return Err(Problem::Storage(reason));
        }
        let user_id: String = match self.status(main) {
            AccountStatus::SignedIn { user_id, .. } => user_id.clone(),
            AccountStatus::SignedOut => String::new(),
        };
        self.selection.remembered_automatic = Some(
            AutomaticGrant { room_id: room_id.to_owned(), user_id },
        );
        Ok(())
    }

    /// Takes the permission to send automatically back. Where that could not be saved, it stays.
    pub fn forget_automatic(&mut self, saved: Result<(), String>) -> (r: Result<(), Problem>)
        ensures
            r is Ok == (old(self).selection.remembered_automatic is None || saved is Ok),
            match r {
                Ok(_) => *final(self) == (AssistantAccounts {
                    selection: old(self).selection.without_grant(),
                    ..*old(self)
                }),
                Err(problem) => problem_text(problem) == saved->Err_0@ && *final(self) == *old(self),
            },
    {
        if self.selection.remembered_automatic.is_none() {
            return Ok(());
        }
        if let Err(reason) = saved {
            return Err(Problem::Storage(reason));
        }
        self.selection.remembered_automatic = None;
        Ok(())
    }

    /// Whether the permission to send automatically is for this room and for the account that
    /// would send.
    pub open spec fn permits(self, room_id: Seq<char>, main: AccountStatus) -> bool {
        &&& self.selection.remembered_automatic is Some
        &&& !self.gate.unavailable
        &&& self.selection.mode == Mode::ReuseMain || (self.independent is Some && !is_same_user(
            self.independent_status,
            main,
        ))
        &&& self.selection.remembered_automatic->0.room_id@ == room_id
        &&& is_known(self.sender(main))
        &&& self.sender(main).user() == Some(self.selection.remembered_automatic->0.user_id@)
    }

    pub fn automatic_matches(&self, room_id: &str, main: &AccountStatus) -> (r: bool)
        ensures
            r == self.permits(room_id@, *main),
    {
        let grant: &AutomaticGrant = match &self.selection.remembered_automatic {
            Some(grant) => grant,
            None => {
                return false;
            },
        };
        if self.gate.unavailable {
            return false;
        }
        let credentials_loaded: bool = self.selection.mode == Mode::ReuseMain || (
        self.independent.is_some() && !same_user(&self.independent_status, main));
        credentials_loaded && text::same(grant.room_id.as_str(), room_id) && (match self.status(
            main,
        ) {
            AccountStatus::SignedIn { user_id, .. } => !user_id.as_str().is_empty() && text::same(
                user_id.as_str(),
                grant.user_id.as_str(),
            ),
            AccountStatus::SignedOut => false,
        })
    }

    pub fn has_automatic_grant(&self) -> (r: bool)
        ensures
            r == self.selection.remembered_automatic is Some,
    {
        self.selection.remembered_automatic.is_some()
    }

    /// The identity that the assistant would send as now. `readable` says whether the credential
    /// could be read.
    pub fn send_identity(&self, main: &AccountStatus, readable: bool) -> (r: SendIdentity)
        ensures
            r.account == (if readable {
                self.sender_credential()
            } else {
                None
            }),
            r.generation == self.gate.generation,
            r.gated,
            r.independent == (self.selection.mode == Mode::Independent),
            r.expected_status == Some(self.sender(*main)),
    {
        let account: Option<Credential> = if !readable {
            None
        } else if self.selection.mode == Mode::ReuseMain {
            Some(self.main.copy())
        } else {
            match &self.independent {
                Some(account) => Some(account.copy()),
                None => None,
            }
        };
        SendIdentity {
            account,
            generation: self.gate.generation,
            gated: true,
            independent: self.selection.mode == Mode::Independent,
            expected_status: Some(self.status(main).copy()),
        }
    }
}

/// A credential as it was when a message was taken on, and the generation it belongs to. What the
/// user sends by hand does not depend on the assistant's account.
pub struct SendIdentity {
    pub account: Option<Credential>,
    pub generation: u64,
    pub gated: bool,
    pub independent: bool,
    pub expected_status: Option<AccountStatus>,
}

impl SendIdentity {
    /// Whether the identity still counts.
    pub open spec fn counts(self, gate: IdentityGate) -> bool {
        !self.gated || (gate.generation == self.generation && !gate.unavailable)
    }

    pub fn manual(account: Option<Credential>) -> (r: Self)
        ensures
            r.account == account,
            !r.gated,
            !r.independent,
            r.expected_status is None,
    {
        SendIdentity {
            account,
            generation: 0,
            gated: false,
            independent: false,
            expected_status: None,
        }
    }

    pub fn is_independent(&self) -> (r: bool)
        ensures
            r == self.independent,
    {
        self.independent
    }

    pub fn valid(&self, gate: &IdentityGate) -> (r: bool)
        ensures
            r == self.counts(*gate),
    {
        !self.gated || (gate.generation == self.generation && !gate.unavailable)
    }

    pub fn account(&self) -> (r: Option<&Credential>)
        ensures
            match r {
                Some(account) => Some(*account),
                None => None,
            } == self.account,
    {
        match &self.account {
            Some(account) => Some(account),
            None => None,
        }
    }

    /// What stands against the account that the platform reported for this identity. For an
    /// account of the assistant's own, `main` is what the platform reported for the main account.
    pub open spec fn report_problem(
        self,
        gate: IdentityGate,
        reported: AccountStatus,
        main: Option<AccountStatus>,
    ) -> Option<Problem> {
        if !self.counts(gate) {
            Some(Problem::IdentityChanged)
        } else if self.account is None {
            Some(Problem::NoCredentials)
        } else if self.expected_status is Some && !is_same_user(
            self.expected_status->0,
            reported,
        ) {
            Some(Problem::ReportedMismatch)
        } else if self.independent && main is Some && is_same_user(reported, main->0) {
            Some(Problem::ReportedSameAsMain)
        } else {
            None
        }
    }

    /// Whether the account that the platform reported is the one that was shown.
    pub fn status(
        &self,
        gate: &IdentityGate,
        reported: &AccountStatus,
        main: Option<&AccountStatus>,
    ) -> (r: Result<(), Problem>)
        ensures
            ({
                let problem = self.report_problem(
                    *gate,
                    *reported,
                    match main {
                        Some(main) => Some(*main),
                        None => None,
                    },
                );
                match r {
                    Ok(_) => problem is None,
                    Err(found) => problem == Some(found),
                }
            }),
    {
        if !self.valid(gate) {
            return Err(Problem::IdentityChanged);
        }
        if self.account.is_none() {
            return Err(Problem::NoCredentials);
        }
        if let Some(expected) = &self.expected_status {
            if !same_user(expected, reported) {
                return Err(Problem::ReportedMismatch);
            }
        }
        if self.independent {
            if let Some(main) = main {
                if same_user(reported, main) {
                    return Err(Problem::ReportedSameAsMain);
                }
            }
        }
        Ok(())
    }

    /// Notes that the login of this identity can no longer be used. Only the present generation
    /// can be stopped so, and never what the user sends by hand.
    pub fn invalidate(&self, gate: &mut IdentityGate) -> (r: Option<u64>)
        ensures
            r == (if self.gated && old(gate).generation == self.generation {
                Some(self.generation)
            } else {
                None
            }),
            *final(gate) == (if r is Some {
                IdentityGate { unavailable: true, ..*old(gate) }
            } else {
                *old(gate)
            }),
    {
        if !self.gated || gate.generation != self.generation {
            return None;
        }
        gate.unavailable = true;
        Some(self.generation)
    }
}

/// What asking the platform about a login gave.
#[derive(Clone, Copy, Debug, PartialEq, Eq, Structural)]
pub enum LoginPoll {
    Waiting,
    Scanned,
    Expired,
    SignedIn,
}

/// What a login does next.
#[derive(Clone, Copy, Debug, PartialEq, Eq, Structural)]
pub enum LoginStep {
    /// Asks again in two seconds.
    Ask,
    /// Says that the code was scanned, and asks again.
    AskScanned,
    /// Gives up: the code has expired.
    GiveUp,
    /// The login is done.
    Done,
}

pub open spec fn next_step(assistant: bool, past_deadline: bool, poll: LoginPoll) -> LoginStep {
    if past_deadline {
        LoginStep::GiveUp
    } else {
        match poll {
            LoginPoll::Waiting => LoginStep::Ask,
            LoginPoll::Scanned => if assistant {
                LoginStep::AskScanned
            } else {
                LoginStep::Ask
            },
            LoginPoll::Expired => LoginStep::GiveUp,
            LoginPoll::SignedIn => LoginStep::Done,
        }
    }
}

/// What a login does next: the login of the assistant says when its code was scanned.
pub fn login_step(assistant: bool, past_deadline: bool, poll: LoginPoll) -> (r: LoginStep)
    ensures
        r == next_step(assistant, past_deadline, poll),
{
    if past_deadline {
        return LoginStep::GiveUp;
    }
    match poll {
        LoginPoll::Waiting => LoginStep::Ask,
        LoginPoll::Scanned => if assistant {
            LoginStep::AskScanned
        } else {
            LoginStep::Ask
        },
        LoginPoll::Expired => LoginStep::GiveUp,
        LoginPoll::SignedIn => LoginStep::Done,
    }
}

/// In independent mode nothing is ever sent as the main account: the credential is the assistant's
/// own or there is none, and the status is its own.
pub proof fn law_an_independent_assistant_never_falls_back(
    accounts: AssistantAccounts,
    main: AccountStatus,
)
    requires
        accounts.selection.mode == Mode::Independent,
    ensures
        accounts.sender_credential() == accounts.independent,
        accounts.sender(main) == accounts.independent_status,
{
}

/// An identity that was handed out before a change of identity does not count afterwards.
pub proof fn law_older_identities_do_not_count(
    identity: SendIdentity,
    before: AssistantAccounts,
    after: IdentityGate,
)
    requires
        identity.gated,
        identity.generation <= before.gate.generation,
        after.generation > before.gate.generation,
    ensures
        !identity.counts(after),
{
}

/// What the user sends by hand counts, whatever becomes of the assistant.
pub proof fn law_manual_sending_always_counts(identity: SendIdentity, gate: IdentityGate)
    requires
        !identity.gated,
    ensures
        identity.counts(gate),
{
}

/// A permission to send automatically counts for one room and one account only.
pub proof fn law_permissions_are_for_one_room_and_account(
    accounts: AssistantAccounts,
    room: Seq<char>,
    other_room: Seq<char>,
    main: AccountStatus,
    other_main: AccountStatus,
)
    requires
        accounts.permits(room, main),
    ensures
        other_room != room ==> !accounts.permits(other_room, main),
        accounts.selection.mode == Mode::ReuseMain && other_main.user() != main.user()
            ==> !accounts.permits(room, other_main),
        accounts.permits(room, other_main) ==> accounts.sender(other_main).user()
            == accounts.sender(main).user(),
{
}

/// A permission that was remembered for a room counts there, as long as nothing changes.
pub proof fn law_a_remembered_permission_counts(
    before: AssistantAccounts,
    after: AssistantAccounts,
    room: Seq<char>,
    main: AccountStatus,
    readable: bool,
    cached: Result<AccountStatus, String>,
)
    requires
        before.grant_problem(room, main, readable, cached) is None,
        after.selection.remembered_automatic is Some,
        after.selection.remembered_automatic->0.room_id@ == room,
        Some(after.selection.remembered_automatic->0.user_id@) == before.sender(main).user(),
        after == (AssistantAccounts {
            selection: Selection {
                remembered_automatic: after.selection.remembered_automatic,
                ..before.selection
            },
            ..before
        }),
    ensures
        after.permits(room, main),
{
}

/// An assistant that speaks through the main account is the main account.
pub proof fn law_a_reused_account_is_the_main_one(accounts: AssistantAccounts, main: AccountStatus)
    requires
        accounts.selection.mode == Mode::ReuseMain,
    ensures
        accounts.sender(main) == main,
        accounts.sender_credential() == Some(accounts.main),
        accounts.independent_user(main) is None,
{
}

/// A remembered permission counts exactly where it is for this room and for the account that would
/// send, that account is signed in and usable, and an account of its own is really another one.
pub proof fn law_a_permission_counts_only_where_it_was_given(
    accounts: AssistantAccounts,
    room: Seq<char>,
    main: AccountStatus,
    user: Seq<char>,
)
    requires
        accounts.sender(main).user() == Some(user),
    ensures
        accounts.permits(room, main) <==> {
            &&& accounts.selection.remembered_automatic is Some
            &&& accounts.selection.remembered_automatic->0.room_id@ == room
            &&& accounts.selection.remembered_automatic->0.user_id@ == user
            &&& user.len() > 0
            &&& !accounts.gate.unavailable
            &&& accounts.selection.mode == Mode::Independent ==> accounts.independent is Some
                && main.user() != Some(user)
        },
{
}

/// Without an account that is signed in nothing is permitted.
pub proof fn law_nobody_is_permitted_nothing(
    accounts: AssistantAccounts,
    room: Seq<char>,
    main: AccountStatus,
)
    requires
        accounts.sender(main) is SignedOut,
    ensures
        !accounts.permits(room, main),
{
}

/// News of another login than the one that is waited for changes nothing and is not told; of the
/// awaited login, a failure ends it and a success keeps who signed in. None of the news changes who
/// sends.
pub proof fn law_only_the_awaited_login_counts(
    before: AssistantAccounts,
    after: AssistantAccounts,
    event: AccountEvent,
    said: Option<Seq<char>>,
)
    requires
        before.informed(after, event, said),
        event !is Unavailable,
    ensures
        ({
            let token = match event {
                AccountEvent::Qr { token, .. } => token,
                AccountEvent::Scanned { token } => token,
                AccountEvent::Ready { token, .. } => token,
                AccountEvent::Failed { token, .. } => token,
                AccountEvent::Unavailable { .. } => 0,
            };
            let awaited = before.pending is Some && before.pending->0.token == token;
            &&& !awaited ==> after == before && said is None
            &&& awaited ==> said is Some
            &&& awaited && event is Failed ==> after.pending is None && after.qr is None
            &&& awaited && event is Ready ==> after.pending is Some && after.pending->0.status
                == Some(event->status) && after.pending->0.token == token
            &&& awaited && event is Qr ==> after.qr == Some(event->lines) && after.pending
                == before.pending
        }),
        after.selection == before.selection,
        after.gate == before.gate,
        after.independent == before.independent,
        after.independent_status == before.independent_status,
        after.main == before.main,
{
}

/// An account becomes the assistant's own exactly where its login is complete, it is signed in and
/// it is neither the main account that is shown nor the one that is stored, both of which are known.
pub proof fn law_an_own_account_is_another_one(
    accounts: AssistantAccounts,
    main: AccountStatus,
    stored: Result<AccountStatus, String>,
)
    ensures
        accounts.independence_problem(main, stored) is None <==> {
            &&& accounts.pending is Some
            &&& accounts.pending->0.status is Some
            &&& stored is Ok
            &&& main.user() is Some
            &&& main.user()->0.len() > 0
            &&& accounts.pending->0.status->0.user() is Some
            &&& accounts.pending->0.status->0.user()->0.len() > 0
            &&& accounts.pending->0.status->0.user() != main.user()
            &&& accounts.pending->0.status->0.user() != stored->Ok_0.user()
        },
{
}

/// Once an account is the assistant's own, it is the one that sends, under a new generation and
/// without any permission that was remembered.
pub proof fn law_an_own_account_starts_without_permission(
    accounts: AssistantAccounts,
    id: String,
    main: AccountStatus,
    room: Seq<char>,
)
    requires
        accounts.wf(),
        accounts.scanned_status() is Some,
    ensures
        accounts.made_independent(id).sender_credential() == Some(Credential { id }),
        accounts.made_independent(id).sender(main) == accounts.scanned_status()->0,
        !accounts.made_independent(id).permits(room, main),
        accounts.made_independent(id).gate.generation == accounts.gate.generation + 1,
        !accounts.made_independent(id).gate.unavailable,
        accounts.made_independent(id).pending is None,
{
}

/// A permission can be remembered exactly where the room is known and the account that would send
/// is usable, signed in, the one whose credentials are stored and, if it is the assistant's own, not
/// the main one.
pub proof fn law_what_a_permission_takes(
    accounts: AssistantAccounts,
    room: Seq<char>,
    main: AccountStatus,
    readable: bool,
    cached: Result<AccountStatus, String>,
)
    ensures
        accounts.grant_problem(room, main, readable, cached) is None <==> {
            let user = accounts.sender(main).user();
            &&& room.len() > 0
            &&& !accounts.gate.unavailable
            &&& readable
            &&& accounts.selection.mode == Mode::Independent ==> accounts.independent is Some
                && user != main.user()
            &&& cached is Ok
            &&& user is Some
            &&& user->0.len() > 0
            &&& user == cached->Ok_0.user()
        },
{
}

/// An identity is confirmed exactly where it still counts, has credentials, and what the platform
/// reports is the expected account and, for one of the assistant's own, not the main one.
pub proof fn law_a_report_confirms_the_expected_account(
    identity: SendIdentity,
    gate: IdentityGate,
    reported: AccountStatus,
    main: Option<AccountStatus>,
)
    ensures
        identity.report_problem(gate, reported, main) is None <==> {
            &&& !identity.gated || (gate.generation == identity.generation && !gate.unavailable)
            &&& identity.account is Some
            &&& identity.expected_status is Some ==> reported.user() is Some && reported.user()
                == identity.expected_status->0.user()
            &&& identity.independent && main is Some ==> reported.user() is None
                || reported.user() != main->0.user()
        },
{
}

/// Another main account takes back the remembered permission and makes every identity that was
/// handed out before count no more; where the permission cannot be taken back, the assistant may
/// not send.
pub proof fn law_a_new_main_account_takes_back(
    accounts: AssistantAccounts,
    saved: Result<(), String>,
    identity: SendIdentity,
    room: Seq<char>,
    main: AccountStatus,
)
    requires
        accounts.wf(),
        identity.gated,
        identity.generation <= accounts.gate.generation,
    ensures
        !accounts.with_new_main(saved).permits(room, main),
        !identity.counts(accounts.with_new_main(saved).gate),
        saved is Ok ==> accounts.with_new_main(saved).selection.remembered_automatic is None,
        accounts.with_new_main(saved).selection.mode == accounts.selection.mode,
{
}

/// A login is done exactly where the platform says so in time; it is given up where the time is
/// over or the code has expired, and otherwise asked for again.
pub proof fn law_logins_end_in_time(assistant: bool, past_deadline: bool, poll: LoginPoll)
    ensures
        next_step(assistant, past_deadline, poll) == LoginStep::Done <==> !past_deadline && poll
            == LoginPoll::SignedIn,
        next_step(assistant, past_deadline, poll) == LoginStep::GiveUp <==> past_deadline || poll
            == LoginPoll::Expired,
        next_step(assistant, past_deadline, poll) == LoginStep::AskScanned <==> !past_deadline
            && assistant && poll == LoginPoll::Scanned,
{
}

/// Sending through the main account, once saved, is what is done, without any remembered
/// permission and under a new generation; where it could not be saved the choice stays, and the
/// generation is new all the same.
pub proof fn law_reusing_the_main_account(
    before: AssistantAccounts,
    after: AssistantAccounts,
    saved: Result<(), String>,
    r: Result<(), Problem>,
    main: AccountStatus,
    room: Seq<char>,
)
    requires
        before.wf(),
        reused(before, after, saved, r),
    ensures
        r is Ok <==> saved is Ok,
        saved is Ok ==> after.sender(main) == main && after.sender_credential() == Some(before.main)
            && !after.permits(room, main) && !after.gate.unavailable,
        saved is Err ==> after.selection == before.selection,
        after.gate.generation == before.gate.generation + 1,
        after.pending is None,
        after.main == before.main,
{
}

/// Signing the assistant's own account out, once saved, leaves no account of its own and no
/// permission; it never turns to the main account by itself.
pub proof fn law_signing_out_never_falls_back(
    before: AssistantAccounts,
    after: AssistantAccounts,
    saved: Result<(), String>,
    r: Result<Option<Credential>, Problem>,
    main: AccountStatus,
    room: Seq<char>,
)
    requires
        before.wf(),
        signed_out(before, after, saved, r),
    ensures
        r is Ok <==> saved is Ok,
        r is Ok ==> r->Ok_0 == before.independent,
        after.selection.mode == before.selection.mode,
        saved is Ok ==> after.independent is None && after.independent_status is SignedOut
            && !after.permits(room, main),
        saved is Ok && before.selection.mode == Mode::Independent ==> after.sender_credential()
            is None,
        saved is Err ==> after.independent == before.independent,
        after.gate.generation == before.gate.generation + 1,
{
}

/// The account that the assistant sends with is told with its mode and its owner, and that it may
/// not send is told too.
pub proof fn law_the_sender_is_told(accounts: AssistantAccounts, main: AccountStatus)
    requires
        accounts.load_error is None,
    ensures
        accounts.selection.mode == Mode::ReuseMain ==> text::has_prefix(
            accounts.label_text(main),
            "复用主账号 · "@ + identity_text(main),
        ),
        accounts.selection.mode == Mode::Independent ==> text::has_prefix(
            accounts.label_text(main),
            "独立助手账号 · "@ + identity_text(accounts.independent_status),
        ),
        accounts.gate.unavailable ==> text::occurs_in(
            " · 登录态不可用，助手已停发"@,
            accounts.label_text(main),
        ),
{
    reveal_strlit("复用主账号");
    reveal_strlit("独立助手账号");
    reveal_strlit(" · ");
    reveal_strlit("复用主账号 · ");
    reveal_strlit("独立助手账号 · ");
    let label = accounts.label_text(main);
    let status = accounts.sender(main);
    let mode = if accounts.selection.mode == Mode::ReuseMain {
        "复用主账号"@
    } else {
        "独立助手账号"@
    };
    let head = mode + " · "@ + identity_text(status);
    assert("复用主账号 · "@ =~= "复用主账号"@ + " · "@);
    assert("独立助手账号 · "@ =~= "独立助手账号"@ + " · "@);
    assert(label.subrange(0, head.len() as int) =~= head);
    if accounts.gate.unavailable {
        let tail = " · 登录态不可用，助手已停发"@;
        assert(label =~= head + tail);
        assert(label.subrange(head.len() as int, (head.len() + tail.len()) as int) =~= tail);
        assert(text::matches_at(label, tail, head.len() as int));
    }
}

/// A scanned account becomes the assistant's own exactly where it may and all of it was saved.
pub proof fn law_what_confirming_an_account_takes(
    accounts: AssistantAccounts,
    main: AccountStatus,
    stored: Result<AccountStatus, String>,
    persisted: Result<(), String>,
    saved: Result<(), String>,
)
    ensures
        accounts.unconfirmed(main, stored, persisted, saved) is None
            <==> accounts.independence_problem(main, stored) is None && persisted is Ok && saved
            is Ok,
{
}

} // verus!
