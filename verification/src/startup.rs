//! The checks before the session: what they show, and when the session may begin.
use vstd::prelude::*;
use vstd::string::*;

use crate::input;
use crate::input::EditorInput;
use crate::keys::{KeyCode, KeyEvent};
use crate::text;

verus! {

#[derive(Clone, Copy, Debug)]
pub enum StartupCheck {
    Waiting,
    Running,
    Passed(&'static str),
    Skipped(&'static str),
    Warning(&'static str),
}

#[derive(Clone, Copy, Debug)]
pub struct StartupView {
    pub local: StartupCheck,
    pub account: StartupCheck,
    pub room: StartupCheck,
    pub metrics: StartupCheck,
    pub obs: StartupCheck,
}

/// A check that has come further.
#[derive(Clone, Copy, Debug)]
pub enum StartupUpdate {
    Local(StartupCheck),
    Account(StartupCheck),
    Room(StartupCheck),
}

/// The view at the beginning of the checks.
pub open spec fn first_view() -> StartupView {
    StartupView {
        local: StartupCheck::Running,
        account: StartupCheck::Running,
        room: StartupCheck::Waiting,
        metrics: StartupCheck::Skipped("进入后后台读取"),
        obs: StartupCheck::Running,
    }
}

impl StartupView {
    pub open spec fn updated(self, update: StartupUpdate) -> StartupView {
        match update {
            StartupUpdate::Local(status) => StartupView { local: status, ..self },
            StartupUpdate::Account(status) => StartupView { account: status, ..self },
            StartupUpdate::Room(status) => StartupView { room: status, ..self },
        }
    }

    /// What stands in the way: only the local data and the room do.
    pub open spec fn warns(self) -> bool {
        self.local is Warning || self.room is Warning
    }

    pub open spec fn label(self) -> Seq<char> {
        if self.local is Running {
            "恢复本地会话"@
        } else if self.account is Running {
            "检查登录状态"@
        } else if self.room is Running {
            "检查直播间　"@
        } else if self.obs is Running {
            "后台检查OBS连接"@
        } else {
            "启动自检完成"@
        }
    }

    /// The broadcasting software asked for a password.
    pub open spec fn asks_for_password(self) -> bool {
        self.obs is Warning && text::occurs_in("/obs config password"@, self.obs->Warning_0@)
    }

    pub fn new() -> (r: Self)
        ensures
            r == first_view(),
    {
        StartupView {
            local: StartupCheck::Running,
            account: StartupCheck::Running,
            room: StartupCheck::Waiting,
            metrics: StartupCheck::Skipped("进入后后台读取"),
            obs: StartupCheck::Running,
        }
    }

    pub fn apply(&mut self, update: StartupUpdate)
        ensures
            *final(self) == old(self).updated(update),
    {
        match update {
            StartupUpdate::Local(status) => {
                self.local = status;
            },
            StartupUpdate::Account(status) => {
                self.account = status;
            },
            StartupUpdate::Room(status) => {
                self.room = status;
            },
        }
    }

    pub fn active_label(self) -> (r: &'static str)
        ensures
            r@ == self.label(),
    {
        if matches!(self.local, StartupCheck::Running) {
            "恢复本地会话"
        } else if matches!(self.account, StartupCheck::Running) {
            "检查登录状态"
        } else if matches!(self.room, StartupCheck::Running) {
            "检查直播间　"
        } else if matches!(self.obs, StartupCheck::Running) {
            "后台检查OBS连接"
        } else {
            "启动自检完成"
        }
    }

    pub fn has_warning(self) -> (r: bool)
        ensures
            r == self.warns(),
    {
        matches!(self.local, StartupCheck::Warning(_)) || matches!(
            self.room,
            StartupCheck::Warning(_)
        )
    }

    pub fn obs_requires_password(self) -> (r: bool)
        ensures
            r == self.asks_for_password(),
    {
        match self.obs {
            StartupCheck::Warning(message) => text::contains(message, "/obs config password"),
            _ => false,
        }
    }
}

/// What a result of the checks is shown as.
pub open spec fn local_check(loaded: Option<bool>) -> StartupCheck {
    match loaded {
        Some(true) => StartupCheck::Passed("已读取"),
        Some(false) => StartupCheck::Passed("已恢复"),
        None => StartupCheck::Warning("读取失败 · 可重试"),
    }
}

/// The check of the local session: `empty` says whether a session that was read holds nothing.
pub fn local_result(empty: Option<bool>) -> (r: StartupUpdate)
    ensures
        r == StartupUpdate::Local(local_check(empty)),
{
    match empty {
        Some(true) => StartupUpdate::Local(StartupCheck::Passed("已读取")),
        Some(false) => StartupUpdate::Local(StartupCheck::Passed("已恢复")),
        None => StartupUpdate::Local(StartupCheck::Warning("读取失败 · 可重试")),
    }
}

pub open spec fn account_check(signed_in: Option<bool>) -> StartupCheck {
    match signed_in {
        Some(true) => StartupCheck::Passed("已登录"),
        Some(false) => StartupCheck::Passed("未登录 · 监看模式"),
        None => StartupCheck::Warning("检查失败 · 可重试"),
    }
}

/// The check of the account: whether someone is signed in, or nothing where it failed.
pub fn account_result(signed_in: Option<bool>) -> (r: StartupUpdate)
    ensures
        r == StartupUpdate::Account(account_check(signed_in)),
{
    match signed_in {
        Some(true) => StartupUpdate::Account(StartupCheck::Passed("已登录")),
        Some(false) => StartupUpdate::Account(StartupCheck::Passed("未登录 · 监看模式")),
        None => StartupUpdate::Account(StartupCheck::Warning("检查失败 · 可重试")),
    }
}

/// The check of the room.
pub fn room_result(reached: bool) -> (r: StartupUpdate)
    ensures
        r == StartupUpdate::Room(
            if reached {
                StartupCheck::Passed("房间可访问")
            } else {
                StartupCheck::Warning("读取失败 · 可重试")
            },
        ),
{
    if reached {
        StartupUpdate::Room(StartupCheck::Passed("房间可访问"))
    } else {
        StartupUpdate::Room(StartupCheck::Warning("读取失败 · 可重试"))
    }
}

/// How asking the broadcasting software ended.
#[derive(Debug)]
pub enum ObsAnswer {
    Connected,
    Failed(String),
    TimedOut,
}

pub open spec fn obs_check(answer: ObsAnswer) -> StartupCheck {
    match answer {
        ObsAnswer::Connected => StartupCheck::Passed("已连接"),
        ObsAnswer::Failed(error) => if text::occurs_in("/obs config password"@, error@) {
            StartupCheck::Warning("需要密码 · /obs config password")
        } else {
            StartupCheck::Warning("连接失败 · 进入后重试")
        },
        ObsAnswer::TimedOut => StartupCheck::Warning("连接超时 · 进入后重试"),
    }
}

/// The check of the broadcasting software.
pub fn obs_result(answer: &ObsAnswer) -> (r: StartupCheck)
    ensures
        r == obs_check(*answer),
{
    match answer {
        ObsAnswer::Connected => StartupCheck::Passed("已连接"),
        ObsAnswer::Failed(error) => if text::contains(error.as_str(), "/obs config password") {
            StartupCheck::Warning("需要密码 · /obs config password")
        } else {
            StartupCheck::Warning("连接失败 · 进入后重试")
        },
        ObsAnswer::TimedOut => StartupCheck::Warning("连接超时 · 进入后重试"),
    }
}

/// Whether the session may begin.
pub enum StartupGate {
    Checking,
    Ready,
    Blocked,
    EnteringObsPassword(EditorInput),
    Skipped,
}

impl StartupGate {
    pub open spec fn finishes(self) -> bool {
        self is Ready || self is Skipped
    }

    pub fn can_finish(&self) -> (r: bool)
        ensures
            r == self.finishes(),
    {
        matches!(self, StartupGate::Ready | StartupGate::Skipped)
    }
}

/// What is known of the checks, and what the user was asked.
pub struct Startup {
    pub view: StartupView,
    pub gate: StartupGate,
    pub data_ready: bool,
    pub session_ready: bool,
    pub obs_done: bool,
    /// Whether the assistant is to be resumed, once that is decided.
    pub resume: Option<bool>,
}

/// What is to be done about a key.
#[derive(Debug)]
pub enum StartupAction {
    Nothing,
    Quit,
    /// All checks begin anew.
    Retry,
    /// The password is to be saved.
    SavePassword(String),
}

/// What a key makes of the password that is being typed.
pub open spec fn password_typed(text: Seq<char>, position: nat, key: KeyEvent) -> (Seq<char>, nat) {
    match key.code {
        KeyCode::Enter => if text.len() > 0 {
            (Seq::empty(), 0)
        } else {
            (text, position)
        },
        KeyCode::Backspace => input::edited(text, position, input::Edit::DeleteBefore),
        KeyCode::Char(c) => if !key.modifiers.control {
            (input::inserted(text, position, seq![c]), position + 1)
        } else if c == 'u' {
            (Seq::empty(), 0)
        } else {
            (text, position)
        },
        _ => (text, position),
    }
}

/// What a key does while the checks of the beginning are on the screen.
pub open spec fn key_taken(
    before: Startup,
    after: Startup,
    key: KeyEvent,
    r: StartupAction,
) -> bool {
    &&& r is Quit == key.is_interrupt()
    &&& r is Retry == (!key.is_interrupt() && before.gate is Blocked && key.code
        == KeyCode::Enter && !before.view.asks_for_password())
    &&& r is SavePassword == (!key.is_interrupt() && before.gate is EnteringObsPassword
        && key.code == KeyCode::Enter && before.gate->EnteringObsPassword_0.text().len()
        > 0)
    &&& r is SavePassword ==> r->SavePassword_0@
        == before.gate->EnteringObsPassword_0.text()
    &&& r is Quit ==> after == before
    &&& r is Retry ==> after == (Startup {
        view: first_view(),
        gate: StartupGate::Checking,
        data_ready: false,
        session_ready: false,
        obs_done: false,
        ..before
    })
    &&& !(r is Retry) ==> after == (Startup { gate: after.gate, ..before })
    &&& r is Nothing && before.gate is Blocked ==> {
        if key.code == KeyCode::Char('s') || key.code == KeyCode::Char('S') {
            after.gate is Skipped
        } else if key.code == KeyCode::Enter {
            &&& after.gate is EnteringObsPassword
            &&& after.gate->EnteringObsPassword_0.text().len() == 0
        } else {
            after.gate == before.gate
        }
    }
    &&& r is Nothing && before.gate is EnteringObsPassword && key.code == KeyCode::Esc
        ==> after.gate is Blocked
    &&& before.gate is EnteringObsPassword && key.code != KeyCode::Esc && !key.is_interrupt()
        ==> {
        let line = before.gate->EnteringObsPassword_0;
        let typed = after.gate->EnteringObsPassword_0;
        &&& after.gate is EnteringObsPassword
        &&& (typed.text(), typed.position()) == password_typed(line.text(), line.position(), key)
    }
    &&& !(before.gate is Blocked) && !(before.gate is EnteringObsPassword) ==> after.gate
        == before.gate
}

impl Startup {
    pub open spec fn wf(self) -> bool {
        self.gate is EnteringObsPassword ==> self.gate->EnteringObsPassword_0.wf()
    }

    pub open spec fn checks_ready(self) -> bool {
        self.data_ready && self.session_ready
    }

    /// The way in once the first answers are there.
    pub open spec fn opened(self) -> StartupGate {
        if self.checks_ready() && self.gate is Checking {
            if self.view.warns() {
                StartupGate::Blocked
            } else {
                StartupGate::Ready
            }
        } else {
            self.gate
        }
    }

    /// The beginning of the checks. A session that does not resume the assistant is decided.
    pub fn new(resume_on_start: bool) -> (r: Self)
        ensures
            r.wf(),
            r == (Startup {
                view: first_view(),
                gate: StartupGate::Checking,
                data_ready: false,
                session_ready: false,
                obs_done: false,
                resume: if resume_on_start {
                    None
                } else {
                    Some(false)
                },
            }),
    {
        Startup {
            view: StartupView::new(),
            gate: StartupGate::Checking,
            data_ready: false,
            session_ready: false,
            obs_done: false,
            resume: if resume_on_start {
                None
            } else {
                Some(false)
            },
        }
    }

    /// Whether the session begins now. First the way in is settled, from the first answers; then it is
    /// settled whether the assistant resumes: it does where sending was automatic and is permitted
    /// for this room and account.
    pub fn settle(&mut self, automatic: bool, permitted: bool) -> (r: bool)
        requires
            old(self).wf(),
        ensures
            final(self).wf(),
            r == (old(self).checks_ready() && old(self).opened().finishes()),
            *final(self) == (Startup {
                gate: old(self).opened(),
                resume: if r && old(self).resume is None {
                    Some(automatic && permitted)
                } else {
                    old(self).resume
                },
                ..*old(self)
            }),
    {
        let checks_ready: bool = self.data_ready && self.session_ready;
        if checks_ready && matches!(self.gate, StartupGate::Checking) {
            if self.view.has_warning() {
                self.gate = StartupGate::Blocked;
            } else {
                self.gate = StartupGate::Ready;
            }
        }
        if checks_ready && self.gate.can_finish() {
            if self.resume.is_none() {
                self.resume = Some(automatic && permitted);
            }
            true
        } else {
            false
        }
    }

    /// All checks begin anew.
    pub fn restart(&mut self)
        ensures
            final(self).wf(),
            *final(self) == (Startup {
                view: first_view(),
                gate: StartupGate::Checking,
                data_ready: false,
                session_ready: false,
                obs_done: false,
                resume: old(self).resume,
            }),
    {
        self.view = StartupView::new();
        self.data_ready = false;
        self.session_ready = false;
        self.obs_done = false;
        self.gate = StartupGate::Checking;
    }

    /// A key while the checks run. A blocked start can be skipped or tried again, and asks for a
    /// password where one is missing; nothing else but the interrupt has an effect.
    pub fn handle_key(&mut self, key: KeyEvent) -> (r: StartupAction)
        requires
            old(self).wf(),
        ensures
            final(self).wf(),
            key_taken(*old(self), *final(self), key, r),
    {
        if key.interrupts() {
            return StartupAction::Quit;
        }
        let blocked: bool = matches!(self.gate, StartupGate::Blocked);
        if blocked {
            if key.code == KeyCode::Char('s') || key.code == KeyCode::Char('S') {
                self.gate = StartupGate::Skipped;
            } else if key.code == KeyCode::Enter {
                if self.view.obs_requires_password() {
                    self.gate = StartupGate::EnteringObsPassword(EditorInput::new());
                } else {
                    self.restart();
                    return StartupAction::Retry;
                }
            }
            return StartupAction::Nothing;
        }
        let entering: bool = matches!(self.gate, StartupGate::EnteringObsPassword(_));
        if entering && key.code == KeyCode::Esc {
            self.gate = StartupGate::Blocked;
            return StartupAction::Nothing;
        }
        if let StartupGate::EnteringObsPassword(field) = &mut self.gate {
            match key.code {
                KeyCode::Enter => {
                    if !field.is_empty() {
                        return StartupAction::SavePassword(field.take());
                    }
                },
                KeyCode::Backspace => {
                    field.delete_before_cursor();
                },
                KeyCode::Char(c) => {
                    if key.modifiers.control {
                        if c == 'u' {
                            field.clear();
                        }
                    } else {
                        let mut typed: String = String::new();
                        typed.push(c);
                        proof {
                            assert(typed@ =~= seq![c]);
                        }
                        field.insert_text(typed.as_str());
                    }
                },
                _ => {},
            }
        }
        StartupAction::Nothing
    }

    /// Pasted text goes into the password that is being typed, unless there is too much of it.
    pub fn handle_paste(&mut self, clip: &str)
        requires
            old(self).wf(),
        ensures
            final(self).wf(),
            *final(self) == (Startup { gate: final(self).gate, ..*old(self) }),
            !(old(self).gate is EnteringObsPassword && clip.spec_bytes().len() <= 4096) ==> final(self).gate == old(self).gate,
            old(self).gate is EnteringObsPassword && clip.spec_bytes().len() <= 4096 ==> {
                let before = old(self).gate->EnteringObsPassword_0;
                let after = final(self).gate->EnteringObsPassword_0;
                &&& final(self).gate is EnteringObsPassword
                &&& after.text() == input::inserted(
                    before.text(),
                    before.position(),
                    input::pasted(clip@, false),
                )
                &&& after.position() == before.position() + input::pasted(clip@, false).len()
            },
    {
        if text::byte_len(clip) > 4096 {
            return;
        }
        if let StartupGate::EnteringObsPassword(field) = &mut self.gate {
            field.insert_paste(clip, false);
        }
    }

    /// What saving the password led to: the check of the broadcasting software runs again, or the
    /// start stays blocked.
    pub fn password_saved(&mut self, saved: bool)
        requires
            old(self).wf(),
        ensures
            final(self).wf(),
            *final(self) == (Startup {
                view: StartupView {
                    obs: if saved {
                        StartupCheck::Running
                    } else {
                        StartupCheck::Warning("密码保存失败 · 检查文件权限")
                    },
                    ..old(self).view
                },
                gate: if saved {
                    StartupGate::Checking
                } else {
                    StartupGate::Blocked
                },
                obs_done: if saved {
                    false
                } else {
                    old(self).obs_done
                },
                ..*old(self)
            }),
    {
        if saved {
            self.view.obs = StartupCheck::Running;
            self.obs_done = false;
            self.gate = StartupGate::Checking;
        } else {
            self.view.obs = StartupCheck::Warning("密码保存失败 · 检查文件权限");
            self.gate = StartupGate::Blocked;
        }
    }
}

/// The optional checks never stand in the way of a session: whatever became of the account, of
/// the metrics and of the broadcasting software, a start whose local data and room are there
/// begins.
pub proof fn law_optional_checks_do_not_block(start: Startup)
    requires
        start.checks_ready(),
        start.gate is Checking,
        !(start.view.local is Warning),
        !(start.view.room is Warning),
    ensures
        start.opened().finishes(),
{
}

/// A start with a warning waits for the user, who may skip it.
pub proof fn law_a_warning_waits_for_the_user(start: Startup)
    requires
        start.checks_ready(),
        start.gate is Checking,
        start.view.warns(),
    ensures
        start.opened() is Blocked,
        !start.opened().finishes(),
        StartupGate::Skipped.finishes(),
{
}

/// The resumption of the assistant that a session begins with.
pub struct Resume {
    /// The assistant is to be resumed.
    pub pending: bool,
    /// The sending identity was confirmed, or need not be.
    pub verified: bool,
    /// Sending was automatic, so the identity is being confirmed in the background.
    pub automatic: bool,
    /// The confirmation is under way.
    pub checking: bool,
}

/// What a turn of the main loop does about the resumption.
#[derive(Clone, Copy, Debug, PartialEq, Eq, Structural)]
pub enum ResumeStep {
    Wait,
    /// The confirmation is no longer of use.
    Abort,
    /// The permission is restored and the assistant started.
    Restore,
}

impl Resume {
    pub open spec fn step_for(self, history_loading: bool, available: bool) -> ResumeStep {
        if !self.pending && self.checking {
            ResumeStep::Abort
        } else if self.pending && self.verified && !history_loading && available {
            ResumeStep::Restore
        } else {
            ResumeStep::Wait
        }
    }

    pub fn new(decision: Option<bool>) -> (r: Self)
        ensures
            r.pending == (decision == Some(true)),
            r.automatic == r.pending,
            r.checking == r.pending,
            r.verified == !r.pending,
    {
        let pending: bool = match decision {
            Some(true) => true,
            _ => false,
        };
        Resume { pending, verified: !pending, automatic: pending, checking: pending }
    }

    /// One turn of the main loop. The assistant is started once: the turn that says so takes the
    /// resumption off.
    pub fn step(&mut self, history_loading: bool, available: bool) -> (r: ResumeStep)
        ensures
            r == old(self).step_for(history_loading, available),
            *final(self) == (Resume {
                pending: old(self).pending && r != ResumeStep::Restore,
                checking: old(self).checking && r != ResumeStep::Abort,
                ..*old(self)
            }),
    {
        if !self.pending && self.checking {
            self.checking = false;
            ResumeStep::Abort
        } else if self.pending && self.verified && !history_loading && available {
            self.pending = false;
            ResumeStep::Restore
        } else {
            ResumeStep::Wait
        }
    }

    /// The confirmation of the sending identity has ended. One that failed takes the resumption
    /// off; the answer says so.
    pub fn checked(&mut self, confirmed: bool) -> (r: bool)
        ensures
            r == !confirmed,
            *final(self) == (Resume {
                checking: false,
                verified: old(self).verified || confirmed,
                pending: old(self).pending && confirmed,
                ..*old(self)
            }),
    {
        self.checking = false;
        if confirmed {
            self.verified = true;
            false
        } else {
            self.pending = false;
            true
        }
    }

    /// Whether a press takes the resumption off: any key where the identity is not being
    /// confirmed, otherwise the escape key and the key that pauses the assistant.
    pub fn cancelled_by(&mut self, key: KeyEvent) -> (r: bool)
        ensures
            r == (old(self).pending && key.kind is Press && (!old(self).automatic || key.code
                == KeyCode::Esc || key.is_pause())),
            *final(self) == (Resume {
                pending: old(self).pending && !r,
                checking: old(self).checking && !r,
                ..*old(self)
            }),
    {
        let press: bool = matches!(key.kind, crate::keys::KeyKind::Press);
        if self.pending && press && (!self.automatic || key.code == KeyCode::Esc || key.pauses()) {
            self.pending = false;
            self.checking = false;
            true
        } else {
            false
        }
    }
}

/// An automatic resumption never starts the assistant before the sending identity was confirmed.
pub proof fn law_nothing_resumes_unverified(
    resume: Resume,
    history_loading: bool,
    available: bool,
)
    requires
        !resume.verified,
    ensures
        resume.step_for(history_loading, available) != ResumeStep::Restore,
{
}

/// A check that failed warns; one that went through, whatever it found, does not.
pub proof fn law_only_failed_checks_warn(loaded: Option<bool>, signed_in: Option<bool>, answer: ObsAnswer)
    ensures
        local_check(loaded) is Warning <==> loaded is None,
        account_check(signed_in) is Warning <==> signed_in is None,
        obs_check(answer) is Warning <==> !(answer is Connected),
        local_check(loaded) is Warning || local_check(loaded) is Passed,
        account_check(signed_in) is Warning || account_check(signed_in) is Passed,
        obs_check(answer) is Warning || obs_check(answer) is Passed,
{
}

/// News of one check changes that check and no other.
pub proof fn law_news_of_a_check_changes_it_alone(view: StartupView, update: StartupUpdate)
    ensures
        update matches StartupUpdate::Local(status) ==> view.updated(update) == (StartupView {
            local: status,
            ..view
        }),
        update matches StartupUpdate::Account(status) ==> view.updated(update) == (StartupView {
            account: status,
            ..view
        }),
        update matches StartupUpdate::Room(status) ==> view.updated(update) == (StartupView {
            room: status,
            ..view
        }),
        view.updated(update).obs == view.obs,
{
}

/// The way in opens exactly where all that is needed has been read and nothing needed warns; until
/// then it stays as it is, and a warning stops it.
pub proof fn law_the_way_in_opens_when_all_is_read(start: Startup)
    requires
        start.gate is Checking,
    ensures
        start.opened() is Ready <==> start.data_ready && start.session_ready && !(start.view.local
            is Warning) && !(start.view.room is Warning),
        start.opened() is Blocked <==> start.data_ready && start.session_ready && (start.view.local
            is Warning || start.view.room is Warning),
        !(start.data_ready && start.session_ready) ==> start.opened() is Checking,
{
}

/// Sending is taken up again exactly where that is pending, the identity was verified, the history
/// is read and the broadcast is available; a check that is no longer wanted is dropped.
pub proof fn law_what_resuming_takes(resume: Resume, history_loading: bool, available: bool)
    ensures
        resume.step_for(history_loading, available) == ResumeStep::Restore <==> resume.pending
            && resume.verified && !history_loading && available,
        resume.step_for(history_loading, available) == ResumeStep::Abort <==> !resume.pending
            && resume.checking,
{
}

/// A password is typed character by character at its cursor, control and `u` clears it, and no
/// other key with control held types anything.
pub proof fn law_passwords_are_typed(text: Seq<char>, position: nat, key: KeyEvent, c: char)
    requires
        position <= text.len(),
        key.code == KeyCode::Char(c),
    ensures
        !key.modifiers.control ==> password_typed(text, position, key).0 == text.insert(
            position as int,
            c,
        ) && password_typed(text, position, key).1 == position + 1,
        key.modifiers.control && c == 'u' ==> password_typed(text, position, key).0.len() == 0,
        key.modifiers.control && c != 'u' ==> password_typed(text, position, key) == (
            text,
            position,
        ),
{
    assert(input::inserted(text, position, seq![c]) =~= text.insert(position as int, c));
}

/// What is told of the beginning is the first check that is still going on.
pub proof fn law_the_first_running_check_is_told(view: StartupView)
    ensures
        view.local is Running ==> view.label() == "恢复本地会话"@,
        !(view.local is Running) && view.account is Running ==> view.label() == "检查登录状态"@,
        view.label() == "启动自检完成"@ ==> !(view.local is Running) && !(view.account is Running)
            && !(view.room is Running) && !(view.obs is Running),
{
    reveal_strlit("恢复本地会话");
    reveal_strlit("检查登录状态");
    reveal_strlit("检查直播间　");
    reveal_strlit("后台检查OBS连接");
    reveal_strlit("启动自检完成");
    assert("恢复本地会话"@[0] == '恢' && "检查登录状态"@[0] == '检' && "检查直播间　"@[0] == '检'
        && "后台检查OBS连接"@[0] == '后' && "启动自检完成"@[0] == '启');
}

/// Where the beginning is blocked, `s` passes over it and enter asks for the password that is
/// missing or tries again; while a password is typed enter saves what was typed and escape goes
/// back; control and `c` always leave.
pub proof fn law_a_blocked_beginning_asks_what_to_do(
    before: Startup,
    after: Startup,
    key: KeyEvent,
    r: StartupAction,
)
    requires
        key_taken(before, after, key, r),
    ensures
        r is Quit <==> key.modifiers.control && key.code == KeyCode::Char('c'),
        before.gate is Blocked && (key.code == KeyCode::Char('s') || key.code == KeyCode::Char('S'))
            ==> after.gate is Skipped && after.gate.finishes(),
        before.gate is Blocked && key.code == KeyCode::Enter && before.view.asks_for_password()
            ==> after.gate is EnteringObsPassword && after.gate->EnteringObsPassword_0.text().len()
            == 0 && r is Nothing,
        before.gate is Blocked && key.code == KeyCode::Enter && !before.view.asks_for_password()
            ==> r is Retry && after.gate is Checking && !after.data_ready && !after.session_ready,
        before.gate is EnteringObsPassword && key.code == KeyCode::Esc ==> after.gate is Blocked,
        r is SavePassword ==> before.gate is EnteringObsPassword && r->SavePassword_0@
            == before.gate->EnteringObsPassword_0.text() && r->SavePassword_0@.len() > 0,
        before.gate is Checking ==> after.gate is Checking,
{
}

} // verus!
