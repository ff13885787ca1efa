//! The life of the program: how it begins, what time does, and the commands of a session that
//! reaches nothing outside.
use vstd::prelude::*;
use vstd::string::*;

use crate::activity;
use crate::activity::ActivityNotices;
use crate::app;
use crate::app::TerminalApp;
use crate::automation::{Automation, ProfileState};
use crate::delivery::Deliveries;
use crate::desk;
use crate::desk::{Desk, StopFlow};
use crate::domain::{AccountStatus, DanmuSession, RoomSnapshot};
use crate::events;
use crate::feed::Feed;
use crate::fields;
use crate::keys::{KeyCode, KeyEvent, KeyKind};
use crate::notice::{BoardView, NoticeBoard, NoticeLevel};
use crate::review::Review;
use crate::stream::{LiveStatus, Stream};
use crate::text;

verus! {

/// What a session begins with.
pub struct Beginning {
    pub session: DanmuSession,
    pub automation: Automation,
    pub account_status: AccountStatus,
    pub room: Option<RoomSnapshot>,
    pub layout_chat: bool,
    pub show_name: bool,
    pub show_time: bool,
}

/// What failed at the beginning of a session, and is told.
pub struct BeginningFailures {
    /// The history could not be loaded in the background.
    pub history: bool,
    pub session: Option<String>,
    pub room: Option<String>,
    /// The permission to send automatically was not restored.
    pub automatic: Option<String>,
}

/// The board at the beginning: how to go on, or what failed. What concerns the permission to send
/// is told last.
pub open spec fn beginning_told(board: BoardView, failed: BeginningFailures, now: u64) -> BoardView {
    let first = if failed.history {
        board.noticed(
            "历史后台加载未启动；输入 /diag 查看"@,
            NoticeLevel::Error,
            now,
        )
    } else if failed.session is Some {
        board.noticed("本地会话恢复失败："@ + failed.session->0@, NoticeLevel::Error, now)
    } else if failed.room is Some {
        board.noticed("房间数据读取失败："@ + failed.room->0@, NoticeLevel::Error, now)
    } else {
        board
    };
    match failed.automatic {
        Some(warning) => first.noticed(warning@, NoticeLevel::Error, now),
        None => first,
    }
}

/// What is typed in a session that reaches nothing outside, besides the common commands.
#[derive(Debug)]
pub enum LocalCommand {
    /// A viewer's message: the name as it is shown, who it is by, and the text.
    Event { name: String, author: String, content: String },
    EventUsage,
    /// How messages end from now on.
    Outcome(u8),
    OutcomeUsage,
    NewSession,
    EndSession,
    /// Nothing of these: the key goes its usual way.
    Other,
}

pub ghost enum LocalView {
    Event { name: Seq<char>, author: Seq<char>, content: Seq<char> },
    EventUsage,
    Outcome(u8),
    OutcomeUsage,
    NewSession,
    EndSession,
    Other,
}

impl View for LocalCommand {
    type V = LocalView;

    open spec fn view(&self) -> LocalView {
        match *self {
            LocalCommand::Event { name, author, content } => LocalView::Event {
                name: name@,
                author: author@,
                content: content@,
            },
            LocalCommand::EventUsage => LocalView::EventUsage,
            LocalCommand::Outcome(mode) => LocalView::Outcome(mode),
            LocalCommand::OutcomeUsage => LocalView::OutcomeUsage,
            LocalCommand::NewSession => LocalView::NewSession,
            LocalCommand::EndSession => LocalView::EndSession,
            LocalCommand::Other => LocalView::Other,
        }
    }
}

/// The place of the first space.
pub open spec fn first_space(text: Seq<char>) -> int
    decreases text.len(),
{
    if text.len() == 0 || text[0] == ' ' {
        0
    } else {
        1 + first_space(text.skip(1))
    }
}

/// A line of a session that reaches nothing outside.
pub open spec fn local_parsed(line: Seq<char>) -> LocalView {
    if text::has_prefix(line, "/event "@) {
        let rest = line.skip("/event "@.len() as int);
        let at = first_space(rest);
        if at < rest.len() {
            LocalView::Event {
                name: events::sanitized(rest.take(at)),
                author: rest.take(at),
                content: events::sanitized(rest.skip(at + 1)),
            }
        } else {
            LocalView::EventUsage
        }
    } else if text::has_prefix(line, "/local "@) {
        let mode = line.skip("/local "@.len() as int);
        if mode == "confirmed"@ {
            LocalView::Outcome(0)
        } else if mode == "uncertain"@ {
            LocalView::Outcome(1)
        } else if mode == "rejected"@ {
            LocalView::Outcome(2)
        } else {
            LocalView::OutcomeUsage
        }
    } else if line == "/session new"@ {
        LocalView::NewSession
    } else if line == "/session end"@ {
        LocalView::EndSession
    } else {
        LocalView::Other
    }
}

proof fn lemma_first_space(line: Seq<char>, at: int)
    requires
        0 <= at <= line.len(),
        forall|k: int| 0 <= k < at ==> #[trigger] line[k] != ' ',
        at < line.len() ==> line[at] == ' ',
    ensures
        first_space(line) == at,
    decreases line.len(),
{
    if line.len() > 0 && at > 0 {
        assert(line[0] != ' ');
        assert forall|k: int| 0 <= k < at - 1 implies #[trigger] line.skip(1)[k] != ' ' by {
            assert(line.skip(1)[k] == line[k + 1]);
        }
        if at < line.len() {
            assert(line.skip(1)[at - 1] == line[at]);
        }
        lemma_first_space(line.skip(1), at - 1);
    }
}

fn split_space(line: &str) -> (r: Option<(String, String)>)
    ensures
        match r {
            Some((head, tail)) => {
                &&& first_space(line@) < line@.len()
                &&& head@ == line@.take(first_space(line@))
                &&& tail@ == line@.skip(first_space(line@) + 1)
            },
            None => first_space(line@) >= line@.len(),
        },
{
    let chars: Vec<char> = text::chars_of(line);
    let mut at: usize = 0;
    while at < chars.len() && chars[at] != ' '
        invariant
            at <= chars@.len(),
            chars@ == line@,
            forall|k: int| 0 <= k < at ==> #[trigger] line@[k] != ' ',
        decreases chars@.len() - at,
    {
        at = at + 1;
    }
    proof {
        lemma_first_space(line@, at as int);
    }
    if at < chars.len() {
        let head: String = text::string_of(&chars, 0, at);
        let tail: String = text::string_of(&chars, at + 1, chars.len());
        proof {
            assert(head@ =~= line@.take(at as int));
            assert(tail@ =~= line@.skip(at + 1));
        }
        Some((head, tail))
    } else {
        None
    }
}

/// What a line means in a session that reaches nothing outside.
pub fn local_command(line: &str) -> (r: LocalCommand)
    ensures
        r@ == local_parsed(line@),
{
    if let Some(rest) = text::strip_prefix(line, "/event ") {
        return match split_space(rest.as_str()) {
            Some((name, content)) => LocalCommand::Event {
                name: events::sanitize_input(name.clone()),
                author: name,
                content: events::sanitize_input(content),
            },
            None => LocalCommand::EventUsage,
        };
    }
    if let Some(mode) = text::strip_prefix(line, "/local ") {
        return if text::same(mode.as_str(), "confirmed") {
            LocalCommand::Outcome(0)
        } else if text::same(mode.as_str(), "uncertain") {
            LocalCommand::Outcome(1)
        } else if text::same(mode.as_str(), "rejected") {
            LocalCommand::Outcome(2)
        } else {
            LocalCommand::OutcomeUsage
        };
    }
    if text::same(line, "/session new") {
        LocalCommand::NewSession
    } else if text::same(line, "/session end") {
        LocalCommand::EndSession
    } else {
        LocalCommand::Other
    }
}

/// Enter reaches the local commands: nothing is open, selected or searched.
pub open spec fn enters_locally(app: TerminalApp, key: KeyEvent) -> bool {
    key.kind == KeyKind::Press && key.code == KeyCode::Enter && key.modifiers.none()
        && !app.stream.feed.selection_active && app.desk.search is None && app.review.edit is None
        && app.panel is None && app.desk.help is None && app.desk.stop_flow is None
        && !app.desk.secret_mode && app.desk.login_qr is None
}

/// The largest recording that is replayed, in bytes.
pub const REPLAY_LIMIT: u64 = 1048576;

/// A recording is small enough to be replayed.
pub fn replay_fits(bytes: u64) -> (r: bool)
    ensures
        r == (bytes <= 1048576),
{
    bytes <= REPLAY_LIMIT
}

/// What is said of sending at the beginning of a session, once it is decided whether the assistant
/// goes on.
pub open spec fn resume_text(pending: bool, resume_on_start: bool) -> Option<Seq<char>> {
    if pending {
        Some("已记住自动发送；后台核对发送身份，Esc 可取消本次恢复"@)
    } else if resume_on_start {
        Some("AI已暂停 · /ai start 继续"@)
    } else {
        None
    }
}

/// The board of a session that has just begun.
pub open spec fn greeting(now: u64) -> BoardView {
    BoardView {
        notice: "/ · Commands     Tab · Layout"@,
        notice_deadline: Some((now + 6000) as u64),
        notice_is_delivery: false,
        notice_level: NoticeLevel::Info,
        delivery_status: crate::notice::DeliveryStatus::Idle,
        delivery_status_deadline: None,
    }
}

/// An assistant that was taken up again runs, or neither runs nor sends, and this is told.
pub open spec fn resume_told(
    before: TerminalApp,
    after: TerminalApp,
    started: Result<(), String>,
    now: u64,
) -> bool {
    match started {
        Ok(_) => app::only_said(
            TerminalApp {
                automation: Automation {
                    resume_pending: false,
                    running: true,
                    ..before.automation
                },
                ..before
            },
            after,
            "身份核验通过，AI正在启动；/pause 暂停"@,
            NoticeLevel::Info,
            now,
        ),
        Err(error) => app::only_said(
            TerminalApp {
                automation: Automation {
                    resume_pending: false,
                    running: false,
                    sending: false,
                    ..before.automation
                },
                ..before
            },
            after,
            "助手未启用："@ + error@ + "；请从 /ai 检查后重试"@,
            NoticeLevel::Error,
            now,
        ),
    }
}

/// The other layout is in force once it is saved.
pub open spec fn layout_told(
    before: TerminalApp,
    after: TerminalApp,
    saved: Result<(), String>,
    now: u64,
) -> bool {
    match saved {
        Ok(_) => app::only_said(
            TerminalApp { layout_chat: !before.layout_chat, ..before },
            after,
            if before.layout_chat {
                "已切换为信息流布局"@
            } else {
                "已切换为聊天布局"@
            },
            NoticeLevel::Success,
            now,
        ),
        Err(error) => app::only_said(
            before,
            after,
            "配置未保存："@ + error@,
            NoticeLevel::Error,
            now,
        ),
    }
}

/// What the passing of time does: a countdown that is over stops the stream, notices pass, and a
/// reader who left is led back to the live end.
pub open spec fn passed(
    before: TerminalApp,
    after: TerminalApp,
    idle_seconds: u32,
    r: bool,
    now: u64,
) -> bool {
    &&& r == desk::stop_due(before.desk.stop_flow, now)
    &&& after == (TerminalApp {
        stream: Stream {
            feed: after.stream.feed,
            board: after.stream.board,
            activity: after.stream.activity,
            ..before.stream
        },
        desk: Desk {
            stop_flow: if r {
                Some(StopFlow::Stopping)
            } else {
                before.desk.stop_flow
            },
            last_user_activity: if crate::app_input::holds_place(before) {
                now
            } else {
                before.desk.last_user_activity
            },
            ..before.desk
        },
        ..before
    })
    &&& after.stream.activity@ == before.stream.activity@.advanced(now)
    &&& ({
        let ticked = TerminalApp {
            desk: Desk { stop_flow: after.desk.stop_flow, ..before.desk },
            ..before
        };
        let expired = before.stream.board@.expired(now);
        if !crate::app_input::holds_place(ticked) && crate::app_input::left_alone(
            ticked,
            idle_seconds,
            now,
        ) {
            &&& after.stream.feed == before.stream.feed.live()
            &&& after.stream.board@ == expired.noticed(
                "FOLLOW"@,
                NoticeLevel::Info,
                now,
            )
        } else {
            &&& after.stream.feed == before.stream.feed
            &&& after.stream.board@ == expired
        }
    })
}

impl TerminalApp {
    /// The program at the beginning of a session.
    pub fn new(beginning: Beginning, now: u64, wall: i64) -> (r: Self)
        requires
            beginning.session.wf(),
            now <= activity::LAST_INSTANT,
        ensures
            r.wf(),
            r.stream.feed.session == beginning.session,
            r.stream.feed == r.stream.feed.live(),
            r.stream.deliveries.pending@.len() == 0,
            r.stream.deliveries.confirmed@.len() == 0,
            r.stream.board@ == greeting(now),
            r.stream.status.room == beginning.room,
            r.stream.status.room_updated_at == if beginning.room is Some {
                Some(wall)
            } else {
                None
            },
            r.stream.status.connection@ == "连接中"@,
            r.stream.status.last_realtime_at is None && r.stream.status.last_live_danmu_at is None,
            r.stream.status.watched is None && r.stream.status.likes is None
                && r.stream.status.online_viewers is None,
            r.stream.status.obs is None && r.stream.status.obs_error is None
                && r.stream.status.obs_checked_at is None,
            r.stream.status.microphone == crate::meter::MicrophoneState::Unknown,
            r.stream.activity@ == (activity::ActivityView {
                current: None,
                next_enter: activity::empty_batch(),
                next_like: activity::empty_batch(),
            }),
            r.profile.room_id@.len() == 0 && r.profile.user_id@.len() == 0 && r.profile.value is None
                && r.profile.error is None && r.profile.checked_at is None && !r.profile.pending,
            r.desk.input.text().len() == 0,
            r.desk.slash_selection == 0 && r.desk.secret_draft is None,
            r.desk.last_user_activity == now,
            r.desk.stop_flow is None && r.desk.help is None && r.desk.login_qr is None
                && r.desk.search is None && !r.desk.secret_mode && !r.desk.quit_requested,
            r.review.frame is None && r.review.selected is None && r.review.edit is None,
            r.panel is None,
            r.main_login is None,
            r.settings_operation is None,
            r.automation == beginning.automation,
            r.account_status == beginning.account_status,
            r.layout_chat == beginning.layout_chat,
            r.show_name == beginning.show_name,
            r.show_time == beginning.show_time,
    {
        let mut status: LiveStatus = LiveStatus::new();
        status.room_updated_at = if beginning.room.is_some() {
            Some(wall)
        } else {
            None
        };
        status.room = beginning.room;
        let mut desk: Desk = Desk::new();
        desk.last_user_activity = now;
        let board: NoticeBoard = NoticeBoard {
            notice: "/ · Commands     Tab · Layout".to_owned(),
            notice_deadline: Some(now + 6000),
            notice_is_delivery: false,
            notice_level: NoticeLevel::Info,
            delivery_status: crate::notice::DeliveryStatus::Idle,
            delivery_status_deadline: None,
        };
        TerminalApp {
            stream: Stream {
                feed: Feed::new(beginning.session),
                deliveries: Deliveries::new(),
                board,
                activity: ActivityNotices::new(),
                status,
            },
            desk,
            review: Review::new(),
            panel: None,
            main_login: None,
            account_status: beginning.account_status,
            automation: beginning.automation,
            profile: ProfileState::new(),
            settings_operation: None,
            layout_chat: beginning.layout_chat,
            show_name: beginning.show_name,
            show_time: beginning.show_time,
        }
    }

    /// Tells what failed at the beginning.
    pub fn tell_beginning(&mut self, failed: BeginningFailures, now: u64)
        requires
            old(self).wf(),
            now <= activity::LAST_INSTANT,
        ensures
            final(self).wf(),
            crate::app_events::only_status(
                *old(self),
                *final(self),
                beginning_told(old(self).stream.board@, failed, now),
            ),
    {
        if failed.history {
            self.say("历史后台加载未启动；输入 /diag 查看", NoticeLevel::Error, now);
        } else if let Some(error) = failed.session {
            self.say(
                text::add2("本地会话恢复失败：", error.as_str()).as_str(),
                NoticeLevel::Error,
                now,
            );
        } else if let Some(error) = failed.room {
            self.say(
                text::add2("房间数据读取失败：", error.as_str()).as_str(),
                NoticeLevel::Error,
                now,
            );
        }
        if let Some(warning) = failed.automatic {
            self.say(warning.as_str(), NoticeLevel::Error, now);
        }
    }

    /// Decides whether the assistant goes on in this session, and tells so.
    pub fn begin_resume(&mut self, resumes: bool, now: u64)
        requires
            old(self).wf(),
            now <= activity::LAST_INSTANT,
        ensures
            final(self).wf(),
            ({
                let decided = TerminalApp {
                    automation: Automation { resume_pending: resumes, ..old(self).automation },
                    ..*old(self)
                };
                match resume_text(resumes, old(self).automation.resume_on_start) {
                    Some(said) => app::only_said(
                        decided,
                        *final(self),
                        said,
                        NoticeLevel::Info,
                        now,
                    ),
                    None => *final(self) == decided,
                }
            }),
    {
        self.automation.resume_pending = resumes;
        if resumes {
            self.say(
                "已记住自动发送；后台核对发送身份，Esc 可取消本次恢复",
                NoticeLevel::Info,
                now,
            );
        } else if self.automation.resume_on_start {
            self.say("AI已暂停 · /ai start 继续", NoticeLevel::Info, now);
        }
    }

    /// The assistant was started again, or was not. Where it was not, it is stopped.
    pub fn resume_started(&mut self, started: Result<(), String>, now: u64)
        requires
            old(self).wf(),
            now <= activity::LAST_INSTANT,
        ensures
            final(self).wf(),
            resume_told(*old(self), *final(self), started, now),
    {
        self.automation.resume_pending = false;
        match started {
            Ok(_) => {
                self.automation.running = true;
                self.say(
                    "身份核验通过，AI正在启动；/pause 暂停",
                    NoticeLevel::Info,
                    now,
                );
            },
            Err(error) => {
                self.automation.running = false;
                self.automation.sending = false;
                self.say(
                    text::add3(
                        "助手未启用：",
                        error.as_str(),
                        "；请从 /ai 检查后重试",
                    ).as_str(),
                    NoticeLevel::Error,
                    now,
                );
            },
        }
    }

    /// The identity that replies are sent as could not be confirmed: the assistant stays off.
    pub fn resume_refused(&mut self, reason: &str, now: u64)
        requires
            old(self).wf(),
            now <= activity::LAST_INSTANT,
        ensures
            final(self).wf(),
            app::only_said(
                TerminalApp {
                    automation: Automation { resume_pending: false, ..old(self).automation },
                    ..*old(self)
                },
                *final(self),
                "自动发送未恢复："@ + reason@ + "；请从 /ai 检查身份"@,
                NoticeLevel::Error,
                now,
            ),
    {
        self.automation.resume_pending = false;
        self.say(
            text::add3("自动发送未恢复：", reason, "；请从 /ai 检查身份").as_str(),
            NoticeLevel::Error,
            now,
        );
    }

    /// The user has called off that the assistant goes on.
    pub fn resume_cancelled(&mut self, now: u64)
        requires
            old(self).wf(),
            now <= activity::LAST_INSTANT,
        ensures
            final(self).wf(),
            app::only_said(
                TerminalApp {
                    automation: Automation { resume_pending: false, ..old(self).automation },
                    ..*old(self)
                },
                *final(self),
                "已取消本次待启用；助手保持关闭"@,
                NoticeLevel::Info,
                now,
            ),
    {
        self.automation.resume_pending = false;
        self.say("已取消本次待启用；助手保持关闭", NoticeLevel::Info, now);
    }

    /// Time passes: what has passed is taken off the screen, a countdown goes on, and the newest
    /// messages are followed again after a while. The answer says that the broadcast is to be
    /// stopped now.
    pub fn tick_at(&mut self, idle_seconds: u32, now: u64) -> (r: bool)
        requires
            old(self).wf(),
            now <= activity::LAST_INSTANT,
        ensures
            final(self).wf(),
            passed(*old(self), *final(self), idle_seconds, r, now),
    {
        self.stream.expire_notice_at(now);
        let due: bool = self.desk.advance_stop_at(now);
        self.advance_history_at(idle_seconds, now);
        due
    }

    /// The other layout was saved and is shown, or was not saved.
    pub fn layout_toggled(&mut self, saved: Result<(), String>, now: u64)
        requires
            old(self).wf(),
            now <= activity::LAST_INSTANT,
        ensures
            final(self).wf(),
            layout_told(*old(self), *final(self), saved, now),
    {
        match saved {
            Ok(_) => {
                self.layout_chat = !self.layout_chat;
                if self.layout_chat {
                    self.say("已切换为聊天布局", NoticeLevel::Success, now);
                } else {
                    self.say("已切换为信息流布局", NoticeLevel::Success, now);
                }
            },
            Err(error) => self.say(
                text::add2("配置未保存：", error.as_str()).as_str(),
                NoticeLevel::Error,
                now,
            ),
        }
    }

    /// Whether Enter reaches the local commands.
    pub fn takes_local_enter(&self, key: KeyEvent) -> (r: bool)
        ensures
            r == enters_locally(*self, key),
    {
        matches!(key.kind, KeyKind::Press) && matches!(key.code, KeyCode::Enter)
            && key.modifiers.is_empty() && !self.stream.feed.selection_active
            && self.desk.search.is_none() && self.review.edit.is_none() && self.panel.is_none()
            && self.desk.help.is_none() && self.desk.stop_flow.is_none() && !self.desk.secret_mode
            && self.desk.login_qr.is_none()
    }
}

/// The settings of the broadcasting software as the user answers for them.
#[derive(Debug)]
pub struct ObsAnswers {
    pub host: String,
    pub port: String,
    pub scene: String,
    pub microphone: String,
}

/// A text as it is answered: without spaces around it, and nothing keeps what was there.
pub open spec fn answered(before: Seq<char>, answer: Seq<char>) -> Seq<char> {
    if text::trimmed(answer).len() > 0 {
        text::trimmed(answer)
    } else {
        before
    }
}

/// The port that an answer gives, if it gives one.
pub open spec fn port_of(answer: Seq<char>) -> Option<u16> {
    match fields::seconds_of(text::trimmed(answer)) {
        Some(port) => if port <= 65535 {
            Some(port as u16)
        } else {
            None
        },
        None => None,
    }
}

fn answer_text(before: String, answer: &str) -> (r: String)
    ensures
        r@ == answered(before@, answer@),
{
    let given: String = text::trim(answer);
    if given.as_str().is_empty() {
        before
    } else {
        given
    }
}

/// The settings of the broadcasting software that are asked for one after another.
#[derive(Debug)]
pub struct ObsSetup {
    pub host: String,
    pub port: u16,
    pub scene: String,
    pub microphone: String,
}

/// Takes the answers over into the settings. An answer that is empty, and a port that is none,
/// change nothing.
pub fn configure_obs(before: ObsSetup, answers: &ObsAnswers) -> (r: ObsSetup)
    ensures
        r.host@ == answered(before.host@, answers.host@),
        r.port == match port_of(answers.port@) {
            Some(port) => port,
            None => before.port,
        },
        r.scene@ == answered(before.scene@, answers.scene@),
        r.microphone@ == answered(before.microphone@, answers.microphone@),
{
    let port: u16 = match fields::parse_seconds(text::trim(answers.port.as_str()).as_str()) {
        Some(port) => if port <= 65535 {
            port as u16
        } else {
            before.port
        },
        None => before.port,
    };
    ObsSetup {
        host: answer_text(before.host, answers.host.as_str()),
        port,
        scene: answer_text(before.scene, answers.scene.as_str()),
        microphone: answer_text(before.microphone, answers.microphone.as_str()),
    }
}

/// In a local session, a line that begins with `/event`, a name and a text tells that text under
/// that name.
pub proof fn law_local_events_are_told_under_their_name(name: Seq<char>, said: Seq<char>)
    requires
        forall|i: int| 0 <= i < name.len() ==> name[i] != ' ',
    ensures
        local_parsed("/event "@ + name + seq![' '] + said) == (LocalView::Event {
            name: events::sanitized(name),
            author: name,
            content: events::sanitized(said),
        }),
        local_parsed("/event "@ + name) == LocalView::EventUsage,
{
    let head = "/event "@;
    let rest = name + seq![' '] + said;
    let line = head + name + seq![' '] + said;
    assert(line =~= head + rest);
    assert(line.subrange(0, head.len() as int) =~= head);
    assert(line.skip(head.len() as int) =~= rest);
    lemma_space_behind(name, seq![' '] + said);
    assert(rest =~= name + (seq![' '] + said));
    assert((seq![' '] + said)[0] == ' ');
    assert(rest.take(name.len() as int) =~= name);
    assert(rest.skip(name.len() as int + 1) =~= said);
    let short = head + name;
    assert(short.subrange(0, head.len() as int) =~= head);
    assert(short.skip(head.len() as int) =~= name);
    lemma_space_behind(name, Seq::empty());
    assert(name + Seq::<char>::empty() =~= name);
}

proof fn lemma_space_behind(word: Seq<char>, rest: Seq<char>)
    requires
        forall|i: int| 0 <= i < word.len() ==> word[i] != ' ',
        rest.len() == 0 || rest[0] == ' ',
    ensures
        first_space(word + rest) == word.len(),
    decreases word.len(),
{
    if word.len() == 0 {
        assert(word + rest =~= rest);
    } else {
        assert((word + rest)[0] == word[0]);
        assert((word + rest).skip(1) =~= word.skip(1) + rest);
        lemma_space_behind(word.skip(1), rest);
    }
}

/// An answer is taken without the white space around it, and an empty one keeps what there was.
pub proof fn law_an_empty_answer_keeps_what_there_was(
    before: Seq<char>,
    blank: Seq<char>,
    answer: Seq<char>,
)
    requires
        text::is_blank(blank),
        answer.len() > 0,
        !text::is_whitespace(answer[0]),
        !text::is_whitespace(answer.last()),
    ensures
        answered(before, blank) == before,
        answered(before, blank + answer + blank) == answer,
{
    let none = Seq::<char>::empty();
    assert(text::is_blank(none));
    text::law_trimming_finds_the_text_between(blank, none, none);
    assert(blank + none + none =~= blank);
    text::law_trimming_finds_the_text_between(blank, answer, blank);
}

/// A port is a decimal number up to 65535.
pub proof fn law_ports_are_numbers_in_range(answer: Seq<char>, digits: Seq<char>)
    requires
        text::trimmed(answer) == digits,
        digits.len() > 0,
        digits[0] != '+',
    ensures
        port_of(answer) is Some <==> (forall|i: int|
            0 <= i < digits.len() ==> '0' <= #[trigger] digits[i] <= '9') && text::number_read(
            digits,
        ) <= 65535,
        port_of(answer) is Some ==> port_of(answer)->0 == text::number_read(digits),
{
    fields::law_seconds_are_what_the_digits_say(digits, digits);
}

/// The greeting shows for six seconds.
pub proof fn law_the_greeting_passes(began: u64, now: u64)
    requires
        began <= crate::activity::LAST_INSTANT,
    ensures
        greeting(began).expired(now).notice.len() == 0 <==> now >= began + 6000,
{
    reveal_strlit("/ · Commands     Tab · Layout");
}

/// As time passes, the stream is stopped only by a countdown whose end has come, a notice passes at
/// its time, and the line, the replies and what is on its way stay as they are.
pub proof fn law_time_stops_only_a_countdown(
    before: TerminalApp,
    after: TerminalApp,
    idle_seconds: u32,
    r: bool,
    now: u64,
)
    requires
        passed(before, after, idle_seconds, r, now),
    ensures
        r <==> before.desk.stop_flow is Some && before.desk.stop_flow->0 is Countdown
            && before.desk.stop_flow->0->deadline <= now,
        r ==> after.desk.stop_flow == Some(StopFlow::Stopping),
        !r ==> after.desk.stop_flow == before.desk.stop_flow,
        after.desk.input == before.desk.input,
        after.review == before.review,
        after.panel == before.panel,
        after.automation == before.automation,
        after.stream.deliveries == before.stream.deliveries,
        after.stream.feed.session == before.stream.feed.session,
        before.stream.board@.notice_deadline is None && !before.stream.feed.browses()
            ==> after.stream.board@.notice == before.stream.board@.notice,
{
}

/// An assistant that could not be taken up again neither runs nor sends; one that was runs, and
/// sends no more than before.
pub proof fn law_resuming_runs_or_stops(
    before: TerminalApp,
    after: TerminalApp,
    started: Result<(), String>,
    now: u64,
)
    requires
        resume_told(before, after, started, now),
    ensures
        after.automation.running <==> started is Ok,
        started is Err ==> !after.automation.sending,
        started is Ok ==> after.automation.sending == before.automation.sending,
        !after.automation.resume_pending,
        after.stream.board@.notice_level == (if started is Ok {
            NoticeLevel::Info
        } else {
            NoticeLevel::Error
        }),
{
}

/// The layout changes to the other one exactly where that was saved, and nothing else does.
pub proof fn law_the_layout_changes_when_saved(
    before: TerminalApp,
    after: TerminalApp,
    saved: Result<(), String>,
    now: u64,
)
    requires
        layout_told(before, after, saved, now),
    ensures
        after.layout_chat != before.layout_chat <==> saved is Ok,
        after.show_name == before.show_name,
        after.show_time == before.show_time,
        after.desk == before.desk,
{
}

} // verus!
