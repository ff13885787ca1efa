//! What the program does about news from outside: outcomes of saving and sending, sign-ins, and
//! what the room and the broadcasting software report.
use vstd::prelude::*;
use vstd::string::*;

use crate::accounts;
use crate::accounts::{AccountEvent, AssistantAccounts, Credential, Problem};
use crate::activity;
use crate::app;
use crate::app::TerminalApp;
use crate::automation::{Automation, PublicProfile, RoomContext};
use crate::delivery;
use crate::delivery::PendingDelivery;
use crate::desk::Desk;
use crate::domain::{AccountStatus, DanmuEvent, RoomSnapshot};
use crate::meter::MicrophoneState;
use crate::notice::{BoardView, DeliveryStatus, NoticeLevel};
use crate::panel::{ObsConfiguration, ObsFacts, Panel};
use crate::panel_edits;
use crate::review::Review;
use crate::stream;
use crate::stream::{Ingested, LiveStatus, Stream};
use crate::text;

verus! {

/// A setting that was saved outside, and what is said of it.
pub struct SavedSetting {
    pub message: String,
    pub level: NoticeLevel,
    pub obs_configuration: Option<ObsConfiguration>,
}

/// News from outside.
pub enum UiEvent {
    SettingSaved { token: u64, result: Result<SavedSetting, String> },
    /// A message that was sent in a local session, under a new name.
    LocalEcho { id: String, content: String },
    DeliveryAccepted,
    DeliveryNotice(String),
    ObsStopDone(Result<(), String>),
    AssistantAccount(AccountEvent),
    Notice { message: String, level: NoticeLevel },
    LoginQr { token: u64, lines: Vec<String> },
    LoginDone { token: u64, status: AccountStatus },
    LoginFailed { token: u64, message: String },
    ObsStatus(Result<(ObsFacts, MicrophoneState), String>),
    RoomSnapshot(RoomSnapshot),
    BroadcasterProfile {
        room_id: String,
        user_id: String,
        profile: Result<Option<PublicProfile>, String>,
    },
    OnlineViewers(Result<Option<u64>, String>),
    Likes(Result<Option<u64>, String>),
    DeliveryStarted(PendingDelivery),
    /// What came of noting down how a reply was sent.
    AssistantDelivery(Result<(), String>),
    DeliveryHistory(Vec<DanmuEvent>),
    DeliveryEchoMissing(Vec<String>),
    DeliveryExpired(String),
    DeliveryTimedOut(Vec<String>),
    DeliveryRejected { content: String, message: String },
    DeliveryCompleted,
}

/// What news asks of the rest of the program.
pub enum UiAction {
    Nothing,
    /// The assistant is to be stopped.
    Pause,
    /// The assistant is stopped and its permission is to be taken off the disk. The text is said
    /// once that was tried.
    Forget(String),
    /// The scanned account is to be made the assistant's own.
    Confirm,
    /// The new sign-in of the main account is to be stored.
    Persist(AccountStatus),
    /// The assistant is to be told of the room.
    Tell(Option<RoomContext>),
    /// Messages were taken in.
    Took(Vec<Ingested>),
}

/// What is said of an operation that has ended.
pub fn operation_notice(result: Result<String, String>) -> (r: UiEvent)
    ensures
        r == (match result {
            Ok(message) => UiEvent::Notice { message, level: NoticeLevel::Success },
            Err(message) => UiEvent::Notice { message, level: NoticeLevel::Error },
        }),
{
    match result {
        Ok(message) => UiEvent::Notice { message, level: NoticeLevel::Success },
        Err(message) => UiEvent::Notice { message, level: NoticeLevel::Error },
    }
}

/// The program with the assistant stopped and without its permission to send. What was shown for a
/// decision is taken off the screen.
pub open spec fn stopped(app: TerminalApp) -> TerminalApp {
    TerminalApp {
        automation: Automation { running: false, sending: false, ..app.automation },
        review: Review { frame: None, ..app.review },
        ..app
    }
}

/// The program with another status of a delivery on its board.
pub open spec fn only_status(
    before: TerminalApp,
    after: TerminalApp,
    board: BoardView,
) -> bool {
    &&& after == (TerminalApp { stream: after.stream, ..before })
    &&& after.stream == (Stream { board: after.stream.board, ..before.stream })
    &&& after.stream.board@ == board
}

/// The program without a sign-in that waits.
pub open spec fn without_login(app: TerminalApp) -> TerminalApp {
    TerminalApp { main_login: None, desk: Desk { login_qr: None, ..app.desk }, ..app }
}

/// What is said once a setting was saved outside, or was not.
pub open spec fn saved_text(result: Result<SavedSetting, String>) -> Seq<char> {
    match result {
        Ok(saved) => saved.message@,
        Err(error) => "保存失败："@ + error@,
    }
}

pub open spec fn saved_level(result: Result<SavedSetting, String>) -> NoticeLevel {
    match result {
        Ok(saved) => saved.level,
        Err(_) => NoticeLevel::Error,
    }
}

/// The panel after a save that was started outside.
pub open spec fn panel_saved(
    before: Option<Panel>,
    after: Option<Panel>,
    token: u64,
    result: Result<SavedSetting, String>,
) -> bool {
    match before {
        None => after is None,
        Some(panel) => after matches Some(shown) && panel_edits::save_finished(
            panel,
            shown,
            token,
            match result {
                Ok(saved) => Ok(saved.obs_configuration),
                Err(error) => Err(error),
            },
        ),
    }
}

/// The program after news of a sign-in of the assistant's account.
pub open spec fn account_told(
    before: TerminalApp,
    after: TerminalApp,
    event: AccountEvent,
    action: UiAction,
    now: u64,
) -> bool {
    exists|said: Option<Seq<char>>, accounts: AssistantAccounts|
        {
            let informed = TerminalApp {
                automation: Automation { accounts, ..before.automation },
                ..before
            };
            &&& #[trigger] before.automation.accounts.informed(accounts, event, said)
            &&& match said {
                None => action is Nothing && after == informed,
                Some(message) => if event is Unavailable {
                    &&& action matches UiAction::Forget(text) && text@ == message
                    &&& after == stopped(
                        TerminalApp {
                            automation: Automation {
                                resume_pending: false,
                                ..informed.automation
                            },
                            ..informed
                        },
                    )
                } else {
                    &&& action == if event is Ready {
                        UiAction::Confirm
                    } else {
                        UiAction::Nothing
                    }
                    &&& app::only_said(
                        TerminalApp {
                            desk: Desk { login_qr: after.desk.login_qr, ..before.desk },
                            ..informed
                        },
                        after,
                        message,
                        NoticeLevel::Info,
                        now,
                    )
                    &&& match accounts.qr {
                        None => after.desk.login_qr is None,
                        Some(lines) => after.desk.login_qr matches Some(shown) && text::views(
                            shown@,
                        ) == text::views(lines@),
                    }
                },
            }
        }
}

/// The news only says something, or changes what is said of a delivery.
pub open spec fn of_board(event: UiEvent) -> bool {
    match event {
        UiEvent::DeliveryAccepted
        | UiEvent::DeliveryNotice(_)
        | UiEvent::Notice { .. }
        | UiEvent::DeliveryEchoMissing(_)
        | UiEvent::DeliveryRejected { .. }
        | UiEvent::DeliveryCompleted => true,
        _ => false,
    }
}

/// The board after such news.
pub open spec fn board_after(stream: Stream, event: UiEvent, now: u64) -> BoardView {
    let board = stream.board@;
    match event {
        UiEvent::DeliveryAccepted => board.with_status(DeliveryStatus::AwaitingEcho, now),
        UiEvent::DeliveryNotice(message) => board.delivery_noticed(message@, now),
        UiEvent::Notice { message, level } => board.noticed(message@, level, now),
        UiEvent::DeliveryEchoMissing(ids) => if stream::awaits_any(
            stream.deliveries.pending@,
            text::views(ids@),
        ) {
            board.with_status(DeliveryStatus::Uncertain, now).delivery_noticed(
                "未确认送达；不自动重发，详情见助手"@,
                now,
            )
        } else {
            board
        },
        UiEvent::DeliveryRejected { content, message } => board.with_status(
            DeliveryStatus::Failed,
            now,
        ).delivery_noticed(message@ + "；内容：「"@ + content@ + "」"@, now),
        UiEvent::DeliveryCompleted => board.completed(stream.deliveries.pending@.len() > 0, now),
        _ => board,
    }
}

/// The news changes which messages are shown or on their way.
pub open spec fn of_queue(event: UiEvent) -> bool {
    match event {
        UiEvent::LocalEcho { .. }
        | UiEvent::DeliveryHistory(_)
        | UiEvent::DeliveryStarted(_)
        | UiEvent::DeliveryExpired(_)
        | UiEvent::DeliveryTimedOut(_) => true,
        _ => false,
    }
}

/// The stream after such news.
pub open spec fn queue_told(
    before: Stream,
    after: Stream,
    event: UiEvent,
    action: UiAction,
    now: u64,
    wall: i64,
) -> bool {
    let board = before.board@;
    let pending = before.deliveries.pending@;
    match event {
        UiEvent::LocalEcho { id, content } => {
            action matches UiAction::Took(done) && done@.len() == 1 && stream::locally_echoed(
                before,
                after,
                id@,
                content@,
                done@[0],
                now,
                wall,
            )
        },
        UiEvent::DeliveryHistory(events) => {
            action matches UiAction::Took(done) && stream::history_taken(
                before,
                after,
                events@,
                done@,
                now,
                wall,
            )
        },
        UiEvent::DeliveryStarted(delivery) => {
            &&& action is Nothing
            &&& after == (Stream {
                deliveries: after.deliveries,
                board: after.board,
                ..before
            })
            &&& after.deliveries.pending@ == delivery::last_of(pending, 31).push(delivery)
            &&& after.deliveries.confirmed == before.deliveries.confirmed
            &&& after.board@ == board.with_status(DeliveryStatus::Sending, now)
        },
        UiEvent::DeliveryExpired(id) => {
            &&& action is Nothing
            &&& after == (Stream { deliveries: after.deliveries, ..before })
            &&& after.deliveries.confirmed == before.deliveries.confirmed
            &&& after.deliveries.pending@ == stream::without(pending, id@)
        },
        UiEvent::DeliveryTimedOut(ids) => {
            &&& action is Nothing
            &&& after == (Stream {
                deliveries: after.deliveries,
                board: after.board,
                ..before
            })
            &&& after.deliveries.confirmed == before.deliveries.confirmed
            &&& after.deliveries.pending@ == stream::without_all(pending, text::views(ids@))
            &&& after.board@ == board.with_status(
                DeliveryStatus::Uncertain,
                now,
            ).delivery_noticed(
                "平台接受或回流未确认；本次剩余部分取消，可继续输入新消息，不自动重发。"@
                    + text::joined(stream::quoted(pending, text::views(ids@)), " ｜ "@),
                now,
            )
        },
        _ => false,
    }
}

/// The news is of the room's numbers or of the broadcasting software.
pub open spec fn of_status(event: UiEvent) -> bool {
    match event {
        UiEvent::ObsStatus(_) | UiEvent::OnlineViewers(_) | UiEvent::Likes(_) => true,
        _ => false,
    }
}

/// The stream after such news.
pub open spec fn status_told(
    before: Stream,
    after: Stream,
    event: UiEvent,
    now: u64,
    wall: i64,
) -> bool {
    match event {
        UiEvent::ObsStatus(result) => after == stream::with_obs(before, result, wall),
        UiEvent::OnlineViewers(result) => stream::viewers_known(before, after, result, now),
        UiEvent::Likes(result) => stream::likes_known(before, after, result, now),
        _ => false,
    }
}

/// The program after news of a sign-in of the main account.
pub open spec fn login_told(
    before: TerminalApp,
    after: TerminalApp,
    event: UiEvent,
    action: UiAction,
    now: u64,
) -> bool {
    match event {
        UiEvent::LoginQr { token, lines } => {
            &&& action is Nothing
            &&& if before.main_login == Some(token) {
                app::only_said(
                    TerminalApp { desk: Desk { login_qr: Some(lines), ..before.desk }, ..before },
                    after,
                    "请使用主账号扫码登录"@,
                    NoticeLevel::Progress,
                    now,
                )
            } else {
                after == before
            }
        },
        UiEvent::LoginDone { token, status } => if before.main_login == Some(token) {
            action == UiAction::Persist(status) && after == without_login(before)
        } else {
            action is Nothing && after == before
        },
        UiEvent::LoginFailed { token, message } => {
            &&& action is Nothing
            &&& if before.main_login == Some(token) {
                app::only_said(
                    without_login(before),
                    after,
                    message@,
                    NoticeLevel::Error,
                    now,
                )
            } else {
                after == before
            }
        },
        _ => false,
    }
}

/// The program after news of the room or of its broadcaster.
pub open spec fn room_told(
    before: TerminalApp,
    after: TerminalApp,
    event: UiEvent,
    action: UiAction,
    now: u64,
    wall: i64,
) -> bool {
    match event {
        UiEvent::RoomSnapshot(room) => {
            &&& after == (TerminalApp {
                profile: after.profile,
                stream: Stream {
                    status: LiveStatus {
                        room: Some(room),
                        room_updated_at: Some(wall),
                        ..before.stream.status
                    },
                    ..before.stream
                },
                ..before
            })
            &&& action matches UiAction::Tell(context) && before.profile.synced(
                after.profile,
                Some(room),
                context,
            )
        },
        UiEvent::BroadcasterProfile { room_id, user_id, profile } => {
            let room = before.stream.status.room;
            &&& after == (TerminalApp { profile: after.profile, ..before })
            &&& if room matches Some(room) && room.room_id@ == room_id@ && room.broadcaster_id@
                == user_id@ {
                action matches UiAction::Tell(context) && before.profile.replied(
                    profile,
                    now,
                ).synced(after.profile, room, context)
            } else {
                action is Nothing && after == before
            }
        },
        _ => false,
    }
}

/// The program after an operation has ended.
pub open spec fn operation_told(
    before: TerminalApp,
    after: TerminalApp,
    event: UiEvent,
    action: UiAction,
    now: u64,
) -> bool {
    match event {
        UiEvent::SettingSaved { token, result } => {
            &&& action is Nothing
            &&& if before.settings_operation != Some(token) {
                after == before
            } else {
                &&& app::only_said(
                    TerminalApp { settings_operation: None, panel: after.panel, ..before },
                    after,
                    saved_text(result),
                    saved_level(result),
                    now,
                )
                &&& panel_saved(before.panel, after.panel, token, result)
            }
        },
        UiEvent::ObsStopDone(result) => action is Nothing && app::only_said(
            TerminalApp { desk: Desk { stop_flow: None, ..before.desk }, ..before },
            after,
            match result {
                Ok(_) => "OBS 已停止推流"@,
                Err(error) => error@,
            },
            if result is Ok {
                NoticeLevel::Success
            } else {
                NoticeLevel::Error
            },
            now,
        ),
        UiEvent::AssistantDelivery(archived) => match archived {
            Ok(_) => action is Nothing && after == before,
            Err(error) => action is Pause && app::only_said(
                TerminalApp {
                    automation: Automation { running: false, sending: false, ..before.automation },
                    ..before
                },
                after,
                "发送结果归档失败，助手已暂停；真实发送结果不变且不重发："@ + error@,
                NoticeLevel::Error,
                now,
            ),
        },
        _ => false,
    }
}

/// What the program does about news.
pub open spec fn told(
    before: TerminalApp,
    after: TerminalApp,
    event: UiEvent,
    action: UiAction,
    now: u64,
    wall: i64,
) -> bool {
    let streamed = TerminalApp { stream: after.stream, ..before };
    if of_board(event) {
        action is Nothing && only_status(before, after, board_after(before.stream, event, now))
    } else if of_queue(event) {
        after == streamed && queue_told(before.stream, after.stream, event, action, now, wall)
    } else if of_status(event) {
        &&& action is Nothing
        &&& after == streamed
        &&& status_told(before.stream, after.stream, event, now, wall)
    } else {
        match event {
            UiEvent::AssistantAccount(event) => account_told(before, after, event, action, now),
            UiEvent::LoginQr { .. }
            | UiEvent::LoginDone { .. }
            | UiEvent::LoginFailed { .. } => login_told(before, after, event, action, now),
            UiEvent::RoomSnapshot(_) | UiEvent::BroadcasterProfile { .. } => room_told(
                before,
                after,
                event,
                action,
                now,
                wall,
            ),
            _ => operation_told(before, after, event, action, now),
        }
    }
}

fn is_of_board(event: &UiEvent) -> (r: bool)
    ensures
        r == of_board(*event),
{
    match event {
        UiEvent::DeliveryAccepted
        | UiEvent::DeliveryNotice(_)
        | UiEvent::Notice { .. }
        | UiEvent::DeliveryEchoMissing(_)
        | UiEvent::DeliveryRejected { .. }
        | UiEvent::DeliveryCompleted => true,
        _ => false,
    }
}

fn is_of_queue(event: &UiEvent) -> (r: bool)
    ensures
        r == of_queue(*event),
{
    match event {
        UiEvent::LocalEcho { .. }
        | UiEvent::DeliveryHistory(_)
        | UiEvent::DeliveryStarted(_)
        | UiEvent::DeliveryExpired(_)
        | UiEvent::DeliveryTimedOut(_) => true,
        _ => false,
    }
}

fn is_of_status(event: &UiEvent) -> (r: bool)
    ensures
        r == of_status(*event),
{
    matches!(event, UiEvent::ObsStatus(_) | UiEvent::OnlineViewers(_) | UiEvent::Likes(_))
}

impl Stream {
    fn board_event(&mut self, event: UiEvent, now: u64)
        requires
            old(self).wf(),
            of_board(event),
            now <= activity::LAST_INSTANT,
        ensures
            final(self).wf(),
            *final(self) == (Stream { board: final(self).board, ..*old(self) }),
            final(self).board@ == board_after(*old(self), event, now),
    {
        match event {
            UiEvent::DeliveryAccepted => self.board.set_delivery_status_at(
                DeliveryStatus::AwaitingEcho,
                now,
            ),
            UiEvent::DeliveryNotice(message) => self.board.set_delivery_notice(message, now),
            UiEvent::Notice { message, level } => self.board.set_notice_at(message, level, now),
            UiEvent::DeliveryEchoMissing(ids) => self.delivery_echo_missing(&ids, now),
            UiEvent::DeliveryRejected { content, message } => self.delivery_rejected(
                content.as_str(),
                message.as_str(),
                now,
            ),
            UiEvent::DeliveryCompleted => self.delivery_completed(now),
            _ => {},
        }
    }

    fn queue_event(&mut self, event: UiEvent, now: u64, wall: i64) -> (r: UiAction)
        requires
            old(self).wf(),
            of_queue(event),
            now <= activity::LAST_INSTANT,
        ensures
            final(self).wf(),
            queue_told(*old(self), *final(self), event, r, now, wall),
    {
        match event {
            UiEvent::LocalEcho { id, content } => {
                let done: Ingested = self.local_echo(id.as_str(), content.as_str(), now, wall);
                let mut all: Vec<Ingested> = Vec::new();
                all.push(done);
                UiAction::Took(all)
            },
            UiEvent::DeliveryHistory(events) => UiAction::Took(
                self.delivery_history(events, now, wall),
            ),
            UiEvent::DeliveryStarted(delivery) => {
                self.delivery_started(delivery, now);
                UiAction::Nothing
            },
            UiEvent::DeliveryExpired(id) => {
                self.delivery_expired(id.as_str());
                UiAction::Nothing
            },
            UiEvent::DeliveryTimedOut(ids) => {
                self.delivery_timed_out(&ids, now);
                UiAction::Nothing
            },
            _ => UiAction::Nothing,
        }
    }

    fn status_event(&mut self, event: UiEvent, now: u64, wall: i64)
        requires
            old(self).wf(),
            of_status(event),
            now <= activity::LAST_INSTANT,
        ensures
            final(self).wf(),
            status_told(*old(self), *final(self), event, now, wall),
    {
        match event {
            UiEvent::ObsStatus(result) => self.obs_reported(result, wall),
            UiEvent::OnlineViewers(result) => self.viewers_reported(result, now),
            UiEvent::Likes(result) => self.likes_reported(result, now),
            _ => {},
        }
    }
}

/// A main account that is saved takes the place of the one before and stops the assistant; one that
/// is not leaves everything.
pub open spec fn main_login_told(
    before: TerminalApp,
    after: TerminalApp,
    status: AccountStatus,
    persisted: Result<(), String>,
    forgotten: Result<(), String>,
    now: u64,
) -> bool {
    match persisted {
        Err(error) => app::only_said(
            before,
            after,
            "登录态保存失败，原账号保留："@ + error@,
            NoticeLevel::Error,
            now,
        ),
        Ok(_) => {
            let accounts = before.automation.accounts;
            let failed = accounts.keeps_grant(forgotten);
            app::only_said(
                stopped(
                    TerminalApp {
                        account_status: status,
                        automation: Automation {
                            accounts: accounts.with_new_main(forgotten),
                            ..before.automation
                        },
                        ..before
                    },
                ),
                after,
                if failed {
                    "主账号已登录，助手已停发；清除旧授权失败："@ + forgotten->Err_0@
                } else {
                    "主账号登录成功；助手仍暂停，未授权发送"@
                },
                if failed {
                    NoticeLevel::Error
                } else {
                    NoticeLevel::Success
                },
                now,
            )
        },
    }
}

impl TerminalApp {
    fn stop_assistant_sending(&mut self)
        requires
            old(self).wf(),
        ensures
            final(self).wf(),
            *final(self) == stopped(*old(self)),
    {
        self.automation.running = false;
        self.automation.sending = false;
        self.review.frame = None;
    }

    /// Gives up a sign-in of the main account that waits to be scanned.
    pub fn cancel_main_login(&mut self)
        requires
            old(self).wf(),
        ensures
            final(self).wf(),
            *final(self) == if old(self).main_login is Some {
                without_login(*old(self))
            } else {
                *old(self)
            },
    {
        if self.main_login.is_some() {
            self.main_login = None;
            self.desk.login_qr = None;
        }
    }

    /// Begins a sign-in of the main account. Until it is done, the assistant stands still and
    /// sends nothing.
    pub fn start_login(&mut self, token: u64)
        requires
            old(self).wf(),
        ensures
            final(self).wf(),
            *final(self) == stopped(
                TerminalApp {
                    main_login: Some(token),
                    automation: Automation {
                        accounts: old(self).automation.accounts.without_login(),
                        ..old(self).automation
                    },
                    ..without_login(*old(self))
                },
            ),
    {
        self.cancel_main_login();
        self.automation.accounts.cancel_login();
        self.stop_assistant_sending();
        self.desk.login_qr = None;
        self.main_login = Some(token);
    }

    fn finish_setting_save(&mut self, token: u64, result: Result<SavedSetting, String>, now: u64)
        requires
            old(self).wf(),
            now <= activity::LAST_INSTANT,
        ensures
            final(self).wf(),
            operation_told(
                *old(self),
                *final(self),
                UiEvent::SettingSaved { token, result },
                UiAction::Nothing,
                now,
            ),
    {
        let expected: bool = match self.settings_operation {
            Some(expected) => expected == token,
            None => false,
        };
        if !expected {
            return;
        }
        self.settings_operation = None;
        match result {
            Ok(saved) => {
                if let Some(panel) = &mut self.panel {
                    panel.finish_save(token, Ok(saved.obs_configuration));
                }
                self.stream.board.set_notice_at(saved.message, saved.level, now);
            },
            Err(error) => {
                if let Some(panel) = &mut self.panel {
                    panel.finish_save(token, Err(error.clone()));
                }
                self.stream.board.set_notice_at(
                    text::add2("保存失败：", error.as_str()),
                    NoticeLevel::Error,
                    now,
                );
            },
        }
    }

    fn account_event(&mut self, event: AccountEvent, now: u64) -> (r: UiAction)
        requires
            old(self).wf(),
            now <= activity::LAST_INSTANT,
        ensures
            final(self).wf(),
            account_told(*old(self), *final(self), event, r, now),
    {
        let ghost before = *self;
        let ready: bool = matches!(&event, AccountEvent::Ready { .. });
        let unavailable: bool = matches!(&event, AccountEvent::Unavailable { .. });
        let said: Option<String> = self.automation.accounts.apply_event(event);
        let ghost known = self.automation.accounts;
        proof {
            assert(before.automation.accounts.informed(known, event, text::opt_view(said)));
        }
        match said {
            None => UiAction::Nothing,
            Some(message) => {
                if unavailable {
                    self.automation.resume_pending = false;
                    self.stop_assistant_sending();
                    return UiAction::Forget(message);
                }
                self.desk.login_qr = match self.automation.accounts.qr_lines() {
                    Some(lines) => Some(text::copy_lines(lines)),
                    None => None,
                };
                self.stream.board.set_notice_at(message, NoticeLevel::Info, now);
                if ready {
                    UiAction::Confirm
                } else {
                    UiAction::Nothing
                }
            },
        }
    }

    fn login_event(&mut self, event: UiEvent, now: u64) -> (r: UiAction)
        requires
            old(self).wf(),
            event is LoginQr || event is LoginDone || event is LoginFailed,
            now <= activity::LAST_INSTANT,
        ensures
            final(self).wf(),
            login_told(*old(self), *final(self), event, r, now),
    {
        match event {
            UiEvent::LoginQr { token, lines } => {
                if self.awaits_login(token) {
                    self.desk.login_qr = Some(lines);
                    self.say("请使用主账号扫码登录", NoticeLevel::Progress, now);
                }
                UiAction::Nothing
            },
            UiEvent::LoginDone { token, status } => {
                if self.awaits_login(token) {
                    self.cancel_main_login();
                    UiAction::Persist(status)
                } else {
                    UiAction::Nothing
                }
            },
            UiEvent::LoginFailed { token, message } => {
                if self.awaits_login(token) {
                    self.cancel_main_login();
                    self.say(message.as_str(), NoticeLevel::Error, now);
                }
                UiAction::Nothing
            },
            _ => UiAction::Nothing,
        }
    }

    fn room_event(&mut self, event: UiEvent, now: u64, wall: i64) -> (r: UiAction)
        requires
            old(self).wf(),
            event is RoomSnapshot || event is BroadcasterProfile,
        ensures
            final(self).wf(),
            room_told(*old(self), *final(self), event, r, now, wall),
    {
        match event {
            UiEvent::RoomSnapshot(room) => {
                self.stream.room_reported(room, wall);
                UiAction::Tell(self.profile.sync_assistant_room(&self.stream.status.room))
            },
            UiEvent::BroadcasterProfile { room_id, user_id, profile } => {
                if self.profile.answered(
                    &self.stream.status.room,
                    room_id.as_str(),
                    user_id.as_str(),
                    profile,
                    now,
                ) {
                    UiAction::Tell(self.profile.sync_assistant_room(&self.stream.status.room))
                } else {
                    UiAction::Nothing
                }
            },
            _ => UiAction::Nothing,
        }
    }

    fn operation_event(&mut self, event: UiEvent, now: u64) -> (r: UiAction)
        requires
            old(self).wf(),
            event is SettingSaved || event is ObsStopDone || event is AssistantDelivery,
            now <= activity::LAST_INSTANT,
        ensures
            final(self).wf(),
            operation_told(*old(self), *final(self), event, r, now),
    {
        match event {
            UiEvent::SettingSaved { token, result } => {
                self.finish_setting_save(token, result, now);
                UiAction::Nothing
            },
            UiEvent::ObsStopDone(result) => {
                self.desk.stop_flow = None;
                match result {
                    Ok(_) => self.say("OBS 已停止推流", NoticeLevel::Success, now),
                    Err(error) => self.say(error.as_str(), NoticeLevel::Error, now),
                }
                UiAction::Nothing
            },
            UiEvent::AssistantDelivery(archived) => match archived {
                Ok(_) => UiAction::Nothing,
                Err(error) => {
                    self.automation.running = false;
                    self.automation.sending = false;
                    self.stream.board.set_notice_at(
                        text::add2(
                            "发送结果归档失败，助手已暂停；真实发送结果不变且不重发：",
                            error.as_str(),
                        ),
                        NoticeLevel::Error,
                        now,
                    );
                    UiAction::Pause
                },
            },
            _ => UiAction::Nothing,
        }
    }

    /// Takes news.
    pub fn handle_ui_event(&mut self, event: UiEvent, now: u64, wall: i64) -> (r: UiAction)
        requires
            old(self).wf(),
            now <= activity::LAST_INSTANT,
        ensures
            final(self).wf(),
            told(*old(self), *final(self), event, r, now, wall),
    {
        if is_of_board(&event) {
            self.stream.board_event(event, now);
            return UiAction::Nothing;
        }
        if is_of_queue(&event) {
            return self.stream.queue_event(event, now, wall);
        }
        if is_of_status(&event) {
            self.stream.status_event(event, now, wall);
            return UiAction::Nothing;
        }
        match event {
            UiEvent::AssistantAccount(event) => self.account_event(event, now),
            UiEvent::LoginQr { .. }
            | UiEvent::LoginDone { .. }
            | UiEvent::LoginFailed { .. } => self.login_event(event, now),
            UiEvent::RoomSnapshot(_) | UiEvent::BroadcasterProfile { .. } => self.room_event(
                event,
                now,
                wall,
            ),
            _ => self.operation_event(event, now),
        }
    }

    fn awaits_login(&self, token: u64) -> (r: bool)
        ensures
            r == (self.main_login == Some(token)),
    {
        match self.main_login {
            Some(expected) => expected == token,
            None => false,
        }
    }

    /// The assistant's account can no longer be used, and it was tried to take its permission off
    /// the disk. The text of the news is said, with what went wrong.
    pub fn account_unavailable(&mut self, message: String, saved: Result<(), String>, now: u64)
        requires
            old(self).wf(),
            now <= activity::LAST_INSTANT,
        ensures
            final(self).wf(),
            app::only_said(
                TerminalApp {
                    automation: Automation {
                        accounts: crate::automation::forgotten(
                            old(self).automation.accounts,
                            saved,
                        ),
                        ..old(self).automation
                    },
                    ..*old(self)
                },
                *final(self),
                if old(self).automation.accounts.keeps_grant(saved) {
                    message@ + "；清除记住的授权失败："@ + saved->Err_0@
                } else {
                    message@
                },
                NoticeLevel::Error,
                now,
            ),
    {
        let mut message: String = message;
        if let Err(problem) = self.automation.accounts.forget_automatic(saved) {
            message.append("；清除记住的授权失败：");
            message.append(problem.message().as_str());
        }
        self.stream.board.set_notice_at(message, NoticeLevel::Error, now);
    }

    /// Makes the scanned account the assistant's own. The answer holds the old credential, which
    /// is to be removed. Where anything failed the old account stays, and the board says why.
    pub fn independent_ready(
        &mut self,
        stored: &Result<AccountStatus, String>,
        id: String,
        persisted: Result<(), String>,
        saved: Result<(), String>,
        now: u64,
    ) -> (r: Option<Credential>)
        requires
            old(self).wf(),
            old(self).automation.accounts.wf(),
            now <= activity::LAST_INSTANT,
        ensures
            final(self).wf(),
            ({
                let accounts = old(self).automation.accounts;
                match accounts.unconfirmed(old(self).account_status, *stored, persisted, saved) {
                    None => {
                        &&& r == accounts.independent
                        &&& app::only_said(
                            stopped(
                                TerminalApp {
                                    automation: Automation {
                                        accounts: accounts.made_independent(id),
                                        ..old(self).automation
                                    },
                                    ..*old(self)
                                },
                            ),
                            *final(self),
                            "已启用 AI 发送账号："@ + accounts::identity_text(
                                accounts.scanned_status()->0,
                            ),
                            NoticeLevel::Success,
                            now,
                        )
                    },
                    Some(problem) => {
                        &&& r is None
                        &&& app::only_said(
                            *old(self),
                            *final(self),
                            problem,
                            NoticeLevel::Error,
                            now,
                        )
                    },
                }
            }),
    {
        match self.automation.accounts.complete_independent_ready(
            &self.account_status,
            stored,
            id,
            persisted,
            saved,
        ) {
            Ok((message, old_credential)) => {
                self.stop_assistant_sending();
                self.stream.board.set_notice_at(message, NoticeLevel::Success, now);
                old_credential
            },
            Err(problem) => {
                self.stream.board.set_notice_at(problem.message(), NoticeLevel::Error, now);
                None
            },
        }
    }

    /// Takes over a sign-in of the main account that was stored, or says that it was not. The new
    /// account permits nothing: the assistant is stopped, and its permission is gone. The answer
    /// says whether the account was taken over.
    pub fn main_login_saved(
        &mut self,
        status: AccountStatus,
        persisted: Result<(), String>,
        forgotten: Result<(), String>,
        now: u64,
    ) -> (r: bool)
        requires
            old(self).wf(),
            old(self).automation.accounts.wf(),
            now <= activity::LAST_INSTANT,
        ensures
            final(self).wf(),
            r == persisted is Ok,
            main_login_told(*old(self), *final(self), status, persisted, forgotten, now),
    {
        match persisted {
            Err(error) => {
                self.stream.board.set_notice_at(
                    text::add2("登录态保存失败，原账号保留：", error.as_str()),
                    NoticeLevel::Error,
                    now,
                );
                false
            },
            Ok(_) => {
                self.account_status = status;
                let outcome: Result<(), Problem> = self.automation.accounts.main_changed(forgotten);
                self.stop_assistant_sending();
                match outcome {
                    Ok(_) => self.say(
                        "主账号登录成功；助手仍暂停，未授权发送",
                        NoticeLevel::Success,
                        now,
                    ),
                    Err(problem) => self.stream.board.set_notice_at(
                        text::add2(
                            "主账号已登录，助手已停发；清除旧授权失败：",
                            problem.message().as_str(),
                        ),
                        NoticeLevel::Error,
                        now,
                    ),
                }
                true
            },
        }
    }
}

/// News of a sign-in that no longer waits changes nothing: an account that was given up cannot
/// come back by itself.
pub proof fn law_late_logins_are_ignored(
    before: TerminalApp,
    after: TerminalApp,
    token: u64,
    status: AccountStatus,
    action: UiAction,
    now: u64,
    wall: i64,
)
    requires
        before.main_login != Some(token),
        told(before, after, UiEvent::LoginDone { token, status }, action, now, wall),
    ensures
        after == before,
        action is Nothing,
{
}

/// No news lets the assistant send: only a permission does.
pub proof fn law_news_permit_nothing(
    before: TerminalApp,
    after: TerminalApp,
    event: UiEvent,
    action: UiAction,
    now: u64,
    wall: i64,
)
    requires
        told(before, after, event, action, now, wall),
    ensures
        after.automation.sending ==> before.automation.sending,
        after.automation.running ==> before.automation.running,
{
}

/// What happens to a sent message shows as what it is: on its way, accepted, refused with its text
/// and the reason, or missing, and the last only where it is still waited for.
pub proof fn law_the_state_of_sending_shows(
    before: TerminalApp,
    after: TerminalApp,
    event: UiEvent,
    action: UiAction,
    now: u64,
    wall: i64,
)
    requires
        told(before, after, event, action, now, wall),
    ensures
        event is DeliveryStarted ==> after.stream.board@.delivery_status == DeliveryStatus::Sending
            && after.stream.deliveries.pending@.len() > 0 && after.stream.deliveries.pending@.last()
            == event->DeliveryStarted_0,
        event is DeliveryAccepted ==> after.stream.board@.delivery_status
            == DeliveryStatus::AwaitingEcho && after.stream.deliveries == before.stream.deliveries,
        event is DeliveryTimedOut ==> after.stream.board@.delivery_status
            == DeliveryStatus::Uncertain && after.stream.board@.notice_is_delivery,
        event is DeliveryCompleted && before.stream.deliveries.pending@.len() == 0
            ==> after.stream.board@.delivery_status == DeliveryStatus::Delivered,
        event is DeliveryCompleted && before.stream.deliveries.pending@.len() > 0
            ==> after.stream.board@.delivery_status == DeliveryStatus::AwaitingEcho,
        event matches UiEvent::DeliveryRejected { content, message }
            ==> after.stream.board@.delivery_status == DeliveryStatus::Failed && text::occurs_in(
            content@,
            after.stream.board@.notice,
        ) && text::has_prefix(after.stream.board@.notice, message@),
        event matches UiEvent::DeliveryEchoMissing(ids) ==> (if stream::awaits_any(
            before.stream.deliveries.pending@,
            text::views(ids@),
        ) {
            after.stream.board@.delivery_status == DeliveryStatus::Uncertain
        } else {
            after.stream.board@ == before.stream.board@
        }),
        event matches UiEvent::Notice { message, level } ==> after.stream.board@.notice == message@
            && after.stream.board@.notice_level == level,
        !(event is LocalEcho || event is DeliveryHistory) ==> after.stream.feed
            == before.stream.feed,
        after.desk.input == before.desk.input,
{
    if let UiEvent::DeliveryRejected { content, message } = event {
        let notice = message@ + "；内容：「"@ + content@ + "」"@;
        let head = message@ + "；内容：「"@;
        assert(notice =~= head + content@ + "」"@);
        assert(notice.subrange(head.len() as int, (head.len() + content@.len()) as int)
            =~= content@);
        assert(text::matches_at(notice, content@, head.len() as int));
        assert(notice.subrange(0, message@.len() as int) =~= message@);
    }
}

/// The login that is waited for is kept when it is done and dropped with its reason when it fails;
/// another one changes nothing.
pub proof fn law_the_awaited_login_counts(
    before: TerminalApp,
    after: TerminalApp,
    event: UiEvent,
    action: UiAction,
    now: u64,
    wall: i64,
)
    requires
        told(before, after, event, action, now, wall),
    ensures
        event matches UiEvent::LoginDone { token, status } ==> (if before.main_login == Some(token) {
            action == UiAction::Persist(status) && after.main_login is None && after.desk.login_qr
                is None
        } else {
            action is Nothing && after == before
        }),
        event matches UiEvent::LoginFailed { token, message } ==> (if before.main_login == Some(
            token,
        ) {
            action is Nothing && after.main_login is None && after.stream.board@.notice == message@
        } else {
            action is Nothing && after == before
        }),
        event matches UiEvent::LoginQr { token, lines } ==> (if before.main_login == Some(token) {
            after.desk.login_qr == Some(lines)
        } else {
            after == before
        }),
        event matches UiEvent::ObsStopDone(result) ==> after.desk.stop_flow is None && (result is Ok
            <==> after.stream.board@.notice_level == NoticeLevel::Success),
        event matches UiEvent::RoomSnapshot(room) ==> after.stream.status.room == Some(room)
            && after.stream.status.room_updated_at == Some(wall),
        action is Persist ==> event is LoginDone,
{
}

/// Another main account stops the assistant and takes back what it was allowed; a login that could
/// not be saved leaves the account and the assistant as they were.
pub proof fn law_another_main_account_stops_the_assistant(
    before: TerminalApp,
    after: TerminalApp,
    status: AccountStatus,
    persisted: Result<(), String>,
    forgotten: Result<(), String>,
    now: u64,
    room: Seq<char>,
)
    requires
        main_login_told(before, after, status, persisted, forgotten, now),
        before.automation.accounts.wf(),
    ensures
        persisted is Ok ==> after.account_status == status && !after.automation.running
            && !after.automation.sending && after.review.frame is None
            && !after.automation.accounts.permits(room, status),
        persisted is Err ==> after.account_status == before.account_status && after.automation
            == before.automation && after.stream.board@.notice_level == NoticeLevel::Error,
        after.desk == before.desk,
{
}

} // verus!
