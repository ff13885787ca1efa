//! What is pasted, the wheel, and what follows when nobody touches anything; editing replies, and
//! what the assistant's runner reports.
use vstd::prelude::*;
use vstd::string::*;

use crate::accounts::{AssistantAccounts, Credential, Mode, SendIdentity};
use crate::activity;
use crate::app;
use crate::app::TerminalApp;
use crate::app_events;
use crate::automation::Automation;
use crate::desk;
use crate::desk::{Desk, HelpState};
use crate::domain::AccountStatus;
use crate::input;
use crate::keys::MouseKind;
use crate::notice::{BoardView, DeliveryStatus, NoticeBoard, NoticeLevel};
use crate::panel::Facts;
use crate::panel_edits;
use crate::panel_edits::Display;
use crate::panel_keys;
use crate::review;
use crate::review::{Reply, Review, ReviewProblem, Surfaces};
use crate::send;
use crate::send::Lane;
use crate::text;

verus! {

/// Nothing can be pasted: something open on top takes no text.
pub open spec fn paste_blocked(app: TerminalApp, facts: Facts) -> bool {
    app.desk.help is Some || app.desk.stop_flow is Some || app.desk.login_qr is Some
        || app.main_login is Some || facts.login_pending
}

/// Pasted text goes to the panel.
pub open spec fn paste_to_panel(app: TerminalApp) -> bool {
    app.panel is Some && app.review.edit is None && app.desk.search is None
}

/// A message is selected to be answered, and what is pasted is no command: it is not taken.
pub open spec fn paste_held(app: TerminalApp, clip: Seq<char>) -> bool {
    !app.desk.secret_mode && app.review.edit is None && app.desk.search is None
        && app.stream.feed.selection_active && !(desk::slashed(app.desk.input.text()) || (
    app.desk.input.text().len() == 0 && desk::slashed(clip)))
}

/// What a paste does.
pub open spec fn paste_done(
    before: TerminalApp,
    after: TerminalApp,
    clip: &str,
    facts: Facts,
    now: u64,
) -> bool {
    let too_long = clip.spec_bytes().len() > panel_edits::PASTE_LIMIT;
    if paste_blocked(before, facts) {
        after == before
    } else if paste_to_panel(before) {
        if !panel_edits::takes_paste(before.panel->0) {
            after == before
        } else if too_long {
            app::only_said(
                before,
                after,
                "粘贴超过4096字节，未插入"@,
                NoticeLevel::Error,
                now,
            )
        } else {
            &&& after == (TerminalApp { panel: after.panel, ..before })
            &&& after.panel matches Some(panel) && panel_edits::paste_taken(
                before.panel->0,
                panel,
                clip@,
            )
        }
    } else if paste_held(before, clip@) {
        after == before
    } else if too_long {
        app::only_said(before, after, "粘贴超过4096字节，未插入"@, NoticeLevel::Error, now)
    } else {
        &&& after == (TerminalApp {
            desk: Desk {
                input: after.desk.input,
                slash_selection: 0,
                last_user_activity: now,
                ..before.desk
            },
            ..before
        })
        &&& after.desk.input.text() == input::inserted(
            before.desk.input.text(),
            before.desk.input.position(),
            input::pasted(clip@, false),
        )
        &&& after.desk.input.position() == before.desk.input.position() + input::pasted(
            clip@,
            false,
        ).len()
    }
}

/// The help after a turn of the wheel.
pub open spec fn help_turned(help: HelpState, up: bool) -> HelpState {
    HelpState {
        scroll: (if up {
            desk::lowered(help.scroll as int, 3)
        } else {
            desk::capped(help.scroll + 3, help.max_scroll as int)
        }) as usize,
        ..help
    }
}

/// What the wheel does: it turns what is open on top, or the messages where nothing is open.
pub open spec fn wheel_done(
    before: TerminalApp,
    after: TerminalApp,
    kind: MouseKind,
    facts: Facts,
    now: u64,
) -> bool {
    let d = before.desk;
    let up = kind == MouseKind::ScrollUp;
    let fresh = app::touched(before, now);
    if kind == MouseKind::Other {
        after == before
    } else if d.stop_flow is Some || d.login_qr is Some || d.secret_mode || before.review.edit
        is Some {
        after == fresh
    } else if d.help is Some {
        after == (TerminalApp {
            desk: Desk { help: Some(help_turned(d.help->0, up)), ..fresh.desk },
            ..fresh
        })
    } else if d.search is Some || desk::slashed(d.input.text()) {
        let count = fresh.desk.offered(app::offers_ai(facts)).len() as int;
        let selection = d.slash_selection as int;
        after == (TerminalApp {
            desk: Desk {
                slash_selection: (if count == 0 {
                    selection
                } else if up {
                    desk::lowered(selection, 1)
                } else {
                    desk::capped(selection + 1, count - 1)
                }) as usize,
                ..fresh.desk
            },
            ..fresh
        })
    } else if before.panel is Some {
        after == (TerminalApp {
            panel: Some(panel_keys::wheel_result(before.panel->0, kind, facts)),
            ..fresh
        })
    } else {
        after == app::with_feed(fresh, before.stream.feed.scrolled(up))
    }
}

/// Something open holds a place in the messages that must not be lost.
pub open spec fn holds_place(app: TerminalApp) -> bool {
    app.desk.stop_flow is Some || app.desk.login_qr is Some || app.desk.secret_mode
        || app.review.edit is Some || app.panel is Some || app.desk.help is Some
}

/// Nobody has touched anything for so long that the newest messages are followed again.
pub open spec fn left_alone(app: TerminalApp, idle_seconds: u32, now: u64) -> bool {
    app.stream.feed.browses() && idle_seconds > 0 && now - app.desk.last_user_activity
        >= idle_seconds * 1000
}

/// A reply whose edited text is to be saved.
#[derive(Debug)]
pub struct EditRequest {
    pub session: String,
    pub caller: String,
    pub request: String,
    pub text: String,
}

/// An archived session that a search found: its room, and when it began as it is shown.
#[derive(Debug)]
pub struct ArchiveHit {
    pub room_id: String,
    pub started: String,
}

/// The first sessions that were found, at most three.
pub open spec fn hit_names(hits: Seq<ArchiveHit>) -> Seq<Seq<char>> {
    Seq::new(
        if hits.len() < 3 {
            hits.len()
        } else {
            3
        },
        |i: int| hits[i].room_id@ + "@"@ + hits[i].started@,
    )
}

/// What is said of the archived sessions that a search found.
pub open spec fn found_text(hits: Seq<ArchiveHit>) -> Seq<char> {
    if hits.len() == 0 {
        "未找到归档会话"@
    } else {
        "找到 "@ + text::decimal_digits(hits.len()) + " 个归档会话："@ + text::joined(
            hit_names(hits),
            "、"@,
        )
    }
}

fn found_message(hits: &Vec<ArchiveHit>) -> (r: String)
    ensures
        r@ == found_text(hits@),
{
    if hits.len() == 0 {
        return "未找到归档会话".to_owned();
    }
    let mut names: Vec<String> = text::no_lines();
    let mut i: usize = 0;
    proof {
        assert(hit_names(hits@).take(0) =~= Seq::empty());
    }
    while i < hits.len() && i < 3
        invariant
            i <= hits@.len(),
            i <= 3,
            text::views(names@) == hit_names(hits@).take(i as int),
        decreases 3 - i,
    {
        text::push_line(
            &mut names,
            text::add3(hits[i].room_id.as_str(), "@", hits[i].started.as_str()),
        );
        proof {
            assert(hit_names(hits@).take(i + 1) =~= hit_names(hits@).take(i as int).push(
                hit_names(hits@)[i as int],
            ));
        }
        i = i + 1;
    }
    proof {
        assert(hit_names(hits@).take(i as int) =~= hit_names(hits@));
    }
    let mut out: String = text::add3(
        "找到 ",
        text::decimal(hits.len() as u64).as_str(),
        " 个归档会话：",
    );
    out.append(text::join(&names, "、").as_str());
    out
}

/// What the assistant's runner reports after a turn.
pub struct BridgeReport {
    /// What is said of loading the history.
    pub history_load: Option<String>,
    /// How rebuilding the history ended.
    pub history_repair: Option<Result<String, String>>,
    /// What came of noting down which messages went where.
    pub routing: Result<(), String>,
    /// A round that ended: whether its reply was rejected, and what came of noting it down.
    pub round: Option<(bool, Result<(), String>)>,
    /// What the runner says of itself.
    pub note: String,
    /// Why the runner broke off, and what came of noting that down.
    pub broke: Option<(String, Result<(), String>)>,
}

/// The runner has to be stopped: what it does could not be noted down.
pub open spec fn unrecorded(report: BridgeReport) -> bool {
    report.routing is Err || (report.round matches Some((_, archived)) && archived is Err)
}

/// What is said of a runner that broke off.
pub open spec fn broke_text(reason: Seq<char>, archived: Result<(), String>) -> Seq<char> {
    let said = "AI异常停止："@ + reason + "；/diag 查看"@;
    match archived {
        Ok(_) => said,
        Err(error) => said + "；停止原因归档失败："@ + error@,
    }
}

/// The board after what is said of the history.
pub open spec fn history_told(
    board: BoardView,
    load: Option<String>,
    repair: Option<Result<String, String>>,
    now: u64,
) -> BoardView {
    let loaded = match load {
        Some(message) => board.noticed(message@, NoticeLevel::Error, now),
        None => board,
    };
    match repair {
        Some(Ok(message)) => loaded.noticed(message@, NoticeLevel::Success, now),
        Some(Err(message)) => loaded.noticed(message@, NoticeLevel::Error, now),
        None => loaded,
    }
}

/// The board after a report: each thing is said in turn, so that the last one stays.
pub open spec fn report_told(board: BoardView, report: BridgeReport, now: u64) -> BoardView {
    let repaired = history_told(board, report.history_load, report.history_repair, now);
    let routed = match report.routing {
        Ok(_) => repaired,
        Err(error) => repaired.noticed(
            "消息分流归档失败，助手已暂停："@ + error@,
            NoticeLevel::Error,
            now,
        ),
    };
    let rounded = match report.round {
        Some((rejected, Ok(_))) => if rejected {
            routed.noticed(report.note@, NoticeLevel::Warning, now)
        } else {
            routed
        },
        Some((_, Err(error))) => routed.noticed(
            "轮次诊断归档失败，助手已暂停并撤权："@ + error@,
            NoticeLevel::Error,
            now,
        ),
        None => routed,
    };
    match report.broke {
        Some((reason, archived)) => rounded.noticed(
            broke_text(reason@, archived),
            NoticeLevel::Error,
            now,
        ),
        None => rounded,
    }
}

fn tell_history(
    board: &mut NoticeBoard,
    load: Option<String>,
    repair: Option<Result<String, String>>,
    now: u64,
)
    requires
        now <= activity::LAST_INSTANT,
    ensures
        final(board)@ == history_told(old(board)@, load, repair, now),
{
    if let Some(message) = load {
        board.set_notice_at(message, NoticeLevel::Error, now);
    }
    match repair {
        Some(Ok(message)) => board.set_notice_at(message, NoticeLevel::Success, now),
        Some(Err(message)) => board.set_notice_at(message, NoticeLevel::Error, now),
        None => {},
    }
}

fn tell_report(board: &mut NoticeBoard, report: BridgeReport, now: u64) -> (r: bool)
    requires
        now <= activity::LAST_INSTANT,
    ensures
        final(board)@ == report_told(old(board)@, report, now),
        r == unrecorded(report),
{
    tell_history(board, report.history_load, report.history_repair, now);
    let mut stop: bool = false;
    if let Err(error) = report.routing {
        stop = true;
        board.set_notice_at(
            text::add2("消息分流归档失败，助手已暂停：", error.as_str()),
            NoticeLevel::Error,
            now,
        );
    }
    if let Some((rejected, archived)) = report.round {
        match archived {
            Ok(_) => {
                if rejected {
                    board.set_notice_at(report.note, NoticeLevel::Warning, now);
                }
            },
            Err(error) => {
                stop = true;
                board.set_notice_at(
                    text::add2("轮次诊断归档失败，助手已暂停并撤权：", error.as_str()),
                    NoticeLevel::Error,
                    now,
                );
            },
        }
    }
    if let Some((reason, archived)) = report.broke {
        let mut message: String = text::add3(
            "AI异常停止：",
            reason.as_str(),
            "；/diag 查看",
        );
        if let Err(error) = archived {
            message.append("；停止原因归档失败：");
            message.append(error.as_str());
        }
        board.set_notice_at(message, NoticeLevel::Error, now);
    }
    stop
}

/// What the passing of time does to a reader of older messages: where something is open it counts
/// as reading, and otherwise the reader is led back in the end.
pub open spec fn idled(before: TerminalApp, after: TerminalApp, idle_seconds: u32, now: u64) -> bool {
    if holds_place(before) {
        after == app::touched(before, now)
    } else if left_alone(before, idle_seconds, now) {
        app::only_said(
            app::with_feed(before, before.stream.feed.live()),
            after,
            "FOLLOW"@,
            NoticeLevel::Info,
            now,
        )
    } else {
        after == before
    }
}

/// A setting of the display is in force once it is saved, and what went wrong is told.
pub open spec fn display_told(
    before: TerminalApp,
    after: TerminalApp,
    display: Display,
    saved: Result<(), String>,
    now: u64,
) -> bool {
    match saved {
        Ok(_) => app::only_said(
            TerminalApp {
                layout_chat: (match display {
                    Display::Chat(chat) => chat,
                    _ => before.layout_chat,
                }),
                show_name: (match display {
                    Display::Names(shown) => shown,
                    _ => before.show_name,
                }),
                show_time: (match display {
                    Display::Times(shown) => shown,
                    _ => before.show_time,
                }),
                ..before
            },
            after,
            "显示设置已保存"@,
            NoticeLevel::Success,
            now,
        ),
        Err(error) => app::only_said(
            before,
            after,
            error@,
            NoticeLevel::Error,
            now,
        ),
    }
}

/// An edited reply that is saved gives the line back to what was typed before; one that is not
/// stays in the line.
pub open spec fn edit_saved(
    before: TerminalApp,
    after: TerminalApp,
    saved: Result<(), String>,
    now: u64,
) -> bool {
    match saved {
        Ok(_) => app::only_said(
            TerminalApp {
                desk: Desk {
                    input: before.review.edit->0.draft,
                    slash_selection: 0,
                    ..before.desk
                },
                review: Review {
                    edit: None,
                    selected: Some(
                        (
                            before.review.edit->0.caller,
                            before.review.edit->0.request,
                        ),
                    ),
                    ..before.review
                },
                ..before
            },
            after,
            "回复已保存，尚未发送；/review 查看，人工草稿已恢复"@,
            NoticeLevel::Info,
            now,
        ),
        Err(error) => app::only_said(
            before,
            after,
            "保存失败："@ + error@ + "；编辑内容保留，Esc取消"@,
            NoticeLevel::Error,
            now,
        ),
    }
}

/// Under which account a message is sent, and in which lane it waits: the assistant's under its
/// sender, as long as that identity counts, and one that was typed under the account given for it.
pub open spec fn queued(
    accounts: AssistantAccounts,
    account_status: AccountStatus,
    from_assistant: bool,
    manual: Option<Credential>,
    readable: bool,
    identity: SendIdentity,
    lane: Lane,
) -> bool {
    &&& if from_assistant {
        &&& identity.account == if readable {
            accounts.sender_credential()
        } else {
            None
        }
        &&& identity.gated
        &&& identity.generation == accounts.gate.generation
        &&& identity.independent == (accounts.selection.mode == Mode::Independent)
        &&& identity.expected_status == Some(accounts.sender(account_status))
    } else {
        &&& identity.account == manual
        &&& !identity.gated
        &&& !identity.independent
        &&& identity.expected_status is None
    }
    &&& lane == if identity.independent {
        Lane::Independent
    } else {
        Lane::Manual
    }
}

impl TerminalApp {
    /// Takes pasted text.
    pub fn handle_paste(&mut self, clip: &str, facts: &Facts, now: u64)
        requires
            old(self).wf(),
            now <= activity::LAST_INSTANT,
        ensures
            final(self).wf(),
            paste_done(*old(self), *final(self), clip, *facts, now),
    {
        if self.desk.help.is_some() || self.desk.stop_flow.is_some() || self.desk.login_qr.is_some()
            || self.main_login.is_some() || facts.login_pending {
            return;
        }
        if self.panel.is_some() && self.review.edit.is_none() && self.desk.search.is_none() {
            let refused: bool = match &mut self.panel {
                Some(panel) => panel.paste_assistant(clip),
                None => false,
            };
            if refused {
                self.say("粘贴超过4096字节，未插入", NoticeLevel::Error, now);
            }
            return;
        }
        if !self.desk.secret_mode && self.review.edit.is_none() && self.desk.search.is_none()
            && self.stream.feed.selection_active {
            let chars: Vec<char> = text::chars_of(clip);
            let command: bool = self.desk.is_slashed() || (self.desk.input.is_empty()
                && chars.len() > 0 && chars[0] == '/');
            if !command {
                return;
            }
        }
        if text::byte_len(clip) > panel_edits::PASTE_LIMIT {
            self.say("粘贴超过4096字节，未插入", NoticeLevel::Error, now);
            return;
        }
        self.desk.last_user_activity = now;
        self.desk.input.insert_paste(clip, false);
        self.desk.slash_selection = 0;
    }

    /// Takes a turn of the wheel.
    pub fn handle_mouse(&mut self, kind: MouseKind, facts: &Facts, now: u64)
        requires
            old(self).wf(),
        ensures
            final(self).wf(),
            wheel_done(*old(self), *final(self), kind, *facts, now),
    {
        let up: bool = match kind {
            MouseKind::ScrollUp => true,
            MouseKind::ScrollDown => false,
            MouseKind::Other => {
                return;
            },
        };
        self.desk.last_user_activity = now;
        if self.desk.stop_flow.is_some() || self.desk.login_qr.is_some() || self.desk.secret_mode
            || self.review.edit.is_some() {
            return;
        }
        if let Some(help) = self.desk.help {
            let scroll: usize = if up {
                help.scroll.saturating_sub(3)
            } else {
                let further: usize = help.scroll.saturating_add(3);
                if further < help.max_scroll {
                    further
                } else {
                    help.max_scroll
                }
            };
            self.desk.help = Some(HelpState { scroll, ..help });
        } else if self.desk.search.is_some() || self.desk.is_slashed() {
            self.desk.palette_wheel(up, TerminalApp::include_ai(facts));
        } else if self.panel.is_some() {
            if let Some(panel) = &mut self.panel {
                panel.assistant_mouse(kind, facts);
            }
        } else {
            self.stream.feed.scroll_history(up);
        }
    }

    /// Follows the newest messages again when nobody has touched anything for long enough. What is
    /// open on top keeps the place in the messages.
    pub fn advance_history_at(&mut self, idle_seconds: u32, now: u64)
        requires
            old(self).wf(),
            now <= activity::LAST_INSTANT,
        ensures
            final(self).wf(),
            idled(*old(self), *final(self), idle_seconds, now),
    {
        if self.desk.stop_flow.is_some() || self.desk.login_qr.is_some() || self.desk.secret_mode
            || self.review.edit.is_some() || self.panel.is_some() || self.desk.help.is_some() {
            self.desk.last_user_activity = now;
            return;
        }
        if self.stream.feed.is_browsing_history() && idle_seconds > 0
            && now.saturating_sub(self.desk.last_user_activity) >= idle_seconds as u64 * 1000 {
            self.stream.feed.return_to_live();
            self.say("FOLLOW", NoticeLevel::Info, now);
        }
    }

    fn surfaces(&self) -> (r: Surfaces)
        ensures
            r == app::surfaces_of(*self),
    {
        Surfaces {
            secret: self.desk.secret_mode,
            stopping: self.desk.stop_flow.is_some(),
            login: self.desk.login_qr.is_some(),
            panel: self.panel.is_some(),
        }
    }

    /// Begins to edit the shown reply in place of the message that was being typed.
    pub fn edit_review(&mut self, candidates: &Vec<Reply>, generation: u64, now: u64) -> (r: Result<
        (),
        ReviewProblem,
    >)
        requires
            old(self).wf(),
            now <= activity::LAST_INSTANT,
        ensures
            final(self).wf(),
            edit_begun(*old(self), *final(self), r, candidates@, generation, now),
    {
        if let Err(problem) = self.review.reviewed_reply(false, candidates, generation) {
            return Err(problem);
        }
        let open: Surfaces = self.surfaces();
        let ghost before = *self;
        if let Err(problem) = self.review.begin_candidate_edit(
            &mut self.desk.input,
            candidates,
            generation,
            open,
        ) {
            return Err(problem);
        }
        let ghost begun = self.review;
        self.desk.slash_selection = 0;
        self.say(
            "回复编辑：Enter仅保存，Esc取消；保存后重新确认正文",
            NoticeLevel::Info,
            now,
        );
        self.review.frame = None;
        proof {
            assert(begun == (Review { frame: before.review.frame, ..self.review }));
        }
        Ok(())
    }

    /// Asks for the edited reply to be saved, unless the identity has changed since it was begun.
    pub fn save_candidate_edit(&mut self, generation: u64, now: u64) -> (r: Option<EditRequest>)
        requires
            old(self).wf(),
            now <= activity::LAST_INSTANT,
        ensures
            final(self).wf(),
            match old(self).review.edit {
                None => r is None && *final(self) == *old(self),
                Some(edit) => if edit.generation != generation {
                    &&& r is None
                    &&& app::only_said(
                        *old(self),
                        *final(self),
                        "发送身份已改变；Esc退出后重新确认，编辑内容保留"@,
                        NoticeLevel::Warning,
                        now,
                    )
                } else {
                    &&& *final(self) == *old(self)
                    &&& r matches Some(asked) && asked.session == edit.session && asked.caller
                        == edit.caller && asked.request == edit.request && asked.text@
                        == old(self).desk.input.text()
                },
            },
    {
        if let Err(problem) = self.review.check_edit(generation) {
            self.say(problem.message(), NoticeLevel::Warning, now);
            return None;
        }
        match &self.review.edit {
            None => None,
            Some(edit) => Some(
                EditRequest {
                    session: edit.session.clone(),
                    caller: edit.caller.clone(),
                    request: edit.request.clone(),
                    text: self.desk.input.as_str().to_owned(),
                },
            ),
        }
    }

    /// The edited reply was saved: the message that was being typed comes back. A text that was
    /// not saved stays.
    pub fn candidate_saved(&mut self, saved: Result<(), String>, now: u64)
        requires
            old(self).wf(),
            old(self).review.edit is Some,
            now <= activity::LAST_INSTANT,
        ensures
            final(self).wf(),
            edit_saved(*old(self), *final(self), saved, now),
    {
        match saved {
            Ok(_) => {
                self.review.finish_candidate_edit(&mut self.desk.input);
                self.desk.slash_selection = 0;
                self.say(
                    "回复已保存，尚未发送；/review 查看，人工草稿已恢复",
                    NoticeLevel::Info,
                    now,
                );
            },
            Err(error) => self.say(
                text::add3("保存失败：", error.as_str(), "；编辑内容保留，Esc取消").as_str(),
                NoticeLevel::Error,
                now,
            ),
        }
    }

    /// Says what a search of the archive found.
    pub fn search_archive(&mut self, found: Result<Vec<ArchiveHit>, String>, now: u64)
        requires
            old(self).wf(),
            now <= activity::LAST_INSTANT,
        ensures
            final(self).wf(),
            match found {
                Ok(hits) => app::only_said(
                    *old(self),
                    *final(self),
                    found_text(hits@),
                    NoticeLevel::Info,
                    now,
                ),
                Err(error) => app::only_said(
                    *old(self),
                    *final(self),
                    error@,
                    NoticeLevel::Error,
                    now,
                ),
            },
    {
        match found {
            Ok(hits) => self.say(found_message(&hits).as_str(), NoticeLevel::Info, now),
            Err(error) => self.say(error.as_str(), NoticeLevel::Error, now),
        }
    }

    /// A display setting was saved, or was not.
    pub fn display_saved(&mut self, display: Display, saved: Result<(), String>, now: u64)
        requires
            old(self).wf(),
            now <= activity::LAST_INSTANT,
        ensures
            final(self).wf(),
            display_told(*old(self), *final(self), display, saved, now),
    {
        match saved {
            Ok(_) => {
                match display {
                    Display::Chat(chat) => {
                        self.layout_chat = chat;
                    },
                    Display::Names(shown) => {
                        self.show_name = shown;
                    },
                    Display::Times(shown) => {
                        self.show_time = shown;
                    },
                }
                self.say("显示设置已保存", NoticeLevel::Success, now);
            },
            Err(error) => self.say(error.as_str(), NoticeLevel::Error, now),
        }
    }

    /// A message is put into its queue: whose it is, and which queue. The identity is fixed now: a
    /// reply of the assistant never goes out as another account.
    pub fn enqueue(
        &mut self,
        from_assistant: bool,
        manual: Option<Credential>,
        readable: bool,
        now: u64,
    ) -> (r: (SendIdentity, Lane))
        requires
            old(self).wf(),
            now <= activity::LAST_INSTANT,
        ensures
            final(self).wf(),
            app_events::only_status(
                *old(self),
                *final(self),
                old(self).stream.board@.with_status(DeliveryStatus::Sending, now),
            ),
            queued(
                old(self).automation.accounts,
                old(self).account_status,
                from_assistant,
                manual,
                readable,
                r.0,
                r.1,
            ),
    {
        let identity: SendIdentity = if from_assistant {
            self.automation.accounts.send_identity(&self.account_status, readable)
        } else {
            SendIdentity::manual(manual)
        };
        let lane: Lane = send::lane_for(&identity);
        self.stream.board.set_delivery_status_at(DeliveryStatus::Sending, now);
        (identity, lane)
    }

    /// Takes what the assistant's runner reports after a turn. The answer says that the runner is
    /// to be stopped, because what it does could not be noted down.
    pub fn advance_bridge(&mut self, report: BridgeReport, now: u64) -> (r: bool)
        requires
            old(self).wf(),
            now <= activity::LAST_INSTANT,
        ensures
            final(self).wf(),
            r == unrecorded(report),
            app_events::only_status(
                TerminalApp {
                    automation: if r {
                        Automation { running: false, sending: false, ..old(self).automation }
                    } else {
                        old(self).automation
                    },
                    ..*old(self)
                },
                *final(self),
                report_told(old(self).stream.board@, report, now),
            ),
    {
        let stop: bool = tell_report(&mut self.stream.board, report, now);
        if stop {
            self.automation.running = false;
            self.automation.sending = false;
        }
        stop
    }
}

/// A reply began to be edited, or why it did not.
pub open spec fn edit_begun(
    before: TerminalApp,
    after: TerminalApp,
    r: Result<(), ReviewProblem>,
    candidates: Seq<Reply>,
    generation: u64,
    now: u64,
) -> bool {
    match review::review_check(before.review.frame, false, candidates, generation) {
        Err(problem) => r == Err::<(), ReviewProblem>(problem) && after == before,
        Ok(_) => {
            let edited = Review { frame: before.review.frame, ..after.review };
            &&& review::begun(
                before.review,
                edited,
                before.desk.input,
                after.desk.input,
                r,
                candidates,
                generation,
                app::surfaces_of(before),
            )
            &&& if r is Ok {
                &&& after.review.frame is None
                &&& app::only_said(
                    TerminalApp {
                        desk: Desk {
                            input: after.desk.input,
                            slash_selection: 0,
                            ..before.desk
                        },
                        review: after.review,
                        ..before
                    },
                    after,
                    "回复编辑：Enter仅保存，Esc取消；保存后重新确认正文"@,
                    NoticeLevel::Info,
                    now,
                )
            } else {
                after == (TerminalApp { review: edited, ..before })
            }
        },
    }
}

/// Leaving the program alone never loses a place that something open on top needs, and never what
/// was typed.
pub proof fn law_idling_keeps_the_line(before: TerminalApp, after: TerminalApp, now: u64)
    requires
        ({
            ||| after == app::touched(before, now)
            ||| app::only_said(
                app::with_feed(before, before.stream.feed.live()),
                after,
                "FOLLOW"@,
                NoticeLevel::Info,
                now,
            )
            ||| after == before
        }),
    ensures
        after.desk.input == before.desk.input,
        after.review == before.review,
        after.panel == before.panel,
{
}

/// Pasting decides nothing: no reply is approved, nothing is sent, and the assistant stays as it
/// is.
pub proof fn law_pasting_decides_nothing(
    before: TerminalApp,
    after: TerminalApp,
    clip: &str,
    facts: Facts,
    now: u64,
)
    requires
        paste_done(before, after, clip, facts, now),
    ensures
        after.review == before.review,
        after.automation == before.automation,
        after.stream.deliveries == before.stream.deliveries,
{
}

/// The mouse decides nothing either: it opens and sends nothing, and the line that is typed stays.
pub proof fn law_the_mouse_decides_nothing(
    before: TerminalApp,
    after: TerminalApp,
    kind: MouseKind,
    facts: Facts,
    now: u64,
)
    requires
        wheel_done(before, after, kind, facts, now),
    ensures
        after.review == before.review,
        after.automation == before.automation,
        after.stream.deliveries == before.stream.deliveries,
        after.desk.input == before.desk.input,
        after.panel is Some == before.panel is Some,
{
}

/// More than four thousand and ninety-six bytes are never pasted, and nothing is pasted while
/// something else is asked for.
pub proof fn law_long_pastes_are_refused(
    before: TerminalApp,
    after: TerminalApp,
    clip: &str,
    facts: Facts,
    now: u64,
)
    requires
        paste_done(before, after, clip, facts, now),
    ensures
        clip.spec_bytes().len() > 4096 || before.desk.stop_flow is Some || before.desk.login_qr
            is Some || before.desk.help is Some || before.main_login is Some || facts.login_pending
            ==> after.desk.input == before.desk.input && after.panel == before.panel,
{
}

/// A paste into the line stands at the cursor, which goes behind it, and what was typed stays
/// around it.
pub proof fn law_a_paste_stands_at_the_cursor(
    before: TerminalApp,
    after: TerminalApp,
    clip: &str,
    facts: Facts,
    now: u64,
)
    requires
        paste_done(before, after, clip, facts, now),
        app::is_bare(before),
        before.desk.input.wf(),
        !facts.login_pending,
        !before.stream.feed.selection_active,
        clip.spec_bytes().len() <= 4096,
    ensures
        ({
            let line = before.desk.input.text();
            let at = before.desk.input.position() as int;
            let pasted = input::pasted(clip@, false);
            &&& after.desk.input.text() == line.subrange(0, at) + pasted + line.subrange(
                at,
                line.len() as int,
            )
            &&& after.desk.input.position() == at + pasted.len()
        }),
        after.stream == before.stream,
{
    let line = before.desk.input.text();
    let at = before.desk.input.position() as int;
    assert(line.take(at) =~= line.subrange(0, at));
    assert(line.skip(at) =~= line.subrange(at, line.len() as int));
}

/// With nothing open, turning the wheel up scrolls to older messages and down to newer ones.
pub proof fn law_the_wheel_scrolls_the_messages(
    before: TerminalApp,
    after: TerminalApp,
    kind: MouseKind,
    facts: Facts,
    now: u64,
)
    requires
        wheel_done(before, after, kind, facts, now),
        app::is_bare(before),
        before.desk.input.text().len() == 0 || before.desk.input.text()[0] != '/',
    ensures
        kind == MouseKind::ScrollUp ==> after.stream.feed == before.stream.feed.scrolled(true),
        kind == MouseKind::ScrollDown ==> after.stream.feed == before.stream.feed.scrolled(false),
        kind == MouseKind::Other ==> after == before,
        after.desk.input == before.desk.input,
{
}

/// A reader who left older messages open is led back after the seconds that were set, not before,
/// and never where none are set.
pub proof fn law_readers_are_led_back_in_time(app: TerminalApp, idle_seconds: u32, now: u64)
    requires
        app.stream.feed.selection_active || app.stream.feed.scroll_offset > 0,
    ensures
        left_alone(app, idle_seconds, now) <==> idle_seconds > 0 && now
            >= app.desk.last_user_activity + 1000 * idle_seconds,
        left_alone(app, 0, now) == false,
{
}

/// What was found in the archive is counted, and no more than three are named, each by its room and
/// its time.
pub proof fn law_hits_are_counted_and_named(hits: Seq<ArchiveHit>)
    ensures
        hits.len() <= 3 ==> hit_names(hits).len() == hits.len(),
        hits.len() > 3 ==> hit_names(hits).len() == 3,
        forall|i: int|
            0 <= i < hit_names(hits).len() ==> #[trigger] hit_names(hits)[i] == hits[i].room_id@
                + seq!['@'] + hits[i].started@,
        hits.len() > 0 ==> text::has_prefix(
            found_text(hits),
            "找到 "@ + text::decimal_digits(hits.len()),
        ),
{
    reveal_strlit("@");
    assert("@"@ =~= seq!['@']);
    if hits.len() > 0 {
        let head = "找到 "@ + text::decimal_digits(hits.len());
        assert(found_text(hits).subrange(0, head.len() as int) =~= head);
    }
}

/// What is typed is sent under the account that was given for it, whatever the assistant's state;
/// what the assistant writes is sent under its own sender and generation, and never under the main
/// account where it has one of its own. Only an account of its own has a lane of its own.
pub proof fn law_nobody_sends_under_another_account(
    accounts: AssistantAccounts,
    account_status: AccountStatus,
    from_assistant: bool,
    manual: Option<Credential>,
    readable: bool,
    identity: SendIdentity,
    lane: Lane,
)
    requires
        queued(accounts, account_status, from_assistant, manual, readable, identity, lane),
    ensures
        !from_assistant ==> identity.account == manual && !identity.gated && lane is Manual,
        from_assistant ==> identity.gated && identity.generation == accounts.gate.generation,
        from_assistant && accounts.selection.mode == Mode::Independent ==> lane is Independent
            && identity.independent && (identity.account is None || identity.account
            == accounts.independent) && identity.expected_status == Some(
            accounts.independent_status,
        ),
        from_assistant && accounts.selection.mode == Mode::ReuseMain ==> lane is Manual
            && !identity.independent && (identity.account is None || identity.account == Some(
            accounts.main,
        )) && identity.expected_status == Some(account_status),
        from_assistant && !readable ==> identity.account is None,
{
}

/// A reader of older messages with nothing open is led back to the live end after the seconds that
/// were set; until then nothing moves, and the line stays in any case.
pub proof fn law_idle_readers_return_to_the_live_end(
    before: TerminalApp,
    after: TerminalApp,
    idle_seconds: u32,
    now: u64,
)
    requires
        idled(before, after, idle_seconds, now),
        app::is_bare(before),
        before.stream.feed.selection_active || before.stream.feed.scroll_offset > 0,
    ensures
        idle_seconds > 0 && now >= before.desk.last_user_activity + 1000 * idle_seconds
            ==> !after.stream.feed.selection_active && after.stream.feed.scroll_offset == 0,
        idle_seconds == 0 || now < before.desk.last_user_activity + 1000 * idle_seconds ==> after
            == before,
        after.desk.input == before.desk.input,
        after.stream.feed.session == before.stream.feed.session,
{
}

/// A saved setting of the display is in force, it alone; one that was not saved is not.
pub proof fn law_saved_display_settings_are_in_force(
    before: TerminalApp,
    after: TerminalApp,
    display: Display,
    saved: Result<(), String>,
    now: u64,
)
    requires
        display_told(before, after, display, saved, now),
    ensures
        saved is Ok ==> match display {
            Display::Chat(chat) => after.layout_chat == chat && after.show_name == before.show_name
                && after.show_time == before.show_time,
            Display::Names(shown) => after.show_name == shown && after.layout_chat
                == before.layout_chat && after.show_time == before.show_time,
            Display::Times(shown) => after.show_time == shown && after.layout_chat
                == before.layout_chat && after.show_name == before.show_name,
        },
        saved is Err ==> after.layout_chat == before.layout_chat && after.show_name
            == before.show_name && after.show_time == before.show_time
            && after.stream.board@.notice_level == NoticeLevel::Error,
        after.desk == before.desk,
{
}

/// Saving an edited reply sends nothing: the reply stays to be confirmed and the line is what it
/// was before; where saving fails, the edit stays.
pub proof fn law_saving_an_edit_sends_nothing(
    before: TerminalApp,
    after: TerminalApp,
    saved: Result<(), String>,
    now: u64,
)
    requires
        edit_saved(before, after, saved, now),
        before.review.edit is Some,
    ensures
        saved is Ok ==> after.review.edit is None && after.desk.input
            == before.review.edit->0.draft,
        saved is Err ==> after.review == before.review && after.desk.input == before.desk.input,
        after.review.frame == before.review.frame,
        after.automation == before.automation,
        after.stream.deliveries == before.stream.deliveries,
{
}

/// Editing a reply that is on the screen puts its text in the line and keeps what was typed; it
/// decides nothing, and where the reply has changed nothing happens.
pub proof fn law_editing_puts_the_reply_in_the_line(
    before: TerminalApp,
    after: TerminalApp,
    r: Result<(), ReviewProblem>,
    candidates: Seq<Reply>,
    generation: u64,
    now: u64,
)
    requires
        edit_begun(before, after, r, candidates, generation, now),
    ensures
        r is Ok ==> after.review.edit is Some && after.review.edit->0.draft == before.desk.input
            && after.review.edit->0.generation == generation && after.review.frame is None,
        review::review_check(before.review.frame, false, candidates, generation) is Err ==> r is Err
            && after == before,
        r is Err ==> after.desk.input == before.desk.input && after.review.edit
            == before.review.edit,
        after.automation == before.automation,
{
}

/// In the list of commands the wheel moves the choice by one and stops at the ends.
pub proof fn law_the_wheel_moves_the_choice_of_a_command(
    before: TerminalApp,
    after: TerminalApp,
    kind: MouseKind,
    facts: Facts,
    now: u64,
)
    requires
        wheel_done(before, after, kind, facts, now),
        before.desk.stop_flow is None,
        before.desk.login_qr is None,
        before.desk.help is None,
        !before.desk.secret_mode,
        before.review.edit is None,
        before.desk.search is Some,
        before.desk.slash_selection < before.desk.offered(app::offers_ai(facts)).len(),
        before.desk.offered(app::offers_ai(facts)).len() <= usize::MAX,
    ensures
        ({
            let count = before.desk.offered(app::offers_ai(facts)).len() as int;
            let at = before.desk.slash_selection as int;
            let to = after.desk.slash_selection as int;
            &&& kind == MouseKind::ScrollDown && at + 1 < count ==> to == at + 1
            &&& kind == MouseKind::ScrollDown && at + 1 == count ==> to == at
            &&& kind == MouseKind::ScrollUp && at > 0 ==> to == at - 1
            &&& kind == MouseKind::ScrollUp && at == 0 ==> to == 0
        }),
        after.desk.input == before.desk.input,
{
    assert(app::touched(before, now).desk.offered(app::offers_ai(facts)) == before.desk.offered(
        app::offers_ai(facts),
    ));
}

} // verus!
