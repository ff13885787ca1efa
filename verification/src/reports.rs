//! What operations outside report when they end.
use vstd::prelude::*;
use vstd::string::*;

use crate::activity;
use crate::app;
use crate::app::TerminalApp;
use crate::app_commands;
use crate::app_events;
use crate::app_events::UiEvent;
use crate::notice;
use crate::notice::NoticeLevel;
use crate::panel::{Page, Panel};
use crate::text;

verus! {

/// What the broadcasting software is doing.
pub fn obs_status_text(scene: &str, stream: &str, microphone: &str, warning: Option<&str>) -> (r: String)
    ensures
        r@ == "OBS 场景："@ + scene@ + "；推流："@ + stream@ + "；麦克风："@ + microphone@ + match warning {
            Some(warning) => "；"@ + warning@,
            None => Seq::empty(),
        },
{
    let mut out: String = text::add3("OBS 场景：", scene, "；推流：");
    out.append(stream);
    out.append("；麦克风：");
    out.append(microphone);
    if let Some(warning) = warning {
        out.append(text::add2("；", warning).as_str());
    }
    out
}

/// The microphone was muted or is heard again, or neither.
pub fn microphone_done(muted: bool, done: Result<(), String>) -> (r: UiEvent)
    ensures
        match done {
            Ok(_) => r matches UiEvent::Notice { message, level } && level == NoticeLevel::Success
                && message@ == if muted {
                "麦克风已静音"@
            } else {
                "麦克风已取消静音"@
            },
            Err(error) => r == (UiEvent::Notice { message: error, level: NoticeLevel::Error }),
        },
{
    app_events::operation_notice(
        match done {
            Ok(_) => Ok(
                if muted {
                    "麦克风已静音".to_owned()
                } else {
                    "麦克风已取消静音".to_owned()
                },
            ),
            Err(error) => Err(error),
        },
    )
}

/// The broadcast was started, or was not.
pub fn stream_started(done: Result<(), String>) -> (r: UiEvent)
    ensures
        match done {
            Ok(_) => r matches UiEvent::Notice { message, level } && level == NoticeLevel::Success
                && message@ == "OBS 已开始推流"@,
            Err(error) => r == (UiEvent::Notice { message: error, level: NoticeLevel::Error }),
        },
{
    app_events::operation_notice(
        match done {
            Ok(_) => Ok("OBS 已开始推流".to_owned()),
            Err(error) => Err(error),
        },
    )
}

/// The room could not be read again; what is known of it stays.
pub fn room_refresh_failed(error: &str) -> (r: UiEvent)
    ensures
        r matches UiEvent::Notice { message, level } && level == NoticeLevel::Error && message@
            == "房间数据刷新失败，继续显示上次成功值："@ + error@,
{
    UiEvent::Notice {
        message: text::add2("房间数据刷新失败，继续显示上次成功值：", error),
        level: NoticeLevel::Error,
    }
}

/// The main account could not be signed in; the account before it stays.
pub fn login_failed(token: u64, reason: &str) -> (r: UiEvent)
    ensures
        r matches UiEvent::LoginFailed { token: failed, message } && failed == token && message@
            == "主账号登录失败，原账号未更改："@ + reason@,
{
    UiEvent::LoginFailed {
        token,
        message: text::add2("主账号登录失败，原账号未更改：", reason),
    }
}

/// What becomes of a message whose echo was still watched for after it had ended: a late echo
/// confirms it, and nothing is sent again.
pub fn late_echo(id: String, came: bool) -> (r: Vec<UiEvent>)
    ensures
        came ==> r@.len() == 3 && r@[0] is DeliveryCompleted && (r@[1] matches
            UiEvent::DeliveryNotice(message) && message@ == "原段迟到回显已确认；不自动重发"@)
            && r@[2] == UiEvent::DeliveryExpired(id),
        !came ==> r@ == seq![UiEvent::DeliveryExpired(id)],
{
    let mut events: Vec<UiEvent> = Vec::new();
    if came {
        events.push(UiEvent::DeliveryCompleted);
        events.push(UiEvent::DeliveryNotice("原段迟到回显已确认；不自动重发".to_owned()));
    }
    events.push(UiEvent::DeliveryExpired(id));
    events
}

/// The board after an event was noted down, or was not. The archive itself matters most, and is
/// told last.
pub open spec fn noting_told(
    board: notice::BoardView,
    history: Result<(), String>,
    archive: Result<(), String>,
    now: u64,
) -> notice::BoardView {
    let indexed = match history {
        Ok(_) => board,
        Err(error) => board.noticed(
            "历史索引未更新；原件仍单独保存："@ + error@,
            NoticeLevel::Error,
            now,
        ),
    };
    match archive {
        Ok(_) => indexed,
        Err(error) => indexed.noticed(
            "直播原始归档或工作区副本未完整保存："@ + error@,
            NoticeLevel::Error,
            now,
        ),
    }
}

impl TerminalApp {
    /// An event that was taken in was noted down, or was not.
    pub fn event_noted(&mut self, history: Result<(), String>, archive: Result<(), String>, now: u64)
        requires
            old(self).wf(),
            now <= activity::LAST_INSTANT,
        ensures
            final(self).wf(),
            app_events::only_status(
                *old(self),
                *final(self),
                noting_told(old(self).stream.board@, history, archive, now),
            ),
    {
        if let Err(error) = history {
            self.say(
                text::add2("历史索引未更新；原件仍单独保存：", error.as_str()).as_str(),
                NoticeLevel::Error,
                now,
            );
        }
        if let Err(error) = archive {
            self.say(
                text::add2("直播原始归档或工作区副本未完整保存：", error.as_str()).as_str(),
                NoticeLevel::Error,
                now,
            );
        }
    }

    /// The assistant was to be started. Where its tool is not there, the page of the tools opens
    /// and says so.
    pub fn assistant_started(
        &mut self,
        program: Result<(), String>,
        started: Result<(), String>,
        now: u64,
    ) -> (r: Result<(), String>)
        requires
            old(self).wf(),
            now <= activity::LAST_INSTANT,
        ensures
            final(self).wf(),
            match program {
                Err(error) => if app_commands::may_open(*old(self)) {
                    &&& r is Ok
                    &&& *final(self) == (TerminalApp { panel: final(self).panel, ..*old(self) })
                    &&& final(self).panel matches Some(panel)
                    &&& panel.page == Page::Models
                    &&& panel.row == 0
                    &&& text::opt_view(panel.error) == Some("AI 工具未就绪："@ + error@)
                    &&& panel.editor is None
                    &&& panel.choices is None
                    &&& panel.history@.len() == 0
                } else {
                    &&& r matches Err(said)
                    &&& said@ == "请先完成当前编辑或弹窗；人工草稿保留"@
                    &&& *final(self) == *old(self)
                },
                Ok(_) => match started {
                    Ok(_) => r is Ok && app::only_said(
                        *old(self),
                        *final(self),
                        "AI启动请求已提交"@,
                        NoticeLevel::Info,
                        now,
                    ),
                    Err(_) => r == started && *final(self) == *old(self),
                },
            },
    {
        if let Err(error) = program {
            if !self.can_open() {
                return Err("请先完成当前编辑或弹窗；人工草稿保留".to_owned());
            }
            let mut panel: Panel = Panel::open_direct(Page::Models);
            panel.error = Some(text::add2("AI 工具未就绪：", error.as_str()));
            self.panel = Some(panel);
            return Ok(());
        }
        if started.is_ok() {
            self.say("AI启动请求已提交", NoticeLevel::Info, now);
        }
        started
    }
}

} // verus!
