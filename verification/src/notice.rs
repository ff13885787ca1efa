//! The notice below the feed, and the mark that says how far a message got.
use vstd::prelude::*;
use vstd::string::*;

use crate::activity;

verus! {

/// How long a notice about a delivery stays, in milliseconds.
pub const DELIVERY_NOTICE_LIFETIME: u64 = 15000;

#[derive(Clone, Copy, Debug, PartialEq, Eq, Structural)]
pub enum NoticeLevel {
    Info,
    Success,
    Warning,
    Error,
    Progress,
}

/// How long a notice of a level stays: information passes, what asks for attention stays.
pub open spec fn level_lifetime(level: NoticeLevel) -> Option<u64> {
    match level {
        NoticeLevel::Info | NoticeLevel::Success => Some(3000),
        NoticeLevel::Warning | NoticeLevel::Error | NoticeLevel::Progress => None,
    }
}

impl NoticeLevel {
    /// How long a notice of this level stays, in milliseconds.
    pub fn lifetime(self) -> (r: Option<u64>)
        ensures
            r == level_lifetime(self),
    {
        match self {
            NoticeLevel::Info | NoticeLevel::Success => Some(3000),
            NoticeLevel::Warning | NoticeLevel::Error | NoticeLevel::Progress => None,
        }
    }
}

#[derive(Clone, Copy, Debug, PartialEq, Eq, Structural)]
pub enum DeliveryStatus {
    Idle,
    Sending,
    AwaitingEcho,
    Verifying,
    Delivered,
    Uncertain,
    Failed,
}

/// How long the mark of a delivery stays: a result passes, what is under way stays.
pub open spec fn status_lifetime(status: DeliveryStatus) -> Option<u64> {
    match status {
        DeliveryStatus::Delivered => Some(3000),
        DeliveryStatus::Uncertain | DeliveryStatus::Failed => Some(DELIVERY_NOTICE_LIFETIME),
        _ => None,
    }
}

/// The instant at which something of a lifetime ends.
pub open spec fn deadline(now: u64, lifetime: Option<u64>) -> Option<u64> {
    match lifetime {
        Some(lifetime) => Some((now + lifetime) as u64),
        None => None,
    }
}

/// Whether a deadline has passed.
pub open spec fn is_over(deadline: Option<u64>, now: u64) -> bool {
    deadline is Some && now >= deadline->0
}

/// The notice on the screen and the mark of the last delivery.
pub struct NoticeBoard {
    pub notice: String,
    pub notice_deadline: Option<u64>,
    pub notice_is_delivery: bool,
    pub notice_level: NoticeLevel,
    pub delivery_status: DeliveryStatus,
    pub delivery_status_deadline: Option<u64>,
}

/// The board as contracts speak of it.
pub ghost struct BoardView {
    pub notice: Seq<char>,
    pub notice_deadline: Option<u64>,
    pub notice_is_delivery: bool,
    pub notice_level: NoticeLevel,
    pub delivery_status: DeliveryStatus,
    pub delivery_status_deadline: Option<u64>,
}

impl View for NoticeBoard {
    type V = BoardView;

    open spec fn view(&self) -> BoardView {
        BoardView {
            notice: self.notice@,
            notice_deadline: self.notice_deadline,
            notice_is_delivery: self.notice_is_delivery,
            notice_level: self.notice_level,
            delivery_status: self.delivery_status,
            delivery_status_deadline: self.delivery_status_deadline,
        }
    }
}

impl BoardView {
    pub open spec fn noticed(self, message: Seq<char>, level: NoticeLevel, now: u64) -> BoardView {
        BoardView {
            notice: message,
            notice_deadline: deadline(now, level_lifetime(level)),
            notice_is_delivery: false,
            notice_level: level,
            ..self
        }
    }

    pub open spec fn delivery_noticed(self, message: Seq<char>, now: u64) -> BoardView {
        BoardView {
            notice: message,
            notice_deadline: deadline(now, Some(DELIVERY_NOTICE_LIFETIME)),
            notice_is_delivery: true,
            notice_level: NoticeLevel::Warning,
            ..self
        }
    }

    pub open spec fn with_status(self, status: DeliveryStatus, now: u64) -> BoardView {
        BoardView {
            delivery_status: status,
            delivery_status_deadline: deadline(now, status_lifetime(status)),
            ..self
        }
    }

    /// The board without what has passed.
    pub open spec fn expired(self, now: u64) -> BoardView {
        BoardView {
            notice: if is_over(self.notice_deadline, now) {
                Seq::empty()
            } else {
                self.notice
            },
            notice_deadline: if is_over(self.notice_deadline, now) {
                None
            } else {
                self.notice_deadline
            },
            delivery_status: if is_over(self.delivery_status_deadline, now) {
                DeliveryStatus::Idle
            } else {
                self.delivery_status
            },
            delivery_status_deadline: if is_over(self.delivery_status_deadline, now) {
                None
            } else {
                self.delivery_status_deadline
            },
            ..self
        }
    }

    /// The board when a delivery has gone through: notices about deliveries go, others stay.
    pub open spec fn completed(self, others_pending: bool, now: u64) -> BoardView {
        let cleared = if self.notice_is_delivery {
            BoardView {
                notice: Seq::empty(),
                notice_deadline: None,
                notice_is_delivery: false,
                ..self
            }
        } else {
            self
        };
        cleared.with_status(
            if others_pending {
                DeliveryStatus::AwaitingEcho
            } else {
                DeliveryStatus::Delivered
            },
            now,
        )
    }
}

impl NoticeBoard {
    /// An empty board.
    pub fn new() -> (r: Self)
        ensures
            r@ == (BoardView {
                notice: Seq::empty(),
                notice_deadline: None,
                notice_is_delivery: false,
                notice_level: NoticeLevel::Info,
                delivery_status: DeliveryStatus::Idle,
                delivery_status_deadline: None,
            }),
    {
        NoticeBoard {
            notice: String::new(),
            notice_deadline: None,
            notice_is_delivery: false,
            notice_level: NoticeLevel::Info,
            delivery_status: DeliveryStatus::Idle,
            delivery_status_deadline: None,
        }
    }

    pub fn set_notice_at(&mut self, message: String, level: NoticeLevel, now: u64)
        requires
            now <= activity::LAST_INSTANT,
        ensures
            final(self)@ == old(self)@.noticed(message@, level, now),
    {
        self.notice = message;
        self.notice_deadline = match level.lifetime() {
            Some(lifetime) => Some(now + lifetime),
            None => None,
        };
        self.notice_is_delivery = false;
        self.notice_level = level;
    }

    /// Puts a fixed text on the board.
    pub fn say(&mut self, message: &str, level: NoticeLevel, now: u64)
        requires
            now <= activity::LAST_INSTANT,
        ensures
            final(self)@ == old(self)@.noticed(message@, level, now),
    {
        self.set_notice_at(message.to_owned(), level, now);
    }

    pub fn set_delivery_notice(&mut self, message: String, now: u64)
        requires
            now <= activity::LAST_INSTANT,
        ensures
            final(self)@ == old(self)@.delivery_noticed(message@, now),
    {
        self.notice = message;
        self.notice_deadline = Some(now + DELIVERY_NOTICE_LIFETIME);
        self.notice_is_delivery = true;
        self.notice_level = NoticeLevel::Warning;
    }

    pub fn set_delivery_status_at(&mut self, status: DeliveryStatus, now: u64)
        requires
            now <= activity::LAST_INSTANT,
        ensures
            final(self)@ == old(self)@.with_status(status, now),
    {
        self.delivery_status = status;
        self.delivery_status_deadline = match status {
            DeliveryStatus::Delivered => Some(now + 3000),
            DeliveryStatus::Uncertain | DeliveryStatus::Failed => Some(
                now + DELIVERY_NOTICE_LIFETIME,
            ),
            _ => None,
        };
    }

    /// Takes off the board what has passed.
    pub fn expire_notice_at(&mut self, now: u64)
        ensures
            final(self)@ == old(self)@.expired(now),
    {
        if let Some(deadline) = self.notice_deadline {
            if now >= deadline {
                self.notice = String::new();
                self.notice_deadline = None;
            }
        }
        if let Some(deadline) = self.delivery_status_deadline {
            if now >= deadline {
                self.delivery_status = DeliveryStatus::Idle;
                self.delivery_status_deadline = None;
            }
        }
    }

    /// Notes that a delivery has gone through.
    pub fn complete_delivery(&mut self, others_pending: bool, now: u64)
        requires
            now <= activity::LAST_INSTANT,
        ensures
            final(self)@ == old(self)@.completed(others_pending, now),
    {
        if self.notice_is_delivery {
            self.notice = String::new();
            self.notice_deadline = None;
            self.notice_is_delivery = false;
        }
        if others_pending {
            self.set_delivery_status_at(DeliveryStatus::AwaitingEcho, now);
        } else {
            self.set_delivery_status_at(DeliveryStatus::Delivered, now);
        }
    }
}

/// Warnings, errors and progress stay until something else is said; the others are gone three
/// seconds later and not before.
pub proof fn law_only_information_passes(
    board: BoardView,
    message: Seq<char>,
    level: NoticeLevel,
    said: u64,
    now: u64,
)
    requires
        said <= activity::LAST_INSTANT,
        message.len() > 0,
    ensures
        ({
            let later = board.noticed(message, level, said).expired(now);
            if level == NoticeLevel::Info || level == NoticeLevel::Success {
                later.notice == (if now >= said + 3000 {
                    Seq::empty()
                } else {
                    message
                })
            } else {
                later.notice == message
            }
        }),
{
}

/// A delivery that goes through takes a notice about deliveries off the board and no other.
pub proof fn law_success_clears_only_delivery_notices(
    board: BoardView,
    others_pending: bool,
    now: u64,
)
    ensures
        board.notice_is_delivery ==> board.completed(others_pending, now).notice.len() == 0,
        !board.notice_is_delivery ==> board.completed(others_pending, now).notice == board.notice,
{
}

/// That a message arrived is told for three seconds, that one failed or may have for fifteen; what
/// is still going on stays until it changes.
pub proof fn law_delivery_statuses_pass(
    board: BoardView,
    status: DeliveryStatus,
    told: u64,
    now: u64,
)
    requires
        told <= activity::LAST_INSTANT,
        status != DeliveryStatus::Idle,
    ensures
        ({
            let later = board.with_status(status, told).expired(now);
            let passes = if status == DeliveryStatus::Delivered {
                now >= told + 3000
            } else {
                (status == DeliveryStatus::Uncertain || status == DeliveryStatus::Failed) && now
                    >= told + 15000
            };
            later.delivery_status == if passes {
                DeliveryStatus::Idle
            } else {
                status
            }
        }),
{
}

/// A message that arrived is told as such only where no other is on its way, and nothing but the
/// notice about sending is cleared.
pub proof fn law_an_arrival_is_told_when_all_have_arrived(
    board: BoardView,
    others_pending: bool,
    now: u64,
)
    ensures
        board.completed(others_pending, now).delivery_status == DeliveryStatus::Delivered
            <==> !others_pending,
        others_pending ==> board.completed(others_pending, now).delivery_status
            == DeliveryStatus::AwaitingEcho,
        board.completed(others_pending, now).notice_level == board.notice_level,
{
}

/// What is said shows as it was said, at its level, and a later word takes the place of an earlier
/// one; the state of sending is not touched.
pub proof fn law_the_last_word_shows(
    board: BoardView,
    earlier: Seq<char>,
    message: Seq<char>,
    before: NoticeLevel,
    level: NoticeLevel,
    said: u64,
    now: u64,
)
    ensures
        board.noticed(earlier, before, said).noticed(message, level, now) == board.noticed(
            message,
            level,
            now,
        ),
        board.noticed(message, level, now).notice == message,
        board.noticed(message, level, now).notice_level == level,
        !board.noticed(message, level, now).notice_is_delivery,
        board.noticed(message, level, now).delivery_status == board.delivery_status,
        board.delivery_noticed(message, now).notice == message,
        board.delivery_noticed(message, now).notice_is_delivery,
        board.delivery_noticed(message, now).notice_level == NoticeLevel::Warning,
{
}

/// What has passed has no time left, and what is still shown has some or needs none; looking again
/// at the same moment changes nothing.
pub proof fn law_what_has_passed_stays_gone(board: BoardView, now: u64)
    ensures
        board.expired(now).expired(now) == board.expired(now),
        board.expired(now).notice_deadline is Some ==> now < board.expired(
            now,
        ).notice_deadline->0,
        board.expired(now).delivery_status_deadline is Some ==> now < board.expired(
            now,
        ).delivery_status_deadline->0,
        board.notice_deadline is Some && now < board.notice_deadline->0 ==> board.expired(
            now,
        ).notice_deadline == board.notice_deadline,
        board.expired(now).notice_level == board.notice_level,
{
}

} // verus!
