//! Decisions about the assistant's replies, once they were carried out, and what is told of them.
use vstd::prelude::*;
use vstd::string::*;

use crate::activity;
use crate::app;
use crate::app::TerminalApp;
use crate::domain::AccountStatus;
use crate::notice::NoticeLevel;
use crate::review;
use crate::review::{Reply, Review, ReviewFrame, ReviewProblem};
use crate::review_text;
use crate::review_text::ReviewLine;
use crate::text;

verus! {

/// What is said once all replies were decided.
pub open spec fn all_decided_text(approve: bool, count: nat) -> Seq<char> {
    "已"@ + (if approve {
        "批准发送"@
    } else {
        "丢弃"@
    }) + " "@ + text::decimal_digits(count) + " 条待审回复；不改变自动发送授权"@
}

/// What became of a decision about replies: it was not carried out where the check stands against
/// it, and changes nothing where it failed.
pub open spec fn decided(
    before: TerminalApp,
    after: TerminalApp,
    r: Result<(), String>,
    check: Result<(), ReviewProblem>,
    outcome: Result<(), String>,
    frame: Option<ReviewFrame>,
    message: Seq<char>,
    now: u64,
) -> bool {
    match check {
        Err(problem) => {
            &&& r matches Err(said) && said@ == review::review_problem_text(problem)
            &&& after == before
        },
        Ok(_) => {
            &&& r == outcome
            &&& match outcome {
                Ok(_) => app::only_said(
                    TerminalApp { review: Review { frame, ..before.review }, ..before },
                    after,
                    message,
                    NoticeLevel::Info,
                    now,
                ),
                Err(_) => after == before,
            }
        },
    }
}

/// Whom a reply is sent as, as its line names them.
pub open spec fn sender_text(app: TerminalApp) -> Seq<char> {
    match app.automation.accounts.sender(app.account_status) {
        AccountStatus::SignedIn { display_name, .. } => display_name@,
        AccountStatus::SignedOut => "未登录"@,
    }
}

/// The line of the reply is not shown: it has no room, or something is open in its place.
pub open spec fn line_hidden(app: TerminalApp, candidates: nat, width: u16, height: u16) -> bool {
    width == 0 || height == 0 || !review_text::takes_line(app.review, candidates)
        || app.panel is Some || app.desk.search is Some
}

/// The reply on its line can be decided on: nothing else takes the keys.
pub open spec fn line_visible(app: TerminalApp) -> bool {
    app.review.edit is None && !app.desk.secret_mode && app.desk.stop_flow is None
        && app.desk.login_qr is None
}

/// The reply was shown on its line.
pub open spec fn line_shown(
    before: TerminalApp,
    after: TerminalApp,
    candidates: Seq<Reply>,
    width: u16,
    line: Option<ReviewLine>,
) -> bool {
    exists|ready: Review|
        {
            &&& #[trigger] review::prepared(
                before.review,
                ready,
                false,
                candidates,
                before.identity_generation(),
            )
            &&& review_text::is_line(ready, candidates.len(), sender_text(before), width, line)
            &&& after == (TerminalApp {
                review: Review {
                    frame: match ready.frame {
                        Some(shown) => Some(
                            ReviewFrame {
                                visible: line_visible(before),
                                complete: review_text::line_complete(
                                    shown.reply,
                                    shown.delivery,
                                    candidates.len(),
                                    sender_text(before),
                                    width as int,
                                ),
                                ..shown
                            },
                        ),
                        None => None,
                    },
                    ..ready
                },
                ..before
            })
        }
}

/// The selected reply was shown on the page of replies.
pub open spec fn body_shown(
    before: TerminalApp,
    after: TerminalApp,
    candidates: Seq<Reply>,
    width: u16,
    height: u16,
    scroll: u16,
    lines: Seq<Seq<char>>,
    at: u16,
) -> bool {
    exists|ready: Review|
        {
            &&& #[trigger] review::prepared(
                before.review,
                ready,
                true,
                candidates,
                before.identity_generation(),
            )
            &&& lines == review::body_of(
                review_text::candidate_text(
                    ready,
                    candidates,
                    before.automation.accounts.label_text(before.account_status),
                ),
                width as nat,
            )
            &&& at == review::scroll_of(lines.len(), height, scroll)
            &&& after == (TerminalApp {
                review: review::looked(ready, lines, width, height, scroll),
                ..before
            })
        }
}

/// A reply that is covered by something else, or does not fit its line, cannot be approved there.
pub proof fn law_only_a_visible_line_is_approved(
    before: TerminalApp,
    after: TerminalApp,
    candidates: Seq<Reply>,
    width: u16,
    line: Option<ReviewLine>,
)
    requires
        line_shown(before, after, candidates, width, line),
        review::review_check(
            after.review.frame,
            true,
            candidates,
            after.identity_generation(),
        ) is Ok,
    ensures
        line_visible(before),
        line is Some && line->0.complete,
{
}

impl TerminalApp {
    /// The number of changes of the sending identity.
    pub open spec fn identity_generation(self) -> u64 {
        self.automation.accounts.gate.generation
    }

    /// The shown reply, to be handed on for a decision; it has been looked at as a whole where
    /// `whole` asks for that.
    pub fn reviewed_reply(&self, whole: bool, candidates: &Vec<Reply>) -> (r: Result<Reply, String>)
        ensures
            match review::review_check(
                self.review.frame,
                whole,
                candidates@,
                self.identity_generation(),
            ) {
                Ok(_) => r matches Ok(reply) && reply == self.review.frame->0.reply,
                Err(problem) => r matches Err(said) && said@ == review::review_problem_text(
                    problem,
                ),
            },
    {
        match self.review.reviewed_reply(whole, candidates, self.automation.accounts.generation()) {
            Err(problem) => Err(problem.message().to_owned()),
            Ok(_) => match &self.review.frame {
                Some(shown) => Ok(shown.reply.copy()),
                None => Err(ReviewProblem::NotShown.message().to_owned()),
            },
        }
    }

    /// The shown reply was approved, or could not be. Only a reply that was seen as a whole, in its
    /// present wording, is approved, and the approval is for this reply alone.
    pub fn approve_review(
        &mut self,
        candidates: &Vec<Reply>,
        approved: Result<(), String>,
        now: u64,
    ) -> (r: Result<(), String>)
        requires
            old(self).wf(),
            now <= activity::LAST_INSTANT,
        ensures
            final(self).wf(),
            decided(
                *old(self),
                *final(self),
                r,
                review::review_check(
                    old(self).review.frame,
                    true,
                    candidates@,
                    old(self).identity_generation(),
                ),
                approved,
                review::approved_frame(old(self).review.frame),
                "本条已批准；不授予自动权限，等待发送结果"@,
                now,
            ),
    {
        let generation: u64 = self.automation.accounts.generation();
        if let Err(problem) = self.review.reviewed_reply(true, candidates, generation) {
            return Err(problem.message().to_owned());
        }
        if approved.is_ok() {
            self.review.approve_review();
            self.say("本条已批准；不授予自动权限，等待发送结果", NoticeLevel::Info, now);
        }
        approved
    }

    /// The shown reply was discarded, or could not be.
    pub fn discard_review(
        &mut self,
        candidates: &Vec<Reply>,
        discarded: Result<(), String>,
        now: u64,
    ) -> (r: Result<(), String>)
        requires
            old(self).wf(),
            now <= activity::LAST_INSTANT,
        ensures
            final(self).wf(),
            decided(
                *old(self),
                *final(self),
                r,
                review::review_check(
                    old(self).review.frame,
                    false,
                    candidates@,
                    old(self).identity_generation(),
                ),
                discarded,
                None,
                "回复已丢弃"@,
                now,
            ),
    {
        let generation: u64 = self.automation.accounts.generation();
        if let Err(problem) = self.review.reviewed_reply(false, candidates, generation) {
            return Err(problem.message().to_owned());
        }
        if discarded.is_ok() {
            self.review.discard_review();
            self.say("回复已丢弃", NoticeLevel::Info, now);
        }
        discarded
    }

    /// Whether a decision about all replies may be handed on.
    pub fn reviewed_all(&self, session: &str, candidates: &Vec<Reply>) -> (r: Result<(), String>)
        ensures
            match review::all_check(
                self.review.frame,
                session@,
                candidates@.len(),
                self.identity_generation(),
            ) {
                Ok(_) => r is Ok,
                Err(problem) => r matches Err(said) && said@ == review::review_problem_text(
                    problem,
                ),
            },
    {
        match self.review.check_all(
            session,
            candidates.len(),
            self.automation.accounts.generation(),
        ) {
            Ok(_) => Ok(()),
            Err(problem) => Err(problem.message().to_owned()),
        }
    }

    /// All replies that wait were approved or discarded, or could not be. The list has to be open,
    /// for the present scene and identity.
    pub fn review_all_candidates(
        &mut self,
        approve: bool,
        session: &str,
        candidates: &Vec<Reply>,
        outcome: Result<(), String>,
        now: u64,
    ) -> (r: Result<(), String>)
        requires
            old(self).wf(),
            now <= activity::LAST_INSTANT,
        ensures
            final(self).wf(),
            decided(
                *old(self),
                *final(self),
                r,
                review::all_check(
                    old(self).review.frame,
                    session@,
                    candidates@.len(),
                    old(self).identity_generation(),
                ),
                outcome,
                review::all_decided_frame(old(self).review.frame, approve),
                all_decided_text(approve, candidates@.len()),
                now,
            ),
    {
        if let Err(said) = self.reviewed_all(session, candidates) {
            return Err(said);
        }
        if outcome.is_ok() {
            self.review.review_all_candidates(approve);
            let how: &str = if approve {
                "批准发送"
            } else {
                "丢弃"
            };
            let mut message: String = text::add3("已", how, " ");
            message.append(text::decimal(candidates.len() as u64).as_str());
            message.append(" 条待审回复；不改变自动发送授权");
            self.say(message.as_str(), NoticeLevel::Info, now);
        }
        outcome
    }

    /// Shows the reply on the line above the message that is typed, where there is room for it and
    /// nothing is open in its place. The reply counts as visible unless something else takes the
    /// keys, and as seen where it fits its line.
    pub fn show_review(&mut self, candidates: &Vec<Reply>, width: u16, height: u16) -> (r: Option<
        ReviewLine,
    >)
        requires
            old(self).wf(),
        ensures
            final(self).wf(),
            if line_hidden(*old(self), candidates@.len(), width, height) {
                r is None && *final(self) == *old(self)
            } else {
                line_shown(*old(self), *final(self), candidates@, width, r)
            },
    {
        if width == 0 || height == 0 || review_text::review_height(&self.review, candidates.len())
            == 0 || self.panel.is_some() || self.desk.search.is_some() {
            return None;
        }
        let generation: u64 = self.automation.accounts.generation();
        self.review.prepare_review(false, candidates, generation);
        let ghost ready = self.review;
        let line: Option<ReviewLine> = {
            let sender: &str = match self.automation.accounts.status(&self.account_status) {
                AccountStatus::SignedIn { display_name, .. } => display_name.as_str(),
                AccountStatus::SignedOut => "未登录",
            };
            self.review.review_line(candidates.len(), sender, width)
        };
        let visible: bool = self.review.edit.is_none() && !self.desk.secret_mode
            && self.desk.stop_flow.is_none() && self.desk.login_qr.is_none();
        if let Some(line) = &line {
            self.review.shown_on_line(visible, line.complete);
        }
        proof {
            assert(generation == old(self).identity_generation());
            assert(review::prepared(old(self).review, ready, false, candidates@, generation));
            assert(*self == (TerminalApp { review: self.review, ..*old(self) }));
        }
        line
    }

    /// Shows the replies on their page: the lines of the selected one at a width, and how far they
    /// are scrolled; nothing where none waits. What was looked at counts as seen.
    pub fn show_review_body(
        &mut self,
        candidates: &Vec<Reply>,
        width: u16,
        height: u16,
        scroll: u16,
    ) -> (r: Option<(Vec<String>, u16)>)
        requires
            old(self).wf(),
        ensures
            final(self).wf(),
            if candidates@.len() == 0 {
                r is None && *final(self) == (TerminalApp {
                    review: Review { frame: None, ..old(self).review },
                    ..*old(self)
                })
            } else {
                r matches Some((lines, at)) && body_shown(
                    *old(self),
                    *final(self),
                    candidates@,
                    width,
                    height,
                    scroll,
                    text::views(lines@),
                    at,
                )
            },
    {
        if candidates.len() == 0 {
            self.review.discard_review();
            return None;
        }
        let generation: u64 = self.automation.accounts.generation();
        self.review.prepare_review(true, candidates, generation);
        let ghost ready = self.review;
        let account: String = self.automation.accounts.label(&self.account_status);
        let detail: String = self.review.selected_candidate_text(candidates, account.as_str());
        let lines: Vec<String> = review::body_lines(detail.as_str(), width as usize);
        proof {
            assert(text::views(lines@).len() == lines@.len());
        }
        let at: u16 = self.review.look(&lines, width, height, scroll);
        proof {
            assert(generation == old(self).identity_generation());
            assert(review::prepared(old(self).review, ready, true, candidates@, generation));
            assert(*self == (TerminalApp { review: self.review, ..*old(self) }));
        }
        Some((lines, at))
    }

    /// Goes to the next reply that waits. One that is still being sent stays, and the board says
    /// so.
    pub fn next_candidate(&mut self, candidates: &Vec<Reply>, now: u64)
        requires
            old(self).wf(),
            now <= activity::LAST_INSTANT,
        ensures
            final(self).wf(),
            review::next_shown(
                old(self).review,
                final(self).review,
                review::still_sending(old(self).review),
                candidates@,
            ),
            ({
                let moved = TerminalApp { review: final(self).review, ..*old(self) };
                if review::still_sending(old(self).review) {
                    app::only_said(
                        moved,
                        *final(self),
                        "本条仍在发送，请等待结果，不重发"@,
                        NoticeLevel::Info,
                        now,
                    )
                } else {
                    *final(self) == moved
                }
            }),
    {
        if self.review.next_candidate(candidates) {
            self.say("本条仍在发送，请等待结果，不重发", NoticeLevel::Info, now);
        }
    }
}

/// A decision about replies changes what is shown only where the check allowed it and it was
/// carried out, and never gives the permission to send automatically.
pub proof fn law_approving_permits_nothing(
    before: TerminalApp,
    after: TerminalApp,
    r: Result<(), String>,
    check: Result<(), ReviewProblem>,
    outcome: Result<(), String>,
    frame: Option<ReviewFrame>,
    message: Seq<char>,
    now: u64,
)
    requires
        decided(before, after, r, check, outcome, frame, message, now),
    ensures
        after.automation == before.automation,
        after.desk == before.desk,
        r is Ok <==> check is Ok && outcome is Ok,
        r is Err ==> after == before,
{
}

} // verus!
