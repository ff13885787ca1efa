//! The texts that are shown of replies waiting for a decision.
use vstd::prelude::*;
use vstd::string::*;

use crate::review;
use crate::review::{Reply, Review};
use crate::segments;
use crate::text;
use crate::unicode;

verus! {

/// Whether a reply is addressed to someone.
pub open spec fn mention_text(reply: Reply) -> Seq<char> {
    match reply.reply_to {
        Some(target) => "原生@ "@ + target.username@ + " · UID "@ + target.user_id@,
        None => "普通回复 · 不@（未启用或原消息无有效UID）"@,
    }
}

fn mention(reply: &Reply) -> (r: String)
    ensures
        r@ == mention_text(*reply),
{
    match &reply.reply_to {
        Some(target) => {
            let mut out: String = text::add3("原生@ ", target.username.as_str(), " · UID ");
            out.append(target.user_id.as_str());
            out
        },
        None => "普通回复 · 不@（未启用或原消息无有效UID）".to_owned(),
    }
}

/// What a reply replaces, where it was reworded.
pub open spec fn repair_text(reply: Reply) -> Seq<char> {
    match reply.diagnosis {
        Some(detail) => "改写自 "@ + (match reply.retry_of {
            Some(id) => id@,
            None => "—"@,
        }) + " · "@ + detail@,
        None => ""@,
    }
}

fn repair(reply: &Reply) -> (r: String)
    ensures
        r@ == repair_text(*reply),
{
    match &reply.diagnosis {
        Some(detail) => {
            let mut out: String = match &reply.retry_of {
                Some(id) => text::add2("改写自 ", id.as_str()),
                None => text::add2("改写自 ", "—"),
            };
            out.append(" · ");
            out.append(detail.as_str());
            out
        },
        None => "".to_owned(),
    }
}

/// The first lines: who sends, which request it is, and whom it answers.
pub open spec fn heading_text(reply: Reply, account: Seq<char>) -> Seq<char> {
    "发送账号："@ + account + "\n"@ + reply.caller@ + " / "@ + reply.request_id@ + "\n原对象："@
        + review::target_text(reply) + "\n"@
}

fn heading(reply: &Reply, account: &str) -> (r: String)
    ensures
        r@ == heading_text(*reply, account@),
{
    let mut out: String = text::add3("发送账号：", account, "\n");
    out.append(reply.caller.as_str());
    out.append(" / ");
    out.append(reply.request_id.as_str());
    out.append("\n原对象：");
    out.append(review::original_target(reply).as_str());
    out.append("\n");
    out
}

pub open spec fn sent_text(reply: Reply, between: Seq<char>) -> Seq<char> {
    text::joined(segments::segments_of(reply.text@), between)
}

fn sent(reply: &Reply, between: &str) -> (r: String)
    ensures
        r@ == sent_text(*reply, between@),
{
    text::join(&segments::assistant_segments(reply.text.as_str()), between)
}

/// The full text of the reply that is shown.
pub open spec fn candidate_text(review: Review, candidates: Seq<Reply>, account: Seq<char>) -> Seq<
    char,
> {
    if review.frame matches Some(shown) && shown.delivery {
        let reply = review.frame->0.reply;
        heading_text(reply, account) + review::execution_text(reply.state) + "\n"@ + sent_text(
            reply,
            "\n"@,
        )
    } else {
        match review::selected_place(candidates, review.selected) {
            Some(i) => heading_text(candidates[i], account) + mention_text(candidates[i]) + "\n"@
                + sent_text(candidates[i], "\n"@) + "\n"@ + repair_text(candidates[i]),
            None => "没有需要确认的回复；人工输入不受影响"@,
        }
    }
}

impl Review {
    /// The full text of the reply that is shown.
    pub fn selected_candidate_text(&self, candidates: &Vec<Reply>, account: &str) -> (r: String)
        ensures
            r@ == candidate_text(*self, candidates@, account@),
    {
        if let Some(shown) = &self.frame {
            if shown.delivery {
                let mut out: String = heading(&shown.reply, account);
                out.append(review::delivery_label(shown.reply.state));
                out.append("\n");
                out.append(sent(&shown.reply, "\n").as_str());
                return out;
            }
        }
        match self.selected_at(candidates) {
            Some(at) => {
                let mut out: String = heading(&candidates[at], account);
                out.append(mention(&candidates[at]).as_str());
                out.append("\n");
                out.append(sent(&candidates[at], "\n").as_str());
                out.append("\n");
                out.append(repair(&candidates[at]).as_str());
                out
            },
            None => "没有需要确认的回复；人工输入不受影响".to_owned(),
        }
    }
}

/// The line above the message that is typed takes room where there is a reply to decide on.
pub open spec fn takes_line(review: Review, candidates: nat) -> bool {
    (review.frame matches Some(shown) && shown.delivery) || candidates != 0
}

pub fn review_height(review: &Review, candidates: usize) -> (r: u16)
    ensures
        r == if takes_line(*review, candidates as nat) {
            1u16
        } else {
            0
        },
{
    let follows: bool = match &review.frame {
        Some(shown) => shown.delivery,
        None => false,
    };
    if follows || candidates != 0 {
        1
    } else {
        0
    }
}

/// The line that tells of a reply, and the key for it.
#[derive(Debug)]
pub struct ReviewLine {
    pub text: String,
    pub hint: &'static str,
    /// The whole reply is on the line.
    pub complete: bool,
}

/// What stands before the reply on its line.
pub open spec fn line_prefix(
    reply: Reply,
    delivery: bool,
    candidates: nat,
    sender: Seq<char>,
) -> Seq<char> {
    (if delivery {
        review::execution_text(reply.state) + " · 待审 "@
    } else {
        "待审 "@
    }) + text::decimal_digits(candidates) + " · "@ + sender + " → "@ + review::target_text(reply)
        + " · "@
}

/// The reply and what stands before it fit their line together with the hint.
pub open spec fn line_complete(
    reply: Reply,
    delivery: bool,
    candidates: nat,
    sender: Seq<char>,
    width: int,
) -> bool {
    &&& !delivery
    &&& segments::segments_of(reply.text@).len() == 1
    &&& !reply.text@.contains('\n')
    &&& !reply.text@.contains('\r')
    &&& unicode::display_width(line_prefix(reply, delivery, candidates, sender))
        + unicode::display_width(sent_text(reply, " / "@)) + unicode::display_width("  ⇧↵发送"@) <= width
}

pub open spec fn line_hint(editing: bool, delivery: bool, complete: bool) -> Seq<char> {
    if editing {
        "  正在编辑 · 保存不发送"@
    } else if delivery {
        "  ⇧↵查看结果"@
    } else if complete {
        "  ⇧↵发送"@
    } else {
        "  ⇧↵展开"@
    }
}

/// The line that tells of the shown reply: as much of it as fits before the hint.
pub open spec fn is_line(
    review: Review,
    candidates: nat,
    sender: Seq<char>,
    width: u16,
    line: Option<ReviewLine>,
) -> bool {
    match review.frame {
        None => line is None,
        Some(shown) => {
            let prefix = line_prefix(shown.reply, shown.delivery, candidates, sender);
            let complete = line_complete(
                shown.reply,
                shown.delivery,
                candidates,
                sender,
                width as int,
            );
            let hint = line_hint(review.edit is Some, shown.delivery, complete);
            &&& line is Some
            &&& line->0.complete == complete
            &&& line->0.hint@ == hint
            &&& line->0.text@ == unicode::fitted(
                prefix + sent_text(shown.reply, " / "@),
                unicode::minus(width as int, unicode::display_width(hint) as int),
            )
        },
    }
}

impl Review {
    /// The line that tells of the shown reply.
    pub fn review_line(&self, candidates: usize, sender: &str, width: u16) -> (r: Option<ReviewLine>)
        ensures
            is_line(*self, candidates as nat, sender@, width, r),
    {
        match &self.frame {
            None => None,
            Some(shown) => {
                let pieces: Vec<String> = segments::assistant_segments(shown.reply.text.as_str());
                let body: String = text::join(&pieces, " / ");
                let mut prefix: String = if shown.delivery {
                    text::add2(review::delivery_label(shown.reply.state), " · 待审 ")
                } else {
                    "待审 ".to_owned()
                };
                prefix.append(text::decimal(candidates as u64).as_str());
                prefix.append(" · ");
                prefix.append(sender);
                prefix.append(" → ");
                prefix.append(review::original_target(&shown.reply).as_str());
                prefix.append(" · ");
                let broken: bool = text::contains_char(shown.reply.text.as_str(), '\n')
                    || text::contains_char(shown.reply.text.as_str(), '\r');
                proof {
                    assert(text::views(pieces@).len() == pieces@.len());
                }
                let room: usize = width as usize;
                let before: usize = unicode::width_of(prefix.as_str());
                let inside: usize = unicode::width_of(body.as_str());
                let behind: usize = unicode::width_of("  ⇧↵发送");
                let fits: bool = before <= room && inside <= room - before && behind <= room
                    - before - inside;
                let complete: bool = !shown.delivery && pieces.len() == 1 && !broken && fits;
                let hint: &'static str = if self.edit.is_some() {
                    "  正在编辑 · 保存不发送"
                } else if shown.delivery {
                    "  ⇧↵查看结果"
                } else if complete {
                    "  ⇧↵发送"
                } else {
                    "  ⇧↵展开"
                };
                let available: usize = room.saturating_sub(unicode::width_of(hint));
                let text: String = unicode::fit_display_width(
                    text::add2(prefix.as_str(), body.as_str()).as_str(),
                    available,
                );
                Some(ReviewLine { text, hint, complete })
            },
        }
    }

    /// The reply was shown on its line: whether it can be seen, and as a whole.
    pub fn shown_on_line(&mut self, visible: bool, complete: bool)
        requires
            old(self).wf(),
        ensures
            final(self).wf(),
            *final(self) == (Review { frame: final(self).frame, ..*old(self) }),
            final(self).frame == match old(self).frame {
                Some(shown) => Some(review::ReviewFrame { visible, complete, ..shown }),
                None => None,
            },
    {
        if let Some(shown) = &mut self.frame {
            shown.visible = visible;
            shown.complete = complete;
        }
    }
}

/// A reply counts as seen on its line only where no part of it was cut off.
pub proof fn law_a_cut_reply_is_not_complete(
    reply: Reply,
    candidates: nat,
    sender: Seq<char>,
    width: nat,
)
    requires
        line_complete(reply, false, candidates, sender, width as int),
        unicode::display_width(
            line_prefix(reply, false, candidates, sender) + sent_text(reply, " / "@),
        ) <= unicode::display_width(line_prefix(reply, false, candidates, sender))
            + unicode::display_width(sent_text(reply, " / "@)),
    ensures
        unicode::fitted(
            line_prefix(reply, false, candidates, sender) + sent_text(reply, " / "@),
            unicode::minus(
                width as int,
                unicode::display_width(line_hint(false, false, true)) as int,
            ),
        ) == line_prefix(reply, false, candidates, sender) + sent_text(reply, " / "@),
{
}

/// A reply can be sent from its line only where the line shows all of it: one message, on one line,
/// that has room together with what is told of it.
pub proof fn law_what_a_whole_line_takes(
    reply: Reply,
    delivery: bool,
    candidates: nat,
    sender: Seq<char>,
    width: int,
)
    ensures
        line_complete(reply, delivery, candidates, sender, width) ==> !delivery
            && segments::segments_of(reply.text@).len() == 1 && forall|i: int|
            0 <= i < reply.text@.len() ==> reply.text@[i] != '\n' && reply.text@[i] != '\r',
        line_complete(reply, delivery, candidates, sender, width) ==> unicode::display_width(
            sent_text(reply, " / "@),
        ) <= width,
{
    if line_complete(reply, delivery, candidates, sender, width) {
        assert forall|i: int| 0 <= i < reply.text@.len() implies reply.text@[i] != '\n'
            && reply.text@[i] != '\r' by {
            assert(!reply.text@.contains('\n'));
            assert(!reply.text@.contains('\r'));
        }
    }
}

/// The line offers to send only what it shows whole, and never while a reply is edited or was
/// decided.
pub proof fn law_sending_is_offered_for_whole_lines(editing: bool, delivery: bool, complete: bool)
    ensures
        line_hint(editing, delivery, complete) == "  ⇧↵发送"@ <==> !editing && !delivery && complete,
{
    reveal_strlit("  正在编辑 · 保存不发送");
    reveal_strlit("  ⇧↵查看结果");
    reveal_strlit("  ⇧↵发送");
    reveal_strlit("  ⇧↵展开");
    assert("  ⇧↵发送"@.len() == 6 && "  ⇧↵展开"@.len() == 6);
    assert("  ⇧↵发送"@[4] == '发' && "  ⇧↵展开"@[4] == '展');
    assert("  ⇧↵查看结果"@.len() == 8 && "  正在编辑 · 保存不发送"@.len() == 14);
}

/// Opened, a reply is shown with the account that sends it and with all the messages that are sent
/// for it.
pub proof fn law_an_opened_reply_is_shown_whole(
    review: Review,
    candidates: Seq<Reply>,
    account: Seq<char>,
    at: int,
)
    requires
        review.frame is None || !review.frame->0.delivery,
        review::selected_place(candidates, review.selected) == Some(at),
    ensures
        text::occurs_in(
            sent_text(candidates[at], "\n"@),
            candidate_text(review, candidates, account),
        ),
        text::has_prefix(candidate_text(review, candidates, account), "发送账号："@ + account),
{
    let reply = candidates[at];
    let whole = candidate_text(review, candidates, account);
    let head = heading_text(reply, account) + mention_text(reply) + "\n"@;
    let body = sent_text(reply, "\n"@);
    let tail = "\n"@ + repair_text(reply);
    assert(whole =~= head + body + tail);
    assert(whole.subrange(head.len() as int, (head.len() + body.len()) as int) =~= body);
    assert(text::matches_at(whole, body, head.len() as int));
    let first = "发送账号："@ + account;
    assert(whole.subrange(0, first.len() as int) =~= first);
}

} // verus!
