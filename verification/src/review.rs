//! Replies of the assistant that wait for a person: what is shown, seen, edited and approved.
use vstd::prelude::*;
use vstd::string::*;

use crate::input::EditorInput;
use crate::keys::{KeyCode, KeyEvent, KeyKind};
use crate::text;
use crate::unicode;

verus! {

/// How far a reply has come.
#[derive(Clone, Copy, Debug, PartialEq, Eq, Structural)]
pub enum Execution {
    AwaitingApproval,
    Accepted,
    Sending,
    Confirmed,
    Uncertain,
    Rejected,
    Cancelled,
}

pub open spec fn execution_text(state: Execution) -> Seq<char> {
    match state {
        Execution::Accepted | Execution::Sending => "发送中 · 待回显"@,
        Execution::Uncertain => "未确认送达，不自动重发"@,
        Execution::Rejected => "发送被拒绝"@,
        Execution::Cancelled => "发送已取消"@,
        Execution::Confirmed => "已确认送达"@,
        Execution::AwaitingApproval => "需要确认的回复"@,
    }
}

pub fn delivery_label(state: Execution) -> (r: &'static str)
    ensures
        r@ == execution_text(state),
{
    match state {
        Execution::Accepted | Execution::Sending => "发送中 · 待回显",
        Execution::Uncertain => "未确认送达，不自动重发",
        Execution::Rejected => "发送被拒绝",
        Execution::Cancelled => "发送已取消",
        Execution::Confirmed => "已确认送达",
        Execution::AwaitingApproval => "需要确认的回复",
    }
}

/// Who a reply is addressed to.
#[derive(Debug)]
pub struct ReplyTarget {
    pub username: String,
    pub user_id: String,
}

/// A reply that the assistant offers.
#[derive(Debug)]
pub struct Reply {
    pub session: String,
    pub caller: String,
    pub request_id: String,
    pub revision: u64,
    pub text: String,
    pub state: Execution,
    pub reply_to: Option<ReplyTarget>,
    pub original_username: Option<String>,
    pub retry_of: Option<String>,
    pub diagnosis: Option<String>,
}

impl Reply {
    pub fn copy(&self) -> (r: Self)
        ensures
            r == *self,
    {
        Reply {
            session: self.session.clone(),
            caller: self.caller.clone(),
            request_id: self.request_id.clone(),
            revision: self.revision,
            text: self.text.clone(),
            state: self.state,
            reply_to: match &self.reply_to {
                Some(target) => Some(
                    ReplyTarget {
                        username: target.username.clone(),
                        user_id: target.user_id.clone(),
                    },
                ),
                None => None,
            },
            original_username: match &self.original_username {
                Some(name) => Some(name.clone()),
                None => None,
            },
            retry_of: match &self.retry_of {
                Some(id) => Some(id.clone()),
                None => None,
            },
            diagnosis: match &self.diagnosis {
                Some(detail) => Some(detail.clone()),
                None => None,
            },
        }
    }

    pub open spec fn is_request(self, caller: Seq<char>, request: Seq<char>) -> bool {
        self.caller@ == caller && self.request_id@ == request
    }

    /// The other is the same reply in the same wording.
    pub open spec fn is_version(self, other: Reply) -> bool {
        &&& self.session@ == other.session@
        &&& self.caller@ == other.caller@
        &&& self.request_id@ == other.request_id@
        &&& self.revision == other.revision
        &&& self.text@ == other.text@
    }

    fn same_version(&self, other: &Reply) -> (r: bool)
        ensures
            r == self.is_version(*other),
    {
        text::same(self.session.as_str(), other.session.as_str()) && text::same(
            self.caller.as_str(),
            other.caller.as_str(),
        ) && text::same(self.request_id.as_str(), other.request_id.as_str()) && self.revision
            == other.revision && text::same(self.text.as_str(), other.text.as_str())
    }
}

/// Who a reply answers.
pub open spec fn target_text(reply: Reply) -> Seq<char> {
    match reply.reply_to {
        Some(target) => "@"@ + target.username@,
        None => (match reply.original_username {
            Some(name) => name@,
            None => "原消息"@,
        }) + "（不@）"@,
    }
}

pub fn original_target(reply: &Reply) -> (r: String)
    ensures
        r@ == target_text(*reply),
{
    match &reply.reply_to {
        Some(target) => text::add2("@", target.username.as_str()),
        None => match &reply.original_username {
            Some(name) => text::add2(name.as_str(), "（不@）"),
            None => text::add2("原消息", "（不@）"),
        },
    }
}

/// The place of a request among the candidates.
pub open spec fn request_place(
    candidates: Seq<Reply>,
    caller: Seq<char>,
    request: Seq<char>,
) -> Option<int>
    decreases candidates.len(),
{
    if candidates.len() == 0 {
        None
    } else if candidates[0].is_request(caller, request) {
        Some(0)
    } else {
        match request_place(candidates.skip(1), caller, request) {
            Some(i) => Some(i + 1),
            None => None,
        }
    }
}

fn find_request(candidates: &Vec<Reply>, caller: &str, request: &str) -> (r: Option<usize>)
    ensures
        match request_place(candidates@, caller@, request@) {
            Some(i) => r matches Some(at) && at == i && i < candidates@.len()
                && candidates@[i].is_request(caller@, request@),
            None => r is None,
        },
{
    let mut i: usize = 0;
    proof {
        assert(candidates@.skip(0) =~= candidates@);
    }
    while i < candidates.len()
        invariant
            i <= candidates@.len(),
            match request_place(candidates@.skip(i as int), caller@, request@) {
                Some(k) => request_place(candidates@, caller@, request@) == Some(k + i),
                None => request_place(candidates@, caller@, request@) is None,
            },
        decreases candidates@.len() - i,
    {
        proof {
            assert(candidates@.skip(i as int).skip(1) =~= candidates@.skip(i + 1));
        }
        if text::same(candidates[i].caller.as_str(), caller) && text::same(
            candidates[i].request_id.as_str(),
            request,
        ) {
            return Some(i);
        }
        i = i + 1;
    }
    None
}

/// The place of the candidate that is selected.
pub open spec fn selected_place(
    candidates: Seq<Reply>,
    selected: Option<(String, String)>,
) -> Option<int> {
    match selected {
        Some((caller, request)) => request_place(candidates, caller@, request@),
        None => None,
    }
}

/// The place of the candidate to show: the selected one while it is there, else the first.
pub open spec fn offered_place(
    candidates: Seq<Reply>,
    selected: Option<(String, String)>,
) -> Option<int> {
    if selected_place(candidates, selected) is Some {
        selected_place(candidates, selected)
    } else if candidates.len() > 0 {
        Some(0)
    } else {
        None
    }
}

/// A reply as it is shown for a decision.
#[derive(Debug)]
pub struct ReviewFrame {
    pub reply: Reply,
    pub generation: u64,
    pub visible: bool,
    pub complete: bool,
    /// The decision was made, and the frame follows the delivery.
    pub delivery: bool,
    pub expanded: bool,
    pub width: u16,
    pub seen_rows: usize,
}

/// A candidate whose text is being edited in place of the message that was being typed.
pub struct CandidateEdit {
    pub generation: u64,
    pub session: String,
    pub caller: String,
    pub request: String,
    pub draft: EditorInput,
}

pub struct Review {
    pub frame: Option<ReviewFrame>,
    pub selected: Option<(String, String)>,
    pub edit: Option<CandidateEdit>,
}

/// Why a decision is not carried out.
#[derive(Clone, Copy, Debug, PartialEq, Eq, Structural)]
pub enum ReviewProblem {
    NotShown,
    IdentityChanged,
    AlreadyDecided,
    NotSeenWhole,
    ReplyChanged,
    ListNotOpen,
    SceneChanged,
    NoCandidates,
    Editing,
    Busy,
    NothingToEdit,
    EditIdentityChanged,
}

pub open spec fn review_problem_text(problem: ReviewProblem) -> Seq<char> {
    match problem {
        ReviewProblem::NotShown => "请先查看回复正文"@,
        ReviewProblem::IdentityChanged => "发送身份或可见页面已改变，请重新查看候选"@,
        ReviewProblem::AlreadyDecided => "本条已批准或已处理，不能重复发送；请查看结果"@,
        ReviewProblem::NotSeenWhole => "正文尚未完整查看；请展开并从头滚动查看后发送"@,
        ReviewProblem::ReplyChanged => "回复已改变或已处理，未对其他回复执行动作"@,
        ReviewProblem::ListNotOpen => "请先打开待审列表"@,
        ReviewProblem::SceneChanged => "场次或发送身份已改变，请重新查看待审列表"@,
        ReviewProblem::NoCandidates => "暂无待审回复"@,
        ReviewProblem::Editing => "正在编辑回复；Enter保存或Esc取消"@,
        ReviewProblem::Busy => "请先结束当前弹窗操作"@,
        ReviewProblem::NothingToEdit => "没有需要确认的回复可编辑"@,
        ReviewProblem::EditIdentityChanged => "发送身份已改变；Esc退出后重新确认，编辑内容保留"@,
    }
}

impl ReviewProblem {
    pub fn message(self) -> (r: &'static str)
        ensures
            r@ == review_problem_text(self),
    {
        match self {
            ReviewProblem::NotShown => "请先查看回复正文",
            ReviewProblem::IdentityChanged => "发送身份或可见页面已改变，请重新查看候选",
            ReviewProblem::AlreadyDecided => "本条已批准或已处理，不能重复发送；请查看结果",
            ReviewProblem::NotSeenWhole => "正文尚未完整查看；请展开并从头滚动查看后发送",
            ReviewProblem::ReplyChanged => "回复已改变或已处理，未对其他回复执行动作",
            ReviewProblem::ListNotOpen => "请先打开待审列表",
            ReviewProblem::SceneChanged => "场次或发送身份已改变，请重新查看待审列表",
            ReviewProblem::NoCandidates => "暂无待审回复",
            ReviewProblem::Editing => "正在编辑回复；Enter保存或Esc取消",
            ReviewProblem::Busy => "请先结束当前弹窗操作",
            ReviewProblem::NothingToEdit => "没有需要确认的回复可编辑",
            ReviewProblem::EditIdentityChanged => "发送身份已改变；Esc退出后重新确认，编辑内容保留",
        }
    }
}

/// Some candidate is the shown reply in the shown wording.
pub open spec fn still_offered(candidates: Seq<Reply>, reply: Reply) -> bool {
    exists|i: int| 0 <= i < candidates.len() && (#[trigger] candidates[i]).is_version(reply)
}

/// What keeps a decision about the shown reply from being carried out.
pub open spec fn review_check(
    frame: Option<ReviewFrame>,
    whole: bool,
    candidates: Seq<Reply>,
    generation: u64,
) -> Result<(), ReviewProblem> {
    match frame {
        None => Err(ReviewProblem::NotShown),
        Some(shown) => if !(shown.visible && shown.generation == generation) {
            Err(ReviewProblem::IdentityChanged)
        } else if shown.delivery {
            Err(ReviewProblem::AlreadyDecided)
        } else if whole && !shown.complete {
            Err(ReviewProblem::NotSeenWhole)
        } else if !still_offered(candidates, shown.reply) {
            Err(ReviewProblem::ReplyChanged)
        } else {
            Ok(())
        },
    }
}

/// What keeps a decision about all candidates from being carried out.
pub open spec fn all_check(
    frame: Option<ReviewFrame>,
    session: Seq<char>,
    candidates: nat,
    generation: u64,
) -> Result<(), ReviewProblem> {
    match frame {
        None => Err(ReviewProblem::ListNotOpen),
        Some(shown) => if !(shown.visible && shown.generation == generation && shown.reply.session@
            == session) {
            Err(ReviewProblem::SceneChanged)
        } else if candidates == 0 {
            Err(ReviewProblem::NoCandidates)
        } else {
            Ok(())
        },
    }
}

/// A reply is approved only in the wording that was seen as a whole, under the identity that it
/// was shown for, and only once.
pub proof fn law_only_what_was_seen_is_approved(
    frame: Option<ReviewFrame>,
    candidates: Seq<Reply>,
    generation: u64,
)
    requires
        review_check(frame, true, candidates, generation) is Ok,
    ensures
        frame matches Some(shown) && shown.visible && shown.complete && !shown.delivery
            && shown.generation == generation && still_offered(candidates, shown.reply),
{
}

/// The candidate that is shown from now on, unless the frame follows a delivery. A frame stays as
/// it is only for the same wording and identity.
pub open spec fn prepared(
    review: Review,
    after: Review,
    expanded: bool,
    candidates: Seq<Reply>,
    generation: u64,
) -> bool {
    let follows = match review.frame {
        Some(shown) => shown.delivery,
        None => false,
    };
    &&& after.edit == review.edit
    &&& if follows {
        &&& after.selected == review.selected
        &&& after.frame == Some(ReviewFrame { expanded, ..review.frame->0 })
    } else {
        match offered_place(candidates, review.selected) {
            None => {
                &&& after.frame is None
                &&& after.selected == review.selected
            },
            Some(i) => {
                let reply = candidates[i];
                &&& if selected_place(candidates, review.selected) is Some {
                    after.selected == review.selected
                } else {
                    after.selected == Some((reply.caller, reply.request_id))
                }
                &&& if keeps_frame(review.frame, reply, generation, expanded) {
                    after.frame == review.frame
                } else {
                    after.frame == Some(fresh_frame(reply, generation, expanded))
                }
            },
        }
    }
}

/// The frame shows this wording already, for this identity.
pub open spec fn keeps_frame(
    frame: Option<ReviewFrame>,
    reply: Reply,
    generation: u64,
    expanded: bool,
) -> bool {
    match frame {
        Some(shown) => shown.generation == generation && shown.reply.is_version(reply)
            && shown.expanded == expanded,
        None => false,
    }
}

/// A frame of which nothing was seen yet.
pub open spec fn fresh_frame(reply: Reply, generation: u64, expanded: bool) -> ReviewFrame {
    ReviewFrame {
        reply,
        generation,
        visible: false,
        complete: false,
        delivery: false,
        expanded,
        width: 0,
        seen_rows: 0,
    }
}

/// After an edit, a change of identity or a change of the wording nothing counts as seen.
pub proof fn law_changed_replies_must_be_seen_again(
    review: Review,
    after: Review,
    expanded: bool,
    candidates: Seq<Reply>,
    generation: u64,
)
    requires
        prepared(review, after, expanded, candidates, generation),
        review.frame matches Some(shown) ==> !shown.delivery && (shown.generation != generation
            || !still_offered(candidates, shown.reply)),
    ensures
        after.frame matches Some(shown) ==> !shown.complete && shown.seen_rows == 0,
        review_check(after.frame, true, candidates, generation) is Err,
{
    if let Some(i) = offered_place(candidates, review.selected) {
        lemma_offered(candidates, review.selected);
        if let Some(shown) = review.frame {
            if shown.reply.is_version(candidates[i]) {
                assert(candidates[i].is_version(shown.reply));
            }
        }
    }
}

proof fn lemma_request_place(candidates: Seq<Reply>, caller: Seq<char>, request: Seq<char>)
    ensures
        request_place(candidates, caller, request) matches Some(i) ==> 0 <= i < candidates.len()
            && candidates[i].is_request(caller, request),
    decreases candidates.len(),
{
    if candidates.len() > 0 && !candidates[0].is_request(caller, request) {
        lemma_request_place(candidates.skip(1), caller, request);
    }
}

proof fn lemma_offered(candidates: Seq<Reply>, selected: Option<(String, String)>)
    ensures
        offered_place(candidates, selected) matches Some(i) ==> 0 <= i < candidates.len(),
{
    if let Some((caller, request)) = selected {
        lemma_request_place(candidates, caller@, request@);
    }
}

/// What was seen of a text of some lines after one more look at it. Looking at another width
/// begins anew, and lines count only where they join those seen before.
pub open spec fn seen_after(
    frame: ReviewFrame,
    lines: nat,
    width: u16,
    height: u16,
    start: int,
) -> int {
    let seen: int = if frame.width == width {
        frame.seen_rows as int
    } else {
        0
    };
    let end = unicode::least(start + height, lines as int);
    if start <= seen && end > seen {
        end
    } else {
        seen
    }
}

/// Lines are seen without gaps: those that a look adds were on the screen, and follow directly on
/// those that were seen before.
pub proof fn law_lines_are_seen_without_gaps(
    frame: ReviewFrame,
    lines: nat,
    width: u16,
    height: u16,
    start: int,
    line: int,
)
    requires
        0 <= start,
        frame.width == width,
        frame.seen_rows <= line < seen_after(frame, lines, width, height, start),
    ensures
        start <= line < start + height,
        start <= frame.seen_rows,
{
}

/// The scroll that a text of some lines allows in an area.
pub open spec fn scroll_of(lines: nat, height: u16, scroll: u16) -> int {
    unicode::least(
        unicode::least(scroll as int, unicode::minus(lines as int, height as int) as int),
        u16::MAX as int,
    )
}

/// The shown reply after a look at its lines in an area: it counts as seen as a whole once all of
/// its lines were seen and none is cut off.
pub open spec fn looked(
    review: Review,
    lines: Seq<Seq<char>>,
    width: u16,
    height: u16,
    scroll: u16,
) -> Review {
    match review.frame {
        None => review,
        Some(shown) => {
            let seen = seen_after(
                shown,
                lines.len(),
                width,
                height,
                scroll_of(lines.len(), height, scroll),
            );
            let visible = width > 0 && height > 0;
            Review {
                frame: Some(
                    ReviewFrame {
                        width,
                        seen_rows: seen as usize,
                        visible,
                        complete: visible && seen >= lines.len() && all_fit(lines, width as int),
                        ..shown
                    },
                ),
                ..review
            }
        },
    }
}

/// The lines of a text at a width, with line feeds kept as line ends. The first line has begun
/// already.
pub open spec fn body_from(text: Seq<char>, begun: Seq<char>, width: nat) -> Seq<Seq<char>>
    decreases text.len(),
{
    if text.len() == 0 {
        unicode::wrapped_lines(begun, width)
    } else if text[0] == '\n' {
        unicode::wrapped_lines(begun, width) + body_from(text.skip(1), Seq::empty(), width)
    } else {
        body_from(text.skip(1), begun.push(text[0]), width)
    }
}

/// The lines of a text at a width.
pub open spec fn body_of(text: Seq<char>, width: nat) -> Seq<Seq<char>> {
    body_from(text, Seq::empty(), width)
}

fn append_lines(out: &mut Vec<String>, more: Vec<String>)
    ensures
        text::views(final(out)@) == text::views(old(out)@) + text::views(more@),
{
    let mut more: Vec<String> = more;
    let ghost before = out@;
    let ghost added = more@;
    out.append(&mut more);
    proof {
        assert(text::views(before + added) =~= text::views(before) + text::views(added));
    }
}

/// The lines of a text at a width.
pub fn body_lines(detail: &str, width: usize) -> (r: Vec<String>)
    ensures
        text::views(r@) == body_of(detail@, width as nat),
{
    let chars: Vec<char> = text::chars_of(detail);
    let mut out: Vec<String> = text::no_lines();
    let mut line: String = String::new();
    let mut i: usize = 0;
    proof {
        assert(detail@.skip(0) =~= detail@);
        assert(line@ =~= Seq::<char>::empty());
        assert(text::views(out@) + body_of(detail@, width as nat) =~= body_of(
            detail@,
            width as nat,
        ));
    }
    while i < chars.len()
        invariant
            i <= chars@.len(),
            chars@ == detail@,
            body_of(detail@, width as nat) == text::views(out@) + body_from(
                detail@.skip(i as int),
                line@,
                width as nat,
            ),
        decreases chars@.len() - i,
    {
        let ghost rest = detail@.skip(i as int);
        let ghost before = text::views(out@);
        let ghost begun = line@;
        proof {
            assert(rest[0] == chars@[i as int]);
            assert(rest.skip(1) =~= detail@.skip(i + 1));
        }
        if chars[i] == '\n' {
            append_lines(&mut out, unicode::wrapped_input_lines(line.as_str(), width));
            line = String::new();
            proof {
                assert(line@ =~= Seq::<char>::empty());
                assert(before + (unicode::wrapped_lines(begun, width as nat) + body_from(
                    rest.skip(1),
                    Seq::empty(),
                    width as nat,
                )) =~= (before + unicode::wrapped_lines(begun, width as nat)) + body_from(
                    rest.skip(1),
                    Seq::empty(),
                    width as nat,
                ));
            }
        } else {
            line.push(chars[i]);
        }
        i = i + 1;
    }
    proof {
        assert(detail@.skip(i as int) =~= Seq::<char>::empty());
    }
    append_lines(&mut out, unicode::wrapped_input_lines(line.as_str(), width));
    out
}

/// Every line fits a width.
pub open spec fn all_fit(lines: Seq<Seq<char>>, width: int) -> bool {
    forall|i: int|
        0 <= i < lines.len() ==> unicode::display_width(#[trigger] lines[i]) <= width
}

fn lines_fit(lines: &Vec<String>, width: usize) -> (r: bool)
    ensures
        r == all_fit(text::views(lines@), width as int),
{
    let mut i: usize = 0;
    while i < lines.len()
        invariant
            i <= lines@.len(),
            forall|k: int|
                0 <= k < i ==> unicode::display_width(#[trigger] text::views(lines@)[k]) <= width,
        decreases lines@.len() - i,
    {
        if unicode::width_of(lines[i].as_str()) > width {
            proof {
                assert(unicode::display_width(text::views(lines@)[i as int]) > width);
            }
            return false;
        }
        i = i + 1;
    }
    true
}

/// The frame of a reply that was approved: it follows the delivery.
pub open spec fn approved_frame(frame: Option<ReviewFrame>) -> Option<ReviewFrame> {
    match frame {
        Some(shown) => Some(
            ReviewFrame {
                delivery: true,
                reply: Reply { state: Execution::Accepted, ..shown.reply },
                visible: false,
                complete: false,
                ..shown
            },
        ),
        None => None,
    }
}

/// The frame after all candidates were decided. One that follows a delivery stays.
pub open spec fn all_decided_frame(frame: Option<ReviewFrame>, approve: bool) -> Option<
    ReviewFrame,
> {
    match frame {
        Some(shown) => if shown.delivery {
            frame
        } else if approve {
            approved_frame(frame)
        } else {
            None
        },
        None => None,
    }
}

/// What Shift+Enter does.
#[derive(Clone, Copy, Debug, PartialEq, Eq, Structural)]
pub enum ReviewAction {
    /// The key means something else.
    Ignored,
    Nothing,
    /// Saves the edited reply, and opens the list where nothing else is open.
    SaveEdit,
    Open,
    Approve,
    Warn(ReviewProblem),
}

/// What else is open on the screen.
#[derive(Clone, Copy, Debug, PartialEq, Eq, Structural)]
pub struct Surfaces {
    pub secret: bool,
    pub stopping: bool,
    pub login: bool,
    pub panel: bool,
}

pub open spec fn review_action(
    review: Review,
    key: KeyEvent,
    open: Surfaces,
    candidates: Seq<Reply>,
    generation: u64,
) -> ReviewAction {
    if key.code != KeyCode::Enter || !key.modifiers.only_shift() {
        ReviewAction::Ignored
    } else if key.kind != KeyKind::Press || open.secret || open.stopping || open.login || (
    open.panel && review.edit is None) {
        ReviewAction::Nothing
    } else if review.edit is Some {
        ReviewAction::SaveEdit
    } else if review.frame matches Some(shown) && shown.visible && shown.delivery {
        ReviewAction::Open
    } else {
        match review_check(review.frame, false, candidates, generation) {
            Ok(_) => if review.frame->0.complete {
                ReviewAction::Approve
            } else {
                ReviewAction::Open
            },
            Err(problem) => ReviewAction::Warn(problem),
        }
    }
}

/// Only a fresh press approves a reply: holding the key down repeats nothing.
pub proof fn law_only_a_fresh_press_approves(
    review: Review,
    key: KeyEvent,
    open: Surfaces,
    candidates: Seq<Reply>,
    generation: u64,
)
    requires
        review_action(review, key, open, candidates, generation) == ReviewAction::Approve,
    ensures
        key.kind == KeyKind::Press,
        !open.secret && !open.stopping && !open.login && !open.panel,
        review_check(review.frame, true, candidates, generation) is Ok,
{
}

impl Review {
    pub open spec fn wf(self) -> bool {
        self.edit matches Some(edit) ==> edit.draft.wf()
    }

    pub fn new() -> (r: Self)
        ensures
            r.wf(),
            r.frame is None,
            r.selected is None,
            r.edit is None,
    {
        Review { frame: None, selected: None, edit: None }
    }

    pub fn selected_at(&self, candidates: &Vec<Reply>) -> (r: Option<usize>)
        ensures
            match selected_place(candidates@, self.selected) {
                Some(i) => r matches Some(at) && at == i && i < candidates@.len(),
                None => r is None,
            },
    {
        match &self.selected {
            Some((caller, request)) => find_request(
                candidates,
                caller.as_str(),
                request.as_str(),
            ),
            None => None,
        }
    }

    /// Selects the first candidate where the selected one is gone.
    pub fn select_candidate(&mut self, candidates: &Vec<Reply>)
        requires
            old(self).wf(),
        ensures
            final(self).wf(),
            *final(self) == (Review { selected: final(self).selected, ..*old(self) }),
            final(self).selected == if selected_place(candidates@, old(self).selected) is Some {
                old(self).selected
            } else if candidates@.len() > 0 {
                Some((candidates@[0].caller, candidates@[0].request_id))
            } else {
                None
            },
    {
        if self.selected_at(candidates).is_some() {
            return;
        }
        self.selected = if candidates.len() > 0 {
            Some((candidates[0].caller.clone(), candidates[0].request_id.clone()))
        } else {
            None
        };
    }

    /// Hides the shown reply. One that was decided is kept until its delivery is confirmed.
    pub fn clear_review_surface(&mut self, state: Option<Execution>)
        requires
            old(self).wf(),
        ensures
            final(self).wf(),
            *final(self) == (Review { frame: final(self).frame, ..*old(self) }),
            match old(self).frame {
                None => final(self).frame is None,
                Some(shown) => if !shown.delivery {
                    final(self).frame == Some(ReviewFrame { visible: false, ..shown })
                } else {
                    match state {
                        None | Some(Execution::Confirmed) => final(self).frame is None,
                        Some(state) => final(self).frame == Some(
                            ReviewFrame {
                                visible: false,
                                reply: Reply { state, ..shown.reply },
                                ..shown
                            },
                        ),
                    }
                },
            },
    {
        let mut over: bool = false;
        if let Some(shown) = &mut self.frame {
            shown.visible = false;
            if shown.delivery {
                match state {
                    None | Some(Execution::Confirmed) => {
                        over = true;
                    },
                    Some(state) => {
                        shown.reply.state = state;
                    },
                }
            }
        }
        if over {
            self.frame = None;
        }
    }

    /// Prepares the candidate that is to be shown.
    pub fn prepare_review(&mut self, expanded: bool, candidates: &Vec<Reply>, generation: u64)
        requires
            old(self).wf(),
        ensures
            final(self).wf(),
            prepared(*old(self), *final(self), expanded, candidates@, generation),
    {
        let mut follows: bool = false;
        if let Some(shown) = &mut self.frame {
            if shown.delivery {
                follows = true;
                shown.expanded = expanded;
            }
        }
        if follows {
            return;
        }
        let at: usize = match self.selected_at(candidates) {
            Some(at) => at,
            None => {
                if candidates.len() == 0 {
                    self.frame = None;
                    return;
                }
                self.selected = Some(
                    (candidates[0].caller.clone(), candidates[0].request_id.clone()),
                );
                0
            },
        };
        let keeps: bool = match &self.frame {
            Some(shown) => shown.generation == generation && shown.reply.same_version(
                &candidates[at],
            ) && shown.expanded == expanded,
            None => false,
        };
        if !keeps {
            self.frame = Some(
                ReviewFrame {
                    reply: candidates[at].copy(),
                    generation,
                    visible: false,
                    complete: false,
                    delivery: false,
                    expanded,
                    width: 0,
                    seen_rows: 0,
                },
            );
        }
    }

    /// Says whether a decision about the shown reply may be carried out.
    pub fn reviewed_reply(&self, whole: bool, candidates: &Vec<Reply>, generation: u64) -> (r: Result<
        (),
        ReviewProblem,
    >)
        ensures
            r == review_check(self.frame, whole, candidates@, generation),
    {
        match &self.frame {
            None => Err(ReviewProblem::NotShown),
            Some(shown) => {
                if !(shown.visible && shown.generation == generation) {
                    return Err(ReviewProblem::IdentityChanged);
                }
                if shown.delivery {
                    return Err(ReviewProblem::AlreadyDecided);
                }
                if whole && !shown.complete {
                    return Err(ReviewProblem::NotSeenWhole);
                }
                let mut i: usize = 0;
                while i < candidates.len()
                    invariant
                        i <= candidates@.len(),
                        self.frame == Some(*shown),
                        forall|k: int|
                            0 <= k < i ==> !(#[trigger] candidates@[k]).is_version(shown.reply),
                        shown.visible && shown.generation == generation && !shown.delivery && !(
                        whole && !shown.complete),
                    decreases candidates@.len() - i,
                {
                    if candidates[i].same_version(&shown.reply) {
                        proof {
                            assert(candidates@[i as int].is_version(shown.reply));
                        }
                        return Ok(());
                    }
                    i = i + 1;
                }
                Err(ReviewProblem::ReplyChanged)
            },
        }
    }

    /// The shown reply was approved: the frame follows its delivery.
    pub fn approve_review(&mut self)
        requires
            old(self).wf(),
        ensures
            final(self).wf(),
            *final(self) == (Review { frame: final(self).frame, ..*old(self) }),
            final(self).frame == approved_frame(old(self).frame),
    {
        if let Some(shown) = &mut self.frame {
            shown.delivery = true;
            shown.reply.state = Execution::Accepted;
            shown.visible = false;
            shown.complete = false;
        }
    }

    /// The shown reply was discarded.
    pub fn discard_review(&mut self)
        requires
            old(self).wf(),
        ensures
            final(self).wf(),
            *final(self) == (Review { frame: None, ..*old(self) }),
    {
        self.frame = None;
    }

    /// Says whether a decision about all candidates may be carried out.
    pub fn check_all(&self, session: &str, candidates: usize, generation: u64) -> (r: Result<
        (),
        ReviewProblem,
    >)
        ensures
            r == all_check(self.frame, session@, candidates as nat, generation),
    {
        match &self.frame {
            None => Err(ReviewProblem::ListNotOpen),
            Some(shown) => if !(shown.visible && shown.generation == generation && text::same(
                shown.reply.session.as_str(),
                session,
            )) {
                Err(ReviewProblem::SceneChanged)
            } else if candidates == 0 {
                Err(ReviewProblem::NoCandidates)
            } else {
                Ok(())
            },
        }
    }

    /// All candidates were decided. A frame that follows a delivery stays.
    pub fn review_all_candidates(&mut self, approve: bool)
        requires
            old(self).wf(),
        ensures
            final(self).wf(),
            *final(self) == (Review { frame: final(self).frame, ..*old(self) }),
            final(self).frame == all_decided_frame(old(self).frame, approve),
    {
        let follows: bool = match &self.frame {
            Some(shown) => shown.delivery,
            None => false,
        };
        if follows {
            return;
        }
        if approve {
            self.approve_review();
        } else {
            self.frame = None;
        }
    }

    /// What Shift+Enter does.
    pub fn review_key(
        &self,
        key: KeyEvent,
        open: Surfaces,
        candidates: &Vec<Reply>,
        generation: u64,
    ) -> (r: ReviewAction)
        ensures
            r == review_action(*self, key, open, candidates@, generation),
    {
        if !matches!(key.code, KeyCode::Enter) || !key.modifiers.is_shift() {
            return ReviewAction::Ignored;
        }
        if !matches!(key.kind, KeyKind::Press) || open.secret || open.stopping || open.login || (
        open.panel && self.edit.is_none()) {
            return ReviewAction::Nothing;
        }
        if self.edit.is_some() {
            return ReviewAction::SaveEdit;
        }
        if let Some(shown) = &self.frame {
            if shown.visible && shown.delivery {
                return ReviewAction::Open;
            }
        }
        match self.reviewed_reply(false, candidates, generation) {
            Ok(_) => match &self.frame {
                Some(shown) => if shown.complete {
                    ReviewAction::Approve
                } else {
                    ReviewAction::Open
                },
                None => ReviewAction::Open,
            },
            Err(problem) => ReviewAction::Warn(problem),
        }
    }

    /// Looks at the lines of the shown reply in an area. The answer is the scroll that the lines
    /// allow.
    pub fn look(&mut self, lines: &Vec<String>, width: u16, height: u16, scroll: u16) -> (r: u16)
        requires
            old(self).wf(),
        ensures
            final(self).wf(),
            r == scroll_of(lines@.len(), height, scroll),
            *final(self) == looked(*old(self), text::views(lines@), width, height, scroll),
    {
        let limit: usize = lines.len().saturating_sub(height as usize);
        let start: u16 = if (scroll as usize) < limit {
            scroll
        } else {
            if limit > 0xffff {
                0xffff
            } else {
                limit as u16
            }
        };
        let reach: usize = start as usize + height as usize;
        let end: usize = if reach < lines.len() {
            reach
        } else {
            lines.len()
        };
        let fit: bool = lines_fit(lines, width as usize);
        if let Some(shown) = &mut self.frame {
            if shown.width != width {
                shown.width = width;
                shown.seen_rows = 0;
            }
            if start as usize <= shown.seen_rows && end > shown.seen_rows {
                shown.seen_rows = end;
            }
            shown.visible = width > 0 && height > 0;
            shown.complete = shown.visible && shown.seen_rows >= lines.len() && fit;
        }
        start
    }

    /// Goes to the next candidate. The answer says that the shown reply is still being sent, and
    /// stays.
    pub fn next_candidate(&mut self, candidates: &Vec<Reply>) -> (r: bool)
        requires
            old(self).wf(),
        ensures
            final(self).wf(),
            next_shown(*old(self), *final(self), r, candidates@),
    {
        let mut follows: bool = false;
        let mut sending: bool = false;
        if let Some(shown) = &self.frame {
            follows = shown.delivery;
            sending = matches!(shown.reply.state, Execution::Accepted | Execution::Sending);
        }
        if follows {
            if sending {
                return true;
            }
            self.frame = None;
            self.select_candidate(candidates);
            return false;
        }
        if candidates.len() > 0 {
            let index: usize = match self.selected_at(candidates) {
                Some(at) => if at + 1 >= candidates.len() {
                    0
                } else {
                    at + 1
                },
                None => 0,
            };
            self.selected = Some(
                (candidates[index].caller.clone(), candidates[index].request_id.clone()),
            );
            self.frame = None;
        }
        false
    }

    /// Begins to edit the selected candidate in place of the message that was being typed.
    pub fn begin_candidate_edit(
        &mut self,
        input: &mut EditorInput,
        candidates: &Vec<Reply>,
        generation: u64,
        open: Surfaces,
    ) -> (r: Result<(), ReviewProblem>)
        requires
            old(self).wf(),
            old(input).wf(),
        ensures
            final(self).wf(),
            final(input).wf(),
            begun(*old(self), *final(self), *old(input), *final(input), r, candidates@, generation, open),
    {
        if self.edit.is_some() {
            return Err(ReviewProblem::Editing);
        }
        if open.secret || open.stopping || open.login {
            return Err(ReviewProblem::Busy);
        }
        let ghost before = *self;
        self.select_candidate(candidates);
        proof {
            if candidates@.len() > 0 {
                assert(candidates@[0].is_request(candidates@[0].caller@, candidates@[0].request_id@));
            }
        }
        match self.selected_at(candidates) {
            None => Err(ReviewProblem::NothingToEdit),
            Some(at) => {
                let reply: &Reply = &candidates[at];
                let mut draft: EditorInput = EditorInput::from_string(reply.text.clone());
                std::mem::swap(input, &mut draft);
                self.edit = Some(
                    CandidateEdit {
                        generation,
                        session: reply.session.clone(),
                        caller: reply.caller.clone(),
                        request: reply.request_id.clone(),
                        draft,
                    },
                );
                Ok(())
            },
        }
    }

    /// Ends the edit: the message that was being typed comes back, and the candidate stays
    /// selected.
    pub fn finish_candidate_edit(&mut self, input: &mut EditorInput)
        requires
            old(self).wf(),
            old(input).wf(),
        ensures
            final(self).wf(),
            final(input).wf(),
            match old(self).edit {
                None => *final(self) == *old(self) && *final(input) == *old(input),
                Some(edit) => {
                    &&& *final(input) == edit.draft
                    &&& *final(self) == (Review {
                        edit: None,
                        selected: Some((edit.caller, edit.request)),
                        ..*old(self)
                    })
                },
            },
    {
        match self.edit.take() {
            None => {},
            Some(edit) => {
                *input = edit.draft;
                self.selected = Some((edit.caller, edit.request));
            },
        }
    }

    /// Says whether the edited text may be saved: only for the identity that it was begun under.
    pub fn check_edit(&self, generation: u64) -> (r: Result<(), ReviewProblem>)
        ensures
            r == match self.edit {
                Some(edit) => if edit.generation != generation {
                    Err(ReviewProblem::EditIdentityChanged)
                } else {
                    Ok(())
                },
                None => Ok::<(), ReviewProblem>(()),
            },
    {
        match &self.edit {
            Some(edit) => if edit.generation != generation {
                Err(ReviewProblem::EditIdentityChanged)
            } else {
                Ok(())
            },
            None => Ok(()),
        }
    }
}

/// The shown reply was decided and is on its way.
pub open spec fn still_sending(review: Review) -> bool {
    review.frame matches Some(shown) && shown.delivery && (shown.reply.state is Accepted
        || shown.reply.state is Sending)
}

/// The review after the next candidate was asked for.
pub open spec fn next_shown(
    before: Review,
    after: Review,
    waits: bool,
    candidates: Seq<Reply>,
) -> bool {
    let follows = before.frame matches Some(shown) && shown.delivery;
    let sending = before.frame matches Some(shown) && (shown.reply.state is Accepted
        || shown.reply.state is Sending);
    &&& waits == (follows && sending)
    &&& after.edit == before.edit
    &&& if waits {
        after == before
    } else if follows {
        &&& after.frame is None
        &&& after.selected == if selected_place(candidates, before.selected) is Some {
            before.selected
        } else if candidates.len() > 0 {
            Some((candidates[0].caller, candidates[0].request_id))
        } else {
            None
        }
    } else if candidates.len() == 0 {
        after == before
    } else {
        let index = match selected_place(candidates, before.selected) {
            Some(i) => if i + 1 >= candidates.len() {
                0
            } else {
                i + 1
            },
            None => 0,
        };
        &&& after.frame is None
        &&& after.selected == Some((candidates[index].caller, candidates[index].request_id))
    }
}

/// The review after an edit was asked for.
pub open spec fn begun(
    before: Review,
    after: Review,
    typed: EditorInput,
    shown: EditorInput,
    r: Result<(), ReviewProblem>,
    candidates: Seq<Reply>,
    generation: u64,
    open: Surfaces,
) -> bool {
    if before.edit is Some {
        &&& r == Err::<(), ReviewProblem>(ReviewProblem::Editing)
        &&& after == before
        &&& shown == typed
    } else if open.secret || open.stopping || open.login {
        &&& r == Err::<(), ReviewProblem>(ReviewProblem::Busy)
        &&& after == before
        &&& shown == typed
    } else {
        match offered_place(candidates, before.selected) {
            None => {
                &&& r == Err::<(), ReviewProblem>(ReviewProblem::NothingToEdit)
                &&& after == (Review { selected: None, ..before })
                &&& shown == typed
            },
            Some(i) => {
                let reply = candidates[i];
                &&& r is Ok
                &&& shown.text() == reply.text@
                &&& shown.position() == reply.text@.len()
                &&& after.frame == before.frame
                &&& after.selected == if selected_place(candidates, before.selected) is Some {
                    before.selected
                } else {
                    Some((reply.caller, reply.request_id))
                }
                &&& after.edit == Some(
                    CandidateEdit {
                        generation,
                        session: reply.session,
                        caller: reply.caller,
                        request: reply.request_id,
                        draft: typed,
                    },
                )
            },
        }
    }
}

/// The message that was being typed survives the edit of a reply, whether it is saved or not.
pub proof fn law_editing_keeps_the_draft(
    before: Review,
    editing: Review,
    typed: EditorInput,
    edited: EditorInput,
    shown: EditorInput,
    candidates: Seq<Reply>,
    generation: u64,
    open: Surfaces,
)
    requires
        begun(before, editing, typed, edited, Ok(()), candidates, generation, open),
        editing.edit matches Some(edit) && shown == edit.draft,
    ensures
        shown == typed,
{
}

/// A reply can be acted on exactly where it is on the screen under the current identity, has not
/// been decided, was seen to its end where that is asked for, and is still offered as it was shown.
pub proof fn law_what_acting_on_a_reply_takes(
    frame: Option<ReviewFrame>,
    whole: bool,
    candidates: Seq<Reply>,
    generation: u64,
)
    ensures
        review_check(frame, whole, candidates, generation) is Ok <==> {
            &&& frame is Some
            &&& frame->0.visible
            &&& frame->0.generation == generation
            &&& !frame->0.delivery
            &&& whole ==> frame->0.complete
            &&& exists|i: int|
                0 <= i < candidates.len() && {
                    let offered = #[trigger] candidates[i];
                    let shown = frame->0.reply;
                    &&& offered.session@ == shown.session@
                    &&& offered.caller@ == shown.caller@
                    &&& offered.request_id@ == shown.request_id@
                    &&& offered.revision == shown.revision
                    &&& offered.text@ == shown.text@
                }
        },
{
    if frame is Some {
        let shown = frame->0.reply;
        if still_offered(candidates, shown) {
            let i = choose|i: int|
                0 <= i < candidates.len() && (#[trigger] candidates[i]).is_version(shown);
            assert(candidates[i].session@ == shown.session@);
        }
        assert forall|i: int| 0 <= i < candidates.len() implies (#[trigger] candidates[i]).is_version(
            shown,
        ) == ({
            &&& candidates[i].session@ == shown.session@
            &&& candidates[i].caller@ == shown.caller@
            &&& candidates[i].request_id@ == shown.request_id@
            &&& candidates[i].revision == shown.revision
            &&& candidates[i].text@ == shown.text@
        }) by {}
    }
}

/// All replies can be decided at once exactly where the list is on the screen, of this session and
/// under the current identity, and holds any.
pub proof fn law_what_deciding_all_takes(
    frame: Option<ReviewFrame>,
    session: Seq<char>,
    candidates: nat,
    generation: u64,
)
    ensures
        all_check(frame, session, candidates, generation) is Ok <==> frame is Some
            && frame->0.visible && frame->0.generation == generation && frame->0.reply.session@
            == session && candidates > 0,
{
}

/// The reply that was chosen stays chosen as long as it is offered; otherwise the first is offered.
pub proof fn law_the_chosen_reply_is_offered(
    candidates: Seq<Reply>,
    caller: String,
    request: String,
)
    requires
        candidates.len() > 0,
    ensures
        ({
            let place = offered_place(candidates, Some((caller, request)));
            &&& place is Some
            &&& 0 <= place->0 < candidates.len()
            &&& (exists|i: int|
                0 <= i < candidates.len() && (#[trigger] candidates[i]).caller@ == caller@
                    && candidates[i].request_id@ == request@) ==> candidates[place->0].caller@
                == caller@ && candidates[place->0].request_id@ == request@ && forall|i: int|
                0 <= i < place->0 ==> (#[trigger] candidates[i]).caller@ != caller@
                    || candidates[i].request_id@ != request@
            &&& (forall|i: int|
                0 <= i < candidates.len() ==> (#[trigger] candidates[i]).caller@ != caller@
                    || candidates[i].request_id@ != request@) ==> place->0 == 0
        }),
{
    lemma_first_request(candidates, caller@, request@);
}

proof fn lemma_first_request(candidates: Seq<Reply>, caller: Seq<char>, request: Seq<char>)
    ensures
        match request_place(candidates, caller, request) {
            Some(at) => 0 <= at < candidates.len() && candidates[at].caller@ == caller
                && candidates[at].request_id@ == request && forall|i: int|
                0 <= i < at ==> (#[trigger] candidates[i]).caller@ != caller
                    || candidates[i].request_id@ != request,
            None => forall|i: int|
                0 <= i < candidates.len() ==> (#[trigger] candidates[i]).caller@ != caller
                    || candidates[i].request_id@ != request,
        },
    decreases candidates.len(),
{
    if candidates.len() > 0 && !candidates[0].is_request(caller, request) {
        let rest = candidates.skip(1);
        lemma_first_request(rest, caller, request);
        match request_place(rest, caller, request) {
            Some(at) => {
                assert forall|i: int| 0 <= i < at + 1 implies (#[trigger] candidates[i]).caller@
                    != caller || candidates[i].request_id@ != request by {
                    if i > 0 {
                        assert(rest[i - 1] == candidates[i]);
                    }
                }
            },
            None => {
                assert forall|i: int| 0 <= i < candidates.len() implies (
                #[trigger] candidates[i]).caller@ != caller || candidates[i].request_id@
                    != request by {
                    if i > 0 {
                        assert(rest[i - 1] == candidates[i]);
                    }
                }
            },
        }
    }
}

/// A reply that was decided cannot be decided again.
pub proof fn law_a_reply_is_approved_once(
    frame: Option<ReviewFrame>,
    whole: bool,
    candidates: Seq<Reply>,
    generation: u64,
    approve: bool,
)
    ensures
        review_check(approved_frame(frame), whole, candidates, generation) is Err,
        frame is Some ==> approved_frame(frame) is Some && approved_frame(frame)->0.delivery
            && approved_frame(frame)->0.reply.state == Execution::Accepted && approved_frame(
            frame,
        )->0.reply.text == frame->0.reply.text,
        review_check(all_decided_frame(frame, approve), whole, candidates, generation) is Err,
{
}

/// Shift and enter alone, pressed once with nothing in the way, approve a reply that was seen to
/// its end and open one that was not; any other key does neither.
pub proof fn law_shift_enter_approves_what_was_seen(
    review: Review,
    key: KeyEvent,
    open: Surfaces,
    candidates: Seq<Reply>,
    generation: u64,
)
    ensures
        ({
            let action = review_action(review, key, open, candidates, generation);
            let pressed = key.code == KeyCode::Enter && key.modifiers.shift
                && !key.modifiers.control && !key.modifiers.alt && !key.modifiers.extra;
            let free = key.kind == KeyKind::Press && !open.secret && !open.stopping && !open.login
                && !open.panel && review.edit is None;
            &&& action == ReviewAction::Ignored <==> !pressed
            &&& pressed && free && review_check(review.frame, true, candidates, generation) is Ok
                ==> action == ReviewAction::Approve
            &&& pressed && free && review_check(review.frame, false, candidates, generation) is Ok
                && !review.frame->0.complete ==> action == ReviewAction::Open
            &&& action == ReviewAction::SaveEdit ==> review.edit is Some
            &&& pressed && key.kind == KeyKind::Press && !open.secret && !open.stopping
                && !open.login && review.edit is Some ==> action == ReviewAction::SaveEdit
        }),
{
}

/// A reply counts as seen to its end only where every line was on the screen at its width and fits
/// it, and what was seen at one width does not count at another.
pub proof fn law_a_reply_is_seen_line_by_line(
    review: Review,
    lines: Seq<Seq<char>>,
    width: u16,
    height: u16,
    scroll: u16,
)
    requires
        review.frame is Some,
        review.frame->0.seen_rows <= lines.len() <= usize::MAX,
    ensures
        ({
            let after = looked(review, lines, width, height, scroll).frame->0;
            let start = scroll_of(lines.len(), height, scroll);
            &&& after.width == width
            &&& after.visible <==> width > 0 && height > 0
            &&& after.complete ==> after.visible && after.seen_rows >= lines.len()
            &&& after.complete ==> forall|i: int|
                0 <= i < lines.len() ==> unicode::display_width(#[trigger] lines[i]) <= width
            &&& review.frame->0.width != width && start > 0 ==> after.seen_rows == 0
            &&& after.seen_rows <= lines.len()
            &&& review.frame->0.width == width ==> after.seen_rows >= review.frame->0.seen_rows
            &&& start <= scroll && start + height <= lines.len() || start == 0 || start == u16::MAX
            &&& after.reply == review.frame->0.reply
        }),
{
}

/// The lines of a reply are those between its line ends, each wrapped by itself.
pub proof fn law_line_ends_part_the_text(line: Seq<char>, rest: Seq<char>, width: nat)
    requires
        forall|i: int| 0 <= i < line.len() ==> line[i] != '\n',
    ensures
        body_of(line, width) == unicode::wrapped_lines(line, width),
        body_of(line + seq!['\n'] + rest, width) == unicode::wrapped_lines(line, width) + body_of(
            rest,
            width,
        ),
{
    let none = Seq::<char>::empty();
    let tail = seq!['\n'] + rest;
    assert(line + seq!['\n'] + rest =~= line + tail);
    lemma_line_grows(none, line, tail, width);
    lemma_line_grows(none, line, none, width);
    assert(line + none =~= line);
    assert(none + line =~= line);
    assert(tail[0] == '\n');
    assert(tail.skip(1) =~= rest);
}

proof fn lemma_line_grows(begun: Seq<char>, line: Seq<char>, rest: Seq<char>, width: nat)
    requires
        forall|i: int| 0 <= i < line.len() ==> line[i] != '\n',
    ensures
        body_from(line + rest, begun, width) == body_from(rest, begun + line, width),
    decreases line.len(),
{
    if line.len() == 0 {
        assert(line + rest =~= rest);
        assert(begun + line =~= begun);
    } else {
        assert((line + rest)[0] == line[0]);
        assert((line + rest).skip(1) =~= line.skip(1) + rest);
        lemma_line_grows(begun.push(line[0]), line.skip(1), rest, width);
        assert(begun.push(line[0]) + line.skip(1) =~= begun + line);
    }
}

/// Going on waits while a reply is on its way; from one that is offered it goes to the one behind
/// it, and from the last to the first.
pub proof fn law_the_next_reply_follows(
    before: Review,
    after: Review,
    waits: bool,
    candidates: Seq<Reply>,
    at: int,
)
    requires
        next_shown(before, after, waits, candidates),
        before.frame is None || !before.frame->0.delivery,
        selected_place(candidates, before.selected) == Some(at),
        candidates.len() > 0,
    ensures
        !waits,
        after.frame is None,
        after.selected is Some,
        ({
            let next = if at + 1 < candidates.len() {
                at + 1
            } else {
                0
            };
            after.selected == Some((candidates[next].caller, candidates[next].request_id))
        }),
{
}

/// A reply that is on its way is waited for.
pub proof fn law_a_reply_on_its_way_is_waited_for(
    before: Review,
    after: Review,
    waits: bool,
    candidates: Seq<Reply>,
)
    requires
        next_shown(before, after, waits, candidates),
    ensures
        waits <==> before.frame is Some && before.frame->0.delivery && (
        before.frame->0.reply.state == Execution::Accepted || before.frame->0.reply.state
            == Execution::Sending),
        waits ==> after == before,
        after.edit == before.edit,
{
}

/// Editing begins with the text of the reply that is chosen, its end under the cursor, and keeps
/// what was typed.
pub proof fn law_editing_begins_with_the_reply(
    before: Review,
    after: Review,
    typed: EditorInput,
    shown: EditorInput,
    candidates: Seq<Reply>,
    generation: u64,
    open: Surfaces,
)
    requires
        begun(before, after, typed, shown, Ok(()), candidates, generation, open),
    ensures
        before.edit is None,
        !open.secret && !open.stopping && !open.login,
        after.edit is Some,
        after.edit->0.draft == typed,
        after.edit->0.generation == generation,
        exists|i: int|
            {
                &&& 0 <= i < candidates.len()
                &&& shown.text() == (#[trigger] candidates[i]).text@
                &&& after.edit->0.request == candidates[i].request_id
                &&& after.edit->0.caller == candidates[i].caller
            },
        shown.position() == shown.text().len(),
{
    match before.selected {
        Some((caller, request)) => {
            lemma_first_request(candidates, caller@, request@);
        },
        None => {},
    }
    let at = offered_place(candidates, before.selected)->0;
    assert(shown.text() == candidates[at].text@);
}

/// Approving all follows the shown reply on its way; discarding all closes it.
pub proof fn law_deciding_all_decides_the_shown_one(shown: ReviewFrame)
    requires
        !shown.delivery,
    ensures
        all_decided_frame(Some(shown), true) is Some,
        all_decided_frame(Some(shown), true)->0.delivery,
        all_decided_frame(Some(shown), true)->0.reply.state == Execution::Accepted,
        all_decided_frame(Some(shown), false) is None,
        all_decided_frame(None, true) is None,
{
}

/// An edit that cannot begin leaves the line and the edit that is open.
pub proof fn law_a_refused_edit_changes_no_line(
    before: Review,
    after: Review,
    typed: EditorInput,
    shown: EditorInput,
    problem: ReviewProblem,
    candidates: Seq<Reply>,
    generation: u64,
    open: Surfaces,
)
    requires
        begun(before, after, typed, shown, Err(problem), candidates, generation, open),
    ensures
        shown == typed,
        after.edit == before.edit,
        after.frame == before.frame,
        before.edit is Some ==> problem == ReviewProblem::Editing,
        candidates.len() == 0 || before.edit is Some || open.secret || open.stopping || open.login,
{
    if candidates.len() > 0 {
        match before.selected {
            Some((caller, request)) => {
                lemma_first_request(candidates, caller@, request@);
            },
            None => {},
        }
    }
}

/// A reply that has just come up must be seen before anything can be done with it.
pub proof fn law_a_fresh_reply_must_be_seen(
    reply: Reply,
    generation: u64,
    expanded: bool,
    whole: bool,
    candidates: Seq<Reply>,
)
    ensures
        review_check(Some(fresh_frame(reply, generation, expanded)), whole, candidates, generation)
            is Err,
        fresh_frame(reply, generation, expanded).reply == reply,
        !fresh_frame(reply, generation, expanded).delivery,
        !fresh_frame(reply, generation, expanded).complete,
        fresh_frame(reply, generation, expanded).seen_rows == 0,
{
}

} // verus!
