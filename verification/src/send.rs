//! The way of one message to the platform: what is checked before it is posted, what the answer
//! means, and how long its echo is waited for. Nothing is ever posted twice.
use vstd::prelude::*;
use vstd::string::*;

use crate::accounts::SendIdentity;
use crate::text;

verus! {

#[derive(Clone, Copy, Debug, PartialEq, Eq, Structural)]
pub enum Outcome {
    Confirmed,
    Rejected,
    Uncertain,
    Cancelled,
}

/// Why a message ended as it did.
#[derive(Clone, Copy, Debug, PartialEq, Eq, Structural)]
pub enum Cause {
    Unspecified,
    EchoConfirmed,
    EchoMissing,
    KnownWord,
    ContentRejected,
    OtherRejected,
    TransportUncertain,
}

pub open spec fn cause_name(cause: Cause) -> Seq<char> {
    match cause {
        Cause::Unspecified => "Unspecified"@,
        Cause::EchoConfirmed => "EchoConfirmed"@,
        Cause::EchoMissing => "EchoMissing"@,
        Cause::KnownWord => "KnownWord"@,
        Cause::ContentRejected => "ContentRejected"@,
        Cause::OtherRejected => "OtherRejected"@,
        Cause::TransportUncertain => "TransportUncertain"@,
    }
}

impl Cause {
    pub fn name(self) -> (r: &'static str)
        ensures
            r@ == cause_name(self),
    {
        match self {
            Cause::Unspecified => "Unspecified",
            Cause::EchoConfirmed => "EchoConfirmed",
            Cause::EchoMissing => "EchoMissing",
            Cause::KnownWord => "KnownWord",
            Cause::ContentRejected => "ContentRejected",
            Cause::OtherRejected => "OtherRejected",
            Cause::TransportUncertain => "TransportUncertain",
        }
    }
}

/// How a message ended, and what is known of it.
#[derive(Debug)]
pub struct Delivery {
    pub outcome: Outcome,
    pub cause: Cause,
    pub detail: String,
    pub response_received: bool,
    pub acceptance_proof: Option<String>,
    pub platform_code: Option<i64>,
}

impl Delivery {
    /// The delivery without the details that a response brings.
    pub open spec fn is_plain(self, outcome: Outcome, cause: Cause, detail: Seq<char>) -> bool {
        &&& self.outcome == outcome
        &&& self.cause == cause
        &&& self.detail@ == detail
        &&& !self.response_received
        &&& self.acceptance_proof is None
        &&& self.platform_code is None
    }

    pub fn new(outcome: Outcome, cause: Cause, detail: String) -> (r: Self)
        ensures
            r.is_plain(outcome, cause, detail@),
    {
        Delivery {
            outcome,
            cause,
            detail,
            response_received: false,
            acceptance_proof: None,
            platform_code: None,
        }
    }

    /// A message that was not sent because it is no longer wanted.
    pub fn cancelled() -> (r: Self)
        ensures
            r.is_plain(Outcome::Cancelled, Cause::Unspecified, Seq::empty()),
    {
        Delivery::new(Outcome::Cancelled, Cause::Unspecified, String::new())
    }
}

/// What is said about a message that ends, in the order in which it is said.
#[derive(Debug)]
pub struct Ending {
    /// The login of the sending account can no longer be used.
    pub stop_account: bool,
    /// The message no longer waits for its echo.
    pub expired: bool,
    /// Whether it was sent is not known; it no longer waits for its echo.
    pub timed_out: bool,
    /// It was refused, with these words.
    pub rejected: Option<String>,
    /// Its echo is watched for a while longer.
    pub watch: bool,
    pub delivery: Delivery,
}

/// What is done next about a message.
#[derive(Debug)]
pub enum Step {
    /// The sending account is asked for.
    CheckStatus,
    /// The feed is told to look for the echo of a message by this user.
    Register { name: String, user_id: String },
    /// The message is posted.
    Post,
    /// The message was taken; its echo is waited for.
    Await,
    Finish(Ending),
}

/// What allows a message to be posted: the identity still counts, the queue runs and is the same
/// as before, and a reply of the assistant is still approved.
#[derive(Clone, Copy, Debug, PartialEq, Eq, Structural)]
pub struct Authorization {
    pub identity_counts: bool,
    pub queue_paused: bool,
    pub same_queue: bool,
    pub reply_approved: bool,
}

impl Authorization {
    pub open spec fn allows(self) -> bool {
        self.identity_counts && !self.queue_paused && self.same_queue && self.reply_approved
    }

    pub fn allowed(self) -> (r: bool)
        ensures
            r == self.allows(),
    {
        self.identity_counts && !self.queue_paused && self.same_queue && self.reply_approved
    }
}

/// An ending that says nothing.
pub open spec fn is_quiet(ending: Ending) -> bool {
    !ending.stop_account && !ending.expired && !ending.timed_out && ending.rejected is None
        && !ending.watch
}

fn quiet(delivery: Delivery) -> (r: Ending)
    ensures
        is_quiet(r),
        r.delivery == delivery,
{
    Ending {
        stop_account: false,
        expired: false,
        timed_out: false,
        rejected: None,
        watch: false,
        delivery,
    }
}

/// The step at the beginning of a message.
pub open spec fn is_begun(identity_counts: bool, step: Step) -> bool {
    if identity_counts {
        step is CheckStatus
    } else {
        &&& step is Finish
        &&& is_quiet(step->Finish_0)
        &&& step->Finish_0.delivery.is_plain(
            Outcome::Cancelled,
            Cause::Unspecified,
            Seq::empty(),
        )
    }
}

/// Whether a message is begun at all: not with an identity that no longer counts.
pub fn begin(identity_counts: bool) -> (r: Step)
    ensures
        is_begun(identity_counts, r),
{
    if identity_counts {
        Step::CheckStatus
    } else {
        Step::Finish(quiet(Delivery::cancelled()))
    }
}

/// The step once the sending account has answered.
pub open spec fn is_status_step(user: Option<(String, String)>, step: Step) -> bool {
    match user {
        Some((name, user_id)) => step == (Step::Register { name, user_id }),
        None => {
            let message = "当前发送身份登录态不可用；未发送，不回退主账号"@;
            &&& step is Finish
            &&& step->Finish_0.stop_account
            &&& !step->Finish_0.expired
            &&& !step->Finish_0.timed_out
            &&& !step->Finish_0.watch
            &&& text::opt_view(step->Finish_0.rejected) == Some(message)
            &&& step->Finish_0.delivery.is_plain(Outcome::Rejected, Cause::OtherRejected, message)
        },
    }
}

/// The sending account answered: its name and identifier, or nothing where nobody is signed in or
/// the answer took too long. Without an account nothing is sent, and not as another one either.
pub fn status_answered(user: Option<(String, String)>) -> (r: Step)
    ensures
        is_status_step(user, r),
{
    match user {
        Some((name, user_id)) => Step::Register { name, user_id },
        None => {
            let message: &str = "当前发送身份登录态不可用；未发送，不回退主账号";
            Step::Finish(
                Ending {
                    stop_account: true,
                    expired: false,
                    timed_out: false,
                    rejected: Some(message.to_owned()),
                    watch: false,
                    delivery: Delivery::new(
                        Outcome::Rejected,
                        Cause::OtherRejected,
                        message.to_owned(),
                    ),
                },
            )
        },
    }
}

/// The step once the feed has answered whether it looks for the echo.
pub open spec fn is_registered_step(
    listening: bool,
    authorization: Authorization,
    blocked_word: Option<Seq<char>>,
    has_account: bool,
    step: Step,
) -> bool {
    if listening && authorization.allows() && blocked_word is None && has_account {
        step is Post
    } else {
        let ending = step->Finish_0;
        &&& step is Finish
        &&& !ending.stop_account
        &&& !ending.timed_out
        &&& ending.rejected is None
        &&& !ending.watch
        &&& ending.expired == (listening && (!authorization.allows() || blocked_word is Some))
        &&& if listening && authorization.allows() && blocked_word is Some {
            ending.delivery.is_plain(
                Outcome::Rejected,
                Cause::KnownWord,
                "命中用户配置已知词「"@ + blocked_word->0 + "」；未向平台发送"@,
            )
        } else {
            ending.delivery.is_plain(Outcome::Cancelled, Cause::Unspecified, Seq::empty())
        }
    }
}

/// The feed answered whether it looks for the echo. Only then, and only if the message is still
/// allowed, it is posted: an echo that comes before the answer of the platform is then not missed.
pub fn registered(
    listening: bool,
    authorization: Authorization,
    blocked_word: Option<&str>,
    has_account: bool,
) -> (r: Step)
    ensures
        is_registered_step(
            listening,
            authorization,
            match blocked_word {
                Some(word) => Some(word@),
                None => None,
            },
            has_account,
            r,
        ),
{
    if !listening {
        return Step::Finish(quiet(Delivery::cancelled()));
    }
    if !authorization.allowed() {
        return Step::Finish(
            Ending {
                stop_account: false,
                expired: true,
                timed_out: false,
                rejected: None,
                watch: false,
                delivery: Delivery::cancelled(),
            },
        );
    }
    if let Some(word) = blocked_word {
        return Step::Finish(
            Ending {
                stop_account: false,
                expired: true,
                timed_out: false,
                rejected: None,
                watch: false,
                delivery: Delivery::new(
                    Outcome::Rejected,
                    Cause::KnownWord,
                    text::add3("命中用户配置已知词「", word, "」；未向平台发送"),
                ),
            },
        );
    }
    if !has_account {
        return Step::Finish(quiet(Delivery::cancelled()));
    }
    Step::Post
}

/// What became of the post.
#[derive(Debug)]
pub enum PostReply {
    /// The message was withdrawn before it left.
    Withdrawn,
    /// The platform took it, with or without a proof that it will be shown.
    Responded { evidence: Option<String>, detail: String },
    /// The platform answered, but not what became of the message.
    Unclear { detail: String, authentication_failed: bool },
    /// The platform refused the message for what it says.
    ContentRejected { code: i64, message: String },
    /// The platform refused the message for another reason.
    Rejected { code: i64, message: String },
    /// The connection failed.
    Failed { error: String },
    /// The platform did not answer in eight seconds.
    TimedOut,
}

/// The codes that say that nobody is signed in.
pub open spec fn is_login_code(code: i64) -> bool {
    code == -101 || code == -102 || code == -111
}

/// The step that the answer of the platform leads to.
pub open spec fn is_posted_step(reply: PostReply, step: Step) -> bool {
    &&& step is Await || step is Finish
    &&& step is Await == reply is Responded
    &&& match reply {
        PostReply::Responded { .. } => step is Await,
        PostReply::Withdrawn => {
            let ending = step->Finish_0;
            &&& ending.expired && !ending.stop_account && !ending.timed_out && !ending.watch
            &&& ending.rejected is None
            &&& ending.delivery.is_plain(Outcome::Cancelled, Cause::Unspecified, Seq::empty())
        },
        PostReply::Unclear { detail, authentication_failed } => {
            let ending = step->Finish_0;
            &&& ending.stop_account == authentication_failed
            &&& ending.timed_out && !ending.expired && !ending.watch
            &&& ending.rejected is None
            &&& ending.delivery == (Delivery {
                outcome: Outcome::Uncertain,
                cause: Cause::TransportUncertain,
                detail,
                response_received: true,
                acceptance_proof: None,
                platform_code: None,
            })
        },
        PostReply::ContentRejected { code, message } => is_refusal(
            step->Finish_0,
            Cause::ContentRejected,
            code,
            message@,
        ),
        PostReply::Rejected { code, message } => is_refusal(
            step->Finish_0,
            Cause::OtherRejected,
            code,
            message@,
        ),
        PostReply::Failed { error } => is_doubt(
            step->Finish_0,
            "POST传输或响应解析失败："@ + error@ + "；结果未知，不认定屏蔽，不自动重发"@,
        ),
        PostReply::TimedOut => is_doubt(
            step->Finish_0,
            "POST本身8秒超时；结果未知，可能已发送；不认定屏蔽，不自动重发"@,
        ),
    }
}

/// What the answer of the platform means. A message that was taken waits for its echo; one that
/// was refused ends; of one that is in doubt nothing is assumed.
pub fn posted(reply: PostReply) -> (r: Step)
    ensures
        is_posted_step(reply, r),
{
    match reply {
        PostReply::Responded { .. } => Step::Await,
        PostReply::Withdrawn => Step::Finish(
            Ending {
                stop_account: false,
                expired: true,
                timed_out: false,
                rejected: None,
                watch: false,
                delivery: Delivery::cancelled(),
            },
        ),
        PostReply::Unclear { detail, authentication_failed } => Step::Finish(
            Ending {
                stop_account: authentication_failed,
                expired: false,
                timed_out: true,
                rejected: None,
                watch: false,
                delivery: Delivery {
                    outcome: Outcome::Uncertain,
                    cause: Cause::TransportUncertain,
                    detail,
                    response_received: true,
                    acceptance_proof: None,
                    platform_code: None,
                },
            },
        ),
        PostReply::ContentRejected { code, message } => Step::Finish(
            refusal(Cause::ContentRejected, code, message),
        ),
        PostReply::Rejected { code, message } => Step::Finish(
            refusal(Cause::OtherRejected, code, message),
        ),
        PostReply::Failed { error } => Step::Finish(
            doubt(
                text::add3(
                    "POST传输或响应解析失败：",
                    error.as_str(),
                    "；结果未知，不认定屏蔽，不自动重发",
                ),
            ),
        ),
        PostReply::TimedOut => Step::Finish(
            doubt("POST本身8秒超时；结果未知，可能已发送；不认定屏蔽，不自动重发".to_owned()),
        ),
    }
}

pub open spec fn is_refusal(ending: Ending, cause: Cause, code: i64, message: Seq<char>) -> bool {
    &&& ending.stop_account == is_login_code(code)
    &&& ending.expired && !ending.timed_out && !ending.watch
    &&& text::opt_view(ending.rejected) == Some(message)
    &&& ending.delivery.outcome == Outcome::Rejected
    &&& ending.delivery.cause == cause
    &&& ending.delivery.detail@ == message
    &&& ending.delivery.response_received
    &&& ending.delivery.acceptance_proof is None
    &&& ending.delivery.platform_code == Some(code)
}

fn refusal(cause: Cause, code: i64, message: String) -> (r: Ending)
    ensures
        is_refusal(r, cause, code, message@),
{
    Ending {
        stop_account: code == -101 || code == -102 || code == -111,
        expired: true,
        timed_out: false,
        rejected: Some(message.clone()),
        watch: false,
        delivery: Delivery {
            outcome: Outcome::Rejected,
            cause,
            detail: message,
            response_received: true,
            acceptance_proof: None,
            platform_code: Some(code),
        },
    }
}

pub open spec fn is_doubt(ending: Ending, detail: Seq<char>) -> bool {
    &&& !ending.stop_account && !ending.expired && ending.timed_out && !ending.watch
    &&& ending.rejected is None
    &&& ending.delivery.is_plain(Outcome::Uncertain, Cause::TransportUncertain, detail)
}

fn doubt(detail: String) -> (r: Ending)
    ensures
        is_doubt(r, detail@),
{
    Ending {
        stop_account: false,
        expired: false,
        timed_out: true,
        rejected: None,
        watch: false,
        delivery: Delivery::new(Outcome::Uncertain, Cause::TransportUncertain, detail),
    }
}

/// How often the history of the room is read for an echo.
pub const ATTEMPTS: u8 = 8;

/// The wait for the echo of a message that was taken.
#[derive(Clone, Copy, Debug, PartialEq, Eq, Structural)]
pub enum Wait {
    /// Sleeps before an attempt to find it in the history.
    Sleeping(u8),
    /// Reads the history.
    Reading(u8),
    /// Sleeps a last time.
    Last,
}

/// What happened during the wait.
#[derive(Clone, Copy, Debug, PartialEq, Eq, Structural)]
pub enum WaitEvent {
    /// The echo came, or can no longer come.
    Echo { came: bool },
    /// The sleep or the reading is over.
    Elapsed,
    /// Sixteen seconds have passed.
    Deadline,
}

/// Whether the wait goes on, or how it ended.
#[derive(Clone, Copy, Debug, PartialEq, Eq, Structural)]
pub enum WaitStep {
    Go(Wait),
    Ended { confirmed: bool },
}

pub open spec fn next_wait(wait: Wait, event: WaitEvent) -> WaitStep {
    match event {
        WaitEvent::Echo { came } => WaitStep::Ended { confirmed: came },
        WaitEvent::Deadline => WaitStep::Ended { confirmed: false },
        WaitEvent::Elapsed => match wait {
            Wait::Sleeping(attempt) => WaitStep::Go(Wait::Reading(attempt)),
            Wait::Reading(attempt) => if attempt + 1 < ATTEMPTS {
                WaitStep::Go(Wait::Sleeping((attempt + 1) as u8))
            } else {
                WaitStep::Go(Wait::Last)
            },
            Wait::Last => WaitStep::Ended { confirmed: false },
        },
    }
}

pub fn advance_wait(wait: Wait, event: WaitEvent) -> (r: WaitStep)
    ensures
        r == next_wait(wait, event),
{
    match event {
        WaitEvent::Echo { came } => WaitStep::Ended { confirmed: came },
        WaitEvent::Deadline => WaitStep::Ended { confirmed: false },
        WaitEvent::Elapsed => match wait {
            Wait::Sleeping(attempt) => WaitStep::Go(Wait::Reading(attempt)),
            Wait::Reading(attempt) => if attempt < ATTEMPTS - 1 {
                WaitStep::Go(Wait::Sleeping(attempt + 1))
            } else {
                WaitStep::Go(Wait::Last)
            },
            Wait::Last => WaitStep::Ended { confirmed: false },
        },
    }
}

/// How long a sleep of the wait takes, in milliseconds.
pub open spec fn sleep_time(wait: Wait) -> u64 {
    match wait {
        Wait::Sleeping(attempt) => if attempt == 0 {
            350
        } else {
            2000
        },
        Wait::Reading(_) => 0,
        Wait::Last => 250,
    }
}

pub fn sleep_millis(wait: Wait) -> (r: u64)
    ensures
        r == sleep_time(wait),
{
    match wait {
        Wait::Sleeping(attempt) => if attempt == 0 {
            350
        } else {
            2000
        },
        Wait::Reading(_) => 0,
        Wait::Last => 250,
    }
}

/// How many turns a wait has left at most.
pub open spec fn turns_left(wait: Wait) -> int {
    match wait {
        Wait::Sleeping(attempt) => 2 * (ATTEMPTS - attempt) + 1,
        Wait::Reading(attempt) => 2 * (ATTEMPTS - attempt),
        Wait::Last => 1,
    }
}

/// A wait within its attempts.
pub open spec fn wait_wf(wait: Wait) -> bool {
    match wait {
        Wait::Sleeping(attempt) => attempt < ATTEMPTS,
        Wait::Reading(attempt) => attempt < ATTEMPTS,
        Wait::Last => true,
    }
}

/// The wait comes to an end: each turn ends it or leaves fewer turns.
pub proof fn law_the_wait_ends(wait: Wait, event: WaitEvent)
    requires
        wait_wf(wait),
    ensures
        turns_left(wait) > 0,
        match next_wait(wait, event) {
            WaitStep::Go(next) => wait_wf(next) && turns_left(next) < turns_left(wait),
            WaitStep::Ended { .. } => true,
        },
{
}

/// The wait ends in a confirmation only when the echo came.
pub proof fn law_only_an_echo_confirms(wait: Wait, event: WaitEvent)
    ensures
        next_wait(wait, event) == (WaitStep::Ended { confirmed: true }) ==> event
            == (WaitEvent::Echo { came: true }),
{
}

/// The ending of a message that the platform took.
pub open spec fn is_wait_ending(
    confirmed: bool,
    evidence: Option<String>,
    detail: Seq<char>,
    ending: Ending,
) -> bool {
    &&& ending.watch == !confirmed
    &&& !ending.stop_account && !ending.expired && !ending.timed_out && ending.rejected is None
    &&& ending.delivery.outcome == (if confirmed {
        Outcome::Confirmed
    } else {
        Outcome::Uncertain
    })
    &&& ending.delivery.cause == (if confirmed {
        Cause::EchoConfirmed
    } else {
        Cause::EchoMissing
    })
    &&& ending.delivery.detail@ == detail + (if confirmed {
        "；真实回显确认"@
    } else {
        "；接口已返回，但未确认真实回显，保留结果且不自动重发"@
    })
    &&& ending.delivery.response_received
    &&& ending.delivery.acceptance_proof == evidence
    &&& ending.delivery.platform_code == Some(0i64)
}

/// How a message that the platform took ended: confirmed by its echo, or in doubt without one.
/// One in doubt is watched a while longer, and never sent again.
pub fn finish_wait(confirmed: bool, evidence: Option<String>, detail: &str) -> (r: Ending)
    ensures
        is_wait_ending(confirmed, evidence, detail@, r),
{
    let words: &str = if confirmed {
        "；真实回显确认"
    } else {
        "；接口已返回，但未确认真实回显，保留结果且不自动重发"
    };
    Ending {
        stop_account: false,
        expired: false,
        timed_out: false,
        rejected: None,
        watch: !confirmed,
        delivery: Delivery {
            outcome: if confirmed {
                Outcome::Confirmed
            } else {
                Outcome::Uncertain
            },
            cause: if confirmed {
                Cause::EchoConfirmed
            } else {
                Cause::EchoMissing
            },
            detail: text::add2(detail, words),
            response_received: true,
            acceptance_proof: evidence,
            platform_code: Some(0),
        },
    }
}

/// How far a message has come.
#[derive(Clone, Copy, Debug, PartialEq, Eq, Structural)]
pub enum Stage {
    Fresh,
    CheckingStatus,
    Registering,
    Posting,
    Waiting(Wait),
    Done,
}

/// What a message waited for at its stage.
#[derive(Debug)]
pub enum SendEvent {
    Begin { identity_counts: bool },
    Status(Option<(String, String)>),
    Registered {
        listening: bool,
        authorization: Authorization,
        blocked_word: Option<String>,
        has_account: bool,
    },
    Posted(PostReply),
    Waited(WaitEvent),
}

/// The stages in their order.
pub open spec fn rank(stage: Stage) -> int {
    match stage {
        Stage::Fresh => 0,
        Stage::CheckingStatus => 1,
        Stage::Registering => 2,
        Stage::Posting => 3,
        Stage::Waiting(_) => 4,
        Stage::Done => 5,
    }
}

/// Whether an event is what the stage waits for.
pub open spec fn fits(stage: Stage, event: SendEvent) -> bool {
    match event {
        SendEvent::Begin { .. } => stage is Fresh,
        SendEvent::Status(_) => stage is CheckingStatus,
        SendEvent::Registered { .. } => stage is Registering,
        SendEvent::Posted(_) => stage is Posting,
        SendEvent::Waited(_) => stage is Waiting,
    }
}

/// One message on its way.
pub struct SendConfirm {
    pub stage: Stage,
    /// What the platform said when it took the message.
    pub evidence: Option<String>,
    pub detail: String,
}

/// The stage that a step leads to.
pub open spec fn stage_after(step: Step, wait: Wait) -> Stage {
    match step {
        Step::CheckStatus => Stage::CheckingStatus,
        Step::Register { .. } => Stage::Registering,
        Step::Post => Stage::Posting,
        Step::Await => Stage::Waiting(wait),
        Step::Finish(_) => Stage::Done,
    }
}

/// What an event does to a message that waited for it, and the step that it leads to.
pub open spec fn sent(before: SendConfirm, after: SendConfirm, event: SendEvent, step: Step) -> bool {
    match event {
        SendEvent::Begin { identity_counts } => {
            &&& is_begun(identity_counts, step)
            &&& after == (SendConfirm { stage: stage_after(step, Wait::Last), ..before })
        },
        SendEvent::Status(user) => {
            &&& is_status_step(user, step)
            &&& after == (SendConfirm { stage: stage_after(step, Wait::Last), ..before })
        },
        SendEvent::Registered { listening, authorization, blocked_word, has_account } => {
            &&& is_registered_step(
                listening,
                authorization,
                text::opt_view(blocked_word),
                has_account,
                step,
            )
            &&& after == (SendConfirm { stage: stage_after(step, Wait::Last), ..before })
        },
        SendEvent::Posted(reply) => {
            &&& is_posted_step(reply, step)
            &&& after.stage == stage_after(step, Wait::Sleeping(0))
            &&& match reply {
                PostReply::Responded { evidence, detail } => text::opt_view(after.evidence)
                    == text::opt_view(evidence) && after.detail@ == detail@,
                _ => after.evidence == before.evidence && after.detail == before.detail,
            }
        },
        SendEvent::Waited(news) => match next_wait(before.stage->Waiting_0, news) {
            WaitStep::Go(next) => {
                &&& step is Await
                &&& after == (SendConfirm { stage: Stage::Waiting(next), ..before })
            },
            WaitStep::Ended { confirmed } => {
                &&& step is Finish
                &&& is_wait_ending(confirmed, before.evidence, before.detail@, step->Finish_0)
                &&& after == (SendConfirm { stage: Stage::Done, evidence: None, ..before })
            },
        },
    }
}

/// How a message ends: confirmed if the platform took it and its echo came, and only then; without
/// its echo it is uncertain because the echo is missing; and where the answer of the platform did
/// not come or does not say, it is uncertain because of the transport. What was never posted is
/// cancelled or rejected, never in doubt.
pub proof fn law_the_echo_decides(
    before: SendConfirm,
    after: SendConfirm,
    event: SendEvent,
    step: Step,
)
    requires
        fits(before.stage, event),
        sent(before, after, event, step),
        step is Finish,
    ensures
        step->Finish_0.delivery.outcome == Outcome::Confirmed <==> event == SendEvent::Waited(
            WaitEvent::Echo { came: true },
        ),
        event is Waited && event != SendEvent::Waited(WaitEvent::Echo { came: true })
            ==> step->Finish_0.delivery.outcome == Outcome::Uncertain
            && step->Finish_0.delivery.cause == Cause::EchoMissing,
        event is Posted && (event->Posted_0 is Failed || event->Posted_0 is TimedOut
            || event->Posted_0 is Unclear) ==> step->Finish_0.delivery.outcome == Outcome::Uncertain
            && step->Finish_0.delivery.cause == Cause::TransportUncertain,
        !(event is Posted || event is Waited) ==> step->Finish_0.delivery.outcome
            == Outcome::Cancelled || step->Finish_0.delivery.outcome == Outcome::Rejected,
{
}

/// A message is posted at most once: after it was posted, no later step posts it again.
pub proof fn law_nothing_is_posted_twice(
    before: SendConfirm,
    posting: SendConfirm,
    answer: SendEvent,
    later: SendConfirm,
    after: SendConfirm,
    event: SendEvent,
    step: Step,
)
    requires
        fits(before.stage, answer),
        sent(before, posting, answer, Step::Post),
        rank(later.stage) >= rank(posting.stage),
        fits(later.stage, event),
        sent(later, after, event, step),
    ensures
        answer is Registered,
        rank(after.stage) >= rank(later.stage),
        !(step is Post),
{
}

impl SendConfirm {
    pub open spec fn wf(self) -> bool {
        self.stage is Waiting ==> wait_wf(self.stage->Waiting_0)
    }

    pub fn new() -> (r: Self)
        ensures
            r.wf(),
            r.stage is Fresh,
            r.evidence is None,
            r.detail@ == Seq::<char>::empty(),
    {
        SendConfirm { stage: Stage::Fresh, evidence: None, detail: String::new() }
    }

    /// Takes in what the message waited for and says what is done next. Events that the message
    /// does not wait for are passed over. A message is posted only once it is listened for and
    /// still allowed, and only once; it counts as confirmed only when its echo came.
    pub fn send_confirm(&mut self, event: SendEvent) -> (r: Option<Step>)
        requires
            old(self).wf(),
        ensures
            final(self).wf(),
            r is Some == fits(old(self).stage, event),
            r is None ==> *final(self) == *old(self),
            rank(final(self).stage) >= rank(old(self).stage),
            r matches Some(step) ==> sent(*old(self), *final(self), event, step),
    {
        match event {
            SendEvent::Begin { identity_counts } => {
                if !matches!(self.stage, Stage::Fresh) {
                    return None;
                }
                let step: Step = begin(identity_counts);
                self.stage = match step {
                    Step::CheckStatus => Stage::CheckingStatus,
                    _ => Stage::Done,
                };
                Some(step)
            },
            SendEvent::Status(user) => {
                if !matches!(self.stage, Stage::CheckingStatus) {
                    return None;
                }
                let step: Step = status_answered(user);
                self.stage = match step {
                    Step::Register { .. } => Stage::Registering,
                    _ => Stage::Done,
                };
                Some(step)
            },
            SendEvent::Registered { listening, authorization, blocked_word, has_account } => {
                if !matches!(self.stage, Stage::Registering) {
                    return None;
                }
                let step: Step = registered(
                    listening,
                    authorization,
                    match &blocked_word {
                        Some(word) => Some(word.as_str()),
                        None => None,
                    },
                    has_account,
                );
                self.stage = match step {
                    Step::Post => Stage::Posting,
                    _ => Stage::Done,
                };
                Some(step)
            },
            SendEvent::Posted(reply) => {
                if !matches!(self.stage, Stage::Posting) {
                    return None;
                }
                if let PostReply::Responded { evidence, detail } = &reply {
                    self.evidence = match evidence {
                        Some(evidence) => Some(evidence.clone()),
                        None => None,
                    };
                    self.detail = detail.clone();
                }
                let step: Step = posted(reply);
                self.stage = match step {
                    Step::Await => Stage::Waiting(Wait::Sleeping(0)),
                    _ => Stage::Done,
                };
                Some(step)
            },
            SendEvent::Waited(news) => {
                let wait: Wait = match self.stage {
                    Stage::Waiting(wait) => wait,
                    _ => {
                        return None;
                    },
                };
                proof {
                    law_the_wait_ends(wait, news);
                }
                match advance_wait(wait, news) {
                    WaitStep::Go(next) => {
                        self.stage = Stage::Waiting(next);
                        Some(Step::Await)
                    },
                    WaitStep::Ended { confirmed } => {
                        self.stage = Stage::Done;
                        let evidence: Option<String> = self.evidence.take();
                        Some(Step::Finish(finish_wait(confirmed, evidence, self.detail.as_str())))
                    },
                }
            },
        }
    }
}

/// The queues that messages wait in. An account of the assistant's own has one to itself, also
/// when it cannot be used: its messages never wait among those sent by hand.
#[derive(Clone, Copy, Debug, PartialEq, Eq, Structural)]
pub enum Lane {
    Manual,
    Independent,
}

pub fn lane_for(identity: &SendIdentity) -> (r: Lane)
    ensures
        r == (if identity.independent {
            Lane::Independent
        } else {
            Lane::Manual
        }),
{
    if identity.is_independent() {
        Lane::Independent
    } else {
        Lane::Manual
    }
}

/// What is said about a message that has ended, unless it went through.
pub open spec fn ending_text(
    outcome: Outcome,
    cause: Cause,
    detail: Seq<char>,
    from_assistant: bool,
) -> Option<Seq<char>> {
    if outcome == Outcome::Confirmed {
        None
    } else if from_assistant {
        Some(
            (if outcome == Outcome::Uncertain {
                "未确认送达，不自动重发"@
            } else {
                "发送未完成"@
            }) + " · "@ + cause_name(cause) + "；详情见助手"@,
        )
    } else {
        Some(
            "人工"@ + (match outcome {
                Outcome::Uncertain => "发送未确认"@,
                Outcome::Rejected => "发送被拒绝"@,
                _ => "发送已取消"@,
            }) + "，可发新消息："@ + detail + "；本次不重发"@,
        )
    }
}

/// What is said about a message that has ended, unless it went through.
pub fn ending_notice(delivery: &Delivery, from_assistant: bool) -> (r: Option<String>)
    ensures
        text::opt_view(r) == ending_text(
            delivery.outcome,
            delivery.cause,
            delivery.detail@,
            from_assistant,
        ),
{
    if delivery.outcome == Outcome::Confirmed {
        return None;
    }
    if from_assistant {
        let head: &str = if delivery.outcome == Outcome::Uncertain {
            "未确认送达，不自动重发"
        } else {
            "发送未完成"
        };
        let mut out: String = text::add3(head, " · ", delivery.cause.name());
        out.append("；详情见助手");
        Some(out)
    } else {
        let how: &str = match delivery.outcome {
            Outcome::Uncertain => "发送未确认",
            Outcome::Rejected => "发送被拒绝",
            _ => "发送已取消",
        };
        let mut out: String = text::add3("人工", how, "，可发新消息：");
        out.append(delivery.detail.as_str());
        out.append("；本次不重发");
        Some(out)
    }
}

/// A reply of the assistant that holds a word the user has blocked is not sent.
pub fn guard_reply(blocked_word: Option<&str>) -> (r: Option<Delivery>)
    ensures
        match blocked_word {
            Some(word) => r is Some && r->0.is_plain(
                Outcome::Rejected,
                Cause::KnownWord,
                "命中用户配置的已知词「"@ + word@ + "」；未向平台发送，不认定为平台本次屏蔽证据"@,
            ),
            None => r is None,
        },
{
    match blocked_word {
        Some(word) => Some(
            Delivery::new(
                Outcome::Rejected,
                Cause::KnownWord,
                text::add3(
                    "命中用户配置的已知词「",
                    word,
                    "」；未向平台发送，不认定为平台本次屏蔽证据",
                ),
            ),
        ),
        None => None,
    }
}

/// How the local transport, which reaches nothing, is told to answer.
pub open spec fn local_outcome(mode: u8) -> Outcome {
    if mode == 0 || mode == 6 {
        Outcome::Confirmed
    } else if mode == 1 || mode == 3 {
        Outcome::Uncertain
    } else {
        Outcome::Rejected
    }
}

/// How the local transport answers after a message: two of its modes lead to another.
pub open spec fn local_next(mode: u8) -> u8 {
    if mode == 5 {
        0
    } else if mode == 6 {
        5
    } else {
        mode
    }
}

/// What the local transport answers, and in which mode it is afterwards. A message that could not
/// be noted down is refused.
pub fn local_send(mode: u8, noted: bool) -> (r: (Delivery, u8))
    ensures
        !noted ==> r.1 == mode && r.0.is_plain(
            Outcome::Rejected,
            Cause::Unspecified,
            Seq::empty(),
        ),
        noted ==> {
            &&& r.1 == local_next(mode)
            &&& r.0.outcome == local_outcome(mode)
            &&& r.0.response_received == (mode == 3)
            &&& r.0.acceptance_proof is None
            &&& r.0.platform_code is None
            &&& r.0.cause == (if mode == 3 {
                Cause::EchoMissing
            } else if mode == 4 || mode == 5 {
                Cause::ContentRejected
            } else {
                Cause::Unspecified
            })
            &&& r.0.detail@ == (if mode == 3 {
                "受控响应已收到但无回显；疑似被吞，不推断具体词；改写可能重复"@
            } else if mode == 4 || mode == 5 {
                "受控平台明确内容拒绝"@
            } else {
                Seq::empty()
            })
        },
{
    if !noted {
        return (
            Delivery::new(Outcome::Rejected, Cause::Unspecified, String::new()),
            mode,
        );
    }
    let outcome: Outcome = if mode == 0 || mode == 6 {
        Outcome::Confirmed
    } else if mode == 1 || mode == 3 {
        Outcome::Uncertain
    } else {
        Outcome::Rejected
    };
    if mode == 3 {
        let mut delivery: Delivery = Delivery::new(
            outcome,
            Cause::EchoMissing,
            "受控响应已收到但无回显；疑似被吞，不推断具体词；改写可能重复".to_owned(),
        );
        delivery.response_received = true;
        (delivery, mode)
    } else if mode == 4 || mode == 5 {
        (
            Delivery::new(outcome, Cause::ContentRejected, "受控平台明确内容拒绝".to_owned()),
            if mode == 5 {
                0
            } else {
                mode
            },
        )
    } else if mode == 6 {
        (Delivery::new(outcome, Cause::Unspecified, String::new()), 5)
    } else {
        (Delivery::new(outcome, Cause::Unspecified, String::new()), mode)
    }
}

/// A message is handed to the platform exactly where its echo is listened for, the identity counts,
/// the queue is the same and runs, the reply is approved, no word on the list occurs in it and
/// there is an account to send with.
pub proof fn law_what_posting_takes(
    before: SendConfirm,
    after: SendConfirm,
    event: SendEvent,
    step: Step,
)
    requires
        fits(before.stage, event),
        sent(before, after, event, step),
    ensures
        step is Post <==> event is Registered && event->listening
            && event->authorization.identity_counts && !event->authorization.queue_paused
            && event->authorization.same_queue && event->authorization.reply_approved
            && event->blocked_word is None && event->has_account,
        event is Registered && step !is Post ==> step is Finish && (
        step->Finish_0.delivery.outcome == Outcome::Cancelled || step->Finish_0.delivery.outcome
            == Outcome::Rejected),
{
}

/// Without an identity that counts nothing is asked; without a signed-in account nothing is sent,
/// the account is stopped and the refusal is told; otherwise the message is registered under the
/// account that was found.
pub proof fn law_nothing_is_sent_for_nobody(
    before: SendConfirm,
    after: SendConfirm,
    event: SendEvent,
    step: Step,
)
    requires
        fits(before.stage, event),
        sent(before, after, event, step),
    ensures
        event is Begin ==> (step is CheckStatus <==> event->identity_counts),
        event is Begin && !event->identity_counts ==> step is Finish
            && step->Finish_0.delivery.outcome == Outcome::Cancelled,
        event is Status && event->Status_0 is None ==> step is Finish && step->Finish_0.stop_account
            && step->Finish_0.delivery.outcome == Outcome::Rejected && step->Finish_0.rejected
            is Some,
        event is Status ==> match event->Status_0 {
            Some((name, user_id)) => step == (Step::Register { name, user_id }),
            None => step is Finish,
        },
{
}

/// What the platform answers decides: a response is awaited until its echo comes, a refusal is told
/// with its words and its code, and only a login that the platform no longer takes stops the
/// account.
pub proof fn law_the_answer_is_told_as_it_came(
    before: SendConfirm,
    after: SendConfirm,
    event: SendEvent,
    step: Step,
)
    requires
        fits(before.stage, event),
        sent(before, after, event, step),
        event is Posted,
    ensures
        match event->Posted_0 {
            PostReply::Responded { evidence, detail } => step is Await && after.stage
                == Stage::Waiting(Wait::Sleeping(0)) && text::opt_view(after.evidence)
                == text::opt_view(evidence) && after.detail@ == detail@,
            PostReply::Withdrawn => step is Finish && step->Finish_0.delivery.outcome
                == Outcome::Cancelled && !step->Finish_0.stop_account,
            PostReply::ContentRejected { code, message } => step is Finish
                && step->Finish_0.delivery.outcome == Outcome::Rejected
                && step->Finish_0.delivery.cause == Cause::ContentRejected
                && step->Finish_0.delivery.detail@ == message@
                && step->Finish_0.delivery.platform_code == Some(code)
                && step->Finish_0.stop_account == (code == -101 || code == -102 || code == -111),
            PostReply::Rejected { code, message } => step is Finish
                && step->Finish_0.delivery.outcome == Outcome::Rejected
                && step->Finish_0.delivery.cause == Cause::OtherRejected
                && step->Finish_0.delivery.detail@ == message@
                && step->Finish_0.delivery.platform_code == Some(code)
                && step->Finish_0.stop_account == (code == -101 || code == -102 || code == -111),
            PostReply::Unclear { detail, authentication_failed } => step is Finish
                && step->Finish_0.delivery.outcome == Outcome::Uncertain
                && step->Finish_0.delivery.detail == detail && step->Finish_0.stop_account
                == authentication_failed,
            PostReply::Failed { .. } => step is Finish && step->Finish_0.delivery.outcome
                == Outcome::Uncertain && !step->Finish_0.stop_account
                && step->Finish_0.timed_out,
            PostReply::TimedOut => step is Finish && step->Finish_0.delivery.outcome
                == Outcome::Uncertain && !step->Finish_0.stop_account
                && step->Finish_0.timed_out,
        },
{
}

/// The history is read eight times, first after a third of a second and then every two seconds; a
/// short last wait follows, and then the echo is missing. A message whose echo is missing is still
/// watched for.
pub proof fn law_the_echo_is_looked_for_eight_times(wait: Wait, attempt: u8)
    requires
        wait_wf(wait),
    ensures
        attempt < 8 ==> next_wait(Wait::Sleeping(attempt), WaitEvent::Elapsed) == WaitStep::Go(
            Wait::Reading(attempt),
        ),
        attempt < 7 ==> next_wait(Wait::Reading(attempt), WaitEvent::Elapsed) == WaitStep::Go(
            Wait::Sleeping((attempt + 1) as u8),
        ),
        attempt == 7 ==> next_wait(Wait::Reading(attempt), WaitEvent::Elapsed) == WaitStep::Go(
            Wait::Last,
        ),
        next_wait(Wait::Last, WaitEvent::Elapsed) == (WaitStep::Ended { confirmed: false }),
        next_wait(wait, WaitEvent::Echo { came: true }) == (WaitStep::Ended { confirmed: true }),
        next_wait(wait, WaitEvent::Deadline) == (WaitStep::Ended { confirmed: false }),
        sleep_time(Wait::Sleeping(0)) == 350,
        0 < attempt ==> sleep_time(Wait::Sleeping(attempt)) == 2000,
        sleep_time(Wait::Last) == 250,
{
}

/// A message is watched for exactly where the platform took it and its echo did not come.
pub proof fn law_missing_echoes_are_watched_for(
    before: SendConfirm,
    after: SendConfirm,
    event: SendEvent,
    step: Step,
)
    requires
        fits(before.stage, event),
        sent(before, after, event, step),
        step is Finish,
    ensures
        step->Finish_0.watch <==> event is Waited && event != SendEvent::Waited(
            WaitEvent::Echo { came: true },
        ),
        after.stage is Done,
        event is Waited ==> step->Finish_0.delivery.acceptance_proof == before.evidence,
{
}

/// Everything but a confirmed message is told, and what is told of a message typed by hand holds
/// its detail.
pub proof fn law_every_doubt_is_told(
    outcome: Outcome,
    cause: Cause,
    detail: Seq<char>,
    from_assistant: bool,
)
    ensures
        ending_text(outcome, cause, detail, from_assistant) is None <==> outcome
            == Outcome::Confirmed,
        outcome != Outcome::Confirmed && !from_assistant ==> text::occurs_in(
            detail,
            ending_text(outcome, cause, detail, from_assistant)->0,
        ),
{
    if outcome != Outcome::Confirmed && !from_assistant {
        let told = ending_text(outcome, cause, detail, from_assistant)->0;
        let head = "人工"@ + (match outcome {
            Outcome::Uncertain => "发送未确认"@,
            Outcome::Rejected => "发送被拒绝"@,
            _ => "发送已取消"@,
        }) + "，可发新消息："@;
        assert(told =~= head + detail + "；本次不重发"@);
        let at = head.len() as int;
        assert(told.subrange(at, at + detail.len()) =~= detail);
        assert(text::matches_at(told, detail, at));
    }
}

/// What an ending leaves to be done: a refusal is handed on exactly where the platform or the
/// missing login refused; a message is given up at once where nothing more can come of it, and
/// waited for no longer where its transport was in doubt.
pub proof fn law_endings_leave_what_is_to_be_done(
    before: SendConfirm,
    after: SendConfirm,
    event: SendEvent,
    step: Step,
)
    requires
        fits(before.stage, event),
        sent(before, after, event, step),
        step is Finish,
    ensures
        ({
            let ending = step->Finish_0;
            let refused = event is Posted && (event->Posted_0 is ContentRejected || event->Posted_0
                is Rejected);
            &&& ending.rejected is Some <==> refused || (event is Status && event->Status_0 is None)
            &&& ending.timed_out <==> event is Posted && (event->Posted_0 is Unclear
                || event->Posted_0 is Failed || event->Posted_0 is TimedOut)
            &&& event is Posted ==> (ending.expired <==> refused || event->Posted_0 is Withdrawn)
            &&& event is Begin || event is Status || event is Waited ==> !ending.expired
            &&& event is Registered ==> (ending.expired <==> event->listening && (
            !event->authorization.identity_counts || event->authorization.queue_paused
                || !event->authorization.same_queue || !event->authorization.reply_approved
                || event->blocked_word is Some))
        }),
{
}

} // verus!
