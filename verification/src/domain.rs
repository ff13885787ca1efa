//! Rooms, accounts and the events of a live session.
use vstd::prelude::*;
use vstd::string::*;

use crate::gift;
use crate::gift::GiftDetails;
use crate::text;

verus! {

#[derive(Clone, Copy, Debug, PartialEq, Eq, Structural)]
pub enum DanmuEventKind {
    Danmu,
    Gift,
    GuardEvent,
    Superchat,
    Enter,
    Like,
    Follow,
    Share,
    Pk,
    Lottery,
    Moderation,
    RoomStatus,
    System,
}

/// Where an event came from: the live connection, the platform's recent history, or an earlier
/// run of the program.
#[derive(Clone, Copy, Debug, PartialEq, Eq, Structural)]
pub enum DanmuEventOrigin {
    Live,
    History,
    Archived,
}

/// How long a passing notice of an audience member is worth showing, in milliseconds. Only
/// arrivals and likes are passing notices.
pub open spec fn lifetime_of(kind: DanmuEventKind) -> Option<u64> {
    match kind {
        DanmuEventKind::Enter => Some(5000),
        DanmuEventKind::Like => Some(3000),
        _ => None,
    }
}

impl DanmuEventKind {
    /// How long a passing notice of this kind is worth showing, in milliseconds.
    pub fn activity_lifetime(self) -> (r: Option<u64>)
        ensures
            r == lifetime_of(self),
    {
        match self {
            DanmuEventKind::Enter => Some(5000),
            DanmuEventKind::Like => Some(3000),
            _ => None,
        }
    }
}

pub open spec fn kind_text(kind: DanmuEventKind) -> Seq<char> {
    match kind {
        DanmuEventKind::Danmu => "弹幕"@,
        DanmuEventKind::Gift => "礼物"@,
        DanmuEventKind::GuardEvent => "上舰"@,
        DanmuEventKind::Superchat => "醒目留言"@,
        DanmuEventKind::Enter => "进场"@,
        DanmuEventKind::Like => "点赞"@,
        DanmuEventKind::Follow => "关注"@,
        DanmuEventKind::Share => "分享"@,
        DanmuEventKind::Pk => "PK"@,
        DanmuEventKind::Lottery => "抽奖"@,
        DanmuEventKind::Moderation => "管理"@,
        DanmuEventKind::RoomStatus => "直播"@,
        DanmuEventKind::System => "系统"@,
    }
}

/// The name that a kind of event is listed under.
pub fn kind_label(kind: DanmuEventKind) -> (r: &'static str)
    ensures
        r@ == kind_text(kind),
{
    match kind {
        DanmuEventKind::Danmu => "弹幕",
        DanmuEventKind::Gift => "礼物",
        DanmuEventKind::GuardEvent => "上舰",
        DanmuEventKind::Superchat => "醒目留言",
        DanmuEventKind::Enter => "进场",
        DanmuEventKind::Like => "点赞",
        DanmuEventKind::Follow => "关注",
        DanmuEventKind::Share => "分享",
        DanmuEventKind::Pk => "PK",
        DanmuEventKind::Lottery => "抽奖",
        DanmuEventKind::Moderation => "管理",
        DanmuEventKind::RoomStatus => "直播",
        DanmuEventKind::System => "系统",
    }
}

/// A picture in a message: the code that stands for it, and the text shown in its place.
#[derive(Debug)]
pub struct DanmuEmote {
    pub text: String,
    pub fallback: String,
}

/// One event of a session. Times are milliseconds of the wall clock.
#[derive(Debug)]
pub struct DanmuEvent {
    pub id: String,
    pub kind: DanmuEventKind,
    pub origin: DanmuEventOrigin,
    pub content: String,
    pub username: Option<String>,
    pub author_id: Option<String>,
    pub platform_event_id: Option<String>,
    pub timestamp: i64,
    pub emotes: Vec<DanmuEmote>,
    pub reply_to: Option<String>,
    /// What is known of a gift.
    pub gift: Option<GiftDetails>,
}

impl DanmuEvent {
    /// A live event with nothing known but its kind and content.
    pub fn new(id: &str, kind: DanmuEventKind, content: &str, timestamp: i64) -> (r: Self)
        ensures
            r.id@ == id@,
            r.kind == kind,
            r.origin == DanmuEventOrigin::Live,
            r.content@ == content@,
            r.username is None,
            r.author_id is None,
            r.platform_event_id is None,
            r.timestamp == timestamp,
            r.emotes@.len() == 0,
            r.reply_to is None,
            r.gift is None,
    {
        DanmuEvent {
            id: id.to_owned(),
            kind,
            origin: DanmuEventOrigin::Live,
            content: content.to_owned(),
            username: None,
            author_id: None,
            platform_event_id: None,
            timestamp,
            emotes: Vec::new(),
            reply_to: None,
            gift: None,
        }
    }
}

#[derive(Clone, Copy, Debug, PartialEq, Eq, Structural)]
pub enum RoomLiveStatus {
    Offline,
    Live,
    Rotating,
}

#[derive(Debug)]
pub struct RoomSnapshot {
    pub room_id: String,
    pub broadcaster_id: String,
    pub broadcaster_name: String,
    pub title: String,
    pub area: String,
    pub live_started_at: Option<i64>,
    pub live_status: RoomLiveStatus,
}

impl RoomSnapshot {
    pub fn is_live(&self) -> (r: bool)
        ensures
            r == (self.live_status == RoomLiveStatus::Live),
    {
        self.live_status == RoomLiveStatus::Live
    }
}

#[derive(Debug)]
pub enum AccountStatus {
    SignedIn { display_name: String, user_id: String },
    SignedOut,
}

impl AccountStatus {
    /// The user that is signed in.
    pub open spec fn user(self) -> Option<Seq<char>> {
        match self {
            AccountStatus::SignedIn { user_id, .. } => Some(user_id@),
            AccountStatus::SignedOut => None,
        }
    }

    /// The name that is shown for the user that is signed in.
    pub open spec fn name(self) -> Option<Seq<char>> {
        match self {
            AccountStatus::SignedIn { display_name, .. } => Some(display_name@),
            AccountStatus::SignedOut => None,
        }
    }

    pub fn copy(&self) -> (r: Self)
        ensures
            r == *self,
    {
        match self {
            AccountStatus::SignedIn { display_name, user_id } => AccountStatus::SignedIn {
                display_name: display_name.clone(),
                user_id: user_id.clone(),
            },
            AccountStatus::SignedOut => AccountStatus::SignedOut,
        }
    }

    pub fn is_signed_in(&self) -> (r: bool)
        ensures
            r == self is SignedIn,
    {
        match self {
            AccountStatus::SignedIn { .. } => true,
            AccountStatus::SignedOut => false,
        }
    }
}

/// The platform masks the author of a live message with the identifier `0`, or leaves it out.
pub open spec fn usable_id(id: Option<Seq<char>>) -> Option<Seq<char>> {
    match id {
        Some(id) => if id.len() > 0 && id != "0"@ {
            Some(id)
        } else {
            None
        },
        None => None,
    }
}

/// The identifier of an author, where it tells authors apart.
pub fn usable_author_id(id: &Option<String>) -> (r: Option<&str>)
    ensures
        match r {
            Some(id) => Some(id@),
            None => None,
        } == usable_id(text::opt_view(*id)),
{
    match id {
        Some(id) => if id.as_str().is_empty() || text::same(id.as_str(), "0") {
            None
        } else {
            Some(id.as_str())
        },
        None => None,
    }
}

/// The text of a message as it is compared: without surrounding white space.
pub fn normalized_message(content: &str) -> (r: String)
    ensures
        r@ == text::trimmed(content@),
{
    text::trim(content)
}

pub open spec fn first_star(name: Seq<char>) -> int
    decreases name.len(),
{
    if name.len() == 0 || name[0] == '*' {
        0
    } else {
        1 + first_star(name.skip(1))
    }
}

pub open spec fn last_star(name: Seq<char>) -> int
    decreases name.len(),
{
    if name.len() == 0 || name.last() == '*' {
        name.len() - 1
    } else {
        last_star(name.drop_last())
    }
}

/// A masked name shows the beginning and possibly the end of a name, with stars between. Such a
/// name stands for every name that begins and ends alike.
pub open spec fn mask_fits(masked: Seq<char>, name: Seq<char>) -> bool {
    let head = first_star(masked);
    let tail = masked.len() - 1 - last_star(masked);
    &&& head < masked.len()
    &&& 0 < head
    &&& head + tail <= name.len()
    &&& name.take(head) == masked.take(head)
    &&& name.skip(name.len() - tail) == masked.skip(masked.len() - tail)
}

proof fn lemma_stars(name: Seq<char>)
    ensures
        0 <= first_star(name) <= name.len(),
        -1 <= last_star(name) < name.len(),
        first_star(name) < name.len() ==> first_star(name) <= last_star(name),
    decreases name.len(),
{
    if name.len() > 0 {
        lemma_first_star_bound(name);
        lemma_last_star_bound(name);
        let first = first_star(name);
        if first < name.len() {
            lemma_first_star_at(name);
            lemma_last_star_after(name, first);
        }
    }
}

proof fn lemma_first_star_bound(name: Seq<char>)
    ensures
        0 <= first_star(name) <= name.len(),
    decreases name.len(),
{
    if name.len() > 0 && name[0] != '*' {
        lemma_first_star_bound(name.skip(1));
    }
}

proof fn lemma_last_star_bound(name: Seq<char>)
    ensures
        -1 <= last_star(name) < name.len(),
    decreases name.len(),
{
    if name.len() > 0 && name.last() != '*' {
        lemma_last_star_bound(name.drop_last());
    }
}

proof fn lemma_first_star_at(name: Seq<char>)
    requires
        first_star(name) < name.len(),
    ensures
        name[first_star(name)] == '*',
    decreases name.len(),
{
    lemma_first_star_bound(name);
    if name[0] != '*' {
        lemma_first_star_at(name.skip(1));
        lemma_first_star_bound(name.skip(1));
        assert(name.skip(1)[first_star(name.skip(1))] == name[first_star(name)]);
    }
}

proof fn lemma_last_star_after(name: Seq<char>, at: int)
    requires
        0 <= at < name.len(),
        name[at] == '*',
    ensures
        at <= last_star(name),
    decreases name.len(),
{
    if name.last() != '*' {
        lemma_last_star_after(name.drop_last(), at);
    }
}

/// Whether a masked name stands for the name.
pub fn masked_name_matches(masked: &str, name: &str) -> (r: bool)
    ensures
        r == mask_fits(masked@, name@),
{
    let shown: Vec<char> = text::chars_of(masked);
    let full: Vec<char> = text::chars_of(name);
    let mut head: usize = 0;
    proof {
        assert(masked@.skip(0) =~= masked@);
        assert(masked@.take(masked@.len() as int) =~= masked@);
        lemma_stars(masked@);
    }
    while head < shown.len() && shown[head] != '*'
        invariant
            head <= shown@.len(),
            shown@ == masked@,
            first_star(masked@) == head + first_star(masked@.skip(head as int)),
        decreases shown@.len() - head,
    {
        proof {
            assert(masked@.skip(head as int).skip(1) =~= masked@.skip(head + 1));
        }
        head = head + 1;
    }
    if head == shown.len() || head == 0 {
        return false;
    }
    let mut end: usize = shown.len();
    while end > 0 && shown[end - 1] != '*'
        invariant
            end <= shown@.len(),
            shown@ == masked@,
            last_star(masked@) == last_star(masked@.take(end as int)),
        decreases end,
    {
        proof {
            assert(masked@.take(end as int).drop_last() =~= masked@.take(end - 1));
        }
        end = end - 1;
    }
    let tail: usize = shown.len() - end;
    proof {
        assert(end - 1 == last_star(masked@));
    }
    if tail > full.len() || head > full.len() - tail {
        return false;
    }
    let starts: bool = text::same(
        text::string_of(&full, 0, head).as_str(),
        text::string_of(&shown, 0, head).as_str(),
    );
    let ends: bool = text::same(
        text::string_of(&full, full.len() - tail, full.len()).as_str(),
        text::string_of(&shown, shown.len() - tail, shown.len()).as_str(),
    );
    proof {
        assert(full@.subrange(0, head as int) =~= name@.take(head as int));
        assert(shown@.subrange(0, head as int) =~= masked@.take(head as int));
        assert(full@.subrange(full@.len() - tail, full@.len() as int) =~= name@.skip(
            name@.len() - tail,
        ));
        assert(shown@.subrange(shown@.len() - tail, shown@.len() as int) =~= masked@.skip(
            masked@.len() - tail,
        ));
    }
    starts && ends
}

/// A letter `A` to `Z` in lower case, every other character as it is.
pub open spec fn ascii_lower(c: char) -> char {
    if 'A' <= c <= 'Z' {
        (c as u32 + 32) as char
    } else {
        c
    }
}

/// Whether two texts are equal when the case of the letters `A` to `Z` is ignored.
pub open spec fn same_ignoring_case(a: Seq<char>, b: Seq<char>) -> bool {
    a.len() == b.len() && forall|i: int|
        0 <= i < a.len() ==> ascii_lower(#[trigger] a[i]) == ascii_lower(b[i])
}

fn lower(c: char) -> (r: u32)
    ensures
        r == ascii_lower(c) as u32,
{
    let code: u32 = c as u32;
    if 0x41 <= code && code <= 0x5a {
        code + 32
    } else {
        code
    }
}

/// Whether two texts are equal when the case of the letters `A` to `Z` is ignored.
pub fn eq_ignore_ascii_case(a: &str, b: &str) -> (r: bool)
    ensures
        r == same_ignoring_case(a@, b@),
{
    let left: Vec<char> = text::chars_of(a);
    let right: Vec<char> = text::chars_of(b);
    if left.len() != right.len() {
        return false;
    }
    let mut i: usize = 0;
    while i < left.len()
        invariant
            i <= left@.len() == right@.len(),
            left@ == a@,
            right@ == b@,
            forall|k: int| 0 <= k < i ==> ascii_lower(#[trigger] a@[k]) == ascii_lower(b@[k]),
        decreases left@.len() - i,
    {
        if lower(left[i]) != lower(right[i]) {
            proof {
                assert(ascii_lower(a@[i as int]) != ascii_lower(b@[i as int]));
            }
            return false;
        }
        i = i + 1;
    }
    true
}

/// The longest time that may lie between the live event and the history record of one message,
/// in milliseconds.
pub const DUPLICATE_WINDOW: i64 = 3000;

/// Whether two names stand for one person: equal but for case, or one the masked form of the
/// other.
pub open spec fn same_person_name(a: Seq<char>, b: Seq<char>) -> bool {
    same_ignoring_case(a, b) || mask_fits(a, b) || mask_fits(b, a)
}

pub open spec fn same_author(a: DanmuEvent, b: DanmuEvent) -> bool {
    match (usable_id(text::opt_view(a.author_id)), usable_id(text::opt_view(b.author_id))) {
        (Some(x), Some(y)) => x == y,
        _ => match (a.username, b.username) {
            (Some(x), Some(y)) => same_person_name(x@, y@),
            _ => false,
        },
    }
}

/// Whether a live event and a history record tell of the same message.
pub open spec fn is_cross_origin_duplicate(a: DanmuEvent, b: DanmuEvent) -> bool {
    &&& a.kind == DanmuEventKind::Danmu
    &&& b.kind == DanmuEventKind::Danmu
    &&& (a.origin == DanmuEventOrigin::Live && b.origin == DanmuEventOrigin::History) || (a.origin
        == DanmuEventOrigin::History && b.origin == DanmuEventOrigin::Live)
    &&& text::trimmed(a.content@) == text::trimmed(b.content@)
    &&& -DUPLICATE_WINDOW <= a.timestamp - b.timestamp <= DUPLICATE_WINDOW
    &&& same_author(a, b)
}

/// Whether a live event and a history record tell of the same message.
pub fn cross_origin_duplicate(a: &DanmuEvent, b: &DanmuEvent) -> (r: bool)
    ensures
        r == is_cross_origin_duplicate(*a, *b),
{
    if a.kind != DanmuEventKind::Danmu || b.kind != DanmuEventKind::Danmu {
        return false;
    }
    let crossed: bool = (a.origin == DanmuEventOrigin::Live && b.origin
        == DanmuEventOrigin::History) || (a.origin == DanmuEventOrigin::History && b.origin
        == DanmuEventOrigin::Live);
    if !crossed {
        return false;
    }
    let gap: i128 = a.timestamp as i128 - b.timestamp as i128;
    if gap < -3000 || gap > 3000 {
        return false;
    }
    if !text::same(
        normalized_message(a.content.as_str()).as_str(),
        normalized_message(b.content.as_str()).as_str(),
    ) {
        return false;
    }
    match (usable_author_id(&a.author_id), usable_author_id(&b.author_id)) {
        (Some(x), Some(y)) => text::same(x, y),
        _ => match (&a.username, &b.username) {
            (Some(x), Some(y)) => eq_ignore_ascii_case(x.as_str(), y.as_str())
                || masked_name_matches(x.as_str(), y.as_str()) || masked_name_matches(
                y.as_str(),
                x.as_str(),
            ),
            _ => false,
        },
    }
}

/// The events that hold the identifier, by position.
pub open spec fn has_id(events: Seq<DanmuEvent>, id: Seq<char>) -> bool {
    exists|i: int| 0 <= i < events.len() && (#[trigger] events[i]).id@ == id
}

/// The first position at which the identifier stands.
pub open spec fn is_first_with_id(events: Seq<DanmuEvent>, id: Seq<char>, at: int) -> bool {
    &&& 0 <= at < events.len()
    &&& events[at].id@ == id
    &&& forall|i: int| 0 <= i < at ==> (#[trigger] events[i]).id@ != id
}

/// The position of the first event with the identifier.
pub fn position_of(events: &Vec<DanmuEvent>, id: &str) -> (r: Option<usize>)
    ensures
        match r {
            Some(at) => is_first_with_id(events@, id@, at as int),
            None => !has_id(events@, id@),
        },
{
    let mut i: usize = 0;
    while i < events.len()
        invariant
            i <= events@.len(),
            forall|k: int| 0 <= k < i ==> (#[trigger] events@[k]).id@ != id@,
        decreases events@.len() - i,
    {
        if text::same(events[i].id.as_str(), id) {
            return Some(i);
        }
        i = i + 1;
    }
    None
}

/// The place of the first event with an identifier.
pub open spec fn first_place(events: Seq<DanmuEvent>, id: Seq<char>) -> int
    decreases events.len(),
{
    if events.len() == 0 || events[0].id@ == id {
        0
    } else {
        1 + first_place(events.skip(1), id)
    }
}

pub proof fn lemma_first_place(events: Seq<DanmuEvent>, id: Seq<char>, at: int)
    requires
        is_first_with_id(events, id, at),
    ensures
        first_place(events, id) == at,
    decreases at,
{
    if at > 0 {
        assert(events[0].id@ != id);
        assert forall|i: int| 0 <= i < at - 1 implies (#[trigger] events.skip(1)[i]).id@ != id by {
            assert(events[i + 1].id@ != id);
        }
        lemma_first_place(events.skip(1), id, at - 1);
    }
}

pub proof fn lemma_place(events: Seq<DanmuEvent>, id: Seq<char>)
    requires
        has_id(events, id),
    ensures
        is_first_with_id(events, id, first_place(events, id)),
    decreases events.len(),
{
    let at = choose|i: int| 0 <= i < events.len() && (#[trigger] events[i]).id@ == id;
    if events[0].id@ != id {
        assert(events.skip(1)[at - 1].id@ == id);
        lemma_place(events.skip(1), id);
        let rest = first_place(events.skip(1), id);
        assert forall|i: int| 0 <= i < rest + 1 implies (#[trigger] events[i]).id@ != id by {
            if i > 0 {
                assert(events.skip(1)[i - 1].id@ != id);
            }
        }
    }
}

/// A message that was marked: who wrote it, and its text as it is shown.
#[derive(Debug)]
pub struct Featured {
    pub id: String,
    pub username: Option<String>,
    pub shown: String,
}

/// The events of one session, the newest first.
#[derive(Debug)]
pub struct DanmuSession {
    pub id: String,
    pub room_id: String,
    pub recent_events: Vec<DanmuEvent>,
    pub limit: usize,
    pub featured_event: Option<Featured>,
}

/// The events stand with the newest first.
pub open spec fn newest_first(events: Seq<DanmuEvent>) -> bool {
    forall|i: int, j: int|
        0 <= i < j < events.len() ==> (#[trigger] events[i]).timestamp >= (
        #[trigger] events[j]).timestamp
}

/// Where an event of the given time belongs: before the first that is not newer.
pub open spec fn slot_for(events: Seq<DanmuEvent>, timestamp: int) -> int
    decreases events.len(),
{
    if events.len() == 0 || events[0].timestamp <= timestamp {
        0
    } else {
        1 + slot_for(events.skip(1), timestamp)
    }
}

pub proof fn lemma_slot(events: Seq<DanmuEvent>, timestamp: int)
    ensures
        0 <= slot_for(events, timestamp) <= events.len(),
        forall|i: int|
            0 <= i < slot_for(events, timestamp) ==> (#[trigger] events[i]).timestamp > timestamp,
        slot_for(events, timestamp) < events.len() ==> events[slot_for(events, timestamp)].timestamp
            <= timestamp,
    decreases events.len(),
{
    if events.len() > 0 && events[0].timestamp > timestamp {
        let rest = events.skip(1);
        lemma_slot(rest, timestamp);
        let at = slot_for(rest, timestamp);
        assert forall|i: int| 0 <= i < 1 + at implies (#[trigger] events[i]).timestamp
            > timestamp by {
            if i > 0 {
                assert(rest[i - 1] == events[i]);
            }
        }
        if at < rest.len() {
            assert(rest[at] == events[1 + at]);
        }
    }
}

/// An event is a passing notice of activity rather than a message that stays.
pub open spec fn passes(event: DanmuEvent) -> bool {
    lifetime_of(event.kind) is Some
}

/// How many events pass, or stay.
pub open spec fn count_sort(events: Seq<DanmuEvent>, passing: bool) -> nat
    decreases events.len(),
{
    if events.len() == 0 {
        0
    } else {
        count_sort(events.drop_last(), passing) + if passes(events.last()) == passing {
            1nat
        } else {
            0nat
        }
    }
}

/// The place of the oldest event of its sort, below zero where there is none.
pub open spec fn oldest_of(events: Seq<DanmuEvent>, passing: bool) -> int
    decreases events.len(),
{
    if events.len() == 0 {
        -1
    } else if passes(events.last()) == passing {
        events.len() - 1
    } else {
        oldest_of(events.drop_last(), passing)
    }
}

proof fn lemma_oldest_of(events: Seq<DanmuEvent>, at: int)
    requires
        0 <= at < events.len(),
    ensures
        0 <= oldest_of(events, passes(events[at])) < events.len(),
        passes(events[oldest_of(events, passes(events[at]))]) == passes(events[at]),
    decreases events.len(),
{
    if passes(events.last()) != passes(events[at]) {
        lemma_oldest_of(events.drop_last(), at);
    }
}

proof fn lemma_count_insert(events: Seq<DanmuEvent>, at: int, event: DanmuEvent, passing: bool)
    requires
        0 <= at <= events.len(),
    ensures
        count_sort(events.insert(at, event), passing) == count_sort(events, passing) + if passes(
            event,
        ) == passing {
            1int
        } else {
            0int
        },
    decreases events.len(),
{
    let more = events.insert(at, event);
    if at == events.len() {
        assert(more.drop_last() =~= events);
    } else {
        assert(more.drop_last() =~= events.drop_last().insert(at, event));
        assert(more.last() == events.last());
        lemma_count_insert(events.drop_last(), at, event, passing);
    }
}

/// The events with a new one sorted in.
pub open spec fn sorted_in(events: Seq<DanmuEvent>, event: DanmuEvent) -> Seq<DanmuEvent> {
    events.insert(slot_for(events, event.timestamp as int), event)
}

proof fn lemma_sorted_in(events: Seq<DanmuEvent>, event: DanmuEvent)
    requires
        newest_first(events),
    ensures
        newest_first(sorted_in(events, event)),
{
    let at = slot_for(events, event.timestamp as int);
    let all = sorted_in(events, event);
    lemma_slot(events, event.timestamp as int);
    assert forall|i: int, j: int| 0 <= i < j < all.len() implies (#[trigger] all[i]).timestamp
        >= (#[trigger] all[j]).timestamp by {
        if i == at && j > at {
            assert(events[at].timestamp >= events[j - 1].timestamp);
        }
    }
}

/// How many events are of one sort, and the place of the oldest of them.
fn look_through(events: &Vec<DanmuEvent>, passing: bool) -> (r: (usize, usize))
    ensures
        r.0 == count_sort(events@, passing),
        r.0 > 0 ==> r.1 == oldest_of(events@, passing),
{
    let mut found: usize = 0;
    let mut last: usize = 0;
    let mut i: usize = 0;
    while i < events.len()
        invariant
            found <= i <= events@.len(),
            found == count_sort(events@.take(i as int), passing),
            found > 0 ==> last == oldest_of(events@.take(i as int), passing),
        decreases events@.len() - i,
    {
        proof {
            assert(events@.take(i + 1).drop_last() =~= events@.take(i as int));
        }
        if events[i].kind.activity_lifetime().is_some() == passing {
            found = found + 1;
            last = i;
        }
        i = i + 1;
    }
    proof {
        assert(events@.take(i as int) =~= events@);
    }
    (found, last)
}

proof fn lemma_removed(events: Seq<DanmuEvent>, at: int)
    requires
        newest_first(events),
        0 <= at < events.len(),
    ensures
        newest_first(events.remove(at)),
{
    let rest = events.remove(at);
    assert forall|i: int, j: int| 0 <= i < j < rest.len() implies (#[trigger] rest[i]).timestamp
        >= (#[trigger] rest[j]).timestamp by {
        let first = if i < at {
            i
        } else {
            i + 1
        };
        let second = if j < at {
            j
        } else {
            j + 1
        };
        assert(events[first].timestamp >= events[second].timestamp);
    }
}

/// Sorts a new event in, and says where.
fn sort_in(events: &mut Vec<DanmuEvent>, event: DanmuEvent) -> (r: usize)
    requires
        newest_first(old(events)@),
    ensures
        r == slot_for(old(events)@, event.timestamp as int),
        r <= old(events)@.len(),
        final(events)@ == sorted_in(old(events)@, event),
        newest_first(final(events)@),
{
    let ghost before = events@;
    proof {
        lemma_slot(before, event.timestamp as int);
        lemma_sorted_in(before, event);
        assert(before.skip(0) =~= before);
    }
    let mut at: usize = 0;
    while at < events.len() && events[at].timestamp > event.timestamp
        invariant
            at <= events@.len(),
            events@ == before,
            slot_for(before, event.timestamp as int) == at + slot_for(
                before.skip(at as int),
                event.timestamp as int,
            ),
        decreases events@.len() - at,
    {
        proof {
            assert(before.skip(at as int).skip(1) =~= before.skip(at + 1));
        }
        at = at + 1;
    }
    events.insert(at, event);
    at
}

/// A new event stays, and is not itself the one that leaves.
pub open spec fn keeps_new(events: Seq<DanmuEvent>, event: DanmuEvent, limit: nat) -> bool {
    let all = sorted_in(events, event);
    count_sort(all, passes(event)) <= limit || oldest_of(all, passes(event)) != slot_for(
        events,
        event.timestamp as int,
    )
}

/// The events after a new one has been taken in. Where there are too many of its sort, the oldest
/// of them leaves.
pub open spec fn taken_in(events: Seq<DanmuEvent>, event: DanmuEvent, limit: nat) -> Seq<
    DanmuEvent,
> {
    let all = sorted_in(events, event);
    if count_sort(all, passes(event)) <= limit {
        all
    } else {
        all.remove(oldest_of(all, passes(event)))
    }
}

/// Passing activity never pushes a message out, nor a message passing activity.
pub proof fn law_other_sorts_stay(
    events: Seq<DanmuEvent>,
    event: DanmuEvent,
    limit: nat,
    at: int,
)
    requires
        0 <= at < events.len(),
        passes(events[at]) != passes(event),
    ensures
        taken_in(events, event, limit).contains(events[at]),
{
    let slot = slot_for(events, event.timestamp as int);
    let all = sorted_in(events, event);
    lemma_slot(events, event.timestamp as int);
    lemma_oldest_of(all, slot);
    let place = if at < slot {
        at
    } else {
        at + 1
    };
    assert(all[place] == events[at]);
    let out = oldest_of(all, passes(event));
    if count_sort(all, passes(event)) > limit {
        let rest = all.remove(out);
        assert(rest[if place < out {
            place
        } else {
            place - 1
        }] == events[at]);
    } else {
        assert(taken_in(events, event, limit)[place] == events[at]);
    }
}

/// A session that holds no more messages than its limit never comes to hold more.
pub proof fn law_the_limit_is_kept(
    events: Seq<DanmuEvent>,
    event: DanmuEvent,
    limit: nat,
    passing: bool,
)
    requires
        count_sort(events, passing) <= limit,
    ensures
        count_sort(taken_in(events, event, limit), passing) <= limit,
{
    let slot = slot_for(events, event.timestamp as int);
    let all = sorted_in(events, event);
    lemma_slot(events, event.timestamp as int);
    lemma_count_insert(events, slot, event, passing);
    lemma_oldest_of(all, slot);
    if count_sort(all, passes(event)) > limit {
        let out = oldest_of(all, passes(event));
        let rest = all.remove(out);
        assert(rest.insert(out, all[out]) =~= all);
        lemma_count_insert(rest, out, all[out], passing);
    }
}

/// A known event and another report of it are one gift.
pub open spec fn same_gift(known: DanmuEvent, event: DanmuEvent) -> bool {
    known.gift is Some && event.gift is Some
}

/// Another report of a known event changes it: it adds to a gift, or has another content.
pub open spec fn updates(known: DanmuEvent, event: DanmuEvent) -> bool {
    if same_gift(known, event) {
        gift::adds(known.gift->0, event.gift->0)
    } else {
        known.content@ != event.content@
    }
}

/// A known event after another report of it: a gift holds the receipts of both, and another event
/// is replaced. It keeps its time.
pub open spec fn updated(known: DanmuEvent, event: DanmuEvent, after: DanmuEvent) -> bool {
    if same_gift(known, event) {
        &&& after == (DanmuEvent { content: after.content, gift: after.gift, ..known })
        &&& after.gift matches Some(gift) && gift::combined(known.gift->0, event.gift->0, gift)
            && after.content@ == gift.told()
    } else {
        after == (DanmuEvent { timestamp: known.timestamp, ..event })
    }
}

/// Taking an event in changes what the session holds.
pub open spec fn takes(events: Seq<DanmuEvent>, event: DanmuEvent, limit: nat) -> bool {
    if has_id(events, event.id@) {
        updates(events[first_place(events, event.id@)], event)
    } else {
        keeps_new(events, event, limit)
    }
}

/// The events after one that may be known already has been taken in.
pub open spec fn ingested(
    events: Seq<DanmuEvent>,
    after: Seq<DanmuEvent>,
    event: DanmuEvent,
    limit: nat,
) -> bool {
    if has_id(events, event.id@) {
        let at = first_place(events, event.id@);
        if updates(events[at], event) {
            &&& updated(events[at], event, after[at])
            &&& after == events.update(at, after[at])
        } else {
            after == events
        }
    } else {
        after == taken_in(events, event, limit)
    }
}

/// A known event stays where it is: another report of it moves nothing, and adds no row.
pub proof fn law_known_events_keep_their_place(
    events: Seq<DanmuEvent>,
    after: Seq<DanmuEvent>,
    event: DanmuEvent,
    limit: nat,
)
    requires
        has_id(events, event.id@),
        ingested(events, after, event, limit),
    ensures
        after.len() == events.len(),
        forall|i: int|
            0 <= i < events.len() ==> (#[trigger] after[i]).id@ == events[i].id@
                && after[i].timestamp == events[i].timestamp,
{
    lemma_place(events, event.id@);
}

/// An event of an earlier session.
pub open spec fn archived(event: DanmuEvent) -> DanmuEvent {
    DanmuEvent { origin: DanmuEventOrigin::Archived, ..event }
}

/// What the session holds while those of earlier sessions are taken in, one after the other.
pub open spec fn preloaded(
    states: Seq<Seq<DanmuEvent>>,
    history: Seq<DanmuEvent>,
    limit: nat,
) -> bool {
    &&& states.len() == history.len() + 1
    &&& forall|i: int|
        0 <= i < history.len() ==> ingested(
            states[i],
            states[i + 1],
            archived(#[trigger] history[i]),
            limit,
        )
}

/// Brings a known event up to another report of it. The answer says whether it changed.
fn update_known(known: &mut DanmuEvent, event: DanmuEvent) -> (r: bool)
    ensures
        r == updates(*old(known), event),
        r ==> updated(*old(known), event, *final(known)),
        !r ==> *final(known) == *old(known),
{
    if known.gift.is_some() && event.gift.is_some() {
        if let Some(incoming) = &event.gift {
            if let Some(gift) = &mut known.gift {
                let added: bool = gift.combine(incoming);
                if added {
                    known.content = gift.content();
                }
                return added;
            }
        }
        return false;
    }
    if text::same(known.content.as_str(), event.content.as_str()) {
        return false;
    }
    let timestamp: i64 = known.timestamp;
    *known = event;
    known.timestamp = timestamp;
    true
}

impl DanmuSession {
    pub open spec fn wf(self) -> bool {
        newest_first(self.recent_events@)
    }

    pub fn new(id: &str, room_id: &str) -> (r: Self)
        ensures
            r.wf(),
            r.id@ == id@,
            r.room_id@ == room_id@,
            r.recent_events@.len() == 0,
            r.limit == 240,
            r.featured_event is None,
    {
        DanmuSession::with_limit(id, room_id, 240)
    }

    pub fn with_limit(id: &str, room_id: &str, limit: usize) -> (r: Self)
        ensures
            r.wf(),
            r.id@ == id@,
            r.room_id@ == room_id@,
            r.recent_events@.len() == 0,
            r.limit == limit,
            r.featured_event is None,
    {
        DanmuSession {
            id: id.to_owned(),
            room_id: room_id.to_owned(),
            recent_events: Vec::new(),
            limit,
            featured_event: None,
        }
    }

    /// Takes an event in. One that is known already by its identifier adds its receipts to a known
    /// gift, or replaces the known one where its content differs, and stands in the place of the
    /// known one; a new one is sorted in by its time. The session
    /// holds up to `limit` messages and as much passing activity; the oldest of its sort leaves. The
    /// answer says whether anything changed.
    pub fn ingest(&mut self, event: DanmuEvent) -> (r: bool)
        requires
            old(self).wf(),
        ensures
            *final(self) == (DanmuSession { recent_events: final(self).recent_events, ..*old(self) }),
            r == takes(old(self).recent_events@, event, old(self).limit as nat),
            ingested(
                old(self).recent_events@,
                final(self).recent_events@,
                event,
                old(self).limit as nat,
            ),
            final(self).wf(),
    {
        match position_of(&self.recent_events, event.id.as_str()) {
            Some(at) => {
                let ghost before = self.recent_events@;
                proof {
                    lemma_first_place(before, event.id@, at as int);
                }
                let known: &mut DanmuEvent = &mut self.recent_events[at];
                let changed: bool = update_known(known, event);
                proof {
                    assert(self.recent_events@ =~= before.update(
                        at as int,
                        self.recent_events@[at as int],
                    ));
                    if !changed {
                        assert(self.recent_events@ =~= before);
                    }
                }
                changed
            },
            None => {
                let passing: bool = event.kind.activity_lifetime().is_some();
                let ghost before = self.recent_events@;
                let at: usize = sort_in(&mut self.recent_events, event);
                let ghost all = self.recent_events@;
                let (found, out): (usize, usize) = look_through(&self.recent_events, passing);
                if found <= self.limit {
                    return true;
                }
                proof {
                    lemma_oldest_of(all, at as int);
                    lemma_removed(all, out as int);
                }
                let kept: bool = out != at;
                let _ = self.recent_events.remove(out);
                kept
            },
        }
    }

    /// Takes in what is left of earlier sessions. It stays marked as such.
    pub fn preload_history(&mut self, history: Vec<DanmuEvent>)
        requires
            old(self).wf(),
        ensures
            final(self).wf(),
            *final(self) == (DanmuSession {
                recent_events: final(self).recent_events,
                ..*old(self)
            }),
            exists|states: Seq<Seq<DanmuEvent>>| #[trigger]
                preloaded(states, history@, old(self).limit as nat) && states[0]
                    == old(self).recent_events@ && states.last() == final(self).recent_events@,
    {
        let ghost all = history@;
        let ghost begun = *self;
        let ghost mut states: Seq<Seq<DanmuEvent>> = seq![self.recent_events@];
        let mut rest: Vec<DanmuEvent> = history;
        proof {
            assert(all.skip(0) =~= all);
        }
        let count: usize = rest.len();
        let mut done: usize = 0;
        while done < count
            invariant
                self.wf(),
                count == all.len(),
                done <= count,
                rest@ == all.skip(done as int),
                *self == (DanmuSession { recent_events: self.recent_events, ..begun }),
                states.len() == done + 1,
                states[0] == begun.recent_events@,
                states.last() == self.recent_events@,
                forall|i: int|
                    0 <= i < done ==> ingested(
                        states[i],
                        states[i + 1],
                        archived(#[trigger] all[i]),
                        begun.limit as nat,
                    ),
            decreases count - done,
        {
            let ghost before = states;
            let mut event: DanmuEvent = rest.remove(0);
            proof {
                assert(event == all[done as int]);
                assert(rest@ =~= all.skip(done + 1));
            }
            event.origin = DanmuEventOrigin::Archived;
            let _ = self.ingest(event);
            proof {
                states = before.push(self.recent_events@);
                assert forall|i: int| 0 <= i < done + 1 implies ingested(
                    states[i],
                    states[i + 1],
                    archived(#[trigger] all[i]),
                    begun.limit as nat,
                ) by {
                    assert(states[i] == before[i]);
                    if i < done {
                        assert(states[i + 1] == before[i + 1]);
                    }
                }
            }
            done = done + 1;
        }
        proof {
            assert(preloaded(states, all, begun.limit as nat));
        }
    }
}

/// Events of earlier sessions never count as live.
pub proof fn law_earlier_events_are_archived(
    states: Seq<Seq<DanmuEvent>>,
    history: Seq<DanmuEvent>,
    limit: nat,
    upto: int,
)
    requires
        preloaded(states, history, limit),
        0 <= upto <= history.len(),
        forall|k: int|
            0 <= k < states[0].len() ==> (#[trigger] states[0][k]).origin
                == DanmuEventOrigin::Archived,
    ensures
        forall|k: int|
            0 <= k < states[upto].len() ==> (#[trigger] states[upto][k]).origin
                == DanmuEventOrigin::Archived,
    decreases upto,
{
    if upto > 0 {
        law_earlier_events_are_archived(states, history, limit, upto - 1);
        let before = states[upto - 1];
        let after = states[upto];
        let event = archived(history[upto - 1]);
        assert(ingested(before, after, event, limit));
        if has_id(before, event.id@) {
            lemma_place(before, event.id@);
        } else {
            lemma_slot(before, event.timestamp as int);
            lemma_oldest_of(
                sorted_in(before, event),
                slot_for(before, event.timestamp as int),
            );
        }
    }
}

/// Two names are the same up to case only where each character is, and only the letters A to Z
/// have another case.
pub proof fn law_case_is_that_of_ascii_letters(a: Seq<char>, b: Seq<char>)
    ensures
        same_ignoring_case(a, b) <==> a.len() == b.len() && forall|i: int|
            #![trigger a[i]]
            0 <= i < a.len() ==> {
                ||| a[i] == b[i]
                ||| 'A' <= a[i] <= 'Z' && b[i] as int == a[i] as int + 32
                ||| 'A' <= b[i] <= 'Z' && a[i] as int == b[i] as int + 32
            },
{
    assert forall|x: char, y: char|
        (#[trigger] ascii_lower(x) == #[trigger] ascii_lower(y)) == {
            ||| x == y
            ||| 'A' <= x <= 'Z' && y as int == x as int + 32
            ||| 'A' <= y <= 'Z' && x as int == y as int + 32
        } by {
        lemma_ascii_lower(x);
        lemma_ascii_lower(y);
    }
    if a.len() == b.len() {
        assert(same_ignoring_case(a, b) == forall|i: int|
            #![trigger a[i]]
            0 <= i < a.len() ==> ascii_lower(a[i]) == ascii_lower(b[i]));
    }
}

proof fn lemma_ascii_lower(c: char)
    ensures
        'A' <= c <= 'Z' ==> ascii_lower(c) as int == c as int + 32,
        !('A' <= c <= 'Z') ==> ascii_lower(c) == c,
{
}

/// A masked name stands for a name exactly where it shows at least one character before its first
/// star, and the name begins as the mask does before that star and ends as it does behind the last
/// one, without the two overlapping.
pub proof fn law_a_mask_shows_head_and_tail(
    masked: Seq<char>,
    name: Seq<char>,
    first: int,
    last: int,
)
    requires
        0 <= first <= last < masked.len(),
        masked[first] == '*',
        masked[last] == '*',
        forall|i: int| 0 <= i < first ==> masked[i] != '*',
        forall|i: int| last < i < masked.len() ==> masked[i] != '*',
    ensures
        mask_fits(masked, name) <==> {
            &&& 0 < first
            &&& first + (masked.len() - 1 - last) <= name.len()
            &&& masked.subrange(0, first) == name.subrange(0, first)
            &&& masked.subrange(last + 1, masked.len() as int) == name.subrange(
                name.len() - (masked.len() - 1 - last),
                name.len() as int,
            )
        },
{
    lemma_first_star_is(masked, first);
    lemma_last_star_is(masked, last);
    let tail = masked.len() - 1 - last;
    if first <= name.len() {
        assert(name.take(first) =~= name.subrange(0, first));
        assert(masked.take(first) =~= masked.subrange(0, first));
    }
    if 0 <= tail <= name.len() {
        assert(name.skip(name.len() - tail) =~= name.subrange(
            name.len() - tail,
            name.len() as int,
        ));
        assert(masked.skip(masked.len() - tail) =~= masked.subrange(
            last + 1,
            masked.len() as int,
        ));
    }
}

/// A name without a star masks no other.
pub proof fn law_no_star_no_mask(masked: Seq<char>, name: Seq<char>)
    requires
        forall|i: int| 0 <= i < masked.len() ==> masked[i] != '*',
    ensures
        !mask_fits(masked, name),
{
    lemma_first_star_bound(masked);
    if first_star(masked) < masked.len() {
        lemma_first_star_at(masked);
    }
}

proof fn lemma_first_star_is(name: Seq<char>, at: int)
    requires
        0 <= at < name.len(),
        name[at] == '*',
        forall|i: int| 0 <= i < at ==> name[i] != '*',
    ensures
        first_star(name) == at,
    decreases name.len(),
{
    if at > 0 {
        assert(name[0] != '*');
        assert(name.skip(1)[at - 1] == '*');
        lemma_first_star_is(name.skip(1), at - 1);
    }
}

proof fn lemma_last_star_is(name: Seq<char>, at: int)
    requires
        0 <= at < name.len(),
        name[at] == '*',
        forall|i: int| at < i < name.len() ==> name[i] != '*',
    ensures
        last_star(name) == at,
    decreases name.len(),
{
    if at < name.len() - 1 {
        assert(name[name.len() - 1] != '*');
        lemma_last_star_is(name.drop_last(), at);
    }
}

/// The places of the first and of the last star of a masked name.
pub proof fn lemma_masks_have_stars(masked: Seq<char>, name: Seq<char>) -> (r: (int, int))
    requires
        mask_fits(masked, name),
    ensures
        0 < r.0 <= r.1 < masked.len(),
        masked[r.0] == '*',
        masked[r.1] == '*',
        forall|i: int| 0 <= i < r.0 ==> masked[i] != '*',
        forall|i: int| r.1 < i < masked.len() ==> masked[i] != '*',
{
    lemma_stars(masked);
    lemma_first_star_at(masked);
    lemma_last_star_after(masked, first_star(masked));
    lemma_around_stars(masked);
    (first_star(masked), last_star(masked))
}

proof fn lemma_around_stars(name: Seq<char>)
    ensures
        forall|i: int| 0 <= i < first_star(name) && i < name.len() ==> name[i] != '*',
        forall|i: int| last_star(name) < i < name.len() ==> name[i] != '*',
        last_star(name) >= 0 ==> last_star(name) < name.len() && name[last_star(name)] == '*',
    decreases name.len(),
{
    if name.len() > 0 {
        lemma_around_stars(name.skip(1));
        lemma_around_stars(name.drop_last());
        lemma_last_star_bound(name);
        assert forall|i: int| 0 <= i < first_star(name) && i < name.len() implies name[i] != '*' by {
            if i > 0 {
                assert(name.skip(1)[i - 1] == name[i]);
            }
        }
        assert forall|i: int| last_star(name) < i < name.len() implies name[i] != '*' by {
            if i < name.len() - 1 {
                assert(name.drop_last()[i] == name[i]);
            }
        }
    }
}

/// Whether two events tell the same message is asked of a live chat message and one of the
/// history alone, and they do only where their texts are equal up to the white space around them
/// and no more than three seconds lie between them.
pub proof fn law_different_messages_are_told_apart(a: DanmuEvent, b: DanmuEvent)
    requires
        is_cross_origin_duplicate(a, b),
    ensures
        text::trimmed(a.content@) == text::trimmed(b.content@),
        a.kind == DanmuEventKind::Danmu && b.kind == DanmuEventKind::Danmu,
        a.origin == DanmuEventOrigin::Live <==> b.origin == DanmuEventOrigin::History,
        a.origin == DanmuEventOrigin::History <==> b.origin == DanmuEventOrigin::Live,
        a.origin != DanmuEventOrigin::Archived,
        a.timestamp - b.timestamp <= 3000 && b.timestamp - a.timestamp <= 3000,
{
}

/// Two events with different texts are two messages, whatever white space stands around the texts.
pub proof fn law_different_texts_are_two_messages(
    a: DanmuEvent,
    b: DanmuEvent,
    core: Seq<char>,
    other: Seq<char>,
    margins: Seq<Seq<char>>,
)
    requires
        margins.len() == 4,
        forall|i: int| 0 <= i < 4 ==> text::is_blank(#[trigger] margins[i]),
        core.len() > 0 ==> !text::is_whitespace(core[0]) && !text::is_whitespace(core.last()),
        other.len() > 0 ==> !text::is_whitespace(other[0]) && !text::is_whitespace(other.last()),
        a.content@ == margins[0] + core + margins[1],
        b.content@ == margins[2] + other + margins[3],
        core != other,
    ensures
        !is_cross_origin_duplicate(a, b),
{
    text::law_trimming_finds_the_text_between(margins[0], core, margins[1]);
    text::law_trimming_finds_the_text_between(margins[2], other, margins[3]);
}

/// Two events whose authors have different identifiers are two messages; an identifier that is
/// missing, empty or the platform's zero says nothing of the author.
pub proof fn law_different_authors_are_two_messages(a: DanmuEvent, b: DanmuEvent)
    requires
        a.author_id is Some,
        b.author_id is Some,
        a.author_id->0@.len() > 0,
        b.author_id->0@.len() > 0,
        a.author_id->0@ != seq!['0'],
        b.author_id->0@ != seq!['0'],
        a.author_id->0@ != b.author_id->0@,
    ensures
        !is_cross_origin_duplicate(a, b),
{
    reveal_strlit("0");
    assert("0"@ =~= seq!['0']);
}

/// The same chat message of the same author, once live and once from the history, is one message:
/// its texts differ at most in the white space around them, and no more than three seconds lie
/// between the two.
pub proof fn law_the_same_message_is_told_once(
    a: DanmuEvent,
    b: DanmuEvent,
    core: Seq<char>,
    margins: Seq<Seq<char>>,
)
    requires
        a.kind == DanmuEventKind::Danmu,
        b.kind == DanmuEventKind::Danmu,
        (a.origin == DanmuEventOrigin::Live && b.origin == DanmuEventOrigin::History) || (a.origin
            == DanmuEventOrigin::History && b.origin == DanmuEventOrigin::Live),
        margins.len() == 4,
        forall|i: int| 0 <= i < 4 ==> text::is_blank(#[trigger] margins[i]),
        core.len() > 0 ==> !text::is_whitespace(core[0]) && !text::is_whitespace(core.last()),
        a.content@ == margins[0] + core + margins[1],
        b.content@ == margins[2] + core + margins[3],
        a.timestamp - b.timestamp <= 3000 && b.timestamp - a.timestamp <= 3000,
        a.author_id is Some,
        b.author_id is Some,
        a.author_id->0@ == b.author_id->0@,
        a.author_id->0@.len() > 0,
        a.author_id->0@ != seq!['0'],
    ensures
        is_cross_origin_duplicate(a, b),
        is_cross_origin_duplicate(b, a),
{
    text::law_trimming_finds_the_text_between(margins[0], core, margins[1]);
    text::law_trimming_finds_the_text_between(margins[2], core, margins[3]);
    reveal_strlit("0");
    assert("0"@ =~= seq!['0']);
}

/// Whether two events tell the same message does not depend on which of them is asked first.
pub proof fn law_telling_the_same_message_is_mutual(a: DanmuEvent, b: DanmuEvent)
    ensures
        is_cross_origin_duplicate(a, b) == is_cross_origin_duplicate(b, a),
{
    if a.username is Some && b.username is Some {
        let x = a.username->0@;
        let y = b.username->0@;
        if same_ignoring_case(x, y) {
            assert forall|i: int| 0 <= i < y.len() implies ascii_lower(#[trigger] y[i])
                == ascii_lower(x[i]) by {
                assert(ascii_lower(x[i]) == ascii_lower(y[i]));
            }
        }
        if same_ignoring_case(y, x) {
            assert forall|i: int| 0 <= i < x.len() implies ascii_lower(#[trigger] x[i])
                == ascii_lower(y[i]) by {
                assert(ascii_lower(y[i]) == ascii_lower(x[i]));
            }
        }
    }
}

/// Where one of the two events does not tell its author's identifier, both name their author, and
/// the names are equal up to case or one is a mask of the other.
pub proof fn law_nameless_messages_are_never_merged(a: DanmuEvent, b: DanmuEvent)
    requires
        is_cross_origin_duplicate(a, b),
        a.author_id is None || a.author_id->0@.len() == 0 || a.author_id->0@ == seq!['0']
            || b.author_id is None || b.author_id->0@.len() == 0 || b.author_id->0@ == seq!['0'],
    ensures
        a.username is Some,
        b.username is Some,
        same_ignoring_case(a.username->0@, b.username->0@) || mask_fits(
            a.username->0@,
            b.username->0@,
        ) || mask_fits(b.username->0@, a.username->0@),
{
    reveal_strlit("0");
    assert("0"@ =~= seq!['0']);
}

/// An arrival stands behind everything later than it and before everything else, so that of two
/// events of one instant the later arrival comes first; nothing else moves.
pub proof fn law_an_arrival_takes_its_place_in_time(events: Seq<DanmuEvent>, event: DanmuEvent)
    requires
        newest_first(events),
    ensures
        newest_first(sorted_in(events, event)),
        exists|at: int|
            #![trigger events.insert(at, event)]
            {
                &&& 0 <= at <= events.len()
                &&& sorted_in(events, event) == events.insert(at, event)
                &&& forall|i: int| 0 <= i < at ==> (#[trigger] events[i]).timestamp > event.timestamp
                &&& forall|i: int|
                    at <= i < events.len() ==> (#[trigger] events[i]).timestamp <= event.timestamp
            },
{
    lemma_slot(events, event.timestamp as int);
    lemma_sorted_in(events, event);
    let at = slot_for(events, event.timestamp as int);
    assert(sorted_in(events, event) == events.insert(at, event));
}

/// Only entries and likes pass; every other event lasts.
pub proof fn law_only_entries_and_likes_pass(event: DanmuEvent)
    ensures
        passes(event) <==> event.kind == DanmuEventKind::Enter || event.kind
            == DanmuEventKind::Like,
{
}

/// As long as there is room for one more of its sort, an arrival is kept and pushes nothing out.
pub proof fn law_nothing_is_lost_below_the_limit(
    events: Seq<DanmuEvent>,
    event: DanmuEvent,
    limit: nat,
)
    requires
        count_sort(events, passes(event)) < limit,
    ensures
        keeps_new(events, event, limit),
        taken_in(events, event, limit).len() == events.len() + 1,
        taken_in(events, event, limit).contains(event),
        forall|i: int|
            0 <= i < events.len() ==> taken_in(events, event, limit).contains(#[trigger] events[i]),
{
    lemma_slot(events, event.timestamp as int);
    let at = slot_for(events, event.timestamp as int);
    lemma_count_insert(events, at, event, passes(event));
    let all = taken_in(events, event, limit);
    assert(all[at] == event);
    assert forall|i: int| 0 <= i < events.len() implies all.contains(#[trigger] events[i]) by {
        if i < at {
            assert(all[i] == events[i]);
        } else {
            assert(all[i + 1] == events[i]);
        }
    }
}

/// Where there is no room, the oldest of the arrival's own sort makes room, and nothing else.
pub proof fn law_the_oldest_makes_room(events: Seq<DanmuEvent>, event: DanmuEvent, limit: nat)
    requires
        count_sort(events, passes(event)) >= limit,
    ensures
        exists|gone: int|
            #![trigger sorted_in(events, event).remove(gone)]
            {
                let all = sorted_in(events, event);
                &&& 0 <= gone < all.len()
                &&& taken_in(events, event, limit) == all.remove(gone)
                &&& passes(all[gone]) == passes(event)
                &&& forall|i: int|
                    gone < i < all.len() ==> passes(#[trigger] all[i]) != passes(event)
            },
{
    lemma_slot(events, event.timestamp as int);
    let at = slot_for(events, event.timestamp as int);
    lemma_count_insert(events, at, event, passes(event));
    let all = sorted_in(events, event);
    assert(all[at] == event);
    lemma_oldest_of(all, at);
    lemma_none_behind_oldest(all, passes(event));
    let gone = oldest_of(all, passes(event));
    assert(taken_in(events, event, limit) == all.remove(gone));
}

proof fn lemma_none_behind_oldest(events: Seq<DanmuEvent>, passing: bool)
    ensures
        forall|i: int|
            oldest_of(events, passing) < i < events.len() && 0 <= i ==> passes(
                #[trigger] events[i],
            ) != passing,
    decreases events.len(),
{
    if events.len() > 0 && passes(events.last()) != passing {
        let rest = events.drop_last();
        lemma_none_behind_oldest(rest, passing);
        assert forall|i: int|
            oldest_of(events, passing) < i < events.len() && 0 <= i implies passes(
            #[trigger] events[i],
        ) != passing by {
            if i < events.len() - 1 {
                assert(rest[i] == events[i]);
            }
        }
    }
}

/// An event that is known under its identifier and comes again with another text takes the place
/// of what was known, at the time of the first; with the same text it changes nothing. Nothing else
/// changes.
pub proof fn law_a_repeated_event_brings_its_text(
    events: Seq<DanmuEvent>,
    after: Seq<DanmuEvent>,
    event: DanmuEvent,
    limit: nat,
    at: int,
)
    requires
        is_first_with_id(events, event.id@, at),
        events[at].gift is None || event.gift is None,
        ingested(events, after, event, limit),
    ensures
        after.len() == events.len(),
        after[at].content@ == event.content@,
        after[at].timestamp == events[at].timestamp,
        events[at].content@ != event.content@ ==> after[at].username == event.username
            && after[at].kind == event.kind && after[at].id == event.id,
        events[at].content@ == event.content@ ==> after == events,
        forall|i: int| 0 <= i < events.len() && i != at ==> #[trigger] after[i] == events[i],
{
    lemma_first_place(events, event.id@, at);
    assert(has_id(events, event.id@));
}

/// The events of a sort are counted one by one.
pub proof fn law_events_are_counted_by_sort(events: Seq<DanmuEvent>, passing: bool)
    ensures
        count_sort(events, passing) == events.filter(
            |event: DanmuEvent|
                (event.kind == DanmuEventKind::Enter || event.kind == DanmuEventKind::Like)
                    == passing,
        ).len(),
    decreases events.len(),
{
    reveal(Seq::filter);
    let sort = |event: DanmuEvent|
        (event.kind == DanmuEventKind::Enter || event.kind == DanmuEventKind::Like) == passing;
    if events.len() > 0 {
        law_events_are_counted_by_sort(events.drop_last(), passing);
        assert(passes(events.last()) == passing <==> sort(events.last()));
    }
}

/// Replacing one event changes the number of a sort by one at most.
pub proof fn lemma_count_update(
    events: Seq<DanmuEvent>,
    at: int,
    event: DanmuEvent,
    passing: bool,
)
    requires
        0 <= at < events.len(),
    ensures
        count_sort(events.update(at, event), passing) <= count_sort(events, passing) + 1,
        passes(event) == passes(events[at]) ==> count_sort(events.update(at, event), passing)
            == count_sort(events, passing),
    decreases events.len(),
{
    let after = events.update(at, event);
    if at == events.len() - 1 {
        assert(after.drop_last() =~= events.drop_last());
    } else {
        assert(after.drop_last() =~= events.drop_last().update(at, event));
        lemma_count_update(events.drop_last(), at, event, passing);
    }
}

/// With room for it, an event that is taken in is known afterwards, and so is every event that was.
pub proof fn law_nothing_known_is_forgotten_below_the_limit(
    events: Seq<DanmuEvent>,
    after: Seq<DanmuEvent>,
    event: DanmuEvent,
    limit: nat,
    id: Seq<char>,
)
    requires
        ingested(events, after, event, limit),
        count_sort(events, passes(event)) < limit,
    ensures
        has_id(after, event.id@),
        has_id(events, id) ==> has_id(after, id),
        forall|passing: bool| #[trigger]
            count_sort(after, passing) <= count_sort(events, passing) + 1,
{
    if has_id(events, event.id@) {
        lemma_place(events, event.id@);
        let at = first_place(events, event.id@);
        law_known_events_keep_their_place(events, after, event, limit);
        assert(after[at].id@ == event.id@);
        if has_id(events, id) {
            let i = choose|i: int| 0 <= i < events.len() && (#[trigger] events[i]).id@ == id;
            assert(after[i].id@ == id);
        }
        assert forall|passing: bool| #[trigger] count_sort(after, passing) <= count_sort(
            events,
            passing,
        ) + 1 by {
            if updates(events[at], event) {
                lemma_count_update(events, at, after[at], passing);
            }
        }
    } else {
        law_nothing_is_lost_below_the_limit(events, event, limit);
        lemma_slot(events, event.timestamp as int);
        let slot = slot_for(events, event.timestamp as int);
        let i = choose|i: int| 0 <= i < after.len() && after[i] == event;
        assert(after[i].id@ == event.id@);
        if has_id(events, id) {
            let j = choose|j: int| 0 <= j < events.len() && (#[trigger] events[j]).id@ == id;
            assert(after.contains(events[j]));
            let k = choose|k: int| 0 <= k < after.len() && after[k] == events[j];
            assert(after[k].id@ == id);
        }
        assert forall|passing: bool| #[trigger] count_sort(after, passing) <= count_sort(
            events,
            passing,
        ) + 1 by {
            lemma_count_insert(events, slot, event, passing);
            lemma_count_insert(events, slot, event, passes(event));
        }
    }
}

} // verus!
