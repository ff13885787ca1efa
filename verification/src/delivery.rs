//! Messages on their way: which of them an event of the room confirms.
use vstd::prelude::*;
use vstd::string::*;

use crate::domain;
use crate::domain::{DanmuEvent, DanmuEventKind};
use crate::text;

verus! {

/// How long after its submission a message may still come back, in milliseconds.
pub const DELIVERY_ECHO_WINDOW: i64 = 90000;

/// How far the clocks may differ before a message was submitted, in milliseconds.
pub const CLOCK_SKEW: i64 = 3000;

/// How many messages are remembered at once.
pub const MAX_DELIVERIES: usize = 32;

/// A message that was submitted and has not come back yet.
#[derive(Debug)]
pub struct PendingDelivery {
    pub id: String,
    pub content: String,
    pub broadcaster_name: String,
    pub broadcaster_id: String,
    pub submitted_at: i64,
}

impl PendingDelivery {
    /// Whether an event is this message come back: a message of the same text within the time
    /// window, from the same author. Where the author is masked, the name decides.
    pub open spec fn is_echo(self, event: DanmuEvent) -> bool {
        &&& event.kind == DanmuEventKind::Danmu
        &&& text::trimmed(event.content@) == text::trimmed(self.content@)
        &&& -CLOCK_SKEW <= event.timestamp - self.submitted_at <= DELIVERY_ECHO_WINDOW
        &&& match domain::usable_id(text::opt_view(event.author_id)) {
            Some(author) => author == self.broadcaster_id@,
            None => event.username is Some && (domain::same_ignoring_case(
                event.username->0@,
                self.broadcaster_name@,
            ) || domain::mask_fits(event.username->0@, self.broadcaster_name@)),
        }
    }

    pub fn new(
        id: &str,
        content: &str,
        broadcaster_name: &str,
        broadcaster_id: &str,
        submitted_at: i64,
    ) -> (r: Self)
        ensures
            r.id@ == id@,
            r.content@ == text::trimmed(content@),
            r.broadcaster_name@ == text::trimmed(broadcaster_name@),
            r.broadcaster_id@ == text::trimmed(broadcaster_id@),
            r.submitted_at == submitted_at,
    {
        PendingDelivery {
            id: id.to_owned(),
            content: text::trim(content),
            broadcaster_name: text::trim(broadcaster_name),
            broadcaster_id: text::trim(broadcaster_id),
            submitted_at,
        }
    }

    pub fn matches(&self, event: &DanmuEvent) -> (r: bool)
        ensures
            r == self.is_echo(*event),
    {
        if event.kind != DanmuEventKind::Danmu {
            return false;
        }
        let gap: i128 = event.timestamp as i128 - self.submitted_at as i128;
        if gap < -3000 || gap > 90000 {
            return false;
        }
        if !text::same(
            domain::normalized_message(event.content.as_str()).as_str(),
            domain::normalized_message(self.content.as_str()).as_str(),
        ) {
            return false;
        }
        match domain::usable_author_id(&event.author_id) {
            Some(author) => text::same(author, self.broadcaster_id.as_str()),
            None => match &event.username {
                Some(username) => domain::eq_ignore_ascii_case(
                    username.as_str(),
                    self.broadcaster_name.as_str(),
                ) || domain::masked_name_matches(
                    username.as_str(),
                    self.broadcaster_name.as_str(),
                ),
                None => false,
            },
        }
    }

    /// Gives the event the author that the message was sent by.
    pub fn canonicalize(&self, event: &mut DanmuEvent)
        ensures
            *final(event) == (DanmuEvent {
                username: Some(self.broadcaster_name),
                author_id: Some(self.broadcaster_id),
                ..*old(event)
            }),
    {
        event.username = Some(self.broadcaster_name.clone());
        event.author_id = Some(self.broadcaster_id.clone());
    }
}

/// The last `count` of a list.
pub open spec fn last_of(list: Seq<PendingDelivery>, count: nat) -> Seq<PendingDelivery> {
    if list.len() <= count {
        list
    } else {
        list.skip(list.len() - count)
    }
}

/// The deliveries that may still come back at the time of an event.
pub open spec fn within_window(list: Seq<PendingDelivery>, timestamp: i64) -> Seq<PendingDelivery>
    decreases list.len(),
{
    if list.len() == 0 {
        Seq::empty()
    } else if timestamp <= list.last().submitted_at + DELIVERY_ECHO_WINDOW {
        within_window(list.drop_last(), timestamp).push(list.last())
    } else {
        within_window(list.drop_last(), timestamp)
    }
}

/// The first delivery that the event is the echo of.
pub open spec fn is_first_echo(list: Seq<PendingDelivery>, event: DanmuEvent, at: int) -> bool {
    &&& 0 <= at < list.len()
    &&& list[at].is_echo(event)
    &&& forall|i: int| 0 <= i < at ==> !(#[trigger] list[i]).is_echo(event)
}

pub open spec fn has_echo(list: Seq<PendingDelivery>, event: DanmuEvent) -> bool {
    exists|i: int| 0 <= i < list.len() && (#[trigger] list[i]).is_echo(event)
}

/// Whether a delivery with the identifier is in the list.
pub open spec fn has_delivery(list: Seq<PendingDelivery>, id: Seq<char>) -> bool {
    exists|i: int| 0 <= i < list.len() && (#[trigger] list[i]).id@ == id
}

pub open spec fn is_first_delivery(list: Seq<PendingDelivery>, id: Seq<char>, at: int) -> bool {
    &&& 0 <= at < list.len()
    &&& list[at].id@ == id
    &&& forall|i: int| 0 <= i < at ==> (#[trigger] list[i]).id@ != id
}

/// What an event means for the messages on their way.
#[derive(Debug)]
pub enum Echo {
    /// It is none of them.
    Unrelated,
    /// It is one that has been confirmed already.
    Repeated,
    /// It confirms the message with this identifier.
    Confirmed(String),
}

/// The messages on their way, and those that came back lately.
pub struct Deliveries {
    pub pending: Vec<PendingDelivery>,
    pub confirmed: Vec<PendingDelivery>,
}

fn first_echo(list: &Vec<PendingDelivery>, event: &DanmuEvent) -> (r: Option<usize>)
    ensures
        match r {
            Some(at) => is_first_echo(list@, *event, at as int),
            None => !has_echo(list@, *event),
        },
{
    let mut i: usize = 0;
    while i < list.len()
        invariant
            i <= list@.len(),
            forall|k: int| 0 <= k < i ==> !(#[trigger] list@[k]).is_echo(*event),
        decreases list@.len() - i,
    {
        if list[i].matches(event) {
            return Some(i);
        }
        i = i + 1;
    }
    None
}

fn first_delivery(list: &Vec<PendingDelivery>, id: &str) -> (r: Option<usize>)
    ensures
        match r {
            Some(at) => is_first_delivery(list@, id@, at as int),
            None => !has_delivery(list@, id@),
        },
{
    let mut i: usize = 0;
    while i < list.len()
        invariant
            i <= list@.len(),
            forall|k: int| 0 <= k < i ==> (#[trigger] list@[k]).id@ != id@,
        decreases list@.len() - i,
    {
        if text::same(list[i].id.as_str(), id) {
            return Some(i);
        }
        i = i + 1;
    }
    None
}

/// Removes from the front until no more than `count` are left.
fn keep_last(list: &mut Vec<PendingDelivery>, count: usize)
    ensures
        final(list)@ == last_of(old(list)@, count as nat),
{
    let ghost all = list@;
    proof {
        assert(all.skip(0) =~= all);
    }
    while list.len() > count
        invariant
            list@.len() <= all.len(),
            list@ == all.skip(all.len() - list@.len()),
            all.len() > count ==> list@.len() >= count,
            all.len() <= count ==> list@.len() == all.len(),
        decreases list@.len(),
    {
        let ghost before = list@;
        let first: PendingDelivery = list.remove(0);
        proof {
            assert(list@ =~= all.skip(all.len() - list@.len()));
        }
    }
}

impl Deliveries {
    pub open spec fn wf(self) -> bool {
        self.pending@.len() <= MAX_DELIVERIES && self.confirmed@.len() <= MAX_DELIVERIES
    }

    pub fn new() -> (r: Self)
        ensures
            r.wf(),
            r.pending@.len() == 0,
            r.confirmed@.len() == 0,
    {
        Deliveries { pending: Vec::new(), confirmed: Vec::new() }
    }

    /// Notes that a message was submitted; the oldest is forgotten where there are too many.
    pub fn start(&mut self, delivery: PendingDelivery)
        ensures
            final(self).pending@ == last_of(old(self).pending@, 31).push(delivery),
            final(self).confirmed == old(self).confirmed,
            final(self).pending@.len() <= MAX_DELIVERIES,
    {
        keep_last(&mut self.pending, 31);
        self.pending.push(delivery);
    }

    /// Forgets a message that is on its way. The answer says whether there was one.
    pub fn clear_delivery(&mut self, id: &str) -> (r: bool)
        ensures
            r == has_delivery(old(self).pending@, id@),
            !r ==> final(self).pending@ == old(self).pending@,
            forall|at: int| #[trigger]
                is_first_delivery(old(self).pending@, id@, at) ==> final(self).pending@ == old(self).pending@.remove(at),
            final(self).confirmed == old(self).confirmed,
    {
        match first_delivery(&self.pending, id) {
            Some(at) => {
                proof {
                    assert forall|other: int| #[trigger]
                        is_first_delivery(self.pending@, id@, other) implies other == at by {}
                }
                let gone: PendingDelivery = self.pending.remove(at);
                true
            },
            None => false,
        }
    }

    /// Whether any of the messages is still on its way.
    pub fn any_pending(&self, ids: &Vec<String>) -> (r: bool)
        ensures
            r == exists|i: int|
                0 <= i < ids@.len() && has_delivery(self.pending@, (#[trigger] ids@[i])@),
    {
        let mut i: usize = 0;
        while i < ids.len()
            invariant
                i <= ids@.len(),
                forall|k: int| 0 <= k < i ==> !has_delivery(self.pending@, (#[trigger] ids@[k])@),
            decreases ids@.len() - i,
        {
            if first_delivery(&self.pending, ids[i].as_str()).is_some() {
                proof {
                    assert(has_delivery(self.pending@, ids@[i as int]@));
                }
                return true;
            }
            i = i + 1;
        }
        false
    }

    /// The text of a message that is on its way.
    pub fn content_of(&self, id: &str) -> (r: Option<String>)
        ensures
            r is Some == has_delivery(self.pending@, id@),
            forall|at: int| #[trigger]
                is_first_delivery(self.pending@, id@, at) ==> r is Some && r->0@
                    == self.pending@[at].content@,
    {
        match first_delivery(&self.pending, id) {
            Some(at) => {
                proof {
                    assert forall|other: int| #[trigger]
                        is_first_delivery(self.pending@, id@, other) implies other == at by {}
                }
                Some(self.pending[at].content.clone())
            },
            None => None,
        }
    }

    fn forget_before(&mut self, timestamp: i64)
        ensures
            final(self).confirmed@ == within_window(old(self).confirmed@, timestamp),
            final(self).pending == old(self).pending,
            final(self).confirmed@.len() <= old(self).confirmed@.len(),
    {
        let ghost all = self.confirmed@;
        let mut kept: Vec<PendingDelivery> = Vec::new();
        let count: usize = self.confirmed.len();
        let mut i: usize = 0;
        proof {
            assert(all.take(0) =~= Seq::empty());
            assert(all.skip(0) =~= all);
        }
        while i < count
            invariant
                i <= count == all.len(),
                self.confirmed@ == all.skip(i as int),
                self.pending == old(self).pending,
                kept@ == within_window(all.take(i as int), timestamp),
                kept@.len() <= i,
            decreases count - i,
        {
            proof {
                assert(all.take(i + 1).drop_last() =~= all.take(i as int));
                assert(all.skip(i as int)[0] == all[i as int]);
            }
            let delivery: PendingDelivery = self.confirmed.remove(0);
            proof {
                assert(self.confirmed@ =~= all.skip(i + 1));
            }
            if timestamp as i128 <= delivery.submitted_at as i128 + 90000 {
                kept.push(delivery);
            }
            i = i + 1;
        }
        proof {
            assert(all.take(i as int) =~= all);
        }
        self.confirmed = kept;
    }

    /// Looks whether an event is one of the messages come back. A message on its way that the
    /// event confirms gives the event its author and moves to those that came back; an event that
    /// repeats one of those is told apart, so that it is not shown a second time.
    pub fn observe(&mut self, event: &mut DanmuEvent) -> (r: Echo)
        ensures
            old(self).wf() ==> final(self).wf(),
            r is Confirmed == has_echo(old(self).pending@, *old(event)),
            r is Repeated == (!has_echo(old(self).pending@, *old(event)) && has_echo(
                within_window(old(self).confirmed@, old(event).timestamp),
                *old(event),
            )),
            r !is Confirmed ==> {
                &&& *final(event) == *old(event)
                &&& final(self).pending == old(self).pending
                &&& final(self).confirmed@ == within_window(
                    old(self).confirmed@,
                    old(event).timestamp,
                )
            },
            forall|at: int| #[trigger]
                is_first_echo(old(self).pending@, *old(event), at) ==> {
                    let delivery = old(self).pending@[at];
                    &&& r is Confirmed
                    &&& r->Confirmed_0@ == delivery.id@
                    &&& final(self).pending@ == old(self).pending@.remove(at)
                    &&& final(self).confirmed@ == last_of(
                        within_window(old(self).confirmed@, old(event).timestamp).push(delivery),
                        32,
                    )
                    &&& *final(event) == (DanmuEvent {
                        username: Some(delivery.broadcaster_name),
                        author_id: Some(delivery.broadcaster_id),
                        ..*old(event)
                    })
                },
    {
        let found: Option<usize> = first_echo(&self.pending, event);
        self.forget_before(event.timestamp);
        match found {
            None => if first_echo(&self.confirmed, event).is_some() {
                Echo::Repeated
            } else {
                Echo::Unrelated
            },
            Some(at) => {
                proof {
                    assert forall|other: int| #[trigger]
                        is_first_echo(old(self).pending@, *old(event), other) implies other
                        == at by {}
                }
                let delivery: PendingDelivery = self.pending.remove(at);
                delivery.canonicalize(event);
                let id: String = delivery.id.clone();
                self.confirmed.push(delivery);
                keep_last(&mut self.confirmed, 32);
                Echo::Confirmed(id)
            },
        }
    }
}

proof fn lemma_window_keeps(list: Seq<PendingDelivery>, timestamp: i64, i: int)
    requires
        0 <= i < list.len(),
        timestamp <= list[i].submitted_at + DELIVERY_ECHO_WINDOW,
    ensures
        within_window(list, timestamp).contains(list[i]),
    decreases list.len(),
{
    let rest = within_window(list.drop_last(), timestamp);
    if i == list.len() - 1 {
        assert(within_window(list, timestamp)[rest.len() as int] == list[i]);
    } else {
        lemma_window_keeps(list.drop_last(), timestamp, i);
        assert(list.drop_last()[i] == list[i]);
        let at = choose|k: int| 0 <= k < rest.len() && rest[k] == list[i];
        assert(within_window(list, timestamp)[at] == list[i]);
    }
}

/// A message that came back once is not taken in again: as long as its window is open, another
/// echo of it is told apart as a repetition.
pub proof fn law_a_confirmed_message_is_recognised_again(
    confirmed: Seq<PendingDelivery>,
    event: DanmuEvent,
    i: int,
)
    requires
        0 <= i < confirmed.len(),
        confirmed[i].is_echo(event),
    ensures
        has_echo(within_window(confirmed, event.timestamp), event),
{
    lemma_window_keeps(confirmed, event.timestamp, i);
    let kept = within_window(confirmed, event.timestamp);
    let at = choose|k: int| 0 <= k < kept.len() && kept[k] == confirmed[i];
    assert(kept[at].is_echo(event));
}

/// Only the author that sent a message can confirm it, where the event names its author.
pub proof fn law_other_authors_confirm_nothing(delivery: PendingDelivery, event: DanmuEvent)
    requires
        domain::usable_id(text::opt_view(event.author_id)) is Some,
        domain::usable_id(text::opt_view(event.author_id))->0 != delivery.broadcaster_id@,
    ensures
        !delivery.is_echo(event),
{
}

/// An event that does not tell its author's identifier confirms a message only under the sender's
/// own name: the same up to the case of the letters A to Z, or masked so that the name begins as
/// the mask does before its first star and ends as it does behind its last.
pub proof fn law_only_the_senders_name_confirms(delivery: PendingDelivery, event: DanmuEvent)
    requires
        delivery.is_echo(event),
        event.author_id is None || event.author_id->0@.len() == 0 || event.author_id->0@
            == seq!['0'],
    ensures
        event.username is Some,
        ({
            let shown = event.username->0@;
            let name = delivery.broadcaster_name@;
            ||| shown.len() == name.len() && forall|i: int|
                #![trigger shown[i]]
                0 <= i < shown.len() ==> {
                    ||| shown[i] == name[i]
                    ||| 'A' <= shown[i] <= 'Z' && name[i] as int == shown[i] as int + 32
                    ||| 'A' <= name[i] <= 'Z' && shown[i] as int == name[i] as int + 32
                }
            ||| exists|first: int, last: int|
                {
                    &&& 0 < first <= last < shown.len()
                    &&& shown[first] == '*'
                    &&& shown[last] == '*'
                    &&& forall|i: int| 0 <= i < first ==> shown[i] != '*'
                    &&& forall|i: int| last < i < shown.len() ==> shown[i] != '*'
                    &&& first + (shown.len() - 1 - last) <= name.len()
                    &&& #[trigger] shown.subrange(0, first) == name.subrange(0, first)
                    &&& #[trigger] shown.subrange(last + 1, shown.len() as int) == name.subrange(
                        name.len() - (shown.len() - 1 - last),
                        name.len() as int,
                    )
                }
        }),
{
    reveal_strlit("0");
    assert("0"@ =~= seq!['0']);
    let shown = event.username->0@;
    let name = delivery.broadcaster_name@;
    domain::law_case_is_that_of_ascii_letters(shown, name);
    if domain::mask_fits(shown, name) {
        let (first, last) = domain::lemma_masks_have_stars(shown, name);
        domain::law_a_mask_shows_head_and_tail(shown, name, first, last);
        assert(shown.subrange(0, first) == name.subrange(0, first));
        assert(shown.subrange(last + 1, shown.len() as int) == name.subrange(
            name.len() - (shown.len() - 1 - last),
            name.len() as int,
        ));
    }
}

/// The masked line of a viewer with another name confirms nothing: a character that it shows
/// before its first star, or behind its last, and that the sender's name does not have there is
/// enough.
pub proof fn law_a_masked_viewer_confirms_nothing(
    delivery: PendingDelivery,
    event: DanmuEvent,
    first: int,
    last: int,
    at: int,
)
    requires
        event.author_id is None || event.author_id->0@.len() == 0 || event.author_id->0@
            == seq!['0'],
        event.username is Some,
        0 <= first <= last < event.username->0@.len(),
        event.username->0@[first] == '*',
        event.username->0@[last] == '*',
        forall|i: int| 0 <= i < first ==> event.username->0@[i] != '*',
        forall|i: int| last < i < event.username->0@.len() ==> event.username->0@[i] != '*',
        forall|i: int|
            0 <= i < delivery.broadcaster_name@.len() ==> delivery.broadcaster_name@[i] != '*',
        ({
            let shown = event.username->0@;
            let name = delivery.broadcaster_name@;
            ||| 0 <= at < first && (at >= name.len() || shown[at] != name[at])
            ||| 0 <= at < shown.len() - 1 - last && (at >= name.len() || shown[shown.len() - 1 - at]
                != name[name.len() - 1 - at])
        }),
    ensures
        !delivery.is_echo(event),
{
    reveal_strlit("0");
    assert("0"@ =~= seq!['0']);
    let shown = event.username->0@;
    let name = delivery.broadcaster_name@;
    domain::law_case_is_that_of_ascii_letters(shown, name);
    domain::law_a_mask_shows_head_and_tail(shown, name, first, last);
    if domain::same_ignoring_case(shown, name) {
        assert(shown[first] == '*');
        assert(name[first] == '*');
    }
    if domain::mask_fits(shown, name) {
        let tail = shown.len() - 1 - last;
        if 0 <= at < first && (at >= name.len() || shown[at] != name[at]) {
            assert(shown.subrange(0, first)[at] == name.subrange(0, first)[at]);
        } else {
            assert(shown.subrange(last + 1, shown.len() as int)[tail - 1 - at]
                == shown[shown.len() - 1 - at]);
            assert(name.subrange(name.len() - tail, name.len() as int)[tail - 1 - at]
                == name[name.len() - 1 - at]);
        }
    }
}

/// A chat message confirms only a message with its text, and only from three seconds before the
/// sending on, for the skew of the clocks, to ninety seconds behind it.
pub proof fn law_only_the_text_in_its_window_confirms(delivery: PendingDelivery, event: DanmuEvent)
    requires
        delivery.is_echo(event),
    ensures
        event.kind == DanmuEventKind::Danmu,
        text::trimmed(event.content@) == text::trimmed(delivery.content@),
        delivery.submitted_at - 3000 <= event.timestamp <= delivery.submitted_at + 90000,
{
}

/// The sender's own message is recognised: the same text up to the white space around it, within
/// the window, under the sender's identifier, or without an identifier under the sender's name.
pub proof fn law_the_senders_own_message_confirms(
    delivery: PendingDelivery,
    event: DanmuEvent,
    before: Seq<char>,
    behind: Seq<char>,
)
    requires
        text::is_blank(before),
        text::is_blank(behind),
        delivery.content@.len() > 0 ==> !text::is_whitespace(delivery.content@[0])
            && !text::is_whitespace(delivery.content@.last()),
        event.kind == DanmuEventKind::Danmu,
        event.content@ == before + delivery.content@ + behind,
        delivery.submitted_at - 3000 <= event.timestamp <= delivery.submitted_at + 90000,
        event.author_id is Some && event.author_id->0@.len() > 0 && event.author_id->0@
            != seq!['0'] && event.author_id->0@ == delivery.broadcaster_id@ || (event.author_id
            is None && event.username is Some && event.username->0@
            == delivery.broadcaster_name@),
    ensures
        delivery.is_echo(event),
{
    reveal_strlit("0");
    assert("0"@ =~= seq!['0']);
    let none = Seq::<char>::empty();
    assert(text::is_blank(none));
    text::law_trimming_finds_the_text_between(before, delivery.content@, behind);
    text::law_trimming_finds_the_text_between(none, delivery.content@, none);
    assert(none + delivery.content@ + none =~= delivery.content@);
}

/// Of the messages that came back, exactly those stay remembered whose window is still open.
pub proof fn law_memory_lasts_as_long_as_the_window(
    list: Seq<PendingDelivery>,
    timestamp: i64,
    delivery: PendingDelivery,
)
    ensures
        within_window(list, timestamp).contains(delivery) <==> list.contains(delivery) && timestamp
            - delivery.submitted_at <= 90000,
    decreases list.len(),
{
    if list.len() > 0 {
        let rest = list.drop_last();
        let kept = within_window(rest, timestamp);
        law_memory_lasts_as_long_as_the_window(rest, timestamp, delivery);
        if list.contains(delivery) {
            let at = choose|k: int| 0 <= k < list.len() && list[k] == delivery;
            if at < rest.len() {
                assert(rest[at] == delivery);
            }
        }
        if rest.contains(delivery) {
            let at = choose|k: int| 0 <= k < rest.len() && rest[k] == delivery;
            assert(list[at] == delivery);
        }
        assert(list[list.len() - 1] == list.last());
        if kept.contains(delivery) {
            let at = choose|k: int| 0 <= k < kept.len() && kept[k] == delivery;
            assert(kept.push(list.last())[at] == delivery);
        }
        if timestamp <= list.last().submitted_at + DELIVERY_ECHO_WINDOW {
            assert(within_window(list, timestamp)[kept.len() as int] == list.last());
            if within_window(list, timestamp).contains(delivery) {
                let at = choose|k: int|
                    0 <= k < kept.len() + 1 && within_window(list, timestamp)[k] == delivery;
                if at < kept.len() {
                    assert(kept[at] == delivery);
                }
            }
        }
    }
}

/// Where too many messages are on their way, the latest stay.
pub proof fn law_the_latest_messages_stay(list: Seq<PendingDelivery>, count: nat)
    ensures
        last_of(list, count).len() <= count,
        last_of(list, count).len() == count || last_of(list, count) == list,
        forall|i: int|
            0 < i <= last_of(list, count).len() ==> #[trigger] last_of(list, count)[last_of(
                list,
                count,
            ).len() - i] == list[list.len() - i],
{
}

} // verus!
