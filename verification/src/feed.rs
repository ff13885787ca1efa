//! The messages on the screen: following them live, scrolling back, and selecting one to answer.
use vstd::prelude::*;
use vstd::string::*;

use crate::domain;
use crate::domain::{DanmuEvent, DanmuEventKind, DanmuEventOrigin, DanmuSession, Featured};
use crate::events;
use crate::text;

verus! {

/// The messages of a session and where the reader stands among them.
pub struct Feed {
    pub session: DanmuSession,
    pub selection_active: bool,
    pub selected: usize,
    pub scroll_offset: usize,
    pub unread_live_count: u64,
}

/// Which messages the reader goes through.
#[derive(Clone, Copy, Debug, PartialEq, Eq, Structural)]
pub enum Stops {
    /// All that stay, but not the passing notices of activity.
    Lasting,
    /// Those that can be answered: chat by someone with a name.
    Answerable,
}

/// A message is one that the reader goes through.
pub open spec fn stops_at(event: DanmuEvent, stops: Stops) -> bool {
    match stops {
        Stops::Lasting => domain::lifetime_of(event.kind) is None,
        Stops::Answerable => event.kind == DanmuEventKind::Danmu && match event.username {
            Some(name) => text::trimmed(name@).len() > 0,
            None => false,
        },
    }
}

/// The first stop at or behind a position.
pub open spec fn stop_from(events: Seq<DanmuEvent>, from: int, stops: Stops) -> Option<int>
    decreases events.len() - from,
{
    if from < 0 || from >= events.len() {
        None
    } else if stops_at(events[from], stops) {
        Some(from)
    } else {
        stop_from(events, from + 1, stops)
    }
}

/// The last stop before a position.
pub open spec fn stop_before(events: Seq<DanmuEvent>, to: int, stops: Stops) -> Option<int>
    decreases to,
{
    if to <= 0 || to > events.len() {
        None
    } else if stops_at(events[to - 1], stops) {
        Some(to - 1)
    } else {
        stop_before(events, to - 1, stops)
    }
}

pub proof fn lemma_stop_from(events: Seq<DanmuEvent>, from: int, stops: Stops)
    requires
        from >= 0,
    ensures
        match stop_from(events, from, stops) {
            Some(i) => from <= i < events.len() && stops_at(events[i], stops) && forall|k: int|
                from <= k < i ==> !stops_at(#[trigger] events[k], stops),
            None => forall|k: int| from <= k < events.len() ==> !stops_at(#[trigger] events[k], stops),
        },
    decreases events.len() - from,
{
    if from < events.len() && !stops_at(events[from], stops) {
        lemma_stop_from(events, from + 1, stops);
    }
}

pub proof fn lemma_stop_before(events: Seq<DanmuEvent>, to: int, stops: Stops)
    requires
        to <= events.len(),
    ensures
        match stop_before(events, to, stops) {
            Some(i) => 0 <= i < to && stops_at(events[i], stops) && forall|k: int|
                i < k < to ==> !stops_at(#[trigger] events[k], stops),
            None => forall|k: int| 0 <= k < to ==> !stops_at(#[trigger] events[k], stops),
        },
    decreases to,
{
    if to > 0 && !stops_at(events[to - 1], stops) {
        lemma_stop_before(events, to - 1, stops);
    }
}

fn stops(event: &DanmuEvent, which: Stops) -> (r: bool)
    ensures
        r == stops_at(*event, which),
{
    match which {
        Stops::Lasting => event.kind.activity_lifetime().is_none(),
        Stops::Answerable => event.kind == DanmuEventKind::Danmu && (match &event.username {
            Some(name) => !text::trim(name.as_str()).as_str().is_empty(),
            None => false,
        }),
    }
}

fn find_from(events: &Vec<DanmuEvent>, from: usize, which: Stops) -> (r: Option<usize>)
    ensures
        match stop_from(events@, from as int, which) {
            Some(i) => r matches Some(at) && at == i && i < events@.len(),
            None => r is None,
        },
{
    let mut i: usize = from;
    while i < events.len()
        invariant
            from <= i,
            stop_from(events@, from as int, which) == stop_from(events@, i as int, which),
        decreases events@.len() - i,
    {
        if stops(&events[i], which) {
            return Some(i);
        }
        i = i + 1;
    }
    None
}

fn find_before(events: &Vec<DanmuEvent>, to: usize, which: Stops) -> (r: Option<usize>)
    requires
        to <= events@.len(),
    ensures
        match stop_before(events@, to as int, which) {
            Some(i) => r matches Some(at) && at == i && i < to,
            None => r is None,
        },
{
    let mut i: usize = to;
    while i > 0
        invariant
            i <= to <= events@.len(),
            stop_before(events@, to as int, which) == stop_before(events@, i as int, which),
        decreases i,
    {
        if stops(&events[i - 1], which) {
            return Some(i - 1);
        }
        i = i - 1;
    }
    None
}

/// The place of the event with an identifier, or the newest place.
pub open spec fn place_or_first(events: Seq<DanmuEvent>, id: Seq<char>) -> int
    decreases events.len(),
{
    if domain::has_id(events, id) {
        domain::first_place(events, id)
    } else {
        0
    }
}

fn find_place(events: &Vec<DanmuEvent>, id: &str) -> (r: usize)
    ensures
        r == place_or_first(events@, id@),
{
    match domain::position_of(events, id) {
        Some(at) => {
            proof {
                domain::lemma_first_place(events@, id@, at as int);
                assert(events@[at as int].id@ == id@);
            }
            at
        },
        None => 0,
    }
}

/// What became of an event.
#[derive(Clone, Copy, Debug, PartialEq, Eq, Structural)]
pub enum Taken {
    /// Another record of it was there, from the other source.
    Merged,
    /// It was there already, or is too old to be kept.
    Unchanged,
    /// It was taken in; a new message, or a new content of a known one.
    Stored { fresh: bool },
}

/// The identifier that the reader stands at, where there is one.
pub open spec fn anchor(events: Seq<DanmuEvent>, holds: bool, at: int) -> Option<Seq<char>> {
    if holds && 0 <= at < events.len() {
        Some(events[at].id@)
    } else {
        None
    }
}

/// The place of what the reader stood at, or the newest place.
pub open spec fn replaced(events: Seq<DanmuEvent>, anchor: Option<Seq<char>>) -> int {
    match anchor {
        Some(id) => place_or_first(events, id),
        None => 0,
    }
}

/// The message at the reader's place was marked.
pub open spec fn marked(before: Feed, after: Feed) -> bool {
    let event = before.events()[before.selected as int];
    &&& after == (Feed {
        session: DanmuSession {
            featured_event: after.session.featured_event,
            ..before.session
        },
        ..before
    })
    &&& after.session.featured_event matches Some(featured) && featured.id == event.id
        && featured.username == event.username && featured.shown@ == events::emote_content(event)
}

impl Feed {
    pub open spec fn wf(self) -> bool {
        self.session.wf()
    }

    pub open spec fn events(self) -> Seq<DanmuEvent> {
        self.session.recent_events@
    }

    /// The reader follows the newest messages.
    pub open spec fn live(self) -> Feed {
        Feed {
            selection_active: false,
            selected: 0,
            scroll_offset: 0,
            unread_live_count: 0,
            ..self
        }
    }

    pub open spec fn browses(self) -> bool {
        self.selection_active || self.scroll_offset > 0
    }

    pub fn new(session: DanmuSession) -> (r: Self)
        requires
            session.wf(),
        ensures
            r.wf(),
            r.session == session,
            r == r.live(),
    {
        Feed {
            session,
            selection_active: false,
            selected: 0,
            scroll_offset: 0,
            unread_live_count: 0,
        }
    }

    pub fn is_browsing_history(&self) -> (r: bool)
        ensures
            r == self.browses(),
    {
        self.selection_active || self.scroll_offset > 0
    }

    pub fn return_to_live(&mut self)
        ensures
            *final(self) == old(self).live(),
    {
        self.selection_active = false;
        self.selected = 0;
        self.scroll_offset = 0;
        self.unread_live_count = 0;
    }

    /// The feed after the reader scrolled by one message. Activity is never a stop, and scrolling
    /// back to the newest message follows live again.
    pub open spec fn scrolled(self, older: bool) -> Feed {
        match stop_from(self.events(), 0, Stops::Lasting) {
            None => self.live(),
            Some(newest) => {
                let here: int = if self.selection_active {
                    self.selected as int
                } else {
                    self.scroll_offset as int
                };
                let anchor = if here < newest {
                    newest
                } else {
                    here
                };
                let next = if older {
                    match stop_from(self.events(), anchor + 1, Stops::Lasting) {
                        Some(i) => i,
                        None => anchor,
                    }
                } else {
                    match stop_before(
                        self.events(),
                        crate::unicode::least(anchor, self.events().len() as int),
                        Stops::Lasting,
                    ) {
                        Some(i) => i,
                        None => newest,
                    }
                };
                if next == newest {
                    self.live()
                } else {
                    Feed {
                        selection_active: false,
                        selected: 0,
                        scroll_offset: next as usize,
                        ..self
                    }
                }
            },
        }
    }

    /// Scrolls by one message.
    pub fn scroll_history(&mut self, older: bool)
        requires
            old(self).wf(),
        ensures
            final(self).wf(),
            *final(self) == old(self).scrolled(older),
    {
        let newest: usize = match find_from(&self.session.recent_events, 0, Stops::Lasting) {
            Some(newest) => newest,
            None => {
                self.return_to_live();
                return;
            },
        };
        let here: usize = if self.selection_active {
            self.selected
        } else {
            self.scroll_offset
        };
        let anchor: usize = if here < newest {
            newest
        } else {
            here
        };
        let next: usize = if older {
            if anchor < self.session.recent_events.len() {
                match find_from(&self.session.recent_events, anchor + 1, Stops::Lasting) {
                    Some(at) => at,
                    None => anchor,
                }
            } else {
                anchor
            }
        } else {
            let to: usize = if anchor < self.session.recent_events.len() {
                anchor
            } else {
                self.session.recent_events.len()
            };
            match find_before(&self.session.recent_events, to, Stops::Lasting) {
                Some(at) => at,
                None => newest,
            }
        };
        if next == newest {
            self.return_to_live();
        } else {
            self.selection_active = false;
            self.selected = 0;
            self.scroll_offset = next;
        }
    }

    /// The feed after the reader moved the selection by one message.
    pub open spec fn selection_moved(self, older: bool) -> Feed {
        match stop_from(self.events(), 0, Stops::Answerable) {
            None => self.live(),
            Some(first) => if !self.selection_active {
                Feed {
                    selection_active: true,
                    unread_live_count: 0,
                    scroll_offset: 0,
                    selected: first as usize,
                    ..self
                }
            } else {
                let here = if self.selected < self.events().len() && stops_at(
                    self.events()[self.selected as int],
                    Stops::Answerable,
                ) {
                    self.selected as int
                } else {
                    first
                };
                let next = if older {
                    stop_from(self.events(), here + 1, Stops::Answerable)
                } else {
                    stop_before(self.events(), here, Stops::Answerable)
                };
                Feed {
                    selected: (match next {
                        Some(i) => i,
                        None => here,
                    }) as usize,
                    ..self
                }
            },
        }
    }

    /// Moves the selection by one message that can be answered.
    pub fn move_selection(&mut self, older: bool)
        requires
            old(self).wf(),
        ensures
            final(self).wf(),
            *final(self) == old(self).selection_moved(older),
    {
        let first: usize = match find_from(&self.session.recent_events, 0, Stops::Answerable) {
            Some(first) => first,
            None => {
                self.return_to_live();
                return;
            },
        };
        if !self.selection_active {
            self.selection_active = true;
            self.unread_live_count = 0;
            self.scroll_offset = 0;
            self.selected = first;
            return;
        }
        let here: usize = if self.selected < self.session.recent_events.len() && stops(
            &self.session.recent_events[self.selected],
            Stops::Answerable,
        ) {
            self.selected
        } else {
            first
        };
        let next: Option<usize> = if older {
            find_from(&self.session.recent_events, here + 1, Stops::Answerable)
        } else {
            find_before(&self.session.recent_events, here, Stops::Answerable)
        };
        self.selected = match next {
            Some(at) => at,
            None => here,
        };
    }

    /// Marks the selected message, or the newest one where none is selected. The answer says
    /// whether there is one.
    pub fn with_selected(&mut self) -> (r: bool)
        requires
            old(self).wf(),
        ensures
            final(self).wf(),
            r == (old(self).selected < old(self).events().len()),
            !r ==> *final(self) == *old(self),
            r ==> marked(*old(self), *final(self)),
    {
        if self.selected < self.session.recent_events.len() {
            let event: &DanmuEvent = &self.session.recent_events[self.selected];
            let featured: Featured = Featured {
                id: event.id.clone(),
                username: match &event.username {
                    Some(name) => Some(name.clone()),
                    None => None,
                },
                shown: events::map_event_emotes(event),
            };
            self.session.featured_event = Some(featured);
            true
        } else {
            false
        }
    }

    /// Takes an event in. What the reader stands at stays under the reader.
    pub fn take_in(&mut self, event: DanmuEvent) -> (r: Taken)
        requires
            old(self).wf(),
        ensures
            final(self).wf(),
            took(*old(self), *final(self), event, r),
    {
        let ghost before = *self;
        let live_arrival: bool = event.origin == DanmuEventOrigin::Live && event.kind
            == DanmuEventKind::Danmu;
        if events::reconcile_cross_origin_event(&mut self.session.recent_events, &event) {
            proof {
                let at = events::lemma_has_first(before.session.recent_events@, event);
                assert(events::is_first_duplicate(before.session.recent_events@, event, at));
            }
            return Taken::Merged;
        }
        let fresh: bool = domain::position_of(
            &self.session.recent_events,
            event.id.as_str(),
        ).is_none();
        let selected_anchor: Option<String> = if self.selection_active && self.selected
            < self.session.recent_events.len() {
            Some(self.session.recent_events[self.selected].id.clone())
        } else {
            None
        };
        let scroll_anchor: Option<String> = if self.scroll_offset > 0 && self.scroll_offset
            < self.session.recent_events.len() {
            Some(self.session.recent_events[self.scroll_offset].id.clone())
        } else {
            None
        };
        proof {
            if domain::has_id(before.events(), event.id@) {
                domain::lemma_place(before.events(), event.id@);
            }
            domain::lemma_slot(before.events(), event.timestamp as int);
        }
        if !self.session.ingest(event) {
            proof {
                assert(self.events() =~= before.events());
            }
            return Taken::Unchanged;
        }
        self.selected = match &selected_anchor {
            Some(id) => find_place(&self.session.recent_events, id.as_str()),
            None => 0,
        };
        self.scroll_offset = match &scroll_anchor {
            Some(id) => find_place(&self.session.recent_events, id.as_str()),
            None => 0,
        };
        if fresh && live_arrival && (self.selection_active || self.scroll_offset > 0) {
            self.unread_live_count = self.unread_live_count.saturating_add(1);
        } else if !self.selection_active && self.scroll_offset == 0 {
            self.unread_live_count = 0;
        }
        Taken::Stored { fresh }
    }
}

/// The session takes an event in: one that changes a known one, or a new one that does not have to
/// leave at once.
pub open spec fn takes(before: Feed, event: DanmuEvent) -> bool {
    domain::takes(before.events(), event, before.session.limit as nat)
}

/// How many new messages arrived while the reader looks at older ones.
pub open spec fn unread_after(before: Feed, scroll: int, arrival: bool) -> u64 {
    if arrival && (before.selection_active || scroll > 0) {
        if before.unread_live_count == u64::MAX {
            u64::MAX
        } else {
            (before.unread_live_count + 1) as u64
        }
    } else if !before.selection_active && scroll == 0 {
        0
    } else {
        before.unread_live_count
    }
}

/// The feed after an event was taken in.
pub open spec fn took(before: Feed, after: Feed, event: DanmuEvent, taken: Taken) -> bool {
    let duplicate = events::has_duplicate(before.events(), event);
    match taken {
        Taken::Merged => {
            &&& duplicate
            &&& after == (Feed {
                session: DanmuSession {
                    recent_events: after.session.recent_events,
                    ..before.session
                },
                ..before
            })
            &&& after.events().len() == before.events().len()
            &&& forall|at: int| #[trigger]
                events::is_first_duplicate(before.events(), event, at) ==> events::is_merged(
                    before.events()[at],
                    event,
                    after.events()[at],
                ) && after.events() == before.events().update(at, after.events()[at])
        },
        Taken::Unchanged => {
            &&& !duplicate
            &&& !takes(before, event)
            &&& after.session == (DanmuSession {
                recent_events: after.session.recent_events,
                ..before.session
            })
            &&& after.selection_active == before.selection_active
            &&& after.selected == before.selected
            &&& after.scroll_offset == before.scroll_offset
            &&& after.unread_live_count == before.unread_live_count
            &&& after.events() == before.events()
        },
        Taken::Stored { fresh } => {
            let selected = replaced(
                after.events(),
                anchor(before.events(), before.selection_active, before.selected as int),
            );
            let scroll = replaced(
                after.events(),
                anchor(before.events(), before.scroll_offset > 0, before.scroll_offset as int),
            );
            &&& !duplicate
            &&& fresh == !domain::has_id(before.events(), event.id@)
            &&& takes(before, event)
            &&& after.session == (DanmuSession {
                recent_events: after.session.recent_events,
                ..before.session
            })
            &&& domain::ingested(
                before.events(),
                after.events(),
                event,
                before.session.limit as nat,
            )
            &&& after.selection_active == before.selection_active
            &&& after.selected == selected
            &&& after.scroll_offset == scroll
            &&& after.unread_live_count == unread_after(
                before,
                scroll,
                fresh && event.origin == DanmuEventOrigin::Live && event.kind
                    == DanmuEventKind::Danmu,
            )
        },
    }
}

/// A message that is being read or answered stays under the reader when others arrive, as long as
/// the session keeps it.
pub proof fn law_reading_stays_on_its_message(
    before: Feed,
    after: Feed,
    event: DanmuEvent,
    fresh: bool,
)
    requires
        took(before, after, event, Taken::Stored { fresh }),
        before.selection_active,
        before.selected < before.events().len(),
        domain::has_id(after.events(), before.events()[before.selected as int].id@),
    ensures
        after.selection_active,
        after.selected < after.events().len(),
        after.events()[after.selected as int].id@ == before.events()[before.selected as int].id@,
{
    domain::lemma_place(after.events(), before.events()[before.selected as int].id@);
}

/// Following live, the newest messages stay on the screen and nothing counts as unread.
pub proof fn law_live_reading_stays_live(
    before: Feed,
    after: Feed,
    event: DanmuEvent,
    fresh: bool,
)
    requires
        took(before, after, event, Taken::Stored { fresh }),
        !before.browses(),
    ensures
        !after.browses(),
        after.selected == 0,
        after.unread_live_count == 0,
{
}

/// Scrolling never stops at activity, which passes by itself.
pub proof fn law_scrolling_skips_activity(feed: Feed, older: bool)
    requires
        feed.wf(),
        !feed.selection_active,
        feed.scroll_offset == 0 || (feed.scroll_offset < feed.events().len() && stops_at(
            feed.events()[feed.scroll_offset as int],
            Stops::Lasting,
        )),
    ensures
        feed.scrolled(older).browses() ==> {
            let at = feed.scrolled(older).scroll_offset;
            at < feed.events().len() && stops_at(feed.events()[at as int], Stops::Lasting)
        },
{
    assert(feed.session.recent_events.len() == feed.events().len());
    lemma_stop_from(feed.events(), 0, Stops::Lasting);
    if let Some(newest) = stop_from(feed.events(), 0, Stops::Lasting) {
        let anchor = if feed.scroll_offset < newest {
            newest
        } else {
            feed.scroll_offset as int
        };
        lemma_stop_from(feed.events(), anchor + 1, Stops::Lasting);
        lemma_stop_before(
            feed.events(),
            crate::unicode::least(anchor, feed.events().len() as int),
            Stops::Lasting,
        );
    }
}

/// A message can be answered exactly where it is chat by someone whose name shows more than white
/// space.
pub proof fn law_chat_with_a_name_can_be_answered(event: DanmuEvent)
    ensures
        stops_at(event, Stops::Answerable) <==> event.kind == DanmuEventKind::Danmu
            && event.username is Some && exists|i: int|
            0 <= i < event.username->0@.len() && !text::is_whitespace(
                #[trigger] event.username->0@[i],
            ),
{
    if event.username is Some {
        let name = event.username->0@;
        let none = Seq::<char>::empty();
        if text::is_blank(name) {
            assert(text::is_blank(none));
            text::law_trimming_finds_the_text_between(name, none, none);
            assert(name + none + none =~= name);
        } else {
            text::law_trimming_takes_white_space_alone(name);
            let (before, behind) = choose|before: Seq<char>, behind: Seq<char>|
                text::is_blank(before) && text::is_blank(behind) && name == #[trigger] (before
                    + text::trimmed(name) + behind);
            if text::trimmed(name).len() == 0 {
                assert forall|i: int| 0 <= i < name.len() implies text::is_whitespace(
                    #[trigger] name[i],
                ) by {
                    if i < before.len() {
                        assert(name[i] == before[i]);
                    } else {
                        assert(name[i] == behind[i - before.len()]);
                    }
                }
            }
        }
    }
}

/// Scrolling goes through everything but entries and likes.
pub proof fn law_only_entries_and_likes_are_skipped(event: DanmuEvent)
    ensures
        stops_at(event, Stops::Lasting) <==> event.kind != DanmuEventKind::Enter && event.kind
            != DanmuEventKind::Like,
{
}

/// With a message selected, moving to older ones selects the nearest further down that can be
/// answered, moving to newer ones the nearest further up; the selection stays only where there is
/// none. Messages stand newest first.
pub proof fn law_the_selection_moves_to_the_nearest(feed: Feed, older: bool)
    requires
        feed.selection_active,
        feed.selected < feed.events().len(),
        stops_at(feed.events()[feed.selected as int], Stops::Answerable),
    ensures
        ({
            let here = feed.selected as int;
            let next = feed.selection_moved(older).selected as int;
            let events = feed.events();
            &&& feed.selection_moved(older).selection_active
            &&& feed.selection_moved(older).session == feed.session
            &&& next < events.len()
            &&& stops_at(events[next], Stops::Answerable)
            &&& older ==> next >= here
            &&& !older ==> next <= here
            &&& older && next > here ==> forall|k: int|
                here < k < next ==> !stops_at(#[trigger] events[k], Stops::Answerable)
            &&& !older && next < here ==> forall|k: int|
                next < k < here ==> !stops_at(#[trigger] events[k], Stops::Answerable)
            &&& older && next == here ==> forall|k: int|
                here < k < events.len() ==> !stops_at(#[trigger] events[k], Stops::Answerable)
            &&& !older && next == here ==> forall|k: int|
                0 <= k < here ==> !stops_at(#[trigger] events[k], Stops::Answerable)
        }),
{
    let events = feed.events();
    assert(feed.session.recent_events.len() == events.len());
    lemma_stop_from(events, 0, Stops::Answerable);
    lemma_stop_from(events, feed.selected + 1, Stops::Answerable);
    lemma_stop_before(events, feed.selected as int, Stops::Answerable);
}

/// A step to an older message is undone by a step to a newer one, and the other way round, unless
/// there was none to go to.
pub proof fn law_selection_steps_undo_each_other(feed: Feed, older: bool)
    requires
        feed.selection_active,
        feed.selected < feed.events().len(),
        stops_at(feed.events()[feed.selected as int], Stops::Answerable),
        feed.selection_moved(older).selected != feed.selected,
    ensures
        feed.selection_moved(older).selection_moved(!older) == feed,
{
    law_the_selection_moves_to_the_nearest(feed, older);
    let next = feed.selection_moved(older);
    law_the_selection_moves_to_the_nearest(next, !older);
    assert(next.events() == feed.events());
    let back = next.selection_moved(!older);
    let here = feed.selected as int;
    assert(stops_at(feed.events()[here], Stops::Answerable));
    assert(back.selected == feed.selected);
    lemma_stop_from(feed.events(), 0, Stops::Answerable);
}

/// Without a selection the first step, in either direction, selects the newest message that can be
/// answered; with nothing to answer the reader is back at the newest messages.
pub proof fn law_selecting_starts_at_the_newest(feed: Feed, older: bool)
    requires
        !feed.selection_active,
    ensures
        ({
            let events = feed.events();
            let next = feed.selection_moved(older);
            &&& next.session == feed.session
            &&& next.scroll_offset == 0
            &&& next.unread_live_count == 0
            &&& next.selection_active <==> exists|k: int|
                0 <= k < events.len() && stops_at(#[trigger] events[k], Stops::Answerable)
            &&& next.selection_active ==> next.selected < events.len() && stops_at(
                events[next.selected as int],
                Stops::Answerable,
            ) && forall|k: int|
                0 <= k < next.selected ==> !stops_at(#[trigger] events[k], Stops::Answerable)
        }),
{
    assert(feed.session.recent_events.len() == feed.events().len());
    lemma_stop_from(feed.events(), 0, Stops::Answerable);
}

/// Away from the newest messages, scrolling to older ones goes to the nearest lasting message
/// further down and stays where there is none; scrolling to newer ones goes to the nearest further
/// up, and is back at the live end where that is the newest.
pub proof fn law_scrolling_goes_to_the_nearest(feed: Feed, older: bool)
    requires
        !feed.selection_active,
        0 < feed.scroll_offset < feed.events().len(),
        stops_at(feed.events()[feed.scroll_offset as int], Stops::Lasting),
        exists|k: int|
            0 <= k < feed.scroll_offset && stops_at(#[trigger] feed.events()[k], Stops::Lasting),
    ensures
        ({
            let here = feed.scroll_offset as int;
            let next = feed.scrolled(older);
            let at = next.scroll_offset as int;
            let events = feed.events();
            &&& next.session == feed.session
            &&& !next.selection_active
            &&& older ==> at >= here && at < events.len() && stops_at(events[at], Stops::Lasting)
            &&& older && at > here ==> forall|k: int|
                here < k < at ==> !stops_at(#[trigger] events[k], Stops::Lasting)
            &&& older && at == here ==> forall|k: int|
                here < k < events.len() ==> !stops_at(#[trigger] events[k], Stops::Lasting)
            &&& !older ==> at < here
            &&& !older && at > 0 ==> stops_at(events[at], Stops::Lasting) && forall|k: int|
                at < k < here ==> !stops_at(#[trigger] events[k], Stops::Lasting)
            &&& !older && at == 0 ==> next == feed.live() && exists|newest: int|
                {
                    &&& 0 <= newest < here
                    &&& stops_at(#[trigger] events[newest], Stops::Lasting)
                    &&& forall|k: int|
                        0 <= k < here && k != newest ==> !stops_at(
                            #[trigger] events[k],
                            Stops::Lasting,
                        )
                }
        }),
{
    let events = feed.events();
    assert(feed.session.recent_events.len() == events.len());
    lemma_stop_from(events, 0, Stops::Lasting);
    lemma_stop_from(events, feed.scroll_offset + 1, Stops::Lasting);
    lemma_stop_before(events, feed.scroll_offset as int, Stops::Lasting);
    let newest = stop_from(events, 0, Stops::Lasting)->0;
    assert(stops_at(events[newest], Stops::Lasting));
}

/// At the live end, scrolling to older messages goes to the second lasting message, where there is
/// one; scrolling to newer ones changes nothing.
pub proof fn law_scrolling_back_starts_behind_the_newest(feed: Feed, older: bool)
    requires
        !feed.browses(),
    ensures
        ({
            let at = feed.scrolled(older).scroll_offset as int;
            let events = feed.events();
            &&& !feed.scrolled(older).selection_active
            &&& !older ==> at == 0
            &&& at > 0 ==> at < events.len() && stops_at(events[at], Stops::Lasting) && exists|
                newest: int,
            |
                {
                    &&& 0 <= newest < at
                    &&& stops_at(#[trigger] events[newest], Stops::Lasting)
                    &&& forall|k: int|
                        0 <= k < at && k != newest ==> !stops_at(
                            #[trigger] events[k],
                            Stops::Lasting,
                        )
                }
            &&& older && at == 0 ==> forall|k: int, l: int|
                0 <= k < l < events.len() ==> !stops_at(#[trigger] events[k], Stops::Lasting)
                    || !stops_at(#[trigger] events[l], Stops::Lasting)
        }),
{
    let events = feed.events();
    assert(feed.session.recent_events.len() == events.len());
    lemma_stop_from(events, 0, Stops::Lasting);
    match stop_from(events, 0, Stops::Lasting) {
        Some(newest) => {
            lemma_stop_from(events, newest + 1, Stops::Lasting);
            lemma_stop_before(events, newest, Stops::Lasting);
            assert(stops_at(events[newest], Stops::Lasting));
            if older && feed.scrolled(older).scroll_offset == 0 {
                assert forall|k: int, l: int| 0 <= k < l < events.len() implies !stops_at(
                    #[trigger] events[k],
                    Stops::Lasting,
                ) || !stops_at(#[trigger] events[l], Stops::Lasting) by {
                    if k < newest {
                    } else {
                        assert(!stops_at(events[l], Stops::Lasting));
                    }
                }
            }
        },
        None => {},
    }
}

/// A message whose text, without the white space around it, none of the known ones has is never
/// merged into another: under a new identifier and with room for it, it gets a row of its own and
/// all the others stay.
pub proof fn law_a_new_text_gets_its_own_row(
    before: Feed,
    after: Feed,
    event: DanmuEvent,
    taken: Taken,
)
    requires
        took(before, after, event, taken),
        forall|i: int|
            0 <= i < before.events().len() ==> text::trimmed(
                (#[trigger] before.events()[i]).content@,
            ) != text::trimmed(event.content@),
        forall|i: int|
            0 <= i < before.events().len() ==> (#[trigger] before.events()[i]).id@ != event.id@,
        domain::count_sort(before.events(), domain::passes(event)) < before.session.limit,
    ensures
        taken == (Taken::Stored { fresh: true }),
        after.events().len() == before.events().len() + 1,
        after.events().contains(event),
        forall|i: int|
            0 <= i < before.events().len() ==> after.events().contains(
                #[trigger] before.events()[i],
            ),
{
    domain::law_nothing_is_lost_below_the_limit(
        before.events(),
        event,
        before.session.limit as nat,
    );
}

/// A message is merged only into one that has its text, up to the white space around it, and came
/// the other way, live or from the history; the rows, their texts and their times stay.
pub proof fn law_only_the_same_message_is_merged(before: Feed, after: Feed, event: DanmuEvent)
    requires
        took(before, after, event, Taken::Merged),
    ensures
        exists|i: int|
            {
                &&& 0 <= i < before.events().len()
                &&& text::trimmed((#[trigger] before.events()[i]).content@) == text::trimmed(
                    event.content@,
                )
                &&& before.events()[i].kind == DanmuEventKind::Danmu
                &&& event.kind == DanmuEventKind::Danmu
                &&& before.events()[i].origin != event.origin
            },
        after.events().len() == before.events().len(),
        forall|i: int|
            0 <= i < before.events().len() ==> (#[trigger] after.events()[i]).content
                == before.events()[i].content && after.events()[i].timestamp
                == before.events()[i].timestamp && after.events()[i].id == before.events()[i].id,
{
    let at = events::lemma_has_first(before.events(), event);
    assert(events::is_first_duplicate(before.events(), event, at));
}

/// A message that came one way and comes again the other way is not shown twice, whatever
/// identifier it has.
pub proof fn law_both_ways_make_one_row(
    before: Feed,
    after: Feed,
    event: DanmuEvent,
    taken: Taken,
    at: int,
)
    requires
        took(before, after, event, taken),
        0 <= at < before.events().len(),
        domain::is_cross_origin_duplicate(before.events()[at], event),
    ensures
        taken is Merged,
        after.events().len() == before.events().len(),
{
    assert(events::has_duplicate(before.events(), event));
}

/// While the reader has a message selected, each new live chat message counts as unread, once, and
/// nothing else does.
pub proof fn law_unread_messages_are_counted(
    before: Feed,
    after: Feed,
    event: DanmuEvent,
    taken: Taken,
)
    requires
        took(before, after, event, taken),
        before.selection_active,
        before.unread_live_count < u64::MAX,
    ensures
        after.unread_live_count == before.unread_live_count || after.unread_live_count
            == before.unread_live_count + 1,
        after.unread_live_count == before.unread_live_count + 1 <==> taken == (Taken::Stored {
            fresh: true,
        }) && event.origin == DanmuEventOrigin::Live && event.kind == DanmuEventKind::Danmu,
{
}

/// Marking a message marks the selected one and changes no message.
pub proof fn law_the_selected_message_is_marked(before: Feed, after: Feed)
    requires
        marked(before, after),
    ensures
        after.session.featured_event is Some,
        after.session.featured_event->0.id == before.events()[before.selected as int].id,
        after.session.featured_event->0.username == before.events()[before.selected as int].username,
        after.events() == before.events(),
        after.selected == before.selected,
{
}

/// A reader who scrolled back stays on the message that was scrolled to as long as it is there.
pub proof fn law_scrolled_reading_stays_on_its_message(
    before: Feed,
    after: Feed,
    event: DanmuEvent,
    fresh: bool,
)
    requires
        took(before, after, event, Taken::Stored { fresh }),
        0 < before.scroll_offset < before.events().len(),
        domain::has_id(after.events(), before.events()[before.scroll_offset as int].id@),
    ensures
        after.scroll_offset < after.events().len(),
        after.events()[after.scroll_offset as int].id@
            == before.events()[before.scroll_offset as int].id@,
{
    let id = before.events()[before.scroll_offset as int].id@;
    domain::lemma_place(after.events(), id);
}

/// With room for it, an event is merged into the row of the same message or known afterwards, and
/// every event that was known still is.
pub proof fn law_nothing_is_lost_by_taking_in(
    before: Feed,
    after: Feed,
    event: DanmuEvent,
    taken: Taken,
    id: Seq<char>,
)
    requires
        took(before, after, event, taken),
        domain::count_sort(before.events(), domain::passes(event)) < before.session.limit,
    ensures
        taken is Merged || domain::has_id(after.events(), event.id@),
        domain::has_id(before.events(), id) ==> domain::has_id(after.events(), id),
        after.session.limit == before.session.limit,
        forall|passing: bool| #[trigger]
            domain::count_sort(after.events(), passing) <= domain::count_sort(
                before.events(),
                passing,
            ) + 1,
{
    match taken {
        Taken::Merged => {
            let at = events::lemma_has_first(before.events(), event);
            assert(events::is_first_duplicate(before.events(), event, at));
            if domain::has_id(before.events(), id) {
                let i = choose|i: int|
                    0 <= i < before.events().len() && (#[trigger] before.events()[i]).id@ == id;
                assert(after.events()[i].id@ == id);
            }
            assert forall|passing: bool| #[trigger]
                domain::count_sort(after.events(), passing) <= domain::count_sort(
                    before.events(),
                    passing,
                ) + 1 by {
                domain::lemma_count_update(before.events(), at, after.events()[at], passing);
            }
        },
        Taken::Unchanged => {
            if !domain::has_id(before.events(), event.id@) {
                domain::law_nothing_is_lost_below_the_limit(
                    before.events(),
                    event,
                    before.session.limit as nat,
                );
            }
        },
        Taken::Stored { fresh } => {
            domain::law_nothing_known_is_forgotten_below_the_limit(
                before.events(),
                after.events(),
                event,
                before.session.limit as nat,
                id,
            );
        },
    }
}

} // verus!
