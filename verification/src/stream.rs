//! What arrives while the program runs: messages, deliveries, counters and the state of the room.
use vstd::prelude::*;
use vstd::string::*;

use crate::activity;
use crate::activity::ActivityNotices;
use crate::delivery;
use crate::delivery::{Deliveries, Echo, PendingDelivery};
use crate::domain;
use crate::domain::{
    DanmuEvent, DanmuEventKind, DanmuEventOrigin, RoomLiveStatus, RoomSnapshot,
};
use crate::feed;
use crate::feed::{Feed, Taken};
use crate::meter::MicrophoneState;
use crate::notice;
use crate::notice::{DeliveryStatus, NoticeBoard, NoticeLevel};
use crate::panel::ObsFacts;
use crate::text;

verus! {

/// What is known of the room, the connection and the broadcasting software.
pub struct LiveStatus {
    pub room: Option<RoomSnapshot>,
    pub room_updated_at: Option<i64>,
    pub connection: String,
    pub last_realtime_at: Option<i64>,
    pub last_live_danmu_at: Option<i64>,
    pub watched: Option<u64>,
    pub likes: Option<u64>,
    pub online_viewers: Option<u64>,
    pub obs: Option<ObsFacts>,
    pub obs_error: Option<String>,
    pub obs_checked_at: Option<i64>,
    pub microphone: MicrophoneState,
}

impl LiveStatus {
    pub fn new() -> (r: Self)
        ensures
            r.room is None,
            r.room_updated_at is None,
            r.connection@ == "连接中"@,
            r.last_realtime_at is None,
            r.last_live_danmu_at is None,
            r.watched is None,
            r.likes is None,
            r.online_viewers is None,
            r.obs is None,
            r.obs_error is None,
            r.obs_checked_at is None,
            r.microphone == MicrophoneState::Unknown,
    {
        LiveStatus {
            room: None,
            room_updated_at: None,
            connection: "连接中".to_owned(),
            last_realtime_at: None,
            last_live_danmu_at: None,
            watched: None,
            likes: None,
            online_viewers: None,
            obs: None,
            obs_error: None,
            obs_checked_at: None,
            microphone: MicrophoneState::Unknown,
        }
    }
}

/// A count that only grows.
pub open spec fn grown(known: Option<u64>, value: u64) -> u64 {
    match known {
        Some(known) => if known > value {
            known
        } else {
            value
        },
        None => value,
    }
}

fn grow(known: Option<u64>, value: u64) -> (r: u64)
    ensures
        r == grown(known, value),
{
    match known {
        Some(known) => if known > value {
            known
        } else {
            value
        },
        None => value,
    }
}

/// The place of the message on its way that an event confirms.
pub open spec fn echo_place(list: Seq<PendingDelivery>, event: DanmuEvent) -> Option<int>
    decreases list.len(),
{
    if list.len() == 0 {
        None
    } else if list[0].is_echo(event) {
        Some(0)
    } else {
        match echo_place(list.skip(1), event) {
            Some(i) => Some(i + 1),
            None => None,
        }
    }
}

proof fn lemma_echo_place(list: Seq<PendingDelivery>, event: DanmuEvent)
    ensures
        match echo_place(list, event) {
            Some(i) => delivery::is_first_echo(list, event, i) && delivery::has_echo(list, event),
            None => !delivery::has_echo(list, event),
        },
    decreases list.len(),
{
    if list.len() > 0 {
        if list[0].is_echo(event) {
            assert(delivery::is_first_echo(list, event, 0));
        } else {
            lemma_echo_place(list.skip(1), event);
            match echo_place(list.skip(1), event) {
                Some(i) => {
                    assert(list.skip(1)[i] == list[i + 1]);
                    assert forall|k: int| 0 <= k < i + 1 implies !(#[trigger] list[k]).is_echo(
                        event,
                    ) by {
                        if k > 0 {
                            assert(list.skip(1)[k - 1] == list[k]);
                        }
                    }
                },
                None => {
                    assert forall|k: int| 0 <= k < list.len() implies !(#[trigger] list[k]).is_echo(
                        event,
                    ) by {
                        if k > 0 {
                            assert(list.skip(1)[k - 1] == list[k]);
                        }
                    }
                },
            }
        }
    }
}

/// An event with the author that is known of it: the one that a confirmed message was sent by.
pub open spec fn canonical(deliveries: Deliveries, event: DanmuEvent) -> DanmuEvent {
    match echo_place(deliveries.pending@, event) {
        Some(i) => DanmuEvent {
            username: Some(deliveries.pending@[i].broadcaster_name),
            author_id: Some(deliveries.pending@[i].broadcaster_id),
            ..event
        },
        None => event,
    }
}

/// An event repeats a message that came back already.
pub open spec fn repeats(deliveries: Deliveries, event: DanmuEvent) -> bool {
    echo_place(deliveries.pending@, event) is None && delivery::has_echo(
        delivery::within_window(deliveries.confirmed@, event.timestamp),
        event,
    )
}

/// The messages on their way after an event.
pub open spec fn observed(before: Deliveries, after: Deliveries, event: DanmuEvent) -> bool {
    let recent = delivery::within_window(before.confirmed@, event.timestamp);
    match echo_place(before.pending@, event) {
        Some(i) => {
            &&& after.pending@ == before.pending@.remove(i)
            &&& after.confirmed@ == delivery::last_of(recent.push(before.pending@[i]), 32)
        },
        None => {
            &&& after.pending@ == before.pending@
            &&& after.confirmed@ == recent
        },
    }
}

/// What became of an event.
#[derive(Debug)]
pub struct Ingested {
    /// The broadcast is over.
    pub ends_scene: bool,
    pub echo: Echo,
    /// How the event was taken in, unless it repeats a message.
    pub taken: Option<Taken>,
}

/// What arrives, and what is shown of it.
pub struct Stream {
    pub feed: Feed,
    pub deliveries: Deliveries,
    pub board: NoticeBoard,
    pub activity: ActivityNotices,
    pub status: LiveStatus,
}

/// The event says that the broadcast is over.
pub open spec fn is_over(event: DanmuEvent, status: LiveStatus) -> bool {
    event.kind == DanmuEventKind::RoomStatus && event.origin == DanmuEventOrigin::Live
        && status.room is Some
}

/// The room after the broadcast is over.
pub open spec fn offline(status: LiveStatus) -> LiveStatus {
    LiveStatus {
        room: Some(RoomSnapshot { live_status: RoomLiveStatus::Offline, ..status.room->0 }),
        ..status
    }
}

/// The stream after an event.
pub open spec fn ingested(
    before: Stream,
    after: Stream,
    event: DanmuEvent,
    r: Ingested,
    now: u64,
    wall: i64,
) -> bool {
    let confirms = echo_place(before.deliveries.pending@, event);
    let shown = canonical(before.deliveries, event);
    &&& r.ends_scene == is_over(event, before.status)
    &&& after.status == if r.ends_scene {
        offline(before.status)
    } else {
        before.status
    }
    &&& observed(before.deliveries, after.deliveries, event)
    &&& r.echo is Confirmed == confirms is Some
    &&& r.echo is Repeated == repeats(before.deliveries, event)
    &&& confirms is Some ==> r.echo->Confirmed_0@
        == before.deliveries.pending@[confirms->0].id@
    &&& if r.echo is Repeated {
        &&& r.taken is None
        &&& after.feed == before.feed
        &&& after.board == before.board
        &&& after.activity == before.activity
    } else {
        &&& r.taken is Some
        &&& feed::took(before.feed, after.feed, shown, r.taken->0)
        &&& after.board@ == if r.echo is Confirmed {
            before.board@.with_status(DeliveryStatus::Verifying, now)
        } else {
            before.board@
        }
        &&& after.activity@ == if r.taken->0 is Stored {
            before.activity@.received(shown, now, wall)
        } else {
            before.activity@
        }
    }
}

/// A message of one's own is shown once: its echo is shown with the author's name, and what
/// repeats it changes nothing.
pub proof fn law_echoes_are_shown_once(
    before: Stream,
    after: Stream,
    event: DanmuEvent,
    r: Ingested,
    now: u64,
    wall: i64,
)
    requires
        ingested(before, after, event, r, now, wall),
    ensures
        r.echo is Repeated ==> after.feed == before.feed,
        r.echo is Confirmed ==> {
            &&& after.deliveries.pending@.len() == before.deliveries.pending@.len() - 1
            &&& canonical(before.deliveries, event).author_id is Some
        },
{
    lemma_echo_place(before.deliveries.pending@, event);
}

/// What activity is told of an event.
fn sketch(event: &DanmuEvent) -> (r: DanmuEvent)
    ensures
        r.kind == event.kind,
        r.origin == event.origin,
        r.timestamp == event.timestamp,
        r.author_id == event.author_id,
        r.username == event.username,
{
    DanmuEvent {
        id: String::new(),
        kind: event.kind,
        origin: event.origin,
        content: String::new(),
        username: match &event.username {
            Some(name) => Some(name.clone()),
            None => None,
        },
        author_id: match &event.author_id {
            Some(id) => Some(id.clone()),
            None => None,
        },
        platform_event_id: None,
        timestamp: event.timestamp,
        emotes: Vec::new(),
        reply_to: None,
        gift: None,
    }
}

/// The place of a message on its way by its identifier.
pub open spec fn delivery_place(list: Seq<PendingDelivery>, id: Seq<char>) -> Option<int>
    decreases list.len(),
{
    if list.len() == 0 {
        None
    } else if list[0].id@ == id {
        Some(0)
    } else {
        match delivery_place(list.skip(1), id) {
            Some(i) => Some(i + 1),
            None => None,
        }
    }
}

proof fn lemma_delivery_place(list: Seq<PendingDelivery>, id: Seq<char>)
    ensures
        match delivery_place(list, id) {
            Some(i) => delivery::is_first_delivery(list, id, i) && delivery::has_delivery(list, id),
            None => !delivery::has_delivery(list, id),
        },
    decreases list.len(),
{
    if list.len() > 0 {
        if list[0].id@ == id {
            assert(delivery::is_first_delivery(list, id, 0));
        } else {
            lemma_delivery_place(list.skip(1), id);
            match delivery_place(list.skip(1), id) {
                Some(i) => {
                    assert(list.skip(1)[i] == list[i + 1]);
                    assert forall|k: int| 0 <= k < i + 1 implies (#[trigger] list[k]).id@
                        != id by {
                        if k > 0 {
                            assert(list.skip(1)[k - 1] == list[k]);
                        }
                    }
                },
                None => {
                    assert forall|k: int| 0 <= k < list.len() implies (#[trigger] list[k]).id@
                        != id by {
                        if k > 0 {
                            assert(list.skip(1)[k - 1] == list[k]);
                        }
                    }
                },
            }
        }
    }
}

/// The messages on their way without the first that has an identifier.
pub open spec fn without(list: Seq<PendingDelivery>, id: Seq<char>) -> Seq<PendingDelivery> {
    match delivery_place(list, id) {
        Some(i) => list.remove(i),
        None => list,
    }
}

/// The messages on their way without those that have one of the identifiers.
pub open spec fn without_all(list: Seq<PendingDelivery>, ids: Seq<Seq<char>>) -> Seq<PendingDelivery>
    decreases ids.len(),
{
    if ids.len() == 0 {
        list
    } else {
        without(without_all(list, ids.drop_last()), ids.last())
    }
}

/// The texts of the messages with these identifiers, each in brackets.
pub open spec fn quoted(list: Seq<PendingDelivery>, ids: Seq<Seq<char>>) -> Seq<Seq<char>>
    decreases ids.len(),
{
    if ids.len() == 0 {
        Seq::empty()
    } else {
        let before = quoted(list, ids.drop_last());
        match delivery_place(list, ids.last()) {
            Some(i) => before.push("「"@ + list[i].content@ + "」"@),
            None => before,
        }
    }
}

/// Some message with one of the identifiers is still on its way.
pub open spec fn awaits_any(list: Seq<PendingDelivery>, ids: Seq<Seq<char>>) -> bool {
    exists|i: int| 0 <= i < ids.len() && delivery::has_delivery(list, #[trigger] ids[i])
}

/// What the connection to the room tells.
pub enum ClientEvent {
    Connected { room_id: String },
    Disconnected { reason: String },
    Heartbeat,
    Watched(u64),
    Likes(u64),
    /// A command that is not understood, and what came of noting it down.
    UnhandledCommand { noted: Result<(), String> },
    Error(String),
    Danmu(DanmuEvent),
}

/// The status after news of the connection, apart from messages.
pub open spec fn client_status(
    before: LiveStatus,
    after: LiveStatus,
    event: ClientEvent,
    wall: i64,
) -> bool {
    match event {
        ClientEvent::Connected { room_id } => {
            &&& after == (LiveStatus {
                connection: after.connection,
                last_realtime_at: Some(wall),
                ..before
            })
            &&& after.connection@ == "已连接 "@ + room_id@
        },
        ClientEvent::Disconnected { reason } => {
            &&& after == (LiveStatus { connection: after.connection, ..before })
            &&& after.connection@ == "实时连接中断 · "@ + reason@
        },
        ClientEvent::Heartbeat => after == (LiveStatus { last_realtime_at: Some(wall), ..before }),
        ClientEvent::Watched(value) => after == (LiveStatus {
            watched: Some(value),
            last_realtime_at: Some(wall),
            ..before
        }),
        ClientEvent::Likes(value) => after == (LiveStatus {
            likes: Some(grown(before.likes, value)),
            last_realtime_at: Some(wall),
            ..before
        }),
        ClientEvent::UnhandledCommand { .. } => after == (LiveStatus {
            last_realtime_at: Some(wall),
            ..before
        }),
        ClientEvent::Error(_) => after == before,
        ClientEvent::Danmu(event) => after == arrived(before, event, wall),
    }
}

/// The status after a message arrived.
pub open spec fn arrived(before: LiveStatus, event: DanmuEvent, wall: i64) -> LiveStatus {
    LiveStatus {
        last_realtime_at: Some(wall),
        last_live_danmu_at: if event.origin == DanmuEventOrigin::Live && event.kind
            == DanmuEventKind::Danmu {
            Some(wall)
        } else {
            before.last_live_danmu_at
        },
        ..before
    }
}

/// What the board says of news of the connection.
pub open spec fn client_notice(before: notice::BoardView, event: ClientEvent, now: u64) -> notice::BoardView {
    match event {
        ClientEvent::UnhandledCommand { noted: Err(error) } => before.noticed(
            "记录未处理的 B 站命令失败："@ + error@,
            NoticeLevel::Error,
            now,
        ),
        ClientEvent::Error(error) => before.noticed(error@, NoticeLevel::Error, now),
        _ => before,
    }
}

impl Stream {
    pub open spec fn wf(self) -> bool {
        self.feed.wf() && self.deliveries.wf()
    }

    /// Takes an event in.
    pub fn ingest_event(&mut self, event: DanmuEvent, now: u64, wall: i64) -> (r: Ingested)
        requires
            old(self).wf(),
            now <= activity::LAST_INSTANT,
        ensures
            final(self).wf(),
            ingested(*old(self), *final(self), event, r, now, wall),
    {
        let ghost before = *self;
        let mut ends_scene: bool = false;
        if event.kind == DanmuEventKind::RoomStatus && event.origin == DanmuEventOrigin::Live {
            if let Some(room) = &mut self.status.room {
                room.live_status = RoomLiveStatus::Offline;
                ends_scene = true;
            }
        }
        let mut shown: DanmuEvent = event;
        proof {
            lemma_echo_place(self.deliveries.pending@, event);
        }
        let echo: Echo = self.deliveries.observe(&mut shown);
        if matches!(echo, Echo::Repeated) {
            return Ingested { ends_scene, echo, taken: None };
        }
        if matches!(echo, Echo::Confirmed(_)) {
            self.board.set_delivery_status_at(DeliveryStatus::Verifying, now);
        }
        proof {
            assert(shown == canonical(before.deliveries, event));
        }
        let brief: DanmuEvent = sketch(&shown);
        let taken: Taken = self.feed.take_in(shown);
        if matches!(taken, Taken::Stored { .. }) {
            self.activity.push(&brief, now, wall);
            proof {
                assert(before.activity@.received(brief, now, wall) == before.activity@.received(
                    shown,
                    now,
                    wall,
                ));
            }
        }
        Ingested { ends_scene, echo, taken: Some(taken) }
    }

    /// Takes news of the connection.
    pub fn handle_client_event(&mut self, event: ClientEvent, now: u64, wall: i64) -> (r: Option<
        Ingested,
    >)
        requires
            old(self).wf(),
            now <= activity::LAST_INSTANT,
        ensures
            final(self).wf(),
            r is Some == event is Danmu,
            match event {
                ClientEvent::Danmu(danmu) => ingested(
                    (Stream { status: arrived(old(self).status, danmu, wall), ..*old(self) }),
                    *final(self),
                    danmu,
                    r->0,
                    now,
                    wall,
                ),
                _ => {
                    &&& client_status(old(self).status, final(self).status, event, wall)
                    &&& final(self).board@ == client_notice(old(self).board@, event, now)
                    &&& final(self).feed == old(self).feed
                    &&& final(self).deliveries == old(self).deliveries
                    &&& final(self).activity == old(self).activity
                },
            },
    {
        match event {
            ClientEvent::Connected { room_id } => {
                self.status.connection = text::add2("已连接 ", room_id.as_str());
                self.status.last_realtime_at = Some(wall);
                None
            },
            ClientEvent::Disconnected { reason } => {
                self.status.connection = text::add2("实时连接中断 · ", reason.as_str());
                None
            },
            ClientEvent::Heartbeat => {
                self.status.last_realtime_at = Some(wall);
                None
            },
            ClientEvent::Watched(value) => {
                self.status.watched = Some(value);
                self.status.last_realtime_at = Some(wall);
                None
            },
            ClientEvent::Likes(value) => {
                self.status.likes = Some(grow(self.status.likes, value));
                self.status.last_realtime_at = Some(wall);
                None
            },
            ClientEvent::UnhandledCommand { noted } => {
                self.status.last_realtime_at = Some(wall);
                if let Err(error) = noted {
                    self.board.set_notice_at(
                        text::add2("记录未处理的 B 站命令失败：", error.as_str()),
                        NoticeLevel::Error,
                        now,
                    );
                }
                None
            },
            ClientEvent::Error(error) => {
                self.board.set_notice_at(error, NoticeLevel::Error, now);
                None
            },
            ClientEvent::Danmu(danmu) => {
                self.status.last_realtime_at = Some(wall);
                if danmu.origin == DanmuEventOrigin::Live && danmu.kind == DanmuEventKind::Danmu {
                    self.status.last_live_danmu_at = Some(wall);
                }
                let ghost ready = *self;
                let r: Ingested = self.ingest_event(danmu, now, wall);
                proof {
                    assert(ready == (Stream {
                        status: arrived(old(self).status, danmu, wall),
                        ..*old(self)
                    }));
                }
                Some(r)
            },
        }
    }

    /// Shows a message that was sent in a local session.
    pub fn local_echo(&mut self, id: &str, content: &str, now: u64, wall: i64) -> (r: Ingested)
        requires
            old(self).wf(),
            now <= activity::LAST_INSTANT,
        ensures
            final(self).wf(),
            locally_echoed(*old(self), *final(self), id@, content@, r, now, wall),
    {
        let mut event: DanmuEvent = DanmuEvent::new(id, DanmuEventKind::Danmu, content, wall);
        event.username = Some("本机发送".to_owned());
        event.author_id = Some("local-host".to_owned());
        let ghost shown = event;
        let r: Ingested = self.ingest_event(event, now, wall);
        proof {
            assert(ingested(*old(self), *self, shown, r, now, wall));
        }
        r
    }

    /// Takes messages in one after another.
    pub fn ingest_all(&mut self, events: Vec<DanmuEvent>, now: u64, wall: i64) -> (r: Vec<Ingested>)
        requires
            old(self).wf(),
            now <= activity::LAST_INSTANT,
        ensures
            final(self).wf(),
            r@.len() == events@.len(),
            exists|states: Seq<Stream>| #[trigger]
                followed(*old(self), states, events@, r@, now, wall) && states.last()
                    == *final(self),
    {
        let mut events: Vec<DanmuEvent> = events;
        let ghost all = events@;
        let mut out: Vec<Ingested> = Vec::new();
        let ghost mut states: Seq<Stream> = seq![*self];
        let count: usize = events.len();
        let mut i: usize = 0;
        proof {
            assert(all.skip(0) =~= all);
        }
        while i < count
            invariant
                i <= count == all.len(),
                now <= activity::LAST_INSTANT,
                self.wf(),
                events@ == all.skip(i as int),
                out@.len() == i,
                states.len() == i + 1,
                states[0] == *old(self),
                states.last() == *self,
                forall|k: int|
                    0 <= k < i ==> #[trigger] ingested(
                        states[k],
                        states[k + 1],
                        all[k],
                        out@[k],
                        now,
                        wall,
                    ),
            decreases count - i,
        {
            proof {
                assert(all.skip(i as int)[0] == all[i as int]);
            }
            let ghost before = *self;
            let ghost earlier = states;
            let event: DanmuEvent = events.remove(0);
            proof {
                assert(events@ =~= all.skip(i + 1));
            }
            let done: Ingested = self.ingest_event(event, now, wall);
            proof {
                states = states.push(*self);
                assert(ingested(before, *self, all[i as int], done, now, wall));
            }
            out.push(done);
            i = i + 1;
            proof {
                assert forall|k: int| 0 <= k < i implies #[trigger] ingested(
                    states[k],
                    states[k + 1],
                    all[k],
                    out@[k],
                    now,
                    wall,
                ) by {
                    if k < i - 1 {
                        assert(ingested(
                            earlier[k],
                            earlier[k + 1],
                            all[k],
                            out@[k],
                            now,
                            wall,
                        ));
                    }
                }
            }
        }
        proof {
            assert(followed(*old(self), states, all, out@, now, wall));
        }
        out
    }

    /// Takes the messages in that were found in the history while a delivery is verified.
    pub fn delivery_history(&mut self, events: Vec<DanmuEvent>, now: u64, wall: i64) -> (r: Vec<
        Ingested,
    >)
        requires
            old(self).wf(),
            now <= activity::LAST_INSTANT,
        ensures
            final(self).wf(),
            history_taken(*old(self), *final(self), events@, r@, now, wall),
    {
        let ghost all = events@;
        let out: Vec<Ingested> = self.ingest_all(events, now, wall);
        let ghost states = choose|states: Seq<Stream>| #[trigger]
            followed(*old(self), states, all, out@, now, wall) && states.last() == *self;
        if self.deliveries.pending.len() > 0 {
            self.board.set_delivery_status_at(DeliveryStatus::Verifying, now);
        }
        proof {
            assert(followed(*old(self), states, all, out@, now, wall));
        }
        out
    }

    /// A message was submitted.
    pub fn delivery_started(&mut self, delivery: PendingDelivery, now: u64)
        requires
            old(self).wf(),
            now <= activity::LAST_INSTANT,
        ensures
            final(self).wf(),
            final(self).deliveries.pending@ == delivery::last_of(
                old(self).deliveries.pending@,
                31,
            ).push(delivery),
            final(self).deliveries.confirmed == old(self).deliveries.confirmed,
            final(self).board@ == old(self).board@.with_status(DeliveryStatus::Sending, now),
            final(self).feed == old(self).feed,
            final(self).activity == old(self).activity,
            final(self).status == old(self).status,
    {
        self.deliveries.start(delivery);
        self.board.set_delivery_status_at(DeliveryStatus::Sending, now);
    }

    /// No echo of the messages was found.
    pub fn delivery_echo_missing(&mut self, ids: &Vec<String>, now: u64)
        requires
            old(self).wf(),
            now <= activity::LAST_INSTANT,
        ensures
            final(self).wf(),
            *final(self) == (Stream { board: final(self).board, ..*old(self) }),
            final(self).board@ == if awaits_any(
                old(self).deliveries.pending@,
                text::views(ids@),
            ) {
                old(self).board@.with_status(DeliveryStatus::Uncertain, now).delivery_noticed(
                    "未确认送达；不自动重发，详情见助手"@,
                    now,
                )
            } else {
                old(self).board@
            },
    {
        let any: bool = self.deliveries.any_pending(ids);
        proof {
            let views = text::views(ids@);
            if any {
                let i = choose|i: int|
                    0 <= i < ids@.len() && delivery::has_delivery(
                        self.deliveries.pending@,
                        (#[trigger] ids@[i])@,
                    );
                assert(views[i] == ids@[i]@);
                assert(delivery::has_delivery(self.deliveries.pending@, views[i]));
            } else {
                assert forall|i: int| 0 <= i < views.len() implies !delivery::has_delivery(
                    self.deliveries.pending@,
                    #[trigger] views[i],
                ) by {
                    assert(views[i] == ids@[i]@);
                }
            }
        }
        if any {
            self.board.set_delivery_status_at(DeliveryStatus::Uncertain, now);
            self.board.set_delivery_notice(
                "未确认送达；不自动重发，详情见助手".to_owned(),
                now,
            );
        }
    }

    fn clear_all(&mut self, ids: &Vec<String>)
        requires
            old(self).wf(),
        ensures
            final(self).wf(),
            final(self).deliveries.pending@ == without_all(
                old(self).deliveries.pending@,
                text::views(ids@),
            ),
            final(self).deliveries.confirmed == old(self).deliveries.confirmed,
            *final(self) == (Stream { deliveries: final(self).deliveries, ..*old(self) }),
    {
        let ghost views = text::views(ids@);
        let mut i: usize = 0;
        proof {
            assert(views.take(0) =~= Seq::empty());
        }
        while i < ids.len()
            invariant
                i <= ids@.len(),
                views == text::views(ids@),
                self.wf(),
                self.deliveries.pending@ == without_all(
                    old(self).deliveries.pending@,
                    views.take(i as int),
                ),
                self.deliveries.confirmed == old(self).deliveries.confirmed,
                *self == (Stream { deliveries: self.deliveries, ..*old(self) }),
            decreases ids@.len() - i,
        {
            let ghost before = self.deliveries.pending@;
            proof {
                lemma_delivery_place(before, ids@[i as int]@);
                assert(views.take(i + 1).drop_last() =~= views.take(i as int));
                assert(views.take(i + 1).last() == ids@[i as int]@);
            }
            self.deliveries.clear_delivery(ids[i].as_str());
            proof {
                assert(self.deliveries.pending@ == without(before, ids@[i as int]@));
            }
            i = i + 1;
        }
        proof {
            assert(views.take(i as int) =~= views);
        }
    }

    fn quote_all(&self, ids: &Vec<String>) -> (r: Vec<String>)
        ensures
            text::views(r@) == quoted(self.deliveries.pending@, text::views(ids@)),
    {
        let ghost views = text::views(ids@);
        let mut out: Vec<String> = text::no_lines();
        let mut i: usize = 0;
        proof {
            assert(views.take(0) =~= Seq::empty());
        }
        while i < ids.len()
            invariant
                i <= ids@.len(),
                views == text::views(ids@),
                text::views(out@) == quoted(self.deliveries.pending@, views.take(i as int)),
            decreases ids@.len() - i,
        {
            proof {
                lemma_delivery_place(self.deliveries.pending@, ids@[i as int]@);
                assert(views.take(i + 1).drop_last() =~= views.take(i as int));
                assert(views.take(i + 1).last() == ids@[i as int]@);
            }
            if let Some(content) = self.deliveries.content_of(ids[i].as_str()) {
                text::push_line(&mut out, text::add3("「", content.as_str(), "」"));
            }
            i = i + 1;
        }
        proof {
            assert(views.take(i as int) =~= views);
        }
        out
    }

    /// A message will not come back any more.
    pub fn delivery_expired(&mut self, id: &str)
        requires
            old(self).wf(),
        ensures
            final(self).wf(),
            final(self).deliveries.pending@ == without(old(self).deliveries.pending@, id@),
            final(self).deliveries.confirmed == old(self).deliveries.confirmed,
            *final(self) == (Stream { deliveries: final(self).deliveries, ..*old(self) }),
    {
        proof {
            lemma_delivery_place(self.deliveries.pending@, id@);
        }
        self.deliveries.clear_delivery(id);
    }

    /// The messages were not confirmed in time.
    pub fn delivery_timed_out(&mut self, ids: &Vec<String>, now: u64)
        requires
            old(self).wf(),
            now <= activity::LAST_INSTANT,
        ensures
            final(self).wf(),
            final(self).deliveries.pending@ == without_all(
                old(self).deliveries.pending@,
                text::views(ids@),
            ),
            final(self).deliveries.confirmed == old(self).deliveries.confirmed,
            final(self).board@ == old(self).board@.with_status(
                DeliveryStatus::Uncertain,
                now,
            ).delivery_noticed(
                "平台接受或回流未确认；本次剩余部分取消，可继续输入新消息，不自动重发。"@
                    + text::joined(
                    quoted(old(self).deliveries.pending@, text::views(ids@)),
                    " ｜ "@,
                ),
                now,
            ),
            final(self).feed == old(self).feed,
            final(self).activity == old(self).activity,
            final(self).status == old(self).status,
    {
        let contents: Vec<String> = self.quote_all(ids);
        self.clear_all(ids);
        self.board.set_delivery_status_at(DeliveryStatus::Uncertain, now);
        self.board.set_delivery_notice(
            text::add2(
                "平台接受或回流未确认；本次剩余部分取消，可继续输入新消息，不自动重发。",
                text::join(&contents, " ｜ ").as_str(),
            ),
            now,
        );
    }

    /// The platform refused a message.
    pub fn delivery_rejected(&mut self, content: &str, message: &str, now: u64)
        requires
            old(self).wf(),
            now <= activity::LAST_INSTANT,
        ensures
            final(self).wf(),
            *final(self) == (Stream { board: final(self).board, ..*old(self) }),
            final(self).board@ == old(self).board@.with_status(
                DeliveryStatus::Failed,
                now,
            ).delivery_noticed(message@ + "；内容：「"@ + content@ + "」"@, now),
    {
        self.board.set_delivery_status_at(DeliveryStatus::Failed, now);
        let mut said: String = text::add3(message, "；内容：「", content);
        said.append("」");
        self.board.set_delivery_notice(said, now);
    }

    /// A delivery has gone through.
    pub fn delivery_completed(&mut self, now: u64)
        requires
            old(self).wf(),
            now <= activity::LAST_INSTANT,
        ensures
            final(self).wf(),
            *final(self) == (Stream { board: final(self).board, ..*old(self) }),
            final(self).board@ == old(self).board@.completed(
                old(self).deliveries.pending@.len() > 0,
                now,
            ),
    {
        let pending: bool = self.deliveries.pending.len() > 0;
        self.board.complete_delivery(pending, now);
    }

    /// Takes what the broadcasting software reported. A failure clears what was known, so that
    /// nothing stale is shown.
    pub fn obs_reported(
        &mut self,
        result: Result<(ObsFacts, MicrophoneState), String>,
        wall: i64,
    )
        requires
            old(self).wf(),
        ensures
            final(self).wf(),
            *final(self) == with_obs(*old(self), result, wall),
    {
        self.status.obs_checked_at = Some(wall);
        match result {
            Ok((facts, microphone)) => {
                self.status.obs = Some(facts);
                self.status.obs_error = None;
                self.status.microphone = microphone;
            },
            Err(error) => {
                self.status.obs = None;
                self.status.obs_error = Some(error);
                self.status.microphone = MicrophoneState::Unknown;
            },
        }
    }

    /// Takes what is known of the room now.
    pub fn room_reported(&mut self, room: RoomSnapshot, wall: i64)
        requires
            old(self).wf(),
        ensures
            final(self).wf(),
            *final(self) == (Stream {
                status: LiveStatus {
                    room: Some(room),
                    room_updated_at: Some(wall),
                    ..old(self).status
                },
                ..*old(self)
            }),
    {
        self.status.room = Some(room);
        self.status.room_updated_at = Some(wall);
    }

    /// Takes the number of viewers. A failure keeps the last one.
    pub fn viewers_reported(&mut self, result: Result<Option<u64>, String>, now: u64)
        requires
            old(self).wf(),
            now <= activity::LAST_INSTANT,
        ensures
            final(self).wf(),
            viewers_known(*old(self), *final(self), result, now),
    {
        match result {
            Ok(viewers) => {
                self.status.online_viewers = viewers;
            },
            Err(error) => self.board.set_notice_at(
                text::add2("在线人数刷新失败，继续显示上次成功值：", error.as_str()),
                NoticeLevel::Error,
                now,
            ),
        }
    }

    /// Takes the number of likes, which never falls. A failure keeps the last one.
    pub fn likes_reported(&mut self, result: Result<Option<u64>, String>, now: u64)
        requires
            old(self).wf(),
            now <= activity::LAST_INSTANT,
        ensures
            final(self).wf(),
            likes_known(*old(self), *final(self), result, now),
    {
        match result {
            Ok(Some(value)) => {
                self.status.likes = Some(grow(self.status.likes, value));
            },
            Ok(None) => {},
            Err(error) => self.board.set_notice_at(
                text::add2("点赞数刷新失败，继续显示上次成功值：", error.as_str()),
                NoticeLevel::Error,
                now,
            ),
        }
    }

    /// Takes off the screen what has passed.
    pub fn expire_notice_at(&mut self, now: u64)
        requires
            old(self).wf(),
            now <= activity::LAST_INSTANT,
        ensures
            final(self).wf(),
            final(self).activity@ == old(self).activity@.advanced(now),
            final(self).board@ == old(self).board@.expired(now),
            final(self).feed == old(self).feed,
            final(self).deliveries == old(self).deliveries,
            final(self).status == old(self).status,
    {
        self.activity.advance(now);
        self.board.expire_notice_at(now);
    }
}

/// Messages taken in one after another.
pub open spec fn followed(
    before: Stream,
    states: Seq<Stream>,
    events: Seq<DanmuEvent>,
    outcomes: Seq<Ingested>,
    now: u64,
    wall: i64,
) -> bool {
    &&& states.len() == events.len() + 1
    &&& states[0] == before
    &&& forall|k: int|
        0 <= k < events.len() ==> #[trigger] ingested(
            states[k],
            states[k + 1],
            events[k],
            outcomes[k],
            now,
            wall,
        )
}

/// The stream after a report of the broadcasting software. A failure clears what was known.
pub open spec fn with_obs(
    before: Stream,
    result: Result<(ObsFacts, MicrophoneState), String>,
    wall: i64,
) -> Stream {
    Stream {
        status: match result {
            Ok((facts, microphone)) => LiveStatus {
                obs_checked_at: Some(wall),
                obs: Some(facts),
                obs_error: None,
                microphone,
                ..before.status
            },
            Err(error) => LiveStatus {
                obs_checked_at: Some(wall),
                obs: None,
                obs_error: Some(error),
                microphone: MicrophoneState::Unknown,
                ..before.status
            },
        },
        ..before
    }
}

/// The stream after a report of the viewers. A failure keeps what was known, and is told.
pub open spec fn viewers_known(
    before: Stream,
    after: Stream,
    result: Result<Option<u64>, String>,
    now: u64,
) -> bool {
    match result {
        Ok(viewers) => after == (Stream {
            status: LiveStatus { online_viewers: viewers, ..before.status },
            ..before
        }),
        Err(error) => {
            &&& after == (Stream { board: after.board, ..before })
            &&& after.board@ == before.board@.noticed(
                "在线人数刷新失败，继续显示上次成功值："@ + error@,
                NoticeLevel::Error,
                now,
            )
        },
    }
}

/// The stream after a report of the likes, which never fall. A failure keeps what was known, and is
/// told.
pub open spec fn likes_known(
    before: Stream,
    after: Stream,
    result: Result<Option<u64>, String>,
    now: u64,
) -> bool {
    match result {
        Ok(Some(value)) => after == (Stream {
            status: LiveStatus { likes: Some(grown(before.status.likes, value)), ..before.status },
            ..before
        }),
        Ok(None) => after == before,
        Err(error) => {
            &&& after == (Stream { board: after.board, ..before })
            &&& after.board@ == before.board@.noticed(
                "点赞数刷新失败，继续显示上次成功值："@ + error@,
                NoticeLevel::Error,
                now,
            )
        },
    }
}

/// A message that was sent in a local session was taken in, under the name that such messages have.
pub open spec fn locally_echoed(
    before: Stream,
    after: Stream,
    id: Seq<char>,
    content: Seq<char>,
    r: Ingested,
    now: u64,
    wall: i64,
) -> bool {
    exists|event: DanmuEvent|
        {
            &&& event.id@ == id
            &&& event.kind == DanmuEventKind::Danmu
            &&& event.content@ == content
            &&& text::opt_view(event.username) == Some("本机发送"@)
            &&& text::opt_view(event.author_id) == Some("local-host"@)
            &&& event.timestamp == wall
            &&& event.origin == DanmuEventOrigin::Live
            &&& event.emotes@.len() == 0
            &&& event.reply_to is None
            &&& event.platform_event_id is None
            &&& event.gift is None
            &&& #[trigger] ingested(before, after, event, r, now, wall)
        }
}

/// The messages of the history were taken in, and what is still on its way is being verified.
pub open spec fn history_taken(
    before: Stream,
    after: Stream,
    events: Seq<DanmuEvent>,
    outcomes: Seq<Ingested>,
    now: u64,
    wall: i64,
) -> bool {
    &&& outcomes.len() == events.len()
    &&& exists|states: Seq<Stream>| #[trigger]
        followed(before, states, events, outcomes, now, wall) && {
            let last = states.last();
            &&& after == (Stream { board: after.board, ..last })
            &&& after.board@ == if last.deliveries.pending@.len() > 0 {
                last.board@.with_status(DeliveryStatus::Verifying, now)
            } else {
                last.board@
            }
        }
}

/// The count of likes never falls, in whatever order reports of it arrive.
pub proof fn law_likes_never_fall(known: Option<u64>, first: u64, second: u64)
    ensures
        grown(known, first) >= first,
        known is Some ==> grown(known, first) >= known->0,
        grown(Some(grown(known, first)), second) == grown(Some(grown(known, second)), first),
{
}

/// The place of the first message on its way that an event confirms.
pub proof fn law_the_first_that_fits_is_confirmed(list: Seq<PendingDelivery>, event: DanmuEvent)
    ensures
        match echo_place(list, event) {
            Some(at) => 0 <= at < list.len() && list[at].is_echo(event) && forall|i: int|
                0 <= i < at ==> !(#[trigger] list[i]).is_echo(event),
            None => forall|i: int| 0 <= i < list.len() ==> !(#[trigger] list[i]).is_echo(event),
        },
    decreases list.len(),
{
    if list.len() > 0 && !list[0].is_echo(event) {
        let rest = list.skip(1);
        law_the_first_that_fits_is_confirmed(rest, event);
        match echo_place(rest, event) {
            Some(at) => {
                assert forall|i: int| 0 <= i < at + 1 implies !(#[trigger] list[i]).is_echo(
                    event,
                ) by {
                    if i > 0 {
                        assert(rest[i - 1] == list[i]);
                    }
                }
            },
            None => {
                assert forall|i: int| 0 <= i < list.len() implies !(#[trigger] list[i]).is_echo(
                    event,
                ) by {
                    if i > 0 {
                        assert(rest[i - 1] == list[i]);
                    }
                }
            },
        }
    }
}

/// An event that no message on its way recognises is not relabelled and confirms nothing: it is
/// taken in as it came, unless it repeats a message that came back before.
pub proof fn law_other_events_are_taken_as_they_came(
    before: Stream,
    after: Stream,
    event: DanmuEvent,
    r: Ingested,
    now: u64,
    wall: i64,
)
    requires
        ingested(before, after, event, r, now, wall),
        forall|i: int|
            0 <= i < before.deliveries.pending@.len() ==> !(
            #[trigger] before.deliveries.pending@[i]).is_echo(event),
        forall|i: int|
            0 <= i < before.deliveries.confirmed@.len() ==> !(
            #[trigger] before.deliveries.confirmed@[i]).is_echo(event),
    ensures
        r.echo is Unrelated,
        after.deliveries.pending@ == before.deliveries.pending@,
        after.board@ == before.board@,
        r.taken is Some,
        feed::took(before.feed, after.feed, event, r.taken->0),
{
    law_the_first_that_fits_is_confirmed(before.deliveries.pending@, event);
    let recent = delivery::within_window(before.deliveries.confirmed@, event.timestamp);
    if delivery::has_echo(recent, event) {
        let k = choose|k: int| 0 <= k < recent.len() && (#[trigger] recent[k]).is_echo(event);
        delivery::law_memory_lasts_as_long_as_the_window(
            before.deliveries.confirmed@,
            event.timestamp,
            recent[k],
        );
        assert(recent.contains(recent[k]));
        let at = choose|i: int|
            0 <= i < before.deliveries.confirmed@.len() && before.deliveries.confirmed@[i]
                == recent[k];
        assert(before.deliveries.confirmed@[at].is_echo(event));
    }
}

/// A confirmed message leaves those on their way, alone, is shown under its sender, and is told by
/// its identifier.
pub proof fn law_a_confirmed_message_is_its_senders(
    before: Stream,
    after: Stream,
    event: DanmuEvent,
    r: Ingested,
    now: u64,
    wall: i64,
    at: int,
)
    requires
        ingested(before, after, event, r, now, wall),
        0 <= at < before.deliveries.pending@.len(),
        before.deliveries.pending@[at].is_echo(event),
        forall|i: int|
            0 <= i < at ==> !(#[trigger] before.deliveries.pending@[i]).is_echo(event),
    ensures
        r.echo is Confirmed,
        r.echo->Confirmed_0@ == before.deliveries.pending@[at].id@,
        after.deliveries.pending@ == before.deliveries.pending@.remove(at),
        canonical(before.deliveries, event).username == Some(
            before.deliveries.pending@[at].broadcaster_name,
        ),
        canonical(before.deliveries, event).author_id == Some(
            before.deliveries.pending@[at].broadcaster_id,
        ),
        canonical(before.deliveries, event).content == event.content,
        canonical(before.deliveries, event).id == event.id,
        after.board@.delivery_status == DeliveryStatus::Verifying,
{
    law_the_first_that_fits_is_confirmed(before.deliveries.pending@, event);
}

/// Live news that the broadcast is over ends the scene and marks the room as offline; the same news
/// out of the history, and any other event, leaves the room as it was.
pub proof fn law_only_live_news_ends_the_scene(
    before: Stream,
    after: Stream,
    event: DanmuEvent,
    r: Ingested,
    now: u64,
    wall: i64,
)
    requires
        ingested(before, after, event, r, now, wall),
    ensures
        r.ends_scene <==> event.kind == DanmuEventKind::RoomStatus && event.origin
            == DanmuEventOrigin::Live && before.status.room is Some,
        r.ends_scene ==> after.status.room is Some && after.status.room->0.live_status
            == RoomLiveStatus::Offline && after.status.room->0.room_id
            == before.status.room->0.room_id,
        !r.ends_scene ==> after.status == before.status,
{
}

/// Forgetting a message that is on its way forgets the first of its name and keeps the others, in
/// their order.
pub proof fn law_only_the_named_message_is_forgotten(
    list: Seq<PendingDelivery>,
    id: Seq<char>,
    at: int,
)
    requires
        0 <= at < list.len(),
        list[at].id@ == id,
        forall|i: int| 0 <= i < at ==> (#[trigger] list[i]).id@ != id,
    ensures
        without(list, id) == list.remove(at),
        delivery_place(list, id) == Some(at),
    decreases list.len(),
{
    if at > 0 {
        assert(list[0].id@ != id);
        let rest = list.skip(1);
        assert forall|i: int| 0 <= i < at - 1 implies (#[trigger] rest[i]).id@ != id by {
            assert(list[i + 1].id@ != id);
        }
        law_only_the_named_message_is_forgotten(rest, id, at - 1);
    }
}

/// Forgetting a message that is not there changes nothing.
pub proof fn law_unknown_messages_are_not_forgotten(list: Seq<PendingDelivery>, id: Seq<char>)
    requires
        forall|i: int| 0 <= i < list.len() ==> (#[trigger] list[i]).id@ != id,
    ensures
        without(list, id) == list,
        delivery_place(list, id) is None,
    decreases list.len(),
{
    if list.len() > 0 {
        assert(list[0].id@ != id);
        let rest = list.skip(1);
        assert forall|i: int| 0 <= i < rest.len() implies (#[trigger] rest[i]).id@ != id by {
            assert(list[i + 1].id@ != id);
        }
        law_unknown_messages_are_not_forgotten(rest, id);
    }
}

/// Each piece of news from the connection changes what it is about and nothing else: the count of
/// those who watched is the last one told, that of likes the largest, and a lost connection leaves
/// all that was known.
pub proof fn law_news_changes_what_it_is_about(
    before: LiveStatus,
    after: LiveStatus,
    event: ClientEvent,
    wall: i64,
)
    requires
        client_status(before, after, event, wall),
    ensures
        after.room == before.room,
        after.obs == before.obs,
        after.microphone == before.microphone,
        after.online_viewers == before.online_viewers,
        event is Watched ==> after.watched == Some(event->Watched_0),
        event !is Watched ==> after.watched == before.watched,
        event is Likes ==> after.likes is Some && after.likes->0 >= event->Likes_0 && (after.likes
            == Some(event->Likes_0) || after.likes == before.likes),
        event !is Likes ==> after.likes == before.likes,
        event is Connected || event is Heartbeat || event is Danmu ==> after.last_realtime_at
            == Some(wall),
        event is Disconnected || event is Error ==> after.last_realtime_at
            == before.last_realtime_at,
        !(event is Connected || event is Disconnected) ==> after.connection == before.connection,
        event is Connected ==> text::has_prefix(after.connection@, "已连接"@),
        event is Disconnected ==> !text::has_prefix(after.connection@, "已连接"@),
        event is Danmu && event->Danmu_0.origin == DanmuEventOrigin::Live && event->Danmu_0.kind
            == DanmuEventKind::Danmu ==> after.last_live_danmu_at == Some(wall),
{
    reveal_strlit("已连接");
    reveal_strlit("已连接 ");
    reveal_strlit("实时连接中断 · ");
    if let ClientEvent::Connected { room_id } = event {
        assert(after.connection@.subrange(0, 3) =~= "已连接"@);
    }
    if let ClientEvent::Disconnected { reason } = event {
        if text::has_prefix(after.connection@, "已连接"@) {
            assert(after.connection@.subrange(0, 3)[0] == '已');
            assert(after.connection@[0] == '实');
        }
    }
}

/// What OBS answers is shown with the time of the answer; where it does not answer nothing old is
/// shown as if it were.
pub proof fn law_obs_is_shown_as_it_answered(
    before: Stream,
    result: Result<(ObsFacts, MicrophoneState), String>,
    wall: i64,
)
    ensures
        ({
            let after = with_obs(before, result, wall);
            &&& after.status.obs_checked_at == Some(wall)
            &&& after.status.obs is Some <==> result is Ok
            &&& after.status.obs_error is Some <==> result is Err
            &&& result is Err ==> after.status.microphone == MicrophoneState::Unknown
            &&& result matches Ok((facts, microphone)) ==> after.status.obs == Some(facts)
                && after.status.microphone == microphone
            &&& after.feed == before.feed
            &&& after.status.likes == before.status.likes
        }),
{
}

/// Counts that could not be fetched stay as they were, and the failure is told.
pub proof fn law_failed_counts_stay(
    before: Stream,
    viewers: Stream,
    likes: Stream,
    asked: Result<Option<u64>, String>,
    now: u64,
)
    requires
        viewers_known(before, viewers, asked, now),
        likes_known(before, likes, asked, now),
    ensures
        asked is Err ==> viewers.status == before.status && likes.status == before.status
            && viewers.board@.notice_level == NoticeLevel::Error && likes.board@.notice_level
            == NoticeLevel::Error && viewers.board@.notice.len() > 0 && likes.board@.notice.len()
            > 0,
        asked is Ok ==> viewers.status.online_viewers == asked->Ok_0 && viewers.board
            == before.board && likes.board == before.board,
        asked matches Ok(Some(count)) ==> likes.status.likes is Some && likes.status.likes->0
            >= count,
        asked matches Ok(None) ==> likes.status.likes == before.status.likes,
        viewers.status.likes == before.status.likes,
        likes.status.online_viewers == before.status.online_viewers,
{
    reveal_strlit("在线人数刷新失败，继续显示上次成功值：");
    reveal_strlit("点赞数刷新失败，继续显示上次成功值：");
}

proof fn lemma_history_so_far(
    before: Stream,
    states: Seq<Stream>,
    events: Seq<DanmuEvent>,
    outcomes: Seq<Ingested>,
    now: u64,
    wall: i64,
    upto: int,
    id: Seq<char>,
)
    requires
        followed(before, states, events, outcomes, now, wall),
        0 <= upto <= events.len(),
        forall|passing: bool| #[trigger]
            domain::count_sort(before.feed.events(), passing) + events.len()
                <= before.feed.session.limit,
    ensures
        states[upto].feed.session.limit == before.feed.session.limit,
        forall|passing: bool| #[trigger]
            domain::count_sort(states[upto].feed.events(), passing) <= domain::count_sort(
                before.feed.events(),
                passing,
            ) + upto,
        domain::has_id(before.feed.events(), id) ==> domain::has_id(
            states[upto].feed.events(),
            id,
        ),
        forall|k: int|
            0 <= k < upto && (#[trigger] events[k]).id@ == id && !(outcomes[k].echo is Repeated)
                && outcomes[k].taken != Some(Taken::Merged) ==> domain::has_id(
                states[upto].feed.events(),
                id,
            ),
    decreases upto,
{
    if upto > 0 {
        let last = upto - 1;
        lemma_history_so_far(before, states, events, outcomes, now, wall, last, id);
        assert(ingested(states[last], states[last + 1], events[last], outcomes[last], now, wall));
        let shown = canonical(states[last].deliveries, events[last]);
        assert(shown.id == events[last].id);
        assert(domain::count_sort(before.feed.events(), domain::passes(shown)) + events.len()
            <= before.feed.session.limit);
        if !(outcomes[last].echo is Repeated) {
            assert(domain::count_sort(states[last].feed.events(), domain::passes(shown))
                < states[last].feed.session.limit);
            feed::law_nothing_is_lost_by_taking_in(
                states[last].feed,
                states[upto].feed,
                shown,
                outcomes[last].taken->0,
                id,
            );
        }
        assert forall|passing: bool| #[trigger]
            domain::count_sort(states[upto].feed.events(), passing) <= domain::count_sort(
                before.feed.events(),
                passing,
            ) + upto by {
            assert(domain::count_sort(states[last].feed.events(), passing)
                <= domain::count_sort(before.feed.events(), passing) + last);
        }
    }
}

/// No message of the history is lost: with room for them all, each is one of one's own that was
/// shown before, is merged into the row of the same message, or is known afterwards; and every event
/// that was known before still is.
pub proof fn law_no_message_of_the_history_is_lost(
    before: Stream,
    after: Stream,
    events: Seq<DanmuEvent>,
    outcomes: Seq<Ingested>,
    now: u64,
    wall: i64,
    k: int,
    id: Seq<char>,
)
    requires
        history_taken(before, after, events, outcomes, now, wall),
        forall|passing: bool| #[trigger]
            domain::count_sort(before.feed.events(), passing) + events.len()
                <= before.feed.session.limit,
        0 <= k < events.len(),
    ensures
        outcomes[k].echo is Repeated || outcomes[k].taken == Some(Taken::Merged) || domain::has_id(
            after.feed.events(),
            events[k].id@,
        ),
        domain::has_id(before.feed.events(), id) ==> domain::has_id(after.feed.events(), id),
{
    let states = choose|states: Seq<Stream>| #[trigger]
        followed(before, states, events, outcomes, now, wall) && {
            let last = states.last();
            &&& after == (Stream { board: after.board, ..last })
            &&& after.board@ == if last.deliveries.pending@.len() > 0 {
                last.board@.with_status(DeliveryStatus::Verifying, now)
            } else {
                last.board@
            }
        };
    let end = events.len() as int;
    assert(states.last() == states[end]);
    lemma_history_so_far(before, states, events, outcomes, now, wall, end, id);
    lemma_history_so_far(before, states, events, outcomes, now, wall, end, events[k].id@);
    assert(events[k].id@ == events[k].id@);
}

/// In a local session what is sent shows at once as a live chat message of this moment, in a row of
/// its own, where nothing like it is known and there is room.
pub proof fn law_local_lines_show_at_once(
    before: Stream,
    after: Stream,
    id: Seq<char>,
    content: Seq<char>,
    r: Ingested,
    now: u64,
    wall: i64,
)
    requires
        locally_echoed(before, after, id, content, r, now, wall),
        before.deliveries.pending@.len() == 0,
        before.deliveries.confirmed@.len() == 0,
        forall|i: int|
            0 <= i < before.feed.events().len() ==> (#[trigger] before.feed.events()[i]).id@ != id
                && text::trimmed(before.feed.events()[i].content@) != text::trimmed(content),
        domain::count_sort(before.feed.events(), false) < before.feed.session.limit,
    ensures
        after.feed.events().len() == before.feed.events().len() + 1,
        exists|i: int|
            {
                &&& 0 <= i < after.feed.events().len()
                &&& (#[trigger] after.feed.events()[i]).id@ == id
                &&& after.feed.events()[i].content@ == content
                &&& after.feed.events()[i].kind == DanmuEventKind::Danmu
                &&& after.feed.events()[i].origin == DanmuEventOrigin::Live
                &&& after.feed.events()[i].timestamp == wall
                &&& after.feed.events()[i].reply_to is None
            },
{
    let event = choose|event: DanmuEvent|
        {
            &&& event.id@ == id
            &&& event.kind == DanmuEventKind::Danmu
            &&& event.content@ == content
            &&& text::opt_view(event.username) == Some("本机发送"@)
            &&& text::opt_view(event.author_id) == Some("local-host"@)
            &&& event.timestamp == wall
            &&& event.origin == DanmuEventOrigin::Live
            &&& event.emotes@.len() == 0
            &&& event.reply_to is None
            &&& event.platform_event_id is None
            &&& event.gift is None
            &&& #[trigger] ingested(before, after, event, r, now, wall)
        };
    law_other_events_are_taken_as_they_came(before, after, event, r, now, wall);
    feed::law_a_new_text_gets_its_own_row(before.feed, after.feed, event, r.taken->0);
    let at = choose|i: int| 0 <= i < after.feed.events().len() && after.feed.events()[i] == event;
    assert(after.feed.events()[at].id@ == id);
}

} // verus!
