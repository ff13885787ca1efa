//! Passing notices of the audience: who came in, who liked. Only the batch on the screen and one
//! bounded summary of the next are kept, so a burst never turns into a replay.
use vstd::prelude::*;
use vstd::string::*;

use crate::domain;
use crate::domain::{DanmuEvent, DanmuEventKind, DanmuEventOrigin};
use crate::events;
use crate::text;
use crate::unicode;

verus! {

/// How long a batch stays before another may take its place, in milliseconds.
pub const MIN_READ_TIME: u64 = 2000;

/// How many names a batch holds.
pub const MAX_NAMES: usize = 3;

/// The latest instant that the arithmetic on deadlines is defined for.
pub const LAST_INSTANT: u64 = 0xffff_ffff_ffff_0000;

struct AudienceName {
    author_id: Option<String>,
    name: String,
    expires_at: u64,
}

/// Some members of the audience by name, and until when there are more than those.
pub struct Batch {
    names: Vec<AudienceName>,
    more_until: Option<u64>,
}

/// A name as contracts speak of it.
pub ghost struct NameView {
    pub author_id: Option<Seq<char>>,
    pub name: Seq<char>,
    pub expires_at: u64,
}

/// A batch as contracts speak of it.
pub ghost struct BatchView {
    pub names: Seq<NameView>,
    pub more_until: Option<u64>,
}

pub open spec fn empty_batch() -> BatchView {
    BatchView { names: Seq::empty(), more_until: None }
}

/// The names that have not expired.
pub open spec fn alive(names: Seq<NameView>, now: u64) -> Seq<NameView>
    decreases names.len(),
{
    if names.len() == 0 {
        Seq::empty()
    } else if now < names.last().expires_at {
        alive(names.drop_last(), now).push(names.last())
    } else {
        alive(names.drop_last(), now)
    }
}

/// The position of the first name of the author, or the number of names.
pub open spec fn author_at(names: Seq<NameView>, id: Seq<char>) -> int
    decreases names.len(),
{
    if names.len() == 0 || names[0].author_id == Some(id) {
        0
    } else {
        1 + author_at(names.skip(1), id)
    }
}

/// The later of two instants.
pub open spec fn later(a: u64, b: u64) -> u64 {
    if a >= b {
        a
    } else {
        b
    }
}

/// A text on one line.
pub open spec fn on_one_line(value: Seq<char>) -> Seq<char> {
    Seq::new(
        value.len(),
        |i: int|
            if value[i] == '\r' || value[i] == '\n' {
                ' '
            } else {
                value[i]
            },
    )
}

/// The name that is shown for a member of the audience.
pub open spec fn audience_name(username: Option<Seq<char>>) -> Seq<char> {
    let name = on_one_line(
        events::without_markup(
            match username {
                Some(name) => name,
                None => Seq::empty(),
            },
        ),
    );
    if text::trimmed(name).len() == 0 {
        "观众"@
    } else {
        name
    }
}

impl BatchView {
    pub open spec fn is_empty(self) -> bool {
        self.names.len() == 0 && self.more_until is None
    }

    /// What is left of the batch at an instant.
    pub open spec fn expired(self, now: u64) -> BatchView {
        BatchView {
            names: alive(self.names, now),
            more_until: match self.more_until {
                Some(until) => if now >= until {
                    None
                } else {
                    Some(until)
                },
                None => None,
            },
        }
    }

    /// The batch with another member of the audience. One whose author is known already only
    /// stays longer; where the names are full, the batch only notes that there are more.
    pub open spec fn pushed(
        self,
        author: Option<Seq<char>>,
        name: Seq<char>,
        expires_at: u64,
    ) -> BatchView {
        if author is Some && author_at(self.names, author->0) < self.names.len() {
            let at = author_at(self.names, author->0);
            BatchView {
                names: self.names.update(
                    at,
                    (NameView {
                        expires_at: later(self.names[at].expires_at, expires_at),
                        ..self.names[at]
                    }),
                ),
                ..self
            }
        } else if self.names.len() == MAX_NAMES {
            BatchView {
                more_until: Some(
                    match self.more_until {
                        Some(until) => later(until, expires_at),
                        None => expires_at,
                    },
                ),
                ..self
            }
        } else {
            BatchView {
                names: self.names.push(NameView { author_id: author, name, expires_at }),
                ..self
            }
        }
    }

    /// The first names of the batch, in one text.
    pub open spec fn first_names(self, count: nat) -> Seq<char> {
        text::joined(Seq::new(count, |i: int| self.names[i].name), "、"@)
    }

    /// The text of a batch with a number of its names: a mark where there are more, and what they
    /// did.
    pub open spec fn suffix(self, count: nat, action: Seq<char>) -> Seq<char> {
        (if count < self.names.len() || self.more_until is Some {
            "等"@
        } else {
            ""@
        }) + " "@ + action
    }

    /// The text with as many names as fit, at most `count`. Where not even one fits, the first
    /// name is cut if cutting is allowed.
    pub open spec fn named_text(
        self,
        count: nat,
        action: Seq<char>,
        width: nat,
        truncate: bool,
    ) -> Option<Seq<char>>
        decreases count,
    {
        if count == 0 {
            None
        } else {
            let names = self.first_names(count);
            let suffix = self.suffix(count, action);
            if unicode::display_width(names + suffix) <= width {
                Some(names + suffix)
            } else if count == 1 && truncate {
                let room = unicode::minus(width as int, unicode::display_width(suffix) as int);
                if room > 0 {
                    Some(unicode::fitted(names, room) + suffix)
                } else {
                    Some(unicode::fitted(names + suffix, width))
                }
            } else {
                self.named_text((count - 1) as nat, action, width, truncate)
            }
        }
    }

    /// What the batch says, in at most `width` columns.
    pub open spec fn text(
        self,
        kind: DanmuEventKind,
        width: nat,
        show_name: bool,
        truncate: bool,
    ) -> Option<Seq<char>> {
        let action = action_text(kind);
        if show_name && self.names.len() > 0 {
            self.named_text(self.names.len(), action, width, truncate)
        } else {
            let words = "有观众"@ + action;
            if unicode::display_width(words) <= width {
                Some(words)
            } else if truncate {
                Some(unicode::fitted(words, width))
            } else {
                None
            }
        }
    }
}

pub open spec fn action_text(kind: DanmuEventKind) -> Seq<char> {
    if kind == DanmuEventKind::Enter {
        "进入直播间"@
    } else {
        "为直播间点赞"@
    }
}

proof fn lemma_alive_len(names: Seq<NameView>, now: u64)
    ensures
        alive(names, now).len() <= names.len(),
    decreases names.len(),
{
    if names.len() > 0 {
        lemma_alive_len(names.drop_last(), now);
    }
}

proof fn lemma_author_at(names: Seq<NameView>, id: Seq<char>)
    ensures
        0 <= author_at(names, id) <= names.len(),
    decreases names.len(),
{
    if names.len() > 0 && names[0].author_id != Some(id) {
        lemma_author_at(names.skip(1), id);
    }
}

/// A text on one line.
fn one_line(value: &str) -> (r: String)
    ensures
        r@ == on_one_line(value@),
{
    let chars: Vec<char> = text::chars_of(value);
    let mut out: String = String::new();
    let mut i: usize = 0;
    while i < chars.len()
        invariant
            i <= chars@.len(),
            chars@ == value@,
            out@ == on_one_line(value@).take(i as int),
        decreases chars@.len() - i,
    {
        let c: char = chars[i];
        let shown: char = if c == '\r' || c == '\n' {
            ' '
        } else {
            c
        };
        out.push(shown);
        proof {
            assert(on_one_line(value@).take(i + 1) =~= on_one_line(value@).take(i as int).push(
                shown,
            ));
        }
        i = i + 1;
    }
    proof {
        assert(on_one_line(value@).take(i as int) =~= on_one_line(value@));
    }
    out
}

impl AudienceName {
    spec fn as_view(self) -> NameView {
        NameView {
            author_id: text::opt_view(self.author_id),
            name: self.name@,
            expires_at: self.expires_at,
        }
    }
}

spec fn name_views(names: Seq<AudienceName>) -> Seq<NameView> {
    Seq::new(names.len(), |i: int| names[i].as_view())
}

impl View for Batch {
    type V = BatchView;

    closed spec fn view(&self) -> BatchView {
        BatchView { names: name_views(self.names@), more_until: self.more_until }
    }
}

impl Batch {
    pub fn new() -> (r: Self)
        ensures
            r@ == empty_batch(),
    {
        let r: Batch = Batch { names: Vec::new(), more_until: None };
        proof {
            assert(r@.names =~= Seq::empty());
        }
        r
    }

    pub fn is_empty(&self) -> (r: bool)
        ensures
            r == self@.is_empty(),
    {
        self.names.is_empty() && self.more_until.is_none()
    }

    pub fn expire(&mut self, now: u64)
        ensures
            final(self)@ == old(self)@.expired(now),
    {
        let ghost all = self@.names;
        let mut kept: Vec<AudienceName> = Vec::new();
        let mut i: usize = 0;
        let count: usize = self.names.len();
        proof {
            assert(all.take(0) =~= Seq::empty());
            assert(name_views(kept@) =~= Seq::empty());
            assert(all.skip(0) =~= all);
        }
        while i < count
            invariant
                i <= count == all.len(),
                self.names@.len() == count - i,
                name_views(self.names@) == all.skip(i as int),
                name_views(kept@) == alive(all.take(i as int), now),
                self.more_until == old(self).more_until,
            decreases count - i,
        {
            proof {
                assert(all.take(i + 1).drop_last() =~= all.take(i as int));
                assert(all[i as int] == all.skip(i as int)[0]);
                assert(name_views(self.names@)[0] == self.names@[0].as_view());
            }
            let ghost rest = self.names@;
            let name: AudienceName = self.names.remove(0);
            proof {
                assert(name_views(self.names@) =~= all.skip(i + 1)) by {
                    assert(all.skip(i + 1) =~= all.skip(i as int).skip(1));
                    assert forall|k: int| 0 <= k < self.names@.len() implies name_views(
                        self.names@,
                    )[k] == all.skip(i + 1)[k] by {
                        assert(self.names@[k] == rest[k + 1]);
                        assert(name_views(rest)[k + 1] == rest[k + 1].as_view());
                    }
                }
            }
            if now < name.expires_at {
                let ghost before = kept@;
                kept.push(name);
                proof {
                    assert(name_views(kept@) =~= name_views(before).push(name.as_view()));
                }
            }
            i = i + 1;
        }
        proof {
            assert(all.take(i as int) =~= all);
        }
        self.names = kept;
        if let Some(until) = self.more_until {
            if now >= until {
                self.more_until = None;
            }
        }
    }

    /// Adds the author of an event, until the given instant.
    pub fn push(&mut self, event: &DanmuEvent, expires_at: u64)
        ensures
            final(self)@ == old(self)@.pushed(
                domain::usable_id(text::opt_view(event.author_id)),
                audience_name(text::opt_view(event.username)),
                expires_at,
            ),
    {
        let ghost before = self@;
        let author: Option<&str> = domain::usable_author_id(&event.author_id);
        if let Some(id) = author {
            let mut at: usize = 0;
            proof {
                assert(before.names.skip(0) =~= before.names);
                lemma_author_at(before.names, id@);
            }
            while at < self.names.len()
                invariant
                    at <= self.names@.len(),
                    self@ == before,
                    before == old(self)@,
                    domain::usable_id(text::opt_view(event.author_id)) == Some(id@),
                    author_at(before.names, id@) == at + author_at(
                        before.names.skip(at as int),
                        id@,
                    ),
                decreases self.names@.len() - at,
            {
                proof {
                    assert(before.names.skip(at as int).skip(1) =~= before.names.skip(at + 1));
                    assert(before.names[at as int] == self.names@[at as int].as_view());
                }
                let known: bool = match &self.names[at].author_id {
                    Some(other) => text::same(other.as_str(), id),
                    None => false,
                };
                if known {
                    if self.names[at].expires_at < expires_at {
                        let name: &mut AudienceName = &mut self.names[at];
                        name.expires_at = expires_at;
                    }
                    proof {
                        assert(before.names.skip(at as int)[0].author_id == Some(id@));
                        assert(author_at(before.names, id@) == at);
                        assert(self@.names =~= before.names.update(
                            at as int,
                            (NameView {
                                expires_at: later(before.names[at as int].expires_at, expires_at),
                                ..before.names[at as int]
                            }),
                        ));
                    }
                    return;
                }
                at = at + 1;
            }
        }
        if self.names.len() == MAX_NAMES {
            self.more_until = match self.more_until {
                Some(until) => if until >= expires_at {
                    Some(until)
                } else {
                    Some(expires_at)
                },
                None => Some(expires_at),
            };
            return;
        }
        let cleaned: String = match &event.username {
            Some(name) => events::clean_platform_markup(name.as_str()),
            None => {
                let none: String = events::clean_platform_markup("");
                proof {
                    reveal_strlit("");
                    assert(""@ =~= Seq::<char>::empty());
                }
                none
            },
        };
        let name: String = one_line(cleaned.as_str());
        let shown: String = if text::trim(name.as_str()).as_str().is_empty() {
            "观众".to_owned()
        } else {
            name
        };
        let author_id: Option<String> = match author {
            Some(id) => Some(id.to_owned()),
            None => None,
        };
        let ghost old_names = self.names@;
        let entry: AudienceName = AudienceName { author_id, name: shown, expires_at };
        self.names.push(entry);
        proof {
            assert(name_views(self.names@) =~= name_views(old_names).push(entry.as_view()));
        }
    }

    fn joined_names(&self, count: usize) -> (r: String)
        requires
            count <= self.names@.len(),
        ensures
            r@ == self@.first_names(count as nat),
    {
        let mut parts: Vec<String> = Vec::new();
        let mut i: usize = 0;
        while i < count
            invariant
                i <= count <= self.names@.len(),
                parts@.len() == i,
                forall|k: int| 0 <= k < i ==> (#[trigger] parts@[k])@ == self@.names[k].name,
            decreases count - i,
        {
            parts.push(self.names[i].name.clone());
            i = i + 1;
        }
        proof {
            assert(text::views(parts@) =~= Seq::new(count as nat, |k: int| self@.names[k].name));
        }
        text::join(&parts, "、")
    }

    /// What the batch says, in at most `width` columns.
    pub fn text(
        &self,
        kind: DanmuEventKind,
        width: usize,
        show_name: bool,
        truncate: bool,
    ) -> (r: Option<String>)
        ensures
            text::opt_view(r) == self@.text(kind, width as nat, show_name, truncate),
    {
        let action: &str = if kind == DanmuEventKind::Enter {
            "进入直播间"
        } else {
            "为直播间点赞"
        };
        if show_name && !self.names.is_empty() {
            let mut count: usize = self.names.len();
            while count > 0
                invariant
                    count <= self.names@.len(),
                    action@ == action_text(kind),
                    self@.text(kind, width as nat, show_name, truncate) == self@.named_text(
                        count as nat,
                        action@,
                        width as nat,
                        truncate,
                    ),
                decreases count,
            {
                let names: String = self.joined_names(count);
                let more: &str = if count < self.names.len() || self.more_until.is_some() {
                    "等"
                } else {
                    ""
                };
                let suffix: String = text::add3(more, " ", action);
                let words: String = text::add2(names.as_str(), suffix.as_str());
                if unicode::width_of(words.as_str()) <= width {
                    return Some(words);
                }
                if count == 1 && truncate {
                    let room: usize = width.saturating_sub(unicode::width_of(suffix.as_str()));
                    if room > 0 {
                        return Some(
                            text::add2(
                                unicode::fit_display_width(names.as_str(), room).as_str(),
                                suffix.as_str(),
                            ),
                        );
                    }
                    return Some(unicode::fit_display_width(words.as_str(), width));
                }
                count = count - 1;
            }
            return None;
        }
        let words: String = text::add2("有观众", action);
        if unicode::width_of(words.as_str()) <= width {
            Some(words)
        } else if truncate {
            Some(unicode::fit_display_width(words.as_str(), width))
        } else {
            None
        }
    }
}

/// The batch on the screen: a kind with its names, and likes that may stand beside a welcome.
pub struct ShownBatch {
    kind: DanmuEventKind,
    primary: Batch,
    likes: Batch,
    stable_until: u64,
    expires_at: u64,
    likes_until: u64,
}

pub ghost struct ShownView {
    pub kind: DanmuEventKind,
    pub primary: BatchView,
    pub likes: BatchView,
    pub stable_until: u64,
    pub expires_at: u64,
    pub likes_until: u64,
}

impl View for ShownBatch {
    type V = ShownView;

    closed spec fn view(&self) -> ShownView {
        ShownView {
            kind: self.kind,
            primary: self.primary@,
            likes: self.likes@,
            stable_until: self.stable_until,
            expires_at: self.expires_at,
            likes_until: self.likes_until,
        }
    }
}

/// Only the visible batch and one bounded summary of the next are retained.
pub struct ActivityNotices {
    current: Option<ShownBatch>,
    next_enter: Batch,
    next_like: Batch,
}

pub ghost struct ActivityView {
    pub current: Option<ShownView>,
    pub next_enter: BatchView,
    pub next_like: BatchView,
}

impl View for ActivityNotices {
    type V = ActivityView;

    closed spec fn view(&self) -> ActivityView {
        ActivityView {
            current: match self.current {
                Some(shown) => Some(shown@),
                None => None,
            },
            next_enter: self.next_enter@,
            next_like: self.next_like@,
        }
    }
}

impl ActivityView {
    pub open spec fn expired(self, now: u64) -> ActivityView {
        ActivityView {
            next_enter: self.next_enter.expired(now),
            next_like: self.next_like.expired(now),
            ..self
        }
    }

    /// The batch that is still to be shown at an instant.
    pub open spec fn still_shown(self, now: u64) -> Option<ShownView> {
        match self.current {
            Some(shown) => if now >= shown.expires_at {
                None
            } else {
                Some(shown)
            },
            None => None,
        }
    }

    /// What is on the screen at an instant, and what waits. A batch stays its minimum time; then
    /// arrivals take its place, with the likes that wait. Likes alone never displace a welcome:
    /// they are added to it while there is time to read them, and shown by themselves only where
    /// no welcome is on the screen.
    pub open spec fn advanced(self, now: u64) -> ActivityView {
        let next = self.expired(now);
        if self.current is Some && now < self.current->0.stable_until {
            next
        } else {
            let shown = self.still_shown(now);
            if !next.next_enter.is_empty() {
                ActivityView {
                    current: Some(
                        ShownView {
                            kind: DanmuEventKind::Enter,
                            primary: next.next_enter,
                            likes: next.next_like,
                            stable_until: (now + MIN_READ_TIME) as u64,
                            expires_at: (now + 5000) as u64,
                            likes_until: (now + 3000) as u64,
                        },
                    ),
                    next_enter: empty_batch(),
                    next_like: empty_batch(),
                }
            } else if next.next_like.is_empty() {
                ActivityView { current: shown, ..next }
            } else if shown is Some && shown->0.kind == DanmuEventKind::Enter {
                let welcome = shown->0;
                if (welcome.likes.is_empty() || now >= welcome.likes_until) && now + MIN_READ_TIME
                    <= welcome.expires_at {
                    ActivityView {
                        current: Some(
                            ShownView {
                                likes: next.next_like,
                                likes_until: if now + 3000 <= welcome.expires_at {
                                    (now + 3000) as u64
                                } else {
                                    welcome.expires_at
                                },
                                stable_until: (now + MIN_READ_TIME) as u64,
                                ..welcome
                            },
                        ),
                        next_like: empty_batch(),
                        ..next
                    }
                } else {
                    ActivityView { current: shown, ..next }
                }
            } else {
                ActivityView {
                    current: Some(
                        ShownView {
                            kind: DanmuEventKind::Like,
                            primary: next.next_like,
                            likes: empty_batch(),
                            stable_until: (now + MIN_READ_TIME) as u64,
                            expires_at: (now + 3000) as u64,
                            likes_until: now,
                        },
                    ),
                    next_like: empty_batch(),
                    ..next
                }
            }
        }
    }

    /// What is left of the lifetime of an event: late events keep what is left of it, and a
    /// platform clock that runs ahead does not prolong it.
    pub open spec fn remaining(event: DanmuEvent, wall: i64) -> int {
        match domain::lifetime_of(event.kind) {
            Some(lifetime) => unicode::least(event.timestamp + lifetime - wall, lifetime as int),
            None => 0,
        }
    }

    /// What becomes of the notices when an event arrives.
    pub open spec fn received(self, event: DanmuEvent, now: u64, wall: i64) -> ActivityView {
        let remaining = ActivityView::remaining(event, wall);
        if domain::lifetime_of(event.kind) is None || event.origin != DanmuEventOrigin::Live
            || remaining <= 0 {
            self
        } else {
            let next = self.expired(now);
            let author = domain::usable_id(text::opt_view(event.author_id));
            let name = audience_name(text::opt_view(event.username));
            let until = (now + remaining) as u64;
            (if event.kind == DanmuEventKind::Enter {
                ActivityView { next_enter: next.next_enter.pushed(author, name, until), ..next }
            } else {
                ActivityView { next_like: next.next_like.pushed(author, name, until), ..next }
            }).advanced(now)
        }
    }

    /// What is shown at an instant in at most `width` columns.
    pub open spec fn rendered(self, width: nat, show_name: bool, now: u64) -> Option<
        (DanmuEventKind, Seq<char>),
    > {
        match self.still_shown(now) {
            None => None,
            Some(shown) => match shown.primary.text(shown.kind, width, show_name, true) {
                None => None,
                Some(words) => {
                    let room = unicode::minus(
                        width as int,
                        unicode::display_width(words) as int + 3,
                    );
                    let likes = shown.likes.text(DanmuEventKind::Like, room, show_name, false);
                    if !shown.likes.is_empty() && now < shown.likes_until && likes is Some {
                        Some((shown.kind, words + " · "@ + likes->0))
                    } else {
                        Some((shown.kind, words))
                    }
                },
            },
        }
    }
}

impl ActivityNotices {
    pub fn new() -> (r: Self)
        ensures
            r@ == (ActivityView {
                current: None,
                next_enter: empty_batch(),
                next_like: empty_batch(),
            }),
    {
        ActivityNotices { current: None, next_enter: Batch::new(), next_like: Batch::new() }
    }

    pub fn push(&mut self, event: &DanmuEvent, now: u64, wall: i64)
        requires
            now <= LAST_INSTANT,
        ensures
            final(self)@ == old(self)@.received(*event, now, wall),
    {
        let lifetime: u64 = match event.kind.activity_lifetime() {
            Some(lifetime) => lifetime,
            None => {
                return;
            },
        };
        if event.origin != DanmuEventOrigin::Live {
            return;
        }
        let left: i128 = event.timestamp as i128 + lifetime as i128 - wall as i128;
        let remaining: i128 = if left <= lifetime as i128 {
            left
        } else {
            lifetime as i128
        };
        if remaining <= 0 {
            return;
        }
        let until: u64 = now + remaining as u64;
        self.next_enter.expire(now);
        self.next_like.expire(now);
        proof {
            assert(self@ == old(self)@.expired(now));
        }
        if event.kind == DanmuEventKind::Enter {
            self.next_enter.push(event, until);
        } else {
            self.next_like.push(event, until);
        }
        self.advance(now);
    }

    pub fn advance(&mut self, now: u64)
        requires
            now <= LAST_INSTANT,
        ensures
            final(self)@ == old(self)@.advanced(now),
    {
        self.next_enter.expire(now);
        self.next_like.expire(now);
        let (stable, over, welcome): (bool, bool, bool) = match &self.current {
            Some(shown) => (
                now < shown.stable_until,
                now >= shown.expires_at,
                shown.kind == DanmuEventKind::Enter,
            ),
            None => (false, true, false),
        };
        if stable {
            return;
        }
        if over {
            self.current = None;
        }
        if !self.next_enter.is_empty() {
            let mut primary: Batch = Batch::new();
            let mut likes: Batch = Batch::new();
            std::mem::swap(&mut primary, &mut self.next_enter);
            std::mem::swap(&mut likes, &mut self.next_like);
            self.current = Some(
                ShownBatch {
                    kind: DanmuEventKind::Enter,
                    primary,
                    likes,
                    stable_until: now + MIN_READ_TIME,
                    expires_at: now + 5000,
                    likes_until: now + 3000,
                },
            );
        } else if !self.next_like.is_empty() {
            let mut waiting: Batch = Batch::new();
            if welcome && !over {
                let room: bool = match &self.current {
                    Some(shown) => (shown.likes.is_empty() || now >= shown.likes_until) && now
                        + MIN_READ_TIME <= shown.expires_at,
                    None => false,
                };
                if room {
                    std::mem::swap(&mut waiting, &mut self.next_like);
                    if let Some(shown) = &mut self.current {
                        shown.likes = waiting;
                        shown.likes_until = if now + 3000 <= shown.expires_at {
                            now + 3000
                        } else {
                            shown.expires_at
                        };
                        shown.stable_until = now + MIN_READ_TIME;
                    }
                }
            } else {
                std::mem::swap(&mut waiting, &mut self.next_like);
                self.current = Some(
                    ShownBatch {
                        kind: DanmuEventKind::Like,
                        primary: waiting,
                        likes: Batch::new(),
                        stable_until: now + MIN_READ_TIME,
                        expires_at: now + 3000,
                        likes_until: now,
                    },
                );
            }
        }
    }

    pub fn render(&self, width: usize, show_name: bool, now: u64) -> (r: Option<
        (DanmuEventKind, String),
    >)
        ensures
            match r {
                Some((kind, words)) => Some((kind, words@)),
                None => None,
            } == self@.rendered(width as nat, show_name, now),
    {
        let shown: &ShownBatch = match &self.current {
            Some(shown) => shown,
            None => {
                return None;
            },
        };
        if now >= shown.expires_at {
            return None;
        }
        let mut words: String = match shown.primary.text(shown.kind, width, show_name, true) {
            Some(words) => words,
            None => {
                return None;
            },
        };
        if !shown.likes.is_empty() && now < shown.likes_until {
            let room: usize = width.saturating_sub(
                unicode::width_of(words.as_str()).saturating_add(3),
            );
            if let Some(likes) = shown.likes.text(DanmuEventKind::Like, room, show_name, false) {
                words.append(" · ");
                words.append(likes.as_str());
            }
        }
        Some((shown.kind, words))
    }
}

/// A batch never holds more than its three names, however many events come in.
pub proof fn law_batches_stay_bounded(
    batch: BatchView,
    author: Option<Seq<char>>,
    name: Seq<char>,
    expires_at: u64,
    now: u64,
)
    requires
        batch.names.len() <= MAX_NAMES,
    ensures
        batch.pushed(author, name, expires_at).names.len() <= MAX_NAMES,
        batch.expired(now).names.len() <= MAX_NAMES,
{
    lemma_alive_len(batch.names, now);
    if author is Some {
        lemma_author_at(batch.names, author->0);
    }
}

/// Whatever arrives, a batch on the screen stays there for its minimum time.
pub proof fn law_a_shown_batch_stays_readable(
    notices: ActivityView,
    event: DanmuEvent,
    now: u64,
    wall: i64,
)
    requires
        notices.current is Some,
        now < notices.current->0.stable_until,
    ensures
        notices.advanced(now).current == notices.current,
        notices.received(event, now, wall).current == notices.current,
{
}

/// Likes alone never take a welcome off the screen before it has expired.
pub proof fn law_likes_do_not_displace_a_welcome(notices: ActivityView, now: u64)
    requires
        notices.still_shown(now) is Some,
        notices.still_shown(now)->0.kind == DanmuEventKind::Enter,
        notices.next_enter.expired(now).is_empty(),
    ensures
        notices.advanced(now).current is Some,
        notices.advanced(now).current->0.kind == DanmuEventKind::Enter,
        notices.advanced(now).current->0.primary == notices.current->0.primary,
        notices.advanced(now).current->0.expires_at == notices.current->0.expires_at,
{
}

/// Events of the history, and events that come too late, change nothing.
pub proof fn law_history_and_late_events_are_not_announced(
    notices: ActivityView,
    event: DanmuEvent,
    now: u64,
    wall: i64,
)
    requires
        event.origin != DanmuEventOrigin::Live || ActivityView::remaining(event, wall) <= 0,
    ensures
        notices.received(event, now, wall) == notices,
{
}

/// With names hidden, a batch says only that someone did it, whoever it was.
pub proof fn law_names_are_hidden_on_request(batch: BatchView, kind: DanmuEventKind, width: nat)
    ensures
        batch.text(kind, width, false, true) == Some(
            unicode::fitted("有观众"@ + action_text(kind), width),
        ),
{
}

/// A name shows until its time is over, and then no more; nothing else takes it away.
pub proof fn law_names_stay_until_their_time(names: Seq<NameView>, now: u64, name: NameView)
    ensures
        alive(names, now).contains(name) <==> names.contains(name) && now < name.expires_at,
    decreases names.len(),
{
    if names.len() > 0 {
        let rest = names.drop_last();
        let kept = alive(rest, now);
        law_names_stay_until_their_time(rest, now, name);
        if names.contains(name) {
            let at = choose|k: int| 0 <= k < names.len() && names[k] == name;
            if at < rest.len() {
                assert(rest[at] == name);
            }
        }
        if rest.contains(name) {
            let at = choose|k: int| 0 <= k < rest.len() && rest[k] == name;
            assert(names[at] == name);
        }
        assert(names[names.len() - 1] == names.last());
        if now < names.last().expires_at {
            let all = kept.push(names.last());
            assert(all[kept.len() as int] == names.last());
            if kept.contains(name) {
                let at = choose|k: int| 0 <= k < kept.len() && kept[k] == name;
                assert(all[at] == name);
            }
            if all.contains(name) {
                let at = choose|k: int| 0 <= k < all.len() && all[k] == name;
                if at < kept.len() {
                    assert(kept[at] == name);
                }
            }
        }
    }
}

/// Someone who comes again is not named twice: the time of the name is prolonged. Someone new is
/// named behind the others while there are fewer than three names, and is counted in otherwise.
pub proof fn law_everyone_is_named_once(
    batch: BatchView,
    author: Option<Seq<char>>,
    name: Seq<char>,
    expires_at: u64,
    at: int,
)
    ensures
        ({
            let after = batch.pushed(author, name, expires_at);
            let known = author is Some && exists|i: int|
                0 <= i < batch.names.len() && (#[trigger] batch.names[i]).author_id == author;
            &&& known ==> after.names.len() == batch.names.len() && after.more_until
                == batch.more_until
            &&& known && 0 <= at < batch.names.len() && batch.names[at].author_id == author
                && (forall|i: int|
                0 <= i < at ==> (#[trigger] batch.names[i]).author_id != author)
                ==> after.names[at].expires_at >= expires_at && after.names[at].name
                == batch.names[at].name && after.names[at].expires_at
                >= batch.names[at].expires_at
            &&& !known && batch.names.len() < 3 ==> after.names == batch.names.push(
                NameView { author_id: author, name, expires_at },
            ) && after.more_until == batch.more_until
            &&& !known && batch.names.len() == 3 ==> after.names == batch.names && after.more_until
                is Some && after.more_until->0 >= expires_at
        }),
{
    if author is Some {
        lemma_first_of_author(batch.names, author->0);
    }
}

proof fn lemma_first_of_author(names: Seq<NameView>, id: Seq<char>)
    ensures
        0 <= author_at(names, id) <= names.len(),
        author_at(names, id) < names.len() ==> names[author_at(names, id)].author_id == Some(id),
        forall|i: int|
            0 <= i < author_at(names, id) ==> (#[trigger] names[i]).author_id != Some(id),
    decreases names.len(),
{
    if names.len() > 0 && names[0].author_id != Some(id) {
        let rest = names.skip(1);
        lemma_first_of_author(rest, id);
        assert forall|i: int| 0 <= i < author_at(names, id) implies (#[trigger] names[i]).author_id
            != Some(id) by {
            if i > 0 {
                assert(rest[i - 1] == names[i]);
            }
        }
    }
}

/// Once what is shown was readable long enough, those who entered are shown next, together with the
/// likes, for five seconds, of which two are theirs alone; likes by themselves are shown for three.
pub proof fn law_entries_come_before_likes(notices: ActivityView, now: u64)
    requires
        now <= LAST_INSTANT,
        notices.current is None || now >= notices.current->0.stable_until,
    ensures
        ({
            let next = notices.advanced(now);
            let enters = notices.next_enter.expired(now);
            let likes = notices.next_like.expired(now);
            &&& !enters.is_empty() ==> next.current is Some && next.current->0.kind
                == DanmuEventKind::Enter && next.current->0.primary == enters
                && next.current->0.likes == likes && next.current->0.expires_at == now + 5000
                && next.current->0.stable_until == now + 2000 && next.next_enter.is_empty()
                && next.next_like.is_empty()
            &&& enters.is_empty() && !likes.is_empty() && notices.still_shown(now) is None
                ==> next.current is Some && next.current->0.kind == DanmuEventKind::Like
                && next.current->0.primary == likes && next.current->0.expires_at == now + 3000
                && next.current->0.stable_until == now + 2000 && next.next_like.is_empty()
            &&& enters.is_empty() && likes.is_empty() ==> next.current == notices.still_shown(now)
        }),
{
}

/// Someone who enters or likes while nothing is shown is named at once.
pub proof fn law_the_first_visitor_is_named_at_once(
    notices: ActivityView,
    event: DanmuEvent,
    now: u64,
    wall: i64,
)
    requires
        now <= LAST_INSTANT,
        notices.current is None,
        notices.next_enter.is_empty(),
        notices.next_like.is_empty(),
        event.origin == DanmuEventOrigin::Live,
        event.kind == DanmuEventKind::Enter || event.kind == DanmuEventKind::Like,
        event.kind == DanmuEventKind::Enter ==> event.timestamp <= wall < event.timestamp + 5000,
        event.kind == DanmuEventKind::Like ==> event.timestamp <= wall < event.timestamp + 3000,
    ensures
        ({
            let shown = notices.received(event, now, wall).current;
            &&& shown is Some
            &&& shown->0.kind == event.kind
            &&& shown->0.primary.names.len() == 1
            &&& shown->0.primary.names[0].name == audience_name(text::opt_view(event.username))
            &&& shown->0.primary.more_until is None
        }),
{
    let batch = notices.next_enter;
    let other = notices.next_like;
    let author = domain::usable_id(text::opt_view(event.author_id));
    let name = audience_name(text::opt_view(event.username));
    let until = (now + ActivityView::remaining(event, wall)) as u64;
    assert(alive(batch.names, now) =~= batch.names);
    assert(alive(other.names, now) =~= other.names);
    assert(batch.expired(now).is_empty());
    assert(other.expired(now).is_empty());
    if author is Some {
        lemma_first_of_author(batch.names, author->0);
        lemma_first_of_author(other.names, author->0);
    }
    let mine = if event.kind == DanmuEventKind::Enter {
        batch.expired(now)
    } else {
        other.expired(now)
    };
    let pushed = mine.pushed(author, name, until);
    assert(pushed.names.len() == 1 && pushed.names[0].name == name && pushed.more_until is None);
    assert(until > now);
    assert(pushed.names.drop_last() =~= Seq::<NameView>::empty());
    reveal_with_fuel(alive, 2);
    assert(alive(pushed.names, now) =~= pushed.names);
    assert(alive(mine.names, now) =~= mine.names);
}

/// Nothing is shown past its time.
pub proof fn law_nothing_is_shown_past_its_time(
    notices: ActivityView,
    width: nat,
    show_name: bool,
    now: u64,
)
    requires
        notices.current is None || now >= notices.current->0.expires_at,
    ensures
        notices.rendered(width, show_name, now) is None,
{
}

/// A single name that has room is shown whole, with what was done.
pub proof fn law_a_single_name_is_shown_whole(batch: BatchView, kind: DanmuEventKind, width: nat)
    requires
        batch.names.len() == 1,
        batch.more_until is None,
    ensures
        unicode::display_width(batch.names[0].name + seq![' '] + action_text(kind)) <= width
            ==> batch.text(kind, width, true, true) == Some(
            batch.names[0].name + seq![' '] + action_text(kind),
        ),
        kind == DanmuEventKind::Enter ==> action_text(kind) == "进入直播间"@,
        kind == DanmuEventKind::Like ==> action_text(kind) == "为直播间点赞"@,
{
    reveal_strlit(" ");
    reveal_strlit("");
    let names = batch.first_names(1);
    let one = Seq::new(1, |i: int| batch.names[i].name);
    assert(one.len() == 1 && one[0] == batch.names[0].name);
    assert(names == batch.names[0].name);
    let suffix = batch.suffix(1, action_text(kind));
    assert(suffix =~= seq![' '] + action_text(kind));
    assert(names + suffix =~= batch.names[0].name + seq![' '] + action_text(kind));
    reveal_with_fuel(BatchView::named_text, 2);
}

/// A visitor's name stays on one line, and a visitor without a name is a visitor.
pub proof fn law_visitors_have_a_name(username: Option<Seq<char>>)
    ensures
        audience_name(username).len() > 0,
        forall|i: int|
            0 <= i < audience_name(username).len() ==> audience_name(username)[i] != '\n'
                && audience_name(username)[i] != '\r',
        username is None ==> audience_name(username) == "观众"@,
{
    reveal_strlit("观众");
    reveal_strlit("");
    if username is None {
        let none = Seq::<char>::empty();
        events::law_highlighting_leaves_the_words(none, none, none);
        assert(on_one_line(none) =~= none);
    }
    let name = on_one_line(
        events::without_markup(
            match username {
                Some(name) => name,
                None => Seq::empty(),
            },
        ),
    );
    text::lemma_trimmed(name);
    assert(text::trimmed_end(Seq::<char>::empty()) =~= Seq::<char>::empty());
    if name.len() == 0 {
        assert(text::trimmed(name).len() == 0);
    }
}

/// As many names are shown as fit, counted from the first; where some are left out, or more came
/// than are named, this is said.
pub proof fn law_as_many_names_are_shown_as_fit(
    batch: BatchView,
    count: nat,
    k: nat,
    action: Seq<char>,
    width: nat,
    truncate: bool,
)
    requires
        0 < k <= count,
    ensures
        unicode::display_width(batch.first_names(k) + batch.suffix(k, action)) <= width && (forall|
            j: nat,
        |
            k < j <= count ==> unicode::display_width(
                #[trigger] batch.first_names(j) + batch.suffix(j, action),
            ) > width) ==> batch.named_text(count, action, width, truncate) == Some(
            batch.first_names(k) + batch.suffix(k, action),
        ),
        k < batch.names.len() || batch.more_until is Some ==> text::has_prefix(
            batch.suffix(k, action),
            seq!['等'],
        ),
    decreases count,
{
    reveal_strlit("等");
    let fits = unicode::display_width(batch.first_names(k) + batch.suffix(k, action)) <= width;
    if fits && (forall|j: nat|
        k < j <= count ==> unicode::display_width(
            #[trigger] batch.first_names(j) + batch.suffix(j, action),
        ) > width) && k < count {
        assert(unicode::display_width(batch.first_names(count) + batch.suffix(count, action))
            > width);
        law_as_many_names_are_shown_as_fit(
            batch,
            (count - 1) as nat,
            k,
            action,
            width,
            truncate,
        );
    }
    if k < batch.names.len() || batch.more_until is Some {
        let suffix = batch.suffix(k, action);
        assert(suffix.subrange(0, 1) =~= seq!['等']);
    }
}

/// That more came than are named is said until its time is over.
pub proof fn law_more_visitors_are_told_until_their_time(batch: BatchView, now: u64)
    ensures
        batch.expired(now).more_until is Some <==> batch.more_until is Some && now
            < batch.more_until->0,
        batch.expired(now).more_until is Some ==> batch.expired(now).more_until
            == batch.more_until,
{
}

} // verus!
