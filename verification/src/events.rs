//! What an event looks like: its text without platform markup, and the two sources of one event
//! brought together.
use vstd::prelude::*;
use vstd::string::*;

use crate::domain;
use crate::domain::{DanmuEmote, DanmuEvent, DanmuEventKind, DanmuEventOrigin};
use crate::text;

verus! {

/// The platform marks names in a text with `<%` and `%>`.
pub open spec fn without_markup(value: Seq<char>) -> Seq<char> {
    text::replaced(text::replaced(value, "<%"@, ""@), "%>"@, ""@)
}

pub fn clean_platform_markup(value: &str) -> (r: String)
    ensures
        r@ == without_markup(value@),
{
    text::replace(text::replace(value, "<%", "").as_str(), "%>", "")
}

/// The emote codes with the characters shown for them.
pub open spec fn emote_codes() -> Seq<(&'static str, &'static str)> {
    seq![
        ("[dog]", "🐶"),
        ("[doge]", "🐕"),
        ("[妙啊]", "👍"),
        ("[笑哭]", "😂"),
        ("[辣眼睛]", "🙈"),
        ("[吃瓜]", "🍉"),
        ("[鼓掌]", "👏"),
        ("[赞]", "👍"),
        ("[爱心]", "❤️"),
        ("[捂脸]", "🤦"),
        ("[呲牙]", "😁"),
        ("[大哭]", "😭"),
        ("[花]", "🌸"),
        ("[委屈]", "🥺"),
        ("[微笑]", "🙂"),
        ("[滑稽]", "😏"),
        ("[疑惑]", "🤔"),
        ("[惊讶]", "😮"),
        ("[害羞]", "😊"),
        ("[生气]", "😠"),
        ("[无语]", "😑"),
        ("[口罩]", "😷"),
        ("[星星眼]", "🤩"),
        ("[OK]", "👌"),
    ]
}

fn emote_table() -> (r: Vec<(&'static str, &'static str)>)
    ensures
        r@ == emote_codes(),
{
    let mut table: Vec<(&'static str, &'static str)> = Vec::new();
    table.push(("[dog]", "🐶"));
    table.push(("[doge]", "🐕"));
    table.push(("[妙啊]", "👍"));
    table.push(("[笑哭]", "😂"));
    table.push(("[辣眼睛]", "🙈"));
    table.push(("[吃瓜]", "🍉"));
    table.push(("[鼓掌]", "👏"));
    table.push(("[赞]", "👍"));
    table.push(("[爱心]", "❤️"));
    table.push(("[捂脸]", "🤦"));
    table.push(("[呲牙]", "😁"));
    table.push(("[大哭]", "😭"));
    table.push(("[花]", "🌸"));
    table.push(("[委屈]", "🥺"));
    table.push(("[微笑]", "🙂"));
    table.push(("[滑稽]", "😏"));
    table.push(("[疑惑]", "🤔"));
    table.push(("[惊讶]", "😮"));
    table.push(("[害羞]", "😊"));
    table.push(("[生气]", "😠"));
    table.push(("[无语]", "😑"));
    table.push(("[口罩]", "😷"));
    table.push(("[星星眼]", "🤩"));
    table.push(("[OK]", "👌"));
    table
}

/// The text with the codes of a table replaced, one code after another.
pub open spec fn with_codes(
    content: Seq<char>,
    table: Seq<(&'static str, &'static str)>,
) -> Seq<char>
    decreases table.len(),
{
    if table.len() == 0 {
        content
    } else {
        text::replaced(
            with_codes(content, table.drop_last()),
            table.last().0@,
            table.last().1@,
        )
    }
}

pub fn map_bili_emotes(content: &str) -> (r: String)
    ensures
        r@ == with_codes(content@, emote_codes()),
{
    let table: Vec<(&'static str, &'static str)> = emote_table();
    let mut value: String = content.to_owned();
    let mut i: usize = 0;
    proof {
        assert(table@.take(0) =~= Seq::empty());
    }
    while i < table.len()
        invariant
            i <= table@.len(),
            value@ == with_codes(content@, table@.take(i as int)),
        decreases table@.len() - i,
    {
        proof {
            assert(table@.take(i + 1).drop_last() =~= table@.take(i as int));
        }
        value = text::replace(value.as_str(), table[i].0, table[i].1);
        i = i + 1;
    }
    proof {
        assert(table@.take(i as int) =~= table@);
    }
    value
}

/// A text that holds none of the known codes is shown as it is, whatever else stands in brackets.
pub proof fn law_unknown_emote_codes_are_kept(
    content: Seq<char>,
    table: Seq<(&'static str, &'static str)>,
)
    requires
        forall|i: int|
            0 <= i < table.len() ==> (#[trigger] table[i]).0@.len() > 0 && !text::occurs_in(
                table[i].0@,
                content,
            ),
    ensures
        with_codes(content, table) == content,
    decreases table.len(),
{
    if table.len() > 0 {
        assert(table.last() == table[table.len() - 1]);
        assert forall|i: int| 0 <= i < table.drop_last().len() implies (
        #[trigger] table.drop_last()[i]).0@.len() > 0 && !text::occurs_in(
            table.drop_last()[i].0@,
            content,
        ) by {
            assert(table.drop_last()[i] == table[i]);
        }
        law_unknown_emote_codes_are_kept(content, table.drop_last());
        text::lemma_replaced_absent(content, table.last().0@, table.last().1@);
    }
}

/// A sign that is shown for an emote, and stands in no code.
pub open spec fn is_sign(c: char) -> bool {
    c as u32 >= 0x1F300 || c as u32 == 0x2764 || c as u32 == 0xFE0F
}

/// A code is made of other characters than the signs, and something is shown for it.
pub open spec fn is_coded(entry: (&'static str, &'static str)) -> bool {
    &&& entry.0@.len() > 0
    &&& entry.1@.len() > 0
    &&& forall|i: int| 0 <= i < entry.0@.len() ==> !is_sign(#[trigger] entry.0@[i])
    &&& forall|i: int| 0 <= i < entry.1@.len() ==> is_sign(#[trigger] entry.1@[i])
}

proof fn lemma_codes_are_coded()
    ensures
        forall|i: int| 0 <= i < emote_codes().len() ==> is_coded(#[trigger] emote_codes()[i]),
{
    assert(is_coded(emote_codes()[0])) by {
        reveal_strlit("[dog]");
        reveal_strlit("🐶");
    }
    assert(is_coded(emote_codes()[1])) by {
        reveal_strlit("[doge]");
        reveal_strlit("🐕");
    }
    assert(is_coded(emote_codes()[2])) by {
        reveal_strlit("[妙啊]");
        reveal_strlit("👍");
    }
    assert(is_coded(emote_codes()[3])) by {
        reveal_strlit("[笑哭]");
        reveal_strlit("😂");
    }
    assert(is_coded(emote_codes()[4])) by {
        reveal_strlit("[辣眼睛]");
        reveal_strlit("🙈");
    }
    assert(is_coded(emote_codes()[5])) by {
        reveal_strlit("[吃瓜]");
        reveal_strlit("🍉");
    }
    assert(is_coded(emote_codes()[6])) by {
        reveal_strlit("[鼓掌]");
        reveal_strlit("👏");
    }
    assert(is_coded(emote_codes()[7])) by {
        reveal_strlit("[赞]");
        reveal_strlit("👍");
    }
    assert(is_coded(emote_codes()[8])) by {
        reveal_strlit("[爱心]");
        reveal_strlit("❤️");
    }
    assert(is_coded(emote_codes()[9])) by {
        reveal_strlit("[捂脸]");
        reveal_strlit("🤦");
    }
    assert(is_coded(emote_codes()[10])) by {
        reveal_strlit("[呲牙]");
        reveal_strlit("😁");
    }
    assert(is_coded(emote_codes()[11])) by {
        reveal_strlit("[大哭]");
        reveal_strlit("😭");
    }
    assert(is_coded(emote_codes()[12])) by {
        reveal_strlit("[花]");
        reveal_strlit("🌸");
    }
    assert(is_coded(emote_codes()[13])) by {
        reveal_strlit("[委屈]");
        reveal_strlit("🥺");
    }
    assert(is_coded(emote_codes()[14])) by {
        reveal_strlit("[微笑]");
        reveal_strlit("🙂");
    }
    assert(is_coded(emote_codes()[15])) by {
        reveal_strlit("[滑稽]");
        reveal_strlit("😏");
    }
    assert(is_coded(emote_codes()[16])) by {
        reveal_strlit("[疑惑]");
        reveal_strlit("🤔");
    }
    assert(is_coded(emote_codes()[17])) by {
        reveal_strlit("[惊讶]");
        reveal_strlit("😮");
    }
    assert(is_coded(emote_codes()[18])) by {
        reveal_strlit("[害羞]");
        reveal_strlit("😊");
    }
    assert(is_coded(emote_codes()[19])) by {
        reveal_strlit("[生气]");
        reveal_strlit("😠");
    }
    assert(is_coded(emote_codes()[20])) by {
        reveal_strlit("[无语]");
        reveal_strlit("😑");
    }
    assert(is_coded(emote_codes()[21])) by {
        reveal_strlit("[口罩]");
        reveal_strlit("😷");
    }
    assert(is_coded(emote_codes()[22])) by {
        reveal_strlit("[星星眼]");
        reveal_strlit("🤩");
    }
    assert(is_coded(emote_codes()[23])) by {
        reveal_strlit("[OK]");
        reveal_strlit("👌");
    }
}

/// No code of a table is left in a text once all of them have been replaced.
proof fn lemma_no_code_is_left(
    content: Seq<char>,
    table: Seq<(&'static str, &'static str)>,
    at: int,
)
    requires
        0 <= at < table.len(),
        forall|i: int| 0 <= i < table.len() ==> is_coded(#[trigger] table[i]),
    ensures
        !text::occurs_in(table[at].0@, with_codes(content, table)),
    decreases table.len(),
{
    let part = table[at].0@;
    let last = table[table.len() - 1];
    let before = with_codes(content, table.drop_last());
    assert(table.last() == last);
    assert(text::apart(part, last.1@)) by {
        assert forall|i: int, j: int| 0 <= i < part.len() && 0 <= j < last.1@.len() implies
            #[trigger] part[i] != #[trigger] last.1@[j] by {
            assert(is_coded(table[at]) && is_coded(last));
            assert(!is_sign(part[i]) && is_sign(last.1@[j]));
        }
    }
    if text::occurs_in(part, with_codes(content, table)) {
        let k = choose|k: int| text::matches_at(with_codes(content, table), part, k);
        text::lemma_replaced_occurs(before, last.0@, last.1@, part, k);
        if at < table.len() - 1 {
            assert forall|i: int| 0 <= i < table.drop_last().len() implies is_coded(
                #[trigger] table.drop_last()[i],
            ) by {
                assert(table.drop_last()[i] == table[i]);
            }
            lemma_no_code_is_left(content, table.drop_last(), at);
        }
    }
}

/// Of the known codes none is left in what is shown, so that showing it once more changes nothing.
pub proof fn law_no_known_code_is_left(content: Seq<char>)
    ensures
        forall|i: int|
            0 <= i < emote_codes().len() ==> !text::occurs_in(
                (#[trigger] emote_codes()[i]).0@,
                with_codes(content, emote_codes()),
            ),
        with_codes(with_codes(content, emote_codes()), emote_codes()) == with_codes(
            content,
            emote_codes(),
        ),
{
    lemma_codes_are_coded();
    assert forall|i: int| 0 <= i < emote_codes().len() implies !text::occurs_in(
        (#[trigger] emote_codes()[i]).0@,
        with_codes(content, emote_codes()),
    ) by {
        lemma_no_code_is_left(content, emote_codes(), i);
    }
    law_unknown_emote_codes_are_kept(with_codes(content, emote_codes()), emote_codes());
}

/// What is shown for an emote of the event: its fallback, or a smile where it has none.
pub open spec fn emote_text(emote: DanmuEmote) -> Seq<char> {
    if emote.fallback@.len() == 0 {
        "🙂"@
    } else {
        emote.fallback@
    }
}

/// The text with the emotes of an event replaced, one after another.
pub open spec fn with_emotes(content: Seq<char>, emotes: Seq<DanmuEmote>) -> Seq<char>
    decreases emotes.len(),
{
    if emotes.len() == 0 {
        content
    } else {
        text::replaced(
            with_emotes(content, emotes.drop_last()),
            emotes.last().text@,
            emote_text(emotes.last()),
        )
    }
}

pub open spec fn emote_content(event: DanmuEvent) -> Seq<char> {
    with_emotes(with_codes(event.content@, emote_codes()), event.emotes@)
}

pub fn map_event_emotes(event: &DanmuEvent) -> (r: String)
    ensures
        r@ == emote_content(*event),
{
    let mut value: String = map_bili_emotes(event.content.as_str());
    let ghost start = value@;
    let mut i: usize = 0;
    proof {
        assert(event.emotes@.take(0) =~= Seq::empty());
    }
    while i < event.emotes.len()
        invariant
            i <= event.emotes@.len(),
            value@ == with_emotes(start, event.emotes@.take(i as int)),
        decreases event.emotes@.len() - i,
    {
        proof {
            assert(event.emotes@.take(i + 1).drop_last() =~= event.emotes@.take(i as int));
        }
        let emote: &DanmuEmote = &event.emotes[i];
        let shown: &str = if emote.fallback.as_str().is_empty() {
            "🙂"
        } else {
            emote.fallback.as_str()
        };
        value = text::replace(value.as_str(), emote.text.as_str(), shown);
        i = i + 1;
    }
    proof {
        assert(event.emotes@.take(i as int) =~= event.emotes@);
    }
    value
}

/// Whether a text addresses the target already: `@`, the target, and then nothing or white space.
pub open spec fn addresses(content: Seq<char>, target: Seq<char>) -> bool {
    &&& content.len() > 0
    &&& content[0] == '@'
    &&& text::has_prefix(content.skip(1), target)
    &&& {
        let rest = content.skip(1).skip(target.len() as int);
        rest.len() == 0 || text::is_whitespace(rest[0])
    }
}

/// What an event says on the screen: without markup and with emotes shown; a reply begins with
/// the name it answers, unless its text does so already; other events do not repeat the name of
/// the user that is shown beside them.
pub open spec fn visible_content(event: DanmuEvent) -> Seq<char> {
    let content = without_markup(emote_content(event));
    let target = match event.reply_to {
        Some(target) => text::trimmed(without_markup(target@)),
        None => Seq::empty(),
    };
    if target.len() > 0 && !addresses(content, target) {
        "@"@ + target + " "@ + content
    } else if event.kind != DanmuEventKind::Danmu && event.username is Some && text::has_prefix(
        content,
        without_markup(event.username->0@),
    ) {
        let rest = text::trimmed(content.skip(without_markup(event.username->0@).len() as int));
        if rest.len() == 0 {
            domain::kind_text(event.kind)
        } else {
            rest
        }
    } else {
        content
    }
}

fn is_addressed(content: &str, target: &str) -> (r: bool)
    ensures
        r == addresses(content@, target@),
{
    let chars: Vec<char> = text::chars_of(content);
    let name: Vec<char> = text::chars_of(target);
    if chars.len() == 0 || chars[0] != '@' {
        return false;
    }
    let found: bool = text::chars_match_at(&chars, &name, 1);
    proof {
        let body = content@.skip(1);
        if 1 + target@.len() <= content@.len() {
            assert(body.subrange(0, target@.len() as int) =~= content@.subrange(
                1,
                1 + target@.len() as int,
            ));
            assert(body.skip(target@.len() as int) =~= content@.skip(1 + target@.len() as int));
        }
    }
    if !found {
        return false;
    }
    let rest: usize = 1 + name.len();
    rest == chars.len() || chars[rest].is_whitespace()
}

pub fn visible_event_content(event: &DanmuEvent) -> (r: String)
    ensures
        r@ == visible_content(*event),
{
    let content: String = clean_platform_markup(map_event_emotes(event).as_str());
    if let Some(target) = &event.reply_to {
        let name: String = text::trim(clean_platform_markup(target.as_str()).as_str());
        if !name.as_str().is_empty() && !is_addressed(content.as_str(), name.as_str()) {
            let mut out: String = text::add2("@", name.as_str());
            out.append(" ");
            out.append(content.as_str());
            return out;
        }
    }
    if event.kind != DanmuEventKind::Danmu {
        if let Some(username) = &event.username {
            let name: String = clean_platform_markup(username.as_str());
            if let Some(remainder) = text::strip_prefix(content.as_str(), name.as_str()) {
                let rest: String = text::trim(remainder.as_str());
                return if rest.as_str().is_empty() {
                    domain::kind_label(event.kind).to_owned()
                } else {
                    rest
                };
            }
        }
    }
    content
}

/// A reply shows the name that it answers at its beginning, once: where the text does not begin
/// with it, the name is put before it and the text follows unchanged.
pub proof fn law_a_reply_shows_its_target(event: DanmuEvent)
    requires
        event.reply_to is Some,
        text::trimmed(without_markup(event.reply_to->0@)).len() > 0,
    ensures
        ({
            let target = text::trimmed(without_markup(event.reply_to->0@));
            let content = without_markup(emote_content(event));
            &&& !addresses(content, target) ==> visible_content(event) == "@"@ + target + " "@
                + content
            &&& addresses(content, target) && event.kind == DanmuEventKind::Danmu
                ==> visible_content(event) == content
        }),
{
}

pub open spec fn marker_text(kind: DanmuEventKind) -> Seq<char> {
    match kind {
        DanmuEventKind::Danmu => "•"@,
        DanmuEventKind::Gift => "◆"@,
        DanmuEventKind::GuardEvent => "♛"@,
        DanmuEventKind::Superchat => "▣"@,
        DanmuEventKind::Enter => "→"@,
        DanmuEventKind::Like => "♥"@,
        DanmuEventKind::Follow => "+"@,
        DanmuEventKind::Share => "↗"@,
        DanmuEventKind::Pk => "⚔"@,
        DanmuEventKind::Lottery => "✦"@,
        DanmuEventKind::Moderation => "!"@,
        DanmuEventKind::RoomStatus => "◉"@,
        DanmuEventKind::System => "·"@,
    }
}

pub fn event_marker(kind: DanmuEventKind) -> (r: &'static str)
    ensures
        r@ == marker_text(kind),
{
    match kind {
        DanmuEventKind::Danmu => "•",
        DanmuEventKind::Gift => "◆",
        DanmuEventKind::GuardEvent => "♛",
        DanmuEventKind::Superchat => "▣",
        DanmuEventKind::Enter => "→",
        DanmuEventKind::Like => "♥",
        DanmuEventKind::Follow => "+",
        DanmuEventKind::Share => "↗",
        DanmuEventKind::Pk => "⚔",
        DanmuEventKind::Lottery => "✦",
        DanmuEventKind::Moderation => "!",
        DanmuEventKind::RoomStatus => "◉",
        DanmuEventKind::System => "·",
    }
}

/// The invisible characters that an input method leaves behind.
pub open spec fn is_format_char(c: char) -> bool {
    c == '\u{200b}' || c == '\u{200c}' || c == '\u{200d}' || c == '\u{2060}' || c == '\u{feff}'
}

pub open spec fn without_format_chars(value: Seq<char>) -> Seq<char>
    decreases value.len(),
{
    if value.len() == 0 {
        Seq::empty()
    } else if is_format_char(value.last()) {
        without_format_chars(value.drop_last())
    } else {
        without_format_chars(value.drop_last()).push(value.last())
    }
}

/// Typed text without the invisible characters of input methods and without surrounding white
/// space.
pub open spec fn sanitized(value: Seq<char>) -> Seq<char> {
    text::trimmed(without_format_chars(value))
}

pub fn sanitize_input(value: String) -> (r: String)
    ensures
        r@ == sanitized(value@),
{
    let chars: Vec<char> = text::chars_of(value.as_str());
    let mut out: String = String::new();
    let mut i: usize = 0;
    proof {
        assert(value@.take(0) =~= Seq::empty());
    }
    while i < chars.len()
        invariant
            i <= chars@.len(),
            chars@ == value@,
            out@ == without_format_chars(value@.take(i as int)),
        decreases chars@.len() - i,
    {
        proof {
            assert(value@.take(i + 1).drop_last() =~= value@.take(i as int));
        }
        let c: char = chars[i];
        if !(c == '\u{200b}' || c == '\u{200c}' || c == '\u{200d}' || c == '\u{2060}' || c
            == '\u{feff}') {
            out.push(c);
        }
        i = i + 1;
    }
    proof {
        assert(value@.take(i as int) =~= value@);
    }
    text::trim(out.as_str())
}

proof fn lemma_without_format_chars(value: Seq<char>)
    ensures
        forall|i: int|
            0 <= i < without_format_chars(value).len() ==> !is_format_char(
                #[trigger] without_format_chars(value)[i],
            ),
    decreases value.len(),
{
    if value.len() > 0 {
        let head = value.drop_last();
        lemma_without_format_chars(head);
        assert forall|i: int| 0 <= i < without_format_chars(value).len() implies !is_format_char(
            #[trigger] without_format_chars(value)[i],
        ) by {
            if i < without_format_chars(head).len() {
                assert(without_format_chars(value)[i] == without_format_chars(head)[i]);
            }
        }
    }
}

proof fn lemma_nothing_to_remove(value: Seq<char>)
    requires
        forall|i: int| 0 <= i < value.len() ==> !is_format_char(#[trigger] value[i]),
    ensures
        without_format_chars(value) == value,
    decreases value.len(),
{
    if value.len() > 0 {
        lemma_nothing_to_remove(value.drop_last());
        assert(value.drop_last().push(value.last()) =~= value);
    }
}

/// Cleaned text holds no invisible format character, and cleaning it again changes nothing.
pub proof fn law_sanitizing_is_final(value: Seq<char>)
    ensures
        forall|i: int|
            0 <= i < sanitized(value).len() ==> !is_format_char(#[trigger] sanitized(value)[i]),
        sanitized(sanitized(value)) == sanitized(value),
{
    let kept = without_format_chars(value);
    lemma_without_format_chars(value);
    text::lemma_trimmed(kept);
    let (from, to) = choose|from: int, to: int|
        0 <= from <= to <= kept.len() && text::trimmed(kept) == #[trigger] kept.subrange(from, to);
    assert forall|i: int| 0 <= i < sanitized(value).len() implies !is_format_char(
        #[trigger] sanitized(value)[i],
    ) by {
        assert(sanitized(value)[i] == kept[from + i]);
    }
    lemma_nothing_to_remove(sanitized(value));
}

/// The first event that tells of the same message as the incoming one.
pub open spec fn is_first_duplicate(events: Seq<DanmuEvent>, incoming: DanmuEvent, at: int) -> bool {
    &&& 0 <= at < events.len()
    &&& domain::is_cross_origin_duplicate(events[at], incoming)
    &&& forall|i: int|
        0 <= i < at ==> !domain::is_cross_origin_duplicate(#[trigger] events[i], incoming)
}

pub open spec fn has_duplicate(events: Seq<DanmuEvent>, incoming: DanmuEvent) -> bool {
    exists|i: int|
        0 <= i < events.len() && domain::is_cross_origin_duplicate(#[trigger] events[i], incoming)
}

/// Where there is a duplicate there is a first one.
pub proof fn lemma_has_first(events: Seq<DanmuEvent>, incoming: DanmuEvent) -> (at: int)
    requires
        has_duplicate(events, incoming),
    ensures
        is_first_duplicate(events, incoming, at),
    decreases events.len(),
{
    let some = choose|i: int|
        0 <= i < events.len() && domain::is_cross_origin_duplicate(#[trigger] events[i], incoming);
    if has_duplicate(events.take(some), incoming) {
        let at = lemma_has_first(events.take(some), incoming);
        assert forall|i: int| 0 <= i < at implies !domain::is_cross_origin_duplicate(
            #[trigger] events[i],
            incoming,
        ) by {
            assert(events.take(some)[i] == events[i]);
        }
        at
    } else {
        assert forall|i: int| 0 <= i < some implies !domain::is_cross_origin_duplicate(
            #[trigger] events[i],
            incoming,
        ) by {
            assert(events.take(some)[i] == events[i]);
        }
        some
    }
}

/// What becomes of a known event when the other source tells of it: the history knows the author,
/// the live connection knows the emotes, and either may know whom it answers.
pub open spec fn is_merged(known: DanmuEvent, incoming: DanmuEvent, merged: DanmuEvent) -> bool {
    let from_history = incoming.origin == DanmuEventOrigin::History;
    &&& merged == (DanmuEvent {
        username: merged.username,
        author_id: merged.author_id,
        platform_event_id: merged.platform_event_id,
        emotes: merged.emotes,
        reply_to: merged.reply_to,
        ..known
    })
    &&& text::opt_view(merged.username) == text::opt_view(
        if from_history {
            incoming.username
        } else {
            known.username
        },
    )
    &&& text::opt_view(merged.author_id) == text::opt_view(
        if from_history {
            incoming.author_id
        } else {
            known.author_id
        },
    )
    &&& text::opt_view(merged.platform_event_id) == text::opt_view(
        if from_history {
            incoming.platform_event_id
        } else {
            known.platform_event_id
        },
    )
    &&& merged.emotes@ == (if !from_history && known.emotes@.len() == 0 {
        incoming.emotes@
    } else {
        known.emotes@
    })
    &&& text::opt_view(merged.reply_to) == text::opt_view(
        if incoming.reply_to is Some {
            incoming.reply_to
        } else {
            known.reply_to
        },
    )
}

fn copy_opt(value: &Option<String>) -> (r: Option<String>)
    ensures
        r == *value,
{
    match value {
        Some(text) => Some(text.clone()),
        None => None,
    }
}

fn copy_emotes(emotes: &Vec<DanmuEmote>) -> (r: Vec<DanmuEmote>)
    ensures
        r@ == emotes@,
{
    let mut out: Vec<DanmuEmote> = Vec::new();
    let mut i: usize = 0;
    while i < emotes.len()
        invariant
            i <= emotes@.len(),
            out@ == emotes@.take(i as int),
        decreases emotes@.len() - i,
    {
        out.push(
            DanmuEmote { text: emotes[i].text.clone(), fallback: emotes[i].fallback.clone() },
        );
        proof {
            assert(emotes@.take(i + 1) =~= emotes@.take(i as int).push(emotes@[i as int]));
        }
        i = i + 1;
    }
    proof {
        assert(emotes@.take(i as int) =~= emotes@);
    }
    out
}

/// Brings an event together with the record that the other source holds of it. The answer says
/// whether there was one; the events are otherwise left as they are.
pub fn reconcile_cross_origin_event(events: &mut Vec<DanmuEvent>, incoming: &DanmuEvent) -> (r: bool)
    ensures
        r == has_duplicate(old(events)@, *incoming),
        !r ==> final(events)@ == old(events)@,
        forall|at: int| #[trigger]
            is_first_duplicate(old(events)@, *incoming, at) ==> final(events)@.len() == old(events)@.len() && is_merged(old(events)@[at], *incoming, final(events)@[at]) && final(events)@
                == old(events)@.update(at, final(events)@[at]),
{
    let ghost before = events@;
    let mut at: usize = 0;
    while at < events.len() && !domain::cross_origin_duplicate(&events[at], incoming)
        invariant
            at <= events@.len(),
            events@ == before,
            forall|i: int|
                0 <= i < at ==> !domain::is_cross_origin_duplicate(#[trigger] before[i], *incoming),
        decreases events@.len() - at,
    {
        at = at + 1;
    }
    if at == events.len() {
        return false;
    }
    proof {
        assert(is_first_duplicate(before, *incoming, at as int));
        assert forall|other: int| #[trigger] is_first_duplicate(before, *incoming, other) implies other
            == at by {}
    }
    proof {
        if before[at as int].emotes@.len() == 0 && incoming.emotes@.len() == 0 {
            assert(before[at as int].emotes@ =~= incoming.emotes@);
        }
    }
    let known: &mut DanmuEvent = &mut events[at];
    if incoming.origin == DanmuEventOrigin::History {
        known.username = copy_opt(&incoming.username);
        known.author_id = copy_opt(&incoming.author_id);
        known.platform_event_id = copy_opt(&incoming.platform_event_id);
    } else if known.emotes.len() == 0 && incoming.emotes.len() > 0 {
        known.emotes = copy_emotes(&incoming.emotes);
    }
    if incoming.reply_to.is_some() {
        known.reply_to = copy_opt(&incoming.reply_to);
    }
    true
}

/// A message stays one line: bringing the two sources together never changes how many events
/// there are, nor the identifier, kind, content and time of any.
pub proof fn law_reconciling_keeps_messages(
    before: Seq<DanmuEvent>,
    incoming: DanmuEvent,
    at: int,
    merged: DanmuEvent,
)
    requires
        is_first_duplicate(before, incoming, at),
        is_merged(before[at], incoming, merged),
    ensures
        before.update(at, merged).len() == before.len(),
        forall|i: int|
            0 <= i < before.len() ==> {
                let now = #[trigger] before.update(at, merged)[i];
                now.id == before[i].id && now.kind == before[i].kind && now.content
                    == before[i].content && now.timestamp == before[i].timestamp
            },
{
}

/// The events that a list shows, the oldest first. Passing notices are not listed.
pub open spec fn listed(events: Seq<DanmuEvent>) -> Seq<DanmuEvent>
    decreases events.len(),
{
    if events.len() == 0 {
        Seq::empty()
    } else if domain::lifetime_of(events[0].kind) is None {
        listed(events.skip(1)).push(events[0])
    } else {
        listed(events.skip(1))
    }
}

/// The events that a list shows, the oldest first.
pub fn display_events(events: &Vec<DanmuEvent>) -> (r: Vec<&DanmuEvent>)
    ensures
        r@.len() == listed(events@).len(),
        forall|i: int| 0 <= i < r@.len() ==> *(#[trigger] r@[i]) == listed(events@)[i],
{
    let mut out: Vec<&DanmuEvent> = Vec::new();
    let mut i: usize = events.len();
    proof {
        assert(events@.skip(i as int) =~= Seq::empty());
    }
    while i > 0
        invariant
            i <= events@.len(),
            out@.len() == listed(events@.skip(i as int)).len(),
            forall|k: int|
                0 <= k < out@.len() ==> *(#[trigger] out@[k]) == listed(events@.skip(i as int))[k],
        decreases i,
    {
        proof {
            assert(events@.skip(i - 1).skip(1) =~= events@.skip(i as int));
            assert(events@.skip(i - 1)[0] == events@[i - 1]);
        }
        i = i - 1;
        if events[i].kind.activity_lifetime().is_none() {
            out.push(&events[i]);
        }
    }
    proof {
        assert(events@.skip(0) =~= events@);
    }
    out
}

/// The markers of highlighted words are taken away, and nothing else is.
pub proof fn law_highlighting_leaves_the_words(
    before: Seq<char>,
    word: Seq<char>,
    behind: Seq<char>,
)
    requires
        forall|i: int| 0 <= i < before.len() ==> before[i] != '<' && before[i] != '%',
        forall|i: int| 0 <= i < word.len() ==> word[i] != '<' && word[i] != '%',
        forall|i: int| 0 <= i < behind.len() ==> behind[i] != '<' && behind[i] != '%',
    ensures
        without_markup(before + seq!['<', '%'] + word + seq!['%', '>'] + behind) == before + word
            + behind,
        without_markup(before) == before,
{
    reveal_strlit("<%");
    reveal_strlit("%>");
    reveal_strlit("");
    let open = "<%"@;
    let close = "%>"@;
    assert(open =~= seq!['<', '%']);
    assert(close =~= seq!['%', '>']);
    assert(""@ =~= Seq::<char>::empty());
    let all = before + open + word + close + behind;
    let at = before.len() as int;
    assert(all.subrange(at, at + 2) =~= open);
    assert forall|i: int| 0 <= i < at implies !text::matches_at(all, open, i) by {
        if text::matches_at(all, open, i) {
            assert(all.subrange(i, i + 2)[0] == all[i]);
        }
    }
    text::law_the_first_occurrence_is_replaced(all, open, ""@, at);
    let rest = all.skip(at + 2);
    assert(rest =~= word + close + behind);
    assert forall|i: int| 0 <= i < rest.len() implies !text::matches_at(rest, open, i) by {
        if text::matches_at(rest, open, i) {
            assert(rest.subrange(i, i + 2)[0] == rest[i]);
        }
    }
    text::law_nothing_else_is_replaced(rest, open, ""@);
    let opened = before + word + close + behind;
    assert(all.take(at) + ""@ + rest =~= opened);
    let end = (before.len() + word.len()) as int;
    assert(opened.subrange(end, end + 2) =~= close);
    assert forall|i: int| 0 <= i < end implies !text::matches_at(opened, close, i) by {
        if text::matches_at(opened, close, i) {
            assert(opened.subrange(i, i + 2)[0] == opened[i]);
        }
    }
    text::law_the_first_occurrence_is_replaced(opened, close, ""@, end);
    let tail = opened.skip(end + 2);
    assert(tail =~= behind);
    assert forall|i: int| 0 <= i < tail.len() implies !text::matches_at(tail, close, i) by {
        if text::matches_at(tail, close, i) {
            assert(tail.subrange(i, i + 2)[0] == tail[i]);
        }
    }
    text::law_nothing_else_is_replaced(tail, close, ""@);
    assert(opened.take(end) + ""@ + tail =~= before + word + behind);
    assert forall|i: int| 0 <= i < before.len() implies !text::matches_at(before, open, i)
        && !text::matches_at(before, close, i) by {
        if text::matches_at(before, open, i) {
            assert(before.subrange(i, i + 2)[0] == before[i]);
        }
        if text::matches_at(before, close, i) {
            assert(before.subrange(i, i + 2)[0] == before[i]);
        }
    }
    text::law_nothing_else_is_replaced(before, open, ""@);
    text::law_nothing_else_is_replaced(before, close, ""@);
}

/// Of a typed line only the characters without width, those that join or part without being seen,
/// are dropped; the others stay in their order.
pub proof fn law_only_unseen_characters_are_dropped(value: Seq<char>)
    ensures
        without_format_chars(value) == value.filter(
            |c: char|
                c != '\u{200b}' && c != '\u{200c}' && c != '\u{200d}' && c != '\u{2060}' && c
                    != '\u{feff}',
        ),
    decreases value.len(),
{
    let keeps = |c: char|
        c != '\u{200b}' && c != '\u{200c}' && c != '\u{200d}' && c != '\u{2060}' && c
            != '\u{feff}';
    reveal(Seq::filter);
    if value.len() > 0 {
        law_only_unseen_characters_are_dropped(value.drop_last());
        assert(is_format_char(value.last()) == !keeps(value.last()));
        assert(without_format_chars(value) =~= value.filter(keeps));
    } else {
        assert(without_format_chars(value) =~= value.filter(keeps));
    }
}

/// The list shows the messages that last, oldest first, each once.
pub proof fn law_the_list_reads_from_the_oldest(events: Seq<DanmuEvent>)
    ensures
        listed(events) == events.filter(
            |event: DanmuEvent|
                event.kind != DanmuEventKind::Enter && event.kind != DanmuEventKind::Like,
        ).reverse(),
    decreases events.len(),
{
    let lasts = |event: DanmuEvent|
        event.kind != DanmuEventKind::Enter && event.kind != DanmuEventKind::Like;
    if events.len() == 0 {
        reveal(Seq::filter);
        assert(events.filter(lasts).reverse() =~= Seq::<DanmuEvent>::empty());
    } else {
        law_the_list_reads_from_the_oldest(events.skip(1));
        lemma_filter_first(events, lasts);
        let rest = events.skip(1).filter(lasts);
        if lasts(events[0]) {
            assert((seq![events[0]] + rest).reverse() =~= rest.reverse().push(events[0]));
        }
    }
}

proof fn lemma_filter_first(events: Seq<DanmuEvent>, keeps: spec_fn(DanmuEvent) -> bool)
    requires
        events.len() > 0,
    ensures
        events.filter(keeps) == (if keeps(events[0]) {
            seq![events[0]] + events.skip(1).filter(keeps)
        } else {
            events.skip(1).filter(keeps)
        }),
    decreases events.len(),
{
    reveal(Seq::filter);
    let rest = events.drop_last();
    if rest.len() == 0 {
        assert(events.skip(1) =~= Seq::<DanmuEvent>::empty());
        assert(rest =~= Seq::<DanmuEvent>::empty());
        assert(rest.filter(keeps) =~= Seq::<DanmuEvent>::empty());
        assert(events.skip(1).filter(keeps) =~= Seq::<DanmuEvent>::empty());
        assert(events.last() == events[0]);
        assert(events.filter(keeps) =~= if keeps(events[0]) {
            seq![events[0]] + events.skip(1).filter(keeps)
        } else {
            events.skip(1).filter(keeps)
        });
    } else {
        lemma_filter_first(rest, keeps);
        assert(rest[0] == events[0]);
        assert(rest.skip(1) =~= events.skip(1).drop_last());
        assert(events.skip(1).last() == events.last());
        assert(events.filter(keeps) =~= if keeps(events[0]) {
            seq![events[0]] + events.skip(1).filter(keeps)
        } else {
            events.skip(1).filter(keeps)
        });
    }
}

/// Of a message that came both ways, the history knows the author: whichever came first, the row
/// has the name and the identifiers that the history gave.
pub proof fn law_the_history_names_the_author(
    known: DanmuEvent,
    incoming: DanmuEvent,
    merged: DanmuEvent,
)
    requires
        is_merged(known, incoming, merged),
        domain::is_cross_origin_duplicate(known, incoming),
    ensures
        ({
            let told = if known.origin == DanmuEventOrigin::History {
                known
            } else {
                incoming
            };
            &&& told.origin == DanmuEventOrigin::History
            &&& text::opt_view(merged.username) == text::opt_view(told.username)
            &&& text::opt_view(merged.author_id) == text::opt_view(told.author_id)
            &&& text::opt_view(merged.platform_event_id) == text::opt_view(told.platform_event_id)
        }),
        merged.id == known.id,
        merged.content == known.content,
        merged.timestamp == known.timestamp,
        merged.kind == known.kind,
        incoming.reply_to is Some ==> text::opt_view(merged.reply_to) == text::opt_view(
            incoming.reply_to,
        ),
        known.reply_to is Some && incoming.reply_to is None ==> text::opt_view(merged.reply_to)
            == text::opt_view(known.reply_to),
{
}

/// A chat message that answers nobody shows its own text.
pub proof fn law_chat_shows_its_text(event: DanmuEvent)
    requires
        event.kind == DanmuEventKind::Danmu,
        event.reply_to is None,
    ensures
        visible_content(event) == without_markup(emote_content(event)),
{
}

/// A notice that begins with the name of its person does not say the name twice: what follows the
/// name is shown, or the sort of the notice where nothing follows.
pub proof fn law_a_name_is_not_said_twice(event: DanmuEvent, said: Seq<char>)
    requires
        event.kind != DanmuEventKind::Danmu,
        event.reply_to is None,
        event.username is Some,
        without_markup(emote_content(event)) == without_markup(event.username->0@) + said,
    ensures
        text::trimmed(said).len() > 0 ==> visible_content(event) == text::trimmed(said),
        text::trimmed(said).len() == 0 ==> visible_content(event) == domain::kind_text(event.kind),
{
    let content = without_markup(emote_content(event));
    let name = without_markup(event.username->0@);
    assert(content.subrange(0, name.len() as int) =~= name);
    assert(content.skip(name.len() as int) =~= said);
}

/// A text addresses someone exactly where it begins with `@` and the name, and nothing or white
/// space follows.
pub proof fn law_an_address_is_a_whole_name(target: Seq<char>, rest: Seq<char>)
    ensures
        addresses(seq!['@'] + target + rest, target) <==> rest.len() == 0 || text::is_whitespace(
            rest[0],
        ),
{
    let content = seq!['@'] + target + rest;
    assert(content.skip(1) =~= target + rest);
    assert(content.skip(1).subrange(0, target.len() as int) =~= target);
    assert(content.skip(1).skip(target.len() as int) =~= rest);
}

/// An emote that comes with a message gives way to its fallback wherever its text stands.
pub proof fn law_an_emote_gives_way_to_its_fallback(
    content: Seq<char>,
    emotes: Seq<DanmuEmote>,
    at: int,
)
    requires
        emotes.len() == 1,
        emotes[0].text@.len() > 0,
        emotes[0].fallback@.len() > 0,
        text::matches_at(content, emotes[0].text@, at),
        forall|i: int| 0 <= i < at ==> !text::matches_at(content, emotes[0].text@, i),
    ensures
        with_emotes(content, emotes) == content.take(at) + emotes[0].fallback@ + with_emotes(
            content.skip(at + emotes[0].text@.len()),
            emotes,
        ),
{
    let rest = emotes.drop_last();
    assert(rest.len() == 0);
    reveal_with_fuel(with_emotes, 2);
    text::law_the_first_occurrence_is_replaced(
        content,
        emotes[0].text@,
        emotes[0].fallback@,
        at,
    );
}

} // verus!
