//! The line editor behind every text field: a text with a cursor that never splits a grapheme
//! cluster.
use tui_input::{Input, InputRequest};
use vstd::prelude::*;
use vstd::string::*;

use crate::segments;
use crate::text;
use crate::unicode;

verus! {

#[verifier::external_type_specification]
#[verifier::external_body]
pub struct ExInput(tui_input::Input);

/// The characters that an `Input` holds.
pub uninterp spec fn buffer_text(input: tui_input::Input) -> Seq<char>;

/// The characters that stand before the cursor of an `Input`.
pub uninterp spec fn buffer_cursor(input: tui_input::Input) -> nat;

/// Where `Input::handle` puts the cursor when it steps by one word.
pub uninterp spec fn word_edge(text: Seq<char>, cursor: nat, forward: bool) -> nat;

/// The characters before a cluster: where the clusters meet, and the two ends.
pub open spec fn edge(clusters: Seq<Seq<char>>, k: int) -> nat {
    text::concat(clusters.take(k)).len()
}

/// The last edge before the cursor.
pub open spec fn edge_before(clusters: Seq<Seq<char>>, cursor: nat) -> nat
    decreases clusters.len(),
{
    if clusters.len() == 0 {
        0
    } else if text::concat(clusters.drop_last()).len() < cursor {
        text::concat(clusters.drop_last()).len()
    } else {
        edge_before(clusters.drop_last(), cursor)
    }
}

/// The first edge behind the cursor.
pub open spec fn edge_after(clusters: Seq<Seq<char>>, cursor: nat) -> nat
    decreases clusters.len(),
{
    if clusters.len() == 0 {
        0
    } else if text::concat(clusters.drop_last()).len() <= cursor {
        text::concat(clusters).len()
    } else {
        edge_after(clusters.drop_last(), cursor)
    }
}

/// The requests that the editor makes of its buffer.
#[derive(Clone, Copy, Debug, PartialEq, Eq, Structural)]
pub enum Edit {
    SetCursor(usize),
    Insert(char),
    Start,
    End,
    Left,
    Right,
    WordLeft,
    WordRight,
    DeleteBefore,
    DeleteAt,
    DeletePreviousWord,
    DeleteToEnd,
}

/// The text and the cursor after one request.
pub open spec fn edited(text: Seq<char>, cursor: nat, edit: Edit) -> (Seq<char>, nat) {
    let end = text.len();
    match edit {
        Edit::SetCursor(at) => (text, unicode::least(at as int, end as int) as nat),
        Edit::Insert(c) => (text.insert(cursor as int, c), cursor + 1),
        Edit::Start => (text, 0),
        Edit::End => (text, end),
        Edit::Left => if cursor == 0 {
            (text, cursor)
        } else {
            (text, edge_before(unicode::graphemes(text), cursor))
        },
        Edit::Right => if cursor == end {
            (text, cursor)
        } else {
            (text, edge_after(unicode::graphemes(text), cursor))
        },
        Edit::WordLeft => if cursor == 0 {
            (text, cursor)
        } else {
            (text, word_edge(text, cursor, false))
        },
        Edit::WordRight => if cursor == end {
            (text, cursor)
        } else {
            (text, word_edge(text, cursor, true))
        },
        Edit::DeleteBefore => if cursor == 0 {
            (text, cursor)
        } else {
            let from = edge_before(unicode::graphemes(text), cursor);
            (text.take(from as int) + text.skip(cursor as int), from)
        },
        Edit::DeleteAt => if cursor == end {
            (text, cursor)
        } else {
            let to = edge_after(unicode::graphemes(text), cursor);
            (text.take(cursor as int) + text.skip(to as int), cursor)
        },
        Edit::DeletePreviousWord => if cursor == 0 {
            (text, cursor)
        } else {
            let from = word_edge(text, cursor, false);
            (text.take(from as int) + text.skip(cursor as int), from)
        },
        Edit::DeleteToEnd => (text.take(cursor as int), cursor),
    }
}

/// `Input::new`: holds the text, with the cursor behind it.
pub assume_specification[ Input::new ](value: String) -> (r: Input)
    ensures
        buffer_text(r) == value@,
        buffer_cursor(r) == value@.len(),
;

/// `Input::reset`: empties the buffer.
pub assume_specification[ Input::reset ](buffer: &mut Input)
    ensures
        buffer_text(*final(buffer)) == Seq::<char>::empty(),
        buffer_cursor(*final(buffer)) == 0,
;

/// `Input::value_and_reset`: hands the text out and empties the buffer.
pub assume_specification[ Input::value_and_reset ](buffer: &mut Input) -> (r: String)
    ensures
        r@ == buffer_text(*old(buffer)),
        buffer_text(*final(buffer)) == Seq::<char>::empty(),
        buffer_cursor(*final(buffer)) == 0,
;

/// `Input::value`: the text.
pub assume_specification[ Input::value ](buffer: &Input) -> (r: &str)
    ensures
        r@ == buffer_text(*buffer),
;

/// `Input::cursor`: the number of characters before the cursor.
pub assume_specification[ Input::cursor ](buffer: &Input) -> (r: usize)
    ensures
        r == buffer_cursor(*buffer),
;

/// `Input::handle`: carries one request out. A step by one character, or a deletion of one, goes to
/// the nearest edge of a grapheme cluster on that side, the clusters being those that
/// `UnicodeSegmentation::graphemes` yields for the text: the edge is looked for with
/// `GraphemeCursor`, as they are. The cursor stays within the text; a step to the left or to the
/// right moves it unless it stands at that end already.
#[verifier::external_body]
fn handle(input: &mut Input, edit: Edit)
    requires
        buffer_cursor(*old(input)) <= buffer_text(*old(input)).len(),
    ensures
        (buffer_text(*final(input)), buffer_cursor(*final(input))) == edited(
            buffer_text(*old(input)),
            buffer_cursor(*old(input)),
            edit,
        ),
        buffer_cursor(*final(input)) <= buffer_text(*final(input)).len(),
        buffer_cursor(*old(input)) > 0 && (edit is Left || edit is DeleteBefore) ==> buffer_cursor(
            *final(input),
        ) < buffer_cursor(*old(input)),
        buffer_cursor(*old(input)) > 0 && (edit is WordLeft || edit is DeletePreviousWord)
            ==> buffer_cursor(*final(input)) == word_edge(
            buffer_text(*old(input)),
            buffer_cursor(*old(input)),
            false,
        ) < buffer_cursor(*old(input)),
        buffer_cursor(*old(input)) < buffer_text(*old(input)).len() && edit is Right
            ==> buffer_cursor(*final(input)) > buffer_cursor(*old(input)),
        buffer_cursor(*old(input)) < buffer_text(*old(input)).len() && edit is WordRight
            ==> buffer_cursor(*final(input)) == word_edge(
            buffer_text(*old(input)),
            buffer_cursor(*old(input)),
            true,
        ) > buffer_cursor(*old(input)),
        buffer_cursor(*old(input)) < buffer_text(*old(input)).len() && edit is DeleteAt
            ==> buffer_text(*final(input)).len() < buffer_text(*old(input)).len(),
{
    input.handle(match edit {
        Edit::SetCursor(at) => InputRequest::SetCursor(at),
        Edit::Insert(c) => InputRequest::InsertChar(c),
        Edit::Start => InputRequest::GoToStart,
        Edit::End => InputRequest::GoToEnd,
        Edit::Left => InputRequest::GoToPrevChar,
        Edit::Right => InputRequest::GoToNextChar,
        Edit::WordLeft => InputRequest::GoToPrevWord,
        Edit::WordRight => InputRequest::GoToNextWord,
        Edit::DeleteBefore => InputRequest::DeletePrevChar,
        Edit::DeleteAt => InputRequest::DeleteNextChar,
        Edit::DeletePreviousWord => InputRequest::DeletePrevWord,
        Edit::DeleteToEnd => InputRequest::DeleteTillEnd,
    });
}

/// An editable line of text.
pub struct EditorInput {
    inner: Input,
}

/// What pasting a character inserts: at most one character. The line feed of a carriage return
/// that was just pasted adds nothing, line ends become spaces unless the field takes several
/// lines, other white space becomes a space, and control codes are dropped.
pub open spec fn pasted_char(c: char, after_return: bool, multiline: bool) -> Seq<char> {
    if after_return && c == '\n' {
        Seq::empty()
    } else if multiline && (c == '\r' || c == '\n') {
        seq!['\n']
    } else if c == '\r' || c == '\n' || c == '\t' || (text::is_whitespace(c) && !text::is_control(
        c,
    )) {
        seq![' ']
    } else if text::is_control(c) {
        Seq::empty()
    } else {
        seq![c]
    }
}

/// What pasting a text inserts.
pub open spec fn pasted(clip: Seq<char>, multiline: bool) -> Seq<char>
    decreases clip.len(),
{
    if clip.len() == 0 {
        Seq::empty()
    } else {
        let head = clip.drop_last();
        pasted(head, multiline) + pasted_char(
            clip.last(),
            head.len() > 0 && head.last() == '\r',
            multiline,
        )
    }
}

/// Pasting never brings a control code into the text; the one exception is the line feed, in a
/// field of several lines.
pub proof fn law_pasting_inserts_no_control_codes(clip: Seq<char>, multiline: bool)
    ensures
        forall|i: int|
            0 <= i < pasted(clip, multiline).len() ==> {
                let c = #[trigger] pasted(clip, multiline)[i];
                !text::is_control(c) || (multiline && c == '\n')
            },
    decreases clip.len(),
{
    if clip.len() > 0 {
        let head = clip.drop_last();
        law_pasting_inserts_no_control_codes(head, multiline);
        let before = pasted(head, multiline);
        let after = pasted(clip, multiline);
        assert forall|i: int| 0 <= i < after.len() implies {
            let c = #[trigger] after[i];
            !text::is_control(c) || (multiline && c == '\n')
        } by {
            if i < before.len() {
                assert(after[i] == before[i]);
            }
        }
    }
}

/// How many of the clusters begin before the given number of characters.
pub open spec fn clusters_before(clusters: Seq<Seq<char>>, chars: int) -> nat
    decreases clusters.len(),
{
    if clusters.len() == 0 || chars <= 0 {
        0
    } else {
        1 + clusters_before(clusters.skip(1), chars - clusters[0].len())
    }
}

/// The text with another put in at a position.
pub open spec fn inserted(base: Seq<char>, at: nat, more: Seq<char>) -> Seq<char> {
    base.take(at as int) + more + base.skip(at as int)
}

impl EditorInput {
    /// The text.
    pub closed spec fn text(self) -> Seq<char> {
        buffer_text(self.inner)
    }

    /// The characters before the cursor.
    pub closed spec fn position(self) -> nat {
        buffer_cursor(self.inner)
    }

    /// The cursor stands within the text.
    pub open spec fn wf(self) -> bool {
        self.position() <= self.text().len()
    }

    /// The cursor counted in clusters.
    pub open spec fn cluster_position(self) -> nat {
        clusters_before(unicode::graphemes(self.text()), self.position() as int)
    }

    /// The cluster before the cursor.
    pub open spec fn cluster_before(self) -> Option<Seq<char>> {
        if self.cluster_position() == 0 {
            None
        } else {
            Some(unicode::graphemes(self.text())[self.cluster_position() - 1])
        }
    }

    pub fn new() -> (r: Self)
        ensures
            r.wf(),
            r.text() == Seq::<char>::empty(),
            r.position() == 0,
    {
        EditorInput { inner: Input::new(String::new()) }
    }

    pub fn from_string(value: String) -> (r: Self)
        ensures
            r.wf(),
            r.text() == value@,
            r.position() == value@.len(),
    {
        EditorInput { inner: Input::new(value) }
    }

    pub fn from_text(value: &str) -> (r: Self)
        ensures
            r.wf(),
            r.text() == value@,
            r.position() == value@.len(),
    {
        EditorInput::from_string(value.to_owned())
    }

    pub fn as_str(&self) -> (r: &str)
        ensures
            r@ == self.text(),
    {
        self.inner.value()
    }

    pub fn is_empty(&self) -> (r: bool)
        ensures
            r == (self.text().len() == 0),
    {
        self.inner.value().is_empty()
    }

    pub fn clear(&mut self)
        ensures
            final(self).wf(),
            final(self).text() == Seq::<char>::empty(),
            final(self).position() == 0,
    {
        self.inner.reset();
    }

    pub fn replace(&mut self, value: String)
        ensures
            final(self).wf(),
            final(self).text() == value@,
            final(self).position() == value@.len(),
    {
        self.inner = Input::new(value);
    }

    pub fn take(&mut self) -> (r: String)
        ensures
            r@ == old(self).text(),
            final(self).wf(),
            final(self).text() == Seq::<char>::empty(),
            final(self).position() == 0,
    {
        self.inner.value_and_reset()
    }

    /// The cursor counted in clusters: a cluster counts as soon as the cursor stands behind its
    /// first character.
    pub fn cursor(&self) -> (r: usize)
        ensures
            r == self.cluster_position(),
            r <= unicode::graphemes(self.text()).len(),
    {
        let target: usize = self.inner.cursor();
        let clusters: Vec<String> = unicode::split_graphemes(self.inner.value());
        let ghost all = unicode::graphemes(self.text());
        let mut chars: usize = 0;
        let mut count: usize = 0;
        proof {
            assert(all.skip(0) =~= all);
        }
        while count < clusters.len() && chars < target
            invariant
                count <= clusters@.len(),
                text::views(clusters@) == all,
                count + clusters_before(all.skip(count as int), target - chars) == clusters_before(
                    all,
                    target as int,
                ),
            decreases clusters@.len() - count,
        {
            proof {
                assert(all.skip(count as int).skip(1) =~= all.skip(count + 1));
                assert(all.skip(count as int)[0] == clusters@[count as int]@);
            }
            let size: usize = clusters[count].as_str().unicode_len();
            let left: usize = target - chars;
            if size >= left {
                proof {
                    assert(clusters_before(all.skip(count + 1), left - size) == 0);
                    assert(clusters_before(all.skip(count + 1), target - target) == 0);
                }
                chars = target;
            } else {
                chars = chars + size;
            }
            count = count + 1;
        }
        count
    }

    /// Puts the cursor behind the given number of clusters.
    pub fn set_cursor(&mut self, clusters: usize)
        requires
            old(self).wf(),
        ensures
            final(self).wf(),
            final(self).text() == old(self).text(),
            clusters >= unicode::graphemes(old(self).text()).len() ==> final(self).position()
                == old(self).text().len(),
            clusters < unicode::graphemes(old(self).text()).len() ==> final(self).position()
                == text::concat(unicode::graphemes(old(self).text()).take(clusters as int)).len(),
    {
        let parts: Vec<String> = unicode::split_graphemes(self.inner.value());
        let ghost all = unicode::graphemes(self.text());
        let total: usize = self.inner.value().unicode_len();
        let mut i: usize = 0;
        let mut chars: usize = 0;
        proof {
            assert(all.take(0) =~= Seq::empty());
        }
        while i < parts.len() && i < clusters
            invariant
                i <= parts@.len(),
                i <= clusters,
                text::views(parts@) == all,
                chars == text::concat(all.take(i as int)).len(),
                text::concat(all).len() == total,
            decreases parts@.len() - i,
        {
            proof {
                assert(all.take(i + 1).drop_last() =~= all.take(i as int));
                text::lemma_concat_prefix(all, i + 1);
            }
            chars = chars + parts[i].as_str().unicode_len();
            i = i + 1;
        }
        proof {
            if clusters >= all.len() {
                assert(all.take(i as int) =~= all);
            }
            text::lemma_concat_prefix(all, i as int);
        }
        handle(&mut self.inner, Edit::SetCursor(chars));
    }

    /// Inserts a text at the cursor, which ends up behind it.
    pub fn insert_text(&mut self, more: &str)
        requires
            old(self).wf(),
        ensures
            final(self).wf(),
            final(self).text() == inserted(old(self).text(), old(self).position(), more@),
            final(self).position() == old(self).position() + more@.len(),
    {
        let chars: Vec<char> = text::chars_of(more);
        let ghost base = self.text();
        let ghost at = self.position();
        let mut i: usize = 0;
        proof {
            assert(inserted(base, at, more@.take(0)) =~= base);
        }
        while i < chars.len()
            invariant
                i <= chars@.len(),
                chars@ == more@,
                self.wf(),
                at <= base.len(),
                self.text() == inserted(base, at, more@.take(i as int)),
                self.position() == at + i,
            decreases chars@.len() - i,
        {
            handle(&mut self.inner, Edit::Insert(chars[i]));
            proof {
                assert(inserted(base, at, more@.take(i as int)).insert(at + i, more@[i as int])
                    =~= inserted(base, at, more@.take(i + 1)));
            }
            i = i + 1;
        }
        proof {
            assert(more@.take(i as int) =~= more@);
        }
    }

    /// Paste is text, never a stream of terminal key events.
    pub fn insert_paste(&mut self, clip: &str, multiline: bool)
        requires
            old(self).wf(),
        ensures
            final(self).wf(),
            final(self).text() == inserted(
                old(self).text(),
                old(self).position(),
                pasted(clip@, multiline),
            ),
            final(self).position() == old(self).position() + pasted(clip@, multiline).len(),
    {
        let chars: Vec<char> = text::chars_of(clip);
        let mut out: String = String::new();
        let mut previous_cr: bool = false;
        let mut i: usize = 0;
        proof {
            assert(clip@.take(0) =~= Seq::empty());
        }
        while i < chars.len()
            invariant
                i <= chars@.len(),
                chars@ == clip@,
                out@ == pasted(clip@.take(i as int), multiline),
                previous_cr == (i > 0 && clip@[i - 1] == '\r'),
            decreases chars@.len() - i,
        {
            let c: char = chars[i];
            proof {
                assert(clip@.take(i + 1).drop_last() =~= clip@.take(i as int));
                assert(out@ + Seq::<char>::empty() =~= out@);
                assert(out@ + seq!['\n'] =~= out@.push('\n'));
                assert(out@ + seq![' '] =~= out@.push(' '));
                assert(out@ + seq![c] =~= out@.push(c));
            }
            if !(previous_cr && c == '\n') {
                if multiline && (c == '\r' || c == '\n') {
                    out.push('\n');
                } else if c == '\r' || c == '\n' || c == '\t' || (c.is_whitespace()
                    && !c.is_control()) {
                    out.push(' ');
                } else if !c.is_control() {
                    out.push(c);
                }
            }
            previous_cr = c == '\r';
            i = i + 1;
        }
        proof {
            assert(clip@.take(i as int) =~= clip@);
        }
        self.insert_text(out.as_str());
    }

    /// Carries one movement or deletion out.
    pub fn apply(&mut self, edit: Edit)
        requires
            old(self).wf(),
        ensures
            final(self).wf(),
            (final(self).text(), final(self).position()) == edited(
                old(self).text(),
                old(self).position(),
                edit,
            ),
            old(self).position() > 0 && (edit is Left || edit is WordLeft || edit is DeleteBefore
                || edit is DeletePreviousWord) ==> final(self).position() < old(self).position(),
            old(self).position() < old(self).text().len() && (edit is Right || edit is WordRight)
                ==> final(self).position() > old(self).position(),
            old(self).position() < old(self).text().len() && edit is DeleteAt ==> final(self).text().len() < old(self).text().len(),
    {
        handle(&mut self.inner, edit);
    }

    pub fn move_to_start(&mut self)
        requires
            old(self).wf(),
        ensures
            final(self).wf(),
            final(self).text() == old(self).text(),
            final(self).position() == 0,
    {
        self.apply(Edit::Start);
    }

    pub fn move_to_end(&mut self)
        requires
            old(self).wf(),
        ensures
            final(self).wf(),
            final(self).text() == old(self).text(),
            final(self).position() == old(self).text().len(),
    {
        self.apply(Edit::End);
    }

    pub fn move_left(&mut self)
        requires
            old(self).wf(),
        ensures
            final(self).wf(),
            (final(self).text(), final(self).position()) == edited(
                old(self).text(),
                old(self).position(),
                Edit::Left,
            ),
            old(self).position() > 0 ==> final(self).position() < old(self).position(),
    {
        self.apply(Edit::Left);
    }

    pub fn move_right(&mut self)
        requires
            old(self).wf(),
        ensures
            final(self).wf(),
            (final(self).text(), final(self).position()) == edited(
                old(self).text(),
                old(self).position(),
                Edit::Right,
            ),
            old(self).position() < old(self).text().len() ==> final(self).position() > old(self).position(),
    {
        self.apply(Edit::Right);
    }

    pub fn move_word_left(&mut self)
        requires
            old(self).wf(),
        ensures
            final(self).wf(),
            (final(self).text(), final(self).position()) == edited(
                old(self).text(),
                old(self).position(),
                Edit::WordLeft,
            ),
            old(self).position() > 0 ==> final(self).position() < old(self).position(),
    {
        self.apply(Edit::WordLeft);
    }

    pub fn move_word_right(&mut self)
        requires
            old(self).wf(),
        ensures
            final(self).wf(),
            (final(self).text(), final(self).position()) == edited(
                old(self).text(),
                old(self).position(),
                Edit::WordRight,
            ),
            old(self).position() < old(self).text().len() ==> final(self).position() > old(self).position(),
    {
        self.apply(Edit::WordRight);
    }

    pub fn delete_before_cursor(&mut self)
        requires
            old(self).wf(),
        ensures
            final(self).wf(),
            (final(self).text(), final(self).position()) == edited(
                old(self).text(),
                old(self).position(),
                Edit::DeleteBefore,
            ),
            old(self).position() > 0 ==> final(self).position() < old(self).position(),
    {
        self.apply(Edit::DeleteBefore);
    }

    pub fn delete_at_cursor(&mut self)
        requires
            old(self).wf(),
        ensures
            final(self).wf(),
            (final(self).text(), final(self).position()) == edited(
                old(self).text(),
                old(self).position(),
                Edit::DeleteAt,
            ),
            old(self).position() < old(self).text().len() ==> final(self).text().len() < old(self).text().len(),
    {
        self.apply(Edit::DeleteAt);
    }

    pub fn delete_previous_word(&mut self)
        requires
            old(self).wf(),
        ensures
            final(self).wf(),
            (final(self).text(), final(self).position()) == edited(
                old(self).text(),
                old(self).position(),
                Edit::DeletePreviousWord,
            ),
            old(self).position() > 0 ==> final(self).position() < old(self).position(),
    {
        self.apply(Edit::DeletePreviousWord);
    }

    pub fn delete_to_end(&mut self)
        requires
            old(self).wf(),
        ensures
            final(self).wf(),
            final(self).text() == old(self).text().take(old(self).position() as int),
            final(self).position() == old(self).position(),
    {
        self.apply(Edit::DeleteToEnd);
    }

    /// The cluster before the cursor.
    pub fn previous_grapheme(&self) -> (r: Option<String>)
        ensures
            text::opt_view(r) == self.cluster_before(),
    {
        let cursor: usize = self.cursor();
        if cursor == 0 {
            return None;
        }
        let mut parts: Vec<String> = unicode::split_graphemes(self.inner.value());
        proof {
            assert(unicode::graphemes(self.text())[cursor - 1] == parts@[cursor - 1]@);
        }
        Some(parts.remove(cursor - 1))
    }
}

/// What a key does to an editable line.
#[derive(Clone, Copy, Debug, PartialEq, Eq, Structural)]
pub enum LineEdit {
    Nothing,
    Clear,
    Type(char),
    Edit(Edit),
}

/// The text and the cursor after a key.
pub open spec fn performed(text: Seq<char>, cursor: nat, edit: LineEdit) -> (Seq<char>, nat) {
    match edit {
        LineEdit::Nothing => (text, cursor),
        LineEdit::Clear => (Seq::empty(), 0),
        LineEdit::Type(c) => (inserted(text, cursor, seq![c]), cursor + 1),
        LineEdit::Edit(edit) => edited(text, cursor, edit),
    }
}

impl EditorInput {
    pub fn perform(&mut self, edit: LineEdit)
        requires
            old(self).wf(),
        ensures
            final(self).wf(),
            (final(self).text(), final(self).position()) == performed(
                old(self).text(),
                old(self).position(),
                edit,
            ),
    {
        match edit {
            LineEdit::Nothing => {},
            LineEdit::Clear => self.clear(),
            LineEdit::Type(c) => {
                let mut typed: String = String::new();
                typed.push(c);
                proof {
                    assert(typed@ =~= seq![c]);
                }
                self.insert_text(typed.as_str());
            },
            LineEdit::Edit(edit) => self.apply(edit),
        }
    }
}

proof fn lemma_edges_rise(clusters: Seq<Seq<char>>, j: int, k: int)
    requires
        0 <= j <= k <= clusters.len(),
    ensures
        edge(clusters, j) <= edge(clusters, k),
{
    text::lemma_concat_prefix(clusters.take(k), j);
    assert(clusters.take(k).take(j) =~= clusters.take(j));
}

proof fn lemma_edge_before(clusters: Seq<Seq<char>>, cursor: nat)
    requires
        0 < cursor <= text::concat(clusters).len(),
    ensures
        exists|k: int|
            0 <= k < clusters.len() && edge_before(clusters, cursor) == #[trigger] edge(
                clusters,
                k,
            ),
        edge_before(clusters, cursor) < cursor,
        forall|k: int|
            0 <= k <= clusters.len() && #[trigger] edge(clusters, k) < cursor ==> edge(clusters, k)
                <= edge_before(clusters, cursor),
    decreases clusters.len(),
{
    let rest = clusters.drop_last();
    let last = clusters.len() - 1;
    assert(clusters.take(last) =~= rest);
    assert(clusters.take(clusters.len() as int) =~= clusters);
    if text::concat(rest).len() < cursor {
        assert(edge(clusters, last) == text::concat(rest).len());
        assert forall|k: int|
            0 <= k <= clusters.len() && #[trigger] edge(clusters, k) < cursor implies edge(
            clusters,
            k,
        ) <= edge_before(clusters, cursor) by {
            if k <= last {
                lemma_edges_rise(clusters, k, last);
            }
        }
    } else {
        lemma_edge_before(rest, cursor);
        let found = choose|k: int|
            0 <= k < rest.len() && edge_before(rest, cursor) == #[trigger] edge(rest, k);
        assert(rest.take(found) =~= clusters.take(found));
        assert(edge_before(clusters, cursor) == edge(clusters, found));
        assert forall|k: int|
            0 <= k <= clusters.len() && #[trigger] edge(clusters, k) < cursor implies edge(
            clusters,
            k,
        ) <= edge_before(clusters, cursor) by {
            if k <= last {
                assert(rest.take(k) =~= clusters.take(k));
                assert(edge(rest, k) == edge(clusters, k));
            }
        }
    }
}

proof fn lemma_edge_after(clusters: Seq<Seq<char>>, cursor: nat)
    requires
        cursor < text::concat(clusters).len(),
    ensures
        exists|k: int|
            0 < k <= clusters.len() && edge_after(clusters, cursor) == #[trigger] edge(clusters, k),
        edge_after(clusters, cursor) > cursor,
        forall|k: int|
            0 <= k <= clusters.len() && #[trigger] edge(clusters, k) > cursor ==> edge(clusters, k)
                >= edge_after(clusters, cursor),
    decreases clusters.len(),
{
    let rest = clusters.drop_last();
    let last = clusters.len() - 1;
    assert(clusters.take(last) =~= rest);
    assert(clusters.take(clusters.len() as int) =~= clusters);
    if text::concat(rest).len() <= cursor {
        assert(edge(clusters, clusters.len() as int) == text::concat(clusters).len());
        assert forall|k: int|
            0 <= k <= clusters.len() && #[trigger] edge(clusters, k) > cursor implies edge(
            clusters,
            k,
        ) >= edge_after(clusters, cursor) by {
            if k <= last {
                lemma_edges_rise(clusters, k, last);
            }
        }
    } else {
        lemma_edge_after(rest, cursor);
        let found = choose|k: int|
            0 < k <= rest.len() && edge_after(rest, cursor) == #[trigger] edge(rest, k);
        assert(rest.take(found) =~= clusters.take(found));
        assert(edge_after(clusters, cursor) == edge(clusters, found));
        assert forall|k: int|
            0 <= k <= clusters.len() && #[trigger] edge(clusters, k) > cursor implies edge(
            clusters,
            k,
        ) >= edge_after(clusters, cursor) by {
            if k <= last {
                assert(rest.take(k) =~= clusters.take(k));
                assert(edge(rest, k) == edge(clusters, k));
            } else {
                lemma_edges_rise(clusters, found, k);
            }
        }
    }
}

/// A step never ends inside a cluster: from wherever the cursor stands it goes to the nearest edge
/// on that side.
pub proof fn law_steps_never_split_a_cluster(clusters: Seq<Seq<char>>, cursor: nat)
    requires
        cursor <= text::concat(clusters).len(),
    ensures
        cursor > 0 ==> {
            let at = edge_before(clusters, cursor);
            &&& at < cursor
            &&& exists|k: int| 0 <= k <= clusters.len() && at == #[trigger] edge(clusters, k)
            &&& forall|k: int|
                0 <= k <= clusters.len() && #[trigger] edge(clusters, k) < cursor ==> edge(
                    clusters,
                    k,
                ) <= at
        },
        cursor < text::concat(clusters).len() ==> {
            let at = edge_after(clusters, cursor);
            &&& at > cursor
            &&& exists|k: int| 0 <= k <= clusters.len() && at == #[trigger] edge(clusters, k)
            &&& forall|k: int|
                0 <= k <= clusters.len() && #[trigger] edge(clusters, k) > cursor ==> edge(
                    clusters,
                    k,
                ) >= at
        },
{
    if cursor > 0 {
        lemma_edge_before(clusters, cursor);
    }
    if cursor < text::concat(clusters).len() {
        lemma_edge_after(clusters, cursor);
    }
}

/// Between two clusters a step crosses exactly one of them, and a step back returns: so a deletion
/// takes whole clusters away.
pub proof fn law_a_step_crosses_one_cluster(clusters: Seq<Seq<char>>, k: int)
    requires
        0 <= k < clusters.len(),
        clusters[k].len() > 0,
    ensures
        edge_after(clusters, edge(clusters, k)) == edge(clusters, k + 1),
        edge_before(clusters, edge(clusters, k + 1)) == edge(clusters, k),
        edge(clusters, k + 1) == edge(clusters, k) + clusters[k].len(),
{
    assert(clusters.take(k + 1).drop_last() =~= clusters.take(k));
    assert(clusters.take(k + 1).last() == clusters[k]);
    let here = edge(clusters, k);
    let next = edge(clusters, k + 1);
    text::lemma_concat_prefix(clusters, k + 1);
    lemma_edge_after(clusters, here);
    lemma_edge_before(clusters, next);
    let after = choose|j: int|
        0 < j <= clusters.len() && edge_after(clusters, here) == #[trigger] edge(clusters, j);
    if after <= k {
        lemma_edges_rise(clusters, after, k);
    } else {
        lemma_edges_rise(clusters, k + 1, after);
    }
    let before = choose|j: int|
        0 <= j < clusters.len() && edge_before(clusters, next) == #[trigger] edge(clusters, j);
    if before <= k {
        lemma_edges_rise(clusters, before, k);
    } else {
        lemma_edges_rise(clusters, k + 1, before);
    }
}

/// Moving the cursor, by whatever request, never changes the text.
pub proof fn law_movements_keep_the_text(text: Seq<char>, cursor: nat, edit: Edit)
    requires
        edit is SetCursor || edit is Start || edit is End || edit is Left || edit is Right
            || edit is WordLeft || edit is WordRight,
    ensures
        edited(text, cursor, edit).0 == text,
{
}

/// Inserting a text and then deleting to the end of the line leaves what stood before the cursor
/// and the inserted text.
pub proof fn law_insert_then_cut_keeps_the_insertion(base: Seq<char>, at: nat, more: Seq<char>)
    requires
        at <= base.len(),
    ensures
        edited(inserted(base, at, more), at + more.len(), Edit::DeleteToEnd).0 == base.take(
            at as int,
        ) + more,
{
    assert(inserted(base, at, more).take((at + more.len()) as int) =~= base.take(at as int) + more);
}

/// Left goes back and right goes on, the start is before everything and the end behind it, and a
/// place that is set is the one asked for; at the ends nothing moves.
pub proof fn law_arrows_go_their_way(text: Seq<char>, cursor: nat, at: usize)
    requires
        cursor <= text.len(),
    ensures
        text::concat(unicode::graphemes(text)) == text ==> {
            &&& cursor > 0 ==> edited(text, cursor, Edit::Left).1 < cursor
            &&& cursor < text.len() ==> cursor < edited(text, cursor, Edit::Right).1 <= text.len()
        },
        cursor == 0 ==> edited(text, cursor, Edit::Left).1 == 0,
        cursor == text.len() ==> edited(text, cursor, Edit::Right).1 == cursor,
        edited(text, cursor, Edit::Start).1 == 0,
        edited(text, cursor, Edit::End).1 == text.len(),
        at <= text.len() ==> edited(text, cursor, Edit::SetCursor(at)).1 == at,
        at > text.len() ==> edited(text, cursor, Edit::SetCursor(at)).1 == text.len(),
{
    let clusters = unicode::graphemes(text);
    if text::concat(clusters) == text {
        law_steps_never_split_a_cluster(clusters, cursor);
        if cursor < text.len() {
            let k = choose|k: int|
                0 <= k <= clusters.len() && edge_after(clusters, cursor) == #[trigger] edge(
                    clusters,
                    k,
                );
            text::lemma_concat_prefix(clusters, k);
        }
    }
}

/// Deleting backwards takes away what a step to the left passes, and leaves the cursor there;
/// deleting forwards takes away what a step to the right passes, and leaves the cursor where it is.
/// What stands on the other side stays.
pub proof fn law_deleting_takes_what_a_step_passes(text: Seq<char>, cursor: nat)
    requires
        cursor <= text.len(),
    ensures
        text::concat(unicode::graphemes(text)) == text ==> {
            let left = edited(text, cursor, Edit::Left).1;
            let right = edited(text, cursor, Edit::Right).1;
            &&& left <= cursor <= right <= text.len()
            &&& edited(text, cursor, Edit::DeleteBefore).0 == text.subrange(0, left as int)
                + text.subrange(cursor as int, text.len() as int)
            &&& edited(text, cursor, Edit::DeleteBefore).1 == left
            &&& edited(text, cursor, Edit::DeleteAt).0 == text.subrange(0, cursor as int)
                + text.subrange(right as int, text.len() as int)
            &&& edited(text, cursor, Edit::DeleteAt).1 == cursor
        },
        edited(text, cursor, Edit::DeleteToEnd).0 == text.subrange(0, cursor as int),
        edited(text, cursor, Edit::DeleteToEnd).1 == cursor,
{
    assert(text.take(cursor as int) =~= text.subrange(0, cursor as int));
    if text::concat(unicode::graphemes(text)) == text {
        law_arrows_go_their_way(text, cursor, 0);
        let left = edited(text, cursor, Edit::Left).1;
        let right = edited(text, cursor, Edit::Right).1;
        assert(edited(text, cursor, Edit::DeleteBefore).0 =~= text.subrange(0, left as int)
            + text.subrange(cursor as int, text.len() as int));
        assert(edited(text, cursor, Edit::DeleteAt).0 =~= text.subrange(0, cursor as int)
            + text.subrange(right as int, text.len() as int));
    }
}

/// What is typed stands at the cursor, which goes behind it; what stood before and behind stays.
pub proof fn law_typing_puts_the_character_at_the_cursor(text: Seq<char>, cursor: nat, c: char)
    requires
        cursor <= text.len(),
    ensures
        performed(text, cursor, LineEdit::Type(c)).0 == text.subrange(0, cursor as int) + seq![c]
            + text.subrange(cursor as int, text.len() as int),
        performed(text, cursor, LineEdit::Type(c)).1 == cursor + 1,
        edited(text, cursor, Edit::Insert(c)) == performed(text, cursor, LineEdit::Type(c)),
        performed(text, cursor, LineEdit::Clear).0.len() == 0,
        performed(text, cursor, LineEdit::Clear).1 == 0,
        performed(text, cursor, LineEdit::Nothing) == (text, cursor),
{
    let typed = text.subrange(0, cursor as int) + seq![c] + text.subrange(
        cursor as int,
        text.len() as int,
    );
    assert(inserted(text, cursor, seq![c]) =~= typed);
    assert(text.insert(cursor as int, c) =~= typed);
}

/// Pasting goes character by character: what is neither white space nor a control code stays as it
/// is, a line end, however it is written, is one line end or one space, and other control codes are
/// dropped.
pub proof fn law_pasting_goes_character_by_character(clip: Seq<char>, c: char, multiline: bool)
    ensures
        !text::is_whitespace(c) && !text::is_control(c) ==> pasted(clip.push(c), multiline)
            == pasted(clip, multiline).push(c),
        c == '\r' ==> pasted(clip.push(c), multiline) == pasted(clip, multiline).push(
            if multiline {
                '\n'
            } else {
                ' '
            },
        ),
        c == '\n' && (clip.len() == 0 || clip.last() != '\r') ==> pasted(clip.push(c), multiline)
            == pasted(clip, multiline).push(
            if multiline {
                '\n'
            } else {
                ' '
            },
        ),
        c == '\n' && clip.len() > 0 && clip.last() == '\r' ==> pasted(clip.push(c), multiline)
            == pasted(clip, multiline),
        c == '\t' || c == ' ' || c == '\u{3000}' ==> pasted(clip.push(c), multiline) == pasted(
            clip,
            multiline,
        ).push(' '),
        text::is_control(c) && c != '\r' && c != '\n' && c != '\t' ==> pasted(
            clip.push(c),
            multiline,
        ) == pasted(clip, multiline),
        pasted(Seq::empty(), multiline) == Seq::<char>::empty(),
{
    let all = clip.push(c);
    assert(all.drop_last() =~= clip);
    assert(all.last() == c);
    let before = pasted(clip, multiline);
    let piece = pasted_char(c, clip.len() > 0 && clip.last() == '\r', multiline);
    assert(pasted(all, multiline) == before + piece);
    assert(before + seq![c] =~= before.push(c));
    assert(before + seq![' '] =~= before.push(' '));
    assert(before + seq!['\n'] =~= before.push('\n'));
    assert(before + Seq::<char>::empty() =~= before);
}

/// The clusters before the cursor are those that end at it or before.
pub proof fn law_the_clusters_before_the_cursor(clusters: Seq<Seq<char>>, k: int)
    requires
        0 <= k <= clusters.len(),
        forall|i: int| 0 <= i < clusters.len() ==> (#[trigger] clusters[i]).len() > 0,
    ensures
        clusters_before(clusters, edge(clusters, k) as int) == k,
    decreases k,
{
    if k == 0 {
        assert(clusters.take(0) =~= Seq::<Seq<char>>::empty());
    } else {
        let rest = clusters.skip(1);
        assert forall|i: int| 0 <= i < rest.len() implies (#[trigger] rest[i]).len() > 0 by {
            assert(clusters[i + 1].len() > 0);
        }
        law_the_clusters_before_the_cursor(rest, k - 1);
        assert(clusters.take(k) =~= seq![clusters[0]] + rest.take(k - 1));
        segments::law_texts_are_put_one_behind_the_other(clusters[0], rest.take(k - 1));
        assert(clusters[0].len() > 0);
    }
}

/// The cluster before the cursor is the one that ends there.
pub proof fn law_the_cluster_before_the_cursor_ends_there(line: EditorInput, k: int)
    ensures
        ({
            let clusters = unicode::graphemes(line.text());
            0 < k <= clusters.len() && line.position() == edge(clusters, k) && (forall|i: int|
                0 <= i < clusters.len() ==> (#[trigger] clusters[i]).len() > 0)
                ==> line.cluster_before() == Some(clusters[k - 1]) && line.cluster_position() == k
        }),
        line.position() == 0 ==> line.cluster_before() is None,
{
    let clusters = unicode::graphemes(line.text());
    if 0 < k <= clusters.len() && line.position() == edge(clusters, k) && (forall|i: int|
        0 <= i < clusters.len() ==> (#[trigger] clusters[i]).len() > 0) {
        law_the_clusters_before_the_cursor(clusters, k);
    }
}

} // verus!
