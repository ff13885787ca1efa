//! Cutting messages into segments that can be sent.
use vstd::prelude::*;
use vstd::string::*;

use crate::text;
use crate::unicode;

verus! {

/// The clusters that one sent message may hold.
pub const SEND_SEGMENT_LIMIT: usize = 40;

/// The mark in front of everything that the assistant sends.
pub const AI_PREFIX: &'static str = "✦ ";

/// The mark without the space behind it.
pub const AI_MARK: &'static str = "✦";

/// The clusters of a text in pieces of at most `limit`, each as full as can be.
pub open spec fn chunked(clusters: Seq<Seq<char>>, limit: nat) -> Seq<Seq<char>>
    decreases clusters.len(),
{
    if clusters.len() == 0 || limit == 0 {
        Seq::empty()
    } else if clusters.len() <= limit {
        seq![text::concat(clusters)]
    } else {
        seq![text::concat(clusters.take(limit as int))] + chunked(
            clusters.skip(limit as int),
            limit,
        )
    }
}

proof fn lemma_concat_add(a: Seq<Seq<char>>, b: Seq<Seq<char>>)
    ensures
        text::concat(a + b) == text::concat(a) + text::concat(b),
    decreases b.len(),
{
    if b.len() == 0 {
        assert(a + b =~= a);
        assert(text::concat(a) + text::concat(b) =~= text::concat(a));
    } else {
        lemma_concat_add(a, b.drop_last());
        assert((a + b).drop_last() =~= a + b.drop_last());
        assert(text::concat(a) + (text::concat(b.drop_last()) + b.last()) =~= text::concat(a)
            + text::concat(b.drop_last()) + b.last());
    }
}

proof fn lemma_concat_one(a: Seq<char>)
    ensures
        text::concat(seq![a]) == a,
{
    assert(seq![a].drop_last() =~= Seq::empty());
    assert(text::concat(Seq::<Seq<char>>::empty()) =~= Seq::<char>::empty());
    assert(Seq::<char>::empty() + a =~= a);
    reveal_with_fuel(text::concat, 2);
}

proof fn lemma_chunks_keep_text(clusters: Seq<Seq<char>>, limit: nat)
    requires
        limit > 0,
    ensures
        text::concat(chunked(clusters, limit)) == text::concat(clusters),
    decreases clusters.len(),
{
    if clusters.len() == 0 {
        assert(chunked(clusters, limit) =~= clusters);
    } else if clusters.len() <= limit {
        lemma_concat_one(text::concat(clusters));
    } else {
        let head = clusters.take(limit as int);
        let tail = clusters.skip(limit as int);
        lemma_chunks_keep_text(tail, limit);
        lemma_concat_one(text::concat(head));
        lemma_concat_add(seq![text::concat(head)], chunked(tail, limit));
        lemma_concat_add(head, tail);
        assert(head + tail =~= clusters);
    }
}

/// Segments lose nothing and add nothing: one after another they are the message, whose clusters
/// one after another are the message.
pub proof fn law_segments_keep_the_message(message: Seq<char>, limit: nat)
    requires
        limit > 0,
        text::concat(unicode::graphemes(message)) == message,
    ensures
        text::concat(chunked(unicode::graphemes(message), limit)) == message,
{
    lemma_chunks_keep_text(unicode::graphemes(message), limit);
}

/// Every segment is made of at most `limit` clusters of the message that follow each other, and
/// only the last may be shorter.
pub proof fn law_segments_fit_their_limit(clusters: Seq<Seq<char>>, limit: nat, i: int)
    requires
        limit > 0,
        0 <= i < chunked(clusters, limit).len(),
    ensures
        i * limit < clusters.len(),
        chunked(clusters, limit)[i] == text::concat(
            clusters.subrange(
                i * limit,
                unicode::least((i + 1) * limit, clusters.len() as int),
            ),
        ),
        i + 1 < chunked(clusters, limit).len() ==> (i + 1) * limit < clusters.len(),
    decreases clusters.len(),
{
    if clusters.len() <= limit {
        assert(i == 0);
        assert(0 * limit == 0 && 1 * limit == limit) by (nonlinear_arith);
        assert(clusters.subrange(0, clusters.len() as int) =~= clusters);
    } else {
        let tail = clusters.skip(limit as int);
        if i == 0 {
            assert(0 * limit == 0 && 1 * limit == limit) by (nonlinear_arith);
            assert(clusters.subrange(0, limit as int) =~= clusters.take(limit as int));
        } else {
            law_segments_fit_their_limit(tail, limit, i - 1);
            assert((i - 1) * limit + limit == i * limit && i * limit + limit == (i + 1) * limit)
                by (nonlinear_arith);
            let end = unicode::least(i * limit, tail.len() as int);
            assert(tail.subrange((i - 1) * limit, end) =~= clusters.subrange(
                i * limit,
                end + limit,
            ));
        }
    }
}

fn join_clusters(clusters: &Vec<String>, from: usize, to: usize) -> (r: String)
    requires
        from <= to <= clusters@.len(),
    ensures
        r@ == text::concat(text::views(clusters@).subrange(from as int, to as int)),
{
    let mut out: String = String::new();
    let ghost all = text::views(clusters@);
    let mut i: usize = from;
    proof {
        assert(all.subrange(from as int, from as int) =~= Seq::empty());
        assert(out@ =~= Seq::<char>::empty());
    }
    while i < to
        invariant
            from <= i <= to <= clusters@.len(),
            all == text::views(clusters@),
            out@ == text::concat(all.subrange(from as int, i as int)),
        decreases to - i,
    {
        proof {
            assert(all.subrange(from as int, i + 1).drop_last() =~= all.subrange(
                from as int,
                i as int,
            ));
        }
        out.append(clusters[i].as_str());
        i = i + 1;
    }
    out
}

/// Cuts a message into segments of at most `limit` clusters.
pub fn segment_message(message: &str, limit: usize) -> (r: Vec<String>)
    ensures
        text::views(r@) == chunked(unicode::graphemes(message@), limit as nat),
        limit > 0 ==> text::concat(text::views(r@)) == message@,
{
    let clusters: Vec<String> = unicode::split_graphemes(message);
    let ghost all = text::views(clusters@);
    let mut out: Vec<String> = text::no_lines();
    if limit == 0 {
        return out;
    }
    let mut at: usize = 0;
    proof {
        assert(all.skip(0) =~= all);
        assert(text::views(out@) + chunked(all, limit as nat) =~= chunked(all, limit as nat));
    }
    while at < clusters.len()
        invariant
            at <= clusters@.len(),
            limit > 0,
            all == text::views(clusters@),
            chunked(all, limit as nat) == text::views(out@) + chunked(
                all.skip(at as int),
                limit as nat,
            ),
        decreases clusters@.len() - at,
    {
        let left: usize = clusters.len() - at;
        let end: usize = if left <= limit {
            clusters.len()
        } else {
            at + limit
        };
        let piece: String = join_clusters(&clusters, at, end);
        proof {
            let rest = all.skip(at as int);
            let before = text::views(out@);
            if left <= limit {
                assert(all.subrange(at as int, end as int) =~= rest);
                assert(all.skip(end as int) =~= Seq::empty());
                assert(before + seq![piece@] =~= before.push(piece@) + Seq::<Seq<char>>::empty());
            } else {
                assert(all.subrange(at as int, end as int) =~= rest.take(limit as int));
                assert(rest.skip(limit as int) =~= all.skip(end as int));
                assert(before + (seq![piece@] + chunked(all.skip(end as int), limit as nat))
                    =~= before.push(piece@) + chunked(all.skip(end as int), limit as nat));
            }
        }
        text::push_line(&mut out, piece);
        at = end;
    }
    proof {
        assert(all.skip(at as int) =~= Seq::empty());
        assert(text::views(out@) + Seq::<Seq<char>>::empty() =~= text::views(out@));
        lemma_chunks_keep_text(all, limit as nat);
    }
    out
}

/// A text without the marks in front of it.
pub open spec fn unmarked(body: Seq<char>) -> Seq<char>
    decreases body.len(),
{
    if body.len() > 0 && body[0] == '✦' && text::trimmed_start(body.skip(1)).len() < body.len() {
        unmarked(text::trimmed_start(body.skip(1)))
    } else {
        body
    }
}

/// What the assistant wants to say, without white space around it and without marks that it put
/// there itself.
pub open spec fn assistant_body(message: Seq<char>) -> Seq<char> {
    unmarked(text::trimmed(message))
}

/// The clusters that the mark leaves for the text of a segment.
pub open spec fn body_limit() -> nat {
    unicode::minus(SEND_SEGMENT_LIMIT as int, unicode::graphemes(AI_PREFIX@).len() as int)
}

/// The pieces, each behind the mark.
pub open spec fn marked(pieces: Seq<Seq<char>>) -> Seq<Seq<char>> {
    Seq::new(pieces.len(), |i: int| AI_PREFIX@ + pieces[i])
}

/// The messages that are sent for a reply of the assistant: each carries the mark once, and an
/// empty reply is the mark alone.
pub open spec fn segments_of(message: Seq<char>) -> Seq<Seq<char>> {
    if assistant_body(message).len() == 0 {
        seq![AI_MARK@]
    } else {
        marked(chunked(unicode::graphemes(assistant_body(message)), body_limit()))
    }
}

fn strip_marks(message: &str) -> (r: String)
    ensures
        r@ == assistant_body(message@),
{
    let mut body: String = text::trim(message);
    loop
        invariant
            unmarked(body@) == assistant_body(message@),
        decreases body@.len(),
    {
        let chars: Vec<char> = text::chars_of(body.as_str());
        if chars.len() == 0 || chars[0] != '✦' {
            return body;
        }
        let rest: String = text::string_of(&chars, 1, chars.len());
        let next: String = text::trim_start(rest.as_str());
        proof {
            assert(rest@ =~= body@.skip(1));
            text::lemma_trimmed_start(rest@);
        }
        body = next;
    }
}

/// The messages that are sent for a reply of the assistant.
pub fn assistant_segments(message: &str) -> (r: Vec<String>)
    ensures
        text::views(r@) == segments_of(message@),
{
    let body: String = strip_marks(message);
    let mut out: Vec<String> = text::no_lines();
    if body.as_str().is_empty() {
        text::push_line(&mut out, AI_MARK.to_owned());
        proof {
            assert(text::views(out@) =~= seq![AI_MARK@]);
        }
        return out;
    }
    let taken: usize = unicode::split_graphemes(AI_PREFIX).len();
    let pieces: Vec<String> = segment_message(
        body.as_str(),
        SEND_SEGMENT_LIMIT.saturating_sub(taken),
    );
    let ghost wanted = marked(text::views(pieces@));
    let mut i: usize = 0;
    while i < pieces.len()
        invariant
            i <= pieces@.len(),
            wanted == marked(text::views(pieces@)),
            text::views(out@) == wanted.take(i as int),
        decreases pieces@.len() - i,
    {
        text::push_line(&mut out, text::add2(AI_PREFIX, pieces[i].as_str()));
        i = i + 1;
        proof {
            assert(wanted.take(i as int) =~= wanted.take(i - 1).push(wanted[i - 1]));
        }
    }
    proof {
        assert(wanted.take(i as int) =~= wanted);
    }
    out
}

/// Everything that the assistant sends carries its mark.
pub proof fn law_the_assistant_is_always_marked(message: Seq<char>, i: int)
    requires
        0 <= i < segments_of(message).len(),
    ensures
        segments_of(message)[i].len() > 0,
        segments_of(message)[i][0] == '✦',
{
    reveal_strlit("✦ ");
    reveal_strlit("✦");
}

/// Texts that are put one behind the other: the first, and then the others.
pub proof fn law_texts_are_put_one_behind_the_other(first: Seq<char>, rest: Seq<Seq<char>>)
    ensures
        text::concat(seq![first] + rest) == first + text::concat(rest),
        text::concat(Seq::<Seq<char>>::empty()) == Seq::<char>::empty(),
{
    lemma_concat_add(seq![first], rest);
    lemma_concat_one(first);
}

/// No segment is left out and none is empty: a message of `count` clusters makes as many segments
/// as it takes to hold them, each full but the last.
pub proof fn law_there_are_as_many_segments_as_needed(clusters: Seq<Seq<char>>, limit: nat)
    requires
        limit > 0,
    ensures
        chunked(clusters, limit).len() * limit >= clusters.len(),
        clusters.len() > 0 ==> (chunked(clusters, limit).len() - 1) * limit < clusters.len(),
        clusters.len() == 0 ==> chunked(clusters, limit).len() == 0,
    decreases clusters.len(),
{
    if clusters.len() == 0 {
        assert(chunked(clusters, limit).len() * limit == 0) by (nonlinear_arith)
            requires
                chunked(clusters, limit).len() == 0,
        ;
    } else if clusters.len() <= limit {
        assert(chunked(clusters, limit).len() == 1);
        assert(1 * limit == limit && 0 * limit == 0) by (nonlinear_arith);
    } else {
        let tail = clusters.skip(limit as int);
        law_there_are_as_many_segments_as_needed(tail, limit);
        let count = chunked(tail, limit).len() as int;
        assert(chunked(clusters, limit).len() == count + 1);
        assert((count + 1) * limit == count * limit + limit && count * limit == (count - 1) * limit
            + limit) by (nonlinear_arith);
    }
}

/// What the assistant says begins with neither a mark nor white space, and ends with none: only
/// marks and white space were taken from its front, and white space from its end.
pub proof fn law_only_marks_and_space_are_stripped(message: Seq<char>)
    ensures
        assistant_body(message).len() > 0 ==> assistant_body(message)[0] != '✦'
            && !text::is_whitespace(assistant_body(message)[0]),
        assistant_body(message).len() <= text::trimmed(message).len(),
        assistant_body(message) == text::trimmed(message).skip(
            text::trimmed(message).len() - assistant_body(message).len(),
        ),
        forall|i: int|
            0 <= i < text::trimmed(message).len() - assistant_body(message).len() ==> (
            #[trigger] text::trimmed(message)[i]) == '✦' || text::is_whitespace(
                text::trimmed(message)[i],
            ),
{
    text::lemma_trimmed(message);
    lemma_unmarked(text::trimmed(message));
}

proof fn lemma_unmarked(body: Seq<char>)
    requires
        body.len() > 0 ==> !text::is_whitespace(body[0]),
    ensures
        unmarked(body).len() > 0 ==> unmarked(body)[0] != '✦' && !text::is_whitespace(
            unmarked(body)[0],
        ),
        unmarked(body).len() <= body.len(),
        unmarked(body) == body.skip(body.len() - unmarked(body).len()),
        forall|i: int|
            0 <= i < body.len() - unmarked(body).len() ==> (#[trigger] body[i]) == '✦'
                || text::is_whitespace(body[i]),
    decreases body.len(),
{
    if body.len() > 0 && body[0] == '✦' {
        let behind = body.skip(1);
        let rest = text::trimmed_start(behind);
        text::lemma_trimmed_start(behind);
        text::law_trimming_start_takes_white_space_alone(behind);
        lemma_unmarked(rest);
        let n = body.len() - unmarked(body).len();
        let m = body.len() - rest.len();
        assert(rest =~= body.skip(m));
        assert(unmarked(body) =~= body.skip(n));
        assert forall|i: int| 0 <= i < n implies (#[trigger] body[i]) == '✦' || text::is_whitespace(
            body[i],
        ) by {
            if i >= m {
                assert(rest[i - m] == body[i]);
            } else if i > 0 {
                assert(behind.take(behind.len() - rest.len())[i - 1] == body[i]);
            }
        }
    } else {
        assert(body.skip(0) =~= body);
    }
}

/// Behind their marks, the segments of what the assistant says are that text, in pieces of at most
/// as many clusters as the mark leaves.
pub proof fn law_the_assistants_text_is_kept(message: Seq<char>, bodies: Seq<Seq<char>>)
    requires
        assistant_body(message).len() > 0,
        bodies.len() == segments_of(message).len(),
        forall|i: int|
            0 <= i < bodies.len() ==> #[trigger] segments_of(message)[i] == seq!['✦', ' ']
                + bodies[i],
    ensures
        body_limit() > 0 ==> text::concat(bodies) == text::concat(
            unicode::graphemes(assistant_body(message)),
        ),
        body_limit() == 40 - unicode::graphemes(AI_PREFIX@).len() || body_limit() == 0,
{
    reveal_strlit("✦ ");
    assert(AI_PREFIX@ =~= seq!['✦', ' ']);
    let pieces = chunked(unicode::graphemes(assistant_body(message)), body_limit());
    assert forall|i: int| 0 <= i < bodies.len() implies #[trigger] bodies[i] == pieces[i] by {
        let marked = segments_of(message)[i];
        assert(marked == AI_PREFIX@ + pieces[i]);
        assert(marked.skip(2) =~= pieces[i]);
        assert(marked.skip(2) =~= bodies[i]);
    }
    assert(bodies =~= pieces);
    if body_limit() > 0 {
        lemma_chunks_keep_text(unicode::graphemes(assistant_body(message)), body_limit());
    }
}

/// Segments, one behind the other, are the clusters one behind the other.
pub proof fn law_segments_are_the_clusters(clusters: Seq<Seq<char>>, limit: nat)
    requires
        limit > 0,
    ensures
        text::concat(chunked(clusters, limit)) == text::concat(clusters),
{
    lemma_chunks_keep_text(clusters, limit);
}

/// An assistant that says nothing sends its mark alone.
pub proof fn law_an_empty_reply_is_the_mark(message: Seq<char>)
    requires
        assistant_body(message).len() == 0,
    ensures
        segments_of(message).len() == 1,
        segments_of(message)[0] == seq!['✦'],
{
    reveal_strlit("✦");
    assert(AI_MARK@ =~= seq!['✦']);
}

} // verus!
