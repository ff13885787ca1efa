//! The microphone meter in the header of the input.
use vstd::prelude::*;
use vstd::string::*;

use crate::style;
use crate::style::{Span, SpanView, Tone};
use crate::text;
use crate::unicode;

verus! {

#[derive(Clone, Copy, Debug, PartialEq, Eq, Structural)]
pub enum MicrophoneState {
    Unknown,
    Muted,
    Unmuted,
}

/// The peak of the microphone in hundredths of a decibel.
#[derive(Clone, Copy, Debug, PartialEq, Eq, Structural)]
pub struct MicrophoneLevel {
    pub peak: i32,
}

/// A meter and the columns that it takes.
pub struct MeterLine {
    pub spans: Vec<Span>,
    pub width: usize,
}

/// The level within the range of the meter, from no cells at -60 dB to all of them at 0 dB,
/// rounded to whole cells.
pub open spec fn filled_cells(peak: int, width: nat) -> nat {
    let above = if peak < -6000 {
        0
    } else if peak > 0 {
        6000
    } else {
        peak + 6000
    };
    ((above * width * 2 + 6000) / 12000) as nat
}

/// The cells of a bar in the colours of its three ranges, and the empty ones.
pub open spec fn bar_cells(peak: int, width: nat) -> (nat, nat, nat, nat) {
    let filled = filled_cells(peak, width) as int;
    let green_end = (width * 40 / 60) as int;
    let yellow_end = (width * 51 / 60) as int;
    let green = unicode::least(filled, green_end);
    let yellow = unicode::least(unicode::minus(filled, green) as int, yellow_end - green_end);
    (
        green as nat,
        yellow as nat,
        unicode::minus(filled, green + yellow),
        unicode::minus(width as int, filled),
    )
}

/// A run of a glyph, where there is one.
pub open spec fn segment(glyph: char, count: nat, tone: Tone) -> Seq<SpanView> {
    if count == 0 {
        Seq::empty()
    } else {
        seq![style::toned(unicode::repeated(glyph, count), tone)]
    }
}

/// The spans of a bar.
pub open spec fn bar_spans(peak: int, width: nat) -> Seq<SpanView> {
    let cells = bar_cells(peak, width);
    segment('━', cells.0, Tone::Success) + segment('━', cells.1, Tone::Rank) + segment(
        '━',
        cells.2,
        Tone::Warning,
    ) + segment('─', cells.3, Tone::Frame)
}

/// A number rounded to whole decibels, halves away from zero.
pub open spec fn whole_decibels(peak: int) -> int {
    if peak >= 0 {
        (peak + 50) / 100
    } else {
        -((-peak + 50) / 100)
    }
}

/// A number in decimal notation.
pub open spec fn signed_digits(n: int) -> Seq<char> {
    if n < 0 {
        seq!['-'] + text::decimal_digits((-n) as nat)
    } else {
        text::decimal_digits(n as nat)
    }
}

/// A text moved to the right edge of a column.
pub open spec fn right_aligned(value: Seq<char>, width: nat) -> Seq<char> {
    unicode::repeated(' ', unicode::minus(width as int, value.len() as int)) + value
}

/// What the meter shows in the columns that are free, if anything.
pub open spec fn meter(
    state: MicrophoneState,
    level: Option<MicrophoneLevel>,
    available: nat,
) -> Option<(Seq<SpanView>, nat)> {
    if available < 10 || state == MicrophoneState::Unknown {
        None
    } else if state == MicrophoneState::Muted {
        Some((seq![style::toned(" MIC MUTE "@, Tone::Warning)], 10))
    } else if level is None {
        Some((seq![style::toned(" MIC  -- "@, Tone::Frame)], 10))
    } else {
        let peak = level->0.peak as int;
        let width = unicode::least(available as int, 24) as nat;
        let head = seq![style::toned(" MIC "@, Tone::Content)];
        if width >= 18 {
            Some(
                (
                    (head + bar_spans(peak, (width - 9) as nat)).push(
                        style::toned(
                            seq![' '] + right_aligned(signed_digits(whole_decibels(peak)), 3),
                            Tone::Content,
                        ),
                    ),
                    width,
                ),
            )
        } else {
            Some((head + bar_spans(peak, (width - 5) as nat), width))
        }
    }
}

fn push_segment(spans: &mut Vec<Span>, glyph: char, count: usize, tone: Tone)
    ensures
        style::span_views(final(spans)@) == style::span_views(old(spans)@) + segment(
            glyph,
            count as nat,
            tone,
        ),
{
    let ghost before = style::span_views(spans@);
    if count > 0 {
        style::push_span(spans, Span::styled(unicode::repeat_char(glyph, count), tone));
        proof {
            assert(style::span_views(spans@) =~= before + segment(glyph, count as nat, tone));
        }
    } else {
        proof {
            assert(before + segment(glyph, count as nat, tone) =~= before);
        }
    }
}

fn push_bar(spans: &mut Vec<Span>, peak: i32, width: usize)
    requires
        width <= 24,
    ensures
        style::span_views(final(spans)@) == style::span_views(old(spans)@) + bar_spans(
            peak as int,
            width as nat,
        ),
{
    let ghost before = style::span_views(spans@);
    let above: usize = if peak < -6000 {
        0
    } else if peak > 0 {
        6000
    } else {
        (peak + 6000) as usize
    };
    assert(above * width <= 6000 * 24) by (nonlinear_arith)
        requires
            above <= 6000,
            width <= 24,
    ;
    let filled: usize = (above * width * 2 + 6000) / 12000;
    let green_end: usize = width * 40 / 60;
    let yellow_end: usize = width * 51 / 60;
    let green: usize = if filled <= green_end {
        filled
    } else {
        green_end
    };
    let over_green: usize = filled.saturating_sub(green);
    let yellow: usize = if over_green <= yellow_end - green_end {
        over_green
    } else {
        yellow_end - green_end
    };
    let red: usize = filled.saturating_sub(green + yellow);
    let empty: usize = width.saturating_sub(filled);
    push_segment(spans, '━', green, Tone::Success);
    push_segment(spans, '━', yellow, Tone::Rank);
    push_segment(spans, '━', red, Tone::Warning);
    push_segment(spans, '─', empty, Tone::Frame);
    proof {
        let cells = bar_cells(peak as int, width as nat);
        assert(cells == (green as nat, yellow as nat, red as nat, empty as nat));
        assert(style::span_views(spans@) =~= before + bar_spans(peak as int, width as nat));
    }
}

/// A number in decimal notation.
fn signed_decimal(n: i32) -> (r: String)
    ensures
        r@ == signed_digits(n as int),
{
    if n < 0 {
        let mut out: String = String::new();
        out.push('-');
        out.append(text::decimal((-(n as i64)) as u64).as_str());
        proof {
            assert(out@ =~= signed_digits(n as int));
        }
        out
    } else {
        text::decimal(n as u64)
    }
}

/// What the meter shows in the columns that are free, if anything.
pub fn microphone_meter(
    state: MicrophoneState,
    level: Option<MicrophoneLevel>,
    available: usize,
) -> (r: Option<MeterLine>)
    ensures
        match r {
            Some(line) => Some((style::span_views(line.spans@), line.width as nat)),
            None => None,
        } == meter(state, level, available as nat),
{
    if available < 10 || state == MicrophoneState::Unknown {
        return None;
    }
    let mut spans: Vec<Span> = Vec::new();
    proof {
        assert(style::span_views(spans@) =~= Seq::empty());
    }
    if state == MicrophoneState::Muted {
        style::push_span(&mut spans, Span::styled(" MIC MUTE ".to_owned(), Tone::Warning));
        return Some(MeterLine { spans, width: 10 });
    }
    let peak: i32 = match level {
        Some(level) => level.peak,
        None => {
            style::push_span(&mut spans, Span::styled(" MIC  -- ".to_owned(), Tone::Frame));
            return Some(MeterLine { spans, width: 10 });
        },
    };
    let width: usize = if available <= 24 {
        available
    } else {
        24
    };
    style::push_span(&mut spans, Span::styled(" MIC ".to_owned(), Tone::Content));
    if width >= 18 {
        push_bar(&mut spans, peak, width - 9);
        let whole: i32 = if peak >= 0 {
            ((peak as i64 + 50) / 100) as i32
        } else {
            (-((-(peak as i64) + 50) / 100)) as i32
        };
        let digits: String = signed_decimal(whole);
        let mut label: String = String::new();
        label.push(' ');
        label.append(
            unicode::repeat_char(' ', 3usize.saturating_sub(digits.as_str().unicode_len())).as_str(),
        );
        label.append(digits.as_str());
        proof {
            assert(label@ =~= seq![' '] + right_aligned(signed_digits(whole as int), 3));
        }
        style::push_span(&mut spans, Span::styled(label, Tone::Content));
    } else {
        push_bar(&mut spans, peak, width - 5);
    }
    Some(MeterLine { spans, width })
}

proof fn lemma_filled(peak: int, width: nat)
    requires
        width <= 24,
    ensures
        filled_cells(peak, width) <= width,
{
    let above = if peak < -6000 {
        0
    } else if peak > 0 {
        6000
    } else {
        peak + 6000
    };
    assert(above * width <= 6000 * width) by (nonlinear_arith)
        requires
            0 <= above <= 6000,
            0 <= width,
    ;
}

/// The bar of the meter fills its width exactly: its filled and its empty cells together are as
/// many as it is wide.
pub proof fn law_bars_fill_their_width(peak: int, width: nat)
    requires
        width <= 24,
    ensures
        bar_cells(peak, width).0 + bar_cells(peak, width).1 + bar_cells(peak, width).2 + bar_cells(
            peak,
            width,
        ).3 == width,
        line_chars(bar_spans(peak, width)) == width,
{
    lemma_filled(peak, width);
    let cells = bar_cells(peak, width);
    lemma_segment_chars(Seq::empty(), '━', cells.0, Tone::Success);
    let a = Seq::<SpanView>::empty() + segment('━', cells.0, Tone::Success);
    lemma_segment_chars(a, '━', cells.1, Tone::Rank);
    let b = a + segment('━', cells.1, Tone::Rank);
    lemma_segment_chars(b, '━', cells.2, Tone::Warning);
    let c = b + segment('━', cells.2, Tone::Warning);
    lemma_segment_chars(c, '─', cells.3, Tone::Frame);
    assert(c + segment('─', cells.3, Tone::Frame) =~= bar_spans(peak, width));
}

/// The characters of a line.
pub open spec fn line_chars(spans: Seq<SpanView>) -> nat
    decreases spans.len(),
{
    if spans.len() == 0 {
        0
    } else {
        line_chars(spans.drop_last()) + spans.last().content.len()
    }
}

proof fn lemma_segment_chars(spans: Seq<SpanView>, glyph: char, count: nat, tone: Tone)
    ensures
        line_chars(spans + segment(glyph, count, tone)) == line_chars(spans) + count,
{
    let all = spans + segment(glyph, count, tone);
    if count == 0 {
        assert(all =~= spans);
    } else {
        assert(all.drop_last() =~= spans);
    }
}

/// A louder peak never shortens the bar.
pub proof fn law_bars_grow_with_the_level(quiet: int, loud: int, width: nat)
    requires
        quiet <= loud,
    ensures
        filled_cells(quiet, width) <= filled_cells(loud, width),
{
    let a = if quiet < -6000 {
        0
    } else if quiet > 0 {
        6000
    } else {
        quiet + 6000
    };
    let b = if loud < -6000 {
        0
    } else if loud > 0 {
        6000
    } else {
        loud + 6000
    };
    assert(0 <= a * width <= b * width) by (nonlinear_arith)
        requires
            0 <= a <= b,
            0 <= width,
    ;
}

/// The bar is empty at sixty decibels below full scale and full at full scale, and in between as
/// long as the level demands, to half a cell.
pub proof fn law_bars_are_as_long_as_the_level(peak: int, width: nat)
    ensures
        peak <= -6000 ==> filled_cells(peak, width) == 0,
        peak >= 0 ==> filled_cells(peak, width) == width,
        -6000 <= peak <= 0 ==> {
            let off = filled_cells(peak, width) * 6000 - (peak + 6000) * width;
            -3000 < off <= 3000
        },
{
    let above = if peak < -6000 {
        0
    } else if peak > 0 {
        6000
    } else {
        peak + 6000
    };
    assert(above * width * 2 + 6000 >= 0) by (nonlinear_arith)
        requires
            above >= 0,
            width >= 0,
    ;
    assert(0 * width == 0) by (nonlinear_arith);
    assert(6000 * width * 2 == 12000 * width) by (nonlinear_arith);
    if peak <= -6000 {
        assert(above == 0);
        assert((above * width * 2 + 6000) / 12000 == 0);
    }
}

/// A bar is green first, yellow only where the green part is full, and red only where the yellow
/// part is full too.
pub proof fn law_colors_follow_each_other(peak: int, width: nat)
    requires
        width <= 24,
    ensures
        ({
            let cells = bar_cells(peak, width);
            &&& cells.0 <= width * 40 / 60
            &&& cells.0 + cells.1 <= width * 51 / 60
            &&& cells.1 > 0 ==> cells.0 == width * 40 / 60
            &&& cells.2 > 0 ==> cells.0 + cells.1 == width * 51 / 60
            &&& cells.0 + cells.1 + cells.2 == filled_cells(peak, width)
        }),
{
    law_bars_fill_their_width(peak, width);
}

/// Decibels are shown whole, rounded to the nearest.
pub proof fn law_decibels_are_rounded(peak: int)
    ensures
        -50 <= 100 * whole_decibels(peak) - peak <= 50,
{
}

/// A muted microphone shows no level, and one that is unknown, or has no room, shows nothing.
pub proof fn law_muted_microphones_show_no_level(
    state: MicrophoneState,
    level: Option<MicrophoneLevel>,
    other: Option<MicrophoneLevel>,
    available: nat,
)
    ensures
        state == MicrophoneState::Muted ==> meter(state, level, available) == meter(
            state,
            other,
            available,
        ),
        meter(state, level, available) is None <==> available < 10 || state
            == MicrophoneState::Unknown,
{
}

/// A level below zero is told with a minus sign before its digits.
pub proof fn law_levels_are_told_with_their_sign(n: int)
    ensures
        n >= 0 ==> text::number_read(signed_digits(n)) == n,
        n < 0 ==> signed_digits(n)[0] == '-' && text::number_read(signed_digits(n).skip(1)) == -n,
{
    if n >= 0 {
        text::law_a_written_number_reads_back(n as nat);
    } else {
        text::law_a_written_number_reads_back((-n) as nat);
        assert(signed_digits(n).skip(1) =~= text::decimal_digits((-n) as nat));
    }
}

} // verus!
