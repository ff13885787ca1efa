//! QR codes drawn with half blocks: two rows of modules to a line of text.
use qrcode::{EcLevel, QrCode};
use vstd::prelude::*;
use vstd::string::*;

use crate::geometry;
use crate::geometry::Rect;
use crate::text;
use crate::unicode;

verus! {

#[verifier::external_type_specification]
#[verifier::external_body]
pub struct ExQrCode(qrcode::QrCode);

/// Why a text has no code.
#[derive(Clone, Copy, Debug, PartialEq, Eq, Structural)]
pub enum QrFailure {
    DataTooLong,
    InvalidVersion,
    UnsupportedCharacterSet,
    InvalidEciDesignator,
    InvalidCharacter,
}

pub open spec fn failure_text(failure: QrFailure) -> Seq<char> {
    match failure {
        QrFailure::DataTooLong => "data too long"@,
        QrFailure::InvalidVersion => "invalid version"@,
        QrFailure::UnsupportedCharacterSet => "unsupported character set"@,
        QrFailure::InvalidEciDesignator => "invalid ECI designator"@,
        QrFailure::InvalidCharacter => "invalid character"@,
    }
}

impl QrFailure {
    pub fn message(self) -> (r: &'static str)
        ensures
            r@ == failure_text(self),
    {
        match self {
            QrFailure::DataTooLong => "data too long",
            QrFailure::InvalidVersion => "invalid version",
            QrFailure::UnsupportedCharacterSet => "unsupported character set",
            QrFailure::InvalidEciDesignator => "invalid ECI designator",
            QrFailure::InvalidCharacter => "invalid character",
        }
    }
}

/// The modules of a code row by row, each dark or not.
pub uninterp spec fn modules(code: qrcode::QrCode) -> Seq<bool>;

/// The modules on a side of a code.
pub uninterp spec fn side(code: qrcode::QrCode) -> nat;

/// The modules that the data is encoded in, at the low or at the medium level of error correction.
pub uninterp spec fn encoded(data: Seq<u8>, low: bool) -> Result<Seq<bool>, QrFailure>;

/// `QrCode::with_error_correction_level`: encodes the data at the low or the medium level. A code
/// is a square of at most 177 modules a side.
#[verifier::external_body]
fn encode(data: &str, low: bool) -> (r: Result<QrCode, QrFailure>)
    ensures
        match r {
            Ok(code) => encoded(data.spec_bytes(), low) == Ok::<Seq<bool>, QrFailure>(
                modules(code),
            ) && side(code) * side(code) == modules(code).len() && side(code) <= 177,
            Err(failure) => encoded(data.spec_bytes(), low) == Err::<Seq<bool>, QrFailure>(failure),
        },
{
    QrCode::with_error_correction_level(
        data.as_bytes(),
        if low { EcLevel::L } else { EcLevel::M },
    ).map_err(|error| match error {
        qrcode::types::QrError::DataTooLong => QrFailure::DataTooLong,
        qrcode::types::QrError::InvalidVersion => QrFailure::InvalidVersion,
        qrcode::types::QrError::UnsupportedCharacterSet => QrFailure::UnsupportedCharacterSet,
        qrcode::types::QrError::InvalidEciDesignator => QrFailure::InvalidEciDesignator,
        qrcode::types::QrError::InvalidCharacter => QrFailure::InvalidCharacter,
    })
}

/// `QrCode::width`: the modules on a side.
pub assume_specification[ QrCode::width ](code: &QrCode) -> (r: usize)
    ensures
        r == side(*code),
;

/// `QrCode::to_colors`: the modules row by row, here as whether each is dark.
#[verifier::external_body]
fn dark_modules(code: &QrCode) -> (r: Vec<bool>)
    ensures
        r@ == modules(*code),
{
    code.to_colors().into_iter().map(|color| color.select(true, false)).collect()
}

/// The light border around a code, in modules.
pub const QUIET: usize = 2;

/// Whether a module is dark; the border around the code is light.
pub open spec fn dark_at(dark: Seq<bool>, side: nat, x: int, y: int) -> bool {
    QUIET <= x < side + QUIET && QUIET <= y < side + QUIET && dark[(y - QUIET) * side + (x - QUIET)]
}

/// The character for a module above another.
pub open spec fn half_block(top: bool, bottom: bool) -> char {
    if top && bottom {
        '█'
    } else if top {
        '▀'
    } else if bottom {
        '▄'
    } else {
        ' '
    }
}

/// One line of a drawn code.
pub open spec fn code_line(dark: Seq<bool>, side: nat, line: int) -> Seq<char> {
    Seq::new(
        side + 2 * QUIET as nat,
        |x: int| half_block(dark_at(dark, side, x, 2 * line), dark_at(dark, side, x, 2 * line + 1)),
    )
}

/// The lines of a drawn code.
pub open spec fn code_lines(dark: Seq<bool>, side: nat) -> Seq<Seq<char>> {
    Seq::new(
        ((side + 2 * QUIET + 1) / 2) as nat,
        |line: int| code_line(dark, side, line),
    )
}

proof fn lemma_module_index(x: int, y: int, side: int)
    requires
        0 <= x < side,
        0 <= y < side,
    ensures
        0 <= y * side + x < side * side,
{
    assert(0 <= y * side) by (nonlinear_arith)
        requires
            0 <= y,
            0 < side,
    ;
    assert(y * side + side <= side * side) by (nonlinear_arith)
        requires
            y + 1 <= side,
            0 < side,
    ;
}

fn is_dark(dark: &Vec<bool>, side: usize, x: usize, y: usize) -> (r: bool)
    requires
        side <= 177,
        dark@.len() == side * side,
    ensures
        r == dark_at(dark@, side as nat, x as int, y as int),
{
    if x < QUIET || x >= side + QUIET || y < QUIET || y >= side + QUIET {
        return false;
    }
    let column: usize = x - QUIET;
    let row: usize = y - QUIET;
    proof {
        lemma_module_index(column as int, row as int, side as int);
    }
    assert(row * side <= 177 * 177) by (nonlinear_arith)
        requires
            row < side <= 177,
    ;
    dark[row * side + column]
}

/// Draws the modules of a code.
pub fn module_lines(dark: &Vec<bool>, side: usize) -> (r: Vec<String>)
    requires
        side <= 177,
        dark@.len() == side * side,
    ensures
        text::views(r@) == code_lines(dark@, side as nat),
{
    let full: usize = side + 2 * QUIET;
    let mut lines: Vec<String> = Vec::new();
    let mut y: usize = 0;
    let ghost all = code_lines(dark@, side as nat);
    proof {
        assert(text::views(lines@) =~= all.take(0));
    }
    while y < full
        invariant
            side <= 177,
            dark@.len() == side * side,
            full == side + 2 * QUIET,
            y == 2 * lines@.len(),
            y <= full + 1,
            all == code_lines(dark@, side as nat),
            text::views(lines@) == all.take(lines@.len() as int),
        decreases full + 1 - y,
    {
        let mut line: String = String::new();
        let mut x: usize = 0;
        let ghost row = code_line(dark@, side as nat, lines@.len() as int);
        while x < full
            invariant
                side <= 177,
                dark@.len() == side * side,
                full == side + 2 * QUIET,
                x <= full,
                y < full,
                y == 2 * lines@.len(),
                row == code_line(dark@, side as nat, lines@.len() as int),
                line@ == row.take(x as int),
            decreases full - x,
        {
            let top: bool = is_dark(dark, side, x, y);
            let bottom: bool = is_dark(dark, side, x, y + 1);
            let cell: char = if top && bottom {
                '█'
            } else if top {
                '▀'
            } else if bottom {
                '▄'
            } else {
                ' '
            };
            line.push(cell);
            proof {
                assert(row[x as int] == cell);
                assert(row.take(x + 1) =~= row.take(x as int).push(cell));
            }
            x = x + 1;
        }
        proof {
            assert(row.take(full as int) =~= row);
            text::lemma_views_push(lines@, line);
            assert(all.take(lines@.len() as int + 1) =~= all.take(lines@.len() as int).push(
                all[lines@.len() as int],
            ));
        }
        lines.push(line);
        y = y + 2;
    }
    proof {
        assert(all.take(lines@.len() as int) =~= all);
    }
    lines
}

fn qr_lines_with_level(value: &str, low: bool) -> (r: Result<Vec<String>, QrFailure>)
    ensures
        match r {
            Ok(lines) => exists|n: nat|
                n * n == encoded(value.spec_bytes(), low)->Ok_0.len() && #[trigger] code_lines(
                    encoded(value.spec_bytes(), low)->Ok_0,
                    n,
                ) == text::views(lines@) && encoded(value.spec_bytes(), low) is Ok,
            Err(failure) => encoded(value.spec_bytes(), low) == Err::<Seq<bool>, QrFailure>(
                failure,
            ),
        },
{
    match encode(value, low) {
        Ok(code) => {
            let width: usize = code.width();
            let dark: Vec<bool> = dark_modules(&code);
            let lines: Vec<String> = module_lines(&dark, width);
            proof {
                let n = side(code);
                assert(n == width as nat);
                assert(code_lines(encoded(value.spec_bytes(), low)->Ok_0, n) == text::views(lines@));
                assert(n * n == encoded(value.spec_bytes(), low)->Ok_0.len());
            }
            Ok(lines)
        },
        Err(failure) => Err(failure),
    }
}

/// The code of a text at the medium level, as it is printed beside other output.
pub fn qr_lines(value: &str) -> (r: Result<Vec<String>, QrFailure>)
    ensures
        match r {
            Ok(lines) => exists|n: nat|
                n * n == encoded(value.spec_bytes(), false)->Ok_0.len() && #[trigger] code_lines(
                    encoded(value.spec_bytes(), false)->Ok_0,
                    n,
                ) == text::views(lines@) && encoded(value.spec_bytes(), false) is Ok,
            Err(failure) => encoded(value.spec_bytes(), false) == Err::<Seq<bool>, QrFailure>(
                failure,
            ),
        },
{
    qr_lines_with_level(value, false)
}

/// The code of a text at the low level, which takes less room on the screen.
pub fn compact_qr_lines(value: &str) -> (r: Result<Vec<String>, QrFailure>)
    ensures
        match r {
            Ok(lines) => exists|n: nat|
                n * n == encoded(value.spec_bytes(), true)->Ok_0.len() && #[trigger] code_lines(
                    encoded(value.spec_bytes(), true)->Ok_0,
                    n,
                ) == text::views(lines@) && encoded(value.spec_bytes(), true) is Ok,
            Err(failure) => encoded(value.spec_bytes(), true) == Err::<Seq<bool>, QrFailure>(
                failure,
            ),
        },
{
    qr_lines_with_level(value, true)
}

/// Whether the upper module of a drawn cell is dark.
pub open spec fn upper_dark(cell: char) -> bool {
    cell == '█' || cell == '▀'
}

/// Whether the lower module of a drawn cell is dark.
pub open spec fn lower_dark(cell: char) -> bool {
    cell == '█' || cell == '▄'
}

/// Nothing of a code is lost in the drawing: every module can be read off the cell that it stands
/// in, the even rows in the upper half of a line and the odd rows in the lower.
pub proof fn law_drawn_codes_can_be_read(dark: Seq<bool>, side: nat, x: int, y: int)
    requires
        dark.len() == side * side,
        0 <= x < side,
        0 <= y < side,
    ensures
        ({
            let line = (y + QUIET) / 2;
            let cell = code_lines(dark, side)[line][x + QUIET];
            &&& 0 <= line < code_lines(dark, side).len()
            &&& (y % 2 == 0 ==> upper_dark(cell) == dark[y * side + x])
            &&& (y % 2 == 1 ==> lower_dark(cell) == dark[y * side + x])
        }),
{
    let line = (y + QUIET) / 2;
    assert(code_lines(dark, side)[line] == code_line(dark, side, line));
}

/// Every line of a drawn code is as long as the others, and the border is blank.
pub proof fn law_drawn_codes_have_a_quiet_border(dark: Seq<bool>, side: nat, line: int, x: int)
    requires
        0 <= line < code_lines(dark, side).len(),
        0 <= x < side + 2 * QUIET,
    ensures
        code_lines(dark, side)[line].len() == side + 2 * QUIET,
        x < QUIET || x >= side + QUIET || line == 0 ==> code_lines(dark, side)[line][x] == ' ',
{
    assert(code_lines(dark, side)[line] == code_line(dark, side, line));
}

/// The popup of a code: the whole code, or where it does not fit, a note in its place.
#[derive(Clone, Copy, Debug, PartialEq, Eq, Structural)]
pub enum QrPopup {
    Code(Rect),
    TooSmall(Rect),
}

/// The columns of the widest line, which for a code without lines count as twenty.
pub open spec fn widest(lines: Seq<Seq<char>>) -> u16
    decreases lines.len(),
{
    if lines.len() == 0 {
        20
    } else if lines.len() == 1 {
        unicode::display_width(lines[0]) as u16
    } else {
        let rest = widest(lines.drop_last());
        let last = unicode::display_width(lines.last()) as u16;
        if last >= rest {
            last
        } else {
            rest
        }
    }
}

pub open spec fn saturated(a: int) -> u16 {
    if a > u16::MAX {
        u16::MAX
    } else {
        a as u16
    }
}

/// Where the popup of a code stands.
pub open spec fn popup_place(lines: Seq<Seq<char>>, area: Rect) -> QrPopup {
    let width = saturated(widest(lines) + 2);
    let height = saturated(saturated(lines.len() as int) + 2);
    let max_width = geometry::less(area.width, 2);
    let max_height = geometry::less(area.height, 2);
    if width > max_width || height > max_height {
        QrPopup::TooSmall(
            geometry::centered(
                geometry::smaller(max_width, 48),
                geometry::smaller(max_height, 5),
                area,
            ),
        )
    } else {
        QrPopup::Code(geometry::centered(width, height, area))
    }
}

/// Where the popup of a code stands.
pub fn qr_popup(lines: &Vec<String>, area: Rect) -> (r: QrPopup)
    requires
        area.wf(),
    ensures
        r == popup_place(text::views(lines@), area),
{
    let ghost all = text::views(lines@);
    let mut content: u16 = 20;
    let mut i: usize = 0;
    proof {
        assert(all.take(0) =~= Seq::empty());
    }
    while i < lines.len()
        invariant
            i <= lines@.len(),
            all == text::views(lines@),
            content == widest(all.take(i as int)),
        decreases lines@.len() - i,
    {
        proof {
            assert(all.take(i + 1).drop_last() =~= all.take(i as int));
            assert(all.take(i + 1).last() == lines@[i as int]@);
        }
        let columns: u16 = unicode::width_of(lines[i].as_str()) as u16;
        if i == 0 || columns >= content {
            content = columns;
        }
        i = i + 1;
    }
    proof {
        assert(all.take(i as int) =~= all);
    }
    let width: u16 = content.saturating_add(2);
    let rows: u16 = if lines.len() > 0xffff {
        0xffff
    } else {
        lines.len() as u16
    };
    let height: u16 = rows.saturating_add(2);
    let max_width: u16 = area.width.saturating_sub(2);
    let max_height: u16 = area.height.saturating_sub(2);
    if width > max_width || height > max_height {
        QrPopup::TooSmall(
            geometry::centered_rect(
                geometry::min_u16(max_width, 48),
                geometry::min_u16(max_height, 5),
                area,
            ),
        )
    } else {
        QrPopup::Code(geometry::centered_rect(width, height, area))
    }
}

/// A code is drawn whole or not at all: a popup that shows one lies within the screen, with room
/// for every line.
pub proof fn law_codes_are_never_clipped(lines: Seq<Seq<char>>, area: Rect)
    requires
        area.wf(),
        popup_place(lines, area) is Code,
    ensures
        area.covers(popup_place(lines, area)->Code_0),
        lines.len() + 2 <= popup_place(lines, area)->Code_0.height,
        widest(lines) + 2 <= popup_place(lines, area)->Code_0.width,
{
}

} // verus!
