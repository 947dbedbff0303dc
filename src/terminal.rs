use vstd::prelude::*;

use crate::text::decimal;

verus! {

/// The control sequence introducer `ESC [`.
pub open spec fn csi(body: Seq<char>) -> Seq<char> {
    seq!['\x1b', '['] + body
}

/// Clears the whole screen.
pub open spec fn clear_all_seq() -> Seq<char> {
    csi(seq!['2', 'J'])
}

/// Moves the cursor to column `x`, row `y`, both counted from 1.
pub open spec fn goto_seq(x: nat, y: nat) -> Seq<char> {
    csi(decimal(y) + seq![';'] + decimal(x) + seq!['H'])
}

/// Yellow foreground (palette colour 3).
pub open spec fn yellow_fg_seq() -> Seq<char> {
    csi(seq!['3', '8', ';', '5', ';', '3', 'm'])
}

/// Black foreground (palette colour 0).
pub open spec fn black_fg_seq() -> Seq<char> {
    csi(seq!['3', '8', ';', '5', ';', '0', 'm'])
}

/// White background (palette colour 7).
pub open spec fn white_bg_seq() -> Seq<char> {
    csi(seq!['4', '8', ';', '5', ';', '7', 'm'])
}

/// Default foreground.
pub open spec fn reset_fg_seq() -> Seq<char> {
    csi(seq!['3', '9', 'm'])
}

/// Default background.
pub open spec fn reset_bg_seq() -> Seq<char> {
    csi(seq!['4', '9', 'm'])
}

/// Relies on the `Display` of `termion::clear::All`, which writes `CSI 2J`.
#[verifier::external_body]
pub(crate) fn clear_all() -> (r: String)
    ensures
        r@ == clear_all_seq(),
{
    termion::clear::All.to_string()
}

/// Relies on the `Display` of `termion::cursor::Goto(x, y)`, which writes
/// `CSI y;xH` with both numbers in decimal; it asserts (in debug builds)
/// that the position is not (0, 0).
#[verifier::external_body]
pub(crate) fn goto(x: u16, y: u16) -> (r: String)
    requires
        x != 0 || y != 0,
    ensures
        r@ == goto_seq(x as nat, y as nat),
{
    termion::cursor::Goto(x, y).to_string()
}

/// Relies on `termion::color::Yellow::fg_str`, the sequence `CSI 38;5;3m`.
#[verifier::external_body]
pub(crate) fn yellow_fg() -> (r: String)
    ensures
        r@ == yellow_fg_seq(),
{
    termion::color::Yellow.fg_str().to_string()
}

/// Relies on `termion::color::Black::fg_str`, the sequence `CSI 38;5;0m`.
#[verifier::external_body]
pub(crate) fn black_fg() -> (r: String)
    ensures
        r@ == black_fg_seq(),
{
    termion::color::Black.fg_str().to_string()
}

/// Relies on `termion::color::White::bg_str`, the sequence `CSI 48;5;7m`.
#[verifier::external_body]
pub(crate) fn white_bg() -> (r: String)
    ensures
        r@ == white_bg_seq(),
{
    termion::color::White.bg_str().to_string()
}

/// Relies on `termion::color::Reset::fg_str`, the sequence `CSI 39m`.
#[verifier::external_body]
pub(crate) fn reset_fg() -> (r: String)
    ensures
        r@ == reset_fg_seq(),
{
    termion::color::Reset.fg_str().to_string()
}

/// Relies on `termion::color::Reset::bg_str`, the sequence `CSI 49m`.
#[verifier::external_body]
pub(crate) fn reset_bg() -> (r: String)
    ensures
        r@ == reset_bg_seq(),
{
    termion::color::Reset.bg_str().to_string()
}

} // verus!
