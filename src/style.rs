use vstd::prelude::*;

verus! {

/// The colours of the prompt: each an xterm 256-colour index, always drawn bold.
#[derive(Debug, Clone, Copy, PartialEq, Eq, Structural)]
pub struct Pallet {
    pub black: u8,
    pub blue: u8,
    pub cyan: u8,
    pub green: u8,
    pub orange: u8,
    pub purple: u8,
    pub red: u8,
    pub violet: u8,
    pub white: u8,
    pub yellow: u8,
}

/// The colours the prompt is drawn with.
pub open spec fn default_pallet() -> Pallet {
    Pallet {
        black: 0,
        blue: 33,
        cyan: 37,
        green: 64,
        orange: 166,
        purple: 125,
        red: 124,
        violet: 61,
        white: 15,
        yellow: 136,
    }
}

impl Default for Pallet {
    fn default() -> (r: Self)
        ensures
            r == default_pallet(),
    {
        Pallet {
            black: 0,
            blue: 33,
            cyan: 37,
            green: 64,
            orange: 166,
            purple: 125,
            red: 124,
            violet: 61,
            white: 15,
            yellow: 136,
        }
    }
}

/// The decimal digit `d`, for `0 <= d < 10`.
pub open spec fn decimal_digit(d: int) -> char {
    seq!['0', '1', '2', '3', '4', '5', '6', '7', '8', '9'][d]
}

/// `n` in decimal, without leading zeros.
pub open spec fn decimal(n: u8) -> Seq<char> {
    if n < 10 {
        seq![decimal_digit(n as int)]
    } else if n < 100 {
        seq![decimal_digit(n as int / 10), decimal_digit(n as int % 10)]
    } else {
        seq![decimal_digit(n as int / 100), decimal_digit((n as int / 10) % 10), decimal_digit(n as int % 10)]
    }
}

/// The escape code that turns on bold text in colour `c`.
pub open spec fn prefix_of(c: u8) -> Seq<char> {
    seq!['\x1b', '[', '1', ';', '3', '8', ';', '5', ';'] + decimal(c) + seq!['m']
}

/// The escape code that switches the text colour to `c`, keeping bold.
pub open spec fn switch_to(c: u8) -> Seq<char> {
    seq!['\x1b', '[', '3', '8', ';', '5', ';'] + decimal(c) + seq!['m']
}

/// The escape code that resets all styles.
pub open spec fn reset() -> Seq<char> {
    seq!['\x1b', '[', '0', 'm']
}

/// The texts of `spans` from index `i` on, each preceded by a colour switch
/// where its colour differs from that of the span before it.
pub open spec fn ansi_rest(spans: Seq<(Seq<char>, u8)>, i: int) -> Seq<char>
    decreases spans.len() - i,
{
    if 0 < i < spans.len() {
        (if spans[i - 1].1 == spans[i].1 { seq![] } else { switch_to(spans[i].1) }) + spans[i].0
            + ansi_rest(spans, i + 1)
    } else {
        seq![]
    }
}

/// A run of bold coloured texts written together: the first colour, every
/// text with a switch only where the colour changes, and one reset at the end.
pub open spec fn ansi_run(spans: Seq<(Seq<char>, u8)>) -> Seq<char> {
    if spans.len() == 0 {
        seq![]
    } else {
        prefix_of(spans[0].1) + spans[0].0 + ansi_rest(spans, 1) + reset()
    }
}

/// The views of the texts of `spans`, with their colours.
pub open spec fn spans_view(spans: Seq<(&str, u8)>) -> Seq<(Seq<char>, u8)> {
    spans.map_values(|s: (&str, u8)| (s.0@, s.1))
}

/// Relies on ansi_term's `Style::prefix`, on `Colour::Fixed(c).bold()`: it
/// writes `ESC [`, the bold code `1`, `;38;5;` with the colour in decimal, and `m`.
#[verifier::external_body]
pub(crate) fn style_prefix(c: u8) -> (r: String)
    ensures
        r@ == prefix_of(c),
{
    ansi_term::Colour::Fixed(c).bold().prefix().to_string()
}

/// Relies on ansi_term's `Style::suffix`, on `Colour::Fixed(c).bold()`: a style
/// that is not plain ends with the reset code `ESC [0m`.
#[verifier::external_body]
pub(crate) fn style_suffix(c: u8) -> (r: String)
    ensures
        r@ == reset(),
{
    ansi_term::Colour::Fixed(c).bold().suffix().to_string()
}

/// Relies on ansi_term's `ANSIStrings`, on texts painted with
/// `Colour::Fixed(c).bold()`: the first style's prefix and text, then for each
/// next text the prefix of the style difference (nothing for the same colour,
/// only the new foreground colour otherwise) and the text, and one reset after
/// the last; nothing at all for no texts.
#[verifier::external_body]
pub(crate) fn paint_run(spans: &Vec<(&str, u8)>) -> (r: String)
    ensures
        r@ == ansi_run(spans_view(spans@)),
{
    let painted: Vec<ansi_term::ANSIString> =
        spans.iter().map(|s| ansi_term::Colour::Fixed(s.1).bold().paint(s.0)).collect();
    ansi_term::ANSIStrings(&painted).to_string()
}

} // verus!
