use vstd::prelude::*;

verus! {

/// The styles the renderer applies to its output.
#[derive(Clone, Copy, Debug, PartialEq, Eq, Structural)]
pub enum Tint {
    GreenBold,
    PurpleBold,
    BlueBold,
    AmberBold,
    RedBold,
    Dimmed,
}

/// The escape sequence that switches a tint on.
pub open spec fn tint_open(t: Tint) -> Seq<char> {
    match t {
        Tint::GreenBold => seq!['\x1b', '[', '1', ';', '3', '2', 'm'],
        Tint::PurpleBold => seq!['\x1b', '[', '1', ';', '3', '5', 'm'],
        Tint::BlueBold => seq!['\x1b', '[', '1', ';', '3', '4', 'm'],
        Tint::AmberBold => seq![
            '\x1b', '[', '1', ';', '3', '8', ';', '2', ';', '2', '5', '2', ';', '2', '3', '4', ';',
            '1', '6', '0', 'm',
        ],
        Tint::RedBold => seq!['\x1b', '[', '1', ';', '3', '1', 'm'],
        Tint::Dimmed => seq!['\x1b', '[', '2', 'm'],
    }
}

/// The escape sequence that resets all styling.
pub open spec fn tint_reset() -> Seq<char> {
    seq!['\x1b', '[', '0', 'm']
}

/// `text` as it is printed: wrapped in escape sequences when color is on,
/// verbatim otherwise.
pub open spec fn styled_text(ansi: bool, t: Tint, text: Seq<char>) -> Seq<char> {
    if ansi {
        tint_open(t) + text + tint_reset()
    } else {
        text
    }
}

/// Relies on ansi_term's `Style::paint` and its `Display`: the style's
/// prefix (`ESC [` codes `m`, bold `1` before the colour), the text, then
/// `ESC [0m`.
#[verifier::external_body]
fn paint(t: Tint, text: &str) -> (r: String)
    ensures
        r@ == tint_open(t) + text@ + tint_reset(),
{
    let style = match t {
        Tint::GreenBold => ansi_term::Colour::Green.bold(),
        Tint::PurpleBold => ansi_term::Colour::Purple.bold(),
        Tint::BlueBold => ansi_term::Colour::Blue.bold(),
        Tint::AmberBold => ansi_term::Colour::RGB(252, 234, 160).bold(),
        Tint::RedBold => ansi_term::Colour::Red.bold(),
        Tint::Dimmed => ansi_term::Style::new().dimmed(),
    };
    style.paint(text).to_string()
}

/// Applies `t` to `text` when `ansi` is set; returns `text` unchanged otherwise.
pub fn styled(ansi: bool, t: Tint, text: &str) -> (r: String)
    ensures
        r@ == styled_text(ansi, t, text@),
{
    if ansi {
        paint(t, text)
    } else {
        text.to_string()
    }
}

} // verus!
