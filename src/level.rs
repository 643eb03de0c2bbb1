use vstd::prelude::*;
use crate::style::{styled, styled_text, Tint};

verus! {

/// How severe an event is.
#[derive(Clone, Copy, Debug, PartialEq, Eq, Structural)]
pub enum Severity {
    Trace,
    Debug,
    Info,
    Warn,
    Error,
}

/// The label of a severity, padded on the left to five columns.
pub open spec fn label_seq(l: Severity) -> Seq<char> {
    match l {
        Severity::Trace => seq!['T', 'R', 'A', 'C', 'E'],
        Severity::Debug => seq!['D', 'E', 'B', 'U', 'G'],
        Severity::Info => seq![' ', 'I', 'N', 'F', 'O'],
        Severity::Warn => seq![' ', 'W', 'A', 'R', 'N'],
        Severity::Error => seq!['E', 'R', 'R', 'O', 'R'],
    }
}

/// The colour a severity's label is painted in.
pub open spec fn label_tint(l: Severity) -> Tint {
    match l {
        Severity::Trace => Tint::PurpleBold,
        Severity::Debug => Tint::BlueBold,
        Severity::Info => Tint::GreenBold,
        Severity::Warn => Tint::AmberBold,
        Severity::Error => Tint::RedBold,
    }
}

/// Every severity label occupies exactly five columns before styling.
pub proof fn lemma_label_width(l: Severity)
    ensures
        label_seq(l).len() == 5,
{
}

/// The label of `level`, painted in its colour when `ansi` is set.
pub fn level_label(ansi: bool, level: Severity) -> (r: String)
    ensures
        r@ == styled_text(ansi, label_tint(level), label_seq(level)),
{
    proof {
        reveal_strlit("TRACE");
        reveal_strlit("DEBUG");
        reveal_strlit(" INFO");
        reveal_strlit(" WARN");
        reveal_strlit("ERROR");
        assert("TRACE"@ =~= label_seq(Severity::Trace));
        assert("DEBUG"@ =~= label_seq(Severity::Debug));
        assert(" INFO"@ =~= label_seq(Severity::Info));
        assert(" WARN"@ =~= label_seq(Severity::Warn));
        assert("ERROR"@ =~= label_seq(Severity::Error));
    }
    match level {
        Severity::Trace => styled(ansi, Tint::PurpleBold, "TRACE"),
        Severity::Debug => styled(ansi, Tint::BlueBold, "DEBUG"),
        Severity::Info => styled(ansi, Tint::GreenBold, " INFO"),
        Severity::Warn => styled(ansi, Tint::AmberBold, " WARN"),
        Severity::Error => styled(ansi, Tint::RedBold, "ERROR"),
    }
}

} // verus!
