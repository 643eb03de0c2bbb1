use vstd::prelude::*;
use crate::fields::{append_kvs, event_fields, event_fields_seq, kv_list_seq, Field};
use crate::indent::{branch_marker, branch_seq, connector_prefix, prefix_seq};
use crate::level::{label_seq, label_tint, level_label, Severity};
use crate::plain::{
    fields_plain, lemma_block_plain, lemma_concat_plain, lemma_digits_plain,
    lemma_event_fields_plain, lemma_kv_list_plain, lemma_line_plain, plain,
};
use crate::style::{styled, styled_text, Tint};
use crate::timing::{clock_micros, decimal, decimal_seq, digits_seq, elapsed_millis, elapsed_ms};
use crate::wrap::{block_seq, indent_of, is_line_of, join_lines, wrap_text, wrapped};

verus! {

/// The nominal width of a rendered line, in columns.
pub const LINE_WIDTH: usize = 200;

/// Renders spans and events as an indented tree: `indent_amount` columns per
/// nesting level, with or without color.
#[derive(Clone, Copy, Debug)]
pub struct HierarchicalLayer {
    pub indent_amount: usize,
    pub ansi: bool,
}

/// What is kept of a span from its creation: when it started (microseconds
/// since the Unix epoch) and its fields, in the order they were recorded.
#[derive(Clone, Debug)]
pub struct SpanRecord {
    pub start_micros: i64,
    pub fields: Vec<Field>,
}

/// A width clamped to what a `usize` holds, and to zero from below.
pub open spec fn fit_width(w: int) -> nat {
    if w < 0 {
        0
    } else if w > usize::MAX {
        usize::MAX as nat
    } else {
        w as nat
    }
}

/// The wrapping width of a header: the nominal width, less the indent, plus the
/// span name's length.
pub open spec fn header_width(name_len: nat, prefix_len: nat) -> nat {
    fit_width(LINE_WIDTH + name_len - prefix_len)
}

/// The wrapping width of an event's fields: the nominal width less the indent.
pub open spec fn event_width(prefix_len: nat) -> nat {
    fit_width(LINE_WIDTH - prefix_len)
}

/// A header before wrapping: the name, then the fields between braces.
pub open spec fn header_content_seq(ansi: bool, name: Seq<char>, fields: Seq<Field>) -> Seq<char> {
    styled_text(ansi, Tint::GreenBold, name) + styled_text(ansi, Tint::GreenBold, seq!['{'])
        + kv_list_seq(fields) + styled_text(ansi, Tint::GreenBold, seq!['}'])
}

/// The timing part of an event: elapsed milliseconds, `ms`, a space and the
/// severity label; nothing when the event is outside any span.
pub open spec fn timing_seq(ansi: bool, elapsed: Option<int>, level: Severity) -> Seq<char> {
    match elapsed {
        Some(ms) => styled_text(ansi, Tint::Dimmed, decimal_seq(ms)) + styled_text(
            ansi,
            Tint::Dimmed,
            seq!['m', 's'],
        ) + seq![' '] + styled_text(ansi, label_tint(level), label_seq(level)),
        None => Seq::empty(),
    }
}

/// The end of an event: its wrapped lines, or a bare newline when there are none.
pub open spec fn event_tail_seq(lines: Seq<Seq<char>>) -> Seq<char> {
    if lines.len() == 0 {
        seq!['\n']
    } else {
        block_seq(lines)
    }
}

impl HierarchicalLayer {
    /// The connector prefix of a line at `depth`.
    pub open spec fn prefix(self, depth: nat) -> Seq<char> {
        prefix_seq(depth, self.indent_amount as nat)
    }

    /// The lines of a header at `depth`: every one carries the connector prefix.
    pub open spec fn header_lines(self, name: Seq<char>, fields: Seq<Field>, depth: nat) -> Seq<
        Seq<char>,
    > {
        let p = self.prefix(depth);
        wrapped(
            header_content_seq(self.ansi, name, fields),
            header_width(name.len(), p.len()),
            p,
            p,
        )
    }

    /// The text printed when a span is entered at `depth`.
    pub open spec fn header_seq(self, name: Seq<char>, fields: Seq<Field>, depth: nat) -> Seq<char> {
        block_seq(self.header_lines(name, fields, depth))
    }

    /// The marker that opens an event's line: a branch at `depth > 0`, nothing at the root.
    pub open spec fn marker_seq(self, depth: nat) -> Seq<char> {
        if depth > 0 {
            branch_seq(depth, self.indent_amount as nat)
        } else {
            Seq::empty()
        }
    }

    /// The wrapped field lines of an event at `depth`: the first one bare (it
    /// follows the marker and timing), the others under the connector prefix.
    pub open spec fn event_lines(self, depth: nat, fields: Seq<Field>) -> Seq<Seq<char>> {
        let p = self.prefix(depth);
        wrapped(event_fields_seq(fields), event_width(p.len()), Seq::empty(), p)
    }

    /// The text printed for an event at `depth`.
    pub open spec fn event_seq(
        self,
        depth: nat,
        elapsed: Option<int>,
        level: Severity,
        fields: Seq<Field>,
    ) -> Seq<char> {
        self.marker_seq(depth) + timing_seq(self.ansi, elapsed, level) + event_tail_seq(
            self.event_lines(depth, fields),
        )
    }

    /// A layer with `indent_amount` columns per level, colored when standard
    /// output is a terminal.
    pub fn new(indent_amount: usize) -> (r: Self)
        ensures
            r.indent_amount == indent_amount,
    {
        HierarchicalLayer { indent_amount, ansi: stdout_is_terminal() }
    }

    /// The same layer with color switched on or off.
    pub fn with_ansi(self, ansi: bool) -> (r: Self)
        ensures
            r.indent_amount == self.indent_amount,
            r.ansi == ansi,
    {
        HierarchicalLayer { ansi, ..self }
    }

    /// The header printed when the span `name` with `fields` is entered with
    /// `depth` spans active around it.
    pub fn render_header(&self, name: &str, fields: &Vec<Field>, depth: usize) -> (r: String)
        requires
            depth * self.indent_amount <= usize::MAX,
        ensures
            r@ == self.header_seq(name@, fields@, depth as nat),
            self.prefix(depth as nat).len() == depth * self.indent_amount,
            forall|i: int|
                0 <= i < self.header_lines(name@, fields@, depth as nat).len() ==> is_line_of(
                    #[trigger] self.header_lines(name@, fields@, depth as nat)[i],
                    self.prefix(depth as nat),
                    header_content_seq(self.ansi, name@, fields@),
                ),
            !self.ansi && plain(name@) && fields_plain(fields@) ==> plain(r@),
    {
        let mut buf = styled(self.ansi, Tint::GreenBold, name);
        proof {
            reveal_strlit("{");
            reveal_strlit("}");
            assert("{"@ =~= seq!['{']);
            assert("}"@ =~= seq!['}']);
        }
        let open = styled(self.ansi, Tint::GreenBold, "{");
        buf.append(open.as_str());
        append_kvs(&mut buf, fields);
        let close = styled(self.ansi, Tint::GreenBold, "}");
        buf.append(close.as_str());
        assert(buf@ =~= header_content_seq(self.ansi, name@, fields@));
        let prefix = connector_prefix(depth, self.indent_amount);
        let name_len = name.unicode_len();
        let w: i128 = LINE_WIDTH as i128 + name_len as i128 - (depth * self.indent_amount) as i128;
        let width: usize = if w < 0 {
            0
        } else if w > usize::MAX as i128 {
            usize::MAX
        } else {
            w as usize
        };
        let lines = wrap_text(buf.as_str(), width, prefix.as_str(), prefix.as_str());
        let ghost views = lines@.map_values(|l: String| l@);
        let ghost content = header_content_seq(self.ansi, name@, fields@);
        proof {
            assert(views == self.header_lines(name@, fields@, depth as nat));
            assert forall|i: int| 0 <= i < views.len() implies is_line_of(
                #[trigger] views[i],
                prefix@,
                content,
            ) by {
                assert(views[i] == lines@[i]@);
                assert(is_line_of(lines@[i]@, indent_of(i, prefix@, prefix@), buf@));
            }
            if !self.ansi && plain(name@) && fields_plain(fields@) {
                lemma_kv_list_plain(fields@);
                lemma_concat_plain(name@, seq!['{']);
                lemma_concat_plain(name@ + seq!['{'], kv_list_seq(fields@));
                lemma_concat_plain(name@ + seq!['{'] + kv_list_seq(fields@), seq!['}']);
                assert(plain(content));
                assert(plain(prefix@));
                assert forall|i: int| 0 <= i < views.len() implies plain(#[trigger] views[i]) by {
                    lemma_line_plain(views[i], prefix@, content);
                }
                lemma_block_plain(views);
            }
        }
        join_lines(&lines)
    }

    /// The text printed for an event at `depth`, with the milliseconds since
    /// its span started when it is inside one.
    pub fn render_event(
        &self,
        depth: usize,
        elapsed: Option<i64>,
        level: Severity,
        fields: &Vec<Field>,
    ) -> (r: String)
        requires
            depth * self.indent_amount <= usize::MAX,
        ensures
            r@ == self.event_seq(
                depth as nat,
                match elapsed {
                    Some(ms) => Some(ms as int),
                    None => None,
                },
                level,
                fields@,
            ),
            forall|i: int|
                0 <= i < self.event_lines(depth as nat, fields@).len() ==> is_line_of(
                    #[trigger] self.event_lines(depth as nat, fields@)[i],
                    indent_of(i, Seq::empty(), self.prefix(depth as nat)),
                    event_fields_seq(fields@),
                ),
            !self.ansi && fields_plain(fields@) ==> plain(r@),
    {
        let mut out = if depth > 0 {
            branch_marker(depth, self.indent_amount)
        } else {
            String::new()
        };
        let ghost ms_view: Option<int> = match elapsed {
            Some(ms) => Some(ms as int),
            None => None,
        };
        match elapsed {
            Some(ms) => {
                proof {
                    reveal_strlit("ms");
                    reveal_strlit(" ");
                    assert("ms"@ =~= seq!['m', 's']);
                    assert(" "@ =~= seq![' ']);
                }
                let digits = decimal(ms);
                let a = styled(self.ansi, Tint::Dimmed, digits.as_str());
                let b = styled(self.ansi, Tint::Dimmed, "ms");
                let c = level_label(self.ansi, level);
                out.append(a.as_str());
                out.append(b.as_str());
                out.append(" ");
                out.append(c.as_str());
            },
            None => {},
        }
        assert(out@ =~= self.marker_seq(depth as nat) + timing_seq(self.ansi, ms_view, level));
        let text = event_fields(fields);
        let prefix = connector_prefix(depth, self.indent_amount);
        let p: usize = depth * self.indent_amount;
        let width: usize = if p <= LINE_WIDTH {
            LINE_WIDTH - p
        } else {
            0
        };
        proof {
            reveal_strlit("");
            assert(""@ =~= Seq::<char>::empty());
        }
        let lines = wrap_text(text.as_str(), width, "", prefix.as_str());
        assert(lines@.map_values(|l: String| l@) == self.event_lines(depth as nat, fields@));
        let ghost views = lines@.map_values(|l: String| l@);
        assert(views.len() == lines@.len());
        proof {
            assert forall|i: int| 0 <= i < views.len() implies is_line_of(
                #[trigger] views[i],
                indent_of(i, Seq::empty(), prefix@),
                text@,
            ) by {
                assert(views[i] == lines@[i]@);
            }
            if !self.ansi && fields_plain(fields@) {
                lemma_event_fields_plain(fields@);
                assert(plain(prefix@));
                assert(plain(Seq::<char>::empty()));
                assert forall|i: int| 0 <= i < views.len() implies plain(#[trigger] views[i]) by {
                    lemma_line_plain(views[i], indent_of(i, Seq::empty(), prefix@), text@);
                }
                lemma_block_plain(views);
                assert(plain(self.marker_seq(depth as nat)));
                match ms_view {
                    Some(m) => {
                        if m < 0 {
                            lemma_digits_plain((-m) as nat);
                            lemma_concat_plain(seq!['-'], digits_seq((-m) as nat));
                        } else {
                            lemma_digits_plain(m as nat);
                        }
                        assert(plain(decimal_seq(m)));
                        let t = decimal_seq(m);
                        lemma_concat_plain(t, seq!['m', 's']);
                        lemma_concat_plain(t + seq!['m', 's'], seq![' ']);
                        assert(plain(label_seq(level)));
                        lemma_concat_plain(t + seq!['m', 's'] + seq![' '], label_seq(level));
                    },
                    None => {},
                }
                assert(plain(timing_seq(self.ansi, ms_view, level)));
                lemma_concat_plain(self.marker_seq(depth as nat), timing_seq(self.ansi, ms_view, level));
                assert(plain(event_tail_seq(views)));
                lemma_concat_plain(
                    self.marker_seq(depth as nat) + timing_seq(self.ansi, ms_view, level),
                    event_tail_seq(views),
                );
            }
        }
        if lines.len() == 0 {
            proof {
                reveal_strlit("\n");
                assert("\n"@ =~= seq!['\n']);
            }
            out.append("\n");
        } else {
            let block = join_lines(&lines);
            out.append(block.as_str());
        }
        assert(out@ =~= self.event_seq(depth as nat, ms_view, level, fields@));
        out
    }
}

/// The milliseconds from the start of `span`, if any, to `now`.
pub open spec fn elapsed_in(span: Option<&SpanRecord>, now: int) -> Option<int> {
    match span {
        Some(s) => Some(elapsed_ms(s.start_micros as int, now)),
        None => None,
    }
}

impl SpanRecord {
    /// Records a span as it is created: its fields, and the clock as its start.
    pub fn capture(fields: Vec<Field>) -> (r: Self)
        ensures
            r.fields@ == fields@,
    {
        SpanRecord { start_micros: clock_micros(), fields }
    }
}

impl HierarchicalLayer {
    /// The text printed for an event at `depth`, inside `span` when one is
    /// active; the elapsed time is measured against the clock now, whatever
    /// it reads.
    pub fn render_event_now(
        &self,
        depth: usize,
        span: Option<&SpanRecord>,
        level: Severity,
        fields: &Vec<Field>,
    ) -> (r: String)
        requires
            depth * self.indent_amount <= usize::MAX,
        ensures
            exists|now: int|
                i64::MIN <= now <= i64::MAX && r@ == self.event_seq(
                    depth as nat,
                    #[trigger] elapsed_in(span, now),
                    level,
                    fields@,
                ),
    {
        let now = clock_micros();
        let elapsed = match span {
            Some(s) => Some(elapsed_millis(s.start_micros, now)),
            None => None,
        };
        let r = self.render_event(depth, elapsed, level, fields);
        assert(r@ == self.event_seq(depth as nat, elapsed_in(span, now as int), level, fields@));
        r
    }
}

/// A header nested deeper starts with a strictly longer connector prefix, which
/// extends the shallower one.
pub proof fn lemma_deeper_prefix_extends(layer: HierarchicalLayer, outer: nat, inner: nat)
    requires
        outer < inner,
        layer.indent_amount > 0,
    ensures
        layer.prefix(outer).len() == outer * layer.indent_amount,
        layer.prefix(inner).len() == inner * layer.indent_amount,
        layer.prefix(outer).len() < layer.prefix(inner).len(),
        layer.prefix(inner).subrange(0, layer.prefix(outer).len() as int) == layer.prefix(outer),
{
    let u = layer.indent_amount as nat;
    assert(outer * u < inner * u) by (nonlinear_arith)
        requires
            outer < inner,
            u > 0,
    ;
    assert(layer.prefix(inner).subrange(0, layer.prefix(outer).len() as int) =~= layer.prefix(
        outer,
    ));
}

/// Relies on atty's `is(Stream::Stdout)`: whether standard output is a
/// terminal. Nothing is known of the answer.
#[verifier::external_body]
fn stdout_is_terminal() -> (r: bool) {
    atty::is(atty::Stream::Stdout)
}

} // verus!
