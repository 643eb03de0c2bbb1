use vstd::prelude::*;

verus! {

/// The vertical bar drawn once per nesting level.
pub open spec fn bar() -> char {
    '\u{2503}'
}

/// The glyph that opens an event's own branch.
pub open spec fn tee() -> char {
    '\u{2523}'
}

/// The horizontal stroke that extends a branch.
pub open spec fn stroke() -> char {
    '\u{2501}'
}

/// `len` columns of connector: a bar at every multiple of `unit`, spaces between.
pub open spec fn connector_seq(len: nat, unit: nat) -> Seq<char> {
    Seq::new(len, |i: int| if i % (unit as int) == 0 { bar() } else { ' ' })
}

/// The connector prefix of a line at `depth`, with `unit` columns per level.
pub open spec fn prefix_seq(depth: nat, unit: nat) -> Seq<char> {
    connector_seq(depth * unit, unit)
}

/// The number of strokes after the tee: `(unit - 2) / 2`, or none for a narrow unit.
pub open spec fn stroke_count(unit: nat) -> nat {
    if unit >= 2 {
        ((unit - 2) as nat) / 2
    } else {
        0
    }
}

/// The marker of an event's line at `depth >= 1`: the connectors of the levels
/// above, a tee, and `(unit - 2) / 2` strokes.
pub open spec fn branch_seq(depth: nat, unit: nat) -> Seq<char> {
    prefix_seq((depth - 1) as nat, unit) + seq![tee()] + Seq::new(
        stroke_count(unit),
        |i: int| stroke(),
    )
}

/// Builds the connector prefix for `depth` levels of `unit` columns each.
pub fn connector_prefix(depth: usize, unit: usize) -> (r: String)
    requires
        depth * unit <= usize::MAX,
    ensures
        r@ == prefix_seq(depth as nat, unit as nat),
        r@.len() == depth * unit,
{
    let n: usize = depth * unit;
    let mut out = String::new();
    let mut i: usize = 0;
    proof {
        reveal_strlit("\u{2503}");
        reveal_strlit(" ");
        assert("\u{2503}"@ =~= seq![bar()]);
        assert(" "@ =~= seq![' ']);
    }
    while i < n
        invariant
            n == depth * unit,
            i <= n,
            out@ == connector_seq(i as nat, unit as nat),
            "\u{2503}"@ == seq![bar()],
            " "@ == seq![' '],
        decreases n - i,
    {
        if i % unit == 0 {
            out.append("\u{2503}");
        } else {
            out.append(" ");
        }
        i = i + 1;
        assert(out@ =~= connector_seq(i as nat, unit as nat));
    }
    out
}

/// Builds the branch marker that opens an event's line at `depth`.
pub fn branch_marker(depth: usize, unit: usize) -> (r: String)
    requires
        depth >= 1,
        depth * unit <= usize::MAX,
    ensures
        r@ == branch_seq(depth as nat, unit as nat),
{
    proof {
        assert((depth - 1) * unit <= depth * unit) by (nonlinear_arith)
            requires depth >= 1;
        reveal_strlit("\u{2523}");
        reveal_strlit("\u{2501}");
        assert("\u{2523}"@ =~= seq![tee()]);
        assert("\u{2501}"@ =~= seq![stroke()]);
    }
    let mut out = connector_prefix(depth - 1, unit);
    out.append("\u{2523}");
    let count: usize = if unit >= 2 { (unit - 2) / 2 } else { 0 };
    let ghost head = out@;
    let mut k: usize = 0;
    while k < count
        invariant
            k <= count,
            count == stroke_count(unit as nat),
            out@ == head + Seq::new(k as nat, |i: int| stroke()),
            "\u{2501}"@ == seq![stroke()],
        decreases count - k,
    {
        out.append("\u{2501}");
        k = k + 1;
        assert(out@ =~= head + Seq::new(k as nat, |i: int| stroke()));
    }
    assert(out@ =~= branch_seq(depth as nat, unit as nat));
    out
}

} // verus!
