use vstd::prelude::*;

verus! {

/// The lines that textwrap makes of `text` at `width` columns, breaking words
/// that do not fit, with `first` before the first line and `later` before
/// every other one.
pub uninterp spec fn wrapped(text: Seq<char>, width: nat, first: Seq<char>, later: Seq<char>) -> Seq<Seq<char>>;

/// `line` starts with `indent`, and all that follows it is taken from `text`.
pub open spec fn is_line_of(line: Seq<char>, indent: Seq<char>, text: Seq<char>) -> bool {
    &&& indent.len() <= line.len()
    &&& line.subrange(0, indent.len() as int) == indent
    &&& forall|j: int| indent.len() <= j < line.len() ==> text.contains(#[trigger] line[j])
}

/// The indent that textwrap puts before line `i`.
pub open spec fn indent_of(i: int, first: Seq<char>, later: Seq<char>) -> Seq<char> {
    if i == 0 {
        first
    } else {
        later
    }
}

/// Relies on textwrap's `Wrapper::wrap` with `break_words(true)`: each line is
/// the indent (`initial_indent` for the first, `subsequent_indent` after) followed
/// by a slice of the text, and an empty text gives no line.
#[verifier::external_body]
pub(crate) fn wrap_text(text: &str, width: usize, first: &str, later: &str) -> (r: Vec<String>)
    ensures
        r@.map_values(|l: String| l@) == wrapped(text@, width as nat, first@, later@),
        text@.len() == 0 ==> r@.len() == 0,
        forall|i: int|
            0 <= i < r@.len() ==> is_line_of(#[trigger] r@[i]@, indent_of(i, first@, later@), text@),
{
    let wrapper = textwrap::Wrapper::new(width).initial_indent(first).subsequent_indent(
        later,
    ).break_words(true);
    wrapper.wrap(text).into_iter().map(|l| l.into_owned()).collect()
}

/// The lines joined into one block, each ended by a newline.
pub open spec fn block_seq(lines: Seq<Seq<char>>) -> Seq<char>
    decreases lines.len(),
{
    if lines.len() == 0 {
        Seq::empty()
    } else {
        block_seq(lines.drop_last()) + lines.last() + seq!['\n']
    }
}

/// Writes the lines one after another, each followed by a newline.
pub fn join_lines(lines: &Vec<String>) -> (r: String)
    ensures
        r@ == block_seq(lines@.map_values(|l: String| l@)),
{
    proof {
        reveal_strlit("\n");
        assert("\n"@ =~= seq!['\n']);
    }
    let ghost views = lines@.map_values(|l: String| l@);
    let mut out = String::new();
    let n = lines.len();
    let mut i: usize = 0;
    while i < n
        invariant
            n == lines@.len(),
            i <= n,
            views == lines@.map_values(|l: String| l@),
            out@ == block_seq(views.subrange(0, i as int)),
            "\n"@ == seq!['\n'],
        decreases n - i,
    {
        out.append(lines[i].as_str());
        out.append("\n");
        proof {
            let s = views.subrange(0, i + 1);
            assert(s.drop_last() =~= views.subrange(0, i as int));
            assert(s.last() == lines@[i as int]@);
            assert(out@ =~= block_seq(s));
        }
        i = i + 1;
    }
    assert(views.subrange(0, n as int) =~= views);
    out
}

} // verus!
