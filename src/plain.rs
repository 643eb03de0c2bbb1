use vstd::prelude::*;
use crate::fields::{event_field_body, event_fields_seq, kv_list_seq, pair_seq, Field};
use crate::timing::{digits_seq, digit_char};
use crate::wrap::{block_seq, is_line_of};

verus! {

/// `s` holds no escape character, so no styling sequence.
pub open spec fn plain(s: Seq<char>) -> bool {
    forall|i: int| 0 <= i < s.len() ==> s[i] != '\x1b'
}

/// Every name and value among `fs` is plain.
pub open spec fn fields_plain(fs: Seq<Field>) -> bool {
    forall|i: int| 0 <= i < fs.len() ==> plain(#[trigger] fs[i].0@) && plain(fs[i].1@)
}

pub(crate) proof fn lemma_concat_plain(a: Seq<char>, b: Seq<char>)
    requires
        plain(a),
        plain(b),
    ensures
        plain(a + b),
{
    assert forall|i: int| 0 <= i < (a + b).len() implies (a + b)[i] != '\x1b' by {
        if i < a.len() {
            assert((a + b)[i] == a[i]);
        } else {
            assert((a + b)[i] == b[i - a.len()]);
        }
    }
}

pub(crate) proof fn lemma_pair_plain(f: Field)
    requires
        plain(f.0@),
        plain(f.1@),
    ensures
        plain(pair_seq(f)),
{
    lemma_concat_plain(f.0@, seq!['=']);
    lemma_concat_plain(f.0@ + seq!['='], f.1@);
}

pub(crate) proof fn lemma_kv_list_plain(fs: Seq<Field>)
    requires
        fields_plain(fs),
    ensures
        plain(kv_list_seq(fs)),
    decreases fs.len(),
{
    if fs.len() == 1 {
        assert(plain(fs[0].0@));
        lemma_pair_plain(fs[0]);
    } else if fs.len() > 1 {
        let init = fs.drop_last();
        assert forall|i: int| 0 <= i < init.len() implies plain(#[trigger] init[i].0@) && plain(
            init[i].1@,
        ) by {
            assert(init[i] == fs[i]);
        }
        lemma_kv_list_plain(init);
        assert(plain(fs[fs.len() - 1].0@));
        lemma_pair_plain(fs.last());
        lemma_concat_plain(kv_list_seq(init), seq![',', ' ']);
        lemma_concat_plain(kv_list_seq(init) + seq![',', ' '], pair_seq(fs.last()));
    }
}

pub(crate) proof fn lemma_event_fields_plain(fs: Seq<Field>)
    requires
        fields_plain(fs),
    ensures
        plain(event_fields_seq(fs)),
    decreases fs.len(),
{
    if fs.len() > 0 {
        let init = fs.drop_last();
        assert forall|i: int| 0 <= i < init.len() implies plain(#[trigger] init[i].0@) && plain(
            init[i].1@,
        ) by {
            assert(init[i] == fs[i]);
        }
        lemma_event_fields_plain(init);
        assert(plain(fs[fs.len() - 1].0@));
        lemma_pair_plain(fs.last());
        let sep = if fs.len() == 1 { seq![' '] } else { seq![',', ' '] };
        lemma_concat_plain(event_fields_seq(init), sep);
        assert(plain(event_field_body(fs.last())));
        lemma_concat_plain(event_fields_seq(init) + sep, event_field_body(fs.last()));
    }
}

pub(crate) proof fn lemma_digits_plain(n: nat)
    ensures
        plain(digits_seq(n)),
    decreases n,
{
    let ds = seq!['0', '1', '2', '3', '4', '5', '6', '7', '8', '9'];
    assert(plain(ds));
    if n >= 10 {
        lemma_digits_plain(n / 10);
        assert(plain(seq![digit_char(n % 10)]));
        lemma_concat_plain(digits_seq(n / 10), seq![digit_char(n % 10)]);
        assert(digits_seq(n) =~= digits_seq(n / 10) + seq![digit_char(n % 10)]);
    } else {
        assert(plain(seq![digit_char(n)]));
    }
}

/// A line made of a plain indent and characters of a plain text is plain.
pub(crate) proof fn lemma_line_plain(line: Seq<char>, indent: Seq<char>, text: Seq<char>)
    requires
        is_line_of(line, indent, text),
        plain(indent),
        plain(text),
    ensures
        plain(line),
{
    assert forall|j: int| 0 <= j < line.len() implies line[j] != '\x1b' by {
        if j < indent.len() {
            assert(line[j] == line.subrange(0, indent.len() as int)[j]);
        } else {
            assert(text.contains(line[j]));
        }
    }
}

pub(crate) proof fn lemma_block_plain(lines: Seq<Seq<char>>)
    requires
        forall|i: int| 0 <= i < lines.len() ==> plain(#[trigger] lines[i]),
    ensures
        plain(block_seq(lines)),
    decreases lines.len(),
{
    if lines.len() > 0 {
        let init = lines.drop_last();
        assert forall|i: int| 0 <= i < init.len() implies plain(#[trigger] init[i]) by {
            assert(init[i] == lines[i]);
        }
        lemma_block_plain(init);
        assert(plain(lines[lines.len() - 1]));
        lemma_concat_plain(block_seq(init), lines.last());
        lemma_concat_plain(block_seq(init) + lines.last(), seq!['\n']);
    }
}

} // verus!
