use vstd::prelude::*;

verus! {

/// A named, already rendered piece of context: `(name, value)`.
pub type Field = (String, String);

/// `name=value`.
pub open spec fn pair_seq(f: Field) -> Seq<char> {
    f.0@ + seq!['='] + f.1@
}

/// The fields of a span header: `name=value` pairs joined by `, `, in the
/// order given.
pub open spec fn kv_list_seq(fs: Seq<Field>) -> Seq<char>
    decreases fs.len(),
{
    if fs.len() == 0 {
        Seq::empty()
    } else if fs.len() == 1 {
        pair_seq(fs[0])
    } else {
        kv_list_seq(fs.drop_last()) + seq![',', ' '] + pair_seq(fs.last())
    }
}

/// The name of the field whose value an event shows without its name.
pub open spec fn message_name() -> Seq<char> {
    seq!['m', 'e', 's', 's', 'a', 'g', 'e']
}

/// How one event field reads: the bare value for `message`, `name=value` otherwise.
pub open spec fn event_field_body(f: Field) -> Seq<char> {
    if f.0@ == message_name() {
        f.1@
    } else {
        pair_seq(f)
    }
}

/// The fields of an event, in order: each is preceded by a space, and by a
/// comma before that when a field was written already.
pub open spec fn event_fields_seq(fs: Seq<Field>) -> Seq<char>
    decreases fs.len(),
{
    if fs.len() == 0 {
        Seq::empty()
    } else {
        let sep = if fs.len() == 1 { seq![' '] } else { seq![',', ' '] };
        event_fields_seq(fs.drop_last()) + sep + event_field_body(fs.last())
    }
}

fn append_pair(buf: &mut String, f: &Field)
    ensures
        final(buf)@ == old(buf)@ + pair_seq(*f),
{
    proof {
        reveal_strlit("=");
        assert("="@ =~= seq!['=']);
    }
    buf.append(f.0.as_str());
    buf.append("=");
    buf.append(f.1.as_str());
    assert(buf@ =~= old(buf)@ + pair_seq(*f));
}

/// Appends the fields of a span header to `buf`: `name=value` pairs joined by `, `.
pub fn append_kvs(buf: &mut String, kvs: &Vec<Field>)
    ensures
        final(buf)@ == old(buf)@ + kv_list_seq(kvs@),
{
    proof {
        reveal_strlit(", ");
        assert(", "@ =~= seq![',', ' ']);
    }
    let ghost start = buf@;
    let n = kvs.len();
    let mut i: usize = 0;
    while i < n
        invariant
            n == kvs@.len(),
            i <= n,
            buf@ == start + kv_list_seq(kvs@.subrange(0, i as int)),
            ", "@ == seq![',', ' '],
        decreases n - i,
    {
        if i > 0 {
            buf.append(", ");
        }
        append_pair(buf, &kvs[i]);
        proof {
            let s = kvs@.subrange(0, i + 1);
            assert(s.drop_last() =~= kvs@.subrange(0, i as int));
            assert(s.last() == kvs@[i as int]);
            if i == 0 {
                assert(kvs@.subrange(0, 0) =~= Seq::<Field>::empty());
                assert(buf@ =~= start + kv_list_seq(s));
            } else {
                assert(buf@ =~= start + kv_list_seq(s));
            }
        }
        i = i + 1;
    }
    assert(kvs@.subrange(0, n as int) =~= kvs@);
}

/// Renders the fields of an event: a field named `message` as its bare value,
/// every other one as `name=value`, each preceded by a space and, after the
/// first, by a comma.
pub fn event_fields(fields: &Vec<Field>) -> (r: String)
    ensures
        r@ == event_fields_seq(fields@),
{
    proof {
        reveal_strlit("message");
        reveal_strlit(" ");
        reveal_strlit(", ");
        assert("message"@ =~= message_name());
        assert(" "@ =~= seq![' ']);
        assert(", "@ =~= seq![',', ' ']);
    }
    let key = String::from_str("message");
    let mut buf = String::new();
    let n = fields.len();
    let mut i: usize = 0;
    while i < n
        invariant
            n == fields@.len(),
            i <= n,
            key@ == message_name(),
            buf@ == event_fields_seq(fields@.subrange(0, i as int)),
            ", "@ == seq![',', ' '],
            " "@ == seq![' '],
        decreases n - i,
    {
        if i > 0 {
            buf.append(", ");
        } else {
            buf.append(" ");
        }
        let f = &fields[i];
        if f.0 == key {
            buf.append(f.1.as_str());
        } else {
            append_pair(&mut buf, f);
        }
        proof {
            let s = fields@.subrange(0, i + 1);
            assert(s.drop_last() =~= fields@.subrange(0, i as int));
            assert(s.last() == fields@[i as int]);
            assert(buf@ =~= event_fields_seq(s));
        }
        i = i + 1;
    }
    assert(fields@.subrange(0, n as int) =~= fields@);
    buf
}

} // verus!
