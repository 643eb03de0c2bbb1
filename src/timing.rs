use vstd::prelude::*;

verus! {

/// The decimal digit for `d < 10`.
pub open spec fn digit_char(d: nat) -> char {
    seq!['0', '1', '2', '3', '4', '5', '6', '7', '8', '9'][d as int]
}

/// The decimal digits of `n`, most significant first, without leading zeros.
pub open spec fn digits_seq(n: nat) -> Seq<char>
    decreases n,
{
    if n < 10 {
        seq![digit_char(n)]
    } else {
        digits_seq(n / 10).push(digit_char(n % 10))
    }
}

/// `n` written in decimal, with a leading `-` when negative.
pub open spec fn decimal_seq(n: int) -> Seq<char> {
    if n < 0 {
        seq!['-'] + digits_seq((-n) as nat)
    } else {
        digits_seq(n as nat)
    }
}

/// Whole milliseconds from `start` to `now` (both in microseconds), truncated
/// toward zero.
pub open spec fn elapsed_ms(start: int, now: int) -> int {
    if now >= start {
        (now - start) / 1000
    } else {
        -((start - now) / 1000)
    }
}

fn append_digits(buf: &mut String, n: u64)
    ensures
        final(buf)@ == old(buf)@ + digits_seq(n as nat),
    decreases n,
{
    if n >= 10 {
        append_digits(buf, n / 10);
    }
    let d: usize = (n % 10) as usize;
    proof {
        reveal_strlit("0123456789");
        assert("0123456789"@ =~= seq!['0', '1', '2', '3', '4', '5', '6', '7', '8', '9']);
    }
    let s = "0123456789".substring_char(d, d + 1);
    assert(s@ =~= seq![digit_char(d as nat)]);
    buf.append(s);
    assert(buf@ =~= old(buf)@ + digits_seq(n as nat));
}

/// Writes `n` in decimal.
pub fn decimal(n: i64) -> (r: String)
    ensures
        r@ == decimal_seq(n as int),
{
    let mut out = String::new();
    if n < 0 {
        proof {
            reveal_strlit("-");
            assert("-"@ =~= seq!['-']);
        }
        out.append("-");
        let m: u64 = (-(n + 1)) as u64 + 1;
        append_digits(&mut out, m);
    } else {
        append_digits(&mut out, n as u64);
    }
    assert(out@ =~= decimal_seq(n as int));
    out
}

/// Milliseconds elapsed between two instants given in microseconds, truncated
/// toward zero (negative when the clock went backwards).
pub fn elapsed_millis(start_us: i64, now_us: i64) -> (r: i64)
    ensures
        r as int == elapsed_ms(start_us as int, now_us as int),
{
    if now_us >= start_us {
        let d: u64 = (now_us as i128 - start_us as i128) as u64;
        (d / 1000) as i64
    } else {
        let d: u64 = (start_us as i128 - now_us as i128) as u64;
        -((d / 1000) as i64)
    }
}

/// Relies on chrono's `Local::now` and `DateTime::timestamp_micros`: the
/// current wall-clock time in microseconds since the Unix epoch. Nothing is
/// known of the value.
#[verifier::external_body]
pub(crate) fn clock_micros() -> (r: i64) {
    chrono::Local::now().timestamp_micros()
}

} // verus!
