//! Presentation of the daemon's answers in a client.
use vstd::prelude::*;
use crate::text::{digits, i32_of_decimal, push_digits, read_i32};

verus! {

/// The style of status-bar output.
pub struct PolybarStyle {}

/// `n` with at least two digits, padded with a leading zero.
pub open spec fn two_digits(n: nat) -> Seq<char> {
    if n < 10 {
        seq!['0'] + digits(n)
    } else {
        digits(n)
    }
}

/// `secs` as minutes and seconds: a sign (`-`, or a space when not
/// negative), then `mm:ss`.
pub open spec fn clock_text(secs: int) -> Seq<char> {
    let a: nat = if secs < 0 {
        (-secs) as nat
    } else {
        secs as nat
    };
    (if secs < 0 {
        seq!['-']
    } else {
        seq![' ']
    }) + two_digits(a / 60) + seq![':'] + two_digits(a % 60)
}

/// What a client shows for the answer `data`: in status-bar style the
/// seconds as `clock_text`, or nothing when `data` is no integer; otherwise
/// `data` itself.
pub open spec fn formatted(data: Seq<char>, is_polybar: bool) -> Seq<char> {
    if !is_polybar {
        data
    } else {
        match i32_of_decimal(data) {
            Some(v) => clock_text(v as int),
            None => Seq::<char>::empty(),
        }
    }
}

fn push_two_digits(s: &mut String, n: u64)
    ensures
        final(s)@ == old(s)@ + two_digits(n as nat),
{
    if n < 10 {
        proof {
            reveal_strlit("0");
        }
        s.append("0");
    }
    push_digits(s, n);
    assert(final(s)@ =~= old(s)@ + two_digits(n as nat));
}

/// Formats the daemon's answer `data` for display.
pub fn format(data: String, is_polybar: bool, _style: &PolybarStyle) -> (r: String)
    ensures
        r@ == formatted(data@, is_polybar),
{
    if !is_polybar {
        return data;
    }
    let secs = match read_i32(data.as_str()) {
        Some(v) => v,
        None => return String::new(),
    };
    let magnitude: u64 = if secs < 0 {
        (0i64 - secs as i64) as u64
    } else {
        secs as u64
    };
    let mut s = String::new();
    proof {
        reveal_strlit("-");
        reveal_strlit(" ");
        reveal_strlit(":");
    }
    if secs < 0 {
        s.append("-");
    } else {
        s.append(" ");
    }
    push_two_digits(&mut s, magnitude / 60);
    s.append(":");
    push_two_digits(&mut s, magnitude % 60);
    assert(s@ =~= clock_text(secs as int));
    s
}

} // verus!
