//! Time-derived artifact names: each stop call writes its artifact under a
//! collision-resistant file name built from the clock's nanosecond count.

use vstd::prelude::*;

verus! {

/// The hexadecimal digit character for a value below sixteen.
pub open spec fn hex_digit(d: int) -> char {
    if d == 0 {
        '0'
    } else if d == 1 {
        '1'
    } else if d == 2 {
        '2'
    } else if d == 3 {
        '3'
    } else if d == 4 {
        '4'
    } else if d == 5 {
        '5'
    } else if d == 6 {
        '6'
    } else if d == 7 {
        '7'
    } else if d == 8 {
        '8'
    } else if d == 9 {
        '9'
    } else if d == 10 {
        'a'
    } else if d == 11 {
        'b'
    } else if d == 12 {
        'c'
    } else if d == 13 {
        'd'
    } else if d == 14 {
        'e'
    } else {
        'f'
    }
}

/// The hexadecimal numeral of `n`, most significant digit first, without
/// leading zeros; the numeral of zero is the single digit `0`.
pub open spec fn hex_numeral(n: nat) -> Seq<char>
    decreases n,
{
    if n < 16 {
        seq![hex_digit(n as int)]
    } else {
        hex_numeral(n / 16) + seq![hex_digit((n % 16) as int)]
    }
}

/// Appends the digit character of `d` to `s`.
fn push_hex_digit(s: &mut String, d: u128)
    requires
        d < 16,
    ensures
        final(s)@ == old(s)@ + seq![hex_digit(d as int)],
{
    let digit: &str = if d == 0 {
        "0"
    } else if d == 1 {
        "1"
    } else if d == 2 {
        "2"
    } else if d == 3 {
        "3"
    } else if d == 4 {
        "4"
    } else if d == 5 {
        "5"
    } else if d == 6 {
        "6"
    } else if d == 7 {
        "7"
    } else if d == 8 {
        "8"
    } else if d == 9 {
        "9"
    } else if d == 10 {
        "a"
    } else if d == 11 {
        "b"
    } else if d == 12 {
        "c"
    } else if d == 13 {
        "d"
    } else if d == 14 {
        "e"
    } else {
        "f"
    };
    proof {
        reveal_strlit("0");
        reveal_strlit("1");
        reveal_strlit("2");
        reveal_strlit("3");
        reveal_strlit("4");
        reveal_strlit("5");
        reveal_strlit("6");
        reveal_strlit("7");
        reveal_strlit("8");
        reveal_strlit("9");
        reveal_strlit("a");
        reveal_strlit("b");
        reveal_strlit("c");
        reveal_strlit("d");
        reveal_strlit("e");
        reveal_strlit("f");
        assert(digit@ =~= seq![hex_digit(d as int)]);
    }
    s.append(digit);
}

/// Renders `n` as its hexadecimal numeral.
pub fn hex_string(n: u128) -> (r: String)
    ensures
        r@ == hex_numeral(n as nat),
    decreases n,
{
    if n < 16 {
        let mut s = String::new();
        push_hex_digit(&mut s, n);
        proof {
            assert(s@ =~= hex_numeral(n as nat));
        }
        s
    } else {
        let rest: u128 = n / 16;
        proof {
            vstd::arithmetic::div_mod::lemma_div_is_strictly_smaller(n as int, 16);
        }
        let mut s = hex_string(rest);
        push_hex_digit(&mut s, n % 16);
        proof {
            assert(s@ =~= hex_numeral(n as nat));
        }
        s
    }
}

/// Relies on std::time::SystemTime::now, SystemTime::duration_since and
/// Duration::as_nanos: the nanoseconds elapsed since the Unix epoch, or
/// zero when the clock reads before the epoch. The value depends on the
/// moment of the call, so nothing is promised of it.
#[verifier::external_body]
fn unix_nanos() -> u128 {
    match std::time::SystemTime::now().duration_since(std::time::UNIX_EPOCH) {
        Ok(d) => d.as_nanos(),
        Err(_) => 0,
    }
}

/// The hexadecimal numeral of the clock's nanosecond count since the Unix
/// epoch: a fresh, collision-resistant stamp for artifact names.
pub fn timestamp_hex() -> (r: String)
    ensures
        exists|n: nat| r@ == hex_numeral(n),
{
    let nanos = unix_nanos();
    let s = hex_string(nanos);
    proof {
        assert(s@ == hex_numeral(nanos as nat));
    }
    s
}

/// The file name one stop call writes its artifact under.
pub fn wav_file_name() -> (r: String)
    ensures
        exists|n: nat| r@ == "rec_"@ + hex_numeral(n) + ".wav"@,
{
    let mut s = String::from_str("rec_");
    let stamp = timestamp_hex();
    s.append(stamp.as_str());
    s.append(".wav");
    proof {
        let n = choose|n: nat| stamp@ == hex_numeral(n);
        assert(s@ == "rec_"@ + hex_numeral(n) + ".wav"@);
    }
    s
}

} // verus!
