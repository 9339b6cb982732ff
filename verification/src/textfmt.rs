//! Decimal text formatting: the `/hot` body, elapsed-time strings and
//! the server addresses.

use vstd::prelude::*;

verus! {

/// The decimal digit character for a value below ten.
pub open spec fn digit_char(d: nat) -> char {
    if d == 0 {
        '0'
    } else if d == 1 {
        '1'
    } else if d == 2 {
        '2'
    } else if d == 3 {
        '3'
    } else if d == 4 {
        '4'
    } else if d == 5 {
        '5'
    } else if d == 6 {
        '6'
    } else if d == 7 {
        '7'
    } else if d == 8 {
        '8'
    } else {
        '9'
    }
}

/// The decimal representation of `n`, most significant digit first,
/// with no leading zeros (a single `0` for zero).
pub open spec fn dec_rep(n: nat) -> Seq<char>
    decreases n,
{
    if n < 10 {
        seq![digit_char(n)]
    } else {
        dec_rep(n / 10) + seq![digit_char(n % 10)]
    }
}

/// A sequence without the ANSI escape character.
pub open spec fn esc_free(s: Seq<char>) -> bool {
    forall|i: int| 0 <= i < s.len() ==> s[i] != '\u{1b}'
}

/// Decimal representations consist of digit characters only, so they
/// never contain the ANSI escape character.
pub proof fn lemma_dec_rep_esc_free(n: nat)
    ensures
        esc_free(dec_rep(n)),
    decreases n,
{
    if n >= 10 {
        lemma_dec_rep_esc_free(n / 10);
    }
}

/// The fractional part of a millisecond value, always three digits.
pub open spec fn frac3(r: nat) -> Seq<char>
    recommends
        r < 1000,
{
    if r < 10 {
        seq!['0', '0'] + dec_rep(r)
    } else if r < 100 {
        seq!['0'] + dec_rep(r)
    } else {
        dec_rep(r)
    }
}

/// An elapsed time in microseconds rendered as milliseconds with three
/// decimal places.
pub open spec fn millis_rep(micros: nat) -> Seq<char> {
    dec_rep(micros / 1000) + seq!['.'] + frac3(micros % 1000)
}

/// Append one decimal digit to `s`.
fn push_digit(s: &mut String, d: u64)
    requires
        d < 10,
    ensures
        final (s)@ == old(s)@ + seq![digit_char(d as nat)],
{
    if d == 0 {
        s.append("0");
        proof {
            reveal_strlit("0");
            assert(old(s)@ + "0"@ =~= old(s)@ + seq![digit_char(d as nat)]);
        }
    } else if d == 1 {
        s.append("1");
        proof {
            reveal_strlit("1");
            assert(old(s)@ + "1"@ =~= old(s)@ + seq![digit_char(d as nat)]);
        }
    } else if d == 2 {
        s.append("2");
        proof {
            reveal_strlit("2");
            assert(old(s)@ + "2"@ =~= old(s)@ + seq![digit_char(d as nat)]);
        }
    } else if d == 3 {
        s.append("3");
        proof {
            reveal_strlit("3");
            assert(old(s)@ + "3"@ =~= old(s)@ + seq![digit_char(d as nat)]);
        }
    } else if d == 4 {
        s.append("4");
        proof {
            reveal_strlit("4");
            assert(old(s)@ + "4"@ =~= old(s)@ + seq![digit_char(d as nat)]);
        }
    } else if d == 5 {
        s.append("5");
        proof {
            reveal_strlit("5");
            assert(old(s)@ + "5"@ =~= old(s)@ + seq![digit_char(d as nat)]);
        }
    } else if d == 6 {
        s.append("6");
        proof {
            reveal_strlit("6");
            assert(old(s)@ + "6"@ =~= old(s)@ + seq![digit_char(d as nat)]);
        }
    } else if d == 7 {
        s.append("7");
        proof {
            reveal_strlit("7");
            assert(old(s)@ + "7"@ =~= old(s)@ + seq![digit_char(d as nat)]);
        }
    } else if d == 8 {
        s.append("8");
        proof {
            reveal_strlit("8");
            assert(old(s)@ + "8"@ =~= old(s)@ + seq![digit_char(d as nat)]);
        }
    } else {
        s.append("9");
        proof {
            reveal_strlit("9");
            assert(old(s)@ + "9"@ =~= old(s)@ + seq![digit_char(d as nat)]);
        }
    }
}

/// Append the decimal representation of `n` to `s`.
pub fn push_decimal(s: &mut String, n: u64)
    ensures
        final (s)@ == old(s)@ + dec_rep(n as nat),
    decreases n,
{
    if n < 10 {
        push_digit(s, n);
    } else {
        push_decimal(s, n / 10);
        push_digit(s, n % 10);
        proof {
            assert(old(s)@ + dec_rep((n / 10) as nat) + seq![digit_char((n % 10) as nat)] =~= old(
                s,
            )@ + dec_rep(n as nat));
        }
    }
}

/// The decimal representation of `n` as a fresh string.
pub fn dec_string(n: u64) -> (r: String)
    ensures
        r@ == dec_rep(n as nat),
{
    let mut s = String::new();
    push_decimal(&mut s, n);
    proof {
        assert(Seq::<char>::empty() + dec_rep(n as nat) =~= dec_rep(n as nat));
    }
    s
}

/// The body of a `/hot` response: the version counter value as a
/// decimal ASCII string.
pub fn hot_body(version: u16) -> (r: String)
    ensures
        r@ == dec_rep(version as nat),
{
    dec_string(version as u64)
}

/// Append an elapsed time, given in microseconds, as milliseconds with
/// three decimal places.
pub fn push_millis(s: &mut String, micros: u64)
    ensures
        final (s)@ == old(s)@ + millis_rep(micros as nat),
{
    push_decimal(s, micros / 1000);
    s.append(".");
    let r = micros % 1000;
    if r < 10 {
        s.append("00");
    } else if r < 100 {
        s.append("0");
    }
    push_decimal(s, r);
    proof {
        reveal_strlit(".");
        reveal_strlit("00");
        reveal_strlit("0");
        assert("."@ =~= seq!['.']);
        if r < 10 {
            assert("00"@ + dec_rep(r as nat) =~= frac3((micros as nat) % 1000));
        } else if r < 100 {
            assert("0"@ + dec_rep(r as nat) =~= frac3((micros as nat) % 1000));
        }
        assert(s@ =~= old(s)@ + millis_rep(micros as nat));
    }
}

/// The loopback address the server binds: `127.0.0.1:<port>`.
pub open spec fn bind_address_rep(port: nat) -> Seq<char> {
    seq!['1', '2', '7', '.', '0', '.', '0', '.', '1', ':'] + dec_rep(port)
}

/// The URL a browser is pointed at: `http://127.0.0.1:<port>`.
pub open spec fn server_url_rep(port: nat) -> Seq<char> {
    seq!['h', 't', 't', 'p', ':', '/', '/'] + bind_address_rep(port)
}

/// Build the bind address for a port.
pub fn bind_address(port: u16) -> (r: String)
    ensures
        r@ == bind_address_rep(port as nat),
{
    let mut s = String::from_str("127.0.0.1:");
    push_decimal(&mut s, port as u64);
    proof {
        reveal_strlit("127.0.0.1:");
        assert(s@ =~= bind_address_rep(port as nat));
    }
    s
}

/// Build the full URL for a port.
pub fn server_url(port: u16) -> (r: String)
    ensures
        r@ == server_url_rep(port as nat),
{
    let mut s = String::from_str("http://");
    let addr = bind_address(port);
    s.append(addr.as_str());
    proof {
        reveal_strlit("http://");
        assert(s@ =~= server_url_rep(port as nat));
    }
    s
}

} // verus!
