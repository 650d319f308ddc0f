use vstd::prelude::*;
use vstd::string::*;

use crate::types::Amount;

verus! {

/// The character standing for one decimal digit.
pub open spec fn digit_char(d: int) -> char {
    if d == 0 {
        '0'
    } else if d == 1 {
        '1'
    } else if d == 2 {
        '2'
    } else if d == 3 {
        '3'
    } else if d == 4 {
        '4'
    } else if d == 5 {
        '5'
    } else if d == 6 {
        '6'
    } else if d == 7 {
        '7'
    } else if d == 8 {
        '8'
    } else {
        '9'
    }
}

/// The decimal writing of a number, most significant digit first.
pub open spec fn dec_str(n: nat) -> Seq<char>
    decreases n,
{
    if n < 10 {
        seq![digit_char(n as int)]
    } else {
        dec_str(n / 10) + seq![digit_char((n % 10) as int)]
    }
}

/// Digits grouped by thousands with a thin space between the groups,
/// counted from the right.
pub open spec fn grouped(s: Seq<char>) -> Seq<char>
    decreases s.len(),
{
    if s.len() <= 3 {
        s
    } else {
        grouped(s.take(s.len() - 3)) + seq!['\u{2009}'] + s.skip(s.len() - 3)
    }
}

/// What `format_amount_number` returns: the grouped decimal digits of the
/// satoshi count followed by the unit.
pub open spec fn amount_text(n: nat) -> Seq<char> {
    grouped(dec_str(n)) + " sat"@
}

proof fn lemma_dec_str_len(n: nat)
    ensures
        dec_str(n).len() >= 1,
        (dec_str(n).len() <= 1) == (n < 10),
        (dec_str(n).len() <= 2) == (n < 100),
        (dec_str(n).len() <= 3) == (n < 1000),
    decreases n,
{
    if n >= 10 {
        lemma_dec_str_len(n / 10);
        assert((n / 10 < 10) == (n < 100)) by (nonlinear_arith);
        assert((n / 10 < 100) == (n < 1000)) by (nonlinear_arith);
    }
}

/// For a number of four or more digits, the decimal writing splits into the
/// writing of the thousands followed by the last three digits.
proof fn lemma_dec_str_split(n: nat)
    requires
        n >= 1000,
    ensures
        dec_str(n) =~= dec_str(n / 1000) + seq![
            digit_char((n / 100 % 10) as int),
            digit_char((n / 10 % 10) as int),
            digit_char((n % 10) as int),
        ],
        dec_str(n).len() == dec_str(n / 1000).len() + 3,
{
    assert(n / 10 / 10 == n / 100) by (nonlinear_arith);
    assert(n / 100 / 10 == n / 1000) by (nonlinear_arith);
    assert(n / 10 >= 100) by (nonlinear_arith)
        requires
            n >= 1000,
    ;
    assert(n / 100 >= 10) by (nonlinear_arith)
        requires
            n >= 1000,
    ;
    assert(dec_str(n) == dec_str(n / 10) + seq![digit_char((n % 10) as int)]);
    assert(dec_str(n / 10) == dec_str(n / 100) + seq![digit_char((n / 10 % 10) as int)]);
    assert(dec_str(n / 100) == dec_str(n / 1000) + seq![digit_char((n / 100 % 10) as int)]);
}

fn digit_to_str(d: u64) -> (r: &'static str)
    requires
        d < 10,
    ensures
        r@ =~= seq![digit_char(d as int)],
{
    proof {
        reveal_strlit("0");
        reveal_strlit("1");
        reveal_strlit("2");
        reveal_strlit("3");
        reveal_strlit("4");
        reveal_strlit("5");
        reveal_strlit("6");
        reveal_strlit("7");
        reveal_strlit("8");
        reveal_strlit("9");
    }
    match d {
        0 => "0",
        1 => "1",
        2 => "2",
        3 => "3",
        4 => "4",
        5 => "5",
        6 => "6",
        7 => "7",
        8 => "8",
        _ => "9",
    }
}

/// The decimal writing of `n`.
pub fn u64_to_string(n: u64) -> (s: String)
    ensures
        s@ == dec_str(n as nat),
    decreases n,
{
    if n < 10 {
        digit_to_str(n).to_owned()
    } else {
        let mut s = u64_to_string(n / 10);
        s.append(digit_to_str(n % 10));
        assert(s@ =~= dec_str(n as nat));
        s
    }
}

fn group_digits(n: u64) -> (s: String)
    ensures
        s@ == grouped(dec_str(n as nat)),
    decreases n,
{
    proof {
        lemma_dec_str_len(n as nat);
    }
    if n < 1000 {
        u64_to_string(n)
    } else {
        proof {
            lemma_dec_str_split(n as nat);
            lemma_dec_str_len((n / 1000) as nat);
        }
        let mut s = group_digits(n / 1000);
        s.append("\u{2009}");
        s.append(digit_to_str(n / 100 % 10));
        s.append(digit_to_str(n / 10 % 10));
        s.append(digit_to_str(n % 10));
        proof {
            reveal_strlit("\u{2009}");
            let d = dec_str(n as nat);
            let t = dec_str((n / 1000) as nat);
            assert(d.take(d.len() - 3) =~= t);
            assert(d.skip(d.len() - 3) =~= seq![
                digit_char((n as nat / 100 % 10) as int),
                digit_char((n as nat / 10 % 10) as int),
                digit_char((n as nat % 10) as int),
            ]);
            assert(s@ =~= grouped(d));
        }
        s
    }
}

/// Writes a satoshi amount as its decimal digits, grouped by thousands with
/// a thin space, followed by the unit `sat`.
pub fn format_amount_number(n: u64) -> (r: String)
    ensures
        r@ == amount_text(n as nat),
{
    let mut s = group_digits(n);
    s.append(" sat");
    proof {
        assert(s@ =~= amount_text(n as nat));
    }
    s
}

/// Writes an amount as `format_amount_number` writes its satoshi count.
pub fn format_amount(amount: Amount) -> (r: String)
    ensures
        r@ == amount_text(amount.spec_sats() as nat),
{
    format_amount_number(amount.to_sat())
}

/// What `height_to_future_est` returns: a rough wall-clock distance to a
/// block height that lies at or beyond the chain tip, at ten minutes a block.
pub open spec fn future_est_text(bh: int, th: int) -> Seq<char> {
    if bh <= th {
        "now"@
    } else {
        let rem = bh - th;
        if rem <= 5 {
            "in "@ + dec_str((rem * 10) as nat) + " minutes"@
        } else if rem <= 144 {
            let h = rem / 6;
            let m = (rem % 6) * 10;
            if m == 0 {
                "in "@ + dec_str(h as nat) + " hours"@
            } else {
                "in "@ + dec_str(h as nat) + " hours "@ + dec_str(m as nat) + " minutes"@
            }
        } else {
            let d = rem / 144;
            let h = (rem % 144) / 6;
            if h == 0 {
                "in "@ + dec_str(d as nat) + " days"@
            } else {
                "in "@ + dec_str(d as nat) + " days "@ + dec_str(h as nat) + " hours"@
            }
        }
    }
}

/// Estimates how far in the future a block height lies, assuming ten minutes
/// for each block past the current tip.
pub fn height_to_future_est(block_height: u32, tip_height: u32) -> (r: String)
    ensures
        r@ == future_est_text(block_height as int, tip_height as int),
{
    if block_height <= tip_height {
        return "now".to_owned();
    }
    let remaining_blocks = block_height - tip_height;

    if remaining_blocks <= 5 {
        let mut s = "in ".to_owned();
        s.append(u64_to_string((remaining_blocks * 10) as u64).as_str());
        s.append(" minutes");
        proof {
            assert(s@ =~= future_est_text(block_height as int, tip_height as int));
        }
        return s;
    }

    if remaining_blocks <= 144 {
        let hours = remaining_blocks / 6;
        let minutes = (remaining_blocks % 6) * 10;
        let mut s = "in ".to_owned();
        s.append(u64_to_string(hours as u64).as_str());
        if minutes == 0 {
            s.append(" hours");
        } else {
            s.append(" hours ");
            s.append(u64_to_string(minutes as u64).as_str());
            s.append(" minutes");
        }
        proof {
            assert(s@ =~= future_est_text(block_height as int, tip_height as int));
        }
        return s;
    }

    let days = remaining_blocks / 144;
    let hours = (remaining_blocks % 144) / 6;
    let mut s = "in ".to_owned();
    s.append(u64_to_string(days as u64).as_str());
    if hours == 0 {
        s.append(" days");
    } else {
        s.append(" days ");
        s.append(u64_to_string(hours as u64).as_str());
        s.append(" hours");
    }
    proof {
        assert(s@ =~= future_est_text(block_height as int, tip_height as int));
    }
    s
}

/// What `height_to_past_est` returns: a rough wall-clock distance to a block
/// height at or below the chain tip, at ten minutes a block, rounded to the
/// nearest unit.
pub open spec fn past_est_text(bh: int, th: int) -> Seq<char> {
    if bh >= th {
        "just now"@
    } else {
        let rem = th - bh;
        if rem <= 5 {
            dec_str((rem * 10) as nat) + " minutes ago"@
        } else if rem <= 144 {
            dec_str(((rem + 3) / 6) as nat) + " hours ago"@
        } else {
            dec_str(((rem + 72) / 144) as nat) + " days ago"@
        }
    }
}

/// Estimates how long ago a block height was reached, assuming ten minutes
/// for each block below the current tip.
pub fn height_to_past_est(block_height: u32, tip_height: u32) -> (r: String)
    ensures
        r@ == past_est_text(block_height as int, tip_height as int),
{
    if block_height >= tip_height {
        return "just now".to_owned();
    }
    let remaining_blocks = tip_height - block_height;

    if remaining_blocks <= 5 {
        let mut s = u64_to_string((remaining_blocks * 10) as u64);
        s.append(" minutes ago");
        proof {
            assert(s@ =~= past_est_text(block_height as int, tip_height as int));
        }
        return s;
    }

    if remaining_blocks <= 144 {
        let hours = (remaining_blocks + 3) / 6;
        let mut s = u64_to_string(hours as u64);
        s.append(" hours ago");
        proof {
            assert(s@ =~= past_est_text(block_height as int, tip_height as int));
        }
        return s;
    }

    let days = ((remaining_blocks as u64) + 72) / 144;
    let mut s = u64_to_string(days);
    s.append(" days ago");
    proof {
        assert(s@ =~= past_est_text(block_height as int, tip_height as int));
    }
    s
}

} // verus!
