use vstd::prelude::*;
use vstd::string::StringExecFns;

verus! {

/// The character for one decimal digit.
pub open spec fn digit_char(d: nat) -> char {
    if d == 0 {
        '0'
    } else if d == 1 {
        '1'
    } else if d == 2 {
        '2'
    } else if d == 3 {
        '3'
    } else if d == 4 {
        '4'
    } else if d == 5 {
        '5'
    } else if d == 6 {
        '6'
    } else if d == 7 {
        '7'
    } else if d == 8 {
        '8'
    } else {
        '9'
    }
}

/// The decimal rendering of a number, most significant digit first.
pub open spec fn dec_digits(n: nat) -> Seq<char>
    decreases n,
{
    if n < 10 {
        seq![digit_char(n)]
    } else {
        dec_digits(n / 10).push(digit_char(n % 10))
    }
}

pub open spec fn spaces(k: nat) -> Seq<char>
    decreases k,
{
    if k == 0 {
        Seq::empty()
    } else {
        spaces((k - 1) as nat).push(' ')
    }
}

/// A number right-aligned in a column of width `w`, padded with spaces on
/// the left; a wider number keeps all its digits.
pub open spec fn padded(n: nat, w: nat) -> Seq<char> {
    if dec_digits(n).len() >= w {
        dec_digits(n)
    } else {
        spaces((w - dec_digits(n).len()) as nat) + dec_digits(n)
    }
}

/// How many digits a number has, by magnitude.
proof fn lemma_dec_digits_len(n: nat)
    ensures
        n < 10 ==> dec_digits(n).len() == 1,
        10 <= n < 100 ==> dec_digits(n).len() == 2,
        100 <= n < 1000 ==> dec_digits(n).len() == 3,
        1000 <= n < 10000 ==> dec_digits(n).len() == 4,
        n >= 10000 ==> dec_digits(n).len() >= 5,
    decreases n,
{
    if n >= 10 {
        lemma_dec_digits_len(n / 10);
    }
}

/// One decimal digit as text.
fn digit_str(d: u64) -> (r: &'static str)
    requires
        d < 10,
    ensures
        r@ == seq![digit_char(d as nat)],
{
    proof {
        reveal_strlit("0");
        reveal_strlit("1");
        reveal_strlit("2");
        reveal_strlit("3");
        reveal_strlit("4");
        reveal_strlit("5");
        reveal_strlit("6");
        reveal_strlit("7");
        reveal_strlit("8");
        reveal_strlit("9");
    }
    let r: &'static str = if d == 0 {
        "0"
    } else if d == 1 {
        "1"
    } else if d == 2 {
        "2"
    } else if d == 3 {
        "3"
    } else if d == 4 {
        "4"
    } else if d == 5 {
        "5"
    } else if d == 6 {
        "6"
    } else if d == 7 {
        "7"
    } else if d == 8 {
        "8"
    } else {
        "9"
    };
    proof {
        assert(r@ =~= seq![digit_char(d as nat)]);
    }
    r
}

/// Appends the decimal rendering of `n`.
pub(crate) fn append_dec(out: &mut String, n: u64)
    ensures
        final(out)@ == old(out)@ + dec_digits(n as nat),
    decreases n,
{
    if n < 10 {
        out.append(digit_str(n));
        proof {
            assert(out@ =~= old(out)@ + dec_digits(n as nat));
        }
    } else {
        append_dec(out, n / 10);
        out.append(digit_str(n % 10));
        proof {
            assert(out@ =~= old(out)@ + dec_digits(n as nat));
        }
    }
}

/// Appends `n` right-aligned in a column of width 3.
pub(crate) fn append_padded3(out: &mut String, n: u64)
    ensures
        final(out)@ == old(out)@ + padded(n as nat, 3),
{
    proof {
        lemma_dec_digits_len(n as nat);
        reveal_with_fuel(spaces, 3);
        reveal_strlit(" ");
        reveal_strlit("  ");
        assert(spaces(1) =~= seq![' ']);
        assert(spaces(2) =~= seq![' ', ' ']);
    }
    if n < 10 {
        out.append("  ");
    } else if n < 100 {
        out.append(" ");
    }
    append_dec(out, n);
    proof {
        assert(out@ =~= old(out)@ + padded(n as nat, 3));
    }
}

/// Appends `n` right-aligned in a column of width 5.
pub(crate) fn append_padded5(out: &mut String, n: u64)
    ensures
        final(out)@ == old(out)@ + padded(n as nat, 5),
{
    proof {
        lemma_dec_digits_len(n as nat);
        reveal_with_fuel(spaces, 5);
        reveal_strlit(" ");
        reveal_strlit("  ");
        reveal_strlit("   ");
        reveal_strlit("    ");
        assert(spaces(1) =~= seq![' ']);
        assert(spaces(2) =~= seq![' ', ' ']);
        assert(spaces(3) =~= seq![' ', ' ', ' ']);
        assert(spaces(4) =~= seq![' ', ' ', ' ', ' ']);
    }
    if n < 10 {
        out.append("    ");
    } else if n < 100 {
        out.append("   ");
    } else if n < 1000 {
        out.append("  ");
    } else if n < 10000 {
        out.append(" ");
    }
    append_dec(out, n);
    proof {
        assert(out@ =~= old(out)@ + padded(n as nat, 5));
    }
}

/// The text of one slot: the value right-aligned in `w` columns with a
/// space on either side.
pub open spec fn cell(x: nat, w: nat) -> Seq<char> {
    seq![' '] + padded(x, w) + seq![' ']
}

/// The text slot `j` contributes to the grid: a bucket header (the bucket
/// number in 3 columns, then " [") before the bucket's first entry, the
/// slot's cell, and a closing "]" after the last entry, followed by a line
/// break unless the bucket is the grid's last.
pub open spec fn piece(s: Seq<u16>, e: nat, w: nat, j: int) -> Seq<char>
    recommends
        e > 0,
        0 <= j < s.len(),
{
    (if j % (e as int) == 0 {
        padded((j / (e as int)) as nat, 3) + seq![' ', '[']
    } else {
        Seq::empty()
    }) + cell(s[j] as nat, w) + (if j % (e as int) == (e as int) - 1 {
        if j == s.len() - 1 {
            seq![']']
        } else {
            seq![']', '\n']
        }
    } else {
        Seq::empty()
    })
}

/// The rendering of the first `i` slots of the grid.
pub open spec fn render_upto(s: Seq<u16>, e: nat, w: nat, i: int) -> Seq<char>
    recommends
        e > 0,
        i <= s.len(),
    decreases i,
{
    if i <= 0 {
        Seq::empty()
    } else {
        render_upto(s, e, w, i - 1) + piece(s, e, w, i - 1)
    }
}

/// The full diagnostic grid: every bucket on its own row, `w` columns per
/// slot value.
pub open spec fn render_spec(s: Seq<u16>, e: nat, w: nat) -> Seq<char>
    recommends
        e > 0,
{
    render_upto(s, e, w, s.len() as int)
}

} // verus!
