//! The lines that a measurement run shows: what each of them reads, as a
//! sequence of characters, and the functions that build them.

use vstd::prelude::*;
use vstd::string::*;

verus! {

/// Columns that a rate takes up in a line; shorter numbers are moved to the
/// right by blanks, longer ones are shown in full.
pub const HZ_WIDTH: usize = 5;

/// The character of one decimal digit.
pub open spec fn digit_char(d: nat) -> char {
    if d == 0 {
        '0'
    } else if d == 1 {
        '1'
    } else if d == 2 {
        '2'
    } else if d == 3 {
        '3'
    } else if d == 4 {
        '4'
    } else if d == 5 {
        '5'
    } else if d == 6 {
        '6'
    } else if d == 7 {
        '7'
    } else if d == 8 {
        '8'
    } else {
        '9'
    }
}

/// A number in decimal, most significant digit first, without leading zeros.
pub open spec fn decimal(n: nat) -> Seq<char>
    decreases n,
{
    if n < 10 {
        seq![digit_char(n)]
    } else {
        decimal(n / 10).push(digit_char(n % 10))
    }
}

/// `count` blanks.
pub open spec fn blanks(count: nat) -> Seq<char> {
    Seq::new(count, |i: int| ' ')
}

/// A text moved to the right edge of a field of `width` columns.
pub open spec fn right_aligned(text: Seq<char>, width: nat) -> Seq<char> {
    if text.len() >= width {
        text
    } else {
        blanks((width - text.len()) as nat) + text
    }
}

/// A rate as it stands in a line.
pub open spec fn hz_field(hz: u32) -> Seq<char> {
    right_aligned(decimal(hz as nat), HZ_WIDTH as nat)
}

/// The line shown for an accepted sample.
pub open spec fn sample_text(name: Seq<char>, latest: u32, average: u32) -> Seq<char> {
    name + ": Latest "@ + hz_field(latest) + "Hz, Average "@ + hz_field(average) + "Hz"@
}

/// The line shown for a device when the run ends.
pub open spec fn average_text(name: Seq<char>, average: u32) -> Seq<char> {
    "Average for "@ + name + ": "@ + hz_field(average) + "Hz"@
}

/// The line that announces a device before the run starts.
pub open spec fn listing_text(id: Seq<char>, name: Seq<char>) -> Seq<char> {
    id + ": "@ + name
}

/// Whether a line that may be there reads as `text` says: both are absent,
/// or both are there and the line holds that text.
pub open spec fn reads(line: Option<String>, text: Option<Seq<char>>) -> bool {
    match line {
        Some(held) => text == Some(held@),
        None => text is None,
    }
}

/// The digit that a character stands for; zero for any other character.
pub open spec fn digit_value(c: char) -> nat {
    if c == '1' {
        1
    } else if c == '2' {
        2
    } else if c == '3' {
        3
    } else if c == '4' {
        4
    } else if c == '5' {
        5
    } else if c == '6' {
        6
    } else if c == '7' {
        7
    } else if c == '8' {
        8
    } else if c == '9' {
        9
    } else {
        0
    }
}

/// The number that a sequence of digits reads as.
pub open spec fn decimal_value(digits: Seq<char>) -> nat
    decreases digits.len(),
{
    if digits.len() == 0 {
        0
    } else {
        decimal_value(digits.drop_last()) * 10 + digit_value(digits.last())
    }
}

/// The decimal form of a number reads as that number, and it has no leading
/// zero unless the number is zero.
pub proof fn lemma_decimal_reads_back(n: nat)
    ensures
        decimal_value(decimal(n)) == n,
        n > 0 ==> decimal(n)[0] != '0',
        forall|i: int| 0 <= i < decimal(n).len() ==> #[trigger] digit_char(
            digit_value(decimal(n)[i]),
        ) == decimal(n)[i],
    decreases n,
{
    if n < 10 {
        assert(decimal(n).drop_last() =~= Seq::<char>::empty());
        assert(decimal_value(decimal(n).drop_last()) == 0);
    } else {
        lemma_decimal_reads_back(n / 10);
        lemma_decimal_len(n / 10);
        assert(decimal(n).drop_last() =~= decimal(n / 10));
        assert(decimal(n)[0] == decimal(n / 10)[0]);
    }
}

/// How many digits a number has, by its size.
pub proof fn lemma_decimal_len(n: nat)
    ensures
        decimal(n).len() >= 1,
        n < 10 ==> decimal(n).len() == 1,
        10 <= n < 100 ==> decimal(n).len() == 2,
        100 <= n < 1000 ==> decimal(n).len() == 3,
        1000 <= n < 10000 ==> decimal(n).len() == 4,
        10000 <= n ==> decimal(n).len() >= 5,
    decreases n,
{
    if n >= 10 {
        lemma_decimal_len(n / 10);
    }
}

fn digit_str(d: u32) -> (s: &'static str)
    requires
        d < 10,
    ensures
        s@ == seq![digit_char(d as nat)],
{
    proof {
        reveal_strlit("0");
        reveal_strlit("1");
        reveal_strlit("2");
        reveal_strlit("3");
        reveal_strlit("4");
        reveal_strlit("5");
        reveal_strlit("6");
        reveal_strlit("7");
        reveal_strlit("8");
        reveal_strlit("9");
    }
    let s = if d == 0 {
        "0"
    } else if d == 1 {
        "1"
    } else if d == 2 {
        "2"
    } else if d == 3 {
        "3"
    } else if d == 4 {
        "4"
    } else if d == 5 {
        "5"
    } else if d == 6 {
        "6"
    } else if d == 7 {
        "7"
    } else if d == 8 {
        "8"
    } else {
        "9"
    };
    assert(s@ =~= seq![digit_char(d as nat)]);
    s
}

/// Writes `n` in decimal at the end of `out`.
pub fn append_decimal(out: &mut String, n: u32)
    ensures
        final(out)@ == old(out)@ + decimal(n as nat),
    decreases n,
{
    if n >= 10 {
        append_decimal(out, n / 10);
    }
    out.append(digit_str(n % 10));
    assert(out@ =~= old(out)@ + decimal(n as nat));
}

/// Writes `count` blanks at the end of `out`.
pub fn append_blanks(out: &mut String, count: usize)
    ensures
        final(out)@ == old(out)@ + blanks(count as nat),
{
    let mut i: usize = 0;
    proof {
        reveal_strlit(" ");
        assert(out@ =~= old(out)@ + blanks(0));
    }
    while i < count
        invariant
            i <= count,
            out@ == old(out)@ + blanks(i as nat),
            " "@.len() == 1,
            " "@[0] == ' ',
        decreases count - i,
    {
        out.append(" ");
        i = i + 1;
        assert(out@ =~= old(out)@ + blanks(i as nat));
    }
}

/// Writes a rate at the end of `out`, as it stands in a line.
pub fn append_hz_field(out: &mut String, hz: u32)
    ensures
        final(out)@ == old(out)@ + hz_field(hz),
{
    let pad: usize = if hz >= 10000 {
        0
    } else if hz >= 1000 {
        1
    } else if hz >= 100 {
        2
    } else if hz >= 10 {
        3
    } else {
        4
    };
    proof {
        lemma_decimal_len(hz as nat);
        if pad == 0 {
            assert(blanks(0) + decimal(hz as nat) =~= decimal(hz as nat));
        }
        assert(hz_field(hz) =~= blanks(pad as nat) + decimal(hz as nat));
    }
    append_blanks(out, pad);
    append_decimal(out, hz);
    assert(out@ =~= old(out)@ + hz_field(hz));
}

/// Builds the line for an accepted sample of the device `name`.
pub fn sample_line(name: &String, latest: u32, average: u32) -> (line: String)
    ensures
        line@ == sample_text(name@, latest, average),
{
    let mut line = name.clone();
    line.append(": Latest ");
    append_hz_field(&mut line, latest);
    line.append("Hz, Average ");
    append_hz_field(&mut line, average);
    line.append("Hz");
    line
}

/// Builds the closing line for the device `name`.
pub fn average_line(name: &String, average: u32) -> (line: String)
    ensures
        line@ == average_text(name@, average),
{
    let mut line = String::from_str("Average for ");
    line.append(name.as_str());
    line.append(": ");
    append_hz_field(&mut line, average);
    line.append("Hz");
    line
}

/// Builds the line that announces the device `name` under its `id`.
pub fn listing_line(id: &str, name: &str) -> (line: String)
    ensures
        line@ == listing_text(id@, name@),
{
    let mut line = String::from_str(id);
    line.append(": ");
    line.append(name);
    line
}

} // verus!
