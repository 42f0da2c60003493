//! Output file names: `{file_name}_output{index:03}.{extension}` under a fixed directory.
use vstd::prelude::*;

verus! {

/// The name of the directory every crop is written to, relative to the working directory.
pub open spec fn output_dir_name() -> Seq<char> {
    seq!['o', 'u', 't', 'p', 'u', 't']
}

/// The directory every crop is written to.
pub fn output_dir() -> (r: &'static str)
    ensures
        r@ == output_dir_name(),
{
    proof {
        reveal_strlit("output");
    }
    "output"
}

/// The digit character for a value below ten.
pub open spec fn digit_char(d: nat) -> char {
    if d == 0 {
        '0'
    } else if d == 1 {
        '1'
    } else if d == 2 {
        '2'
    } else if d == 3 {
        '3'
    } else if d == 4 {
        '4'
    } else if d == 5 {
        '5'
    } else if d == 6 {
        '6'
    } else if d == 7 {
        '7'
    } else if d == 8 {
        '8'
    } else {
        '9'
    }
}

/// The decimal numeral of `n`, without leading zeros.
pub open spec fn decimal(n: nat) -> Seq<char>
    decreases n,
{
    if n < 10 {
        seq![digit_char(n)]
    } else {
        decimal(n / 10).push(digit_char(n % 10))
    }
}

/// `s` left-padded with `'0'` to at least three characters.
pub open spec fn zero_pad3(s: Seq<char>) -> Seq<char> {
    if s.len() >= 3 {
        s
    } else {
        Seq::new((3 - s.len()) as nat, |i: int| '0') + s
    }
}

pub open spec fn output_infix() -> Seq<char> {
    seq!['_', 'o', 'u', 't', 'p', 'u', 't']
}

/// The name of the crop with 1-based `index` taken from the image called `file_name`.
pub open spec fn output_name(file_name: Seq<char>, extension: Seq<char>, index: nat) -> Seq<char> {
    file_name + output_infix() + zero_pad3(decimal(index)) + seq!['.'] + extension
}

/// Where the crop called `name` is written.
pub open spec fn output_path(name: Seq<char>) -> Seq<char> {
    output_dir_name() + seq!['/'] + name
}

fn digit_str(d: usize) -> (r: &'static str)
    requires
        d < 10,
    ensures
        r@ == seq![digit_char(d as nat)],
{
    proof {
        reveal_strlit("0");
        reveal_strlit("1");
        reveal_strlit("2");
        reveal_strlit("3");
        reveal_strlit("4");
        reveal_strlit("5");
        reveal_strlit("6");
        reveal_strlit("7");
        reveal_strlit("8");
        reveal_strlit("9");
    }
    if d == 0 {
        "0"
    } else if d == 1 {
        "1"
    } else if d == 2 {
        "2"
    } else if d == 3 {
        "3"
    } else if d == 4 {
        "4"
    } else if d == 5 {
        "5"
    } else if d == 6 {
        "6"
    } else if d == 7 {
        "7"
    } else if d == 8 {
        "8"
    } else {
        "9"
    }
}

/// The decimal numeral of `n`.
pub fn decimal_string(n: usize) -> (r: String)
    ensures
        r@ == decimal(n as nat),
    decreases n,
{
    if n < 10 {
        digit_str(n).to_owned()
    } else {
        let mut s = decimal_string(n / 10);
        s.append(digit_str(n % 10));
        s
    }
}

/// The index as at least three digits, zero-padded on the left.
pub fn padded_index(n: usize) -> (r: String)
    ensures
        r@ == zero_pad3(decimal(n as nat)),
{
    let digits = decimal_string(n);
    let len = digits.as_str().unicode_len();
    if len >= 3 {
        digits
    } else {
        let mut r = String::new();
        let mut k: usize = len;
        while k < 3
            invariant
                len <= k <= 3,
                r@ == Seq::new((k - len) as nat, |i: int| '0'),
            decreases 3 - k,
        {
            proof {
                reveal_strlit("0");
            }
            r.append("0");
            assert(r@ =~= Seq::new((k + 1 - len) as nat, |i: int| '0'));
            k = k + 1;
        }
        r.append(digits.as_str());
        r
    }
}

/// The name of the crop with 1-based `index` taken from the image called `file_name`.
pub fn output_file_name(file_name: &str, extension: &str, index: usize) -> (r: String)
    ensures
        r@ == output_name(file_name@, extension@, index as nat),
{
    proof {
        reveal_strlit("_output");
        reveal_strlit(".");
    }
    let mut r = file_name.to_owned();
    r.append("_output");
    let pad = padded_index(index);
    r.append(pad.as_str());
    r.append(".");
    r.append(extension);
    assert(r@ =~= output_name(file_name@, extension@, index as nat));
    r
}

/// The path, under the output directory, of the crop called `name`.
pub fn output_file_path(name: &str) -> (r: String)
    ensures
        r@ == output_path(name@),
{
    proof {
        reveal_strlit("output/");
    }
    let mut r = "output/".to_owned();
    r.append(name);
    assert(r@ =~= output_path(name@));
    r
}

} // verus!
