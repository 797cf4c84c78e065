use vstd::prelude::*;
use vstd::string::StringExecFns;
use crate::config::Config;
use crate::info::{count, counts_of, FileInfo};

verus! {

/// Width of a shown count: each is right-justified in this many columns.
pub const FIELD_WIDTH: usize = 8;

/// The digit character for `d`, a value below ten.
pub open spec fn digit_char(d: nat) -> char {
    seq!['0', '1', '2', '3', '4', '5', '6', '7', '8', '9'][d as int]
}

/// The decimal text of `n`, without sign or leading zeros.
pub open spec fn decimal(n: nat) -> Seq<char>
    decreases n,
{
    if n < 10 {
        seq![digit_char(n)]
    } else {
        decimal(n / 10).push(digit_char(n % 10))
    }
}

/// `s` preceded by as many spaces as make it `w` characters wide; `s` itself where it
/// is already that wide or wider.
pub open spec fn pad_left(s: Seq<char>, w: nat) -> Seq<char> {
    if s.len() < w {
        Seq::new((w - s.len()) as nat, |i: int| ' ') + s
    } else {
        s
    }
}

/// The text of one field: the value right-justified to the field width when shown,
/// nothing at all when not.
pub open spec fn field_text(value: nat, show: bool) -> Seq<char> {
    if show {
        pad_left(decimal(value), FIELD_WIDTH as nat)
    } else {
        Seq::empty()
    }
}

/// One output row: the shown fields in the order lines, words, bytes, characters,
/// then a space and the input's name.
pub open spec fn row_text(
    lines: bool,
    words: bool,
    bytes: bool,
    chars: bool,
    info: FileInfo,
    name: Seq<char>,
) -> Seq<char> {
    field_text(info.num_lines as nat, lines) + field_text(info.num_words as nat, words)
        + field_text(info.num_bytes as nat, bytes) + field_text(info.num_chars as nat, chars)
        + seq![' '] + name
}

/// The row that `config` makes of `info` under `name`.
pub open spec fn config_row(config: Config, info: FileInfo, name: Seq<char>) -> Seq<char> {
    row_text(config.lines, config.words, config.bytes, config.chars, info, name)
}

/// The diagnostic reported for an input that could not be read or counted.
pub open spec fn diagnostic_text(name: Seq<char>, cause: Seq<char>) -> Seq<char> {
    name + seq![':', ' '] + cause
}

/// `x + y`, or the largest `usize` where the sum exceeds it.
pub open spec fn sat_add(x: usize, y: usize) -> usize {
    if x + y <= usize::MAX {
        (x + y) as usize
    } else {
        usize::MAX
    }
}

/// Field by field sum of two sets of counts, each saturating.
pub open spec fn sum_info(a: FileInfo, b: FileInfo) -> FileInfo {
    FileInfo {
        num_lines: sat_add(a.num_lines, b.num_lines),
        num_words: sat_add(a.num_words, b.num_words),
        num_bytes: sat_add(a.num_bytes, b.num_bytes),
        num_chars: sat_add(a.num_chars, b.num_chars),
    }
}

/// A shown field is never cut: it is the decimal text of the value, preceded by spaces
/// up to the field width, and no wider than the field width or that text, whichever
/// is wider. A hidden field is empty.
pub proof fn field_is_right_justified(v: nat)
    ensures
        field_text(v, false).len() == 0,
        field_text(v, true).len() == if decimal(v).len() < FIELD_WIDTH {
            FIELD_WIDTH as nat
        } else {
            decimal(v).len()
        },
        field_text(v, true).subrange(
            field_text(v, true).len() - decimal(v).len(),
            field_text(v, true).len() as int,
        ) == decimal(v),
        forall|i: int|
            0 <= i < field_text(v, true).len() - decimal(v).len() ==> field_text(v, true)[i]
                == ' ',
{
    let t = field_text(v, true);
    let d = decimal(v);
    assert(t.subrange(t.len() - d.len(), t.len() as int) =~= d);
}

/// Relies on `usize`'s `ToString`, through `Display`: the decimal digits of the value.
#[verifier::external_body]
fn decimal_string(v: usize) -> (r: String)
    ensures
        r@ == decimal(v as nat),
{
    v.to_string()
}

/// Number of decimal digits of `v`.
fn digit_count(v: usize) -> (r: usize)
    ensures
        r == decimal(v as nat).len(),
{
    let mut n: usize = v;
    let mut k: usize = 1;
    while n >= 10
        invariant
            decimal(v as nat).len() == decimal(n as nat).len() + k - 1,
            1 <= k,
            k + (n as nat) <= 1 + (v as nat),
        decreases n,
    {
        assert(decimal(n as nat).len() == decimal((n / 10) as nat).len() + 1);
        n = n / 10;
        k = k + 1;
    }
    k
}

/// The text of one field: `value` right-justified to the field width when `show` is
/// set (never cut, however wide), the empty string when it is not.
pub fn format_field(value: usize, show: bool) -> (r: String)
    ensures
        r@ == field_text(value as nat, show),
{
    if !show {
        return String::new();
    }
    let digits = decimal_string(value);
    let len = digit_count(value);
    let mut r = String::new();
    if len < FIELD_WIDTH {
        let pad = FIELD_WIDTH - len;
        let mut j: usize = 0;
        while j < pad
            invariant
                j <= pad,
                r@ =~= Seq::new(j as nat, |i: int| ' '),
            decreases pad - j,
        {
            proof {
                reveal_strlit(" ");
            }
            r.append(" ");
            j = j + 1;
        }
    }
    r.append(digits.as_str());
    r
}

/// The row that `config` makes of `info` for the input called `name`.
pub fn format_row(config: &Config, info: &FileInfo, name: &str) -> (r: String)
    ensures
        r@ == config_row(*config, *info, name@),
{
    let mut r = format_field(info.num_lines, config.lines);
    let w = format_field(info.num_words, config.words);
    r.append(w.as_str());
    let b = format_field(info.num_bytes, config.bytes);
    r.append(b.as_str());
    let c = format_field(info.num_chars, config.chars);
    r.append(c.as_str());
    proof {
        reveal_strlit(" ");
    }
    r.append(" ");
    r.append(name);
    r
}

/// The diagnostic line for the input called `name` that failed for `cause`.
pub fn diagnostic(name: &str, cause: &str) -> (r: String)
    ensures
        r@ == diagnostic_text(name@, cause@),
{
    let mut r = String::from_str(name);
    proof {
        reveal_strlit(": ");
    }
    r.append(": ");
    r.append(cause);
    r
}

fn saturating_sum(x: usize, y: usize) -> (r: usize)
    ensures
        r == sat_add(x, y),
{
    if x <= usize::MAX - y {
        x + y
    } else {
        usize::MAX
    }
}

/// Adds two sets of counts field by field, each sum saturating at the largest `usize`.
pub fn add_counts(a: &FileInfo, b: &FileInfo) -> (r: FileInfo)
    ensures
        r == sum_info(*a, *b),
{
    FileInfo {
        num_lines: saturating_sum(a.num_lines, b.num_lines),
        num_words: saturating_sum(a.num_words, b.num_words),
        num_bytes: saturating_sum(a.num_bytes, b.num_bytes),
        num_chars: saturating_sum(a.num_chars, b.num_chars),
    }
}

/// Handles one input whose content was read: counts it, folds the counts into `total`
/// and returns its row; where it cannot be counted, leaves `total` as it was and
/// returns the diagnostic instead.
pub fn process_input(config: &Config, total: &mut FileInfo, name: &str, data: &[u8]) -> (r:
    Result<String, String>)
    ensures
        counts_of(data@) matches Ok(info) ==> {
            &&& r matches Ok(row) && row@ == config_row(*config, info, name@)
            &&& *final(total) == sum_info(*old(total), info)
        },
        counts_of(data@) is Err ==> {
            &&& r matches Err(d) && d@ == diagnostic_text(name@, crate::info::count_error_text())
            &&& *final(total) == *old(total)
        },
{
    match count(data) {
        Ok(info) => {
            *total = add_counts(total, &info);
            Ok(format_row(config, &info, name))
        },
        Err(e) => {
            let cause = e.message();
            Err(diagnostic(name, cause.as_str()))
        },
    }
}

/// The totals row, which is made only when the run has more than one input.
pub fn total_row(config: &Config, total: &FileInfo) -> (r: Option<String>)
    ensures
        r is Some <==> config.files@.len() > 1,
        r matches Some(row) ==> row@ == config_row(*config, *total, "total"@),
{
    if config.files.len() > 1 {
        Some(format_row(config, total, "total"))
    } else {
        None
    }
}

} // verus!
