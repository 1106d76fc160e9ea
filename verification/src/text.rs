//! Small pieces of text for messages: numbers in decimal, a list of names
//! as an English enumeration, a capitalised word, an elapsed time.

use vstd::prelude::*;
use vstd::string::StringExecFns;
use std::time::Duration;
use crate::chars::{chars_of, push_char};

verus! {

/// The character for a single decimal digit.
pub open spec fn digit_char(d: nat) -> char {
    if d == 0 {
        '0'
    } else if d == 1 {
        '1'
    } else if d == 2 {
        '2'
    } else if d == 3 {
        '3'
    } else if d == 4 {
        '4'
    } else if d == 5 {
        '5'
    } else if d == 6 {
        '6'
    } else if d == 7 {
        '7'
    } else if d == 8 {
        '8'
    } else {
        '9'
    }
}

/// The decimal numeral of `n`, without leading zeros.
pub open spec fn decimal(n: nat) -> Seq<char>
    decreases n,
{
    if n < 10 {
        seq![digit_char(n)]
    } else {
        decimal(n / 10).push(digit_char(n % 10))
    }
}

/// The decimal numeral of `n`, with a leading zero where it has one digit.
pub open spec fn decimal_two(n: nat) -> Seq<char> {
    if n < 10 {
        seq!['0'] + decimal(n)
    } else {
        decimal(n)
    }
}

fn digit(d: u64) -> (c: char)
    requires
        d < 10,
    ensures
        c == digit_char(d as nat),
{
    if d == 0 {
        '0'
    } else if d == 1 {
        '1'
    } else if d == 2 {
        '2'
    } else if d == 3 {
        '3'
    } else if d == 4 {
        '4'
    } else if d == 5 {
        '5'
    } else if d == 6 {
        '6'
    } else if d == 7 {
        '7'
    } else if d == 8 {
        '8'
    } else {
        '9'
    }
}

/// Appends the decimal numeral of `n` to `out`.
pub fn push_decimal(out: &mut String, n: u64)
    ensures
        final(out)@ == old(out)@ + decimal(n as nat),
    decreases n,
{
    if n >= 10 {
        push_decimal(out, n / 10);
    }
    push_char(out, digit(n % 10));
    assert(final(out)@ =~= old(out)@ + decimal(n as nat));
}

/// Appends the decimal numeral of `n` to `out`, at least two digits wide.
pub fn push_decimal_two(out: &mut String, n: u64)
    ensures
        final(out)@ == old(out)@ + decimal_two(n as nat),
{
    if n < 10 {
        push_char(out, '0');
    }
    push_decimal(out, n);
    assert(final(out)@ =~= old(out)@ + decimal_two(n as nat));
}

/// The names up to the last but one of an enumeration of three or more:
/// each followed by a comma but the last.
pub open spec fn comma_separated(names: Seq<String>) -> Seq<char>
    decreases names.len(),
{
    if names.len() == 0 {
        Seq::empty()
    } else if names.len() == 1 {
        names[0]@
    } else {
        comma_separated(names.drop_last()) + ", "@ + names.last()@
    }
}

/// The names as an English enumeration: nothing for none, the name for one,
/// "a and b" for two, "a, b, and c" for more.
pub open spec fn conjunction_of(names: Seq<String>) -> Seq<char> {
    if names.len() == 0 {
        Seq::empty()
    } else if names.len() == 1 {
        names[0]@
    } else if names.len() == 2 {
        names[0]@ + " and "@ + names[1]@
    } else {
        comma_separated(names.drop_last()) + ", and "@ + names.last()@
    }
}

/// Given a list of names, return a conjunction of the names (e.g., "Alice, Bob, and Charlie").
pub fn conjunction(names: Vec<String>) -> (text: String)
    ensures
        text@ == conjunction_of(names@),
{
    let n = names.len();
    if n == 0 {
        return String::new();
    }
    let mut result = names[0].clone();
    if n == 1 {
        return result;
    }
    let mut i: usize = 1;
    assert(names@.take(1).drop_last() =~= Seq::<String>::empty());
    while i < n - 1
        invariant
            n == names.len(),
            n >= 2,
            1 <= i <= n - 1,
            result@ == comma_separated(names@.take(i as int)),
        decreases n - i,
    {
        result.append(", ");
        result.append(names[i].as_str());
        assert(names@.take(i + 1).drop_last() =~= names@.take(i as int));
        i += 1;
    }
    assert(names@.take(n - 1) =~= names@.drop_last());
    if n > 2 {
        result.append(", and ");
    } else {
        result.append(" and ");
    }
    result.append(names[n - 1].as_str());
    result
}

/// A number of files in words: "1 file", and "0 files", "2 files" and so on.
pub open spec fn file_count_text(files: nat) -> Seq<char> {
    if files == 1 {
        decimal(files) + " file"@
    } else {
        decimal(files) + " files"@
    }
}

/// The number of files in words, with the plural for every number but one.
pub fn file_count(files: u64) -> (text: String)
    ensures
        text@ == file_count_text(files as nat),
{
    let mut text = String::new();
    push_decimal(&mut text, files);
    if files == 1 {
        text.append(" file");
    } else {
        text.append(" files");
    }
    assert(text@ =~= file_count_text(files as nat));
    text
}

/// What `char::to_uppercase` yields for a character: its uppercase form,
/// which may be more than one character long.
pub uninterp spec fn to_uppercase(c: char) -> Seq<char>;

/// Calls `char::to_uppercase` and collects what it yields. The contract only
/// names the result: it is a function of the character alone.
#[verifier::external_body]
fn uppercase_of(c: char) -> (upper: String)
    ensures
        upper@ == to_uppercase(c),
{
    c.to_uppercase().collect()
}

/// The text with its first character in uppercase.
pub open spec fn capitalized(s: Seq<char>) -> Seq<char> {
    if s.len() == 0 {
        s
    } else {
        to_uppercase(s[0]) + s.skip(1)
    }
}

/// Capitalize the first letter of a string.
pub fn capitalize(s: &str) -> (text: String)
    ensures
        text@ == capitalized(s@),
{
    let cs = chars_of(s);
    if cs.len() == 0 {
        return String::new();
    }
    let mut result = uppercase_of(cs[0]);
    let ghost head = result@;
    let mut i: usize = 1;
    while i < cs.len()
        invariant
            1 <= i <= cs.len(),
            result@ == head + cs@.subrange(1, i as int),
        decreases cs.len() - i,
    {
        push_char(&mut result, cs[i]);
        assert(cs@.subrange(1, i + 1) =~= cs@.subrange(1, i as int).push(cs@[i as int]));
        i += 1;
    }
    assert(cs@.subrange(1, cs.len() as int) =~= cs@.skip(1));
    result
}

/// The whole seconds of a duration: what `Duration::as_secs` returns.
pub uninterp spec fn whole_seconds(duration: Duration) -> u64;

/// The part of a duration below one second, in nanoseconds: what
/// `Duration::subsec_nanos` returns.
pub uninterp spec fn subsecond_nanos(duration: Duration) -> u32;

/// Calls `Duration::as_secs`, the number of whole seconds.
#[verifier::external_body]
fn as_secs(duration: &Duration) -> (secs: u64)
    ensures
        secs == whole_seconds(*duration),
{
    duration.as_secs()
}

/// Calls `Duration::subsec_nanos`, the fractional part in nanoseconds,
/// which is below one thousand million.
#[verifier::external_body]
fn subsec_nanos(duration: &Duration) -> (nanos: u32)
    ensures
        nanos == subsecond_nanos(*duration),
        nanos < 1_000_000_000,
{
    duration.subsec_nanos()
}

/// The text for a time of `secs` seconds and `nanos` nanoseconds: minutes
/// and seconds from one minute on, seconds with hundredths from one second
/// on, whole milliseconds from one millisecond on, and hundredths of a
/// millisecond below that.
pub open spec fn elapsed_text(secs: nat, nanos: nat) -> Seq<char> {
    if secs >= 60 {
        decimal(secs / 60) + "m "@ + decimal_two(secs % 60) + "s"@
    } else if secs > 0 {
        decimal(secs) + "."@ + decimal_two(nanos / 10_000_000) + "s"@
    } else if nanos / 1_000_000 > 0 {
        decimal(nanos / 1_000_000) + "ms"@
    } else {
        "0."@ + decimal_two(nanos / 10_000) + "ms"@
    }
}

/// Format a duration as a human-readable string, Cargo-style.
pub fn elapsed(duration: Duration) -> (text: String)
    ensures
        text@ == elapsed_text(
            whole_seconds(duration) as nat,
            subsecond_nanos(duration) as nat,
        ),
{
    let secs: u64 = as_secs(&duration);
    let nanos: u64 = subsec_nanos(&duration) as u64;
    let ms: u64 = nanos / 1_000_000;
    let mut text = String::new();
    if secs >= 60 {
        push_decimal(&mut text, secs / 60);
        text.append("m ");
        push_decimal_two(&mut text, secs % 60);
        text.append("s");
    } else if secs > 0 {
        push_decimal(&mut text, secs);
        text.append(".");
        push_decimal_two(&mut text, nanos / 10_000_000);
        text.append("s");
    } else if ms > 0 {
        push_decimal(&mut text, ms);
        text.append("ms");
    } else {
        text.append("0.");
        push_decimal_two(&mut text, nanos / 10_000);
        text.append("ms");
    }
    assert(text@ =~= elapsed_text(secs as nat, nanos as nat));
    text
}

} // verus!
