//! The host's memory figures, read from the text of its memory report.
//!
//! The report is a sequence of lines, each a label, blanks, a number and
//! perhaps a unit. Two labels matter: the total and the available memory.
//! A total that cannot be read counts as zero, an available figure that
//! cannot be read counts as not read, and either way the sample shows no
//! usage.

use vstd::prelude::*;
use crate::pressure::{usage_of, MemorySample};

verus! {

pub open spec fn is_space(b: u8) -> bool {
    b == 0x20 || (0x09 <= b && b <= 0x0d)
}

pub open spec fn is_digit(b: u8) -> bool {
    0x30 <= b && b <= 0x39
}

/// The bytes of `MemTotal:`.
pub open spec fn total_label() -> Seq<u8> {
    seq![0x4du8, 0x65u8, 0x6du8, 0x54u8, 0x6fu8, 0x74u8, 0x61u8, 0x6cu8, 0x3au8]
}

/// The bytes of `MemAvailable:`.
pub open spec fn available_label() -> Seq<u8> {
    seq![
        0x4du8,
        0x65u8,
        0x6du8,
        0x41u8,
        0x76u8,
        0x61u8,
        0x69u8,
        0x6cu8,
        0x61u8,
        0x62u8,
        0x6cu8,
        0x65u8,
        0x3au8,
    ]
}

/// The end of the line that begins at `from`: the position of the next
/// line feed, or the end of the text.
pub open spec fn line_end(text: Seq<u8>, from: int) -> int
    decreases text.len() - from,
{
    if from >= text.len() {
        text.len() as int
    } else if text[from] == 0x0a {
        from
    } else {
        line_end(text, from + 1)
    }
}

/// The first position in `from..end` that holds no blank, or `end`.
pub open spec fn skip_spaces(text: Seq<u8>, from: int, end: int) -> int
    decreases end - from,
{
    if from >= end {
        end
    } else if !is_space(text[from]) {
        from
    } else {
        skip_spaces(text, from + 1, end)
    }
}

/// The first position in `from..end` that holds a blank, or `end`.
pub open spec fn skip_word(text: Seq<u8>, from: int, end: int) -> int
    decreases end - from,
{
    if from >= end {
        end
    } else if is_space(text[from]) {
        from
    } else {
        skip_word(text, from + 1, end)
    }
}

/// Whether the line `from..end` begins with `label`.
pub open spec fn has_label(text: Seq<u8>, from: int, end: int, label: Seq<u8>) -> bool {
    from + label.len() <= end && text.subrange(from, from + label.len()) == label
}

/// The number that a sequence of decimal digits spells.
pub open spec fn decimal_value(digits: Seq<u8>) -> nat
    decreases digits.len(),
{
    if digits.len() == 0 {
        0
    } else {
        decimal_value(digits.drop_last()) * 10 + (digits.last() - 0x30) as nat
    }
}

pub open spec fn all_digits(s: Seq<u8>) -> bool {
    forall|i: int| 0 <= i < s.len() ==> is_digit(#[trigger] s[i])
}

/// The number that `word` spells: decimal digits, perhaps after a plus
/// sign, with a value that fits 64 bits.
pub open spec fn number_of(word: Seq<u8>) -> Option<u64> {
    let digits = if word.len() > 0 && word[0] == 0x2b {
        word.drop_first()
    } else {
        word
    };
    if digits.len() > 0 && all_digits(digits) && decimal_value(digits) <= u64::MAX {
        Some(decimal_value(digits) as u64)
    } else {
        None
    }
}

/// The figure of the line `from..end`: the number that its second word
/// spells, or `None` where there is no such word or it spells no number.
pub open spec fn figure_of(text: Seq<u8>, from: int, end: int) -> Option<u64> {
    let first = skip_spaces(text, from, end);
    let gap = skip_word(text, first, end);
    let second = skip_spaces(text, gap, end);
    let stop = skip_word(text, second, end);
    number_of(text.subrange(second, stop))
}

/// The sample after the line `from..end` has been read into `seen`: a
/// line with one of the two labels replaces what was seen of its figure.
pub open spec fn with_line(text: Seq<u8>, from: int, end: int, seen: MemorySample)
    -> MemorySample {
    if has_label(text, from, end, total_label()) {
        MemorySample {
            total: match figure_of(text, from, end) {
                Some(n) => n,
                None => 0,
            },
            available: seen.available,
        }
    } else if has_label(text, from, end, available_label()) {
        MemorySample { total: seen.total, available: figure_of(text, from, end) }
    } else {
        seen
    }
}

/// Whether both figures of the sample were read and are positive.
pub open spec fn both_positive(sample: MemorySample) -> bool {
    &&& sample.total > 0
    &&& sample.available matches Some(available)
    &&& available > 0
}

/// The sample after the lines from position `from` on have been read
/// into `seen`. Reading stops at the first line after which both figures
/// are positive, and at the last line.
pub open spec fn scan_from(text: Seq<u8>, from: int, seen: MemorySample) -> MemorySample
    decreases text.len() - from,
    via scan_from_terminates
{
    if from >= text.len() {
        seen
    } else {
        let end = line_end(text, from);
        let next = with_line(text, from, end, seen);
        if both_positive(next) || end >= text.len() {
            next
        } else {
            scan_from(text, end + 1, next)
        }
    }
}

#[via_fn]
proof fn scan_from_terminates(text: Seq<u8>, from: int, seen: MemorySample) {
    if from < text.len() {
        lemma_line_end_bounds(text, from);
    }
}

/// The sample that a memory report gives.
pub open spec fn sample_of(text: Seq<u8>) -> MemorySample {
    scan_from(text, 0, MemorySample { total: 0, available: None })
}

proof fn lemma_line_end_bounds(text: Seq<u8>, from: int)
    requires
        from <= text.len(),
    ensures
        from <= line_end(text, from) <= text.len(),
    decreases text.len() - from,
{
    if from < text.len() && text[from] != 0x0a {
        lemma_line_end_bounds(text, from + 1);
    }
}

/// A report in which no line bears the label of the available figure
/// leaves that figure as it was seen before: unread, if it was unread.
pub proof fn lemma_without_available_line(text: Seq<u8>, from: int, seen: MemorySample)
    requires
        0 <= from,
        forall|a: int, b: int|
            0 <= a <= b <= text.len() ==> !has_label(text, a, b, available_label()),
    ensures
        scan_from(text, from, seen).available == seen.available,
    decreases text.len() - from,
{
    if from < text.len() {
        lemma_line_end_bounds(text, from);
        let end = line_end(text, from);
        let next = with_line(text, from, end, seen);
        assert(!has_label(text, from, end, available_label()));
        if !(both_positive(next) || end >= text.len()) {
            lemma_without_available_line(text, end + 1, next);
        }
    }
}

/// A report without a line for the available figure shows no usage,
/// whatever it says of the total.
pub proof fn lemma_missing_available_shows_no_usage(text: Seq<u8>)
    requires
        forall|a: int, b: int|
            0 <= a <= b <= text.len() ==> !has_label(text, a, b, available_label()),
    ensures
        sample_of(text).available is None,
        usage_of(sample_of(text)) == 0,
{
    lemma_without_available_line(text, 0, MemorySample { total: 0, available: None });
}

/// A longer run of digits never spells a smaller number.
proof fn lemma_value_grows(digits: Seq<u8>, shorter: int)
    requires
        0 <= shorter <= digits.len(),
        all_digits(digits),
    ensures
        decimal_value(digits.take(shorter)) <= decimal_value(digits),
    decreases digits.len() - shorter,
{
    if shorter == digits.len() {
        assert(digits.take(shorter) =~= digits);
    } else {
        lemma_value_grows(digits, shorter + 1);
        let longer = digits.take(shorter + 1);
        assert(longer.drop_last() =~= digits.take(shorter));
        assert(is_digit(digits[shorter]));
        assert(longer.last() == digits[shorter]);
    }
}

fn find_line_end(text: &[u8], from: usize) -> (end: usize)
    requires
        from <= text@.len(),
    ensures
        end == line_end(text@, from as int),
        from <= end <= text@.len(),
{
    let mut at: usize = from;
    while at < text.len() && text[at] != 0x0a
        invariant
            from <= at <= text@.len(),
            line_end(text@, from as int) == line_end(text@, at as int),
        decreases text@.len() - at,
    {
        at = at + 1;
    }
    at
}

fn byte_is_space(b: u8) -> (r: bool)
    ensures
        r == is_space(b),
{
    b == 0x20 || (0x09 <= b && b <= 0x0d)
}

fn pass_spaces(text: &[u8], from: usize, end: usize) -> (at: usize)
    requires
        from <= end <= text@.len(),
    ensures
        at == skip_spaces(text@, from as int, end as int),
        from <= at <= end,
{
    let mut at: usize = from;
    while at < end && byte_is_space(text[at])
        invariant
            from <= at <= end <= text@.len(),
            skip_spaces(text@, from as int, end as int) == skip_spaces(
                text@,
                at as int,
                end as int,
            ),
        decreases end - at,
    {
        at = at + 1;
    }
    at
}

fn pass_word(text: &[u8], from: usize, end: usize) -> (at: usize)
    requires
        from <= end <= text@.len(),
    ensures
        at == skip_word(text@, from as int, end as int),
        from <= at <= end,
{
    let mut at: usize = from;
    while at < end && !byte_is_space(text[at])
        invariant
            from <= at <= end <= text@.len(),
            skip_word(text@, from as int, end as int) == skip_word(text@, at as int, end as int),
        decreases end - at,
    {
        at = at + 1;
    }
    at
}

fn begins_with(text: &[u8], from: usize, end: usize, label: &[u8]) -> (r: bool)
    requires
        from <= end <= text@.len(),
    ensures
        r == has_label(text@, from as int, end as int, label@),
{
    if label.len() > end - from {
        return false;
    }
    let mut i: usize = 0;
    while i < label.len()
        invariant
            i <= label@.len(),
            from + label@.len() <= end <= text@.len(),
            forall|k: int| 0 <= k < i ==> text@[from + k] == label@[k],
        decreases label@.len() - i,
    {
        if text[from + i] != label[i] {
            assert(text@.subrange(from as int, from + label@.len())[i as int] != label@[i as int]);
            return false;
        }
        i = i + 1;
    }
    assert(text@.subrange(from as int, from + label@.len()) =~= label@);
    true
}

/// Reads the number that the word `from..end` spells.
fn read_number(text: &[u8], from: usize, end: usize) -> (n: Option<u64>)
    requires
        from <= end <= text@.len(),
    ensures
        n == number_of(text@.subrange(from as int, end as int)),
{
    let ghost word = text@.subrange(from as int, end as int);
    let start: usize = if from < end && text[from] == 0x2b {
        from + 1
    } else {
        from
    };
    let ghost digits = text@.subrange(start as int, end as int);
    assert(digits =~= (if word.len() > 0 && word[0] == 0x2b {
        word.drop_first()
    } else {
        word
    }));
    if start == end {
        return None;
    }
    let mut value: u64 = 0;
    let mut at: usize = start;
    assert(digits.take(0) =~= Seq::<u8>::empty());
    while at < end
        invariant
            start <= at <= end <= text@.len(),
            start < end,
            word == text@.subrange(from as int, end as int),
            digits == text@.subrange(start as int, end as int),
            digits == (if word.len() > 0 && word[0] == 0x2b {
                word.drop_first()
            } else {
                word
            }),
            all_digits(digits.take(at - start)),
            value == decimal_value(digits.take(at - start)),
        decreases end - at,
    {
        let b: u8 = text[at];
        let ghost longer = digits.take(at - start + 1);
        assert(longer.drop_last() =~= digits.take(at - start));
        assert(longer.last() == b);
        if !(0x30 <= b && b <= 0x39) {
            assert(!is_digit(digits[at - start]));
            return None;
        }
        assert(all_digits(longer)) by {
            assert forall|i: int| 0 <= i < longer.len() implies is_digit(#[trigger] longer[i]) by {
                if i < at - start {
                    assert(longer[i] == digits.take(at - start)[i]);
                }
            }
        }
        let d: u64 = (b - 0x30) as u64;
        if value > (u64::MAX - d) / 10 {
            proof {
                assert(decimal_value(longer) > u64::MAX);
                if all_digits(digits) {
                    lemma_value_grows(digits, at - start + 1);
                }
            }
            return None;
        }
        value = value * 10 + d;
        at = at + 1;
    }
    assert(digits.take(at - start) =~= digits);
    Some(value)
}

/// Reads the figure of the line `from..end`.
fn read_figure(text: &[u8], from: usize, end: usize) -> (n: Option<u64>)
    requires
        from <= end <= text@.len(),
    ensures
        n == figure_of(text@, from as int, end as int),
{
    let first: usize = pass_spaces(text, from, end);
    let gap: usize = pass_word(text, first, end);
    let second: usize = pass_spaces(text, gap, end);
    let stop: usize = pass_word(text, second, end);
    read_number(text, second, stop)
}

fn total_label_bytes() -> (label: [u8; 9])
    ensures
        label@ == total_label(),
{
    let label: [u8; 9] = [0x4d, 0x65, 0x6d, 0x54, 0x6f, 0x74, 0x61, 0x6c, 0x3a];
    assert(label@ =~= total_label());
    label
}

fn available_label_bytes() -> (label: [u8; 13])
    ensures
        label@ == available_label(),
{
    let label: [u8; 13] = [
        0x4d,
        0x65,
        0x6d,
        0x41,
        0x76,
        0x61,
        0x69,
        0x6c,
        0x61,
        0x62,
        0x6c,
        0x65,
        0x3a,
    ];
    assert(label@ =~= available_label());
    label
}

/// Reads total and available memory from the text of a memory report.
pub fn parse_meminfo(text: &[u8]) -> (sample: MemorySample)
    ensures
        sample == sample_of(text@),
{
    let total_label = total_label_bytes();
    let available_label = available_label_bytes();
    let mut seen = MemorySample { total: 0, available: None };
    let mut from: usize = 0;
    while from < text.len()
        invariant
            from <= text@.len(),
            total_label@ == self::total_label(),
            available_label@ == self::available_label(),
            sample_of(text@) == scan_from(text@, from as int, seen),
        decreases text@.len() - from,
    {
        let end: usize = find_line_end(text, from);
        let ghost before = seen;
        if begins_with(text, from, end, total_label.as_slice()) {
            let total: u64 = match read_figure(text, from, end) {
                Some(n) => n,
                None => 0,
            };
            seen = MemorySample { total, available: seen.available };
        } else if begins_with(text, from, end, available_label.as_slice()) {
            seen = MemorySample { total: seen.total, available: read_figure(text, from, end) };
        }
        assert(seen == with_line(text@, from as int, end as int, before));
        let settled: bool = match seen.available {
            Some(available) => seen.total > 0 && available > 0,
            None => false,
        };
        if settled {
            return seen;
        }
        if end == text.len() {
            return seen;
        }
        from = end + 1;
    }
    seen
}

} // verus!
