//! The display sink: the text of each line that goes to the operator.
//!
//! A line ends with a carriage return, as a terminal in raw mode needs it. The
//! line feed after it is left to whoever prints the line.

use crate::sanitize::terminal_safe;
use crate::stats::KindStats;
use crate::std_specs::{control_code, white_space};
use vstd::prelude::*;
use vstd::string::*;

verus! {

/// The character of the decimal digit `d`.
pub open spec fn digit(d: nat) -> char
    recommends
        d < 10,
{
    ('0' as nat + d) as char
}

/// The decimal numeral of `n`, without leading zeros.
pub open spec fn decimal(n: nat) -> Seq<char>
    decreases n,
{
    if n < 10 {
        seq![digit(n)]
    } else {
        decimal(n / 10).push(digit(n % 10))
    }
}

/// The number that the digits of `numeral` stand for.
pub open spec fn numeral_value(numeral: Seq<char>) -> nat
    decreases numeral.len(),
{
    if numeral.len() == 0 {
        0
    } else {
        (numeral_value(numeral.drop_last()) * 10 + (numeral.last() as nat - '0' as nat)) as nat
    }
}

/// `text` with a carriage return put before every line feed.
pub open spec fn crlf_normalized(text: Seq<char>) -> Seq<char>
    decreases text.len(),
{
    if text.len() == 0 {
        Seq::empty()
    } else if text.last() == '\n' {
        crlf_normalized(text.drop_last()).push('\r').push('\n')
    } else {
        crlf_normalized(text.drop_last()).push(text.last())
    }
}

/// Whether every line feed of `text` stands right behind a carriage return.
pub open spec fn line_feeds_follow_returns(text: Seq<char>) -> bool {
    forall|i: int|
        0 <= i < text.len() && #[trigger] text[i] == '\n' ==> i > 0 && text[i - 1] == '\r'
}

/// The line shown for one event: its kind and, where `content` is present, the
/// content after it.
pub open spec fn event_line(kind: u64, content: Option<Seq<char>>) -> Seq<char> {
    match content {
        Some(text) => "Kind "@ + decimal(kind as nat) + " => "@ + crlf_normalized(text) + "\r"@,
        None => "Kind "@ + decimal(kind as nat) + "\r"@,
    }
}

/// The text of one counter.
pub open spec fn stats_text(stats: KindStats) -> Seq<char> {
    "seen: "@ + decimal(stats.seen as nat)
}

/// The summary line of one kind.
pub open spec fn summary_line(kind: u64, stats: KindStats) -> Seq<char> {
    "Kind "@ + decimal(kind as nat) + " => "@ + stats_text(stats) + "\r"@
}

/// The summary of `entries`: one line for each, in their order.
pub open spec fn summary_lines(entries: Seq<(u64, KindStats)>) -> Seq<Seq<char>> {
    Seq::new(entries.len(), |i: int| summary_line(entries[i].0, entries[i].1))
}

/// The texts of `lines`.
pub open spec fn texts(lines: Seq<String>) -> Seq<Seq<char>> {
    Seq::new(lines.len(), |i: int| lines[i]@)
}

/// The character of the decimal digit `d`.
fn digit_char(d: u8) -> (c: char)
    requires
        d < 10,
    ensures
        c == digit(d as nat),
{
    (0x30u8 + d) as char
}

/// Appends the decimal numeral of `n` to `out`.
pub fn push_decimal(out: &mut String, n: u64)
    ensures
        final(out)@ == old(out)@ + decimal(n as nat),
    decreases n,
{
    if n >= 10 {
        push_decimal(out, n / 10);
    }
    out.push(digit_char((n % 10) as u8));
}

/// Appends `text` to `out`, putting a carriage return before every line feed.
pub fn push_normalized(out: &mut String, text: &str)
    ensures
        final(out)@ == old(out)@ + crlf_normalized(text@),
{
    for c in it: text.chars()
        invariant
            it.seq() == text@,
            out@ == old(out)@ + crlf_normalized(text@.take(it.index())),
    {
        proof {
            let k = it.index();
            assert(text@.take(k + 1).drop_last() =~= text@.take(k));
        }
        if c == '\n' {
            out.push('\r');
        }
        out.push(c);
    }
    proof {
        assert(text@.take(text@.len() as int) =~= text@);
    }
}

/// Formats the line of one event. `content` is present only where content
/// display is on, and is then already sanitized.
pub fn render_event(kind: u64, content: Option<&str>) -> (line: String)
    ensures
        line@ == event_line(
            kind,
            match content {
                Some(text) => Some(text@),
                None => None,
            },
        ),
{
    let mut line = String::from_str("Kind ");
    push_decimal(&mut line, kind);
    if let Some(text) = content {
        line.append(" => ");
        push_normalized(&mut line, text);
    }
    line.append("\r");
    line
}

/// Formats the summary: one line per entry, in the order of `entries`.
pub fn render_summary(entries: &Vec<(u64, KindStats)>) -> (lines: Vec<String>)
    ensures
        texts(lines@) == summary_lines(entries@),
{
    let mut lines: Vec<String> = Vec::new();
    let mut i: usize = 0;
    while i < entries.len()
        invariant
            i <= entries.len(),
            lines@.len() == i,
            forall|j: int|
                0 <= j < i ==> (#[trigger] lines@[j])@ == summary_line(
                    entries@[j].0,
                    entries@[j].1,
                ),
        decreases entries.len() - i,
    {
        let mut line = String::from_str("Kind ");
        push_decimal(&mut line, entries[i].0);
        line.append(" => ");
        line.append(entries[i].1.to_string().as_str());
        line.append("\r");
        lines.push(line);
        i += 1;
    }
    lines
}

/// A decimal numeral is made of digits, and is never empty.
pub proof fn law_decimal_is_digits(n: nat)
    ensures
        decimal(n).len() >= 1,
        forall|i: int| 0 <= i < decimal(n).len() ==> '0' <= #[trigger] decimal(n)[i] <= '9',
    decreases n,
{
    if n >= 10 {
        law_decimal_is_digits(n / 10);
    }
}

/// A decimal numeral reads back as the number it was made from.
pub proof fn law_decimal_reads_back(n: nat)
    ensures
        numeral_value(decimal(n)) == n,
    decreases n,
{
    let numeral = decimal(n);
    assert(numeral.last() as nat - '0' as nat == n % 10);
    if n < 10 {
        assert(numeral_value(numeral.drop_last()) == 0);
    } else {
        law_decimal_reads_back(n / 10);
        assert(numeral.drop_last() =~= decimal(n / 10));
    }
}

/// A decimal numeral has no leading zero, but for zero itself.
pub proof fn law_decimal_has_no_leading_zero(n: nat)
    ensures
        n > 0 ==> decimal(n)[0] != '0',
        n == 0 ==> decimal(n) == seq!['0'],
    decreases n,
{
    if n >= 10 {
        law_decimal_has_no_leading_zero(n / 10);
        law_decimal_is_digits(n / 10);
    }
}

/// In a normalized text every line feed stands right behind a carriage return.
pub proof fn law_normalized_line_feeds(text: Seq<char>)
    ensures
        line_feeds_follow_returns(crlf_normalized(text)),
    decreases text.len(),
{
    if text.len() > 0 {
        let front = crlf_normalized(text.drop_last());
        let whole = crlf_normalized(text);
        law_normalized_line_feeds(text.drop_last());
        assert forall|i: int| 0 <= i < whole.len() && #[trigger] whole[i] == '\n' implies i > 0
            && whole[i - 1] == '\r' by {
            if i < front.len() {
                assert(whole[i] == front[i]);
                assert(whole[i - 1] == front[i - 1]);
            }
        }
    }
}

/// In the line of an event every line feed stands right behind a carriage
/// return, whatever the content holds, and the line ends with a carriage
/// return.
pub proof fn law_event_line_suits_raw_mode(kind: u64, content: Option<Seq<char>>)
    ensures
        line_feeds_follow_returns(event_line(kind, content)),
        event_line(kind, content).len() > 0,
        event_line(kind, content).last() == '\r',
{
    reveal_strlit("Kind ");
    reveal_strlit(" => ");
    reveal_strlit("\r");
    law_decimal_is_digits(kind as nat);
    let line = event_line(kind, content);
    let head = "Kind "@ + decimal(kind as nat);
    match content {
        Some(text) => {
            let body = crlf_normalized(text);
            let before = head + " => "@;
            law_normalized_line_feeds(text);
            assert forall|i: int| 0 <= i < line.len() && #[trigger] line[i] == '\n' implies i > 0
                && line[i - 1] == '\r' by {
                if i < before.len() {
                    assert(line[i] == before[i]);
                } else if i < before.len() + body.len() {
                    let k = i - before.len();
                    assert(line[i] == body[k]);
                    assert(k > 0 && body[k - 1] == '\r');
                    assert(line[i - 1] == body[k - 1]);
                }
            }
        },
        None => {
            assert forall|i: int| 0 <= i < line.len() && #[trigger] line[i] == '\n' implies i > 0
                && line[i - 1] == '\r' by {
                if i < head.len() {
                    assert(line[i] == head[i]);
                }
            }
        },
    }
}

/// Normalizing keeps a safe text safe.
pub proof fn law_normalized_stays_safe(text: Seq<char>)
    requires
        terminal_safe(text),
    ensures
        terminal_safe(crlf_normalized(text)),
    decreases text.len(),
{
    if text.len() > 0 {
        let front = text.drop_last();
        assert(terminal_safe(front)) by {
            assert forall|i: int| 0 <= i < front.len() implies !control_code(#[trigger] front[i])
                || white_space(front[i]) by {
                assert(front[i] == text[i]);
            }
        }
        law_normalized_stays_safe(front);
    }
}

/// The line of an event whose content is safe is safe: no control character
/// but whitespace reaches the terminal.
pub proof fn law_event_line_is_safe(kind: u64, content: Option<Seq<char>>)
    requires
        content matches Some(text) ==> terminal_safe(text),
    ensures
        terminal_safe(event_line(kind, content)),
{
    reveal_strlit("Kind ");
    reveal_strlit(" => ");
    reveal_strlit("\r");
    law_decimal_is_digits(kind as nat);
    if let Some(text) = content {
        law_normalized_stays_safe(text);
    }
}

/// A summary line is safe.
pub proof fn law_summary_line_is_safe(kind: u64, stats: KindStats)
    ensures
        terminal_safe(summary_line(kind, stats)),
{
    reveal_strlit("Kind ");
    reveal_strlit(" => ");
    reveal_strlit("seen: ");
    reveal_strlit("\r");
    law_decimal_is_digits(kind as nat);
    law_decimal_is_digits(stats.seen as nat);
}

} // verus!
