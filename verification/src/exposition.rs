//! The text exposition format.
//!
//! The format is defined here as functions on sequences of characters; the
//! executable functions write exactly that text.

use crate::buffer::TextBuffer;
use crate::model::{DeviceIdentityView, StorageStatusView};
use crate::observation::{observed, samples_of, Metric, Observation, Sample};
use vstd::prelude::*;
use vstd::string::*;

verus! {

/// The decimal digit for a number below ten.
pub open spec fn digit(d: nat) -> char {
    if d == 0 {
        '0'
    } else if d == 1 {
        '1'
    } else if d == 2 {
        '2'
    } else if d == 3 {
        '3'
    } else if d == 4 {
        '4'
    } else if d == 5 {
        '5'
    } else if d == 6 {
        '6'
    } else if d == 7 {
        '7'
    } else if d == 8 {
        '8'
    } else {
        '9'
    }
}

/// A number in decimal, without sign and without leading zeros.
pub open spec fn decimal(n: nat) -> Seq<char>
    decreases n,
{
    if n < 10 {
        seq![digit(n)]
    } else {
        decimal(n / 10).push(digit(n % 10))
    }
}

/// How one character of a label value is written: a backslash, a double
/// quote and a line feed are escaped, every other character stands for
/// itself.
pub open spec fn escape(c: char) -> Seq<char> {
    if c == '\\' {
        seq!['\\', '\\']
    } else if c == '"' {
        seq!['\\', '"']
    } else if c == '\n' {
        seq!['\\', 'n']
    } else {
        seq![c]
    }
}

/// A label value as it is written between the double quotes.
pub open spec fn escaped(value: Seq<char>) -> Seq<char>
    decreases value.len(),
{
    if value.len() == 0 {
        Seq::empty()
    } else {
        escape(value.first()) + escaped(value.drop_first())
    }
}

/// The line that declares a metric as a gauge.
pub open spec fn type_line(metric: Metric) -> Seq<char> {
    "# TYPE "@ + metric.spec_name() + " gauge\n"@
}

/// The line that gives one sample.
pub open spec fn sample_line(sample: Sample) -> Seq<char> {
    sample.metric.spec_name() + "{name=\""@ + escaped(sample.name) + "\"} "@ + decimal(
        sample.value as nat,
    ) + "\n"@
}

/// The sample lines of one metric, in the order of the samples.
pub open spec fn sample_lines(metric: Metric, samples: Seq<Sample>) -> Seq<char>
    decreases samples.len(),
{
    if samples.len() == 0 {
        Seq::empty()
    } else if samples.last().metric == metric {
        sample_lines(metric, samples.drop_last()) + sample_line(samples.last())
    } else {
        sample_lines(metric, samples.drop_last())
    }
}

/// The block of one metric: its type line, its sample lines and an empty
/// line. A metric without samples has no block.
pub open spec fn family(metric: Metric, samples: Seq<Sample>) -> Seq<char> {
    if sample_lines(metric, samples).len() == 0 {
        Seq::empty()
    } else {
        type_line(metric) + sample_lines(metric, samples) + "\n"@
    }
}

/// The exposition of a set of samples: the blocks of the three metrics, in
/// the fixed order total, free, used.
pub open spec fn exposition(samples: Seq<Sample>) -> Seq<char> {
    family(Metric::TotalVolumeSize, samples) + family(Metric::FreeVolumeSize, samples) + family(
        Metric::UsedVolumeSize,
        samples,
    )
}

/// The block of a single sample.
pub open spec fn block(sample: Sample) -> Seq<char> {
    type_line(sample.metric) + sample_line(sample) + "\n"@
}

/// The text for one device: the blocks of its three observations.
pub open spec fn device_text(identity: DeviceIdentityView, storage: StorageStatusView) -> Seq<
    char,
> {
    block(observed(identity, storage)[0]) + block(observed(identity, storage)[1]) + block(
        observed(identity, storage)[2],
    )
}

/// Escaping distributes over concatenation.
pub proof fn lemma_escaped_concat(a: Seq<char>, b: Seq<char>)
    ensures
        escaped(a + b) == escaped(a) + escaped(b),
    decreases a.len(),
{
    if a.len() == 0 {
        assert(a + b =~= b);
        assert(escaped(a) + escaped(b) =~= escaped(b));
    } else {
        lemma_escaped_concat(a.drop_first(), b);
        assert((a + b).drop_first() =~= a.drop_first() + b);
        assert(escaped(a + b) =~= escaped(a) + escaped(b));
    }
}

/// A single character is written as its escape.
pub proof fn lemma_escaped_single(c: char)
    ensures
        escaped(seq![c]) == escape(c),
{
    assert(seq![c].drop_first() =~= Seq::<char>::empty());
    assert(escaped(seq![c].drop_first()) =~= Seq::<char>::empty());
    assert(escaped(seq![c]) =~= escape(c));
}

fn digit_str(d: u64) -> (s: &'static str)
    requires
        d < 10,
    ensures
        s@ == seq![digit(d as nat)],
{
    proof {
        reveal_strlit("0");
        reveal_strlit("1");
        reveal_strlit("2");
        reveal_strlit("3");
        reveal_strlit("4");
        reveal_strlit("5");
        reveal_strlit("6");
        reveal_strlit("7");
        reveal_strlit("8");
        reveal_strlit("9");
    }
    let s = if d == 0 {
        "0"
    } else if d == 1 {
        "1"
    } else if d == 2 {
        "2"
    } else if d == 3 {
        "3"
    } else if d == 4 {
        "4"
    } else if d == 5 {
        "5"
    } else if d == 6 {
        "6"
    } else if d == 7 {
        "7"
    } else if d == 8 {
        "8"
    } else {
        "9"
    };
    assert(s@ =~= seq![digit(d as nat)]);
    s
}

/// Writes a number in decimal.
pub fn write_decimal(buffer: TextBuffer, n: u64) -> (out: TextBuffer)
    ensures
        out@ == buffer@ + decimal(n as nat),
    decreases n,
{
    let head = if n >= 10 {
        write_decimal(buffer, n / 10)
    } else {
        buffer
    };
    let out = head.push_str(digit_str(n % 10));
    assert(out@ =~= buffer@ + decimal(n as nat));
    out
}

/// Writes a label value, escaped.
pub fn write_escaped(buffer: TextBuffer, value: &str) -> (out: TextBuffer)
    ensures
        out@ == buffer@ + escaped(value@),
{
    let ghost base = buffer@;
    let len = value.unicode_len();
    let mut out = buffer;
    let mut i: usize = 0;
    assert(value@.subrange(0, 0) =~= Seq::<char>::empty());
    assert(out@ =~= base + escaped(value@.subrange(0, 0)));
    while i < len
        invariant
            i <= len,
            len == value@.len(),
            out@ == base + escaped(value@.subrange(0, i as int)),
        decreases len - i,
    {
        let c = value.get_char(i);
        proof {
            reveal_strlit("\\\\");
            reveal_strlit("\\\"");
            reveal_strlit("\\n");
            lemma_escaped_concat(value@.subrange(0, i as int), seq![c]);
            assert(value@.subrange(0, i + 1) =~= value@.subrange(0, i as int) + seq![c]);
            lemma_escaped_single(c);
            assert(value@.subrange(i as int, i + 1) =~= seq![c]);
        }
        let ghost before = out@;
        out = if c == '\\' {
            out.push_str("\\\\")
        } else if c == '"' {
            out.push_str("\\\"")
        } else if c == '\n' {
            out.push_str("\\n")
        } else {
            out.push_str(value.substring_char(i, i + 1))
        };
        assert(out@ =~= before + escape(c));
        i = i + 1;
    }
    assert(value@.subrange(0, len as int) =~= value@);
    out
}

/// Writes the line that declares a metric as a gauge.
pub fn write_type_line(buffer: TextBuffer, metric: Metric) -> (out: TextBuffer)
    ensures
        out@ == buffer@ + type_line(metric),
{
    let out = buffer.push_str("# TYPE ").push_str(metric.name()).push_str(" gauge\n");
    assert(out@ =~= buffer@ + type_line(metric));
    out
}

/// Writes the line of one observation.
pub fn write_sample_line(buffer: TextBuffer, observation: &Observation) -> (out: TextBuffer)
    ensures
        out@ == buffer@ + sample_line(observation@),
{
    let out = buffer.push_str(observation.metric.name()).push_str("{name=\"");
    let out = write_escaped(out, observation.name.as_str()).push_str("\"} ");
    let out = write_decimal(out, observation.value).push_str("\n");
    assert(out@ =~= buffer@ + sample_line(observation@));
    out
}

fn write_sample_lines(buffer: TextBuffer, metric: Metric, observations: &Vec<Observation>) -> (out:
    TextBuffer)
    ensures
        out@ == buffer@ + sample_lines(metric, samples_of(observations@)),
{
    let ghost base = buffer@;
    let ghost samples = samples_of(observations@);
    let mut out = buffer;
    let mut i: usize = 0;
    assert(out@ =~= base + sample_lines(metric, samples.subrange(0, 0)));
    while i < observations.len()
        invariant
            i <= observations.len(),
            samples == samples_of(observations@),
            out@ == base + sample_lines(metric, samples.subrange(0, i as int)),
        decreases observations.len() - i,
    {
        let ghost before = out@;
        proof {
            assert(samples.subrange(0, i + 1).drop_last() =~= samples.subrange(0, i as int));
            assert(samples.subrange(0, i + 1).last() == observations@[i as int]@);
        }
        if observations[i].metric == metric {
            out = write_sample_line(out, &observations[i]);
        }
        assert(out@ =~= base + sample_lines(metric, samples.subrange(0, i + 1)));
        i = i + 1;
    }
    assert(samples.subrange(0, i as int) =~= samples);
    out
}

fn write_family(buffer: TextBuffer, metric: Metric, observations: &Vec<Observation>) -> (out:
    TextBuffer)
    ensures
        out@ == buffer@ + family(metric, samples_of(observations@)),
{
    let lines = write_sample_lines(TextBuffer::new(), metric, observations).finish();
    assert(lines@ =~= sample_lines(metric, samples_of(observations@)));
    if lines.as_str().is_empty() {
        assert(buffer@ =~= buffer@ + family(metric, samples_of(observations@)));
        buffer
    } else {
        let out = write_type_line(buffer, metric).push_str(lines.as_str()).push_str("\n");
        assert(out@ =~= buffer@ + family(metric, samples_of(observations@)));
        out
    }
}

/// Renders observations in the text exposition format.
pub fn render(observations: &Vec<Observation>) -> (text: String)
    ensures
        text@ == exposition(samples_of(observations@)),
{
    let out = write_family(TextBuffer::new(), Metric::TotalVolumeSize, observations);
    let out = write_family(out, Metric::FreeVolumeSize, observations);
    let out = write_family(out, Metric::UsedVolumeSize, observations);
    let text = out.finish();
    assert(text@ =~= exposition(samples_of(observations@)));
    text
}

/// The observations of one device are rendered as three blocks, one for the
/// total, one for the free and one for the used volume size, each made of the
/// type line, the sample line and an empty line.
pub proof fn lemma_exposition_of_device(identity: DeviceIdentityView, storage: StorageStatusView)
    ensures
        exposition(observed(identity, storage)) == device_text(identity, storage),
{
    let samples = observed(identity, storage);
    reveal_strlit("\n");
    reveal_with_fuel(sample_lines, 4);
    let two = samples.drop_last();
    let one = two.drop_last();
    assert(one.drop_last() =~= Seq::<Sample>::empty());
    assert(two.last() == samples[1]);
    assert(one.last() == samples[0]);
    assert(sample_lines(Metric::TotalVolumeSize, samples) =~= sample_line(samples[0]));
    assert(sample_lines(Metric::FreeVolumeSize, samples) =~= sample_line(samples[1]));
    assert(sample_lines(Metric::UsedVolumeSize, samples) =~= sample_line(samples[2]));
    assert(sample_line(samples[0]).len() > 0);
    assert(sample_line(samples[1]).len() > 0);
    assert(sample_line(samples[2]).len() > 0);
}

/// Reads a quoted label value as a parser of the exposition format does,
/// starting behind the opening double quote: up to the closing double quote,
/// with `\\`, `\"` and `\n` standing for a backslash, a double quote and a
/// line feed. The result is the value and the text that follows the closing
/// quote; a value that does not end, an unknown escape or a bare line feed
/// gives `None`.
pub open spec fn unquoted(text: Seq<char>) -> Option<(Seq<char>, Seq<char>)>
    decreases text.len(),
{
    if text.len() == 0 {
        None
    } else if text[0] == '"' {
        Some((Seq::empty(), text.drop_first()))
    } else if text[0] == '\n' {
        None
    } else if text[0] == '\\' {
        if text.len() < 2 || unescape(text[1]) is None {
            None
        } else {
            match unquoted(text.skip(2)) {
                Some((value, rest)) => Some((seq![unescape(text[1])->0] + value, rest)),
                None => None,
            }
        }
    } else {
        match unquoted(text.drop_first()) {
            Some((value, rest)) => Some((seq![text[0]] + value, rest)),
            None => None,
        }
    }
}

/// The character that stands behind a backslash, decoded.
pub open spec fn unescape(c: char) -> Option<char> {
    if c == '\\' {
        Some('\\')
    } else if c == '"' {
        Some('"')
    } else if c == 'n' {
        Some('\n')
    } else {
        None
    }
}

/// Whatever the name of a device is, a parser that reads its escaped form up
/// to the closing quote gets the name back, character for character, and
/// stops exactly behind that quote.
pub proof fn lemma_escaped_label_reads_back(value: Seq<char>, rest: Seq<char>)
    ensures
        unquoted(escaped(value) + seq!['"'] + rest) == Some((value, rest)),
    decreases value.len(),
{
    let text = escaped(value) + seq!['"'] + rest;
    if value.len() == 0 {
        assert(text.drop_first() =~= rest);
    } else {
        let c = value.first();
        let tail = escaped(value.drop_first()) + seq!['"'] + rest;
        lemma_escaped_label_reads_back(value.drop_first(), rest);
        assert(text =~= escape(c) + tail);
        if c == '\\' || c == '"' || c == '\n' {
            assert(text.skip(2) =~= tail);
        } else {
            assert(text.drop_first() =~= tail);
        }
        assert(seq![c] + value.drop_first() =~= value);
    }
}

/// In a sample line, the text behind the opening quote of the label reads
/// back as the sample's name, followed by the rest of the line.
pub proof fn lemma_sample_line_reads_back(sample: Sample)
    ensures
        sample_line(sample) == sample.metric.spec_name() + "{name=\""@ + (escaped(sample.name)
            + "\"} "@ + decimal(sample.value as nat) + "\n"@),
        unquoted(escaped(sample.name) + "\"} "@ + decimal(sample.value as nat) + "\n"@) == Some(
            (sample.name, "} "@ + decimal(sample.value as nat) + "\n"@),
        ),
{
    reveal_strlit("\"} ");
    reveal_strlit("} ");
    let rest = "} "@ + decimal(sample.value as nat) + "\n"@;
    lemma_escaped_label_reads_back(sample.name, rest);
    assert("\"} "@ =~= seq!['"'] + "} "@);
    assert(escaped(sample.name) + "\"} "@ + decimal(sample.value as nat) + "\n"@ =~= escaped(
        sample.name,
    ) + seq!['"'] + rest);
    assert(sample_line(sample) =~= sample.metric.spec_name() + "{name=\""@ + (escaped(sample.name)
        + "\"} "@ + decimal(sample.value as nat) + "\n"@));
}

/// Whether `part` occurs in `text`, in one piece.
pub open spec fn occurs_in(part: Seq<char>, text: Seq<char>) -> bool {
    exists|before: Seq<char>, after: Seq<char>| text == before + part + after
}

/// The line of every sample of a metric stands among the sample lines of
/// that metric.
pub proof fn lemma_sample_lines_hold(metric: Metric, samples: Seq<Sample>, i: int)
    requires
        0 <= i < samples.len(),
        samples[i].metric == metric,
    ensures
        occurs_in(sample_line(samples[i]), sample_lines(metric, samples)),
    decreases samples.len(),
{
    let line = sample_line(samples[i]);
    let head = sample_lines(metric, samples.drop_last());
    if i == samples.len() - 1 {
        assert(sample_lines(metric, samples) =~= head + line + Seq::<char>::empty());
    } else {
        lemma_sample_lines_hold(metric, samples.drop_last(), i);
        let (before, after) = choose|before: Seq<char>, after: Seq<char>|
            head == before + line + after;
        if samples.last().metric == metric {
            assert(sample_lines(metric, samples) =~= before + line + (after + sample_line(
                samples.last(),
            )));
        } else {
            assert(sample_lines(metric, samples) =~= before + line + after);
        }
    }
}

/// What occurs in a text occurs in every text around it.
pub proof fn lemma_occurs_in_longer(
    part: Seq<char>,
    text: Seq<char>,
    left: Seq<char>,
    right: Seq<char>,
)
    requires
        occurs_in(part, text),
    ensures
        occurs_in(part, left + text + right),
{
    let (before, after) = choose|before: Seq<char>, after: Seq<char>|
        text == before + part + after;
    assert(left + text + right =~= (left + before) + part + (after + right));
}

/// The exposition holds the line of every sample.
pub proof fn lemma_exposition_holds(samples: Seq<Sample>, i: int)
    requires
        0 <= i < samples.len(),
    ensures
        occurs_in(sample_line(samples[i]), exposition(samples)),
{
    let metric = samples[i].metric;
    let line = sample_line(samples[i]);
    let lines = sample_lines(metric, samples);
    let empty = Seq::<char>::empty();
    lemma_sample_lines_hold(metric, samples, i);
    assert(lines.len() > 0) by {
        reveal_strlit("\n");
        let (before, after) = choose|before: Seq<char>, after: Seq<char>|
            lines == before + line + after;
        assert(line.len() > 0);
    }
    lemma_occurs_in_longer(line, lines, type_line(metric), "\n"@);
    let block = family(metric, samples);
    let total = family(Metric::TotalVolumeSize, samples);
    let free = family(Metric::FreeVolumeSize, samples);
    let used = family(Metric::UsedVolumeSize, samples);
    match metric {
        Metric::TotalVolumeSize => {
            lemma_occurs_in_longer(line, block, empty, free + used);
            assert(exposition(samples) =~= empty + block + (free + used));
        },
        Metric::FreeVolumeSize => {
            lemma_occurs_in_longer(line, block, total, used);
        },
        Metric::UsedVolumeSize => {
            lemma_occurs_in_longer(line, block, total + free, empty);
            assert(exposition(samples) =~= (total + free) + block + empty);
        },
    }
}

} // verus!
