//! Plaintext metrics exposition: renders a single integer gauge in the
//! standard text format that scrapers read — a help line, a type line, and a
//! sample line holding the metric's name and its current value in decimal.

use vstd::prelude::*;
use vstd::string::StringExecFns;
use vstd::arithmetic::div_mod::lemma_div_denominator;
use crate::sink::MetricSink;

verus! {

/// The character for one decimal digit.
pub open spec fn digit_char(d: int) -> char {
    if d == 0 {
        '0'
    } else if d == 1 {
        '1'
    } else if d == 2 {
        '2'
    } else if d == 3 {
        '3'
    } else if d == 4 {
        '4'
    } else if d == 5 {
        '5'
    } else if d == 6 {
        '6'
    } else if d == 7 {
        '7'
    } else if d == 8 {
        '8'
    } else {
        '9'
    }
}

/// The decimal rendering of a non-negative integer, most significant digit
/// first, with no leading zeros (a lone zero renders as "0").
pub open spec fn decimal_spec(v: int) -> Seq<char>
    decreases v,
{
    if v < 10 {
        seq![digit_char(v)]
    } else {
        decimal_spec(v / 10).push(digit_char(v % 10))
    }
}

/// The digit character for a value below ten.
pub(crate) fn digit_str(d: u8) -> (r: &'static str)
    requires
        d < 10,
    ensures
        r@ == seq![digit_char(d as int)],
{
    proof {
        reveal_strlit("0");
        reveal_strlit("1");
        reveal_strlit("2");
        reveal_strlit("3");
        reveal_strlit("4");
        reveal_strlit("5");
        reveal_strlit("6");
        reveal_strlit("7");
        reveal_strlit("8");
        reveal_strlit("9");
    }
    match d {
        0 => "0",
        1 => "1",
        2 => "2",
        3 => "3",
        4 => "4",
        5 => "5",
        6 => "6",
        7 => "7",
        8 => "8",
        _ => "9",
    }
}

/// Render a one-byte value in decimal.
pub fn u8_decimal(v: u8) -> (s: String)
    ensures
        s@ == decimal_spec(v as int),
{
    let hundreds: u8 = v / 100;
    let tens: u8 = (v / 10) % 10;
    let ones: u8 = v % 10;
    let mut s = String::new();
    if v >= 100 {
        s.append(digit_str(hundreds));
    }
    if v >= 10 {
        s.append(digit_str(tens));
    }
    s.append(digit_str(ones));
    proof {
        let vi = v as int;
        if vi >= 100 {
            lemma_div_denominator(vi, 10, 10);
            assert(vi / 10 / 10 == vi / 100);
            assert(vi / 100 < 10);
            assert(decimal_spec(vi / 100) == seq![digit_char(vi / 100)]);
            assert(decimal_spec(vi / 10) == decimal_spec(vi / 100).push(digit_char(vi / 10 % 10)));
            assert(decimal_spec(vi) == decimal_spec(vi / 10).push(digit_char(vi % 10)));
            let expected = seq![
                digit_char(vi / 100),
                digit_char(vi / 10 % 10),
                digit_char(vi % 10),
            ];
            assert(decimal_spec(vi) =~= expected);
            assert(s@ =~= expected);
        } else if vi >= 10 {
            assert(vi / 10 < 10);
            assert(vi / 10 % 10 == vi / 10);
            assert(decimal_spec(vi / 10) == seq![digit_char(vi / 10)]);
            assert(decimal_spec(vi) == decimal_spec(vi / 10).push(digit_char(vi % 10)));
            assert(decimal_spec(vi) =~= seq![digit_char(vi / 10), digit_char(vi % 10)]);
            assert(s@ =~= seq![digit_char(vi / 10), digit_char(vi % 10)]);
        } else {
            assert(s@ =~= decimal_spec(vi));
        }
    }
    s
}

/// The exposition body for one gauge metric: `# HELP`, `# TYPE` and sample
/// lines, with the value in decimal.
pub open spec fn exposition_spec(name: Seq<char>, help: Seq<char>, value: int) -> Seq<char> {
    "# HELP "@ + name + " "@ + help + "\n"@ + "# TYPE "@ + name + " gauge\n"@ + name + " "@
        + decimal_spec(value) + "\n"@
}

/// Render the exposition body for one gauge with the given name, help text
/// and current value.
pub fn render_gauge(name: &str, help: &str, value: u8) -> (body: String)
    ensures
        body@ == exposition_spec(name@, help@, value as int),
{
    let mut body = String::from_str("# HELP ");
    body.append(name);
    body.append(" ");
    body.append(help);
    body.append("\n");
    body.append("# TYPE ");
    body.append(name);
    body.append(" gauge\n");
    body.append(name);
    body.append(" ");
    let digits = u8_decimal(value);
    body.append(digits.as_str());
    body.append("\n");
    body
}

/// The name of the ground-moisture gauge.
pub open spec fn moisture_metric_name() -> Seq<char> {
    "ground_mousture"@
}

/// The help text of the ground-moisture gauge.
pub open spec fn moisture_metric_help() -> Seq<char> {
    "Ground moisture"@
}

/// Render the metrics body served to a scraper: the ground-moisture gauge
/// holding the sink's current reading. Rendering never fails, so the scrape
/// endpoint always has a body to serve.
pub fn metrics_body(sink: &MetricSink) -> (body: String)
    ensures
        body@ == exposition_spec(moisture_metric_name(), moisture_metric_help(), sink.reading as int),
{
    render_gauge("ground_mousture", "Ground moisture", sink.snapshot())
}

} // verus!
