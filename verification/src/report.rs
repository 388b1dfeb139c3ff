//! Rendering match records as output lines.
//!
//! Each record becomes one line: `source:line: text` when the scan ran over
//! a directory walk and the file path is part of the report, `line: text`
//! when the source was a single explicit file or standard input. Line
//! numbers are rendered in decimal.

use vstd::prelude::*;
use vstd::string::StringExecFns;
use crate::pattern::CompiledPattern;
use crate::scan::MatchRecord;
use crate::scan::SourceLine;
use crate::scan::matches_of;
use crate::scan::scan_lines;

verus! {

/// The decimal digit character for `d` (for `d < 10`; saturates above).
pub open spec fn dec_digit(d: nat) -> char {
    if d == 0 {
        '0'
    } else if d == 1 {
        '1'
    } else if d == 2 {
        '2'
    } else if d == 3 {
        '3'
    } else if d == 4 {
        '4'
    } else if d == 5 {
        '5'
    } else if d == 6 {
        '6'
    } else if d == 7 {
        '7'
    } else if d == 8 {
        '8'
    } else {
        '9'
    }
}

/// The decimal rendering of `n`, most significant digit first, with no
/// leading zeros (and `0` itself rendered as the one digit `0`).
pub open spec fn dec_seq(n: nat) -> Seq<char>
    decreases n,
{
    if n < 10 {
        seq![dec_digit(n)]
    } else {
        dec_seq(n / 10).push(dec_digit(n % 10))
    }
}

fn digit_str(d: u64) -> (r: &'static str)
    requires
        d < 10,
    ensures
        r@ == seq![dec_digit(d as nat)],
{
    if d == 0 {
        proof {
            reveal_strlit("0");
            assert("0"@ =~= seq![dec_digit(0)]);
        }
        "0"
    } else if d == 1 {
        proof {
            reveal_strlit("1");
            assert("1"@ =~= seq![dec_digit(1)]);
        }
        "1"
    } else if d == 2 {
        proof {
            reveal_strlit("2");
            assert("2"@ =~= seq![dec_digit(2)]);
        }
        "2"
    } else if d == 3 {
        proof {
            reveal_strlit("3");
            assert("3"@ =~= seq![dec_digit(3)]);
        }
        "3"
    } else if d == 4 {
        proof {
            reveal_strlit("4");
            assert("4"@ =~= seq![dec_digit(4)]);
        }
        "4"
    } else if d == 5 {
        proof {
            reveal_strlit("5");
            assert("5"@ =~= seq![dec_digit(5)]);
        }
        "5"
    } else if d == 6 {
        proof {
            reveal_strlit("6");
            assert("6"@ =~= seq![dec_digit(6)]);
        }
        "6"
    } else if d == 7 {
        proof {
            reveal_strlit("7");
            assert("7"@ =~= seq![dec_digit(7)]);
        }
        "7"
    } else if d == 8 {
        proof {
            reveal_strlit("8");
            assert("8"@ =~= seq![dec_digit(8)]);
        }
        "8"
    } else {
        proof {
            reveal_strlit("9");
            assert("9"@ =~= seq![dec_digit(9)]);
        }
        "9"
    }
}

/// Render `n` in decimal, most significant digit first.
pub fn decimal_string(n: u64) -> (r: String)
    ensures
        r@ == dec_seq(n as nat),
    decreases n,
{
    if n < 10 {
        digit_str(n).to_owned()
    } else {
        assert(n / 10 < n) by (nonlinear_arith)
            requires
                n >= 10,
        ;
        let mut s = decimal_string(n / 10);
        s.append(digit_str(n % 10));
        proof {
            assert(dec_seq((n / 10) as nat) + seq![dec_digit((n % 10) as nat)] =~= dec_seq(
                (n / 10) as nat,
            ).push(dec_digit((n % 10) as nat)));
        }
        s
    }
}

/// The ghost image of an optional source label.
pub open spec fn label_view(source: Option<&String>) -> Option<Seq<char>> {
    match source {
        Option::Some(s) => Option::Some(s@),
        Option::None => Option::None,
    }
}

/// The output line for one record: `source:line: text` when a source label
/// is present, `line: text` when it is absent.
pub open spec fn rendered(source: Option<Seq<char>>, num: nat, text: Seq<char>) -> Seq<char> {
    match source {
        Option::Some(s) => s + seq![':'] + dec_seq(num) + seq![':', ' '] + text,
        Option::None => dec_seq(num) + seq![':', ' '] + text,
    }
}

/// Render one record as its output line.
pub fn format_record(source: Option<&String>, rec: &MatchRecord) -> (r: String)
    ensures
        r@ == rendered(label_view(source), rec.line_number as nat, rec.text@),
{
    let mut out = String::new();
    match source {
        Option::Some(s) => {
            out.append(s.as_str());
            out.append(":");
        },
        Option::None => {},
    }
    let num = decimal_string(rec.line_number as u64);
    out.append(num.as_str());
    out.append(": ");
    out.append(rec.text.as_str());
    proof {
        reveal_strlit(":");
        reveal_strlit(": ");
        assert(":"@ =~= seq![':']);
        assert(": "@ =~= seq![':', ' ']);
        assert(out@ =~= rendered(label_view(source), rec.line_number as nat, rec.text@));
    }
    out
}

/// The full output of scanning one source: the rendered line of each record,
/// in record order.
pub open spec fn output_of(
    pat: Seq<char>,
    source: Option<Seq<char>>,
    lines: Seq<Option<Seq<char>>>,
) -> Seq<Seq<char>> {
    matches_of(pat, lines).map_values(|rec: (nat, Seq<char>)| rendered(source, rec.0, rec.1))
}

/// Scan the lines of one source and render every match: the whole per-source
/// pipeline, from decoded lines to printable output lines.
pub fn search_lines(
    pattern: &CompiledPattern,
    source: Option<&String>,
    lines: &Vec<SourceLine>,
) -> (r: Vec<String>)
    ensures
        r@.map_values(|s: String| s@) == output_of(
            pattern.pattern_view(),
            label_view(source),
            lines@.map_values(|l: SourceLine| l@),
        ),
{
    let ghost pat = pattern.pattern_view();
    let ghost all = lines@.map_values(|l: SourceLine| l@);
    let ghost src = label_view(source);
    let ghost ms = matches_of(pat, all);
    let records = scan_lines(pattern, lines);
    let mut out: Vec<String> = Vec::new();
    let mut i: usize = 0;
    while i < records.len()
        invariant
            i <= records.len(),
            records@.map_values(|m: MatchRecord| m@) == ms,
            src == label_view(source),
            out@.len() == i,
            forall|j: int| 0 <= j < i ==> (#[trigger] out@[j])@ == rendered(src, ms[j].0, ms[j].1),
        decreases records.len() - i,
    {
        let line = format_record(source, &records[i]);
        proof {
            assert(records@[i as int]@ == ms[i as int]);
        }
        out.push(line);
        i = i + 1;
    }
    proof {
        assert(out@.map_values(|s: String| s@) =~= output_of(pat, src, all));
    }
    out
}

/// How the target was named on the command line: standard input (`-`), one
/// regular file, or a directory walked recursively.
pub enum SourceKind {
    Stdin,
    SingleFile,
    DirTree,
}

/// The path-prefix policy: only lines found through a directory walk carry
/// the file path; a single explicit file and standard input use the bare
/// `line: text` form.
pub fn uses_path_prefix(kind: &SourceKind) -> (r: bool)
    ensures
        r == (kind is DirTree),
{
    match kind {
        SourceKind::DirTree => true,
        SourceKind::Stdin => false,
        SourceKind::SingleFile => false,
    }
}

} // verus!
