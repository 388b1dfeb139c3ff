//! Scanning the lines of one source for matches.
//!
//! A source (one file, or standard input) is a sequence of physical lines;
//! a line either decoded to text or did not, and a line that did not decode
//! is skipped but still counted, so that line numbers always give physical
//! positions. Scanning yields one [`MatchRecord`] per matching line,
//! carrying the 1-based position of the line and its text, in increasing
//! line order. [`matches_of`] is the mathematical statement of that outcome.

use vstd::prelude::*;
use crate::pattern::CompiledPattern;
use crate::pattern::regex_accepts;

verus! {

/// One physical line of a source: its decoded text, or the mark that its
/// bytes were not valid text, in which case the line is skipped but keeps
/// its place in the numbering.
pub enum SourceLine {
    Text(String),
    Undecodable,
}

impl View for SourceLine {
    type V = Option<Seq<char>>;

    open spec fn view(&self) -> Option<Seq<char>> {
        match self {
            SourceLine::Text(s) => Some(s@),
            SourceLine::Undecodable => None,
        }
    }
}

/// One reported match: the 1-based line number and the line's text.
pub struct MatchRecord {
    pub line_number: usize,
    pub text: String,
}

impl View for MatchRecord {
    type V = (nat, Seq<char>);

    open spec fn view(&self) -> (nat, Seq<char>) {
        (self.line_number as nat, self.text@)
    }
}

/// Whether a physical line is reported: it decoded, and its text matches.
pub open spec fn line_matched(pat: Seq<char>, line: Option<Seq<char>>) -> bool {
    line matches Some(t) && regex_accepts(pat, t)
}

/// The records a scan of `lines` with pattern `pat` produces: one per
/// matching line, numbered by the line's 1-based physical position, in line
/// order.
pub open spec fn matches_of(pat: Seq<char>, lines: Seq<Option<Seq<char>>>) -> Seq<
    (nat, Seq<char>),
>
    decreases lines.len(),
{
    if lines.len() == 0 {
        Seq::empty()
    } else {
        matches_of(pat, lines.drop_last()) + (if line_matched(pat, lines.last()) {
            seq![(lines.len() as nat, lines.last()->0)]
        } else {
            Seq::<(nat, Seq<char>)>::empty()
        })
    }
}

/// A record is well formed for `lines`: its number is the 1-based physical
/// position of a line that decoded to the record's own text, and that text
/// matches the pattern.
pub open spec fn record_wf(
    pat: Seq<char>,
    lines: Seq<Option<Seq<char>>>,
    rec: (nat, Seq<char>),
) -> bool {
    &&& 1 <= rec.0 <= lines.len()
    &&& lines[rec.0 - 1] == Some(rec.1)
    &&& regex_accepts(pat, rec.1)
}

proof fn lemma_matches_of_step(pat: Seq<char>, lines: Seq<Option<Seq<char>>>, i: int)
    requires
        0 <= i < lines.len(),
    ensures
        matches_of(pat, lines.take(i + 1)) == matches_of(pat, lines.take(i)) + (if line_matched(
            pat,
            lines[i],
        ) {
            seq![((i + 1) as nat, lines[i]->0)]
        } else {
            Seq::<(nat, Seq<char>)>::empty()
        }),
{
    let t = lines.take(i + 1);
    assert(t.drop_last() =~= lines.take(i));
    assert(t.last() == lines[i]);
}

/// Scan the physical lines of one source: return one record per matching
/// line, numbered from 1, in line order. Lines that did not decode are
/// skipped but still counted.
pub fn scan_lines(pattern: &CompiledPattern, lines: &Vec<SourceLine>) -> (r: Vec<MatchRecord>)
    ensures
        r@.map_values(|m: MatchRecord| m@) == matches_of(
            pattern.pattern_view(),
            lines@.map_values(|l: SourceLine| l@),
        ),
{
    let ghost pat = pattern.pattern_view();
    let ghost all = lines@.map_values(|l: SourceLine| l@);
    let mut out: Vec<MatchRecord> = Vec::new();
    let mut i: usize = 0;
    while i < lines.len()
        invariant
            i <= lines.len(),
            all == lines@.map_values(|l: SourceLine| l@),
            pat == pattern.pattern_view(),
            out@.map_values(|m: MatchRecord| m@) == matches_of(pat, all.take(i as int)),
        decreases lines.len() - i,
    {
        let ghost prev = out@.map_values(|m: MatchRecord| m@);
        match &lines[i] {
            SourceLine::Text(text) => {
                if pattern.is_match(text.as_str()) {
                    let rec = MatchRecord { line_number: i + 1, text: text.clone() };
                    out.push(rec);
                    proof {
                        assert(out@.map_values(|m: MatchRecord| m@) =~= prev.push(
                            (((i + 1) as nat), all[i as int]->0),
                        ));
                    }
                }
            },
            SourceLine::Undecodable => {},
        }
        proof {
            lemma_matches_of_step(pat, all, i as int);
            if line_matched(pat, all[i as int]) {
                assert(prev + seq![((i + 1) as nat, all[i as int]->0)] =~= prev.push(
                    (((i + 1) as nat), all[i as int]->0),
                ));
            } else {
                assert(prev + Seq::<(nat, Seq<char>)>::empty() =~= prev);
            }
        }
        i = i + 1;
    }
    proof {
        assert(all.take(lines.len() as int) =~= all);
    }
    out
}

/// Every record a scan produces carries the 1-based physical position of its
/// matched text within the source, and only matching lines are reported.
pub proof fn lemma_records_are_positions(pat: Seq<char>, lines: Seq<Option<Seq<char>>>)
    ensures
        forall|j: int|
            0 <= j < matches_of(pat, lines).len() ==> record_wf(
                pat,
                lines,
                #[trigger] matches_of(pat, lines)[j],
            ),
    decreases lines.len(),
{
    if lines.len() > 0 {
        let prefix = lines.drop_last();
        lemma_records_are_positions(pat, prefix);
        let m = matches_of(pat, lines);
        let mp = matches_of(pat, prefix);
        assert forall|j: int| 0 <= j < m.len() implies record_wf(pat, lines, m[j]) by {
            if j < mp.len() {
                assert(record_wf(pat, prefix, mp[j]));
                assert(m[j] == mp[j]);
                assert(lines[mp[j].0 - 1] == prefix[mp[j].0 - 1]);
            } else {
                assert(m[j] == ((lines.len() as nat), lines.last()->0));
            }
        }
    }
}

/// Within one source, records come in strictly increasing line-number order:
/// a scan reports matches in the order the lines occur.
pub proof fn lemma_records_ordered(pat: Seq<char>, lines: Seq<Option<Seq<char>>>)
    ensures
        forall|j: int, k: int|
            0 <= j < k < matches_of(pat, lines).len() ==> (#[trigger] matches_of(pat, lines)[j]).0
                < (#[trigger] matches_of(pat, lines)[k]).0,
    decreases lines.len(),
{
    if lines.len() > 0 {
        let prefix = lines.drop_last();
        lemma_records_ordered(pat, prefix);
        lemma_records_are_positions(pat, prefix);
        let m = matches_of(pat, lines);
        let mp = matches_of(pat, prefix);
        assert forall|j: int, k: int| 0 <= j < k < m.len() implies m[j].0 < m[k].0 by {
            if k < mp.len() {
                assert(m[j] == mp[j] && m[k] == mp[k]);
            } else {
                assert(m[k] == ((lines.len() as nat), lines.last()->0));
                assert(record_wf(pat, prefix, mp[j]));
                assert(m[j] == mp[j]);
            }
        }
    }
}

/// A source none of whose lines match produces no records at all.
pub proof fn lemma_no_match_no_records(pat: Seq<char>, lines: Seq<Option<Seq<char>>>)
    requires
        forall|i: int| 0 <= i < lines.len() ==> !line_matched(pat, #[trigger] lines[i]),
    ensures
        matches_of(pat, lines) == Seq::<(nat, Seq<char>)>::empty(),
    decreases lines.len(),
{
    if lines.len() > 0 {
        let prefix = lines.drop_last();
        assert forall|i: int| 0 <= i < prefix.len() implies !line_matched(
            pat,
            #[trigger] prefix[i],
        ) by {
            assert(prefix[i] == lines[i]);
        }
        lemma_no_match_no_records(pat, prefix);
        assert(!line_matched(pat, lines.last()));
        assert(matches_of(pat, lines) =~= Seq::<(nat, Seq<char>)>::empty());
    }
}

/// A pattern that matches every decoded line of a fully decoded source
/// reports every line exactly once, in file order, under its own 1-based
/// number.
pub proof fn lemma_all_match_reports_all(pat: Seq<char>, lines: Seq<Option<Seq<char>>>)
    requires
        forall|i: int| 0 <= i < lines.len() ==> line_matched(pat, #[trigger] lines[i]),
    ensures
        matches_of(pat, lines).len() == lines.len(),
        forall|i: int|
            0 <= i < lines.len() ==> #[trigger] matches_of(pat, lines)[i] == (
                (i + 1) as nat,
                lines[i]->0,
            ),
    decreases lines.len(),
{
    if lines.len() > 0 {
        let prefix = lines.drop_last();
        assert forall|i: int| 0 <= i < prefix.len() implies line_matched(
            pat,
            #[trigger] prefix[i],
        ) by {
            assert(prefix[i] == lines[i]);
        }
        lemma_all_match_reports_all(pat, prefix);
        assert(line_matched(pat, lines.last()));
        let m = matches_of(pat, lines);
        assert forall|i: int| 0 <= i < lines.len() implies #[trigger] m[i] == (
            (i + 1) as nat,
            lines[i]->0,
        ) by {
            if i < lines.len() - 1 {
                assert(m[i] == matches_of(pat, prefix)[i]);
                assert(prefix[i] == lines[i]);
            } else {
                assert(m[i] == ((lines.len() as nat), lines.last()->0));
            }
        }
    }
}

/// Scanning unchanged input twice with the same pattern yields the same
/// records: the outcome is a function of the pattern and the lines alone.
pub proof fn lemma_scan_idempotent(
    pat: Seq<char>,
    lines: Seq<Option<Seq<char>>>,
    first: Seq<(nat, Seq<char>)>,
    second: Seq<(nat, Seq<char>)>,
)
    requires
        first == matches_of(pat, lines),
        second == matches_of(pat, lines),
    ensures
        first == second,
{
}

} // verus!
