use crate::query::chars_of;
use crate::record::{AsInfoOut, AsInfoSimplified, LegacyRecord};
use vstd::prelude::*;

verus! {

/// The file formats of an export.
#[allow(clippy::upper_case_acronyms)]
#[derive(Debug, Clone, Copy, PartialEq, Eq, Structural)]
pub enum ExportFormat {
    JSON,
    JSONL,
    CSV,
}

/// `p` occurs in `s` as a run of consecutive characters.
pub open spec fn has_infix(s: Seq<char>, p: Seq<char>) -> bool {
    exists|i: int| 0 <= i && i + p.len() <= s.len() && #[trigger] s.subrange(i, i + p.len()) == p
}

/// The format that an export path names: `.jsonl` anywhere in it first, then
/// `.csv`, then `.json`; none of them names no format.
pub open spec fn format_of_path(path: Seq<char>) -> Option<ExportFormat> {
    if has_infix(path, ".jsonl"@) {
        Some(ExportFormat::JSONL)
    } else if has_infix(path, ".csv"@) {
        Some(ExportFormat::CSV)
    } else if has_infix(path, ".json"@) {
        Some(ExportFormat::JSON)
    } else {
        None
    }
}

/// Whether `p` occurs in `s` starting at `i`.
fn contains_at(s: &Vec<char>, p: &Vec<char>, i: usize) -> (r: bool)
    requires
        i + p@.len() <= s@.len(),
    ensures
        r == (s@.subrange(i as int, i + p@.len()) == p@),
{
    let n = s.len();
    let mut k: usize = 0;
    while k < p.len()
        invariant
            n == s@.len(),
            i + p@.len() <= s@.len(),
            k <= p@.len(),
            forall|m: int| 0 <= m < k ==> s@[i + m] == p@[m],
        decreases p@.len() - k,
    {
        if s[i + k] != p[k] {
            assert(s@.subrange(i as int, i + p@.len())[k as int] != p@[k as int]);
            return false;
        }
        k = k + 1;
    }
    assert(s@.subrange(i as int, i + p@.len()) =~= p@);
    true
}

/// Whether `p` occurs anywhere in `s`.
fn contains(s: &Vec<char>, p: &Vec<char>) -> (r: bool)
    ensures
        r == has_infix(s@, p@),
{
    if p.len() > s.len() {
        return false;
    }
    let last = s.len() - p.len();
    let mut i: usize = 0;
    loop
        invariant
            p@.len() <= s@.len(),
            last == s@.len() - p@.len(),
            i <= last,
            forall|j: int| 0 <= j < i ==> #[trigger] s@.subrange(j, j + p@.len()) != p@,
        decreases last - i,
    {
        if contains_at(s, p, i) {
            return true;
        }
        if i == last {
            return false;
        }
        i = i + 1;
    }
}

impl ExportFormat {
    /// The format that `path` names, if it names one.
    pub fn from_path(path: &str) -> (r: Option<ExportFormat>)
        ensures
            r == format_of_path(path@),
    {
        let s = chars_of(path);
        if contains(&s, &chars_of(".jsonl")) {
            Some(ExportFormat::JSONL)
        } else if contains(&s, &chars_of(".csv")) {
            Some(ExportFormat::CSV)
        } else if contains(&s, &chars_of(".json")) {
            Some(ExportFormat::JSON)
        } else {
            None
        }
    }

    /// The format's name, as it is written in a path.
    pub fn name(&self) -> (r: &'static str)
        ensures
            *self == ExportFormat::JSON ==> r@ == "json"@,
            *self == ExportFormat::JSONL ==> r@ == "jsonl"@,
            *self == ExportFormat::CSV ==> r@ == "csv"@,
    {
        match self {
            ExportFormat::JSON => "json",
            ExportFormat::JSONL => "jsonl",
            ExportFormat::CSV => "csv",
        }
    }
}

/// Whether an export writes the simplified record shape: when asked to, and
/// always for CSV.
pub fn export_simplified(requested: bool, format: ExportFormat) -> (r: bool)
    ensures
        r == (requested || format == ExportFormat::CSV),
{
    requested || format == ExportFormat::CSV
}

/// Relies on `slice::sort_by_key`: it reorders the records, keeping each one,
/// into ascending order of the key, here the ASN.
#[verifier::external_body]
fn sort_by_asn(v: &mut Vec<AsInfoOut>)
    ensures
        final(v)@.to_multiset() == old(v)@.to_multiset(),
        forall|i: int, j: int|
            0 <= i < j < final(v)@.len() ==> final(v)@[i].asn <= final(v)@[j].asn,
{
    v.sort_by_key(|r| r.asn)
}

/// The records in the order an export writes them: ascending by ASN.
pub fn in_export_order(records: Vec<AsInfoOut>) -> (r: Vec<AsInfoOut>)
    ensures
        r@.to_multiset() == records@.to_multiset(),
        forall|i: int, j: int| 0 <= i < j < r@.len() ==> r@[i].asn <= r@[j].asn,
{
    let mut v = records;
    sort_by_asn(&mut v);
    v
}

/// Relies on `String`'s `FromIterator<&char>`: the string of the characters,
/// in order.
#[verifier::external_body]
fn string_of(v: &Vec<char>) -> (r: String)
    ensures
        r@ == v@,
{
    v.iter().collect()
}

/// `s` without its double quotes.
pub open spec fn strip_quotes(s: Seq<char>) -> Seq<char>
    decreases s.len(),
{
    if s.len() == 0 {
        s
    } else if s.last() == '"' {
        strip_quotes(s.drop_last())
    } else {
        strip_quotes(s.drop_last()).push(s.last())
    }
}

pub open spec fn digit_char(d: nat) -> char {
    (d + '0' as u32) as char
}

/// The decimal digits of `n`, without leading zeros.
pub open spec fn decimal(n: nat) -> Seq<char>
    decreases n,
{
    if n < 10 {
        seq![digit_char(n)]
    } else {
        decimal(n / 10).push(digit_char(n % 10))
    }
}

pub open spec fn quoted(s: Seq<char>) -> Seq<char> {
    seq!['"'] + s + seq!['"']
}

/// One CSV line of an export: the ASN, then the name, organization and
/// country fields in double quotes (quotes taken out of the two names), then
/// an empty data source.
pub open spec fn csv_row_text(r: LegacyRecord) -> Seq<char> {
    decimal(r.asn as nat) + seq![','] + quoted(strip_quotes(r.as_name)) + seq![','] + quoted(
        r.org_id,
    ) + seq![','] + quoted(strip_quotes(r.org_name)) + seq![','] + quoted(r.country_code) + seq![
        ',',
    ] + quoted(r.country_name) + seq![',', '"', '"']
}

fn push_decimal(n: u32, out: &mut Vec<char>)
    ensures
        final(out)@ == old(out)@ + decimal(n as nat),
    decreases n,
{
    if n >= 10 {
        push_decimal(n / 10, out);
    }
    let d = (n % 10) as u8;
    let c = (d + 48u8) as char;
    assert(c == digit_char((n % 10) as nat));
    out.push(c);
}

fn push_chars(out: &mut Vec<char>, s: &String, strip: bool)
    ensures
        final(out)@ == old(out)@ + if strip {
            strip_quotes(s@)
        } else {
            s@
        },
{
    let v = chars_of(s.as_str());
    let ghost start = out@;
    let mut i: usize = 0;
    while i < v.len()
        invariant
            i <= v@.len(),
            v@ == s@,
            out@ == start + if strip {
                strip_quotes(v@.subrange(0, i as int))
            } else {
                v@.subrange(0, i as int)
            },
        decreases v@.len() - i,
    {
        assert(v@.subrange(0, i + 1).drop_last() =~= v@.subrange(0, i as int));
        if !(strip && v[i] == '"') {
            out.push(v[i]);
        }
        i = i + 1;
    }
    assert(v@.subrange(0, v@.len() as int) =~= v@);
}

fn push_quoted(out: &mut Vec<char>, s: &String, strip: bool)
    ensures
        final(out)@ == old(out)@ + quoted(
            if strip {
                strip_quotes(s@)
            } else {
                s@
            },
        ),
{
    out.push('"');
    push_chars(out, s, strip);
    out.push('"');
}

/// The first line of a CSV export.
pub fn csv_header() -> (r: &'static str)
    ensures
        r@ == "asn,as_name,org_id,org_name,country_code,country_name,data_source"@,
{
    "asn,as_name,org_id,org_name,country_code,country_name,data_source"
}

/// The CSV line of one record.
pub fn csv_row(r: &AsInfoSimplified) -> (line: String)
    ensures
        line@ == csv_row_text(r@),
{
    let mut out: Vec<char> = Vec::new();
    push_decimal(r.asn, &mut out);
    out.push(',');
    push_quoted(&mut out, &r.as_name, true);
    out.push(',');
    push_quoted(&mut out, &r.org_id, false);
    out.push(',');
    push_quoted(&mut out, &r.org_name, true);
    out.push(',');
    push_quoted(&mut out, &r.country_code, false);
    out.push(',');
    push_quoted(&mut out, &r.country_name, false);
    out.push(',');
    out.push('"');
    out.push('"');
    assert(out@ =~= csv_row_text(r@));
    string_of(&out)
}

} // verus!
