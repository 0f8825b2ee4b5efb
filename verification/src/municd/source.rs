//! Reading the table from its published source: a script, of which each
//! line of a certain shape holds one record.

use crate::municd::record::{code_key, key_of_code, MuniCdRecord, MuniCdRecordView};
use crate::municd::table::MuniCdMap;
use crate::municd::CacheError;
use crate::text::{lines, lines_of, parse_decimal, parsed_decimal};
use regex::Regex;
use vstd::prelude::*;

verus! {

/// Where the source text of the table is published.
pub const MUNICD_URL: &'static str = "https://maps.gsi.go.jp/js/muni.js";

/// The shape of a line of the source that holds a record; its three groups
/// are the prefecture, the code and the municipality.
pub const RECORD_RE: &'static str =
    "GSI\\.MUNI_ARRAY\\[\"\\d+\"\\] = '\\d+,(.+),(\\d+),(.+)'";

/// A compiled regular expression of the `regex` crate.
#[verifier::external_type_specification]
#[verifier::external_body]
pub struct ExRegex(regex::Regex);

/// The error of the `regex` crate for an expression that it does not accept.
#[verifier::external_type_specification]
#[verifier::external_body]
pub struct ExRegexError(regex::Error);

/// Whether `regex::Regex::new` accepts `pattern`.
pub uninterp spec fn regex_compiles(pattern: Seq<char>) -> bool;

/// The expression that a compiled `regex::Regex` searches for.
pub uninterp spec fn regex_syntax(re: Regex) -> Seq<char>;

/// What `regex::Regex::captures` finds for the expression `syntax` in
/// `haystack`: `None` where nothing matches, else the text of each group of
/// the leftmost match, the whole match first, and `None` for a group that
/// took no part in it.
pub uninterp spec fn regex_captures(syntax: Seq<char>, haystack: Seq<char>) -> Option<
    Seq<Option<Seq<char>>>,
>;

/// `regex::Regex::new`: compiles `pattern` with the crate's default options.
/// Whether that succeeds depends on the pattern alone, and the compiled
/// expression searches for the pattern it was made from.
#[verifier::external_body]
fn compile(pattern: &str) -> (r: Result<Regex, regex::Error>)
    ensures
        r is Ok <==> regex_compiles(pattern@),
        r matches Ok(re) ==> regex_syntax(re) == pattern@,
{
    Regex::new(pattern)
}

/// `regex::Regex::captures`, with each group of the match copied out as a
/// string. The result depends on the expression and the haystack alone.
#[verifier::external_body]
fn captures(re: &Regex, haystack: &str) -> (r: Option<Vec<Option<String>>>)
    ensures
        r.deep_view() == regex_captures(regex_syntax(*re), haystack@),
{
    re.captures(haystack).map(
        |groups| groups.iter().map(|group| group.map(|m| m.as_str().to_string())).collect(),
    )
}

/// The mapping that the groups of a matched line stand for: the key and the
/// record. The groups must be the whole match and three more, all present,
/// and the second of these must be a code.
pub open spec fn entry_of_groups(groups: Seq<Option<Seq<char>>>) -> Result<
    (Seq<char>, MuniCdRecordView),
    CacheError,
> {
    if groups.len() == 4 && groups[1] is Some && groups[2] is Some && groups[3] is Some {
        match parsed_decimal(groups[2]->Some_0) {
            Some(code) => Ok(
                (
                    code_key(code),
                    MuniCdRecordView { code, pref: groups[1]->Some_0, town: groups[3]->Some_0 },
                ),
            ),
            None => Err(CacheError::MalformedSource),
        }
    } else {
        Err(CacheError::MalformedSource)
    }
}

/// Makes the record of a matched line from the groups of the match, with the
/// key to file it under.
pub fn entry_of(groups: &Vec<Option<String>>) -> (r: Result<(String, MuniCdRecord), CacheError>)
    ensures
        match r {
            Ok((key, record)) => entry_of_groups(groups.deep_view()) == Ok::<
                (Seq<char>, MuniCdRecordView),
                CacheError,
            >((key@, record@)),
            Err(e) => entry_of_groups(groups.deep_view()) == Err::<
                (Seq<char>, MuniCdRecordView),
                CacheError,
            >(e),
        },
{
    if groups.len() != 4 {
        return Err(CacheError::MalformedSource);
    }
    match (&groups[1], &groups[2], &groups[3]) {
        (Some(pref), Some(digits), Some(town)) => {
            match parse_decimal(digits.as_str()) {
                Some(code) => {
                    let key = key_of_code(code);
                    Ok((key, MuniCdRecord::new(code, pref.clone(), town.clone())))
                },
                None => Err(CacheError::MalformedSource),
            }
        },
        _ => Err(CacheError::MalformedSource),
    }
}

/// The table that a sequence of lines gives under the expression `syntax`.
/// Lines are taken in order. A line that the expression does not match adds
/// nothing; a line that it matches adds its record, in place of an earlier
/// one under the same key. The first matched line that gives no record is an
/// error, whatever follows it.
pub open spec fn records_of(syntax: Seq<char>, lines: Seq<Seq<char>>) -> Result<
    Map<Seq<char>, MuniCdRecordView>,
    CacheError,
>
    decreases lines.len(),
{
    if lines.len() == 0 {
        Ok(Map::empty())
    } else {
        match records_of(syntax, lines.drop_last()) {
            Err(e) => Err(e),
            Ok(table) => match regex_captures(syntax, lines.last()) {
                None => Ok(table),
                Some(groups) => match entry_of_groups(groups) {
                    Ok((key, record)) => Ok(table.insert(key, record)),
                    Err(e) => Err(e),
                },
            },
        }
    }
}

/// The table that a text gives when `pattern` is the shape of a record's
/// line: an error where the pattern is not accepted, else what the lines of
/// the text give.
pub open spec fn parsed_with(pattern: Seq<char>, text: Seq<char>) -> Result<
    Map<Seq<char>, MuniCdRecordView>,
    CacheError,
> {
    if regex_compiles(pattern) {
        records_of(pattern, lines_of(text))
    } else {
        Err(CacheError::Pattern)
    }
}

/// The table that a source text gives.
pub open spec fn parsed_source(text: Seq<char>) -> Result<
    Map<Seq<char>, MuniCdRecordView>,
    CacheError,
> {
    parsed_with(RECORD_RE@, text)
}

/// Whether every record of `table` is filed under the key of its own code.
pub open spec fn filed_by_code(table: Map<Seq<char>, MuniCdRecordView>) -> bool {
    forall|key: Seq<char>| table.contains_key(key) ==> key == code_key(#[trigger] table[key].code)
}

/// Whether no two records of `table` have the same code.
pub open spec fn codes_are_unique(table: Map<Seq<char>, MuniCdRecordView>) -> bool {
    forall|k1: Seq<char>, k2: Seq<char>|
        table.contains_key(k1) && table.contains_key(k2) && k1 != k2 ==> (#[trigger] table[k1]).code
            != (#[trigger] table[k2]).code
}

/// In a table read from lines, every record is filed under the key of its
/// own code, and so no code occurs twice.
pub proof fn lemma_records_filed_by_code(syntax: Seq<char>, lines: Seq<Seq<char>>)
    requires
        records_of(syntax, lines) is Ok,
    ensures
        filed_by_code(records_of(syntax, lines)->Ok_0),
        codes_are_unique(records_of(syntax, lines)->Ok_0),
    decreases lines.len(),
{
    if lines.len() > 0 {
        lemma_records_filed_by_code(syntax, lines.drop_last());
    }
}

/// An error among the first lines is the error of the whole.
pub proof fn lemma_records_error_stays(syntax: Seq<char>, lines: Seq<Seq<char>>, n: int)
    requires
        0 <= n <= lines.len(),
        records_of(syntax, lines.take(n)) is Err,
    ensures
        records_of(syntax, lines) == records_of(syntax, lines.take(n)),
    decreases lines.len() - n,
{
    if n < lines.len() {
        assert(lines.take(n + 1).drop_last() == lines.take(n));
        lemma_records_error_stays(syntax, lines, n + 1);
    } else {
        assert(lines.take(n) == lines);
    }
}

/// Reads a table from `text`: one record from each line in which `pattern`
/// is found, made from the three groups of the match and filed under its
/// code. Other lines are passed over.
pub fn parse_with(pattern: &str, text: &str) -> (r: Result<MuniCdMap, CacheError>)
    ensures
        match r {
            Ok(table) => parsed_with(pattern@, text@) == Ok::<
                Map<Seq<char>, MuniCdRecordView>,
                CacheError,
            >(table@),
            Err(e) => parsed_with(pattern@, text@) == Err::<
                Map<Seq<char>, MuniCdRecordView>,
                CacheError,
            >(e),
        },
{
    let re = match compile(pattern) {
        Ok(re) => re,
        Err(_) => return Err(CacheError::Pattern),
    };
    let all = lines(text);
    let mut table = MuniCdMap::new();
    let mut i: usize = 0;
    while i < all.len()
        invariant
            i <= all.len(),
            all.deep_view() == lines_of(text@),
            regex_compiles(pattern@),
            regex_syntax(re) == pattern@,
            records_of(pattern@, all.deep_view().take(i as int)) == Ok::<
                Map<Seq<char>, MuniCdRecordView>,
                CacheError,
            >(table@),
        decreases all.len() - i,
    {
        proof {
            assert(all.deep_view().take(i + 1).drop_last() == all.deep_view().take(i as int));
        }
        match captures(&re, all[i].as_str()) {
            Some(groups) => {
                match entry_of(&groups) {
                    Ok((key, record)) => {
                        table.insert(key, record);
                    },
                    Err(e) => {
                        proof {
                            lemma_records_error_stays(pattern@, all.deep_view(), i + 1);
                        }
                        return Err(e);
                    },
                }
            },
            None => {},
        }
        i += 1;
    }
    assert(all.deep_view().take(i as int) == all.deep_view());
    Ok(table)
}

/// Reads the table from the source text: one record from each line that has
/// the shape of `RECORD_RE`, filed under its code.
pub fn parse_source(text: &str) -> (r: Result<MuniCdMap, CacheError>)
    ensures
        match r {
            Ok(table) => parsed_source(text@) == Ok::<Map<Seq<char>, MuniCdRecordView>, CacheError>(
                table@,
            ),
            Err(e) => parsed_source(text@) == Err::<Map<Seq<char>, MuniCdRecordView>, CacheError>(
                e,
            ),
        },
{
    parse_with(RECORD_RE, text)
}

/// A line that the expression does not match is ignored: with such a line
/// put in at any place, the lines give the same table, or the same error.
pub proof fn lemma_unmatched_line_adds_nothing(
    syntax: Seq<char>,
    lines: Seq<Seq<char>>,
    at: int,
    line: Seq<char>,
)
    requires
        0 <= at <= lines.len(),
        regex_captures(syntax, line) is None,
    ensures
        records_of(syntax, lines.insert(at, line)) == records_of(syntax, lines),
    decreases lines.len(),
{
    let longer = lines.insert(at, line);
    if at == lines.len() {
        assert(longer.drop_last() == lines);
    } else {
        lemma_unmatched_line_adds_nothing(syntax, lines.drop_last(), at, line);
        assert(longer.drop_last() == lines.drop_last().insert(at, line));
    }
}

} // verus!
