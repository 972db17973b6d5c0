//! Host names from the lines of an input list.
//!
//! A line holds one host name, with white space around it at most. A line
//! whose entry has three characters or fewer cannot name a host and is set
//! aside.

use vstd::prelude::*;

verus! {

/// An entry of this many characters or fewer is malformed.
pub const MALFORMED_LENGTH: usize = 3;

/// Whether std counts the character as white space, which is whether
/// Unicode lists it as `White_Space`.
pub uninterp spec fn is_white_space(c: char) -> bool;

/// The text without the white space at its start.
pub open spec fn trimmed_start(text: Seq<char>) -> Seq<char>
    decreases text.len(),
{
    if text.len() > 0 && is_white_space(text.first()) {
        trimmed_start(text.drop_first())
    } else {
        text
    }
}

/// The text without the white space at its end.
pub open spec fn trimmed_end(text: Seq<char>) -> Seq<char>
    decreases text.len(),
{
    if text.len() > 0 && is_white_space(text.last()) {
        trimmed_end(text.drop_last())
    } else {
        text
    }
}

/// The text without the white space at its start and at its end.
pub open spec fn trimmed(text: Seq<char>) -> Seq<char> {
    trimmed_end(trimmed_start(text))
}

/// Whether an entry is long enough to name a host.
pub open spec fn is_hostname(entry: Seq<char>) -> bool {
    entry.len() > MALFORMED_LENGTH
}

/// The entries of the lines: each line, trimmed.
pub open spec fn entries_of(lines: Seq<Seq<char>>) -> Seq<Seq<char>> {
    lines.map_values(|line: Seq<char>| trimmed(line))
}

/// The host names among the lines, in order.
pub open spec fn hostnames_of(lines: Seq<Seq<char>>) -> Seq<Seq<char>> {
    entries_of(lines).filter(|entry: Seq<char>| is_hostname(entry))
}

/// The malformed entries among the lines, in order.
pub open spec fn malformed_of(lines: Seq<Seq<char>>) -> Seq<Seq<char>> {
    entries_of(lines).filter(|entry: Seq<char>| !is_hostname(entry))
}

/// Calls `char::is_whitespace` of std, which says whether the character is
/// white space.
#[verifier::external_body]
fn is_whitespace(c: char) -> (b: bool)
    ensures
        b == is_white_space(c),
{
    c.is_whitespace()
}

/// A text that starts with `start` characters of white space and goes on
/// with another character, or ends there, is left with what follows them
/// when the white space at its start is removed.
pub proof fn lemma_trimmed_start_from(text: Seq<char>, start: int)
    requires
        0 <= start <= text.len(),
        forall|k: int| 0 <= k < start ==> is_white_space(text[k]),
        start < text.len() ==> !is_white_space(text[start]),
    ensures
        trimmed_start(text) == text.subrange(start, text.len() as int),
    decreases text.len(),
{
    if text.len() > 0 && is_white_space(text.first()) {
        let rest = text.drop_first();
        assert forall|k: int| 0 <= k < start - 1 implies is_white_space(rest[k]) by {
            assert(rest[k] == text[k + 1]);
        }
        lemma_trimmed_start_from(rest, start - 1);
        assert(rest.subrange(start - 1, rest.len() as int) =~= text.subrange(
            start,
            text.len() as int,
        ));
    } else {
        assert(text.subrange(0, text.len() as int) =~= text);
    }
}

/// A text that ends with white space from `end` on, and has another
/// character before it or starts there, is left with what comes before `end`
/// when the white space at its end is removed.
pub proof fn lemma_trimmed_end_at(text: Seq<char>, end: int)
    requires
        0 <= end <= text.len(),
        forall|k: int| end <= k < text.len() ==> is_white_space(text[k]),
        end > 0 ==> !is_white_space(text[end - 1]),
    ensures
        trimmed_end(text) == text.subrange(0, end),
    decreases text.len(),
{
    if text.len() > 0 && is_white_space(text.last()) {
        let rest = text.drop_last();
        lemma_trimmed_end_at(rest, end);
        assert(rest.subrange(0, end) =~= text.subrange(0, end));
    } else {
        assert(text.subrange(0, text.len() as int) =~= text);
    }
}

/// The line without the white space at its start and at its end.
pub fn trim(line: &str) -> (entry: String)
    ensures
        entry@ == trimmed(line@),
{
    let n = line.unicode_len();
    let mut start: usize = n;
    let mut end: usize = 0;
    let mut i: usize = 0;
    for c in it: line.chars()
        invariant
            it.seq() == line@,
            n == line@.len(),
            i == it.index(),
            start <= n,
            end <= i,
            start == n ==> end == 0,
            start < n ==> start < end && !is_white_space(line@[start as int]),
            forall|k: int| 0 <= k < i && k < start ==> is_white_space(line@[k]),
            forall|k: int| end <= k < i ==> is_white_space(line@[k]),
            end > 0 ==> !is_white_space(line@[end - 1]),
    {
        if !is_whitespace(c) {
            if start == n {
                start = i;
            }
            end = i + 1;
        }
        i += 1;
    }
    if start == n {
        proof {
            lemma_trimmed_start_from(line@, n as int);
        }
        String::new()
    } else {
        proof {
            let kept = line@.subrange(start as int, n as int);
            lemma_trimmed_start_from(line@, start as int);
            lemma_trimmed_end_at(kept, end - start);
            assert(kept.subrange(0, end - start) =~= line@.subrange(start as int, end as int));
        }
        String::from_str(line.substring_char(start, end))
    }
}

/// Judges an entry that has been trimmed: `Ok` with the entry if it can name
/// a host, `Err` with the entry if it is malformed.
pub fn judge_entry(entry: &str) -> (r: Result<String, String>)
    ensures
        match r {
            Ok(hostname) => hostname@ == entry@ && is_hostname(entry@),
            Err(malformed) => malformed@ == entry@ && !is_hostname(entry@),
        },
{
    if entry.unicode_len() > MALFORMED_LENGTH {
        Ok(String::from_str(entry))
    } else {
        Err(String::from_str(entry))
    }
}

/// Reads the host name of one line: `Ok` with the trimmed line if it can
/// name a host, `Err` with the trimmed line if it is malformed.
pub fn read_line(line: &str) -> (r: Result<String, String>)
    ensures
        match r {
            Ok(hostname) => hostname@ == trimmed(line@) && is_hostname(trimmed(line@)),
            Err(malformed) => malformed@ == trimmed(line@) && !is_hostname(trimmed(line@)),
        },
{
    let entry = trim(line);
    judge_entry(entry.as_str())
}

/// The lines of an input list, sorted into host names and malformed entries.
#[derive(Debug, PartialEq, Eq)]
pub struct Screened {
    /// The host names, in the order of the lines.
    pub hostnames: Vec<String>,
    /// The entries that were set aside, in the order of the lines.
    pub malformed: Vec<String>,
}

/// One more line adds its entry to the host names or to the malformed
/// entries, and leaves the others as they were.
pub proof fn lemma_next_line(lines: Seq<Seq<char>>, i: int)
    requires
        0 <= i < lines.len(),
    ensures
        hostnames_of(lines.take(i + 1)) == if is_hostname(trimmed(lines[i])) {
            hostnames_of(lines.take(i)).push(trimmed(lines[i]))
        } else {
            hostnames_of(lines.take(i))
        },
        malformed_of(lines.take(i + 1)) == if is_hostname(trimmed(lines[i])) {
            malformed_of(lines.take(i))
        } else {
            malformed_of(lines.take(i)).push(trimmed(lines[i]))
        },
{
    let before = entries_of(lines.take(i));
    let entry = trimmed(lines[i]);
    assert(entries_of(lines.take(i + 1)) =~= before.push(entry));
    before.lemma_filter_push(entry, |entry: Seq<char>| is_hostname(entry));
    before.lemma_filter_push(entry, |entry: Seq<char>| !is_hostname(entry));
}

/// What is left of a text when the white space at its end is removed is a
/// piece from the start of the text that does not end with white space.
pub proof fn lemma_trimmed_end(text: Seq<char>)
    ensures
        trimmed_end(text) == text.take(trimmed_end(text).len() as int),
        trimmed_end(text).len() <= text.len(),
        trimmed_end(text).len() > 0 ==> !is_white_space(trimmed_end(text).last()),
    decreases text.len(),
{
    if text.len() > 0 && is_white_space(text.last()) {
        let shorter = text.drop_last();
        lemma_trimmed_end(shorter);
        assert(shorter.take(trimmed_end(shorter).len() as int) =~= text.take(
            trimmed_end(shorter).len() as int,
        ));
    } else {
    }
}

/// What is left of a text when the white space at its start is removed does
/// not start with white space.
pub proof fn lemma_trimmed_start(text: Seq<char>)
    ensures
        trimmed_start(text).len() > 0 ==> !is_white_space(trimmed_start(text).first()),
    decreases text.len(),
{
    if text.len() > 0 && is_white_space(text.first()) {
        lemma_trimmed_start(text.drop_first());
    }
}

/// A trimmed text neither starts nor ends with white space.
pub proof fn lemma_trimmed(text: Seq<char>)
    ensures
        trimmed(text).len() > 0 ==> !is_white_space(trimmed(text).first()) && !is_white_space(
            trimmed(text).last(),
        ),
{
    lemma_trimmed_start(text);
    lemma_trimmed_end(trimmed_start(text));
}

/// Every host name that the screening lets through is the trimmed text of
/// one of the lines, has more than three characters, and neither starts nor
/// ends with white space.
pub proof fn lemma_hostnames_are_clean(lines: Seq<Seq<char>>, i: int)
    requires
        0 <= i < hostnames_of(lines).len(),
    ensures
        hostnames_of(lines)[i].len() > MALFORMED_LENGTH,
        !is_white_space(hostnames_of(lines)[i].first()),
        !is_white_space(hostnames_of(lines)[i].last()),
        exists|j: int|
            0 <= j < lines.len() && hostnames_of(lines)[i] == trimmed(#[trigger] lines[j]),
{
    let entries = entries_of(lines);
    let keep = |entry: Seq<char>| is_hostname(entry);
    let hostname = hostnames_of(lines)[i];
    entries.lemma_filter_contains_rev(keep, hostname);
    let j = choose|j: int| 0 <= j < entries.len() && entries[j] == hostname;
    lemma_trimmed(lines[j]);
}

/// Every line goes to exactly one of the two lists.
pub proof fn lemma_every_line_is_sorted(lines: Seq<Seq<char>>)
    ensures
        hostnames_of(lines).len() + malformed_of(lines).len() == lines.len(),
    decreases lines.len(),
{
    if lines.len() == 0 {
        reveal(Seq::filter);
    } else {
        let shorter = lines.drop_last();
        lemma_every_line_is_sorted(shorter);
        lemma_next_line(lines, lines.len() - 1);
        assert(lines.take(lines.len() as int) =~= lines);
    }
}

/// Sorts the lines of an input list into host names and malformed entries.
///
/// Every line is trimmed. Each trimmed line goes to exactly one of the two
/// lists, a host name if it has more than [`MALFORMED_LENGTH`] characters,
/// and both lists keep the order of the lines.
pub fn screen(lines: &Vec<String>) -> (screened: Screened)
    ensures
        screened.hostnames.deep_view() == hostnames_of(lines.deep_view()),
        screened.malformed.deep_view() == malformed_of(lines.deep_view()),
{
    let mut hostnames: Vec<String> = Vec::new();
    let mut malformed: Vec<String> = Vec::new();
    let ghost all = lines.deep_view();
    let mut i: usize = 0;
    proof {
        reveal(Seq::filter);
    }
    while i < lines.len()
        invariant
            i <= lines.len(),
            all == lines.deep_view(),
            hostnames.deep_view() == hostnames_of(all.take(i as int)),
            malformed.deep_view() == malformed_of(all.take(i as int)),
        decreases lines.len() - i,
    {
        proof {
            lemma_next_line(all, i as int);
        }
        match read_line(lines[i].as_str()) {
            Ok(hostname) => hostnames.push(hostname),
            Err(entry) => malformed.push(entry),
        }
        i += 1;
    }
    proof {
        assert(all.take(lines.len() as int) =~= all);
    }
    Screened { hostnames, malformed }
}

} // verus!
