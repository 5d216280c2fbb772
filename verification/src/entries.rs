//! The pure rules of browsing saved entries: which file names count as
//! dated journal files, what text a stored file contributes to the
//! browsing view, and the newest-first order of the entry list. Reading
//! the directory itself is the persistence collaborator's job.

use vstd::prelude::*;
use vstd::multiset::Multiset;
use vstd::string::StringSliceAdditionalSpecFns;
use crate::app::JournalEntry;
use crate::config::FileFormat;

verus! {

/// A file stem names a dated journal file when it is at least ten bytes
/// long and its fifth and eighth characters are dashes, as the
/// `year-month-day` stamp has them.
pub open spec fn spec_is_dated_stem(bytes: Seq<u8>, chars: Seq<char>) -> bool {
    &&& bytes.len() >= 10
    &&& chars.len() > 4 && chars[4] == '-'
    &&& chars.len() > 7 && chars[7] == '-'
}

/// Decides whether a file stem looks like a `year-month-day` stamp.
pub fn is_dated_stem(stem: &str) -> (r: bool)
    ensures
        r == spec_is_dated_stem(stem.spec_bytes(), stem@),
{
    let bytes = stem.as_bytes();
    if bytes.len() < 10 {
        return false;
    }
    let n = stem.unicode_len();
    if n <= 4 {
        return false;
    }
    if stem.get_char(4) != '-' {
        return false;
    }
    if n <= 7 {
        return false;
    }
    stem.get_char(7) == '-'
}

/// What the JSON reading of a stored file yields: the string under the
/// top-level "content" key, when the text parses as JSON and has one.
pub uninterp spec fn json_content_of(raw: Seq<char>) -> Option<Seq<char>>;

/// Relies on serde_json::from_str, Value::get and Value::as_str: parses
/// the text as JSON and extracts the top-level "content" field when it
/// is a string; the outcome is a function of the text alone.
#[verifier::external_body]
fn json_content_field(raw: &str) -> (r: Option<String>)
    ensures
        (r is Some) == (json_content_of(raw@) is Some),
        r matches Some(s) ==> json_content_of(raw@) == Some(s@),
{
    match serde_json::from_str::<serde_json::Value>(raw) {
        Ok(value) => match value.get("content") {
            Some(field) => field.as_str().map(|s| s.to_string()),
            None => None,
        },
        Err(_) => None,
    }
}

/// The text a stored file contributes to the browsing view: for JSON
/// files the "content" field when one can be extracted, the raw text
/// otherwise; for every other format the raw text as it is.
pub open spec fn spec_display_content(format: FileFormat, raw: Seq<char>) -> Seq<char> {
    if format == FileFormat::Json {
        match json_content_of(raw) {
            Some(c) => c,
            None => raw,
        }
    } else {
        raw
    }
}

/// Extracts the text shown for one stored file.
pub fn entry_display_content(format: &FileFormat, raw: String) -> (r: String)
    ensures
        r@ == spec_display_content(*format, raw@),
{
    match format {
        FileFormat::Json => {
            match json_content_field(raw.as_str()) {
                Some(content) => content,
                None => raw,
            }
        },
        _ => raw,
    }
}

/// Builds the browsing view of one stored file: the stem is its date
/// stamp, the content is what `entry_display_content` extracts.
pub fn build_entry(stem: String, filename: String, raw: String, format: &FileFormat) -> (r:
    JournalEntry)
    ensures
        r.date == stem,
        r.filename == filename,
        r.content@ == spec_display_content(*format, raw@),
{
    let content = entry_display_content(format, raw);
    JournalEntry { date: stem, content, filename }
}

/// Lexicographic order on character sequences: `a` at or before `b`.
/// On the date stamps this is the order of the dates themselves.
pub open spec fn str_le(a: Seq<char>, b: Seq<char>) -> bool
    decreases a.len(),
{
    if a.len() == 0 {
        true
    } else if b.len() == 0 {
        false
    } else if (a.first() as int) < (b.first() as int) {
        true
    } else if (b.first() as int) < (a.first() as int) {
        false
    } else {
        str_le(a.drop_first(), b.drop_first())
    }
}

/// Law: the lexicographic order is total — of any two strings, one is
/// at or before the other.
pub proof fn lemma_str_le_total(a: Seq<char>, b: Seq<char>)
    ensures
        str_le(a, b) || str_le(b, a),
    decreases a.len(),
{
    if a.len() > 0 && b.len() > 0 && a.first() == b.first() {
        lemma_str_le_total(a.drop_first(), b.drop_first());
    }
}

/// Law: the lexicographic order is transitive.
pub proof fn lemma_str_le_trans(a: Seq<char>, b: Seq<char>, c: Seq<char>)
    requires
        str_le(a, b),
        str_le(b, c),
    ensures
        str_le(a, c),
    decreases a.len(),
{
    if a.len() > 0 && b.len() > 0 && c.len() > 0 && a.first() == b.first() && b.first()
        == c.first() {
        lemma_str_le_trans(a.drop_first(), b.drop_first(), c.drop_first());
    }
}

/// Decides the lexicographic order on two strings.
pub fn str_le_exec(a: &str, b: &str) -> (r: bool)
    ensures
        r == str_le(a@, b@),
{
    let la = a.unicode_len();
    let lb = b.unicode_len();
    let mut i: usize = 0;
    proof {
        assert(a@.skip(0) =~= a@);
        assert(b@.skip(0) =~= b@);
    }
    while i < la && i < lb
        invariant
            la == a@.len(),
            lb == b@.len(),
            i <= la,
            i <= lb,
            str_le(a@, b@) == str_le(a@.skip(i as int), b@.skip(i as int)),
        decreases la - i,
    {
        let ca = a.get_char(i);
        let cb = b.get_char(i);
        if (ca as u32) < (cb as u32) {
            proof {
                assert(a@.skip(i as int).first() == ca);
                assert(b@.skip(i as int).first() == cb);
            }
            return true;
        }
        if (cb as u32) < (ca as u32) {
            proof {
                assert(a@.skip(i as int).first() == ca);
                assert(b@.skip(i as int).first() == cb);
            }
            return false;
        }
        proof {
            assert(a@.skip(i as int).first() == ca);
            assert(b@.skip(i as int).first() == cb);
            assert(a@.skip(i as int).drop_first() =~= a@.skip(i + 1));
            assert(b@.skip(i as int).drop_first() =~= b@.skip(i + 1));
        }
        i = i + 1;
    }
    proof {
        if i == la {
            assert(a@.skip(i as int).len() == 0);
        } else {
            assert(b@.skip(i as int).len() == 0);
            assert(a@.skip(i as int).len() > 0);
        }
    }
    la <= lb
}

/// The entry list is in newest-first order: every later entry's date
/// stamp is at or before every earlier one's.
pub open spec fn sorted_newest_first(s: Seq<JournalEntry>) -> bool {
    forall|i: int, j: int|
        0 <= i < j < s.len() ==> str_le(#[trigger] s[j].date@, #[trigger] s[i].date@)
}

/// Sorts the entry list newest-first by date stamp, keeping exactly the
/// same entries.
pub fn sort_entries_newest_first(entries: &mut Vec<JournalEntry>)
    ensures
        sorted_newest_first(final(entries)@),
        final(entries)@.to_multiset() == old(entries)@.to_multiset(),
{
    broadcast use vstd::seq_lib::group_to_multiset_ensures;

    if entries.len() <= 1 {
        return ;
    }
    let mut i: usize = 1;
    while i < entries.len()
        invariant
            1 <= i,
            i <= entries@.len(),
            sorted_newest_first(entries@.subrange(0, i as int)),
            entries@.to_multiset() == old(entries)@.to_multiset(),
        decreases entries@.len() - i,
    {
        let ghost before = entries@;
        let e = entries.remove(i);
        let ghost pre_insert = entries@;
        let mut j: usize = 0;
        while j < i && !str_le_exec(entries[j].date.as_str(), e.date.as_str())
            invariant
                j <= i,
                i as int <= pre_insert.len(),
                entries@ == pre_insert,
                forall|k: int| 0 <= k < j ==> !str_le(#[trigger] entries@[k].date@, e.date@),
            decreases i - j,
        {
            j = j + 1;
        }
        proof {
            assert(pre_insert.subrange(0, i as int) =~= before.subrange(0, i as int));
            lemma_insert_keeps_sorted(pre_insert, e, i as int, j as int);
        }
        entries.insert(j, e);
        proof {
            let x = before[i as int];
            before.to_multiset_ensures();
            vstd::seq_lib::to_multiset_insert(pre_insert, j as int, e);
            assert(before.contains(x)) by {
                assert(before[i as int] == x);
            }
            assert(before.to_multiset().count(x) > 0);
            assert(before.remove(i as int).to_multiset() =~= before.to_multiset().remove(x));
            assert(pre_insert.insert(j as int, e).to_multiset() =~= pre_insert.to_multiset().insert(
                e,
            ));
            assert forall|y: JournalEntry| #[trigger] entries@.to_multiset().count(y)
                == before.to_multiset().count(y) by {
                if y == x {
                    assert(before.to_multiset().remove(x).insert(x).count(x)
                        == before.to_multiset().count(x) - 1 + 1);
                } else {
                    assert(Multiset::<JournalEntry>::singleton(x).count(y) == 0);
                }
            }
            assert(entries@.to_multiset() =~= before.to_multiset());
        }
        i = i + 1;
    }
    proof {
        assert(entries@.subrange(0, entries@.len() as int) =~= entries@);
    }
}

/// Inserting `e` at the first position of the sorted prefix whose entry
/// is at or before `e` keeps the prefix sorted.
proof fn lemma_insert_keeps_sorted(s: Seq<JournalEntry>, e: JournalEntry, i: int, j: int)
    requires
        0 <= j <= i <= s.len(),
        sorted_newest_first(s.subrange(0, i)),
        forall|k: int| 0 <= k < j ==> !str_le(#[trigger] s[k].date@, e.date@),
        j < i ==> str_le(s[j].date@, e.date@),
    ensures
        sorted_newest_first(s.insert(j, e).subrange(0, i + 1)),
{
    let t = s.insert(j, e).subrange(0, i + 1);
    assert forall|x: int, y: int| 0 <= x < y < t.len() implies str_le(
        t[y].date@,
        t[x].date@,
    ) by {
        let pre = s.subrange(0, i);
        if x < j && y < j {
            assert(t[x] == pre[x] && t[y] == pre[y]);
        } else if x < j && y == j {
            lemma_str_le_total(s[x].date@, e.date@);
            assert(t[x] == pre[x] && t[y] == e);
        } else if x < j && y > j {
            assert(t[x] == pre[x] && t[y] == pre[y - 1]);
        } else if x == j && y > j {
            assert(t[x] == e && t[y] == pre[y - 1]);
            if y - 1 > j {
                assert(str_le(pre[y - 1].date@, pre[j].date@));
                lemma_str_le_trans(pre[y - 1].date@, pre[j].date@, e.date@);
            }
        } else {
            assert(x > j);
            assert(t[x] == pre[x - 1] && t[y] == pre[y - 1]);
        }
    }
}

} // verus!
