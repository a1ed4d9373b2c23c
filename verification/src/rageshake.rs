//! Archives of trace files.

use vstd::prelude::*;
use vstd::seq_lib::{to_multiset_build, to_multiset_insert};
use vstd::string::*;

use crate::text::{
    concat2, concat3, decimal, decimal_string, ends_with, has_prefix, has_suffix, starts_with,
};

verus! {

/// How many trace files there are at least when archives are made.
pub const MAX_PLAINTEXT_FILES: usize = 200;

/// How many trace files go into one archive.
pub const COMPRESSED_FILES_PER_PLAINTEXT: usize = 200;

/// An entry of the directory of the trace files.
pub struct TraceEntry {
    pub name: String,
    pub is_file: bool,
}

/// The beginning of the names of the trace files of a client.
pub fn trace_file_prefix(client_name: &str) -> (r: String)
    ensures
        r@ == client_name@ + "-trace"@,
{
    concat2(client_name, "-trace")
}

/// Whether an entry is a trace file.
pub open spec fn is_trace_file(entry: TraceEntry, prefix: Seq<char>) -> bool {
    has_prefix(entry.name@, prefix) && has_suffix(entry.name@, "json"@) && entry.is_file
}

/// An archive to be made.
pub struct TraceArchive {
    /// The name of the archive.
    pub archive_name: String,
    /// The name of the archive once it is compressed.
    pub compressed_name: String,
    /// The trace files that go into it, which are removed afterwards.
    pub files: Vec<String>,
}

/// The name of the archive with this number, without its extension.
pub open spec fn archive_stem(now_secs: u64, number: nat) -> Seq<char> {
    if number == 0 {
        "weechat-matrix-traces-"@ + decimal(now_secs as nat)
    } else {
        "weechat-matrix-traces-"@ + decimal(now_secs as nat) + "-"@ + decimal(number)
    }
}

/// Whether a text comes before another one, or is the same. The first character that
/// differs decides, and a text comes before those that go on after it.
pub open spec fn comes_before(a: Seq<char>, b: Seq<char>) -> bool
    decreases a.len(),
{
    if a.len() == 0 {
        true
    } else if b.len() == 0 {
        false
    } else if a[0] == b[0] {
        comes_before(a.skip(1), b.skip(1))
    } else {
        a[0] < b[0]
    }
}

/// Whether the texts are in order.
pub open spec fn in_order(texts: Seq<Seq<char>>) -> bool {
    forall|i: int, j: int|
        0 <= i < j < texts.len() ==> comes_before(#[trigger] texts[i], #[trigger] texts[j])
}

/// Of two texts, one comes before the other.
proof fn lemma_total(a: Seq<char>, b: Seq<char>)
    ensures
        comes_before(a, b) || comes_before(b, a),
    decreases a.len(),
{
    if a.len() > 0 && b.len() > 0 && a[0] == b[0] {
        lemma_total(a.skip(1), b.skip(1));
    }
}

/// What comes before a text comes before all that come after it.
proof fn lemma_transitive(a: Seq<char>, b: Seq<char>, c: Seq<char>)
    requires
        comes_before(a, b),
        comes_before(b, c),
    ensures
        comes_before(a, c),
    decreases a.len(),
{
    if a.len() > 0 && b.len() > 0 && c.len() > 0 && a[0] == b[0] && b[0] == c[0] {
        lemma_transitive(a.skip(1), b.skip(1), c.skip(1));
    }
}

/// Whether a text comes before another one, or is the same.
fn is_before(a: &str, b: &str) -> (r: bool)
    ensures
        r == comes_before(a@, b@),
{
    let n: usize = a.unicode_len();
    let m: usize = b.unicode_len();
    let mut i: usize = 0;
    proof {
        assert(a@.skip(0) =~= a@);
        assert(b@.skip(0) =~= b@);
    }
    while i < n && i < m
        invariant
            n == a@.len(),
            m == b@.len(),
            i <= n,
            i <= m,
            comes_before(a@, b@) == comes_before(a@.skip(i as int), b@.skip(i as int)),
        decreases n - i,
    {
        let x: char = a.get_char(i);
        let y: char = b.get_char(i);
        proof {
            assert(a@.skip(i as int).skip(1) =~= a@.skip(i as int + 1));
            assert(b@.skip(i as int).skip(1) =~= b@.skip(i as int + 1));
        }
        if x != y {
            return x < y;
        }
        i = i + 1;
    }
    i == n
}

/// The texts of a list.
pub open spec fn texts_of(list: Seq<String>) -> Seq<Seq<char>> {
    list.map_values(|s: String| s@)
}

/// Puts a text into a list that is in order, before the first text that it comes
/// before.
fn insert_in_order(list: &mut Vec<String>, text: String)
    requires
        in_order(texts_of(old(list)@)),
    ensures
        in_order(texts_of(final(list)@)),
        final(list)@.to_multiset() == old(list)@.to_multiset().insert(text),
{
    let mut i: usize = 0;
    while i < list.len() && !is_before(text.as_str(), list[i].as_str())
        invariant
            i <= list.len(),
            list@ == old(list)@,
            forall|j: int|
                0 <= j < i ==> comes_before(#[trigger] texts_of(list@)[j], text@),
        decreases list.len() - i,
    {
        proof {
            lemma_total(text@, list@[i as int]@);
            assert(texts_of(list@)[i as int] == list@[i as int]@);
        }
        i = i + 1;
    }
    let ghost before = list@;
    list.insert(i, text);
    proof {
        let after = texts_of(list@);
        assert(list@ =~= before.insert(i as int, text));
        to_multiset_insert(before, i as int, text);
        assert forall|a: int, b: int| 0 <= a < b < after.len() implies comes_before(
            #[trigger] after[a],
            #[trigger] after[b],
        ) by {
            let old_texts = texts_of(before);
            if b < i {
                assert(after[a] == old_texts[a] && after[b] == old_texts[b]);
            } else if a > i {
                assert(after[a] == old_texts[a - 1] && after[b] == old_texts[b - 1]);
            } else if a == i {
                assert(after[b] == old_texts[b - 1]);
                if b - 1 > i {
                    assert(comes_before(old_texts[i as int], old_texts[b - 1]));
                    lemma_transitive(text@, old_texts[i as int], old_texts[b - 1]);
                }
            } else if b == i {
                assert(after[a] == old_texts[a]);
            } else {
                assert(after[a] == old_texts[a] && after[b] == old_texts[b - 1]);
            }
        }
    }
}

/// The names of the trace files among the entries.
pub open spec fn trace_names(entries: Seq<TraceEntry>, prefix: Seq<char>) -> Seq<String> {
    entries.filter(|entry: TraceEntry| is_trace_file(entry, prefix)).map_values(
        |entry: TraceEntry| entry.name,
    )
}

/// Whether a list has the names of the trace files in it, in order.
pub open spec fn is_sorted_list(
    list: Seq<String>,
    entries: Seq<TraceEntry>,
    prefix: Seq<char>,
) -> bool {
    in_order(texts_of(list)) && list.to_multiset() == trace_names(entries, prefix).to_multiset()
}

/// The names of the trace files among the entries, in order.
pub fn sorted_trace_files(entries: &Vec<TraceEntry>, prefix: &str) -> (r: Vec<String>)
    ensures
        is_sorted_list(r@, entries@, prefix@),
{
    let ghost keep = |entry: TraceEntry| is_trace_file(entry, prefix@);
    let ghost f = |entry: TraceEntry| entry.name;
    let mut list: Vec<String> = Vec::new();
    let mut i: usize = 0;
    proof {
        reveal(Seq::filter);
        assert(entries@.take(0).filter(keep).map_values(f) =~= Seq::empty());
        assert(list@ =~= Seq::empty());
    }
    while i < entries.len()
        invariant
            i <= entries.len(),
            keep == (|entry: TraceEntry| is_trace_file(entry, prefix@)),
            f == (|entry: TraceEntry| entry.name),
            in_order(texts_of(list@)),
            list@.to_multiset() == entries@.take(i as int).filter(keep).map_values(f).to_multiset(),
        decreases entries.len() - i,
    {
        let ghost before = entries@.take(i as int).filter(keep);
        proof {
            reveal(Seq::filter);
            assert(entries@.take(i as int + 1).drop_last() =~= entries@.take(i as int));
            assert(entries@.take(i as int + 1).last() == entries@[i as int]);
        }
        let entry: &TraceEntry = &entries[i];
        if starts_with(entry.name.as_str(), prefix) && ends_with(entry.name.as_str(), "json")
            && entry.is_file {
            insert_in_order(&mut list, entry.name.clone());
            proof {
                let names = before.map_values(f);
                assert(before.push(entries@[i as int]).map_values(f) =~= names.push(entry.name));
                to_multiset_build(names, entry.name);
            }
        }
        i = i + 1;
    }
    proof {
        assert(entries@.take(i as int) =~= entries@);
    }
    list
}

/// The archives to be made of a list of trace files: each takes as many as fit, and
/// what is left at the end stays. None are made of a few files.
pub open spec fn archives_of(files: Seq<String>, now_secs: u64, r: Seq<TraceArchive>) -> bool {
    if files.len() < MAX_PLAINTEXT_FILES {
        r.len() == 0
    } else {
        &&& r.len() == files.len() / COMPRESSED_FILES_PER_PLAINTEXT as nat
        &&& forall|k: int|
            0 <= k < r.len() ==> {
                &&& (#[trigger] r[k]).archive_name@ == archive_stem(now_secs, k as nat) + ".tar"@
                &&& r[k].compressed_name@ == archive_stem(now_secs, k as nat) + ".tar.zstd"@
                &&& r[k].files@ == files.subrange(
                    k * COMPRESSED_FILES_PER_PLAINTEXT,
                    (k + 1) * COMPRESSED_FILES_PER_PLAINTEXT,
                )
            }
    }
}

/// The name of the archive with this number, without its extension.
fn new_archive_stem(now_secs: u64, number: u64) -> (r: String)
    ensures
        r@ == archive_stem(now_secs, number as nat),
{
    let secs: String = decimal_string(now_secs);
    let start: String = concat2("weechat-matrix-traces-", secs.as_str());
    if number == 0 {
        start
    } else {
        let digits: String = decimal_string(number);
        concat3(start.as_str(), "-", digits.as_str())
    }
}

/// The archives to be made of a list of trace files.
pub fn archive_plan(files: &Vec<String>, now_secs: u64) -> (r: Vec<TraceArchive>)
    ensures
        archives_of(files@, now_secs, r@),
{
    let mut plan: Vec<TraceArchive> = Vec::new();
    if files.len() < MAX_PLAINTEXT_FILES {
        return plan;
    }
    let count: usize = files.len() / COMPRESSED_FILES_PER_PLAINTEXT;
    let mut number: usize = 0;
    while number < count
        invariant
            number <= count,
            files@.len() <= usize::MAX,
            count == files@.len() / COMPRESSED_FILES_PER_PLAINTEXT as nat,
            plan@.len() == number,
            forall|k: int|
                0 <= k < number ==> {
                    &&& (#[trigger] plan@[k]).archive_name@ == archive_stem(now_secs, k as nat)
                        + ".tar"@
                    &&& plan@[k].compressed_name@ == archive_stem(now_secs, k as nat)
                        + ".tar.zstd"@
                    &&& plan@[k].files@ == files@.subrange(
                        k * COMPRESSED_FILES_PER_PLAINTEXT,
                        (k + 1) * COMPRESSED_FILES_PER_PLAINTEXT,
                    )
                },
        decreases count - number,
    {
        let start: usize = number * COMPRESSED_FILES_PER_PLAINTEXT;
        let end: usize = start + COMPRESSED_FILES_PER_PLAINTEXT;
        let mut chunk: Vec<String> = Vec::new();
        let mut i: usize = start;
        while i < end
            invariant
                start <= i <= end,
                end <= files@.len(),
                chunk@ == files@.subrange(start as int, i as int),
            decreases end - i,
        {
            chunk.push(files[i].clone());
            proof {
                assert(chunk@ =~= files@.subrange(start as int, i as int + 1));
            }
            i = i + 1;
        }
        let stem: String = new_archive_stem(now_secs, number as u64);
        plan.push(
            TraceArchive {
                archive_name: concat2(stem.as_str(), ".tar"),
                compressed_name: concat2(stem.as_str(), ".tar.zstd"),
                files: chunk,
            },
        );
        number = number + 1;
    }
    plan
}

/// All archives together hold the first files of the list, each once, and fewer
/// files than one archive takes are left.
pub proof fn archives_hold_each_file_once(
    files: Seq<String>,
    now_secs: u64,
    archives: Seq<TraceArchive>,
    i: int,
)
    requires
        archives_of(files, now_secs, archives),
        files.len() >= MAX_PLAINTEXT_FILES,
        0 <= i < files.len(),
    ensures
        files.len() - archives.len() * COMPRESSED_FILES_PER_PLAINTEXT
            < COMPRESSED_FILES_PER_PLAINTEXT,
        i < archives.len() * COMPRESSED_FILES_PER_PLAINTEXT ==> {
            let k = i / COMPRESSED_FILES_PER_PLAINTEXT as int;
            &&& 0 <= k < archives.len()
            &&& archives[k].files@[i % COMPRESSED_FILES_PER_PLAINTEXT as int] == files[i]
        },
{
    if i < archives.len() * COMPRESSED_FILES_PER_PLAINTEXT {
        let k = i / COMPRESSED_FILES_PER_PLAINTEXT as int;
        assert(archives[k].files@ == files.subrange(
            k * COMPRESSED_FILES_PER_PLAINTEXT,
            (k + 1) * COMPRESSED_FILES_PER_PLAINTEXT,
        ));
    }
}

/// Exactly the files whose names begin and end as those of traces do are packed, in order.
pub proof fn traces_are_listed(entries: Vec<TraceEntry>, prefix: &str, list: Vec<String>, name: String)
    requires
        call_ensures(sorted_trace_files, (&entries, prefix), list),
    ensures
        list@.contains(name) <==> exists|i: int|
            {
                &&& 0 <= i < entries@.len()
                &&& (#[trigger] entries@[i]).name == name
                &&& entries@[i].is_file
                &&& has_prefix(name@, prefix@)
                &&& has_suffix(name@, "json"@)
            },
        forall|i: int, j: int|
            0 <= i < j < list@.len() ==> comes_before((#[trigger] list@[i])@, (#[trigger] list@[j])@),
{
    let keep = |entry: TraceEntry| is_trace_file(entry, prefix@);
    let f = |entry: TraceEntry| entry.name;
    let kept = entries@.filter(keep);
    let found = trace_names(entries@, prefix@);
    assert(found == kept.map_values(f));
    vstd::seq_lib::to_multiset_contains(list@, name);
    vstd::seq_lib::to_multiset_contains(found, name);
    assert(list@.contains(name) <==> found.contains(name));
    if found.contains(name) {
        let k = choose|k: int| 0 <= k < found.len() && found[k] == name;
        entries@.lemma_filter_pred(keep, k);
        entries@.lemma_filter_contains_rev(keep, kept[k]);
        let i = choose|i: int| 0 <= i < entries@.len() && entries@[i] == kept[k];
        assert(entries@[i].name == name);
    }
    if exists|i: int|
        {
            &&& 0 <= i < entries@.len()
            &&& (#[trigger] entries@[i]).name == name
            &&& entries@[i].is_file
            &&& has_prefix(name@, prefix@)
            &&& has_suffix(name@, "json"@)
        } {
        let i = choose|i: int|
            {
                &&& 0 <= i < entries@.len()
                &&& (#[trigger] entries@[i]).name == name
                &&& entries@[i].is_file
                &&& has_prefix(name@, prefix@)
                &&& has_suffix(name@, "json"@)
            };
        assert(keep(entries@[i]));
        entries@.lemma_filter_contains(keep, i);
        let k = choose|k: int| 0 <= k < kept.len() && kept[k] == entries@[i];
        assert(found[k] == name);
    }
    assert forall|i: int, j: int| 0 <= i < j < list@.len() implies comes_before(
        (#[trigger] list@[i])@,
        (#[trigger] list@[j])@,
    ) by {
        assert(texts_of(list@)[i] == list@[i]@ && texts_of(list@)[j] == list@[j]@);
    }
}

/// Nothing is packed of fewer than two hundred traces; of more, each archive takes the next two
/// hundred, and less than two hundred are left.
pub proof fn archives_take_two_hundred_traces(
    files: Vec<String>,
    now: u64,
    plan: Vec<TraceArchive>,
    k: int,
)
    requires
        call_ensures(archive_plan, (&files, now), plan),
    ensures
        files@.len() < 200 ==> plan@.len() == 0,
        plan@.len() * 200 <= files@.len() < plan@.len() * 200 + 200,
        0 <= k < plan@.len() ==> plan@[k].files@ == files@.subrange(k * 200, k * 200 + 200),
{
    if 0 <= k < plan@.len() {
        assert(plan@[k].files@ == files@.subrange(k * 200, (k + 1) * 200));
    }
}

/// Archives are named after the time that they were made at and their number, but for the first, and
/// the compressed ones after them.
pub proof fn archives_are_named_after_time_and_number(
    files: Vec<String>,
    now: u64,
    plan: Vec<TraceArchive>,
    k: int,
    client: &str,
    prefix: String,
)
    requires
        call_ensures(archive_plan, (&files, now), plan),
        0 <= k < plan@.len(),
        call_ensures(trace_file_prefix, (client,), prefix),
    ensures
        k == 0 ==> plan@[k].archive_name@ == "weechat-matrix-traces-"@ + decimal(now as nat)
            + ".tar"@,
        k > 0 ==> plan@[k].archive_name@ == "weechat-matrix-traces-"@ + decimal(now as nat) + "-"@
            + decimal(k as nat) + ".tar"@,
        plan@[k].compressed_name@ == plan@[k].archive_name@ + ".zstd"@,
        prefix@ == client@ + "-trace"@,
{
    reveal_strlit(".tar");
    reveal_strlit(".zstd");
    reveal_strlit(".tar.zstd");
    assert(".tar"@ + ".zstd"@ =~= ".tar.zstd"@);
    assert(plan@[k].archive_name@ == archive_stem(now, k as nat) + ".tar"@);
    assert(plan@[k].compressed_name@ =~= plan@[k].archive_name@ + ".zstd"@);
}

} // verus!
