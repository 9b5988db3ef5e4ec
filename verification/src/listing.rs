//! Directory listing order: directories sort before files, and within each
//! group entries sort by case-insensitive name. This ordering is a
//! presentation contract the caller depends on, so it is stated and proved
//! here: the listing is sorted under `entry_le` and is a permutation of the
//! entries the remote peer returned.

use vstd::prelude::*;
use vstd::multiset::Multiset;
use crate::sftp::{build_file_entry, FileEntry, RawFileAttr};
use crate::text::{lex_le, lemma_lex_le_total, lemma_lex_le_trans, lower_of, lowercase, str_lex_le};

verus! {

/// The sort key of an entry name: its lowercase form.
pub open spec fn lower_name(e: FileEntry) -> Seq<char> {
    lower_of(e.name@)
}

/// The listing order: directories before files, case-insensitive
/// lexicographic name order within each group.
pub open spec fn entry_le(a: FileEntry, b: FileEntry) -> bool {
    if a.is_dir != b.is_dir {
        a.is_dir
    } else {
        lex_le(lower_name(a), lower_name(b))
    }
}

/// Whether a sequence of entries is in listing order.
pub open spec fn entries_sorted(s: Seq<FileEntry>) -> bool {
    forall|i: int, j: int| 0 <= i < j < s.len() ==> entry_le(s[i], s[j])
}

/// The listing order relates every pair of entries one way or the other.
pub proof fn lemma_entry_le_total(a: FileEntry, b: FileEntry)
    ensures
        entry_le(a, b) || entry_le(b, a),
{
    if a.is_dir == b.is_dir {
        lemma_lex_le_total(lower_name(a), lower_name(b));
    }
}

/// The listing order is transitive.
pub proof fn lemma_entry_le_trans(a: FileEntry, b: FileEntry, c: FileEntry)
    requires
        entry_le(a, b),
        entry_le(b, c),
    ensures
        entry_le(a, c),
{
    if a.is_dir == b.is_dir && b.is_dir == c.is_dir {
        lemma_lex_le_trans(lower_name(a), lower_name(b), lower_name(c));
    }
}

/// Decide the listing order of two entries.
pub fn entry_le_exec(a: &FileEntry, b: &FileEntry) -> (r: bool)
    ensures
        r == entry_le(*a, *b),
{
    if a.is_dir != b.is_dir {
        a.is_dir
    } else {
        let la = lowercase(a.name.as_str());
        let lb = lowercase(b.name.as_str());
        str_lex_le(la.as_str(), lb.as_str())
    }
}

/// Inserting an element anywhere adds exactly that element to the multiset.
proof fn lemma_insert_to_multiset(s: Seq<FileEntry>, i: int, x: FileEntry)
    requires
        0 <= i <= s.len(),
    ensures
        s.insert(i, x).to_multiset() == s.to_multiset().insert(x),
{
    broadcast use vstd::seq_lib::group_to_multiset_ensures;

    let t = s.insert(i, x);
    assert(t.remove(i) =~= s);
    assert(t[i] == x);
    assert(t.remove(i).to_multiset() =~= t.to_multiset().remove(x));
    assert(t.to_multiset().contains(x));
    assert(t.to_multiset() =~= t.to_multiset().remove(x).insert(x));
}

/// The position a new entry takes in a listing-ordered sequence: after
/// every entry that precedes it in the order.
fn insertion_index(v: &Vec<FileEntry>, x: &FileEntry) -> (i: usize)
    requires
        entries_sorted(v@),
    ensures
        i <= v@.len(),
        forall|k: int| 0 <= k < i ==> entry_le(v@[k], *x),
        i < v@.len() ==> entry_le(*x, v@[i as int]),
{
    let mut i: usize = 0;
    while i < v.len()
        invariant
            i <= v@.len(),
            forall|k: int| 0 <= k < i ==> entry_le(v@[k], *x),
        decreases v@.len() - i,
    {
        if !entry_le_exec(&v[i], x) {
            proof {
                lemma_entry_le_total(v@[i as int], *x);
            }
            return i;
        }
        i = i + 1;
    }
    i
}

/// Insert one entry into a listing-ordered sequence, keeping it ordered.
fn insert_sorted(v: &mut Vec<FileEntry>, x: FileEntry)
    requires
        entries_sorted(old(v)@),
    ensures
        entries_sorted(final(v)@),
        final(v)@.to_multiset() == old(v)@.to_multiset().insert(x),
{
    let i = insertion_index(v, &x);
    let ghost before = v@;
    v.insert(i, x);
    proof {
        lemma_insert_to_multiset(before, i as int, x);
        let t = v@;
        assert forall|p: int, q: int| 0 <= p < q < t.len() implies entry_le(t[p], t[q]) by {
            if p < i as int && q == i as int {
            } else if p == i as int && q > i as int {
                // x precedes the element it displaced, which precedes the rest.
                if q == i + 1 {
                    assert(t[q] == before[i as int]);
                    assert(entry_le(x, before[i as int]));
                } else {
                    assert(entry_le(x, before[i as int]));
                    assert(t[q] == before[q - 1]);
                    assert(entry_le(before[i as int], before[q - 1]));
                    lemma_entry_le_trans(x, before[i as int], before[q - 1]);
                }
            } else if p < i as int && q > i as int {
                assert(t[p] == before[p]);
                assert(t[q] == before[q - 1]);
            } else if p > i as int && q > i as int {
                assert(t[p] == before[p - 1]);
                assert(t[q] == before[q - 1]);
            }
        }
    }
}

/// Sort entries into listing order. The result is a permutation of the
/// input: every entry appears exactly as often as it did.
pub fn sort_entries(entries: Vec<FileEntry>) -> (r: Vec<FileEntry>)
    ensures
        entries_sorted(r@),
        r@.to_multiset() == entries@.to_multiset(),
{
    broadcast use vstd::seq_lib::group_to_multiset_ensures;

    let mut rest = entries;
    let mut out: Vec<FileEntry> = Vec::new();
    proof {
        assert(out@.to_multiset() =~= Multiset::<FileEntry>::empty());
        assert(out@.to_multiset().add(rest@.to_multiset()) =~= rest@.to_multiset());
    }
    while rest.len() > 0
        invariant
            entries_sorted(out@),
            out@.to_multiset().add(rest@.to_multiset()) == entries@.to_multiset(),
        decreases rest@.len(),
    {
        let ghost rest_before = rest@;
        let ghost out_before = out@;
        let x = rest.remove(0);
        proof {
            broadcast use vstd::seq_lib::group_to_multiset_ensures;

            assert(rest_before.to_multiset().contains(x));
            assert(rest_before.remove(0).to_multiset() =~= rest_before.to_multiset().remove(x));
        }
        insert_sorted(&mut out, x);
        proof {
            broadcast use vstd::seq_lib::group_to_multiset_ensures;

            assert(out@.to_multiset() == out_before.to_multiset().insert(x));
            assert(out@.to_multiset().add(rest@.to_multiset()) =~= out_before.to_multiset().add(
                rest_before.to_multiset(),
            ));
        }
    }
    proof {
        assert(out@.to_multiset().add(rest@.to_multiset()) =~= out@.to_multiset());
    }
    out
}

/// Whether a caller-visible entry is the one built for a raw row listed in
/// a directory.
pub open spec fn entry_built_from(
    e: FileEntry,
    dir: Seq<char>,
    name: Seq<char>,
    a: RawFileAttr,
) -> bool {
    &&& e.name@ == name
    &&& e.path@ == crate::sftp::entry_path(dir, name)
    &&& e.is_dir == a.is_dir
    &&& e.size == (match a.size {
        Some(s) => s,
        None => 0u64,
    })
    &&& e.modified@ == crate::sftp::timestamp_text(a.mtime)
    &&& e.permissions@ == crate::sftp::permissions_text(a.permissions)
    &&& e.owner@ == crate::sftp::id_text(a.uid)
    &&& e.group@ == crate::sftp::id_text(a.gid)
}

/// Whether some entry of the listing is the one built for the given row.
pub open spec fn listed_for_row(
    r: Seq<FileEntry>,
    dir: Seq<char>,
    name: Seq<char>,
    a: RawFileAttr,
) -> bool {
    exists|k: int| 0 <= k < r.len() && entry_built_from(r[k], dir, name, a)
}

/// Whether an entry is the one built for some row of the raw listing.
pub open spec fn built_for_entry(
    e: FileEntry,
    dir: Seq<char>,
    raw: Seq<(String, RawFileAttr)>,
) -> bool {
    exists|i: int| 0 <= i < raw.len() && entry_built_from(e, dir, raw[i].0@, raw[i].1)
}

/// Build the listing of a directory from what the remote peer returned:
/// each raw row becomes one caller-visible entry for the listed path, the
/// result is in listing order, and it holds exactly the entries built from
/// the rows — every listed entry comes from a row, and every row is listed.
pub fn build_listing(dir_path: &str, raw: Vec<(String, RawFileAttr)>) -> (r: Vec<FileEntry>)
    ensures
        entries_sorted(r@),
        r@.len() == raw@.len(),
        forall|k: int|
            0 <= k < r@.len() ==> built_for_entry(#[trigger] r@[k], dir_path@, raw@),
        forall|i: int|
            0 <= i < raw@.len() ==> listed_for_row(
                r@,
                dir_path@,
                (#[trigger] raw@[i]).0@,
                raw@[i].1,
            ),
{
    let mut built: Vec<FileEntry> = Vec::new();
    let mut i: usize = 0;
    while i < raw.len()
        invariant
            i <= raw@.len(),
            built@.len() == i,
            forall|j: int|
                0 <= j < i ==> entry_built_from(
                    #[trigger] built@[j],
                    dir_path@,
                    raw@[j].0@,
                    raw@[j].1,
                ),
        decreases raw@.len() - i,
    {
        let e = build_file_entry(dir_path, raw[i].0.as_str(), &raw[i].1);
        built.push(e);
        i = i + 1;
    }
    let ghost b = built@;
    let r = sort_entries(built);
    proof {
        broadcast use vstd::seq_lib::group_to_multiset_ensures;

        assert(r@.len() == r@.to_multiset().len());
        assert(b.len() == b.to_multiset().len());
        assert forall|k: int| 0 <= k < r@.len() implies built_for_entry(
            #[trigger] r@[k],
            dir_path@,
            raw@,
        ) by {
            assert(r@.contains(r@[k]));
            assert(b.to_multiset().count(r@[k]) > 0);
            assert(b.contains(r@[k]));
            let i = choose|i: int| 0 <= i < b.len() && b[i] == r@[k];
            assert(entry_built_from(r@[k], dir_path@, raw@[i].0@, raw@[i].1));
        }
        assert forall|i: int| 0 <= i < raw@.len() implies listed_for_row(
            r@,
            dir_path@,
            (#[trigger] raw@[i]).0@,
            raw@[i].1,
        ) by {
            assert(b.contains(b[i]));
            assert(r@.to_multiset().count(b[i]) > 0);
            assert(r@.contains(b[i]));
            let k = choose|k: int| 0 <= k < r@.len() && r@[k] == b[i];
            assert(entry_built_from(r@[k], dir_path@, raw@[i].0@, raw@[i].1));
        }
    }
    r
}


/// No two entries of the sequence are tied in the listing order: each pair
/// is strictly ordered one way.
pub open spec fn entries_untied(s: Seq<FileEntry>) -> bool {
    forall|i: int, j: int|
        0 <= i < j < s.len() ==> !(entry_le(s[i], s[j]) && entry_le(s[j], s[i]))
}

/// Listing order is deterministic: two listing-ordered sequences holding
/// the same entries, none of them tied in the order, are equal. With the
/// sortedness and permutation contract of `sort_entries`, the listing of a
/// directory is therefore the same for any permutation of creation order.
pub proof fn lemma_listing_deterministic(s: Seq<FileEntry>, t: Seq<FileEntry>)
    requires
        entries_sorted(s),
        entries_sorted(t),
        entries_untied(s),
        s.to_multiset() == t.to_multiset(),
    ensures
        s == t,
    decreases s.len(),
{
    broadcast use vstd::seq_lib::group_to_multiset_ensures;

    assert(s.to_multiset().len() == s.len());
    assert(t.to_multiset().len() == t.len());
    if s.len() == 0 {
        assert(s =~= t);
    } else {
        assert(t.len() == s.len());
        // The head of each sequence occurs in the other.
        assert(s.contains(s[0]));
        assert(t.to_multiset().count(s[0]) > 0);
        assert(t.contains(s[0]));
        let k = choose|k: int| 0 <= k < t.len() && t[k] == s[0];
        assert(t.contains(t[0]));
        assert(s.to_multiset().count(t[0]) > 0);
        assert(s.contains(t[0]));
        let m = choose|m: int| 0 <= m < s.len() && s[m] == t[0];
        // Each head precedes the other in the order.
        lemma_entry_le_total(s[0], s[0]);
        lemma_entry_le_total(t[0], t[0]);
        assert(entry_le(t[0], s[0]));
        assert(entry_le(s[0], t[0]));
        // An untied sequence cannot hold the other head at a later index.
        if m != 0 {
            assert(entry_le(s[0], s[m]));
            assert(entry_le(s[m], s[0]));
            assert(false);
        }
        assert(s[0] == t[0]);

        let ds = s.drop_first();
        let dt = t.drop_first();
        assert(ds =~= s.remove(0));
        assert(dt =~= t.remove(0));
        assert(s.remove(0).to_multiset() =~= s.to_multiset().remove(s[0]));
        assert(t.remove(0).to_multiset() =~= t.to_multiset().remove(t[0]));
        assert(ds.to_multiset() == dt.to_multiset());
        assert(entries_sorted(ds)) by {
            assert forall|i: int, j: int| 0 <= i < j < ds.len() implies entry_le(
                ds[i],
                ds[j],
            ) by {
                assert(ds[i] == s[i + 1]);
                assert(ds[j] == s[j + 1]);
            }
        }
        assert(entries_sorted(dt)) by {
            assert forall|i: int, j: int| 0 <= i < j < dt.len() implies entry_le(
                dt[i],
                dt[j],
            ) by {
                assert(dt[i] == t[i + 1]);
                assert(dt[j] == t[j + 1]);
            }
        }
        assert(entries_untied(ds)) by {
            assert forall|i: int, j: int| 0 <= i < j < ds.len() implies !(entry_le(ds[i], ds[j])
                && entry_le(ds[j], ds[i])) by {
                assert(ds[i] == s[i + 1]);
                assert(ds[j] == s[j + 1]);
            }
        }
        lemma_listing_deterministic(ds, dt);
        assert forall|i: int| 0 <= i < s.len() implies s[i] == t[i] by {
            if i > 0 {
                assert(s[i] == ds[i - 1]);
                assert(t[i] == dt[i - 1]);
            }
        }
        assert(s =~= t);
    }
}

} // verus!
