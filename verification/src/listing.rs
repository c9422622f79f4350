use vstd::prelude::*;
use vstd::multiset::Multiset;

verus! {

broadcast use vstd::seq_lib::group_to_multiset_ensures;

/// One entry of a directory: its file name and whether it is a directory.
pub struct Entry {
    pub name: String,
    pub is_dir: bool,
}

/// The order of `str`: lexicographic on Unicode scalar values, which is the
/// byte order of their UTF-8 encodings.
pub open spec fn name_lt(a: Seq<char>, b: Seq<char>) -> bool
    decreases a.len(),
{
    if a.len() == 0 {
        b.len() > 0
    } else if b.len() == 0 {
        false
    } else if a[0] == b[0] {
        name_lt(a.drop_first(), b.drop_first())
    } else {
        (a[0] as int) < (b[0] as int)
    }
}

pub open spec fn name_le(a: Seq<char>, b: Seq<char>) -> bool {
    a == b || name_lt(a, b)
}

/// Names in ascending order.
pub open spec fn names_sorted(s: Seq<Seq<char>>) -> bool {
    forall|i: int, j: int| 0 <= i < j < s.len() ==> name_le(#[trigger] s[i], #[trigger] s[j])
}

/// The names of a sequence of strings.
pub open spec fn names_of(v: Seq<String>) -> Seq<Seq<char>> {
    v.map_values(|s: String| s@)
}

/// An entry is listed when it is not hidden (its name does not begin with a
/// dot) and, unless directories are shown, it is not a directory.
pub open spec fn is_listed(entry: Entry, show_dirs: bool) -> bool {
    (show_dirs || !entry.is_dir) && entry.name@[0] != '.'
}

/// The names of the listed entries, counted with multiplicity.
pub open spec fn listed_names(entries: Seq<Entry>, show_dirs: bool) -> Multiset<Seq<char>>
    decreases entries.len(),
{
    if entries.len() == 0 {
        Multiset::empty()
    } else {
        let rest = listed_names(entries.drop_last(), show_dirs);
        if is_listed(entries.last(), show_dirs) {
            rest.insert(entries.last().name@)
        } else {
            rest
        }
    }
}

/// The name of every entry that the listing looks at is not empty.
pub open spec fn names_present(entries: Seq<Entry>, show_dirs: bool) -> bool {
    forall|i: int|
        0 <= i < entries.len() && (show_dirs || !entries[i].is_dir) ==> (#[trigger] entries[i]).name@.len()
            > 0
}

pub proof fn lemma_name_lt_irreflexive(a: Seq<char>)
    ensures
        !name_lt(a, a),
    decreases a.len(),
{
    if a.len() > 0 {
        lemma_name_lt_irreflexive(a.drop_first());
    }
}

pub proof fn lemma_name_lt_transitive(a: Seq<char>, b: Seq<char>, c: Seq<char>)
    requires
        name_lt(a, b),
        name_lt(b, c),
    ensures
        name_lt(a, c),
    decreases a.len(),
{
    if a.len() > 0 && a[0] == b[0] && b[0] == c[0] {
        lemma_name_lt_transitive(a.drop_first(), b.drop_first(), c.drop_first());
    }
}

pub proof fn lemma_name_lt_total(a: Seq<char>, b: Seq<char>)
    requires
        a != b,
    ensures
        name_lt(a, b) || name_lt(b, a),
    decreases a.len(),
{
    if a.len() == 0 {
        assert(b.len() > 0) by {
            if b.len() == 0 {
                assert(a =~= b);
            }
        }
    } else if b.len() > 0 && a[0] == b[0] {
        if a.drop_first() == b.drop_first() {
            assert(a =~= seq![a[0]] + a.drop_first());
            assert(b =~= seq![b[0]] + b.drop_first());
        }
        lemma_name_lt_total(a.drop_first(), b.drop_first());
    } else if b.len() > 0 {
        assert((a[0] as int) != (b[0] as int));
    }
}

/// The order of names is lexicographic: `a` comes before `b` exactly when
/// `a` is a proper prefix of `b`, or at the first place where they differ
/// the character of `a` has the smaller scalar value.
pub proof fn lemma_name_lt_lexicographic(a: Seq<char>, b: Seq<char>)
    ensures
        name_lt(a, b) <==> (a.len() < b.len() && a == b.subrange(0, a.len() as int)) || exists|
            k: int,
        |
            0 <= k < a.len() && k < b.len() && a.subrange(0, k) == b.subrange(0, k) && (
            #[trigger] a[k] as int) < (b[k] as int),
    decreases a.len(),
{
    if a.len() == 0 {
        if b.len() > 0 {
            assert(a =~= b.subrange(0, 0));
        }
    } else if b.len() == 0 {
    } else if a[0] == b[0] {
        let a1 = a.drop_first();
        let b1 = b.drop_first();
        lemma_name_lt_lexicographic(a1, b1);
        if a1.len() < b1.len() && a1 == b1.subrange(0, a1.len() as int) {
            assert forall|i: int| 0 < i < a.len() implies a[i] == b.subrange(0, a.len() as int)[i] by {
                assert(a[i] == a1[i - 1]);
                assert(a1[i - 1] == b1.subrange(0, a1.len() as int)[i - 1]);
            }
            assert(a =~= b.subrange(0, a.len() as int));
        }
        if a.len() < b.len() && a == b.subrange(0, a.len() as int) {
            assert(a1 =~= b1.subrange(0, a1.len() as int));
        }
        if exists|k: int|
            0 <= k < a1.len() && k < b1.len() && a1.subrange(0, k) == b1.subrange(0, k) && (
            #[trigger] a1[k] as int) < (b1[k] as int) {
            let k = choose|k: int|
                0 <= k < a1.len() && k < b1.len() && a1.subrange(0, k) == b1.subrange(0, k) && (
                #[trigger] a1[k] as int) < (b1[k] as int);
            assert(a.subrange(0, k + 1) =~= seq![a[0]] + a1.subrange(0, k));
            assert(b.subrange(0, k + 1) =~= seq![b[0]] + b1.subrange(0, k));
            assert(a[k + 1] == a1[k]);
        }
        if exists|k: int|
            0 <= k < a.len() && k < b.len() && a.subrange(0, k) == b.subrange(0, k) && (
            #[trigger] a[k] as int) < (b[k] as int) {
            let k = choose|k: int|
                0 <= k < a.len() && k < b.len() && a.subrange(0, k) == b.subrange(0, k) && (
                #[trigger] a[k] as int) < (b[k] as int);
            assert(k > 0);
            assert(a1.subrange(0, k - 1) =~= a.subrange(0, k).drop_first());
            assert(b1.subrange(0, k - 1) =~= b.subrange(0, k).drop_first());
            assert(a1[k - 1] == a[k]);
        }
    } else {
        if (a[0] as int) < (b[0] as int) {
            assert(a.subrange(0, 0) =~= b.subrange(0, 0));
        }
        if a.len() < b.len() && a == b.subrange(0, a.len() as int) {
            assert(a[0] == b.subrange(0, a.len() as int)[0]);
        }
        if exists|k: int|
            0 <= k < a.len() && k < b.len() && a.subrange(0, k) == b.subrange(0, k) && (
            #[trigger] a[k] as int) < (b[k] as int) {
            let k = choose|k: int|
                0 <= k < a.len() && k < b.len() && a.subrange(0, k) == b.subrange(0, k) && (
                #[trigger] a[k] as int) < (b[k] as int);
            if k > 0 {
                assert(a.subrange(0, k)[0] == b.subrange(0, k)[0]);
            }
        }
    }
}

/// `name_le` is transitive.
pub proof fn lemma_name_le_transitive(a: Seq<char>, b: Seq<char>, c: Seq<char>)
    requires
        name_le(a, b),
        name_le(b, c),
    ensures
        name_le(a, c),
{
    if a != b && b != c {
        lemma_name_lt_transitive(a, b, c);
    }
}

/// Every name of the listing belongs to a listed entry: one that is not
/// hidden and, unless directories are shown, not a directory.
pub proof fn lemma_listed_name_has_entry(entries: Seq<Entry>, show_dirs: bool, name: Seq<char>)
    requires
        listed_names(entries, show_dirs).contains(name),
    ensures
        exists|i: int|
            0 <= i < entries.len() && (#[trigger] entries[i]).name@ == name && is_listed(
                entries[i],
                show_dirs,
            ),
    decreases entries.len(),
{
    broadcast use vstd::multiset::group_multiset_axioms;

    let last = entries.len() - 1;
    if is_listed(entries.last(), show_dirs) && entries.last().name@ == name {
        assert(entries[last] == entries.last());
    } else {
        assert(listed_names(entries.drop_last(), show_dirs).contains(name));
        lemma_listed_name_has_entry(entries.drop_last(), show_dirs, name);
        let i = choose|i: int|
            0 <= i < entries.drop_last().len() && (#[trigger] entries.drop_last()[i]).name@ == name
                && is_listed(entries.drop_last()[i], show_dirs);
        assert(entries[i] == entries.drop_last()[i]);
    }
}

/// How often a name is listed: exactly as often as it is the name of an
/// entry that is not hidden (its name does not begin with a dot) and, unless
/// directories are shown, is not a directory.
pub proof fn lemma_listed_names_count(entries: Seq<Entry>, show_dirs: bool, name: Seq<char>)
    ensures
        listed_names(entries, show_dirs).count(name) == entries.filter(
            |e: Entry| e.name@ == name && (show_dirs || !e.is_dir) && e.name@[0] != '.',
        ).len(),
{
    lemma_listed_count_by(
        entries,
        show_dirs,
        name,
        |e: Entry| e.name@ == name && (show_dirs || !e.is_dir) && e.name@[0] != '.',
    );
}

proof fn lemma_listed_count_by(
    entries: Seq<Entry>,
    show_dirs: bool,
    name: Seq<char>,
    shown: spec_fn(Entry) -> bool,
)
    requires
        forall|e: Entry|
            #[trigger] shown(e) == (e.name@ == name && (show_dirs || !e.is_dir) && e.name@[0]
                != '.'),
    ensures
        listed_names(entries, show_dirs).count(name) == entries.filter(shown).len(),
    decreases entries.len(),
{
    broadcast use vstd::multiset::group_multiset_axioms;

    reveal_with_fuel(Seq::<_>::filter, 1);
    if entries.len() > 0 {
        lemma_listed_count_by(entries.drop_last(), show_dirs, name, shown);
    }
}

/// Every listed entry has its name in the listing.
pub proof fn lemma_listed_entry_has_name(entries: Seq<Entry>, show_dirs: bool, i: int)
    requires
        0 <= i < entries.len(),
        is_listed(entries[i], show_dirs),
    ensures
        listed_names(entries, show_dirs).contains(entries[i].name@),
    decreases entries.len(),
{
    broadcast use vstd::multiset::group_multiset_axioms;

    if i < entries.len() - 1 {
        assert(entries.drop_last()[i] == entries[i]);
        lemma_listed_entry_has_name(entries.drop_last(), show_dirs, i);
    }
}

/// The names of the directories that the listing shows when directories are
/// shown: those that are not hidden, counted with multiplicity.
pub open spec fn shown_dir_names(entries: Seq<Entry>) -> Multiset<Seq<char>>
    decreases entries.len(),
{
    if entries.len() == 0 {
        Multiset::empty()
    } else {
        let rest = shown_dir_names(entries.drop_last());
        let e = entries.last();
        if e.is_dir && e.name@[0] != '.' {
            rest.insert(e.name@)
        } else {
            rest
        }
    }
}

/// `a` is `b` with some elements left out, the rest kept in their order.
pub open spec fn is_subsequence(a: Seq<Seq<char>>, b: Seq<Seq<char>>) -> bool
    decreases b.len(),
{
    if a.len() == 0 {
        true
    } else if b.len() == 0 {
        false
    } else if a[0] == b[0] {
        is_subsequence(a.drop_first(), b.drop_first())
    } else {
        is_subsequence(a, b.drop_first())
    }
}

/// `name_le` is antisymmetric.
pub proof fn lemma_name_le_antisymmetric(a: Seq<char>, b: Seq<char>)
    requires
        name_le(a, b),
        name_le(b, a),
    ensures
        a == b,
{
    if a != b {
        lemma_name_lt_transitive(a, b, a);
        lemma_name_lt_irreflexive(a);
    }
}

proof fn lemma_drop_first_to_multiset(s: Seq<Seq<char>>)
    requires
        s.len() > 0,
    ensures
        s.drop_first().to_multiset() == s.to_multiset().remove(s[0]),
{
    assert(s.remove(0) =~= s.drop_first());
}

/// The first of ascending names is not greater than any name that occurs in
/// them.
proof fn lemma_first_is_least(s: Seq<Seq<char>>, x: Seq<char>)
    requires
        names_sorted(s),
        s.to_multiset().count(x) > 0,
    ensures
        s.len() > 0,
        name_le(s[0], x),
{
    assert(s.contains(x));
    let j = choose|j: int| 0 <= j < s.len() && s[j] == x;
    if j > 0 {
        assert(name_le(s[0], s[j]));
    }
}

/// Ascending names are fixed by the names they hold: two ascending
/// sequences of the same names, counted with multiplicity, are equal.
pub proof fn lemma_sorted_names_unique(a: Seq<Seq<char>>, b: Seq<Seq<char>>)
    requires
        names_sorted(a),
        names_sorted(b),
        a.to_multiset() == b.to_multiset(),
    ensures
        a == b,
    decreases a.len(),
{
    broadcast use vstd::multiset::group_multiset_axioms;

    assert(a.len() == a.to_multiset().len());
    assert(b.len() == b.to_multiset().len());
    if a.len() == 0 {
        assert(b.len() == 0);
        assert(a =~= b);
    } else {
        assert(a.contains(a[0]));
        lemma_first_is_least(b, a[0]);
        assert(b.contains(b[0]));
        lemma_first_is_least(a, b[0]);
        lemma_name_le_antisymmetric(a[0], b[0]);
        lemma_drop_first_to_multiset(a);
        lemma_drop_first_to_multiset(b);
        lemma_sorted_names_unique(a.drop_first(), b.drop_first());
        assert forall|i: int| 0 <= i < a.len() implies a[i] == b[i] by {
            if i > 0 {
                assert(a[i] == a.drop_first()[i - 1]);
                assert(b[i] == b.drop_first()[i - 1]);
            }
        }
        assert(a =~= b);
    }
}

/// Ascending names whose names all occur, as often, in other ascending
/// names form a subsequence of them.
pub proof fn lemma_sorted_sub_multiset_subsequence(a: Seq<Seq<char>>, b: Seq<Seq<char>>)
    requires
        names_sorted(a),
        names_sorted(b),
        a.to_multiset().subset_of(b.to_multiset()),
    ensures
        is_subsequence(a, b),
    decreases b.len(),
{
    broadcast use vstd::multiset::group_multiset_axioms;

    if a.len() > 0 {
        assert(a.contains(a[0]));
        assert(a.to_multiset().count(a[0]) > 0);
        lemma_first_is_least(b, a[0]);
        lemma_drop_first_to_multiset(b);
        if a[0] == b[0] {
            lemma_drop_first_to_multiset(a);
            assert(a.drop_first().to_multiset().subset_of(b.drop_first().to_multiset()));
            lemma_sorted_sub_multiset_subsequence(a.drop_first(), b.drop_first());
        } else {
            assert(!a.contains(b[0])) by {
                if a.contains(b[0]) {
                    let i = choose|i: int| 0 <= i < a.len() && a[i] == b[0];
                    if i > 0 {
                        assert(name_le(a[0], a[i]));
                    }
                    lemma_name_le_antisymmetric(a[0], b[0]);
                }
            }
            assert(a.to_multiset().count(b[0]) == 0);
            assert(a.to_multiset().subset_of(b.drop_first().to_multiset()));
            lemma_sorted_sub_multiset_subsequence(a, b.drop_first());
        }
    }
}

/// Showing directories adds exactly the names of the directories that are
/// not hidden.
pub proof fn lemma_listed_names_split(entries: Seq<Entry>)
    ensures
        listed_names(entries, true) == listed_names(entries, false).add(shown_dir_names(entries)),
    decreases entries.len(),
{
    broadcast use vstd::multiset::group_multiset_axioms;

    if entries.len() > 0 {
        lemma_listed_names_split(entries.drop_last());
        let with = listed_names(entries.drop_last(), true);
        let without = listed_names(entries.drop_last(), false);
        let dirs = shown_dir_names(entries.drop_last());
        let x = entries.last().name@;
        assert(without.insert(x).add(dirs) =~= without.add(dirs).insert(x));
        assert(without.add(dirs.insert(x)) =~= without.add(dirs).insert(x));
    }
}

/// Listing the same entries twice with the same setting gives the same
/// names in the same order.
pub proof fn lemma_listing_unique(
    entries: Seq<Entry>,
    show_dirs: bool,
    first: Seq<String>,
    second: Seq<String>,
)
    requires
        names_sorted(names_of(first)),
        names_of(first).to_multiset() == listed_names(entries, show_dirs),
        names_sorted(names_of(second)),
        names_of(second).to_multiset() == listed_names(entries, show_dirs),
    ensures
        names_of(first) == names_of(second),
{
    lemma_sorted_names_unique(names_of(first), names_of(second));
}

/// The listing without directories is the listing with them with the
/// directories that are not hidden left out, the other names kept in their
/// order.
pub proof fn lemma_listing_without_dirs(entries: Seq<Entry>, files: Seq<String>, all: Seq<String>)
    requires
        names_sorted(names_of(files)),
        names_of(files).to_multiset() == listed_names(entries, false),
        names_sorted(names_of(all)),
        names_of(all).to_multiset() == listed_names(entries, true),
    ensures
        is_subsequence(names_of(files), names_of(all)),
        names_of(all).to_multiset() == names_of(files).to_multiset().add(shown_dir_names(entries)),
{
    broadcast use vstd::multiset::group_multiset_axioms;

    lemma_listed_names_split(entries);
    assert(names_of(files).to_multiset().subset_of(names_of(all).to_multiset()));
    lemma_sorted_sub_multiset_subsequence(names_of(files), names_of(all));
}

/// Compares two names in the order of `str`.
pub fn name_less(a: &str, b: &str) -> (r: bool)
    ensures
        r == name_lt(a@, b@),
{
    let na = a.unicode_len();
    let nb = b.unicode_len();
    let mut i: usize = 0;
    assert(a@.skip(0) =~= a@);
    assert(b@.skip(0) =~= b@);
    while i < na && i < nb
        invariant
            na == a@.len(),
            nb == b@.len(),
            i <= na,
            i <= nb,
            name_lt(a@, b@) == name_lt(a@.skip(i as int), b@.skip(i as int)),
        decreases na - i,
    {
        let ca = a.get_char(i);
        let cb = b.get_char(i);
        if ca != cb {
            return ca < cb;
        }
        assert(a@.skip(i as int).drop_first() =~= a@.skip(i + 1));
        assert(b@.skip(i as int).drop_first() =~= b@.skip(i + 1));
        i = i + 1;
    }
    i == na && i < nb
}

/// Inserts `name` into ascending `out`, after every name not greater than it.
fn insert_sorted(out: &mut Vec<String>, name: String)
    requires
        names_sorted(names_of(old(out)@)),
    ensures
        names_sorted(names_of(final(out)@)),
        names_of(final(out)@).to_multiset() == names_of(old(out)@).to_multiset().insert(name@),
{
    let n = out.len();
    let mut p: usize = 0;
    while p < n && !name_less(name.as_str(), out[p].as_str())
        invariant
            n == out.len(),
            p <= n,
            forall|k: int| 0 <= k < p ==> !name_lt(name@, (#[trigger] out@[k])@),
        decreases n - p,
    {
        p = p + 1;
    }
    let ghost before = names_of(out@);
    proof {
        assert forall|k: int| 0 <= k < p implies name_le(#[trigger] before[k], name@) by {
            if before[k] != name@ {
                lemma_name_lt_total(before[k], name@);
            }
        }
    }
    out.insert(p, name);
    let ghost after = names_of(out@);
    proof {
        assert(after =~= before.insert(p as int, name@));
        assert forall|i: int, j: int| 0 <= i < j < after.len() implies name_le(
            #[trigger] after[i],
            #[trigger] after[j],
        ) by {
            if j < p {
                assert(after[i] == before[i] && after[j] == before[j]);
            } else if j == p {
                assert(after[i] == before[i]);
            } else if i > p {
                assert(after[i] == before[i - 1] && after[j] == before[j - 1]);
            } else if i == p {
                assert(after[j] == before[j - 1]);
                assert(name_lt(name@, before[p as int]));
                assert(name_le(before[p as int], before[j - 1]));
                lemma_name_le_transitive(name@, before[p as int], before[j - 1]);
            } else {
                assert(after[i] == before[i] && after[j] == before[j - 1]);
            }
        }
    }
}

/// The names of the entries that a directory listing shows, in ascending
/// order: hidden entries are left out, and directories too unless
/// `show_dirs` is set.
pub fn list_visible(entries: Vec<Entry>, show_dirs: bool) -> (names: Vec<String>)
    requires
        names_present(entries@, show_dirs),
    ensures
        names_sorted(names_of(names@)),
        names_of(names@).to_multiset() == listed_names(entries@, show_dirs),
        forall|i: int|
            0 <= i < entries@.len() && (show_dirs || !entries@[i].is_dir) && entries@[i].name@[0]
                != '.' ==> names_of(names@).contains(#[trigger] entries@[i].name@),
        forall|name: Seq<char>|
            #[trigger] names_of(names@).to_multiset().count(name) == entries@.filter(
                |e: Entry| e.name@ == name && (show_dirs || !e.is_dir) && e.name@[0] != '.',
            ).len(),
{
    let ghost all = entries@;
    let mut out: Vec<String> = Vec::new();
    let mut rest = entries;
    let mut i: usize = 0;
    let n = rest.len();
    proof {
        assert(all.take(0) =~= Seq::<Entry>::empty());
        assert(names_of(out@) =~= Seq::<Seq<char>>::empty());
    }
    while i < n
        invariant
            n == all.len(),
            rest@ == all,
            i <= n,
            names_present(all, show_dirs),
            names_sorted(names_of(out@)),
            names_of(out@).to_multiset() == listed_names(all.take(i as int), show_dirs),
        decreases n - i,
    {
        let listed = (show_dirs || !rest[i].is_dir) && rest[i].name.as_str().get_char(0) != '.';
        assert(all.take(i + 1).drop_last() =~= all.take(i as int));
        assert(all.take(i + 1).last() == all[i as int]);
        if listed {
            insert_sorted(&mut out, rest[i].name.clone());
        }
        i = i + 1;
    }
    assert(all.take(n as int) =~= all);
    proof {
        let listed = names_of(out@);
        assert forall|i: int|
            0 <= i < all.len() && (show_dirs || !all[i].is_dir) && all[i].name@[0]
                != '.' implies listed.contains(#[trigger] all[i].name@) by {
            lemma_listed_entry_has_name(all, show_dirs, i);
            assert(listed.to_multiset().count(all[i].name@) > 0);
        }
        assert forall|name: Seq<char>|
            #[trigger] listed.to_multiset().count(name) == all.filter(
                |e: Entry| e.name@ == name && (show_dirs || !e.is_dir) && e.name@[0] != '.',
            ).len() by {
            lemma_listed_count_by(
                all,
                show_dirs,
                name,
                |e: Entry| e.name@ == name && (show_dirs || !e.is_dir) && e.name@[0] != '.',
            );
        }
    }
    out
}

} // verus!
