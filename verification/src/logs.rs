//! Log retention: which of the rolled log files in the log folder are old
//! enough to delete.

use vstd::prelude::*;

use crate::recording::arg_views;

verus! {

broadcast use vstd::seq_lib::group_seq_properties;

/// How many log files are kept.
pub const KEEP_LOGS: usize = 7;

/// A rolled log file: its name starts `rapidcap.log`.
pub open spec fn is_log_name(name: Seq<char>) -> bool {
    name.len() >= 12 && name.subrange(0, 12) == "rapidcap.log"@
}

/// The log files among `names`, in the order given.
pub open spec fn log_names(names: Seq<Seq<char>>) -> Seq<Seq<char>>
    decreases names.len(),
{
    if names.len() == 0 {
        Seq::empty()
    } else if is_log_name(names.last()) {
        log_names(names.drop_last()).push(names.last())
    } else {
        log_names(names.drop_last())
    }
}

/// File names in the order the file system compares them: character by
/// character, a prefix before anything longer.
pub open spec fn name_lt(a: Seq<char>, b: Seq<char>) -> bool
    decreases a.len(),
{
    if a.len() == 0 {
        b.len() > 0
    } else if b.len() == 0 {
        false
    } else if a[0] != b[0] {
        a[0] < b[0]
    } else {
        name_lt(a.drop_first(), b.drop_first())
    }
}

/// In ascending order, equal names side by side.
pub open spec fn names_sorted(s: Seq<Seq<char>>) -> bool {
    forall|i: int, j: int| 0 <= i < j < s.len() ==> !name_lt(#[trigger] s[j], #[trigger] s[i])
}

proof fn lemma_name_lt_irreflexive(a: Seq<char>)
    ensures
        !name_lt(a, a),
    decreases a.len(),
{
    if a.len() > 0 {
        lemma_name_lt_irreflexive(a.drop_first());
    }
}

proof fn lemma_name_lt_total(a: Seq<char>, b: Seq<char>)
    ensures
        a == b || name_lt(a, b) || name_lt(b, a),
    decreases a.len(),
{
    if a.len() > 0 && b.len() > 0 && a[0] == b[0] {
        lemma_name_lt_total(a.drop_first(), b.drop_first());
        if a.drop_first() == b.drop_first() {
            assert(a =~= seq![a[0]] + a.drop_first());
            assert(b =~= seq![b[0]] + b.drop_first());
        }
    } else if a.len() == 0 && b.len() == 0 {
        assert(a =~= b);
    }
}

proof fn lemma_name_lt_asymmetric(a: Seq<char>, b: Seq<char>)
    ensures
        !(name_lt(a, b) && name_lt(b, a)),
    decreases a.len(),
{
    if a.len() > 0 && b.len() > 0 && a[0] == b[0] {
        lemma_name_lt_asymmetric(a.drop_first(), b.drop_first());
    }
}

proof fn lemma_name_lt_transitive(a: Seq<char>, b: Seq<char>, c: Seq<char>)
    requires
        name_lt(a, b),
        name_lt(b, c),
    ensures
        name_lt(a, c),
    decreases a.len(),
{
    if a.len() > 0 && b.len() > 0 && c.len() > 0 && a[0] == b[0] && b[0] == c[0] {
        lemma_name_lt_transitive(a.drop_first(), b.drop_first(), c.drop_first());
    }
}

fn name_less(a: &str, b: &str) -> (res: bool)
    ensures
        res == name_lt(a@, b@),
{
    let n = a.unicode_len();
    let m = b.unicode_len();
    let mut i: usize = 0;
    while i < n && i < m && a.get_char(i) == b.get_char(i)
        invariant
            n == a@.len(),
            m == b@.len(),
            i <= n,
            i <= m,
            forall|j: int| 0 <= j < i ==> a@[j] == b@[j],
            name_lt(a@, b@) == name_lt(a@.subrange(i as int, n as int), b@.subrange(i as int, m as int)),
        decreases n - i,
    {
        proof {
            let sa = a@.subrange(i as int, n as int);
            let sb = b@.subrange(i as int, m as int);
            assert(sa.drop_first() =~= a@.subrange(i + 1, n as int));
            assert(sb.drop_first() =~= b@.subrange(i + 1, m as int));
        }
        i = i + 1;
    }
    proof {
        assert(a@.subrange(0, n as int) =~= a@);
        assert(b@.subrange(0, m as int) =~= b@);
    }
    if i == n {
        i < m
    } else if i == m {
        false
    } else {
        a.get_char(i) < b.get_char(i)
    }
}

/// Inserts `name` into the sorted `out` after every name not above it.
fn insert_sorted(out: &mut Vec<String>, name: String)
    requires
        names_sorted(arg_views(old(out)@)),
    ensures
        names_sorted(arg_views(final(out)@)),
        arg_views(final(out)@).to_multiset() == arg_views(old(out)@).to_multiset().insert(name@),
{
    let ghost before = arg_views(out@);
    let mut p: usize = 0;
    while p < out.len() && !name_less(name.as_str(), out[p].as_str())
        invariant
            p <= out@.len(),
            before == arg_views(out@),
            names_sorted(before),
            forall|i: int| 0 <= i < p ==> !name_lt(name@, #[trigger] before[i]),
        decreases out@.len() - p,
    {
        p = p + 1;
    }
    let ghost x = name@;
    out.insert(p, name);
    proof {
        let after = arg_views(out@);
        assert(after =~= before.insert(p as int, x));
        vstd::seq_lib::to_multiset_insert(before, p as int, x);
        assert forall|i: int, j: int| 0 <= i < j < after.len() implies !name_lt(
            #[trigger] after[j],
            #[trigger] after[i],
        ) by {
            let pi = p as int;
            if j < pi {
                assert(after[i] == before[i] && after[j] == before[j]);
            } else if j == pi {
                assert(after[i] == before[i]);
                assert(!name_lt(x, before[i]));
            } else if i == pi {
                assert(after[j] == before[j - 1]);
                assert(name_lt(x, before[pi]));
                if j - 1 > pi {
                    assert(!name_lt(before[j - 1], before[pi]));
                    lemma_name_lt_total(before[j - 1], before[pi]);
                    if name_lt(before[pi], before[j - 1]) {
                        lemma_name_lt_transitive(x, before[pi], before[j - 1]);
                    }
                }
                lemma_name_lt_asymmetric(x, before[j - 1]);
            } else if i < pi {
                assert(after[i] == before[i] && after[j] == before[j - 1]);
            } else {
                assert(after[i] == before[i - 1] && after[j] == before[j - 1]);
            }
        }
    }
}

/// The log files to delete so that `keep` remain: all but the `keep`
/// greatest names, in ascending order. Rolled files are named by date, so
/// these are the oldest.
pub fn logs_to_remove(names: &[String], keep: usize) -> (res: Vec<String>)
    ensures
        exists|sorted: Seq<Seq<char>>|
            #![trigger names_sorted(sorted)]
            names_sorted(sorted) && sorted.to_multiset() == log_names(arg_views(names@)).to_multiset()
                && arg_views(res@) == sorted.take(
                if sorted.len() > keep {
                    sorted.len() - keep
                } else {
                    0
                },
            ),
{
    let mut out: Vec<String> = Vec::new();
    let mut i: usize = 0;
    while i < names.len()
        invariant
            i <= names@.len(),
            names_sorted(arg_views(out@)),
            arg_views(out@).to_multiset() == log_names(arg_views(names@.subrange(0, i as int))).to_multiset(),
        decreases names@.len() - i,
    {
        let name = names[i].as_str();
        let is_log = name.unicode_len() >= 12 && crate::text::same_text(
            name.substring_char(0, 12),
            "rapidcap.log",
        );
        proof {
            let prefix = arg_views(names@.subrange(0, i as int));
            let next = arg_views(names@.subrange(0, i + 1));
            assert(next.drop_last() =~= prefix);
            assert(next.last() == name@);
        }
        if is_log {
            insert_sorted(&mut out, String::from_str(name));
            proof {
                let prefix = arg_views(names@.subrange(0, i as int));
                vstd::seq_lib::to_multiset_build(log_names(prefix), name@);
            }
        }
        i = i + 1;
    }
    assert(names@.subrange(0, names@.len() as int) =~= names@);
    let count = out.len();
    let remove: usize = if count > keep {
        count - keep
    } else {
        0
    };
    let ghost sorted = arg_views(out@);
    out.truncate(remove);
    assert(arg_views(out@) =~= sorted.take(remove as int));
    assert(names_sorted(sorted));
    out
}

/// Names in ascending order are determined by the names alone: two sorted
/// sequences holding the same names are the same sequence. So the files
/// [`logs_to_remove`] picks are fixed by the folder's contents.
pub proof fn lemma_sorted_names_unique(a: Seq<Seq<char>>, b: Seq<Seq<char>>)
    requires
        names_sorted(a),
        names_sorted(b),
        a.to_multiset() == b.to_multiset(),
    ensures
        a == b,
    decreases a.len(),
{
    broadcast use vstd::multiset::group_multiset_axioms;

    vstd::seq_lib::to_multiset_len(a);
    vstd::seq_lib::to_multiset_len(b);
    if a.len() == 0 {
        assert(a =~= b);
    } else {
        let x = a[0];
        let y = b[0];
        vstd::seq_lib::to_multiset_contains(a, y);
        vstd::seq_lib::to_multiset_contains(b, x);
        assert(b.to_multiset().contains(y)) by {
            vstd::seq_lib::to_multiset_contains(b, y);
        }
        assert(a.to_multiset().contains(x)) by {
            vstd::seq_lib::to_multiset_contains(a, x);
        }
        let iy = choose|i: int| 0 <= i < a.len() && a[i] == y;
        let ix = choose|i: int| 0 <= i < b.len() && b[i] == x;
        if iy > 0 {
            assert(!name_lt(a[iy], a[0]));
        }
        if ix > 0 {
            assert(!name_lt(b[ix], b[0]));
        }
        lemma_name_lt_total(x, y);
        assert(x == y);
        vstd::seq_lib::to_multiset_remove(a, 0);
        vstd::seq_lib::to_multiset_remove(b, 0);
        assert(a.remove(0) =~= a.drop_first());
        assert(b.remove(0) =~= b.drop_first());
        lemma_sorted_names_unique(a.drop_first(), b.drop_first());
        assert(a =~= seq![x] + a.drop_first());
        assert(b =~= seq![y] + b.drop_first());
    }
}

/// Retention keeps the newest: every name deleted sorts before every log
/// file that stays.
pub proof fn lemma_removed_sort_before_kept(sorted: Seq<Seq<char>>, removed: int, i: int, j: int)
    requires
        names_sorted(sorted),
        0 <= i < removed <= j < sorted.len(),
    ensures
        !name_lt(sorted[j], sorted.take(removed)[i]),
{
}

} // verus!
