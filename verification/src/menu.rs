//! The dropdown menus' rows, and where the arrow keys land among them.

use vstd::prelude::*;

use crate::icons::Icon;

verus! {

/// One row of a menu.
#[derive(Debug, PartialEq, Eq)]
pub enum Entry {
    /// A group label.
    Header(String),
    Item(Item),
    Separator,
    /// What a menu says instead of being empty.
    Empty(String),
}

/// A row that can be chosen, unless it is disabled.
#[derive(Debug, PartialEq, Eq)]
pub struct Item {
    pub id: String,
    pub label: String,
    /// The right-hand value: a bitrate beside a quality name, a shortcut
    /// beside a command.
    pub detail: Option<String>,
    /// Replaces the tick column when the row is a destination rather than a
    /// choice.
    pub icon: Option<Icon>,
    pub selected: bool,
    pub enabled: bool,
    /// The whole text, when `label` is a shortened one.
    pub tooltip: Option<String>,
}

impl Item {
    /// An enabled, unselected row with nothing beside it.
    pub fn new(id: &str, label: &str) -> (res: Self)
        ensures
            res.id@ == id@,
            res.label@ == label@,
            res.detail is None,
            res.icon is None,
            !res.selected,
            res.enabled,
            res.tooltip is None,
    {
        Item {
            id: String::from_str(id),
            label: String::from_str(label),
            detail: None,
            icon: None,
            selected: false,
            enabled: true,
            tooltip: None,
        }
    }

    pub fn detail(self, detail: &str) -> (res: Self)
        ensures
            res.detail matches Some(d) && d@ == detail@,
            res.id == self.id,
            res.label == self.label,
            res.icon == self.icon,
            res.selected == self.selected,
            res.enabled == self.enabled,
            res.tooltip == self.tooltip,
    {
        Item { detail: Some(String::from_str(detail)), ..self }
    }

    pub fn icon(self, icon: Icon) -> (res: Self)
        ensures
            res.icon == Some(icon),
            res.id == self.id,
            res.label == self.label,
            res.detail == self.detail,
            res.selected == self.selected,
            res.enabled == self.enabled,
            res.tooltip == self.tooltip,
    {
        Item { icon: Some(icon), ..self }
    }

    pub fn selected(self, selected: bool) -> (res: Self)
        ensures
            res.selected == selected,
            res.id == self.id,
            res.label == self.label,
            res.detail == self.detail,
            res.icon == self.icon,
            res.enabled == self.enabled,
            res.tooltip == self.tooltip,
    {
        Item { selected, ..self }
    }

    pub fn disabled(self) -> (res: Self)
        ensures
            !res.enabled,
            res.id == self.id,
            res.label == self.label,
            res.detail == self.detail,
            res.icon == self.icon,
            res.selected == self.selected,
            res.tooltip == self.tooltip,
    {
        Item { enabled: false, ..self }
    }

    pub fn tooltip(self, tooltip: &str) -> (res: Self)
        ensures
            res.tooltip matches Some(t) && t@ == tooltip@,
            res.id == self.id,
            res.label == self.label,
            res.detail == self.detail,
            res.icon == self.icon,
            res.selected == self.selected,
            res.enabled == self.enabled,
    {
        Item { tooltip: Some(String::from_str(tooltip)), ..self }
    }
}

/// Only an enabled item can be chosen; headers, separators, the empty
/// sentence and disabled rows cannot.
pub open spec fn choosable(entry: Entry) -> bool {
    entry matches Entry::Item(item) && item.enabled
}

/// The rows among the first `n` that can be chosen, in order.
pub open spec fn choosable_rows(entries: Seq<Entry>, n: int) -> Seq<int>
    decreases n,
{
    if n <= 0 {
        Seq::empty()
    } else if choosable(entries[n - 1]) {
        choosable_rows(entries, n - 1).push(n - 1)
    } else {
        choosable_rows(entries, n - 1)
    }
}

/// Where `row` sits among `rows`, if it is one of them.
pub open spec fn position_of(rows: Seq<int>, row: int) -> Option<int> {
    if exists|p: int| 0 <= p < rows.len() && rows[p] == row {
        Some(choose|p: int| 0 <= p < rows.len() && rows[p] == row)
    } else {
        None
    }
}

/// Where the highlighted row `from` sits among the rows that can be chosen;
/// `None` when nothing is highlighted or the highlight is on a row that
/// cannot be chosen.
pub open spec fn highlight_position(entries: Seq<Entry>, from: Option<usize>) -> Option<int> {
    match from {
        Some(f) => position_of(choosable_rows(entries, entries.len() as int), f as int),
        None => None,
    }
}

/// The row the arrows land on, `delta` steps from `from` among the rows
/// that can be chosen, wrapping at both ends. With nothing highlighted, Down
/// lands on the first row and Up on the last; with nothing choosable there
/// is nowhere to go.
pub open spec fn step_target(entries: Seq<Entry>, from: Option<usize>, delta: isize) -> Option<int> {
    let rows = choosable_rows(entries, entries.len() as int);
    if rows.len() == 0 {
        None
    } else {
        let position = highlight_position(entries, from);
        let next = match position {
            Some(p) => (p + delta) % (rows.len() as int),
            None => if delta >= 0 {
                0
            } else {
                rows.len() - 1
            },
        };
        Some(rows[next])
    }
}

proof fn lemma_choosable_rows(entries: Seq<Entry>, n: int)
    requires
        0 <= n <= entries.len(),
    ensures
        forall|p: int|
            0 <= p < choosable_rows(entries, n).len() ==> 0 <= #[trigger] choosable_rows(
                entries,
                n,
            )[p] < n && choosable(entries[choosable_rows(entries, n)[p]]),
        forall|p: int, q: int|
            0 <= p < q < choosable_rows(entries, n).len() ==> #[trigger] choosable_rows(
                entries,
                n,
            )[p] < #[trigger] choosable_rows(entries, n)[q],
        forall|i: int| 0 <= i < n && choosable(entries[i]) ==> #[trigger] choosable_rows(entries, n).contains(i),
    decreases n,
{
    if n > 0 {
        lemma_choosable_rows(entries, n - 1);
        let prev = choosable_rows(entries, n - 1);
        if choosable(entries[n - 1]) {
            assert forall|i: int| 0 <= i < n && choosable(entries[i]) implies #[trigger] choosable_rows(entries, n).contains(i) by {
                if i < n - 1 {
                    assert(prev.contains(i));
                    let p = choose|p: int| 0 <= p < prev.len() && prev[p] == i;
                    assert(choosable_rows(entries, n)[p] == i);
                } else {
                    assert(choosable_rows(entries, n)[prev.len() as int] == i);
                }
            }
        }
    }
}

/// For a negative `s`, its Euclidean remainder by `m` from that of `-s`.
proof fn lemma_negative_mod(s: int, m: int, b: int)
    requires
        m > 0,
        s < 0,
        b == (-s) % m,
    ensures
        0 <= b < m,
        b == 0 ==> s % m == 0,
        b != 0 ==> s % m == m - b,
        0 <= s % m < m,
{
    let k = -s;
    let q = k / m;
    vstd::arithmetic::div_mod::lemma_fundamental_div_mod(k, m);
    vstd::arithmetic::div_mod::lemma_mod_bound(k, m);
    vstd::arithmetic::div_mod::lemma_mod_bound(s, m);
    if b == 0 {
        assert(s == (-q) * m + 0) by (nonlinear_arith)
            requires
                k == m * q + b,
                b == 0,
                s == -k,
        ;
        vstd::arithmetic::div_mod::lemma_fundamental_div_mod_converse(s, m, -q, 0);
    } else {
        assert(s == (-q - 1) * m + (m - b)) by (nonlinear_arith)
            requires
                k == m * q + b,
                s == -k,
        ;
        vstd::arithmetic::div_mod::lemma_fundamental_div_mod_converse(s, m, -q - 1, m - b);
    }
}

fn find_row(rows: &Vec<usize>, all: Ghost<Seq<int>>, row: usize) -> (res: Option<usize>)
    requires
        rows@.len() == all@.len(),
        forall|q: int| 0 <= q < rows@.len() ==> #[trigger] rows@[q] as int == all@[q],
        forall|p: int, q: int| 0 <= p < q < all@.len() ==> #[trigger] all@[p] < #[trigger] all@[q],
    ensures
        res matches Some(p) ==> position_of(all@, row as int) == Some(p as int) && p < rows@.len(),
        res is None ==> position_of(all@, row as int) is None,
{
    let mut p: usize = 0;
    while p < rows.len()
        invariant
            rows@.len() == all@.len(),
            forall|q: int| 0 <= q < rows@.len() ==> #[trigger] rows@[q] as int == all@[q],
            forall|a: int, b: int| 0 <= a < b < all@.len() ==> #[trigger] all@[a] < #[trigger] all@[b],
            p <= rows@.len(),
            forall|q: int| 0 <= q < p ==> all@[q] != row as int,
        decreases rows@.len() - p,
    {
        if rows[p] == row {
            proof {
                assert(all@[p as int] == row as int);
                assert forall|q: int| 0 <= q < all@.len() && all@[q] == row as int implies q
                    == p by {
                    if q > p {
                        assert(all@[p as int] < all@[q]);
                    }
                }
            }
            return Some(p);
        }
        p = p + 1;
    }
    None
}

/// The row the arrows land on.
pub fn step(entries: &[Entry], from: Option<usize>, delta: isize) -> (res: Option<usize>)
    requires
        highlight_position(entries@, from) matches Some(p) ==> p + delta <= isize::MAX,
    ensures
        match step_target(entries@, from, delta) {
            None => res is None,
            Some(row) => res == Some(row as usize),
        },
        res matches Some(row) ==> row < entries@.len() && choosable(entries@[row as int]),
        res is None <==> forall|i: int| 0 <= i < entries@.len() ==> !choosable(#[trigger] entries@[i]),
{
    let mut rows: Vec<usize> = Vec::new();
    let mut i: usize = 0;
    while i < entries.len()
        invariant
            i <= entries@.len(),
            rows@.len() == choosable_rows(entries@, i as int).len(),
            forall|p: int| 0 <= p < rows@.len() ==> #[trigger] rows@[p] as int == choosable_rows(entries@, i as int)[p],
        decreases entries@.len() - i,
    {
        let take = match &entries[i] {
            Entry::Item(item) => item.enabled,
            _ => false,
        };
        if take {
            rows.push(i);
        }
        i = i + 1;
    }
    let ghost all = choosable_rows(entries@, entries@.len() as int);
    proof {
        lemma_choosable_rows(entries@, entries@.len() as int);
        if all.len() == 0 {
            assert forall|i: int| 0 <= i < entries@.len() implies !choosable(#[trigger] entries@[i]) by {
                if choosable(entries@[i]) {
                    assert(all.contains(i));
                }
            }
        } else {
            assert(choosable(entries@[all[0]]));
        }
    }
    let count = rows.len();
    if count == 0 {
        return None;
    }
    let position: Option<usize> = match from {
        Some(f) => find_row(&rows, Ghost(all), f),
        None => None,
    };
    let next: usize = match position {
        Some(p) => {
            let m: i128 = count as i128;
            let shifted: i128 = p as i128 + delta as i128;
            let magnitude: u128 = if shifted >= 0 {
                shifted as u128
            } else {
                (0i128 - shifted) as u128
            };
            let back: i128 = (magnitude % (m as u128)) as i128;
            let r: i128 = if shifted >= 0 {
                back
            } else if back == 0 {
                0
            } else {
                m - back
            };
            proof {
                let s = shifted as int;
                let mm = m as int;
                if s >= 0 {
                    vstd::arithmetic::div_mod::lemma_mod_bound(s, mm);
                    assert(r as int == s % mm);
                } else {
                    lemma_negative_mod(s, mm, back as int);
                }
            }
            r as usize
        },
        None => {
            if delta >= 0 {
                0
            } else {
                count - 1
            }
        },
    };
    Some(rows[next])
}

/// The row that carries the current value, for a menu opening fresh: the
/// first enabled, selected item.
pub fn selected(entries: &[Entry]) -> (res: Option<usize>)
    ensures
        res matches Some(i) ==> i < entries@.len() && (entries@[i as int] matches Entry::Item(
            item,
        ) && item.selected && item.enabled) && forall|j: int|
            0 <= j < i ==> !(#[trigger] entries@[j] matches Entry::Item(item) && item.selected
                && item.enabled),
        res is None ==> forall|j: int|
            0 <= j < entries@.len() ==> !(#[trigger] entries@[j] matches Entry::Item(item)
                && item.selected && item.enabled),
{
    let mut i: usize = 0;
    while i < entries.len()
        invariant
            i <= entries@.len(),
            forall|j: int|
                0 <= j < i ==> !(#[trigger] entries@[j] matches Entry::Item(item) && item.selected
                    && item.enabled),
        decreases entries@.len() - i,
    {
        let hit = match &entries[i] {
            Entry::Item(item) => item.selected && item.enabled,
            _ => false,
        };
        if hit {
            return Some(i);
        }
        i = i + 1;
    }
    None
}

/// The arrows wrap: Down from the last row that can be chosen lands on the
/// first, and Up from the first lands on the last.
pub proof fn lemma_arrows_wrap(entries: Seq<Entry>)
    requires
        entries.len() <= usize::MAX,
        choosable_rows(entries, entries.len() as int).len() > 0,
    ensures
        ({
            let rows = choosable_rows(entries, entries.len() as int);
            &&& step_target(entries, Some(rows.last() as usize), 1isize) == Some(rows[0])
            &&& step_target(entries, Some(rows[0] as usize), -1isize) == Some(rows.last())
        }),
{
    let rows = choosable_rows(entries, entries.len() as int);
    lemma_choosable_rows(entries, entries.len() as int);
    let n = rows.len() as int;
    let last = rows[n - 1];
    let first = rows[0];
    assert(last as usize as int == last);
    assert(first as usize as int == first);
    assert forall|q: int| 0 <= q < n && rows[q] == last implies q == n - 1 by {
        if q < n - 1 {
            assert(rows[q] < rows[n - 1]);
        }
    }
    assert(position_of(rows, last) == Some(n - 1));
    assert forall|q: int| 0 <= q < n && rows[q] == first implies q == 0 by {
        if q > 0 {
            assert(rows[0] < rows[q]);
        }
    }
    assert(position_of(rows, first) == Some(0int));
    assert((n - 1 + 1) % n == 0) by (nonlinear_arith)
        requires
            n > 0,
    ;
    assert((0 + (-1)) % n == n - 1) by (nonlinear_arith)
        requires
            n > 0,
    ;
}

} // verus!
