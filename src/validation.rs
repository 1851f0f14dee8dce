use vstd::prelude::*;
use crate::text::{fold_seq, is_prefix, lower_chars, chars_of, starts_with};
use crate::unicode::{normalize_nfc, nfc_form};

verus! {

/// Initial consonants a syllable may start with (besides none).
pub open spec fn initial_entries() -> Seq<Seq<char>> {
    seq![
        seq!['b'], seq!['c'], seq!['c', 'h'], seq!['d'], seq!['đ'], seq!['g'], seq!['g', 'h'],
        seq!['g', 'i'], seq!['h'], seq!['k'], seq!['k', 'h'], seq!['l'], seq!['m'], seq!['n'],
        seq!['n', 'g'], seq!['n', 'g', 'h'], seq!['n', 'h'], seq!['p'], seq!['p', 'h'],
        seq!['q', 'u'], seq!['r'], seq!['s'], seq!['t'], seq!['t', 'h'], seq!['t', 'r'],
        seq!['v'], seq!['x'],
    ]
}

/// Vowel clusters, with the intermediate forms met while typing (`uo`,
/// `ie`, `uye`, `ye` before their circumflex or horn).
pub open spec fn vowel_entries() -> Seq<Seq<char>> {
    seq![
        seq!['ê'], seq!['i'], seq!['u', 'a'], seq!['u', 'ê'], seq!['u', 'y'], seq!['y'],
        seq!['a'], seq!['i', 'ê'], seq!['o', 'a'], seq!['u', 'y', 'ê'], seq!['y', 'ê'],
        seq!['â'], seq!['ă'], seq!['e'], seq!['o'], seq!['o', 'o'], seq!['ô'], seq!['ơ'],
        seq!['o', 'e'], seq!['u'], seq!['ư'], seq!['u', 'â'], seq!['u', 'ô'], seq!['ư', 'ơ'],
        seq!['u', 'o'], seq!['i', 'e'], seq!['o', 'ă'], seq!['u', 'ơ'], seq!['a', 'i'],
        seq!['a', 'o'], seq!['a', 'u'], seq!['â', 'u'], seq!['a', 'y'], seq!['â', 'y'],
        seq!['e', 'o'], seq!['ê', 'u'], seq!['i', 'a'], seq!['i', 'ê', 'u'], seq!['i', 'u'],
        seq!['o', 'a', 'i'], seq!['o', 'a', 'o'], seq!['o', 'a', 'y'], seq!['o', 'e', 'o'],
        seq!['o', 'i'], seq!['ô', 'i'], seq!['ơ', 'i'], seq!['ư', 'a'], seq!['u', 'â', 'y'],
        seq!['u', 'i'], seq!['ư', 'i'], seq!['u', 'ô', 'i'], seq!['ư', 'ơ', 'i'],
        seq!['ư', 'ơ', 'u'], seq!['ư', 'u'], seq!['u', 'y', 'a'], seq!['u', 'y', 'u'],
        seq!['y', 'ê', 'u'],
        seq!['u', 'y', 'e'], seq!['y', 'e'],
    ]
}

/// Final consonants a syllable may end with (besides none).
pub open spec fn final_entries() -> Seq<Seq<char>> {
    seq![
        seq!['c'], seq!['c', 'h'], seq!['m'], seq!['n'], seq!['n', 'g'], seq!['n', 'h'],
        seq!['p'], seq!['t'],
    ]
}

/// Initial consonants, grouped by the vowels they combine with.
pub open spec fn initial_groups() -> Seq<Seq<Seq<char>>> {
    seq![
        seq![
            seq!['b'], seq!['d'], seq!['đ'], seq!['g'], seq!['g', 'h'], seq!['m'], seq!['n'],
            seq!['n', 'h'], seq!['p'], seq!['p', 'h'], seq!['r'], seq!['s'], seq!['t'],
            seq!['t', 'r'], seq!['v'], seq!['z'],
        ],
        seq![
            seq!['c'], seq!['h'], seq!['k'], seq!['k', 'h'], seq!['q', 'u'], seq!['t', 'h'],
        ],
        seq![
            seq!['c', 'h'], seq!['g', 'i'], seq!['l'], seq!['n', 'g'], seq!['n', 'g', 'h'],
            seq!['x'],
        ],
        seq![
            seq!['đ'], seq!['l'],
        ],
        seq![
            seq!['h'],
        ],
    ]
}

/// Vowel clusters, grouped by the consonants they combine with.
pub open spec fn vowel_groups() -> Seq<Seq<Seq<char>>> {
    seq![
        seq![
            seq!['ê'], seq!['i'], seq!['u', 'a'], seq!['u', 'ê'], seq!['u', 'y'], seq!['y'],
        ],
        seq![
            seq!['a'], seq!['i', 'ê'], seq!['o', 'a'], seq!['u', 'y', 'ê'], seq!['y', 'ê'],
            seq!['i', 'e'],
        ],
        seq![
            seq!['â'], seq!['ă'], seq!['e'], seq!['o'], seq!['o', 'o'], seq!['ô'], seq!['ơ'],
            seq!['o', 'e'], seq!['u'], seq!['ư'], seq!['u', 'â'], seq!['u', 'ô'], seq!['ư', 'ơ'],
            seq!['u', 'o'],
        ],
        seq![
            seq!['o', 'ă'],
        ],
        seq![
            seq!['u', 'ơ'],
        ],
        seq![
            seq!['a', 'i'], seq!['a', 'o'], seq!['a', 'u'], seq!['â', 'u'], seq!['a', 'y'],
            seq!['â', 'y'], seq!['e', 'o'], seq!['ê', 'u'], seq!['i', 'a'], seq!['i', 'ê', 'u'],
            seq!['i', 'u'], seq!['o', 'a', 'i'], seq!['o', 'a', 'o'], seq!['o', 'a', 'y'],
            seq!['o', 'e', 'o'], seq!['o', 'i'], seq!['ô', 'i'], seq!['ơ', 'i'], seq!['ư', 'a'],
            seq!['u', 'â', 'y'], seq!['u', 'i'], seq!['ư', 'i'], seq!['u', 'ô', 'i'],
            seq!['ư', 'ơ', 'i'], seq!['ư', 'ơ', 'u'], seq!['ư', 'u'], seq!['u', 'y', 'a'],
            seq!['u', 'y', 'u'], seq!['y', 'ê', 'u'],
        ],
        seq![
            seq!['ă'],
        ],
        seq![
            seq!['i'],
        ],
    ]
}

/// Final consonants, grouped by the vowels they combine with.
pub open spec fn final_groups() -> Seq<Seq<Seq<char>>> {
    seq![
        seq![
            seq!['c', 'h'], seq!['n', 'h'],
        ],
        seq![
            seq!['c'], seq!['n', 'g'],
        ],
        seq![
            seq!['m'], seq!['n'], seq!['p'], seq!['t'],
        ],
        seq![
            seq!['k'],
        ],
        seq![
            seq!['c'],
        ],
    ]
}

/// For each initial group, the vowel groups it combines with.
pub open spec fn cv_matrix() -> Seq<Seq<usize>> {
    seq![
        seq![0, 1, 2, 5],
        seq![0, 1, 2, 3, 4, 5],
        seq![0, 1, 2, 3, 5],
        seq![6],
        seq![7],
    ]
}

/// For each vowel group, the final groups it combines with.
pub open spec fn vc_matrix() -> Seq<Seq<usize>> {
    seq![
        seq![0, 2],
        seq![0, 1, 2],
        seq![1, 2],
        seq![1, 2],
        seq![],
        seq![],
        seq![3],
        seq![4],
    ]
}

/// Whether `t` is empty or a prefix of one of the entries.
pub open spec fn prefix_of_some(entries: Seq<Seq<char>>, t: Seq<char>) -> bool {
    t.len() == 0 || exists|k: int| 0 <= k < entries.len() && is_prefix(t, #[trigger] entries[k])
}

/// Whether each component, in lower case, is a prefix of some entry of its
/// set: the syllable can still grow into a real one.
pub open spec fn permissible(i: Seq<char>, v: Seq<char>, f: Seq<char>) -> bool {
    &&& prefix_of_some(initial_entries(), fold_seq(i))
    &&& prefix_of_some(vowel_entries(), fold_seq(v))
    &&& prefix_of_some(final_entries(), fold_seq(f))
}

/// Whether group `g` of `groups` holds `x`.
pub open spec fn in_group(groups: Seq<Seq<Seq<char>>>, g: int, x: Seq<char>) -> bool {
    0 <= g < groups.len() && groups[g].contains(x)
}

/// Whether some group of the initial and some group of the vowel are
/// marked compatible.
pub open spec fn cv_compatible(i: Seq<char>, v: Seq<char>) -> bool {
    exists|a: int, b: int|
        in_group(initial_groups(), a, i) && in_group(vowel_groups(), b, v)
            && #[trigger] cv_matrix()[a].contains(b as usize)
}

/// Whether some group of the vowel and some group of the final are marked
/// compatible.
pub open spec fn vc_compatible(v: Seq<char>, f: Seq<char>) -> bool {
    exists|a: int, b: int|
        in_group(vowel_groups(), a, v) && in_group(final_groups(), b, f)
            && #[trigger] vc_matrix()[a].contains(b as usize)
}

/// Whether the lower-case components are full members of their sets and
/// combine by the compatibility matrices.
pub open spec fn valid_folded(i: Seq<char>, v: Seq<char>, f: Seq<char>) -> bool {
    &&& i.len() == 0 || initial_entries().contains(i)
    &&& exists|g: int| in_group(vowel_groups(), g, v)
    &&& f.len() == 0 || final_entries().contains(f)
    &&& i.len() == 0 || cv_compatible(i, v)
    &&& f.len() == 0 || vc_compatible(v, f)
}

/// Whether initial, vowel and final form a complete valid syllable.
pub open spec fn valid(i: Seq<char>, v: Seq<char>, f: Seq<char>) -> bool {
    valid_folded(fold_seq(i), fold_seq(v), fold_seq(f))
}

/// The views of a sequence of character vectors.
pub open spec fn entry_views(v: Seq<Vec<char>>) -> Seq<Seq<char>> {
    v.map_values(|e: Vec<char>| e@)
}

/// The views of a sequence of groups of character vectors.
pub open spec fn group_views(v: Seq<Vec<Vec<char>>>) -> Seq<Seq<Seq<char>>> {
    v.map_values(|g: Vec<Vec<char>>| entry_views(g@))
}

/// The views of a sequence of index rows.
pub open spec fn row_views(v: Seq<Vec<usize>>) -> Seq<Seq<usize>> {
    v.map_values(|r: Vec<usize>| r@)
}

fn initial_table() -> (r: Vec<Vec<char>>)
    ensures
        entry_views(r@) == initial_entries(),
{
    let r = vec![
        vec!['b'], vec!['c'], vec!['c', 'h'], vec!['d'], vec!['đ'], vec!['g'], vec!['g', 'h'],
        vec!['g', 'i'], vec!['h'], vec!['k'], vec!['k', 'h'], vec!['l'], vec!['m'], vec!['n'],
        vec!['n', 'g'], vec!['n', 'g', 'h'], vec!['n', 'h'], vec!['p'], vec!['p', 'h'],
        vec!['q', 'u'], vec!['r'], vec!['s'], vec!['t'], vec!['t', 'h'], vec!['t', 'r'],
        vec!['v'], vec!['x'],
    ];
    assert(entry_views(r@) =~~= initial_entries());
    r
}

fn vowel_table() -> (r: Vec<Vec<char>>)
    ensures
        entry_views(r@) == vowel_entries(),
{
    let r = vec![
        vec!['ê'], vec!['i'], vec!['u', 'a'], vec!['u', 'ê'], vec!['u', 'y'], vec!['y'],
        vec!['a'], vec!['i', 'ê'], vec!['o', 'a'], vec!['u', 'y', 'ê'], vec!['y', 'ê'],
        vec!['â'], vec!['ă'], vec!['e'], vec!['o'], vec!['o', 'o'], vec!['ô'], vec!['ơ'],
        vec!['o', 'e'], vec!['u'], vec!['ư'], vec!['u', 'â'], vec!['u', 'ô'], vec!['ư', 'ơ'],
        vec!['u', 'o'], vec!['i', 'e'], vec!['o', 'ă'], vec!['u', 'ơ'], vec!['a', 'i'],
        vec!['a', 'o'], vec!['a', 'u'], vec!['â', 'u'], vec!['a', 'y'], vec!['â', 'y'],
        vec!['e', 'o'], vec!['ê', 'u'], vec!['i', 'a'], vec!['i', 'ê', 'u'], vec!['i', 'u'],
        vec!['o', 'a', 'i'], vec!['o', 'a', 'o'], vec!['o', 'a', 'y'], vec!['o', 'e', 'o'],
        vec!['o', 'i'], vec!['ô', 'i'], vec!['ơ', 'i'], vec!['ư', 'a'], vec!['u', 'â', 'y'],
        vec!['u', 'i'], vec!['ư', 'i'], vec!['u', 'ô', 'i'], vec!['ư', 'ơ', 'i'],
        vec!['ư', 'ơ', 'u'], vec!['ư', 'u'], vec!['u', 'y', 'a'], vec!['u', 'y', 'u'],
        vec!['y', 'ê', 'u'],
        vec!['u', 'y', 'e'], vec!['y', 'e'],
    ];
    assert(entry_views(r@) =~~= vowel_entries());
    r
}

fn final_table() -> (r: Vec<Vec<char>>)
    ensures
        entry_views(r@) == final_entries(),
{
    let r = vec![
        vec!['c'], vec!['c', 'h'], vec!['m'], vec!['n'], vec!['n', 'g'], vec!['n', 'h'],
        vec!['p'], vec!['t'],
    ];
    assert(entry_views(r@) =~~= final_entries());
    r
}

fn initial_group_table() -> (r: Vec<Vec<Vec<char>>>)
    ensures
        group_views(r@) == initial_groups(),
{
    let r = vec![
        vec![
            vec!['b'], vec!['d'], vec!['đ'], vec!['g'], vec!['g', 'h'], vec!['m'], vec!['n'],
            vec!['n', 'h'], vec!['p'], vec!['p', 'h'], vec!['r'], vec!['s'], vec!['t'],
            vec!['t', 'r'], vec!['v'], vec!['z'],
        ],
        vec![
            vec!['c'], vec!['h'], vec!['k'], vec!['k', 'h'], vec!['q', 'u'], vec!['t', 'h'],
        ],
        vec![
            vec!['c', 'h'], vec!['g', 'i'], vec!['l'], vec!['n', 'g'], vec!['n', 'g', 'h'],
            vec!['x'],
        ],
        vec![
            vec!['đ'], vec!['l'],
        ],
        vec![
            vec!['h'],
        ],
    ];
    assert(group_views(r@) =~~= initial_groups());
    r
}

fn vowel_group_table() -> (r: Vec<Vec<Vec<char>>>)
    ensures
        group_views(r@) == vowel_groups(),
{
    let r = vec![
        vec![
            vec!['ê'], vec!['i'], vec!['u', 'a'], vec!['u', 'ê'], vec!['u', 'y'], vec!['y'],
        ],
        vec![
            vec!['a'], vec!['i', 'ê'], vec!['o', 'a'], vec!['u', 'y', 'ê'], vec!['y', 'ê'],
            vec!['i', 'e'],
        ],
        vec![
            vec!['â'], vec!['ă'], vec!['e'], vec!['o'], vec!['o', 'o'], vec!['ô'], vec!['ơ'],
            vec!['o', 'e'], vec!['u'], vec!['ư'], vec!['u', 'â'], vec!['u', 'ô'], vec!['ư', 'ơ'],
            vec!['u', 'o'],
        ],
        vec![
            vec!['o', 'ă'],
        ],
        vec![
            vec!['u', 'ơ'],
        ],
        vec![
            vec!['a', 'i'], vec!['a', 'o'], vec!['a', 'u'], vec!['â', 'u'], vec!['a', 'y'],
            vec!['â', 'y'], vec!['e', 'o'], vec!['ê', 'u'], vec!['i', 'a'], vec!['i', 'ê', 'u'],
            vec!['i', 'u'], vec!['o', 'a', 'i'], vec!['o', 'a', 'o'], vec!['o', 'a', 'y'],
            vec!['o', 'e', 'o'], vec!['o', 'i'], vec!['ô', 'i'], vec!['ơ', 'i'], vec!['ư', 'a'],
            vec!['u', 'â', 'y'], vec!['u', 'i'], vec!['ư', 'i'], vec!['u', 'ô', 'i'],
            vec!['ư', 'ơ', 'i'], vec!['ư', 'ơ', 'u'], vec!['ư', 'u'], vec!['u', 'y', 'a'],
            vec!['u', 'y', 'u'], vec!['y', 'ê', 'u'],
        ],
        vec![
            vec!['ă'],
        ],
        vec![
            vec!['i'],
        ],
    ];
    assert(group_views(r@) =~~= vowel_groups());
    r
}

fn final_group_table() -> (r: Vec<Vec<Vec<char>>>)
    ensures
        group_views(r@) == final_groups(),
{
    let r = vec![
        vec![
            vec!['c', 'h'], vec!['n', 'h'],
        ],
        vec![
            vec!['c'], vec!['n', 'g'],
        ],
        vec![
            vec!['m'], vec!['n'], vec!['p'], vec!['t'],
        ],
        vec![
            vec!['k'],
        ],
        vec![
            vec!['c'],
        ],
    ];
    assert(group_views(r@) =~~= final_groups());
    r
}

fn cv_table() -> (r: Vec<Vec<usize>>)
    ensures
        row_views(r@) == cv_matrix(),
{
    let r = vec![
        vec![0usize, 1usize, 2usize, 5usize],
        vec![0usize, 1usize, 2usize, 3usize, 4usize, 5usize],
        vec![0usize, 1usize, 2usize, 3usize, 5usize],
        vec![6usize],
        vec![7usize],
    ];
    assert(row_views(r@) =~~= cv_matrix());
    r
}

fn vc_table() -> (r: Vec<Vec<usize>>)
    ensures
        row_views(r@) == vc_matrix(),
{
    let r = vec![
        vec![0usize, 2usize],
        vec![0usize, 1usize, 2usize],
        vec![1usize, 2usize],
        vec![1usize, 2usize],
        vec![],
        vec![],
        vec![3usize],
        vec![4usize],
    ];
    assert(row_views(r@) =~~= vc_matrix());
    r
}

/// Whether two character sequences are equal.
fn same_chars(a: &[char], b: &[char]) -> (r: bool)
    ensures
        r == (a@ == b@),
{
    if a.len() != b.len() {
        return false;
    }
    let r = starts_with(a, b);
    assert(r ==> a@ =~= b@);
    assert(a@ == b@ ==> a@.subrange(0, b@.len() as int) =~= b@);
    r
}

/// Whether `entries` holds `target`.
pub fn holds_entry(entries: &Vec<Vec<char>>, target: &[char]) -> (r: bool)
    ensures
        r == entry_views(entries@).contains(target@),
{
    let mut k: usize = 0;
    while k < entries.len()
        invariant
            k <= entries@.len(),
            forall|j: int| 0 <= j < k ==> entry_views(entries@)[j] != target@,
        decreases entries@.len() - k,
    {
        if same_chars(entries[k].as_slice(), target) {
            assert(entry_views(entries@)[k as int] == target@);
            return true;
        }
        k = k + 1;
    }
    false
}

/// Whether `target` is empty or a prefix of one of the entries.
fn prefix_of_any(entries: &Vec<Vec<char>>, target: &[char]) -> (r: bool)
    ensures
        r == prefix_of_some(entry_views(entries@), target@),
{
    if target.len() == 0 {
        return true;
    }
    let mut k: usize = 0;
    while k < entries.len()
        invariant
            k <= entries@.len(),
            forall|j: int| 0 <= j < k ==> !is_prefix(target@, #[trigger] entry_views(entries@)[j]),
        decreases entries@.len() - k,
    {
        if starts_with(entries[k].as_slice(), target) {
            assert(is_prefix(target@, entry_views(entries@)[k as int]));
            return true;
        }
        k = k + 1;
    }
    false
}

/// Indices of the groups that hold `target`, in increasing order.
pub fn find_group_indices(groups: &Vec<Vec<Vec<char>>>, target: &[char]) -> (r: Vec<usize>)
    ensures
        forall|j: int| 0 <= j < r@.len() ==> r@[j] < groups@.len(),
        forall|g: int|
            0 <= g < groups@.len() ==> (r@.contains(g as usize) <==> #[trigger] group_views(groups@)[g].contains(target@)),
{
    let mut r: Vec<usize> = Vec::new();
    let mut g: usize = 0;
    while g < groups.len()
        invariant
            g <= groups@.len(),
            forall|j: int| 0 <= j < r@.len() ==> r@[j] < g,
            forall|h: int|
                0 <= h < g ==> (r@.contains(h as usize) <==> #[trigger] group_views(groups@)[h].contains(target@)),
        decreases groups@.len() - g,
    {
        let found = holds_entry(&groups[g], target);
        let ghost before = r@;
        if found {
            r.push(g);
            assert forall|h: int| 0 <= h < g + 1 implies (r@.contains(h as usize) <==> #[trigger] group_views(groups@)[h].contains(target@)) by {
                if h < g {
                    if before.contains(h as usize) {
                        let j = choose|j: int| 0 <= j < before.len() && before[j] == h as usize;
                        assert(r@[j] == h as usize);
                    }
                    if r@.contains(h as usize) {
                        let j = choose|j: int| 0 <= j < r@.len() && r@[j] == h as usize;
                        assert(j < before.len());
                        assert(before[j] == h as usize);
                    }
                } else {
                    assert(r@[before.len() as int] == g);
                }
            }
        } else {
            assert forall|h: int| 0 <= h < g + 1 implies (r@.contains(h as usize) <==> #[trigger] group_views(groups@)[h].contains(target@)) by {
                if h == g {
                    if r@.contains(h as usize) {
                        let j = choose|j: int| 0 <= j < r@.len() && r@[j] == h as usize;
                        assert(r@[j] < g);
                    }
                }
            }
        }
        g = g + 1;
    }
    r
}

/// Whether `row` holds `x`.
fn row_holds(row: &Vec<usize>, x: usize) -> (r: bool)
    ensures
        r == row@.contains(x),
{
    let mut k: usize = 0;
    while k < row.len()
        invariant
            k <= row@.len(),
            forall|j: int| 0 <= j < k ==> row@[j] != x,
        decreases row@.len() - k,
    {
        if row[k] == x {
            return true;
        }
        k = k + 1;
    }
    false
}

/// Whether some index of `left` and some index of `right` are marked
/// compatible by `matrix`.
fn any_compatible(left: &Vec<usize>, right: &Vec<usize>, matrix: &Vec<Vec<usize>>) -> (r: bool)
    requires
        forall|j: int| 0 <= j < left@.len() ==> left@[j] < matrix@.len(),
    ensures
        r == exists|a: int, b: int|
            0 <= a < left@.len() && 0 <= b < right@.len()
                && #[trigger] row_views(matrix@)[left@[a] as int].contains(#[trigger] right@[b]),
{
    let mut a: usize = 0;
    while a < left.len()
        invariant
            a <= left@.len(),
            forall|j: int| 0 <= j < left@.len() ==> left@[j] < matrix@.len(),
            forall|x: int, y: int|
                0 <= x < a && 0 <= y < right@.len() ==> !(#[trigger] row_views(matrix@)[left@[x] as int].contains(#[trigger] right@[y])),
        decreases left@.len() - a,
    {
        let mut b: usize = 0;
        while b < right.len()
            invariant
                a < left@.len(),
                b <= right@.len(),
                forall|j: int| 0 <= j < left@.len() ==> left@[j] < matrix@.len(),
                forall|x: int, y: int|
                    0 <= x < a && 0 <= y < right@.len() ==> !(#[trigger] row_views(matrix@)[left@[x] as int].contains(#[trigger] right@[y])),
                forall|y: int| 0 <= y < b ==> !row_views(matrix@)[left@[a as int] as int].contains(#[trigger] right@[y]),
            decreases right@.len() - b,
        {
            if row_holds(&matrix[left[a]], right[b]) {
                assert(row_views(matrix@)[left@[a as int] as int].contains(right@[b as int]));
                return true;
            }
            b = b + 1;
        }
        a = a + 1;
    }
    false
}

/// Compatibility of two components through their group indices.
proof fn lemma_groups_compatible(
    x: Seq<char>,
    y: Seq<char>,
    gx: Seq<Seq<Seq<char>>>,
    gy: Seq<Seq<Seq<char>>>,
    m: Seq<Seq<usize>>,
    left: Seq<usize>,
    right: Seq<usize>,
)
    requires
        m.len() == gx.len(),
        gx.len() <= usize::MAX,
        gy.len() <= usize::MAX,
        forall|j: int| 0 <= j < left.len() ==> left[j] < gx.len(),
        forall|j: int| 0 <= j < right.len() ==> right[j] < gy.len(),
        forall|g: int| 0 <= g < gx.len() ==> (left.contains(g as usize) <==> #[trigger] gx[g].contains(x)),
        forall|g: int| 0 <= g < gy.len() ==> (right.contains(g as usize) <==> #[trigger] gy[g].contains(y)),
    ensures
        (exists|a: int, b: int|
            0 <= a < left.len() && 0 <= b < right.len() && #[trigger] m[left[a] as int].contains(#[trigger] right[b]))
        <==> (exists|a: int, b: int|
            (0 <= a < gx.len() && gx[a].contains(x)) && (0 <= b < gy.len() && gy[b].contains(y))
                && #[trigger] m[a].contains(b as usize)),
{
    if exists|a: int, b: int|
        0 <= a < left.len() && 0 <= b < right.len() && #[trigger] m[left[a] as int].contains(#[trigger] right[b]) {
        let (a, b) = choose|a: int, b: int|
            0 <= a < left.len() && 0 <= b < right.len() && #[trigger] m[left[a] as int].contains(#[trigger] right[b]);
        let ga = left[a] as int;
        let gb = right[b] as int;
        assert(left.contains(ga as usize));
        assert(right.contains(gb as usize));
        assert(m[ga].contains(gb as usize));
    }
    if exists|a: int, b: int|
        (0 <= a < gx.len() && gx[a].contains(x)) && (0 <= b < gy.len() && gy[b].contains(y))
            && #[trigger] m[a].contains(b as usize) {
        let (a, b) = choose|a: int, b: int|
            (0 <= a < gx.len() && gx[a].contains(x)) && (0 <= b < gy.len() && gy[b].contains(y))
                && #[trigger] m[a].contains(b as usize);
        assert(left.contains(a as usize));
        assert(right.contains(b as usize));
        let i = choose|i: int| 0 <= i < left.len() && left[i] == a as usize;
        let j = choose|j: int| 0 <= j < right.len() && right[j] == b as usize;
        assert(m[left[i] as int].contains(right[j]));
    }
}

/// Check if a syllable is valid according to Vietnamese spelling rules: each
/// component, in lower case, is a full member of its set, and the
/// initial-vowel and vowel-final pairs are marked compatible.
pub fn is_valid_syllable(initial: &str, vowel: &str, final_cons: &str) -> (r: bool)
    ensures
        r == valid(initial@, vowel@, final_cons@),
{
    let i = lower_chars(chars_of(initial).as_slice());
    let v = lower_chars(chars_of(vowel).as_slice());
    let f = lower_chars(chars_of(final_cons).as_slice());
    if i.len() != 0 && !holds_entry(&initial_table(), i.as_slice()) {
        return false;
    }
    if f.len() != 0 && !holds_entry(&final_table(), f.as_slice()) {
        return false;
    }
    let ig = initial_group_table();
    let vg = vowel_group_table();
    let fg = final_group_table();
    let initial_groups_of = find_group_indices(&ig, i.as_slice());
    let vowel_groups_of = find_group_indices(&vg, v.as_slice());
    let final_groups_of = find_group_indices(&fg, f.as_slice());
    if vowel_groups_of.len() == 0 {
        proof {
            assert forall|g: int| !in_group(vowel_groups(), g, v@) by {
                if 0 <= g < vg@.len() {
                    assert(!vowel_groups_of@.contains(g as usize));
                }
            }
        }
        return false;
    }
    proof {
        let g = vowel_groups_of@[0] as int;
        assert(vowel_groups_of@.contains(g as usize));
        assert(in_group(vowel_groups(), g, v@));
    }
    if i.len() != 0 {
        let cv = cv_table();
        assert(ig@.len() == initial_groups().len());
        assert(cv@.len() == cv_matrix().len());
        let found = any_compatible(&initial_groups_of, &vowel_groups_of, &cv);
        proof {
            lemma_groups_compatible(i@, v@, group_views(ig@), group_views(vg@), row_views(cv@),
                initial_groups_of@, vowel_groups_of@);
        }
        if !found {
            return false;
        }
    }
    if f.len() != 0 {
        let vc = vc_table();
        assert(vg@.len() == vowel_groups().len());
        assert(vc@.len() == vc_matrix().len());
        let found = any_compatible(&vowel_groups_of, &final_groups_of, &vc);
        proof {
            lemma_groups_compatible(v@, f@, group_views(vg@), group_views(fg@), row_views(vc@),
                vowel_groups_of@, final_groups_of@);
        }
        if !found {
            return false;
        }
    }
    true
}

/// Whether `target`, in composed form (NFC), is empty or a prefix of one of
/// the entries.
pub fn is_valid_prefix(entries: &Vec<Vec<char>>, target: &str) -> (r: bool)
    ensures
        r == prefix_of_some(entry_views(entries@), nfc_form(target@)),
{
    let composed = normalize_nfc(target);
    let t = chars_of(composed.as_str());
    prefix_of_any(entries, t.as_slice())
}

/// Whether the components, in lower case, are prefixes of entries of their
/// sets.
pub fn is_permissible_parts(initial: &[char], vowel: &[char], final_cons: &[char]) -> (r: bool)
    ensures
        r == permissible(initial@, vowel@, final_cons@),
{
    let i = lower_chars(initial);
    let v = lower_chars(vowel);
    let f = lower_chars(final_cons);
    prefix_of_any(&initial_table(), i.as_slice()) && prefix_of_any(&vowel_table(), v.as_slice())
        && prefix_of_any(&final_table(), f.as_slice())
}

/// Check if syllable structure is permissible (components are valid
/// prefixes).
pub fn is_permissible_syllable(initial: &str, vowel: &str, final_cons: &str) -> (r: bool)
    ensures
        r == permissible(initial@, vowel@, final_cons@),
{
    let i = chars_of(initial);
    let v = chars_of(vowel);
    let f = chars_of(final_cons);
    is_permissible_parts(i.as_slice(), v.as_slice(), f.as_slice())
}

proof fn lemma_prefix_trans(a: Seq<char>, b: Seq<char>, c: Seq<char>)
    requires
        is_prefix(a, b),
        is_prefix(b, c),
    ensures
        is_prefix(a, c),
{
    assert(c.subrange(0, a.len() as int) =~= b.subrange(0, a.len() as int));
}

proof fn lemma_fold_prefix(a: Seq<char>, b: Seq<char>)
    requires
        is_prefix(a, b),
    ensures
        is_prefix(fold_seq(a), fold_seq(b)),
{
    assert(fold_seq(b).subrange(0, a.len() as int) =~= fold_seq(a));
}

proof fn lemma_prefix_of_some_closed(entries: Seq<Seq<char>>, t: Seq<char>, p: Seq<char>)
    requires
        prefix_of_some(entries, fold_seq(t)),
        is_prefix(p, t),
    ensures
        prefix_of_some(entries, fold_seq(p)),
{
    lemma_fold_prefix(p, t);
    if fold_seq(p).len() > 0 {
        let k = choose|k: int| 0 <= k < entries.len() && is_prefix(fold_seq(t), #[trigger] entries[k]);
        lemma_prefix_trans(fold_seq(p), fold_seq(t), entries[k]);
    }
}

/// Permissibility is closed under prefixes: when a syllable may still grow
/// into a real one, so may any syllable whose initial, vowel and final are
/// prefixes of its own.
pub proof fn lemma_permissible_prefix_closed(
    i: Seq<char>,
    v: Seq<char>,
    f: Seq<char>,
    i2: Seq<char>,
    v2: Seq<char>,
    f2: Seq<char>,
)
    requires
        permissible(i, v, f),
        is_prefix(i2, i),
        is_prefix(v2, v),
        is_prefix(f2, f),
    ensures
        permissible(i2, v2, f2),
{
    lemma_prefix_of_some_closed(initial_entries(), i, i2);
    lemma_prefix_of_some_closed(vowel_entries(), v, v2);
    lemma_prefix_of_some_closed(final_entries(), f, f2);
}

} // verus!
