//! Collision-free output file names for scans.
//!
//! The first candidate for a base name `b` is `b.png`; the following ones are
//! `b_1.png`, `b_2.png`, ... The allocator picks the first candidate that is
//! not among the names already present in the scans directory.

use vstd::prelude::*;
use vstd::set_lib::*;
use vstd::relations::injective_on;
use crate::asset_path::AssetPath;
use crate::decimal::{decimal, lemma_decimal_injective, lemma_decimal_len, u64_to_decimal};

verus! {

pub open spec fn png_ext() -> Seq<char> {
    seq!['.', 'p', 'n', 'g']
}

/// The directory, relative to the assets root, that holds scan output.
pub open spec fn scans_prefix() -> Seq<char> {
    seq!['s', 'c', 'a', 'n', 's', '/']
}

/// The candidate file name with suffix number `n` (0 means no suffix).
pub open spec fn candidate_name(base: Seq<char>, n: nat) -> Seq<char> {
    if n == 0 {
        base + png_ext()
    } else {
        base + seq!['_'] + decimal(n) + png_ext()
    }
}

/// The views of a list of names.
pub open spec fn names_view(names: Seq<String>) -> Seq<Seq<char>> {
    names.map_values(|s: String| s@)
}

/// `n` is the smallest suffix number whose candidate is not taken.
pub open spec fn is_first_free(base: Seq<char>, taken: Seq<Seq<char>>, n: nat) -> bool {
    &&& !taken.contains(candidate_name(base, n))
    &&& forall|k: nat| k < n ==> taken.contains(#[trigger] candidate_name(base, k))
}

/// The relative path of a scan file with name `name`.
pub open spec fn scan_path(name: Seq<char>) -> Seq<char> {
    scans_prefix() + name
}

/// Different suffix numbers give different candidates.
pub proof fn lemma_candidate_injective(base: Seq<char>, j: nat, k: nat)
    requires
        candidate_name(base, j) == candidate_name(base, k),
    ensures
        j == k,
{
    lemma_decimal_len(j);
    lemma_decimal_len(k);
    let cj = candidate_name(base, j);
    let ck = candidate_name(base, k);
    if j == 0 && k != 0 {
        assert(cj.len() != ck.len());
    } else if j != 0 && k == 0 {
        assert(cj.len() != ck.len());
    } else if j != 0 && k != 0 {
        let lo: int = base.len() as int + 1;
        assert(cj.len() == base.len() + 1 + decimal(j).len() + 4);
        assert(ck.len() == base.len() + 1 + decimal(k).len() + 4);
        assert(decimal(j).len() == decimal(k).len());
        assert(cj.subrange(lo, lo + decimal(j).len()) =~= decimal(j));
        assert(ck.subrange(lo, lo + decimal(k).len()) =~= decimal(k));
        lemma_decimal_injective(j, k);
    }
}

/// At most as many candidates can be taken as there are taken names.
pub proof fn lemma_taken_candidates_bound(base: Seq<char>, taken: Seq<Seq<char>>, m: nat)
    requires
        forall|k: nat| k < m ==> taken.contains(#[trigger] candidate_name(base, k)),
    ensures
        m <= taken.len(),
{
    let f = |i: int| candidate_name(base, i as nat);
    let range = set_int_range(0, m as int);
    lemma_int_range(0, m as int);
    assert(injective_on(f, range)) by {
        assert forall|a: int, b: int|
            range.contains(a) && range.contains(b) && #[trigger] f(a) == #[trigger] f(b) implies a
            == b by {
            lemma_candidate_injective(base, a as nat, b as nat);
        }
    }
    let image = range.map(f);
    lemma_map_size(range, image, f);
    assert(image.subset_of(taken.to_set())) by {
        assert forall|x: Seq<char>| image.contains(x) implies taken.to_set().contains(x) by {
            let i = choose|i: int| range.contains(i) && f(i) == x;
            assert(taken.contains(candidate_name(base, i as nat)));
        }
    }
    taken.lemma_cardinality_of_set();
    vstd::seq_lib::seq_to_set_is_finite(taken);
    lemma_len_subset(image, taken.to_set());
}

/// Whether `name` is one of `names`.
pub fn contains_name(names: &Vec<String>, name: &String) -> (r: bool)
    ensures
        r == names_view(names@).contains(name@),
{
    let mut i: usize = 0;
    while i < names.len()
        invariant
            i <= names.len(),
            forall|k: int| 0 <= k < i ==> names@[k]@ != name@,
        decreases names.len() - i,
    {
        if names[i] == *name {
            assert(names_view(names@)[i as int] == name@);
            return true;
        }
        i = i + 1;
    }
    proof {
        if names_view(names@).contains(name@) {
            let k = choose|k: int| 0 <= k < names_view(names@).len() && names_view(names@)[k] == name@;
            assert(names@[k]@ == name@);
        }
    }
    false
}

/// The candidate file name for `base` with suffix number `counter`.
pub fn candidate_file_name(base: &str, counter: u64) -> (r: String)
    ensures
        r@ == candidate_name(base@, counter as nat),
{
    let mut s = String::from_str(base);
    proof {
        reveal_strlit("_");
        reveal_strlit(".png");
        assert(".png"@ =~= png_ext());
    }
    if counter > 0 {
        s.append("_");
        let digits = u64_to_decimal(counter);
        s.append(digits.as_str());
    }
    s.append(".png");
    s
}

/// The smallest suffix number whose candidate is not among `existing`.
pub fn first_free_counter(base: &str, existing: &Vec<String>) -> (r: u64)
    ensures
        is_first_free(base@, names_view(existing@), r as nat),
{
    let ghost taken = names_view(existing@);
    let total: usize = existing.len();
    let mut counter: u64 = 0;
    loop
        invariant
            taken == names_view(existing@),
            total == existing@.len(),
            counter <= existing@.len(),
            forall|k: nat| k < counter ==> taken.contains(#[trigger] candidate_name(base@, k)),
        decreases existing@.len() - counter,
    {
        let name = candidate_file_name(base, counter);
        if !contains_name(existing, &name) {
            return counter;
        }
        proof {
            assert forall|k: nat| k < counter + 1 implies taken.contains(
                #[trigger] candidate_name(base@, k),
            ) by {
                if k == counter {
                } else {
                    assert(k < counter);
                }
            }
            lemma_taken_candidates_bound(base@, taken, (counter + 1) as nat);
            assert(taken.len() == existing@.len());
            assert(total <= usize::MAX);
        }
        counter = counter + 1;
    }
}

/// Allocates the output path of a scan: `scans/<name>`, where `<name>` is the
/// first candidate for `base` that is not among `existing`, the names present
/// in the scans directory.
pub fn allocate(base: &str, existing: &Vec<String>) -> (r: AssetPath)
    ensures
        exists|n: nat|
            is_first_free(base@, names_view(existing@), n) && r@ == scan_path(
                #[trigger] candidate_name(base@, n),
            ),
{
    let n = first_free_counter(base, existing);
    let name = candidate_file_name(base, n);
    let mut path = String::from_str("scans/");
    proof {
        reveal_strlit("scans/");
        assert("scans/"@ =~= scans_prefix());
    }
    path.append(name.as_str());
    AssetPath::from_relative_path(path)
}

/// A new allocation never hands out a path whose file is present: when the
/// file `prev` of an earlier allocation is still among `existing`, the
/// path allocated now differs from it.
pub proof fn lemma_allocation_avoids_present_file(
    base: Seq<char>,
    existing: Seq<String>,
    prev: Seq<char>,
    n: nat,
)
    requires
        names_view(existing).contains(prev),
        is_first_free(base, names_view(existing), n),
    ensures
        scan_path(candidate_name(base, n)) != scan_path(prev),
{
    if scan_path(candidate_name(base, n)) == scan_path(prev) {
        assert(candidate_name(base, n) =~= scan_path(candidate_name(base, n)).subrange(
            6,
            scan_path(candidate_name(base, n)).len() as int,
        ));
        assert(prev =~= scan_path(prev).subrange(6, scan_path(prev).len() as int));
    }
}

/// With no file present, the first candidate, `<base>.png`, is allocated.
pub proof fn lemma_empty_directory_takes_plain_name(base: Seq<char>, n: nat)
    requires
        is_first_free(base, Seq::empty(), n),
    ensures
        n == 0,
        candidate_name(base, n) == base + png_ext(),
{
    if n > 0 {
        assert(!Seq::<Seq<char>>::empty().contains(candidate_name(base, 0)));
    }
}

} // verus!
