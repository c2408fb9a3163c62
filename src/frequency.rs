use vstd::prelude::*;
use crate::alphabet::{alphabet, alphabet_of, classify, classify_spec, contains_symbol, is_known, Resolution};

verus! {

/// The positions among the first `n` of a column whose residue counts as
/// `sym`, in increasing order.
pub open spec fn members_upto(col: Seq<char>, res: Resolution, sym: char, n: int) -> Seq<usize>
    decreases n,
{
    if n <= 0 {
        Seq::empty()
    } else {
        let earlier = members_upto(col, res, sym, n - 1);
        if classify_spec(col[n - 1], res) == sym {
            earlier.push((n - 1) as usize)
        } else {
            earlier
        }
    }
}

/// The positions of a column whose residue counts as `sym`, in increasing order.
/// The weighted frequency of `sym` is the pseudo-count plus the weights of these
/// sequences, added in this order.
pub open spec fn members(col: Seq<char>, res: Resolution, sym: char) -> Seq<usize> {
    members_upto(col, res, sym, col.len() as int)
}

/// Every residue of the column has a symbol in the active alphabet.
pub open spec fn all_known(col: Seq<char>, res: Resolution) -> bool {
    forall|i: int| 0 <= i < col.len() ==> is_known(#[trigger] col[i], res)
}

/// The positions of a column that count as `sym`.
pub fn collect_members(column: &Vec<char>, res: Resolution, sym: char) -> (r: Vec<usize>)
    ensures
        r@ == members(column@, res, sym),
{
    let mut r: Vec<usize> = Vec::new();
    let mut i: usize = 0;
    while i < column.len()
        invariant
            i <= column.len(),
            r@ == members_upto(column@, res, sym, i as int),
        decreases column.len() - i,
    {
        if classify(column[i], res) == sym {
            r.push(i);
        }
        i = i + 1;
    }
    r
}

/// The first position of a column whose residue has no symbol in the active
/// alphabet, if there is one.
pub fn first_unknown(column: &Vec<char>, res: Resolution) -> (r: Option<usize>)
    ensures
        match r {
            None => all_known(column@, res),
            Some(p) => p < column.len() && !is_known(column@[p as int], res) && forall|i: int|
                0 <= i < p ==> is_known(#[trigger] column@[i], res),
        },
{
    let symbols = alphabet(res);
    let mut i: usize = 0;
    while i < column.len()
        invariant
            i <= column.len(),
            symbols@ == alphabet_of(res),
            forall|j: int| 0 <= j < i ==> is_known(#[trigger] column@[j], res),
        decreases column.len() - i,
    {
        if !contains_symbol(&symbols, classify(column[i], res)) {
            return Some(i);
        }
        i = i + 1;
    }
    None
}

/// For each symbol of the active alphabet, in alphabet order, the positions of
/// the column that count as it. A residue without a symbol in the alphabet is
/// rejected with its position.
pub fn tally_column(column: &Vec<char>, res: Resolution) -> (r: Result<Vec<Vec<usize>>, usize>)
    ensures
        match r {
            Ok(b) => all_known(column@, res) && b.len() == alphabet_of(res).len() && forall|k: int|
                0 <= k < b.len() ==> (#[trigger] b@[k])@ == members(column@, res, alphabet_of(res)[k]),
            Err(p) => p < column.len() && !is_known(column@[p as int], res) && forall|i: int|
                0 <= i < p ==> is_known(#[trigger] column@[i], res),
        },
{
    match first_unknown(column, res) {
        Some(p) => return Err(p),
        None => {},
    }
    let symbols = alphabet(res);
    let mut buckets: Vec<Vec<usize>> = Vec::new();
    let mut k: usize = 0;
    while k < symbols.len()
        invariant
            k <= symbols.len(),
            symbols@ == alphabet_of(res),
            buckets.len() == k,
            forall|j: int| 0 <= j < k ==> (#[trigger] buckets@[j])@ == members(column@, res, symbols@[j]),
        decreases symbols.len() - k,
    {
        let b = collect_members(column, res, symbols[k]);
        buckets.push(b);
        k = k + 1;
    }
    Ok(buckets)
}

/// Each sequence of a column adds its weight to exactly one symbol, the one its
/// residue counts as, and nothing else is listed.
pub proof fn lemma_members_partition(col: Seq<char>, res: Resolution, sym: char, i: int)
    requires
        col.len() <= usize::MAX,
        0 <= i < col.len(),
    ensures
        members(col, res, sym).contains(i as usize) <==> classify_spec(col[i], res) == sym,
        forall|j: int| 0 <= j < members(col, res, sym).len() ==> #[trigger] members(col, res, sym)[j] < col.len(),
{
    lemma_members_upto(col, res, sym, col.len() as int, i);
}

proof fn lemma_members_upto(col: Seq<char>, res: Resolution, sym: char, n: int, i: int)
    requires
        0 <= n <= col.len() <= usize::MAX,
    ensures
        0 <= i < n ==> (members_upto(col, res, sym, n).contains(i as usize) <==> classify_spec(col[i], res) == sym),
        forall|j: int| 0 <= j < members_upto(col, res, sym, n).len() ==> #[trigger] members_upto(col, res, sym, n)[j] < n,
    decreases n,
{
    if n > 0 {
        lemma_members_upto(col, res, sym, n - 1, i);
        let earlier = members_upto(col, res, sym, n - 1);
        if classify_spec(col[n - 1], res) == sym {
            assert(members_upto(col, res, sym, n) == earlier.push((n - 1) as usize));
            if 0 <= i < n - 1 {
                if earlier.contains(i as usize) {
                    let w = choose|w: int| 0 <= w < earlier.len() && earlier[w] == i as usize;
                    assert(earlier.push((n - 1) as usize)[w] == i as usize);
                }
                let longer = earlier.push((n - 1) as usize);
                if longer.contains(i as usize) {
                    let w = choose|w: int| 0 <= w < longer.len() && longer[w] == i as usize;
                    if w < earlier.len() {
                        assert(earlier[w] == i as usize);
                    }
                }
            }
            if i == n - 1 {
                assert(earlier.push((n - 1) as usize)[earlier.len() as int] == i as usize);
            }
        } else if i == n - 1 {
            if earlier.contains(i as usize) {
                let w = choose|w: int| 0 <= w < earlier.len() && earlier[w] == i as usize;
            }
        }
    }
}

/// A column whose residues are all the same character sends every sequence to
/// the symbol of that character, in order, and none to any other symbol.
pub proof fn lemma_uniform_column(col: Seq<char>, res: Resolution, c: char, sym: char)
    requires
        forall|i: int| 0 <= i < col.len() ==> col[i] == c,
    ensures
        members(col, res, classify_spec(c, res)) =~= Seq::new(col.len(), |i: int| i as usize),
        sym != classify_spec(c, res) ==> members(col, res, sym).len() == 0,
{
    lemma_uniform_upto(col, res, c, sym, col.len() as int);
}

proof fn lemma_uniform_upto(col: Seq<char>, res: Resolution, c: char, sym: char, n: int)
    requires
        0 <= n <= col.len(),
        forall|i: int| 0 <= i < col.len() ==> col[i] == c,
    ensures
        members_upto(col, res, classify_spec(c, res), n) =~= Seq::new(n as nat, |i: int| i as usize),
        sym != classify_spec(c, res) ==> members_upto(col, res, sym, n).len() == 0,
    decreases n,
{
    if n > 0 {
        lemma_uniform_upto(col, res, c, sym, n - 1);
        assert(col[n - 1] == c);
    }
}

} // verus!
