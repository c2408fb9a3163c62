use vstd::prelude::*;
use crate::alphabet::{alphabet_len, alphabet_of, is_known, Resolution};
use crate::frequency::{all_known, members, tally_column};

verus! {

/// Why a set of columns cannot be scored.
#[derive(Clone, Copy, Debug, PartialEq, Eq, Structural)]
pub enum ScoreError {
    /// There is not one gap penalty per column.
    PenaltyCountMismatch,
    /// The column at this index does not have one residue per weighted sequence.
    SiteLengthMismatch(usize),
    /// Fewer than two sequences: the normalisation would divide by `log2(1)`.
    TooFewSequences,
    /// Column, then position, of a residue outside the active alphabet.
    UnknownResidue(usize, usize),
}

/// What scoring one column takes: for each alphabet symbol, in alphabet order,
/// the sequences whose weight it accumulates; and the size whose base-2
/// logarithm normalises the entropy.
pub struct ColumnPlan {
    pub members: Vec<Vec<usize>>,
    pub effective_size: usize,
}

pub open spec fn min_nat(a: nat, b: nat) -> nat {
    if a <= b {
        a
    } else {
        b
    }
}

/// The normalisation size of a column of `n` sequences: the smaller of the
/// alphabet size and `n`.
pub open spec fn effective_size_of(res: Resolution, n: nat) -> nat {
    min_nat(alphabet_of(res).len(), n)
}

/// `plan` is the plan of column `col` under `res`.
pub open spec fn is_plan_of(plan: ColumnPlan, col: Seq<char>, res: Resolution) -> bool {
    &&& plan.effective_size == effective_size_of(res, col.len())
    &&& plan.members@.len() == alphabet_of(res).len()
    &&& forall|k: int|
        0 <= k < plan.members@.len() ==> (#[trigger] plan.members@[k])@ == members(
            col,
            res,
            alphabet_of(res)[k],
        )
}

/// Every column has one residue per weighted sequence.
pub open spec fn lengths_agree(sites: Seq<Vec<char>>, n_weights: nat) -> bool {
    forall|j: int| 0 <= j < sites.len() ==> (#[trigger] sites[j])@.len() == n_weights
}

/// The normalisation size for columns of `n_sequences` residues. A single
/// sequence (or none) is rejected: its normalisation would divide by zero.
pub fn normalization_size(n_sequences: usize, res: Resolution) -> (r: Result<usize, ScoreError>)
    ensures
        match r {
            Ok(d) => n_sequences >= 2 && d == effective_size_of(res, n_sequences as nat) && d >= 2,
            Err(e) => n_sequences < 2 && e == ScoreError::TooFewSequences,
        },
{
    if n_sequences < 2 {
        return Err(ScoreError::TooFewSequences);
    }
    let a = alphabet_len(res);
    if a <= n_sequences {
        Ok(a)
    } else {
        Ok(n_sequences)
    }
}

/// Plans the scoring of every column, in column order, under one resolution.
/// `n_weights` is the number of sequence weights and `n_penalties` the number
/// of gap penalties. The checks come in this order: one penalty per column,
/// one residue per weight in each column, at least two sequences, every
/// residue in the alphabet.
pub fn plan_sites(sites: &Vec<Vec<char>>, n_weights: usize, n_penalties: usize, res: Resolution) -> (r: Result<Vec<ColumnPlan>, ScoreError>)
    ensures
        match r {
            Ok(plans) => {
                &&& sites.len() == n_penalties
                &&& lengths_agree(sites@, n_weights as nat)
                &&& n_weights >= 2
                &&& forall|j: int| 0 <= j < sites.len() ==> all_known(#[trigger] sites@[j]@, res)
                &&& plans.len() == sites.len()
                &&& forall|j: int| 0 <= j < plans.len() ==> is_plan_of(#[trigger] plans@[j], sites@[j]@, res)
            },
            Err(ScoreError::PenaltyCountMismatch) => sites.len() != n_penalties,
            Err(ScoreError::SiteLengthMismatch(j)) => {
                &&& sites.len() == n_penalties
                &&& j < sites.len()
                &&& sites@[j as int]@.len() != n_weights
                &&& lengths_agree(sites@.take(j as int), n_weights as nat)
            },
            Err(ScoreError::TooFewSequences) => {
                &&& sites.len() == n_penalties
                &&& lengths_agree(sites@, n_weights as nat)
                &&& n_weights < 2
            },
            Err(ScoreError::UnknownResidue(j, p)) => {
                &&& sites.len() == n_penalties
                &&& lengths_agree(sites@, n_weights as nat)
                &&& n_weights >= 2
                &&& j < sites.len()
                &&& forall|j2: int| 0 <= j2 < j ==> all_known(#[trigger] sites@[j2]@, res)
                &&& p < sites@[j as int]@.len()
                &&& !is_known(sites@[j as int]@[p as int], res)
                &&& forall|p2: int| 0 <= p2 < p ==> is_known(#[trigger] sites@[j as int]@[p2], res)
            },
        },
{
    if sites.len() != n_penalties {
        return Err(ScoreError::PenaltyCountMismatch);
    }
    let mut j: usize = 0;
    while j < sites.len()
        invariant
            j <= sites.len(),
            sites.len() == n_penalties,
            lengths_agree(sites@.take(j as int), n_weights as nat),
        decreases sites.len() - j,
    {
        if sites[j].len() != n_weights {
            return Err(ScoreError::SiteLengthMismatch(j));
        }
        assert(sites@.take(j + 1) =~= sites@.take(j as int).push(sites@[j as int]));
        j = j + 1;
    }
    assert(sites@.take(sites.len() as int) =~= sites@);
    let size = match normalization_size(n_weights, res) {
        Ok(d) => d,
        Err(e) => return Err(e),
    };
    let mut plans: Vec<ColumnPlan> = Vec::new();
    let mut j: usize = 0;
    while j < sites.len()
        invariant
            j <= sites.len(),
            sites.len() == n_penalties,
            lengths_agree(sites@, n_weights as nat),
            size == effective_size_of(res, n_weights as nat),
            n_weights >= 2,
            plans.len() == j,
            forall|i: int| 0 <= i < j ==> all_known(#[trigger] sites@[i]@, res),
            forall|i: int| 0 <= i < j ==> is_plan_of(#[trigger] plans@[i], sites@[i]@, res),
        decreases sites.len() - j,
    {
        assert(sites@[j as int]@.len() == n_weights);
        match tally_column(&sites[j], res) {
            Ok(members) => {
                plans.push(ColumnPlan { members, effective_size: size });
            },
            Err(p) => {
                return Err(ScoreError::UnknownResidue(j, p));
            },
        }
        j = j + 1;
    }
    Ok(plans)
}

} // verus!
