use vstd::prelude::*;

verus! {

/// How finely residues are told apart when a column is scored.
#[derive(Clone, Copy, Debug, PartialEq, Eq, Structural)]
pub enum Resolution {
    /// The twenty amino acids and the gap, each its own symbol.
    ExactResidue,
    /// Seven stereochemical classes.
    StereochemicalClass,
}

/// Class letter of A, V, L, I, M and C.
pub const ALIPHATIC: char = 'A';
/// Class letter of F, W, Y and H.
pub const AROMATIC: char = 'B';
/// Class letter of S, T, N and Q.
pub const POLAR: char = 'C';
/// Class letter of K and R.
pub const POSITIVE: char = 'D';
/// Class letter of D and E.
pub const NEGATIVE: char = 'E';
/// Class letter of G and P.
pub const SPECIAL_CONFORMATION: char = 'F';
/// Class letter of every other character, the gap among them.
pub const GAP_CLASS: char = 'G';

/// The twenty amino acids followed by the gap.
pub open spec fn exact_alphabet() -> Seq<char> {
    seq![
        'A', 'R', 'N', 'D', 'C', 'Q', 'E', 'G', 'H', 'I', 'L', 'K', 'M', 'F', 'P', 'S', 'T',
        'W', 'Y', 'V', '-',
    ]
}

/// The seven stereochemical class letters.
pub open spec fn class_alphabet() -> Seq<char> {
    seq![ALIPHATIC, AROMATIC, POLAR, POSITIVE, NEGATIVE, SPECIAL_CONFORMATION, GAP_CLASS]
}

pub open spec fn alphabet_of(res: Resolution) -> Seq<char> {
    match res {
        Resolution::ExactResidue => exact_alphabet(),
        Resolution::StereochemicalClass => class_alphabet(),
    }
}

/// The stereochemical class of a residue; anything outside the table is a gap.
pub open spec fn stereo_class(c: char) -> char {
    if c == 'A' || c == 'V' || c == 'L' || c == 'I' || c == 'M' || c == 'C' {
        ALIPHATIC
    } else if c == 'F' || c == 'W' || c == 'Y' || c == 'H' {
        AROMATIC
    } else if c == 'S' || c == 'T' || c == 'N' || c == 'Q' {
        POLAR
    } else if c == 'K' || c == 'R' {
        POSITIVE
    } else if c == 'D' || c == 'E' {
        NEGATIVE
    } else if c == 'G' || c == 'P' {
        SPECIAL_CONFORMATION
    } else {
        GAP_CLASS
    }
}

/// True of the residues that the stereochemical table lists explicitly.
pub open spec fn in_class_table(c: char) -> bool {
    c == 'A' || c == 'V' || c == 'L' || c == 'I' || c == 'M' || c == 'C' || c == 'F' || c
        == 'W' || c == 'Y' || c == 'H' || c == 'S' || c == 'T' || c == 'N' || c == 'Q' || c
        == 'K' || c == 'R' || c == 'D' || c == 'E' || c == 'G' || c == 'P'
}

pub open spec fn classify_spec(c: char, res: Resolution) -> char {
    match res {
        Resolution::ExactResidue => c,
        Resolution::StereochemicalClass => stereo_class(c),
    }
}

/// A residue is usable under a resolution when its symbol is in that alphabet.
pub open spec fn is_known(c: char, res: Resolution) -> bool {
    alphabet_of(res).contains(classify_spec(c, res))
}

/// The symbols of the alphabet that a resolution uses, in their fixed order.
pub fn alphabet(res: Resolution) -> (r: Vec<char>)
    ensures
        r@ == alphabet_of(res),
{
    let r = match res {
        Resolution::ExactResidue => vec![
            'A', 'R', 'N', 'D', 'C', 'Q', 'E', 'G', 'H', 'I', 'L', 'K', 'M', 'F', 'P', 'S',
            'T', 'W', 'Y', 'V', '-',
        ],
        Resolution::StereochemicalClass => vec![
            ALIPHATIC,
            AROMATIC,
            POLAR,
            POSITIVE,
            NEGATIVE,
            SPECIAL_CONFORMATION,
            GAP_CLASS,
        ],
    };
    assert(r@ =~= alphabet_of(res));
    r
}

/// The number of symbols of the alphabet that a resolution uses.
pub fn alphabet_len(res: Resolution) -> (r: usize)
    ensures
        r == alphabet_of(res).len(),
        r >= 7,
{
    match res {
        Resolution::ExactResidue => 21,
        Resolution::StereochemicalClass => 7,
    }
}

/// The stereochemical class of a residue.
pub fn stereo_classify(c: char) -> (r: char)
    ensures
        r == stereo_class(c),
{
    match c {
        'A' | 'V' | 'L' | 'I' | 'M' | 'C' => ALIPHATIC,
        'F' | 'W' | 'Y' | 'H' => AROMATIC,
        'S' | 'T' | 'N' | 'Q' => POLAR,
        'K' | 'R' => POSITIVE,
        'D' | 'E' => NEGATIVE,
        'G' | 'P' => SPECIAL_CONFORMATION,
        _ => GAP_CLASS,
    }
}

/// The symbol that a residue counts as under a resolution.
pub fn classify(c: char, res: Resolution) -> (r: char)
    ensures
        r == classify_spec(c, res),
{
    match res {
        Resolution::ExactResidue => c,
        Resolution::StereochemicalClass => stereo_classify(c),
    }
}

/// Whether a character is one of the symbols of an alphabet.
pub fn contains_symbol(symbols: &Vec<char>, c: char) -> (r: bool)
    ensures
        r == symbols@.contains(c),
{
    let mut k: usize = 0;
    while k < symbols.len()
        invariant
            k <= symbols.len(),
            forall|j: int| 0 <= j < k ==> symbols@[j] != c,
        decreases symbols.len() - k,
    {
        if symbols[k] == c {
            return true;
        }
        k = k + 1;
    }
    false
}

/// Reads the resolution setting: "21" for exact residues, "7" or "07" for the
/// stereochemical classes; anything else is not a resolution.
pub fn parse_resolution(s: &str) -> (r: Option<Resolution>)
    ensures
        r == resolution_of(s@),
{
    if crate::text::str_eq(s, "21") {
        Some(Resolution::ExactResidue)
    } else if crate::text::str_eq(s, "7") || crate::text::str_eq(s, "07") {
        Some(Resolution::StereochemicalClass)
    } else {
        None
    }
}

pub open spec fn resolution_of(s: Seq<char>) -> Option<Resolution> {
    if s == "21"@ {
        Some(Resolution::ExactResidue)
    } else if s == "7"@ || s == "07"@ {
        Some(Resolution::StereochemicalClass)
    } else {
        None
    }
}

/// Every symbol that the stereochemical classifier gives is a class letter.
pub proof fn lemma_stereo_class_in_alphabet(c: char)
    ensures
        class_alphabet().contains(stereo_class(c)),
{
    assert(class_alphabet()[stereo_class_index(c)] == stereo_class(c));
}

spec fn stereo_class_index(c: char) -> int {
    if c == 'A' || c == 'V' || c == 'L' || c == 'I' || c == 'M' || c == 'C' {
        0
    } else if c == 'F' || c == 'W' || c == 'Y' || c == 'H' {
        1
    } else if c == 'S' || c == 'T' || c == 'N' || c == 'Q' {
        2
    } else if c == 'K' || c == 'R' {
        3
    } else if c == 'D' || c == 'E' {
        4
    } else if c == 'G' || c == 'P' {
        5
    } else {
        6
    }
}

/// Classifying a class letter again: a letter that the residue table does not
/// list falls to the gap class, and one that it lists is classified as the
/// residue of that name. The letters are not closed under classification.
pub proof fn lemma_reclassify_class_letter(x: char)
    requires
        class_alphabet().contains(x),
    ensures
        !in_class_table(x) ==> stereo_class(x) == GAP_CLASS,
        in_class_table(x) ==> stereo_class(x) != GAP_CLASS,
        x == AROMATIC <==> !in_class_table(x),
{
}

/// Classifying a residue's class letter once more gives the gap class exactly
/// when the residue is aromatic: the other six letters name residues of the
/// table and keep a class of their own.
pub proof fn lemma_classify_twice(c: char)
    ensures
        stereo_class(stereo_class(c)) == GAP_CLASS <==> stereo_class(c) == AROMATIC,
{
}

} // verus!
