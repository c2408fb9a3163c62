use site_entropy::alphabet::{alphabet, alphabet_len, classify, contains_symbol, parse_resolution, stereo_classify, Resolution};
use site_entropy::frequency::{collect_members, first_unknown, tally_column};
use site_entropy::pipeline::{normalization_size, plan_sites, ScoreError};
use site_entropy::text::str_eq;

fn chars(s: &str) -> Vec<char> {
    s.chars().collect()
}

#[test]
fn exact_alphabet_has_twenty_one_symbols() {
    let a = alphabet(Resolution::ExactResidue);
    assert_eq!(a.len(), 21);
    assert_eq!(alphabet_len(Resolution::ExactResidue), 21);
    assert_eq!(a[0], 'A');
    assert_eq!(a[20], '-');
    assert!(contains_symbol(&a, 'W'));
    assert!(!contains_symbol(&a, 'B'));
}

#[test]
fn class_alphabet_has_seven_letters() {
    let a = alphabet(Resolution::StereochemicalClass);
    assert_eq!(a, vec!['A', 'B', 'C', 'D', 'E', 'F', 'G']);
    assert_eq!(alphabet_len(Resolution::StereochemicalClass), 7);
}

#[test]
fn stereo_table() {
    for c in "AVLIMC".chars() {
        assert_eq!(stereo_classify(c), 'A');
    }
    for c in "FWYH".chars() {
        assert_eq!(stereo_classify(c), 'B');
    }
    for c in "STNQ".chars() {
        assert_eq!(stereo_classify(c), 'C');
    }
    for c in "KR".chars() {
        assert_eq!(stereo_classify(c), 'D');
    }
    for c in "DE".chars() {
        assert_eq!(stereo_classify(c), 'E');
    }
    for c in "GP".chars() {
        assert_eq!(stereo_classify(c), 'F');
    }
    for c in "-BZXU.".chars() {
        assert_eq!(stereo_classify(c), 'G');
    }
}

#[test]
fn exact_classification_is_identity() {
    assert_eq!(classify('K', Resolution::ExactResidue), 'K');
    assert_eq!(classify('-', Resolution::ExactResidue), '-');
    assert_eq!(classify('K', Resolution::StereochemicalClass), 'D');
}

#[test]
fn reclassifying_class_letters() {
    let twice: Vec<char> = "ABCDEFG".chars().map(stereo_classify).collect();
    assert_eq!(twice, vec!['A', 'G', 'A', 'E', 'E', 'B', 'F']);
}

#[test]
fn resolution_words() {
    assert_eq!(parse_resolution("21"), Some(Resolution::ExactResidue));
    assert_eq!(parse_resolution("7"), Some(Resolution::StereochemicalClass));
    assert_eq!(parse_resolution("07"), Some(Resolution::StereochemicalClass));
    assert_eq!(parse_resolution("20"), None);
    assert_eq!(parse_resolution(""), None);
}

#[test]
fn string_equality() {
    assert!(str_eq("hen", "hen"));
    assert!(!str_eq("hen", "he"));
    assert!(!str_eq("hen", "hem"));
    assert!(str_eq("", ""));
}

#[test]
fn members_in_order() {
    let col = chars("AKAVA");
    assert_eq!(collect_members(&col, Resolution::ExactResidue, 'A'), vec![0, 2, 4]);
    assert_eq!(collect_members(&col, Resolution::StereochemicalClass, 'A'), vec![0, 2, 3, 4]);
    assert_eq!(collect_members(&col, Resolution::ExactResidue, 'W'), Vec::<usize>::new());
}

#[test]
fn uniform_column_tally() {
    let col = chars("AAAA");
    let t = tally_column(&col, Resolution::ExactResidue).unwrap();
    assert_eq!(t.len(), 21);
    assert_eq!(t[0], vec![0, 1, 2, 3]);
    for k in 1..21 {
        assert!(t[k].is_empty());
    }
}

#[test]
fn every_sequence_in_one_bucket() {
    let col = chars("MKV-GDWS");
    let t = tally_column(&col, Resolution::StereochemicalClass).unwrap();
    assert_eq!(t.len(), 7);
    assert_eq!(t[0], vec![0, 2]);
    assert_eq!(t[1], vec![6]);
    assert_eq!(t[2], vec![7]);
    assert_eq!(t[3], vec![1]);
    assert_eq!(t[4], vec![5]);
    assert_eq!(t[5], vec![4]);
    assert_eq!(t[6], vec![3]);
    let total: usize = t.iter().map(|b| b.len()).sum();
    assert_eq!(total, col.len());
}

#[test]
fn unknown_residue_under_exact_resolution() {
    let col = chars("AAXB");
    assert_eq!(first_unknown(&col, Resolution::ExactResidue), Some(2));
    assert_eq!(tally_column(&col, Resolution::ExactResidue), Err(2));
    assert_eq!(first_unknown(&col, Resolution::StereochemicalClass), None);
    assert!(tally_column(&col, Resolution::StereochemicalClass).is_ok());
}

#[test]
fn normalization_sizes() {
    assert_eq!(normalization_size(4, Resolution::ExactResidue), Ok(4));
    assert_eq!(normalization_size(30, Resolution::ExactResidue), Ok(21));
    assert_eq!(normalization_size(30, Resolution::StereochemicalClass), Ok(7));
    assert_eq!(normalization_size(2, Resolution::StereochemicalClass), Ok(2));
}

#[test]
fn single_sequence_is_rejected() {
    assert_eq!(normalization_size(1, Resolution::ExactResidue), Err(ScoreError::TooFewSequences));
    assert_eq!(normalization_size(0, Resolution::StereochemicalClass), Err(ScoreError::TooFewSequences));
    let sites = vec![chars("A"), chars("K")];
    assert_eq!(
        plan_sites(&sites, 1, 2, Resolution::ExactResidue).err(),
        Some(ScoreError::TooFewSequences)
    );
}

#[test]
fn one_plan_per_column() {
    let sites = vec![chars("AAAA"), chars("AKV-"), chars("GGPP")];
    let plans = plan_sites(&sites, 4, 3, Resolution::StereochemicalClass).unwrap();
    assert_eq!(plans.len(), 3);
    assert_eq!(plans[0].effective_size, 4);
    assert_eq!(plans[0].members[0], vec![0, 1, 2, 3]);
    assert_eq!(plans[1].members[0], vec![0, 2]);
    assert_eq!(plans[1].members[3], vec![1]);
    assert_eq!(plans[1].members[6], vec![3]);
    assert_eq!(plans[2].members[5], vec![0, 1, 2, 3]);
    let empty: Vec<Vec<char>> = Vec::new();
    assert_eq!(plan_sites(&empty, 4, 0, Resolution::ExactResidue).unwrap().len(), 0);
}

#[test]
fn all_same_residue_scenario_plan() {
    let sites = vec![chars("AAAA")];
    let plans = plan_sites(&sites, 4, 1, Resolution::ExactResidue).unwrap();
    assert_eq!(plans.len(), 1);
    assert_eq!(plans[0].effective_size, 4);
    assert_eq!(plans[0].members.len(), 21);
    assert_eq!(plans[0].members[0], vec![0, 1, 2, 3]);
    assert!(plans[0].members[1..].iter().all(|b| b.is_empty()));
}

#[test]
fn plan_errors() {
    let sites = vec![chars("AAAA"), chars("AAA"), chars("AAXA")];
    assert_eq!(
        plan_sites(&sites, 4, 2, Resolution::ExactResidue).err(),
        Some(ScoreError::PenaltyCountMismatch)
    );
    assert_eq!(
        plan_sites(&sites, 4, 3, Resolution::ExactResidue).err(),
        Some(ScoreError::SiteLengthMismatch(1))
    );
    let sites = vec![chars("AAAA"), chars("AKAA"), chars("AAXA")];
    assert_eq!(
        plan_sites(&sites, 4, 3, Resolution::ExactResidue).err(),
        Some(ScoreError::UnknownResidue(2, 2))
    );
    assert!(plan_sites(&sites, 4, 3, Resolution::StereochemicalClass).is_ok());
}
