use fortress::targeting::densest;

#[test]
fn no_candidates_no_target() {
    assert_eq!(densest(&vec![]), None);
}

#[test]
fn the_densest_candidate_is_chosen() {
    let within = vec![
        vec![true, false, false],
        vec![false, true, true],
        vec![false, true, true],
    ];
    assert_eq!(densest(&within), Some(2));
    let within = vec![
        vec![true, true, true],
        vec![true, true, false],
        vec![true, false, true],
    ];
    assert_eq!(densest(&within), Some(0));
}

#[test]
fn ties_go_to_the_last_candidate() {
    let within = vec![vec![true, false], vec![false, true]];
    assert_eq!(densest(&within), Some(1));
    assert_eq!(densest(&vec![vec![true]]), Some(0));
}
