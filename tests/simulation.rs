use string_rendezvous::predicate::is_good_strings;
use string_rendezvous::simulation::simulate;

fn supply(items: &[&str]) -> Vec<Vec<u8>> {
    items.iter().map(|s| s.as_bytes().to_vec()).collect()
}

#[test]
fn first_round_accepted_stops_at_once() {
    let one = supply(&["aab", "xyz"]);
    let two = supply(&["bca", "xyz"]);
    let t = simulate(3, 3, &one, &two);
    assert_eq!(t.coordinator, vec![false]);
    assert_eq!(t.first_generator, vec![false]);
    assert_eq!(t.second_generator, vec![false]);
    assert_eq!(t.accepted, Some((b"aab".to_vec(), b"bca".to_vec())));
}

#[test]
fn generators_observe_every_verdict() {
    let one = supply(&["abz", "", "qq", "ab", "zz"]);
    let two = supply(&["abc", "abc", "xy", "ba", "zz"]);
    let t = simulate(2, 2, &one, &two);
    assert_eq!(t.coordinator, vec![true, true, true, false]);
    assert_eq!(t.first_generator, t.coordinator);
    assert_eq!(t.second_generator, t.coordinator);
}

#[test]
fn run_ends_with_an_accepted_pair() {
    let one = supply(&["k", "mn", "Mx", "m0", "00"]);
    let two = supply(&["j", "m", "mM", "0m1", "0"]);
    let t = simulate(2, 2, &one, &two);
    assert_eq!(t.coordinator.len(), 4);
    let (first, second) = t.accepted.expect("a pair is accepted");
    assert!(is_good_strings(&first, &second));
    assert_eq!(first, b"m0".to_vec());
    assert_eq!(second, b"0m1".to_vec());
}

#[test]
fn exhausted_supply_reports_nothing() {
    let one = supply(&["ab", "cd"]);
    let two = supply(&["xy", "xy", "cd"]);
    let t = simulate(2, 2, &one, &two);
    assert_eq!(t.coordinator, vec![true, true]);
    assert_eq!(t.first_generator, vec![true, true]);
    assert_eq!(t.second_generator, vec![true, true]);
    assert_eq!(t.accepted, None);
}

#[test]
fn empty_supply_plays_no_round() {
    let t = simulate(3, 3, &Vec::new(), &supply(&["abc"]));
    assert!(t.coordinator.is_empty());
    assert_eq!(t.accepted, None);
}

#[test]
fn asymmetric_pair_depends_on_which_generator_sent_it() {
    let t = simulate(4, 2, &supply(&["abcd"]), &supply(&["ab"]));
    assert_eq!(t.coordinator, vec![true]);
    let t = simulate(2, 4, &supply(&["ab"]), &supply(&["abcd"]));
    assert_eq!(t.coordinator, vec![false]);
}
