use concolic::worklist::Input;
use concolic::worklist::Worklist;

fn input(values: &[i64]) -> Input {
    Input::new(values.to_vec())
}

#[test]
fn offer_inserts_a_new_candidate() {
    let mut wl = Worklist::new();
    wl.offer(input(&[1, 2]));
    assert_eq!(wl.pending.len(), 1);
    assert_eq!(wl.pending[0].values, vec![1, 2]);
    assert_eq!(wl.tried.len(), 0);
}

#[test]
fn offer_drops_an_empty_candidate() {
    let mut wl = Worklist::new();
    wl.offer(input(&[]));
    assert_eq!(wl.pending.len(), 0);
}

#[test]
fn offer_twice_changes_nothing_the_second_time() {
    let mut wl = Worklist::new();
    wl.offer(input(&[1, 2]));
    wl.offer(input(&[1, 2]));
    assert_eq!(wl.pending.len(), 1);
    assert_eq!(wl.tried.len(), 0);
}

#[test]
fn offer_of_a_tried_input_is_a_no_op() {
    let mut wl = Worklist::new();
    wl.offer(input(&[3, 4]));
    let got = wl.next().expect("one input was pending");
    assert_eq!(got.values, vec![3, 4]);
    wl.mark_tried(got);
    wl.offer(input(&[3, 4]));
    assert_eq!(wl.pending.len(), 0);
    assert_eq!(wl.tried.len(), 1);
}

#[test]
fn next_is_last_in_first_out() {
    let mut wl = Worklist::new();
    wl.offer(input(&[1]));
    wl.offer(input(&[2]));
    wl.offer(input(&[3]));
    assert_eq!(wl.next().unwrap().values, vec![3]);
    assert_eq!(wl.next().unwrap().values, vec![2]);
    assert_eq!(wl.next().unwrap().values, vec![1]);
    assert!(wl.next().is_none());
}

#[test]
fn next_on_empty_reports_none_and_changes_nothing() {
    let mut wl = Worklist::new();
    assert!(wl.next().is_none());
    assert_eq!(wl.pending.len(), 0);
    assert_eq!(wl.tried.len(), 0);
}

#[test]
fn a_tried_input_is_never_returned_again() {
    let mut wl = Worklist::new();
    wl.offer(input(&[7, 8]));
    let got = wl.next().expect("one input was pending");
    wl.mark_tried(got.duplicate());
    wl.offer(input(&[7, 8]));
    wl.offer(input(&[9, 9]));
    let next = wl.next().expect("the fresh input is pending");
    assert_eq!(next.values, vec![9, 9]);
    wl.mark_tried(next);
    assert!(wl.next().is_none());
}

#[test]
fn inputs_differing_in_one_position_are_distinct() {
    let mut wl = Worklist::new();
    wl.offer(input(&[1, 2]));
    wl.offer(input(&[1, 3]));
    assert_eq!(wl.pending.len(), 2);
}

#[test]
fn same_values_is_positional_equality() {
    assert!(input(&[1, 2]).same_values(&input(&[1, 2])));
    assert!(!input(&[1, 2]).same_values(&input(&[2, 1])));
    assert!(!input(&[1, 2]).same_values(&input(&[1, 2, 3])));
    assert!(input(&[]).same_values(&input(&[])));
}
