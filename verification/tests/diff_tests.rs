use media_ingest::diff::{difference_indices, get_differences};

#[derive(Debug, PartialEq)]
struct Tag {
    id: i32,
    name: &'static str,
}

fn tag(id: i32, name: &'static str) -> Tag {
    Tag { id, name }
}

#[test]
fn positions_of_unknown_keys_come_in_key_order() {
    assert_eq!(difference_indices(&vec![5, 1, 9, 3], &vec![9, 4]), vec![1, 3, 0]);
    assert_eq!(difference_indices(&vec![7, 2, 7, 2], &vec![]), vec![1, 3, 0, 2]);
    assert_eq!(difference_indices(&vec![1, 2, 3], &vec![3, 2, 1]), Vec::<usize>::new());
    assert_eq!(difference_indices(&vec![], &vec![1]), Vec::<usize>::new());
    assert_eq!(difference_indices(&vec![i64::MAX, i64::MIN, 0], &vec![0]), vec![1, 0]);
}

#[test]
fn differences_are_what_to_add_and_what_to_remove() {
    let curr = vec![tag(1, "people"), tag(2, "places"), tag(3, "pets")];
    let new = vec![tag(9, "trips"), tag(3, "pets"), tag(4, "food")];
    let (to_add, to_remove) = get_differences(&curr, &new, |t: &Tag| t.id as i64);
    assert_eq!(to_add, vec![&new[2], &new[0]]);
    assert_eq!(to_remove, vec![&curr[0], &curr[1]]);
}

#[test]
fn equal_lists_differ_in_nothing() {
    let curr = vec![tag(1, "a"), tag(2, "b")];
    let new = vec![tag(2, "b"), tag(1, "a")];
    let (to_add, to_remove) = get_differences(&curr, &new, |t: &Tag| t.id as i64);
    assert!(to_add.is_empty());
    assert!(to_remove.is_empty());
}

#[test]
fn elements_of_one_key_stay_in_their_order() {
    let curr: Vec<Tag> = vec![];
    let new = vec![tag(2, "second"), tag(1, "x"), tag(2, "first")];
    let (to_add, to_remove) = get_differences(&curr, &new, |t: &Tag| t.id as i64);
    assert_eq!(to_add, vec![&new[1], &new[0], &new[2]]);
    assert!(to_remove.is_empty());
}
