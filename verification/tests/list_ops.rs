use parlist::{construct_list, print_list, value_string, LinkedList};

fn collected(list: &LinkedList) -> Vec<i64> {
    let mut out: Vec<i64> = Vec::new();
    let mut cur: &LinkedList = list;
    while let Some(node) = cur {
        out.push(node.val);
        cur = &node.tail;
    }
    out
}

#[test]
fn construct_zero_is_empty() {
    let list = construct_list(0, 42);
    assert!(list.is_none());
}

#[test]
fn construct_holds_consecutive_values() {
    let list = construct_list(4, 7);
    assert_eq!(collected(&list), vec![7, 8, 9, 10]);
}

#[test]
fn construct_one_node() {
    let list = construct_list(1, -3);
    assert_eq!(collected(&list), vec![-3]);
}

#[test]
fn render_of_empty_is_empty_string() {
    let list = construct_list(0, 5);
    assert_eq!(print_list(&list), "");
}

#[test]
fn render_three_from_ten() {
    let list = construct_list(3, 10);
    assert_eq!(print_list(&list), "10, 11, 12, ");
}

#[test]
fn render_crossing_zero() {
    let list = construct_list(3, -1);
    assert_eq!(print_list(&list), "-1, 0, 1, ");
}

#[test]
fn render_leaves_list_usable() {
    let list = construct_list(2, 1);
    let first = print_list(&list);
    let second = print_list(&list);
    assert_eq!(first, "1, 2, ");
    assert_eq!(second, "1, 2, ");
    assert_eq!(collected(&list), vec![1, 2]);
}

#[test]
fn render_largest_value() {
    let list = construct_list(1, i64::MAX);
    assert_eq!(print_list(&list), "9223372036854775807, ");
}

#[test]
fn render_smallest_value() {
    let list = construct_list(1, i64::MIN);
    assert_eq!(print_list(&list), "-9223372036854775808, ");
}

#[test]
fn value_string_zero() {
    assert_eq!(value_string(0), "0");
}

#[test]
fn value_string_negative() {
    assert_eq!(value_string(-7), "-7");
}

#[test]
fn value_string_round_number() {
    assert_eq!(value_string(1000), "1000");
}
