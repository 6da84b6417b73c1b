use ltui::ui::selection::SelectableList;

fn list_of(n: usize) -> SelectableList<u32> {
    let mut list = SelectableList::new();
    let mut items = Vec::new();
    for i in 0..n {
        items.push(i as u32 * 10);
    }
    list.replace(items);
    list
}

#[test]
fn new_list_is_empty_without_cursor() {
    let list: SelectableList<u32> = SelectableList::new();
    assert!(list.is_empty());
    assert_eq!(list.len(), 0);
    assert_eq!(list.cursor, None);
    assert_eq!(list.selected(), None);
}

#[test]
fn first_replace_selects_first_item() {
    let list = list_of(5);
    assert_eq!(list.cursor, Some(0));
    assert_eq!(list.selected(), Some(&0));
}

#[test]
fn select_next_advances_and_wraps() {
    let mut list = list_of(3);
    list.select_next();
    assert_eq!(list.cursor, Some(1));
    list.select_next();
    assert_eq!(list.cursor, Some(2));
    assert_eq!(list.selected(), Some(&20));
    list.select_next();
    assert_eq!(list.cursor, Some(0));
}

#[test]
fn select_previous_wraps_to_last() {
    let mut list = list_of(3);
    list.select_previous();
    assert_eq!(list.cursor, Some(2));
    list.select_previous();
    assert_eq!(list.cursor, Some(1));
    list.select_previous();
    assert_eq!(list.cursor, Some(0));
}

#[test]
fn n_steps_forward_return_to_start() {
    for n in 1..8usize {
        for start in 0..n {
            let mut list = list_of(n);
            list.cursor = Some(start);
            for _ in 0..n {
                list.select_next();
            }
            assert_eq!(list.cursor, Some(start));
        }
    }
}

#[test]
fn n_steps_backward_return_to_start() {
    for n in 1..8usize {
        for start in 0..n {
            let mut list = list_of(n);
            list.cursor = Some(start);
            for _ in 0..n {
                list.select_previous();
            }
            assert_eq!(list.cursor, Some(start));
        }
    }
}

#[test]
fn empty_list_navigation_is_a_no_op() {
    let mut list: SelectableList<u32> = SelectableList::new();
    list.select_next();
    assert_eq!(list.cursor, None);
    list.select_previous();
    assert_eq!(list.cursor, None);
    assert_eq!(list.selected(), None);
}

#[test]
fn emptied_list_keeps_cursor_and_selects_nothing() {
    let mut list = list_of(4);
    list.select_next();
    list.replace(Vec::new());
    assert_eq!(list.cursor, Some(1));
    assert_eq!(list.selected(), None);
    list.select_next();
    assert_eq!(list.cursor, Some(1));
    list.select_previous();
    assert_eq!(list.cursor, Some(1));
    assert_eq!(list.selected(), None);
}

#[test]
fn sticky_index_degrades_to_no_selection() {
    let mut list = list_of(5);
    list.cursor = Some(4);
    assert_eq!(list.selected(), Some(&40));
    list.replace(vec![7, 8, 9]);
    assert_eq!(list.cursor, Some(4));
    assert_eq!(list.selected(), None);
    list.select_next();
    assert_eq!(list.cursor, Some(0));
    assert_eq!(list.selected(), Some(&7));
}

#[test]
fn sticky_index_steps_backward_until_in_range() {
    let mut list = list_of(5);
    list.cursor = Some(4);
    list.replace(vec![7, 8, 9]);
    list.select_previous();
    assert_eq!(list.cursor, Some(3));
    assert_eq!(list.selected(), None);
    list.select_previous();
    assert_eq!(list.cursor, Some(2));
    assert_eq!(list.selected(), Some(&9));
}

#[test]
fn sticky_index_survives_replace_in_range() {
    let mut list = list_of(5);
    list.cursor = Some(2);
    list.replace(vec![7, 8, 9]);
    assert_eq!(list.cursor, Some(2));
    assert_eq!(list.selected(), Some(&9));
}

#[test]
fn unset_cursor_on_filled_list_goes_to_first_either_way() {
    let mut list = list_of(3);
    list.cursor = None;
    list.select_next();
    assert_eq!(list.cursor, Some(0));
    list.cursor = None;
    list.select_previous();
    assert_eq!(list.cursor, Some(0));
}
