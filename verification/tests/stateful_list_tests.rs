use music_browser::stateful_list::StatefulList;

fn letters(n: usize) -> Vec<String> {
    ["a", "b", "c", "d", "e"].iter().take(n).map(|s| s.to_string()).collect()
}

#[test]
fn with_items_keeps_order_and_selects_nothing() {
    let list = StatefulList::with_items(letters(3));
    assert_eq!(list.get_items(), &letters(3));
    assert_eq!(list.selected_index(), None);
    assert!(!list.is_empty());
    assert_eq!(list.get_item(), "a");
}

#[test]
fn next_from_unselected_selects_first() {
    let mut list = StatefulList::with_items(letters(3));
    list.next();
    assert_eq!(list.selected_index(), Some(0));
    assert_eq!(list.get_item(), "a");
}

#[test]
fn previous_from_unselected_selects_first() {
    let mut list = StatefulList::with_items(letters(3));
    list.previous();
    assert_eq!(list.selected_index(), Some(0));
}

#[test]
fn next_wraps_from_last_to_first() {
    let mut list = StatefulList::with_items(letters(3));
    list.next();
    list.next();
    assert_eq!(list.selected_index(), Some(1));
    list.next();
    assert_eq!(list.selected_index(), Some(2));
    assert_eq!(list.get_item(), "c");
    list.next();
    assert_eq!(list.selected_index(), Some(0));
}

#[test]
fn previous_wraps_from_first_to_last() {
    let mut list = StatefulList::with_items(letters(4));
    list.next();
    list.previous();
    assert_eq!(list.selected_index(), Some(3));
    assert_eq!(list.get_item(), "d");
    list.previous();
    assert_eq!(list.selected_index(), Some(2));
}

#[test]
fn next_len_times_returns_to_start() {
    for len in 1..=5usize {
        for start in 0..len {
            let mut list = StatefulList::with_items(letters(len));
            for _ in 0..=start {
                list.next();
            }
            assert_eq!(list.selected_index(), Some(start));
            for _ in 0..len {
                list.next();
            }
            assert_eq!(list.selected_index(), Some(start));
        }
    }
}

#[test]
fn previous_undoes_next() {
    for len in 1..=5usize {
        for start in 0..len {
            let mut list = StatefulList::with_items(letters(len));
            for _ in 0..=start {
                list.next();
            }
            list.next();
            list.previous();
            assert_eq!(list.selected_index(), Some(start));
            list.previous();
            list.next();
            assert_eq!(list.selected_index(), Some(start));
        }
    }
}

#[test]
fn next_and_previous_leave_empty_list_alone() {
    let mut list: StatefulList<String> = StatefulList::with_items(Vec::new());
    list.next();
    list.previous();
    assert!(list.is_empty());
    assert_eq!(list.selected_index(), None);
}

#[test]
fn add_appends_and_keeps_cursor() {
    let mut list = StatefulList::with_items(letters(2));
    list.next();
    list.next();
    list.add("z".to_string());
    assert_eq!(list.get_items(), &vec!["a".to_string(), "b".to_string(), "z".to_string()]);
    assert_eq!(list.selected_index(), Some(1));
    assert_eq!(list.get_item(), "b");
}

#[test]
fn add_to_empty_list_selects_nothing() {
    let mut list: StatefulList<String> = StatefulList::with_items(Vec::new());
    list.add("a".to_string());
    assert_eq!(list.selected_index(), None);
    assert_eq!(list.get_item(), "a");
}

#[test]
fn remove_on_empty_list_does_nothing() {
    let mut list: StatefulList<String> = StatefulList::with_items(Vec::new());
    list.remove();
    assert!(list.is_empty());
    assert_eq!(list.selected_index(), None);
}

#[test]
fn remove_single_item_leaves_empty_and_unselected() {
    let mut list = StatefulList::with_items(letters(1));
    list.next();
    assert_eq!(list.selected_index(), Some(0));
    list.remove();
    assert!(list.is_empty());
    assert_eq!(list.get_items().len(), 0);
    assert_eq!(list.selected_index(), None);
}

#[test]
fn remove_at_last_index_moves_cursor_up_by_one() {
    let mut list = StatefulList::with_items(letters(3));
    list.next();
    list.next();
    list.next();
    assert_eq!(list.selected_index(), Some(2));
    list.remove();
    assert_eq!(list.get_items(), &letters(2));
    assert_eq!(list.selected_index(), Some(1));
    assert_eq!(list.get_item(), "b");
}

#[test]
fn remove_in_the_middle_keeps_cursor_index() {
    let mut list = StatefulList::with_items(letters(4));
    list.next();
    list.next();
    list.remove();
    assert_eq!(
        list.get_items(),
        &vec!["a".to_string(), "c".to_string(), "d".to_string()]
    );
    assert_eq!(list.selected_index(), Some(1));
    assert_eq!(list.get_item(), "c");
}

#[test]
fn remove_without_selection_takes_the_cursor_item() {
    let mut list = StatefulList::with_items(letters(3));
    list.remove();
    assert_eq!(list.get_items(), &vec!["b".to_string(), "c".to_string()]);
    assert_eq!(list.selected_index(), None);
}

#[test]
fn take_returns_the_item_under_the_cursor() {
    let mut list = StatefulList::with_items(letters(3));
    list.next();
    list.next();
    assert_eq!(list.take(), Some("b".to_string()));
    assert_eq!(list.take(), Some("c".to_string()));
    assert_eq!(list.selected_index(), Some(0));
    assert_eq!(list.take(), Some("a".to_string()));
    assert_eq!(list.take(), None);
    assert_eq!(list.selected_index(), None);
}

#[test]
fn unselect_clears_highlight_and_keeps_items() {
    let mut list = StatefulList::with_items(letters(3));
    list.next();
    list.next();
    list.unselect();
    assert_eq!(list.selected_index(), None);
    assert_eq!(list.get_items(), &letters(3));
    assert_eq!(list.get_item(), "b");
    list.next();
    assert_eq!(list.selected_index(), Some(0));
}

#[test]
fn is_empty_agrees_with_item_count() {
    let mut list: StatefulList<String> = StatefulList::with_items(Vec::new());
    assert_eq!(list.is_empty(), list.get_items().len() == 0);
    list.add("a".to_string());
    assert_eq!(list.is_empty(), list.get_items().len() == 0);
    assert!(!list.is_empty());
    list.remove();
    assert_eq!(list.is_empty(), list.get_items().len() == 0);
    assert!(list.is_empty());
}
