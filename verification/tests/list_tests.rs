use kanban::list::StatefulList;
use kanban::ticket::Ticket;

fn list_of(titles: &[&str]) -> StatefulList<Ticket> {
    let mut list: StatefulList<Ticket> = StatefulList::new();
    for t in titles {
        list.push(Ticket::new(String::from(*t)));
    }
    list
}

#[test]
fn new_list_is_empty_and_unselected() {
    let list: StatefulList<Ticket> = StatefulList::new();
    assert_eq!(list.len(), 0);
    assert_eq!(list.selected(), None);
}

#[test]
fn push_keeps_order_and_selection() {
    let mut list = list_of(&["a", "b"]);
    assert_eq!(list.selected(), None);
    list.push(Ticket::new(String::from("c")));
    assert_eq!(list.len(), 3);
    assert_eq!(list.get(0).title, "a");
    assert_eq!(list.get(1).title, "b");
    assert_eq!(list.get(2).title, "c");
    assert_eq!(list.selected(), None);
}

#[test]
fn next_starts_at_zero_without_selection() {
    let mut list = list_of(&["a", "b", "c"]);
    list.next();
    assert_eq!(list.selected(), Some(0));
}

#[test]
fn next_cycles_back_after_len_steps() {
    let mut list = list_of(&["a", "b", "c"]);
    list.next();
    assert_eq!(list.selected(), Some(0));
    for _ in 0..3 {
        list.next();
    }
    assert_eq!(list.selected(), Some(0));
}

#[test]
fn previous_inverts_next() {
    let mut list = list_of(&["a", "b", "c"]);
    list.next();
    list.next();
    assert_eq!(list.selected(), Some(1));
    list.next();
    list.previous();
    assert_eq!(list.selected(), Some(1));
}

#[test]
fn previous_wraps_from_first_to_last() {
    let mut list = list_of(&["a", "b", "c"]);
    list.next();
    assert_eq!(list.selected(), Some(0));
    list.previous();
    assert_eq!(list.selected(), Some(2));
}

#[test]
fn previous_starts_at_zero_without_selection() {
    let mut list = list_of(&["a", "b"]);
    list.previous();
    assert_eq!(list.selected(), Some(0));
}

#[test]
fn next_on_empty_list_is_a_noop() {
    let mut list: StatefulList<Ticket> = StatefulList::new();
    list.next();
    assert_eq!(list.selected(), None);
    assert_eq!(list.len(), 0);
}

#[test]
fn previous_on_empty_list_is_a_noop() {
    let mut list: StatefulList<Ticket> = StatefulList::new();
    list.previous();
    assert_eq!(list.selected(), None);
    assert_eq!(list.len(), 0);
}

#[test]
fn unselect_clears_the_selection() {
    let mut list = list_of(&["a"]);
    list.next();
    assert_eq!(list.selected(), Some(0));
    list.unselect();
    assert_eq!(list.selected(), None);
}

#[test]
fn select_first_if_present_selects_zero_on_non_empty() {
    let mut list = list_of(&["a", "b"]);
    list.next();
    list.next();
    assert_eq!(list.selected(), Some(1));
    list.select_first_if_present();
    assert_eq!(list.selected(), Some(0));
}

#[test]
fn select_first_if_present_on_empty_list_is_a_noop() {
    let mut list: StatefulList<Ticket> = StatefulList::new();
    list.select_first_if_present();
    assert_eq!(list.selected(), None);
}

#[test]
fn duplicates_are_allowed() {
    let list = list_of(&["same", "same"]);
    assert_eq!(list.len(), 2);
    assert_eq!(list.get(0).title, "same");
    assert_eq!(list.get(1).title, "same");
}

#[test]
fn ticket_new_has_empty_body_and_zero_points() {
    let t = Ticket::new(String::from("Write spec"));
    assert_eq!(t.title, "Write spec");
    assert_eq!(t.body, "");
    assert_eq!(t.points, 0);
}
