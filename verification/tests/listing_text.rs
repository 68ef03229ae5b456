use qq_banner::listing::{page_window, sweep_count, sweep_page, Order, Paging, PAGING_DEFAULT};
use qq_banner::model::User;
use qq_banner::text::{chars_contain, decimal_chars, id_contains, id_is_name, text_chars};

fn user(id: u64, time: u64, duration: u64) -> User {
    User { id, time, duration, operator: "op".to_string() }
}

#[test]
fn decimal_writing() {
    assert_eq!(decimal_chars(0), vec!['0']);
    assert_eq!(decimal_chars(10), vec!['1', '0']);
    assert_eq!(decimal_chars(12345).iter().collect::<String>(), "12345");
    assert_eq!(decimal_chars(u64::MAX).iter().collect::<String>(), u64::MAX.to_string());
}

#[test]
fn text_chars_keeps_unicode() {
    assert_eq!(text_chars("a黑b"), vec!['a', '黑', 'b']);
    assert!(text_chars("").is_empty());
}

#[test]
fn substring_search() {
    let hay = text_chars("123456");
    assert!(chars_contain(&hay, &text_chars("345")));
    assert!(chars_contain(&hay, &text_chars("")));
    assert!(chars_contain(&hay, &text_chars("123456")));
    assert!(!chars_contain(&hay, &text_chars("1234567")));
    assert!(!chars_contain(&hay, &text_chars("35")));
    assert!(chars_contain(&hay, &text_chars("6")));
}

#[test]
fn id_filter() {
    assert!(id_contains(1234567, "456"));
    assert!(id_contains(1234567, ""));
    assert!(!id_contains(1234567, "x"));
    assert!(!id_contains(100, "0000"));
    assert!(id_is_name(100, "100"));
    assert!(!id_is_name(100, "0100"));
    assert!(!id_is_name(100, "10"));
}

#[test]
fn default_paging() {
    let p = Paging::default();
    assert_eq!(p.page, Some(1));
    assert_eq!(p.size, Some(PAGING_DEFAULT));
    assert_eq!(p.order, Some(Order::Asc));
    let w = page_window(&p);
    assert_eq!((w.offset, w.limit, w.order), (0, 20, Order::Asc));
}

#[test]
fn page_window_offsets() {
    let w = page_window(&Paging { page: Some(3), size: Some(10), order: None });
    assert_eq!(w.offset, 20);
    assert_eq!(w.limit, 10);
    assert_eq!(w.order, Order::Desc);
    let w = page_window(&Paging { page: None, size: None, order: Some(Order::Asc) });
    assert_eq!((w.offset, w.limit, w.order), (0, PAGING_DEFAULT, Order::Asc));
}

#[test]
fn sweep_page_splits() {
    let users = vec![user(11, 0, 0), user(12, 0, 5), user(21, 100, 5), user(112, 0, 1)];
    let (active, expired) = sweep_page(users, &None, 50);
    assert_eq!(active.iter().map(|u| u.id).collect::<Vec<_>>(), vec![11, 21]);
    assert_eq!(expired.iter().map(|u| u.id).collect::<Vec<_>>(), vec![12, 112]);
}

#[test]
fn sweep_page_with_filter_leaves_others() {
    let users = vec![user(11, 0, 0), user(12, 0, 5), user(21, 100, 5), user(112, 0, 1)];
    let (active, expired) = sweep_page(users, &Some("1".to_string()), 50);
    assert_eq!(active.iter().map(|u| u.id).collect::<Vec<_>>(), vec![11, 21]);
    assert_eq!(expired.iter().map(|u| u.id).collect::<Vec<_>>(), vec![12, 112]);
    let users = vec![user(11, 0, 0), user(12, 0, 5), user(21, 100, 5), user(112, 0, 1)];
    let (active, expired) = sweep_page(users, &Some("12".to_string()), 50);
    assert!(active.is_empty());
    assert_eq!(expired.iter().map(|u| u.id).collect::<Vec<_>>(), vec![12, 112]);
}

#[test]
fn sweep_count_purges_everything_run_out() {
    let users = vec![user(11, 0, 0), user(12, 0, 5), user(21, 100, 5), user(31, 0, 0)];
    let (count, expired) = sweep_count(users, &Some("1".to_string()), 50);
    assert_eq!(count, 3);
    assert_eq!(expired.iter().map(|u| u.id).collect::<Vec<_>>(), vec![12]);
    let users = vec![user(11, 0, 0), user(12, 0, 5), user(21, 100, 5), user(31, 0, 0)];
    let (count, expired) = sweep_count(users, &Some("2".to_string()), 50);
    assert_eq!(count, 1);
    assert_eq!(expired.len(), 1);
    let (count, expired) = sweep_count(vec![], &None, 50);
    assert_eq!((count, expired.len()), (0, 0));
}

#[test]
fn count_and_page_agree() {
    let make = || vec![user(101, 0, 0), user(102, 0, 3), user(203, 9, 0), user(104, 1, 100)];
    let f = Some("10".to_string());
    let (active, _) = sweep_page(make(), &f, 10);
    let (count, _) = sweep_count(make(), &f, 10);
    assert_eq!(active.len() as u64, count);
    assert_eq!(count, 2);
}
