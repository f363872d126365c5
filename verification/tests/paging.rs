use rrelayer::paging::{PagingContext, PagingResult};

#[test]
fn next_window_after_full_page() {
    let context = PagingContext::new(10, 20);
    assert_eq!(context.next(10), Some(PagingContext { limit: 10, offset: 30 }));
    assert_eq!(context.next(11), Some(PagingContext { limit: 10, offset: 30 }));
}

#[test]
fn no_next_window_after_short_page() {
    let context = PagingContext::new(10, 20);
    assert_eq!(context.next(9), None);
    assert_eq!(context.next(0), None);
}

#[test]
fn no_next_window_past_u32() {
    let context = PagingContext::new(10, u32::MAX - 5);
    assert_eq!(context.next(10), None);
}

#[test]
fn previous_window() {
    assert_eq!(PagingContext::new(10, 0).previous(), None);
    assert_eq!(PagingContext::new(10, 25).previous(), Some(PagingContext { limit: 10, offset: 15 }));
    assert_eq!(PagingContext::new(10, 4).previous(), Some(PagingContext { limit: 10, offset: 0 }));
}

#[test]
fn next_then_previous_returns() {
    let context = PagingContext::new(5, 15);
    let next = context.next(5).unwrap();
    assert_eq!(next.previous(), Some(context));
}

#[test]
fn query_window_bounds() {
    assert_eq!(PagingContext::new(50, 100).query_window(), (50i64, 100i64));
    assert_eq!(PagingContext::new(u32::MAX, u32::MAX).query_window(), (4294967295i64, 4294967295i64));
}

#[test]
fn page_from_query() {
    let context = PagingContext::new(3, 3);
    let page = PagingResult::from_query(vec!["a", "b", "c"], &context);
    assert_eq!(page.items, vec!["a", "b", "c"]);
    assert_eq!(page.next, Some(PagingContext { limit: 3, offset: 6 }));
    assert_eq!(page.previous, Some(PagingContext { limit: 3, offset: 0 }));
    let last = PagingResult::from_query(vec![1u8], &PagingContext::new(3, 0));
    assert_eq!(last.next, None);
    assert_eq!(last.previous, None);
}
