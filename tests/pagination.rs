use datadog_cli::errors::DatadogError;
use datadog_cli::pagination::{format_pagination, offset_window, page_window, paginate, PaginationInfo};

#[test]
fn test_paginator_paginate() {
    let data = vec![1, 2, 3, 4, 5, 6, 7, 8, 9, 10];

    let page1 = paginate(&data, 0, 3);
    assert_eq!(page1, &[1, 2, 3]);

    let page2 = paginate(&data, 1, 3);
    assert_eq!(page2, &[4, 5, 6]);

    let page4 = paginate(&data, 3, 3);
    assert_eq!(page4, &[10]);

    let page_empty = paginate(&data, 10, 3);
    assert_eq!(page_empty.len(), 0);
}

#[test]
fn test_response_formatter_pagination() {
    let pagination = format_pagination(0, 50, 150);
    assert_eq!(pagination.page, 0);
    assert_eq!(pagination.page_size, 50);
    assert_eq!(pagination.total, 150);
    assert_eq!(pagination.has_next, true);

    let last_page = format_pagination(2, 50, 150);
    assert_eq!(last_page.has_next, false);

    let mid_page = format_pagination(1, 50, 150);
    assert_eq!(mid_page.has_next, true);
}

#[test]
fn offset_first_page_of_three() {
    let p = PaginationInfo::from_offset(150, 0, 50);
    assert_eq!(p.page, 0);
    assert!(p.has_next);
    assert_eq!(p.next_offset, Some(50));
    assert_eq!(p.total, 150);
    assert_eq!(p.page_size, 50);
}

#[test]
fn offset_last_page_of_three() {
    let p = PaginationInfo::from_offset(150, 100, 50);
    assert_eq!(p.page, 2);
    assert!(!p.has_next);
    assert_eq!(p.next_offset, None);
}

#[test]
fn offset_page_index_rounds_down() {
    let p = PaginationInfo::from_offset(1000, 130, 50);
    assert_eq!(p.page, 2);
    assert_eq!(p.next_offset, Some(180));
}

#[test]
fn single_page_full_suggests_more() {
    assert!(PaginationInfo::single_page(10, 10).has_next);
    assert!(!PaginationInfo::single_page(5, 10).has_next);
    let p = PaginationInfo::single_page(5, 10);
    assert_eq!(p, PaginationInfo { total: 5, page: 0, page_size: 10, has_next: false, next_offset: None });
}

#[test]
fn cursor_pages_follow_the_cursor() {
    let p = PaginationInfo::from_cursor(7, 10, true);
    assert_eq!(p, PaginationInfo { total: 7, page: 0, page_size: 10, has_next: true, next_offset: None });
    assert!(!PaginationInfo::from_cursor(7, 10, false).has_next);
}

#[test]
fn paginate_empty_input() {
    let data: Vec<u8> = Vec::new();
    assert!(paginate(&data, 0, 5).is_empty());
}

#[test]
fn offset_window_checks_caller_values() {
    assert_eq!(offset_window(0, 100), Ok((0, 100)));
    assert_eq!(offset_window(50, 1), Ok((50, 1)));
    let refused = Err(DatadogError::InvalidInput(
        "start must be non-negative and count positive".to_string(),
    ));
    assert_eq!(offset_window(-1, 10), refused);
    assert_eq!(offset_window(0, 0), refused);
    assert_eq!(offset_window(0, -5), refused);
}

#[test]
fn page_window_checks_caller_values() {
    assert_eq!(page_window(0, 100), Ok((0, 100)));
    assert_eq!(page_window(i32::MAX, i32::MAX), Ok((i32::MAX as usize, i32::MAX as usize)));
    let refused = Err(DatadogError::InvalidInput(
        "page and page_size must be non-negative and describe a reachable page".to_string(),
    ));
    assert_eq!(page_window(-1, 10), refused);
    assert_eq!(page_window(0, -1), refused);
}
