use niwatori::user_history::{
    apply_response_numbers, assign_response_numbers, calculate_summary, get_item_time,
    get_thread_and_item_time, parse_sort_order, sanitize_items, sort_items, Comment, HistoryItem,
    HistorySortOrder, Post,
};

fn post(id: i32, title: &str, created_at: i64) -> Post {
    Post {
        id,
        title: String::from(title),
        body: String::from("body"),
        author_name: None,
        created_at,
        board_id: Some(1),
        user_id: Some(7),
        display_user_id: Some(String::from("aaaa-bbbb-cccc")),
        permanent_user_hash: Some(String::from("hash-u")),
        permanent_ip_hash: Some(String::from("hash-i")),
        permanent_device_hash: Some(String::from("hash-d")),
        level_at_creation: Some(1),
    }
}

fn comment(id: i32, post_id: i32, created_at: i64) -> Comment {
    Comment {
        id,
        body: String::from("reply"),
        post_id,
        author_name: None,
        created_at,
        user_id: Some(7),
        display_user_id: Some(String::from("aaaa-bbbb-cccc")),
        permanent_user_hash: Some(String::from("hash-u")),
        permanent_ip_hash: Some(String::from("hash-i")),
        permanent_device_hash: Some(String::from("hash-d")),
        level_at_creation: Some(1),
        response_number: None,
    }
}

fn times_of(items: &[HistoryItem]) -> Vec<i64> {
    items.iter().map(get_item_time).collect()
}

#[test]
fn sorting_by_time_orders_entries() {
    let mut items = vec![
        HistoryItem::Post(post(1, "t1", 300)),
        HistoryItem::Comment(comment(10, 1, 100)),
        HistoryItem::Post(post(2, "t2", 200)),
    ];
    let thread_times: Vec<(i32, i64)> = vec![(1, 300), (2, 200)];
    sort_items(&mut items, HistorySortOrder::TimeAsc, &thread_times);
    assert_eq!(times_of(&items), vec![100, 200, 300]);
    sort_items(&mut items, HistorySortOrder::TimeDesc, &thread_times);
    assert_eq!(times_of(&items), vec![300, 200, 100]);
}

#[test]
fn sorting_by_thread_groups_comments_under_their_thread() {
    let mut items = vec![
        HistoryItem::Comment(comment(10, 1, 500)),
        HistoryItem::Post(post(2, "newer", 400)),
        HistoryItem::Post(post(1, "older", 300)),
        HistoryItem::Comment(comment(11, 2, 450)),
    ];
    let thread_times: Vec<(i32, i64)> = vec![(1, 300), (2, 400)];
    sort_items(&mut items, HistorySortOrder::ThreadDesc, &thread_times);
    // Thread 2 (created 400) first, then thread 1; inside a thread the
    // entries run oldest first.
    assert_eq!(times_of(&items), vec![400, 450, 300, 500]);

    sort_items(&mut items, HistorySortOrder::ThreadAsc, &thread_times);
    assert_eq!(times_of(&items), vec![300, 500, 400, 450]);
}

#[test]
fn unknown_thread_times_fall_back_to_the_entry_time() {
    let item = HistoryItem::Comment(comment(10, 42, 777));
    let empty: Vec<(i32, i64)> = Vec::new();
    assert_eq!(get_thread_and_item_time(&item, &empty), (777, 777));
}

#[test]
fn sort_order_parsing_defaults_to_newest_thread_first() {
    assert_eq!(parse_sort_order("time_asc"), HistorySortOrder::TimeAsc);
    assert_eq!(parse_sort_order("time_desc"), HistorySortOrder::TimeDesc);
    assert_eq!(parse_sort_order("thread_asc"), HistorySortOrder::ThreadAsc);
    assert_eq!(parse_sort_order("thread_desc"), HistorySortOrder::ThreadDesc);
    assert_eq!(parse_sort_order("anything"), HistorySortOrder::ThreadDesc);
}

#[test]
fn summary_counts_and_time_range() {
    let posts = vec![post(1, "mine", 300)];
    let comments = vec![comment(10, 1, 100), comment(11, 2, 400)];
    let titles = vec![(2, String::from("theirs"))];
    let s = calculate_summary(&posts, &comments, &titles);
    assert_eq!(s.created_thread_count, 1);
    assert_eq!(s.comment_count, 2);
    assert_eq!(s.total_contribution_count, 3);
    assert_eq!(s.first_seen, Some(100));
    assert_eq!(s.last_seen, Some(400));
    assert_eq!(s.created_threads.len(), 1);
    assert_eq!(s.created_threads[0].0, "mine");
    // The created thread counts the post itself plus its one comment.
    assert_eq!(s.created_threads[0].1, 2);
    assert_eq!(s.commented_in_threads.len(), 1);
    assert_eq!(s.commented_in_threads[0].0, "theirs");
    assert_eq!(s.commented_in_threads[0].1, 1);
}

#[test]
fn summary_of_nothing_is_empty() {
    let s = calculate_summary(&Vec::new(), &Vec::new(), &Vec::new());
    assert_eq!(s.first_seen, None);
    assert_eq!(s.last_seen, None);
    assert_eq!(s.total_contribution_count, 0);
    assert!(s.created_threads.is_empty());
    assert!(s.commented_in_threads.is_empty());
}

#[test]
fn sanitizing_strips_only_the_permanent_hashes() {
    let items = vec![
        HistoryItem::Post(post(1, "t", 100)),
        HistoryItem::Comment(comment(10, 1, 200)),
    ];
    let cleaned = sanitize_items(items);
    match &cleaned[0] {
        HistoryItem::Post(p) => {
            assert_eq!(p.permanent_user_hash, None);
            assert_eq!(p.permanent_ip_hash, None);
            assert_eq!(p.permanent_device_hash, None);
            assert_eq!(p.display_user_id.as_deref(), Some("aaaa-bbbb-cccc"));
            assert_eq!(p.title, "t");
        },
        _ => panic!("expected a post"),
    }
    match &cleaned[1] {
        HistoryItem::Comment(c) => {
            assert_eq!(c.permanent_user_hash, None);
            assert_eq!(c.display_user_id.as_deref(), Some("aaaa-bbbb-cccc"));
        },
        _ => panic!("expected a comment"),
    }
}

#[test]
fn response_numbers_count_from_two_per_thread() {
    // Rows come ordered by thread and then by age, as the lookup loads
    // them; the thread body itself is write number one.
    let rows: Vec<(i32, i32)> = vec![(1, 10), (1, 11), (1, 12), (2, 20), (2, 21)];
    let numbers = assign_response_numbers(&rows);
    assert_eq!(numbers, vec![(10, 2), (11, 3), (12, 4), (20, 2), (21, 3)]);
}

#[test]
fn response_numbers_are_written_onto_the_comments() {
    let rows: Vec<(i32, i32)> = vec![(1, 10), (1, 11)];
    let numbers = assign_response_numbers(&rows);
    let mut comments = vec![comment(11, 1, 200), comment(99, 1, 300)];
    apply_response_numbers(&mut comments, &numbers);
    assert_eq!(comments[0].response_number, Some(3));
    // A comment the numbering never covered keeps none.
    assert_eq!(comments[1].response_number, None);
    assert_eq!(comments[0].id, 11);
    assert_eq!(comments[1].created_at, 300);
}

#[test]
fn foreign_threads_sharing_a_title_stay_separate_rows() {
    // Two different foreign threads with the same stored title must each
    // get their own row: the deduplication runs on thread ids.
    let comments = vec![comment(10, 2, 100), comment(11, 3, 200), comment(12, 2, 300)];
    let titles = vec![(2, String::from("general")), (3, String::from("general"))];
    let s = calculate_summary(&Vec::new(), &comments, &titles);
    assert_eq!(s.commented_in_threads.len(), 2);
    assert_eq!(s.commented_in_threads[0], (String::from("general"), 2));
    assert_eq!(s.commented_in_threads[1], (String::from("general"), 1));
}

#[test]
fn foreign_threads_without_a_stored_title_yield_no_row() {
    let comments = vec![comment(10, 2, 100), comment(11, 3, 200)];
    let titles = vec![(3, String::from("known"))];
    let s = calculate_summary(&Vec::new(), &comments, &titles);
    assert_eq!(s.commented_in_threads, vec![(String::from("known"), 1)]);
}
