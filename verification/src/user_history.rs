//! The pseudonym history search: merging a visitor's threads and comments,
//! summarising them, ordering them by time or by thread, and stripping the
//! permanent hashes before anything leaves the service.

use vstd::prelude::*;

use vstd::multiset::Multiset;

verus! {

/// One thread as the history search reads it.
pub struct Post {
    pub id: i32,
    pub title: String,
    pub body: String,
    pub author_name: Option<String>,
    pub created_at: i64,
    pub board_id: Option<i32>,
    pub user_id: Option<i32>,
    pub display_user_id: Option<String>,
    pub permanent_user_hash: Option<String>,
    pub permanent_ip_hash: Option<String>,
    pub permanent_device_hash: Option<String>,
    pub level_at_creation: Option<i32>,
}

/// One comment as the history search reads it.
pub struct Comment {
    pub id: i32,
    pub body: String,
    pub post_id: i32,
    pub author_name: Option<String>,
    pub created_at: i64,
    pub user_id: Option<i32>,
    pub display_user_id: Option<String>,
    pub permanent_user_hash: Option<String>,
    pub permanent_ip_hash: Option<String>,
    pub permanent_device_hash: Option<String>,
    pub level_at_creation: Option<i32>,
    pub response_number: Option<i64>,
}

/// A thread or a comment, as one history entry.
pub enum HistoryItem {
    Post(Post),
    Comment(Comment),
}

/// What a history search asks for: the display-identifier parts to match,
/// how to combine them, and the ordering.
pub struct HistoryQuery {
    pub user_part: Option<String>,
    pub ip_part: Option<String>,
    pub device_part: Option<String>,
    pub logic: Option<String>,
    pub sort: Option<String>,
}

/// The orderings the search offers.
#[derive(Clone, Copy, PartialEq, Eq, Structural, Debug)]
pub enum HistorySortOrder {
    TimeAsc,
    TimeDesc,
    ThreadAsc,
    ThreadDesc,
}

/// When an entry itself was written.
pub open spec fn spec_item_time(item: HistoryItem) -> int {
    match item {
        HistoryItem::Post(p) => p.created_at as int,
        HistoryItem::Comment(c) => c.created_at as int,
    }
}

/// The creation time of the thread an entry belongs to, read from the
/// looked-up table; a comment whose thread is unknown falls back to its own
/// time.
pub open spec fn spec_thread_time(item: HistoryItem, times: Seq<(i32, i64)>) -> int {
    match item {
        HistoryItem::Post(p) => p.created_at as int,
        HistoryItem::Comment(c) => spec_lookup_time(times, c.post_id, c.created_at as int),
    }
}

/// The first time recorded for a thread id, or the fallback.
pub open spec fn spec_lookup_time(times: Seq<(i32, i64)>, post_id: i32, fallback: int) -> int
    decreases times.len(),
{
    if times.len() == 0 {
        fallback
    } else if times.first().0 == post_id {
        times.first().1 as int
    } else {
        spec_lookup_time(times.drop_first(), post_id, fallback)
    }
}

/// How one entry precedes another under an ordering: by the entry's own
/// time, or by its thread's time with the entry time breaking ties.
pub open spec fn spec_history_le(
    order: HistorySortOrder,
    a: HistoryItem,
    b: HistoryItem,
    times: Seq<(i32, i64)>,
) -> bool {
    match order {
        HistorySortOrder::TimeAsc => spec_item_time(a) <= spec_item_time(b),
        HistorySortOrder::TimeDesc => spec_item_time(a) >= spec_item_time(b),
        HistorySortOrder::ThreadAsc => spec_thread_time(a, times) < spec_thread_time(b, times) || (
        spec_thread_time(a, times) == spec_thread_time(b, times) && spec_item_time(a)
            <= spec_item_time(b)),
        HistorySortOrder::ThreadDesc => spec_thread_time(a, times) > spec_thread_time(b, times)
            || (spec_thread_time(a, times) == spec_thread_time(b, times) && spec_item_time(a)
            <= spec_item_time(b)),
    }
}

/// When an entry itself was written (executable form).
pub fn get_item_time(item: &HistoryItem) -> (r: i64)
    ensures
        r == spec_item_time(*item),
{
    match item {
        HistoryItem::Post(p) => p.created_at,
        HistoryItem::Comment(c) => c.created_at,
    }
}

/// The thread time and the entry time of one entry.
pub fn get_thread_and_item_time(item: &HistoryItem, thread_times: &Vec<(i32, i64)>) -> (r: (
    i64,
    i64,
))
    ensures
        r.0 == spec_thread_time(*item, thread_times@),
        r.1 == spec_item_time(*item),
{
    match item {
        HistoryItem::Post(p) => (p.created_at, p.created_at),
        HistoryItem::Comment(c) => {
            let t = lookup_time(thread_times, c.post_id, c.created_at);
            (t, c.created_at)
        },
    }
}

/// The first time recorded for a thread id, or the fallback.
fn lookup_time(times: &Vec<(i32, i64)>, post_id: i32, fallback: i64) -> (r: i64)
    ensures
        r == spec_lookup_time(times@, post_id, fallback as int),
{
    let n = times.len();
    proof {
        assert(times@.subrange(0, n as int) =~= times@);
    }
    let mut i: usize = 0;
    while i < n
        invariant
            n == times@.len(),
            i <= n,
            spec_lookup_time(times@, post_id, fallback as int) == spec_lookup_time(
                times@.subrange(i as int, n as int),
                post_id,
                fallback as int,
            ),
        decreases n - i,
    {
        proof {
            assert(times@.subrange(i as int, n as int).drop_first() =~= times@.subrange(
                i as int + 1,
                n as int,
            ));
        }
        if times[i].0 == post_id {
            return times[i].1;
        }
        i = i + 1;
    }
    fallback
}

/// Whether one entry precedes another under an ordering (executable form).
fn history_le(
    order: HistorySortOrder,
    a: &HistoryItem,
    b: &HistoryItem,
    times: &Vec<(i32, i64)>,
) -> (r: bool)
    ensures
        r == spec_history_le(order, *a, *b, times@),
{
    match order {
        HistorySortOrder::TimeAsc => get_item_time(a) <= get_item_time(b),
        HistorySortOrder::TimeDesc => get_item_time(a) >= get_item_time(b),
        HistorySortOrder::ThreadAsc => {
            let (ta, ia) = get_thread_and_item_time(a, times);
            let (tb, ib) = get_thread_and_item_time(b, times);
            ta < tb || (ta == tb && ia <= ib)
        },
        HistorySortOrder::ThreadDesc => {
            let (ta, ia) = get_thread_and_item_time(a, times);
            let (tb, ib) = get_thread_and_item_time(b, times);
            ta > tb || (ta == tb && ia <= ib)
        },
    }
}

/// The ordering a sort parameter names; anything unrecognised falls back to
/// newest thread first.
pub fn parse_sort_order(sort: &str) -> (r: HistorySortOrder)
    ensures
        r == (if sort@ == "time_asc"@ {
            HistorySortOrder::TimeAsc
        } else if sort@ == "time_desc"@ {
            HistorySortOrder::TimeDesc
        } else if sort@ == "thread_asc"@ {
            HistorySortOrder::ThreadAsc
        } else {
            HistorySortOrder::ThreadDesc
        }),
{
    if crate::text::str_eq(sort, "time_asc") {
        HistorySortOrder::TimeAsc
    } else if crate::text::str_eq(sort, "time_desc") {
        HistorySortOrder::TimeDesc
    } else if crate::text::str_eq(sort, "thread_asc") {
        HistorySortOrder::ThreadAsc
    } else {
        HistorySortOrder::ThreadDesc
    }
}

/// Sorts history entries under the given ordering: the result holds exactly
/// the same entries, and each one precedes all that follow it.
#[verifier::loop_isolation(false)]
pub fn sort_items(
    items: &mut Vec<HistoryItem>,
    order: HistorySortOrder,
    thread_times: &Vec<(i32, i64)>,
)
    ensures
        final(items)@.to_multiset() == old(items)@.to_multiset(),
        final(items)@.len() == old(items)@.len(),
        forall|i: int, j: int|
            0 <= i < j < final(items)@.len() ==> spec_history_le(
                order,
                final(items)@[i],
                final(items)@[j],
                thread_times@,
            ),
{
    let mut out: Vec<HistoryItem> = Vec::new();
    proof {
        broadcast use vstd::multiset::group_multiset_axioms;

        out@.to_multiset_ensures();
        assert(out@.to_multiset().len() == 0);
        vstd::multiset::lemma_multiset_empty_len::<HistoryItem>(out@.to_multiset());
        assert(out@.to_multiset().add(items@.to_multiset()) =~= items@.to_multiset());
    }
    while items.len() > 0
        invariant
            out@.to_multiset().add(items@.to_multiset()) =~= old(items)@.to_multiset(),
            out@.len() + items@.len() == old(items)@.len(),
            forall|i: int, j: int|
                0 <= i < j < out@.len() ==> spec_history_le(
                    order,
                    out@[i],
                    out@[j],
                    thread_times@,
                ),
            forall|i: int, j: int|
                0 <= i < out@.len() && 0 <= j < items@.len() ==> spec_history_le(
                    order,
                    out@[i],
                    items@[j],
                    thread_times@,
                ),
        decreases items@.len(),
    {
        let n = items.len();
        let mut min_idx: usize = 0;
        let mut k: usize = 1;
        while k < n
            invariant
                1 <= k <= n,
                n == items@.len(),
                min_idx < k,
                forall|q: int|
                    0 <= q < k ==> spec_history_le(
                        order,
                        items@[min_idx as int],
                        items@[q],
                        thread_times@,
                    ),
            decreases n - k,
        {
            if !history_le(order, &items[min_idx], &items[k], thread_times) {
                min_idx = k;
                proof {
                    assert forall|q: int|
                        0 <= q < k + 1 implies spec_history_le(
                        order,
                        items@[min_idx as int],
                        items@[q],
                        thread_times@,
                    ) by {
                        history_le_total_and_transitive(
                            order,
                            items@[min_idx as int],
                            items@[q],
                            thread_times@,
                        );
                    }
                }
            } else {
                proof {
                    history_le_total_and_transitive(
                        order,
                        items@[min_idx as int],
                        items@[k as int],
                        thread_times@,
                    );
                }
            }
            k = k + 1;
        }
        let ghost pre_out = out@;
        let ghost pre_items = items@;
        let x = items.remove(min_idx);
        out.push(x);
        proof {
            broadcast use vstd::multiset::group_multiset_axioms;

            pre_items.to_multiset_ensures();
            pre_out.to_multiset_ensures();
            assert(pre_items.remove(min_idx as int).to_multiset() =~= pre_items.to_multiset()
                .remove(pre_items[min_idx as int]));
            assert(items@.to_multiset() =~= pre_items.to_multiset().remove(
                pre_items[min_idx as int],
            ));
            assert(pre_out.push(x).to_multiset() =~= pre_out.to_multiset().insert(x));
            assert(out@.to_multiset() =~= pre_out.to_multiset().insert(
                pre_items[min_idx as int],
            ));
            assert(pre_items.to_multiset().count(pre_items[min_idx as int]) > 0);
            assert(out@.to_multiset().add(items@.to_multiset()) =~= old(items)@.to_multiset());
            assert forall|j: int| 0 <= j < items@.len() implies spec_history_le(
                order,
                x,
                items@[j],
                thread_times@,
            ) by {
                if j < min_idx {
                    assert(items@[j] == pre_items[j]);
                } else {
                    assert(items@[j] == pre_items[j + 1]);
                }
            }
        }
    }
    proof {
        broadcast use vstd::multiset::group_multiset_axioms;

        items@.to_multiset_ensures();
        vstd::multiset::lemma_multiset_empty_len::<HistoryItem>(items@.to_multiset());
        assert(out@.to_multiset() =~= old(items)@.to_multiset());
    }
    *items = out;
}

/// The ordering is total: of any two entries, one precedes the other.
proof fn history_le_total_and_transitive(
    order: HistorySortOrder,
    a: HistoryItem,
    b: HistoryItem,
    times: Seq<(i32, i64)>,
)
    ensures
        spec_history_le(order, a, b, times) || spec_history_le(order, b, a, times),
{
}

/// The response number one row of a thread's ordered comment list gets:
/// the thread body counts as the first write, so its comments count from
/// two, and the counter starts over where a new thread's rows begin.
pub open spec fn spec_response_number(rows: Seq<(i32, i32)>, k: int) -> int
    decreases k,
{
    if k <= 0 {
        2
    } else if rows[k].0 == rows[k - 1].0 {
        spec_response_number(rows, k - 1) + 1
    } else {
        2
    }
}

/// Numbers a run of `(thread id, comment id)` rows, ordered by thread and
/// then by age, handing back `(comment id, response number)` pairs.
#[verifier::loop_isolation(false)]
pub fn assign_response_numbers(rows: &Vec<(i32, i32)>) -> (r: Vec<(i32, i64)>)
    requires
        rows@.len() < 0x7fff_ffff,
    ensures
        r@.len() == rows@.len(),
        forall|k: int|
            0 <= k < rows@.len() ==> (#[trigger] r@[k]).0 == rows@[k].1 && r@[k].1
                == spec_response_number(rows@, k),
{
    let mut out: Vec<(i32, i64)> = Vec::new();
    let n = rows.len();
    let mut i: usize = 0;
    let mut counter: i64 = 2;
    while i < n
        invariant
            i <= n,
            out@.len() == i,
            i > 0 ==> counter == spec_response_number(rows@, i - 1) + 1,
            2 <= counter <= i + 2,
            forall|k: int|
                0 <= k < i ==> (#[trigger] out@[k]).0 == rows@[k].1 && out@[k].1
                    == spec_response_number(rows@, k),
        decreases n - i,
    {
        let num: i64 = if i > 0 && rows[i].0 != rows[i - 1].0 {
            2
        } else {
            counter
        };
        proof {
            if i == 0 {
                assert(spec_response_number(rows@, 0) == 2);
            } else if rows@[i as int].0 == rows@[i as int - 1].0 {
                assert(spec_response_number(rows@, i as int) == spec_response_number(
                    rows@,
                    i as int - 1,
                ) + 1);
            } else {
                assert(spec_response_number(rows@, i as int) == 2);
            }
        }
        out.push((rows[i].1, num));
        counter = num + 1;
        i = i + 1;
    }
    out
}

/// The number recorded for a comment id, where the numbering covered it.
pub open spec fn spec_number_of(numbers: Seq<(i32, i64)>, comment_id: i32) -> Option<i64>
    decreases numbers.len(),
{
    if numbers.len() == 0 {
        None
    } else if numbers.first().0 == comment_id {
        Some(numbers.first().1)
    } else {
        spec_number_of(numbers.drop_first(), comment_id)
    }
}

/// Writes each comment's response number from the numbering, leaving every
/// other field alone; a comment the numbering missed keeps none.
#[verifier::loop_isolation(false)]
pub fn apply_response_numbers(comments: &mut Vec<Comment>, numbers: &Vec<(i32, i64)>)
    ensures
        final(comments)@.len() == old(comments)@.len(),
        forall|i: int|
            0 <= i < old(comments)@.len() ==> #[trigger] final(comments)@[i] == (Comment {
                response_number: spec_number_of(numbers@, old(comments)@[i].id),
                ..old(comments)@[i]
            }),
{
    let n = comments.len();
    let mut i: usize = 0;
    while i < n
        invariant
            i <= n,
            comments@.len() == n,
            forall|q: int| i <= q < n ==> #[trigger] comments@[q] == old(comments)@[q],
            forall|q: int|
                0 <= q < i ==> #[trigger] comments@[q] == (Comment {
                    response_number: spec_number_of(numbers@, old(comments)@[q].id),
                    ..old(comments)@[q]
                }),
        decreases n - i,
    {
        let number = lookup_number(numbers, comments[i].id);
        let mut c = comments.remove(i);
        c.response_number = number;
        comments.insert(i, c);
        i = i + 1;
    }
}

/// The number recorded for a comment id (executable form).
fn lookup_number(numbers: &Vec<(i32, i64)>, comment_id: i32) -> (r: Option<i64>)
    ensures
        r == spec_number_of(numbers@, comment_id),
{
    let n = numbers.len();
    proof {
        assert(numbers@.subrange(0, n as int) =~= numbers@);
    }
    let mut i: usize = 0;
    while i < n
        invariant
            n == numbers@.len(),
            i <= n,
            spec_number_of(numbers@, comment_id) == spec_number_of(
                numbers@.subrange(i as int, n as int),
                comment_id,
            ),
        decreases n - i,
    {
        proof {
            assert(numbers@.subrange(i as int, n as int).drop_first() =~= numbers@.subrange(
                i as int + 1,
                n as int,
            ));
        }
        if numbers[i].0 == comment_id {
            return Some(numbers[i].1);
        }
        i = i + 1;
    }
    None
}

/// The roll-up of one history search.
pub struct HistorySummary {
    pub first_seen: Option<i64>,
    pub last_seen: Option<i64>,
    pub created_thread_count: i64,
    pub comment_count: i64,
    pub total_contribution_count: i64,
    pub created_threads: Vec<(String, i64)>,
    pub commented_in_threads: Vec<(String, i64)>,
}

/// A history search's answer: the roll-up and the ordered entries.
pub struct HistoryResponse {
    pub summary: HistorySummary,
    pub items: Vec<HistoryItem>,
}

/// How many of the found posts and comments sit in the given thread.
pub open spec fn spec_contribution_count(posts: Seq<Post>, comments: Seq<Comment>, id: i32) -> int {
    posts.filter(|p: Post| p.id == id).len() + comments.filter(
        |c: Comment| c.post_id == id,
    ).len() as int
}

/// The earliest of all entry times, where any exist.
pub open spec fn spec_min_time(posts: Seq<Post>, comments: Seq<Comment>) -> Option<int> {
    if posts.len() == 0 && comments.len() == 0 {
        None
    } else {
        Some(
            choose|t: int|
                spec_time_present(posts, comments, t) && forall|u: int|
                    spec_time_present(posts, comments, u) ==> t <= u,
        )
    }
}

/// Whether some found entry was written at `t`.
pub open spec fn spec_time_present(posts: Seq<Post>, comments: Seq<Comment>, t: int) -> bool {
    (exists|i: int| 0 <= i < posts.len() && posts[i].created_at == t) || (exists|i: int|
        0 <= i < comments.len() && comments[i].created_at == t)
}

/// How many of the found posts and comments sit in the given thread
/// (executable form).
#[verifier::loop_isolation(false)]
fn contribution_count(posts: &Vec<Post>, comments: &Vec<Comment>, id: i32) -> (r: u64)
    requires
        posts@.len() + comments@.len() <= u64::MAX,
    ensures
        r == spec_contribution_count(posts@, comments@, id),
{
    let ghost p_pred = |p: Post| p.id == id;
    let ghost c_pred = |c: Comment| c.post_id == id;
    let mut count: u64 = 0;
    let n = posts.len();
    let mut i: usize = 0;
    proof {
        assert(posts@.take(0).filter(p_pred) =~= Seq::<Post>::empty());
        broadcast use vstd::seq_lib::group_seq_properties;
    }
    while i < n
        invariant
            i <= n,
            count == posts@.take(i as int).filter(p_pred).len(),
            count <= i,
        decreases n - i,
    {
        proof {
            broadcast use vstd::prelude::Seq::lemma_filter_push;
            broadcast use vstd::prelude::Seq::lemma_filter_len_push;

            assert(posts@.take(i as int + 1) =~= posts@.take(i as int).push(posts@[i as int]));
        }
        if posts[i].id == id {
            count = count + 1;
        }
        i = i + 1;
    }
    proof {
        assert(posts@.take(n as int) =~= posts@);
    }
    let m = comments.len();
    let mut j: usize = 0;
    proof {
        assert(comments@.take(0).filter(c_pred) =~= Seq::<Comment>::empty());
    }
    while j < m
        invariant
            j <= m,
            count == posts@.filter(p_pred).len() + comments@.take(j as int).filter(c_pred).len(),
            count <= posts@.len() + j,
        decreases m - j,
    {
        proof {
            broadcast use vstd::prelude::Seq::lemma_filter_push;
            broadcast use vstd::prelude::Seq::lemma_filter_len_push;

            assert(comments@.take(j as int + 1) =~= comments@.take(j as int).push(
                comments@[j as int],
            ));
            posts@.lemma_filter_len(p_pred);
        }
        if comments[j].post_id == id {
            count = count + 1;
        }
        j = j + 1;
    }
    proof {
        assert(comments@.take(m as int) =~= comments@);
    }
    count
}

/// Whether the pseudonym created a thread with this id.
pub open spec fn spec_posts_contain(posts: Seq<Post>, id: i32) -> bool {
    exists|i: int| 0 <= i < posts.len() && posts[i].id == id
}

/// The title stored for a thread id: the first matching row's, if any.
pub open spec fn spec_title_of(titles: Seq<(i32, String)>, id: i32) -> Option<Seq<char>>
    decreases titles.len(),
{
    if titles.len() == 0 {
        None
    } else if titles.first().0 == id {
        Some(titles.first().1@)
    } else {
        spec_title_of(titles.drop_first(), id)
    }
}

/// The ids of foreign threads — threads the pseudonym commented in but did
/// not create — among the first `j` comments, one entry per thread, in
/// first-appearance order.
pub open spec fn spec_foreign_thread_ids(comments: Seq<Comment>, posts: Seq<Post>, j: int) -> Seq<
    i32,
>
    decreases j,
{
    if j <= 0 {
        Seq::empty()
    } else {
        let rest = spec_foreign_thread_ids(comments, posts, j - 1);
        let id = comments[j - 1].post_id;
        if spec_posts_contain(posts, id) || rest.contains(id) {
            rest
        } else {
            rest.push(id)
        }
    }
}

/// The commented-in-threads rows the first `j` comments yield: one row per
/// foreign thread, deduplicated by thread id, carrying the stored title and
/// the pseudonym's contribution count there; a thread whose title the
/// lookup missed yields no row.
pub open spec fn spec_commented_rows(
    comments: Seq<Comment>,
    posts: Seq<Post>,
    titles: Seq<(i32, String)>,
    j: int,
) -> Seq<(Seq<char>, int)>
    decreases j,
{
    if j <= 0 {
        Seq::empty()
    } else {
        let rest = spec_commented_rows(comments, posts, titles, j - 1);
        let id = comments[j - 1].post_id;
        if spec_posts_contain(posts, id) || spec_foreign_thread_ids(comments, posts, j - 1)
            .contains(id) {
            rest
        } else {
            match spec_title_of(titles, id) {
                Some(t) => rest.push((t, spec_contribution_count(posts, comments, id))),
                None => rest,
            }
        }
    }
}

/// The roll-up of one history search: when the pseudonym was first and last
/// seen, how much it wrote, the threads it created with their traffic, and
/// the foreign threads it commented in. `post_titles` is the storage
/// layer's title lookup for the commented threads.
#[verifier::loop_isolation(false)]
pub fn calculate_summary(
    posts: &Vec<Post>,
    comments: &Vec<Comment>,
    post_titles: &Vec<(i32, String)>,
) -> (r: HistorySummary)
    requires
        posts@.len() + comments@.len() <= 0x7fff_ffff,
    ensures
        r.created_thread_count == posts@.len(),
        r.comment_count == comments@.len(),
        r.total_contribution_count == posts@.len() + comments@.len(),
        r.first_seen is Some <==> posts@.len() + comments@.len() > 0,
        r.last_seen is Some <==> posts@.len() + comments@.len() > 0,
        r.first_seen matches Some(t) ==> spec_time_present(posts@, comments@, t as int) && (
        forall|u: int| spec_time_present(posts@, comments@, u) ==> t <= u),
        r.last_seen matches Some(t) ==> spec_time_present(posts@, comments@, t as int) && (
        forall|u: int| spec_time_present(posts@, comments@, u) ==> u <= t),
        r.created_threads@.len() == posts@.len(),
        forall|i: int|
            0 <= i < posts@.len() ==> (#[trigger] r.created_threads@[i]).0@ == posts@[i].title@
                && r.created_threads@[i].1 == spec_contribution_count(
                posts@,
                comments@,
                posts@[i].id,
            ),
        ({
            let rows = spec_commented_rows(comments@, posts@, post_titles@, comments@.len() as int);
            &&& r.commented_in_threads@.len() == rows.len()
            &&& (forall|k: int|
                0 <= k < rows.len() ==> (#[trigger] r.commented_in_threads@[k]).0@ == rows[k].0
                    && r.commented_in_threads@[k].1 == rows[k].1)
        }),
{
    let mut first_seen: Option<i64> = None;
    let mut last_seen: Option<i64> = None;
    let n = posts.len();
    let m = comments.len();
    let mut i: usize = 0;
    while i < n
        invariant
            i <= n,
            first_seen is Some <==> i > 0,
            last_seen is Some <==> i > 0,
            first_seen matches Some(t) ==> (exists|q: int|
                0 <= q < i && posts@[q].created_at == t) && (forall|q: int|
                0 <= q < i ==> posts@[q].created_at >= t),
            last_seen matches Some(t) ==> (exists|q: int|
                0 <= q < i && posts@[q].created_at == t) && (forall|q: int|
                0 <= q < i ==> posts@[q].created_at <= t),
        decreases n - i,
    {
        let t = posts[i].created_at;
        first_seen = match first_seen {
            Some(f) => if t < f {
                Some(t)
            } else {
                Some(f)
            },
            None => Some(t),
        };
        last_seen = match last_seen {
            Some(l) => if t > l {
                Some(t)
            } else {
                Some(l)
            },
            None => Some(t),
        };
        i = i + 1;
    }
    let mut j: usize = 0;
    while j < m
        invariant
            j <= m,
            first_seen is Some <==> n > 0 || j > 0,
            last_seen is Some <==> n > 0 || j > 0,
            first_seen matches Some(t) ==> ((exists|q: int|
                0 <= q < n && posts@[q].created_at == t) || (exists|q: int|
                0 <= q < j && comments@[q].created_at == t)) && (forall|q: int|
                0 <= q < n ==> posts@[q].created_at >= t) && (forall|q: int|
                0 <= q < j ==> comments@[q].created_at >= t),
            last_seen matches Some(t) ==> ((exists|q: int|
                0 <= q < n && posts@[q].created_at == t) || (exists|q: int|
                0 <= q < j && comments@[q].created_at == t)) && (forall|q: int|
                0 <= q < n ==> posts@[q].created_at <= t) && (forall|q: int|
                0 <= q < j ==> comments@[q].created_at <= t),
        decreases m - j,
    {
        let t = comments[j].created_at;
        first_seen = match first_seen {
            Some(f) => if t < f {
                Some(t)
            } else {
                Some(f)
            },
            None => Some(t),
        };
        last_seen = match last_seen {
            Some(l) => if t > l {
                Some(t)
            } else {
                Some(l)
            },
            None => Some(t),
        };
        j = j + 1;
    }

    let mut created_threads: Vec<(String, i64)> = Vec::new();
    let mut i: usize = 0;
    while i < n
        invariant
            i <= n,
            n == posts@.len(),
            posts@.len() + comments@.len() <= 0x7fff_ffff,
            created_threads@.len() == i,
            forall|q: int|
                0 <= q < i ==> (#[trigger] created_threads@[q]).0@ == posts@[q].title@
                    && created_threads@[q].1 == spec_contribution_count(
                    posts@,
                    comments@,
                    posts@[q].id,
                ),
        decreases n - i,
    {
        let title = posts[i].title.clone();
        let count = contribution_count(posts, comments, posts[i].id);
        created_threads.push((title, count as i64));
        i = i + 1;
    }

    let mut commented_in_threads: Vec<(String, i64)> = Vec::new();
    let mut listed_ids: Vec<i32> = Vec::new();
    let mut j: usize = 0;
    while j < m
        invariant
            j <= m,
            m == comments@.len(),
            posts@.len() + comments@.len() <= 0x7fff_ffff,
            listed_ids@ == spec_foreign_thread_ids(comments@, posts@, j as int),
            ({
                let rows = spec_commented_rows(comments@, posts@, post_titles@, j as int);
                &&& commented_in_threads@.len() == rows.len()
                &&& (forall|k: int|
                    0 <= k < rows.len() ==> (#[trigger] commented_in_threads@[k]).0@ == rows[k].0
                        && commented_in_threads@[k].1 == rows[k].1)
            }),
        decreases m - j,
    {
        let id = comments[j].post_id;
        if !posts_contain(posts, id) && !ids_contain(&listed_ids, id) {
            listed_ids.push(id);
            if let Some(title) = title_lookup(post_titles, id) {
                let count = contribution_count(posts, comments, id);
                commented_in_threads.push((title, count as i64));
            }
        }
        j = j + 1;
    }

    HistorySummary {
        first_seen,
        last_seen,
        created_thread_count: n as i64,
        comment_count: m as i64,
        total_contribution_count: (n + m) as i64,
        created_threads,
        commented_in_threads,
    }
}

/// Whether the pseudonym created a thread with this id.
fn posts_contain(posts: &Vec<Post>, id: i32) -> (r: bool)
    ensures
        r == (exists|i: int| 0 <= i < posts@.len() && posts@[i].id == id),
{
    let n = posts.len();
    let mut i: usize = 0;
    while i < n
        invariant
            n == posts@.len(),
            i <= n,
            forall|q: int| 0 <= q < i ==> posts@[q].id != id,
        decreases n - i,
    {
        if posts[i].id == id {
            return true;
        }
        i = i + 1;
    }
    false
}

/// Whether a thread id was already taken up into the commented list.
fn ids_contain(ids: &Vec<i32>, id: i32) -> (r: bool)
    ensures
        r == ids@.contains(id),
{
    let n = ids.len();
    let mut i: usize = 0;
    while i < n
        invariant
            n == ids@.len(),
            i <= n,
            forall|q: int| 0 <= q < i ==> ids@[q] != id,
        decreases n - i,
    {
        if ids[i] == id {
            return true;
        }
        i = i + 1;
    }
    false
}

/// The stored title of a thread: the first matching row's, if any.
fn title_lookup(titles: &Vec<(i32, String)>, id: i32) -> (r: Option<String>)
    ensures
        crate::text::opt_string_view(r) == spec_title_of(titles@, id),
{
    let n = titles.len();
    proof {
        assert(titles@.subrange(0, n as int) =~= titles@);
    }
    let mut i: usize = 0;
    while i < n
        invariant
            n == titles@.len(),
            i <= n,
            spec_title_of(titles@, id) == spec_title_of(titles@.subrange(i as int, n as int), id),
        decreases n - i,
    {
        proof {
            assert(titles@.subrange(i as int, n as int).drop_first() =~= titles@.subrange(
                i as int + 1,
                n as int,
            ));
        }
        if titles[i].0 == id {
            return Some(titles[i].1.clone());
        }
        i = i + 1;
    }
    None
}

/// Strips the permanent hashes from every entry before it leaves the
/// service: only the daily display identifier may travel.
pub fn sanitize_items(items: Vec<HistoryItem>) -> (r: Vec<HistoryItem>)
    ensures
        r@.len() == items@.len(),
        forall|i: int| 0 <= i < r@.len() ==> spec_sanitized_of(#[trigger] r@[i], items@[i]),
{
    let mut out: Vec<HistoryItem> = Vec::new();
    let n = items.len();
    let mut src = items;
    let mut i: usize = 0;
    let ghost original = src@;
    while i < n
        invariant
            n == original.len(),
            src@.len() == n - i,
            src@ == original.subrange(i as int, n as int),
            out@.len() == i,
            i <= n,
            forall|q: int| 0 <= q < i ==> spec_sanitized_of(#[trigger] out@[q], original[q]),
        decreases n - i,
    {
        proof {
            assert(original.subrange(i as int, n as int)[0] == original[i as int]);
            assert(original.subrange(i as int, n as int).drop_first() =~= original.subrange(
                i as int + 1,
                n as int,
            ));
        }
        let item = src.remove(0);
        let cleaned = match item {
            HistoryItem::Post(mut p) => {
                p.permanent_user_hash = None;
                p.permanent_ip_hash = None;
                p.permanent_device_hash = None;
                HistoryItem::Post(p)
            },
            HistoryItem::Comment(mut c) => {
                c.permanent_user_hash = None;
                c.permanent_ip_hash = None;
                c.permanent_device_hash = None;
                HistoryItem::Comment(c)
            },
        };
        out.push(cleaned);
        i = i + 1;
    }
    out
}

/// What sanitising one entry leaves: the permanent hashes gone, everything
/// else as it was.
pub open spec fn spec_sanitized_of(cleaned: HistoryItem, orig: HistoryItem) -> bool {
    match (cleaned, orig) {
        (HistoryItem::Post(c), HistoryItem::Post(o)) => c == (Post {
            permanent_user_hash: None,
            permanent_ip_hash: None,
            permanent_device_hash: None,
            ..o
        }),
        (HistoryItem::Comment(c), HistoryItem::Comment(o)) => c == (Comment {
            permanent_user_hash: None,
            permanent_ip_hash: None,
            permanent_device_hash: None,
            ..o
        }),
        _ => false,
    }
}

} // verus!
