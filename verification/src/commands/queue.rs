use vstd::prelude::*;
use vstd::string::*;

use crate::metadata::TrackMetadata;
use crate::text::{
    decimal, decimal_string, ends_with, has_prefix, has_suffix, join_strings, push_decimal,
    seq_join, starts_with, views,
};

verus! {

/// Tracks shown on one page of the queue.
pub const QUEUE_PAGE_SIZE: usize = 10;

/// How many pages `n` tracks fill, at least one.
pub open spec fn page_count(n: nat, page_size: nat) -> nat
    recommends
        page_size > 0,
{
    (if n == 0 {
        0
    } else {
        (n - 1) as nat
    }) / page_size + 1
}

/// The number of pages the queue view has for `n` tracks.
pub fn total_pages(n: usize, page_size: usize) -> (res: usize)
    requires
        page_size > 0,
    ensures
        res == page_count(n as nat, page_size as nat),
        res >= 1,
{
    n.saturating_sub(1) / page_size + 1
}

/// One line of the queue view: the track's place (from 1), title, artists
/// and page.
pub open spec fn queue_line(i: nat, t: TrackMetadata) -> Seq<char> {
    "\n"@ + decimal(i + 1) + ": ["@ + t.title@ + " - "@ + seq_join(views(t.artists@), ", "@)
        + "]("@ + t.url@ + ")"@
}

/// The lines for the tracks at places `from` up to (not including) `to`.
pub open spec fn queue_lines(tracks: Seq<TrackMetadata>, from: nat, to: nat) -> Seq<char>
    decreases to,
{
    if to <= from {
        Seq::empty()
    } else {
        queue_lines(tracks, from, (to - 1) as nat) + queue_line((to - 1) as nat, tracks[to - 1])
    }
}

/// The place after the last track shown on a page.
pub open spec fn page_end(n: nat, page: nat, page_size: nat) -> nat {
    if page * page_size + page_size < n {
        page * page_size + page_size
    } else {
        n
    }
}

/// The text of one queue page: a heading, then the tracks that fall on the
/// page, one per line.
pub open spec fn queue_page_text(tracks: Seq<TrackMetadata>, page: nat, page_size: nat) -> Seq<
    char,
> {
    "Các bài hát trong danh sách phát hiện tại:"@ + queue_lines(
        tracks,
        page * page_size,
        page_end(tracks.len(), page, page_size),
    )
}

fn push_queue_line(text: &mut String, i: usize, t: &TrackMetadata)
    requires
        i < usize::MAX,
    ensures
        final(text)@ == old(text)@ + queue_line(i as nat, *t),
{
    text.append("\n");
    push_decimal(text, (i + 1) as u64);
    text.append(": [");
    text.append(t.title.as_str());
    text.append(" - ");
    let artists = join_strings(&t.artists, ", ");
    text.append(artists.as_str());
    text.append("](");
    text.append(t.url.as_str());
    text.append(")");
    assert(final(text)@ =~= old(text)@ + queue_line(i as nat, *t));
}

/// The description of queue page `page` (from 0).
pub fn queue_page_description(tracks: &Vec<TrackMetadata>, page: usize, page_size: usize) -> (res:
    String)
    requires
        page_size > 0,
        page * page_size + page_size <= usize::MAX,
    ensures
        res@ == queue_page_text(tracks@, page as nat, page_size as nat),
{
    let offset = page * page_size;
    let n = tracks.len();
    let end = if offset + page_size < n {
        offset + page_size
    } else {
        n
    };
    let mut text = String::from_str("Các bài hát trong danh sách phát hiện tại:");
    let ghost head = text@;
    let mut i: usize = offset;
    while i < end
        invariant
            n == tracks@.len(),
            end <= n,
            offset <= i <= end || (end < offset && i == offset),
            text@ == head + queue_lines(tracks@, offset as nat, i as nat),
        decreases end - i,
    {
        push_queue_line(&mut text, i, &tracks[i]);
        proof {
            assert(queue_lines(tracks@, offset as nat, (i + 1) as nat) == queue_lines(
                tracks@,
                offset as nat,
                i as nat,
            ) + queue_line(i as nat, tracks@[i as int]));
            assert(text@ =~= head + queue_lines(tracks@, offset as nat, (i + 1) as nat));
        }
        i = i + 1;
    }
    proof {
        if end < offset {
            assert(queue_lines(tracks@, offset as nat, end as nat) == Seq::<char>::empty());
        }
    }
    text
}

/// The footer of queue page `page`: which places it shows, of how many
/// tracks, and which page of how many it is.
pub open spec fn queue_footer_text(n: nat, page: nat, page_size: nat) -> Seq<char> {
    let start: nat = if n == 0 {
        0
    } else {
        page * page_size + 1
    };
    "Hiển thị "@ + decimal(start) + " đến "@ + decimal(page_end(n, page, page_size))
        + " trong tổng số "@ + decimal(n) + " bài hát (Trang "@ + decimal(page + 1) + "/"@
        + decimal(page_count(n, page_size)) + ")"@
}

/// The footer of queue page `page` for a queue of `n` tracks.
pub fn queue_page_footer(n: usize, page: usize, page_size: usize) -> (res: String)
    requires
        page_size > 0,
        page * page_size + page_size <= usize::MAX,
    ensures
        res@ == queue_footer_text(n as nat, page as nat, page_size as nat),
{
    let offset = page * page_size;
    let start = if n == 0 {
        0
    } else {
        offset + 1
    };
    let end = if offset + page_size < n {
        offset + page_size
    } else {
        n
    };
    let total = total_pages(n, page_size);
    assert(page + 1 <= page * page_size + page_size) by (nonlinear_arith)
        requires
            page_size > 0,
    ;
    let mut s = String::from_str("Hiển thị ");
    push_decimal(&mut s, start as u64);
    s.append(" đến ");
    push_decimal(&mut s, end as u64);
    s.append(" trong tổng số ");
    push_decimal(&mut s, n as u64);
    s.append(" bài hát (Trang ");
    push_decimal(&mut s, (page + 1) as u64);
    s.append("/");
    push_decimal(&mut s, total as u64);
    s.append(")");
    proof {
        assert(s@ =~= queue_footer_text(n as nat, page as nat, page_size as nat));
    }
    s
}

/// A button press in the queue view.
#[derive(Debug, Clone, Copy, PartialEq, Eq, Structural)]
pub enum QueueAction {
    First,
    Prev,
    Next,
    Last,
}

/// The id suffix of each button.
pub open spec fn action_suffix(a: QueueAction) -> Seq<char> {
    match a {
        QueueAction::First => "first"@,
        QueueAction::Prev => "prev"@,
        QueueAction::Next => "next"@,
        QueueAction::Last => "last"@,
    }
}

/// The button a component id names, by its ending: `first`, `prev`,
/// `next` or `last`, tried in that order.
pub open spec fn action_named(id: Seq<char>) -> Option<QueueAction> {
    if has_suffix(id, "first"@) {
        Some(QueueAction::First)
    } else if has_suffix(id, "prev"@) {
        Some(QueueAction::Prev)
    } else if has_suffix(id, "next"@) {
        Some(QueueAction::Next)
    } else if has_suffix(id, "last"@) {
        Some(QueueAction::Last)
    } else {
        None
    }
}

/// Reads which button a component id belongs to.
pub fn parse_queue_action(custom_id: &str) -> (res: Option<QueueAction>)
    ensures
        res == action_named(custom_id@),
{
    if ends_with(custom_id, "first") {
        Some(QueueAction::First)
    } else if ends_with(custom_id, "prev") {
        Some(QueueAction::Prev)
    } else if ends_with(custom_id, "next") {
        Some(QueueAction::Next)
    } else if ends_with(custom_id, "last") {
        Some(QueueAction::Last)
    } else {
        None
    }
}

/// The page shown after a button press.
pub open spec fn next_page(page: nat, total: nat, a: QueueAction) -> nat {
    match a {
        QueueAction::First => 0,
        QueueAction::Prev => if page == 0 {
            0
        } else {
            (page - 1) as nat
        },
        QueueAction::Next => if page + 1 < total {
            page + 1
        } else {
            page
        },
        QueueAction::Last => if total == 0 {
            0
        } else {
            (total - 1) as nat
        },
    }
}

/// Moves the queue view by a button press: to the first page, one back (not
/// below the first), one on (not past the last), or to the last page.
pub fn apply_queue_action(page: usize, total: usize, action: QueueAction) -> (res: usize)
    ensures
        res == next_page(page as nat, total as nat, action),
{
    match action {
        QueueAction::First => 0,
        QueueAction::Prev => page.saturating_sub(1),
        QueueAction::Next => {
            if page < total && page + 1 < total {
                page + 1
            } else {
                page
            }
        },
        QueueAction::Last => total.saturating_sub(1),
    }
}

/// The component ids of the four buttons of the queue view started by the
/// command `ctx_id`.
pub open spec fn button_ids(ctx_id: u64) -> Seq<Seq<char>> {
    seq![
        decimal(ctx_id as nat) + "first"@,
        decimal(ctx_id as nat) + "prev"@,
        decimal(ctx_id as nat) + "next"@,
        decimal(ctx_id as nat) + "last"@,
    ]
}

fn button_id(ctx_id: u64, suffix: &str) -> (res: String)
    ensures
        res@ == decimal(ctx_id as nat) + suffix@,
{
    let mut s = decimal_string(ctx_id);
    s.append(suffix);
    s
}

/// The ids of the first, previous, next and last buttons.
pub fn queue_button_ids(ctx_id: u64) -> (res: Vec<String>)
    ensures
        views(res@) == button_ids(ctx_id),
{
    let mut v: Vec<String> = Vec::new();
    v.push(button_id(ctx_id, "first"));
    v.push(button_id(ctx_id, "prev"));
    v.push(button_id(ctx_id, "next"));
    v.push(button_id(ctx_id, "last"));
    assert(views(v@) =~= button_ids(ctx_id));
    v
}

/// Whether a component press belongs to the queue view of command `ctx_id`:
/// its id starts with the command's id.
pub fn is_queue_interaction(custom_id: &str, ctx_id: u64) -> (res: bool)
    ensures
        res == has_prefix(custom_id@, decimal(ctx_id as nat)),
{
    let prefix = decimal_string(ctx_id);
    starts_with(custom_id, prefix.as_str())
}

/// Browsing never leaves the pages: from a page of the queue view, every
/// button press leads to a page of it.
pub proof fn lemma_browsing_stays_in_range(page: nat, total: nat, a: QueueAction)
    requires
        page < total,
    ensures
        next_page(page, total, a) < total,
{
}

/// Going one page on and then one page back returns to the same page,
/// unless the first press was already on the last page.
pub proof fn lemma_next_then_prev(page: nat, total: nat)
    requires
        page + 1 < total,
    ensures
        next_page(next_page(page, total, QueueAction::Next), total, QueueAction::Prev) == page,
{
}

/// The outer buttons jump: from any page of the view, the first-page button
/// leads to page 0 and the last-page button to the last page, whatever the
/// page it was pressed on.
pub proof fn lemma_outer_buttons_jump(page: nat, other: nat, total: nat)
    requires
        page < total,
        other < total,
    ensures
        next_page(page, total, QueueAction::First) == 0,
        next_page(page, total, QueueAction::Last) == total - 1,
        next_page(page, total, QueueAction::Last) == next_page(other, total, QueueAction::Last),
{
}

/// The inner buttons step by one page where there is one to step to, and
/// stay put at the ends: one on from a page before the last, one back from
/// a page after the first, no move on from the last or back from the first.
pub proof fn lemma_inner_buttons_step(page: nat, total: nat)
    requires
        page < total,
    ensures
        page + 1 < total ==> next_page(page, total, QueueAction::Next) == page + 1,
        page + 1 == total ==> next_page(page, total, QueueAction::Next) == page,
        page > 0 ==> next_page(page, total, QueueAction::Prev) + 1 == page,
        page == 0 ==> next_page(page, total, QueueAction::Prev) == 0,
{
}

/// From the last page, going on stays there, and going back then to the
/// last page returns to it.
pub proof fn lemma_last_page_is_the_end(page: nat, total: nat)
    requires
        page < total,
    ensures
        next_page(next_page(page, total, QueueAction::Last), total, QueueAction::Next)
            == next_page(page, total, QueueAction::Last),
        next_page(
            next_page(next_page(page, total, QueueAction::Last), total, QueueAction::Prev),
            total,
            QueueAction::Last,
        ) == total - 1,
{
}

proof fn lemma_decimal_nonempty(n: nat)
    ensures
        decimal(n).len() > 0,
    decreases n,
{
    if n >= 10 {
        lemma_decimal_nonempty(n / 10);
    }
}

/// Each of the four buttons is read back as its own action, and belongs to
/// the view that made it.
pub proof fn lemma_buttons_read_back(ctx_id: u64)
    ensures
        action_named(button_ids(ctx_id)[0]) == Some(QueueAction::First),
        action_named(button_ids(ctx_id)[1]) == Some(QueueAction::Prev),
        action_named(button_ids(ctx_id)[2]) == Some(QueueAction::Next),
        action_named(button_ids(ctx_id)[3]) == Some(QueueAction::Last),
        forall|k: int| 0 <= k < 4 ==> has_prefix(#[trigger] button_ids(ctx_id)[k], decimal(ctx_id as nat)),
{
    reveal_strlit("first");
    reveal_strlit("prev");
    reveal_strlit("next");
    reveal_strlit("last");
    let d = decimal(ctx_id as nat);
    lemma_decimal_nonempty(ctx_id as nat);
    let ids = button_ids(ctx_id);
    assert(ids[0].subrange(ids[0].len() - 5, ids[0].len() as int) =~= "first"@);
    assert(ids[1].subrange(ids[1].len() - 4, ids[1].len() as int) =~= "prev"@);
    assert(ids[1].last() == 'v');
    assert(!has_suffix(ids[1], "first"@)) by {
        if has_suffix(ids[1], "first"@) {
            assert(ids[1].subrange(ids[1].len() - 5, ids[1].len() as int).last() == 't');
        }
    }
    assert(ids[2].subrange(ids[2].len() - 4, ids[2].len() as int) =~= "next"@);
    assert(!has_suffix(ids[2], "first"@)) by {
        if has_suffix(ids[2], "first"@) {
            assert(ids[2].subrange(ids[2].len() - 5, ids[2].len() as int).last() == 't');
            assert(ids[2].subrange(ids[2].len() - 5, ids[2].len() as int)[3] == 's');
            assert(ids[2][ids[2].len() - 2] == 'x');
        }
    }
    assert(!has_suffix(ids[2], "prev"@)) by {
        if has_suffix(ids[2], "prev"@) {
            assert(ids[2].subrange(ids[2].len() - 4, ids[2].len() as int).last() == 'v');
        }
    }
    assert(ids[3].subrange(ids[3].len() - 4, ids[3].len() as int) =~= "last"@);
    assert(!has_suffix(ids[3], "first"@)) by {
        if has_suffix(ids[3], "first"@) {
            assert(ids[3].subrange(ids[3].len() - 5, ids[3].len() as int)[2] == 'r');
            assert(ids[3][ids[3].len() - 3] == 'a');
        }
    }
    assert(!has_suffix(ids[3], "prev"@)) by {
        if has_suffix(ids[3], "prev"@) {
            assert(ids[3].subrange(ids[3].len() - 4, ids[3].len() as int).last() == 'v');
        }
    }
    assert(!has_suffix(ids[3], "next"@)) by {
        if has_suffix(ids[3], "next"@) {
            assert(ids[3].subrange(ids[3].len() - 4, ids[3].len() as int)[0] == 'n');
            assert(ids[3][ids[3].len() - 4] == 'l');
        }
    }
    assert forall|k: int| 0 <= k < 4 implies has_prefix(#[trigger] ids[k], d) by {
        assert(ids[k].subrange(0, d.len() as int) =~= d);
    }
}

/// Every track of the queue is shown on exactly one page: the track at
/// place `i` lies on page `i / page_size`, which is one of the pages.
pub proof fn lemma_every_track_on_one_page(n: nat, page_size: nat, i: nat)
    requires
        page_size > 0,
        i < n,
    ensures
        (i / page_size) * page_size <= i < page_end(n, i / page_size, page_size),
        i / page_size < page_count(n, page_size),
        forall|p: nat| #![trigger p * page_size] p * page_size <= i < page_end(n, p, page_size) ==> p == i / page_size,
{
    let q = i / page_size;
    assert(q * page_size <= i < q * page_size + page_size) by (nonlinear_arith)
        requires
            page_size > 0,
            q == i / page_size,
    ;
    assert(q <= (n - 1) as nat / page_size) by (nonlinear_arith)
        requires
            page_size > 0,
            q == i / page_size,
            i <= n - 1,
    ;
    assert forall|p: nat| #![trigger p * page_size] p * page_size <= i < page_end(n, p, page_size) implies p == q by {
        assert(i < p * page_size + page_size);
        if p < q {
            assert(p * page_size + page_size <= q * page_size) by (nonlinear_arith)
                requires
                    p < q,
            ;
        } else if p > q {
            assert(q * page_size + page_size <= p * page_size) by (nonlinear_arith)
                requires
                    p > q,
            ;
        }
    }
}

} // verus!
