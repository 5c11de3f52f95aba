//! Paging of the note list: twenty notes to a page, the newest first.
//!
//! `Pager` holds the current page and the number of pages. Its methods say
//! what becomes of the pager, and which of the paging controls change, when
//! the user turns a page or when a fresh count of notes comes in.

use vstd::prelude::*;
use crate::text::{
    int_digits, lemma_int_digits_read_back, push_char, push_i64_decimal, signed_decimal_value,
};

verus! {

/// Number of notes on one page.
pub const PAGE_SIZE: i64 = 20;

/// Number of pages that `count` notes fill: `count / 20`, rounded up. A
/// negative count (which no count of rows is) gives `count / 20` rounded
/// toward zero, as integer division in Rust does.
pub open spec fn spec_page_count(count: int) -> int {
    if count >= 0 {
        count / 20 + if count % 20 > 0 { 1int } else { 0int }
    } else {
        -((-count) / 20)
    }
}

/// Index of the first note on page `page` (pages count from 1).
pub open spec fn spec_page_offset(page: int) -> int {
    (page - 1) * 20
}

/// Number of pages that `count` notes fill.
pub fn page_count(count: i64) -> (total: i64)
    ensures
        total == spec_page_count(count as int),
{
    let mut total = count / PAGE_SIZE;
    if count % PAGE_SIZE > 0 {
        total = total + 1;
    }
    total
}

/// Index of the first note on page `page`.
pub fn page_offset(page: i64) -> (offset: i64)
    requires
        i64::MIN <= spec_page_offset(page as int) <= i64::MAX,
    ensures
        offset == spec_page_offset(page as int),
{
    (page - 1) * PAGE_SIZE
}

/// The number of pages covers every note, with less than one page to spare.
pub proof fn lemma_page_count_bounds(count: int)
    requires
        count >= 0,
    ensures
        spec_page_count(count) >= 0,
        spec_page_count(count) * 20 >= count,
        (spec_page_count(count) - 1) * 20 < count,
        spec_page_count(count) == 0 <==> count == 0,
{
}

/// Each of `count` notes stands on exactly one page of the `spec_page_count(count)`
/// pages: the note at index `row` stands on page `row / 20 + 1`, and on no other.
pub proof fn lemma_row_on_one_page(count: int, row: int, page: int)
    requires
        0 <= row < count,
    ensures
        1 <= row / 20 + 1 <= spec_page_count(count),
        spec_page_offset(row / 20 + 1) <= row < spec_page_offset(row / 20 + 1) + 20,
        spec_page_offset(page) <= row < spec_page_offset(page) + 20 ==> page == row / 20 + 1,
{
    if spec_page_offset(page) <= row < spec_page_offset(page) + 20 {
        assert(page == row / 20 + 1) by (nonlinear_arith)
            requires
                (page - 1) * 20 <= row < (page - 1) * 20 + 20,
                0 <= row,
        ;
    }
}

/// No page is empty: every page from 1 to `spec_page_count(count)` starts
/// before the last note.
pub proof fn lemma_pages_not_empty(count: int, page: int)
    requires
        count >= 0,
        1 <= page <= spec_page_count(count),
    ensures
        0 <= spec_page_offset(page) < count,
{
    assert(0 <= (page - 1) * 20) by (nonlinear_arith)
        requires
            page >= 1,
    ;
    assert((page - 1) * 20 <= (spec_page_count(count) - 1) * 20) by (nonlinear_arith)
        requires
            page <= spec_page_count(count),
    ;
}

/// Changes to the sensitivity of the two paging buttons; `None` leaves a
/// button as it is.
pub struct ButtonUpdate {
    pub prev_sensitive: Option<bool>,
    pub next_sensitive: Option<bool>,
}

/// Button changes after moving back to page `page` of `total`.
pub open spec fn after_prev(page: int, total: int) -> ButtonUpdate {
    ButtonUpdate {
        prev_sensitive: if page == 1 { Some(false) } else { None },
        next_sensitive: if page != total { Some(true) } else { None },
    }
}

/// Button changes after moving on to page `page` of `total`.
pub open spec fn after_next(page: int, total: int) -> ButtonUpdate {
    ButtonUpdate {
        prev_sensitive: if page != 1 { Some(true) } else { None },
        next_sensitive: if page == total { Some(false) } else { None },
    }
}

/// What a refreshed list changes besides its rows.
pub struct RefreshUpdate {
    /// New text of the page label, `current/total`; `None` leaves it as it is.
    pub info_label: Option<String>,
    pub prev_sensitive: Option<bool>,
    pub next_sensitive: Option<bool>,
    /// Whether the paging bar is shown.
    pub show_all_visible: bool,
}

/// The text of the page label.
pub open spec fn page_label(cur: int, total: int) -> Seq<char> {
    int_digits(cur) + seq!['/'] + int_digits(total)
}

/// The page label is the current page in decimal, a `/`, and the number of
/// pages in decimal: both numbers read back from the two sides of the `/`.
pub proof fn lemma_page_label_reads_back(cur: int, total: int)
    ensures
        exists|k: int|
            0 <= k < page_label(cur, total).len() && #[trigger] page_label(cur, total)[k] == '/'
                && signed_decimal_value(page_label(cur, total).take(k)) == cur
                && signed_decimal_value(page_label(cur, total).skip(k + 1)) == total,
{
    lemma_int_digits_read_back(cur);
    lemma_int_digits_read_back(total);
    let l = page_label(cur, total);
    let k = int_digits(cur).len() as int;
    assert(l[k] == '/');
    assert(l.take(k) =~= int_digits(cur));
    assert(l.skip(k + 1) =~= int_digits(total));
}

/// Which of the list and the empty-state page is shown.
pub struct ViewVisibility {
    pub list_visible: bool,
    pub status_visible: bool,
}

/// The list is shown when it holds a note, the empty-state page otherwise.
pub fn view_visibility(n_items: u32) -> (v: ViewVisibility)
    ensures
        v.list_visible == (n_items > 0),
        v.status_visible == (n_items == 0),
{
    if n_items > 0 {
        ViewVisibility { list_visible: true, status_visible: false }
    } else {
        ViewVisibility { list_visible: false, status_visible: true }
    }
}

/// The current page and the number of pages.
pub struct Pager {
    pub cur_page: i64,
    pub total_page: i64,
}

/// The pager after a count of `count` notes came in (`None`: the count could
/// not be read).
pub open spec fn pager_after_count(p: Pager, count: Option<i64>) -> Pager {
    match count {
        Some(c) => Pager { cur_page: p.cur_page, total_page: spec_page_count(c as int) as i64 },
        None => p,
    }
}

/// Button changes after a count came in while on the pager's current page:
/// on page 1 a readable count sets both buttons, otherwise none changes.
pub open spec fn buttons_after_count(p: Pager, count: Option<i64>) -> ButtonUpdate {
    if count is Some && p.cur_page == 1 {
        ButtonUpdate {
            prev_sensitive: Some(false),
            next_sensitive: Some(pager_after_count(p, count).total_page > 1),
        }
    } else {
        ButtonUpdate { prev_sensitive: None, next_sensitive: None }
    }
}

/// The pager after moving back one page.
pub open spec fn pager_after_prev(p: Pager) -> Pager {
    Pager { cur_page: (p.cur_page - 1) as i64, total_page: p.total_page }
}

/// The pager after moving on one page.
pub open spec fn pager_after_next(p: Pager) -> Pager {
    Pager { cur_page: (p.cur_page + 1) as i64, total_page: p.total_page }
}

impl Pager {
    /// A pager on page 1 of 1.
    pub fn new() -> (p: Self)
        ensures
            p.cur_page == 1,
            p.total_page == 1,
    {
        Pager { cur_page: 1, total_page: 1 }
    }

    /// Back to page 1 of 1, as after a note was added or deleted.
    pub fn reset(&mut self)
        ensures
            final(self).cur_page == 1,
            final(self).total_page == 1,
    {
        self.cur_page = 1;
        self.total_page = 1;
    }

    /// After a note was added or deleted: when the database took the change
    /// (`ok`), the pager goes back to page 1 of 1 and the list is to be
    /// reloaded (the result is `true`); otherwise nothing changes.
    pub fn after_write(&mut self, ok: bool) -> (reload: bool)
        ensures
            reload == ok,
            ok ==> final(self).cur_page == 1 && final(self).total_page == 1,
            !ok ==> *final(self) == *old(self),
    {
        if ok {
            self.reset();
        }
        ok
    }

    /// Moves back one page.
    pub fn prev_page(&mut self) -> (u: ButtonUpdate)
        requires
            old(self).cur_page > i64::MIN,
        ensures
            *final(self) == pager_after_prev(*old(self)),
            final(self).cur_page == old(self).cur_page - 1,
            u == after_prev(final(self).cur_page as int, final(self).total_page as int),
    {
        let prev = self.cur_page - 1;
        let prev_sensitive = if prev == 1 { Some(false) } else { None };
        let next_sensitive = if prev != self.total_page { Some(true) } else { None };
        self.cur_page = prev;
        ButtonUpdate { prev_sensitive, next_sensitive }
    }

    /// Moves on one page.
    pub fn next_page(&mut self) -> (u: ButtonUpdate)
        requires
            old(self).cur_page < i64::MAX,
        ensures
            *final(self) == pager_after_next(*old(self)),
            final(self).cur_page == old(self).cur_page + 1,
            u == after_next(final(self).cur_page as int, final(self).total_page as int),
    {
        let next = self.cur_page + 1;
        let next_sensitive = if next == self.total_page { Some(false) } else { None };
        let prev_sensitive = if next != 1 { Some(true) } else { None };
        self.cur_page = next;
        ButtonUpdate { prev_sensitive, next_sensitive }
    }

    /// Takes in the count of notes after the current page was reloaded;
    /// `None` when the count could not be read, which changes nothing but
    /// hides the paging bar.
    pub fn apply_count(&mut self, count: Option<i64>) -> (u: RefreshUpdate)
        ensures
            *final(self) == pager_after_count(*old(self), count),
            u.show_all_visible == (count matches Some(c) && c > 20),
            u.info_label is Some == (count matches Some(c) && c > 20),
            u.info_label matches Some(l) ==> l@ == page_label(
                final(self).cur_page as int,
                final(self).total_page as int,
            ),
            u.info_label matches Some(l) ==> exists|k: int|
                0 <= k < l@.len() && #[trigger] l@[k] == '/' && signed_decimal_value(l@.take(k))
                    == final(self).cur_page && signed_decimal_value(l@.skip(k + 1))
                    == final(self).total_page,
            u.prev_sensitive == buttons_after_count(*old(self), count).prev_sensitive,
            u.next_sensitive == buttons_after_count(*old(self), count).next_sensitive,
    {
        let mut show = false;
        let mut info_label: Option<String> = None;
        let mut prev_sensitive: Option<bool> = None;
        let mut next_sensitive: Option<bool> = None;
        match count {
            Some(c) => {
                let total = page_count(c);
                self.total_page = total;
                if c > 20 {
                    show = true;
                    let mut label = String::new();
                    push_i64_decimal(&mut label, self.cur_page);
                    push_char(&mut label, '/');
                    push_i64_decimal(&mut label, total);
                    assert(label@ =~= page_label(self.cur_page as int, total as int));
                    proof {
                        lemma_int_digits_read_back(self.cur_page as int);
                        lemma_int_digits_read_back(total as int);
                        let k = int_digits(self.cur_page as int).len() as int;
                        assert(label@.take(k) =~= int_digits(self.cur_page as int));
                        assert(label@.skip(k + 1) =~= int_digits(total as int));
                        assert(label@[k] == '/');
                    }
                    info_label = Some(label);
                }
                if self.cur_page == 1 {
                    prev_sensitive = Some(false);
                    next_sensitive = Some(total > 1);
                }
            },
            None => {},
        }
        RefreshUpdate { info_label, prev_sensitive, next_sensitive, show_all_visible: show }
    }
}

/// Whether the two paging buttons can be pressed.
pub struct Controls {
    pub prev_sensitive: bool,
    pub next_sensitive: bool,
}

/// The buttons after the changes `u`.
pub open spec fn controls_after(c: Controls, u: ButtonUpdate) -> Controls {
    Controls {
        prev_sensitive: match u.prev_sensitive {
            Some(b) => b,
            None => c.prev_sensitive,
        },
        next_sensitive: match u.next_sensitive {
            Some(b) => b,
            None => c.next_sensitive,
        },
    }
}

/// The buttons match the pager: the current page is a page of the list (or
/// page 1 of an empty list), the back button can be pressed exactly when
/// there is an earlier page, and the forward button exactly when there is a
/// later one.
pub open spec fn controls_fit(p: Pager, c: Controls) -> bool {
    &&& 1 <= p.cur_page
    &&& p.cur_page == 1 || p.cur_page <= p.total_page
    &&& c.prev_sensitive == (p.cur_page > 1)
    &&& c.next_sensitive == (p.cur_page < p.total_page)
}

/// A count read while on page 1, as after a note was added or deleted, sets
/// the buttons to match the pager, whatever they were.
pub proof fn lemma_count_on_first_page_fits(p: Pager, c: Controls, n: i64)
    requires
        p.cur_page == 1,
    ensures
        controls_fit(
            pager_after_count(p, Some(n)),
            controls_after(c, buttons_after_count(p, Some(n))),
        ),
{
    if n >= 0 {
        lemma_page_count_bounds(n as int);
    }
}

/// A count that leaves the number of pages as it was, or that could not be
/// read, keeps buttons that match the pager matching it.
pub proof fn lemma_same_count_keeps_fit(p: Pager, c: Controls, count: Option<i64>)
    requires
        controls_fit(p, c),
        count matches Some(n) ==> spec_page_count(n as int) == p.total_page,
    ensures
        controls_fit(pager_after_count(p, count), controls_after(c, buttons_after_count(p, count))),
{
}

/// Pressing the forward button when it can be pressed keeps the buttons
/// matching the pager.
pub proof fn lemma_next_keeps_fit(p: Pager, c: Controls)
    requires
        controls_fit(p, c),
        c.next_sensitive,
    ensures
        p.cur_page < i64::MAX,
        controls_fit(
            pager_after_next(p),
            controls_after(c, after_next(p.cur_page + 1, p.total_page as int)),
        ),
{
}

/// Pressing the back button when it can be pressed keeps the buttons
/// matching the pager.
pub proof fn lemma_prev_keeps_fit(p: Pager, c: Controls)
    requires
        controls_fit(p, c),
        c.prev_sensitive,
    ensures
        p.cur_page > i64::MIN,
        controls_fit(
            pager_after_prev(p),
            controls_after(c, after_prev(p.cur_page - 1, p.total_page as int)),
        ),
{
}

/// Moving on one page and then back one page returns the pager to where it
/// was; moving back and then on does too.
pub proof fn lemma_next_then_prev(p: Pager)
    requires
        p.cur_page < i64::MAX,
        p.cur_page > i64::MIN,
    ensures
        pager_after_prev(pager_after_next(p)) == p,
        pager_after_next(pager_after_prev(p)) == p,
{
}

} // verus!
