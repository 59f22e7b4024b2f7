//! Page-strip metadata for listings: which page numbers to show around the
//! current page, where to draw separators, and whether the current page is the
//! last one.

use vstd::prelude::*;

verus! {

/// Number of items shown on one page of any listing.
pub const PAGE_ITEMS: i32 = 20;

/// What is known about the end of a listing.
#[derive(Debug)]
pub enum PageLimit {
    /// Index of the last page.
    Known(i32),
    /// Number of items on the current page.
    Unknown(usize),
}

/// Render-ready description of a pagination strip.
#[derive(Debug)]
pub struct Pagination {
    current_page: i32,
    base_link: String,
    has_known_limit: bool,
    is_last_page: bool,
    last_page: i32,
    before_pages: Vec<i32>,
    after_pages: Vec<i32>,
    before_separator: bool,
    after_separator: bool,
}

/// Mathematical content of a [`Pagination`].
pub struct PaginationView {
    pub current_page: int,
    pub base_link: Seq<char>,
    pub has_known_limit: bool,
    pub is_last_page: bool,
    pub last_page: int,
    pub before_pages: Seq<int>,
    pub after_pages: Seq<int>,
    pub before_separator: bool,
    pub after_separator: bool,
}

/// The page numbers held by a vector, as mathematical integers.
pub open spec fn pages_view(pages: Seq<i32>) -> Seq<int> {
    pages.map_values(|p: i32| p as int)
}

/// The one-element sequence `[page]` if `keep` holds, the empty sequence otherwise.
pub open spec fn page_if(keep: bool, page: int) -> Seq<int> {
    if keep {
        seq![page]
    } else {
        Seq::empty()
    }
}

/// The two pages before `current_page`, without those that are not greater than 1.
pub open spec fn before_pages_of(current_page: int) -> Seq<int> {
    page_if(current_page - 2 > 1, current_page - 2) + page_if(
        current_page - 1 > 1,
        current_page - 1,
    )
}

/// The two pages after `current_page`, without those that are not below `last_page`.
pub open spec fn after_pages_known(current_page: int, last_page: int) -> Seq<int> {
    page_if(current_page + 1 < last_page, current_page + 1) + page_if(
        current_page + 2 < last_page,
        current_page + 2,
    )
}

/// Whether a page holding `items` entries must be the last one.
pub open spec fn is_short_page(items: int) -> bool {
    items < PAGE_ITEMS
}

/// The pages offered after `current_page` when the end of the listing is not
/// known: none on a short page, else the next two, widened by a third and a
/// fourth while fewer than two, or no, pages are shown before it.
pub open spec fn after_pages_unknown(current_page: int, items: int) -> Seq<int> {
    if is_short_page(items) {
        Seq::empty()
    } else {
        seq![current_page + 1, current_page + 2] + page_if(
            before_pages_of(current_page).len() <= 1,
            current_page + 3,
        ) + page_if(before_pages_of(current_page).len() == 0, current_page + 4)
    }
}

/// The pagination strip for a page, a limit and a link.
pub open spec fn pagination_of(
    current_page: int,
    total_pages: PageLimit,
    base_link: Seq<char>,
) -> PaginationView {
    match total_pages {
        PageLimit::Known(last_page) => PaginationView {
            current_page,
            base_link,
            has_known_limit: true,
            is_last_page: current_page == last_page,
            last_page: last_page as int,
            before_pages: before_pages_of(current_page),
            after_pages: after_pages_known(current_page, last_page as int),
            before_separator: current_page >= 5,
            after_separator: last_page - current_page > 3,
        },
        PageLimit::Unknown(items) => PaginationView {
            current_page,
            base_link,
            has_known_limit: false,
            is_last_page: is_short_page(items as int),
            last_page: -1,
            before_pages: before_pages_of(current_page),
            after_pages: after_pages_unknown(current_page, items as int),
            before_separator: current_page >= 5,
            after_separator: !is_short_page(items as int),
        },
    }
}

/// Whether every page number of the strip can be held in an `i32`.
pub open spec fn strip_fits(current_page: int, total_pages: PageLimit) -> bool {
    total_pages matches PageLimit::Unknown(items) ==> (is_short_page(items as int) || current_page
        + 2 <= i32::MAX)
}

impl View for Pagination {
    type V = PaginationView;

    closed spec fn view(&self) -> PaginationView {
        PaginationView {
            current_page: self.current_page as int,
            base_link: self.base_link@,
            has_known_limit: self.has_known_limit,
            is_last_page: self.is_last_page,
            last_page: self.last_page as int,
            before_pages: pages_view(self.before_pages@),
            after_pages: pages_view(self.after_pages@),
            before_separator: self.before_separator,
            after_separator: self.after_separator,
        }
    }
}

/// Appends `page` to `pages` if `keep` holds.
fn push_page_if(pages: &mut Vec<i32>, keep: bool, page: i64)
    requires
        keep ==> i32::MIN <= page <= i32::MAX,
    ensures
        pages_view(final(pages)@) == pages_view(old(pages)@) + page_if(keep, page as int),
{
    if keep {
        pages.push(page as i32);
        assert(pages_view(pages@) =~= pages_view(old(pages)@) + page_if(keep, page as int));
    } else {
        assert(pages_view(pages@) =~= pages_view(old(pages)@) + page_if(keep, page as int));
    }
}

/// Decides whether every page number of the strip for `current_page` can be
/// held in an `i32`, so that the strip can be built.
pub fn page_fits(current_page: i32, total_pages: &PageLimit) -> (fits: bool)
    ensures
        fits == strip_fits(current_page as int, *total_pages),
{
    match total_pages {
        PageLimit::Known(_) => true,
        PageLimit::Unknown(items) => *items < 20 || current_page <= i32::MAX - 2,
    }
}

impl Pagination {
    /// Builds the strip for page `current_page` of a listing with the limit
    /// `total_pages`, whose pages are linked from `base_link`. Where the limit
    /// is not known and the page is full, the two page numbers that follow
    /// `current_page` have to fit in an `i32`; [`page_fits`] tells.
    pub fn new(current_page: i32, total_pages: PageLimit, base_link: String) -> (p: Pagination)
        requires
            strip_fits(current_page as int, total_pages),
        ensures
            p@ == pagination_of(current_page as int, total_pages, base_link@),
    {
        let page: i64 = current_page as i64;
        let mut before_pages: Vec<i32> = Vec::new();
        assert(pages_view(before_pages@) =~= Seq::<int>::empty());
        push_page_if(&mut before_pages, page - 2 > 1, page - 2);
        push_page_if(&mut before_pages, page - 1 > 1, page - 1);
        assert(pages_view(before_pages@) =~= before_pages_of(page as int));
        let mut after_pages: Vec<i32> = Vec::new();
        assert(pages_view(after_pages@) =~= Seq::<int>::empty());
        let p = match total_pages {
            PageLimit::Known(last_page) => {
                let last: i64 = last_page as i64;
                push_page_if(&mut after_pages, page + 1 < last, page + 1);
                push_page_if(&mut after_pages, page + 2 < last, page + 2);
                assert(pages_view(after_pages@) =~= after_pages_known(page as int, last as int));
                Pagination {
                    current_page,
                    base_link,
                    has_known_limit: true,
                    is_last_page: current_page == last_page,
                    last_page,
                    before_pages,
                    after_pages,
                    before_separator: current_page >= 5,
                    after_separator: last - page > 3,
                }
            },
            PageLimit::Unknown(current_page_items) => {
                let is_last_page = current_page_items < 20;
                if !is_last_page {
                    let few_before = before_pages.len() <= 1;
                    let none_before = before_pages.len() == 0;
                    push_page_if(&mut after_pages, true, page + 1);
                    push_page_if(&mut after_pages, true, page + 2);
                    push_page_if(&mut after_pages, few_before, page + 3);
                    push_page_if(&mut after_pages, none_before, page + 4);
                }
                assert(pages_view(after_pages@) =~= after_pages_unknown(
                    page as int,
                    current_page_items as int,
                ));
                Pagination {
                    current_page,
                    base_link,
                    has_known_limit: false,
                    is_last_page,
                    last_page: -1,
                    before_pages,
                    after_pages,
                    before_separator: current_page >= 5,
                    after_separator: !is_last_page,
                }
            },
        };
        p
    }

    /// The page being shown.
    pub fn current_page(&self) -> (page: i32)
        ensures
            page == self@.current_page,
    {
        self.current_page
    }

    /// The link to which a page number is appended.
    pub fn base_link(&self) -> (link: &String)
        ensures
            link@ == self@.base_link,
    {
        &self.base_link
    }

    /// Whether the index of the last page is known.
    pub fn has_known_limit(&self) -> (known: bool)
        ensures
            known == self@.has_known_limit,
    {
        self.has_known_limit
    }

    /// Whether the page being shown is the last one.
    pub fn is_last_page(&self) -> (last: bool)
        ensures
            last == self@.is_last_page,
    {
        self.is_last_page
    }

    /// The index of the last page, or -1 where it is not known.
    pub fn last_page(&self) -> (page: i32)
        ensures
            page == self@.last_page,
    {
        self.last_page
    }

    /// The pages offered before the current one, ascending.
    pub fn before_pages(&self) -> (pages: &Vec<i32>)
        ensures
            pages_view(pages@) == self@.before_pages,
    {
        &self.before_pages
    }

    /// The pages offered after the current one, ascending.
    pub fn after_pages(&self) -> (pages: &Vec<i32>)
        ensures
            pages_view(pages@) == self@.after_pages,
    {
        &self.after_pages
    }

    /// Whether a separator stands between the first page and the pages before
    /// the current one.
    pub fn before_separator(&self) -> (shown: bool)
        ensures
            shown == self@.before_separator,
    {
        self.before_separator
    }

    /// Whether a separator stands between the pages after the current one and
    /// the end of the listing.
    pub fn after_separator(&self) -> (shown: bool)
        ensures
            shown == self@.after_separator,
    {
        self.after_separator
    }
}

/// The pages offered before the current page are greater than 1, smaller than
/// the current page, and ascend.
pub proof fn lemma_before_pages_bounds(
    current_page: int,
    total_pages: PageLimit,
    base_link: Seq<char>,
)
    ensures
        pagination_of(current_page, total_pages, base_link).before_pages == before_pages_of(
            current_page,
        ),
        forall|i: int|
            0 <= i < before_pages_of(current_page).len() ==> 1 < #[trigger] before_pages_of(
                current_page,
            )[i] < current_page,
        forall|i: int, j: int|
            0 <= i < j < before_pages_of(current_page).len() ==> before_pages_of(current_page)[i]
                < before_pages_of(current_page)[j],
{
}

/// On the last page of a listing whose end is known, the strip says so and
/// offers no page after it.
pub proof fn lemma_last_page_has_no_after_pages(last_page: i32, base_link: Seq<char>)
    ensures
        pagination_of(last_page as int, PageLimit::Known(last_page), base_link).is_last_page,
        pagination_of(last_page as int, PageLimit::Known(last_page), base_link).after_pages
            == Seq::<int>::empty(),
{
    assert(after_pages_known(last_page as int, last_page as int) =~= Seq::<int>::empty());
}

/// Where the end of a listing is known, every page offered after the current
/// one lies between the current page and the last one.
pub proof fn lemma_after_pages_below_last_page(
    current_page: int,
    last_page: i32,
    base_link: Seq<char>,
)
    ensures
        forall|i: int|
            0 <= i < pagination_of(
                current_page,
                PageLimit::Known(last_page),
                base_link,
            ).after_pages.len() ==> current_page < #[trigger] pagination_of(
                current_page,
                PageLimit::Known(last_page),
                base_link,
            ).after_pages[i] < last_page,
{
}

/// A page that holds as many items as a page can hold is never taken for the
/// last one, and neither is one that holds more.
pub proof fn lemma_full_page_is_not_last(current_page: int, items: usize, base_link: Seq<char>)
    requires
        items >= PAGE_ITEMS,
    ensures
        !pagination_of(current_page, PageLimit::Unknown(items), base_link).is_last_page,
        pagination_of(current_page, PageLimit::Unknown(items), base_link).after_pages.len() >= 2,
{
}

/// A separator is drawn only over a gap: before the current page only if the
/// first page offered lies more than one step after page 1, and, where the end
/// is known, after the current page only if the last page offered lies more
/// than one step before the last page.
pub proof fn lemma_separators_mark_gaps(
    current_page: int,
    total_pages: PageLimit,
    base_link: Seq<char>,
)
    ensures
        ({
            let p = pagination_of(current_page, total_pages, base_link);
            &&& p.before_separator ==> p.before_pages.len() == 2 && p.before_pages[0] > 2
            &&& (total_pages is Known && p.after_separator) ==> p.after_pages.len() == 2
                && p.after_pages[1] < p.last_page - 1
        }),
{
}

} // verus!
