//! Search results cut into pages that fit a select menu.
use crate::error::BotError;
use crate::text::append_decimal;
use crate::text::decimal_text;
use vstd::prelude::*;

verus! {

/// The most entries that a result may have and still be shown whole.
pub const MENU_LIMIT: usize = 25;

/// The entries of a page, which leaves room in a menu for the links to the
/// page before and the page after.
pub const PAGE_LIMIT: usize = 23;

/// One entry of a select menu.
#[derive(Debug, PartialEq, Eq)]
pub struct MenuOption {
    /// What the user reads.
    pub label: String,
    /// What the bot gets back when the user picks the entry.
    pub value: String,
}

/// The texts of a [`MenuOption`].
pub ghost struct OptionText {
    pub label: Seq<char>,
    pub value: Seq<char>,
}

impl View for MenuOption {
    type V = OptionText;

    open spec fn view(&self) -> OptionText {
        OptionText { label: self.label@, value: self.value@ }
    }
}

impl Clone for MenuOption {
    fn clone(&self) -> (r: Self)
        ensures
            r == *self,
    {
        MenuOption { label: self.label.clone(), value: self.value.clone() }
    }
}

/// The entries that a search found, and how many the search counted.
#[derive(Debug, PartialEq, Eq)]
pub struct EmbySearchResult {
    pub result_menu_option: Vec<MenuOption>,
    pub result_items: usize,
}

/// Where a page lies in a list: its first and its last position, and the
/// number of its entries. All three are 0 for a page without entries.
#[derive(Clone, Copy, Debug, PartialEq, Eq, Structural)]
pub struct PageRange {
    pub start: usize,
    pub end: usize,
    pub length: usize,
}

/// The number of pages that `length` entries fill, `limit` to a page.
pub open spec fn page_count_of(length: int, limit: int) -> int {
    (length + limit - 1) / limit
}

/// The smaller of two numbers.
pub open spec fn smaller(a: int, b: int) -> int {
    if a <= b {
        a
    } else {
        b
    }
}

/// The first position of the page at `offset`, before an empty page is set
/// to 0.
pub open spec fn page_first(length: int, limit: int, offset: int) -> int {
    smaller(offset * limit, length)
}

/// The position behind the last of the page at `offset`.
pub open spec fn page_behind(length: int, limit: int, offset: int) -> int {
    smaller(page_first(length, limit, offset) + limit, length)
}

/// Where the page at `offset` lies among `length` entries, `limit` to a
/// page.
pub open spec fn page_range_of(length: int, limit: int, offset: int) -> (int, int, int) {
    let first = page_first(length, limit, offset);
    let behind = page_behind(length, limit, offset);
    if behind - first <= 0 {
        (0, 0, 0)
    } else {
        (first, behind - 1, behind - first)
    }
}

/// Counts pages with `paginate::Pages::new(length, limit).page_count()`.
///
/// Trusted: the crate adds `length` and `limit` in `usize`, takes 1 off and
/// divides by `limit`. The inputs on which it divides by zero, or on which
/// the sum of the two does not fit, are left out.
#[verifier::external_body]
fn page_count(length: usize, limit: usize) -> (count: usize)
    requires
        limit > 0,
        length + limit <= usize::MAX,
    ensures
        count == page_count_of(length as int, limit as int),
{
    paginate::Pages::new(length, limit).page_count()
}

/// Locates a page with `paginate::Pages::new(length, limit).with_offset(offset)`.
///
/// Trusted: the crate takes `min(offset * limit, length)` as the first
/// position and `min(first + limit, length)` as the one behind the last; a
/// page without entries gets 0 for all three numbers, any other gets its
/// last position and its length. The inputs on which the product or the sum
/// overflows are left out.
#[verifier::external_body]
fn page_range(length: usize, limit: usize, offset: usize) -> (range: PageRange)
    requires
        offset * limit <= usize::MAX,
        page_first(length as int, limit as int, offset as int) + limit <= usize::MAX,
    ensures
        (range.start as int, range.end as int, range.length as int) == page_range_of(
            length as int,
            limit as int,
            offset as int,
        ),
{
    let page = paginate::Pages::new(length, limit).with_offset(offset);
    PageRange { start: page.start, end: page.end, length: page.length }
}

/// The index of the page with the given number: pages are numbered from 1,
/// and 0 is taken for the first page as well.
pub open spec fn page_index(page_number: u32) -> int {
    if page_number > 0 {
        page_number - 1
    } else {
        0
    }
}

/// The menu entry that leads to page `number`.
pub open spec fn page_link(prefix: Seq<char>, number: int) -> OptionText {
    OptionText {
        label: prefix + decimal_text(number as nat),
        value: "page_"@ + decimal_text(number as nat),
    }
}

/// The texts of a list of menu entries.
pub open spec fn option_texts(options: Seq<MenuOption>) -> Seq<OptionText> {
    options.map_values(|option: MenuOption| option@)
}

/// The message for a page number beyond the last page.
pub open spec fn outside_message(page_number: u32, count: int) -> Seq<char> {
    "Page "@ + decimal_text(page_number as nat) + " is outside of the valid max of "@
        + decimal_text(count as nat)
}

/// The message for a page that reaches beyond the entries at hand.
pub open spec fn out_of_range_message() -> Seq<char> {
    "unable to get page item. out of range"@
}

/// The entries of the page with the given number: a link to the page
/// before, unless this is the first; the entries of the page; a link to the
/// page after, unless this is the last.
pub open spec fn page_entries(
    options: Seq<OptionText>,
    result_items: usize,
    page_number: u32,
) -> Seq<OptionText> {
    let count = page_count_of(result_items as int, PAGE_LIMIT as int);
    let range = page_range_of(result_items as int, PAGE_LIMIT as int, page_index(page_number));
    let back = if page_number > 1 {
        seq![page_link("Back Page: "@, page_number - 1)]
    } else {
        seq![]
    };
    let next = if page_number != count {
        seq![page_link("Next Page: "@, page_number + 1)]
    } else {
        seq![]
    };
    back + options.subrange(range.0, range.1 + 1) + next
}

/// What paging makes of a result: a result of up to [`MENU_LIMIT`] entries
/// is left whole; of a longer one the page with the given number is cut,
/// unless the number lies beyond the last page or the page reaches beyond
/// the entries at hand.
pub open spec fn paginated(
    options: Seq<OptionText>,
    result_items: usize,
    page_number: u32,
) -> Result<Seq<OptionText>, Seq<char>> {
    if result_items <= MENU_LIMIT {
        Ok(options)
    } else if page_number > page_count_of(result_items as int, PAGE_LIMIT as int) {
        Err(
            outside_message(page_number, page_count_of(result_items as int, PAGE_LIMIT as int)),
        )
    } else if page_range_of(result_items as int, PAGE_LIMIT as int, page_index(page_number)).1
        >= options.len() {
        Err(out_of_range_message())
    } else {
        Ok(page_entries(options, result_items, page_number))
    }
}

/// Makes the menu entry that leads to page `number`.
fn make_page_link(prefix: &str, number: u64) -> (option: MenuOption)
    ensures
        option@ == page_link(prefix@, number as int),
{
    let mut label = prefix.to_owned();
    append_decimal(&mut label, number);
    let mut value = "page_".to_owned();
    append_decimal(&mut value, number);
    MenuOption { label, value }
}

/// Cuts the page with the given number out of a search result that is too
/// long for one menu.
pub fn paginate_result(search_result: EmbySearchResult, page_number: u32) -> (r: Result<
    EmbySearchResult,
    BotError,
>)
    requires
        search_result.result_items <= usize::MAX - PAGE_LIMIT,
    ensures
        match paginated(
            option_texts(search_result.result_menu_option@),
            search_result.result_items,
            page_number,
        ) {
            Ok(entries) => r is Ok && r->Ok_0.result_items == search_result.result_items
                && option_texts(r->Ok_0.result_menu_option@) == entries,
            Err(message) => r is Err && r->Err_0.text() == message,
        },
{
    if search_result.result_items <= MENU_LIMIT {
        return Ok(search_result);
    }
    let length = search_result.result_items;
    let count = page_count(length, PAGE_LIMIT);
    if page_number as usize > count {
        let mut message = "Page ".to_owned();
        append_decimal(&mut message, page_number as u64);
        message.append(" is outside of the valid max of ");
        append_decimal(&mut message, count as u64);
        return Err(BotError::new(message.as_str()));
    }
    let index: usize = if page_number > 0 {
        (page_number - 1) as usize
    } else {
        0
    };
    assert(index * PAGE_LIMIT <= length) by (nonlinear_arith)
        requires
            index < count || index == 0,
            count == (length + PAGE_LIMIT - 1) / (PAGE_LIMIT as int),
            PAGE_LIMIT == 23,
    ;
    let range = page_range(length, PAGE_LIMIT, index);
    if range.end >= search_result.result_menu_option.len() {
        return Err(BotError::new("unable to get page item. out of range"));
    }
    let mut menu_options: Vec<MenuOption> = Vec::new();
    if page_number > 1 {
        menu_options.push(make_page_link("Back Page: ", (page_number - 1) as u64));
    }
    let ghost back = option_texts(menu_options@);
    let ghost source = search_result.result_menu_option@;
    assert(back =~= if page_number > 1 {
        seq![page_link("Back Page: "@, page_number - 1)]
    } else {
        seq![]
    });
    assert(option_texts(menu_options@) =~= back + option_texts(source).subrange(
        range.start as int,
        range.start as int,
    ));
    let mut idx: usize = range.start;
    while idx <= range.end
        invariant
            range.start <= idx <= range.end + 1,
            range.end < search_result.result_menu_option.len(),
            source == search_result.result_menu_option@,
            option_texts(menu_options@) == back + option_texts(source).subrange(
                range.start as int,
                idx as int,
            ),
        decreases range.end + 1 - idx,
    {
        let ghost before = menu_options@;
        menu_options.push(search_result.result_menu_option[idx].clone());
        proof {
            assert(menu_options@ == before.push(source[idx as int]));
            assert(option_texts(menu_options@) =~= option_texts(before).push(source[idx as int]@));
            assert(option_texts(source).subrange(range.start as int, idx + 1) =~= option_texts(
                source,
            ).subrange(range.start as int, idx as int).push(source[idx as int]@));
        }
        idx += 1;
    }
    let ghost paged = option_texts(menu_options@);
    if page_number as usize != count {
        menu_options.push(make_page_link("Next Page: ", page_number as u64 + 1));
        assert(option_texts(menu_options@) =~= paged.push(
            page_link("Next Page: "@, page_number + 1),
        ));
    }
    assert(option_texts(menu_options@) =~= page_entries(
        option_texts(source),
        length,
        page_number,
    ));
    Ok(EmbySearchResult { result_menu_option: menu_options, result_items: length })
}

/// A page fits a menu: with the links to its neighbours it has no more
/// than [`MENU_LIMIT`] entries, and of the result's own entries it holds
/// those from position `PAGE_LIMIT * (page_number - 1)` on, no more than
/// [`PAGE_LIMIT`] of them.
pub proof fn lemma_page_fits_menu(options: Seq<OptionText>, result_items: usize, page_number: u32)
    requires
        result_items > MENU_LIMIT,
        paginated(options, result_items, page_number) is Ok,
    ensures
        paginated(options, result_items, page_number)->Ok_0.len() <= MENU_LIMIT,
        page_range_of(result_items as int, PAGE_LIMIT as int, page_index(page_number)).0
            == PAGE_LIMIT * page_index(page_number),
        1 <= page_range_of(result_items as int, PAGE_LIMIT as int, page_index(page_number)).2
            <= PAGE_LIMIT,
{
    let length = result_items as int;
    let index = page_index(page_number);
    let count = page_count_of(length, PAGE_LIMIT as int);
    assert(index * PAGE_LIMIT < length) by (nonlinear_arith)
        requires
            0 <= index,
            index < count || index == 0,
            count == (length + 23 - 1) / 23,
            PAGE_LIMIT == 23,
            length > 25,
    ;
    assert(index * PAGE_LIMIT == PAGE_LIMIT * index) by (nonlinear_arith);
}

} // verus!
