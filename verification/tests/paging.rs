use rustobot::paging::paginate_result;
use rustobot::paging::EmbySearchResult;
use rustobot::paging::MenuOption;
use rustobot::paging::MENU_LIMIT;
use rustobot::paging::PAGE_LIMIT;
use rustobot::text::append_decimal;

fn option(n: usize) -> MenuOption {
    MenuOption { label: format!("Episode {}", n), value: format!("id{}", n) }
}

fn result(count: usize) -> EmbySearchResult {
    EmbySearchResult { result_menu_option: (0..count).map(option).collect(), result_items: count }
}

fn link(prefix: &str, page: u32) -> MenuOption {
    MenuOption { label: format!("{}{}", prefix, page), value: format!("page_{}", page) }
}

#[test]
fn decimal_text_of_numbers() {
    for n in [0u64, 1, 9, 10, 11, 99, 100, 101, 12345, 4294967295, 4294967296, u64::MAX] {
        let mut out = String::from("n=");
        append_decimal(&mut out, n);
        assert_eq!(out, format!("n={}", n));
    }
}

#[test]
fn short_result_is_left_whole() {
    assert_eq!(MENU_LIMIT, 25);
    assert_eq!(PAGE_LIMIT, 23);
    assert_eq!(paginate_result(result(0), 1), Ok(result(0)));
    assert_eq!(paginate_result(result(25), 1), Ok(result(25)));
    assert_eq!(paginate_result(result(25), 7), Ok(result(25)));
    assert_eq!(paginate_result(result(3), 0), Ok(result(3)));
}

#[test]
fn first_page_has_a_link_to_the_next() {
    let page = paginate_result(result(50), 1).unwrap();
    assert_eq!(page.result_items, 50);
    let mut expected: Vec<MenuOption> = (0..23).map(option).collect();
    expected.push(link("Next Page: ", 2));
    assert_eq!(page.result_menu_option, expected);
}

#[test]
fn middle_page_has_links_both_ways() {
    let page = paginate_result(result(50), 2).unwrap();
    let mut expected = vec![link("Back Page: ", 1)];
    expected.extend((23..46).map(option));
    expected.push(link("Next Page: ", 3));
    assert_eq!(page.result_menu_option, expected);
    assert_eq!(page.result_menu_option.len(), 25);
}

#[test]
fn last_page_has_a_link_back_only() {
    let page = paginate_result(result(50), 3).unwrap();
    let mut expected = vec![link("Back Page: ", 2)];
    expected.extend((46..50).map(option));
    assert_eq!(page.result_menu_option, expected);
    assert_eq!(page.result_items, 50);
}

#[test]
fn full_last_page() {
    let page = paginate_result(result(46), 2).unwrap();
    let mut expected = vec![link("Back Page: ", 1)];
    expected.extend((23..46).map(option));
    assert_eq!(page.result_menu_option, expected);
}

#[test]
fn page_zero_is_the_first_page() {
    let page = paginate_result(result(26), 0).unwrap();
    let mut expected: Vec<MenuOption> = (0..23).map(option).collect();
    expected.push(link("Next Page: ", 1));
    assert_eq!(page.result_menu_option, expected);
}

#[test]
fn page_beyond_the_last_is_refused() {
    let error = paginate_result(result(50), 4).unwrap_err();
    assert_eq!(error.message(), "Page 4 is outside of the valid max of 3");
    let error = paginate_result(result(26), u32::MAX).unwrap_err();
    assert_eq!(error.message(), "Page 4294967295 is outside of the valid max of 2");
}

#[test]
fn page_beyond_the_entries_at_hand_is_refused() {
    let mut short = result(30);
    short.result_items = 60;
    let error = paginate_result(short, 2).unwrap_err();
    assert_eq!(error.message(), "unable to get page item. out of range");
    let mut short = result(30);
    short.result_items = 60;
    let page = paginate_result(short, 1).unwrap();
    assert_eq!(page.result_menu_option.len(), 24);
    assert_eq!(page.result_items, 60);
    let empty = EmbySearchResult { result_menu_option: vec![], result_items: 26 };
    let error = paginate_result(empty, 1).unwrap_err();
    assert_eq!(error.message(), "unable to get page item. out of range");
}

#[test]
fn pages_agree_with_the_pagination_crate() {
    for count in [26usize, 45, 46, 47, 69, 70, 100] {
        let pages = paginate::Pages::new(count, 23);
        for number in 1..=pages.page_count() {
            let page = pages.with_offset(number - 1);
            let cut = paginate_result(result(count), number as u32).unwrap();
            let mut expected = Vec::new();
            if number > 1 {
                expected.push(link("Back Page: ", number as u32 - 1));
            }
            expected.extend((page.start..=page.end).map(option));
            if number != pages.page_count() {
                expected.push(link("Next Page: ", number as u32 + 1));
            }
            assert_eq!(cut.result_menu_option, expected);
        }
    }
}
