use dioxus_shell::head_record::HeadRecord;
use dioxus_shell::opened_urls::{remember, take_opened_urls, OpenedUrls};

#[test]
fn every_element_is_kept_once_in_the_order_it_was_first_put_in() {
    let mut record = HeadRecord::default();
    record.remember("link".to_string());
    record.remember("style".to_string());
    record.remember("style".to_string());
    assert_eq!(
        record.scripts(),
        vec!["link".to_string(), "style".to_string()],
        "An element put in again by a remounted component should not be put into the next page twice."
    );
}

#[test]
fn every_page_that_replaces_another_gets_the_whole_head_back() {
    let mut record = HeadRecord::default();
    record.remember("link".to_string());
    record.remember("style".to_string());
    let first = record.scripts();

    record.remember("style".to_string());
    let second = record.scripts();

    assert_eq!(
        first, second,
        "The second page to replace another should get the same head as the first."
    );
    assert!(
        second.contains(&"link".to_string()),
        "An element its component will not put in again, such as a de-duplicated stylesheet \
         link, should still reach the second replacement."
    );
}

#[test]
fn a_page_that_replaced_nothing_has_nothing_to_get_back() {
    assert!(HeadRecord::default().scripts().is_empty());
}

#[test]
fn a_record_keeps_the_order_of_first_times_over_many_repeats() {
    let mut record = HeadRecord::default();
    for script in ["b", "a", "b", "c", "a", "b", "", "c", ""] {
        record.remember(script.to_string());
    }
    assert_eq!(record.scripts(), ["b", "a", "c", ""]);
}

#[test]
fn more_scripts_only_add_to_the_end() {
    let mut record = HeadRecord::default();
    record.remember("one".to_string());
    record.remember("two".to_string());
    let before = record.scripts();
    record.remember("one".to_string());
    record.remember("three".to_string());
    let after = record.scripts();
    assert_eq!(after[..before.len()], before[..]);
    assert_eq!(after[before.len()..], ["three".to_string()]);
}

#[test]
fn urls_wait_to_be_taken_and_are_handed_out_once() {
    let mut opened = OpenedUrls::new();
    let _ = take_opened_urls(&mut opened);
    assert!(
        take_opened_urls(&mut opened).is_empty(),
        "Taking when nothing has arrived should be no answer rather than a panic."
    );

    remember(&mut opened, vec!["dioxus://early".to_string()]);
    remember(&mut opened, vec!["dioxus://later".to_string()]);
    assert_eq!(
        take_opened_urls(&mut opened),
        vec!["dioxus://early".to_string(), "dioxus://later".to_string()],
        "A URL that arrived before anyone was listening should still be there, in \
         the order it arrived."
    );

    assert!(
        take_opened_urls(&mut opened).is_empty(),
        "Taking the URLs should leave none behind."
    );
}

#[test]
fn urls_that_arrive_between_takes_are_each_handed_out_once() {
    let mut opened = OpenedUrls::new();
    let mut handed_out: Vec<String> = Vec::new();
    remember(&mut opened, vec!["a".to_string(), "b".to_string()]);
    handed_out.extend(take_opened_urls(&mut opened));
    remember(&mut opened, vec![]);
    remember(&mut opened, vec!["a".to_string()]);
    remember(&mut opened, vec!["c".to_string(), "d".to_string()]);
    handed_out.extend(take_opened_urls(&mut opened));
    handed_out.extend(take_opened_urls(&mut opened));
    assert_eq!(handed_out, ["a", "b", "a", "c", "d"]);
}
