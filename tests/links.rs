use dsaver::browser::{Browser, BrowserOpenError};
use dsaver::link::{format_date, Link, LinkSavingError};

#[test]
fn new_link_defaults() {
    let l = Link::new("https://example.com");
    assert!(l.id.is_some());
    assert_eq!(l.url, "https://example.com");
    assert_eq!(l.title, None);
    assert_eq!(l.description, None);
    assert_eq!(l.tags, vec![String::from("GeneralTag")]);
    assert_eq!(l.priority, 'A');
    assert_eq!(l.browser, Browser::Default);
    assert!(!l.complete);
    assert_eq!(l.date, "");
}

#[test]
fn new_links_get_different_ids() {
    assert_ne!(Link::new("a").id, Link::new("a").id);
}

#[test]
fn new_with_date_writes_the_date() {
    let l = Link::new_with_date("x", 15, 8, 2022);
    assert_eq!(l.date, "15 September 2022");
    assert_eq!(format_date(5, 0, 2023), "5 January 2023");
    assert_eq!(format_date(31, 11, 0), "31 December 0");
    assert_eq!(format_date(4294967295, 5, 10), "4294967295 June 10");
}

#[test]
fn tags_from_text_keep_each_word_once() {
    let l = Link::new("x").tags("rust  web rust\tcode");
    assert_eq!(
        l.tags,
        vec![String::from("rust"), String::from("web"), String::from("code")]
    );
}

#[test]
fn tags_from_blank_text_give_the_general_tag() {
    let l = Link::new("x").tags("   ");
    assert_eq!(l.tags, vec![String::from("GeneralLink")]);
    let l = Link::new("x").tags_vec(vec![]);
    assert_eq!(l.tags, vec![String::from("GeneralLink")]);
    let l = Link::new("x").tags_vec(vec![String::from("b"), String::from("b")]);
    assert_eq!(l.tags, vec![String::from("b"), String::from("b")]);
}

#[test]
fn builders_set_one_field() {
    let l = Link::new("x")
        .id(7)
        .url("y")
        .title("T")
        .description("D")
        .priority('C')
        .browser(Browser::Brave)
        .complete(true)
        .date("today");
    assert_eq!(l.id, Some(7));
    assert_eq!(l.url, "y");
    assert_eq!(l.title, Some(String::from("T")));
    assert_eq!(l.description, Some(String::from("D")));
    assert_eq!(l.priority, 'C');
    assert_eq!(l.browser, Browser::Brave);
    assert!(l.complete);
    assert_eq!(l.date, "today");
}

#[test]
fn browser_names() {
    assert_eq!(
        Browser::get_vec(),
        vec![
            String::from("Default"),
            String::from("Firefox"),
            String::from("Chrome"),
            String::from("Brave")
        ]
    );
    assert_eq!(Browser::Chrome.get_browser_name_windows(), Some("chrome"));
    assert_eq!(Browser::Chrome.get_browser_name_linux(), Some("google-chrome"));
    assert_eq!(Browser::Chrome.get_browser_name_macos(), Some("Google Chrome"));
    assert_eq!(Browser::Brave.get_browser_name_linux(), Some("brave-browser"));
    assert_eq!(Browser::Firefox.get_browser_name_macos(), Some("Firefox"));
    assert_eq!(Browser::Default.get_browser_name_windows(), None);
    assert_eq!(Browser::Default.get_browser_name_linux(), None);
    assert_eq!(Browser::Default.get_browser_name_macos(), None);
    assert_eq!(Browser::Default.to_string(), "Default Browser");
    assert_eq!(Browser::Brave.to_string(), "Brave");
    assert_eq!(Browser::default(), Browser::Default);
}

#[test]
fn browser_from_name_in_any_case() {
    assert_eq!(Browser::from_name("firefox"), Browser::Firefox);
    assert_eq!(Browser::from_name("FireFox"), Browser::Firefox);
    assert_eq!(Browser::from_name("CHROME"), Browser::Chrome);
    assert_eq!(Browser::from_name("Brave"), Browser::Brave);
    assert_eq!(Browser::from_name("opera"), Browser::Default);
    assert_eq!(Browser::from_name(""), Browser::Default);
}

#[test]
fn browser_from_sample() {
    assert_eq!(Browser::from_sample(0), Browser::Firefox);
    assert_eq!(Browser::from_sample(1), Browser::Chrome);
    assert_eq!(Browser::from_sample(2), Browser::Default);
    assert_eq!(Browser::from_sample(3), Browser::Brave);
}

#[test]
fn error_enums() {
    assert_ne!(BrowserOpenError::NotFound, BrowserOpenError::Other(String::from("x")));
    assert_eq!(LinkSavingError::WebpageNotFound, LinkSavingError::WebpageNotFound);
}
