use dsaver::browser::Browser;
use dsaver::commands::{
    handle_browser_open, report_notfound, report_open_failure, report_others, report_unreachable,
    validated_link, FetchedPage,
};
use dsaver::error_reporter::{ErrorReporterBuilder, ErrorType};
use dsaver::link::Link;

#[test]
fn build_prefixes_and_lowercases_the_moment() {
    let r = ErrorReporterBuilder {
        actual_error: "No such file",
        why_error: vec!["The file details.md was not found"],
        how_to_fix: vec!["Create details.md", "Press Show again"],
        error_title: "File not found",
        when_error: "Getting The File",
        error_type: ErrorType::FileNotFound,
    }
    .build();
    assert_eq!(r.actual_error(), "No such file");
    assert_eq!(r.why_error(), &vec![String::from("The file details.md was not found")]);
    assert_eq!(
        r.how_to_fix(),
        &vec![String::from("Create details.md"), String::from("Press Show again")]
    );
    assert_eq!(r.error_title(), "File not found");
    assert_eq!(r.when_error(), "Error occurred when getting the file");
    assert_eq!(r.error_type(), &ErrorType::FileNotFound);
}

#[test]
fn build_with_empty_lists() {
    let r = ErrorReporterBuilder {
        actual_error: "",
        why_error: vec![],
        how_to_fix: vec![],
        error_title: "",
        when_error: "",
        error_type: ErrorType::Others,
    }
    .build();
    assert!(r.why_error().is_empty());
    assert!(r.how_to_fix().is_empty());
    assert_eq!(r.when_error(), "Error occurred when ");
}

#[test]
fn report_of_missing_browser() {
    let r = report_notfound("program not found", &Browser::Chrome);
    assert_eq!(r.error_title(), "Browser Not Found");
    assert_eq!(r.actual_error(), "program not found");
    assert_eq!(
        r.why_error(),
        &vec![
            String::from("The selected browser Chrome is not available in your system"),
            String::from("Cannot find the path of Chrome"),
        ]
    );
    assert_eq!(
        r.how_to_fix(),
        &vec![
            String::from("Install Chrome"),
            String::from("Check if the browser Chrome is in your path environment variable"),
        ]
    );
    assert_eq!(r.when_error(), "Error occurred when opening the link in chrome");
    assert_eq!(r.error_type(), &ErrorType::BrowserNotFound);
}

#[test]
fn report_of_other_failure() {
    let r = report_others("permission denied", &Browser::Default);
    assert_eq!(r.error_title(), "Unknown Error Occurred");
    assert!(r.why_error().is_empty());
    assert_eq!(
        r.how_to_fix(),
        &vec![String::from("This is unexpected error. So consider reporting this bug")]
    );
    assert_eq!(r.when_error(), "Error occurred when opening the link in default browser");
    assert_eq!(r.error_type(), &ErrorType::Others);
}

#[test]
fn open_failure_picks_the_report() {
    let a = report_open_failure(true, "x", &Browser::Brave);
    assert_eq!(a.error_type(), &ErrorType::BrowserNotFound);
    let b = report_open_failure(false, "x", &Browser::Brave);
    assert_eq!(b.error_type(), &ErrorType::Others);
}

#[test]
fn handle_open_results() {
    assert_eq!(handle_browser_open(Ok(()), Browser::Firefox), Ok(()));
    let nf = std::io::Error::new(std::io::ErrorKind::NotFound, "no firefox");
    let r = handle_browser_open(Err(nf), Browser::Firefox).unwrap_err();
    assert_eq!(r.error_type(), &ErrorType::BrowserNotFound);
    assert_eq!(r.actual_error(), "no firefox");
    let other = std::io::Error::new(std::io::ErrorKind::PermissionDenied, "denied");
    let r = handle_browser_open(Err(other), Browser::Firefox).unwrap_err();
    assert_eq!(r.error_type(), &ErrorType::Others);
    assert_eq!(r.actual_error(), "denied");
}

#[test]
fn report_of_unreachable_page() {
    let r = report_unreachable("dns error");
    assert_eq!(r.error_title(), "Not Found");
    assert_eq!(r.actual_error(), "dns error");
    assert_eq!(
        r.why_error(),
        &vec![String::from("Url is not valid"), String::from("The website is not working")]
    );
    assert_eq!(r.how_to_fix().len(), 2);
    assert_eq!(r.when_error(), "Error occurred when creating a new link");
    assert_eq!(r.error_type(), &ErrorType::InvalidOrNotFound);
}

#[test]
fn validated_link_fills_what_is_missing() {
    let mut link = Link::new("github.com").title("Mine");
    link.id = None;
    let page = FetchedPage {
        url: String::from("https://github.com/"),
        title: Some(String::from("GitHub")),
        description: None,
    };
    let r = validated_link(link, page);
    assert!(r.id.is_some());
    assert_eq!(r.url, "https://github.com/");
    assert_eq!(r.title, Some(String::from("Mine")));
    assert_eq!(r.description, Some(String::new()));
    assert_eq!(r.tags, vec![String::from("GeneralTag")]);
}

#[test]
fn validated_link_keeps_its_id() {
    let link = Link::new("a.org").id(42);
    let page = FetchedPage {
        url: String::from("https://a.org/"),
        title: None,
        description: Some(String::from("About A")),
    };
    let r = validated_link(link, page);
    assert_eq!(r.id, Some(42));
    assert_eq!(r.title, Some(String::new()));
    assert_eq!(r.description, Some(String::from("About A")));
}
