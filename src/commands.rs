//! What the backend answers: links completed from the page they point to,
//! and reports of failures to open a browser or to reach a page.
use vstd::prelude::*;

use crate::browser::{display_name, Browser};
use crate::error_reporter::{
    when_prefix, ErrorReporter, ErrorReporterBuilder, ErrorReporterView, ErrorType,
};
use crate::link::{new_link_id, opt_view, Link, LinkView};
use crate::text::lower_of;

verus! {

/// `std::io::Error`, carried through opaque: what an attempt to start a
/// browser failed with.
#[verifier::external_type_specification]
#[verifier::external_body]
pub struct ExIoError(std::io::Error);

/// Relies on `std::io::Error`'s `Display`: the message of the error.
#[verifier::external_body]
fn io_error_message(e: &std::io::Error) -> (r: String) {
    e.to_string()
}

/// Relies on `std::io::Error::kind`: whether the error says that something
/// was not found.
#[verifier::external_body]
fn io_error_is_not_found(e: &std::io::Error) -> (r: bool) {
    e.kind() == std::io::ErrorKind::NotFound
}

/// The moment of a failure to open a link in a browser, as given to the
/// report.
pub open spec fn opening_in(b: Browser) -> Seq<char> {
    "opening the link in "@ + display_name(b)
}

/// The report of a browser that is not installed.
pub open spec fn not_found_report(actual: Seq<char>, b: Browser) -> ErrorReporterView {
    let n = display_name(b);
    ErrorReporterView {
        actual_error: actual,
        why_error: seq![
            "The selected browser "@ + n + " is not available in your system"@,
            "Cannot find the path of "@ + n,
        ],
        how_to_fix: seq![
            "Install "@ + n,
            "Check if the browser "@ + n + " is in your path environment variable"@,
        ],
        error_title: "Browser Not Found"@,
        when_error: when_prefix() + lower_of(opening_in(b)),
        error_type: ErrorType::BrowserNotFound,
    }
}

/// The report of any other failure to open a browser.
pub open spec fn other_report(actual: Seq<char>, b: Browser) -> ErrorReporterView {
    ErrorReporterView {
        actual_error: actual,
        why_error: seq![],
        how_to_fix: seq!["This is unexpected error. So consider reporting this bug"@],
        error_title: "Unknown Error Occurred"@,
        when_error: when_prefix() + lower_of(opening_in(b)),
        error_type: ErrorType::Others,
    }
}

/// The report of a link whose page cannot be reached.
pub open spec fn unreachable_report(actual: Seq<char>) -> ErrorReporterView {
    ErrorReporterView {
        actual_error: actual,
        why_error: seq!["Url is not valid"@, "The website is not working"@],
        how_to_fix: seq![
            "Check if you have entered a valid url or not. An example of a valid url is https:www.github.com"@,
            "Make sure the website is working"@,
        ],
        error_title: "Not Found"@,
        when_error: when_prefix() + lower_of("creating a new link"@),
        error_type: ErrorType::InvalidOrNotFound,
    }
}

fn concat2(a: &str, b: &str) -> (r: String)
    ensures
        r@ == a@ + b@,
{
    let mut s = String::from_str(a);
    s.append(b);
    s
}

fn concat3(a: &str, b: &str, c: &str) -> (r: String)
    ensures
        r@ == a@ + b@ + c@,
{
    let mut s = String::from_str(a);
    s.append(b);
    s.append(c);
    s
}

/// The report of a browser that is not installed.
pub fn report_notfound(actual_error: &str, browser: &Browser) -> (r: ErrorReporter)
    ensures
        r@ == not_found_report(actual_error@, *browser),
{
    let name = browser.to_string();
    let n = name.as_str();
    let why_1 = concat3("The selected browser ", n, " is not available in your system");
    let why_2 = concat2("Cannot find the path of ", n);
    let fix_1 = concat2("Install ", n);
    let fix_2 = concat3("Check if the browser ", n, " is in your path environment variable");
    let when = concat2("opening the link in ", n);
    let r = ErrorReporterBuilder {
        error_title: "Browser Not Found",
        actual_error,
        why_error: vec![why_1.as_str(), why_2.as_str()],
        how_to_fix: vec![fix_1.as_str(), fix_2.as_str()],
        when_error: when.as_str(),
        error_type: ErrorType::BrowserNotFound,
    }.build();
    assert(r@.why_error =~= not_found_report(actual_error@, *browser).why_error);
    assert(r@.how_to_fix =~= not_found_report(actual_error@, *browser).how_to_fix);
    r
}

/// The report of any other failure to open a browser.
pub fn report_others(actual_error: &str, browser: &Browser) -> (r: ErrorReporter)
    ensures
        r@ == other_report(actual_error@, *browser),
{
    let name = browser.to_string();
    let when = concat2("opening the link in ", name.as_str());
    let r = ErrorReporterBuilder {
        error_title: "Unknown Error Occurred",
        actual_error,
        why_error: vec![],
        how_to_fix: vec!["This is unexpected error. So consider reporting this bug"],
        when_error: when.as_str(),
        error_type: ErrorType::Others,
    }.build();
    assert(r@.why_error =~= other_report(actual_error@, *browser).why_error);
    assert(r@.how_to_fix =~= other_report(actual_error@, *browser).how_to_fix);
    r
}

/// The report of a failure to open a link in `browser`: a browser that was
/// not found, or any other failure, with the message of the error.
pub fn report_open_failure(not_found: bool, message: &str, browser: &Browser) -> (r: ErrorReporter)
    ensures
        not_found ==> r@ == not_found_report(message@, *browser),
        !not_found ==> r@ == other_report(message@, *browser),
{
    if not_found {
        report_notfound(message, browser)
    } else {
        report_others(message, browser)
    }
}

/// The answer to an attempt to open a link in `browser`: nothing when it
/// succeeded, else a report of why it failed.
pub fn handle_browser_open(result: Result<(), std::io::Error>, browser: Browser) -> (r: Result<(), ErrorReporter>)
    ensures
        r is Ok <==> result is Ok,
        r matches Err(e) ==> exists|m: Seq<char>|
            e@ == not_found_report(m, browser) || e@ == other_report(m, browser),
{
    match result {
        Ok(()) => Ok(()),
        Err(error) => {
            let message = io_error_message(&error);
            let r = report_open_failure(io_error_is_not_found(&error), message.as_str(), &browser);
            assert(r@ == not_found_report(message@, browser) || r@ == other_report(message@, browser));
            Err(r)
        }
    }
}

/// The report of a link whose page cannot be reached.
pub fn report_unreachable(actual_error: &str) -> (r: ErrorReporter)
    ensures
        r@ == unreachable_report(actual_error@),
{
    let r = ErrorReporterBuilder {
        error_title: "Not Found",
        actual_error,
        why_error: vec!["Url is not valid", "The website is not working"],
        how_to_fix: vec![
            "Check if you have entered a valid url or not. An example of a valid url is https:www.github.com",
            "Make sure the website is working",
        ],
        when_error: "creating a new link",
        error_type: ErrorType::InvalidOrNotFound,
    }.build();
    assert(r@.why_error =~= unreachable_report(actual_error@).why_error);
    assert(r@.how_to_fix =~= unreachable_report(actual_error@).how_to_fix);
    r
}

/// What was read from a page: the address it was finally served from, and
/// its title and description where it has them.
pub struct FetchedPage {
    pub url: String,
    pub title: Option<String>,
    pub description: Option<String>,
}

/// A text that was given, else one that was found, else an empty one.
pub open spec fn given_or_found(given: Option<Seq<char>>, found: Option<Seq<char>>) -> Seq<char> {
    match given {
        Some(g) => g,
        None => match found {
            Some(f) => f,
            None => Seq::empty(),
        },
    }
}

fn pick_text(given: Option<String>, found: Option<String>) -> (r: String)
    ensures
        r@ == given_or_found(opt_view(given), opt_view(found)),
{
    match given {
        Some(g) => g,
        None => match found {
            Some(f) => f,
            None => String::new(),
        },
    }
}

/// A link completed from the page it points to: the page's final address,
/// the title and description that the link lacks taken from the page (empty
/// where the page has none), and a fresh identifier where it has none.
pub fn validated_link(link: Link, page: FetchedPage) -> (r: Link)
    ensures
        r@ == (LinkView {
            id: r@.id,
            url: page.url@,
            title: Some(given_or_found(link@.title, opt_view(page.title))),
            description: Some(given_or_found(link@.description, opt_view(page.description))),
            ..link@
        }),
        r@.id is Some,
        link@.id is Some ==> r@.id == link@.id,
{
    let id = match link.id {
        Some(id) => Some(id),
        None => Some(new_link_id()),
    };
    let title = pick_text(link.title, page.title);
    let description = pick_text(link.description, page.description);
    Link {
        id,
        url: page.url,
        title: Some(title),
        description: Some(description),
        tags: link.tags,
        priority: link.priority,
        browser: link.browser,
        complete: link.complete,
        date: link.date,
    }
}

} // verus!
