//! The decisions of the views: which popup shows, what a click changes.
use vstd::prelude::*;

use crate::error_reporter::{
    strings_view, when_prefix, ErrorReporter, ErrorReporterBuilder, ErrorReporterView, ErrorType,
};
use crate::text::lower_of;
use crate::text::{split_words, words_of};

verus! {

/// The popup on screen.
#[derive(Debug, Clone, Copy, PartialEq, Eq, Structural)]
pub enum PopupBox {
    CreateLink,
    EditLink,
    DisplayError,
    Closed,
}

impl Default for PopupBox {
    fn default() -> (r: PopupBox)
        ensures
            r == PopupBox::Closed,
    {
        PopupBox::Closed
    }
}

/// How grave a shown error is.
#[derive(Debug, Clone, Copy, PartialEq, Eq, Structural)]
pub enum DisplayErrorClass {
    Warn,
    Error,
}

/// How a button under a shown error looks.
#[derive(Debug, Clone, Copy, PartialEq, Eq, Structural)]
pub enum DisplayErrorButtonType {
    Safe,
    Danger,
}

/// What a button under a shown error does once pressed.
#[derive(Debug, Clone, Copy, PartialEq, Eq, Structural)]
pub enum ErrorButtonAction {
    /// Close the popup and forget the error.
    Dismiss,
    /// Save the new link anyway, with an empty title and description.
    AddLinkAnyway,
}

/// A button under a shown error.
#[derive(Debug, Clone, PartialEq, Eq)]
pub struct DisplayErrorButton {
    pub name: String,
    pub button_type: DisplayErrorButtonType,
    pub action: ErrorButtonAction,
}

/// An error as the error popup shows it, with the options offered.
#[derive(Debug, Clone, PartialEq, Eq)]
pub struct DisplayErrorInnerData {
    pub class: DisplayErrorClass,
    pub error_reporter: ErrorReporter,
    pub options_message: Option<String>,
    pub options_buttons: Option<Vec<DisplayErrorButton>>,
}

/// The text that offers to save a link whose page could not be reached.
pub open spec fn add_anyway_message() -> Seq<char> {
    "You can still add the link to the collections. Do you want to add it?"@
}

/// The sample error shown while developing.
pub open spec fn sample_report() -> ErrorReporterView {
    ErrorReporterView {
        actual_error: "thread 'main' panicked at 'called `Option::unwrap()` on a `None` value', src/main.rs:4:25 note: run with `RUST_BACKTRACE=1` environment variable to display a backtrace"@,
        why_error: seq!["You have not given a value"@],
        how_to_fix: seq!["Give a value to the input"@, "The value must be valid string"@],
        error_title: "Value not found"@,
        when_error: when_prefix() + lower_of("getting a input from you"@),
        error_type: ErrorType::InvalidOrNotFound,
    }
}

impl DisplayErrorInnerData {
    /// An error shown with no options.
    pub fn plain(error_reporter: ErrorReporter) -> (r: DisplayErrorInnerData)
        ensures
            r.class == DisplayErrorClass::Error,
            r.error_reporter@ == error_reporter@,
            r.options_message is None,
            r.options_buttons is None,
    {
        DisplayErrorInnerData {
            class: DisplayErrorClass::Error,
            error_reporter,
            options_message: None,
            options_buttons: None,
        }
    }

    /// A new link's page that could not be reached, with a dangerous button
    /// `Add` that saves the link anyway.
    pub fn add_anyway(error_reporter: ErrorReporter) -> (r: DisplayErrorInnerData)
        ensures
            r.class == DisplayErrorClass::Error,
            r.error_reporter@ == error_reporter@,
            r.options_message matches Some(m) && m@ == add_anyway_message(),
            r.options_buttons matches Some(b) && b@.len() == 1 && b@[0].name@ == "Add"@
                && b@[0].button_type == DisplayErrorButtonType::Danger
                && b@[0].action == ErrorButtonAction::AddLinkAnyway,
    {
        let button = DisplayErrorButton {
            name: String::from_str("Add"),
            button_type: DisplayErrorButtonType::Danger,
            action: ErrorButtonAction::AddLinkAnyway,
        };
        DisplayErrorInnerData {
            class: DisplayErrorClass::Error,
            error_reporter,
            options_message: Some(String::from_str("You can still add the link to the collections. Do you want to add it?")),
            options_buttons: Some(vec![button]),
        }
    }

    /// The sample error shown while developing, with a safe button
    /// `Type again` that closes it.
    pub fn get_default() -> (r: DisplayErrorInnerData)
        ensures
            r.class == DisplayErrorClass::Error,
            r.error_reporter@ == sample_report(),
            r.options_message matches Some(m) && m@ == "You can again type your input"@,
            r.options_buttons matches Some(b) && b@.len() == 1 && b@[0].name@ == "Type again"@
                && b@[0].button_type == DisplayErrorButtonType::Safe
                && b@[0].action == ErrorButtonAction::Dismiss,
    {
        let error_reporter = ErrorReporterBuilder {
            actual_error: "thread 'main' panicked at 'called `Option::unwrap()` on a `None` value', src/main.rs:4:25 note: run with `RUST_BACKTRACE=1` environment variable to display a backtrace",
            why_error: vec!["You have not given a value"],
            how_to_fix: vec!["Give a value to the input", "The value must be valid string"],
            error_title: "Value not found",
            when_error: "getting a input from you",
            error_type: ErrorType::InvalidOrNotFound,
        }.build();
        assert(error_reporter@.why_error =~= sample_report().why_error);
        assert(error_reporter@.how_to_fix =~= sample_report().how_to_fix);
        let button = DisplayErrorButton {
            name: String::from_str("Type again"),
            button_type: DisplayErrorButtonType::Safe,
            action: ErrorButtonAction::Dismiss,
        };
        DisplayErrorInnerData {
            class: DisplayErrorClass::Error,
            error_reporter,
            options_message: Some(String::from_str("You can again type your input")),
            options_buttons: Some(vec![button]),
        }
    }

    /// The style class of the popup: `error` or `warn`.
    pub fn class_name(&self) -> (r: &'static str)
        ensures
            self.class == DisplayErrorClass::Error ==> r@ == "error"@,
            self.class == DisplayErrorClass::Warn ==> r@ == "warn"@,
    {
        match self.class {
            DisplayErrorClass::Error => "error",
            DisplayErrorClass::Warn => "warn",
        }
    }

    /// The title of the popup: `Error - ` and the title of the error.
    pub fn popup_title(&self) -> (r: String)
        ensures
            r@ == "Error - "@ + self.error_reporter@.error_title,
    {
        let mut s = String::from_str("Error - ");
        s.append(self.error_reporter.error_title());
        s
    }
}

/// Whether a click on the background hides the popup: only once the popup
/// is ready and while one is shown.
pub fn background_click_hides(ready: bool, state: PopupBox) -> (r: bool)
    ensures
        r == (ready && state != PopupBox::Closed),
{
    ready && state != PopupBox::Closed
}

/// Whether the background is dimmed: while a popup is shown.
pub fn background_dimmed(state: PopupBox) -> (r: bool)
    ensures
        r == (state != PopupBox::Closed),
{
    state != PopupBox::Closed
}

/// Whether a "take it from the page" checkbox is ticked after a click: a
/// ticked box is cleared; a clear box is ticked only while its input is
/// empty.
pub fn checkbox(ticked: bool, input_value_is_empty: bool) -> (r: bool)
    ensures
        r == (!ticked && input_value_is_empty),
{
    if !ticked {
        input_value_is_empty
    } else {
        false
    }
}

/// The value a choice box shows first: the value it was given, or the first
/// item of its list when that value is empty.
pub fn boxx(value: &String, list: &Vec<String>) -> (r: String)
    requires
        value@.len() > 0 || list@.len() > 0,
    ensures
        value@.len() > 0 ==> r@ == value@,
        value@.len() == 0 ==> r@ == list@[0]@,
{
    if value.as_str().unicode_len() > 0 {
        value.clone()
    } else {
        list[0].clone()
    }
}

/// Which link has its body open after a click on the arrow of link
/// `clicked`: a click on the open link closes it, a click on another opens
/// that one.
pub fn toggle_open_link(opened: Option<usize>, clicked: usize) -> (r: Option<usize>)
    ensures
        opened == Some(clicked) ==> r is None,
        opened != Some(clicked) ==> r == Some(clicked),
{
    match opened {
        Some(o) => if o == clicked {
            None
        } else {
            Some(clicked)
        },
        None => Some(clicked),
    }
}

/// Whether a double click on the title of link `clicked` opens it in its
/// browser: unless its body is open, where the `Open` button does that.
pub fn double_click_opens(opened: Option<usize>, clicked: usize) -> (r: bool)
    ensures
        r == (opened != Some(clicked)),
{
    match opened {
        Some(o) => o != clicked,
        None => true,
    }
}

/// Words joined with one space between each two.
pub open spec fn join_words(ws: Seq<Seq<char>>) -> Seq<char>
    decreases ws.len(),
{
    if ws.len() == 0 {
        Seq::empty()
    } else if ws.len() == 1 {
        ws[0]
    } else {
        join_words(ws.drop_last()) + " "@ + ws.last()
    }
}

/// A sequence without its last item, if it has one.
pub open spec fn without_last<A>(s: Seq<A>) -> Seq<A> {
    if s.len() == 0 {
        s
    } else {
        s.drop_last()
    }
}

/// The text of tags with the word being typed replaced by a chosen tag.
pub fn complete_tag(text: &str, tag: &str) -> (r: String)
    ensures
        r@ == join_words(without_last(words_of(text@)).push(tag@)),
{
    let words = split_words(text);
    let ghost ws = without_last(words_of(text@)).push(tag@);
    let keep: usize = if words.len() == 0 {
        0
    } else {
        words.len() - 1
    };
    let mut r = String::new();
    let mut k: usize = 0;
    while k < keep
        invariant
            keep <= words@.len(),
            strings_view(words@) == words_of(text@),
            keep == without_last(words_of(text@)).len(),
            ws == without_last(words_of(text@)).push(tag@),
            k <= keep,
            r@ == join_words(ws.take(k as int)),
        decreases keep - k,
    {
        assert(ws.take(k + 1).drop_last() =~= ws.take(k as int));
        assert(ws[k as int] == words@[k as int]@);
        if k > 0 {
            r.append(" ");
        }
        r.append(words[k].as_str());
        k = k + 1;
        assert(r@ =~= join_words(ws.take(k as int)));
    }
    assert(ws.take(keep + 1).drop_last() =~= ws.take(keep as int));
    assert(ws.take(keep + 1) =~= ws);
    if keep > 0 {
        r.append(" ");
    }
    r.append(tag);
    assert(r@ =~= join_words(ws));
    r
}

} // verus!
