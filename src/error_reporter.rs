//! A report of an error, with enough context to show it to a user.
use vstd::prelude::*;

use crate::text::{lower_of, lowercase};

verus! {

/// The kinds of error that the backend reports.
#[derive(Debug, Clone, Copy, PartialEq, Eq, Hash, Structural)]
#[non_exhaustive]
pub enum ErrorType {
    /// The url is invalid or the website is not accessible.
    InvalidOrNotFound,
    /// The website answered that the page does not exist.
    PageNotFound,
    /// The selected browser is not installed.
    BrowserNotFound,
    /// A file was not found.
    FileNotFound,
    /// A directory was not found.
    DirectoryNotFound,
    /// Any other error.
    Others,
}

/// What a report holds, as mathematical values.
pub struct ErrorReporterView {
    pub actual_error: Seq<char>,
    pub why_error: Seq<Seq<char>>,
    pub how_to_fix: Seq<Seq<char>>,
    pub error_title: Seq<char>,
    pub when_error: Seq<char>,
    pub error_type: ErrorType,
}

/// An error report: the error itself, why it happened, how to fix it, a
/// title, when it happened and its kind.
///
/// Build one with [`ErrorReporterBuilder::build`].
#[derive(Debug, Clone, PartialEq, Eq, Hash)]
pub struct ErrorReporter {
    actual_error: String,
    why_error: Vec<String>,
    how_to_fix: Vec<String>,
    error_title: String,
    when_error: String,
    error_type: ErrorType,
}

/// The views of a vector of strings.
pub open spec fn strings_view(v: Seq<String>) -> Seq<Seq<char>> {
    v.map_values(|s: String| s@)
}

/// The views of a vector of string slices.
pub open spec fn strs_view(v: Seq<&str>) -> Seq<Seq<char>> {
    v.map_values(|s: &str| s@)
}

/// The prefix that [`ErrorReporterBuilder::build`] puts before the moment of
/// the error.
pub open spec fn when_prefix() -> Seq<char> {
    "Error occurred when "@
}

impl View for ErrorReporter {
    type V = ErrorReporterView;

    closed spec fn view(&self) -> ErrorReporterView {
        ErrorReporterView {
            actual_error: self.actual_error@,
            why_error: strings_view(self.why_error@),
            how_to_fix: strings_view(self.how_to_fix@),
            error_title: self.error_title@,
            when_error: self.when_error@,
            error_type: self.error_type,
        }
    }
}

impl ErrorReporter {
    /// The error itself, such as a panic message.
    pub fn actual_error(&self) -> (r: &str)
        ensures
            r@ == self@.actual_error,
    {
        self.actual_error.as_str()
    }

    /// The reasons why the error may have happened.
    pub fn why_error(&self) -> (r: &Vec<String>)
        ensures
            strings_view(r@) == self@.why_error,
    {
        &self.why_error
    }

    /// The steps that fix the error.
    pub fn how_to_fix(&self) -> (r: &Vec<String>)
        ensures
            strings_view(r@) == self@.how_to_fix,
    {
        &self.how_to_fix
    }

    /// The title of the error.
    pub fn error_title(&self) -> (r: &str)
        ensures
            r@ == self@.error_title,
    {
        self.error_title.as_str()
    }

    /// When the error happened, as a sentence.
    pub fn when_error(&self) -> (r: &str)
        ensures
            r@ == self@.when_error,
    {
        self.when_error.as_str()
    }

    /// The kind of the error.
    pub fn error_type(&self) -> (r: &ErrorType)
        ensures
            *r == self@.error_type,
    {
        &self.error_type
    }
}

/// The parts of an [`ErrorReporter`], borrowed.
#[derive(Debug, Clone, PartialEq, Eq, Hash)]
pub struct ErrorReporterBuilder<'a> {
    /// The error itself, such as a panic message.
    pub actual_error: &'a str,
    /// The reasons why the error may have happened.
    pub why_error: Vec<&'a str>,
    /// The steps that fix the error.
    pub how_to_fix: Vec<&'a str>,
    /// The title of the error.
    pub error_title: &'a str,
    /// When the error happened; [`build`](Self::build) puts
    /// `Error occurred when ` before it, in lower case.
    pub when_error: &'a str,
    /// The kind of the error.
    pub error_type: ErrorType,
}

fn to_strings(v: &Vec<&str>) -> (r: Vec<String>)
    ensures
        strings_view(r@) == strs_view(v@),
{
    let mut r: Vec<String> = Vec::new();
    let mut i: usize = 0;
    while i < v.len()
        invariant
            i <= v@.len(),
            r@.len() == i,
            forall|k: int| 0 <= k < i ==> #[trigger] r@[k]@ == v@[k]@,
        decreases v@.len() - i,
    {
        r.push(String::from_str(v[i]));
        i = i + 1;
    }
    assert(strings_view(r@) =~= strs_view(v@));
    r
}

impl<'a> ErrorReporterBuilder<'a> {
    /// Makes the report: each part copied, and the moment of the error in
    /// lower case after `Error occurred when `.
    pub fn build(&self) -> (r: ErrorReporter)
        ensures
            r@.actual_error == self.actual_error@,
            r@.why_error == strs_view(self.why_error@),
            r@.how_to_fix == strs_view(self.how_to_fix@),
            r@.error_title == self.error_title@,
            r@.when_error == when_prefix() + lower_of(self.when_error@),
            r@.error_type == self.error_type,
    {
        let lower = lowercase(self.when_error);
        let mut when = String::from_str("Error occurred when ");
        when.append(lower.as_str());
        ErrorReporter {
            actual_error: String::from_str(self.actual_error),
            why_error: to_strings(&self.why_error),
            how_to_fix: to_strings(&self.how_to_fix),
            error_title: String::from_str(self.error_title),
            when_error: when,
            error_type: self.error_type,
        }
    }
}

} // verus!
