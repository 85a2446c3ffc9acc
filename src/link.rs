//! A saved link and the builder methods that fill it.
use vstd::prelude::*;

use crate::browser::Browser;
use crate::error_reporter::strings_view;
use crate::text::{dedup, lemma_dedup_distinct, split_words, unique_strings, words_of};

verus! {

/// A saved link.
#[derive(Debug, Clone, Hash)]
pub struct Link {
    /// The identifier of the link, a UUID as a 128-bit number.
    pub id: Option<u128>,
    /// The address of the page.
    pub url: String,
    /// The title of the page.
    pub title: Option<String>,
    /// The description of the page.
    pub description: Option<String>,
    /// The tags the user gave the link.
    pub tags: Vec<String>,
    /// The priority, a letter.
    pub priority: char,
    /// The browser the link opens in.
    pub browser: Browser,
    /// Whether the user is done with the link.
    pub complete: bool,
    /// The day the link was saved, as text.
    pub date: String,
}

/// What a link holds, as mathematical values.
pub struct LinkView {
    pub id: Option<u128>,
    pub url: Seq<char>,
    pub title: Option<Seq<char>>,
    pub description: Option<Seq<char>>,
    pub tags: Seq<Seq<char>>,
    pub priority: char,
    pub browser: Browser,
    pub complete: bool,
    pub date: Seq<char>,
}

/// The view of an optional string.
pub open spec fn opt_view(s: Option<String>) -> Option<Seq<char>> {
    match s {
        Some(t) => Some(t@),
        None => None,
    }
}

impl View for Link {
    type V = LinkView;

    open spec fn view(&self) -> LinkView {
        LinkView {
            id: self.id,
            url: self.url@,
            title: opt_view(self.title),
            description: opt_view(self.description),
            tags: strings_view(self.tags@),
            priority: self.priority,
            browser: self.browser,
            complete: self.complete,
            date: self.date@,
        }
    }
}

fn eq_opt_string(a: &Option<String>, b: &Option<String>) -> (r: bool)
    ensures
        r == (opt_view(*a) == opt_view(*b)),
{
    match (a, b) {
        (Some(x), Some(y)) => *x == *y,
        (None, None) => true,
        _ => false,
    }
}

fn eq_strings(a: &Vec<String>, b: &Vec<String>) -> (r: bool)
    ensures
        r == (strings_view(a@) == strings_view(b@)),
{
    if a.len() != b.len() {
        return false;
    }
    let mut k: usize = 0;
    while k < a.len()
        invariant
            a@.len() == b@.len(),
            k <= a@.len(),
            forall|j: int| 0 <= j < k ==> a@[j]@ == b@[j]@,
        decreases a@.len() - k,
    {
        if a[k] != b[k] {
            assert(strings_view(a@)[k as int] != strings_view(b@)[k as int]);
            return false;
        }
        k = k + 1;
    }
    assert(strings_view(a@) =~= strings_view(b@));
    true
}

fn copy_opt_string(s: &Option<String>) -> (r: Option<String>)
    ensures
        opt_view(r) == opt_view(*s),
{
    match s {
        Some(t) => Some(t.clone()),
        None => None,
    }
}

fn copy_strings(v: &Vec<String>) -> (r: Vec<String>)
    ensures
        strings_view(r@) == strings_view(v@),
{
    let mut r: Vec<String> = Vec::new();
    let mut k: usize = 0;
    while k < v.len()
        invariant
            k <= v@.len(),
            r@.len() == k,
            forall|j: int| 0 <= j < k ==> #[trigger] r@[j]@ == v@[j]@,
        decreases v@.len() - k,
    {
        r.push(v[k].clone());
        k = k + 1;
    }
    assert(strings_view(r@) =~= strings_view(v@));
    r
}

impl Link {
    /// A copy of the link.
    pub fn copy(&self) -> (r: Link)
        ensures
            r@ == self@,
    {
        Link {
            id: self.id,
            url: self.url.clone(),
            title: copy_opt_string(&self.title),
            description: copy_opt_string(&self.description),
            tags: copy_strings(&self.tags),
            priority: self.priority,
            browser: self.browser,
            complete: self.complete,
            date: self.date.clone(),
        }
    }
}

impl PartialEq for Link {
    fn eq(&self, other: &Link) -> (r: bool) {
        self.id == other.id && self.url == other.url && eq_opt_string(&self.title, &other.title)
            && eq_opt_string(&self.description, &other.description) && eq_strings(&self.tags, &other.tags)
            && self.priority == other.priority && self.browser == other.browser
            && self.complete == other.complete && self.date == other.date
    }
}

impl vstd::std_specs::cmp::PartialEqSpecImpl for Link {
    open spec fn obeys_eq_spec() -> bool {
        true
    }

    open spec fn eq_spec(&self, other: &Link) -> bool {
        self@ == other@
    }
}

impl Eq for Link {
}

/// Possible errors when saving a link.
#[derive(Debug, Clone, Copy, PartialEq, Eq, Structural)]
pub enum LinkSavingError {
    WebpageNotFound,
}

/// The tags of a new link.
pub open spec fn new_link_tags() -> Seq<Seq<char>> {
    seq!["GeneralTag"@]
}

/// The tags a link gets: the given ones, or `GeneralLink` when none is given.
pub open spec fn tags_or_default(tags: Seq<Seq<char>>) -> Seq<Seq<char>> {
    if tags.len() == 0 {
        seq!["GeneralLink"@]
    } else {
        tags
    }
}

/// The tags written in a text: its words, each kept once.
pub open spec fn tags_of_text(text: Seq<char>) -> Seq<Seq<char>> {
    tags_or_default(dedup(words_of(text)))
}

/// A link as [`Link::new`] makes it, but for its identifier and date.
pub open spec fn is_new_link(l: LinkView, url: Seq<char>) -> bool {
    &&& l.id is Some
    &&& l.url == url
    &&& l.title is None
    &&& l.description is None
    &&& l.tags == new_link_tags()
    &&& l.priority == 'A'
    &&& l.browser == Browser::Default
    &&& !l.complete
}

/// The names of the months, from January.
pub open spec fn month_names() -> Seq<Seq<char>> {
    seq![
        "January"@, "February"@, "March"@, "April"@, "May"@, "June"@,
        "July"@, "August"@, "September"@, "October"@, "November"@, "December"@,
    ]
}

/// A decimal digit as a character.
pub open spec fn digit_char(d: nat) -> char {
    seq!['0', '1', '2', '3', '4', '5', '6', '7', '8', '9'][d as int]
}

/// A number in decimal notation.
pub open spec fn decimal(n: nat) -> Seq<char>
    decreases n,
{
    if n < 10 {
        seq![digit_char(n)]
    } else {
        decimal(n / 10).push(digit_char(n % 10))
    }
}

/// A date written as `15 September 2022`; `month` counts from zero.
pub open spec fn date_text(day: nat, month: int, year: nat) -> Seq<char> {
    decimal(day) + " "@ + month_names()[month] + " "@ + decimal(year)
}

/// The tags read from a text hold no tag twice.
pub proof fn lemma_text_tags_distinct(text: Seq<char>)
    ensures
        forall|i: int, j: int|
            0 <= i < j < tags_of_text(text).len() ==> tags_of_text(text)[i] != tags_of_text(text)[j],
{
    lemma_dedup_distinct(words_of(text));
}

/// Relies on `uuid::Uuid::new_v4`: a random UUID, as a 128-bit number.
#[verifier::external_body]
pub(crate) fn new_link_id() -> (r: u128) {
    uuid::Uuid::new_v4().as_u128()
}

fn digit_str(d: u32) -> (r: &'static str)
    requires
        d < 10,
    ensures
        r@ == seq![digit_char(d as nat)],
{
    proof {
        reveal_strlit("0");
        reveal_strlit("1");
        reveal_strlit("2");
        reveal_strlit("3");
        reveal_strlit("4");
        reveal_strlit("5");
        reveal_strlit("6");
        reveal_strlit("7");
        reveal_strlit("8");
        reveal_strlit("9");
    }
    let r = match d {
        0 => "0",
        1 => "1",
        2 => "2",
        3 => "3",
        4 => "4",
        5 => "5",
        6 => "6",
        7 => "7",
        8 => "8",
        _ => "9",
    };
    assert(r@ =~= seq![digit_char(d as nat)]);
    r
}

fn append_decimal(s: &mut String, n: u32)
    ensures
        final(s)@ == old(s)@ + decimal(n as nat),
    decreases n,
{
    if n >= 10 {
        append_decimal(s, n / 10);
    }
    s.append(digit_str(n % 10));
    assert(final(s)@ =~= old(s)@ + decimal(n as nat));
}

fn month_name(month: u32) -> (r: &'static str)
    requires
        month < 12,
    ensures
        r@ == month_names()[month as int],
{
    match month {
        0 => "January",
        1 => "February",
        2 => "March",
        3 => "April",
        4 => "May",
        5 => "June",
        6 => "July",
        7 => "August",
        8 => "September",
        9 => "October",
        10 => "November",
        _ => "December",
    }
}

/// The text of a date: the day, the name of the month and the year, with a
/// space between; `month` counts from zero.
pub fn format_date(day: u32, month: u32, year: u32) -> (r: String)
    requires
        month < 12,
    ensures
        r@ == date_text(day as nat, month as int, year as nat),
{
    let mut s = String::new();
    append_decimal(&mut s, day);
    s.append(" ");
    s.append(month_name(month));
    s.append(" ");
    append_decimal(&mut s, year);
    assert(s@ =~= date_text(day as nat, month as int, year as nat));
    s
}

fn general_tags(name: &str) -> (r: Vec<String>)
    ensures
        strings_view(r@) == seq![name@],
{
    let r = vec![String::from_str(name)];
    assert(strings_view(r@) =~= seq![name@]);
    r
}

impl Link {
    /// A new link to `url`, with a fresh identifier, the tag `GeneralTag`,
    /// priority `A`, the default browser and no date.
    pub fn new(url: &str) -> (r: Link)
        ensures
            is_new_link(r@, url@),
            r@.date.len() == 0,
    {
        Link {
            id: Some(new_link_id()),
            url: String::from_str(url),
            title: None,
            description: None,
            tags: general_tags("GeneralTag"),
            priority: 'A',
            browser: Browser::default(),
            complete: false,
            date: String::new(),
        }
    }

    /// A new link to `url`, as [`new`](Self::new) makes it, dated with the
    /// given day; `month` counts from zero.
    pub fn new_with_date(url: &str, day: u32, month: u32, year: u32) -> (r: Link)
        requires
            month < 12,
        ensures
            is_new_link(r@, url@),
            r@.date == date_text(day as nat, month as int, year as nat),
    {
        Link::new(url).date(format_date(day, month, year).as_str())
    }

    /// The link with the given identifier.
    pub fn id(self, id: u128) -> (r: Link)
        ensures
            r@ == (LinkView { id: Some(id), ..self@ }),
    {
        Link { id: Some(id), ..self }
    }

    /// The link with the given address.
    pub fn url(self, url: &str) -> (r: Link)
        ensures
            r@ == (LinkView { url: url@, ..self@ }),
    {
        Link { url: String::from_str(url), ..self }
    }

    /// The link with the given title.
    pub fn title(self, title: &str) -> (r: Link)
        ensures
            r@ == (LinkView { title: Some(title@), ..self@ }),
    {
        Link { title: Some(String::from_str(title)), ..self }
    }

    /// The link with the given description.
    pub fn description(self, description: &str) -> (r: Link)
        ensures
            r@ == (LinkView { description: Some(description@), ..self@ }),
    {
        Link { description: Some(String::from_str(description)), ..self }
    }

    /// The link with the tags written in `tags`, separated by white space,
    /// each kept once in the order given; `GeneralLink` when there is none.
    pub fn tags(self, tags: &str) -> (r: Link)
        ensures
            r@ == (LinkView { tags: tags_of_text(tags@), ..self@ }),
    {
        let words = split_words(tags);
        let words = unique_strings(words);
        self.tags_vec(words)
    }

    /// The link with the given tags; `GeneralLink` when the list is empty.
    pub fn tags_vec(self, tags: Vec<String>) -> (r: Link)
        ensures
            r@ == (LinkView { tags: tags_or_default(strings_view(tags@)), ..self@ }),
    {
        if tags.len() == 0 {
            Link { tags: general_tags("GeneralLink"), ..self }
        } else {
            Link { tags, ..self }
        }
    }

    /// The link with the given priority.
    pub fn priority(self, priority: char) -> (r: Link)
        ensures
            r@ == (LinkView { priority, ..self@ }),
    {
        Link { priority, ..self }
    }

    /// The link that opens in the given browser.
    pub fn browser(self, browser: Browser) -> (r: Link)
        ensures
            r@ == (LinkView { browser, ..self@ }),
    {
        Link { browser, ..self }
    }

    /// The link marked done or not.
    pub fn complete(self, complete: bool) -> (r: Link)
        ensures
            r@ == (LinkView { complete, ..self@ }),
    {
        Link { complete, ..self }
    }

    /// The link with the given date.
    pub fn date(self, date: &str) -> (r: Link)
        ensures
            r@ == (LinkView { date: date@, ..self@ }),
    {
        Link { date: String::from_str(date), ..self }
    }
}

} // verus!
