//! What the forms to create and to edit a link make of what the user typed.
use vstd::prelude::*;

use crate::browser::{browser_of_lower, Browser};
use crate::error_reporter::strings_view;
use crate::filter::links_view;
use crate::link::{date_text, tags_of_text, Link, LinkView};
use crate::text::{
    contains_text, dedup, is_infix, lower_of, lowercase, split_words, trim_text, trimmed, unique_strings,
    words_of,
};

verus! {

/// The word being typed at the end of a text: its last word, or nothing.
pub open spec fn current_word(text: Seq<char>) -> Seq<char> {
    let w = words_of(text);
    if w.len() == 0 {
        Seq::empty()
    } else {
        w.last()
    }
}

/// The known tags whose lower-case form holds `word`, in order.
pub open spec fn tags_matching(known: Seq<Seq<char>>, word: Seq<char>) -> Seq<Seq<char>>
    decreases known.len(),
{
    if known.len() == 0 {
        Seq::empty()
    } else {
        tags_matching(known.drop_last(), word) + if is_infix(word, lower_of(known.last())) {
            seq![known.last()]
        } else {
            Seq::empty()
        }
    }
}

/// The tags offered while the user types tags: none when the text is empty
/// or ends with a space, else the known tags that hold the word being typed,
/// compared in lower case.
pub open spec fn tag_suggestions(input: Seq<char>, known: Seq<Seq<char>>) -> Seq<Seq<char>> {
    let l = lower_of(input);
    if l.len() == 0 || l.last() == ' ' {
        Seq::empty()
    } else {
        tags_matching(known, current_word(l))
    }
}

/// The known tags to offer while the user types `input`; see
/// [`tag_suggestions`].
pub fn matching_tags(input: &str, known: &Vec<String>) -> (r: Vec<String>)
    ensures
        strings_view(r@) == tag_suggestions(input@, strings_view(known@)),
{
    let lower = lowercase(input);
    let n = lower.as_str().unicode_len();
    if n == 0 {
        return Vec::new();
    }
    if lower.as_str().get_char(n - 1) == ' ' {
        return Vec::new();
    }
    let words = split_words(lower.as_str());
    let current = if words.len() == 0 {
        String::new()
    } else {
        words[words.len() - 1].clone()
    };
    assert(current@ == current_word(lower@));
    let ghost ks = strings_view(known@);
    let mut r: Vec<String> = Vec::new();
    let mut k: usize = 0;
    while k < known.len()
        invariant
            ks == strings_view(known@),
            k <= ks.len(),
            strings_view(r@) == tags_matching(ks.take(k as int), current@),
        decreases ks.len() - k,
    {
        assert(ks.take(k + 1).drop_last() =~= ks.take(k as int));
        let ghost before = r@;
        let t = lowercase(known[k].as_str());
        if contains_text(t.as_str(), current.as_str()) {
            r.push(known[k].clone());
        }
        k = k + 1;
        assert(strings_view(r@) =~= tags_matching(ks.take(k as int), current@));
    }
    assert(ks.take(k as int) =~= ks);
    r
}

/// The first position of a link with the given identifier.
pub fn link_position(links: &Vec<Link>, id: u128) -> (r: Option<usize>)
    ensures
        r matches Some(p) ==> p < links@.len() && links@[p as int].id == Some(id)
            && forall|j: int| 0 <= j < p ==> links@[j].id != Some(id),
        r is None ==> forall|j: int| 0 <= j < links@.len() ==> links@[j].id != Some(id),
{
    let mut k: usize = 0;
    while k < links.len()
        invariant
            k <= links@.len(),
            forall|j: int| 0 <= j < k ==> links@[j].id != Some(id),
        decreases links@.len() - k,
    {
        if links[k].id == Some(id) {
            return Some(k);
        }
        k = k + 1;
    }
    None
}

/// The links of a list other than those equal to `x`, in order.
pub open spec fn without_link(ls: Seq<LinkView>, x: LinkView) -> Seq<LinkView>
    decreases ls.len(),
{
    if ls.len() == 0 {
        Seq::empty()
    } else {
        without_link(ls.drop_last(), x) + if ls.last() == x { Seq::empty() } else { seq![ls.last()] }
    }
}

/// Deletes `link`: every link equal to it leaves the list, the others stay
/// in order.
pub fn remove_link(links: &mut Vec<Link>, link: &Link)
    ensures
        links_view(final(links)@) == without_link(links_view(old(links)@), link@),
{
    let ghost ls = links_view(links@);
    let mut kept: Vec<Link> = Vec::new();
    let mut k: usize = 0;
    while k < links.len()
        invariant
            ls == links_view(links@),
            k <= ls.len(),
            links_view(kept@) == without_link(ls.take(k as int), link@),
        decreases ls.len() - k,
    {
        assert(ls.take(k + 1).drop_last() =~= ls.take(k as int));
        let ghost before = kept@;
        if !(links[k] == *link) {
            kept.push(links[k].copy());
        }
        k = k + 1;
        assert(links_view(kept@) =~= without_link(ls.take(k as int), link@));
    }
    assert(ls.take(k as int) =~= ls);
    *links = kept;
}

/// Whether deleting the link with identifier `deleted` closes the editor:
/// only when that link is being edited.
pub fn deleting_closes_editor(editing: Option<u128>, deleted: Option<u128>) -> (r: bool)
    ensures
        r == (editing is Some && editing == deleted),
{
    match (editing, deleted) {
        (Some(e), Some(d)) => e == d,
        _ => false,
    }
}

/// A link as the edit form leaves it: the title, description, tags (each
/// word once), priority and browser typed in; the rest as it was.
pub fn edited_link(editing: &Link, title: &str, description: &str, tags: &str, priority: char, browser: &str) -> (r: Link)
    ensures
        r@ == (LinkView {
            title: Some(title@),
            description: Some(description@),
            tags: dedup(words_of(tags@)),
            priority,
            browser: browser_of_lower(lower_of(browser@)),
            ..editing@
        }),
{
    let words = unique_strings(split_words(tags));
    Link {
        id: editing.id,
        url: editing.url.clone(),
        title: Some(String::from_str(title)),
        description: Some(String::from_str(description)),
        tags: words,
        priority,
        browser: Browser::from_name(browser),
        complete: editing.complete,
        date: editing.date.clone(),
    }
}

/// Puts `link` in place of the link at `position`.
pub fn replace_link(links: &mut Vec<Link>, position: usize, link: Link)
    requires
        position < old(links)@.len(),
    ensures
        links_view(final(links)@) == links_view(old(links)@).update(position as int, link@),
{
    links.set(position, link);
    assert(links_view(final(links)@) =~= links_view(old(links)@).update(position as int, link@));
}

/// The view of a text typed into an optional field: nothing when it is
/// empty once trimmed, else the trimmed text.
pub open spec fn optional_text(s: Seq<char>) -> Option<Seq<char>> {
    if trimmed(s).len() == 0 {
        None
    } else {
        Some(trimmed(s))
    }
}

/// A link as the create form makes it: a new dated link to the trimmed
/// address, with the tags typed in, the priority and browser chosen, and the
/// trimmed title and description where they are not empty.
pub fn created_link(
    url: &str,
    title: &str,
    description: &str,
    tags: &str,
    priority: char,
    browser: &str,
    day: u32,
    month: u32,
    year: u32,
) -> (r: Link)
    requires
        month < 12,
    ensures
        r@.id is Some,
        r@.url == trimmed(url@),
        r@.title == optional_text(title@),
        r@.description == optional_text(description@),
        r@.tags == tags_of_text(tags@),
        r@.priority == priority,
        r@.browser == browser_of_lower(lower_of(browser@)),
        !r@.complete,
        r@.date == date_text(day as nat, month as int, year as nat),
{
    let url = trim_text(url);
    let title = trim_text(title);
    let description = trim_text(description);
    let link = Link::new_with_date(url, day, month, year)
        .tags(tags)
        .priority(priority)
        .browser(Browser::from_name(browser));
    let link = if title.unicode_len() == 0 {
        link
    } else {
        link.title(title)
    };
    if description.unicode_len() == 0 {
        link
    } else {
        link.description(description)
    }
}

/// What the `Add` button under a failed fetch does: the new link is saved
/// anyway, at the end of the list, with an empty title and description.
pub fn add_link_anyway(links: &mut Vec<Link>, link: &Link)
    ensures
        links_view(final(links)@) == links_view(old(links)@).push(
            (LinkView { title: Some(Seq::empty()), description: Some(Seq::empty()), ..link@ }),
        ),
{
    proof {
        reveal_strlit("");
    }
    assert(""@ =~= Seq::<char>::empty());
    let added = link.copy().title("").description("");
    assert(added@ == (LinkView { title: Some(Seq::empty()), description: Some(Seq::empty()), ..link@ }));
    links.push(added);
    assert(links_view(final(links)@) =~= links_view(old(links)@).push(
        (LinkView { title: Some(Seq::empty()), description: Some(Seq::empty()), ..link@ }),
    ));
}

} // verus!
