//! Random links to fill the list with while developing.
use rand::Rng;
use vstd::prelude::*;

use crate::browser::{browser_of_sample, Browser};
use crate::error_reporter::strings_view;
use crate::link::{new_link_id, tags_or_default, Link, LinkView};

verus! {

/// The addresses that generated links point to.
pub open spec fn seed_urls() -> Seq<Seq<char>> {
    seq![
        "https://www.google.com"@,
        "https://www.github.com/KRShanto"@,
        "https://www.facebook.com/KRshanto2005/"@,
        "https://rust-random.github.io/book/guide-start.html"@,
        "https://www.google.com/search?client=firefox-b-e&q=How+to+get+donation+for+my+open+source+project%3F%3F"@,
        "https://www.youtube.com/watch?v=yzeVMecydCE&t=384s"@,
        "https://www.youtube.com/watch?v=GbqSvJs-6W4&t=666s"@,
        "https://www.google.com/search?client=firefox-b-e&q=fast+loop+in+rust"@,
        "https://opensource.guide/getting-paid/"@,
        "https://github.com/customer-stories/hzoo"@,
        "https://opensource.guide/best-practices/"@,
        "https://opensource.guide/leadership-and-governance/"@,
        "https://www.freecodecamp.org/news/ultimate-owners-guide-to-open-source/"@,
        "https://plausible.io/blog/open-source-funding"@,
        "https://itsfoss.com/open-source-funding-platforms/"@,
        "https://betterprogramming.pub/how-to-turn-your-open-source-project-into-a-stable-income-stream-4c46b15ed960"@,
        "https://www.youtube.com/results?search_query=git+branching+strategy"@,
        "https://www.svgrepo.com/"@,
        "https://github.com/KRShanto/link-saver"@,
        "https://www.youtube.com/results?search_query=namp+tutorial"@,
        "https://www.youtube.com/watch?v=Px4WV6bvR2Y"@,
        "https://www.youtube.com/watch?v=lEFTV3sX_HA"@,
        "https://www.youtube.com/watch?v=7QJpkHw_RTw"@,
        "https://www.youtube.com/watch?v=326SUO5HjWI"@,
        "https://nextjs.org/learn/foundations/about-nextjs?utm_source=next-site&utm_medium=nav-cta&utm_campaign=next-website"@,
        "https://www.google.com/search?client=firefox-b-e&q=How+to+earn+money+as+open+source+developer"@,
    ]
}

/// The tags that generated links carry.
pub open spec fn seed_tags() -> Seq<Seq<char>> {
    seq![
        "Google"@,
        "Tag"@,
        "Website"@,
        "Tutorial"@,
        "Github"@,
        "Twitter"@,
        "Youtube"@,
        "Video"@,
        "RandomLink"@,
        "RandomNess"@,
        "Code"@,
        "GenerateLink"@,
        "Coding"@,
        "Cow"@,
        "Programming"@,
        "Program"@,
        "Short"@,
        "Canada"@,
        "Bangladesh"@,
        "NotFound"@,
    ]
}

/// The date that generated links carry.
pub open spec fn generated_date() -> Seq<char> {
    "September 15, 2022"@
}

/// A link as [`random_link`] draws it: one of the addresses, between one tag
/// and one tag fewer than there are, all from the given tags, a browser drawn
/// from Firefox, Chrome and the default one, a priority from `A` to `Z`, and
/// the fixed date; no title or description yet.
pub open spec fn is_random_link(l: LinkView, urls: Seq<Seq<char>>, tags: Seq<Seq<char>>) -> bool {
    &&& l.id is Some
    &&& urls.contains(l.url)
    &&& l.title is None
    &&& l.description is None
    &&& 1 <= l.tags.len() < tags.len()
    &&& forall|i: int| 0 <= i < l.tags.len() ==> tags.contains(#[trigger] l.tags[i])
    &&& 'A' <= l.priority <= 'Z'
    &&& l.browser != Browser::Brave
    &&& !l.complete
    &&& l.date == generated_date()
}

/// Relies on `rand::Rng::gen_range` on the thread's generator: a number
/// below `n`, which must be positive.
#[verifier::external_body]
fn random_below(n: usize) -> (r: usize)
    requires
        n > 0,
    ensures
        r < n,
{
    rand::thread_rng().gen_range(0..n)
}

/// The addresses that generated links point to.
pub fn urls() -> (r: Vec<String>)
    ensures
        strings_view(r@) == seed_urls(),
{
    let r = vec![
        String::from_str("https://www.google.com"),
        String::from_str("https://www.github.com/KRShanto"),
        String::from_str("https://www.facebook.com/KRshanto2005/"),
        String::from_str("https://rust-random.github.io/book/guide-start.html"),
        String::from_str("https://www.google.com/search?client=firefox-b-e&q=How+to+get+donation+for+my+open+source+project%3F%3F"),
        String::from_str("https://www.youtube.com/watch?v=yzeVMecydCE&t=384s"),
        String::from_str("https://www.youtube.com/watch?v=GbqSvJs-6W4&t=666s"),
        String::from_str("https://www.google.com/search?client=firefox-b-e&q=fast+loop+in+rust"),
        String::from_str("https://opensource.guide/getting-paid/"),
        String::from_str("https://github.com/customer-stories/hzoo"),
        String::from_str("https://opensource.guide/best-practices/"),
        String::from_str("https://opensource.guide/leadership-and-governance/"),
        String::from_str("https://www.freecodecamp.org/news/ultimate-owners-guide-to-open-source/"),
        String::from_str("https://plausible.io/blog/open-source-funding"),
        String::from_str("https://itsfoss.com/open-source-funding-platforms/"),
        String::from_str("https://betterprogramming.pub/how-to-turn-your-open-source-project-into-a-stable-income-stream-4c46b15ed960"),
        String::from_str("https://www.youtube.com/results?search_query=git+branching+strategy"),
        String::from_str("https://www.svgrepo.com/"),
        String::from_str("https://github.com/KRShanto/link-saver"),
        String::from_str("https://www.youtube.com/results?search_query=namp+tutorial"),
        String::from_str("https://www.youtube.com/watch?v=Px4WV6bvR2Y"),
        String::from_str("https://www.youtube.com/watch?v=lEFTV3sX_HA"),
        String::from_str("https://www.youtube.com/watch?v=7QJpkHw_RTw"),
        String::from_str("https://www.youtube.com/watch?v=326SUO5HjWI"),
        String::from_str("https://nextjs.org/learn/foundations/about-nextjs?utm_source=next-site&utm_medium=nav-cta&utm_campaign=next-website"),
        String::from_str("https://www.google.com/search?client=firefox-b-e&q=How+to+earn+money+as+open+source+developer"),
    ];
    assert(strings_view(r@) =~= seed_urls());
    r
}

/// The tags that generated links carry.
pub fn tags() -> (r: Vec<String>)
    ensures
        strings_view(r@) == seed_tags(),
{
    let r = vec![
        String::from_str("Google"),
        String::from_str("Tag"),
        String::from_str("Website"),
        String::from_str("Tutorial"),
        String::from_str("Github"),
        String::from_str("Twitter"),
        String::from_str("Youtube"),
        String::from_str("Video"),
        String::from_str("RandomLink"),
        String::from_str("RandomNess"),
        String::from_str("Code"),
        String::from_str("GenerateLink"),
        String::from_str("Coding"),
        String::from_str("Cow"),
        String::from_str("Programming"),
        String::from_str("Program"),
        String::from_str("Short"),
        String::from_str("Canada"),
        String::from_str("Bangladesh"),
        String::from_str("NotFound"),
    ];
    assert(strings_view(r@) =~= seed_tags());
    r
}

/// A browser drawn from Firefox, Chrome and the default one.
pub fn random_browser() -> (r: Browser)
    ensures
        r != Browser::Brave,
{
    let n = random_below(3);
    Browser::from_sample(n as u32)
}

/// A letter drawn from `A` to `Z`.
pub fn random_priority() -> (r: char)
    ensures
        'A' <= r <= 'Z',
{
    let n = random_below(26) as u8;
    let c = (65u8 + n) as char;
    c
}

/// The letter `offset` places after `A`.
pub open spec fn letter(offset: u8) -> char {
    ((65 + offset) as u8) as char
}

/// The tags at the given positions, in the order of the positions.
pub open spec fn picked(tags: Seq<Seq<char>>, idx: Seq<usize>) -> Seq<Seq<char>> {
    idx.map_values(|i: usize| tags[i as int])
}

/// The link that a set of drawn numbers stands for.
pub open spec fn drawn_link(
    urls: Seq<Seq<char>>,
    tags: Seq<Seq<char>>,
    id: u128,
    url_index: usize,
    tag_indices: Seq<usize>,
    browser_sample: u32,
    priority_offset: u8,
) -> LinkView {
    LinkView {
        id: Some(id),
        url: urls[url_index as int],
        title: None,
        description: None,
        tags: tags_or_default(picked(tags, tag_indices)),
        priority: letter(priority_offset),
        browser: browser_of_sample(browser_sample),
        complete: false,
        date: generated_date(),
    }
}

/// The link that drawn numbers stand for: the identifier, the address at
/// `url_index`, the tags at `tag_indices` (`GeneralLink` when there is none),
/// the browser of `browser_sample`, the letter `priority_offset` after `A`,
/// and the fixed date.
pub fn link_from_draws(
    urls: &Vec<String>,
    tags: &Vec<String>,
    id: u128,
    url_index: usize,
    tag_indices: &Vec<usize>,
    browser_sample: u32,
    priority_offset: u8,
) -> (r: Link)
    requires
        url_index < urls@.len(),
        forall|j: int| 0 <= j < tag_indices@.len() ==> tag_indices@[j] < tags@.len(),
        priority_offset < 26,
    ensures
        r@ == drawn_link(strings_view(urls@), strings_view(tags@), id, url_index, tag_indices@, browser_sample, priority_offset),
{
    let mut chosen: Vec<String> = Vec::new();
    let mut k: usize = 0;
    while k < tag_indices.len()
        invariant
            k <= tag_indices@.len(),
            forall|j: int| 0 <= j < tag_indices@.len() ==> tag_indices@[j] < tags@.len(),
            chosen@.len() == k,
            forall|j: int| 0 <= j < k ==> #[trigger] chosen@[j]@ == tags@[tag_indices@[j] as int]@,
        decreases tag_indices@.len() - k,
    {
        chosen.push(tags[tag_indices[k]].clone());
        k = k + 1;
    }
    assert(strings_view(chosen@) =~= picked(strings_view(tags@), tag_indices@));
    let priority = (65u8 + priority_offset) as char;
    let r = Link::new(urls[url_index].as_str())
        .id(id)
        .tags_vec(chosen)
        .browser(Browser::from_sample(browser_sample))
        .priority(priority)
        .date("September 15, 2022");
    assert(r@.url == strings_view(urls@)[url_index as int]);
    r
}

/// A link drawn at random from the given addresses and tags; see
/// [`is_random_link`] and [`link_from_draws`].
pub fn random_link(urls: &Vec<String>, tags: &Vec<String>) -> (r: Link)
    requires
        urls@.len() > 0,
        tags@.len() > 1,
    ensures
        is_random_link(r@, strings_view(urls@), strings_view(tags@)),
{
    let url_index = random_below(urls.len());
    let count = 1 + random_below(tags.len() - 1);
    let mut indices: Vec<usize> = Vec::new();
    let mut k: usize = 0;
    while k < count
        invariant
            k <= count < tags@.len(),
            indices@.len() == k,
            forall|j: int| 0 <= j < k ==> indices@[j] < tags@.len(),
        decreases count - k,
    {
        indices.push(random_below(tags.len()));
        k = k + 1;
    }
    let browser_sample = random_below(3) as u32;
    let priority_offset = random_below(26) as u8;
    let r = link_from_draws(urls, tags, new_link_id(), url_index, &indices, browser_sample, priority_offset);
    proof {
        let ts = strings_view(tags@);
        assert(strings_view(urls@)[url_index as int] == urls@[url_index as int]@);
        assert(picked(ts, indices@).len() > 0);
        assert forall|i: int| 0 <= i < r@.tags.len() implies ts.contains(#[trigger] r@.tags[i]) by {
            assert(r@.tags[i] == ts[indices@[i] as int]);
        }
    }
    r
}

/// Ten links drawn at random from [`urls`] and [`tags`].
pub fn generate() -> (r: Vec<Link>)
    ensures
        r@.len() == 10,
        forall|i: int| 0 <= i < r@.len() ==> is_random_link(#[trigger] r@[i]@, seed_urls(), seed_tags()),
{
    let urls = urls();
    let tags = tags();
    assert(strings_view(urls@).len() == 26);
    assert(strings_view(tags@).len() == 20);
    let mut r: Vec<Link> = Vec::new();
    let mut k: usize = 0;
    while k < 10
        invariant
            k <= 10,
            urls@.len() == 26,
            tags@.len() == 20,
            r@.len() == k,
            strings_view(urls@) == seed_urls(),
            strings_view(tags@) == seed_tags(),
            forall|i: int| 0 <= i < k ==> is_random_link(#[trigger] r@[i]@, seed_urls(), seed_tags()),
        decreases 10 - k,
    {
        r.push(random_link(&urls, &tags));
        k = k + 1;
    }
    r
}

} // verus!
