use dsaver::browser::Browser;
use dsaver::filter::{
    browser_counts, click_browser, click_tag, displayed_links, has_tag, link_priorities,
    tag_counts,
};
use dsaver::link::Link;

fn s(x: &str) -> String {
    String::from(x)
}

fn sample() -> Vec<Link> {
    vec![
        Link::new("a").id(1).tags("rust web").priority('B').browser(Browser::Firefox),
        Link::new("b").id(2).tags("web").priority('A').browser(Browser::Chrome),
        Link::new("c").id(3).tags("music rust").priority('B').browser(Browser::Firefox),
        Link::new("d").id(4).tags("news").priority('C').browser(Browser::Default),
    ]
}

#[test]
fn counts_of_tags() {
    let r = tag_counts(&sample());
    assert_eq!(
        r,
        vec![(s("rust"), 2), (s("web"), 2), (s("music"), 1), (s("news"), 1)]
    );
    assert!(tag_counts(&vec![]).is_empty());
}

#[test]
fn counts_of_repeated_tag_in_one_link() {
    let links = vec![Link::new("a").tags_vec(vec![s("x"), s("x")])];
    assert_eq!(tag_counts(&links), vec![(s("x"), 2)]);
}

#[test]
fn counts_of_browsers() {
    let r = browser_counts(&sample());
    assert_eq!(
        r,
        vec![(Browser::Firefox, 2), (Browser::Chrome, 1), (Browser::Default, 1)]
    );
}

fn urls_of(v: &[Link]) -> Vec<String> {
    v.iter().map(|l| l.url.clone()).collect()
}

#[test]
fn shown_links_follow_tags_then_browsers() {
    let links = sample();
    let r = displayed_links(
        &links,
        &vec![s("web"), s("rust")],
        &vec![Browser::Firefox, Browser::Chrome],
    );
    // tags give a, b, a, c; Firefox keeps a, a, c and Chrome b; each once
    assert_eq!(urls_of(&r), vec![s("a"), s("c"), s("b")]);
}

#[test]
fn equal_links_are_shown_once() {
    let a = Link::new("a").id(1).tags("t").browser(Browser::Firefox);
    let links = vec![a.copy(), Link::new("b").id(2).tags("t").browser(Browser::Firefox), a.copy()];
    let r = displayed_links(&links, &vec![s("t")], &vec![Browser::Firefox]);
    assert_eq!(urls_of(&r), vec![s("a"), s("b")]);
    let r = displayed_links(&links, &vec![s("t"), s("t")], &vec![Browser::Firefox, Browser::Firefox]);
    assert_eq!(urls_of(&r), vec![s("a"), s("b")]);
}

#[test]
fn shown_links_with_nothing_chosen() {
    let links = sample();
    assert!(displayed_links(&links, &vec![], &vec![Browser::Firefox]).is_empty());
    assert!(displayed_links(&links, &vec![s("rust")], &vec![]).is_empty());
    assert_eq!(
        urls_of(&displayed_links(&links, &vec![s("news")], &vec![Browser::Default])),
        vec![s("d")]
    );
}

#[test]
fn tag_membership() {
    let l = Link::new("a").tags("x y");
    assert!(has_tag(&l, &s("y")));
    assert!(!has_tag(&l, &s("z")));
}

#[test]
fn priorities_sorted_once() {
    assert_eq!(link_priorities(&sample()), vec!['A', 'B', 'C']);
    assert!(link_priorities(&vec![]).is_empty());
}

#[test]
fn clicking_tags() {
    let all = vec![s("a"), s("b"), s("c")];
    let (c, shown) = click_tag(&all, &None, &s("b"));
    assert_eq!(c, Some(s("b")));
    assert_eq!(shown, vec![s("b")]);
    let (c, shown) = click_tag(&all, &Some(s("b")), &s("b"));
    assert_eq!(c, None);
    assert_eq!(shown, all);
    let (c, shown) = click_tag(&all, &Some(s("a")), &s("c"));
    assert_eq!(c, Some(s("c")));
    assert_eq!(shown, vec![s("c")]);
}

#[test]
fn clicking_browsers() {
    let all = vec![Browser::Firefox, Browser::Chrome];
    let (c, shown) = click_browser(&all, None, Browser::Chrome);
    assert_eq!(c, Some(Browser::Chrome));
    assert_eq!(shown, vec![Browser::Chrome]);
    let (c, shown) = click_browser(&all, Some(Browser::Chrome), Browser::Chrome);
    assert_eq!(c, None);
    assert_eq!(shown, all);
}
