use dsaver::browser::Browser;
use dsaver::filter::{displayed_links, links_with_priority};
use dsaver::forms::{add_link_anyway, deleting_closes_editor, remove_link};
use dsaver::link::Link;

#[test]
fn removing_a_link_removes_its_equals() {
    let a = Link::new("a").id(1);
    let b = Link::new("b").id(2);
    let mut links = vec![a.copy(), b.copy(), a.copy()];
    remove_link(&mut links, &a);
    assert_eq!(links.len(), 1);
    assert_eq!(links[0].url, "b");
    remove_link(&mut links, &Link::new("z").id(9));
    assert_eq!(links.len(), 1);
}

#[test]
fn links_differing_in_one_field_differ() {
    let a = Link::new("a").id(1).tags("x y");
    assert!(a == a.copy());
    assert!(a != a.copy().tags("x"));
    assert!(a != a.copy().title("t"));
    assert!(a != a.copy().browser(Browser::Chrome));
    assert!(a != a.copy().complete(true));
}

#[test]
fn deleting_the_edited_link_closes_the_editor() {
    assert!(deleting_closes_editor(Some(3), Some(3)));
    assert!(!deleting_closes_editor(Some(3), Some(4)));
    assert!(!deleting_closes_editor(None, Some(4)));
    assert!(!deleting_closes_editor(None, None));
}

#[test]
fn shown_links_grouped_by_priority() {
    let links = vec![
        Link::new("a").tags("t").priority('B'),
        Link::new("b").tags("t").priority('A'),
        Link::new("c").tags("t").priority('B'),
    ];
    let shown = displayed_links(&links, &vec![String::from("t")], &vec![Browser::Default]);
    assert_eq!(shown.len(), 3);
    let b: Vec<String> = links_with_priority(&shown, 'B').iter().map(|l| l.url.clone()).collect();
    assert_eq!(b, vec![String::from("a"), String::from("c")]);
    assert_eq!(links_with_priority(&shown, 'A').len(), 1);
    assert!(links_with_priority(&shown, 'Z').is_empty());
}

#[test]
fn adding_a_link_anyway() {
    let mut links = vec![Link::new("a").id(1)];
    let new = Link::new("b").id(2).title("T").description("D").tags("x");
    add_link_anyway(&mut links, &new);
    assert_eq!(links.len(), 2);
    assert_eq!(links[1].url, "b");
    assert_eq!(links[1].id, Some(2));
    assert_eq!(links[1].title, Some(String::new()));
    assert_eq!(links[1].description, Some(String::new()));
    assert_eq!(links[1].tags, vec![String::from("x")]);
}
