use dsaver::browser::Browser;
use dsaver::forms::{created_link, edited_link, link_position, matching_tags, replace_link};
use dsaver::generate::{
    generate, link_from_draws, random_browser, random_link, random_priority, tags, urls,
};
use dsaver::input::{initial_input_value, shown_input_value, use_input, InputPermission, InputType, UseInputOptions};
use dsaver::link::Link;
use dsaver::ui::{
    background_click_hides, background_dimmed, boxx, checkbox, complete_tag, double_click_opens,
    toggle_open_link, DisplayErrorButtonType,
    DisplayErrorClass, DisplayErrorInnerData, ErrorButtonAction, PopupBox,
};
use dsaver::commands::report_unreachable;

fn s(x: &str) -> String {
    String::from(x)
}

#[test]
fn suggestions_for_the_word_being_typed() {
    let known = vec![s("Rust"), s("Music"), s("rusty"), s("Web")];
    assert_eq!(matching_tags("web RU", &known), vec![s("Rust"), s("rusty")]);
    assert!(matching_tags("web ", &known).is_empty());
    assert!(matching_tags("", &known).is_empty());
    assert_eq!(matching_tags("s", &known), vec![s("Rust"), s("Music"), s("rusty")]);
}

#[test]
fn position_by_id() {
    let links = vec![Link::new("a").id(5), Link::new("b").id(9), Link::new("c").id(9)];
    assert_eq!(link_position(&links, 9), Some(1));
    assert_eq!(link_position(&links, 4), None);
}

#[test]
fn editing_a_link() {
    let old = Link::new("u").id(3).complete(true).date("1 May 2020");
    let r = edited_link(&old, "T", "D", "a b a", 'Q', "chrome");
    assert_eq!(r.id, Some(3));
    assert_eq!(r.url, "u");
    assert_eq!(r.title, Some(s("T")));
    assert_eq!(r.description, Some(s("D")));
    assert_eq!(r.tags, vec![s("a"), s("b")]);
    assert_eq!(r.priority, 'Q');
    assert_eq!(r.browser, Browser::Chrome);
    assert!(r.complete);
    assert_eq!(r.date, "1 May 2020");
    let r = edited_link(&old, "", "", "  ", 'A', "Default Browser");
    assert!(r.tags.is_empty());
    assert_eq!(r.browser, Browser::Default);
}

#[test]
fn replacing_a_link() {
    let mut links = vec![Link::new("a").id(1), Link::new("b").id(2)];
    replace_link(&mut links, 1, Link::new("z").id(7));
    assert_eq!(links[0].url, "a");
    assert_eq!(links[1].url, "z");
    assert_eq!(links[1].id, Some(7));
}

#[test]
fn creating_a_link() {
    let r = created_link("https://x.org", "", "About", "b a b", 'D', "BRAVE", 2, 1, 2024);
    assert!(r.id.is_some());
    assert_eq!(r.url, "https://x.org");
    assert_eq!(r.title, None);
    assert_eq!(r.description, Some(s("About")));
    assert_eq!(r.tags, vec![s("b"), s("a")]);
    assert_eq!(r.priority, 'D');
    assert_eq!(r.browser, Browser::Brave);
    assert!(!r.complete);
    assert_eq!(r.date, "2 February 2024");
    let r = created_link("  https://y.org ", " T ", "   ", "", 'A', "x", 1, 0, 2000);
    assert_eq!(r.url, "https://y.org");
    assert_eq!(r.title, Some(s("T")));
    assert_eq!(r.description, None);
    assert_eq!(r.tags, vec![s("GeneralLink")]);
    assert_eq!(r.browser, Browser::Default);
}

#[test]
fn seed_lists() {
    let u = urls();
    assert_eq!(u.len(), 26);
    assert_eq!(u[0], "https://www.google.com");
    let t = tags();
    assert_eq!(t.len(), 20);
    assert_eq!(t[19], "NotFound");
}

#[test]
fn random_links_are_drawn_from_the_seeds() {
    let u = urls();
    let t = tags();
    let links = generate();
    assert_eq!(links.len(), 10);
    for l in &links {
        assert!(l.id.is_some());
        assert!(u.contains(&l.url));
        assert!(!l.tags.is_empty() && l.tags.len() < t.len());
        assert!(l.tags.iter().all(|x| t.contains(x)));
        assert!(('A'..='Z').contains(&l.priority));
        assert_ne!(l.browser, Browser::Brave);
        assert_eq!(l.title, None);
        assert_eq!(l.date, "September 15, 2022");
    }
    let one = random_link(&vec![s("only")], &vec![s("p"), s("q")]);
    assert_eq!(one.url, "only");
    assert_eq!(one.tags.len(), 1);
    for _ in 0..50 {
        assert_ne!(random_browser(), Browser::Brave);
        let p = random_priority();
        assert!(('A'..='Z').contains(&p));
    }
}

#[test]
fn input_options() {
    assert_eq!(UseInputOptions::default().input_type, InputType::Text);
    assert_eq!(UseInputOptions::default().permission, InputPermission::WriteAndRead);
    let o = UseInputOptions::input_type(InputType::Number);
    assert_eq!(o.input_type, InputType::Number);
    assert_eq!(o.permission, InputPermission::WriteAndRead);
    let o = UseInputOptions::permission(InputPermission::ReadOnly);
    assert_eq!(o.input_type, InputType::Text);
    assert_eq!(o.permission, InputPermission::ReadOnly);
    assert_eq!(InputType::Number.to_string(), "number");
    assert_eq!(InputType::Text.to_string(), "text");
}

#[test]
fn keyup_keeps_or_takes_the_value() {
    let rw = UseInputOptions::default();
    assert_eq!(use_input(s("old"), s("new"), &rw), "new");
    let ro = UseInputOptions::permission(InputPermission::ReadOnly);
    assert_eq!(use_input(s("old"), s("new"), &ro), "old");
    let off = UseInputOptions::permission(InputPermission::Disabled);
    assert_eq!(use_input(s("old"), s("new"), &off), "old");
}

#[test]
fn popup_decisions() {
    assert!(background_click_hides(true, PopupBox::EditLink));
    assert!(!background_click_hides(false, PopupBox::EditLink));
    assert!(!background_click_hides(true, PopupBox::Closed));
    assert!(background_dimmed(PopupBox::DisplayError));
    assert!(!background_dimmed(PopupBox::default()));
}

#[test]
fn checkbox_clicks() {
    assert!(checkbox(false, true));
    assert!(!checkbox(false, false));
    assert!(!checkbox(true, true));
    assert!(!checkbox(true, false));
}

#[test]
fn first_value_of_a_choice_box() {
    let list = vec![s("A"), s("B")];
    assert_eq!(boxx(&s(""), &list), "A");
    assert_eq!(boxx(&s("C"), &list), "C");
}

#[test]
fn completing_the_last_tag() {
    assert_eq!(complete_tag("web ru", "rust"), "web rust");
    assert_eq!(complete_tag("", "rust"), "rust");
    assert_eq!(complete_tag("a  b\tc", "d"), "a b d");
}

#[test]
fn error_popup_data() {
    let d = DisplayErrorInnerData::get_default();
    assert_eq!(d.class, DisplayErrorClass::Error);
    assert_eq!(d.error_reporter.error_title(), "Value not found");
    assert_eq!(d.error_reporter.when_error(), "Error occurred when getting a input from you");
    assert_eq!(d.options_message, Some(s("You can again type your input")));
    let b = d.options_buttons.clone().unwrap();
    assert_eq!(b.len(), 1);
    assert_eq!(b[0].name, "Type again");
    assert_eq!(b[0].button_type, DisplayErrorButtonType::Safe);
    assert_eq!(b[0].action, ErrorButtonAction::Dismiss);
    assert_eq!(d.class_name(), "error");
    assert_eq!(d.popup_title(), "Error - Value not found");
    let a = DisplayErrorInnerData::add_anyway(report_unreachable("e"));
    let b = a.options_buttons.clone().unwrap();
    assert_eq!(b[0].name, "Add");
    assert_eq!(b[0].button_type, DisplayErrorButtonType::Danger);
    assert_eq!(b[0].action, ErrorButtonAction::AddLinkAnyway);
    let p = DisplayErrorInnerData::plain(report_unreachable("e"));
    assert!(p.options_message.is_none() && p.options_buttons.is_none());
}

#[test]
fn first_value_of_an_input() {
    assert_eq!(initial_input_value(Some(s("bound")), s("given")), "bound");
    assert_eq!(initial_input_value(Some(s("")), s("given")), "");
    assert_eq!(initial_input_value(None, s("given")), "given");
}

#[test]
fn a_link_from_drawn_numbers() {
    let u = urls();
    let t = tags();
    let l = link_from_draws(&u, &t, 77, 1, &vec![3, 0, 3], 1, 2);
    assert_eq!(l.id, Some(77));
    assert_eq!(l.url, "https://www.github.com/KRShanto");
    assert_eq!(l.tags, vec![s("Tutorial"), s("Google"), s("Tutorial")]);
    assert_eq!(l.browser, Browser::Chrome);
    assert_eq!(l.priority, 'C');
    assert_eq!(l.title, None);
    assert_eq!(l.date, "September 15, 2022");
    let l = link_from_draws(&u, &t, 1, 0, &vec![], 2, 25);
    assert_eq!(l.tags, vec![s("GeneralLink")]);
    assert_eq!(l.browser, Browser::Default);
    assert_eq!(l.priority, 'Z');
}

#[test]
fn disabled_inputs_show_nothing() {
    assert_eq!(shown_input_value(&s("v"), InputPermission::Disabled), "");
    assert_eq!(shown_input_value(&s("v"), InputPermission::ReadOnly), "v");
    assert_eq!(shown_input_value(&s("v"), InputPermission::WriteAndRead), "v");
}

#[test]
fn opening_and_closing_link_bodies() {
    assert_eq!(toggle_open_link(None, 2), Some(2));
    assert_eq!(toggle_open_link(Some(2), 2), None);
    assert_eq!(toggle_open_link(Some(1), 2), Some(2));
    assert!(double_click_opens(None, 2));
    assert!(double_click_opens(Some(1), 2));
    assert!(!double_click_opens(Some(2), 2));
}
