//! The tags and browsers of a list of links, how often each is used, and
//! which links a choice of tags and browsers shows.
//!
//! Counts are kept as lists of pairs in the order in which each key first
//! comes, so that the result does not depend on how a hash map is walked.
use itertools::Itertools;
use vstd::prelude::*;

use crate::browser::Browser;
use crate::error_reporter::strings_view;
use crate::link::{Link, LinkView};
use crate::text::{dedup, lemma_dedup_contains, lemma_dedup_distinct};

verus! {

/// The views of a list of links.
pub open spec fn links_view(v: Seq<Link>) -> Seq<LinkView> {
    v.map_values(|l: Link| l@)
}

/// The tags of all the links, link after link, each in the order the link
/// has them.
pub open spec fn all_tags(ls: Seq<LinkView>) -> Seq<Seq<char>>
    decreases ls.len(),
{
    if ls.len() == 0 {
        Seq::empty()
    } else {
        all_tags(ls.drop_last()) + ls.last().tags
    }
}

/// The browsers of all the links, in order.
pub open spec fn all_browsers(ls: Seq<LinkView>) -> Seq<Browser> {
    ls.map_values(|l: LinkView| l.browser)
}

/// How many times `x` occurs in `s`.
pub open spec fn count_in<A>(s: Seq<A>, x: A) -> nat
    decreases s.len(),
{
    if s.len() == 0 {
        0
    } else {
        count_in(s.drop_last(), x) + if s.last() == x { 1nat } else { 0nat }
    }
}

proof fn lemma_count_le_len<A>(s: Seq<A>, x: A)
    ensures
        count_in(s, x) <= s.len(),
    decreases s.len(),
{
    if s.len() > 0 {
        lemma_count_le_len(s.drop_last(), x);
    }
}

proof fn lemma_dedup_absent<A>(s: Seq<A>, x: A)
    requires
        !dedup(s).contains(x),
    ensures
        count_in(s, x) == 0,
    decreases s.len(),
{
    if s.len() > 0 {
        let d = dedup(s.drop_last());
        if d.contains(s.last()) {
            assert(dedup(s) == d);
        } else {
            assert(dedup(s) == d.push(s.last()));
            assert(dedup(s)[d.len() as int] == s.last());
            if d.contains(x) {
                let j = choose|j: int| 0 <= j < d.len() && d[j] == x;
                assert(dedup(s)[j] == x);
            }
        }
        lemma_dedup_absent(s.drop_last(), x);
    }
}

proof fn lemma_all_tags_step(ls: Seq<LinkView>, i: int)
    requires
        0 <= i < ls.len(),
    ensures
        all_tags(ls.take(i + 1)) == all_tags(ls.take(i)) + ls[i].tags,
{
    assert(ls.take(i + 1).drop_last() =~= ls.take(i));
}

proof fn lemma_all_tags_len_mono(ls: Seq<LinkView>, i: int)
    requires
        0 <= i <= ls.len(),
    ensures
        all_tags(ls.take(i)).len() <= all_tags(ls).len(),
    decreases ls.len() - i,
{
    if i < ls.len() {
        lemma_all_tags_step(ls, i);
        lemma_all_tags_len_mono(ls, i + 1);
    } else {
        assert(ls.take(i) =~= ls);
    }
}

/// Adds one occurrence of `x` to parallel lists of tags and their counts.
fn add_tag_occurrence(keys: &mut Vec<String>, counts: &mut Vec<usize>, x: &String, Ghost(s): Ghost<Seq<Seq<char>>>)
    requires
        old(keys)@.len() == old(counts)@.len(),
        old(keys)@.map_values(|k: String| k@) == dedup(s),
        forall|i: int| 0 <= i < old(counts)@.len() ==> #[trigger] old(counts)@[i] == count_in(s, old(keys)@[i]@),
        s.len() < usize::MAX,
    ensures
        final(keys)@.len() == final(counts)@.len(),
        final(keys)@.map_values(|k: String| k@) == dedup(s.push(x@)),
        forall|i: int| 0 <= i < final(counts)@.len() ==> #[trigger] final(counts)@[i] == count_in(s.push(x@), final(keys)@[i]@),
{
    let ghost sx = s.push(x@);
    assert(sx.drop_last() =~= s);
    assert(sx.last() == x@);
    let mut k: usize = 0;
    while k < keys.len()
        invariant
            k <= keys@.len(),
            keys@.len() == counts@.len(),
            keys@ == old(keys)@,
            counts@ == old(counts)@,
            old(keys)@.map_values(|k: String| k@) == dedup(s),
            forall|i: int| 0 <= i < old(counts)@.len() ==> #[trigger] old(counts)@[i] == count_in(s, old(keys)@[i]@),
            s.len() < usize::MAX,
            sx == s.push(x@),
            sx.drop_last() == s,
            forall|j: int| 0 <= j < k ==> (#[trigger] keys@[j])@ != x@,
        decreases keys@.len() - k,
    {
        if keys[k] == *x {
            proof {
                lemma_count_le_len(s, x@);
                lemma_dedup_distinct(s);
                assert(old(keys)@.map_values(|k: String| k@)[k as int] == x@);
                assert(dedup(s).len() == keys@.len());
                assert(dedup(s)[k as int] == x@);
                assert(dedup(s).contains(x@));
                assert(dedup(sx) == dedup(s));
                assert forall|i: int| 0 <= i < keys@.len() && i != k implies keys@[i]@ != x@ by {
                    assert(old(keys)@.map_values(|k: String| k@)[i] == keys@[i]@);
                }
            }
            let c = counts[k];
            assert(c == count_in(s, x@));
            counts.set(k, c + 1);
            return;
        }
        k = k + 1;
    }
    proof {
        if dedup(s).contains(x@) {
            let j = choose|j: int| 0 <= j < dedup(s).len() && dedup(s)[j] == x@;
            assert(old(keys)@.map_values(|k: String| k@)[j] == keys@[j]@);
        }
        lemma_dedup_absent(s, x@);
        assert(dedup(sx) == dedup(s).push(x@));
        assert forall|i: int| 0 <= i < keys@.len() implies keys@[i]@ == old(keys)@.map_values(|k: String| k@)[i] by {}
    }
    keys.push(x.clone());
    counts.push(1);
    assert(final(keys)@.map_values(|k: String| k@) =~= dedup(sx));
}

/// Adds one occurrence of `x` to parallel lists of browsers and their counts.
fn add_browser_occurrence(keys: &mut Vec<Browser>, counts: &mut Vec<usize>, x: &Browser, Ghost(s): Ghost<Seq<Browser>>)
    requires
        old(keys)@.len() == old(counts)@.len(),
        old(keys)@.map_values(|k: Browser| k) == dedup(s),
        forall|i: int| 0 <= i < old(counts)@.len() ==> #[trigger] old(counts)@[i] == count_in(s, old(keys)@[i]),
        s.len() < usize::MAX,
    ensures
        final(keys)@.len() == final(counts)@.len(),
        final(keys)@.map_values(|k: Browser| k) == dedup(s.push(*x)),
        forall|i: int| 0 <= i < final(counts)@.len() ==> #[trigger] final(counts)@[i] == count_in(s.push(*x), final(keys)@[i]),
{
    let ghost sx = s.push(*x);
    assert(sx.drop_last() =~= s);
    assert(sx.last() == *x);
    let mut k: usize = 0;
    while k < keys.len()
        invariant
            k <= keys@.len(),
            keys@.len() == counts@.len(),
            keys@ == old(keys)@,
            counts@ == old(counts)@,
            old(keys)@.map_values(|k: Browser| k) == dedup(s),
            forall|i: int| 0 <= i < old(counts)@.len() ==> #[trigger] old(counts)@[i] == count_in(s, old(keys)@[i]),
            s.len() < usize::MAX,
            sx == s.push(*x),
            sx.drop_last() == s,
            forall|j: int| 0 <= j < k ==> #[trigger] keys@[j] != *x,
        decreases keys@.len() - k,
    {
        if keys[k] == *x {
            proof {
                lemma_count_le_len(s, *x);
                lemma_dedup_distinct(s);
                assert(old(keys)@.map_values(|k: Browser| k)[k as int] == *x);
                assert(dedup(s).len() == keys@.len());
                assert(dedup(s)[k as int] == *x);
                assert(dedup(s).contains(*x));
                assert(dedup(sx) == dedup(s));
                assert forall|i: int| 0 <= i < keys@.len() && i != k implies keys@[i] != *x by {
                    assert(old(keys)@.map_values(|k: Browser| k)[i] == keys@[i]);
                }
            }
            let c = counts[k];
            assert(c == count_in(s, *x));
            counts.set(k, c + 1);
            return;
        }
        k = k + 1;
    }
    proof {
        if dedup(s).contains(*x) {
            let j = choose|j: int| 0 <= j < dedup(s).len() && dedup(s)[j] == *x;
            assert(old(keys)@.map_values(|k: Browser| k)[j] == keys@[j]);
        }
        lemma_dedup_absent(s, *x);
        assert(dedup(sx) == dedup(s).push(*x));
        assert forall|i: int| 0 <= i < keys@.len() implies keys@[i] == old(keys)@.map_values(|k: Browser| k)[i] by {}
    }
    keys.push(x.clone());
    counts.push(1);
    assert(final(keys)@.map_values(|k: Browser| k) =~= dedup(sx));
}

/// The keys of a list of tag counts.
pub open spec fn tag_keys(r: Seq<(String, usize)>) -> Seq<Seq<char>> {
    r.map_values(|p: (String, usize)| p.0@)
}

/// The keys of a list of browser counts.
pub open spec fn browser_keys(r: Seq<(Browser, usize)>) -> Seq<Browser> {
    r.map_values(|p: (Browser, usize)| p.0)
}

/// Each tag of the links once, in the order in which it first comes, with
/// the number of times the links use it.
pub fn tag_counts(links: &Vec<Link>) -> (r: Vec<(String, usize)>)
    requires
        all_tags(links_view(links@)).len() < usize::MAX,
    ensures
        tag_keys(r@) == dedup(all_tags(links_view(links@))),
        forall|i: int| 0 <= i < r@.len() ==> #[trigger] r@[i].1 == count_in(all_tags(links_view(links@)), r@[i].0@),
{
    let ghost ls = links_view(links@);
    let mut keys: Vec<String> = Vec::new();
    let mut counts: Vec<usize> = Vec::new();
    let mut i: usize = 0;
    assert(keys@.map_values(|k: String| k@) =~= dedup(all_tags(ls.take(0))));
    while i < links.len()
        invariant
            ls == links_view(links@),
            all_tags(ls).len() < usize::MAX,
            i <= links@.len(),
            keys@.len() == counts@.len(),
            keys@.map_values(|k: String| k@) == dedup(all_tags(ls.take(i as int))),
            forall|k: int| 0 <= k < counts@.len() ==> #[trigger] counts@[k] == count_in(all_tags(ls.take(i as int)), keys@[k]@),
        decreases links@.len() - i,
    {
        let tags = &links[i].tags;
        let ghost done = all_tags(ls.take(i as int));
        proof {
            lemma_all_tags_step(ls, i as int);
            lemma_all_tags_len_mono(ls, i + 1);
        }
        let mut j: usize = 0;
        assert(done + ls[i as int].tags.take(0) =~= done);
        while j < tags.len()
            invariant
                ls == links_view(links@),
                i < links@.len(),
                tags@ == links@[i as int].tags@,
                done == all_tags(ls.take(i as int)),
                (done + ls[i as int].tags).len() < usize::MAX,
                j <= tags@.len(),
                keys@.len() == counts@.len(),
                keys@.map_values(|k: String| k@) == dedup(done + ls[i as int].tags.take(j as int)),
                forall|k: int| 0 <= k < counts@.len() ==> #[trigger] counts@[k] == count_in(done + ls[i as int].tags.take(j as int), keys@[k]@),
            decreases tags@.len() - j,
        {
            let ghost seen = done + ls[i as int].tags.take(j as int);
            assert(ls[i as int].tags[j as int] == tags@[j as int]@);
            assert(seen.push(tags@[j as int]@) =~= done + ls[i as int].tags.take(j + 1));
            assert(seen.len() < usize::MAX);
            add_tag_occurrence(&mut keys, &mut counts, &tags[j], Ghost(seen));
            j = j + 1;
        }
        assert(ls[i as int].tags.take(j as int) =~= ls[i as int].tags);
        i = i + 1;
    }
    assert(ls.take(i as int) =~= ls);
    let mut r: Vec<(String, usize)> = Vec::new();
    let mut k: usize = 0;
    while k < keys.len()
        invariant
            k <= keys@.len(),
            keys@.len() == counts@.len(),
            r@.len() == k,
            forall|m: int| 0 <= m < k ==> (#[trigger] r@[m]).0@ == keys@[m]@ && r@[m].1 == counts@[m],
        decreases keys@.len() - k,
    {
        r.push((keys[k].clone(), counts[k]));
        k = k + 1;
    }
    assert(tag_keys(r@) =~= keys@.map_values(|k: String| k@));
    r
}

/// Each browser of the links once, in the order in which it first comes,
/// with the number of links that open in it.
pub fn browser_counts(links: &Vec<Link>) -> (r: Vec<(Browser, usize)>)
    ensures
        browser_keys(r@) == dedup(all_browsers(links_view(links@))),
        forall|i: int| 0 <= i < r@.len() ==> #[trigger] r@[i].1 == count_in(all_browsers(links_view(links@)), r@[i].0),
{
    let ghost bs = all_browsers(links_view(links@));
    let mut keys: Vec<Browser> = Vec::new();
    let mut counts: Vec<usize> = Vec::new();
    let mut i: usize = 0;
    assert(keys@.map_values(|k: Browser| k) =~= dedup(bs.take(0)));
    while i < links.len()
        invariant
            bs == all_browsers(links_view(links@)),
            i <= links@.len(),
            keys@.len() == counts@.len(),
            keys@.map_values(|k: Browser| k) == dedup(bs.take(i as int)),
            forall|k: int| 0 <= k < counts@.len() ==> #[trigger] counts@[k] == count_in(bs.take(i as int), keys@[k]),
        decreases links@.len() - i,
    {
        assert(bs.take(i as int).push(links@[i as int].browser) =~= bs.take(i + 1));
        add_browser_occurrence(&mut keys, &mut counts, &links[i].browser, Ghost(bs.take(i as int)));
        i = i + 1;
    }
    assert(bs.take(i as int) =~= bs);
    let mut r: Vec<(Browser, usize)> = Vec::new();
    let mut k: usize = 0;
    while k < keys.len()
        invariant
            k <= keys@.len(),
            keys@.len() == counts@.len(),
            r@.len() == k,
            forall|m: int| 0 <= m < k ==> (#[trigger] r@[m]).0 == keys@[m] && r@[m].1 == counts@[m],
        decreases keys@.len() - k,
    {
        r.push((keys[k], counts[k]));
        k = k + 1;
    }
    assert(browser_keys(r@) =~= keys@.map_values(|k: Browser| k));
    r
}

/// The first `n` links, those that have the tag `t`, in order.
pub open spec fn links_with_tag(ls: Seq<LinkView>, t: Seq<char>, n: int) -> Seq<LinkView>
    decreases n,
{
    if n <= 0 {
        Seq::empty()
    } else {
        links_with_tag(ls, t, n - 1) + if ls[n - 1].tags.contains(t) {
            seq![ls[n - 1]]
        } else {
            Seq::empty()
        }
    }
}

/// For each tag in turn, the links that have it.
pub open spec fn links_for_tags(ls: Seq<LinkView>, ts: Seq<Seq<char>>) -> Seq<LinkView>
    decreases ts.len(),
{
    if ts.len() == 0 {
        Seq::empty()
    } else {
        links_for_tags(ls, ts.drop_last()) + links_with_tag(ls, ts.last(), ls.len() as int)
    }
}

/// The first `n` links, those that open in `b`, in order.
pub open spec fn links_with_browser(ls: Seq<LinkView>, b: Browser, n: int) -> Seq<LinkView>
    decreases n,
{
    if n <= 0 {
        Seq::empty()
    } else {
        links_with_browser(ls, b, n - 1) + if ls[n - 1].browser == b {
            seq![ls[n - 1]]
        } else {
            Seq::empty()
        }
    }
}

/// For each browser in turn, the links that open in it.
pub open spec fn links_for_browsers(ls: Seq<LinkView>, bs: Seq<Browser>) -> Seq<LinkView>
    decreases bs.len(),
{
    if bs.len() == 0 {
        Seq::empty()
    } else {
        links_for_browsers(ls, bs.drop_last()) + links_with_browser(ls, bs.last(), ls.len() as int)
    }
}

/// The links shown for a choice of tags and browsers: the links with one of
/// the tags, tag after tag, kept where they open in one of the browsers,
/// browser after browser, each equal link once, where it first comes.
pub open spec fn displayed(ls: Seq<LinkView>, ts: Seq<Seq<char>>, bs: Seq<Browser>) -> Seq<LinkView> {
    dedup(links_for_browsers(links_for_tags(ls, ts), bs))
}

proof fn lemma_links_with_tag(ls: Seq<LinkView>, t: Seq<char>, n: int, x: LinkView)
    requires
        0 <= n <= ls.len(),
    ensures
        links_with_tag(ls, t, n).contains(x) <==> (ls.take(n).contains(x) && x.tags.contains(t)),
    decreases n,
{
    if n > 0 {
        lemma_links_with_tag(ls, t, n - 1, x);
        let prev = links_with_tag(ls, t, n - 1);
        let tail: Seq<LinkView> = if ls[n - 1].tags.contains(t) { seq![ls[n - 1]] } else { Seq::empty() };
        let pre = ls.take(n - 1);
        let whole = ls.take(n);
        assert(links_with_tag(ls, t, n) == prev + tail);
        assert(whole == pre.push(ls[n - 1]));
        if prev.contains(x) {
            let i = choose|i: int| 0 <= i < prev.len() && prev[i] == x;
            assert((prev + tail)[i] == x);
            let j = choose|j: int| 0 <= j < pre.len() && pre[j] == x;
            assert(whole[j] == x);
        }
        if whole.contains(x) && x.tags.contains(t) {
            let i = choose|i: int| 0 <= i < whole.len() && whole[i] == x;
            if i < n - 1 {
                assert(pre[i] == x);
            } else {
                assert((prev + tail)[prev.len() as int] == x);
            }
        }
        if (prev + tail).contains(x) {
            let i = choose|i: int| 0 <= i < (prev + tail).len() && (prev + tail)[i] == x;
            if i < prev.len() {
                assert(prev[i] == x);
            } else {
                assert(whole[n - 1] == x);
            }
        }
    }
}

proof fn lemma_links_for_tags(ls: Seq<LinkView>, ts: Seq<Seq<char>>, x: LinkView)
    ensures
        links_for_tags(ls, ts).contains(x) <==> (ls.contains(x)
            && exists|k: int| 0 <= k < ts.len() && x.tags.contains(#[trigger] ts[k])),
    decreases ts.len(),
{
    assert(ls.take(ls.len() as int) == ls);
    if ts.len() > 0 {
        let init = ts.drop_last();
        lemma_links_for_tags(ls, init, x);
        lemma_links_with_tag(ls, ts.last(), ls.len() as int, x);
        let a = links_for_tags(ls, init);
        let b = links_with_tag(ls, ts.last(), ls.len() as int);
        assert(links_for_tags(ls, ts) == a + b);
        if a.contains(x) {
            let i = choose|i: int| 0 <= i < a.len() && a[i] == x;
            assert((a + b)[i] == x);
            let k = choose|k: int| 0 <= k < init.len() && x.tags.contains(#[trigger] init[k]);
            assert(ts[k] == init[k]);
        }
        if b.contains(x) {
            let i = choose|i: int| 0 <= i < b.len() && b[i] == x;
            assert((a + b)[a.len() + i] == x);
            assert(ts[ts.len() - 1] == ts.last());
        }
        if (a + b).contains(x) {
            let i = choose|i: int| 0 <= i < (a + b).len() && (a + b)[i] == x;
            if i < a.len() {
                assert(a[i] == x);
            } else {
                assert(b[i - a.len()] == x);
            }
        }
        if ls.contains(x) && exists|k: int| 0 <= k < ts.len() && x.tags.contains(#[trigger] ts[k]) {
            let k = choose|k: int| 0 <= k < ts.len() && x.tags.contains(#[trigger] ts[k]);
            if k < init.len() {
                assert(init[k] == ts[k]);
            }
        }
    }
}

proof fn lemma_links_with_browser(ls: Seq<LinkView>, b: Browser, n: int, x: LinkView)
    requires
        0 <= n <= ls.len(),
    ensures
        links_with_browser(ls, b, n).contains(x) <==> (ls.take(n).contains(x) && x.browser == b),
    decreases n,
{
    if n > 0 {
        lemma_links_with_browser(ls, b, n - 1, x);
        let prev = links_with_browser(ls, b, n - 1);
        let tail: Seq<LinkView> = if ls[n - 1].browser == b { seq![ls[n - 1]] } else { Seq::empty() };
        let pre = ls.take(n - 1);
        let whole = ls.take(n);
        assert(links_with_browser(ls, b, n) == prev + tail);
        assert(whole == pre.push(ls[n - 1]));
        if prev.contains(x) {
            let i = choose|i: int| 0 <= i < prev.len() && prev[i] == x;
            assert((prev + tail)[i] == x);
            let j = choose|j: int| 0 <= j < pre.len() && pre[j] == x;
            assert(whole[j] == x);
        }
        if whole.contains(x) && x.browser == b {
            let i = choose|i: int| 0 <= i < whole.len() && whole[i] == x;
            if i < n - 1 {
                assert(pre[i] == x);
            } else {
                assert((prev + tail)[prev.len() as int] == x);
            }
        }
        if (prev + tail).contains(x) {
            let i = choose|i: int| 0 <= i < (prev + tail).len() && (prev + tail)[i] == x;
            if i < prev.len() {
                assert(prev[i] == x);
            } else {
                assert(whole[n - 1] == x);
            }
        }
    }
}

proof fn lemma_links_for_browsers(ls: Seq<LinkView>, bs: Seq<Browser>, x: LinkView)
    ensures
        links_for_browsers(ls, bs).contains(x) <==> (ls.contains(x) && bs.contains(x.browser)),
    decreases bs.len(),
{
    assert(ls.take(ls.len() as int) == ls);
    if bs.len() > 0 {
        let init = bs.drop_last();
        lemma_links_for_browsers(ls, init, x);
        lemma_links_with_browser(ls, bs.last(), ls.len() as int, x);
        let a = links_for_browsers(ls, init);
        let b = links_with_browser(ls, bs.last(), ls.len() as int);
        assert(links_for_browsers(ls, bs) == a + b);
        if a.contains(x) {
            let i = choose|i: int| 0 <= i < a.len() && a[i] == x;
            assert((a + b)[i] == x);
            let k = choose|k: int| 0 <= k < init.len() && init[k] == x.browser;
            assert(bs[k] == init[k]);
        }
        if b.contains(x) {
            let i = choose|i: int| 0 <= i < b.len() && b[i] == x;
            assert((a + b)[a.len() + i] == x);
            assert(bs[bs.len() - 1] == bs.last());
        }
        if (a + b).contains(x) {
            let i = choose|i: int| 0 <= i < (a + b).len() && (a + b)[i] == x;
            if i < a.len() {
                assert(a[i] == x);
            } else {
                assert(b[i - a.len()] == x);
            }
        }
        if ls.contains(x) && bs.contains(x.browser) {
            let k = choose|k: int| 0 <= k < bs.len() && bs[k] == x.browser;
            if k < init.len() {
                assert(init[k] == bs[k]);
            }
        }
    }
}

/// A link is shown exactly when it is in the list, has one of the chosen
/// tags and opens in one of the chosen browsers, and no two shown links are
/// equal.
pub proof fn lemma_displayed_links(ls: Seq<LinkView>, ts: Seq<Seq<char>>, bs: Seq<Browser>)
    ensures
        forall|x: LinkView| #[trigger] displayed(ls, ts, bs).contains(x) <==> (ls.contains(x)
            && (exists|k: int| 0 <= k < ts.len() && x.tags.contains(#[trigger] ts[k]))
            && bs.contains(x.browser)),
        forall|i: int, j: int|
            0 <= i < j < displayed(ls, ts, bs).len() ==> displayed(ls, ts, bs)[i] != displayed(ls, ts, bs)[j],
{
    let ft = links_for_tags(ls, ts);
    let fb = links_for_browsers(ft, bs);
    lemma_dedup_distinct(fb);
    assert forall|x: LinkView| #[trigger] displayed(ls, ts, bs).contains(x) <==> (ls.contains(x)
        && (exists|k: int| 0 <= k < ts.len() && x.tags.contains(#[trigger] ts[k]))
        && bs.contains(x.browser)) by {
        lemma_dedup_contains(fb, x);
        lemma_links_for_browsers(ft, bs, x);
        lemma_links_for_tags(ls, ts, x);
    }
}

/// Relies on `Itertools::unique` on links: it keeps the first of each group
/// of equal links and the order in which they come. Links are equal when
/// their views are, and their derived hash reads the same fields.
#[verifier::external_body]
fn unique_links(v: Vec<Link>) -> (r: Vec<Link>)
    ensures
        links_view(r@) == dedup(links_view(v@)),
{
    v.into_iter().unique().collect()
}

/// Whether a link has the tag `t`.
pub fn has_tag(link: &Link, t: &String) -> (r: bool)
    ensures
        r == link@.tags.contains(t@),
{
    let mut k: usize = 0;
    while k < link.tags.len()
        invariant
            k <= link.tags@.len(),
            forall|j: int| 0 <= j < k ==> link.tags@[j]@ != t@,
        decreases link.tags@.len() - k,
    {
        if link.tags[k] == *t {
            assert(link@.tags[k as int] == t@);
            return true;
        }
        k = k + 1;
    }
    proof {
        if link@.tags.contains(t@) {
            let j = choose|j: int| 0 <= j < link@.tags.len() && link@.tags[j] == t@;
            assert(link.tags@[j]@ == t@);
        }
    }
    false
}

/// The links shown for the chosen tags and browsers; see [`displayed`].
pub fn displayed_links(links: &Vec<Link>, displayed_tags: &Vec<String>, displayed_browsers: &Vec<Browser>) -> (r: Vec<Link>)
    ensures
        links_view(r@) == displayed(links_view(links@), strings_view(displayed_tags@), displayed_browsers@),
{
    let ghost ls = links_view(links@);
    let ghost ts = strings_view(displayed_tags@);
    let mut for_tags: Vec<Link> = Vec::new();
    let mut i: usize = 0;
    while i < displayed_tags.len()
        invariant
            ls == links_view(links@),
            ts == strings_view(displayed_tags@),
            i <= ts.len(),
            links_view(for_tags@) == links_for_tags(ls, ts.take(i as int)),
        decreases ts.len() - i,
    {
        let t = &displayed_tags[i];
        let ghost before = links_view(for_tags@);
        assert(ts.take(i + 1).drop_last() =~= ts.take(i as int));
        assert(ts.take(i + 1).last() == t@);
        let mut k: usize = 0;
        while k < links.len()
            invariant
                ls == links_view(links@),
                k <= ls.len(),
                links_view(for_tags@) == before + links_with_tag(ls, t@, k as int),
            decreases ls.len() - k,
        {
            assert(ls[k as int] == links@[k as int]@);
            let ghost prev = for_tags@;
            if has_tag(&links[k], t) {
                let c = links[k].copy();
                for_tags.push(c);
                assert(links_view(for_tags@) =~= links_view(prev).push(ls[k as int]));
            } else {
                assert(for_tags@ == prev);
            }
            assert(links_with_tag(ls, t@, k + 1) == links_with_tag(ls, t@, k as int) + if ls[k as int].tags.contains(t@) {
                seq![ls[k as int]]
            } else {
                Seq::empty()
            });
            k = k + 1;
            assert(links_view(for_tags@) =~= before + links_with_tag(ls, t@, k as int));
        }
        i = i + 1;
    }
    assert(ts.take(i as int) =~= ts);
    let ghost ps = links_view(for_tags@);
    let mut for_browsers: Vec<Link> = Vec::new();
    let mut i: usize = 0;
    while i < displayed_browsers.len()
        invariant
            ps == links_view(for_tags@),
            i <= displayed_browsers@.len(),
            links_view(for_browsers@) == links_for_browsers(ps, displayed_browsers@.take(i as int)),
        decreases displayed_browsers@.len() - i,
    {
        let b = displayed_browsers[i];
        let ghost before = links_view(for_browsers@);
        assert(displayed_browsers@.take(i + 1).drop_last() =~= displayed_browsers@.take(i as int));
        let mut k: usize = 0;
        while k < for_tags.len()
            invariant
                ps == links_view(for_tags@),
                k <= ps.len(),
                links_view(for_browsers@) == before + links_with_browser(ps, b, k as int),
            decreases ps.len() - k,
        {
            assert(ps[k as int] == for_tags@[k as int]@);
            let ghost prev = for_browsers@;
            if for_tags[k].browser == b {
                let c = for_tags[k].copy();
                for_browsers.push(c);
                assert(links_view(for_browsers@) =~= links_view(prev).push(ps[k as int]));
            } else {
                assert(for_browsers@ == prev);
            }
            assert(links_with_browser(ps, b, k + 1) == links_with_browser(ps, b, k as int) + if ps[k as int].browser == b {
                seq![ps[k as int]]
            } else {
                Seq::empty()
            });
            k = k + 1;
            assert(links_view(for_browsers@) =~= before + links_with_browser(ps, b, k as int));
        }
        i = i + 1;
    }
    assert(displayed_browsers@.take(i as int) =~= displayed_browsers@);
    unique_links(for_browsers)
}

/// The links of `shown` that have priority `p`, in order.
pub open spec fn with_priority(shown: Seq<LinkView>, p: char) -> Seq<LinkView>
    decreases shown.len(),
{
    if shown.len() == 0 {
        Seq::empty()
    } else {
        with_priority(shown.drop_last(), p) + if shown.last().priority == p {
            seq![shown.last()]
        } else {
            Seq::empty()
        }
    }
}

/// The shown links with the given priority, in the order they are shown:
/// the group of links under one priority.
pub fn links_with_priority(shown: &Vec<Link>, priority: char) -> (r: Vec<Link>)
    ensures
        links_view(r@) == with_priority(links_view(shown@), priority),
{
    let ghost ls = links_view(shown@);
    let mut r: Vec<Link> = Vec::new();
    let mut k: usize = 0;
    while k < shown.len()
        invariant
            ls == links_view(shown@),
            k <= ls.len(),
            links_view(r@) == with_priority(ls.take(k as int), priority),
        decreases ls.len() - k,
    {
        assert(ls.take(k + 1).drop_last() =~= ls.take(k as int));
        assert(ls[k as int] == shown@[k as int]@);
        if shown[k].priority == priority {
            r.push(shown[k].copy());
        }
        k = k + 1;
        assert(links_view(r@) =~= with_priority(ls.take(k as int), priority));
    }
    assert(ls.take(k as int) =~= ls);
    r
}

/// Whether a list of characters is in strictly increasing order.
pub open spec fn strictly_increasing(s: Seq<char>) -> bool {
    forall|i: int, j: int| 0 <= i < j < s.len() ==> s[i] < s[j]
}

/// The priorities of the links, each once, in increasing order.
pub fn link_priorities(links: &Vec<Link>) -> (r: Vec<char>)
    ensures
        strictly_increasing(r@),
        forall|c: char| r@.contains(c) <==> exists|i: int| 0 <= i < links@.len() && #[trigger] links@[i].priority == c,
{
    let mut r: Vec<char> = Vec::new();
    let mut i: usize = 0;
    while i < links.len()
        invariant
            i <= links@.len(),
            strictly_increasing(r@),
            forall|c: char| r@.contains(c) <==> exists|j: int| 0 <= j < i && #[trigger] links@[j].priority == c,
        decreases links@.len() - i,
    {
        let c = links[i].priority;
        let mut k: usize = 0;
        while k < r.len() && r[k] < c
            invariant
                k <= r@.len(),
                forall|j: int| 0 <= j < k ==> r@[j] < c,
            decreases r@.len() - k,
        {
            k = k + 1;
        }
        let ghost old_r = r@;
        if k < r.len() && r[k] == c {
            assert(r@[k as int] == c);
            assert forall|x: char| r@.contains(x) <==> (old_r.contains(x) || x == c) by {}
        } else {
            r.insert(k, c);
            assert(r@[k as int] == c);
            assert forall|a: int, b: int| 0 <= a < b < r@.len() implies r@[a] < r@[b] by {
                if b < k {
                } else if b == k {
                } else if a < k {
                    assert(r@[b] == old_r[b - 1]);
                    if k < old_r.len() {
                        assert(c < old_r[k as int] || c == old_r[k as int]);
                    }
                } else if a == k {
                    assert(r@[b] == old_r[b - 1]);
                } else {
                    assert(r@[a] == old_r[a - 1]);
                    assert(r@[b] == old_r[b - 1]);
                }
            }
            assert forall|x: char| r@.contains(x) <==> (old_r.contains(x) || x == c) by {
                if r@.contains(x) {
                    let j = choose|j: int| 0 <= j < r@.len() && r@[j] == x;
                    if j < k {
                        assert(old_r[j] == x);
                    } else if j > k {
                        assert(old_r[j - 1] == x);
                    }
                }
                if old_r.contains(x) {
                    let j = choose|j: int| 0 <= j < old_r.len() && old_r[j] == x;
                    if j < k {
                        assert(r@[j] == x);
                    } else {
                        assert(r@[j + 1] == x);
                    }
                }
            }
        }
        assert forall|x: char| r@.contains(x) <==> exists|j: int| 0 <= j < i + 1 && #[trigger] links@[j].priority == x by {
            assert(r@.contains(x) <==> (old_r.contains(x) || x == c));
            if x == c {
                assert(links@[i as int].priority == x);
            }
            if old_r.contains(x) {
                let j = choose|j: int| 0 <= j < i && #[trigger] links@[j].priority == x;
                assert(0 <= j < i + 1 && links@[j].priority == x);
            }
            if exists|j: int| 0 <= j < i + 1 && #[trigger] links@[j].priority == x {
                let j = choose|j: int| 0 <= j < i + 1 && #[trigger] links@[j].priority == x;
                if j < i {
                    assert(old_r.contains(x));
                }
            }
        }
        i = i + 1;
    }
    r
}

/// The items of `s` equal to `x`, in order.
pub open spec fn only<A>(s: Seq<A>, x: A) -> Seq<A>
    decreases s.len(),
{
    if s.len() == 0 {
        Seq::empty()
    } else {
        only(s.drop_last(), x) + if s.last() == x { seq![x] } else { Seq::empty() }
    }
}

/// What clicking a tag in the list of tags does: clicking the tag already
/// chosen shows every tag again and chooses none; clicking another tag shows
/// only that tag and chooses it. Gives the chosen tag and the tags shown.
pub fn click_tag(all_tags: &Vec<String>, clicked: &Option<String>, tag: &String) -> (r: (Option<String>, Vec<String>))
    ensures
        clicked.is_some() && clicked.unwrap()@ == tag@ ==> r.0.is_none() && strings_view(r.1@) == strings_view(all_tags@),
        !(clicked.is_some() && clicked.unwrap()@ == tag@) ==> r.0.is_some() && r.0.unwrap()@ == tag@
            && strings_view(r.1@) == only(strings_view(all_tags@), tag@),
{
    let same = match clicked {
        Some(c) => *c == *tag,
        None => false,
    };
    let mut shown: Vec<String> = Vec::new();
    let mut k: usize = 0;
    while k < all_tags.len()
        invariant
            k <= all_tags@.len(),
            same ==> strings_view(shown@) == strings_view(all_tags@).take(k as int),
            !same ==> strings_view(shown@) == only(strings_view(all_tags@).take(k as int), tag@),
        decreases all_tags@.len() - k,
    {
        let ghost before = shown@;
        let ghost ts = strings_view(all_tags@);
        assert(ts.take(k + 1).drop_last() =~= ts.take(k as int));
        if same || all_tags[k] == *tag {
            shown.push(all_tags[k].clone());
        }
        k = k + 1;
        assert(strings_view(shown@) =~= strings_view(before) + if same || ts[k - 1] == tag@ { seq![ts[k - 1]] } else { Seq::empty() });
        assert(same ==> strings_view(shown@) =~= ts.take(k as int));
    }
    assert(strings_view(all_tags@).take(k as int) =~= strings_view(all_tags@));
    if same {
        (None, shown)
    } else {
        (Some(tag.clone()), shown)
    }
}

/// What clicking a browser in the list of browsers does: clicking the
/// browser already chosen shows every browser again and chooses none;
/// clicking another browser shows only that browser and chooses it. Gives the
/// chosen browser and the browsers shown.
pub fn click_browser(all_browsers: &Vec<Browser>, clicked: Option<Browser>, browser: Browser) -> (r: (Option<Browser>, Vec<Browser>))
    ensures
        clicked == Some(browser) ==> r.0.is_none() && r.1@ == all_browsers@,
        clicked != Some(browser) ==> r.0 == Some(browser) && r.1@ == only(all_browsers@, browser),
{
    let same = match clicked {
        Some(c) => c == browser,
        None => false,
    };
    let mut shown: Vec<Browser> = Vec::new();
    let mut k: usize = 0;
    while k < all_browsers.len()
        invariant
            k <= all_browsers@.len(),
            same == (clicked == Some(browser)),
            same ==> shown@ == all_browsers@.take(k as int),
            !same ==> shown@ == only(all_browsers@.take(k as int), browser),
        decreases all_browsers@.len() - k,
    {
        assert(all_browsers@.take(k + 1).drop_last() =~= all_browsers@.take(k as int));
        if same || all_browsers[k] == browser {
            shown.push(all_browsers[k]);
        }
        k = k + 1;
        assert(same ==> shown@ =~= all_browsers@.take(k as int));
        assert(!same ==> shown@ =~= only(all_browsers@.take(k as int), browser));
    }
    assert(all_browsers@.take(k as int) =~= all_browsers@);
    if same {
        (None, shown)
    } else {
        (Some(browser), shown)
    }
}

} // verus!
