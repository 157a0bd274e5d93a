use elefren::IterStep;
use elefren::Page;

fn page(items: &[&str], link: Option<&str>) -> Page<String> {
    Page::new(items.iter().map(|s| s.to_string()).collect(), link)
}

#[test]
fn page_without_link_header_is_terminal() {
    let p = page(&["a", "b"], None);
    assert_eq!(p.next_url(), None);
    assert_eq!(p.prev_url(), None);
}

#[test]
fn page_keeps_items_in_server_order() {
    let p = page(&["one", "two", "three"], None);
    let items: Vec<&str> = p.items().iter().map(|s| s.as_str()).collect();
    assert_eq!(items, vec!["one", "two", "three"]);
}

#[test]
fn page_reads_both_relations() {
    let p = page(&[], Some("<https://x/next>; rel=\"next\", <https://x/prev>; rel=\"prev\""));
    assert_eq!(p.next_url().map(|s| s.as_str()), Some("https://x/next"));
    assert_eq!(p.prev_url().map(|s| s.as_str()), Some("https://x/prev"));
}

/// Drive the flattening iterator over a fixed chain of pages, returning
/// the yielded items and how many fetches were requested.  `limit` stops
/// the drive once that many items were taken.
fn drive(start: Page<String>, chain: &[(&str, Page<String>)], limit: usize) -> (Vec<String>, usize) {
    let mut iter = start.into_items_iter();
    let mut got: Vec<String> = Vec::new();
    let mut fetches: usize = 0;
    loop {
        if got.len() == limit {
            break;
        }
        match iter.step() {
            IterStep::Item(x) => got.push(x),
            IterStep::Fetch(url) => {
                fetches += 1;
                let found = chain.iter().find(|(u, _)| *u == url).map(|(_, p)| p.clone_page());
                iter.advance(found);
            },
            IterStep::End => break,
        }
    }
    (got, fetches)
}

trait ClonePage {
    fn clone_page(&self) -> Page<String>;
}

impl ClonePage for Page<String> {
    fn clone_page(&self) -> Page<String> {
        let items: Vec<String> = self.items().to_vec();
        let link = match (self.next_url(), self.prev_url()) {
            (Some(n), Some(p)) => Some(format!("<{}>; rel=\"next\", <{}>; rel=\"prev\"", n, p)),
            (Some(n), None) => Some(format!("<{}>; rel=\"next\"", n)),
            (None, Some(p)) => Some(format!("<{}>; rel=\"prev\"", p)),
            (None, None) => None,
        };
        Page::new(items, link.as_deref())
    }
}

fn three_page_chain() -> (Page<String>, Vec<(&'static str, Page<String>)>) {
    let p1 = page(&["a1", "a2"], Some("<https://x/2>; rel=\"next\""));
    let p2 = page(&["b1", "b2"], Some("<https://x/3>; rel=\"next\""));
    let p3 = page(&["c1"], None);
    (p1, vec![("https://x/2", p2), ("https://x/3", p3)])
}

#[test]
fn flattening_iterator_counts_all_items() {
    let (p1, chain) = three_page_chain();
    let (got, fetches) = drive(p1, &chain, usize::MAX);
    assert_eq!(got, vec!["a1", "a2", "b1", "b2", "c1"]);
    assert_eq!(got.len(), 5);
    assert_eq!(fetches, 2);
}

#[test]
fn taking_three_items_fetches_exactly_once() {
    let (p1, chain) = three_page_chain();
    let (got, fetches) = drive(p1, &chain, 3);
    assert_eq!(got, vec!["a1", "a2", "b1"]);
    assert_eq!(fetches, 1);
}

#[test]
fn failed_fetch_ends_iteration_silently() {
    let p1 = page(&["a1"], Some("<https://x/2>; rel=\"next\""));
    let mut iter = p1.into_items_iter();
    assert!(matches!(iter.step(), IterStep::Item(_)));
    assert!(matches!(iter.step(), IterStep::Fetch(_)));
    iter.advance(None);
    assert!(matches!(iter.step(), IterStep::End));
    assert!(matches!(iter.step(), IterStep::End));
}

#[test]
fn empty_page_with_next_link_continues() {
    let p1 = page(&[], Some("<https://x/2>; rel=\"next\""));
    let p2 = page(&["z"], None);
    let (got, fetches) = drive(p1, &[("https://x/2", p2)], usize::MAX);
    assert_eq!(got, vec!["z"]);
    assert_eq!(fetches, 1);
}
