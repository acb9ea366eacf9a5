use google_ai_rs::client::{
    create_cached_content_request, get_model_request, list_request, name_request, update_cached_content_request,
    PageIterator, DEFAULT_PAGE_SIZE,
};
use google_ai_rs::content::Content;
use google_ai_rs::error::Error;
use google_ai_rs::genai::CachedContent;

#[test]
fn pages_come_out_in_order() {
    let mut it: PageIterator<u32> = PageIterator::new();
    assert_eq!(it.page_to_fetch(), Some(""));
    assert!(it.next().is_none());
    it.add_page(vec![1, 2], "tok".to_owned());
    assert_eq!(it.page_to_fetch(), None);
    assert_eq!(it.next(), Some(1));
    assert_eq!(it.next(), Some(2));
    assert_eq!(it.page_to_fetch(), Some("tok"));
    it.add_page(vec![3], String::new());
    assert_eq!(it.next(), Some(3));
    assert!(it.is_done());
    assert_eq!(it.page_to_fetch(), None);
    assert_eq!(it.next(), None);
}

#[test]
fn cache_requests() {
    let named = CachedContent {
        name: Some("cachedContents/x".to_owned()),
        ..CachedContent::for_model("m", vec![Content::user("c")])
    };
    match create_cached_content_request(named) {
        Err(Error::InvalidArgument(m)) => assert_eq!(m, "CachedContent name must be empty for creation"),
        other => panic!("unexpected {other:?}"),
    }
    let unnamed = CachedContent::for_model("m", vec![Content::user("c")]);
    let upd = update_cached_content_request(&unnamed);
    assert_eq!(upd.update_mask.unwrap().paths, vec![String::new()]);
    let req = create_cached_content_request(unnamed).unwrap();
    assert_eq!(req.cached_content.unwrap().model.as_deref(), Some("models/m"));
}

#[test]
fn list_and_name_requests() {
    let l = list_request("next");
    assert_eq!((l.page_size, l.page_token.as_str(), l.filter.as_str()), (DEFAULT_PAGE_SIZE, "next", ""));
    assert_eq!(get_model_request("gemini-pro").name, "models/gemini-pro");
    assert_eq!(get_model_request("tunedModels/t").name, "tunedModels/t");
    assert_eq!(name_request("cachedContents/a").name, "cachedContents/a");
}

#[test]
fn every_item_of_every_page_comes_once() {
    let pages: Vec<(Vec<u32>, &str)> = vec![(vec![1, 2], "a"), (vec![], "b"), (vec![3], "c"), (vec![4, 5], "")];
    let mut it: PageIterator<u32> = PageIterator::new();
    let mut fetched = 0;
    let mut out = Vec::new();
    loop {
        while let Some(tok) = it.page_to_fetch().map(|t| t.to_owned()) {
            let want = if fetched == 0 { "" } else { pages[fetched - 1].1 };
            assert_eq!(tok, want);
            let (items, next) = pages[fetched].clone();
            it.add_page(items, next.to_owned());
            fetched += 1;
        }
        match it.next() {
            Some(x) => out.push(x),
            None => break,
        }
    }
    assert_eq!(out, vec![1, 2, 3, 4, 5]);
    assert_eq!(fetched, pages.len());
    assert!(it.is_done());
}
