use mdscrape::api::chapter::{ChapterAttributes, ChapterData};
use mdscrape::context::{DownloadType, ScrapeContext};
use mdscrape::origin::{origin_key_of, OriginInterner};
use mdscrape::retry::DownloadError;
use mdscrape::throttle::{AcquireOutcome, TicketPolicy};
use mdscrape::title::{first_fatal, plan_fetches, FeedPager, Progress};
use mdscrape::uuid_value::UuidValue;

fn uuid(s: &str) -> UuidValue {
    UuidValue::parse(s).expect("valid uuid text")
}

fn chapter(id: &str) -> ChapterData {
    ChapterData {
        id: uuid(id),
        data_type: "chapter".to_string(),
        attributes: ChapterAttributes {
            title: None,
            chapter: None,
            pages: 0,
            translated_language: "en".to_string(),
        },
        relationships: Vec::new(),
    }
}

const A: &str = "00000000-0000-0000-0000-00000000000a";
const B: &str = "00000000-0000-0000-0000-00000000000b";
const C: &str = "00000000-0000-0000-0000-00000000000c";

#[test]
fn plan_skips_existing_and_duplicates() {
    let ids = vec![uuid(A), uuid(B), uuid(A), uuid(C)];
    let done = vec![false, true, false, false];
    let plan = plan_fetches(&ids, &done);
    // B's output exists, the second A is a duplicate
    assert_eq!(plan, vec![0, 3]);
}

#[test]
fn rerun_over_existing_outputs_fetches_nothing() {
    // idempotent re-run: when every unit's output already exists, the
    // second run schedules zero fetches
    let ids = vec![uuid(A), uuid(B), uuid(A), uuid(C)];
    let all_done = vec![true, true, true, true];
    assert_eq!(plan_fetches(&ids, &all_done), Vec::<usize>::new());
}

#[test]
fn first_fatal_drains_and_keeps_the_first_error() {
    let results: Vec<Result<(), DownloadError>> = vec![
        Ok(()),
        Err(DownloadError::IOError),
        Err(DownloadError::ParseError),
        Ok(()),
    ];
    assert_eq!(first_fatal(results), Err(DownloadError::IOError));
    let fine: Vec<Result<(), DownloadError>> = vec![Ok(()), Ok(())];
    assert_eq!(first_fatal(fine), Ok(()));
    assert_eq!(first_fatal(Vec::new()), Ok(()));
}

#[test]
fn feed_pager_accumulates_until_the_total() {
    let mut pager = FeedPager::new();
    let done = pager.push_page(vec![chapter(A), chapter(B)], 3);
    assert!(!done);
    assert_eq!(pager.offset, 2);
    let done = pager.push_page(vec![chapter(C)], 3);
    assert!(done);
    let title = pager.into_title();
    assert_eq!(title.chapters.len(), 3);
    assert_eq!(title.chapters[0].id.text(), A);
    assert_eq!(title.chapters[2].id.text(), C);
}

#[test]
fn progress_counts_up_to_the_total() {
    let mut p = Progress::new(2);
    assert!(!p.is_done());
    p.advance();
    p.advance();
    assert!(p.is_done());
    assert_eq!(p.completed, 2);
}

#[test]
fn origin_keys_come_from_the_url() {
    // the key is the URL's origin, not the URL itself
    assert_eq!(
        origin_key_of("https://api.mangadex.org/manga/x/feed").unwrap(),
        "https://api.mangadex.org"
    );
    assert_eq!(
        origin_key_of("https://node.example:8443/data/abc/x1.png").unwrap(),
        "https://node.example:8443"
    );
    // a non-hierarchical scheme has an opaque origin
    assert_eq!(origin_key_of("foo:bar").unwrap(), "null");
    // text that is no URL is rejected as a parse error
    assert_eq!(origin_key_of("not a url"), Err(DownloadError::ParseError));
}

#[test]
fn interner_numbers_origins_densely() {
    let mut t = OriginInterner::new();
    let a = t.intern("https://api.mangadex.org".to_string());
    let b = t.intern("https://node.example".to_string());
    let a2 = t.intern("https://api.mangadex.org".to_string());
    assert_eq!(a, 0);
    assert_eq!(b, 1);
    assert_eq!(a2, a);
    assert_eq!(t.keys.len(), 2);
}

#[test]
fn context_carries_config_and_gates_admission() {
    let policy = TicketPolicy::new(1, 1, 5_000).expect("valid policy");
    let mut ctx = ScrapeContext::new(
        true,
        "en".to_string(),
        None,
        Some(9),
        vec![7],
        DownloadType::Title(uuid(A)),
        true,
        &policy,
    );
    assert!(ctx.verbose);
    assert_eq!(ctx.lang_code, "en");
    let first = match ctx.get_ticket(0, 1, 0) {
        AcquireOutcome::Granted(t) => t,
        other => panic!("expected a grant, got {:?}", other),
    };
    // a second caller waits; a priority caller joins the front class
    assert!(matches!(ctx.get_ticket(0, 2, 0), AcquireOutcome::QueuedLocal));
    assert!(matches!(ctx.get_priority_ticket(0, 3, 0), AcquireOutcome::QueuedLocal));
    let eff = ctx.ticketer.release(first, 0);
    assert_eq!(eff.granted.expect("one waiter woken").waiter, 3);
}
