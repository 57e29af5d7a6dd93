use mdscrape::api::at_home::{ChapterFileList, ServerInfoResponse};
use mdscrape::api::chapter::{ChapterAttributes, ChapterData, ChapterResponse};
use mdscrape::chapter::{extension_of, page_file_name, page_url, ChapterInfo};
use mdscrape::escape_path_string;
use mdscrape::title::{feed_url, sanitize_chapter_name, TitleData};
use mdscrape::uuid_value::UuidValue;

fn uuid(s: &str) -> UuidValue {
    UuidValue::parse(s).expect("valid uuid text")
}

#[test]
fn escape_path_string_replaces_separators() {
    assert_eq!(escape_path_string("a/b/c".to_string()), "a-b-c");
    assert_eq!(escape_path_string("plain".to_string()), "plain");
    assert_eq!(escape_path_string("".to_string()), "");
}

#[test]
fn sanitize_chapter_name_makes_names_path_safe() {
    assert_eq!(sanitize_chapter_name("One/Two"), "One\\Two");
    assert_eq!(sanitize_chapter_name("nul\0here"), "nul0here");
    assert_eq!(sanitize_chapter_name("Tomo-chan"), "Tomo-chan");
}

#[test]
fn uuid_parsing_validates_and_folds_case() {
    let u = uuid("417D64E1-6C88-48F8-B507-AD43E9636888");
    assert_eq!(u.text(), "417d64e1-6c88-48f8-b507-ad43e9636888");
    assert!(UuidValue::parse("417d64e1-6c88-48f8-b507-ad43e963688").is_none()); // too short
    assert!(UuidValue::parse("417d64e16c88-48f8-b507-ad43e9636888x").is_none()); // hyphen misplaced
    assert!(UuidValue::parse("417d64e1-6c88-48f8-b507-ad43e963688g").is_none()); // not hex
    let v = uuid("417d64e1-6c88-48f8-b507-ad43e9636888");
    assert!(u.same_id(&v));
    assert!(!u.same_id(&uuid("76ee7069-23b4-493c-bc44-34ccbf3051a8")));
}

#[test]
fn lookup_urls_are_exact() {
    let id = uuid("417d64e1-6c88-48f8-b507-ad43e9636888");
    assert_eq!(
        ChapterInfo::chapter_info_url(&id),
        "https://api.mangadex.org/chapter/417d64e1-6c88-48f8-b507-ad43e9636888"
    );
    assert_eq!(
        ChapterInfo::at_home_url(&id),
        "https://api.mangadex.org/at-home/server/417d64e1-6c88-48f8-b507-ad43e9636888"
    );
}

#[test]
fn feed_url_is_exact() {
    let id = uuid("76ee7069-23b4-493c-bc44-34ccbf3051a8");
    assert_eq!(
        feed_url(&id, 2, "en"),
        "https://api.mangadex.org/manga/76ee7069-23b4-493c-bc44-34ccbf3051a8/feed?offset=2&limit=500&translatedLanguage[]=en&order[volume]=asc&order[chapter]=asc"
    );
}

#[test]
fn page_names_number_and_keep_the_extension() {
    assert_eq!(extension_of("x1.png"), "png");
    assert_eq!(extension_of("a.b.jpg"), "jpg");
    assert_eq!(extension_of("noext"), "noext");
    assert_eq!(extension_of("odd."), "");
    assert_eq!(page_file_name(0, "x1.png"), "0001.png");
    assert_eq!(page_file_name(11, "p.jpeg"), "0012.jpeg");
    // a page number wider than the padding keeps all its digits
    assert_eq!(page_file_name(99999, "p.png"), "100000.png");
    assert_eq!(page_url("https://host/data/abc", "x1.png"), "https://host/data/abc/x1.png");
}

fn chapter(id: &str, title: Option<&str>) -> ChapterData {
    ChapterData {
        id: uuid(id),
        data_type: "chapter".to_string(),
        attributes: ChapterAttributes {
            title: title.map(|t| t.to_string()),
            chapter: Some("1".to_string()),
            pages: 2,
            translated_language: "en".to_string(),
        },
        relationships: Vec::new(),
    }
}

#[test]
fn chapter_directories_are_numbered_and_sanitized() {
    let t = TitleData {
        chapters: vec![
            chapter("417d64e1-6c88-48f8-b507-ad43e9636888", Some("One/Two")),
            chapter("76ee7069-23b4-493c-bc44-34ccbf3051a8", None),
        ],
    };
    let names = t.chapter_dir_names();
    assert_eq!(
        names,
        vec![
            "md00001 - 417d64e1-6c88-48f8-b507-ad43e9636888 - One\\Two",
            "md00002 - 76ee7069-23b4-493c-bc44-34ccbf3051a8 - ",
        ]
    );
}

#[test]
fn from_chapter_response_combines_both_lookups() {
    let response = ChapterResponse {
        result: "ok".to_string(),
        response: "entity".to_string(),
        data: chapter("417d64e1-6c88-48f8-b507-ad43e9636888", Some("T")),
    };
    let server_info = ServerInfoResponse {
        base_url: "https://node.example".to_string(),
        chapter: ChapterFileList {
            hash: "abc123".to_string(),
            data: vec!["x1.png".to_string(), "x2.png".to_string()],
        },
    };
    let info = ChapterInfo::from_chapter_response(response, server_info);
    assert_eq!(info.id.text(), "417d64e1-6c88-48f8-b507-ad43e9636888");
    assert_eq!(info.lang_code, "en");
    assert_eq!(info.hash, "abc123");
    assert_eq!(info.server, "https://node.example");
    assert_eq!(info.page_array, vec!["x1.png", "x2.png"]);
    assert_eq!(info.url_base(), "https://node.example/data/abc123");
}
