use bili_sync::api::InnerApiError;
use bili_sync::number::NumberError;
use bili_sync::sync::{
    deletion_warning, directories_to_delete, full_sync_response, full_sync_video_source,
    get_enabled_video_sources, insert_collection, insert_favorite, insert_submission,
    parse_removable_type, remove_video_source, require_stored, SourceFlag,
};
use bili_sync::videos::{PageRow, SourceRef, SourceType, VideoRelation, VideoRow};

const SOURCE: SourceRef = SourceRef { kind: SourceType::Collection, id: 2 };

fn video(id: i32, collection_id: Option<i32>, bvid: &str, path: &str) -> VideoRow {
    VideoRow {
        id,
        relation: VideoRelation {
            collection_id,
            favorite_id: Some(2),
            watch_later_id: None,
            submission_id: None,
        },
        bvid: bvid.to_string(),
        name: String::new(),
        path: path.to_string(),
        category: 2,
        valid: true,
        should_download: true,
        single_page: None,
        download_status: 0,
    }
}

fn page(id: i32, video_id: i32) -> PageRow {
    PageRow { id, video_id, pid: 1, path: None, download_status: 0 }
}

fn tables() -> (Vec<VideoRow>, Vec<PageRow>) {
    (
        vec![
            video(1, Some(2), "a", "/a"),
            video(2, Some(3), "b", "/b"),
            video(3, Some(2), "c", ""),
            video(4, None, "d", "/d"),
            video(5, Some(2), "e", "/e"),
        ],
        vec![page(11, 1), page(12, 2), page(13, 3), page(14, 1), page(15, 5)],
    )
}

#[test]
fn removing_a_source_takes_its_videos_and_pages() {
    let (videos, pages) = tables();
    let plan = remove_video_source(SOURCE, true, &videos, &pages).unwrap();
    assert_eq!(plan.video_ids, vec![1, 3, 5]);
    assert_eq!(plan.page_ids, vec![11, 13, 14, 15]);
    assert!(matches!(
        remove_video_source(SOURCE, false, &videos, &pages),
        Err(InnerApiError::NotFound(2))
    ));
}

#[test]
fn watch_later_cannot_be_removed() {
    assert_eq!(parse_removable_type("collections").unwrap(), SourceType::Collection);
    assert_eq!(parse_removable_type("favorites").unwrap(), SourceType::Favorite);
    assert_eq!(parse_removable_type("submissions").unwrap(), SourceType::Submission);
    for name in ["watch_later", "videos"] {
        assert!(matches!(
            parse_removable_type(name),
            Err(InnerApiError::BadRequest(text)) if text == "Invalid video source type"
        ));
    }
}

#[test]
fn full_sync_takes_what_the_source_no_longer_has() {
    let (videos, pages) = tables();
    let remote = vec!["e".to_string(), "z".to_string(), "b".to_string()];
    let plan = full_sync_video_source(SOURCE, &videos, &pages, &remote);
    assert_eq!(plan.video_ids, vec![1, 3]);
    assert_eq!(plan.paths, vec!["/a".to_string(), String::new()]);
    assert_eq!(plan.page_ids, vec![11, 13, 14]);
    assert_eq!(directories_to_delete(&plan, true), vec!["/a".to_string()]);
    assert!(directories_to_delete(&plan, false).is_empty());
    let warning = deletion_warning("/a", "No such file");
    assert_eq!(warning, "failed to remove /a: No such file");
    let answer = full_sync_response(&plan, true, vec![warning.clone()]);
    assert_eq!(answer.removed_count, 2);
    assert_eq!(answer.warnings, Some(vec![warning]));
    assert_eq!(full_sync_response(&plan, false, vec![]).warnings, None);
}

#[test]
fn full_sync_with_nothing_gone_answers_nothing() {
    let (videos, pages) = tables();
    let remote: Vec<String> = videos.iter().map(|v| v.bvid.clone()).collect();
    let plan = full_sync_video_source(SOURCE, &videos, &pages, &remote);
    assert!(plan.video_ids.is_empty());
    let answer = full_sync_response(&plan, true, vec![]);
    assert_eq!(answer.removed_count, 0);
    assert_eq!(answer.warnings, None);
    let plan = full_sync_video_source(SOURCE, &videos, &pages, &vec![]);
    assert_eq!(plan.video_ids, vec![1, 3, 5]);
}

#[test]
fn enabled_sources_come_in_any_order() {
    let flags = |from: i32| -> Vec<SourceFlag> {
        (from..from + 20).map(|id| SourceFlag { id, enabled: id % 2 == 0 }).collect()
    };
    let (favorites, watch_later, submissions, collections) =
        (flags(0), flags(100), flags(200), flags(300));
    let mut orders = Vec::new();
    for _ in 0..8 {
        let found =
            get_enabled_video_sources(&favorites, &watch_later, &submissions, &collections);
        let mut ids: Vec<i32> = found.iter().map(|s| s.id).collect();
        assert!(found.iter().all(|s| s.kind
            == match s.id / 100 {
                0 => SourceType::Favorite,
                1 => SourceType::WatchLater,
                2 => SourceType::Submission,
                _ => SourceType::Collection,
            }));
        orders.push(ids.clone());
        ids.sort();
        let expected: Vec<i32> = (0..4)
            .flat_map(|k| (0..20).filter(|i| i % 2 == 0).map(move |i| k * 100 + i))
            .collect();
        assert_eq!(ids, expected);
    }
    assert!(orders.iter().any(|order| order != &orders[0]));
}

#[test]
fn new_sources_start_disabled() {
    let favorite = insert_favorite(9, "title".to_string(), "/f".to_string());
    assert_eq!(favorite.f_id, 9);
    assert_eq!(favorite.name, "title");
    assert_eq!(favorite.path, "/f");
    assert!(!favorite.enabled);
    let collection = insert_collection(1, 2, 3, "name".to_string(), "/c".to_string());
    assert_eq!((collection.s_id, collection.m_id, collection.collection_type), (1, 2, 3));
    assert!(!collection.enabled);
    let submission =
        insert_submission("123456789012", "up".to_string(), "/s".to_string()).unwrap();
    assert_eq!(submission.upper_id, 123_456_789_012);
    assert_eq!(submission.upper_name, "up");
    assert!(!submission.enabled);
    let refused =
        |mid: &str| insert_submission(mid, String::new(), String::new()).unwrap_err();
    assert_eq!(refused("12x"), NumberError::InvalidDigit);
    assert_eq!(refused(""), NumberError::Empty);
    assert_eq!(refused("9223372036854775808"), NumberError::PosOverflow);
    assert_eq!(refused("-9223372036854775809"), NumberError::NegOverflow);
}

#[test]
fn sources_that_are_not_stored_are_refused() {
    let source = SourceRef { kind: SourceType::WatchLater, id: 41 };
    assert!(require_stored(source, true).is_ok());
    assert!(matches!(require_stored(source, false), Err(InnerApiError::NotFound(41))));
}
