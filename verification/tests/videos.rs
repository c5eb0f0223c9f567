use bili_sync::batch::{chunked, create_pages, evaluate_statements};
use bili_sync::dedup::mark_cross_source_duplicates;
use bili_sync::details::{list_detail_columns, update_video_detail_models, DETAIL_COLUMNS};
use bili_sync::evaluation::{evaluated_statements, videos_to_evaluate};
use bili_sync::videos::{
    filter_unfilled_videos, filter_unhandled_video_pages, DownloadMarks, PageRow, SourceRef,
    SourceType, VideoRelation, VideoRow,
};

const MARKS: DownloadMarks =
    DownloadMarks { completed_from: 1 << 31, video_done: (1 << 31) | 7, page_done: (1 << 31) | 3 };
const FAVORITE: SourceRef = SourceRef { kind: SourceType::Favorite, id: 5 };
const SUBMISSION: SourceRef = SourceRef { kind: SourceType::Submission, id: 5 };

fn video(id: i32, source: SourceRef, bvid: &str, status: u32, path: &str) -> VideoRow {
    let mut relation = VideoRelation {
        collection_id: None,
        favorite_id: None,
        watch_later_id: None,
        submission_id: None,
    };
    relation.set_relation_id(source);
    VideoRow {
        id,
        relation,
        bvid: bvid.to_string(),
        name: format!("v{}", id),
        path: path.to_string(),
        category: 2,
        valid: true,
        should_download: true,
        single_page: Some(true),
        download_status: status,
    }
}

fn page(id: i32, video_id: i32, pid: i32, path: Option<&str>) -> PageRow {
    PageRow { id, video_id, pid, path: path.map(str::to_string), download_status: 0 }
}

#[test]
fn relation_is_to_one_source() {
    let relation = video(1, FAVORITE, "a", 0, "").relation;
    assert!(relation.belongs_to(FAVORITE));
    assert!(!relation.belongs_to(SUBMISSION));
    assert_eq!(relation.favorite_id, Some(5));
    assert_eq!(relation.submission_id, None);
    for kind in [SourceType::Collection, SourceType::WatchLater, SourceType::Submission] {
        let source = SourceRef { kind, id: 9 };
        assert!(video(1, source, "a", 0, "").relation.belongs_to(source));
        assert!(!video(1, source, "a", 0, "").relation.belongs_to(SourceRef { kind, id: 8 }));
    }
}

#[test]
fn unfilled_videos_wait_for_their_details() {
    let wanted = || {
        let mut v = video(1, FAVORITE, "a", 0, "");
        v.single_page = None;
        v
    };
    let mut wrong: Vec<VideoRow> = Vec::new();
    for i in 0..5 {
        let mut v = wanted();
        v.id = 10 + i;
        match i {
            0 => v.valid = false,
            1 => v.download_status = 1,
            2 => v.category = 1,
            3 => v.single_page = Some(false),
            _ => v.relation.favorite_id = Some(6),
        }
        wrong.push(v);
    }
    wrong.insert(2, wanted());
    let found = filter_unfilled_videos(&wrong, FAVORITE);
    assert_eq!(found.iter().map(|v| v.id).collect::<Vec<_>>(), vec![1]);
}

#[test]
fn unhandled_videos_come_with_their_pages() {
    let done = 1u32 << 31;
    let mut skipped = video(3, FAVORITE, "c", 0, "");
    skipped.should_download = false;
    let mut unfilled = video(7, FAVORITE, "g", 0, "");
    unfilled.single_page = None;
    let mut other_category = video(8, FAVORITE, "h", 0, "");
    other_category.category = 1;
    let videos = vec![
        video(1, FAVORITE, "a", done - 1, ""),
        video(2, FAVORITE, "b", done, "/b"),
        skipped,
        video(4, FAVORITE, "d", 0, ""),
        video(5, SUBMISSION, "d", done | 9, ""),
        video(6, SUBMISSION, "e", 0, ""),
        unfilled,
        other_category,
    ];
    let pages = vec![page(1, 1, 2, None), page(2, 4, 1, None), page(3, 1, 1, None)];
    let found = filter_unhandled_video_pages(&videos, &pages, FAVORITE, MARKS);
    assert_eq!(found.len(), 1);
    assert_eq!(found[0].0.id, 1);
    assert_eq!(found[0].1.iter().map(|p| p.id).collect::<Vec<_>>(), vec![1, 3]);
}

#[test]
fn duplicates_refer_to_the_files_that_are_there() {
    let done = 1u32 << 31;
    let videos = vec![
        video(1, FAVORITE, "a", 0, "/mine"),
        video(2, SUBMISSION, "a", done, "/first"),
        video(3, SUBMISSION, "a", done + 5, "/last"),
        video(4, SUBMISSION, "a", done, ""),
        video(5, FAVORITE, "b", 0, ""),
        video(6, SUBMISSION, "b", done, ""),
        video(7, FAVORITE, "c", 0, ""),
        video(8, SUBMISSION, "d", 0, ""),
    ];
    let pages = vec![
        page(10, 1, 1, None),
        page(11, 1, 2, Some("/old")),
        page(12, 1, 3, None),
        page(20, 2, 1, Some("/p1")),
        page(21, 3, 1, Some("")),
        page(22, 3, 2, Some("/p2")),
        page(23, 4, 3, Some("/not offered")),
        page(24, 5, 1, Some("/not marked")),
        page(25, 2, 2, Some("/p2 later")),
    ];
    let plan = mark_cross_source_duplicates(&videos, &pages, FAVORITE, MARKS);
    assert_eq!(plan.videos.len(), 1);
    assert_eq!(plan.videos[0].id, 1);
    assert_eq!(plan.videos[0].download_status, MARKS.video_done);
    assert_eq!(plan.videos[0].path, "/last");
    let marked: Vec<(i32, u32, Option<String>)> = plan
        .pages
        .iter()
        .map(|p| (p.id, p.download_status, p.path.clone()))
        .collect();
    assert_eq!(
        marked,
        vec![
            (10, MARKS.page_done, Some("/p1".to_string())),
            (11, MARKS.page_done, Some("/p2 later".to_string())),
            (12, MARKS.page_done, None),
        ]
    );
    let mut settled = videos;
    settled[0].download_status = plan.videos[0].download_status;
    settled[0].path = plan.videos[0].path.clone();
    assert!(mark_cross_source_duplicates(&settled, &pages, FAVORITE, MARKS).videos.is_empty());
    let left = filter_unhandled_video_pages(&settled, &pages, FAVORITE, MARKS);
    assert_eq!(left.iter().map(|v| v.0.id).collect::<Vec<_>>(), vec![7]);
}

#[test]
fn nothing_complete_means_nothing_marked() {
    let videos = vec![video(1, FAVORITE, "a", 0, ""), video(2, SUBMISSION, "a", 0, "/x")];
    let plan = mark_cross_source_duplicates(&videos, &vec![], FAVORITE, MARKS);
    assert!(plan.videos.is_empty());
    assert!(plan.pages.is_empty());
}

#[test]
fn lists_are_cut_into_full_pieces() {
    let pieces = chunked((0..7).collect::<Vec<i32>>(), 3);
    assert_eq!(pieces, vec![vec![0, 1, 2], vec![3, 4, 5], vec![6]]);
    assert_eq!(chunked((0..6).collect::<Vec<i32>>(), 3).len(), 2);
    assert!(chunked(Vec::<i32>::new(), 3).is_empty());
    let pages = create_pages((0..401).collect::<Vec<i32>>());
    assert_eq!(pages.iter().map(Vec::len).collect::<Vec<_>>(), vec![200, 200, 1]);
    assert_eq!(pages.concat(), (0..401).collect::<Vec<i32>>());
}

#[test]
fn flags_are_set_with_one_statement_a_batch() {
    assert!(evaluate_statements(vec![]).is_empty());
    assert_eq!(
        evaluate_statements(vec![(1, true), (-2, false)]),
        vec![
            "WITH tempdata(id, should_download) AS (VALUES (1, true), (-2, false)) UPDATE video SET should_download = tempdata.should_download FROM tempdata WHERE video.id = tempdata.id"
                .to_string()
        ]
    );
    let many = evaluate_statements((0..1001).map(|id| (id, id % 2 == 0)).collect());
    assert_eq!(many.len(), 3);
    assert!(many[2].contains("(VALUES (1000, true)) UPDATE"));
}

#[test]
fn rules_look_at_the_videos_of_their_source() {
    let videos = vec![
        video(1, FAVORITE, "a", 0, ""),
        video(2, SUBMISSION, "b", 0, ""),
        video(3, FAVORITE, "c", 0, ""),
        video(4, SourceRef { kind: SourceType::Favorite, id: 6 }, "d", 0, ""),
    ];
    let pages =
        vec![page(10, 3, 1, None), page(11, 2, 1, None), page(12, 1, 1, None), page(13, 3, 2, None)];
    let listed = videos_to_evaluate(&videos, &pages, FAVORITE);
    let seen: Vec<(i32, Vec<i32>)> = listed
        .iter()
        .map(|(video, own)| (video.id, own.iter().map(|page| page.id).collect()))
        .collect();
    assert_eq!(seen, vec![(1, vec![12]), (3, vec![10, 13])]);
    let verdicts: Vec<bool> = listed.iter().map(|(_, own)| own.len() > 1).collect();
    assert_eq!(
        evaluated_statements(&listed, &verdicts),
        vec![
            "WITH tempdata(id, should_download) AS (VALUES (1, false), (3, true)) UPDATE video SET should_download = tempdata.should_download FROM tempdata WHERE video.id = tempdata.id"
                .to_string()
        ]
    );
    let many: Vec<VideoRow> = (0..501).map(|id| video(id, FAVORITE, "a", 0, "")).collect();
    let listed = videos_to_evaluate(&many, &vec![], FAVORITE);
    let statements = evaluated_statements(&listed, &vec![true; 501]);
    assert_eq!(statements.len(), 2);
    assert!(statements[1].contains("(VALUES (500, true)) UPDATE"));
}

#[test]
fn details_are_written_with_one_statement() {
    assert!(update_video_detail_models(Vec::<Vec<Option<i32>>>::new()).is_none());
    let columns = list_detail_columns();
    assert_eq!(columns.len(), DETAIL_COLUMNS);
    let row = |from: i32| -> Vec<Option<i32>> { (from..from + 21).map(Some).collect() };
    let update = update_video_detail_models(vec![row(0), row(100)]).unwrap().unwrap();
    let expected: Vec<i32> = (0..21).chain(100..121).collect();
    assert_eq!(update.values, expected);
    assert_eq!(update.sql.matches('?').count(), 42);
    let one = update_video_detail_models(vec![row(0)]).unwrap().unwrap().sql;
    assert_eq!(
        one,
        "WITH tempdata(id, collection_id, favorite_id, watch_later_id, submission_id, upper_id, upper_name, upper_face, staff, name, bvid, intro, cover, ctime, pubtime, favtime, download_status, valid, should_download, tags, single_page) AS (VALUES (?, ?, ?, ?, ?, ?, ?, ?, ?, ?, ?, ?, ?, ?, ?, ?, ?, ?, ?, ?, ?)) UPDATE video SET collection_id = tempdata.collection_id, favorite_id = tempdata.favorite_id, watch_later_id = tempdata.watch_later_id, submission_id = tempdata.submission_id, upper_id = tempdata.upper_id, upper_name = tempdata.upper_name, upper_face = tempdata.upper_face, staff = tempdata.staff, name = tempdata.name, bvid = tempdata.bvid, intro = tempdata.intro, cover = tempdata.cover, ctime = tempdata.ctime, pubtime = tempdata.pubtime, favtime = tempdata.favtime, download_status = tempdata.download_status, valid = tempdata.valid, should_download = tempdata.should_download, tags = tempdata.tags, single_page = tempdata.single_page FROM tempdata WHERE video.id = tempdata.id"
    );
}

#[test]
fn unset_details_are_refused() {
    let row: Vec<Option<i32>> = (0..21).map(Some).collect();
    let mut broken = row.clone();
    broken[16] = None;
    broken[20] = None;
    assert_eq!(
        update_video_detail_models(vec![row, broken]).unwrap().unwrap_err(),
        "video column download_status is not set"
    );
}
