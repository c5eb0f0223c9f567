//! One video can come from several sources. Where one source has brought it, the others need not
//! download it again: their videos and pages are marked as done and refer to the files that are
//! there.
use std::collections::HashMap;

use vstd::hash_map::StringHashMap;
use vstd::prelude::*;

use crate::videos::{DownloadMarks, PageRow, SourceRef, VideoRow};

verus! {

use crate::seqs::{drawn_from, lemma_filter_map_contains, lemma_filter_map_is_drawn};
use crate::videos::{completed, names_source, unhandled, ORDINARY_CATEGORY};

broadcast use vstd::std_specs::hash::group_hash_axioms;

/// A video that needs no download: its new state, and where its files are.
#[derive(Debug)]
pub struct VideoMark {
    pub id: i32,
    pub download_status: u32,
    pub path: String,
}

/// A page that needs no download: its new state, and where its file is, if a complete copy tells;
/// otherwise the page keeps the path that it has.
#[derive(Debug)]
pub struct PageMark {
    pub id: i32,
    pub download_status: u32,
    pub path: Option<String>,
}

/// What to mark.
#[derive(Debug)]
pub struct DedupPlan {
    pub videos: Vec<VideoMark>,
    pub pages: Vec<PageMark>,
}

/// The video of the source is to be downloaded, but some source has already brought it.
pub open spec fn duplicate(
    videos: Seq<VideoRow>,
    video: VideoRow,
    source: SourceRef,
    marks: DownloadMarks,
) -> bool {
    video.pending(source, marks) && completed(videos, video.bvid@, marks)
}

/// Where the files of the complete videos are. Of several under one name, the last one counts.
pub open spec fn completed_paths(videos: Seq<VideoRow>, marks: DownloadMarks) -> Map<
    Seq<char>,
    String,
>
    decreases videos.len(),
{
    if videos.len() == 0 {
        Map::empty()
    } else {
        let rest = completed_paths(videos.drop_last(), marks);
        let video = videos.last();
        if video.offers_path(marks) {
            rest.insert(video.bvid@, video.path)
        } else {
            rest
        }
    }
}

/// The names of the complete videos whose files are known.
pub open spec fn completed_names(videos: Seq<VideoRow>, marks: DownloadMarks) -> Map<i32, String>
    decreases videos.len(),
{
    if videos.len() == 0 {
        Map::empty()
    } else {
        let rest = completed_names(videos.drop_last(), marks);
        let video = videos.last();
        if video.offers_path(marks) {
            rest.insert(video.id, video.bvid)
        } else {
            rest
        }
    }
}

/// How a video of the source is marked, if it is.
pub open spec fn video_mark(
    paths: Map<Seq<char>, String>,
    video: VideoRow,
    source: SourceRef,
    marks: DownloadMarks,
) -> Option<VideoMark> {
    if video.pending(source, marks) && paths.contains_key(video.bvid@) {
        Some(
            VideoMark {
                id: video.id,
                download_status: marks.video_done,
                path: paths[video.bvid@],
            },
        )
    } else {
        None
    }
}

/// The videos of the source that are marked.
pub open spec fn video_marks(
    videos: Seq<VideoRow>,
    source: SourceRef,
    marks: DownloadMarks,
) -> Seq<VideoMark> {
    videos.filter_map(
        |video: VideoRow| video_mark(completed_paths(videos, marks), video, source, marks),
    )
}

/// The names of the videos of the source that are marked; `paths` are those of the complete
/// videos.
pub open spec fn marked_names(
    videos: Seq<VideoRow>,
    paths: Map<Seq<char>, String>,
    source: SourceRef,
    marks: DownloadMarks,
) -> Map<i32, String>
    decreases videos.len(),
{
    if videos.len() == 0 {
        Map::empty()
    } else {
        let rest = marked_names(videos.drop_last(), paths, source, marks);
        let video = videos.last();
        if video_mark(paths, video, source, marks) is Some {
            rest.insert(video.id, video.bvid)
        } else {
            rest
        }
    }
}

/// The page belongs to a complete video under this name, has this number, and it is known where
/// its file is.
pub open spec fn offers_page(
    names: Map<i32, String>,
    page: PageRow,
    bvid: Seq<char>,
    pid: i32,
) -> bool {
    &&& page.pid == pid
    &&& names.contains_key(page.video_id)
    &&& names[page.video_id]@ == bvid
    &&& page.path matches Some(path) && path@.len() > 0
}

/// Where the file of a page is: that of the last page that offers it. `names` are those of the
/// complete videos.
pub open spec fn source_page_path(
    names: Map<i32, String>,
    pages: Seq<PageRow>,
    bvid: Seq<char>,
    pid: i32,
) -> Option<String>
    decreases pages.len(),
{
    if pages.len() == 0 {
        None
    } else if offers_page(names, pages.last(), bvid, pid) {
        pages.last().path
    } else {
        source_page_path(names, pages.drop_last(), bvid, pid)
    }
}

/// How a page is marked, if it is: every page of a marked video is. `marked` are the names of the
/// marked videos, `names` those of the complete ones.
pub open spec fn page_mark(
    marked: Map<i32, String>,
    names: Map<i32, String>,
    pages: Seq<PageRow>,
    page: PageRow,
    marks: DownloadMarks,
) -> Option<PageMark> {
    if !marked.contains_key(page.video_id) {
        None
    } else {
        Some(
            PageMark {
                id: page.id,
                download_status: marks.page_done,
                path: source_page_path(names, pages, marked[page.video_id]@, page.pid),
            },
        )
    }
}

/// The pages that are marked.
pub open spec fn page_marks(
    videos: Seq<VideoRow>,
    pages: Seq<PageRow>,
    source: SourceRef,
    marks: DownloadMarks,
) -> Seq<PageMark> {
    let marked = marked_names(videos, completed_paths(videos, marks), source, marks);
    let names = completed_names(videos, marks);
    pages.filter_map(|page: PageRow| page_mark(marked, names, pages, page, marks))
}

fn collect_paths(videos: &Vec<VideoRow>, marks: DownloadMarks) -> (r: StringHashMap<String>)
    ensures
        r@ == completed_paths(videos@, marks),
{
    let mut r: StringHashMap<String> = StringHashMap::new();
    let mut i: usize = 0;
    while i < videos.len()
        invariant
            i <= videos.len(),
            r@ == completed_paths(videos@.take(i as int), marks),
        decreases videos.len() - i,
    {
        proof {
            assert(videos@.take(i + 1).drop_last() =~= videos@.take(i as int));
        }
        let video = &videos[i];
        if video.download_status >= marks.completed_from && !video.path.as_str().is_empty() {
            r.insert(video.bvid.clone(), video.path.clone());
        }
        i += 1;
    }
    assert(videos@.take(i as int) =~= videos@);
    r
}

fn collect_names(videos: &Vec<VideoRow>, marks: DownloadMarks) -> (r: HashMap<i32, String>)
    ensures
        r@ == completed_names(videos@, marks),
{
    let mut r: HashMap<i32, String> = HashMap::new();
    let mut i: usize = 0;
    while i < videos.len()
        invariant
            i <= videos.len(),
            r@ == completed_names(videos@.take(i as int), marks),
        decreases videos.len() - i,
    {
        proof {
            assert(videos@.take(i + 1).drop_last() =~= videos@.take(i as int));
        }
        let video = &videos[i];
        if video.download_status >= marks.completed_from && !video.path.as_str().is_empty() {
            r.insert(video.id, video.bvid.clone());
        }
        i += 1;
    }
    assert(videos@.take(i as int) =~= videos@);
    r
}

fn find_page_path(
    names: &HashMap<i32, String>,
    pages: &Vec<PageRow>,
    bvid: &String,
    pid: i32,
) -> (r: Option<String>)
    ensures
        r == source_page_path(names@, pages@, bvid@, pid),
{
    let mut i: usize = pages.len();
    assert(pages@.take(i as int) =~= pages@);
    while i > 0
        invariant
            i <= pages.len(),
            source_page_path(names@, pages@, bvid@, pid) == source_page_path(
                names@,
                pages@.take(i as int),
                bvid@,
                pid,
            ),
        decreases i,
    {
        i -= 1;
        let page = &pages[i];
        proof {
            assert(pages@.take(i + 1).drop_last() =~= pages@.take(i as int));
        }
        if page.pid == pid {
            if let Some(name) = names.get(&page.video_id) {
                if *name == *bvid {
                    if let Some(path) = &page.path {
                        if !path.as_str().is_empty() {
                            return Some(path.clone());
                        }
                    }
                }
            }
        }
    }
    None
}

/// Marks the videos of a source that some source has already brought, and all their pages: each
/// refers to the files that are there. The videos are those of all sources, the pages those of
/// all these videos. As many videos are marked as the plan lists.
pub fn mark_cross_source_duplicates(
    videos: &Vec<VideoRow>,
    pages: &Vec<PageRow>,
    source: SourceRef,
    marks: DownloadMarks,
) -> (r: DedupPlan)
    ensures
        r.videos@ == video_marks(videos@, source, marks),
        r.pages@ == page_marks(videos@, pages@, source, marks),
{
    let paths = collect_paths(videos, marks);
    let names = collect_names(videos, marks);
    let ghost pick_video = |video: VideoRow| video_mark(paths@, video, source, marks);
    let mut marked: HashMap<i32, String> = HashMap::new();
    let mut video_list: Vec<VideoMark> = Vec::new();
    let mut i: usize = 0;
    while i < videos.len()
        invariant
            i <= videos.len(),
            pick_video == (|video: VideoRow| video_mark(paths@, video, source, marks)),
            video_list@ == videos@.take(i as int).filter_map(pick_video),
            marked@ == marked_names(videos@.take(i as int), paths@, source, marks),
        decreases videos.len() - i,
    {
        proof {
            assert(videos@.take(i + 1).drop_last() =~= videos@.take(i as int));
        }
        let video = &videos[i];
        if video.is_pending(source, marks) {
            if let Some(path) = paths.get(video.bvid.as_str()) {
                video_list.push(
                    VideoMark {
                        id: video.id,
                        download_status: marks.video_done,
                        path: path.clone(),
                    },
                );
                marked.insert(video.id, video.bvid.clone());
            }
        }
        i += 1;
    }
    assert(videos@.take(i as int) =~= videos@);
    let ghost pick_page = |page: PageRow| page_mark(marked@, names@, pages@, page, marks);
    let mut page_list: Vec<PageMark> = Vec::new();
    let mut j: usize = 0;
    while j < pages.len()
        invariant
            j <= pages.len(),
            pick_page == (|page: PageRow| page_mark(marked@, names@, pages@, page, marks)),
            page_list@ == pages@.take(j as int).filter_map(pick_page),
        decreases pages.len() - j,
    {
        proof {
            assert(pages@.take(j + 1).drop_last() =~= pages@.take(j as int));
        }
        let page = &pages[j];
        if let Some(bvid) = marked.get(&page.video_id) {
            let path = find_page_path(&names, pages, bvid, page.pid);
            page_list.push(PageMark { id: page.id, download_status: marks.page_done, path });
        }
        j += 1;
    }
    assert(pages@.take(j as int) =~= pages@);
    DedupPlan { videos: video_list, pages: page_list }
}

proof fn lemma_completed_paths(videos: Seq<VideoRow>, marks: DownloadMarks, bvid: Seq<char>)
    ensures
        completed_paths(videos, marks).contains_key(bvid) <==> (exists|i: int|
            0 <= i < videos.len() && (#[trigger] videos[i]).offers_path(marks) && videos[i].bvid@
                == bvid),
        completed_paths(videos, marks).contains_key(bvid) ==> (exists|i: int|
            0 <= i < videos.len() && (#[trigger] videos[i]).offers_path(marks) && videos[i].bvid@
                == bvid && videos[i].path == completed_paths(videos, marks)[bvid]),
    decreases videos.len(),
{
    if videos.len() > 0 {
        let rest = videos.drop_last();
        lemma_completed_paths(rest, marks, bvid);
        assert(videos[videos.len() - 1] == videos.last());
        assert(forall|i: int| 0 <= i < rest.len() ==> videos[i] == #[trigger] rest[i]);
        if completed_paths(rest, marks).contains_key(bvid) {
            let i = choose|i: int|
                0 <= i < rest.len() && (#[trigger] rest[i]).offers_path(marks) && rest[i].bvid@
                    == bvid && rest[i].path == completed_paths(rest, marks)[bvid];
            assert(videos[i] == rest[i]);
        }
        if exists|i: int|
            0 <= i < videos.len() && (#[trigger] videos[i]).offers_path(marks) && videos[i].bvid@
                == bvid {
            let i = choose|i: int|
                0 <= i < videos.len() && (#[trigger] videos[i]).offers_path(marks)
                    && videos[i].bvid@ == bvid;
            if i < rest.len() {
                assert(rest[i] == videos[i]);
            }
        }
    }
}

/// A pending video is marked exactly where some complete video has the same name and known
/// files, and the mark refers to the files of such a video.
pub proof fn law_marks_refer_to_complete_videos(
    videos: Seq<VideoRow>,
    video: VideoRow,
    source: SourceRef,
    marks: DownloadMarks,
)
    ensures
        video_mark(completed_paths(videos, marks), video, source, marks) is Some <==> (
        video.pending(source, marks) && exists|i: int|
            0 <= i < videos.len() && (#[trigger] videos[i]).offers_path(marks) && videos[i].bvid@
                == video.bvid@),
        video_mark(completed_paths(videos, marks), video, source, marks) matches Some(mark) ==> {
            &&& mark.id == video.id
            &&& duplicate(videos, video, source, marks)
            &&& exists|i: int|
                0 <= i < videos.len() && (#[trigger] videos[i]).offers_path(marks)
                    && videos[i].bvid@ == video.bvid@ && videos[i].path == mark.path
        },
{
    lemma_completed_paths(videos, marks, video.bvid@);
}

/// A pending ordinary video is either still to be downloaded or a duplicate, never both: what is
/// marked here is not downloaded, and what is not marked for want of a complete copy is.
pub proof fn law_pending_videos_are_split(
    videos: Seq<VideoRow>,
    video: VideoRow,
    source: SourceRef,
    marks: DownloadMarks,
)
    requires
        video.pending(source, marks),
        video.category == ORDINARY_CATEGORY,
    ensures
        unhandled(videos, video, source, marks) != duplicate(videos, video, source, marks),
{
}

/// A video with its mark put on.
pub open spec fn with_mark(video: VideoRow, mark: VideoMark) -> VideoRow {
    VideoRow { download_status: mark.download_status, path: mark.path, ..video }
}

/// A video that was marked is complete from then on: no later round marks or downloads it.
pub proof fn law_marked_videos_are_settled(
    videos: Seq<VideoRow>,
    later: Seq<VideoRow>,
    video: VideoRow,
    source: SourceRef,
    marks: DownloadMarks,
)
    requires
        marks.video_done >= marks.completed_from,
        video_mark(completed_paths(videos, marks), video, source, marks) is Some,
    ensures
        ({
            let mark = video_mark(completed_paths(videos, marks), video, source, marks)->0;
            let settled = with_mark(video, mark);
            &&& settled.offers_path(marks)
            &&& !unhandled(later, settled, source, marks)
            &&& !duplicate(later, settled, source, marks)
        }),
{
    lemma_completed_paths(videos, marks, video.bvid@);
}

proof fn lemma_completed_names(videos: Seq<VideoRow>, marks: DownloadMarks, id: i32)
    ensures
        completed_names(videos, marks).contains_key(id) ==> (exists|i: int|
            0 <= i < videos.len() && (#[trigger] videos[i]).offers_path(marks) && videos[i].id
                == id && videos[i].bvid == completed_names(videos, marks)[id]),
    decreases videos.len(),
{
    if videos.len() > 0 {
        let rest = videos.drop_last();
        lemma_completed_names(rest, marks, id);
        assert(videos[videos.len() - 1] == videos.last());
        assert(forall|i: int| 0 <= i < rest.len() ==> videos[i] == #[trigger] rest[i]);
        if completed_names(rest, marks).contains_key(id) {
            let i = choose|i: int|
                0 <= i < rest.len() && (#[trigger] rest[i]).offers_path(marks) && rest[i].id == id
                    && rest[i].bvid == completed_names(rest, marks)[id];
            assert(videos[i] == rest[i]);
        }
    }
}

proof fn lemma_source_page_path(
    names: Map<i32, String>,
    pages: Seq<PageRow>,
    bvid: Seq<char>,
    pid: i32,
)
    ensures
        source_page_path(names, pages, bvid, pid) is Some <==> (exists|i: int|
            0 <= i < pages.len() && #[trigger] offers_page(names, pages[i], bvid, pid)),
        source_page_path(names, pages, bvid, pid) is Some ==> (exists|i: int|
            0 <= i < pages.len() && #[trigger] offers_page(names, pages[i], bvid, pid)
                && pages[i].path == source_page_path(names, pages, bvid, pid)),
    decreases pages.len(),
{
    if pages.len() > 0 {
        let rest = pages.drop_last();
        lemma_source_page_path(names, rest, bvid, pid);
        assert(pages[pages.len() - 1] == pages.last());
        if source_page_path(names, rest, bvid, pid) is Some {
            let i = choose|i: int|
                0 <= i < rest.len() && #[trigger] offers_page(names, rest[i], bvid, pid)
                    && rest[i].path == source_page_path(names, rest, bvid, pid);
            assert(offers_page(names, pages[i], bvid, pid));
            assert(pages[i] == rest[i]);
        }
        if exists|i: int| 0 <= i < pages.len() && #[trigger] offers_page(names, pages[i], bvid, pid) {
            let i = choose|i: int|
                0 <= i < pages.len() && #[trigger] offers_page(names, pages[i], bvid, pid);
            if i < rest.len() {
                assert(offers_page(names, rest[i], bvid, pid));
            }
        }
    }
}

/// The names of the marked videos are kept under the ids of those videos that have a mark, and
/// under no other.
pub proof fn law_marked_names_are_those_of_marked_videos(
    videos: Seq<VideoRow>,
    paths: Map<Seq<char>, String>,
    source: SourceRef,
    marks: DownloadMarks,
    id: i32,
)
    ensures
        marked_names(videos, paths, source, marks).contains_key(id) <==> (exists|i: int|
            0 <= i < videos.len() && (#[trigger] videos[i]).id == id && video_mark(
                paths,
                videos[i],
                source,
                marks,
            ) is Some),
    decreases videos.len(),
{
    if videos.len() > 0 {
        let rest = videos.drop_last();
        law_marked_names_are_those_of_marked_videos(rest, paths, source, marks, id);
        assert(videos[videos.len() - 1] == videos.last());
        assert(forall|i: int| 0 <= i < rest.len() ==> videos[i] == #[trigger] rest[i]);
        if marked_names(rest, paths, source, marks).contains_key(id) {
            let i = choose|i: int|
                0 <= i < rest.len() && (#[trigger] rest[i]).id == id && video_mark(
                    paths,
                    rest[i],
                    source,
                    marks,
                ) is Some;
            assert(videos[i] == rest[i]);
        }
        if exists|i: int|
            0 <= i < videos.len() && (#[trigger] videos[i]).id == id && video_mark(
                paths,
                videos[i],
                source,
                marks,
            ) is Some {
            let i = choose|i: int|
                0 <= i < videos.len() && (#[trigger] videos[i]).id == id && video_mark(
                    paths,
                    videos[i],
                    source,
                    marks,
                ) is Some;
            if i < rest.len() {
                assert(rest[i] == videos[i]);
            }
        }
    }
}

/// A marked video leaves no page unfinished: each of its pages is marked as done.
pub proof fn law_pages_of_marked_videos_are_marked(
    videos: Seq<VideoRow>,
    pages: Seq<PageRow>,
    page: PageRow,
    source: SourceRef,
    marks: DownloadMarks,
)
    requires
        pages.contains(page),
        marked_names(videos, completed_paths(videos, marks), source, marks).contains_key(
            page.video_id,
        ),
    ensures
        exists|mark: PageMark| #[trigger]
            page_marks(videos, pages, source, marks).contains(mark) && mark.id == page.id
                && mark.download_status == marks.page_done,
{
    let marked = marked_names(videos, completed_paths(videos, marks), source, marks);
    let names = completed_names(videos, marks);
    let pick = |page: PageRow| page_mark(marked, names, pages, page, marks);
    let mark = page_mark(marked, names, pages, page, marks)->0;
    let j = choose|j: int| 0 <= j < pages.len() && pages[j] == page;
    assert(pick(pages[j]) == Some(mark));
    lemma_filter_map_contains(pages, pick, mark);
    assert(page_marks(videos, pages, source, marks).contains(mark));
}

/// The mark of a page: its video is marked, and the path is that of a page with the same number
/// that a complete copy under the same name offers, where one does.
pub open spec fn marks_page_of_copy(
    videos: Seq<VideoRow>,
    pages: Seq<PageRow>,
    page: PageRow,
    mark: PageMark,
    source: SourceRef,
    marks: DownloadMarks,
) -> bool {
    let marked = marked_names(videos, completed_paths(videos, marks), source, marks);
    let names = completed_names(videos, marks);
    &&& marked.contains_key(page.video_id)
    &&& mark.path is Some <==> (exists|j: int|
        0 <= j < pages.len() && #[trigger] offers_page(
            names,
            pages[j],
            marked[page.video_id]@,
            page.pid,
        ))
    &&& mark.path matches Some(path) ==> path@.len() > 0 && (exists|j: int|
        0 <= j < pages.len() && #[trigger] offers_page(
            names,
            pages[j],
            marked[page.video_id]@,
            page.pid,
        ) && pages[j].path == Some(path) && exists|k: int|
            0 <= k < videos.len() && (#[trigger] videos[k]).id == pages[j].video_id
                && videos[k].offers_path(marks) && videos[k].bvid@ == marked[page.video_id]@)
}

/// Every page that is marked is a page of a marked video, and the mark tells a path exactly where
/// a page of a complete copy with the same number has one: it is the path of such a page.
pub proof fn law_marked_pages_refer_to_files(
    videos: Seq<VideoRow>,
    pages: Seq<PageRow>,
    mark: PageMark,
    source: SourceRef,
    marks: DownloadMarks,
)
    requires
        page_marks(videos, pages, source, marks).contains(mark),
    ensures
        mark.download_status == marks.page_done,
        exists|i: int|
            0 <= i < pages.len() && (#[trigger] pages[i]).id == mark.id && marks_page_of_copy(
                videos,
                pages,
                pages[i],
                mark,
                source,
                marks,
            ),
{
    let marked = marked_names(videos, completed_paths(videos, marks), source, marks);
    let names = completed_names(videos, marks);
    let pick = |page: PageRow| page_mark(marked, names, pages, page, marks);
    lemma_filter_map_contains(pages, pick, mark);
    let i = choose|i: int| 0 <= i < pages.len() && #[trigger] pick(pages[i]) == Some(mark);
    let page = pages[i];
    let bvid = marked[page.video_id]@;
    lemma_source_page_path(names, pages, bvid, page.pid);
    assert(page.id == mark.id);
    if mark.path is Some {
        let j = choose|j: int|
            0 <= j < pages.len() && #[trigger] offers_page(names, pages[j], bvid, page.pid)
                && pages[j].path == mark.path;
        lemma_completed_names(videos, marks, pages[j].video_id);
        let k = choose|k: int|
            0 <= k < videos.len() && (#[trigger] videos[k]).offers_path(marks) && videos[k].id
                == pages[j].video_id && videos[k].bvid == names[pages[j].video_id];
        assert(videos[k].id == pages[j].video_id);
    }
}

/// The row is a complete copy of the video under a name, and tells where its files are.
pub open spec fn is_copy(row: VideoRow, bvid: Seq<char>, marks: DownloadMarks) -> bool {
    row.bvid@ == bvid && row.download_status >= marks.completed_from && row.path@.len() > 0
}

/// Some row is a complete copy of the video under a name.
pub open spec fn has_copy(videos: Seq<VideoRow>, bvid: Seq<char>, marks: DownloadMarks) -> bool {
    exists|j: int| 0 <= j < videos.len() && is_copy(#[trigger] videos[j], bvid, marks)
}

/// The row says that the video is to be downloaded for the source, while some row is a complete
/// copy of it.
pub open spec fn brought_elsewhere(
    videos: Seq<VideoRow>,
    video: VideoRow,
    source: SourceRef,
    marks: DownloadMarks,
) -> bool {
    &&& video.valid
    &&& video.should_download
    &&& video.download_status < marks.completed_from
    &&& video.single_page is Some
    &&& names_source(video.relation, source)
    &&& has_copy(videos, video.bvid@, marks)
}

/// The path is that of the last complete copy of the video under a name.
pub open spec fn is_path_of_copy(
    videos: Seq<VideoRow>,
    bvid: Seq<char>,
    marks: DownloadMarks,
    path: String,
) -> bool {
    exists|j: int|
        0 <= j < videos.len() && is_copy(#[trigger] videos[j], bvid, marks) && videos[j].path == path
            && forall|k: int|
            j < k < videos.len() ==> !is_copy(#[trigger] videos[k], bvid, marks)
}

proof fn lemma_path_of_copy(videos: Seq<VideoRow>, marks: DownloadMarks, bvid: Seq<char>)
    ensures
        completed_paths(videos, marks).contains_key(bvid) <==> has_copy(videos, bvid, marks),
        has_copy(videos, bvid, marks) ==> is_path_of_copy(
            videos,
            bvid,
            marks,
            completed_paths(videos, marks)[bvid],
        ),
    decreases videos.len(),
{
    if videos.len() > 0 {
        let rest = videos.drop_last();
        let last = videos.len() - 1;
        lemma_path_of_copy(rest, marks, bvid);
        assert(videos[last] == videos.last());
        assert(forall|i: int| 0 <= i < rest.len() ==> videos[i] == #[trigger] rest[i]);
        if has_copy(rest, bvid, marks) {
            let j = choose|j: int| 0 <= j < rest.len() && is_copy(#[trigger] rest[j], bvid, marks);
            assert(is_copy(videos[j], bvid, marks));
        }
        if has_copy(videos, bvid, marks) {
            let j = choose|j: int|
                0 <= j < videos.len() && is_copy(#[trigger] videos[j], bvid, marks);
            if j < last {
                assert(is_copy(rest[j], bvid, marks));
            }
            if is_copy(videos[last], bvid, marks) {
                assert(is_path_of_copy(videos, bvid, marks, videos[last].path));
            } else {
                let path = completed_paths(rest, marks)[bvid];
                let l = choose|l: int|
                    0 <= l < rest.len() && is_copy(#[trigger] rest[l], bvid, marks) && rest[l].path
                        == path && forall|k: int|
                        l < k < rest.len() ==> !is_copy(#[trigger] rest[k], bvid, marks);
                assert(is_copy(videos[l], bvid, marks));
                assert forall|k: int| l < k < videos.len() implies !is_copy(
                    #[trigger] videos[k],
                    bvid,
                    marks,
                ) by {
                    if k < last {
                        assert(!is_copy(rest[k], bvid, marks));
                    }
                }
                assert(is_path_of_copy(videos, bvid, marks, path));
            }
        }
    }
}

/// Exactly the videos of the source are marked that are to be downloaded while some source has
/// brought a complete copy under the same name: whether they have one page or several, and
/// whatever their category. Each is marked once, as done, with the path of the last such copy.
pub proof fn law_videos_brought_elsewhere_are_marked(
    videos: Vec<VideoRow>,
    pages: Vec<PageRow>,
    source: SourceRef,
    marks: DownloadMarks,
    plan: DedupPlan,
)
    requires
        call_ensures(mark_cross_source_duplicates, (&videos, &pages, source, marks), plan),
    ensures
        drawn_from(
            videos@,
            plan.videos@,
            |video: VideoRow| brought_elsewhere(videos@, video, source, marks),
            |video: VideoRow, mark: VideoMark|
                mark.id == video.id && mark.download_status == marks.video_done && is_path_of_copy(
                    videos@,
                    video.bvid@,
                    marks,
                    mark.path,
                ),
        ),
{
    let takes = |video: VideoRow| brought_elsewhere(videos@, video, source, marks);
    let gives = |video: VideoRow, mark: VideoMark|
        mark.id == video.id && mark.download_status == marks.video_done && is_path_of_copy(
            videos@,
            video.bvid@,
            marks,
            mark.path,
        );
    let pick = |video: VideoRow|
        video_mark(completed_paths(videos@, marks), video, source, marks);
    assert forall|i: int|
        #![trigger videos@[i]]
        0 <= i < videos@.len() implies (takes(videos@[i]) <==> pick(videos@[i]) is Some) && (pick(
        videos@[i],
    ) matches Some(b) ==> gives(videos@[i], b)) by {
        lemma_path_of_copy(videos@, marks, videos@[i].bvid@);
    }
    lemma_filter_map_is_drawn(videos@, pick, takes, gives);
}

/// The page is one of a complete copy of the video under a name: the copy's row and the page's row
/// belong together, the page has this number, and tells where its file is.
pub open spec fn is_page_of_copy(
    videos: Seq<VideoRow>,
    page: PageRow,
    bvid: Seq<char>,
    pid: i32,
    marks: DownloadMarks,
) -> bool {
    &&& page.pid == pid
    &&& page.path matches Some(path) && path@.len() > 0
    &&& exists|j: int|
        0 <= j < videos.len() && (#[trigger] videos[j]).id == page.video_id && is_copy(
            videos[j],
            bvid,
            marks,
        )
}

/// The path of a mark: that of the last page with this number of a complete copy of the video
/// under a name, and none exactly where there is no such page.
pub open spec fn is_path_of_page(
    videos: Seq<VideoRow>,
    pages: Seq<PageRow>,
    bvid: Seq<char>,
    pid: i32,
    marks: DownloadMarks,
    path: Option<String>,
) -> bool {
    match path {
        None => forall|j: int|
            0 <= j < pages.len() ==> !is_page_of_copy(
                videos,
                #[trigger] pages[j],
                bvid,
                pid,
                marks,
            ),
        Some(_) => exists|j: int|
            0 <= j < pages.len() && is_page_of_copy(videos, #[trigger] pages[j], bvid, pid, marks)
                && pages[j].path == path && forall|k: int|
                j < k < pages.len() ==> !is_page_of_copy(
                    videos,
                    #[trigger] pages[k],
                    bvid,
                    pid,
                    marks,
                ),
    }
}

/// No two videos have the same id.
pub open spec fn ids_are_unique(videos: Seq<VideoRow>) -> bool {
    forall|i: int, j: int|
        0 <= i < j < videos.len() ==> (#[trigger] videos[i]).id != (#[trigger] videos[j]).id
}

proof fn lemma_unique_ids_in_front(videos: Seq<VideoRow>)
    requires
        videos.len() > 0,
        ids_are_unique(videos),
    ensures
        ids_are_unique(videos.drop_last()),
{
    let rest = videos.drop_last();
    assert forall|i: int, j: int| 0 <= i < j < rest.len() implies (#[trigger] rest[i]).id != (
    #[trigger] rest[j]).id by {
        assert(videos[i].id != videos[j].id);
    }
}

proof fn lemma_names_of_copies(videos: Seq<VideoRow>, marks: DownloadMarks, id: i32)
    requires
        ids_are_unique(videos),
    ensures
        completed_names(videos, marks).contains_key(id) <==> (exists|j: int|
            0 <= j < videos.len() && (#[trigger] videos[j]).id == id && is_copy(
                videos[j],
                videos[j].bvid@,
                marks,
            )),
        forall|j: int|
            0 <= j < videos.len() && (#[trigger] videos[j]).id == id && is_copy(
                videos[j],
                videos[j].bvid@,
                marks,
            ) ==> completed_names(videos, marks)[id] == videos[j].bvid,
    decreases videos.len(),
{
    if videos.len() > 0 {
        let rest = videos.drop_last();
        let last = videos.len() - 1;
        lemma_unique_ids_in_front(videos);
        lemma_names_of_copies(rest, marks, id);
        assert(videos[last] == videos.last());
        assert(forall|i: int| 0 <= i < rest.len() ==> videos[i] == #[trigger] rest[i]);
        assert(forall|i: int| 0 <= i < last ==> (#[trigger] videos[i]).id != videos[last].id);
        if completed_names(rest, marks).contains_key(id) {
            let j = choose|j: int|
                0 <= j < rest.len() && (#[trigger] rest[j]).id == id && is_copy(
                    rest[j],
                    rest[j].bvid@,
                    marks,
                );
            assert(videos[j].id == id);
        }
        assert forall|j: int|
            0 <= j < videos.len() && (#[trigger] videos[j]).id == id && is_copy(
                videos[j],
                videos[j].bvid@,
                marks,
            ) implies completed_names(videos, marks).contains_key(id) && completed_names(
            videos,
            marks,
        )[id] == videos[j].bvid by {
            if j < last {
                assert(rest[j].id == id);
            }
        }
    }
}

proof fn lemma_names_of_marked(
    videos: Seq<VideoRow>,
    paths: Map<Seq<char>, String>,
    source: SourceRef,
    marks: DownloadMarks,
    id: i32,
)
    requires
        ids_are_unique(videos),
    ensures
        forall|j: int|
            0 <= j < videos.len() && (#[trigger] videos[j]).id == id && video_mark(
                paths,
                videos[j],
                source,
                marks,
            ) is Some ==> marked_names(videos, paths, source, marks)[id] == videos[j].bvid,
    decreases videos.len(),
{
    if videos.len() > 0 {
        let rest = videos.drop_last();
        let last = videos.len() - 1;
        lemma_unique_ids_in_front(videos);
        lemma_names_of_marked(rest, paths, source, marks, id);
        assert(videos[last] == videos.last());
        assert(forall|i: int| 0 <= i < last ==> (#[trigger] videos[i]).id != videos[last].id);
        assert forall|j: int|
            0 <= j < videos.len() && (#[trigger] videos[j]).id == id && video_mark(
                paths,
                videos[j],
                source,
                marks,
            ) is Some implies marked_names(videos, paths, source, marks)[id] == videos[j].bvid by {
            if j < last {
                assert(rest[j] == videos[j]);
                assert(rest[j].id == id);
            }
        }
    }
}

proof fn lemma_path_of_page(
    videos: Seq<VideoRow>,
    pages: Seq<PageRow>,
    bvid: Seq<char>,
    pid: i32,
    marks: DownloadMarks,
)
    requires
        ids_are_unique(videos),
    ensures
        is_path_of_page(
            videos,
            pages,
            bvid,
            pid,
            marks,
            source_page_path(completed_names(videos, marks), pages, bvid, pid),
        ),
    decreases pages.len(),
{
    let names = completed_names(videos, marks);
    if pages.len() > 0 {
        let rest = pages.drop_last();
        let last = pages.len() - 1;
        lemma_path_of_page(videos, rest, bvid, pid, marks);
        assert(pages[last] == pages.last());
        assert(forall|i: int| 0 <= i < rest.len() ==> pages[i] == #[trigger] rest[i]);
        let page = pages[last];
        lemma_names_of_copies(videos, marks, page.video_id);
        assert(offers_page(names, page, bvid, pid) <==> is_page_of_copy(
            videos,
            page,
            bvid,
            pid,
            marks,
        )) by {
            if offers_page(names, page, bvid, pid) {
                let j = choose|j: int|
                    0 <= j < videos.len() && (#[trigger] videos[j]).id == page.video_id && is_copy(
                        videos[j],
                        videos[j].bvid@,
                        marks,
                    );
                assert(names[page.video_id] == videos[j].bvid);
                assert(is_copy(videos[j], bvid, marks));
            }
            if is_page_of_copy(videos, page, bvid, pid, marks) {
                let j = choose|j: int|
                    0 <= j < videos.len() && (#[trigger] videos[j]).id == page.video_id && is_copy(
                        videos[j],
                        bvid,
                        marks,
                    );
                assert(is_copy(videos[j], videos[j].bvid@, marks));
                assert(names[page.video_id] == videos[j].bvid);
            }
        }
        let path = source_page_path(names, pages, bvid, pid);
        if is_page_of_copy(videos, page, bvid, pid, marks) {
            assert(path == page.path);
            assert(is_path_of_page(videos, pages, bvid, pid, marks, path));
        } else {
            assert(path == source_page_path(names, rest, bvid, pid));
            if path is Some {
                let j = choose|j: int|
                    0 <= j < rest.len() && is_page_of_copy(
                        videos,
                        #[trigger] rest[j],
                        bvid,
                        pid,
                        marks,
                    ) && rest[j].path == path && forall|k: int|
                        j < k < rest.len() ==> !is_page_of_copy(
                            videos,
                            #[trigger] rest[k],
                            bvid,
                            pid,
                            marks,
                        );
                assert(is_page_of_copy(videos, pages[j], bvid, pid, marks));
                assert forall|k: int| j < k < pages.len() implies !is_page_of_copy(
                    videos,
                    #[trigger] pages[k],
                    bvid,
                    pid,
                    marks,
                ) by {
                    if k < last {
                        assert(!is_page_of_copy(videos, rest[k], bvid, pid, marks));
                    }
                }
            } else {
                assert forall|j: int| 0 <= j < pages.len() implies !is_page_of_copy(
                    videos,
                    #[trigger] pages[j],
                    bvid,
                    pid,
                    marks,
                ) by {
                    if j < last {
                        assert(!is_page_of_copy(videos, rest[j], bvid, pid, marks));
                    }
                }
            }
        }
    }
}

/// All pages of a marked video are marked as done, and no others. The mark of a page tells a path
/// exactly where a complete copy of the video, under the same name, has a page with the same
/// number and a file: it is the path of the last such page. Whether the video has one page or
/// several is no matter.
pub proof fn law_pages_refer_to_the_files_of_the_copy(
    videos: Vec<VideoRow>,
    pages: Vec<PageRow>,
    source: SourceRef,
    marks: DownloadMarks,
    plan: DedupPlan,
)
    requires
        ids_are_unique(videos@),
        call_ensures(mark_cross_source_duplicates, (&videos, &pages, source, marks), plan),
    ensures
        drawn_from(
            pages@,
            plan.pages@,
            |page: PageRow|
                exists|i: int|
                    0 <= i < videos@.len() && (#[trigger] videos@[i]).id == page.video_id
                        && brought_elsewhere(videos@, videos@[i], source, marks),
            |page: PageRow, mark: PageMark|
                mark.id == page.id && mark.download_status == marks.page_done && forall|i: int|
                    0 <= i < videos@.len() && (#[trigger] videos@[i]).id == page.video_id
                        ==> is_path_of_page(
                        videos@,
                        pages@,
                        videos@[i].bvid@,
                        page.pid,
                        marks,
                        mark.path,
                    ),
        ),
{
    let takes = |page: PageRow|
        exists|i: int|
            0 <= i < videos@.len() && (#[trigger] videos@[i]).id == page.video_id
                && brought_elsewhere(videos@, videos@[i], source, marks);
    let gives = |page: PageRow, mark: PageMark|
        mark.id == page.id && mark.download_status == marks.page_done && forall|i: int|
            0 <= i < videos@.len() && (#[trigger] videos@[i]).id == page.video_id
                ==> is_path_of_page(
                videos@,
                pages@,
                videos@[i].bvid@,
                page.pid,
                marks,
                mark.path,
            );
    let paths = completed_paths(videos@, marks);
    let marked = marked_names(videos@, paths, source, marks);
    let names = completed_names(videos@, marks);
    let pick = |page: PageRow| page_mark(marked, names, pages@, page, marks);
    assert forall|n: int|
        #![trigger pages@[n]]
        0 <= n < pages@.len() implies (takes(pages@[n]) <==> pick(pages@[n]) is Some) && (pick(
        pages@[n],
    ) matches Some(b) ==> gives(pages@[n], b)) by {
        let page = pages@[n];
        let id = page.video_id;
        law_marked_names_are_those_of_marked_videos(videos@, paths, source, marks, id);
        lemma_names_of_marked(videos@, paths, source, marks, id);
        assert forall|i: int| 0 <= i < videos@.len() implies (brought_elsewhere(
            videos@,
            #[trigger] videos@[i],
            source,
            marks,
        ) <==> video_mark(paths, videos@[i], source, marks) is Some) by {
            lemma_path_of_copy(videos@, marks, videos@[i].bvid@);
        }
        if takes(page) {
            let i = choose|i: int|
                0 <= i < videos@.len() && (#[trigger] videos@[i]).id == id && brought_elsewhere(
                    videos@,
                    videos@[i],
                    source,
                    marks,
                );
            assert(marked.contains_key(id));
            lemma_path_of_page(videos@, pages@, videos@[i].bvid@, page.pid, marks);
            assert(marked[id] == videos@[i].bvid);
            let mark = page_mark(marked, names, pages@, page, marks)->0;
            assert forall|k: int|
                0 <= k < videos@.len() && (#[trigger] videos@[k]).id == id implies is_path_of_page(
                videos@,
                pages@,
                videos@[k].bvid@,
                page.pid,
                marks,
                mark.path,
            ) by {
                if k < i {
                    assert(videos@[k].id != videos@[i].id);
                } else if i < k {
                    assert(videos@[i].id != videos@[k].id);
                }
            }
        }
        if pick(page) is Some {
            let i = choose|i: int|
                0 <= i < videos@.len() && (#[trigger] videos@[i]).id == id && video_mark(
                    paths,
                    videos@[i],
                    source,
                    marks,
                ) is Some;
            assert(brought_elsewhere(videos@, videos@[i], source, marks));
        }
    }
    lemma_filter_map_is_drawn(pages@, pick, takes, gives);
}

} // verus!
