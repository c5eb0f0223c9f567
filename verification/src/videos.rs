//! The videos and their pages: where they come from, which of them are waiting for work, and
//! which of them need none because another source has already brought the same video.

use vstd::hash_set::StringHashSet;
use vstd::prelude::*;

verus! {

use crate::seqs::{drawn, drawn_from, lemma_drawn_from_the_same_places, lemma_filter_map_is_drawn};

/// The kinds of video sources.
#[derive(Clone, Copy, Debug, PartialEq, Eq, Structural)]
pub enum SourceType {
    Collection,
    Favorite,
    WatchLater,
    Submission,
}

/// A video source.
#[derive(Clone, Copy, Debug, PartialEq, Eq, Structural)]
pub struct SourceRef {
    pub kind: SourceType,
    pub id: i32,
}

/// The source that a video belongs to.
#[derive(Clone, Copy, Debug, PartialEq, Eq, Structural)]
pub struct VideoRelation {
    pub collection_id: Option<i32>,
    pub favorite_id: Option<i32>,
    pub watch_later_id: Option<i32>,
    pub submission_id: Option<i32>,
}

impl VideoRelation {
    /// The source of a kind that the video belongs to.
    pub open spec fn id_of(self, kind: SourceType) -> Option<i32> {
        match kind {
            SourceType::Collection => self.collection_id,
            SourceType::Favorite => self.favorite_id,
            SourceType::WatchLater => self.watch_later_id,
            SourceType::Submission => self.submission_id,
        }
    }

    /// The video belongs to the source.
    pub open spec fn belongs(self, source: SourceRef) -> bool {
        self.id_of(source.kind) == Some(source.id)
    }

    /// Whether the video belongs to the source.
    pub fn belongs_to(&self, source: SourceRef) -> (r: bool)
        ensures
            r == self.belongs(source),
    {
        let id: Option<i32> = match source.kind {
            SourceType::Collection => self.collection_id,
            SourceType::Favorite => self.favorite_id,
            SourceType::WatchLater => self.watch_later_id,
            SourceType::Submission => self.submission_id,
        };
        match id {
            Some(id) => id == source.id,
            None => false,
        }
    }

    /// Makes the video belong to the source, and leaves its other relations alone.
    pub fn set_relation_id(&mut self, source: SourceRef)
        ensures
            final(self).belongs(source),
            forall|kind: SourceType|
                kind != source.kind ==> #[trigger] final(self).id_of(kind) == old(self).id_of(kind),
    {
        match source.kind {
            SourceType::Collection => {
                self.collection_id = Some(source.id);
            },
            SourceType::Favorite => {
                self.favorite_id = Some(source.id);
            },
            SourceType::WatchLater => {
                self.watch_later_id = Some(source.id);
            },
            SourceType::Submission => {
                self.submission_id = Some(source.id);
            },
        }
    }
}

/// A video, as far as the work on it is decided by it.
#[derive(Debug)]
pub struct VideoRow {
    pub id: i32,
    pub relation: VideoRelation,
    pub bvid: String,
    pub name: String,
    pub path: String,
    pub category: i32,
    pub valid: bool,
    pub should_download: bool,
    /// Whether the video has a single page; unknown until its details are filled in.
    pub single_page: Option<bool>,
    pub download_status: u32,
}

impl Clone for VideoRow {
    fn clone(&self) -> (r: Self)
        ensures
            r == *self,
    {
        VideoRow {
            id: self.id,
            relation: self.relation,
            bvid: self.bvid.clone(),
            name: self.name.clone(),
            path: self.path.clone(),
            category: self.category,
            valid: self.valid,
            should_download: self.should_download,
            single_page: self.single_page,
            download_status: self.download_status,
        }
    }
}

/// A page of a video.
#[derive(Debug)]
pub struct PageRow {
    pub id: i32,
    pub video_id: i32,
    pub pid: i32,
    pub path: Option<String>,
    pub download_status: u32,
}

impl Clone for PageRow {
    fn clone(&self) -> (r: Self)
        ensures
            r == *self,
    {
        PageRow {
            id: self.id,
            video_id: self.video_id,
            pid: self.pid,
            path: match &self.path {
                Some(path) => Some(path.clone()),
                None => None,
            },
            download_status: self.download_status,
        }
    }
}

/// The download states that matter here: those from `completed_from` on are complete, and
/// `video_done` and `page_done` are the ones of a video and of a page all of whose parts are
/// there.
#[derive(Clone, Copy, Debug, PartialEq, Eq, Structural)]
pub struct DownloadMarks {
    pub completed_from: u32,
    pub video_done: u32,
    pub page_done: u32,
}

/// The category of ordinary videos.
pub const ORDINARY_CATEGORY: i32 = 2;

impl VideoRow {
    /// The video of the source waits for its details.
    pub open spec fn unfilled(self, source: SourceRef) -> bool {
        &&& self.valid
        &&& self.download_status == 0
        &&& self.category == ORDINARY_CATEGORY
        &&& self.single_page is None
        &&& self.relation.belongs(source)
    }

    /// The video of the source has its details and is to be downloaded, and is not complete.
    pub open spec fn pending(self, source: SourceRef, marks: DownloadMarks) -> bool {
        &&& self.valid
        &&& self.should_download
        &&& self.download_status < marks.completed_from
        &&& self.single_page is Some
        &&& self.relation.belongs(source)
    }

    /// The video is complete, and it is known where its files are.
    pub open spec fn offers_path(self, marks: DownloadMarks) -> bool {
        self.download_status >= marks.completed_from && self.path@.len() > 0
    }

    pub fn is_pending(&self, source: SourceRef, marks: DownloadMarks) -> (r: bool)
        ensures
            r == self.pending(source, marks),
    {
        self.valid && self.should_download && self.download_status < marks.completed_from
            && self.single_page.is_some() && self.relation.belongs_to(source)
    }
}

/// The videos of a source that wait for their details.
pub fn filter_unfilled_videos(videos: &Vec<VideoRow>, source: SourceRef) -> (r: Vec<VideoRow>)
    ensures
        r@ == videos@.filter_map(
            |video: VideoRow|
                if video.unfilled(source) {
                    Some(video)
                } else {
                    None
                },
        ),
{
    let ghost pick = |video: VideoRow|
        if video.unfilled(source) {
            Some(video)
        } else {
            None
        };
    let mut r: Vec<VideoRow> = Vec::new();
    let mut i: usize = 0;
    while i < videos.len()
        invariant
            i <= videos.len(),
            pick == (|video: VideoRow|
                if video.unfilled(source) {
                    Some(video)
                } else {
                    None
                }),
            r@ == videos@.take(i as int).filter_map(pick),
        decreases videos.len() - i,
    {
        proof {
            assert(videos@.take(i + 1).drop_last() =~= videos@.take(i as int));
        }
        let video = &videos[i];
        if video.valid && video.download_status == 0 && video.category == ORDINARY_CATEGORY
            && video.single_page.is_none() && video.relation.belongs_to(source) {
            r.push(video.clone());
        }
        i += 1;
    }
    assert(videos@.take(i as int) =~= videos@);
    r
}

/// Some video under this name, of whatever source, is complete.
pub open spec fn completed(
    videos: Seq<VideoRow>,
    bvid: Seq<char>,
    marks: DownloadMarks,
) -> bool {
    exists|i: int|
        0 <= i < videos.len() && (#[trigger] videos[i]).download_status >= marks.completed_from
            && videos[i].bvid@ == bvid
}

/// The video of the source is to be downloaded, and no source has brought it yet.
pub open spec fn unhandled(
    videos: Seq<VideoRow>,
    video: VideoRow,
    source: SourceRef,
    marks: DownloadMarks,
) -> bool {
    &&& video.pending(source, marks)
    &&& video.category == ORDINARY_CATEGORY
    &&& !completed(videos, video.bvid@, marks)
}

/// The videos of a source that are to be downloaded, and that no source has brought yet.
pub open spec fn unhandled_videos(
    videos: Seq<VideoRow>,
    source: SourceRef,
    marks: DownloadMarks,
) -> Seq<VideoRow> {
    videos.filter_map(
        |video: VideoRow|
            if unhandled(videos, video, source, marks) {
                Some(video)
            } else {
                None
            },
    )
}

/// The pages of a video.
pub open spec fn pages_of(pages: Seq<PageRow>, video_id: i32) -> Seq<PageRow> {
    pages.filter_map(
        |page: PageRow|
            if page.video_id == video_id {
                Some(page)
            } else {
                None
            },
    )
}

/// Picks the pages of a video.
pub(crate) fn collect_pages(pages: &Vec<PageRow>, video_id: i32) -> (r: Vec<PageRow>)
    ensures
        r@ == pages_of(pages@, video_id),
{
    let mut r: Vec<PageRow> = Vec::new();
    let mut i: usize = 0;
    while i < pages.len()
        invariant
            i <= pages.len(),
            r@ == pages_of(pages@.take(i as int), video_id),
        decreases pages.len() - i,
    {
        proof {
            assert(pages@.take(i + 1).drop_last() =~= pages@.take(i as int));
        }
        if pages[i].video_id == video_id {
            r.push(pages[i].clone());
        }
        i += 1;
    }
    assert(pages@.take(i as int) =~= pages@);
    r
}

fn completed_bvids(videos: &Vec<VideoRow>, marks: DownloadMarks) -> (r: StringHashSet)
    ensures
        forall|bvid: Seq<char>| #[trigger]
            r@.contains(bvid) <==> completed(videos@, bvid, marks),
{
    let mut r = StringHashSet::new();
    let mut i: usize = 0;
    while i < videos.len()
        invariant
            i <= videos.len(),
            forall|bvid: Seq<char>| #[trigger]
                r@.contains(bvid) <==> completed(videos@.take(i as int), bvid, marks),
        decreases videos.len() - i,
    {
        let ghost before = videos@.take(i as int);
        let ghost now = videos@.take(i + 1);
        let ghost old_set = r@;
        let video = &videos[i];
        if video.download_status >= marks.completed_from {
            r.insert(video.bvid.clone());
        }
        proof {
            assert forall|bvid: Seq<char>| #[trigger]
                r@.contains(bvid) <==> completed(now, bvid, marks) by {
                if completed(before, bvid, marks) {
                    let k = choose|k: int|
                        0 <= k < before.len() && (#[trigger] before[k]).download_status
                            >= marks.completed_from && before[k].bvid@ == bvid;
                    assert(now[k] == before[k]);
                }
                if completed(now, bvid, marks) {
                    let k = choose|k: int|
                        0 <= k < now.len() && (#[trigger] now[k]).download_status
                            >= marks.completed_from && now[k].bvid@ == bvid;
                    if k < i {
                        assert(before[k] == now[k]);
                    }
                }
                assert(now[i as int] == videos@[i as int]);
            }
        }
        i += 1;
    }
    assert(videos@.take(i as int) =~= videos@);
    r
}

/// The videos of a source that are to be downloaded, and that no source has brought yet, each
/// with its pages.
pub fn filter_unhandled_video_pages(
    videos: &Vec<VideoRow>,
    pages: &Vec<PageRow>,
    source: SourceRef,
    marks: DownloadMarks,
) -> (r: Vec<(VideoRow, Vec<PageRow>)>)
    ensures
        r@.len() == unhandled_videos(videos@, source, marks).len(),
        forall|k: int|
            0 <= k < r@.len() ==> (#[trigger] r@[k]).0 == unhandled_videos(
                videos@,
                source,
                marks,
            )[k] && r@[k].1@ == pages_of(pages@, r@[k].0.id),
{
    let ghost pick = |video: VideoRow|
        if unhandled(videos@, video, source, marks) {
            Some(video)
        } else {
            None
        };
    let done = completed_bvids(videos, marks);
    let mut r: Vec<(VideoRow, Vec<PageRow>)> = Vec::new();
    let mut i: usize = 0;
    while i < videos.len()
        invariant
            i <= videos.len(),
            forall|bvid: Seq<char>| #[trigger]
                done@.contains(bvid) <==> completed(videos@, bvid, marks),
            pick == (|video: VideoRow|
                if unhandled(videos@, video, source, marks) {
                    Some(video)
                } else {
                    None
                }),
            r@.len() == videos@.take(i as int).filter_map(pick).len(),
            forall|k: int|
                0 <= k < r@.len() ==> (#[trigger] r@[k]).0 == videos@.take(i as int).filter_map(
                    pick,
                )[k] && r@[k].1@ == pages_of(pages@, r@[k].0.id),
        decreases videos.len() - i,
    {
        proof {
            assert(videos@.take(i + 1).drop_last() =~= videos@.take(i as int));
        }
        let video = &videos[i];
        if video.category == ORDINARY_CATEGORY && video.is_pending(source, marks) && !done.contains(
            video.bvid.as_str(),
        ) {
            r.push((video.clone(), collect_pages(pages, video.id)));
        }
        i += 1;
    }
    assert(videos@.take(i as int) =~= videos@);
    r
}

/// The row of the video names the source: the column of the source's kind holds its id.
pub open spec fn names_source(relation: VideoRelation, source: SourceRef) -> bool {
    &&& source.kind is Collection ==> relation.collection_id == Some(source.id)
    &&& source.kind is Favorite ==> relation.favorite_id == Some(source.id)
    &&& source.kind is WatchLater ==> relation.watch_later_id == Some(source.id)
    &&& source.kind is Submission ==> relation.submission_id == Some(source.id)
}

/// A video belongs to a source exactly where the column of the source's kind holds its id; the
/// other columns are no matter.
pub proof fn law_belonging_is_a_matter_of_one_column(
    relation: VideoRelation,
    source: SourceRef,
    r: bool,
)
    requires
        call_ensures(VideoRelation::belongs_to, (&relation, source), r),
    ensures
        r <==> names_source(relation, source),
{
}

/// Details are filled in for exactly the videos of the source that are valid, ordinary (of
/// category 2), untouched by any download, and of which it is not known whether they have one page
/// or several.
pub proof fn law_details_are_filled_in_where_they_are_missing(
    videos: Vec<VideoRow>,
    source: SourceRef,
    found: Vec<VideoRow>,
)
    requires
        call_ensures(filter_unfilled_videos, (&videos, source), found),
    ensures
        drawn_from(
            videos@,
            found@,
            |video: VideoRow|
                video.valid && video.download_status == 0 && video.category == 2
                    && video.single_page is None && names_source(video.relation, source),
            |video: VideoRow, listed: VideoRow| listed == video,
        ),
{
    let takes = |video: VideoRow|
        video.valid && video.download_status == 0 && video.category == 2 && video.single_page is None
            && names_source(video.relation, source);
    let gives = |video: VideoRow, listed: VideoRow| listed == video;
    let pick = |video: VideoRow|
        if video.unfilled(source) {
            Some(video)
        } else {
            None
        };
    lemma_filter_map_is_drawn(videos@, pick, takes, gives);
}

/// The row says that the video is to be downloaded for the source, and no row under the same name
/// is complete. Whether it has one page or several is no matter, once it is known.
pub open spec fn to_be_downloaded(
    videos: Seq<VideoRow>,
    video: VideoRow,
    source: SourceRef,
    marks: DownloadMarks,
) -> bool {
    &&& video.valid
    &&& video.should_download
    &&& video.category == 2
    &&& video.download_status < marks.completed_from
    &&& video.single_page is Some
    &&& names_source(video.relation, source)
    &&& forall|j: int|
        0 <= j < videos.len() && (#[trigger] videos[j]).bvid@ == video.bvid@
            ==> videos[j].download_status < marks.completed_from
}

/// Exactly the videos of the source that are to be downloaded are listed, each once and with all
/// its pages and no other video's: a valid, wanted and ordinary video that is not complete, has
/// one page or several, and which no source has brought under the same name.
pub proof fn law_downloads_are_exactly_what_is_wanted(
    videos: Vec<VideoRow>,
    pages: Vec<PageRow>,
    source: SourceRef,
    marks: DownloadMarks,
    found: Vec<(VideoRow, Vec<PageRow>)>,
)
    requires
        call_ensures(filter_unhandled_video_pages, (&videos, &pages, source, marks), found),
    ensures
        drawn_from(
            videos@,
            found@,
            |video: VideoRow| to_be_downloaded(videos@, video, source, marks),
            |video: VideoRow, listed: (VideoRow, Vec<PageRow>)|
                listed.0 == video && drawn_from(
                    pages@,
                    listed.1@,
                    |page: PageRow| page.video_id == video.id,
                    |page: PageRow, own: PageRow| own == page,
                ),
        ),
{
    let takes = |video: VideoRow| to_be_downloaded(videos@, video, source, marks);
    let same = |video: VideoRow, listed: VideoRow| listed == video;
    let gives = |video: VideoRow, listed: (VideoRow, Vec<PageRow>)|
        listed.0 == video && drawn_from(
            pages@,
            listed.1@,
            |page: PageRow| page.video_id == video.id,
            |page: PageRow, own: PageRow| own == page,
        );
    let pick = |video: VideoRow|
        if unhandled(videos@, video, source, marks) {
            Some(video)
        } else {
            None
        };
    assert forall|i: int|
        #![trigger videos@[i]]
        0 <= i < videos@.len() implies (takes(videos@[i]) <==> pick(videos@[i]) is Some) by {
        assert(!completed(videos@, videos@[i].bvid@, marks) <==> (forall|j: int|
            0 <= j < videos@.len() && (#[trigger] videos@[j]).bvid@ == videos@[i].bvid@
                ==> videos@[j].download_status < marks.completed_from));
    }
    let at = lemma_filter_map_is_drawn(videos@, pick, takes, same);
    assert forall|k: int| 0 <= k < at.len() implies takes(videos@[#[trigger] at[k]]) && gives(
        videos@[at[k]],
        found@[k],
    ) by {
        law_pages_are_those_of_the_video(pages@, found@[k].0.id);
    }
    assert(drawn(videos@, found@, at, takes, gives));
}

/// The pages of a video are exactly those whose rows name it.
pub proof fn law_pages_are_those_of_the_video(pages: Seq<PageRow>, video_id: i32)
    ensures
        drawn_from(
            pages,
            pages_of(pages, video_id),
            |page: PageRow| page.video_id == video_id,
            |page: PageRow, own: PageRow| own == page,
        ),
{
    let pick = |page: PageRow|
        if page.video_id == video_id {
            Some(page)
        } else {
            None
        };
    lemma_filter_map_is_drawn(
        pages,
        pick,
        |page: PageRow| page.video_id == video_id,
        |page: PageRow, own: PageRow| own == page,
    );
}

/// Videos with one page and videos with several are downloaded alike: where two tables differ only
/// in that, the same videos are listed.
pub proof fn law_single_and_many_pages_are_alike(
    videos: Vec<VideoRow>,
    others: Vec<VideoRow>,
    pages: Vec<PageRow>,
    source: SourceRef,
    marks: DownloadMarks,
    found: Vec<(VideoRow, Vec<PageRow>)>,
    other: Vec<(VideoRow, Vec<PageRow>)>,
)
    requires
        videos@.len() == others@.len(),
        forall|i: int|
            #![trigger videos@[i]]
            #![trigger others@[i]]
            0 <= i < videos@.len() ==> (videos@[i].single_page is Some
                <==> others@[i].single_page is Some) && others@[i] == (VideoRow {
                single_page: others@[i].single_page,
                ..videos@[i]
            }),
        call_ensures(filter_unhandled_video_pages, (&videos, &pages, source, marks), found),
        call_ensures(filter_unhandled_video_pages, (&others, &pages, source, marks), other),
    ensures
        found@.len() == other@.len(),
        forall|k: int| 0 <= k < found@.len() ==> (#[trigger] found@[k]).0.id == other@[k].0.id,
{
    law_downloads_are_exactly_what_is_wanted(videos, pages, source, marks, found);
    law_downloads_are_exactly_what_is_wanted(others, pages, source, marks, other);
    let takes = |video: VideoRow| to_be_downloaded(videos@, video, source, marks);
    let takes2 = |video: VideoRow| to_be_downloaded(others@, video, source, marks);
    let gives = |video: VideoRow, listed: (VideoRow, Vec<PageRow>)|
        listed.0 == video && drawn_from(
            pages@,
            listed.1@,
            |page: PageRow| page.video_id == video.id,
            |page: PageRow, own: PageRow| own == page,
        );
    assert(drawn_from(videos@, found@, takes, gives));
    assert(drawn_from(others@, other@, takes2, gives));
    let at = choose|at: Seq<int>| #[trigger] drawn(videos@, found@, at, takes, gives);
    let at2 = choose|at: Seq<int>| #[trigger] drawn(others@, other@, at, takes2, gives);
    assert forall|i: int|
        #![trigger videos@[i]]
        #![trigger others@[i]]
        0 <= i < videos@.len() implies (takes(videos@[i]) <==> takes2(others@[i])) by {
        if takes(videos@[i]) {
            assert forall|j: int|
                0 <= j < others@.len() && (#[trigger] others@[j]).bvid@ == others@[i].bvid@ implies
                others@[j].download_status < marks.completed_from by {
                assert(videos@[j].bvid@ == videos@[i].bvid@);
            }
        }
        if takes2(others@[i]) {
            assert forall|j: int|
                0 <= j < videos@.len() && (#[trigger] videos@[j]).bvid@ == videos@[i].bvid@ implies
                videos@[j].download_status < marks.completed_from by {
                assert(others@[j].bvid@ == others@[i].bvid@);
            }
        }
    }
    lemma_drawn_from_the_same_places(
        videos@,
        found@,
        at,
        takes,
        gives,
        others@,
        other@,
        at2,
        takes2,
        gives,
    );
    assert forall|k: int| 0 <= k < found@.len() implies (#[trigger] found@[k]).0.id
        == other@[k].0.id by {
        assert(gives(videos@[at[k]], found@[k]));
        assert(gives(others@[at2[k]], other@[k]));
    }
}

/// Making a video belong to a source writes the source's id into the column of its kind, and
/// leaves the other columns alone.
pub proof fn law_new_videos_belong_to_their_source(source: SourceRef)
    ensures
        forall|relation: &mut VideoRelation, r: ()| #[trigger]
            call_ensures(VideoRelation::set_relation_id, (relation, source), r) ==> {
                &&& names_source(*final(relation), source)
                &&& source.kind !is Collection ==> final(relation).collection_id
                    == relation.collection_id
                &&& source.kind !is Favorite ==> final(relation).favorite_id
                    == relation.favorite_id
                &&& source.kind !is WatchLater ==> final(relation).watch_later_id
                    == relation.watch_later_id
                &&& source.kind !is Submission ==> final(relation).submission_id
                    == relation.submission_id
            },
{
    assert forall|relation: &mut VideoRelation, r: ()| #[trigger]
        call_ensures(VideoRelation::set_relation_id, (relation, source), r) implies {
        &&& names_source(*final(relation), source)
        &&& source.kind !is Collection ==> final(relation).collection_id == relation.collection_id
        &&& source.kind !is Favorite ==> final(relation).favorite_id == relation.favorite_id
        &&& source.kind !is WatchLater ==> final(relation).watch_later_id
            == relation.watch_later_id
        &&& source.kind !is Submission ==> final(relation).submission_id == relation.submission_id
    } by {
        assert(final(relation).id_of(SourceType::Collection) == final(relation).collection_id);
        assert(final(relation).id_of(SourceType::Favorite) == final(relation).favorite_id);
        assert(final(relation).id_of(SourceType::WatchLater) == final(relation).watch_later_id);
        assert(final(relation).id_of(SourceType::Submission) == final(relation).submission_id);
    }
}

} // verus!
