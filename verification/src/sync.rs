//! Adding, removing and following the video sources.
use std::collections::HashSet;

use rand::seq::SliceRandom;
use vstd::hash_set::StringHashSet;
use vstd::prelude::*;

use crate::api::InnerApiError;
use crate::number::{parse_i64, NumberError};
use crate::sources::parse_source_type;
use crate::videos::{PageRow, SourceRef, SourceType, VideoRow};

verus! {

use crate::api::bad_request;
use crate::number::{law_numbers_are_read_for_what_they_are, number_read, parsed};
use crate::seqs::{
    drawn, drawn_from, lemma_drawn_from_the_same_places, lemma_filter_map_contains,
    lemma_filter_map_is_drawn,
};
use crate::sources::{kind_named, lemma_names_of_kinds_differ};
use crate::videos::names_source;

broadcast use vstd::std_specs::hash::group_hash_axioms;

/// The kind of sources under a name, where sources of this kind can be removed: everything to
/// watch later cannot.
pub fn parse_removable_type(source_type: &str) -> (r: Result<SourceType, InnerApiError>)
    ensures
        match kind_named(source_type@) {
            Some(kind) if kind != SourceType::WatchLater => r == Ok::<SourceType, InnerApiError>(
                kind,
            ),
            _ => r matches Err(error) && bad_request(error, "Invalid video source type"@),
        },
{
    match parse_source_type(source_type) {
        Ok(SourceType::WatchLater) => Err(
            InnerApiError::BadRequest("Invalid video source type".to_string()),
        ),
        Ok(kind) => Ok(kind),
        Err(error) => Err(error),
    }
}

/// The videos of a source.
pub open spec fn video_ids_of(videos: Seq<VideoRow>, source: SourceRef) -> Seq<i32> {
    videos.filter_map(
        |video: VideoRow|
            if video.relation.belongs(source) {
                Some(video.id)
            } else {
                None
            },
    )
}

/// The pages of some videos.
pub open spec fn page_ids_of(pages: Seq<PageRow>, video_ids: Seq<i32>) -> Seq<i32> {
    pages.filter_map(
        |page: PageRow|
            if video_ids.contains(page.video_id) {
                Some(page.id)
            } else {
                None
            },
    )
}

fn collect_page_ids(pages: &Vec<PageRow>, video_ids: &Vec<i32>) -> (r: Vec<i32>)
    ensures
        r@ == page_ids_of(pages@, video_ids@),
{
    let mut wanted: HashSet<i32> = HashSet::new();
    let mut i: usize = 0;
    while i < video_ids.len()
        invariant
            i <= video_ids.len(),
            forall|id: i32| #[trigger]
                wanted@.contains(id) <==> video_ids@.take(i as int).contains(id),
        decreases video_ids.len() - i,
    {
        let ghost before = video_ids@.take(i as int);
        let ghost now = video_ids@.take(i + 1);
        wanted.insert(video_ids[i]);
        proof {
            assert(now =~= before.push(video_ids@[i as int]));
            assert forall|id: i32| #[trigger] wanted@.contains(id) <==> now.contains(id) by {
                if before.contains(id) {
                    let k = choose|k: int| 0 <= k < before.len() && before[k] == id;
                    assert(now[k] == id);
                }
                if now.contains(id) {
                    let k = choose|k: int| 0 <= k < now.len() && now[k] == id;
                    if k < i {
                        assert(before[k] == id);
                    }
                }
                assert(now[i as int] == video_ids@[i as int]);
            }
        }
        i += 1;
    }
    assert(video_ids@.take(i as int) =~= video_ids@);
    let mut r: Vec<i32> = Vec::new();
    let mut j: usize = 0;
    while j < pages.len()
        invariant
            j <= pages.len(),
            forall|id: i32| #[trigger] wanted@.contains(id) <==> video_ids@.contains(id),
            r@ == page_ids_of(pages@.take(j as int), video_ids@),
        decreases pages.len() - j,
    {
        proof {
            assert(pages@.take(j + 1).drop_last() =~= pages@.take(j as int));
        }
        if wanted.contains(&pages[j].video_id) {
            r.push(pages[j].id);
        }
        j += 1;
    }
    assert(pages@.take(j as int) =~= pages@);
    r
}

/// What goes with a source: first the pages, then the videos, then the source itself.
#[derive(Debug)]
pub struct RemovalPlan {
    pub page_ids: Vec<i32>,
    pub video_ids: Vec<i32>,
}

/// Refuses a source that is not stored.
pub fn require_stored(source: SourceRef, stored: bool) -> (r: Result<(), InnerApiError>)
    ensures
        r == (if stored {
            Ok::<(), InnerApiError>(())
        } else {
            Err::<(), InnerApiError>(InnerApiError::NotFound(source.id))
        }),
{
    if stored {
        Ok(())
    } else {
        Err(InnerApiError::NotFound(source.id))
    }
}

/// Removes a source with all its videos and their pages. One that is not stored is refused.
pub fn remove_video_source(
    source: SourceRef,
    stored: bool,
    videos: &Vec<VideoRow>,
    pages: &Vec<PageRow>,
) -> (r: Result<RemovalPlan, InnerApiError>)
    ensures
        if stored {
            r matches Ok(plan) && plan.video_ids@ == video_ids_of(videos@, source)
                && plan.page_ids@ == page_ids_of(pages@, video_ids_of(videos@, source))
        } else {
            r == Err::<RemovalPlan, InnerApiError>(InnerApiError::NotFound(source.id))
        },
{
    if let Err(error) = require_stored(source, stored) {
        return Err(error);
    }
    let mut video_ids: Vec<i32> = Vec::new();
    let mut i: usize = 0;
    while i < videos.len()
        invariant
            i <= videos.len(),
            video_ids@ == video_ids_of(videos@.take(i as int), source),
        decreases videos.len() - i,
    {
        proof {
            assert(videos@.take(i + 1).drop_last() =~= videos@.take(i as int));
        }
        if videos[i].relation.belongs_to(source) {
            video_ids.push(videos[i].id);
        }
        i += 1;
    }
    assert(videos@.take(i as int) =~= videos@);
    let page_ids = collect_page_ids(pages, &video_ids);
    Ok(RemovalPlan { page_ids, video_ids })
}

/// The video belongs to the source, but the source no longer has it.
pub open spec fn obsolete(video: VideoRow, source: SourceRef, remote: Seq<String>) -> bool {
    video.relation.belongs(source) && !listed(video.bvid@, remote)
}

/// The source has a video under this name.
pub open spec fn listed(bvid: Seq<char>, remote: Seq<String>) -> bool {
    exists|i: int| 0 <= i < remote.len() && (#[trigger] remote[i])@ == bvid
}

/// What goes when a source is compared with what it really has.
#[derive(Debug)]
pub struct FullSyncPlan {
    pub page_ids: Vec<i32>,
    pub video_ids: Vec<i32>,
    /// Where the files of these videos are.
    pub paths: Vec<String>,
}

/// The videos of a source that it no longer has.
pub open spec fn obsolete_ids(
    videos: Seq<VideoRow>,
    source: SourceRef,
    remote: Seq<String>,
) -> Seq<i32> {
    videos.filter_map(
        |video: VideoRow|
            if obsolete(video, source, remote) {
                Some(video.id)
            } else {
                None
            },
    )
}

/// Where the files of these videos are.
pub open spec fn obsolete_paths(
    videos: Seq<VideoRow>,
    source: SourceRef,
    remote: Seq<String>,
) -> Seq<String> {
    videos.filter_map(
        |video: VideoRow|
            if obsolete(video, source, remote) {
                Some(video.path)
            } else {
                None
            },
    )
}

fn collect_names(names: &Vec<String>) -> (r: StringHashSet)
    ensures
        forall|bvid: Seq<char>| #[trigger] r@.contains(bvid) <==> listed(bvid, names@),
{
    let mut r = StringHashSet::new();
    let mut i: usize = 0;
    while i < names.len()
        invariant
            i <= names.len(),
            forall|bvid: Seq<char>| #[trigger]
                r@.contains(bvid) <==> listed(bvid, names@.take(i as int)),
        decreases names.len() - i,
    {
        let ghost before = names@.take(i as int);
        let ghost now = names@.take(i + 1);
        r.insert(names[i].clone());
        proof {
            assert forall|bvid: Seq<char>| #[trigger] r@.contains(bvid) <==> listed(bvid, now) by {
                if listed(bvid, before) {
                    let k = choose|k: int| 0 <= k < before.len() && (#[trigger] before[k])@ == bvid;
                    assert(now[k] == before[k]);
                }
                if listed(bvid, now) {
                    let k = choose|k: int| 0 <= k < now.len() && (#[trigger] now[k])@ == bvid;
                    if k < i {
                        assert(before[k] == now[k]);
                    }
                }
                assert(now[i as int] == names@[i as int]);
            }
        }
        i += 1;
    }
    assert(names@.take(i as int) =~= names@);
    r
}

/// Compares a source with what it really has, which is `remote`: the videos that it no longer
/// has go, with their pages. Before the source is asked what it has, [`require_stored`] refuses
/// one that is not stored.
pub fn full_sync_video_source(
    source: SourceRef,
    videos: &Vec<VideoRow>,
    pages: &Vec<PageRow>,
    remote: &Vec<String>,
) -> (r: FullSyncPlan)
    ensures
        r.video_ids@ == obsolete_ids(videos@, source, remote@),
        r.paths@ == obsolete_paths(videos@, source, remote@),
        r.page_ids@ == page_ids_of(pages@, obsolete_ids(videos@, source, remote@)),
{
    let names = collect_names(remote);
    let mut video_ids: Vec<i32> = Vec::new();
    let mut paths: Vec<String> = Vec::new();
    let mut i: usize = 0;
    while i < videos.len()
        invariant
            i <= videos.len(),
            forall|bvid: Seq<char>| #[trigger] names@.contains(bvid) <==> listed(bvid, remote@),
            video_ids@ == obsolete_ids(videos@.take(i as int), source, remote@),
            paths@ == obsolete_paths(videos@.take(i as int), source, remote@),
        decreases videos.len() - i,
    {
        proof {
            assert(videos@.take(i + 1).drop_last() =~= videos@.take(i as int));
        }
        let video = &videos[i];
        if video.relation.belongs_to(source) && !names.contains(video.bvid.as_str()) {
            video_ids.push(video.id);
            paths.push(video.path.clone());
        }
        i += 1;
    }
    assert(videos@.take(i as int) =~= videos@);
    let page_ids = collect_page_ids(pages, &video_ids);
    FullSyncPlan { page_ids, video_ids, paths }
}

/// The directories that go with the videos, where the user wants them deleted: those that are
/// known.
pub fn directories_to_delete(plan: &FullSyncPlan, delete_local: bool) -> (r: Vec<String>)
    ensures
        r@ == (if delete_local {
            plan.paths@.filter_map(
                |path: String|
                    if path@.len() > 0 {
                        Some(path)
                    } else {
                        None
                    },
            )
        } else {
            Seq::empty()
        }),
{
    let mut r: Vec<String> = Vec::new();
    if !delete_local {
        return r;
    }
    let ghost pick = |path: String|
        if path@.len() > 0 {
            Some(path)
        } else {
            None
        };
    let mut i: usize = 0;
    while i < plan.paths.len()
        invariant
            i <= plan.paths.len(),
            pick == (|path: String|
                if path@.len() > 0 {
                    Some(path)
                } else {
                    None
                }),
            r@ == plan.paths@.take(i as int).filter_map(pick),
        decreases plan.paths.len() - i,
    {
        proof {
            assert(plan.paths@.take(i + 1).drop_last() =~= plan.paths@.take(i as int));
        }
        if !plan.paths[i].as_str().is_empty() {
            r.push(plan.paths[i].clone());
        }
        i += 1;
    }
    assert(plan.paths@.take(i as int) =~= plan.paths@);
    r
}

/// The warning for a directory that could not be deleted.
pub fn deletion_warning(path: &str, error: &str) -> (r: String)
    ensures
        r@ == "failed to remove "@ + path@ + ": "@ + error@,
{
    let mut r = String::new();
    r.append("failed to remove ");
    r.append(path);
    r.append(": ");
    r.append(error);
    r
}

/// The answer to the comparison of a source with what it really has.
#[derive(Debug)]
pub struct FullSyncVideoSourceResponse {
    pub removed_count: usize,
    pub warnings: Option<Vec<String>>,
}

/// The answer to the comparison of a source with what it really has: how many videos went, and
/// where directories were to be deleted, which could not be.
pub fn full_sync_response(
    plan: &FullSyncPlan,
    delete_local: bool,
    warnings: Vec<String>,
) -> (r: FullSyncVideoSourceResponse)
    ensures
        r.removed_count == plan.video_ids@.len(),
        r.warnings == (if plan.video_ids@.len() > 0 && delete_local {
            Some(warnings)
        } else {
            None
        }),
{
    let removed_count: usize = plan.video_ids.len();
    FullSyncVideoSourceResponse {
        removed_count,
        warnings: if removed_count > 0 && delete_local {
            Some(warnings)
        } else {
            None
        },
    }
}

/// A source and whether it is enabled.
#[derive(Clone, Copy, Debug, PartialEq, Eq, Structural)]
pub struct SourceFlag {
    pub id: i32,
    pub enabled: bool,
}

/// The enabled ones among the sources of a kind.
pub open spec fn enabled_of(kind: SourceType, flags: Seq<SourceFlag>) -> Seq<SourceRef> {
    flags.filter_map(
        |flag: SourceFlag|
            if flag.enabled {
                Some(SourceRef { kind, id: flag.id })
            } else {
                None
            },
    )
}

fn push_enabled(sources: &mut Vec<SourceRef>, kind: SourceType, flags: &Vec<SourceFlag>)
    ensures
        final(sources)@ == old(sources)@ + enabled_of(kind, flags@),
{
    let mut i: usize = 0;
    assert(flags@.take(0) =~= Seq::empty());
    assert(sources@ + enabled_of(kind, flags@.take(0)) =~= sources@);
    while i < flags.len()
        invariant
            i <= flags.len(),
            sources@ == old(sources)@ + enabled_of(kind, flags@.take(i as int)),
        decreases flags.len() - i,
    {
        proof {
            assert(flags@.take(i + 1).drop_last() =~= flags@.take(i as int));
        }
        let flag = flags[i];
        if flag.enabled {
            sources.push(SourceRef { kind, id: flag.id });
        }
        assert(sources@ =~= old(sources)@ + enabled_of(kind, flags@.take(i + 1)));
        i += 1;
    }
    assert(flags@.take(i as int) =~= flags@);
}

/// [`rand::seq::SliceRandom::shuffle`] with [`rand::rng`]: the same sources in an order that is
/// left to chance.
#[verifier::external_body]
fn shuffle(sources: &mut Vec<SourceRef>)
    ensures
        final(sources)@.to_multiset() == old(sources)@.to_multiset(),
{
    sources.shuffle(&mut rand::rng());
}

/// The enabled sources, each once, in an order that is left to chance: in the long run every
/// source gets its turn early.
pub fn get_enabled_video_sources(
    favorites: &Vec<SourceFlag>,
    watch_later: &Vec<SourceFlag>,
    submissions: &Vec<SourceFlag>,
    collections: &Vec<SourceFlag>,
) -> (r: Vec<SourceRef>)
    ensures
        r@.to_multiset() == (enabled_of(SourceType::Favorite, favorites@) + enabled_of(
            SourceType::WatchLater,
            watch_later@,
        ) + enabled_of(SourceType::Submission, submissions@) + enabled_of(
            SourceType::Collection,
            collections@,
        )).to_multiset(),
{
    let mut sources: Vec<SourceRef> = Vec::new();
    push_enabled(&mut sources, SourceType::Favorite, favorites);
    push_enabled(&mut sources, SourceType::WatchLater, watch_later);
    push_enabled(&mut sources, SourceType::Submission, submissions);
    push_enabled(&mut sources, SourceType::Collection, collections);
    assert(sources@ =~= enabled_of(SourceType::Favorite, favorites@) + enabled_of(
        SourceType::WatchLater,
        watch_later@,
    ) + enabled_of(SourceType::Submission, submissions@) + enabled_of(
        SourceType::Collection,
        collections@,
    ));
    shuffle(&mut sources);
    sources
}

/// A favorite list that is followed from now on.
#[derive(Debug)]
pub struct NewFavorite {
    pub f_id: i64,
    pub name: String,
    pub path: String,
    pub enabled: bool,
}

/// A collection that is followed from now on.
#[derive(Debug)]
pub struct NewCollection {
    pub s_id: i64,
    pub m_id: i64,
    pub collection_type: i32,
    pub name: String,
    pub path: String,
    pub enabled: bool,
}

/// An uploader whose videos are followed from now on.
#[derive(Debug)]
pub struct NewSubmission {
    pub upper_id: i64,
    pub upper_name: String,
    pub path: String,
    pub enabled: bool,
}

/// Follows a favorite list, under the id and the title that the site gives. It starts disabled.
pub fn insert_favorite(f_id: i64, title: String, path: String) -> (r: NewFavorite)
    ensures
        r == (NewFavorite { f_id, name: title, path, enabled: false }),
{
    NewFavorite { f_id, name: title, path, enabled: false }
}

/// Follows a collection, under what the site says of it. It starts disabled.
pub fn insert_collection(
    s_id: i64,
    m_id: i64,
    collection_type: i32,
    name: String,
    path: String,
) -> (r: NewCollection)
    ensures
        r == (NewCollection { s_id, m_id, collection_type, name, path, enabled: false }),
{
    NewCollection { s_id, m_id, collection_type, name, path, enabled: false }
}

/// Follows an uploader, under the number and the name that the site gives. It starts disabled.
/// The site gives the number as a text: one that is not read as a number is refused, with the
/// reason.
pub fn insert_submission(mid: &str, name: String, path: String) -> (r: Result<
    NewSubmission,
    NumberError,
>)
    ensures
        r == (match number_read(mid@) {
            Ok(upper_id) => Ok::<NewSubmission, NumberError>(
                NewSubmission { upper_id, upper_name: name, path, enabled: false },
            ),
            Err(error) => Err::<NewSubmission, NumberError>(error),
        }),
{
    match parse_i64(mid) {
        Ok(upper_id) => Ok(NewSubmission { upper_id, upper_name: name, path, enabled: false }),
        Err(error) => Err(error),
    }
}

/// Removing a source takes exactly its own videos.
pub proof fn law_removal_takes_own_videos(videos: Seq<VideoRow>, source: SourceRef, id: i32)
    ensures
        video_ids_of(videos, source).contains(id) <==> (exists|i: int|
            0 <= i < videos.len() && (#[trigger] videos[i]).relation.belongs(source)
                && videos[i].id == id),
{
    let pick = |video: VideoRow|
        if video.relation.belongs(source) {
            Some(video.id)
        } else {
            None
        };
    lemma_filter_map_contains(videos, pick, id);
    assert(video_ids_of(videos, source) == videos.filter_map(pick));
    assert(forall|i: int|
        0 <= i < videos.len() && (#[trigger] videos[i]).relation.belongs(source) && videos[i].id
            == id ==> pick(videos[i]) == Some(id));
}

/// With videos go exactly their own pages: none is left behind, and no other page is touched.
pub proof fn law_pages_go_with_their_videos(pages: Seq<PageRow>, video_ids: Seq<i32>, id: i32)
    ensures
        page_ids_of(pages, video_ids).contains(id) <==> (exists|i: int|
            0 <= i < pages.len() && video_ids.contains((#[trigger] pages[i]).video_id)
                && pages[i].id == id),
{
    let pick = |page: PageRow|
        if video_ids.contains(page.video_id) {
            Some(page.id)
        } else {
            None
        };
    lemma_filter_map_contains(pages, pick, id);
    assert(page_ids_of(pages, video_ids) == pages.filter_map(pick));
    assert(forall|i: int|
        0 <= i < pages.len() && video_ids.contains((#[trigger] pages[i]).video_id) && pages[i].id
            == id ==> pick(pages[i]) == Some(id));
}

/// A comparison takes a video exactly where it belongs to the source and the source no longer
/// has it. Videos of other sources stay, whatever the source has.
pub proof fn law_full_sync_takes_what_is_gone(
    videos: Seq<VideoRow>,
    source: SourceRef,
    remote: Seq<String>,
    id: i32,
)
    ensures
        obsolete_ids(videos, source, remote).contains(id) <==> (exists|i: int|
            0 <= i < videos.len() && obsolete(#[trigger] videos[i], source, remote)
                && videos[i].id == id),
{
    let pick = |video: VideoRow|
        if obsolete(video, source, remote) {
            Some(video.id)
        } else {
            None
        };
    lemma_filter_map_contains(videos, pick, id);
    assert(obsolete_ids(videos, source, remote) == videos.filter_map(pick));
    assert(forall|i: int|
        0 <= i < videos.len() && obsolete(#[trigger] videos[i], source, remote) && videos[i].id
            == id ==> pick(videos[i]) == Some(id));
}

/// Among the sources of a kind, exactly the enabled ones are followed.
pub proof fn law_enabled_sources_are_followed(
    kind: SourceType,
    flags: Seq<SourceFlag>,
    source: SourceRef,
)
    ensures
        enabled_of(kind, flags).contains(source) <==> (source.kind == kind && exists|i: int|
            0 <= i < flags.len() && (#[trigger] flags[i]).enabled && flags[i].id == source.id),
{
    let pick = |flag: SourceFlag|
        if flag.enabled {
            Some(SourceRef { kind, id: flag.id })
        } else {
            None
        };
    lemma_filter_map_contains(flags, pick, source);
    assert(enabled_of(kind, flags) == flags.filter_map(pick));
    assert(forall|i: int|
        0 <= i < flags.len() && (#[trigger] flags[i]).enabled && flags[i].id == source.id
            && source.kind == kind ==> pick(flags[i]) == Some(source));
}

/// The row is one that a comparison takes: it names the source, and its name is none of those that
/// the source really has. Nothing else about it matters.
pub open spec fn is_gone(video: VideoRow, source: SourceRef, remote: Seq<String>) -> bool {
    names_source(video.relation, source) && forall|k: int|
        0 <= k < remote.len() ==> (#[trigger] remote[k])@ != video.bvid@
}

/// The ids of the pages are those of exactly the pages whose rows name one of the videos.
pub open spec fn are_pages_of(pages: Seq<PageRow>, page_ids: Seq<i32>, video_ids: Seq<i32>) -> bool {
    drawn_from(
        pages,
        page_ids,
        |page: PageRow| exists|k: int|
            0 <= k < video_ids.len() && #[trigger] video_ids[k] == page.video_id,
        |page: PageRow, id: i32| id == page.id,
    )
}

proof fn lemma_pages_of(pages: Seq<PageRow>, video_ids: Seq<i32>)
    ensures
        are_pages_of(pages, page_ids_of(pages, video_ids), video_ids),
{
    let pick = |page: PageRow|
        if video_ids.contains(page.video_id) {
            Some(page.id)
        } else {
            None
        };
    lemma_filter_map_is_drawn(
        pages,
        pick,
        |page: PageRow| exists|k: int|
            0 <= k < video_ids.len() && #[trigger] video_ids[k] == page.video_id,
        |page: PageRow, id: i32| id == page.id,
    );
}

/// A comparison removes exactly the videos whose rows name the source and whose names the source
/// no longer has, each once, with all their pages and no others. What has been downloaded of a
/// video, whether it is valid or wanted, and every other column is no matter.
pub proof fn law_full_sync_removes_what_the_source_lacks(
    source: SourceRef,
    videos: Vec<VideoRow>,
    pages: Vec<PageRow>,
    remote: Vec<String>,
    plan: FullSyncPlan,
)
    requires
        call_ensures(full_sync_video_source, (source, &videos, &pages, &remote), plan),
    ensures
        drawn_from(
            videos@,
            plan.video_ids@,
            |video: VideoRow| is_gone(video, source, remote@),
            |video: VideoRow, id: i32| id == video.id,
        ),
        drawn_from(
            videos@,
            plan.paths@,
            |video: VideoRow| is_gone(video, source, remote@),
            |video: VideoRow, path: String| path == video.path,
        ),
        are_pages_of(pages@, plan.page_ids@, plan.video_ids@),
{
    let takes = |video: VideoRow| is_gone(video, source, remote@);
    let pick_id = |video: VideoRow|
        if obsolete(video, source, remote@) {
            Some(video.id)
        } else {
            None
        };
    let pick_path = |video: VideoRow|
        if obsolete(video, source, remote@) {
            Some(video.path)
        } else {
            None
        };
    assert(forall|i: int|
        #![trigger videos@[i]]
        0 <= i < videos@.len() ==> (takes(videos@[i]) <==> obsolete(videos@[i], source, remote@)));
    lemma_filter_map_is_drawn(
        videos@,
        pick_id,
        takes,
        |video: VideoRow, id: i32| id == video.id,
    );
    lemma_filter_map_is_drawn(
        videos@,
        pick_path,
        takes,
        |video: VideoRow, path: String| path == video.path,
    );
    lemma_pages_of(pages@, plan.video_ids@);
}

/// Two tables whose rows agree in their ids, their names and the sources that they name lose the
/// same videos, however else their rows differ.
pub proof fn law_full_sync_reads_nothing_but_names(
    source: SourceRef,
    videos: Vec<VideoRow>,
    others: Vec<VideoRow>,
    pages: Vec<PageRow>,
    remote: Vec<String>,
    plan: FullSyncPlan,
    other: FullSyncPlan,
)
    requires
        videos@.len() == others@.len(),
        forall|i: int|
            #![trigger videos@[i]]
            #![trigger others@[i]]
            0 <= i < videos@.len() ==> videos@[i].id == others@[i].id && videos@[i].relation
                == others@[i].relation && videos@[i].bvid@ == others@[i].bvid@,
        call_ensures(full_sync_video_source, (source, &videos, &pages, &remote), plan),
        call_ensures(full_sync_video_source, (source, &others, &pages, &remote), other),
    ensures
        plan.video_ids@ == other.video_ids@,
{
    law_full_sync_removes_what_the_source_lacks(source, videos, pages, remote, plan);
    law_full_sync_removes_what_the_source_lacks(source, others, pages, remote, other);
    let takes = |video: VideoRow| is_gone(video, source, remote@);
    let gives = |video: VideoRow, id: i32| id == video.id;
    let at = choose|at: Seq<int>| #[trigger] drawn(videos@, plan.video_ids@, at, takes, gives);
    let at2 = choose|at: Seq<int>| #[trigger] drawn(others@, other.video_ids@, at, takes, gives);
    assert(drawn_from(videos@, plan.video_ids@, takes, gives));
    assert(drawn_from(others@, other.video_ids@, takes, gives));
    lemma_drawn_from_the_same_places(
        videos@,
        plan.video_ids@,
        at,
        takes,
        gives,
        others@,
        other.video_ids@,
        at2,
        takes,
        gives,
    );
    assert forall|k: int| 0 <= k < plan.video_ids@.len() implies #[trigger] plan.video_ids@[k]
        == other.video_ids@[k] by {
        assert(gives(videos@[at[k]], plan.video_ids@[k]));
        assert(gives(others@[at2[k]], other.video_ids@[k]));
    }
    assert(plan.video_ids@ =~= other.video_ids@);
}

/// Where the directories are to be deleted too, exactly those go that are known, one for each
/// video that goes; otherwise none does.
pub proof fn law_directories_go_with_their_videos(
    plan: FullSyncPlan,
    delete_local: bool,
    directories: Vec<String>,
)
    requires
        call_ensures(directories_to_delete, (&plan, delete_local), directories),
    ensures
        delete_local ==> drawn_from(
            plan.paths@,
            directories@,
            |path: String| path@.len() > 0,
            |path: String, directory: String| directory == path,
        ),
        !delete_local ==> directories@.len() == 0,
{
    let pick = |path: String|
        if path@.len() > 0 {
            Some(path)
        } else {
            None
        };
    lemma_filter_map_is_drawn(
        plan.paths@,
        pick,
        |path: String| path@.len() > 0,
        |path: String, directory: String| directory == path,
    );
}

/// The answer tells how many videos went. It tells what could not be deleted, if only that it is
/// nothing, exactly where directories were to be deleted and a video went.
pub proof fn law_full_sync_answers_what_it_did(
    plan: FullSyncPlan,
    delete_local: bool,
    warnings: Vec<String>,
    r: FullSyncVideoSourceResponse,
)
    requires
        call_ensures(full_sync_response, (&plan, delete_local, warnings), r),
    ensures
        r.removed_count == plan.video_ids@.len(),
        r.warnings is Some <==> delete_local && plan.video_ids@.len() > 0,
        r.warnings matches Some(told) ==> told == warnings,
{
}

/// Removing a stored source takes exactly the videos whose rows name it, each once, with all their
/// pages and no others; one that is not stored is refused, and so it is for a comparison.
pub proof fn law_removal_takes_everything_of_the_source(
    source: SourceRef,
    stored: bool,
    videos: Vec<VideoRow>,
    pages: Vec<PageRow>,
    r: Result<RemovalPlan, InnerApiError>,
    allowed: Result<(), InnerApiError>,
)
    requires
        call_ensures(remove_video_source, (source, stored, &videos, &pages), r),
        call_ensures(require_stored, (source, stored), allowed),
    ensures
        stored <==> r is Ok,
        stored <==> allowed is Ok,
        r matches Err(error) ==> error == InnerApiError::NotFound(source.id),
        allowed matches Err(error) ==> error == InnerApiError::NotFound(source.id),
        r matches Ok(plan) ==> drawn_from(
            videos@,
            plan.video_ids@,
            |video: VideoRow| names_source(video.relation, source),
            |video: VideoRow, id: i32| id == video.id,
        ) && are_pages_of(pages@, plan.page_ids@, plan.video_ids@),
{
    let pick = |video: VideoRow|
        if video.relation.belongs(source) {
            Some(video.id)
        } else {
            None
        };
    lemma_filter_map_is_drawn(
        videos@,
        pick,
        |video: VideoRow| names_source(video.relation, source),
        |video: VideoRow, id: i32| id == video.id,
    );
    lemma_pages_of(pages@, video_ids_of(videos@, source));
}

/// The sources are those of a kind whose flags say that they are enabled, each once.
pub open spec fn are_enabled_ones(
    kind: SourceType,
    flags: Seq<SourceFlag>,
    sources: Seq<SourceRef>,
) -> bool {
    drawn_from(
        flags,
        sources,
        |flag: SourceFlag| flag.enabled,
        |flag: SourceFlag, source: SourceRef| source.kind == kind && source.id == flag.id,
    )
}

proof fn lemma_enabled_ones(kind: SourceType, flags: Seq<SourceFlag>)
    ensures
        are_enabled_ones(kind, flags, enabled_of(kind, flags)),
{
    let pick = |flag: SourceFlag|
        if flag.enabled {
            Some(SourceRef { kind, id: flag.id })
        } else {
            None
        };
    lemma_filter_map_is_drawn(
        flags,
        pick,
        |flag: SourceFlag| flag.enabled,
        |flag: SourceFlag, source: SourceRef| source.kind == kind && source.id == flag.id,
    );
}

/// Exactly the enabled sources of all four kinds are followed, each once, in some order.
pub proof fn law_all_enabled_sources_are_followed(
    favorites: Vec<SourceFlag>,
    watch_later: Vec<SourceFlag>,
    submissions: Vec<SourceFlag>,
    collections: Vec<SourceFlag>,
    r: Vec<SourceRef>,
)
    requires
        call_ensures(
            get_enabled_video_sources,
            (&favorites, &watch_later, &submissions, &collections),
            r,
        ),
    ensures
        exists|a: Seq<SourceRef>, b: Seq<SourceRef>, c: Seq<SourceRef>, d: Seq<SourceRef>|
            #![trigger a + b + c + d]
            are_enabled_ones(SourceType::Favorite, favorites@, a) && are_enabled_ones(
                SourceType::WatchLater,
                watch_later@,
                b,
            ) && are_enabled_ones(SourceType::Submission, submissions@, c) && are_enabled_ones(
                SourceType::Collection,
                collections@,
                d,
            ) && r@.to_multiset() == (a + b + c + d).to_multiset(),
{
    lemma_enabled_ones(SourceType::Favorite, favorites@);
    lemma_enabled_ones(SourceType::WatchLater, watch_later@);
    lemma_enabled_ones(SourceType::Submission, submissions@);
    lemma_enabled_ones(SourceType::Collection, collections@);
    let a = enabled_of(SourceType::Favorite, favorites@);
    let b = enabled_of(SourceType::WatchLater, watch_later@);
    let c = enabled_of(SourceType::Submission, submissions@);
    let d = enabled_of(SourceType::Collection, collections@);
    assert(r@.to_multiset() == (a + b + c + d).to_multiset());
}

/// A new source starts disabled, under the path that the user gave and under what the site says of
/// it. An uploader's number is read from its text, and a text that is no such number is refused.
pub proof fn law_new_sources_start_disabled(
    id: i64,
    owner: i64,
    kind: i32,
    text: &str,
    name: String,
    path: String,
    favorite: NewFavorite,
    collection: NewCollection,
    submission: Result<NewSubmission, NumberError>,
)
    requires
        call_ensures(insert_favorite, (id, name, path), favorite),
        call_ensures(insert_collection, (id, owner, kind, name, path), collection),
        call_ensures(insert_submission, (text, name, path), submission),
    ensures
        !favorite.enabled && favorite.f_id == id && favorite.name == name && favorite.path == path,
        !collection.enabled && collection.s_id == id && collection.m_id == owner
            && collection.collection_type == kind && collection.name == name && collection.path
            == path,
        submission matches Ok(row) ==> !row.enabled && row.upper_name == name && row.path == path
            && parsed(text@) == Some(row.upper_id as int),
        submission is Ok <==> (parsed(text@) matches Some(n) && -0x8000_0000_0000_0000 <= n
            <= 0x7fff_ffff_ffff_ffff),
{
    law_numbers_are_read_for_what_they_are(text@);
}

/// Collections, favorite lists and submissions can be removed, under these names; any other name
/// is refused.
pub proof fn law_removable_kinds_have_names(
    name: &str,
    r: Result<SourceType, InnerApiError>,
)
    requires
        call_ensures(parse_removable_type, (name,), r),
    ensures
        name@ == "collections"@ <==> (r matches Ok(kind) && kind is Collection),
        name@ == "favorites"@ <==> (r matches Ok(kind) && kind is Favorite),
        name@ == "submissions"@ <==> (r matches Ok(kind) && kind is Submission),
        !(r matches Ok(kind) && kind is WatchLater),
        r matches Err(error) ==> (error matches InnerApiError::BadRequest(told) && told@
            == "Invalid video source type"@),
{
    lemma_names_of_kinds_differ();
}

} // verus!
