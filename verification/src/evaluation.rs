//! Whether the videos of a source are to be downloaded: its rule looks at each of them together
//! with its pages, and the verdicts are written down.
use vstd::prelude::*;

use crate::batch::evaluate_statements;
use crate::videos::{collect_pages, PageRow, SourceRef, VideoRow};

verus! {

use crate::batch::{are_flag_statements, chunks, flag_statements, lemma_flag_statements};
use crate::seqs::{drawn, drawn_from, lemma_filter_map_is_drawn};
use crate::text::views;
use crate::videos::{law_pages_are_those_of_the_video, names_source, pages_of};

/// The videos of a source.
pub open spec fn videos_of(videos: Seq<VideoRow>, source: SourceRef) -> Seq<VideoRow> {
    videos.filter_map(
        |video: VideoRow|
            if video.relation.belongs(source) {
                Some(video)
            } else {
                None
            },
    )
}

/// What the rule of a source looks at: its videos, and no others, each with its pages.
pub fn videos_to_evaluate(
    videos: &Vec<VideoRow>,
    pages: &Vec<PageRow>,
    source: SourceRef,
) -> (r: Vec<(VideoRow, Vec<PageRow>)>)
    ensures
        r@.len() == videos_of(videos@, source).len(),
        forall|k: int|
            0 <= k < r@.len() ==> (#[trigger] r@[k]).0 == videos_of(videos@, source)[k]
                && r@[k].1@ == pages_of(pages@, r@[k].0.id),
{
    let mut r: Vec<(VideoRow, Vec<PageRow>)> = Vec::new();
    let mut i: usize = 0;
    while i < videos.len()
        invariant
            i <= videos.len(),
            r@.len() == videos_of(videos@.take(i as int), source).len(),
            forall|k: int|
                0 <= k < r@.len() ==> (#[trigger] r@[k]).0 == videos_of(
                    videos@.take(i as int),
                    source,
                )[k] && r@[k].1@ == pages_of(pages@, r@[k].0.id),
        decreases videos.len() - i,
    {
        proof {
            assert(videos@.take(i + 1).drop_last() =~= videos@.take(i as int));
        }
        let video = &videos[i];
        if video.relation.belongs_to(source) {
            r.push((video.clone(), collect_pages(pages, video.id)));
        }
        i += 1;
    }
    assert(videos@.take(i as int) =~= videos@);
    r
}

/// Each video that was looked at, by its id, with the verdict on it.
pub open spec fn verdict_items(
    videos: Seq<(VideoRow, Vec<PageRow>)>,
    verdicts: Seq<bool>,
) -> Seq<(i32, bool)> {
    Seq::new(videos.len(), |k: int| (videos[k].0.id, verdicts[k]))
}

/// The statements that write the verdicts down, a batch each: the first verdict is on the first
/// video, and so on.
pub fn evaluated_statements(videos: &Vec<(VideoRow, Vec<PageRow>)>, verdicts: &Vec<bool>) -> (r: Vec<
    String,
>)
    requires
        videos.len() == verdicts.len(),
    ensures
        views(r@) == flag_statements(verdict_items(videos@, verdicts@)),
{
    let mut items: Vec<(i32, bool)> = Vec::new();
    let mut i: usize = 0;
    while i < videos.len()
        invariant
            i <= videos.len(),
            videos.len() == verdicts.len(),
            items@ == verdict_items(videos@, verdicts@).take(i as int),
        decreases videos.len() - i,
    {
        items.push((videos[i].0.id, verdicts[i]));
        i += 1;
    }
    assert(items@ =~= verdict_items(videos@, verdicts@));
    evaluate_statements(items)
}

/// The flag that a list gives to an id, if it gives one.
pub open spec fn flag_given(items: Seq<(i32, bool)>, id: i32) -> Option<bool>
    decreases items.len(),
{
    if items.len() == 0 {
        None
    } else if items.last().0 == id {
        Some(items.last().1)
    } else {
        flag_given(items.drop_last(), id)
    }
}

/// A video after a list of flags was written down: the flag is the only thing that changes, and
/// only where the list gives one.
pub open spec fn with_flag(video: VideoRow, items: Seq<(i32, bool)>) -> VideoRow {
    match flag_given(items, video.id) {
        Some(should_download) => VideoRow { should_download, ..video },
        None => video,
    }
}

/// The videos after a list of flags was written down.
pub open spec fn with_flags(videos: Seq<VideoRow>, items: Seq<(i32, bool)>) -> Seq<VideoRow> {
    videos.map_values(|video: VideoRow| with_flag(video, items))
}

/// The videos after several lists of flags were written down, one after another.
pub open spec fn with_batches(
    videos: Seq<VideoRow>,
    batches: Seq<Seq<(i32, bool)>>,
) -> Seq<VideoRow>
    decreases batches.len(),
{
    if batches.len() == 0 {
        videos
    } else {
        with_batches(with_flags(videos, batches.first()), batches.drop_first())
    }
}

/// The verdicts of a rule on the videos of a source.
pub open spec fn rule_verdicts(
    videos: Seq<VideoRow>,
    pages: Seq<PageRow>,
    source: SourceRef,
    rule: spec_fn(VideoRow, Seq<PageRow>) -> bool,
) -> Seq<(i32, bool)> {
    let own = videos_of(videos, source);
    Seq::new(own.len(), |k: int| (own[k].id, rule(own[k], pages_of(pages, own[k].id))))
}

proof fn lemma_flag_given_joined(first: Seq<(i32, bool)>, second: Seq<(i32, bool)>, id: i32)
    ensures
        flag_given(first + second, id) == match flag_given(second, id) {
            Some(flag) => Some(flag),
            None => flag_given(first, id),
        },
    decreases second.len(),
{
    if second.len() == 0 {
        assert(first + second =~= first);
    } else {
        let all = first + second;
        assert(all.last() == second.last());
        assert(all.drop_last() =~= first + second.drop_last());
        lemma_flag_given_joined(first, second.drop_last(), id);
    }
}

/// Writing the flags down batch by batch comes to the same as writing them down at once, however
/// many they are.
pub proof fn law_batches_set_the_same_flags(
    videos: Seq<VideoRow>,
    items: Seq<(i32, bool)>,
    size: nat,
)
    requires
        size > 0,
    ensures
        with_batches(videos, chunks(items, size)) == with_flags(videos, items),
    decreases items.len(),
{
    let batches = chunks(items, size);
    if items.len() == 0 {
        assert(with_flags(videos, items) =~= videos);
    } else if items.len() <= size {
        assert(batches.first() == items);
        assert(batches.drop_first() =~= Seq::empty());
        assert(with_batches(with_flags(videos, items), batches.drop_first()) == with_flags(
            videos,
            items,
        ));
    } else {
        let head = items.take(size as int);
        let rest = items.skip(size as int);
        let begun = with_flags(videos, head);
        assert(batches.first() == head);
        assert(batches.drop_first() =~= chunks(rest, size));
        law_batches_set_the_same_flags(begun, rest, size);
        assert(head + rest =~= items);
        assert forall|i: int| 0 <= i < videos.len() implies with_flags(begun, rest)[i]
            == with_flags(videos, items)[i] by {
            lemma_flag_given_joined(head, rest, videos[i].id);
        }
        assert(with_flags(begun, rest) =~= with_flags(videos, items));
    }
}

/// Writing the same flags down again changes nothing.
pub proof fn law_setting_flags_again_changes_nothing(
    videos: Seq<VideoRow>,
    items: Seq<(i32, bool)>,
)
    ensures
        with_flags(with_flags(videos, items), items) == with_flags(videos, items),
{
    assert(with_flags(with_flags(videos, items), items) =~= with_flags(videos, items));
}

proof fn lemma_verdict_of(
    videos: Seq<VideoRow>,
    pages: Seq<PageRow>,
    source: SourceRef,
    rule: spec_fn(VideoRow, Seq<PageRow>) -> bool,
    id: i32,
)
    requires
        forall|i: int, j: int|
            0 <= i < j < videos.len() ==> (#[trigger] videos[i]).id != (#[trigger] videos[j]).id,
    ensures
        forall|i: int|
            0 <= i < videos.len() && (#[trigger] videos[i]).id == id && videos[i].relation.belongs(
                source,
            ) ==> flag_given(rule_verdicts(videos, pages, source, rule), id) == Some(
                rule(videos[i], pages_of(pages, id)),
            ),
        (forall|i: int|
            0 <= i < videos.len() && (#[trigger] videos[i]).id == id
                ==> !videos[i].relation.belongs(source)) ==> flag_given(
            rule_verdicts(videos, pages, source, rule),
            id,
        ) is None,
    decreases videos.len(),
{
    let all = rule_verdicts(videos, pages, source, rule);
    if videos.len() == 0 {
        assert(videos_of(videos, source).len() == 0);
    } else {
        let rest = videos.drop_last();
        let last = videos.last();
        assert(forall|i: int| 0 <= i < rest.len() ==> videos[i] == #[trigger] rest[i]);
        assert(videos[videos.len() - 1] == last);
        lemma_verdict_of(rest, pages, source, rule, id);
        let before = rule_verdicts(rest, pages, source, rule);
        if last.relation.belongs(source) {
            assert(videos_of(videos, source) =~= videos_of(rest, source).push(last));
            assert(all =~= before.push((last.id, rule(last, pages_of(pages, last.id)))));
            assert(all.drop_last() =~= before);
        } else {
            assert(videos_of(videos, source) =~= videos_of(rest, source));
            assert(all =~= before);
        }
        assert forall|i: int|
            0 <= i < videos.len() && (#[trigger] videos[i]).id == id && videos[i].relation.belongs(
                source,
            ) implies flag_given(all, id) == Some(rule(videos[i], pages_of(pages, id))) by {
            if i < rest.len() {
                assert(rest[i].id == id);
                assert(videos[i].id != videos[videos.len() - 1].id);
            }
        }
        if forall|i: int|
            0 <= i < videos.len() && (#[trigger] videos[i]).id == id
                ==> !videos[i].relation.belongs(source) {
            assert forall|i: int| 0 <= i < rest.len() && (#[trigger] rest[i]).id == id implies
                !rest[i].relation.belongs(source) by {
                assert(videos[i].id == id);
            }
        }
    }
}

/// Each video of the source gets the verdict of its rule on this video and its own pages; nothing
/// else of it changes, and no other video changes.
pub proof fn law_every_video_gets_its_own_verdict(
    videos: Seq<VideoRow>,
    pages: Seq<PageRow>,
    source: SourceRef,
    rule: spec_fn(VideoRow, Seq<PageRow>) -> bool,
    i: int,
)
    requires
        forall|i: int, j: int|
            0 <= i < j < videos.len() ==> (#[trigger] videos[i]).id != (#[trigger] videos[j]).id,
        0 <= i < videos.len(),
    ensures
        with_flags(videos, rule_verdicts(videos, pages, source, rule))[i] == (
        if videos[i].relation.belongs(source) {
            VideoRow {
                should_download: rule(videos[i], pages_of(pages, videos[i].id)),
                ..videos[i]
            }
        } else {
            videos[i]
        }),
{
    lemma_verdict_of(videos, pages, source, rule, videos[i].id);
    if !videos[i].relation.belongs(source) {
        assert forall|j: int|
            0 <= j < videos.len() && (#[trigger] videos[j]).id == videos[i].id implies
            !videos[j].relation.belongs(source) by {
            if j < i {
                assert(videos[j].id != videos[i].id);
            } else if i < j {
                assert(videos[i].id != videos[j].id);
            }
        }
    }
}

/// The verdicts that are written down are those of the rule, where it was asked about what
/// [`videos_to_evaluate`] lists, in its order.
pub proof fn law_verdicts_go_to_their_videos(
    videos: Seq<VideoRow>,
    pages: Seq<PageRow>,
    source: SourceRef,
    rule: spec_fn(VideoRow, Seq<PageRow>) -> bool,
    listed: Seq<(VideoRow, Vec<PageRow>)>,
    verdicts: Seq<bool>,
)
    requires
        listed.len() == videos_of(videos, source).len(),
        forall|k: int|
            0 <= k < listed.len() ==> (#[trigger] listed[k]).0 == videos_of(videos, source)[k]
                && listed[k].1@ == pages_of(pages, listed[k].0.id),
        verdicts.len() == listed.len(),
        forall|k: int|
            0 <= k < listed.len() ==> #[trigger] verdicts[k] == rule(listed[k].0, listed[k].1@),
    ensures
        verdict_items(listed, verdicts) == rule_verdicts(videos, pages, source, rule),
{
    assert forall|k: int| 0 <= k < listed.len() implies #[trigger] verdict_items(
        listed,
        verdicts,
    )[k] == rule_verdicts(videos, pages, source, rule)[k] by {
        assert(listed[k].0 == videos_of(videos, source)[k]);
        assert(verdicts[k] == rule(listed[k].0, listed[k].1@));
    }
    assert(verdict_items(listed, verdicts) =~= rule_verdicts(videos, pages, source, rule));
}

/// The rule of a source is asked about exactly the videos whose rows name the source, each once,
/// with all pages whose rows name the video and no others.
pub proof fn law_rules_see_every_video_of_the_source(
    videos: Vec<VideoRow>,
    pages: Vec<PageRow>,
    source: SourceRef,
    listed: Vec<(VideoRow, Vec<PageRow>)>,
)
    requires
        call_ensures(videos_to_evaluate, (&videos, &pages, source), listed),
    ensures
        drawn_from(
            videos@,
            listed@,
            |video: VideoRow| names_source(video.relation, source),
            |video: VideoRow, seen: (VideoRow, Vec<PageRow>)|
                seen.0 == video && drawn_from(
                    pages@,
                    seen.1@,
                    |page: PageRow| page.video_id == video.id,
                    |page: PageRow, own: PageRow| own == page,
                ),
        ),
{
    let takes = |video: VideoRow| names_source(video.relation, source);
    let same = |video: VideoRow, seen: VideoRow| seen == video;
    let gives = |video: VideoRow, seen: (VideoRow, Vec<PageRow>)|
        seen.0 == video && drawn_from(
            pages@,
            seen.1@,
            |page: PageRow| page.video_id == video.id,
            |page: PageRow, own: PageRow| own == page,
        );
    let pick = |video: VideoRow|
        if video.relation.belongs(source) {
            Some(video)
        } else {
            None
        };
    let at = lemma_filter_map_is_drawn(videos@, pick, takes, same);
    assert forall|k: int| 0 <= k < at.len() implies takes(videos@[#[trigger] at[k]]) && gives(
        videos@[at[k]],
        listed@[k],
    ) by {
        law_pages_are_those_of_the_video(pages@, listed@[k].0.id);
    }
    assert(drawn(videos@, listed@, at, takes, gives));
}

/// The statements write down each verdict for the video at its own place, once and in order, at
/// most 500 with one statement.
pub proof fn law_every_verdict_is_written_once(
    videos: Vec<(VideoRow, Vec<PageRow>)>,
    verdicts: Vec<bool>,
    statements: Vec<String>,
)
    requires
        videos@.len() == verdicts@.len(),
        call_ensures(evaluated_statements, (&videos, &verdicts), statements),
    ensures
        exists|batches: Seq<Seq<(i32, bool)>>| #[trigger]
            are_flag_statements(statements@, batches) && batches.flatten() == Seq::new(
                videos@.len(),
                |k: int| (videos@[k].0.id, verdicts@[k]),
            ),
{
    let items = verdict_items(videos@, verdicts@);
    assert(items =~= Seq::new(videos@.len(), |k: int| (videos@[k].0.id, verdicts@[k])));
    lemma_flag_statements(items, statements@);
}

} // verus!
