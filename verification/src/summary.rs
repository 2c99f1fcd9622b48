//! Cutting a message's text down to a bounded number of user-perceived
//! characters, without ever cutting through one of them.

use vstd::prelude::*;
use vstd::string::*;

verus! {

/// The largest number of grapheme clusters that a report's summary holds.
pub const SUMMARY_LIMIT: usize = 512;

/// The extended grapheme clusters of `text`, in order, as the Unicode
/// segmentation rules cut them.
pub uninterp spec fn grapheme_clusters(text: Seq<char>) -> Seq<Seq<char>>;

/// The clusters of a list of strings, each by its characters.
pub open spec fn cluster_views(clusters: Seq<String>) -> Seq<Seq<char>> {
    Seq::new(clusters.len(), |i: int| clusters[i]@)
}

/// The text that a sequence of clusters makes when written one after another.
pub open spec fn joined(clusters: Seq<Seq<char>>) -> Seq<char>
    decreases clusters.len(),
{
    if clusters.len() == 0 {
        Seq::empty()
    } else {
        joined(clusters.drop_last()) + clusters.last()
    }
}

/// How many of `count` clusters a summary of at most `limit` clusters keeps.
pub open spec fn kept_clusters(count: nat, limit: nat) -> int {
    if limit <= count {
        limit as int
    } else {
        count as int
    }
}

/// The summary of a text with the given clusters: its first `limit`
/// clusters, or all of them where there are fewer.
pub open spec fn summary_of(clusters: Seq<Seq<char>>, limit: nat) -> Seq<char> {
    joined(clusters.take(kept_clusters(clusters.len(), limit)))
}

/// Cuts `text` into its extended grapheme clusters with
/// `unicode_segmentation::UnicodeSegmentation::graphemes`. Trusted: the
/// result is what that iterator yields, each cluster copied into a string of
/// its own; the iterator yields consecutive non-empty slices that together
/// cover the whole text.
#[verifier::external_body]
fn split_graphemes(text: &str) -> (clusters: Vec<String>)
    ensures
        cluster_views(clusters@) == grapheme_clusters(text@),
        joined(cluster_views(clusters@)) == text@,
        forall|i: int| 0 <= i < clusters@.len() ==> (#[trigger] clusters@[i])@.len() > 0,
{
    unicode_segmentation::UnicodeSegmentation::graphemes(text, true).map(String::from).collect()
}

/// Cutting after a whole number of clusters: the text is the summary
/// followed by the clusters that were left out, so every cluster is either
/// wholly inside the summary or wholly outside it.
pub proof fn lemma_cut_between_clusters(clusters: Seq<Seq<char>>, limit: nat)
    ensures
        joined(clusters) == summary_of(clusters, limit) + joined(
            clusters.skip(kept_clusters(clusters.len(), limit)),
        ),
        summary_of(clusters, limit).is_prefix_of(joined(clusters)),
        clusters.len() <= limit ==> summary_of(clusters, limit) == joined(clusters),
{
    let kept = kept_clusters(clusters.len(), limit);
    lemma_joined_split(clusters, kept);
    let head = joined(clusters.take(kept));
    let tail = joined(clusters.skip(kept));
    assert((head + tail).subrange(0, head.len() as int) =~= head);
    if clusters.len() <= limit {
        assert(clusters.take(kept) =~= clusters);
    }
}

/// Where the cluster at `index` begins in the text that `clusters` make.
pub open spec fn cluster_start(clusters: Seq<Seq<char>>, index: int) -> nat {
    joined(clusters.take(index)).len()
}

/// No cluster is split by the cut: a cluster that the summary keeps stands
/// in it whole, at the place it has in the text, and a cluster that it does
/// not keep begins where the summary has already ended.
pub proof fn lemma_no_cluster_is_split(clusters: Seq<Seq<char>>, limit: nat, index: int)
    requires
        0 <= index < clusters.len(),
    ensures
        index < kept_clusters(clusters.len(), limit) ==> {
            &&& cluster_start(clusters, index) + clusters[index].len() <= summary_of(
                clusters,
                limit,
            ).len()
            &&& summary_of(clusters, limit).subrange(
                cluster_start(clusters, index) as int,
                (cluster_start(clusters, index) + clusters[index].len()) as int,
            ) == clusters[index]
        },
        index >= kept_clusters(clusters.len(), limit) ==> summary_of(clusters, limit).len()
            <= cluster_start(clusters, index),
{
    let kept = kept_clusters(clusters.len(), limit);
    let summary = summary_of(clusters, limit);
    if index < kept {
        let head = clusters.take(kept);
        let before = joined(clusters.take(index));
        lemma_joined_split(head, index + 1);
        assert(head.take(index + 1) =~= clusters.take(index + 1));
        assert(clusters.take(index + 1).drop_last() =~= clusters.take(index));
        assert(clusters.take(index + 1).last() == clusters[index]);
        assert(joined(clusters.take(index + 1)) == before + clusters[index]);
        assert(summary == (before + clusters[index]) + joined(head.skip(index + 1)));
        assert(summary.subrange(
            before.len() as int,
            (before.len() + clusters[index].len()) as int,
        ) =~= clusters[index]);
    } else {
        let upto = clusters.take(index);
        lemma_joined_split(upto, kept);
        assert(upto.take(kept) =~= clusters.take(kept));
    }
}

/// Joining distributes over cutting a sequence of clusters in two.
pub proof fn lemma_joined_split(clusters: Seq<Seq<char>>, at: int)
    requires
        0 <= at <= clusters.len(),
    ensures
        joined(clusters) == joined(clusters.take(at)) + joined(clusters.skip(at)),
    decreases clusters.len(),
{
    if at == clusters.len() {
        assert(clusters.take(at) =~= clusters);
        assert(clusters.skip(at) =~= Seq::<Seq<char>>::empty());
        assert(joined(clusters.skip(at)) =~= Seq::<char>::empty());
        assert(joined(clusters) =~= joined(clusters) + Seq::<char>::empty());
    } else {
        let shorter = clusters.drop_last();
        lemma_joined_split(shorter, at);
        assert(shorter.take(at) =~= clusters.take(at));
        assert(clusters.skip(at).drop_last() =~= shorter.skip(at));
        assert(clusters.skip(at).last() == clusters.last());
        assert(joined(clusters) =~= joined(clusters.take(at)) + joined(clusters.skip(at)));
    }
}

/// A summary of a text that holds a cluster, with room for one, holds that
/// text's first cluster whole.
pub proof fn lemma_summary_starts_with_first_cluster(clusters: Seq<Seq<char>>, limit: nat)
    requires
        clusters.len() > 0,
        limit > 0,
    ensures
        clusters[0].is_prefix_of(summary_of(clusters, limit)),
{
    let kept = kept_clusters(clusters.len(), limit);
    let head = clusters.take(kept);
    lemma_joined_split(head, 1);
    assert(head.take(1).drop_last() =~= Seq::<Seq<char>>::empty());
    assert(head.take(1).last() == clusters[0]);
    assert(joined(head.take(1).drop_last()) =~= Seq::<char>::empty());
    assert(joined(head.take(1)) =~= clusters[0]);
    assert((clusters[0] + joined(head.skip(1))).subrange(0, clusters[0].len() as int)
        =~= clusters[0]);
}

/// Writes the first `limit` of `clusters` one after another, or all of them
/// where there are fewer.
pub fn join_leading(clusters: &Vec<String>, limit: usize) -> (summary: String)
    ensures
        summary@ == summary_of(cluster_views(clusters@), limit as nat),
{
    let mut summary = String::new();
    let mut i: usize = 0;
    assert(cluster_views(clusters@).take(0) =~= Seq::<Seq<char>>::empty());
    while i < clusters.len() && i < limit
        invariant
            i <= clusters.len(),
            i <= limit,
            summary@ == joined(cluster_views(clusters@).take(i as int)),
        decreases clusters.len() - i,
    {
        summary.append(clusters[i].as_str());
        proof {
            let all = cluster_views(clusters@);
            assert(all.take(i + 1).drop_last() =~= all.take(i as int));
            assert(all.take(i + 1).last() == clusters@[i as int]@);
        }
        i = i + 1;
    }
    summary
}

/// The summary of `text` for a report: its first `limit` grapheme clusters,
/// or the whole text where it has no more than that.
pub fn summarize(text: &str, limit: usize) -> (summary: String)
    ensures
        summary@ == summary_of(grapheme_clusters(text@), limit as nat),
        text@ == summary@ + joined(
            grapheme_clusters(text@).skip(
                kept_clusters(grapheme_clusters(text@).len(), limit as nat),
            ),
        ),
        summary@.is_prefix_of(text@),
        grapheme_clusters(text@).len() <= limit ==> summary@ == text@,
        limit > 0 && text@.len() > 0 ==> summary@.len() > 0,
{
    let clusters = split_graphemes(text);
    let summary = join_leading(&clusters, limit);
    proof {
        let all = cluster_views(clusters@);
        lemma_cut_between_clusters(all, limit as nat);
        if limit > 0 && text@.len() > 0 {
            assert(all.len() > 0);
            assert(all[0] == clusters@[0]@);
            lemma_summary_starts_with_first_cluster(all, limit as nat);
        }
    }
    summary
}

} // verus!
