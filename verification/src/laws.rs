//! Laws of the dump engine, stated and proved over the engine's own
//! specification functions.
use vstd::prelude::*;

use crate::engine::{
    archive_fold, cache_fold, dump_plain_diag, dump_plain_out, fat_fold_diag, fat_fold_out,
    image_diag, image_out, import_diag, import_out, initial_filter,
    member_body_diag, member_body_out, member_diag, member_out, print_diag, print_out,
    slice_diag, slice_out, unresolved_text,
};
use crate::filter::{spec_mark, spec_match};
use crate::model::{CacheImageRec, FatSliceModel, MemberRec};
use crate::provider::{
    archive_model_of, cache_model_of, fat32_model_of, fat64_model_of, lossy_text_of,
    short_import_sniff,
};

verus! {

/// The archive traversal with no gating: every member's full contribution,
/// in on-disk order.
pub open spec fn archive_unfiltered_out(ms: Seq<MemberRec>) -> Seq<char>
    decreases ms.len(),
{
    if ms.len() == 0 {
        Seq::<char>::empty()
    } else {
        archive_unfiltered_out(ms.drop_last()) + member_out(
            ms.last(),
            Seq::<(Seq<u8>, bool)>::empty(),
        )
    }
}

pub open spec fn archive_unfiltered_diag(ms: Seq<MemberRec>) -> Seq<char>
    decreases ms.len(),
{
    if ms.len() == 0 {
        Seq::<char>::empty()
    } else {
        archive_unfiltered_diag(ms.drop_last()) + member_diag(
            ms.last(),
            Seq::<(Seq<u8>, bool)>::empty(),
        )
    }
}

/// An empty requested-name list gates nothing: every offered name passes,
/// the filter stays empty, and no unresolved-member line is ever emitted.
pub proof fn lemma_empty_filter_passes_all(name: Seq<u8>)
    ensures
        spec_match(Seq::<(Seq<u8>, bool)>::empty(), name),
        spec_mark(Seq::<(Seq<u8>, bool)>::empty(), name) == Seq::<(Seq<u8>, bool)>::empty(),
        unresolved_text(Seq::<(Seq<u8>, bool)>::empty()) == Seq::<char>::empty(),
{
    assert(spec_mark(Seq::<(Seq<u8>, bool)>::empty(), name) =~= Seq::<(Seq<u8>, bool)>::empty());
}

/// With an empty requested-name list, an archive traversal visits every
/// member: each one contributes its full block, in order, and the filter
/// ends as it began, so no unresolved-member diagnostics follow.
pub proof fn lemma_empty_filter_visits_all(ms: Seq<MemberRec>)
    ensures
        archive_fold(ms, Seq::<(Seq<u8>, bool)>::empty()).0 == archive_unfiltered_out(ms),
        archive_fold(ms, Seq::<(Seq<u8>, bool)>::empty()).1 == archive_unfiltered_diag(ms),
        archive_fold(ms, Seq::<(Seq<u8>, bool)>::empty()).2 == Seq::<(Seq<u8>, bool)>::empty(),
    decreases ms.len(),
{
    if ms.len() > 0 {
        lemma_empty_filter_visits_all(ms.drop_last());
        match ms.last() {
            MemberRec::Entry { name, data } => {
                lemma_empty_filter_passes_all(name@);
            },
            MemberRec::Broken(_) => {},
        }
    }
}

/// The cache traversal with no gating: every image's full contribution,
/// in cache order.
pub open spec fn cache_unfiltered_out(
    data: Seq<u8>,
    extras: Seq<Vec<u8>>,
    images: Seq<CacheImageRec>,
    n: int,
) -> Seq<char>
    decreases n,
{
    if n <= 0 {
        Seq::<char>::empty()
    } else {
        cache_unfiltered_out(data, extras, images, n - 1) + image_out(
            data,
            extras,
            images[n - 1],
            n - 1,
            Seq::<(Seq<u8>, bool)>::empty(),
        )
    }
}

pub open spec fn cache_unfiltered_diag(
    data: Seq<u8>,
    extras: Seq<Vec<u8>>,
    images: Seq<CacheImageRec>,
    n: int,
) -> Seq<char>
    decreases n,
{
    if n <= 0 {
        Seq::<char>::empty()
    } else {
        cache_unfiltered_diag(data, extras, images, n - 1) + image_diag(
            data,
            extras,
            images[n - 1],
            n - 1,
            Seq::<(Seq<u8>, bool)>::empty(),
        )
    }
}

/// With an empty requested-name list, a shared-cache traversal visits
/// every image: each one contributes its full block, in order, and the
/// filter ends as it began, so no unresolved-member diagnostics follow.
pub proof fn lemma_empty_filter_visits_all_images(
    data: Seq<u8>,
    extras: Seq<Vec<u8>>,
    images: Seq<CacheImageRec>,
    n: int,
)
    ensures
        cache_fold(data, extras, images, n, Seq::<(Seq<u8>, bool)>::empty()).0
            == cache_unfiltered_out(data, extras, images, n),
        cache_fold(data, extras, images, n, Seq::<(Seq<u8>, bool)>::empty()).1
            == cache_unfiltered_diag(data, extras, images, n),
        cache_fold(data, extras, images, n, Seq::<(Seq<u8>, bool)>::empty()).2 == Seq::<
            (Seq<u8>, bool),
        >::empty(),
    decreases n,
{
    if n > 0 {
        lemma_empty_filter_visits_all_images(data, extras, images, n - 1);
        match images[n - 1] {
            CacheImageRec::Image { path } => {
                lemma_empty_filter_passes_all(path@);
            },
            CacheImageRec::PathFailed(_) => {},
        }
    }
}

/// Exact-name matching: with requested names `p` and `a`, offering `p`
/// is accepted and marks only `p`; the unresolved diagnostics are then
/// exactly one line naming `a`.
pub proof fn lemma_exact_name_matching(p: Seq<u8>, a: Seq<u8>)
    requires
        p != a,
    ensures
        spec_match(seq![(p, false), (a, false)], p),
        spec_mark(seq![(p, false), (a, false)], p) == seq![(p, true), (a, false)],
        unresolved_text(seq![(p, true), (a, false)]) == "Failed to find member '"@
            + lossy_text_of(a) + "\n"@,
{
    let f0 = seq![(p, false), (a, false)];
    assert(f0[0].0 == p);
    assert(spec_mark(f0, p) =~= seq![(p, true), (a, false)]);
    let e = Seq::<(Seq<u8>, bool)>::empty();
    let g = seq![(p, true)];
    let f1 = seq![(p, true), (a, false)];
    assert(unresolved_text(e) == Seq::<char>::empty());
    assert(g.drop_last() =~= e);
    assert(g.last() == (p, true));
    assert(unresolved_text(g) == unresolved_text(e) + Seq::<char>::empty());
    assert(unresolved_text(g) =~= Seq::<char>::empty());
    assert(f1.drop_last() =~= g);
    assert(f1.last() == (a, false));
    assert(unresolved_text(f1) == unresolved_text(g) + ("Failed to find member '"@
        + lossy_text_of(a) + "\n"@));
    assert(unresolved_text(f1) =~= "Failed to find member '"@ + lossy_text_of(a) + "\n"@);
}

/// Idempotence and determinism: the whole report is a function of the
/// input blob, the auxiliary blobs and the requested names alone, so two
/// runs on the same inputs produce byte-identical streams.
pub proof fn lemma_deterministic(
    data: Seq<u8>,
    extras: Seq<Vec<u8>>,
    names: Seq<Vec<u8>>,
    r1: (Seq<char>, Seq<char>),
    r2: (Seq<char>, Seq<char>),
)
    requires
        r1 == (print_out(data, extras, names), print_diag(data, extras, names)),
        r2 == (print_out(data, extras, names), print_diag(data, extras, names)),
    ensures
        r1 == r2,
{
}

/// Fallback total coverage: when all four container trial parses fail, the
/// primary report is exactly the plain-object report of the whole blob,
/// and the diagnostics are the plain-object diagnostics followed by one
/// line per requested name (nothing was there to match them).
pub proof fn lemma_fallback_plain(data: Seq<u8>, extras: Seq<Vec<u8>>, names: Seq<Vec<u8>>)
    requires
        archive_model_of(data) is None,
        fat32_model_of(data) is None,
        fat64_model_of(data) is None,
        cache_model_of(data, extras) is None,
    ensures
        print_out(data, extras, names) == dump_plain_out(data),
        print_diag(data, extras, names) == dump_plain_diag(data) + unresolved_text(
            initial_filter(names),
        ),
{
}

/// Content over name: an archive member whose bytes sniff as a short
/// import is rendered as the short-import block; the member's stored name
/// plays no part in the choice (the body depends on the bytes alone).
pub proof fn lemma_content_over_name(data: Seq<u8>)
    requires
        short_import_sniff(data),
    ensures
        member_body_out(data) == import_out(data),
        member_body_diag(data) == import_diag(data),
{
}

/// Splitting a fat traversal: the report and diagnostics of two slice runs
/// in sequence are the concatenation of each run's own.
pub proof fn lemma_fat_fold_concat(a: Seq<FatSliceModel>, b: Seq<FatSliceModel>, is32: bool)
    ensures
        fat_fold_out(a + b) == fat_fold_out(a) + fat_fold_out(b),
        fat_fold_diag(a + b, is32) == fat_fold_diag(a, is32) + fat_fold_diag(b, is32),
    decreases b.len(),
{
    if b.len() == 0 {
        assert(a + b =~= a);
        assert(fat_fold_out(a) + fat_fold_out(b) =~= fat_fold_out(a));
        assert(fat_fold_diag(a, is32) + fat_fold_diag(b, is32) =~= fat_fold_diag(a, is32));
    } else {
        lemma_fat_fold_concat(a, b.drop_last(), is32);
        assert((a + b).drop_last() =~= a + b.drop_last());
        assert((a + b).last() == b.last());
        assert(fat_fold_out(a) + (fat_fold_out(b.drop_last()) + slice_out(b.last())) =~= (
        fat_fold_out(a) + fat_fold_out(b.drop_last())) + slice_out(b.last()));
        assert(fat_fold_diag(a, is32) + (fat_fold_diag(b.drop_last(), is32) + slice_diag(
            b.last(),
            is32,
        )) =~= (fat_fold_diag(a, is32) + fat_fold_diag(b.drop_last(), is32)) + slice_diag(
            b.last(),
            is32,
        ));
    }
}

/// Fault isolation in a fat binary: a slice whose extraction failed
/// contributes its header line to the report and exactly one diagnostic
/// line, and every other slice's contribution is exactly what it would be
/// on its own, in slice order.
pub proof fn lemma_fat_fault_isolation(ss: Seq<FatSliceModel>, is32: bool, k: int)
    requires
        0 <= k < ss.len(),
        ss[k].data is Err,
    ensures
        fat_fold_out(ss) == fat_fold_out(ss.take(k)) + slice_out(ss[k]) + fat_fold_out(
            ss.skip(k + 1),
        ),
        fat_fold_diag(ss, is32) == fat_fold_diag(ss.take(k), is32) + slice_diag(ss[k], is32)
            + fat_fold_diag(ss.skip(k + 1), is32),
        slice_out(ss[k]) == "\nFat Arch: "@ + ss[k].arch@ + "\n"@,
{
    let mid = seq![ss[k]];
    let ef = Seq::<FatSliceModel>::empty();
    assert(ss =~= ss.take(k) + mid + ss.skip(k + 1));
    lemma_fat_fold_concat(ss.take(k) + mid, ss.skip(k + 1), is32);
    lemma_fat_fold_concat(ss.take(k), mid, is32);
    assert(mid.drop_last() =~= ef);
    assert(mid.last() == ss[k]);
    assert(fat_fold_out(ef) == Seq::<char>::empty());
    assert(fat_fold_diag(ef, is32) == Seq::<char>::empty());
    assert(fat_fold_out(mid) == fat_fold_out(ef) + slice_out(ss[k]));
    assert(fat_fold_out(mid) =~= slice_out(ss[k]));
    assert(fat_fold_diag(mid, is32) == fat_fold_diag(ef, is32) + slice_diag(ss[k], is32));
    assert(fat_fold_diag(mid, is32) =~= slice_diag(ss[k], is32));
    assert(slice_out(ss[k]) =~= "\nFat Arch: "@ + ss[k].arch@ + "\n"@);
}

} // verus!
