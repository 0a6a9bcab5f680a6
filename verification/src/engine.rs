//! The format detector and recursive dump engine.
//!
//! Detection tries, in fixed priority order: archive, 32-bit fat, 64-bit
//! fat, shared-library cache; when all four trial parses fail, the whole
//! blob is dumped as one plain object. Every per-entry failure is written
//! to the diagnostic stream and the traversal continues.
use vstd::prelude::*;
use vstd::string::StringExecFns;

use crate::filter::{find_member, spec_mark, spec_match, MemberFilter};
use crate::model::{
    CacheImageRec, FatSliceModel, HeaderModel, IdentModel, MemberRec, ObjectModel,
};
use crate::provider::{
    alt_link_of, archive_model_of, build_id_of, cache_model_of, comdats_of, debug_link_of,
    detect_archive, detect_cache, detect_fat32, detect_fat64, dyn_relocs_of, dyn_symbols_of,
    exports_of, fat32_model_of, fat64_model_of, header_model_of, img_alt_link, img_alt_link_of,
    img_build_id, img_build_id_of, img_comdats, img_comdats_of, img_debug_link,
    img_debug_link_of, img_dyn_relocs, img_dyn_relocs_of, img_dyn_symbols, img_dyn_symbols_of,
    img_back, img_back_of, img_exports, img_exports_of, img_front, img_front_of, img_imports, img_imports_of,
    img_mach_uuid, img_mach_uuid_of, img_pdb, img_pdb_of, img_sections, img_sections_of,
    img_segments, img_segments_of, img_symbol_map, img_symbol_map_of, img_symbols,
    img_symbols_of, imports_of, lossy, lossy_text_of, mach_uuid_of, obj_alt_link, obj_build_id,
    obj_comdats, obj_debug_link, obj_dyn_relocs, obj_dyn_symbols, obj_exports, obj_header,
    obj_imports, obj_mach_uuid, obj_pdb, obj_sections, obj_segments, obj_symbol_map,
    obj_symbols, parse_short_import, pdb_of, sections_of, segments_of, short_import_model_of,
    short_import_sniff, sniff_short_import, symbol_map_of, symbols_of,
};
use crate::render::{dump_import_model, dump_model, import_text, object_diag, object_out};

verus! {

/// The object model decoded from one plain byte blob, or the parse error.
pub open spec fn object_model_of(data: Seq<u8>) -> Result<ObjectModel, String> {
    match header_model_of(data) {
        Err(e) => Err(e),
        Ok(h) => Ok(
            ObjectModel {
                header: h,
                idents: IdentModel {
                    mach_uuid: mach_uuid_of(data),
                    build_id: build_id_of(data),
                    debug_link: debug_link_of(data),
                    alt_link: alt_link_of(data),
                    pdb: pdb_of(data),
                },
                segments: segments_of(data),
                sections: sections_of(data),
                comdats: comdats_of(data),
                symbols: symbols_of(data),
                dyn_symbols: dyn_symbols_of(data),
                dyn_relocs: dyn_relocs_of(data),
                imports: imports_of(data),
                exports: exports_of(data),
                symbol_map: symbol_map_of(data),
            },
        ),
    }
}

/// Decodes one plain byte blob into its object model.
pub fn parse_object_model(data: &[u8]) -> (r: Result<ObjectModel, String>)
    ensures
        r == object_model_of(data@),
{
    match obj_header(data) {
        Err(e) => Err(e),
        Ok(h) => Ok(
            ObjectModel {
                header: h,
                idents: IdentModel {
                    mach_uuid: obj_mach_uuid(data),
                    build_id: obj_build_id(data),
                    debug_link: obj_debug_link(data),
                    alt_link: obj_alt_link(data),
                    pdb: obj_pdb(data),
                },
                segments: obj_segments(data),
                sections: obj_sections(data),
                comdats: obj_comdats(data),
                symbols: obj_symbols(data),
                dyn_symbols: obj_dyn_symbols(data),
                dyn_relocs: obj_dyn_relocs(data),
                imports: obj_imports(data),
                exports: obj_exports(data),
                symbol_map: obj_symbol_map(data),
            },
        ),
    }
}

/// The object model of a shared cache's i-th image, or the parse error.
pub open spec fn img_object_model_of(data: Seq<u8>, extras: Seq<Vec<u8>>, i: int) -> Result<
    ObjectModel,
    String,
> {
    match img_front_of(data, extras, i) {
        Err(e) => Err(e),
        Ok(fr) => Ok(
            ObjectModel {
                header: HeaderModel {
                    format: fr.0,
                    endian: fr.1,
                    is_64: fr.2,
                    kind: fr.3,
                    arch: fr.4,
                    sub_arch: img_back_of(data, extras, i).0,
                    flags: img_back_of(data, extras, i).1,
                    rel_base: img_back_of(data, extras, i).2,
                    entry: img_back_of(data, extras, i).3,
                },
                idents: IdentModel {
                    mach_uuid: img_mach_uuid_of(data, extras, i),
                    build_id: img_build_id_of(data, extras, i),
                    debug_link: img_debug_link_of(data, extras, i),
                    alt_link: img_alt_link_of(data, extras, i),
                    pdb: img_pdb_of(data, extras, i),
                },
                segments: img_segments_of(data, extras, i),
                sections: img_sections_of(data, extras, i),
                comdats: img_comdats_of(data, extras, i),
                symbols: img_symbols_of(data, extras, i),
                dyn_symbols: img_dyn_symbols_of(data, extras, i),
                dyn_relocs: img_dyn_relocs_of(data, extras, i),
                imports: img_imports_of(data, extras, i),
                exports: img_exports_of(data, extras, i),
                symbol_map: img_symbol_map_of(data, extras, i),
            },
        ),
    }
}

/// Decodes a shared cache's i-th image into its object model.
pub fn parse_img_object_model(data: &[u8], extras: &Vec<Vec<u8>>, i: usize) -> (r: Result<
    ObjectModel,
    String,
>)
    ensures
        r == img_object_model_of(data@, extras@, i as int),
{
    match img_front(data, extras, i) {
        Err(e) => Err(e),
        Ok(fr) => Ok({
            let bk = img_back(data, extras, i);
            ObjectModel {
                header: HeaderModel {
                    format: fr.0,
                    endian: fr.1,
                    is_64: fr.2,
                    kind: fr.3,
                    arch: fr.4,
                    sub_arch: bk.0,
                    flags: bk.1,
                    rel_base: bk.2,
                    entry: bk.3,
                },
                idents: IdentModel {
                    mach_uuid: img_mach_uuid(data, extras, i),
                    build_id: img_build_id(data, extras, i),
                    debug_link: img_debug_link(data, extras, i),
                    alt_link: img_alt_link(data, extras, i),
                    pdb: img_pdb(data, extras, i),
                },
                segments: img_segments(data, extras, i),
                sections: img_sections(data, extras, i),
                comdats: img_comdats(data, extras, i),
                symbols: img_symbols(data, extras, i),
                dyn_symbols: img_dyn_symbols(data, extras, i),
                dyn_relocs: img_dyn_relocs(data, extras, i),
                imports: img_imports(data, extras, i),
                exports: img_exports(data, extras, i),
                symbol_map: img_symbol_map(data, extras, i),
            }
        }),
    }
}

/// The primary report of dumping one blob as a plain object: its object
/// report when it parses, nothing when it does not.
pub open spec fn dump_plain_out(data: Seq<u8>) -> Seq<char> {
    match object_model_of(data) {
        Ok(m) => object_out(m),
        Err(_) => Seq::<char>::empty(),
    }
}

/// The diagnostics of dumping one blob as a plain object: the parse
/// failure line when it does not parse, its attribute diagnostics when it
/// does.
pub open spec fn dump_plain_diag(data: Seq<u8>) -> Seq<char> {
    match object_model_of(data) {
        Ok(m) => object_diag(m),
        Err(e) => "Failed to parse file: "@ + e@ + "\n"@,
    }
}

/// Dumps one blob as a plain object: best-effort, never fails.
pub fn dump_object(data: &[u8], out: &mut String, diag: &mut String)
    ensures
        final(out)@ == old(out)@ + dump_plain_out(data@),
        final(diag)@ == old(diag)@ + dump_plain_diag(data@),
{
    match parse_object_model(data) {
        Ok(m) => dump_model(&m, out, diag),
        Err(e) => {
            diag.append("Failed to parse file: ");
            diag.append(e.as_str());
            diag.append("\n");
        },
    }
}

pub open spec fn import_out(data: Seq<u8>) -> Seq<char> {
    match short_import_model_of(data) {
        Ok(m) => import_text(m),
        Err(_) => Seq::<char>::empty(),
    }
}

pub open spec fn import_diag(data: Seq<u8>) -> Seq<char> {
    match short_import_model_of(data) {
        Ok(_) => Seq::<char>::empty(),
        Err(e) => "Failed to parse short import: "@ + e@ + "\n"@,
    }
}

/// Dumps one blob as a COFF short-import member.
pub fn dump_import(data: &[u8], out: &mut String, diag: &mut String)
    ensures
        final(out)@ == old(out)@ + import_out(data@),
        final(diag)@ == old(diag)@ + import_diag(data@),
{
    match parse_short_import(data) {
        Ok(m) => dump_import_model(&m, out),
        Err(e) => {
            diag.append("Failed to parse short import: ");
            diag.append(e.as_str());
            diag.append("\n");
        },
    }
}

/// The report body of an accepted archive member: chosen by content
/// sniffing alone, never by the member's stored name.
pub open spec fn member_body_out(data: Seq<u8>) -> Seq<char> {
    if short_import_sniff(data) {
        import_out(data)
    } else {
        dump_plain_out(data)
    }
}

pub open spec fn member_body_diag(data: Seq<u8>) -> Seq<char> {
    if short_import_sniff(data) {
        import_diag(data)
    } else {
        dump_plain_diag(data)
    }
}

/// Dumps an accepted archive member's bytes, by content.
pub fn dump_member_body(data: &[u8], out: &mut String, diag: &mut String)
    ensures
        final(out)@ == old(out)@ + member_body_out(data@),
        final(diag)@ == old(diag)@ + member_body_diag(data@),
{
    if sniff_short_import(data) {
        dump_import(data, out, diag);
    } else {
        dump_object(data, out, diag);
    }
}

/// What one archive member adds to the primary report, given the filter
/// state it is gated by.
pub open spec fn member_out(m: MemberRec, f: Seq<(Seq<u8>, bool)>) -> Seq<char> {
    match m {
        MemberRec::Entry { name, data } => if spec_match(f, name@) {
            "\n"@ + lossy_text_of(name@) + ":\n"@ + (match data {
                Ok(d) => member_body_out(d@),
                Err(_) => Seq::<char>::empty(),
            })
        } else {
            Seq::<char>::empty()
        },
        MemberRec::Broken(_) => Seq::<char>::empty(),
    }
}

/// What one archive member adds to the diagnostics.
pub open spec fn member_diag(m: MemberRec, f: Seq<(Seq<u8>, bool)>) -> Seq<char> {
    match m {
        MemberRec::Entry { name, data } => if spec_match(f, name@) {
            match data {
                Ok(d) => member_body_diag(d@),
                Err(e) => "Failed to parse archive member data: "@ + e@ + "\n"@,
            }
        } else {
            Seq::<char>::empty()
        },
        MemberRec::Broken(e) => "Failed to parse archive member: "@ + e@ + "\n"@,
    }
}

/// The filter state after one archive member was offered.
pub open spec fn member_filter_after(m: MemberRec, f: Seq<(Seq<u8>, bool)>) -> Seq<
    (Seq<u8>, bool),
> {
    match m {
        MemberRec::Entry { name, data } => spec_mark(f, name@),
        MemberRec::Broken(_) => f,
    }
}

/// The traversal of an archive's members, left to right: accumulated
/// primary report, accumulated diagnostics, and final filter state.
pub open spec fn archive_fold(ms: Seq<MemberRec>, f: Seq<(Seq<u8>, bool)>) -> (
    Seq<char>,
    Seq<char>,
    Seq<(Seq<u8>, bool)>,
)
    decreases ms.len(),
{
    if ms.len() == 0 {
        (Seq::<char>::empty(), Seq::<char>::empty(), f)
    } else {
        let p = archive_fold(ms.drop_last(), f);
        (
            p.0 + member_out(ms.last(), p.2),
            p.1 + member_diag(ms.last(), p.2),
            member_filter_after(ms.last(), p.2),
        )
    }
}

/// Dumps an archive's members in on-disk order, gated by the filter.
pub fn dump_archive_members(
    members: &Vec<MemberRec>,
    filter: &mut MemberFilter,
    out: &mut String,
    diag: &mut String,
)
    ensures
        final(out)@ == old(out)@ + archive_fold(members@, old(filter)@).0,
        final(diag)@ == old(diag)@ + archive_fold(members@, old(filter)@).1,
        final(filter)@ == archive_fold(members@, old(filter)@).2,
{
    let mut i: usize = 0;
    while i < members.len()
        invariant
            i <= members.len(),
            out@ == old(out)@ + archive_fold(members@.take(i as int), old(filter)@).0,
            diag@ == old(diag)@ + archive_fold(members@.take(i as int), old(filter)@).1,
            filter@ == archive_fold(members@.take(i as int), old(filter)@).2,
        decreases members.len() - i,
    {
        match &members[i] {
            MemberRec::Entry { name, data } => {
                let matched = find_member(filter, name.as_slice());
                if matched {
                    out.append("\n");
                    let n = lossy(name.as_slice());
                    out.append(n.as_str());
                    out.append(":\n");
                    match data {
                        Ok(d) => dump_member_body(d.as_slice(), out, diag),
                        Err(e) => {
                            diag.append("Failed to parse archive member data: ");
                            diag.append(e.as_str());
                            diag.append("\n");
                        },
                    }
                }
            },
            MemberRec::Broken(e) => {
                diag.append("Failed to parse archive member: ");
                diag.append(e.as_str());
                diag.append("\n");
            },
        }
        proof {
            assert(members@.take(i + 1).drop_last() =~= members@.take(i as int));
            assert(members@.take(i + 1).last() == members@[i as int]);
        }
        i += 1;
    }
    proof {
        assert(members@.take(members@.len() as int) =~= members@);
    }
}

/// What one fat-binary slice adds to the primary report: its header line,
/// then its object report when its bytes could be extracted.
pub open spec fn slice_out(s: FatSliceModel) -> Seq<char> {
    "\nFat Arch: "@ + s.arch@ + "\n"@ + (match s.data {
        Ok(d) => dump_plain_out(d@),
        Err(_) => Seq::<char>::empty(),
    })
}

/// What one fat-binary slice adds to the diagnostics.
pub open spec fn slice_diag(s: FatSliceModel, is32: bool) -> Seq<char> {
    match s.data {
        Ok(d) => dump_plain_diag(d@),
        Err(e) => (if is32 {
            "Failed to parse Fat 32 data: "@
        } else {
            "Failed to parse Fat 64 data: "@
        }) + e@ + "\n"@,
    }
}

/// The primary report of all fat slices, in file order; fat binaries are
/// never filtered.
pub open spec fn fat_fold_out(ss: Seq<FatSliceModel>) -> Seq<char>
    decreases ss.len(),
{
    if ss.len() == 0 {
        Seq::<char>::empty()
    } else {
        fat_fold_out(ss.drop_last()) + slice_out(ss.last())
    }
}

/// The diagnostics of all fat slices, in file order.
pub open spec fn fat_fold_diag(ss: Seq<FatSliceModel>, is32: bool) -> Seq<char>
    decreases ss.len(),
{
    if ss.len() == 0 {
        Seq::<char>::empty()
    } else {
        fat_fold_diag(ss.drop_last(), is32) + slice_diag(ss.last(), is32)
    }
}

/// Dumps every fat slice, in file order; a failing slice is diagnosed and
/// its siblings are unaffected.
#[verifier::rlimit(100)]
pub fn dump_fat(slices: &Vec<FatSliceModel>, is32: bool, out: &mut String, diag: &mut String)
    ensures
        final(out)@ == old(out)@ + fat_fold_out(slices@),
        final(diag)@ == old(diag)@ + fat_fold_diag(slices@, is32),
{
    let mut i: usize = 0;
    while i < slices.len()
        invariant
            i <= slices.len(),
            out@ == old(out)@ + fat_fold_out(slices@.take(i as int)),
            diag@ == old(diag)@ + fat_fold_diag(slices@.take(i as int), is32),
        decreases slices.len() - i,
    {
        out.append("\nFat Arch: ");
        out.append(slices[i].arch.as_str());
        out.append("\n");
        match &slices[i].data {
            Ok(d) => dump_object(d.as_slice(), out, diag),
            Err(e) => {
                if is32 {
                    diag.append("Failed to parse Fat 32 data: ");
                } else {
                    diag.append("Failed to parse Fat 64 data: ");
                }
                diag.append(e.as_str());
                diag.append("\n");
            },
        }
        proof {
            assert(slices@.take(i + 1).drop_last() =~= slices@.take(i as int));
            assert(slices@.take(i + 1).last() == slices@[i as int]);
        }
        i += 1;
    }
    proof {
        assert(slices@.take(slices@.len() as int) =~= slices@);
    }
}

/// What a shared cache's image at index `i` adds to the primary report.
pub open spec fn image_out(
    data: Seq<u8>,
    extras: Seq<Vec<u8>>,
    img: CacheImageRec,
    i: int,
    f: Seq<(Seq<u8>, bool)>,
) -> Seq<char> {
    match img {
        CacheImageRec::PathFailed(_) => Seq::<char>::empty(),
        CacheImageRec::Image { path } => if spec_match(f, path@) {
            "\n"@ + lossy_text_of(path@) + ":\n"@ + (match img_object_model_of(data, extras, i) {
                Ok(m) => object_out(m),
                Err(_) => Seq::<char>::empty(),
            })
        } else {
            Seq::<char>::empty()
        },
    }
}

/// What a shared cache's image at index `i` adds to the diagnostics.
pub open spec fn image_diag(
    data: Seq<u8>,
    extras: Seq<Vec<u8>>,
    img: CacheImageRec,
    i: int,
    f: Seq<(Seq<u8>, bool)>,
) -> Seq<char> {
    match img {
        CacheImageRec::PathFailed(e) => "Failed to parse dyld image name: "@ + e@ + "\n"@,
        CacheImageRec::Image { path } => if spec_match(f, path@) {
            match img_object_model_of(data, extras, i) {
                Ok(m) => object_diag(m),
                Err(e) => "Failed to parse file: "@ + e@ + "\n"@,
            }
        } else {
            Seq::<char>::empty()
        },
    }
}

/// The filter state after one cache image was offered.
pub open spec fn image_filter_after(img: CacheImageRec, f: Seq<(Seq<u8>, bool)>) -> Seq<
    (Seq<u8>, bool),
> {
    match img {
        CacheImageRec::PathFailed(_) => f,
        CacheImageRec::Image { path } => spec_mark(f, path@),
    }
}

/// The traversal of a cache's first `n` images, in cache order.
pub open spec fn cache_fold(
    data: Seq<u8>,
    extras: Seq<Vec<u8>>,
    images: Seq<CacheImageRec>,
    n: int,
    f: Seq<(Seq<u8>, bool)>,
) -> (Seq<char>, Seq<char>, Seq<(Seq<u8>, bool)>)
    decreases n,
{
    if n <= 0 {
        (Seq::<char>::empty(), Seq::<char>::empty(), f)
    } else {
        let p = cache_fold(data, extras, images, n - 1, f);
        (
            p.0 + image_out(data, extras, images[n - 1], n - 1, p.2),
            p.1 + image_diag(data, extras, images[n - 1], n - 1, p.2),
            image_filter_after(images[n - 1], p.2),
        )
    }
}

/// Dumps a shared cache's images in cache order, gated by the filter on
/// each image's path.
/// Dumps one cache image entry, gated by the filter on its path.
#[verifier::rlimit(100)]
fn dump_image_entry(
    data: &[u8],
    extras: &Vec<Vec<u8>>,
    i: usize,
    img: &CacheImageRec,
    filter: &mut MemberFilter,
    out: &mut String,
    diag: &mut String,
)
    ensures
        final(out)@ == old(out)@ + image_out(data@, extras@, *img, i as int, old(filter)@),
        final(diag)@ == old(diag)@ + image_diag(data@, extras@, *img, i as int, old(filter)@),
        final(filter)@ == image_filter_after(*img, old(filter)@),
{
    match img {
        CacheImageRec::PathFailed(e) => {
            diag.append("Failed to parse dyld image name: ");
            diag.append(e.as_str());
            diag.append("\n");
        },
        CacheImageRec::Image { path } => {
            let matched = find_member(filter, path.as_slice());
            if matched {
                out.append("\n");
                let n = lossy(path.as_slice());
                out.append(n.as_str());
                out.append(":\n");
                match parse_img_object_model(data, extras, i) {
                    Ok(m) => dump_model(&m, out, diag),
                    Err(e) => {
                        diag.append("Failed to parse file: ");
                        diag.append(e.as_str());
                        diag.append("\n");
                    },
                }
            }
        },
    }
}

#[verifier::rlimit(100)]
pub fn dump_cache_images(
    data: &[u8],
    extras: &Vec<Vec<u8>>,
    images: &Vec<CacheImageRec>,
    filter: &mut MemberFilter,
    out: &mut String,
    diag: &mut String,
)
    ensures
        final(out)@ == old(out)@ + cache_fold(
            data@,
            extras@,
            images@,
            images@.len() as int,
            old(filter)@,
        ).0,
        final(diag)@ == old(diag)@ + cache_fold(
            data@,
            extras@,
            images@,
            images@.len() as int,
            old(filter)@,
        ).1,
        final(filter)@ == cache_fold(data@, extras@, images@, images@.len() as int, old(filter)@).2,
{
    let mut i: usize = 0;
    while i < images.len()
        invariant
            i <= images.len(),
            out@ == old(out)@ + cache_fold(data@, extras@, images@, i as int, old(filter)@).0,
            diag@ == old(diag)@ + cache_fold(data@, extras@, images@, i as int, old(filter)@).1,
            filter@ == cache_fold(data@, extras@, images@, i as int, old(filter)@).2,
        decreases images.len() - i,
    {
        dump_image_entry(data, extras, i, &images[i], filter, out, diag);
        i += 1;
    }
}

/// The filter over the requested names, none yet found.
pub open spec fn initial_filter(names: Seq<Vec<u8>>) -> Seq<(Seq<u8>, bool)> {
    names.map_values(|n: Vec<u8>| (n@, false))
}

/// One unresolved-member line for each requested name never matched.
/// The line deliberately carries no closing quote after the name.
pub open spec fn unresolved_text(f: Seq<(Seq<u8>, bool)>) -> Seq<char>
    decreases f.len(),
{
    if f.len() == 0 {
        Seq::<char>::empty()
    } else {
        unresolved_text(f.drop_last()) + (if !f.last().1 {
            "Failed to find member '"@ + lossy_text_of(f.last().0) + "\n"@
        } else {
            Seq::<char>::empty()
        })
    }
}

/// Reports every requested name that the traversal never matched.
pub fn push_unresolved(filter: &MemberFilter, diag: &mut String)
    ensures
        final(diag)@ == old(diag)@ + unresolved_text(filter@),
{
    let mut i: usize = 0;
    while i < filter.entries.len()
        invariant
            i <= filter.entries.len(),
            diag@ == old(diag)@ + unresolved_text(filter@.take(i as int)),
        decreases filter.entries.len() - i,
    {
        if !filter.entries[i].found {
            diag.append("Failed to find member '");
            let n = lossy(filter.entries[i].name.as_slice());
            diag.append(n.as_str());
            diag.append("\n");
        }
        proof {
            assert(filter@.take(i + 1).drop_last() =~= filter@.take(i as int));
            assert(filter@.take(i + 1).last() == filter@[i as int]);
            assert(filter@[i as int] == filter.entries@[i as int]@);
        }
        i += 1;
    }
    proof {
        assert(filter@.take(filter@.len() as int) =~= filter@);
    }
}

/// The whole primary report of one invocation.
pub open spec fn print_out(data: Seq<u8>, extras: Seq<Vec<u8>>, names: Seq<Vec<u8>>) -> Seq<
    char,
> {
    let f0 = initial_filter(names);
    match archive_model_of(data) {
        Some(a) => "Format: Archive (kind: "@ + a.kind@ + ")\n"@ + archive_fold(
            a.members@,
            f0,
        ).0,
        None => match fat32_model_of(data) {
            Some(ss) => "Format: Mach-O Fat 32\n"@ + fat_fold_out(ss@),
            None => match fat64_model_of(data) {
                Some(ss) => "Format: Mach-O Fat 64\n"@ + fat_fold_out(ss@),
                None => match cache_model_of(data, extras) {
                    Some(c) => "Format: dyld cache "@ + c.endian@ + "-endian\n"@
                        + "Architecture: "@ + c.arch@ + "\n"@ + cache_fold(
                        data,
                        extras,
                        c.images@,
                        c.images@.len() as int,
                        f0,
                    ).0,
                    None => dump_plain_out(data),
                },
            },
        },
    }
}

/// The filter state after the whole traversal.
pub open spec fn final_filter(data: Seq<u8>, extras: Seq<Vec<u8>>, names: Seq<Vec<u8>>) -> Seq<
    (Seq<u8>, bool),
> {
    let f0 = initial_filter(names);
    match archive_model_of(data) {
        Some(a) => archive_fold(a.members@, f0).2,
        None => match fat32_model_of(data) {
            Some(_) => f0,
            None => match fat64_model_of(data) {
                Some(_) => f0,
                None => match cache_model_of(data, extras) {
                    Some(c) => cache_fold(data, extras, c.images@, c.images@.len() as int, f0).2,
                    None => f0,
                },
            },
        },
    }
}

/// The whole diagnostic stream of one invocation: the traversal's
/// diagnostics, then one line per requested name never matched.
pub open spec fn print_diag(data: Seq<u8>, extras: Seq<Vec<u8>>, names: Seq<Vec<u8>>) -> Seq<
    char,
> {
    let f0 = initial_filter(names);
    (match archive_model_of(data) {
        Some(a) => archive_fold(a.members@, f0).1,
        None => match fat32_model_of(data) {
            Some(ss) => fat_fold_diag(ss@, true),
            None => match fat64_model_of(data) {
                Some(ss) => fat_fold_diag(ss@, false),
                None => match cache_model_of(data, extras) {
                    Some(c) => cache_fold(data, extras, c.images@, c.images@.len() as int, f0).1,
                    None => dump_plain_diag(data),
                },
            },
        },
    }) + unresolved_text(final_filter(data, extras, names))
}

/// Dumps one input blob: detects its container shape by ordered trial,
/// traverses its entries gated by the requested names, and returns the
/// primary report and the diagnostic stream.
pub fn print(file: &[u8], extra_files: &Vec<Vec<u8>>, member_names: Vec<Vec<u8>>) -> (r: (
    String,
    String,
))
    ensures
        r.0@ == print_out(file@, extra_files@, member_names@),
        r.1@ == print_diag(file@, extra_files@, member_names@),
{
    let mut out = String::new();
    let mut diag = String::new();
    let mut filter = MemberFilter::new(member_names);
    match detect_archive(file) {
        Some(a) => {
            out.append("Format: Archive (kind: ");
            out.append(a.kind.as_str());
            out.append(")\n");
            dump_archive_members(&a.members, &mut filter, &mut out, &mut diag);
        },
        None => match detect_fat32(file) {
            Some(ss) => {
                out.append("Format: Mach-O Fat 32\n");
                dump_fat(&ss, true, &mut out, &mut diag);
            },
            None => match detect_fat64(file) {
                Some(ss) => {
                    out.append("Format: Mach-O Fat 64\n");
                    dump_fat(&ss, false, &mut out, &mut diag);
                },
                None => match detect_cache(file, extra_files) {
                    Some(c) => {
                        out.append("Format: dyld cache ");
                        out.append(c.endian.as_str());
                        out.append("-endian\n");
                        out.append("Architecture: ");
                        out.append(c.arch.as_str());
                        out.append("\n");
                        dump_cache_images(
                            file,
                            extra_files,
                            &c.images,
                            &mut filter,
                            &mut out,
                            &mut diag,
                        );
                    },
                    None => dump_object(file, &mut out, &mut diag),
                },
            },
        },
    }
    push_unresolved(&filter, &mut diag);
    (out, diag)
}

} // verus!
