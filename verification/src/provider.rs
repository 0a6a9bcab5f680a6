//! The object-model provider boundary.
//!
//! Every function here wraps calls into the `object` crate's byte-level
//! decoders. Decoding is a pure function of the input bytes, so each
//! wrapper's result is named by an uninterpreted spec function of those
//! bytes: two calls on equal inputs return equal models.
use vstd::prelude::*;

use crate::model::{
    AltLinkModel, ArchiveModel, CacheImageRec, CacheModel, ComdatModel, DebugLinkModel,
    FatSliceModel, HeaderModel, ImportNameModel, MemberRec, PdbModel, SectionModel,
    ShortImportModel, SymbolMapModel, SymbolModel, Tri,
};
use object::read::archive::ArchiveFile;
use object::read::coff::{ImportFile, ImportName};
use object::read::macho::{DyldCache, FatArch, MachOFatFile32, MachOFatFile64};
use object::{Endianness, FileKind, Object, ObjectComdat, ObjectSection, ObjectSymbol};

verus! {

pub uninterp spec fn archive_model_of(data: Seq<u8>) -> Option<ArchiveModel>;

pub uninterp spec fn fat32_model_of(data: Seq<u8>) -> Option<Vec<FatSliceModel>>;

pub uninterp spec fn fat64_model_of(data: Seq<u8>) -> Option<Vec<FatSliceModel>>;

pub uninterp spec fn cache_model_of(data: Seq<u8>, extras: Seq<Vec<u8>>) -> Option<CacheModel>;

pub uninterp spec fn short_import_sniff(data: Seq<u8>) -> bool;

pub uninterp spec fn short_import_model_of(data: Seq<u8>) -> Result<ShortImportModel, String>;

pub uninterp spec fn header_model_of(data: Seq<u8>) -> Result<HeaderModel, String>;

pub uninterp spec fn mach_uuid_of(data: Seq<u8>) -> Tri<String>;

pub uninterp spec fn build_id_of(data: Seq<u8>) -> Tri<String>;

pub uninterp spec fn debug_link_of(data: Seq<u8>) -> Tri<DebugLinkModel>;

pub uninterp spec fn alt_link_of(data: Seq<u8>) -> Tri<AltLinkModel>;

pub uninterp spec fn pdb_of(data: Seq<u8>) -> Tri<PdbModel>;

pub uninterp spec fn segments_of(data: Seq<u8>) -> Vec<String>;

pub uninterp spec fn sections_of(data: Seq<u8>) -> Vec<SectionModel>;

pub uninterp spec fn comdats_of(data: Seq<u8>) -> Vec<ComdatModel>;

pub uninterp spec fn symbols_of(data: Seq<u8>) -> Vec<SymbolModel>;

pub uninterp spec fn dyn_symbols_of(data: Seq<u8>) -> Vec<SymbolModel>;

pub uninterp spec fn dyn_relocs_of(data: Seq<u8>) -> Option<Vec<String>>;

pub uninterp spec fn imports_of(data: Seq<u8>) -> Result<Vec<String>, String>;

pub uninterp spec fn exports_of(data: Seq<u8>) -> Result<Vec<String>, String>;

pub uninterp spec fn symbol_map_of(data: Seq<u8>) -> Vec<SymbolMapModel>;

pub uninterp spec fn lossy_text_of(data: Seq<u8>) -> Seq<char>;

/// Relies on String::from_utf8_lossy: the text depends on the bytes alone.
#[verifier::external_body]
pub fn lossy(data: &[u8]) -> (r: String)
    ensures
        r@ == lossy_text_of(data@),
{
    String::from_utf8_lossy(data).into_owned()
}

/// Relies on object's ArchiveFile::parse, kind and members, and the
/// members' name and data accessors: an archive trial parse of the bytes.
#[verifier::external_body]
pub fn detect_archive(data: &[u8]) -> (r: Option<ArchiveModel>)
    ensures
        r == archive_model_of(data@),
{
    let a = match ArchiveFile::parse(data) { Ok(a) => a, Err(_) => return None };
    let kind = format!("{:?}", a.kind());
    let members = a.members().map(|m| match m {
        Ok(m) => MemberRec::Entry {
            name: m.name().to_vec(),
            data: m.data(data).map(|d| d.to_vec()).map_err(|e| e.to_string()),
        },
        Err(e) => MemberRec::Broken(e.to_string()),
    }).collect();
    Some(ArchiveModel { kind, members })
}

/// Relies on object's MachOFatFile32::parse and the slices' architecture
/// and data accessors: a 32-bit fat trial parse of the bytes.
#[verifier::external_body]
pub fn detect_fat32(data: &[u8]) -> (r: Option<Vec<FatSliceModel>>)
    ensures
        r == fat32_model_of(data@),
{
    let fat = match MachOFatFile32::parse(data) { Ok(f) => f, Err(_) => return None };
    Some(fat.arches().iter().map(|a| FatSliceModel {
        arch: format!("{:?}", a.architecture()),
        data: a.data(data).map(|d| d.to_vec()).map_err(|e| e.to_string()),
    }).collect())
}

/// Relies on object's MachOFatFile64::parse and the slices' architecture
/// and data accessors: a 64-bit fat trial parse of the bytes.
#[verifier::external_body]
pub fn detect_fat64(data: &[u8]) -> (r: Option<Vec<FatSliceModel>>)
    ensures
        r == fat64_model_of(data@),
{
    let fat = match MachOFatFile64::parse(data) { Ok(f) => f, Err(_) => return None };
    Some(fat.arches().iter().map(|a| FatSliceModel {
        arch: format!("{:?}", a.architecture()),
        data: a.data(data).map(|d| d.to_vec()).map_err(|e| e.to_string()),
    }).collect())
}

/// Relies on object's DyldCache::parse, endianness, architecture and
/// images, and the images' path accessor: a shared-cache trial parse.
#[verifier::external_body]
pub fn detect_cache(data: &[u8], extras: &Vec<Vec<u8>>) -> (r: Option<CacheModel>)
    ensures
        r == cache_model_of(data@, extras@),
{
    let refs: Vec<&[u8]> = extras.iter().map(|v| v.as_slice()).collect();
    let c = match DyldCache::<Endianness>::parse(data, &refs) { Ok(c) => c, Err(_) => return None };
    let endian = format!("{:?}", c.endianness());
    let arch = format!("{:?}", c.architecture());
    let images = c.images().map(|img| match img.path() {
        Ok(p) => CacheImageRec::Image { path: p.as_bytes().to_vec() },
        Err(e) => CacheImageRec::PathFailed(e.to_string()),
    }).collect();
    Some(CacheModel { endian, arch, images })
}

/// Relies on object's FileKind::parse: whether the bytes sniff as a COFF
/// short-import payload.
#[verifier::external_body]
pub fn sniff_short_import(data: &[u8]) -> (r: bool)
    ensures
        r == short_import_sniff(data@),
{
    FileKind::parse(data) == Ok(FileKind::CoffImport)
}

/// Relies on object's ImportFile::parse and its architecture,
/// sub_architecture, dll, symbol, import and import_type accessors.
#[verifier::external_body]
pub fn parse_short_import(data: &[u8]) -> (r: Result<ShortImportModel, String>)
    ensures
        r == short_import_model_of(data@),
{
    let f = match ImportFile::parse(data) { Ok(f) => f, Err(e) => return Err(e.to_string()) };
    Ok(ShortImportModel {
        arch: format!("{:?}", f.architecture()),
        sub_arch: f.sub_architecture().map(|s| format!("{:?}", s)),
        dll: format!("{:?}", String::from_utf8_lossy(f.dll())),
        symbol: format!("{:?}", String::from_utf8_lossy(f.symbol())),
        import: match f.import() {
            ImportName::Ordinal(n) => ImportNameModel::Ordinal(n),
            ImportName::Name(n) => ImportNameModel::Name(format!("{:?}", String::from_utf8_lossy(n))),
        },
        type_tag: format!("{:?}", f.import_type()),
    })
}

/// Relies on object's File::parse and its format, endianness, is_64, kind,
/// architecture, sub_architecture, flags, relative_address_base and entry.
#[verifier::external_body]
pub fn obj_header(data: &[u8]) -> (r: Result<HeaderModel, String>)
    ensures
        r == header_model_of(data@),
{
    let f = match object::File::parse(data) { Ok(f) => f, Err(e) => return Err(e.to_string()) };
    Ok(HeaderModel {
        format: format!("{:?}", f.format()),
        endian: format!("{:?}", f.endianness()),
        is_64: f.is_64(),
        kind: format!("{:?}", f.kind()),
        arch: format!("{:?}", f.architecture()),
        sub_arch: f.sub_architecture().map(|s| format!("{:?}", s)),
        flags: format!("{:x?}", f.flags()),
        rel_base: f.relative_address_base(),
        entry: f.entry(),
    })
}

/// Relies on object's File::parse and mach_uuid.
#[verifier::external_body]
pub fn obj_mach_uuid(data: &[u8]) -> (r: Tri<String>)
    ensures
        r == mach_uuid_of(data@),
{
    let f = match object::File::parse(data) { Ok(f) => f, Err(_) => return Tri::Absent };
    match f.mach_uuid() {
        Ok(Some(u)) => Tri::Present(format!("{:x?}", u)),
        Ok(None) => Tri::Absent,
        Err(e) => Tri::Failed(e.to_string()),
    }
}

/// Relies on object's File::parse and build_id.
#[verifier::external_body]
pub fn obj_build_id(data: &[u8]) -> (r: Tri<String>)
    ensures
        r == build_id_of(data@),
{
    let f = match object::File::parse(data) { Ok(f) => f, Err(_) => return Tri::Absent };
    match f.build_id() {
        Ok(Some(b)) => Tri::Present(format!("{:x?}", b)),
        Ok(None) => Tri::Absent,
        Err(e) => Tri::Failed(e.to_string()),
    }
}

/// Relies on object's File::parse and gnu_debuglink.
#[verifier::external_body]
pub fn obj_debug_link(data: &[u8]) -> (r: Tri<DebugLinkModel>)
    ensures
        r == debug_link_of(data@),
{
    let f = match object::File::parse(data) { Ok(f) => f, Err(_) => return Tri::Absent };
    match f.gnu_debuglink() {
        Ok(Some((n, crc))) => Tri::Present(DebugLinkModel {
            name: String::from_utf8_lossy(n).into_owned(),
            crc,
        }),
        Ok(None) => Tri::Absent,
        Err(e) => Tri::Failed(e.to_string()),
    }
}

/// Relies on object's File::parse and gnu_debugaltlink.
#[verifier::external_body]
pub fn obj_alt_link(data: &[u8]) -> (r: Tri<AltLinkModel>)
    ensures
        r == alt_link_of(data@),
{
    let f = match object::File::parse(data) { Ok(f) => f, Err(_) => return Tri::Absent };
    match f.gnu_debugaltlink() {
        Ok(Some((n, b))) => Tri::Present(AltLinkModel {
            name: String::from_utf8_lossy(n).into_owned(),
            build_id: format!("{:x?}", b),
        }),
        Ok(None) => Tri::Absent,
        Err(e) => Tri::Failed(e.to_string()),
    }
}

/// Relies on object's File::parse and pdb_info, and the record's path,
/// guid and age accessors.
#[verifier::external_body]
pub fn obj_pdb(data: &[u8]) -> (r: Tri<PdbModel>)
    ensures
        r == pdb_of(data@),
{
    let f = match object::File::parse(data) { Ok(f) => f, Err(_) => return Tri::Absent };
    match f.pdb_info() {
        Ok(Some(p)) => Tri::Present(PdbModel {
            path: String::from_utf8_lossy(p.path()).into_owned(),
            guid: format!("{:x?}", p.guid()),
            age: p.age(),
        }),
        Ok(None) => Tri::Absent,
        Err(e) => Tri::Failed(e.to_string()),
    }
}

/// Relies on object's File::parse and segments.
#[verifier::external_body]
pub fn obj_segments(data: &[u8]) -> (r: Vec<String>)
    ensures
        r == segments_of(data@),
{
    let f = match object::File::parse(data) { Ok(f) => f, Err(_) => return Vec::new() };
    f.segments().map(|s| format!("{:x?}", s)).collect()
}

/// Relies on object's File::parse and sections, and the sections' index,
/// name and relocations accessors.
#[verifier::external_body]
pub fn obj_sections(data: &[u8]) -> (r: Vec<SectionModel>)
    ensures
        r == sections_of(data@),
{
    let f = match object::File::parse(data) { Ok(f) => f, Err(_) => return Vec::new() };
    f.sections().map(|s| SectionModel {
        index: s.index().0,
        content: format!("{:x?}", s),
        name: s.name().ok().map(|n| n.to_string()),
        relocs: s.relocations().map(|r| format!("{:x?}", r)).collect(),
    }).collect()
}

/// Relies on object's File::parse and comdats, and the groups' sections
/// accessor.
#[verifier::external_body]
pub fn obj_comdats(data: &[u8]) -> (r: Vec<ComdatModel>)
    ensures
        r == comdats_of(data@),
{
    let f = match object::File::parse(data) { Ok(f) => f, Err(_) => return Vec::new() };
    f.comdats().map(|c| ComdatModel {
        content: format!("{:?}", c),
        sections: c.sections().map(|x| x.0).collect(),
    }).collect()
}

/// Relies on object's File::parse and symbols, and the symbols' index.
#[verifier::external_body]
pub fn obj_symbols(data: &[u8]) -> (r: Vec<SymbolModel>)
    ensures
        r == symbols_of(data@),
{
    let f = match object::File::parse(data) { Ok(f) => f, Err(_) => return Vec::new() };
    f.symbols().map(|s| SymbolModel { index: s.index().0, content: format!("{:x?}", s) }).collect()
}

/// Relies on object's File::parse and dynamic_symbols, and the symbols'
/// index.
#[verifier::external_body]
pub fn obj_dyn_symbols(data: &[u8]) -> (r: Vec<SymbolModel>)
    ensures
        r == dyn_symbols_of(data@),
{
    let f = match object::File::parse(data) { Ok(f) => f, Err(_) => return Vec::new() };
    f.dynamic_symbols().map(|s| SymbolModel { index: s.index().0, content: format!("{:x?}", s) })
        .collect()
}

/// Relies on object's File::parse and dynamic_relocations.
#[verifier::external_body]
pub fn obj_dyn_relocs(data: &[u8]) -> (r: Option<Vec<String>>)
    ensures
        r == dyn_relocs_of(data@),
{
    let f = match object::File::parse(data) { Ok(f) => f, Err(_) => return None };
    f.dynamic_relocations().map(|it| it.map(|r| format!("{:x?}", r)).collect())
}

/// Relies on object's File::parse and imports.
#[verifier::external_body]
pub fn obj_imports(data: &[u8]) -> (r: Result<Vec<String>, String>)
    ensures
        r == imports_of(data@),
{
    let f = match object::File::parse(data) { Ok(f) => f, Err(_) => return Ok(Vec::new()) };
    f.imports().map(|it| it.map(|i| format!("{:x?}", i)).collect()).map_err(|e| e.to_string())
}

/// Relies on object's File::parse and exports.
#[verifier::external_body]
pub fn obj_exports(data: &[u8]) -> (r: Result<Vec<String>, String>)
    ensures
        r == exports_of(data@),
{
    let f = match object::File::parse(data) { Ok(f) => f, Err(_) => return Ok(Vec::new()) };
    f.exports().map(|it| it.map(|x| format!("{:x?}", x)).collect()).map_err(|e| e.to_string())
}

/// Relies on object's File::parse and symbol_map, and the entries'
/// address and name accessors.
#[verifier::external_body]
pub fn obj_symbol_map(data: &[u8]) -> (r: Vec<SymbolMapModel>)
    ensures
        r == symbol_map_of(data@),
{
    let f = match object::File::parse(data) { Ok(f) => f, Err(_) => return Vec::new() };
    f.symbol_map().symbols().iter().map(|s| SymbolMapModel {
        addr: s.address(),
        name: s.name().to_string(),
    }).collect()
}

pub uninterp spec fn img_front_of(data: Seq<u8>, extras: Seq<Vec<u8>>, i: int) -> Result<
    (String, String, bool, String, String),
    String,
>;

pub uninterp spec fn img_back_of(data: Seq<u8>, extras: Seq<Vec<u8>>, i: int) -> (
    Option<String>,
    String,
    u64,
    u64,
);

pub uninterp spec fn img_mach_uuid_of(data: Seq<u8>, extras: Seq<Vec<u8>>, i: int) -> Tri<String>;

pub uninterp spec fn img_build_id_of(data: Seq<u8>, extras: Seq<Vec<u8>>, i: int) -> Tri<String>;

pub uninterp spec fn img_debug_link_of(data: Seq<u8>, extras: Seq<Vec<u8>>, i: int) -> Tri<
    DebugLinkModel,
>;

pub uninterp spec fn img_alt_link_of(data: Seq<u8>, extras: Seq<Vec<u8>>, i: int) -> Tri<
    AltLinkModel,
>;

pub uninterp spec fn img_pdb_of(data: Seq<u8>, extras: Seq<Vec<u8>>, i: int) -> Tri<PdbModel>;

pub uninterp spec fn img_segments_of(data: Seq<u8>, extras: Seq<Vec<u8>>, i: int) -> Vec<String>;

pub uninterp spec fn img_sections_of(data: Seq<u8>, extras: Seq<Vec<u8>>, i: int) -> Vec<
    SectionModel,
>;

pub uninterp spec fn img_comdats_of(data: Seq<u8>, extras: Seq<Vec<u8>>, i: int) -> Vec<
    ComdatModel,
>;

pub uninterp spec fn img_symbols_of(data: Seq<u8>, extras: Seq<Vec<u8>>, i: int) -> Vec<
    SymbolModel,
>;

pub uninterp spec fn img_dyn_symbols_of(data: Seq<u8>, extras: Seq<Vec<u8>>, i: int) -> Vec<
    SymbolModel,
>;

pub uninterp spec fn img_dyn_relocs_of(data: Seq<u8>, extras: Seq<Vec<u8>>, i: int) -> Option<
    Vec<String>,
>;

pub uninterp spec fn img_imports_of(data: Seq<u8>, extras: Seq<Vec<u8>>, i: int) -> Result<
    Vec<String>,
    String,
>;

pub uninterp spec fn img_exports_of(data: Seq<u8>, extras: Seq<Vec<u8>>, i: int) -> Result<
    Vec<String>,
    String,
>;

pub uninterp spec fn img_symbol_map_of(data: Seq<u8>, extras: Seq<Vec<u8>>, i: int) -> Vec<
    SymbolMapModel,
>;

/// Relies on object's DyldCache::parse, images and parse_object, and the
/// image object's format, endianness, is_64, kind and architecture.
#[verifier::external_body]
pub fn img_front(data: &[u8], extras: &Vec<Vec<u8>>, i: usize) -> (r: Result<
    (String, String, bool, String, String),
    String,
>)
    ensures
        r == img_front_of(data@, extras@, i as int),
{
    let refs: Vec<&[u8]> = extras.iter().map(|v| v.as_slice()).collect();
    let f = DyldCache::<Endianness>::parse(data, &refs).map_err(|e| e.to_string()).and_then(
        |c| c.images().nth(i).ok_or(String::new()).and_then(
            |g| g.parse_object().map_err(|e| e.to_string()),
        ),
    )?;
    Ok((
        format!("{:?}", f.format()),
        format!("{:?}", f.endianness()),
        f.is_64(),
        format!("{:?}", f.kind()),
        format!("{:?}", f.architecture()),
    ))
}

/// Relies on object's DyldCache::parse, images and parse_object, and the
/// image object's sub_architecture, flags, relative_address_base and entry.
#[verifier::external_body]
pub fn img_back(data: &[u8], extras: &Vec<Vec<u8>>, i: usize) -> (r: (
    Option<String>,
    String,
    u64,
    u64,
))
    ensures
        r == img_back_of(data@, extras@, i as int),
{
    let refs: Vec<&[u8]> = extras.iter().map(|v| v.as_slice()).collect();
    DyldCache::<Endianness>::parse(data, &refs).ok().and_then(
        |c| c.images().nth(i).and_then(|g| g.parse_object().ok()),
    ).map(|f| (
            f.sub_architecture().map(|s| format!("{:?}", s)),
            format!("{:x?}", f.flags()),
            f.relative_address_base(),
            f.entry(),
        )).unwrap_or_default()
}

/// Relies on the same calls as `obj_mach_uuid`, on the cache's i-th image.
#[verifier::external_body]
pub fn img_mach_uuid(data: &[u8], extras: &Vec<Vec<u8>>, i: usize) -> (r: Tri<String>)
    ensures
        r == img_mach_uuid_of(data@, extras@, i as int),
{
    let refs: Vec<&[u8]> = extras.iter().map(|v| v.as_slice()).collect();
    let fo = DyldCache::<Endianness>::parse(data, &refs).ok().and_then(
        |c| c.images().nth(i).and_then(|g| g.parse_object().ok()),
    );
    let f = match fo { Some(f) => f, None => return Tri::Absent };
    match f.mach_uuid() {
        Ok(Some(u)) => Tri::Present(format!("{:x?}", u)),
        Ok(None) => Tri::Absent,
        Err(e) => Tri::Failed(e.to_string()),
    }
}

/// Relies on the same calls as `obj_build_id`, on the cache's i-th image.
#[verifier::external_body]
pub fn img_build_id(data: &[u8], extras: &Vec<Vec<u8>>, i: usize) -> (r: Tri<String>)
    ensures
        r == img_build_id_of(data@, extras@, i as int),
{
    let refs: Vec<&[u8]> = extras.iter().map(|v| v.as_slice()).collect();
    let fo = DyldCache::<Endianness>::parse(data, &refs).ok().and_then(
        |c| c.images().nth(i).and_then(|g| g.parse_object().ok()),
    );
    let f = match fo { Some(f) => f, None => return Tri::Absent };
    match f.build_id() {
        Ok(Some(b)) => Tri::Present(format!("{:x?}", b)),
        Ok(None) => Tri::Absent,
        Err(e) => Tri::Failed(e.to_string()),
    }
}

/// Relies on the same calls as `obj_debug_link`, on the cache's i-th image.
#[verifier::external_body]
pub fn img_debug_link(data: &[u8], extras: &Vec<Vec<u8>>, i: usize) -> (r: Tri<DebugLinkModel>)
    ensures
        r == img_debug_link_of(data@, extras@, i as int),
{
    let refs: Vec<&[u8]> = extras.iter().map(|v| v.as_slice()).collect();
    let fo = DyldCache::<Endianness>::parse(data, &refs).ok().and_then(
        |c| c.images().nth(i).and_then(|g| g.parse_object().ok()),
    );
    let f = match fo { Some(f) => f, None => return Tri::Absent };
    match f.gnu_debuglink() {
        Ok(Some((n, crc))) => Tri::Present(DebugLinkModel { name: String::from_utf8_lossy(n).into_owned(), crc }),
        Ok(None) => Tri::Absent,
        Err(e) => Tri::Failed(e.to_string()),
    }
}

/// Relies on the same calls as `obj_alt_link`, on the cache's i-th image.
#[verifier::external_body]
pub fn img_alt_link(data: &[u8], extras: &Vec<Vec<u8>>, i: usize) -> (r: Tri<AltLinkModel>)
    ensures
        r == img_alt_link_of(data@, extras@, i as int),
{
    let refs: Vec<&[u8]> = extras.iter().map(|v| v.as_slice()).collect();
    let fo = DyldCache::<Endianness>::parse(data, &refs).ok().and_then(
        |c| c.images().nth(i).and_then(|g| g.parse_object().ok()),
    );
    let f = match fo { Some(f) => f, None => return Tri::Absent };
    match f.gnu_debugaltlink() {
        Ok(Some((n, b))) => Tri::Present(AltLinkModel { name: String::from_utf8_lossy(n).into_owned(), build_id: format!("{:x?}", b) }),
        Ok(None) => Tri::Absent,
        Err(e) => Tri::Failed(e.to_string()),
    }
}

/// Relies on the same calls as `obj_pdb`, on the cache's i-th image.
#[verifier::external_body]
pub fn img_pdb(data: &[u8], extras: &Vec<Vec<u8>>, i: usize) -> (r: Tri<PdbModel>)
    ensures
        r == img_pdb_of(data@, extras@, i as int),
{
    let refs: Vec<&[u8]> = extras.iter().map(|v| v.as_slice()).collect();
    let fo = DyldCache::<Endianness>::parse(data, &refs).ok().and_then(
        |c| c.images().nth(i).and_then(|g| g.parse_object().ok()),
    );
    let f = match fo { Some(f) => f, None => return Tri::Absent };
    match f.pdb_info() {
        Ok(Some(p)) => Tri::Present(PdbModel { path: String::from_utf8_lossy(p.path()).into_owned(), guid: format!("{:x?}", p.guid()), age: p.age() }),
        Ok(None) => Tri::Absent,
        Err(e) => Tri::Failed(e.to_string()),
    }
}

/// Relies on the same calls as `obj_segments`, on the cache's i-th image.
#[verifier::external_body]
pub fn img_segments(data: &[u8], extras: &Vec<Vec<u8>>, i: usize) -> (r: Vec<String>)
    ensures
        r == img_segments_of(data@, extras@, i as int),
{
    let refs: Vec<&[u8]> = extras.iter().map(|v| v.as_slice()).collect();
    let fo = DyldCache::<Endianness>::parse(data, &refs).ok().and_then(
        |c| c.images().nth(i).and_then(|g| g.parse_object().ok()),
    );
    let f = match fo { Some(f) => f, None => return Vec::new() };
    f.segments().map(|s| format!("{:x?}", s)).collect()
}

/// Relies on the same calls as `obj_sections`, on the cache's i-th image.
#[verifier::external_body]
pub fn img_sections(data: &[u8], extras: &Vec<Vec<u8>>, i: usize) -> (r: Vec<SectionModel>)
    ensures
        r == img_sections_of(data@, extras@, i as int),
{
    let refs: Vec<&[u8]> = extras.iter().map(|v| v.as_slice()).collect();
    let fo = DyldCache::<Endianness>::parse(data, &refs).ok().and_then(
        |c| c.images().nth(i).and_then(|g| g.parse_object().ok()),
    );
    let f = match fo { Some(f) => f, None => return Vec::new() };
    f.sections().map(|s| SectionModel {
        index: s.index().0,
        content: format!("{:x?}", s),
        name: s.name().ok().map(|n| n.to_string()),
        relocs: s.relocations().map(|r| format!("{:x?}", r)).collect(),
    }).collect()
}

/// Relies on the same calls as `obj_comdats`, on the cache's i-th image.
#[verifier::external_body]
pub fn img_comdats(data: &[u8], extras: &Vec<Vec<u8>>, i: usize) -> (r: Vec<ComdatModel>)
    ensures
        r == img_comdats_of(data@, extras@, i as int),
{
    let refs: Vec<&[u8]> = extras.iter().map(|v| v.as_slice()).collect();
    let fo = DyldCache::<Endianness>::parse(data, &refs).ok().and_then(
        |c| c.images().nth(i).and_then(|g| g.parse_object().ok()),
    );
    let f = match fo { Some(f) => f, None => return Vec::new() };
    f.comdats().map(|c| ComdatModel { content: format!("{:?}", c), sections: c.sections().map(|x| x.0).collect() }).collect()
}

/// Relies on the same calls as `obj_symbols`, on the cache's i-th image.
#[verifier::external_body]
pub fn img_symbols(data: &[u8], extras: &Vec<Vec<u8>>, i: usize) -> (r: Vec<SymbolModel>)
    ensures
        r == img_symbols_of(data@, extras@, i as int),
{
    let refs: Vec<&[u8]> = extras.iter().map(|v| v.as_slice()).collect();
    let fo = DyldCache::<Endianness>::parse(data, &refs).ok().and_then(
        |c| c.images().nth(i).and_then(|g| g.parse_object().ok()),
    );
    let f = match fo { Some(f) => f, None => return Vec::new() };
    f.symbols().map(|s| SymbolModel { index: s.index().0, content: format!("{:x?}", s) }).collect()
}

/// Relies on the same calls as `obj_dyn_symbols`, on the cache's i-th image.
#[verifier::external_body]
pub fn img_dyn_symbols(data: &[u8], extras: &Vec<Vec<u8>>, i: usize) -> (r: Vec<SymbolModel>)
    ensures
        r == img_dyn_symbols_of(data@, extras@, i as int),
{
    let refs: Vec<&[u8]> = extras.iter().map(|v| v.as_slice()).collect();
    let fo = DyldCache::<Endianness>::parse(data, &refs).ok().and_then(
        |c| c.images().nth(i).and_then(|g| g.parse_object().ok()),
    );
    let f = match fo { Some(f) => f, None => return Vec::new() };
    f.dynamic_symbols().map(|s| SymbolModel { index: s.index().0, content: format!("{:x?}", s) }).collect()
}

/// Relies on the same calls as `obj_dyn_relocs`, on the cache's i-th image.
#[verifier::external_body]
pub fn img_dyn_relocs(data: &[u8], extras: &Vec<Vec<u8>>, i: usize) -> (r: Option<Vec<String>>)
    ensures
        r == img_dyn_relocs_of(data@, extras@, i as int),
{
    let refs: Vec<&[u8]> = extras.iter().map(|v| v.as_slice()).collect();
    let fo = DyldCache::<Endianness>::parse(data, &refs).ok().and_then(
        |c| c.images().nth(i).and_then(|g| g.parse_object().ok()),
    );
    let f = match fo { Some(f) => f, None => return None };
    f.dynamic_relocations().map(|it| it.map(|r| format!("{:x?}", r)).collect())
}

/// Relies on the same calls as `obj_imports`, on the cache's i-th image.
#[verifier::external_body]
pub fn img_imports(data: &[u8], extras: &Vec<Vec<u8>>, i: usize) -> (r: Result<Vec<String>, String>)
    ensures
        r == img_imports_of(data@, extras@, i as int),
{
    let refs: Vec<&[u8]> = extras.iter().map(|v| v.as_slice()).collect();
    let fo = DyldCache::<Endianness>::parse(data, &refs).ok().and_then(
        |c| c.images().nth(i).and_then(|g| g.parse_object().ok()),
    );
    let f = match fo { Some(f) => f, None => return Ok(Vec::new()) };
    f.imports().map(|it| it.map(|x| format!("{:x?}", x)).collect()).map_err(|e| e.to_string())
}

/// Relies on the same calls as `obj_exports`, on the cache's i-th image.
#[verifier::external_body]
pub fn img_exports(data: &[u8], extras: &Vec<Vec<u8>>, i: usize) -> (r: Result<Vec<String>, String>)
    ensures
        r == img_exports_of(data@, extras@, i as int),
{
    let refs: Vec<&[u8]> = extras.iter().map(|v| v.as_slice()).collect();
    let fo = DyldCache::<Endianness>::parse(data, &refs).ok().and_then(
        |c| c.images().nth(i).and_then(|g| g.parse_object().ok()),
    );
    let f = match fo { Some(f) => f, None => return Ok(Vec::new()) };
    f.exports().map(|it| it.map(|x| format!("{:x?}", x)).collect()).map_err(|e| e.to_string())
}

/// Relies on the same calls as `obj_symbol_map`, on the cache's i-th image.
#[verifier::external_body]
pub fn img_symbol_map(data: &[u8], extras: &Vec<Vec<u8>>, i: usize) -> (r: Vec<SymbolMapModel>)
    ensures
        r == img_symbol_map_of(data@, extras@, i as int),
{
    let refs: Vec<&[u8]> = extras.iter().map(|v| v.as_slice()).collect();
    let fo = DyldCache::<Endianness>::parse(data, &refs).ok().and_then(
        |c| c.images().nth(i).and_then(|g| g.parse_object().ok()),
    );
    let f = match fo { Some(f) => f, None => return Vec::new() };
    f.symbol_map().symbols().iter().map(|s| SymbolMapModel { addr: s.address(), name: s.name().to_string() }).collect()
}

} // verus!
