//! Plain-value models of what the object-model provider decodes.
//!
//! The provider hands every structural fact over as one of these types, so
//! that the dump engine and the report formatter work on ordinary values.
use vstd::prelude::*;

verus! {

/// Outcome of reading one optional record: present with a payload, absent,
/// or failed to decode with an error message.
pub enum Tri<T> {
    Present(T),
    Absent,
    Failed(String),
}

/// The header facts of one parsed object file.
pub struct HeaderModel {
    pub format: String,
    pub endian: String,
    pub is_64: bool,
    pub kind: String,
    pub arch: String,
    pub sub_arch: Option<String>,
    pub flags: String,
    pub rel_base: u64,
    pub entry: u64,
}

/// A debug-link record: file name and checksum.
pub struct DebugLinkModel {
    pub name: String,
    pub crc: u32,
}

/// A debug-alt-link record: file name and build id.
pub struct AltLinkModel {
    pub name: String,
    pub build_id: String,
}

/// A debugger-symbol-file record: path, unique id and age.
pub struct PdbModel {
    pub path: String,
    pub guid: String,
    pub age: u32,
}

/// The identity records of one parsed object file, each independently
/// present, absent, or failed.
pub struct IdentModel {
    pub mach_uuid: Tri<String>,
    pub build_id: Tri<String>,
    pub debug_link: Tri<DebugLinkModel>,
    pub alt_link: Tri<AltLinkModel>,
    pub pdb: Tri<PdbModel>,
}

/// One section: stable index, rendered content, name if valid, and the
/// rendered relocation entries that target it.
pub struct SectionModel {
    pub index: usize,
    pub content: String,
    pub name: Option<String>,
    pub relocs: Vec<String>,
}

/// One COMDAT group: rendered content and the indices of its member sections.
pub struct ComdatModel {
    pub content: String,
    pub sections: Vec<usize>,
}

/// One symbol table entry: stable index and rendered content.
pub struct SymbolModel {
    pub index: usize,
    pub content: String,
}

/// One symbol-map entry: address and display name.
pub struct SymbolMapModel {
    pub addr: u64,
    pub name: String,
}

/// The full structural surface of one parsed object file.
pub struct ObjectModel {
    pub header: HeaderModel,
    pub idents: IdentModel,
    pub segments: Vec<String>,
    pub sections: Vec<SectionModel>,
    pub comdats: Vec<ComdatModel>,
    pub symbols: Vec<SymbolModel>,
    pub dyn_symbols: Vec<SymbolModel>,
    pub dyn_relocs: Option<Vec<String>>,
    pub imports: Result<Vec<String>, String>,
    pub exports: Result<Vec<String>, String>,
    pub symbol_map: Vec<SymbolMapModel>,
}

/// How a short-import member names what it imports.
pub enum ImportNameModel {
    Ordinal(u16),
    Name(String),
}

/// The structural surface of one COFF short-import member.
pub struct ShortImportModel {
    pub arch: String,
    pub sub_arch: Option<String>,
    pub dll: String,
    pub symbol: String,
    pub import: ImportNameModel,
    pub type_tag: String,
}

/// One archive member: its stored name and raw bytes, or an enumeration
/// failure.
pub enum MemberRec {
    Entry { name: Vec<u8>, data: Result<Vec<u8>, String> },
    Broken(String),
}

/// A whole archive: its kind tag and its members in on-disk order.
pub struct ArchiveModel {
    pub kind: String,
    pub members: Vec<MemberRec>,
}

/// One fat-binary architecture slice: its tag and its bytes, or an
/// extraction failure.
pub struct FatSliceModel {
    pub arch: String,
    pub data: Result<Vec<u8>, String>,
}

/// One shared-cache image: its textual path, or a path-resolution failure.
pub enum CacheImageRec {
    PathFailed(String),
    Image { path: Vec<u8> },
}

/// A shared-library cache: endianness and architecture tags and its images
/// in cache order.
pub struct CacheModel {
    pub endian: String,
    pub arch: String,
    pub images: Vec<CacheImageRec>,
}

} // verus!
