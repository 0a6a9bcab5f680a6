//! The report formatter: one object model (or short-import record) to a
//! deterministic text block, plus the diagnostic lines its failed
//! attributes produce.
use vstd::prelude::*;
use vstd::string::StringExecFns;

use crate::model::{
    AltLinkModel, ComdatModel, DebugLinkModel, HeaderModel, ImportNameModel, ObjectModel,
    PdbModel, SectionModel, ShortImportModel, SymbolMapModel, SymbolModel, Tri,
};
use crate::textnum::{
    dec_text, hex_text, hex_text_pad8, push_dec_u64, push_hex_u32_pad8, push_hex_u64,
};

verus! {

/// The header block of an object report.
pub open spec fn header_text(h: HeaderModel) -> Seq<char> {
    "Format: "@ + h.format@ + " "@ + h.endian@ + "-endian "@ + (if h.is_64 {
        "64"@
    } else {
        "32"@
    }) + "-bit\n"@ + "Kind: "@ + h.kind@ + "\n"@ + "Architecture: "@ + h.arch@ + "\n"@ + (
    match h.sub_arch {
        Some(s) => "Sub-Architecture: "@ + s@ + "\n"@,
        None => Seq::<char>::empty(),
    }) + "Flags: "@ + h.flags@ + "\n"@ + "Relative Address Base: "@ + hex_text(
        h.rel_base as nat,
    ) + "\n"@ + "Entry Address: "@ + hex_text(h.entry as nat) + "\n"@
}

pub open spec fn mach_uuid_out(t: Tri<String>) -> Seq<char> {
    match t {
        Tri::Present(s) => "Mach UUID: "@ + s@ + "\n"@,
        _ => Seq::<char>::empty(),
    }
}

pub open spec fn mach_uuid_diag(t: Tri<String>) -> Seq<char> {
    match t {
        Tri::Failed(e) => "Failed to parse Mach UUID: "@ + e@ + "\n"@,
        _ => Seq::<char>::empty(),
    }
}

pub open spec fn build_id_out(t: Tri<String>) -> Seq<char> {
    match t {
        Tri::Present(s) => "Build ID: "@ + s@ + "\n"@,
        _ => Seq::<char>::empty(),
    }
}

pub open spec fn build_id_diag(t: Tri<String>) -> Seq<char> {
    match t {
        Tri::Failed(e) => "Failed to parse build ID: "@ + e@ + "\n"@,
        _ => Seq::<char>::empty(),
    }
}

pub open spec fn debug_link_out(t: Tri<DebugLinkModel>) -> Seq<char> {
    match t {
        Tri::Present(d) => "GNU debug link: "@ + d.name@ + " CRC: "@ + hex_text_pad8(
            d.crc as nat,
        ) + "\n"@,
        _ => Seq::<char>::empty(),
    }
}

pub open spec fn debug_link_diag(t: Tri<DebugLinkModel>) -> Seq<char> {
    match t {
        Tri::Failed(e) => "Failed to parse GNU debug link: "@ + e@ + "\n"@,
        _ => Seq::<char>::empty(),
    }
}

pub open spec fn alt_link_out(t: Tri<AltLinkModel>) -> Seq<char> {
    match t {
        Tri::Present(d) => "GNU debug alt link: "@ + d.name@ + ", build ID: "@ + d.build_id@
            + "\n"@,
        _ => Seq::<char>::empty(),
    }
}

pub open spec fn alt_link_diag(t: Tri<AltLinkModel>) -> Seq<char> {
    match t {
        Tri::Failed(e) => "Failed to parse GNU debug alt link: "@ + e@ + "\n"@,
        _ => Seq::<char>::empty(),
    }
}

pub open spec fn pdb_out(t: Tri<PdbModel>) -> Seq<char> {
    match t {
        Tri::Present(d) => "PDB file: "@ + d.path@ + ", GUID: "@ + d.guid@ + ", Age: "@
            + dec_text(d.age as nat) + "\n"@,
        _ => Seq::<char>::empty(),
    }
}

pub open spec fn pdb_diag(t: Tri<PdbModel>) -> Seq<char> {
    match t {
        Tri::Failed(e) => "Failed to parse PE CodeView info: "@ + e@ + "\n"@,
        _ => Seq::<char>::empty(),
    }
}

/// Each string as one line.
pub open spec fn lines_text(v: Seq<String>) -> Seq<char>
    decreases v.len(),
{
    if v.len() == 0 {
        Seq::<char>::empty()
    } else {
        lines_text(v.drop_last()) + v.last()@ + "\n"@
    }
}

/// Each section as one `index: content` line.
pub open spec fn sections_text(v: Seq<SectionModel>) -> Seq<char>
    decreases v.len(),
{
    if v.len() == 0 {
        Seq::<char>::empty()
    } else {
        sections_text(v.drop_last()) + dec_text(v.last().index as nat) + ": "@ + v.last().content@
            + "\n"@
    }
}

/// Each symbol as one `index: content` line.
pub open spec fn symbols_text(v: Seq<SymbolModel>) -> Seq<char>
    decreases v.len(),
{
    if v.len() == 0 {
        Seq::<char>::empty()
    } else {
        symbols_text(v.drop_last()) + dec_text(v.last().index as nat) + ": "@ + v.last().content@
            + "\n"@
    }
}

/// The member-section indices of one COMDAT group, space-separated.
pub open spec fn comdat_secs_text(v: Seq<usize>) -> Seq<char>
    decreases v.len(),
{
    if v.len() == 0 {
        Seq::<char>::empty()
    } else {
        comdat_secs_text(v.drop_last()) + " "@ + dec_text(v.last() as nat)
    }
}

/// Each COMDAT group as one line with its member sections.
pub open spec fn comdats_text(v: Seq<ComdatModel>) -> Seq<char>
    decreases v.len(),
{
    if v.len() == 0 {
        Seq::<char>::empty()
    } else {
        comdats_text(v.drop_last()) + v.last().content@ + " Sections:"@ + comdat_secs_text(
            v.last().sections@,
        ) + "\n"@
    }
}

/// A section's display name, or the placeholder for an invalid one.
pub open spec fn sec_name_text(n: Option<String>) -> Seq<char> {
    match n {
        Some(s) => s@,
        None => "<invalid name>"@,
    }
}

/// One relocation block per section whose relocation list is non-empty.
pub open spec fn reloc_blocks_text(v: Seq<SectionModel>) -> Seq<char>
    decreases v.len(),
{
    if v.len() == 0 {
        Seq::<char>::empty()
    } else {
        reloc_blocks_text(v.drop_last()) + (if v.last().relocs@.len() > 0 {
            "\n"@ + sec_name_text(v.last().name) + " relocations\n"@ + lines_text(v.last().relocs@)
        } else {
            Seq::<char>::empty()
        })
    }
}

/// Each symbol-map entry as one `0xaddress "name"` line, in map order.
pub open spec fn symmap_text(v: Seq<SymbolMapModel>) -> Seq<char>
    decreases v.len(),
{
    if v.len() == 0 {
        Seq::<char>::empty()
    } else {
        symmap_text(v.drop_last()) + "0x"@ + hex_text(v.last().addr as nat) + " \""@
            + v.last().name@ + "\"\n"@
    }
}

/// The whole primary report block of one object model, in the fixed order:
/// header, identity records, segments, sections, COMDAT groups, symbols,
/// relocation blocks, dynamic symbols, dynamic relocations, imports,
/// exports, symbol map.
pub open spec fn idents_out(i: crate::model::IdentModel) -> Seq<char> {
    mach_uuid_out(i.mach_uuid) + build_id_out(i.build_id) + debug_link_out(i.debug_link)
        + alt_link_out(i.alt_link) + pdb_out(i.pdb)
}

pub open spec fn idents_diag(i: crate::model::IdentModel) -> Seq<char> {
    mach_uuid_diag(i.mach_uuid) + build_id_diag(i.build_id) + debug_link_diag(i.debug_link)
        + alt_link_diag(i.alt_link) + pdb_diag(i.pdb)
}

/// Segments through relocation blocks, in report order.
pub open spec fn middle_out(m: ObjectModel) -> Seq<char> {
    lines_text(m.segments@) + sections_text(m.sections@) + comdats_text(m.comdats@)
        + "\nSymbols\n"@ + symbols_text(m.symbols@) + reloc_blocks_text(m.sections@)
}

/// The dynamic-relocation block, present only when the provider exposes one.
pub open spec fn dynrel_out(o: Option<Vec<String>>) -> Seq<char> {
    match o {
        Some(v) => "\nDynamic relocations\n"@ + lines_text(v@),
        None => Seq::<char>::empty(),
    }
}

/// An import or export block: emitted only when decoded and non-empty.
pub open spec fn table_out(t: Result<Vec<String>, String>) -> Seq<char> {
    match t {
        Ok(v) => if v.len() > 0 {
            "\n"@ + lines_text(v@)
        } else {
            Seq::<char>::empty()
        },
        Err(_) => Seq::<char>::empty(),
    }
}

pub open spec fn imports_diag(t: Result<Vec<String>, String>) -> Seq<char> {
    match t {
        Err(e) => "Failed to parse imports: "@ + e@ + "\n"@,
        Ok(_) => Seq::<char>::empty(),
    }
}

pub open spec fn exports_diag(t: Result<Vec<String>, String>) -> Seq<char> {
    match t {
        Err(e) => "Failed to parse exports: "@ + e@ + "\n"@,
        Ok(_) => Seq::<char>::empty(),
    }
}

/// Dynamic symbols through the symbol map, in report order.
pub open spec fn tail_out(m: ObjectModel) -> Seq<char> {
    "\nDynamic symbols\n"@ + symbols_text(m.dyn_symbols@) + dynrel_out(m.dyn_relocs)
        + table_out(m.imports) + table_out(m.exports) + "\nSymbol map\n"@ + symmap_text(
        m.symbol_map@,
    )
}

pub open spec fn tail_diag(m: ObjectModel) -> Seq<char> {
    imports_diag(m.imports) + exports_diag(m.exports)
}

/// The whole primary report block of one object model, in the fixed order:
/// header, identity records, segments, sections, COMDAT groups, symbols,
/// relocation blocks, dynamic symbols, dynamic relocations, imports,
/// exports, symbol map.
pub open spec fn object_out(m: ObjectModel) -> Seq<char> {
    header_text(m.header) + idents_out(m.idents) + middle_out(m) + tail_out(m)
}

/// The diagnostic lines of one object model: one line per failed identity
/// record, import table, or export table, in report order.
pub open spec fn object_diag(m: ObjectModel) -> Seq<char> {
    idents_diag(m.idents) + tail_diag(m)
}

/// The fixed block of one short-import record.
pub open spec fn import_text(m: ShortImportModel) -> Seq<char> {
    "Format: Short Import File\n"@ + "Architecture: "@ + m.arch@ + "\n"@ + (match m.sub_arch {
        Some(s) => "Sub-Architecture: "@ + s@ + "\n"@,
        None => Seq::<char>::empty(),
    }) + "DLL: "@ + m.dll@ + "\n"@ + "Symbol: "@ + m.symbol@ + "\n"@ + "Import: "@ + (
    match m.import {
        ImportNameModel::Ordinal(n) => "Ordinal("@ + dec_text(n as nat) + ")"@,
        ImportNameModel::Name(s) => "Name("@ + s@ + ")"@,
    }) + "\n"@ + "Type: "@ + m.type_tag@ + "\n"@
}

fn push_lines(out: &mut String, v: &Vec<String>)
    ensures
        final(out)@ == old(out)@ + lines_text(v@),
{
    let mut i: usize = 0;
    while i < v.len()
        invariant
            i <= v.len(),
            out@ == old(out)@ + lines_text(v@.take(i as int)),
        decreases v.len() - i,
    {
        out.append(v[i].as_str());
        out.append("\n");
        proof {
            assert(v@.take(i + 1).drop_last() =~= v@.take(i as int));
            assert(v@.take(i + 1).last() == v@[i as int]);
        }
        i += 1;
    }
    proof {
        assert(v@.take(v@.len() as int) =~= v@);
    }
}

fn push_sections(out: &mut String, v: &Vec<SectionModel>)
    ensures
        final(out)@ == old(out)@ + sections_text(v@),
{
    let mut i: usize = 0;
    while i < v.len()
        invariant
            i <= v.len(),
            out@ == old(out)@ + sections_text(v@.take(i as int)),
        decreases v.len() - i,
    {
        push_dec_u64(out, v[i].index as u64);
        out.append(": ");
        out.append(v[i].content.as_str());
        out.append("\n");
        proof {
            assert(v@.take(i + 1).drop_last() =~= v@.take(i as int));
            assert(v@.take(i + 1).last() == v@[i as int]);
        }
        i += 1;
    }
    proof {
        assert(v@.take(v@.len() as int) =~= v@);
    }
}

fn push_symbols(out: &mut String, v: &Vec<SymbolModel>)
    ensures
        final(out)@ == old(out)@ + symbols_text(v@),
{
    let mut i: usize = 0;
    while i < v.len()
        invariant
            i <= v.len(),
            out@ == old(out)@ + symbols_text(v@.take(i as int)),
        decreases v.len() - i,
    {
        push_dec_u64(out, v[i].index as u64);
        out.append(": ");
        out.append(v[i].content.as_str());
        out.append("\n");
        proof {
            assert(v@.take(i + 1).drop_last() =~= v@.take(i as int));
            assert(v@.take(i + 1).last() == v@[i as int]);
        }
        i += 1;
    }
    proof {
        assert(v@.take(v@.len() as int) =~= v@);
    }
}

fn push_comdats(out: &mut String, v: &Vec<ComdatModel>)
    ensures
        final(out)@ == old(out)@ + comdats_text(v@),
{
    let mut i: usize = 0;
    while i < v.len()
        invariant
            i <= v.len(),
            out@ == old(out)@ + comdats_text(v@.take(i as int)),
        decreases v.len() - i,
    {
        out.append(v[i].content.as_str());
        out.append(" Sections:");
        let secs = &v[i].sections;
        let mut j: usize = 0;
        while j < secs.len()
            invariant
                j <= secs.len(),
                out@ == old(out)@ + comdats_text(v@.take(i as int)) + v@[i as int].content@
                    + " Sections:"@ + comdat_secs_text(secs@.take(j as int)),
                secs == &v@[i as int].sections,
            decreases secs.len() - j,
        {
            out.append(" ");
            push_dec_u64(out, secs[j] as u64);
            proof {
                assert(secs@.take(j + 1).drop_last() =~= secs@.take(j as int));
                assert(secs@.take(j + 1).last() == secs@[j as int]);
            }
            j += 1;
        }
        out.append("\n");
        proof {
            assert(secs@.take(secs@.len() as int) =~= secs@);
            assert(v@.take(i + 1).drop_last() =~= v@.take(i as int));
            assert(v@.take(i + 1).last() == v@[i as int]);
        }
        i += 1;
    }
    proof {
        assert(v@.take(v@.len() as int) =~= v@);
    }
}

fn push_reloc_blocks(out: &mut String, v: &Vec<SectionModel>)
    ensures
        final(out)@ == old(out)@ + reloc_blocks_text(v@),
{
    let mut i: usize = 0;
    while i < v.len()
        invariant
            i <= v.len(),
            out@ == old(out)@ + reloc_blocks_text(v@.take(i as int)),
        decreases v.len() - i,
    {
        if v[i].relocs.len() > 0 {
            out.append("\n");
            match &v[i].name {
                Some(s) => out.append(s.as_str()),
                None => out.append("<invalid name>"),
            }
            out.append(" relocations\n");
            push_lines(out, &v[i].relocs);
        }
        proof {
            assert(v@.take(i + 1).drop_last() =~= v@.take(i as int));
            assert(v@.take(i + 1).last() == v@[i as int]);
        }
        i += 1;
    }
    proof {
        assert(v@.take(v@.len() as int) =~= v@);
    }
}

fn push_symmap(out: &mut String, v: &Vec<SymbolMapModel>)
    ensures
        final(out)@ == old(out)@ + symmap_text(v@),
{
    let mut i: usize = 0;
    while i < v.len()
        invariant
            i <= v.len(),
            out@ == old(out)@ + symmap_text(v@.take(i as int)),
        decreases v.len() - i,
    {
        out.append("0x");
        push_hex_u64(out, v[i].addr);
        out.append(" \"");
        out.append(v[i].name.as_str());
        out.append("\"\n");
        proof {
            assert(v@.take(i + 1).drop_last() =~= v@.take(i as int));
            assert(v@.take(i + 1).last() == v@[i as int]);
        }
        i += 1;
    }
    proof {
        assert(v@.take(v@.len() as int) =~= v@);
    }
}

#[verifier::rlimit(100)]
fn push_header(out: &mut String, h: &HeaderModel)
    ensures
        final(out)@ == old(out)@ + header_text(*h),
{
    out.append("Format: ");
    out.append(h.format.as_str());
    out.append(" ");
    out.append(h.endian.as_str());
    out.append("-endian ");
    if h.is_64 {
        out.append("64");
    } else {
        out.append("32");
    }
    out.append("-bit\n");
    out.append("Kind: ");
    out.append(h.kind.as_str());
    out.append("\n");
    out.append("Architecture: ");
    out.append(h.arch.as_str());
    out.append("\n");
    match &h.sub_arch {
        Some(s) => {
            out.append("Sub-Architecture: ");
            out.append(s.as_str());
            out.append("\n");
        },
        None => {},
    }
    out.append("Flags: ");
    out.append(h.flags.as_str());
    out.append("\n");
    out.append("Relative Address Base: ");
    push_hex_u64(out, h.rel_base);
    out.append("\n");
    out.append("Entry Address: ");
    push_hex_u64(out, h.entry);
    out.append("\n");
}

fn push_mach_uuid(t: &Tri<String>, out: &mut String, diag: &mut String)
    ensures
        final(out)@ == old(out)@ + mach_uuid_out(*t),
        final(diag)@ == old(diag)@ + mach_uuid_diag(*t),
{
    match t {
        Tri::Present(s) => {
            out.append("Mach UUID: ");
            out.append(s.as_str());
            out.append("\n");
        },
        Tri::Absent => {},
        Tri::Failed(e) => {
            diag.append("Failed to parse Mach UUID: ");
            diag.append(e.as_str());
            diag.append("\n");
        },
    }
}

fn push_build_id(t: &Tri<String>, out: &mut String, diag: &mut String)
    ensures
        final(out)@ == old(out)@ + build_id_out(*t),
        final(diag)@ == old(diag)@ + build_id_diag(*t),
{
    match t {
        Tri::Present(s) => {
            out.append("Build ID: ");
            out.append(s.as_str());
            out.append("\n");
        },
        Tri::Absent => {},
        Tri::Failed(e) => {
            diag.append("Failed to parse build ID: ");
            diag.append(e.as_str());
            diag.append("\n");
        },
    }
}

fn push_debug_link(t: &Tri<DebugLinkModel>, out: &mut String, diag: &mut String)
    ensures
        final(out)@ == old(out)@ + debug_link_out(*t),
        final(diag)@ == old(diag)@ + debug_link_diag(*t),
{
    match t {
        Tri::Present(d) => {
            out.append("GNU debug link: ");
            out.append(d.name.as_str());
            out.append(" CRC: ");
            push_hex_u32_pad8(out, d.crc);
            out.append("\n");
        },
        Tri::Absent => {},
        Tri::Failed(e) => {
            diag.append("Failed to parse GNU debug link: ");
            diag.append(e.as_str());
            diag.append("\n");
        },
    }
}

fn push_alt_link(t: &Tri<AltLinkModel>, out: &mut String, diag: &mut String)
    ensures
        final(out)@ == old(out)@ + alt_link_out(*t),
        final(diag)@ == old(diag)@ + alt_link_diag(*t),
{
    match t {
        Tri::Present(d) => {
            out.append("GNU debug alt link: ");
            out.append(d.name.as_str());
            out.append(", build ID: ");
            out.append(d.build_id.as_str());
            out.append("\n");
        },
        Tri::Absent => {},
        Tri::Failed(e) => {
            diag.append("Failed to parse GNU debug alt link: ");
            diag.append(e.as_str());
            diag.append("\n");
        },
    }
}

fn push_pdb(t: &Tri<PdbModel>, out: &mut String, diag: &mut String)
    ensures
        final(out)@ == old(out)@ + pdb_out(*t),
        final(diag)@ == old(diag)@ + pdb_diag(*t),
{
    match t {
        Tri::Present(d) => {
            out.append("PDB file: ");
            out.append(d.path.as_str());
            out.append(", GUID: ");
            out.append(d.guid.as_str());
            out.append(", Age: ");
            push_dec_u64(out, d.age as u64);
            out.append("\n");
        },
        Tri::Absent => {},
        Tri::Failed(e) => {
            diag.append("Failed to parse PE CodeView info: ");
            diag.append(e.as_str());
            diag.append("\n");
        },
    }
}

fn push_idents(ids: &crate::model::IdentModel, out: &mut String, diag: &mut String)
    ensures
        final(out)@ == old(out)@ + idents_out(*ids),
        final(diag)@ == old(diag)@ + idents_diag(*ids),
{
    push_mach_uuid(&ids.mach_uuid, out, diag);
    push_build_id(&ids.build_id, out, diag);
    push_debug_link(&ids.debug_link, out, diag);
    push_alt_link(&ids.alt_link, out, diag);
    push_pdb(&ids.pdb, out, diag);
}

fn push_middle(m: &ObjectModel, out: &mut String)
    ensures
        final(out)@ == old(out)@ + middle_out(*m),
{
    push_lines(out, &m.segments);
    push_sections(out, &m.sections);
    push_comdats(out, &m.comdats);
    out.append("\nSymbols\n");
    push_symbols(out, &m.symbols);
    push_reloc_blocks(out, &m.sections);
}

fn push_dynrel(o: &Option<Vec<String>>, out: &mut String)
    ensures
        final(out)@ == old(out)@ + dynrel_out(*o),
{
    match o {
        Some(v) => {
            out.append("\nDynamic relocations\n");
            push_lines(out, v);
        },
        None => {},
    }
}

fn push_imports(t: &Result<Vec<String>, String>, out: &mut String, diag: &mut String)
    ensures
        final(out)@ == old(out)@ + table_out(*t),
        final(diag)@ == old(diag)@ + imports_diag(*t),
{
    match t {
        Ok(v) => {
            if v.len() > 0 {
                out.append("\n");
                push_lines(out, v);
            }
        },
        Err(e) => {
            diag.append("Failed to parse imports: ");
            diag.append(e.as_str());
            diag.append("\n");
        },
    }
}

fn push_exports(t: &Result<Vec<String>, String>, out: &mut String, diag: &mut String)
    ensures
        final(out)@ == old(out)@ + table_out(*t),
        final(diag)@ == old(diag)@ + exports_diag(*t),
{
    match t {
        Ok(v) => {
            if v.len() > 0 {
                out.append("\n");
                push_lines(out, v);
            }
        },
        Err(e) => {
            diag.append("Failed to parse exports: ");
            diag.append(e.as_str());
            diag.append("\n");
        },
    }
}

fn push_tail(m: &ObjectModel, out: &mut String, diag: &mut String)
    ensures
        final(out)@ == old(out)@ + tail_out(*m),
        final(diag)@ == old(diag)@ + tail_diag(*m),
{
    out.append("\nDynamic symbols\n");
    push_symbols(out, &m.dyn_symbols);
    push_dynrel(&m.dyn_relocs, out);
    push_imports(&m.imports, out, diag);
    push_exports(&m.exports, out, diag);
    out.append("\nSymbol map\n");
    push_symmap(out, &m.symbol_map);
}

/// Renders one object model: its report block onto `out`, its diagnostic
/// lines onto `diag`.
pub fn dump_model(m: &ObjectModel, out: &mut String, diag: &mut String)
    ensures
        final(out)@ == old(out)@ + object_out(*m),
        final(diag)@ == old(diag)@ + object_diag(*m),
{
    push_header(out, &m.header);
    push_idents(&m.idents, out, diag);
    push_middle(m, out);
    push_tail(m, out, diag);
}

/// Renders one short-import record's fixed block onto `out`.
#[verifier::rlimit(100)]
pub fn dump_import_model(m: &ShortImportModel, out: &mut String)
    ensures
        final(out)@ == old(out)@ + import_text(*m),
{
    out.append("Format: Short Import File\n");
    out.append("Architecture: ");
    out.append(m.arch.as_str());
    out.append("\n");
    match &m.sub_arch {
        Some(s) => {
            out.append("Sub-Architecture: ");
            out.append(s.as_str());
            out.append("\n");
        },
        None => {},
    }
    out.append("DLL: ");
    out.append(m.dll.as_str());
    out.append("\n");
    out.append("Symbol: ");
    out.append(m.symbol.as_str());
    out.append("\n");
    out.append("Import: ");
    match &m.import {
        ImportNameModel::Ordinal(n) => {
            out.append("Ordinal(");
            push_dec_u64(out, *n as u64);
            out.append(")");
        },
        ImportNameModel::Name(s) => {
            out.append("Name(");
            out.append(s.as_str());
            out.append(")");
        },
    }
    out.append("\n");
    out.append("Type: ");
    out.append(m.type_tag.as_str());
    out.append("\n");
}

} // verus!
