use bindump::model::{
    ComdatModel, DebugLinkModel, HeaderModel, IdentModel, ImportNameModel,
    ObjectModel, SectionModel, ShortImportModel, SymbolMapModel, SymbolModel, Tri,
};
use bindump::render::{dump_import_model, dump_model};

fn sample_model() -> ObjectModel {
    ObjectModel {
        header: HeaderModel {
            format: String::from("Elf"),
            endian: String::from("Little"),
            is_64: false,
            kind: String::from("Relocatable"),
            arch: String::from("X86_64"),
            sub_arch: None,
            flags: String::from("None"),
            rel_base: 16,
            entry: 255,
        },
        idents: IdentModel {
            mach_uuid: Tri::Absent,
            build_id: Tri::Present(String::from("[aa]")),
            debug_link: Tri::Present(DebugLinkModel {
                name: String::from("app.debug"),
                crc: 0x1234,
            }),
            alt_link: Tri::Absent,
            pdb: Tri::Failed(String::from("bad pdb")),
        },
        segments: vec![String::from("SEG0")],
        sections: vec![
            SectionModel {
                index: 1,
                content: String::from("SEC1"),
                name: Some(String::from(".text")),
                relocs: vec![String::from("R1"), String::from("R2")],
            },
            SectionModel {
                index: 2,
                content: String::from("SEC2"),
                name: None,
                relocs: vec![],
            },
        ],
        comdats: vec![ComdatModel {
            content: String::from("COM"),
            sections: vec![1, 2],
        }],
        symbols: vec![SymbolModel {
            index: 0,
            content: String::from("SYM0"),
        }],
        dyn_symbols: vec![],
        dyn_relocs: Some(vec![String::from("DR")]),
        imports: Err(String::from("imp err")),
        exports: Ok(vec![String::from("EXP")]),
        symbol_map: vec![SymbolMapModel {
            addr: 16,
            name: String::from("main"),
        }],
    }
}

#[test]
fn object_report_fixed_order() {
    let m = sample_model();
    let mut out = String::new();
    let mut diag = String::new();
    dump_model(&m, &mut out, &mut diag);
    let expected = "Format: Elf Little-endian 32-bit\n\
Kind: Relocatable\n\
Architecture: X86_64\n\
Flags: None\n\
Relative Address Base: 10\n\
Entry Address: ff\n\
Build ID: [aa]\n\
GNU debug link: app.debug CRC: 00001234\n\
SEG0\n\
1: SEC1\n\
2: SEC2\n\
COM Sections: 1 2\n\
\nSymbols\n\
0: SYM0\n\
\n.text relocations\n\
R1\n\
R2\n\
\nDynamic symbols\n\
\nDynamic relocations\n\
DR\n\
\nEXP\n\
\nSymbol map\n\
0x10 \"main\"\n";
    assert_eq!(out, expected);
    assert_eq!(
        diag,
        "Failed to parse PE CodeView info: bad pdb\nFailed to parse imports: imp err\n"
    );
}

#[test]
fn object_report_deterministic() {
    let m = sample_model();
    let mut out1 = String::new();
    let mut diag1 = String::new();
    dump_model(&m, &mut out1, &mut diag1);
    let m2 = sample_model();
    let mut out2 = String::new();
    let mut diag2 = String::new();
    dump_model(&m2, &mut out2, &mut diag2);
    assert_eq!(out1, out2);
    assert_eq!(diag1, diag2);
}

#[test]
fn empty_import_export_blocks_are_omitted() {
    let mut m = sample_model();
    m.imports = Ok(vec![]);
    m.exports = Ok(vec![]);
    let mut out = String::new();
    let mut diag = String::new();
    dump_model(&m, &mut out, &mut diag);
    assert!(!out.contains("EXP"));
    assert_eq!(diag, "Failed to parse PE CodeView info: bad pdb\n");
}

#[test]
fn short_import_block_ordinal() {
    let m = ShortImportModel {
        arch: String::from("X86_64"),
        sub_arch: None,
        dll: String::from("\"mylib.dll\""),
        symbol: String::from("\"func\""),
        import: ImportNameModel::Ordinal(7),
        type_tag: String::from("Code"),
    };
    let mut out = String::new();
    dump_import_model(&m, &mut out);
    assert_eq!(
        out,
        "Format: Short Import File\nArchitecture: X86_64\nDLL: \"mylib.dll\"\n\
Symbol: \"func\"\nImport: Ordinal(7)\nType: Code\n"
    );
}

#[test]
fn short_import_block_name_and_sub_arch() {
    let m = ShortImportModel {
        arch: String::from("Arm64"),
        sub_arch: Some(String::from("Arm64E")),
        dll: String::from("\"a.dll\""),
        symbol: String::from("\"s\""),
        import: ImportNameModel::Name(String::from("\"s\"")),
        type_tag: String::from("Data"),
    };
    let mut out = String::new();
    dump_import_model(&m, &mut out);
    assert_eq!(
        out,
        "Format: Short Import File\nArchitecture: Arm64\nSub-Architecture: Arm64E\n\
DLL: \"a.dll\"\nSymbol: \"s\"\nImport: Name(\"s\")\nType: Data\n"
    );
}

#[test]
fn each_failed_identity_record_gets_its_own_line() {
    let mut m = sample_model();
    m.idents.mach_uuid = Tri::Failed(String::from("u"));
    m.idents.build_id = Tri::Failed(String::from("b"));
    m.idents.debug_link = Tri::Failed(String::from("d"));
    m.idents.alt_link = Tri::Failed(String::from("l"));
    m.idents.pdb = Tri::Failed(String::from("p"));
    m.imports = Ok(vec![]);
    let mut out = String::new();
    let mut diag = String::new();
    dump_model(&m, &mut out, &mut diag);
    assert_eq!(
        diag,
        "Failed to parse Mach UUID: u\nFailed to parse build ID: b\n\
Failed to parse GNU debug link: d\nFailed to parse GNU debug alt link: l\n\
Failed to parse PE CodeView info: p\n"
    );
    assert!(!out.contains("Mach UUID"));
}
