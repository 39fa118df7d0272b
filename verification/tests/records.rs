use libelf::types;
use libelf::{
    gelf_getnote, gelf_getsym, gelf_getverdaux, gelf_getverdef, gelf_getversym, elf_errmsg,
    elf_errno, elf_flagdata, elf_version, ElfCmd, ElfType, Elf_Data, ErrorChannel, GElf_Nhdr,
    GElf_Note, GElf_Sym, GElf_Verdaux, GElf_Verdef, GElf_Versym,
};
use libelf::types::{gelf_st_bind, gelf_st_info, gelf_st_type, GELF_ST_BIND, GELF_ST_INFO, GELF_ST_TYPE};

fn data_of(bytes: &[u8]) -> Elf_Data {
    Elf_Data { d_buf: bytes.to_vec(), ..Elf_Data::default() }
}

#[test]
fn default_data_is_blank() {
    let d = Elf_Data::default();
    assert!(d.d_buf.is_empty());
    assert_eq!(d.d_size(), 0);
    assert_eq!(d.d_type, ElfType::ELF_T_BYTE);
    assert_eq!(d.d_version, 1);
    assert_eq!(d.d_off, 0);
    assert_eq!(d.d_align, 1);
}

#[test]
fn data_size_is_buffer_length() {
    assert_eq!(data_of(&[1, 2, 3, 4, 5]).d_size(), 5);
}

#[test]
fn constants_match_the_format() {
    assert_eq!(types::ELFCLASSNONE, object::elf::ELFCLASSNONE);
    assert_eq!(types::ELFCLASS32, object::elf::ELFCLASS32);
    assert_eq!(types::ELFCLASS64, object::elf::ELFCLASS64);
    assert_eq!(types::ELFDATANONE, object::elf::ELFDATANONE);
    assert_eq!(types::ELFDATA2LSB, object::elf::ELFDATA2LSB);
    assert_eq!(types::ELFDATA2MSB, object::elf::ELFDATA2MSB);
    assert_eq!(types::ET_REL, object::elf::ET_REL);
    assert_eq!(types::ET_EXEC, object::elf::ET_EXEC);
    assert_eq!(types::ET_DYN, object::elf::ET_DYN);
    assert_eq!(types::EV_NONE, object::elf::EV_NONE);
    assert_eq!(types::EV_CURRENT, object::elf::EV_CURRENT);
    assert_eq!(types::PF_X, object::elf::PF_X);
    assert_eq!(types::PF_W, object::elf::PF_W);
    assert_eq!(types::PF_R, object::elf::PF_R);
    assert_eq!(types::PT_NULL, object::elf::PT_NULL);
    assert_eq!(types::PT_LOAD, object::elf::PT_LOAD);
    assert_eq!(types::PT_DYNAMIC, object::elf::PT_DYNAMIC);
    assert_eq!(types::PT_INTERP, object::elf::PT_INTERP);
    assert_eq!(types::PT_NOTE, object::elf::PT_NOTE);
    assert_eq!(types::PT_PHDR, object::elf::PT_PHDR);
    assert_eq!(types::SHF_WRITE, object::elf::SHF_WRITE);
    assert_eq!(types::SHF_ALLOC, object::elf::SHF_ALLOC);
    assert_eq!(types::SHF_EXECINSTR, object::elf::SHF_EXECINSTR);
    assert_eq!(types::SHN_UNDEF, object::elf::SHN_UNDEF);
    assert_eq!(types::SHN_ABS, object::elf::SHN_ABS);
    assert_eq!(types::SHN_COMMON, object::elf::SHN_COMMON);
    assert_eq!(types::SHT_NULL, object::elf::SHT_NULL);
    assert_eq!(types::SHT_PROGBITS, object::elf::SHT_PROGBITS);
    assert_eq!(types::SHT_SYMTAB, object::elf::SHT_SYMTAB);
    assert_eq!(types::SHT_STRTAB, object::elf::SHT_STRTAB);
    assert_eq!(types::SHT_RELA, object::elf::SHT_RELA);
    assert_eq!(types::SHT_HASH, object::elf::SHT_HASH);
    assert_eq!(types::SHT_DYNAMIC, object::elf::SHT_DYNAMIC);
    assert_eq!(types::SHT_NOTE, object::elf::SHT_NOTE);
    assert_eq!(types::SHT_NOBITS, object::elf::SHT_NOBITS);
    assert_eq!(types::SHT_REL, object::elf::SHT_REL);
    assert_eq!(types::SHT_SHLIB, object::elf::SHT_SHLIB);
    assert_eq!(types::SHT_DYNSYM, object::elf::SHT_DYNSYM);
    assert_eq!(types::SHT_GNU_VERDEF, object::elf::SHT_GNU_VERDEF);
    assert_eq!(types::SHT_GNU_VERNEED, object::elf::SHT_GNU_VERNEED);
    assert_eq!(types::SHT_GNU_VERSYM, object::elf::SHT_GNU_VERSYM);
    assert_eq!(types::STB_LOCAL, object::elf::STB_LOCAL);
    assert_eq!(types::STB_GLOBAL, object::elf::STB_GLOBAL);
    assert_eq!(types::STB_WEAK, object::elf::STB_WEAK);
    assert_eq!(types::STT_NOTYPE, object::elf::STT_NOTYPE);
    assert_eq!(types::STT_OBJECT, object::elf::STT_OBJECT);
    assert_eq!(types::STT_FUNC, object::elf::STT_FUNC);
    assert_eq!(types::STT_SECTION, object::elf::STT_SECTION);
    assert_eq!(types::STT_FILE, object::elf::STT_FILE);
    assert_eq!(types::VER_DEF_CURRENT, object::elf::VER_DEF_CURRENT);
    assert_eq!(types::VER_NEED_CURRENT, object::elf::VER_NEED_CURRENT);
    assert_eq!(types::ELF_F_DIRTY, 1);
    assert_eq!(types::ELF_F_LAYOUT, 4);
    assert_eq!(types::ELF_F_PERMISSIVE, 8);
    assert_eq!(types::ELF_K_NONE, libelf::ElfKind::ELF_K_NONE);
    assert_eq!(types::ELF_K_AR, libelf::ElfKind::ELF_K_AR);
    assert_eq!(types::ELF_K_ELF, libelf::ElfKind::ELF_K_ELF);
    assert_eq!(types::ELF_C_NULL, ElfCmd::ELF_C_NULL);
    assert_eq!(types::ELF_C_READ, ElfCmd::ELF_C_READ);
    assert_eq!(types::ELF_C_RDWR, ElfCmd::ELF_C_RDWR);
    assert_eq!(types::ELF_C_WRITE, ElfCmd::ELF_C_WRITE);
    assert_eq!(types::ELF_C_READ_MMAP, ElfCmd::ELF_C_READ_MMAP);
    assert_eq!(types::ELF_T_BYTE, ElfType::ELF_T_BYTE);
    assert_eq!(types::ELF_T_SYM, ElfType::ELF_T_SYM);
}

#[test]
fn symbol_info_splits_and_joins() {
    assert_eq!(gelf_st_bind(0x12), 1);
    assert_eq!(gelf_st_type(0x12), 2);
    assert_eq!(gelf_st_info(1, 2), 0x12);
    assert_eq!(gelf_st_bind(0xff), 0xf);
    assert_eq!(gelf_st_type(0xff), 0xf);
    assert_eq!(gelf_st_info(0xf, 0xf), 0xff);
    assert_eq!(gelf_st_info(0x1f, 0x2f), 0xff);
    assert_eq!(gelf_st_info(2, 0x13), 0x23);
    assert_eq!(gelf_st_bind(0), 0);
    assert_eq!(gelf_st_type(0), 0);
    assert_eq!(GELF_ST_BIND(0xa5), 0xa);
    assert_eq!(GELF_ST_TYPE(0xa5), 5);
    assert_eq!(GELF_ST_INFO(0xa, 5), 0xa5);
}

#[test]
fn symbol_info_round_trips_for_every_byte() {
    for info in 0..=255u8 {
        assert_eq!(gelf_st_info(gelf_st_bind(info), gelf_st_type(info)), info);
    }
}

#[test]
fn version_request() {
    assert_eq!(elf_version(0), 1);
    assert_eq!(elf_version(1), 1);
    assert_eq!(elf_version(2), 0);
    assert_eq!(elf_version(u32::MAX), 0);
}

#[test]
fn flagdata_returns_flags() {
    assert_eq!(elf_flagdata(0, ElfCmd::ELF_C_SET, 5), 5);
    assert_eq!(elf_flagdata(9, ElfCmd::ELF_C_CLR, 0), 0);
}

fn two_symbols() -> Vec<u8> {
    let mut bytes = Vec::new();
    // symbol 0
    bytes.extend_from_slice(&0x0102_0304u32.to_le_bytes());
    bytes.push(0x12);
    bytes.push(0x03);
    bytes.extend_from_slice(&0xfff1u16.to_le_bytes());
    bytes.extend_from_slice(&0x1122_3344_5566_7788u64.to_le_bytes());
    bytes.extend_from_slice(&0x0000_0000_0000_0040u64.to_le_bytes());
    // symbol 1
    bytes.extend_from_slice(&0xffff_fffeu32.to_le_bytes());
    bytes.push(0x21);
    bytes.push(0x00);
    bytes.extend_from_slice(&0x0007u16.to_le_bytes());
    bytes.extend_from_slice(&0xffff_ffff_ffff_fff0u64.to_le_bytes());
    bytes.extend_from_slice(&0x8000_0000_0000_0001u64.to_le_bytes());
    bytes
}

#[test]
fn symbols_are_read_low_byte_first() {
    let mut errors = ErrorChannel::new();
    let data = data_of(&two_symbols());
    assert_eq!(
        gelf_getsym(&data, 0, &mut errors),
        Some(GElf_Sym {
            st_name: 0x0102_0304,
            st_info: 0x12,
            st_other: 0x03,
            st_shndx: 0xfff1,
            st_value: 0x1122_3344_5566_7788,
            st_size: 0x40,
        })
    );
    assert_eq!(
        gelf_getsym(&data, 1, &mut errors),
        Some(GElf_Sym {
            st_name: 0xffff_fffe,
            st_info: 0x21,
            st_other: 0,
            st_shndx: 7,
            st_value: 0xffff_ffff_ffff_fff0,
            st_size: 0x8000_0000_0000_0001,
        })
    );
    assert_eq!(elf_errno(&mut errors), 0);
}

#[test]
fn symbol_past_the_end_is_refused() {
    let mut errors = ErrorChannel::new();
    let data = data_of(&two_symbols());
    assert_eq!(gelf_getsym(&data, 2, &mut errors), None);
    assert_eq!(elf_errmsg(&errors, 0), "symbol index out of range");
    assert_eq!(gelf_getsym(&data, i32::MAX, &mut errors), None);
    assert_eq!(elf_errno(&mut errors), 2);
    let short = data_of(&two_symbols()[..47]);
    assert!(gelf_getsym(&short, 0, &mut errors).is_some());
    assert_eq!(gelf_getsym(&short, 1, &mut errors), None);
    assert_eq!(elf_errmsg(&errors, 0), "symbol index out of range");
}

#[test]
fn negative_symbol_index_is_refused() {
    let mut errors = ErrorChannel::new();
    let data = data_of(&two_symbols());
    assert_eq!(gelf_getsym(&data, -1, &mut errors), None);
    assert_eq!(elf_errmsg(&errors, 0), "invalid argument");
    assert_eq!(elf_errno(&mut errors), 1);
}

#[test]
fn version_symbols() {
    let mut errors = ErrorChannel::new();
    let data = data_of(&[0x01, 0x00, 0x34, 0x12, 0xff, 0xff, 0x09]);
    assert_eq!(gelf_getversym(&data, 0, &mut errors), Some(GElf_Versym(1)));
    assert_eq!(gelf_getversym(&data, 1, &mut errors), Some(GElf_Versym(0x1234)));
    assert_eq!(gelf_getversym(&data, 2, &mut errors), Some(GElf_Versym(0xffff)));
    assert_eq!(elf_errno(&mut errors), 0);
    assert_eq!(gelf_getversym(&data, 3, &mut errors), None);
    assert_eq!(elf_errmsg(&errors, 0), "symbol index out of range");
    assert_eq!(gelf_getversym(&data, i32::MAX, &mut errors), None);
    assert_eq!(elf_errno(&mut errors), 2);
    assert_eq!(gelf_getversym(&data, -1, &mut errors), None);
    assert_eq!(elf_errmsg(&errors, 0), "invalid argument");
    assert_eq!(elf_errno(&mut errors), 1);
}

fn verdef_bytes() -> Vec<u8> {
    let mut bytes = vec![0xaa, 0xbb, 0xcc];
    bytes.extend_from_slice(&1u16.to_le_bytes());
    bytes.extend_from_slice(&0x0002u16.to_le_bytes());
    bytes.extend_from_slice(&0x0305u16.to_le_bytes());
    bytes.extend_from_slice(&2u16.to_le_bytes());
    bytes.extend_from_slice(&0x0d69_6910u32.to_le_bytes());
    bytes.extend_from_slice(&20u32.to_le_bytes());
    bytes.extend_from_slice(&0x1cu32.to_le_bytes());
    bytes.extend_from_slice(&0x0000_0a0bu32.to_le_bytes());
    bytes.extend_from_slice(&0x8000_0008u32.to_le_bytes());
    bytes
}

#[test]
fn version_definitions() {
    let mut errors = ErrorChannel::new();
    let data = data_of(&verdef_bytes());
    assert_eq!(
        gelf_getverdef(&data, 3, &mut errors),
        Some(GElf_Verdef {
            vd_version: 1,
            vd_flags: 2,
            vd_ndx: 0x0305,
            vd_cnt: 2,
            vd_hash: 0x0d69_6910,
            vd_aux: 20,
            vd_next: 0x1c,
        })
    );
    assert!(gelf_getverdef(&data, 11, &mut errors).is_some());
    assert_eq!(elf_errno(&mut errors), 0);
    assert_eq!(gelf_getverdef(&data, 12, &mut errors), None);
    assert_eq!(elf_errmsg(&errors, 0), "offset out of bounds");
    assert_eq!(gelf_getverdef(&data, i32::MAX, &mut errors), None);
    assert_eq!(elf_errno(&mut errors), 2);
    assert_eq!(gelf_getverdef(&data, -1, &mut errors), None);
    assert_eq!(elf_errmsg(&errors, 0), "invalid argument");
    assert_eq!(elf_errno(&mut errors), 1);
}

#[test]
fn version_definition_auxiliaries() {
    let mut errors = ErrorChannel::new();
    let data = data_of(&verdef_bytes());
    assert_eq!(
        gelf_getverdaux(&data, 23, &mut errors),
        Some(GElf_Verdaux { vda_name: 0x0a0b, vda_next: 0x8000_0008 })
    );
    assert_eq!(
        gelf_getverdaux(&data_of(&[0; 8]), 0, &mut errors),
        Some(GElf_Verdaux { vda_name: 0, vda_next: 0 })
    );
    assert_eq!(elf_errno(&mut errors), 0);
    assert_eq!(gelf_getverdaux(&data, 24, &mut errors), None);
    assert_eq!(elf_errmsg(&errors, 0), "offset out of bounds");
    assert_eq!(gelf_getverdaux(&data_of(&[0; 7]), 0, &mut errors), None);
    assert_eq!(elf_errno(&mut errors), 2);
    assert_eq!(gelf_getverdaux(&data, -8, &mut errors), None);
    assert_eq!(elf_errmsg(&errors, 0), "invalid argument");
    assert_eq!(elf_errno(&mut errors), 1);
}

fn note(name: &[u8], desc: &[u8], kind: u32) -> Vec<u8> {
    let mut bytes = Vec::new();
    bytes.extend_from_slice(&(name.len() as u32).to_le_bytes());
    bytes.extend_from_slice(&(desc.len() as u32).to_le_bytes());
    bytes.extend_from_slice(&kind.to_le_bytes());
    bytes.extend_from_slice(name);
    while bytes.len() % 4 != 0 {
        bytes.push(0);
    }
    bytes.extend_from_slice(desc);
    while bytes.len() % 4 != 0 {
        bytes.push(0);
    }
    bytes
}

#[test]
fn two_notes_back_to_back() {
    let mut bytes = note(b"Core\0", &[1, 2, 3], 7);
    assert_eq!(bytes.len(), 24);
    bytes.extend_from_slice(&note(b"Next\0", &[9, 8, 7], 0x1234_5678));
    let data = data_of(&bytes);
    let first = gelf_getnote(&data, 0).unwrap();
    assert_eq!(first.nhdr, GElf_Nhdr { n_namesz: 5, n_descsz: 3, n_type: 7 });
    assert_eq!(first.name_offset, 12);
    assert_eq!(first.desc_offset, 20);
    assert_eq!(first.next_offset, 24);
    let second = gelf_getnote(&data, first.next_offset).unwrap();
    assert_eq!(
        second,
        GElf_Note {
            nhdr: GElf_Nhdr { n_namesz: 5, n_descsz: 3, n_type: 0x1234_5678 },
            name_offset: 24 + 12,
            desc_offset: 24 + 12 + 8,
            next_offset: 24 + 12 + 8 + 4,
        }
    );
    assert_eq!(second.next_offset, bytes.len());
    assert_eq!(gelf_getnote(&data, second.next_offset), None);
}

#[test]
fn note_sizes_that_need_no_padding() {
    let data = data_of(&note(b"GNU\0", &[0; 8], 3));
    assert_eq!(
        gelf_getnote(&data, 0),
        Some(GElf_Note {
            nhdr: GElf_Nhdr { n_namesz: 4, n_descsz: 8, n_type: 3 },
            name_offset: 12,
            desc_offset: 16,
            next_offset: 24,
        })
    );
    let empty = data_of(&note(b"", b"", 0));
    assert_eq!(
        gelf_getnote(&empty, 0),
        Some(GElf_Note {
            nhdr: GElf_Nhdr { n_namesz: 0, n_descsz: 0, n_type: 0 },
            name_offset: 12,
            desc_offset: 12,
            next_offset: 12,
        })
    );
}

#[test]
fn note_that_does_not_fit_is_no_note() {
    let whole = note(b"Core\0", &[1, 2, 3], 7);
    assert_eq!(gelf_getnote(&data_of(&whole[..11]), 0), None);
    assert_eq!(gelf_getnote(&data_of(&whole[..12]), 0), None);
    assert_eq!(gelf_getnote(&data_of(&whole[..19]), 0), None);
    assert_eq!(gelf_getnote(&data_of(&whole[..23]), 0), None);
    assert!(gelf_getnote(&data_of(&whole), 0).is_some());
    assert_eq!(gelf_getnote(&data_of(&whole), 24), None);
    assert_eq!(gelf_getnote(&data_of(&whole), 13), None);
    assert_eq!(gelf_getnote(&data_of(&whole), usize::MAX), None);
    assert_eq!(gelf_getnote(&data_of(&[]), 0), None);
    let mut huge = whole.clone();
    huge[0..4].copy_from_slice(&u32::MAX.to_le_bytes());
    huge[4..8].copy_from_slice(&u32::MAX.to_le_bytes());
    assert_eq!(gelf_getnote(&data_of(&huge), 0), None);
}

#[test]
fn records_agree_with_the_overlay_of_the_format() {
    let noise: Vec<u8> = (0..200u32).map(|i| (i * 37 + 11) as u8).collect();
    let data = data_of(&noise);
    let le = object::Endianness::Little;
    let mut errors = ErrorChannel::new();
    for ndx in 0..8 {
        let (raw, _) =
            object::pod::from_bytes::<object::elf::Sym64<object::Endianness>>(&noise[ndx * 24..])
                .unwrap();
        let sym = gelf_getsym(&data, ndx as i32, &mut errors).unwrap();
        assert_eq!(sym.st_name, raw.st_name.get(le));
        assert_eq!(sym.st_info, raw.st_info);
        assert_eq!(sym.st_other, raw.st_other);
        assert_eq!(sym.st_shndx, raw.st_shndx.get(le));
        assert_eq!(sym.st_value, raw.st_value.get(le));
        assert_eq!(sym.st_size, raw.st_size.get(le));
    }
    for offset in [0usize, 1, 7, 180] {
        let (raw, _) =
            object::pod::from_bytes::<object::elf::Verdef<object::Endianness>>(&noise[offset..])
                .unwrap();
        let v = gelf_getverdef(&data, offset as i32, &mut errors).unwrap();
        assert_eq!(v.vd_version, raw.vd_version.get(le));
        assert_eq!(v.vd_flags, raw.vd_flags.get(le));
        assert_eq!(v.vd_ndx, raw.vd_ndx.get(le));
        assert_eq!(v.vd_cnt, raw.vd_cnt.get(le));
        assert_eq!(v.vd_hash, raw.vd_hash.get(le));
        assert_eq!(v.vd_aux, raw.vd_aux.get(le));
        assert_eq!(v.vd_next, raw.vd_next.get(le));
        let (raw, _) =
            object::pod::from_bytes::<object::elf::Verdaux<object::Endianness>>(&noise[offset..])
                .unwrap();
        let a = gelf_getverdaux(&data, offset as i32, &mut errors).unwrap();
        assert_eq!(a.vda_name, raw.vda_name.get(le));
        assert_eq!(a.vda_next, raw.vda_next.get(le));
    }
}
