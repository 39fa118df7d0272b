use libelf::handle::NewSection;
use libelf::write::builder::serialize;
use libelf::{
    elf64_newehdr, elf_begin, elf_errmsg, elf_errno, elf_getdata, elf_getshdrnum, elf_memory,
    elf_ndxscn, elf_newdata, elf_newscn, elf_nextscn, elf_setdata, elf_setshstrndx, elf_update,
    gelf_getclass, gelf_getehdr, gelf_getshdr, Elf, ElfCmd, ElfType, ElfUpdate, Elf_Data,
    Elf_Scn, ErrorChannel,
};

fn new_image(fd: i32) -> (Elf, ErrorChannel) {
    let mut errors = ErrorChannel::new();
    let elf = elf_begin(fd, ElfCmd::ELF_C_WRITE, None, &mut errors).unwrap();
    (elf, errors)
}

fn payload(bytes: &[u8], align: usize) -> Elf_Data {
    Elf_Data { d_buf: bytes.to_vec(), d_align: align, ..Elf_Data::default() }
}

fn add_section(elf: &mut Elf, errors: &mut ErrorChannel, bytes: &[u8], align: usize) -> usize {
    let scn = elf_newscn(elf);
    elf_newdata(elf, scn, errors).unwrap();
    assert!(elf_setdata(elf, scn, payload(bytes, align), errors));
    scn
}

fn written(elf: &mut Elf, errors: &mut ErrorChannel) -> Vec<u8> {
    match elf_update(elf, ElfCmd::ELF_C_WRITE, errors) {
        ElfUpdate::Write(bytes) => bytes,
        other => panic!("no image: {:?}", other),
    }
}

fn by_the_writer_itself(sections: &[(&[u8], u64)]) -> Vec<u8> {
    let mut obj = object::write::Object::new(
        object::BinaryFormat::Elf,
        object::Architecture::X86_64,
        object::Endianness::Little,
    );
    for (bytes, align) in sections {
        let id = obj.add_section(Vec::new(), Vec::new(), object::SectionKind::Data);
        obj.set_section_data(id, bytes.to_vec(), *align);
    }
    obj.write().unwrap()
}

#[test]
fn write_state_comes_with_the_first_addition() {
    let (mut elf, mut errors) = new_image(4);
    assert!(elf.writer().is_none());
    assert_eq!(elf_newscn(&mut elf), 0);
    let w = elf.writer().unwrap();
    assert_eq!(w.sections, vec![NewSection { data: vec![], align: 1 }]);
    assert_eq!(w.shstrtab_idx, None);
    assert_eq!(w.ehdr64, None);
    assert_eq!(elf_newscn(&mut elf), 1);
    assert_eq!(elf.writer().unwrap().sections.len(), 2);
    assert_eq!(elf.section(0), Some(Elf_Scn { index: 0, data_list_head: None, flags: 0 }));
    assert_eq!(elf.section(1), Some(Elf_Scn { index: 1, data_list_head: None, flags: 0 }));
    assert_eq!(elf_ndxscn(&elf, 1), 1);
    assert!(elf.parsed().is_none());
    assert_eq!(elf_errno(&mut errors), 0);
}

#[test]
fn name_table_index_is_recorded() {
    let (mut elf, _) = new_image(4);
    assert_eq!(elf_setshstrndx(&mut elf, 3), 0);
    assert_eq!(elf.writer().unwrap().shstrtab_idx, Some(3));
    assert_eq!(elf_setshstrndx(&mut elf, 9), 0);
    assert_eq!(elf.writer().unwrap().shstrtab_idx, Some(9));
    assert!(elf.writer().unwrap().sections.is_empty());
}

#[test]
fn new_file_header_is_zero_and_kept() {
    let (mut elf, _) = new_image(4);
    let header = elf64_newehdr(&mut elf);
    assert_eq!(header.e_ident, [0; 16]);
    assert_eq!(
        (header.e_type, header.e_machine, header.e_version, header.e_entry),
        (0, 0, 0, 0)
    );
    assert_eq!((header.e_phoff, header.e_shoff, header.e_flags, header.e_ehsize), (0, 0, 0, 0));
    assert_eq!(
        (header.e_phentsize, header.e_phnum, header.e_shentsize, header.e_shnum),
        (0, 0, 0, 0)
    );
    assert_eq!(header.e_shstrndx, 0);
    assert_eq!(elf.writer().unwrap().ehdr64, Some(header));
    assert_eq!(elf64_newehdr(&mut elf), header);
}

#[test]
fn new_data_is_blank_and_replaces_what_was_attached() {
    let (mut elf, mut errors) = new_image(4);
    let scn = elf_newscn(&mut elf);
    let first = elf_newdata(&mut elf, scn, &mut errors).unwrap();
    assert_eq!(elf.data(first), Some(&Elf_Data::default()));
    assert_eq!(elf.data(first).unwrap().d_type, ElfType::ELF_T_BYTE);
    assert_eq!(elf.section(scn).unwrap().data_list_head, Some(first));
    assert!(elf_setdata(&mut elf, scn, payload(b"first", 2), &mut errors));
    let second = elf_newdata(&mut elf, scn, &mut errors).unwrap();
    assert_ne!(first, second);
    assert_eq!(elf.section(scn).unwrap().data_list_head, Some(second));
    assert_eq!(elf.data(first).unwrap().d_buf, b"first");
    assert_eq!(elf.data(second), Some(&Elf_Data::default()));
    assert_eq!(elf.data_handle_count(), 2);
    assert_eq!(elf_errno(&mut errors), 0);
}

#[test]
fn data_needs_a_section_handle() {
    let (mut elf, mut errors) = new_image(4);
    assert_eq!(elf_newdata(&mut elf, 0, &mut errors), None);
    assert_eq!(elf_errmsg(&errors, 0), "invalid argument");
    let scn = elf_newscn(&mut elf);
    assert!(!elf_setdata(&mut elf, scn, payload(b"x", 1), &mut errors));
    assert!(!elf_setdata(&mut elf, 5, payload(b"x", 1), &mut errors));
    assert_eq!(elf_errmsg(&errors, 0), "invalid argument");
    assert_eq!(elf_errno(&mut errors), 3);
    assert_eq!(elf.data_handle_count(), 0);
}

#[test]
fn round_trip_of_two_sections() {
    let (mut elf, mut errors) = new_image(4);
    let one: Vec<u8> = (0..100).collect();
    let two = b"the second payload is text";
    add_section(&mut elf, &mut errors, &one, 16);
    add_section(&mut elf, &mut errors, two, 4);
    let bytes = written(&mut elf, &mut errors);
    assert_eq!(elf_errno(&mut errors), 0);

    let mut read = elf_memory(&bytes, &mut errors).unwrap();
    assert_eq!(gelf_getclass(&mut read, &mut errors), 2);
    // the reserved section, the two payloads, and three tables of the writer
    assert_eq!(elf_getshdrnum(&mut read, &mut errors), Some(6));
    let first = elf_nextscn(&mut read, None, &mut errors).unwrap();
    let second = elf_nextscn(&mut read, Some(first), &mut errors).unwrap();
    assert_eq!((elf_ndxscn(&read, first), elf_ndxscn(&read, second)), (1, 2));
    let d1 = elf_getdata(&mut read, first, None, &mut errors).unwrap();
    let d2 = elf_getdata(&mut read, second, None, &mut errors).unwrap();
    assert_eq!(read.data(d1).unwrap().d_buf, one);
    assert_eq!(read.data(d1).unwrap().d_align, 16);
    assert_eq!(read.data(d2).unwrap().d_buf, two);
    assert_eq!(read.data(d2).unwrap().d_align, 4);
    let s1 = gelf_getshdr(&mut read, first, &mut errors).unwrap();
    let s2 = gelf_getshdr(&mut read, second, &mut errors).unwrap();
    assert_eq!((s1.sh_size, s1.sh_addralign), (100, 16));
    assert_eq!((s2.sh_size, s2.sh_addralign), (two.len() as u64, 4));
    assert_eq!(s1.sh_offset % 16, 0);
    let header = gelf_getehdr(&mut read, &mut errors).unwrap();
    assert_eq!(header.e_machine, 62);
    assert_eq!(header.e_type, 1);
    assert_eq!(elf_errno(&mut errors), 0);
}

#[test]
fn image_is_what_the_writer_lays_out() {
    let (mut elf, mut errors) = new_image(1);
    add_section(&mut elf, &mut errors, b"abc", 8);
    elf_newscn(&mut elf);
    add_section(&mut elf, &mut errors, &[0xff; 33], 1);
    let bytes = written(&mut elf, &mut errors);
    assert_eq!(bytes, by_the_writer_itself(&[(b"abc", 8), (b"", 1), (&[0xff; 33], 1)]));
    assert_ne!(bytes, by_the_writer_itself(&[(b"abc", 8), (&[0xff; 33], 1)]));
    assert_eq!(
        serialize(&vec![
            NewSection { data: b"abc".to_vec(), align: 8 },
            NewSection { data: vec![], align: 1 },
            NewSection { data: vec![0xff; 33], align: 1 },
        ]),
        Some(bytes)
    );
    assert_eq!(serialize(&vec![]), Some(by_the_writer_itself(&[])));
}

#[test]
fn layout_only_reports_the_size() {
    let (mut elf, mut errors) = new_image(1);
    add_section(&mut elf, &mut errors, b"some bytes", 2);
    let size = match elf_update(&mut elf, ElfCmd::ELF_C_NULL, &mut errors) {
        ElfUpdate::Size(n) => n,
        other => panic!("no size: {:?}", other),
    };
    assert_eq!(size, written(&mut elf, &mut errors).len() as u64);
    assert_eq!(size, by_the_writer_itself(&[(b"some bytes", 2)]).len() as u64);
    assert_eq!(elf_errno(&mut errors), 0);
}

#[test]
fn update_copies_attached_data_into_the_sections() {
    let (mut elf, mut errors) = new_image(1);
    let scn = add_section(&mut elf, &mut errors, b"before", 4);
    let bare = elf_newscn(&mut elf);
    assert_eq!(elf.writer().unwrap().sections[0], NewSection { data: vec![], align: 1 });
    elf_update(&mut elf, ElfCmd::ELF_C_NULL, &mut errors);
    assert_eq!(
        elf.writer().unwrap().sections,
        vec![
            NewSection { data: b"before".to_vec(), align: 4 },
            NewSection { data: vec![], align: 1 },
        ]
    );
    // data without bytes is not copied: the section keeps what it had
    assert!(elf_setdata(&mut elf, scn, payload(b"", 64), &mut errors));
    elf_newdata(&mut elf, bare, &mut errors).unwrap();
    assert!(elf_setdata(&mut elf, bare, payload(b"now", 2), &mut errors));
    let bytes = written(&mut elf, &mut errors);
    assert_eq!(
        elf.writer().unwrap().sections,
        vec![
            NewSection { data: b"before".to_vec(), align: 4 },
            NewSection { data: b"now".to_vec(), align: 2 },
        ]
    );
    assert_eq!(bytes, by_the_writer_itself(&[(b"before", 4), (b"now", 2)]));
    assert_eq!(elf_errno(&mut errors), 0);
}

#[test]
fn update_without_write_state_fails() {
    let (mut elf, mut errors) = new_image(1);
    assert_eq!(elf_update(&mut elf, ElfCmd::ELF_C_NULL, &mut errors), ElfUpdate::Failed);
    assert_eq!(elf_errmsg(&errors, 0), "no write state");
    assert_eq!(elf_update(&mut elf, ElfCmd::ELF_C_WRITE, &mut errors), ElfUpdate::Failed);
    assert_eq!(elf_update(&mut elf, ElfCmd::ELF_C_READ, &mut errors), ElfUpdate::Failed);
    assert_eq!(elf_errmsg(&errors, 0), "no write state");
    assert_eq!(elf_errno(&mut errors), 3);
    assert!(elf.writer().is_none());
}

#[test]
fn update_takes_two_commands_only() {
    let commands = [
        ElfCmd::ELF_C_READ,
        ElfCmd::ELF_C_RDWR,
        ElfCmd::ELF_C_CLR,
        ElfCmd::ELF_C_SET,
        ElfCmd::ELF_C_FDDONE,
        ElfCmd::ELF_C_FDREAD,
        ElfCmd::ELF_C_READ_MMAP,
        ElfCmd::ELF_C_RDWR_MMAP,
        ElfCmd::ELF_C_WRITE_MMAP,
        ElfCmd::ELF_C_READ_MMAP_PRIVATE,
        ElfCmd::ELF_C_EMPTY,
        ElfCmd::ELF_C_NUM,
    ];
    let (mut elf, mut errors) = new_image(1);
    add_section(&mut elf, &mut errors, b"abc", 1);
    for cmd in commands {
        assert_eq!(elf_update(&mut elf, cmd, &mut errors), ElfUpdate::Failed);
        assert_eq!(elf_errmsg(&errors, 0), "unsupported command");
    }
    assert_eq!(elf_errno(&mut errors), 12);
    assert_eq!(elf.writer().unwrap().sections[0].data, b"abc");
}

#[test]
fn write_needs_a_file_descriptor() {
    let mut errors = ErrorChannel::new();
    let mut elf = elf_memory(b"an image that was opened for reading", &mut errors).unwrap();
    add_section(&mut elf, &mut errors, b"abc", 1);
    assert_eq!(elf_update(&mut elf, ElfCmd::ELF_C_WRITE, &mut errors), ElfUpdate::Failed);
    assert_eq!(elf_errmsg(&errors, 0), "no file descriptor for write");
    assert_eq!(elf_errno(&mut errors), 1);
    assert!(matches!(elf_update(&mut elf, ElfCmd::ELF_C_NULL, &mut errors), ElfUpdate::Size(_)));
    assert_eq!(elf_errno(&mut errors), 0);
}

#[test]
fn alignment_must_be_a_power_of_two() {
    for align in [0usize, 3, 6, 12, 1000] {
        let (mut elf, mut errors) = new_image(1);
        add_section(&mut elf, &mut errors, b"abc", 2);
        add_section(&mut elf, &mut errors, b"def", align);
        assert_eq!(elf_update(&mut elf, ElfCmd::ELF_C_NULL, &mut errors), ElfUpdate::Failed);
        assert_eq!(elf_errmsg(&errors, 0), "failed to compute layout");
        assert_eq!(elf_update(&mut elf, ElfCmd::ELF_C_WRITE, &mut errors), ElfUpdate::Failed);
        assert_eq!(elf_errmsg(&errors, 0), "failed to write ELF");
        assert_eq!(elf_errno(&mut errors), 2);
        assert_eq!(
            serialize(&vec![NewSection { data: b"def".to_vec(), align: align as u64 }]),
            None
        );
    }
    for align in [1usize, 2, 4, 4096, 1 << 20] {
        let (mut elf, mut errors) = new_image(1);
        add_section(&mut elf, &mut errors, b"def", align);
        assert!(matches!(elf_update(&mut elf, ElfCmd::ELF_C_NULL, &mut errors), ElfUpdate::Size(_)));
        assert_eq!(elf_errno(&mut errors), 0);
    }
}

#[test]
fn image_without_sections_can_be_written() {
    let (mut elf, mut errors) = new_image(1);
    assert_eq!(elf_setshstrndx(&mut elf, 1), 0);
    let bytes = written(&mut elf, &mut errors);
    assert_eq!(bytes, by_the_writer_itself(&[]));
    let mut read = elf_memory(&bytes, &mut errors).unwrap();
    assert_eq!(elf_getshdrnum(&mut read, &mut errors), Some(4));
    assert_eq!(elf_errno(&mut errors), 0);
}
