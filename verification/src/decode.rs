//! The format decoder: the calls into the `object` crate that turn the bytes
//! of an image into header records. Nothing in this file is proved; each
//! function states what it takes from `object` on trust.

use crate::types::{Elf32_Ehdr, Elf32_Phdr, Elf32_Shdr, GElf_Ehdr, GElf_Phdr, GElf_Shdr};
use object::read::elf::{ElfFile32, ElfFile64, FileHeader, ProgramHeader, SectionHeader};
use vstd::prelude::*;

verus! {

/// What the first bytes of an image say it is.
#[derive(Debug, Clone, Copy, PartialEq, Eq, Structural)]
pub enum FileClass {
    /// A 32-bit ELF file.
    Elf32,
    /// A 64-bit ELF file.
    Elf64,
    /// An archive of object files.
    Archive,
    /// A file of another format that the decoder knows.
    Other,
    /// Nothing that the decoder knows.
    Unknown,
}

/// The header and the two tables of a 32-bit image, in host byte order.
pub struct Elf32Tables {
    pub header: Elf32_Ehdr,
    pub sections: Seq<Elf32_Shdr>,
    pub segments: Seq<Elf32_Phdr>,
}

/// The header and the two tables of a 64-bit image, in host byte order.
pub struct Elf64Tables {
    pub header: GElf_Ehdr,
    pub sections: Seq<GElf_Shdr>,
    pub segments: Seq<GElf_Phdr>,
}

/// The class that `object::FileKind::parse` finds for an image.
pub uninterp spec fn file_class_of(bytes: Seq<u8>) -> FileClass;

/// The tables that `object::read::elf::ElfFile32::parse` finds in an image,
/// `None` where it refuses the image.
pub uninterp spec fn elf32_tables(bytes: Seq<u8>) -> Option<Elf32Tables>;

/// The tables that `object::read::elf::ElfFile64::parse` finds in an image,
/// `None` where it refuses the image.
pub uninterp spec fn elf64_tables(bytes: Seq<u8>) -> Option<Elf64Tables>;

/// An image of at least 16 bytes that starts with the ELF magic number.
pub open spec fn has_elf_magic(bytes: Seq<u8>) -> bool {
    &&& bytes.len() >= 16
    &&& bytes[0] == 0x7f
    &&& bytes[1] == 0x45
    &&& bytes[2] == 0x4c
    &&& bytes[3] == 0x46
}

/// An image of at least 16 bytes that starts with `!<arch>\n` or `!<thin>\n`.
pub open spec fn has_archive_magic(bytes: Seq<u8>) -> bool {
    &&& bytes.len() >= 16
    &&& bytes[0] == 0x21
    &&& bytes[1] == 0x3c
    &&& bytes[6] == 0x3e
    &&& bytes[7] == 0x0a
    &&& {
        ||| (bytes[2] == 0x61 && bytes[3] == 0x72 && bytes[4] == 0x63 && bytes[5] == 0x68)
        ||| (bytes[2] == 0x74 && bytes[3] == 0x68 && bytes[4] == 0x69 && bytes[5] == 0x6e)
    }
}

/// Calls `object::FileKind::parse` and tells its answers apart. On trust:
/// the answer depends on the bytes alone; an image is a 32-bit (64-bit) ELF
/// file exactly when it has at least 16 bytes, starts with the ELF magic
/// number and its class byte is 1 (2); it is an archive exactly when it has
/// at least 16 bytes and starts with one of the two archive magic strings.
#[verifier::external_body]
pub(crate) fn file_class(data: &[u8]) -> (found: FileClass)
    ensures
        found == file_class_of(data@),
        (found is Elf32) == (has_elf_magic(data@) && data@[4] == 1),
        (found is Elf64) == (has_elf_magic(data@) && data@[4] == 2),
        (found is Archive) == has_archive_magic(data@),
{
    match object::FileKind::parse(data) {
        Ok(object::FileKind::Elf32) => FileClass::Elf32,
        Ok(object::FileKind::Elf64) => FileClass::Elf64,
        Ok(object::FileKind::Archive) => FileClass::Archive,
        Ok(_) => FileClass::Other,
        Err(_) => FileClass::Unknown,
    }
}

/// Calls `ElfFile32::parse` and copies the file header out, field by field,
/// each read in the byte order of the image. On trust: the header is that
/// of the tables the parse finds, and there is one exactly when the parse
/// succeeds.
#[verifier::external_body]
pub(crate) fn read_header32(data: &[u8]) -> (header: Option<Elf32_Ehdr>)
    ensures
        header == match elf32_tables(data@) {
            Some(t) => Some(t.header),
            None => None,
        },
{
    let f: ElfFile32 = ElfFile32::parse(data).ok()?;
    let (h, e) = (f.elf_header(), f.endian());
    Some(Elf32_Ehdr {
        e_ident: object::pod::bytes_of(h)[..16].try_into().ok()?,
        e_type: h.e_type(e), e_machine: h.e_machine(e), e_version: h.e_version(e),
        e_entry: h.e_entry(e), e_phoff: h.e_phoff(e), e_shoff: h.e_shoff(e),
        e_flags: h.e_flags(e), e_ehsize: h.e_ehsize(e), e_phentsize: h.e_phentsize(e),
        e_phnum: h.e_phnum(e), e_shentsize: h.e_shentsize(e), e_shnum: h.e_shnum(e),
        e_shstrndx: h.e_shstrndx(e),
    })
}

/// Calls `ElfFile32::parse` and copies the section header table out, entry
/// by entry and field by field, the entry at index 0 included. On trust: the
/// table is that of the tables the parse finds.
#[verifier::external_body]
pub(crate) fn read_sections32(data: &[u8]) -> (table: Option<Vec<Elf32_Shdr>>)
    ensures
        table is Some <==> elf32_tables(data@) is Some,
        table matches Some(v) ==> v@ == elf32_tables(data@).unwrap().sections,
{
    let f: ElfFile32 = ElfFile32::parse(data).ok()?;
    let e = f.endian();
    Some(f.elf_section_table().iter().map(|s| Elf32_Shdr {
        sh_name: s.sh_name(e), sh_type: s.sh_type(e), sh_flags: s.sh_flags(e),
        sh_addr: s.sh_addr(e), sh_offset: s.sh_offset(e), sh_size: s.sh_size(e),
        sh_link: s.sh_link(e), sh_info: s.sh_info(e), sh_addralign: s.sh_addralign(e),
        sh_entsize: s.sh_entsize(e),
    }).collect())
}

/// Calls `ElfFile32::parse` and copies the program header table out, entry
/// by entry and field by field. On trust: the table is that of the tables
/// the parse finds.
#[verifier::external_body]
pub(crate) fn read_segments32(data: &[u8]) -> (table: Option<Vec<Elf32_Phdr>>)
    ensures
        table is Some <==> elf32_tables(data@) is Some,
        table matches Some(v) ==> v@ == elf32_tables(data@).unwrap().segments,
{
    let f: ElfFile32 = ElfFile32::parse(data).ok()?;
    let e = f.endian();
    Some(f.elf_program_headers().iter().map(|p| Elf32_Phdr {
        p_type: p.p_type(e), p_offset: p.p_offset(e), p_vaddr: p.p_vaddr(e),
        p_paddr: p.p_paddr(e), p_filesz: p.p_filesz(e), p_memsz: p.p_memsz(e),
        p_flags: p.p_flags(e), p_align: p.p_align(e),
    }).collect())
}

/// Calls `ElfFile64::parse` and copies the file header out, field by field,
/// each read in the byte order of the image. On trust: the header is that
/// of the tables the parse finds, and there is one exactly when the parse
/// succeeds.
#[verifier::external_body]
pub(crate) fn read_header64(data: &[u8]) -> (header: Option<GElf_Ehdr>)
    ensures
        header == match elf64_tables(data@) {
            Some(t) => Some(t.header),
            None => None,
        },
{
    let f: ElfFile64 = ElfFile64::parse(data).ok()?;
    let (h, e) = (f.elf_header(), f.endian());
    Some(GElf_Ehdr {
        e_ident: object::pod::bytes_of(h)[..16].try_into().ok()?,
        e_type: h.e_type(e), e_machine: h.e_machine(e), e_version: h.e_version(e),
        e_entry: h.e_entry(e), e_phoff: h.e_phoff(e), e_shoff: h.e_shoff(e),
        e_flags: h.e_flags(e), e_ehsize: h.e_ehsize(e), e_phentsize: h.e_phentsize(e),
        e_phnum: h.e_phnum(e), e_shentsize: h.e_shentsize(e), e_shnum: h.e_shnum(e),
        e_shstrndx: h.e_shstrndx(e),
    })
}

/// Calls `ElfFile64::parse` and copies the section header table out, entry
/// by entry and field by field, the entry at index 0 included. On trust: the
/// table is that of the tables the parse finds.
#[verifier::external_body]
pub(crate) fn read_sections64(data: &[u8]) -> (table: Option<Vec<GElf_Shdr>>)
    ensures
        table is Some <==> elf64_tables(data@) is Some,
        table matches Some(v) ==> v@ == elf64_tables(data@).unwrap().sections,
{
    let f: ElfFile64 = ElfFile64::parse(data).ok()?;
    let e = f.endian();
    Some(f.elf_section_table().iter().map(|s| GElf_Shdr {
        sh_name: s.sh_name(e), sh_type: s.sh_type(e), sh_flags: s.sh_flags(e),
        sh_addr: s.sh_addr(e), sh_offset: s.sh_offset(e), sh_size: s.sh_size(e),
        sh_link: s.sh_link(e), sh_info: s.sh_info(e), sh_addralign: s.sh_addralign(e),
        sh_entsize: s.sh_entsize(e),
    }).collect())
}

/// Calls `ElfFile64::parse` and copies the program header table out, entry
/// by entry and field by field. On trust: the table is that of the tables
/// the parse finds.
#[verifier::external_body]
pub(crate) fn read_segments64(data: &[u8]) -> (table: Option<Vec<GElf_Phdr>>)
    ensures
        table is Some <==> elf64_tables(data@) is Some,
        table matches Some(v) ==> v@ == elf64_tables(data@).unwrap().segments,
{
    let f: ElfFile64 = ElfFile64::parse(data).ok()?;
    let e = f.endian();
    Some(f.elf_program_headers().iter().map(|p| GElf_Phdr {
        p_type: p.p_type(e), p_flags: p.p_flags(e), p_offset: p.p_offset(e),
        p_vaddr: p.p_vaddr(e), p_paddr: p.p_paddr(e), p_filesz: p.p_filesz(e),
        p_memsz: p.p_memsz(e), p_align: p.p_align(e),
    }).collect())
}

} // verus!
