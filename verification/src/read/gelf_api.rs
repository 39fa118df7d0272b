//! Canonical records: file, section and program headers of an image, and
//! symbols, version records and notes out of section data.

use crate::bytes::{le16, le32, le64, pad4, read_le16, read_le32, read_le64, round_up4};
use crate::error::{set_error, ErrorChannel};
use crate::handle::{parse_outcome, Elf, ParsedTables};
use crate::read::elf_api::parse_error;
use crate::types::{
    Elf_Data, GElf_Ehdr, GElf_Nhdr, GElf_Phdr, GElf_Shdr, GElf_Sym, GElf_Verdaux, GElf_Verdef,
    GElf_Versym, ELFCLASS32, ELFCLASS64, ELFCLASSNONE,
};
use vstd::prelude::*;

verus! {

/// The class of an image: 1 for 32-bit, 2 for 64-bit, 0 where the image
/// cannot be decoded, with the error of the decoder recorded.
pub fn gelf_getclass(elf: &mut Elf, errors: &mut ErrorChannel) -> (class: i32)
    ensures
        final(elf)@ == old(elf)@.decoded(),
        final(elf)@.wf(),
        final(errors)@ == old(errors)@.recorded_if(parse_error(old(elf)@)),
        class == match parse_outcome(old(elf)@.image) {
            Ok(ParsedTables::Elf32(_)) => 1i32,
            Ok(ParsedTables::Elf64(_)) => 2i32,
            Err(_) => 0i32,
        },
{
    if !elf.ensure_parsed(errors) {
        return ELFCLASSNONE as i32;
    }
    match elf.parsed() {
        Some(p) => if p.is_elf32() {
            ELFCLASS32 as i32
        } else {
            ELFCLASS64 as i32
        },
        None => ELFCLASSNONE as i32,
    }
}

/// The canonical file header of an image. Fails where the image cannot be
/// decoded.
pub fn gelf_getehdr(elf: &mut Elf, errors: &mut ErrorChannel) -> (header: Option<GElf_Ehdr>)
    ensures
        final(elf)@ == old(elf)@.decoded(),
        final(elf)@.wf(),
        final(errors)@ == old(errors)@.recorded_if(parse_error(old(elf)@)),
        header == match parse_outcome(old(elf)@.image) {
            Ok(t) => Some(t.ehdr()),
            Err(_) => None,
        },
{
    if !elf.ensure_parsed(errors) {
        return None;
    }
    match elf.parsed() {
        Some(p) => Some(p.get_ehdr()),
        None => None,
    }
}

/// The canonical header of the section of handle `scn`. Fails with
/// "invalid argument" where there is no such handle, with the error of the
/// decoder where the image cannot be decoded, and with "failed to get
/// section header" where the section table has no header for the section.
pub fn gelf_getshdr(elf: &mut Elf, scn: usize, errors: &mut ErrorChannel) -> (header: Option<
    GElf_Shdr,
>)
    ensures
        final(elf)@.wf(),
        scn >= old(elf)@.sections.len() ==> {
            &&& header is None
            &&& final(elf)@ == old(elf)@
            &&& final(errors)@ == old(errors)@.recorded("invalid argument"@)
        },
        scn < old(elf)@.sections.len() ==> final(elf)@ == old(elf)@.decoded(),
        scn < old(elf)@.sections.len() ==> match parse_outcome(old(elf)@.image) {
            Err(msg) => header is None && final(errors)@ == old(errors)@.recorded(msg),
            Ok(t) => {
                &&& header == t.shdr(old(elf)@.sections[scn as int].index as int)
                &&& final(errors)@ == if header is Some {
                    old(errors)@
                } else {
                    old(errors)@.recorded("failed to get section header"@)
                }
            },
        },
{
    let index: usize = match elf.section(scn) {
        Some(handle) => handle.index,
        None => {
            set_error(errors, "invalid argument");
            return None;
        },
    };
    if !elf.ensure_parsed(errors) {
        return None;
    }
    let found = match elf.parsed() {
        Some(p) => p.get_shdr(index),
        None => None,
    };
    if found.is_none() {
        set_error(errors, "failed to get section header");
    }
    found
}

/// The canonical program header at `index`. Fails with "invalid argument"
/// for a negative index, with the error of the decoder where the image
/// cannot be decoded, and with "failed to get program header" where the
/// table is not that long.
pub fn gelf_getphdr(elf: &mut Elf, index: i32, errors: &mut ErrorChannel) -> (header: Option<
    GElf_Phdr,
>)
    ensures
        final(elf)@.wf(),
        index < 0 ==> {
            &&& header is None
            &&& final(elf)@ == old(elf)@
            &&& final(errors)@ == old(errors)@.recorded("invalid argument"@)
        },
        index >= 0 ==> final(elf)@ == old(elf)@.decoded(),
        index >= 0 ==> match parse_outcome(old(elf)@.image) {
            Err(msg) => header is None && final(errors)@ == old(errors)@.recorded(msg),
            Ok(t) => {
                &&& header == t.phdr(index as int)
                &&& final(errors)@ == if header is Some {
                    old(errors)@
                } else {
                    old(errors)@.recorded("failed to get program header"@)
                }
            },
        },
{
    if index < 0 {
        proof {
            use_type_invariant(&*elf);
        }
        set_error(errors, "invalid argument");
        return None;
    }
    if !elf.ensure_parsed(errors) {
        return None;
    }
    let found = match elf.parsed() {
        Some(p) => p.get_phdr(index as usize),
        None => None,
    };
    if found.is_none() {
        set_error(errors, "failed to get program header");
    }
    found
}

/// The size in bytes of a symbol record.
pub const SYM_SIZE: usize = 24;

/// The size in bytes of a version-symbol entry.
pub const VERSYM_SIZE: usize = 2;

/// The size in bytes of a version-definition record.
pub const VERDEF_SIZE: usize = 20;

/// The size in bytes of an auxiliary version-definition record.
pub const VERDAUX_SIZE: usize = 8;

/// The size in bytes of a note header.
pub const NHDR_SIZE: usize = 12;

/// The symbol record that the 24 bytes of `buf` from `at` on spell, each
/// field low byte first.
pub open spec fn sym_at(buf: Seq<u8>, at: int) -> GElf_Sym {
    GElf_Sym {
        st_name: le32(buf, at) as u32,
        st_info: buf[at + 4],
        st_other: buf[at + 5],
        st_shndx: le16(buf, at + 6) as u16,
        st_value: le64(buf, at + 8) as u64,
        st_size: le64(buf, at + 16) as u64,
    }
}

/// The version-definition record that the 20 bytes of `buf` from `at` on
/// spell, each field low byte first.
pub open spec fn verdef_at(buf: Seq<u8>, at: int) -> GElf_Verdef {
    GElf_Verdef {
        vd_version: le16(buf, at) as u16,
        vd_flags: le16(buf, at + 2) as u16,
        vd_ndx: le16(buf, at + 4) as u16,
        vd_cnt: le16(buf, at + 6) as u16,
        vd_hash: le32(buf, at + 8) as u32,
        vd_aux: le32(buf, at + 12) as u32,
        vd_next: le32(buf, at + 16) as u32,
    }
}

/// The auxiliary version-definition record that the 8 bytes of `buf` from
/// `at` on spell, each field low byte first.
pub open spec fn verdaux_at(buf: Seq<u8>, at: int) -> GElf_Verdaux {
    GElf_Verdaux { vda_name: le32(buf, at) as u32, vda_next: le32(buf, at + 4) as u32 }
}

/// The note header that the 12 bytes of `buf` from `at` on spell, each field
/// low byte first.
pub open spec fn nhdr_at(buf: Seq<u8>, at: int) -> GElf_Nhdr {
    GElf_Nhdr {
        n_namesz: le32(buf, at) as u32,
        n_descsz: le32(buf, at + 4) as u32,
        n_type: le32(buf, at + 8) as u32,
    }
}

/// The symbol record at index `ndx` of the symbol table held in `data`.
/// Fails with "invalid argument" for a negative index and with "symbol
/// index out of range" where the data ends before the record does.
pub fn gelf_getsym(data: &Elf_Data, ndx: i32, errors: &mut ErrorChannel) -> (sym: Option<GElf_Sym>)
    ensures
        ndx < 0 ==> {
            &&& sym is None
            &&& final(errors)@ == old(errors)@.recorded("invalid argument"@)
        },
        ndx >= 0 && (ndx + 1) * 24 > data.d_buf@.len() ==> {
            &&& sym is None
            &&& final(errors)@ == old(errors)@.recorded("symbol index out of range"@)
        },
        ndx >= 0 && (ndx + 1) * 24 <= data.d_buf@.len() ==> {
            &&& sym == Some(sym_at(data.d_buf@, ndx * 24))
            &&& final(errors)@ == old(errors)@
        },
{
    if ndx < 0 {
        set_error(errors, "invalid argument");
        return None;
    }
    let buf = data.d_buf.as_slice();
    let offset: u64 = ndx as u64 * SYM_SIZE as u64;
    if offset + SYM_SIZE as u64 > buf.len() as u64 {
        set_error(errors, "symbol index out of range");
        return None;
    }
    let at: usize = offset as usize;
    Some(
        GElf_Sym {
            st_name: read_le32(buf, at),
            st_info: buf[at + 4],
            st_other: buf[at + 5],
            st_shndx: read_le16(buf, at + 6),
            st_value: read_le64(buf, at + 8),
            st_size: read_le64(buf, at + 16),
        },
    )
}

/// The version-symbol entry at index `ndx` of the table held in `data`.
/// Fails with "invalid argument" for a negative index and with "symbol
/// index out of range" where the data ends before the entry does.
pub fn gelf_getversym(data: &Elf_Data, ndx: i32, errors: &mut ErrorChannel) -> (versym: Option<
    GElf_Versym,
>)
    ensures
        ndx < 0 ==> {
            &&& versym is None
            &&& final(errors)@ == old(errors)@.recorded("invalid argument"@)
        },
        ndx >= 0 && (ndx + 1) * 2 > data.d_buf@.len() ==> {
            &&& versym is None
            &&& final(errors)@ == old(errors)@.recorded("symbol index out of range"@)
        },
        ndx >= 0 && (ndx + 1) * 2 <= data.d_buf@.len() ==> {
            &&& versym == Some(GElf_Versym(le16(data.d_buf@, ndx * 2) as u16))
            &&& final(errors)@ == old(errors)@
        },
{
    if ndx < 0 {
        set_error(errors, "invalid argument");
        return None;
    }
    let buf = data.d_buf.as_slice();
    let offset: u64 = ndx as u64 * VERSYM_SIZE as u64;
    if offset + VERSYM_SIZE as u64 > buf.len() as u64 {
        set_error(errors, "symbol index out of range");
        return None;
    }
    Some(GElf_Versym(read_le16(buf, offset as usize)))
}

/// The version-definition record at byte `offset` of `data`. The record
/// after it stands `vd_next` bytes further on. Fails with "invalid
/// argument" for a negative offset and with "offset out of bounds" where
/// the data ends before the record does.
pub fn gelf_getverdef(data: &Elf_Data, offset: i32, errors: &mut ErrorChannel) -> (verdef: Option<
    GElf_Verdef,
>)
    ensures
        offset < 0 ==> {
            &&& verdef is None
            &&& final(errors)@ == old(errors)@.recorded("invalid argument"@)
        },
        offset >= 0 && offset + 20 > data.d_buf@.len() ==> {
            &&& verdef is None
            &&& final(errors)@ == old(errors)@.recorded("offset out of bounds"@)
        },
        offset >= 0 && offset + 20 <= data.d_buf@.len() ==> {
            &&& verdef == Some(verdef_at(data.d_buf@, offset as int))
            &&& final(errors)@ == old(errors)@
        },
{
    if offset < 0 {
        set_error(errors, "invalid argument");
        return None;
    }
    let buf = data.d_buf.as_slice();
    if offset as u64 + VERDEF_SIZE as u64 > buf.len() as u64 {
        set_error(errors, "offset out of bounds");
        return None;
    }
    let at: usize = offset as usize;
    Some(
        GElf_Verdef {
            vd_version: read_le16(buf, at),
            vd_flags: read_le16(buf, at + 2),
            vd_ndx: read_le16(buf, at + 4),
            vd_cnt: read_le16(buf, at + 6),
            vd_hash: read_le32(buf, at + 8),
            vd_aux: read_le32(buf, at + 12),
            vd_next: read_le32(buf, at + 16),
        },
    )
}

/// The auxiliary version-definition record at byte `offset` of `data`.
/// Fails with "invalid argument" for a negative offset and with "offset out
/// of bounds" where the data ends before the record does.
pub fn gelf_getverdaux(data: &Elf_Data, offset: i32, errors: &mut ErrorChannel) -> (verdaux:
    Option<GElf_Verdaux>)
    ensures
        offset < 0 ==> {
            &&& verdaux is None
            &&& final(errors)@ == old(errors)@.recorded("invalid argument"@)
        },
        offset >= 0 && offset + 8 > data.d_buf@.len() ==> {
            &&& verdaux is None
            &&& final(errors)@ == old(errors)@.recorded("offset out of bounds"@)
        },
        offset >= 0 && offset + 8 <= data.d_buf@.len() ==> {
            &&& verdaux == Some(verdaux_at(data.d_buf@, offset as int))
            &&& final(errors)@ == old(errors)@
        },
{
    if offset < 0 {
        set_error(errors, "invalid argument");
        return None;
    }
    let buf = data.d_buf.as_slice();
    if offset as u64 + VERDAUX_SIZE as u64 > buf.len() as u64 {
        set_error(errors, "offset out of bounds");
        return None;
    }
    let at: usize = offset as usize;
    Some(GElf_Verdaux { vda_name: read_le32(buf, at), vda_next: read_le32(buf, at + 4) })
}

/// A note as found in a note section: its header, where its name and its
/// description start, and where the note after it starts.
#[derive(Debug, Clone, Copy, PartialEq, Eq)]
pub struct GElf_Note {
    pub nhdr: GElf_Nhdr,
    pub name_offset: usize,
    pub desc_offset: usize,
    pub next_offset: usize,
}

/// Where the note whose header stands at `offset` of `buf` ends: after the
/// 12 bytes of the header, the name and the description, each of the two
/// padded to a multiple of four bytes.
pub open spec fn note_end(buf: Seq<u8>, offset: int) -> int {
    offset + 12 + pad4(le32(buf, offset)) + pad4(le32(buf, offset + 4))
}

/// True where `buf` holds a whole note at `offset`: the header fits, and so
/// do the padded name and description after it.
pub open spec fn has_note(buf: Seq<u8>, offset: int) -> bool {
    0 <= offset && offset + 12 <= buf.len() && note_end(buf, offset) <= buf.len()
}

/// The note at `offset` of `buf`.
pub open spec fn note_at(buf: Seq<u8>, offset: int) -> GElf_Note {
    GElf_Note {
        nhdr: nhdr_at(buf, offset),
        name_offset: (offset + 12) as usize,
        desc_offset: (offset + 12 + pad4(le32(buf, offset))) as usize,
        next_offset: note_end(buf, offset) as usize,
    }
}

/// The note whose header stands at byte `offset` of `data`. None where the
/// data holds no whole note there, be it that the header does not fit or
/// that the name or the description runs past the end.
pub fn gelf_getnote(data: &Elf_Data, offset: usize) -> (note: Option<GElf_Note>)
    ensures
        note == if has_note(data.d_buf@, offset as int) {
            Some(note_at(data.d_buf@, offset as int))
        } else {
            None
        },
{
    let buf = data.d_buf.as_slice();
    let len: usize = buf.len();
    if offset >= len {
        return None;
    }
    if len - offset < NHDR_SIZE {
        return None;
    }
    let nhdr = GElf_Nhdr {
        n_namesz: read_le32(buf, offset),
        n_descsz: read_le32(buf, offset + 4),
        n_type: read_le32(buf, offset + 8),
    };
    let name_offset: usize = offset + NHDR_SIZE;
    let name_size: u64 = round_up4(nhdr.n_namesz);
    if name_size > (len - name_offset) as u64 {
        return None;
    }
    let desc_offset: usize = name_offset + name_size as usize;
    let desc_size: u64 = round_up4(nhdr.n_descsz);
    if desc_size > (len - desc_offset) as u64 {
        return None;
    }
    let next_offset: usize = desc_offset + desc_size as usize;
    Some(GElf_Note { nhdr, name_offset, desc_offset, next_offset })
}

} // verus!
