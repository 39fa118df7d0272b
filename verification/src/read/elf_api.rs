//! Opening and closing images, section handles, section data and strings.

use crate::bytes::{le16, le64, read_le16, read_le64};
use crate::decode::{file_class, has_archive_magic, has_elf_magic, FileClass};
use crate::error::{set_error, ErrorChannel, ErrorState};
use crate::handle::{parse_outcome, Elf, ElfState, Elf_Scn, ParsedTables};
use crate::types::{DataView, ElfCmd, ElfKind, ElfType, Elf_Data, SHT_STRTAB};
use vstd::prelude::*;
use vstd::slice::slice_to_vec;

verus! {

/// The message with which decoding the image of `state` fails, if it does.
pub open spec fn parse_error(state: ElfState) -> Option<Seq<char>> {
    match parse_outcome(state.image) {
        Ok(_) => None,
        Err(msg) => Some(msg),
    }
}

/// Answers a request for format version `ver`: the current version, 1, for
/// 0 and for 1; 0 for any later version.
pub fn elf_version(ver: u32) -> (v: u32)
    ensures
        v == if ver <= 1 {
            1u32
        } else {
            0u32
        },
{
    if ver == 0 {
        1
    } else if ver > 1 {
        0
    } else {
        1
    }
}

/// True where opening file descriptor `fd` with command `cmd` needs the
/// bytes of the file: the descriptor is not negative and the command is not
/// `ELF_C_WRITE`.
pub fn elf_begin_needs_image(fd: i32, cmd: ElfCmd) -> (needed: bool)
    ensures
        needed == (fd >= 0 && cmd != ElfCmd::ELF_C_WRITE),
{
    fd >= 0 && !matches!(cmd, ElfCmd::ELF_C_WRITE)
}

/// Opens an image on file descriptor `fd`. A negative descriptor fails with
/// "invalid file descriptor". With `ELF_C_WRITE` the image is new and has no
/// bytes. With any other command the image is over `image`, the bytes of
/// the file, and fails with "mmap failed" where the caller could not get
/// them.
pub fn elf_begin(
    fd: i32,
    cmd: ElfCmd,
    image: Option<Vec<u8>>,
    errors: &mut ErrorChannel,
) -> (r: Option<Elf>)
    ensures
        fd < 0 ==> {
            &&& r is None
            &&& final(errors)@ == old(errors)@.recorded("invalid file descriptor"@)
        },
        fd >= 0 && cmd == ElfCmd::ELF_C_WRITE ==> {
            &&& r is Some
            &&& r.unwrap()@ == ElfState::fresh(fd, cmd, Seq::empty())
            &&& final(errors)@ == old(errors)@
        },
        fd >= 0 && cmd != ElfCmd::ELF_C_WRITE && image is None ==> {
            &&& r is None
            &&& final(errors)@ == old(errors)@.recorded("mmap failed"@)
        },
        fd >= 0 && cmd != ElfCmd::ELF_C_WRITE && image is Some ==> {
            &&& r is Some
            &&& r.unwrap()@ == ElfState::fresh(fd, cmd, image.unwrap()@)
            &&& final(errors)@ == old(errors)@
        },
        r matches Some(elf) ==> elf@.wf(),
{
    if fd < 0 {
        set_error(errors, "invalid file descriptor");
        return None;
    }
    if matches!(cmd, ElfCmd::ELF_C_WRITE) {
        return Some(Elf::new(fd, cmd, Vec::new()));
    }
    match image {
        Some(bytes) => Some(Elf::new(fd, cmd, bytes)),
        None => {
            set_error(errors, "mmap failed");
            None
        },
    }
}

/// Opens an image over a copy of `image`, for reading. An empty image
/// fails with "invalid memory image".
pub fn elf_memory(image: &[u8], errors: &mut ErrorChannel) -> (r: Option<Elf>)
    ensures
        image@.len() == 0 ==> {
            &&& r is None
            &&& final(errors)@ == old(errors)@.recorded("invalid memory image"@)
        },
        image@.len() > 0 ==> {
            &&& r is Some
            &&& r.unwrap()@ == ElfState::fresh(-1i32, ElfCmd::ELF_C_READ, image@)
            &&& final(errors)@ == old(errors)@
        },
        r matches Some(elf) ==> elf@.wf(),
{
    if image.len() == 0 {
        set_error(errors, "invalid memory image");
        return None;
    }
    Some(Elf::new(-1, ElfCmd::ELF_C_READ, slice_to_vec(image)))
}

/// Closes an image, with every handle and descriptor it gave out. Returns
/// 0.
pub fn elf_end(elf: Elf) -> (status: i32)
    ensures
        status == 0,
{
    let _ = elf;
    0
}

/// What the first bytes of an image say it is: an ELF file where they hold
/// the ELF magic number and class 32-bit or 64-bit, an archive where they
/// hold an archive magic string, else nothing known.
pub open spec fn kind_of(image: Seq<u8>) -> ElfKind {
    if has_elf_magic(image) && (image[4] == 1 || image[4] == 2) {
        ElfKind::ELF_K_ELF
    } else if has_archive_magic(image) {
        ElfKind::ELF_K_AR
    } else {
        ElfKind::ELF_K_NONE
    }
}

/// The kind of an image.
pub fn elf_kind(elf: &Elf) -> (kind: ElfKind)
    ensures
        kind == kind_of(elf@.image),
{
    match file_class(elf.image()) {
        FileClass::Elf32 => ElfKind::ELF_K_ELF,
        FileClass::Elf64 => ElfKind::ELF_K_ELF,
        FileClass::Archive => ElfKind::ELF_K_AR,
        FileClass::Other => ElfKind::ELF_K_NONE,
        FileClass::Unknown => ElfKind::ELF_K_NONE,
    }
}

/// The index of the section that a walk over a table of `count` entries
/// hands out after the section at `prev`: the one after it, or the one at
/// index 1 where nothing was handed out yet, for index 0 is reserved; none
/// at the end of the table.
pub open spec fn section_after(prev: Option<int>, count: nat) -> Option<int> {
    let next = match prev {
        None => 1,
        Some(i) => i + 1,
    };
    if next < count {
        Some(next)
    } else {
        None
    }
}

/// The index of the section of handle `scn`, none for no handle.
pub open spec fn index_behind(state: ElfState, scn: Option<usize>) -> Option<int> {
    match scn {
        None => None,
        Some(s) => Some(state.sections[s as int].index as int),
    }
}

/// True where `scn` is no handle or one that `state` gave out.
pub open spec fn known_or_none(state: ElfState, scn: Option<usize>) -> bool {
    scn matches Some(s) ==> s < state.sections.len()
}

/// The index handed out by call number `k`, from 1 on, of a walk over a
/// table of `count` entries in which each call is given what the call
/// before it handed out; none once the walk has ended.
pub open spec fn walk(count: nat, k: nat) -> Option<int>
    decreases k,
{
    if k <= 1 {
        section_after(None, count)
    } else {
        match walk(count, (k - 1) as nat) {
            Some(i) => section_after(Some(i), count),
            None => None,
        }
    }
}

/// A walk over a section table of `count` entries hands out the sections
/// at 1, 2 and so on up to `count - 1`, in this order, and then ends: call
/// number `k` hands out index `k` while `k` is below `count`, and nothing
/// from then on.
pub proof fn lemma_walk_visits_each_section_once(count: nat, k: nat)
    requires
        k >= 1,
    ensures
        walk(count, k) == if k < count {
            Some(k as int)
        } else {
            None
        },
    decreases k,
{
    if k > 1 {
        lemma_walk_visits_each_section_once(count, (k - 1) as nat);
    }
}

/// Gives out a handle for the section after that of `scn`, or for the
/// first section, at index 1, where `scn` is `None`. `None` at the end of
/// the section table, which is no error; `None` with the error recorded
/// where the image cannot be decoded, or, with "invalid argument", where
/// `scn` names no handle of this image.
pub fn elf_nextscn(elf: &mut Elf, scn: Option<usize>, errors: &mut ErrorChannel) -> (next:
    Option<usize>)
    ensures
        final(elf)@.wf(),
        match parse_outcome(old(elf)@.image) {
            Err(msg) => {
                &&& next is None
                &&& final(elf)@ == old(elf)@.decoded()
                &&& final(errors)@ == old(errors)@.recorded(msg)
            },
            Ok(t) => if !known_or_none(old(elf)@, scn) {
                &&& next is None
                &&& final(elf)@ == old(elf)@.decoded()
                &&& final(errors)@ == old(errors)@.recorded("invalid argument"@)
            } else {
                match section_after(index_behind(old(elf)@, scn), t.section_count()) {
                    Some(index) => {
                        &&& next matches Some(name) && name == old(elf)@.sections.len()
                        &&& final(elf)@ == old(elf)@.decoded().with_section(index as usize)
                        &&& index <= usize::MAX
                        &&& final(errors)@ == old(errors)@
                    },
                    None => {
                        &&& next is None
                        &&& final(elf)@ == old(elf)@.decoded()
                        &&& final(errors)@ == old(errors)@
                    },
                }
            },
        },
{
    if !elf.ensure_parsed(errors) {
        return None;
    }
    let section_count: usize = match elf.parsed() {
        Some(p) => p.section_count(),
        None => 0,
    };
    let next_idx: usize = match scn {
        None => 1,
        Some(s) => match elf.section(s) {
            Some(handle) => {
                if handle.index >= section_count {
                    return None;
                }
                handle.index + 1
            },
            None => {
                set_error(errors, "invalid argument");
                return None;
            },
        },
    };
    if next_idx >= section_count {
        return None;
    }
    Some(elf.add_section_handle(next_idx))
}

/// Gives out a handle for the section at `index`. Fails with "invalid
/// section index" where the section table is not that long, and with the
/// error of the decoder where the image cannot be decoded.
pub fn elf_getscn(elf: &mut Elf, index: usize, errors: &mut ErrorChannel) -> (scn: Option<usize>)
    ensures
        final(elf)@.wf(),
        match parse_outcome(old(elf)@.image) {
            Err(msg) => {
                &&& scn is None
                &&& final(elf)@ == old(elf)@.decoded()
                &&& final(errors)@ == old(errors)@.recorded(msg)
            },
            Ok(t) => if index < t.section_count() {
                &&& scn matches Some(name) && name == old(elf)@.sections.len()
                &&& final(elf)@ == old(elf)@.decoded().with_section(index)
                &&& final(errors)@ == old(errors)@
            } else {
                &&& scn is None
                &&& final(elf)@ == old(elf)@.decoded()
                &&& final(errors)@ == old(errors)@.recorded("invalid section index"@)
            },
        },
{
    if !elf.ensure_parsed(errors) {
        return None;
    }
    let section_count: usize = match elf.parsed() {
        Some(p) => p.section_count(),
        None => 0,
    };
    if index >= section_count {
        set_error(errors, "invalid section index");
        return None;
    }
    Some(elf.add_section_handle(index))
}

/// The index of the section of handle `scn`; 0 where there is no such
/// handle.
pub fn elf_ndxscn(elf: &Elf, scn: usize) -> (index: usize)
    ensures
        index == if scn < elf@.sections.len() {
            elf@.sections[scn as int].index
        } else {
            0
        },
{
    match elf.section(scn) {
        Some(handle) => handle.index,
        None => 0,
    }
}

/// The index of the section that holds the section names, as the file
/// header gives it. Fails where the image cannot be decoded.
pub fn elf_getshdrstrndx(elf: &mut Elf, errors: &mut ErrorChannel) -> (index: Option<usize>)
    ensures
        final(elf)@ == old(elf)@.decoded(),
        final(elf)@.wf(),
        final(errors)@ == old(errors)@.recorded_if(parse_error(old(elf)@)),
        match parse_outcome(old(elf)@.image) {
            Err(_) => index is None,
            Ok(t) => index matches Some(n) && n == t.shstrndx(),
        },
{
    if !elf.ensure_parsed(errors) {
        return None;
    }
    match elf.parsed() {
        Some(p) => Some(p.shstrndx()),
        None => None,
    }
}

/// The length of the program header table. Fails where the image cannot be
/// decoded.
pub fn elf_getphdrnum(elf: &mut Elf, errors: &mut ErrorChannel) -> (count: Option<usize>)
    ensures
        final(elf)@ == old(elf)@.decoded(),
        final(elf)@.wf(),
        final(errors)@ == old(errors)@.recorded_if(parse_error(old(elf)@)),
        match parse_outcome(old(elf)@.image) {
            Err(_) => count is None,
            Ok(t) => count matches Some(n) && n == t.program_header_count(),
        },
{
    if !elf.ensure_parsed(errors) {
        return None;
    }
    match elf.parsed() {
        Some(p) => Some(p.program_header_count()),
        None => None,
    }
}

/// The length of the section header table, the reserved entry at index 0
/// counted. Fails where the image cannot be decoded.
pub fn elf_getshdrnum(elf: &mut Elf, errors: &mut ErrorChannel) -> (count: Option<usize>)
    ensures
        final(elf)@ == old(elf)@.decoded(),
        final(elf)@.wf(),
        final(errors)@ == old(errors)@.recorded_if(parse_error(old(elf)@)),
        match parse_outcome(old(elf)@.image) {
            Err(_) => count is None,
            Ok(t) => count matches Some(n) && n == t.section_count(),
        },
{
    if !elf.ensure_parsed(errors) {
        return None;
    }
    match elf.parsed() {
        Some(p) => Some(p.section_count()),
        None => None,
    }
}

/// The alignment that a data descriptor takes from a section header: that
/// of the header, but at least 1.
pub open spec fn data_align(sh_addralign: u64) -> usize {
    if sh_addralign as usize >= 1 {
        sh_addralign as usize
    } else {
        1
    }
}

/// The descriptor made of the bytes of a section: byte type, current
/// version, offset 0.
pub open spec fn materialized(bytes: Seq<u8>, sh_addralign: u64) -> DataView {
    DataView {
        buf: bytes,
        d_type: ElfType::ELF_T_BYTE,
        d_version: 1,
        d_off: 0,
        d_align: data_align(sh_addralign),
    }
}

/// What asking for the data of section handle `scn` comes to, where the
/// handle is one of `before` and no descriptor was passed in: the result,
/// the state and the errors afterwards.
pub open spec fn data_handed_out(
    before: ElfState,
    scn: int,
    data: Option<usize>,
    after: ElfState,
    errors_before: ErrorState,
    errors_after: ErrorState,
) -> bool {
    let index = before.sections[scn].index as int;
    match parse_outcome(before.image) {
        Err(msg) => {
            &&& data is None
            &&& after == before.decoded()
            &&& errors_after == errors_before.recorded(msg)
        },
        Ok(t) => match t.section_data(index, before.image) {
            None => {
                &&& data is None
                &&& after == before.decoded()
                &&& errors_after == errors_before.recorded("failed to get section data"@)
            },
            Some(bytes) => {
                &&& data matches Some(name) && name == before.data.len()
                &&& after == before.decoded().with_data(
                    materialized(bytes, t.shdr(index).unwrap().sh_addralign),
                    true,
                )
                &&& errors_after == errors_before
            },
        },
    }
}

/// Copies the bytes of the section of handle `scn` into a new data
/// descriptor and gives out its name. A section hands out its data once:
/// the call fails with "invalid argument", and changes nothing, where
/// `existing` names a descriptor, as it does where there is no such handle.
/// It fails with the error of the decoder where the image cannot be
/// decoded, and with "failed to get section data" where the section has no
/// header or the image is too short for its bytes.
pub fn elf_getdata(
    elf: &mut Elf,
    scn: usize,
    existing: Option<usize>,
    errors: &mut ErrorChannel,
) -> (data: Option<usize>)
    ensures
        final(elf)@.wf(),
        scn >= old(elf)@.sections.len() || existing is Some ==> {
            &&& data is None
            &&& final(elf)@ == old(elf)@
            &&& final(errors)@ == old(errors)@.recorded("invalid argument"@)
        },
        scn < old(elf)@.sections.len() && existing is None ==> data_handed_out(
            old(elf)@,
            scn as int,
            data,
            final(elf)@,
            old(errors)@,
            final(errors)@,
        ),
{
    let index: usize = match elf.section(scn) {
        Some(handle) => handle.index,
        None => {
            set_error(errors, "invalid argument");
            return None;
        },
    };
    if existing.is_some() {
        set_error(errors, "invalid argument");
        return None;
    }
    if !elf.ensure_parsed(errors) {
        return None;
    }
    let found = match elf.parsed() {
        Some(p) => match (p.section_data(index, elf.image()), p.get_shdr(index)) {
            (Some(bytes), Some(shdr)) => Some((slice_to_vec(bytes), shdr.sh_addralign)),
            _ => None,
        },
        None => None,
    };
    match found {
        Some((d_buf, sh_addralign)) => {
            let align = sh_addralign as usize;
            let value = Elf_Data {
                d_buf,
                d_type: ElfType::ELF_T_BYTE,
                d_version: 1,
                d_off: 0,
                d_align: if align >= 1 {
                    align
                } else {
                    1
                },
            };
            Some(elf.add_data_handle(value, true))
        },
        None => {
            set_error(errors, "failed to get section data");
            None
        },
    }
}

/// Same as [`elf_getdata`].
pub fn elf_rawdata(
    elf: &mut Elf,
    scn: usize,
    existing: Option<usize>,
    errors: &mut ErrorChannel,
) -> (data: Option<usize>)
    ensures
        final(elf)@.wf(),
        scn >= old(elf)@.sections.len() || existing is Some ==> {
            &&& data is None
            &&& final(elf)@ == old(elf)@
            &&& final(errors)@ == old(errors)@.recorded("invalid argument"@)
        },
        scn < old(elf)@.sections.len() && existing is None ==> data_handed_out(
            old(elf)@,
            scn as int,
            data,
            final(elf)@,
            old(errors)@,
            final(errors)@,
        ),
{
    elf_getdata(elf, scn, existing, errors)
}

/// What asking for the place of something in the backing bytes comes to.
pub enum Lookup {
    /// The position in the backing bytes.
    At(int),
    /// No position, and the message recorded.
    Refused(Seq<char>),
}

/// What asking the tables `t` for the string at `offset` in section
/// `section` comes to: refused where the section has no header, where it is
/// no string table, where the offset is not below the size the header
/// gives, or where the position does not fit the machine; else at the
/// offset of the section plus `offset`.
pub open spec fn string_lookup(t: ParsedTables, section: int, offset: int) -> Lookup {
    match t.shdr(section) {
        None => Lookup::Refused("failed to get section header"@),
        Some(s) => if s.sh_type != SHT_STRTAB {
            Lookup::Refused("not a string table section"@)
        } else if offset >= s.sh_size || s.sh_offset + offset > usize::MAX {
            Lookup::Refused("offset out of bounds"@)
        } else {
            Lookup::At(s.sh_offset + offset)
        },
    }
}

/// In a string table of size `S`, the lookup at offset `S` is refused as
/// out of bounds.
pub proof fn lemma_string_table_end_is_refused(t: ParsedTables, section: int)
    requires
        t.shdr(section) is Some,
        t.shdr(section).unwrap().sh_type == SHT_STRTAB,
    ensures
        string_lookup(t, section, t.shdr(section).unwrap().sh_size as int)
            == Lookup::Refused("offset out of bounds"@),
{
}

/// In a string table of size `S`, the lookup at offset `S - 1` gives the
/// offset of the section plus `S - 1`, where the table has a last byte and
/// the position of that byte fits the machine.
pub proof fn lemma_string_table_last_byte_is_found(t: ParsedTables, section: int)
    requires
        t.shdr(section) is Some,
        t.shdr(section).unwrap().sh_type == SHT_STRTAB,
        t.shdr(section).unwrap().sh_size >= 1,
        t.shdr(section).unwrap().sh_offset + t.shdr(section).unwrap().sh_size - 1 <= usize::MAX,
    ensures
        string_lookup(t, section, t.shdr(section).unwrap().sh_size - 1) == Lookup::At(
            t.shdr(section).unwrap().sh_offset + t.shdr(section).unwrap().sh_size - 1,
        ),
{
}

/// The position in the backing bytes of the string at `offset` in the
/// string table that is section `section`. Nothing is copied, and nothing
/// is asked of the bytes at that position: where the string ends is for the
/// caller to find. Fails as [`string_lookup`] says, and with the error of
/// the decoder where the image cannot be decoded.
pub fn elf_strptr(elf: &mut Elf, section: usize, offset: usize, errors: &mut ErrorChannel) -> (at:
    Option<usize>)
    ensures
        final(elf)@ == old(elf)@.decoded(),
        final(elf)@.wf(),
        match parse_outcome(old(elf)@.image) {
            Err(msg) => at is None && final(errors)@ == old(errors)@.recorded(msg),
            Ok(t) => match string_lookup(t, section as int, offset as int) {
                Lookup::At(position) => {
                    &&& at matches Some(found) && found == position
                    &&& final(errors)@ == old(errors)@
                },
                Lookup::Refused(msg) => {
                    &&& at is None
                    &&& final(errors)@ == old(errors)@.recorded(msg)
                },
            },
        },
{
    if !elf.ensure_parsed(errors) {
        return None;
    }
    let found = match elf.parsed() {
        Some(p) => p.get_shdr(section),
        None => None,
    };
    let shdr = match found {
        Some(s) => s,
        None => {
            set_error(errors, "failed to get section header");
            return None;
        },
    };
    if shdr.sh_type != SHT_STRTAB {
        set_error(errors, "not a string table section");
        return None;
    }
    if offset as u64 >= shdr.sh_size {
        set_error(errors, "offset out of bounds");
        return None;
    }
    if shdr.sh_offset > usize::MAX as u64 - offset as u64 {
        set_error(errors, "offset out of bounds");
        return None;
    }
    Some((shdr.sh_offset + offset as u64) as usize)
}

/// Returns `flags`. Nothing is kept.
pub fn elf_flagdata(data: usize, cmd: ElfCmd, flags: u32) -> (r: u32)
    ensures
        r == flags,
{
    flags
}

/// Sets the bits of `flags` in the flags word of section handle `scn` and
/// returns `flags`; returns 0, and changes nothing, where there is no such
/// handle.
pub fn elf_flagshdr(elf: &mut Elf, scn: usize, cmd: ElfCmd, flags: u32) -> (r: u32)
    ensures
        final(elf)@.wf(),
        scn >= old(elf)@.sections.len() ==> r == 0 && final(elf)@ == old(elf)@,
        scn < old(elf)@.sections.len() ==> r == flags && final(elf)@ == old(elf)@.with_handle(
            scn as int,
            Elf_Scn {
                flags: old(elf)@.sections[scn as int].flags | flags,
                ..old(elf)@.sections[scn as int]
            },
        ),
{
    match elf.section(scn) {
        None => 0,
        Some(handle) => {
            elf.replace_section_handle(
                scn,
                Elf_Scn {
                    index: handle.index,
                    data_list_head: handle.data_list_head,
                    flags: handle.flags | flags,
                },
            );
            flags
        },
    }
}

/// The size in bytes of a raw 64-bit file header, and of a raw 64-bit
/// section header.
pub const RAW_HEADER_SIZE: usize = 64;

/// The position of the raw 64-bit header of the section at `index`, as the
/// raw 64-bit file header at the start of `image` gives it, both read low
/// byte first: the offset of the table plus `index` times the size of an
/// entry.
pub open spec fn raw_shdr_position(image: Seq<u8>, index: int) -> int {
    le64(image, 40) + index * le16(image, 58)
}

/// The position in the backing bytes of the raw 64-bit file header: 0.
/// Fails with "failed to get file header" where the image is too short to
/// hold one.
pub fn elf64_getehdr(elf: &Elf, errors: &mut ErrorChannel) -> (at: Option<usize>)
    ensures
        elf@.image.len() >= 64 ==> at == Some(0usize) && final(errors)@ == old(errors)@,
        elf@.image.len() < 64 ==> {
            &&& at is None
            &&& final(errors)@ == old(errors)@.recorded("failed to get file header"@)
        },
{
    if elf.image().len() >= RAW_HEADER_SIZE {
        Some(0)
    } else {
        set_error(errors, "failed to get file header");
        None
    }
}

/// What asking for the raw 64-bit header of the section of handle `scn`
/// comes to: its position, or the message of the failure.
pub open spec fn raw_shdr_lookup(state: ElfState, scn: int) -> Lookup {
    if !(0 <= scn < state.sections.len()) {
        Lookup::Refused("invalid argument"@)
    } else if state.image.len() < 64 {
        Lookup::Refused("failed to get file header"@)
    } else if raw_shdr_position(state.image, state.sections[scn].index as int) + 64
        > state.image.len() {
        Lookup::Refused("failed to get section header"@)
    } else {
        Lookup::At(raw_shdr_position(state.image, state.sections[scn].index as int))
    }
}

/// The position in the backing bytes of the raw 64-bit header of the
/// section of handle `scn`. The image is read as a little-endian 64-bit
/// file whatever it is. Fails with "invalid argument" where there is no such
/// handle, with "failed to get file header" where the image is too short
/// for a raw file header, and with "failed to get section header" where the
/// image does not hold the whole of the section header.
pub fn elf64_getshdr(elf: &Elf, scn: usize, errors: &mut ErrorChannel) -> (at: Option<usize>)
    ensures
        match raw_shdr_lookup(elf@, scn as int) {
            Lookup::At(position) => {
                &&& at matches Some(found) && found == position
                &&& final(errors)@ == old(errors)@
            },
            Lookup::Refused(msg) => {
                &&& at is None
                &&& final(errors)@ == old(errors)@.recorded(msg)
            },
        },
{
    let index: usize = match elf.section(scn) {
        Some(handle) => handle.index,
        None => {
            set_error(errors, "invalid argument");
            return None;
        },
    };
    let image = elf.image();
    let len: usize = image.len();
    if len < RAW_HEADER_SIZE {
        set_error(errors, "failed to get file header");
        return None;
    }
    let shoff: u64 = read_le64(image, 40);
    let shentsize: u16 = read_le16(image, 58);
    let room: u64 = (len - RAW_HEADER_SIZE) as u64;
    if shoff > room {
        assert(index * shentsize >= 0) by (nonlinear_arith)
            requires
                index >= 0,
                shentsize >= 0,
        ;
        set_error(errors, "failed to get section header");
        return None;
    }
    if shentsize == 0 {
        assert(index * shentsize == 0) by (nonlinear_arith)
            requires
                shentsize == 0,
        ;
        return Some(shoff as usize);
    }
    let span: u64 = room - shoff;
    if index as u64 > span / shentsize as u64 {
        assert(index * shentsize > span) by (nonlinear_arith)
            requires
                index > span / (shentsize as u64),
                shentsize > 0,
        ;
        set_error(errors, "failed to get section header");
        return None;
    }
    assert(index * shentsize <= span) by (nonlinear_arith)
        requires
            index <= span / (shentsize as u64),
            shentsize > 0,
    ;
    Some((shoff + index as u64 * shentsize as u64) as usize)
}

} // verus!
