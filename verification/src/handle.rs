//! The decoded view of an image, with the canonical form of what it holds,
//! and the image handle with the section handles, data descriptors and
//! write state that it owns.

use crate::decode::{
    elf32_tables, elf64_tables, file_class, file_class_of, read_header32, read_header64,
    read_sections32, read_sections64, read_segments32, read_segments64, Elf32Tables,
    Elf64Tables, FileClass,
};
use crate::error::{set_error, ErrorChannel};
use crate::types::{
    DataView, Elf32_Ehdr, Elf32_Phdr, Elf32_Shdr, ElfCmd, ElfType, Elf_Data, Endianness, GElf_Ehdr,
    GElf_Phdr, GElf_Shdr, EI_DATA, ELFDATA2MSB, SHT_NOBITS,
};
use vstd::prelude::*;
use vstd::slice::{slice_subrange, slice_to_vec};

verus! {

/// The canonical form of a 32-bit file header: every field kept, the three
/// that are as wide as an address zero-extended.
pub open spec fn widen_ehdr(h: Elf32_Ehdr) -> GElf_Ehdr {
    GElf_Ehdr {
        e_ident: h.e_ident,
        e_type: h.e_type,
        e_machine: h.e_machine,
        e_version: h.e_version,
        e_entry: h.e_entry as u64,
        e_phoff: h.e_phoff as u64,
        e_shoff: h.e_shoff as u64,
        e_flags: h.e_flags,
        e_ehsize: h.e_ehsize,
        e_phentsize: h.e_phentsize,
        e_phnum: h.e_phnum,
        e_shentsize: h.e_shentsize,
        e_shnum: h.e_shnum,
        e_shstrndx: h.e_shstrndx,
    }
}

/// The canonical form of a 32-bit section header.
pub open spec fn widen_shdr(s: Elf32_Shdr) -> GElf_Shdr {
    GElf_Shdr {
        sh_name: s.sh_name,
        sh_type: s.sh_type,
        sh_flags: s.sh_flags as u64,
        sh_addr: s.sh_addr as u64,
        sh_offset: s.sh_offset as u64,
        sh_size: s.sh_size as u64,
        sh_link: s.sh_link,
        sh_info: s.sh_info,
        sh_addralign: s.sh_addralign as u64,
        sh_entsize: s.sh_entsize as u64,
    }
}

/// The canonical form of a 32-bit program header.
pub open spec fn widen_phdr(p: Elf32_Phdr) -> GElf_Phdr {
    GElf_Phdr {
        p_type: p.p_type,
        p_flags: p.p_flags,
        p_offset: p.p_offset as u64,
        p_vaddr: p.p_vaddr as u64,
        p_paddr: p.p_paddr as u64,
        p_filesz: p.p_filesz as u64,
        p_memsz: p.p_memsz as u64,
        p_align: p.p_align as u64,
    }
}

/// Widening is exact: each field of the canonical form of a 32-bit record
/// is the same number as the field it was made from.
pub proof fn lemma_widening_is_exact(h: Elf32_Ehdr, s: Elf32_Shdr, p: Elf32_Phdr)
    ensures
        widen_ehdr(h).e_entry as int == h.e_entry as int,
        widen_ehdr(h).e_phoff as int == h.e_phoff as int,
        widen_ehdr(h).e_shoff as int == h.e_shoff as int,
        widen_shdr(s).sh_flags as int == s.sh_flags as int,
        widen_shdr(s).sh_addr as int == s.sh_addr as int,
        widen_shdr(s).sh_offset as int == s.sh_offset as int,
        widen_shdr(s).sh_size as int == s.sh_size as int,
        widen_shdr(s).sh_addralign as int == s.sh_addralign as int,
        widen_shdr(s).sh_entsize as int == s.sh_entsize as int,
        widen_phdr(p).p_offset as int == p.p_offset as int,
        widen_phdr(p).p_vaddr as int == p.p_vaddr as int,
        widen_phdr(p).p_paddr as int == p.p_paddr as int,
        widen_phdr(p).p_filesz as int == p.p_filesz as int,
        widen_phdr(p).p_memsz as int == p.p_memsz as int,
        widen_phdr(p).p_align as int == p.p_align as int,
{
}

/// The bytes of a section in an image: none for a section that takes no
/// room in the file, else the `sh_size` bytes from `sh_offset` on, where the
/// image holds them all.
pub open spec fn section_range(image: Seq<u8>, s: GElf_Shdr) -> Option<Seq<u8>> {
    if s.sh_type == SHT_NOBITS {
        Some(Seq::empty())
    } else if s.sh_offset <= image.len() && s.sh_size <= image.len() - s.sh_offset {
        Some(image.subrange(s.sh_offset as int, s.sh_offset + s.sh_size))
    } else {
        None
    }
}

/// What a decoded view holds, as contracts see it.
pub enum ParsedTables {
    Elf32(Elf32Tables),
    Elf64(Elf64Tables),
}

impl ParsedTables {
    /// The length of the section header table, the reserved entry at index
    /// 0 counted.
    pub open spec fn section_count(self) -> nat {
        match self {
            ParsedTables::Elf32(t) => t.sections.len(),
            ParsedTables::Elf64(t) => t.sections.len(),
        }
    }

    /// The length of the program header table.
    pub open spec fn program_header_count(self) -> nat {
        match self {
            ParsedTables::Elf32(t) => t.segments.len(),
            ParsedTables::Elf64(t) => t.segments.len(),
        }
    }

    /// The canonical file header.
    pub open spec fn ehdr(self) -> GElf_Ehdr {
        match self {
            ParsedTables::Elf32(t) => widen_ehdr(t.header),
            ParsedTables::Elf64(t) => t.header,
        }
    }

    /// The index of the section that holds the section names.
    pub open spec fn shstrndx(self) -> nat {
        self.ehdr().e_shstrndx as nat
    }

    /// The byte order of the image: big where the data-encoding byte of the
    /// header says so, else little.
    pub open spec fn endianness(self) -> Endianness {
        if self.ehdr().e_ident@[EI_DATA as int] == ELFDATA2MSB {
            Endianness::Big
        } else {
            Endianness::Little
        }
    }

    /// The canonical section header at `index`. There is none at index 0,
    /// which is reserved, nor past the end of the table.
    pub open spec fn shdr(self, index: int) -> Option<GElf_Shdr> {
        if 0 < index < self.section_count() {
            Some(
                match self {
                    ParsedTables::Elf32(t) => widen_shdr(t.sections[index]),
                    ParsedTables::Elf64(t) => t.sections[index],
                },
            )
        } else {
            None
        }
    }

    /// The canonical program header at `index`, if the table has one there.
    pub open spec fn phdr(self, index: int) -> Option<GElf_Phdr> {
        if 0 <= index < self.program_header_count() {
            Some(
                match self {
                    ParsedTables::Elf32(t) => widen_phdr(t.segments[index]),
                    ParsedTables::Elf64(t) => t.segments[index],
                },
            )
        } else {
            None
        }
    }

    /// True where the lengths of both tables fit the machine, as they do in
    /// every view that an image holds.
    pub open spec fn fits(self) -> bool {
        self.section_count() <= usize::MAX && self.program_header_count() <= usize::MAX
    }

    /// The bytes of the section at `index` in `image`.
    pub open spec fn section_data(self, index: int, image: Seq<u8>) -> Option<Seq<u8>> {
        match self.shdr(index) {
            Some(s) => section_range(image, s),
            None => None,
        }
    }
}

/// What decoding an image comes to: the tables, or the message that says
/// why there are none.
pub open spec fn parse_outcome(bytes: Seq<u8>) -> Result<ParsedTables, Seq<char>> {
    match file_class_of(bytes) {
        FileClass::Elf32 => match elf32_tables(bytes) {
            Some(t) => Ok(ParsedTables::Elf32(t)),
            None => Err("failed to parse ELF32"@),
        },
        FileClass::Elf64 => match elf64_tables(bytes) {
            Some(t) => Ok(ParsedTables::Elf64(t)),
            None => Err("failed to parse ELF64"@),
        },
        FileClass::Archive => Err("not an ELF file"@),
        FileClass::Other => Err("not an ELF file"@),
        FileClass::Unknown => Err("failed to determine file kind"@),
    }
}

/// The header and tables of a 32-bit image.
#[derive(Debug, Clone, PartialEq, Eq)]
pub struct Elf32File {
    pub header: Elf32_Ehdr,
    pub sections: Vec<Elf32_Shdr>,
    pub segments: Vec<Elf32_Phdr>,
}

/// The header and tables of a 64-bit image.
#[derive(Debug, Clone, PartialEq, Eq)]
pub struct Elf64File {
    pub header: GElf_Ehdr,
    pub sections: Vec<GElf_Shdr>,
    pub segments: Vec<GElf_Phdr>,
}

impl View for Elf32File {
    type V = Elf32Tables;

    open spec fn view(&self) -> Elf32Tables {
        Elf32Tables {
            header: self.header,
            sections: self.sections@,
            segments: self.segments@,
        }
    }
}

impl View for Elf64File {
    type V = Elf64Tables;

    open spec fn view(&self) -> Elf64Tables {
        Elf64Tables {
            header: self.header,
            sections: self.sections@,
            segments: self.segments@,
        }
    }
}

/// The decoded view of an image: its class and what its header and tables
/// hold. Queries answer in canonical records whatever the class.
#[derive(Debug, Clone, PartialEq, Eq)]
pub enum ParsedElf {
    Elf32(Elf32File),
    Elf64(Elf64File),
}

impl View for ParsedElf {
    type V = ParsedTables;

    open spec fn view(&self) -> ParsedTables {
        match self {
            ParsedElf::Elf32(f) => ParsedTables::Elf32(f@),
            ParsedElf::Elf64(f) => ParsedTables::Elf64(f@),
        }
    }
}

fn widen_file_header(h: &Elf32_Ehdr) -> (g: GElf_Ehdr)
    ensures
        g == widen_ehdr(*h),
{
    GElf_Ehdr {
        e_ident: h.e_ident,
        e_type: h.e_type,
        e_machine: h.e_machine,
        e_version: h.e_version,
        e_entry: h.e_entry as u64,
        e_phoff: h.e_phoff as u64,
        e_shoff: h.e_shoff as u64,
        e_flags: h.e_flags,
        e_ehsize: h.e_ehsize,
        e_phentsize: h.e_phentsize,
        e_phnum: h.e_phnum,
        e_shentsize: h.e_shentsize,
        e_shnum: h.e_shnum,
        e_shstrndx: h.e_shstrndx,
    }
}

fn widen_section_header(s: &Elf32_Shdr) -> (g: GElf_Shdr)
    ensures
        g == widen_shdr(*s),
{
    GElf_Shdr {
        sh_name: s.sh_name,
        sh_type: s.sh_type,
        sh_flags: s.sh_flags as u64,
        sh_addr: s.sh_addr as u64,
        sh_offset: s.sh_offset as u64,
        sh_size: s.sh_size as u64,
        sh_link: s.sh_link,
        sh_info: s.sh_info,
        sh_addralign: s.sh_addralign as u64,
        sh_entsize: s.sh_entsize as u64,
    }
}

fn widen_program_header(p: &Elf32_Phdr) -> (g: GElf_Phdr)
    ensures
        g == widen_phdr(*p),
{
    GElf_Phdr {
        p_type: p.p_type,
        p_flags: p.p_flags,
        p_offset: p.p_offset as u64,
        p_vaddr: p.p_vaddr as u64,
        p_paddr: p.p_paddr as u64,
        p_filesz: p.p_filesz as u64,
        p_memsz: p.p_memsz as u64,
        p_align: p.p_align as u64,
    }
}

impl ParsedElf {
    /// Decodes an image. Succeeds exactly on what the decoder takes for a
    /// 32-bit or a 64-bit ELF file and can parse as one; the message of a
    /// failure says which of the two steps failed.
    pub fn parse(data: &[u8]) -> (r: Result<ParsedElf, &'static str>)
        ensures
            match r {
                Ok(p) => parse_outcome(data@) == Ok::<ParsedTables, Seq<char>>(p@),
                Err(msg) => parse_outcome(data@) == Err::<ParsedTables, Seq<char>>(msg@),
            },
    {
        match file_class(data) {
            FileClass::Elf32 => {
                match (read_header32(data), read_sections32(data), read_segments32(data)) {
                    (Some(header), Some(sections), Some(segments)) => Ok(
                        ParsedElf::Elf32(Elf32File { header, sections, segments }),
                    ),
                    _ => Err("failed to parse ELF32"),
                }
            },
            FileClass::Elf64 => {
                match (read_header64(data), read_sections64(data), read_segments64(data)) {
                    (Some(header), Some(sections), Some(segments)) => Ok(
                        ParsedElf::Elf64(Elf64File { header, sections, segments }),
                    ),
                    _ => Err("failed to parse ELF64"),
                }
            },
            FileClass::Archive => Err("not an ELF file"),
            FileClass::Other => Err("not an ELF file"),
            FileClass::Unknown => Err("failed to determine file kind"),
        }
    }

    /// True of the view of a 32-bit image.
    pub fn is_elf32(&self) -> (b: bool)
        ensures
            b == (self@ is Elf32),
    {
        matches!(self, ParsedElf::Elf32(_))
    }

    /// True of the view of a 64-bit image.
    pub fn is_elf64(&self) -> (b: bool)
        ensures
            b == (self@ is Elf64),
    {
        matches!(self, ParsedElf::Elf64(_))
    }

    /// The byte order of the image.
    pub fn endianness(&self) -> (e: Endianness)
        ensures
            e == self@.endianness(),
    {
        let data = match self {
            ParsedElf::Elf32(f) => f.header.e_ident[EI_DATA],
            ParsedElf::Elf64(f) => f.header.e_ident[EI_DATA],
        };
        if data == ELFDATA2MSB {
            Endianness::Big
        } else {
            Endianness::Little
        }
    }

    /// The length of the section header table.
    pub fn section_count(&self) -> (n: usize)
        ensures
            n == self@.section_count(),
    {
        match self {
            ParsedElf::Elf32(f) => f.sections.len(),
            ParsedElf::Elf64(f) => f.sections.len(),
        }
    }

    /// The length of the program header table.
    pub fn program_header_count(&self) -> (n: usize)
        ensures
            n == self@.program_header_count(),
    {
        match self {
            ParsedElf::Elf32(f) => f.segments.len(),
            ParsedElf::Elf64(f) => f.segments.len(),
        }
    }

    /// The index of the section that holds the section names, as the file
    /// header gives it.
    pub fn shstrndx(&self) -> (n: usize)
        ensures
            n == self@.shstrndx(),
    {
        match self {
            ParsedElf::Elf32(f) => f.header.e_shstrndx as usize,
            ParsedElf::Elf64(f) => f.header.e_shstrndx as usize,
        }
    }

    /// The canonical file header: for a 32-bit image the exact
    /// zero-extension of its header, for a 64-bit image the header itself.
    pub fn get_ehdr(&self) -> (h: GElf_Ehdr)
        ensures
            h == self@.ehdr(),
            self matches ParsedElf::Elf32(f) ==> h == widen_ehdr(f.header),
            self matches ParsedElf::Elf64(f) ==> h == f.header,
    {
        match self {
            ParsedElf::Elf32(f) => widen_file_header(&f.header),
            ParsedElf::Elf64(f) => f.header,
        }
    }

    /// The canonical section header at `index`: none at index 0 or past the
    /// end of the table; else, for a 32-bit image the exact zero-extension
    /// of the entry, for a 64-bit image the entry itself.
    pub fn get_shdr(&self, index: usize) -> (s: Option<GElf_Shdr>)
        ensures
            s == self@.shdr(index as int),
            s is Some <==> 0 < index < self@.section_count(),
            s is Some ==> (self matches ParsedElf::Elf32(f) ==> s == Some(
                widen_shdr(f.sections@[index as int]),
            )),
            s is Some ==> (self matches ParsedElf::Elf64(f) ==> s == Some(
                f.sections@[index as int],
            )),
    {
        if index == 0 {
            return None;
        }
        match self {
            ParsedElf::Elf32(f) => {
                if index < f.sections.len() {
                    Some(widen_section_header(&f.sections[index]))
                } else {
                    None
                }
            },
            ParsedElf::Elf64(f) => {
                if index < f.sections.len() {
                    Some(f.sections[index])
                } else {
                    None
                }
            },
        }
    }

    /// The canonical program header at `index`: none past the end of the
    /// table; else, for a 32-bit image the exact zero-extension of the
    /// entry, for a 64-bit image the entry itself.
    pub fn get_phdr(&self, index: usize) -> (p: Option<GElf_Phdr>)
        ensures
            p == self@.phdr(index as int),
            p is Some <==> index < self@.program_header_count(),
            p is Some ==> (self matches ParsedElf::Elf32(f) ==> p == Some(
                widen_phdr(f.segments@[index as int]),
            )),
            p is Some ==> (self matches ParsedElf::Elf64(f) ==> p == Some(
                f.segments@[index as int],
            )),
    {
        match self {
            ParsedElf::Elf32(f) => {
                if index < f.segments.len() {
                    Some(widen_program_header(&f.segments[index]))
                } else {
                    None
                }
            },
            ParsedElf::Elf64(f) => {
                if index < f.segments.len() {
                    Some(f.segments[index])
                } else {
                    None
                }
            },
        }
    }

    /// The bytes that the section at `index` takes in `data`, the image
    /// that this view was decoded from: none where there is no such section
    /// or the image is too short for what the header says.
    pub fn section_data<'a>(&self, index: usize, data: &'a [u8]) -> (bytes: Option<&'a [u8]>)
        ensures
            match bytes {
                Some(b) => self@.section_data(index as int, data@) == Some(b@),
                None => self@.section_data(index as int, data@) is None,
            },
    {
        match self.get_shdr(index) {
            None => None,
            Some(s) => {
                if s.sh_type == SHT_NOBITS {
                    Some(slice_subrange(data, 0, 0))
                } else if s.sh_offset <= data.len() as u64 && s.sh_size <= data.len() as u64
                    - s.sh_offset {
                    let start = s.sh_offset as usize;
                    let end = start + s.sh_size as usize;
                    Some(slice_subrange(data, start, end))
                } else {
                    None
                }
            },
        }
    }
}

/// The tables of a decoded view are never longer than the machine can
/// count.
pub proof fn lemma_view_fits(p: ParsedElf)
    ensures
        p@.fits(),
{
    match p {
        ParsedElf::Elf32(f) => {
            assert(f.sections.len() == f.sections@.len());
            assert(f.segments.len() == f.segments@.len());
        },
        ParsedElf::Elf64(f) => {
            assert(f.sections.len() == f.sections@.len());
            assert(f.segments.len() == f.segments@.len());
        },
    }
}

/// A decoded view as an image handle keeps it.
#[derive(Debug, Clone, PartialEq, Eq)]
pub struct ParsedElfOwned {
    inner: ParsedElf,
}

impl View for ParsedElfOwned {
    type V = ParsedTables;

    closed spec fn view(&self) -> ParsedTables {
        self.inner@
    }
}

impl ParsedElfOwned {
    /// Decodes an image, as [`ParsedElf::parse`] does.
    pub fn new(data: &[u8]) -> (r: Result<Self, &'static str>)
        ensures
            match r {
                Ok(p) => parse_outcome(data@) == Ok::<ParsedTables, Seq<char>>(p@),
                Err(msg) => parse_outcome(data@) == Err::<ParsedTables, Seq<char>>(msg@),
            },
    {
        match ParsedElf::parse(data) {
            Ok(inner) => Ok(ParsedElfOwned { inner }),
            Err(msg) => Err(msg),
        }
    }

    /// The view that is kept.
    pub fn get(&self) -> (p: &ParsedElf)
        ensures
            p@ == self@,
    {
        &self.inner
    }
}

/// A section of an image as a caller holds it: the index of the section in
/// its table, the data descriptor attached to it, if any, and a flags word.
#[derive(Debug, Clone, Copy, PartialEq, Eq)]
pub struct Elf_Scn {
    pub index: usize,
    pub data_list_head: Option<usize>,
    pub flags: u32,
}

impl Elf_Scn {
    /// A handle for the section at `index`, with no data and no flags.
    pub fn new(index: usize) -> (scn: Self)
        ensures
            scn == (Elf_Scn { index, data_list_head: None, flags: 0 }),
    {
        Elf_Scn { index, data_list_head: None, flags: 0 }
    }
}

/// One section of an image that is being built: its bytes and their
/// alignment.
#[derive(Debug, Clone, PartialEq, Eq)]
pub struct NewSection {
    pub data: Vec<u8>,
    pub align: u64,
}

/// What was said so far of an image that is being built.
#[derive(Debug, Clone, PartialEq, Eq)]
pub struct WriteState {
    /// The sections, in the order in which they were added.
    pub sections: Vec<NewSection>,
    /// The section said to hold the section names. Recorded only.
    pub shstrtab_idx: Option<usize>,
    /// The file header handed out for editing. Recorded only.
    pub ehdr64: Option<GElf_Ehdr>,
}

/// The sections of an image that is being built, each as its bytes and
/// their alignment.
pub open spec fn payloads(sections: Seq<NewSection>) -> Seq<(Seq<u8>, u64)> {
    sections.map_values(|s: NewSection| (s.data@, s.align))
}

/// A write state as contracts see it.
pub struct WriteView {
    pub sections: Seq<(Seq<u8>, u64)>,
    pub shstrtab_idx: Option<usize>,
    pub ehdr64: Option<GElf_Ehdr>,
}

impl WriteView {
    /// The write state of an image to which nothing was added yet.
    pub open spec fn empty() -> WriteView {
        WriteView { sections: Seq::empty(), shstrtab_idx: None, ehdr64: None }
    }
}

impl View for WriteState {
    type V = WriteView;

    open spec fn view(&self) -> WriteView {
        WriteView {
            sections: payloads(self.sections@),
            shstrtab_idx: self.shstrtab_idx,
            ehdr64: self.ehdr64,
        }
    }
}

/// True of the file header that a new image hands out for editing: every
/// field and every identification byte zero.
pub open spec fn is_zero_ehdr(h: GElf_Ehdr) -> bool {
    &&& forall|i: int| 0 <= i < 16 ==> h.e_ident@[i] == 0
    &&& h.e_type == 0
    &&& h.e_machine == 0
    &&& h.e_version == 0
    &&& h.e_entry == 0
    &&& h.e_phoff == 0
    &&& h.e_shoff == 0
    &&& h.e_flags == 0
    &&& h.e_ehsize == 0
    &&& h.e_phentsize == 0
    &&& h.e_phnum == 0
    &&& h.e_shentsize == 0
    &&& h.e_shnum == 0
    &&& h.e_shstrndx == 0
}

/// The sections being built after the data attached to one section handle
/// was copied in: unchanged where the handle has no data, the data has no
/// bytes or the handle does not name one of the sections.
pub open spec fn sync_one(
    sections: Seq<(Seq<u8>, u64)>,
    scn: Elf_Scn,
    data: Seq<DataView>,
) -> Seq<(Seq<u8>, u64)> {
    match scn.data_list_head {
        Some(d) => if d < data.len() && data[d as int].buf.len() > 0 && scn.index
            < sections.len() {
            sections.update(scn.index as int, (data[d as int].buf, data[d as int].d_align as u64))
        } else {
            sections
        },
        None => sections,
    }
}

/// The sections being built after the data of each of `handles` was copied
/// in, in the order of the handles.
pub open spec fn sync_all(
    sections: Seq<(Seq<u8>, u64)>,
    handles: Seq<Elf_Scn>,
    data: Seq<DataView>,
) -> Seq<(Seq<u8>, u64)>
    decreases handles.len(),
{
    if handles.len() == 0 {
        sections
    } else {
        sync_one(sync_all(sections, handles.drop_last(), data), handles.last(), data)
    }
}

/// What the first `m` handles of a new image bring about, where section
/// `k` of the image was given handle `k`, and handle `k` has data
/// descriptor `k`, which holds bytes, attached: the first `m` sections hold
/// the bytes and the alignment of their descriptors, and the others are as
/// they were.
pub proof fn lemma_sync_copies_first_payloads(
    sections: Seq<(Seq<u8>, u64)>,
    handles: Seq<Elf_Scn>,
    data: Seq<DataView>,
    m: nat,
)
    requires
        m <= handles.len(),
        handles.len() == sections.len(),
        data.len() == sections.len(),
        sections.len() <= usize::MAX,
        forall|k: int|
            0 <= k < handles.len() ==> {
                &&& (#[trigger] handles[k]).index == k
                &&& handles[k].data_list_head == Some(k as usize)
                &&& data[k].buf.len() > 0
            },
    ensures
        sync_all(sections, handles.take(m as int), data).len() == sections.len(),
        forall|k: int|
            0 <= k < m ==> (#[trigger] sync_all(sections, handles.take(m as int), data)[k]) == (
                data[k].buf,
                data[k].d_align as u64,
            ),
        forall|k: int|
            m <= k < sections.len() ==> (#[trigger] sync_all(
                sections,
                handles.take(m as int),
                data,
            )[k]) == sections[k],
    decreases m,
{
    if m > 0 {
        let shorter = handles.take(m - 1);
        lemma_sync_copies_first_payloads(sections, handles, data, (m - 1) as nat);
        assert(handles.take(m as int).drop_last() =~= shorter);
        assert(handles.take(m as int).last() == handles[m - 1]);
    }
}

/// Where section `k` of a new image was given handle `k`, and handle `k`
/// has data descriptor `k`, which holds bytes, attached, an update makes
/// section `k` hold exactly the bytes and the alignment of descriptor `k`,
/// for every `k`.
pub proof fn lemma_sync_copies_each_payload(
    sections: Seq<(Seq<u8>, u64)>,
    handles: Seq<Elf_Scn>,
    data: Seq<DataView>,
)
    requires
        handles.len() == sections.len(),
        data.len() == sections.len(),
        sections.len() <= usize::MAX,
        forall|k: int|
            0 <= k < handles.len() ==> {
                &&& (#[trigger] handles[k]).index == k
                &&& handles[k].data_list_head == Some(k as usize)
                &&& data[k].buf.len() > 0
            },
    ensures
        sync_all(sections, handles, data) == Seq::new(
            sections.len(),
            |k: int| (data[k].buf, data[k].d_align as u64),
        ),
{
    lemma_sync_copies_first_payloads(sections, handles, data, handles.len());
    assert(handles.take(handles.len() as int) =~= handles);
    assert(sync_all(sections, handles, data) =~= Seq::new(
        sections.len(),
        |k: int| (data[k].buf, data[k].d_align as u64),
    ));
}

/// What an image handle holds, as contracts see it.
pub struct ElfState {
    pub fd: i32,
    pub cmd: ElfCmd,
    /// The backing bytes.
    pub image: Seq<u8>,
    /// The decoded view, once there is one.
    pub parsed: Option<ParsedTables>,
    /// The section handles given out, each at the position that names it.
    pub sections: Seq<Elf_Scn>,
    /// The data descriptors given out, each at the position that names it.
    pub data: Seq<DataView>,
    /// For each data descriptor, whether it was made of the bytes of a
    /// section of the image. Such a descriptor never changes.
    pub materialized: Seq<bool>,
    /// The write state, once there is one.
    pub writer: Option<WriteView>,
}

impl ElfState {
    /// The state of an image over `image` of which nothing was asked yet.
    pub open spec fn fresh(fd: i32, cmd: ElfCmd, image: Seq<u8>) -> ElfState {
        ElfState {
            fd,
            cmd,
            image,
            parsed: None,
            sections: Seq::empty(),
            data: Seq::empty(),
            materialized: Seq::empty(),
            writer: None,
        }
    }

    /// The length of the section table that read-side handles point into.
    pub open spec fn read_count(self) -> nat {
        match self.parsed {
            Some(t) => t.section_count(),
            None => 0,
        }
    }

    /// The number of sections of the image that is being built.
    pub open spec fn write_count(self) -> nat {
        match self.writer {
            Some(w) => w.sections.len(),
            None => 0,
        }
    }

    /// What holds of a data descriptor made of the bytes of a section: byte
    /// type, current version, offset 0, and an alignment of at least 1.
    pub open spec fn is_section_data(data: DataView) -> bool {
        &&& data.d_type == ElfType::ELF_T_BYTE
        &&& data.d_version == 1
        &&& data.d_off == 0
        &&& data.d_align >= 1
    }

    /// True where the backing bytes, the handles and descriptors given out,
    /// the decoded tables and the sections being built are each no more
    /// than the machine can count.
    pub open spec fn fits(self) -> bool {
        &&& self.image.len() <= usize::MAX
        &&& self.sections.len() <= usize::MAX
        &&& self.data.len() <= usize::MAX
        &&& self.parsed matches Some(t) ==> t.fits()
        &&& self.writer matches Some(w) ==> w.sections.len() <= usize::MAX
    }

    /// What holds of every image handle: nothing in it is more than the
    /// machine can count; the decoded view, if there is one, is that of the
    /// backing bytes; every section handle points into the decoded table or
    /// into the sections being built; the data attached to a section is one
    /// of the descriptors given out, and none that was made of the bytes of
    /// a section; and each descriptor that was made so looks it.
    pub open spec fn wf(self) -> bool {
        &&& self.fits()
        &&& self.parsed matches Some(t) ==> parse_outcome(self.image) == Ok::<
            ParsedTables,
            Seq<char>,
        >(t)
        &&& forall|i: int|
            0 <= i < self.sections.len() ==> {
                ||| (#[trigger] self.sections[i]).index < self.read_count()
                ||| self.sections[i].index < self.write_count()
            }
        &&& forall|i: int|
            0 <= i < self.sections.len() ==> (
            (#[trigger] self.sections[i]).data_list_head matches Some(d) ==> d < self.data.len()
                && !self.materialized[d as int])
        &&& self.materialized.len() == self.data.len()
        &&& forall|d: int|
            0 <= d < self.data.len() && #[trigger] self.materialized[d] ==> Self::is_section_data(
                self.data[d],
            )
    }

    /// The state once decoding was tried: with the decoded view where the
    /// backing bytes can be decoded, without one where they cannot.
    pub open spec fn decoded(self) -> ElfState {
        ElfState {
            parsed: match parse_outcome(self.image) {
                Ok(t) => Some(t),
                Err(_) => None,
            },
            ..self
        }
    }

    /// The state with one more section handle, for the section at `index`.
    pub open spec fn with_section(self, index: usize) -> ElfState {
        ElfState {
            sections: self.sections.push(Elf_Scn { index, data_list_head: None, flags: 0 }),
            ..self
        }
    }

    /// The state with one more data descriptor, made of the bytes of a
    /// section or not.
    pub open spec fn with_data(self, data: DataView, materialized: bool) -> ElfState {
        ElfState {
            data: self.data.push(data),
            materialized: self.materialized.push(materialized),
            ..self
        }
    }

    /// The state with section handle `scn` put in place of what was there.
    pub open spec fn with_handle(self, scn: int, handle: Elf_Scn) -> ElfState {
        ElfState { sections: self.sections.update(scn, handle), ..self }
    }

    /// The state with a write state, a new and empty one unless there was
    /// one before.
    pub open spec fn with_writer(self) -> ElfState {
        ElfState {
            writer: match self.writer {
                Some(w) => Some(w),
                None => Some(WriteView::empty()),
            },
            ..self
        }
    }
}

/// Trying to decode a second time changes nothing, and an image that holds
/// a decoded view is not changed by a try at all: the view is made once and
/// kept.
pub proof fn lemma_decoding_is_idempotent(state: ElfState)
    ensures
        state.decoded().decoded() == state.decoded(),
        state.wf() && state.decoded().fits() ==> state.decoded().wf(),
        state.wf() && state.parsed is Some ==> state.decoded() == state,
{
}

/// An image: its backing bytes, the decoded view of them once a query
/// needed it, the section handles and data descriptors given out, and the
/// write state once something was added for writing. Handles and
/// descriptors are named by their position and live as long as the image.
#[derive(Debug)]
pub struct Elf {
    fd: i32,
    cmd: ElfCmd,
    data: Vec<u8>,
    parsed: Option<ParsedElfOwned>,
    section_handles: Vec<Elf_Scn>,
    data_handles: Vec<Elf_Data>,
    materialized: Vec<bool>,
    writer: Option<WriteState>,
}

impl View for Elf {
    type V = ElfState;

    closed spec fn view(&self) -> ElfState {
        ElfState {
            fd: self.fd,
            cmd: self.cmd,
            image: self.data@,
            parsed: match self.parsed {
                Some(p) => Some(p@),
                None => None,
            },
            sections: self.section_handles@,
            data: self.data_handles@.map_values(|d: Elf_Data| d@),
            materialized: self.materialized@,
            writer: match self.writer {
                Some(w) => Some(w@),
                None => None,
            },
        }
    }
}

proof fn lemma_parts_fit(
    data: Vec<u8>,
    sections: Vec<Elf_Scn>,
    descriptors: Vec<Elf_Data>,
    parsed: Option<ParsedElfOwned>,
    writer: Option<WriteState>,
)
    ensures
        data@.len() <= usize::MAX,
        sections@.len() <= usize::MAX,
        descriptors@.len() <= usize::MAX,
        parsed matches Some(p) ==> p@.fits(),
        writer matches Some(w) ==> w@.sections.len() <= usize::MAX,
{
    assert(data.len() == data@.len());
    assert(sections.len() == sections@.len());
    assert(descriptors.len() == descriptors@.len());
    if let Some(p) = parsed {
        lemma_view_fits(p.inner);
    }
    if let Some(w) = writer {
        assert(w.sections.len() == w.sections@.len());
    }
}

impl Elf {
    #[verifier::type_invariant]
    pub(crate) open spec fn inv(self) -> bool {
        self@.wf()
    }

    /// An image over `data`, with nothing decoded and nothing given out.
    pub(crate) fn new(fd: i32, cmd: ElfCmd, data: Vec<u8>) -> (elf: Self)
        ensures
            elf@ == ElfState::fresh(fd, cmd, data@),
            elf@.wf(),
    {
        proof {
            assert(data.len() == data@.len());
        }
        let elf = Elf {
            fd,
            cmd,
            data,
            parsed: None,
            section_handles: Vec::new(),
            data_handles: Vec::new(),
            materialized: Vec::new(),
            writer: None,
        };
        assert(elf@.data =~= Seq::<DataView>::empty());
        elf
    }

    fn take(&mut self) -> (elf: Elf)
        ensures
            elf@ == old(self)@,
            elf@.wf(),
    {
        proof {
            use_type_invariant(&*self);
        }
        let mut elf = Elf::new(self.fd, self.cmd, Vec::new());
        core::mem::swap(self, &mut elf);
        elf
    }

    /// The file descriptor the image was opened on.
    pub fn fd(&self) -> (fd: i32)
        ensures
            fd == self@.fd,
    {
        self.fd
    }

    /// The command the image was opened with.
    pub fn cmd(&self) -> (cmd: ElfCmd)
        ensures
            cmd == self@.cmd,
    {
        self.cmd
    }

    /// The backing bytes.
    pub fn image(&self) -> (bytes: &[u8])
        ensures
            self@.wf(),
            bytes@ == self@.image,
    {
        proof {
            use_type_invariant(self);
        }
        self.data.as_slice()
    }

    /// The decoded view, if there is one yet. It is that of the backing
    /// bytes.
    pub fn parsed(&self) -> (p: Option<&ParsedElf>)
        ensures
            self@.wf(),
            match p {
                Some(view) => self@.parsed == Some(view@),
                None => self@.parsed is None,
            },
    {
        proof {
            use_type_invariant(self);
        }
        match &self.parsed {
            Some(p) => Some(p.get()),
            None => None,
        }
    }

    /// Applies `f` to the decoded view, if there is one yet.
    pub fn with_parsed<T, F: FnOnce(&ParsedElf) -> T>(&self, f: F) -> (r: Option<T>)
        requires
            forall|p: &ParsedElf| self@.parsed == Some(p@) ==> f.requires((p,)),
        ensures
            self@.parsed is None ==> r is None,
            self@.parsed is Some ==> r is Some && exists|p: &ParsedElf|
                self@.parsed == Some(p@) && f.ensures((p,), r.unwrap()),
    {
        match self.parsed() {
            Some(p) => Some(f(p)),
            None => None,
        }
    }

    /// The section handle named `scn`, if there is one.
    pub fn section(&self, scn: usize) -> (handle: Option<Elf_Scn>)
        ensures
            self@.wf(),
            handle == if scn < self@.sections.len() {
                Some(self@.sections[scn as int])
            } else {
                None
            },
    {
        proof {
            use_type_invariant(self);
        }
        if scn < self.section_handles.len() {
            Some(self.section_handles[scn])
        } else {
            None
        }
    }

    /// The number of section handles given out.
    pub fn section_handle_count(&self) -> (n: usize)
        ensures
            n == self@.sections.len(),
    {
        self.section_handles.len()
    }

    /// The data descriptor named `data`, if there is one.
    pub fn data(&self, data: usize) -> (d: Option<&Elf_Data>)
        ensures
            self@.wf(),
            match d {
                Some(found) => data < self@.data.len() && found@ == self@.data[data as int],
                None => data >= self@.data.len(),
            },
    {
        proof {
            use_type_invariant(self);
        }
        if data < self.data_handles.len() {
            Some(&self.data_handles[data])
        } else {
            None
        }
    }

    /// The number of data descriptors given out.
    pub fn data_handle_count(&self) -> (n: usize)
        ensures
            n == self@.data.len(),
    {
        self.data_handles.len()
    }

    /// The write state, if there is one yet.
    pub fn writer(&self) -> (w: Option<&WriteState>)
        ensures
            self@.wf(),
            match w {
                Some(found) => self@.writer == Some(found@),
                None => self@.writer is None,
            },
    {
        proof {
            use_type_invariant(self);
        }
        self.writer.as_ref()
    }

    /// Decodes the backing bytes unless that was done before. True where
    /// the image has a decoded view afterwards; where it has none, the
    /// reason is recorded as an error, and the next call tries again.
    pub fn ensure_parsed(&mut self, errors: &mut ErrorChannel) -> (ok: bool)
        ensures
            ok == (parse_outcome(old(self)@.image) is Ok),
            final(self)@ == old(self)@.decoded(),
            final(self)@.wf(),
            final(errors)@ == match parse_outcome(old(self)@.image) {
                Ok(_) => old(errors)@,
                Err(msg) => old(errors)@.recorded(msg),
            },
    {
        proof {
            use_type_invariant(&*self);
        }
        if self.parsed.is_some() {
            return true;
        }
        match ParsedElfOwned::new(self.data.as_slice()) {
            Ok(parsed) => {
                proof {
                    lemma_view_fits(parsed.inner);
                }
                self.parsed = Some(parsed);
                true
            },
            Err(msg) => {
                set_error(errors, msg);
                false
            },
        }
    }

    /// Gives out one more section handle, for the section at `index`, and
    /// returns its name.
    pub(crate) fn add_section_handle(&mut self, index: usize) -> (scn: usize)
        requires
            index < old(self)@.read_count() || index < old(self)@.write_count(),
        ensures
            scn == old(self)@.sections.len(),
            final(self)@ == old(self)@.with_section(index),
            final(self)@.wf(),
    {
        let Elf { fd, cmd, data, parsed, mut section_handles, data_handles, materialized, writer } =
            self.take();
        let scn = section_handles.len();
        section_handles.push(Elf_Scn::new(index));
        proof {
            lemma_parts_fit(data, section_handles, data_handles, parsed, writer);
        }
        *self = Elf { fd, cmd, data, parsed, section_handles, data_handles, materialized, writer };
        scn
    }

    /// Gives out one more data descriptor and returns its name.
    pub(crate) fn add_data_handle(&mut self, value: Elf_Data, materialized: bool) -> (id: usize)
        requires
            materialized ==> ElfState::is_section_data(value@),
        ensures
            id == old(self)@.data.len(),
            final(self)@ == old(self)@.with_data(value@, materialized),
            final(self)@.wf(),
    {
        let made = materialized;
        let Elf {
            fd,
            cmd,
            data,
            parsed,
            section_handles,
            mut data_handles,
            mut materialized,
            writer,
        } = self.take();
        let id = data_handles.len();
        let ghost before = data_handles@;
        data_handles.push(value);
        materialized.push(made);
        assert(data_handles@.map_values(|d: Elf_Data| d@) =~= before.map_values(
            |d: Elf_Data| d@,
        ).push(value@));
        proof {
            lemma_parts_fit(data, section_handles, data_handles, parsed, writer);
        }
        *self = Elf { fd, cmd, data, parsed, section_handles, data_handles, materialized, writer };
        id
    }

    /// Puts `value` in place of the data descriptor named `id`, which was
    /// not made of the bytes of a section.
    pub(crate) fn replace_data(&mut self, id: usize, value: Elf_Data)
        requires
            id < old(self)@.data.len(),
            !old(self)@.materialized[id as int],
        ensures
            final(self)@ == (ElfState {
                data: old(self)@.data.update(id as int, value@),
                ..old(self)@
            }),
            final(self)@.wf(),
    {
        let Elf { fd, cmd, data, parsed, section_handles, mut data_handles, materialized, writer } =
            self.take();
        let ghost before = data_handles@;
        data_handles.set(id, value);
        assert(data_handles@.map_values(|d: Elf_Data| d@) =~= before.map_values(
            |d: Elf_Data| d@,
        ).update(id as int, value@));
        proof {
            lemma_parts_fit(data, section_handles, data_handles, parsed, writer);
        }
        *self = Elf { fd, cmd, data, parsed, section_handles, data_handles, materialized, writer };
    }

    /// Puts `handle` in place of the section handle named `scn`.
    pub(crate) fn replace_section_handle(&mut self, scn: usize, handle: Elf_Scn)
        requires
            scn < old(self)@.sections.len(),
            handle.index == old(self)@.sections[scn as int].index,
            handle.data_list_head matches Some(d) ==> {
                &&& d < old(self)@.data.len()
                &&& !old(self)@.materialized[d as int]
            },
        ensures
            final(self)@ == old(self)@.with_handle(scn as int, handle),
            final(self)@.wf(),
    {
        let Elf { fd, cmd, data, parsed, mut section_handles, data_handles, materialized, writer } =
            self.take();
        section_handles.set(scn, handle);
        proof {
            lemma_parts_fit(data, section_handles, data_handles, parsed, writer);
        }
        *self = Elf { fd, cmd, data, parsed, section_handles, data_handles, materialized, writer };
    }

    /// Makes the write state unless there is one.
    pub(crate) fn init_writer(&mut self)
        ensures
            final(self)@ == old(self)@.with_writer(),
            final(self)@.wf(),
    {
        proof {
            use_type_invariant(&*self);
        }
        if self.writer.is_none() {
            let w = WriteState { sections: Vec::new(), shstrtab_idx: None, ehdr64: None };
            assert(w@.sections =~= Seq::<(Seq<u8>, u64)>::empty());
            self.writer = Some(w);
        }
    }

    /// Adds a section with no bytes and alignment 1 to the image that is
    /// being built, and returns its index.
    pub(crate) fn add_new_section(&mut self) -> (index: usize)
        requires
            old(self)@.writer is Some,
        ensures
            index == old(self)@.write_count(),
            final(self)@ == (ElfState {
                writer: Some(
                    WriteView {
                        sections: old(self)@.writer.unwrap().sections.push((Seq::empty(), 1u64)),
                        ..old(self)@.writer.unwrap()
                    },
                ),
                ..old(self)@
            }),
            final(self)@.wf(),
    {
        let Elf { fd, cmd, data, parsed, section_handles, data_handles, materialized, writer } =
            self.take();
        let mut w = writer.unwrap();
        let index = w.sections.len();
        let ghost before = w.sections@;
        w.sections.push(NewSection { data: Vec::new(), align: 1 });
        assert(payloads(w.sections@) =~= payloads(before).push((Seq::empty(), 1u64)));
        proof {
            lemma_parts_fit(data, section_handles, data_handles, parsed, Some(w));
        }
        *self = Elf {
            fd,
            cmd,
            data,
            parsed,
            section_handles,
            data_handles,
            materialized,
            writer: Some(w),
        };
        index
    }

    /// Records which section is said to hold the section names.
    pub(crate) fn set_shstrtab_idx(&mut self, idx: usize)
        requires
            old(self)@.writer is Some,
        ensures
            final(self)@ == (ElfState {
                writer: Some(
                    WriteView { shstrtab_idx: Some(idx), ..old(self)@.writer.unwrap() },
                ),
                ..old(self)@
            }),
            final(self)@.wf(),
    {
        let Elf { fd, cmd, data, parsed, section_handles, data_handles, materialized, writer } =
            self.take();
        let mut w = writer.unwrap();
        w.shstrtab_idx = Some(idx);
        proof {
            lemma_parts_fit(data, section_handles, data_handles, parsed, Some(w));
        }
        *self = Elf {
            fd,
            cmd,
            data,
            parsed,
            section_handles,
            data_handles,
            materialized,
            writer: Some(w),
        };
    }

    /// Records `header` as the file header handed out for editing.
    pub(crate) fn set_ehdr64(&mut self, header: GElf_Ehdr)
        requires
            old(self)@.writer is Some,
        ensures
            final(self)@ == (ElfState {
                writer: Some(WriteView { ehdr64: Some(header), ..old(self)@.writer.unwrap() }),
                ..old(self)@
            }),
            final(self)@.wf(),
    {
        let Elf { fd, cmd, data, parsed, section_handles, data_handles, materialized, writer } =
            self.take();
        let mut w = writer.unwrap();
        w.ehdr64 = Some(header);
        proof {
            lemma_parts_fit(data, section_handles, data_handles, parsed, Some(w));
        }
        *self = Elf {
            fd,
            cmd,
            data,
            parsed,
            section_handles,
            data_handles,
            materialized,
            writer: Some(w),
        };
    }

    /// Copies the data attached to each section handle into the section it
    /// names among those being built, handle by handle in the order in
    /// which the handles were given out.
    pub(crate) fn sync_sections(&mut self)
        requires
            old(self)@.writer is Some,
        ensures
            final(self)@ == (ElfState {
                writer: Some(
                    WriteView {
                        sections: sync_all(
                            old(self)@.writer.unwrap().sections,
                            old(self)@.sections,
                            old(self)@.data,
                        ),
                        ..old(self)@.writer.unwrap()
                    },
                ),
                ..old(self)@
            }),
            final(self)@.wf(),
    {
        let Elf { fd, cmd, data, parsed, section_handles, data_handles, materialized, writer } =
            self.take();
        let mut w = writer.unwrap();
        let ghost start = w@.sections;
        let ghost names = w.shstrtab_idx;
        let ghost header = w.ehdr64;
        let ghost views = data_handles@.map_values(|d: Elf_Data| d@);
        let mut i: usize = 0;
        while i < section_handles.len()
            invariant
                i <= section_handles@.len(),
                views == data_handles@.map_values(|d: Elf_Data| d@),
                payloads(w.sections@) == sync_all(start, section_handles@.take(i as int), views),
                w.sections@.len() == start.len(),
                w.shstrtab_idx == names,
                w.ehdr64 == header,
            decreases section_handles@.len() - i,
        {
            let scn = section_handles[i];
            let ghost before = w.sections@;
            if let Some(d) = scn.data_list_head {
                if d < data_handles.len() {
                    let attached = &data_handles[d];
                    if attached.d_buf.len() > 0 && scn.index < w.sections.len() {
                        let copy = slice_to_vec(attached.d_buf.as_slice());
                        w.sections.set(
                            scn.index,
                            NewSection { data: copy, align: attached.d_align as u64 },
                        );
                        assert(payloads(w.sections@) =~= payloads(before).update(
                            scn.index as int,
                            (attached.d_buf@, attached.d_align as u64),
                        ));
                    }
                }
            }
            proof {
                let next = section_handles@.take(i + 1);
                assert(next.drop_last() =~= section_handles@.take(i as int));
                assert(next.last() == scn);
                assert(payloads(w.sections@) == sync_one(payloads(before), scn, views));
            }
            i = i + 1;
        }
        assert(section_handles@.take(i as int) =~= section_handles@);
        proof {
            lemma_parts_fit(data, section_handles, data_handles, parsed, Some(w));
        }
        *self = Elf {
            fd,
            cmd,
            data,
            parsed,
            section_handles,
            data_handles,
            materialized,
            writer: Some(w),
        };
    }
}

} // verus!
