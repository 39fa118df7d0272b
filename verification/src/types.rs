//! The constants of the format, the enumerations of the interface, and
//! the records: those of a 32-bit file as the file holds them, and the
//! canonical ones, as wide as those of a 64-bit file.

use vstd::prelude::*;

verus! {

pub const ELFCLASSNONE: u8 = 0;

pub const ELFCLASS32: u8 = 1;

pub const ELFCLASS64: u8 = 2;

pub const ELFDATANONE: u8 = 0;

pub const ELFDATA2LSB: u8 = 1;

pub const ELFDATA2MSB: u8 = 2;

pub const ET_REL: u16 = 1;

pub const ET_EXEC: u16 = 2;

pub const ET_DYN: u16 = 3;

pub const EV_NONE: u8 = 0;

pub const EV_CURRENT: u8 = 1;

pub const PF_X: u32 = 1;

pub const PF_W: u32 = 2;

pub const PF_R: u32 = 4;

pub const PT_NULL: u32 = 0;

pub const PT_LOAD: u32 = 1;

pub const PT_DYNAMIC: u32 = 2;

pub const PT_INTERP: u32 = 3;

pub const PT_NOTE: u32 = 4;

pub const PT_PHDR: u32 = 6;

pub const SHF_WRITE: u32 = 1;

pub const SHF_ALLOC: u32 = 2;

pub const SHF_EXECINSTR: u32 = 4;

pub const SHN_UNDEF: u16 = 0;

pub const SHN_ABS: u16 = 0xfff1;

pub const SHN_COMMON: u16 = 0xfff2;

pub const SHT_NULL: u32 = 0;

pub const SHT_PROGBITS: u32 = 1;

pub const SHT_SYMTAB: u32 = 2;

pub const SHT_STRTAB: u32 = 3;

pub const SHT_RELA: u32 = 4;

pub const SHT_HASH: u32 = 5;

pub const SHT_DYNAMIC: u32 = 6;

pub const SHT_NOTE: u32 = 7;

pub const SHT_NOBITS: u32 = 8;

pub const SHT_REL: u32 = 9;

pub const SHT_SHLIB: u32 = 10;

pub const SHT_DYNSYM: u32 = 11;

pub const SHT_GNU_VERDEF: u32 = 0x6fff_fffd;

pub const SHT_GNU_VERNEED: u32 = 0x6fff_fffe;

pub const SHT_GNU_VERSYM: u32 = 0x6fff_ffff;

pub const STB_LOCAL: u8 = 0;

pub const STB_GLOBAL: u8 = 1;

pub const STB_WEAK: u8 = 2;

pub const STT_NOTYPE: u8 = 0;

pub const STT_OBJECT: u8 = 1;

pub const STT_FUNC: u8 = 2;

pub const STT_SECTION: u8 = 3;

pub const STT_FILE: u8 = 4;

pub const VER_DEF_CURRENT: u16 = 1;

pub const VER_NEED_CURRENT: u16 = 1;

/// Position of the class byte in the identification bytes of a file header.
pub const EI_CLASS: usize = 4;

/// Position of the data-encoding byte in the identification bytes of a file header.
pub const EI_DATA: usize = 5;

/// What an image turned out to be.
#[derive(Debug, Clone, Copy, PartialEq, Eq, Structural)]
pub enum ElfKind {
    ELF_K_NONE,
    ELF_K_AR,
    ELF_K_COFF,
    ELF_K_ELF,
    ELF_K_NUM,
}

pub const ELF_K_NONE: ElfKind = ElfKind::ELF_K_NONE;

pub const ELF_K_AR: ElfKind = ElfKind::ELF_K_AR;

pub const ELF_K_ELF: ElfKind = ElfKind::ELF_K_ELF;

/// Commands accepted when an image is opened or updated.
#[derive(Debug, Clone, Copy, PartialEq, Eq, Structural)]
pub enum ElfCmd {
    ELF_C_NULL,
    ELF_C_READ,
    ELF_C_RDWR,
    ELF_C_WRITE,
    ELF_C_CLR,
    ELF_C_SET,
    ELF_C_FDDONE,
    ELF_C_FDREAD,
    ELF_C_READ_MMAP,
    ELF_C_RDWR_MMAP,
    ELF_C_WRITE_MMAP,
    ELF_C_READ_MMAP_PRIVATE,
    ELF_C_EMPTY,
    ELF_C_NUM,
}

pub const ELF_C_NULL: ElfCmd = ElfCmd::ELF_C_NULL;

pub const ELF_C_READ: ElfCmd = ElfCmd::ELF_C_READ;

pub const ELF_C_RDWR: ElfCmd = ElfCmd::ELF_C_RDWR;

pub const ELF_C_WRITE: ElfCmd = ElfCmd::ELF_C_WRITE;

pub const ELF_C_READ_MMAP: ElfCmd = ElfCmd::ELF_C_READ_MMAP;

/// Element type tag of a data descriptor.
#[derive(Debug, Clone, Copy, PartialEq, Eq, Structural)]
pub enum ElfType {
    ELF_T_BYTE,
    ELF_T_ADDR,
    ELF_T_DYN,
    ELF_T_EHDR,
    ELF_T_HALF,
    ELF_T_OFF,
    ELF_T_PHDR,
    ELF_T_RELA,
    ELF_T_REL,
    ELF_T_SHDR,
    ELF_T_SWORD,
    ELF_T_SYM,
    ELF_T_WORD,
    ELF_T_XWORD,
    ELF_T_SXWORD,
    ELF_T_VDEF,
    ELF_T_VDAUX,
    ELF_T_VNEED,
    ELF_T_VNAUX,
    ELF_T_NHDR,
    ELF_T_SYMINFO,
    ELF_T_MOVE,
    ELF_T_LIB,
    ELF_T_GNUHASH,
    ELF_T_AUXV,
    ELF_T_CHDR,
    ELF_T_NHDR8,
    ELF_T_NUM,
}

pub const ELF_T_BYTE: ElfType = ElfType::ELF_T_BYTE;

pub const ELF_T_SYM: ElfType = ElfType::ELF_T_SYM;

pub const ELF_F_DIRTY: u32 = 0x1;

pub const ELF_F_LAYOUT: u32 = 0x4;

pub const ELF_F_PERMISSIVE: u32 = 0x8;

/// Byte order of the multi-byte fields of an image.
#[derive(Debug, Clone, Copy, PartialEq, Eq, Structural)]
pub enum Endianness {
    Little,
    Big,
}

/// A data descriptor: a buffer of bytes with its type tag, format version,
/// offset and alignment. The size of the data is the length of the buffer.
#[derive(Debug, Clone, PartialEq, Eq)]
pub struct Elf_Data {
    pub d_buf: Vec<u8>,
    pub d_type: ElfType,
    pub d_version: u32,
    pub d_off: i64,
    pub d_align: usize,
}

/// A data descriptor as contracts see it.
pub struct DataView {
    pub buf: Seq<u8>,
    pub d_type: ElfType,
    pub d_version: u32,
    pub d_off: i64,
    pub d_align: usize,
}

impl View for Elf_Data {
    type V = DataView;

    open spec fn view(&self) -> DataView {
        DataView {
            buf: self.d_buf@,
            d_type: self.d_type,
            d_version: self.d_version,
            d_off: self.d_off,
            d_align: self.d_align,
        }
    }
}

impl DataView {
    /// A descriptor with no bytes, byte type, current version, offset 0 and
    /// alignment 1.
    pub open spec fn blank() -> DataView {
        DataView {
            buf: Seq::empty(),
            d_type: ElfType::ELF_T_BYTE,
            d_version: 1,
            d_off: 0,
            d_align: 1,
        }
    }
}

impl Elf_Data {
    /// The number of bytes the descriptor holds.
    pub fn d_size(&self) -> (n: usize)
        ensures
            n == self.d_buf@.len(),
    {
        self.d_buf.len()
    }

}

impl Default for Elf_Data {
    fn default() -> (d: Self)
        ensures
            d@ == DataView::blank(),
    {
        Elf_Data {
            d_buf: Vec::new(),
            d_type: ElfType::ELF_T_BYTE,
            d_version: 1,
            d_off: 0,
            d_align: 1,
        }
    }
}

/// File header of a 32-bit image, as the image holds it, in host byte order.
#[derive(Debug, Clone, Copy, PartialEq, Eq)]
pub struct Elf32_Ehdr {
    pub e_ident: [u8; 16],
    pub e_type: u16,
    pub e_machine: u16,
    pub e_version: u32,
    pub e_entry: u32,
    pub e_phoff: u32,
    pub e_shoff: u32,
    pub e_flags: u32,
    pub e_ehsize: u16,
    pub e_phentsize: u16,
    pub e_phnum: u16,
    pub e_shentsize: u16,
    pub e_shnum: u16,
    pub e_shstrndx: u16,
}

/// Section header of a 32-bit image, in host byte order.
#[derive(Debug, Clone, Copy, PartialEq, Eq)]
pub struct Elf32_Shdr {
    pub sh_name: u32,
    pub sh_type: u32,
    pub sh_flags: u32,
    pub sh_addr: u32,
    pub sh_offset: u32,
    pub sh_size: u32,
    pub sh_link: u32,
    pub sh_info: u32,
    pub sh_addralign: u32,
    pub sh_entsize: u32,
}

/// Program header of a 32-bit image, in host byte order.
#[derive(Debug, Clone, Copy, PartialEq, Eq)]
pub struct Elf32_Phdr {
    pub p_type: u32,
    pub p_offset: u32,
    pub p_vaddr: u32,
    pub p_paddr: u32,
    pub p_filesz: u32,
    pub p_memsz: u32,
    pub p_flags: u32,
    pub p_align: u32,
}

/// Canonical file header: 64 bits wide whatever the class of the image.
#[derive(Debug, Clone, Copy, PartialEq, Eq)]
pub struct GElf_Ehdr {
    pub e_ident: [u8; 16],
    pub e_type: u16,
    pub e_machine: u16,
    pub e_version: u32,
    pub e_entry: u64,
    pub e_phoff: u64,
    pub e_shoff: u64,
    pub e_flags: u32,
    pub e_ehsize: u16,
    pub e_phentsize: u16,
    pub e_phnum: u16,
    pub e_shentsize: u16,
    pub e_shnum: u16,
    pub e_shstrndx: u16,
}

/// Canonical section header.
#[derive(Debug, Clone, Copy, PartialEq, Eq)]
pub struct GElf_Shdr {
    pub sh_name: u32,
    pub sh_type: u32,
    pub sh_flags: u64,
    pub sh_addr: u64,
    pub sh_offset: u64,
    pub sh_size: u64,
    pub sh_link: u32,
    pub sh_info: u32,
    pub sh_addralign: u64,
    pub sh_entsize: u64,
}

/// Canonical program header.
#[derive(Debug, Clone, Copy, PartialEq, Eq)]
pub struct GElf_Phdr {
    pub p_type: u32,
    pub p_flags: u32,
    pub p_offset: u64,
    pub p_vaddr: u64,
    pub p_paddr: u64,
    pub p_filesz: u64,
    pub p_memsz: u64,
    pub p_align: u64,
}

/// Canonical symbol record.
#[derive(Debug, Clone, Copy, PartialEq, Eq)]
pub struct GElf_Sym {
    pub st_name: u32,
    pub st_info: u8,
    pub st_other: u8,
    pub st_shndx: u16,
    pub st_value: u64,
    pub st_size: u64,
}

/// Canonical note header.
#[derive(Debug, Clone, Copy, PartialEq, Eq)]
pub struct GElf_Nhdr {
    pub n_namesz: u32,
    pub n_descsz: u32,
    pub n_type: u32,
}

/// Canonical version-definition record.
#[derive(Debug, Clone, Copy, PartialEq, Eq)]
pub struct GElf_Verdef {
    pub vd_version: u16,
    pub vd_flags: u16,
    pub vd_ndx: u16,
    pub vd_cnt: u16,
    pub vd_hash: u32,
    pub vd_aux: u32,
    pub vd_next: u32,
}

/// Canonical auxiliary version-definition record.
#[derive(Debug, Clone, Copy, PartialEq, Eq)]
pub struct GElf_Verdaux {
    pub vda_name: u32,
    pub vda_next: u32,
}

/// Canonical version-symbol entry.
#[derive(Debug, Clone, Copy, PartialEq, Eq)]
pub struct GElf_Versym(pub u16);

/// The binding of a symbol: the high four bits of its info byte.
#[inline]
pub fn gelf_st_bind(info: u8) -> (bind: u8)
    ensures
        bind == info / 16,
        bind == info >> 4u8,
{
    assert(info >> 4u8 == info / 16) by (bit_vector);
    info >> 4u8
}

/// The type of a symbol: the low four bits of its info byte.
#[inline]
pub fn gelf_st_type(info: u8) -> (typ: u8)
    ensures
        typ == info % 16,
        typ == info & 0xf,
{
    assert(info & 0xf == info % 16) by (bit_vector);
    info & 0xf
}

/// The info byte whose binding is the low four bits of `bind` and whose
/// type is the low four bits of `typ`.
#[inline]
pub fn gelf_st_info(bind: u8, typ: u8) -> (info: u8)
    ensures
        info == (bind % 16) * 16 + typ % 16,
        info == (bind << 4u8) | (typ & 0xf),
{
    assert(((bind << 4u8) | (typ & 0xf)) == (bind % 16) * 16 + typ % 16) by (bit_vector);
    (bind << 4u8) | (typ & 0xf)
}

/// Same as [`gelf_st_bind`], under its upper-case name.
#[allow(non_snake_case)]
pub fn GELF_ST_BIND(info: u8) -> (bind: u8)
    ensures
        bind == info / 16,
{
    gelf_st_bind(info)
}

/// Same as [`gelf_st_type`], under its upper-case name.
#[allow(non_snake_case)]
pub fn GELF_ST_TYPE(info: u8) -> (typ: u8)
    ensures
        typ == info % 16,
{
    gelf_st_type(info)
}

/// Same as [`gelf_st_info`], under its upper-case name.
#[allow(non_snake_case)]
pub fn GELF_ST_INFO(bind: u8, typ: u8) -> (info: u8)
    ensures
        info == (bind % 16) * 16 + typ % 16,
{
    gelf_st_info(bind, typ)
}

/// Splitting an info byte and joining the parts again gives the byte back,
/// and the parts of a joined byte are the low four bits of what was joined.
pub proof fn lemma_st_info_round_trip(info: u8, bind: u8, typ: u8)
    ensures
        (info / 16 % 16) * 16 + (info % 16) % 16 == info,
        ((bind % 16) * 16 + typ % 16) / 16 == bind % 16,
        ((bind % 16) * 16 + typ % 16) % 16 == typ % 16,
{
}

} // verus!
