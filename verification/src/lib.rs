//! Access to ELF object files through image handles: open a file or an
//! image in memory, walk its sections and program headers, read section
//! data, strings, symbols, version records and notes in one canonical,
//! 64-bit wide form whatever the class and byte order of the file, and
//! build a new image from sections of bytes.
//!
//! An image owns the section handles and data descriptors it gives out;
//! callers name them by position. Failures are reported in the result and
//! recorded in the [`ErrorChannel`] that the caller passes along.

#![allow(non_camel_case_types)]
#![allow(non_upper_case_globals)]

pub mod bytes;
pub mod decode;
pub mod error;
pub mod handle;
pub mod read;
pub mod types;
pub mod write;

pub use error::{
    clear_error, elf_errmsg, elf_errno, get_errno, get_error_ptr, set_error, ErrorChannel,
};
pub use handle::{
    Elf, Elf32File, Elf64File, Elf_Scn, NewSection, ParsedElf, ParsedElfOwned, WriteState,
};
pub use types::{
    Elf32_Ehdr, Elf32_Phdr, Elf32_Shdr, ElfCmd, ElfKind, ElfType, Elf_Data, Endianness,
    GElf_Ehdr, GElf_Nhdr, GElf_Phdr, GElf_Shdr, GElf_Sym, GElf_Verdaux, GElf_Verdef,
    GElf_Versym,
};
pub use write::{
    elf64_newehdr, elf_newdata, elf_newscn, elf_setdata, elf_setshstrndx, elf_update, ElfUpdate,
};
pub use read::{
    elf64_getehdr, elf64_getshdr, elf_begin, elf_begin_needs_image, elf_end, elf_flagdata,
    elf_flagshdr, elf_getdata, elf_getphdrnum, elf_getscn, elf_getshdrnum, elf_getshdrstrndx,
    elf_kind, elf_memory, elf_ndxscn, elf_nextscn, elf_rawdata, elf_strptr, elf_version,
    gelf_getclass, gelf_getehdr, gelf_getnote, gelf_getphdr, gelf_getshdr, gelf_getsym,
    gelf_getverdaux, gelf_getverdef, gelf_getversym, GElf_Note,
};
