//! The read side: opening images, walking sections, and reading what they
//! hold.

pub mod elf_api;
pub mod gelf_api;

pub use elf_api::{
    elf64_getehdr, elf64_getshdr, elf_begin, elf_begin_needs_image, elf_end, elf_flagdata,
    elf_flagshdr, elf_getdata, elf_getphdrnum, elf_getscn, elf_getshdrnum, elf_getshdrstrndx,
    elf_kind, elf_memory, elf_ndxscn, elf_nextscn, elf_rawdata, elf_strptr, elf_version,
};
pub use gelf_api::{
    gelf_getclass, gelf_getehdr, gelf_getnote, gelf_getphdr, gelf_getshdr, gelf_getsym,
    gelf_getverdaux, gelf_getverdef, gelf_getversym, GElf_Note,
};
