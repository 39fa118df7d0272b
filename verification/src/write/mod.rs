//! The write side: a new image from sections of bytes.

pub mod builder;
pub mod elf_api;

pub use elf_api::{
    elf64_newehdr, elf_newdata, elf_newscn, elf_setdata, elf_setshstrndx, elf_update, ElfUpdate,
};
