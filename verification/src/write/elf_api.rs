//! Adding sections and data to a new image, and laying it out.

use crate::error::{set_error, ErrorChannel};
use crate::handle::{is_zero_ehdr, sync_all, Elf, ElfState, Elf_Scn, ParsedTables, WriteView};
use crate::types::{DataView, ElfCmd, Elf_Data, GElf_Ehdr};
use crate::write::builder::{elf_image, serialize};
use vstd::prelude::*;

verus! {

/// What an update comes to.
#[derive(Debug, Clone, PartialEq, Eq)]
pub enum ElfUpdate {
    /// The update failed; the error was recorded.
    Failed,
    /// The layout was computed: the size in bytes of the image that would
    /// be written.
    Size(u64),
    /// The image to write, in full, to the file descriptor of the handle.
    Write(Vec<u8>),
}

/// An update as contracts see it: the message of the failure, the size, or
/// the bytes to write.
pub enum UpdateView {
    Failed(Seq<char>),
    Size(nat),
    Write(Seq<u8>),
}

/// The sections being built once the data attached to the section handles
/// was copied in.
pub open spec fn synced_sections(state: ElfState) -> Seq<(Seq<u8>, u64)> {
    sync_all(state.writer.unwrap().sections, state.sections, state.data)
}

/// What command `cmd` comes to on an image in state `state`.
pub open spec fn update_outcome(state: ElfState, cmd: ElfCmd) -> UpdateView {
    if state.writer is None {
        UpdateView::Failed("no write state"@)
    } else {
        match cmd {
            ElfCmd::ELF_C_NULL => match elf_image(synced_sections(state)) {
                Some(image) => UpdateView::Size(image.len()),
                None => UpdateView::Failed("failed to compute layout"@),
            },
            ElfCmd::ELF_C_WRITE => if state.fd < 0 {
                UpdateView::Failed("no file descriptor for write"@)
            } else {
                match elf_image(synced_sections(state)) {
                    Some(image) => UpdateView::Write(image),
                    None => UpdateView::Failed("failed to write ELF"@),
                }
            },
            _ => UpdateView::Failed("unsupported command"@),
        }
    }
}

/// The state of an image after an update: the data attached to the section
/// handles copied into the sections being built, where there is a write
/// state; else unchanged.
pub open spec fn updated_state(state: ElfState) -> ElfState {
    match state.writer {
        Some(w) => ElfState {
            writer: Some(WriteView { sections: synced_sections(state), ..w }),
            ..state
        },
        None => state,
    }
}

/// The two sides of an image do not meet. Decoding leaves the write state
/// as it was; an update leaves the backing bytes and the decoded view as
/// they were; and what an update comes to is the same whatever the decoded
/// view.
pub proof fn lemma_read_and_write_are_independent(
    state: ElfState,
    cmd: ElfCmd,
    parsed: Option<ParsedTables>,
)
    ensures
        state.decoded().writer == state.writer,
        updated_state(state).image == state.image,
        updated_state(state).parsed == state.parsed,
        update_outcome(ElfState { parsed, ..state }, cmd) == update_outcome(state, cmd),
        updated_state(ElfState { parsed, ..state }) == (ElfState {
            parsed,
            ..updated_state(state)
        }),
{
}

fn ensure_writer(elf: &mut Elf) -> (ok: bool)
    ensures
        ok,
        final(elf)@ == old(elf)@.with_writer(),
        final(elf)@.wf(),
{
    elf.init_writer();
    true
}

fn zeroed_ehdr() -> (header: GElf_Ehdr)
    ensures
        is_zero_ehdr(header),
{
    GElf_Ehdr {
        e_ident: [0, 0, 0, 0, 0, 0, 0, 0, 0, 0, 0, 0, 0, 0, 0, 0],
        e_type: 0,
        e_machine: 0,
        e_version: 0,
        e_entry: 0,
        e_phoff: 0,
        e_shoff: 0,
        e_flags: 0,
        e_ehsize: 0,
        e_phentsize: 0,
        e_phnum: 0,
        e_shentsize: 0,
        e_shnum: 0,
        e_shstrndx: 0,
    }
}

/// The file header of the image that is being built, for the caller to
/// edit: all zero when first asked for, the same record on every later
/// call. What is written does not depend on it. Makes the write state where
/// there is none.
pub fn elf64_newehdr(elf: &mut Elf) -> (header: GElf_Ehdr)
    ensures
        match old(elf)@.with_writer().writer.unwrap().ehdr64 {
            Some(h) => header == h,
            None => is_zero_ehdr(header),
        },
        final(elf)@ == (ElfState {
            writer: Some(
                WriteView { ehdr64: Some(header), ..old(elf)@.with_writer().writer.unwrap() },
            ),
            ..old(elf)@
        }),
        final(elf)@.wf(),
{
    ensure_writer(elf);
    let kept = match elf.writer() {
        Some(w) => w.ehdr64,
        None => None,
    };
    match kept {
        Some(h) => {
            assert(elf@ == (ElfState {
                writer: Some(WriteView { ehdr64: Some(h), ..elf@.writer.unwrap() }),
                ..elf@
            }));
            h
        },
        None => {
            let header = zeroed_ehdr();
            elf.set_ehdr64(header);
            header
        },
    }
}

/// Adds a section with no bytes to the image that is being built and gives
/// out a handle for it. Makes the write state where there is none.
pub fn elf_newscn(elf: &mut Elf) -> (scn: usize)
    ensures
        scn == old(elf)@.sections.len(),
        final(elf)@ == (ElfState {
            writer: Some(
                WriteView {
                    sections: old(elf)@.with_writer().writer.unwrap().sections.push(
                        (Seq::empty(), 1u64),
                    ),
                    ..old(elf)@.with_writer().writer.unwrap()
                },
            ),
            sections: old(elf)@.sections.push(
                Elf_Scn {
                    index: old(elf)@.write_count() as usize,
                    data_list_head: None,
                    flags: 0,
                },
            ),
            ..old(elf)@
        }),
        final(elf)@.wf(),
{
    ensure_writer(elf);
    let index = elf.add_new_section();
    elf.add_section_handle(index)
}

/// Attaches a new, blank data descriptor to the section handle `scn` in
/// place of what was attached before, and gives out its name. Fails with
/// "invalid argument" where there is no such handle.
pub fn elf_newdata(elf: &mut Elf, scn: usize, errors: &mut ErrorChannel) -> (data: Option<usize>)
    ensures
        final(elf)@.wf(),
        scn < old(elf)@.sections.len() ==> {
            &&& data matches Some(name) && name == old(elf)@.data.len()
            &&& final(elf)@ == old(elf)@.with_data(DataView::blank(), false).with_handle(
                scn as int,
                Elf_Scn { data_list_head: data, ..old(elf)@.sections[scn as int] },
            )
            &&& final(errors)@ == old(errors)@
        },
        scn >= old(elf)@.sections.len() ==> {
            &&& data is None
            &&& final(elf)@ == old(elf)@
            &&& final(errors)@ == old(errors)@.recorded("invalid argument"@)
        },
{
    match elf.section(scn) {
        None => {
            set_error(errors, "invalid argument");
            None
        },
        Some(handle) => {
            let id = elf.add_data_handle(Elf_Data::default(), false);
            elf.replace_section_handle(
                scn,
                Elf_Scn { index: handle.index, data_list_head: Some(id), flags: handle.flags },
            );
            Some(id)
        },
    }
}

/// The data descriptor attached to the section handle `scn`, none where
/// there is no such handle or nothing is attached to it.
pub open spec fn attached_data(state: ElfState, scn: int) -> Option<usize> {
    if 0 <= scn < state.sections.len() {
        state.sections[scn].data_list_head
    } else {
        None
    }
}

/// Puts `value` in place of the data descriptor attached to the section
/// handle `scn`. Fails with "invalid argument", and changes nothing, where
/// there is no such handle or nothing is attached to it. A descriptor that
/// was made of the bytes of a section is never attached, so none of those
/// changes.
pub fn elf_setdata(elf: &mut Elf, scn: usize, value: Elf_Data, errors: &mut ErrorChannel) -> (ok:
    bool)
    ensures
        final(elf)@.wf(),
        ok <==> attached_data(old(elf)@, scn as int) is Some,
        ok ==> {
            &&& final(elf)@ == (ElfState {
                data: old(elf)@.data.update(
                    attached_data(old(elf)@, scn as int).unwrap() as int,
                    value@,
                ),
                ..old(elf)@
            })
            &&& final(errors)@ == old(errors)@
        },
        !ok ==> {
            &&& final(elf)@ == old(elf)@
            &&& final(errors)@ == old(errors)@.recorded("invalid argument"@)
        },
        forall|d: int|
            0 <= d < old(elf)@.data.len() && old(elf)@.materialized[d] ==> final(elf)@.data[d]
                == old(elf)@.data[d],
{
    let attached = match elf.section(scn) {
        Some(handle) => handle.data_list_head,
        None => None,
    };
    match attached {
        Some(id) => {
            elf.replace_data(id, value);
            true
        },
        None => {
            set_error(errors, "invalid argument");
            false
        },
    }
}

/// Records `idx` as the index of the section that holds the section names.
/// What is written does not depend on it. Makes the write state where there
/// is none. Returns 0.
pub fn elf_setshstrndx(elf: &mut Elf, idx: usize) -> (status: i32)
    ensures
        status == 0,
        final(elf)@ == (ElfState {
            writer: Some(
                WriteView { shstrtab_idx: Some(idx), ..old(elf)@.with_writer().writer.unwrap() },
            ),
            ..old(elf)@
        }),
        final(elf)@.wf(),
{
    ensure_writer(elf);
    elf.set_shstrtab_idx(idx);
    0
}

fn fail(errors: &mut ErrorChannel, msg: &str) -> (r: ElfUpdate)
    ensures
        r is Failed,
        final(errors)@ == old(errors)@.recorded(msg@),
{
    set_error(errors, msg);
    ElfUpdate::Failed
}

/// Copies the data attached to each section handle into the section being
/// built that the handle names, then lays the image out. With
/// `ELF_C_NULL` the size of the image is reported; with `ELF_C_WRITE` the
/// image is handed back for the caller to write to the file descriptor of
/// the handle, which must not be negative. Any other command fails, as does
/// an image without a write state and a layout that cannot be had; each
/// failure is recorded with its message.
pub fn elf_update(elf: &mut Elf, cmd: ElfCmd, errors: &mut ErrorChannel) -> (r: ElfUpdate)
    ensures
        final(elf)@ == updated_state(old(elf)@),
        final(elf)@.wf(),
        match update_outcome(old(elf)@, cmd) {
            UpdateView::Failed(msg) => {
                &&& r is Failed
                &&& final(errors)@ == old(errors)@.recorded(msg)
            },
            UpdateView::Size(n) => {
                &&& r matches ElfUpdate::Size(size) && size == n
                &&& final(errors)@ == old(errors)@
            },
            UpdateView::Write(image) => {
                &&& r matches ElfUpdate::Write(v) && v@ == image
                &&& final(errors)@ == old(errors)@
            },
        },
{
    if elf.writer().is_none() {
        return fail(errors, "no write state");
    }
    elf.sync_sections();
    let image = match elf.writer() {
        Some(w) => serialize(&w.sections),
        None => None,
    };
    match cmd {
        ElfCmd::ELF_C_NULL => match image {
            Some(bytes) => ElfUpdate::Size(bytes.len() as u64),
            None => fail(errors, "failed to compute layout"),
        },
        ElfCmd::ELF_C_WRITE => {
            if elf.fd() < 0 {
                return fail(errors, "no file descriptor for write");
            }
            match image {
                Some(bytes) => ElfUpdate::Write(bytes),
                None => fail(errors, "failed to write ELF"),
            }
        },
        _ => fail(errors, "unsupported command"),
    }
}

} // verus!
