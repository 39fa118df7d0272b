//! The calls into the writer of the `object` crate that lay out a new
//! image. Nothing in this file is proved but `serialize`; each of the other
//! functions states what it takes from `object` on trust.

use crate::handle::{payloads, NewSection};
use vstd::prelude::*;
use vstd::slice::slice_to_vec;

verus! {

/// `object::write::Object`, the object file that the writer builds up.
/// Nothing is known of what is inside; what the wrappers below say of it,
/// they say through `object_sections`.
#[verifier::external_type_specification]
#[verifier::external_body]
pub struct ExObject<'a>(object::write::Object<'a>);

/// The sections of an object under construction, in the order in which they
/// were added, each as its bytes and their alignment.
pub uninterp spec fn object_sections(obj: object::write::Object<'static>) -> Seq<(Seq<u8>, u64)>;

/// The image that `object::write::Object::write` lays out for a little-endian
/// x86-64 ELF object that has the given data sections, without names, and
/// nothing else; `None` where it reports an error.
pub uninterp spec fn written_image(sections: Seq<(Seq<u8>, u64)>) -> Option<Seq<u8>>;

/// True of 1, 2, 4, 8 and so on.
pub open spec fn is_power_of_two(align: u64) -> bool {
    align != 0 && align & ((align - 1) as u64) == 0
}

/// True where every alignment is a power of two.
pub open spec fn all_aligned(sections: Seq<(Seq<u8>, u64)>) -> bool {
    forall|i: int| 0 <= i < sections.len() ==> is_power_of_two((#[trigger] sections[i]).1)
}

/// The image of the sections of a new file: that of the writer where every
/// alignment is a power of two, none where one is not.
pub open spec fn elf_image(sections: Seq<(Seq<u8>, u64)>) -> Option<Seq<u8>> {
    if all_aligned(sections) {
        written_image(sections)
    } else {
        None
    }
}

/// Calls `object::write::Object::new` for a little-endian x86-64 ELF
/// object. On trust: the new object has no sections.
#[verifier::external_body]
pub(crate) fn new_object() -> (obj: object::write::Object<'static>)
    ensures
        object_sections(obj) == Seq::<(Seq<u8>, u64)>::empty(),
{
    object::write::Object::new(
        object::BinaryFormat::Elf,
        object::Architecture::X86_64,
        object::Endianness::Little,
    )
}

/// Calls `Object::add_section` for a data section without segment or name,
/// then `Object::set_section_data` on that section. On trust: the object has
/// one more section, the last, with these bytes and this alignment, and the
/// others are as they were. `set_section_data` wants a power of two.
#[verifier::external_body]
pub(crate) fn add_data_section(obj: &mut object::write::Object<'static>, data: Vec<u8>, align: u64)
    requires
        is_power_of_two(align),
    ensures
        object_sections(*final(obj)) == object_sections(*old(obj)).push((data@, align)),
{
    let id = obj.add_section(Vec::new(), Vec::new(), object::SectionKind::Data);
    obj.set_section_data(id, data, align);
}

/// Calls `Object::write`. On trust: what comes back depends only on the
/// sections of the object, for an object made by `new_object` and filled by
/// `add_data_section`. The writer keeps the whole image in memory.
#[verifier::external_body]
pub(crate) fn write_object(obj: &object::write::Object<'static>) -> (image: Option<Vec<u8>>)
    ensures
        match image {
            Some(v) => written_image(object_sections(*obj)) == Some(v@),
            None => written_image(object_sections(*obj)) is None,
        },
{
    obj.write().ok()
}

fn power_of_two(align: u64) -> (b: bool)
    ensures
        b == is_power_of_two(align),
{
    align != 0 && (align & (align - 1)) == 0
}

/// Lays out the image of a new file with the given sections.
pub fn serialize(sections: &Vec<NewSection>) -> (image: Option<Vec<u8>>)
    ensures
        match image {
            Some(v) => elf_image(payloads(sections@)) == Some(v@),
            None => elf_image(payloads(sections@)) is None,
        },
{
    let ghost all = payloads(sections@);
    let mut i: usize = 0;
    while i < sections.len()
        invariant
            i <= sections@.len(),
            all == payloads(sections@),
            forall|j: int| 0 <= j < i ==> is_power_of_two((#[trigger] all[j]).1),
        decreases sections@.len() - i,
    {
        if !power_of_two(sections[i].align) {
            assert(!is_power_of_two(all[i as int].1));
            return None;
        }
        i = i + 1;
    }
    let mut obj = new_object();
    let mut k: usize = 0;
    while k < sections.len()
        invariant
            k <= sections@.len(),
            all == payloads(sections@),
            all_aligned(all),
            object_sections(obj) == all.take(k as int),
        decreases sections@.len() - k,
    {
        let s = &sections[k];
        assert(is_power_of_two(all[k as int].1));
        add_data_section(&mut obj, slice_to_vec(s.data.as_slice()), s.align);
        assert(all.take(k + 1) =~= all.take(k as int).push(all[k as int]));
        k = k + 1;
    }
    assert(all.take(k as int) =~= all);
    write_object(&obj)
}

} // verus!
