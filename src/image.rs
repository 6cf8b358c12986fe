use vstd::prelude::*;

verus! {

#[verifier::external_type_specification]
#[verifier::external_body]
pub struct ExParseError(elf::ParseError);

/// The section called `name` in an ELF image: `None` when the image does not
/// parse, `Some(None)` when it has no such section, else the section's load
/// address and contents.
pub uninterp spec fn elf_section(image: Seq<u8>, name: Seq<char>) -> Option<Option<(u64, Seq<u8>)>>;

/// Relies on `elf::ElfBytes::minimal_parse`, `ElfBytes::section_header_by_name`
/// and `ElfBytes::section_data` to find the section called `name` and hand
/// out its address (`sh_addr`) and bytes. All three read the image and the
/// name alone, so the result depends on those only.
#[verifier::external_body]
pub(crate) fn section_by_name(image: &[u8], name: &str) -> (r: Result<
    Option<(u64, Vec<u8>)>,
    elf::ParseError,
>)
    ensures
        r is Err ==> elf_section(image@, name@) is None,
        r matches Ok(None) ==> elf_section(image@, name@) == Some(None::<(u64, Seq<u8>)>),
        r matches Ok(Some(s)) ==> elf_section(image@, name@) == Some(Some((s.0, s.1@))),
{
    let file = elf::ElfBytes::<elf::endian::AnyEndian>::minimal_parse(image)?;
    match file.section_header_by_name(name)? {
        None => Ok(None),
        Some(shdr) => {
            let (data, _) = file.section_data(&shdr)?;
            Ok(Some((shdr.sh_addr, data.to_vec())))
        },
    }
}

} // verus!
