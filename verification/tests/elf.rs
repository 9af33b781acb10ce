use elfasm::elf::{ELFClass, ELFHeader, ELFProgramHeader, ELFProgramHeaderType};
use elfasm::Endianness;

#[test]
fn elf_header() {
    let result = vec![
        0x7F, 0x45, 0x4C, 0x46, // e_ident[EI_MAG]
        0x01, // e_ident[EI_CLASS]
        0x01, // e_ident[EI_DATA]
        0x01, // e_ident[EI_VERSION]
        0x00, // e_ident[EI_OSABI]
        0x00, // e_ident[EI_ABIVERSION]
        0x00, 0x00, 0x00, // e_ident[EI_PAD]
        0x00, 0x00, 0x00, 0x00, // e_ident[EI_PAD]
        0x02, 0x00, // e_type
        0x03, 0x00, // e_machine
        0x01, 0x00, 0x00, 0x00, // e_version
        0x54, 0x80, 0x04, 0x08, // e_entry
        0x34, 0x00, 0x00, 0x00, // e_phoff
        0x00, 0x00, 0x00, 0x00, // e_shoff
        0x00, 0x00, 0x00, 0x00, // e_flags
        0x34, 0x00, // e_ehsize
        0x20, 0x00, // e_phentsize
        0x01, 0x00, // e_phnum
        0x28, 0x00, // e_shentsize
        0x00, 0x00, // e_shnum
        0x00, 0x00, // e_shstrndx
    ];

    let header = ELFHeader::new_x86(0x08048054);

    assert_eq!(header.len(), 0x34);
    assert_eq!(header.as_vec(), result);
}

#[test]
fn elf_program_header() {
    // p_memsz is the fixed oversized bound 0x40000000 and p_flags grants
    // read, write and execute, as the format of this assembler fixes them.
    let result = vec![
        0x01, 0x00, 0x00, 0x00, // p_type
        0x54, 0x00, 0x00, 0x00, // p_offset
        0x54, 0x80, 0x04, 0x08, // p_vaddr
        0x00, 0x00, 0x00, 0x00, // p_paddr
        0x0C, 0x00, 0x00, 0x00, // p_filesz
        0x00, 0x00, 0x00, 0x40, // p_memsz
        0x07, 0x00, 0x00, 0x00, // p_flags
        0x00, 0x10, 0x00, 0x00, // p_align
    ];

    let ph = ELFProgramHeader {
        class: ELFClass::X86,
        p_type: ELFProgramHeaderType::Loadable,
        p_offset: 0x54,
        p_vaddr: 0x08048054,
        p_filesz: 0x0C,
    };

    assert_eq!(ph.len(), 0x20);
    assert_eq!(ph.as_vec(Endianness::Little), result);
}

#[test]
fn qword_and_word_forms() {
    assert_eq!(elfasm::utils::dump_word(0x1234, Endianness::Big), [0x12, 0x34]);
    assert_eq!(elfasm::utils::dump_word(0x1234, Endianness::Little), [0x34, 0x12]);
    assert_eq!(
        elfasm::utils::dump_dword(0x12345678, Endianness::Big),
        [0x12, 0x34, 0x56, 0x78]
    );
    assert_eq!(
        elfasm::utils::dump_dword(0x12345678, Endianness::Little),
        [0x78, 0x56, 0x34, 0x12]
    );
    assert_eq!(
        elfasm::utils::dump_qword(0x0102030405060708, Endianness::Big),
        [0x01, 0x02, 0x03, 0x04, 0x05, 0x06, 0x07, 0x08]
    );
    assert_eq!(
        elfasm::utils::dump_qword(0x0102030405060708, Endianness::Little),
        [0x08, 0x07, 0x06, 0x05, 0x04, 0x03, 0x02, 0x01]
    );
}
