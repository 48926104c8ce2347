use nes_core::opcode::{decode, AddressingMode, Mnemonic};

#[test]
fn decode_documented_and_undocumented() {
    let lda = decode(0xa9).unwrap();
    assert_eq!(lda.mnemonic, Mnemonic::LDA);
    assert_eq!(lda.mode, AddressingMode::Immediate);
    assert_eq!(lda.bytes, 2);
    assert_eq!(lda.cycles, 2);
    let jmp = decode(0x6c).unwrap();
    assert_eq!(jmp.mnemonic, Mnemonic::JMP);
    assert_eq!(jmp.bytes, 3);
    assert_eq!(decode(0x02), None);
    assert_eq!(decode(0xff), None);
    let count = (0..=255u8).filter(|b| decode(*b).is_some()).count();
    assert_eq!(count, 151);
}
