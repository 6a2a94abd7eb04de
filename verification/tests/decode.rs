use chip8::{decode, Instruction};

#[test]
fn decodes_the_zero_family() {
    assert_eq!(decode(0x00E0), Some(Instruction::ClearScreen));
    assert_eq!(decode(0x00EE), Some(Instruction::Return));
    assert_eq!(decode(0x0000), None);
    assert_eq!(decode(0x00E1), None);
    assert_eq!(decode(0x0123), None);
    assert_eq!(decode(0x0FFF), None);
}

#[test]
fn decodes_addresses() {
    assert_eq!(decode(0x1ABC), Some(Instruction::Jump { addr: 0xABC }));
    assert_eq!(decode(0x2FFF), Some(Instruction::Call { addr: 0xFFF }));
    assert_eq!(decode(0xA000), Some(Instruction::LoadIndex { addr: 0x000 }));
    assert_eq!(decode(0xB123), Some(Instruction::JumpOffset { addr: 0x123 }));
}

#[test]
fn decodes_register_and_byte() {
    assert_eq!(decode(0x3A12), Some(Instruction::SkipEqByte { x: 0xA, kk: 0x12 }));
    assert_eq!(decode(0x4BFF), Some(Instruction::SkipNeByte { x: 0xB, kk: 0xFF }));
    assert_eq!(decode(0x6C00), Some(Instruction::LoadByte { x: 0xC, kk: 0x00 }));
    assert_eq!(decode(0x7D34), Some(Instruction::AddByte { x: 0xD, kk: 0x34 }));
    assert_eq!(decode(0xCE0F), Some(Instruction::Random { x: 0xE, kk: 0x0F }));
}

#[test]
fn decodes_two_registers() {
    assert_eq!(decode(0x5120), Some(Instruction::SkipEqReg { x: 1, y: 2 }));
    assert_eq!(decode(0x5121), None);
    assert_eq!(decode(0x9340), Some(Instruction::SkipNeReg { x: 3, y: 4 }));
    assert_eq!(decode(0x934F), None);
    assert_eq!(decode(0xD123), Some(Instruction::Draw { x: 1, y: 2, n: 3 }));
    assert_eq!(decode(0xDFE0), Some(Instruction::Draw { x: 0xF, y: 0xE, n: 0 }));
}

#[test]
fn decodes_the_eight_family() {
    assert_eq!(decode(0x8AB0), Some(Instruction::Move { x: 0xA, y: 0xB }));
    assert_eq!(decode(0x8AB1), Some(Instruction::Or { x: 0xA, y: 0xB }));
    assert_eq!(decode(0x8AB2), Some(Instruction::And { x: 0xA, y: 0xB }));
    assert_eq!(decode(0x8AB3), Some(Instruction::Xor { x: 0xA, y: 0xB }));
    assert_eq!(decode(0x8AB4), Some(Instruction::AddReg { x: 0xA, y: 0xB }));
    assert_eq!(decode(0x8AB5), Some(Instruction::Sub { x: 0xA, y: 0xB }));
    assert_eq!(decode(0x8AB6), Some(Instruction::ShiftRight { x: 0xA }));
    assert_eq!(decode(0x8AB7), Some(Instruction::SubFrom { x: 0xA, y: 0xB }));
    assert_eq!(decode(0x8ABE), Some(Instruction::ShiftLeft { x: 0xA }));
    for n in [0x8u16, 0x9, 0xA, 0xB, 0xC, 0xD, 0xF] {
        assert_eq!(decode(0x8AB0 | n), None);
    }
}

#[test]
fn decodes_the_key_family() {
    assert_eq!(decode(0xE59E), Some(Instruction::SkipKeyDown { x: 5 }));
    assert_eq!(decode(0xE5A1), Some(Instruction::SkipKeyUp { x: 5 }));
    assert_eq!(decode(0xE59F), None);
    assert_eq!(decode(0xE500), None);
}

#[test]
fn decodes_the_f_family() {
    assert_eq!(decode(0xF207), Some(Instruction::ReadDelay { x: 2 }));
    assert_eq!(decode(0xF20A), Some(Instruction::WaitKey { x: 2 }));
    assert_eq!(decode(0xF215), Some(Instruction::SetDelay { x: 2 }));
    assert_eq!(decode(0xF218), Some(Instruction::SetSound { x: 2 }));
    assert_eq!(decode(0xF21E), Some(Instruction::AddIndex { x: 2 }));
    assert_eq!(decode(0xF229), Some(Instruction::FontAddress { x: 2 }));
    assert_eq!(decode(0xF233), Some(Instruction::StoreBcd { x: 2 }));
    assert_eq!(decode(0xF255), Some(Instruction::StoreRegs { x: 2 }));
    assert_eq!(decode(0xF265), Some(Instruction::LoadRegs { x: 2 }));
    assert_eq!(decode(0xF200), None);
    assert_eq!(decode(0xF2FF), None);
    assert_eq!(decode(0xF234), None);
}

#[test]
fn every_word_decodes_to_fields_in_range() {
    let mut known = 0u32;
    for op in 0..=0xFFFFu16 {
        match decode(op) {
            Some(Instruction::Jump { addr })
            | Some(Instruction::Call { addr })
            | Some(Instruction::LoadIndex { addr })
            | Some(Instruction::JumpOffset { addr }) => {
                assert_eq!(addr, op & 0xFFF);
                known += 1;
            }
            Some(Instruction::Draw { x, y, n }) => {
                assert_eq!(x as u16, (op >> 8) & 0xF);
                assert_eq!(y as u16, (op >> 4) & 0xF);
                assert_eq!(n as u16, op & 0xF);
                known += 1;
            }
            Some(Instruction::LoadByte { x, kk }) => {
                assert_eq!(x as u16, (op >> 8) & 0xF);
                assert_eq!(kk as u16, op & 0xFF);
                known += 1;
            }
            Some(_) => known += 1,
            None => {}
        }
    }
    // 2 + 4 * 4096 (1, 2, A, B) + 6 * 4096 (3, 4, 6, 7, C, D) + 2 * 256 (5, 9)
    // + 9 * 256 (8) + 2 * 16 (E) + 9 * 16 (F)
    assert_eq!(known, 2 + 10 * 4096 + 11 * 256 + 11 * 16);
}
