use coinflip::error::ProgramError;
use coinflip::instruction::{system_program_id, AccountMeta, GameInstruction, Instruction};
use coinflip::pubkey::Pubkey;

fn key(fill: u8) -> Pubkey {
    Pubkey::new_from_array([fill; 32])
}

fn samples() -> Vec<GameInstruction> {
    vec![
        GameInstruction::CreateGame { bet_amount: 1000, choice: true },
        GameInstruction::CreateGame { bet_amount: 0, choice: false },
        GameInstruction::CreateGame { bet_amount: u64::MAX, choice: true },
        GameInstruction::JoinGame { game_id: 0 },
        GameInstruction::JoinGame { game_id: 0x0102_0304_0506_0708 },
        GameInstruction::CompleteGame { game_id: 5, seed: [0x5a; 32], result: true },
        GameInstruction::CompleteGame { game_id: u64::MAX, seed: [0; 32], result: false },
        GameInstruction::CancelGame { game_id: 9 },
    ]
}

#[test]
fn create_game_bytes() {
    let bytes = GameInstruction::CreateGame { bet_amount: 1000, choice: true }.to_vec();
    assert_eq!(bytes, vec![0, 0xe8, 0x03, 0, 0, 0, 0, 0, 0, 1]);
}

#[test]
fn join_game_bytes() {
    let bytes = GameInstruction::JoinGame { game_id: 258 }.to_vec();
    assert_eq!(bytes, vec![1, 2, 1, 0, 0, 0, 0, 0, 0]);
}

#[test]
fn complete_game_bytes() {
    let bytes =
        GameInstruction::CompleteGame { game_id: 3, seed: [0x77; 32], result: false }.to_vec();
    let mut expected = vec![2u8, 3, 0, 0, 0, 0, 0, 0, 0];
    expected.extend_from_slice(&[0x77; 32]);
    expected.push(0);
    assert_eq!(bytes.len(), 42);
    assert_eq!(bytes, expected);
}

#[test]
fn cancel_game_bytes() {
    let bytes = GameInstruction::CancelGame { game_id: u64::MAX }.to_vec();
    assert_eq!(bytes, vec![3, 255, 255, 255, 255, 255, 255, 255, 255]);
}

#[test]
fn instructions_round_trip() {
    for instruction in samples() {
        assert_eq!(GameInstruction::try_from_slice(&instruction.to_vec()), Ok(instruction));
    }
}

#[test]
fn instruction_bytes_are_those_of_borsh() {
    assert_eq!(
        GameInstruction::CreateGame { bet_amount: 77, choice: true }.to_vec(),
        borsh::to_vec(&(0u8, 77u64, true)).unwrap()
    );
    assert_eq!(
        GameInstruction::JoinGame { game_id: 12345 }.to_vec(),
        borsh::to_vec(&(1u8, 12345u64)).unwrap()
    );
    assert_eq!(
        GameInstruction::CompleteGame { game_id: 1 << 40, seed: [3; 32], result: true }.to_vec(),
        borsh::to_vec(&(2u8, 1u64 << 40, [3u8; 32], true)).unwrap()
    );
    assert_eq!(
        GameInstruction::CancelGame { game_id: 6 }.to_vec(),
        borsh::to_vec(&(3u8, 6u64)).unwrap()
    );
}

#[test]
fn empty_data_is_no_instruction() {
    assert_eq!(GameInstruction::try_from_slice(&[]), Err(ProgramError::InvalidInstructionData));
}

#[test]
fn unknown_tag_is_no_instruction() {
    for tag in [4u8, 5, 100, 255] {
        let mut bytes = vec![tag];
        bytes.extend_from_slice(&[0; 8]);
        assert_eq!(
            GameInstruction::try_from_slice(&bytes),
            Err(ProgramError::InvalidInstructionData)
        );
        assert_eq!(
            GameInstruction::try_from_slice(&[tag]),
            Err(ProgramError::InvalidInstructionData)
        );
    }
}

#[test]
fn truncated_payload_is_no_instruction() {
    for instruction in samples() {
        let bytes = instruction.to_vec();
        for cut in 0..bytes.len() {
            assert_eq!(
                GameInstruction::try_from_slice(&bytes[..cut]),
                Err(ProgramError::InvalidInstructionData)
            );
        }
    }
}

#[test]
fn trailing_bytes_are_no_instruction() {
    for instruction in samples() {
        let mut bytes = instruction.to_vec();
        bytes.push(0);
        assert_eq!(
            GameInstruction::try_from_slice(&bytes),
            Err(ProgramError::InvalidInstructionData)
        );
    }
}

#[test]
fn truth_values_must_be_zero_or_one() {
    let mut bytes = GameInstruction::CreateGame { bet_amount: 1, choice: true }.to_vec();
    bytes[9] = 2;
    assert_eq!(GameInstruction::try_from_slice(&bytes), Err(ProgramError::InvalidInstructionData));
    let mut bytes =
        GameInstruction::CompleteGame { game_id: 1, seed: [1; 32], result: true }.to_vec();
    bytes[41] = 255;
    assert_eq!(GameInstruction::try_from_slice(&bytes), Err(ProgramError::InvalidInstructionData));
}

#[test]
fn a_payload_of_another_shape_is_no_instruction() {
    let mut bytes = GameInstruction::JoinGame { game_id: 1 }.to_vec();
    bytes[0] = 0;
    assert_eq!(GameInstruction::try_from_slice(&bytes), Err(ProgramError::InvalidInstructionData));
    let mut bytes = GameInstruction::CreateGame { bet_amount: 1, choice: false }.to_vec();
    bytes[0] = 1;
    assert_eq!(GameInstruction::try_from_slice(&bytes), Err(ProgramError::InvalidInstructionData));
    bytes[0] = 2;
    assert_eq!(GameInstruction::try_from_slice(&bytes), Err(ProgramError::InvalidInstructionData));
}

#[test]
fn system_program_is_all_zero() {
    assert_eq!(system_program_id(), key(0));
    assert_eq!(
        system_program_id().to_bytes(),
        solana_program::system_program::id().to_bytes()
    );
}

#[test]
fn account_meta_constructors() {
    assert_eq!(
        AccountMeta::new(key(1), true),
        AccountMeta { pubkey: key(1), is_signer: true, is_writable: true }
    );
    assert_eq!(
        AccountMeta::new_readonly(key(2), false),
        AccountMeta { pubkey: key(2), is_signer: false, is_writable: false }
    );
}

#[test]
fn create_game_request() {
    let request = GameInstruction::create_game(&key(9), &key(1), &key(2), &key(3), 1000, true);
    assert_eq!(
        request,
        Instruction {
            program_id: key(9),
            accounts: vec![
                AccountMeta { pubkey: key(1), is_signer: false, is_writable: true },
                AccountMeta { pubkey: key(2), is_signer: true, is_writable: true },
                AccountMeta { pubkey: key(3), is_signer: false, is_writable: true },
                AccountMeta { pubkey: key(0), is_signer: false, is_writable: false },
            ],
            data: vec![0, 0xe8, 0x03, 0, 0, 0, 0, 0, 0, 1],
        }
    );
    assert_eq!(
        GameInstruction::try_from_slice(&request.data),
        Ok(GameInstruction::CreateGame { bet_amount: 1000, choice: true })
    );
}

#[test]
fn join_game_request() {
    let request = GameInstruction::join_game(&key(9), &key(1), &key(2), 4);
    assert_eq!(
        request,
        Instruction {
            program_id: key(9),
            accounts: vec![
                AccountMeta { pubkey: key(1), is_signer: false, is_writable: true },
                AccountMeta { pubkey: key(2), is_signer: true, is_writable: true },
                AccountMeta { pubkey: key(0), is_signer: false, is_writable: false },
            ],
            data: vec![1, 4, 0, 0, 0, 0, 0, 0, 0],
        }
    );
}

#[test]
fn complete_game_request() {
    let request =
        GameInstruction::complete_game(&key(9), &key(1), &key(5), &key(2), 4, [8; 32], true);
    assert_eq!(request.program_id, key(9));
    assert_eq!(
        request.accounts,
        vec![
            AccountMeta { pubkey: key(1), is_signer: false, is_writable: true },
            AccountMeta { pubkey: key(5), is_signer: true, is_writable: false },
            AccountMeta { pubkey: key(2), is_signer: false, is_writable: true },
        ]
    );
    assert_eq!(
        GameInstruction::try_from_slice(&request.data),
        Ok(GameInstruction::CompleteGame { game_id: 4, seed: [8; 32], result: true })
    );
}

#[test]
fn cancel_game_request() {
    let request = GameInstruction::cancel_game(&key(9), &key(1), &key(2), 4);
    assert_eq!(
        request,
        Instruction {
            program_id: key(9),
            accounts: vec![
                AccountMeta { pubkey: key(1), is_signer: false, is_writable: true },
                AccountMeta { pubkey: key(2), is_signer: true, is_writable: true },
                AccountMeta { pubkey: key(0), is_signer: false, is_writable: false },
            ],
            data: vec![3, 4, 0, 0, 0, 0, 0, 0, 0],
        }
    );
}
