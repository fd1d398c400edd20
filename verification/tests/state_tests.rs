use coinflip::error::ProgramError;
use coinflip::pubkey::Pubkey;
use coinflip::state::{Game, GameAccount, GameServiceAccount, GameState};

fn key(fill: u8) -> Pubkey {
    Pubkey::new_from_array([fill; 32])
}

fn created_game() -> GameAccount {
    GameAccount {
        is_initialized: true,
        game: Game {
            id: 7,
            player1: key(0x11),
            player2: None,
            bet_amount: 1000,
            state: GameState::Created,
            created_at: 1_700_000_000,
            service_hash: [0; 32],
            player1_choice: true,
        },
    }
}

fn joined_game() -> GameAccount {
    let mut record = created_game();
    record.game.player2 = Some(key(0x22));
    record.game.state = GameState::Joined;
    record.game.service_hash = [0xab; 32];
    record.game.player1_choice = false;
    record
}

fn borsh_bytes(record: &GameAccount) -> Vec<u8> {
    let g = &record.game;
    borsh::to_vec(&(
        record.is_initialized,
        g.id,
        g.player1.to_bytes(),
        g.player2.map(|k| k.to_bytes()),
        g.bet_amount,
        g.state.tag(),
        g.created_at,
        g.service_hash,
        g.player1_choice,
    ))
    .unwrap()
}

#[test]
fn lengths_of_the_account_buffers() {
    assert_eq!(GameAccount::LEN, 1 + 8 + 32 + 1 + 32 + 8 + 1 + 8 + 32 + 1);
    assert_eq!(GameAccount::LEN, 124);
    assert_eq!(GameServiceAccount::LEN, 1 + 32 + 8);
}

#[test]
fn state_tags() {
    assert_eq!(GameState::Created.tag(), 0);
    assert_eq!(GameState::Joined.tag(), 1);
    assert_eq!(GameState::Completed.tag(), 2);
    assert_eq!(GameState::Cancelled.tag(), 3);
    assert_eq!(GameState::from_tag(0), Some(GameState::Created));
    assert_eq!(GameState::from_tag(1), Some(GameState::Joined));
    assert_eq!(GameState::from_tag(2), Some(GameState::Completed));
    assert_eq!(GameState::from_tag(3), Some(GameState::Cancelled));
    assert_eq!(GameState::from_tag(4), None);
    assert_eq!(GameState::from_tag(255), None);
}

#[test]
fn game_without_second_player_layout() {
    let bytes = created_game().to_vec();
    let mut expected = vec![1u8];
    expected.extend_from_slice(&7u64.to_le_bytes());
    expected.extend_from_slice(&[0x11; 32]);
    expected.push(0);
    expected.extend_from_slice(&1000u64.to_le_bytes());
    expected.push(0);
    expected.extend_from_slice(&1_700_000_000i64.to_le_bytes());
    expected.extend_from_slice(&[0; 32]);
    expected.push(1);
    assert_eq!(bytes.len(), 92);
    assert_eq!(bytes, expected);
}

#[test]
fn game_with_second_player_layout() {
    let bytes = joined_game().to_vec();
    let mut expected = vec![1u8];
    expected.extend_from_slice(&7u64.to_le_bytes());
    expected.extend_from_slice(&[0x11; 32]);
    expected.push(1);
    expected.extend_from_slice(&[0x22; 32]);
    expected.extend_from_slice(&1000u64.to_le_bytes());
    expected.push(1);
    expected.extend_from_slice(&1_700_000_000i64.to_le_bytes());
    expected.extend_from_slice(&[0xab; 32]);
    expected.push(0);
    assert_eq!(bytes.len(), 124);
    assert_eq!(bytes, expected);
}

#[test]
fn game_layout_is_that_of_borsh() {
    for record in [created_game(), joined_game()] {
        assert_eq!(record.to_vec(), borsh_bytes(&record));
    }
    let mut record = joined_game();
    record.is_initialized = false;
    record.game.id = u64::MAX;
    record.game.bet_amount = 0x0102_0304_0506_0708;
    record.game.created_at = -5;
    record.game.state = GameState::Cancelled;
    assert_eq!(record.to_vec(), borsh_bytes(&record));
}

#[test]
fn game_round_trips_in_every_state() {
    for state in [GameState::Created, GameState::Joined, GameState::Completed, GameState::Cancelled]
    {
        for player2 in [None, Some(key(0x33))] {
            for created_at in [0i64, -1, i64::MIN, i64::MAX, 1_700_000_000] {
                let mut record = created_game();
                record.game.state = state;
                record.game.player2 = player2;
                record.game.created_at = created_at;
                let bytes = record.to_vec();
                assert_eq!(GameAccount::unpack_from_slice(&bytes), Ok(record));
            }
        }
    }
}

#[test]
fn game_before_join_round_trips_in_a_full_buffer() {
    let record = created_game();
    let mut buffer = vec![0u8; GameAccount::LEN];
    assert_eq!(GameAccount::pack(record, &mut buffer), Ok(()));
    assert_eq!(&buffer[..92], &record.to_vec()[..]);
    assert_eq!(&buffer[92..], &[0u8; 32][..]);
    assert_eq!(GameAccount::unpack(&buffer), Ok(record));
}

#[test]
fn trailing_bytes_are_no_decode_source() {
    let record = created_game();
    let mut buffer = record.to_vec();
    buffer.extend_from_slice(&[0xff; 40]);
    assert_eq!(GameAccount::unpack_from_slice(&buffer), Ok(record));
    let mut longer = joined_game().to_vec();
    longer.extend_from_slice(&[1, 2, 3]);
    assert_eq!(GameAccount::unpack_from_slice(&longer), Ok(joined_game()));
}

#[test]
fn pack_into_slice_keeps_what_follows_the_record() {
    let mut buffer = vec![0xeeu8; 130];
    created_game().pack_into_slice(&mut buffer);
    assert_eq!(&buffer[..92], &created_game().to_vec()[..]);
    assert!(buffer[92..].iter().all(|b| *b == 0xee));
    joined_game().pack_into_slice(&mut buffer);
    assert_eq!(&buffer[..124], &joined_game().to_vec()[..]);
    assert!(buffer[124..].iter().all(|b| *b == 0xee));
}

#[test]
fn pack_asks_for_the_exact_length() {
    let mut short = vec![0u8; 123];
    assert_eq!(GameAccount::pack(created_game(), &mut short), Err(ProgramError::InvalidAccountData));
    assert_eq!(short, vec![0u8; 123]);
    let mut long = vec![0u8; 125];
    assert_eq!(GameAccount::pack(created_game(), &mut long), Err(ProgramError::InvalidAccountData));
    assert_eq!(long, vec![0u8; 125]);
}

#[test]
fn unpack_asks_for_the_exact_length() {
    let mut buffer = vec![0u8; GameAccount::LEN];
    joined_game().pack_into_slice(&mut buffer);
    assert_eq!(GameAccount::unpack(&buffer), Ok(joined_game()));
    assert_eq!(GameAccount::unpack(&buffer[..123]), Err(ProgramError::InvalidAccountData));
    buffer.push(0);
    assert_eq!(GameAccount::unpack(&buffer), Err(ProgramError::InvalidAccountData));
    assert_eq!(GameAccount::unpack_unchecked(&buffer), Err(ProgramError::InvalidAccountData));
    assert_eq!(GameAccount::unpack(&[]), Err(ProgramError::InvalidAccountData));
}

#[test]
fn zeroed_buffer_is_an_uninitialized_game() {
    let buffer = vec![0u8; GameAccount::LEN];
    let record = GameAccount::unpack_unchecked(&buffer).unwrap();
    assert!(!record.is_initialized());
    assert_eq!(record.game.id, 0);
    assert_eq!(record.game.player2, None);
    assert_eq!(record.game.state, GameState::Created);
    assert_eq!(GameAccount::unpack(&buffer), Err(ProgramError::UninitializedAccount));
}

#[test]
fn short_buffers_hold_no_game() {
    let bytes = created_game().to_vec();
    assert_eq!(GameAccount::unpack_from_slice(&bytes[..91]), Err(ProgramError::InvalidAccountData));
    assert_eq!(GameAccount::unpack_from_slice(&[]), Err(ProgramError::InvalidAccountData));
    let bytes = joined_game().to_vec();
    assert_eq!(GameAccount::unpack_from_slice(&bytes[..123]), Err(ProgramError::InvalidAccountData));
    assert_eq!(GameAccount::unpack_from_slice(&bytes[..92]), Err(ProgramError::InvalidAccountData));
}

#[test]
fn malformed_tags_hold_no_game() {
    let good = joined_game().to_vec();
    for (at, bad) in [(0usize, 2u8), (41, 2), (82, 4), (123, 2), (0, 255), (82, 255)] {
        let mut bytes = good.clone();
        bytes[at] = bad;
        assert_eq!(GameAccount::unpack_from_slice(&bytes), Err(ProgramError::InvalidAccountData));
    }
    let good = created_game().to_vec();
    for (at, bad) in [(0usize, 2u8), (41, 3), (50, 4), (91, 2)] {
        let mut bytes = good.clone();
        bytes[at] = bad;
        assert_eq!(GameAccount::unpack_from_slice(&bytes), Err(ProgramError::InvalidAccountData));
    }
}

#[test]
fn game_decoding_agrees_with_borsh() {
    type Fields = (bool, u64, [u8; 32], Option<[u8; 32]>, u64, u8, i64, [u8; 32], bool);
    for record in [created_game(), joined_game()] {
        let bytes = record.to_vec();
        let fields: Fields = borsh::BorshDeserialize::try_from_slice(&bytes).unwrap();
        let decoded = GameAccount::unpack_from_slice(&bytes).unwrap();
        assert_eq!(fields.0, decoded.is_initialized);
        assert_eq!(fields.1, decoded.game.id);
        assert_eq!(fields.2, decoded.game.player1.to_bytes());
        assert_eq!(fields.3, decoded.game.player2.map(|k| k.to_bytes()));
        assert_eq!(fields.4, decoded.game.bet_amount);
        assert_eq!(fields.5, decoded.game.state.tag());
        assert_eq!(fields.6, decoded.game.created_at);
        assert_eq!(fields.7, decoded.game.service_hash);
        assert_eq!(fields.8, decoded.game.player1_choice);
    }
}

#[test]
fn winner_is_the_side_that_the_result_names() {
    let game = joined_game().game;
    assert_eq!(game.winner(false), Some(key(0x11)));
    assert_eq!(game.winner(true), Some(key(0x22)));
    let game = created_game().game;
    assert_eq!(game.winner(true), Some(key(0x11)));
    assert_eq!(game.winner(false), None);
}

#[test]
fn service_layout() {
    let record =
        GameServiceAccount { is_initialized: true, authority: key(0x44), next_game_id: 258 };
    let mut expected = vec![1u8];
    expected.extend_from_slice(&[0x44; 32]);
    expected.extend_from_slice(&[2, 1, 0, 0, 0, 0, 0, 0]);
    assert_eq!(record.to_vec(), expected);
    assert_eq!(record.to_vec().len(), GameServiceAccount::LEN);
    assert_eq!(
        record.to_vec(),
        borsh::to_vec(&(true, [0x44u8; 32], 258u64)).unwrap()
    );
}

#[test]
fn service_round_trips() {
    for next_game_id in [0u64, 1, 255, u64::MAX] {
        for is_initialized in [false, true] {
            let record = GameServiceAccount { is_initialized, authority: key(9), next_game_id };
            let bytes = record.to_vec();
            assert_eq!(GameServiceAccount::unpack_from_slice(&bytes), Ok(record));
            assert_eq!(GameServiceAccount::unpack_unchecked(&bytes), Ok(record));
            let mut buffer = vec![0xffu8; 41];
            assert_eq!(GameServiceAccount::pack(record, &mut buffer), Ok(()));
            assert_eq!(buffer, bytes);
        }
    }
}

#[test]
fn service_unpack_asks_for_an_initialized_record() {
    let record = GameServiceAccount { is_initialized: false, authority: key(9), next_game_id: 3 };
    assert!(!record.is_initialized());
    assert_eq!(
        GameServiceAccount::unpack(&record.to_vec()),
        Err(ProgramError::UninitializedAccount)
    );
    let record = GameServiceAccount { is_initialized: true, ..record };
    assert!(record.is_initialized());
    assert_eq!(GameServiceAccount::unpack(&record.to_vec()), Ok(record));
}

#[test]
fn service_rejects_wrong_lengths_and_flags() {
    let record = GameServiceAccount { is_initialized: true, authority: key(9), next_game_id: 3 };
    let bytes = record.to_vec();
    assert_eq!(GameServiceAccount::unpack(&bytes[..40]), Err(ProgramError::InvalidAccountData));
    assert_eq!(
        GameServiceAccount::unpack_from_slice(&bytes[..40]),
        Err(ProgramError::InvalidAccountData)
    );
    let mut longer = bytes.clone();
    longer.push(0);
    assert_eq!(GameServiceAccount::unpack(&longer), Err(ProgramError::InvalidAccountData));
    assert_eq!(GameServiceAccount::unpack_from_slice(&longer), Ok(record));
    let mut bad = bytes.clone();
    bad[0] = 2;
    assert_eq!(GameServiceAccount::unpack(&bad), Err(ProgramError::InvalidAccountData));
    let mut buffer = vec![0u8; 40];
    assert_eq!(GameServiceAccount::pack(record, &mut buffer), Err(ProgramError::InvalidAccountData));
    assert_eq!(buffer, vec![0u8; 40]);
}
