//! The records that the program keeps in its accounts, and their byte layouts.
//!
//! A record is written at the start of its account's buffer, field after
//! field. The buffer has a fixed length; a record may need less than all of
//! it, and what lies behind the record is unused.

use crate::codec::{
    bool_byte, i64_bits, i64_of_bits, le_bytes, le_value, lemma_i64_bits, lemma_i64_of_bits,
    lemma_le_bytes_len, lemma_le_bytes_of_value, lemma_le_value_bound, lemma_le_value_of_bytes,
    lemma_pow256_values, overwrite, push_bool, push_bytes32, push_i64, push_u64, read_bool,
    read_bytes32, read_i64, read_u64, write_prefix,
};
use crate::error::ProgramError;
use crate::pubkey::Pubkey;
use vstd::prelude::*;

verus! {

/// The stage of a game.
#[derive(Debug, Clone, Copy, PartialEq, Eq, Structural)]
pub enum GameState {
    /// The creator has staked; nobody has joined.
    Created,
    /// Both players have staked.
    Joined,
    /// The outcome was committed and the stakes went to the winner.
    Completed,
    /// The creator's stake was handed back.
    Cancelled,
}

impl GameState {
    /// The byte that stands for the stage in a record.
    pub open spec fn spec_tag(self) -> u8 {
        match self {
            GameState::Created => 0,
            GameState::Joined => 1,
            GameState::Completed => 2,
            GameState::Cancelled => 3,
        }
    }

    /// The byte that stands for the stage in a record.
    #[verifier::when_used_as_spec(spec_tag)]
    pub fn tag(self) -> (tag: u8)
        ensures
            tag == self.spec_tag(),
    {
        match self {
            GameState::Created => 0,
            GameState::Joined => 1,
            GameState::Completed => 2,
            GameState::Cancelled => 3,
        }
    }

    /// The stage that `tag` stands for, if it stands for one.
    pub fn from_tag(tag: u8) -> (state: Option<GameState>)
        ensures
            match state {
                Some(s) => s.spec_tag() == tag,
                None => tag > 3,
            },
    {
        match tag {
            0 => Some(GameState::Created),
            1 => Some(GameState::Joined),
            2 => Some(GameState::Completed),
            3 => Some(GameState::Cancelled),
            _ => None,
        }
    }

    /// Whether no operation starts from this stage.
    pub open spec fn is_terminal(self) -> bool {
        self == GameState::Completed || self == GameState::Cancelled
    }
}

/// One wager.
#[derive(Debug, Clone, Copy, PartialEq, Eq)]
pub struct Game {
    /// The number of the game, taken from the service's counter.
    pub id: u64,
    /// The creator.
    pub player1: Pubkey,
    /// The player who joined, once one has.
    pub player2: Option<Pubkey>,
    /// The stake of each side.
    pub bet_amount: u64,
    pub state: GameState,
    /// The ledger's time at creation, in seconds.
    pub created_at: i64,
    /// The commitment that a revealed seed must equal; all zero where none is
    /// recorded.
    pub service_hash: [u8; 32],
    /// The creator's prediction.
    pub player1_choice: bool,
}

/// The bytes of a key that may be absent: 0 alone, or 1 and the key.
pub open spec fn option_key_bytes(key: Option<Pubkey>) -> Seq<u8> {
    match key {
        None => seq![0u8],
        Some(k) => seq![1u8] + k@,
    }
}

impl Game {
    /// The bytes of the game, field after field.
    pub open spec fn spec_bytes(self) -> Seq<u8> {
        le_bytes(self.id as nat, 8) + self.player1@ + option_key_bytes(self.player2) + le_bytes(
            self.bet_amount as nat,
            8,
        ) + seq![self.state.spec_tag()] + le_bytes(i64_bits(self.created_at), 8)
            + self.service_hash@ + seq![bool_byte(self.player1_choice)]
    }

    /// Whether the second player is recorded exactly in the stages that follow
    /// a join.
    pub open spec fn well_formed(self) -> bool {
        self.player2 is Some <==> (self.state == GameState::Joined || self.state
            == GameState::Completed)
    }

    /// What the escrow holds of the stakes at the game's stage.
    pub open spec fn escrow_due(self) -> int {
        match self.state {
            GameState::Created => self.bet_amount as int,
            GameState::Joined => 2 * self.bet_amount,
            GameState::Completed => 0,
            GameState::Cancelled => 0,
        }
    }

    /// The side that wins on `result`: the creator where the result is the
    /// creator's prediction, else the player who joined.
    pub open spec fn spec_winner(self, result: bool) -> Option<Pubkey> {
        if result == self.player1_choice {
            Some(self.player1)
        } else {
            self.player2
        }
    }

    /// The side that wins on `result`: the creator where the result is the
    /// creator's prediction, else the player who joined.
    pub fn winner(&self, result: bool) -> (key: Option<Pubkey>)
        ensures
            key == self.spec_winner(result),
    {
        if result == self.player1_choice {
            Some(self.player1)
        } else {
            self.player2
        }
    }
}

/// What a game account stores: whether a game was written, and the game.
#[derive(Debug, Clone, Copy, PartialEq, Eq)]
pub struct GameAccount {
    pub is_initialized: bool,
    pub game: Game,
}

impl GameAccount {
    /// The length of the buffer of a game account: that of the longest record.
    pub const LEN: usize = 124;

    /// The bytes of the record: the flag, then the game.
    pub open spec fn spec_bytes(self) -> Seq<u8> {
        seq![bool_byte(self.is_initialized)] + self.game.spec_bytes()
    }

    /// Where the fields after the second player start in the bytes.
    pub open spec fn spec_tail(self) -> int {
        if self.game.player2 is Some {
            74
        } else {
            42
        }
    }

    /// The record that the start of `src` holds, or `InvalidAccountData` where
    /// it holds none.
    pub open spec fn spec_unpack_from_slice(src: Seq<u8>) -> Result<GameAccount, ProgramError> {
        if exists|a: GameAccount| #[trigger] a.spec_bytes().is_prefix_of(src) {
            Ok(choose|a: GameAccount| #[trigger] a.spec_bytes().is_prefix_of(src))
        } else {
            Err(ProgramError::InvalidAccountData)
        }
    }

    /// Where the fields of a record lie in its bytes.
    pub proof fn lemma_layout(self)
        ensures
            self.spec_bytes().len() == self.spec_tail() + 50,
            self.spec_bytes()[0] == bool_byte(self.is_initialized),
            self.spec_bytes().subrange(1, 9) == le_bytes(self.game.id as nat, 8),
            self.spec_bytes().subrange(9, 41) == self.game.player1@,
            self.spec_bytes()[41] == (if self.game.player2 is Some {
                1u8
            } else {
                0u8
            }),
            self.game.player2 matches Some(k) ==> self.spec_bytes().subrange(42, 74) == k@,
            self.spec_bytes().subrange(self.spec_tail(), self.spec_tail() + 8) == le_bytes(
                self.game.bet_amount as nat,
                8,
            ),
            self.spec_bytes()[self.spec_tail() + 8] == self.game.state.spec_tag(),
            self.spec_bytes().subrange(self.spec_tail() + 9, self.spec_tail() + 17) == le_bytes(
                i64_bits(self.game.created_at),
                8,
            ),
            self.spec_bytes().subrange(self.spec_tail() + 17, self.spec_tail() + 49)
                == self.game.service_hash@,
            self.spec_bytes()[self.spec_tail() + 49] == bool_byte(self.game.player1_choice),
    {
        lemma_le_bytes_len(self.game.id as nat, 8);
        lemma_le_bytes_len(self.game.bet_amount as nat, 8);
        lemma_le_bytes_len(i64_bits(self.game.created_at), 8);
    }

    /// No two records have bytes that start the same buffer.
    pub proof fn lemma_unique(self, other: GameAccount, src: Seq<u8>)
        requires
            self.spec_bytes().is_prefix_of(src),
            other.spec_bytes().is_prefix_of(src),
        ensures
            self == other,
    {
        self.lemma_layout();
        other.lemma_layout();
        lemma_pow256_values();
        assert(self.game.id == other.game.id) by {
            lemma_le_value_of_bytes(self.game.id as nat, 8);
            lemma_le_value_of_bytes(other.game.id as nat, 8);
        }
        assert(self.game.player1.bytes =~= other.game.player1.bytes);
        assert(self.game.player2 == other.game.player2) by {
            if let (Some(k), Some(l)) = (self.game.player2, other.game.player2) {
                assert(k.bytes =~= l.bytes);
            }
        }
        assert(self.game.bet_amount == other.game.bet_amount) by {
            lemma_le_value_of_bytes(self.game.bet_amount as nat, 8);
            lemma_le_value_of_bytes(other.game.bet_amount as nat, 8);
        }
        assert(self.game.created_at == other.game.created_at) by {
            lemma_i64_bits(self.game.created_at);
            lemma_i64_bits(other.game.created_at);
            lemma_le_value_of_bytes(i64_bits(self.game.created_at), 8);
            lemma_le_value_of_bytes(i64_bits(other.game.created_at), 8);
        }
        assert(self.game.service_hash =~= other.game.service_hash);
    }

    /// A buffer that starts with the bytes of a record holds that record.
    pub proof fn lemma_unpack_of_bytes(self, src: Seq<u8>)
        requires
            self.spec_bytes().is_prefix_of(src),
        ensures
            Self::spec_unpack_from_slice(src) == Ok::<GameAccount, ProgramError>(self),
    {
        let chosen = choose|a: GameAccount| #[trigger] a.spec_bytes().is_prefix_of(src);
        self.lemma_unique(chosen, src);
    }

    /// Whether a game was ever written to the account.
    pub fn is_initialized(&self) -> (flag: bool)
        ensures
            flag == self.is_initialized,
    {
        self.is_initialized
    }

    /// The bytes of the record.
    pub fn to_vec(&self) -> (bytes: Vec<u8>)
        ensures
            bytes@ == self.spec_bytes(),
            bytes@.len() <= Self::LEN,
    {
        let mut out: Vec<u8> = Vec::new();
        push_bool(&mut out, self.is_initialized);
        push_u64(&mut out, self.game.id);
        push_bytes32(&mut out, &self.game.player1.bytes);
        match self.game.player2 {
            Some(key) => {
                out.push(1);
                push_bytes32(&mut out, &key.bytes);
            },
            None => {
                out.push(0);
            },
        }
        push_u64(&mut out, self.game.bet_amount);
        out.push(self.game.state.tag());
        push_i64(&mut out, self.game.created_at);
        push_bytes32(&mut out, &self.game.service_hash);
        push_bool(&mut out, self.game.player1_choice);
        proof {
            self.lemma_layout();
        }
        out
    }

    /// Whether `src` is too short for a record, or holds a byte that stands
    /// for nothing where a record has a flag, the mark of the second player or
    /// the stage.
    pub open spec fn malformed(src: Seq<u8>) -> bool {
        let tail = if src[41] == 1 {
            74int
        } else {
            42int
        };
        ||| src.len() < 92
        ||| src[0] > 1
        ||| src[41] > 1
        ||| src.len() < tail + 50
        ||| src[tail + 8] > 3
        ||| src[tail + 49] > 1
    }

    /// A malformed buffer starts with the bytes of no record.
    pub proof fn lemma_malformed(src: Seq<u8>)
        requires
            Self::malformed(src),
        ensures
            forall|a: GameAccount| !#[trigger] a.spec_bytes().is_prefix_of(src),
    {
        assert forall|a: GameAccount| !#[trigger] a.spec_bytes().is_prefix_of(src) by {
            a.lemma_layout();
        }
    }

    /// A buffer whose bytes are those of the fields of a record, each in its
    /// place, starts with the bytes of the record.
    pub proof fn lemma_bytes_of_fields(self, src: Seq<u8>)
        requires
            src.len() >= self.spec_tail() + 50,
            src[0] == bool_byte(self.is_initialized),
            self.game.id == le_value(src.subrange(1, 9)),
            self.game.player1@ == src.subrange(9, 41),
            match self.game.player2 {
                Some(k) => src[41] == 1 && k@ == src.subrange(42, 74),
                None => src[41] == 0,
            },
            self.game.bet_amount == le_value(
                src.subrange(self.spec_tail(), self.spec_tail() + 8),
            ),
            src[self.spec_tail() + 8] == self.game.state.spec_tag(),
            self.game.created_at == i64_of_bits(
                le_value(src.subrange(self.spec_tail() + 9, self.spec_tail() + 17)),
            ),
            self.game.service_hash@ == src.subrange(
                self.spec_tail() + 17,
                self.spec_tail() + 49,
            ),
            src[self.spec_tail() + 49] == bool_byte(self.game.player1_choice),
        ensures
            self.spec_bytes().is_prefix_of(src),
    {
        let t = self.spec_tail();
        let stamp = src.subrange(t + 9, t + 17);
        self.lemma_layout();
        lemma_le_bytes_of_value(src.subrange(1, 9));
        lemma_le_bytes_of_value(src.subrange(t, t + 8));
        lemma_le_bytes_of_value(stamp);
        lemma_le_value_bound(stamp);
        lemma_i64_of_bits(le_value(stamp));
    }

    /// Reads the record at the start of `src`. What follows the record in `src`
    /// is not looked at. Fails where `src` ends before the record does, or where
    /// a flag, the mark of the second player or the stage is no byte that
    /// stands for one.
    pub fn unpack_from_slice(src: &[u8]) -> (record: Result<GameAccount, ProgramError>)
        ensures
            record == Self::spec_unpack_from_slice(src@),
            record matches Ok(a) ==> a.spec_bytes().is_prefix_of(src@),
            record is Err <==> Self::malformed(src@),
    {
        if src.len() < 92 {
            proof {
                Self::lemma_malformed(src@);
            }
            return Err(ProgramError::InvalidAccountData);
        }
        let flag = read_bool(src, 0);
        let mark = src[41];
        if flag.is_none() || mark > 1 || (mark == 1 && src.len() < 124) {
            proof {
                Self::lemma_malformed(src@);
            }
            return Err(ProgramError::InvalidAccountData);
        }
        let tail: usize = if mark == 1 {
            74
        } else {
            42
        };
        let state = GameState::from_tag(src[tail + 8]);
        let choice = read_bool(src, tail + 49);
        if state.is_none() || choice.is_none() {
            proof {
                Self::lemma_malformed(src@);
            }
            return Err(ProgramError::InvalidAccountData);
        }
        let player2 = if mark == 1 {
            Some(Pubkey { bytes: read_bytes32(src, 42) })
        } else {
            None
        };
        let record = GameAccount {
            is_initialized: flag.unwrap(),
            game: Game {
                id: read_u64(src, 1),
                player1: Pubkey { bytes: read_bytes32(src, 9) },
                player2,
                bet_amount: read_u64(src, tail),
                state: state.unwrap(),
                created_at: read_i64(src, tail + 9),
                service_hash: read_bytes32(src, tail + 17),
                player1_choice: choice.unwrap(),
            },
        };
        proof {
            record.lemma_bytes_of_fields(src@);
            record.lemma_unpack_of_bytes(src@);
        }
        Ok(record)
    }

    /// Writes the record at the start of `dst` and leaves the rest of `dst` as
    /// it was.
    pub fn pack_into_slice(&self, dst: &mut [u8])
        requires
            old(dst).len() >= self.spec_bytes().len(),
        ensures
            final(dst)@ == overwrite(old(dst)@, self.spec_bytes()),
    {
        let bytes = self.to_vec();
        write_prefix(dst, &bytes);
    }

    /// The record that a buffer of the account's length holds, initialized or
    /// not, or `InvalidAccountData` where the buffer has another length or holds
    /// none.
    pub open spec fn spec_unpack_unchecked(input: Seq<u8>) -> Result<GameAccount, ProgramError> {
        if input.len() != Self::LEN {
            Err(ProgramError::InvalidAccountData)
        } else {
            Self::spec_unpack_from_slice(input)
        }
    }

    /// The initialized record that a buffer of the account's length holds;
    /// `UninitializedAccount` where the record it holds was never written.
    pub open spec fn spec_unpack(input: Seq<u8>) -> Result<GameAccount, ProgramError> {
        match Self::spec_unpack_unchecked(input) {
            Ok(a) => if a.is_initialized {
                Ok(a)
            } else {
                Err(ProgramError::UninitializedAccount)
            },
            Err(e) => Err(e),
        }
    }

    /// A record written into a buffer of the account's length is the record
    /// that is read from the buffer, whatever the buffer held.
    pub proof fn lemma_unpack_of_pack(self, dst: Seq<u8>)
        requires
            dst.len() == Self::LEN,
        ensures
            overwrite(dst, self.spec_bytes()).len() == Self::LEN,
            Self::spec_unpack_unchecked(overwrite(dst, self.spec_bytes())) == Ok::<
                GameAccount,
                ProgramError,
            >(self),
    {
        self.lemma_layout();
        self.lemma_unpack_of_bytes(overwrite(dst, self.spec_bytes()));
    }

    /// Reads the record of a game account. Fails with `InvalidAccountData`
    /// where `input` has not the account's length or holds no record.
    pub fn unpack_unchecked(input: &[u8]) -> (record: Result<GameAccount, ProgramError>)
        ensures
            record == Self::spec_unpack_unchecked(input@),
            record matches Ok(a) ==> a.spec_bytes().is_prefix_of(input@),
            record is Err <==> input@.len() != Self::LEN || Self::malformed(input@),
    {
        if input.len() != Self::LEN {
            return Err(ProgramError::InvalidAccountData);
        }
        Self::unpack_from_slice(input)
    }

    /// Reads the record of a game account and asks that it was written. Fails
    /// with `InvalidAccountData` where `input` has not the account's length or
    /// holds no record, with `UninitializedAccount` where the record's flag is
    /// not set.
    pub fn unpack(input: &[u8]) -> (record: Result<GameAccount, ProgramError>)
        ensures
            record == Self::spec_unpack(input@),
            record matches Ok(a) ==> a.is_initialized && a.spec_bytes().is_prefix_of(input@),
            record matches Err(e) ==> e == (if input@.len() != Self::LEN || Self::malformed(
                input@,
            ) {
                ProgramError::InvalidAccountData
            } else {
                ProgramError::UninitializedAccount
            }),
            record is Err <==> input@.len() != Self::LEN || Self::malformed(input@)
                || input@[0] == 0,
    {
        let record = Self::unpack_unchecked(input)?;
        proof {
            record.lemma_layout();
        }
        if record.is_initialized() {
            Ok(record)
        } else {
            Err(ProgramError::UninitializedAccount)
        }
    }

    /// Writes the record into the buffer of a game account. Fails with
    /// `InvalidAccountData`, and writes nothing, where `dst` has not the
    /// account's length.
    pub fn pack(src: GameAccount, dst: &mut [u8]) -> (done: Result<(), ProgramError>)
        ensures
            old(dst)@.len() == Self::LEN ==> done == Ok::<(), ProgramError>(()) && final(dst)@
                == overwrite(old(dst)@, src.spec_bytes()),
            old(dst)@.len() != Self::LEN ==> done == Err::<(), ProgramError>(
                ProgramError::InvalidAccountData,
            ) && final(dst)@ == old(dst)@,
    {
        if dst.len() != Self::LEN {
            return Err(ProgramError::InvalidAccountData);
        }
        proof {
            src.lemma_layout();
        }
        src.pack_into_slice(dst);
        Ok(())
    }
}

/// The shared record of a deployment: the oracle that may settle games, and
/// the id that the next game gets.
#[derive(Debug, Clone, Copy, PartialEq, Eq)]
pub struct GameServiceAccount {
    pub is_initialized: bool,
    pub authority: Pubkey,
    pub next_game_id: u64,
}

impl GameServiceAccount {
    /// The length of the buffer of a service account.
    pub const LEN: usize = 41;

    /// The bytes of the record: the flag, the authority, the next id.
    pub open spec fn spec_bytes(self) -> Seq<u8> {
        seq![bool_byte(self.is_initialized)] + self.authority@ + le_bytes(
            self.next_game_id as nat,
            8,
        )
    }

    /// The record that the start of `src` holds, or `InvalidAccountData` where
    /// it holds none.
    pub open spec fn spec_unpack_from_slice(src: Seq<u8>) -> Result<
        GameServiceAccount,
        ProgramError,
    > {
        if exists|a: GameServiceAccount| #[trigger] a.spec_bytes().is_prefix_of(src) {
            Ok(choose|a: GameServiceAccount| #[trigger] a.spec_bytes().is_prefix_of(src))
        } else {
            Err(ProgramError::InvalidAccountData)
        }
    }

    /// Where the fields of a record lie in its bytes.
    pub proof fn lemma_layout(self)
        ensures
            self.spec_bytes().len() == 41,
            self.spec_bytes()[0] == bool_byte(self.is_initialized),
            self.spec_bytes().subrange(1, 33) == self.authority@,
            self.spec_bytes().subrange(33, 41) == le_bytes(self.next_game_id as nat, 8),
    {
        lemma_le_bytes_len(self.next_game_id as nat, 8);
    }

    /// No two records have bytes that start the same buffer.
    pub proof fn lemma_unique(self, other: GameServiceAccount, src: Seq<u8>)
        requires
            self.spec_bytes().is_prefix_of(src),
            other.spec_bytes().is_prefix_of(src),
        ensures
            self == other,
    {
        self.lemma_layout();
        other.lemma_layout();
        assert(self.authority.bytes =~= other.authority.bytes);
        assert(self.next_game_id == other.next_game_id) by {
            lemma_pow256_values();
            lemma_le_value_of_bytes(self.next_game_id as nat, 8);
            lemma_le_value_of_bytes(other.next_game_id as nat, 8);
        }
    }

    /// Whether the record was ever written.
    pub fn is_initialized(&self) -> (flag: bool)
        ensures
            flag == self.is_initialized,
    {
        self.is_initialized
    }

    /// The bytes of the record.
    pub fn to_vec(&self) -> (bytes: Vec<u8>)
        ensures
            bytes@ == self.spec_bytes(),
    {
        let mut out: Vec<u8> = Vec::new();
        push_bool(&mut out, self.is_initialized);
        push_bytes32(&mut out, &self.authority.bytes);
        push_u64(&mut out, self.next_game_id);
        out
    }

    /// Whether `src` is too short for a record, or its first byte is no flag.
    pub open spec fn malformed(src: Seq<u8>) -> bool {
        src.len() < 41 || src[0] > 1
    }

    /// A malformed buffer starts with the bytes of no record.
    pub proof fn lemma_malformed(src: Seq<u8>)
        requires
            Self::malformed(src),
        ensures
            forall|a: GameServiceAccount| !#[trigger] a.spec_bytes().is_prefix_of(src),
    {
        assert forall|a: GameServiceAccount| !#[trigger] a.spec_bytes().is_prefix_of(src) by {
            a.lemma_layout();
        }
    }

    /// A buffer that starts with the bytes of a record holds that record.
    pub proof fn lemma_unpack_of_bytes(self, src: Seq<u8>)
        requires
            self.spec_bytes().is_prefix_of(src),
        ensures
            Self::spec_unpack_from_slice(src) == Ok::<GameServiceAccount, ProgramError>(self),
    {
        let chosen = choose|a: GameServiceAccount| #[trigger] a.spec_bytes().is_prefix_of(src);
        self.lemma_unique(chosen, src);
    }

    /// Reads the record at the start of `src`. What follows the record in `src`
    /// is not looked at. Fails where `src` is too short for a record or its
    /// flag is neither 0 nor 1.
    pub fn unpack_from_slice(src: &[u8]) -> (record: Result<GameServiceAccount, ProgramError>)
        ensures
            record == Self::spec_unpack_from_slice(src@),
            record matches Ok(a) ==> a.spec_bytes().is_prefix_of(src@),
            record is Err <==> Self::malformed(src@),
    {
        if src.len() < 41 {
            proof {
                Self::lemma_malformed(src@);
            }
            return Err(ProgramError::InvalidAccountData);
        }
        let is_initialized = match read_bool(src, 0) {
            Some(flag) => flag,
            None => {
                proof {
                    Self::lemma_malformed(src@);
                }
                return Err(ProgramError::InvalidAccountData);
            },
        };
        let authority = Pubkey { bytes: read_bytes32(src, 1) };
        let next_game_id = read_u64(src, 33);
        let record = GameServiceAccount { is_initialized, authority, next_game_id };
        proof {
            lemma_le_bytes_of_value(src@.subrange(33, 41));
            record.lemma_unpack_of_bytes(src@);
        }
        Ok(record)
    }

    /// Writes the record at the start of `dst` and leaves the rest of `dst` as
    /// it was.
    pub fn pack_into_slice(&self, dst: &mut [u8])
        requires
            old(dst).len() >= self.spec_bytes().len(),
        ensures
            final(dst)@ == overwrite(old(dst)@, self.spec_bytes()),
    {
        let bytes = self.to_vec();
        write_prefix(dst, &bytes);
    }

    /// The record that a buffer of the account's length holds, initialized or
    /// not, or `InvalidAccountData` where the buffer has another length or holds
    /// none.
    pub open spec fn spec_unpack_unchecked(input: Seq<u8>) -> Result<
        GameServiceAccount,
        ProgramError,
    > {
        if input.len() != Self::LEN {
            Err(ProgramError::InvalidAccountData)
        } else {
            Self::spec_unpack_from_slice(input)
        }
    }

    /// The initialized record that a buffer of the account's length holds;
    /// `UninitializedAccount` where the record it holds was never written.
    pub open spec fn spec_unpack(input: Seq<u8>) -> Result<GameServiceAccount, ProgramError> {
        match Self::spec_unpack_unchecked(input) {
            Ok(a) => if a.is_initialized {
                Ok(a)
            } else {
                Err(ProgramError::UninitializedAccount)
            },
            Err(e) => Err(e),
        }
    }

    /// A record written into a buffer of the account's length is the record
    /// that is read from the buffer, whatever the buffer held.
    pub proof fn lemma_unpack_of_pack(self, dst: Seq<u8>)
        requires
            dst.len() == Self::LEN,
        ensures
            overwrite(dst, self.spec_bytes()).len() == Self::LEN,
            Self::spec_unpack_unchecked(overwrite(dst, self.spec_bytes())) == Ok::<
                GameServiceAccount,
                ProgramError,
            >(self),
    {
        self.lemma_layout();
        self.lemma_unpack_of_bytes(overwrite(dst, self.spec_bytes()));
    }

    /// Reads the record of a service account. Fails with `InvalidAccountData`
    /// where `input` has not the account's length or holds no record.
    pub fn unpack_unchecked(input: &[u8]) -> (record: Result<GameServiceAccount, ProgramError>)
        ensures
            record == Self::spec_unpack_unchecked(input@),
            record matches Ok(a) ==> a.spec_bytes().is_prefix_of(input@),
            record is Err <==> input@.len() != Self::LEN || Self::malformed(input@),
    {
        if input.len() != Self::LEN {
            return Err(ProgramError::InvalidAccountData);
        }
        Self::unpack_from_slice(input)
    }

    /// Reads the record of a service account and asks that it was written. Fails
    /// with `InvalidAccountData` where `input` has not the account's length or
    /// holds no record, with `UninitializedAccount` where the record's flag is
    /// not set.
    pub fn unpack(input: &[u8]) -> (record: Result<GameServiceAccount, ProgramError>)
        ensures
            record == Self::spec_unpack(input@),
            record matches Ok(a) ==> a.is_initialized && a.spec_bytes().is_prefix_of(input@),
            record matches Err(e) ==> e == (if input@.len() != Self::LEN || Self::malformed(
                input@,
            ) {
                ProgramError::InvalidAccountData
            } else {
                ProgramError::UninitializedAccount
            }),
            record is Err <==> input@.len() != Self::LEN || Self::malformed(input@)
                || input@[0] == 0,
    {
        let record = Self::unpack_unchecked(input)?;
        proof {
            record.lemma_layout();
        }
        if record.is_initialized() {
            Ok(record)
        } else {
            Err(ProgramError::UninitializedAccount)
        }
    }

    /// Writes the record into the buffer of a service account. Fails with
    /// `InvalidAccountData`, and writes nothing, where `dst` has not the
    /// account's length.
    pub fn pack(src: GameServiceAccount, dst: &mut [u8]) -> (done: Result<(), ProgramError>)
        ensures
            old(dst)@.len() == Self::LEN ==> done == Ok::<(), ProgramError>(()) && final(dst)@
                == overwrite(old(dst)@, src.spec_bytes()),
            old(dst)@.len() != Self::LEN ==> done == Err::<(), ProgramError>(
                ProgramError::InvalidAccountData,
            ) && final(dst)@ == old(dst)@,
    {
        if dst.len() != Self::LEN {
            return Err(ProgramError::InvalidAccountData);
        }
        proof {
            src.lemma_layout();
        }
        src.pack_into_slice(dst);
        Ok(())
    }
}

} // verus!
