//! The four operations of the program, their byte layout, and the requests
//! that a client sends to have one performed.

use crate::codec::{
    bool_byte, le_bytes, lemma_le_bytes_len, lemma_le_bytes_of_value, lemma_le_value_of_bytes,
    lemma_pow256_values, push_bool, push_bytes32, push_u64, read_bool, read_bytes32, read_u64,
};
use crate::error::ProgramError;
use crate::pubkey::Pubkey;
use vstd::prelude::*;

verus! {

/// An account that a request names, and what the request asks of it.
#[derive(Debug, Clone, Copy, PartialEq, Eq)]
pub struct AccountMeta {
    pub pubkey: Pubkey,
    /// Whether the account has to sign the request.
    pub is_signer: bool,
    /// Whether the operation may change the account.
    pub is_writable: bool,
}

impl AccountMeta {
    /// An account that the operation may change.
    pub fn new(pubkey: Pubkey, is_signer: bool) -> (meta: AccountMeta)
        ensures
            meta == (AccountMeta { pubkey, is_signer, is_writable: true }),
    {
        AccountMeta { pubkey, is_signer, is_writable: true }
    }

    /// An account that the operation only reads.
    pub fn new_readonly(pubkey: Pubkey, is_signer: bool) -> (meta: AccountMeta)
        ensures
            meta == (AccountMeta { pubkey, is_signer, is_writable: false }),
    {
        AccountMeta { pubkey, is_signer, is_writable: false }
    }
}

/// A request to a program: the program, the accounts in the order in which
/// the operation takes them, and the bytes of the operation.
#[derive(Debug, Clone, PartialEq, Eq)]
pub struct Instruction {
    pub program_id: Pubkey,
    pub accounts: Vec<AccountMeta>,
    pub data: Vec<u8>,
}

/// What a request holds, with its accounts and bytes as sequences.
pub ghost struct InstructionView {
    pub program_id: Pubkey,
    pub accounts: Seq<AccountMeta>,
    pub data: Seq<u8>,
}

impl View for Instruction {
    type V = InstructionView;

    open spec fn view(&self) -> InstructionView {
        InstructionView { program_id: self.program_id, accounts: self.accounts@, data: self.data@ }
    }
}

/// The identity of the ledger's own program that creates accounts and moves
/// value between them: 32 zero bytes.
pub open spec fn spec_system_program_id() -> Pubkey {
    Pubkey { bytes: vstd::array::spec_array_fill_for_copy_type::<u8, 32>(0u8) }
}

/// The identity of the ledger's own program that creates accounts and moves
/// value between them: 32 zero bytes.
pub fn system_program_id() -> (id: Pubkey)
    ensures
        id == spec_system_program_id(),
        forall|i: int| 0 <= i < 32 ==> id.bytes[i] == 0,
{
    Pubkey { bytes: [0u8; 32] }
}

/// An operation and its arguments.
#[derive(Debug, Clone, Copy, PartialEq, Eq)]
pub enum GameInstruction {
    /// Opens a game: the signer stakes `bet_amount` on `choice`.
    CreateGame { bet_amount: u64, choice: bool },
    /// The signer stakes against the creator of the game.
    JoinGame { game_id: u64 },
    /// The oracle reveals `seed` and commits `result`; the stakes go to the
    /// winner.
    CompleteGame { game_id: u64, seed: [u8; 32], result: bool },
    /// Hands the creator's stake back.
    CancelGame { game_id: u64 },
}

impl GameInstruction {
    /// The bytes of the operation: a byte that tells which of the four it is,
    /// then its arguments in order.
    pub open spec fn spec_bytes(self) -> Seq<u8> {
        match self {
            GameInstruction::CreateGame { bet_amount, choice } => seq![0u8] + le_bytes(
                bet_amount as nat,
                8,
            ) + seq![bool_byte(choice)],
            GameInstruction::JoinGame { game_id } => seq![1u8] + le_bytes(game_id as nat, 8),
            GameInstruction::CompleteGame { game_id, seed, result } => seq![2u8] + le_bytes(
                game_id as nat,
                8,
            ) + seed@ + seq![bool_byte(result)],
            GameInstruction::CancelGame { game_id } => seq![3u8] + le_bytes(game_id as nat, 8),
        }
    }

    /// How many bytes an operation with the given first byte has.
    pub open spec fn spec_len(tag: u8) -> int {
        if tag == 0 {
            10
        } else if tag == 2 {
            42
        } else {
            9
        }
    }

    /// Whether `data` is empty, starts with a byte that names no operation, has
    /// not the length of the operation it names, or holds a byte that is
    /// neither 0 nor 1 where the operation has a truth value.
    pub open spec fn malformed(data: Seq<u8>) -> bool {
        ||| data.len() == 0
        ||| data[0] > 3
        ||| data.len() != Self::spec_len(data[0])
        ||| data[0] == 0 && data[9] > 1
        ||| data[0] == 2 && data[41] > 1
    }

    /// The operation whose bytes `data` is, or `InvalidInstructionData` where
    /// it is those of none.
    pub open spec fn spec_try_from_slice(data: Seq<u8>) -> Result<GameInstruction, ProgramError> {
        if exists|i: GameInstruction| #[trigger] i.spec_bytes() == data {
            Ok(choose|i: GameInstruction| #[trigger] i.spec_bytes() == data)
        } else {
            Err(ProgramError::InvalidInstructionData)
        }
    }

    /// Where the arguments of an operation lie in its bytes.
    pub proof fn lemma_layout(self)
        ensures
            self.spec_bytes().len() == Self::spec_len(self.spec_bytes()[0]),
            match self {
                GameInstruction::CreateGame { bet_amount, choice } => {
                    &&& self.spec_bytes()[0] == 0
                    &&& self.spec_bytes().subrange(1, 9) == le_bytes(bet_amount as nat, 8)
                    &&& self.spec_bytes()[9] == bool_byte(choice)
                },
                GameInstruction::JoinGame { game_id } => {
                    &&& self.spec_bytes()[0] == 1
                    &&& self.spec_bytes().subrange(1, 9) == le_bytes(game_id as nat, 8)
                },
                GameInstruction::CompleteGame { game_id, seed, result } => {
                    &&& self.spec_bytes()[0] == 2
                    &&& self.spec_bytes().subrange(1, 9) == le_bytes(game_id as nat, 8)
                    &&& self.spec_bytes().subrange(9, 41) == seed@
                    &&& self.spec_bytes()[41] == bool_byte(result)
                },
                GameInstruction::CancelGame { game_id } => {
                    &&& self.spec_bytes()[0] == 3
                    &&& self.spec_bytes().subrange(1, 9) == le_bytes(game_id as nat, 8)
                },
            },
    {
        match self {
            GameInstruction::CreateGame { bet_amount, .. } => {
                lemma_le_bytes_len(bet_amount as nat, 8);
            },
            GameInstruction::JoinGame { game_id }
            | GameInstruction::CompleteGame { game_id, .. }
            | GameInstruction::CancelGame { game_id } => {
                lemma_le_bytes_len(game_id as nat, 8);
            },
        }
    }

    /// No two operations have the same bytes.
    pub proof fn lemma_unique(self, other: GameInstruction)
        requires
            self.spec_bytes() == other.spec_bytes(),
        ensures
            self == other,
    {
        self.lemma_layout();
        other.lemma_layout();
        lemma_pow256_values();
        match (self, other) {
            (
                GameInstruction::CreateGame { bet_amount: a, choice: _ },
                GameInstruction::CreateGame { bet_amount: b, choice: _ },
            ) => {
                lemma_le_value_of_bytes(a as nat, 8);
                lemma_le_value_of_bytes(b as nat, 8);
            },
            (
                GameInstruction::JoinGame { game_id: a },
                GameInstruction::JoinGame { game_id: b },
            ) => {
                lemma_le_value_of_bytes(a as nat, 8);
                lemma_le_value_of_bytes(b as nat, 8);
            },
            (
                GameInstruction::CompleteGame { game_id: a, seed: s, result: _ },
                GameInstruction::CompleteGame { game_id: b, seed: t, result: _ },
            ) => {
                lemma_le_value_of_bytes(a as nat, 8);
                lemma_le_value_of_bytes(b as nat, 8);
                assert(s =~= t);
            },
            (
                GameInstruction::CancelGame { game_id: a },
                GameInstruction::CancelGame { game_id: b },
            ) => {
                lemma_le_value_of_bytes(a as nat, 8);
                lemma_le_value_of_bytes(b as nat, 8);
            },
            _ => {},
        }
    }

    /// Malformed bytes are those of no operation.
    pub proof fn lemma_malformed(data: Seq<u8>)
        requires
            Self::malformed(data),
        ensures
            forall|i: GameInstruction| #[trigger] i.spec_bytes() != data,
    {
        assert forall|i: GameInstruction| #[trigger] i.spec_bytes() != data by {
            i.lemma_layout();
        }
    }

    /// Decoding the bytes of an operation gives the operation.
    pub proof fn lemma_try_from_slice_of_bytes(self)
        ensures
            Self::spec_try_from_slice(self.spec_bytes()) == Ok::<GameInstruction, ProgramError>(
                self,
            ),
    {
        let chosen = choose|i: GameInstruction| #[trigger] i.spec_bytes() == self.spec_bytes();
        chosen.lemma_unique(self);
    }

    /// The bytes of the operation.
    pub fn to_vec(&self) -> (bytes: Vec<u8>)
        ensures
            bytes@ == self.spec_bytes(),
    {
        let mut out: Vec<u8> = Vec::new();
        match self {
            GameInstruction::CreateGame { bet_amount, choice } => {
                out.push(0);
                push_u64(&mut out, *bet_amount);
                push_bool(&mut out, *choice);
            },
            GameInstruction::JoinGame { game_id } => {
                out.push(1);
                push_u64(&mut out, *game_id);
            },
            GameInstruction::CompleteGame { game_id, seed, result } => {
                out.push(2);
                push_u64(&mut out, *game_id);
                push_bytes32(&mut out, seed);
                push_bool(&mut out, *result);
            },
            GameInstruction::CancelGame { game_id } => {
                out.push(3);
                push_u64(&mut out, *game_id);
            },
        }
        out
    }

    /// Reads an operation from all of `data`. Fails with
    /// `InvalidInstructionData` where `data` is malformed: bytes that follow an
    /// operation are not accepted.
    pub fn try_from_slice(data: &[u8]) -> (instruction: Result<GameInstruction, ProgramError>)
        ensures
            instruction == Self::spec_try_from_slice(data@),
            instruction matches Ok(i) ==> i.spec_bytes() == data@,
            instruction is Err <==> Self::malformed(data@),
    {
        if data.len() == 0 {
            proof {
                Self::lemma_malformed(data@);
            }
            return Err(ProgramError::InvalidInstructionData);
        }
        let tag = data[0];
        let expected: usize = if tag == 0 {
            10
        } else if tag == 2 {
            42
        } else {
            9
        };
        if tag > 3 || data.len() != expected {
            proof {
                Self::lemma_malformed(data@);
            }
            return Err(ProgramError::InvalidInstructionData);
        }
        let number = read_u64(data, 1);
        proof {
            lemma_le_bytes_of_value(data@.subrange(1, 9));
        }
        let instruction = if tag == 0 {
            match read_bool(data, 9) {
                Some(choice) => GameInstruction::CreateGame { bet_amount: number, choice },
                None => {
                    proof {
                        Self::lemma_malformed(data@);
                    }
                    return Err(ProgramError::InvalidInstructionData);
                },
            }
        } else if tag == 1 {
            GameInstruction::JoinGame { game_id: number }
        } else if tag == 2 {
            let seed = read_bytes32(data, 9);
            match read_bool(data, 41) {
                Some(result) => GameInstruction::CompleteGame { game_id: number, seed, result },
                None => {
                    proof {
                        Self::lemma_malformed(data@);
                    }
                    return Err(ProgramError::InvalidInstructionData);
                },
            }
        } else {
            GameInstruction::CancelGame { game_id: number }
        };
        proof {
            assert(instruction.spec_bytes() =~= data@);
            instruction.lemma_try_from_slice_of_bytes();
        }
        Ok(instruction)
    }

    /// The request that opens a game: the game account, the creator as
    /// signer, the service account, all three to be changed, and the system
    /// program.
    pub fn create_game(
        program_id: &Pubkey,
        game_account: &Pubkey,
        player: &Pubkey,
        service_account: &Pubkey,
        bet_amount: u64,
        choice: bool,
    ) -> (request: Instruction)
        ensures
            request@ == (InstructionView {
                program_id: *program_id,
                accounts: seq![
                    AccountMeta { pubkey: *game_account, is_signer: false, is_writable: true },
                    AccountMeta { pubkey: *player, is_signer: true, is_writable: true },
                    AccountMeta { pubkey: *service_account, is_signer: false, is_writable: true },
                    AccountMeta {
                        pubkey: spec_system_program_id(),
                        is_signer: false,
                        is_writable: false,
                    },
                ],
                data: (GameInstruction::CreateGame { bet_amount, choice }).spec_bytes(),
            }),
    {
        let data = (GameInstruction::CreateGame { bet_amount, choice }).to_vec();
        let mut accounts: Vec<AccountMeta> = Vec::new();
        accounts.push(AccountMeta::new(*game_account, false));
        accounts.push(AccountMeta::new(*player, true));
        accounts.push(AccountMeta::new(*service_account, false));
        accounts.push(AccountMeta::new_readonly(system_program_id(), false));
        let request = Instruction { program_id: *program_id, accounts, data };
        assert(request@.accounts =~= seq![
            AccountMeta { pubkey: *game_account, is_signer: false, is_writable: true },
            AccountMeta { pubkey: *player, is_signer: true, is_writable: true },
            AccountMeta { pubkey: *service_account, is_signer: false, is_writable: true },
            AccountMeta { pubkey: spec_system_program_id(), is_signer: false, is_writable: false },
        ]);
        request
    }

    /// The request that joins a game: the game account and the joining player
    /// as signer, both to be changed, and the system program.
    pub fn join_game(
        program_id: &Pubkey,
        game_account: &Pubkey,
        player: &Pubkey,
        game_id: u64,
    ) -> (request: Instruction)
        ensures
            request@ == (InstructionView {
                program_id: *program_id,
                accounts: seq![
                    AccountMeta { pubkey: *game_account, is_signer: false, is_writable: true },
                    AccountMeta { pubkey: *player, is_signer: true, is_writable: true },
                    AccountMeta {
                        pubkey: spec_system_program_id(),
                        is_signer: false,
                        is_writable: false,
                    },
                ],
                data: (GameInstruction::JoinGame { game_id }).spec_bytes(),
            }),
    {
        let data = (GameInstruction::JoinGame { game_id }).to_vec();
        let mut accounts: Vec<AccountMeta> = Vec::new();
        accounts.push(AccountMeta::new(*game_account, false));
        accounts.push(AccountMeta::new(*player, true));
        accounts.push(AccountMeta::new_readonly(system_program_id(), false));
        let request = Instruction { program_id: *program_id, accounts, data };
        assert(request@.accounts =~= seq![
            AccountMeta { pubkey: *game_account, is_signer: false, is_writable: true },
            AccountMeta { pubkey: *player, is_signer: true, is_writable: true },
            AccountMeta { pubkey: spec_system_program_id(), is_signer: false, is_writable: false },
        ]);
        request
    }

    /// The request that completes a game: the game account, to be changed; the
    /// oracle as signer; and the account that is paid, to be changed.
    pub fn complete_game(
        program_id: &Pubkey,
        game_account: &Pubkey,
        service_account: &Pubkey,
        winner_account: &Pubkey,
        game_id: u64,
        seed: [u8; 32],
        result: bool,
    ) -> (request: Instruction)
        ensures
            request@ == (InstructionView {
                program_id: *program_id,
                accounts: seq![
                    AccountMeta { pubkey: *game_account, is_signer: false, is_writable: true },
                    AccountMeta { pubkey: *service_account, is_signer: true, is_writable: false },
                    AccountMeta { pubkey: *winner_account, is_signer: false, is_writable: true },
                ],
                data: (GameInstruction::CompleteGame { game_id, seed, result }).spec_bytes(),
            }),
    {
        let data = (GameInstruction::CompleteGame { game_id, seed, result }).to_vec();
        let mut accounts: Vec<AccountMeta> = Vec::new();
        accounts.push(AccountMeta::new(*game_account, false));
        accounts.push(AccountMeta::new_readonly(*service_account, true));
        accounts.push(AccountMeta::new(*winner_account, false));
        let request = Instruction { program_id: *program_id, accounts, data };
        assert(request@.accounts =~= seq![
            AccountMeta { pubkey: *game_account, is_signer: false, is_writable: true },
            AccountMeta { pubkey: *service_account, is_signer: true, is_writable: false },
            AccountMeta { pubkey: *winner_account, is_signer: false, is_writable: true },
        ]);
        request
    }

    /// The request that cancels a game: the game account and the creator's
    /// account as signer, both to be changed, and the system program.
    pub fn cancel_game(
        program_id: &Pubkey,
        game_account: &Pubkey,
        player: &Pubkey,
        game_id: u64,
    ) -> (request: Instruction)
        ensures
            request@ == (InstructionView {
                program_id: *program_id,
                accounts: seq![
                    AccountMeta { pubkey: *game_account, is_signer: false, is_writable: true },
                    AccountMeta { pubkey: *player, is_signer: true, is_writable: true },
                    AccountMeta {
                        pubkey: spec_system_program_id(),
                        is_signer: false,
                        is_writable: false,
                    },
                ],
                data: (GameInstruction::CancelGame { game_id }).spec_bytes(),
            }),
    {
        let data = (GameInstruction::CancelGame { game_id }).to_vec();
        let mut accounts: Vec<AccountMeta> = Vec::new();
        accounts.push(AccountMeta::new(*game_account, false));
        accounts.push(AccountMeta::new(*player, true));
        accounts.push(AccountMeta::new_readonly(system_program_id(), false));
        let request = Instruction { program_id: *program_id, accounts, data };
        assert(request@.accounts =~= seq![
            AccountMeta { pubkey: *game_account, is_signer: false, is_writable: true },
            AccountMeta { pubkey: *player, is_signer: true, is_writable: true },
            AccountMeta { pubkey: spec_system_program_id(), is_signer: false, is_writable: false },
        ]);
        request
    }
}

} // verus!
