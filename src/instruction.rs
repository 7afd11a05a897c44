//! Wire form of the program's instructions: a little-endian `u32` variant tag
//! followed by the variant's fields, each little-endian and fixed-width.

use crate::orders::AccountKey;
use solana_program::program_error::ProgramError;
use vstd::prelude::*;

verus! {

/// An instruction of the program.
#[derive(Debug, Clone, Copy, PartialEq, Eq, Structural)]
pub enum MerpsInstruction {
    /// Initialize a group of lending pools that can be cross margined.
    InitMerpsGroup { signer_nonce: u64, valid_interval: u8 },
    /// Initialize a margin account for a user.
    InitMerpsAccount,
    /// Deposit funds into a margin account.
    Deposit { quantity: u64 },
    /// Withdraw funds that were deposited earlier.
    Withdraw { quantity: u64 },
    /// Add a token to a group.
    AddAsset,
}

/// `256` to the power `n`.
pub open spec fn pow256(n: nat) -> nat
    decreases n,
{
    if n == 0 {
        1
    } else {
        256 * pow256((n - 1) as nat)
    }
}

/// The number whose little-endian bytes are `s`.
pub open spec fn le_value(s: Seq<u8>) -> nat
    decreases s.len(),
{
    if s.len() == 0 {
        0
    } else {
        s[0] as nat + 256 * le_value(s.drop_first())
    }
}

/// The `n` low bytes of `x`, least significant first.
pub open spec fn le_bytes(x: nat, n: nat) -> Seq<u8>
    decreases n,
{
    if n == 0 {
        Seq::empty()
    } else {
        seq![(x % 256) as u8] + le_bytes(x / 256, (n - 1) as nat)
    }
}

/// The bytes of an instruction.
pub open spec fn encode(i: MerpsInstruction) -> Seq<u8> {
    match i {
        MerpsInstruction::InitMerpsGroup { signer_nonce, valid_interval } => le_bytes(0, 4) + le_bytes(
            signer_nonce as nat,
            8,
        ) + seq![valid_interval],
        MerpsInstruction::InitMerpsAccount => le_bytes(1, 4),
        MerpsInstruction::Deposit { quantity } => le_bytes(2, 4) + le_bytes(quantity as nat, 8),
        MerpsInstruction::Withdraw { quantity } => le_bytes(3, 4) + le_bytes(quantity as nat, 8),
        MerpsInstruction::AddAsset => le_bytes(4, 4),
    }
}

/// The instruction that `s` starts with; `None` for an unknown tag or too
/// few bytes. Bytes after the instruction are ignored.
pub open spec fn decode(s: Seq<u8>) -> Option<MerpsInstruction> {
    if s.len() < 4 {
        None
    } else {
        let tag = le_value(s.subrange(0, 4));
        if tag == 0 {
            if s.len() < 13 {
                None
            } else {
                Some(
                    MerpsInstruction::InitMerpsGroup {
                        signer_nonce: le_value(s.subrange(4, 12)) as u64,
                        valid_interval: s[12],
                    },
                )
            }
        } else if tag == 1 {
            Some(MerpsInstruction::InitMerpsAccount)
        } else if tag == 2 {
            if s.len() < 12 {
                None
            } else {
                Some(MerpsInstruction::Deposit { quantity: le_value(s.subrange(4, 12)) as u64 })
            }
        } else if tag == 3 {
            if s.len() < 12 {
                None
            } else {
                Some(MerpsInstruction::Withdraw { quantity: le_value(s.subrange(4, 12)) as u64 })
            }
        } else if tag == 4 {
            Some(MerpsInstruction::AddAsset)
        } else {
            None
        }
    }
}

proof fn lemma_le_value_bound(s: Seq<u8>)
    ensures
        le_value(s) < pow256(s.len()),
    decreases s.len(),
{
    if s.len() > 0 {
        lemma_le_value_bound(s.drop_first());
        let r = le_value(s.drop_first());
        let p = pow256((s.len() - 1) as nat);
        assert(s[0] as nat + 256 * r < 256 * p) by (nonlinear_arith)
            requires
                r < p,
                s[0] < 256,
        ;
    }
}

/// Reads `n` little-endian bytes of `s` from `start`.
fn read_le(s: &[u8], start: usize, n: usize) -> (r: u64)
    requires
        n <= 8,
        start + n <= s@.len(),
    ensures
        r == le_value(s@.subrange(start as int, start + n)),
{
    proof {
        lemma_le_value_bound(s@.subrange(start as int, start + n));
        lemma_pow256_8();
        lemma_pow256_mono(n as nat, 8);
    }
    let len: usize = s.len();
    assert(start + n <= len);
    let end: usize = start + n;
    let mut i: usize = end;
    let mut acc: u64 = 0;
    assert(s@.subrange(end as int, end as int) =~= Seq::<u8>::empty());
    while i > start
        invariant
            start <= i <= end,
            end == start + n,
            end <= s@.len(),
            n <= 8,
            acc == le_value(s@.subrange(i as int, end as int)),
            le_value(s@.subrange(start as int, end as int)) < 0x1_0000_0000_0000_0000,
        decreases i - start,
    {
        let ghost prev = s@.subrange(i as int, end as int);
        let ghost next = s@.subrange(i - 1, end as int);
        assert(next.drop_first() =~= prev);
        proof {
            lemma_le_value_bound(next);
            lemma_pow256_mono(next.len(), 8);
            lemma_pow256_8();
            assert(next[0] == s@[i - 1]);
            assert(le_value(next) == next[0] as nat + 256 * le_value(prev));
        }
        i = i - 1;
        acc = s[i] as u64 + 256 * acc;
    }
    acc
}

proof fn lemma_pow256_8()
    ensures
        pow256(8) == 0x1_0000_0000_0000_0000,
{
    reveal_with_fuel(pow256, 9);
}

proof fn lemma_pow256_mono(a: nat, b: nat)
    requires
        a <= b,
    ensures
        pow256(a) <= pow256(b),
    decreases b,
{
    if a < b {
        lemma_pow256_mono(a, (b - 1) as nat);
    }
}


proof fn lemma_le_bytes_len(x: nat, n: nat)
    ensures
        le_bytes(x, n).len() == n,
    decreases n,
{
    if n > 0 {
        lemma_le_bytes_len(x / 256, (n - 1) as nat);
    }
}

/// Reading back the `n` low bytes of a number below `256^n` gives the number.
pub proof fn lemma_le_round_trip(x: nat, n: nat)
    requires
        x < pow256(n),
    ensures
        le_value(le_bytes(x, n)) == x,
        le_bytes(x, n).len() == n,
    decreases n,
{
    lemma_le_bytes_len(x, n);
    if n > 0 {
        let p = pow256((n - 1) as nat);
        assert(x / 256 < p) by (nonlinear_arith)
            requires
                x < 256 * p,
        ;
        lemma_le_round_trip(x / 256, (n - 1) as nat);
        let b = le_bytes(x, n);
        assert(b.drop_first() =~= le_bytes(x / 256, (n - 1) as nat));
    }
}

/// Appends the `n` low bytes of `x`, least significant first.
fn push_le(v: &mut Vec<u8>, x: u64, n: usize)
    ensures
        final(v)@ == old(v)@ + le_bytes(x as nat, n as nat),
{
    let ghost start = v@;
    let mut y: u64 = x;
    let mut k: usize = 0;
    assert(v@ + le_bytes(y as nat, n as nat) =~= start + le_bytes(x as nat, n as nat));
    while k < n
        invariant
            k <= n,
            v@ + le_bytes(y as nat, (n - k) as nat) == start + le_bytes(x as nat, n as nat),
        decreases n - k,
    {
        let ghost before = v@;
        let ghost m = (n - k) as nat;
        assert(le_bytes(y as nat, m) == seq![(y as nat % 256) as u8] + le_bytes(
            y as nat / 256,
            (m - 1) as nat,
        ));
        v.push((y % 256) as u8);
        assert(before + le_bytes(y as nat, m) =~= v@ + le_bytes(y as nat / 256, (m - 1) as nat));
        y = y / 256;
        k = k + 1;
    }
    assert(v@ + le_bytes(y as nat, 0) =~= v@);
}

/// Decoding the bytes of an instruction gives the instruction back.
pub proof fn lemma_decode_encode(i: MerpsInstruction)
    ensures
        decode(encode(i)) == Some(i),
{
    lemma_pow256_8();
    reveal_with_fuel(pow256, 5);
    let e = encode(i);
    match i {
        MerpsInstruction::InitMerpsGroup { signer_nonce, valid_interval } => {
            lemma_le_round_trip(0, 4);
            lemma_le_round_trip(signer_nonce as nat, 8);
            assert(e.subrange(0, 4) =~= le_bytes(0, 4));
            assert(e.subrange(4, 12) =~= le_bytes(signer_nonce as nat, 8));
        },
        MerpsInstruction::InitMerpsAccount => {
            lemma_le_round_trip(1, 4);
            assert(e.subrange(0, 4) =~= le_bytes(1, 4));
        },
        MerpsInstruction::Deposit { quantity } => {
            lemma_le_round_trip(2, 4);
            lemma_le_round_trip(quantity as nat, 8);
            assert(e.subrange(0, 4) =~= le_bytes(2, 4));
            assert(e.subrange(4, 12) =~= le_bytes(quantity as nat, 8));
        },
        MerpsInstruction::Withdraw { quantity } => {
            lemma_le_round_trip(3, 4);
            lemma_le_round_trip(quantity as nat, 8);
            assert(e.subrange(0, 4) =~= le_bytes(3, 4));
            assert(e.subrange(4, 12) =~= le_bytes(quantity as nat, 8));
        },
        MerpsInstruction::AddAsset => {
            lemma_le_round_trip(4, 4);
            assert(e.subrange(0, 4) =~= le_bytes(4, 4));
        },
    }
}

impl MerpsInstruction {
    /// Decodes the instruction at the start of `input`; `None` for an
    /// unknown tag or too few bytes.
    pub fn unpack(input: &[u8]) -> (r: Option<Self>)
        ensures
            r == decode(input@),
    {
        let len = input.len();
        if len < 4 {
            return None;
        }
        let tag = read_le(input, 0, 4);
        if tag == 0 {
            if len < 13 {
                return None;
            }
            Some(
                MerpsInstruction::InitMerpsGroup {
                    signer_nonce: read_le(input, 4, 8),
                    valid_interval: input[12],
                },
            )
        } else if tag == 1 {
            Some(MerpsInstruction::InitMerpsAccount)
        } else if tag == 2 {
            if len < 12 {
                return None;
            }
            Some(MerpsInstruction::Deposit { quantity: read_le(input, 4, 8) })
        } else if tag == 3 {
            if len < 12 {
                return None;
            }
            Some(MerpsInstruction::Withdraw { quantity: read_le(input, 4, 8) })
        } else if tag == 4 {
            Some(MerpsInstruction::AddAsset)
        } else {
            None
        }
    }

    /// The bytes of this instruction.
    pub fn pack(&self) -> (r: Vec<u8>)
        ensures
            r@ == encode(*self),
    {
        let mut v: Vec<u8> = Vec::new();
        match self {
            MerpsInstruction::InitMerpsGroup { signer_nonce, valid_interval } => {
                push_le(&mut v, 0, 4);
                push_le(&mut v, *signer_nonce, 8);
                v.push(*valid_interval);
            },
            MerpsInstruction::InitMerpsAccount => {
                push_le(&mut v, 1, 4);
            },
            MerpsInstruction::Deposit { quantity } => {
                push_le(&mut v, 2, 4);
                push_le(&mut v, *quantity, 8);
            },
            MerpsInstruction::Withdraw { quantity } => {
                push_le(&mut v, 3, 4);
                push_le(&mut v, *quantity, 8);
            },
            MerpsInstruction::AddAsset => {
                push_le(&mut v, 4, 4);
            },
        }
        assert(v@ =~= encode(*self));
        v
    }
}


/// An account that an instruction reads or writes, and whether it signs.
#[derive(Debug, Clone, Copy, PartialEq, Eq)]
pub struct AccountMeta {
    pub pubkey: AccountKey,
    pub is_signer: bool,
    pub is_writable: bool,
}

/// A program call: the program, the accounts it is handed, and its data.
#[derive(Debug, Clone, PartialEq, Eq)]
pub struct Instruction {
    pub program_id: AccountKey,
    pub accounts: Vec<AccountMeta>,
    pub data: Vec<u8>,
}

/// The address of the rent sysvar, `SysvarRent111111111111111111111111111111111`.
pub open spec fn rent_sysvar_key() -> Seq<u8> {
    seq![
        6u8, 167u8, 213u8, 23u8, 25u8, 44u8, 92u8, 81u8,
        33u8, 140u8, 201u8, 76u8, 61u8, 74u8, 241u8, 127u8,
        88u8, 218u8, 238u8, 8u8, 155u8, 161u8, 253u8, 68u8,
        227u8, 219u8, 217u8, 138u8, 0u8, 0u8, 0u8, 0u8,
    ]
}

/// The address of the token program, `TokenkegQfeZyiNwAJbNbGKPFXCWuBvf9Ss623VQ5DA`.
pub open spec fn token_program_key() -> Seq<u8> {
    seq![
        6u8, 221u8, 246u8, 225u8, 215u8, 101u8, 161u8, 147u8,
        217u8, 203u8, 225u8, 70u8, 206u8, 235u8, 121u8, 172u8,
        28u8, 180u8, 133u8, 237u8, 95u8, 91u8, 55u8, 145u8,
        58u8, 140u8, 245u8, 133u8, 126u8, 255u8, 0u8, 169u8,
    ]
}

/// Relies on solana_program::sysvar::rent::ID: the address of the rent sysvar.
#[verifier::external_body]
fn rent_sysvar_id() -> (r: AccountKey)
    ensures
        r@ == rent_sysvar_key(),
{
    solana_program::sysvar::rent::ID.to_bytes()
}

/// Relies on spl_token::ID: the address of the token program.
#[verifier::external_body]
fn token_program_id() -> (r: AccountKey)
    ensures
        r@ == token_program_key(),
{
    spl_token::ID.to_bytes()
}

/// The instruction that initialises a group.
pub fn init_merps_group(
    program_id: &AccountKey,
    merps_group_pk: &AccountKey,
    signer_pk: &AccountKey,
    admin_pk: &AccountKey,
    quote_mint_pk: &AccountKey,
    quote_vault_pk: &AccountKey,
    quote_node_bank_pk: &AccountKey,
    quote_root_bank_pk: &AccountKey,
    signer_nonce: u64,
    valid_interval: u8,
) -> (r: Result<Instruction, ProgramError>)
    ensures
        r is Ok,
        r->Ok_0.program_id == *program_id,
        r->Ok_0.data@ == encode(MerpsInstruction::InitMerpsGroup { signer_nonce, valid_interval }),
        r->Ok_0.accounts@.len() == 8,
        r->Ok_0.accounts@[0] == (AccountMeta { pubkey: *merps_group_pk, is_signer: false, is_writable: true }),
        r->Ok_0.accounts@[1].pubkey@ == rent_sysvar_key(),
        r->Ok_0.accounts@[1].is_signer == false,
        r->Ok_0.accounts@[1].is_writable == false,
        r->Ok_0.accounts@[2] == (AccountMeta { pubkey: *signer_pk, is_signer: false, is_writable: false }),
        r->Ok_0.accounts@[3] == (AccountMeta { pubkey: *admin_pk, is_signer: true, is_writable: false }),
        r->Ok_0.accounts@[4] == (AccountMeta { pubkey: *quote_mint_pk, is_signer: false, is_writable: false }),
        r->Ok_0.accounts@[5] == (AccountMeta { pubkey: *quote_vault_pk, is_signer: false, is_writable: false }),
        r->Ok_0.accounts@[6] == (AccountMeta { pubkey: *quote_node_bank_pk, is_signer: false, is_writable: true }),
        r->Ok_0.accounts@[7] == (AccountMeta { pubkey: *quote_root_bank_pk, is_signer: false, is_writable: true }),
{
    let mut accounts: Vec<AccountMeta> = Vec::new();
    accounts.push(AccountMeta { pubkey: *merps_group_pk, is_signer: false, is_writable: true });
    accounts.push(AccountMeta { pubkey: rent_sysvar_id(), is_signer: false, is_writable: false });
    accounts.push(AccountMeta { pubkey: *signer_pk, is_signer: false, is_writable: false });
    accounts.push(AccountMeta { pubkey: *admin_pk, is_signer: true, is_writable: false });
    accounts.push(AccountMeta { pubkey: *quote_mint_pk, is_signer: false, is_writable: false });
    accounts.push(AccountMeta { pubkey: *quote_vault_pk, is_signer: false, is_writable: false });
    accounts.push(AccountMeta { pubkey: *quote_node_bank_pk, is_signer: false, is_writable: true });
    accounts.push(AccountMeta { pubkey: *quote_root_bank_pk, is_signer: false, is_writable: true });
    let instr = MerpsInstruction::InitMerpsGroup { signer_nonce, valid_interval };
    let data = instr.pack();
    Ok(Instruction { program_id: *program_id, accounts, data })
}

/// The instruction that initialises a margin account for `owner_pk`.
pub fn init_merps_account(
    program_id: &AccountKey,
    merps_group_pk: &AccountKey,
    merps_account_pk: &AccountKey,
    owner_pk: &AccountKey,
) -> (r: Result<Instruction, ProgramError>)
    ensures
        r is Ok,
        r->Ok_0.program_id == *program_id,
        r->Ok_0.data@ == encode(MerpsInstruction::InitMerpsAccount),
        r->Ok_0.accounts@.len() == 4,
        r->Ok_0.accounts@[0] == (AccountMeta { pubkey: *merps_group_pk, is_signer: false, is_writable: false }),
        r->Ok_0.accounts@[1] == (AccountMeta { pubkey: *merps_account_pk, is_signer: false, is_writable: true }),
        r->Ok_0.accounts@[2] == (AccountMeta { pubkey: *owner_pk, is_signer: true, is_writable: false }),
        r->Ok_0.accounts@[3].pubkey@ == rent_sysvar_key(),
        r->Ok_0.accounts@[3].is_signer == false,
        r->Ok_0.accounts@[3].is_writable == false,
{
    let mut accounts: Vec<AccountMeta> = Vec::new();
    accounts.push(AccountMeta { pubkey: *merps_group_pk, is_signer: false, is_writable: false });
    accounts.push(AccountMeta { pubkey: *merps_account_pk, is_signer: false, is_writable: true });
    accounts.push(AccountMeta { pubkey: *owner_pk, is_signer: true, is_writable: false });
    accounts.push(AccountMeta { pubkey: rent_sysvar_id(), is_signer: false, is_writable: false });
    let instr = MerpsInstruction::InitMerpsAccount;
    let data = instr.pack();
    Ok(Instruction { program_id: *program_id, accounts, data })
}

/// The instruction that deposits `quantity` from the owner's token account.
pub fn deposit(
    program_id: &AccountKey,
    merps_group_pk: &AccountKey,
    merps_account_pk: &AccountKey,
    owner_pk: &AccountKey,
    root_bank_pk: &AccountKey,
    node_bank_pk: &AccountKey,
    vault_pk: &AccountKey,
    owner_token_account_pk: &AccountKey,
    quantity: u64,
) -> (r: Result<Instruction, ProgramError>)
    ensures
        r is Ok,
        r->Ok_0.program_id == *program_id,
        r->Ok_0.data@ == encode(MerpsInstruction::Deposit { quantity }),
        r->Ok_0.accounts@.len() == 8,
        r->Ok_0.accounts@[0] == (AccountMeta { pubkey: *merps_group_pk, is_signer: false, is_writable: true }),
        r->Ok_0.accounts@[1] == (AccountMeta { pubkey: *merps_account_pk, is_signer: false, is_writable: true }),
        r->Ok_0.accounts@[2] == (AccountMeta { pubkey: *owner_pk, is_signer: true, is_writable: false }),
        r->Ok_0.accounts@[3] == (AccountMeta { pubkey: *root_bank_pk, is_signer: false, is_writable: true }),
        r->Ok_0.accounts@[4] == (AccountMeta { pubkey: *node_bank_pk, is_signer: false, is_writable: true }),
        r->Ok_0.accounts@[5] == (AccountMeta { pubkey: *vault_pk, is_signer: false, is_writable: true }),
        r->Ok_0.accounts@[6].pubkey@ == token_program_key(),
        r->Ok_0.accounts@[6].is_signer == false,
        r->Ok_0.accounts@[6].is_writable == false,
        r->Ok_0.accounts@[7] == (AccountMeta { pubkey: *owner_token_account_pk, is_signer: false, is_writable: true }),
{
    let mut accounts: Vec<AccountMeta> = Vec::new();
    accounts.push(AccountMeta { pubkey: *merps_group_pk, is_signer: false, is_writable: true });
    accounts.push(AccountMeta { pubkey: *merps_account_pk, is_signer: false, is_writable: true });
    accounts.push(AccountMeta { pubkey: *owner_pk, is_signer: true, is_writable: false });
    accounts.push(AccountMeta { pubkey: *root_bank_pk, is_signer: false, is_writable: true });
    accounts.push(AccountMeta { pubkey: *node_bank_pk, is_signer: false, is_writable: true });
    accounts.push(AccountMeta { pubkey: *vault_pk, is_signer: false, is_writable: true });
    accounts.push(AccountMeta { pubkey: token_program_id(), is_signer: false, is_writable: false });
    accounts.push(AccountMeta { pubkey: *owner_token_account_pk, is_signer: false, is_writable: true });
    let instr = MerpsInstruction::Deposit { quantity };
    let data = instr.pack();
    Ok(Instruction { program_id: *program_id, accounts, data })
}

} // verus!
