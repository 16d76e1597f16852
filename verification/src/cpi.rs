//! Descriptions of the cross-program invocations that the instruction
//! handlers ask for, the seeds with which program-derived authorities sign
//! them, and the construction of system-program transfers.

use vstd::prelude::*;
use anchor_lang::solana_program::pubkey::Pubkey;
use anchor_lang::solana_program::system_instruction;

verus! {

/// The bytes of an ASCII string.
pub open spec fn ascii_bytes(s: Seq<char>) -> Seq<u8> {
    s.map_values(|c: char| c as u8)
}

/// The program-derived authorities that sign token transfers for the game.
#[derive(Clone, Copy, Debug, PartialEq, Eq, Structural)]
pub enum PdaAuthority {
    Breeding,
    Culling,
    Barn,
    Store,
}

impl PdaAuthority {
    /// The fixed seed from which the authority's address is derived.
    pub open spec fn prefix(self) -> Seq<u8> {
        match self {
            PdaAuthority::Breeding => ascii_bytes("breeding_authority"@),
            PdaAuthority::Culling => ascii_bytes("culling_authority"@),
            PdaAuthority::Barn => ascii_bytes("barn_authority"@),
            PdaAuthority::Store => ascii_bytes("store_authority"@),
        }
    }
}

/// The fixed seed of `authority`: `"breeding_authority"`,
/// `"culling_authority"`, `"barn_authority"` or `"store_authority"`.
pub fn seed_prefix(authority: PdaAuthority) -> (r: Vec<u8>)
    ensures
        r@ == authority.prefix(),
{
    proof {
        reveal_strlit("breeding_authority");
        reveal_strlit("culling_authority");
        reveal_strlit("barn_authority");
        reveal_strlit("store_authority");
    }
    let r: Vec<u8> = match authority {
        PdaAuthority::Breeding => vec![98, 114, 101, 101, 100, 105, 110, 103, 95, 97, 117, 116, 104, 111, 114, 105, 116, 121],
        PdaAuthority::Culling => vec![99, 117, 108, 108, 105, 110, 103, 95, 97, 117, 116, 104, 111, 114, 105, 116, 121],
        PdaAuthority::Barn => vec![98, 97, 114, 110, 95, 97, 117, 116, 104, 111, 114, 105, 116, 121],
        PdaAuthority::Store => vec![115, 116, 111, 114, 101, 95, 97, 117, 116, 104, 111, 114, 105, 116, 121],
    };
    assert(r@ =~= authority.prefix());
    r
}

/// A program-derived signer: which authority signs, with which bump seed.
#[derive(Clone, Copy, Debug, PartialEq, Eq, Structural)]
pub struct PdaSigner {
    pub authority: PdaAuthority,
    pub bump: u8,
}

impl PdaSigner {
    /// The seeds the signer signs with: its authority's fixed seed, then its
    /// bump as a single byte.
    pub open spec fn seeds(self) -> Seq<Seq<u8>> {
        seq![self.authority.prefix(), seq![self.bump]]
    }
}

/// The seeds with which `signer` signs (see `PdaSigner::seeds`).
pub fn signer_seeds(signer: &PdaSigner) -> (r: Vec<Vec<u8>>)
    ensures
        r@.map_values(|s: Vec<u8>| s@) == signer.seeds(),
{
    let prefix = seed_prefix(signer.authority);
    let bump: Vec<u8> = vec![signer.bump];
    assert(bump@ =~= seq![signer.bump]);
    let mut r: Vec<Vec<u8>> = Vec::new();
    r.push(prefix);
    r.push(bump);
    assert(r@[0]@ == signer.authority.prefix());
    assert(r@[1]@ == seq![signer.bump]);
    assert(r@.map_values(|s: Vec<u8>| s@) =~= signer.seeds());
    r
}

/// A call into the token program that an instruction needs performed, with
/// the 32-byte addresses of the accounts it is made with.
#[derive(Clone, Copy, Debug, PartialEq, Eq)]
pub enum TokenCpi {
    /// Burn `amount` base units of `mint` from the token account `from`,
    /// authorised by `authority`.
    Burn { token_program: [u8; 32], mint: [u8; 32], from: [u8; 32], authority: [u8; 32], amount: u64 },
    /// Move `amount` base units from the token account `from` to `to`,
    /// authorised by `authority`, and signed by `signer` when it is a
    /// program-derived authority.
    Transfer {
        token_program: [u8; 32],
        from: [u8; 32],
        to: [u8; 32],
        authority: [u8; 32],
        amount: u64,
        signer: Option<PdaSigner>,
    },
}

/// One account of an instruction, by its 32-byte address.
#[derive(Clone, Copy, Debug, PartialEq, Eq)]
pub struct AccountRef {
    pub pubkey: [u8; 32],
    pub is_signer: bool,
    pub is_writable: bool,
}

/// An instruction for a program, held as plain bytes.
#[derive(Clone, Debug, PartialEq, Eq)]
pub struct PlainInstruction {
    pub program_id: [u8; 32],
    pub accounts: Vec<AccountRef>,
    pub data: Vec<u8>,
}

/// The system program's address: thirty-two zero bytes.
pub open spec fn system_program_id() -> Seq<u8> {
    Seq::new(32, |i: int| 0u8)
}

/// The eight little-endian bytes of `v`.
pub open spec fn le_bytes(v: u64) -> Seq<u8> {
    seq![
        (v % 0x100) as u8,
        ((v / 0x100) % 0x100) as u8,
        ((v / 0x1_0000) % 0x100) as u8,
        ((v / 0x100_0000) % 0x100) as u8,
        ((v / 0x1_0000_0000) % 0x100) as u8,
        ((v / 0x100_0000_0000) % 0x100) as u8,
        ((v / 0x1_0000_0000_0000) % 0x100) as u8,
        ((v / 0x100_0000_0000_0000) % 0x100) as u8,
    ]
}

/// The instruction data with which the system program is told to move
/// `lamports` lamports: the transfer's variant index 2 as four little-endian
/// bytes, then the lamports as eight little-endian bytes.
pub open spec fn system_transfer_data(lamports: u64) -> Seq<u8> {
    seq![2u8, 0u8, 0u8, 0u8] + le_bytes(lamports)
}

/// A system-program transfer of `lamports` from `from` to `to`.
pub open spec fn is_system_transfer(ix: PlainInstruction, from: [u8; 32], to: [u8; 32], lamports: u64) -> bool {
    &&& ix.program_id@ == system_program_id()
    &&& ix.accounts@.len() == 2
    &&& ix.accounts@[0] == (AccountRef { pubkey: from, is_signer: true, is_writable: true })
    &&& ix.accounts@[1] == (AccountRef { pubkey: to, is_signer: false, is_writable: true })
    &&& ix.data@ == system_transfer_data(lamports)
}

/// Builds the system-program transfer instruction with
/// `system_instruction::transfer`. Its source (in `solana-system-interface`)
/// builds an instruction for the system program whose accounts are the payer
/// (writable, signer) and the recipient (writable), and whose data is the
/// bincode serialisation of `SystemInstruction::Transfer { lamports }`: the
/// variant index as a little-endian `u32`, then the lamports as a
/// little-endian `u64`.
#[verifier::external_body]
pub(crate) fn system_transfer(from: &[u8; 32], to: &[u8; 32], lamports: u64) -> (ix: PlainInstruction)
    ensures
        is_system_transfer(ix, *from, *to, lamports),
{
    let ix = system_instruction::transfer(&Pubkey::new_from_array(*from), &Pubkey::new_from_array(*to), lamports);
    let accounts = ix.accounts.iter().map(|m| AccountRef {
        pubkey: m.pubkey.to_bytes(),
        is_signer: m.is_signer,
        is_writable: m.is_writable,
    }).collect();
    PlainInstruction { program_id: ix.program_id.to_bytes(), accounts, data: ix.data }
}

} // verus!
