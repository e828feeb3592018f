use vstd::prelude::*;

use crate::error::ApiError;
use crate::keys::PublicKeyValue;

verus! {

/// The native system program identifier: 32 zero bytes.
pub open spec fn system_program_id() -> Seq<u8> {
    seq![
        0u8, 0, 0, 0, 0, 0, 0, 0, 0, 0, 0, 0, 0, 0, 0, 0, 0, 0, 0, 0, 0, 0, 0, 0, 0, 0, 0, 0, 0,
        0, 0, 0,
    ]
}

/// The SPL token program identifier.
pub open spec fn token_program_id() -> Seq<u8> {
    seq![
        6u8, 221, 246, 225, 215, 101, 161, 147, 217, 203, 225, 70, 206, 235, 121, 172, 28, 180,
        133, 237, 95, 91, 55, 145, 58, 140, 245, 133, 126, 255, 0, 169,
    ]
}

/// The associated-token-account program identifier.
pub open spec fn associated_token_program_id() -> Seq<u8> {
    seq![
        140u8, 151, 37, 143, 78, 36, 137, 241, 187, 61, 16, 41, 20, 142, 13, 131, 11, 90, 19,
        153, 218, 255, 16, 132, 4, 142, 123, 216, 219, 233, 248, 89,
    ]
}

/// The rent sysvar account identifier.
pub open spec fn rent_sysvar_id() -> Seq<u8> {
    seq![
        6u8, 167, 213, 23, 25, 44, 92, 81, 33, 140, 201, 76, 61, 74, 241, 127, 88, 218, 238, 8,
        155, 161, 253, 68, 227, 219, 217, 138, 0, 0, 0, 0,
    ]
}

/// Little-endian encoding of a 64-bit amount, as eight bytes.
pub open spec fn u64_le_bytes(v: u64) -> Seq<u8> {
    seq![
        (v & 0xff) as u8,
        ((v >> 8) & 0xff) as u8,
        ((v >> 16) & 0xff) as u8,
        ((v >> 24) & 0xff) as u8,
        ((v >> 32) & 0xff) as u8,
        ((v >> 40) & 0xff) as u8,
        ((v >> 48) & 0xff) as u8,
        ((v >> 56) & 0xff) as u8,
    ]
}

/// The wire payload of a native transfer: the 4-byte little-endian opcode of
/// the system program's transfer operation, then the lamports amount.
pub open spec fn sol_transfer_data(lamports: u64) -> Seq<u8> {
    seq![2u8, 0, 0, 0] + u64_le_bytes(lamports)
}

/// The wire payload of an SPL token transfer: a 1-byte opcode, then the
/// amount.
pub open spec fn token_transfer_data(amount: u64) -> Seq<u8> {
    seq![3u8] + u64_le_bytes(amount)
}

/// The wire payload of an SPL mint-to: a 1-byte opcode, then the amount.
pub open spec fn mint_to_data(amount: u64) -> Seq<u8> {
    seq![7u8] + u64_le_bytes(amount)
}

/// The wire payload of an SPL initialize-mint: a 1-byte opcode, the decimals
/// byte, the 32-byte mint authority, and a presence flag followed by the
/// 32-byte freeze authority when one is given.
pub open spec fn initialize_mint_data(
    decimals: u8,
    mint_authority: Seq<u8>,
    freeze_authority: Option<Seq<u8>>,
) -> Seq<u8> {
    match freeze_authority {
        None => seq![0u8, decimals] + mint_authority + seq![0u8],
        Some(f) => seq![0u8, decimals] + mint_authority + seq![1u8] + f,
    }
}

/// The initialize-mint payload without a freeze authority is exactly 35
/// bytes: one opcode byte, one decimals byte, the 32-byte authority, and
/// one cleared presence flag.
pub proof fn lemma_initialize_mint_data_len(decimals: u8, mint_authority: Seq<u8>)
    requires
        mint_authority.len() == 32,
    ensures
        initialize_mint_data(decimals, mint_authority, None).len() == 35,
{
}

/// How one referenced account must be treated by the executing runtime.
pub struct AccountMeta {
    pub address: PublicKeyValue,
    pub is_signer: bool,
    pub is_writable: bool,
}

impl AccountMeta {
    pub open spec fn wf(&self) -> bool {
        self.address.wf()
    }

    /// The triple this meta stands for: address bytes, signer flag,
    /// writable flag.
    pub open spec fn view_triple(&self) -> (Seq<u8>, bool, bool) {
        (self.address.bytes@, self.is_signer, self.is_writable)
    }
}

/// One instruction for the ledger runtime: a program identifier, the ordered
/// accounts it references, and its opaque data payload.
pub struct Instruction {
    pub program_id: PublicKeyValue,
    pub accounts: Vec<AccountMeta>,
    pub data: Vec<u8>,
}

impl Instruction {
    pub open spec fn wf(&self) -> bool {
        &&& self.program_id.wf()
        &&& forall|i: int| 0 <= i < self.accounts@.len() ==> (#[trigger] self.accounts@[i]).wf()
    }
}

/// Appends the little-endian bytes of `v` to `out`.
fn push_u64_le(out: &mut Vec<u8>, v: u64)
    ensures
        final(out)@ == old(out)@ + u64_le_bytes(v),
{
    out.push((v & 0xff) as u8);
    out.push(((v >> 8) & 0xff) as u8);
    out.push(((v >> 16) & 0xff) as u8);
    out.push(((v >> 24) & 0xff) as u8);
    out.push(((v >> 32) & 0xff) as u8);
    out.push(((v >> 40) & 0xff) as u8);
    out.push(((v >> 48) & 0xff) as u8);
    out.push(((v >> 56) & 0xff) as u8);
    proof {
        assert(out@ =~= old(out)@ + u64_le_bytes(v));
    }
}

/// Appends every byte of `src` to `out`.
pub(crate) fn append_bytes(out: &mut Vec<u8>, src: &Vec<u8>)
    ensures
        final(out)@ == old(out)@ + src@,
{
    let mut i: usize = 0;
    while i < src.len()
        invariant
            0 <= i <= src@.len(),
            out@ == old(out)@ + src@.subrange(0, i as int),
        decreases src@.len() - i,
    {
        out.push(src[i]);
        proof {
            assert(out@ =~= old(out)@ + src@.subrange(0, i + 1));
        }
        i += 1;
    }
    proof {
        assert(out@ =~= old(out)@ + src@);
    }
}

/// Copies a 32-byte key value.
fn copy_key(k: &PublicKeyValue) -> (r: PublicKeyValue)
    ensures
        r.bytes@ == k.bytes@,
{
    let mut bytes: Vec<u8> = Vec::new();
    append_bytes(&mut bytes, &k.bytes);
    proof {
        assert(bytes@ =~= k.bytes@);
    }
    PublicKeyValue { bytes }
}

/// The system program identifier as a value.
pub fn system_program_key() -> (r: PublicKeyValue)
    ensures
        r.bytes@ == system_program_id(),
{
    let bytes: Vec<u8> = vec![
        0u8, 0, 0, 0, 0, 0, 0, 0, 0, 0, 0, 0, 0, 0, 0, 0, 0, 0, 0, 0, 0, 0, 0, 0, 0, 0, 0, 0, 0,
        0, 0, 0,
    ];
    proof {
        assert(bytes@ =~= system_program_id());
    }
    PublicKeyValue { bytes }
}

/// The SPL token program identifier as a value.
pub fn token_program_key() -> (r: PublicKeyValue)
    ensures
        r.bytes@ == token_program_id(),
{
    let bytes: Vec<u8> = vec![
        6u8, 221, 246, 225, 215, 101, 161, 147, 217, 203, 225, 70, 206, 235, 121, 172, 28, 180,
        133, 237, 95, 91, 55, 145, 58, 140, 245, 133, 126, 255, 0, 169,
    ];
    proof {
        assert(bytes@ =~= token_program_id());
    }
    PublicKeyValue { bytes }
}

/// The associated-token-account program identifier as a value.
pub fn associated_token_program_key() -> (r: PublicKeyValue)
    ensures
        r.bytes@ == associated_token_program_id(),
{
    let bytes: Vec<u8> = vec![
        140u8, 151, 37, 143, 78, 36, 137, 241, 187, 61, 16, 41, 20, 142, 13, 131, 11, 90, 19,
        153, 218, 255, 16, 132, 4, 142, 123, 216, 219, 233, 248, 89,
    ];
    proof {
        assert(bytes@ =~= associated_token_program_id());
    }
    PublicKeyValue { bytes }
}

/// The rent sysvar identifier as a value.
pub fn rent_sysvar_key() -> (r: PublicKeyValue)
    ensures
        r.bytes@ == rent_sysvar_id(),
{
    let bytes: Vec<u8> = vec![
        6u8, 167, 213, 23, 25, 44, 92, 81, 33, 140, 201, 76, 61, 74, 241, 127, 88, 218, 238, 8,
        155, 161, 253, 68, 227, 219, 217, 138, 0, 0, 0, 0,
    ];
    proof {
        assert(bytes@ =~= rent_sysvar_id());
    }
    PublicKeyValue { bytes }
}

/// Builds the native transfer instruction: sender first (signer, writable),
/// recipient second (writable only), with the opcode and lamports payload.
/// A zero amount breaks the domain rule and is rejected.
pub fn build_sol_transfer(from: &PublicKeyValue, to: &PublicKeyValue, lamports: u64) -> (r: Result<
    Instruction,
    ApiError,
>)
    requires
        from.wf(),
        to.wf(),
    ensures
        lamports == 0 ==> r == Err::<Instruction, ApiError>(ApiError::DomainRuleViolation),
        lamports > 0 ==> (r matches Ok(ix) && {
            &&& ix.wf()
            &&& ix.program_id.bytes@ == system_program_id()
            &&& ix.accounts@.len() == 2
            &&& ix.accounts@[0].view_triple() == (from.bytes@, true, true)
            &&& ix.accounts@[1].view_triple() == (to.bytes@, false, true)
            &&& ix.data@ == sol_transfer_data(lamports)
        }),
{
    if lamports == 0 {
        return Err(ApiError::DomainRuleViolation);
    }
    let mut data: Vec<u8> = vec![2u8, 0, 0, 0];
    proof {
        assert(data@ =~= seq![2u8, 0, 0, 0]);
    }
    push_u64_le(&mut data, lamports);
    let mut accounts: Vec<AccountMeta> = Vec::new();
    accounts.push(AccountMeta { address: copy_key(from), is_signer: true, is_writable: true });
    accounts.push(AccountMeta { address: copy_key(to), is_signer: false, is_writable: true });
    Ok(Instruction { program_id: system_program_key(), accounts, data })
}

/// Builds the SPL token transfer instruction over already-resolved token
/// accounts: source, destination, then the owner authority as the only
/// signer.
pub fn build_token_transfer(
    source: &PublicKeyValue,
    destination: &PublicKeyValue,
    owner: &PublicKeyValue,
    amount: u64,
) -> (r: Instruction)
    requires
        source.wf(),
        destination.wf(),
        owner.wf(),
    ensures
        r.wf(),
        r.program_id.bytes@ == token_program_id(),
        r.accounts@.len() == 3,
        r.accounts@[0].view_triple() == (source.bytes@, false, true),
        r.accounts@[1].view_triple() == (destination.bytes@, false, true),
        r.accounts@[2].view_triple() == (owner.bytes@, true, false),
        r.data@ == token_transfer_data(amount),
{
    let mut data: Vec<u8> = vec![3u8];
    proof {
        assert(data@ =~= seq![3u8]);
    }
    push_u64_le(&mut data, amount);
    let mut accounts: Vec<AccountMeta> = Vec::new();
    accounts.push(AccountMeta { address: copy_key(source), is_signer: false, is_writable: true });
    accounts.push(
        AccountMeta { address: copy_key(destination), is_signer: false, is_writable: true },
    );
    accounts.push(AccountMeta { address: copy_key(owner), is_signer: true, is_writable: false });
    Instruction { program_id: token_program_key(), accounts, data }
}

/// Builds the SPL initialize-mint instruction: the mint account (writable)
/// and the rent sysvar, with decimals, mint authority and the optional
/// freeze authority in the payload.
pub fn build_initialize_mint(
    mint: &PublicKeyValue,
    mint_authority: &PublicKeyValue,
    freeze_authority: Option<&PublicKeyValue>,
    decimals: u8,
) -> (r: Instruction)
    requires
        mint.wf(),
        mint_authority.wf(),
        freeze_authority matches Some(f) ==> f.wf(),
    ensures
        r.wf(),
        r.program_id.bytes@ == token_program_id(),
        r.accounts@.len() == 2,
        r.accounts@[0].view_triple() == (mint.bytes@, false, true),
        r.accounts@[1].view_triple() == (rent_sysvar_id(), false, false),
        freeze_authority matches Some(f) ==> r.data@ == initialize_mint_data(
            decimals,
            mint_authority.bytes@,
            Some(f.bytes@),
        ),
        freeze_authority is None ==> r.data@ == initialize_mint_data(
            decimals,
            mint_authority.bytes@,
            None,
        ),
        freeze_authority is None ==> r.data@.len() == 35,
{
    let mut data: Vec<u8> = vec![0u8, decimals];
    proof {
        assert(data@ =~= seq![0u8, decimals]);
    }
    append_bytes(&mut data, &mint_authority.bytes);
    match freeze_authority {
        None => {
            data.push(0u8);
            proof {
                assert(data@ =~= initialize_mint_data(decimals, mint_authority.bytes@, None));
            }
        },
        Some(f) => {
            data.push(1u8);
            append_bytes(&mut data, &f.bytes);
            proof {
                assert(data@ =~= initialize_mint_data(
                    decimals,
                    mint_authority.bytes@,
                    Some(f.bytes@),
                ));
            }
        },
    }
    let mut accounts: Vec<AccountMeta> = Vec::new();
    accounts.push(AccountMeta { address: copy_key(mint), is_signer: false, is_writable: true });
    accounts.push(
        AccountMeta { address: rent_sysvar_key(), is_signer: false, is_writable: false },
    );
    Instruction { program_id: token_program_key(), accounts, data }
}

/// Builds the SPL mint-to instruction: the mint and destination token
/// account (both writable), then the mint authority as the only signer.
pub fn build_mint_to(
    mint: &PublicKeyValue,
    destination: &PublicKeyValue,
    authority: &PublicKeyValue,
    amount: u64,
) -> (r: Instruction)
    requires
        mint.wf(),
        destination.wf(),
        authority.wf(),
    ensures
        r.wf(),
        r.program_id.bytes@ == token_program_id(),
        r.accounts@.len() == 3,
        r.accounts@[0].view_triple() == (mint.bytes@, false, true),
        r.accounts@[1].view_triple() == (destination.bytes@, false, true),
        r.accounts@[2].view_triple() == (authority.bytes@, true, false),
        r.data@ == mint_to_data(amount),
{
    let mut data: Vec<u8> = vec![7u8];
    proof {
        assert(data@ =~= seq![7u8]);
    }
    push_u64_le(&mut data, amount);
    let mut accounts: Vec<AccountMeta> = Vec::new();
    accounts.push(AccountMeta { address: copy_key(mint), is_signer: false, is_writable: true });
    accounts.push(
        AccountMeta { address: copy_key(destination), is_signer: false, is_writable: true },
    );
    accounts.push(
        AccountMeta { address: copy_key(authority), is_signer: true, is_writable: false },
    );
    Instruction { program_id: token_program_key(), accounts, data }
}

} // verus!
