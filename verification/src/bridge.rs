//! The bridge to what lies outside the registry: the ledger, which stores its
//! records; the asset service, which holds balances; and the metadata service,
//! which describes an asset, counts its uses and records its collection. The
//! registry decides which calls are made, with what; whoever runs it makes
//! them, in their order, within the one transaction.
use crate::address::{seed_list, Address};
use crate::programs::{associated_token_program, metadata_program, system_program, token_program};
use mpl_token_metadata::instruction as metadata_instruction;
use mpl_token_metadata::state;
use mpl_token_metadata::ID;
use solana_program::pubkey::Pubkey;
use vstd::bytes::{spec_u16_to_le_bytes, spec_u32_to_le_bytes, spec_u64_to_le_bytes};
use vstd::prelude::*;
use vstd::utf8::encode_utf8;

verus! {

/// How the uses of an asset are consumed.
#[derive(Clone, Copy, Debug, PartialEq, Eq, Structural)]
pub enum UseMethod {
    Burn,
    Multiple,
    Single,
}

/// The use-counter of an asset: how many uses it was given and how many remain.
#[derive(Clone, Copy, Debug, PartialEq, Eq, Structural)]
pub struct Uses {
    pub use_method: UseMethod,
    pub remaining: u64,
    pub total: u64,
}

/// One account that an instruction names, and what it may do with it.
#[derive(Clone, Copy, Debug, PartialEq, Eq)]
pub struct AccountMeta {
    pub pubkey: Address,
    pub is_signer: bool,
    pub is_writable: bool,
}

/// An instruction for another program: the program, the accounts it is given
/// and the bytes that say what it is to do.
#[derive(Clone, Debug, PartialEq, Eq)]
pub struct Instruction {
    pub program_id: Address,
    pub accounts: Vec<AccountMeta>,
    pub data: Vec<u8>,
}

/// An instruction as a mathematical value.
#[verifier::ext_equal]
pub struct InstructionView {
    pub program_id: Address,
    pub accounts: Seq<AccountMeta>,
    pub data: Seq<u8>,
}

impl View for Instruction {
    type V = InstructionView;

    open spec fn view(&self) -> InstructionView {
        InstructionView { program_id: self.program_id, accounts: self.accounts@, data: self.data@ }
    }
}

/// An account that the instruction may write to.
pub open spec fn writable(pubkey: Address, is_signer: bool) -> AccountMeta {
    AccountMeta { pubkey, is_signer, is_writable: true }
}

/// An account that the instruction only reads.
pub open spec fn readonly(pubkey: Address, is_signer: bool) -> AccountMeta {
    AccountMeta { pubkey, is_signer, is_writable: false }
}

/// The most bytes of a text that an instruction can carry.
pub open spec fn text_fits(text: Seq<char>) -> bool {
    encode_utf8(text).len() <= u32::MAX
}

/// Whether the text is short enough for an instruction to carry.
pub fn check_text(text: &String) -> (r: bool)
    ensures
        r == text_fits(text@),
{
    text.as_str().as_bytes().len() <= u32::MAX as usize
}

/// A text as an instruction carries it: the number of its bytes in four
/// bytes, the lowest first, then the bytes.
pub open spec fn text_bytes(text: Seq<char>) -> Seq<u8> {
    spec_u32_to_le_bytes(encode_utf8(text).len() as u32) + encode_utf8(text)
}

/// A use-counter as an instruction carries it: 0 for none, or 1, the number
/// of the method, and the remaining and the total uses in eight bytes each,
/// the lowest first.
pub open spec fn uses_bytes(uses: Option<Uses>) -> Seq<u8> {
    match uses {
        Some(uses) => seq![
            1u8,
            match uses.use_method {
                UseMethod::Burn => 0u8,
                UseMethod::Multiple => 1u8,
                UseMethod::Single => 2u8,
            },
        ] + spec_u64_to_le_bytes(uses.remaining) + spec_u64_to_le_bytes(uses.total),
        None => seq![0u8],
    }
}

/// The bytes that tell the metadata service what to record of an asset that
/// has no creators, no collection and no collection details: the number 33;
/// name, symbol and uri; the royalties in two bytes, the lowest first; 0 for
/// no creators; 0 for no collection; the use-counter; 1 where the metadata may
/// change later, else 0; and 0 for no collection details.
pub open spec fn create_metadata_data(
    name: Seq<char>,
    symbol: Seq<char>,
    uri: Seq<char>,
    seller_fee_basis_points: u16,
    is_mutable: bool,
    uses: Option<Uses>,
) -> Seq<u8> {
    seq![33u8] + text_bytes(name) + text_bytes(symbol) + text_bytes(uri) + spec_u16_to_le_bytes(
        seller_fee_basis_points,
    ) + seq![0u8, 0u8] + uses_bytes(uses) + seq![
        if is_mutable {
            1u8
        } else {
            0u8
        },
        0u8,
    ]
}

/// `mpl_token_metadata::instruction::create_metadata_accounts_v3`, for an
/// asset without creators, collection or collection details. The instruction
/// goes to the metadata service and names, in this order, the metadata
/// account, the asset, its mint authority, the payer, the update authority and
/// the system program. Its bytes are those of `create_metadata_data`. A text
/// of more than `u32::MAX` bytes cannot be encoded.
#[verifier::external_body]
fn create_metadata_accounts_v3(
    metadata: [u8; 32],
    mint: [u8; 32],
    mint_authority: [u8; 32],
    payer: [u8; 32],
    update_authority: [u8; 32],
    name: String,
    symbol: String,
    uri: String,
    seller_fee_basis_points: u16,
    update_authority_is_signer: bool,
    is_mutable: bool,
    uses: Option<Uses>,
) -> (r: Instruction)
    requires
        text_fits(name@),
        text_fits(symbol@),
        text_fits(uri@),
    ensures
        r@ == (InstructionView {
            program_id: metadata_program(),
            accounts: seq![
                writable(Address { bytes: metadata }, false),
                readonly(Address { bytes: mint }, false),
                readonly(Address { bytes: mint_authority }, true),
                writable(Address { bytes: payer }, true),
                readonly(Address { bytes: update_authority }, update_authority_is_signer),
                readonly(system_program(), false),
            ],
            data: create_metadata_data(name@, symbol@, uri@, seller_fee_basis_points, is_mutable, uses),
        }),
{
    let ix = metadata_instruction::create_metadata_accounts_v3(
        ID, metadata.into(), mint.into(), mint_authority.into(), payer.into(), update_authority.into(),
        name, symbol, uri, None, seller_fee_basis_points, update_authority_is_signer, is_mutable, None,
        uses.map(|Uses { use_method, remaining, total }| state::Uses { remaining, total, use_method: match use_method {
            UseMethod::Burn => state::UseMethod::Burn,
            UseMethod::Multiple => state::UseMethod::Multiple,
            UseMethod::Single => state::UseMethod::Single,
        } }), None);
    Instruction {
        program_id: Address { bytes: ix.program_id.to_bytes() },
        accounts: ix.accounts.iter().map(|a| AccountMeta { pubkey: Address { bytes: a.pubkey.to_bytes() }, is_signer: a.is_signer, is_writable: a.is_writable }).collect(),
        data: ix.data,
    }
}

/// `mpl_token_metadata::instruction::create_master_edition_v3`. The instruction
/// goes to the metadata service and names, in this order, the master record,
/// the asset, the update authority, the mint authority, the payer, the
/// metadata account, the token program and the system program. Its bytes are
/// the number 17, then the most copies that may be printed: 0 for no limit, or
/// 1 and the limit in eight bytes, the lowest first.
#[verifier::external_body]
fn create_master_edition_v3(
    edition: [u8; 32],
    mint: [u8; 32],
    update_authority: [u8; 32],
    mint_authority: [u8; 32],
    metadata: [u8; 32],
    payer: [u8; 32],
    max_supply: Option<u64>,
) -> (r: Instruction)
    ensures
        r@ == (InstructionView {
            program_id: metadata_program(),
            accounts: seq![
                writable(Address { bytes: edition }, false),
                writable(Address { bytes: mint }, false),
                readonly(Address { bytes: update_authority }, true),
                readonly(Address { bytes: mint_authority }, true),
                writable(Address { bytes: payer }, true),
                writable(Address { bytes: metadata }, false),
                readonly(token_program(), false),
                readonly(system_program(), false),
            ],
            data: seq![17u8] + match max_supply {
                Some(limit) => seq![1u8] + spec_u64_to_le_bytes(limit),
                None => seq![0u8],
            },
        }),
{
    let ix = metadata_instruction::create_master_edition_v3(
        ID, edition.into(), mint.into(), update_authority.into(),
        mint_authority.into(), metadata.into(), payer.into(), max_supply);
    Instruction {
        program_id: Address { bytes: ix.program_id.to_bytes() },
        accounts: ix.accounts.iter().map(|a| AccountMeta { pubkey: Address { bytes: a.pubkey.to_bytes() }, is_signer: a.is_signer, is_writable: a.is_writable }).collect(),
        data: ix.data,
    }
}

/// `mpl_token_metadata::instruction::set_and_verify_collection`. The
/// instruction goes to the metadata service and names, in this order, the
/// metadata account, the collection authority, the payer, the update
/// authority, the collection's asset, its metadata account and its master
/// record, and last the record of a delegated collection authority where one
/// is given. Its bytes are the number 25.
#[verifier::external_body]
fn set_and_verify_collection(
    metadata: [u8; 32],
    collection_authority: [u8; 32],
    payer: [u8; 32],
    update_authority: [u8; 32],
    collection_mint: [u8; 32],
    collection: [u8; 32],
    collection_master_edition: [u8; 32],
    collection_authority_record: Option<[u8; 32]>,
) -> (r: Instruction)
    ensures
        r@ == (InstructionView {
            program_id: metadata_program(),
            accounts: seq![
                writable(Address { bytes: metadata }, false),
                writable(Address { bytes: collection_authority }, true),
                writable(Address { bytes: payer }, true),
                readonly(Address { bytes: update_authority }, false),
                readonly(Address { bytes: collection_mint }, false),
                readonly(Address { bytes: collection }, false),
                readonly(Address { bytes: collection_master_edition }, false),
            ] + match collection_authority_record {
                Some(record) => seq![readonly(Address { bytes: record }, false)],
                None => seq![],
            },
            data: seq![25u8],
        }),
{
    let ix = metadata_instruction::set_and_verify_collection(
        ID, metadata.into(), collection_authority.into(), payer.into(),
        update_authority.into(), collection_mint.into(), collection.into(),
        collection_master_edition.into(), collection_authority_record.map(Pubkey::from));
    Instruction {
        program_id: Address { bytes: ix.program_id.to_bytes() },
        accounts: ix.accounts.iter().map(|a| AccountMeta { pubkey: Address { bytes: a.pubkey.to_bytes() }, is_signer: a.is_signer, is_writable: a.is_writable }).collect(),
        data: ix.data,
    }
}

/// `mpl_token_metadata::instruction::utilize`. The instruction goes to the
/// metadata service and names, in this order, the metadata account, the
/// vault, the asset, the use authority, the owner, the token program, the
/// associated token program and the system program, then the record of a
/// delegated use authority and the burner, where they are given. Its bytes are
/// the number 19, then the number of uses in eight bytes, the lowest first.
#[verifier::external_body]
fn utilize(
    metadata: [u8; 32],
    token_account: [u8; 32],
    mint: [u8; 32],
    use_authority_record: Option<[u8; 32]>,
    use_authority: [u8; 32],
    owner: [u8; 32],
    burner: Option<[u8; 32]>,
    number_of_uses: u64,
) -> (r: Instruction)
    ensures
        r@ == (InstructionView {
            program_id: metadata_program(),
            accounts: seq![
                writable(Address { bytes: metadata }, false),
                writable(Address { bytes: token_account }, false),
                writable(Address { bytes: mint }, false),
                writable(Address { bytes: use_authority }, true),
                readonly(Address { bytes: owner }, false),
                readonly(token_program(), false),
                readonly(associated_token_program(), false),
                readonly(system_program(), false),
            ] + match use_authority_record {
                Some(record) => seq![writable(Address { bytes: record }, false)],
                None => seq![],
            } + match burner {
                Some(burner) => seq![readonly(Address { bytes: burner }, false)],
                None => seq![],
            },
            data: seq![19u8] + spec_u64_to_le_bytes(number_of_uses),
        }),
{
    let ix = metadata_instruction::utilize(
        ID, metadata.into(), token_account.into(), mint.into(), use_authority_record.map(Pubkey::from),
        use_authority.into(), owner.into(), burner.map(Pubkey::from), number_of_uses);
    Instruction {
        program_id: Address { bytes: ix.program_id.to_bytes() },
        accounts: ix.accounts.iter().map(|a| AccountMeta { pubkey: Address { bytes: a.pubkey.to_bytes() }, is_signer: a.is_signer, is_writable: a.is_writable }).collect(),
        data: ix.data,
    }
}

/// One call that a transaction makes to the ledger or to an outside service.
#[derive(Clone, Debug, PartialEq, Eq)]
pub enum BridgeCall {
    /// Allocate `space` bytes at `account` for a record of the registry, paid
    /// by `payer`. The address is derived from `seeds`.
    CreateRecord { account: Address, space: usize, payer: Address, seeds: Vec<Vec<u8>> },
    /// Release the storage of the record at `account` to `destination`.
    CloseRecord { account: Address, destination: Address },
    /// Create the asset `mint`, of whole units, that `authority` may issue.
    /// The address is derived from `seeds`.
    CreateMint { mint: Address, decimals: u8, authority: Address, payer: Address, seeds: Vec<Vec<u8>> },
    /// Create the vault `account`, in which `owner` holds the asset `mint`.
    /// The address is derived from `seeds`.
    CreateTokenAccount { account: Address, mint: Address, owner: Address, payer: Address, seeds: Vec<Vec<u8>> },
    /// Create the vault `account`, the one in which `owner` holds the asset
    /// `mint` by default.
    CreateAssociatedTokenAccount { account: Address, mint: Address, owner: Address, payer: Address },
    /// Move `amount` units from one vault to another; `authority` has signed.
    Transfer { from: Address, to: Address, authority: Address, amount: u64 },
    /// Issue `amount` units of the asset `mint` into the vault `to`. The
    /// registry signs for `authority` with `signer_seeds`.
    MintTo { mint: Address, to: Address, authority: Address, amount: u64, signer_seeds: Vec<Vec<u8>> },
    /// Hand an instruction to the metadata service. Where `signer_seeds` holds
    /// seeds, the registry signs with them for the address that they derive.
    Invoke { instruction: Instruction, signer_seeds: Vec<Vec<u8>> },
}

/// A call as a mathematical value.
#[verifier::ext_equal]
pub enum BridgeCallView {
    CreateRecord { account: Address, space: usize, payer: Address, seeds: Seq<Seq<u8>> },
    CloseRecord { account: Address, destination: Address },
    CreateMint { mint: Address, decimals: u8, authority: Address, payer: Address, seeds: Seq<Seq<u8>> },
    CreateTokenAccount { account: Address, mint: Address, owner: Address, payer: Address, seeds: Seq<Seq<u8>> },
    CreateAssociatedTokenAccount { account: Address, mint: Address, owner: Address, payer: Address },
    Transfer { from: Address, to: Address, authority: Address, amount: u64 },
    MintTo { mint: Address, to: Address, authority: Address, amount: u64, signer_seeds: Seq<Seq<u8>> },
    Invoke { instruction: InstructionView, signer_seeds: Seq<Seq<u8>> },
}

impl View for BridgeCall {
    type V = BridgeCallView;

    open spec fn view(&self) -> BridgeCallView {
        match *self {
            BridgeCall::CreateRecord { account, space, payer, seeds } => BridgeCallView::CreateRecord {
                account,
                space,
                payer,
                seeds: seed_list(seeds),
            },
            BridgeCall::CloseRecord { account, destination } => BridgeCallView::CloseRecord {
                account,
                destination,
            },
            BridgeCall::CreateMint { mint, decimals, authority, payer, seeds } => BridgeCallView::CreateMint {
                mint,
                decimals,
                authority,
                payer,
                seeds: seed_list(seeds),
            },
            BridgeCall::CreateTokenAccount { account, mint, owner, payer, seeds } => BridgeCallView::CreateTokenAccount {
                account,
                mint,
                owner,
                payer,
                seeds: seed_list(seeds),
            },
            BridgeCall::CreateAssociatedTokenAccount { account, mint, owner, payer } => BridgeCallView::CreateAssociatedTokenAccount {
                account,
                mint,
                owner,
                payer,
            },
            BridgeCall::Transfer { from, to, authority, amount } => BridgeCallView::Transfer {
                from,
                to,
                authority,
                amount,
            },
            BridgeCall::MintTo { mint, to, authority, amount, signer_seeds } => BridgeCallView::MintTo {
                mint,
                to,
                authority,
                amount,
                signer_seeds: seed_list(signer_seeds),
            },
            BridgeCall::Invoke { instruction, signer_seeds } => BridgeCallView::Invoke {
                instruction: instruction@,
                signer_seeds: seed_list(signer_seeds),
            },
        }
    }
}

/// The calls of a transaction as mathematical values, in their order.
pub open spec fn call_list(calls: Vec<BridgeCall>) -> Seq<BridgeCallView> {
    Seq::new(calls@.len(), |i: int| calls@[i]@)
}

/// The instruction that records name, symbol and uri of `mint` with the
/// metadata service: no creators, no royalties, no collection yet. The
/// `authority` issues the asset and may change its metadata later, and signs
/// for both.
pub open spec fn create_metadata_instruction(
    metadata: Address,
    mint: Address,
    authority: Address,
    payer: Address,
    name: Seq<char>,
    symbol: Seq<char>,
    uri: Seq<char>,
    uses: Option<Uses>,
) -> InstructionView {
    InstructionView {
        program_id: metadata_program(),
        accounts: seq![
            writable(metadata, false),
            readonly(mint, false),
            readonly(authority, true),
            writable(payer, true),
            readonly(authority, true),
            readonly(system_program(), false),
        ],
        data: create_metadata_data(name, symbol, uri, 0, true, uses),
    }
}

/// The instruction that makes `mint` the one and only unit of its asset: a
/// master record of which no copy may be printed.
pub open spec fn create_master_edition_instruction(
    edition: Address,
    mint: Address,
    authority: Address,
    metadata: Address,
    payer: Address,
) -> InstructionView {
    InstructionView {
        program_id: metadata_program(),
        accounts: seq![
            writable(edition, false),
            writable(mint, false),
            readonly(authority, true),
            readonly(authority, true),
            writable(payer, true),
            writable(metadata, false),
            readonly(token_program(), false),
            readonly(system_program(), false),
        ],
        data: seq![17u8, 1u8] + spec_u64_to_le_bytes(0),
    }
}

/// The instruction that registers an asset as a verified member of a
/// collection, signed by `authority`, which holds both in its own right.
pub open spec fn set_and_verify_collection_instruction(
    metadata: Address,
    authority: Address,
    payer: Address,
    collection_mint: Address,
    collection_metadata: Address,
    collection_master_edition: Address,
) -> InstructionView {
    InstructionView {
        program_id: metadata_program(),
        accounts: seq![
            writable(metadata, false),
            writable(authority, true),
            writable(payer, true),
            readonly(authority, false),
            readonly(collection_mint, false),
            readonly(collection_metadata, false),
            readonly(collection_master_edition, false),
        ],
        data: seq![25u8],
    }
}

/// The instruction by which `owner` consumes one use of the asset that their
/// vault holds, in their own right and without burning the asset.
pub open spec fn utilize_instruction(
    metadata: Address,
    token_account: Address,
    mint: Address,
    owner: Address,
) -> InstructionView {
    InstructionView {
        program_id: metadata_program(),
        accounts: seq![
            writable(metadata, false),
            writable(token_account, false),
            writable(mint, false),
            writable(owner, true),
            readonly(owner, false),
            readonly(token_program(), false),
            readonly(associated_token_program(), false),
            readonly(system_program(), false),
        ],
        data: seq![19u8] + spec_u64_to_le_bytes(1),
    }
}

/// Builds the instruction that records name, symbol and uri of an asset.
pub fn create_metadata(
    metadata: &Address,
    mint: &Address,
    authority: &Address,
    payer: &Address,
    name: String,
    symbol: String,
    uri: String,
    uses: Option<Uses>,
) -> (r: Instruction)
    requires
        text_fits(name@),
        text_fits(symbol@),
        text_fits(uri@),
    ensures
        r@ == create_metadata_instruction(*metadata, *mint, *authority, *payer, name@, symbol@, uri@, uses),
{
    let r = create_metadata_accounts_v3(
        metadata.bytes,
        mint.bytes,
        authority.bytes,
        payer.bytes,
        authority.bytes,
        name,
        symbol,
        uri,
        0,
        true,
        true,
        uses,
    );
    assert(r@ =~= create_metadata_instruction(*metadata, *mint, *authority, *payer, name@, symbol@, uri@, uses));
    r
}

/// Builds the instruction that makes an asset the one and only unit of itself.
pub fn create_master_edition(
    edition: &Address,
    mint: &Address,
    authority: &Address,
    metadata: &Address,
    payer: &Address,
) -> (r: Instruction)
    ensures
        r@ == create_master_edition_instruction(*edition, *mint, *authority, *metadata, *payer),
{
    let r = create_master_edition_v3(
        edition.bytes,
        mint.bytes,
        authority.bytes,
        authority.bytes,
        metadata.bytes,
        payer.bytes,
        Some(0),
    );
    assert(r@ =~= create_master_edition_instruction(*edition, *mint, *authority, *metadata, *payer));
    r
}

/// Builds the instruction that registers an asset as a verified member of a
/// collection.
pub fn verify_collection(
    metadata: &Address,
    authority: &Address,
    payer: &Address,
    collection_mint: &Address,
    collection_metadata: &Address,
    collection_master_edition: &Address,
) -> (r: Instruction)
    ensures
        r@ == set_and_verify_collection_instruction(
            *metadata,
            *authority,
            *payer,
            *collection_mint,
            *collection_metadata,
            *collection_master_edition,
        ),
{
    let r = set_and_verify_collection(
        metadata.bytes,
        authority.bytes,
        payer.bytes,
        authority.bytes,
        collection_mint.bytes,
        collection_metadata.bytes,
        collection_master_edition.bytes,
        None,
    );
    assert(r@ =~= set_and_verify_collection_instruction(
        *metadata,
        *authority,
        *payer,
        *collection_mint,
        *collection_metadata,
        *collection_master_edition,
    ));
    r
}

/// Builds the instruction that consumes one use of an asset.
pub fn consume_use(metadata: &Address, token_account: &Address, mint: &Address, owner: &Address) -> (r:
    Instruction)
    ensures
        r@ == utilize_instruction(*metadata, *token_account, *mint, *owner),
{
    let r = utilize(metadata.bytes, token_account.bytes, mint.bytes, None, owner.bytes, owner.bytes, None, 1);
    assert(r@ =~= utilize_instruction(*metadata, *token_account, *mint, *owner));
    r
}

} // verus!
