use vstd::prelude::*;
use crate::account::{Address, Wallet};
use crate::constants::VAULT_AUTHORITY_SEED;
use crate::error::GameError;
use vstd::slice::slice_to_vec;
use vstd::string::{StrSliceExecFns, StringExecFns, StringSliceAdditionalSpecFns};
use solana_program::pubkey::Pubkey;

verus! {

/// The inputs of the seeded pseudo-random draw.
#[derive(Clone, Copy, Debug)]
pub struct HashStruct {
    pub nonce: u64,
    pub initial_seed: u64,
}

/// The address that `seeds` and `program_id` derive, if they derive one.
pub uninterp spec fn program_address_of(seeds: Seq<Seq<u8>>, program_id: Seq<u8>) -> Option<Seq<u8>>;

pub open spec fn seeds_view(seeds: &Vec<Vec<u8>>) -> Seq<Seq<u8>> {
    seeds@.map_values(|s: Vec<u8>| s@)
}

pub open spec fn address_view(a: Option<Address>) -> Option<Seq<u8>> {
    match a {
        Some(a) => Some(a@),
        None => None,
    }
}

/// Relies on solana_program's `Pubkey::create_program_address`: the program
/// address derived from the seeds and the program id, which depends on them
/// alone; none where the seeds are refused or hash onto the curve.
#[verifier::external_body]
fn create_program_address(seeds: &Vec<Vec<u8>>, program_id: &Address) -> (r: Option<Address>)
    ensures
        address_view(r) == program_address_of(seeds_view(seeds), program_id@),
{
    let slices: Vec<&[u8]> = seeds.iter().map(|s| s.as_slice()).collect();
    Pubkey::create_program_address(&slices, &Pubkey::new_from_array(program_id.bytes))
        .ok()
        .map(|k| Address { bytes: k.to_bytes() })
}

/// The seeds hold the signing authority of the account at `key`.
pub open spec fn signs_for(seeds: Seq<Seq<u8>>, program_id: Seq<u8>, key: Seq<u8>) -> bool {
    program_address_of(seeds, program_id) == Some(key)
}

/// The eight bytes of `x`, most significant first.
pub open spec fn be_bytes(x: u64) -> Seq<u8> {
    seq![
        (x >> 56u64) as u8,
        (x >> 48u64) as u8,
        (x >> 40u64) as u8,
        (x >> 32u64) as u8,
        (x >> 24u64) as u8,
        (x >> 16u64) as u8,
        (x >> 8u64) as u8,
        x as u8,
    ]
}

/// The seeds of the house vault.
pub open spec fn casino_vault_seeds(bump: u8) -> Seq<Seq<u8>> {
    seq![VAULT_AUTHORITY_SEED.spec_bytes(), seq![bump]]
}

/// The seeds of the escrow account of the round (`owner`, `game_session_id`).
pub open spec fn game_vault_seeds(owner: Seq<u8>, game_session_id: u64, bump: u8) -> Seq<Seq<u8>> {
    seq![owner, VAULT_AUTHORITY_SEED.spec_bytes(), be_bytes(game_session_id), seq![bump]]
}

pub fn u64_to_be_bytes(x: u64) -> (r: Vec<u8>)
    ensures
        r@ == be_bytes(x),
{
    let r = vec![
        (x >> 56u64) as u8,
        (x >> 48u64) as u8,
        (x >> 40u64) as u8,
        (x >> 32u64) as u8,
        (x >> 24u64) as u8,
        (x >> 16u64) as u8,
        (x >> 8u64) as u8,
        x as u8,
    ];
    assert(r@ =~= be_bytes(x));
    r
}

pub fn casino_vault_signer_seeds(bump: u8) -> (r: Vec<Vec<u8>>)
    ensures
        seeds_view(&r) == casino_vault_seeds(bump),
{
    let name = VAULT_AUTHORITY_SEED.as_bytes_vec();
    let tail = vec![bump];
    assert(tail@ =~= seq![bump]);
    let r = vec![name, tail];
    assert(seeds_view(&r) =~= casino_vault_seeds(bump));
    r
}

pub fn game_vault_signer_seeds(owner: &Address, game_session_id: u64, bump: u8) -> (r: Vec<Vec<u8>>)
    ensures
        seeds_view(&r) == game_vault_seeds(owner@, game_session_id, bump),
{
    let owner_bytes = slice_to_vec(owner.bytes.as_slice());
    let name = VAULT_AUTHORITY_SEED.as_bytes_vec();
    let session = u64_to_be_bytes(game_session_id);
    let tail = vec![bump];
    assert(tail@ =~= seq![bump]);
    let r = vec![owner_bytes, name, session, tail];
    assert(seeds_view(&r) =~= game_vault_seeds(owner@, game_session_id, bump));
    r
}

/// The two balances after `amount` moves from `source` to `destination`,
/// with the result of the transfer.
pub open spec fn transfer_outcome(source: Wallet, destination: Wallet, amount: u64) -> (
    Result<(), GameError>,
    Wallet,
    Wallet,
) {
    if source.lamports < amount {
        (Err(GameError::InsufficientBalance), source, destination)
    } else {
        (
            Ok(()),
            Wallet { key: source.key, lamports: (source.lamports - amount) as u64 },
            Wallet { key: destination.key, lamports: (destination.lamports + amount) as u64 },
        )
    }
}

/// A transfer out of a program-owned account: a source that holds enough
/// still needs seeds that sign for it.
pub open spec fn signed_transfer_outcome(
    source: Wallet,
    destination: Wallet,
    program_id: Seq<u8>,
    seeds: Seq<Seq<u8>>,
    amount: u64,
) -> (Result<(), GameError>, Wallet, Wallet) {
    if source.lamports < amount {
        (Err(GameError::InsufficientBalance), source, destination)
    } else if !signs_for(seeds, program_id, source.key@) {
        (Err(GameError::InvalidSignerSeeds), source, destination)
    } else {
        transfer_outcome(source, destination, amount)
    }
}

fn move_lamports(source: &mut Wallet, destination: &mut Wallet, amount: u64) -> (r: Result<(), GameError>)
    requires
        old(source).lamports + old(destination).lamports <= u64::MAX,
    ensures
        (r, *final(source), *final(destination)) == transfer_outcome(*old(source), *old(destination), amount),
{
    if source.lamports < amount {
        return Err(GameError::InsufficientBalance);
    }
    source.lamports = source.lamports - amount;
    destination.lamports = destination.lamports + amount;
    Ok(())
}

/// Moves `amount` out of an account whose owner signs the operation.
pub fn sol_transfer_user(source: &mut Wallet, destination: &mut Wallet, amount: u64) -> (r: Result<(), GameError>)
    requires
        old(source).lamports + old(destination).lamports <= u64::MAX,
    ensures
        (r, *final(source), *final(destination)) == transfer_outcome(*old(source), *old(destination), amount),
{
    move_lamports(source, destination, amount)
}

/// Moves `amount` out of a program-owned account, which only seeds that
/// derive its address can authorize.
pub fn sol_transfer_with_signer(
    source: &mut Wallet,
    destination: &mut Wallet,
    program_id: &Address,
    signer_seeds: &Vec<Vec<u8>>,
    amount: u64,
) -> (r: Result<(), GameError>)
    requires
        old(source).lamports + old(destination).lamports <= u64::MAX,
    ensures
        (r, *final(source), *final(destination)) == signed_transfer_outcome(
            *old(source),
            *old(destination),
            program_id@,
            seeds_view(signer_seeds),
            amount,
        ),
{
    if source.lamports < amount {
        return Err(GameError::InsufficientBalance);
    }
    let derived = create_program_address(signer_seeds, program_id);
    match derived {
        Some(a) => {
            if a != source.key {
                return Err(GameError::InvalidSignerSeeds);
            }
        },
        None => {
            return Err(GameError::InvalidSignerSeeds);
        },
    }
    move_lamports(source, destination, amount)
}

/// Brings `account` to exactly `new_minimum_balance`: the payer covers a
/// shortfall, and receives any excess.
pub fn resize_account(account: &mut Wallet, new_minimum_balance: u64, payer: &mut Wallet) -> (r: Result<(), GameError>)
    requires
        old(account).lamports + old(payer).lamports <= u64::MAX,
    ensures
        final(account).key == old(account).key,
        final(payer).key == old(payer).key,
        r is Err <==> new_minimum_balance > old(account).lamports && old(payer).lamports < new_minimum_balance - old(account).lamports,
        r is Err ==> r == Err::<(), GameError>(GameError::InsufficientBalance) && *final(account) == *old(account) && *final(payer) == *old(payer),
        r is Ok ==> final(account).lamports == new_minimum_balance
            && final(payer).lamports + final(account).lamports == old(payer).lamports + old(account).lamports,
{
    let current_balance = account.lamports;
    if new_minimum_balance > current_balance {
        let lamports_diff = new_minimum_balance - current_balance;
        sol_transfer_user(payer, account, lamports_diff)
    } else if new_minimum_balance < current_balance {
        let lamports_diff = current_balance - new_minimum_balance;
        account.lamports = new_minimum_balance;
        payer.lamports = payer.lamports + lamports_diff;
        Ok(())
    } else {
        Ok(())
    }
}

/// `s` followed by NUL characters up to `size` bytes.
pub fn puffed_out_string(s: &String, size: usize) -> (r: String)
    requires
        vstd::utf8::encode_utf8(s@).len() <= size,
    ensures
        r@ == s@ + Seq::new((size - vstd::utf8::encode_utf8(s@).len()) as nat, |i: int| '\0'),
{
    let puff_amount = size - s.as_str().len();
    let mut out = s.clone();
    let mut i: usize = 0;
    while i < puff_amount
        invariant
            i <= puff_amount,
            out@ == s@ + Seq::new(i as nat, |j: int| '\0'),
        decreases puff_amount - i,
    {
        proof {
            reveal_strlit("\0");
        }
        out.append("\0");
        assert(out@ =~= s@ + Seq::new((i + 1) as nat, |j: int| '\0'));
        i = i + 1;
    }
    out
}

} // verus!
