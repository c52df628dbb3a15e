use vstd::prelude::*;

use vstd::utf8::encode_utf8;

use crate::address::{authorize, Address};
use crate::error::ErrorCode;

verus! {

/// Longest token name, in UTF-8 bytes.
pub const MAX_NAME_LEN: usize = 32;

/// Longest token symbol, in UTF-8 bytes.
pub const MAX_SYMBOL_LEN: usize = 10;

/// Most decimals a token may have.
pub const MAX_DECIMALS: u8 = 9;

/// The supply-control record of a token.
#[derive(Clone, Debug)]
pub struct TokenInfo {
    pub authority: Address,
    pub name: String,
    pub symbol: String,
    pub decimals: u8,
    pub total_supply: u64,
    pub is_paused: bool,
    /// Starts true; once false it stays false.
    pub is_mintable: bool,
    pub is_burnable: bool,
}

/// The moderation record of one address, created on first moderation.
#[derive(Clone, Copy, Debug)]
pub struct Blacklist {
    pub address: Address,
    pub is_blacklisted: bool,
    /// When the flag was last set.
    pub timestamp: i64,
}

/// A call on the token ledger that the host performs once an operation has
/// succeeded. If it fails, the host discards the operation's new records.
#[derive(Clone, Copy, Debug)]
pub enum SupplyCall {
    MintTo { to: Address, amount: u64 },
    Burn { from: Address, amount: u64 },
    Transfer { from: Address, to: Address, amount: u64 },
}

#[derive(Clone, Debug)]
pub struct TokenInitializedEvent {
    pub mint: Address,
    pub name: String,
    pub symbol: String,
    pub decimals: u8,
    pub initial_supply: u64,
}

#[derive(Clone, Copy, Debug)]
pub struct MintEvent {
    pub to: Address,
    pub amount: u64,
    pub new_total_supply: u64,
}

#[derive(Clone, Copy, Debug)]
pub struct BurnEvent {
    pub from: Address,
    pub amount: u64,
    pub new_total_supply: u64,
}

#[derive(Clone, Copy, Debug)]
pub struct TransferEvent {
    pub from: Address,
    pub to: Address,
    pub amount: u64,
}

#[derive(Clone, Copy, Debug)]
pub struct PauseEvent {
    pub timestamp: i64,
}

#[derive(Clone, Copy, Debug)]
pub struct UnpauseEvent {
    pub timestamp: i64,
}

#[derive(Clone, Copy, Debug)]
pub struct MintingDisabledEvent {
    pub timestamp: i64,
}

#[derive(Clone, Copy, Debug)]
pub struct BlacklistEvent {
    pub address: Address,
    pub is_blacklisted: bool,
}

/// Length of `s` in UTF-8 bytes.
pub open spec fn utf8_len(s: Seq<char>) -> nat {
    encode_utf8(s).len()
}

// ---------------------------------------------------------------------------
// Creation

/// The first check that creating a token fails, if any.
pub open spec fn init_error(
    exists: bool,
    name: Seq<char>,
    symbol: Seq<char>,
    decimals: u8,
) -> Option<ErrorCode> {
    if exists {
        Some(ErrorCode::AlreadyInitialized)
    } else if utf8_len(name) > MAX_NAME_LEN {
        Some(ErrorCode::NameTooLong)
    } else if utf8_len(symbol) > MAX_SYMBOL_LEN {
        Some(ErrorCode::SymbolTooLong)
    } else if decimals > MAX_DECIMALS {
        Some(ErrorCode::InvalidDecimals)
    } else {
        None
    }
}

/// Creates the token's record, once. A nonzero initial supply is minted to
/// the authority's holding by the returned call, and recorded as the supply.
pub fn initialize_token(
    existing: &Option<TokenInfo>,
    authority: Address,
    mint: Address,
    authority_tokens: Address,
    name: String,
    symbol: String,
    decimals: u8,
    initial_supply: u64,
) -> (r: Result<(TokenInfo, Option<SupplyCall>, TokenInitializedEvent), ErrorCode>)
    ensures
        r is Err <==> init_error(existing is Some, name@, symbol@, decimals) is Some,
        r matches Err(e) ==> Some(e) == init_error(existing is Some, name@, symbol@, decimals),
        r matches Ok((info, call, ev)) ==> {
            &&& info == (TokenInfo {
                authority,
                name,
                symbol,
                decimals,
                total_supply: initial_supply,
                is_paused: false,
                is_mintable: true,
                is_burnable: true,
            })
            &&& initial_supply == 0 ==> call is None
            &&& initial_supply > 0 ==> call == Some(
                SupplyCall::MintTo { to: authority_tokens, amount: initial_supply },
            )
            &&& ev == (TokenInitializedEvent { mint, name, symbol, decimals, initial_supply })
        },
{
    if existing.is_some() {
        return Err(ErrorCode::AlreadyInitialized);
    }
    if name.as_str().as_bytes().len() > MAX_NAME_LEN {
        return Err(ErrorCode::NameTooLong);
    }
    if symbol.as_str().as_bytes().len() > MAX_SYMBOL_LEN {
        return Err(ErrorCode::SymbolTooLong);
    }
    if decimals > MAX_DECIMALS {
        return Err(ErrorCode::InvalidDecimals);
    }
    let call = if initial_supply > 0 {
        Some(SupplyCall::MintTo { to: authority_tokens, amount: initial_supply })
    } else {
        None
    };
    let event = TokenInitializedEvent {
        mint,
        name: name.clone(),
        symbol: symbol.clone(),
        decimals,
        initial_supply,
    };
    let info = TokenInfo {
        authority,
        name,
        symbol,
        decimals,
        total_supply: initial_supply,
        is_paused: false,
        is_mintable: true,
        is_burnable: true,
    };
    Ok((info, call, event))
}

// ---------------------------------------------------------------------------
// Supply

/// The first check that a mint fails, if any. The authority check comes
/// before every other.
pub open spec fn mint_error(info: TokenInfo, signer: Address, amount: u64) -> Option<ErrorCode> {
    if info.authority != signer {
        Some(ErrorCode::Unauthorized)
    } else if info.is_paused {
        Some(ErrorCode::TokenPaused)
    } else if !info.is_mintable {
        Some(ErrorCode::MintingDisabled)
    } else if amount == 0 {
        Some(ErrorCode::InvalidAmount)
    } else if info.total_supply + amount > u64::MAX {
        Some(ErrorCode::SupplyOverflow)
    } else {
        None
    }
}

pub open spec fn minted(info: TokenInfo, amount: u64) -> TokenInfo {
    TokenInfo { total_supply: (info.total_supply + amount) as u64, ..info }
}

/// Mints `amount` new tokens to `to`, by the returned call, and adds them to
/// the recorded supply. Only the authority may mint.
pub fn mint_tokens(info: &mut TokenInfo, signer: &Address, to: Address, amount: u64) -> (r: Result<
    (SupplyCall, MintEvent),
    ErrorCode,
>)
    ensures
        r is Err <==> mint_error(*old(info), *signer, amount) is Some,
        r matches Err(e) ==> Some(e) == mint_error(*old(info), *signer, amount) && *final(info)
            == *old(info),
        r matches Ok((call, ev)) ==> {
            &&& *final(info) == minted(*old(info), amount)
            &&& call == (SupplyCall::MintTo { to, amount })
            &&& ev.to == to && ev.amount == amount && ev.new_total_supply == final(info).total_supply
        },
{
    if let Err(e) = authorize(&info.authority, signer) {
        return Err(e);
    }
    if info.is_paused {
        return Err(ErrorCode::TokenPaused);
    }
    if !info.is_mintable {
        return Err(ErrorCode::MintingDisabled);
    }
    if amount == 0 {
        return Err(ErrorCode::InvalidAmount);
    }
    let supply = match info.total_supply.checked_add(amount) {
        Some(s) => s,
        None => return Err(ErrorCode::SupplyOverflow),
    };
    info.total_supply = supply;
    Ok((SupplyCall::MintTo { to, amount }, MintEvent { to, amount, new_total_supply: supply }))
}

/// The first check that a burn fails, if any.
pub open spec fn burn_error(info: TokenInfo, amount: u64) -> Option<ErrorCode> {
    if info.is_paused {
        Some(ErrorCode::TokenPaused)
    } else if !info.is_burnable {
        Some(ErrorCode::BurningDisabled)
    } else if amount == 0 {
        Some(ErrorCode::InvalidAmount)
    } else if info.total_supply < amount {
        Some(ErrorCode::SupplyUnderflow)
    } else {
        None
    }
}

pub open spec fn burned(info: TokenInfo, amount: u64) -> TokenInfo {
    TokenInfo { total_supply: (info.total_supply - amount) as u64, ..info }
}

/// Burns `amount` tokens held at `from`, by the returned call, and takes them
/// off the recorded supply, which never falls below zero.
pub fn burn_tokens(info: &mut TokenInfo, from: Address, amount: u64) -> (r: Result<
    (SupplyCall, BurnEvent),
    ErrorCode,
>)
    ensures
        r is Err <==> burn_error(*old(info), amount) is Some,
        r matches Err(e) ==> Some(e) == burn_error(*old(info), amount) && *final(info) == *old(
            info,
        ),
        r matches Ok((call, ev)) ==> {
            &&& *final(info) == burned(*old(info), amount)
            &&& call == (SupplyCall::Burn { from, amount })
            &&& ev.from == from && ev.amount == amount && ev.new_total_supply
                == final(info).total_supply
        },
{
    if info.is_paused {
        return Err(ErrorCode::TokenPaused);
    }
    if !info.is_burnable {
        return Err(ErrorCode::BurningDisabled);
    }
    if amount == 0 {
        return Err(ErrorCode::InvalidAmount);
    }
    let supply = match info.total_supply.checked_sub(amount) {
        Some(s) => s,
        None => return Err(ErrorCode::SupplyUnderflow),
    };
    info.total_supply = supply;
    Ok((SupplyCall::Burn { from, amount }, BurnEvent { from, amount, new_total_supply: supply }))
}

/// The first check that a transfer fails, if any. A missing blacklist record
/// restricts nothing.
pub open spec fn transfer_error(info: TokenInfo, blacklist: Option<Blacklist>, amount: u64) -> Option<
    ErrorCode,
> {
    if info.is_paused {
        Some(ErrorCode::TokenPaused)
    } else if amount == 0 {
        Some(ErrorCode::InvalidAmount)
    } else if blacklist matches Some(b) && b.is_blacklisted {
        Some(ErrorCode::AddressBlacklisted)
    } else {
        None
    }
}

/// Gates a transfer of `amount` from `from` to `to`; the returned call makes
/// it. The sender's blacklist record, when there is one, must not be set.
pub fn transfer_tokens(
    info: &TokenInfo,
    blacklist: &Option<Blacklist>,
    from: Address,
    to: Address,
    amount: u64,
) -> (r: Result<(SupplyCall, TransferEvent), ErrorCode>)
    ensures
        r is Err <==> transfer_error(*info, *blacklist, amount) is Some,
        r matches Err(e) ==> Some(e) == transfer_error(*info, *blacklist, amount),
        r matches Ok((call, ev)) ==> call == (SupplyCall::Transfer { from, to, amount }) && ev == (
        TransferEvent { from, to, amount }),
{
    if info.is_paused {
        return Err(ErrorCode::TokenPaused);
    }
    if amount == 0 {
        return Err(ErrorCode::InvalidAmount);
    }
    if let Some(b) = blacklist {
        if b.is_blacklisted {
            return Err(ErrorCode::AddressBlacklisted);
        }
    }
    Ok((SupplyCall::Transfer { from, to, amount }, TransferEvent { from, to, amount }))
}

// ---------------------------------------------------------------------------
// Administration

/// Stops mint, burn and transfer until `unpause_token`. Only the authority
/// may do it.
pub fn pause_token(info: &mut TokenInfo, signer: &Address, now: i64) -> (r: Result<
    PauseEvent,
    ErrorCode,
>)
    ensures
        r is Ok <==> old(info).authority == *signer,
        r is Err ==> r == Err::<PauseEvent, ErrorCode>(ErrorCode::Unauthorized) && *final(info)
            == *old(info),
        r matches Ok(ev) ==> *final(info) == (TokenInfo { is_paused: true, ..*old(info) })
            && ev.timestamp == now,
{
    if let Err(e) = authorize(&info.authority, signer) {
        return Err(e);
    }
    info.is_paused = true;
    Ok(PauseEvent { timestamp: now })
}

/// Lets mint, burn and transfer run again. Only the authority may do it.
pub fn unpause_token(info: &mut TokenInfo, signer: &Address, now: i64) -> (r: Result<
    UnpauseEvent,
    ErrorCode,
>)
    ensures
        r is Ok <==> old(info).authority == *signer,
        r is Err ==> r == Err::<UnpauseEvent, ErrorCode>(ErrorCode::Unauthorized) && *final(info)
            == *old(info),
        r matches Ok(ev) ==> *final(info) == (TokenInfo { is_paused: false, ..*old(info) })
            && ev.timestamp == now,
{
    if let Err(e) = authorize(&info.authority, signer) {
        return Err(e);
    }
    info.is_paused = false;
    Ok(UnpauseEvent { timestamp: now })
}

/// Turns minting off for good. Only the authority may do it, and nothing
/// turns it back on.
pub fn disable_minting(info: &mut TokenInfo, signer: &Address, now: i64) -> (r: Result<
    MintingDisabledEvent,
    ErrorCode,
>)
    ensures
        r is Ok <==> old(info).authority == *signer,
        r is Err ==> r == Err::<MintingDisabledEvent, ErrorCode>(ErrorCode::Unauthorized)
            && *final(info) == *old(info),
        r matches Ok(ev) ==> *final(info) == (TokenInfo { is_mintable: false, ..*old(info) })
            && ev.timestamp == now,
{
    if let Err(e) = authorize(&info.authority, signer) {
        return Err(e);
    }
    info.is_mintable = false;
    Ok(MintingDisabledEvent { timestamp: now })
}

/// Sets the blacklist flag of `target`, creating its record if it has none.
fn set_blacklisted(
    info: &TokenInfo,
    signer: &Address,
    target: Address,
    flag: bool,
    now: i64,
) -> (r: Result<(Blacklist, BlacklistEvent), ErrorCode>)
    ensures
        r is Ok <==> info.authority == *signer,
        r is Err ==> r == Err::<(Blacklist, BlacklistEvent), ErrorCode>(ErrorCode::Unauthorized),
        r matches Ok((b, ev)) ==> b == (Blacklist {
            address: target,
            is_blacklisted: flag,
            timestamp: now,
        }) && ev.address == target && ev.is_blacklisted == flag,
{
    if let Err(e) = authorize(&info.authority, signer) {
        return Err(e);
    }
    let entry = Blacklist { address: target, is_blacklisted: flag, timestamp: now };
    Ok((entry, BlacklistEvent { address: target, is_blacklisted: flag }))
}

/// The record of `target` after it is blacklisted at `now`, whether or not
/// it had one. Only the authority may do it.
pub fn add_to_blacklist(info: &TokenInfo, signer: &Address, target: Address, now: i64) -> (r:
    Result<(Blacklist, BlacklistEvent), ErrorCode>)
    ensures
        r is Ok <==> info.authority == *signer,
        r is Err ==> r == Err::<(Blacklist, BlacklistEvent), ErrorCode>(ErrorCode::Unauthorized),
        r matches Ok((b, ev)) ==> b == (Blacklist {
            address: target,
            is_blacklisted: true,
            timestamp: now,
        }) && ev.address == target && ev.is_blacklisted,
{
    set_blacklisted(info, signer, target, true, now)
}

/// The record of `target` after it is cleared at `now`, whether or not it
/// had one. Only the authority may do it.
pub fn remove_from_blacklist(info: &TokenInfo, signer: &Address, target: Address, now: i64) -> (r:
    Result<(Blacklist, BlacklistEvent), ErrorCode>)
    ensures
        r is Ok <==> info.authority == *signer,
        r is Err ==> r == Err::<(Blacklist, BlacklistEvent), ErrorCode>(ErrorCode::Unauthorized),
        r matches Ok((b, ev)) ==> b == (Blacklist {
            address: target,
            is_blacklisted: false,
            timestamp: now,
        }) && ev.address == target && !ev.is_blacklisted,
{
    set_blacklisted(info, signer, target, false, now)
}

// ---------------------------------------------------------------------------
// Sequences of operations

/// One operation on the token record.
#[derive(Clone, Copy, Debug)]
pub enum TokenOp {
    Mint { signer: Address, amount: u64 },
    Burn { amount: u64 },
    Pause { signer: Address },
    Unpause { signer: Address },
    DisableMinting { signer: Address },
}

/// The record after one operation; a failed operation leaves it as it was.
pub open spec fn apply_token_op(info: TokenInfo, op: TokenOp) -> TokenInfo {
    match op {
        TokenOp::Mint { signer, amount } => {
            if mint_error(info, signer, amount) is Some {
                info
            } else {
                minted(info, amount)
            }
        },
        TokenOp::Burn { amount } => {
            if burn_error(info, amount) is Some {
                info
            } else {
                burned(info, amount)
            }
        },
        TokenOp::Pause { signer } => {
            if info.authority != signer {
                info
            } else {
                TokenInfo { is_paused: true, ..info }
            }
        },
        TokenOp::Unpause { signer } => {
            if info.authority != signer {
                info
            } else {
                TokenInfo { is_paused: false, ..info }
            }
        },
        TokenOp::DisableMinting { signer } => {
            if info.authority != signer {
                info
            } else {
                TokenInfo { is_mintable: false, ..info }
            }
        },
    }
}

/// The record after the operations in order.
pub open spec fn apply_token_ops(info: TokenInfo, ops: Seq<TokenOp>) -> TokenInfo
    decreases ops.len(),
{
    if ops.len() == 0 {
        info
    } else {
        apply_token_ops(apply_token_op(info, ops[0]), ops.subrange(1, ops.len() as int))
    }
}

/// What the operations that succeed mint, in all.
pub open spec fn total_minted(info: TokenInfo, ops: Seq<TokenOp>) -> int
    decreases ops.len(),
{
    if ops.len() == 0 {
        0
    } else {
        let now_minted = match ops[0] {
            TokenOp::Mint { signer, amount } => if mint_error(info, signer, amount) is Some {
                0
            } else {
                amount as int
            },
            _ => 0,
        };
        now_minted + total_minted(apply_token_op(info, ops[0]), ops.subrange(1, ops.len() as int))
    }
}

/// What the operations that succeed burn, in all.
pub open spec fn total_burned(info: TokenInfo, ops: Seq<TokenOp>) -> int
    decreases ops.len(),
{
    if ops.len() == 0 {
        0
    } else {
        let now_burned = match ops[0] {
            TokenOp::Burn { amount } => if burn_error(info, amount) is Some {
                0
            } else {
                amount as int
            },
            _ => 0,
        };
        now_burned + total_burned(apply_token_op(info, ops[0]), ops.subrange(1, ops.len() as int))
    }
}

/// Through any sequence of operations the recorded supply is the initial
/// supply plus all that was minted minus all that was burned, and it never
/// falls below zero.
pub proof fn lemma_supply_conserved(info: TokenInfo, ops: Seq<TokenOp>)
    ensures
        apply_token_ops(info, ops).total_supply == info.total_supply + total_minted(info, ops)
            - total_burned(info, ops),
        info.total_supply + total_minted(info, ops) - total_burned(info, ops) >= 0,
    decreases ops.len(),
{
    if ops.len() > 0 {
        lemma_supply_conserved(apply_token_op(info, ops[0]), ops.subrange(1, ops.len() as int));
    }
}

/// Once minting is disabled, no sequence of operations enables it again, and
/// every mint in it fails.
pub proof fn lemma_minting_stays_disabled(info: TokenInfo, ops: Seq<TokenOp>)
    requires
        !info.is_mintable,
    ensures
        !apply_token_ops(info, ops).is_mintable,
        total_minted(info, ops) == 0,
    decreases ops.len(),
{
    if ops.len() > 0 {
        lemma_minting_stays_disabled(apply_token_op(info, ops[0]), ops.subrange(1, ops.len() as int));
    }
}

} // verus!
