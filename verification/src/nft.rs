//! Non-fungible token collection: the admin mints tokens under chosen ids,
//! owners transfer, approve a spender or burn their tokens, and royalties
//! are quoted per token or for the whole collection.

use std::collections::HashMap;
use vstd::prelude::*;

use crate::common::{apply_bps_fee, bps_share, fits_i128, AccountId};

verus! {

broadcast use vstd::std_specs::hash::group_hash_axioms;

/// Errors returned by the NFT contract.
#[derive(Clone, Copy, Debug, PartialEq, Eq, Structural)]
pub enum NftError {
    /// The caller is not authorized.
    NotAuthorized,
    /// The collection was already initialized.
    AlreadyInitialized,
    /// An operation was attempted before initialization.
    NotInitialized,
    /// The token does not exist.
    TokenNotFound,
    /// A token with this id already exists.
    TokenAlreadyMinted,
    /// The caller does not own the token.
    NotOwner,
    /// The spender is not approved for the token.
    NotApproved,
    /// The supply cap has been reached.
    SupplyCapReached,
    /// The token id is invalid.
    InvalidTokenId,
    /// Royalty basis points exceed 10 000 (100 %).
    InvalidRoyalty,
    /// A royalty was configured without a recipient.
    RoyaltyRecipientMissing,
}

impl NftError {
    /// The numeric code of this error in the contract interface.
    pub open spec fn spec_code(self) -> u32 {
        match self {
            NftError::NotAuthorized => 1,
            NftError::AlreadyInitialized => 2,
            NftError::NotInitialized => 3,
            NftError::TokenNotFound => 4,
            NftError::TokenAlreadyMinted => 5,
            NftError::NotOwner => 6,
            NftError::NotApproved => 7,
            NftError::SupplyCapReached => 8,
            NftError::InvalidTokenId => 9,
            NftError::InvalidRoyalty => 10,
            NftError::RoyaltyRecipientMissing => 11,
        }
    }

    /// A short human-readable description of this error.
    pub open spec fn spec_message(self) -> Seq<char> {
        match self {
            NftError::NotAuthorized => "not authorized"@,
            NftError::AlreadyInitialized => "already initialized"@,
            NftError::NotInitialized => "not initialized"@,
            NftError::TokenNotFound => "token not found"@,
            NftError::TokenAlreadyMinted => "token already minted"@,
            NftError::NotOwner => "not the token owner"@,
            NftError::NotApproved => "not approved for this token"@,
            NftError::SupplyCapReached => "supply cap reached"@,
            NftError::InvalidTokenId => "invalid token id"@,
            NftError::InvalidRoyalty => "royalty bps exceeds 10 000"@,
            NftError::RoyaltyRecipientMissing => "royalty recipient must be set when royalty bps > 0"@,
        }
    }

    /// Returns the numeric code of this error.
    pub fn code(&self) -> (c: u32)
        ensures
            c == self.spec_code(),
    {
        match self {
            NftError::NotAuthorized => 1,
            NftError::AlreadyInitialized => 2,
            NftError::NotInitialized => 3,
            NftError::TokenNotFound => 4,
            NftError::TokenAlreadyMinted => 5,
            NftError::NotOwner => 6,
            NftError::NotApproved => 7,
            NftError::SupplyCapReached => 8,
            NftError::InvalidTokenId => 9,
            NftError::InvalidRoyalty => 10,
            NftError::RoyaltyRecipientMissing => 11,
        }
    }

    /// Returns a short human-readable description of this error.
    pub fn message(&self) -> (m: &'static str)
        ensures
            m@ == self.spec_message(),
    {
        match self {
            NftError::NotAuthorized => "not authorized",
            NftError::AlreadyInitialized => "already initialized",
            NftError::NotInitialized => "not initialized",
            NftError::TokenNotFound => "token not found",
            NftError::TokenAlreadyMinted => "token already minted",
            NftError::NotOwner => "not the token owner",
            NftError::NotApproved => "not approved for this token",
            NftError::SupplyCapReached => "supply cap reached",
            NftError::InvalidTokenId => "invalid token id",
            NftError::InvalidRoyalty => "royalty bps exceeds 10 000",
            NftError::RoyaltyRecipientMissing => "royalty recipient must be set when royalty bps > 0",
        }
    }
}

/// A royalty owed on a sale.
#[derive(Clone, Copy, Debug, PartialEq, Eq, Structural)]
pub struct RoyaltyInfo {
    /// Who receives the royalty.
    pub recipient: AccountId,
    /// Royalty amount.
    pub amount: i128,
}

/// Collection metadata.
#[derive(Clone, Debug)]
pub struct TokenMetadata {
    /// Collection name.
    pub name: String,
    /// Collection symbol.
    pub symbol: String,
    /// Collection-level URI (empty: tokens carry their own).
    pub token_uri: String,
}

/// State of the NFT contract.
pub struct NftContract {
    /// The admin, once initialized.
    pub admin: Option<AccountId>,
    /// Collection name.
    pub name: String,
    /// Collection symbol.
    pub symbol: String,
    /// Most tokens that may exist at once; zero means no cap.
    pub max_supply: u32,
    /// Tokens in existence.
    pub total_supply: u32,
    /// Collection royalty in basis points.
    pub royalty_bps: Option<u32>,
    /// Collection royalty recipient.
    pub royalty_recipient: Option<AccountId>,
    /// Owner of each token.
    pub owners: HashMap<u32, AccountId>,
    /// URI of each token.
    pub uris: HashMap<u32, String>,
    /// Approved spender of each token.
    pub approvals: HashMap<u32, AccountId>,
    /// Per-token royalty in basis points.
    pub token_royalty_bps: HashMap<u32, u32>,
    /// Per-token royalty recipient.
    pub token_royalty_recipient: HashMap<u32, AccountId>,
}

/// Abstract state of the NFT contract.
pub struct NftModel {
    pub admin: Option<AccountId>,
    pub name: String,
    pub symbol: String,
    pub max_supply: u32,
    pub total_supply: u32,
    pub royalty_bps: Option<u32>,
    pub royalty_recipient: Option<AccountId>,
    pub owners: Map<u32, AccountId>,
    pub uris: Map<u32, String>,
    pub approvals: Map<u32, AccountId>,
    pub token_bps: Map<u32, u32>,
    pub token_recipient: Map<u32, AccountId>,
}

impl View for NftContract {
    type V = NftModel;

    open spec fn view(&self) -> NftModel {
        NftModel {
            admin: self.admin,
            name: self.name,
            symbol: self.symbol,
            max_supply: self.max_supply,
            total_supply: self.total_supply,
            royalty_bps: self.royalty_bps,
            royalty_recipient: self.royalty_recipient,
            owners: self.owners@,
            uris: self.uris@,
            approvals: self.approvals@,
            token_bps: self.token_royalty_bps@,
            token_recipient: self.token_royalty_recipient@,
        }
    }
}

/// A royalty setting is valid: at most 100 %, and a positive royalty has a
/// recipient.
pub open spec fn royalty_error(bps: Option<u32>, recipient: Option<AccountId>) -> Option<NftError> {
    match bps {
        Some(b) => if b > 10_000 {
            Some(NftError::InvalidRoyalty)
        } else if b > 0 && recipient is None {
            Some(NftError::RoyaltyRecipientMissing)
        } else {
            None
        },
        None => None,
    }
}

/// The `bps` royalty on `price` as the contract quotes it: the share
/// rounded toward zero, or zero when the product leaves `i128`.
pub open spec fn royalty_amount(price: int, bps: int) -> int {
    if fits_i128(price * bps) {
        bps_share(price, bps)
    } else {
        0
    }
}

impl NftModel {
    /// The collection has been initialized.
    pub open spec fn initialized(self) -> bool {
        self.admin is Some
    }

    /// The supply counts the existing tokens, and approvals and URIs belong
    /// to existing tokens.
    pub open spec fn wf(self) -> bool {
        &&& self.owners.dom().finite()
        &&& self.total_supply == self.owners.dom().len()
        &&& self.approvals.dom().subset_of(self.owners.dom())
    }

    /// Token `id` exists.
    pub open spec fn minted(self, id: u32) -> bool {
        self.owners.contains_key(id)
    }

    /// The first check of `mint` that fails, if any.
    pub open spec fn mint_error(self, id: u32, bps: Option<u32>, recipient: Option<AccountId>) -> Option<NftError> {
        if !self.initialized() {
            Some(NftError::NotInitialized)
        } else if self.minted(id) {
            Some(NftError::TokenAlreadyMinted)
        } else if self.total_supply == u32::MAX || (self.max_supply > 0 && self.total_supply + 1
            > self.max_supply) {
            Some(NftError::SupplyCapReached)
        } else if royalty_error(bps, recipient) is Some {
            royalty_error(bps, recipient)
        } else if bps is None && recipient is Some {
            Some(NftError::InvalidRoyalty)
        } else {
            None
        }
    }

    /// The state after minting token `id` to `to`.
    pub open spec fn after_mint(
        self,
        to: AccountId,
        id: u32,
        uri: String,
        bps: Option<u32>,
        recipient: Option<AccountId>,
    ) -> Self {
        NftModel {
            total_supply: (self.total_supply + 1) as u32,
            owners: self.owners.insert(id, to),
            uris: self.uris.insert(id, uri),
            token_bps: match bps {
                Some(b) => self.token_bps.insert(id, b),
                None => self.token_bps,
            },
            token_recipient: match recipient {
                Some(r) => self.token_recipient.insert(id, r),
                None => self.token_recipient,
            },
            ..self
        }
    }

    /// The first check of a move of token `id` by its owner `from`, if any.
    pub open spec fn owner_error(self, from: AccountId, id: u32) -> Option<NftError> {
        if !self.minted(id) {
            Some(NftError::TokenNotFound)
        } else if self.owners[id] != from {
            Some(NftError::NotOwner)
        } else {
            None
        }
    }

    /// The state after token `id` moved to `to`; any approval is cleared.
    pub open spec fn after_transfer(self, to: AccountId, id: u32) -> Self {
        NftModel { owners: self.owners.insert(id, to), approvals: self.approvals.remove(id), ..self }
    }

    /// The first check of `transfer_from` that fails, if any.
    pub open spec fn transfer_from_error(self, spender: AccountId, from: AccountId, id: u32) -> Option<NftError> {
        if self.owner_error(from, id) is Some {
            self.owner_error(from, id)
        } else if !(self.approvals.contains_key(id) && self.approvals[id] == spender) {
            Some(NftError::NotApproved)
        } else {
            None
        }
    }

    /// The state after token `id` was burned.
    pub open spec fn after_burn(self, id: u32) -> Self {
        NftModel {
            total_supply: (self.total_supply - 1) as u32,
            owners: self.owners.remove(id),
            uris: self.uris.remove(id),
            approvals: self.approvals.remove(id),
            token_bps: self.token_bps.remove(id),
            token_recipient: self.token_recipient.remove(id),
            ..self
        }
    }

    /// The royalty quoted for token `id` at `price`: the token's own
    /// setting when it has one (none at zero), else the collection's.
    pub open spec fn royalty(self, id: u32, price: int) -> Option<RoyaltyInfo> {
        if self.token_bps.contains_key(id) {
            let b = self.token_bps[id];
            if b == 0 || !self.token_recipient.contains_key(id) {
                None
            } else {
                Some(RoyaltyInfo { recipient: self.token_recipient[id], amount: royalty_amount(price, b as int) as i128 })
            }
        } else {
            match (self.royalty_bps, self.royalty_recipient) {
                (Some(b), Some(r)) => if b == 0 {
                    None
                } else {
                    Some(RoyaltyInfo { recipient: r, amount: royalty_amount(price, b as int) as i128 })
                },
                _ => None,
            }
        }
    }
}

fn royalty_quote(bps: u32, recipient: AccountId, price: i128) -> (r: RoyaltyInfo)
    ensures
        r == (RoyaltyInfo { recipient, amount: royalty_amount(price as int, bps as int) as i128 }),
{
    let amount = match apply_bps_fee(price, bps) {
        Some(a) => a,
        None => 0,
    };
    RoyaltyInfo { recipient, amount }
}

impl NftContract {
    /// A contract with empty storage.
    pub fn new() -> (c: Self)
        ensures
            !c@.initialized(),
            c@.wf(),
            c@.name@ == Seq::<char>::empty(),
            c@.symbol@ == Seq::<char>::empty(),
            c@.max_supply == 0,
            c@.total_supply == 0,
            c@.royalty_bps == None::<u32>,
            c@.royalty_recipient == None::<AccountId>,
            c@.owners == Map::<u32, AccountId>::empty(),
            c@.uris == Map::<u32, String>::empty(),
            c@.approvals == Map::<u32, AccountId>::empty(),
            c@.token_bps == Map::<u32, u32>::empty(),
            c@.token_recipient == Map::<u32, AccountId>::empty(),
    {
        let c = NftContract {
            admin: None,
            name: String::new(),
            symbol: String::new(),
            max_supply: 0,
            total_supply: 0,
            royalty_bps: None,
            royalty_recipient: None,
            owners: HashMap::new(),
            uris: HashMap::new(),
            approvals: HashMap::new(),
            token_royalty_bps: HashMap::new(),
            token_royalty_recipient: HashMap::new(),
        };
        proof {
            assert(c@.owners.dom() =~= Set::<u32>::empty());
        }
        c
    }

    /// Initializes the collection; `max_supply` zero means no cap. The admin
    /// authorizes the call.
    pub fn initialize(
        &mut self,
        admin: AccountId,
        name: String,
        symbol: String,
        max_supply: u32,
        royalty_bps: Option<u32>,
        royalty_recipient: Option<AccountId>,
    ) -> (r: Result<(), NftError>)
        requires
            old(self)@.wf(),
        ensures
            final(self)@.wf(),
            old(self)@.initialized() ==> r == Err::<(), _>(NftError::AlreadyInitialized)
                && final(self)@ == old(self)@,
            !old(self)@.initialized() && royalty_error(royalty_bps, royalty_recipient) is Some ==> r
                == Err::<(), _>(royalty_error(royalty_bps, royalty_recipient)->Some_0)
                && final(self)@ == old(self)@,
            !old(self)@.initialized() && royalty_error(royalty_bps, royalty_recipient) is None ==> r
                is Ok && final(self)@ == (NftModel {
                admin: Some(admin),
                name,
                symbol,
                max_supply,
                royalty_bps,
                royalty_recipient,
                ..old(self)@
            }),
    {
        if self.admin.is_some() {
            return Err(NftError::AlreadyInitialized);
        }
        match royalty_bps {
            Some(b) => {
                if b > 10_000 {
                    return Err(NftError::InvalidRoyalty);
                }
                if b > 0 && royalty_recipient.is_none() {
                    return Err(NftError::RoyaltyRecipientMissing);
                }
            },
            None => {},
        }
        self.admin = Some(admin);
        self.name = name;
        self.symbol = symbol;
        self.max_supply = max_supply;
        self.royalty_bps = royalty_bps;
        self.royalty_recipient = royalty_recipient;
        Ok(())
    }

    /// The admin, who authorizes the call, mints token `token_id` to `to`,
    /// with an optional per-token royalty. Returns the id.
    pub fn mint(
        &mut self,
        to: AccountId,
        token_id: u32,
        token_uri: String,
        token_royalty_bps: Option<u32>,
        token_royalty_recipient: Option<AccountId>,
    ) -> (r: Result<u32, NftError>)
        requires
            old(self)@.wf(),
        ensures
            final(self)@.wf(),
            match old(self)@.mint_error(token_id, token_royalty_bps, token_royalty_recipient) {
                Some(e) => r == Err::<u32, _>(e) && final(self)@ == old(self)@,
                None => r == Ok::<u32, NftError>(token_id) && final(self)@ == old(self)@.after_mint(
                    to,
                    token_id,
                    token_uri,
                    token_royalty_bps,
                    token_royalty_recipient,
                ),
            },
    {
        if self.admin.is_none() {
            return Err(NftError::NotInitialized);
        }
        if self.owners.contains_key(&token_id) {
            return Err(NftError::TokenAlreadyMinted);
        }
        if self.total_supply == u32::MAX || (self.max_supply > 0 && self.total_supply + 1 > self.max_supply) {
            return Err(NftError::SupplyCapReached);
        }
        match token_royalty_bps {
            Some(b) => {
                if b > 10_000 {
                    return Err(NftError::InvalidRoyalty);
                }
                if b > 0 && token_royalty_recipient.is_none() {
                    return Err(NftError::RoyaltyRecipientMissing);
                }
            },
            None => {
                if token_royalty_recipient.is_some() {
                    return Err(NftError::InvalidRoyalty);
                }
            },
        }
        self.total_supply = self.total_supply + 1;
        self.owners.insert(token_id, to);
        self.uris.insert(token_id, token_uri);
        match token_royalty_bps {
            Some(b) => {
                self.token_royalty_bps.insert(token_id, b);
            },
            None => {},
        }
        match token_royalty_recipient {
            Some(rcp) => {
                self.token_royalty_recipient.insert(token_id, rcp);
            },
            None => {},
        }
        Ok(token_id)
    }

    fn move_token(&mut self, to: AccountId, token_id: u32)
        requires
            old(self)@.wf(),
            old(self)@.minted(token_id),
        ensures
            final(self)@ == old(self)@.after_transfer(to, token_id),
            final(self)@.wf(),
    {
        self.owners.insert(token_id, to);
        self.approvals.remove(&token_id);
        proof {
            assert(self@.owners.dom() =~= old(self)@.owners.dom());
        }
    }

    /// Owner `from`, who authorizes the call, moves token `token_id` to
    /// `to`; any approval is cleared.
    pub fn transfer(&mut self, from: AccountId, to: AccountId, token_id: u32) -> (r: Result<(), NftError>)
        requires
            old(self)@.wf(),
        ensures
            final(self)@.wf(),
            match old(self)@.owner_error(from, token_id) {
                Some(e) => r == Err::<(), _>(e) && final(self)@ == old(self)@,
                None => r is Ok && final(self)@ == old(self)@.after_transfer(to, token_id),
            },
    {
        match self.owners.get(&token_id) {
            Some(o) => {
                if *o != from {
                    return Err(NftError::NotOwner);
                }
            },
            None => return Err(NftError::TokenNotFound),
        }
        self.move_token(to, token_id);
        Ok(())
    }

    /// The owner of token `token_id`, who authorizes the call, approves
    /// `spender` to move it.
    pub fn approve(&mut self, token_id: u32, spender: AccountId) -> (r: Result<(), NftError>)
        requires
            old(self)@.wf(),
        ensures
            final(self)@.wf(),
            !old(self)@.minted(token_id) ==> r == Err::<(), _>(NftError::TokenNotFound)
                && final(self)@ == old(self)@,
            old(self)@.minted(token_id) ==> r is Ok && final(self)@ == (NftModel {
                approvals: old(self)@.approvals.insert(token_id, spender),
                ..old(self)@
            }),
    {
        if !self.owners.contains_key(&token_id) {
            return Err(NftError::TokenNotFound);
        }
        self.approvals.insert(token_id, spender);
        Ok(())
    }

    /// The approved spender of token `token_id`, if any.
    pub fn get_approved(&self, token_id: u32) -> (r: Option<AccountId>)
        ensures
            r == (if self@.approvals.contains_key(token_id) {
                Some(self@.approvals[token_id])
            } else {
                None::<AccountId>
            }),
    {
        match self.approvals.get(&token_id) {
            Some(s) => Some(*s),
            None => None,
        }
    }

    /// Approved `spender`, who authorizes the call, moves token `token_id`
    /// of `from` to `to`; the approval is cleared.
    pub fn transfer_from(&mut self, spender: AccountId, from: AccountId, to: AccountId, token_id: u32) -> (r:
        Result<(), NftError>)
        requires
            old(self)@.wf(),
        ensures
            final(self)@.wf(),
            match old(self)@.transfer_from_error(spender, from, token_id) {
                Some(e) => r == Err::<(), _>(e) && final(self)@ == old(self)@,
                None => r is Ok && final(self)@ == old(self)@.after_transfer(to, token_id),
            },
    {
        match self.owners.get(&token_id) {
            Some(o) => {
                if *o != from {
                    return Err(NftError::NotOwner);
                }
            },
            None => return Err(NftError::TokenNotFound),
        }
        match self.approvals.get(&token_id) {
            Some(s) => {
                if *s != spender {
                    return Err(NftError::NotApproved);
                }
            },
            None => return Err(NftError::NotApproved),
        }
        self.move_token(to, token_id);
        Ok(())
    }

    /// Owner `owner`, who authorizes the call, destroys token `token_id`.
    pub fn burn(&mut self, owner: AccountId, token_id: u32) -> (r: Result<(), NftError>)
        requires
            old(self)@.wf(),
        ensures
            final(self)@.wf(),
            match old(self)@.owner_error(owner, token_id) {
                Some(e) => r == Err::<(), _>(e) && final(self)@ == old(self)@,
                None => r is Ok && final(self)@ == old(self)@.after_burn(token_id),
            },
    {
        match self.owners.get(&token_id) {
            Some(o) => {
                if *o != owner {
                    return Err(NftError::NotOwner);
                }
            },
            None => return Err(NftError::TokenNotFound),
        }
        proof {
            assert(old(self)@.owners.dom().contains(token_id));
        }
        self.total_supply = self.total_supply - 1;
        self.owners.remove(&token_id);
        self.uris.remove(&token_id);
        self.approvals.remove(&token_id);
        self.token_royalty_bps.remove(&token_id);
        self.token_royalty_recipient.remove(&token_id);
        Ok(())
    }

    /// Royalty owed on a sale of token `token_id` at `sale_price`.
    pub fn royalty_info(&self, token_id: u32, sale_price: i128) -> (r: Result<Option<RoyaltyInfo>, NftError>)
        ensures
            !self@.minted(token_id) ==> r == Err::<Option<RoyaltyInfo>, _>(NftError::TokenNotFound),
            self@.minted(token_id) ==> r == Ok::<Option<RoyaltyInfo>, NftError>(self@.royalty(token_id, sale_price as int)),
    {
        if !self.owners.contains_key(&token_id) {
            return Err(NftError::TokenNotFound);
        }
        match self.token_royalty_bps.get(&token_id) {
            Some(b) => {
                if *b == 0 {
                    return Ok(None);
                }
                match self.token_royalty_recipient.get(&token_id) {
                    Some(rcp) => Ok(Some(royalty_quote(*b, *rcp, sale_price))),
                    None => Ok(None),
                }
            },
            None => {
                match (self.royalty_bps, self.royalty_recipient) {
                    (Some(b), Some(rcp)) => {
                        if b == 0 {
                            Ok(None)
                        } else {
                            Ok(Some(royalty_quote(b, rcp, sale_price)))
                        }
                    },
                    _ => Ok(None),
                }
            },
        }
    }

    /// Owner of token `token_id`.
    pub fn owner_of(&self, token_id: u32) -> (r: Result<AccountId, NftError>)
        ensures
            self@.minted(token_id) ==> r == Ok::<AccountId, NftError>(self@.owners[token_id]),
            !self@.minted(token_id) ==> r == Err::<AccountId, _>(NftError::TokenNotFound),
    {
        match self.owners.get(&token_id) {
            Some(o) => Ok(*o),
            None => Err(NftError::TokenNotFound),
        }
    }

    /// URI of token `token_id`.
    pub fn token_uri(&self, token_id: u32) -> (r: Result<String, NftError>)
        ensures
            self@.uris.contains_key(token_id) ==> r == Ok::<String, NftError>(self@.uris[token_id]),
            !self@.uris.contains_key(token_id) ==> r == Err::<String, _>(NftError::TokenNotFound),
    {
        match self.uris.get(&token_id) {
            Some(u) => Ok(u.clone()),
            None => Err(NftError::TokenNotFound),
        }
    }

    /// Tokens in existence.
    pub fn total_supply(&self) -> (n: u32)
        ensures
            n == self@.total_supply,
    {
        self.total_supply
    }

    /// Collection name.
    pub fn name(&self) -> (s: String)
        ensures
            s == self@.name,
    {
        self.name.clone()
    }

    /// Collection symbol.
    pub fn symbol(&self) -> (s: String)
        ensures
            s == self@.symbol,
    {
        self.symbol.clone()
    }

    /// Collection metadata.
    pub fn metadata(&self) -> (m: TokenMetadata)
        ensures
            m.name == self@.name,
            m.symbol == self@.symbol,
            m.token_uri@ == Seq::<char>::empty(),
    {
        TokenMetadata { name: self.name.clone(), symbol: self.symbol.clone(), token_uri: String::new() }
    }

    /// Collection royalty in basis points, if set.
    pub fn get_royalty_bps(&self) -> (r: Option<u32>)
        ensures
            r == self@.royalty_bps,
    {
        self.royalty_bps
    }

    /// Collection royalty recipient, if set.
    pub fn get_royalty_recipient(&self) -> (r: Option<AccountId>)
        ensures
            r == self@.royalty_recipient,
    {
        self.royalty_recipient
    }
}

/// With a cap, the number of tokens never exceeds it: a mint that would go
/// past the cap is refused.
pub proof fn law_supply_cap(m: NftModel, to: AccountId, id: u32, uri: String, bps: Option<u32>, rcp: Option<AccountId>)
    requires
        m.max_supply > 0,
        m.total_supply <= m.max_supply,
        m.mint_error(id, bps, rcp) is None,
    ensures
        m.after_mint(to, id, uri, bps, rcp).total_supply <= m.max_supply,
{
}

/// A transfer by the owner, or by the approved spender, hands the token to
/// the receiver and leaves no approval behind.
pub proof fn law_transfer_moves_ownership(m: NftModel, to: AccountId, id: u32)
    requires
        m.minted(id),
    ensures
        m.after_transfer(to, id).owners[id] == to,
        !m.after_transfer(to, id).approvals.contains_key(id),
        m.after_transfer(to, id).total_supply == m.total_supply,
{
}

/// A quoted royalty never exceeds a non-negative sale price.
pub proof fn law_royalty_within_price(m: NftModel, id: u32, price: int)
    requires
        0 <= price <= i128::MAX,
        m.token_bps.contains_key(id) ==> m.token_bps[id] <= 10_000,
        m.royalty_bps matches Some(b) ==> b <= 10_000,
    ensures
        m.royalty(id, price) matches Some(info) ==> 0 <= info.amount <= price,
{
    if m.token_bps.contains_key(id) {
        crate::common::lemma_bps_share_bounds(price, m.token_bps[id] as int);
    }
    if let Some(b) = m.royalty_bps {
        crate::common::lemma_bps_share_bounds(price, b as int);
    }
}

} // verus!
