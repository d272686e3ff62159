//! The contract: configuration, the issuance state machine, the minting
//! engine, and the administrative controls.
//!
//! The `NftManager` trait is the contract's interface; `ContractState` is
//! its persistent storage and carries the one verified implementation. Each
//! entry point is a total function from the current state and the plain
//! values the host hands in (attached payment, block timestamp, account
//! balance, the authority's callback outcome) to the next state and the
//! actions the host must carry out. The host performs the actions — it
//! moves value and talks to the issuing authority — and enforces who may
//! call the operator-only entry points; every decision is made here.

use crate::encoding::{append_bytes, dec_digits, decimal_bytes, le_bytes_64, to_owned_bytes,
    u64_le_bytes};
use crate::errors::Error;
use crate::hashing::{sha256, sha256_of};
use crate::token::{acceptable_asset_id, is_native};
use vstd::prelude::*;

verus! {

/// The highest royalty rate, in basis points (100%).
pub const ROYALTIES_MAX: u32 = 10000;

/// The bytes of `creatime:`, the key under which a unit's creation time is
/// recorded in its attributes.
pub open spec fn creation_time_key() -> Seq<u8> {
    seq![99u8, 114u8, 101u8, 97u8, 116u8, 105u8, 109u8, 101u8, 58u8]
}

/// The bytes of `.png`, the extension of a unit's image reference.
pub open spec fn png_extension() -> Seq<u8> {
    seq![46u8, 112u8, 110u8, 103u8]
}

/// The bytes of `.json`, the extension of a unit's metadata reference.
pub open spec fn json_extension() -> Seq<u8> {
    seq![46u8, 106u8, 115u8, 111u8, 110u8]
}

/// A unit's attributes: the creation-time key followed by the block
/// timestamp's eight little-endian bytes — the only per-mint input besides
/// the counter.
pub open spec fn unit_attributes(timestamp: u64) -> Seq<u8> {
    creation_time_key() + le_bytes_64(timestamp)
}

/// A unit's display name: the collectible name, a `#`, and the unit's
/// sequence id in decimal.
pub open spec fn unit_name(collectible_name: Seq<u8>, sequence_id: nat) -> Seq<u8> {
    collectible_name + seq![35u8] + dec_digits(sequence_id)
}

/// A unit's image reference: `<image base>/<sequence id>.png`.
pub open spec fn image_uri(image_base: Seq<u8>, sequence_id: nat) -> Seq<u8> {
    image_base + seq![47u8] + dec_digits(sequence_id) + png_extension()
}

/// A unit's metadata reference: `<image base>/<sequence id>.json`. It is
/// deliberately built from the image base, not the metadata base — the
/// stored metadata base takes no part in it.
pub open spec fn metadata_uri(image_base: Seq<u8>, sequence_id: nat) -> Seq<u8> {
    image_base + seq![47u8] + dec_digits(sequence_id) + json_extension()
}

/// The capability profile every registration request carries: ownership
/// transferable and special-role assignment enabled, nothing else.
pub open spec fn mint_only_properties() -> TokenProperties {
    TokenProperties {
        can_freeze: false,
        can_wipe: false,
        can_pause: false,
        can_change_owner: true,
        can_upgrade: false,
        can_add_special_roles: true,
    }
}

/// The capability profile a token class is registered with.
#[derive(Clone, Copy, Debug, PartialEq, Eq, Structural)]
pub struct TokenProperties {
    /// Whether holdings of the class can be frozen.
    pub can_freeze: bool,
    /// Whether holdings of the class can be wiped.
    pub can_wipe: bool,
    /// Whether the class as a whole can be paused.
    pub can_pause: bool,
    /// Whether ownership of the class can be transferred.
    pub can_change_owner: bool,
    /// Whether the class can be upgraded.
    pub can_upgrade: bool,
    /// Whether special roles (such as unit creation) can be assigned.
    pub can_add_special_roles: bool,
}

/// An asynchronous registration request for the host to forward to the
/// issuing authority, with the attached native-asset payment. The authority
/// answers through `NftManager::issue_callback`.
#[derive(Debug)]
pub struct IssueRequest {
    /// The native-asset amount forwarded with the request.
    pub payment_amount: u128,
    /// The collectible's display name.
    pub token_name: Vec<u8>,
    /// The ticker the class is to be registered under.
    pub token_ticker: Vec<u8>,
    /// The capability profile; always the mint-only profile.
    pub properties: TokenProperties,
}

/// An asynchronous request for the host to forward to the issuing authority:
/// grant this contract the capability to create units of its own class.
#[derive(Debug)]
pub struct SetRolesRequest {
    /// The issued token class the role is requested for.
    pub token_id: Vec<u8>,
}

/// Who a value transfer goes to.
#[derive(Clone, Copy, Debug, PartialEq, Eq, Structural)]
pub enum Recipient {
    /// The account that called the entry point.
    Caller,
    /// The deploying operator's account.
    Operator,
}

/// A value transfer for the host's payment rail to perform.
#[derive(Debug)]
pub struct Payment {
    /// Who receives the value.
    pub to: Recipient,
    /// The asset transferred; empty for the native asset.
    pub token_id: Vec<u8>,
    /// The unit nonce within the asset; 0 for fungible and native assets.
    pub nonce: u64,
    /// The amount transferred.
    pub amount: u128,
}

/// A request to create exactly one new unit of the issued token class, with
/// every field the creation call is to carry.
#[derive(Debug)]
pub struct UnitCreation {
    /// The issued token class the unit belongs to.
    pub token_id: Vec<u8>,
    /// How many instances to create; always 1.
    pub quantity: u128,
    /// The unit's display name, carrying its sequence id.
    pub name: Vec<u8>,
    /// The royalty rate attached to the unit, in basis points.
    pub royalties: u32,
    /// The SHA-256 digest of the attributes: the content fingerprint.
    pub hash: Vec<u8>,
    /// The on-chain metadata: the creation-time attributes.
    pub attributes: Vec<u8>,
    /// The unit's reference list: the image reference, then the metadata
    /// reference.
    pub uris: Vec<Vec<u8>>,
}

impl UnitCreation {
    /// The transfer that hands the one freshly created unit to the minter,
    /// once the host has learned the unit's runtime-assigned nonce.
    pub fn transfer_to_caller(&self, nonce: u64) -> (p: Payment)
        ensures
            p.to == Recipient::Caller,
            p.token_id@ == self.token_id@,
            p.nonce == nonce,
            p.amount == 1,
    {
        Payment {
            to: Recipient::Caller,
            token_id: to_owned_bytes(self.token_id.as_slice()),
            nonce,
            amount: 1,
        }
    }
}

/// The issuing authority's answer to a registration request, as the callback
/// sees it.
pub enum IssueResult {
    /// The authority allocated this identifier for the token class.
    Granted(Vec<u8>),
    /// The authority refused the registration.
    Failed,
}

/// The mathematical view of the persisted state: one record of plain
/// values, one field per storage slot.
pub ghost struct StateView {
    /// The asset a mint payment must be made in; empty for the native asset.
    pub payment_token_id: Seq<u8>,
    /// The price of one unit, in the payment asset.
    pub nft_token_price: u128,
    /// The royalty rate attached to each unit, in basis points.
    pub royalties: u32,
    /// The base under which every unit's image lives.
    pub image_base_uri: Seq<u8>,
    /// The base under which every unit's metadata lives.
    pub metadata_base_uri: Seq<u8>,
    /// The human-readable collectible name.
    pub nft_token_name: Seq<u8>,
    /// The identifier the issuing authority allocated; empty until then.
    pub nft_token_id: Seq<u8>,
    /// Whether minting is flagged as paused.
    pub paused: bool,
    /// How many units have been minted so far.
    pub mint_count: u32,
}

impl StateView {
    /// A token class has been issued: the authority has written back a
    /// non-empty identifier.
    pub open spec fn issued(self) -> bool {
        self.nft_token_id.len() > 0
    }

    /// The 1-based ordinal the next minted unit will carry.
    pub open spec fn next_sequence_id(self) -> nat {
        self.mint_count as nat + 1
    }

    /// The requests `mint` accepts: the class is issued, the payment is in
    /// the configured asset, and the amount reaches the unit price. The
    /// `paused` flag takes no part in it.
    pub open spec fn mint_accepted(self, payment_token: Seq<u8>, payment_amount: u128) -> bool {
        &&& self.issued()
        &&& payment_token == self.payment_token_id
        &&& payment_amount >= self.nft_token_price
    }
}

/// The inputs initialization accepts.
pub open spec fn init_accepted(payment_token_id: Seq<u8>, royalties: u32) -> bool {
    royalties <= ROYALTIES_MAX && acceptable_asset_id(payment_token_id)
}

/// Two states that agree on every persisted field.
pub open spec fn state_eq(a: StateView, b: StateView) -> bool {
    &&& a.payment_token_id == b.payment_token_id
    &&& a.nft_token_price == b.nft_token_price
    &&& a.royalties == b.royalties
    &&& a.image_base_uri == b.image_base_uri
    &&& a.metadata_base_uri == b.metadata_base_uri
    &&& a.nft_token_name == b.nft_token_name
    &&& a.nft_token_id == b.nft_token_id
    &&& a.paused == b.paused
    &&& a.mint_count == b.mint_count
}

/// Two states that agree on everything but the collectible name.
pub open spec fn eq_except_token_name(a: StateView, b: StateView) -> bool {
    &&& a.payment_token_id == b.payment_token_id
    &&& a.nft_token_price == b.nft_token_price
    &&& a.royalties == b.royalties
    &&& a.image_base_uri == b.image_base_uri
    &&& a.metadata_base_uri == b.metadata_base_uri
    &&& a.nft_token_id == b.nft_token_id
    &&& a.paused == b.paused
    &&& a.mint_count == b.mint_count
}

/// Two states that agree on everything but the issued identifier.
pub open spec fn eq_except_token_id(a: StateView, b: StateView) -> bool {
    &&& a.payment_token_id == b.payment_token_id
    &&& a.nft_token_price == b.nft_token_price
    &&& a.royalties == b.royalties
    &&& a.image_base_uri == b.image_base_uri
    &&& a.metadata_base_uri == b.metadata_base_uri
    &&& a.nft_token_name == b.nft_token_name
    &&& a.paused == b.paused
    &&& a.mint_count == b.mint_count
}

/// Two states that agree on everything but the paused flag.
pub open spec fn eq_except_paused(a: StateView, b: StateView) -> bool {
    &&& a.payment_token_id == b.payment_token_id
    &&& a.nft_token_price == b.nft_token_price
    &&& a.royalties == b.royalties
    &&& a.image_base_uri == b.image_base_uri
    &&& a.metadata_base_uri == b.metadata_base_uri
    &&& a.nft_token_name == b.nft_token_name
    &&& a.nft_token_id == b.nft_token_id
    &&& a.mint_count == b.mint_count
}

/// Two states that agree on everything but the mint counter.
pub open spec fn eq_except_mint_count(a: StateView, b: StateView) -> bool {
    &&& a.payment_token_id == b.payment_token_id
    &&& a.nft_token_price == b.nft_token_price
    &&& a.royalties == b.royalties
    &&& a.image_base_uri == b.image_base_uri
    &&& a.metadata_base_uri == b.metadata_base_uri
    &&& a.nft_token_name == b.nft_token_name
    &&& a.nft_token_id == b.nft_token_id
    &&& a.paused == b.paused
}

/// The contract's interface: the entry points with their full contracts,
/// stated over the state's mathematical view.
pub trait NftManager: Sized {
    /// The persisted state, as one record of plain values.
    spec fn state(&self) -> StateView;

    /// Sets up the configuration. Callable exactly once, by the deploying
    /// operator; the host enforces who calls it, this function enforces what
    /// it may contain. Rejects a royalty rate above 100% and a payment asset
    /// that is neither native nor a valid fungible-asset identifier; on
    /// success every field is persisted exactly as given, the mint counter
    /// starts at 0, minting is not paused, and no token class is issued.
    fn init(
        payment_token_id: Vec<u8>,
        nft_token_price: u128,
        royalties: u32,
        image_base_uri: Vec<u8>,
        metadata_base_uri: Vec<u8>,
    ) -> (r: Result<Self, Error>)
        ensures
            r is Ok <==> init_accepted(payment_token_id@, royalties),
            royalties > ROYALTIES_MAX ==> r == Err::<Self, Error>(Error::InvalidRoyalty),
            royalties <= ROYALTIES_MAX && !acceptable_asset_id(payment_token_id@)
                ==> r == Err::<Self, Error>(Error::InvalidAsset),
            r matches Ok(s) ==> {
                &&& s.state().payment_token_id == payment_token_id@
                &&& s.state().nft_token_price == nft_token_price
                &&& s.state().royalties == royalties
                &&& s.state().image_base_uri == image_base_uri@
                &&& s.state().metadata_base_uri == metadata_base_uri@
                &&& s.state().nft_token_name == Seq::<u8>::empty()
                &&& s.state().nft_token_id == Seq::<u8>::empty()
                &&& !s.state().paused
                &&& s.state().mint_count == 0
            },
    ;

    /// Refuses with `TokenNotIssued` exactly when no token class is issued.
    fn require_token_issued(&self) -> (r: Result<(), Error>)
        ensures
            r is Ok <==> self.state().issued(),
            !self.state().issued() ==> r == Err::<(), Error>(Error::TokenNotIssued),
    ;

    /// Starts the one-time registration of the token class. Refused with
    /// `AlreadyIssued` once a class is issued — `Issued` is terminal. On
    /// success the collectible name is stored and the returned request,
    /// carrying the attached native-asset payment, the name, the ticker and
    /// the fixed mint-only capability profile, is handed to the host to
    /// forward to the authority; nothing else changes.
    fn issue_nft(
        &mut self,
        token_name: Vec<u8>,
        token_ticker: Vec<u8>,
        payment_amount: u128,
    ) -> (r: Result<IssueRequest, Error>)
        ensures
            r is Ok <==> !old(self).state().issued(),
            old(self).state().issued() ==> r == Err::<IssueRequest, Error>(Error::AlreadyIssued)
                && state_eq(old(self).state(), final(self).state()),
            r matches Ok(req) ==> {
                &&& final(self).state().nft_token_name == token_name@
                &&& eq_except_token_name(old(self).state(), final(self).state())
                &&& req.payment_amount == payment_amount
                &&& req.token_name@ == token_name@
                &&& req.token_ticker@ == token_ticker@
                &&& req.properties == mint_only_properties()
            },
    ;

    /// Reconciles the authority's answer; the host invokes it exactly once
    /// per registration request. On success the allocated identifier is
    /// persisted and the state enters `Issued`. On failure nothing is
    /// mutated — the class stays unissued, so the request can be retried —
    /// and the returned payment, if it is a positive native-asset amount, is
    /// refunded in full to the operator; a non-native returned asset is
    /// deliberately not auto-refunded.
    fn issue_callback(
        &mut self,
        result: IssueResult,
        returned_token: Vec<u8>,
        returned_amount: u128,
    ) -> (refund: Option<Payment>)
        ensures
            result matches IssueResult::Granted(id) ==> {
                &&& final(self).state().nft_token_id == id@
                &&& eq_except_token_id(old(self).state(), final(self).state())
                &&& refund is None
            },
            result is Failed ==> state_eq(old(self).state(), final(self).state()),
            result is Failed ==> ((refund is Some) <==> (is_native(returned_token@)
                && returned_amount > 0)),
            refund matches Some(p) ==> {
                &&& p.to == Recipient::Operator
                &&& p.token_id@ == returned_token@
                &&& p.nonce == 0
                &&& p.amount == returned_amount
            },
    ;

    /// Asks the authority to grant this contract the capability to create
    /// units of its own class. Refused with `TokenNotIssued` before
    /// issuance; otherwise the returned request names the issued class.
    fn set_local_roles(&self) -> (r: Result<SetRolesRequest, Error>)
        ensures
            r is Ok <==> self.state().issued(),
            !self.state().issued() ==> r == Err::<SetRolesRequest, Error>(Error::TokenNotIssued),
            r matches Ok(req) ==> req.token_id@ == self.state().nft_token_id,
    ;

    /// Sets the paused flag; nothing else changes.
    fn pause_minting(&mut self)
        ensures
            final(self).state().paused,
            eq_except_paused(old(self).state(), final(self).state()),
    ;

    /// Clears the paused flag. Refused with `TokenNotIssued` before
    /// issuance — resuming before issuance is meaningless; nothing changes
    /// on refusal.
    fn start_minting(&mut self) -> (r: Result<(), Error>)
        ensures
            r is Ok <==> old(self).state().issued(),
            !old(self).state().issued() ==> r == Err::<(), Error>(Error::TokenNotIssued)
                && state_eq(old(self).state(), final(self).state()),
            r is Ok ==> !final(self).state().paused
                && eq_except_paused(old(self).state(), final(self).state()),
    ;

    /// Withdraws the contract's whole balance of one asset to the operator:
    /// the named asset, or the native asset when none is named. The host
    /// supplies the current balance and performs the returned transfer.
    /// Refused with `NothingToWithdraw` exactly when that balance is zero.
    fn withdraw(&self, token_id: Option<Vec<u8>>, balance: u128) -> (r: Result<Payment, Error>)
        ensures
            r is Ok <==> balance > 0,
            balance == 0 ==> r == Err::<Payment, Error>(Error::NothingToWithdraw),
            r matches Ok(p) ==> {
                &&& p.to == Recipient::Operator
                &&& p.token_id@ == (match token_id {
                    Some(t) => t@,
                    None => Seq::<u8>::empty(),
                })
                &&& p.nonce == 0
                &&& p.amount == balance
            },
    ;

    /// Mints one unit against the attached payment. The preconditions are
    /// checked in order — `TokenNotIssued`, then `WrongAsset`, then
    /// `InsufficientPayment` — and a refused call changes nothing. On
    /// success the counter moves up by exactly one and the returned creation
    /// request carries the unit's deterministic fields; the payment stays
    /// with the contract, excess included. The paused flag does not gate
    /// minting in this design.
    fn mint(
        &mut self,
        payment_token: Vec<u8>,
        payment_amount: u128,
        block_timestamp: u64,
    ) -> (r: Result<UnitCreation, Error>)
        requires
            old(self).state().mint_count < u32::MAX,
        ensures
            r is Ok <==> old(self).state().mint_accepted(payment_token@, payment_amount),
            !old(self).state().issued() ==> r == Err::<UnitCreation, Error>(Error::TokenNotIssued),
            old(self).state().issued() && payment_token@ != old(self).state().payment_token_id
                ==> r == Err::<UnitCreation, Error>(Error::WrongAsset),
            old(self).state().issued() && payment_token@ == old(self).state().payment_token_id
                && payment_amount < old(self).state().nft_token_price
                ==> r == Err::<UnitCreation, Error>(Error::InsufficientPayment),
            r is Err ==> state_eq(old(self).state(), final(self).state()),
            r matches Ok(c) ==> {
                &&& eq_except_mint_count(old(self).state(), final(self).state())
                &&& final(self).state().mint_count == old(self).state().mint_count + 1
                &&& c.token_id@ == old(self).state().nft_token_id
                &&& c.quantity == 1
                &&& c.name@ == unit_name(old(self).state().nft_token_name,
                    old(self).state().next_sequence_id())
                &&& c.royalties == old(self).state().royalties
                &&& c.attributes@ == unit_attributes(block_timestamp)
                &&& c.hash@ == sha256_of(unit_attributes(block_timestamp))
                &&& c.hash@.len() == 32
                &&& c.uris@.len() == 2
                &&& c.uris@[0]@ == image_uri(old(self).state().image_base_uri,
                    old(self).state().next_sequence_id())
                &&& c.uris@[1]@ == metadata_uri(old(self).state().image_base_uri,
                    old(self).state().next_sequence_id())
            },
    ;

    /// The issued token-class identifier; empty while none is issued.
    fn nft_token_id(&self) -> (r: &Vec<u8>)
        ensures
            r@ == self.state().nft_token_id,
    ;

    /// The price of one unit.
    fn nft_token_price(&self) -> (r: u128)
        ensures
            r == self.state().nft_token_price,
    ;

    /// The asset a mint payment must be made in.
    fn payment_token_id(&self) -> (r: &Vec<u8>)
        ensures
            r@ == self.state().payment_token_id,
    ;

    /// Whether minting is flagged as paused.
    fn paused(&self) -> (r: bool)
        ensures
            r == self.state().paused,
    ;

    /// How many units have been minted so far.
    fn mint_count(&self) -> (r: u32)
        ensures
            r == self.state().mint_count,
    ;

    /// The collectible's display name.
    fn nft_token_name(&self) -> (r: &Vec<u8>)
        ensures
            r@ == self.state().nft_token_name,
    ;

    /// The royalty rate, in basis points.
    fn royalties(&self) -> (r: u32)
        ensures
            r == self.state().royalties,
    ;

    /// The base under which every unit's image lives.
    fn image_base_uri(&self) -> (r: &Vec<u8>)
        ensures
            r@ == self.state().image_base_uri,
    ;

    /// The base under which every unit's metadata lives.
    fn metadata_base_uri(&self) -> (r: &Vec<u8>)
        ensures
            r@ == self.state().metadata_base_uri,
    ;
}

/// The whole persistent state of the contract: the configuration laid down
/// at initialization, the issuance state (an empty `nft_token_id` means no
/// token class is issued yet), and the operational flags.
#[derive(Debug)]
pub struct ContractState {
    /// The asset a mint payment must be made in; empty for the native asset.
    pub payment_token_id: Vec<u8>,
    /// The price of one unit, in the payment asset.
    pub nft_token_price: u128,
    /// The royalty rate attached to each unit, in basis points; at most 10000.
    pub royalties: u32,
    /// The base under which every unit's image lives.
    pub image_base_uri: Vec<u8>,
    /// The base under which every unit's metadata lives. The current design
    /// stores it but builds both references from the image base.
    pub metadata_base_uri: Vec<u8>,
    /// The human-readable collectible name, set at registration-request time.
    pub nft_token_name: Vec<u8>,
    /// The identifier the issuing authority allocated; empty until then.
    pub nft_token_id: Vec<u8>,
    /// Whether minting is flagged as paused. The flag does not gate `mint`
    /// in the current design; it is stored and reported only.
    pub paused: bool,
    /// How many units have been minted so far.
    pub mint_count: u32,
}

impl ContractState {
    /// Builds the deterministic creation request for the next unit and moves
    /// the counter up by one: attributes from the block timestamp, their
    /// SHA-256 digest as content fingerprint, the numbered name, and both
    /// references under the image base.
    fn _mint(&mut self, block_timestamp: u64) -> (c: UnitCreation)
        requires
            old(self).mint_count < u32::MAX,
        ensures
            eq_except_mint_count(old(self).state(), final(self).state()),
            final(self).mint_count == old(self).mint_count + 1,
            c.token_id@ == old(self).nft_token_id@,
            c.quantity == 1,
            c.name@ == unit_name(old(self).nft_token_name@, old(self).state().next_sequence_id()),
            c.royalties == old(self).royalties,
            c.attributes@ == unit_attributes(block_timestamp),
            c.hash@ == sha256_of(unit_attributes(block_timestamp)),
            c.hash@.len() == 32,
            c.uris@.len() == 2,
            c.uris@[0]@ == image_uri(old(self).image_base_uri@,
                old(self).state().next_sequence_id()),
            c.uris@[1]@ == metadata_uri(old(self).image_base_uri@,
                old(self).state().next_sequence_id()),
    {
        let mint_id: u32 = self.mint_count + 1;

        let mut attributes = creation_time_key_bytes();
        let timestamp_bytes = u64_le_bytes(block_timestamp);
        append_bytes(&mut attributes, timestamp_bytes.as_slice());
        proof {
            assert(attributes@ =~= unit_attributes(block_timestamp));
        }

        let hash = sha256(attributes.as_slice());

        let dec = decimal_bytes(mint_id);

        let mut name = to_owned_bytes(self.nft_token_name.as_slice());
        name.push(35);
        append_bytes(&mut name, dec.as_slice());
        proof {
            assert(name@ =~= unit_name(self.nft_token_name@, mint_id as nat));
        }

        let mut image = to_owned_bytes(self.image_base_uri.as_slice());
        image.push(47);
        append_bytes(&mut image, dec.as_slice());
        image.push(46);
        image.push(112);
        image.push(110);
        image.push(103);
        proof {
            assert(image@ =~= image_uri(self.image_base_uri@, mint_id as nat));
        }

        let mut metadata = to_owned_bytes(self.image_base_uri.as_slice());
        metadata.push(47);
        append_bytes(&mut metadata, dec.as_slice());
        metadata.push(46);
        metadata.push(106);
        metadata.push(115);
        metadata.push(111);
        metadata.push(110);
        proof {
            assert(metadata@ =~= metadata_uri(self.image_base_uri@, mint_id as nat));
        }

        let mut uris: Vec<Vec<u8>> = Vec::new();
        uris.push(image);
        uris.push(metadata);

        let token_id = to_owned_bytes(self.nft_token_id.as_slice());
        let royalties = self.royalties;

        self.mint_count = self.mint_count + 1;

        UnitCreation {
            token_id,
            quantity: 1,
            name,
            royalties,
            hash,
            attributes,
            uris,
        }
    }
}

impl NftManager for ContractState {
    open spec fn state(&self) -> StateView {
        StateView {
            payment_token_id: self.payment_token_id@,
            nft_token_price: self.nft_token_price,
            royalties: self.royalties,
            image_base_uri: self.image_base_uri@,
            metadata_base_uri: self.metadata_base_uri@,
            nft_token_name: self.nft_token_name@,
            nft_token_id: self.nft_token_id@,
            paused: self.paused,
            mint_count: self.mint_count,
        }
    }

    fn init(
        payment_token_id: Vec<u8>,
        nft_token_price: u128,
        royalties: u32,
        image_base_uri: Vec<u8>,
        metadata_base_uri: Vec<u8>,
    ) -> (r: Result<Self, Error>) {
        if royalties > ROYALTIES_MAX {
            return Err(Error::InvalidRoyalty);
        }
        if !(crate::token::is_native_asset(payment_token_id.as_slice())
            || crate::token::is_valid_asset_id(payment_token_id.as_slice()))
        {
            return Err(Error::InvalidAsset);
        }
        Ok(ContractState {
            payment_token_id,
            nft_token_price,
            royalties,
            image_base_uri,
            metadata_base_uri,
            nft_token_name: Vec::new(),
            nft_token_id: Vec::new(),
            paused: false,
            mint_count: 0,
        })
    }

    fn require_token_issued(&self) -> (r: Result<(), Error>) {
        if self.nft_token_id.len() == 0 {
            Err(Error::TokenNotIssued)
        } else {
            Ok(())
        }
    }

    fn issue_nft(
        &mut self,
        token_name: Vec<u8>,
        token_ticker: Vec<u8>,
        payment_amount: u128,
    ) -> (r: Result<IssueRequest, Error>) {
        if self.nft_token_id.len() > 0 {
            return Err(Error::AlreadyIssued);
        }
        self.nft_token_name = to_owned_bytes(token_name.as_slice());
        Ok(IssueRequest {
            payment_amount,
            token_name,
            token_ticker,
            properties: TokenProperties {
                can_freeze: false,
                can_wipe: false,
                can_pause: false,
                can_change_owner: true,
                can_upgrade: false,
                can_add_special_roles: true,
            },
        })
    }

    fn issue_callback(
        &mut self,
        result: IssueResult,
        returned_token: Vec<u8>,
        returned_amount: u128,
    ) -> (refund: Option<Payment>) {
        match result {
            IssueResult::Granted(token_id) => {
                self.nft_token_id = token_id;
                None
            },
            IssueResult::Failed => {
                if returned_token.len() == 0 && returned_amount > 0 {
                    Some(Payment {
                        to: Recipient::Operator,
                        token_id: returned_token,
                        nonce: 0,
                        amount: returned_amount,
                    })
                } else {
                    None
                }
            },
        }
    }

    fn set_local_roles(&self) -> (r: Result<SetRolesRequest, Error>) {
        match self.require_token_issued() {
            Err(e) => Err(e),
            Ok(()) => Ok(SetRolesRequest {
                token_id: to_owned_bytes(self.nft_token_id.as_slice()),
            }),
        }
    }

    fn pause_minting(&mut self) {
        self.paused = true;
    }

    fn start_minting(&mut self) -> (r: Result<(), Error>) {
        if self.nft_token_id.len() == 0 {
            return Err(Error::TokenNotIssued);
        }
        self.paused = false;
        Ok(())
    }

    fn withdraw(&self, token_id: Option<Vec<u8>>, balance: u128) -> (r: Result<Payment, Error>) {
        let asset: Vec<u8> = match token_id {
            Some(t) => t,
            None => Vec::new(),
        };
        if balance == 0 {
            return Err(Error::NothingToWithdraw);
        }
        Ok(Payment {
            to: Recipient::Operator,
            token_id: asset,
            nonce: 0,
            amount: balance,
        })
    }

    fn mint(
        &mut self,
        payment_token: Vec<u8>,
        payment_amount: u128,
        block_timestamp: u64,
    ) -> (r: Result<UnitCreation, Error>) {
        match self.require_token_issued() {
            Err(e) => {
                return Err(e);
            },
            Ok(()) => {},
        }
        if !crate::encoding::bytes_eq(payment_token.as_slice(), self.payment_token_id.as_slice())
        {
            return Err(Error::WrongAsset);
        }
        if payment_amount < self.nft_token_price {
            return Err(Error::InsufficientPayment);
        }
        Ok(self._mint(block_timestamp))
    }

    fn nft_token_id(&self) -> (r: &Vec<u8>) {
        &self.nft_token_id
    }

    fn nft_token_price(&self) -> (r: u128) {
        self.nft_token_price
    }

    fn payment_token_id(&self) -> (r: &Vec<u8>) {
        &self.payment_token_id
    }

    fn paused(&self) -> (r: bool) {
        self.paused
    }

    fn mint_count(&self) -> (r: u32) {
        self.mint_count
    }

    fn nft_token_name(&self) -> (r: &Vec<u8>) {
        &self.nft_token_name
    }

    fn royalties(&self) -> (r: u32) {
        self.royalties
    }

    fn image_base_uri(&self) -> (r: &Vec<u8>) {
        &self.image_base_uri
    }

    fn metadata_base_uri(&self) -> (r: &Vec<u8>) {
        &self.metadata_base_uri
    }
}

/// The attribute key `creatime:` as an owned buffer.
fn creation_time_key_bytes() -> (r: Vec<u8>)
    ensures
        r@ == creation_time_key(),
{
    let mut r: Vec<u8> = Vec::new();
    r.push(99);
    r.push(114);
    r.push(101);
    r.push(97);
    r.push(116);
    r.push(105);
    r.push(109);
    r.push(101);
    r.push(58);
    proof {
        assert(r@ =~= creation_time_key());
    }
    r
}

/// One step of the contract: every state change some entry point's contract
/// allows, successful or refused. A refused call and a failed callback leave
/// the state as it was; `issue_nft` touches only the collectible name; a
/// granted callback only the issued identifier; the pause controls only the
/// flag; and a successful mint moves the counter up by exactly one and
/// touches nothing else.
pub open spec fn steps_to(pre: StateView, post: StateView) -> bool {
    ||| state_eq(pre, post)
    ||| eq_except_token_name(pre, post)
    ||| eq_except_token_id(pre, post)
    ||| eq_except_paused(pre, post)
    ||| (eq_except_mint_count(pre, post) && post.mint_count == pre.mint_count + 1)
}

/// The mint counter never decreases: no entry point's contract allows a step
/// that lowers it, and only a successful mint moves it — by exactly one.
pub proof fn lemma_mint_count_monotonic(pre: StateView, post: StateView)
    requires
        steps_to(pre, post),
    ensures
        post.mint_count >= pre.mint_count,
        post.mint_count == pre.mint_count || post.mint_count == pre.mint_count + 1,
{
}

/// Whether a mint is accepted depends on issuance alone, once the payment is
/// right: before the token class is issued no payment at all is accepted,
/// and after issuance every payment in the configured asset of at least the
/// unit price is.
pub proof fn lemma_mint_gated_by_issuance(s: StateView, token: Seq<u8>, amount: u128)
    ensures
        !s.issued() ==> !s.mint_accepted(token, amount),
        s.issued() && token == s.payment_token_id && amount >= s.nft_token_price
            ==> s.mint_accepted(token, amount),
{
}

/// Each successful mint moves the counter up by exactly one, so the sequence
/// ids of two consecutive successful mints differ by exactly one.
pub proof fn lemma_sequential_mints_consecutive(s0: StateView, s1: StateView)
    requires
        s1.mint_count == s0.mint_count + 1,
    ensures
        s1.next_sequence_id() == s0.next_sequence_id() + 1,
{
}

/// A state left unchanged — as a failed callback or any refused operation
/// leaves it — is issued exactly when the old one was; in particular, after
/// a failed issuance the class is still unissued and a new registration
/// request is accepted.
pub proof fn lemma_state_eq_preserves_issuance(a: StateView, b: StateView)
    requires
        state_eq(a, b),
    ensures
        a.issued() == b.issued(),
        a.mint_count == b.mint_count,
{
}

} // verus!
