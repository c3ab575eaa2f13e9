use vstd::prelude::*;

verus! {

/// Largest metadata blob, in bytes, that an escrow may carry.
pub const MAX_METADATA_SIZE: u32 = 1024;

/// Largest number of items in one escrow.
pub const MAX_ITEMS_PER_ESCROW: u32 = 50;

/// Number of ledgers after creation within which an escrow must be funded.
/// After this window anyone may cancel it with `cancel_unfunded`
/// (about seven days at five seconds per ledger).
pub const UNFUNDED_EXPIRY_LEDGERS: u32 = 120_960;

/// Number of ledgers after which accumulated buyer volume is reset
/// (about thirty days at five seconds per ledger).
pub const VOLUME_RESET_INTERVAL: u32 = 1_576_800;

/// Largest fee, in basis points, that the admin may configure.
pub const MAX_FEE_BPS: u32 = 1000;

/// Largest volume discount, in basis points, that is ever applied.
pub const MAX_VOLUME_DISCOUNT_BPS: u32 = 500;

/// Basis points in one whole.
pub const BPS_DENOMINATOR: i128 = 10_000;

/// Longest address serialisation accepted for a party of an escrow. Host
/// addresses serialise to a few dozen bytes; the bound keeps the
/// duplicate-detection hash of an escrow within the host's hashing budget.
pub const MAX_ADDRESS_XDR_LEN: usize = 1024;

/// An account or contract address, held as its canonical XDR serialisation.
///
/// Two addresses are the same exactly when their serialisations are equal.
#[derive(Clone, Debug, PartialEq, Eq)]
pub struct Address {
    pub xdr: Vec<u8>,
}

impl View for Address {
    type V = Seq<u8>;

    open spec fn view(&self) -> Seq<u8> {
        self.xdr@
    }
}

impl DeepView for Address {
    type V = Seq<u8>;

    open spec fn deep_view(&self) -> Seq<u8> {
        self.xdr@
    }
}

/// Byte-wise equality of two byte strings.
pub fn bytes_eq(a: &Vec<u8>, b: &Vec<u8>) -> (r: bool)
    ensures
        r == (a@ == b@),
{
    if a.len() != b.len() {
        return false;
    }
    let mut i: usize = 0;
    while i < a.len()
        invariant
            a.len() == b.len(),
            i <= a.len(),
            forall|j: int| 0 <= j < i ==> a@[j] == b@[j],
        decreases a.len() - i,
    {
        if a[i] != b[i] {
            return false;
        }
        i = i + 1;
    }
    assert(a@ =~= b@);
    true
}

/// A copy of a byte string.
pub fn copy_bytes(b: &Vec<u8>) -> (r: Vec<u8>)
    ensures
        r@ == b@,
{
    b.clone()
}

/// A copy of an optional byte string.
pub fn copy_opt_bytes(b: &Option<Vec<u8>>) -> (r: Option<Vec<u8>>)
    ensures
        r.deep_view() == b.deep_view(),
{
    match b {
        Some(v) => Some(v.clone()),
        None => None,
    }
}

impl Address {
    /// Whether two addresses are the same.
    pub fn same(&self, other: &Address) -> (r: bool)
        ensures
            r == (self@ == other@),
    {
        bytes_eq(&self.xdr, &other.xdr)
    }

    /// A copy of the address.
    pub fn duplicate(&self) -> (r: Address)
        ensures
            r@ == self@,
    {
        Address { xdr: self.xdr.clone() }
    }

    /// Whether the serialisation consists of zero bytes only.
    pub open spec fn spec_is_zero(&self) -> bool {
        is_zero_xdr(self@)
    }

    /// Returns whether the serialisation consists of zero bytes only.
    pub fn is_zero(&self) -> (r: bool)
        ensures
            r == self.spec_is_zero(),
    {
        let mut i: usize = 0;
        while i < self.xdr.len()
            invariant
                i <= self.xdr.len(),
                forall|j: int| 0 <= j < i ==> self.xdr@[j] == 0,
            decreases self.xdr.len() - i,
        {
            if self.xdr[i] != 0 {
                return false;
            }
            i = i + 1;
        }
        true
    }
}

/// Whether a serialised address consists of zero bytes only.
pub open spec fn is_zero_xdr(s: Seq<u8>) -> bool {
    forall|i: int| 0 <= i < s.len() ==> s[i] == 0
}

/// A copy of an optional address.
pub fn copy_opt_address(a: &Option<Address>) -> (r: Option<Address>)
    ensures
        r.deep_view() == a.deep_view(),
{
    match a {
        Some(x) => Some(x.duplicate()),
        None => None,
    }
}

/// Lifecycle state of an escrow.
#[derive(Clone, Copy, Debug, PartialEq, Eq, Structural)]
pub enum EscrowStatus {
    Pending,
    Released,
    Refunded,
    Disputed,
}

/// Why a buyer asks for a refund.
#[derive(Clone, Copy, Debug, PartialEq, Eq, Structural)]
pub enum RefundReason {
    ProductNotReceived,
    ProductDefective,
    WrongProduct,
    ChangedMind,
    Other,
}

/// Decision state of a refund request.
#[derive(Clone, Copy, Debug, PartialEq, Eq, Structural)]
pub enum RefundStatus {
    Pending,
    Approved,
    Rejected,
}

/// Who may read an escrow's metadata.
#[derive(Clone, Copy, Debug, PartialEq, Eq, Structural)]
pub enum MetadataVisibility {
    Public,
    Private,
}

impl View for MetadataVisibility {
    type V = MetadataVisibility;

    open spec fn view(&self) -> MetadataVisibility {
        *self
    }
}

/// Mathematical value of an escrow item.
pub struct EscrowItemView {
    pub amount: i128,
    pub released: bool,
    pub description: Option<Seq<u8>>,
}

/// A single item or milestone within an escrow.
#[derive(Clone, Debug, PartialEq, Eq)]
pub struct EscrowItem {
    /// The amount allocated to this item.
    pub amount: i128,
    /// Whether this item has been released.
    pub released: bool,
    /// Optional description, such as a product identifier.
    pub description: Option<Vec<u8>>,
}

impl View for EscrowItem {
    type V = EscrowItemView;

    open spec fn view(&self) -> EscrowItemView {
        EscrowItemView {
            amount: self.amount,
            released: self.released,
            description: self.description.deep_view(),
        }
    }
}

impl DeepView for EscrowItem {
    type V = EscrowItemView;

    open spec fn deep_view(&self) -> EscrowItemView {
        self@
    }
}

impl EscrowItem {
    /// A copy of the item.
    pub fn duplicate(&self) -> (r: EscrowItem)
        ensures
            r@ == self@,
    {
        EscrowItem {
            amount: self.amount,
            released: self.released,
            description: copy_opt_bytes(&self.description),
        }
    }
}

/// A copy of a list of items.
pub fn copy_items(items: &Vec<EscrowItem>) -> (r: Vec<EscrowItem>)
    ensures
        r.deep_view() == items.deep_view(),
{
    let mut out: Vec<EscrowItem> = Vec::new();
    let mut i: usize = 0;
    while i < items.len()
        invariant
            i <= items.len(),
            out@.len() == i,
            forall|j: int| 0 <= j < i ==> out@[j]@ == items@[j]@,
        decreases items.len() - i,
    {
        out.push(items[i].duplicate());
        i = i + 1;
    }
    assert(out.deep_view() =~= items.deep_view());
    out
}

/// Mathematical value of an escrow.
pub struct EscrowView {
    pub buyer: Seq<u8>,
    pub seller: Seq<u8>,
    pub token: Seq<u8>,
    pub amount: i128,
    pub status: EscrowStatus,
    pub metadata: Option<Seq<u8>>,
    pub arbiter: Option<Seq<u8>>,
    pub cancellation_proposer: Option<Seq<u8>>,
    pub items: Seq<EscrowItemView>,
    pub created_at: u32,
    pub tracking_id: Option<Seq<u8>>,
    pub funded: bool,
}

/// An escrow between a buyer and a seller, held by the contract.
#[derive(Clone, Debug, PartialEq, Eq)]
pub struct Escrow {
    pub buyer: Address,
    pub seller: Address,
    pub token: Address,
    pub amount: i128,
    pub status: EscrowStatus,
    pub metadata: Option<Vec<u8>>,
    pub arbiter: Option<Address>,
    /// Party that proposed mutual cancellation, if any.
    pub cancellation_proposer: Option<Address>,
    /// Items within the escrow; when empty the escrow is released as a whole.
    pub items: Vec<EscrowItem>,
    /// Ledger sequence number at which the escrow was created.
    pub created_at: u32,
    /// Optional shipment tracking identifier, checked by the oracle.
    pub tracking_id: Option<Vec<u8>>,
    /// Whether the escrow amount has been paid into the contract.
    pub funded: bool,
}

/// The parties and metadata of an escrow are within the bounds under which
/// its duplicate-detection hash can be computed.
pub open spec fn escrow_hashable(e: EscrowView) -> bool {
    &&& e.buyer.len() <= MAX_ADDRESS_XDR_LEN
    &&& e.seller.len() <= MAX_ADDRESS_XDR_LEN
    &&& e.metadata is Some ==> e.metadata.unwrap().len() <= MAX_METADATA_SIZE
}

impl View for Escrow {
    type V = EscrowView;

    open spec fn view(&self) -> EscrowView {
        EscrowView {
            buyer: self.buyer@,
            seller: self.seller@,
            token: self.token@,
            amount: self.amount,
            status: self.status,
            metadata: self.metadata.deep_view(),
            arbiter: self.arbiter.deep_view(),
            cancellation_proposer: self.cancellation_proposer.deep_view(),
            items: self.items.deep_view(),
            created_at: self.created_at,
            tracking_id: self.tracking_id.deep_view(),
            funded: self.funded,
        }
    }
}

impl DeepView for Escrow {
    type V = EscrowView;

    open spec fn deep_view(&self) -> EscrowView {
        self@
    }
}

impl Escrow {
    /// A copy of the escrow.
    pub fn duplicate(&self) -> (r: Escrow)
        ensures
            r@ == self@,
    {
        Escrow {
            buyer: self.buyer.duplicate(),
            seller: self.seller.duplicate(),
            token: self.token.duplicate(),
            amount: self.amount,
            status: self.status,
            metadata: copy_opt_bytes(&self.metadata),
            arbiter: copy_opt_address(&self.arbiter),
            cancellation_proposer: copy_opt_address(&self.cancellation_proposer),
            items: copy_items(&self.items),
            created_at: self.created_at,
            tracking_id: copy_opt_bytes(&self.tracking_id),
            funded: self.funded,
        }
    }
}

/// Mathematical value of a refund request.
pub struct RefundRequestView {
    pub request_id: u64,
    pub escrow_id: u64,
    pub requester: Seq<u8>,
    pub amount: i128,
    pub reason: RefundReason,
    pub status: RefundStatus,
    pub created_at: u64,
    pub evidence_hash: Option<Seq<u8>>,
    pub counter_evidence_hash: Option<Seq<u8>>,
}

/// A buyer's request for a refund, which puts the escrow into dispute.
#[derive(Clone, Debug, PartialEq, Eq)]
pub struct RefundRequest {
    pub request_id: u64,
    pub escrow_id: u64,
    pub requester: Address,
    pub amount: i128,
    pub reason: RefundReason,
    pub status: RefundStatus,
    pub created_at: u64,
    pub evidence_hash: Option<Vec<u8>>,
    pub counter_evidence_hash: Option<Vec<u8>>,
}

impl View for RefundRequest {
    type V = RefundRequestView;

    open spec fn view(&self) -> RefundRequestView {
        RefundRequestView {
            request_id: self.request_id,
            escrow_id: self.escrow_id,
            requester: self.requester@,
            amount: self.amount,
            reason: self.reason,
            status: self.status,
            created_at: self.created_at,
            evidence_hash: self.evidence_hash.deep_view(),
            counter_evidence_hash: self.counter_evidence_hash.deep_view(),
        }
    }
}

impl RefundRequest {
    /// A copy of the request.
    pub fn duplicate(&self) -> (r: RefundRequest)
        ensures
            r@ == self@,
    {
        RefundRequest {
            request_id: self.request_id,
            escrow_id: self.escrow_id,
            requester: self.requester.duplicate(),
            amount: self.amount,
            reason: self.reason,
            status: self.status,
            created_at: self.created_at,
            evidence_hash: copy_opt_bytes(&self.evidence_hash),
            counter_evidence_hash: copy_opt_bytes(&self.counter_evidence_hash),
        }
    }
}

/// A completed refund, as recorded in the refund history.
#[derive(Clone, Copy, Debug, PartialEq, Eq, Structural)]
pub struct RefundHistoryEntry {
    pub refund_id: u64,
    pub escrow_id: u64,
    pub amount: i128,
    pub refunded_at: u64,
}

/// One escrow of a bulk creation request; buyer and token are shared.
#[derive(Clone, Debug, PartialEq, Eq)]
pub struct BulkEscrowRequest {
    pub seller: Address,
    pub amount: i128,
    pub metadata: Option<Vec<u8>>,
    pub arbiter: Option<Address>,
    pub items: Option<Vec<EscrowItem>>,
}

/// Milestone for milestone-based releases.
#[derive(Clone, Debug, PartialEq, Eq)]
pub struct Milestone {
    pub description: Vec<u8>,
    pub amount: i128,
    pub completed: bool,
    pub completed_at: Option<u64>,
}

/// Time-lock configuration for automatic release.
#[derive(Clone, Copy, Debug, PartialEq, Eq, Structural)]
pub struct TimeLock {
    /// Ledger sequence number at which funds may be released.
    pub release_ledger: u32,
    /// Whether automatic release is enabled.
    pub enabled: bool,
}

/// One buyer's share in a group purchase.
#[derive(Clone, Debug, PartialEq, Eq)]
pub struct BuyerContribution {
    pub buyer: Address,
    pub amount: i128,
    pub funded: bool,
}

/// Group purchase configuration for escrows with several buyers.
#[derive(Clone, Debug, PartialEq, Eq)]
pub struct GroupBuy {
    pub buyers: Vec<BuyerContribution>,
    pub target_amount: i128,
    pub funded_amount: i128,
    pub funding_deadline: u32,
}

} // verus!
