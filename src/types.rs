use vstd::prelude::*;

verus! {

/// What a metadata part describes.
#[derive(Clone, Copy, Debug, PartialEq, Eq, Structural)]
pub enum MetadataPurpose {
    Preview,
    Rendered,
}

/// A typed metadata value: exactly the six kinds the mint call understands
/// (text, bytes and unsigned integers of several widths).
#[derive(Debug)]
pub enum MetadataVal {
    TextContent(String),
    BlobContent(Vec<u8>),
    NatContent(u128),
    Nat8Content(u8),
    Nat16Content(u16),
    Nat32Content(u32),
    Nat64Content(u64),
}

/// The mathematical value of a [`MetadataVal`].
pub ghost enum MetadataValue {
    Text(Seq<char>),
    Blob(Seq<u8>),
    Nat(u128),
    Nat8(u8),
    Nat16(u16),
    Nat32(u32),
    Nat64(u64),
}

impl View for MetadataVal {
    type V = MetadataValue;

    open spec fn view(&self) -> MetadataValue {
        match self {
            MetadataVal::TextContent(s) => MetadataValue::Text(s@),
            MetadataVal::BlobContent(b) => MetadataValue::Blob(b@),
            MetadataVal::NatContent(n) => MetadataValue::Nat(*n),
            MetadataVal::Nat8Content(n) => MetadataValue::Nat8(*n),
            MetadataVal::Nat16Content(n) => MetadataValue::Nat16(*n),
            MetadataVal::Nat32Content(n) => MetadataValue::Nat32(*n),
            MetadataVal::Nat64Content(n) => MetadataValue::Nat64(*n),
        }
    }
}

/// The closed set of keys a metadata record may hold.
#[derive(Clone, Copy, Debug, PartialEq, Eq, Structural)]
pub enum MetadataKey {
    LocationType,
    Location,
    ContentHash,
    ContentType,
}

impl MetadataKey {
    /// The key as it is written on the wire.
    pub open spec fn wire_name(self) -> Seq<char> {
        match self {
            MetadataKey::LocationType => "locationType"@,
            MetadataKey::Location => "location"@,
            MetadataKey::ContentHash => "contentHash"@,
            MetadataKey::ContentType => "contentType"@,
        }
    }

    /// The key as it is written on the wire.
    pub fn name(&self) -> (r: &'static str)
        ensures
            r@ == self.wire_name(),
    {
        match self {
            MetadataKey::LocationType => "locationType",
            MetadataKey::Location => "location",
            MetadataKey::ContentHash => "contentHash",
            MetadataKey::ContentType => "contentType",
        }
    }
}

/// One metadata part of a mint call: its purpose, the ordered key-value
/// record, and the content bytes.
pub struct MetadataPart {
    pub purpose: MetadataPurpose,
    pub key_val_data: Vec<(MetadataKey, MetadataVal)>,
    pub data: Vec<u8>,
}

/// The optional interfaces a DIP-721 ledger may declare.
#[derive(Clone, Copy, Debug, PartialEq, Eq, Structural)]
pub enum InterfaceId {
    Approval,
    TransactionHistory,
    Mint,
    Burn,
    TransferNotification,
}

/// Why the ledger declined to mint.
#[derive(Clone, Copy, Debug, PartialEq, Eq, Structural)]
pub enum MintError {
    Unauthorized,
}

impl MintError {
    /// A sentence that explains the denial to a person.
    pub fn message(&self) -> (r: String)
        ensures
            r@ == "You aren't authorized as a custodian of that canister."@,
    {
        match self {
            MintError::Unauthorized => "You aren't authorized as a custodian of that canister.".to_owned(),
        }
    }
}

/// What the ledger returns for a successful mint.
#[derive(Clone, Copy, Debug, PartialEq, Eq, Structural)]
pub struct MintReceipt {
    pub id: u128,
    pub token_id: u64,
}

} // verus!
