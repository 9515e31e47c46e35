use vstd::prelude::*;

verus! {

/// The kind of data that an attribute's value holds.
#[derive(Clone, Copy, Debug, PartialEq, Eq, Structural)]
pub enum AttributeType {
    /// An unknown or invalid kind.
    Unspecified,
    /// The text form of a uuid.
    Uuid,
    /// A byte string that holds json data.
    Json,
    /// A generic text value.
    String,
    /// A uri.
    Uri,
    /// An integer.
    Int,
    /// A floating point number.
    Float,
    /// A serialized proto value.
    Proto,
    /// An untyped array of bytes.
    Bytes,
}

/// A point in time, in seconds and nanoseconds since the unix epoch.
#[derive(Clone, Copy, Debug, PartialEq, Eq, Structural)]
pub struct Timestamp {
    /// Seconds of UTC time since the unix epoch.
    pub seconds: i64,
    /// Fractions of a second at nanosecond resolution.
    pub nanos: i32,
}

/// A typed, named value that is bound to an account.  Attributes are kept by the chain, not by
/// this contract, which only reads them and asks for new ones to be written.
#[derive(Clone, Debug, PartialEq, Eq)]
pub struct Attribute {
    /// The attribute name.
    pub name: String,
    /// The attribute value.
    pub value: Vec<u8>,
    /// The attribute value type.
    pub attribute_type: AttributeType,
    /// The address the attribute is bound to.
    pub address: String,
    /// Time that an attribute will expire.
    pub expiration_date: Option<Timestamp>,
}

/// What an [`Attribute`] holds, as mathematical values.
pub ghost struct AttributeView {
    pub name: Seq<char>,
    pub value: Seq<u8>,
    pub attribute_type: AttributeType,
    pub address: Seq<char>,
    pub expiration_date: Option<Timestamp>,
}

impl View for Attribute {
    type V = AttributeView;

    open spec fn view(&self) -> AttributeView {
        AttributeView {
            name: self.name@,
            value: self.value@,
            attribute_type: self.attribute_type,
            address: self.address@,
            expiration_date: self.expiration_date,
        }
    }
}

/// Says which page of a paged query is asked for.
#[derive(Clone, Debug, PartialEq, Eq)]
pub struct PageRequest {
    /// The key that the previous page gave for the page after it; empty for the first page.
    pub key: Vec<u8>,
    /// A numeric offset, for use where no key is at hand.
    pub offset: u64,
    /// The largest number of items that the page may hold.
    pub limit: u64,
    /// Whether the total number of items is to be counted.
    pub count_total: bool,
    /// Whether the items are walked in descending order.
    pub reverse: bool,
}

/// What a [`PageRequest`] holds, as mathematical values.
pub ghost struct PageRequestView {
    pub key: Seq<u8>,
    pub offset: u64,
    pub limit: u64,
    pub count_total: bool,
    pub reverse: bool,
}

impl View for PageRequest {
    type V = PageRequestView;

    open spec fn view(&self) -> PageRequestView {
        PageRequestView {
            key: self.key@,
            offset: self.offset,
            limit: self.limit,
            count_total: self.count_total,
            reverse: self.reverse,
        }
    }
}

/// Comes with each page of a paged query and says where the next page starts.
#[derive(Clone, Debug, PartialEq, Eq)]
pub struct PageResponse {
    /// The key to ask the next page with.  Absent or empty when there are no more pages.
    pub next_key: Option<Vec<u8>>,
    /// The total number of items, where it was asked for.
    pub total: u64,
}

/// One page of the attributes that are bound to an account.
#[derive(Clone, Debug, PartialEq, Eq)]
pub struct QueryAttributesResponse {
    /// The account that the attributes are bound to.
    pub account: String,
    /// The attributes of this page.
    pub attributes: Vec<Attribute>,
    /// Where the next page starts, if there is one.
    pub pagination: Option<PageResponse>,
}

/// A name together with the address that it is bound to.
#[derive(Clone, Debug, PartialEq, Eq)]
pub struct NameRecord {
    /// The bound name.
    pub name: String,
    /// The address the name resolves to.
    pub address: String,
    /// Whether only the owner of the name may bind names below it.
    pub restricted: bool,
}

/// What a [`NameRecord`] holds, as mathematical values.
pub ghost struct NameRecordView {
    pub name: Seq<char>,
    pub address: Seq<char>,
    pub restricted: bool,
}

impl View for NameRecord {
    type V = NameRecordView;

    open spec fn view(&self) -> NameRecordView {
        NameRecordView { name: self.name@, address: self.address@, restricted: self.restricted }
    }
}

/// Asks the chain to bind a name below a parent name.
#[derive(Clone, Debug, PartialEq, Eq)]
pub struct MsgBindNameRequest {
    /// The parent name under which the new name is bound.
    pub parent: Option<NameRecord>,
    /// The name to bind.
    pub record: Option<NameRecord>,
}

/// What a [`MsgBindNameRequest`] holds, as mathematical values.
pub ghost struct MsgBindNameRequestView {
    pub parent: Option<NameRecordView>,
    pub record: Option<NameRecordView>,
}

impl View for MsgBindNameRequest {
    type V = MsgBindNameRequestView;

    open spec fn view(&self) -> MsgBindNameRequestView {
        MsgBindNameRequestView {
            parent: match self.parent {
                Some(p) => Some(p@),
                None => None,
            },
            record: match self.record {
                Some(r) => Some(r@),
                None => None,
            },
        }
    }
}

/// Asks the chain to write an attribute to an account.
#[derive(Clone, Debug, PartialEq, Eq)]
pub struct MsgAddAttributeRequest {
    /// The attribute name.
    pub name: String,
    /// The attribute value.
    pub value: Vec<u8>,
    /// The attribute value type.
    pub attribute_type: AttributeType,
    /// The account to add the attribute to.
    pub account: String,
    /// The address that owns the name of the attribute.
    pub owner: String,
    /// Time that the attribute will expire.
    pub expiration_date: Option<Timestamp>,
}

/// What a [`MsgAddAttributeRequest`] holds, as mathematical values.
pub ghost struct MsgAddAttributeRequestView {
    pub name: Seq<char>,
    pub value: Seq<u8>,
    pub attribute_type: AttributeType,
    pub account: Seq<char>,
    pub owner: Seq<char>,
    pub expiration_date: Option<Timestamp>,
}

impl View for MsgAddAttributeRequest {
    type V = MsgAddAttributeRequestView;

    open spec fn view(&self) -> MsgAddAttributeRequestView {
        MsgAddAttributeRequestView {
            name: self.name@,
            value: self.value@,
            attribute_type: self.attribute_type,
            account: self.account@,
            owner: self.owner@,
            expiration_date: self.expiration_date,
        }
    }
}

} // verus!
