use crate::types::error::ContractError;
use crate::types::provenance::{
    Attribute, AttributeType, AttributeView, MsgBindNameRequest, MsgBindNameRequestView,
    NameRecord, NameRecordView, PageRequest, PageRequestView, PageResponse,
    QueryAttributesResponse,
};
use crate::util::json::{from_json_u64, json_u64};
use vstd::prelude::*;
use vstd::string::{StrSliceExecFns, StringExecFns};

verus! {

/// Whether an attribute is one that states a group id: it bears the given name, letter for
/// letter, and its value is of the integer kind.
pub open spec fn is_group_id_attribute(attribute: AttributeView, name: Seq<char>) -> bool {
    attribute.name == name && attribute.attribute_type == AttributeType::Int
}

/// The group ids that one page of attributes states under a name, in the order of the
/// attributes.  An attribute adds a number where it bears the name and is of the integer kind,
/// and its value reads as the JSON text of that number.  Any other attribute adds nothing.
pub open spec fn page_group_ids(attributes: Seq<Attribute>, name: Seq<char>) -> Seq<u64>
    decreases attributes.len(),
{
    if attributes.len() == 0 {
        seq![]
    } else {
        let front = page_group_ids(attributes.drop_last(), name);
        match json_u64(attributes.last().value@) {
            Some(group_id) if is_group_id_attribute(attributes.last()@, name) => front.push(
                group_id,
            ),
            _ => front,
        }
    }
}

/// The group ids that pages of attributes state under a name: those of the first page, then
/// those of the second, and so on.
pub open spec fn group_ids(pages: Seq<QueryAttributesResponse>, name: Seq<char>) -> Seq<u64>
    decreases pages.len(),
{
    if pages.len() == 0 {
        seq![]
    } else {
        group_ids(pages.drop_last(), name) + page_group_ids(pages.last().attributes@, name)
    }
}

/// Whether an attribute states a given group id under a name: it bears the name, is of the
/// integer kind, and its value reads as that number.
pub open spec fn states_group_id(attribute: Attribute, name: Seq<char>, group_id: u64) -> bool {
    is_group_id_attribute(attribute@, name) && json_u64(attribute.value@) == Some(group_id)
}

/// A number is among the group ids of a page exactly where an attribute of the page states it:
/// an attribute of another name or of another kind adds nothing, whatever its value holds, and
/// neither does one whose value is no number.
pub proof fn lemma_page_group_ids(attributes: Seq<Attribute>, name: Seq<char>, group_id: u64)
    ensures
        page_group_ids(attributes, name).contains(group_id) <==> exists|i: int|
            0 <= i < attributes.len() && states_group_id(#[trigger] attributes[i], name, group_id),
    decreases attributes.len(),
{
    if attributes.len() > 0 {
        let front = attributes.drop_last();
        let last = attributes.last();
        lemma_page_group_ids(front, name, group_id);
        let front_ids = page_group_ids(front, name);
        if page_group_ids(attributes, name).contains(group_id) {
            if front_ids.contains(group_id) {
                let i = choose|i: int|
                    0 <= i < front.len() && states_group_id(#[trigger] front[i], name, group_id);
                assert(states_group_id(attributes[i], name, group_id));
            } else {
                let ids = page_group_ids(attributes, name);
                let k = choose|k: int| 0 <= k < ids.len() && ids[k] == group_id;
                assert(ids != front_ids);
                assert(ids == front_ids.push(json_u64(last.value@).unwrap()));
                if k < front_ids.len() {
                    assert(front_ids[k] == group_id);
                }
                assert(states_group_id(attributes[attributes.len() - 1], name, group_id));
            }
        }
        if exists|i: int|
            0 <= i < attributes.len() && states_group_id(#[trigger] attributes[i], name, group_id) {
            let i = choose|i: int|
                0 <= i < attributes.len() && states_group_id(
                    #[trigger] attributes[i],
                    name,
                    group_id,
                );
            if i < front.len() {
                assert(states_group_id(front[i], name, group_id));
                assert(front_ids.contains(group_id));
                let k = choose|k: int| 0 <= k < front_ids.len() && front_ids[k] == group_id;
                assert(page_group_ids(attributes, name)[k] == group_id);
            } else {
                let ids = page_group_ids(attributes, name);
                assert(ids == front_ids.push(group_id));
                assert(ids[ids.len() - 1] == group_id);
            }
        }
    }
}

/// A number is among the group ids of a run of pages exactly where an attribute of one of the
/// pages states it.
pub proof fn lemma_group_ids(pages: Seq<QueryAttributesResponse>, name: Seq<char>, group_id: u64)
    ensures
        group_ids(pages, name).contains(group_id) <==> exists|p: int, i: int|
            0 <= p < pages.len() && 0 <= i < pages[p].attributes@.len() && states_group_id(
                #[trigger] pages[p].attributes@[i],
                name,
                group_id,
            ),
    decreases pages.len(),
{
    if pages.len() > 0 {
        let front = pages.drop_last();
        let last = pages.last().attributes@;
        lemma_group_ids(front, name, group_id);
        lemma_page_group_ids(last, name, group_id);
        let front_ids = group_ids(front, name);
        let last_ids = page_group_ids(last, name);
        let ids = group_ids(pages, name);
        assert(ids == front_ids + last_ids);
        if ids.contains(group_id) {
            let k = choose|k: int| 0 <= k < ids.len() && ids[k] == group_id;
            if k < front_ids.len() {
                assert(front_ids[k] == group_id);
                let (p, i) = choose|p: int, i: int|
                    0 <= p < front.len() && 0 <= i < front[p].attributes@.len()
                        && states_group_id(#[trigger] front[p].attributes@[i], name, group_id);
                assert(states_group_id(pages[p].attributes@[i], name, group_id));
            } else {
                assert(last_ids[k - front_ids.len()] == group_id);
                let i = choose|i: int|
                    0 <= i < last.len() && states_group_id(#[trigger] last[i], name, group_id);
                assert(states_group_id(pages[pages.len() - 1].attributes@[i], name, group_id));
            }
        }
        if exists|p: int, i: int|
            0 <= p < pages.len() && 0 <= i < pages[p].attributes@.len() && states_group_id(
                #[trigger] pages[p].attributes@[i],
                name,
                group_id,
            ) {
            let (p, i) = choose|p: int, i: int|
                0 <= p < pages.len() && 0 <= i < pages[p].attributes@.len() && states_group_id(
                    #[trigger] pages[p].attributes@[i],
                    name,
                    group_id,
                );
            if p < front.len() {
                assert(states_group_id(front[p].attributes@[i], name, group_id));
                let k = choose|k: int| 0 <= k < front_ids.len() && front_ids[k] == group_id;
                assert(ids[k] == group_id);
            } else {
                assert(states_group_id(last[i], name, group_id));
                let k = choose|k: int| 0 <= k < last_ids.len() && last_ids[k] == group_id;
                assert(ids[front_ids.len() + k] == group_id);
            }
        }
    }
}

/// Adds the number that an attribute's value was read as to the group ids found so far, where
/// the attribute states a group id under the given name and its value could be read.  An
/// attribute of another name or kind, or with a value that is no number, is passed over.
///
/// # Parameters
///
/// * `values` The group ids found so far.
/// * `attribute` The attribute at hand.
/// * `name` The name that group ids are stated under.
/// * `decoded` What the attribute's value was read as, if it could be read.
pub fn keep_group_id(
    values: &mut Vec<u64>,
    attribute: &Attribute,
    name: &String,
    decoded: Option<u64>,
)
    ensures
        final(values)@ == match decoded {
            Some(group_id) if is_group_id_attribute(attribute@, name@) => old(values)@.push(
                group_id,
            ),
            _ => old(values)@,
        },
{
    if attribute.name == *name && matches!(attribute.attribute_type, AttributeType::Int) {
        if let Some(group_id) = decoded {
            values.push(group_id);
        }
    }
}

/// Reads the value of an attribute as the JSON text of a number.
fn read_group_id(attribute: &Attribute) -> (r: Option<u64>)
    ensures
        r == json_u64(attribute.value@),
{
    match from_json_u64(&attribute.value) {
        Ok(group_id) => Some(group_id),
        Err(_) => None,
    }
}

/// Adds the group ids that one page of attributes states under a name to those found so far.
fn collect_page_group_ids(values: &mut Vec<u64>, attributes: &Vec<Attribute>, name: &String)
    ensures
        final(values)@ == old(values)@ + page_group_ids(attributes@, name@),
{
    let mut i: usize = 0;
    while i < attributes.len()
        invariant
            i <= attributes.len(),
            values@ == old(values)@ + page_group_ids(attributes@.take(i as int), name@),
        decreases attributes.len() - i,
    {
        let attribute = &attributes[i];
        let decoded = read_group_id(attribute);
        proof {
            assert(attributes@.take(i as int + 1).drop_last() =~= attributes@.take(i as int));
        }
        keep_group_id(values, attribute, name, decoded);
        i = i + 1;
    }
    assert(attributes@.take(attributes.len() as int) =~= attributes@);
}

/// Parses all group ids from the pages of attributes provided by filtering for all values that
/// match the given name and have an assigned int value.  A value that is marked as an int and
/// is none is passed over.
///
/// # Parameters
///
/// * `attributes` Pages of attributes fetched via a chain query.
/// * `name` The name used to write the attribute.
pub fn get_group_id_attribute_values_paginated(
    attributes: Vec<QueryAttributesResponse>,
    name: &str,
) -> (r: Vec<u64>)
    ensures
        r@ == group_ids(attributes@, name@),
{
    let name = String::from_str(name);
    let mut values: Vec<u64> = Vec::new();
    let mut i: usize = 0;
    while i < attributes.len()
        invariant
            i <= attributes.len(),
            values@ == group_ids(attributes@.take(i as int), name@),
        decreases attributes.len() - i,
    {
        proof {
            assert(attributes@.take(i as int + 1).drop_last() =~= attributes@.take(i as int));
        }
        collect_page_group_ids(&mut values, &attributes[i].attributes, &name);
        i = i + 1;
    }
    assert(attributes@.take(attributes.len() as int) =~= attributes@);
    values
}

/// Parses all group ids from the attributes provided by filtering for all values that match the
/// given name and have an assigned int value.
///
/// # Parameters
///
/// * `attributes` Attributes fetched via a chain query.
/// * `name` The name used to write the attribute.
pub fn get_group_id_attribute_values(attributes: &QueryAttributesResponse, name: &str) -> (r: Vec<
    u64,
>)
    ensures
        r@ == page_group_ids(attributes.attributes@, name@),
        r@ == group_ids(seq![*attributes], name@),
{
    let name = String::from_str(name);
    let mut values: Vec<u64> = Vec::new();
    collect_page_group_ids(&mut values, &attributes.attributes, &name);
    proof {
        let pages = seq![*attributes];
        assert(pages.drop_last() =~= Seq::<QueryAttributesResponse>::empty());
        assert(group_ids(pages.drop_last(), name@) =~= seq![]);
        assert(values@ =~= page_group_ids(attributes.attributes@, name@));
    }
    values
}

/// The number of characters that stand in front of the first dot of a name, which is the whole
/// length of a name without a dot.
pub open spec fn label_len(name: Seq<char>) -> nat
    decreases name.len(),
{
    if name.len() == 0 || name[0] == '.' {
        0
    } else {
        1 + label_len(name.skip(1))
    }
}

/// The request that binds the first label of a dot-qualified name to an address: the record
/// holds the label, and the parent, where the name goes on behind a dot, holds the rest of the
/// name, bound to the same address and never restricted.
pub open spec fn bind_name_request(
    name: Seq<char>,
    address: Seq<char>,
    restricted: bool,
) -> MsgBindNameRequestView {
    let n = label_len(name) as int;
    MsgBindNameRequestView {
        parent: if n < name.len() {
            Some(NameRecordView { name: name.skip(n + 1), address, restricted: false })
        } else {
            None
        },
        record: Some(NameRecordView { name: name.take(n), address, restricted }),
    }
}

/// The message of the error that a name without a first label is refused with.
pub open spec fn empty_label_message(name: Seq<char>) -> Seq<char> {
    "cannot bind to an empty name string ["@ + name + "]"@
}

/// A position up to which a name holds no dot, and at which it ends or holds one, is the length
/// of the name's first label.
proof fn lemma_label_len(name: Seq<char>, i: int)
    requires
        0 <= i <= name.len(),
        forall|j: int| 0 <= j < i ==> name[j] != '.',
        i == name.len() || name[i] == '.',
    ensures
        label_len(name) == i,
    decreases i,
{
    if i > 0 {
        let rest = name.skip(1);
        assert forall|j: int| 0 <= j < i - 1 implies rest[j] != '.' by {
            assert(rest[j] == name[j + 1]);
        }
        lemma_label_len(rest, i - 1);
    }
}

/// Generates a name bind msg that will properly assign the given name value to a target address.
/// Assumes the parent name is unrestricted or that the contract has access to bind a name to the
/// parent name.
///
/// # Parameters
/// * `name` The dot-qualified name to use on-chain for name binding. Ex: myname.sc.pb will generate
/// a msg that binds "myname" to the existing parent name "sc.pb".
/// * `bind_to_address` The bech32 address to which the name will be bound.
/// * `restricted` If true, the name will be bound as a restricted name, preventing future name
/// bindings from using it as a parent name.
pub fn msg_bind_name(name: &str, bind_to_address: &str, restricted: bool) -> (r: Result<
    MsgBindNameRequest,
    ContractError,
>)
    ensures
        label_len(name@) == 0 ==> (r matches Err(ContractError::InvalidFormatError { message })
            && message@ == empty_label_message(name@)),
        label_len(name@) > 0 ==> (r matches Ok(msg) && msg@ == bind_name_request(
            name@,
            bind_to_address@,
            restricted,
        )),
{
    let len = name.unicode_len();
    let mut i: usize = 0;
    while i < len && name.get_char(i) != '.'
        invariant
            i <= len,
            len == name@.len(),
            forall|j: int| 0 <= j < i ==> name@[j] != '.',
        decreases len - i,
    {
        i = i + 1;
    }
    proof {
        lemma_label_len(name@, i as int);
    }
    if i == 0 {
        let mut message = String::from_str("cannot bind to an empty name string [");
        message.append(name);
        message.append("]");
        return Err(ContractError::InvalidFormatError { message });
    }
    let bind_record = NameRecord {
        name: String::from_str(name.substring_char(0, i)),
        address: String::from_str(bind_to_address),
        restricted,
    };
    let parent_record = if i < len {
        // The parent record must also use the address being bound to as its address in order for
        // the bind to succeed.
        Some(
            NameRecord {
                name: String::from_str(name.substring_char(i + 1, len)),
                address: String::from_str(bind_to_address),
                restricted: false,
            },
        )
    } else {
        None
    };
    Ok(MsgBindNameRequest { parent: parent_record, record: Some(bind_record) })
}

/// The number of attributes that a single page of a query is asked to hold at most.
pub const PAGE_LIMIT: u64 = 100;

/// The request for the page that starts at a key: in ascending order, without an offset or a
/// count of the total, and of at most [`PAGE_LIMIT`] attributes.
pub open spec fn page_request(key: Seq<u8>) -> PageRequestView {
    PageRequestView { key, offset: 0, limit: PAGE_LIMIT, count_total: false, reverse: false }
}

/// Builds the request for the page of attributes that starts at a key.  An empty key asks for
/// the first page.
pub fn build_page_request(key: Vec<u8>) -> (r: Option<PageRequest>)
    ensures
        r matches Some(request) && request@ == page_request(key@),
{
    Some(PageRequest { key, offset: 0, limit: PAGE_LIMIT, count_total: false, reverse: false })
}

/// The key of the page that comes after a given one, where there is one: the page names a next
/// key, and that key is not empty.
pub open spec fn next_page_key(page: QueryAttributesResponse) -> Option<Seq<u8>> {
    match page.pagination {
        Some(PageResponse { next_key: Some(key), .. }) if key@.len() > 0 => Some(key@),
        _ => None,
    }
}

/// One step of fetching all attributes of an address, page by page.  The caller asks the chain
/// for a page, starting with the request that [`build_page_request`] gives for an empty key,
/// and hands each page that the chain returns to this function, which puts it behind the
/// pages fetched so far and answers with the request for the page after it.  It answers with
/// `None` when the page was the last one, that is, when it names no next key or an empty one:
/// the caller then stops.  A caller whose fetch fails drops what was fetched so far.
///
/// # Parameters
/// * `results` The pages fetched so far, in the order in which they were fetched.
/// * `res` The page that the chain has just returned.
pub fn get_all_attributes(results: &mut Vec<QueryAttributesResponse>, res: QueryAttributesResponse) -> (r:
    Option<PageRequest>)
    ensures
        final(results)@ == old(results)@.push(res),
        match next_page_key(res) {
            Some(key) => r matches Some(request) && request@ == page_request(key),
            None => r is None,
        },
{
    let pagination = match &res.pagination {
        Some(PageResponse { next_key: Some(key), .. }) => {
            if key.len() > 0 {
                build_page_request(key.clone())
            } else {
                None
            }
        },
        Some(PageResponse { next_key: None, .. }) => None,
        None => None,
    };
    results.push(res);
    pagination
}

} // verus!
