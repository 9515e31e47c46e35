use cosmwasm_std::{from_json, to_json_vec};
use group_member_approval::types::error::ContractError;
use group_member_approval::types::provenance::{
    Attribute, AttributeType, PageRequest, PageResponse, QueryAttributesResponse,
};
use group_member_approval::util::prov_helpers::{
    build_page_request, get_all_attributes, get_group_id_attribute_values,
    get_group_id_attribute_values_paginated, keep_group_id, msg_bind_name, PAGE_LIMIT,
};

const DEFAULT_CONTRACT_ATTRIBUTE: &str = "approval.group.pb";
const DEFAULT_GROUP_MEMBER: &str = "group-member";

/// Answers a request for a page as a chain that holds the given pages would, where the key of
/// a page is the json text of its index.
fn mock_paged_attributes(
    account: &str,
    pages: &Vec<Vec<Attribute>>,
    request: Option<PageRequest>,
) -> QueryAttributesResponse {
    let idx = match request {
        None => 0,
        Some(PageRequest { key, .. }) => {
            if key.len() == 0 {
                0
            } else {
                from_json(key).unwrap_or(0)
            }
        }
    };
    let page = pages.get(idx).expect(&format!(
        "Expected to be able to fetch page {} of attributes",
        idx
    ));
    QueryAttributesResponse {
        account: account.into(),
        attributes: page.to_vec(),
        pagination: if idx < pages.len() - 1 {
            Some(PageResponse {
                next_key: Some(
                    to_json_vec::<usize>(&(idx + 1))
                        .expect("Failed to serialize pagination index to vector"),
                ),
                total: pages.iter().fold(0, |acc, attrs| acc + attrs.len() as u64),
            })
        } else {
            None
        },
    }
}

/// Fetches all pages from the mocked chain, one step at a time.
fn fetch_all_attributes(
    account: &str,
    pages: &Vec<Vec<Attribute>>,
) -> Vec<QueryAttributesResponse> {
    let mut results = vec![];
    let mut pagination = build_page_request(vec![]);
    let mut fetches = 0;
    while let Some(request) = pagination {
        fetches += 1;
        assert!(fetches <= pages.len(), "more pages were asked for than there are");
        let res = mock_paged_attributes(account, pages, Some(request));
        pagination = get_all_attributes(&mut results, res);
    }
    results
}

#[test]
fn get_all_attributes_paginates_properly() {
    let address = "someaddress";
    let pages = vec![
        vec![Attribute {
            name: DEFAULT_CONTRACT_ATTRIBUTE.into(),
            value: to_json_vec(&1u64).unwrap(),
            attribute_type: AttributeType::Int,
            address: DEFAULT_GROUP_MEMBER.into(),
            expiration_date: None,
        }],
        vec![Attribute {
            name: DEFAULT_CONTRACT_ATTRIBUTE.into(),
            value: to_json_vec(&2u64).unwrap(),
            attribute_type: AttributeType::Int,
            address: DEFAULT_GROUP_MEMBER.into(),
            expiration_date: None,
        }],
    ];
    let all_attributes = fetch_all_attributes(address, &pages);
    assert_eq!(
        2,
        all_attributes.len(),
        "expected two pages for all attributes"
    );
    let mut attribute_values = all_attributes
        .iter()
        .flat_map(|attrs| attrs.attributes.to_owned())
        .map(|attr| from_json::<u64>(attr.value).expect("Failed to parse value to integer"))
        .collect::<Vec<_>>();
    attribute_values.sort();
    assert_eq!(
        vec![1u64, 2u64],
        attribute_values,
        "Expected all attributes to be present"
    )
}

#[test]
fn test_get_group_id_attribute_values_no_attributes() {
    let attributes = QueryAttributesResponse {
        account: "whatever".to_string(),
        attributes: vec![],
        pagination: None,
    };
    let resulting_values = get_group_id_attribute_values(&attributes, "some name");
    assert!(
        resulting_values.is_empty(),
        "no values should be derived from empty attributes, but got: {:?}",
        resulting_values,
    );
}

#[test]
fn test_get_group_id_attribute_values_single_matching_attribute() {
    let attributes = QueryAttributesResponse {
        account: "whatever".to_string(),
        attributes: vec![Attribute {
            name: "idk".to_string(),
            value: get_json_vector_int(10),
            attribute_type: AttributeType::Int,
            address: "something".to_string(),
            expiration_date: None,
        }],
        pagination: None,
    };
    let resulting_values = get_group_id_attribute_values(&attributes, "idk");
    assert_eq!(
        1,
        resulting_values.len(),
        "expected a single result to be derived, but got: {:?}",
        resulting_values,
    );
    assert_eq!(
        10,
        *resulting_values.first().unwrap(),
        "the single value in the resulting values should be correctly derived",
    );
}

#[test]
fn test_get_group_id_attribute_values_multiple_matching_attributes() {
    let attributes = QueryAttributesResponse {
        account: "whatever".to_string(),
        attributes: vec![
            Attribute {
                name: "name".to_string(),
                value: get_json_vector_int(5),
                attribute_type: AttributeType::Int,
                address: "something".to_string(),
                expiration_date: None,
            },
            Attribute {
                name: "name".to_string(),
                value: get_json_vector_int(12),
                attribute_type: AttributeType::Int,
                address: "something".to_string(),
                expiration_date: None,
            },
            Attribute {
                name: "name".to_string(),
                value: get_json_vector_int(17),
                attribute_type: AttributeType::Int,
                address: "something".to_string(),
                expiration_date: None,
            },
        ],
        pagination: None,
    };
    let resulting_values = get_group_id_attribute_values(&attributes, "name");
    assert_eq!(
        3,
        resulting_values.len(),
        "expected three results to be derived, but got: {:?}",
        resulting_values,
    );
    assert_eq!(
        5, resulting_values[0],
        "the first value should be correctly derived",
    );
    assert_eq!(
        12, resulting_values[1],
        "the second value should be correctly derived",
    );
    assert_eq!(
        17, resulting_values[2],
        "the third value should be correctly derived",
    );
}

#[test]
fn test_get_group_id_attribute_values_all_mismatches() {
    let attributes = QueryAttributesResponse {
        account: "whatever".to_string(),
        attributes: vec![
            // Mismatched because it is a different name than the expected one
            Attribute {
                name: "somename".to_string(),
                value: get_json_vector_int(5),
                attribute_type: AttributeType::Int,
                address: "something".to_string(),
                expiration_date: None,
            },
            // Mismatched because the serialized value is not an int
            Attribute {
                name: "targetname".to_string(),
                value: to_json_vec("not an int")
                    .expect("string should serialize to binary successfully"),
                attribute_type: AttributeType::Int,
                address: "something".to_string(),
                expiration_date: None,
            },
            // Mismatched because the value type qualifier is set incorrectly
            Attribute {
                name: "targetname".to_string(),
                value: get_json_vector_int(11),
                attribute_type: AttributeType::String,
                address: "something".to_string(),
                expiration_date: None,
            },
        ],
        pagination: None,
    };
    let resulting_values = get_group_id_attribute_values(&attributes, "targetname");
    assert!(
        resulting_values.is_empty(),
        "no values should be derived when no proper attribute values are set, but got: {:?}",
        resulting_values,
    );
}

#[test]
fn test_get_group_id_attribute_values_some_matches_some_mismatches() {
    let attributes = QueryAttributesResponse {
        account: "whatever".to_string(),
        attributes: vec![
            // Mismatch on name
            Attribute {
                name: "othername".to_string(),
                value: get_json_vector_int(1),
                attribute_type: AttributeType::Int,
                address: "something".to_string(),
                expiration_date: None,
            },
            // Match 1
            Attribute {
                name: "targetname".to_string(),
                value: get_json_vector_int(2),
                attribute_type: AttributeType::Int,
                address: "something".to_string(),
                expiration_date: None,
            },
            // Mismatch on value type
            Attribute {
                name: "targetname".to_string(),
                value: get_json_vector_int(3),
                attribute_type: AttributeType::Json,
                address: "something".to_string(),
                expiration_date: None,
            },
            // Match 2
            Attribute {
                name: "targetname".to_string(),
                value: get_json_vector_int(4),
                attribute_type: AttributeType::Int,
                address: "something".to_string(),
                expiration_date: None,
            },
        ],
        pagination: None,
    };
    let resulting_values = get_group_id_attribute_values(&attributes, "targetname");
    assert_eq!(
        2,
        resulting_values.len(),
        "the resulting vector should contain two values, but got: {:?}",
        resulting_values,
    );
    assert_eq!(
        2, resulting_values[0],
        "the first value should be correctly defined",
    );
    assert_eq!(
        4, resulting_values[1],
        "the second value should be correctly defined",
    );
}

#[test]
fn msg_bind_name_creates_proper_binding_with_fully_qualified_name() {
    let name = "test.name.bro";
    let address = "some-address";
    let msg = msg_bind_name(name, address, true).expect("valid input should not yield an error");
    let parent = msg.parent.expect("the result should include a parent msg");
    assert_eq!(
        "name.bro", parent.name,
        "parent name should be properly derived",
    );
    assert_eq!(
        address, parent.address,
        "parent address value should be set as the bind address because that's what enables binds to unrestricted parent addresses",
    );
    assert!(
        !parent.restricted,
        "parent restricted should always be false",
    );
    let bind = msg.record.expect("the result should include a name record");
    assert_eq!(
        "test", bind.name,
        "the bound name should be properly derived",
    );
    assert_eq!(
        address, bind.address,
        "the bound name should have the specified address",
    );
    assert!(
        bind.restricted,
        "the restricted value should equate to the value specified",
    );
}

#[test]
fn msg_bind_name_creates_proper_binding_with_single_node_name() {
    let name = "name";
    let address = "address";
    let msg = msg_bind_name(name, address, false)
        .expect("proper input should produce a success result");
    assert!(
        msg.parent.is_none(),
        "the parent record should not be set because the name bind does not require it",
    );
    let bind = msg.record.expect("the result should include a name record");
    assert_eq!(
        "name", bind.name,
        "the bound name should be properly derived",
    );
    assert_eq!(
        address, bind.address,
        "the bound name should have the specified address",
    );
    assert!(
        !bind.restricted,
        "the restricted value should equate to the value specified",
    );
}

#[test]
fn msg_bind_name_should_properly_guard_against_bad_input() {
    let _expected_error_message = "cannot derive bind name from input []".to_string();
    assert!(
        matches!(
            msg_bind_name("", "address", true)
                .expect_err("an error should occur when no name is specified"),
            ContractError::InvalidFormatError {
                message: _expected_error_message,
            },
        ),
        "unexpected error message when specifying an empty name",
    );
    let _expected_error_message = "cannot bind to an empty name string [.suffix]".to_string();
    assert!(
        matches!(
            msg_bind_name(".suffix", "address", true)
                .expect_err("an error should occur when specifying a malformed name"),
            ContractError::InvalidFormatError {
                message: _expected_error_message,
            },
        ),
        "unexpected error message when specifying a malformed name",
    );
}

fn get_json_vector_int(value: u64) -> Vec<u8> {
    to_json_vec(&value).expect(&format!(
        "Expected value [{value}] to be properly converted to binary",
    ))
}

fn int_attribute(name: &str, value: &[u8]) -> Attribute {
    Attribute {
        name: name.to_string(),
        value: value.to_vec(),
        attribute_type: AttributeType::Int,
        address: "something".to_string(),
        expiration_date: None,
    }
}

#[test]
fn msg_bind_name_says_what_is_wrong_with_a_name() {
    match msg_bind_name(".suffix", "address", true) {
        Err(ContractError::InvalidFormatError { message }) => {
            assert_eq!("cannot bind to an empty name string [.suffix]", message);
        }
        other => panic!("unexpected result: {:?}", other),
    }
    match msg_bind_name("", "address", false) {
        Err(ContractError::InvalidFormatError { message }) => {
            assert_eq!("cannot bind to an empty name string []", message);
        }
        other => panic!("unexpected result: {:?}", other),
    }
}

#[test]
fn msg_bind_name_splits_at_the_first_dot_only() {
    let msg = msg_bind_name("a..b.", "address", true).expect("the name has a first label");
    assert_eq!("a", msg.record.expect("a record is always there").name);
    let parent = msg.parent.expect("a name with a dot has a parent");
    assert_eq!(".b.", parent.name);
    let msg = msg_bind_name("trailing.", "address", true).expect("the name has a first label");
    assert_eq!("trailing", msg.record.expect("a record is always there").name);
    assert_eq!("", msg.parent.expect("a name with a dot has a parent").name);
    let msg = msg_bind_name("ünï.cödé", "address", true).expect("the name has a first label");
    assert_eq!("ünï", msg.record.expect("a record is always there").name);
    assert_eq!("cödé", msg.parent.expect("a name with a dot has a parent").name);
}

#[test]
fn group_ids_keep_the_order_of_pages_and_attributes() {
    let page = |values: &[u64]| QueryAttributesResponse {
        account: "whatever".to_string(),
        attributes: values
            .iter()
            .map(|v| int_attribute("name", &get_json_vector_int(*v)))
            .collect(),
        pagination: None,
    };
    let pages = vec![page(&[9, 3]), page(&[]), page(&[3, 18446744073709551615, 0])];
    assert_eq!(
        vec![9, 3, 3, 18446744073709551615, 0],
        get_group_id_attribute_values_paginated(pages, "name"),
    );
    assert!(get_group_id_attribute_values_paginated(vec![], "name").is_empty());
}

#[test]
fn values_that_are_no_json_number_are_passed_over() {
    let attributes = QueryAttributesResponse {
        account: "whatever".to_string(),
        attributes: vec![
            int_attribute("name", b""),
            int_attribute("name", b"-1"),
            int_attribute("name", b"1.5"),
            int_attribute("name", b"\"7\""),
            int_attribute("name", b"18446744073709551616"),
            int_attribute("name", b"01"),
            int_attribute("name", b"1 2"),
            int_attribute("name", b" 21\n"),
            int_attribute("Name", b"22"),
            int_attribute("name ", b"23"),
            int_attribute("name", b"24"),
        ],
        pagination: None,
    };
    assert_eq!(vec![21, 24], get_group_id_attribute_values(&attributes, "name"));
}

#[test]
fn keep_group_id_keeps_only_what_states_a_group_id() {
    let name = "name".to_string();
    let mut values = vec![1];
    keep_group_id(&mut values, &int_attribute("name", b"2"), &name, Some(2));
    assert_eq!(vec![1, 2], values);
    keep_group_id(&mut values, &int_attribute("name", b"x"), &name, None);
    assert_eq!(vec![1, 2], values);
    keep_group_id(&mut values, &int_attribute("other", b"3"), &name, Some(3));
    assert_eq!(vec![1, 2], values);
    let mut text = int_attribute("name", b"4");
    text.attribute_type = AttributeType::Bytes;
    keep_group_id(&mut values, &text, &name, Some(4));
    assert_eq!(vec![1, 2], values);
    keep_group_id(&mut values, &int_attribute("name", b"2"), &name, Some(2));
    assert_eq!(vec![1, 2, 2], values);
}

#[test]
fn build_page_request_asks_for_a_hundred_in_ascending_order() {
    assert_eq!(100, PAGE_LIMIT);
    assert_eq!(
        Some(PageRequest {
            key: vec![1, 2, 3],
            offset: 0,
            limit: 100,
            count_total: false,
            reverse: false,
        }),
        build_page_request(vec![1, 2, 3]),
    );
}

#[test]
fn paging_stops_at_an_absent_or_empty_next_key() {
    let page = |pagination: Option<PageResponse>| QueryAttributesResponse {
        account: "whatever".to_string(),
        attributes: vec![],
        pagination,
    };
    let mut results = vec![];
    assert_eq!(None, get_all_attributes(&mut results, page(None)));
    assert_eq!(
        None,
        get_all_attributes(&mut results, page(Some(PageResponse { next_key: None, total: 5 }))),
    );
    assert_eq!(
        None,
        get_all_attributes(
            &mut results,
            page(Some(PageResponse { next_key: Some(vec![]), total: 5 })),
        ),
    );
    assert_eq!(
        build_page_request(vec![7]),
        get_all_attributes(
            &mut results,
            page(Some(PageResponse { next_key: Some(vec![7]), total: 5 })),
        ),
    );
    assert_eq!(4, results.len());
    assert_eq!(Some(PageResponse { next_key: Some(vec![7]), total: 5 }), results[3].pagination);
}

#[test]
fn fetching_walks_every_page_once_and_in_order() {
    let pages: Vec<Vec<Attribute>> = (0..5u64)
        .map(|v| vec![int_attribute("name", &get_json_vector_int(v))])
        .collect();
    let all_attributes = fetch_all_attributes("someaddress", &pages);
    assert_eq!(5, all_attributes.len());
    assert_eq!(
        vec![0, 1, 2, 3, 4],
        get_group_id_attribute_values_paginated(all_attributes, "name"),
    );
}
