use diem_accounts::account::Account;
use diem_accounts::address::Address;
use diem_accounts::error::QueryError;
use diem_accounts::event::{event_key_of_bytes, reinterpret_as_event_handle};
use diem_accounts::state::{AccountState, LedgerInfo, Resource, Response};
use diem_accounts::tag::{bytes_equal, Identifier, StructTag, TypeArg};
use diem_accounts::value::{Field, Value};
use move_core_types::account_address::AccountAddress;
use move_core_types::value::{MoveStruct, MoveStructLayout, MoveTypeLayout, MoveValue};

fn name(text: &str) -> Identifier {
    Identifier::new(text).unwrap()
}

fn tag(address: u128, module: &str, struct_name: &str, type_params: Vec<TypeArg>) -> StructTag {
    StructTag { address: Address::new(address), module: name(module), name: name(struct_name), type_params }
}

fn xdx() -> TypeArg {
    TypeArg::Struct(Box::new(tag(1, "XDX", "XDX", vec![])))
}

fn xus() -> TypeArg {
    TypeArg::Struct(Box::new(tag(1, "XUS", "XUS", vec![])))
}

fn balance(currency: TypeArg) -> StructTag {
    tag(1, "DiemAccount", "Balance", vec![currency])
}

fn account_at(version: Option<&str>, address: &str, latest: u64) -> Account {
    Account::new(version, address, LedgerInfo::new(4, latest, 0)).unwrap()
}

fn key_bytes() -> Vec<u8> {
    (100u8..124u8).collect()
}

fn handle_value(count: u64, key: Vec<u8>) -> Value {
    Value::Struct(vec![Value::U64(count), Value::vector_u8(&key)])
}

#[test]
fn identifiers() {
    assert!(Identifier::new("coin").is_some());
    assert!(Identifier::new("_a").is_some());
    assert!(Identifier::new("Balance_2").is_some());
    assert!(Identifier::new("<SELF>").is_some());
    assert!(Identifier::new("").is_none());
    assert!(Identifier::new("_").is_none());
    assert!(Identifier::new("1a").is_none());
    assert!(Identifier::new("a-b").is_none());
    assert!(Identifier::new("é").is_none());
    assert_eq!(name("coin").bytes, b"coin".to_vec());
    assert!(name("coin").equals(&name("coin")));
    assert!(!name("coin").equals(&name("coins")));
    assert!(!name("coin").equals(&name("coim")));
    assert!(name("coin").duplicate().equals(&name("coin")));
    assert!(bytes_equal(&vec![1, 2, 3], &vec![1, 2, 3]));
    assert!(!bytes_equal(&vec![1, 2, 3], &vec![1, 2]));
}

#[test]
fn descriptors_are_compared_part_by_part() {
    assert!(balance(xdx()).equals(&balance(xdx())));
    assert!(!balance(xdx()).equals(&balance(xus())));
    assert!(!balance(xdx()).equals(&tag(1, "DiemAccount", "Balance", vec![])));
    assert!(!balance(xdx()).equals(&tag(1, "DiemAccount", "Balance", vec![xdx(), xdx()])));
    assert!(!balance(xdx()).equals(&tag(2, "DiemAccount", "Balance", vec![xdx()])));
    assert!(!balance(xdx()).equals(&tag(1, "DiemAccounts", "Balance", vec![xdx()])));
    assert!(!balance(xdx()).equals(&tag(1, "DiemAccount", "Balances", vec![xdx()])));
    let nested = |inner: TypeArg| {
        tag(1, "A", "B", vec![TypeArg::U8, TypeArg::Vector(Box::new(TypeArg::Vector(Box::new(inner))))])
    };
    assert!(nested(xdx()).equals(&nested(xdx())));
    assert!(!nested(xdx()).equals(&nested(xus())));
    assert!(!nested(TypeArg::U64).equals(&nested(TypeArg::U128)));
    assert!(nested(xdx()).duplicate().equals(&nested(xdx())));
    assert!(TypeArg::Bool.equals(&TypeArg::Bool));
    assert!(!TypeArg::Bool.equals(&TypeArg::Signer));
    assert!(!TypeArg::Address.equals(&TypeArg::Vector(Box::new(TypeArg::Address))));
    assert!(xdx().duplicate().equals(&xdx()));
}

#[test]
fn account_without_state_is_not_found() {
    let account = account_at(Some("3"), "0xdd", 5);
    match account.account_state(None) {
        Err(e) => {
            assert_eq!(e.status(), 404);
            assert_eq!(e.latest_version(), Some(5));
            match e {
                QueryError::AccountNotFound { address, version, latest } => {
                    assert_eq!(address, Address::new(0xdd));
                    assert_eq!(version, 3);
                    assert_eq!(latest, 5);
                }
                other => panic!("unexpected: {:?}", other),
            }
        }
        Ok(state) => panic!("unexpected: {:?}", state),
    }
    assert_eq!(
        account.account_not_found().message(),
        "account not found by address(0xdd) and ledger version(3)"
    );
    assert_eq!(
        account.resource_not_found(&balance(xdx())).message(),
        "resource not found by address(0xdd), struct tag(0x1::DiemAccount::Balance<0x1::XDX::XDX>) and ledger version(3)"
    );
    assert_eq!(
        account.field_not_found(&balance(xdx()), &name("coin")).message(),
        "resource not found by address(0xdd), struct tag(0x1::DiemAccount::Balance<0x1::XDX::XDX>), field name(coin) and ledger version(3)"
    );
    let state = AccountState { resources: vec![], modules: vec![vec![1]] };
    assert_eq!(account.account_state(Some(state)).unwrap().modules, vec![vec![1u8]]);
}

#[test]
fn balance_of_the_root_account_at_the_latest_version() {
    let account = account_at(None, "0x1", 0);
    let coin_zero = bcs::to_bytes(&MoveValue::Struct(MoveStruct::Runtime(vec![MoveValue::Struct(
        MoveStruct::Runtime(vec![MoveValue::U64(0)]),
    )])))
    .unwrap();
    let state = AccountState {
        resources: vec![
            Resource { tag: balance(xus()), data: vec![9, 0, 0, 0, 0, 0, 0, 0] },
            Resource { tag: balance(xdx()), data: coin_zero.clone() },
        ],
        modules: vec![],
    };
    let state = account.account_state(Some(state)).unwrap();
    let found = account.find_resource(&state, &balance(xdx())).unwrap();
    assert!(found.tag.equals(&balance(xdx())));
    assert_eq!(found.data, vec![0u8; 8]);
    let layout = MoveStructLayout::Runtime(vec![MoveTypeLayout::Struct(MoveStructLayout::Runtime(vec![
        MoveTypeLayout::U64,
    ]))]);
    let decoded = MoveStruct::simple_deserialize(&found.data, &layout).unwrap();
    assert_eq!(
        decoded,
        MoveStruct::Runtime(vec![MoveValue::Struct(MoveStruct::Runtime(vec![MoveValue::U64(0)]))])
    );
    assert_eq!(bcs::to_bytes(&MoveValue::Struct(decoded)).unwrap(), found.data);
}

#[test]
fn resource_search_takes_the_first_match_and_reports_absence() {
    let account = account_at(Some("2"), "0xa", 7);
    let state = AccountState {
        resources: vec![
            Resource { tag: balance(xus()), data: vec![1] },
            Resource { tag: balance(xdx()), data: vec![2] },
            Resource { tag: balance(xdx()), data: vec![3] },
        ],
        modules: vec![],
    };
    assert_eq!(state.position_of(&balance(xus())), Some(0));
    assert_eq!(state.position_of(&balance(xdx())), Some(1));
    assert_eq!(state.position_of(&balance(TypeArg::U8)), None);
    assert_eq!(account.find_resource(&state, &balance(xdx())).unwrap().data, vec![2u8]);
    match account.find_resource(&state, &tag(1, "DiemAccount", "Balance", vec![])) {
        Err(e) => {
            assert_eq!(e.status(), 404);
            assert_eq!(e.latest_version(), Some(7));
            match e {
                QueryError::ResourceNotFound { address, tag: missing, version, latest } => {
                    assert_eq!(address, Address::new(0xa));
                    assert!(missing.equals(&tag(1, "DiemAccount", "Balance", vec![])));
                    assert_eq!(version, 2);
                    assert_eq!(latest, 7);
                }
                other => panic!("unexpected: {:?}", other),
            }
        }
        Ok(found) => panic!("unexpected: {:?}", found),
    }
}

#[test]
fn sequence_number_differs_between_versions() {
    let account_tag = || tag(1, "DiemAccount", "DiemAccount", vec![]);
    let store = |address: Address, version: u64| -> Option<AccountState> {
        if address == Address::new(0xdd) && version <= 1 {
            Some(AccountState {
                resources: vec![Resource { tag: account_tag(), data: bcs::to_bytes(&version).unwrap() }],
                modules: vec![],
            })
        } else {
            None
        }
    };
    let sequence_number = |version: Option<&str>| -> u64 {
        let account = account_at(version, "0xdd", 1);
        let state = account.account_state(store(account.address, account.ledger_version)).unwrap();
        let found = account.find_resource(&state, &account_tag()).unwrap();
        bcs::from_bytes::<u64>(&found.data).unwrap()
    };
    assert_eq!(sequence_number(Some("0")), 0);
    assert_eq!(sequence_number(Some("1")), 1);
    assert_eq!(sequence_number(None), 1);
}

#[test]
fn resources_and_modules_come_with_the_ledger_information() {
    let account = account_at(Some("2"), "0xa", 7);
    let state = || AccountState {
        resources: vec![Resource { tag: balance(xus()), data: vec![1] }],
        modules: vec![vec![5, 6], vec![7]],
    };
    let Response { ledger_info, body } = account.resources(Some(state())).unwrap();
    assert_eq!(ledger_info, LedgerInfo::new(4, 7, 0));
    assert_eq!(body.len(), 1);
    assert_eq!(body[0].data, vec![1u8]);
    let Response { ledger_info, body } = account.modules(Some(state())).unwrap();
    assert_eq!(ledger_info.version(), 7);
    assert_eq!(body, vec![vec![5u8, 6], vec![7]]);
    assert!(matches!(account.resources(None), Err(QueryError::AccountNotFound { .. })));
    assert!(matches!(account.modules(None), Err(QueryError::AccountNotFound { .. })));
}

#[test]
fn field_search_takes_the_first_of_the_name() {
    let account = account_at(None, "0xa", 7);
    let fields = vec![
        Field { name: name("a"), value: Value::U8(1) },
        Field { name: name("b"), value: Value::U8(2) },
        Field { name: name("b"), value: Value::U8(3) },
    ];
    assert_eq!(account.find_field(&balance(xdx()), &fields, &name("a")).unwrap(), 0);
    assert_eq!(account.find_field(&balance(xdx()), &fields, &name("b")).unwrap(), 1);
    match account.find_field(&balance(xdx()), &fields, &name("c")) {
        Err(QueryError::FieldNotFound { address, tag: of, field, version, latest }) => {
            assert_eq!(address, Address::new(0xa));
            assert!(of.equals(&balance(xdx())));
            assert!(field.equals(&name("c")));
            assert_eq!(version, 7);
            assert_eq!(latest, 7);
        }
        other => panic!("unexpected: {:?}", other),
    }
}

#[test]
fn event_key_of_a_handle_field() {
    let account = account_at(None, "0xa", 7);
    let fields = vec![
        Field { name: name("sequence_number"), value: Value::U64(4) },
        Field { name: name("sent_events"), value: handle_value(3, key_bytes()) },
        Field { name: name("authentication_key"), value: Value::vector_u8(&key_bytes()) },
        Field { name: name("owner"), value: Value::Address(Address::new(7)) },
        Field { name: name("frozen"), value: Value::Struct(vec![Value::Bool(false)]) },
        Field { name: name("limit"), value: Value::U128(1 << 100) },
        Field { name: name("tag"), value: Value::U8(24) },
        Field { name: name("signer"), value: Value::Signer(Address::new(7)) },
    ];
    let of = tag(1, "DiemAccount", "DiemAccount", vec![]);
    let key = account.find_event_key(&of, &name("sent_events"), &fields).unwrap();
    assert_eq!(key.bytes, key_bytes());

    for wrong in ["sequence_number", "authentication_key", "owner", "frozen", "limit", "tag", "signer"].iter() {
        match account.find_event_key(&of, &name(wrong), &fields) {
            Err(e) => {
                assert_eq!(e.status(), 400);
                match e {
                    QueryError::BadRequest { field, diagnostic } => {
                        assert!(field.equals(&name(wrong)));
                        assert!(!diagnostic.is_empty());
                        let again = QueryError::BadRequest { field, diagnostic: diagnostic.clone() };
                        assert_eq!(
                            again.message(),
                            format!(
                                "field({}) type is not EventHandle struct, deserialize error: {}",
                                wrong, diagnostic
                            )
                        );
                    }
                    other => panic!("unexpected: {:?}", other),
                }
            }
            Ok(key) => panic!("unexpected: {:?}", key),
        }
    }
    assert!(matches!(
        account.find_event_key(&of, &name("received_events"), &fields),
        Err(QueryError::FieldNotFound { .. })
    ));
}

#[test]
fn narrowing_needs_exactly_the_layout_of_a_handle() {
    let field = name("events");
    assert_eq!(reinterpret_as_event_handle(&field, &handle_value(0, key_bytes())).unwrap().bytes, key_bytes());
    let short: Vec<u8> = key_bytes()[..23].to_vec();
    assert!(matches!(
        reinterpret_as_event_handle(&field, &handle_value(0, short)),
        Err(QueryError::BadRequest { .. })
    ));
    let mut long: Vec<u8> = key_bytes();
    long.push(0);
    assert!(matches!(
        reinterpret_as_event_handle(&field, &handle_value(0, long)),
        Err(QueryError::BadRequest { .. })
    ));
    let trailing = Value::Struct(vec![Value::U64(1), Value::vector_u8(&key_bytes()), Value::Bool(true)]);
    assert!(matches!(reinterpret_as_event_handle(&field, &trailing), Err(QueryError::BadRequest { .. })));
    let same_bytes_otherwise = Value::Struct(vec![
        Value::Struct(vec![Value::U8(1), Value::U8(0), Value::U8(0), Value::U8(0)]),
        Value::Vector(vec![Value::Bool(false), Value::Bool(false), Value::Bool(false)]),
        Value::U8(24),
        Value::Address(Address::new(0x0102)),
        Value::U64(0x0807060504030201),
    ]);
    let key = reinterpret_as_event_handle(&field, &same_bytes_otherwise).unwrap();
    let mut expected: Vec<u8> = vec![0; 14];
    expected.extend_from_slice(&[1, 2, 1, 2, 3, 4, 5, 6, 7, 8]);
    assert_eq!(key.bytes, expected);
}

#[test]
fn key_of_encoded_handle_bytes() {
    let field = name("events");
    let address = AccountAddress::from_hex_literal("0xdd").unwrap();
    let key = diem_types::event::EventKey::new_from_address(&address, 11);
    let handle = diem_types::event::EventHandle::new(key, 5);
    let bytes = bcs::to_bytes(&handle).unwrap();
    assert_eq!(bytes.len(), 33);
    assert_eq!(bytes[8], 24);
    assert_eq!(event_key_of_bytes(&field, &bytes).unwrap().bytes, key.to_vec());
    assert_eq!(event_key_of_bytes(&field, &bytes).unwrap().bytes, bytes[9..33].to_vec());

    assert!(matches!(event_key_of_bytes(&field, &bytes[..32]), Err(QueryError::BadRequest { .. })));
    assert!(matches!(event_key_of_bytes(&field, &[]), Err(QueryError::BadRequest { .. })));
    let mut other_length = bytes.clone();
    other_length[8] = 23;
    assert!(matches!(event_key_of_bytes(&field, &other_length), Err(QueryError::BadRequest { .. })));
    let mut two_byte_length = bytes[..8].to_vec();
    two_byte_length.extend_from_slice(&[0x98, 0x00]);
    two_byte_length.extend_from_slice(&bytes[10..]);
    assert_eq!(two_byte_length.len(), 33);
    assert!(matches!(event_key_of_bytes(&field, &two_byte_length), Err(QueryError::BadRequest { .. })));
}
