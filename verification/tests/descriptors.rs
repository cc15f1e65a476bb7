use diem_accounts::account::Account;
use diem_accounts::address::Address;
use diem_accounts::error::{Parameter, QueryError};
use diem_accounts::tag::{within_nesting, Identifier, StructTag, TypeArg};

fn name(text: &str) -> Identifier {
    Identifier::new(text).unwrap()
}

fn tag(address: u128, module: &str, struct_name: &str, type_params: Vec<TypeArg>) -> StructTag {
    StructTag { address: Address::new(address), module: name(module), name: name(struct_name), type_params }
}

#[test]
fn descriptor_text_with_a_generic_argument() {
    let parsed = StructTag::parse("0x1::DiemAccount::Balance<0x1::XDX::XDX>").unwrap();
    let expected = tag(
        1,
        "DiemAccount",
        "Balance",
        vec![TypeArg::Struct(Box::new(tag(1, "XDX", "XDX", vec![])))],
    );
    assert!(parsed.equals(&expected));
    assert_eq!(parsed.address, Address::new(1));
    assert_eq!(parsed.module.bytes, b"DiemAccount".to_vec());
    assert_eq!(parsed.name.bytes, b"Balance".to_vec());
    assert_eq!(parsed.type_params.len(), 1);
}

#[test]
fn descriptor_text_with_every_kind_of_argument() {
    let parsed = StructTag::parse(
        "0xdd::M::S<bool, u8, u64, u128, address, signer, vector<vector<u8>>, 0xA::N::T<u8>>",
    )
    .unwrap();
    let expected = tag(
        0xdd,
        "M",
        "S",
        vec![
            TypeArg::Bool,
            TypeArg::U8,
            TypeArg::U64,
            TypeArg::U128,
            TypeArg::Address,
            TypeArg::Signer,
            TypeArg::Vector(Box::new(TypeArg::Vector(Box::new(TypeArg::U8)))),
            TypeArg::Struct(Box::new(tag(0xa, "N", "T", vec![TypeArg::U8]))),
        ],
    );
    assert!(parsed.equals(&expected));
    assert!(StructTag::parse("0x1::A::B").unwrap().equals(&tag(1, "A", "B", vec![])));
}

#[test]
fn malformed_descriptor_texts() {
    for text in ["", "u64", "vector<u8>", "0x1", "0x1::A", "0x1::A::B<", "0x1::A::B<u8", "1::A::B", "0x1::A::B>",
        "0x1::A::B extra", "0x1:A:B", "0xg::A::B", "0x1::A::B<u9>"]
        .iter()
    {
        assert!(StructTag::parse(text).is_none(), "text {:?}", text);
    }
}

#[test]
fn descriptor_nesting_is_bounded() {
    let nested = |levels: usize| -> String {
        let mut text = String::from("0x1::A::B<");
        for _ in 1..levels {
            text.push_str("vector<");
        }
        text.push_str("u8");
        for _ in 0..levels {
            text.push('>');
        }
        text
    };
    assert!(within_nesting(nested(128).as_bytes()));
    assert!(!within_nesting(nested(129).as_bytes()));
    assert!(within_nesting(b""));
    let deepest = StructTag::parse(&nested(128)).unwrap();
    assert_eq!(deepest.type_params.len(), 1);
    assert!(deepest.equals(&deepest.duplicate()));
    assert!(StructTag::parse(&nested(129)).is_none());
    assert!(StructTag::parse(&nested(3)).unwrap().equals(&tag(
        1,
        "A",
        "B",
        vec![TypeArg::Vector(Box::new(TypeArg::Vector(Box::new(TypeArg::U8))))]
    )));
}

#[test]
fn event_key_parameters_are_read_in_order() {
    let (tag_read, field) = Account::event_key_parameters("0x1::DiemAccount::DiemAccount", "sent_events").unwrap();
    assert!(tag_read.equals(&tag(1, "DiemAccount", "DiemAccount", vec![])));
    assert!(field.equals(&name("sent_events")));

    match Account::event_key_parameters("DiemAccount", "sent events") {
        Err(QueryError::InvalidParameter { parameter, raw }) => {
            assert_eq!(parameter, Parameter::EventHandleStruct);
            assert_eq!(raw, "DiemAccount");
        }
        other => panic!("unexpected: {:?}", other),
    }
    match Account::event_key_parameters("0x1::DiemAccount::DiemAccount", "sent events") {
        Err(e) => {
            assert_eq!(e.status(), 400);
            match e {
                QueryError::InvalidParameter { parameter, raw } => {
                    assert_eq!(parameter, Parameter::EventHandleFieldName);
                    assert_eq!(raw, "sent events");
                }
                other => panic!("unexpected: {:?}", other),
            }
        }
        Ok(pair) => panic!("unexpected: {:?}", pair),
    }
}

#[test]
fn descriptors_as_text() {
    assert_eq!(
        StructTag::parse("0x1::DiemAccount::Balance<0x1::XDX::XDX>").unwrap().text(),
        "0x1::DiemAccount::Balance<0x1::XDX::XDX>"
    );
    assert_eq!(tag(0xdd, "M", "S", vec![]).text(), "0xdd::M::S");
    assert_eq!(
        tag(0, "M", "S", vec![TypeArg::Bool, TypeArg::Vector(Box::new(TypeArg::U8)), TypeArg::U128]).text(),
        "0x0::M::S<Bool, Vector<U8>, U128>"
    );
    assert_eq!(TypeArg::Signer.text(), "Signer");
    assert_eq!(TypeArg::Address.text(), "Address");
    assert_eq!(TypeArg::U64.text(), "U64");
    assert_eq!(name("sent_events").text(), "sent_events");
    assert_eq!(Identifier { bytes: vec![b'a', 0xff, b'b'] }.text(), "a\u{fffd}b");
    for text in [
        "0x1::A::B",
        "0x1::A::B<u8>",
        "0x1::A::B<u8, u64>",
        "0x1::A::B<bool, u8, u64, u128, address, signer>",
        "0xABC::A::B<vector<vector<0x2::C::D<u8, 0x3::E::F>>>, 0x4::G::H<vector<bool>>>",
    ]
    .iter()
    {
        let by_outside = move_core_types::parser::parse_type_tag(text).unwrap().to_string();
        assert_eq!(StructTag::parse(text).unwrap().text(), by_outside, "text {:?}", text);
    }
}
