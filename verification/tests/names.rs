use der::{Decode, Encode};
use x509_util::context::Context;
use x509_util::error::X509Error;
use x509_util::name::{get_attribute_type, AttributeType, Name};
use x509_util::name_parser::{parse_pairs, NameParseError};
use x509_util::owned_name::OwnedName;

fn test_okay(input: &str) {
    let result: Result<OwnedName, _> = input.parse();

    assert!(result.is_ok());

    println!("Result: {}", result.unwrap().to_display_string());
}

#[test]
fn parses_right() {
    test_okay("C=US,ST = CA, L =SF");
    test_okay("C=US,ST = \"CA Minor\", L =SF");
}

fn owned(pairs: &[(&str, &str)]) -> OwnedName {
    OwnedName(
        pairs
            .iter()
            .map(|(k, v)| (k.to_string(), v.to_string()))
            .collect(),
    )
}

#[test]
fn parses_to_ordered_pairs() {
    let name: OwnedName = "C=US,ST = \"CA Minor\", L =SF".parse().unwrap();
    assert_eq!(name, owned(&[("C", "US"), ("ST", "CA Minor"), ("L", "SF")]));

    let name: OwnedName = "C=US,ST = CA, L =SF".parse().unwrap();
    assert_eq!(name, owned(&[("C", "US"), ("ST", "CA"), ("L", "SF")]));
}

#[test]
fn quotes_keep_commas_spaces_and_equals() {
    let name: OwnedName = "O=\"Acme, Inc. = best\" ,CN=\"\"".parse().unwrap();
    assert_eq!(name, owned(&[("O", "Acme, Inc. = best"), ("CN", "")]));
}

#[test]
fn spaces_around_tokens_do_not_count() {
    let name: OwnedName = " \t C \t=\r\n US \n,\tCN = ca  ".parse().unwrap();
    assert_eq!(name, owned(&[("C", "US"), ("CN", "ca")]));
}

#[test]
fn text_of_spaces_is_the_empty_name() {
    assert_eq!(OwnedName::parse("").unwrap(), owned(&[]));
    assert_eq!(OwnedName::parse("  \t ").unwrap(), owned(&[]));
}

#[test]
fn values_may_hold_any_utf8() {
    let name: OwnedName = "CN=Zoë,O=\"日本 語\"".parse().unwrap();
    assert_eq!(name, owned(&[("CN", "Zoë"), ("O", "日本 語")]));
}

#[test]
fn each_parse_error_has_its_input() {
    assert_eq!(
        OwnedName::parse("=US").unwrap_err(),
        NameParseError::MissingKey { at: 0 }
    );
    assert_eq!(
        OwnedName::parse("C=US,").unwrap_err(),
        NameParseError::MissingKey { at: 5 }
    );
    assert_eq!(
        OwnedName::parse("C=US, ,CN=x").unwrap_err(),
        NameParseError::MissingKey { at: 6 }
    );
    assert_eq!(
        OwnedName::parse("C US").unwrap_err(),
        NameParseError::MissingEquals { at: 2 }
    );
    assert_eq!(
        OwnedName::parse("C").unwrap_err(),
        NameParseError::MissingEquals { at: 1 }
    );
    assert_eq!(
        OwnedName::parse("C=").unwrap_err(),
        NameParseError::MissingValue { at: 2 }
    );
    assert_eq!(
        OwnedName::parse("C= ,CN=x").unwrap_err(),
        NameParseError::MissingValue { at: 3 }
    );
    assert_eq!(
        OwnedName::parse("C=\"US").unwrap_err(),
        NameParseError::UnclosedQuote { at: 2 }
    );
    assert_eq!(
        OwnedName::parse("C=US CN=x").unwrap_err(),
        NameParseError::MissingComma { at: 5 }
    );
    assert_eq!(
        OwnedName::parse("L=San Francisco").unwrap_err(),
        NameParseError::MissingComma { at: 6 }
    );
    assert_eq!(
        OwnedName::parse("C=\"US\"x").unwrap_err(),
        NameParseError::MissingComma { at: 6 }
    );
}

#[test]
fn parse_errors_have_messages() {
    let err: Result<OwnedName, String> = "C".parse();
    assert_eq!(err.unwrap_err(), "expected `=` after the key");
    assert_eq!(
        NameParseError::MissingKey { at: 3 }.message(),
        "expected a key"
    );
    assert_eq!(NameParseError::MissingKey { at: 3 }.position(), 3);
    assert_eq!(
        NameParseError::MissingValue { at: 4 }.message(),
        "expected a value"
    );
    assert_eq!(
        NameParseError::UnclosedQuote { at: 5 }.message(),
        "the quote is not closed"
    );
    assert_eq!(
        NameParseError::MissingComma { at: 6 }.message(),
        "expected `,` between pairs"
    );
    assert_eq!(NameParseError::MissingComma { at: 6 }.position(), 6);
}

#[test]
fn parse_pairs_cuts_bytes() {
    let pairs = parse_pairs(b"C=US, X=\"a,b\"").unwrap();
    assert_eq!(
        pairs,
        vec![
            (Vec::from(&b"C"[..]), Vec::from(&b"US"[..])),
            (Vec::from(&b"X"[..]), Vec::from(&b"a,b"[..]))
        ]
    );
    assert_eq!(
        parse_pairs(b"\xff=\xfe").unwrap(),
        vec![(vec![0xffu8], vec![0xfeu8])]
    );
}

#[test]
fn display_joins_pairs() {
    assert_eq!(owned(&[]).to_display_string(), "");
    assert_eq!(owned(&[("C", "US")]).to_display_string(), "C = US");
    assert_eq!(
        owned(&[("C", "US"), ("ST", "CA Minor"), ("L", "SF")]).to_display_string(),
        "C = US, ST = CA Minor, L = SF"
    );
}

#[test]
fn display_of_plain_pairs_parses_back() {
    let name = owned(&[("C", "US"), ("ST", "CA"), ("CN", "ca")]);
    let again: OwnedName = name.to_display_string().parse().unwrap();
    assert_eq!(again, name);
}

#[test]
fn attribute_types_of_keys() {
    assert_eq!(get_attribute_type("C"), Some(AttributeType::C));
    assert_eq!(get_attribute_type("ST"), Some(AttributeType::ST));
    assert_eq!(get_attribute_type("L"), Some(AttributeType::L));
    assert_eq!(get_attribute_type("O"), Some(AttributeType::O));
    assert_eq!(get_attribute_type("OU"), Some(AttributeType::OU));
    assert_eq!(get_attribute_type("CN"), Some(AttributeType::CN));
    assert_eq!(get_attribute_type("c"), None);
    assert_eq!(get_attribute_type(""), None);
    assert_eq!(get_attribute_type("CNN"), None);
    assert_eq!(get_attribute_type("DC"), None);
    assert_eq!(get_attribute_type("S"), None);
}

fn expected_name<'a>(pairs: &[(const_oid::ObjectIdentifier, &'a str)]) -> Vec<u8> {
    let rdns = pairs
        .iter()
        .map(|(oid, value)| {
            let atv = x509_cert::attr::AttributeTypeAndValue {
                oid: *oid,
                value: der::asn1::Utf8StringRef::new(*value).unwrap().into(),
            };
            x509_cert::name::RelativeDistinguishedName([atv].try_into().unwrap())
        })
        .collect();
    x509_cert::name::RdnSequence(rdns).to_vec().unwrap()
}

#[test]
fn from_pairs_keeps_order_and_drops_unknown_keys() {
    let context = Context::new();
    let name = Name::from_pairs(
        &context,
        &[
            ("CN", "ca"),
            ("DC", "example"),
            ("C", "US"),
            ("", "nothing"),
            ("ST", "CA"),
            ("C", "CA"),
        ],
    )
    .unwrap();

    let got: Vec<(AttributeType, &[u8])> = name.rdns.iter().map(|a| (a.oid, a.value)).collect();
    assert_eq!(
        got,
        vec![
            (AttributeType::CN, &b"ca"[..]),
            (AttributeType::C, &b"US"[..]),
            (AttributeType::ST, &b"CA"[..]),
            (AttributeType::C, &b"CA"[..]),
        ]
    );
}

#[test]
fn name_der_is_that_of_x509_cert() {
    let context = Context::new();
    let name = Name::from_pairs(
        &context,
        &[
            ("C", "US"),
            ("ST", "CA"),
            ("L", "SF"),
            ("O", "Org"),
            ("OU", "Unit"),
            ("CN", "ca"),
        ],
    )
    .unwrap();
    let der = name.to_der().unwrap();
    assert_eq!(
        der,
        expected_name(&[
            (const_oid::db::rfc4519::C, "US"),
            (const_oid::db::rfc4519::ST, "CA"),
            (const_oid::db::rfc4519::L, "SF"),
            (const_oid::db::rfc4519::O, "Org"),
            (const_oid::db::rfc4519::OU, "Unit"),
            (const_oid::db::rfc4519::CN, "ca"),
        ])
    );

    let decoded = x509_cert::name::Name::from_der(&der).unwrap();
    assert_eq!(decoded.to_string(), "C=US,STATEORPROVINCENAME=CA,L=SF,O=Org,OU=Unit,CN=ca");
}

#[test]
fn small_name_has_exact_der() {
    let context = Context::new();
    let name = Name::from_pairs(&context, &[("C", "US")]).unwrap();
    assert_eq!(
        name.to_der().unwrap(),
        vec![
            0x30, 0x0d, 0x31, 0x0b, 0x30, 0x09, 0x06, 0x03, 0x55, 0x04, 0x06, 0x0c, 0x02, b'U',
            b'S'
        ]
    );
    let empty = Name::from_pairs(&context, &[]).unwrap();
    assert_eq!(empty.to_der().unwrap(), vec![0x30, 0x00]);
}

#[test]
fn clone_of_a_name_is_the_name() {
    let context = Context::new();
    let name = Name::from_pairs(&context, &[("C", "US"), ("CN", "ca")]).unwrap();
    let copy = name.clone();
    assert_eq!(copy.to_der().unwrap(), name.to_der().unwrap());
    assert_eq!(copy.rdns.len(), 2);
}

#[test]
fn owned_name_gives_the_same_name() {
    let context = Context::new();
    let owned_name: OwnedName = "C=US,ST=CA,CN=ca,X=dropped".parse().unwrap();
    let from_owned = owned_name.to_x509_name(&context).unwrap();
    let from_pairs =
        Name::from_pairs(&context, &[("C", "US"), ("ST", "CA"), ("CN", "ca")]).unwrap();
    assert_eq!(from_owned.to_der().unwrap(), from_pairs.to_der().unwrap());

    let direct = Name::from_owned_pairs(&context, &owned_name.0).unwrap();
    assert_eq!(direct.to_der().unwrap(), from_pairs.to_der().unwrap());
}

#[test]
fn too_long_value_is_an_encoding_error() {
    let context = Context::new();
    let long = "a".repeat(0x1000_0000);
    // also where the pair would have been dropped
    assert!(matches!(
        Name::from_pairs(&context, &[("C", "US"), ("unknown", &long)]),
        Err(X509Error::DERError(_))
    ));
}
