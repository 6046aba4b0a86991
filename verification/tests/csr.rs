use csr_builder::csr::{
    bytes_equal, create_csr, csr_signature_valid, der_round_trips, serialize_to_der, CsrError,
};
use csr_builder::keys::{ec_group, generate_key_pair, Nid};
use csr_builder::san::san_value;

fn domains(list: &[&str]) -> Vec<String> {
    list.iter().map(|d| d.to_string()).collect()
}

#[test]
fn san_two_domains_exact() {
    let ds = domains(&["*.example.com", "example.com"]);
    let san = san_value(&ds);
    assert_eq!(san.as_str(), "DNS:*.example.com,DNS:example.com");
}

#[test]
fn san_single_domain_no_comma() {
    let ds = domains(&["example.com"]);
    let san = san_value(&ds);
    assert_eq!(san.as_str(), "DNS:example.com");
    assert!(!san.contains(','));
}

#[test]
fn san_empty_list_is_empty() {
    let ds: Vec<String> = Vec::new();
    assert_eq!(san_value(&ds).as_str(), "");
}

#[test]
fn ec_group_sets_named_curve() {
    let g = ec_group(Nid::Secp384r1);
    assert_eq!(g.curve, Nid::Secp384r1);
    assert!(g.named_curve_encoding);
}

#[test]
fn key_pair_records_curve() {
    let g = ec_group(Nid::Secp384r1);
    let key = generate_key_pair(&g);
    assert_eq!(key.curve(), Nid::Secp384r1);
}

#[test]
fn create_csr_domains_in_order() {
    let g = ec_group(Nid::Secp384r1);
    let key = generate_key_pair(&g);
    let ds = domains(&["a.example.org", "b.example.org", "c.example.org"]);
    let csr = create_csr(&key, &ds).expect("create_csr");
    assert_eq!(csr.domains(), &ds);
    assert_eq!(csr.san().as_str(), "DNS:a.example.org,DNS:b.example.org,DNS:c.example.org");
}

#[test]
fn create_csr_rejects_empty_list() {
    let g = ec_group(Nid::Secp384r1);
    let key = generate_key_pair(&g);
    let ds: Vec<String> = Vec::new();
    assert_eq!(create_csr(&key, &ds).err(), Some(CsrError::InvalidInput));
}

#[test]
fn create_csr_rejects_empty_domain() {
    let g = ec_group(Nid::Secp384r1);
    let key = generate_key_pair(&g);
    let ds = domains(&["example.com", ""]);
    assert_eq!(create_csr(&key, &ds).err(), Some(CsrError::InvalidInput));
}

#[test]
fn create_csr_rejects_non_ascii_domain() {
    let g = ec_group(Nid::Secp384r1);
    let key = generate_key_pair(&g);
    let ds = domains(&["ex\u{e4}mple.com"]);
    assert_eq!(create_csr(&key, &ds).err(), Some(CsrError::ExtensionBuild));
}

#[test]
fn serialize_deterministic() {
    let g = ec_group(Nid::Secp384r1);
    let key = generate_key_pair(&g);
    let ds = domains(&["*.example.com", "example.com"]);
    let csr = create_csr(&key, &ds).expect("create_csr");
    let first = serialize_to_der(&csr);
    let second = serialize_to_der(&csr);
    assert!(bytes_equal(&first, &second));

    let rebuilt = create_csr(&key, &ds).expect("create_csr again");
    let third = serialize_to_der(&rebuilt);
    assert!(bytes_equal(&first, &third));
}

#[test]
fn csr_signature_verifies() {
    let g = ec_group(Nid::Secp384r1);
    let key = generate_key_pair(&g);
    let ds = domains(&["*.example.com", "example.com"]);
    let csr = create_csr(&key, &ds).expect("create_csr");
    assert!(csr_signature_valid(&csr, &key));
}

#[test]
fn csr_signature_rejects_other_key() {
    let g = ec_group(Nid::Secp384r1);
    let key = generate_key_pair(&g);
    let other = generate_key_pair(&g);
    let ds = domains(&["example.com"]);
    let csr = create_csr(&key, &ds).expect("create_csr");
    assert!(!csr_signature_valid(&csr, &other));
}

#[test]
fn der_round_trip_rejects_garbage() {
    let bytes = vec![1u8, 2, 3];
    assert!(!der_round_trips(&bytes));
}

#[test]
fn bytes_equal_distinguishes() {
    let a = vec![48u8, 1, 2];
    let b = vec![48u8, 1, 2];
    let c = vec![48u8, 1];
    assert!(bytes_equal(&a, &b));
    assert!(!bytes_equal(&a, &c));
}

#[test]
fn x509_extension_to_der_full() {
    let group = ec_group(Nid::Secp384r1);
    let pkey = generate_key_pair(&group);

    let csr = create_csr(&pkey, &domains(&["*.example.com", "example.com"])).expect("create_csr");

    let csr_der = serialize_to_der(&csr);
    assert!(!csr_der.is_empty());
    assert_eq!(csr_der[0], 0x30);
    assert!(der_round_trips(&csr_der));
}
