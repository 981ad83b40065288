use lief::pe::signature::{
    Attribute, ContentInfo, ContentType, MsSpcNestedSignature, PKCS9CounterSignature,
    PKCS9MessageDigest, PKCS9SigningTime, RsaInfo, Signature, SignerInfo, X509,
};

fn certificate(issuer: &str, serial_number: &[u8], subject: &str) -> X509 {
    X509 {
        version: 3,
        serial_number: serial_number.to_vec(),
        signature_algorithm: String::from("1.2.840.113549.1.1.11"),
        issuer: String::from(issuer),
        subject: String::from(subject),
        rsa_info: Some(RsaInfo { key_size: 2048 }),
        signature: vec![0xaa; 256],
        raw: vec![0x30, 0x82],
    }
}

fn signer(issuer: &str, serial_number: &[u8], authenticated: Vec<Attribute>) -> SignerInfo {
    SignerInfo {
        version: 1,
        issuer: String::from(issuer),
        serial_number: serial_number.to_vec(),
        digest_algorithm: 3,
        encryption_algorithm: 8,
        encrypted_digest: vec![0x11; 256],
        authenticated_attributes: authenticated,
        unauthenticated_attributes: vec![],
    }
}

fn signature(certificates: Vec<X509>, signers: Vec<SignerInfo>) -> Signature {
    Signature {
        version: 1,
        digest_algorithm: 3,
        content_info: ContentInfo {
            content_type: String::from("1.3.6.1.4.1.311.2.1.4"),
            digest_algorithm: 3,
            digest: vec![0x22; 32],
        },
        certificates,
        signers,
        raw_der: vec![0x30],
    }
}

fn three_attributes() -> Vec<Attribute> {
    vec![
        Attribute::ContentType(ContentType { oid: String::from("1.3.6.1.4.1.311.2.1.4") }),
        Attribute::PKCS9SigningTime(PKCS9SigningTime {
            year: 2020,
            month: 7,
            day: 4,
            hour: 12,
            minute: 30,
            second: 59,
        }),
        Attribute::PKCS9MessageDigest(PKCS9MessageDigest { digest: vec![0x33; 32] }),
    ]
}

#[test]
fn signer_without_certificate_still_has_its_attributes() {
    let sig = signature(
        vec![certificate("CN=Root", &[0x01, 0x02], "CN=Other")],
        vec![signer("CN=Root", &[0x0a, 0x0b], three_attributes())],
    );
    let signer = &sig.signers[0];
    assert!(signer.cert(&sig).is_none());
    let attributes = signer.authenticated_attributes();
    assert_eq!(attributes.len(), 3);
    assert!(matches!(attributes[0], Attribute::ContentType(_)));
    assert!(matches!(attributes[1], Attribute::PKCS9SigningTime(_)));
    assert!(matches!(attributes[2], Attribute::PKCS9MessageDigest(_)));
    assert!(signer.unauthenticated_attributes().is_empty());
}

#[test]
fn signature_without_certificates_finds_none() {
    let sig = signature(vec![], vec![signer("CN=Root", &[0x01], three_attributes())]);
    assert!(sig.signers[0].cert(&sig).is_none());
    assert_eq!(sig.signers[0].authenticated_attributes().len(), 3);
}

#[test]
fn lookup_takes_issuer_and_serial_number_together() {
    let sig = signature(
        vec![
            certificate("CN=Root", &[0x01], "CN=First"),
            certificate("CN=Other", &[0x02], "CN=Second"),
            certificate("CN=Root", &[0x02], "CN=Third"),
            certificate("CN=Root", &[0x02], "CN=Fourth"),
        ],
        vec![],
    );
    let found = sig.find_certificate(&String::from("CN=Root"), &[0x02]).unwrap();
    assert_eq!(found.subject, "CN=Third");
    let found = sig.find_certificate(&String::from("CN=Other"), &[0x02]).unwrap();
    assert_eq!(found.subject, "CN=Second");
    assert!(sig.find_certificate(&String::from("CN=Other"), &[0x01]).is_none());
    assert!(sig.find_certificate(&String::from("CN=Root"), &[0x02, 0x00]).is_none());
    assert!(sig.find_certificate(&String::from("CN=Root"), &[]).is_none());
}

#[test]
fn signer_finds_the_certificate_it_names() {
    let sig = signature(
        vec![certificate("CN=Root", &[0x01], "CN=First"), certificate("CN=Root", &[0x07, 0x08], "CN=Signer")],
        vec![signer("CN=Root", &[0x07, 0x08], vec![])],
    );
    let found = sig.signers[0].cert(&sig).unwrap();
    assert_eq!(found.subject, "CN=Signer");
    assert_eq!(found.rsa_info, Some(RsaInfo { key_size: 2048 }));
    assert!(sig.signers[0].authenticated_attributes().is_empty());
}

#[test]
fn nested_signatures_are_attributes_like_any_other() {
    let inner = signature(
        vec![certificate("CN=Inner", &[0x05], "CN=Nested")],
        vec![signer("CN=Inner", &[0x05], three_attributes())],
    );
    let counter = signer("CN=Time", &[0x09], vec![]);
    let mut outer_signer = signer("CN=Root", &[0x01], three_attributes());
    outer_signer.unauthenticated_attributes = vec![
        Attribute::MsSpcNestedSignature(MsSpcNestedSignature { signature: Box::new(inner) }),
        Attribute::PKCS9CounterSignature(PKCS9CounterSignature { signer: Box::new(counter) }),
    ];
    let outer = signature(vec![], vec![outer_signer]);
    let attributes = outer.signers[0].unauthenticated_attributes();
    assert_eq!(attributes.len(), 2);
    match &attributes[0] {
        Attribute::MsSpcNestedSignature(nested) => {
            let nested_signer = &nested.signature.signers[0];
            assert_eq!(nested_signer.cert(&nested.signature).unwrap().subject, "CN=Nested");
            assert!(nested_signer.cert(&outer).is_none());
            assert_eq!(nested_signer.authenticated_attributes().len(), 3);
        }
        other => panic!("a nested signature was expected, not {:?}", other),
    }
    match &attributes[1] {
        Attribute::PKCS9CounterSignature(counter) => {
            assert_eq!(counter.signer.issuer, "CN=Time");
            assert!(counter.signer.cert(&outer).is_none());
        }
        other => panic!("a counter signature was expected, not {:?}", other),
    }
}
