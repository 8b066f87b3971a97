use ssh_keys::error::ProtoError;
use ssh_keys::private_key::{
    DssPrivateKey, EcDsaPrivateKey, Ed25519PrivateKey, PrivateKey, RsaPrivateKey,
};
use ssh_keys::public_key::{
    DssPublicKey, EcDsaPublicKey, Ed25519PublicKey, PublicKey, RsaPublicKey,
};
use ssh_keys::wire::{decode_mpint, encode_mpint};

fn dss_key() -> PrivateKey {
    PrivateKey::Dss(DssPrivateKey {
        p: vec![0x01],
        q: vec![0x02],
        g: vec![0x03],
        y: vec![0x04],
        x: vec![0x05],
    })
}

#[test]
fn mpint_round_trip() {
    let m: Vec<u8> = vec![0x00, 0x9a, 0xff];
    let enc = encode_mpint(&m);
    assert_eq!(enc, vec![0x00, 0x00, 0x00, 0x03, 0x00, 0x9a, 0xff]);
    let (back, rest) = decode_mpint(&enc, 0).unwrap();
    assert_eq!(back, m);
    assert_eq!(rest, 7);
}

#[test]
fn mpint_empty_payload() {
    let m: Vec<u8> = vec![];
    let enc = encode_mpint(&m);
    assert_eq!(enc, vec![0x00, 0x00, 0x00, 0x00]);
    let (back, rest) = decode_mpint(&enc, 0).unwrap();
    assert_eq!(back, m);
    assert_eq!(rest, 4);
}

#[test]
fn mpint_truncated() {
    // Declares 5 bytes but only 2 remain.
    let buf: Vec<u8> = vec![0x00, 0x00, 0x00, 0x05, 0x01, 0x02];
    assert_eq!(decode_mpint(&buf, 0), Err(ProtoError::Truncated));
}

#[test]
fn dss_concrete_encoding() {
    let key = dss_key();
    let enc = key.encode();
    let expected: Vec<u8> = vec![
        0x00, 0x00, 0x00, 0x07, b's', b's', b'h', b'-', b'd', b's', b's', // tag "ssh-dss"
        0x00, 0x00, 0x00, 0x01, 0x01, // p
        0x00, 0x00, 0x00, 0x01, 0x02, // q
        0x00, 0x00, 0x00, 0x01, 0x03, // g
        0x00, 0x00, 0x00, 0x01, 0x04, // y
        0x00, 0x00, 0x00, 0x01, 0x05, // x
    ];
    assert_eq!(enc, expected);
    let back = PrivateKey::decode(&expected).unwrap();
    assert_eq!(back, key);
}

#[test]
fn private_round_trip_dss() {
    let key = dss_key();
    assert_eq!(PrivateKey::decode(&key.encode()).unwrap(), key);
}

#[test]
fn private_round_trip_rsa() {
    let key = PrivateKey::Rsa(RsaPrivateKey {
        n: vec![0xde, 0xad, 0xbe, 0xef],
        e: vec![0x01, 0x00, 0x01],
        d: vec![0x42],
        iqmp: vec![0x10, 0x20],
        p: vec![0x0b],
        q: vec![0x0d],
    });
    assert_eq!(PrivateKey::decode(&key.encode()).unwrap(), key);
}

#[test]
fn private_round_trip_ed25519() {
    let key = PrivateKey::Ed25519(Ed25519PrivateKey {
        enc_a: vec![0xaa; 32],
        k_enc_a: vec![0xbb; 64],
    });
    assert_eq!(PrivateKey::decode(&key.encode()).unwrap(), key);
}

#[test]
fn private_round_trip_ecdsa() {
    let key = PrivateKey::EcDsa(EcDsaPrivateKey {
        identifier: String::from("nistp256"),
        q: vec![0x04, 0x11, 0x22],
        d: vec![0x33],
    });
    assert_eq!(PrivateKey::decode(&key.encode()).unwrap(), key);
}

#[test]
fn public_round_trip_all_variants() {
    let keys = vec![
        PublicKey::Dss(DssPublicKey {
            p: vec![0x01],
            q: vec![0x02, 0x03],
            g: vec![0x04],
            y: vec![0x05, 0x06],
        }),
        PublicKey::Ed25519(Ed25519PublicKey { enc_a: vec![0x07; 32] }),
        PublicKey::Rsa(RsaPublicKey { e: vec![0x01, 0x00, 0x01], n: vec![0xc0, 0xff, 0xee] }),
        PublicKey::EcDsa(EcDsaPublicKey {
            identifier: String::from("nistp384"),
            q: vec![0x04, 0x99],
        }),
    ];
    for key in keys {
        assert_eq!(PublicKey::decode(&key.encode()).unwrap(), key);
    }
}

#[test]
fn tag_of_each_family() {
    assert_eq!(dss_key().key_type(), "ssh-dss");
    let rsa = RsaPrivateKey {
        n: vec![1],
        e: vec![1],
        d: vec![1],
        iqmp: vec![1],
        p: vec![1],
        q: vec![1],
    };
    assert_eq!(rsa.key_type(), "ssh-rsa");
    let ed = Ed25519PrivateKey { enc_a: vec![1], k_enc_a: vec![1] };
    assert_eq!(ed.key_type(), "ssh-ed25519");
    let ec = EcDsaPrivateKey { identifier: String::from("nistp256"), q: vec![1], d: vec![1] };
    assert_eq!(ec.key_type(), "ecdsa-sha2-nistp256");
    let ec_pub = EcDsaPublicKey { identifier: String::from("nistp256"), q: vec![1] };
    assert_eq!(ec_pub.key_type(), "ecdsa-sha2-nistp256");
}

#[test]
fn tag_embedded_by_encode() {
    // The tag string that key_type reports is exactly the first
    // length-prefixed field of the encoding.
    let key = PrivateKey::EcDsa(EcDsaPrivateKey {
        identifier: String::from("nistp256"),
        q: vec![0x04],
        d: vec![0x33],
    });
    let tag = key.key_type();
    let enc = key.encode();
    let tag_len = u32::from_be_bytes([enc[0], enc[1], enc[2], enc[3]]) as usize;
    assert_eq!(tag_len, tag.len());
    assert_eq!(&enc[4..4 + tag_len], tag.as_bytes());
}

#[test]
fn unknown_tag_rejected() {
    let mut buf: Vec<u8> = vec![0x00, 0x00, 0x00, 0x0b];
    buf.extend_from_slice(b"ssh-unknown");
    assert_eq!(PrivateKey::decode(&buf), Err(ProtoError::UnknownKeyType));
    assert_eq!(PublicKey::decode(&buf), Err(ProtoError::UnknownKeyType));
}

#[test]
fn truncated_field_rejected() {
    // A valid "ssh-dss" tag, then an MPInt that declares five bytes while
    // only one remains.
    let mut buf: Vec<u8> = vec![0x00, 0x00, 0x00, 0x07];
    buf.extend_from_slice(b"ssh-dss");
    buf.extend_from_slice(&[0x00, 0x00, 0x00, 0x05, 0x01]);
    assert_eq!(PrivateKey::decode(&buf), Err(ProtoError::Truncated));
    assert_eq!(PublicKey::decode(&buf), Err(ProtoError::Truncated));
}

#[test]
fn truncated_tag_rejected() {
    let buf: Vec<u8> = vec![0x00, 0x00, 0x00, 0x0a, 0x01, 0x02];
    assert_eq!(PrivateKey::decode(&buf), Err(ProtoError::Truncated));
    let empty: Vec<u8> = vec![];
    assert_eq!(PrivateKey::decode(&empty), Err(ProtoError::Truncated));
}

#[test]
fn non_ascii_identifier_rejected() {
    // An ECDSA tag, then an identifier field holding a non-ASCII byte.
    let mut buf: Vec<u8> = vec![0x00, 0x00, 0x00, 0x13];
    buf.extend_from_slice(b"ecdsa-sha2-nistp256");
    buf.extend_from_slice(&[0x00, 0x00, 0x00, 0x01, 0xff]);
    assert_eq!(PrivateKey::decode(&buf), Err(ProtoError::MalformedField));
    assert_eq!(PublicKey::decode(&buf), Err(ProtoError::MalformedField));
}

#[test]
fn decoded_identifier_comes_from_the_wire() {
    // Would fail if building the identifier string from the wire bytes
    // handed something else back.
    let mut buf: Vec<u8> = vec![0x00, 0x00, 0x00, 0x13];
    buf.extend_from_slice(b"ecdsa-sha2-nistp521");
    buf.extend_from_slice(&[0x00, 0x00, 0x00, 0x08]);
    buf.extend_from_slice(b"nistp521");
    buf.extend_from_slice(&[0x00, 0x00, 0x00, 0x01, 0x09]); // q
    buf.extend_from_slice(&[0x00, 0x00, 0x00, 0x01, 0x0a]); // d
    let key = PrivateKey::decode(&buf).unwrap();
    match key {
        PrivateKey::EcDsa(k) => {
            assert_eq!(k.identifier, "nistp521");
            assert_eq!(k.q, vec![0x09]);
            assert_eq!(k.d, vec![0x0a]);
        },
        _ => panic!("wrong variant"),
    }
}
