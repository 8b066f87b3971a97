use ssh_keys::private_key::{
    DssPrivateKey, EcDsaPrivateKey, Ed25519PrivateKey, PrivateKey, RsaPrivateKey,
};
use ssh_keys::public_key::{DssPublicKey, PublicKey};

#[test]
fn erase_zeroes_every_field_in_place() {
    let mut key = PrivateKey::Rsa(RsaPrivateKey {
        n: vec![0xde, 0xad],
        e: vec![0x01, 0x00, 0x01],
        d: vec![0x42],
        iqmp: vec![0x10],
        p: vec![0x0b],
        q: vec![0x0d],
    });
    key.erase();
    match &key {
        PrivateKey::Rsa(k) => {
            assert_eq!(k.n, vec![0x00, 0x00]);
            assert_eq!(k.e, vec![0x00, 0x00, 0x00]);
            assert_eq!(k.d, vec![0x00]);
            assert_eq!(k.iqmp, vec![0x00]);
            assert_eq!(k.p, vec![0x00]);
            assert_eq!(k.q, vec![0x00]);
        },
        _ => panic!("wrong variant"),
    }
}

#[test]
fn erase_zeroes_identifier_characters() {
    let mut key = EcDsaPrivateKey {
        identifier: String::from("nistp256"),
        q: vec![0x04, 0x99],
        d: vec![0x33],
    };
    key.erase();
    assert_eq!(key.identifier, "\0\0\0\0\0\0\0\0");
    assert_eq!(key.q, vec![0x00, 0x00]);
    assert_eq!(key.d, vec![0x00]);
}

#[test]
fn erase_zeroes_ed25519_fields() {
    let mut key = Ed25519PrivateKey { enc_a: vec![0xaa, 0xbb], k_enc_a: vec![0xcc; 4] };
    key.erase();
    assert_eq!(key.enc_a, vec![0x00, 0x00]);
    assert_eq!(key.k_enc_a, vec![0x00; 4]);
}

#[test]
fn project_erase_projects_and_zeroes_the_source() {
    let mut key = PrivateKey::Dss(DssPrivateKey {
        p: vec![0x01],
        q: vec![0x02],
        g: vec![0x03],
        y: vec![0x04],
        x: vec![0x05],
    });
    let public = key.project_erase();
    assert_eq!(
        public,
        PublicKey::Dss(DssPublicKey { p: vec![0x01], q: vec![0x02], g: vec![0x03], y: vec![0x04] })
    );
    // The source's storage, secret field included, reads as all-zero bytes
    // of the original lengths.
    match &key {
        PrivateKey::Dss(k) => {
            assert_eq!(k.p, vec![0x00]);
            assert_eq!(k.q, vec![0x00]);
            assert_eq!(k.g, vec![0x00]);
            assert_eq!(k.y, vec![0x00]);
            assert_eq!(k.x, vec![0x00]);
        },
        _ => panic!("wrong variant"),
    }
}

#[test]
fn dss_scenario_encode_decode_project_erase() {
    // The full lifecycle on one concrete key: encode, decode the exact
    // bytes, project, and check the secret's storage afterwards.
    let key = DssPrivateKey {
        p: vec![0x01],
        q: vec![0x02],
        g: vec![0x03],
        y: vec![0x04],
        x: vec![0x05],
    };
    let mut wrapped = PrivateKey::Dss(key);
    assert_eq!(wrapped.key_type(), "ssh-dss");
    let enc = wrapped.encode();
    assert_eq!(PrivateKey::decode(&enc).unwrap(), wrapped);
    let public = wrapped.project_erase();
    assert_eq!(
        public,
        PublicKey::Dss(DssPublicKey { p: vec![0x01], q: vec![0x02], g: vec![0x03], y: vec![0x04] })
    );
    match &wrapped {
        PrivateKey::Dss(k) => assert_eq!(k.x, vec![0x00]),
        _ => panic!("wrong variant"),
    }
}
