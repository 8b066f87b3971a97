use ssh_keys::private_key::{
    DssPrivateKey, EcDsaPrivateKey, Ed25519PrivateKey, PrivateKey, RsaPrivateKey,
};
use ssh_keys::public_key::{
    DssPublicKey, EcDsaPublicKey, Ed25519PublicKey, PublicKey, RsaPublicKey,
};

#[test]
fn rsa_projection_keeps_e_and_n() {
    let key = RsaPrivateKey {
        n: vec![0xde, 0xad],
        e: vec![0x01, 0x00, 0x01],
        d: vec![0x42],
        iqmp: vec![0x10],
        p: vec![0x0b],
        q: vec![0x0d],
    };
    let public = RsaPublicKey::from(key);
    assert_eq!(public.e, vec![0x01, 0x00, 0x01]);
    assert_eq!(public.n, vec![0xde, 0xad]);
}

#[test]
fn dss_projection_keeps_public_fields() {
    let key = DssPrivateKey {
        p: vec![0x01],
        q: vec![0x02],
        g: vec![0x03],
        y: vec![0x04],
        x: vec![0x05],
    };
    let public = DssPublicKey::from(key);
    assert_eq!(public, DssPublicKey { p: vec![0x01], q: vec![0x02], g: vec![0x03], y: vec![0x04] });
}

#[test]
fn ed25519_projection_keeps_enc_a() {
    let key = Ed25519PrivateKey { enc_a: vec![0xaa, 0xbb], k_enc_a: vec![0xcc] };
    let public = Ed25519PublicKey::from(key);
    assert_eq!(public.enc_a, vec![0xaa, 0xbb]);
}

#[test]
fn ecdsa_projection_keeps_identifier_and_q() {
    let key = EcDsaPrivateKey {
        identifier: String::from("nistp256"),
        q: vec![0x04, 0x99],
        d: vec![0x33],
    };
    let public = EcDsaPublicKey::from(key);
    assert_eq!(public.identifier, "nistp256");
    assert_eq!(public.q, vec![0x04, 0x99]);
}

#[test]
fn enum_projection_matches_variant() {
    let key = PrivateKey::Rsa(RsaPrivateKey {
        n: vec![0x11],
        e: vec![0x03],
        d: vec![0x07],
        iqmp: vec![0x01],
        p: vec![0x02],
        q: vec![0x05],
    });
    let public = PublicKey::from(key);
    assert_eq!(public, PublicKey::Rsa(RsaPublicKey { e: vec![0x03], n: vec![0x11] }));
}

#[test]
fn borrowing_projection_leaves_original_intact() {
    let key = PrivateKey::Dss(DssPrivateKey {
        p: vec![0x01],
        q: vec![0x02],
        g: vec![0x03],
        y: vec![0x04],
        x: vec![0x05],
    });
    let public = key.project_ref();
    assert_eq!(
        public,
        PublicKey::Dss(DssPublicKey { p: vec![0x01], q: vec![0x02], g: vec![0x03], y: vec![0x04] })
    );
    // The private key is untouched, secret field included.
    match &key {
        PrivateKey::Dss(k) => assert_eq!(k.x, vec![0x05]),
        _ => panic!("wrong variant"),
    }
}

#[test]
fn projection_of_decoded_key_round_trips_as_public() {
    // decode private -> project -> encode public -> decode public
    let key = PrivateKey::EcDsa(EcDsaPrivateKey {
        identifier: String::from("nistp256"),
        q: vec![0x04, 0x11],
        d: vec![0x33],
    });
    let decoded = PrivateKey::decode(&key.encode()).unwrap();
    let public = PublicKey::from(decoded);
    let back = PublicKey::decode(&public.encode()).unwrap();
    assert_eq!(
        back,
        PublicKey::EcDsa(EcDsaPublicKey { identifier: String::from("nistp256"), q: vec![0x04, 0x11] })
    );
}
