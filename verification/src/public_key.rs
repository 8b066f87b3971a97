//! The four public key shapes, their wire tags, their tagged-union wire
//! codec, and the projection from private keys to public keys.

use vstd::prelude::*;
use vstd::string::StringExecFns;
use vstd::utf8::is_ascii_chars;

use crate::error::ProtoError;
use crate::private_key::{
    mpint_wf, DssPrivateKey, EcDsaPrivateKey, Ed25519PrivateKey, MpInt, PrivateKey, RsaPrivateKey,
};
use crate::wire::{
    ascii_bytes, bytes_are_ascii, bytes_chars, bytes_eq_str, bytes_start_with_str, copy_bytes,
    decode_mpint, lemma_parse_lp_of_lp, lemma_u32_be_len, push_lp_bytes, push_lp_str, spec_lp,
    spec_parse_lp, str_bytes, string_of_ascii_bytes,
};

verus! {

#[derive(Clone, Debug, PartialEq, Eq, Hash)]
pub struct RsaPublicKey {
    pub e: MpInt,
    pub n: MpInt,
}

#[derive(Clone, Debug, PartialEq, Eq, Hash)]
pub struct DssPublicKey {
    pub p: MpInt,
    pub q: MpInt,
    pub g: MpInt,
    pub y: MpInt,
}

#[derive(Clone, Debug, PartialEq, Eq, Hash)]
pub struct EcDsaPublicKey {
    pub identifier: String,
    pub q: MpInt,
}

#[derive(Clone, Debug, PartialEq, Eq, Hash)]
pub struct Ed25519PublicKey {
    pub enc_a: Vec<u8>,
}

#[derive(Clone, Debug, PartialEq, Eq, Hash)]
pub enum PublicKey {
    Dss(DssPublicKey),
    Ed25519(Ed25519PublicKey),
    Rsa(RsaPublicKey),
    EcDsa(EcDsaPublicKey),
}

/// The mathematical model of a public key: each field as the sequence it
/// holds.
#[verifier::ext_equal]
pub enum PublicKeyView {
    Dss { p: Seq<u8>, q: Seq<u8>, g: Seq<u8>, y: Seq<u8> },
    Ed25519 { enc_a: Seq<u8> },
    Rsa { e: Seq<u8>, n: Seq<u8> },
    EcDsa { identifier: Seq<char>, q: Seq<u8> },
}

impl View for PublicKey {
    type V = PublicKeyView;

    open spec fn view(&self) -> PublicKeyView {
        match self {
            PublicKey::Dss(k) => PublicKeyView::Dss { p: k.p@, q: k.q@, g: k.g@, y: k.y@ },
            PublicKey::Ed25519(k) => PublicKeyView::Ed25519 { enc_a: k.enc_a@ },
            PublicKey::Rsa(k) => PublicKeyView::Rsa { e: k.e@, n: k.n@ },
            PublicKey::EcDsa(k) => PublicKeyView::EcDsa { identifier: k.identifier@, q: k.q@ },
        }
    }
}

impl PublicKeyView {
    /// A constructible key: every field fits its length prefix, and an ECDSA
    /// curve identifier is ASCII and leaves room for the `ecdsa-sha2-` tag
    /// prefix around it.
    pub open spec fn wf(self) -> bool {
        match self {
            PublicKeyView::Dss { p, q, g, y } => mpint_wf(p) && mpint_wf(q) && mpint_wf(g)
                && mpint_wf(y),
            PublicKeyView::Ed25519 { enc_a } => mpint_wf(enc_a),
            PublicKeyView::Rsa { e, n } => mpint_wf(e) && mpint_wf(n),
            PublicKeyView::EcDsa { identifier, q } => is_ascii_chars(identifier)
                && identifier.len() + "ecdsa-sha2-"@.len() <= u32::MAX && mpint_wf(q),
        }
    }

    /// The key's wire tag: a fixed string per algorithm family, with the
    /// curve identifier appended for ECDSA.
    pub open spec fn spec_tag(self) -> Seq<char> {
        match self {
            PublicKeyView::Dss { .. } => "ssh-dss"@,
            PublicKeyView::Ed25519 { .. } => "ssh-ed25519"@,
            PublicKeyView::Rsa { .. } => "ssh-rsa"@,
            PublicKeyView::EcDsa { identifier, .. } => "ecdsa-sha2-"@ + identifier,
        }
    }

    /// The wire form of the key's fields, in their fixed order, each
    /// length-prefixed.
    pub open spec fn spec_fields(self) -> Seq<u8> {
        match self {
            PublicKeyView::Dss { p, q, g, y } => spec_lp(p) + spec_lp(q) + spec_lp(g) + spec_lp(y),
            PublicKeyView::Ed25519 { enc_a } => spec_lp(enc_a),
            PublicKeyView::Rsa { e, n } => spec_lp(e) + spec_lp(n),
            PublicKeyView::EcDsa { identifier, q } => spec_lp(str_bytes(identifier)) + spec_lp(q),
        }
    }

    /// The full wire form of the key: its length-prefixed tag, then its
    /// fields.
    pub open spec fn spec_encode(self) -> Seq<u8> {
        spec_lp(str_bytes(self.spec_tag())) + self.spec_fields()
    }
}

impl DssPublicKey {
    /// The wire tag of every DSA key.
    pub fn key_type(&self) -> (r: String)
        ensures
            r@ == "ssh-dss"@,
    {
        String::from_str("ssh-dss")
    }
}

impl Ed25519PublicKey {
    /// The wire tag of every Ed25519 key.
    pub fn key_type(&self) -> (r: String)
        ensures
            r@ == "ssh-ed25519"@,
    {
        String::from_str("ssh-ed25519")
    }
}

impl RsaPublicKey {
    /// The wire tag of every RSA key.
    pub fn key_type(&self) -> (r: String)
        ensures
            r@ == "ssh-rsa"@,
    {
        String::from_str("ssh-rsa")
    }
}

impl EcDsaPublicKey {
    /// The wire tag of an ECDSA key: `ecdsa-sha2-` followed by the stored
    /// curve identifier.
    pub fn key_type(&self) -> (r: String)
        ensures
            r@ == "ecdsa-sha2-"@ + self.identifier@,
    {
        let mut t: String = String::from_str("ecdsa-sha2-");
        t.append(self.identifier.as_str());
        t
    }
}

impl PublicKey {
    /// The key's wire tag.
    pub fn key_type(&self) -> (r: String)
        ensures
            r@ == self@.spec_tag(),
    {
        match self {
            PublicKey::Dss(k) => k.key_type(),
            PublicKey::Ed25519(k) => k.key_type(),
            PublicKey::Rsa(k) => k.key_type(),
            PublicKey::EcDsa(k) => k.key_type(),
        }
    }

    /// Encodes the key for the wire: its length-prefixed tag, then its
    /// fields in their fixed order, each length-prefixed.
    pub fn encode(&self) -> (r: Vec<u8>)
        requires
            self@.wf(),
        ensures
            r@ == self@.spec_encode(),
    {
        let mut out: Vec<u8> = Vec::new();
        let tag: String = self.key_type();
        proof {
            broadcast use lemma_u32_be_len;

            reveal_strlit("ssh-dss");
            reveal_strlit("ssh-ed25519");
            reveal_strlit("ssh-rsa");
            reveal_strlit("ecdsa-sha2-");
            assert(is_ascii_chars(tag@) && tag@.len() <= u32::MAX) by {
                if let PublicKeyView::EcDsa { identifier, .. } = self@ {
                    assert(tag@ =~= "ecdsa-sha2-"@ + identifier);
                    vstd::utf8::is_ascii_chars_concat("ecdsa-sha2-"@ + identifier,
                        "ecdsa-sha2-"@, identifier);
                }
            }
        }
        push_lp_str(&mut out, tag.as_str());
        match self {
            PublicKey::Dss(k) => {
                push_lp_bytes(&mut out, k.p.as_slice());
                push_lp_bytes(&mut out, k.q.as_slice());
                push_lp_bytes(&mut out, k.g.as_slice());
                push_lp_bytes(&mut out, k.y.as_slice());
            },
            PublicKey::Ed25519(k) => {
                push_lp_bytes(&mut out, k.enc_a.as_slice());
            },
            PublicKey::Rsa(k) => {
                push_lp_bytes(&mut out, k.e.as_slice());
                push_lp_bytes(&mut out, k.n.as_slice());
            },
            PublicKey::EcDsa(k) => {
                push_lp_str(&mut out, k.identifier.as_str());
                push_lp_bytes(&mut out, k.q.as_slice());
            },
        }
        proof {
            assert(out@ =~= self@.spec_encode());
        }
        out
    }

    /// Decodes one key from the front of `buf`: reads the tag, dispatches on
    /// it, then reads the variant's fields in their fixed order. Bytes after
    /// the last field are ignored. Fails with `UnknownKeyType` when the tag
    /// matches no supported family, with `Truncated` when a declared length
    /// runs past the end of the buffer, and with `MalformedField` when an
    /// ECDSA curve identifier is not ASCII.
    pub fn decode(buf: &[u8]) -> (r: Result<PublicKey, ProtoError>)
        ensures
            spec_decode_public(buf@) is Ok ==> r is Ok && r->Ok_0@ == spec_decode_public(
                buf@,
            )->Ok_0,
            spec_decode_public(buf@) is Err ==> r is Err && r->Err_0 == spec_decode_public(
                buf@,
            )->Err_0,
    {
        proof {
            reveal_strlit("ssh-dss");
            reveal_strlit("ssh-ed25519");
            reveal_strlit("ssh-rsa");
            reveal_strlit("ecdsa-sha2-");
            assert(buf@.skip(0) =~= buf@);
        }
        let (tag, pos) = match decode_mpint(buf, 0) {
            Ok(v) => v,
            Err(_) => {
                return Err(ProtoError::Truncated);
            },
        };
        if bytes_eq_str(&tag, "ssh-dss") {
            Self::decode_dss(buf, pos)
        } else if bytes_eq_str(&tag, "ssh-ed25519") {
            Self::decode_ed25519(buf, pos)
        } else if bytes_eq_str(&tag, "ssh-rsa") {
            Self::decode_rsa(buf, pos)
        } else if bytes_start_with_str(&tag, "ecdsa-sha2-") {
            Self::decode_ecdsa(buf, pos)
        } else {
            Err(ProtoError::UnknownKeyType)
        }
    }

    /// Reads the four DSA fields at `pos`.
    fn decode_dss(buf: &[u8], pos: usize) -> (r: Result<PublicKey, ProtoError>)
        requires
            pos <= buf@.len(),
        ensures
            ({
                let sr = spec_decode_dss_public(buf@.skip(pos as int));
                &&& sr is Ok ==> r is Ok && r->Ok_0@ == sr->Ok_0
                &&& sr is Err ==> r is Err && r->Err_0 == sr->Err_0
            }),
    {
        let (p, pos1) = match decode_mpint(buf, pos) {
            Ok(v) => v,
            Err(_) => {
                return Err(ProtoError::Truncated);
            },
        };
        let (q, pos2) = match decode_mpint(buf, pos1) {
            Ok(v) => v,
            Err(_) => {
                return Err(ProtoError::Truncated);
            },
        };
        let (g, pos3) = match decode_mpint(buf, pos2) {
            Ok(v) => v,
            Err(_) => {
                return Err(ProtoError::Truncated);
            },
        };
        let (y, _pos4) = match decode_mpint(buf, pos3) {
            Ok(v) => v,
            Err(_) => {
                return Err(ProtoError::Truncated);
            },
        };
        Ok(PublicKey::Dss(DssPublicKey { p, q, g, y }))
    }

    /// Reads the one Ed25519 field at `pos`.
    fn decode_ed25519(buf: &[u8], pos: usize) -> (r: Result<PublicKey, ProtoError>)
        requires
            pos <= buf@.len(),
        ensures
            ({
                let sr = spec_decode_ed25519_public(buf@.skip(pos as int));
                &&& sr is Ok ==> r is Ok && r->Ok_0@ == sr->Ok_0
                &&& sr is Err ==> r is Err && r->Err_0 == sr->Err_0
            }),
    {
        let (enc_a, _pos1) = match decode_mpint(buf, pos) {
            Ok(v) => v,
            Err(_) => {
                return Err(ProtoError::Truncated);
            },
        };
        Ok(PublicKey::Ed25519(Ed25519PublicKey { enc_a }))
    }

    /// Reads the two RSA fields at `pos`.
    fn decode_rsa(buf: &[u8], pos: usize) -> (r: Result<PublicKey, ProtoError>)
        requires
            pos <= buf@.len(),
        ensures
            ({
                let sr = spec_decode_rsa_public(buf@.skip(pos as int));
                &&& sr is Ok ==> r is Ok && r->Ok_0@ == sr->Ok_0
                &&& sr is Err ==> r is Err && r->Err_0 == sr->Err_0
            }),
    {
        let (e, pos1) = match decode_mpint(buf, pos) {
            Ok(v) => v,
            Err(_) => {
                return Err(ProtoError::Truncated);
            },
        };
        let (n, _pos2) = match decode_mpint(buf, pos1) {
            Ok(v) => v,
            Err(_) => {
                return Err(ProtoError::Truncated);
            },
        };
        Ok(PublicKey::Rsa(RsaPublicKey { e, n }))
    }

    /// Reads the two ECDSA fields at `pos`.
    fn decode_ecdsa(buf: &[u8], pos: usize) -> (r: Result<PublicKey, ProtoError>)
        requires
            pos <= buf@.len(),
        ensures
            ({
                let sr = spec_decode_ecdsa_public(buf@.skip(pos as int));
                &&& sr is Ok ==> r is Ok && r->Ok_0@ == sr->Ok_0
                &&& sr is Err ==> r is Err && r->Err_0 == sr->Err_0
            }),
    {
        let (idb, pos1) = match decode_mpint(buf, pos) {
            Ok(v) => v,
            Err(_) => {
                return Err(ProtoError::Truncated);
            },
        };
        if !bytes_are_ascii(&idb) {
            return Err(ProtoError::MalformedField);
        }
        let identifier: String = string_of_ascii_bytes(&idb);
        let (q, _pos2) = match decode_mpint(buf, pos1) {
            Ok(v) => v,
            Err(_) => {
                return Err(ProtoError::Truncated);
            },
        };
        Ok(PublicKey::EcDsa(EcDsaPublicKey { identifier, q }))
    }
}

/// What decoding a buffer yields: the key whose tag and fields the buffer
/// holds, `UnknownKeyType` for an unsupported tag, `Truncated` when a
/// declared length runs past the end, `MalformedField` for a non-ASCII
/// ECDSA curve identifier. Bytes after the last field are ignored.
pub open spec fn spec_decode_public(s: Seq<u8>) -> Result<PublicKeyView, ProtoError> {
    match spec_parse_lp(s) {
        Option::None => Err(ProtoError::Truncated),
        Option::Some(t) => {
            if t.0 == str_bytes("ssh-dss"@) {
                spec_decode_dss_public(t.1)
            } else if t.0 == str_bytes("ssh-ed25519"@) {
                spec_decode_ed25519_public(t.1)
            } else if t.0 == str_bytes("ssh-rsa"@) {
                spec_decode_rsa_public(t.1)
            } else if t.0.len() >= "ecdsa-sha2-"@.len() && t.0.subrange(
                0,
                "ecdsa-sha2-"@.len() as int,
            ) == str_bytes("ecdsa-sha2-"@) {
                spec_decode_ecdsa_public(t.1)
            } else {
                Err(ProtoError::UnknownKeyType)
            }
        },
    }
}

/// The four DSA fields read from the front of `s`.
pub open spec fn spec_decode_dss_public(s: Seq<u8>) -> Result<PublicKeyView, ProtoError> {
    match spec_parse_lp(s) {
        Option::None => Err(ProtoError::Truncated),
        Option::Some(t1) => match spec_parse_lp(t1.1) {
            Option::None => Err(ProtoError::Truncated),
            Option::Some(t2) => match spec_parse_lp(t2.1) {
                Option::None => Err(ProtoError::Truncated),
                Option::Some(t3) => match spec_parse_lp(t3.1) {
                    Option::None => Err(ProtoError::Truncated),
                    Option::Some(t4) => Ok(
                        PublicKeyView::Dss { p: t1.0, q: t2.0, g: t3.0, y: t4.0 },
                    ),
                },
            },
        },
    }
}

/// The one Ed25519 field read from the front of `s`.
pub open spec fn spec_decode_ed25519_public(s: Seq<u8>) -> Result<PublicKeyView, ProtoError> {
    match spec_parse_lp(s) {
        Option::None => Err(ProtoError::Truncated),
        Option::Some(t1) => Ok(PublicKeyView::Ed25519 { enc_a: t1.0 }),
    }
}

/// The two RSA fields read from the front of `s`.
pub open spec fn spec_decode_rsa_public(s: Seq<u8>) -> Result<PublicKeyView, ProtoError> {
    match spec_parse_lp(s) {
        Option::None => Err(ProtoError::Truncated),
        Option::Some(t1) => match spec_parse_lp(t1.1) {
            Option::None => Err(ProtoError::Truncated),
            Option::Some(t2) => Ok(PublicKeyView::Rsa { e: t1.0, n: t2.0 }),
        },
    }
}

/// The two ECDSA fields read from the front of `s`: the curve identifier
/// string (which must be ASCII), then the q MPInt.
pub open spec fn spec_decode_ecdsa_public(s: Seq<u8>) -> Result<PublicKeyView, ProtoError> {
    match spec_parse_lp(s) {
        Option::None => Err(ProtoError::Truncated),
        Option::Some(t1) => {
            if !ascii_bytes(t1.0) {
                Err(ProtoError::MalformedField)
            } else {
                match spec_parse_lp(t1.1) {
                    Option::None => Err(ProtoError::Truncated),
                    Option::Some(t2) => Ok(
                        PublicKeyView::EcDsa { identifier: bytes_chars(t1.0), q: t2.0 },
                    ),
                }
            }
        },
    }
}

/// Tag fidelity: the first length-prefixed field of an encoded key holds
/// exactly the ASCII bytes of the key's tag, the same tag that `key_type`
/// returns; the fields follow it.
pub proof fn lemma_public_encode_embeds_tag(v: PublicKeyView)
    requires
        v.wf(),
    ensures
        spec_parse_lp(v.spec_encode()) == Some((str_bytes(v.spec_tag()), v.spec_fields())),
        is_ascii_chars(v.spec_tag()),
        v.spec_tag().len() <= u32::MAX,
{
    broadcast use lemma_u32_be_len;

    reveal_strlit("ssh-dss");
    reveal_strlit("ssh-ed25519");
    reveal_strlit("ssh-rsa");
    reveal_strlit("ecdsa-sha2-");
    let tag = v.spec_tag();
    let tagb = str_bytes(tag);
    if let PublicKeyView::EcDsa { identifier, .. } = v {
        vstd::utf8::is_ascii_chars_concat("ecdsa-sha2-"@ + identifier, "ecdsa-sha2-"@, identifier);
    }
    assert(is_ascii_chars(tag));
    assert(tagb.len() == tag.len());
    lemma_parse_lp_of_lp(tagb, v.spec_fields());
}

/// Round trip: decoding the encoding of any constructible public key
/// yields exactly that key.
pub proof fn lemma_public_round_trip(v: PublicKeyView)
    requires
        v.wf(),
    ensures
        spec_decode_public(v.spec_encode()) == Ok::<PublicKeyView, ProtoError>(v),
{
    match v {
        PublicKeyView::Dss { .. } => lemma_public_round_trip_dss(v),
        PublicKeyView::Ed25519 { .. } => lemma_public_round_trip_ed25519(v),
        PublicKeyView::Rsa { .. } => lemma_public_round_trip_rsa(v),
        PublicKeyView::EcDsa { .. } => lemma_public_round_trip_ecdsa(v),
    }
}

proof fn lemma_public_round_trip_dss(v: PublicKeyView)
    requires
        v.wf(),
        v is Dss,
    ensures
        spec_decode_public(v.spec_encode()) == Ok::<PublicKeyView, ProtoError>(v),
{
    broadcast use lemma_u32_be_len;

    reveal_strlit("ssh-dss");
    let s = v.spec_encode();
    lemma_public_encode_embeds_tag(v);
    if let PublicKeyView::Dss { p, q, g, y } = v {
        assert(str_bytes(v.spec_tag()) == str_bytes("ssh-dss"@));
        let fields = v.spec_fields();
        assert(fields =~= spec_lp(p) + (spec_lp(q) + spec_lp(g) + spec_lp(y)));
        lemma_parse_lp_of_lp(p, spec_lp(q) + spec_lp(g) + spec_lp(y));
        let r1 = spec_lp(q) + spec_lp(g) + spec_lp(y);
        assert(r1 =~= spec_lp(q) + (spec_lp(g) + spec_lp(y)));
        lemma_parse_lp_of_lp(q, spec_lp(g) + spec_lp(y));
        lemma_parse_lp_of_lp(g, spec_lp(y));
        assert(spec_lp(y) =~= spec_lp(y) + Seq::<u8>::empty());
        lemma_parse_lp_of_lp(y, Seq::<u8>::empty());
        assert(spec_decode_public(s)->Ok_0 =~= v);
    }
}

proof fn lemma_public_round_trip_ed25519(v: PublicKeyView)
    requires
        v.wf(),
        v is Ed25519,
    ensures
        spec_decode_public(v.spec_encode()) == Ok::<PublicKeyView, ProtoError>(v),
{
    broadcast use lemma_u32_be_len;

    reveal_strlit("ssh-dss");
    reveal_strlit("ssh-ed25519");
    let s = v.spec_encode();
    lemma_public_encode_embeds_tag(v);
    if let PublicKeyView::Ed25519 { enc_a } = v {
        let tagb = str_bytes(v.spec_tag());
        assert(tagb.len() == 11 && str_bytes("ssh-dss"@).len() == 7);
        assert(tagb != str_bytes("ssh-dss"@));
        assert(tagb == str_bytes("ssh-ed25519"@));
        let fields = v.spec_fields();
        assert(fields =~= spec_lp(enc_a) + Seq::<u8>::empty());
        lemma_parse_lp_of_lp(enc_a, Seq::<u8>::empty());
        assert(spec_decode_public(s)->Ok_0 =~= v);
    }
}

proof fn lemma_public_round_trip_rsa(v: PublicKeyView)
    requires
        v.wf(),
        v is Rsa,
    ensures
        spec_decode_public(v.spec_encode()) == Ok::<PublicKeyView, ProtoError>(v),
{
    broadcast use lemma_u32_be_len;

    reveal_strlit("ssh-dss");
    reveal_strlit("ssh-ed25519");
    reveal_strlit("ssh-rsa");
    let s = v.spec_encode();
    lemma_public_encode_embeds_tag(v);
    if let PublicKeyView::Rsa { e, n } = v {
        let tagb = str_bytes(v.spec_tag());
        assert(str_bytes("ssh-rsa"@)[4] == 'r' as u8 && str_bytes("ssh-dss"@)[4] == 'd' as u8);
        assert(tagb != str_bytes("ssh-dss"@));
        assert(tagb.len() == 7 && str_bytes("ssh-ed25519"@).len() == 11);
        assert(tagb != str_bytes("ssh-ed25519"@));
        assert(tagb == str_bytes("ssh-rsa"@));
        let fields = v.spec_fields();
        assert(fields =~= spec_lp(e) + spec_lp(n));
        lemma_parse_lp_of_lp(e, spec_lp(n));
        assert(spec_lp(n) =~= spec_lp(n) + Seq::<u8>::empty());
        lemma_parse_lp_of_lp(n, Seq::<u8>::empty());
        assert(spec_decode_public(s)->Ok_0 =~= v);
    }
}

proof fn lemma_public_round_trip_ecdsa(v: PublicKeyView)
    requires
        v.wf(),
        v is EcDsa,
    ensures
        spec_decode_public(v.spec_encode()) == Ok::<PublicKeyView, ProtoError>(v),
{
    broadcast use lemma_u32_be_len;

    reveal_strlit("ssh-dss");
    reveal_strlit("ssh-ed25519");
    reveal_strlit("ssh-rsa");
    reveal_strlit("ecdsa-sha2-");
    let s = v.spec_encode();
    lemma_public_encode_embeds_tag(v);
    if let PublicKeyView::EcDsa { identifier, q } = v {
        let tagb = str_bytes(v.spec_tag());
        assert(tagb.len() == 11 + identifier.len());
        assert(str_bytes("ssh-dss"@).len() == 7 && str_bytes("ssh-rsa"@).len() == 7);
        assert(tagb != str_bytes("ssh-dss"@));
        assert(tagb[0] == 'e' as u8 && str_bytes("ssh-ed25519"@)[0] == 's' as u8);
        assert(tagb != str_bytes("ssh-ed25519"@));
        assert(tagb != str_bytes("ssh-rsa"@));
        assert(tagb.len() >= "ecdsa-sha2-"@.len());
        assert(tagb.subrange(0, "ecdsa-sha2-"@.len() as int) =~= str_bytes("ecdsa-sha2-"@));
        let idb = str_bytes(identifier);
        let fields = v.spec_fields();
        assert(fields =~= spec_lp(idb) + spec_lp(q));
        lemma_parse_lp_of_lp(idb, spec_lp(q));
        vstd::utf8::is_ascii_chars_nat_bound(identifier);
        assert(ascii_bytes(idb));
        assert(bytes_chars(idb) =~= identifier);
        assert(spec_lp(q) =~= spec_lp(q) + Seq::<u8>::empty());
        lemma_parse_lp_of_lp(q, Seq::<u8>::empty());
        assert(spec_decode_public(s)->Ok_0 =~= v);
    }
}

/// The projection of a DSA private key: its public fields, moved out.
pub open spec fn spec_project_dss(key: DssPrivateKey) -> DssPublicKey {
    DssPublicKey { p: key.p, q: key.q, g: key.g, y: key.y }
}

/// The projection of an Ed25519 private key: its public field, moved out.
pub open spec fn spec_project_ed25519(key: Ed25519PrivateKey) -> Ed25519PublicKey {
    Ed25519PublicKey { enc_a: key.enc_a }
}

/// The projection of an RSA private key: its public fields, moved out.
pub open spec fn spec_project_rsa(key: RsaPrivateKey) -> RsaPublicKey {
    RsaPublicKey { e: key.e, n: key.n }
}

/// The projection of an ECDSA private key: its public fields, moved out.
pub open spec fn spec_project_ecdsa(key: EcDsaPrivateKey) -> EcDsaPublicKey {
    EcDsaPublicKey { identifier: key.identifier, q: key.q }
}

/// The projection of a private key: the public key of the same family,
/// holding the private key's public fields.
pub open spec fn spec_project(key: PrivateKey) -> PublicKey {
    match key {
        PrivateKey::Dss(k) => PublicKey::Dss(spec_project_dss(k)),
        PrivateKey::Ed25519(k) => PublicKey::Ed25519(spec_project_ed25519(k)),
        PrivateKey::Rsa(k) => PublicKey::Rsa(spec_project_rsa(k)),
        PrivateKey::EcDsa(k) => PublicKey::EcDsa(spec_project_ecdsa(k)),
    }
}

impl From<DssPrivateKey> for DssPublicKey {
    /// Consuming projection: moves the public fields out; the secret field
    /// is dropped with the consumed key.
    fn from(key: DssPrivateKey) -> Self {
        DssPublicKey { p: key.p, q: key.q, g: key.g, y: key.y }
    }
}

impl vstd::std_specs::convert::FromSpecImpl<DssPrivateKey> for DssPublicKey {
    open spec fn obeys_from_spec() -> bool {
        true
    }

    open spec fn from_spec(key: DssPrivateKey) -> Self {
        spec_project_dss(key)
    }
}

impl From<Ed25519PrivateKey> for Ed25519PublicKey {
    /// Consuming projection: moves the public field out; the secret field
    /// is dropped with the consumed key.
    fn from(key: Ed25519PrivateKey) -> Self {
        Ed25519PublicKey { enc_a: key.enc_a }
    }
}

impl vstd::std_specs::convert::FromSpecImpl<Ed25519PrivateKey> for Ed25519PublicKey {
    open spec fn obeys_from_spec() -> bool {
        true
    }

    open spec fn from_spec(key: Ed25519PrivateKey) -> Self {
        spec_project_ed25519(key)
    }
}

impl From<RsaPrivateKey> for RsaPublicKey {
    /// Consuming projection: moves the public fields out; the secret fields
    /// are dropped with the consumed key.
    fn from(key: RsaPrivateKey) -> Self {
        RsaPublicKey { e: key.e, n: key.n }
    }
}

impl vstd::std_specs::convert::FromSpecImpl<RsaPrivateKey> for RsaPublicKey {
    open spec fn obeys_from_spec() -> bool {
        true
    }

    open spec fn from_spec(key: RsaPrivateKey) -> Self {
        spec_project_rsa(key)
    }
}

impl From<EcDsaPrivateKey> for EcDsaPublicKey {
    /// Consuming projection: moves the public fields out; the secret field
    /// is dropped with the consumed key.
    fn from(key: EcDsaPrivateKey) -> Self {
        EcDsaPublicKey { identifier: key.identifier, q: key.q }
    }
}

impl vstd::std_specs::convert::FromSpecImpl<EcDsaPrivateKey> for EcDsaPublicKey {
    open spec fn obeys_from_spec() -> bool {
        true
    }

    open spec fn from_spec(key: EcDsaPrivateKey) -> Self {
        spec_project_ecdsa(key)
    }
}

impl From<PrivateKey> for PublicKey {
    /// Consuming projection: the public key of the same family, holding the
    /// private key's public fields; the secret fields are dropped with the
    /// consumed key.
    fn from(key: PrivateKey) -> Self {
        match key {
            PrivateKey::Dss(k) => PublicKey::Dss(DssPublicKey::from(k)),
            PrivateKey::Ed25519(k) => PublicKey::Ed25519(Ed25519PublicKey::from(k)),
            PrivateKey::Rsa(k) => PublicKey::Rsa(RsaPublicKey::from(k)),
            PrivateKey::EcDsa(k) => PublicKey::EcDsa(EcDsaPublicKey::from(k)),
        }
    }
}

impl vstd::std_specs::convert::FromSpecImpl<PrivateKey> for PublicKey {
    open spec fn obeys_from_spec() -> bool {
        true
    }

    open spec fn from_spec(key: PrivateKey) -> Self {
        spec_project(key)
    }
}

impl DssPrivateKey {
    /// Borrowing projection: a public key holding copies of the public
    /// fields; the private key is left untouched.
    pub fn project_ref(&self) -> (r: DssPublicKey)
        ensures
            r.p@ == self.p@,
            r.q@ == self.q@,
            r.g@ == self.g@,
            r.y@ == self.y@,
    {
        DssPublicKey {
            p: copy_bytes(&self.p),
            q: copy_bytes(&self.q),
            g: copy_bytes(&self.g),
            y: copy_bytes(&self.y),
        }
    }
}

impl Ed25519PrivateKey {
    /// Borrowing projection: a public key holding a copy of the public
    /// field; the private key is left untouched.
    pub fn project_ref(&self) -> (r: Ed25519PublicKey)
        ensures
            r.enc_a@ == self.enc_a@,
    {
        Ed25519PublicKey { enc_a: copy_bytes(&self.enc_a) }
    }
}

impl RsaPrivateKey {
    /// Borrowing projection: a public key holding copies of the public
    /// fields; the private key is left untouched.
    pub fn project_ref(&self) -> (r: RsaPublicKey)
        ensures
            r.e@ == self.e@,
            r.n@ == self.n@,
    {
        RsaPublicKey { e: copy_bytes(&self.e), n: copy_bytes(&self.n) }
    }
}

impl EcDsaPrivateKey {
    /// Borrowing projection: a public key holding copies of the public
    /// fields; the private key is left untouched.
    pub fn project_ref(&self) -> (r: EcDsaPublicKey)
        ensures
            r.identifier@ == self.identifier@,
            r.q@ == self.q@,
    {
        EcDsaPublicKey { identifier: self.identifier.clone(), q: copy_bytes(&self.q) }
    }
}

impl PrivateKey {
    /// Consuming projection: the public key of the same family, holding
    /// this key's public fields; the secret fields are dropped with the
    /// consumed key.
    pub fn project(self) -> (r: PublicKey)
        ensures
            r == spec_project(self),
    {
        PublicKey::from(self)
    }

    /// Borrowing projection: a public key holding copies of this key's
    /// public fields; the private key is left untouched.
    pub fn project_ref(&self) -> (r: PublicKey)
        ensures
            r@ == spec_project(*self)@,
    {
        let r = match self {
            PrivateKey::Dss(k) => PublicKey::Dss(k.project_ref()),
            PrivateKey::Ed25519(k) => PublicKey::Ed25519(k.project_ref()),
            PrivateKey::Rsa(k) => PublicKey::Rsa(k.project_ref()),
            PrivateKey::EcDsa(k) => PublicKey::EcDsa(k.project_ref()),
        };
        proof {
            assert(r@ =~= spec_project(*self)@);
        }
        r
    }

    /// Projects to the public key and erases this private key in place:
    /// afterwards every byte of every field of the private key reads zero.
    pub fn project_erase(&mut self) -> (r: PublicKey)
        ensures
            r@ == spec_project(*old(self))@,
            final(self)@ == old(self)@.zeroed(),
    {
        let r = self.project_ref();
        self.erase();
        r
    }
}

} // verus!
