//! The four private key shapes, their wire tags, their tagged-union wire
//! codec, and the in-place zeroing of their secret material.

use vstd::prelude::*;
use vstd::string::StringExecFns;
use vstd::utf8::is_ascii_chars;

use crate::error::ProtoError;
use crate::wire::{
    ascii_bytes, bytes_are_ascii, bytes_chars, bytes_eq_str, bytes_start_with_str, decode_mpint,
    lemma_parse_lp_of_lp, lemma_u32_be_len, push_lp_bytes, push_lp_str, spec_lp, spec_parse_lp,
    str_bytes,
    string_of_ascii_bytes, zeroize, zeroize_string,
};

verus! {

/// An arbitrary-precision integer in SSH wire form: its big-endian digit
/// bytes, stored without the length prefix that the wire adds around them.
pub type MpInt = Vec<u8>;

#[derive(Clone, Debug, PartialEq, Eq, Hash)]
pub struct DssPrivateKey {
    pub p: MpInt,
    pub q: MpInt,
    pub g: MpInt,
    pub y: MpInt,
    pub x: MpInt,
}

#[derive(Clone, Debug, PartialEq, Eq, Hash)]
pub struct Ed25519PrivateKey {
    pub enc_a: Vec<u8>,
    pub k_enc_a: Vec<u8>,
}

#[derive(Clone, Debug, PartialEq, Eq, Hash)]
pub struct RsaPrivateKey {
    pub n: MpInt,
    pub e: MpInt,
    pub d: MpInt,
    pub iqmp: MpInt,
    pub p: MpInt,
    pub q: MpInt,
}

#[derive(Clone, Debug, PartialEq, Eq, Hash)]
pub struct EcDsaPrivateKey {
    pub identifier: String,
    pub q: MpInt,
    pub d: MpInt,
}

#[derive(Clone, Debug, PartialEq, Eq, Hash)]
pub enum PrivateKey {
    Dss(DssPrivateKey),
    Ed25519(Ed25519PrivateKey),
    Rsa(RsaPrivateKey),
    EcDsa(EcDsaPrivateKey),
}

/// The mathematical model of a private key: each field as the sequence it
/// holds.
#[verifier::ext_equal]
pub enum PrivateKeyView {
    Dss { p: Seq<u8>, q: Seq<u8>, g: Seq<u8>, y: Seq<u8>, x: Seq<u8> },
    Ed25519 { enc_a: Seq<u8>, k_enc_a: Seq<u8> },
    Rsa { n: Seq<u8>, e: Seq<u8>, d: Seq<u8>, iqmp: Seq<u8>, p: Seq<u8>, q: Seq<u8> },
    EcDsa { identifier: Seq<char>, q: Seq<u8>, d: Seq<u8> },
}

impl View for PrivateKey {
    type V = PrivateKeyView;

    open spec fn view(&self) -> PrivateKeyView {
        match self {
            PrivateKey::Dss(k) => PrivateKeyView::Dss {
                p: k.p@,
                q: k.q@,
                g: k.g@,
                y: k.y@,
                x: k.x@,
            },
            PrivateKey::Ed25519(k) => PrivateKeyView::Ed25519 {
                enc_a: k.enc_a@,
                k_enc_a: k.k_enc_a@,
            },
            PrivateKey::Rsa(k) => PrivateKeyView::Rsa {
                n: k.n@,
                e: k.e@,
                d: k.d@,
                iqmp: k.iqmp@,
                p: k.p@,
                q: k.q@,
            },
            PrivateKey::EcDsa(k) => PrivateKeyView::EcDsa {
                identifier: k.identifier@,
                q: k.q@,
                d: k.d@,
            },
        }
    }
}

/// An MPInt or raw byte field fits the wire's 4-byte length prefix.
pub open spec fn mpint_wf(m: Seq<u8>) -> bool {
    m.len() <= u32::MAX
}

/// All zero bytes, `n` of them.
pub open spec fn zero_bytes(n: nat) -> Seq<u8> {
    Seq::new(n, |i: int| 0u8)
}

/// All NUL characters, `n` of them.
pub open spec fn zero_chars(n: nat) -> Seq<char> {
    Seq::new(n, |i: int| '\0')
}

impl PrivateKeyView {
    /// A constructible key: every field fits its length prefix, and an ECDSA
    /// curve identifier is ASCII and leaves room for the `ecdsa-sha2-` tag
    /// prefix around it.
    pub open spec fn wf(self) -> bool {
        match self {
            PrivateKeyView::Dss { p, q, g, y, x } => mpint_wf(p) && mpint_wf(q) && mpint_wf(g)
                && mpint_wf(y) && mpint_wf(x),
            PrivateKeyView::Ed25519 { enc_a, k_enc_a } => mpint_wf(enc_a) && mpint_wf(k_enc_a),
            PrivateKeyView::Rsa { n, e, d, iqmp, p, q } => mpint_wf(n) && mpint_wf(e) && mpint_wf(
                d,
            ) && mpint_wf(iqmp) && mpint_wf(p) && mpint_wf(q),
            PrivateKeyView::EcDsa { identifier, q, d } => is_ascii_chars(identifier)
                && identifier.len() + "ecdsa-sha2-"@.len() <= u32::MAX && mpint_wf(q) && mpint_wf(
                d,
            ),
        }
    }

    /// The key's wire tag: a fixed string per algorithm family, with the
    /// curve identifier appended for ECDSA.
    pub open spec fn spec_tag(self) -> Seq<char> {
        match self {
            PrivateKeyView::Dss { .. } => "ssh-dss"@,
            PrivateKeyView::Ed25519 { .. } => "ssh-ed25519"@,
            PrivateKeyView::Rsa { .. } => "ssh-rsa"@,
            PrivateKeyView::EcDsa { identifier, .. } => "ecdsa-sha2-"@ + identifier,
        }
    }

    /// The wire form of the key's fields, in their fixed order, each
    /// length-prefixed.
    pub open spec fn spec_fields(self) -> Seq<u8> {
        match self {
            PrivateKeyView::Dss { p, q, g, y, x } => spec_lp(p) + spec_lp(q) + spec_lp(g)
                + spec_lp(y) + spec_lp(x),
            PrivateKeyView::Ed25519 { enc_a, k_enc_a } => spec_lp(enc_a) + spec_lp(k_enc_a),
            PrivateKeyView::Rsa { n, e, d, iqmp, p, q } => spec_lp(n) + spec_lp(e) + spec_lp(d)
                + spec_lp(iqmp) + spec_lp(p) + spec_lp(q),
            PrivateKeyView::EcDsa { identifier, q, d } => spec_lp(str_bytes(identifier)) + spec_lp(
                q,
            ) + spec_lp(d),
        }
    }

    /// The full wire form of the key: its length-prefixed tag, then its
    /// fields.
    pub open spec fn spec_encode(self) -> Seq<u8> {
        spec_lp(str_bytes(self.spec_tag())) + self.spec_fields()
    }

    /// The same-shaped key with every byte of every field zero.
    pub open spec fn zeroed(self) -> PrivateKeyView {
        match self {
            PrivateKeyView::Dss { p, q, g, y, x } => PrivateKeyView::Dss {
                p: zero_bytes(p.len()),
                q: zero_bytes(q.len()),
                g: zero_bytes(g.len()),
                y: zero_bytes(y.len()),
                x: zero_bytes(x.len()),
            },
            PrivateKeyView::Ed25519 { enc_a, k_enc_a } => PrivateKeyView::Ed25519 {
                enc_a: zero_bytes(enc_a.len()),
                k_enc_a: zero_bytes(k_enc_a.len()),
            },
            PrivateKeyView::Rsa { n, e, d, iqmp, p, q } => PrivateKeyView::Rsa {
                n: zero_bytes(n.len()),
                e: zero_bytes(e.len()),
                d: zero_bytes(d.len()),
                iqmp: zero_bytes(iqmp.len()),
                p: zero_bytes(p.len()),
                q: zero_bytes(q.len()),
            },
            PrivateKeyView::EcDsa { identifier, q, d } => PrivateKeyView::EcDsa {
                identifier: zero_chars(identifier.len()),
                q: zero_bytes(q.len()),
                d: zero_bytes(d.len()),
            },
        }
    }
}

impl DssPrivateKey {
    /// The wire tag of every DSA key.
    pub fn key_type(&self) -> (r: String)
        ensures
            r@ == "ssh-dss"@,
    {
        String::from_str("ssh-dss")
    }

    /// Overwrites every byte of every field with zero, keeping each length.
    pub fn erase(&mut self)
        ensures
            final(self).p@ == zero_bytes(old(self).p@.len()),
            final(self).q@ == zero_bytes(old(self).q@.len()),
            final(self).g@ == zero_bytes(old(self).g@.len()),
            final(self).y@ == zero_bytes(old(self).y@.len()),
            final(self).x@ == zero_bytes(old(self).x@.len()),
    {
        zeroize(&mut self.p);
        zeroize(&mut self.q);
        zeroize(&mut self.g);
        zeroize(&mut self.y);
        zeroize(&mut self.x);
        proof {
            assert(self.p@ =~= zero_bytes(old(self).p@.len()));
            assert(self.q@ =~= zero_bytes(old(self).q@.len()));
            assert(self.g@ =~= zero_bytes(old(self).g@.len()));
            assert(self.y@ =~= zero_bytes(old(self).y@.len()));
            assert(self.x@ =~= zero_bytes(old(self).x@.len()));
        }
    }
}

impl Ed25519PrivateKey {
    /// The wire tag of every Ed25519 key.
    pub fn key_type(&self) -> (r: String)
        ensures
            r@ == "ssh-ed25519"@,
    {
        String::from_str("ssh-ed25519")
    }

    /// Overwrites every byte of every field with zero, keeping each length.
    pub fn erase(&mut self)
        ensures
            final(self).enc_a@ == zero_bytes(old(self).enc_a@.len()),
            final(self).k_enc_a@ == zero_bytes(old(self).k_enc_a@.len()),
    {
        zeroize(&mut self.enc_a);
        zeroize(&mut self.k_enc_a);
        proof {
            assert(self.enc_a@ =~= zero_bytes(old(self).enc_a@.len()));
            assert(self.k_enc_a@ =~= zero_bytes(old(self).k_enc_a@.len()));
        }
    }
}

impl RsaPrivateKey {
    /// The wire tag of every RSA key.
    pub fn key_type(&self) -> (r: String)
        ensures
            r@ == "ssh-rsa"@,
    {
        String::from_str("ssh-rsa")
    }

    /// Overwrites every byte of every field with zero, keeping each length.
    pub fn erase(&mut self)
        ensures
            final(self).n@ == zero_bytes(old(self).n@.len()),
            final(self).e@ == zero_bytes(old(self).e@.len()),
            final(self).d@ == zero_bytes(old(self).d@.len()),
            final(self).iqmp@ == zero_bytes(old(self).iqmp@.len()),
            final(self).p@ == zero_bytes(old(self).p@.len()),
            final(self).q@ == zero_bytes(old(self).q@.len()),
    {
        zeroize(&mut self.n);
        zeroize(&mut self.e);
        zeroize(&mut self.d);
        zeroize(&mut self.iqmp);
        zeroize(&mut self.p);
        zeroize(&mut self.q);
        proof {
            assert(self.n@ =~= zero_bytes(old(self).n@.len()));
            assert(self.e@ =~= zero_bytes(old(self).e@.len()));
            assert(self.d@ =~= zero_bytes(old(self).d@.len()));
            assert(self.iqmp@ =~= zero_bytes(old(self).iqmp@.len()));
            assert(self.p@ =~= zero_bytes(old(self).p@.len()));
            assert(self.q@ =~= zero_bytes(old(self).q@.len()));
        }
    }
}

impl EcDsaPrivateKey {
    /// The wire tag of an ECDSA key: `ecdsa-sha2-` followed by the stored
    /// curve identifier.
    pub fn key_type(&self) -> (r: String)
        ensures
            r@ == "ecdsa-sha2-"@ + self.identifier@,
    {
        let mut t: String = String::from_str("ecdsa-sha2-");
        t.append(self.identifier.as_str());
        t
    }

    /// Overwrites every byte of every field with zero, keeping each length.
    pub fn erase(&mut self)
        ensures
            final(self).identifier@ == zero_chars(old(self).identifier@.len()),
            final(self).q@ == zero_bytes(old(self).q@.len()),
            final(self).d@ == zero_bytes(old(self).d@.len()),
    {
        zeroize_string(&mut self.identifier);
        zeroize(&mut self.q);
        zeroize(&mut self.d);
        proof {
            assert(self.identifier@ =~= zero_chars(old(self).identifier@.len()));
            assert(self.q@ =~= zero_bytes(old(self).q@.len()));
            assert(self.d@ =~= zero_bytes(old(self).d@.len()));
        }
    }
}

impl PrivateKey {
    /// The key's wire tag.
    pub fn key_type(&self) -> (r: String)
        ensures
            r@ == self@.spec_tag(),
    {
        match self {
            PrivateKey::Dss(k) => k.key_type(),
            PrivateKey::Ed25519(k) => k.key_type(),
            PrivateKey::Rsa(k) => k.key_type(),
            PrivateKey::EcDsa(k) => k.key_type(),
        }
    }

    /// Overwrites every byte of every field with zero, keeping the key's
    /// shape and each field's length.
    pub fn erase(&mut self)
        ensures
            final(self)@ == old(self)@.zeroed(),
    {
        match self {
            PrivateKey::Dss(k) => k.erase(),
            PrivateKey::Ed25519(k) => k.erase(),
            PrivateKey::Rsa(k) => k.erase(),
            PrivateKey::EcDsa(k) => k.erase(),
        }
        proof {
            assert(self@ =~= old(self)@.zeroed());
        }
    }

    /// Encodes the key for the wire: its length-prefixed tag, then its
    /// fields in their fixed order, each length-prefixed.
    pub fn encode(&self) -> (r: Vec<u8>)
        requires
            self@.wf(),
        ensures
            r@ == self@.spec_encode(),
    {
        let mut out: Vec<u8> = Vec::new();
        let tag: String = self.key_type();
        proof {
            broadcast use lemma_u32_be_len;

            reveal_strlit("ssh-dss");
            reveal_strlit("ssh-ed25519");
            reveal_strlit("ssh-rsa");
            reveal_strlit("ecdsa-sha2-");
            assert(is_ascii_chars(tag@) && tag@.len() <= u32::MAX) by {
                if let PrivateKeyView::EcDsa { identifier, .. } = self@ {
                    assert(tag@ =~= "ecdsa-sha2-"@ + identifier);
                    vstd::utf8::is_ascii_chars_concat("ecdsa-sha2-"@ + identifier,
                        "ecdsa-sha2-"@, identifier);
                }
            }
        }
        push_lp_str(&mut out, tag.as_str());
        match self {
            PrivateKey::Dss(k) => {
                push_lp_bytes(&mut out, k.p.as_slice());
                push_lp_bytes(&mut out, k.q.as_slice());
                push_lp_bytes(&mut out, k.g.as_slice());
                push_lp_bytes(&mut out, k.y.as_slice());
                push_lp_bytes(&mut out, k.x.as_slice());
            },
            PrivateKey::Ed25519(k) => {
                push_lp_bytes(&mut out, k.enc_a.as_slice());
                push_lp_bytes(&mut out, k.k_enc_a.as_slice());
            },
            PrivateKey::Rsa(k) => {
                push_lp_bytes(&mut out, k.n.as_slice());
                push_lp_bytes(&mut out, k.e.as_slice());
                push_lp_bytes(&mut out, k.d.as_slice());
                push_lp_bytes(&mut out, k.iqmp.as_slice());
                push_lp_bytes(&mut out, k.p.as_slice());
                push_lp_bytes(&mut out, k.q.as_slice());
            },
            PrivateKey::EcDsa(k) => {
                push_lp_str(&mut out, k.identifier.as_str());
                push_lp_bytes(&mut out, k.q.as_slice());
                push_lp_bytes(&mut out, k.d.as_slice());
            },
        }
        proof {
            assert(out@ =~= self@.spec_encode());
        }
        out
    }

    /// Decodes one key from the front of `buf`: reads the tag, dispatches on
    /// it, then reads the variant's fields in their fixed order. Bytes after
    /// the last field are ignored. Fails with `UnknownKeyType` when the tag
    /// matches no supported family, with `Truncated` when a declared length
    /// runs past the end of the buffer, and with `MalformedField` when an
    /// ECDSA curve identifier is not ASCII.
    pub fn decode(buf: &[u8]) -> (r: Result<PrivateKey, ProtoError>)
        ensures
            spec_decode_private(buf@) is Ok ==> r is Ok && r->Ok_0@ == spec_decode_private(
                buf@,
            )->Ok_0,
            spec_decode_private(buf@) is Err ==> r is Err && r->Err_0 == spec_decode_private(
                buf@,
            )->Err_0,
    {
        proof {
            reveal_strlit("ssh-dss");
            reveal_strlit("ssh-ed25519");
            reveal_strlit("ssh-rsa");
            reveal_strlit("ecdsa-sha2-");
            assert(buf@.skip(0) =~= buf@);
        }
        let (tag, pos) = match decode_mpint(buf, 0) {
            Ok(v) => v,
            Err(_) => {
                return Err(ProtoError::Truncated);
            },
        };
        if bytes_eq_str(&tag, "ssh-dss") {
            Self::decode_dss(buf, pos)
        } else if bytes_eq_str(&tag, "ssh-ed25519") {
            Self::decode_ed25519(buf, pos)
        } else if bytes_eq_str(&tag, "ssh-rsa") {
            Self::decode_rsa(buf, pos)
        } else if bytes_start_with_str(&tag, "ecdsa-sha2-") {
            Self::decode_ecdsa(buf, pos)
        } else {
            Err(ProtoError::UnknownKeyType)
        }
    }

    /// Reads the five DSA fields at `pos`.
    fn decode_dss(buf: &[u8], pos: usize) -> (r: Result<PrivateKey, ProtoError>)
        requires
            pos <= buf@.len(),
        ensures
            ({
                let sr = spec_decode_dss_private(buf@.skip(pos as int));
                &&& sr is Ok ==> r is Ok && r->Ok_0@ == sr->Ok_0
                &&& sr is Err ==> r is Err && r->Err_0 == sr->Err_0
            }),
    {
        let (p, pos1) = match decode_mpint(buf, pos) {
            Ok(v) => v,
            Err(_) => {
                return Err(ProtoError::Truncated);
            },
        };
        let (q, pos2) = match decode_mpint(buf, pos1) {
            Ok(v) => v,
            Err(_) => {
                return Err(ProtoError::Truncated);
            },
        };
        let (g, pos3) = match decode_mpint(buf, pos2) {
            Ok(v) => v,
            Err(_) => {
                return Err(ProtoError::Truncated);
            },
        };
        let (y, pos4) = match decode_mpint(buf, pos3) {
            Ok(v) => v,
            Err(_) => {
                return Err(ProtoError::Truncated);
            },
        };
        let (x, _pos5) = match decode_mpint(buf, pos4) {
            Ok(v) => v,
            Err(_) => {
                return Err(ProtoError::Truncated);
            },
        };
        Ok(PrivateKey::Dss(DssPrivateKey { p, q, g, y, x }))
    }

    /// Reads the two Ed25519 fields at `pos`.
    fn decode_ed25519(buf: &[u8], pos: usize) -> (r: Result<PrivateKey, ProtoError>)
        requires
            pos <= buf@.len(),
        ensures
            ({
                let sr = spec_decode_ed25519_private(buf@.skip(pos as int));
                &&& sr is Ok ==> r is Ok && r->Ok_0@ == sr->Ok_0
                &&& sr is Err ==> r is Err && r->Err_0 == sr->Err_0
            }),
    {
        let (enc_a, pos1) = match decode_mpint(buf, pos) {
            Ok(v) => v,
            Err(_) => {
                return Err(ProtoError::Truncated);
            },
        };
        let (k_enc_a, _pos2) = match decode_mpint(buf, pos1) {
            Ok(v) => v,
            Err(_) => {
                return Err(ProtoError::Truncated);
            },
        };
        Ok(PrivateKey::Ed25519(Ed25519PrivateKey { enc_a, k_enc_a }))
    }

    /// Reads the six RSA fields at `pos`.
    fn decode_rsa(buf: &[u8], pos: usize) -> (r: Result<PrivateKey, ProtoError>)
        requires
            pos <= buf@.len(),
        ensures
            ({
                let sr = spec_decode_rsa_private(buf@.skip(pos as int));
                &&& sr is Ok ==> r is Ok && r->Ok_0@ == sr->Ok_0
                &&& sr is Err ==> r is Err && r->Err_0 == sr->Err_0
            }),
    {
        let (n, pos1) = match decode_mpint(buf, pos) {
            Ok(v) => v,
            Err(_) => {
                return Err(ProtoError::Truncated);
            },
        };
        let (e, pos2) = match decode_mpint(buf, pos1) {
            Ok(v) => v,
            Err(_) => {
                return Err(ProtoError::Truncated);
            },
        };
        let (d, pos3) = match decode_mpint(buf, pos2) {
            Ok(v) => v,
            Err(_) => {
                return Err(ProtoError::Truncated);
            },
        };
        let (iqmp, pos4) = match decode_mpint(buf, pos3) {
            Ok(v) => v,
            Err(_) => {
                return Err(ProtoError::Truncated);
            },
        };
        let (p, pos5) = match decode_mpint(buf, pos4) {
            Ok(v) => v,
            Err(_) => {
                return Err(ProtoError::Truncated);
            },
        };
        let (q, _pos6) = match decode_mpint(buf, pos5) {
            Ok(v) => v,
            Err(_) => {
                return Err(ProtoError::Truncated);
            },
        };
        Ok(PrivateKey::Rsa(RsaPrivateKey { n, e, d, iqmp, p, q }))
    }

    /// Reads the three ECDSA fields at `pos`.
    fn decode_ecdsa(buf: &[u8], pos: usize) -> (r: Result<PrivateKey, ProtoError>)
        requires
            pos <= buf@.len(),
        ensures
            ({
                let sr = spec_decode_ecdsa_private(buf@.skip(pos as int));
                &&& sr is Ok ==> r is Ok && r->Ok_0@ == sr->Ok_0
                &&& sr is Err ==> r is Err && r->Err_0 == sr->Err_0
            }),
    {
        let (idb, pos1) = match decode_mpint(buf, pos) {
            Ok(v) => v,
            Err(_) => {
                return Err(ProtoError::Truncated);
            },
        };
        if !bytes_are_ascii(&idb) {
            return Err(ProtoError::MalformedField);
        }
        let identifier: String = string_of_ascii_bytes(&idb);
        let (q, pos2) = match decode_mpint(buf, pos1) {
            Ok(v) => v,
            Err(_) => {
                return Err(ProtoError::Truncated);
            },
        };
        let (d, _pos3) = match decode_mpint(buf, pos2) {
            Ok(v) => v,
            Err(_) => {
                return Err(ProtoError::Truncated);
            },
        };
        Ok(PrivateKey::EcDsa(EcDsaPrivateKey { identifier, q, d }))
    }
}

/// What decoding a buffer yields: the key whose tag and fields the buffer
/// holds, `UnknownKeyType` for an unsupported tag, `Truncated` when a
/// declared length runs past the end, `MalformedField` for a non-ASCII
/// ECDSA curve identifier. Bytes after the last field are ignored.
pub open spec fn spec_decode_private(s: Seq<u8>) -> Result<PrivateKeyView, ProtoError> {
    match spec_parse_lp(s) {
        Option::None => Err(ProtoError::Truncated),
        Option::Some(t) => {
            if t.0 == str_bytes("ssh-dss"@) {
                spec_decode_dss_private(t.1)
            } else if t.0 == str_bytes("ssh-ed25519"@) {
                spec_decode_ed25519_private(t.1)
            } else if t.0 == str_bytes("ssh-rsa"@) {
                spec_decode_rsa_private(t.1)
            } else if t.0.len() >= "ecdsa-sha2-"@.len() && t.0.subrange(
                0,
                "ecdsa-sha2-"@.len() as int,
            ) == str_bytes("ecdsa-sha2-"@) {
                spec_decode_ecdsa_private(t.1)
            } else {
                Err(ProtoError::UnknownKeyType)
            }
        },
    }
}

/// Tag fidelity: the first length-prefixed field of an encoded key holds
/// exactly the ASCII bytes of the key's tag, the same tag that `key_type`
/// returns; the fields follow it.
pub proof fn lemma_encode_embeds_tag(v: PrivateKeyView)
    requires
        v.wf(),
    ensures
        spec_parse_lp(v.spec_encode()) == Some((str_bytes(v.spec_tag()), v.spec_fields())),
        is_ascii_chars(v.spec_tag()),
        v.spec_tag().len() <= u32::MAX,
{
    broadcast use lemma_u32_be_len;

    reveal_strlit("ssh-dss");
    reveal_strlit("ssh-ed25519");
    reveal_strlit("ssh-rsa");
    reveal_strlit("ecdsa-sha2-");
    let tag = v.spec_tag();
    let tagb = str_bytes(tag);
    if let PrivateKeyView::EcDsa { identifier, .. } = v {
        vstd::utf8::is_ascii_chars_concat("ecdsa-sha2-"@ + identifier, "ecdsa-sha2-"@, identifier);
    }
    assert(is_ascii_chars(tag));
    assert(tagb.len() == tag.len());
    lemma_parse_lp_of_lp(tagb, v.spec_fields());
}

/// Round trip: decoding the encoding of any constructible private key
/// yields exactly that key.
pub proof fn lemma_private_round_trip(v: PrivateKeyView)
    requires
        v.wf(),
    ensures
        spec_decode_private(v.spec_encode()) == Ok::<PrivateKeyView, ProtoError>(v),
{
    match v {
        PrivateKeyView::Dss { .. } => lemma_private_round_trip_dss(v),
        PrivateKeyView::Ed25519 { .. } => lemma_private_round_trip_ed25519(v),
        PrivateKeyView::Rsa { .. } => lemma_private_round_trip_rsa(v),
        PrivateKeyView::EcDsa { .. } => lemma_private_round_trip_ecdsa(v),
    }
}

proof fn lemma_private_round_trip_dss(v: PrivateKeyView)
    requires
        v.wf(),
        v is Dss,
    ensures
        spec_decode_private(v.spec_encode()) == Ok::<PrivateKeyView, ProtoError>(v),
{
    broadcast use lemma_u32_be_len;

    reveal_strlit("ssh-dss");
    let s = v.spec_encode();
    lemma_encode_embeds_tag(v);
    if let PrivateKeyView::Dss { p, q, g, y, x } = v {
        assert(str_bytes(v.spec_tag()) == str_bytes("ssh-dss"@));
        let fields = v.spec_fields();
        assert(fields =~= spec_lp(p) + (spec_lp(q) + spec_lp(g) + spec_lp(y) + spec_lp(x)));
        lemma_parse_lp_of_lp(p, spec_lp(q) + spec_lp(g) + spec_lp(y) + spec_lp(x));
        let r1 = spec_lp(q) + spec_lp(g) + spec_lp(y) + spec_lp(x);
        assert(r1 =~= spec_lp(q) + (spec_lp(g) + spec_lp(y) + spec_lp(x)));
        lemma_parse_lp_of_lp(q, spec_lp(g) + spec_lp(y) + spec_lp(x));
        let r2 = spec_lp(g) + spec_lp(y) + spec_lp(x);
        assert(r2 =~= spec_lp(g) + (spec_lp(y) + spec_lp(x)));
        lemma_parse_lp_of_lp(g, spec_lp(y) + spec_lp(x));
        lemma_parse_lp_of_lp(y, spec_lp(x));
        assert(spec_lp(x) =~= spec_lp(x) + Seq::<u8>::empty());
        lemma_parse_lp_of_lp(x, Seq::<u8>::empty());
        assert(spec_decode_private(s)->Ok_0 =~= v);
    }
}

proof fn lemma_private_round_trip_ed25519(v: PrivateKeyView)
    requires
        v.wf(),
        v is Ed25519,
    ensures
        spec_decode_private(v.spec_encode()) == Ok::<PrivateKeyView, ProtoError>(v),
{
    broadcast use lemma_u32_be_len;

    reveal_strlit("ssh-dss");
    reveal_strlit("ssh-ed25519");
    let s = v.spec_encode();
    lemma_encode_embeds_tag(v);
    if let PrivateKeyView::Ed25519 { enc_a, k_enc_a } = v {
        let tagb = str_bytes(v.spec_tag());
        assert(tagb.len() == 11 && str_bytes("ssh-dss"@).len() == 7);
        assert(tagb != str_bytes("ssh-dss"@));
        assert(tagb == str_bytes("ssh-ed25519"@));
        let fields = v.spec_fields();
        assert(fields =~= spec_lp(enc_a) + spec_lp(k_enc_a));
        lemma_parse_lp_of_lp(enc_a, spec_lp(k_enc_a));
        assert(spec_lp(k_enc_a) =~= spec_lp(k_enc_a) + Seq::<u8>::empty());
        lemma_parse_lp_of_lp(k_enc_a, Seq::<u8>::empty());
        assert(spec_decode_private(s)->Ok_0 =~= v);
    }
}

proof fn lemma_private_round_trip_rsa(v: PrivateKeyView)
    requires
        v.wf(),
        v is Rsa,
    ensures
        spec_decode_private(v.spec_encode()) == Ok::<PrivateKeyView, ProtoError>(v),
{
    broadcast use lemma_u32_be_len;

    reveal_strlit("ssh-dss");
    reveal_strlit("ssh-ed25519");
    reveal_strlit("ssh-rsa");
    let s = v.spec_encode();
    lemma_encode_embeds_tag(v);
    if let PrivateKeyView::Rsa { n, e, d, iqmp, p, q } = v {
        let tagb = str_bytes(v.spec_tag());
        assert(str_bytes("ssh-rsa"@)[4] == 'r' as u8 && str_bytes("ssh-dss"@)[4] == 'd' as u8);
        assert(tagb != str_bytes("ssh-dss"@));
        assert(tagb.len() == 7 && str_bytes("ssh-ed25519"@).len() == 11);
        assert(tagb != str_bytes("ssh-ed25519"@));
        assert(tagb == str_bytes("ssh-rsa"@));
        lemma_rsa_fields_parse(n, e, d, iqmp, p, q);
        assert(spec_decode_private(s)->Ok_0 =~= v);
    }
}

proof fn lemma_rsa_fields_parse(n: Seq<u8>, e: Seq<u8>, d: Seq<u8>, iqmp: Seq<u8>, p: Seq<u8>, q: Seq<u8>)
    requires
        mpint_wf(n),
        mpint_wf(e),
        mpint_wf(d),
        mpint_wf(iqmp),
        mpint_wf(p),
        mpint_wf(q),
    ensures
        spec_decode_rsa_private(spec_lp(n) + spec_lp(e) + spec_lp(d) + spec_lp(iqmp) + spec_lp(p)
            + spec_lp(q)) == Ok::<PrivateKeyView, ProtoError>(
            PrivateKeyView::Rsa { n, e, d, iqmp, p, q },
        ),
{
    broadcast use lemma_u32_be_len;

    let fields = spec_lp(n) + spec_lp(e) + spec_lp(d) + spec_lp(iqmp) + spec_lp(p) + spec_lp(q);
    let r1 = spec_lp(e) + spec_lp(d) + spec_lp(iqmp) + spec_lp(p) + spec_lp(q);
    let r2 = spec_lp(d) + spec_lp(iqmp) + spec_lp(p) + spec_lp(q);
    let r3 = spec_lp(iqmp) + spec_lp(p) + spec_lp(q);
    let r4 = spec_lp(p) + spec_lp(q);
    let r5 = spec_lp(q);
    assert(fields =~= spec_lp(n) + r1);
    lemma_parse_lp_of_lp(n, r1);
    assert(spec_parse_lp(fields) == Some((n, r1)));
    assert(r1 =~= spec_lp(e) + r2);
    lemma_parse_lp_of_lp(e, r2);
    assert(spec_parse_lp(r1) == Some((e, r2)));
    assert(r2 =~= spec_lp(d) + r3);
    lemma_parse_lp_of_lp(d, r3);
    assert(spec_parse_lp(r2) == Some((d, r3)));
    assert(r3 =~= spec_lp(iqmp) + r4);
    lemma_parse_lp_of_lp(iqmp, r4);
    assert(spec_parse_lp(r3) == Some((iqmp, r4)));
    lemma_parse_lp_of_lp(p, r5);
    assert(spec_parse_lp(r4) == Some((p, r5)));
    assert(r5 =~= spec_lp(q) + Seq::<u8>::empty());
    lemma_parse_lp_of_lp(q, Seq::<u8>::empty());
    assert(spec_parse_lp(r5) == Some((q, Seq::<u8>::empty())));
    assert(spec_decode_rsa_private(fields) =~= Ok::<PrivateKeyView, ProtoError>(
        PrivateKeyView::Rsa { n, e, d, iqmp, p, q },
    ));
}

proof fn lemma_private_round_trip_ecdsa(v: PrivateKeyView)
    requires
        v.wf(),
        v is EcDsa,
    ensures
        spec_decode_private(v.spec_encode()) == Ok::<PrivateKeyView, ProtoError>(v),
{
    broadcast use lemma_u32_be_len;

    reveal_strlit("ssh-dss");
    reveal_strlit("ssh-ed25519");
    reveal_strlit("ssh-rsa");
    reveal_strlit("ecdsa-sha2-");
    let s = v.spec_encode();
    lemma_encode_embeds_tag(v);
    if let PrivateKeyView::EcDsa { identifier, q, d } = v {
        let tagb = str_bytes(v.spec_tag());
        assert(tagb.len() == 11 + identifier.len());
        assert(str_bytes("ssh-dss"@).len() == 7 && str_bytes("ssh-rsa"@).len() == 7);
        assert(tagb != str_bytes("ssh-dss"@));
        assert(tagb[0] == 'e' as u8 && str_bytes("ssh-ed25519"@)[0] == 's' as u8);
        assert(tagb != str_bytes("ssh-ed25519"@));
        assert(tagb != str_bytes("ssh-rsa"@));
        assert(tagb.len() >= "ecdsa-sha2-"@.len());
        assert(tagb.subrange(0, "ecdsa-sha2-"@.len() as int) =~= str_bytes("ecdsa-sha2-"@));
        let idb = str_bytes(identifier);
        let fields = v.spec_fields();
        assert(fields =~= spec_lp(idb) + (spec_lp(q) + spec_lp(d)));
        lemma_parse_lp_of_lp(idb, spec_lp(q) + spec_lp(d));
        vstd::utf8::is_ascii_chars_nat_bound(identifier);
        assert(ascii_bytes(idb));
        assert(bytes_chars(idb) =~= identifier);
        lemma_parse_lp_of_lp(q, spec_lp(d));
        assert(spec_lp(d) =~= spec_lp(d) + Seq::<u8>::empty());
        lemma_parse_lp_of_lp(d, Seq::<u8>::empty());
        assert(spec_decode_private(s)->Ok_0 =~= v);
    }
}

/// The five DSA fields read from the front of `s`.
pub open spec fn spec_decode_dss_private(s: Seq<u8>) -> Result<PrivateKeyView, ProtoError> {
    match spec_parse_lp(s) {
        Option::None => Err(ProtoError::Truncated),
        Option::Some(t1) => match spec_parse_lp(t1.1) {
            Option::None => Err(ProtoError::Truncated),
            Option::Some(t2) => match spec_parse_lp(t2.1) {
                Option::None => Err(ProtoError::Truncated),
                Option::Some(t3) => match spec_parse_lp(t3.1) {
                    Option::None => Err(ProtoError::Truncated),
                    Option::Some(t4) => match spec_parse_lp(t4.1) {
                        Option::None => Err(ProtoError::Truncated),
                        Option::Some(t5) => Ok(
                            PrivateKeyView::Dss {
                                p: t1.0,
                                q: t2.0,
                                g: t3.0,
                                y: t4.0,
                                x: t5.0,
                            },
                        ),
                    },
                },
            },
        },
    }
}

/// The two Ed25519 fields read from the front of `s`.
pub open spec fn spec_decode_ed25519_private(s: Seq<u8>) -> Result<PrivateKeyView, ProtoError> {
    match spec_parse_lp(s) {
        Option::None => Err(ProtoError::Truncated),
        Option::Some(t1) => match spec_parse_lp(t1.1) {
            Option::None => Err(ProtoError::Truncated),
            Option::Some(t2) => Ok(PrivateKeyView::Ed25519 { enc_a: t1.0, k_enc_a: t2.0 }),
        },
    }
}

/// The six RSA fields read from the front of `s`.
pub open spec fn spec_decode_rsa_private(s: Seq<u8>) -> Result<PrivateKeyView, ProtoError> {
    match spec_parse_lp(s) {
        Option::None => Err(ProtoError::Truncated),
        Option::Some(t1) => match spec_parse_lp(t1.1) {
            Option::None => Err(ProtoError::Truncated),
            Option::Some(t2) => match spec_parse_lp(t2.1) {
                Option::None => Err(ProtoError::Truncated),
                Option::Some(t3) => match spec_parse_lp(t3.1) {
                    Option::None => Err(ProtoError::Truncated),
                    Option::Some(t4) => match spec_parse_lp(t4.1) {
                        Option::None => Err(ProtoError::Truncated),
                        Option::Some(t5) => match spec_parse_lp(t5.1) {
                            Option::None => Err(ProtoError::Truncated),
                            Option::Some(t6) => Ok(
                                PrivateKeyView::Rsa {
                                    n: t1.0,
                                    e: t2.0,
                                    d: t3.0,
                                    iqmp: t4.0,
                                    p: t5.0,
                                    q: t6.0,
                                },
                            ),
                        },
                    },
                },
            },
        },
    }
}

/// The three ECDSA fields read from the front of `s`: the curve identifier
/// string (which must be ASCII), then the q and d MPInts.
pub open spec fn spec_decode_ecdsa_private(s: Seq<u8>) -> Result<PrivateKeyView, ProtoError> {
    match spec_parse_lp(s) {
        Option::None => Err(ProtoError::Truncated),
        Option::Some(t1) => {
            if !ascii_bytes(t1.0) {
                Err(ProtoError::MalformedField)
            } else {
                match spec_parse_lp(t1.1) {
                    Option::None => Err(ProtoError::Truncated),
                    Option::Some(t2) => match spec_parse_lp(t2.1) {
                        Option::None => Err(ProtoError::Truncated),
                        Option::Some(t3) => Ok(
                            PrivateKeyView::EcDsa {
                                identifier: bytes_chars(t1.0),
                                q: t2.0,
                                d: t3.0,
                            },
                        ),
                    },
                }
            }
        },
    }
}

} // verus!