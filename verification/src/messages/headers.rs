//! The two headers of a message: the transformation header, which
//! describes the outer JOSE-style envelope, and the identity header, which
//! carries the protocol's own metadata.

use vstd::prelude::*;
use crate::error::EnvelopeError;
use super::prior_claims::{PriorClaims, PriorClaimsView};
use super::texts::{copy_optional_text, copy_texts, same_text};
use super::types::{ContentType, MessageType};

verus! {

/// The signature algorithm of the protocol: ECDSA over P-256 with SHA-256.
pub open spec fn signature_algorithm() -> Seq<char> {
    "ES256"@
}

/// The key-management algorithm of the protocol: a key agreed on an
/// elliptic curve wraps the content key with AES-256 key wrap.
pub open spec fn key_wrap_algorithm() -> Seq<char> {
    "ECDH-ES+A256KW"@
}

/// The content-encryption algorithm of the protocol: XChaCha20-Poly1305,
/// the 256-bit authenticated cipher that takes a 24-byte nonce.
pub open spec fn content_encryption() -> Seq<char> {
    "XC20P"@
}

/// An ephemeral public key in JWK form, as the sender of an encrypted
/// envelope publishes it for key agreement.
#[derive(Debug, PartialEq, Eq)]
pub struct EphemeralKey {
    kty: String,
    crv: String,
    x: String,
    y: Option<String>,
}

/// What an ephemeral public key holds.
pub struct EphemeralKeyView {
    /// The key type.
    pub kty: Seq<char>,
    /// The curve.
    pub crv: Seq<char>,
    /// The first coordinate, base64url.
    pub x: Seq<char>,
    /// The second coordinate, base64url, on curves that have one.
    pub y: Option<Seq<char>>,
}

impl View for EphemeralKey {
    type V = EphemeralKeyView;

    closed spec fn view(&self) -> EphemeralKeyView {
        EphemeralKeyView { kty: self.kty@, crv: self.crv@, x: self.x@, y: self.y.deep_view() }
    }
}

impl EphemeralKey {
    /// A key with one coordinate.
    pub fn new(kty: String, crv: String, x: String) -> (r: EphemeralKey)
        ensures
            r@ == (EphemeralKeyView { kty: kty@, crv: crv@, x: x@, y: None }),
    {
        EphemeralKey { kty, crv, x, y: None }
    }

    /// The same key with the second coordinate `y`.
    pub fn with_y(self, y: String) -> (r: EphemeralKey)
        ensures
            r@ == (EphemeralKeyView { y: Some(y@), ..self@ }),
    {
        EphemeralKey { kty: self.kty, crv: self.crv, x: self.x, y: Some(y) }
    }

    /// The key type.
    pub fn kty(&self) -> (r: &String)
        ensures
            r@ == self@.kty,
    {
        &self.kty
    }

    /// The curve.
    pub fn crv(&self) -> (r: &String)
        ensures
            r@ == self@.crv,
    {
        &self.crv
    }

    /// The first coordinate.
    pub fn x(&self) -> (r: &String)
        ensures
            r@ == self@.x,
    {
        &self.x
    }

    /// The second coordinate, if the key has one.
    pub fn y(&self) -> (r: &Option<String>)
        ensures
            r.deep_view() == self@.y,
    {
        &self.y
    }
}

impl Clone for EphemeralKey {
    fn clone(&self) -> (r: EphemeralKey)
        ensures
            r@ == self@,
    {
        EphemeralKey {
            kty: self.kty.clone(),
            crv: self.crv.clone(),
            x: self.x.clone(),
            y: copy_optional_text(&self.y),
        }
    }
}

/// The view of an optional ephemeral key.
pub open spec fn optional_key_view(key: Option<EphemeralKey>) -> Option<EphemeralKeyView> {
    match key {
        Some(k) => Some(k@),
        None => None,
    }
}

/// The view of an optional rotation claim.
pub open spec fn optional_claims_view(claims: Option<PriorClaims>) -> Option<PriorClaimsView> {
    match claims {
        Some(c) => Some(c@),
        None => None,
    }
}

/// The transformation header: what the outer envelope says of itself.
#[derive(Debug, PartialEq, Eq)]
pub struct JwmHeader {
    typ: MessageType,
    enc: Option<String>,
    kid: Option<String>,
    epk: Option<EphemeralKey>,
    alg: Option<String>,
    cty: Option<ContentType>,
    iv: Option<String>,
}

/// What a transformation header holds.
pub struct JwmHeaderView {
    /// The envelope type.
    pub typ: MessageType,
    /// The content-encryption algorithm.
    pub enc: Option<Seq<char>>,
    /// The key identifier.
    pub kid: Option<Seq<char>>,
    /// The ephemeral public key.
    pub epk: Option<EphemeralKeyView>,
    /// The signature or key-management algorithm.
    pub alg: Option<Seq<char>>,
    /// The type of the payload.
    pub cty: Option<ContentType>,
    /// The nonce, base64url.
    pub iv: Option<Seq<char>>,
}

impl JwmHeaderView {
    /// The header of a plain envelope, with every optional field absent.
    pub open spec fn plain() -> JwmHeaderView {
        JwmHeaderView {
            typ: MessageType::DidcommRaw,
            enc: None,
            kid: None,
            epk: None,
            alg: None,
            cty: None,
            iv: None,
        }
    }

    /// This header set up for signing. The algorithm fields say "signed";
    /// a key identifier or an ephemeral key that is given replaces the one
    /// held, and one that is not given leaves it as it is.
    pub open spec fn signing(
        self,
        kid: Option<Seq<char>>,
        epk: Option<EphemeralKeyView>,
    ) -> JwmHeaderView {
        JwmHeaderView {
            typ: MessageType::DidcommJws,
            alg: Some(signature_algorithm()),
            enc: None,
            kid: if kid is Some { kid } else { self.kid },
            epk: if epk is Some { epk } else { self.epk },
            ..self
        }
    }

    /// This header set up for encryption. The algorithm fields say
    /// "encrypted"; a key identifier or an ephemeral key that is given
    /// replaces the one held, and one that is not given leaves it as it is.
    pub open spec fn encryption(
        self,
        kid: Option<Seq<char>>,
        epk: Option<EphemeralKeyView>,
    ) -> JwmHeaderView {
        JwmHeaderView {
            typ: MessageType::DidcommJwe,
            alg: Some(key_wrap_algorithm()),
            enc: Some(content_encryption()),
            kid: if kid is Some { kid } else { self.kid },
            epk: if epk is Some { epk } else { self.epk },
            ..self
        }
    }
}

impl View for JwmHeader {
    type V = JwmHeaderView;

    closed spec fn view(&self) -> JwmHeaderView {
        JwmHeaderView {
            typ: self.typ,
            enc: self.enc.deep_view(),
            kid: self.kid.deep_view(),
            epk: optional_key_view(self.epk),
            alg: self.alg.deep_view(),
            cty: self.cty,
            iv: self.iv.deep_view(),
        }
    }
}

impl Default for JwmHeader {
    /// The header of a plain envelope.
    fn default() -> (r: JwmHeader)
        ensures
            r@ == JwmHeaderView::plain(),
    {
        JwmHeader {
            typ: MessageType::DidcommRaw,
            enc: None,
            kid: None,
            epk: None,
            alg: None,
            cty: None,
            iv: None,
        }
    }
}

impl JwmHeader {
    /// Sets the header up for an ES256 signature.
    pub fn as_es256(self, kid: Option<String>, epk: Option<EphemeralKey>) -> (r: JwmHeader)
        ensures
            r@ == self@.signing(kid.deep_view(), optional_key_view(epk)),
    {
        JwmHeader {
            typ: MessageType::DidcommJws,
            alg: Some("ES256".to_owned()),
            enc: None,
            kid: if kid.is_some() { kid } else { self.kid },
            epk: if epk.is_some() { epk } else { self.epk },
            cty: self.cty,
            iv: self.iv,
        }
    }

    /// Sets the header up for XChaCha20-Poly1305 under a wrapped content
    /// key.
    pub fn as_xc20p(self, kid: Option<String>, epk: Option<EphemeralKey>) -> (r: JwmHeader)
        ensures
            r@ == self@.encryption(kid.deep_view(), optional_key_view(epk)),
    {
        JwmHeader {
            typ: MessageType::DidcommJwe,
            alg: Some("ECDH-ES+A256KW".to_owned()),
            enc: Some("XC20P".to_owned()),
            kid: if kid.is_some() { kid } else { self.kid },
            epk: if epk.is_some() { epk } else { self.epk },
            cty: self.cty,
            iv: self.iv,
        }
    }

    /// The same header with the payload type `cty`.
    pub fn with_content_type(self, cty: ContentType) -> (r: JwmHeader)
        ensures
            r@ == (JwmHeaderView { cty: Some(cty), ..self@ }),
    {
        JwmHeader {
            typ: self.typ,
            enc: self.enc,
            kid: self.kid,
            epk: self.epk,
            alg: self.alg,
            cty: Some(cty),
            iv: self.iv,
        }
    }

    /// The same header with the nonce `iv`, given in base64url.
    pub fn with_nonce(self, iv: String) -> (r: JwmHeader)
        ensures
            r@ == (JwmHeaderView { iv: Some(iv@), ..self@ }),
    {
        JwmHeader {
            typ: self.typ,
            enc: self.enc,
            kid: self.kid,
            epk: self.epk,
            alg: self.alg,
            cty: self.cty,
            iv: Some(iv),
        }
    }

    /// The envelope type.
    pub fn typ(&self) -> (r: MessageType)
        ensures
            r == self@.typ,
    {
        self.typ
    }

    /// The content-encryption algorithm.
    pub fn enc(&self) -> (r: &Option<String>)
        ensures
            r.deep_view() == self@.enc,
    {
        &self.enc
    }

    /// The key identifier.
    pub fn kid(&self) -> (r: &Option<String>)
        ensures
            r.deep_view() == self@.kid,
    {
        &self.kid
    }

    /// The ephemeral public key.
    pub fn epk(&self) -> (r: &Option<EphemeralKey>)
        ensures
            optional_key_view(*r) == self@.epk,
    {
        &self.epk
    }

    /// The signature or key-management algorithm.
    pub fn alg(&self) -> (r: &Option<String>)
        ensures
            r.deep_view() == self@.alg,
    {
        &self.alg
    }

    /// The type of the payload.
    pub fn cty(&self) -> (r: Option<ContentType>)
        ensures
            r == self@.cty,
    {
        self.cty
    }

    /// The nonce, in base64url.
    pub fn iv(&self) -> (r: &Option<String>)
        ensures
            r.deep_view() == self@.iv,
    {
        &self.iv
    }
}

impl Clone for JwmHeader {
    fn clone(&self) -> (r: JwmHeader)
        ensures
            r@ == self@,
    {
        JwmHeader {
            typ: self.typ,
            enc: copy_optional_text(&self.enc),
            kid: copy_optional_text(&self.kid),
            epk: match &self.epk {
                Some(key) => Some(key.clone()),
                None => None,
            },
            alg: copy_optional_text(&self.alg),
            cty: self.cty,
            iv: copy_optional_text(&self.iv),
        }
    }
}

/// The value of an extension field of the identity header.
#[derive(Debug, PartialEq, Eq)]
pub enum ExtensionValue {
    /// The JSON `null`.
    Null,
    /// A JSON boolean.
    Flag(bool),
    /// A non-negative JSON integer.
    Number(u64),
    /// A JSON string.
    Text(String),
}

/// What an extension value holds.
pub enum ExtensionValueView {
    /// The JSON `null`.
    Null,
    /// A JSON boolean.
    Flag(bool),
    /// A non-negative JSON integer.
    Number(u64),
    /// A JSON string.
    Text(Seq<char>),
}

impl View for ExtensionValue {
    type V = ExtensionValueView;

    open spec fn view(&self) -> ExtensionValueView {
        match self {
            ExtensionValue::Null => ExtensionValueView::Null,
            ExtensionValue::Flag(b) => ExtensionValueView::Flag(*b),
            ExtensionValue::Number(n) => ExtensionValueView::Number(*n),
            ExtensionValue::Text(t) => ExtensionValueView::Text(t@),
        }
    }
}

impl Clone for ExtensionValue {
    fn clone(&self) -> (r: ExtensionValue)
        ensures
            r@ == self@,
    {
        match self {
            ExtensionValue::Null => ExtensionValue::Null,
            ExtensionValue::Flag(b) => ExtensionValue::Flag(*b),
            ExtensionValue::Number(n) => ExtensionValue::Number(*n),
            ExtensionValue::Text(t) => ExtensionValue::Text(t.clone()),
        }
    }
}

/// The extension fields of a header, in the order in which they were
/// first set.
pub type ExtensionsView = Seq<(Seq<char>, ExtensionValueView)>;

/// The view of a list of extension fields.
pub open spec fn extensions_view(fields: Seq<(String, ExtensionValue)>) -> ExtensionsView {
    Seq::new(fields.len(), |i: int| (fields[i].0@, fields[i].1@))
}

/// Whether `name` is one of the field names that the protocol fixes, which
/// no extension field may take.
pub open spec fn is_reserved_name(name: Seq<char>) -> bool {
    ||| name == "typ"@
    ||| name == "enc"@
    ||| name == "kid"@
    ||| name == "epk"@
    ||| name == "alg"@
    ||| name == "cty"@
    ||| name == "iv"@
    ||| name == "id"@
    ||| name == "type"@
    ||| name == "to"@
    ||| name == "from"@
    ||| name == "created_time"@
    ||| name == "expires_time"@
    ||| name == "thid"@
    ||| name == "pthid"@
    ||| name == "from_prior"@
}

/// Whether a field named `name` is among `fields`.
pub open spec fn has_extension(fields: ExtensionsView, name: Seq<char>) -> bool {
    exists|i: int| 0 <= i < fields.len() && (#[trigger] fields[i]).0 == name
}

/// The invariant of the extension fields: no name is reserved, and no name
/// occurs twice.
pub open spec fn extension_names_valid(fields: ExtensionsView) -> bool {
    &&& forall|i: int| 0 <= i < fields.len() ==> !is_reserved_name((#[trigger] fields[i]).0)
    &&& forall|i: int, j: int|
        0 <= i < j < fields.len() ==> (#[trigger] fields[i]).0 != (#[trigger] fields[j]).0
}

/// The extension fields after `name` is set to `value`: a field of that
/// name keeps its place and takes the value, a new name goes to the end.
pub open spec fn set_extension(
    fields: ExtensionsView,
    name: Seq<char>,
    value: ExtensionValueView,
) -> ExtensionsView {
    if has_extension(fields, name) {
        let at = choose|i: int| 0 <= i < fields.len() && (#[trigger] fields[i]).0 == name;
        fields.update(at, (name, value))
    } else {
        fields.push((name, value))
    }
}

/// The identity header: the protocol's own metadata of a message.
#[derive(Debug, PartialEq, Eq)]
pub struct DidcommHeader {
    id: String,
    m_type: Option<ContentType>,
    to: Vec<String>,
    from: Option<String>,
    created_time: Option<usize>,
    expires_time: Option<usize>,
    thid: Option<String>,
    pthid: Option<String>,
    from_prior: Option<PriorClaims>,
    extensions: Vec<(String, ExtensionValue)>,
}

/// What an identity header holds.
pub struct DidcommHeaderView {
    /// The message identifier.
    pub id: Seq<char>,
    /// The type of the payload.
    pub m_type: Option<ContentType>,
    /// The recipient identities, in order.
    pub to: Seq<Seq<char>>,
    /// The sender identity.
    pub from: Option<Seq<char>>,
    /// When the message was created, in seconds since the epoch.
    pub created_time: Option<usize>,
    /// When the message stops being valid, in seconds since the epoch.
    pub expires_time: Option<usize>,
    /// The thread identifier.
    pub thid: Option<Seq<char>>,
    /// The parent thread identifier.
    pub pthid: Option<Seq<char>>,
    /// The rotation claim.
    pub from_prior: Option<PriorClaimsView>,
    /// The extension fields, in the order in which they were first set.
    pub extensions: ExtensionsView,
}

impl DidcommHeaderView {
    /// The header with an empty identifier, no recipient, and every
    /// optional field absent.
    pub open spec fn empty() -> DidcommHeaderView {
        DidcommHeaderView {
            id: Seq::empty(),
            m_type: None,
            to: Seq::empty(),
            from: None,
            created_time: None,
            expires_time: None,
            thid: None,
            pthid: None,
            from_prior: None,
            extensions: Seq::empty(),
        }
    }

    /// The header of a forwarding instruction.
    pub open spec fn forward(
        to: Seq<Seq<char>>,
        from: Seq<char>,
        expires_time: Option<usize>,
    ) -> DidcommHeaderView {
        DidcommHeaderView {
            m_type: Some(ContentType::Forward),
            to,
            from: Some(from),
            expires_time,
            ..DidcommHeaderView::empty()
        }
    }
}

impl View for DidcommHeader {
    type V = DidcommHeaderView;

    closed spec fn view(&self) -> DidcommHeaderView {
        DidcommHeaderView {
            id: self.id@,
            m_type: self.m_type,
            to: self.to.deep_view(),
            from: self.from.deep_view(),
            created_time: self.created_time,
            expires_time: self.expires_time,
            thid: self.thid.deep_view(),
            pthid: self.pthid.deep_view(),
            from_prior: optional_claims_view(self.from_prior),
            extensions: extensions_view(self.extensions@),
        }
    }
}

/// Whether `name` is one of the field names that the protocol fixes.
fn reserved_name(name: &str) -> (r: bool)
    ensures
        r == is_reserved_name(name@),
{
    same_text(name, "typ") || same_text(name, "enc") || same_text(name, "kid") || same_text(
        name,
        "epk",
    ) || same_text(name, "alg") || same_text(name, "cty") || same_text(name, "iv") || same_text(
        name,
        "id",
    ) || same_text(name, "type") || same_text(name, "to") || same_text(name, "from") || same_text(
        name,
        "created_time",
    ) || same_text(name, "expires_time") || same_text(name, "thid") || same_text(name, "pthid")
        || same_text(name, "from_prior")
}

impl DidcommHeader {
    #[verifier::type_invariant]
    pub open spec fn names_valid(self) -> bool {
        extension_names_valid(self@.extensions)
    }

    /// The empty header.
    pub fn new() -> (r: DidcommHeader)
        ensures
            r@ == DidcommHeaderView::empty(),
    {
        let r = DidcommHeader {
            id: String::new(),
            m_type: None,
            to: Vec::new(),
            from: None,
            created_time: None,
            expires_time: None,
            thid: None,
            pthid: None,
            from_prior: None,
            extensions: Vec::new(),
        };
        assert(r@.to =~= Seq::empty());
        assert(r@.extensions =~= Seq::empty());
        r
    }

    /// The header of a forwarding instruction from `from` to the next hops
    /// `to`, valid until `expires_time`.
    pub fn forward(to: Vec<String>, from: String, expires_time: Option<usize>) -> (r:
        DidcommHeader)
        ensures
            r@ == DidcommHeaderView::forward(to.deep_view(), from@, expires_time),
    {
        let r = DidcommHeader {
            id: String::new(),
            m_type: Some(ContentType::Forward),
            to,
            from: Some(from),
            created_time: None,
            expires_time,
            thid: None,
            pthid: None,
            from_prior: None,
            extensions: Vec::new(),
        };
        assert(r@.extensions =~= Seq::empty());
        r
    }

    /// The same header under the identifier `id`.
    pub fn with_id(self, id: String) -> (r: DidcommHeader)
        ensures
            r@ == (DidcommHeaderView { id: id@, ..self@ }),
    {
        proof {
            use_type_invariant(&self);
        }
        DidcommHeader {
            id,
            m_type: self.m_type,
            to: self.to,
            from: self.from,
            created_time: self.created_time,
            expires_time: self.expires_time,
            thid: self.thid,
            pthid: self.pthid,
            from_prior: self.from_prior,
            extensions: self.extensions,
        }
    }

    /// The same header with the payload type `m_type`.
    pub fn with_type(self, m_type: ContentType) -> (r: DidcommHeader)
        ensures
            r@ == (DidcommHeaderView { m_type: Some(m_type), ..self@ }),
    {
        proof {
            use_type_invariant(&self);
        }
        DidcommHeader {
            id: self.id,
            m_type: Some(m_type),
            to: self.to,
            from: self.from,
            created_time: self.created_time,
            expires_time: self.expires_time,
            thid: self.thid,
            pthid: self.pthid,
            from_prior: self.from_prior,
            extensions: self.extensions,
        }
    }

    /// The same header addressed to the recipients `to`.
    pub fn with_to(self, to: Vec<String>) -> (r: DidcommHeader)
        ensures
            r@ == (DidcommHeaderView { to: to.deep_view(), ..self@ }),
    {
        proof {
            use_type_invariant(&self);
        }
        DidcommHeader {
            id: self.id,
            m_type: self.m_type,
            to,
            from: self.from,
            created_time: self.created_time,
            expires_time: self.expires_time,
            thid: self.thid,
            pthid: self.pthid,
            from_prior: self.from_prior,
            extensions: self.extensions,
        }
    }

    /// The same header sent by `from`.
    pub fn with_from(self, from: String) -> (r: DidcommHeader)
        ensures
            r@ == (DidcommHeaderView { from: Some(from@), ..self@ }),
    {
        proof {
            use_type_invariant(&self);
        }
        DidcommHeader {
            id: self.id,
            m_type: self.m_type,
            to: self.to,
            from: Some(from),
            created_time: self.created_time,
            expires_time: self.expires_time,
            thid: self.thid,
            pthid: self.pthid,
            from_prior: self.from_prior,
            extensions: self.extensions,
        }
    }

    /// The same header created at `created_time`.
    pub fn with_created_time(self, created_time: usize) -> (r: DidcommHeader)
        ensures
            r@ == (DidcommHeaderView { created_time: Some(created_time), ..self@ }),
    {
        proof {
            use_type_invariant(&self);
        }
        DidcommHeader {
            id: self.id,
            m_type: self.m_type,
            to: self.to,
            from: self.from,
            created_time: Some(created_time),
            expires_time: self.expires_time,
            thid: self.thid,
            pthid: self.pthid,
            from_prior: self.from_prior,
            extensions: self.extensions,
        }
    }

    /// The same header valid until `expires_time`.
    pub fn with_expires_time(self, expires_time: usize) -> (r: DidcommHeader)
        ensures
            r@ == (DidcommHeaderView { expires_time: Some(expires_time), ..self@ }),
    {
        proof {
            use_type_invariant(&self);
        }
        DidcommHeader {
            id: self.id,
            m_type: self.m_type,
            to: self.to,
            from: self.from,
            created_time: self.created_time,
            expires_time: Some(expires_time),
            thid: self.thid,
            pthid: self.pthid,
            from_prior: self.from_prior,
            extensions: self.extensions,
        }
    }

    /// The same header in the thread `thid`.
    pub fn with_thread(self, thid: String) -> (r: DidcommHeader)
        ensures
            r@ == (DidcommHeaderView { thid: Some(thid@), ..self@ }),
    {
        proof {
            use_type_invariant(&self);
        }
        DidcommHeader {
            id: self.id,
            m_type: self.m_type,
            to: self.to,
            from: self.from,
            created_time: self.created_time,
            expires_time: self.expires_time,
            thid: Some(thid),
            pthid: self.pthid,
            from_prior: self.from_prior,
            extensions: self.extensions,
        }
    }

    /// The same header under the parent thread `pthid`.
    pub fn with_parent_thread(self, pthid: String) -> (r: DidcommHeader)
        ensures
            r@ == (DidcommHeaderView { pthid: Some(pthid@), ..self@ }),
    {
        proof {
            use_type_invariant(&self);
        }
        DidcommHeader {
            id: self.id,
            m_type: self.m_type,
            to: self.to,
            from: self.from,
            created_time: self.created_time,
            expires_time: self.expires_time,
            thid: self.thid,
            pthid: Some(pthid),
            from_prior: self.from_prior,
            extensions: self.extensions,
        }
    }

    /// The same header carrying the rotation claim `claims`.
    pub fn with_prior(self, claims: PriorClaims) -> (r: DidcommHeader)
        ensures
            r@ == (DidcommHeaderView { from_prior: Some(claims@), ..self@ }),
    {
        proof {
            use_type_invariant(&self);
        }
        DidcommHeader {
            id: self.id,
            m_type: self.m_type,
            to: self.to,
            from: self.from,
            created_time: self.created_time,
            expires_time: self.expires_time,
            thid: self.thid,
            pthid: self.pthid,
            from_prior: Some(claims),
            extensions: self.extensions,
        }
    }

    /// The same header with the extension field `name` set to `value`.
    ///
    /// A name that the protocol fixes is refused. A field of that name
    /// keeps its place among the extension fields and takes the new value;
    /// a new name goes to the end.
    pub fn with_extension(self, name: String, value: ExtensionValue) -> (r: Result<
        DidcommHeader,
        EnvelopeError,
    >)
        ensures
            is_reserved_name(name@) ==> r == Err::<DidcommHeader, EnvelopeError>(
                EnvelopeError::ReservedFieldName,
            ),
            !is_reserved_name(name@) ==> r is Ok && r->Ok_0@ == (DidcommHeaderView {
                extensions: set_extension(self@.extensions, name@, value@),
                ..self@
            }),
    {
        proof {
            use_type_invariant(&self);
        }
        if reserved_name(name.as_str()) {
            return Err(EnvelopeError::ReservedFieldName);
        }
        let ghost before = self@.extensions;
        let ghost wanted = set_extension(before, name@, value@);
        let mut extensions = self.extensions;
        let mut i: usize = 0;
        while i < extensions.len() && !same_text(extensions[i].0.as_str(), name.as_str())
            invariant
                i <= extensions.len(),
                extensions_view(extensions@) == before,
                forall|k: int| 0 <= k < i ==> (#[trigger] before[k]).0 != name@,
            decreases extensions.len() - i,
        {
            i += 1;
        }
        if i < extensions.len() {
            proof {
                let at = choose|k: int| 0 <= k < before.len() && (#[trigger] before[k]).0 == name@;
                assert(before[i as int].0 == name@);
                if at < i {
                    assert(before[at].0 != before[i as int].0);
                } else if i < at {
                    assert(before[i as int].0 != before[at].0);
                }
                assert(at == i);
            }
            extensions.set(i, (name, value));
        } else {
            extensions.push((name, value));
        }
        assert(extensions_view(extensions@) =~= wanted);
        assert(extension_names_valid(wanted)) by {
            assert forall|a: int, b: int| 0 <= a < b < wanted.len() implies (#[trigger] wanted[a]).0
                != (#[trigger] wanted[b]).0 by {
                if i < before.len() {
                    if a != i && b != i {
                        assert(before[a].0 != before[b].0);
                    } else if a == i {
                        assert(before[a].0 != before[b].0);
                    } else {
                        assert(before[a].0 != before[b].0);
                    }
                } else {
                    if b < before.len() {
                        assert(before[a].0 != before[b].0);
                    } else {
                        assert(before[a].0 != name@);
                    }
                }
            }
            assert forall|a: int| 0 <= a < wanted.len() implies !is_reserved_name(
                (#[trigger] wanted[a]).0,
            ) by {
                if a < before.len() && a != i {
                    assert(!is_reserved_name(before[a].0));
                }
            }
        }
        Ok(
            DidcommHeader {
                id: self.id,
                m_type: self.m_type,
                to: self.to,
                from: self.from,
                created_time: self.created_time,
                expires_time: self.expires_time,
                thid: self.thid,
                pthid: self.pthid,
                from_prior: self.from_prior,
                extensions,
            },
        )
    }

    /// The message identifier.
    pub fn id(&self) -> (r: &String)
        ensures
            r@ == self@.id,
    {
        &self.id
    }

    /// The type of the payload.
    pub fn m_type(&self) -> (r: Option<ContentType>)
        ensures
            r == self@.m_type,
    {
        self.m_type
    }

    /// The recipient identities, in order.
    pub fn to(&self) -> (r: &Vec<String>)
        ensures
            r.deep_view() == self@.to,
    {
        &self.to
    }

    /// The sender identity.
    pub fn from(&self) -> (r: &Option<String>)
        ensures
            r.deep_view() == self@.from,
    {
        &self.from
    }

    /// When the message was created.
    pub fn created_time(&self) -> (r: Option<usize>)
        ensures
            r == self@.created_time,
    {
        self.created_time
    }

    /// When the message stops being valid.
    pub fn expires_time(&self) -> (r: Option<usize>)
        ensures
            r == self@.expires_time,
    {
        self.expires_time
    }

    /// The thread identifier.
    pub fn thid(&self) -> (r: &Option<String>)
        ensures
            r.deep_view() == self@.thid,
    {
        &self.thid
    }

    /// The parent thread identifier.
    pub fn pthid(&self) -> (r: &Option<String>)
        ensures
            r.deep_view() == self@.pthid,
    {
        &self.pthid
    }

    /// The rotation claim, if the header carries one.
    pub fn from_prior(&self) -> (r: &Option<PriorClaims>)
        ensures
            optional_claims_view(*r) == self@.from_prior,
    {
        &self.from_prior
    }

    /// The extension fields, in the order in which they were first set.
    /// No name among them is reserved, and none occurs twice.
    pub fn extensions(&self) -> (r: &Vec<(String, ExtensionValue)>)
        ensures
            extensions_view(r@) == self@.extensions,
            extension_names_valid(self@.extensions),
    {
        proof {
            use_type_invariant(self);
        }
        &self.extensions
    }
}

impl Clone for DidcommHeader {
    fn clone(&self) -> (r: DidcommHeader)
        ensures
            r@ == self@,
    {
        proof {
            use_type_invariant(self);
        }
        let mut extensions: Vec<(String, ExtensionValue)> = Vec::new();
        let mut i: usize = 0;
        while i < self.extensions.len()
            invariant
                i <= self.extensions.len(),
                extensions.len() == i,
                forall|k: int|
                    0 <= k < i ==> extensions[k].0@ == self.extensions[k].0@ && extensions[k].1@
                        == self.extensions[k].1@,
            decreases self.extensions.len() - i,
        {
            extensions.push((self.extensions[i].0.clone(), self.extensions[i].1.clone()));
            i += 1;
        }
        assert(extensions_view(extensions@) =~= extensions_view(self.extensions@));
        DidcommHeader {
            id: self.id.clone(),
            m_type: self.m_type,
            to: copy_texts(&self.to),
            from: copy_optional_text(&self.from),
            created_time: self.created_time,
            expires_time: self.expires_time,
            thid: copy_optional_text(&self.thid),
            pthid: copy_optional_text(&self.pthid),
            from_prior: match &self.from_prior {
                Some(claims) => Some(claims.clone()),
                None => None,
            },
            extensions,
        }
    }
}

} // verus!
