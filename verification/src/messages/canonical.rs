//! The canonical form of the headers: the JSON object that goes into the
//! protected segment of an envelope.
//!
//! The object has one member for every field that is present, under the
//! name that the protocol fixes, in this order: `typ`, `enc`, `kid`,
//! `epk`, `alg`, `cty`, `iv` of the transformation header, then `id`,
//! `type`, `to`, `from`, `created_time`, `expires_time`, `thid`, `pthid`,
//! `from_prior` of the identity header, then the extension fields in the
//! order in which they were first set. It holds no white space. The tags
//! of the envelope and payload types are written verbatim; every other
//! text is written as the JSON string literal that `serde_json` makes of
//! it; numbers are written in decimal.
//!
//! The form is defined left to right: each step takes the text written so
//! far, which is `None` once a literal could not be made, and gives the
//! text with one more piece.

use vstd::prelude::*;
use vstd::string::StringExecFns;
use crate::error::EnvelopeError;
use crate::json::{json_quoted, quote_json};
use super::headers::{
    DidcommHeader,
    DidcommHeaderView,
    EphemeralKey,
    EphemeralKeyView,
    ExtensionValue,
    ExtensionValueView,
    ExtensionsView,
    JwmHeader,
    JwmHeaderView,
    extensions_view,
    optional_claims_view,
    optional_key_view,
};
use super::message::Message;
use super::prior_claims::{PriorClaims, PriorClaimsView};
use super::types::ContentType;

verus! {

/// The decimal digit for `d`.
pub open spec fn digit(d: nat) -> char {
    if d == 0 {
        '0'
    } else if d == 1 {
        '1'
    } else if d == 2 {
        '2'
    } else if d == 3 {
        '3'
    } else if d == 4 {
        '4'
    } else if d == 5 {
        '5'
    } else if d == 6 {
        '6'
    } else if d == 7 {
        '7'
    } else if d == 8 {
        '8'
    } else {
        '9'
    }
}

/// The decimal numeral of `n`, without leading zeros.
pub open spec fn decimal(n: nat) -> Seq<char>
    decreases n,
{
    if n < 10 {
        seq![digit(n)]
    } else {
        decimal(n / 10).push(digit(n % 10))
    }
}

/// The text so far followed by `piece`.
pub open spec fn put_raw(so_far: Option<Seq<char>>, piece: Seq<char>) -> Option<Seq<char>> {
    match so_far {
        Some(text) => Some(text + piece),
        None => None,
    }
}

/// The text so far followed by `prefix` and the JSON string literal of
/// `text`.
pub open spec fn put_text(so_far: Option<Seq<char>>, prefix: Seq<char>, text: Seq<char>) -> Option<
    Seq<char>,
> {
    match (so_far, json_quoted(text)) {
        (Some(written), Some(literal)) => Some(written + prefix + literal),
        _ => None,
    }
}

/// As `put_text`, for a text that may be absent: an absent one adds
/// nothing.
pub open spec fn put_optional_text(
    so_far: Option<Seq<char>>,
    prefix: Seq<char>,
    text: Option<Seq<char>>,
) -> Option<Seq<char>> {
    match text {
        Some(t) => put_text(so_far, prefix, t),
        None => so_far,
    }
}

/// The text so far followed by `prefix` and `tag` between quotes.
pub open spec fn put_tag(so_far: Option<Seq<char>>, prefix: Seq<char>, tag: Seq<char>) -> Option<
    Seq<char>,
> {
    match so_far {
        Some(written) => Some(written + prefix + "\""@ + tag + "\""@),
        None => None,
    }
}

/// As `put_tag`, for the tag of a payload type that may be absent.
pub open spec fn put_optional_type(
    so_far: Option<Seq<char>>,
    prefix: Seq<char>,
    content: Option<ContentType>,
) -> Option<Seq<char>> {
    match content {
        Some(c) => put_tag(so_far, prefix, c.tag()),
        None => so_far,
    }
}

/// The text so far followed by `prefix` and the decimal numeral of `n`.
pub open spec fn put_number(so_far: Option<Seq<char>>, prefix: Seq<char>, n: nat) -> Option<
    Seq<char>,
> {
    match so_far {
        Some(written) => Some(written + prefix + decimal(n)),
        None => None,
    }
}

/// As `put_number`, for a time that may be absent.
pub open spec fn put_optional_time(
    so_far: Option<Seq<char>>,
    prefix: Seq<char>,
    time: Option<usize>,
) -> Option<Seq<char>> {
    match time {
        Some(t) => put_number(so_far, prefix, t as nat),
        None => so_far,
    }
}

/// The text so far followed by the member `epk`, if there is a key.
pub open spec fn put_key(so_far: Option<Seq<char>>, key: Option<EphemeralKeyView>) -> Option<
    Seq<char>,
> {
    match key {
        Some(k) => {
            let kty = put_text(so_far, ",\"epk\":{\"kty\":"@, k.kty);
            let crv = put_text(kty, ",\"crv\":"@, k.crv);
            let x = put_text(crv, ",\"x\":"@, k.x);
            let y = put_optional_text(x, ",\"y\":"@, k.y);
            put_raw(y, "}"@)
        },
        None => so_far,
    }
}

/// The text so far followed by the member `from_prior`, if there is a
/// rotation claim.
pub open spec fn put_claims(so_far: Option<Seq<char>>, claims: Option<PriorClaimsView>) -> Option<
    Seq<char>,
> {
    match claims {
        Some(c) => {
            let iss = put_text(so_far, ",\"from_prior\":{\"iss\":"@, c.prior);
            let sub = put_text(iss, ",\"sub\":"@, c.current);
            let iat = put_number(sub, ",\"iat\":"@, c.issued_at as nat);
            let jti = put_optional_text(iat, ",\"jti\":"@, c.claim_id);
            put_raw(jti, "}"@)
        },
        None => so_far,
    }
}

/// The text so far followed by the JSON string literals of `items`, with a
/// comma between one and the next.
pub open spec fn put_items(so_far: Option<Seq<char>>, items: Seq<Seq<char>>) -> Option<Seq<char>>
    decreases items.len(),
{
    if items.len() == 0 {
        so_far
    } else if items.len() == 1 {
        put_text(so_far, ""@, items.last())
    } else {
        put_text(put_items(so_far, items.drop_last()), ","@, items.last())
    }
}

/// The text so far followed by the JSON form of an extension value.
pub open spec fn put_value(so_far: Option<Seq<char>>, value: ExtensionValueView) -> Option<
    Seq<char>,
> {
    match value {
        ExtensionValueView::Null => put_raw(so_far, "null"@),
        ExtensionValueView::Flag(flag) => put_raw(
            so_far,
            if flag {
                "true"@
            } else {
                "false"@
            },
        ),
        ExtensionValueView::Number(n) => put_number(so_far, ""@, n as nat),
        ExtensionValueView::Text(text) => put_text(so_far, ""@, text),
    }
}

/// The text so far followed by one member for each extension field.
pub open spec fn put_extensions(so_far: Option<Seq<char>>, fields: ExtensionsView) -> Option<
    Seq<char>,
>
    decreases fields.len(),
{
    if fields.len() == 0 {
        so_far
    } else {
        let before = put_extensions(so_far, fields.drop_last());
        put_value(put_raw(put_text(before, ","@, fields.last().0), ":"@), fields.last().1)
    }
}

/// The object's opening brace and the members of the transformation
/// header.
pub open spec fn jwm_members(jwm: JwmHeaderView) -> Option<Seq<char>> {
    let typ = put_tag(Some(Seq::empty()), "{\"typ\":"@, jwm.typ.tag());
    let enc = put_optional_text(typ, ",\"enc\":"@, jwm.enc);
    let kid = put_optional_text(enc, ",\"kid\":"@, jwm.kid);
    let epk = put_key(kid, jwm.epk);
    let alg = put_optional_text(epk, ",\"alg\":"@, jwm.alg);
    let cty = put_optional_type(alg, ",\"cty\":"@, jwm.cty);
    put_optional_text(cty, ",\"iv\":"@, jwm.iv)
}

/// The text so far followed by the members of the identity header.
pub open spec fn put_didcomm_members(
    so_far: Option<Seq<char>>,
    didcomm: DidcommHeaderView,
) -> Option<Seq<char>> {
    let id = put_text(so_far, ",\"id\":"@, didcomm.id);
    let m_type = put_optional_type(id, ",\"type\":"@, didcomm.m_type);
    let to = put_raw(put_items(put_raw(m_type, ",\"to\":["@), didcomm.to), "]"@);
    let from = put_optional_text(to, ",\"from\":"@, didcomm.from);
    let created = put_optional_time(from, ",\"created_time\":"@, didcomm.created_time);
    let expires = put_optional_time(created, ",\"expires_time\":"@, didcomm.expires_time);
    let thid = put_optional_text(expires, ",\"thid\":"@, didcomm.thid);
    let pthid = put_optional_text(thid, ",\"pthid\":"@, didcomm.pthid);
    let prior = put_claims(pthid, didcomm.from_prior);
    put_extensions(prior, didcomm.extensions)
}

/// The canonical form of the two headers, or `None` where a text in them
/// has no JSON string literal.
pub open spec fn header_json(jwm: JwmHeaderView, didcomm: DidcommHeaderView) -> Option<Seq<char>> {
    put_raw(put_didcomm_members(jwm_members(jwm), didcomm), "}"@)
}

/// Once a literal could not be made, nothing more is written.
pub proof fn lemma_nothing_after_failure(items: Seq<Seq<char>>, fields: ExtensionsView)
    ensures
        put_items(None, items) is None,
        put_extensions(None, fields) is None,
    decreases items.len() + fields.len(),
{
    if items.len() > 1 {
        lemma_nothing_after_failure(items.drop_last(), Seq::empty());
    }
    if fields.len() > 0 {
        lemma_nothing_after_failure(Seq::empty(), fields.drop_last());
    }
}

/// A list whose beginning could not be written cannot be written.
proof fn lemma_items_fail_with_prefix(so_far: Option<Seq<char>>, items: Seq<Seq<char>>, n: int)
    requires
        0 <= n <= items.len(),
        put_items(so_far, items.take(n)) is None,
    ensures
        put_items(so_far, items) is None,
    decreases items.len() - n,
{
    if n < items.len() {
        assert(items.take(n + 1).drop_last() =~= items.take(n));
        assert(items.take(n + 1).last() == items[n]);
        lemma_items_fail_with_prefix(so_far, items, n + 1);
    } else {
        assert(items.take(n) =~= items);
    }
}

/// Extension fields whose beginning could not be written cannot be
/// written.
proof fn lemma_extensions_fail_with_prefix(
    so_far: Option<Seq<char>>,
    fields: ExtensionsView,
    n: int,
)
    requires
        0 <= n <= fields.len(),
        put_extensions(so_far, fields.take(n)) is None,
    ensures
        put_extensions(so_far, fields) is None,
    decreases fields.len() - n,
{
    if n < fields.len() {
        assert(fields.take(n + 1).drop_last() =~= fields.take(n));
        lemma_extensions_fail_with_prefix(so_far, fields, n + 1);
    } else {
        assert(fields.take(n) =~= fields);
    }
}

/// Whether a step of the writer did what its model says: it succeeded
/// with the text that the model gives, or it failed with
/// `HeaderSerializationFailure` where the model gives none.
pub open spec fn written(
    r: Result<(), EnvelopeError>,
    after: Seq<char>,
    wanted: Option<Seq<char>>,
) -> bool {
    match wanted {
        Some(text) => r is Ok && after == text,
        None => r is Err && r->Err_0 == EnvelopeError::HeaderSerializationFailure,
    }
}

/// The one-character text of the decimal digit for `d`.
fn digit_text(d: u64) -> (r: &'static str)
    requires
        d < 10,
    ensures
        r@ == seq![digit(d as nat)],
{
    proof {
        reveal_strlit("0");
        reveal_strlit("1");
        reveal_strlit("2");
        reveal_strlit("3");
        reveal_strlit("4");
        reveal_strlit("5");
        reveal_strlit("6");
        reveal_strlit("7");
        reveal_strlit("8");
        reveal_strlit("9");
    }
    let r = if d == 0 {
        "0"
    } else if d == 1 {
        "1"
    } else if d == 2 {
        "2"
    } else if d == 3 {
        "3"
    } else if d == 4 {
        "4"
    } else if d == 5 {
        "5"
    } else if d == 6 {
        "6"
    } else if d == 7 {
        "7"
    } else if d == 8 {
        "8"
    } else {
        "9"
    };
    assert(r@ =~= seq![digit(d as nat)]);
    r
}

/// Appends the decimal numeral of `n` to `out`.
pub fn write_decimal(out: &mut String, n: u64)
    ensures
        final(out)@ == old(out)@ + decimal(n as nat),
    decreases n,
{
    if n < 10 {
        out.append(digit_text(n));
    } else {
        write_decimal(out, n / 10);
        out.append(digit_text(n % 10));
        assert(final(out)@ =~= old(out)@ + decimal(n as nat));
    }
}

/// Appends `prefix` and the JSON string literal of `text` to `out`.
fn write_text(out: &mut String, prefix: &str, text: &str) -> (r: Result<(), EnvelopeError>)
    ensures
        written(r, final(out)@, put_text(Some(old(out)@), prefix@, text@)),
{
    match quote_json(text) {
        Ok(literal) => {
            out.append(prefix);
            out.append(literal.as_str());
            Ok(())
        },
        Err(_) => Err(EnvelopeError::HeaderSerializationFailure),
    }
}

/// Appends `prefix` and the literal of `text` to `out` if there is a
/// text.
fn write_optional_text(out: &mut String, prefix: &str, text: &Option<String>) -> (r: Result<
    (),
    EnvelopeError,
>)
    ensures
        written(r, final(out)@, put_optional_text(Some(old(out)@), prefix@, text.deep_view())),
{
    match text {
        Some(t) => write_text(out, prefix, t.as_str()),
        None => Ok(()),
    }
}

/// Appends `prefix` and `tag` between quotes to `out`.
fn write_tag(out: &mut String, prefix: &str, tag: &str)
    ensures
        Some(final(out)@) == put_tag(Some(old(out)@), prefix@, tag@),
{
    out.append(prefix);
    out.append("\"");
    out.append(tag);
    out.append("\"");
}

/// Appends `prefix` and the tag of `content` to `out` if there is one.
fn write_optional_type(out: &mut String, prefix: &str, content: Option<ContentType>)
    ensures
        Some(final(out)@) == put_optional_type(Some(old(out)@), prefix@, content),
{
    match content {
        Some(c) => write_tag(out, prefix, c.as_str()),
        None => {},
    }
}

/// Appends `prefix` and the numeral of `time` to `out` if there is one.
fn write_optional_time(out: &mut String, prefix: &str, time: Option<usize>)
    ensures
        Some(final(out)@) == put_optional_time(Some(old(out)@), prefix@, time),
{
    match time {
        Some(t) => {
            out.append(prefix);
            write_decimal(out, t as u64);
        },
        None => {},
    }
}

/// Appends the member `epk` to `out` if there is a key.
fn write_key(out: &mut String, key: &Option<EphemeralKey>) -> (r: Result<(), EnvelopeError>)
    ensures
        written(r, final(out)@, put_key(Some(old(out)@), optional_key_view(*key))),
{
    match key {
        Some(k) => {
            write_text(out, ",\"epk\":{\"kty\":", k.kty().as_str())?;
            write_text(out, ",\"crv\":", k.crv().as_str())?;
            write_text(out, ",\"x\":", k.x().as_str())?;
            write_optional_text(out, ",\"y\":", k.y())?;
            out.append("}");
            Ok(())
        },
        None => Ok(()),
    }
}

/// Appends the member `from_prior` to `out` if there is a rotation claim.
fn write_claims(out: &mut String, claims: &Option<PriorClaims>) -> (r: Result<(), EnvelopeError>)
    ensures
        written(r, final(out)@, put_claims(Some(old(out)@), optional_claims_view(*claims))),
{
    match claims {
        Some(c) => {
            write_text(out, ",\"from_prior\":{\"iss\":", c.prior().as_str())?;
            write_text(out, ",\"sub\":", c.current().as_str())?;
            out.append(",\"iat\":");
            write_decimal(out, c.issued_at() as u64);
            write_optional_text(out, ",\"jti\":", c.claim_id())?;
            out.append("}");
            Ok(())
        },
        None => Ok(()),
    }
}

/// Appends the literals of `items` to `out`, with a comma between one and
/// the next.
fn write_items(out: &mut String, items: &Vec<String>) -> (r: Result<(), EnvelopeError>)
    ensures
        written(r, final(out)@, put_items(Some(old(out)@), items.deep_view())),
{
    let ghost start = Some(out@);
    let ghost all = items.deep_view();
    let mut i: usize = 0;
    assert(all.take(0) =~= Seq::empty());
    while i < items.len()
        invariant
            i <= items.len(),
            start == Some(old(out)@),
            all == items.deep_view(),
            all.len() == items.len(),
            put_items(start, all.take(i as int)) == Some(out@),
        decreases items.len() - i,
    {
        let ghost before = Some(out@);
        let r = write_text(
            out,
            if i == 0 {
                ""
            } else {
                ","
            },
            items[i].as_str(),
        );
        proof {
            let next = all.take(i + 1);
            assert(next.drop_last() =~= all.take(i as int));
            assert(next.last() == items[i as int]@);
            if r is Err {
                lemma_items_fail_with_prefix(start, all, i + 1);
            }
        }
        if r.is_err() {
            return r;
        }
        i += 1;
    }
    assert(all.take(i as int) =~= all);
    Ok(())
}

/// Appends the JSON form of an extension value to `out`.
fn write_value(out: &mut String, value: &ExtensionValue) -> (r: Result<(), EnvelopeError>)
    ensures
        written(r, final(out)@, put_value(Some(old(out)@), value@)),
{
    match value {
        ExtensionValue::Null => {
            out.append("null");
            Ok(())
        },
        ExtensionValue::Flag(flag) => {
            if *flag {
                out.append("true");
            } else {
                out.append("false");
            }
            Ok(())
        },
        ExtensionValue::Number(n) => {
            out.append("");
            write_decimal(out, *n);
            Ok(())
        },
        ExtensionValue::Text(text) => write_text(out, "", text.as_str()),
    }
}

/// Appends one member for each extension field to `out`.
fn write_extensions(out: &mut String, fields: &Vec<(String, ExtensionValue)>) -> (r: Result<
    (),
    EnvelopeError,
>)
    ensures
        written(r, final(out)@, put_extensions(Some(old(out)@), extensions_view(fields@))),
{
    let ghost start = Some(out@);
    let ghost all = extensions_view(fields@);
    let mut i: usize = 0;
    assert(all.take(0) =~= Seq::empty());
    while i < fields.len()
        invariant
            i <= fields.len(),
            start == Some(old(out)@),
            all == extensions_view(fields@),
            all.len() == fields.len(),
            put_extensions(start, all.take(i as int)) == Some(out@),
        decreases fields.len() - i,
    {
        proof {
            let next = all.take(i + 1);
            assert(next.drop_last() =~= all.take(i as int));
            assert(next.last() == (fields[i as int].0@, fields[i as int].1@));
        }
        let named = write_text(out, ",", fields[i].0.as_str());
        if named.is_err() {
            proof {
                lemma_extensions_fail_with_prefix(start, all, i + 1);
            }
            return named;
        }
        out.append(":");
        let valued = write_value(out, &fields[i].1);
        if valued.is_err() {
            proof {
                lemma_extensions_fail_with_prefix(start, all, i + 1);
            }
            return valued;
        }
        i += 1;
    }
    assert(all.take(i as int) =~= all);
    Ok(())
}

/// Writes the opening brace and the members of the transformation header.
fn write_jwm_members(out: &mut String, jwm: &JwmHeader) -> (r: Result<(), EnvelopeError>)
    requires
        old(out)@ == Seq::<char>::empty(),
    ensures
        written(r, final(out)@, jwm_members(jwm@)),
{
    write_tag(out, "{\"typ\":", jwm.typ().as_str());
    write_optional_text(out, ",\"enc\":", jwm.enc())?;
    write_optional_text(out, ",\"kid\":", jwm.kid())?;
    write_key(out, jwm.epk())?;
    write_optional_text(out, ",\"alg\":", jwm.alg())?;
    write_optional_type(out, ",\"cty\":", jwm.cty());
    write_optional_text(out, ",\"iv\":", jwm.iv())
}

/// Appends the members of the identity header to `out`.
fn write_didcomm_members(out: &mut String, didcomm: &DidcommHeader) -> (r: Result<
    (),
    EnvelopeError,
>)
    ensures
        written(r, final(out)@, put_didcomm_members(Some(old(out)@), didcomm@)),
{
    proof {
        lemma_nothing_after_failure(didcomm@.to, didcomm@.extensions);
    }
    write_text(out, ",\"id\":", didcomm.id().as_str())?;
    write_optional_type(out, ",\"type\":", didcomm.m_type());
    out.append(",\"to\":[");
    write_items(out, didcomm.to())?;
    out.append("]");
    write_optional_text(out, ",\"from\":", didcomm.from())?;
    write_optional_time(out, ",\"created_time\":", didcomm.created_time());
    write_optional_time(out, ",\"expires_time\":", didcomm.expires_time());
    write_optional_text(out, ",\"thid\":", didcomm.thid())?;
    write_optional_text(out, ",\"pthid\":", didcomm.pthid())?;
    write_claims(out, didcomm.from_prior())?;
    write_extensions(out, didcomm.extensions())
}

/// Writes the two headers in their canonical form.
///
/// Fails with `HeaderSerializationFailure` exactly where a text in the
/// headers has no JSON string literal.
pub fn write_header_json(jwm: &JwmHeader, didcomm: &DidcommHeader) -> (r: Result<
    String,
    EnvelopeError,
>)
    ensures
        match header_json(jwm@, didcomm@) {
            Some(text) => r is Ok && r->Ok_0@ == text,
            None => r is Err && r->Err_0 == EnvelopeError::HeaderSerializationFailure,
        },
{
    proof {
        lemma_nothing_after_failure(didcomm@.to, didcomm@.extensions);
    }
    let mut out = String::new();
    write_jwm_members(&mut out, jwm)?;
    write_didcomm_members(&mut out, didcomm)?;
    out.append("}");
    Ok(out)
}

impl Message {
    /// The headers of the message in their canonical form.
    ///
    /// Fails with `HeaderSerializationFailure` exactly where a text in the
    /// headers has no JSON string literal.
    pub fn header_json(&self) -> (r: Result<String, EnvelopeError>)
        ensures
            match header_json(self@.jwm, self@.didcomm) {
                Some(text) => r is Ok && r->Ok_0@ == text,
                None => r is Err && r->Err_0 == EnvelopeError::HeaderSerializationFailure,
            },
    {
        write_header_json(self.get_jwm_header(), self.get_didcomm_header())
    }
}

} // verus!
