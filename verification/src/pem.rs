//! PEM-encoded key and certificate material, decoded for the TLS
//! collaborator.
//!
//! The PEM grammar itself is parsed by `rustls_pemfile` behind one trusted
//! section reader; everything above it — walking the sections, selecting
//! the private keys and the certificates in order — is verified.

use vstd::prelude::*;
use rustls_pemfile::Item;
use crate::message::clone_bytes;

verus! {

/// One recognised PEM section, reduced to its decoded DER payload.
#[derive(Debug)]
pub enum PemItem {
    /// A "CERTIFICATE" section.
    Certificate(Vec<u8>),
    /// An "RSA PRIVATE KEY" section (PKCS #1).
    Pkcs1Key(Vec<u8>),
    /// A "PRIVATE KEY" section (PKCS #8).
    Pkcs8Key(Vec<u8>),
    /// An "EC PRIVATE KEY" section (SEC 1).
    Sec1Key(Vec<u8>),
    /// Any other recognised section: public key, revocation list, signing
    /// request.
    Other,
}

/// The mathematical value of a [`PemItem`].
pub enum PemItemView {
    Certificate(Seq<u8>),
    Pkcs1Key(Seq<u8>),
    Pkcs8Key(Seq<u8>),
    Sec1Key(Seq<u8>),
    Other,
}

impl View for PemItem {
    type V = PemItemView;

    open spec fn view(&self) -> PemItemView {
        match self {
            PemItem::Certificate(d) => PemItemView::Certificate(d@),
            PemItem::Pkcs1Key(d) => PemItemView::Pkcs1Key(d@),
            PemItem::Pkcs8Key(d) => PemItemView::Pkcs8Key(d@),
            PemItem::Sec1Key(d) => PemItemView::Sec1Key(d@),
            PemItem::Other => PemItemView::Other,
        }
    }
}

/// PEM material that could not be decoded: a missing end marker, an
/// illegal section start, or broken base64.
#[derive(Debug)]
pub struct PemError {
    pub message: String,
}

impl View for PemError {
    type V = Seq<char>;

    open spec fn view(&self) -> Seq<char> {
        self.message@
    }
}

/// The recognised PEM sections of a byte sequence, in order, each reduced
/// to its decoded DER payload. Defined by the parser relied on below.
pub uninterp spec fn pem_items_of(bytes: Seq<u8>) -> Seq<PemItemView>;

/// Whether a byte sequence decodes: the parser relied on below walks all
/// of it without a decode error (no missing end marker, no illegal section
/// start, no broken base64). Decoding succeeds exactly on such input.
pub uninterp spec fn pem_decodes(bytes: Seq<u8>) -> bool;

/// The views of a sequence of decoded sections.
pub open spec fn pem_views(items: Seq<PemItem>) -> Seq<PemItemView> {
    items.map_values(|i: PemItem| i@)
}

/// The views of a sequence of byte vectors.
pub open spec fn byte_views(keys: Seq<Vec<u8>>) -> Seq<Seq<u8>> {
    keys.map_values(|k: Vec<u8>| k@)
}

/// The decoded PEM section type of `rustls_pemfile`, carried opaquely.
#[verifier::external_type_specification]
#[verifier::external_body]
pub struct ExPemSection(rustls_pemfile::Item);

/// Relies on `rustls_pemfile::Item`: each variant carries its section's
/// decoded DER payload. The variants are told apart one arm each, the
/// payload moved out; public keys, revocation lists and signing requests
/// fold into `Other`.
#[verifier::external_body]
fn pem_item_from(item: Item) -> PemItem {
    match item {
        Item::X509Certificate(c) => PemItem::Certificate(c.as_ref().to_vec()),
        Item::Pkcs1Key(k) => PemItem::Pkcs1Key(k.secret_pkcs1_der().to_vec()),
        Item::Pkcs8Key(k) => PemItem::Pkcs8Key(k.secret_pkcs8_der().to_vec()),
        Item::Sec1Key(k) => PemItem::Sec1Key(k.secret_sec1_der().to_vec()),
        _ => PemItem::Other,
    }
}

/// Relies on `rustls_pemfile::read_one_from_slice`: it decodes the first
/// recognised PEM section of the input and returns it with the rest of the
/// input, `None` once no recognised section remains, or the decode error.
/// The parser is a function of the slice alone, and restarting it on the
/// rest equals continuing, so: the sections of the input are the decoded
/// first section followed by the sections of the rest; the rest is what
/// follows the consumed section, strictly shorter than the input; an error
/// means the input does not decode, exhaustion means it does, and after a
/// decoded section the input decodes exactly when the rest does.
#[verifier::external_body]
fn read_one_pem_section<'a>(input: &'a [u8]) -> (r: Result<
    Option<(PemItem, &'a [u8])>,
    PemError,
>)
    ensures
        r is Err ==> !pem_decodes(input@),
        r matches Ok(None) ==> pem_items_of(input@) == Seq::<PemItemView>::empty()
            && pem_decodes(input@),
        r matches Ok(Some((item, rest))) ==> pem_items_of(input@) == seq![item@]
            + pem_items_of(rest@) && rest@.len() < input@.len() && (pem_decodes(input@)
            <==> pem_decodes(rest@)),
{
    match rustls_pemfile::read_one_from_slice(input) {
        Err(e) => Err(PemError { message: format!("{:?}", e) }),
        Ok(None) => Ok(None),
        Ok(Some((item, rest))) => Ok(Some((pem_item_from(item), rest))),
    }
}

/// Decode every recognised PEM section of the input, in order. Succeeds
/// exactly on input that decodes; otherwise the decode error comes back
/// and no partial list does.
pub fn parse_pem_items(bytes: &[u8]) -> (r: Result<Vec<PemItem>, PemError>)
    ensures
        r is Ok <==> pem_decodes(bytes@),
        r matches Ok(items) ==> pem_views(items@) == pem_items_of(bytes@),
{
    let mut rest: &[u8] = bytes;
    let mut items: Vec<PemItem> = Vec::new();
    proof {
        assert(pem_views(items@) =~= Seq::<PemItemView>::empty());
    }
    loop
        invariant
            pem_items_of(bytes@) == pem_views(items@) + pem_items_of(rest@),
            pem_decodes(bytes@) <==> pem_decodes(rest@),
        decreases rest@.len(),
    {
        match read_one_pem_section(rest) {
            Err(e) => {
                return Err(e);
            },
            Ok(None) => {
                proof {
                    assert(pem_views(items@) =~= pem_views(items@)
                        + Seq::<PemItemView>::empty());
                }
                return Ok(items);
            },
            Ok(Some((item, remaining))) => {
                proof {
                    assert(pem_views(items@.push(item)) =~= pem_views(items@).push(item@));
                    assert(pem_views(items@).push(item@) + pem_items_of(remaining@) =~= pem_views(
                        items@,
                    ) + (seq![item@] + pem_items_of(remaining@)));
                }
                items.push(item);
                rest = remaining;
            },
        }
    }
}

/// The private-key payloads among the decoded sections, in order: PKCS #1,
/// PKCS #8 and SEC 1 keys are kept, everything else is skipped.
pub open spec fn spec_private_keys(items: Seq<PemItemView>) -> Seq<Seq<u8>>
    decreases items.len(),
{
    if items.len() == 0 {
        Seq::empty()
    } else {
        let rest = spec_private_keys(items.drop_first());
        match items.first() {
            PemItemView::Pkcs1Key(k) => seq![k] + rest,
            PemItemView::Pkcs8Key(k) => seq![k] + rest,
            PemItemView::Sec1Key(k) => seq![k] + rest,
            _ => rest,
        }
    }
}

/// The certificate payloads among the decoded sections, in order.
pub open spec fn spec_certificates(items: Seq<PemItemView>) -> Seq<Seq<u8>>
    decreases items.len(),
{
    if items.len() == 0 {
        Seq::empty()
    } else {
        let rest = spec_certificates(items.drop_first());
        match items.first() {
            PemItemView::Certificate(d) => seq![d] + rest,
            _ => rest,
        }
    }
}

/// Keep exactly the private-key payloads, in order.
pub fn select_private_keys(items: &Vec<PemItem>) -> (r: Vec<Vec<u8>>)
    ensures
        byte_views(r@) == spec_private_keys(pem_views(items@)),
{
    let ghost all = pem_views(items@);
    let mut keys: Vec<Vec<u8>> = Vec::new();
    proof {
        assert(byte_views(keys@) =~= Seq::<Seq<u8>>::empty());
        assert(all.skip(0) =~= all);
    }
    let n = items.len();
    for i in 0..n
        invariant
            n == items@.len(),
            all == pem_views(items@),
            spec_private_keys(all) == byte_views(keys@) + spec_private_keys(
                all.skip(i as int),
            ),
    {
        proof {
            assert(all.skip(i as int).first() == items@[i as int]@);
            assert(all.skip(i as int).drop_first() =~= all.skip(i as int + 1));
        }
        match &items[i] {
            PemItem::Pkcs1Key(k) => keys.push(clone_bytes(k)),
            PemItem::Pkcs8Key(k) => keys.push(clone_bytes(k)),
            PemItem::Sec1Key(k) => keys.push(clone_bytes(k)),
            _ => {},
        }
    }
    proof {
        assert(all.skip(n as int) =~= Seq::<PemItemView>::empty());
        assert(byte_views(keys@) =~= byte_views(keys@) + Seq::<Seq<u8>>::empty());
    }
    keys
}

/// Keep exactly the certificate payloads, in order.
pub fn select_certificates(items: &Vec<PemItem>) -> (r: Vec<Vec<u8>>)
    ensures
        byte_views(r@) == spec_certificates(pem_views(items@)),
{
    let ghost all = pem_views(items@);
    let mut certs: Vec<Vec<u8>> = Vec::new();
    proof {
        assert(byte_views(certs@) =~= Seq::<Seq<u8>>::empty());
        assert(all.skip(0) =~= all);
    }
    let n = items.len();
    for i in 0..n
        invariant
            n == items@.len(),
            all == pem_views(items@),
            spec_certificates(all) == byte_views(certs@) + spec_certificates(
                all.skip(i as int),
            ),
    {
        proof {
            assert(all.skip(i as int).first() == items@[i as int]@);
            assert(all.skip(i as int).drop_first() =~= all.skip(i as int + 1));
        }
        match &items[i] {
            PemItem::Certificate(d) => certs.push(clone_bytes(d)),
            _ => {},
        }
    }
    proof {
        assert(all.skip(n as int) =~= Seq::<PemItemView>::empty());
        assert(byte_views(certs@) =~= byte_views(certs@) + Seq::<Seq<u8>>::empty());
    }
    certs
}

/// The private keys held in PEM-encoded material: every PKCS #1, PKCS #8
/// and SEC 1 section's DER payload, in order of appearance — complete,
/// none dropped, nothing else included. Succeeds exactly on input that
/// decodes (in particular, key-free input succeeds with the empty list);
/// otherwise the decode error comes back.
pub fn read_private_keys_from_pem(bytes: &[u8]) -> (r: Result<Vec<Vec<u8>>, PemError>)
    ensures
        r is Ok <==> pem_decodes(bytes@),
        r matches Ok(keys) ==> byte_views(keys@) == spec_private_keys(pem_items_of(bytes@)),
{
    match parse_pem_items(bytes) {
        Ok(items) => Ok(select_private_keys(&items)),
        Err(e) => Err(e),
    }
}

/// The certificates held in PEM-encoded material: every certificate
/// section's DER payload, in order of appearance — complete, none dropped,
/// nothing else included. Succeeds exactly on input that decodes;
/// otherwise the decode error comes back.
pub fn certificates_from_pem(bytes: &[u8]) -> (r: Result<Vec<Vec<u8>>, PemError>)
    ensures
        r is Ok <==> pem_decodes(bytes@),
        r matches Ok(certs) ==> byte_views(certs@) == spec_certificates(pem_items_of(bytes@)),
{
    match parse_pem_items(bytes) {
        Ok(items) => Ok(select_certificates(&items)),
        Err(e) => Err(e),
    }
}

/// The first private key held in PEM-encoded material — the key a client
/// authenticates with — or nothing when the material holds no key.
/// Succeeds exactly on input that decodes.
pub fn first_private_key_from_pem(bytes: &[u8]) -> (r: Result<Option<Vec<u8>>, PemError>)
    ensures
        r is Ok <==> pem_decodes(bytes@),
        r matches Ok(Some(key)) ==> spec_private_keys(pem_items_of(bytes@)).len() > 0
            && key@ == spec_private_keys(pem_items_of(bytes@)).first(),
        r matches Ok(None) ==> spec_private_keys(pem_items_of(bytes@)).len() == 0,
{
    match read_private_keys_from_pem(bytes) {
        Ok(mut keys) => {
            if keys.len() == 0 {
                Ok(None)
            } else {
                Ok(Some(keys.remove(0)))
            }
        },
        Err(e) => Err(e),
    }
}

} // verus!
