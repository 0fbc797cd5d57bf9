//! Codec traits whose items may borrow from the bytes they are decoded from.
use std::borrow::Cow;
use vstd::prelude::*;

use crate::{Error, ErrorKind, DB};

verus! {

/// Encoding and decoding of one item type, merged in one trait.
///
/// Both directions are pure: the bytes written depend on the item alone, and
/// the value read depends on the bytes alone. An item decoded from
/// `bytes: &'a [u8]` may borrow from `bytes`.
pub trait Codec<'a> {
    type Item: 'a + View;
    type Error;

    /// Whether `item` can be encoded.
    spec fn encodable(item: Self::Item) -> bool;

    /// The bytes that `item` is encoded to.
    spec fn encoding(item: Self::Item) -> Seq<u8>;

    /// Whether `e` is the error reported for an item that cannot be encoded.
    spec fn encode_failure(e: Self::Error) -> bool;

    /// Whether `bytes` hold an item.
    spec fn decodable(bytes: Seq<u8>) -> bool;

    /// The value of the item that `bytes` hold.
    spec fn decoded(bytes: Seq<u8>) -> <Self::Item as View>::V;

    /// What more is known of `item` when it is read from `bytes`: its form,
    /// and what it borrows.
    spec fn decodes(bytes: Seq<u8>, item: Self::Item) -> bool;

    /// Whether `e` is the error reported for bytes that hold no item.
    spec fn decode_failure(e: Self::Error) -> bool;

    fn encode(item: Self::Item) -> (r: Result<Cow<'a, [u8]>, Self::Error>)
        ensures
            r is Ok <==> Self::encodable(item),
            r matches Ok(b) ==> b@ == Self::encoding(item),
            r matches Err(e) ==> Self::encode_failure(e),
    ;

    fn decode(bytes: &'a [u8]) -> (r: Result<Self::Item, Self::Error>)
        ensures
            r is Ok <==> Self::decodable(bytes@),
            r matches Ok(item) ==> item@ == Self::decoded(bytes@) && Self::decodes(bytes@, item),
            r matches Err(e) ==> Self::decode_failure(e),
    ;
}

/// The codec that a type is encoded and decoded with by default.
pub trait DefaultCodec<'a> {
    type Codec: Codec<'a>;
}

/// The encoding half of a codec.
pub trait Encode<'a> {
    type EItem: 'a + View;
    type Error;

    /// Whether `item` can be encoded.
    spec fn encodable(item: Self::EItem) -> bool;

    /// The bytes that `item` is encoded to.
    spec fn encoding(item: Self::EItem) -> Seq<u8>;

    /// Whether `e` is the error reported for an item that cannot be encoded.
    spec fn encode_failure(e: Self::Error) -> bool;

    fn encode(item: Self::EItem) -> (r: Result<Cow<'a, [u8]>, Self::Error>)
        ensures
            r is Ok <==> Self::encodable(item),
            r matches Ok(b) ==> b@ == Self::encoding(item),
            r matches Err(e) ==> Self::encode_failure(e),
    ;
}

/// The decoding half of a codec.
pub trait Decode<'a> {
    type DItem: 'a + View;
    type Error;

    /// Whether `bytes` hold an item.
    spec fn decodable(bytes: Seq<u8>) -> bool;

    /// The value of the item that `bytes` hold.
    spec fn decoded(bytes: Seq<u8>) -> <Self::DItem as View>::V;

    /// What more is known of `item` when it is read from `bytes`.
    spec fn decodes(bytes: Seq<u8>, item: Self::DItem) -> bool;

    /// Whether `e` is the error reported for bytes that hold no item.
    spec fn decode_failure(e: Self::Error) -> bool;

    fn decode(bytes: &'a [u8]) -> (r: Result<Self::DItem, Self::Error>)
        ensures
            r is Ok <==> Self::decodable(bytes@),
            r matches Ok(item) ==> item@ == Self::decoded(bytes@) && Self::decodes(bytes@, item),
            r matches Err(e) ==> Self::decode_failure(e),
    ;
}

/// A codec made of an `Encode` and a `Decode` over one item type.
pub trait Codec2<'a>: Encode<'a, EItem = <Self as Codec2<'a>>::Item> + Decode<
    'a,
    DItem = <Self as Codec2<'a>>::Item,
> {
    type Item: 'a + View;
}

/// A codec usable at every lifetime, whose keys can be handed over owned.
pub trait CodecOwned: for<'a> Codec2<'a> {
    type OwnedItem;

    /// Whether `owned` can be encoded.
    spec fn owned_encodable(owned: Self::OwnedItem) -> bool;

    /// The bytes that `owned` is encoded to.
    spec fn owned_encoding(owned: Self::OwnedItem) -> Seq<u8>;

    /// A view of `owned` as an item of the codec, encoded as `owned` is.
    fn as_item<'a>(owned: &'a Self::OwnedItem) -> (r: <Self as Codec2<'a>>::Item)
        ensures
            <Self as Encode<'a>>::encodable(r) == Self::owned_encodable(*owned),
            <Self as Encode<'a>>::encoding(r) == Self::owned_encoding(*owned),
    ;
}

/// Whether `r` is what looking up `key` in `db` and decoding the value found
/// gives, for a decoder described by `decodable`, `decoded` and `decodes`:
/// `Ok(None)` where nothing is stored, the decoded value where the stored
/// bytes hold one, and `MalformedInput` where they do not.
pub open spec fn lookup_outcome<I: View>(
    db: &DB,
    key: Seq<u8>,
    r: Result<Option<I>, Error>,
    decodable: spec_fn(Seq<u8>) -> bool,
    decoded: spec_fn(Seq<u8>) -> I::V,
    decodes: spec_fn(Seq<u8>, I) -> bool,
) -> bool {
    match db.spec_get(key) {
        None => r is Ok && r->Ok_0 is None,
        Some(vb) => if decodable(vb) {
            r matches Ok(Some(v)) && v@ == decoded(vb) && decodes(vb, v)
        } else {
            r matches Err(e) && e.kind == ErrorKind::MalformedInput
        },
    }
}

/// Looks up the value stored under key bytes `key` and decodes it with `V`.
pub fn get_decoded<'t, V: Codec<'t>>(db: &'t DB, key: &[u8]) -> (r: Result<Option<V::Item>, Error>)
    ensures
        lookup_outcome(
            db,
            key@,
            r,
            |b| V::decodable(b),
            |b| V::decoded(b),
            |b, v| V::decodes(b, v),
        ),
{
    match db.get(key) {
        None => Ok(None),
        Some(vb) => match V::decode(vb) {
            Ok(v) => Ok(Some(v)),
            Err(_) => Err(Error::malformed()),
        },
    }
}

/// Looks up the value stored under key bytes `key` and decodes it with the
/// decoding half `V`.
pub fn get_decoded_split<'t, V: Decode<'t>>(db: &'t DB, key: &[u8]) -> (r: Result<
    Option<V::DItem>,
    Error,
>)
    ensures
        lookup_outcome(
            db,
            key@,
            r,
            |b| V::decodable(b),
            |b| V::decoded(b),
            |b, v| V::decodes(b, v),
        ),
{
    match db.get(key) {
        None => Ok(None),
        Some(vb) => match V::decode(vb) {
            Ok(v) => Ok(Some(v)),
            Err(_) => Err(Error::malformed()),
        },
    }
}

/// The bytes held by `c`.
pub fn cow_bytes<'b>(c: &'b Cow<'_, [u8]>) -> (r: &'b [u8])
    ensures
        r@ == c@,
{
    match c {
        Cow::Borrowed(b) => b,
        Cow::Owned(v) => v.as_slice(),
    }
}

/// Looks up `key`, encoded with `K`, and decodes the value stored under it
/// with `V`. Fails with `EncodingError` exactly where `K` cannot encode the key.
pub fn get_with_codec<'t, K, V>(db: &'t DB, key: K::Item) -> (r: Result<Option<V::Item>, Error>) where
    K: Codec<'t>,
    V: Codec<'t>,
    ensures
        !K::encodable(key) ==> (r matches Err(e) && e.kind == ErrorKind::EncodingError),
        K::encodable(key) ==> lookup_outcome(
            db,
            K::encoding(key),
            r,
            |b| V::decodable(b),
            |b| V::decoded(b),
            |b, v| V::decodes(b, v),
        ),
{
    match K::encode(key) {
        Err(_) => Err(Error::encoding()),
        Ok(kb) => get_decoded::<V>(db, cow_bytes(&kb)),
    }
}

/// `get_with_codec` for codecs given as an encoding and a decoding half.
pub fn get_with_codec_split<'t, K, V>(db: &'t DB, key: <K as Encode<'t>>::EItem) -> (r: Result<
    Option<<V as Decode<'t>>::DItem>,
    Error,
>) where
    K: Encode<'t> + Decode<'t, DItem = <K as Encode<'t>>::EItem>,
    V: Encode<'t> + Decode<'t, DItem = <V as Encode<'t>>::EItem>,

    ensures
        !<K as Encode<'t>>::encodable(key) ==> (r matches Err(e) && e.kind == ErrorKind::EncodingError),
        <K as Encode<'t>>::encodable(key) ==> lookup_outcome(
            db,
            <K as Encode<'t>>::encoding(key),
            r,
            |b| <V as Decode<'t>>::decodable(b),
            |b| <V as Decode<'t>>::decoded(b),
            |b, v| <V as Decode<'t>>::decodes(b, v),
        ),
{
    match <K as Encode<'t>>::encode(key) {
        Err(_) => Err(Error::encoding()),
        Ok(kb) => get_decoded_split::<V>(db, cow_bytes(&kb)),
    }
}

/// `get_with_codec` for codecs given as `Codec2`.
pub fn get_with_codec2<'t, K, V>(db: &'t DB, key: <K as Codec2<'t>>::Item) -> (r: Result<
    Option<<V as Codec2<'t>>::Item>,
    Error,
>) where
    K: Codec2<'t>,
    V: Codec2<'t>,

    ensures
        !<K as Encode<'t>>::encodable(key) ==> (r matches Err(e) && e.kind == ErrorKind::EncodingError),
        <K as Encode<'t>>::encodable(key) ==> lookup_outcome(
            db,
            <K as Encode<'t>>::encoding(key),
            r,
            |b| <V as Decode<'t>>::decodable(b),
            |b| <V as Decode<'t>>::decoded(b),
            |b, v| <V as Decode<'t>>::decodes(b, v),
        ),
{
    match <K as Encode<'t>>::encode(key) {
        Err(_) => Err(Error::encoding()),
        Ok(kb) => get_decoded_split::<V>(db, cow_bytes(&kb)),
    }
}

/// `get_with_codec` for codecs usable at every lifetime, with the key
/// handed over owned.
pub fn get_with_codec_owned<'t, K, V>(db: &'t DB, key: &K::OwnedItem) -> (r: Result<
    Option<<V as Codec2<'t>>::Item>,
    Error,
>) where
    K: CodecOwned,
    V: CodecOwned,

    ensures
        !K::owned_encodable(*key) ==> (r matches Err(e) && e.kind == ErrorKind::EncodingError),
        K::owned_encodable(*key) ==> lookup_outcome(
            db,
            K::owned_encoding(*key),
            r,
            |b| <V as Decode<'t>>::decodable(b),
            |b| <V as Decode<'t>>::decoded(b),
            |b, v| <V as Decode<'t>>::decodes(b, v),
        ),
{
    let item = K::as_item(key);
    match <K as Encode>::encode(item) {
        Err(_) => Err(Error::encoding()),
        Ok(kb) => get_decoded_split::<V>(db, cow_bytes(&kb)),
    }
}

} // verus!
