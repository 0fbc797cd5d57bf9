//! Codec traits whose item types take the lifetime of the decoded bytes as a
//! parameter of their own.
use std::borrow::Cow;
use vstd::prelude::*;
use vstd::string::StringSliceAdditionalSpecFns;

use crate::impls::{MyStructOwned, MyStructRef};
use crate::trait_def::{cow_bytes, lookup_outcome};
use crate::wire::{decode_frame, encode_frame, fits_field, frame, lemma_frame_round_trip, parse_frame};
use crate::{Error, ErrorKind, DB};

verus! {

/// Encoding and decoding of one item type, for every lifetime of the bytes.
///
/// Both directions are pure: the bytes written depend on the item alone, and
/// the value read depends on the bytes alone.
pub trait CodecGAT {
    type Item<'a>: View;
    type Error;

    /// Whether `item` can be encoded.
    spec fn encodable<'a>(item: Self::Item<'a>) -> bool;

    /// The bytes that `item` is encoded to.
    spec fn encoding<'a>(item: Self::Item<'a>) -> Seq<u8>;

    /// Whether `e` is the error reported for an item that cannot be encoded.
    spec fn encode_failure(e: Self::Error) -> bool;

    /// Whether `bytes` hold an item.
    spec fn decodable(bytes: Seq<u8>) -> bool;

    /// The value of the item that `bytes` hold.
    spec fn decoded<'a>(bytes: Seq<u8>) -> <Self::Item<'a> as View>::V;

    /// What more is known of `item` when it is read from `bytes`: its form,
    /// and what it borrows.
    spec fn decodes<'a>(bytes: Seq<u8>, item: Self::Item<'a>) -> bool;

    /// Whether `e` is the error reported for bytes that hold no item.
    spec fn decode_failure(e: Self::Error) -> bool;

    fn encode<'a>(item: Self::Item<'a>) -> (r: Result<Cow<'a, [u8]>, Self::Error>)
        ensures
            r is Ok <==> Self::encodable(item),
            r matches Ok(b) ==> b@ == Self::encoding(item),
            r matches Err(e) ==> Self::encode_failure(e),
    ;

    fn decode<'a>(bytes: &'a [u8]) -> (r: Result<Self::Item<'a>, Self::Error>)
        ensures
            r is Ok <==> Self::decodable(bytes@),
            r matches Ok(item) ==> item@ == Self::decoded::<'a>(bytes@) && Self::decodes(
                bytes@,
                item,
            ),
            r matches Err(e) ==> Self::decode_failure(e),
    ;
}

/// Looks up the value stored under key bytes `key` and decodes it with `V`.
pub fn get_decoded_gat<'t, V: CodecGAT>(db: &'t DB, key: &[u8]) -> (r: Result<
    Option<V::Item<'t>>,
    Error,
>)
    ensures
        lookup_outcome(
            db,
            key@,
            r,
            |b| V::decodable(b),
            |b| V::decoded::<'t>(b),
            |b, v| V::decodes(b, v),
        ),
{
    match db.get(key) {
        None => Ok(None),
        Some(vb) => match V::decode(vb) {
            Ok(v) => Ok(Some(v)),
            Err(_) => Err(Error::malformed()),
        },
    }
}

/// Looks up `key`, encoded with `K`, and decodes the value stored under it
/// with `V`. Fails with `EncodingError` exactly where `K` cannot encode the key.
pub fn get_with_codec<'t, K, V>(db: &'t DB, key: K::Item<'t>) -> (r: Result<
    Option<V::Item<'t>>,
    Error,
>) where
    K: CodecGAT,
    V: CodecGAT,

    ensures
        !K::encodable(key) ==> (r matches Err(e) && e.kind == ErrorKind::EncodingError),
        K::encodable(key) ==> lookup_outcome(
            db,
            K::encoding(key),
            r,
            |b| V::decodable(b),
            |b| V::decoded::<'t>(b),
            |b, v| V::decodes(b, v),
        ),
{
    match K::encode(key) {
        Err(_) => Err(Error::encoding()),
        Ok(kb) => get_decoded_gat::<V>(db, cow_bytes(&kb)),
    }
}

/// The encoding half of a codec.
pub trait EncodeGAT {
    type EItem<'a>: View;
    type Error;

    /// Whether `item` can be encoded.
    spec fn encodable<'a>(item: Self::EItem<'a>) -> bool;

    /// The bytes that `item` is encoded to.
    spec fn encoding<'a>(item: Self::EItem<'a>) -> Seq<u8>;

    /// Whether `e` is the error reported for an item that cannot be encoded.
    spec fn encode_failure(e: Self::Error) -> bool;

    fn encode<'a>(item: Self::EItem<'a>) -> (r: Result<Cow<'a, [u8]>, Self::Error>)
        ensures
            r is Ok <==> Self::encodable(item),
            r matches Ok(b) ==> b@ == Self::encoding(item),
            r matches Err(e) ==> Self::encode_failure(e),
    ;
}

/// The decoding half of a codec.
pub trait DecodeGAT {
    type DItem<'a>: View;
    type Error;

    /// Whether `bytes` hold an item.
    spec fn decodable(bytes: Seq<u8>) -> bool;

    /// The value of the item that `bytes` hold.
    spec fn decoded<'a>(bytes: Seq<u8>) -> <Self::DItem<'a> as View>::V;

    /// What more is known of `item` when it is read from `bytes`.
    spec fn decodes<'a>(bytes: Seq<u8>, item: Self::DItem<'a>) -> bool;

    /// Whether `e` is the error reported for bytes that hold no item.
    spec fn decode_failure(e: Self::Error) -> bool;

    fn decode<'a>(bytes: &'a [u8]) -> (r: Result<Self::DItem<'a>, Self::Error>)
        ensures
            r is Ok <==> Self::decodable(bytes@),
            r matches Ok(item) ==> item@ == Self::decoded::<'a>(bytes@) && Self::decodes(
                bytes@,
                item,
            ),
            r matches Err(e) ==> Self::decode_failure(e),
    ;
}

/// Looks up the value stored under key bytes `key` and decodes it with the
/// decoding half `V`.
pub fn get_decoded_split_gat<'t, V: DecodeGAT>(db: &'t DB, key: &[u8]) -> (r: Result<
    Option<V::DItem<'t>>,
    Error,
>)
    ensures
        lookup_outcome(
            db,
            key@,
            r,
            |b| V::decodable(b),
            |b| V::decoded::<'t>(b),
            |b, v| V::decodes(b, v),
        ),
{
    match db.get(key) {
        None => Ok(None),
        Some(vb) => match V::decode(vb) {
            Ok(v) => Ok(Some(v)),
            Err(_) => Err(Error::malformed()),
        },
    }
}

/// `get_with_codec` for codecs given as an encoding and a decoding half over
/// the same items.
pub fn get_with_codec_2<'t, K, V>(db: &'t DB, key: <K as EncodeGAT>::EItem<'t>) -> (r: Result<
    Option<<V as DecodeGAT>::DItem<'t>>,
    Error,
>) where
    for<'a> K: EncodeGAT + DecodeGAT<DItem<'a> = <K as EncodeGAT>::EItem<'a>>,
    for<'a> V: EncodeGAT + DecodeGAT<DItem<'a> = <V as EncodeGAT>::EItem<'a>>,

    ensures
        !<K as EncodeGAT>::encodable(key) ==> (r matches Err(e) && e.kind
            == ErrorKind::EncodingError),
        <K as EncodeGAT>::encodable(key) ==> lookup_outcome(
            db,
            <K as EncodeGAT>::encoding(key),
            r,
            |b| <V as DecodeGAT>::decodable(b),
            |b| <V as DecodeGAT>::decoded::<'t>(b),
            |b, v| <V as DecodeGAT>::decodes(b, v),
        ),
{
    match <K as EncodeGAT>::encode(key) {
        Err(_) => Err(Error::encoding()),
        Ok(kb) => get_decoded_split_gat::<V>(db, cow_bytes(&kb)),
    }
}

/// A codec made of an `EncodeGAT` and a `DecodeGAT` over one item type.
pub trait CodecGAT2: for<'a> EncodeGAT<EItem<'a> = Self::Item<'a>> + for<'a> DecodeGAT<
    DItem<'a> = Self::Item<'a>,
> {
    type Item<'a>: View;
}

/// `get_with_codec` for codecs given as `CodecGAT2`.
pub fn get_with_codec_3<'t, K, V>(db: &'t DB, key: <K as CodecGAT2>::Item<'t>) -> (r: Result<
    Option<<V as CodecGAT2>::Item<'t>>,
    Error,
>) where
    K: CodecGAT2,
    V: CodecGAT2,

    ensures
        !<K as EncodeGAT>::encodable(key) ==> (r matches Err(e) && e.kind
            == ErrorKind::EncodingError),
        <K as EncodeGAT>::encodable(key) ==> lookup_outcome(
            db,
            <K as EncodeGAT>::encoding(key),
            r,
            |b| <V as DecodeGAT>::decodable(b),
            |b| <V as DecodeGAT>::decoded::<'t>(b),
            |b, v| <V as DecodeGAT>::decodes(b, v),
        ),
{
    match <K as EncodeGAT>::encode(key) {
        Err(_) => Err(Error::encoding()),
        Ok(kb) => get_decoded_split_gat::<V>(db, cow_bytes(&kb)),
    }
}

/// Values that have a borrowed form at every lifetime.
pub trait MyRefGAT: View + Sized {
    type Ref<'a>: 'a + Copy + Sized;

    /// The value that the borrowed form `r` presents.
    spec fn ref_view<'a>(r: Self::Ref<'a>) -> <Self as View>::V;

    /// Shortens the lifetime of a borrowed form.
    fn upcast<'a: 'b, 'b>(r: Self::Ref<'a>) -> (o: Self::Ref<'b>)
        ensures
            Self::ref_view(o) == Self::ref_view(r),
    ;

    fn get_ref<'a>(&'a self) -> (r: Self::Ref<'a>)
        ensures
            Self::ref_view(r) == self@,
    ;

    fn to_owned(reference: Self::Ref<'_>) -> (r: Self)
        ensures
            r@ == Self::ref_view(reference),
    ;
}

/// A value in its borrowed form or owned.
pub enum RefOrOwnedGAT<'a, T> where T: MyRefGAT {
    Ref(<T as MyRefGAT>::Ref<'a>),
    Owned(T),
}

impl<'a, T> View for RefOrOwnedGAT<'a, T> where T: MyRefGAT {
    type V = <T as View>::V;

    open spec fn view(&self) -> <T as View>::V {
        match self {
            RefOrOwnedGAT::Ref(r) => T::ref_view(*r),
            RefOrOwnedGAT::Owned(o) => o@,
        }
    }
}

impl<'a, T> RefOrOwnedGAT<'a, T> where T: MyRefGAT, for<'c> <T as MyRefGAT>::Ref<'c>: Copy {
    /// The borrowed form of the value, whichever form holds it.
    pub fn get_ref<'b>(&'b self) -> (r: <T as MyRefGAT>::Ref<'b>) where 'a: 'b
        ensures
            T::ref_view(r) == self@,
    {
        match self {
            RefOrOwnedGAT::Ref(x) => T::upcast(*x),
            RefOrOwnedGAT::Owned(o) => o.get_ref(),
        }
    }
}

impl MyRefGAT for MyStructOwned {
    type Ref<'a> = MyStructRef<'a>;

    open spec fn ref_view<'a>(r: MyStructRef<'a>) -> (Seq<char>, Seq<char>) {
        r@
    }

    fn upcast<'a: 'b, 'b>(r: MyStructRef<'a>) -> (o: MyStructRef<'b>) {
        r
    }

    fn get_ref<'a>(&'a self) -> (r: MyStructRef<'a>) {
        MyStructRef { x: self.x.as_str(), y: self.y.as_str() }
    }

    fn to_owned(reference: MyStructRef<'_>) -> (r: MyStructOwned) {
        MyStructOwned { x: reference.x.to_owned(), y: reference.y.to_owned() }
    }
}

/// A pair of texts, viewed in place or owned.
pub type PairGAT<'a> = RefOrOwnedGAT<'a, MyStructOwned>;

/// The discriminant written for a pair: zero for a view, one for an owned pair.
pub open spec fn pair_tag(item: PairGAT<'_>) -> u8 {
    if item is Ref {
        0
    } else {
        1
    }
}

/// The codec of pairs of texts in the frame of `wire`: a zero discriminant
/// decodes to a view into the buffer, any other to an owned copy.
pub struct MyStructCodec3;

impl CodecGAT for MyStructCodec3 {
    type Item<'a> = PairGAT<'a>;
    type Error = Error;

    open spec fn encodable<'a>(item: PairGAT<'a>) -> bool {
        fits_field(item@.0) && fits_field(item@.1)
    }

    open spec fn encoding<'a>(item: PairGAT<'a>) -> Seq<u8> {
        frame(pair_tag(item), item@.0, item@.1)
    }

    open spec fn encode_failure(e: Error) -> bool {
        e.kind == ErrorKind::EncodingError
    }

    open spec fn decodable(bytes: Seq<u8>) -> bool {
        parse_frame(bytes) is Some
    }

    open spec fn decoded<'a>(bytes: Seq<u8>) -> <Self::Item<'a> as View>::V {
        (parse_frame(bytes)->Some_0.1, parse_frame(bytes)->Some_0.2)
    }

    /// A zero discriminant gives a view whose texts are the very field bytes
    /// of the buffer; any other gives an owned pair.
    open spec fn decodes<'a>(bytes: Seq<u8>, item: PairGAT<'a>) -> bool {
        &&& (item is Ref <==> bytes[0] == 0)
        &&& item matches RefOrOwnedGAT::Ref(v) ==> v.x.spec_bytes() == bytes.subrange(1, 5)
            && v.y.spec_bytes() == bytes.subrange(5, 9)
    }

    open spec fn decode_failure(e: Error) -> bool {
        e.kind == ErrorKind::MalformedInput
    }

    fn encode<'a>(item: Self::Item<'a>) -> (r: Result<Cow<'a, [u8]>, Error>) {
        let tag: u8 = match &item {
            RefOrOwnedGAT::Ref(_) => 0,
            RefOrOwnedGAT::Owned(_) => 1,
        };
        let MyStructRef { x, y } = item.get_ref();
        match encode_frame(tag, x, y) {
            Ok(v) => Ok(Cow::Owned(v)),
            Err(e) => Err(e),
        }
    }

    fn decode<'a>(bytes: &'a [u8]) -> (r: Result<PairGAT<'a>, Error>) {
        match decode_frame(bytes) {
            Err(e) => Err(e),
            Ok((true, x, y)) => Ok(RefOrOwnedGAT::Ref(MyStructRef { x, y })),
            Ok((false, x, y)) => Ok(
                RefOrOwnedGAT::Owned(MyStructOwned { x: x.to_owned(), y: y.to_owned() }),
            ),
        }
    }
}

impl EncodeGAT for MyStructCodec3 {
    type EItem<'a> = PairGAT<'a>;
    type Error = Error;

    open spec fn encodable<'a>(item: PairGAT<'a>) -> bool {
        <MyStructCodec3 as CodecGAT>::encodable(item)
    }

    open spec fn encoding<'a>(item: PairGAT<'a>) -> Seq<u8> {
        <MyStructCodec3 as CodecGAT>::encoding(item)
    }

    open spec fn encode_failure(e: Error) -> bool {
        e.kind == ErrorKind::EncodingError
    }

    fn encode<'a>(item: Self::EItem<'a>) -> (r: Result<Cow<'a, [u8]>, Error>) {
        <MyStructCodec3 as CodecGAT>::encode(item)
    }
}

impl DecodeGAT for MyStructCodec3 {
    type DItem<'a> = PairGAT<'a>;
    type Error = Error;

    open spec fn decodable(bytes: Seq<u8>) -> bool {
        <MyStructCodec3 as CodecGAT>::decodable(bytes)
    }

    open spec fn decoded<'a>(bytes: Seq<u8>) -> <Self::DItem<'a> as View>::V {
        <MyStructCodec3 as CodecGAT>::decoded::<'a>(bytes)
    }

    open spec fn decodes<'a>(bytes: Seq<u8>, item: PairGAT<'a>) -> bool {
        <MyStructCodec3 as CodecGAT>::decodes(bytes, item)
    }

    open spec fn decode_failure(e: Error) -> bool {
        e.kind == ErrorKind::MalformedInput
    }

    fn decode<'a>(bytes: &'a [u8]) -> (r: Result<PairGAT<'a>, Error>) {
        <MyStructCodec3 as CodecGAT>::decode(bytes)
    }
}

impl CodecGAT2 for MyStructCodec3 {
    type Item<'a> = PairGAT<'a>;
}

/// What `MyStructCodec3` writes for a pair decodes again, to a pair of the
/// same form holding the same texts.
pub proof fn lemma_gat_round_trip<'a>(item: PairGAT<'a>)
    requires
        <MyStructCodec3 as CodecGAT>::encodable(item),
    ensures
        <MyStructCodec3 as CodecGAT>::decodable(<MyStructCodec3 as CodecGAT>::encoding(item)),
        <MyStructCodec3 as CodecGAT>::decoded::<'a>(<MyStructCodec3 as CodecGAT>::encoding(item))
            == item@,
        forall|back: PairGAT<'a>|
            #![trigger <MyStructCodec3 as CodecGAT>::decodes(<MyStructCodec3 as CodecGAT>::encoding(item), back)]
            <MyStructCodec3 as CodecGAT>::decodes(<MyStructCodec3 as CodecGAT>::encoding(item), back)
                ==> (back is Ref <==> item is Ref),
{
    lemma_frame_round_trip(pair_tag(item), item@.0, item@.1);
}

} // verus!
