//! Codecs for byte slices, bytes, plain-old-data values, and a pair of texts
//! that is decoded either in place or as owned strings.
use std::borrow::Cow;
use std::marker::PhantomData;
use vstd::prelude::*;
use vstd::string::StringSliceAdditionalSpecFns;

use crate::trait_def::{Codec, Codec2, CodecOwned, Decode, DefaultCodec, Encode};
use crate::wire::{
    decode_frame, encode_frame, fits_field, frame, lemma_frame_round_trip, parse_frame, FRAME_LEN,
};
use crate::{Error, ErrorKind};

verus! {

/// Relies on `bytemuck::bytes_of`: the memory of a byte is that byte.
#[verifier::external_body]
fn byte_bytes(t: &u8) -> (r: &[u8])
    ensures
        r@ == seq![*t],
{
    bytemuck::bytes_of(t)
}

/// Relies on `bytemuck::try_from_bytes`: a byte is read in place from a
/// slice of exactly one byte (a byte needs no alignment), and from no other.
#[verifier::external_body]
fn byte_from_bytes(s: &[u8]) -> (r: Option<&u8>)
    ensures
        r is Some <==> s@.len() == 1,
        r matches Some(t) ==> *t == s@[0],
{
    bytemuck::try_from_bytes(s).ok()
}

/// The codec of byte slices: the bytes are the encoding, in both directions
/// without a copy.
pub struct ByteSlice;

impl<'a> Codec<'a> for ByteSlice {
    type Item = &'a [u8];
    type Error = Error;

    open spec fn encodable(item: &'a [u8]) -> bool {
        true
    }

    open spec fn encoding(item: &'a [u8]) -> Seq<u8> {
        item@
    }

    open spec fn encode_failure(e: Error) -> bool {
        e.kind == ErrorKind::EncodingError
    }

    open spec fn decodable(bytes: Seq<u8>) -> bool {
        true
    }

    open spec fn decoded(bytes: Seq<u8>) -> Seq<u8> {
        bytes
    }

    open spec fn decodes(bytes: Seq<u8>, item: &'a [u8]) -> bool {
        true
    }

    open spec fn decode_failure(e: Error) -> bool {
        e.kind == ErrorKind::MalformedInput
    }

    fn encode(item: &'a [u8]) -> (r: Result<Cow<'a, [u8]>, Error>)
        ensures
            r matches Ok(Cow::Borrowed(b)) && b@ == item@,
    {
        Ok(Cow::Borrowed(item))
    }

    fn decode(bytes: &'a [u8]) -> (r: Result<&'a [u8], Error>) {
        Ok(bytes)
    }
}

impl<'a> DefaultCodec<'a> for &'a [u8] {
    type Codec = ByteSlice;
}

/// The codec of single bytes: a byte is encoded as itself, and decoded from
/// the first byte of a non-empty buffer.
pub struct U8Codec;

impl<'a> Codec<'a> for U8Codec {
    type Item = u8;
    type Error = Error;

    open spec fn encodable(item: u8) -> bool {
        true
    }

    open spec fn encoding(item: u8) -> Seq<u8> {
        seq![item]
    }

    open spec fn encode_failure(e: Error) -> bool {
        e.kind == ErrorKind::EncodingError
    }

    open spec fn decodable(bytes: Seq<u8>) -> bool {
        bytes.len() >= 1
    }

    open spec fn decoded(bytes: Seq<u8>) -> u8 {
        bytes[0]
    }

    open spec fn decodes(bytes: Seq<u8>, item: u8) -> bool {
        true
    }

    open spec fn decode_failure(e: Error) -> bool {
        e.kind == ErrorKind::MalformedInput
    }

    fn encode(item: u8) -> (r: Result<Cow<'a, [u8]>, Error>) {
        let v: Vec<u8> = vec![item];
        assert(v@ =~= seq![item]);
        Ok(Cow::Owned(v))
    }

    fn decode(bytes: &'a [u8]) -> (r: Result<u8, Error>) {
        if bytes.len() == 0 {
            Err(Error::malformed())
        } else {
            Ok(bytes[0])
        }
    }
}

impl<'a> Encode<'a> for U8Codec {
    type EItem = u8;
    type Error = Error;

    open spec fn encodable(item: u8) -> bool {
        true
    }

    open spec fn encoding(item: u8) -> Seq<u8> {
        seq![item]
    }

    open spec fn encode_failure(e: Error) -> bool {
        e.kind == ErrorKind::EncodingError
    }

    fn encode(item: u8) -> (r: Result<Cow<'a, [u8]>, Error>) {
        <U8Codec as Codec<'a>>::encode(item)
    }
}

impl<'a> Decode<'a> for U8Codec {
    type DItem = u8;
    type Error = Error;

    open spec fn decodable(bytes: Seq<u8>) -> bool {
        bytes.len() >= 1
    }

    open spec fn decoded(bytes: Seq<u8>) -> u8 {
        bytes[0]
    }

    open spec fn decodes(bytes: Seq<u8>, item: u8) -> bool {
        true
    }

    open spec fn decode_failure(e: Error) -> bool {
        e.kind == ErrorKind::MalformedInput
    }

    fn decode(bytes: &'a [u8]) -> (r: Result<u8, Error>) {
        <U8Codec as Codec<'a>>::decode(bytes)
    }
}

impl<'a> Codec2<'a> for U8Codec {
    type Item = u8;
}

impl CodecOwned for U8Codec {
    type OwnedItem = u8;

    open spec fn owned_encodable(owned: u8) -> bool {
        true
    }

    open spec fn owned_encoding(owned: u8) -> Seq<u8> {
        seq![owned]
    }

    fn as_item<'a>(owned: &'a u8) -> (r: u8) {
        *owned
    }
}

/// A codec for plain-old-data values: a value is encoded as its own memory,
/// and decoded in place from a buffer of exactly its size.
pub struct ByteMuckCodec<T> {
    _phantom: PhantomData<T>,
}

// The codec is given for `u8`: Verus does not take an impl bounded by
// bytemuck's `Pod`, whose declaration it is not given.
impl<'a> Codec<'a> for ByteMuckCodec<u8> {
    type Item = &'a u8;
    type Error = Error;

    open spec fn encodable(item: &'a u8) -> bool {
        true
    }

    open spec fn encoding(item: &'a u8) -> Seq<u8> {
        seq![*item]
    }

    open spec fn encode_failure(e: Error) -> bool {
        e.kind == ErrorKind::EncodingError
    }

    open spec fn decodable(bytes: Seq<u8>) -> bool {
        bytes.len() == 1
    }

    open spec fn decoded(bytes: Seq<u8>) -> u8 {
        bytes[0]
    }

    open spec fn decodes(bytes: Seq<u8>, item: &'a u8) -> bool {
        true
    }

    open spec fn decode_failure(e: Error) -> bool {
        e.kind == ErrorKind::MalformedInput
    }

    fn encode(item: &'a u8) -> (r: Result<Cow<'a, [u8]>, Error>)
        ensures
            r matches Ok(Cow::Borrowed(b)) && b@ == seq![*item],
    {
        Ok(Cow::Borrowed(byte_bytes(item)))
    }

    fn decode(bytes: &'a [u8]) -> (r: Result<&'a u8, Error>) {
        match byte_from_bytes(bytes) {
            Some(t) => Ok(t),
            None => Err(Error::malformed()),
        }
    }
}

impl<'a> DefaultCodec<'a> for u8 {
    type Codec = ByteMuckCodec<u8>;
}

/// A pair of texts borrowed from elsewhere, typically from a buffer.
#[derive(Clone, Copy)]
pub struct MyStructRef<'a> {
    pub x: &'a str,
    pub y: &'a str,
}

/// A pair of texts that owns its strings.
pub struct MyStructOwned {
    pub x: String,
    pub y: String,
}

/// A pair of texts, either viewed in place or owned.
pub enum MyStruct<'a> {
    Ref(MyStructRef<'a>),
    Owned(MyStructOwned),
}

impl<'a> View for MyStructRef<'a> {
    type V = (Seq<char>, Seq<char>);

    open spec fn view(&self) -> (Seq<char>, Seq<char>) {
        (self.x@, self.y@)
    }
}

impl View for MyStructOwned {
    type V = (Seq<char>, Seq<char>);

    open spec fn view(&self) -> (Seq<char>, Seq<char>) {
        (self.x@, self.y@)
    }
}

impl<'a> View for MyStruct<'a> {
    type V = (Seq<char>, Seq<char>);

    open spec fn view(&self) -> (Seq<char>, Seq<char>) {
        match self {
            MyStruct::Ref(r) => r@,
            MyStruct::Owned(o) => o@,
        }
    }
}

impl<'a> MyStruct<'a> {
    /// A view of both texts, whichever form holds them.
    pub fn get_ref<'b: 'a>(&'b self) -> (r: MyStructRef<'a>)
        ensures
            r@ == self@,
    {
        match self {
            MyStruct::Ref(x) => *x,
            MyStruct::Owned(o) => MyStructRef { x: o.x.as_str(), y: o.y.as_str() },
        }
    }

    /// An owned copy of both texts.
    pub fn materialize(&self) -> (r: MyStructOwned)
        ensures
            r@ == self@,
    {
        let MyStructRef { x, y } = self.get_ref();
        MyStructOwned { x: x.to_owned(), y: y.to_owned() }
    }
}

/// Values that have a borrowed form, with the lifetime of the borrow as a
/// parameter of the trait.
pub trait MyRef<'a>: View + Sized {
    type Ref;

    /// The value that the borrowed form `r` presents.
    spec fn ref_view(r: Self::Ref) -> <Self as View>::V;

    fn get_ref(&'a self) -> (r: Self::Ref)
        ensures
            Self::ref_view(r) == self@,
    ;

    fn to_owned(reference: Self::Ref) -> (r: Self)
        ensures
            r@ == Self::ref_view(reference),
    ;
}

impl<'a> MyRef<'a> for MyStructOwned {
    type Ref = MyStructRef<'a>;

    open spec fn ref_view(r: MyStructRef<'a>) -> (Seq<char>, Seq<char>) {
        r@
    }

    fn get_ref(&'a self) -> (r: MyStructRef<'a>) {
        MyStructRef { x: self.x.as_str(), y: self.y.as_str() }
    }

    fn to_owned(reference: MyStructRef<'a>) -> (r: MyStructOwned) {
        MyStructOwned { x: reference.x.to_owned(), y: reference.y.to_owned() }
    }
}

/// A value in its borrowed form or owned.
pub enum RefOrOwned<'a, T> where T: MyRef<'a> {
    Ref(<T as MyRef<'a>>::Ref),
    Owned(T),
}

/// The discriminant written for a pair: zero for a view, one for an owned pair.
pub open spec fn tag_of(item: MyStruct<'_>) -> u8 {
    if item is Ref {
        0
    } else {
        1
    }
}

/// The codec of pairs of texts: a frame of a discriminant and two fields of
/// four UTF-8 bytes each. A zero discriminant decodes to a view into the
/// buffer, any other to an owned copy.
pub struct MyStructCodec;

impl<'a> Codec<'a> for MyStructCodec {
    type Item = MyStruct<'a>;
    type Error = Error;

    open spec fn encodable(item: MyStruct<'a>) -> bool {
        fits_field(item@.0) && fits_field(item@.1)
    }

    open spec fn encoding(item: MyStruct<'a>) -> Seq<u8> {
        frame(tag_of(item), item@.0, item@.1)
    }

    open spec fn encode_failure(e: Error) -> bool {
        e.kind == ErrorKind::EncodingError
    }

    open spec fn decodable(bytes: Seq<u8>) -> bool {
        parse_frame(bytes) is Some
    }

    open spec fn decoded(bytes: Seq<u8>) -> (Seq<char>, Seq<char>) {
        (parse_frame(bytes)->Some_0.1, parse_frame(bytes)->Some_0.2)
    }

    /// A zero discriminant gives a view whose texts are the very field bytes
    /// of the buffer; any other gives an owned pair.
    open spec fn decodes(bytes: Seq<u8>, item: MyStruct<'a>) -> bool {
        &&& (item is Ref <==> bytes[0] == 0)
        &&& item matches MyStruct::Ref(v) ==> v.x.spec_bytes() == bytes.subrange(1, 5)
            && v.y.spec_bytes() == bytes.subrange(5, 9)
    }

    open spec fn decode_failure(e: Error) -> bool {
        e.kind == ErrorKind::MalformedInput
    }

    fn encode(item: MyStruct<'a>) -> (r: Result<Cow<'a, [u8]>, Error>) {
        let tag: u8 = match &item {
            MyStruct::Ref(_) => 0,
            MyStruct::Owned(_) => 1,
        };
        let MyStructRef { x, y } = item.get_ref();
        match encode_frame(tag, x, y) {
            Ok(v) => Ok(Cow::Owned(v)),
            Err(e) => Err(e),
        }
    }

    fn decode(bytes: &'a [u8]) -> (r: Result<MyStruct<'a>, Error>)
        ensures
            bytes@.len() < FRAME_LEN ==> (r matches Err(e) && e.kind == ErrorKind::MalformedInput),
    {
        match decode_frame(bytes) {
            Err(e) => Err(e),
            Ok((true, x, y)) => Ok(MyStruct::Ref(MyStructRef { x, y })),
            Ok((false, x, y)) => Ok(MyStruct::Owned(MyStructOwned { x: x.to_owned(), y: y.to_owned() })),
        }
    }
}

/// What `MyStructCodec` writes for a pair decodes again, to a pair of the
/// same form holding the same texts; so its owned copy equals the original's.
pub proof fn lemma_my_struct_round_trip<'a>(item: MyStruct<'a>)
    requires
        <MyStructCodec as Codec<'a>>::encodable(item),
    ensures
        <MyStructCodec as Codec<'a>>::decodable(<MyStructCodec as Codec<'a>>::encoding(item)),
        <MyStructCodec as Codec<'a>>::decoded(<MyStructCodec as Codec<'a>>::encoding(item))
            == item@,
        forall|back: MyStruct<'a>|
            #![trigger <MyStructCodec as Codec<'a>>::decodes(<MyStructCodec as Codec<'a>>::encoding(item), back)]
            <MyStructCodec as Codec<'a>>::decodes(<MyStructCodec as Codec<'a>>::encoding(item), back)
                ==> (back is Ref <==> item is Ref),
{
    lemma_frame_round_trip(tag_of(item), item@.0, item@.1);
}

/// A pair intended as a view is written with discriminant zero, an owned one
/// always with the same non-zero discriminant.
pub proof fn lemma_my_struct_discriminant<'a>(item: MyStruct<'a>)
    ensures
        item is Ref ==> <MyStructCodec as Codec<'a>>::encoding(item)[0] == 0,
        item is Owned ==> <MyStructCodec as Codec<'a>>::encoding(item)[0] == 1,
{
}

/// A buffer shorter than a frame holds no pair.
pub proof fn lemma_short_buffer_not_decodable<'a>(bytes: Seq<u8>)
    requires
        bytes.len() < FRAME_LEN,
    ensures
        !<MyStructCodec as Codec<'a>>::decodable(bytes),
{
}

} // verus!
