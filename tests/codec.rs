use std::borrow::Cow;

use kv_codec::gat::{self, CodecGAT, MyRefGAT, MyStructCodec3, RefOrOwnedGAT};
use kv_codec::impls::{
    ByteMuckCodec, ByteSlice, MyRef, MyStruct, MyStructCodec, MyStructOwned, MyStructRef, U8Codec,
};
use kv_codec::trait_def::{self, Codec, Decode, Encode};
use kv_codec::wire::{decode_frame, encode_frame, read_text, FIELD_WIDTH, FRAME_LEN};
use kv_codec::{bytes_equal, Error, ErrorKind, DB};

fn owned(x: &str, y: &str) -> MyStructOwned {
    MyStructOwned { x: x.to_string(), y: y.to_string() }
}

fn malformed() -> Error {
    Error { kind: ErrorKind::MalformedInput }
}

fn encoding() -> Error {
    Error { kind: ErrorKind::EncodingError }
}

fn pair_of(item: &MyStruct<'_>) -> (String, String) {
    let r = item.get_ref();
    (r.x.to_string(), r.y.to_string())
}

#[test]
fn encode_owned_pair_writes_nonzero_discriminant() {
    let item = MyStruct::Owned(owned("abcd", "wxyz"));
    let bytes = MyStructCodec::encode(item).unwrap().into_owned();
    assert_ne!(bytes[0], 0);
    assert_eq!(&bytes[1..], b"abcdwxyz");
    let back = MyStructCodec::decode(&bytes).unwrap();
    assert!(matches!(back, MyStruct::Owned(_)));
    assert_eq!(pair_of(&back), ("abcd".to_string(), "wxyz".to_string()));
}

#[test]
fn decode_zero_discriminant_borrows_from_buffer() {
    let bytes: Vec<u8> = vec![0, b'a', b'b', b'c', b'd', b'w', b'x', b'y', b'z'];
    let back = MyStructCodec::decode(&bytes).unwrap();
    match &back {
        MyStruct::Ref(r) => {
            assert_eq!(r.x, "abcd");
            assert_eq!(r.y, "wxyz");
            assert_eq!(r.x.as_ptr(), bytes[1..].as_ptr());
            assert_eq!(r.y.as_ptr(), bytes[5..].as_ptr());
        }
        MyStruct::Owned(_) => panic!("expected a view"),
    }
    let m = back.materialize();
    let a = MyStruct::Owned(owned("abcd", "wxyz"));
    let a_bytes = MyStructCodec::encode(a).unwrap().into_owned();
    let a_back = MyStructCodec::decode(&a_bytes).unwrap().materialize();
    assert_eq!((m.x.clone(), m.y.clone()), (a_back.x, a_back.y));
    assert_eq!((m.x, m.y), ("abcd".to_string(), "wxyz".to_string()));
}

#[test]
fn decode_short_buffer_is_malformed() {
    let bytes: Vec<u8> = vec![0, b'a', b'b'];
    assert!(matches!(MyStructCodec::decode(&bytes), Err(e) if e == malformed()));
    let eight: Vec<u8> = vec![0, b'a', b'b', b'c', b'd', b'w', b'x', b'y'];
    assert!(matches!(MyStructCodec::decode(&eight), Err(e) if e == malformed()));
    assert!(matches!(MyStructCodec::decode(&[]), Err(e) if e == malformed()));
}

#[test]
fn decode_invalid_utf8_is_malformed() {
    let first: Vec<u8> = vec![0, 0xff, b'b', b'c', b'd', b'w', b'x', b'y', b'z'];
    assert!(matches!(MyStructCodec::decode(&first), Err(e) if e == malformed()));
    let second: Vec<u8> = vec![1, b'a', b'b', b'c', b'd', b'w', 0xc3, b'y', b'z'];
    assert!(matches!(MyStructCodec::decode(&second), Err(e) if e == malformed()));
}

#[test]
fn round_trip_keeps_form_and_texts() {
    let x = String::from("h\u{e9}y");
    let view = MyStruct::Ref(MyStructRef { x: &x, y: "wxyz" });
    let bytes = MyStructCodec::encode(view).unwrap().into_owned();
    assert_eq!(bytes[0], 0);
    let back = MyStructCodec::decode(&bytes).unwrap();
    assert!(matches!(back, MyStruct::Ref(_)));
    assert_eq!(pair_of(&back), (x.clone(), "wxyz".to_string()));

    let own = MyStruct::Owned(owned("\u{e9}\u{e9}", "1234"));
    let bytes = MyStructCodec::encode(own).unwrap().into_owned();
    let back = MyStructCodec::decode(&bytes).unwrap().materialize();
    assert_eq!((back.x, back.y), ("\u{e9}\u{e9}".to_string(), "1234".to_string()));
}

#[test]
fn owned_discriminant_is_consistent() {
    let a = MyStructCodec::encode(MyStruct::Owned(owned("abcd", "wxyz"))).unwrap().into_owned();
    let b = MyStructCodec::encode(MyStruct::Owned(owned("1234", "5678"))).unwrap().into_owned();
    assert_ne!(a[0], 0);
    assert_eq!(a[0], b[0]);
}

#[test]
fn encode_rejects_fields_of_wrong_width() {
    let long = MyStruct::Owned(owned("abcde", "wxyz"));
    assert!(matches!(MyStructCodec::encode(long), Err(e) if e == encoding()));
    let short = MyStruct::Ref(MyStructRef { x: "abcd", y: "xyz" });
    assert!(matches!(MyStructCodec::encode(short), Err(e) if e == encoding()));
}

#[test]
fn decode_ignores_bytes_past_the_frame() {
    let bytes: Vec<u8> = vec![7, b'a', b'b', b'c', b'd', b'w', b'x', b'y', b'z', 9, 9];
    let back = MyStructCodec::decode(&bytes).unwrap();
    assert!(matches!(back, MyStruct::Owned(_)));
    assert_eq!(pair_of(&back), ("abcd".to_string(), "wxyz".to_string()));
}

#[test]
fn frame_functions_agree_with_layout() {
    assert_eq!(FIELD_WIDTH, 4);
    assert_eq!(FRAME_LEN, 9);
    let v = encode_frame(5, "abcd", "wxyz").unwrap();
    assert_eq!(v, vec![5, b'a', b'b', b'c', b'd', b'w', b'x', b'y', b'z']);
    let (z, x, y) = decode_frame(&v).unwrap();
    assert!(!z);
    assert_eq!((x, y), ("abcd", "wxyz"));
    assert!(encode_frame(0, "", "wxyz").is_err());
}

#[test]
fn read_text_checks_utf8() {
    assert_eq!(read_text(b"abcd"), Some("abcd"));
    assert_eq!(read_text(&[0xe2, 0x82, 0xac]), Some("\u{20ac}"));
    assert_eq!(read_text(&[0xe2, 0x82]), None);
    assert_eq!(read_text(&[0xed, 0xa0, 0x80]), None);
}

#[test]
fn bytes_equal_compares_contents() {
    assert!(bytes_equal(b"abc", b"abc"));
    assert!(!bytes_equal(b"abc", b"abd"));
    assert!(!bytes_equal(b"abc", b"ab"));
    assert!(bytes_equal(b"", b""));
}

#[test]
fn u8_codec_round_trip_and_empty_input() {
    let b = <U8Codec as Codec>::encode(42).unwrap();
    assert_eq!(&*b, &[42u8][..]);
    assert_eq!(<U8Codec as Codec>::decode(&[7, 8]).unwrap(), 7);
    assert!(<U8Codec as Codec>::decode(&[]).is_err());
    assert_eq!(&*<U8Codec as Encode>::encode(3).unwrap(), &[3u8][..]);
    assert_eq!(<U8Codec as Decode>::decode(&[9]).unwrap(), 9);
}

#[test]
fn byte_slice_codec_borrows() {
    let data: Vec<u8> = vec![1, 2, 3];
    let enc = ByteSlice::encode(&data).unwrap();
    assert!(matches!(enc, Cow::Borrowed(_)));
    assert_eq!(&*enc, &data[..]);
    let dec = ByteSlice::decode(&data).unwrap();
    assert_eq!(dec.as_ptr(), data.as_ptr());
}

#[test]
fn bytemuck_codec_for_u8() {
    let v: u8 = 200;
    let enc = ByteMuckCodec::<u8>::encode(&v).unwrap();
    assert_eq!(&*enc, &[200u8][..]);
    let data: Vec<u8> = vec![17];
    assert_eq!(*ByteMuckCodec::<u8>::decode(&data).unwrap(), 17);
    assert!(matches!(ByteMuckCodec::<u8>::decode(&[1, 2]), Err(e) if e == malformed()));
    assert!(ByteMuckCodec::<u8>::decode(&[]).is_err());
}

fn sample_db() -> DB {
    let mut db = DB::default();
    db.keys.push(b"k1".to_vec());
    db.values.push(vec![0, b'a', b'b', b'c', b'd', b'w', b'x', b'y', b'z']);
    db.keys.push(b"k2".to_vec());
    db.values.push(vec![0, b'a']);
    db.keys.push(vec![5]);
    db.values.push(vec![1, b'1', b'2', b'3', b'4', b'5', b'6', b'7', b'8']);
    db.keys.push(b"k1".to_vec());
    db.values.push(vec![9]);
    db
}

#[test]
fn db_get_finds_first_entry() {
    let db = sample_db();
    assert_eq!(db.get(b"k1"), Some(&[0, b'a', b'b', b'c', b'd', b'w', b'x', b'y', b'z'][..]));
    assert_eq!(db.get(b"nope"), None);
    let mut uneven = DB::default();
    uneven.keys.push(b"a".to_vec());
    assert_eq!(uneven.get(b"a"), None);
}

#[test]
fn get_with_codec_looks_up_and_decodes() {
    let db = sample_db();
    let r = trait_def::get_with_codec::<ByteSlice, MyStructCodec>(&db, b"k1").unwrap().unwrap();
    assert!(matches!(r, MyStruct::Ref(_)));
    assert_eq!(pair_of(&r), ("abcd".to_string(), "wxyz".to_string()));
    assert!(trait_def::get_with_codec::<ByteSlice, MyStructCodec>(&db, b"zz").unwrap().is_none());
    let bad = trait_def::get_with_codec::<ByteSlice, MyStructCodec>(&db, b"k2");
    assert!(matches!(bad, Err(e) if e == malformed()));
    let key = MyStruct::Owned(owned("toolong", "x"));
    let enc = trait_def::get_with_codec::<MyStructCodec, ByteSlice>(&db, key);
    assert!(matches!(enc, Err(e) if e == encoding()));
}

#[test]
fn get_with_codec_variants_on_split_traits() {
    let db = sample_db();
    assert_eq!(trait_def::get_with_codec_split::<U8Codec, U8Codec>(&db, 5).unwrap(), Some(1));
    assert_eq!(trait_def::get_with_codec2::<U8Codec, U8Codec>(&db, 5).unwrap(), Some(1));
    assert_eq!(trait_def::get_with_codec_owned::<U8Codec, U8Codec>(&db, &5).unwrap(), Some(1));
    assert_eq!(trait_def::get_with_codec2::<U8Codec, U8Codec>(&db, 6).unwrap(), None);
}

#[test]
fn gat_codec_round_trip_and_lookup() {
    let item: gat::PairGAT = RefOrOwnedGAT::Owned(owned("abcd", "wxyz"));
    let bytes = MyStructCodec3::encode(item).unwrap().into_owned();
    assert_eq!(bytes, vec![1, b'a', b'b', b'c', b'd', b'w', b'x', b'y', b'z']);
    let back = <MyStructCodec3 as CodecGAT>::decode(&bytes).unwrap();
    assert!(matches!(back, RefOrOwnedGAT::Owned(_)));
    let r = back.get_ref();
    assert_eq!((r.x, r.y), ("abcd", "wxyz"));

    let mut db = DB::default();
    db.keys.push(bytes.clone());
    db.values.push(vec![0, b'1', b'2', b'3', b'4', b'5', b'6', b'7', b'8']);
    let key: gat::PairGAT = RefOrOwnedGAT::Ref(MyStructRef { x: "abcd", y: "wxyz" });
    // The key is written with discriminant zero, so it is not the stored key.
    assert!(gat::get_with_codec::<MyStructCodec3, MyStructCodec3>(&db, key).unwrap().is_none());
    let key: gat::PairGAT = RefOrOwnedGAT::Owned(owned("abcd", "wxyz"));
    let found = gat::get_with_codec::<MyStructCodec3, MyStructCodec3>(&db, key).unwrap().unwrap();
    assert!(matches!(found, RefOrOwnedGAT::Ref(_)));
    let key: gat::PairGAT = RefOrOwnedGAT::Owned(owned("abcd", "wxyz"));
    assert!(gat::get_with_codec_2::<MyStructCodec3, MyStructCodec3>(&db, key).unwrap().is_some());
    let key: gat::PairGAT = RefOrOwnedGAT::Owned(owned("abcd", "wxyz"));
    assert!(gat::get_with_codec_3::<MyStructCodec3, MyStructCodec3>(&db, key).unwrap().is_some());
    let key: gat::PairGAT = RefOrOwnedGAT::Owned(owned("abc", "wxyz"));
    let r = gat::get_with_codec_3::<MyStructCodec3, MyStructCodec3>(&db, key);
    assert!(matches!(r, Err(e) if e == encoding()));
}

#[test]
fn borrowed_forms_present_the_owned_value() {
    let o = owned("abcd", "wxyz");
    let r = <MyStructOwned as MyRef>::get_ref(&o);
    assert_eq!((r.x, r.y), ("abcd", "wxyz"));
    let back = <MyStructOwned as MyRef>::to_owned(r);
    assert_eq!((back.x, back.y), ("abcd".to_string(), "wxyz".to_string()));
    let g = <MyStructOwned as MyRefGAT>::get_ref(&o);
    let u = <MyStructOwned as MyRefGAT>::upcast(g);
    assert_eq!((u.x, u.y), ("abcd", "wxyz"));
    let copy = <MyStructOwned as MyRefGAT>::to_owned(u);
    assert_eq!(copy.x, "abcd");
    let ro: RefOrOwnedGAT<MyStructOwned> = RefOrOwnedGAT::Ref(MyStructRef { x: "ab", y: "cd" });
    let r = ro.get_ref();
    assert_eq!((r.x, r.y), ("ab", "cd"));
}

#[test]
fn bytemuck_encoding_borrows_the_value() {
    let v: u8 = 9;
    let enc = ByteMuckCodec::<u8>::encode(&v).unwrap();
    match enc {
        Cow::Borrowed(b) => {
            assert_eq!(b, &[9u8][..]);
            assert!(std::ptr::eq(&b[0], &v));
        }
        Cow::Owned(_) => panic!("expected borrowed bytes"),
    }
}

#[test]
fn decode_errors_are_malformed_input() {
    assert!(matches!(<U8Codec as Codec>::decode(&[]), Err(e) if e == malformed()));
    assert!(matches!(<MyStructCodec3 as CodecGAT>::decode(&[0, b'a', b'b']), Err(e) if e == malformed()));
    let bad: Vec<u8> = vec![0, 0xff, b'b', b'c', b'd', b'w', b'x', b'y', b'z'];
    assert!(matches!(<MyStructCodec3 as CodecGAT>::decode(&bad), Err(e) if e == malformed()));
    let ok: Vec<u8> = vec![0, b'a', b'b', b'c', b'd', b'w', b'x', b'y', b'z'];
    match <MyStructCodec3 as CodecGAT>::decode(&ok).unwrap() {
        RefOrOwnedGAT::Ref(r) => assert_eq!(r.x.as_ptr(), ok[1..].as_ptr()),
        RefOrOwnedGAT::Owned(_) => panic!("expected a view"),
    }
}
