use process_remote::layout::{current_byte_order, ByteOrder, Layout};
use process_remote::marshal::{
    array_read_request, decode_utf16, read_address_array, read_scalar_array,
    read_wide_string, string_read_requests, MarshalError, ReadRequest, Scalar,
};

fn native_round_trip_u32(n: usize) {
    let values: Vec<u32> = (0..n as u32).map(|i| i.wrapping_mul(0x9E37_79B9) ^ 0xA5A5_0000).collect();
    let bytes: &[u8] = bytemuck::cast_slice(&values);
    assert_eq!(bytes.len(), n * 4);
    assert_eq!(read_scalar_array::<u32>(bytes, n, current_byte_order()), Ok(values));
}

#[test]
fn round_trip_of_no_values() {
    native_round_trip_u32(0);
}

#[test]
fn round_trip_of_one_value() {
    native_round_trip_u32(1);
}

#[test]
fn round_trip_of_1024_values() {
    native_round_trip_u32(1024);
}

#[test]
fn round_trip_of_other_widths() {
    let order = current_byte_order();
    let bytes8: Vec<u8> = vec![0, 1, 127, 128, 255];
    assert_eq!(read_scalar_array::<u8>(&bytes8, 5, order), Ok(bytes8.clone()));
    let v16: Vec<u16> = vec![0, 1, 0x00ff, 0x0100, 0xfffe, u16::MAX];
    assert_eq!(read_scalar_array::<u16>(bytemuck::cast_slice(&v16), v16.len(), order), Ok(v16.clone()));
    let v64: Vec<u64> = vec![0, 1, 0x0102_0304_0506_0708, u64::MAX, 1 << 63, 0xdead_beef];
    assert_eq!(read_scalar_array::<u64>(bytemuck::cast_slice(&v64), v64.len(), order), Ok(v64.clone()));
    let many: Vec<u64> = (0..1024u64).map(|i| i.wrapping_mul(0x9E37_79B9_7F4A_7C15)).collect();
    assert_eq!(read_scalar_array::<u64>(bytemuck::cast_slice(&many), 1024, order), Ok(many.clone()));
}

#[test]
fn both_byte_orders_by_hand() {
    let bytes = [0x01u8, 0x02, 0x03, 0x04, 0x05, 0x06, 0x07, 0x08];
    assert_eq!(
        read_scalar_array::<u32>(&bytes, 2, ByteOrder::Little),
        Ok(vec![0x0403_0201, 0x0807_0605])
    );
    assert_eq!(
        read_scalar_array::<u32>(&bytes, 2, ByteOrder::Big),
        Ok(vec![0x0102_0304, 0x0506_0708])
    );
    assert_eq!(
        read_scalar_array::<u16>(&bytes, 4, ByteOrder::Little),
        Ok(vec![0x0201, 0x0403, 0x0605, 0x0807])
    );
    assert_eq!(
        read_scalar_array::<u16>(&bytes, 4, ByteOrder::Big),
        Ok(vec![0x0102, 0x0304, 0x0506, 0x0708])
    );
    assert_eq!(
        read_scalar_array::<u64>(&bytes, 1, ByteOrder::Little),
        Ok(vec![0x0807_0605_0403_0201])
    );
    assert_eq!(
        read_scalar_array::<u64>(&bytes, 1, ByteOrder::Big),
        Ok(vec![0x0102_0304_0506_0708])
    );
    assert_eq!(read_scalar_array::<u8>(&bytes, 8, ByteOrder::Big), Ok(bytes.to_vec()));
}

#[test]
fn std_conversions_agree() {
    let values: Vec<u32> = vec![0, 1, 0xdead_beef, u32::MAX, 0x8000_0000];
    let mut le = Vec::new();
    let mut be = Vec::new();
    for v in values.iter() {
        le.extend_from_slice(&v.to_le_bytes());
        be.extend_from_slice(&v.to_be_bytes());
    }
    assert_eq!(read_scalar_array::<u32>(&le, 5, ByteOrder::Little), Ok(values.clone()));
    assert_eq!(read_scalar_array::<u32>(&be, 5, ByteOrder::Big), Ok(values.clone()));
}

#[test]
fn scalar_sizes_and_single_reads() {
    assert_eq!(<u8 as Scalar>::size(), 1);
    assert_eq!(<u16 as Scalar>::size(), 2);
    assert_eq!(<u32 as Scalar>::size(), 4);
    assert_eq!(<u64 as Scalar>::size(), 8);
    let bytes = [0xaau8, 0x11, 0x22, 0x33, 0x44, 0xbb];
    assert_eq!(<u32 as Scalar>::read(&bytes, 1, ByteOrder::Little), 0x4433_2211);
    assert_eq!(<u32 as Scalar>::read(&bytes, 1, ByteOrder::Big), 0x1122_3344);
    assert_eq!(<u16 as Scalar>::read(&bytes, 4, ByteOrder::Big), 0x44bb);
    assert_eq!(<u8 as Scalar>::read(&bytes, 5, ByteOrder::Little), 0xbb);
}

#[test]
fn wrong_number_of_bytes_is_a_length_mismatch() {
    let bytes = [0u8; 7];
    assert_eq!(
        read_scalar_array::<u32>(&bytes, 2, ByteOrder::Little),
        Err(MarshalError::LengthMismatch)
    );
    assert_eq!(
        read_scalar_array::<u32>(&bytes, 1, ByteOrder::Little),
        Err(MarshalError::LengthMismatch)
    );
    assert_eq!(
        read_scalar_array::<u32>(&[], 1, ByteOrder::Little),
        Err(MarshalError::LengthMismatch)
    );
    assert_eq!(
        read_scalar_array::<u64>(&bytes, usize::MAX, ByteOrder::Big),
        Err(MarshalError::LengthMismatch)
    );
    assert_eq!(read_scalar_array::<u32>(&[], 0, ByteOrder::Big), Ok(vec![]));
}

#[test]
fn other_byte_orders_are_unsupported() {
    let bytes = [0u8; 4];
    assert_eq!(
        read_scalar_array::<u32>(&bytes, 1, ByteOrder::Pdp),
        Err(MarshalError::UnsupportedByteOrder)
    );
    assert_eq!(
        read_scalar_array::<u32>(&bytes, 1, ByteOrder::Invalid),
        Err(MarshalError::UnsupportedByteOrder)
    );
    assert_eq!(
        read_scalar_array::<u32>(&bytes, 3, ByteOrder::Invalid),
        Err(MarshalError::UnsupportedByteOrder)
    );
    assert_eq!(
        read_wide_string(&bytes, 2, ByteOrder::Pdp),
        Err(MarshalError::UnsupportedByteOrder)
    );
}

#[test]
fn addresses_of_both_widths() {
    let bytes = [0x10u8, 0x20, 0x30, 0x40, 0x50, 0x60, 0x70, 0x80];
    let le4 = Layout { byte_order: ByteOrder::Little, address_width: 4 };
    let be4 = Layout { byte_order: ByteOrder::Big, address_width: 4 };
    let le8 = Layout { byte_order: ByteOrder::Little, address_width: 8 };
    let be8 = Layout { byte_order: ByteOrder::Big, address_width: 8 };
    assert_eq!(read_address_array(&bytes, 2, le4), Ok(vec![0x4030_2010, 0x8070_6050]));
    assert_eq!(read_address_array(&bytes, 2, be4), Ok(vec![0x1020_3040, 0x5060_7080]));
    assert_eq!(read_address_array(&bytes, 1, le8), Ok(vec![0x8070_6050_4030_2010]));
    assert_eq!(read_address_array(&bytes, 1, be8), Ok(vec![0x1020_3040_5060_7080]));
    assert_eq!(read_address_array(&bytes, 2, le8), Err(MarshalError::LengthMismatch));
    let odd = Layout { byte_order: ByteOrder::Little, address_width: 2 };
    assert_eq!(read_address_array(&bytes, 4, odd), Err(MarshalError::UnsupportedAddressWidth));
    let pdp = Layout { byte_order: ByteOrder::Pdp, address_width: 8 };
    assert_eq!(read_address_array(&bytes, 1, pdp), Err(MarshalError::UnsupportedByteOrder));
}

fn utf16_bytes(text: &str, order: ByteOrder) -> (Vec<u8>, usize) {
    let units: Vec<u16> = text.encode_utf16().collect();
    let mut bytes = Vec::new();
    for unit in units.iter() {
        if order == ByteOrder::Big {
            bytes.extend_from_slice(&unit.to_be_bytes());
        } else {
            bytes.extend_from_slice(&unit.to_le_bytes());
        }
    }
    (bytes, units.len())
}

#[test]
fn wide_string_with_non_ascii_text() {
    let text = "Grüße, мир! 日本語 😀𝄞 end";
    for order in [ByteOrder::Little, ByteOrder::Big] {
        let (bytes, units) = utf16_bytes(text, order);
        assert_eq!(read_wide_string(&bytes, units, order), Ok(text.to_string()));
    }
    assert_eq!(read_wide_string(&[], 0, ByteOrder::Little), Ok(String::new()));
}

#[test]
fn wide_string_length_must_fit() {
    let (bytes, units) = utf16_bytes("abc", ByteOrder::Little);
    assert_eq!(
        read_wide_string(&bytes, units + 1, ByteOrder::Little),
        Err(MarshalError::LengthMismatch)
    );
    assert_eq!(
        read_wide_string(&bytes[..5], units, ByteOrder::Little),
        Err(MarshalError::LengthMismatch)
    );
}

#[test]
fn unpaired_surrogate_fails_to_decode() {
    assert_eq!(decode_utf16(&[0x0041, 0xD800]), Err(MarshalError::DecodeError));
    assert_eq!(decode_utf16(&[0xD800, 0x0041]), Err(MarshalError::DecodeError));
    assert_eq!(decode_utf16(&[0xDC00]), Err(MarshalError::DecodeError));
    assert_eq!(decode_utf16(&[0xDC00, 0xD800]), Err(MarshalError::DecodeError));
    assert_eq!(decode_utf16(&[0xD800, 0xD800, 0xDC00]), Err(MarshalError::DecodeError));
    assert_eq!(decode_utf16(&[0xDBFF, 0xE000]), Err(MarshalError::DecodeError));
    let bytes = [0x41u8, 0x00, 0x00, 0xD8];
    assert_eq!(read_wide_string(&bytes, 2, ByteOrder::Little), Err(MarshalError::DecodeError));
}

#[test]
fn decode_utf16_agrees_with_std() {
    let samples: Vec<Vec<u16>> = vec![
        vec![],
        vec![0x0000],
        vec![0x0041, 0x00e9, 0x4e2d],
        vec![0xD7FF, 0xE000, 0xFFFF],
        vec![0xD800, 0xDC00],
        vec![0xDBFF, 0xDFFF],
        vec![0xD83D, 0xDE00, 0x0021],
        vec![0xD834, 0xDD1E],
        vec![0xDFFF],
        vec![0xD800],
        vec![0x0041, 0xDC00, 0x0042],
    ];
    for units in samples {
        let expected = String::from_utf16(&units).map_err(|_| MarshalError::DecodeError);
        assert_eq!(decode_utf16(&units), expected);
    }
    assert_eq!(decode_utf16(&[0xD83D, 0xDE00]), Ok("😀".to_string()));
    assert_eq!(decode_utf16(&[0xDBFF, 0xDFFF]), Ok("\u{10FFFF}".to_string()));
    assert_eq!(decode_utf16(&[0xD800, 0xDC00]), Ok("\u{10000}".to_string()));
}

#[test]
fn read_requests() {
    assert_eq!(
        array_read_request(0x1000, 3, 4),
        Some(ReadRequest { address: 0x1000, byte_count: 12 })
    );
    assert_eq!(array_read_request(0x1000, 0, 8), Some(ReadRequest { address: 0x1000, byte_count: 0 }));
    assert_eq!(array_read_request(0, u64::MAX, 2), None);
    assert_eq!(
        array_read_request(7, u64::MAX, 1),
        Some(ReadRequest { address: 7, byte_count: u64::MAX })
    );
    assert_eq!(
        string_read_requests(&[3, 0, u32::MAX], &[0x10, 0x20, 0x30]),
        Ok(vec![
            ReadRequest { address: 0x10, byte_count: 6 },
            ReadRequest { address: 0x20, byte_count: 0 },
            ReadRequest { address: 0x30, byte_count: 8589934590 },
        ])
    );
    assert_eq!(string_read_requests(&[], &[]), Ok(vec![]));
    assert_eq!(string_read_requests(&[1], &[]), Err(MarshalError::LengthMismatch));
    assert_eq!(string_read_requests(&[1], &[1, 2]), Err(MarshalError::LengthMismatch));
}
