use std::cell::RefCell;
use uhd::c_string::{string_from_bytes, CString};
use uhd::error::{Error, ErrorKind};
use uhd::utils::{
    alloc_boxed_slice, check_equal_buffer_lengths, copy_string, equal_buffer_length, find_null,
    finish_attempt, BufferSizes, CopyStep, INITIAL_SIZE, MAX_SIZE,
};

#[test]
fn buffer_sizes() {
    let mut sizes = BufferSizes::new();
    assert_eq!(Some(128), sizes.next());
    assert_eq!(Some(256), sizes.next());
    assert_eq!(Some(512), sizes.next());
    assert_eq!(Some(1024), sizes.next());
    assert_eq!(Some(2048), sizes.next());
    assert_eq!(Some(4096), sizes.next());
    assert_eq!(Some(8192), sizes.next());
    assert_eq!(Some(16384), sizes.next());
    assert_eq!(Some(32768), sizes.next());
    assert_eq!(Some(65536), sizes.next());
    assert_eq!(Some(131072), sizes.next());
    assert_eq!(Some(262144), sizes.next());
    assert_eq!(Some(524288), sizes.next());
    assert_eq!(Some(1048576), sizes.next());
    assert_eq!(None, sizes.next());
}

#[test]
fn buffer_sizes_stay_exhausted() {
    let mut sizes = BufferSizes::new();
    let mut count = 0;
    while let Some(size) = sizes.next() {
        assert!(INITIAL_SIZE <= size && size <= MAX_SIZE);
        count += 1;
    }
    assert_eq!(14, count);
    assert_eq!(None, sizes.next());
    assert_eq!(None, sizes.next());
}

/// A native function that holds `text` and copies it into the buffer as
/// `strncpy` would: as much as fits, with a null byte only if there is room.
fn native_copy(text: &[u8], mut buffer: Vec<u8>) -> (u32, Vec<u8>) {
    for (i, slot) in buffer.iter_mut().enumerate() {
        *slot = if i < text.len() { text[i] } else { 0 };
    }
    (0, buffer)
}

#[test]
fn copy_string_short() {
    let offered = RefCell::new(Vec::new());
    let result = copy_string(|buffer: Vec<u8>| {
        offered.borrow_mut().push(buffer.len());
        native_copy(b"external", buffer)
    });
    assert_eq!("external", result.unwrap());
    assert_eq!(vec![128], *offered.borrow());
}

#[test]
fn copy_string_empty() {
    let result = copy_string(|buffer: Vec<u8>| native_copy(b"", buffer));
    assert_eq!("", result.unwrap());
}

#[test]
fn copy_string_grows_until_the_text_fits() {
    let text: Vec<u8> = std::iter::repeat(b'x').take(300).collect();
    let offered = RefCell::new(Vec::new());
    let result = copy_string(|buffer: Vec<u8>| {
        offered.borrow_mut().push(buffer.len());
        native_copy(&text, buffer)
    });
    let copied = result.unwrap();
    assert_eq!(300, copied.len());
    assert!(copied.bytes().all(|b| b == b'x'));
    assert_eq!(vec![128, 256, 512], *offered.borrow());
}

#[test]
fn copy_string_text_that_fills_a_buffer_needs_the_next() {
    let text: Vec<u8> = std::iter::repeat(b'y').take(128).collect();
    let offered = RefCell::new(Vec::new());
    let result = copy_string(|buffer: Vec<u8>| {
        offered.borrow_mut().push(buffer.len());
        native_copy(&text, buffer)
    });
    assert_eq!(128, result.unwrap().len());
    assert_eq!(vec![128, 256], *offered.borrow());
}

#[test]
fn copy_string_longest_text() {
    let text: Vec<u8> = std::iter::repeat(b'z').take(MAX_SIZE - 1).collect();
    let result = copy_string(|buffer: Vec<u8>| native_copy(&text, buffer));
    assert_eq!(MAX_SIZE - 1, result.unwrap().len());
}

#[test]
fn copy_string_too_long() {
    let offered = RefCell::new(Vec::new());
    let result = copy_string(|mut buffer: Vec<u8>| {
        offered.borrow_mut().push(buffer.len());
        for slot in buffer.iter_mut() {
            *slot = b'a';
        }
        (0, buffer)
    });
    assert!(matches!(result, Err(Error::StringLength(None))));
    assert_eq!(
        vec![
            128, 256, 512, 1024, 2048, 4096, 8192, 16384, 32768, 65536, 131072, 262144, 524288,
            1048576
        ],
        *offered.borrow()
    );
}

#[test]
fn copy_string_first_buffer_is_clear() {
    let result = copy_string(|buffer: Vec<u8>| {
        assert!(buffer.iter().all(|b| *b == 0));
        (0, buffer)
    });
    assert_eq!("", result.unwrap());
}

#[test]
fn copy_string_keeps_what_the_last_call_left() {
    let calls = RefCell::new(0usize);
    let result = copy_string(|mut buffer: Vec<u8>| {
        let call = *calls.borrow();
        *calls.borrow_mut() += 1;
        if call == 0 {
            for slot in buffer.iter_mut() {
                *slot = b'q';
            }
        } else {
            // The part that the call before filled is still there, and the
            // rest is clear.
            assert!(buffer[..128].iter().all(|b| *b == b'q'));
            assert!(buffer[128..].iter().all(|b| *b == 0));
        }
        (0, buffer)
    });
    assert_eq!(128, result.unwrap().len());
    assert_eq!(2, *calls.borrow());
}

#[test]
fn copy_string_failing_status_ends_the_copy() {
    let calls = RefCell::new(0usize);
    let result = copy_string(|buffer: Vec<u8>| {
        *calls.borrow_mut() += 1;
        (70, buffer)
    });
    assert!(matches!(result, Err(Error::StdExcept(None))));
    assert_eq!(1, *calls.borrow());
}

#[test]
fn copy_string_failure_after_growth() {
    let calls = RefCell::new(0usize);
    let result = copy_string(|mut buffer: Vec<u8>| {
        *calls.borrow_mut() += 1;
        if buffer.len() < 512 {
            for slot in buffer.iter_mut() {
                *slot = b'a';
            }
            (0, buffer)
        } else {
            (11, buffer)
        }
    });
    assert_eq!(ErrorKind::Key, result.unwrap_err().kind());
    assert_eq!(3, *calls.borrow());
}

#[test]
fn copy_string_invalid_utf8() {
    let result = copy_string(|buffer: Vec<u8>| native_copy(&[0x66, 0xff, 0x66], buffer));
    assert!(matches!(result, Err(Error::Utf8(None))));
}

#[test]
fn copy_string_has_no_null_byte() {
    let result = copy_string(|mut buffer: Vec<u8>| {
        buffer[0] = b'a';
        buffer[1] = b'b';
        buffer[2] = 0;
        buffer[3] = b'c';
        buffer[4] = 0;
        (0, buffer)
    });
    let copied = result.unwrap();
    assert_eq!("ab", copied);
    assert!(!copied.as_bytes().contains(&0));
}

#[test]
fn find_null_gives_the_first() {
    assert_eq!(None, find_null(b""));
    assert_eq!(None, find_null(b"abc"));
    assert_eq!(Some(0), find_null(b"\0abc"));
    assert_eq!(Some(3), find_null(b"abc\0"));
    assert_eq!(Some(1), find_null(b"a\0b\0"));
}

#[test]
fn finish_attempt_decides() {
    assert!(matches!(
        finish_attempt(0, b"hi\0there".to_vec()),
        CopyStep::Complete(Ok(text)) if text == "hi"
    ));
    assert!(matches!(
        finish_attempt(0, vec![0xc3, 0x28, 0]),
        CopyStep::Complete(Err(Error::Utf8(None)))
    ));
    assert!(matches!(
        finish_attempt(30, b"hi\0".to_vec()),
        CopyStep::Complete(Err(Error::Io(None)))
    ));
    assert!(matches!(
        finish_attempt(0, b"full".to_vec()),
        CopyStep::Grow(buffer) if buffer == b"full"
    ));
    assert!(matches!(finish_attempt(0, Vec::new()), CopyStep::Grow(buffer) if buffer.is_empty()));
}

#[test]
fn string_from_bytes_decodes() {
    assert_eq!("h\u{e9}llo \u{1f4e1}", string_from_bytes("h\u{e9}llo \u{1f4e1}".as_bytes().to_vec()).unwrap());
    assert_eq!("", string_from_bytes(Vec::new()).unwrap());
    assert!(matches!(string_from_bytes(vec![0xff]), Err(Error::Utf8(None))));
    assert!(matches!(string_from_bytes(vec![0xe2, 0x82]), Err(Error::Utf8(None))));
    // Overlong encodings and surrogates are not valid UTF-8.
    assert!(matches!(string_from_bytes(vec![0xc0, 0x80]), Err(Error::Utf8(None))));
    assert!(matches!(string_from_bytes(vec![0xed, 0xa0, 0x80]), Err(Error::Utf8(None))));
}

#[test]
fn c_string_ends_in_null() {
    let text = CString::new("type=usrp2,addr=192.168.10.2").unwrap();
    assert_eq!(b"type=usrp2,addr=192.168.10.2\0", text.as_bytes_with_nul());
    let empty = CString::new("").unwrap();
    assert_eq!(b"\0", empty.as_bytes_with_nul());
}

#[test]
fn c_string_rejects_null_byte() {
    assert!(matches!(CString::new("a\0b"), Err(Error::NullByte(None))));
    assert!(matches!(CString::new("\0"), Err(Error::NullByte(None))));
    assert!(matches!(CString::new("ab\0"), Err(Error::NullByte(None))));
}

#[test]
fn equal_buffer_lengths() {
    let a = [1i16, 2, 3];
    let b = [4i16, 5, 6];
    let c = [7i16, 8];
    let none: [&[i16]; 0] = [];
    assert_eq!(Some(0), equal_buffer_length(&none));
    assert_eq!(Some(3), equal_buffer_length(&[&a[..]]));
    assert_eq!(Some(3), equal_buffer_length(&[&a[..], &b[..]]));
    assert_eq!(None, equal_buffer_length(&[&a[..], &c[..]]));
    assert_eq!(None, equal_buffer_length(&[&a[..], &b[..], &c[..]]));
    assert_eq!(0, check_equal_buffer_lengths(&none));
    assert_eq!(3, check_equal_buffer_lengths(&[&a[..], &b[..]]));
    assert_eq!(2, check_equal_buffer_lengths(&[&c[..]]));
}

#[test]
fn boxed_slice_of_defaults() {
    let numbers = alloc_boxed_slice::<u32, 5>();
    assert_eq!([0u32; 5], *numbers);
    let texts = alloc_boxed_slice::<String, 3>();
    assert_eq!(3, texts.len());
    assert!(texts.iter().all(|text| text.is_empty()));
    let nothing = alloc_boxed_slice::<u8, 0>();
    assert_eq!(0, nothing.len());
}
