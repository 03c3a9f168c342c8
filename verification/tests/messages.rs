use epserde::deser::Error;

#[test]
fn test_deserialization_error_messages() {
    assert_eq!(Error::ReadError.to_string(), "Read error during ε-serde deserialization");
    assert_eq!(
        Error::MagicCookieError(0x1234).to_string(),
        "Wrong magic cookie 0x0000000000001234. The byte stream does not come from ε-serde."
    );
    assert_eq!(Error::MajorVersionMismatch(3).to_string(), "Major version mismatch. Expected 1 but got 3.");
    assert_eq!(Error::MinorVersionMismatch(12).to_string(), "Minor version mismatch. Expected 1 but got 12.");
    assert_eq!(Error::InvalidTag(5).to_string(), "Invalid tag: 0x05");
    assert_eq!(Error::InvalidTag(0x1ff).to_string(), "Invalid tag: 0x1ff");
    assert_eq!(
        Error::UsizeSizeMismatch(4).to_string(),
        format!(
            "The file was serialized on an architecture where a usize has size 4, but on the current architecture it has size {}.",
            core::mem::size_of::<usize>()
        )
    );
    assert_eq!(
        Error::WrongTypeHash {
            got_type_name: "u32".to_string(),
            expected_type_name: "i32".to_string(),
            expected: 0xabcdef,
            got: u64::MAX,
        }
        .to_string(),
        "Wrong type hash. Expected: 0x0000000000abcdef Actual: 0xffffffffffffffff.\nYou are trying to deserialize a file with the wrong type.\nThe serialized type is 'i32' and the deserialized type is 'u32'."
    );
    let io = std::io::Error::new(std::io::ErrorKind::Other, "boom");
    assert_eq!(Error::FileOpenError(io).to_string(), "Error opening file during ε-serde deserialization: boom");
}

#[test]
fn test_serialization_error_messages() {
    assert_eq!(epserde::ser::Error::WriteError.to_string(), "Write error during ε-serde serialization");
    let io = std::io::Error::new(std::io::ErrorKind::Other, "full");
    assert_eq!(
        epserde::ser::Error::FileOpenError(io).to_string(),
        "Error opening file during ε-serde serialization: full"
    );
}
