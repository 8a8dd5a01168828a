use rivus::uid::{generate_api_key, int_to_str, str_to_int, UidError};

#[test]
fn test_str_to_int_basic() {
    let result = str_to_int("ABC");
    assert!(result.is_ok());

    let value = result.unwrap();
    assert!(value > 0);
}

#[test]
fn test_str_to_int_empty_string() {
    let result = str_to_int("");
    assert!(result.is_ok());
    assert_eq!(result.unwrap(), 0);
}

#[test]
fn test_str_to_int_single_char() {
    let test_cases = vec![
        ("A", 0),
        ("B", 1),
        ("Z", 25),
        ("a", 26),
        ("b", 27),
        ("z", 51),
        ("0", 52),
        ("1", 53),
        ("9", 61),
        ("+", 62),
        ("/", 63),
    ];

    for (input, expected) in test_cases {
        let result = str_to_int(input);
        assert!(result.is_ok(), "Failed for input: {}", input);
        assert_eq!(result.unwrap(), expected, "Wrong result for input: {}", input);
    }
}

#[test]
fn test_str_to_int_invalid_chars() {
    let invalid_inputs = vec!["@", "#", "$", "%", " ", "\t", "\n"];

    for input in invalid_inputs {
        let result = str_to_int(input);
        assert!(result.is_err(), "Should fail for invalid input: {}", input);
    }
}

#[test]
fn test_str_to_int_max_length() {
    let max_length_string = "ABCDEFGHIJ";
    let result = str_to_int(max_length_string);
    assert!(result.is_ok(), "Should succeed for 10-character string");
}

#[test]
fn test_str_to_int_too_long() {
    let too_long_string = "ABCDEFGHIJK";
    let result = str_to_int(too_long_string);
    assert!(result.is_err(), "Should fail for string longer than 10 characters");
}

#[test]
fn test_int_to_str_basic() {
    let result = int_to_str(12345);
    assert!(!result.is_empty());
}

#[test]
fn test_int_to_str_zero() {
    let result = int_to_str(0);
    assert_eq!(result, "");
}

#[test]
fn test_int_to_str_single_values() {
    let test_cases = vec![
        (0, ""),
        (1, "B"),
        (25, "Z"),
        (26, "a"),
        (51, "z"),
        (52, "0"),
        (61, "9"),
        (62, "+"),
        (63, "/"),
    ];

    for (input, expected) in test_cases {
        let result = int_to_str(input);
        assert_eq!(result, expected, "Wrong result for input: {}", input);
    }
}

#[test]
fn test_roundtrip_conversion() {
    let test_strings = vec!["A", "AB", "ABC", "Test123", "HelloWorld", "A1B2C3", "+/", "abc123"];

    for original in test_strings {
        let int_result = str_to_int(original);
        if let Ok(int_value) = int_result {
            let converted_back = int_to_str(int_value);
            let reconverted = str_to_int(&converted_back);
            assert!(reconverted.is_ok(), "Roundtrip failed for: {}", original);
            assert_eq!(reconverted.unwrap(), int_value, "Roundtrip value mismatch for: {}", original);
        }
    }
}

#[test]
fn test_large_values() {
    let large_values: Vec<u64> = vec![
        1000000,
        10000000,
        100000000,
        1000000000,
        10000000000,
        100000000000,
        1000000000000,
    ];

    for value in large_values {
        let str_result = int_to_str(value);
        assert!(!str_result.is_empty() || value == 0, "Empty result for value: {}", value);

        let back_to_int = str_to_int(&str_result);
        assert!(back_to_int.is_ok(), "Failed to convert back to int: {}", str_result);
        assert_eq!(back_to_int.unwrap(), value, "Roundtrip failed for value: {}", value);
    }
}

#[test]
fn test_boundary_values() {
    let boundary_tests = vec![
        ("A", 0),
        ("Z", 25),
        ("a", 26),
        ("z", 51),
        ("0", 52),
        ("9", 61),
        ("+", 62),
        ("/", 63),
    ];

    for (char_str, expected_int) in boundary_tests {
        let int_result = str_to_int(char_str);
        assert!(int_result.is_ok(), "Failed to convert boundary char: {}", char_str);
        assert_eq!(int_result.unwrap(), expected_int, "Wrong int for boundary char: {}", char_str);
    }
}

#[test]
fn test_mixed_case_strings() {
    let mixed_strings = vec!["AbC123", "XyZ789", "ABC123", "A1B2C3", "Test123"];

    for mixed_str in mixed_strings {
        let result = str_to_int(mixed_str);
        assert!(result.is_ok(), "Failed to convert mixed case string: {}", mixed_str);

        let int_value = result.unwrap();
        let back_to_str = int_to_str(int_value);

        let roundtrip = str_to_int(&back_to_str);
        assert!(roundtrip.is_ok(), "Roundtrip failed for mixed string: {}", mixed_str);
        assert_eq!(roundtrip.unwrap(), int_value, "Roundtrip value mismatch for: {}", mixed_str);
    }
}

#[test]
fn test_special_characters() {
    let special_strings = vec!["++", "//", "+/", "/+", "A+B", "C/D", "Test+123", "ABC/DEF"];

    for special_str in special_strings {
        let result = str_to_int(special_str);
        assert!(result.is_ok(), "Failed to convert special char string: {}", special_str);
    }
}

#[test]
fn str_to_int_weighs_the_first_character_lowest() {
    // B = 1, C = 2: 1 + 2 * 64
    assert_eq!(str_to_int("BC"), Ok(129));
    // A = 0 in the lowest place, B in the second, C in the third
    assert_eq!(str_to_int("ABC"), Ok(64 + 2 * 64 * 64));
    assert_eq!(int_to_str(129), "BC");
    assert_eq!(int_to_str(64), "AB");
}

#[test]
fn str_to_int_names_each_failure() {
    assert_eq!(str_to_int("ABCDEFGHIJK"), Err(UidError::TooLong));
    assert_eq!(str_to_int("AB CD"), Err(UidError::UnsupportedChar));
    // too long is reported before an unsupported character is looked for
    assert_eq!(str_to_int("@@@@@@@@@@@"), Err(UidError::TooLong));
    // length is counted in bytes: four characters of three bytes each
    assert_eq!(str_to_int("\u{4e2d}\u{4e2d}\u{4e2d}\u{4e2d}"), Err(UidError::TooLong));
    assert_eq!(str_to_int("\u{e9}"), Err(UidError::UnsupportedChar));
    assert_eq!(UidError::UnsupportedChar.to_string(), "不支持的字符");
    assert_eq!(UidError::TooLong.to_string(), "字符串长度不能超过10个字符");
}

#[test]
fn int_to_str_of_the_largest_number_has_eleven_characters() {
    let s = int_to_str(u64::MAX);
    assert_eq!(s, "//////////P");
    assert_eq!(str_to_int(&s), Err(UidError::TooLong));
    // the largest number that a string of ten characters stands for
    assert_eq!(str_to_int("//////////"), Ok((1u64 << 60) - 1));
    assert_eq!(int_to_str((1u64 << 60) - 1), "//////////");
}

#[test]
fn test_api_key_length() {
    let key_length = 32;
    let api_key = generate_api_key(key_length);
    println!("Generated API Key: {}", api_key);
    assert_eq!(api_key.len(), key_length, "the generated key should have {} characters", key_length);
}

#[test]
fn test_api_key_randomness() {
    let key_length = 32;
    let key1 = generate_api_key(key_length);
    let key2 = generate_api_key(key_length);
    assert_ne!(key1, key2, "two generated keys should differ");
}

#[test]
fn api_key_is_made_of_letters_and_digits() {
    let key = generate_api_key(200);
    assert_eq!(key.chars().count(), 200);
    assert!(key.chars().all(|c| c.is_ascii_alphanumeric()));
    // with 200 draws from 62 characters, more than one character shows up
    let first = key.chars().next().unwrap();
    assert!(key.chars().any(|c| c != first));
    assert_eq!(generate_api_key(0), "");
}
