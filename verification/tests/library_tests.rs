use ffi_rs::library::{function_not_found_error, opening_library_error, symbol_result, LibraryMap};
use ffi_rs::define::{check_struct_field_value, DataType, FFIError, RsArgsValue};
use ffi_rs::text::contains_str;

#[test]
fn open_then_find_then_close() {
    let mut map: LibraryMap<u32, Result<usize, String>> = LibraryMap::new();
    let lib = "libsum".to_string();
    assert!(!map.contains(&lib));
    map.insert(lib.clone(), 7);
    assert!(map.contains(&lib));
    assert_eq!(map.library(&lib), Some(&7));
    match map.cached_symbol(&lib, &"sum".to_string()) {
        Ok(None) => {}
        _ => panic!("nothing cached yet"),
    }
    map.cache_symbol(&lib, "sum".to_string(), Ok(42));
    map.cache_symbol(&lib, "nope".to_string(), Err("missing".to_string()));
    match map.cached_symbol(&lib, &"sum".to_string()) {
        Ok(Some(Ok(42))) => {}
        _ => panic!("cached symbol expected"),
    }
    match map.cached_symbol(&lib, &"nope".to_string()) {
        Ok(Some(Err(e))) => assert_eq!(e, "missing"),
        _ => panic!("cached failure expected"),
    }
    assert_eq!(map.library(&lib), Some(&7));
    map.remove(&lib);
    assert!(!map.contains(&lib));
    match map.cached_symbol(&lib, &"sum".to_string()) {
        Err(FFIError::LibraryNotFound(m)) => assert_eq!(
            m,
            "Before calling load, you need to open the file \"libsum\" with the open method"
        ),
        _ => panic!("library not found expected"),
    }
}

#[test]
fn reopening_keeps_other_libraries() {
    let mut map: LibraryMap<u8, u8> = LibraryMap::new();
    map.insert("a".to_string(), 1);
    map.insert("b".to_string(), 2);
    map.cache_symbol(&"a".to_string(), "f".to_string(), 9);
    map.insert("b".to_string(), 3);
    assert_eq!(map.library(&"a".to_string()), Some(&1));
    assert_eq!(map.library(&"b".to_string()), Some(&3));
    match map.cached_symbol(&"a".to_string(), &"f".to_string()) {
        Ok(Some(9)) => {}
        _ => panic!("symbol of a kept"),
    }
    map.remove(&"a".to_string());
    assert_eq!(map.library(&"b".to_string()), Some(&3));
    assert_eq!(map.library(&"a".to_string()), None);
}

#[test]
fn missing_function_message() {
    match function_not_found_error(&"sum".to_string()) {
        FFIError::FunctionNotFound(m) => assert_eq!(m, "Cannot find \"sum\" function in shared library"),
        _ => panic!("function not found expected"),
    }
}

#[test]
fn foreign_binary_advice() {
    let elf = "/tmp/x.so: invalid ELF header".to_string();
    match opening_library_error(&elf, &"Os { code: 0 }".to_string()) {
        FFIError::Panic(m) => assert_eq!(
            m,
            "Please check whether the library has the same compilation and runtime environment.\n Error detail info: Os { code: 0 }"
        ),
        _ => panic!("panic error expected"),
    }
    let other = "libfoo.so: cannot open shared object file".to_string();
    match opening_library_error(&other, &"detail".to_string()) {
        FFIError::Panic(m) => assert_eq!(m, other),
        _ => panic!("panic error expected"),
    }
    let mach = "not a mach-o file".to_string();
    match opening_library_error(&mach, &"d".to_string()) {
        FFIError::Panic(m) => assert!(m.starts_with("Please check")),
        _ => panic!("panic error expected"),
    }
}

#[test]
fn substring_search() {
    assert!(contains_str("hello world", "lo w"));
    assert!(contains_str("abc", ""));
    assert!(contains_str("abc", "abc"));
    assert!(!contains_str("abc", "abcd"));
    assert!(!contains_str("abcabd", "abe"));
    assert!(contains_str("héllo", "él"));
}

#[test]
fn decimal_text() {
    let message = |code: i32| match DataType::try_from(code) {
        Err(FFIError::UnsupportedValueType(m)) => m,
        _ => panic!("expected an error"),
    };
    assert_eq!(message(-120), "Invalid DataType value: -120");
    assert_eq!(message(100), "Invalid DataType value: 100");
    assert_eq!(message(i32::MIN), "Invalid DataType value: -2147483648");
}

#[test]
fn opening_twice_keeps_the_first_library() {
    let mut map: LibraryMap<u32, Option<usize>> = LibraryMap::new();
    let lib = "libsum".to_string();
    map.open_library(lib.clone(), 1);
    map.cache_symbol(&lib, "sum".to_string(), Some(10));
    map.open_library(lib.clone(), 2);
    assert_eq!(map.library(&lib), Some(&1));
    assert!(matches!(map.cached_symbol(&lib, &"sum".to_string()), Ok(Some(Some(10)))));
}

#[test]
fn symbol_result_gives_the_function_or_the_error() {
    let name = "sum".to_string();
    assert!(matches!(symbol_result(Some(7u8), &name), Ok(7)));
    match symbol_result::<u8>(None, &name) {
        Err(FFIError::FunctionNotFound(m)) => {
            assert_eq!(m, "Cannot find \"sum\" function in shared library")
        }
        _ => panic!("expected a missing-function error"),
    }
}

#[test]
fn bare_array_values_are_refused_in_structs() {
    assert!(check_struct_field_value(&RsArgsValue::I32(1)).is_ok());
    assert!(check_struct_field_value(&RsArgsValue::Object(vec![])).is_ok());
    match check_struct_field_value(&RsArgsValue::I32Array(vec![1])) {
        Err(FFIError::Panic(m)) => assert_eq!(
            m,
            "In the latest ffi-rs version, please use ffi-rs.arrayConstrutor to describe array type"
        ),
        _ => panic!("expected an error"),
    }
    assert!(check_struct_field_value(&RsArgsValue::U8Array(vec![])).is_err());
}
