use poke::{file_name_is_legal, file_name_is_legal_on, host_family, Error, Family};

fn illegal_char(r: Result<(), Error>) -> Option<char> {
    match r {
        Err(Error::IllegalCharacter(c)) => Some(c),
        _ => None,
    }
}

#[test]
fn unix_rejects_slash_colon_and_nul() {
    assert_eq!(illegal_char(file_name_is_legal_on("a/b", Family::Unix)), Some('/'));
    assert_eq!(illegal_char(file_name_is_legal_on("a:b", Family::Unix)), Some(':'));
    assert_eq!(illegal_char(file_name_is_legal_on("a\0b", Family::Unix)), Some('\0'));
}

#[test]
fn unix_reports_first_in_scan_order() {
    // ':' stands first in the name, '/' first in the scan list
    assert_eq!(illegal_char(file_name_is_legal_on("x:y/z", Family::Unix)), Some('/'));
}

#[test]
fn windows_reports_first_in_scan_order() {
    // '/' stands first in the name, ':' first in the scan list
    assert_eq!(illegal_char(file_name_is_legal_on("a/b:c", Family::Windows)), Some(':'));
    assert_eq!(illegal_char(file_name_is_legal_on("*?<", Family::Windows)), Some('<'));
}

#[test]
fn windows_rejects_each_forbidden_character() {
    for c in ['<', '>', ':', '"', '/', '\\', '|', '?', '*'] {
        let name = format!("file{}name", c);
        assert_eq!(illegal_char(file_name_is_legal_on(&name, Family::Windows)), Some(c));
    }
}

#[test]
fn windows_accepts_what_unix_forbids_only_by_nul() {
    assert!(file_name_is_legal_on("a\0b", Family::Windows).is_ok());
    assert!(file_name_is_legal_on("a|b", Family::Unix).is_ok());
}

#[test]
fn windows_rejects_device_names() {
    for n in ["CON", "PRN", "AUX", "NUL", "COM1", "COM9", "LPT1", "LPT5", "LPT9"] {
        match file_name_is_legal_on(n, Family::Windows) {
            Err(Error::IllegalName(s)) => assert_eq!(s, n),
            other => panic!("{} gave {:?}", n, other),
        }
    }
}

#[test]
fn device_names_are_case_sensitive_and_exact() {
    for n in ["con", "COM0", "COM10", "LPT", "CONX", "Nul"] {
        assert!(file_name_is_legal_on(n, Family::Windows).is_ok(), "{}", n);
    }
}

#[test]
fn device_names_are_fine_on_unix() {
    assert!(file_name_is_legal_on("CON", Family::Unix).is_ok());
}

#[test]
fn clean_names_pass() {
    for n in ["hello.txt", "", "a b c", "é-ü_1.rs"] {
        assert!(file_name_is_legal_on(n, Family::Unix).is_ok());
        assert!(file_name_is_legal_on(n, Family::Windows).is_ok());
        assert!(file_name_is_legal(n).is_ok());
    }
}

#[test]
fn host_rules_reject_slash() {
    assert_eq!(illegal_char(file_name_is_legal("dir/file")), Some('/'));
    let fam = host_family();
    assert!(fam == Family::Unix || fam == Family::Windows);
}
