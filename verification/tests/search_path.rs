use dylib::{DynamicLibrary, Platform};

fn list(entries: &[&str]) -> Vec<Vec<u8>> {
    entries.iter().map(|entry| entry.as_bytes().to_vec()).collect()
}

#[test]
fn joining_no_entry_gives_empty_text() {
    assert_eq!(DynamicLibrary::create_path(Platform::Unix, &list(&[])), b"".to_vec());
    assert_eq!(DynamicLibrary::create_path(Platform::Windows, &list(&[])), b"".to_vec());
}

#[test]
fn joining_one_entry_gives_the_entry() {
    assert_eq!(
        DynamicLibrary::create_path(Platform::Unix, &list(&["/usr/lib"])),
        b"/usr/lib".to_vec()
    );
    assert_eq!(
        DynamicLibrary::create_path(Platform::Windows, &list(&["C:\\bin"])),
        b"C:\\bin".to_vec()
    );
}

#[test]
fn joining_two_entries_puts_the_separator_between() {
    assert_eq!(
        DynamicLibrary::create_path(Platform::Unix, &list(&["/usr/lib", "/opt/lib"])),
        b"/usr/lib:/opt/lib".to_vec()
    );
    assert_eq!(
        DynamicLibrary::create_path(Platform::MacOs, &list(&["/usr/lib", "/opt/lib"])),
        b"/usr/lib:/opt/lib".to_vec()
    );
    assert_eq!(
        DynamicLibrary::create_path(Platform::Windows, &list(&["C:\\bin", "D:\\lib"])),
        b"C:\\bin;D:\\lib".to_vec()
    );
}

#[test]
fn joining_keeps_order_duplicates_and_empty_entries() {
    assert_eq!(
        DynamicLibrary::create_path(Platform::Unix, &list(&["b", "a", "", "b"])),
        b"b:a::b".to_vec()
    );
}

#[test]
fn separator_is_a_semicolon_on_windows_and_a_colon_elsewhere() {
    assert_eq!(DynamicLibrary::separator(Platform::Windows), ";");
    assert_eq!(DynamicLibrary::separator(Platform::MacOs), ":");
    assert_eq!(DynamicLibrary::separator(Platform::Unix), ":");
    assert_eq!(Platform::Windows.separator(), b';');
    assert_eq!(Platform::MacOs.separator(), b':');
    assert_eq!(Platform::Unix.separator(), b':');
}

#[test]
fn envvar_names_the_variable_of_each_platform() {
    assert_eq!(DynamicLibrary::envvar(Platform::Windows), "PATH");
    assert_eq!(DynamicLibrary::envvar(Platform::MacOs), "DYLD_LIBRARY_PATH");
    assert_eq!(DynamicLibrary::envvar(Platform::Unix), "LD_LIBRARY_PATH");
}

#[test]
fn only_windows_quotes() {
    assert!(Platform::Windows.is_windows());
    assert!(!Platform::MacOs.is_windows());
    assert!(!Platform::Unix.is_windows());
}

#[test]
fn unset_variable_is_an_empty_search_path() {
    assert_eq!(DynamicLibrary::search_path(Platform::Unix, None), list(&[]));
    assert_eq!(DynamicLibrary::search_path(Platform::MacOs, None), list(&[]));
    assert_eq!(DynamicLibrary::search_path(Platform::Windows, None), list(&[]));
}

#[test]
fn empty_variable_is_one_empty_entry() {
    assert_eq!(DynamicLibrary::search_path(Platform::Unix, Some(b"")), list(&[""]));
    assert_eq!(DynamicLibrary::search_path(Platform::Windows, Some(b"")), list(&[""]));
}

#[test]
fn search_path_splits_at_each_separator() {
    assert_eq!(
        DynamicLibrary::search_path(Platform::Unix, Some(b"/usr/lib:/opt/lib:/lib")),
        list(&["/usr/lib", "/opt/lib", "/lib"])
    );
    assert_eq!(
        DynamicLibrary::search_path(Platform::Unix, Some(b":a::b:")),
        list(&["", "a", "", "b", ""])
    );
    assert_eq!(
        DynamicLibrary::search_path(Platform::Unix, Some(b"C:\\bin;D:\\lib")),
        list(&["C", "\\bin;D", "\\lib"])
    );
    assert_eq!(
        DynamicLibrary::search_path(Platform::Windows, Some(b"C:\\bin;D:\\lib;")),
        list(&["C:\\bin", "D:\\lib", ""])
    );
}

#[test]
fn quotes_are_ordinary_bytes_off_windows() {
    assert_eq!(
        DynamicLibrary::search_path(Platform::Unix, Some(b"\"a:b\":c")),
        list(&["\"a", "b\"", "c"])
    );
}

#[test]
fn quotes_enclose_literal_separators_on_windows() {
    assert_eq!(
        DynamicLibrary::search_path(Platform::Windows, Some(b"c:\\foo;c:\\som\"e;di\"r;c:\\bar")),
        list(&["c:\\foo", "c:\\some;dir", "c:\\bar"])
    );
    assert_eq!(
        DynamicLibrary::search_path(Platform::Windows, Some(b"\"a;b")),
        list(&["a;b"])
    );
    assert_eq!(
        DynamicLibrary::search_path(Platform::Windows, Some(b"\"\";\"\"")),
        list(&["", ""])
    );
}

#[test]
fn duplicates_are_kept() {
    assert_eq!(
        DynamicLibrary::search_path(Platform::Unix, Some(b"/a:/b:/a")),
        list(&["/a", "/b", "/a"])
    );
}

#[test]
fn prepending_to_an_unset_variable_gives_the_entry_alone() {
    let text = DynamicLibrary::prepend_search_path(Platform::Unix, b"/new", None);
    assert_eq!(text, b"/new".to_vec());
    assert_eq!(DynamicLibrary::search_path(Platform::Unix, Some(&text)), list(&["/new"]));
}

#[test]
fn prepending_puts_the_entry_first_and_keeps_the_rest_in_order() {
    let before = b"/usr/lib:/opt/lib:/usr/lib";
    let prior = DynamicLibrary::search_path(Platform::Unix, Some(before));
    let text = DynamicLibrary::prepend_search_path(Platform::Unix, b"/new", Some(before));
    assert_eq!(text, b"/new:/usr/lib:/opt/lib:/usr/lib".to_vec());
    let after = DynamicLibrary::search_path(Platform::Unix, Some(&text));
    assert_eq!(after[0], b"/new".to_vec());
    assert_eq!(after[1..].to_vec(), prior);
}

#[test]
fn prepending_on_windows_uses_the_semicolon() {
    let before = b"C:\\Windows;C:\\bin";
    let prior = DynamicLibrary::search_path(Platform::Windows, Some(before));
    let text = DynamicLibrary::prepend_search_path(Platform::Windows, b"D:\\new", Some(before));
    assert_eq!(text, b"D:\\new;C:\\Windows;C:\\bin".to_vec());
    let after = DynamicLibrary::search_path(Platform::Windows, Some(&text));
    assert_eq!(after[0], b"D:\\new".to_vec());
    assert_eq!(after[1..].to_vec(), prior);
}

#[test]
fn prepending_to_an_empty_variable_keeps_its_empty_entry() {
    let text = DynamicLibrary::prepend_search_path(Platform::Unix, b"/new", Some(b""));
    assert_eq!(text, b"/new:".to_vec());
    assert_eq!(DynamicLibrary::search_path(Platform::Unix, Some(&text)), list(&["/new", ""]));
}

#[test]
fn prepending_an_empty_entry_reads_back_as_an_empty_entry() {
    let text = DynamicLibrary::prepend_search_path(Platform::Unix, b"", None);
    assert_eq!(text, b"".to_vec());
    assert_eq!(DynamicLibrary::search_path(Platform::Unix, Some(&text)), list(&[""]));
    let text = DynamicLibrary::prepend_search_path(Platform::Unix, b"", Some(b"/a"));
    assert_eq!(text, b":/a".to_vec());
    assert_eq!(DynamicLibrary::search_path(Platform::Unix, Some(&text)), list(&["", "/a"]));
}

#[test]
fn an_entry_with_a_separator_in_it_reads_back_as_two() {
    let text = DynamicLibrary::prepend_search_path(Platform::Unix, b"/a:/b", Some(b"/c"));
    assert_eq!(text, b"/a:/b:/c".to_vec());
    assert_eq!(
        DynamicLibrary::search_path(Platform::Unix, Some(&text)),
        list(&["/a", "/b", "/c"])
    );
}

#[test]
fn a_quoted_separator_does_not_survive_prepending_on_windows() {
    let before = b"\"a;b\"";
    assert_eq!(DynamicLibrary::search_path(Platform::Windows, Some(before)), list(&["a;b"]));
    let text = DynamicLibrary::prepend_search_path(Platform::Windows, b"new", Some(before));
    assert_eq!(text, b"new;a;b".to_vec());
    assert_eq!(
        DynamicLibrary::search_path(Platform::Windows, Some(&text)),
        list(&["new", "a", "b"])
    );
}

#[test]
fn bytes_that_are_not_text_pass_through() {
    let odd: Vec<u8> = vec![0xff, 0xfe, b'/', 0x80];
    let text = DynamicLibrary::prepend_search_path(Platform::Unix, &odd, Some(b"/lib"));
    let after = DynamicLibrary::search_path(Platform::Unix, Some(&text));
    assert_eq!(after, vec![odd, b"/lib".to_vec()]);
}
