use mavlink_ftp::mavftp::{parse_directory_entry, EntryType};
use mavlink_ftp::text::{chars_of, find_field_end, join_path, last_segment, parse_size};

#[test]
fn file_entry_with_size() {
    let entry = parse_directory_entry("Ffoo.txt\t1024").unwrap();
    assert_eq!(entry.entry_type, EntryType::File);
    assert_eq!(entry.name, "foo.txt");
    assert_eq!(entry.size, 1024);
}

#[test]
fn directory_entry_without_size() {
    let entry = parse_directory_entry("Dsubdir").unwrap();
    assert_eq!(entry.entry_type, EntryType::Directory);
    assert_eq!(entry.name, "subdir");
    assert_eq!(entry.size, 0);
}

#[test]
fn skip_entry() {
    let entry = parse_directory_entry("S").unwrap();
    assert_eq!(entry.entry_type, EntryType::Skip);
    assert_eq!(entry.name, "");
    assert_eq!(entry.size, 0);
}

#[test]
fn unknown_kind_is_rejected() {
    assert_eq!(parse_directory_entry("Xbad").unwrap_err(), "Invalid entry type");
    assert_eq!(parse_directory_entry("fname\t3").unwrap_err(), "Invalid entry type");
    assert_eq!(parse_directory_entry("éname").unwrap_err(), "Invalid entry type");
}

#[test]
fn empty_record_is_rejected() {
    assert_eq!(parse_directory_entry("").unwrap_err(), "Invalid entry type");
    assert_eq!(parse_directory_entry("\t12").unwrap_err(), "Invalid entry type");
}

#[test]
fn unreadable_size_is_rejected() {
    assert_eq!(parse_directory_entry("Fa\t").unwrap_err(), "Invalid entry size");
    assert_eq!(parse_directory_entry("Fa\t12k").unwrap_err(), "Invalid entry size");
    assert_eq!(parse_directory_entry("Fa\t-1").unwrap_err(), "Invalid entry size");
    assert_eq!(parse_directory_entry("Fa\t 1").unwrap_err(), "Invalid entry size");
    assert_eq!(parse_directory_entry("Fa\t+").unwrap_err(), "Invalid entry size");
    assert_eq!(parse_directory_entry("Fa\t\t5").unwrap_err(), "Invalid entry size");
}

#[test]
fn unreadable_size_is_reported_before_unknown_kind() {
    assert_eq!(parse_directory_entry("Xbad\tzz").unwrap_err(), "Invalid entry size");
}

#[test]
fn size_limits() {
    assert_eq!(parse_directory_entry("Fa\t4294967295").unwrap().size, u32::MAX);
    assert_eq!(parse_directory_entry("Fa\t4294967296").unwrap_err(), "Invalid entry size");
    assert_eq!(
        parse_directory_entry("Fa\t99999999999999999999999").unwrap_err(),
        "Invalid entry size"
    );
    assert_eq!(parse_directory_entry("Fa\t0").unwrap().size, 0);
    assert_eq!(parse_directory_entry("Fa\t007").unwrap().size, 7);
    assert_eq!(parse_directory_entry("Fa\t+15").unwrap().size, 15);
}

#[test]
fn further_fields_are_ignored() {
    let entry = parse_directory_entry("Ffoo\t12\tjunk\t9").unwrap();
    assert_eq!(entry.name, "foo");
    assert_eq!(entry.size, 12);
}

#[test]
fn names_keep_their_characters() {
    let entry = parse_directory_entry("Fa b/ç.txt\t3").unwrap();
    assert_eq!(entry.name, "a b/ç.txt");
    assert_eq!(entry.size, 3);
}

#[test]
fn parse_size_reads_a_stretch_of_characters() {
    let chars: Vec<char> = "ab123cd".chars().collect();
    assert_eq!(parse_size(&chars, 2, 5), Some(123));
    assert_eq!(parse_size(&chars, 2, 4), Some(12));
    assert_eq!(parse_size(&chars, 2, 2), None);
    assert_eq!(parse_size(&chars, 1, 5), None);
    assert_eq!(parse_size(&chars, 2, 6), None);
}

#[test]
fn field_ends_at_the_first_tab() {
    let chars: Vec<char> = "ab\tcd\t".chars().collect();
    assert_eq!(find_field_end(&chars, 0), 2);
    assert_eq!(find_field_end(&chars, 2), 2);
    assert_eq!(find_field_end(&chars, 3), 5);
    assert_eq!(find_field_end(&chars, 6), 6);
    let plain: Vec<char> = "abc".chars().collect();
    assert_eq!(find_field_end(&plain, 0), 3);
}

#[test]
fn chars_of_a_string() {
    assert_eq!(chars_of("aé\t"), vec!['a', 'é', '\t']);
    assert_eq!(chars_of(""), Vec::<char>::new());
}

#[test]
fn last_segment_of_a_path() {
    assert_eq!(last_segment("/fs/microsd/log.ulg"), "log.ulg");
    assert_eq!(last_segment("log.ulg"), "log.ulg");
    assert_eq!(last_segment("/fs/microsd/"), "");
    assert_eq!(last_segment(""), "");
    assert_eq!(last_segment("/é/ü.txt"), "ü.txt");
}

#[test]
fn join_path_puts_a_slash_between() {
    assert_eq!(join_path("/root", "a.txt"), "/root/a.txt");
    assert_eq!(join_path("", "a"), "/a");
    assert_eq!(join_path("/", ""), "//");
}
