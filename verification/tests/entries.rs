use allowlist_sync::cidr::{Cidr, ParseError};
use allowlist_sync::cidr_set::CidrSet;
use allowlist_sync::entry::{AllowListEntry, AllowListSnapshot, MAX_DESCRIPTION_LEN};
use allowlist_sync::text::{chars_of, eq_ignore_case, push_decimal, push_signed_decimal, str_eq, to_lower};

fn net(text: &str) -> Cidr {
    Cidr::parse(text).unwrap()
}

#[test]
fn cidr_parse_reads_address_and_prefix_length() {
    assert_eq!(Cidr::parse("1.2.3.4/32"), Ok(Cidr::V4 { addr: 0x0102_0304, prefix_len: 32 }));
    assert_eq!(Cidr::parse("10.1.1.0/24"), Ok(Cidr::V4 { addr: 0x0a01_0100, prefix_len: 24 }));
    assert_eq!(Cidr::parse("0.0.0.0/0"), Ok(Cidr::V4 { addr: 0, prefix_len: 0 }));
    assert_eq!(
        Cidr::parse("fd00::/32"),
        Ok(Cidr::V6 { addr: 0xfd00_0000_0000_0000_0000_0000_0000_0000, prefix_len: 32 })
    );
    assert_eq!(Cidr::parse("::1/128"), Ok(Cidr::V6 { addr: 1, prefix_len: 128 }));
}

#[test]
fn cidr_parse_keeps_host_bits() {
    assert_eq!(Cidr::parse("10.1.1.7/24"), Ok(Cidr::V4 { addr: 0x0a01_0107, prefix_len: 24 }));
    assert_ne!(net("10.1.1.7/24"), net("10.1.1.0/24"));
}

#[test]
fn cidr_parse_rejects_what_is_no_prefix() {
    for text in ["", "1.2.3.4", "1.2.3.4/33", "1.2.3/24", "256.1.1.1/8", "1.2.3.4/", "/32",
        " 1.2.3.4/32", "1.2.3.4/32 ", "fd00::/129", "hello", "1.2.3.4/-1"]
    {
        assert_eq!(Cidr::parse(text), Err(ParseError::MalformedCidr), "{:?}", text);
    }
}

#[test]
fn cidr_to_text_is_the_notation() {
    assert_eq!(Cidr::V4 { addr: 0x0102_0304, prefix_len: 32 }.to_text(), "1.2.3.4/32");
    assert_eq!(Cidr::V4 { addr: 0x0a01_0100, prefix_len: 24 }.to_text(), "10.1.1.0/24");
    assert_eq!(Cidr::V6 { addr: 1, prefix_len: 128 }.to_text(), "::1/128");
    assert_eq!(net("fd00::/32").to_text(), "fd00::/32");
}

#[test]
fn cidr_text_round_trips() {
    for text in ["1.2.3.4/32", "5.6.7.8/32", "192.168.0.0/16", "2001:db8::/48"] {
        assert_eq!(net(text).to_text(), text);
    }
}

#[test]
fn cidr_host_v4_is_the_slash_32() {
    assert_eq!(Cidr::host_v4(0x0506_0708), net("5.6.7.8/32"));
    assert_eq!(Cidr::host_v4(0x0506_0708).to_text(), "5.6.7.8/32");
}

#[test]
fn cidr_is_valid_goes_by_the_family() {
    assert!(Cidr::V4 { addr: 1, prefix_len: 32 }.is_valid());
    assert!(!Cidr::V4 { addr: 1, prefix_len: 33 }.is_valid());
    assert!(Cidr::V6 { addr: 1, prefix_len: 128 }.is_valid());
    assert!(!Cidr::V6 { addr: 1, prefix_len: 129 }.is_valid());
}

#[test]
fn entry_parse_builds_the_entry() {
    let entry = AllowListEntry::parse("1.2.3.4/32", "home").unwrap();
    assert_eq!(entry.cidr, net("1.2.3.4/32"));
    assert_eq!(entry.description, "home");
}

#[test]
fn entry_parse_fails_with_malformed_cidr() {
    assert_eq!(AllowListEntry::parse("1.2.3.4", "home"), Err(ParseError::MalformedCidr));
    assert_eq!(AllowListEntry::parse("not a cidr", "home"), Err(ParseError::MalformedCidr));
}

#[test]
fn entry_parse_bounds_the_description() {
    let longest = "d".repeat(MAX_DESCRIPTION_LEN);
    let too_long = "d".repeat(MAX_DESCRIPTION_LEN + 1);
    assert_eq!(MAX_DESCRIPTION_LEN, 255);
    assert!(AllowListEntry::parse("1.2.3.4/32", &longest).is_ok());
    assert_eq!(
        AllowListEntry::parse("1.2.3.4/32", &too_long),
        Err(ParseError::DescriptionTooLong)
    );
    // The limit counts characters, not bytes.
    let wide = "é".repeat(MAX_DESCRIPTION_LEN);
    assert!(AllowListEntry::parse("1.2.3.4/32", &wide).is_ok());
    // A malformed prefix is reported before a long description.
    assert_eq!(AllowListEntry::parse("x", &too_long), Err(ParseError::MalformedCidr));
}

#[test]
fn entry_ownership_ignores_ascii_case() {
    let entry = AllowListEntry::parse("1.2.3.4/32", "Home-Office").unwrap();
    assert!(entry.is_owned("Home-Office"));
    assert!(entry.is_owned("home-office"));
    assert!(entry.is_owned("HOME-OFFICE"));
    assert!(!entry.is_owned("home office"));
    assert!(!entry.is_owned("home-offic"));
    assert!(!entry.is_owned(""));
}

#[test]
fn entry_clone_is_equal() {
    let entry = AllowListEntry::parse("1.2.3.4/32", "home").unwrap();
    assert_eq!(entry.clone(), entry);
}

#[test]
fn text_comparisons() {
    assert!(str_eq("abc", "abc"));
    assert!(!str_eq("abc", "abd"));
    assert!(!str_eq("abc", "ab"));
    assert!(str_eq("", ""));
    assert!(eq_ignore_case("AbC", "aBc"));
    assert!(!eq_ignore_case("abc", "abcd"));
    assert!(!eq_ignore_case("a_c", "a-c"));
    // Only ASCII letters fold.
    assert!(!eq_ignore_case("É", "é"));
    assert!(!eq_ignore_case("@", "`"));
    assert!(!eq_ignore_case("[", "{"));
    assert_eq!(to_lower('A'), 'a');
    assert_eq!(to_lower('Z'), 'z');
    assert_eq!(to_lower('a'), 'a');
    assert_eq!(to_lower('@'), '@');
    assert_eq!(to_lower('['), '[');
    assert_eq!(chars_of("héllo"), vec!['h', 'é', 'l', 'l', 'o']);
}

#[test]
fn text_decimal_numerals() {
    let numeral = |n: u64| {
        let mut s = String::from("n=");
        push_decimal(&mut s, n);
        s
    };
    assert_eq!(numeral(0), "n=0");
    assert_eq!(numeral(7), "n=7");
    assert_eq!(numeral(10), "n=10");
    assert_eq!(numeral(403), "n=403");
    assert_eq!(numeral(u64::MAX), "n=18446744073709551615");
    let signed = |n: i64| {
        let mut s = String::new();
        push_signed_decimal(&mut s, n);
        s
    };
    assert_eq!(signed(0), "0");
    assert_eq!(signed(16), "16");
    assert_eq!(signed(-48), "-48");
    assert_eq!(signed(i64::MIN), "-9223372036854775808");
    assert_eq!(signed(i64::MAX), "9223372036854775807");
}

#[test]
fn cidr_set_holds_each_member_once() {
    let a = net("1.2.3.4/32");
    let b = net("5.6.7.8/32");
    let mut set = CidrSet::new();
    assert!(set.is_empty());
    assert_eq!(set.len(), 0);
    assert!(set.insert(a));
    assert!(!set.insert(a));
    assert!(set.insert(b));
    assert_eq!(set.len(), 2);
    assert!(set.contains(&a));
    assert!(set.contains(&b));
    assert!(!set.contains(&net("9.9.9.9/32")));
    assert!(!set.is_empty());
    assert_eq!(set.to_vec(), vec![a, b]);
}

#[test]
fn cidr_set_from_slice_drops_repetitions_and_keeps_the_order() {
    let a = net("1.2.3.4/32");
    let b = net("5.6.7.8/32");
    let c = net("9.9.9.9/32");
    let set = CidrSet::from_slice(&[b, a, b, c, a]);
    assert_eq!(set.to_vec(), vec![b, a, c]);
    assert_eq!(CidrSet::from_slice(&[]).to_vec(), vec![]);
}

#[test]
fn cidr_set_difference() {
    let a = net("1.2.3.4/32");
    let b = net("5.6.7.8/32");
    let c = net("9.9.9.9/32");
    let left = CidrSet::from_slice(&[a, b, c]);
    let right = CidrSet::from_slice(&[b]);
    assert_eq!(left.difference(&right).to_vec(), vec![a, c]);
    assert_eq!(right.difference(&left).to_vec(), vec![]);
    assert_eq!(left.difference(&CidrSet::new()).to_vec(), vec![a, b, c]);
}

#[test]
fn validity_of_entries_and_snapshots() {
    let good = AllowListEntry::parse("1.2.3.4/32", "home").unwrap();
    assert!(good.is_valid());
    let bad_prefix =
        AllowListEntry { cidr: Cidr::V4 { addr: 1, prefix_len: 40 }, description: String::new() };
    assert!(!bad_prefix.is_valid());
    let long = AllowListEntry { cidr: net("1.2.3.4/32"), description: "x".repeat(256) };
    assert!(!long.is_valid());
    let snapshot = |entries: Vec<AllowListEntry>| AllowListSnapshot {
        id: "pl-1".to_string(),
        version: 1,
        max_entries: 5,
        state: None,
        entries,
    };
    assert!(snapshot(vec![]).is_valid());
    assert!(snapshot(vec![good.clone(), good.clone()]).is_valid());
    assert!(!snapshot(vec![good.clone(), long]).is_valid());
    assert!(!snapshot(vec![bad_prefix, good]).is_valid());
}

#[test]
fn cidr_text_of_the_widest_and_narrowest_addresses() {
    assert_eq!(Cidr::V4 { addr: 0, prefix_len: 0 }.to_text(), "0.0.0.0/0");
    assert_eq!(Cidr::V4 { addr: u32::MAX, prefix_len: 32 }.to_text(), "255.255.255.255/32");
    assert_eq!(Cidr::V4 { addr: 0xc0a8_0a64, prefix_len: 9 }.to_text(), "192.168.10.100/9");
    assert_eq!(Cidr::V6 { addr: 0, prefix_len: 0 }.to_text(), "::/0");
}
