use serde_versioned::tag::{slot_of_tag, slot_tag};

#[test]
fn slot_tags_are_decimal_text() {
    assert_eq!(slot_tag(0), "0");
    assert_eq!(slot_tag(1), "1");
    assert_eq!(slot_tag(2), "2");
    assert_eq!(slot_tag(9), "9");
    assert_eq!(slot_tag(10), "10");
    assert_eq!(slot_tag(11), "11");
    assert_eq!(slot_tag(99), "99");
    assert_eq!(slot_tag(100), "100");
    assert_eq!(slot_tag(1203), "1203");
    assert_eq!(slot_tag(4_294_967_295), "4294967295");
}

#[test]
fn slot_tags_agree_with_the_standard_rendering() {
    for slot in 0..2500usize {
        assert_eq!(slot_tag(slot), slot.to_string());
    }
    assert_eq!(slot_tag(usize::MAX), usize::MAX.to_string());
}

#[test]
fn known_tags_name_their_slot() {
    assert_eq!(slot_of_tag("1", 2), Some(1));
    assert_eq!(slot_of_tag("2", 2), Some(2));
    assert_eq!(slot_of_tag("1", 1), Some(1));
    assert_eq!(slot_of_tag("10", 12), Some(10));
    assert_eq!(slot_of_tag("12", 12), Some(12));
    assert_eq!(slot_of_tag("100", 100), Some(100));
}

#[test]
fn every_slot_is_found_by_its_own_tag() {
    for count in 1..120usize {
        for slot in 1..=count {
            assert_eq!(slot_of_tag(&slot_tag(slot), count), Some(slot));
        }
        assert_eq!(slot_of_tag(&slot_tag(count + 1), count), None);
        assert_eq!(slot_of_tag(&slot_tag(0), count), None);
    }
}

#[test]
fn tags_beyond_the_last_slot_are_unknown() {
    assert_eq!(slot_of_tag("3", 2), None);
    assert_eq!(slot_of_tag("99", 2), None);
    assert_eq!(slot_of_tag("13", 12), None);
    assert_eq!(slot_of_tag("20", 12), None);
    assert_eq!(slot_of_tag("101", 100), None);
    assert_eq!(slot_of_tag("1", 0), None);
}

#[test]
fn zero_is_no_slot() {
    assert_eq!(slot_of_tag("0", 2), None);
    assert_eq!(slot_of_tag("0", 0), None);
}

#[test]
fn padded_tags_are_unknown() {
    assert_eq!(slot_of_tag("01", 2), None);
    assert_eq!(slot_of_tag("002", 2), None);
    assert_eq!(slot_of_tag("00", 2), None);
}

#[test]
fn tags_that_are_no_numbers_are_unknown() {
    assert_eq!(slot_of_tag("", 2), None);
    assert_eq!(slot_of_tag(" 1", 2), None);
    assert_eq!(slot_of_tag("1 ", 2), None);
    assert_eq!(slot_of_tag("+1", 2), None);
    assert_eq!(slot_of_tag("-1", 2), None);
    assert_eq!(slot_of_tag("1.0", 2), None);
    assert_eq!(slot_of_tag("one", 2), None);
    assert_eq!(slot_of_tag("Version1", 2), None);
    assert_eq!(slot_of_tag("1a", 20), None);
    assert_eq!(slot_of_tag("\u{0661}", 2), None);
    assert_eq!(slot_of_tag("\u{ff11}", 2), None);
}

#[test]
fn tags_too_large_for_the_machine_are_unknown() {
    assert_eq!(slot_of_tag("99999999999999999999999999999999", usize::MAX), None);
    assert_eq!(slot_of_tag("18446744073709551616", usize::MAX), None);
    assert_eq!(slot_of_tag(&usize::MAX.to_string(), usize::MAX), Some(usize::MAX));
}
