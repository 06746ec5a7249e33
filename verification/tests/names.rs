use toy_interferometer::names::{compare_names, names_equal, NameOrder};

#[test]
fn compare_names_orders_by_code_point() {
    assert_eq!(compare_names("CS001HBA0", "CS001HBA1"), NameOrder::Less);
    assert_eq!(compare_names("Perth", "Parkes"), NameOrder::Greater);
    assert_eq!(compare_names("CZ", "CZ-Ondrejov"), NameOrder::Less);
    assert_eq!(compare_names("Zed", "abc"), NameOrder::Less);
    assert_eq!(compare_names("GMRT", "GMRT"), NameOrder::Equal);
    assert_eq!(compare_names("", ""), NameOrder::Equal);
    assert_eq!(compare_names("a", ""), NameOrder::Greater);
}

#[test]
fn compare_names_agrees_with_str_order() {
    let words = ["", "a", "ab", "b", "B", "é", "e", "ze", "zé", "IT", "IT-NOTO"];
    for a in words {
        for b in words {
            let expected = match a.cmp(b) {
                std::cmp::Ordering::Less => NameOrder::Less,
                std::cmp::Ordering::Equal => NameOrder::Equal,
                std::cmp::Ordering::Greater => NameOrder::Greater,
            };
            assert_eq!(compare_names(a, b), expected, "{} vs {}", a, b);
        }
    }
}

#[test]
fn names_equal_is_text_equality() {
    assert!(names_equal("LOFAR", "LOFAR"));
    assert!(!names_equal("LOFAR", "lofar"));
    assert!(!names_equal("LOFAR", "LOFAR "));
}
