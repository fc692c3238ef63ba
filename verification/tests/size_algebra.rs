use pretty_trait::Size;
use std::cmp::Ordering;

#[test]
fn add_sums_finite_sizes() {
    assert_eq!(Size::Size(3) + Size::Size(4), Size::Size(7));
    assert_eq!(Size::Size(0) + Size::Size(0), Size::Size(0));
    assert_eq!(Size::Size(usize::MAX - 1) + Size::Size(1), Size::Size(usize::MAX));
}

#[test]
fn add_multi_line_absorbs() {
    assert_eq!(Size::Size(3) + Size::MultiLine, Size::MultiLine);
    assert_eq!(Size::MultiLine + Size::Size(3), Size::MultiLine);
    assert_eq!(Size::MultiLine + Size::MultiLine, Size::MultiLine);
    assert_eq!(Size::MultiLine + Size::Size(usize::MAX), Size::MultiLine);
}

#[test]
fn add_is_associative_on_values() {
    let sizes = [Size::Size(0), Size::Size(2), Size::Size(40), Size::MultiLine];
    for a in sizes {
        for b in sizes {
            for c in sizes {
                assert_eq!((a + b) + c, a + (b + c));
                assert_eq!(a + b, b + a);
            }
        }
    }
}

#[test]
fn mul_scales_finite_sizes() {
    assert_eq!(Size::Size(3) * 4, Size::Size(12));
    assert_eq!(Size::Size(3) * 0, Size::Size(0));
    assert_eq!(Size::Size(0) * 9, Size::Size(0));
    assert_eq!(Size::Size(7) * 1, Size::Size(7));
}

#[test]
fn mul_keeps_multi_line() {
    assert_eq!(Size::MultiLine * 4, Size::MultiLine);
    assert_eq!(Size::MultiLine * 0, Size::MultiLine);
}

#[test]
fn exceeds_is_strict() {
    assert!(!Size::Size(10).exceeds(Some(10)));
    assert!(Size::Size(11).exceeds(Some(10)));
    assert!(!Size::Size(0).exceeds(Some(0)));
    assert!(Size::Size(1).exceeds(Some(0)));
}

#[test]
fn exceeds_multi_line_exceeds_every_maximum() {
    assert!(Size::MultiLine.exceeds(Some(0)));
    assert!(Size::MultiLine.exceeds(Some(usize::MAX)));
}

#[test]
fn exceeds_nothing_exceeds_unlimited() {
    assert!(!Size::Size(0).exceeds(None));
    assert!(!Size::Size(usize::MAX).exceeds(None));
    assert!(!Size::MultiLine.exceeds(None));
}

#[test]
fn order_is_total_with_multi_line_on_top() {
    assert!(Size::Size(3) < Size::Size(4));
    assert!(Size::Size(4) > Size::Size(3));
    assert!(Size::Size(usize::MAX) < Size::MultiLine);
    assert!(Size::MultiLine > Size::Size(0));
    assert!(Size::MultiLine <= Size::MultiLine);
    assert!(!(Size::MultiLine < Size::MultiLine));
    assert_eq!(Size::Size(3).partial_cmp(&Size::Size(3)), Some(Ordering::Equal));
    assert_eq!(Size::Size(3).partial_cmp(&Size::MultiLine), Some(Ordering::Less));
    assert_eq!(Size::MultiLine.partial_cmp(&Size::Size(3)), Some(Ordering::Greater));
    assert_eq!(Size::MultiLine.partial_cmp(&Size::MultiLine), Some(Ordering::Equal));
}

#[test]
fn order_of_cmp_agrees_with_partial_cmp() {
    let sizes = [Size::Size(0), Size::Size(2), Size::Size(usize::MAX), Size::MultiLine];
    for a in sizes {
        for b in sizes {
            assert_eq!(a.partial_cmp(&b), Some(a.cmp(&b)));
            assert_eq!(a == b, a.cmp(&b) == Ordering::Equal);
        }
    }
    assert_eq!(Size::Size(3).max(Size::MultiLine), Size::MultiLine);
    assert_eq!(Size::Size(3).min(Size::MultiLine), Size::Size(3));
}

#[test]
fn multi_line_equals_only_itself() {
    assert_eq!(Size::MultiLine, Size::MultiLine);
    assert_ne!(Size::MultiLine, Size::Size(usize::MAX));
    assert_ne!(Size::Size(1), Size::Size(2));
    let copy = Size::Size(5);
    let other = copy;
    assert_eq!(copy, other.clone());
    assert_eq!(format!("{:?}", Size::Size(5)), "Size(5)");
    assert_eq!(format!("{:?}", Size::MultiLine), "MultiLine");
}
