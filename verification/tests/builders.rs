use pretty_trait::{block, delimited, to_string, Conditional, Group, JoinExt, Pretty, Sep, Size};
use std::rc::Rc;

#[test]
fn delimited_basic_usage() {
    assert_eq!(
        to_string(&delimited(&",".join(Sep(1)), vec!["lorem", "ipsum", "dolor"]), None, 4),
        "lorem, ipsum, dolor"
    );
}

#[test]
fn delimited_has_no_trailing_delimiter() {
    let sequence = delimited(&";", vec!["a", "b", "c", "d"]);
    assert_eq!(sequence.0.len(), 4);
    let items: Vec<&str> = sequence.0.iter().map(|joined| joined.0).collect();
    assert_eq!(items, vec!["a", "b", "c", "d"]);
    let delims: Vec<Option<&str>> = sequence.0.iter().map(|joined| joined.1).collect();
    assert_eq!(delims, vec![Some(";"), Some(";"), Some(";"), None]);
    assert_eq!(to_string(&sequence, None, 4), "a;b;c;d");
    assert_eq!(sequence.size(), Size::Size(7));
}

#[test]
fn delimited_single_item_has_no_delimiter() {
    let sequence = delimited(&",".join(Sep(1)), vec!["only"]);
    assert_eq!(sequence.0.len(), 1);
    assert!(sequence.0[0].1.is_none());
    assert_eq!(to_string(&sequence, Some(2), 4), "only");
}

#[test]
fn delimited_empty_list_is_empty() {
    let sequence = delimited(&",", Vec::<&str>::new());
    assert!(sequence.0.is_empty());
    assert_eq!(to_string(&sequence, Some(0), 4), "");
    assert_eq!(sequence.size(), Size::Size(0));
}

#[test]
fn delimited_breaks_at_the_delimiters() {
    let sequence = delimited(&",".join(Sep(1)), vec!["lorem", "ipsum", "dolor"]);
    assert_eq!(to_string(&sequence, Some(10), 4), "lorem,\nipsum,\ndolor");
    let owned = delimited(&String::from(" | "), vec![String::from("a"), String::from("b")]);
    assert_eq!(to_string(&owned, Some(10), 4), "a | b");
}

#[test]
fn block_basic_usage() {
    let max_line = Some(10);
    let tab_size = 2;
    let expected_broken = "\
(
  hello
  world
)";
    let blocked = "(".join(block("hello".join(Sep(1)).join("world"))).join(")");
    assert_eq!(to_string(&blocked, max_line, tab_size), expected_broken);
    let expected_unbroken = "(hello world)";
    assert_eq!(to_string(&blocked, None, tab_size), expected_unbroken);
}

#[test]
fn block_is_indent_between_two_separators() {
    let blocked = block("x");
    assert_eq!(((blocked.0).0).0 .0, 0);
    assert_eq!(((blocked.0).0).1, "x");
    assert_eq!((blocked.1).0, 0);
    assert_eq!(blocked.size(), Size::Size(1));
    assert_eq!(to_string(&blocked, Some(0), 3), "\n   x\n");
    assert_eq!(to_string(&blocked, Some(1), 3), "x");
}

#[test]
fn block_nests() {
    let inner = "[".join(block("a".join(Sep(1)).join("b"))).join("]");
    let outer = "{".join(block(inner)).join("}");
    assert_eq!(to_string(&outer, Some(3), 2), "{\n  [\n    a\n    b\n  ]\n}");
    assert_eq!(to_string(&outer, None, 2), "{[a b]}");
    let grouped = "{{".join(block(Group::new("[".join(block("a".join(Sep(1)).join("b"))).join("]"))))
        .join(Conditional::OnlyBroken(";"))
        .join("}");
    assert_eq!(grouped.size(), Size::Size(8));
    assert_eq!(to_string(&grouped, Some(8), 2), "{{[a b]}");
    assert_eq!(to_string(&grouped, Some(7), 2), "{{\n  [a b]\n;}");
    assert_eq!(to_string(&grouped, Some(6), 2), "{{\n  [\n    a\n    b\n  ]\n;}");
}

#[test]
fn bracketed_list_with_trailing_comma_when_broken() {
    let list = Group::new(
        "[".join(block(
            delimited(&",".join(Sep(1)), vec!["1", "2", "3"]).join(Conditional::OnlyBroken(",")),
        ))
        .join("]"),
    );
    assert_eq!(list.size(), Size::Size(9));
    assert_eq!(to_string(&list, Some(40), 4), "[1, 2, 3]");
    assert_eq!(to_string(&list, Some(9), 4), "[1, 2, 3]");
    assert_eq!(to_string(&list, Some(8), 4), "[\n    1,\n    2,\n    3,\n]");
    assert_eq!(to_string(&list, None, 4), "[1, 2, 3]");
}

#[test]
fn delimited_shares_a_reference_counted_delimiter() {
    let delim: Rc<dyn Pretty> = Rc::new(";".join(Sep(1)));
    let sequence = delimited(&delim, vec!["a", "b", "c"]);
    assert_eq!(Rc::strong_count(&delim), 3);
    assert_eq!(to_string(&sequence, None, 4), "a; b; c");
    assert_eq!(to_string(&sequence, Some(3), 4), "a;\nb;\nc");
}
