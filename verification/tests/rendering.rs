use pretty_trait::{
    block, delimited, to_string, Conditional, Context, Group, Indent, JoinExt, Layout, Newline,
    Pretty, Sep, Sequence, Size, Text, Width,
};

enum NestList {
    Atom(i32),
    List(Vec<NestList>),
}

fn to_pretty(nest_list: &NestList) -> Box<dyn Pretty> {
    match nest_list {
        NestList::Atom(val) => Box::new(val.to_string()),
        NestList::List(children) => Box::new(Group::new(
            "[".join(block(
                delimited(&",".join(Sep(1)), children.iter().map(to_pretty).collect())
                    .join(Conditional::OnlyBroken(",")),
            ))
            .join("]"),
        )),
    }
}

fn atoms(values: &[i32]) -> NestList {
    NestList::List(values.iter().map(|value| NestList::Atom(*value)).collect())
}

fn large_list() -> NestList {
    NestList::List(vec![
        atoms(&[1, 2, 3, 4, 5]),
        atoms(&[6, 7, 8, 9, 10]),
        NestList::List(vec![atoms(&[11, 12, 13]), atoms(&[14, 15, 16])]),
    ])
}

#[test]
fn nested_list_short_is_unbroken() {
    let small_list = atoms(&[1, 2, 3]);
    assert_eq!(to_string(&to_pretty(&small_list), Some(40), 4), "[1, 2, 3]");
}

#[test]
fn nested_list_long_is_broken() {
    let expected = "\
[
    [1, 2, 3, 4, 5],
    [6, 7, 8, 9, 10],
    [[11, 12, 13], [14, 15, 16]],
]";
    assert_eq!(to_string(&to_pretty(&large_list()), Some(40), 4), expected);
}

#[test]
fn nested_list_unlimited_is_one_line() {
    assert_eq!(
        to_string(&to_pretty(&large_list()), None, 4),
        "[[1, 2, 3, 4, 5], [6, 7, 8, 9, 10], [[11, 12, 13], [14, 15, 16]]]"
    );
}

#[test]
fn nested_list_breaks_deeper_when_narrow() {
    let expected = "\
[
  [1, 2, 3, 4, 5],
  [6, 7, 8, 9, 10],
  [
    [11, 12, 13],
    [14, 15, 16],
  ],
]";
    assert_eq!(to_string(&to_pretty(&large_list()), Some(20), 2), expected);
}

#[test]
fn zero_width_separator_breaks_only_when_broken() {
    assert_eq!(to_string(&"hello".join("world!"), Some(10), 4), "helloworld!");
    assert_eq!(to_string(&"hello".join(Sep(0)).join("world!"), Some(11), 4), "helloworld!");
    assert_eq!(to_string(&"hello".join(Sep(0)).join("world!"), None, 4), "helloworld!");
    assert_eq!(to_string(&"hello".join(Sep(0)).join("world!"), Some(10), 4), "hello\nworld!");
    assert_eq!(
        to_string(&Group::new("hello".join(Sep(0))).join("world!"), Some(10), 4),
        "helloworld!"
    );
}

#[test]
fn two_groups_joined_by_a_separator() {
    let value = Group::new("hello,").join(Sep(1)).join(Group::new("world!"));
    assert_eq!(to_string(&value, Some(10), 4), "hello,\nworld!");
    assert_eq!(to_string(&value, Some(13), 4), "hello, world!");
}

#[test]
fn forced_break_with_unlimited_width() {
    assert_eq!(to_string(&"hello".join(Newline).join("world"), None, 4), "hello\nworld");
    assert_eq!(
        to_string(&Group::new("hello".join(Newline).join("world")), None, 4),
        "hello\nworld"
    );
}

#[test]
fn unlimited_width_turns_separators_into_spaces() {
    let value = Group::new(
        "a".join(Sep(3))
            .join(Indent(Group::new("b".join(Sep(0)).join("c").join(Sep(2)))))
            .join(Conditional::OnlyBroken("!"))
            .join(Conditional::OnlyUnbroken("?"))
            .join(Sequence(vec![Some(Sep(1)), None, Some(Sep(1))]))
            .join("d".repeat(500)),
    );
    assert_eq!(to_string(&value, None, 4), format!("a   bc  ?  {}", "d".repeat(500)));
    let forced = "a".join(Newline).join("b").join(Sep(2)).join(Indent(Newline)).join(Sep(1));
    assert_eq!(to_string(&forced, None, 4), "a\nb  \n     ");
}

#[test]
fn fitting_group_renders_on_one_line() {
    let content = "a"
        .join(Sep(2))
        .join("b")
        .join(Conditional::OnlyBroken(","))
        .join(Conditional::OnlyUnbroken(";"))
        .join(Sep(0))
        .join("c");
    assert_eq!(content.size(), Size::Size(5));
    assert_eq!(to_string(&Group::new(content), Some(5), 4), "a  b;c");
    assert_eq!(to_string(&"0123456789".join(Sep(1)).join(Group::new(content)), Some(5), 4),
        "0123456789\na  b;c");
    assert_eq!(to_string(&Group::new(content), Some(4), 4), "a\nb,\nc");
}

#[test]
fn rendering_twice_gives_the_same_text() {
    let value = to_pretty(&large_list());
    for max_line in [None, Some(0), Some(20), Some(40), Some(70)] {
        for tab_size in [0, 2, 4] {
            let first = to_string(&value, max_line, tab_size);
            let second = to_string(&value, max_line, tab_size);
            assert_eq!(first, second);
            assert_eq!(value.size(), value.size());
        }
    }
}

#[test]
fn margins_follow_the_indentation_level() {
    let value = "a"
        .join(Indent(Sep(1).join("b").join(Indent(Sep(1).join("c"))).join(Sep(1)).join("d")))
        .join(Sep(1))
        .join("e");
    assert_eq!(to_string(&value, Some(0), 3), "a\n   b\n      c\n   d\ne");
    assert_eq!(to_string(&value, Some(0), 0), "a\nb\nc\nd\ne");
    assert_eq!(to_string(&value, Some(0), 1), "a\n b\n  c\n d\ne");
    assert_eq!(to_string(&value, None, 3), "a b c d e");
}

#[test]
fn maximum_of_zero_breaks_everything_but_empty_content() {
    assert_eq!(to_string(&"".join(Sep(0)).join(""), Some(0), 4), "");
    assert_eq!(to_string(&"a".join(Sep(0)).join(""), Some(0), 4), "a\n");
    assert_eq!(to_string(&Sep(1), Some(0), 4), "\n");
    assert_eq!(to_string(&Sep(0), Some(0), 4), "");
}

struct Shout(String);

impl Pretty for Shout {
    fn width(&self) -> Width {
        unreachable!()
    }

    fn text(&self, _layout: Layout) -> Text {
        unreachable!()
    }

    fn measurable(&self) -> bool {
        unreachable!()
    }

    fn printable(&self, _layout: Layout) -> bool {
        unreachable!()
    }

    fn size(&self) -> Size {
        Size::Size(self.0.chars().count() + 1)
    }

    fn pretty_write(&self, context: Context) {
        context.writer.push_str(&self.0.to_uppercase());
        context.writer.push('!');
    }
}

#[test]
fn custom_pretty_type_takes_part_in_layout() {
    let value = Group::new(Shout("hello".to_string()).join(Sep(1)).join(Shout("you".to_string())));
    assert_eq!(value.size(), Size::Size(11));
    assert_eq!(to_string(&value, Some(11), 4), "HELLO! YOU!");
    assert_eq!(to_string(&value, Some(10), 4), "HELLO!\nYOU!");
}
