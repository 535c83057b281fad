use lemurs::config::{get_modifier, str_to_color, Color, Modifier, VariableIterator};

#[test]
fn test_str_to_color_basic() {
    assert_eq!(str_to_color("red"), Some(Color::Red));
    assert_eq!(str_to_color("Blue"), Some(Color::Blue)); // Case insensitive
    assert_eq!(str_to_color("unknown"), None);
}

#[test]
fn test_str_to_color_hex() {
    assert_eq!(str_to_color("#FF0000"), Some(Color::Rgb(255, 0, 0)));
    assert_eq!(str_to_color("#00FF00"), Some(Color::Rgb(0, 255, 0)));
    assert_eq!(str_to_color("#0000FF"), Some(Color::Rgb(0, 0, 255)));
}

#[test]
fn test_str_to_color_hex_rejects_bad_digits() {
    assert_eq!(str_to_color("#GG0000"), None);
    assert_eq!(str_to_color("#FF00"), None);
    assert_eq!(str_to_color("#FF00000"), None);
}

#[test]
fn test_color_to_rgb() {
    assert_eq!(Color::Black.to_rgb(), 0x000000);
    assert_eq!(Color::Red.to_rgb(), 0xFF0000);
    assert_eq!(Color::White.to_rgb(), 0xFFFFFF);
    assert_eq!(Color::Rgb(0x12, 0x34, 0x56).to_rgb(), 0x123456);
}

#[test]
fn test_get_modifier() {
    assert_eq!(get_modifier("Bold"), Some(Modifier::Bold));
    assert_eq!(get_modifier("italic"), Some(Modifier::Italic));
    assert_eq!(get_modifier("unknown"), None);
}

#[test]
fn test_variable_iterator() {
    assert_eq!(VariableIterator::new("").next(), None);
    assert_eq!(VariableIterator::new("abcdef").next(), None);

    {
        let mut iter = VariableIterator::new("$a");
        assert_eq!(iter.next().unwrap().ident, "a");
        assert_eq!(iter.next(), None);
    }
    {
        let mut iter = VariableIterator::new("$a$b");
        assert_eq!(iter.next().unwrap().ident, "a");
        assert_eq!(iter.next().unwrap().ident, "b");
        assert_eq!(iter.next(), None);
    }
}

#[test]
fn test_variable_iterator_longest_run_and_positions() {
    let mut iter = VariableIterator::new("x$HOME/bin and $USER_1!");
    let first = iter.next().unwrap();
    assert_eq!(first.ident, "HOME");
    assert_eq!(first.start, 2);
    assert_eq!(first.end, 6);
    let second = iter.next().unwrap();
    assert_eq!(second.ident, "USER_1");
    assert_eq!(iter.next(), None);
}

#[test]
fn test_variable_iterator_lone_dollar() {
    let mut iter = VariableIterator::new("100$ $$ok");
    // The second `$` of `$$ok` starts a variable; everything before does not.
    assert_eq!(iter.next().unwrap().ident, "ok");
    assert_eq!(iter.next(), None);
}
