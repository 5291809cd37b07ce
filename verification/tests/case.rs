use bpaf_unsynn::case::{to_kebab_case, to_snake_case};

#[test]
fn check_to_snake_case() {
    assert_eq!(to_snake_case("Foo"), "foo");
    assert_eq!(to_snake_case("FooBar"), "foo_bar");
    assert_eq!(to_snake_case("FOO"), "f_o_o");
    assert_eq!(to_snake_case("r#in"), "in");
}

#[test]
fn check_to_kebab_case() {
    assert_eq!(to_kebab_case("Foo"), "foo");
    assert_eq!(to_kebab_case("FooBar"), "foo-bar");
    assert_eq!(to_kebab_case("FOO"), "f-o-o");
    assert_eq!(to_kebab_case("r#in"), "in");
    assert_eq!(to_kebab_case("foo_bar"), "foo-bar");
}

#[test]
fn kebab_is_snake_with_dashes_on_examples() {
    for s in ["FooBar", "foo_bar-baz", "r#type", "HTTPServer", "a_B-c", ""] {
        assert_eq!(to_kebab_case(s), to_snake_case(s).replace('_', "-"));
    }
}

#[test]
fn conversion_is_idempotent_on_examples() {
    for s in ["FooBar", "foo_bar-baz", "r#type", "HTTPServer", "x"] {
        let once = to_kebab_case(s);
        assert_eq!(to_kebab_case(&once), once);
        let once = to_snake_case(s);
        assert_eq!(to_snake_case(&once), once);
    }
}

#[test]
fn conversion_keeps_other_characters() {
    assert_eq!(to_kebab_case("a1b2"), "a1b2");
    assert_eq!(to_snake_case("Über"), "Über");
    assert_eq!(to_kebab_case("__"), "--");
}
