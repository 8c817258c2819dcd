use welder::Welder;

#[test]
fn string_welder() {
    let string: String = Welder::new(' ').elem("foo").weld();

    assert_eq!(" foo", &string);
}

#[test]
fn string_welder_from_base() {
    let string: String = Welder::with_start(' ', "foo").elem("bar").weld();

    assert_eq!("foo bar", &string);
}

#[test]
fn string_welder_multiple() {
    let welder = Welder::with_start(' ', "foo");

    let welder = welder.elem("bar");
    let welder = welder.elem("baz");
    let welder = welder.elem("boat");

    let string: String = welder.weld();

    assert_eq!("foo bar baz boat", &string);
}

#[test]
fn vec_welder_multiple() {
    let welder = Welder::with_start(0, 12);

    let welder = welder.elem(14);
    let welder = welder.elem(16);
    let welder = welder.elem(18);

    let vec: Vec<_> = welder.weld();

    assert_eq!(&[12, 0, 14, 0, 16, 0, 18], vec.as_slice());
}

#[test]
fn vec_welder_chain() {
    let welder = Welder::with_start(0, 12);

    let vec: Vec<_> = welder.elem(14).elem(16).elem(18).weld();

    assert_eq!(&[12, 0, 14, 0, 16, 0, 18], vec.as_slice());
}

#[test]
fn string_welder_chain() {
    let string: String = Welder::with_start(' ', "foo").elem("bar").elem("baz").elem("boat").weld();

    assert_eq!("foo bar baz boat", &string);
}
