use welder::Welder;

#[test]
fn empty_weld_is_empty_string() {
    let string: String = Welder::new(' ').weld();

    assert_eq!("", &string);
}

#[test]
fn empty_weld_is_empty_vec() {
    let vec: Vec<i32> = Welder::new(0).weld();

    assert!(vec.is_empty());
}

#[test]
fn from_base_keeps_the_base() {
    let string: String = Welder::from_base(' ', String::from("foo")).elem("bar").weld();

    assert_eq!("foo bar", &string);
}

#[test]
fn no_glue_inserts_nothing() {
    let string: String = Welder::with_start(' ', "foo")
        .elem_no_glue("bar")
        .elem_no_glue("baz")
        .weld();

    assert_eq!("foobarbaz", &string);
}

#[test]
fn batch_no_glue_inserts_nothing() {
    let string: String = Welder::with_start(' ', "foo")
        .elems_no_glue(vec!["bar", "baz"])
        .weld();

    assert_eq!("foobarbaz", &string);
}

#[test]
fn glue_left_goes_before_each_element() {
    let string: String = Welder::new(' ')
        .elem_glue_left("foo")
        .elem_glue_left("bar")
        .elem_glue_left("baz")
        .weld();

    assert_eq!(" foo bar baz", &string);
}

#[test]
fn glue_right_goes_after_each_element() {
    let string: String = Welder::with_start(' ', "foo")
        .elem_glue_right("bar")
        .elem_glue_right("baz")
        .weld();

    assert_eq!("foobar baz ", &string);
}

#[test]
fn glue_both_doubles_between_elements() {
    let string: String = Welder::new(' ')
        .elem_glue_both("foo")
        .elem_glue_both("bar")
        .weld();

    assert_eq!(" foo  bar ", &string);
}

#[test]
fn batch_glue_left_matches_singles() {
    let batch: Vec<i32> = Welder::new(0).elems_glue_left(vec![1, 2, 3]).weld();
    let singles: Vec<i32> = Welder::new(0)
        .elem_glue_left(1)
        .elem_glue_left(2)
        .elem_glue_left(3)
        .weld();

    assert_eq!(&[0, 1, 0, 2, 0, 3], batch.as_slice());
    assert_eq!(batch, singles);
}

#[test]
fn batch_glue_right_matches_singles() {
    let batch: Vec<i32> = Welder::new(0).elems_glue_right(vec![1, 2, 3]).weld();
    let singles: Vec<i32> = Welder::new(0)
        .elem_glue_right(1)
        .elem_glue_right(2)
        .elem_glue_right(3)
        .weld();

    assert_eq!(&[1, 0, 2, 0, 3, 0], batch.as_slice());
    assert_eq!(batch, singles);
}

#[test]
fn batch_glue_both_matches_singles() {
    let batch: Vec<i32> = Welder::new(0).elems_glue_both(vec![1, 2, 3]).weld();
    let singles: Vec<i32> = Welder::new(0)
        .elem_glue_both(1)
        .elem_glue_both(2)
        .elem_glue_both(3)
        .weld();

    assert_eq!(&[0, 1, 0, 0, 2, 0, 0, 3, 0], batch.as_slice());
    assert_eq!(batch, singles);
}

#[test]
fn batch_no_glue_matches_singles() {
    let batch: Vec<i32> = Welder::new(0).elems_no_glue(vec![1, 2, 3]).weld();
    let singles: Vec<i32> = Welder::new(0)
        .elem_no_glue(1)
        .elem_no_glue(2)
        .elem_no_glue(3)
        .weld();

    assert_eq!(&[1, 2, 3], batch.as_slice());
    assert_eq!(batch, singles);
}

#[test]
fn empty_batch_changes_nothing() {
    let elems: Vec<&str> = Vec::new();
    let string: String = Welder::with_start(' ', "foo").elems(elems).weld();

    assert_eq!("foo", &string);
}

#[test]
fn elems_is_glue_left() {
    let string: String = Welder::new(' ').elems(vec!["foo", "bar", "baz"]).weld();

    assert_eq!(" foo bar baz", &string);
}

#[test]
fn with_start_differs_from_empty_start() {
    let seeded: String = Welder::with_start(' ', "foo").elem("bar").weld();
    let empty_start: String = Welder::new(' ').elem("foo").elem("bar").weld();

    assert_eq!("foo bar", &seeded);
    assert_eq!(" foo bar", &empty_start);
    assert_ne!(seeded, empty_start);
}

#[test]
fn str_glue_welds_strings() {
    let string: String = Welder::with_start(", ", "foo").elem("bar").elem("baz").weld();

    assert_eq!("foo, bar, baz", &string);
}

#[test]
fn owned_string_elements_weld() {
    let string: String = Welder::new(' ')
        .elem(String::from("foo"))
        .elem(String::from("bar"))
        .weld();

    assert_eq!(" foo bar", &string);
}

#[test]
fn char_elements_weld() {
    let string: String = Welder::new('-').elem('a').elem('b').weld();

    assert_eq!("-a-b", &string);
}

#[test]
fn u64_vec_welds() {
    let vec: Vec<u64> = Welder::with_start(7u64, 1u64).elem(2u64).elem(3u64).weld();

    assert_eq!(&[1, 7, 2, 7, 3], vec.as_slice());
}
