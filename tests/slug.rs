use blog_upload::slug::slugify;

#[test]
fn slug_trims_lowercases_and_hyphenates() {
    assert_eq!(slugify("  Hello World  "), "hello-world");
}

#[test]
fn slug_drops_only_the_first_disallowed_character() {
    assert_eq!(slugify("Hello, World! Foo"), "hello-world! foo");
}

#[test]
fn slug_collapses_the_first_run_of_hyphens() {
    assert_eq!(slugify("a--b"), "a-b");
}

#[test]
fn long_slug_is_cut_to_thirty_characters() {
    let title = "a".repeat(40);
    assert_eq!(slugify(&title), "a".repeat(30));
    assert_eq!(slugify(&"b".repeat(30)), "b".repeat(30));
}

#[test]
fn empty_title_gives_an_empty_slug() {
    assert_eq!(slugify("   "), "");
}
