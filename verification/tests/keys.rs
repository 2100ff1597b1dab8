use catalog::key::split_key;

fn parts(key: &str) -> Vec<String> {
    split_key(key)
}

#[test]
fn key_without_dot_is_one_part() {
    assert_eq!(vec!["some_catalog".to_string()], parts("some_catalog"));
    assert_eq!(vec!["".to_string()], parts(""));
}

#[test]
fn key_is_cut_at_every_dot() {
    assert_eq!(vec!["a".to_string(), "b".to_string()], parts("a.b"));
    assert_eq!(
        vec!["a".to_string(), "b".to_string(), "c".to_string()],
        parts("a.b.c")
    );
    assert_eq!(
        vec![
            "a".to_string(),
            "b".to_string(),
            "c".to_string(),
            "d".to_string()
        ],
        parts("a.b.c.d")
    );
}

#[test]
fn dots_at_the_ends_and_in_a_row_give_empty_parts() {
    assert_eq!(vec!["".to_string(), "".to_string()], parts("."));
    assert_eq!(vec!["".to_string(), "a".to_string()], parts(".a"));
    assert_eq!(vec!["a".to_string(), "".to_string()], parts("a."));
    assert_eq!(
        vec!["a".to_string(), "".to_string(), "b".to_string()],
        parts("a..b")
    );
}

#[test]
fn parts_joined_with_dots_give_the_key_back() {
    for key in ["", ".", "a", "a.b", "..", "a.b.c.d", "x..y.", "ключ.значение"] {
        assert_eq!(key, parts(key).join("."));
        assert_eq!(
            key.split('.').map(str::to_string).collect::<Vec<String>>(),
            parts(key)
        );
    }
}

#[test]
fn parts_are_cut_between_characters_of_any_width() {
    assert_eq!(
        vec!["é€".to_string(), "𝄞".to_string(), "z".to_string()],
        parts("é€.𝄞.z")
    );
}
