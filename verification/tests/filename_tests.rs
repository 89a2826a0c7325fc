use rss_gobbler::filename::filename_from_title;

#[test]
fn test_plain_title_keeps_its_characters() {
    assert_eq!(filename_from_title("Episode42"), "Episode42.mp3");
}

#[test]
fn test_non_alphanumeric_characters_become_underscores() {
    assert_eq!(filename_from_title("dog episode!"), "dog_episode_.mp3");
    assert_eq!(filename_from_title("a/b\\c:d"), "a_b_c_d.mp3");
}

#[test]
fn test_empty_title_yields_just_the_extension() {
    assert_eq!(filename_from_title(""), ".mp3");
}

#[test]
fn test_unicode_alphanumerics_are_kept() {
    assert_eq!(filename_from_title("héllo wörld"), "héllo_wörld.mp3");
}

#[test]
fn test_derivation_is_the_same_on_repeated_calls() {
    let first = filename_from_title("Some Title (remastered)");
    let second = filename_from_title("Some Title (remastered)");
    assert_eq!(first, second);
    assert_eq!(first, "Some_Title__remastered_.mp3");
}
