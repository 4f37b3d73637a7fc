use game_of_life::options::GenerateOptions;

#[test]
fn options_have_their_names() {
    assert_eq!(GenerateOptions::Empty.to_value(), "empty");
    assert_eq!(GenerateOptions::Random.to_value(), "random");
}

#[test]
fn random_is_read_from_its_name() {
    assert_eq!(GenerateOptions::from_value(String::from("random")), GenerateOptions::Random);
}

#[test]
fn any_other_value_reads_as_empty() {
    assert_eq!(GenerateOptions::from_value(String::from("empty")), GenerateOptions::Empty);
    assert_eq!(GenerateOptions::from_value(String::new()), GenerateOptions::Empty);
    assert_eq!(GenerateOptions::from_value(String::from("Random")), GenerateOptions::Empty);
    assert_eq!(GenerateOptions::from_value(String::from("random ")), GenerateOptions::Empty);
}

#[test]
fn names_read_back_as_the_option() {
    for option in [GenerateOptions::Empty, GenerateOptions::Random] {
        assert_eq!(GenerateOptions::from_value(option.to_value().to_string()), option);
    }
}
