use rstat::options::{NeedFlag, OptionSelected, StatError};

fn args(list: &[&str]) -> Vec<String> {
    list.iter().map(|s| String::from(*s)).collect()
}

#[test]
fn default_selects_nothing() {
    let o = OptionSelected::default();
    assert!(!o.blink);
    assert!(!o.bterse);
    assert!(!o.bfilter);
    assert!(!o.bfilesystem);
    assert!(!o.bmhelper);
    assert!(o.files.is_empty());
    assert_eq!(o.output_inf, "");
    assert_eq!(o.needflag, NeedFlag::Default);
}

#[test]
fn first_token_is_discarded() {
    let mut o = OptionSelected::default();
    assert!(o.readoption(args(&["-t", "a"])).is_ok());
    assert!(!o.bterse);
    assert_eq!(o.files, vec![String::from("a")]);
}

#[test]
fn short_options_set_their_flags() {
    let mut o = OptionSelected::default();
    assert!(o.readoption(args(&["prog", "-L", "-t", "-H", "-f", "x"])).is_ok());
    assert!(o.blink);
    assert!(o.bterse);
    assert!(o.bmhelper);
    assert!(o.bfilesystem);
    assert!(!o.bfilter);
    assert_eq!(o.files, vec![String::from("x")]);
}

#[test]
fn short_options_cluster() {
    let mut o = OptionSelected::default();
    assert!(o.readoption(args(&["prog", "-tf", "x"])).is_ok());
    assert!(o.bterse);
    assert!(o.bfilesystem);
}

#[test]
fn long_options_set_their_flags() {
    let mut o = OptionSelected::default();
    assert!(o.readoption(args(&["prog", "--dereference", "--terse", "y"])).is_ok());
    assert!(o.blink);
    assert!(o.bterse);
    let mut o = OptionSelected::default();
    assert!(o.readoption(args(&["prog", "--more-help", "--file-system", "y"])).is_ok());
    assert!(o.bmhelper);
    assert!(o.bfilesystem);
}

#[test]
fn format_option_consumes_next_token() {
    let mut o = OptionSelected::default();
    assert!(o.readoption(args(&["prog", "-c", "%n %s", "file"])).is_ok());
    assert!(o.bfilter);
    assert_eq!(o.output_inf, "%n %s");
    assert_eq!(o.files, vec![String::from("file")]);
    assert_eq!(o.needflag, NeedFlag::Over);
}

#[test]
fn format_token_is_taken_verbatim_even_when_dashed() {
    let mut o = OptionSelected::default();
    assert!(o.readoption(args(&["prog", "-c", "-t", "file"])).is_ok());
    assert!(o.bfilter);
    assert!(!o.bterse);
    assert_eq!(o.output_inf, "-t");
}

#[test]
fn empty_token_is_skipped_even_when_format_is_owed() {
    let mut o = OptionSelected::default();
    assert!(o.readoption(args(&["prog", "-c", "", "%n", "f"])).is_ok());
    assert_eq!(o.output_inf, "%n");
    assert_eq!(o.files, vec![String::from("f")]);
}

#[test]
fn missing_format_is_rejected() {
    let mut o = OptionSelected::default();
    assert_eq!(o.readoption(args(&["prog", "-c"])), Err(StatError::MissingFormat));
    let mut o = OptionSelected::default();
    assert_eq!(o.readoption(args(&["prog", "--format=FORMAT"])), Err(StatError::MissingFormat));
}

#[test]
fn unknown_short_option_is_invalid() {
    let mut o = OptionSelected::default();
    assert_eq!(o.readoption(args(&["prog", "-z"])), Err(StatError::InvalidOption));
}

#[test]
fn unknown_letter_inside_cluster_is_invalid() {
    let mut o = OptionSelected::default();
    assert_eq!(o.readoption(args(&["prog", "-tq"])), Err(StatError::InvalidOption));
}

#[test]
fn unknown_long_option_is_invalid() {
    let mut o = OptionSelected::default();
    assert_eq!(o.readoption(args(&["prog", "--bogus"])), Err(StatError::InvalidOption));
}

#[test]
fn bare_double_dash_is_skipped() {
    let mut o = OptionSelected::default();
    assert!(o.readoption(args(&["prog", "--", "p"])).is_ok());
    assert_eq!(o.files, vec![String::from("p")]);
}

#[test]
fn long_format_option_needs_its_exact_spelling() {
    // Only the literal token `--format=FORMAT` announces a format.
    let mut o = OptionSelected::default();
    assert_eq!(o.readoption(args(&["prog", "--format=%n"])), Err(StatError::InvalidOption));
}

#[test]
fn paths_keep_input_order() {
    let mut o = OptionSelected::default();
    assert!(o.readoption(args(&["prog", "a", "-t", "b", "c"])).is_ok());
    assert_eq!(o.files, vec![String::from("a"), String::from("b"), String::from("c")]);
}

#[test]
fn no_arguments_parse_to_the_default() {
    let mut o = OptionSelected::default();
    assert!(o.readoption(Vec::new()).is_ok());
    assert!(o.files.is_empty());
}
