use gallerica::command::CommandTemplate;
use gallerica::command::split_spaces;

fn strings(v: Vec<&str>) -> Vec<String> {
    v.into_iter().map(|s| s.to_string()).collect()
}

#[test]
fn test_split_spaces_tokenizes() {
    assert_eq!(split_spaces("echo {image}"), strings(vec!["echo", "{image}"]));
    assert_eq!(split_spaces("one"), strings(vec!["one"]));
    assert_eq!(split_spaces(""), strings(vec![""]));
    // Consecutive separators yield empty tokens, as the configuration's
    // plain space-split does.
    assert_eq!(split_spaces("a  b"), strings(vec!["a", "", "b"]));
    assert_eq!(split_spaces(" x"), strings(vec!["", "x"]));
}

#[test]
fn test_template_substitutes_placeholder() {
    let template = CommandTemplate::parse("swaybg -i {image} --mode fill");
    let cmd = template.build(&"/pics/cat.png".to_string());
    assert_eq!(cmd.program, "swaybg".to_string());
    assert_eq!(cmd.args, strings(vec!["-i", "/pics/cat.png", "--mode", "fill"]));
}

#[test]
fn test_placeholder_must_match_whole_token() {
    // Only a token that is exactly the marker is substituted; substring
    // occurrences pass through literally.
    let template = CommandTemplate::parse("viewer a{image} {image}b {image}");
    let cmd = template.build(&"p.png".to_string());
    assert_eq!(cmd.args, strings(vec!["a{image}", "{image}b", "p.png"]));
}

#[test]
fn test_placeholder_substituted_at_every_occurrence() {
    let template = CommandTemplate::parse("show {image} {image}");
    let cmd = template.build(&"x".to_string());
    assert_eq!(cmd.args, strings(vec!["x", "x"]));
}

#[test]
fn test_template_without_arguments() {
    let template = CommandTemplate::parse("refresh-display");
    let cmd = template.build(&"ignored".to_string());
    assert_eq!(cmd.program, "refresh-display".to_string());
    assert_eq!(cmd.args, Vec::<String>::new());
}

#[test]
fn test_from_tokens_needs_a_command() {
    assert!(CommandTemplate::from_tokens(&Vec::new()).is_none());
    let template = CommandTemplate::from_tokens(&strings(vec!["echo", "{image}"])).unwrap();
    let cmd = template.build(&"y".to_string());
    assert_eq!(cmd.program, "echo".to_string());
    assert_eq!(cmd.args, strings(vec!["y"]));
}
