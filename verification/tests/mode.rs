use outlook_mail::mode::ApiMode;

#[test]
fn stored_values_are_read_as_modes() {
    assert_eq!(ApiMode::from(Some("graph".to_string())), ApiMode::Graph);
    assert_eq!(ApiMode::from(Some("imap".to_string())), ApiMode::Imap);
    assert_eq!(ApiMode::from(Some("auto".to_string())), ApiMode::Auto);
}

#[test]
fn unknown_and_absent_values_are_auto() {
    assert_eq!(ApiMode::from(None), ApiMode::Auto);
    assert_eq!(ApiMode::from(Some("".to_string())), ApiMode::Auto);
    assert_eq!(ApiMode::from(Some("Graph".to_string())), ApiMode::Auto);
    assert_eq!(ApiMode::from(Some("pop3".to_string())), ApiMode::Auto);
}

#[test]
fn default_mode_is_auto() {
    assert_eq!(ApiMode::default(), ApiMode::Auto);
}

#[test]
fn modes_are_stored_in_lower_case() {
    assert_eq!(ApiMode::Graph.as_str(), "graph");
    assert_eq!(ApiMode::Imap.as_str(), "imap");
    assert_eq!(ApiMode::Auto.as_str(), "auto");
}

#[test]
fn a_stored_mode_reads_back_as_itself() {
    for mode in [ApiMode::Auto, ApiMode::Imap, ApiMode::Graph] {
        assert_eq!(ApiMode::from(Some(mode.as_str().to_string())), mode);
    }
}

#[test]
fn modes_are_named_in_summaries() {
    assert_eq!(ApiMode::Graph.name(), "Graph");
    assert_eq!(ApiMode::Imap.name(), "Imap");
    assert_eq!(ApiMode::Auto.name(), "Auto");
}
