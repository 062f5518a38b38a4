use layered_config::names::{partial_names, partial_names_from};
use layered_config::text::{join_dotted, str_eq};
use layered_config::visibility::{inner_visibility, InnerVisibility, Visibility};

#[test]
fn partial_names_of_the_sample_types() {
    assert_eq!(
        partial_names("Conf"),
        ("confique_partial_conf".to_string(), "PartialConf".to_string())
    );
    assert_eq!(
        partial_names("LogConfig"),
        ("confique_partial_log_config".to_string(), "PartialLogConfig".to_string())
    );
    assert_eq!(
        partial_names("HTTPServer"),
        ("confique_partial_http_server".to_string(), "PartialHTTPServer".to_string())
    );
}

#[test]
fn partial_names_from_a_given_snake_form() {
    assert_eq!(
        partial_names_from("LogConfig", "log_config"),
        ("confique_partial_log_config".to_string(), "PartialLogConfig".to_string())
    );
    assert_eq!(
        partial_names_from("", ""),
        ("confique_partial_".to_string(), "Partial".to_string())
    );
}

#[test]
fn inner_visibility_of_each_outer_visibility() {
    assert_eq!(inner_visibility(&Visibility::Public), InnerVisibility::AsOuter);
    assert_eq!(inner_visibility(&Visibility::Crate), InnerVisibility::AsOuter);
    assert_eq!(inner_visibility(&Visibility::Inherited), InnerVisibility::Super);
    assert_eq!(
        inner_visibility(&Visibility::Restricted { leading_colon: true }),
        InnerVisibility::AsOuter
    );
    assert_eq!(
        inner_visibility(&Visibility::Restricted { leading_colon: false }),
        InnerVisibility::InSuper
    );
}

#[test]
fn strings_compare_by_their_characters() {
    assert!(str_eq("", ""));
    assert!(str_eq("Option", "Option"));
    assert!(!str_eq("Option", "option"));
    assert!(!str_eq("Option", "Optio"));
    assert!(!str_eq("", "a"));
    assert!(str_eq("ba\u{fb04}e \u{3a3}", "ba\u{fb04}e \u{3a3}"));
    assert!(!str_eq("\u{3c3}", "\u{3c2}"));
}

#[test]
fn paths_are_joined_by_one_dot() {
    assert_eq!(join_dotted("http", "log.file"), "http.log.file");
    assert_eq!(join_dotted("", ""), ".");
}
