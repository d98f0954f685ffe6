use shio::pattern::normalize_pattern as normalize;
use shio::pattern::parse;
use shio::pattern::Pattern;

fn assert_parse(pattern: &str, expected_re: &str) -> Pattern {
    let re_str = parse(pattern);
    assert_eq!(&*re_str, expected_re);

    let re = regex::Regex::new(&re_str);
    assert!(re.is_ok());

    Pattern::new(re.unwrap())
}

#[test]
fn test_parse_static() {
    let re = assert_parse("/", r"^/$");
    assert!(re.is_match("/"));
    assert!(!re.is_match("/a"));

    let re = assert_parse("/user", r"^/user$");
    assert!(re.is_match("/user"));
    assert!(!re.is_match("/user1"));
    assert!(!re.is_match("/user/"));

    let re = assert_parse("/user/", r"^/user/$");
    assert!(re.is_match("/user/"));
    assert!(!re.is_match("/user"));
    assert!(!re.is_match("/user/gs"));

    let re = assert_parse("/user/profile", r"^/user/profile$");
    assert!(re.is_match("/user/profile"));
    assert!(!re.is_match("/user/profile/profile"));
}

#[test]
fn test_parse_param() {
    let re = assert_parse("/user/{id}", r"^/user/(?P<id>[^/]+)$");
    assert!(re.is_match("/user/profile"));
    assert!(re.is_match("/user/2345"));
    assert!(!re.is_match("/user/2345/"));
    assert!(!re.is_match("/user/2345/sdg"));

    let captures = re.parameters("/user/profile").unwrap();
    assert_eq!(captures.get(0).unwrap(), "profile");
    assert_eq!(captures.name("id").unwrap(), "profile");

    let captures = re.parameters("/user/1245125").unwrap();
    assert_eq!(captures.get(0).unwrap(), "1245125");
    assert_eq!(captures.name("id").unwrap(), "1245125");

    let re = assert_parse(
        "/v{version}/resource/{id}",
        r"^/v(?P<version>[^/]+)/resource/(?P<id>[^/]+)$",
    );
    assert!(re.is_match("/v1/resource/320120"));
    assert!(!re.is_match("/v/resource/1"));
    assert!(!re.is_match("/resource"));

    let captures = re.parameters("/v151/resource/adahg32").unwrap();
    assert_eq!(captures.get(0).unwrap(), "151");
    assert_eq!(captures.name("version").unwrap(), "151");
    assert_eq!(captures.name("id").unwrap(), "adahg32");
}

#[test]
fn normalize_pattern() {
    assert_eq!(normalize(""), "");
    assert_eq!(normalize("/"), "^/$");
    assert_eq!(normalize("/path/to"), "^/path/to/?$");
    assert_eq!(normalize("/path/to/"), "^/path/to/?$");
}

#[test]
fn normalize_pattern_sheds_anchors_and_spaces() {
    assert_eq!(normalize("  ^/users/$  "), "^/users/?$");
    assert_eq!(normalize("   "), "^/$");
}

#[test]
fn single_segment_parameter_matches_one_segment_only() {
    let p = Pattern::from_str("/user/{id}").unwrap();
    let caps = p.parameters("/user/3289").unwrap();
    assert_eq!(caps.name("id").unwrap(), "3289");
    let caps = p.parameters("/user/profile").unwrap();
    assert_eq!(caps.name("id").unwrap(), "profile");
    assert!(p.parameters("/user").is_none());
    assert!(p.parameters("/user/3289/extra").is_none());
}

#[test]
fn custom_parameter_may_span_segments() {
    let p = Pattern::from_str("/static/{file: .+}").unwrap();
    let caps = p.parameters("/static/a/b/c").unwrap();
    assert_eq!(caps.name("file").unwrap(), "a/b/c");
    assert!(p.parameters("/static").is_none());
    assert!(p.parameters("/static/").is_none());
}

#[test]
fn custom_parameter_trims_leading_spaces_only() {
    assert_eq!(parse("/a/{x:   \\d+}"), r"^/a/(?P<x>\d+)$");
    assert_eq!(parse("/a/{x:\\d +}"), r"^/a/(?P<x>\d +)$");
}

#[test]
fn a_colon_inside_a_custom_pattern_starts_it_afresh() {
    assert_eq!(parse("/t/{x: a:b}"), r"^/t/(?P<x>b)$");
    assert_eq!(parse("/t/{f: (?:a|b)}"), r"^/t/(?P<f>a|b))$");
}

#[test]
fn bad_custom_pattern_is_a_fatal_configuration_error() {
    let err = Pattern::from_str("/bad/{x: [}");
    assert!(err.is_err());
    match err {
        Err(shio::errors::PatternError::Syntax(_)) => {}
        _ => panic!("a malformed sub-pattern is a syntax error"),
    }
}

#[test]
fn parameters_fall_back_to_nothing_out_of_range() {
    let p = Pattern::from_str("/user/{id}").unwrap();
    let caps = p.parameters("/user/7").unwrap();
    assert_eq!(caps.get(5), None);
    assert_eq!(caps.name("nope"), None);
    assert_eq!(caps.text(), "/user/7");
}
