use nas_normlzr::template::{apply_spec, render, TemplateError, Vars};

fn vars(pairs: &[(&str, &str)]) -> Vars {
    let mut v = Vars::new();
    for (k, val) in pairs {
        v.insert(k.to_string(), val.to_string());
    }
    v
}

fn spec(value: &str, s: &str) -> String {
    let v: Vec<char> = value.chars().collect();
    let sp: Vec<char> = s.chars().collect();
    apply_spec(&v, &sp).into_iter().collect()
}

#[test]
fn plain_substitution() {
    let v = vars(&[("title", "Alien"), ("year", "1979")]);
    assert_eq!(render("{title} ({year})", &v).unwrap(), "Alien (1979)");
}

#[test]
fn zero_padded() {
    let v = vars(&[("season", "1"), ("episode", "2")]);
    assert_eq!(render("S{season:02}E{episode:02}", &v).unwrap(), "S01E02");
}

#[test]
fn missing_var_is_empty() {
    let v = vars(&[("title", "Alien")]);
    assert_eq!(render("{title} ({year})", &v).unwrap(), "Alien ()");
}

#[test]
fn escaped_braces() {
    let v = vars(&[]);
    assert_eq!(render("{{literal}}", &v).unwrap(), "{literal}");
}

#[test]
fn unclosed_brace_is_an_error() {
    let v = vars(&[("title", "Alien")]);
    let e = render("{title} ({year", &v).unwrap_err();
    assert_eq!(e, TemplateError::UnclosedBrace("{title} ({year".to_string()));
    assert_eq!(e.message(), "Unclosed `{` in template: {title} ({year");
}

#[test]
fn plain_text_is_unchanged() {
    let v = vars(&[("title", "Alien")]);
    assert_eq!(render("Movies/Alien 1979", &v).unwrap(), "Movies/Alien 1979");
    assert_eq!(render("", &v).unwrap(), "");
}

#[test]
fn later_insert_replaces_value() {
    let mut v = Vars::new();
    v.insert("title".to_string(), "Alien".to_string());
    v.insert("title".to_string(), "Aliens".to_string());
    assert_eq!(v.get(&"title".to_string()).map(|s| s.as_str()), Some("Aliens"));
    assert_eq!(v.get(&"year".to_string()), None);
    assert_eq!(render("{title}", &v).unwrap(), "Aliens");
}

#[test]
fn escaped_text_renders_back() {
    let v = vars(&[("a", "X")]);
    assert_eq!(render("{{a}} and }}{{", &v).unwrap(), "{a} and }{");
    assert_eq!(render("a } b", &v).unwrap(), "a } b");
}

#[test]
fn format_spec_formulas() {
    // Zero padding of numbers, space padding otherwise.
    assert_eq!(spec("7", "03"), "007");
    assert_eq!(spec("7", "3"), "  7");
    assert_eq!(spec("abc", "05"), "  abc");
    // Numbers are normalised before padding.
    assert_eq!(spec("007", "2"), " 7");
    assert_eq!(spec("+5", "02"), "05");
    assert_eq!(spec("-3", "04"), "00-3");
    // Wider values are not cut.
    assert_eq!(spec("12345", "02"), "12345");
    // Width zero or not a number leaves the value.
    assert_eq!(spec("1", "0"), "1");
    assert_eq!(spec("1", "00"), "1");
    assert_eq!(spec("1", "x"), "1");
    assert_eq!(spec("1", ""), "1");
    // Values outside i64 pad as text.
    assert_eq!(spec("99999999999999999999", "021"), " 99999999999999999999");
    assert_eq!(spec("-9223372036854775808", "1"), "-9223372036854775808");
}

#[test]
fn token_with_spec_and_missing_variable() {
    let v = vars(&[]);
    assert_eq!(render("[{x:3}]", &v).unwrap(), "[   ]");
    assert_eq!(render("[{}]", &v).unwrap(), "[]");
}
