use commit_template::builder::parse_commit_template;
use commit_template::error::{RenderError, TemplateError, ValueKind};
use commit_template::parser::TemplateParser;
use commit_template::record::{CommitOrChangeId, Record, Signature, Timestamp};
use commit_template::template::Chunk;

fn chars(s: &str) -> Vec<char> {
    s.chars().collect()
}

fn signature(name: &str, email: &str) -> Signature {
    Signature {
        name: name.to_string(),
        email: email.to_string(),
        timestamp: Timestamp {
            absolute: "2022-11-30 10:00:00.000 +01:00".to_string(),
            relative: "2 hours ago".to_string(),
        },
    }
}

fn record(description: &str) -> Record {
    Record {
        description: description.to_string(),
        change_id: CommitOrChangeId {
            hex: "9a45c67d3e96a7e5007c110ede34dec5".to_string(),
            shortest_prefix_len: 2,
        },
        commit_id: CommitOrChangeId {
            hex: "abcdef0123456789abcdef0123456789abcdef01".to_string(),
            shortest_prefix_len: 3,
        },
        author: signature("Alice", "alice@example.com"),
        committer: signature("Bob", "bob@example.com"),
        working_copies: "default@".to_string(),
        is_working_copy: true,
        branches: "main".to_string(),
        tags: "v1.0".to_string(),
        git_refs: "main".to_string(),
        git_head: "HEAD@git".to_string(),
        divergent: false,
        conflict: true,
        empty: false,
    }
}

fn render(source: &str, r: &Record) -> String {
    let t = parse_commit_template(source).unwrap();
    t.render_plain(r).unwrap()
}

fn build_error(source: &str) -> TemplateError {
    match parse_commit_template(source) {
        Ok(_) => panic!("template was accepted: {source}"),
        Err(e) => e,
    }
}

fn labels(ls: &[&str]) -> Vec<String> {
    ls.iter().map(|l| l.to_string()).collect()
}

#[test]
fn literal_escapes_decode() {
    let r = record("");
    assert_eq!(render(r#""a\"b\\c\nd""#, &r), "a\"b\\c\nd");
    assert_eq!(render(r#""plain text""#, &r), "plain text");
    assert_eq!(render(r#""""#, &r), "");
}

#[test]
fn unknown_escape_fails() {
    let e = build_error(r#""a\qb""#);
    assert!(matches!(e, TemplateError::InvalidEscape('q')));
}

#[test]
fn if_picks_branch() {
    let mut r = record("x");
    assert_eq!(render(r#"if(conflict, "A", "B")"#, &r), "A");
    r.conflict = false;
    assert_eq!(render(r#"if(conflict, "A", "B")"#, &r), "B");
    assert_eq!(render(r#"if(conflict, "A")"#, &r), "");
    assert_eq!(render(r#"if(divergent,"A","B")"#, &r), "B");
}

#[test]
fn label_uses_words_of_first_argument() {
    let r = record("");
    let t = parse_commit_template(r#"label("a b", "c")"#).unwrap();
    let out = t.render(&r).unwrap();
    assert_eq!(out.len(), 1);
    assert_eq!(out[0].text, "c");
    assert_eq!(out[0].labels, labels(&["a", "b"]));
}

#[test]
fn label_splits_on_any_whitespace() {
    let r = record("");
    let t = parse_commit_template("label(\"  x\\ny\tz \", \"c\")").unwrap();
    let out = t.render(&r).unwrap();
    assert_eq!(out[0].labels, labels(&["x", "y", "z"]));
}

#[test]
fn label_words_come_from_the_record() {
    let r = record("");
    let t = parse_commit_template(r#"label(branches " " tags, "c")"#).unwrap();
    let out = t.render(&r).unwrap();
    assert_eq!(out[0].labels, labels(&["main", "v1.0"]));
}

#[test]
fn terms_concatenate_in_order() {
    let r = record("");
    assert_eq!(render(r#""a" "b" "c""#, &r), "abc");
    assert_eq!(render(r#"branches " " tags"#, &r), "main v1.0");
}

#[test]
fn first_line_of_description() {
    let r = record("first line\nsecond line\n");
    assert_eq!(render("description.first_line()", &r), "first line");
    let r = record("windows\r\nnext");
    assert_eq!(render("description.first_line()", &r), "windows");
    let r = record("\nafter");
    assert_eq!(render("description.first_line()", &r), "");
}

#[test]
fn first_line_of_empty_text_fails_to_render() {
    let r = record("");
    let t = parse_commit_template("description.first_line()").unwrap();
    assert!(matches!(t.render_plain(&r), Err(RenderError::NoFirstLine)));
}

#[test]
fn method_not_of_kind_fails() {
    let e = build_error("description.name()");
    match e {
        TemplateError::NoSuchMethod(kind, name) => {
            assert_eq!(kind, ValueKind::Text);
            assert_eq!(name, chars("name"));
        }
        other => panic!("unexpected error: {other:?}"),
    }
}

#[test]
fn chain_follows_kinds() {
    let r = record("");
    assert_eq!(render("author.name()", &r), "Alice");
    assert_eq!(render("committer.email()", &r), "bob@example.com");
    assert_eq!(render("author.timestamp().ago()", &r), "2 hours ago");
    assert_eq!(render("author.timestamp()", &r), "2022-11-30 10:00:00.000 +01:00");
    let e = build_error("author.timestamp().name()");
    assert!(matches!(e, TemplateError::NoSuchMethod(ValueKind::Timestamp, _)));
}

#[test]
fn text_condition_is_non_empty() {
    let r = record("");
    assert_eq!(render(r#"if(description, "yes", "no")"#, &r), "no");
    let r = record("something");
    assert_eq!(render(r#"if(description, "yes", "no")"#, &r), "yes");
}

#[test]
fn non_boolean_condition_fails() {
    let e = build_error(r#"if(author, "yes")"#);
    assert!(matches!(e, TemplateError::NotBoolean(ValueKind::Signature)));
    let e = build_error(r#"if(commit_id, "yes")"#);
    assert!(matches!(e, TemplateError::NotBoolean(ValueKind::CommitOrChangeId)));
}

#[test]
fn unknown_names_fail_naming_them() {
    match build_error("no_such_keyword") {
        TemplateError::UnknownIdentifier(n) => assert_eq!(n, chars("no_such_keyword")),
        other => panic!("unexpected error: {other:?}"),
    }
    match build_error(r#"frobnicate("x")"#) {
        TemplateError::UnknownFunction(n) => assert_eq!(n, chars("frobnicate")),
        other => panic!("unexpected error: {other:?}"),
    }
    match build_error("commit_id.longest()") {
        TemplateError::NoSuchMethod(ValueKind::CommitOrChangeId, n) => {
            assert_eq!(n, chars("longest"))
        }
        other => panic!("unexpected error: {other:?}"),
    }
}

#[test]
fn empty_source_renders_nothing() {
    let r = record("anything");
    assert_eq!(render("", &r), "");
    assert_eq!(render("  \n ", &r), "");
}

#[test]
fn keyword_is_labelled_with_its_name() {
    let r = record("hello");
    let out = parse_commit_template("description").unwrap().render(&r).unwrap();
    assert_eq!(out.len(), 1);
    assert_eq!(out[0].text, "hello");
    assert_eq!(out[0].labels, labels(&["description"]));
    let out = parse_commit_template("description.first_line()")
        .unwrap()
        .render(&r)
        .unwrap();
    assert_eq!(out[0].labels, labels(&["description", "first_line"]));
}

#[test]
fn literal_has_no_labels() {
    let r = record("");
    let out = parse_commit_template(r#""x""#).unwrap().render(&r).unwrap();
    assert_eq!(out[0].labels, Vec::<String>::new());
}

#[test]
fn identifier_forms() {
    let r = record("");
    assert_eq!(render("commit_id", &r), "abcdef0123456789abcdef0123456789abcdef01");
    assert_eq!(render("commit_id.short()", &r), "abcdef012345");
    assert_eq!(render("commit_id.shortest_prefix_and_brackets()", &r), "abc[def012345]");
    assert_eq!(render("change_id.short()", &r), "9a45c67d3e96");
}

#[test]
fn brackets_left_out_when_prefix_is_whole_short_form() {
    let mut r = record("");
    r.commit_id.shortest_prefix_len = 12;
    assert_eq!(render("commit_id.shortest_prefix_and_brackets()", &r), "abcdef012345");
    r.commit_id.hex = "abc".to_string();
    r.commit_id.shortest_prefix_len = 5;
    assert_eq!(render("commit_id.short()", &r), "abc");
    assert_eq!(render("commit_id.shortest_prefix_and_brackets()", &r), "abc");
}

#[test]
fn styled_prefix_is_labelled() {
    let r = record("");
    let out = parse_commit_template("commit_id.shortest_styled_prefix()")
        .unwrap()
        .render(&r)
        .unwrap();
    assert_eq!(out.len(), 2);
    assert_eq!(out[0].text, "abc");
    assert_eq!(
        out[0].labels,
        labels(&["commit_id", "shortest_styled_prefix", "prefix"])
    );
    assert_eq!(out[1].text, "def012345");
    assert_eq!(
        out[1].labels,
        labels(&["commit_id", "shortest_styled_prefix", "rest"])
    );
    let e = build_error("commit_id.shortest_styled_prefix().short()");
    assert!(matches!(
        e,
        TemplateError::NoSuchMethod(ValueKind::IdWithHighlightedPrefix, _)
    ));
}

#[test]
fn signature_renders_name_and_email() {
    let r = record("");
    let out: Vec<Chunk> = parse_commit_template("author").unwrap().render(&r).unwrap();
    let text: String = out.iter().map(|c| c.text.as_str()).collect();
    assert_eq!(text, "Alice <alice@example.com>");
    assert_eq!(out[0].labels, labels(&["author", "name"]));
    assert_eq!(out[2].labels, labels(&["author", "email"]));
}

#[test]
fn booleans_render_as_words() {
    let r = record("");
    assert_eq!(render("conflict", &r), "true");
    assert_eq!(render("divergent", &r), "false");
    assert_eq!(render("current_working_copy empty", &r), "truefalse");
}

#[test]
fn other_keywords_render_record_values() {
    let r = record("");
    assert_eq!(
        render("working_copies git_refs git_head", &r),
        "default@mainHEAD@git"
    );
}

#[test]
fn argument_counts_are_checked() {
    match build_error(r#"label("a")"#) {
        TemplateError::ArgumentCount(n, 1) => assert_eq!(n, chars("label")),
        other => panic!("unexpected error: {other:?}"),
    }
    match build_error(r#"if(conflict, "a", "b", "c")"#) {
        TemplateError::ArgumentCount(n, 4) => assert_eq!(n, chars("if")),
        other => panic!("unexpected error: {other:?}"),
    }
    assert!(matches!(
        build_error("if(conflict)"),
        TemplateError::ArgumentCount(_, 1)
    ));
}

#[test]
fn groups_and_nesting() {
    let r = record("one\ntwo");
    assert_eq!(render(r#"("a" "b")"#, &r), "ab");
    assert_eq!(render("(description).first_line()", &r), "one");
    assert_eq!(
        render(r#"if(conflict, label("x", "in") "out")"#, &r),
        "inout"
    );
    let e = build_error(r#"("a" "b").first_line()"#);
    assert!(matches!(e, TemplateError::MethodOnTemplate(_)));
    let e = build_error(r#"if(("a" "b"), "x")"#);
    assert!(matches!(e, TemplateError::TemplateAsBoolean));
}

#[test]
fn syntax_errors_are_reported() {
    assert!(matches!(build_error(r#""abc"#), TemplateError::Syntax(_)));
    assert!(matches!(build_error("description."), TemplateError::Syntax(_)));
    assert!(matches!(build_error("if(conflict"), TemplateError::Syntax(_)));
    assert!(matches!(build_error("a,b"), TemplateError::Syntax(_)));
}

#[test]
fn parser_distinguishes_empty_programs() {
    assert!(matches!(TemplateParser::parse_program(""), Ok(None)));
    assert!(matches!(TemplateParser::parse_program(" \t\n"), Ok(None)));
    assert!(matches!(TemplateParser::parse_program("x"), Ok(Some(_))));
    match TemplateParser::parse_program(r#""a" )"#) {
        Err(TemplateError::Syntax(p)) => assert_eq!(p, 4),
        other => panic!("unexpected result: {other:?}"),
    }
}

#[test]
fn non_ascii_text_survives() {
    let r = record("héllo wörld\nzwei");
    assert_eq!(render("description.first_line()", &r), "héllo wörld");
    assert_eq!(render(r#""ü→""#, &r), "ü→");
}

#[test]
fn bare_carriage_return_stays_in_first_line() {
    let r = record("abc\r");
    assert_eq!(render("description.first_line()", &r), "abc\r");
    let r = record("abc\rdef\r\nnext");
    assert_eq!(render("description.first_line()", &r), "abc\rdef");
}

#[test]
fn label_splits_on_unicode_white_space() {
    let r = record("");
    let t = parse_commit_template("label(\"a\u{a0}b\u{3000}c\", \"x\")").unwrap();
    let out = t.render(&r).unwrap();
    assert_eq!(out[0].labels, labels(&["a", "b", "c"]));
}

#[test]
fn syntax_error_position_is_where_reading_stops() {
    match parse_commit_template("if(") {
        Err(TemplateError::Syntax(p)) => assert_eq!(p, 3),
        other => panic!("unexpected result: {other:?}"),
    }
    match parse_commit_template(r#""a" "b"#) {
        Err(TemplateError::Syntax(p)) => assert_eq!(p, 6),
        other => panic!("unexpected result: {other:?}"),
    }
}
