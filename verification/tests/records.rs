use bugzilla_query::{
    find_member, first_bug, Bug, BugzillaError, BzInstance, DecodeError, Flag, Json, Number,
    QueryError, Response, User,
};

fn session() -> BzInstance {
    BzInstance::at("https://bugzilla.example.com".to_string())
}

fn user_text(id: i32, login: &str) -> String {
    format!(
        r#"{{"email": "{login}@example.com", "id": {id}, "name": "{login}", "real_name": "The {login}"}}"#
    )
}

/// The members of a bug in the default field set, without the enclosing braces.
fn bug_members(id: i32) -> String {
    let creator = user_text(11, "ann");
    let assignee = user_text(12, "bob");
    let watcher = user_text(13, "cyd");
    format!(
        r#""op_sys": "Linux", "classification": "Fedora", "id": {id},
        "url": "https://example.com/report", "creator": "ann", "creator_detail": {creator},
        "summary": "It crashes", "status": "NEW", "estimated_time": 0,
        "target_milestone": "---", "cc": ["cyd"], "cc_detail": [{watcher}],
        "is_open": true, "is_creator_accessible": true, "docs_contact": "",
        "assigned_to": "bob", "assigned_to_detail": {assignee}, "resolution": "",
        "severity": "high", "product": "Fedora", "platform": "x86_64",
        "last_change_time": "2022-03-01T10:00:00Z", "remaining_time": 0, "priority": "medium",
        "whiteboard": "", "creation_time": "2022-02-01T09:30:00Z", "is_confirmed": true,
        "qa_contact": "", "target_release": ["---"], "actual_time": 0,
        "component": ["kernel"], "is_cc_accessible": true, "version": ["36"],
        "keywords": ["Triaged"], "depends_on": [5, 6], "blocks": [], "see_also": [],
        "groups": []"#
    )
}

fn bug_text(id: i32) -> String {
    format!("{{{}}}", bug_members(id))
}

fn response_text(bugs: &[String]) -> String {
    format!(
        r#"{{"offset": 0, "limit": "20", "total_matches": {}, "bugs": [{}]}}"#,
        bugs.len(),
        bugs.join(", ")
    )
}

fn parse_bug(text: &str) -> Result<Bug, DecodeError> {
    Bug::from_json(&Json::parse(text).unwrap())
}

fn integer(n: i64) -> Json {
    Json::Number(Number { int: Some(n), text: n.to_string() })
}

fn text(s: &str) -> Json {
    Json::Text(s.to_string())
}

fn user(id: i32, login: &str) -> User {
    User {
        email: format!("{login}@example.com"),
        id,
        name: login.to_string(),
        real_name: format!("The {login}"),
        extra: Vec::new(),
    }
}

fn expected_bug(id: i32) -> Bug {
    Bug {
        op_sys: "Linux".to_string(),
        classification: "Fedora".to_string(),
        id,
        url: "https://example.com/report".to_string(),
        creator: "ann".to_string(),
        creator_detail: user(11, "ann"),
        summary: "It crashes".to_string(),
        status: "NEW".to_string(),
        estimated_time: 0,
        target_milestone: "---".to_string(),
        cc: vec!["cyd".to_string()],
        cc_detail: vec![user(13, "cyd")],
        is_open: true,
        is_creator_accessible: true,
        docs_contact: String::new(),
        docs_contact_detail: None,
        assigned_to: "bob".to_string(),
        assigned_to_detail: user(12, "bob"),
        resolution: String::new(),
        severity: "high".to_string(),
        product: "Fedora".to_string(),
        platform: "x86_64".to_string(),
        last_change_time: "2022-03-01T10:00:00Z".to_string(),
        remaining_time: 0,
        priority: "medium".to_string(),
        whiteboard: String::new(),
        creation_time: "2022-02-01T09:30:00Z".to_string(),
        is_confirmed: true,
        qa_contact: String::new(),
        qa_contact_detail: None,
        dupe_of: None,
        target_release: vec!["---".to_string()],
        actual_time: 0,
        component: vec!["kernel".to_string()],
        is_cc_accessible: true,
        version: vec!["36".to_string()],
        keywords: vec!["Triaged".to_string()],
        depends_on: vec![5, 6],
        blocks: Vec::new(),
        see_also: Vec::new(),
        groups: Vec::new(),
        deadline: None,
        update_token: None,
        work_time: None,
        flags: None,
        tags: None,
        dependent_products: None,
        extra: Vec::new(),
    }
}

#[test]
fn parse_reads_every_kind_of_value() {
    let parsed = Json::parse(r#"{"n": null, "b": true, "i": -3, "s": "x", "a": [1, "y"]}"#);
    let expected = Json::Object(vec![
        ("a".to_string(), Json::Array(vec![integer(1), text("y")])),
        ("b".to_string(), Json::Bool(true)),
        ("i".to_string(), integer(-3)),
        ("n".to_string(), Json::Null),
        ("s".to_string(), text("x")),
    ]);
    assert_eq!(parsed, Ok(expected));
}

#[test]
fn parse_keeps_the_numeral_of_a_fraction() {
    let parsed = Json::parse("1.5");
    assert_eq!(parsed, Ok(Json::Number(Number { int: None, text: "1.5".to_string() })));
}

#[test]
fn parse_gives_no_integer_beyond_64_bits() {
    let parsed = Json::parse("18446744073709551615");
    assert_eq!(
        parsed,
        Ok(Json::Number(Number { int: None, text: "18446744073709551615".to_string() }))
    );
}

#[test]
fn parse_reports_the_place_of_a_syntax_error() {
    let parsed = Json::parse("{");
    assert_eq!(
        parsed,
        Err(DecodeError::Syntax("EOF while parsing an object at line 1 column 1".to_string()))
    );
}

#[test]
fn parse_refuses_text_after_the_document() {
    assert!(matches!(Json::parse("{} x"), Err(DecodeError::Syntax(_))));
    assert!(matches!(Json::parse(""), Err(DecodeError::Syntax(_))));
}

#[test]
fn duplicate_is_equal_to_its_source() {
    let value = Json::parse(r#"{"a": [1, {"b": null}], "c": "d", "e": 2.5}"#).unwrap();
    assert_eq!(value.duplicate(), value);
    assert_eq!(value.clone(), value);
}

#[test]
fn find_member_takes_the_first_of_two() {
    let members = vec![
        ("a".to_string(), integer(1)),
        ("b".to_string(), integer(2)),
        ("a".to_string(), integer(3)),
    ];
    assert_eq!(find_member(&members, "a"), Some(&integer(1)));
    assert_eq!(find_member(&members, "b"), Some(&integer(2)));
    assert_eq!(find_member(&members, "c"), None);
}

#[test]
fn user_is_read_field_for_field() {
    let value = Json::parse(&user_text(11, "ann")).unwrap();
    assert_eq!(User::from_json(&value), Ok(user(11, "ann")));
}

#[test]
fn user_keeps_other_members() {
    let value = Json::parse(
        r#"{"email": "a@b", "id": 1, "name": "a", "real_name": "A", "insider": true}"#,
    )
    .unwrap();
    let user = User::from_json(&value).unwrap();
    assert_eq!(user.extra, vec![("insider".to_string(), Json::Bool(true))]);
}

#[test]
fn user_must_be_an_object() {
    assert_eq!(User::from_json(&text("ann")), Err(DecodeError::NotAnObject));
    assert_eq!(User::from_json(&Json::Array(Vec::new())), Err(DecodeError::NotAnObject));
}

#[test]
fn user_reports_the_first_failing_field() {
    let value = Json::parse(r#"{"email": "a@b", "real_name": 5}"#).unwrap();
    assert_eq!(User::from_json(&value), Err(DecodeError::Missing("id")));
    let value = Json::parse(r#"{"email": "a@b", "id": "1"}"#).unwrap();
    assert_eq!(User::from_json(&value), Err(DecodeError::Invalid("id")));
}

#[test]
fn flag_is_read_with_and_without_requestee() {
    let with = Json::parse(
        r#"{"id": 7, "type_id": 3, "creation_date": "2022-01-01T00:00:00Z",
            "modification_date": "2022-01-02T00:00:00Z", "name": "needinfo", "status": "?",
            "setter": "ann", "requestee": "bob"}"#,
    )
    .unwrap();
    let expected = Flag {
        id: 7,
        type_id: 3,
        creation_date: "2022-01-01T00:00:00Z".to_string(),
        modification_date: "2022-01-02T00:00:00Z".to_string(),
        name: "needinfo".to_string(),
        status: "?".to_string(),
        setter: "ann".to_string(),
        requestee: Some("bob".to_string()),
        extra: Vec::new(),
    };
    assert_eq!(Flag::from_json(&with), Ok(expected));
    let without = Json::parse(
        r#"{"id": 7, "type_id": 3, "creation_date": "", "modification_date": "",
            "name": "review", "status": "+", "setter": "ann"}"#,
    )
    .unwrap();
    assert_eq!(Flag::from_json(&without).unwrap().requestee, None);
}

#[test]
fn bug_is_read_field_for_field() {
    assert_eq!(parse_bug(&bug_text(123)), Ok(expected_bug(123)));
}

#[test]
fn bug_keeps_an_unrecognized_member() {
    let payload = format!(r#"{{{}, "custom_field_1": "x"}}"#, bug_members(123));
    let bug = parse_bug(&payload).unwrap();
    assert_eq!(bug.extra_field("custom_field_1"), Some(&text("x")));
    assert_eq!(bug.extra, vec![("custom_field_1".to_string(), text("x"))]);
    assert_eq!(Bug { extra: Vec::new(), ..bug }, expected_bug(123));
}

#[test]
fn bug_keeps_no_field_in_extra() {
    let bug = parse_bug(&bug_text(123)).unwrap();
    assert_eq!(bug.extra_field("id"), None);
    assert_eq!(bug.extra_field("summary"), None);
    assert_eq!(bug.extra_field("custom_field_1"), None);
}

#[test]
fn bug_keeps_structured_members_whole() {
    let text = format!(r#"{{{}, "cf_list": [1, {{"deep": [null]}}], "cf_ratio": 0.25}}"#, bug_members(1));
    let bug = parse_bug(&text).unwrap();
    let expected = Json::parse(r#"[1, {"deep": [null]}]"#).unwrap();
    assert_eq!(bug.extra_field("cf_list"), Some(&expected));
    assert_eq!(
        bug.extra_field("cf_ratio"),
        Some(&Json::Number(Number { int: None, text: "0.25".to_string() }))
    );
}

#[test]
fn bug_without_optional_members_has_them_absent() {
    let bug = parse_bug(&bug_text(1)).unwrap();
    assert_eq!(bug.flags, None);
    assert_eq!(bug.tags, None);
    assert_eq!(bug.dependent_products, None);
    assert_eq!(bug.docs_contact_detail, None);
    assert_eq!(bug.qa_contact_detail, None);
    assert_eq!(bug.dupe_of, None);
    assert_eq!(bug.deadline, None);
    assert_eq!(bug.update_token, None);
    assert_eq!(bug.work_time, None);
}

#[test]
fn bug_reads_null_as_absent() {
    let text = format!(
        r#"{{{}, "flags": null, "dupe_of": null, "deadline": null, "qa_contact_detail": null}}"#,
        bug_members(1)
    );
    assert_eq!(parse_bug(&text), Ok(expected_bug(1)));
}

#[test]
fn bug_reads_optional_members_that_are_there() {
    let qa = user_text(14, "dee");
    let text = format!(
        r#"{{{}, "flags": [{{"id": 7, "type_id": 3, "creation_date": "c", "modification_date": "m",
            "name": "needinfo", "status": "?", "setter": "ann", "requestee": "bob"}}],
            "tags": ["a", "b"], "dependent_products": [], "dupe_of": 77,
            "deadline": "2022-12-24", "update_token": "t0k", "work_time": -4,
            "qa_contact_detail": {qa}, "docs_contact_detail": {qa}}}"#,
        bug_members(1)
    );
    let bug = parse_bug(&text).unwrap();
    let flags = bug.flags.unwrap();
    assert_eq!(flags.len(), 1);
    assert_eq!(flags[0].name, "needinfo");
    assert_eq!(flags[0].requestee, Some("bob".to_string()));
    assert_eq!(bug.tags, Some(vec!["a".to_string(), "b".to_string()]));
    assert_eq!(bug.dependent_products, Some(Vec::new()));
    assert_eq!(bug.dupe_of, Some(77));
    assert_eq!(bug.deadline, Some("2022-12-24".to_string()));
    assert_eq!(bug.update_token, Some("t0k".to_string()));
    assert_eq!(bug.work_time, Some(-4));
    assert_eq!(bug.qa_contact_detail, Some(user(14, "dee")));
    assert_eq!(bug.docs_contact_detail, Some(user(14, "dee")));
    assert_eq!(bug.extra, Vec::new());
}

#[test]
fn bug_without_a_required_member_is_refused() {
    let text = bug_text(1).replace(r#""summary": "It crashes","#, "");
    assert_eq!(parse_bug(&text), Err(DecodeError::Missing("summary")));
}

#[test]
fn bug_with_a_member_of_the_wrong_type_is_refused() {
    let text = bug_text(1).replace(r#""is_open": true"#, r#""is_open": "yes""#);
    assert_eq!(parse_bug(&text), Err(DecodeError::Invalid("is_open")));
    let text = bug_text(1).replace(r#""cc": ["cyd"]"#, r#""cc": ["cyd", 4]"#);
    assert_eq!(parse_bug(&text), Err(DecodeError::Invalid("cc")));
    let text = bug_text(1).replace(r#""summary": "It crashes""#, r#""summary": null"#);
    assert_eq!(parse_bug(&text), Err(DecodeError::Invalid("summary")));
    let text = format!(r#"{{{}, "tags": "one"}}"#, bug_members(1));
    assert_eq!(parse_bug(&text), Err(DecodeError::Invalid("tags")));
}

#[test]
fn bug_reports_the_first_failing_field_in_order() {
    let text = bug_text(1)
        .replace(r#""summary": "It crashes","#, "")
        .replace(r#""classification": "Fedora","#, r#""classification": 1,"#);
    assert_eq!(parse_bug(&text), Err(DecodeError::Invalid("classification")));
}

#[test]
fn bug_reports_the_failure_inside_a_user() {
    let text = bug_text(1).replace(&user_text(11, "ann"), r#"{"email": "ann@example.com"}"#);
    assert_eq!(parse_bug(&text), Err(DecodeError::Missing("id")));
    let text = bug_text(1).replace(&user_text(11, "ann"), r#""ann""#);
    assert_eq!(parse_bug(&text), Err(DecodeError::NotAnObject));
}

#[test]
fn bug_id_must_fit_32_bits() {
    assert_eq!(parse_bug(&bug_text(i32::MAX)).unwrap().id, 2147483647);
    assert_eq!(parse_bug(&bug_text(i32::MIN)).unwrap().id, -2147483648);
    let text = bug_text(1).replace(r#""id": 1,"#, r#""id": 2147483648,"#);
    assert_eq!(parse_bug(&text), Err(DecodeError::Invalid("id")));
    let text = bug_text(1).replace(r#""id": 1,"#, r#""id": -2147483649,"#);
    assert_eq!(parse_bug(&text), Err(DecodeError::Invalid("id")));
}

#[test]
fn a_fraction_is_no_integer() {
    let text = bug_text(1).replace(r#""estimated_time": 0"#, r#""estimated_time": 0.5"#);
    assert_eq!(parse_bug(&text), Err(DecodeError::Invalid("estimated_time")));
    let text = bug_text(1).replace(r#""estimated_time": 0"#, r#""estimated_time": 1.0"#);
    assert_eq!(parse_bug(&text), Err(DecodeError::Invalid("estimated_time")));
}

#[test]
fn times_take_the_whole_64_bit_range() {
    let text = bug_text(1).replace(r#""actual_time": 0"#, r#""actual_time": 9223372036854775807"#);
    assert_eq!(parse_bug(&text).unwrap().actual_time, i64::MAX);
    let text = bug_text(1).replace(r#""actual_time": 0"#, r#""actual_time": -9223372036854775808"#);
    assert_eq!(parse_bug(&text).unwrap().actual_time, i64::MIN);
    let text = bug_text(1).replace(r#""actual_time": 0"#, r#""actual_time": 9223372036854775808"#);
    assert_eq!(parse_bug(&text), Err(DecodeError::Invalid("actual_time")));
}

#[test]
fn bug_must_be_an_object() {
    assert_eq!(parse_bug("[]"), Err(DecodeError::NotAnObject));
    assert_eq!(parse_bug("null"), Err(DecodeError::NotAnObject));
}

#[test]
fn bug_from_a_server_is_well_formed() {
    assert!(parse_bug(&bug_text(123)).unwrap().is_well_formed());
}

#[test]
fn bug_with_unresolved_cc_is_not_well_formed() {
    let text = bug_text(1).replace(r#""cc": ["cyd"]"#, r#""cc": ["cyd", "dee"]"#);
    assert!(!parse_bug(&text).unwrap().is_well_formed());
}

#[test]
fn bug_without_positive_id_is_not_well_formed() {
    assert!(!parse_bug(&bug_text(0)).unwrap().is_well_formed());
    assert!(!parse_bug(&bug_text(-5)).unwrap().is_well_formed());
}

#[test]
fn bug_without_a_component_is_not_well_formed() {
    let text = bug_text(1).replace(r#""component": ["kernel"]"#, r#""component": []"#);
    assert!(!parse_bug(&text).unwrap().is_well_formed());
}

#[test]
fn response_is_read_with_its_textual_limit() {
    let response = Response::parse(&response_text(&[bug_text(1), bug_text(2)])).unwrap();
    assert_eq!(response.offset, 0);
    assert_eq!(response.limit, "20");
    assert_eq!(response.total_matches, 2);
    assert_eq!(response.bugs, vec![expected_bug(1), expected_bug(2)]);
    assert_eq!(response.extra, Vec::new());
    assert!(response.is_well_formed());
}

#[test]
fn response_with_a_numeric_limit_is_refused() {
    let text = r#"{"offset": 0, "limit": 20, "total_matches": 0, "bugs": []}"#;
    assert_eq!(Response::parse(text), Err(DecodeError::Invalid("limit")));
}

#[test]
fn response_keeps_other_members() {
    let text = r#"{"offset": 0, "limit": "0", "total_matches": 0, "bugs": [], "faults": []}"#;
    let response = Response::parse(text).unwrap();
    assert_eq!(response.extra, vec![("faults".to_string(), Json::Array(Vec::new()))]);
}

#[test]
fn response_with_a_repeated_id_is_not_well_formed() {
    let response = Response::parse(&response_text(&[bug_text(1), bug_text(2), bug_text(1)])).unwrap();
    assert!(!response.is_well_formed());
}

#[test]
fn response_reports_the_first_failing_bug() {
    let broken = bug_text(2).replace(r#""status": "NEW","#, "");
    let worse = bug_text(3).replace(r#""op_sys": "Linux","#, "");
    let text = response_text(&[bug_text(1), broken, worse]);
    assert_eq!(Response::parse(&text), Err(DecodeError::Missing("status")));
}

#[test]
fn response_body_that_is_no_json() {
    assert!(matches!(Response::parse("<html>"), Err(DecodeError::Syntax(_))));
}

#[test]
fn failure_envelope_is_read() {
    let value = Json::parse(
        r#"{"error": true, "message": "Bug #9 does not exist.", "code": 101,
            "documentation": "https://bugzilla.example.com/docs"}"#,
    )
    .unwrap();
    let failure = BugzillaError::from_json(&value).unwrap();
    assert!(failure.error);
    assert_eq!(failure.message, "Bug #9 does not exist.");
    assert_eq!(failure.code, 101);
    assert_eq!(
        failure.extra,
        vec![("documentation".to_string(), text("https://bugzilla.example.com/docs"))]
    );
}

#[test]
fn failure_envelope_is_no_list_of_bugs() {
    let text = r#"{"error": true, "message": "Bug #9 does not exist.", "code": 101}"#;
    assert_eq!(Response::parse(text), Err(DecodeError::Missing("offset")));
}

#[test]
fn fetch_one_returns_the_only_bug() {
    let reply = Ok(response_text(&[bug_text(123)]));
    assert_eq!(session().bug(reply), Ok(expected_bug(123)));
}

#[test]
fn fetch_one_returns_the_first_of_several() {
    let reply = Ok(response_text(&[bug_text(5), bug_text(6)]));
    assert_eq!(session().bug(reply), Ok(expected_bug(5)));
}

#[test]
fn fetch_one_of_no_bug_is_not_found() {
    let reply = Ok(response_text(&[]));
    assert_eq!(session().bug(reply), Err(QueryError::NotFound));
}

#[test]
fn fetch_many_returns_a_partial_list() {
    let reply = Ok(response_text(&[bug_text(1), bug_text(3)]));
    assert_eq!(session().bugs(reply), Ok(vec![expected_bug(1), expected_bug(3)]));
}

#[test]
fn fetch_many_returns_an_empty_list() {
    let reply = Ok(response_text(&[]));
    assert_eq!(session().bugs(reply), Ok(Vec::new()));
}

#[test]
fn transport_failure_is_handed_on() {
    let reply = Err("HTTP status 404: not here".to_string());
    assert_eq!(
        session().bugs(reply.clone()),
        Err(QueryError::Transport("HTTP status 404: not here".to_string()))
    );
    assert_eq!(
        session().bug(reply),
        Err(QueryError::Transport("HTTP status 404: not here".to_string()))
    );
}

#[test]
fn reply_off_schema_is_a_deserialization_failure() {
    let reply = Ok(r#"{"offset": 0, "limit": "20", "bugs": []}"#.to_string());
    assert_eq!(
        session().bugs(reply.clone()),
        Err(QueryError::Deserialize(DecodeError::Missing("total_matches")))
    );
    assert_eq!(
        session().bug(reply),
        Err(QueryError::Deserialize(DecodeError::Missing("total_matches")))
    );
}

#[test]
fn reply_that_is_no_json_is_a_deserialization_failure() {
    let reply = Ok("not json".to_string());
    assert_eq!(
        session().bugs(reply),
        Err(QueryError::Deserialize(DecodeError::Syntax(
            "expected ident at line 1 column 2".to_string()
        )))
    );
}

#[test]
fn first_bug_of_a_list() {
    assert_eq!(first_bug(Vec::new()), Err(QueryError::NotFound));
    assert_eq!(first_bug(vec![expected_bug(9)]), Ok(expected_bug(9)));
    assert_eq!(first_bug(vec![expected_bug(9), expected_bug(8), expected_bug(7)]), Ok(expected_bug(9)));
}

#[test]
fn failures_in_words() {
    assert_eq!(DecodeError::NotAnObject.describe(), "expected an object");
    assert_eq!(DecodeError::Missing("id").describe(), "missing field `id`");
    assert_eq!(DecodeError::Invalid("cc").describe(), "invalid value for field `cc`");
    assert_eq!(DecodeError::Syntax("expected value".to_string()).describe(), "expected value");
    assert_eq!(QueryError::NotFound.describe(), "no bug found");
    assert_eq!(QueryError::Transport("timed out".to_string()).describe(), "timed out");
    assert_eq!(
        QueryError::Deserialize(DecodeError::Missing("bugs")).describe(),
        "deserialization failed: missing field `bugs`"
    );
}
