use bugzilla_query::{Auth, BzInstance, Pagination, Request, Response};

fn session() -> BzInstance {
    BzInstance::at("https://bugzilla.example.com".to_string())
}

fn names(list: &[&str]) -> Vec<String> {
    list.iter().map(|name| name.to_string()).collect()
}

#[test]
fn new_session_has_default_options() {
    let session = session();
    assert_eq!(session.host, "https://bugzilla.example.com");
    assert_eq!(session.auth, Auth::Anonymous);
    assert_eq!(session.pagination, Pagination::Default);
    assert_eq!(session.included_fields, vec!["_default".to_string()]);
}

#[test]
fn default_variants() {
    assert_eq!(Auth::default(), Auth::Anonymous);
    assert_eq!(Pagination::default(), Pagination::Default);
}

#[test]
fn builders_change_one_option_each() {
    let session = session()
        .authenticate(Auth::ApiKey("key".to_string()))
        .paginate(Pagination::Limit(5))
        .include_fields(names(&["id", "summary"]));
    assert_eq!(session.host, "https://bugzilla.example.com");
    assert_eq!(session.auth, Auth::ApiKey("key".to_string()));
    assert_eq!(session.pagination, Pagination::Limit(5));
    assert_eq!(session.included_fields, names(&["id", "summary"]));
}

#[test]
fn include_fields_replaces_the_list() {
    let session = session().include_fields(names(&["flags"]));
    assert_eq!(session.included_fields, names(&["flags"]));
    assert_eq!(session.fields_as_query(), "&include_fields=flags");
}

#[test]
fn pagination_default_has_no_fragment() {
    assert_eq!(Pagination::Default.as_query(), "");
}

#[test]
fn pagination_limit_names_the_number() {
    assert_eq!(Pagination::Limit(20).as_query(), "&limit=20");
    assert_eq!(Pagination::Limit(1).as_query(), "&limit=1");
    assert_eq!(Pagination::Limit(4294967295).as_query(), "&limit=4294967295");
}

#[test]
fn pagination_limit_is_not_validated() {
    assert_eq!(Pagination::Limit(0).as_query(), "&limit=0");
}

#[test]
fn pagination_unlimited_is_limit_zero() {
    assert_eq!(Pagination::Unlimited.as_query(), "&limit=0");
}

#[test]
fn fields_fragment_of_the_default_list() {
    assert_eq!(session().fields_as_query(), "&include_fields=_default");
}

#[test]
fn fields_fragment_of_an_empty_list_is_empty() {
    assert_eq!(session().include_fields(Vec::new()).fields_as_query(), "");
}

#[test]
fn fields_fragment_joins_in_order() {
    let session = session().include_fields(names(&["_default", "flags", "tags"]));
    assert_eq!(session.fields_as_query(), "&include_fields=_default,flags,tags");
}

#[test]
fn anonymous_session_sends_no_authorization() {
    assert_eq!(session().authorization(), None);
}

#[test]
fn api_key_is_sent_as_bearer_token() {
    let session = session().authenticate(Auth::ApiKey("SECRET-REDACTED".to_string()));
    assert_eq!(session.authorization(), Some("Bearer SECRET-REDACTED".to_string()));
}

#[test]
fn authenticate_back_to_anonymous() {
    let session = session()
        .authenticate(Auth::ApiKey("key".to_string()))
        .authenticate(Auth::Anonymous);
    assert_eq!(session.authorization(), None);
}

#[test]
fn path_of_one_bug_without_fragments() {
    let session = session().include_fields(Vec::new());
    assert_eq!(session.query_path(&["123"]), "rest/bug?id=123");
}

#[test]
fn path_of_one_bug_in_a_new_session() {
    assert_eq!(session().query_path(&["123"]), "rest/bug?id=123&include_fields=_default");
}

#[test]
fn path_with_fields_and_limit() {
    let session = session()
        .include_fields(names(&["_default", "flags"]))
        .paginate(Pagination::Limit(10));
    assert_eq!(
        session.query_path(&["1", "2"]),
        "rest/bug?id=1,2&include_fields=_default,flags&limit=10"
    );
}

#[test]
fn path_with_limit_only() {
    let session = session().include_fields(Vec::new()).paginate(Pagination::Unlimited);
    assert_eq!(session.query_path(&["7", "8", "9"]), "rest/bug?id=7,8,9&limit=0");
}

#[test]
fn path_keeps_the_order_of_the_ids() {
    let session = session().include_fields(Vec::new());
    assert_eq!(session.query_path(&["30", "10", "20"]), "rest/bug?id=30,10,20");
}

#[test]
fn path_of_no_ids() {
    let none: [&str; 0] = [];
    let session = session().include_fields(Vec::new());
    assert_eq!(session.query_path(&none), "rest/bug?id=");
}

#[test]
fn path_does_not_depend_on_authentication() {
    let anonymous = session().query_path(&["5"]);
    let keyed = session().authenticate(Auth::ApiKey("key".to_string())).query_path(&["5"]);
    assert_eq!(anonymous, keyed);
}

#[test]
fn request_path_puts_fields_before_limit() {
    let pagination = Pagination::Limit(3);
    let request = Request { ids: &["1", "2"], pagination: &pagination, fields: "&include_fields=id" };
    assert_eq!(Response::get_path(request), "rest/bug?id=1,2&include_fields=id&limit=3");
}
