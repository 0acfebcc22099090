//! The session: where the Bugzilla instance is, how to authenticate, how
//! many bugs to ask for and which of their fields, and the query that
//! follows from these.

use vstd::prelude::*;
use vstd::string::*;

use crate::bug_model::{decoded_response, Bug, Response};
use crate::error::{DecodeError, QueryError};
use crate::json::document_of;
use crate::text::{decimal, decimal_string, join, join_strings, join_strs};

verus! {

/// Configuration and credentials to access a Bugzilla instance.
pub struct BzInstance {
    pub host: String,
    pub auth: Auth,
    pub pagination: Pagination,
    pub included_fields: Vec<String>,
}

/// The authentication method used when contacting Bugzilla.
#[derive(Debug, PartialEq, Eq)]
pub enum Auth {
    Anonymous,
    ApiKey(String),
}

/// The upper limit on how many bugs a reply can hold.
///
/// * `Default`: the instance's own setting, an arbitrary limit.
/// * `Limit`: this upper limit instead.
/// * `Unlimited`: a limit of 0, which disables the limit and returns
///   all matching bugs.
#[derive(Debug, PartialEq, Eq)]
pub enum Pagination {
    Default,
    Limit(u32),
    Unlimited,
}

impl Default for Auth {
    fn default() -> (auth: Auth)
        ensures
            auth == Auth::Anonymous,
    {
        Auth::Anonymous
    }
}

impl Default for Pagination {
    fn default() -> (pagination: Pagination)
        ensures
            pagination == Pagination::Default,
    {
        Pagination::Default
    }
}

/// The query fragment that asks for the given fields: nothing for an
/// empty list, which leaves the choice to the server.
pub open spec fn fields_query(fields: Seq<Seq<char>>) -> Seq<char> {
    if fields.len() == 0 {
        Seq::empty()
    } else {
        "&include_fields="@ + join(fields, ","@)
    }
}

/// The path and query of the request for the bugs with the given IDs:
/// the IDs, then the fields fragment, then the pagination fragment.
pub open spec fn query_path(ids: Seq<Seq<char>>, fields: Seq<char>, pagination: Seq<char>) -> Seq<
    char,
> {
    "rest/bug?id="@ + join(ids, ","@) + fields + pagination
}

/// The path of a request names the IDs after `id=`, joined by commas in
/// the order given, before anything else of the query.
pub proof fn lemma_path_names_the_ids(ids: Seq<Seq<char>>, fields: Seq<char>, pagination: Seq<char>)
    ensures
        query_path(ids, fields, pagination) == "rest/bug?"@ + ("id="@ + join(ids, ","@)) + (fields
            + pagination),
{
    reveal_strlit("rest/bug?id=");
    reveal_strlit("rest/bug?");
    reveal_strlit("id=");
    assert("rest/bug?id="@ =~= "rest/bug?"@ + "id="@);
    assert(query_path(ids, fields, pagination) =~= "rest/bug?"@ + ("id="@ + join(ids, ","@))
        + (fields + pagination));
}

/// With an empty list of fields the path holds no fields fragment: the
/// IDs are followed by the pagination fragment at once.
pub proof fn lemma_path_without_fields(session: BzInstance, ids: Seq<Seq<char>>)
    requires
        session.included_fields@.len() == 0,
    ensures
        session.path_for(ids) == "rest/bug?id="@ + join(ids, ","@) + session.pagination.query(),
{
    assert(session.included_fields.deep_view().len() == 0);
    assert(session.path_for(ids) =~= "rest/bug?id="@ + join(ids, ","@)
        + session.pagination.query());
}

/// With a list of fields that is not empty the path holds the fields
/// fragment between the IDs and the pagination fragment, and the
/// fragment names the fields joined by commas in the order given.
pub proof fn lemma_path_with_fields(session: BzInstance, ids: Seq<Seq<char>>)
    requires
        session.included_fields@.len() > 0,
    ensures
        session.path_for(ids) == "rest/bug?id="@ + join(ids, ","@) + ("&include_fields="@ + join(
            session.included_fields.deep_view(),
            ","@,
        )) + session.pagination.query(),
{
    assert(session.included_fields.deep_view().len() > 0);
}

/// No limit and a limit of 0 ask for the same.
pub proof fn lemma_unlimited_is_limit_zero()
    ensures
        Pagination::Unlimited.query() == Pagination::Limit(0).query(),
{
    reveal_strlit("&limit=");
    reveal_strlit("&limit=0");
    assert("&limit=0"@ =~= "&limit="@ + decimal(0));
}

impl Pagination {
    /// The query fragment of this variant: nothing, `&limit=` and the
    /// number, or `&limit=0`.
    pub open spec fn query(self) -> Seq<char> {
        match self {
            Pagination::Default => Seq::empty(),
            Pagination::Limit(n) => "&limit="@ + decimal(n as nat),
            Pagination::Unlimited => "&limit=0"@,
        }
    }

    /// Formats the variant as a URL query fragment, such as `&limit=20`.
    pub fn as_query(&self) -> (fragment: String)
        ensures
            fragment@ == self.query(),
    {
        match self {
            Pagination::Default => String::new(),
            Pagination::Limit(n) => {
                let mut fragment = String::from_str("&limit=");
                let number = decimal_string(*n);
                fragment.append(number.as_str());
                fragment
            },
            Pagination::Unlimited => String::from_str("&limit=0"),
        }
    }
}

/// The parameters of one request, grouped.
pub struct Request<'a> {
    pub ids: &'a [&'a str],
    pub pagination: &'a Pagination,
    pub fields: &'a str,
}

impl<'a> Request<'a> {
    /// The path and query that the request asks for.
    pub open spec fn path(self) -> Seq<char> {
        query_path(self.ids.deep_view(), self.fields@, self.pagination.query())
    }
}

impl Response {
    /// Formats the path and query of the request that a list of bugs is
    /// the reply to.
    pub fn get_path(request: Request) -> (path: String)
        ensures
            path@ == request.path(),
    {
        let mut path = String::from_str("rest/bug?id=");
        let ids = join_strs(request.ids, ",");
        path.append(ids.as_str());
        path.append(request.fields);
        let limit = request.pagination.as_query();
        path.append(limit.as_str());
        path
    }
}

/// The first of the bugs that a reply holds; `NotFound` where it holds
/// none.
pub fn first_bug(bugs: Vec<Bug>) -> (r: Result<Bug, QueryError>)
    ensures
        bugs@.len() == 0 ==> r == Err::<Bug, QueryError>(QueryError::NotFound),
        bugs@.len() > 0 ==> r == Ok::<Bug, QueryError>(bugs@[0]),
{
    let mut bugs = bugs;
    if bugs.len() == 0 {
        Err(QueryError::NotFound)
    } else {
        Ok(bugs.swap_remove(0))
    }
}

impl BzInstance {
    /// The path and query of this session's request for the given IDs.
    pub open spec fn path_for(self, ids: Seq<Seq<char>>) -> Seq<char> {
        query_path(ids, fields_query(self.included_fields.deep_view()), self.pagination.query())
    }

    /// A session for the instance at `host`, with default values for
    /// all options: anonymous, the server's page limit, and the field
    /// set `_default`.
    pub fn at(host: String) -> (session: BzInstance)
        ensures
            session.host == host,
            session.auth == Auth::Anonymous,
            session.pagination == Pagination::Default,
            session.included_fields.deep_view() == seq!["_default"@],
    {
        let mut included_fields: Vec<String> = Vec::new();
        included_fields.push(String::from_str("_default"));
        assert(included_fields.deep_view() =~= seq!["_default"@]);
        BzInstance {
            host,
            included_fields,
            auth: Auth::default(),
            pagination: Pagination::default(),
        }
    }

    /// Sets the authentication method of this session.
    pub fn authenticate(self, auth: Auth) -> (session: BzInstance)
        ensures
            session.auth == auth,
            session.host == self.host,
            session.pagination == self.pagination,
            session.included_fields == self.included_fields,
    {
        let mut session = self;
        session.auth = auth;
        session
    }

    /// Sets the pagination method of this session.
    #[must_use]
    pub fn paginate(self, pagination: Pagination) -> (session: BzInstance)
        ensures
            session.pagination == pagination,
            session.host == self.host,
            session.auth == self.auth,
            session.included_fields == self.included_fields,
    {
        let mut session = self;
        session.pagination = pagination;
        session
    }

    /// Sets the Bugzilla fields that this session requests, such as
    /// `flags`. The list replaces the earlier one: to ask for fields in
    /// addition to `_default`, name `_default` in the list.
    #[must_use]
    pub fn include_fields(self, fields: Vec<String>) -> (session: BzInstance)
        ensures
            session.included_fields == fields,
            session.host == self.host,
            session.auth == self.auth,
            session.pagination == self.pagination,
    {
        let mut session = self;
        session.included_fields = fields;
        session
    }

    /// Formats the included fields as a URL query fragment, such as
    /// `&include_fields=_default,flags`.
    #[must_use]
    pub fn fields_as_query(&self) -> (fragment: String)
        ensures
            fragment@ == fields_query(self.included_fields.deep_view()),
    {
        if self.included_fields.len() == 0 {
            String::new()
        } else {
            let mut fragment = String::from_str("&include_fields=");
            let names = join_strings(&self.included_fields, ",");
            fragment.append(names.as_str());
            fragment
        }
    }

    /// The value of the `Authorization` header that every request of
    /// this session carries: none when anonymous, else `Bearer ` and the
    /// API key.
    pub fn authorization(&self) -> (header: Option<String>)
        ensures
            match self.auth {
                Auth::Anonymous => header is None,
                Auth::ApiKey(key) => header matches Some(value) && value@ == "Bearer "@ + key@,
            },
    {
        match &self.auth {
            Auth::Anonymous => None,
            Auth::ApiKey(key) => {
                let mut value = String::from_str("Bearer ");
                value.append(key.as_str());
                Some(value)
            },
        }
    }

    /// The path and query of the request for several bugs by their IDs.
    pub fn query_path(&self, ids: &[&str]) -> (path: String)
        ensures
            path@ == self.path_for(ids.deep_view()),
    {
        let fields = self.fields_as_query();
        let request = Request { ids, pagination: &self.pagination, fields: fields.as_str() };
        Response::get_path(request)
    }

    /// The bugs that the reply to a request for several bugs holds.
    ///
    /// `reply` is the body of the reply, or the description of the
    /// failure that kept it from coming. A list that is empty or shorter
    /// than the list of IDs asked for is a success.
    pub fn bugs(&self, reply: Result<String, String>) -> (r: Result<Vec<Bug>, QueryError>)
        ensures
            match reply {
                Err(failure) => r == Err::<Vec<Bug>, QueryError>(QueryError::Transport(failure)),
                Ok(body) => match document_of(body@) {
                    None => r matches Err(QueryError::Deserialize(DecodeError::Syntax(_))),
                    Some(value) => match decoded_response(value) {
                        Err(e) => r == Err::<Vec<Bug>, QueryError>(QueryError::Deserialize(e)),
                        Ok(response) => r matches Ok(bugs) && bugs.deep_view() == response.bugs,
                    },
                },
            },
    {
        match reply {
            Err(failure) => Err(QueryError::Transport(failure)),
            Ok(body) => match Response::parse(body.as_str()) {
                Err(e) => Err(QueryError::Deserialize(e)),
                Ok(response) => Ok(response.bugs),
            },
        }
    }

    /// The bug that the reply to a request for a single bug holds: the
    /// first of its list, and `NotFound` where the list is empty.
    pub fn bug(&self, reply: Result<String, String>) -> (r: Result<Bug, QueryError>)
        ensures
            match reply {
                Err(failure) => r == Err::<Bug, QueryError>(QueryError::Transport(failure)),
                Ok(body) => match document_of(body@) {
                    None => r matches Err(QueryError::Deserialize(DecodeError::Syntax(_))),
                    Some(value) => match decoded_response(value) {
                        Err(e) => r == Err::<Bug, QueryError>(QueryError::Deserialize(e)),
                        Ok(response) => if response.bugs.len() == 0 {
                            r == Err::<Bug, QueryError>(QueryError::NotFound)
                        } else {
                            r matches Ok(bug) && bug@ == response.bugs[0]
                        },
                    },
                },
            },
    {
        match self.bugs(reply) {
            Err(e) => Err(e),
            Ok(bugs) => first_bug(bugs),
        }
    }
}

} // verus!
