//! Decisions the HTTP layer makes on plain request values: the API key
//! guard, the acting user, the request URL handed to the router, and the
//! document box search pattern.
use vstd::prelude::*;
use crate::error::InvalidUserId;
use crate::tenant::HeaderText;

verus! {

/// Guards requests with the service's API key.
#[derive(Debug)]
pub struct ApiKeyLayer {
    key: String,
}

/// A service wrapped by the API key guard.
#[derive(Debug)]
pub struct ApiKeyMiddleware<S> {
    inner: S,
    key: String,
}

/// What the API key guard decides for a request.
#[derive(Debug, PartialEq, Eq, Structural)]
pub enum ApiKeyDecision {
    /// Pass the request on to the wrapped service.
    Forward,
    /// The key header is missing.
    MissingKey,
    /// The key header holds another key, or is not text.
    WrongKey,
}

impl ApiKeyDecision {
    /// The unauthorised response's message, for a refusal.
    pub fn message(&self) -> (r: Option<&'static str>)
        ensures
            *self == ApiKeyDecision::Forward <==> r is None,
            *self == ApiKeyDecision::MissingKey ==> (r matches Some(m) && m@
                == "Missing x-docbox-api-key"@),
            *self == ApiKeyDecision::WrongKey ==> (r matches Some(m) && m@
                == "Missing or invalid x-docbox-api-key"@),
    {
        match self {
            ApiKeyDecision::Forward => None,
            ApiKeyDecision::MissingKey => Some("Missing x-docbox-api-key"),
            ApiKeyDecision::WrongKey => Some("Missing or invalid x-docbox-api-key"),
        }
    }
}

/// The API key guard: only a text header equal to the key is let through;
/// a missing header is refused as missing, any other as wrong.
pub open spec fn api_key_decision(key: Seq<char>, header: HeaderText) -> ApiKeyDecision {
    match header {
        HeaderText::Absent => ApiKeyDecision::MissingKey,
        HeaderText::Invalid => ApiKeyDecision::WrongKey,
        HeaderText::Text(v) => if v@ == key {
            ApiKeyDecision::Forward
        } else {
            ApiKeyDecision::WrongKey
        },
    }
}

impl ApiKeyLayer {
    pub closed spec fn key_view(&self) -> Seq<char> {
        self.key@
    }

    /// A guard for `key`.
    pub fn new(key: String) -> (r: Self)
        ensures
            r.key_view() == key@,
    {
        Self { key }
    }

    /// Wraps `inner` in the guard.
    pub fn layer<S>(&self, inner: S) -> (r: ApiKeyMiddleware<S>)
        ensures
            r.inner_view() == inner,
            r.key_view() == self.key_view(),
    {
        ApiKeyMiddleware { inner, key: self.key.clone() }
    }
}

impl<S> ApiKeyMiddleware<S> {
    pub closed spec fn key_view(&self) -> Seq<char> {
        self.key@
    }

    pub closed spec fn inner_view(&self) -> S {
        self.inner
    }

    /// The wrapped service.
    pub fn inner(&self) -> (r: &S)
        ensures
            *r == self.inner_view(),
    {
        &self.inner
    }

    /// The decision for a request whose key header is `header`.
    pub fn check(&self, header: &HeaderText) -> (r: ApiKeyDecision)
        ensures
            r == api_key_decision(self.key_view(), *header),
            r == ApiKeyDecision::Forward <==> (header matches HeaderText::Text(v) && v@
                == self.key_view()),
    {
        match header {
            HeaderText::Absent => ApiKeyDecision::MissingKey,
            HeaderText::Invalid => ApiKeyDecision::WrongKey,
            HeaderText::Text(v) => if *v == self.key {
                ApiKeyDecision::Forward
            } else {
                ApiKeyDecision::WrongKey
            },
        }
    }
}

/// The user a request acts for.
#[derive(Debug)]
pub struct ActionUserData {
    pub id: String,
    pub name: Option<String>,
    pub image_id: Option<String>,
}

/// The user a request acts for, if it acts for one.
#[derive(Debug)]
pub struct ActionUser(pub Option<ActionUserData>);

/// The text of an optional header, when it is text.
pub open spec fn optional_text(h: HeaderText) -> Option<Seq<char>> {
    match h {
        HeaderText::Text(v) => Some(v@),
        _ => None,
    }
}

pub open spec fn user_text(o: Option<String>) -> Option<Seq<char>> {
    match o {
        Some(v) => Some(v@),
        None => None,
    }
}

fn text_of(h: &HeaderText) -> (r: Option<String>)
    ensures
        user_text(r) == optional_text(*h),
{
    match h {
        HeaderText::Text(v) => Some(v.clone()),
        _ => None,
    }
}

impl ActionUser {
    /// The acting user named by the user headers: none without an
    /// identifier, an error for an identifier that is not text; a name or
    /// image that is not text is left out.
    pub fn from_headers(id: &HeaderText, name: &HeaderText, image_id: &HeaderText) -> (r: Result<
        ActionUser,
        InvalidUserId,
    >)
        ensures
            *id is Absent ==> (r matches Ok(u) && u.0 is None),
            *id is Invalid ==> r is Err,
            id matches HeaderText::Text(v) ==> (r matches Ok(u) && u.0 matches Some(d) && d.id@ == v@
                && user_text(d.name) == optional_text(*name) && user_text(d.image_id) == optional_text(
                *image_id,
            )),
    {
        match id {
            HeaderText::Absent => Ok(ActionUser(None)),
            HeaderText::Invalid => Err(InvalidUserId),
            HeaderText::Text(v) => Ok(
                ActionUser(
                    Some(ActionUserData { id: v.clone(), name: text_of(name), image_id: text_of(image_id) }),
                ),
            ),
        }
    }
}

/// The URL the router sees for a request: the raw path, behind the scheme
/// (`https` by default) and host when there is a host, then the query.
pub open spec fn request_url_spec(
    scheme: Option<Seq<char>>,
    host: Option<Seq<char>>,
    raw_path: Seq<char>,
    query: Option<Seq<char>>,
) -> Seq<char> {
    let scheme_text = match scheme {
        Some(s) => s,
        None => "https"@,
    };
    let base = match host {
        None => raw_path,
        Some(h) => scheme_text + "://"@ + h + raw_path,
    };
    match query {
        Some(q) => base + "?"@ + q,
        None => base,
    }
}

pub open spec fn opt_str_view(o: Option<&str>) -> Option<Seq<char>> {
    match o {
        Some(s) => Some(s@),
        None => None,
    }
}

/// Adapts the serverless HTTP events to the router: the router sees each
/// request under the URL that [`request_url`] builds.
#[derive(Debug)]
pub struct LambdaService<S> {
    pub inner: S,
}

/// Builds the URL the router sees for a request.
pub fn request_url(scheme: Option<&str>, host: Option<&str>, raw_path: &str, query: Option<&str>) -> (r:
    String)
    ensures
        r@ == request_url_spec(opt_str_view(scheme), opt_str_view(host), raw_path@, opt_str_view(query)),
{
    let mut url = String::new();
    match host {
        None => url.push_str(raw_path),
        Some(h) => {
            match scheme {
                Some(s) => url.push_str(s),
                None => url.push_str("https"),
            }
            url.push_str("://");
            url.push_str(h);
            url.push_str(raw_path);
        },
    }
    let ghost base = url@;
    match query {
        Some(q) => {
            url.push('?');
            url.push_str(q);
            assert(base.push('?') + q@ =~= base + "?"@ + q@) by {
                reveal_strlit("?");
            }
        },
        None => {},
    }
    proof {
        let e: Seq<char> = Seq::empty();
        assert(e + raw_path@ =~= raw_path@);
    }
    url
}

/// A search query turned into a database pattern: `*` becomes the wildcard
/// `%`, `_` is escaped, and a query without a wildcard matches as a prefix.
pub open spec fn escape_query(q: Seq<char>) -> Seq<char>
    decreases q.len(),
{
    if q.len() == 0 {
        Seq::empty()
    } else {
        let c = q.last();
        let piece = if c == '*' {
            seq!['%']
        } else if c == '_' {
            seq!['\\', '_']
        } else {
            seq![c]
        };
        escape_query(q.drop_last()) + piece
    }
}

pub open spec fn has_wildcard(q: Seq<char>) -> bool {
    exists|i: int| 0 <= i < q.len() && (q[i] == '*' || q[i] == '%')
}

pub open spec fn search_pattern(q: Seq<char>) -> Seq<char> {
    if has_wildcard(q) {
        escape_query(q)
    } else {
        escape_query(q).push('%')
    }
}

/// Turns a document box search query into its database pattern.
pub fn to_search_pattern(query: &str) -> (r: String)
    ensures
        r@ == search_pattern(query@),
{
    broadcast use vstd::string::group_string_axioms;

    let mut out = String::new();
    let mut wildcard = false;
    for c in it: query.chars()
        invariant
            it.seq() == query@,
            out@ == escape_query(query@.subrange(0, it.index())),
            wildcard == has_wildcard(query@.subrange(0, it.index())),
    {
        let ghost i = it.index();
        proof {
            assert(query@.subrange(0, i + 1).drop_last() =~= query@.subrange(0, i));
            assert(query@.subrange(0, i + 1).last() == c);
        }
        if c == '*' {
            out.push('%');
            wildcard = true;
        } else if c == '_' {
            out.push('\\');
            out.push('_');
        } else {
            if c == '%' {
                wildcard = true;
            }
            out.push(c);
        }
        proof {
            let pre = query@.subrange(0, i);
            let cur = query@.subrange(0, i + 1);
            assert(out@ =~= escape_query(cur));
            if has_wildcard(cur) && !has_wildcard(pre) {
                let k = choose|k: int| 0 <= k < cur.len() && (cur[k] == '*' || cur[k] == '%');
                if k < i {
                    assert(pre[k] == cur[k]);
                }
            }
            if has_wildcard(pre) {
                let k = choose|k: int| 0 <= k < pre.len() && (pre[k] == '*' || pre[k] == '%');
                assert(cur[k] == pre[k]);
            }
        }
    }
    assert(query@.subrange(0, query@.len() as int) =~= query@);
    if !wildcard {
        out.push('%');
    }
    out
}

/// Listing of a tenant's document boxes.
#[derive(Debug)]
pub struct TenantDocumentBoxesRequest {
    /// Optional query to search document boxes by.
    pub query: Option<String>,
    /// Number of items to include in the response.
    pub size: Option<u16>,
    /// Offset to start results from.
    pub offset: Option<u64>,
}

/// How a listing reads the database.
#[derive(Debug)]
pub struct DocumentBoxQuery {
    /// Pattern to match scopes against; `None` lists every box.
    pub pattern: Option<String>,
    pub offset: u64,
    pub limit: u64,
}

impl TenantDocumentBoxesRequest {
    /// The database query for this listing: a non-empty query becomes a
    /// pattern; the offset defaults to 0 and the size to 100.
    pub fn to_query(&self) -> (r: DocumentBoxQuery)
        ensures
            r.offset == (match self.offset {
                Some(o) => o,
                None => 0,
            }),
            r.limit == (match self.size {
                Some(s) => s as u64,
                None => 100,
            }),
            self.query matches Some(q) ==> (q@.len() > 0 ==> (r.pattern matches Some(p) && p@
                == search_pattern(q@))),
            self.query matches Some(q) ==> (q@.len() == 0 ==> r.pattern is None),
            self.query is None ==> r.pattern is None,
    {
        let offset = match self.offset {
            Some(o) => o,
            None => 0,
        };
        let limit: u64 = match self.size {
            Some(s) => s as u64,
            None => 100,
        };
        let pattern = match &self.query {
            Some(q) => if q.as_str().is_empty() {
                None
            } else {
                Some(to_search_pattern(q.as_str()))
            },
            None => None,
        };
        DocumentBoxQuery { pattern, offset, limit }
    }
}

} // verus!
