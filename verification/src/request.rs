//! The HTTP side of the API client that computes: URLs, query strings, path
//! joining and headers. Sending a request is left to the caller.

use vstd::prelude::*;

use crate::auth_config::Config;
use crate::json::{json_as_str, object_keys_unique, JsonValue};
use crate::text::{
    join_spec, join_strings, str_eq, trim_by, trim_end_by, trim_end_matches_char,
    trim_matches_char, trim_start_by, trim_start_matches_char, views,
};

verus! {

/// The API generation an endpoint belongs to.
#[derive(Debug, Clone, Copy, PartialEq, Eq, Structural)]
pub enum ApiVersion {
    V3,
    V4,
}

/// One GET request to the API: which base URL, which path and which query
/// parameters (`None`: only the API key is sent).
#[derive(Debug)]
pub struct ApiRequest {
    pub version: ApiVersion,
    pub path: String,
    pub query: Option<Vec<(String, String)>>,
}

/// The character views of a list of key/value pairs.
pub open spec fn pair_views(v: Seq<(String, String)>) -> Seq<(Seq<char>, Seq<char>)> {
    v.map_values(|p: (String, String)| (p.0@, p.1@))
}

pub open spec fn opt_pair_views(v: Option<Vec<(String, String)>>) -> Option<
    Seq<(Seq<char>, Seq<char>)>,
> {
    match v {
        Some(q) => Some(pair_views(q@)),
        None => None,
    }
}

pub open spec fn base_url_v3_text() -> Seq<char> {
    "https://financialmodelingprep.com/api/v3/"@
}

pub open spec fn base_url_v4_text() -> Seq<char> {
    "https://financialmodelingprep.com/api/v4/"@
}

/// The entries of a JSON object whose values are strings, as query pairs, in
/// the object's order.
pub open spec fn string_entries(entries: Seq<(String, JsonValue)>) -> Seq<(Seq<char>, Seq<char>)>
    decreases entries.len(),
{
    if entries.len() == 0 {
        Seq::empty()
    } else {
        let rest = string_entries(entries.drop_last());
        match entries.last().1 {
            JsonValue::String(s) => rest.push((entries.last().0@, s@)),
            _ => rest,
        }
    }
}

/// No key occurs twice among query pairs.
pub open spec fn pair_keys_unique(q: Seq<(Seq<char>, Seq<char>)>) -> bool {
    forall|i: int, j: int|
        0 <= i < q.len() && 0 <= j < q.len() && i != j ==> #[trigger] q[i].0 != #[trigger] q[j].0
}

/// Every key of the string entries is the key of an entry, and keys unique
/// among the entries stay unique among the string entries.
proof fn lemma_string_entries_keys(entries: Seq<(String, JsonValue)>)
    ensures
        forall|k: int|
            0 <= k < string_entries(entries).len() ==> exists|i: int|
                0 <= i < entries.len() && #[trigger] string_entries(entries)[k].0 == entries[i].0@,
        object_keys_unique(entries) ==> pair_keys_unique(string_entries(entries)),
    decreases entries.len(),
{
    if entries.len() > 0 {
        let init = entries.drop_last();
        lemma_string_entries_keys(init);
        let rest = string_entries(init);
        let se = string_entries(entries);
        assert forall|k: int| 0 <= k < se.len() implies exists|i: int|
            0 <= i < entries.len() && #[trigger] se[k].0 == entries[i].0@ by {
            if k < rest.len() {
                assert(se[k] == rest[k]);
                let i = choose|i: int| 0 <= i < init.len() && rest[k].0 == init[i].0@;
                assert(init[i] == entries[i]);
            } else {
                assert(se[k].0 == entries[entries.len() - 1].0@);
            }
        }
        if object_keys_unique(entries) {
            assert(object_keys_unique(init)) by {
                assert forall|i: int, j: int|
                    0 <= i < init.len() && 0 <= j < init.len() && i != j implies #[trigger] init[i].0@
                    != #[trigger] init[j].0@ by {
                    assert(init[i] == entries[i] && init[j] == entries[j]);
                }
            }
            match entries.last().1 {
                JsonValue::String(v) => {
                    assert forall|a: int, b: int|
                        0 <= a < se.len() && 0 <= b < se.len() && a != b implies #[trigger] se[a].0
                        != #[trigger] se[b].0 by {
                        if a < rest.len() && b < rest.len() {
                            assert(se[a] == rest[a] && se[b] == rest[b]);
                        } else {
                            let m = if a < rest.len() { a } else { b };
                            assert(se[m] == rest[m]);
                            let i = choose|i: int| 0 <= i < init.len() && rest[m].0 == init[i].0@;
                            assert(init[i] == entries[i]);
                            assert(entries[i].0@ != entries[entries.len() - 1].0@);
                        }
                    }
                },
                _ => {},
            }
        }
    }
}

/// The header map that a list of (name, value) pairs stands for.
pub open spec fn header_map(h: Seq<(String, String)>) -> Map<Seq<char>, Seq<char>>
    decreases h.len(),
{
    if h.len() == 0 {
        Map::empty()
    } else {
        header_map(h.drop_last()).insert(h.last().0@, h.last().1@)
    }
}

pub open spec fn keys_unique(h: Seq<(String, String)>) -> bool {
    forall|i: int, j: int| 0 <= i < h.len() && 0 <= j < h.len() && i != j ==> h[i].0@ != h[j].0@
}

proof fn lemma_header_map_update(h: Seq<(String, String)>, i: int, k: String, v: String)
    requires
        keys_unique(h),
        0 <= i < h.len(),
        h[i].0@ == k@,
    ensures
        header_map(h.update(i, (k, v))) == header_map(h).insert(k@, v@),
    decreases h.len(),
{
    let h2 = h.update(i, (k, v));
    if i == h.len() - 1 {
        assert(h2.drop_last() =~= h.drop_last());
        assert(header_map(h2) =~= header_map(h).insert(k@, v@));
    } else {
        assert(h2.drop_last() =~= h.drop_last().update(i, (k, v)));
        assert(keys_unique(h.drop_last()));
        lemma_header_map_update(h.drop_last(), i, k, v);
        assert(h.last().0@ != k@);
        assert(header_map(h2) =~= header_map(h).insert(k@, v@));
    }
}

proof fn lemma_header_map_absent(h: Seq<(String, String)>, k: Seq<char>)
    requires
        forall|j: int| 0 <= j < h.len() ==> h[j].0@ != k,
    ensures
        !header_map(h).dom().contains(k),
    decreases h.len(),
{
    if h.len() > 0 {
        lemma_header_map_absent(h.drop_last(), k);
    }
}

/// The computing half of the API client.
pub struct HTTPClient {
    headers: Vec<(String, String)>,
    base_url: String,
    base_url_v4: String,
    config: Config,
}

impl HTTPClient {
    #[verifier::type_invariant]
    spec fn inv(&self) -> bool {
        keys_unique(self.headers@)
    }

    /// The API token that every request carries.
    pub closed spec fn token(&self) -> Seq<char> {
        self.config.auth.token@
    }

    /// The base URL of an API generation.
    pub closed spec fn base_url_of(&self, version: ApiVersion) -> Seq<char> {
        match version {
            ApiVersion::V3 => self.base_url@,
            ApiVersion::V4 => self.base_url_v4@,
        }
    }

    /// The headers set so far.
    pub closed spec fn headers(&self) -> Map<Seq<char>, Seq<char>> {
        header_map(self.headers@)
    }

    /// A client for the given configuration: no headers, the v3 and v4 base
    /// URLs of the API.
    pub fn with_config(config: Config) -> (r: HTTPClient)
        ensures
            r.token() == config.auth.token@,
            r.base_url_of(ApiVersion::V3) == base_url_v3_text(),
            r.base_url_of(ApiVersion::V4) == base_url_v4_text(),
            r.headers() == Map::<Seq<char>, Seq<char>>::empty(),
    {
        HTTPClient {
            headers: Vec::new(),
            base_url: "https://financialmodelingprep.com/api/v3/".to_owned(),
            base_url_v4: "https://financialmodelingprep.com/api/v4/".to_owned(),
            config,
        }
    }

    /// The given pairs followed by `apikey` with the token.
    pub fn build_query(&self, query_params: Vec<(String, String)>) -> (r: Vec<(String, String)>)
        ensures
            pair_views(r@) == pair_views(query_params@).push(("apikey"@, self.token())),
    {
        let mut q = query_params;
        let ghost before = q@;
        q.push(("apikey".to_owned(), self.config.auth.token.clone()));
        assert(pair_views(q@) =~= pair_views(before).push(("apikey"@, self.token())));
        q
    }

    /// The string-valued members of a JSON object as query pairs; members of
    /// any other type are left out.
    pub fn build_query_from_value(&self, query_params: &JsonValue) -> (r: Vec<(String, String)>)
        requires
            query_params is Object,
        ensures
            match query_params {
                JsonValue::Object(entries) => pair_views(r@) == string_entries(entries@),
                _ => false,
            },
            query_params matches JsonValue::Object(entries) && object_keys_unique(entries@)
                ==> pair_keys_unique(pair_views(r@)),
    {
        match query_params {
            JsonValue::Object(entries) => {
                let n = entries.len();
                let mut out: Vec<(String, String)> = Vec::new();
                let mut i: usize = 0;
                while i < n
                    invariant
                        n == entries@.len(),
                        i <= n,
                        pair_views(out@) == string_entries(entries@.take(i as int)),
                    decreases n - i,
                {
                    assert(entries@.take(i + 1).drop_last() =~= entries@.take(i as int));
                    assert(entries@.take(i + 1).last() == entries@[i as int]);
                    match &entries[i].1 {
                        JsonValue::String(s) => {
                            let ghost before = out@;
                            out.push((entries[i].0.clone(), s.clone()));
                            assert(pair_views(out@) =~= pair_views(before).push(
                                (entries@[i as int].0@, s@),
                            ));
                        },
                        _ => {},
                    }
                    i = i + 1;
                }
                assert(entries@.take(n as int) =~= entries@);
                proof {
                    lemma_string_entries_keys(entries@);
                }
                out
            },
            _ => Vec::new(),
        }
    }

    /// Each part with its leading and trailing `/` removed, joined with `/`.
    pub fn join(&self, path_parts: &Vec<String>) -> (r: String)
        ensures
            r@ == join_spec(
                views(path_parts@).map_values(|p: Seq<char>| trim_by(p, |c: char| c == '/')),
                "/"@,
            ),
    {
        let n = path_parts.len();
        let mut trimmed: Vec<String> = Vec::new();
        let mut i: usize = 0;
        while i < n
            invariant
                n == path_parts@.len(),
                i <= n,
                views(trimmed@) == views(path_parts@).map_values(
                    |p: Seq<char>| trim_by(p, |c: char| c == '/'),
                ).take(i as int),
            decreases n - i,
        {
            let t = trim_matches_char(path_parts[i].as_str(), '/').to_owned();
            let ghost before = trimmed@;
            trimmed.push(t);
            assert(views(trimmed@) =~= views(before).push(t@));
            i = i + 1;
        }
        assert(views(path_parts@).map_values(|p: Seq<char>| trim_by(p, |c: char| c == '/')).take(
            n as int,
        ) =~= views(path_parts@).map_values(|p: Seq<char>| trim_by(p, |c: char| c == '/')));
        join_strings(&trimmed, "/")
    }

    /// Sets a header, replacing an earlier value of the same name.
    pub fn set_header(&mut self, key: &str, value: &str)
        ensures
            final(self).headers() == old(self).headers().insert(key@, value@),
            final(self).token() == old(self).token(),
            final(self).base_url_of(ApiVersion::V3) == old(self).base_url_of(ApiVersion::V3),
            final(self).base_url_of(ApiVersion::V4) == old(self).base_url_of(ApiVersion::V4),
    {
        proof {
            use_type_invariant(&*self);
        }
        let n = self.headers.len();
        let mut i: usize = 0;
        let ghost s0 = *self;
        assert(keys_unique(self.headers@));
        while i < n
            invariant
                *self == s0,
                *old(self) == s0,
                keys_unique(s0.headers@),
                n == self.headers@.len(),
                i <= n,
                forall|j: int| 0 <= j < i ==> self.headers@[j].0@ != key@,
            decreases n - i,
        {
            if str_eq(self.headers[i].0.as_str(), key) {
                let ghost h = self.headers@;
                let k = self.headers[i].0.clone();
                let v = value.to_owned();
                let mut headers: Vec<(String, String)> = Vec::new();
                std::mem::swap(&mut headers, &mut self.headers);
                headers.set(i, (k, v));
                proof {
                    lemma_header_map_update(h, i as int, k, v);
                    assert(headers@ == h.update(i as int, (k, v)));
                    assert forall|a: int, b: int|
                        0 <= a < headers@.len() && 0 <= b < headers@.len() && a != b implies headers@[a].0@
                        != headers@[b].0@ by {
                        assert(h[a].0@ == headers@[a].0@);
                        assert(h[b].0@ == headers@[b].0@);
                    }
                }
                self.headers = headers;
                return ;
            }
            i = i + 1;
        }
        let ghost h = self.headers@;
        let mut headers: Vec<(String, String)> = Vec::new();
                std::mem::swap(&mut headers, &mut self.headers);
        headers.push((key.to_owned(), value.to_owned()));
        proof {
            assert(headers@.drop_last() =~= h);
            assert forall|a: int, b: int|
                0 <= a < headers@.len() && 0 <= b < headers@.len() && a != b implies headers@[a].0@
                != headers@[b].0@ by {
                if a < h.len() && b < h.len() {
                    assert(h[a] == headers@[a] && h[b] == headers@[b]);
                } else if a < h.len() {
                    assert(h[a] == headers@[a]);
                } else {
                    assert(h[b] == headers@[b]);
                }
            }
        }
        self.headers = headers;
    }

    /// The URL of a request: the base URL without its trailing `/`s, a `/`,
    /// and the path without its leading `/`s.
    pub fn url(&self, version: ApiVersion, path: &str) -> (r: String)
        ensures
            r@ == trim_end_by(self.base_url_of(version), |c: char| c == '/') + "/"@
                + trim_start_by(path@, |c: char| c == '/'),
    {
        let base = match version {
            ApiVersion::V3 => &self.base_url,
            ApiVersion::V4 => &self.base_url_v4,
        };
        let mut r = trim_end_matches_char(base.as_str(), '/').to_owned();
        r.append("/");
        r.append(trim_start_matches_char(path, '/'));
        r
    }

    /// The query pairs a request sends: the given pairs, if any, then the
    /// API key.
    pub fn query_for(&self, query_params: Option<Vec<(String, String)>>) -> (r: Vec<(String, String)>)
        ensures
            pair_views(r@) == match opt_pair_views(query_params) {
                Some(q) => q,
                None => Seq::empty(),
            }.push(("apikey"@, self.token())),
    {
        match query_params {
            Some(q) => self.build_query(q),
            None => {
                let mut v: Vec<(String, String)> = Vec::new();
                v.push(("apikey".to_owned(), self.config.auth.token.clone()));
                assert(pair_views(v@) =~= Seq::<(Seq<char>, Seq<char>)>::empty().push(
                    ("apikey"@, self.token()),
                ));
                v
            },
        }
    }
}

/// The keys with a string value, paired with that value, in order.
pub open spec fn present_pairs(entries: Seq<(Seq<char>, Option<Seq<char>>)>) -> Seq<
    (Seq<char>, Seq<char>),
>
    decreases entries.len(),
{
    if entries.len() == 0 {
        Seq::empty()
    } else {
        let rest = present_pairs(entries.drop_last());
        match entries.last().1 {
            Some(v) => rest.push((entries.last().0, v)),
            None => rest,
        }
    }
}

/// A JSON member seen as a query candidate: its key and its string value, if
/// it has one.
pub open spec fn entry_view(e: (String, JsonValue)) -> (Seq<char>, Option<Seq<char>>) {
    (e.0@, json_as_str(e.1))
}

pub proof fn lemma_string_entries(entries: Seq<(String, JsonValue)>)
    ensures
        string_entries(entries) == present_pairs(entries.map_values(|e: (String, JsonValue)| entry_view(e))),
    decreases entries.len(),
{
    if entries.len() > 0 {
        lemma_string_entries(entries.drop_last());
        assert(entries.map_values(|e: (String, JsonValue)| entry_view(e)).drop_last() =~= entries.drop_last().map_values(
            |e: (String, JsonValue)| entry_view(e),
        ));
    }
}

impl HTTPClient {
    /// The query pairs of a JSON object built from `entries`: the members
    /// with string values, in order.
    pub fn query_of(&self, entries: Vec<(String, JsonValue)>) -> (r: Vec<(String, String)>)
        ensures
            pair_views(r@) == present_pairs(entries@.map_values(|e: (String, JsonValue)| entry_view(e))),
    {
        let ghost e = entries@;
        let obj = JsonValue::Object(entries);
        let r = self.build_query_from_value(&obj);
        proof {
            lemma_string_entries(e);
        }
        r
    }
}

/// The path that [`HTTPClient::join`] builds from parts.
pub open spec fn joined_path(parts: Seq<Seq<char>>) -> Seq<char> {
    join_spec(parts.map_values(|p: Seq<char>| trim_by(p, |c: char| c == '/')), "/"@)
}

/// `p` is a prefix of `s`.
pub open spec fn has_prefix(s: Seq<char>, p: Seq<char>) -> bool {
    p.len() <= s.len() && s.subrange(0, p.len() as int) == p
}

/// Joining a part without slashes at its ends to another part starts with
/// that part and a `/`.
pub proof fn lemma_joined_prefix(a: Seq<char>, s: Seq<char>)
    requires
        a.len() > 0,
        a[0] != '/',
        a.last() != '/',
    ensures
        has_prefix(joined_path(seq![a, s]), a + "/"@),
        joined_path(seq![a, s]) == a + "/"@ + trim_by(s, |c: char| c == '/'),
{
    reveal_strlit("/");
    let m = seq![a, s].map_values(|p: Seq<char>| trim_by(p, |c: char| c == '/'));
    assert(trim_start_by(a, |c: char| c == '/') == a);
    assert(trim_end_by(a, |c: char| c == '/') == a);
    assert(m[0] == a);
    assert(m.drop_last() =~= seq![a]);
    assert(join_spec(m.drop_last(), "/"@) == a);
    let j = joined_path(seq![a, s]);
    assert(j == a + "/"@ + m[1]);
    assert(j.subrange(0, (a + "/"@).len() as int) =~= a + "/"@);
}

/// Joining a part without slashes at its ends to two more parts gives that
/// part, `/`, the second part trimmed of slashes, `/` and the third part
/// trimmed of slashes; a second part without slashes at its ends is kept as
/// it is.
pub proof fn lemma_joined_prefix3(a: Seq<char>, b: Seq<char>, s: Seq<char>)
    requires
        a.len() > 0,
        a[0] != '/',
        a.last() != '/',
    ensures
        joined_path(seq![a, b, s]) == a + "/"@ + trim_by(b, |c: char| c == '/') + "/"@ + trim_by(
            s,
            |c: char| c == '/',
        ),
        b.len() > 0 && b[0] != '/' && b.last() != '/' ==> trim_by(b, |c: char| c == '/') == b,
        b.len() > 0 && b[0] != '/' && b.last() != '/' ==> has_prefix(
            joined_path(seq![a, b, s]),
            a + "/"@ + b + "/"@,
        ),
{
    reveal_strlit("/");
    let m = seq![a, b, s].map_values(|p: Seq<char>| trim_by(p, |c: char| c == '/'));
    assert(trim_start_by(a, |c: char| c == '/') == a);
    assert(trim_end_by(a, |c: char| c == '/') == a);
    if b.len() > 0 && b[0] != '/' && b.last() != '/' {
        assert(trim_start_by(b, |c: char| c == '/') == b);
        assert(trim_end_by(b, |c: char| c == '/') == b);
    }
    assert(m[0] == a);
    assert(m.drop_last().drop_last() =~= seq![a]);
    assert(join_spec(m.drop_last().drop_last(), "/"@) == a);
    assert(join_spec(m.drop_last(), "/"@) == a + "/"@ + m[1]);
    let j = joined_path(seq![a, b, s]);
    assert(j == a + "/"@ + m[1] + "/"@ + m[2]);
    if b.len() > 0 && b[0] != '/' && b.last() != '/' {
        assert(j.subrange(0, (a + "/"@ + b + "/"@).len() as int) =~= a + "/"@ + b + "/"@);
    }
}

/// `r` goes to `path` of API generation `version` with the query `query`.
pub open spec fn request_is(
    r: ApiRequest,
    version: ApiVersion,
    path: Seq<char>,
    query: Option<Seq<(Seq<char>, Seq<char>)>>,
) -> bool {
    &&& r.version == version
    &&& r.path@ == path
    &&& opt_pair_views(r.query) == query
}

/// A fetch through the cache: the key the response is stored under and the
/// request that produces it.
#[derive(Debug)]
pub struct CachedFetch {
    pub cache_key: String,
    pub request: ApiRequest,
}

impl HTTPClient {
    /// [`HTTPClient::join`] of two parts.
    pub fn join2(&self, a: &str, b: &str) -> (r: String)
        ensures
            r@ == joined_path(seq![a@, b@]),
    {
        let v = vec![a.to_owned(), b.to_owned()];
        assert(views(v@) =~= seq![a@, b@]);
        self.join(&v)
    }

    /// [`HTTPClient::join`] of three parts.
    pub fn join3(&self, a: &str, b: &str, c: &str) -> (r: String)
        ensures
            r@ == joined_path(seq![a@, b@, c@]),
    {
        let v = vec![a.to_owned(), b.to_owned(), c.to_owned()];
        assert(views(v@) =~= seq![a@, b@, c@]);
        self.join(&v)
    }
}

/// A request to a fixed path with no query.
pub fn plain_request(version: ApiVersion, path: &str) -> (r: ApiRequest)
    ensures
        request_is(r, version, path@, None),
{
    ApiRequest { version, path: path.to_owned(), query: None }
}

/// `prefix` followed by `rest`, as a new string.
pub fn concat_str(prefix: &str, rest: &str) -> (r: String)
    ensures
        r@ == prefix@ + rest@,
{
    let mut r = prefix.to_owned();
    r.append(rest);
    r
}

} // verus!
