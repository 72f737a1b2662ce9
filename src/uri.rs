use vstd::prelude::*;

verus! {

/// A query parameter as plain text: its key and its value.
pub type ParamText = (Seq<char>, Seq<char>);

/// Version segment of every request path.
pub open spec fn api_version_text() -> Seq<char> {
    seq!['2', '.', '5']
}

/// Scheme of every request URL.
pub open spec fn scheme_text() -> Seq<char> {
    seq!['h', 't', 't', 'p']
}

/// Host of every request URL.
pub open spec fn authority_text() -> Seq<char> {
    seq![
        'a', 'p', 'i', '.', 'o', 'p', 'e', 'n', 'w', 'e', 'a', 't', 'h', 'e', 'r', 'm', 'a', 'p',
        '.', 'o', 'r', 'g',
    ]
}

/// `key=value`.
pub open spec fn pair_text(p: ParamText) -> Seq<char> {
    p.0 + seq!['='] + p.1
}

/// The pairs joined with `&`, in order.
pub open spec fn join_pairs(ps: Seq<ParamText>) -> Seq<char>
    decreases ps.len(),
{
    if ps.len() == 0 {
        Seq::empty()
    } else if ps.len() == 1 {
        pair_text(ps[0])
    } else {
        join_pairs(ps.drop_last()) + seq!['&'] + pair_text(ps.last())
    }
}

/// `?` and the joined pairs, or nothing when there are no pairs.
pub open spec fn query_text(ps: Seq<ParamText>) -> Seq<char> {
    if ps.len() == 0 {
        Seq::empty()
    } else {
        seq!['?'] + join_pairs(ps)
    }
}

/// The path `/data/<api>/<method>`.
pub open spec fn path_text(api: Seq<char>, method: Seq<char>) -> Seq<char> {
    seq!['/', 'd', 'a', 't', 'a', '/'] + api + seq!['/'] + method
}

/// The path followed by the query.
pub open spec fn path_and_query_text(api: Seq<char>, method: Seq<char>, ps: Seq<ParamText>) -> Seq<
    char,
> {
    path_text(api, method) + query_text(ps)
}

/// `http://api.openweathermap.org` followed by the path and the query.
pub open spec fn url_text(api: Seq<char>, method: Seq<char>, ps: Seq<ParamText>) -> Seq<char> {
    scheme_text() + seq![':', '/', '/'] + authority_text() + path_and_query_text(api, method, ps)
}

/// No key occurs twice.
pub open spec fn keys_unique(ps: Seq<ParamText>) -> bool {
    forall|i: int, j: int| 0 <= i < ps.len() && 0 <= j < ps.len() && i != j ==> ps[i].0 != ps[j].0
}

/// Some parameter has key `k`.
pub open spec fn has_key(ps: Seq<ParamText>, k: Seq<char>) -> bool {
    exists|i: int| 0 <= i < ps.len() && ps[i].0 == k
}

/// Some parameter has key `k` and value `v`.
pub open spec fn has_pair(ps: Seq<ParamText>, k: Seq<char>, v: Seq<char>) -> bool {
    exists|i: int| 0 <= i < ps.len() && ps[i] == (k, v)
}

/// Index of the last parameter with key `k`, or -1.
pub open spec fn key_pos(ps: Seq<ParamText>, k: Seq<char>) -> int
    decreases ps.len(),
{
    if ps.len() == 0 {
        -1
    } else if ps.last().0 == k {
        ps.len() - 1
    } else {
        key_pos(ps.drop_last(), k)
    }
}

/// The parameters after `k` is set to `v`: an existing entry for `k` is
/// overwritten in place, otherwise the pair is appended.
pub open spec fn set_pair(ps: Seq<ParamText>, k: Seq<char>, v: Seq<char>) -> Seq<ParamText> {
    let i = key_pos(ps, k);
    if i >= 0 {
        ps.update(i, (k, v))
    } else {
        ps.push((k, v))
    }
}

/// `q` holds `key=value` as one whole `&`-separated segment.
pub open spec fn segment_in(q: Seq<char>, k: Seq<char>, v: Seq<char>) -> bool {
    exists|pre: Seq<char>, post: Seq<char>|
        q == pre + pair_text((k, v)) + post && (pre.len() == 0 || pre.last() == '&') && (
        post.len() == 0 || post[0] == '&')
}

/// `key_pos` finds the key exactly when it is present.
pub proof fn lemma_key_pos(ps: Seq<ParamText>, k: Seq<char>)
    ensures
        -1 <= key_pos(ps, k) < ps.len(),
        key_pos(ps, k) == -1 <==> !has_key(ps, k),
        key_pos(ps, k) >= 0 ==> ps[key_pos(ps, k)].0 == k,
    decreases ps.len(),
{
    if ps.len() > 0 && ps.last().0 != k {
        lemma_key_pos(ps.drop_last(), k);
        if has_key(ps, k) {
            let i = choose|i: int| 0 <= i < ps.len() && ps[i].0 == k;
            assert(ps.drop_last()[i].0 == k);
        }
        if has_key(ps.drop_last(), k) {
            let i = choose|i: int| 0 <= i < ps.len() - 1 && ps.drop_last()[i].0 == k;
            assert(ps[i].0 == k);
        }
    } else if ps.len() > 0 {
        assert(ps[ps.len() - 1].0 == k);
    }
}

/// Setting a parameter keeps the keys unique, and afterwards the parameters
/// hold exactly `k = v` for that key and every other entry as before.
pub proof fn lemma_set_pair(ps: Seq<ParamText>, k: Seq<char>, v: Seq<char>)
    requires
        keys_unique(ps),
    ensures
        keys_unique(set_pair(ps, k, v)),
        has_pair(set_pair(ps, k, v), k, v),
        forall|k2: Seq<char>| k2 != k ==> (has_key(set_pair(ps, k, v), k2) <==> has_key(ps, k2)),
        forall|k2: Seq<char>, v2: Seq<char>|
            k2 != k ==> (has_pair(set_pair(ps, k, v), k2, v2) <==> has_pair(ps, k2, v2)),
{
    lemma_key_pos(ps, k);
    let qs = set_pair(ps, k, v);
    let i = key_pos(ps, k);
    if i >= 0 {
        assert(qs[i] == (k, v));
    } else {
        assert(qs[ps.len() as int] == (k, v));
    }
    assert forall|k2: Seq<char>| k2 != k implies (has_key(qs, k2) <==> has_key(ps, k2)) by {
        if has_key(qs, k2) {
            let j = choose|j: int| 0 <= j < qs.len() && qs[j].0 == k2;
            assert(ps[j].0 == k2);
        }
        if has_key(ps, k2) {
            let j = choose|j: int| 0 <= j < ps.len() && ps[j].0 == k2;
            assert(qs[j].0 == k2);
        }
    }
    assert forall|k2: Seq<char>, v2: Seq<char>| k2 != k implies (has_pair(qs, k2, v2) <==> has_pair(
        ps,
        k2,
        v2,
    )) by {
        if has_pair(qs, k2, v2) {
            let j = choose|j: int| 0 <= j < qs.len() && qs[j] == (k2, v2);
            assert(ps[j] == (k2, v2));
        }
        if has_pair(ps, k2, v2) {
            let j = choose|j: int| 0 <= j < ps.len() && ps[j] == (k2, v2);
            assert(qs[j] == (k2, v2));
        }
    }
}


/// `join_pairs` grows by one `&`-separated segment per pair.
pub proof fn lemma_join_take(ps: Seq<ParamText>, i: int)
    requires
        1 <= i < ps.len(),
    ensures
        join_pairs(ps.take(i + 1)) == join_pairs(ps.take(i)) + seq!['&'] + pair_text(ps[i]),
{
    assert(ps.take(i + 1).drop_last() =~= ps.take(i));
}

/// Every parameter stands in the joined text as a whole segment.
pub proof fn lemma_pair_in_join(ps: Seq<ParamText>, i: int)
    requires
        0 <= i < ps.len(),
    ensures
        segment_in(join_pairs(ps), ps[i].0, ps[i].1),
    decreases ps.len(),
{
    let t = pair_text((ps[i].0, ps[i].1));
    if i == ps.len() - 1 {
        if ps.len() == 1 {
            assert(join_pairs(ps) =~= Seq::<char>::empty() + t + Seq::<char>::empty());
        } else {
            let pre = join_pairs(ps.drop_last()) + seq!['&'];
            assert(join_pairs(ps) =~= pre + t + Seq::<char>::empty());
            assert(pre.last() == '&');
        }
    } else {
        let rest = ps.drop_last();
        lemma_pair_in_join(rest, i);
        assert(rest[i] == ps[i]);
        let (pre, post) = choose|pre: Seq<char>, post: Seq<char>|
            join_pairs(rest) == pre + t + post && (pre.len() == 0 || pre.last() == '&') && (
            post.len() == 0 || post[0] == '&');
        let post2 = post + seq!['&'] + pair_text(ps.last());
        assert(join_pairs(ps) =~= pre + t + post2);
        assert(post2[0] == '&');
    }
}

/// `url` holds `key=value` as a whole parameter: right after the `?` or an
/// `&`, and followed by an `&` or by the end.
pub open spec fn param_in_url(url: Seq<char>, k: Seq<char>, v: Seq<char>) -> bool {
    exists|pre: Seq<char>, post: Seq<char>|
        url == pre + pair_text((k, v)) + post && pre.len() > 0 && (pre.last() == '?' || pre.last()
            == '&') && (post.len() == 0 || post[0] == '&')
}

/// The fixed start of every request URL: `http://api.openweathermap.org/data/2.5/`.
pub open spec fn url_base() -> Seq<char> {
    scheme_text() + seq![':', '/', '/'] + authority_text() + seq!['/', 'd', 'a', 't', 'a', '/']
        + api_version_text() + seq!['/']
}

/// Setting a key twice gives the same parameters, in the same order, as
/// setting it once to the latest value: only the latest value remains.
pub proof fn lemma_overwrite(ps: Seq<ParamText>, k: Seq<char>, v1: Seq<char>, v2: Seq<char>)
    requires
        keys_unique(ps),
    ensures
        set_pair(set_pair(ps, k, v1), k, v2) == set_pair(ps, k, v2),
{
    let qs = set_pair(ps, k, v1);
    lemma_key_pos(ps, k);
    lemma_set_pair(ps, k, v1);
    lemma_key_pos(qs, k);
    let i = key_pos(ps, k);
    let j = key_pos(qs, k);
    if i >= 0 {
        assert(qs[i].0 == k);
        assert(j == i);
    } else {
        assert(qs[ps.len() as int].0 == k);
        assert(j == ps.len());
    }
    assert(set_pair(qs, k, v2) =~= set_pair(ps, k, v2));
}

/// A key that is absent stays absent when another key is set.
pub proof fn lemma_absent_stays_absent(
    ps: Seq<ParamText>,
    absent: Seq<char>,
    k: Seq<char>,
    v: Seq<char>,
)
    requires
        keys_unique(ps),
        !has_key(ps, absent),
        k != absent,
    ensures
        !has_key(set_pair(ps, k, v), absent),
{
    lemma_set_pair(ps, k, v);
}

/// Failure to assemble a request URL: the path and query that were refused.
pub struct InvalidUri {
    pub path_and_query: String,
}

#[verifier::external_type_specification]
#[verifier::external_body]
pub struct ExUri(hyper::Uri);

#[verifier::external_type_specification]
#[verifier::external_body]
pub struct ExHttpError(hyper::http::Error);

/// Whether `hyper::Uri::builder()` accepts a URL made of these three parts.
pub uninterp spec fn uri_parts_accepted(
    scheme: Seq<char>,
    authority: Seq<char>,
    path_and_query: Seq<char>,
) -> bool;

/// Relies on hyper's `Uri::builder()` (the `http` crate's `uri::Builder`):
/// setting scheme, authority and path-and-query never panics, and whether
/// `build` succeeds depends on the three parts alone.
#[verifier::external_body]
fn uri_from_parts(scheme: &str, authority: &str, path_and_query: &str) -> (r: Result<
    hyper::Uri,
    hyper::http::Error,
>)
    ensures
        r is Ok <==> uri_parts_accepted(scheme@, authority@, path_and_query@),
{
    hyper::Uri::builder().scheme(scheme).authority(authority).path_and_query(path_and_query).build()
}

/// Accumulates the endpoint method and the query parameters of one request.
pub struct UriBuilder {
    api_ver: String,
    method: String,
    params: Vec<(String, String)>,
}

/// Implemented by every query builder: access to its URI builder.
pub trait HasBuilder: Sized {
    /// The URI builder inside `self`.
    spec fn uri(&self) -> UriBuilder;

    fn builder(&mut self) -> (r: &mut UriBuilder)
        ensures
            *r == old(self).uri(),
            final(self).uri() == *final(r),
    ;
}

impl UriBuilder {
    /// The API version segment.
    pub closed spec fn api_ver_text(&self) -> Seq<char> {
        self.api_ver@
    }

    /// The endpoint method.
    pub closed spec fn method_text(&self) -> Seq<char> {
        self.method@
    }

    /// The parameters, in the order their keys were first set.
    pub closed spec fn pairs(&self) -> Seq<ParamText> {
        self.params@.map_values(|p: (String, String)| (p.0@, p.1@))
    }

    /// API version `2.5`, and no key set twice.
    pub open spec fn wf(&self) -> bool {
        self.api_ver_text() == api_version_text() && keys_unique(self.pairs())
    }

    /// The path and query this builder emits.
    pub open spec fn spec_path_and_query(&self) -> Seq<char> {
        path_and_query_text(self.api_ver_text(), self.method_text(), self.pairs())
    }

    /// The URL this builder emits.
    pub open spec fn spec_url(&self) -> Seq<char> {
        url_text(self.api_ver_text(), self.method_text(), self.pairs())
    }

    /// Builder with API version `2.5`, no method and no parameters.
    pub fn new() -> (r: Self)
        ensures
            r.wf(),
            r.method_text() == Seq::<char>::empty(),
            r.pairs() == Seq::<ParamText>::empty(),
    {
        proof {
            reveal_strlit("2.5");
        }
        let r = UriBuilder { api_ver: String::from_str("2.5"), method: String::new(), params: Vec::new() };
        assert(r.pairs() =~= Seq::<ParamText>::empty());
        assert(r.api_ver_text() =~= api_version_text());
        r
    }

    /// Set the endpoint method.
    pub fn method(&mut self, method: &str) -> (r: &mut Self)
        ensures
            r.api_ver_text() == old(self).api_ver_text(),
            r.method_text() == method@,
            r.pairs() == old(self).pairs(),
            *final(self) == *final(r),
    {
        self.method = String::from_str(method);
        self
    }

    /// Add param to the URI, overwriting an earlier value for the same key.
    pub fn param(&mut self, key: &str, val: String) -> (r: &mut Self)
        requires
            old(self).wf(),
        ensures
            r.wf(),
            r.api_ver_text() == old(self).api_ver_text(),
            r.method_text() == old(self).method_text(),
            r.pairs() == set_pair(old(self).pairs(), key@, val@),
            *final(self) == *final(r),
    {
        let k = String::from_str(key);
        let n = self.params.len();
        let mut i: usize = 0;
        while i < n
            invariant
                n == self.params.len(),
                *self == *old(self),
                self.wf(),
                k@ == key@,
                forall|j: int| 0 <= j < i ==> self.pairs()[j].0 != key@,
            decreases n - i,
        {
            if self.params[i].0 == k {
                let ghost ps = self.pairs();
                proof {
                    lemma_key_pos(ps, key@);
                    lemma_set_pair(ps, key@, val@);
                    assert(ps[i as int].0 == key@);
                }
                self.params[i] = (k, val);
                assert(self.pairs() =~= set_pair(ps, key@, val@));
                return self;
            }
            i += 1;
        }
        let ghost ps = self.pairs();
        proof {
            lemma_key_pos(ps, key@);
            lemma_set_pair(ps, key@, val@);
        }
        self.params.push((k, val));
        assert(self.pairs() =~= set_pair(ps, key@, val@));
        self
    }

    /// The path and query of the request: `/data/<api>/<method>` and, when
    /// there are parameters, `?` and the `key=value` pairs joined with `&`.
    pub fn path_and_query(&self) -> (r: String)
        ensures
            r@ == self.spec_path_and_query(),
    {
        proof {
            reveal_strlit("/data/");
            reveal_strlit("/");
            reveal_strlit("?");
            reveal_strlit("&");
            reveal_strlit("=");
        }
        let mut s = String::from_str("/data/");
        s.append(self.api_ver.as_str());
        s.append("/");
        s.append(self.method.as_str());
        let ghost head = s@;
        assert(head =~= path_text(self.api_ver_text(), self.method_text()));
        let n = self.params.len();
        if n == 0 {
            assert(self.pairs().len() == 0);
            assert(s@ =~= self.spec_path_and_query());
            return s;
        }
        let ghost ps = self.pairs();
        s.append("?");
        s.append(self.params[0].0.as_str());
        s.append("=");
        s.append(self.params[0].1.as_str());
        assert(ps.take(1).drop_last() =~= Seq::<ParamText>::empty());
        assert(s@ =~= head + seq!['?'] + join_pairs(ps.take(1)));
        let mut i: usize = 1;
        while i < n
            invariant
                1 <= i <= n,
                n == self.params.len(),
                ps == self.pairs(),
                s@ == head + seq!['?'] + join_pairs(ps.take(i as int)),
            decreases n - i,
        {
            proof {
                reveal_strlit("&");
                reveal_strlit("=");
                lemma_join_take(ps, i as int);
            }
            assert(ps[i as int] == (self.params@[i as int].0@, self.params@[i as int].1@));
            let ghost before = s@;
            s.append("&");
            s.append(self.params[i].0.as_str());
            s.append("=");
            s.append(self.params[i].1.as_str());
            assert(s@ =~= before + seq!['&'] + pair_text(ps[i as int]));
            assert(s@ =~= head + seq!['?'] + join_pairs(ps.take(i + 1)));
            i += 1;
        }
        assert(ps.take(n as int) =~= ps);
        assert(s@ =~= self.spec_path_and_query());
        s
    }

    /// The full request URL as text.
    pub fn url(&self) -> (r: String)
        ensures
            r@ == self.spec_url(),
    {
        proof {
            reveal_strlit("http://api.openweathermap.org");
        }
        let mut s = String::from_str("http://api.openweathermap.org");
        let pq = self.path_and_query();
        s.append(pq.as_str());
        assert(s@ =~= self.spec_url());
        s
    }

    /// The request URL, with scheme `http` and host `api.openweathermap.org`.
    pub fn build(&self) -> (r: Result<hyper::Uri, InvalidUri>)
        ensures
            r is Ok <==> uri_parts_accepted(
                scheme_text(),
                authority_text(),
                self.spec_path_and_query(),
            ),
            r matches Err(e) ==> e.path_and_query@ == self.spec_path_and_query(),
    {
        proof {
            reveal_strlit("http");
            reveal_strlit("api.openweathermap.org");
        }
        let pq = self.path_and_query();
        assert("http"@ =~= scheme_text());
        assert("api.openweathermap.org"@ =~= authority_text());
        match uri_from_parts("http", "api.openweathermap.org", pq.as_str()) {
            Ok(u) => Ok(u),
            Err(_) => Err(InvalidUri { path_and_query: pq }),
        }
    }
}

/// Every URL a builder emits has scheme `http`, host
/// `api.openweathermap.org`, and a path beginning with `/data/2.5/`, followed
/// by the method and the query.
pub proof fn lemma_url_shape(b: UriBuilder)
    requires
        b.wf(),
    ensures
        b.spec_url() == url_base() + b.method_text() + query_text(b.pairs()),
        b.spec_url().take(url_base().len() as int) == url_base(),
{
    assert(b.spec_url() =~= url_base() + b.method_text() + query_text(b.pairs()));
    assert(b.spec_url().take(url_base().len() as int) =~= url_base());
}

/// The path of a builder's URL ends with its method, with no trailing
/// slash: after the method comes the query, which is empty or starts with
/// `?`.
pub proof fn lemma_path_ends_with_method(b: UriBuilder)
    ensures
        ({
            let path = path_text(b.api_ver_text(), b.method_text());
            let q = query_text(b.pairs());
            &&& b.spec_path_and_query() == path + q
            &&& path.subrange(path.len() - b.method_text().len(), path.len() as int)
                == b.method_text()
            &&& (q.len() == 0 || q[0] == '?')
        }),
{
    let path = path_text(b.api_ver_text(), b.method_text());
    assert(path.subrange(path.len() - b.method_text().len(), path.len() as int)
        =~= b.method_text());
}

/// Every parameter of a builder stands in its URL as `key=value`.
pub proof fn lemma_param_in_url(b: UriBuilder, k: Seq<char>, v: Seq<char>)
    requires
        has_pair(b.pairs(), k, v),
    ensures
        param_in_url(b.spec_url(), k, v),
{
    let ps = b.pairs();
    let i = choose|i: int| 0 <= i < ps.len() && ps[i] == (k, v);
    lemma_pair_in_join(ps, i);
    let (pre, post) = choose|pre: Seq<char>, post: Seq<char>|
        join_pairs(ps) == pre + pair_text((k, v)) + post && (pre.len() == 0 || pre.last() == '&')
            && (post.len() == 0 || post[0] == '&');
    let head = scheme_text() + seq![':', '/', '/'] + authority_text() + path_text(
        b.api_ver_text(),
        b.method_text(),
    ) + seq!['?'];
    let pre2 = head + pre;
    assert(b.spec_url() =~= pre2 + pair_text((k, v)) + post);
    if pre.len() == 0 {
        assert(pre2.last() == '?');
    } else {
        assert(pre2.last() == pre.last());
    }
}

} // verus!
