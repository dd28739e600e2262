//! The guest macro's routes: the parameters of a route path, the options of
//! a route, and the shape of the handler generated for it.

use vstd::prelude::*;

verus! {

pub open spec fn is_ident_start(c: char) -> bool {
    ('A' <= c && c <= 'Z') || ('a' <= c && c <= 'z') || c == '_'
}

pub open spec fn is_ident_char(c: char) -> bool {
    is_ident_start(c) || ('0' <= c && c <= '9')
}

/// The end of the run of identifier characters that starts at `k`.
pub open spec fn ident_end(s: Seq<char>, k: int) -> int
    decreases s.len() - k,
{
    if k < 0 || k >= s.len() || !is_ident_char(s[k]) {
        k
    } else {
        ident_end(s, k + 1)
    }
}

pub proof fn lemma_ident_end_ge(s: Seq<char>, k: int)
    ensures
        ident_end(s, k) >= k,
    decreases s.len() - k,
{
    if !(k < 0 || k >= s.len() || !is_ident_char(s[k])) {
        lemma_ident_end_ge(s, k + 1);
    }
}

/// `{ident}` starts at `i`: a brace, an identifier (a letter or `_`, then
/// letters, digits and `_`), and a closing brace right after it.
pub open spec fn param_at(s: Seq<char>, i: int) -> bool {
    &&& 0 <= i
    &&& i + 1 < s.len()
    &&& s[i] == '{'
    &&& is_ident_start(s[i + 1])
    &&& ident_end(s, i + 2) < s.len()
    &&& s[ident_end(s, i + 2)] == '}'
}

/// The identifiers of the successive non-overlapping `{ident}` occurrences
/// in `s` from position `i` on, leftmost first: what the pattern
/// `\{([A-Za-z_][A-Za-z0-9_]*)\}` captures.
pub open spec fn params_from(s: Seq<char>, i: int) -> Seq<Seq<char>>
    decreases s.len() - i,
{
    if i < 0 || i >= s.len() {
        seq![]
    } else if param_at(s, i) {
        proof {
            lemma_ident_end_ge(s, i + 2);
        }
        seq![s.subrange(i + 1, ident_end(s, i + 2))] + params_from(s, ident_end(s, i + 2) + 1)
    } else {
        params_from(s, i + 1)
    }
}

pub open spec fn string_views(v: Seq<String>) -> Seq<Seq<char>> {
    v.map_values(|s: String| s@)
}

/// The pattern of a route parameter placeholder: a braced identifier.
pub const PARAM_PATTERN: &'static str = "\\{([A-Za-z_][A-Za-z0-9_]*)\\}";

/// Collects capture group 1 of every match of `pattern` in `path`, by
/// `regex::Regex::captures_iter`. For `PARAM_PATTERN` the regex crate's
/// leftmost-first, non-overlapping search yields exactly `params_from(path, 0)`:
/// the pattern has no alternation, and `}` is not an identifier character, so
/// whether a match starts at a position is decided by the longest identifier
/// run after the brace.
#[verifier::external_body]
fn capture_params(pattern: &str, path: &str) -> (params: Vec<String>)
    requires
        pattern@ == PARAM_PATTERN@,
    ensures
        string_views(params@) == params_from(path@, 0),
{
    let regex = regex::Regex::new(pattern).expect("should compile");
    regex.captures_iter(path).map(|caps| caps.extract::<1>().1[0].to_owned()).collect()
}

/// The names of the `{param}` placeholders of a route path, in order.
pub fn extract_params(path: &str) -> (params: Vec<String>)
    ensures
        string_views(params@) == params_from(path@, 0),
{
    capture_params(PARAM_PATTERN, path)
}

/// `w` is an identifier.
pub open spec fn is_ident(w: Seq<char>) -> bool {
    &&& w.len() > 0
    &&& is_ident_start(w[0])
    &&& forall|k: int| 1 <= k < w.len() ==> is_ident_char(#[trigger] w[k])
}

proof fn lemma_ident_end(s: Seq<char>, k: int)
    requires
        0 <= k <= s.len(),
    ensures
        k <= ident_end(s, k) <= s.len(),
        forall|j: int| k <= j < ident_end(s, k) ==> is_ident_char(#[trigger] s[j]),
    decreases s.len() - k,
{
    if k < s.len() && is_ident_char(s[k]) {
        lemma_ident_end(s, k + 1);
    }
}

/// Every extracted parameter is an identifier that the path spells inside
/// braces.
pub proof fn params_are_identifiers(s: Seq<char>, i: int)
    requires
        0 <= i,
    ensures
        forall|k: int|
            0 <= k < params_from(s, i).len() ==> is_ident(#[trigger] params_from(s, i)[k]),
    decreases s.len() - i,
{
    if i < s.len() {
        if param_at(s, i) {
            let e = ident_end(s, i + 2);
            lemma_ident_end(s, i + 2);
            params_are_identifiers(s, e + 1);
            let w = s.subrange(i + 1, e);
            assert(is_ident(w)) by {
                assert forall|k: int| 1 <= k < w.len() implies is_ident_char(#[trigger] w[k]) by {
                    assert(w[k] == s[i + 1 + k]);
                }
            }
            let rest = params_from(s, e + 1);
            assert(params_from(s, i) == seq![w] + rest);
            assert forall|k: int| 0 <= k < params_from(s, i).len() implies is_ident(
                #[trigger] params_from(s, i)[k],
            ) by {
                if k > 0 {
                    assert(params_from(s, i)[k] == rest[k - 1]);
                } else {
                    assert(params_from(s, i)[k] == w);
                }
            }
        } else {
            params_are_identifiers(s, i + 1);
            assert(params_from(s, i) == params_from(s, i + 1));
        }
    }
}

/// One option of a route, in the order written.
#[derive(Clone, Copy, Debug, PartialEq, Eq, Structural)]
pub enum RouteOpt {
    /// `get(Request, Reply)` or `post(Request, Reply)`.
    Handler,
    /// `query`: the handler takes the raw query string.
    Query,
    /// `body`: the handler takes the request body.
    Body,
}

/// Why a route's options are refused, with the position of the offending
/// option.
#[derive(Clone, Copy, Debug, PartialEq, Eq, Structural)]
pub enum RouteOptError {
    SecondHandler(usize),
    QueryTwice(usize),
    BodyTwice(usize),
    MissingMethod,
}

impl RouteOptError {
    /// The message the macro reports.
    pub fn message(&self) -> (m: &'static str)
        ensures
            m@ == match self {
                RouteOptError::SecondHandler(_) => "cannot specify second handler"@,
                RouteOptError::QueryTwice(_) => "query is specified more than once"@,
                RouteOptError::BodyTwice(_) => "body is specified more than once"@,
                RouteOptError::MissingMethod => "route is missing `method`"@,
            },
    {
        match self {
            RouteOptError::SecondHandler(_) => "cannot specify second handler",
            RouteOptError::QueryTwice(_) => "query is specified more than once",
            RouteOptError::BodyTwice(_) => "body is specified more than once",
            RouteOptError::MissingMethod => "route is missing `method`",
        }
    }
}

/// What a route's options settle: the position of its handler, and whether it
/// takes the query and the body.
#[derive(Clone, Copy, Debug, PartialEq, Eq, Structural)]
pub struct RouteFlags {
    pub handler: usize,
    pub query: bool,
    pub body: bool,
}

/// Option `i` repeats an earlier one.
pub open spec fn repeats(opts: Seq<RouteOpt>, i: int) -> bool {
    0 <= i < opts.len() && exists|j: int| 0 <= j < i && opts[j] == opts[i]
}

/// Option `i` is the first repetition.
pub open spec fn first_repeat(opts: Seq<RouteOpt>, i: int) -> bool {
    repeats(opts, i) && forall|j: int| 0 <= j < i ==> !#[trigger] repeats(opts, j)
}

pub open spec fn repeat_error(opt: RouteOpt, i: int) -> RouteOptError {
    match opt {
        RouteOpt::Handler => RouteOptError::SecondHandler(i as usize),
        RouteOpt::Query => RouteOptError::QueryTwice(i as usize),
        RouteOpt::Body => RouteOptError::BodyTwice(i as usize),
    }
}

/// Settles a route's options, read in order: the first option given twice is
/// refused; a route without a handler is refused; otherwise the handler's
/// position and the `query` and `body` flags.
pub fn combine_route_options(opts: &Vec<RouteOpt>) -> (res: Result<RouteFlags, RouteOptError>)
    ensures
        match res {
            Err(RouteOptError::MissingMethod) => (forall|i: int| !#[trigger] repeats(opts@, i))
                && !opts@.contains(RouteOpt::Handler),
            Err(e) => exists|i: int| first_repeat(opts@, i) && e == repeat_error(opts@[i], i),
            Ok(flags) => (forall|i: int| !#[trigger] repeats(opts@, i)) && flags.handler
                < opts@.len() && opts@[flags.handler as int] == RouteOpt::Handler && flags.query
                == opts@.contains(RouteOpt::Query) && flags.body == opts@.contains(
                RouteOpt::Body,
            ),
        },
{
    let mut handler: Option<usize> = None;
    let mut query = false;
    let mut body = false;
    let n = opts.len();
    let mut i: usize = 0;
    while i < n
        invariant
            n == opts@.len(),
            i <= n,
            forall|j: int| 0 <= j < i ==> !#[trigger] repeats(opts@, j),
            match handler {
                Some(h) => h < i && opts@[h as int] == RouteOpt::Handler,
                None => forall|j: int| 0 <= j < i ==> opts@[j] != RouteOpt::Handler,
            },
            query == (exists|j: int| 0 <= j < i && opts@[j] == RouteOpt::Query),
            body == (exists|j: int| 0 <= j < i && opts@[j] == RouteOpt::Body),
        decreases n - i,
    {
        let opt = opts[i];
        match opt {
            RouteOpt::Handler => {
                if let Some(h) = handler {
                    assert(repeats(opts@, i as int));
                    assert(first_repeat(opts@, i as int));
                    return Err(RouteOptError::SecondHandler(i));
                }
                handler = Some(i);
            },
            RouteOpt::Query => {
                if query {
                    assert(repeats(opts@, i as int));
                    assert(first_repeat(opts@, i as int));
                    return Err(RouteOptError::QueryTwice(i));
                }
                query = true;
            },
            RouteOpt::Body => {
                if body {
                    assert(repeats(opts@, i as int));
                    assert(first_repeat(opts@, i as int));
                    return Err(RouteOptError::BodyTwice(i));
                }
                body = true;
            },
        }
        proof {
            assert(!repeats(opts@, i as int)) by {
                if repeats(opts@, i as int) {
                    let j = choose|j: int| 0 <= j < i && opts@[j] == opts@[i as int];
                    assert(opts@[j] == opt);
                }
            }
        }
        i += 1;
    }
    proof {
        assert forall|k: int| !#[trigger] repeats(opts@, k) by {
            if 0 <= k < n {
            }
        }
    }
    match handler {
        None => {
            proof {
                if opts@.contains(RouteOpt::Handler) {
                    let j = choose|j: int| 0 <= j < opts@.len() && opts@[j] == RouteOpt::Handler;
                }
            }
            Err(RouteOptError::MissingMethod)
        },
        Some(h) => {
            proof {
                if query {
                    let j = choose|j: int| 0 <= j < n && opts@[j] == RouteOpt::Query;
                    assert(opts@.contains(RouteOpt::Query));
                }
                if body {
                    let j = choose|j: int| 0 <= j < n && opts@[j] == RouteOpt::Body;
                    assert(opts@.contains(RouteOpt::Body));
                }
            }
            Ok(RouteFlags { handler: h, query, body })
        },
    }
}

/// What a generated handler takes and hands on to the request type.
#[derive(Clone, Copy, Debug, PartialEq, Eq, Structural)]
pub enum HandlerShape {
    /// Takes nothing; hands on `()`.
    Unit,
    /// Takes the raw query; hands it on.
    RawQuery,
    /// Takes the one path parameter; hands it on.
    OnePathParam,
    /// Takes this many path parameters as a tuple; hands the tuple on.
    PathParams(usize),
    /// Takes the request body; hands on its bytes.
    Body,
}

/// The shape of the handler generated for a route: a `get` route takes its
/// path parameters (one alone, several as a tuple) or, with none, the raw
/// query when it asked for it; any other method takes the body when it
/// asked for it; otherwise nothing.
pub open spec fn handler_shape_spec(is_get: bool, n_params: usize, query: bool, body: bool) -> HandlerShape {
    if is_get {
        if n_params == 0 {
            if query {
                HandlerShape::RawQuery
            } else {
                HandlerShape::Unit
            }
        } else if n_params == 1 {
            HandlerShape::OnePathParam
        } else {
            HandlerShape::PathParams(n_params)
        }
    } else if body {
        HandlerShape::Body
    } else {
        HandlerShape::Unit
    }
}

/// The shape of the handler generated for a route.
pub fn handler_shape(is_get: bool, n_params: usize, query: bool, body: bool) -> (shape: HandlerShape)
    ensures
        shape == handler_shape_spec(is_get, n_params, query, body),
{
    if is_get {
        if n_params == 0 {
            if query {
                HandlerShape::RawQuery
            } else {
                HandlerShape::Unit
            }
        } else if n_params == 1 {
            HandlerShape::OnePathParam
        } else {
            HandlerShape::PathParams(n_params)
        }
    } else if body {
        HandlerShape::Body
    } else {
        HandlerShape::Unit
    }
}

/// A `get` route takes all its path parameters: with two or more, the
/// handler takes a tuple whose arity is the number of parameters; with one,
/// the parameter alone; with none, the raw query exactly when it asked for
/// it. Another method takes the body exactly when it asked for it.
pub proof fn handler_takes_every_parameter(n_params: usize, query: bool, body: bool)
    ensures
        n_params >= 2 ==> handler_shape_spec(true, n_params, query, body) == HandlerShape::PathParams(
            n_params,
        ),
        n_params == 1 ==> handler_shape_spec(true, n_params, query, body)
            == HandlerShape::OnePathParam,
        n_params == 0 ==> (handler_shape_spec(true, n_params, query, body) == HandlerShape::RawQuery
            <==> query),
        (handler_shape_spec(false, n_params, query, body) == HandlerShape::Body) <==> body,
        !body ==> handler_shape_spec(false, n_params, query, body) == HandlerShape::Unit,
{
}

} // verus!
