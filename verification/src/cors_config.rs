use vstd::prelude::*;

verus! {

/// The name of the header that lets browsers read the replies from another origin.
pub fn get_cors_key<'a>() -> (key: &'a str)
    ensures
        key@ == "Access-Control-Allow-Origin"@,
{
    "Access-Control-Allow-Origin"
}

/// The value of the CORS header: any origin.
pub fn get_cors_value<'a>() -> (value: &'a str)
    ensures
        value@ == "*"@,
{
    "*"
}

/// The request methods that the CORS policy names.
#[derive(Debug, PartialEq, Eq, Structural, Clone, Copy)]
pub enum HttpMethod {
    Get,
    Post,
}

/// The CORS policy of the service, as plain values: whether any origin may
/// call it, and the request headers and methods it allows.
pub struct CorsPolicy {
    pub allow_any_origin: bool,
    pub allowed_headers: Vec<&'static str>,
    pub allowed_methods: Vec<HttpMethod>,
}

/// The request headers that the service allows from the web.
pub open spec fn allowed_header_names() -> Seq<Seq<char>> {
    seq![
        "Access-Control-Allow-Origin"@,
        "Origin"@,
        "Accept"@,
        "X-Requested-With"@,
        "Content-Type"@,
    ]
}

/// The CORS policy of every route: any origin, the five headers of
/// `allowed_header_names`, and the methods GET and POST.
pub fn get() -> (policy: CorsPolicy)
    ensures
        policy.allow_any_origin,
        policy.allowed_headers@.map_values(|h: &'static str| h@) == allowed_header_names(),
        policy.allowed_methods@ == seq![HttpMethod::Get, HttpMethod::Post],
{
    let allowed_headers: Vec<&'static str> = vec![
        "Access-Control-Allow-Origin",
        "Origin",
        "Accept",
        "X-Requested-With",
        "Content-Type",
    ];
    let allowed_methods: Vec<HttpMethod> = vec![HttpMethod::Get, HttpMethod::Post];
    assert(allowed_headers@.map_values(|h: &'static str| h@) =~= allowed_header_names());
    CorsPolicy { allow_any_origin: true, allowed_headers, allowed_methods }
}

} // verus!
