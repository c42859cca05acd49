//! The portal's three endpoints: building their URLs and the login
//! form, and reading the session tokens `pushPageId` and `ssid` out of
//! the redirect's query string.

use vstd::prelude::*;
use crate::addresses::Ipv4Address;
use crate::addresses::ip_to_string;
use crate::addresses::spec_ip_string;
use crate::protocol::AuthParseError;
use crate::protocol::ParseErrorView;
use vstd::string::StringExecFns;

verus! {

/// A sequence of string pairs as its mathematical image.
pub open spec fn pairs_view(v: Seq<(String, String)>) -> Seq<(Seq<char>, Seq<char>)> {
    v.map_values(|p: (String, String)| (p.0@, p.1@))
}

#[verifier::external_type_specification]
#[verifier::external_body]
pub struct ExUrl(url::Url);

#[verifier::external_type_specification]
#[verifier::external_body]
pub struct ExUrlParseError(url::ParseError);

/// What parsing a URL string and walking its query gives: the decoded
/// query pairs in order, or nothing when the string is not a URL.
pub uninterp spec fn url_query_pairs(s: Seq<char>) -> Option<Seq<(Seq<char>, Seq<char>)>>;

/// Relies on `url::Url::parse` and `url::Url::query_pairs`: for a
/// parseable URL string, the percent-decoded query pairs in order;
/// otherwise the parse error.
#[verifier::external_body]
fn query_pairs_of(s: &str) -> (r: Result<Vec<(String, String)>, url::ParseError>)
    ensures
        match url_query_pairs(s@) {
            Some(q) => r matches Ok(v) && pairs_view(v@) == q,
            None => r is Err,
        },
{
    match url::Url::parse(s) {
        Ok(u) => Ok(u.query_pairs().into_owned().collect()),
        Err(e) => Err(e),
    }
}

/// The value of the first pair with the given key, if any.
pub open spec fn first_value(q: Seq<(Seq<char>, Seq<char>)>, key: Seq<char>) -> Option<Seq<char>>
    decreases q.len(),
{
    if q.len() == 0 {
        None
    } else if q[0].0 == key {
        Some(q[0].1)
    } else {
        first_value(q.skip(1), key)
    }
}

/// Finds the first pair with the given key.
fn find_param(pairs: &Vec<(String, String)>, key: &str) -> (r: Option<String>)
    ensures
        match r {
            Some(v) => first_value(pairs_view(pairs@), key@) == Some(v@),
            None => first_value(pairs_view(pairs@), key@) is None,
        },
{
    let ghost pv = pairs_view(pairs@);
    let key_string = String::from_str(key);
    let mut i: usize = 0;
    proof {
        assert(pv.skip(0) =~= pv);
    }
    while i < pairs.len()
        invariant
            0 <= i <= pairs@.len(),
            pv == pairs_view(pairs@),
            key_string@ == key@,
            first_value(pv, key@) == first_value(pv.skip(i as int), key@),
        decreases pairs@.len() - i,
    {
        proof {
            assert(pv.skip(i as int)[0] == pv[i as int]);
            assert(pv[i as int] == (pairs@[i as int].0@, pairs@[i as int].1@));
            assert(pv.skip(i as int).skip(1) =~= pv.skip(i as int + 1));
        }
        if pairs[i].0 == key_string {
            return Some(pairs[i].1.clone());
        }
        i = i + 1;
    }
    proof {
        assert(pv.skip(pairs@.len() as int).len() == 0);
    }
    None
}

/// The session tokens in a redirect's query pairs: the first
/// `pushPageId` and `ssid` values, and the missing field named when
/// one is absent.
pub open spec fn spec_page_params(q: Seq<(Seq<char>, Seq<char>)>) -> Result<
    (Seq<char>, Seq<char>),
    ParseErrorView,
> {
    match first_value(q, "pushPageId"@) {
        None => Err(ParseErrorView::FieldNotFound("pushPageId"@)),
        Some(p) => match first_value(q, "ssid"@) {
            None => Err(ParseErrorView::FieldNotFound("ssid"@)),
            Some(s) => Ok((p, s)),
        },
    }
}

/// The image of a page-params result under the views.
pub open spec fn page_params_view(r: Result<(String, String), AuthParseError>) -> Result<
    (Seq<char>, Seq<char>),
    ParseErrorView,
> {
    match r {
        Ok(p) => Ok((p.0@, p.1@)),
        Err(e) => Err(e@),
    }
}

/// Reads the session tokens out of already-split query pairs, exactly
/// as `spec_page_params` says.
pub fn page_params_from_pairs(pairs: &Vec<(String, String)>) -> (r: Result<
    (String, String),
    AuthParseError,
>)
    ensures
        page_params_view(r) == spec_page_params(pairs_view(pairs@)),
{
    let push_page_id = match find_param(pairs, "pushPageId") {
        None => {
            return Err(AuthParseError::FieldNotFound(String::from_str("pushPageId")));
        },
        Some(p) => p,
    };
    match find_param(pairs, "ssid") {
        None => Err(AuthParseError::FieldNotFound(String::from_str("ssid"))),
        Some(s) => Ok((push_page_id, s)),
    }
}

/// Reads the session tokens out of the URL a portal request was
/// redirected to. The URL string decides: an unparseable URL is
/// reported as malformed, a parsed one is read exactly as
/// `spec_page_params` says.
pub fn page_params_from_url(final_url: &str) -> (r: Result<(String, String), AuthParseError>)
    ensures
        match url_query_pairs(final_url@) {
            Some(q) => page_params_view(r) == spec_page_params(q),
            None => page_params_view(r) == Err::<(Seq<char>, Seq<char>), ParseErrorView>(
                ParseErrorView::MalformedUrl,
            ),
        },
{
    match query_pairs_of(final_url) {
        Err(_) => Err(AuthParseError::MalformedUrl),
        Ok(pairs) => page_params_from_pairs(&pairs),
    }
}

/// Base of every portal endpoint.
pub open spec fn spec_base_url() -> Seq<char> {
    "https://net-auth.shanghaitech.edu.cn:19008"@
}

/// URL of the CAPTCHA image for one address.
pub open spec fn spec_verification_url(ip: Ipv4Address) -> Seq<char> {
    spec_base_url() + "/portalauth/verificationcode?uaddress="@ + spec_ip_string(ip)
}

/// URL of the redirecting portal page for one address.
pub open spec fn spec_portal_url(ip: Ipv4Address) -> Seq<char> {
    spec_base_url() + "/portal?uaddress="@ + spec_ip_string(ip) + "&ac-ip=0"@
}

/// URL of the login submission endpoint.
pub open spec fn spec_login_url() -> Seq<char> {
    spec_base_url() + "/portalauth/login"@
}

/// Builds the CAPTCHA-image URL for one address.
pub fn verification_url(ip: &Ipv4Address) -> (r: String)
    ensures
        r@ == spec_verification_url(*ip),
{
    let mut s = String::from_str("https://net-auth.shanghaitech.edu.cn:19008");
    s.append("/portalauth/verificationcode?uaddress=");
    let ip_s = ip_to_string(ip);
    s.append(ip_s.as_str());
    s
}

/// Builds the redirecting portal-page URL for one address.
pub fn portal_url(ip: &Ipv4Address) -> (r: String)
    ensures
        r@ == spec_portal_url(*ip),
{
    let mut s = String::from_str("https://net-auth.shanghaitech.edu.cn:19008");
    s.append("/portal?uaddress=");
    let ip_s = ip_to_string(ip);
    s.append(ip_s.as_str());
    s.append("&ac-ip=0");
    s
}

/// Builds the login-submission URL.
pub fn login_url() -> (r: String)
    ensures
        r@ == spec_login_url(),
{
    let mut s = String::from_str("https://net-auth.shanghaitech.edu.cn:19008");
    s.append("/portalauth/login");
    s
}

/// The login form: the credential fields, the address, the decoded
/// verify code, the two session tokens, and the protocol constants
/// `agreed=1` and `authType=1`, in submission order.
pub open spec fn spec_login_form(
    user: Seq<char>,
    pass: Seq<char>,
    ip: Ipv4Address,
    code: Seq<char>,
    push_page_id: Seq<char>,
    ssid: Seq<char>,
) -> Seq<(Seq<char>, Seq<char>)> {
    seq![
        ("userName"@, user),
        ("userPass"@, pass),
        ("uaddress"@, spec_ip_string(ip)),
        ("validCode"@, code),
        ("pushPageId"@, push_page_id),
        ("ssid"@, ssid),
        ("agreed"@, "1"@),
        ("authType"@, "1"@),
    ]
}

/// Builds the login form exactly as `spec_login_form` says.
pub fn login_form(
    user: &String,
    pass: &String,
    ip: &Ipv4Address,
    code: &String,
    push_page_id: &String,
    ssid: &String,
) -> (r: Vec<(String, String)>)
    ensures
        pairs_view(r@) == spec_login_form(user@, pass@, *ip, code@, push_page_id@, ssid@),
{
    let mut v: Vec<(String, String)> = Vec::new();
    v.push((String::from_str("userName"), user.clone()));
    v.push((String::from_str("userPass"), pass.clone()));
    v.push((String::from_str("uaddress"), ip_to_string(ip)));
    v.push((String::from_str("validCode"), code.clone()));
    v.push((String::from_str("pushPageId"), push_page_id.clone()));
    v.push((String::from_str("ssid"), ssid.clone()));
    v.push((String::from_str("agreed"), String::from_str("1")));
    v.push((String::from_str("authType"), String::from_str("1")));
    proof {
        assert(pairs_view(v@) =~= spec_login_form(
            user@,
            pass@,
            *ip,
            code@,
            push_page_id@,
            ssid@,
        ));
    }
    v
}

} // verus!
