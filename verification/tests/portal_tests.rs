use net_loginer::addresses::ip_to_string;
use net_loginer::addresses::Ipv4Address;
use net_loginer::portal::login_form;
use net_loginer::portal::login_url;
use net_loginer::portal::page_params_from_url;
use net_loginer::portal::portal_url;
use net_loginer::portal::verification_url;
use net_loginer::AuthParseError;

fn addr(a: u8, b: u8, c: u8, d: u8) -> Ipv4Address {
    Ipv4Address { a, b, c, d }
}

#[test]
fn renders_dotted_decimal() {
    assert_eq!(ip_to_string(&addr(10, 20, 0, 255)), "10.20.0.255");
    assert_eq!(ip_to_string(&addr(0, 0, 0, 0)), "0.0.0.0");
}

#[test]
fn builds_endpoint_urls() {
    let ip = addr(10, 15, 44, 3);
    assert_eq!(
        verification_url(&ip),
        "https://net-auth.shanghaitech.edu.cn:19008/portalauth/verificationcode?uaddress=10.15.44.3"
    );
    assert_eq!(
        portal_url(&ip),
        "https://net-auth.shanghaitech.edu.cn:19008/portal?uaddress=10.15.44.3&ac-ip=0"
    );
    assert_eq!(
        login_url(),
        "https://net-auth.shanghaitech.edu.cn:19008/portalauth/login"
    );
}

#[test]
fn reads_session_tokens_from_redirect_url() {
    let r = page_params_from_url("https://portal.example/page?pushPageId=abc123&ssid=9&x=1");
    assert_eq!(r, Ok((String::from("abc123"), String::from("9"))));
}

#[test]
fn query_values_are_percent_decoded() {
    let r = page_params_from_url("https://portal.example/page?pushPageId=a%20b&ssid=s%2Fd");
    assert_eq!(r, Ok((String::from("a b"), String::from("s/d"))));
}

#[test]
fn first_occurrence_of_a_token_wins() {
    let r = page_params_from_url("https://portal.example/page?pushPageId=one&pushPageId=two&ssid=s");
    assert_eq!(r, Ok((String::from("one"), String::from("s"))));
}

#[test]
fn missing_push_page_id_names_the_field() {
    let r = page_params_from_url("https://portal.example/page?ssid=9");
    assert_eq!(
        r,
        Err(AuthParseError::FieldNotFound(String::from("pushPageId")))
    );
}

#[test]
fn missing_ssid_names_the_field() {
    let r = page_params_from_url("https://portal.example/page?pushPageId=abc");
    assert_eq!(r, Err(AuthParseError::FieldNotFound(String::from("ssid"))));
}

#[test]
fn unparseable_url_is_malformed() {
    let r = page_params_from_url("not a url");
    assert_eq!(r, Err(AuthParseError::MalformedUrl));
}

#[test]
fn form_carries_all_fields_in_order() {
    let form = login_form(
        &String::from("student"),
        &String::from("secret"),
        &addr(10, 8, 7, 6),
        &String::from("7f3k"),
        &String::from("page1"),
        &String::from("ssid9"),
    );
    let expected = vec![
        (String::from("userName"), String::from("student")),
        (String::from("userPass"), String::from("secret")),
        (String::from("uaddress"), String::from("10.8.7.6")),
        (String::from("validCode"), String::from("7f3k")),
        (String::from("pushPageId"), String::from("page1")),
        (String::from("ssid"), String::from("ssid9")),
        (String::from("agreed"), String::from("1")),
        (String::from("authType"), String::from("1")),
    ];
    assert_eq!(form, expected);
}
