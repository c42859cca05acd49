//! The portal's login-response protocol: the closed set of outcomes a
//! response can carry, and the exact interpretation of the fields the
//! server sends.

use vstd::prelude::*;
use crate::json::json_as_bool;
use crate::json::json_as_i64;
use crate::json::json_as_str;
use crate::json::json_as_u64;
use crate::json::json_get;
use crate::json::json_is_null;
use crate::json::json_node;
use crate::json::json_parse;
use crate::json::json_value_of;
use crate::json::JsonNodeView;
use crate::numstr::dec_rep;
use crate::numstr::spec_parse_i64;
use crate::numstr::spec_parse_u64;
use crate::numstr::parse_i64;
use crate::numstr::parse_u64;
use crate::numstr::u64_to_string;
use vstd::string::StringExecFns;

verus! {

/// Outcome of one login submission, as the server reports it.
#[derive(Clone, Copy, Debug, PartialEq, Eq, Structural)]
pub enum AuthResult {
    InvalidVerifyCode,
    UserNotFound,
    InvalidPassword(i64, u64),
    UserLocked(u64),
    Success,
}

/// A response that does not follow the protocol: which field is
/// missing or unreadable, or which error code is not in the taxonomy.
#[derive(Debug, PartialEq, Eq)]
pub enum AuthParseError {
    FieldNotFound(String),
    FieldParseError(String),
    UnsupportedErrorCode(String),
    MalformedJson,
    MalformedUrl,
}

/// Mathematical image of an `AuthParseError`.
pub enum ParseErrorView {
    FieldNotFound(Seq<char>),
    FieldParseError(Seq<char>),
    UnsupportedErrorCode(Seq<char>),
    MalformedJson,
    MalformedUrl,
}

impl View for AuthParseError {
    type V = ParseErrorView;

    open spec fn view(&self) -> ParseErrorView {
        match self {
            AuthParseError::FieldNotFound(s) => ParseErrorView::FieldNotFound(s@),
            AuthParseError::FieldParseError(s) => ParseErrorView::FieldParseError(s@),
            AuthParseError::UnsupportedErrorCode(s) => ParseErrorView::UnsupportedErrorCode(s@),
            AuthParseError::MalformedJson => ParseErrorView::MalformedJson,
            AuthParseError::MalformedUrl => ParseErrorView::MalformedUrl,
        }
    }
}

/// What `message` renders for each parse error.
pub open spec fn spec_message(e: ParseErrorView) -> Seq<char> {
    match e {
        ParseErrorView::FieldNotFound(f) => "Response missing field: "@ + f,
        ParseErrorView::FieldParseError(f) => "Failed to parse field: "@ + f,
        ParseErrorView::UnsupportedErrorCode(c) => "Unsupported error code: "@ + c,
        ParseErrorView::MalformedJson => "Malformed JSON response"@,
        ParseErrorView::MalformedUrl => "Malformed redirect URL"@,
    }
}

impl AuthParseError {
    /// Human-readable description of the parse error.
    pub fn message(&self) -> (r: String)
        ensures
            r@ == spec_message(self@),
    {
        match self {
            AuthParseError::FieldNotFound(f) => {
                let mut s = String::from_str("Response missing field: ");
                s.append(f.as_str());
                s
            },
            AuthParseError::FieldParseError(f) => {
                let mut s = String::from_str("Failed to parse field: ");
                s.append(f.as_str());
                s
            },
            AuthParseError::UnsupportedErrorCode(c) => {
                let mut s = String::from_str("Unsupported error code: ");
                s.append(c.as_str());
                s
            },
            AuthParseError::MalformedJson => String::from_str("Malformed JSON response"),
            AuthParseError::MalformedUrl => String::from_str("Malformed redirect URL"),
        }
    }
}

/// The image of a result under the error view.
pub open spec fn result_view(r: Result<AuthResult, AuthParseError>) -> Result<
    AuthResult,
    ParseErrorView,
> {
    match r {
        Ok(a) => Ok(a),
        Err(e) => Err(e@),
    }
}

/// One field of the response's `data` object, as found in the JSON: a
/// string to be parsed, a number already of the right type, or absent.
pub enum RawField<T> {
    Missing,
    Text(String),
    Num(T),
}

/// Mathematical image of a `RawField`.
pub enum RawFieldView<T> {
    Missing,
    Text(Seq<char>),
    Num(T),
}

impl<T: Copy> View for RawField<T> {
    type V = RawFieldView<T>;

    open spec fn view(&self) -> RawFieldView<T> {
        match self {
            RawField::Missing => RawFieldView::Missing,
            RawField::Text(s) => RawFieldView::Text(s@),
            RawField::Num(n) => RawFieldView::Num(*n),
        }
    }
}

/// Everything the protocol reads out of a login response's JSON tree,
/// as plain values.
pub struct RawLoginResponse {
    /// The `success` flag; `None` when absent or not a boolean.
    pub success: Option<bool>,
    /// The `errorcode` string; `None` when absent or not a string.
    pub errorcode: Option<String>,
    /// Whether `data` is `null` or absent.
    pub data_is_null: bool,
    /// `data.remainLockTime`, read for code 10505.
    pub remain_lock_time: RawField<u64>,
    /// `data.remainTimes`, read for code 10503.
    pub remain_times: RawField<i64>,
    /// `data.lockTime`, read for code 10503.
    pub lock_time: RawField<u64>,
}

/// Mathematical image of a `RawLoginResponse`.
pub struct RawLoginResponseView {
    pub success: Option<bool>,
    pub errorcode: Option<Seq<char>>,
    pub data_is_null: bool,
    pub remain_lock_time: RawFieldView<u64>,
    pub remain_times: RawFieldView<i64>,
    pub lock_time: RawFieldView<u64>,
}

impl View for RawLoginResponse {
    type V = RawLoginResponseView;

    open spec fn view(&self) -> RawLoginResponseView {
        RawLoginResponseView {
            success: self.success,
            errorcode: match self.errorcode {
                Some(ref s) => Some(s@),
                None => None,
            },
            data_is_null: self.data_is_null,
            remain_lock_time: self.remain_lock_time@,
            remain_times: self.remain_times@,
            lock_time: self.lock_time@,
        }
    }
}

/// The value under a key of an object node, if any.
pub open spec fn spec_lookup(n: JsonNodeView, key: Seq<char>) -> Option<JsonNodeView> {
    match n {
        JsonNodeView::Object(m) => if m.contains_key(key) {
            Some(m[key])
        } else {
            None
        },
        _ => None,
    }
}

/// How a `u64`-valued field is collected from the `data` node: a
/// string as text, a number as what its unsigned reading gives,
/// anything else absent.
pub open spec fn spec_u64_field(data: Option<JsonNodeView>, key: Seq<char>) -> RawFieldView<u64> {
    match data {
        None => RawFieldView::Missing,
        Some(d) => match spec_lookup(d, key) {
            None => RawFieldView::Missing,
            Some(f) => match f {
                JsonNodeView::Str(s) => RawFieldView::Text(s),
                JsonNodeView::Number { as_u64: Some(x), .. } => RawFieldView::Num(x),
                _ => RawFieldView::Missing,
            },
        },
    }
}

/// How an `i64`-valued field is collected, as `spec_u64_field`.
pub open spec fn spec_i64_field(data: Option<JsonNodeView>, key: Seq<char>) -> RawFieldView<i64> {
    match data {
        None => RawFieldView::Missing,
        Some(d) => match spec_lookup(d, key) {
            None => RawFieldView::Missing,
            Some(f) => match f {
                JsonNodeView::Str(s) => RawFieldView::Text(s),
                JsonNodeView::Number { as_i64: Some(x), .. } => RawFieldView::Num(x),
                _ => RawFieldView::Missing,
            },
        },
    }
}

/// Everything the protocol collects from a parsed response tree.
pub open spec fn spec_fields_of(n: JsonNodeView) -> RawLoginResponseView {
    RawLoginResponseView {
        success: match spec_lookup(n, "success"@) {
            Some(JsonNodeView::Bool(b)) => Some(b),
            _ => None,
        },
        errorcode: match spec_lookup(n, "errorcode"@) {
            Some(JsonNodeView::Str(s)) => Some(s),
            _ => None,
        },
        data_is_null: match spec_lookup(n, "data"@) {
            None => true,
            Some(d) => d is Null,
        },
        remain_lock_time: spec_u64_field(spec_lookup(n, "data"@), "remainLockTime"@),
        remain_times: spec_i64_field(spec_lookup(n, "data"@), "remainTimes"@),
        lock_time: spec_u64_field(spec_lookup(n, "data"@), "lockTime"@),
    }
}

/// Reading a `u64` field of `data`: absent is a missing field, text is
/// parsed as decimal, a number is taken as is.
pub open spec fn spec_read_u64(f: RawFieldView<u64>, name: Seq<char>) -> Result<
    u64,
    ParseErrorView,
> {
    match f {
        RawFieldView::Missing => Err(ParseErrorView::FieldNotFound(name)),
        RawFieldView::Text(s) => match spec_parse_u64(s) {
            Some(v) => Ok(v),
            None => Err(ParseErrorView::FieldParseError(name)),
        },
        RawFieldView::Num(v) => Ok(v),
    }
}

/// Reading an `i64` field of `data`, as `spec_read_u64`.
pub open spec fn spec_read_i64(f: RawFieldView<i64>, name: Seq<char>) -> Result<
    i64,
    ParseErrorView,
> {
    match f {
        RawFieldView::Missing => Err(ParseErrorView::FieldNotFound(name)),
        RawFieldView::Text(s) => match spec_parse_i64(s) {
            Some(v) => Ok(v),
            None => Err(ParseErrorView::FieldParseError(name)),
        },
        RawFieldView::Num(v) => Ok(v),
    }
}

/// The server's error taxonomy, in one place: how a response maps to
/// an outcome or to a parse error.
///
/// `success: true` is `Success`; otherwise `errorcode` decides:
/// 3010 is a wrong verify code; 10505 is a locked account, carrying
/// `data.remainLockTime`; 10503 with null `data` is an unknown user,
/// with non-null `data` a wrong password carrying `data.remainTimes`
/// and `data.lockTime`; every other code is outside the contract.
pub open spec fn spec_interpret(raw: RawLoginResponseView) -> Result<AuthResult, ParseErrorView> {
    match raw.success {
        None => Err(ParseErrorView::FieldNotFound("success"@)),
        Some(true) => Ok(AuthResult::Success),
        Some(false) => match raw.errorcode {
            None => Err(ParseErrorView::FieldNotFound("errorcode"@)),
            Some(c) => match spec_parse_u64(c) {
                None => Err(ParseErrorView::FieldParseError("errorcode"@)),
                Some(code) => if code == 3010 {
                    Ok(AuthResult::InvalidVerifyCode)
                } else if code == 10505 {
                    match spec_read_u64(raw.remain_lock_time, "remainLockTime"@) {
                        Ok(v) => Ok(AuthResult::UserLocked(v)),
                        Err(e) => Err(e),
                    }
                } else if code == 10503 {
                    if raw.data_is_null {
                        Ok(AuthResult::UserNotFound)
                    } else {
                        match spec_read_i64(raw.remain_times, "remainTimes"@) {
                            Err(e) => Err(e),
                            Ok(t) => match spec_read_u64(raw.lock_time, "lockTime"@) {
                                Err(e) => Err(e),
                                Ok(l) => Ok(AuthResult::InvalidPassword(t, l)),
                            },
                        }
                    }
                } else {
                    Err(ParseErrorView::UnsupportedErrorCode(dec_rep(code as int)))
                },
            },
        },
    }
}

/// Reads a `u64` field of `data` exactly as `spec_read_u64` says.
fn read_u64_field(f: &RawField<u64>, name: &str) -> (r: Result<u64, AuthParseError>)
    ensures
        match r {
            Ok(v) => spec_read_u64(f@, name@) == Ok::<u64, ParseErrorView>(v),
            Err(e) => spec_read_u64(f@, name@) == Err::<u64, ParseErrorView>(e@),
        },
{
    match f {
        RawField::Missing => Err(AuthParseError::FieldNotFound(String::from_str(name))),
        RawField::Text(s) => match parse_u64(s.as_str()) {
            Some(v) => Ok(v),
            None => Err(AuthParseError::FieldParseError(String::from_str(name))),
        },
        RawField::Num(v) => Ok(*v),
    }
}

/// Reads an `i64` field of `data` exactly as `spec_read_i64` says.
fn read_i64_field(f: &RawField<i64>, name: &str) -> (r: Result<i64, AuthParseError>)
    ensures
        match r {
            Ok(v) => spec_read_i64(f@, name@) == Ok::<i64, ParseErrorView>(v),
            Err(e) => spec_read_i64(f@, name@) == Err::<i64, ParseErrorView>(e@),
        },
{
    match f {
        RawField::Missing => Err(AuthParseError::FieldNotFound(String::from_str(name))),
        RawField::Text(s) => match parse_i64(s.as_str()) {
            Some(v) => Ok(v),
            None => Err(AuthParseError::FieldParseError(String::from_str(name))),
        },
        RawField::Num(v) => Ok(*v),
    }
}

/// Maps the fields read from a login response to an outcome, exactly
/// as `spec_interpret` says.
pub fn interpret_response(raw: &RawLoginResponse) -> (r: Result<AuthResult, AuthParseError>)
    ensures
        result_view(r) == spec_interpret(raw@),
{
    match raw.success {
        None => Err(AuthParseError::FieldNotFound(String::from_str("success"))),
        Some(true) => Ok(AuthResult::Success),
        Some(false) => {
            let code_str = match &raw.errorcode {
                None => {
                    return Err(AuthParseError::FieldNotFound(String::from_str("errorcode")));
                },
                Some(c) => c,
            };
            let code = match parse_u64(code_str.as_str()) {
                None => {
                    return Err(AuthParseError::FieldParseError(String::from_str("errorcode")));
                },
                Some(code) => code,
            };
            if code == 3010 {
                Ok(AuthResult::InvalidVerifyCode)
            } else if code == 10505 {
                match read_u64_field(&raw.remain_lock_time, "remainLockTime") {
                    Ok(v) => Ok(AuthResult::UserLocked(v)),
                    Err(e) => Err(e),
                }
            } else if code == 10503 {
                if raw.data_is_null {
                    Ok(AuthResult::UserNotFound)
                } else {
                    match read_i64_field(&raw.remain_times, "remainTimes") {
                        Err(e) => Err(e),
                        Ok(t) => match read_u64_field(&raw.lock_time, "lockTime") {
                            Err(e) => Err(e),
                            Ok(l) => Ok(AuthResult::InvalidPassword(t, l)),
                        },
                    }
                }
            } else {
                Err(AuthParseError::UnsupportedErrorCode(u64_to_string(code)))
            }
        },
    }
}

/// Reads a `u64`-valued field of the `data` object out of the JSON
/// tree: a string as text, a number as itself, anything else absent.
fn raw_u64_field(data: Option<&serde_json::Value>, name: &str) -> (r: RawField<u64>)
    ensures
        r@ == spec_u64_field(
            match data {
                None => None,
                Some(d) => Some(json_node(*d)),
            },
            name@,
        ),
{
    match data {
        None => RawField::Missing,
        Some(d) => match json_get(d, name) {
            None => RawField::Missing,
            Some(f) => match json_as_str(f) {
                Some(s) => RawField::Text(s.to_owned()),
                None => match json_as_u64(f) {
                    Some(n) => RawField::Num(n),
                    None => RawField::Missing,
                },
            },
        },
    }
}

/// Reads an `i64`-valued field of the `data` object, as
/// `raw_u64_field`.
fn raw_i64_field(data: Option<&serde_json::Value>, name: &str) -> (r: RawField<i64>)
    ensures
        r@ == spec_i64_field(
            match data {
                None => None,
                Some(d) => Some(json_node(*d)),
            },
            name@,
        ),
{
    match data {
        None => RawField::Missing,
        Some(d) => match json_get(d, name) {
            None => RawField::Missing,
            Some(f) => match json_as_str(f) {
                Some(s) => RawField::Text(s.to_owned()),
                None => match json_as_i64(f) {
                    Some(n) => RawField::Num(n),
                    None => RawField::Missing,
                },
            },
        },
    }
}

/// Collects from the JSON tree exactly the plain values
/// `spec_fields_of` names on the tree's image.
fn extract_raw_response(v: &serde_json::Value) -> (r: RawLoginResponse)
    ensures
        r@ == spec_fields_of(json_node(*v)),
{
    let success = match json_get(v, "success") {
        None => None,
        Some(f) => json_as_bool(f),
    };
    let errorcode = match json_get(v, "errorcode") {
        None => None,
        Some(f) => match json_as_str(f) {
            Some(s) => Some(s.to_owned()),
            None => None,
        },
    };
    let data = json_get(v, "data");
    let data_is_null = match data {
        None => true,
        Some(d) => json_is_null(d),
    };
    RawLoginResponse {
        success,
        errorcode,
        data_is_null,
        remain_lock_time: raw_u64_field(data, "remainLockTime"),
        remain_times: raw_i64_field(data, "remainTimes"),
        lock_time: raw_u64_field(data, "lockTime"),
    }
}

/// Parses a login-response body. The text decides the outcome:
/// malformed text is exactly the malformed-JSON error, and a parsed
/// tree is mapped through `spec_interpret` of the fields
/// `spec_fields_of` collects from its image.
pub fn parse_auth_result(body: &str) -> (r: Result<AuthResult, AuthParseError>)
    ensures
        result_view(r) == match json_value_of(body@) {
            None => Err::<AuthResult, ParseErrorView>(ParseErrorView::MalformedJson),
            Some(n) => spec_interpret(spec_fields_of(n)),
        },
{
    match json_parse(body) {
        Err(_) => Err(AuthParseError::MalformedJson),
        Ok(v) => {
            let raw = extract_raw_response(&v);
            interpret_response(&raw)
        },
    }
}

} // verus!
