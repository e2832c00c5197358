//! The HTTP requests a delivery sends, built from a channel configuration and
//! a message.
use vstd::prelude::*;
use vstd::string::*;
use vstd::utf8::*;
use crate::codec::{base64_std, encode, hex_lower, hmac_base64, hmac_hex, spec_hmac_sha256, url_component};
use crate::json::{
    fields_view, is_json, is_json_spec, json_quote, json_str, json_str_array, json_string_literal,
    member_texts, object_text, put_sorted, put_sorted_entry, put_str, put_value, write_object, Json, JsonDocument,
    JsonDocumentView, JsonKind, JsonKindView, JsonView,
};
use crate::notify::config::{
    BarkConfig, DingtalkAppConfig, DingtalkRobotConfig, EmailConfig, FeishuRobotConfig,
    PushplusConfig, Serverchan3Config, TelegramConfig, WebhookConfig, WecomAppConfig,
    WecomRobotConfig,
};
use crate::notify::error::{invalid, NotificationMessage, NotifyError, NotifyErrorView};
use crate::text::{
    ascii_lower, concat_str, decimal, eq_ignore_ascii_case, is_blank, is_blank_str, list_items,
    uppercase, split_list, str_eq, to_uppercase, trim, trim_end, trim_end_slashes,
    trim_end_slashes_str, trim_str, u128_to_decimal, u64_to_decimal,
};

verus! {

#[derive(Clone, Copy, Debug, PartialEq, Eq, Structural)]
pub enum HttpMethod {
    Get,
    Post,
}

/// The body of a request.
#[derive(Debug)]
pub enum RequestBody {
    Empty,
    /// Text sent as it is.
    Text(String),
    /// A JSON value built by the library.
    Json(Json),
    /// JSON text sent as it is, as `RequestBuilder::json` sends the value it
    /// writes: with `Content-Type: application/json`.
    JsonText(String),
    /// `application/x-www-form-urlencoded` fields, in order.
    Form(Vec<(String, String)>),
}

pub enum RequestBodyView {
    Empty,
    Text(Seq<char>),
    Json(JsonView),
    JsonText(Seq<char>),
    Form(Seq<(Seq<char>, Seq<char>)>),
}

impl RequestBody {
    pub open spec fn view(&self) -> RequestBodyView {
        match self {
            RequestBody::Empty => RequestBodyView::Empty,
            RequestBody::Text(t) => RequestBodyView::Text(t@),
            RequestBody::Json(j) => RequestBodyView::Json(j.view()),
            RequestBody::JsonText(t) => RequestBodyView::JsonText(t@),
            RequestBody::Form(f) => RequestBodyView::Form(f.deep_view()),
        }
    }
}

/// One HTTP request: method, URL, query parameters, headers (in the order
/// they are added) and body.
#[derive(Debug)]
pub struct HttpRequest {
    pub method: HttpMethod,
    pub url: String,
    pub query: Vec<(String, String)>,
    pub headers: Vec<(String, String)>,
    pub body: RequestBody,
}

pub struct HttpRequestView {
    pub method: HttpMethod,
    pub url: Seq<char>,
    pub query: Seq<(Seq<char>, Seq<char>)>,
    pub headers: Seq<(Seq<char>, Seq<char>)>,
    pub body: RequestBodyView,
}

impl HttpRequest {
    pub open spec fn view(&self) -> HttpRequestView {
        HttpRequestView {
            method: self.method,
            url: self.url@,
            query: self.query.deep_view(),
            headers: self.headers.deep_view(),
            body: self.body.view(),
        }
    }
}

/// A `POST` of a JSON value, as `Client::post(url).json(&payload)` sends it.
pub open spec fn post_json_view(url: Seq<char>, payload: JsonView) -> HttpRequestView {
    HttpRequestView {
        method: HttpMethod::Post,
        url,
        query: seq![],
        headers: seq![],
        body: RequestBodyView::Json(payload),
    }
}

/// A `POST` of JSON text.
pub open spec fn post_json_text_view(url: Seq<char>, text: Seq<char>) -> HttpRequestView {
    HttpRequestView {
        method: HttpMethod::Post,
        url,
        query: seq![],
        headers: seq![],
        body: RequestBodyView::JsonText(text),
    }
}

fn post_json(url: String, payload: Json) -> (r: HttpRequest)
    ensures
        r.view() == post_json_view(url@, payload.view()),
{
    let r = HttpRequest {
        method: HttpMethod::Post,
        url,
        query: Vec::new(),
        headers: Vec::new(),
        body: RequestBody::Json(payload),
    };
    assert(r.query.deep_view() =~= Seq::<(Seq<char>, Seq<char>)>::empty());
    assert(r.headers.deep_view() =~= Seq::<(Seq<char>, Seq<char>)>::empty());
    r
}

fn post_json_text(url: String, text: String) -> (r: HttpRequest)
    ensures
        r.view() == post_json_text_view(url@, text@),
{
    let r = HttpRequest {
        method: HttpMethod::Post,
        url,
        query: Vec::new(),
        headers: Vec::new(),
        body: RequestBody::JsonText(text),
    };
    assert(r.query.deep_view() =~= Seq::<(Seq<char>, Seq<char>)>::empty());
    assert(r.headers.deep_view() =~= Seq::<(Seq<char>, Seq<char>)>::empty());
    r
}

fn push_pair(v: &mut Vec<(String, String)>, a: &str, b: &str)
    ensures
        final(v).deep_view() == old(v).deep_view().push((a@, b@)),
{
    let ghost before = v.deep_view();
    v.push((a.to_owned(), b.to_owned()));
    assert(v.deep_view() =~= before.push((a@, b@)));
}

/// `{"content": text}`-style object with one string member.
pub open spec fn one_member(key: Seq<char>, value: Seq<char>) -> JsonView {
    JsonView::Object(seq![(key, JsonView::Str(value))])
}

fn one_member_object(key: &str, value: &str) -> (r: Json)
    ensures
        r.view() == one_member(key@, value@),
{
    let mut f: Vec<(String, Json)> = Vec::new();
    put_str(&mut f, key, value);
    assert(fields_view(f@) =~= seq![(key@, JsonView::Str(value@))]);
    Json::Object(f)
}

/// Where a robot channel posts: the configured webhook URL, or else the
/// provider's URL for the token; one of the two is required.
pub open spec fn robot_url_spec(url: Seq<char>, token: Seq<char>, prefix: Seq<char>) -> Result<Seq<char>, Seq<char>> {
    if !is_blank(url) {
        Ok(trim(url))
    } else if !is_blank(token) {
        Ok(prefix + url_component(token))
    } else {
        Err("robot webhook URL or token is required"@)
    }
}

pub open spec fn string_result(r: Result<String, NotifyError>) -> Result<Seq<char>, NotifyErrorView> {
    match r {
        Ok(s) => Ok(s@),
        Err(e) => Err(e.view()),
    }
}

pub open spec fn invalid_result<T>(r: Result<T, Seq<char>>) -> Result<T, NotifyErrorView> {
    match r {
        Ok(t) => Ok(t),
        Err(m) => Err(NotifyErrorView::InvalidConfig(m)),
    }
}

pub fn robot_url(url: &str, token: &str, prefix: &str) -> (r: Result<String, NotifyError>)
    ensures
        string_result(r) == invalid_result(robot_url_spec(url@, token@, prefix@)),
{
    if !is_blank_str(url) {
        Ok(trim_str(url).to_owned())
    } else if !is_blank_str(token) {
        let t = encode(token);
        Ok(concat_str(prefix, t.as_str()))
    } else {
        Err(invalid("robot webhook URL or token is required".to_owned()))
    }
}

/// `key: trim(value)` added to an object when `value` is not blank.
pub open spec fn put_spec(
    fields: Seq<(Seq<char>, JsonView)>,
    key: Seq<char>,
    value: Seq<char>,
) -> Seq<(Seq<char>, JsonView)> {
    if is_blank(value) {
        fields
    } else {
        fields.push((key, JsonView::Str(trim(value))))
    }
}

fn put(fields: &mut Vec<(String, Json)>, key: &str, value: &str)
    ensures
        fields_view(final(fields)@) == put_spec(fields_view(old(fields)@), key@, value@),
{
    if !is_blank_str(value) {
        put_str(fields, key, trim_str(value));
    }
}

/// The text a notification carries: its custom body when it has one.
pub open spec fn message_text(m: NotificationMessage) -> Seq<char> {
    match m.custom_body {
        Some(b) => b@,
        None => m.body@,
    }
}

/// The method a webhook configuration names, once trimmed and upper-cased.
pub open spec fn webhook_method(method: Seq<char>) -> Option<HttpMethod> {
    method_of_upper(uppercase(trim(method)))
}

/// The method an upper-cased method name stands for, among those a webhook uses.
pub open spec fn method_of_upper(m: Seq<char>) -> Option<HttpMethod> {
    if m == "GET"@ {
        Some(HttpMethod::Get)
    } else if m == "POST"@ {
        Some(HttpMethod::Post)
    } else {
        None
    }
}

/// A webhook with a URL accepts the method `get` or `post` written in any
/// mix of ASCII cases, and sends with that method.
pub proof fn lemma_webhook_method_any_case(w: WebhookConfig)
    requires
        !is_blank(w.url@),
        crate::text::is_ascii_text(w.http_method@),
        crate::text::ascii_upper(w.http_method@) == "GET"@ || crate::text::ascii_upper(w.http_method@)
            == "POST"@,
    ensures
        crate::notify::config::config_problem(crate::notify::config::ChannelConfig::Webhook(w)) is None,
        webhook_method(w.http_method@) == method_of_upper(crate::text::ascii_upper(w.http_method@)),
        webhook_method(w.http_method@) is Some,
{
    reveal_strlit("GET");
    reveal_strlit("POST");
    let m = w.http_method@;
    let u = crate::text::ascii_upper(m);
    assert(u.len() == m.len());
    assert(u[0] == crate::text::ascii_upper_char(m[0]));
    assert(u[m.len() - 1] == crate::text::ascii_upper_char(m[m.len() - 1]));
    assert(!crate::text::is_ws(m[0]));
    assert(!crate::text::is_ws(m.last()));
    assert(crate::text::trim_start(m) == m);
    assert(crate::text::trim_end(m) == m);
}

pub open spec fn has_header_ci(headers: Seq<(Seq<char>, Seq<char>)>, name: Seq<char>) -> bool {
    exists|i: int| 0 <= i < headers.len() && ascii_lower(#[trigger] headers[i].0) == ascii_lower(name)
}

/// The `Content-Type` a webhook adds to a `POST` that names none.
pub open spec fn webhook_content_type(body: Seq<char>) -> Seq<char> {
    if is_json_spec(body) {
        "application/json; charset=utf-8"@
    } else {
        "text/plain; charset=utf-8"@
    }
}

/// The webhook request: the configured headers, then a `Content-Type` for a
/// `POST` that names none, the signature when a secret is set, and the title.
pub open spec fn webhook_view(c: WebhookConfig, m: NotificationMessage, method: HttpMethod) -> HttpRequestView {
    let body = message_text(m);
    let h0 = c.headers.deep_view();
    let h1 = if method == HttpMethod::Post && !has_header_ci(h0, "content-type"@) {
        h0.push(("Content-Type"@, webhook_content_type(body)))
    } else {
        h0
    };
    let h2 = if !is_blank(c.secret@) {
        h1.push(
            (
                "X-Webhook-Signature"@,
                hex_lower(spec_hmac_sha256(encode_utf8(trim(c.secret@)), encode_utf8(body))),
            ),
        )
    } else {
        h1
    };
    HttpRequestView {
        method,
        url: trim(c.url@),
        query: seq![],
        headers: h2.push(("X-SimAdmin-Title"@, m.title@)),
        body: if method == HttpMethod::Post {
            RequestBodyView::Text(body)
        } else {
            RequestBodyView::Empty
        },
    }
}

pub open spec fn request_result(r: Result<HttpRequest, NotifyError>) -> Result<HttpRequestView, NotifyErrorView> {
    match r {
        Ok(q) => Ok(q.view()),
        Err(e) => Err(e.view()),
    }
}

pub open spec fn webhook_spec(c: WebhookConfig, m: NotificationMessage) -> Result<HttpRequestView, NotifyErrorView> {
    match webhook_method(c.http_method@) {
        Some(method) => Ok(webhook_view(c, m, method)),
        None => Err(NotifyErrorView::InvalidConfig("invalid HTTP method"@)),
    }
}

fn has_content_type(headers: &Vec<(String, String)>) -> (r: bool)
    ensures
        r == has_header_ci(headers.deep_view(), "content-type"@),
{
    let mut i: usize = 0;
    while i < headers.len()
        invariant
            i <= headers@.len(),
            forall|j: int|
                0 <= j < i ==> ascii_lower(#[trigger] headers.deep_view()[j].0) != ascii_lower(
                    "content-type"@,
                ),
        decreases headers@.len() - i,
    {
        assert(headers.deep_view()[i as int].0 == headers@[i as int].0@);
        if eq_ignore_ascii_case(headers[i].0.as_str(), "content-type") {
            return true;
        }
        i = i + 1;
    }
    false
}

fn text_of(m: &NotificationMessage) -> (r: &str)
    ensures
        r@ == message_text(*m),
{
    match &m.custom_body {
        Some(b) => b.as_str(),
        None => m.body.as_str(),
    }
}

fn copy_pairs(v: &Vec<(String, String)>) -> (r: Vec<(String, String)>)
    ensures
        r.deep_view() == v.deep_view(),
{
    let mut r: Vec<(String, String)> = Vec::new();
    let mut i: usize = 0;
    while i < v.len()
        invariant
            i <= v@.len(),
            r.deep_view() =~= v.deep_view().take(i as int),
        decreases v@.len() - i,
    {
        push_pair(&mut r, v[i].0.as_str(), v[i].1.as_str());
        assert(v.deep_view().take(i + 1) =~= v.deep_view().take(i as int).push(
            (v@[i as int].0@, v@[i as int].1@),
        ));
        i = i + 1;
    }
    assert(v.deep_view().take(v@.len() as int) =~= v.deep_view());
    r
}

/// The method an upper-cased method name stands for.
pub fn method_from_upper(m: &str) -> (r: Option<HttpMethod>)
    ensures
        r == method_of_upper(m@),
{
    if str_eq(m, "GET") {
        Some(HttpMethod::Get)
    } else if str_eq(m, "POST") {
        Some(HttpMethod::Post)
    } else {
        None
    }
}

/// The request a webhook sends.
pub fn webhook_request(c: &WebhookConfig, m: &NotificationMessage) -> (r: Result<HttpRequest, NotifyError>)
    ensures
        request_result(r) == webhook_spec(*c, *m),
{
    let upper = to_uppercase(trim_str(c.http_method.as_str()));
    let method = match method_from_upper(upper.as_str()) {
        Some(m) => m,
        None => {
            return Err(invalid("invalid HTTP method".to_owned()));
        },
    };
    let body = text_of(m);
    let mut headers = copy_pairs(&c.headers);
    if method == HttpMethod::Post && !has_content_type(&c.headers) {
        if is_json(body) {
            push_pair(&mut headers, "Content-Type", "application/json; charset=utf-8");
        } else {
            push_pair(&mut headers, "Content-Type", "text/plain; charset=utf-8");
        }
    }
    if !is_blank_str(c.secret.as_str()) {
        let sig = hmac_hex(trim_str(c.secret.as_str()), body.as_bytes());
        push_pair(&mut headers, "X-Webhook-Signature", sig.as_str());
    }
    push_pair(&mut headers, "X-SimAdmin-Title", m.title.as_str());
    let request_body = if method == HttpMethod::Post {
        RequestBody::Text(body.to_owned())
    } else {
        RequestBody::Empty
    };
    let r = HttpRequest {
        method,
        url: trim_str(c.url.as_str()).to_owned(),
        query: Vec::new(),
        headers,
        body: request_body,
    };
    assert(r.query.deep_view() =~= Seq::<(Seq<char>, Seq<char>)>::empty());
    Ok(r)
}


/// The Bark payload: title and body, the optional fields that are set, the
/// copy fields when automatic copy is on, and whether to keep history.
pub open spec fn bark_fields(c: BarkConfig, m: NotificationMessage) -> Seq<(Seq<char>, JsonView)> {
    let f0 = seq![("title"@, JsonView::Str(m.title@)), ("body"@, JsonView::Str(m.body@))];
    let f1 = put_spec(
        put_spec(
            put_spec(put_spec(put_spec(f0, "group"@, c.group@), "sound"@, c.sound@), "level"@, c.level@),
            "icon"@,
            c.icon@,
        ),
        "url"@,
        c.click_url@,
    );
    let f2 = if c.auto_copy {
        f1.push(("automaticallyCopy"@, JsonView::Int(1))).push(
            (
                "copy"@,
                JsonView::Str(
                    if is_blank(c.copy@) {
                        m.body@
                    } else {
                        c.copy@
                    },
                ),
            ),
        )
    } else {
        f1
    };
    f2.push(("isArchive"@, JsonView::Int(if c.save_history { 1 } else { 0 })))
}

/// The server URL without surrounding whitespace or trailing slashes.
pub open spec fn base_url(s: Seq<char>) -> Seq<char> {
    trim_end_slashes(trim(s))
}

pub open spec fn bark_view(c: BarkConfig, m: NotificationMessage) -> HttpRequestView {
    post_json_view(
        base_url(c.server_url@) + "/"@ + url_component(c.device_key@),
        JsonView::Object(bark_fields(c, m)),
    )
}

fn base_url_str(s: &str) -> (r: &str)
    ensures
        r@ == base_url(s@),
{
    trim_end_slashes_str(trim_str(s))
}

/// The request a Bark channel sends.
pub fn bark_request(c: &BarkConfig, m: &NotificationMessage) -> (r: HttpRequest)
    ensures
        r.view() == bark_view(*c, *m),
{
    let head = concat_str(base_url_str(c.server_url.as_str()), "/");
    let key = encode(c.device_key.as_str());
    let url = concat_str(head.as_str(), key.as_str());
    let mut f: Vec<(String, Json)> = Vec::new();
    put_str(&mut f, "title", m.title.as_str());
    put_str(&mut f, "body", m.body.as_str());
    assert(fields_view(f@) =~= seq![("title"@, JsonView::Str(m.title@)), ("body"@, JsonView::Str(m.body@))]);
    put(&mut f, "group", c.group.as_str());
    put(&mut f, "sound", c.sound.as_str());
    put(&mut f, "level", c.level.as_str());
    put(&mut f, "icon", c.icon.as_str());
    put(&mut f, "url", c.click_url.as_str());
    if c.auto_copy {
        put_value(&mut f, "automaticallyCopy", Json::Int(1));
        if is_blank_str(c.copy.as_str()) {
            put_str(&mut f, "copy", m.body.as_str());
        } else {
            put_str(&mut f, "copy", c.copy.as_str());
        }
    }
    put_value(&mut f, "isArchive", Json::Int(if c.save_history { 1 } else { 0 }));
    post_json(url, Json::Object(f))
}

pub open spec fn pushplus_view(c: PushplusConfig, m: NotificationMessage) -> HttpRequestView {
    let f0 = seq![
        ("token"@, JsonView::Str(trim(c.token@))),
        ("title"@, JsonView::Str(m.title@)),
        ("content"@, JsonView::Str(m.body@)),
    ];
    let f = put_spec(
        put_spec(
            put_spec(put_spec(put_spec(f0, "topic"@, c.topic@), "template"@, c.template@), "channel"@, c.channel@),
            "option"@,
            c.option@,
        ),
        "callbackUrl"@,
        c.callback_url@,
    );
    post_json_view(
        if is_blank(c.api_url@) {
            "https://www.pushplus.plus/send"@
        } else {
            trim(c.api_url@)
        },
        JsonView::Object(f),
    )
}

/// The request a PushPlus channel sends.
pub fn pushplus_request(c: &PushplusConfig, m: &NotificationMessage) -> (r: HttpRequest)
    ensures
        r.view() == pushplus_view(*c, *m),
{
    let mut f: Vec<(String, Json)> = Vec::new();
    put_str(&mut f, "token", trim_str(c.token.as_str()));
    put_str(&mut f, "title", m.title.as_str());
    put_str(&mut f, "content", m.body.as_str());
    assert(fields_view(f@) =~= seq![
        ("token"@, JsonView::Str(trim(c.token@))),
        ("title"@, JsonView::Str(m.title@)),
        ("content"@, JsonView::Str(m.body@)),
    ]);
    put(&mut f, "topic", c.topic.as_str());
    put(&mut f, "template", c.template.as_str());
    put(&mut f, "channel", c.channel.as_str());
    put(&mut f, "option", c.option.as_str());
    put(&mut f, "callbackUrl", c.callback_url.as_str());
    let url = if is_blank_str(c.api_url.as_str()) {
        "https://www.pushplus.plus/send".to_owned()
    } else {
        trim_str(c.api_url.as_str()).to_owned()
    };
    post_json(url, Json::Object(f))
}

/// `{"msgtype": "text", "text": {"content": body}}`.
pub open spec fn text_message(body: Seq<char>) -> JsonView {
    JsonView::Object(
        seq![("msgtype"@, JsonView::Str("text"@)), ("text"@, one_member("content"@, body))],
    )
}

fn text_message_fields(body: &str) -> (r: Vec<(String, Json)>)
    ensures
        JsonView::Object(fields_view(r@)) == text_message(body@),
{
    let mut f: Vec<(String, Json)> = Vec::new();
    put_str(&mut f, "msgtype", "text");
    put_value(&mut f, "text", one_member_object("content", body));
    assert(fields_view(f@) =~= seq![
        ("msgtype"@, JsonView::Str("text"@)),
        ("text"@, one_member("content"@, body@)),
    ]);
    f
}

pub open spec fn request_on_url(
    url: Result<Seq<char>, Seq<char>>,
    payload: JsonView,
) -> Result<HttpRequestView, NotifyErrorView> {
    match url {
        Ok(u) => Ok(post_json_view(u, payload)),
        Err(m) => Err(NotifyErrorView::InvalidConfig(m)),
    }
}

pub open spec fn wecom_robot_url(c: WecomRobotConfig) -> Result<Seq<char>, Seq<char>> {
    robot_url_spec(c.webhook_url@, c.key@, "https://qyapi.weixin.qq.com/cgi-bin/webhook/send?key="@)
}

/// The request a WeCom robot channel sends.
pub fn wecom_robot_request(c: &WecomRobotConfig, m: &NotificationMessage) -> (r: Result<HttpRequest, NotifyError>)
    ensures
        request_result(r) == request_on_url(wecom_robot_url(*c), text_message(m.body@)),
{
    let url = robot_url(
        c.webhook_url.as_str(),
        c.key.as_str(),
        "https://qyapi.weixin.qq.com/cgi-bin/webhook/send?key=",
    )?;
    Ok(post_json(url, Json::Object(text_message_fields(m.body.as_str()))))
}

/// The DingTalk signature of a timestamp: Base64 of the HMAC-SHA256 of
/// `"<timestamp>\n<secret>"` under the secret.
pub open spec fn dingtalk_sign(secret: Seq<char>, timestamp: Seq<char>) -> Seq<char> {
    base64_std(spec_hmac_sha256(encode_utf8(secret), encode_utf8(timestamp + "\n"@ + secret)))
}

/// The DingTalk robot URL, signed with the millisecond timestamp when a
/// secret is set.
pub open spec fn dingtalk_robot_url(c: DingtalkRobotConfig, millis: u128) -> Result<Seq<char>, Seq<char>> {
    match robot_url_spec(c.webhook_url@, c.access_token@, "https://oapi.dingtalk.com/robot/send?access_token="@) {
        Ok(u) => Ok(
            if is_blank(c.secret@) {
                u
            } else {
                let ts = decimal(millis as nat);
                u + "&timestamp="@ + ts + "&sign="@ + url_component(dingtalk_sign(trim(c.secret@), ts))
            },
        ),
        Err(m) => Err(m),
    }
}

fn signed_dingtalk_url(c: &DingtalkRobotConfig, millis: u128) -> (r: Result<String, NotifyError>)
    ensures
        string_result(r) == invalid_result(dingtalk_robot_url(*c, millis)),
{
    let mut url = robot_url(
        c.webhook_url.as_str(),
        c.access_token.as_str(),
        "https://oapi.dingtalk.com/robot/send?access_token=",
    )?;
    if !is_blank_str(c.secret.as_str()) {
        let secret = trim_str(c.secret.as_str());
        let ts = u128_to_decimal(millis);
        let to_sign = concat_str(concat_str(ts.as_str(), "\n").as_str(), secret);
        let sign = hmac_base64(secret, to_sign.as_str().as_bytes());
        let enc = encode(sign.as_str());
        url.append("&timestamp=");
        url.append(ts.as_str());
        url.append("&sign=");
        url.append(enc.as_str());
    }
    Ok(url)
}

pub open spec fn dingtalk_robot_payload(c: DingtalkRobotConfig, m: NotificationMessage) -> JsonView {
    JsonView::Object(
        seq![
            ("msgtype"@, JsonView::Str("text"@)),
            ("text"@, one_member("content"@, m.body@)),
            (
                "at"@,
                JsonView::Object(
                    seq![
                        (
                            "atMobiles"@,
                            JsonView::Array(
                                list_items(c.at_mobiles@, seq![',', ';', '\n']).map_values(
                                    |s: Seq<char>| JsonView::Str(s),
                                ),
                            ),
                        ),
                        ("isAtAll"@, JsonView::Bool(c.at_all)),
                    ],
                ),
            ),
        ],
    )
}

/// The request a DingTalk robot channel sends.
pub fn dingtalk_robot_request(c: &DingtalkRobotConfig, m: &NotificationMessage, millis: u128) -> (r: Result<HttpRequest, NotifyError>)
    ensures
        request_result(r) == request_on_url(dingtalk_robot_url(*c, millis), dingtalk_robot_payload(*c, *m)),
{
    let url = signed_dingtalk_url(c, millis)?;
    let seps: [char; 3] = [',', ';', '\n'];
    let mobiles = split_list(c.at_mobiles.as_str(), &seps);
    assert(seps@ =~= seq![',', ';', '\n']);
    let mut at: Vec<(String, Json)> = Vec::new();
    put_value(&mut at, "atMobiles", json_str_array(&mobiles));
    put_value(&mut at, "isAtAll", Json::Bool(c.at_all));
    let ghost at_view = fields_view(at@);
    assert(at_view =~= seq![
        (
            "atMobiles"@,
            JsonView::Array(
                list_items(c.at_mobiles@, seq![',', ';', '\n']).map_values(
                    |s: Seq<char>| JsonView::Str(s),
                ),
            ),
        ),
        ("isAtAll"@, JsonView::Bool(c.at_all)),
    ]);
    let mut f: Vec<(String, Json)> = Vec::new();
    put_str(&mut f, "msgtype", "text");
    put_value(&mut f, "text", one_member_object("content", m.body.as_str()));
    put_value(&mut f, "at", Json::Object(at));
    assert(fields_view(f@) =~= seq![
        ("msgtype"@, JsonView::Str("text"@)),
        ("text"@, one_member("content"@, m.body@)),
        ("at"@, JsonView::Object(at_view)),
    ]);
    assert(dingtalk_robot_payload(*c, *m) =~~= JsonView::Object(fields_view(f@)));
    Ok(post_json(url, Json::Object(f)))
}


/// The Feishu signature of a timestamp: Base64 of the HMAC-SHA256 of the
/// empty message under `"<timestamp>\n<secret>"`.
pub open spec fn feishu_sign(secret: Seq<char>, timestamp: Seq<char>) -> Seq<char> {
    base64_std(spec_hmac_sha256(encode_utf8(timestamp + "\n"@ + secret), Seq::empty()))
}

/// The members Feishu adds to a payload when a secret is set.
pub open spec fn feishu_signature_fields(c: FeishuRobotConfig, seconds: u64) -> Seq<(Seq<char>, Seq<char>)> {
    if is_blank(c.secret@) {
        seq![]
    } else {
        let ts = decimal(seconds as nat);
        seq![("timestamp"@, ts), ("sign"@, feishu_sign(trim(c.secret@), ts))]
    }
}

fn feishu_signature(c: &FeishuRobotConfig, seconds: u64) -> (r: Vec<(String, String)>)
    ensures
        r.deep_view() == feishu_signature_fields(*c, seconds),
{
    let mut r: Vec<(String, String)> = Vec::new();
    if !is_blank_str(c.secret.as_str()) {
        let ts = u64_to_decimal(seconds);
        let key = concat_str(concat_str(ts.as_str(), "\n").as_str(), trim_str(c.secret.as_str()));
        let empty: [u8; 0] = [];
        let sign = hmac_base64(key.as_str(), &empty);
        assert(empty@ =~= Seq::<u8>::empty());
        push_pair(&mut r, "timestamp", ts.as_str());
        push_pair(&mut r, "sign", sign.as_str());
    }
    assert(r.deep_view() =~= feishu_signature_fields(*c, seconds));
    r
}

pub open spec fn feishu_url(c: FeishuRobotConfig) -> Result<Seq<char>, Seq<char>> {
    robot_url_spec(c.webhook_url@, c.token@, "https://open.feishu.cn/open-apis/bot/v2/hook/"@)
}

pub open spec fn string_members(extra: Seq<(Seq<char>, Seq<char>)>) -> Seq<(Seq<char>, JsonView)> {
    extra.map_values(|p: (Seq<char>, Seq<char>)| (p.0, JsonView::Str(p.1)))
}

pub open spec fn feishu_payload(c: FeishuRobotConfig, m: NotificationMessage, seconds: u64) -> JsonView {
    JsonView::Object(
        seq![("msg_type"@, JsonView::Str("text"@)), ("content"@, one_member("text"@, m.body@))]
            + string_members(feishu_signature_fields(c, seconds)),
    )
}

/// The request a Feishu robot channel sends.
pub fn feishu_request(c: &FeishuRobotConfig, m: &NotificationMessage, seconds: u64) -> (r: Result<HttpRequest, NotifyError>)
    ensures
        request_result(r) == request_on_url(feishu_url(*c), feishu_payload(*c, *m, seconds)),
{
    let url = robot_url(
        c.webhook_url.as_str(),
        c.token.as_str(),
        "https://open.feishu.cn/open-apis/bot/v2/hook/",
    )?;
    let mut f: Vec<(String, Json)> = Vec::new();
    put_str(&mut f, "msg_type", "text");
    put_value(&mut f, "content", one_member_object("text", m.body.as_str()));
    let ghost f0 = fields_view(f@);
    assert(f0 =~= seq![("msg_type"@, JsonView::Str("text"@)), ("content"@, one_member("text"@, m.body@))]);
    let sig = feishu_signature(c, seconds);
    let mut i: usize = 0;
    while i < sig.len()
        invariant
            i <= sig@.len(),
            fields_view(f@) =~= f0 + string_members(sig.deep_view().take(i as int)),
        decreases sig@.len() - i,
    {
        put_str(&mut f, sig[i].0.as_str(), sig[i].1.as_str());
        assert(sig.deep_view().take(i + 1) =~= sig.deep_view().take(i as int).push(
            (sig@[i as int].0@, sig@[i as int].1@),
        ));
        i = i + 1;
    }
    assert(sig.deep_view().take(sig@.len() as int) =~= sig.deep_view());
    Ok(post_json(url, Json::Object(f)))
}

pub open spec fn telegram_url(c: TelegramConfig) -> Seq<char> {
    base_url(c.api_base_url@) + "/bot"@ + trim(c.bot_token@) + "/sendMessage"@
}

fn telegram_url_string(c: &TelegramConfig) -> (r: String)
    ensures
        r@ == telegram_url(*c),
{
    let mut url = concat_str(base_url_str(c.api_base_url.as_str()), "/bot");
    url.append(trim_str(c.bot_token.as_str()));
    url.append("/sendMessage");
    url
}

pub open spec fn telegram_view(c: TelegramConfig, m: NotificationMessage) -> HttpRequestView {
    let f = seq![
        ("chat_id"@, JsonView::Str(trim(c.chat_id@))),
        ("text"@, JsonView::Str(m.body@)),
        ("disable_web_page_preview"@, JsonView::Bool(c.disable_web_page_preview)),
    ];
    post_json_view(telegram_url(c), JsonView::Object(put_spec(f, "parse_mode"@, c.parse_mode@)))
}

/// The request a Telegram channel sends.
pub fn telegram_request(c: &TelegramConfig, m: &NotificationMessage) -> (r: HttpRequest)
    ensures
        r.view() == telegram_view(*c, *m),
{
    let url = telegram_url_string(c);
    let mut f: Vec<(String, Json)> = Vec::new();
    put_str(&mut f, "chat_id", trim_str(c.chat_id.as_str()));
    put_str(&mut f, "text", m.body.as_str());
    put_value(&mut f, "disable_web_page_preview", Json::Bool(c.disable_web_page_preview));
    assert(fields_view(f@) =~= seq![
        ("chat_id"@, JsonView::Str(trim(c.chat_id@))),
        ("text"@, JsonView::Str(m.body@)),
        ("disable_web_page_preview"@, JsonView::Bool(c.disable_web_page_preview)),
    ]);
    put(&mut f, "parse_mode", c.parse_mode.as_str());
    post_json(url, Json::Object(f))
}


pub open spec fn is_ascii_digit(c: char) -> bool {
    '0' <= c <= '9'
}

/// How many ASCII digits `s` starts with.
pub open spec fn digit_prefix_len(s: Seq<char>) -> nat
    decreases s.len(),
{
    if s.len() > 0 && is_ascii_digit(s[0]) {
        1 + digit_prefix_len(s.drop_first())
    } else {
        0
    }
}

/// The ServerChan user id in a SendKey of the form `sctp<digits>t...`
/// (case-insensitive, surrounding whitespace ignored): the digits.
pub open spec fn serverchan_uid_spec(key: Seq<char>) -> Option<Seq<char>> {
    let l = ascii_lower(trim(key));
    if l.len() >= 4 && l[0] == 's' && l[1] == 'c' && l[2] == 't' && l[3] == 'p' {
        let rest = l.skip(4);
        let n = digit_prefix_len(rest);
        if n > 0 && n < rest.len() && rest[n as int] == 't' {
            Some(rest.take(n as int))
        } else {
            None
        }
    } else {
        None
    }
}

proof fn lemma_digit_prefix(s: Seq<char>, i: int)
    requires
        0 <= i <= s.len(),
        forall|j: int| 0 <= j < i ==> is_ascii_digit(#[trigger] s[j]),
    ensures
        digit_prefix_len(s) == i + digit_prefix_len(s.skip(i)),
    decreases i,
{
    if i > 0 {
        assert forall|j: int| 0 <= j < i - 1 implies is_ascii_digit(#[trigger] s.drop_first()[j]) by {
            assert(s.drop_first()[j] == s[j + 1]);
        }
        lemma_digit_prefix(s.drop_first(), i - 1);
        assert(s.drop_first().skip(i - 1) =~= s.skip(i));
    } else {
        assert(s.skip(0) =~= s);
    }
}

/// Reads the user id out of a ServerChan SendKey.
pub fn serverchan_uid(key: &str) -> (r: Option<String>)
    ensures
        match r {
            Some(u) => serverchan_uid_spec(key@) == Some(u@),
            None => serverchan_uid_spec(key@) is None,
        },
{
    let lower = crate::text::to_ascii_lowercase(trim_str(key));
    let l = lower.as_str();
    let n = l.unicode_len();
    if n < 4 || l.get_char(0) != 's' || l.get_char(1) != 'c' || l.get_char(2) != 't' || l.get_char(3) != 'p' {
        return None;
    }
    let ghost rest = l@.skip(4);
    let mut i: usize = 4;
    while i < n && '0' <= l.get_char(i) && l.get_char(i) <= '9'
        invariant
            n == l@.len(),
            4 <= i <= n,
            rest == l@.skip(4),
            forall|j: int| 0 <= j < i - 4 ==> is_ascii_digit(#[trigger] rest[j]),
        decreases n - i,
    {
        assert(rest[i - 4] == l@[i as int]);
        i = i + 1;
    }
    proof {
        lemma_digit_prefix(rest, i - 4);
        if i < n {
            assert(rest.skip(i - 4)[0] == l@[i as int]);
        }
    }
    if i == 4 || i >= n || l.get_char(i) != 't' {
        proof {
            if i < n {
                assert(rest[i - 4] == l@[i as int]);
            }
        }
        return None;
    }
    assert(rest[i - 4] == l@[i as int]);
    let digits = l.substring_char(4, i);
    assert(digits@ =~= rest.take(i - 4));
    Some(digits.to_owned())
}

proof fn lemma_trim_end_keeps(s: Seq<char>, i: int)
    requires
        0 <= i < s.len(),
        !crate::text::is_ws(s[i]),
    ensures
        trim_end(s).len() > i,
        trim_end(s) == s.take(trim_end(s).len() as int),
    decreases s.len(),
{
    crate::text::lemma_trim_end_prefix(s);
    if crate::text::is_ws(s.last()) {
        lemma_trim_end_keeps(s.drop_last(), i);
        crate::text::lemma_trim_end_prefix(s.drop_last());
        assert(s.drop_last().take(trim_end(s).len() as int) =~= s.take(trim_end(s).len() as int));
    } else {
        assert(s.take(s.len() as int) =~= s);
    }
}

proof fn lemma_digit_prefix_digits(s: Seq<char>)
    ensures
        digit_prefix_len(s) <= s.len(),
        forall|i: int| 0 <= i < digit_prefix_len(s) ==> is_ascii_digit(#[trigger] s[i]),
    decreases s.len(),
{
    if s.len() > 0 && is_ascii_digit(s[0]) {
        lemma_digit_prefix_digits(s.drop_first());
        assert forall|i: int| 0 <= i < digit_prefix_len(s) implies is_ascii_digit(#[trigger] s[i]) by {
            if i > 0 {
                assert(s[i] == s.drop_first()[i - 1]);
            }
        }
    }
}

/// A user id read from a SendKey is a non-empty run of digits, and the key,
/// trimmed and in lower case, starts with `sctp`, those digits and `t`.
pub proof fn lemma_serverchan_uid_form(key: Seq<char>)
    ensures
        serverchan_uid_spec(key) matches Some(u) ==> u.len() > 0 && (forall|i: int|
            0 <= i < u.len() ==> is_ascii_digit(#[trigger] u[i])) && ascii_lower(trim(key)).take(
            u.len() + 5int,
        ) == seq!['s', 'c', 't', 'p'] + u + seq!['t'],
{
    let l = ascii_lower(trim(key));
    if l.len() >= 4 && l[0] == 's' && l[1] == 'c' && l[2] == 't' && l[3] == 'p' {
        let rest = l.skip(4);
        lemma_digit_prefix_digits(rest);
        let n = digit_prefix_len(rest);
        if n > 0 && n < rest.len() && rest[n as int] == 't' {
            let u = rest.take(n as int);
            assert forall|i: int| 0 <= i < u.len() implies is_ascii_digit(#[trigger] u[i]) by {
                assert(u[i] == rest[i]);
            }
            assert(l.take(u.len() + 5int) =~= seq!['s', 'c', 't', 'p'] + u + seq!['t']);
        }
    }
}

/// A SendKey `sctp<digits>t<anything>` names the user `<digits>`.
pub proof fn lemma_serverchan_uid_of_send_key(digits: Seq<char>, rest: Seq<char>)
    requires
        digits.len() > 0,
        forall|i: int| 0 <= i < digits.len() ==> is_ascii_digit(#[trigger] digits[i]),
    ensures
        serverchan_uid_spec(seq!['s', 'c', 't', 'p'] + digits + seq!['t'] + rest) == Some(digits),
{
    let k = seq!['s', 'c', 't', 'p'] + digits + seq!['t'] + rest;
    let n: int = digits.len() as int;
    assert(crate::text::trim_start(k) == k);
    assert(k[4 + n] == 't');
    lemma_trim_end_keeps(k, 4 + n);
    let t = trim(k);
    assert(t == trim_end(k));
    assert(t.len() > 4 + n);
    crate::text::lemma_trim_end_prefix(k);
    assert(t == k.take(t.len() as int));
    assert forall|j: int| 0 <= j < t.len() implies t[j] == k[j] by {
        assert(k.take(t.len() as int)[j] == k[j]);
    }
    let l = ascii_lower(t);
    assert(l[0] == 's' && l[1] == 'c' && l[2] == 't' && l[3] == 'p') by {
        assert(t[0] == k[0] && t[1] == k[1] && t[2] == k[2] && t[3] == k[3]);
    }
    let r = l.skip(4);
    assert forall|i: int| 0 <= i < n implies is_ascii_digit(#[trigger] r[i]) && r[i] == digits[i] by {
        assert(t[4 + i] == k[4 + i]);
        assert(k[4 + i] == digits[i]);
    }
    assert(r[n] == 't') by {
        assert(t[4 + n] == k[4 + n]);
    }
    lemma_digit_prefix(r, n as int);
    assert(r.skip(n as int)[0] == 't');
    assert(digit_prefix_len(r.skip(n as int)) == 0);
    assert(r.take(n as int) =~= digits);
}

/// The ServerChan user id: the configured one, or else the one in the SendKey.
pub open spec fn serverchan_user(c: Serverchan3Config) -> Option<Seq<char>> {
    if !is_blank(c.uid@) {
        Some(trim(c.uid@))
    } else {
        serverchan_uid_spec(c.send_key@)
    }
}

pub open spec fn serverchan_url(c: Serverchan3Config, uid: Seq<char>) -> Seq<char> {
    if is_blank(c.api_url@) {
        "https://"@ + uid + ".push.ft07.com/send/"@ + url_component(c.send_key@) + ".send"@
    } else {
        trim(c.api_url@)
    }
}

pub open spec fn serverchan_form(c: Serverchan3Config, m: NotificationMessage) -> Seq<(Seq<char>, Seq<char>)> {
    let f0 = seq![("title"@, m.title@), ("desp"@, m.body@)];
    let f1 = if is_blank(c.channel@) {
        f0
    } else {
        f0.push(("channel"@, trim(c.channel@)))
    };
    if is_blank(c.openid@) {
        f1
    } else {
        f1.push(("group"@, trim(c.openid@)))
    }
}

pub open spec fn serverchan_spec(c: Serverchan3Config, m: NotificationMessage) -> Result<HttpRequestView, NotifyErrorView> {
    match serverchan_user(c) {
        Some(uid) => Ok(
            HttpRequestView {
                method: HttpMethod::Post,
                url: serverchan_url(c, uid),
                query: seq![],
                headers: seq![],
                body: RequestBodyView::Form(serverchan_form(c, m)),
            },
        ),
        None => Err(NotifyErrorView::InvalidConfig("ServerChan UID is required"@)),
    }
}

/// The request a ServerChan channel sends: a form post.
pub fn serverchan_request(c: &Serverchan3Config, m: &NotificationMessage) -> (r: Result<HttpRequest, NotifyError>)
    ensures
        request_result(r) == serverchan_spec(*c, *m),
{
    let uid = if !is_blank_str(c.uid.as_str()) {
        trim_str(c.uid.as_str()).to_owned()
    } else {
        match serverchan_uid(c.send_key.as_str()) {
            Some(u) => u,
            None => {
                return Err(invalid("ServerChan UID is required".to_owned()));
            },
        }
    };
    let url = if is_blank_str(c.api_url.as_str()) {
        let mut u = concat_str("https://", uid.as_str());
        u.append(".push.ft07.com/send/");
        let key = encode(c.send_key.as_str());
        u.append(key.as_str());
        u.append(".send");
        u
    } else {
        trim_str(c.api_url.as_str()).to_owned()
    };
    let mut form: Vec<(String, String)> = Vec::new();
    push_pair(&mut form, "title", m.title.as_str());
    push_pair(&mut form, "desp", m.body.as_str());
    assert(form.deep_view() =~= seq![("title"@, m.title@), ("desp"@, m.body@)]);
    if !is_blank_str(c.channel.as_str()) {
        push_pair(&mut form, "channel", trim_str(c.channel.as_str()));
    }
    if !is_blank_str(c.openid.as_str()) {
        push_pair(&mut form, "group", trim_str(c.openid.as_str()));
    }
    let r = HttpRequest {
        method: HttpMethod::Post,
        url,
        query: Vec::new(),
        headers: Vec::new(),
        body: RequestBody::Form(form),
    };
    assert(r.query.deep_view() =~= Seq::<(Seq<char>, Seq<char>)>::empty());
    assert(r.headers.deep_view() =~= Seq::<(Seq<char>, Seq<char>)>::empty());
    Ok(r)
}


pub open spec fn wecom_base(c: WecomAppConfig) -> Seq<char> {
    base_url(c.api_base_url@)
}

/// The WeCom access-token request: a `GET` with the corp id and secret.
pub open spec fn wecom_token_view(c: WecomAppConfig) -> HttpRequestView {
    HttpRequestView {
        method: HttpMethod::Get,
        url: wecom_base(c) + "/cgi-bin/gettoken"@,
        query: seq![("corpid"@, trim(c.corp_id@)), ("corpsecret"@, trim(c.secret@))],
        headers: seq![],
        body: RequestBodyView::Empty,
    }
}

pub fn wecom_token_request(c: &WecomAppConfig) -> (r: HttpRequest)
    ensures
        r.view() == wecom_token_view(*c),
{
    let url = concat_str(base_url_str(c.api_base_url.as_str()), "/cgi-bin/gettoken");
    let mut query: Vec<(String, String)> = Vec::new();
    push_pair(&mut query, "corpid", trim_str(c.corp_id.as_str()));
    push_pair(&mut query, "corpsecret", trim_str(c.secret.as_str()));
    assert(query.deep_view() =~= seq![("corpid"@, trim(c.corp_id@)), ("corpsecret"@, trim(c.secret@))]);
    let r = HttpRequest {
        method: HttpMethod::Get,
        url,
        query,
        headers: Vec::new(),
        body: RequestBody::Empty,
    };
    assert(r.headers.deep_view() =~= Seq::<(Seq<char>, Seq<char>)>::empty());
    r
}

pub open spec fn wecom_payload(c: WecomAppConfig, body: Seq<char>, agent_id: int) -> JsonView {
    JsonView::Object(
        seq![
            (
                "touser"@,
                JsonView::Str(
                    if is_blank(c.to_user@) {
                        "@all"@
                    } else {
                        trim(c.to_user@)
                    },
                ),
            ),
            ("toparty"@, JsonView::Str(trim(c.to_party@))),
            ("totag"@, JsonView::Str(trim(c.to_tag@))),
            ("msgtype"@, JsonView::Str("text"@)),
            ("agentid"@, JsonView::Int(agent_id)),
            ("text"@, one_member("content"@, body)),
            ("safe"@, JsonView::Int(if c.safe { 1 } else { 0 })),
        ],
    )
}

/// The WeCom message request sent with an access token; the agent id must
/// be a number.
pub open spec fn wecom_message_spec(c: WecomAppConfig, body: Seq<char>, token: Seq<char>) -> Result<HttpRequestView, NotifyErrorView> {
    match crate::text::parse_i64_spec(trim(c.agent_id@)) {
        Some(agent) => Ok(
            HttpRequestView {
                method: HttpMethod::Post,
                url: wecom_base(c) + "/cgi-bin/message/send"@,
                query: seq![("access_token"@, token)],
                headers: seq![],
                body: RequestBodyView::Json(wecom_payload(c, body, agent)),
            },
        ),
        None => Err(NotifyErrorView::InvalidConfig("WeCom agent_id must be numeric"@)),
    }
}

pub fn wecom_message_request(c: &WecomAppConfig, body: &str, token: &str) -> (r: Result<HttpRequest, NotifyError>)
    ensures
        request_result(r) == wecom_message_spec(*c, body@, token@),
{
    let agent = match crate::text::parse_i64(trim_str(c.agent_id.as_str())) {
        Some(a) => a,
        None => {
            return Err(invalid("WeCom agent_id must be numeric".to_owned()));
        },
    };
    let mut f: Vec<(String, Json)> = Vec::new();
    let to_user: &str = if is_blank_str(c.to_user.as_str()) {
        "@all"
    } else {
        trim_str(c.to_user.as_str())
    };
    put_str(&mut f, "touser", to_user);
    put_str(&mut f, "toparty", trim_str(c.to_party.as_str()));
    put_str(&mut f, "totag", trim_str(c.to_tag.as_str()));
    put_str(&mut f, "msgtype", "text");
    put_value(&mut f, "agentid", Json::Int(agent));
    put_value(&mut f, "text", one_member_object("content", body));
    put_value(&mut f, "safe", Json::Int(if c.safe { 1 } else { 0 }));
    assert(fields_view(f@) =~= seq![
        ("touser"@, JsonView::Str(to_user@)),
        ("toparty"@, JsonView::Str(trim(c.to_party@))),
        ("totag"@, JsonView::Str(trim(c.to_tag@))),
        ("msgtype"@, JsonView::Str("text"@)),
        ("agentid"@, JsonView::Int(agent as int)),
        ("text"@, one_member("content"@, body@)),
        ("safe"@, JsonView::Int(if c.safe { 1 } else { 0 })),
    ]);
    let url = concat_str(base_url_str(c.api_base_url.as_str()), "/cgi-bin/message/send");
    let mut query: Vec<(String, String)> = Vec::new();
    push_pair(&mut query, "access_token", token);
    assert(query.deep_view() =~= seq![("access_token"@, token@)]);
    let r = HttpRequest {
        method: HttpMethod::Post,
        url,
        query,
        headers: Vec::new(),
        body: RequestBody::Json(Json::Object(f)),
    };
    assert(r.headers.deep_view() =~= Seq::<(Seq<char>, Seq<char>)>::empty());
    Ok(r)
}

pub open spec fn dingtalk_base(c: DingtalkAppConfig) -> Seq<char> {
    if is_blank(c.api_base_url@) {
        "https://api.dingtalk.com"@
    } else {
        base_url(c.api_base_url@)
    }
}

fn dingtalk_base_string(c: &DingtalkAppConfig) -> (r: String)
    ensures
        r@ == dingtalk_base(*c),
{
    if is_blank_str(c.api_base_url.as_str()) {
        "https://api.dingtalk.com".to_owned()
    } else {
        base_url_str(c.api_base_url.as_str()).to_owned()
    }
}

/// The DingTalk access-token request: the app key and secret as JSON.
pub open spec fn dingtalk_token_view(c: DingtalkAppConfig) -> HttpRequestView {
    post_json_view(
        dingtalk_base(c) + "/v1.0/oauth2/accessToken"@,
        JsonView::Object(
            seq![
                ("appKey"@, JsonView::Str(trim(c.app_key@))),
                ("appSecret"@, JsonView::Str(trim(c.app_secret@))),
            ],
        ),
    )
}

pub fn dingtalk_token_request(c: &DingtalkAppConfig) -> (r: HttpRequest)
    ensures
        r.view() == dingtalk_token_view(*c),
{
    let base = dingtalk_base_string(c);
    let url = concat_str(base.as_str(), "/v1.0/oauth2/accessToken");
    let mut f: Vec<(String, Json)> = Vec::new();
    put_str(&mut f, "appKey", trim_str(c.app_key.as_str()));
    put_str(&mut f, "appSecret", trim_str(c.app_secret.as_str()));
    assert(fields_view(f@) =~= seq![
        ("appKey"@, JsonView::Str(trim(c.app_key@))),
        ("appSecret"@, JsonView::Str(trim(c.app_secret@))),
    ]);
    post_json(url, Json::Object(f))
}

/// `{"content": body}` written out as compact JSON text.
pub open spec fn content_param(body: Seq<char>) -> Seq<char> {
    "{\"content\":"@ + json_string_literal(body) + "}"@
}

pub open spec fn dingtalk_message_view(c: DingtalkAppConfig, body: Seq<char>, token: Seq<char>) -> HttpRequestView {
    HttpRequestView {
        method: HttpMethod::Post,
        url: dingtalk_base(c) + "/v1.0/robot/groupMessages/send"@,
        query: seq![],
        headers: seq![("x-acs-dingtalk-access-token"@, token)],
        body: RequestBodyView::Json(
            JsonView::Object(
                seq![
                    (
                        "robotCode"@,
                        JsonView::Str(
                            if is_blank(c.robot_code@) {
                                trim(c.app_key@)
                            } else {
                                trim(c.robot_code@)
                            },
                        ),
                    ),
                    ("openConversationId"@, JsonView::Str(trim(c.open_conversation_id@))),
                    (
                        "msgKey"@,
                        JsonView::Str(
                            if is_blank(c.msg_key@) {
                                "sampleText"@
                            } else {
                                trim(c.msg_key@)
                            },
                        ),
                    ),
                    ("msgParam"@, JsonView::Str(content_param(body))),
                ],
            ),
        ),
    }
}

/// The DingTalk group-message request sent with an access token.
pub fn dingtalk_message_request(c: &DingtalkAppConfig, body: &str, token: &str) -> (r: HttpRequest)
    ensures
        r.view() == dingtalk_message_view(*c, body@, token@),
{
    let base = dingtalk_base_string(c);
    let url = concat_str(base.as_str(), "/v1.0/robot/groupMessages/send");
    let mut f: Vec<(String, Json)> = Vec::new();
    let robot_code: &str = if is_blank_str(c.robot_code.as_str()) {
        trim_str(c.app_key.as_str())
    } else {
        trim_str(c.robot_code.as_str())
    };
    let msg_key: &str = if is_blank_str(c.msg_key.as_str()) {
        "sampleText"
    } else {
        trim_str(c.msg_key.as_str())
    };
    put_str(&mut f, "robotCode", robot_code);
    put_str(&mut f, "openConversationId", trim_str(c.open_conversation_id.as_str()));
    put_str(&mut f, "msgKey", msg_key);
    let quoted = json_quote(body);
    let param = concat_str(concat_str("{\"content\":", quoted.as_str()).as_str(), "}");
    put_str(&mut f, "msgParam", param.as_str());
    assert(fields_view(f@) =~= seq![
        ("robotCode"@, JsonView::Str(robot_code@)),
        ("openConversationId"@, JsonView::Str(trim(c.open_conversation_id@))),
        ("msgKey"@, JsonView::Str(msg_key@)),
        ("msgParam"@, JsonView::Str(content_param(body@))),
    ]);
    let mut headers: Vec<(String, String)> = Vec::new();
    push_pair(&mut headers, "x-acs-dingtalk-access-token", token);
    assert(headers.deep_view() =~= seq![("x-acs-dingtalk-access-token"@, token@)]);
    let r = HttpRequest {
        method: HttpMethod::Post,
        url,
        query: Vec::new(),
        headers,
        body: RequestBody::Json(Json::Object(f)),
    };
    assert(r.query.deep_view() =~= Seq::<(Seq<char>, Seq<char>)>::empty());
    assert(r.view() =~~= dingtalk_message_view(*c, body@, token@));
    r
}


pub open spec fn custom_on_url(url: Result<Seq<char>, Seq<char>>, text: Seq<char>) -> Result<HttpRequestView, NotifyErrorView> {
    match url {
        Ok(u) => Ok(post_json_text_view(u, text)),
        Err(m) => Err(NotifyErrorView::InvalidConfig(m)),
    }
}

/// A WeCom robot posts a custom JSON body, given as the text of its parsed
/// value.
pub fn wecom_robot_custom(c: &WecomRobotConfig, text: &str) -> (r: Result<HttpRequest, NotifyError>)
    ensures
        request_result(r) == custom_on_url(wecom_robot_url(*c), text@),
{
    let url = robot_url(
        c.webhook_url.as_str(),
        c.key.as_str(),
        "https://qyapi.weixin.qq.com/cgi-bin/webhook/send?key=",
    )?;
    Ok(post_json_text(url, text.to_owned()))
}

/// A DingTalk robot posts a custom JSON body to its (signed) URL.
pub fn dingtalk_robot_custom(c: &DingtalkRobotConfig, text: &str, millis: u128) -> (r: Result<HttpRequest, NotifyError>)
    ensures
        request_result(r) == custom_on_url(dingtalk_robot_url(*c, millis), text@),
{
    let url = signed_dingtalk_url(c, millis)?;
    Ok(post_json_text(url, text.to_owned()))
}

/// The JSON text a Feishu robot posts for a custom object: the object as it
/// was parsed, or, when a secret is set, with the `timestamp` and `sign`
/// string members set in it (in that order, as `Map::insert` sets them).
pub open spec fn feishu_custom_text(c: FeishuRobotConfig, d: JsonDocumentView, seconds: u64) -> Seq<char> {
    let x = feishu_signature_fields(c, seconds);
    if x.len() == 0 {
        d.canonical
    } else {
        object_text(
            put_sorted(
                put_sorted(d.member_texts, x[0].0, json_string_literal(x[0].1)),
                x[1].0,
                json_string_literal(x[1].1),
            ),
        )
    }
}

/// A Feishu robot posts a custom JSON object, signed when a secret is set;
/// a body that is not an object is refused.
pub open spec fn feishu_custom_spec(
    c: FeishuRobotConfig,
    d: JsonDocumentView,
    seconds: u64,
) -> Result<HttpRequestView, NotifyErrorView> {
    match feishu_url(c) {
        Ok(u) => if d.root == JsonKindView::Object {
            Ok(post_json_text_view(u, feishu_custom_text(c, d, seconds)))
        } else {
            Err(NotifyErrorView::InvalidConfig("Feishu custom body must be a JSON object"@))
        },
        Err(m) => Err(NotifyErrorView::InvalidConfig(m)),
    }
}

pub fn feishu_custom(c: &FeishuRobotConfig, d: &JsonDocument, seconds: u64) -> (r: Result<HttpRequest, NotifyError>)
    ensures
        request_result(r) == feishu_custom_spec(*c, d.view(), seconds),
{
    let url = robot_url(
        c.webhook_url.as_str(),
        c.token.as_str(),
        "https://open.feishu.cn/open-apis/bot/v2/hook/",
    )?;
    let is_object = match d.root {
        JsonKind::Object => true,
        _ => false,
    };
    if !is_object {
        return Err(invalid("Feishu custom body must be a JSON object".to_owned()));
    }
    let sig = feishu_signature(c, seconds);
    let body = if sig.len() == 0 {
        d.canonical.as_str().to_owned()
    } else {
        assert(sig.deep_view()[0] == (sig@[0].0@, sig@[0].1@));
        assert(sig.deep_view()[1] == (sig@[1].0@, sig@[1].1@));
        let texts = member_texts(d);
        let first = put_sorted_entry(&texts, sig[0].0.as_str(), json_quote(sig[0].1.as_str()).as_str());
        let both = put_sorted_entry(&first, sig[1].0.as_str(), json_quote(sig[1].1.as_str()).as_str());
        write_object(&both)
    };
    Ok(post_json_text(url, body))
}

/// Telegram posts a custom JSON body to its `sendMessage` URL.
pub fn telegram_custom(c: &TelegramConfig, text: &str) -> (r: HttpRequest)
    ensures
        r.view() == post_json_text_view(telegram_url(*c), text@),
{
    post_json_text(telegram_url_string(c), text.to_owned())
}

/// Bark posts a custom JSON body to its `/push` endpoint.
pub fn bark_custom(c: &BarkConfig, text: &str) -> (r: HttpRequest)
    ensures
        r.view() == post_json_text_view(base_url(c.server_url@) + "/push"@, text@),
{
    post_json_text(concat_str(base_url_str(c.server_url.as_str()), "/push"), text.to_owned())
}

} // verus!
