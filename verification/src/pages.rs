//! The pages of the login helper, and the HTTP responses that carry them.
use std::path::PathBuf;
use vstd::prelude::*;
use vstd::string::*;

use crate::numbers;
use crate::paths;
use crate::text;

verus! {

/// The first page up to the login address.
pub const INDEX_HEAD: &'static str = r#"<!doctype html>
<html lang="zh-CN">
<head>
  <meta charset="utf-8">
  <meta name="viewport" content="width=device-width,initial-scale=1">
  <title>MIoT OAuth</title>
  <style>
    body { margin: 0; font-family: system-ui, -apple-system, BlinkMacSystemFont, "Segoe UI", sans-serif; background: #f6f7f9; color: #17202a; }
    main { min-height: 100vh; display: grid; place-items: center; padding: 24px; box-sizing: border-box; }
    section { width: min(760px, 100%); }
    h1 { margin: 0 0 14px; font-size: 28px; line-height: 1.2; }
    p { margin: 0 0 14px; line-height: 1.6; }
    a.button { display: inline-flex; align-items: center; justify-content: center; min-height: 42px; padding: 0 16px; border-radius: 6px; background: #1f6feb; color: #fff; text-decoration: none; font-weight: 650; }
    dl { display: grid; grid-template-columns: 150px 1fr; gap: 8px 12px; margin: 22px 0 0; }
    dt { color: #5f6b7a; }
    dd { margin: 0; overflow-wrap: anywhere; }
    code { padding: 2px 5px; background: #ffffff; border: 1px solid #d8dee4; border-radius: 5px; }
  </style>
</head>
<body>
  <main>
    <section>
      <h1>MIoT OAuth 首次授权</h1>
      <p>点击登录后完成小米账号授权。若跳转到 Miloco 官方 redirect 页面，把本地回调地址填进去并继续跳转。</p>
      <p><a class="button" href=""#;

/// Between the login address and the local address.
pub const INDEX_LOCAL: &'static str = r#"">打开小米 OAuth 登录</a></p>
      <dl>
        <dt>本地回调</dt><dd><code>"#;

/// Between the local address and the redirect address.
pub const INDEX_REDIRECT: &'static str = r#"</code></dd>
        <dt>OAuth redirect_uri</dt><dd><code>"#;

/// Between the redirect address and the installation.
pub const INDEX_UUID: &'static str = r#"</code></dd>
        <dt>OAuth uuid</dt><dd><code>"#;

/// The end of the first page.
pub const INDEX_TAIL: &'static str = r#"</code></dd>
      </dl>
    </section>
  </main>
</body>
</html>"#;

/// The page of success up to the token file.
pub const SUCCESS_HEAD: &'static str = r#"<!doctype html>
<html lang="zh-CN">
<head><meta charset="utf-8"><meta name="viewport" content="width=device-width,initial-scale=1"><title>MIoT OAuth 成功</title></head>
<body style="margin:0;font-family:system-ui,-apple-system,BlinkMacSystemFont,'Segoe UI',sans-serif;background:#f6f7f9;color:#17202a">
  <main style="min-height:100vh;display:grid;place-items:center;padding:24px;box-sizing:border-box">
    <section style="width:min(680px,100%)">
      <h1 style="margin:0 0 14px;font-size:28px">授权完成</h1>
      <p style="line-height:1.6">Token 已写入 <code>"#;

/// Between the token file and the expiry.
pub const SUCCESS_EXPIRY: &'static str = r#"</code>，后续 micam-rs 会自动 refresh。</p>
      <p style="line-height:1.6">expires_ts: <code>"#;

/// The end of the page of success.
pub const SUCCESS_TAIL: &'static str = r#"</code></p>
    </section>
  </main>
</body>
</html>"#;

/// The page of failure up to its title.
pub const ERROR_HEAD: &'static str = r#"<!doctype html>
<html lang="zh-CN">
<head><meta charset="utf-8"><meta name="viewport" content="width=device-width,initial-scale=1"><title>"#;

/// Between the title and the heading.
pub const ERROR_HEADING: &'static str = r#"</title></head>
<body style="margin:0;font-family:system-ui,-apple-system,BlinkMacSystemFont,'Segoe UI',sans-serif;background:#fff7f7;color:#2d1f1f">
  <main style="min-height:100vh;display:grid;place-items:center;padding:24px;box-sizing:border-box">
    <section style="width:min(760px,100%)">
      <h1 style="margin:0 0 14px;font-size:28px">"#;

/// Between the heading and the message.
pub const ERROR_MESSAGE: &'static str = r#"</h1>
      <p style="line-height:1.6;overflow-wrap:anywhere"><code>"#;

/// The end of the page of failure.
pub const ERROR_TAIL: &'static str = r#"</code></p>
    </section>
  </main>
</body>
</html>"#;

/// A character as HTML text writes it.
pub open spec fn escaped_char(c: char) -> Seq<char> {
    if c == '&' {
        "&amp;"@
    } else if c == '<' {
        "&lt;"@
    } else if c == '>' {
        "&gt;"@
    } else if c == '"' {
        "&quot;"@
    } else {
        seq![c]
    }
}

/// A text as HTML writes it.
pub open spec fn escaped(s: Seq<char>) -> Seq<char>
    decreases s.len(),
{
    if s.len() == 0 {
        seq![]
    } else {
        escaped_char(s[0]) + escaped(s.subrange(1, s.len() as int))
    }
}

/// Writes a text in HTML.
pub fn escape_html(value: &str) -> (r: String)
    ensures
        r@ == escaped(value@),
{
    let cs = text::chars_of(value);
    let mut out = String::new();
    let mut i: usize = 0;
    assert(value@.subrange(0, value@.len() as int) =~= value@);
    assert(out@ + escaped(value@) =~= escaped(value@));
    while i < cs.len()
        invariant
            cs@ == value@,
            i <= cs@.len(),
            out@ + escaped(value@.subrange(i as int, value@.len() as int)) == escaped(value@),
        decreases cs@.len() - i,
    {
        let c: char = cs[i];
        let ghost before = out@;
        let ghost rest = value@.subrange(i as int, value@.len() as int);
        let ghost after = value@.subrange(i + 1, value@.len() as int);
        if c == '&' {
            out.append("&amp;");
        } else if c == '<' {
            out.append("&lt;");
        } else if c == '>' {
            out.append("&gt;");
        } else if c == '"' {
            out.append("&quot;");
        } else {
            out.push(c);
        }
        proof {
            assert(out@ =~= before + escaped_char(c));
            assert(rest.subrange(1, rest.len() as int) =~= after);
            assert(before + (escaped_char(c) + escaped(after)) =~= out@ + escaped(after));
        }
        i = i + 1;
    }
    assert(out@ + escaped(value@.subrange(i as int, value@.len() as int)) =~= out@);
    out
}

proof fn lemma_escaped_char(c: char)
    ensures
        escaped_char(c).len() > 0,
        forall|i: int|
            0 <= i < escaped_char(c).len() ==> #[trigger] escaped_char(c)[i] != '<'
                && escaped_char(c)[i] != '>' && escaped_char(c)[i] != '"',
{
    reveal_strlit("&amp;");
    reveal_strlit("&lt;");
    reveal_strlit("&gt;");
    reveal_strlit("&quot;");
}

/// A text in HTML opens no tag and ends no attribute.
pub proof fn law_escaped_text_has_no_markup(s: Seq<char>)
    ensures
        forall|i: int|
            0 <= i < escaped(s).len() ==> #[trigger] escaped(s)[i] != '<' && escaped(s)[i] != '>'
                && escaped(s)[i] != '"',
    decreases s.len(),
{
    if s.len() > 0 {
        let front = escaped_char(s[0]);
        let back = escaped(s.subrange(1, s.len() as int));
        lemma_escaped_char(s[0]);
        law_escaped_text_has_no_markup(s.subrange(1, s.len() as int));
        assert forall|i: int| 0 <= i < escaped(s).len() implies #[trigger] escaped(s)[i] != '<'
            && escaped(s)[i] != '>' && escaped(s)[i] != '"' by {
            if i < front.len() {
                assert(escaped(s)[i] == front[i]);
            } else {
                assert(escaped(s)[i] == back[i - front.len()]);
            }
        }
    }
}

/// The first character can be told from what HTML writes.
proof fn lemma_first_char_shows(x: char, a: Seq<char>, y: char, b: Seq<char>)
    requires
        escaped_char(x) + a == escaped_char(y) + b,
    ensures
        x == y,
        a == b,
{
    reveal_strlit("&amp;");
    reveal_strlit("&lt;");
    reveal_strlit("&gt;");
    reveal_strlit("&quot;");
    let p = escaped_char(x);
    let q = escaped_char(y);
    let whole = p + a;
    assert(whole[0] == p[0] && whole[0] == q[0]);
    if p.len() > 1 && q.len() > 1 {
        assert(whole[1] == p[1] && whole[1] == q[1]);
    }
    assert(x == y);
    assert(a =~= whole.subrange(p.len() as int, whole.len() as int));
    assert(b =~= whole.subrange(p.len() as int, whole.len() as int));
}

/// Different texts are different in HTML: nothing is lost.
pub proof fn law_escaping_loses_nothing(a: Seq<char>, b: Seq<char>)
    requires
        escaped(a) == escaped(b),
    ensures
        a == b,
    decreases a.len(),
{
    if a.len() > 0 {
        lemma_escaped_char(a[0]);
    }
    if b.len() > 0 {
        lemma_escaped_char(b[0]);
    }
    if a.len() > 0 && b.len() > 0 {
        let rest_a = a.subrange(1, a.len() as int);
        let rest_b = b.subrange(1, b.len() as int);
        lemma_first_char_shows(a[0], escaped(rest_a), b[0], escaped(rest_b));
        law_escaping_loses_nothing(rest_a, rest_b);
        assert(a =~= seq![a[0]] + rest_a);
        assert(b =~= seq![b[0]] + rest_b);
    } else {
        assert(escaped(a).len() == 0);
        assert(a =~= b);
    }
}

/// The reason of a status.
pub open spec fn reason(status: u16) -> Seq<char> {
    if status == 200 {
        "OK"@
    } else if status == 400 {
        "Bad Request"@
    } else if status == 502 {
        "Bad Gateway"@
    } else {
        "Internal Server Error"@
    }
}

/// The response that carries a page. Its length is that of the page in bytes.
pub open spec fn response(status: u16, body: Seq<char>) -> Seq<char> {
    "HTTP/1.1 "@ + numbers::decimal(status as nat) + " "@ + reason(status)
        + "\r\ncontent-type: text/html; charset=utf-8\r\ncontent-length: "@ + numbers::decimal(
        vstd::utf8::encode_utf8(body).len(),
    ) + "\r\nconnection: close\r\n\r\n"@ + body
}

/// The response that carries a page.
pub fn html_response(status: u16, body: &str) -> (r: String)
    ensures
        r@ == response(status, body@),
{
    let reason = if status == 200 {
        "OK"
    } else if status == 400 {
        "Bad Request"
    } else if status == 502 {
        "Bad Gateway"
    } else {
        "Internal Server Error"
    };
    let length: usize = body.as_bytes().len();
    let mut out = "HTTP/1.1 ".to_owned();
    out.append(numbers::natural_text(status as u64).as_str());
    out.append(" ");
    out.append(reason);
    out.append("\r\ncontent-type: text/html; charset=utf-8\r\ncontent-length: ");
    out.append(numbers::natural_text(length as u64).as_str());
    out.append("\r\nconnection: close\r\n\r\n");
    out.append(body);
    out
}

/// The first page: where to log in, and what goes with the login.
pub open spec fn index_page(
    auth_url: Seq<char>,
    callback_url: Seq<char>,
    redirect_uri: Seq<char>,
    uuid: Seq<char>,
) -> Seq<char> {
    INDEX_HEAD@ + escaped(auth_url) + INDEX_LOCAL@ + escaped(callback_url) + INDEX_REDIRECT@
        + escaped(redirect_uri) + INDEX_UUID@ + escaped(uuid) + INDEX_TAIL@
}

/// The first page.
pub fn render_index(auth_url: &str, callback_url: &str, redirect_uri: &str, uuid: &str) -> (r:
    String)
    ensures
        r@ == index_page(auth_url@, callback_url@, redirect_uri@, uuid@),
{
    let mut out = INDEX_HEAD.to_owned();
    out.append(escape_html(auth_url).as_str());
    out.append(INDEX_LOCAL);
    out.append(escape_html(callback_url).as_str());
    out.append(INDEX_REDIRECT);
    out.append(escape_html(redirect_uri).as_str());
    out.append(INDEX_UUID);
    out.append(escape_html(uuid).as_str());
    out.append(INDEX_TAIL);
    out
}

/// The page of success: where the token is, and until when it holds.
pub open spec fn success_page(token_file: Option<PathBuf>, expires_ts: i64) -> Seq<char> {
    let shown = match token_file {
        Some(path) => paths::path_text(path),
        None => "not saved"@,
    };
    SUCCESS_HEAD@ + escaped(shown) + SUCCESS_EXPIRY@ + numbers::signed_decimal(expires_ts as int)
        + SUCCESS_TAIL@
}

/// The page of success.
pub fn render_success(token_file: &Option<PathBuf>, expires_ts: i64) -> (r: String)
    ensures
        r@ == success_page(*token_file, expires_ts),
{
    let shown = match token_file {
        Some(path) => paths::show_path(path),
        None => "not saved".to_owned(),
    };
    let mut out = SUCCESS_HEAD.to_owned();
    out.append(escape_html(shown.as_str()).as_str());
    out.append(SUCCESS_EXPIRY);
    out.append(numbers::integer_text(expires_ts).as_str());
    out.append(SUCCESS_TAIL);
    out
}

/// The page of failure.
pub open spec fn error_page(title: Seq<char>, message: Seq<char>) -> Seq<char> {
    ERROR_HEAD@ + escaped(title) + ERROR_HEADING@ + escaped(title) + ERROR_MESSAGE@ + escaped(
        message,
    ) + ERROR_TAIL@
}

/// The page of failure.
pub fn render_error(title: &str, message: &str) -> (r: String)
    ensures
        r@ == error_page(title@, message@),
{
    let title = escape_html(title);
    let mut out = ERROR_HEAD.to_owned();
    out.append(title.as_str());
    out.append(ERROR_HEADING);
    out.append(title.as_str());
    out.append(ERROR_MESSAGE);
    out.append(escape_html(message).as_str());
    out.append(ERROR_TAIL);
    out
}

/// Escaping goes character by character: that of two texts behind each other is that of each.
pub proof fn law_escaping_goes_by_character(a: Seq<char>, b: Seq<char>, c: char)
    ensures
        escaped(a + b) == escaped(a) + escaped(b),
        c != '&' && c != '<' && c != '>' && c != '"' ==> escaped(seq![c]) == seq![c],
        escaped(seq!['&']) == "&amp;"@,
        escaped(seq!['<']) == "&lt;"@,
        escaped(seq!['>']) == "&gt;"@,
        escaped(seq!['"']) == "&quot;"@,
    decreases a.len(),
{
    if a.len() > 0 {
        let rest = a.subrange(1, a.len() as int);
        law_escaping_goes_by_character(rest, b, c);
        assert((a + b)[0] == a[0]);
        assert((a + b).subrange(1, (a + b).len() as int) =~= rest + b);
        assert(escaped(a + b) =~= escaped(a) + escaped(b));
    } else {
        assert(a + b =~= b);
        assert(escaped(a) + escaped(b) =~= escaped(b));
    }
    lemma_escaped_single(c);
    lemma_escaped_single('&');
    lemma_escaped_single('<');
    lemma_escaped_single('>');
    lemma_escaped_single('"');
}

proof fn lemma_escaped_single(c: char)
    ensures
        escaped(seq![c]) == escaped_char(c),
{
    let s = seq![c];
    assert(s.subrange(1, 1) =~= seq![]);
    assert(escaped(s.subrange(1, 1)) =~= seq![]);
    assert(escaped(s) =~= escaped_char(c));
}

/// A response is a status line, three fields and the page, which it ends with; the length that it
/// tells is that of the page in UTF-8.
pub proof fn law_response_carries_the_page(status: u16, body: Seq<char>)
    ensures
        body.is_suffix_of(response(status, body)),
        response(status, body) == "HTTP/1.1 "@ + numbers::decimal(status as nat) + " "@ + reason(
            status,
        ) + "\r\ncontent-type: text/html; charset=utf-8\r\ncontent-length: "@ + numbers::decimal(
            vstd::utf8::encode_utf8(body).len(),
        ) + "\r\nconnection: close\r\n\r\n"@ + body,
{
    let n = response(status, body).len() - body.len();
    assert(response(status, body).subrange(n, response(status, body).len() as int) =~= body);
}

/// The reasons of the statuses that are sent; every other status counts as a fault of the server.
pub proof fn law_reasons(status: u16)
    ensures
        status == 200 ==> reason(status) == "OK"@,
        status == 400 ==> reason(status) == "Bad Request"@,
        status == 502 ==> reason(status) == "Bad Gateway"@,
        status != 200 && status != 400 && status != 502 ==> reason(status)
            == "Internal Server Error"@,
{
}

/// Two pages of the same kind differ only in what is told, which stands in them escaped and in this
/// order.
pub proof fn law_pages_hold_what_is_told(
    a: Seq<char>,
    b: Seq<char>,
    c: Seq<char>,
    d: Seq<char>,
    expires_ts: i64,
)
    ensures
        index_page(a, b, c, d) == INDEX_HEAD@ + escaped(a) + INDEX_LOCAL@ + escaped(b)
            + INDEX_REDIRECT@ + escaped(c) + INDEX_UUID@ + escaped(d) + INDEX_TAIL@,
        error_page(a, b) == ERROR_HEAD@ + escaped(a) + ERROR_HEADING@ + escaped(a)
            + ERROR_MESSAGE@ + escaped(b) + ERROR_TAIL@,
        success_page(None, expires_ts) == SUCCESS_HEAD@ + escaped("not saved"@) + SUCCESS_EXPIRY@
            + numbers::signed_decimal(expires_ts as int) + SUCCESS_TAIL@,
{
}

/// The page of success names the token file.
pub proof fn law_success_page_names_the_file(path: PathBuf, expires_ts: i64)
    ensures
        success_page(Some(path), expires_ts) == SUCCESS_HEAD@ + escaped(paths::path_text(path))
            + SUCCESS_EXPIRY@ + numbers::signed_decimal(expires_ts as int) + SUCCESS_TAIL@,
{
}

} // verus!
