use vstd::prelude::*;

use crate::display::{split_words, words};
use crate::text::{byte_len, decimal_text, push_char, push_decimal};

verus! {

/// Whether two strings hold the same characters.
pub fn str_eq(a: &str, b: &str) -> (same: bool)
    ensures
        same == (a@ == b@),
{
    let n = a.unicode_len();
    if n != b.unicode_len() {
        return false;
    }
    let mut i: usize = 0;
    while i < n
        invariant
            n == a@.len(),
            n == b@.len(),
            i <= n,
            forall|j: int| 0 <= j < i ==> a@[j] == b@[j],
        decreases n - i,
    {
        if a.get_char(i) != b.get_char(i) {
            return false;
        }
        i = i + 1;
    }
    assert(a@ =~= b@);
    true
}

/// `s` holds the blank line `\r\n\r\n` at position `k`.
pub open spec fn blank_line_at(s: Seq<char>, k: int) -> bool {
    &&& 0 <= k
    &&& k + 4 <= s.len()
    &&& s[k] == '\r'
    &&& s[k + 1] == '\n'
    &&& s[k + 2] == '\r'
    &&& s[k + 3] == '\n'
}

/// The message does not hold the blank line before position `k`.
pub open spec fn no_blank_line_before(s: Seq<char>, k: int) -> bool {
    forall|j: int| 0 <= j < k ==> !blank_line_at(s, j)
}

/// Splits a raw HTTP request at its first blank line into head and body.
pub fn split_request(raw_request: &str) -> (parts: Result<(&str, &str), String>)
    ensures
        match parts {
            Ok((head, body)) => exists|k: int|
                blank_line_at(raw_request@, k) && no_blank_line_before(raw_request@, k) && head@
                    == raw_request@.subrange(0, k) && body@ == raw_request@.subrange(
                    k + 4,
                    raw_request@.len() as int,
                ),
            Err(e) => no_blank_line_before(raw_request@, raw_request@.len() as int) && e@
                == "invalid HTTP request: missing CRLF separator"@,
        },
{
    let n = raw_request.unicode_len();
    let mut k: usize = 0;
    while n >= 4 && k <= n - 4
        invariant
            n == raw_request@.len(),
            no_blank_line_before(raw_request@, k as int),
        decreases n - k,
    {
        if raw_request.get_char(k) == '\r' && raw_request.get_char(k + 1) == '\n'
            && raw_request.get_char(k + 2) == '\r' && raw_request.get_char(k + 3) == '\n' {
            let head = raw_request.substring_char(0, k);
            let body = raw_request.substring_char(k + 4, n);
            assert(blank_line_at(raw_request@, k as int));
            return Ok((head, body));
        }
        k = k + 1;
    }
    assert forall|j: int| 0 <= j < n implies !blank_line_at(raw_request@, j) by {
        if j >= k {
            assert(j + 4 > n);
        }
    }
    Err(String::from_str("invalid HTTP request: missing CRLF separator"))
}

/// The first line of `head` as `str::lines` yields it: up to the first
/// `\n`, without a trailing `\r`; `None` for an empty head.
pub open spec fn first_line(head: Seq<char>) -> Option<Seq<char>> {
    if head.len() == 0 {
        None
    } else {
        let end = if exists|i: int| 0 <= i < head.len() && head[i] == '\n' {
            choose|i: int| 0 <= i < head.len() && head[i] == '\n' && forall|j: int| 0 <= j < i ==> head[j] != '\n'
        } else {
            head.len() as int
        };
        let line = head.subrange(0, end);
        if line.len() > 0 && line.last() == '\r' {
            Some(line.drop_last())
        } else {
            Some(line)
        }
    }
}

/// The method and path of a request head, or why they are missing.
pub open spec fn request_target(head: Seq<char>) -> Result<(Seq<char>, Seq<char>), Seq<char>> {
    match first_line(head) {
        None => Err("missing HTTP request line"@),
        Some(line) => {
            let ws = words(line);
            if ws.len() == 0 {
                Err("missing HTTP method"@)
            } else if ws.len() == 1 {
                Err("missing HTTP path"@)
            } else {
                Ok((ws[0], ws[1]))
            }
        },
    }
}

/// Reads the method and path from the request line.
pub fn parse_request_line(head: &str) -> (target: Result<(String, String), String>)
    ensures
        match (target, request_target(head@)) {
            (Ok((m, p)), Ok((sm, sp))) => m@ == sm && p@ == sp,
            (Err(e), Err(se)) => e@ == se,
            _ => false,
        },
{
    let n = head.unicode_len();
    if n == 0 {
        return Err(String::from_str("missing HTTP request line"));
    }
    let mut end: usize = 0;
    while end < n && head.get_char(end) != '\n'
        invariant
            n == head@.len(),
            end <= n,
            forall|j: int| 0 <= j < end ==> head@[j] != '\n',
        decreases n - end,
    {
        end = end + 1;
    }
    proof {
        if exists|i: int| 0 <= i < head@.len() && head@[i] == '\n' {
            let c = choose|i: int|
                0 <= i < head@.len() && head@[i] == '\n' && forall|j: int| 0 <= j < i ==> head@[j] != '\n';
            assert(end < n);
            assert(c == end as int) by {
                if c < end {
                } else if c > end {
                }
            }
        }
    }
    let mut line_end = end;
    if end > 0 && head.get_char(end - 1) == '\r' {
        line_end = end - 1;
    }
    let line = head.substring_char(0, line_end);
    proof {
        let full = head@.subrange(0, end as int);
        if end > 0 && full.last() == '\r' {
            assert(line@ =~= full.drop_last());
        } else {
            assert(line@ =~= full);
        }
    }
    let ws = split_words(line);
    if ws.len() == 0 {
        return Err(String::from_str("missing HTTP method"));
    }
    if ws.len() == 1 {
        return Err(String::from_str("missing HTTP path"));
    }
    Ok((ws[0].clone(), ws[1].clone()))
}

/// A plain HTTP/1.1 response that closes the connection; the length counts
/// the body's bytes.
pub open spec fn response_text(status: Seq<char>, content_type: Seq<char>, body: Seq<char>) -> Seq<char> {
    "HTTP/1.1 "@ + status + "\r\nContent-Type: "@ + content_type + "\r\nContent-Length: "@
        + decimal_text(byte_len(body)) + "\r\nConnection: close\r\nCache-Control: no-store\r\n\r\n"@
        + body
}

pub fn text_response(status: &str, content_type: &str, body: &str) -> (response: String)
    ensures
        response@ == response_text(status@, content_type@, body@),
{
    let len = body.as_bytes().len();
    let mut r = String::from_str("HTTP/1.1 ");
    r.append(status);
    r.append("\r\nContent-Type: ");
    r.append(content_type);
    r.append("\r\nContent-Length: ");
    push_decimal(&mut r, len as u64);
    r.append("\r\nConnection: close\r\nCache-Control: no-store\r\n\r\n");
    r.append(body);
    assert(r@ =~= response_text(status@, content_type@, body@));
    r
}

pub fn html_response(body: &str) -> (response: String)
    ensures
        response@ == response_text("200 OK"@, "text/html; charset=utf-8"@, body@),
{
    text_response("200 OK", "text/html; charset=utf-8", body)
}

/// A 200 response carrying a JSON body.
pub fn json_text_response(body: &str) -> (response: String)
    ensures
        response@ == response_text("200 OK"@, "application/json; charset=utf-8"@, body@),
{
    text_response("200 OK", "application/json; charset=utf-8", body)
}

/// A character as it appears inside a JSON string literal here: a
/// backslash or a double quote gets a backslash in front.
pub open spec fn escaped_char(c: char) -> Seq<char> {
    if c == '\\' {
        seq!['\\', '\\']
    } else if c == '"' {
        seq!['\\', '"']
    } else {
        seq![c]
    }
}

pub open spec fn escaped(s: Seq<char>) -> Seq<char>
    decreases s.len(),
{
    if s.len() == 0 {
        Seq::empty()
    } else {
        escaped(s.drop_last()) + escaped_char(s.last())
    }
}

/// Escaping works character by character: escaping a concatenation
/// escapes each part, a backslash or a double quote gets a backslash in
/// front, and every other character is kept as it is.
pub proof fn lemma_escaping(a: Seq<char>, b: Seq<char>, c: char)
    ensures
        escaped(a + b) == escaped(a) + escaped(b),
        escaped(seq![c]) == if c == '\\' || c == '"' {
            seq!['\\', c]
        } else {
            seq![c]
        },
    decreases b.len(),
{
    assert(seq![c].drop_last() =~= Seq::<char>::empty());
    assert(escaped(Seq::<char>::empty()) + escaped_char(c) =~= escaped_char(c));
    if b.len() == 0 {
        assert(a + b =~= a);
        assert(escaped(a) + escaped(b) =~= escaped(a));
    } else {
        lemma_escaping(a, b.drop_last(), c);
        assert((a + b).drop_last() =~= a + b.drop_last());
        assert((a + b).last() == b.last());
        assert(escaped(a) + escaped(b.drop_last()) + escaped_char(b.last()) =~= escaped(a) + (escaped(
            b.drop_last(),
        ) + escaped_char(b.last())));
    }
}

/// Escapes backslashes and double quotes.
pub fn escape_json_string(input: &str) -> (out: String)
    ensures
        out@ == escaped(input@),
{
    let n = input.unicode_len();
    let mut out = String::new();
    let mut i: usize = 0;
    while i < n
        invariant
            n == input@.len(),
            i <= n,
            out@ == escaped(input@.take(i as int)),
        decreases n - i,
    {
        let c = input.get_char(i);
        proof {
            assert(input@.take(i + 1).drop_last() =~= input@.take(i as int));
        }
        if c == '\\' {
            push_char(&mut out, '\\');
            push_char(&mut out, '\\');
        } else if c == '"' {
            push_char(&mut out, '\\');
            push_char(&mut out, '"');
        } else {
            push_char(&mut out, c);
        }
        assert(out@ =~= escaped(input@.take(i + 1)));
        i = i + 1;
    }
    assert(input@.take(n as int) =~= input@);
    out
}

/// The 400 response for a request that failed: `{"error":"<escaped>"}`.
pub fn render_error_response(error: &str) -> (response: String)
    ensures
        response@ == response_text(
            "400 Bad Request"@,
            "application/json; charset=utf-8"@,
            "{\"error\":\""@ + escaped(error@) + "\"}"@,
        ),
{
    let mut body = String::from_str("{\"error\":\"");
    let esc = escape_json_string(error);
    body.append(esc.as_str());
    body.append("\"}");
    text_response("400 Bad Request", "application/json; charset=utf-8", body.as_str())
}

/// The bench panel's routes.
#[derive(Debug, Clone, Copy, PartialEq, Eq, Structural)]
pub enum Route {
    Index,
    Favicon,
    State,
    Heartbeat,
    RunTest,
    MotorAction,
    ArcadeDrive,
    Sensors,
    Gamepad,
    System,
    NotFound,
}

pub open spec fn route_for(method: Seq<char>, path: Seq<char>) -> Route {
    if method == "GET"@ && (path == "/"@ || path == "/index.html"@) {
        Route::Index
    } else if method == "GET"@ && path == "/favicon.ico"@ {
        Route::Favicon
    } else if method == "GET"@ && path == "/api/state"@ {
        Route::State
    } else if method == "POST"@ && path == "/api/heartbeat"@ {
        Route::Heartbeat
    } else if method == "POST"@ && path == "/api/tests/run"@ {
        Route::RunTest
    } else if method == "POST"@ && path == "/api/motors/action"@ {
        Route::MotorAction
    } else if method == "POST"@ && path == "/api/motors/arcade"@ {
        Route::ArcadeDrive
    } else if method == "POST"@ && path == "/api/sensors"@ {
        Route::Sensors
    } else if method == "POST"@ && path == "/api/gamepad"@ {
        Route::Gamepad
    } else if method == "POST"@ && path == "/api/system"@ {
        Route::System
    } else {
        Route::NotFound
    }
}

/// Which handler serves `method` and `path`.
pub fn route(method: &str, path: &str) -> (r: Route)
    ensures
        r == route_for(method@, path@),
{
    let get = str_eq(method, "GET");
    let post = str_eq(method, "POST");
    if get && (str_eq(path, "/") || str_eq(path, "/index.html")) {
        Route::Index
    } else if get && str_eq(path, "/favicon.ico") {
        Route::Favicon
    } else if get && str_eq(path, "/api/state") {
        Route::State
    } else if post && str_eq(path, "/api/heartbeat") {
        Route::Heartbeat
    } else if post && str_eq(path, "/api/tests/run") {
        Route::RunTest
    } else if post && str_eq(path, "/api/motors/action") {
        Route::MotorAction
    } else if post && str_eq(path, "/api/motors/arcade") {
        Route::ArcadeDrive
    } else if post && str_eq(path, "/api/sensors") {
        Route::Sensors
    } else if post && str_eq(path, "/api/gamepad") {
        Route::Gamepad
    } else if post && str_eq(path, "/api/system") {
        Route::System
    } else {
        Route::NotFound
    }
}

/// The response for a route that needs no state: the page, the icon, or
/// 404; `None` for the API routes.
pub fn static_response(r: Route, index_html: &str) -> (response: Option<String>)
    ensures
        r == Route::Index ==> response is Some && response->0@ == response_text("200 OK"@, "text/html; charset=utf-8"@, index_html@),
        r == Route::Favicon ==> response is Some && response->0@ == response_text(""@, "image/x-icon"@, ""@),
        r == Route::NotFound ==> response is Some && response->0@ == response_text(
            "404 Not Found"@,
            "text/plain; charset=utf-8"@,
            "route not found"@,
        ),
        r != Route::Index && r != Route::Favicon && r != Route::NotFound ==> response is None,
{
    match r {
        Route::Index => Some(html_response(index_html)),
        Route::Favicon => Some(text_response("", "image/x-icon", "")),
        Route::NotFound => Some(text_response("404 Not Found", "text/plain; charset=utf-8", "route not found")),
        _ => None,
    }
}

/// The route table: each handler is reached by exactly its own method and
/// path (GET for the page, the icon and the state; POST for the rest), and
/// every other request is not found.
pub proof fn lemma_route_table(method: Seq<char>, path: Seq<char>)
    ensures
        (route_for(method, path) == Route::Index) <==> (method == "GET"@ && (path == "/"@ || path
            == "/index.html"@)),
        (route_for(method, path) == Route::Favicon) <==> (method == "GET"@ && path == "/favicon.ico"@),
        (route_for(method, path) == Route::State) <==> (method == "GET"@ && path == "/api/state"@),
        (route_for(method, path) == Route::Heartbeat) <==> (method == "POST"@ && path == "/api/heartbeat"@),
        (route_for(method, path) == Route::RunTest) <==> (method == "POST"@ && path == "/api/tests/run"@),
        (route_for(method, path) == Route::MotorAction) <==> (method == "POST"@ && path
            == "/api/motors/action"@),
        (route_for(method, path) == Route::ArcadeDrive) <==> (method == "POST"@ && path
            == "/api/motors/arcade"@),
        (route_for(method, path) == Route::Sensors) <==> (method == "POST"@ && path == "/api/sensors"@),
        (route_for(method, path) == Route::Gamepad) <==> (method == "POST"@ && path == "/api/gamepad"@),
        (route_for(method, path) == Route::System) <==> (method == "POST"@ && path == "/api/system"@),
{
    reveal_strlit("GET");
    reveal_strlit("POST");
    reveal_strlit("/");
    reveal_strlit("/index.html");
    reveal_strlit("/favicon.ico");
    reveal_strlit("/api/state");
    reveal_strlit("/api/heartbeat");
    reveal_strlit("/api/tests/run");
    reveal_strlit("/api/motors/action");
    reveal_strlit("/api/motors/arcade");
    reveal_strlit("/api/sensors");
    reveal_strlit("/api/gamepad");
    reveal_strlit("/api/system");
    assert("GET"@.len() == 3 && "POST"@.len() == 4);
    assert("/"@.len() == 1 && "/index.html"@.len() == 11 && "/favicon.ico"@.len() == 12);
    assert("/api/state"@.len() == 10 && "/api/heartbeat"@.len() == 14 && "/api/tests/run"@.len() == 14);
    assert("/api/motors/action"@.len() == 18 && "/api/motors/arcade"@.len() == 18);
    assert("/api/sensors"@.len() == 12 && "/api/gamepad"@.len() == 12 && "/api/system"@.len() == 11);
    assert("/api/heartbeat"@[5] != "/api/tests/run"@[5]);
    assert("/api/motors/action"@[13] != "/api/motors/arcade"@[13]);
    assert("/favicon.ico"@[1] != "/api/sensors"@[1]);
    assert("/favicon.ico"@[1] != "/api/gamepad"@[1]);
    assert("/api/sensors"@[5] != "/api/gamepad"@[5]);
    assert("/index.html"@[1] != "/api/system"@[1]);
}

/// Requests that name no handler are not found: any method but GET and
/// POST, or a path outside the table.
pub proof fn lemma_route_not_found(method: Seq<char>, path: Seq<char>)
    requires
        method != "GET"@ && method != "POST"@ || (path != "/"@ && path != "/index.html"@ && path
            != "/favicon.ico"@ && path != "/api/state"@ && path != "/api/heartbeat"@ && path
            != "/api/tests/run"@ && path != "/api/motors/action"@ && path != "/api/motors/arcade"@
            && path != "/api/sensors"@ && path != "/api/gamepad"@ && path != "/api/system"@),
    ensures
        route_for(method, path) == Route::NotFound,
{
}

/// Head, blank line and body put back together give the request.
pub proof fn lemma_split_rejoins(s: Seq<char>, k: int)
    requires
        blank_line_at(s, k),
    ensures
        s.subrange(0, k) + seq!['\r', '\n', '\r', '\n'] + s.subrange(k + 4, s.len() as int) == s,
{
    assert(s.subrange(0, k) + seq!['\r', '\n', '\r', '\n'] + s.subrange(k + 4, s.len() as int) =~= s);
}

} // verus!
