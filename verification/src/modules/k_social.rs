//! The local web server that serves the social front end.
//!
//! The server answers a request for a file with the file, a request
//! under `/api` by handing it on to the social indexer, and a request
//! for a service worker with a stub, so that no stale worker keeps old
//! files alive. What a request asks for and how it is answered is
//! decided here; reading and writing are the caller's.

use crate::launcher::{
    candidate_views, no_candidates, place, push_candidate, Base, Candidate, CandidateView,
};
use crate::network::Network;
use crate::text::{
    ascii_lower, ascii_lower_chars, before_char, before_char_chars, chars_eq_str, chars_of,
    concat, decimal, eq_ignore_case, join, lines, lines_chars, no_pieces, nth_word,
    parse_decimal, parse_decimal_chars, push_number, push_piece, push_text, same_ignoring_case,
    slice_of, split_on, split_on_chars, split_once, split_once_chars, starts_with,
    starts_with_str, string_of, strip_start,
    strip_start_chars, texts, trim, trim_chars, words, words_chars, CharClass,
};
use std::collections::VecDeque;
use vstd::prelude::*;
use vstd::string::StringExecFns;

verus! {

/// The address on which the server listens.
pub const K_HOST: &'static str = "127.0.0.1";

/// The port on which the server listens.
pub const DEFAULT_K_PORT: u16 = 51964;

/// Most lines that the view keeps of what it did.
pub const MAX_LOG_LINES: usize = 200;

// ---------------------------------------------------------------------------
// The view's own log
// ---------------------------------------------------------------------------

/// The lines after `line` was added: the newest [`MAX_LOG_LINES`] of
/// them.
pub open spec fn logged(lines: Seq<String>, line: String) -> Seq<String> {
    let all = lines.push(line);
    if all.len() > MAX_LOG_LINES {
        all.skip(all.len() - MAX_LOG_LINES)
    } else {
        all
    }
}

/// Adds a line to the view's log and drops the oldest lines beyond
/// [`MAX_LOG_LINES`].
pub fn push_log(logs: &mut VecDeque<String>, message: String)
    ensures
        final(logs)@ == logged(old(logs)@, message),
{
    logs.push_back(message);
    let ghost all = logs@;
    assert(all.skip(0) =~= all);
    while logs.len() > MAX_LOG_LINES
        invariant
            all == old(logs)@.push(message),
            logs@.len() <= all.len(),
            logs@ == all.skip(all.len() - logs@.len()),
            all.len() > MAX_LOG_LINES ==> logs@.len() >= MAX_LOG_LINES,
            all.len() <= MAX_LOG_LINES ==> logs@.len() == all.len(),
        decreases logs.len(),
    {
        let _ = logs.pop_front();
        assert(logs@ =~= all.skip(all.len() - logs@.len()));
    }
}

// ---------------------------------------------------------------------------
// The front end's settings
// ---------------------------------------------------------------------------

/// An address of the node as the front end takes it: a web socket
/// address.
pub open spec fn k_node_url(url: Seq<char>) -> Seq<char> {
    if starts_with(url, "wrpcs://"@) {
        concat(seq!["wss://"@, url.skip(8)])
    } else if starts_with(url, "wrpc://"@) {
        concat(seq!["ws://"@, url.skip(7)])
    } else if starts_with(url, "ws://"@) || starts_with(url, "wss://"@) {
        concat(seq![url])
    } else {
        concat(seq!["ws://"@, url])
    }
}

pub fn normalize_k_node_url(url: String) -> (r: String)
    ensures
        r@ == k_node_url(url@),
{
    let v = chars_of(url.as_str());
    let mut p = no_pieces();
    proof {
        reveal_strlit("wrpcs://");
        reveal_strlit("wrpc://");
    }
    if starts_with_str(&v, "wrpcs://") {
        let rest = slice_of(&v, 8, v.len());
        assert(rest@ == v@.skip(8));
        push_text(&mut p, "wss://");
        push_piece(&mut p, &rest);
        assert(texts(p@) =~= seq!["wss://"@, v@.skip(8)]);
    } else if starts_with_str(&v, "wrpc://") {
        let rest = slice_of(&v, 7, v.len());
        assert(rest@ == v@.skip(7));
        push_text(&mut p, "ws://");
        push_piece(&mut p, &rest);
        assert(texts(p@) =~= seq!["ws://"@, v@.skip(7)]);
    } else if starts_with_str(&v, "ws://") || starts_with_str(&v, "wss://") {
        push_piece(&mut p, &v);
        assert(texts(p@) =~= seq![v@]);
    } else {
        push_text(&mut p, "ws://");
        push_piece(&mut p, &v);
        assert(texts(p@) =~= seq!["ws://"@, v@]);
    }
    join(&p)
}

/// The name under which the front end knows a network. It knows one
/// test network only.
pub open spec fn k_network(network: Network) -> Seq<char> {
    match network {
        Network::Mainnet => "mainnet"@,
        _ => "testnet-10"@,
    }
}

/// The address under which the front end reaches the social indexer:
/// through this server.
pub open spec fn proxy_api_url() -> Seq<char> {
    concat(seq!["http://127.0.0.1:"@, decimal(DEFAULT_K_PORT as nat), "/api"@])
}

/// The script that tells the front end where the indexer and the node
/// are.
pub open spec fn config_script(network: Network, kaspa_node_url: Seq<char>) -> Seq<char> {
    concat(
        seq![
            "\n(() => {\n  try {\n    const key = \"kaspa_user_settings\";\n    const current = localStorage.getItem(key);\n    const parsed = current ? JSON.parse(current) : {};\n    parsed.indexerType = \"custom\";\n    parsed.customIndexerUrl = \""@,
            proxy_api_url(),
            "\";\n    parsed.kaspaConnectionType = \"custom-node\";\n    parsed.customKaspaNodeUrl = \""@,
            kaspa_node_url,
            "\";\n    parsed.selectedNetwork = \""@,
            k_network(network),
            "\";\n    localStorage.setItem(key, JSON.stringify(parsed));\n    window.__KASPA_NG_K_CONFIG = {\n      apiBaseUrl: \""@,
            proxy_api_url(),
            "\",\n      kaspaNodeUrl: \""@,
            kaspa_node_url,
            "\",\n      network: \""@,
            k_network(network),
            "\"\n    };\n  } catch (_) {}\n})();\n"@,
        ],
    )
}

fn proxy_url() -> (r: String)
    ensures
        r@ == proxy_api_url(),
{
    let mut p = no_pieces();
    push_text(&mut p, "http://127.0.0.1:");
    push_number(&mut p, DEFAULT_K_PORT as u64);
    push_text(&mut p, "/api");
    assert(texts(p@) =~= seq!["http://127.0.0.1:"@, decimal(DEFAULT_K_PORT as nat), "/api"@]);
    join(&p)
}

/// The script that tells the front end where the indexer and the node
/// are. The front end reaches the indexer through this server, whatever
/// the indexer's own address is.
pub fn k_runtime_config_script(
    _indexer_host: &str,
    _indexer_port: u16,
    network: Network,
    kaspa_node_url: &str,
) -> (r: String)
    ensures
        r@ == config_script(network, kaspa_node_url@),
{
    let net = match network {
        Network::Mainnet => "mainnet",
        Network::Testnet10 => "testnet-10",
        Network::Testnet12 => "testnet-10",
    };
    let api = proxy_url();
    let mut p = no_pieces();
    push_text(
        &mut p,
        "\n(() => {\n  try {\n    const key = \"kaspa_user_settings\";\n    const current = localStorage.getItem(key);\n    const parsed = current ? JSON.parse(current) : {};\n    parsed.indexerType = \"custom\";\n    parsed.customIndexerUrl = \"",
    );
    push_text(&mut p, api.as_str());
    push_text(
        &mut p,
        "\";\n    parsed.kaspaConnectionType = \"custom-node\";\n    parsed.customKaspaNodeUrl = \"",
    );
    push_text(&mut p, kaspa_node_url);
    push_text(&mut p, "\";\n    parsed.selectedNetwork = \"");
    push_text(&mut p, net);
    push_text(
        &mut p,
        "\";\n    localStorage.setItem(key, JSON.stringify(parsed));\n    window.__KASPA_NG_K_CONFIG = {\n      apiBaseUrl: \"",
    );
    push_text(&mut p, api.as_str());
    push_text(&mut p, "\",\n      kaspaNodeUrl: \"");
    push_text(&mut p, kaspa_node_url);
    push_text(&mut p, "\",\n      network: \"");
    push_text(&mut p, net);
    push_text(&mut p, "\"\n    };\n  } catch (_) {}\n})();\n");
    assert(texts(p@) =~= seq![
        "\n(() => {\n  try {\n    const key = \"kaspa_user_settings\";\n    const current = localStorage.getItem(key);\n    const parsed = current ? JSON.parse(current) : {};\n    parsed.indexerType = \"custom\";\n    parsed.customIndexerUrl = \""@,
        proxy_api_url(),
        "\";\n    parsed.kaspaConnectionType = \"custom-node\";\n    parsed.customKaspaNodeUrl = \""@,
        kaspa_node_url@,
        "\";\n    parsed.selectedNetwork = \""@,
        k_network(network),
        "\";\n    localStorage.setItem(key, JSON.stringify(parsed));\n    window.__KASPA_NG_K_CONFIG = {\n      apiBaseUrl: \""@,
        proxy_api_url(),
        "\",\n      kaspaNodeUrl: \""@,
        kaspa_node_url@,
        "\",\n      network: \""@,
        k_network(network),
        "\"\n    };\n  } catch (_) {}\n})();\n"@,
    ]);
    join(&p)
}

// ---------------------------------------------------------------------------
// Reading a request
// ---------------------------------------------------------------------------

/// The value of the first header of the given name among the lines: what
/// follows the first colon of the line, without the white space around
/// it. The name is matched without regard to case.
pub open spec fn header_value(all: Seq<Seq<char>>, name: Seq<char>) -> Option<Seq<char>>
    decreases all.len(),
{
    if all.len() == 0 {
        None
    } else {
        match split_once(all[0], ':') {
            Some((n, v)) => if same_ignoring_case(trim(n), name) {
                Some(trim(v))
            } else {
                header_value(all.skip(1), name)
            },
            None => header_value(all.skip(1), name),
        }
    }
}

fn find_header(all: &Vec<Vec<char>>, name: &str) -> (r: Option<Vec<char>>)
    ensures
        match r {
            Some(v) => header_value(texts(all@), name@) == Some(v@),
            None => header_value(texts(all@), name@) is None,
        },
{
    let ghost lines = texts(all@);
    let mut i: usize = 0;
    assert(lines.skip(0) =~= lines);
    while i < all.len()
        invariant
            i <= all.len(),
            lines == texts(all@),
            header_value(lines, name@) == header_value(lines.skip(i as int), name@),
        decreases all.len() - i,
    {
        proof {
            assert(lines.skip(i as int)[0] == all@[i as int]@);
            assert(lines.skip(i as int).skip(1) =~= lines.skip(i + 1));
        }
        if let Some(pair) = split_once_chars(&all[i], ':') {
            if eq_ignore_case(&trim_chars(&pair.0), name) {
                return Some(trim_chars(&pair.1));
            }
        }
        i = i + 1;
    }
    None
}

/// A request as far as the server reads it.
#[derive(Clone, Debug, PartialEq, Eq)]
pub struct Request {
    /// The method; empty where the request names none.
    pub method: String,
    /// The path with its query; `/` where the request names none.
    pub path: String,
    /// The path without its query.
    pub normalized: String,
    /// Whether the connection is kept open after the answer.
    pub keep_alive: bool,
    /// The value of the `Range` header.
    pub range: Option<String>,
}

pub ghost struct RequestView {
    pub method: Seq<char>,
    pub path: Seq<char>,
    pub normalized: Seq<char>,
    pub keep_alive: bool,
    pub range: Option<Seq<char>>,
}

impl View for Request {
    type V = RequestView;

    open spec fn view(&self) -> RequestView {
        RequestView {
            method: self.method@,
            path: self.path@,
            normalized: self.normalized@,
            keep_alive: self.keep_alive,
            range: match self.range {
                Some(r) => Some(r@),
                None => None,
            },
        }
    }
}

/// The first line of a text; empty where it has none.
pub open spec fn first_line(text: Seq<char>) -> Seq<char> {
    if lines(text).len() > 0 {
        lines(text)[0]
    } else {
        Seq::empty()
    }
}

/// Whether the connection is kept open: under HTTP/1.0 only where the
/// request asks for it, otherwise unless the request asks to close it.
pub open spec fn keeps_alive(version: Seq<char>, connection: Option<Seq<char>>) -> bool {
    let asked = match connection {
        Some(c) => Some(ascii_lower(c)),
        None => None,
    };
    if same_ignoring_case(version, "HTTP/1.0"@) {
        asked == Some("keep-alive"@)
    } else {
        asked != Some("close"@)
    }
}

/// What the server reads of a request.
pub open spec fn request_of(text: Seq<char>) -> RequestView {
    let line = first_line(text);
    let path = match nth_word(line, 1) {
        Some(p) => p,
        None => "/"@,
    };
    RequestView {
        method: match nth_word(line, 0) {
            Some(m) => m,
            None => Seq::empty(),
        },
        path,
        normalized: before_char(path, '?'),
        keep_alive: keeps_alive(
            match nth_word(line, 2) {
                Some(v) => v,
                None => "HTTP/1.1"@,
            },
            header_value(lines(text), "connection"@),
        ),
        range: header_value(lines(text), "range"@),
    }
}

fn word_or(ws: &Vec<Vec<char>>, n: usize, default: &str) -> (r: Vec<char>)
    ensures
        r@ == if n < ws.len() {
            ws@[n as int]@
        } else {
            default@
        },
{
    if n < ws.len() {
        let r = slice_of(&ws[n], 0, ws[n].len());
        assert(r@ == ws@[n as int]@);
        r
    } else {
        chars_of(default)
    }
}

/// Reads a request.
pub fn parse_request(text: &str) -> (r: Request)
    ensures
        r@ == request_of(text@),
{
    let v = chars_of(text);
    let all = lines_chars(&v);
    let line = if all.len() > 0 {
        assert(texts(all@)[0] == all@[0]@);
        let l = slice_of(&all[0], 0, all[0].len());
        assert(l@ == all@[0]@);
        l
    } else {
        Vec::new()
    };
    assert(line@ == first_line(text@));
    let ws = words_chars(&line);
    proof {
        reveal_strlit("");
    }
    let method = word_or(&ws, 0, "");
    let path = word_or(&ws, 1, "/");
    let version = word_or(&ws, 2, "HTTP/1.1");
    proof {
        if 0 < ws.len() {
            assert(ws@[0]@ == words(line@)[0]);
        }
        if 1 < ws.len() {
            assert(ws@[1]@ == words(line@)[1]);
        }
        if 2 < ws.len() {
            assert(ws@[2]@ == words(line@)[2]);
        }
        assert(method@ == request_of(text@).method);
        assert(path@ == request_of(text@).path);
    }
    let connection = find_header(&all, "connection");
    let asked = match connection {
        Some(c) => Some(ascii_lower_chars(&c)),
        None => None,
    };
    let keep_alive = if eq_ignore_case(&version, "HTTP/1.0") {
        match &asked {
            Some(c) => chars_eq_str(c, "keep-alive"),
            None => false,
        }
    } else {
        match &asked {
            Some(c) => !chars_eq_str(c, "close"),
            None => true,
        }
    };
    let range = match find_header(&all, "range") {
        Some(r) => Some(string_of(&r)),
        None => None,
    };
    let normalized = before_char_chars(&path, '?');
    assert(keep_alive == request_of(text@).keep_alive);
    Request {
        method: string_of(&method),
        path: string_of(&path),
        normalized: string_of(&normalized),
        keep_alive,
        range,
    }
}

/// What a request asks for.
#[derive(Clone, Copy, Debug, PartialEq, Eq, Structural)]
pub enum Route {
    /// The script that registers a service worker: answered with a stub.
    ServiceWorkerStub,
    /// A service worker or its helpers: answered as not found.
    ServiceWorkerGone,
    /// The social indexer: handed on.
    Api,
    /// A file of the front end.
    File,
}

/// What the path of a request, without its query, asks for.
pub open spec fn route_of(normalized: Seq<char>) -> Route {
    if normalized == "/registerSW.js"@ {
        Route::ServiceWorkerStub
    } else if normalized == "/sw.js"@ || starts_with(normalized, "/workbox-"@) {
        Route::ServiceWorkerGone
    } else if normalized == "/api"@ || starts_with(normalized, "/api/"@) {
        Route::Api
    } else {
        Route::File
    }
}

pub fn route(normalized: &str) -> (r: Route)
    ensures
        r == route_of(normalized@),
{
    let v = chars_of(normalized);
    if chars_eq_str(&v, "/registerSW.js") {
        Route::ServiceWorkerStub
    } else if chars_eq_str(&v, "/sw.js") || starts_with_str(&v, "/workbox-") {
        Route::ServiceWorkerGone
    } else if chars_eq_str(&v, "/api") || starts_with_str(&v, "/api/") {
        Route::Api
    } else {
        Route::File
    }
}

/// The file that a path asks for, relative to the root: the path without
/// the slashes before it, or `index.html` where nothing is left.
pub open spec fn relative_file(normalized: Seq<char>) -> Seq<char> {
    let rest = strip_start(normalized, CharClass::Only('/'));
    if rest.len() == 0 {
        "index.html"@
    } else {
        rest
    }
}

pub fn file_for(normalized: &str) -> (r: String)
    ensures
        r@ == relative_file(normalized@),
{
    let rest = strip_start_chars(&chars_of(normalized), CharClass::Only('/'));
    if rest.len() == 0 {
        String::from_str("index.html")
    } else {
        string_of(&rest)
    }
}

/// Whether a part of a path names nothing: it is empty or a single dot.
pub open spec fn is_skipped(part: Seq<char>) -> bool {
    part.len() == 0 || part == "."@
}

/// The last of the parts that names something.
pub open spec fn last_kept(parts: Seq<Seq<char>>) -> Option<Seq<char>>
    decreases parts.len(),
{
    if parts.len() == 0 {
        None
    } else if is_skipped(parts.last()) {
        last_kept(parts.drop_last())
    } else {
        Some(parts.last())
    }
}

/// The name of the file that a path ends in, the path taken as parts
/// with slashes between them: its last part that is neither empty nor a
/// single dot. A path that ends in two dots names no file.
pub open spec fn asset_name(relative: Seq<char>) -> Option<Seq<char>> {
    match last_kept(split_on(relative, '/')) {
        Some(part) => if part == ".."@ {
            None
        } else {
            Some(part)
        },
        None => None,
    }
}

/// The name under which a file that is not found where the path says is
/// looked for in the root itself: pages below the root name the files of
/// the root by their own paths.
pub fn root_asset_name(relative: &str) -> (r: Option<String>)
    ensures
        match r {
            Some(name) => asset_name(relative@) == Some(name@),
            None => asset_name(relative@) is None,
        },
{
    let parts = split_on_chars(&chars_of(relative), '/');
    let ghost all = split_on(relative@, '/');
    let mut i: usize = parts.len();
    assert(all.take(parts.len() as int) =~= all);
    while i > 0
        invariant
            i <= parts.len(),
            all == texts(parts@),
            all == split_on(relative@, '/'),
            last_kept(all) == last_kept(all.take(i as int)),
        decreases i,
    {
        let part = &parts[i - 1];
        proof {
            let head = all.take(i as int);
            assert(head.last() == part@);
            assert(head.drop_last() =~= all.take(i - 1));
        }
        if part.len() == 0 || chars_eq_str(part, ".") {
            i = i - 1;
        } else if chars_eq_str(part, "..") {
            return None;
        } else {
            return Some(string_of(part));
        }
    }
    None
}

/// The file that answers a request.
#[derive(Clone, Copy, Debug, PartialEq, Eq, Structural)]
pub enum FileChoice {
    /// The file that the path names.
    Asked,
    /// The file of the same name in the root.
    RootAsset,
    /// The page of the front end, sent as not found.
    Fallback,
}

/// The file that answers a request. `present` and `is_file` say what lies
/// where the path says; `root_asset_is_file` says whether the root holds
/// a file of the same name, and is `None` where the path names no file.
/// The root is looked at only where nothing lies where the path says.
pub open spec fn file_choice(present: bool, is_file: bool, root_asset_is_file: Option<bool>) -> FileChoice {
    if present {
        if is_file {
            FileChoice::Asked
        } else {
            FileChoice::Fallback
        }
    } else if root_asset_is_file == Some(true) {
        FileChoice::RootAsset
    } else {
        FileChoice::Fallback
    }
}

pub fn choose_file(present: bool, is_file: bool, root_asset_is_file: Option<bool>) -> (c: FileChoice)
    ensures
        c == file_choice(present, is_file, root_asset_is_file),
{
    if present {
        if is_file {
            FileChoice::Asked
        } else {
            FileChoice::Fallback
        }
    } else {
        match root_asset_is_file {
            Some(true) => FileChoice::RootAsset,
            _ => FileChoice::Fallback,
        }
    }
}

impl FileChoice {
    /// Whether the answer says that the file was found.
    pub fn is_found(&self) -> (b: bool)
        ensures
            b == (*self != FileChoice::Fallback),
    {
        match self {
            FileChoice::Fallback => false,
            _ => true,
        }
    }
}

// ---------------------------------------------------------------------------
// Answering with a file
// ---------------------------------------------------------------------------

/// The type of content that a file of the given extension holds.
pub open spec fn k_content_type(ext: Option<Seq<char>>) -> Seq<char> {
    match ext {
        None => "application/octet-stream"@,
        Some(e) => if e == "html"@ {
            "text/html; charset=utf-8"@
        } else if e == "js"@ {
            "application/javascript; charset=utf-8"@
        } else if e == "css"@ {
            "text/css; charset=utf-8"@
        } else if e == "svg"@ {
            "image/svg+xml"@
        } else if e == "png"@ {
            "image/png"@
        } else if e == "jpg"@ || e == "jpeg"@ {
            "image/jpeg"@
        } else if e == "webp"@ {
            "image/webp"@
        } else if e == "woff"@ {
            "font/woff"@
        } else if e == "woff2"@ {
            "font/woff2"@
        } else if e == "wasm"@ {
            "application/wasm"@
        } else if e == "json"@ {
            "application/json; charset=utf-8"@
        } else {
            "application/octet-stream"@
        },
    }
}

/// The type of content of the file that a path names, by its extension.
pub fn content_type_of(path: &str) -> (r: &'static str)
    ensures
        r@ == k_content_type(crate::modules::explorer::extension(path@)),
{
    let e = match crate::modules::explorer::extension_of(path) {
        Some(e) => e,
        None => {
            return "application/octet-stream";
        },
    };
    if chars_eq_str(&e, "html") {
        "text/html; charset=utf-8"
    } else if chars_eq_str(&e, "js") {
        "application/javascript; charset=utf-8"
    } else if chars_eq_str(&e, "css") {
        "text/css; charset=utf-8"
    } else if chars_eq_str(&e, "svg") {
        "image/svg+xml"
    } else if chars_eq_str(&e, "png") {
        "image/png"
    } else if chars_eq_str(&e, "jpg") || chars_eq_str(&e, "jpeg") {
        "image/jpeg"
    } else if chars_eq_str(&e, "webp") {
        "image/webp"
    } else if chars_eq_str(&e, "woff") {
        "font/woff"
    } else if chars_eq_str(&e, "woff2") {
        "font/woff2"
    } else if chars_eq_str(&e, "wasm") {
        "application/wasm"
    } else if chars_eq_str(&e, "json") {
        "application/json; charset=utf-8"
    } else {
        "application/octet-stream"
    }
}

/// The part of a file that is sent.
#[derive(Clone, Copy, Debug, PartialEq, Eq, Structural)]
pub struct Span {
    /// The position of the first byte.
    pub from: u64,
    /// The position of the last byte.
    pub to: u64,
    /// Whether a part was asked for and is sent.
    pub partial: bool,
}

/// The bounds that a range names: the start, and the end where one is
/// given. `None` where the range is not given in bytes or names no
/// start.
pub open spec fn range_bounds(range: Seq<char>) -> Option<(nat, Option<nat>)> {
    if !starts_with(range, "bytes="@) {
        None
    } else {
        let value = range.skip(6);
        let (first, second) = match split_once(value, '-') {
            Some((a, b)) => (a, Some(b)),
            None => (value, None),
        };
        match parse_decimal(trim(first), u64::MAX as nat) {
            None => None,
            Some(start) => Some(
                (
                    start,
                    match second {
                        Some(b) => if trim(b).len() == 0 {
                            None
                        } else {
                            parse_decimal(trim(b), u64::MAX as nat)
                        },
                        None => None,
                    },
                ),
            ),
        }
    }
}

pub open spec fn last_byte(file_len: u64) -> u64 {
    if file_len == 0 {
        0
    } else {
        (file_len - 1) as u64
    }
}

/// The part of a file of `file_len` bytes that is sent: the whole file,
/// or, where a range is asked for that starts within the file, the file
/// from the start of the range to its end or to the end of the file,
/// whichever comes first.
pub open spec fn span_of(range: Option<Seq<char>>, file_len: u64) -> Span {
    let whole = Span { from: 0, to: last_byte(file_len), partial: false };
    match range {
        None => whole,
        Some(r) => match range_bounds(r) {
            None => whole,
            Some((start, end)) => if start < file_len {
                Span {
                    from: start as u64,
                    to: match end {
                        Some(e) => if e < last_byte(file_len) {
                            e as u64
                        } else {
                            last_byte(file_len)
                        },
                        None => last_byte(file_len),
                    },
                    partial: true,
                }
            } else {
                whole
            },
        },
    }
}

/// Number of bytes that are sent of a span.
pub open spec fn span_len(s: Span) -> u64 {
    if s.to < s.from {
        1
    } else if s.to - s.from == u64::MAX {
        u64::MAX
    } else {
        (s.to - s.from + 1) as u64
    }
}

fn bounds(range: &str) -> (r: Option<(u64, Option<u64>)>)
    ensures
        match r {
            Some((s, e)) => range_bounds(range@) == Some(
                (
                    s as nat,
                    match e {
                        Some(x) => Some(x as nat),
                        None => None,
                    },
                ),
            ),
            None => range_bounds(range@) is None,
        },
{
    let v = chars_of(range);
    proof {
        reveal_strlit("bytes=");
    }
    if !starts_with_str(&v, "bytes=") {
        return None;
    }
    let value = slice_of(&v, 6, v.len());
    assert(value@ == v@.skip(6));
    let (first, second) = match split_once_chars(&value, '-') {
        Some(p) => (p.0, Some(p.1)),
        None => (value, None),
    };
    let start = match parse_decimal_chars(&trim_chars(&first), u64::MAX) {
        Some(s) => s,
        None => {
            return None;
        },
    };
    let end = match second {
        Some(b) => {
            let t = trim_chars(&b);
            if t.len() == 0 {
                None
            } else {
                parse_decimal_chars(&t, u64::MAX)
            }
        },
        None => None,
    };
    Some((start, end))
}

/// Decides which part of a file of `file_len` bytes is sent.
pub fn byte_range(range: Option<&str>, file_len: u64) -> (s: Span)
    ensures
        s == span_of(
            match range {
                Some(r) => Some(r@),
                None => None,
            },
            file_len,
        ),
{
    let last = if file_len == 0 {
        0
    } else {
        file_len - 1
    };
    let whole = Span { from: 0, to: last, partial: false };
    let r = match range {
        Some(r) => r,
        None => {
            return whole;
        },
    };
    match bounds(r) {
        None => whole,
        Some((start, end)) => {
            if start < file_len {
                let to = match end {
                    Some(e) => if e < last {
                        e
                    } else {
                        last
                    },
                    None => last,
                };
                Span { from: start, to, partial: true }
            } else {
                whole
            }
        },
    }
}

/// Number of bytes that are sent of a span.
pub fn content_length_of(s: Span) -> (n: u64)
    ensures
        n == span_len(s),
{
    if s.to < s.from {
        1
    } else if s.to - s.from == u64::MAX {
        u64::MAX
    } else {
        s.to - s.from + 1
    }
}

/// How a request is answered.
#[derive(Clone, Copy, Debug, PartialEq, Eq, Structural)]
pub enum Status {
    Success,
    PartialContent,
    NotFound,
    BadGateway,
    InternalError,
}

impl Status {
    pub open spec fn line(self) -> Seq<char> {
        match self {
            Status::Success => "200 OK"@,
            Status::PartialContent => "206 Partial Content"@,
            Status::NotFound => "404 Not Found"@,
            Status::BadGateway => "502 Bad Gateway"@,
            Status::InternalError => "500 Internal Server Error"@,
        }
    }

    pub fn as_str(&self) -> (r: &'static str)
        ensures
            r@ == self.line(),
    {
        match self {
            Status::Success => "200 OK",
            Status::PartialContent => "206 Partial Content",
            Status::NotFound => "404 Not Found",
            Status::BadGateway => "502 Bad Gateway",
            Status::InternalError => "500 Internal Server Error",
        }
    }
}

/// The status with which a file is answered: a part that is sent counts
/// as partial content, whatever was found; otherwise a file that was
/// found is fine, and the start page that stands in for a file that was
/// not counts as not found.
pub open spec fn file_status(found: bool, span: Span) -> Status {
    if span.partial {
        Status::PartialContent
    } else if found {
        Status::Success
    } else {
        Status::NotFound
    }
}

pub open spec fn connection_text(keep_alive: bool) -> Seq<char> {
    if keep_alive {
        "keep-alive"@
    } else {
        "close"@
    }
}

/// The head of the answer with which a file is sent.
pub open spec fn file_head(
    found: bool,
    content_type: Seq<char>,
    span: Span,
    file_len: u64,
    keep_alive: bool,
) -> Seq<char> {
    concat(
        seq![
            "HTTP/1.1 "@,
            file_status(found, span).line(),
            "\r\nContent-Type: "@,
            content_type,
            "\r\nContent-Length: "@,
            decimal(span_len(span) as nat),
            "\r\nAccept-Ranges: bytes\r\nCache-Control: no-store, no-cache, must-revalidate\r\nPragma: no-cache\r\nExpires: 0\r\nConnection: "@,
            connection_text(keep_alive),
            "\r\n"@,
            if keep_alive {
                "Keep-Alive: timeout=5, max=100\r\n"@
            } else {
                Seq::empty()
            },
            if span.partial {
                concat(
                    seq![
                        "Content-Range: bytes "@,
                        decimal(span.from as nat),
                        "-"@,
                        decimal(span.to as nat),
                        "/"@,
                        decimal(file_len as nat),
                        "\r\n"@,
                    ],
                )
            } else {
                Seq::empty()
            },
            "\r\n"@,
        ],
    )
}

fn connection_word(keep_alive: bool) -> (r: &'static str)
    ensures
        r@ == connection_text(keep_alive),
{
    if keep_alive {
        "keep-alive"
    } else {
        "close"
    }
}

/// Writes the head of the answer with which a file is sent.
pub fn file_header(found: bool, content_type: &str, span: Span, file_len: u64, keep_alive: bool) -> (r:
    String)
    ensures
        r@ == file_head(found, content_type@, span, file_len, keep_alive),
{
    let status = if span.partial {
        Status::PartialContent
    } else if found {
        Status::Success
    } else {
        Status::NotFound
    };
    let mut range = no_pieces();
    if span.partial {
        push_text(&mut range, "Content-Range: bytes ");
        push_number(&mut range, span.from);
        push_text(&mut range, "-");
        push_number(&mut range, span.to);
        push_text(&mut range, "/");
        push_number(&mut range, file_len);
        push_text(&mut range, "\r\n");
        assert(texts(range@) =~= seq![
            "Content-Range: bytes "@,
            decimal(span.from as nat),
            "-"@,
            decimal(span.to as nat),
            "/"@,
            decimal(file_len as nat),
            "\r\n"@,
        ]);
    }
    let range_line = if span.partial {
        crate::text::join_chars(&range)
    } else {
        Vec::new()
    };
    let mut p = no_pieces();
    push_text(&mut p, "HTTP/1.1 ");
    push_text(&mut p, status.as_str());
    push_text(&mut p, "\r\nContent-Type: ");
    push_text(&mut p, content_type);
    push_text(&mut p, "\r\nContent-Length: ");
    push_number(&mut p, content_length_of(span));
    push_text(
        &mut p,
        "\r\nAccept-Ranges: bytes\r\nCache-Control: no-store, no-cache, must-revalidate\r\nPragma: no-cache\r\nExpires: 0\r\nConnection: ",
    );
    push_text(&mut p, connection_word(keep_alive));
    push_text(&mut p, "\r\n");
    let nothing: Vec<char> = Vec::new();
    if keep_alive {
        push_text(&mut p, "Keep-Alive: timeout=5, max=100\r\n");
    } else {
        push_piece(&mut p, &nothing);
    }
    push_piece(&mut p, &range_line);
    push_text(&mut p, "\r\n");
    assert(texts(p@) =~= seq![
        "HTTP/1.1 "@,
        file_status(found, span).line(),
        "\r\nContent-Type: "@,
        content_type@,
        "\r\nContent-Length: "@,
        decimal(span_len(span) as nat),
        "\r\nAccept-Ranges: bytes\r\nCache-Control: no-store, no-cache, must-revalidate\r\nPragma: no-cache\r\nExpires: 0\r\nConnection: "@,
        connection_text(keep_alive),
        "\r\n"@,
        if keep_alive {
            "Keep-Alive: timeout=5, max=100\r\n"@
        } else {
            Seq::empty()
        },
        if span.partial {
            concat(
                seq![
                    "Content-Range: bytes "@,
                    decimal(span.from as nat),
                    "-"@,
                    decimal(span.to as nat),
                    "/"@,
                    decimal(file_len as nat),
                    "\r\n"@,
                ],
            )
        } else {
            Seq::empty()
        },
        "\r\n"@,
    ]);
    join(&p)
}

/// An answer that the server makes up itself.
#[derive(Clone, Copy, Debug, PartialEq, Eq, Structural)]
pub enum Canned {
    /// The stub for the script that registers a service worker.
    ServiceWorkerStub,
    /// A service worker that is not there.
    ServiceWorkerGone,
    /// The social indexer could not be reached.
    ApiUnavailable,
    /// The file could not be opened.
    OpenFailed,
}

impl Canned {
    pub open spec fn status(self) -> Status {
        match self {
            Canned::ServiceWorkerStub => Status::Success,
            Canned::ServiceWorkerGone => Status::NotFound,
            Canned::ApiUnavailable => Status::BadGateway,
            Canned::OpenFailed => Status::InternalError,
        }
    }

    pub open spec fn kind(self) -> Seq<char> {
        match self {
            Canned::ServiceWorkerStub => "application/javascript; charset=utf-8"@,
            Canned::ServiceWorkerGone => "application/javascript; charset=utf-8"@,
            Canned::ApiUnavailable => "application/json; charset=utf-8"@,
            Canned::OpenFailed => "text/plain; charset=utf-8"@,
        }
    }

    pub open spec fn content(self) -> Seq<char> {
        match self {
            Canned::ServiceWorkerStub => "/* kaspa-ng: service worker disabled */"@,
            Canned::ServiceWorkerGone => "// kaspa-ng: service worker disabled"@,
            Canned::ApiUnavailable => "{\"error\":\"K-indexer API unavailable\"}"@,
            Canned::OpenFailed => "internal error"@,
        }
    }

    /// Whether the answer tells the browser not to keep it.
    pub open spec fn uncached(self) -> bool {
        self == Canned::ServiceWorkerStub || self == Canned::ServiceWorkerGone
    }

    /// What is sent after the head.
    pub fn body(&self) -> (r: &'static str)
        ensures
            r@ == self.content(),
    {
        match self {
            Canned::ServiceWorkerStub => "/* kaspa-ng: service worker disabled */",
            Canned::ServiceWorkerGone => "// kaspa-ng: service worker disabled",
            Canned::ApiUnavailable => "{\"error\":\"K-indexer API unavailable\"}",
            Canned::OpenFailed => "internal error",
        }
    }
}

/// The head of an answer that the server makes up itself.
pub open spec fn canned_head(c: Canned, keep_alive: bool) -> Seq<char> {
    concat(
        seq![
            "HTTP/1.1 "@,
            c.status().line(),
            "\r\nContent-Type: "@,
            c.kind(),
            "\r\nContent-Length: "@,
            decimal(c.content().len()),
            if c.uncached() {
                "\r\nCache-Control: no-store, no-cache, must-revalidate\r\nPragma: no-cache\r\nExpires: 0"@
            } else {
                Seq::empty()
            },
            "\r\nConnection: "@,
            connection_text(keep_alive),
            "\r\n"@,
            if keep_alive {
                "Keep-Alive: timeout=5, max=100"@
            } else {
                Seq::empty()
            },
            "\r\n"@,
        ],
    )
}

/// Writes the head of an answer that the server makes up itself.
pub fn canned_header(c: Canned, keep_alive: bool) -> (r: String)
    ensures
        r@ == canned_head(c, keep_alive),
{
    let (status, kind) = match c {
        Canned::ServiceWorkerStub => (Status::Success, "application/javascript; charset=utf-8"),
        Canned::ServiceWorkerGone => (Status::NotFound, "application/javascript; charset=utf-8"),
        Canned::ApiUnavailable => (Status::BadGateway, "application/json; charset=utf-8"),
        Canned::OpenFailed => (Status::InternalError, "text/plain; charset=utf-8"),
    };
    let uncached = match c {
        Canned::ServiceWorkerStub => true,
        Canned::ServiceWorkerGone => true,
        _ => false,
    };
    let body = chars_of(c.body());
    let mut p = no_pieces();
    let nothing: Vec<char> = Vec::new();
    push_text(&mut p, "HTTP/1.1 ");
    push_text(&mut p, status.as_str());
    push_text(&mut p, "\r\nContent-Type: ");
    push_text(&mut p, kind);
    push_text(&mut p, "\r\nContent-Length: ");
    push_number(&mut p, body.len() as u64);
    if uncached {
        push_text(
            &mut p,
            "\r\nCache-Control: no-store, no-cache, must-revalidate\r\nPragma: no-cache\r\nExpires: 0",
        );
    } else {
        push_piece(&mut p, &nothing);
    }
    push_text(&mut p, "\r\nConnection: ");
    push_text(&mut p, connection_word(keep_alive));
    push_text(&mut p, "\r\n");
    if keep_alive {
        push_text(&mut p, "Keep-Alive: timeout=5, max=100");
    } else {
        push_piece(&mut p, &nothing);
    }
    push_text(&mut p, "\r\n");
    assert(texts(p@) =~= seq![
        "HTTP/1.1 "@,
        c.status().line(),
        "\r\nContent-Type: "@,
        c.kind(),
        "\r\nContent-Length: "@,
        decimal(c.content().len()),
        if c.uncached() {
            "\r\nCache-Control: no-store, no-cache, must-revalidate\r\nPragma: no-cache\r\nExpires: 0"@
        } else {
            Seq::empty()
        },
        "\r\nConnection: "@,
        connection_text(keep_alive),
        "\r\n"@,
        if keep_alive {
            "Keep-Alive: timeout=5, max=100"@
        } else {
            Seq::empty()
        },
        "\r\n"@,
    ]);
    join(&p)
}

// ---------------------------------------------------------------------------
// Handing a request on to the social indexer
// ---------------------------------------------------------------------------

/// The path under which the indexer is asked: the path of the request
/// without the `/api` before it.
pub open spec fn upstream_path(path: Seq<char>) -> Seq<char> {
    if before_char(path, '?') == "/api"@ {
        "/"@
    } else if starts_with(path, "/api"@) {
        path.skip(4)
    } else {
        path
    }
}

/// Whether a header line is handed on: a line that is not empty and
/// names neither the host nor the connection.
pub open spec fn is_forwarded(line: Seq<char>) -> bool {
    line.len() > 0 && match split_once(line, ':') {
        Some((n, _)) => !same_ignoring_case(trim(n), "host"@) && !same_ignoring_case(
            trim(n),
            "connection"@,
        ),
        None => true,
    }
}

/// The header lines that are handed on, each with its line ending.
pub open spec fn forwarded_headers(all: Seq<Seq<char>>) -> Seq<char>
    decreases all.len(),
{
    if all.len() == 0 {
        Seq::empty()
    } else if is_forwarded(all.last()) {
        forwarded_headers(all.drop_last()) + all.last() + "\r\n"@
    } else {
        forwarded_headers(all.drop_last())
    }
}

/// The lines after the first one.
pub open spec fn after_first(all: Seq<Seq<char>>) -> Seq<Seq<char>> {
    if all.len() > 0 {
        all.skip(1)
    } else {
        all
    }
}

/// The head of the request as it is sent to the indexer: the request
/// line with the rewritten path, the headers that are handed on, the
/// indexer as the host, and the wish to close the connection after the
/// answer. `head` is the head of the request as it came, without the
/// empty line at its end.
pub open spec fn forwarded_head(head: Seq<char>, api_host: Seq<char>, api_port: u16) -> Seq<char> {
    let line = first_line(head);
    let path = match nth_word(line, 1) {
        Some(p) => p,
        None => "/"@,
    };
    concat(
        seq![
            match nth_word(line, 0) {
                Some(m) => m,
                None => "GET"@,
            },
            " "@,
            upstream_path(path),
            " "@,
            match nth_word(line, 2) {
                Some(v) => v,
                None => "HTTP/1.1"@,
            },
            "\r\n"@,
            forwarded_headers(after_first(lines(head))),
            "Host: "@,
            api_host,
            ":"@,
            decimal(api_port as nat),
            "\r\nConnection: close\r\n\r\n"@,
        ],
    )
}

fn forwarded(line: &Vec<char>) -> (b: bool)
    ensures
        b == is_forwarded(line@),
{
    if line.len() == 0 {
        return false;
    }
    match split_once_chars(line, ':') {
        Some(pair) => {
            let name = trim_chars(&pair.0);
            !eq_ignore_case(&name, "host") && !eq_ignore_case(&name, "connection")
        },
        None => true,
    }
}

fn forwarded_lines(all: &Vec<Vec<char>>) -> (headers: Vec<char>)
    ensures
        headers@ == forwarded_headers(after_first(texts(all@))),
{
    let ghost rest_lines = after_first(texts(all@));
    let start: usize = if all.len() > 0 {
        1
    } else {
        0
    };
    let mut headers: Vec<char> = Vec::new();
    let mut i: usize = start;
    assert(rest_lines.take(0) =~= Seq::<Seq<char>>::empty());
    while i < all.len()
        invariant
            start <= i <= all.len(),
            start == if all.len() > 0 {
                1usize
            } else {
                0usize
            },
            rest_lines == after_first(texts(all@)),
            headers@ == forwarded_headers(rest_lines.take(i - start)),
        decreases all.len() - i,
    {
        proof {
            assert(rest_lines.take(i - start + 1).drop_last() =~= rest_lines.take(i - start));
            assert(rest_lines.take(i - start + 1).last() == all@[i as int]@);
        }
        if forwarded(&all[i]) {
            crate::text::extend_chars(&mut headers, &all[i]);
            crate::text::extend_str(&mut headers, "\r\n");
        }
        i = i + 1;
    }
    assert(rest_lines.take(all.len() - start) =~= rest_lines);
    headers
}

/// Writes the head of the request as it is sent to the indexer.
pub fn forward_request(head: &str, api_host: &str, api_port: u16) -> (r: String)
    ensures
        r@ == forwarded_head(head@, api_host@, api_port),
{
    let v = chars_of(head);
    let all = lines_chars(&v);
    let line = if all.len() > 0 {
        assert(texts(all@)[0] == all@[0]@);
        let l = slice_of(&all[0], 0, all[0].len());
        assert(l@ == all@[0]@);
        l
    } else {
        Vec::new()
    };
    assert(line@ == first_line(head@));
    let ws = words_chars(&line);
    let method = word_or(&ws, 0, "GET");
    let path = word_or(&ws, 1, "/");
    let version = word_or(&ws, 2, "HTTP/1.1");
    proof {
        if 0 < ws.len() {
            assert(ws@[0]@ == words(line@)[0]);
        }
        if 1 < ws.len() {
            assert(ws@[1]@ == words(line@)[1]);
        }
        if 2 < ws.len() {
            assert(ws@[2]@ == words(line@)[2]);
        }
        reveal_strlit("/api");
    }
    let upstream = if chars_eq_str(&before_char_chars(&path, '?'), "/api") {
        chars_of("/")
    } else if starts_with_str(&path, "/api") {
        let rest = slice_of(&path, 4, path.len());
        assert(rest@ == path@.skip(4));
        rest
    } else {
        path
    };
    let headers = forwarded_lines(&all);
    proof {
        let first = first_line(head@);
        let asked = match nth_word(first, 1) {
            Some(p) => p,
            None => "/"@,
        };
        assert(upstream@ == upstream_path(asked));
        assert(method@ == match nth_word(first, 0) {
            Some(m) => m,
            None => "GET"@,
        });
        assert(version@ == match nth_word(first, 2) {
            Some(m) => m,
            None => "HTTP/1.1"@,
        });
        assert(headers@ == forwarded_headers(after_first(lines(head@))));
    }
    let mut p = no_pieces();
    push_piece(&mut p, &method);
    push_text(&mut p, " ");
    push_piece(&mut p, &upstream);
    push_text(&mut p, " ");
    push_piece(&mut p, &version);
    push_text(&mut p, "\r\n");
    push_piece(&mut p, &headers);
    push_text(&mut p, "Host: ");
    push_text(&mut p, api_host);
    push_text(&mut p, ":");
    push_number(&mut p, api_port as u64);
    push_text(&mut p, "\r\nConnection: close\r\n\r\n");
    proof {
        let first = first_line(head@);
        let asked = match nth_word(first, 1) {
            Some(p) => p,
            None => "/"@,
        };
        assert(texts(p@) =~= seq![
            match nth_word(first, 0) {
                Some(m) => m,
                None => "GET"@,
            },
            " "@,
            upstream_path(asked),
            " "@,
            match nth_word(first, 2) {
                Some(v) => v,
                None => "HTTP/1.1"@,
            },
            "\r\n"@,
            forwarded_headers(after_first(lines(head@))),
            "Host: "@,
            api_host@,
            ":"@,
            decimal(api_port as nat),
            "\r\nConnection: close\r\n\r\n"@,
        ]);
    }
    join(&p)
}

// ---------------------------------------------------------------------------
// Whether the social indexer is well
// ---------------------------------------------------------------------------

/// What a test of the indexer's health showed.
#[derive(Clone, Debug, PartialEq, Eq)]
pub struct KIndexerHealth {
    pub ready: bool,
    pub status: String,
}

/// How far a test of the indexer's health came.
#[derive(Clone, Copy, Debug, PartialEq, Eq, Structural)]
pub enum Probe {
    /// No address of the indexer accepted a connection.
    Unreachable,
    /// The request could not be sent.
    RequestFailed,
    /// Nothing came back.
    EmptyResponse,
}

/// The status code that the first line of an answer names.
pub open spec fn status_code(answer: Seq<char>) -> Option<nat> {
    match nth_word(first_line(answer), 1) {
        Some(w) => parse_decimal(w, u16::MAX as nat),
        None => None,
    }
}

/// Whether an answer says that the indexer is well: its status code lies
/// between 200 and 299.
pub open spec fn answer_ready(answer: Seq<char>) -> bool {
    status_code(answer) matches Some(c) && 200 <= c <= 299
}

/// What is said of an answer.
pub open spec fn answer_status(answer: Seq<char>) -> Seq<char> {
    match status_code(answer) {
        Some(c) => if 200 <= c <= 299 {
            concat(seq!["ready ("@, first_line(answer), ")"@])
        } else {
            concat(seq!["not ready (HTTP "@, decimal(c), ")"@])
        },
        None => concat(seq!["connected, invalid HTTP response"@]),
    }
}

/// The request with which the indexer's health is tested.
pub open spec fn health_request(host: Seq<char>, port: u16) -> Seq<char> {
    concat(
        seq![
            "GET /health HTTP/1.1\r\nHost: "@,
            host,
            ":"@,
            decimal(port as nat),
            "\r\nConnection: close\r\n\r\n"@,
        ],
    )
}

pub fn k_indexer_health_request(host: &str, port: u16) -> (r: String)
    ensures
        r@ == health_request(host@, port),
{
    let mut p = no_pieces();
    push_text(&mut p, "GET /health HTTP/1.1\r\nHost: ");
    push_text(&mut p, host);
    push_text(&mut p, ":");
    push_number(&mut p, port as u64);
    push_text(&mut p, "\r\nConnection: close\r\n\r\n");
    assert(texts(p@) =~= seq![
        "GET /health HTTP/1.1\r\nHost: "@,
        host@,
        ":"@,
        decimal(port as nat),
        "\r\nConnection: close\r\n\r\n"@,
    ]);
    join(&p)
}

/// What a test that did not get an answer showed.
pub fn k_indexer_unwell(probe: Probe) -> (h: KIndexerHealth)
    ensures
        !h.ready,
        h.status@ == match probe {
            Probe::Unreachable => "unreachable"@,
            Probe::RequestFailed => "connected, request failed"@,
            Probe::EmptyResponse => "connected, empty response"@,
        },
{
    let status = match probe {
        Probe::Unreachable => "unreachable",
        Probe::RequestFailed => "connected, request failed",
        Probe::EmptyResponse => "connected, empty response",
    };
    KIndexerHealth { ready: false, status: String::from_str(status) }
}

/// Reads the answer to a test of the indexer's health.
pub fn k_indexer_health(answer: &str) -> (h: KIndexerHealth)
    ensures
        h.ready == answer_ready(answer@),
        h.status@ == answer_status(answer@),
{
    let v = chars_of(answer);
    let all = lines_chars(&v);
    let line = if all.len() > 0 {
        assert(texts(all@)[0] == all@[0]@);
        let l = slice_of(&all[0], 0, all[0].len());
        assert(l@ == all@[0]@);
        l
    } else {
        Vec::new()
    };
    let ws = words_chars(&line);
    proof {
        if 1 < ws.len() {
            assert(ws@[1]@ == words(line@)[1]);
        }
    }
    let code = if ws.len() > 1 {
        parse_decimal_chars(&ws[1], 65535)
    } else {
        None
    };
    let mut p = no_pieces();
    match code {
        Some(c) => {
            if 200 <= c && c <= 299 {
                push_text(&mut p, "ready (");
                push_piece(&mut p, &line);
                push_text(&mut p, ")");
                assert(texts(p@) =~= seq!["ready ("@, first_line(answer@), ")"@]);
                KIndexerHealth { ready: true, status: join(&p) }
            } else {
                push_text(&mut p, "not ready (HTTP ");
                push_number(&mut p, c);
                push_text(&mut p, ")");
                assert(texts(p@) =~= seq!["not ready (HTTP "@, decimal(c as nat), ")"@]);
                KIndexerHealth { ready: false, status: join(&p) }
            }
        },
        None => {
            push_text(&mut p, "connected, invalid HTTP response");
            assert(texts(p@) =~= seq!["connected, invalid HTTP response"@]);
            KIndexerHealth { ready: false, status: join(&p) }
        },
    }
}

// ---------------------------------------------------------------------------
// Reading a request from the wire
// ---------------------------------------------------------------------------

/// Whether the end of the head, an empty line, begins at position `i` of
/// the bytes.
pub open spec fn head_ends_at(bytes: Seq<u8>, i: int) -> bool {
    0 <= i && i + 4 <= bytes.len() && bytes[i] == 13 && bytes[i + 1] == 10 && bytes[i + 2] == 13
        && bytes[i + 3] == 10
}

/// The length of the head of a request, the empty line at its end
/// included; `None` while the head has not arrived in full.
pub fn header_end(bytes: &Vec<u8>) -> (r: Option<usize>)
    ensures
        match r {
            Some(end) => 4 <= end <= bytes.len() && head_ends_at(bytes@, end - 4) && forall|j: int|
                0 <= j < end - 4 ==> !head_ends_at(bytes@, j),
            None => forall|j: int| !head_ends_at(bytes@, j),
        },
{
    if bytes.len() < 4 {
        return None;
    }
    let last: usize = bytes.len() - 4;
    let mut i: usize = 0;
    while i <= last
        invariant
            bytes.len() >= 4,
            last == bytes.len() - 4,
            i <= last + 1,
            forall|j: int| 0 <= j < i ==> !head_ends_at(bytes@, j),
        decreases last + 1 - i,
    {
        if bytes[i] == 13 && bytes[i + 1] == 10 && bytes[i + 2] == 13 && bytes[i + 3] == 10 {
            return Some(i + 4);
        }
        i = i + 1;
    }
    None
}

/// The length of the body that the head of a request announces: the
/// value of the last `Content-Length` header, or nothing where none
/// names a number.
pub open spec fn announced_length(all: Seq<Seq<char>>) -> nat
    decreases all.len(),
{
    if all.len() == 0 {
        0
    } else {
        match split_once(all.last(), ':') {
            Some((n, v)) => if same_ignoring_case(trim(n), "content-length"@) {
                match parse_decimal(trim(v), usize::MAX as nat) {
                    Some(len) => len,
                    None => 0,
                }
            } else {
                announced_length(all.drop_last())
            },
            None => announced_length(all.drop_last()),
        }
    }
}

/// Reads the length of the body from the head of a request.
pub fn content_length(head: &str) -> (n: usize)
    ensures
        n == announced_length(lines(head@)),
{
    let all = lines_chars(&chars_of(head));
    let ghost every = lines(head@);
    let mut i: usize = all.len();
    assert(every.take(all.len() as int) =~= every);
    while i > 0
        invariant
            i <= all.len(),
            every == texts(all@),
            every == lines(head@),
            announced_length(every) == announced_length(every.take(i as int)),
        decreases i,
    {
        proof {
            assert(every.take(i as int).drop_last() =~= every.take(i - 1));
            assert(every.take(i as int).last() == all@[i - 1]@);
        }
        if let Some(pair) = split_once_chars(&all[i - 1], ':') {
            if eq_ignore_case(&trim_chars(&pair.0), "content-length") {
                let value = trim_chars(&pair.1);
                let parsed = parse_decimal_chars(&value, usize::MAX as u64);
                return match parsed {
                    Some(len) => {
                        assert(parse_decimal(value@, usize::MAX as nat) == Some(len as nat));
                        assert(len <= usize::MAX);
                        len as usize
                    },
                    None => 0,
                };
            }
        }
        i = i - 1;
    }
    0
}

/// Whether a request has arrived in full: its head has, and as much of
/// its body as the head announces.
pub fn request_complete(received: usize, header_end: Option<usize>, content_length: usize) -> (b:
    bool)
    ensures
        b == match header_end {
            Some(end) => received >= end && received - end >= content_length,
            None => false,
        },
{
    match header_end {
        Some(end) => received >= end && received - end >= content_length,
        None => false,
    }
}

// ---------------------------------------------------------------------------
// Starting the server
// ---------------------------------------------------------------------------

/// The file that marks a directory as a build of the front end.
pub const BUILD_MARKER: &'static str = "index.html";

/// What the operator is told where no build of the front end is found.
pub const BUILD_MISSING: &'static str =
    "K build not found. Run `npm install` and `npm run build` in `K`.";

/// Milliseconds that pass before the server looks for a connection
/// again after it found none.
pub const ACCEPT_PAUSE_MS: u64 = 25;

/// Seconds that a request may take to arrive.
pub const READ_TIMEOUT_SECS: u64 = 2;

/// The directories in which a build of the front end is looked for, in
/// order: the working directory and four directories above it, then the
/// directory of the application's executable and four above it.
pub open spec fn k_build_places() -> Seq<CandidateView> {
    seq![
        place(Base::WorkingDir, "K/dist"@),
        place(Base::WorkingAncestor(1), "K/dist"@),
        place(Base::WorkingAncestor(2), "K/dist"@),
        place(Base::WorkingAncestor(3), "K/dist"@),
        place(Base::WorkingAncestor(4), "K/dist"@),
        place(Base::ExeDir, "K/dist"@),
        place(Base::ExeAncestor(1), "K/dist"@),
        place(Base::ExeAncestor(2), "K/dist"@),
        place(Base::ExeAncestor(3), "K/dist"@),
        place(Base::ExeAncestor(4), "K/dist"@),
    ]
}

/// The directories in which a build of the front end is looked for. The
/// first one that holds [`BUILD_MARKER`] is the root of the server.
pub fn k_build_root_candidates() -> (v: Vec<Candidate>)
    ensures
        candidate_views(v@) == k_build_places(),
{
    let mut v = no_candidates();
    push_candidate(&mut v, Base::WorkingDir, String::from_str("K/dist"));
    push_candidate(&mut v, Base::WorkingAncestor(1), String::from_str("K/dist"));
    push_candidate(&mut v, Base::WorkingAncestor(2), String::from_str("K/dist"));
    push_candidate(&mut v, Base::WorkingAncestor(3), String::from_str("K/dist"));
    push_candidate(&mut v, Base::WorkingAncestor(4), String::from_str("K/dist"));
    push_candidate(&mut v, Base::ExeDir, String::from_str("K/dist"));
    push_candidate(&mut v, Base::ExeAncestor(1), String::from_str("K/dist"));
    push_candidate(&mut v, Base::ExeAncestor(2), String::from_str("K/dist"));
    push_candidate(&mut v, Base::ExeAncestor(3), String::from_str("K/dist"));
    push_candidate(&mut v, Base::ExeAncestor(4), String::from_str("K/dist"));
    assert(candidate_views(v@) =~= k_build_places());
    v
}

/// What can go wrong when the server is started.
#[derive(Clone, Copy, Debug, PartialEq, Eq, Structural)]
pub enum StartFault {
    /// The port cannot be bound.
    Bind { port: u16 },
    /// The listener cannot be made non-blocking.
    Nonblocking,
    /// The bound address cannot be read.
    Address,
    /// The server's thread cannot be started.
    Spawn,
}

/// What the operator is told of a fault, with the error that the
/// operating system gave.
pub open spec fn start_fault(fault: StartFault, error: Seq<char>) -> Seq<char> {
    match fault {
        StartFault::Bind { port } => concat(
            seq![
                "K-Social server bind failed on 127.0.0.1:"@,
                decimal(port as nat),
                " ("@,
                error,
                ")"@,
            ],
        ),
        StartFault::Nonblocking => concat(
            seq!["K-Social server nonblocking setup failed: "@, error],
        ),
        StartFault::Address => concat(seq!["K-Social server address error: "@, error]),
        StartFault::Spawn => concat(seq!["K-Social server spawn failed: "@, error]),
    }
}

pub fn start_fault_line(fault: StartFault, error: &str) -> (r: String)
    ensures
        r@ == start_fault(fault, error@),
{
    let mut p = no_pieces();
    match fault {
        StartFault::Bind { port } => {
            push_text(&mut p, "K-Social server bind failed on 127.0.0.1:");
            push_number(&mut p, port as u64);
            push_text(&mut p, " (");
            push_text(&mut p, error);
            push_text(&mut p, ")");
            assert(texts(p@) =~= seq![
                "K-Social server bind failed on 127.0.0.1:"@,
                decimal(port as nat),
                " ("@,
                error@,
                ")"@,
            ]);
        },
        StartFault::Nonblocking => {
            push_text(&mut p, "K-Social server nonblocking setup failed: ");
            push_text(&mut p, error);
            assert(texts(p@) =~= seq!["K-Social server nonblocking setup failed: "@, error@]);
        },
        StartFault::Address => {
            push_text(&mut p, "K-Social server address error: ");
            push_text(&mut p, error);
            assert(texts(p@) =~= seq!["K-Social server address error: "@, error@]);
        },
        StartFault::Spawn => {
            push_text(&mut p, "K-Social server spawn failed: ");
            push_text(&mut p, error);
            assert(texts(p@) =~= seq!["K-Social server spawn failed: "@, error@]);
        },
    }
    join(&p)
}

} // verus!
