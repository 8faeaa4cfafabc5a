//! The local web server that serves the explorer's files.
//!
//! The server maps the path of a request to a file under its root. A
//! path never leads out of the root: what could make it do so is removed
//! before the path is used.

use crate::launcher::{
    candidate_views, no_candidates, place, push_candidate, Base, Candidate, CandidateView,
};
use crate::modules::k_social::first_line;
use crate::text::{
    before_char, before_char_chars, chars_eq_str, chars_of, concat, decimal, extend_chars,
    has_at_chars, join, lines_chars, no_pieces, nth_word, push_number, push_piece, push_text,
    rfind_char, rfind_char_chars, slice_of, split_on, split_on_chars, starts_with, str_eq,
    string_of, strip_end, strip_end_chars, strip_start, strip_start_chars, texts, trim, trimmed,
    words, words_chars, CharClass,
};
use vstd::prelude::*;
use vstd::string::StringExecFns;

verus! {

/// The address on which the server listens.
pub const EXPLORER_HOST: &'static str = "127.0.0.1";

/// The port on which the server listens where the settings name none.
pub const DEFAULT_EXPLORER_PORT: u16 = 51963;

/// The port on which the server listens.
pub fn effective_port(port: u16) -> (p: u16)
    ensures
        p == if port == 0 {
            DEFAULT_EXPLORER_PORT
        } else {
            port
        },
{
    if port == 0 {
        DEFAULT_EXPLORER_PORT
    } else {
        port
    }
}

/// The address under which the server is reached.
pub open spec fn server_url(port: u16) -> Seq<char> {
    concat(seq!["http://127.0.0.1:"@, decimal(port as nat), "/"@])
}

pub fn explorer_server_url(port: u16) -> (r: String)
    ensures
        r@ == server_url(port),
{
    let mut p = no_pieces();
    push_text(&mut p, "http://127.0.0.1:");
    push_number(&mut p, port as u64);
    push_text(&mut p, "/");
    assert(texts(p@) =~= seq!["http://127.0.0.1:"@, decimal(port as nat), "/"@]);
    join(&p)
}

// ---------------------------------------------------------------------------
// Percent decoding
// ---------------------------------------------------------------------------

/// The value of a hexadecimal digit.
pub open spec fn hex_value(c: char) -> Option<nat> {
    let n = c as u32;
    if 0x30 <= n && n <= 0x39 {
        Some((n - 0x30) as nat)
    } else if 0x41 <= n && n <= 0x46 {
        Some((n - 0x41 + 10) as nat)
    } else if 0x61 <= n && n <= 0x66 {
        Some((n - 0x61 + 10) as nat)
    } else {
        None
    }
}

/// The byte that two characters after a percent sign stand for: two
/// hexadecimal digits, or a plus sign and one hexadecimal digit.
pub open spec fn escaped_byte(hi: char, lo: char) -> Option<u8> {
    match (hex_value(hi), hex_value(lo)) {
        (Some(h), Some(l)) => Some((h * 16 + l) as u8),
        (None, Some(l)) => if hi == '+' {
            Some(l as u8)
        } else {
            None
        },
        _ => None,
    }
}

/// `s` with every percent sign and the two characters after it replaced
/// by the character that they stand for. A percent sign that is not
/// followed by an escaped byte is kept, together with what follows it.
pub open spec fn percent_decoded(s: Seq<char>) -> Seq<char>
    decreases s.len(),
{
    if s.len() == 0 {
        s
    } else if s[0] != '%' {
        seq![s[0]] + percent_decoded(s.skip(1))
    } else if s.len() >= 3 {
        match escaped_byte(s[1], s[2]) {
            Some(b) => seq![b as char] + percent_decoded(s.skip(3)),
            None => seq![s[0], s[1], s[2]] + percent_decoded(s.skip(3)),
        }
    } else {
        s
    }
}

fn hex_digit(c: char) -> (r: Option<u8>)
    ensures
        match r {
            Some(v) => hex_value(c) == Some(v as nat) && v < 16,
            None => hex_value(c) is None,
        },
{
    let n: u32 = c as u32;
    if 0x30 <= n && n <= 0x39 {
        Some((n - 0x30) as u8)
    } else if 0x41 <= n && n <= 0x46 {
        Some((n - 0x41 + 10) as u8)
    } else if 0x61 <= n && n <= 0x66 {
        Some((n - 0x61 + 10) as u8)
    } else {
        None
    }
}

fn escaped(hi: char, lo: char) -> (r: Option<u8>)
    ensures
        r == escaped_byte(hi, lo),
{
    match (hex_digit(hi), hex_digit(lo)) {
        (Some(h), Some(l)) => Some(h * 16 + l),
        (None, Some(l)) => {
            if hi == '+' {
                Some(l)
            } else {
                None
            }
        },
        _ => None,
    }
}

fn percent_decode_chars(v: &Vec<char>) -> (out: Vec<char>)
    ensures
        out@ == percent_decoded(v@),
{
    let mut out: Vec<char> = Vec::new();
    let mut i: usize = 0;
    assert(v@.skip(0) =~= v@);
    while i < v.len()
        invariant
            i <= v.len(),
            percent_decoded(v@) == out@ + percent_decoded(v@.skip(i as int)),
        decreases v.len() - i,
    {
        let ghost s = v@.skip(i as int);
        let ghost before = out@;
        let ch = v[i];
        assert(s[0] == ch);
        if ch != '%' {
            out.push(ch);
            assert(s.skip(1) =~= v@.skip(i + 1));
            assert(before + (seq![ch] + percent_decoded(s.skip(1))) =~= out@ + percent_decoded(
                s.skip(1),
            ));
            i = i + 1;
        } else if v.len() - i >= 3 {
            let hi = v[i + 1];
            let lo = v[i + 2];
            assert(s[1] == hi && s[2] == lo);
            assert(s.skip(3) =~= v@.skip(i + 3));
            match escaped(hi, lo) {
                Some(b) => {
                    out.push(b as char);
                    assert(before + (seq![b as char] + percent_decoded(s.skip(3))) =~= out@
                        + percent_decoded(s.skip(3)));
                },
                None => {
                    out.push(ch);
                    out.push(hi);
                    out.push(lo);
                    assert(before + (seq![ch, hi, lo] + percent_decoded(s.skip(3))) =~= out@
                        + percent_decoded(s.skip(3)));
                },
            }
            i = i + 3;
        } else {
            let rest = slice_of(v, i, v.len());
            assert(rest@ =~= s);
            extend_chars(&mut out, &rest);
            assert(percent_decoded(v@) =~= out@);
            return out;
        }
    }
    assert(percent_decoded(v@.skip(v.len() as int)) =~= Seq::<char>::empty());
    assert(out@ + Seq::<char>::empty() =~= out@);
    out
}

/// Decodes the percent escapes of a path.
pub fn percent_decode(path: &str) -> (r: String)
    ensures
        r@ == percent_decoded(path@),
{
    string_of(&percent_decode_chars(&chars_of(path)))
}

// ---------------------------------------------------------------------------
// Paths
// ---------------------------------------------------------------------------

/// Whether a part of a path is kept: empty parts and the parts that
/// stand for the directory itself and for its parent are not.
pub open spec fn is_plain_segment(seg: Seq<char>) -> bool {
    seg.len() > 0 && seg != "."@ && seg != ".."@
}

/// The parts that are kept, each with a slash before it.
pub open spec fn joined_segments(parts: Seq<Seq<char>>) -> Seq<char>
    decreases parts.len(),
{
    if parts.len() == 0 {
        Seq::empty()
    } else if is_plain_segment(parts.last()) {
        if joined_segments(parts.drop_last()).len() == 0 {
            parts.last()
        } else {
            joined_segments(parts.drop_last()) + seq!['/'] + parts.last()
        }
    } else {
        joined_segments(parts.drop_last())
    }
}

/// The path of a request as it is looked up under the root: without the
/// query, decoded, and freed of every part that is empty or stands for a
/// directory or its parent.
pub open spec fn clean_path(path: Seq<char>) -> Seq<char> {
    seq!['/'] + joined_segments(split_on(percent_decoded(before_char(path, '?')), '/'))
}

/// Cleans the path of a request.
pub fn sanitize_path(path: &str) -> (r: String)
    ensures
        r@ == clean_path(path@),
{
    let v = chars_of(path);
    let plain = before_char_chars(&v, '?');
    let decoded = percent_decode_chars(&plain);
    let parts = split_on_chars(&decoded, '/');
    let ghost all = texts(parts@);
    let mut joined: Vec<char> = Vec::new();
    let mut i: usize = 0;
    assert(all.take(0) =~= Seq::<Seq<char>>::empty());
    while i < parts.len()
        invariant
            i <= parts.len(),
            all == texts(parts@),
            joined@ == joined_segments(all.take(i as int)),
        decreases parts.len() - i,
    {
        proof {
            assert(all.take(i + 1).drop_last() =~= all.take(i as int));
            assert(all.take(i + 1).last() == parts@[i as int]@);
            reveal_strlit(".");
            reveal_strlit("..");
        }
        let seg = &parts[i];
        if seg.len() > 0 && !chars_eq_str(seg, ".") && !chars_eq_str(seg, "..") {
            if joined.len() > 0 {
                joined.push('/');
            }
            extend_chars(&mut joined, seg);
        }
        i = i + 1;
    }
    assert(all.take(parts.len() as int) =~= all);
    let mut out: Vec<char> = Vec::new();
    out.push('/');
    extend_chars(&mut out, &joined);
    assert(out@ =~= seq!['/'] + joined@);
    string_of(&out)
}

/// What follows the last dot of the name of the file that a path leads
/// to; `None` where the name has no dot after its first character.
/// Slashes at the end of the path do not count.
pub open spec fn extension(path: Seq<char>) -> Option<Seq<char>> {
    let bare = strip_end(path, CharClass::Only('/'));
    let file = match rfind_char(bare, '/') {
        Some(i) => bare.skip(i + 1),
        None => bare,
    };
    if file == ".."@ {
        None
    } else {
        match rfind_char(file, '.') {
            Some(i) => if i > 0 {
                Some(file.skip(i + 1))
            } else {
                None
            },
            None => None,
        }
    }
}

/// The type of content that a file of the given extension holds.
pub open spec fn content_type(ext: Option<Seq<char>>) -> Seq<char> {
    match ext {
        None => "application/octet-stream"@,
        Some(e) => if e == "html"@ {
            "text/html; charset=utf-8"@
        } else if e == "js"@ {
            "application/javascript; charset=utf-8"@
        } else if e == "css"@ {
            "text/css; charset=utf-8"@
        } else if e == "json"@ {
            "application/json; charset=utf-8"@
        } else if e == "svg"@ {
            "image/svg+xml"@
        } else if e == "png"@ {
            "image/png"@
        } else if e == "jpg"@ || e == "jpeg"@ {
            "image/jpeg"@
        } else if e == "gif"@ {
            "image/gif"@
        } else if e == "webp"@ {
            "image/webp"@
        } else if e == "ico"@ {
            "image/x-icon"@
        } else if e == "woff"@ {
            "font/woff"@
        } else if e == "woff2"@ {
            "font/woff2"@
        } else if e == "ttf"@ {
            "font/ttf"@
        } else if e == "otf"@ {
            "font/otf"@
        } else {
            "application/octet-stream"@
        },
    }
}

/// The extension of the file that a path names.
pub fn extension_of(path: &str) -> (r: Option<Vec<char>>)
    ensures
        match r {
            Some(e) => extension(path@) == Some(e@),
            None => extension(path@) is None,
        },
{
    let v = strip_end_chars(&chars_of(path), CharClass::Only('/'));
    let file = match rfind_char_chars(&v, '/') {
        Some(i) => {
            let f = slice_of(&v, i + 1, v.len());
            assert(f@ == v@.skip(i + 1));
            f
        },
        None => v,
    };
    if chars_eq_str(&file, "..") {
        return None;
    }
    match rfind_char_chars(&file, '.') {
        Some(i) => {
            if i > 0 {
                let e = slice_of(&file, i + 1, file.len());
                assert(e@ == file@.skip(i + 1));
                Some(e)
            } else {
                None
            }
        },
        None => None,
    }
}

/// The type of content of the file that a path names, by its extension.
pub fn content_type_for_path(path: &str) -> (r: &'static str)
    ensures
        r@ == content_type(extension(path@)),
{
    let e = match extension_of(path) {
        Some(e) => e,
        None => {
            return "application/octet-stream";
        },
    };
    if chars_eq_str(&e, "html") {
        "text/html; charset=utf-8"
    } else if chars_eq_str(&e, "js") {
        "application/javascript; charset=utf-8"
    } else if chars_eq_str(&e, "css") {
        "text/css; charset=utf-8"
    } else if chars_eq_str(&e, "json") {
        "application/json; charset=utf-8"
    } else if chars_eq_str(&e, "svg") {
        "image/svg+xml"
    } else if chars_eq_str(&e, "png") {
        "image/png"
    } else if chars_eq_str(&e, "jpg") || chars_eq_str(&e, "jpeg") {
        "image/jpeg"
    } else if chars_eq_str(&e, "gif") {
        "image/gif"
    } else if chars_eq_str(&e, "webp") {
        "image/webp"
    } else if chars_eq_str(&e, "ico") {
        "image/x-icon"
    } else if chars_eq_str(&e, "woff") {
        "font/woff"
    } else if chars_eq_str(&e, "woff2") {
        "font/woff2"
    } else if chars_eq_str(&e, "ttf") {
        "font/ttf"
    } else if chars_eq_str(&e, "otf") {
        "font/otf"
    } else {
        "application/octet-stream"
    }
}

/// The head of the answer with which a file is served.
pub open spec fn response_head(content_type: Seq<char>, length: nat) -> Seq<char> {
    concat(
        seq![
            "HTTP/1.1 200 OK\r\nContent-Type: "@,
            content_type,
            "\r\nContent-Length: "@,
            decimal(length),
            "\r\nCache-Control: no-cache\r\n\r\n"@,
        ],
    )
}

pub fn response_header(content_type: &str, length: u64) -> (r: String)
    ensures
        r@ == response_head(content_type@, length as nat),
{
    let mut p = no_pieces();
    push_text(&mut p, "HTTP/1.1 200 OK\r\nContent-Type: ");
    push_text(&mut p, content_type);
    push_text(&mut p, "\r\nContent-Length: ");
    push_number(&mut p, length);
    push_text(&mut p, "\r\nCache-Control: no-cache\r\n\r\n");
    assert(texts(p@) =~= seq![
        "HTTP/1.1 200 OK\r\nContent-Type: "@,
        content_type@,
        "\r\nContent-Length: "@,
        decimal(length as nat),
        "\r\nCache-Control: no-cache\r\n\r\n"@,
    ]);
    join(&p)
}

/// The address that the explorer is opened at: the server's address,
/// followed by the path that was last shown.
pub open spec fn start_url(server: Seq<char>, stored_path: Seq<char>) -> Seq<char> {
    let t = trim(stored_path);
    if t.len() == 0 || t == "/"@ {
        concat(seq![server])
    } else if t[0] == '/' {
        concat(seq![server, t.skip(1)])
    } else {
        concat(seq![server, t])
    }
}

pub fn explorer_start_url(server_url: &str, stored_path: &str) -> (r: String)
    ensures
        r@ == start_url(server_url@, stored_path@),
{
    let t = trimmed(stored_path);
    let mut p = no_pieces();
    push_text(&mut p, server_url);
    proof {
        reveal_strlit("/");
    }
    if t.len() == 0 || chars_eq_str(&t, "/") {
        assert(texts(p@) =~= seq![server_url@]);
    } else if t[0] == '/' {
        let rest = slice_of(&t, 1, t.len());
        assert(rest@ == t@.skip(1));
        push_piece(&mut p, &rest);
        assert(texts(p@) =~= seq![server_url@, t@.skip(1)]);
    } else {
        push_piece(&mut p, &t);
        assert(texts(p@) =~= seq![server_url@, t@]);
    }
    join(&p)
}

/// `s` without every repetition of `prefix` at its start.
pub open spec fn without_prefixes(s: Seq<char>, prefix: Seq<char>) -> Seq<char>
    decreases s.len(),
{
    if prefix.len() > 0 && starts_with(s, prefix) {
        without_prefixes(s.skip(prefix.len() as int), prefix)
    } else {
        s
    }
}

/// The path that the explorer shows, read from its address: what follows
/// the server's address, with a slash before it. `None` for an address
/// that is not the server's.
pub open spec fn shown_path(current_url: Seq<char>, base_url: Seq<char>) -> Option<Seq<char>> {
    if !starts_with(current_url, base_url) {
        None
    } else {
        let rest = without_prefixes(current_url, base_url);
        if rest.len() == 0 {
            Some("/"@)
        } else if rest[0] == '/' {
            Some(rest)
        } else {
            Some(seq!['/'] + rest)
        }
    }
}

pub fn extract_explorer_path(current_url: &str, base_url: &str) -> (r: Option<String>)
    ensures
        match r {
            Some(p) => shown_path(current_url@, base_url@) == Some(p@),
            None => shown_path(current_url@, base_url@) is None,
        },
{
    let url = chars_of(current_url);
    let base = chars_of(base_url);
    if !has_at_chars(&url, &base, 0) {
        return None;
    }
    let mut from: usize = 0;
    assert(url@.skip(0) =~= url@);
    if base.len() > 0 {
        while has_at_chars(&url, &base, from)
            invariant
                from <= url.len(),
                base.len() > 0,
                without_prefixes(url@, base@) == without_prefixes(url@.skip(from as int), base@),
            decreases url.len() - from,
        {
            proof {
                let s = url@.skip(from as int);
                assert(s.subrange(0, base.len() as int) =~= url@.subrange(
                    from as int,
                    from + base.len(),
                ));
                assert(s.skip(base.len() as int) =~= url@.skip(from + base.len()));
            }
            from = from + base.len();
        }
        proof {
            let s = url@.skip(from as int);
            if starts_with(s, base@) {
                assert(s.subrange(0, base.len() as int) =~= url@.subrange(
                    from as int,
                    from + base.len(),
                ));
            }
        }
    }
    let rest = slice_of(&url, from, url.len());
    assert(rest@ == url@.skip(from as int));
    if rest.len() == 0 {
        proof {
            reveal_strlit("/");
        }
        Some(String::from_str("/"))
    } else if rest[0] == '/' {
        Some(string_of(&rest))
    } else {
        let mut out: Vec<char> = Vec::new();
        out.push('/');
        extend_chars(&mut out, &rest);
        assert(out@ =~= seq!['/'] + rest@);
        Some(string_of(&out))
    }
}

// ---------------------------------------------------------------------------
// Answering a request
// ---------------------------------------------------------------------------

/// Number of bytes that are read of a request.
pub const REQUEST_BUFFER: usize = 8192;

/// The page of the explorer.
pub const INDEX_FILE: &'static str = "index.html";

/// The path that a request names: the second word of its first line, or
/// `/` where it names none.
pub open spec fn requested(request: Seq<char>) -> Seq<char> {
    match nth_word(first_line(request), 1) {
        Some(path) => path,
        None => "/"@,
    }
}

/// Reads the path that a request names.
pub fn requested_path(request: &str) -> (r: String)
    ensures
        r@ == requested(request@),
{
    let all = lines_chars(&chars_of(request));
    let line = if all.len() > 0 {
        assert(texts(all@)[0] == all@[0]@);
        let l = slice_of(&all[0], 0, all[0].len());
        assert(l@ == all@[0]@);
        l
    } else {
        Vec::new()
    };
    assert(line@ == first_line(request@));
    let ws = words_chars(&line);
    if ws.len() > 1 {
        assert(ws@[1]@ == words(line@)[1]);
        string_of(&ws[1])
    } else {
        String::from_str("/")
    }
}

/// The file that a path names under the root, where the path is written
/// with a slash before it.
pub open spec fn file_under_root(path: Seq<char>) -> Seq<char> {
    strip_start(path, CharClass::Only('/'))
}

/// Whether a request is answered with the page of the explorer: it asks
/// for the root, or for what is no file.
pub open spec fn serves_index(path: Seq<char>, present: bool, is_file: bool) -> bool {
    path == "/"@ || !present || !is_file
}

/// The file, relative to the root, that answers a request for the path
/// `path`. `present` and `is_file` say what lies where the path says.
pub open spec fn answering_file(path: Seq<char>, present: bool, is_file: bool) -> Seq<char> {
    if serves_index(path, present, is_file) {
        INDEX_FILE@
    } else {
        file_under_root(path)
    }
}

/// The file under the root that a path names.
pub fn file_for_path(path: &str) -> (r: String)
    ensures
        r@ == file_under_root(path@),
{
    string_of(&strip_start_chars(&chars_of(path), CharClass::Only('/')))
}

/// Chooses the file that answers a request.
pub fn file_to_serve(path: &str, present: bool, is_file: bool) -> (r: String)
    ensures
        r@ == answering_file(path@, present, is_file),
{
    if str_eq(path, "/") || !present || !is_file {
        String::from_str(INDEX_FILE)
    } else {
        file_for_path(path)
    }
}

// ---------------------------------------------------------------------------
// Starting the server
// ---------------------------------------------------------------------------

/// The file that marks a directory as a build of the explorer.
pub const BUILD_MARKER: &'static str = "index.html";

/// What the operator is told where no build of the explorer is found.
pub const BUILD_MISSING: &'static str =
    "Explorer build not found. Run `npm install` and `npm run build` in `kaspa-explorer-ng`.";

/// The directories in which a build of the explorer is looked for, in
/// order: under the working directory first, then beside the
/// application's executable.
pub open spec fn explorer_root_places() -> Seq<CandidateView> {
    seq![
        place(Base::WorkingDir, "kaspa-explorer-ng/build/client"@),
        place(Base::WorkingDir, "kaspa-explorer-ng/build"@),
        place(Base::WorkingDir, "kaspa-explorer-ng/dist"@),
        place(Base::ExeDir, "kaspa-explorer-ng/build/client"@),
        place(Base::ExeDir, "kaspa-explorer-ng/build"@),
        place(Base::ExeDir, "kaspa-explorer-ng/dist"@),
    ]
}

/// The directories in which a build of the explorer is looked for. The
/// first one that holds [`BUILD_MARKER`] is the root of the server.
pub fn explorer_root_candidates() -> (v: Vec<Candidate>)
    ensures
        candidate_views(v@) == explorer_root_places(),
{
    let mut v = no_candidates();
    push_candidate(&mut v, Base::WorkingDir, String::from_str("kaspa-explorer-ng/build/client"));
    push_candidate(&mut v, Base::WorkingDir, String::from_str("kaspa-explorer-ng/build"));
    push_candidate(&mut v, Base::WorkingDir, String::from_str("kaspa-explorer-ng/dist"));
    push_candidate(&mut v, Base::ExeDir, String::from_str("kaspa-explorer-ng/build/client"));
    push_candidate(&mut v, Base::ExeDir, String::from_str("kaspa-explorer-ng/build"));
    push_candidate(&mut v, Base::ExeDir, String::from_str("kaspa-explorer-ng/dist"));
    assert(candidate_views(v@) =~= explorer_root_places());
    v
}

/// What the operator is told where the port cannot be bound.
pub open spec fn bind_failed(port: u16, error: Seq<char>) -> Seq<char> {
    concat(
        seq![
            "Explorer server bind failed on 127.0.0.1:"@,
            decimal(port as nat),
            " ("@,
            error,
            "). Close other instances or free the port."@,
        ],
    )
}

pub fn bind_failed_line(port: u16, error: &str) -> (r: String)
    ensures
        r@ == bind_failed(port, error@),
{
    let mut p = no_pieces();
    push_text(&mut p, "Explorer server bind failed on 127.0.0.1:");
    push_number(&mut p, port as u64);
    push_text(&mut p, " (");
    push_text(&mut p, error);
    push_text(&mut p, "). Close other instances or free the port.");
    assert(texts(p@) =~= seq![
        "Explorer server bind failed on 127.0.0.1:"@,
        decimal(port as nat),
        " ("@,
        error@,
        "). Close other instances or free the port."@,
    ]);
    join(&p)
}

/// What the operator is told where the bound address cannot be read.
pub open spec fn address_error(error: Seq<char>) -> Seq<char> {
    concat(seq!["Explorer server address error: "@, error])
}

pub fn address_error_line(error: &str) -> (r: String)
    ensures
        r@ == address_error(error@),
{
    let mut p = no_pieces();
    push_text(&mut p, "Explorer server address error: ");
    push_text(&mut p, error);
    assert(texts(p@) =~= seq!["Explorer server address error: "@, error@]);
    join(&p)
}

/// What the operator is told where the server's thread cannot be
/// started.
pub open spec fn spawn_failed(error: Seq<char>) -> Seq<char> {
    concat(seq!["Explorer server spawn failed: "@, error])
}

pub fn spawn_failed_line(error: &str) -> (r: String)
    ensures
        r@ == spawn_failed(error@),
{
    let mut p = no_pieces();
    push_text(&mut p, "Explorer server spawn failed: ");
    push_text(&mut p, error);
    assert(texts(p@) =~= seq!["Explorer server spawn failed: "@, error@]);
    join(&p)
}

} // verus!
