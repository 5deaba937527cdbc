//! The single-instance server: the proxy auto-configuration script it
//! serves, the request a second instance sends to the first, and the
//! one-shot shutdown signal.

use vstd::prelude::*;
use crate::text::{split_char, split_on, chars_of, decimal, decimal_string, index_of_char, lemma_index_of_char_scan, replace_all, replace_str, starts_with, str_eq, string_from_chars};
use crate::help::{percent_decode, percent_decoded};
use crate::logging::has_prefix;
use crate::verge::{default_pac, default_pac_text};

verus! {

/// The port the script's proxies point at: the settings' mixed port, else
/// the core's.
pub open spec fn pac_port(verge_mixed_port: Option<u16>, clash_mixed_port: u16) -> u16 {
    match verge_mixed_port {
        Some(p) => p,
        None => clash_mixed_port,
    }
}

/// The proxy auto-configuration script served: the configured script (or
/// the default one) with every `%mixed-port%` replaced by the port.
pub fn pac_script(content: Option<&str>, verge_mixed_port: Option<u16>, clash_mixed_port: u16) -> (r:
    String)
    ensures
        r@ == replace_all(
            match content {
                Some(c) => c@,
                None => default_pac_text(),
            },
            "%mixed-port%"@,
            decimal(pac_port(verge_mixed_port, clash_mixed_port) as nat),
        ),
{
    let text = match content {
        Some(c) => c,
        None => default_pac(),
    };
    let port = match verge_mixed_port {
        Some(p) => p,
        None => clash_mixed_port,
    };
    let port_text = decimal_string(port as u64);
    proof {
        reveal_strlit("%mixed-port%");
    }
    replace_str(text, "%mixed-port%", port_text.as_str())
}

/// What starting up does about another running instance.
pub enum SingletonAction {
    /// No other instance: carry on.
    Proceed,
    /// Another instance runs: send it this request (if any), then exit.
    Exit(Option<String>),
}

/// The local URL of a command of the single-instance server.
pub open spec fn command_url(port: u16, path: Seq<char>) -> Seq<char> {
    "http://127.0.0.1:"@ + decimal(port as nat) + path
}

/// Decides start-up against a running instance on `port`. A link to hand
/// over (the first argument, when it starts with `clash:`) goes to the
/// `scheme` command; without arguments the running instance is asked to
/// show its window; other arguments send nothing. Either way this instance
/// then exits.
pub fn check_singleton(port_in_use: bool, port: u16, args: &Vec<String>) -> (r: SingletonAction)
    ensures
        !port_in_use ==> r is Proceed,
        port_in_use ==> match r {
            SingletonAction::Exit(req) => if args@.len() > 1 {
                if starts_with(args@[1]@, "clash:"@) {
                    req matches Some(u) && u@ == command_url(port, "/commands/scheme?param="@)
                        + args@[1]@
                } else {
                    req is None
                }
            } else {
                req matches Some(u) && u@ == command_url(port, "/commands/visible"@)
            },
            SingletonAction::Proceed => false,
        },
{
    if !port_in_use {
        return SingletonAction::Proceed;
    }
    let mut url = "http://127.0.0.1:".to_owned();
    let p = decimal_string(port as u64);
    url.append(p.as_str());
    if args.len() > 1 {
        let param = args[1].as_str();
        if has_prefix(param, "clash:") {
            url.append("/commands/scheme?param=");
            url.append(param);
            SingletonAction::Exit(Some(url))
        } else {
            SingletonAction::Exit(None)
        }
    } else {
        url.append("/commands/visible");
        SingletonAction::Exit(Some(url))
    }
}

/// Takes the shutdown signal of the embedded server out of its slot, so
/// that it is sent once at most.
pub fn shutdown_embedded_server<T>(slot: &mut Option<T>) -> (sent: Option<T>)
    ensures
        sent == *old(slot),
        *final(slot) is None,
{
    slot.take()
}

/// The content type the proxy auto-configuration script is served with.
pub fn pac_content_type() -> (r: &'static str)
    ensures
        r@ == "application/x-ns-proxy-autoconfig"@,
{
    "application/x-ns-proxy-autoconfig"
}

/// What a request to the single-instance server asks for.
pub enum ServerRoute {
    /// Show the main window.
    Visible,
    /// Send the proxy auto-configuration script.
    Pac,
    /// Hand over a `clash:` link, percent-decoded.
    Scheme(String),
    /// Anything else.
    NotFound,
}

/// The path of a request target: the part before the first `?`.
pub open spec fn request_path(target: Seq<char>) -> Seq<char> {
    let i = index_of_char(target, '?');
    if i >= 0 {
        target.take(i)
    } else {
        target
    }
}

/// The query of a request target: the part after the first `?`, if any.
pub open spec fn request_query(target: Seq<char>) -> Option<Seq<char>> {
    let i = index_of_char(target, '?');
    if i >= 0 {
        Some(target.skip(i + 1))
    } else {
        None
    }
}

/// `s` with every `+` read as a space, as form decoding does.
pub open spec fn plus_to_space(s: Seq<char>) -> Seq<char> {
    s.map_values(|c: char| if c == '+' { ' ' } else { c })
}

/// A form-encoded name or value decoded: `+` as a space, then
/// percent-decoding.
pub open spec fn form_decoded(s: Seq<char>) -> Seq<char> {
    percent_decoded(plus_to_space(s))
}

/// The name of a `name=value` piece: what precedes the first `=`.
pub open spec fn pair_name(piece: Seq<char>) -> Seq<char> {
    let i = index_of_char(piece, '=');
    if i >= 0 {
        piece.take(i)
    } else {
        piece
    }
}

/// The value of a `name=value` piece: what follows the first `=`, empty
/// when there is none.
pub open spec fn pair_value(piece: Seq<char>) -> Seq<char> {
    let i = index_of_char(piece, '=');
    if i >= 0 {
        piece.skip(i + 1)
    } else {
        Seq::empty()
    }
}

/// The decoded values of the pieces whose decoded name is `param`, in order.
pub open spec fn param_values(pieces: Seq<Seq<char>>) -> Seq<Seq<char>>
    decreases pieces.len(),
{
    if pieces.len() == 0 {
        Seq::empty()
    } else {
        let rest = param_values(pieces.drop_last());
        let p = pieces.last();
        if form_decoded(pair_name(p)) == "param"@ {
            rest.push(form_decoded(pair_value(p)))
        } else {
            rest
        }
    }
}

/// The values a query string gives for `param` (its `&`-separated pieces).
pub open spec fn query_params(q: Seq<char>) -> Seq<Seq<char>> {
    param_values(split_on(q, '&'))
}

/// Decodes a form-encoded name or value.
fn form_decode(s: &str) -> (r: String)
    ensures
        r@ == form_decoded(s@),
{
    let v = chars_of(s);
    let mut out: Vec<char> = Vec::new();
    let mut i: usize = 0;
    while i < v.len()
        invariant
            i <= v@.len(),
            v@ == s@,
            out@ == plus_to_space(v@.take(i as int)),
        decreases v@.len() - i,
    {
        let c = if v[i] == '+' {
            ' '
        } else {
            v[i]
        };
        out.push(c);
        assert(plus_to_space(v@.take(i + 1)) =~= plus_to_space(v@.take(i as int)).push(c));
        i = i + 1;
    }
    assert(v@.take(i as int) =~= v@);
    let plain = string_from_chars(out.as_slice());
    percent_decode(plain.as_str())
}

/// Splits a piece at its first `=`.
fn split_pair(piece: &str) -> (r: (String, String))
    ensures
        r.0@ == pair_name(piece@),
        r.1@ == pair_value(piece@),
{
    let v = chars_of(piece);
    let mut i: usize = 0;
    while i < v.len() && v[i] != '='
        invariant
            i <= v@.len(),
            v@ == piece@,
            forall|j: int| 0 <= j < i ==> #[trigger] v@[j] != '=',
        decreases v@.len() - i,
    {
        i = i + 1;
    }
    proof {
        lemma_index_of_char_scan(piece@, '=', i as int);
    }
    let (head, tail) = v.as_slice().split_at(i);
    let name = string_from_chars(head);
    assert(name@ =~= pair_name(piece@));
    if i == v.len() {
        return (name, String::new());
    }
    let (_eq, rest) = tail.split_at(1);
    let value = string_from_chars(rest);
    assert(value@ =~= pair_value(piece@));
    (name, value)
}

/// The decoded values of `param` in a query string.
fn query_param_values(query: &str) -> (r: Vec<String>)
    ensures
        r@.map_values(|x: String| x@) == query_params(query@),
{
    let pieces = split_char(query, '&');
    let ghost ps = pieces@.map_values(|x: String| x@);
    let mut out: Vec<String> = Vec::new();
    let mut i: usize = 0;
    proof {
        reveal_strlit("param");
    }
    assert(ps.take(0) =~= Seq::<Seq<char>>::empty());
    assert(out@.map_values(|x: String| x@) =~= Seq::<Seq<char>>::empty());
    while i < pieces.len()
        invariant
            i <= pieces@.len(),
            ps == pieces@.map_values(|x: String| x@),
            ps == split_on(query@, '&'),
            out@.map_values(|x: String| x@) == param_values(ps.take(i as int)),
        decreases pieces@.len() - i,
    {
        assert(ps.take(i + 1).drop_last() =~= ps.take(i as int));
        assert(ps.take(i + 1).last() == pieces@[i as int]@);
        let (name, value) = split_pair(pieces[i].as_str());
        let decoded_name = form_decode(name.as_str());
        if str_eq(decoded_name.as_str(), "param") {
            let ghost before = out@;
            let decoded_value = form_decode(value.as_str());
            out.push(decoded_value);
            assert(out@.map_values(|x: String| x@) =~= before.map_values(|x: String| x@).push(
                out@[before.len() as int]@,
            ));
        }
        i = i + 1;
    }
    assert(ps.take(i as int) =~= ps);
    out
}

/// Routes a request target (path and query) of the single-instance server:
/// `/commands/visible`, `/commands/pac`, and `/commands/scheme` with exactly
/// one form-encoded `param` in its query (other names are ignored).
pub fn route_request(target: &str) -> (r: ServerRoute)
    ensures
        ({
            let p = request_path(target@);
            if p == "/commands/visible"@ {
                r is Visible
            } else if p == "/commands/pac"@ {
                r is Pac
            } else if p == "/commands/scheme"@ && (request_query(target@) matches Some(q)
                && query_params(q).len() == 1) {
                r matches ServerRoute::Scheme(link) && link@ == query_params(
                    request_query(target@)->0,
                )[0]
            } else {
                r is NotFound
            }
        }),
{
    let v = chars_of(target);
    let mut i: usize = 0;
    while i < v.len() && v[i] != '?'
        invariant
            i <= v@.len(),
            v@ == target@,
            forall|j: int| 0 <= j < i ==> #[trigger] v@[j] != '?',
        decreases v@.len() - i,
    {
        i = i + 1;
    }
    proof {
        lemma_index_of_char_scan(target@, '?', i as int);
    }
    let (head, tail) = v.as_slice().split_at(i);
    let path = string_from_chars(head);
    assert(path@ =~= request_path(target@));
    proof {
        reveal_strlit("/commands/visible");
        reveal_strlit("/commands/pac");
        reveal_strlit("/commands/scheme");
    }
    if str_eq(path.as_str(), "/commands/visible") {
        return ServerRoute::Visible;
    }
    if str_eq(path.as_str(), "/commands/pac") {
        return ServerRoute::Pac;
    }
    if !str_eq(path.as_str(), "/commands/scheme") || i == v.len() {
        return ServerRoute::NotFound;
    }
    let (_mark, query_chars) = tail.split_at(1);
    let query = string_from_chars(query_chars);
    assert(query@ =~= target@.skip(i + 1));
    let mut values = query_param_values(query.as_str());
    if values.len() != 1 {
        return ServerRoute::NotFound;
    }
    let ghost vals = values@;
    let link = values.pop().unwrap();
    assert(link == vals[0]);
    assert(vals.map_values(|x: String| x@)[0] == vals[0]@);
    ServerRoute::Scheme(link)
}

} // verus!
