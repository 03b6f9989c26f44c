//! The name-resolution side of the remote coordination service: building the
//! two lookup requests and reading their replies.
//!
//! The service answers `GET {base}/name/{alias}` with `{"addr": "<address>"}`
//! and `GET {base}/addr/{address}` with `{"name": "<alias>"}`.  Transport is
//! not this crate's concern; the functions here compute the request paths and
//! decode the reply bodies, and malformed replies collapse to the empty
//! string rather than to an error — the caller treats "no answer" and "not
//! registered" alike.

use crate::json::{json_string_field, spec_text_field, string_field};
use vstd::prelude::*;

verus! {

/// The base address with a secure scheme supplied where none is present.
pub open spec fn spec_normalized_server(server: Seq<char>) -> Seq<char> {
    if server.len() >= 4 && server.take(4) == "http"@ {
        server
    } else {
        "https://"@ + server
    }
}

/// The URL of the forward lookup resolving `name` to a network address.
pub open spec fn spec_name_url(server: Seq<char>, name: Seq<char>) -> Seq<char> {
    spec_normalized_server(server) + "/name/"@ + name
}

/// The URL of the reverse lookup resolving `addr` to an alias.
pub open spec fn spec_addr_url(server: Seq<char>, addr: Seq<char>) -> Seq<char> {
    spec_normalized_server(server) + "/addr/"@ + addr
}

/// Prefixes the base address with a secure scheme where none is present.
fn normalized_server(server: &String) -> (r: String)
    ensures
        r@ == spec_normalized_server(server@),
{
    let n = server.as_str().unicode_len();
    let mut has_scheme = false;
    if n >= 4 {
        let head = server.as_str().substring_char(0, 4);
        if head.to_owned() == "http".to_owned() {
            has_scheme = true;
        }
        proof {
            assert(server@.take(4) =~= server@.subrange(0, 4));
        }
    }
    if has_scheme {
        server.clone()
    } else {
        "https://".to_owned().concat(server.as_str())
    }
}

/// Builds the forward-lookup URL for `name` against `server`.
pub fn name_lookup_url(server: &String, name: &String) -> (r: String)
    ensures
        r@ == spec_name_url(server@, name@),
{
    normalized_server(server).concat("/name/").concat(name.as_str())
}

/// Builds the reverse-lookup URL for `addr` against `server`.
pub fn addr_lookup_url(server: &String, addr: &String) -> (r: String)
    ensures
        r@ == spec_addr_url(server@, addr@),
{
    normalized_server(server).concat("/addr/").concat(addr.as_str())
}

/// The alias a reverse-lookup reply names: empty when the address is
/// unclaimed, or when the reply is malformed.
pub open spec fn spec_name_of_reply(doc: Seq<char>) -> Seq<char> {
    spec_text_field(doc, "name"@)
}

/// The network address a forward-lookup reply carries.  The service reports
/// the address under a two-character base marker, which is stripped; a reply
/// too short to carry one, or malformed, yields the empty string.
pub open spec fn spec_addr_of_reply(doc: Seq<char>) -> Seq<char> {
    match json_string_field(doc, "addr"@) {
        Option::Some(a) => if a.len() >= 3 {
            a.skip(2)
        } else {
            Seq::<char>::empty()
        },
        Option::None => Seq::<char>::empty(),
    }
}

/// Reads the alias out of a reverse-lookup reply body.
pub fn parse_name_reply(body: &str) -> (r: String)
    ensures
        r@ == spec_name_of_reply(body@),
{
    match string_field(body, "name") {
        Option::Some(name) => name,
        Option::None => String::new(),
    }
}

/// Reads the network address out of a forward-lookup reply body.
pub fn parse_addr_reply(body: &str) -> (r: String)
    ensures
        r@ == spec_addr_of_reply(body@),
{
    match string_field(body, "addr") {
        Option::Some(addr) => {
            let n = addr.as_str().unicode_len();
            if n >= 3 {
                let stripped = addr.as_str().substring_char(2, n);
                proof {
                    assert(addr@.subrange(2, n as int) =~= addr@.skip(2));
                }
                stripped.to_owned()
            } else {
                String::new()
            }
        },
        Option::None => String::new(),
    }
}

/// The text a remote `say` request submits, as if the human had typed it:
/// empty when the request body is malformed.
pub open spec fn spec_say_of_request(doc: Seq<char>) -> Seq<char> {
    spec_text_field(doc, "say"@)
}

/// Reads the submitted text out of a `say` request body.
pub fn parse_say_request(body: &str) -> (r: String)
    ensures
        r@ == spec_say_of_request(body@),
{
    match string_field(body, "say") {
        Option::Some(text) => text,
        Option::None => String::new(),
    }
}

} // verus!
