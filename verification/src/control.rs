//! Decisions of the control server: which identity a request is for, and
//! where it goes.

use vstd::prelude::*;
use vstd::string::*;
use vstd::utf8::encode_utf8;

use crate::http::{bad_request_, server_error_, Response, STATUS_BAD_REQUEST, STATUS_INTERNAL_SERVER_ERROR};

verus! {

/// Whether `i` is the position of the first '.' in `h`.
pub open spec fn is_first_dot(h: Seq<char>, i: int) -> bool {
    &&& 0 <= i < h.len()
    &&& h[i] == '.'
    &&& forall|j: int| 0 <= j < i ==> h[j] != '.'
}

/// The part of a host name before its first '.', where it has one.
pub open spec fn host_label(h: Seq<char>) -> Option<Seq<char>> {
    if exists|i: int| is_first_dot(h, i) {
        Some(h.subrange(0, choose|i: int| is_first_dot(h, i)))
    } else {
        None
    }
}

proof fn lemma_first_dot_unique(h: Seq<char>, i: int, k: int)
    requires
        is_first_dot(h, i),
        is_first_dot(h, k),
    ensures
        i == k,
{
}

/// The label of a host made of a text without '.', a '.', and any rest is
/// that whole text, however long; a host without '.' has no label.
pub proof fn lemma_host_label_is_text_before_first_dot(a: Seq<char>, b: Seq<char>)
    ensures
        !a.contains('.') ==> host_label(a + seq!['.'] + b) == Some(a),
        !a.contains('.') ==> host_label(a) is None,
{
    if !a.contains('.') {
        let h: Seq<char> = a + seq!['.'] + b;
        assert(h[a.len() as int] == '.');
        assert forall|j: int| 0 <= j < a.len() implies h[j] != '.' by {
            assert(h[j] == a[j]);
        }
        assert(is_first_dot(h, a.len() as int));
        let k: int = choose|k: int| is_first_dot(h, k);
        lemma_first_dot_unique(h, a.len() as int, k);
        assert(h.subrange(0, a.len() as int) =~= a);
        assert forall|k: int| !is_first_dot(a, k) by {
            if 0 <= k < a.len() && a[k] == '.' {
                assert(a.contains('.'));
            }
        }
    }
}

/// The identity that a `Host` header names: the text before its first '.'.
/// A host without a '.' names none.
pub fn host_id(host: &str) -> (r: Option<String>)
    ensures
        r is Some <==> host_label(host@) is Some,
        r matches Some(s) ==> host_label(host@) == Some(s@),
        r is None <==> !host@.contains('.'),
        r matches Some(s) ==> !s@.contains('.') && host@ == s@ + seq!['.'] + host@.subrange(
            s@.len() as int + 1,
            host@.len() as int,
        ),
{
    let n: usize = host.unicode_len();
    let mut i: usize = 0;
    while i < n
        invariant
            n == host@.len(),
            0 <= i <= n,
            forall|j: int| 0 <= j < i ==> host@[j] != '.',
        decreases n - i,
    {
        if host.get_char(i) == '.' {
            proof {
                assert(is_first_dot(host@, i as int));
                let k: int = choose|k: int| is_first_dot(host@, k);
                lemma_first_dot_unique(host@, i as int, k);
            }
            return Some(host.substring_char(0, i).to_owned());
        }
        i = i + 1;
    }
    assert(!exists|k: int| is_first_dot(host@, k));
    None
}

/// Whether entry `i` is the first entry of the map for identity `id`.
pub open spec fn is_first_entry(id_map: Seq<(String, u16)>, id: Seq<char>, i: int) -> bool {
    &&& 0 <= i < id_map.len()
    &&& id_map[i].0@ == id
    &&& forall|j: int| 0 <= j < i ==> id_map[j].0@ != id
}

/// The port of the first entry for identity `id`, where there is one.
pub open spec fn identity_port(id_map: Seq<(String, u16)>, id: Seq<char>) -> Option<u16> {
    if exists|i: int| is_first_entry(id_map, id, i) {
        Some(id_map[choose|i: int| is_first_entry(id_map, id, i)].1)
    } else {
        None
    }
}

proof fn lemma_first_entry_unique(id_map: Seq<(String, u16)>, id: Seq<char>, i: int, k: int)
    requires
        is_first_entry(id_map, id, i),
        is_first_entry(id_map, id, k),
    ensures
        i == k,
{
}

/// The identity port is that of the first entry with the name, wherever in
/// the map it stands.
pub proof fn lemma_identity_port_is_first_entry(id_map: Seq<(String, u16)>, id: Seq<char>, i: int)
    requires
        0 <= i < id_map.len(),
        id_map[i].0@ == id,
        forall|j: int| 0 <= j < i ==> (#[trigger] id_map[j]).0@ != id,
    ensures
        identity_port(id_map, id) == Some(id_map[i].1),
{
    assert(is_first_entry(id_map, id, i));
    let k: int = choose|k: int| is_first_entry(id_map, id, k);
    lemma_first_entry_unique(id_map, id, i, k);
}

/// The port of the local identity `id`: that of the first entry of the
/// identity map with this name, or none where no entry has it.
pub fn find_identity(id: &str, id_map: &Vec<(String, u16)>) -> (r: Option<u16>)
    ensures
        r == identity_port(id_map@, id@),
        r matches Some(p) ==> exists|i: int|
            0 <= i < id_map@.len() && (#[trigger] id_map@[i]).0@ == id@ && id_map@[i].1 == p && (
            forall|j: int| 0 <= j < i ==> (#[trigger] id_map@[j]).0@ != id@),
        r is None <==> forall|i: int| 0 <= i < id_map@.len() ==> (#[trigger] id_map@[i]).0@ != id@,
{
    let wanted: String = id.to_owned();
    let mut i: usize = 0;
    while i < id_map.len()
        invariant
            0 <= i <= id_map@.len(),
            wanted@ == id@,
            forall|j: int| 0 <= j < i ==> (#[trigger] id_map@[j]).0@ != id@,
        decreases id_map@.len() - i,
    {
        if id_map[i].0 == wanted {
            proof {
                assert(is_first_entry(id_map@, id@, i as int));
                let k: int = choose|k: int| is_first_entry(id_map@, id@, k);
                lemma_first_entry_unique(id_map@, id@, i as int, k);
            }
            return Some(id_map[i].1);
        }
        i = i + 1;
    }
    assert(!exists|k: int| is_first_entry(id_map@, id@, k));
    None
}

/// The default identity: the first entry of the identity map, which the
/// server keeps non-empty from its start.
pub fn default_identity(id_map: &Vec<(String, u16)>) -> (r: (String, u16))
    requires
        id_map@.len() > 0,
    ensures
        r.0@ == id_map@[0].0@,
        r.1 == id_map@[0].1,
{
    let first: &(String, u16) = &id_map[0];
    (first.0.clone(), first.1)
}

/// Changes the identity service asks for on a request it passes on.
#[derive(Debug, Default, Clone, PartialEq, Eq)]
pub struct RequestPatch {}

/// The answer of the default identity's service about an id that is not a
/// local identity.
#[derive(Debug)]
pub enum WhatToDo {
    /// The id belongs to a friend: send the request over to that peer.
    ForwardToPeer { peer_id: String, patch: RequestPatch },
    /// The id is an HTTP device of the identity: pass the request to its port.
    ProxyPass { port: u16, extra_headers: RequestPatch },
    /// Nobody known by that id.
    UnknownPeer,
}

/// What the control server does with a request.
#[derive(Debug)]
pub enum Reply {
    /// Answer with this response.
    Respond(Response),
    /// Pass the request on to the local HTTP service on this port.
    ProxyPass { port: u16, patch: RequestPatch },
    /// Send the request to the peer `peer_id52`, on behalf of `self_id52`.
    PeerProxy { self_id52: String, peer_id52: String, patch: RequestPatch },
}

/// Where a request goes, once its host is known.
#[derive(Debug)]
pub enum Route {
    /// Decided already.
    Reply(Reply),
    /// The id is not local: the default identity's service must be asked.
    AskWhatToDo { id: String, default_id: String, default_port: u16 },
}

/// The message of the response to a request whose `Host` names no identity.
pub open spec fn missing_host_message() -> Seq<char> {
    "got http request without Host header"@
}

/// Routes a request by its `Host` header. Without a header, or without a '.'
/// in it, the answer is a `400`. Where the text before the first '.' is a
/// local identity, the request goes to that identity's port. Otherwise the
/// default identity (the first of the map) is to be asked what to do.
pub fn route_request(host: Option<&str>, id_map: &Vec<(String, u16)>) -> (r: Route)
    requires
        id_map@.len() > 0 || !(host matches Some(h) && host_label(h@) is Some),
    ensures
        match host {
            None => r matches Route::Reply(Reply::Respond(resp)) && resp.status == STATUS_BAD_REQUEST
                && resp.body@ == encode_utf8(missing_host_message()),
            Some(h) => match host_label(h@) {
                None => r matches Route::Reply(Reply::Respond(resp)) && resp.status
                    == STATUS_BAD_REQUEST && resp.body@ == encode_utf8(missing_host_message()),
                Some(id) => match identity_port(id_map@, id) {
                    Some(port) => r matches Route::Reply(Reply::ProxyPass { port: p, patch: _ })
                        && p == port,
                    None => r matches Route::AskWhatToDo { id: i, default_id: d, default_port: dp }
                        && i@ == id && d@ == id_map@[0].0@ && dp == id_map@[0].1,
                },
            },
        },
{
    let label: Option<String> = match host {
        Some(h) => host_id(h),
        None => None,
    };
    let id: String = match label {
        Some(id) => id,
        None => {
            let msg: String = String::from_str("got http request without Host header");
            proof {
                reveal_strlit("got http request without Host header");
            }
            return Route::Reply(Reply::Respond(bad_request_(msg)));
        },
    };
    match find_identity(id.as_str(), id_map) {
        Some(port) => Route::Reply(Reply::ProxyPass { port, patch: RequestPatch {  } }),
        None => {
            let (default_id, default_port) = default_identity(id_map);
            Route::AskWhatToDo { id, default_id, default_port }
        },
    }
}

/// Acts on the default identity service's answer (or on the failure to get
/// one): a friend's id goes to that peer on behalf of the default identity,
/// a device's id is passed to its port, and an unknown peer or a failed
/// request gets a `500`.
pub fn act_on_what_to_do(default_id: String, answer: Result<WhatToDo, String>) -> (r: Reply)
    ensures
        match answer {
            Ok(WhatToDo::ForwardToPeer { peer_id, patch }) => r matches Reply::PeerProxy {
                self_id52: s,
                peer_id52: p,
                patch: q,
            } && s@ == default_id@ && p@ == peer_id@ && q == patch,
            Ok(WhatToDo::ProxyPass { port, extra_headers }) => r matches Reply::ProxyPass {
                port: p,
                patch: q,
            } && p == port && q == extra_headers,
            Ok(WhatToDo::UnknownPeer) => r matches Reply::Respond(resp) && resp.status
                == STATUS_INTERNAL_SERVER_ERROR && resp.body@ == encode_utf8("unknown peer"@),
            Err(_) => r matches Reply::Respond(resp) && resp.status == STATUS_INTERNAL_SERVER_ERROR
                && resp.body@ == encode_utf8("failed to contact default identity service"@),
        },
{
    match answer {
        Ok(WhatToDo::ForwardToPeer { peer_id, patch }) => Reply::PeerProxy {
            self_id52: default_id,
            peer_id52: peer_id,
            patch,
        },
        Ok(WhatToDo::ProxyPass { port, extra_headers }) => Reply::ProxyPass {
            port,
            patch: extra_headers,
        },
        Ok(WhatToDo::UnknownPeer) => Reply::Respond(
            server_error_(String::from_str("unknown peer")),
        ),
        Err(_) => Reply::Respond(
            server_error_(String::from_str("failed to contact default identity service")),
        ),
    }
}

} // verus!
