//! The network command surface: the three request handlers over the
//! device registry. The transport stays outside this crate; a handler
//! takes the request's URI text and the registry, and returns either a
//! payload to send with an OK response or a status code and message for
//! an error response.
use vstd::prelude::*;

use crate::device::{
    spec_device_json,
    spec_take_action,
    Action,
    Device,
    Devices,
};
use crate::strings::{
    ascii_lower,
    format_uuid,
    parse_usize_text,
    spec_lower,
    spec_parse_usize,
    spec_unescape_spaces,
    spec_uuid_text,
    str_eq,
    unescape_spaces,
};

verus! {

/// What a handler answers: a payload for an OK response, or a status
/// code with a human-readable message for an error response.
#[derive(Debug)]
pub enum Reply {
    Payload(String),
    Error(u16, String),
}

/// The pieces of a text split on a separator, empty pieces included.
pub open spec fn spec_split(s: Seq<char>, sep: char) -> Seq<Seq<char>>
    decreases s.len(),
{
    if s.len() == 0 {
        seq![Seq::<char>::empty()]
    } else if s[0] == sep {
        seq![Seq::<char>::empty()] + spec_split(s.skip(1), sep)
    } else {
        let rest = spec_split(s.skip(1), sep);
        seq![seq![s[0]] + rest[0]] + rest.skip(1)
    }
}

/// The key-value pair a query piece yields: the text before its first
/// `=` and the text between its first and second `=`; a piece with no
/// `=` yields none.
pub open spec fn spec_piece_pair(piece: Seq<char>) -> Option<(Seq<char>, Seq<char>)> {
    let parts = spec_split(piece, '=');
    if parts.len() >= 2 {
        Some((parts[0], parts[1]))
    } else {
        None
    }
}

/// The pairs the pieces yield, in order, pieces with no `=` dropped.
pub open spec fn spec_piece_pairs(pieces: Seq<Seq<char>>) -> Seq<(Seq<char>, Seq<char>)>
    decreases pieces.len(),
{
    if pieces.len() == 0 {
        Seq::empty()
    } else {
        let rest = spec_piece_pairs(pieces.drop_first());
        match spec_piece_pair(pieces[0]) {
            Some(kv) => seq![kv] + rest,
            None => rest,
        }
    }
}

/// The key-value pairs of a query string: pieces split on `&`, each
/// kept piece read as key `=` value.
pub open spec fn spec_querify(s: Seq<char>) -> Seq<(Seq<char>, Seq<char>)> {
    spec_piece_pairs(spec_split(s, '&'))
}

/// Relies on querystring::querify: the query splits on `&`; a piece
/// with no `=` is dropped, and each kept piece yields the text before
/// its first `=` paired with the text between its first and second `=`
/// (or the end).
#[verifier::external_body]
fn querify_pairs(s: &str) -> (r: Vec<(String, String)>)
    ensures
        r@.map_values(|p: (String, String)| (p.0@, p.1@)) == spec_querify(s@),
{
    querystring::querify(s).into_iter().map(|(k, v)| (k.to_string(), v.to_string())).collect()
}

/// The views of a vector of owned key-value pairs.
pub open spec fn spec_pairs_view(ps: Seq<(String, String)>) -> Seq<(Seq<char>, Seq<char>)> {
    ps.map_values(|p: (String, String)| (p.0@, p.1@))
}

/// The value of the last pair with the key, if any: a later pair wins
/// over an earlier one with the same key.
pub open spec fn spec_lookup(ps: Seq<(Seq<char>, Seq<char>)>, key: Seq<char>) -> Option<Seq<char>>
    decreases ps.len(),
{
    if ps.len() == 0 {
        None
    } else if ps.last().0 == key {
        Some(ps.last().1)
    } else {
        spec_lookup(ps.drop_last(), key)
    }
}

/// Look the key up among the pairs; the last pair with the key wins.
fn get_param(pairs: &Vec<(String, String)>, key: &str) -> (r: Option<String>)
    ensures
        (match (r, spec_lookup(spec_pairs_view(pairs@), key@)) {
            (Some(s), Some(t)) => s@ == t,
            (None, None) => true,
            _ => false,
        }),
{
    let ghost full = spec_pairs_view(pairs@);
    let mut i: usize = pairs.len();
    proof {
        assert(full.take(i as int) =~= full);
    }
    while i > 0
        invariant
            i <= pairs.len(),
            full == spec_pairs_view(pairs@),
            spec_lookup(full, key@) == spec_lookup(full.take(i as int), key@),
        decreases i,
    {
        i = i - 1;
        if str_eq(pairs[i].0.as_str(), key) {
            proof {
                assert(full.take(i + 1).last() == full[i as int]);
                assert(full[i as int].0 == key@);
            }
            return Some(pairs[i].1.clone());
        }
        proof {
            assert(full.take(i + 1).last() == full[i as int]);
            assert(full.take(i + 1).drop_last() =~= full.take(i as int));
        }
    }
    proof {
        assert(full.take(0) =~= Seq::<(Seq<char>, Seq<char>)>::empty());
    }
    None
}

/// Relies on uuid::Uuid::parse_str: which texts name a UUID, and which
/// 128-bit value each such text names, depend on the text alone.
#[verifier::external_body]
fn parse_uuid(s: &str) -> (r: Option<u128>)
    ensures
        r == spec_uuid_parse(s@),
{
    match uuid::Uuid::parse_str(s) {
        Ok(u) => Some(u.as_u128()),
        Err(_) => None,
    }
}

/// The 128-bit value a text names as a UUID, if it names one.
pub uninterp spec fn spec_uuid_parse(s: Seq<char>) -> Option<u128>;

/// The first index holding the key, or the length if none does.
pub open spec fn spec_first_idx(keys: Seq<Seq<char>>, key: Seq<char>) -> int
    decreases keys.len(),
{
    if keys.len() == 0 {
        0
    } else if keys[0] == key {
        0
    } else {
        1 + spec_first_idx(keys.drop_first(), key)
    }
}

/// The first index holding the value, or the length if none does.
pub open spec fn spec_first_u128_idx(keys: Seq<u128>, key: u128) -> int
    decreases keys.len(),
{
    if keys.len() == 0 {
        0
    } else if keys[0] == key {
        0
    } else {
        1 + spec_first_u128_idx(keys.drop_first(), key)
    }
}

proof fn lemma_first_idx_at(keys: Seq<Seq<char>>, key: Seq<char>, i: int)
    requires
        0 <= i <= keys.len(),
        forall|j: int| 0 <= j < i ==> keys[j] != key,
        i < keys.len() ==> keys[i] == key,
    ensures
        spec_first_idx(keys, key) == i,
    decreases i,
{
    if i > 0 {
        lemma_first_idx_at(keys.drop_first(), key, i - 1);
    }
}

proof fn lemma_first_u128_idx_at(keys: Seq<u128>, key: u128, i: int)
    requires
        0 <= i <= keys.len(),
        forall|j: int| 0 <= j < i ==> keys[j] != key,
        i < keys.len() ==> keys[i] == key,
    ensures
        spec_first_u128_idx(keys, key) == i,
    decreases i,
{
    if i > 0 {
        lemma_first_u128_idx_at(keys.drop_first(), key, i - 1);
    }
}

/// The first device with the name, by registry order.
fn find_by_name(devices: &Vec<Device>, name: &str) -> (r: Option<usize>)
    ensures
        ({
            let i = spec_first_idx(spec_name_keys(devices@), name@);
            match r {
                Some(k) => k == i && i < devices@.len(),
                None => i == devices@.len(),
            }
        }),
{
    let ghost keys = spec_name_keys(devices@);
    let m = devices.len();
    for i in 0..m
        invariant
            m == devices@.len(),
            keys == spec_name_keys(devices@),
            forall|j: int| 0 <= j < i ==> keys[j] != name@,
    {
        if str_eq(devices[i].name.as_str(), name) {
            proof {
                assert(keys[i as int] == name@);
                lemma_first_idx_at(keys, name@, i as int);
            }
            return Some(i);
        }
        proof {
            assert(keys[i as int] == devices@[i as int].name@);
        }
    }
    proof {
        lemma_first_idx_at(keys, name@, m as int);
    }
    None
}

/// The first device whose canonical identifier text is the given text,
/// by registry order.
fn find_by_uuid_text(devices: &Vec<Device>, text: &str) -> (r: Option<usize>)
    ensures
        ({
            let i = spec_first_idx(spec_uuid_text_keys(devices@), text@);
            match r {
                Some(k) => k == i && i < devices@.len(),
                None => i == devices@.len(),
            }
        }),
{
    let ghost keys = spec_uuid_text_keys(devices@);
    let m = devices.len();
    for i in 0..m
        invariant
            m == devices@.len(),
            keys == spec_uuid_text_keys(devices@),
            forall|j: int| 0 <= j < i ==> keys[j] != text@,
    {
        let t = format_uuid(devices[i].uuid);
        if str_eq(t.as_str(), text) {
            proof {
                assert(keys[i as int] == text@);
                lemma_first_idx_at(keys, text@, i as int);
            }
            return Some(i);
        }
        proof {
            assert(keys[i as int] == spec_uuid_text(devices@[i as int].uuid));
        }
    }
    proof {
        lemma_first_idx_at(keys, text@, m as int);
    }
    None
}

/// The first device with the identifier, by registry order.
fn find_by_uuid(devices: &Vec<Device>, id: u128) -> (r: Option<usize>)
    ensures
        ({
            let i = spec_first_u128_idx(spec_uuid_keys(devices@), id);
            match r {
                Some(k) => k == i && i < devices@.len(),
                None => i == devices@.len(),
            }
        }),
{
    let ghost keys = spec_uuid_keys(devices@);
    let m = devices.len();
    for i in 0..m
        invariant
            m == devices@.len(),
            keys == spec_uuid_keys(devices@),
            forall|j: int| 0 <= j < i ==> keys[j] != id,
    {
        if devices[i].uuid == id {
            proof {
                assert(keys[i as int] == id);
                lemma_first_u128_idx_at(keys, id, i as int);
            }
            return Some(i);
        }
        proof {
            assert(keys[i as int] == devices@[i as int].uuid);
        }
    }
    proof {
        lemma_first_u128_idx_at(keys, id, m as int);
    }
    None
}

/// The names of the devices, in registry order.
pub open spec fn spec_name_keys(devs: Seq<Device>) -> Seq<Seq<char>> {
    devs.map_values(|d: Device| d.name@)
}

/// The canonical identifier texts of the devices, in registry order.
pub open spec fn spec_uuid_text_keys(devs: Seq<Device>) -> Seq<Seq<char>> {
    devs.map_values(|d: Device| spec_uuid_text(d.uuid))
}

/// The identifiers of the devices, in registry order.
pub open spec fn spec_uuid_keys(devs: Seq<Device>) -> Seq<u128> {
    devs.map_values(|d: Device| d.uuid)
}

/// What a status request answers. The query is everything of the URI
/// past `/status?`, lowered; a `device` parameter names a device by name
/// with `%20` escapes read as spaces, a `uuid` parameter names one by
/// its canonical identifier text; the first device in registry order
/// wins, and its snapshot is the payload.
pub open spec fn spec_status_reply(uri: Seq<char>, devs: Seq<Device>) -> (bool, Seq<char>) {
    if uri.len() < 8 {
        (false, "Bad Status command given"@)
    } else {
        let ps = spec_querify(spec_lower(uri.skip(8)));
        match spec_lookup(ps, "device"@) {
            Some(d) => {
                let name = spec_unescape_spaces(d);
                let i = spec_first_idx(spec_name_keys(devs), name);
                if i < devs.len() {
                    (true, spec_device_json(devs[i]))
                } else {
                    (false, "Device name not found"@)
                }
            },
            None => match spec_lookup(ps, "uuid"@) {
                Some(u) => {
                    let i = spec_first_idx(spec_uuid_text_keys(devs), u);
                    if i < devs.len() {
                        (true, spec_device_json(devs[i]))
                    } else {
                        (false, "Device name not found"@)
                    }
                },
                None => (false, "No Device name given"@),
            },
        }
    }
}

/// Answer a status request: the snapshot of the named device, or a
/// 422-class error.
pub fn handle_status(uri: &str, devices: &Devices) -> (r: Reply)
    ensures
        ({
            let (ok, text) = spec_status_reply(uri@, devices.devices@);
            match r {
                Reply::Payload(p) => ok && p@ == text,
                Reply::Error(c, m) => !ok && c == 422 && m@ == text,
            }
        }),
{
    let n = uri.unicode_len();
    if n < 8 {
        return Reply::Error(422, String::from_str("Bad Status command given"));
    }
    let query = ascii_lower(uri.substring_char(8, n));
    let pairs = querify_pairs(query.as_str());
    match get_param(&pairs, "device") {
        Some(d) => {
            let name = unescape_spaces(d.as_str());
            match find_by_name(&devices.devices, name.as_str()) {
                Some(i) => Reply::Payload(devices.devices[i].to_json()),
                None => Reply::Error(422, String::from_str("Device name not found")),
            }
        },
        None => match get_param(&pairs, "uuid") {
            Some(u) => match find_by_uuid_text(&devices.devices, u.as_str()) {
                Some(i) => Reply::Payload(devices.devices[i].to_json()),
                None => Reply::Error(422, String::from_str("Device name not found")),
            },
            None => Reply::Error(422, String::from_str("No Device name given")),
        },
    }
}

/// The channel index a command's `target` parameter selects: none when
/// the parameter is absent or empty, an error when it is malformed or
/// out of the eight-channel range.
pub open spec fn spec_target_param(ps: Seq<(Seq<char>, Seq<char>)>) -> Result<
    Option<usize>,
    Seq<char>,
> {
    match spec_lookup(ps, "target"@) {
        None => Ok(None),
        Some(t) => match spec_parse_usize(t) {
            Some(v) => if v > 7 {
                Err("Target must be >= 0 & < 8"@)
            } else {
                Ok(Some(v))
            },
            None => if t.len() == 0 {
                Ok(None)
            } else {
                Err("Bad Target given"@)
            },
        },
    }
}

/// The action a command's `action` parameter names, read
/// case-insensitively, carrying the target as its amount; an error when
/// the parameter is absent or names no action.
pub open spec fn spec_action_param(
    ps: Seq<(Seq<char>, Seq<char>)>,
    target: Option<usize>,
) -> Result<Action, Seq<char>> {
    match spec_lookup(ps, "action"@) {
        None => Err("No Action given"@),
        Some(a) => match crate::device::spec_action_from_str(spec_lower(a), target) {
            Ok(act) => Ok(act),
            Err(_) => Err("Bad Action name given"@),
        },
    }
}

/// What a command request does and answers. The query is everything of
/// the URI past `/command?`. The `target` parameter is validated first,
/// then the `action` name, then the `uuid`; the first device with the
/// parsed identifier takes the action and its new snapshot is the
/// payload, and each failure answers its own 422-class message with the
/// registry unchanged.
pub open spec fn spec_command_result(uri: Seq<char>, devs: Seq<Device>) -> (
    Seq<Device>,
    bool,
    Seq<char>,
) {
    if uri.len() < 9 {
        (devs, false, "Bad Command given"@)
    } else {
        let ps = spec_querify(uri.skip(9));
        match spec_target_param(ps) {
            Err(msg) => (devs, false, msg),
            Ok(target) => match spec_action_param(ps, target) {
                Err(msg) => (devs, false, msg),
                Ok(act) => match spec_lookup(ps, "uuid"@) {
                    None => (devs, false, "Uuid field not given"@),
                    Some(u) => match spec_uuid_parse(u) {
                        None => (devs, false, "Bad Uuid given"@),
                        Some(id) => {
                            let i = spec_first_u128_idx(spec_uuid_keys(devs), id);
                            if i < devs.len() {
                                (
                                    devs.update(i, spec_take_action(devs[i], act)),
                                    true,
                                    spec_device_json(spec_take_action(devs[i], act)),
                                )
                            } else {
                                (devs, false, "Uuid not found among devices"@)
                            }
                        },
                    },
                },
            },
        }
    }
}

/// Apply a command request to the registry: validate `target`, `action`
/// and `uuid` in that order, have the addressed device take the action,
/// and answer its new snapshot or a 422-class error.
pub fn handle_command(uri: &str, devices: &mut Devices) -> (r: Reply)
    ensures
        ({
            let (devs, ok, text) = spec_command_result(uri@, old(devices).devices@);
            final(devices).devices@ == devs && match r {
                Reply::Payload(p) => ok && p@ == text,
                Reply::Error(c, m) => !ok && c == 422 && m@ == text,
            }
        }),
{
    let n = uri.unicode_len();
    if n < 9 {
        return Reply::Error(422, String::from_str("Bad Command given"));
    }
    let query = uri.substring_char(9, n);
    let pairs = querify_pairs(query);
    let target: Option<usize> = match get_param(&pairs, "target") {
        Some(t) => match parse_usize_text(t.as_str()) {
            Some(v) => {
                if v > 7 {
                    return Reply::Error(422, String::from_str("Target must be >= 0 & < 8"));
                }
                Some(v)
            },
            None => {
                if t.unicode_len() != 0 {
                    return Reply::Error(422, String::from_str("Bad Target given"));
                }
                None
            },
        },
        None => None,
    };
    let action: Action = match get_param(&pairs, "action") {
        Some(a) => match Action::from_str(ascii_lower(a.as_str()).as_str(), target) {
            Ok(act) => act,
            Err(_) => {
                return Reply::Error(422, String::from_str("Bad Action name given"));
            },
        },
        None => {
            return Reply::Error(422, String::from_str("No Action given"));
        },
    };
    match get_param(&pairs, "uuid") {
        Some(u) => match parse_uuid(u.as_str()) {
            Some(id) => match find_by_uuid(&devices.devices, id) {
                Some(i) => {
                    let dev = &mut devices.devices[i];
                    dev.take_action(action);
                    Reply::Payload(devices.devices[i].to_json())
                },
                None => Reply::Error(422, String::from_str("Uuid not found among devices")),
            },
            None => Reply::Error(422, String::from_str("Bad Uuid given")),
        },
        None => Reply::Error(422, String::from_str("Uuid field not given")),
    }
}

} // verus!
