//! The mDNS service record of the Spotify Connect speaker: its TXT properties
//! and the `mdns_sd::ServiceInfo` built from them.

use vstd::prelude::*;
use vstd::utf8::{encode_utf8, is_ascii_chars};
use std::collections::HashMap;
use mdns_sd::ServiceInfo;

verus! {

#[verifier::external_type_specification]
#[verifier::external_body]
pub struct ExServiceInfo(mdns_sd::ServiceInfo);

#[verifier::external_type_specification]
#[verifier::external_body]
pub struct ExMdnsError(mdns_sd::Error);

/// The `Display` text of an `mdns_sd::Error`. Nothing is claimed of it: which
/// offending TXT key it names depends on a hash map's iteration order.
#[verifier::external_body]
fn mdns_error_text(e: &mdns_sd::Error) -> String {
    e.to_string()
}

/// TXT properties as key/value texts.
pub open spec fn props_view(props: Seq<(String, String)>) -> Seq<(Seq<char>, Seq<char>)> {
    props.map_values(|kv: (String, String)| (kv.0@, kv.1@))
}

/// What `mdns_sd::ServiceInfo::new` accepts of one TXT property: an ASCII key
/// without `=`, and key, `=` and value within the 255 bytes of one TXT string.
pub open spec fn txt_entry_accepted(key: Seq<char>, val: Seq<char>) -> bool {
    &&& is_ascii_chars(key)
    &&& !key.contains('=')
    &&& key.len() + encode_utf8(val).len() + 1 <= 255
}

/// The properties, gathered into a map (a later pair replacing an earlier one with
/// the same key), hold one that `ServiceInfo::new` refuses.
pub open spec fn txt_rejected(props: Seq<(Seq<char>, Seq<char>)>) -> bool {
    exists|i: int|
        0 <= i < props.len() && (forall|j: int| i < j < props.len() ==> props[j].0 != props[i].0)
            && !txt_entry_accepted(#[trigger] props[i].0, props[i].1)
}

/// The map that a list of key/value pairs makes, a later pair replacing an
/// earlier one with the same key.
pub open spec fn props_map(props: Seq<(Seq<char>, Seq<char>)>) -> Map<Seq<char>, Seq<char>>
    decreases props.len(),
{
    if props.len() == 0 {
        Map::empty()
    } else {
        props_map(props.drop_last()).insert(props.last().0, props.last().1)
    }
}

/// No key occurs twice among `props`.
pub open spec fn distinct_keys(props: Seq<(Seq<char>, Seq<char>)>) -> bool {
    forall|i: int, j: int| 0 <= i < j < props.len() ==> (#[trigger] props[i]).0 != (#[trigger] props[j]).0
}

/// An instance name as DNS-SD writes it: each `.` and `\` escaped by a `\`.
pub open spec fn escape_instance(name: Seq<char>) -> Seq<char>
    decreases name.len(),
{
    if name.len() == 0 {
        name
    } else {
        let c = name.last();
        escape_instance(name.drop_last()) + if c == '.' || c == '\\' {
            seq!['\\', c]
        } else {
            seq![c]
        }
    }
}

/// The service type holds a `._sub.` part (a DNS-SD subtype).
pub open spec fn has_subtype_part(ty: Seq<char>) -> bool {
    exists|i: int| 0 <= i && i + 6 <= ty.len() && #[trigger] ty.subrange(i, i + 6) == "._sub."@
}

/// A host name as `ServiceInfo` keeps it: one of two trailing `local.` dropped.
pub open spec fn normalized_host(host: Seq<char>) -> Seq<char> {
    if host.len() >= 13 && host.subrange(host.len() - 13, host.len() as int) == ".local.local."@ {
        host.subrange(0, host.len() - 6)
    } else {
        host
    }
}

/// Decimal text of a byte, without leading zeros.
pub open spec fn decimal(n: u8) -> Seq<char> {
    let digit = |d: int| seq!['0', '1', '2', '3', '4', '5', '6', '7', '8', '9'][d];
    if n < 10 {
        seq![digit(n as int)]
    } else if n < 100 {
        seq![digit(n as int / 10), digit(n as int % 10)]
    } else {
        seq![digit(n as int / 100), digit((n as int / 10) % 10), digit(n as int % 10)]
    }
}

/// An IPv4 address in dotted decimal (`a.b.c.d`).
pub open spec fn dotted_decimal(ip: Seq<u8>) -> Seq<char> {
    decimal(ip[0]) + seq!['.'] + decimal(ip[1]) + seq!['.'] + decimal(ip[2]) + seq!['.'] + decimal(ip[3])
}

/// What a built `ServiceInfo` reports of itself through its getters.
#[derive(Debug)]
pub struct ServiceReadback {
    /// `get_type()`
    pub ty: String,
    /// `get_fullname()`
    pub fullname: String,
    /// `get_hostname()`
    pub host: String,
    /// `get_port()`
    pub port: u16,
    /// Each entry of `get_addresses()`, as text.
    pub addresses: Vec<String>,
    /// Key and `val_str()` of each entry of `get_properties()`.
    pub properties: Vec<(String, String)>,
}

/// A service ready to be registered, with what it reports of itself.
#[derive(Debug)]
pub struct AnnouncedService {
    pub info: ServiceInfo,
    pub record: ServiceReadback,
}

/// `rb` reports a service of type `ty` named `name` on host `host` at
/// `ip`:`port` whose TXT properties are the map of `props`.
pub open spec fn describes(
    rb: ServiceReadback,
    ty: Seq<char>,
    name: Seq<char>,
    host: Seq<char>,
    ip: Seq<u8>,
    port: u16,
    props: Seq<(Seq<char>, Seq<char>)>,
) -> bool {
    &&& rb.ty@ == ty
    &&& rb.fullname@ == escape_instance(name) + seq!['.'] + ty
    &&& rb.host@ == host
    &&& rb.port == port
    &&& rb.addresses@.len() == 1
    &&& rb.addresses@[0]@ == dotted_decimal(ip)
    &&& distinct_keys(props_view(rb.properties@))
    &&& props_map(props_view(rb.properties@)) == props_map(props)
}

/// Calls `mdns_sd::ServiceInfo::new` with the service type `ty`, instance
/// name `name`, host `host`, the IPv4 address `ip` (written as dotted decimal octets),
/// `port`, and the properties gathered into a `HashMap` (later pairs replace
/// earlier ones with the same key), then reads the built value back through its
/// getters. The source fails the call exactly when a property key is not ASCII,
/// holds `=`, or key and value exceed 255 bytes. Otherwise it keeps `ty` as the
/// type (there being no `._sub.` part), the escaped name, `.` and the type as
/// the full name, `host` with a doubled `local.` reduced, `port`, the one
/// address (whose `Display` text is the dotted decimal passed in), and one
/// property per key with its (UTF-8) value; the contract claims exactly that.
/// On failure the `mdns_sd::Error` is handed back.
#[verifier::external_body]
fn new_service_info(
    ty: &str,
    name: &str,
    host: &str,
    ip: [u8; 4],
    port: u16,
    props: Vec<(String, String)>,
) -> (res: Result<AnnouncedService, mdns_sd::Error>)
    requires
        !has_subtype_part(ty@),
    ensures
        res is Err <==> txt_rejected(props_view(props@)),
        res matches Ok(a) ==> describes(a.record, ty@, name@, normalized_host(host@), ip@, port, props_view(props@)),
{
    let addr = ip.map(|b| b.to_string()).join(".");
    let props = Some(props.into_iter().collect::<HashMap<_, _>>());
    let info = ServiceInfo::new(ty, name, host, &addr, port, props)?;
    Ok(AnnouncedService {
        record: ServiceReadback {
            ty: info.get_type().into(),
            fullname: info.get_fullname().into(),
            host: info.get_hostname().into(),
            port: info.get_port(),
            addresses: info.get_addresses().iter().map(|a| a.to_string()).collect(),
            properties: info.get_properties().iter().map(|p| (p.key().into(), p.val_str().into())).collect(),
        },
        info,
    })
}

/// The TXT properties that a Spotify Connect speaker announces.
pub open spec fn speaker_properties(device_name: Seq<char>, device_id: Seq<char>) -> Seq<
    (Seq<char>, Seq<char>),
> {
    seq![
        ("version"@, "1.0"@),
        ("platform"@, "windows"@),
        ("type"@, "speaker"@),
        ("device"@, device_name),
        ("device_id"@, device_id),
    ]
}

/// The TXT properties that a Spotify Connect speaker announces, for the device
/// called `device_name` with id `device_id`.
pub fn speaker_txt_properties(device_name: &str, device_id: &str) -> (res: Vec<(String, String)>)
    ensures
        props_view(res@) == speaker_properties(device_name@, device_id@),
{
    let mut props: Vec<(String, String)> = Vec::new();
    props.push((String::from_str("version"), String::from_str("1.0")));
    props.push((String::from_str("platform"), String::from_str("windows")));
    props.push((String::from_str("type"), String::from_str("speaker")));
    props.push((String::from_str("device"), String::from_str(device_name)));
    props.push((String::from_str("device_id"), String::from_str(device_id)));
    proof {
        assert(props_view(props@) =~= speaker_properties(device_name@, device_id@));
    }
    props
}

/// A DNS-SD service record as this program announces it.
pub struct SpeakerRecord {
    pub service_type: String,
    pub instance: String,
    pub host: String,
    pub ip: [u8; 4],
    pub port: u16,
    pub properties: Vec<(String, String)>,
}

/// The speaker's record: instance `instance` of the Spotify Connect service
/// (`_spotify-connect._tcp.local.`) on host `RustSpeaker.local.` at
/// 192.168.179.75:`port`, with the speaker's TXT properties.
pub fn speaker_record(instance: &str, port: u16, device_name: &str, device_id: &str) -> (res: SpeakerRecord)
    ensures
        res.service_type@ == "_spotify-connect._tcp.local."@,
        res.instance@ == instance@,
        res.host@ == "RustSpeaker.local."@,
        res.ip@ == seq![192u8, 168u8, 179u8, 75u8],
        res.port == port,
        props_view(res.properties@) == speaker_properties(device_name@, device_id@),
{
    let ip: [u8; 4] = [192u8, 168u8, 179u8, 75u8];
    assert(ip@ =~= seq![192u8, 168u8, 179u8, 75u8]);
    SpeakerRecord {
        service_type: String::from_str("_spotify-connect._tcp.local."),
        instance: String::from_str(instance),
        host: String::from_str("RustSpeaker.local."),
        ip,
        port,
        properties: speaker_txt_properties(device_name, device_id),
    }
}

/// The service for `record`, refused exactly when its TXT properties are; it
/// reports what the record holds.
pub fn service_info(record: SpeakerRecord) -> (res: Result<AnnouncedService, String>)
    requires
        !has_subtype_part(record.service_type@),
    ensures
        res is Err <==> txt_rejected(props_view(record.properties@)),
        res matches Ok(a) ==> describes(
            a.record,
            record.service_type@,
            record.instance@,
            normalized_host(record.host@),
            record.ip@,
            record.port,
            props_view(record.properties@),
        ),
{
    match new_service_info(
        record.service_type.as_str(),
        record.instance.as_str(),
        record.host.as_str(),
        record.ip,
        record.port,
        record.properties,
    ) {
        Ok(announced) => Ok(announced),
        Err(e) => Err(mdns_error_text(&e)),
    }
}

/// The Spotify Connect service type has no subtype part, and the speaker's host
/// name has no doubled `local.`.
proof fn lemma_speaker_names_plain()
    ensures
        !has_subtype_part("_spotify-connect._tcp.local."@),
        normalized_host("RustSpeaker.local."@) == "RustSpeaker.local."@,
{
    reveal_strlit("_spotify-connect._tcp.local.");
    reveal_strlit("._sub.");
    reveal_strlit("RustSpeaker.local.");
    reveal_strlit(".local.local.");
    let ty = "_spotify-connect._tcp.local."@;
    assert(ty =~= seq![
        '_', 's', 'p', 'o', 't', 'i', 'f', 'y', '-', 'c', 'o', 'n', 'n', 'e', 'c', 't', '.', '_',
        't', 'c', 'p', '.', 'l', 'o', 'c', 'a', 'l', '.',
    ]);
    assert(forall|k: int| 0 <= k < ty.len() ==> ty[k] != 'b');
    if has_subtype_part(ty) {
        let i = choose|i: int| 0 <= i && i + 6 <= ty.len() && #[trigger] ty.subrange(i, i + 6) == "._sub."@;
        assert(ty.subrange(i, i + 6)[4] == "._sub."@[4]);
        assert(ty[i + 4] == 'b');
    }
    let host = "RustSpeaker.local."@;
    assert(host.subrange(host.len() - 13, host.len() as int)[0] == 'p');
    assert(".local.local."@[0] == '.');
}

/// The speaker's service (see `speaker_record`): it fails exactly when the
/// speaker's TXT properties are refused, and otherwise reports the Spotify
/// Connect type, the instance `instance`, host `RustSpeaker.local.`, address
/// 192.168.179.75, `port` and the speaker's TXT properties.
pub fn speaker_service(instance: &str, port: u16, device_name: &str, device_id: &str) -> (res:
    Result<AnnouncedService, String>)
    ensures
        res is Err <==> txt_rejected(speaker_properties(device_name@, device_id@)),
        res matches Ok(a) ==> describes(
            a.record,
            "_spotify-connect._tcp.local."@,
            instance@,
            "RustSpeaker.local."@,
            seq![192u8, 168u8, 179u8, 75u8],
            port,
            speaker_properties(device_name@, device_id@),
        ),
{
    proof {
        lemma_speaker_names_plain();
    }
    service_info(speaker_record(instance, port, device_name, device_id))
}

/// The speaker's record is refused exactly when the device name takes more
/// than 248 bytes in UTF-8 (`device`, `=` and the name must fit in 255 bytes),
/// given an ASCII device id of 40 characters, such as `device_id` makes.
pub proof fn lemma_speaker_record_refused(device_name: Seq<char>, device_id: Seq<char>)
    requires
        is_ascii_chars(device_id),
        device_id.len() == 40,
    ensures
        txt_rejected(speaker_properties(device_name, device_id)) <==> encode_utf8(device_name).len()
            > 248,
{
    broadcast use vstd::utf8::group_utf8_lib;
    reveal_strlit("version");
    reveal_strlit("1.0");
    reveal_strlit("platform");
    reveal_strlit("windows");
    reveal_strlit("type");
    reveal_strlit("speaker");
    reveal_strlit("device");
    reveal_strlit("device_id");
    let props = speaker_properties(device_name, device_id);
    assert("version"@ =~= seq!['v', 'e', 'r', 's', 'i', 'o', 'n']);
    assert("1.0"@ =~= seq!['1', '.', '0']);
    assert("platform"@ =~= seq!['p', 'l', 'a', 't', 'f', 'o', 'r', 'm']);
    assert("windows"@ =~= seq!['w', 'i', 'n', 'd', 'o', 'w', 's']);
    assert("type"@ =~= seq!['t', 'y', 'p', 'e']);
    assert("speaker"@ =~= seq!['s', 'p', 'e', 'a', 'k', 'e', 'r']);
    assert("device"@ =~= seq!['d', 'e', 'v', 'i', 'c', 'e']);
    assert("device_id"@ =~= seq!['d', 'e', 'v', 'i', 'c', 'e', '_', 'i', 'd']);
    assert(is_ascii_chars("version"@));
    assert(is_ascii_chars("1.0"@));
    assert(is_ascii_chars("platform"@));
    assert(is_ascii_chars("windows"@));
    assert(is_ascii_chars("type"@));
    assert(is_ascii_chars("speaker"@));
    assert(is_ascii_chars("device"@));
    assert(is_ascii_chars("device_id"@));
    assert(!"version"@.contains('='));
    assert(!"platform"@.contains('='));
    assert(!"type"@.contains('='));
    assert(!"device"@.contains('='));
    assert(!"device_id"@.contains('='));
    assert(txt_entry_accepted(props[0].0, props[0].1));
    assert(txt_entry_accepted(props[1].0, props[1].1));
    assert(txt_entry_accepted(props[2].0, props[2].1));
    assert(txt_entry_accepted(props[4].0, props[4].1));
    assert(txt_entry_accepted(props[3].0, props[3].1) <==> encode_utf8(device_name).len() <= 248);
    if encode_utf8(device_name).len() > 248 {
        assert(forall|j: int| 3 < j < props.len() ==> (#[trigger] props[j]).0 != props[3].0);
        assert(!txt_entry_accepted(props[3].0, props[3].1));
    } else {
        assert forall|i: int| 0 <= i < props.len() implies txt_entry_accepted(
            #[trigger] props[i].0,
            props[i].1,
        ) by {
            if i == 0 {
            } else if i == 1 {
            } else if i == 2 {
            } else if i == 3 {
            } else {
            }
        }
    }
}

} // verus!
