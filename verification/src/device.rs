//! This machine's persistent identity.
//!
//! Deliberately not in `config.toml`: that file is hand-edited and copied
//! between machines, and a device id that travels with a config stops
//! identifying a device. It lives beside `status.json` in the state directory
//! instead. The id is public and cosmetic: it lets the dashboard show one row
//! per machine; it decides nothing about earnings.

use vstd::prelude::*;
use crate::text::{
    chars_of, is_white_space, non_blank, opt_view, string_of, trim, trim_chars, trim_end,
    trim_start, trimmed_non_blank, white_space,
};

verus! {

/// The agent's version, as it reports itself on the wire.
pub const VERSION: &'static str = "1.0.0";

pub open spec fn device_prefix() -> Seq<char> {
    seq!['d', 'e', 'v', '_']
}

/// `dev_` followed by at least one character, none of them white space.
pub open spec fn is_device_id(s: Seq<char>) -> bool {
    &&& s.len() > 4
    &&& s.take(4) == device_prefix()
    &&& forall|i: int| 4 <= i < s.len() ==> !#[trigger] is_white_space(s[i])
}

pub fn is_well_formed(id: &[char]) -> (b: bool)
    ensures
        b == is_device_id(id@),
{
    let n = id.len();
    if !(n > 4 && id[0] == 'd' && id[1] == 'e' && id[2] == 'v' && id[3] == '_') {
        assert(n > 4 ==> id@.take(4)[0] == id@[0] && id@.take(4)[1] == id@[1]
            && id@.take(4)[2] == id@[2] && id@.take(4)[3] == id@[3]);
        return false;
    }
    assert(id@.take(4) =~= device_prefix());
    for i in 4..n
        invariant
            n == id@.len(),
            forall|k: int| 4 <= k < i ==> !#[trigger] is_white_space(id@[k]),
    {
        if white_space(id[i]) {
            return false;
        }
    }
    true
}

pub open spec fn is_lower_hex(c: char) -> bool {
    ('0' <= c && c <= '9') || ('a' <= c && c <= 'f')
}

/// The simple form of a version-4 UUID: 32 lowercase hexadecimal digits,
/// the version digit `4` at index 12 and the variant digit, one of `8`, `9`,
/// `a`, `b`, at index 16.
pub open spec fn is_v4_simple(hex: Seq<char>) -> bool {
    &&& hex.len() == 32
    &&& forall|i: int| 0 <= i < 32 ==> #[trigger] is_lower_hex(hex[i])
    &&& hex[12] == '4'
    &&& (hex[16] == '8' || hex[16] == '9' || hex[16] == 'a' || hex[16] == 'b')
}

/// `uuid::Uuid::new_v4().simple().to_string()`: a random UUID in its simple
/// form. The uuid source sets the version and variant bits of a random
/// number and formats its 16 bytes as 32 lowercase hexadecimal digits; which
/// of the remaining digits come out is left to chance.
#[verifier::external_body]
fn new_uuid_simple() -> (r: String)
    ensures
        is_v4_simple(r@),
{
    uuid::Uuid::new_v4().simple().to_string()
}

/// A freshly minted id: `dev_` and a version-4 UUID's 32 hexadecimal digits.
pub open spec fn is_minted_id(s: Seq<char>) -> bool {
    &&& s.len() == 36
    &&& s.take(4) == device_prefix()
    &&& is_v4_simple(s.skip(4))
}

pub proof fn lemma_minted_is_well_formed(s: Seq<char>)
    requires
        is_minted_id(s),
    ensures
        is_device_id(s),
{
    assert forall|i: int| 4 <= i < s.len() implies !#[trigger] is_white_space(s[i]) by {
        assert(s[i] == s.skip(4)[i - 4]);
        assert(is_lower_hex(s.skip(4)[i - 4]));
    }
}

/// The device id for a UUID's hexadecimal digits: `dev_` followed by them.
pub fn device_id_from_hex(hex: &str) -> (id: String)
    requires
        hex@.len() == 32,
        forall|i: int| 0 <= i < 32 ==> #[trigger] is_lower_hex(hex@[i]),
    ensures
        id@ == device_prefix() + hex@,
{
    let mut v: Vec<char> = Vec::new();
    v.push('d');
    v.push('e');
    v.push('v');
    v.push('_');
    assert(v@ =~= device_prefix());
    crate::text::extend_str(&mut v, hex);
    string_of(v.as_slice())
}

/// Mint a new id: `dev_` followed by the digits of a freshly drawn
/// version-4 UUID.
pub fn mint_device_id() -> (id: String)
    ensures
        is_minted_id(id@),
        is_device_id(id@),
{
    let hex = new_uuid_simple();
    let id = device_id_from_hex(hex.as_str());
    assert(id@.take(4) =~= device_prefix());
    assert(id@.skip(4) =~= hex@);
    proof {
        lemma_minted_is_well_formed(id@);
    }
    id
}

/// The id this machine uses, and whether it was just minted (and so still
/// has to be written to the state directory).
#[derive(Debug, Clone)]
pub struct DeviceIdChoice {
    pub id: String,
    pub minted: bool,
}

/// Decide this machine's id from what the id file held (`None` when it could
/// not be read). A well-formed id, trimmed, is kept; anything else — an empty
/// file, a hand-edit gone wrong, a partial write — is replaced by a fresh id
/// rather than reported: the id is cosmetic, and a daemon that will not start
/// over it is a worse outcome than a device that reappears under a new name.
pub fn load_or_create(existing: Option<String>) -> (r: DeviceIdChoice)
    ensures
        ({
            match opt_view(existing) {
                Some(text) if is_device_id(trim(text)) => !r.minted && r.id@ == trim(text),
                _ => r.minted && is_minted_id(r.id@),
            }
        }),
        is_device_id(r.id@),
{
    if let Some(text) = existing {
        let all = chars_of(text.as_str());
        let t = trim_chars(all.as_slice());
        if is_well_formed(t.as_slice()) {
            return DeviceIdChoice { id: string_of(t.as_slice()), minted: false };
        }
    }
    DeviceIdChoice { id: mint_device_id(), minted: true }
}

/// What the id file holds once `id` is stored: the id and a newline.
pub fn persisted_text(id: &str) -> (text: String)
    ensures
        text@ == id@.push('\n'),
{
    let mut v = chars_of(id);
    v.push('\n');
    string_of(v.as_slice())
}

/// Storing an id and reading it back gives the same id: the id is stable
/// across restarts.
pub proof fn lemma_persisted_id_is_kept(id: Seq<char>)
    requires
        is_device_id(id),
    ensures
        is_device_id(trim(id.push('\n'))),
        trim(id.push('\n')) == id,
{
    let t = id.push('\n');
    assert(id[0] == device_prefix()[0]);
    assert(!is_white_space(t[0]));
    assert(trim_start(t) == t);
    assert(is_white_space(t.last()));
    assert(t.drop_last() == id);
    assert(!is_white_space(id.last())) by {
        assert(!is_white_space(id[id.len() - 1]));
    }
    assert(trim_end(t) == trim_end(id));
}

/// The machine's hostname as the dashboard label is seeded with it: trimmed,
/// and `None` when the OS would not say or said nothing.
pub fn clean_hostname(raw: Option<String>) -> (r: Option<String>)
    ensures
        opt_view(r) == non_blank(opt_view(raw)),
{
    trimmed_non_blank(raw)
}

pub open spec fn app_identity_spec() -> Seq<char> {
    "meerkly-agent/"@ + VERSION@
}

/// What this host calls itself on the wire: `meerkly-agent/<version>`.
/// Distinct from the SDK version, which the SDK reports on its own.
pub fn app_identity() -> (s: String)
    ensures
        s@ == app_identity_spec(),
{
    String::from_str("meerkly-agent/").concat(VERSION)
}

/// Everything the agent tells the network about this machine. Assembled once
/// at startup and handed to the SDK; the SDK adds OS, architecture and its own
/// version itself.
#[derive(Debug, Clone)]
pub struct DeviceIdentity {
    pub device_id: String,
    pub device_name: Option<String>,
    pub app: String,
}

impl DeviceIdentity {
    /// This machine's identity from its id and the hostname the OS reported.
    pub fn load(device_id: String, raw_hostname: Option<String>) -> (d: DeviceIdentity)
        ensures
            d.device_id@ == device_id@,
            opt_view(d.device_name) == non_blank(opt_view(raw_hostname)),
            d.app@ == app_identity_spec(),
    {
        DeviceIdentity {
            device_id,
            device_name: clean_hostname(raw_hostname),
            app: app_identity(),
        }
    }
}

} // verus!
