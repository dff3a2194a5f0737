//! Creating hubs and preparing the values that the hub operations store.
use crate::hub::{fresh_hub, new_hub, FileInfo, FileView, Hub};
use crate::keys::{hub_key, hub_key_of, hub_url, hub_url_of, text_url};
use crate::time::{rfc3339_of, Timestamp, HUB_TTL_SECS};
use vstd::prelude::*;

verus! {

/// Length of a generated hub id.
pub const HUB_ID_LEN: usize = 10;

/// The characters of nanoid's URL-safe alphabet.
pub open spec fn is_id_char(c: char) -> bool {
    c == '_' || c == '-' || ('0' <= c && c <= '9') || ('a' <= c && c <= 'z') || ('A' <= c
        && c <= 'Z')
}

/// Relies on `nanoid::format` with nanoid's default random source and its
/// `SAFE` alphabet: it returns `size` characters drawn from that alphabet
/// (every random byte, masked to six bits, selects one of its 64 characters,
/// so the loop ends).
#[verifier::external_body]
fn random_id(size: usize) -> (r: String)
    requires
        1 <= size <= 1024,
    ensures
        r@.len() == size,
        forall|i: int| 0 <= i < size ==> is_id_char(#[trigger] r@[i]),
{
    nanoid::format(nanoid::rngs::default, &nanoid::alphabet::SAFE, size)
}

/// What a client is told about a hub it created.
#[derive(Debug)]
pub struct CreateHubResponse {
    pub id: String,
    pub url: String,
    pub text_url: String,
    pub expires_at: String,
}

/// A new hub, ready to be stored under `key` for `ttl_secs` seconds.
#[derive(Debug)]
pub struct HubCreation {
    pub key: String,
    pub hub: Hub,
    pub ttl_secs: u64,
    pub response: CreateHubResponse,
}

/// Makes a hub with the given id, created at `now`: empty text, no files,
/// an empty whiteboard, a full lifetime of twenty-four hours.
pub fn hub_creation(id: String, now: Timestamp, base_url: &str) -> (r: HubCreation)
    requires
        now.wf(),
    ensures
        r.response.id@ == id@,
        r.hub@ == fresh_hub(id@, now),
        r.key@ == hub_key_of(id@),
        r.ttl_secs == HUB_TTL_SECS,
        r.response.url@ == hub_url_of(base_url@, id@),
        r.response.text_url@ == hub_url_of(base_url@, id@) + "/text"@,
        r.response.expires_at@ == rfc3339_of((now.secs + HUB_TTL_SECS) as i64, now.nanos),
{
    let key = hub_key(id.as_str());
    let url = hub_url(base_url, id.as_str());
    let text = text_url(base_url, id.as_str());
    let expires_at = now.plus_hub_ttl().to_rfc3339();
    let hub = new_hub(id.clone(), now);
    HubCreation {
        key,
        hub,
        ttl_secs: HUB_TTL_SECS,
        response: CreateHubResponse { id, url, text_url: text, expires_at },
    }
}

/// Makes a hub with a fresh random id, created at `now`.
pub fn create_hub(now: Timestamp, base_url: &str) -> (r: HubCreation)
    requires
        now.wf(),
    ensures
        r.hub@ == fresh_hub(r.response.id@, now),
        r.key@ == hub_key_of(r.response.id@),
        r.ttl_secs == HUB_TTL_SECS,
        r.response.id@.len() == HUB_ID_LEN,
        forall|i: int| 0 <= i < HUB_ID_LEN ==> is_id_char(#[trigger] r.response.id@[i]),
        r.response.url@ == hub_url_of(base_url@, r.response.id@),
        r.response.text_url@ == hub_url_of(base_url@, r.response.id@) + "/text"@,
        r.response.expires_at@ == rfc3339_of((now.secs + HUB_TTL_SECS) as i64, now.nanos),
{
    hub_creation(random_id(HUB_ID_LEN), now, base_url)
}

/// Name given to an uploaded part that carries no file name.
pub open spec fn upload_name(filename: Option<Seq<char>>) -> Seq<char> {
    match filename {
        Some(f) => f,
        None => "unknown_file"@,
    }
}

/// Metadata of an uploaded part of `size` bytes.
pub fn file_info(filename: Option<String>, size: usize) -> (r: FileInfo)
    ensures
        r@ == (FileView {
            filename: upload_name(
                match filename {
                    Some(f) => Some(f@),
                    None => None,
                },
            ),
            size: size as u64,
        }),
{
    let name = match filename {
        Some(f) => f,
        None => String::from_str("unknown_file"),
    };
    FileInfo { filename: name, size: size as u64 }
}

} // verus!
