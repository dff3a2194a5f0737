//! Names under which hubs and their files are stored and addressed.
use vstd::prelude::*;

verus! {

pub open spec fn hub_key_of(id: Seq<char>) -> Seq<char> {
    "hub:"@ + id
}

/// The record store key of a hub.
pub fn hub_key(id: &str) -> (r: String)
    ensures
        r@ == hub_key_of(id@),
{
    let mut r = String::from_str("hub:");
    r.append(id);
    r
}

pub open spec fn blob_key_of(hub_id: Seq<char>, filename: Seq<char>) -> Seq<char> {
    hub_id + "/"@ + filename
}

/// The object store key of a file of a hub.
pub fn blob_key(hub_id: &str, filename: &str) -> (r: String)
    ensures
        r@ == blob_key_of(hub_id@, filename@),
{
    let mut r = String::from_str(hub_id);
    r.append("/");
    r.append(filename);
    r
}

pub open spec fn archive_name_of(hub_id: Seq<char>) -> Seq<char> {
    "ephemeral_hub_"@ + hub_id + ".zip"@
}

/// The file name under which a hub's archive is offered for download.
pub fn archive_name(hub_id: &str) -> (r: String)
    ensures
        r@ == archive_name_of(hub_id@),
{
    let mut r = String::from_str("ephemeral_hub_");
    r.append(hub_id);
    r.append(".zip");
    r
}

pub open spec fn hub_url_of(base: Seq<char>, id: Seq<char>) -> Seq<char> {
    base + "/api/hubs/"@ + id
}

/// The API address of a hub.
pub fn hub_url(base: &str, id: &str) -> (r: String)
    ensures
        r@ == hub_url_of(base@, id@),
{
    let mut r = String::from_str(base);
    r.append("/api/hubs/");
    r.append(id);
    r
}

/// The API address of a hub's text bin.
pub fn text_url(base: &str, id: &str) -> (r: String)
    ensures
        r@ == hub_url_of(base@, id@) + "/text"@,
{
    let mut r = hub_url(base, id);
    r.append("/text");
    r
}

/// The parts of a text between its `/` separators, empty parts included.
pub open spec fn split_slash(s: Seq<char>) -> Seq<Seq<char>>
    decreases s.len(),
{
    if s.len() == 0 {
        seq![Seq::empty()]
    } else {
        let rest = split_slash(s.drop_first());
        if s[0] == '/' {
            seq![Seq::<char>::empty()] + rest
        } else {
            rest.update(0, seq![s[0]] + rest[0])
        }
    }
}

/// The part right after the first part equal to `hubs`, if there is one.
pub open spec fn after_hubs(parts: Seq<Seq<char>>) -> Option<Seq<char>>
    decreases parts.len(),
{
    if parts.len() < 2 {
        None
    } else if parts[0] == "hubs"@ {
        Some(parts[1])
    } else {
        after_hubs(parts.drop_first())
    }
}

proof fn lemma_split_nonempty(s: Seq<char>)
    ensures
        split_slash(s).len() >= 1,
    decreases s.len(),
{
    if s.len() > 0 {
        lemma_split_nonempty(s.drop_first());
    }
}

/// Splitting at the first separator, found at `j`.
proof fn lemma_split_at_first(s: Seq<char>, j: int)
    requires
        0 <= j < s.len(),
        s[j] == '/',
        forall|i: int| 0 <= i < j ==> s[i] != '/',
    ensures
        split_slash(s) == seq![s.subrange(0, j)] + split_slash(s.subrange(j + 1, s.len() as int)),
    decreases j,
{
    if j == 0 {
        assert(s.drop_first() =~= s.subrange(1, s.len() as int));
        assert(s.subrange(0, 0) =~= Seq::<char>::empty());
    } else {
        let t = s.drop_first();
        lemma_split_at_first(t, j - 1);
        assert(t.subrange(j, t.len() as int) =~= s.subrange(j + 1, s.len() as int));
        assert(seq![s[0]] + t.subrange(0, j - 1) =~= s.subrange(0, j));
        assert(split_slash(s) =~= seq![s.subrange(0, j)] + split_slash(
            s.subrange(j + 1, s.len() as int),
        ));
    }
}

/// A text without separators is one part.
proof fn lemma_split_whole(s: Seq<char>)
    requires
        forall|i: int| 0 <= i < s.len() ==> s[i] != '/',
    ensures
        split_slash(s) == seq![s],
    decreases s.len(),
{
    if s.len() > 0 {
        let t = s.drop_first();
        lemma_split_whole(t);
        assert(seq![s[0]] + t =~= s);
        assert(split_slash(s) =~= seq![s]);
    } else {
        assert(s =~= Seq::<char>::empty());
    }
}

/// The hub id in an address such as `.../hubs/<id>` or `.../hubs/<id>/text`:
/// the part that follows the first part `hubs`.
pub fn extract_hub_id(url: &str) -> (r: Option<String>)
    ensures
        match (r, after_hubs(split_slash(url@))) {
            (Some(id), Some(expected)) => id@ == expected,
            (None, None) => true,
            _ => false,
        },
{
    let n = url.unicode_len();
    let ghost s = url@;
    let hubs = String::from_str("hubs");
    let mut start: usize = 0;
    let mut i: usize = 0;
    let mut after: bool = false;
    assert(s.subrange(0, n as int) =~= s);
    while i < n
        invariant
            n == s.len(),
            s == url@,
            hubs@ == "hubs"@,
            start <= i <= n,
            forall|p: int| start <= p < i ==> s[p] != '/',
            after_hubs(split_slash(s)) == (if after {
                Some(split_slash(s.subrange(start as int, n as int))[0])
            } else {
                after_hubs(split_slash(s.subrange(start as int, n as int)))
            }),
        decreases n - i,
    {
        let c = url.get_char(i);
        if c == '/' {
            let ghost rest = s.subrange(start as int, n as int);
            let part = String::from_str(url.substring_char(start, i));
            proof {
                lemma_split_at_first(rest, (i - start) as int);
                assert(rest.subrange(0, (i - start) as int) =~= part@);
                assert(rest.subrange((i - start) as int + 1, rest.len() as int) =~= s.subrange(
                    i + 1,
                    n as int,
                ));
                lemma_split_nonempty(s.subrange(i + 1, n as int));
                let tail = split_slash(s.subrange(i + 1, n as int));
                assert((seq![part@] + tail).drop_first() =~= tail);
            }
            if after {
                return Some(part);
            }
            after = part == hubs;
            start = i + 1;
        }
        i = i + 1;
    }
    let ghost rest = s.subrange(start as int, n as int);
    proof {
        lemma_split_whole(rest);
    }
    if after {
        Some(String::from_str(url.substring_char(start, n)))
    } else {
        None
    }
}

} // verus!
