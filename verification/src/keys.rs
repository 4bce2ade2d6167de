//! Names of cache entries and fan-out channels.

use vstd::prelude::*;
use vstd::string::*;

verus! {

/// What every cache key begins with.
pub open spec fn cache_prefix() -> Seq<char> {
    seq!['d', 'o', 'c', ':']
}

/// What every channel name begins with.
pub open spec fn channel_prefix() -> Seq<char> {
    seq!['c', 'h', 'a', 'n', 'n', 'e', 'l', ':']
}

/// The cache key of a document: the prefix, then the document identifier.
pub open spec fn cache_key_of(document: Seq<char>) -> Seq<char> {
    cache_prefix() + document
}

/// The fan-out channel of a document: the prefix, then the document
/// identifier.
pub open spec fn channel_of(document: Seq<char>) -> Seq<char> {
    channel_prefix() + document
}

/// The document that a cache key belongs to, if the key has the form of a
/// cache key at all.
pub open spec fn document_of_key(key: Seq<char>) -> Option<Seq<char>> {
    if key.len() >= 4 && key.subrange(0, 4) == cache_prefix() {
        Some(key.subrange(4, key.len() as int))
    } else {
        None
    }
}

/// The key under which the live cache holds a document's content.
pub fn cache_key(document: &str) -> (key: String)
    ensures
        key@ == cache_key_of(document@),
{
    proof {
        reveal_strlit("doc:");
    }
    String::from_str("doc:").concat(document)
}

/// The channel on which a document's edits are broadcast.
pub fn channel_name(document: &str) -> (channel: String)
    ensures
        channel@ == channel_of(document@),
{
    proof {
        reveal_strlit("channel:");
    }
    String::from_str("channel:").concat(document)
}

/// The document identifier inside a cache key; `None` for a key that does not
/// begin with the cache prefix.
pub fn key_document(key: &str) -> (document: Option<String>)
    ensures
        document is Some <==> document_of_key(key@) is Some,
        document matches Some(d) ==> document_of_key(key@) == Some(d@),
{
    let len = key.unicode_len();
    if len < 4 {
        return None;
    }
    if key.get_char(0) == 'd' && key.get_char(1) == 'o' && key.get_char(2) == 'c' && key.get_char(
        3,
    ) == ':' {
        assert(key@.subrange(0, 4) =~= cache_prefix());
        let rest = key.substring_char(4, len);
        Some(String::from_str(rest))
    } else {
        None
    }
}

/// A cache key names exactly the document it was made for.
pub proof fn lemma_key_round_trip(document: Seq<char>)
    ensures
        document_of_key(cache_key_of(document)) == Some(document),
{
    let key = cache_key_of(document);
    assert(key.subrange(0, 4) =~= cache_prefix());
}

/// Different documents have different cache keys and different channels.
pub proof fn lemma_names_injective(a: Seq<char>, b: Seq<char>)
    ensures
        cache_key_of(a) == cache_key_of(b) ==> a == b,
        channel_of(a) == channel_of(b) ==> a == b,
{
    if cache_key_of(a) == cache_key_of(b) {
        lemma_key_round_trip(a);
        lemma_key_round_trip(b);
    }
    if channel_of(a) == channel_of(b) {
        assert(channel_of(a).subrange(8, channel_of(a).len() as int) =~= a);
        assert(channel_of(b).subrange(8, channel_of(b).len() as int) =~= b);
    }
}

} // verus!
