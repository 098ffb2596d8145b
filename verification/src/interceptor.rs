//! The credential of the client: an API token that is appended to the
//! metadata of each request under a fixed key.

use vstd::prelude::*;
use tonic::metadata::{AsciiMetadataKey, AsciiMetadataValue, MetadataMap};

verus! {

/// The metadata of a request, as tonic holds it.
#[verifier::external_type_specification]
#[verifier::external_body]
pub struct ExMetadataMap(tonic::metadata::MetadataMap);

/// For each key that the map holds, the values under it, oldest first.
pub uninterp spec fn metadata_values(map: tonic::metadata::MetadataMap) -> Map<Seq<char>, Seq<Seq<u8>>>;

/// A map with no more keys than this takes one more value without running
/// out of room: its table has at most 32768 slots, and it is asked to grow
/// beyond them only once a fifth of them, or more, are taken.
pub const KEY_LIMIT: usize = 6553;

/// Whether `c` may stand in a token: a printable ASCII character, a space or
/// a tab.
pub open spec fn is_token_char(c: char) -> bool {
    ' ' <= c <= '~' || c == '\t'
}

/// Whether `s` can be sent as a token.
pub open spec fn is_token_text(s: Seq<char>) -> bool {
    forall|i: int| 0 <= i < s.len() ==> is_token_char(#[trigger] s[i])
}

/// Whether `c` may stand in a key: a lower-case letter, a digit, a hyphen or
/// an underscore.
pub open spec fn is_key_char(c: char) -> bool {
    'a' <= c <= 'z' || '0' <= c <= '9' || c == '-' || c == '_'
}

/// Whether `s` can be the key of a text value: not empty, of such characters
/// only, and without the ending `-bin`, which marks the key of a binary value.
pub open spec fn is_key_text(s: Seq<char>) -> bool {
    &&& 0 < s.len() <= 0xffff
    &&& forall|i: int| 0 <= i < s.len() ==> is_key_char(#[trigger] s[i])
    &&& !(s.len() >= 4 && s.subrange(s.len() - 4, s.len() as int) == seq!['-', 'b', 'i', 'n'])
}

/// The bytes of a text of ASCII characters.
pub open spec fn bytes_of(s: Seq<char>) -> Seq<u8> {
    s.map_values(|c: char| c as u8)
}

/// The contents `m` with `value` added as the last value under `key`.
pub open spec fn spec_appended(
    m: Map<Seq<char>, Seq<Seq<u8>>>,
    key: Seq<char>,
    value: Seq<u8>,
) -> Map<Seq<char>, Seq<Seq<u8>>> {
    m.insert(
        key,
        (if m.contains_key(key) {
            m[key]
        } else {
            Seq::empty()
        }).push(value),
    )
}

/// What is appended stands last under its key, behind the values that were
/// there, and the key is then present.
pub proof fn appended_stands_last(m: Map<Seq<char>, Seq<Seq<u8>>>, key: Seq<char>, value: Seq<u8>)
    ensures
        spec_appended(m, key, value).contains_key(key),
        m.contains_key(key) ==> spec_appended(m, key, value)[key] == m[key].push(value),
        !m.contains_key(key) ==> spec_appended(m, key, value)[key] == seq![value],
{
    assert(Seq::<Seq<u8>>::empty().push(value) =~= seq![value]);
}

/// Appending under one key leaves every other key as it was.
pub proof fn appended_keeps_other_keys(
    m: Map<Seq<char>, Seq<Seq<u8>>>,
    key: Seq<char>,
    value: Seq<u8>,
    other: Seq<char>,
)
    requires
        other != key,
    ensures
        spec_appended(m, key, value).contains_key(other) == m.contains_key(other),
        spec_appended(m, key, value)[other] == m[other],
{
}

/// Appending twice under one key leaves both values, in the order in which
/// they came, and replaces nothing.
pub proof fn appended_twice(
    m: Map<Seq<char>, Seq<Seq<u8>>>,
    key: Seq<char>,
    first: Seq<u8>,
    second: Seq<u8>,
)
    ensures
        spec_appended(spec_appended(m, key, first), key, second)[key] == spec_appended(
            m,
            key,
            first,
        )[key].push(second),
        spec_appended(spec_appended(m, key, first), key, second).dom() == spec_appended(
            m,
            key,
            first,
        ).dom(),
{
    let once = spec_appended(m, key, first);
    assert(spec_appended(once, key, second).dom() =~= once.dom());
}

/// Appending adds one key where the key was not there, and none where it was.
pub proof fn appended_key_count(m: Map<Seq<char>, Seq<Seq<u8>>>, key: Seq<char>, value: Seq<u8>)
    requires
        m.dom().finite(),
    ensures
        spec_appended(m, key, value).dom().finite(),
        spec_appended(m, key, value).dom().len() == m.dom().len() + (if m.contains_key(key) {
            0nat
        } else {
            1nat
        }),
{
    assert(spec_appended(m, key, value).dom() =~= m.dom().insert(key));
}

/// Whether `m` holds exactly `n` keys.
pub open spec fn has_keys(m: Map<Seq<char>, Seq<Seq<u8>>>, n: nat) -> bool {
    m.dom().finite() && m.dom().len() == n
}

/// Whether a map with the contents `m` takes one more value for certain.
pub open spec fn has_room(m: Map<Seq<char>, Seq<Seq<u8>>>) -> bool {
    m.dom().finite() && m.dom().len() <= KEY_LIMIT
}

/// Calls `tonic::metadata::MetadataMap::keys_len`, which returns the number
/// of keys that the map holds, however many values stand under each.
#[verifier::external_body]
fn keys_len(map: &MetadataMap) -> (n: usize)
    ensures
        has_keys(metadata_values(*map), n as nat),
{
    map.keys_len()
}

/// Calls `tonic::metadata::MetadataMap::append` with the key and the value
/// that `AsciiMetadataKey::from_static` and `AsciiMetadataValue::from_static`
/// make of the two texts. The conversions panic on a text that is no key or
/// no token, and `append` panics when the map cannot grow; `requires` leaves
/// these out. `append` returns whether the key was there, puts the value last
/// under the key, and leaves every other key as it was.
#[verifier::external_body]
fn append_ascii(map: &mut MetadataMap, key: &'static str, value: &'static str) -> (had: bool)
    requires
        is_key_text(key@),
        is_token_text(value@),
        has_room(metadata_values(*old(map))),
    ensures
        had == metadata_values(*old(map)).contains_key(key@),
        metadata_values(*final(map)) == spec_appended(
            metadata_values(*old(map)),
            key@,
            bytes_of(value@),
        ),
{
    map.append(AsciiMetadataKey::from_static(key), AsciiMetadataValue::from_static(value))
}

/// The key under which the token is sent.
pub open spec fn token_key() -> Seq<char> {
    "api_token"@
}

proof fn lemma_token_key_is_key()
    ensures
        is_key_text(token_key()),
{
    reveal_strlit("api_token");
    let k = token_key();
    assert(k.len() == 9);
    assert(k.subrange(5, 9)[0] == k[5]);
}

/// Appends the API token to the metadata of each request.
#[derive(Clone, Copy, Debug)]
pub struct APITokenInterceptor {
    token: &'static str,
}

impl APITokenInterceptor {
    #[verifier::type_invariant]
    spec fn holds_token(self) -> bool {
        is_token_text(self.token@)
    }

    /// The token that this interceptor appends.
    pub closed spec fn token_text(self) -> Seq<char> {
        self.token@
    }

    /// Whether `token` can be sent as a token.
    pub fn is_token(token: &str) -> (b: bool)
        ensures
            b == is_token_text(token@),
    {
        let n = token.unicode_len();
        let mut i: usize = 0;
        while i < n
            invariant
                n == token@.len(),
                i <= n,
                forall|j: int| 0 <= j < i ==> is_token_char(#[trigger] token@[j]),
            decreases n - i,
        {
            let c = token.get_char(i);
            if !((' ' <= c && c <= '~') || c == '\t') {
                return false;
            }
            i += 1;
        }
        true
    }

    /// An interceptor that appends `token`.
    pub fn new(token: &'static str) -> (r: APITokenInterceptor)
        requires
            is_token_text(token@),
        ensures
            r.token_text() == token@,
    {
        APITokenInterceptor { token }
    }

    /// The token that this interceptor appends.
    pub fn token(&self) -> (t: &'static str)
        ensures
            t@ == self.token_text(),
            is_token_text(t@),
    {
        proof {
            use_type_invariant(self);
        }
        self.token
    }

    /// Appends the token to `metadata` as the last value under the key
    /// `api_token`. Whatever else `metadata` holds stays as it is.
    pub fn attach(&self, metadata: &mut MetadataMap)
        requires
            has_room(metadata_values(*old(metadata))),
        ensures
            metadata_values(*final(metadata)) == spec_appended(
                metadata_values(*old(metadata)),
                token_key(),
                bytes_of(self.token_text()),
            ),
    {
        proof {
            use_type_invariant(self);
            lemma_token_key_is_key();
        }
        append_ascii(metadata, "api_token", self.token);
    }

    /// Appends the token as `attach` does if `metadata` has room for it for
    /// certain, and says whether it did; otherwise leaves `metadata` as it is.
    pub fn try_attach(&self, metadata: &mut MetadataMap) -> (attached: bool)
        ensures
            attached == has_room(metadata_values(*old(metadata))),
            attached ==> metadata_values(*final(metadata)) == spec_appended(
                metadata_values(*old(metadata)),
                token_key(),
                bytes_of(self.token_text()),
            ),
            !attached ==> *final(metadata) == *old(metadata),
    {
        if keys_len(metadata) <= KEY_LIMIT {
            self.attach(metadata);
            true
        } else {
            false
        }
    }
}

} // verus!
