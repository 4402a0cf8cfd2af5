use vstd::prelude::*;
use crate::text::{decimal, lacks, lemma_decimal_injective, lemma_decimal_lacks, lemma_split_at_separator, lemma_strip_prefix, push_decimal};

verus! {

/// A finished depth map as it is cached and returned to clients.
pub struct DepthEntry {
    pub hash: String,
    pub width: u32,
    pub height: u32,
    pub data_url: String,
    pub created_at: i64,
}

impl DepthEntry {
    /// A copy of the entry.
    pub fn duplicate(&self) -> (c: DepthEntry)
        ensures
            c == *self,
    {
        DepthEntry {
            hash: self.hash.clone(),
            width: self.width,
            height: self.height,
            data_url: self.data_url.clone(),
            created_at: self.created_at,
        }
    }
}

/// The cache key for a cover hash under a model fingerprint, cover size and
/// output size limit: `v2:{fingerprint}:cover-{cover}:max-{max}:{hash}`.
pub open spec fn cache_key(hash: Seq<char>, fingerprint: Seq<char>, cover_size: nat, max_image_size: nat) -> Seq<char> {
    "v2:"@ + (fingerprint + (":cover-"@ + (decimal(cover_size) + (":max-"@ + (decimal(max_image_size) + (":"@ + hash))))))
}

/// Builds the cache key under which the depth map of `hash` is stored for the
/// given model fingerprint, cover size and maximum output size.
pub fn make_key(hash: &str, model_fingerprint: &str, cover_size: u32, max_image_size: u32) -> (key: String)
    ensures
        key@ == cache_key(hash@, model_fingerprint@, cover_size as nat, max_image_size as nat),
{
    let mut k = String::new();
    k.append("v2:");
    k.append(model_fingerprint);
    k.append(":cover-");
    push_decimal(&mut k, cover_size as u128);
    k.append(":max-");
    push_decimal(&mut k, max_image_size as u128);
    k.append(":");
    k.append(hash);
    assert(k@ =~= cache_key(hash@, model_fingerprint@, cover_size as nat, max_image_size as nat));
    k
}

/// Cache keys identify their inputs: for fingerprints without `:` (such as the
/// hexadecimal model fingerprints), two requests share a key exactly when they
/// agree on hash, fingerprint, cover size and maximum output size.
pub proof fn lemma_cache_key_injective(
    h1: Seq<char>,
    f1: Seq<char>,
    c1: nat,
    m1: nat,
    h2: Seq<char>,
    f2: Seq<char>,
    c2: nat,
    m2: nat,
)
    requires
        lacks(f1, ':'),
        lacks(f2, ':'),
    ensures
        cache_key(h1, f1, c1, m1) == cache_key(h2, f2, c2, m2) <==> (h1 == h2 && f1 == f2 && c1 == c2
            && m1 == m2),
{
    if cache_key(h1, f1, c1, m1) == cache_key(h2, f2, c2, m2) {
        reveal_strlit("v2:");
        reveal_strlit(":cover-");
        reveal_strlit(":max-");
        reveal_strlit(":");
        let t1 = decimal(m1) + (":"@ + h1);
        let t2 = decimal(m2) + (":"@ + h2);
        let s1 = decimal(c1) + (":max-"@ + t1);
        let s2 = decimal(c2) + (":max-"@ + t2);
        let r1 = ":cover-"@ + s1;
        let r2 = ":cover-"@ + s2;
        lemma_strip_prefix("v2:"@, f1 + r1, f2 + r2);
        assert(r1[0] == ':');
        assert(r2[0] == ':');
        lemma_split_at_separator(f1, r1, f2, r2, ':');
        lemma_strip_prefix(":cover-"@, s1, s2);
        lemma_decimal_lacks(c1, ':');
        lemma_decimal_lacks(c2, ':');
        assert((":max-"@ + t1)[0] == ':');
        assert((":max-"@ + t2)[0] == ':');
        lemma_split_at_separator(decimal(c1), ":max-"@ + t1, decimal(c2), ":max-"@ + t2, ':');
        lemma_decimal_injective(c1, c2);
        lemma_strip_prefix(":max-"@, t1, t2);
        lemma_decimal_lacks(m1, ':');
        lemma_decimal_lacks(m2, ':');
        assert((":"@ + h1)[0] == ':');
        assert((":"@ + h2)[0] == ':');
        lemma_split_at_separator(decimal(m1), ":"@ + h1, decimal(m2), ":"@ + h2, ':');
        lemma_decimal_injective(m1, m2);
        lemma_strip_prefix(":"@, h1, h2);
    }
}

} // verus!
