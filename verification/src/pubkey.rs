use vstd::prelude::*;

verus! {

/// The number of bytes an identity occupies in a persisted record.
pub const PUBKEY_BYTES: usize = 32;

/// A 32-byte identity, held as four 64-bit words so that equality of two
/// identities in executable code coincides with equality in specifications.
#[derive(Clone, Copy, Debug, Hash, PartialEq, Eq, Structural)]
pub struct Pubkey {
    pub w0: u64,
    pub w1: u64,
    pub w2: u64,
    pub w3: u64,
}

/// Reports whether `keys` holds `key`.
pub fn contains_key(keys: &Vec<Pubkey>, key: Pubkey) -> (found: bool)
    ensures
        found == keys@.contains(key),
{
    let mut i: usize = 0;
    while i < keys.len()
        invariant
            0 <= i <= keys@.len(),
            forall|j: int| 0 <= j < i ==> keys@[j] != key,
        decreases keys@.len() - i,
    {
        if keys[i] == key {
            assert(keys@[i as int] == key);
            return true;
        }
        i = i + 1;
    }
    false
}

/// Returns a fresh vector with the same identities in the same order.
pub fn copy_keys(keys: &Vec<Pubkey>) -> (out: Vec<Pubkey>)
    ensures
        out@ == keys@,
{
    let mut out: Vec<Pubkey> = Vec::new();
    let mut i: usize = 0;
    while i < keys.len()
        invariant
            0 <= i <= keys@.len(),
            out@ == keys@.subrange(0, i as int),
        decreases keys@.len() - i,
    {
        out.push(keys[i]);
        assert(out@ =~= keys@.subrange(0, i + 1 as int));
        i = i + 1;
    }
    assert(out@ =~= keys@);
    out
}

/// One unfolding step of `Seq::filter`: filtering a sequence extended by one
/// element keeps the filtered prefix and appends the element when it passes.
pub proof fn lemma_filter_push(s: Seq<Pubkey>, pred: spec_fn(Pubkey) -> bool, x: Pubkey)
    ensures
        s.push(x).filter(pred) == (if pred(x) {
            s.filter(pred).push(x)
        } else {
            s.filter(pred)
        }),
{
    reveal(Seq::filter);
    assert(s.push(x).drop_last() =~= s);
    assert(s.push(x).last() == x);
}

/// Returns a fresh vector holding, in order, the identities of `keys` other
/// than `key`; every occurrence of `key` is dropped.
pub fn remove_key(keys: &Vec<Pubkey>, key: Pubkey) -> (out: Vec<Pubkey>)
    ensures
        out@ == keys@.filter(|k: Pubkey| k != key),
{
    let mut out: Vec<Pubkey> = Vec::new();
    let mut i: usize = 0;
    while i < keys.len()
        invariant
            0 <= i <= keys@.len(),
            out@ == keys@.subrange(0, i as int).filter(|k: Pubkey| k != key),
        decreases keys@.len() - i,
    {
        proof {
            assert(keys@.subrange(0, i + 1 as int) =~= keys@.subrange(0, i as int).push(
                keys@[i as int],
            ));
            lemma_filter_push(keys@.subrange(0, i as int), |k: Pubkey| k != key, keys@[i as int]);
        }
        if keys[i] != key {
            out.push(keys[i]);
        }
        i = i + 1;
    }
    assert(keys@.subrange(0, keys@.len() as int) =~= keys@);
    out
}

/// Appending an identity that a duplicate-free list does not hold keeps the
/// list duplicate-free.
pub proof fn lemma_push_no_duplicates(s: Seq<Pubkey>, x: Pubkey)
    requires
        s.no_duplicates(),
        !s.contains(x),
    ensures
        s.push(x).no_duplicates(),
{
    let out = s.push(x);
    assert forall|i: int, j: int|
        0 <= i < out.len() && 0 <= j < out.len() && i != j implies out[i] != out[j] by {
        if i < s.len() && j < s.len() {
            assert(s[i] == out[i] && s[j] == out[j]);
        } else if i == s.len() {
            if out[j] == x {
                assert(s[j] == x);
                assert(s.contains(x));
            }
        } else {
            if out[i] == x {
                assert(s[i] == x);
                assert(s.contains(x));
            }
        }
    }
}

/// What dropping every occurrence of `key` from a member list does: the
/// result no longer holds `key`, holds exactly the other identities, keeps
/// freedom from duplicates, and under a duplicate-free list shrinks the
/// length by exactly one when `key` was present.
pub proof fn lemma_remove_key_properties(s: Seq<Pubkey>, key: Pubkey)
    ensures
        !s.filter(|k: Pubkey| k != key).contains(key),
        forall|x: Pubkey| x != key ==> s.filter(|k: Pubkey| k != key).contains(x) == s.contains(x),
        s.no_duplicates() ==> s.filter(|k: Pubkey| k != key).no_duplicates(),
        s.no_duplicates() && s.contains(key) ==> s.filter(|k: Pubkey| k != key).len() == s.len()
            - 1,
        !s.contains(key) ==> s.filter(|k: Pubkey| k != key) == s,
    decreases s.len(),
{
    reveal(Seq::filter);
    let pred = |k: Pubkey| k != key;
    if s.len() == 0 {
        assert(s.filter(pred) =~= s);
    } else {
        let prefix = s.drop_last();
        let last = s.last();
        lemma_remove_key_properties(prefix, key);
        lemma_filter_push(prefix, pred, last);
        assert(s =~= prefix.push(last));
        let r = s.filter(pred);
        let rp = prefix.filter(pred);
        broadcast use vstd::seq_lib::group_filter_ensures;

        // contains in either direction, element by element
        assert forall|x: Pubkey| x != key implies r.contains(x) == s.contains(x) by {
            if s.contains(x) {
                let j = choose|j: int| 0 <= j < s.len() && s[j] == x;
                if j == s.len() - 1 {
                    assert(x == last);
                    assert(r == rp.push(last));
                    assert(r[r.len() - 1] == x);
                    assert(r.contains(x));
                } else {
                    assert(prefix[j] == x);
                    assert(prefix.contains(x));
                    assert(rp.contains(x));
                    let k = choose|k: int| 0 <= k < rp.len() && rp[k] == x;
                    if pred(last) {
                        assert(r == rp.push(last));
                    }
                    assert(r[k] == x);
                    assert(r.contains(x));
                }
            }
            if r.contains(x) {
                let j = choose|j: int| 0 <= j < r.len() && r[j] == x;
                if pred(last) && j == r.len() - 1 {
                    assert(r == rp.push(last));
                    assert(x == last);
                    assert(s[s.len() - 1] == x);
                    assert(s.contains(x));
                } else {
                    assert(rp[j] == x);
                    assert(rp.contains(x));
                    assert(prefix.contains(x));
                    let k = choose|k: int| 0 <= k < prefix.len() && prefix[k] == x;
                    assert(s[k] == x);
                    assert(s.contains(x));
                }
            }
        }
        if s.no_duplicates() {
            assert(prefix.no_duplicates());
            if pred(last) {
                assert(r == rp.push(last));
                assert(!prefix.contains(last));
                assert(!rp.contains(last));
                assert forall|i: int, j: int|
                    0 <= i < r.len() && 0 <= j < r.len() && i != j implies r[i] != r[j] by {
                    if i < r.len() - 1 && j < r.len() - 1 {
                        assert(rp.no_duplicates());
                        assert(rp[i] == r[i] && rp[j] == r[j]);
                    } else if i == r.len() - 1 {
                        assert(rp[j] == r[j]);
                        assert(r[i] == last);
                        if r[j] == last {
                            assert(rp.contains(last));
                        }
                    } else {
                        assert(rp[i] == r[i]);
                        assert(r[j] == last);
                        if r[i] == last {
                            assert(rp.contains(last));
                        }
                    }
                }
            }
        }
        if s.no_duplicates() && s.contains(key) {
            if last == key {
                assert(!prefix.contains(key));
                assert(rp == prefix);
                assert(r == rp);
            } else {
                assert(prefix.contains(key)) by {
                    let j = choose|j: int| 0 <= j < s.len() && s[j] == key;
                    assert(j < s.len() - 1);
                    assert(prefix[j] == key);
                }
                assert(r == rp.push(last));
            }
        }
        if !s.contains(key) {
            assert(!prefix.contains(key)) by {
                assert forall|j: int| 0 <= j < prefix.len() implies prefix[j] != key by {
                    assert(s[j] == prefix[j]);
                }
            }
            assert(pred(last)) by {
                assert(s[s.len() - 1] == last);
            }
            assert(r == rp.push(last));
            assert(rp == prefix);
            assert(r =~= s);
        }
    }
}

} // verus!
