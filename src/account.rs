use vstd::prelude::*;
use vstd::utf8::encode_utf8;
use crate::error::{EncodeError, RunnerError};
use crate::fee::Coin;

verus! {

broadcast use vstd::seq_lib::group_to_multiset_ensures;

/// A coin as a pair of its denomination and amount.
pub open spec fn coin_view(c: Coin) -> (Seq<char>, u128) {
    (c.denom@, c.amount)
}

pub open spec fn coins_view(s: Seq<Coin>) -> Seq<(Seq<char>, u128)> {
    s.map_values(|c: Coin| coin_view(c))
}

/// Byte-wise lexicographic order, the order of Rust's strings.
pub open spec fn bytes_le(a: Seq<u8>, b: Seq<u8>) -> bool
    decreases a.len(),
{
    if a.len() == 0 {
        true
    } else if b.len() == 0 {
        false
    } else if a[0] != b[0] {
        a[0] < b[0]
    } else {
        bytes_le(a.skip(1), b.skip(1))
    }
}

pub open spec fn denom_le(a: (Seq<char>, u128), b: (Seq<char>, u128)) -> bool {
    bytes_le(encode_utf8(a.0), encode_utf8(b.0))
}

pub open spec fn sorted_by_denom(s: Seq<(Seq<char>, u128)>) -> bool {
    forall|i: int, j: int| 0 <= i < j < s.len() ==> denom_le(#[trigger] s[i], #[trigger] s[j])
}

/// `idx` maps each item of `out` to the place in `src` that it comes from,
/// and items of equal denomination keep their order from `src`.
pub open spec fn stable_witness(
    out: Seq<(Seq<char>, u128)>,
    src: Seq<(Seq<char>, u128)>,
    idx: Seq<int>,
) -> bool {
    &&& idx.len() == out.len()
    &&& forall|k: int| 0 <= k < out.len() ==> 0 <= #[trigger] idx[k] < src.len() && out[k] == src[idx[k]]
    &&& forall|p: int, q: int|
        0 <= p < q < out.len() && (#[trigger] out[p]).0 == (#[trigger] out[q]).0 ==> idx[p] < idx[q]
}

/// `out` keeps the order that `src` gives to items of equal denomination.
pub open spec fn stable_from(out: Seq<(Seq<char>, u128)>, src: Seq<(Seq<char>, u128)>) -> bool {
    exists|idx: Seq<int>| #[trigger] stable_witness(out, src, idx)
}

/// What `serde_json::to_string` returns for the list of `cosmwasm_std::Coin`
/// with these denominations and amounts, in this order.
pub uninterp spec fn coins_json(coins: Seq<(Seq<char>, u128)>) -> Seq<char>;

/// Relies on `serde_json::to_string` over `cosmwasm_std::Coin` values built
/// with `Coin::new`. It fails only where a `Serialize` impl fails, and the
/// derived one of `Coin` (a string and an integer) does not; an error would
/// come back as serde_json's message.
#[verifier::external_body]
fn coins_to_json(coins: &Vec<Coin>) -> (r: Result<String, String>)
    ensures
        r is Ok,
        r matches Ok(s) ==> s@ == coins_json(coins_view(coins@)),
{
    let v: Vec<cosmwasm_std::Coin> =
        coins.iter().map(|c| cosmwasm_std::Coin::new(c.amount, c.denom.clone())).collect();
    serde_json::to_string(&v).map_err(|e| e.to_string())
}

proof fn lemma_bytes_le_refl(a: Seq<u8>)
    ensures
        bytes_le(a, a),
    decreases a.len(),
{
    if a.len() > 0 {
        lemma_bytes_le_refl(a.skip(1));
    }
}

proof fn lemma_bytes_le_total(a: Seq<u8>, b: Seq<u8>)
    ensures
        bytes_le(a, b) || bytes_le(b, a),
    decreases a.len(),
{
    if a.len() > 0 && b.len() > 0 && a[0] == b[0] {
        lemma_bytes_le_total(a.skip(1), b.skip(1));
    }
}

proof fn lemma_bytes_le_trans(a: Seq<u8>, b: Seq<u8>, c: Seq<u8>)
    requires
        bytes_le(a, b),
        bytes_le(b, c),
    ensures
        bytes_le(a, c),
    decreases a.len(),
{
    if a.len() > 0 && b.len() > 0 && c.len() > 0 && a[0] == b[0] && b[0] == c[0] {
        lemma_bytes_le_trans(a.skip(1), b.skip(1), c.skip(1));
    }
}

fn bytes_le_exec(a: &[u8], b: &[u8]) -> (r: bool)
    ensures
        r == bytes_le(a@, b@),
{
    let mut i: usize = 0;
    assert(a@.skip(0) =~= a@);
    assert(b@.skip(0) =~= b@);
    while i < a.len() && i < b.len() && a[i] == b[i]
        invariant
            i <= a@.len(),
            i <= b@.len(),
            bytes_le(a@, b@) == bytes_le(a@.skip(i as int), b@.skip(i as int)),
        decreases a@.len() - i,
    {
        assert(a@.skip(i as int).skip(1) =~= a@.skip(i + 1));
        assert(b@.skip(i as int).skip(1) =~= b@.skip(i + 1));
        i = i + 1;
    }
    if i == a.len() {
        true
    } else if i == b.len() {
        false
    } else {
        a[i] < b[i]
    }
}

fn denom_le_exec(a: &Coin, b: &Coin) -> (r: bool)
    ensures
        r == denom_le(coin_view(*a), coin_view(*b)),
{
    bytes_le_exec(a.denom.as_str().as_bytes(), b.denom.as_str().as_bytes())
}

/// The coins ordered by denomination, as the runtime requires of a coin list;
/// coins of equal denomination keep their order. Duplicate denominations are
/// passed on as they are.
pub fn sort_by_denom(coins: &[Coin]) -> (r: Vec<Coin>)
    ensures
        sorted_by_denom(coins_view(r@)),
        coins_view(r@).to_multiset() == coins_view(coins@).to_multiset(),
        stable_from(coins_view(r@), coins_view(coins@)),
{
    let mut out: Vec<Coin> = Vec::new();
    let mut i: usize = 0;
    let ghost mut idx: Seq<int> = Seq::empty();
    while i < coins.len()
        invariant
            i <= coins@.len(),
            sorted_by_denom(coins_view(out@)),
            coins_view(out@).to_multiset() == coins_view(coins@.subrange(0, i as int)).to_multiset(),
            stable_witness(coins_view(out@), coins_view(coins@), idx),
            forall|k: int| 0 <= k < idx.len() ==> #[trigger] idx[k] < i,
        decreases coins@.len() - i,
    {
        let c = &coins[i];
        let mut k: usize = out.len();
        while k > 0 && !denom_le_exec(&out[k - 1], c)
            invariant
                k <= out@.len(),
                forall|j: int| k <= j < out@.len() ==> !denom_le(coin_view(out@[j]), coin_view(*c)),
            decreases k,
        {
            k = k - 1;
        }
        let item = Coin { denom: c.denom.clone(), amount: c.amount };
        let ghost before = coins_view(out@);
        proof {
            let v = coin_view(item);
            assert forall|j: int| 0 <= j < k implies denom_le(before[j], v) by {
                if j < k - 1 {
                    assert(denom_le(before[j], before[k - 1]));
                    lemma_bytes_le_trans(encode_utf8(before[j].0), encode_utf8(before[k - 1].0), encode_utf8(v.0));
                }
            }
            assert forall|j: int| k <= j < before.len() implies denom_le(v, before[j]) by {
                lemma_bytes_le_total(encode_utf8(v.0), encode_utf8(before[j].0));
            }
        }
        out.insert(k, item);
        proof {
            let v = coin_view(item);
            assert(coins_view(out@) =~= before.insert(k as int, v));
            let after = coins_view(out@);
            assert forall|p: int, q: int| 0 <= p < q < after.len() implies denom_le(after[p], after[q]) by {
                if p < k && q > k {
                    assert(denom_le(before[p], v));
                    assert(denom_le(v, before[q - 1]));
                    lemma_bytes_le_trans(encode_utf8(before[p].0), encode_utf8(v.0), encode_utf8(before[q - 1].0));
                }
            }
            assert(coins_view(coins@.subrange(0, i + 1)) =~= coins_view(coins@.subrange(0, i as int)).push(v));
            let src = coins_view(coins@);
            let new_idx = idx.insert(k as int, i as int);
            assert(v == src[i as int]);
            assert forall|m: int| 0 <= m < after.len() implies 0 <= #[trigger] new_idx[m] < src.len()
                && after[m] == src[new_idx[m]] by {
                if m < k {
                    assert(after[m] == before[m]);
                } else if m > k {
                    assert(after[m] == before[m - 1]);
                    assert(new_idx[m] == idx[m - 1]);
                }
            }
            assert forall|p: int, q: int|
                0 <= p < q < after.len() && (#[trigger] after[p]).0 == (#[trigger] after[q]).0
                implies new_idx[p] < new_idx[q] by {
                if q == k {
                    assert(new_idx[p] == idx[p]);
                } else if p == k {
                    assert(after[q] == before[q - 1]);
                    lemma_bytes_le_refl(encode_utf8(v.0));
                    assert(denom_le(before[q - 1], v));
                } else if q < k {
                    assert(after[p] == before[p] && after[q] == before[q]);
                } else if p > k {
                    assert(after[p] == before[p - 1] && after[q] == before[q - 1]);
                    assert(new_idx[p] == idx[p - 1] && new_idx[q] == idx[q - 1]);
                } else {
                    assert(after[p] == before[p] && after[q] == before[q - 1]);
                    assert(new_idx[p] == idx[p] && new_idx[q] == idx[q - 1]);
                }
            }
            assert(stable_witness(after, src, new_idx));
            idx = new_idx;
        }
        i = i + 1;
    }
    assert(coins@.subrange(0, coins@.len() as int) =~= coins@);
    assert(stable_witness(coins_view(out@), coins_view(coins@), idx));
    out
}

/// The coin list that account creation hands to the runtime: the coins
/// ordered by denomination, as JSON.
pub fn init_account_request(coins: &[Coin]) -> (r: Result<String, RunnerError>)
    ensures
        r is Ok,
        r matches Ok(s) ==> exists|sorted: Seq<(Seq<char>, u128)>|
            sorted_by_denom(sorted)
            && sorted.to_multiset() == coins_view(coins@).to_multiset()
            && stable_from(sorted, coins_view(coins@))
            && s@ == coins_json(sorted),
{
    let sorted = sort_by_denom(coins);
    match coins_to_json(&sorted) {
        Ok(s) => Ok(s),
        Err(msg) => Err(RunnerError::EncodeError(EncodeError::JsonEncodeError { msg })),
    }
}

} // verus!
