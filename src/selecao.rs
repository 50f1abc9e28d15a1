//! "First occurrence wins": keeping, of a sequence of matches, the first one
//! of each key.
use vstd::prelude::*;

verus! {

/// The elements of `ms` whose key no earlier element has, in order.
pub open spec fn selecao<T, K>(ms: Seq<T>, chave: spec_fn(T) -> K) -> Seq<T>
    decreases ms.len(),
{
    if ms.len() == 0 {
        ms
    } else {
        let r = selecao(ms.drop_last(), chave);
        if r.map_values(chave).contains(chave(ms.last())) {
            r
        } else {
            r.push(ms.last())
        }
    }
}

/// The selection holds no key twice, holds every key that occurs in `ms`, and
/// is empty only where `ms` is.
pub proof fn lemma_selecao<T, K>(ms: Seq<T>, chave: spec_fn(T) -> K)
    ensures
        forall|i: int, j: int|
            0 <= i < j < selecao(ms, chave).len() ==> chave(selecao(ms, chave)[i]) != chave(
                selecao(ms, chave)[j],
            ),
        forall|i: int|
            0 <= i < ms.len() ==> selecao(ms, chave).map_values(chave).contains(
                chave(#[trigger] ms[i]),
            ),
        selecao(ms, chave).len() == 0 <==> ms.len() == 0,
        selecao(ms, chave).len() <= ms.len(),
    decreases ms.len(),
{
    if ms.len() > 0 {
        let p = ms.drop_last();
        lemma_selecao(p, chave);
        let r = selecao(p, chave);
        let s = selecao(ms, chave);
        let k = chave(ms.last());
        if r.map_values(chave).contains(k) {
            assert(s == r);
            assert forall|i: int| 0 <= i < ms.len() implies s.map_values(chave).contains(
                chave(#[trigger] ms[i]),
            ) by {
                if i < ms.len() - 1 {
                    assert(ms[i] == p[i]);
                }
            }
            if r.len() == 0 {
                let j = choose|j: int| 0 <= j < r.map_values(chave).len() && r.map_values(chave)[j] == k;
                assert(false);
            }
        } else {
            assert(s == r.push(ms.last()));
            assert forall|i: int, j: int| 0 <= i < j < s.len() implies chave(s[i]) != chave(s[j]) by {
                if j == s.len() - 1 {
                    assert(s[j] == ms.last());
                    assert(s[i] == r[i]);
                    assert(r.map_values(chave)[i] == chave(r[i]));
                } else {
                    assert(s[i] == r[i] && s[j] == r[j]);
                }
            }
            assert(s.map_values(chave) =~= r.map_values(chave).push(k));
            assert forall|i: int| 0 <= i < ms.len() implies s.map_values(chave).contains(
                chave(#[trigger] ms[i]),
            ) by {
                if i < ms.len() - 1 {
                    assert(ms[i] == p[i]);
                    let j = choose|j: int|
                        0 <= j < r.map_values(chave).len() && r.map_values(chave)[j] == chave(p[i]);
                    assert(s.map_values(chave)[j] == chave(p[i]));
                } else {
                    assert(s.map_values(chave)[s.len() - 1] == k);
                }
            }
        }
    }
}

} // verus!
