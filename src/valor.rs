//! Monetary amounts written in the Brazilian convention ("1.234,56"), read as
//! an exact number of centavos.
use vstd::prelude::*;

verus! {

pub open spec fn eh_digito(c: char) -> bool {
    '0' <= c && c <= '9'
}

pub open spec fn valor_digito(c: char) -> nat {
    (c as u32 - '0' as u32) as nat
}

pub open spec fn todos_digitos(s: Seq<char>) -> bool {
    forall|i: int| 0 <= i < s.len() ==> eh_digito(#[trigger] s[i])
}

/// The number that a string of decimal digits denotes.
pub open spec fn valor_digitos(s: Seq<char>) -> nat
    decreases s.len(),
{
    if s.len() == 0 {
        0
    } else {
        valor_digitos(s.drop_last()) * 10 + valor_digito(s.last())
    }
}

/// The string with every thousands separator ('.') taken out.
pub open spec fn sem_pontos(s: Seq<char>) -> Seq<char>
    decreases s.len(),
{
    if s.len() == 0 {
        Seq::empty()
    } else if s.last() == '.' {
        sem_pontos(s.drop_last())
    } else {
        sem_pontos(s.drop_last()).push(s.last())
    }
}

/// `t` (separators already removed) has its decimal comma at `k`: digits before
/// it, at most two digits after it, and at least one digit in all.
pub open spec fn decimal_com_virgula(t: Seq<char>, k: int) -> bool {
    &&& 0 <= k < t.len()
    &&& t[k] == ','
    &&& todos_digitos(t.take(k))
    &&& todos_digitos(t.skip(k + 1))
    &&& t.len() - k - 1 <= 2
    &&& t.len() > 1
}

/// Weight in centavos of the digits after the comma.
pub open spec fn peso_fracao(n: int) -> nat {
    if n == 0 {
        100
    } else if n == 1 {
        10
    } else {
        1
    }
}

/// The amount in centavos that `s` writes, if it is well formed.
pub open spec fn centavos(s: Seq<char>) -> Option<nat> {
    let t = sem_pontos(s);
    if t.len() > 0 && todos_digitos(t) {
        Some(valor_digitos(t) * 100)
    } else if exists|k: int| decimal_com_virgula(t, k) {
        let k = choose|k: int| decimal_com_virgula(t, k);
        Some(valor_digitos(t.take(k)) * 100 + valor_digitos(t.skip(k + 1)) * peso_fracao(
            t.len() - k - 1,
        ))
    } else {
        None
    }
}

/// What the normalizer gives: the amount, or zero where the text is not a
/// well-formed amount or does not fit in 64 bits.
pub open spec fn valor_em_centavos(s: Seq<char>) -> nat {
    match centavos(s) {
        Some(v) => if v <= u64::MAX {
            v
        } else {
            0
        },
        None => 0,
    }
}

proof fn lemma_valor_digitos_cresce(s: Seq<char>, j: int)
    requires
        0 <= j <= s.len(),
    ensures
        valor_digitos(s.take(j)) <= valor_digitos(s),
    decreases s.len() - j,
{
    if j < s.len() {
        lemma_valor_digitos_cresce(s, j + 1);
        assert(s.take(j + 1).drop_last() =~= s.take(j));
    } else {
        assert(s.take(j) =~= s);
    }
}

proof fn lemma_virgula_unica(t: Seq<char>, k: int, k2: int)
    requires
        decimal_com_virgula(t, k),
        decimal_com_virgula(t, k2),
    ensures
        k == k2,
{
    if k < k2 {
        assert(t.take(k2)[k] == t[k]);
    } else if k2 < k {
        assert(t.take(k)[k2] == t[k2]);
    }
}

fn sem_pontos_exec(s: &str) -> (t: Vec<char>)
    ensures
        t@ == sem_pontos(s@),
{
    let n = s.unicode_len();
    let mut t: Vec<char> = Vec::new();
    let mut i: usize = 0;
    while i < n
        invariant
            n == s@.len(),
            i <= n,
            t@ == sem_pontos(s@.take(i as int)),
        decreases n - i,
    {
        let c = s.get_char(i);
        assert(s@.take(i + 1).drop_last() =~= s@.take(i as int));
        if c != '.' {
            t.push(c);
        }
        i = i + 1;
    }
    assert(s@.take(n as int) =~= s@);
    t
}

/// Reads the digits `t[from..to]` as a number, or `None` where that number
/// does not fit in 64 bits.
fn ler_digitos(t: &Vec<char>, from: usize, to: usize) -> (r: Option<u64>)
    requires
        from <= to <= t@.len(),
        todos_digitos(t@.subrange(from as int, to as int)),
    ensures
        match r {
            Some(v) => v == valor_digitos(t@.subrange(from as int, to as int)),
            None => valor_digitos(t@.subrange(from as int, to as int)) > u64::MAX,
        },
{
    let ghost d = t@.subrange(from as int, to as int);
    let mut acc: u64 = 0;
    let mut i: usize = from;
    while i < to
        invariant
            from <= i <= to <= t@.len(),
            d == t@.subrange(from as int, to as int),
            todos_digitos(d),
            acc == valor_digitos(d.take(i - from)),
        decreases to - i,
    {
        let c = t[i];
        assert(d[i - from] == c);
        assert(d.take(i - from + 1).drop_last() =~= d.take(i - from));
        let dig: u64 = (c as u32 - '0' as u32) as u64;
        if acc > (u64::MAX - dig) / 10 {
            proof {
                lemma_valor_digitos_cresce(d, i - from + 1);
            }
            return None;
        }
        acc = acc * 10 + dig;
        i = i + 1;
    }
    assert(d.take(to - from) =~= d);
    Some(acc)
}

/// Converts an amount written as "1.234,56" to centavos (123456). Text that is
/// not such an amount gives zero, so that one unreadable field never stops the
/// records around it from being totalled.
pub fn converter_valor_para_centavos(valor: &str) -> (r: u64)
    ensures
        r == valor_em_centavos(valor@),
{
    let t = sem_pontos_exec(valor);
    let n = t.len();
    let mut i: usize = 0;
    while i < n && '0' <= t[i] && t[i] <= '9'
        invariant
            i <= n == t@.len(),
            todos_digitos(t@.take(i as int)),
        decreases n - i,
    {
        assert(t@.take(i + 1) =~= t@.take(i as int).push(t@[i as int]));
        i = i + 1;
    }
    assert(t@.subrange(0, i as int) =~= t@.take(i as int));
    if i == n {
        if n == 0 {
            return 0;
        }
        assert(t@.take(n as int) =~= t@);
        let v = ler_digitos(&t, 0, n);
        match v {
            Some(v) => {
                if v > u64::MAX / 100 {
                    return 0;
                }
                return v * 100;
            },
            None => {
                return 0;
            },
        }
    }
    if t[i] != ',' || n - i - 1 > 2 || n <= 1 {
        proof {
            if exists|k: int| decimal_com_virgula(t@, k) {
                let k = choose|k: int| decimal_com_virgula(t@, k);
                if k < i {
                    assert(t@.take(i as int)[k] == t@[k]);
                } else if k > i {
                    assert(t@.take(k)[i as int] == t@[i as int]);
                }
            }
        }
        return 0;
    }
    let mut j: usize = i + 1;
    while j < n && '0' <= t[j] && t[j] <= '9'
        invariant
            i < j <= n == t@.len(),
            todos_digitos(t@.subrange(i + 1, j as int)),
        decreases n - j,
    {
        assert(t@.subrange(i + 1, j + 1) =~= t@.subrange(i + 1, j as int).push(t@[j as int]));
        j = j + 1;
    }
    if j < n {
        proof {
            if exists|k: int| decimal_com_virgula(t@, k) {
                let k = choose|k: int| decimal_com_virgula(t@, k);
                if k < i {
                    assert(t@.take(i as int)[k] == t@[k]);
                } else if k > i {
                    assert(t@.take(k)[i as int] == t@[i as int]);
                } else {
                    assert(t@.skip(k + 1)[j - k - 1] == t@[j as int]);
                }
            }
        }
        return 0;
    }
    assert(t@.subrange(i + 1, n as int) =~= t@.skip(i + 1));
    assert(decimal_com_virgula(t@, i as int));
    assert(!todos_digitos(t@)) by {
        assert(!eh_digito(t@[i as int]));
    }
    proof {
        let k = choose|k: int| decimal_com_virgula(t@, k);
        lemma_virgula_unica(t@, k, i as int);
    }
    let inteiro = ler_digitos(&t, 0, i);
    let fracao = ler_digitos(&t, i + 1, n);
    match (inteiro, fracao) {
        (Some(a), Some(b)) => {
            assert(b <= 99) by {
                let f = t@.subrange(i + 1, n as int);
                if f.len() == 2 {
                    assert(eh_digito(f[0]) && eh_digito(f[1]));
                    assert(f.drop_last().drop_last() =~= Seq::<char>::empty());
                    assert(f.drop_last().last() == f[0]);
                    assert(valor_digitos(f.drop_last().drop_last()) == 0);
                    assert(valor_digitos(f.drop_last()) <= 9);
                } else if f.len() == 1 {
                    assert(eh_digito(f[0]));
                    assert(f.drop_last() =~= Seq::<char>::empty());
                    assert(valor_digitos(f.drop_last()) == 0);
                }
            }
            let peso: u64 = if n - i - 1 == 0 {
                100
            } else if n - i - 1 == 1 {
                10
            } else {
                1
            };
            assert(b * peso <= 9900) by (nonlinear_arith)
                requires
                    b <= 99,
                    peso <= 100,
            ;
            if a > (u64::MAX - b * peso) / 100 {
                return 0;
            }
            a * 100 + b * peso
        },
        _ => 0,
    }
}

} // verus!
