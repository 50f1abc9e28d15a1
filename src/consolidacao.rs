//! Consolidation of the awards of many documents into one aggregate per
//! tender (agency, tender, process), and the summary over all of them.
use crate::selecao::{lemma_selecao, selecao};
use crate::texto::{concatenar, empurrar};
use crate::tipos::PropostaConsolidada;
use crate::valor::{converter_valor_para_centavos, valor_em_centavos};
use vstd::prelude::*;

verus! {

/// The awards of one tender; `valor_total` is in centavos.
#[derive(Clone, Debug)]
pub struct LicitacaoConsolidada {
    pub uasg: String,
    pub pregao: String,
    pub processo: String,
    pub total_propostas: usize,
    pub valor_total: u128,
    pub propostas: Vec<PropostaConsolidada>,
}

/// All tenders of a batch; `valor_total_geral` is in centavos.
#[derive(Clone, Debug)]
pub struct ConsolidadoJson {
    pub data_geracao: String,
    pub total_licitacoes: usize,
    pub total_propostas: usize,
    pub valor_total_geral: u128,
    pub licitacoes: Vec<LicitacaoConsolidada>,
}

pub type Chave = (Seq<char>, Seq<char>, Seq<char>);

pub open spec fn chave_de(p: PropostaConsolidada) -> Chave {
    (p.uasg@, p.pregao@, p.processo@)
}

pub open spec fn chave_licitacao(g: LicitacaoConsolidada) -> Chave {
    (g.uasg@, g.pregao@, g.processo@)
}

/// The awards of `ps` that belong to tender `k`, in their order in `ps`.
pub open spec fn membros(ps: Seq<PropostaConsolidada>, k: Chave) -> Seq<PropostaConsolidada> {
    ps.filter(|p: PropostaConsolidada| chave_de(p) == k)
}

/// Sum, in centavos, of the awarded values of `ps`.
pub open spec fn soma_consolidada(ps: Seq<PropostaConsolidada>) -> nat
    decreases ps.len(),
{
    if ps.len() == 0 {
        0
    } else {
        soma_consolidada(ps.drop_last()) + valor_em_centavos(ps.last().valor_adjudicado@)
    }
}

/// The tenders of `ps` in the order in which each first occurs.
pub open spec fn ordem_das_licitacoes(ps: Seq<PropostaConsolidada>) -> Seq<PropostaConsolidada> {
    selecao(ps, |p: PropostaConsolidada| chave_de(p))
}

/// `g` is the aggregate of its tender over `ps`.
pub open spec fn agregado_de(g: LicitacaoConsolidada, ps: Seq<PropostaConsolidada>) -> bool {
    let m = membros(ps, chave_licitacao(g));
    &&& g.propostas@ == m
    &&& g.total_propostas == m.len()
    &&& g.valor_total == soma_consolidada(m)
}

/// `r` holds one aggregate per tender of `ps`, in first-occurrence order.
pub open spec fn agrupamento_de(r: Seq<LicitacaoConsolidada>, ps: Seq<PropostaConsolidada>) -> bool {
    let o = ordem_das_licitacoes(ps);
    &&& r.len() == o.len()
    &&& forall|i: int|
        0 <= i < r.len() ==> chave_licitacao(#[trigger] r[i]) == chave_de(o[i]) && agregado_de(
            r[i],
            ps,
        )
}

proof fn lemma_soma_concat(a: Seq<PropostaConsolidada>, b: Seq<PropostaConsolidada>)
    ensures
        soma_consolidada(a + b) == soma_consolidada(a) + soma_consolidada(b),
    decreases b.len(),
{
    if b.len() == 0 {
        assert(a + b =~= a);
    } else {
        lemma_soma_concat(a, b.drop_last());
        assert((a + b).drop_last() =~= a + b.drop_last());
    }
}

proof fn lemma_soma_limitada(ps: Seq<PropostaConsolidada>)
    ensures
        soma_consolidada(ps) <= ps.len() * (u64::MAX as int),
    decreases ps.len(),
{
    if ps.len() > 0 {
        lemma_soma_limitada(ps.drop_last());
        let v = valor_em_centavos(ps.last().valor_adjudicado@);
        let n = ps.len() - 1;
        assert(soma_consolidada(ps.drop_last()) + v <= (n + 1) * (u64::MAX as int)) by (nonlinear_arith)
            requires
                soma_consolidada(ps.drop_last()) <= n * (u64::MAX as int),
                v <= u64::MAX,
        ;
    }
}

/// Whatever order two documents are processed in, a tender's aggregate has
/// the same count and the same total: the sums of what each document brought.
pub proof fn lemma_agregado_independe_da_ordem(
    a: Seq<PropostaConsolidada>,
    b: Seq<PropostaConsolidada>,
    g1: LicitacaoConsolidada,
    g2: LicitacaoConsolidada,
)
    requires
        agregado_de(g1, a + b),
        agregado_de(g2, b + a),
        chave_licitacao(g1) == chave_licitacao(g2),
    ensures
        g1.total_propostas == g2.total_propostas,
        g1.total_propostas == membros(a, chave_licitacao(g1)).len() + membros(
            b,
            chave_licitacao(g1),
        ).len(),
        g1.valor_total == g2.valor_total,
        g1.valor_total == soma_consolidada(membros(a, chave_licitacao(g1))) + soma_consolidada(
            membros(b, chave_licitacao(g1)),
        ),
{
    let k = chave_licitacao(g1);
    let f = |p: PropostaConsolidada| chave_de(p) == k;
    Seq::filter_distributes_over_add(a, b, f);
    Seq::filter_distributes_over_add(b, a, f);
    lemma_soma_concat(a.filter(f), b.filter(f));
    lemma_soma_concat(b.filter(f), a.filter(f));
}

fn mesma_chave(g: &LicitacaoConsolidada, p: &PropostaConsolidada) -> (r: bool)
    ensures
        r == (chave_licitacao(*g) == chave_de(*p)),
{
    g.uasg == p.uasg && g.pregao == p.pregao && g.processo == p.processo
}

proof fn lemma_membros_passo(ps: Seq<PropostaConsolidada>, i: int, k: Chave)
    requires
        0 <= i < ps.len(),
    ensures
        membros(ps.take(i + 1), k) == if chave_de(ps[i]) == k {
            membros(ps.take(i), k).push(ps[i])
        } else {
            membros(ps.take(i), k)
        },
{
    reveal(Seq::filter);
    assert(ps.take(i + 1).drop_last() =~= ps.take(i));
}

proof fn lemma_membros_vazio(ps: Seq<PropostaConsolidada>, k: Chave)
    requires
        !ordem_das_licitacoes(ps).map_values(|p: PropostaConsolidada| chave_de(p)).contains(k),
    ensures
        membros(ps, k).len() == 0,
{
    let f = |p: PropostaConsolidada| chave_de(p) == k;
    lemma_selecao(ps, |p: PropostaConsolidada| chave_de(p));
    if membros(ps, k).len() > 0 {
        let e = membros(ps, k)[0];
        ps.lemma_filter_pred(f, 0);
        assert(ps.filter(f).contains(e));
        ps.lemma_filter_contains_rev(f, e);
        let j = choose|j: int| 0 <= j < ps.len() && ps[j] == e;
        assert(chave_de(ps[j]) == k);
    }
}

/// Groups the awards by tender, keeping within each tender the order of
/// `propostas`, and the tenders in the order of their first award.
pub fn agrupar_licitacoes(propostas: Vec<PropostaConsolidada>) -> (r: Vec<LicitacaoConsolidada>)
    ensures
        agrupamento_de(r@, propostas@),
{
    let ghost ps = propostas@;
    let ghost f = |p: PropostaConsolidada| chave_de(p);
    let mut resto = propostas;
    let n = resto.len();
    let mut r: Vec<LicitacaoConsolidada> = Vec::new();
    let mut i: usize = 0;
    while resto.len() > 0
        invariant
            n == ps.len(),
            i + resto@.len() == n,
            resto@ == ps.skip(i as int),
            f == (|p: PropostaConsolidada| chave_de(p)),
            agrupamento_de(r@, ps.take(i as int)),
            forall|k: int|
                0 <= k < r@.len() ==> (#[trigger] r@[k]).valor_total <= r@[k].total_propostas * (
                u64::MAX as int) && r@[k].total_propostas <= i,
        decreases resto@.len(),
    {
        let ghost antes = resto@;
        let p = resto.remove(0);
        assert(resto@ =~= ps.skip(i + 1));
        assert(p == ps[i as int]);
        let ghost o = ordem_das_licitacoes(ps.take(i as int));
        let ghost o2 = ordem_das_licitacoes(ps.take(i + 1));
        assert(ps.take(i + 1).drop_last() =~= ps.take(i as int));
        assert(ps.take(i + 1).last() == p);
        let mut j: usize = 0;
        while j < r.len() && !mesma_chave(&r[j], &p)
            invariant
                j <= r@.len(),
                forall|k: int| 0 <= k < j ==> chave_licitacao(#[trigger] r@[k]) != chave_de(p),
            decreases r@.len() - j,
        {
            j = j + 1;
        }
        let v = converter_valor_para_centavos(p.valor_adjudicado.as_str());
        let ghost r0 = r@;
        proof {
            if j < r@.len() {
                assert(o.map_values(f)[j as int] == chave_de(p));
                assert(o2 == o);
            } else {
                if o.map_values(f).contains(chave_de(p)) {
                    let k = choose|k: int| 0 <= k < o.map_values(f).len() && o.map_values(f)[k] == chave_de(p);
                    assert(chave_licitacao(r@[k]) == chave_de(p));
                }
                assert(o2 == o.push(p));
                lemma_membros_vazio(ps.take(i as int), chave_de(p));
            }
        }
        if j < r.len() {
            let ghost g0 = r@[j as int];
            let mut g = r.remove(j);
            proof {
                lemma_membros_passo(ps, i as int, chave_licitacao(g));
            }
            assert(g.valor_total + v <= (g.total_propostas + 1) * (u64::MAX as int)) by (nonlinear_arith)
                requires
                    g.valor_total <= g.total_propostas * (u64::MAX as int),
                    v <= u64::MAX,
            ;
            assert((g.total_propostas + 1) * (u64::MAX as int) < u128::MAX) by (nonlinear_arith)
                requires
                    g.total_propostas <= i,
                    i < usize::MAX,
            ;
            g.propostas.push(p);
            g.total_propostas = g.total_propostas + 1;
            g.valor_total = g.valor_total + v as u128;
            r.insert(j, g);
            proof {
                assert forall|k: int| 0 <= k < r@.len() implies chave_licitacao(#[trigger] r@[k])
                    == chave_de(o2[k]) && agregado_de(r@[k], ps.take(i + 1)) by {
                    lemma_membros_passo(ps, i as int, chave_licitacao(r@[k]));
                    if k != j {
                        assert(r@[k] == r0[k]);
                        lemma_selecao(ps.take(i as int), f);
                        if k < j {
                            assert(f(o[k]) != f(o[j as int]));
                        } else {
                            assert(f(o[j as int]) != f(o[k]));
                        }
                    } else {
                        assert(r@[k] == g);
                        let m = membros(ps.take(i as int), chave_licitacao(g0));
                        assert(m.push(p).drop_last() =~= m);
                    }
                }
            }
        } else {
            let mut membros_novos: Vec<PropostaConsolidada> = Vec::new();
            let uasg = p.uasg.clone();
            let pregao = p.pregao.clone();
            let processo = p.processo.clone();
            membros_novos.push(p);
            let g = LicitacaoConsolidada {
                uasg,
                pregao,
                processo,
                total_propostas: 1,
                valor_total: v as u128,
                propostas: membros_novos,
            };
            proof {
                lemma_membros_passo(ps, i as int, chave_licitacao(g));
                assert(membros(ps.take(i as int), chave_licitacao(g)).push(p) =~= seq![p]);
                reveal_with_fuel(soma_consolidada, 2);
                assert(seq![p].drop_last() =~= Seq::<PropostaConsolidada>::empty());
            }
            r.push(g);
            proof {
                assert forall|k: int| 0 <= k < r@.len() implies chave_licitacao(#[trigger] r@[k])
                    == chave_de(o2[k]) && agregado_de(r@[k], ps.take(i + 1)) by {
                    lemma_membros_passo(ps, i as int, chave_licitacao(r@[k]));
                    if k < r0.len() {
                        assert(r@[k] == r0[k]);
                        assert(o.map_values(f)[k] == chave_licitacao(r0[k]));
                    }
                }
            }
        }
        i = i + 1;
    }
    assert(ps.take(n as int) =~= ps);
    r
}

/// Total in centavos of the awarded values.
pub fn somar_valores_consolidados(ps: &Vec<PropostaConsolidada>) -> (r: u128)
    ensures
        r == soma_consolidada(ps@),
{
    let mut total: u128 = 0;
    let mut i: usize = 0;
    while i < ps.len()
        invariant
            i <= ps@.len(),
            total == soma_consolidada(ps@.take(i as int)),
        decreases ps@.len() - i,
    {
        assert(ps@.take(i + 1).drop_last() =~= ps@.take(i as int));
        proof {
            lemma_soma_limitada(ps@.take(i as int));
        }
        let v = converter_valor_para_centavos(ps[i].valor_adjudicado.as_str());
        assert(total + v <= (i + 1) * (u64::MAX as int)) by (nonlinear_arith)
            requires
                total <= i * (u64::MAX as int),
                v <= u64::MAX,
        ;
        assert((i + 1) * (u64::MAX as int) < u128::MAX) by (nonlinear_arith)
            requires
                i < usize::MAX,
        ;
        total = total + v as u128;
        i = i + 1;
    }
    assert(ps@.take(i as int) =~= ps@);
    total
}

/// The whole batch: one aggregate per tender, the number of awards and their
/// grand total.
pub fn consolidar(propostas: Vec<PropostaConsolidada>, data_geracao: String) -> (r: ConsolidadoJson)
    ensures
        agrupamento_de(r.licitacoes@, propostas@),
        r.total_licitacoes == r.licitacoes@.len(),
        r.total_propostas == propostas@.len(),
        r.valor_total_geral == soma_consolidada(propostas@),
        r.data_geracao@ == data_geracao@,
{
    let total_propostas = propostas.len();
    let valor_total_geral = somar_valores_consolidados(&propostas);
    let licitacoes = agrupar_licitacoes(propostas);
    ConsolidadoJson {
        data_geracao,
        total_licitacoes: licitacoes.len(),
        total_propostas,
        valor_total_geral,
        licitacoes,
    }
}

/// `s` with every '/' and ' ' turned into '_'.
pub open spec fn sem_barras(s: Seq<char>) -> Seq<char> {
    s.map_values(|c: char| if c == '/' || c == ' ' { '_' } else { c })
}

/// Name of the output unit of a tender: "licitacao_<agency>-<tender>-<process>.json",
/// with '/' and ' ' turned into '_'.
pub open spec fn nome_arquivo(g: LicitacaoConsolidada) -> Seq<char> {
    "licitacao_"@ + sem_barras(g.uasg@ + "-"@ + g.pregao@ + "-"@ + g.processo@) + ".json"@
}

pub fn nome_arquivo_licitacao(g: &LicitacaoConsolidada) -> (r: String)
    ensures
        r@ == nome_arquivo(*g),
{
    let mut chave = concatenar(g.uasg.as_str(), "-");
    chave.append(g.pregao.as_str());
    chave.append("-");
    chave.append(g.processo.as_str());
    let n = chave.as_str().unicode_len();
    let mut r = String::from_str("licitacao_");
    let ghost inicio = r@;
    let mut i: usize = 0;
    while i < n
        invariant
            n == chave@.len(),
            i <= n,
            r@ == inicio + sem_barras(chave@.take(i as int)),
        decreases n - i,
    {
        let c = chave.as_str().get_char(i);
        let d = if c == '/' || c == ' ' {
            '_'
        } else {
            c
        };
        empurrar(&mut r, d);
        assert(sem_barras(chave@.take(i + 1)) =~= sem_barras(chave@.take(i as int)).push(d));
        i = i + 1;
    }
    assert(chave@.take(n as int) =~= chave@);
    r.append(".json");
    r
}

/// Names of the output units of all tenders, in order.
pub fn nomes_arquivos(licitacoes: &Vec<LicitacaoConsolidada>) -> (r: Vec<String>)
    ensures
        r@.len() == licitacoes@.len(),
        forall|i: int| 0 <= i < r@.len() ==> (#[trigger] r@[i])@ == nome_arquivo(licitacoes@[i]),
{
    let mut r: Vec<String> = Vec::new();
    let mut i: usize = 0;
    while i < licitacoes.len()
        invariant
            i <= licitacoes@.len(),
            r@.len() == i,
            forall|k: int| 0 <= k < i ==> (#[trigger] r@[k])@ == nome_arquivo(licitacoes@[k]),
        decreases licitacoes@.len() - i,
    {
        r.push(nome_arquivo_licitacao(&licitacoes[i]));
        i = i + 1;
    }
    r
}

} // verus!
