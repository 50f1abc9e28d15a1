//! One report per tender document: its metadata, its awards and their total.
use crate::propostas::{extracao_correta, extrair_propostas};
use crate::texto::{
    aparado, aparar, concatenar, copiar_opcao, grupo, grupo_exec, grupo_ou_na, opcao_view,
    primeira_captura, primeiro_grupo_ou_na, regex_primeira,
};
use crate::tipos::{PropostaAdjudicada, PropostaConsolidada};
use crate::valor::{converter_valor_para_centavos, valor_em_centavos};
use vstd::prelude::*;

verus! {

pub const PADRAO_UASG: &'static str = r"UASG\s*(\d+)";

pub const PADRAO_PREGAO: &'static str = r"PREGÃO\s*(\d+/\d+)";

pub const PADRAO_PROCESSO: &'static str = r"Processo\s*n[ºo°]?\s*(\d+)";

pub const PADRAO_DATA: &'static str = r"Às\s*([\d:]+)\s*horas\s*do\s*dia\s*([\d]+)\s*de\s*(\w+)\s*do\s*ano\s*de\s*([\d]+)";

pub const PADRAO_RESPONSAVEL: &'static str = r"HOMOLOGA\s*a\s*adjudicação.*?([A-Z][A-Z\s]+),";

/// A tender document's report. `valor_total` is in centavos.
#[derive(Clone, Debug)]
pub struct RelatorioLicitacao {
    pub uasg: String,
    pub pregao: String,
    pub processo: String,
    pub data_homologacao: String,
    pub responsavel: String,
    pub valor_total: u128,
    pub propostas: Vec<PropostaAdjudicada>,
}

/// Sum, in centavos, of the awarded values of `ps`, each read by the
/// normalizer.
pub open spec fn soma_adjudicada(ps: Seq<PropostaAdjudicada>) -> nat
    decreases ps.len(),
{
    if ps.len() == 0 {
        0
    } else {
        soma_adjudicada(ps.drop_last()) + valor_em_centavos(ps.last().valor_adjudicado@)
    }
}

pub open spec fn data_homologacao(t: Seq<char>) -> Seq<char> {
    match regex_primeira(PADRAO_DATA@, t) {
        Some(g) => "Às "@ + grupo(g, 1) + " horas do dia "@ + grupo(g, 2) + " de "@ + grupo(g, 3)
            + " do ano de "@ + grupo(g, 4),
        None => "N/A"@,
    }
}

pub open spec fn responsavel_homologacao(t: Seq<char>) -> Seq<char> {
    match regex_primeira(PADRAO_RESPONSAVEL@, t) {
        Some(g) => aparado(grupo(g, 1)),
        None => "N/A"@,
    }
}

/// `r` is the report of text `t`: each metadata field from its own pattern
/// ("N/A" where it finds nothing), the awards of the text, and their total.
pub open spec fn relatorio_de(t: Seq<char>, r: RelatorioLicitacao) -> bool {
    &&& r.uasg@ == grupo_ou_na(regex_primeira(PADRAO_UASG@, t), 1)
    &&& r.pregao@ == grupo_ou_na(regex_primeira(PADRAO_PREGAO@, t), 1)
    &&& r.processo@ == grupo_ou_na(regex_primeira(PADRAO_PROCESSO@, t), 1)
    &&& r.data_homologacao@ == data_homologacao(t)
    &&& r.responsavel@ == responsavel_homologacao(t)
    &&& extracao_correta(t, r.propostas@)
    &&& r.valor_total == soma_adjudicada(r.propostas@)
}

fn extrair_uasg(text: &str) -> (r: String)
    ensures
        r@ == grupo_ou_na(regex_primeira(PADRAO_UASG@, text@), 1),
{
    primeiro_grupo_ou_na(PADRAO_UASG, text, 1)
}

fn extrair_pregao(text: &str) -> (r: String)
    ensures
        r@ == grupo_ou_na(regex_primeira(PADRAO_PREGAO@, text@), 1),
{
    primeiro_grupo_ou_na(PADRAO_PREGAO, text, 1)
}

fn extrair_processo(text: &str) -> (r: String)
    ensures
        r@ == grupo_ou_na(regex_primeira(PADRAO_PROCESSO@, text@), 1),
{
    primeiro_grupo_ou_na(PADRAO_PROCESSO, text, 1)
}

fn extrair_data_homologacao(text: &str) -> (r: String)
    ensures
        r@ == data_homologacao(text@),
{
    match primeira_captura(PADRAO_DATA, text) {
        Some(g) => {
            let mut r = concatenar("Às ", grupo_exec(&g, 1).as_str());
            r.append(" horas do dia ");
            r.append(grupo_exec(&g, 2).as_str());
            r.append(" de ");
            r.append(grupo_exec(&g, 3).as_str());
            r.append(" do ano de ");
            r.append(grupo_exec(&g, 4).as_str());
            r
        },
        None => String::from_str("N/A"),
    }
}

fn extrair_responsavel(text: &str) -> (r: String)
    ensures
        r@ == responsavel_homologacao(text@),
{
    match primeira_captura(PADRAO_RESPONSAVEL, text) {
        Some(g) => aparar(grupo_exec(&g, 1).as_str()),
        None => String::from_str("N/A"),
    }
}

/// Total in centavos of the awarded values.
pub fn somar_valores_adjudicados(ps: &Vec<PropostaAdjudicada>) -> (r: u128)
    ensures
        r == soma_adjudicada(ps@),
{
    let mut total: u128 = 0;
    let mut i: usize = 0;
    while i < ps.len()
        invariant
            i <= ps@.len(),
            total == soma_adjudicada(ps@.take(i as int)),
            total <= i * (u64::MAX as int),
        decreases ps@.len() - i,
    {
        assert(ps@.take(i + 1).drop_last() =~= ps@.take(i as int));
        let v = converter_valor_para_centavos(ps[i].valor_adjudicado.as_str());
        assert(total + v <= (i + 1) * (u64::MAX as int)) by (nonlinear_arith)
            requires
                total <= i * (u64::MAX as int),
                v <= u64::MAX,
        ;
        assert((i + 1) * (u64::MAX as int) < u128::MAX) by (nonlinear_arith)
            requires
                i < usize::MAX,
        ;
        total = total + v as u128;
        i = i + 1;
    }
    assert(ps@.take(i as int) =~= ps@);
    total
}

/// The report of one tender document's text.
pub fn processar_texto_licitacao(texto: &str) -> (r: RelatorioLicitacao)
    ensures
        relatorio_de(texto@, r),
{
    let propostas = extrair_propostas(texto);
    let valor_total = somar_valores_adjudicados(&propostas);
    RelatorioLicitacao {
        uasg: extrair_uasg(texto),
        pregao: extrair_pregao(texto),
        processo: extrair_processo(texto),
        data_homologacao: extrair_data_homologacao(texto),
        responsavel: extrair_responsavel(texto),
        valor_total,
        propostas,
    }
}

/// `c` is award `p` of the tender (`uasg`, `pregao`, `processo`).
pub open spec fn consolidada_de(
    c: PropostaConsolidada,
    uasg: Seq<char>,
    pregao: Seq<char>,
    processo: Seq<char>,
    p: PropostaAdjudicada,
) -> bool {
    &&& c.uasg@ == uasg
    &&& c.pregao@ == pregao
    &&& c.processo@ == processo
    &&& c.item@ == p.item@
    &&& opcao_view(c.grupo) == opcao_view(p.grupo)
    &&& c.quantidade@ == p.quantidade@
    &&& c.descricao@ == p.descricao@
    &&& c.valor_estimado@ == p.valor_estimado@
    &&& c.valor_adjudicado@ == p.valor_adjudicado@
    &&& c.fornecedor@ == p.fornecedor@
    &&& c.cnpj@ == p.cnpj@
    &&& c.marca_fabricante@ == p.marca_fabricante@
    &&& c.modelo_versao@ == p.modelo_versao@
    &&& c.responsavel@ == p.responsavel@
    &&& c.melhor_lance@ == p.melhor_lance@
    &&& c.tipo_formato@ == p.tipo_formato@
}

/// The report's awards, each with the tender's (agency, tender, process), in
/// the report's order.
pub fn propostas_consolidadas(relatorio: &RelatorioLicitacao) -> (r: Vec<PropostaConsolidada>)
    ensures
        r@.len() == relatorio.propostas@.len(),
        forall|i: int|
            0 <= i < r@.len() ==> consolidada_de(
                #[trigger] r@[i],
                relatorio.uasg@,
                relatorio.pregao@,
                relatorio.processo@,
                relatorio.propostas@[i],
            ),
{
    let mut r: Vec<PropostaConsolidada> = Vec::new();
    let mut i: usize = 0;
    while i < relatorio.propostas.len()
        invariant
            i <= relatorio.propostas@.len(),
            r@.len() == i,
            forall|k: int|
                0 <= k < i ==> consolidada_de(
                    #[trigger] r@[k],
                    relatorio.uasg@,
                    relatorio.pregao@,
                    relatorio.processo@,
                    relatorio.propostas@[k],
                ),
        decreases relatorio.propostas@.len() - i,
    {
        let p = &relatorio.propostas[i];
        r.push(
            PropostaConsolidada {
                uasg: relatorio.uasg.clone(),
                pregao: relatorio.pregao.clone(),
                processo: relatorio.processo.clone(),
                item: p.item.clone(),
                grupo: copiar_opcao(&p.grupo),
                quantidade: p.quantidade.clone(),
                descricao: p.descricao.clone(),
                valor_estimado: p.valor_estimado.clone(),
                valor_adjudicado: p.valor_adjudicado.clone(),
                fornecedor: p.fornecedor.clone(),
                cnpj: p.cnpj.clone(),
                marca_fabricante: p.marca_fabricante.clone(),
                modelo_versao: p.modelo_versao.clone(),
                responsavel: p.responsavel.clone(),
                melhor_lance: p.melhor_lance.clone(),
                tipo_formato: p.tipo_formato.clone(),
            },
        );
        i = i + 1;
    }
    r
}

} // verus!
