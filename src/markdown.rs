//! The human-readable rendering of a tender report: front matter, metadata,
//! a table of the awards, a detail block per award and statistics.
use crate::relatorio::RelatorioLicitacao;
use crate::texto::{concatenar, empurrar};
use crate::tipos::PropostaAdjudicada;
use vstd::prelude::*;

verus! {

pub open spec fn digito_char(d: nat) -> char {
    if d == 0 {
        '0'
    } else if d == 1 {
        '1'
    } else if d == 2 {
        '2'
    } else if d == 3 {
        '3'
    } else if d == 4 {
        '4'
    } else if d == 5 {
        '5'
    } else if d == 6 {
        '6'
    } else if d == 7 {
        '7'
    } else if d == 8 {
        '8'
    } else {
        '9'
    }
}

/// The decimal numeral of `n`.
pub open spec fn texto_natural(n: nat) -> Seq<char>
    decreases n,
{
    if n < 10 {
        seq![digito_char(n)]
    } else {
        texto_natural(n / 10).push(digito_char(n % 10))
    }
}

/// An amount in centavos written with two decimals: 123456 is "1234.56".
pub open spec fn reais(c: nat) -> Seq<char> {
    texto_natural(c / 100) + "."@ + seq![digito_char((c % 100) / 10), digito_char(c % 10)]
}

/// `t / n` rounded to the nearest integer, halves up.
pub open spec fn media_arredondada(t: nat, n: nat) -> nat
    recommends
        n > 0,
{
    if 2 * (t % n) >= n {
        t / n + 1
    } else {
        t / n
    }
}

fn digito_exec(d: u128) -> (c: char)
    requires
        d < 10,
    ensures
        c == digito_char(d as nat),
{
    if d == 0 {
        '0'
    } else if d == 1 {
        '1'
    } else if d == 2 {
        '2'
    } else if d == 3 {
        '3'
    } else if d == 4 {
        '4'
    } else if d == 5 {
        '5'
    } else if d == 6 {
        '6'
    } else if d == 7 {
        '7'
    } else if d == 8 {
        '8'
    } else {
        '9'
    }
}

pub fn escrever_natural(n: u128) -> (r: String)
    ensures
        r@ == texto_natural(n as nat),
    decreases n,
{
    if n < 10 {
        let mut r = String::new();
        empurrar(&mut r, digito_exec(n));
        assert(r@ =~= seq![digito_char(n as nat)]);
        r
    } else {
        let mut r = escrever_natural(n / 10);
        empurrar(&mut r, digito_exec(n % 10));
        r
    }
}

pub fn escrever_reais(c: u128) -> (r: String)
    ensures
        r@ == reais(c as nat),
{
    let mut r = escrever_natural(c / 100);
    r.append(".");
    let ghost antes = r@;
    empurrar(&mut r, digito_exec((c % 100) / 10));
    empurrar(&mut r, digito_exec(c % 10));
    assert(r@ =~= antes + seq![digito_char(((c % 100) / 10) as nat), digito_char((c % 10) as nat)]);
    r
}

pub open spec fn cabecalho(data_geracao: Seq<char>) -> Seq<char> {
    Seq::empty() + "---\n"@ + "gerado_em: "@ + data_geracao + "\n"@
        + "ferramenta: PDF to Markdown Converter\n"@ + "---\n\n"@
        + "# RELATÓRIO DE LICITAÇÃO - PROPOSTAS ADJUDICADAS\n\n"@
}

pub open spec fn informacoes(r: RelatorioLicitacao) -> Seq<char> {
    Seq::empty() + "## Informações Gerais\n\n"@ + "- **UASG**: "@ + r.uasg@ + "\n"@
        + "- **Pregão**: "@ + r.pregao@ + "\n"@ + "- **Processo**: "@ + r.processo@ + "\n"@
        + "- **Data de Homologação**: "@ + r.data_homologacao@ + "\n"@ + "- **Responsável**: "@
        + r.responsavel@ + "\n"@ + "- **Valor Total**: R$ "@ + reais(r.valor_total as nat)
        + "\n\n"@
}

pub const CABECALHO_COM_GRUPO: &'static str = "| Item | Grupo | Descrição | Quantidade | Valor Estimado | Valor Adjudicado | Fornecedor | CNPJ | Marca/Fabricante | Modelo/Versão |\n|------|--------|-----------|------------|----------------|------------------|------------|------|------------------|---------------|\n";

pub const CABECALHO_SEM_GRUPO: &'static str = "| Item | Descrição | Quantidade | Valor Estimado | Valor Adjudicado | Fornecedor | CNPJ | Marca/Fabricante | Modelo/Versão |\n|------|-----------|------------|----------------|------------------|------------|------|------------------|---------------|\n";

/// One grouped record switches the whole table to the grouped columns.
pub open spec fn tem_grupos(ps: Seq<PropostaAdjudicada>) -> bool {
    exists|i: int| 0 <= i < ps.len() && (#[trigger] ps[i]).grupo is Some
}

pub open spec fn coluna_grupo(p: PropostaAdjudicada) -> Seq<char> {
    match p.grupo {
        Some(g) => g@,
        None => "N/A"@,
    }
}

pub open spec fn linha(p: PropostaAdjudicada, com_grupo: bool) -> Seq<char> {
    if com_grupo {
        Seq::empty() + "| "@ + p.item@ + " | "@ + coluna_grupo(p) + " | "@ + p.descricao@ + " | "@
            + p.quantidade@ + " | R$ "@ + p.valor_estimado@ + " | R$ "@ + p.valor_adjudicado@
            + " | "@ + p.fornecedor@ + " | "@ + p.cnpj@ + " | "@ + p.marca_fabricante@ + " | "@
            + p.modelo_versao@ + " |\n"@
    } else {
        Seq::empty() + "| "@ + p.item@ + " | "@ + p.descricao@ + " | "@ + p.quantidade@
            + " | R$ "@ + p.valor_estimado@ + " | R$ "@ + p.valor_adjudicado@ + " | "@
            + p.fornecedor@ + " | "@ + p.cnpj@ + " | "@ + p.marca_fabricante@ + " | "@
            + p.modelo_versao@ + " |\n"@
    }
}

pub open spec fn linhas(ps: Seq<PropostaAdjudicada>, com_grupo: bool) -> Seq<char>
    decreases ps.len(),
{
    if ps.len() == 0 {
        Seq::empty()
    } else {
        linhas(ps.drop_last(), com_grupo) + linha(ps.last(), com_grupo)
    }
}

pub open spec fn tabela(ps: Seq<PropostaAdjudicada>) -> Seq<char> {
    Seq::empty() + "## Propostas Adjudicadas\n\n"@ + (if tem_grupos(ps) {
        CABECALHO_COM_GRUPO@
    } else {
        CABECALHO_SEM_GRUPO@
    }) + linhas(ps, tem_grupos(ps))
}

pub open spec fn grupo_info(p: PropostaAdjudicada) -> Seq<char> {
    match p.grupo {
        Some(g) => " ("@ + g@ + ") "@,
        None => " "@,
    }
}

pub open spec fn detalhe(p: PropostaAdjudicada) -> Seq<char> {
    Seq::empty() + "### Item "@ + p.item@ + grupo_info(p) + "- "@ + p.descricao@ + "\n\n"@
        + "- **Quantidade**: "@ + p.quantidade@ + "\n"@ + "- **Valor Estimado**: R$ "@
        + p.valor_estimado@ + "\n"@ + "- **Valor Adjudicado**: R$ "@ + p.valor_adjudicado@
        + "\n"@ + "- **Fornecedor**: "@ + p.fornecedor@ + "\n"@ + "- **CNPJ**: "@ + p.cnpj@
        + "\n"@ + "- **Melhor Lance**: R$ "@ + p.melhor_lance@ + "\n"@ + "- **Responsável**: "@
        + p.responsavel@ + "\n"@ + "- **CPF Responsável**: "@ + p.cpf_responsavel@ + "\n"@
        + "- **Marca/Fabricante**: "@ + p.marca_fabricante@ + "\n"@ + "- **Modelo/Versão**: "@
        + p.modelo_versao@ + "\n\n"@
}

pub open spec fn detalhes(ps: Seq<PropostaAdjudicada>) -> Seq<char>
    decreases ps.len(),
{
    if ps.len() == 0 {
        Seq::empty()
    } else {
        detalhes(ps.drop_last()) + detalhe(ps.last())
    }
}

/// The average line, present only where there is at least one award.
pub open spec fn linha_media(r: RelatorioLicitacao) -> Seq<char> {
    if r.propostas@.len() > 0 {
        "- **Valor Médio por Item**: R$ "@ + reais(
            media_arredondada(r.valor_total as nat, r.propostas@.len()),
        ) + "\n"@
    } else {
        Seq::empty()
    }
}

pub open spec fn resumo(r: RelatorioLicitacao) -> Seq<char> {
    Seq::empty() + "## Resumo Estatístico\n\n"@ + "- **Total de Itens Adjudicados**: "@
        + texto_natural(r.propostas@.len()) + "\n"@ + "- **Valor Total das Adjudicações**: R$ "@
        + reais(r.valor_total as nat) + "\n"@ + linha_media(r)
}

/// The whole rendered report.
pub open spec fn markdown_de(r: RelatorioLicitacao, data_geracao: Seq<char>) -> Seq<char> {
    cabecalho(data_geracao) + informacoes(r) + tabela(r.propostas@) + "\n## Detalhes das Propostas\n\n"@
        + detalhes(r.propostas@) + resumo(r)
}

fn escrever_cabecalho(data_geracao: &str) -> (m: String)
    ensures
        m@ == cabecalho(data_geracao@),
{
    let mut m = String::new();
    m.append("---\n");
    m.append("gerado_em: ");
    m.append(data_geracao);
    m.append("\n");
    m.append("ferramenta: PDF to Markdown Converter\n");
    m.append("---\n\n");
    m.append("# RELATÓRIO DE LICITAÇÃO - PROPOSTAS ADJUDICADAS\n\n");
    m
}

fn escrever_informacoes(r: &RelatorioLicitacao) -> (m: String)
    ensures
        m@ == informacoes(*r),
{
    let mut m = String::new();
    m.append("## Informações Gerais\n\n");
    m.append("- **UASG**: ");
    m.append(r.uasg.as_str());
    m.append("\n");
    m.append("- **Pregão**: ");
    m.append(r.pregao.as_str());
    m.append("\n");
    m.append("- **Processo**: ");
    m.append(r.processo.as_str());
    m.append("\n");
    m.append("- **Data de Homologação**: ");
    m.append(r.data_homologacao.as_str());
    m.append("\n");
    m.append("- **Responsável**: ");
    m.append(r.responsavel.as_str());
    m.append("\n");
    m.append("- **Valor Total**: R$ ");
    m.append(escrever_reais(r.valor_total).as_str());
    m.append("\n\n");
    m
}

fn possui_grupos(ps: &Vec<PropostaAdjudicada>) -> (r: bool)
    ensures
        r == tem_grupos(ps@),
{
    let mut i: usize = 0;
    while i < ps.len()
        invariant
            i <= ps@.len(),
            forall|k: int| 0 <= k < i ==> (#[trigger] ps@[k]).grupo is None,
        decreases ps@.len() - i,
    {
        if ps[i].grupo.is_some() {
            return true;
        }
        i = i + 1;
    }
    false
}

fn escrever_linha(p: &PropostaAdjudicada, com_grupo: bool) -> (m: String)
    ensures
        m@ == linha(*p, com_grupo),
{
    let mut m = String::new();
    m.append("| ");
    m.append(p.item.as_str());
    m.append(" | ");
    if com_grupo {
        match &p.grupo {
            Some(g) => m.append(g.as_str()),
            None => m.append("N/A"),
        }
        m.append(" | ");
    }
    m.append(p.descricao.as_str());
    m.append(" | ");
    m.append(p.quantidade.as_str());
    m.append(" | R$ ");
    m.append(p.valor_estimado.as_str());
    m.append(" | R$ ");
    m.append(p.valor_adjudicado.as_str());
    m.append(" | ");
    m.append(p.fornecedor.as_str());
    m.append(" | ");
    m.append(p.cnpj.as_str());
    m.append(" | ");
    m.append(p.marca_fabricante.as_str());
    m.append(" | ");
    m.append(p.modelo_versao.as_str());
    m.append(" |\n");
    m
}

fn escrever_tabela(ps: &Vec<PropostaAdjudicada>) -> (m: String)
    ensures
        m@ == tabela(ps@),
{
    let com_grupo = possui_grupos(ps);
    let mut m = String::new();
    m.append("## Propostas Adjudicadas\n\n");
    if com_grupo {
        m.append(CABECALHO_COM_GRUPO);
    } else {
        m.append(CABECALHO_SEM_GRUPO);
    }
    let mut corpo = String::new();
    let mut i: usize = 0;
    while i < ps.len()
        invariant
            i <= ps@.len(),
            corpo@ == linhas(ps@.take(i as int), com_grupo),
        decreases ps@.len() - i,
    {
        assert(ps@.take(i + 1).drop_last() =~= ps@.take(i as int));
        corpo.append(escrever_linha(&ps[i], com_grupo).as_str());
        i = i + 1;
    }
    assert(ps@.take(i as int) =~= ps@);
    m.append(corpo.as_str());
    m
}

fn escrever_detalhe(p: &PropostaAdjudicada) -> (m: String)
    ensures
        m@ == detalhe(*p),
{
    let info = match &p.grupo {
        Some(g) => {
            let mut s = concatenar(" (", g.as_str());
            s.append(") ");
            s
        },
        None => String::from_str(" "),
    };
    let mut m = String::new();
    m.append("### Item ");
    m.append(p.item.as_str());
    m.append(info.as_str());
    m.append("- ");
    m.append(p.descricao.as_str());
    m.append("\n\n");
    m.append("- **Quantidade**: ");
    m.append(p.quantidade.as_str());
    m.append("\n");
    m.append("- **Valor Estimado**: R$ ");
    m.append(p.valor_estimado.as_str());
    m.append("\n");
    m.append("- **Valor Adjudicado**: R$ ");
    m.append(p.valor_adjudicado.as_str());
    m.append("\n");
    m.append("- **Fornecedor**: ");
    m.append(p.fornecedor.as_str());
    m.append("\n");
    m.append("- **CNPJ**: ");
    m.append(p.cnpj.as_str());
    m.append("\n");
    m.append("- **Melhor Lance**: R$ ");
    m.append(p.melhor_lance.as_str());
    m.append("\n");
    m.append("- **Responsável**: ");
    m.append(p.responsavel.as_str());
    m.append("\n");
    m.append("- **CPF Responsável**: ");
    m.append(p.cpf_responsavel.as_str());
    m.append("\n");
    m.append("- **Marca/Fabricante**: ");
    m.append(p.marca_fabricante.as_str());
    m.append("\n");
    m.append("- **Modelo/Versão**: ");
    m.append(p.modelo_versao.as_str());
    m.append("\n\n");
    m
}

fn escrever_detalhes(ps: &Vec<PropostaAdjudicada>) -> (m: String)
    ensures
        m@ == detalhes(ps@),
{
    let mut m = String::new();
    let mut i: usize = 0;
    while i < ps.len()
        invariant
            i <= ps@.len(),
            m@ == detalhes(ps@.take(i as int)),
        decreases ps@.len() - i,
    {
        assert(ps@.take(i + 1).drop_last() =~= ps@.take(i as int));
        m.append(escrever_detalhe(&ps[i]).as_str());
        i = i + 1;
    }
    assert(ps@.take(i as int) =~= ps@);
    m
}

fn escrever_resumo(r: &RelatorioLicitacao) -> (m: String)
    ensures
        m@ == resumo(*r),
{
    let n = r.propostas.len();
    let media = if n > 0 {
        let q = r.valor_total / (n as u128);
        let resto = r.valor_total % (n as u128);
        let valor = if 2 * resto >= n as u128 {
            assert(n >= 2);
            assert(q < u128::MAX) by (nonlinear_arith)
                requires
                    q == r.valor_total / (n as u128),
                    n >= 2,
            ;
            q + 1
        } else {
            q
        };
        let mut s = String::from_str("- **Valor Médio por Item**: R$ ");
        s.append(escrever_reais(valor).as_str());
        s.append("\n");
        s
    } else {
        String::new()
    };
    let mut m = String::new();
    m.append("## Resumo Estatístico\n\n");
    m.append("- **Total de Itens Adjudicados**: ");
    m.append(escrever_natural(n as u128).as_str());
    m.append("\n");
    m.append("- **Valor Total das Adjudicações**: R$ ");
    m.append(escrever_reais(r.valor_total).as_str());
    m.append("\n");
    m.append(media.as_str());
    m
}

/// Renders a tender report; `data_geracao` is the generation time to stamp.
/// The table takes the grouped columns as soon as one award has a group.
pub fn gerar_markdown(relatorio: &RelatorioLicitacao, data_geracao: &str) -> (m: String)
    ensures
        m@ == markdown_de(*relatorio, data_geracao@),
{
    let mut m = escrever_cabecalho(data_geracao);
    m.append(escrever_informacoes(relatorio).as_str());
    m.append(escrever_tabela(&relatorio.propostas).as_str());
    m.append("\n## Detalhes das Propostas\n\n");
    m.append(escrever_detalhes(&relatorio.propostas).as_str());
    m.append(escrever_resumo(relatorio).as_str());
    m
}

} // verus!
