//! Award extraction from the text of a tender report, in its two layouts:
//! grouped ("Item 1 do Grupo G2 ...") and individual, where the fields that
//! the award sentence lacks are recovered from the text around the supplier's
//! tax identifier.
use crate::selecao::{lemma_selecao, selecao};
use crate::texto::{
    aparado, aparar, concatenar, escapado, escapar, grupo, grupo_exec, grupo_ou_na, grupos_view,
    primeira_captura, primeiro_grupo_ou_na, regex_primeira, regex_todas, todas_capturas, Grupos,
};
use crate::tipos::PropostaAdjudicada;
use vstd::prelude::*;

verus! {

/// One grouped award: item, group, description, quantity, estimated value,
/// status, official, supplier, tax identifier and best bid, with the status
/// "Adjudicado e Homologado" between the value block and the award sentence.
pub const PADRAO_GRUPO: &'static str = r"Item\s+(?P<item>\d+)\s+do\s+Grupo\s+G(?P<grupo>\d+)\s*-\s*(?P<descricao>[^\n]+)[\s\S]*?Quantidade:\s*(?P<quantidade>\d+)[\s\S]*?Valor\s+estimado:\s*R\$\s*(?P<valor>[\d,\.]+)[\s\S]*?Situação:\s*(?P<situacao>Adjudicado e Homologado)[\s\S]*?Adjudicado e Homologado por CPF[^-]+-\s*(?P<responsavel>[^,]+?)\s*para\s+(?P<fornecedor>[^,]+),\s*CNPJ\s*(?P<cnpj>[\d\.\-/]+),\s*melhor\s+lance:\s*R\$\s*(?P<melhor_lance>[\d,\.]+)";

/// Individual award sentence, misspelt status word, with a renegotiated value.
pub const PADRAO_ADJUCADO_NEGOCIADO: &'static str = r"Adjucado e Homologado por CPF\s*(?P<cpf>[\d\.\-\*]+)\s*-\s*(?P<responsavel>[^,]+),?\s*para\s+(?P<fornecedor>[^,]+),\s*CNPJ\s*(?P<cnpj>[\d\.\-/]+),\s*melhor\s+lance:\s*R\$\s*(?P<melhor_lance>[\d,\.]+).*?valor\s+negociado:\s*R\$\s*(?P<valor_negociado>[\d,\.]+)";

/// Individual award sentence with a renegotiated value.
pub const PADRAO_ADJUDICADO_NEGOCIADO: &'static str = r"Adjudicado e Homologado por CPF\s*(?P<cpf>[\d\.\-\*]+)\s*-\s*(?P<responsavel>[^,]+),?\s*para\s+(?P<fornecedor>[^,]+),\s*CNPJ\s*(?P<cnpj>[\d\.\-/]+),\s*melhor\s+lance:\s*R\$\s*(?P<melhor_lance>[\d,\.]+).*?valor\s+negociado:\s*R\$\s*(?P<valor_negociado>[\d,\.]+)";

/// Individual award sentence, misspelt status word.
pub const PADRAO_ADJUCADO: &'static str = r"Adjucado e Homologado por CPF\s*(?P<cpf>[\d\.\-\*]+)\s*-\s*(?P<responsavel>[^,]+),?\s*para\s+(?P<fornecedor>[^,]+),\s*CNPJ\s*(?P<cnpj>[\d\.\-/]+),\s*melhor\s+lance:\s*R\$\s*(?P<melhor_lance>[\d,\.]+)";

/// Individual award sentence.
pub const PADRAO_ADJUDICADO: &'static str = r"Adjudicado e Homologado por CPF\s*(?P<cpf>[\d\.\-\*]+)\s*-\s*(?P<responsavel>[^,]+),?\s*para\s+(?P<fornecedor>[^,]+),\s*CNPJ\s*(?P<cnpj>[\d\.\-/]+),\s*melhor\s+lance:\s*R\$\s*(?P<melhor_lance>[\d,\.]+)";

/// A personal identifier masked as "***.123.***-*4".
pub const PADRAO_CPF_MASCARADO: &'static str = r"(\*{3}\.\d{3}\.\*{3}-\*\d)";

pub const ITEM_ANTES: &'static str = r"Item\s+(\d+)[^#]*?";

pub const DESCRICAO_ANTES: &'static str = r"Item\s+\d+[^#]*?([^#]*?)";

pub const QUANTIDADE_ANTES: &'static str = r"Quantidade:\s*(\d+)[^#]*?";

pub const UNIDADE_ANTES: &'static str = r"Unidade\s+(\d+)[^#]*?";

pub const VALOR_ESTIMADO_ANTES: &'static str = r"Valor\s+estimado:\s*R\$\s*([\d,\.]+)[^#]*?";

pub const VALOR_QUANTIDADE_ANTES: &'static str = r"R\$\s*([\d,\.]+)Quantidade:[^#]*?";

pub const MARCA_DEPOIS: &'static str = r"[\s\S]*?Proposta adjudicada[\s\S]*?Marca/Fabricante:\s*([^\n\r]+)";

pub const MODELO_DEPOIS: &'static str = r"[\s\S]*?Proposta adjudicada[\s\S]*?Modelo/versão:\s*([^\n\r]+)";

/// Group `i` of the first match, trimmed; "N/A" where there is no match.
pub open spec fn grupo_aparado_ou_na(m: Option<Grupos>, i: int) -> Seq<char> {
    match m {
        Some(g) => aparado(grupo(g, i)),
        None => "N/A"@,
    }
}

/// Group 1 of the first pattern that matches, of two; "N/A" where neither does.
pub open spec fn primeiro_de_dois(p1: Seq<char>, p2: Seq<char>, t: Seq<char>) -> Seq<char> {
    match regex_primeira(p1, t) {
        Some(g) => grupo(g, 1),
        None => grupo_ou_na(regex_primeira(p2, t), 1),
    }
}

/// `s` up to its first line break.
pub open spec fn primeira_linha(s: Seq<char>) -> Seq<char>
    decreases s.len(),
{
    if s.len() == 0 || s[0] == '\n' {
        Seq::empty()
    } else {
        seq![s[0]] + primeira_linha(s.skip(1))
    }
}

pub open spec fn mascara_cpf(responsavel: Seq<char>) -> Seq<char> {
    grupo_ou_na(regex_primeira(PADRAO_CPF_MASCARADO@, responsavel), 1)
}

pub open spec fn item_do_contexto(t: Seq<char>, cnpj: Seq<char>) -> Seq<char> {
    grupo_ou_na(regex_primeira(ITEM_ANTES@ + escapado(cnpj), t), 1)
}

pub open spec fn descricao_do_contexto(t: Seq<char>, cnpj: Seq<char>) -> Seq<char> {
    match regex_primeira(DESCRICAO_ANTES@ + escapado(cnpj), t) {
        Some(g) => aparado(primeira_linha(grupo(g, 1))),
        None => "N/A"@,
    }
}

pub open spec fn quantidade_do_contexto(t: Seq<char>, cnpj: Seq<char>) -> Seq<char> {
    primeiro_de_dois(QUANTIDADE_ANTES@ + escapado(cnpj), UNIDADE_ANTES@ + escapado(cnpj), t)
}

pub open spec fn valor_estimado_do_contexto(t: Seq<char>, cnpj: Seq<char>) -> Seq<char> {
    primeiro_de_dois(
        VALOR_ESTIMADO_ANTES@ + escapado(cnpj),
        VALOR_QUANTIDADE_ANTES@ + escapado(cnpj),
        t,
    )
}

pub open spec fn marca_do_contexto(t: Seq<char>, cnpj: Seq<char>) -> Seq<char> {
    grupo_aparado_ou_na(regex_primeira(escapado(cnpj) + MARCA_DEPOIS@, t), 1)
}

pub open spec fn modelo_do_contexto(t: Seq<char>, cnpj: Seq<char>) -> Seq<char> {
    grupo_aparado_ou_na(regex_primeira(escapado(cnpj) + MODELO_DEPOIS@, t), 1)
}

fn primeiro_grupo_aparado_ou_na(padrao: &str, texto: &str, i: usize) -> (r: String)
    ensures
        r@ == grupo_aparado_ou_na(regex_primeira(padrao@, texto@), i as int),
{
    match primeira_captura(padrao, texto) {
        Some(g) => aparar(grupo_exec(&g, i).as_str()),
        None => String::from_str("N/A"),
    }
}

fn primeiro_de_dois_exec(p1: &str, p2: &str, texto: &str) -> (r: String)
    ensures
        r@ == primeiro_de_dois(p1@, p2@, texto@),
{
    match primeira_captura(p1, texto) {
        Some(g) => grupo_exec(&g, 1),
        None => primeiro_grupo_ou_na(p2, texto, 1),
    }
}

proof fn lemma_primeira_linha(s: Seq<char>, i: int)
    requires
        0 <= i <= s.len(),
        forall|k: int| 0 <= k < i ==> s[k] != '\n',
    ensures
        primeira_linha(s) == s.take(i) + primeira_linha(s.skip(i)),
    decreases i,
{
    if i > 0 {
        lemma_primeira_linha(s.skip(1), i - 1);
        assert(s.skip(1).skip(i - 1) =~= s.skip(i));
        assert(seq![s[0]] + s.skip(1).take(i - 1) =~= s.take(i));
    } else {
        assert(s.take(0) =~= Seq::<char>::empty());
        assert(s.skip(0) =~= s);
    }
}

fn primeira_linha_exec(s: &str) -> (r: &str)
    ensures
        r@ == primeira_linha(s@),
{
    let n = s.unicode_len();
    let mut i: usize = 0;
    while i < n && s.get_char(i) != '\n'
        invariant
            i <= n == s@.len(),
            forall|k: int| 0 <= k < i ==> s@[k] != '\n',
        decreases n - i,
    {
        i = i + 1;
    }
    proof {
        lemma_primeira_linha(s@, i as int);
        assert(primeira_linha(s@.skip(i as int)) =~= Seq::<char>::empty());
        assert(s@.take(i as int) + Seq::<char>::empty() =~= s@.take(i as int));
    }
    s.substring_char(0, i)
}

/// The masked personal identifier in an official's name field, or "N/A".
fn extrair_cpf_do_responsavel(responsavel: &str) -> (r: String)
    ensures
        r@ == mascara_cpf(responsavel@),
{
    primeiro_grupo_ou_na(PADRAO_CPF_MASCARADO, responsavel, 1)
}

fn extrair_item_do_contexto(text: &str, cnpj: &str) -> (r: String)
    ensures
        r@ == item_do_contexto(text@, cnpj@),
{
    let p = concatenar(ITEM_ANTES, escapar(cnpj).as_str());
    primeiro_grupo_ou_na(p.as_str(), text, 1)
}

fn extrair_descricao_do_contexto(text: &str, cnpj: &str) -> (r: String)
    ensures
        r@ == descricao_do_contexto(text@, cnpj@),
{
    let p = concatenar(DESCRICAO_ANTES, escapar(cnpj).as_str());
    match primeira_captura(p.as_str(), text) {
        Some(g) => {
            let d = grupo_exec(&g, 1);
            aparar(primeira_linha_exec(d.as_str()))
        },
        None => String::from_str("N/A"),
    }
}

fn extrair_quantidade_do_contexto(text: &str, cnpj: &str) -> (r: String)
    ensures
        r@ == quantidade_do_contexto(text@, cnpj@),
{
    let e = escapar(cnpj);
    let p1 = concatenar(QUANTIDADE_ANTES, e.as_str());
    let p2 = concatenar(UNIDADE_ANTES, e.as_str());
    primeiro_de_dois_exec(p1.as_str(), p2.as_str(), text)
}

fn extrair_valor_estimado_do_contexto(text: &str, cnpj: &str) -> (r: String)
    ensures
        r@ == valor_estimado_do_contexto(text@, cnpj@),
{
    let e = escapar(cnpj);
    let p1 = concatenar(VALOR_ESTIMADO_ANTES, e.as_str());
    let p2 = concatenar(VALOR_QUANTIDADE_ANTES, e.as_str());
    primeiro_de_dois_exec(p1.as_str(), p2.as_str(), text)
}

fn extrair_marca_fabricante_do_contexto(text: &str, cnpj: &str) -> (r: String)
    ensures
        r@ == marca_do_contexto(text@, cnpj@),
{
    let p = concatenar(escapar(cnpj).as_str(), MARCA_DEPOIS);
    primeiro_grupo_aparado_ou_na(p.as_str(), text, 1)
}

fn extrair_modelo_versao_do_contexto(text: &str, cnpj: &str) -> (r: String)
    ensures
        r@ == modelo_do_contexto(text@, cnpj@),
{
    let p = concatenar(escapar(cnpj).as_str(), MODELO_DEPOIS);
    primeiro_grupo_aparado_ou_na(p.as_str(), text, 1)
}


/// Key of a grouped match: (item, tax identifier).
pub open spec fn chave_grupo(g: Grupos) -> (Seq<char>, Seq<char>) {
    (aparado(grupo(g, 1)), aparado(grupo(g, 9)))
}

/// Key of an individual match: the tax identifier alone.
pub open spec fn chave_individual(m: (Grupos, bool)) -> Seq<char> {
    aparado(grupo(m.0, 4))
}

pub open spec fn selecao_grupo(ms: Seq<Grupos>) -> Seq<Grupos> {
    selecao(ms, |g: Grupos| chave_grupo(g))
}

pub open spec fn selecao_individual(ms: Seq<(Grupos, bool)>) -> Seq<(Grupos, bool)> {
    selecao(ms, |m: (Grupos, bool)| chave_individual(m))
}

pub open spec fn marcar(ms: Seq<Grupos>, negociado: bool) -> Seq<(Grupos, bool)> {
    ms.map_values(|g: Grupos| (g, negociado))
}

/// The matches of the four individual award patterns, in priority order, each
/// marked with whether its pattern carries a renegotiated value.
pub open spec fn correspondencias_individuais(t: Seq<char>) -> Seq<(Grupos, bool)> {
    marcar(regex_todas(PADRAO_ADJUCADO_NEGOCIADO@, t), true) + marcar(
        regex_todas(PADRAO_ADJUDICADO_NEGOCIADO@, t),
        true,
    ) + marcar(regex_todas(PADRAO_ADJUCADO@, t), false) + marcar(
        regex_todas(PADRAO_ADJUDICADO@, t),
        false,
    )
}

/// `p` is the record read from the grouped match `g`.
pub open spec fn proposta_de_grupo(p: PropostaAdjudicada, g: Grupos) -> bool {
    &&& p.item@ == aparado(grupo(g, 1))
    &&& p.grupo is Some && p.grupo->0@ == "G"@ + grupo(g, 2)
    &&& p.descricao@ == aparado(grupo(g, 3))
    &&& p.quantidade@ == aparado(grupo(g, 4))
    &&& p.valor_estimado@ == aparado(grupo(g, 5))
    &&& p.valor_adjudicado@ == aparado(grupo(g, 10))
    &&& p.fornecedor@ == aparado(grupo(g, 8))
    &&& p.cnpj@ == aparado(grupo(g, 9))
    &&& p.melhor_lance@ == aparado(grupo(g, 10))
    &&& p.responsavel@ == aparado(grupo(g, 7))
    &&& p.cpf_responsavel@ == mascara_cpf(grupo(g, 7))
    &&& p.marca_fabricante@ == "N/A"@
    &&& p.modelo_versao@ == "N/A"@
    &&& p.tipo_formato@ == "grupo"@
}

/// `p` is the record read from the individual match `g` of text `t`, its
/// other fields recovered from the text around its tax identifier.
pub open spec fn proposta_individual(
    p: PropostaAdjudicada,
    t: Seq<char>,
    g: Grupos,
    negociado: bool,
) -> bool {
    let cnpj = aparado(grupo(g, 4));
    let lance = aparado(grupo(g, 5));
    &&& p.item@ == item_do_contexto(t, cnpj)
    &&& p.grupo is None
    &&& p.descricao@ == descricao_do_contexto(t, cnpj)
    &&& p.quantidade@ == quantidade_do_contexto(t, cnpj)
    &&& p.valor_estimado@ == valor_estimado_do_contexto(t, cnpj)
    &&& p.valor_adjudicado@ == (if negociado {
        aparado(grupo(g, 6))
    } else {
        lance
    })
    &&& p.fornecedor@ == aparado(grupo(g, 3))
    &&& p.cnpj@ == cnpj
    &&& p.melhor_lance@ == lance
    &&& p.responsavel@ == aparado(grupo(g, 2))
    &&& p.cpf_responsavel@ == aparado(grupo(g, 1))
    &&& p.marca_fabricante@ == marca_do_contexto(t, cnpj)
    &&& p.modelo_versao@ == modelo_do_contexto(t, cnpj)
    &&& p.tipo_formato@ == "individual"@
}

pub open spec fn propostas_grupo_corretas(t: Seq<char>, r: Seq<PropostaAdjudicada>) -> bool {
    let s = selecao_grupo(regex_todas(PADRAO_GRUPO@, t));
    &&& r.len() == s.len()
    &&& forall|i: int| 0 <= i < r.len() ==> proposta_de_grupo(#[trigger] r[i], s[i])
}

pub open spec fn propostas_individuais_corretas(t: Seq<char>, r: Seq<PropostaAdjudicada>) -> bool {
    let s = selecao_individual(correspondencias_individuais(t));
    &&& r.len() == s.len()
    &&& forall|i: int| 0 <= i < r.len() ==> proposta_individual(#[trigger] r[i], t, s[i].0, s[i].1)
}

/// The awards of a document: those of the grouped layout where it has any,
/// else those of the individual layout.
pub open spec fn extracao_correta(t: Seq<char>, r: Seq<PropostaAdjudicada>) -> bool {
    if regex_todas(PADRAO_GRUPO@, t).len() > 0 {
        propostas_grupo_corretas(t, r)
    } else {
        propostas_individuais_corretas(t, r)
    }
}

fn ja_visto_par(vistos: &Vec<(String, String)>, a: &String, b: &String) -> (r: bool)
    ensures
        r == exists|k: int| 0 <= k < vistos@.len() && vistos@[k].0@ == a@ && vistos@[k].1@ == b@,
{
    let mut k: usize = 0;
    while k < vistos.len()
        invariant
            k <= vistos@.len(),
            forall|j: int| 0 <= j < k ==> !(vistos@[j].0@ == a@ && vistos@[j].1@ == b@),
        decreases vistos@.len() - k,
    {
        if vistos[k].0 == *a && vistos[k].1 == *b {
            return true;
        }
        k = k + 1;
    }
    false
}

fn ja_visto(vistos: &Vec<String>, a: &String) -> (r: bool)
    ensures
        r == exists|k: int| 0 <= k < vistos@.len() && vistos@[k]@ == a@,
{
    let mut k: usize = 0;
    while k < vistos.len()
        invariant
            k <= vistos@.len(),
            forall|j: int| 0 <= j < k ==> vistos@[j]@ != a@,
        decreases vistos@.len() - k,
    {
        if vistos[k] == *a {
            return true;
        }
        k = k + 1;
    }
    false
}

fn proposta_de_grupo_exec(g: &Vec<Option<String>>, item: String, cnpj: String) -> (r: PropostaAdjudicada)
    requires
        item@ == aparado(grupo(grupos_view(g@), 1)),
        cnpj@ == aparado(grupo(grupos_view(g@), 9)),
    ensures
        proposta_de_grupo(r, grupos_view(g@)),
{
    let responsavel = grupo_exec(g, 7);
    let lance = aparar(grupo_exec(g, 10).as_str());
    PropostaAdjudicada {
        item,
        grupo: Some(concatenar("G", grupo_exec(g, 2).as_str())),
        descricao: aparar(grupo_exec(g, 3).as_str()),
        quantidade: aparar(grupo_exec(g, 4).as_str()),
        valor_estimado: aparar(grupo_exec(g, 5).as_str()),
        valor_adjudicado: lance.clone(),
        fornecedor: aparar(grupo_exec(g, 8).as_str()),
        cnpj,
        melhor_lance: lance,
        responsavel: aparar(responsavel.as_str()),
        cpf_responsavel: extrair_cpf_do_responsavel(responsavel.as_str()),
        marca_fabricante: String::from_str("N/A"),
        modelo_versao: String::from_str("N/A"),
        tipo_formato: String::from_str("grupo"),
    }
}

/// Awards of the grouped layout, the first match of each (item, tax
/// identifier) pair kept.
fn extrair_propostas_grupo(text: &str) -> (r: Vec<PropostaAdjudicada>)
    ensures
        propostas_grupo_corretas(text@, r@),
{
    let ms = todas_capturas(PADRAO_GRUPO, text);
    let ghost gs = regex_todas(PADRAO_GRUPO@, text@);
    let mut r: Vec<PropostaAdjudicada> = Vec::new();
    let mut vistos: Vec<(String, String)> = Vec::new();
    let mut i: usize = 0;
    while i < ms.len()
        invariant
            i <= ms@.len() == gs.len(),
            gs == regex_todas(PADRAO_GRUPO@, text@),
            forall|k: int| 0 <= k < ms@.len() ==> grupos_view(#[trigger] ms@[k]@) == gs[k],
            r@.len() == vistos@.len() == selecao_grupo(gs.take(i as int)).len(),
            forall|k: int|
                0 <= k < r@.len() ==> proposta_de_grupo(
                    #[trigger] r@[k],
                    selecao_grupo(gs.take(i as int))[k],
                ),
            forall|k: int|
                0 <= k < vistos@.len() ==> (#[trigger] vistos@[k].0@, vistos@[k].1@) == chave_grupo(
                    selecao_grupo(gs.take(i as int))[k],
                ),
        decreases ms@.len() - i,
    {
        let g = &ms[i];
        let item = aparar(grupo_exec(g, 1).as_str());
        let cnpj = aparar(grupo_exec(g, 9).as_str());
        let ghost antes = selecao_grupo(gs.take(i as int));
        let ghost chave = (item@, cnpj@);
        assert(gs.take(i + 1).drop_last() =~= gs.take(i as int));
        assert(gs.take(i + 1).last() == gs[i as int]);
        let visto = ja_visto_par(&vistos, &item, &cnpj);
        proof {
            let f = |g: Grupos| chave_grupo(g);
            if visto {
                let k = choose|k: int|
                    0 <= k < vistos@.len() && vistos@[k].0@ == item@ && vistos@[k].1@ == cnpj@;
                assert(antes.map_values(f)[k] == chave);
            } else {
                if antes.map_values(f).contains(chave) {
                    let k = choose|k: int|
                        0 <= k < antes.map_values(f).len() && antes.map_values(f)[k] == chave;
                    assert((vistos@[k].0@, vistos@[k].1@) == chave);
                }
            }
        }
        if !visto {
            let p = proposta_de_grupo_exec(g, item.clone(), cnpj.clone());
            r.push(p);
            vistos.push((item, cnpj));
        }
        i = i + 1;
    }
    assert(gs.take(ms@.len() as int) =~= gs);
    r
}

pub open spec fn marcadas_view(v: Seq<(Vec<Option<String>>, bool)>) -> Seq<(Grupos, bool)> {
    v.map_values(|x: (Vec<Option<String>>, bool)| (grupos_view(x.0@), x.1))
}

fn anexar_marcadas(
    saida: &mut Vec<(Vec<Option<String>>, bool)>,
    padrao: &str,
    text: &str,
    negociado: bool,
)
    ensures
        marcadas_view(final(saida)@) == marcadas_view(old(saida)@) + marcar(
            regex_todas(padrao@, text@),
            negociado,
        ),
{
    let mut ms = todas_capturas(padrao, text);
    let ghost gs = regex_todas(padrao@, text@);
    let ghost inicio = marcadas_view(saida@);
    let n = ms.len();
    let mut i: usize = 0;
    while ms.len() > 0
        invariant
            n == gs.len(),
            i + ms@.len() == n,
            forall|k: int| 0 <= k < ms@.len() ==> grupos_view(#[trigger] ms@[k]@) == gs[i + k],
            marcadas_view(saida@) == inicio + marcar(gs.take(i as int), negociado),
        decreases ms@.len(),
    {
        let ghost antes = ms@;
        let g = ms.remove(0);
        assert(grupos_view(g@) == gs[i as int]);
        assert forall|k: int| 0 <= k < ms@.len() implies grupos_view(#[trigger] ms@[k]@) == gs[i + 1
            + k] by {
            assert(ms@[k] == antes[k + 1]);
        }
        let ghost velho = saida@;
        saida.push((g, negociado));
        assert(marcadas_view(saida@) =~= marcadas_view(velho).push((gs[i as int], negociado)));
        assert(marcar(gs.take(i + 1), negociado) =~= marcar(gs.take(i as int), negociado).push(
            (gs[i as int], negociado),
        ));
        i = i + 1;
    }
    assert(gs.take(n as int) =~= gs);
}

fn proposta_individual_exec(
    text: &str,
    g: &Vec<Option<String>>,
    negociado: bool,
    cnpj: String,
) -> (r: PropostaAdjudicada)
    requires
        cnpj@ == aparado(grupo(grupos_view(g@), 4)),
    ensures
        proposta_individual(r, text@, grupos_view(g@), negociado),
{
    let lance = aparar(grupo_exec(g, 5).as_str());
    let valor_adjudicado = if negociado {
        aparar(grupo_exec(g, 6).as_str())
    } else {
        lance.clone()
    };
    PropostaAdjudicada {
        item: extrair_item_do_contexto(text, cnpj.as_str()),
        grupo: None,
        descricao: extrair_descricao_do_contexto(text, cnpj.as_str()),
        quantidade: extrair_quantidade_do_contexto(text, cnpj.as_str()),
        valor_estimado: extrair_valor_estimado_do_contexto(text, cnpj.as_str()),
        valor_adjudicado,
        fornecedor: aparar(grupo_exec(g, 3).as_str()),
        marca_fabricante: extrair_marca_fabricante_do_contexto(text, cnpj.as_str()),
        modelo_versao: extrair_modelo_versao_do_contexto(text, cnpj.as_str()),
        cnpj,
        melhor_lance: lance,
        responsavel: aparar(grupo_exec(g, 2).as_str()),
        cpf_responsavel: aparar(grupo_exec(g, 1).as_str()),
        tipo_formato: String::from_str("individual"),
    }
}

/// Awards of the individual layout: the four patterns in priority order, the
/// first match of each tax identifier kept whichever pattern found it.
fn extrair_propostas_individuais(text: &str) -> (r: Vec<PropostaAdjudicada>)
    ensures
        propostas_individuais_corretas(text@, r@),
{
    let mut ms: Vec<(Vec<Option<String>>, bool)> = Vec::new();
    anexar_marcadas(&mut ms, PADRAO_ADJUCADO_NEGOCIADO, text, true);
    anexar_marcadas(&mut ms, PADRAO_ADJUDICADO_NEGOCIADO, text, true);
    anexar_marcadas(&mut ms, PADRAO_ADJUCADO, text, false);
    anexar_marcadas(&mut ms, PADRAO_ADJUDICADO, text, false);
    let ghost gs = correspondencias_individuais(text@);
    assert(marcadas_view(ms@) =~= gs);
    let mut r: Vec<PropostaAdjudicada> = Vec::new();
    let mut vistos: Vec<String> = Vec::new();
    let mut i: usize = 0;
    while i < ms.len()
        invariant
            i <= ms@.len() == gs.len(),
            gs == correspondencias_individuais(text@),
            gs == marcadas_view(ms@),
            r@.len() == vistos@.len() == selecao_individual(gs.take(i as int)).len(),
            forall|k: int|
                0 <= k < r@.len() ==> proposta_individual(
                    #[trigger] r@[k],
                    text@,
                    selecao_individual(gs.take(i as int))[k].0,
                    selecao_individual(gs.take(i as int))[k].1,
                ),
            forall|k: int|
                0 <= k < vistos@.len() ==> (#[trigger] vistos@[k])@ == chave_individual(
                    selecao_individual(gs.take(i as int))[k],
                ),
        decreases ms@.len() - i,
    {
        let g = &ms[i].0;
        let negociado = ms[i].1;
        assert(gs[i as int] == (grupos_view(g@), negociado));
        let cnpj = aparar(grupo_exec(g, 4).as_str());
        let ghost antes = selecao_individual(gs.take(i as int));
        assert(gs.take(i + 1).drop_last() =~= gs.take(i as int));
        assert(gs.take(i + 1).last() == gs[i as int]);
        let visto = ja_visto(&vistos, &cnpj);
        proof {
            let f = |m: (Grupos, bool)| chave_individual(m);
            if visto {
                let k = choose|k: int| 0 <= k < vistos@.len() && vistos@[k]@ == cnpj@;
                assert(antes.map_values(f)[k] == cnpj@);
            } else {
                if antes.map_values(f).contains(cnpj@) {
                    let k = choose|k: int|
                        0 <= k < antes.map_values(f).len() && antes.map_values(f)[k] == cnpj@;
                    assert(vistos@[k]@ == cnpj@);
                }
            }
        }
        if !visto {
            let p = proposta_individual_exec(text, g, negociado, cnpj.clone());
            r.push(p);
            vistos.push(cnpj);
        }
        i = i + 1;
    }
    assert(gs.take(ms@.len() as int) =~= gs);
    r
}

/// The awards of a tender report's text. The grouped layout is tried first;
/// only where it matches nothing is the individual layout read. A text with
/// no award gives an empty sequence.
pub fn extrair_propostas(texto: &str) -> (r: Vec<PropostaAdjudicada>)
    ensures
        extracao_correta(texto@, r@),
{
    let grupo = extrair_propostas_grupo(texto);
    if grupo.len() > 0 {
        proof {
            lemma_selecao(regex_todas(PADRAO_GRUPO@, texto@), |g: Grupos| chave_grupo(g));
        }
        grupo
    } else {
        proof {
            lemma_selecao(regex_todas(PADRAO_GRUPO@, texto@), |g: Grupos| chave_grupo(g));
        }
        extrair_propostas_individuais(texto)
    }
}

/// A document where no award pattern matches yields no award, and no error.
pub proof fn lemma_sem_correspondencia_sem_propostas(t: Seq<char>, r: Seq<PropostaAdjudicada>)
    requires
        extracao_correta(t, r),
        regex_todas(PADRAO_GRUPO@, t).len() == 0,
        regex_todas(PADRAO_ADJUCADO_NEGOCIADO@, t).len() == 0,
        regex_todas(PADRAO_ADJUDICADO_NEGOCIADO@, t).len() == 0,
        regex_todas(PADRAO_ADJUCADO@, t).len() == 0,
        regex_todas(PADRAO_ADJUDICADO@, t).len() == 0,
    ensures
        r.len() == 0,
{
    lemma_selecao(correspondencias_individuais(t), |m: (Grupos, bool)| chave_individual(m));
}

/// In the individual layout each tax identifier that an award sentence names
/// gives exactly one record, however many sentences repeat it.
pub proof fn lemma_uma_proposta_por_cnpj(t: Seq<char>, r: Seq<PropostaAdjudicada>)
    requires
        extracao_correta(t, r),
        regex_todas(PADRAO_GRUPO@, t).len() == 0,
    ensures
        forall|i: int, j: int| 0 <= i < j < r.len() ==> r[i].cnpj@ != r[j].cnpj@,
        forall|k: int|
            0 <= k < correspondencias_individuais(t).len() ==> exists|i: int|
                0 <= i < r.len() && r[i].cnpj@ == chave_individual(
                    #[trigger] correspondencias_individuais(t)[k],
                ),
{
    let ms = correspondencias_individuais(t);
    let f = |m: (Grupos, bool)| chave_individual(m);
    let s = selecao_individual(ms);
    lemma_selecao(ms, f);
    assert forall|i: int, j: int| 0 <= i < j < r.len() implies r[i].cnpj@ != r[j].cnpj@ by {
        assert(proposta_individual(r[i], t, s[i].0, s[i].1));
        assert(proposta_individual(r[j], t, s[j].0, s[j].1));
    }
    assert forall|k: int| 0 <= k < ms.len() implies exists|i: int|
        0 <= i < r.len() && r[i].cnpj@ == chave_individual(#[trigger] ms[k]) by {
        assert(s.map_values(f).contains(f(ms[k])));
        let i = choose|i: int| 0 <= i < s.map_values(f).len() && s.map_values(f)[i] == f(ms[k]);
        assert(proposta_individual(r[i], t, s[i].0, s[i].1));
    }
}

/// In the grouped layout each (item, tax identifier) pair that a match names
/// gives exactly one record.
pub proof fn lemma_uma_proposta_por_item_cnpj(t: Seq<char>, r: Seq<PropostaAdjudicada>)
    requires
        extracao_correta(t, r),
        regex_todas(PADRAO_GRUPO@, t).len() > 0,
    ensures
        forall|i: int, j: int|
            0 <= i < j < r.len() ==> (r[i].item@, r[i].cnpj@) != (r[j].item@, r[j].cnpj@),
        forall|k: int|
            0 <= k < regex_todas(PADRAO_GRUPO@, t).len() ==> exists|i: int|
                0 <= i < r.len() && (r[i].item@, r[i].cnpj@) == chave_grupo(
                    #[trigger] regex_todas(PADRAO_GRUPO@, t)[k],
                ),
{
    let ms = regex_todas(PADRAO_GRUPO@, t);
    let f = |g: Grupos| chave_grupo(g);
    let s = selecao_grupo(ms);
    lemma_selecao(ms, f);
    assert forall|i: int, j: int| 0 <= i < j < r.len() implies (r[i].item@, r[i].cnpj@) != (
    r[j].item@, r[j].cnpj@) by {
        assert(proposta_de_grupo(r[i], s[i]));
        assert(proposta_de_grupo(r[j], s[j]));
    }
    assert forall|k: int| 0 <= k < ms.len() implies exists|i: int|
        0 <= i < r.len() && (r[i].item@, r[i].cnpj@) == chave_grupo(#[trigger] ms[k]) by {
        assert(s.map_values(f).contains(f(ms[k])));
        let i = choose|i: int| 0 <= i < s.map_values(f).len() && s.map_values(f)[i] == f(ms[k]);
        assert(proposta_de_grupo(r[i], s[i]));
    }
}

} // verus!
