//! Supplier-registry certificates: reading their fields, and reconciling
//! award records with them by tax identifier.
use crate::texto::{
    aparado, aparar, copiar_opcao, empurrar, grupo, grupo_exec, grupos_view, opcao_view,
    primeira_captura, regex_primeira, Grupos,
};
use crate::tipos::{PropostaConsolidada, SicafData};
use crate::valor::eh_digito;
use vstd::prelude::*;

verus! {

/// The certificate's main block, from "CNPJ:" to "Dados do Responsável Legal".
pub const PADRAO_SICAF: &'static str = r"(?s)CNPJ:\s*(?P<cnpj>[\d./-]+)\s*(?:DUNS®:\s*(?P<duns>[\d]+)\s*)?Razão Social:\s*(?P<empresa>.*?)\s*Nome Fantasia:\s*(?P<nome_fantasia>.*?)\s*Situação do Fornecedor:\s*(?P<situacao_cadastro>.*?)\s*Data de Vencimento do Cadastro:\s*(?P<data_vencimento>\d{2}/\d{2}/\d{4})\s*Dados do Nível.*?Dados para Contato\s*CEP:\s*(?P<cep>[\d.-]+)\s*Endereço:\s*(?P<endereco>.*?)\s*Município\s*/\s*UF:\s*(?P<municipio>.*?)\s*/\s*(?P<uf>.*?)\s*Telefone:\s*(?P<telefone>.*?)\s*E-mail:\s*(?P<email>.*?)\s*Dados do Responsável Legal";

/// The legal representative's identifier and name, after the marker that ends
/// the main block.
pub const PADRAO_RESPONSAVEL_LEGAL: &'static str = r"(?s)Dados do Responsável Legal\s*CPF:\s*(?P<cpf>\d{3}\.\d{3}\.\d{3}-\d{2})\s*Nome:\s*(?P<nome>[^\n\r]*?)(?:\s*Dados do Responsável pelo Cadastro|\s*Emitido em:|\s*CPF:|$)";

/// The legal representative of a registry certificate.
#[derive(Clone, Debug)]
pub struct ResponsavelData {
    pub cpf: String,
    pub nome: String,
}

/// Group `i`, trimmed, where it took part in the match and is not blank.
pub open spec fn campo_opcional(g: Grupos, i: int) -> Option<Seq<char>> {
    if 0 <= i < g.len() && g[i] is Some && aparado(g[i]->0).len() > 0 {
        Some(aparado(g[i]->0))
    } else {
        None
    }
}

/// Group `i`, trimmed, where it took part in the match.
pub open spec fn campo_presente(g: Grupos, i: int) -> Option<Seq<char>> {
    if 0 <= i < g.len() && g[i] is Some {
        Some(aparado(g[i]->0))
    } else {
        None
    }
}

/// `d` is the record read from the certificate's main block `g`; the
/// representative is not yet filled in.
pub open spec fn sicaf_de(d: SicafData, g: Grupos) -> bool {
    &&& d.cnpj@ == aparado(grupo(g, 1))
    &&& opcao_view(d.duns) == campo_presente(g, 2)
    &&& d.empresa@ == aparado(grupo(g, 3))
    &&& opcao_view(d.nome_fantasia) == campo_opcional(g, 4)
    &&& opcao_view(d.situacao_cadastro) == campo_opcional(g, 5)
    &&& opcao_view(d.data_vencimento) == campo_opcional(g, 6)
    &&& opcao_view(d.cep) == campo_opcional(g, 7)
    &&& opcao_view(d.endereco) == campo_opcional(g, 8)
    &&& opcao_view(d.municipio) == campo_opcional(g, 9)
    &&& opcao_view(d.uf) == campo_opcional(g, 10)
    &&& opcao_view(d.telefone) == campo_opcional(g, 11)
    &&& opcao_view(d.email) == campo_opcional(g, 12)
}

fn campo_opcional_exec(g: &Vec<Option<String>>, i: usize) -> (r: Option<String>)
    ensures
        opcao_view(r) == campo_opcional(grupos_view(g@), i as int),
{
    if i < g.len() {
        match &g[i] {
            Some(s) => {
                let a = aparar(s.as_str());
                if a.as_str().unicode_len() > 0 {
                    Some(a)
                } else {
                    None
                }
            },
            None => None,
        }
    } else {
        None
    }
}

fn campo_presente_exec(g: &Vec<Option<String>>, i: usize) -> (r: Option<String>)
    ensures
        opcao_view(r) == campo_presente(grupos_view(g@), i as int),
{
    if i < g.len() {
        match &g[i] {
            Some(s) => Some(aparar(s.as_str())),
            None => None,
        }
    } else {
        None
    }
}

/// The main block of a registry certificate, or `None` where the text is not
/// one.
pub fn extrair_dados_sicaf(texto: &str) -> (r: Option<SicafData>)
    ensures
        match regex_primeira(PADRAO_SICAF@, texto@) {
            Some(g) => r is Some && sicaf_de(r->0, g) && r->0.cpf_responsavel is None
                && r->0.nome_responsavel is None,
            None => r is None,
        },
{
    match primeira_captura(PADRAO_SICAF, texto) {
        Some(g) => Some(
            SicafData {
                cnpj: aparar(grupo_exec(&g, 1).as_str()),
                duns: campo_presente_exec(&g, 2),
                empresa: aparar(grupo_exec(&g, 3).as_str()),
                nome_fantasia: campo_opcional_exec(&g, 4),
                situacao_cadastro: campo_opcional_exec(&g, 5),
                data_vencimento: campo_opcional_exec(&g, 6),
                cep: campo_opcional_exec(&g, 7),
                endereco: campo_opcional_exec(&g, 8),
                municipio: campo_opcional_exec(&g, 9),
                uf: campo_opcional_exec(&g, 10),
                telefone: campo_opcional_exec(&g, 11),
                email: campo_opcional_exec(&g, 12),
                cpf_responsavel: None,
                nome_responsavel: None,
            },
        ),
        None => None,
    }
}

/// The legal representative named after "Dados do Responsável Legal".
pub fn extrair_dados_responsavel(texto: &str) -> (r: Option<ResponsavelData>)
    ensures
        match regex_primeira(PADRAO_RESPONSAVEL_LEGAL@, texto@) {
            Some(g) => r is Some && r->0.cpf@ == aparado(grupo(g, 1)) && r->0.nome@ == aparado(
                grupo(g, 2),
            ),
            None => r is None,
        },
{
    match primeira_captura(PADRAO_RESPONSAVEL_LEGAL, texto) {
        Some(g) => Some(
            ResponsavelData {
                cpf: aparar(grupo_exec(&g, 1).as_str()),
                nome: aparar(grupo_exec(&g, 2).as_str()),
            },
        ),
        None => None,
    }
}

/// The record of one registry certificate's text: its main block, with the
/// legal representative where the text names one; `None` where the text is
/// not a certificate.
pub fn processar_texto_sicaf(texto: &str) -> (r: Option<SicafData>)
    ensures
        match regex_primeira(PADRAO_SICAF@, texto@) {
            Some(g) => r is Some && sicaf_de(r->0, g) && match regex_primeira(
                PADRAO_RESPONSAVEL_LEGAL@,
                texto@,
            ) {
                Some(h) => opcao_view(r->0.cpf_responsavel) == Some(aparado(grupo(h, 1)))
                    && opcao_view(r->0.nome_responsavel) == Some(aparado(grupo(h, 2))),
                None => r->0.cpf_responsavel is None && r->0.nome_responsavel is None,
            },
            None => r is None,
        },
{
    let mut dados = match extrair_dados_sicaf(texto) {
        Some(d) => d,
        None => {
            return None;
        },
    };
    match extrair_dados_responsavel(texto) {
        Some(resp) => {
            dados.cpf_responsavel = Some(resp.cpf);
            dados.nome_responsavel = Some(resp.nome);
        },
        None => {},
    }
    Some(dados)
}

/// The digits of `s`, in order: a tax identifier with its formatting removed.
pub open spec fn so_digitos(s: Seq<char>) -> Seq<char>
    decreases s.len(),
{
    if s.len() == 0 {
        Seq::empty()
    } else if eh_digito(s.last()) {
        so_digitos(s.drop_last()).push(s.last())
    } else {
        so_digitos(s.drop_last())
    }
}

/// Strips every character that is not a digit.
pub fn normalizar_cnpj(cnpj: &str) -> (r: String)
    ensures
        r@ == so_digitos(cnpj@),
{
    let n = cnpj.unicode_len();
    let mut r = String::new();
    let mut i: usize = 0;
    while i < n
        invariant
            n == cnpj@.len(),
            i <= n,
            r@ == so_digitos(cnpj@.take(i as int)),
        decreases n - i,
    {
        let c = cnpj.get_char(i);
        assert(cnpj@.take(i + 1).drop_last() =~= cnpj@.take(i as int));
        if '0' <= c && c <= '9' {
            empurrar(&mut r, c);
        }
        i = i + 1;
    }
    assert(cnpj@.take(n as int) =~= cnpj@);
    r
}

/// Record `d` is registered under tax identifier `cnpj`.
pub open spec fn corresponde(d: SicafData, cnpj: Seq<char>) -> bool {
    so_digitos(d.cnpj@) == so_digitos(cnpj)
}

pub open spec fn existe_cnpj(cnpj: Seq<char>, ds: Seq<SicafData>) -> bool {
    exists|i: int| 0 <= i < ds.len() && corresponde(#[trigger] ds[i], cnpj)
}

/// Whether some registry record has the tax identifier `cnpj`, both compared
/// by their digits alone.
pub fn verificar_cnpj_sicaf(cnpj: &str, sicaf_data: &[SicafData]) -> (r: bool)
    ensures
        r == existe_cnpj(cnpj@, sicaf_data@),
{
    obter_dados_cnpj(cnpj, sicaf_data).is_some()
}

/// The first registry record, in list order, with the tax identifier `cnpj`.
pub fn obter_dados_cnpj<'a>(cnpj: &str, sicaf_data: &'a [SicafData]) -> (r: Option<&'a SicafData>)
    ensures
        r is Some <==> existe_cnpj(cnpj@, sicaf_data@),
        r is Some ==> exists|i: int|
            0 <= i < sicaf_data@.len() && *r->0 == sicaf_data@[i] && corresponde(
                sicaf_data@[i],
                cnpj@,
            ) && forall|j: int| 0 <= j < i ==> !corresponde(#[trigger] sicaf_data@[j], cnpj@),
{
    let alvo = normalizar_cnpj(cnpj);
    let mut i: usize = 0;
    while i < sicaf_data.len()
        invariant
            i <= sicaf_data@.len(),
            alvo@ == so_digitos(cnpj@),
            forall|j: int| 0 <= j < i ==> !corresponde(#[trigger] sicaf_data@[j], cnpj@),
        decreases sicaf_data@.len() - i,
    {
        let d = normalizar_cnpj(sicaf_data[i].cnpj.as_str());
        if d == alvo {
            return Some(&sicaf_data[i]);
        }
        i = i + 1;
    }
    None
}

pub const STATUS_ENCONTRADO: &'static str = "SICAF Encontrado";

pub const STATUS_NAO_ENCONTRADO: &'static str = "SICAF Não Encontrado";

/// The part of an award that a comparison entry carries.
#[derive(Clone, Debug)]
pub struct ResumoProposta {
    pub item: String,
    pub valor_adjudicado: String,
    pub uasg: String,
    pub pregao: String,
}

/// One award checked against the registry.
#[derive(Clone, Debug)]
pub struct EntradaComparacao {
    pub cnpj: String,
    pub fornecedor: String,
    pub status_sicaf: String,
    pub dados_sicaf: Option<SicafData>,
    pub proposta: ResumoProposta,
}

/// Every award of a tender checked against the registry, in award order.
#[derive(Clone, Debug)]
pub struct RelatorioComparacao {
    pub data_geracao: String,
    pub total_propostas: usize,
    pub sicaf_encontrados: usize,
    pub sicaf_nao_encontrados: usize,
    pub relatorio: Vec<EntradaComparacao>,
}

pub open spec fn mesmo_sicaf(a: SicafData, b: SicafData) -> bool {
    &&& a.cnpj@ == b.cnpj@
    &&& opcao_view(a.duns) == opcao_view(b.duns)
    &&& a.empresa@ == b.empresa@
    &&& opcao_view(a.nome_fantasia) == opcao_view(b.nome_fantasia)
    &&& opcao_view(a.situacao_cadastro) == opcao_view(b.situacao_cadastro)
    &&& opcao_view(a.data_vencimento) == opcao_view(b.data_vencimento)
    &&& opcao_view(a.cep) == opcao_view(b.cep)
    &&& opcao_view(a.endereco) == opcao_view(b.endereco)
    &&& opcao_view(a.municipio) == opcao_view(b.municipio)
    &&& opcao_view(a.uf) == opcao_view(b.uf)
    &&& opcao_view(a.telefone) == opcao_view(b.telefone)
    &&& opcao_view(a.email) == opcao_view(b.email)
    &&& opcao_view(a.cpf_responsavel) == opcao_view(b.cpf_responsavel)
    &&& opcao_view(a.nome_responsavel) == opcao_view(b.nome_responsavel)
}

fn copiar_sicaf(d: &SicafData) -> (r: SicafData)
    ensures
        mesmo_sicaf(r, *d),
{
    SicafData {
        cnpj: d.cnpj.clone(),
        duns: copiar_opcao(&d.duns),
        empresa: d.empresa.clone(),
        nome_fantasia: copiar_opcao(&d.nome_fantasia),
        situacao_cadastro: copiar_opcao(&d.situacao_cadastro),
        data_vencimento: copiar_opcao(&d.data_vencimento),
        cep: copiar_opcao(&d.cep),
        endereco: copiar_opcao(&d.endereco),
        municipio: copiar_opcao(&d.municipio),
        uf: copiar_opcao(&d.uf),
        telefone: copiar_opcao(&d.telefone),
        email: copiar_opcao(&d.email),
        cpf_responsavel: copiar_opcao(&d.cpf_responsavel),
        nome_responsavel: copiar_opcao(&d.nome_responsavel),
    }
}

/// `e` is the comparison entry of award `p` against registry `ds`: found, with
/// the first matching record, or not found, with none.
pub open spec fn entrada_de(e: EntradaComparacao, p: PropostaConsolidada, ds: Seq<SicafData>) -> bool {
    &&& e.cnpj@ == p.cnpj@
    &&& e.fornecedor@ == p.fornecedor@
    &&& e.proposta.item@ == p.item@
    &&& e.proposta.valor_adjudicado@ == p.valor_adjudicado@
    &&& e.proposta.uasg@ == p.uasg@
    &&& e.proposta.pregao@ == p.pregao@
    &&& if existe_cnpj(p.cnpj@, ds) {
        &&& e.status_sicaf@ == STATUS_ENCONTRADO@
        &&& e.dados_sicaf is Some
        &&& exists|i: int|
            0 <= i < ds.len() && corresponde(ds[i], p.cnpj@) && mesmo_sicaf(
                e.dados_sicaf->0,
                ds[i],
            ) && forall|j: int| 0 <= j < i ==> !corresponde(#[trigger] ds[j], p.cnpj@)
    } else {
        &&& e.status_sicaf@ == STATUS_NAO_ENCONTRADO@
        &&& e.dados_sicaf is None
    }
}

/// How many awards of `ps` have their tax identifier in the registry.
pub open spec fn encontrados(ps: Seq<PropostaConsolidada>, ds: Seq<SicafData>) -> nat
    decreases ps.len(),
{
    if ps.len() == 0 {
        0
    } else {
        encontrados(ps.drop_last(), ds) + if existe_cnpj(ps.last().cnpj@, ds) {
            1nat
        } else {
            0nat
        }
    }
}

/// Checks each award against the registry, in award order, and counts the
/// awards found and not found.
pub fn gerar_relatorio_comparacao(
    propostas: &[PropostaConsolidada],
    sicaf_data: &[SicafData],
    data_geracao: String,
) -> (r: RelatorioComparacao)
    ensures
        r.data_geracao@ == data_geracao@,
        r.total_propostas == propostas@.len(),
        r.relatorio@.len() == propostas@.len(),
        forall|i: int|
            0 <= i < r.relatorio@.len() ==> entrada_de(
                #[trigger] r.relatorio@[i],
                propostas@[i],
                sicaf_data@,
            ),
        r.sicaf_encontrados == encontrados(propostas@, sicaf_data@),
        r.sicaf_nao_encontrados == propostas@.len() - encontrados(propostas@, sicaf_data@),
{
    let mut relatorio: Vec<EntradaComparacao> = Vec::new();
    let mut achados: usize = 0;
    let mut i: usize = 0;
    while i < propostas.len()
        invariant
            i <= propostas@.len(),
            relatorio@.len() == i,
            forall|k: int|
                0 <= k < i ==> entrada_de(#[trigger] relatorio@[k], propostas@[k], sicaf_data@),
            achados == encontrados(propostas@.take(i as int), sicaf_data@),
            achados <= i,
        decreases propostas@.len() - i,
    {
        let p = &propostas[i];
        assert(propostas@.take(i + 1).drop_last() =~= propostas@.take(i as int));
        let encontrado = obter_dados_cnpj(p.cnpj.as_str(), sicaf_data);
        let (status, dados) = match encontrado {
            Some(d) => {
                achados = achados + 1;
                (String::from_str(STATUS_ENCONTRADO), Some(copiar_sicaf(d)))
            },
            None => (String::from_str(STATUS_NAO_ENCONTRADO), None),
        };
        relatorio.push(
            EntradaComparacao {
                cnpj: p.cnpj.clone(),
                fornecedor: p.fornecedor.clone(),
                status_sicaf: status,
                dados_sicaf: dados,
                proposta: ResumoProposta {
                    item: p.item.clone(),
                    valor_adjudicado: p.valor_adjudicado.clone(),
                    uasg: p.uasg.clone(),
                    pregao: p.pregao.clone(),
                },
            },
        );
        i = i + 1;
    }
    assert(propostas@.take(i as int) =~= propostas@);
    RelatorioComparacao {
        data_geracao,
        total_propostas: propostas.len(),
        sicaf_encontrados: achados,
        sicaf_nao_encontrados: propostas.len() - achados,
        relatorio,
    }
}

/// Normalization invariance: two spellings of one tax identifier (the same
/// digits, formatted differently) are found or not found alike.
pub proof fn lemma_formatacao_irrelevante(a: Seq<char>, b: Seq<char>, ds: Seq<SicafData>)
    requires
        so_digitos(a) == so_digitos(b),
    ensures
        existe_cnpj(a, ds) == existe_cnpj(b, ds),
{
    if existe_cnpj(a, ds) {
        let i = choose|i: int| 0 <= i < ds.len() && corresponde(ds[i], a);
        assert(corresponde(ds[i], b));
    }
    if existe_cnpj(b, ds) {
        let i = choose|i: int| 0 <= i < ds.len() && corresponde(ds[i], b);
        assert(corresponde(ds[i], a));
    }
}

} // verus!
