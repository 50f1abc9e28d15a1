use licitacao_extrator::consolidacao::{
    agrupar_licitacoes, consolidar, nome_arquivo_licitacao, nomes_arquivos,
};
use licitacao_extrator::lote::ExecucaoLote;
use licitacao_extrator::tipos::PropostaConsolidada;

fn proposta(uasg: &str, pregao: &str, processo: &str, item: &str, valor: &str) -> PropostaConsolidada {
    PropostaConsolidada {
        uasg: uasg.to_string(),
        pregao: pregao.to_string(),
        processo: processo.to_string(),
        item: item.to_string(),
        grupo: None,
        quantidade: "1".to_string(),
        descricao: "D".to_string(),
        valor_estimado: "0,00".to_string(),
        valor_adjudicado: valor.to_string(),
        fornecedor: "F".to_string(),
        cnpj: format!("00.000.000/0001-0{}", item),
        marca_fabricante: "N/A".to_string(),
        modelo_versao: "N/A".to_string(),
        responsavel: "R".to_string(),
        melhor_lance: valor.to_string(),
        tipo_formato: "individual".to_string(),
    }
}

fn documento_a() -> Vec<PropostaConsolidada> {
    vec![
        proposta("160001", "10/2024", "123", "1", "1.000,00"),
        proposta("160001", "10/2024", "123", "2", "250,50"),
        proposta("160001", "10/2024", "123", "3", "0,25"),
    ]
}

fn documento_b() -> Vec<PropostaConsolidada> {
    vec![
        proposta("160001", "10/2024", "123", "4", "99,00"),
        proposta("160001", "10/2024", "123", "5", "abc"),
    ]
}

#[test]
fn dois_documentos_mesma_licitacao_em_qualquer_ordem() {
    let mut ab = documento_a();
    ab.extend(documento_b());
    let mut ba = documento_b();
    ba.extend(documento_a());
    let g1 = agrupar_licitacoes(ab);
    let g2 = agrupar_licitacoes(ba);
    assert_eq!(g1.len(), 1);
    assert_eq!(g2.len(), 1);
    assert_eq!(g1[0].total_propostas, 5);
    assert_eq!(g2[0].total_propostas, 5);
    assert_eq!(g1[0].valor_total, 100000 + 25050 + 25 + 9900);
    assert_eq!(g1[0].valor_total, g2[0].valor_total);
    let itens: Vec<&str> = g1[0].propostas.iter().map(|p| p.item.as_str()).collect();
    assert_eq!(itens, vec!["1", "2", "3", "4", "5"]);
    let itens: Vec<&str> = g2[0].propostas.iter().map(|p| p.item.as_str()).collect();
    assert_eq!(itens, vec!["4", "5", "1", "2", "3"]);
}

#[test]
fn licitacoes_distintas_na_ordem_de_aparicao() {
    let ps = vec![
        proposta("2", "1/2024", "9", "1", "10,00"),
        proposta("1", "1/2024", "9", "2", "20,00"),
        proposta("2", "1/2024", "9", "3", "30,00"),
        proposta("2", "1/2024", "8", "4", "40,00"),
    ];
    let c = consolidar(ps, "2024-01-01 00:00:00 UTC".to_string());
    assert_eq!(c.total_licitacoes, 3);
    assert_eq!(c.total_propostas, 4);
    assert_eq!(c.valor_total_geral, 10000);
    assert_eq!(c.data_geracao, "2024-01-01 00:00:00 UTC");
    assert_eq!(c.licitacoes[0].uasg, "2");
    assert_eq!(c.licitacoes[0].processo, "9");
    assert_eq!(c.licitacoes[0].total_propostas, 2);
    assert_eq!(c.licitacoes[0].valor_total, 4000);
    assert_eq!(c.licitacoes[1].uasg, "1");
    assert_eq!(c.licitacoes[2].processo, "8");
    assert_eq!(c.licitacoes[2].valor_total, 4000);
}

#[test]
fn consolidacao_vazia() {
    let c = consolidar(Vec::new(), "t".to_string());
    assert_eq!(c.total_licitacoes, 0);
    assert_eq!(c.total_propostas, 0);
    assert_eq!(c.valor_total_geral, 0);
    assert!(c.licitacoes.is_empty());
}

#[test]
fn nome_do_arquivo_da_licitacao() {
    let g = agrupar_licitacoes(vec![proposta("160001", "10/2024", "N/A x", "1", "1,00")]);
    assert_eq!(nome_arquivo_licitacao(&g[0]), "licitacao_160001-10_2024-N_A_x.json");
    assert_eq!(nomes_arquivos(&g), vec!["licitacao_160001-10_2024-N_A_x.json".to_string()]);
}

#[test]
fn lote_relata_antes_e_depois_de_cada_documento() {
    let mut lote = ExecucaoLote::nova(2);
    assert!(lote.ha_pendentes());
    let p = lote.iniciar_documento("a.pdf".to_string());
    assert_eq!((p.processados, p.total), (0, 2));
    assert_eq!(p.atual, Some("a.pdf".to_string()));
    let p = lote.concluir_documento(Ok(documento_a()));
    assert_eq!((p.processados, p.total, p.atual), (1, 2, None));
    let p = lote.iniciar_documento("b.pdf".to_string());
    assert_eq!(p.processados, 1);
    let p = lote.concluir_documento(Err("arquivo corrompido".to_string()));
    assert_eq!((p.processados, p.total, p.atual), (2, 2, None));
    assert!(!lote.ha_pendentes());
    assert_eq!(lote.propostas.len(), 3);
    assert_eq!(lote.falhas, vec!["arquivo corrompido".to_string()]);
}
