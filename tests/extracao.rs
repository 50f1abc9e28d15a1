use licitacao_extrator::lote::processar_documento;
use licitacao_extrator::markdown::gerar_markdown;
use licitacao_extrator::propostas::extrair_propostas;
use licitacao_extrator::relatorio::{processar_texto_licitacao, propostas_consolidadas};
use licitacao_extrator::sicaf::normalizar_cnpj;
use licitacao_extrator::valor::converter_valor_para_centavos;

const CABECALHO: &str = "MINISTÉRIO DA SAÚDE\nUASG 160001\nPREGÃO 10/2024\nProcesso nº 456789\n\
Às 10:30 horas do dia 15 de março do ano de 2024, o pregoeiro HOMOLOGA a adjudicação do pregão, \
JOSE DA SILVA, conforme ata.\n";

const SENTENCA_INDIVIDUAL: &str = "Item 7 - CANETA ESFEROGRAFICA AZUL\nQuantidade: 10\n\
Valor estimado: R$ 100,00\nSituação: Adjudicado e Homologado\n\
Adjudicado e Homologado por CPF ***.123.456-** - MARIA SOUZA, para EMPRESA ABC LTDA, \
CNPJ 12.345.678/0001-90, melhor lance: R$ 90,00\n";

const GRUPO: &str = "Item 1 do Grupo G2 - CADEIRA GIRATORIA\nQuantidade: 5\n\
Valor estimado: R$ 1.200,00\nSituação: Adjudicado e Homologado\n\
Adjudicado e Homologado por CPF 12345678900 - JOSE PEREIRA para MOVEIS SA, \
CNPJ 12.345.678/0001-90, melhor lance: R$ 1.000,00\n";

#[test]
fn normalizador_valores_basicos() {
    assert_eq!(converter_valor_para_centavos("1.234,56"), 123456);
    assert_eq!(converter_valor_para_centavos(""), 0);
    assert_eq!(converter_valor_para_centavos("abc"), 0);
}

#[test]
fn normalizador_casos_de_borda() {
    assert_eq!(converter_valor_para_centavos("1.000,00"), 100000);
    assert_eq!(converter_valor_para_centavos("5"), 500);
    assert_eq!(converter_valor_para_centavos("0,5"), 50);
    assert_eq!(converter_valor_para_centavos(",75"), 75);
    assert_eq!(converter_valor_para_centavos("12,"), 1200);
    assert_eq!(converter_valor_para_centavos(","), 0);
    assert_eq!(converter_valor_para_centavos("1,2,3"), 0);
    assert_eq!(converter_valor_para_centavos("1,234"), 0);
    assert_eq!(converter_valor_para_centavos("99999999999999999999"), 0);
    assert_eq!(converter_valor_para_centavos("184.467.440.737.095.516,15"), 18446744073709551615);
    assert_eq!(converter_valor_para_centavos("184.467.440.737.095.516,16"), 0);
}

#[test]
fn documento_sem_propostas_da_sequencia_vazia() {
    assert!(extrair_propostas("").is_empty());
    assert!(extrair_propostas("Item 3 - cancelado\nSituação: Cancelado no julgamento").is_empty());
    let r = processar_texto_licitacao("nada aqui");
    assert_eq!(r.uasg, "N/A");
    assert_eq!(r.pregao, "N/A");
    assert_eq!(r.processo, "N/A");
    assert_eq!(r.data_homologacao, "N/A");
    assert_eq!(r.responsavel, "N/A");
    assert_eq!(r.valor_total, 0);
    assert!(r.propostas.is_empty());
}

#[test]
fn proposta_individual_repetida_gera_um_registro() {
    let texto = format!("{}{}{}", CABECALHO, SENTENCA_INDIVIDUAL, SENTENCA_INDIVIDUAL);
    let propostas = extrair_propostas(&texto);
    assert_eq!(propostas.len(), 1);
    let p = &propostas[0];
    assert_eq!(p.item, "7");
    assert_eq!(p.grupo, None);
    assert_eq!(p.descricao, "- CANETA ESFEROGRAFICA AZUL");
    assert_eq!(p.quantidade, "10");
    assert_eq!(p.valor_estimado, "100,00");
    assert_eq!(p.valor_adjudicado, "90,00");
    assert_eq!(p.melhor_lance, "90,00");
    assert_eq!(p.fornecedor, "EMPRESA ABC LTDA");
    assert_eq!(p.cnpj, "12.345.678/0001-90");
    assert_eq!(p.responsavel, "MARIA SOUZA");
    assert_eq!(p.cpf_responsavel, "***.123.456-**");
    assert_eq!(p.marca_fabricante, "N/A");
    assert_eq!(p.modelo_versao, "N/A");
    assert_eq!(p.tipo_formato, "individual");
}

#[test]
fn valor_negociado_prevalece_sobre_melhor_lance() {
    let texto = "Adjudicado e Homologado por CPF ***.999.888-** - ANA LIMA, para LOJA X, \
CNPJ 11.111.111/0001-11, melhor lance: R$ 50,00 e valor negociado: R$ 45,00\n\
Proposta adjudicada\nMarca/Fabricante: ACME \nModelo/versão: X-200\n";
    let propostas = extrair_propostas(texto);
    assert_eq!(propostas.len(), 1);
    assert_eq!(propostas[0].melhor_lance, "50,00");
    assert_eq!(propostas[0].valor_adjudicado, "45,00");
    assert_eq!(propostas[0].marca_fabricante, "ACME");
    assert_eq!(propostas[0].modelo_versao, "X-200");
    assert_eq!(propostas[0].item, "N/A");
}

#[test]
fn grafia_adjucado_tambem_e_reconhecida() {
    let texto = "Adjucado e Homologado por CPF ***.000.111-** - RUI, para FORNEC Y, \
CNPJ 22.222.222/0001-22, melhor lance: R$ 7,00\n";
    let propostas = extrair_propostas(texto);
    assert_eq!(propostas.len(), 1);
    assert_eq!(propostas[0].cnpj, "22.222.222/0001-22");
    assert_eq!(propostas[0].valor_adjudicado, "7,00");
}

#[test]
fn fim_a_fim_formato_de_grupo() {
    let texto = format!("{}{}", CABECALHO, GRUPO);
    let relatorio = processar_texto_licitacao(&texto);
    assert_eq!(relatorio.propostas.len(), 1);
    let p = &relatorio.propostas[0];
    assert_eq!(p.item, "1");
    assert_eq!(p.grupo, Some("G2".to_string()));
    assert_eq!(normalizar_cnpj(&p.cnpj), "12345678000190");
    assert_eq!(p.valor_adjudicado, "1.000,00");
    assert_eq!(p.descricao, "CADEIRA GIRATORIA");
    assert_eq!(p.quantidade, "5");
    assert_eq!(p.valor_estimado, "1.200,00");
    assert_eq!(p.fornecedor, "MOVEIS SA");
    assert_eq!(p.responsavel, "JOSE PEREIRA");
    assert_eq!(p.cpf_responsavel, "N/A");
    assert_eq!(p.tipo_formato, "grupo");
    assert_eq!(relatorio.valor_total, 100000);
    assert_eq!(relatorio.uasg, "160001");
    assert_eq!(relatorio.pregao, "10/2024");
    assert_eq!(relatorio.processo, "456789");
    assert_eq!(relatorio.data_homologacao, "Às 10:30 horas do dia 15 de março do ano de 2024");
    assert_eq!(relatorio.responsavel, "JOSE DA SILVA");
}

#[test]
fn grupo_tem_precedencia_sobre_individual() {
    let texto = format!("{}{}{}", CABECALHO, GRUPO, SENTENCA_INDIVIDUAL);
    let propostas = extrair_propostas(&texto);
    assert!(propostas.iter().all(|p| p.tipo_formato == "grupo"));
}

#[test]
fn cpf_mascarado_recuperado_do_nome() {
    let texto = "Item 3 do Grupo G1 - MESA\nQuantidade: 2\nValor estimado: R$ 300,00\n\
Situação: Adjudicado e Homologado\nAdjudicado e Homologado por CPF 1 - ***.456.***-*7 PAULO \
para MOVEIS SA, CNPJ 33.333.333/0001-33, melhor lance: R$ 250,00\n";
    let propostas = extrair_propostas(texto);
    assert_eq!(propostas.len(), 1);
    assert_eq!(propostas[0].cpf_responsavel, "***.456.***-*7");
}

#[test]
fn consolidacao_de_um_documento() {
    let texto = format!("{}{}", CABECALHO, GRUPO);
    let relatorio = processar_texto_licitacao(&texto);
    let c = propostas_consolidadas(&relatorio);
    assert_eq!(c.len(), 1);
    assert_eq!(c[0].uasg, "160001");
    assert_eq!(c[0].pregao, "10/2024");
    assert_eq!(c[0].processo, "456789");
    assert_eq!(c[0].grupo, Some("G2".to_string()));
    assert_eq!(c[0].valor_adjudicado, "1.000,00");
}

#[test]
fn markdown_com_grupo() {
    let texto = format!("{}{}", CABECALHO, GRUPO);
    let relatorio = processar_texto_licitacao(&texto);
    let md = gerar_markdown(&relatorio, "2024-03-15 10:00:00 UTC");
    assert!(md.starts_with("---\ngerado_em: 2024-03-15 10:00:00 UTC\n"));
    assert!(md.contains("- **UASG**: 160001\n"));
    assert!(md.contains("- **Valor Total**: R$ 1000.00\n\n"));
    assert!(md.contains("| Item | Grupo | Descrição |"));
    assert!(md.contains("| 1 | G2 | CADEIRA GIRATORIA | 5 | R$ 1.200,00 | R$ 1.000,00 | MOVEIS SA |"));
    assert!(md.contains("### Item 1 (G2) - CADEIRA GIRATORIA\n\n"));
    assert!(md.contains("- **Total de Itens Adjudicados**: 1\n"));
    assert!(md.ends_with("- **Valor Médio por Item**: R$ 1000.00\n"));
}

#[test]
fn markdown_sem_propostas_nao_tem_media() {
    let relatorio = processar_texto_licitacao("sem nada");
    let md = gerar_markdown(&relatorio, "agora");
    assert!(md.contains("| Item | Descrição | Quantidade |"));
    assert!(md.contains("- **Total de Itens Adjudicados**: 0\n"));
    assert!(md.ends_with("- **Valor Total das Adjudicações**: R$ 0.00\n"));
    assert!(!md.contains("Valor Médio"));
}

#[test]
fn markdown_individual_com_media_arredondada() {
    let texto = format!(
        "{}{}Adjudicado e Homologado por CPF ***.1-** - B, para OUTRA, CNPJ 44.444.444/0001-44, \
melhor lance: R$ 0,02\n",
        CABECALHO, SENTENCA_INDIVIDUAL
    );
    let relatorio = processar_texto_licitacao(&texto);
    assert_eq!(relatorio.propostas.len(), 2);
    assert_eq!(relatorio.valor_total, 9002);
    let md = gerar_markdown(&relatorio, "agora");
    assert!(md.contains("| Item | Descrição |"));
    assert!(md.contains("### Item 7 - - CANETA ESFEROGRAFICA AZUL\n\n"));
    assert!(md.contains("- **Valor Total**: R$ 90.02\n"));
    assert!(md.contains("- **Valor Médio por Item**: R$ 45.01\n"));
}

#[test]
fn documento_processado_junta_relatorio_e_propostas() {
    let texto = format!("{}{}", CABECALHO, GRUPO);
    let d = processar_documento(&texto, "t0");
    assert_eq!(d.propostas.len(), 1);
    assert!(d.markdown.contains("gerado_em: t0\n"));
    assert_eq!(d.propostas[0].cnpj, "12.345.678/0001-90");
}

#[test]
fn cnpj_escapado_nao_casa_com_caracteres_parecidos() {
    let texto = "Item 5 - OUTRO 12a345a678/0001-90 #\nItem 7 - CERTO\n\
Adjudicado e Homologado por CPF ***.1-** - B, para FORNEC, CNPJ 12.345.678/0001-90, \
melhor lance: R$ 3,00\n";
    let propostas = extrair_propostas(texto);
    assert_eq!(propostas.len(), 1);
    assert_eq!(propostas[0].item, "7");
}
