use licitacao_extrator::sicaf::{
    extrair_dados_responsavel, extrair_dados_sicaf, gerar_relatorio_comparacao,
    normalizar_cnpj, obter_dados_cnpj, processar_texto_sicaf, verificar_cnpj_sicaf,
    STATUS_ENCONTRADO, STATUS_NAO_ENCONTRADO,
};
use licitacao_extrator::tipos::{PropostaConsolidada, SicafData};

fn registro(cnpj: &str, empresa: &str) -> SicafData {
    SicafData {
        cnpj: cnpj.to_string(),
        duns: None,
        empresa: empresa.to_string(),
        nome_fantasia: None,
        situacao_cadastro: None,
        data_vencimento: None,
        cep: None,
        endereco: None,
        municipio: None,
        uf: None,
        telefone: None,
        email: None,
        cpf_responsavel: None,
        nome_responsavel: None,
    }
}

fn proposta(item: &str, cnpj: &str, fornecedor: &str) -> PropostaConsolidada {
    PropostaConsolidada {
        uasg: "160001".to_string(),
        pregao: "10/2024".to_string(),
        processo: "123".to_string(),
        item: item.to_string(),
        grupo: None,
        quantidade: "1".to_string(),
        descricao: "ITEM".to_string(),
        valor_estimado: "10,00".to_string(),
        valor_adjudicado: "9,00".to_string(),
        fornecedor: fornecedor.to_string(),
        cnpj: cnpj.to_string(),
        marca_fabricante: "N/A".to_string(),
        modelo_versao: "N/A".to_string(),
        responsavel: "FULANO".to_string(),
        melhor_lance: "9,00".to_string(),
        tipo_formato: "individual".to_string(),
    }
}

const CERTIFICADO: &str = r#"
            CNPJ: 12.345.678/0001-90
            DUNS®: 123456789
            Razão Social: EMPRESA TESTE LTDA
            Nome Fantasia: TESTE LTDA
            Situação do Fornecedor: HABILITADO
            Data de Vencimento do Cadastro: 31/12/2024
            Dados do Nível 1 - Credenciamento
            Dados para Contato
            CEP: 01234-567
            Endereço: RUA TESTE, 123 - CENTRO
            Município / UF: SÃO PAULO / SP
            Telefone: (11) 1234-5678
            E-mail: teste@empresa.com.br
            Dados do Responsável Legal
        "#;

#[test]
fn test_extrair_dados_sicaf() {
    let resultado = extrair_dados_sicaf(CERTIFICADO);
    assert!(resultado.is_some());

    let dados = resultado.unwrap();
    assert_eq!(dados.cnpj, "12.345.678/0001-90");
    assert_eq!(dados.empresa, "EMPRESA TESTE LTDA");
    assert_eq!(dados.nome_fantasia, Some("TESTE LTDA".to_string()));
    assert_eq!(dados.situacao_cadastro, Some("HABILITADO".to_string()));
    assert_eq!(dados.data_vencimento, Some("31/12/2024".to_string()));
    assert_eq!(dados.cep, Some("01234-567".to_string()));
    assert_eq!(dados.endereco, Some("RUA TESTE, 123 - CENTRO".to_string()));
    assert_eq!(dados.municipio, Some("SÃO PAULO".to_string()));
    assert_eq!(dados.uf, Some("SP".to_string()));
    assert_eq!(dados.telefone, Some("(11) 1234-5678".to_string()));
    assert_eq!(dados.email, Some("teste@empresa.com.br".to_string()));
}

#[test]
fn test_extrair_dados_responsavel() {
    let texto_exemplo = r#"
            Dados do Responsável Legal
            CPF: 123.456.789-00
            Nome: JOÃO DA SILVA
            Dados do Responsável pelo Cadastro
        "#;

    let resultado = extrair_dados_responsavel(texto_exemplo);
    assert!(resultado.is_some());

    let dados = resultado.unwrap();
    assert_eq!(dados.cpf, "123.456.789-00");
    assert_eq!(dados.nome, "JOÃO DA SILVA");
}

#[test]
fn test_verificar_cnpj_sicaf() {
    let sicaf_data = vec![registro("12.345.678/0001-90", "TESTE LTDA")];

    assert!(verificar_cnpj_sicaf("12.345.678/0001-90", &sicaf_data));
    assert!(verificar_cnpj_sicaf("12345678000190", &sicaf_data));
    assert!(!verificar_cnpj_sicaf("98.765.432/0001-10", &sicaf_data));
}

#[test]
fn certificado_sem_ancora_nao_e_registro() {
    assert!(extrair_dados_sicaf("um texto qualquer sem os marcadores").is_none());
    assert!(processar_texto_sicaf("um texto qualquer sem os marcadores").is_none());
    assert!(extrair_dados_responsavel("nenhum responsável aqui").is_none());
}

#[test]
fn certificado_com_responsavel_completo() {
    let texto = format!(
        "{}\n CPF: 123.456.789-00\n Nome: JOÃO DA SILVA\n Emitido em: 01/01/2024",
        CERTIFICADO
    );
    let dados = processar_texto_sicaf(&texto).unwrap();
    assert_eq!(dados.duns, Some("123456789".to_string()));
    assert_eq!(dados.cpf_responsavel, Some("123.456.789-00".to_string()));
    assert_eq!(dados.nome_responsavel, Some("JOÃO DA SILVA".to_string()));
}

#[test]
fn certificado_sem_responsavel_deixa_campos_vazios() {
    let dados = processar_texto_sicaf(CERTIFICADO).unwrap();
    assert_eq!(dados.cpf_responsavel, None);
    assert_eq!(dados.nome_responsavel, None);
}

#[test]
fn normalizacao_remove_tudo_que_nao_e_digito() {
    assert_eq!(normalizar_cnpj("12.345.678/0001-90"), "12345678000190");
    assert_eq!(normalizar_cnpj(" 12 345 678 0001 90 "), "12345678000190");
    assert_eq!(normalizar_cnpj(""), "");
}

#[test]
fn formatacao_nao_altera_existencia() {
    let r = vec![registro("12345678000190", "A"), registro("11.111.111/0001-11", "B")];
    assert_eq!(
        verificar_cnpj_sicaf("12.345.678/0001-90", &r),
        verificar_cnpj_sicaf("12345678000190", &r)
    );
    assert!(verificar_cnpj_sicaf("11111111000111", &r));
    assert!(!verificar_cnpj_sicaf("", &r));
    assert!(!verificar_cnpj_sicaf("12345678000190", &[]));
}

#[test]
fn consulta_devolve_o_primeiro_registro() {
    let r = vec![
        registro("22.222.222/0001-22", "OUTRA"),
        registro("12.345.678/0001-90", "PRIMEIRA"),
        registro("12345678000190", "SEGUNDA"),
    ];
    let d = obter_dados_cnpj("12345678000190", &r).unwrap();
    assert_eq!(d.empresa, "PRIMEIRA");
    assert!(obter_dados_cnpj("99999999000199", &r).is_none());
}

#[test]
fn relatorio_de_comparacao_conta_e_preserva_ordem() {
    let registros = vec![
        registro("12.345.678/0001-90", "ALFA LTDA"),
        registro("98.765.432/0001-10", "BETA LTDA"),
    ];
    let propostas = vec![
        proposta("1", "98765432000110", "BETA"),
        proposta("2", "55.555.555/0001-55", "GAMA"),
        proposta("3", "12.345.678/0001-90", "ALFA"),
    ];
    let r = gerar_relatorio_comparacao(&propostas, &registros, "2024-01-01 00:00:00 UTC".to_string());
    assert_eq!(r.total_propostas, 3);
    assert_eq!(r.sicaf_encontrados, 2);
    assert_eq!(r.sicaf_nao_encontrados, 1);
    assert_eq!(r.relatorio.len(), 3);
    assert_eq!(r.relatorio[0].proposta.item, "1");
    assert_eq!(r.relatorio[1].proposta.item, "2");
    assert_eq!(r.relatorio[2].proposta.item, "3");
    assert_eq!(r.relatorio[0].status_sicaf, STATUS_ENCONTRADO);
    assert_eq!(r.relatorio[1].status_sicaf, STATUS_NAO_ENCONTRADO);
    assert_eq!(r.relatorio[2].status_sicaf, STATUS_ENCONTRADO);
    assert_eq!(r.relatorio[0].dados_sicaf.as_ref().unwrap().empresa, "BETA LTDA");
    assert!(r.relatorio[1].dados_sicaf.is_none());
    assert_eq!(r.relatorio[2].fornecedor, "ALFA");
    assert_eq!(r.relatorio[2].proposta.valor_adjudicado, "9,00");
}
