//! The records that extraction produces and the application layer exchanges.
use vstd::prelude::*;

verus! {

/// Where a batch reads its documents and writes its results.
#[derive(Clone, Debug)]
pub struct ProcessingArgs {
    pub input_dir: String,
    pub output_dir: String,
    pub file: Option<String>,
    pub verbose: bool,
    pub json_output: String,
}

/// One award as read from a tender report. Amounts stay as printed
/// ("1.234,56"); `tipo_formato` is "individual" or "grupo", after the layout
/// that it was read from.
#[derive(Clone, Debug)]
pub struct PropostaAdjudicada {
    pub item: String,
    pub grupo: Option<String>,
    pub descricao: String,
    pub quantidade: String,
    pub valor_estimado: String,
    pub valor_adjudicado: String,
    pub fornecedor: String,
    pub cnpj: String,
    pub melhor_lance: String,
    pub responsavel: String,
    pub cpf_responsavel: String,
    pub marca_fabricante: String,
    pub modelo_versao: String,
    pub tipo_formato: String,
}

/// An award together with the tender (agency, tender, process) it belongs to.
#[derive(Clone, Debug)]
pub struct PropostaConsolidada {
    pub uasg: String,
    pub pregao: String,
    pub processo: String,
    pub item: String,
    pub grupo: Option<String>,
    pub quantidade: String,
    pub descricao: String,
    pub valor_estimado: String,
    pub valor_adjudicado: String,
    pub fornecedor: String,
    pub cnpj: String,
    pub marca_fabricante: String,
    pub modelo_versao: String,
    pub responsavel: String,
    pub melhor_lance: String,
    pub tipo_formato: String,
}

/// One bid of a bidding round.
#[derive(Clone, Debug)]
pub struct LanceItem {
    pub data_hora: String,
    pub participante: String,
    pub valor: String,
}

/// Outcome of processing one document or a directory.
#[derive(Clone, Debug)]
pub struct ProcessingResult {
    pub success: bool,
    pub message: String,
    pub propostas: Vec<PropostaConsolidada>,
    pub total_processed: usize,
    pub json_file_path: Option<String>,
    pub session_id: Option<String>,
}

/// A failure reported to the application: a kind tag and a message.
#[derive(Clone, Debug)]
pub struct TauriError {
    pub error_type: String,
    pub message: String,
    pub details: Option<String>,
}

/// One entry of the processing history.
#[derive(Clone, Debug)]
pub struct ProcessingLog {
    pub timestamp: String,
    pub message: String,
    pub log_type: String,
    pub session_id: Option<String>,
}

/// Settings kept between sessions.
#[derive(Clone, Debug)]
pub struct AppConfig {
    pub last_input_directory: Option<String>,
    pub last_output_directory: Option<String>,
    pub verbose: bool,
    pub processing_logs: Vec<ProcessingLog>,
    pub max_logs: usize,
    pub created_at: String,
    pub updated_at: String,
}

/// Outcome of a change to the settings.
#[derive(Clone, Debug)]
pub struct ConfigResult {
    pub success: bool,
    pub message: String,
    pub config: Option<AppConfig>,
}

/// A supplier's registry certificate. Fields absent from the certificate are
/// `None`, never empty strings.
#[derive(Clone, Debug)]
pub struct SicafData {
    pub cnpj: String,
    pub duns: Option<String>,
    pub empresa: String,
    pub nome_fantasia: Option<String>,
    pub situacao_cadastro: Option<String>,
    pub data_vencimento: Option<String>,
    pub cep: Option<String>,
    pub endereco: Option<String>,
    pub municipio: Option<String>,
    pub uf: Option<String>,
    pub telefone: Option<String>,
    pub email: Option<String>,
    pub cpf_responsavel: Option<String>,
    pub nome_responsavel: Option<String>,
}

/// Outcome of reading a directory of registry certificates.
#[derive(Clone, Debug)]
pub struct ProcessingSicafResult {
    pub success: bool,
    pub message: String,
    pub processed_count: usize,
    pub sicaf_data: Vec<SicafData>,
    pub session_id: Option<String>,
}

} // verus!
