//! Extraction and consolidation of procurement award records from the plain
//! text of tender reports, and their reconciliation with supplier-registry
//! certificates.

pub mod consolidacao;
pub mod lote;
pub mod markdown;
pub mod propostas;
pub mod relatorio;
pub mod selecao;
pub mod sicaf;
pub mod texto;
pub mod tipos;
pub mod valor;
