//! A batch over a directory of documents: the decisions of the run, kept apart
//! from the reading and writing that the application performs. Each document
//! is reported twice, before and after it is processed, with a processed count
//! that never decreases; a document that fails is recorded and skipped.
use crate::markdown::{gerar_markdown, markdown_de};
use crate::relatorio::{processar_texto_licitacao, propostas_consolidadas, relatorio_de, consolidada_de};
use crate::tipos::PropostaConsolidada;
use vstd::prelude::*;

verus! {

/// What the progress callback is given: processed count, total count and the
/// document being processed, if any.
#[derive(Clone, Debug)]
pub struct Progresso {
    pub processados: usize,
    pub total: usize,
    pub atual: Option<String>,
}

/// The state of one batch run. The total is fixed when the run starts.
pub struct ExecucaoLote {
    pub total: usize,
    pub processados: usize,
    pub em_andamento: bool,
    pub propostas: Vec<PropostaConsolidada>,
    pub falhas: Vec<String>,
}

/// Everything a document yields: its rendered report and its awards with the
/// tender they belong to.
pub struct DocumentoProcessado {
    pub markdown: String,
    pub propostas: Vec<PropostaConsolidada>,
}

impl ExecucaoLote {
    pub open spec fn bem_formada(&self) -> bool {
        self.processados <= self.total
    }

    /// A run over `total` documents, none processed yet.
    pub fn nova(total: usize) -> (r: ExecucaoLote)
        ensures
            r.bem_formada(),
            r.total == total,
            r.processados == 0,
            !r.em_andamento,
            r.propostas@.len() == 0,
            r.falhas@.len() == 0,
    {
        ExecucaoLote {
            total,
            processados: 0,
            em_andamento: false,
            propostas: Vec::new(),
            falhas: Vec::new(),
        }
    }

    /// Whether documents remain to be processed.
    pub fn ha_pendentes(&self) -> (r: bool)
        ensures
            r == (self.processados < self.total),
    {
        self.processados < self.total
    }

    /// Marks `documento` as the one being processed and returns the report
    /// to give before it starts.
    pub fn iniciar_documento(&mut self, documento: String) -> (p: Progresso)
        requires
            old(self).bem_formada(),
            old(self).processados < old(self).total,
            !old(self).em_andamento,
        ensures
            final(self).bem_formada(),
            final(self).em_andamento,
            final(self).total == old(self).total,
            final(self).processados == old(self).processados,
            final(self).propostas@ == old(self).propostas@,
            final(self).falhas@ == old(self).falhas@,
            p.processados == old(self).processados,
            p.total == old(self).total,
            p.atual is Some && p.atual->0@ == documento@,
    {
        self.em_andamento = true;
        Progresso { processados: self.processados, total: self.total, atual: Some(documento) }
    }

    /// Records the outcome of the document being processed: its awards are
    /// added, or its failure is recorded and the run goes on. Returns the
    /// report to give after it, with no current document.
    pub fn concluir_documento(&mut self, resultado: Result<Vec<PropostaConsolidada>, String>) -> (p: Progresso)
        requires
            old(self).bem_formada(),
            old(self).em_andamento,
            old(self).processados < old(self).total,
        ensures
            final(self).bem_formada(),
            !final(self).em_andamento,
            final(self).total == old(self).total,
            final(self).processados == old(self).processados + 1,
            match resultado {
                Ok(ps) => final(self).propostas@ == old(self).propostas@ + ps@
                    && final(self).falhas@ == old(self).falhas@,
                Err(e) => final(self).propostas@ == old(self).propostas@
                    && final(self).falhas@ == old(self).falhas@.push(e),
            },
            p.processados == final(self).processados,
            p.total == final(self).total,
            p.atual is None,
    {
        match resultado {
            Ok(ps) => {
                let mut ps = ps;
                self.propostas.append(&mut ps);
            },
            Err(e) => {
                self.falhas.push(e);
            },
        }
        self.processados = self.processados + 1;
        self.em_andamento = false;
        Progresso { processados: self.processados, total: self.total, atual: None }
    }
}

/// One tender document's text processed: its report rendered with the given
/// generation time, and its awards tagged with the tender they belong to.
pub fn processar_documento(texto: &str, data_geracao: &str) -> (r: DocumentoProcessado)
    ensures
        exists|rel|
            relatorio_de(texto@, rel) && r.markdown@ == markdown_de(rel, data_geracao@)
                && r.propostas@.len() == rel.propostas@.len() && forall|i: int|
                0 <= i < r.propostas@.len() ==> consolidada_de(
                    #[trigger] r.propostas@[i],
                    rel.uasg@,
                    rel.pregao@,
                    rel.processo@,
                    rel.propostas@[i],
                ),
{
    let relatorio = processar_texto_licitacao(texto);
    let markdown = gerar_markdown(&relatorio, data_geracao);
    let propostas = propostas_consolidadas(&relatorio);
    DocumentoProcessado { markdown, propostas }
}

} // verus!
