//! The explanation of a bundle.
use vstd::prelude::*;
use vstd::string::*;

use crate::abi::{agent_names, list_agents, CorvidAbi};
use crate::audit::{has_signed_receipt, is_receipt_signed};
use crate::manifest::LoadedManifest;
use crate::text::{
    decimal, decimal_text, flag, flag_text, join, joined, prefixed, push_line, push_pair,
    push_prefixed, texts,
};

verus! {

/// What a bundle is.
#[derive(Debug)]
pub struct BundleExplanation {
    pub name: String,
    pub target_triple: String,
    pub trace_count: usize,
    pub exported_agents: Vec<String>,
    pub signed_receipt: bool,
    pub citations: Vec<String>,
}

/// Explains a bundle.
pub fn explain_bundle(loaded: &LoadedManifest, abi: &CorvidAbi) -> (explanation: BundleExplanation)
    ensures
        explanation.name@ == loaded.manifest.name@,
        explanation.target_triple@ == loaded.manifest.target_triple@,
        explanation.trace_count == loaded.manifest.traces@.len(),
        texts(explanation.exported_agents@) == agent_names(abi.agents@),
        explanation.signed_receipt == has_signed_receipt(loaded.manifest),
        exists|descriptor_path: Seq<char>| #[trigger]
            loaded.resolves(loaded.manifest.descriptor_path@, descriptor_path) && texts(
                explanation.citations@,
            ) == seq![loaded.manifest_path@, descriptor_path],
{
    let mut citations: Vec<String> = Vec::new();
    push_line(&mut citations, loaded.manifest_path.clone());
    let descriptor_path: String = loaded.descriptor_path();
    let ghost descriptor_text = descriptor_path@;
    push_line(&mut citations, descriptor_path);
    proof {
        assert(loaded.resolves(loaded.manifest.descriptor_path@, descriptor_text));
        assert(texts(citations@) =~= seq![loaded.manifest_path@, descriptor_text]);
    }
    BundleExplanation {
        name: loaded.manifest.name.clone(),
        target_triple: loaded.manifest.target_triple.clone(),
        trace_count: loaded.manifest.traces.len(),
        exported_agents: list_agents(&abi.agents),
        signed_receipt: is_receipt_signed(&loaded.manifest),
        citations,
    }
}

/// The lines of an explanation.
pub open spec fn explanation_text(e: BundleExplanation) -> Seq<Seq<char>> {
    seq![
        "bundle: "@ + e.name@,
        "target: "@ + e.target_triple@,
        "traces: "@ + decimal(e.trace_count as nat),
        "exported agents: "@ + joined(texts(e.exported_agents@), ", "@),
        "signed receipt: "@ + flag(e.signed_receipt),
        "citations:"@,
    ] + prefixed("  - "@, texts(e.citations@))
}

/// Writes an explanation as lines.
pub fn explanation_lines(e: &BundleExplanation) -> (lines: Vec<String>)
    ensures
        texts(lines@) == explanation_text(*e),
{
    let mut lines: Vec<String> = Vec::new();
    push_pair(&mut lines, "bundle: ", e.name.as_str());
    push_pair(&mut lines, "target: ", e.target_triple.as_str());
    let traces: String = decimal_text(e.trace_count as u64);
    push_pair(&mut lines, "traces: ", traces.as_str());
    let agents: String = join(&e.exported_agents, ", ");
    push_pair(&mut lines, "exported agents: ", agents.as_str());
    push_pair(&mut lines, "signed receipt: ", flag_text(e.signed_receipt));
    push_line(&mut lines, String::from_str("citations:"));
    push_prefixed(&mut lines, "  - ", &e.citations);
    proof {
        assert(texts(lines@) =~= explanation_text(*e));
    }
    lines
}

} // verus!
