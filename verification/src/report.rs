//! The control report of a bundle.
use vstd::prelude::*;
use vstd::string::*;

use crate::abi::{gated_names, list_gated, CorvidAbi};
use crate::error::{BundleError, ErrorClass};
use crate::manifest::LoadedManifest;
use crate::text::{
    prefixed, push_line, push_pair, push_prefixed, same_text, texts,
};

verus! {

/// A report: what a bundle shows for each control.
#[derive(Debug)]
pub struct Soc2BundleReport {
    pub bundle: String,
    pub controls: Vec<Soc2Control>,
}

/// A control and the evidence for it.
#[derive(Debug)]
pub struct Soc2Control {
    pub control_id: String,
    pub title: String,
    pub evidence: Vec<String>,
}

/// Accepts the report format that there is.
pub fn check_format(format: &str) -> (result: Result<(), BundleError>)
    ensures
        match result {
            Ok(_) => format@ == "soc2"@,
            Err(e) => format@ != "soc2"@ && e.says(
                ErrorClass::Other,
                "unsupported bundle report format `"@ + format@ + "`; valid: soc2"@,
            ),
        },
{
    if same_text(format, "soc2") {
        return Ok(());
    }
    let mut detail: String = String::from_str("unsupported bundle report format `");
    detail.append(format);
    detail.append("`; valid: soc2");
    Err(BundleError::new(ErrorClass::Other, detail.as_str()))
}

/// The control has this id, title and evidence.
pub open spec fn is_control(
    control: Soc2Control,
    control_id: Seq<char>,
    title: Seq<char>,
    evidence: Seq<Seq<char>>,
) -> bool {
    &&& control.control_id@ == control_id
    &&& control.title@ == title
    &&& texts(control.evidence@) == evidence
}

/// The control shows the descriptor and the signed receipt.
pub open spec fn shows_signed_evidence(loaded: LoadedManifest, control: Soc2Control) -> bool {
    exists|descriptor: Seq<char>, receipt: Seq<char>| #[trigger]
        loaded.resolves(loaded.manifest.descriptor_path@, descriptor) && #[trigger] is_receipt_text(
            loaded,
            receipt,
        ) && is_control(
            control,
            "CC7.2"@,
            "Change management and signed evidence"@,
            seq![descriptor, receipt],
        )
}

/// What is shown of the receipt: its place, or that there is none.
pub open spec fn is_receipt_text(loaded: LoadedManifest, receipt: Seq<char>) -> bool {
    match loaded.manifest.receipt_envelope_path {
        Some(path) => loaded.resolves(path@, receipt),
        None => receipt == "manifest has no signed receipt"@,
    }
}

/// The control shows the agents that are gated.
pub open spec fn shows_gated_agents(abi: CorvidAbi, control: Soc2Control) -> bool {
    is_control(
        control,
        "CC6.1"@,
        "Approval-gated dangerous behavior"@,
        if gated_names(abi.agents@).len() == 0 {
            seq!["no exported dangerous agents"@]
        } else {
            gated_names(abi.agents@)
        },
    )
}

/// The places of the artifacts that a rebuild compares.
pub open spec fn are_rebuilt_places(
    loaded: LoadedManifest,
    library: Seq<char>,
    rust: Seq<char>,
    python: Seq<char>,
) -> bool {
    &&& loaded.resolves(loaded.manifest.library_path@, library)
    &&& loaded.resolves(loaded.manifest.bindings_rust_dir@, rust)
    &&& loaded.resolves(loaded.manifest.bindings_python_dir@, python)
}

/// The control shows how the bundle is rebuilt and what that compares.
pub open spec fn shows_rebuild(loaded: LoadedManifest, control: Soc2Control) -> bool {
    exists|library: Seq<char>, rust: Seq<char>, python: Seq<char>| #[trigger]
        are_rebuilt_places(loaded, library, rust, python) && is_control(
            control,
            "A1.2"@,
            "Deterministic rebuild and binding projection"@,
            seq!["corvid bundle verify --rebuild"@, library, rust, python],
        )
}

fn signed_evidence(loaded: &LoadedManifest) -> (control: Soc2Control)
    ensures
        shows_signed_evidence(*loaded, control),
{
    let descriptor: String = loaded.descriptor_path();
    let receipt: String = match loaded.receipt_envelope_path() {
        Some(path) => path,
        None => String::from_str("manifest has no signed receipt"),
    };
    let ghost descriptor_text = descriptor@;
    let ghost receipt_text = receipt@;
    let mut evidence: Vec<String> = Vec::new();
    push_line(&mut evidence, descriptor);
    push_line(&mut evidence, receipt);
    proof {
        assert(texts(evidence@) =~= seq![descriptor_text, receipt_text]);
        assert(loaded.resolves(loaded.manifest.descriptor_path@, descriptor_text));
        assert(is_receipt_text(*loaded, receipt_text));
    }
    Soc2Control {
        control_id: String::from_str("CC7.2"),
        title: String::from_str("Change management and signed evidence"),
        evidence,
    }
}

fn gated_agents(abi: &CorvidAbi) -> (control: Soc2Control)
    ensures
        shows_gated_agents(*abi, control),
{
    let mut evidence: Vec<String> = list_gated(&abi.agents);
    proof {
        assert(texts(evidence@).len() == evidence@.len());
    }
    if evidence.len() == 0 {
        push_line(&mut evidence, String::from_str("no exported dangerous agents"));
        proof {
            assert(texts(evidence@) =~= seq!["no exported dangerous agents"@]);
        }
    }
    Soc2Control {
        control_id: String::from_str("CC6.1"),
        title: String::from_str("Approval-gated dangerous behavior"),
        evidence,
    }
}

fn rebuild_evidence(loaded: &LoadedManifest) -> (control: Soc2Control)
    ensures
        shows_rebuild(*loaded, control),
{
    let library: String = loaded.library_path();
    let rust: String = loaded.bindings_rust_dir();
    let python: String = loaded.bindings_python_dir();
    let ghost places = seq![
        "corvid bundle verify --rebuild"@,
        library@,
        rust@,
        python@,
    ];
    proof {
        assert(are_rebuilt_places(*loaded, library@, rust@, python@));
    }
    let mut evidence: Vec<String> = Vec::new();
    push_line(&mut evidence, String::from_str("corvid bundle verify --rebuild"));
    push_line(&mut evidence, library);
    push_line(&mut evidence, rust);
    push_line(&mut evidence, python);
    proof {
        assert(texts(evidence@) =~= places);
    }
    Soc2Control {
        control_id: String::from_str("A1.2"),
        title: String::from_str("Deterministic rebuild and binding projection"),
        evidence,
    }
}

/// Makes the report of a bundle.
pub fn report_bundle(loaded: &LoadedManifest, abi: &CorvidAbi) -> (report: Soc2BundleReport)
    ensures
        report.bundle@ == loaded.manifest.name@,
        report.controls@.len() == 3,
        shows_signed_evidence(*loaded, report.controls@[0]),
        shows_gated_agents(*abi, report.controls@[1]),
        shows_rebuild(*loaded, report.controls@[2]),
{
    let mut controls: Vec<Soc2Control> = Vec::new();
    controls.push(signed_evidence(loaded));
    controls.push(gated_agents(abi));
    controls.push(rebuild_evidence(loaded));
    Soc2BundleReport { bundle: loaded.manifest.name.clone(), controls }
}

/// The lines of a control, with an empty one behind them.
pub open spec fn control_text(control: Soc2Control) -> Seq<Seq<char>> {
    seq!["## "@ + control.control_id@ + " "@ + control.title@] + prefixed(
        "- "@,
        texts(control.evidence@),
    ) + seq![""@]
}

/// The lines of the controls.
pub open spec fn controls_text(controls: Seq<Soc2Control>) -> Seq<Seq<char>>
    decreases controls.len(),
{
    if controls.len() == 0 {
        Seq::empty()
    } else {
        controls_text(controls.drop_last()) + control_text(controls.last())
    }
}

/// The lines of a report.
pub open spec fn report_text(report: Soc2BundleReport) -> Seq<Seq<char>> {
    seq!["# SOC2-style control mapping"@, ""@, "bundle: "@ + report.bundle@, ""@] + controls_text(
        report.controls@,
    )
}

fn push_control(lines: &mut Vec<String>, control: &Soc2Control)
    ensures
        texts(final(lines)@) == texts(old(lines)@) + control_text(*control),
{
    let ghost start = texts(lines@);
    let mut title: String = String::from_str("## ");
    title.append(control.control_id.as_str());
    title.append(" ");
    title.append(control.title.as_str());
    push_line(lines, title);
    push_prefixed(lines, "- ", &control.evidence);
    push_line(lines, String::from_str(""));
    proof {
        assert(texts(lines@) =~= start + control_text(*control));
    }
}

/// Writes a report as lines.
pub fn report_lines(report: &Soc2BundleReport) -> (lines: Vec<String>)
    ensures
        texts(lines@) == report_text(*report),
{
    let mut lines: Vec<String> = Vec::new();
    push_line(&mut lines, String::from_str("# SOC2-style control mapping"));
    push_line(&mut lines, String::from_str(""));
    push_pair(&mut lines, "bundle: ", report.bundle.as_str());
    push_line(&mut lines, String::from_str(""));
    let ghost head = texts(lines@);
    let mut i: usize = 0;
    proof {
        assert(head =~= seq![
            "# SOC2-style control mapping"@,
            ""@,
            "bundle: "@ + report.bundle@,
            ""@,
        ]);
        assert(head + controls_text(report.controls@.take(0)) =~= head);
    }
    while i < report.controls.len()
        invariant
            i <= report.controls@.len(),
            texts(lines@) == head + controls_text(report.controls@.take(i as int)),
        decreases report.controls@.len() - i,
    {
        push_control(&mut lines, &report.controls[i]);
        proof {
            let done = report.controls@.take(i + 1);
            assert(done.drop_last() =~= report.controls@.take(i as int));
            assert(head + controls_text(done) =~= head + controls_text(
                report.controls@.take(i as int),
            ) + control_text(report.controls@[i as int]));
        }
        i = i + 1;
    }
    proof {
        assert(report.controls@.take(i as int) =~= report.controls@);
    }
    lines
}

} // verus!
