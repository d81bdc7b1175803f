//! What answers, explanations and reports say of a bundle.
use vstd::prelude::*;
use vstd::string::*;

use crate::abi::{list_gated, mode_text, AbiAgent, CorvidAbi};
use crate::abi_laws::ascend;
use crate::audit::{
    answer_from, answer_lines, answer_question, asked_question, is_answer, is_receipt_signed,
    return_findings, topic_of, AuditAnswer, Topic,
};
use crate::error::{BundleError, ErrorClass};
use crate::explain::{explain_bundle, explanation_lines, BundleExplanation};
use crate::manifest::{BundleManifest, LoadedManifest};
use crate::manifest_laws::leads;
use crate::report::{
    check_format, control_text, controls_text, report_bundle, report_lines, Soc2BundleReport,
};
use crate::text::{contains_word, decimal, join, joined, prefixed, texts, to_ascii_lower};

verus! {

// ---------------------------------------------------------------------------
// Questions
// ---------------------------------------------------------------------------
/// A question is about approval if, in lower case, it holds the word
/// `dangerous` or `approval`; if not, about signatures if it holds `signature`;
/// if not, about ownership if it holds `ownership`; and else about the bundle
/// as a whole.
pub proof fn law_words_decide_the_topic(
    question: &str,
    topic: Topic,
    lower: String,
    lowered: &str,
    dangerous: bool,
    approval: bool,
    signature: bool,
    ownership: bool,
)
    requires
        call_ensures(topic_of, (question,), topic),
        call_ensures(to_ascii_lower, (question,), lower),
        lowered@ == lower@,
        call_ensures(contains_word, (lowered, "dangerous"), dangerous),
        call_ensures(contains_word, (lowered, "approval"), approval),
        call_ensures(contains_word, (lowered, "signature"), signature),
        call_ensures(contains_word, (lowered, "ownership"), ownership),
    ensures
        topic == Topic::Approval <==> dangerous || approval,
        topic == Topic::Signature <==> !dangerous && !approval && signature,
        topic == Topic::Ownership <==> !dangerous && !approval && !signature && ownership,
        topic == Topic::Overview <==> !dangerous && !approval && !signature && !ownership,
{
}

/// Without a question the default one is asked; a given one is asked as it is.
pub proof fn law_given_questions_are_asked(question: Option<&str>, asked: String)
    requires
        call_ensures(asked_question, (question,), asked),
    ensures
        question matches Some(given) ==> asked@ == given@,
        question is None ==> asked@
            == "summarize the approval, ownership, and signature status"@,
{
}

/// A bundle has a signed receipt exactly if its manifest names both the
/// envelope and the key.
pub proof fn law_signed_receipts_have_envelope_and_key(m: BundleManifest, signed: bool)
    requires
        call_ensures(is_receipt_signed, (&m,), signed),
    ensures
        signed <==> m.receipt_envelope_path is Some && m.receipt_verify_key_path is Some,
{
}

// ---------------------------------------------------------------------------
// Answers
// ---------------------------------------------------------------------------
/// An answer repeats its question, and a question about approval is answered
/// with the names of the agents that are dangerous or ask for approval, or with
/// a sentence that there are none.
pub proof fn law_questions_about_approval_name_the_gated_agents(
    loaded: LoadedManifest,
    abi: CorvidAbi,
    question: &str,
    topic: Topic,
    answer: AuditAnswer,
    gated: Vec<String>,
    list: String,
)
    requires
        call_ensures(answer_question, (&loaded, &abi, question), answer),
        call_ensures(topic_of, (question,), topic),
        call_ensures(list_gated, (&abi.agents,), gated),
        call_ensures(join, (&gated, ", "), list),
    ensures
        answer.question@ == question@,
        topic == Topic::Approval && gated@.len() == 0 ==> answer.answer@
            == "no exported agents require approval or expose dangerous behavior"@,
        topic == Topic::Approval && gated@.len() > 0 ==> answer.answer@
            == "approval-gated agents: "@ + list@,
{
    assert(texts(gated@).len() == gated@.len());
}

/// A question about signatures is answered by whether the manifest names both
/// envelope and key, and one about the bundle as a whole with its name, target,
/// and numbers of traces, agents and receipts.
pub proof fn law_other_questions_are_answered_from_the_manifest(
    loaded: LoadedManifest,
    abi: CorvidAbi,
    question: &str,
    topic: Topic,
    answer: AuditAnswer,
)
    requires
        call_ensures(answer_question, (&loaded, &abi, question), answer),
        call_ensures(topic_of, (question,), topic),
    ensures
        ({
            let m = loaded.manifest;
            &&& topic == Topic::Signature ==> answer.answer@ == if m.receipt_envelope_path is Some
                && m.receipt_verify_key_path is Some {
                "bundle includes a signed receipt envelope and a verifying key for offline signature validation"@
            } else {
                "bundle has no signed receipt configured in its manifest"@
            }
            &&& topic == Topic::Overview ==> answer.answer@ == "bundle `"@ + m.name@
                + "` targets "@ + m.target_triple@ + " and ships "@ + decimal(m.traces@.len())
                + " traces, "@ + decimal(abi.agents@.len()) + " exported agents, and "@ + decimal(
                if m.receipt_envelope_path is Some {
                    1
                } else {
                    0
                },
            ) + " signed receipt(s)"@
        }),
{
}

proof fn lemma_findings(agents: Seq<AbiAgent>) -> (at: Seq<int>)
    ensures
        at.len() == return_findings(agents).len(),
        ascend(at),
        forall|k: int|
            0 <= k < at.len() ==> 0 <= #[trigger] at[k] < agents.len()
                && agents[at[k]].return_ownership is Some && return_findings(agents)[k]
                == agents[at[k]].name@ + " return "@ + mode_text(
                agents[at[k]].return_ownership->Some_0.mode,
            ),
        forall|i: int|
            0 <= i < agents.len() && (#[trigger] agents[i]).return_ownership is Some
                ==> at.contains(i),
    decreases agents.len(),
{
    if agents.len() == 0 {
        Seq::empty()
    } else {
        let before = agents.drop_last();
        let old = lemma_findings(before);
        let last = agents.len() - 1;
        if agents.last().return_ownership is Some {
            let at = old.push(last);
            assert forall|i: int|
                0 <= i < agents.len() && (#[trigger] agents[i]).return_ownership is Some implies at.contains(
                i,
            ) by {
                if i < last {
                    assert(before[i] == agents[i]);
                    assert(old.contains(i));
                    let k = choose|k: int| 0 <= k < old.len() && old[k] == i;
                    assert(at[k] == i);
                } else {
                    assert(at[old.len() as int] == i);
                }
            }
            assert forall|k: int| 0 <= k < at.len() implies 0 <= #[trigger] at[k] < agents.len()
                && agents[at[k]].return_ownership is Some && return_findings(agents)[k]
                == agents[at[k]].name@ + " return "@ + mode_text(
                agents[at[k]].return_ownership->Some_0.mode,
            ) by {
                if k < old.len() {
                    assert(at[k] == old[k]);
                    assert(before[old[k]] == agents[old[k]]);
                }
            }
            at
        } else {
            assert forall|i: int|
                0 <= i < agents.len() && (#[trigger] agents[i]).return_ownership is Some implies old.contains(
                i,
            ) by {
                assert(i < last);
                assert(before[i] == agents[i]);
            }
            assert forall|k: int| 0 <= k < old.len() implies 0 <= #[trigger] old[k] < agents.len()
                && agents[old[k]].return_ownership is Some && return_findings(agents)[k]
                == agents[old[k]].name@ + " return "@ + mode_text(
                agents[old[k]].return_ownership->Some_0.mode,
            ) by {
                assert(before[old[k]] == agents[old[k]]);
            }
            old
        }
    }
}

/// A question about ownership is answered with a finding for each agent whose
/// return is annotated, in the order of the agents and with the annotated mode;
/// without any a sentence says so.
pub proof fn law_questions_about_ownership_list_annotated_returns(
    loaded: LoadedManifest,
    abi: CorvidAbi,
    question: &str,
    topic: Topic,
    answer: AuditAnswer,
) -> (found: (Seq<Seq<char>>, Seq<int>))
    requires
        call_ensures(answer_question, (&loaded, &abi, question), answer),
        call_ensures(topic_of, (question,), topic),
        topic == Topic::Ownership,
    ensures
        found.0.len() == found.1.len(),
        ascend(found.1),
        forall|k: int|
            0 <= k < found.1.len() ==> 0 <= #[trigger] found.1[k] < abi.agents@.len() && match (
                abi.agents@[found.1[k]].return_ownership
            ) {
                Some(ownership) => found.0[k] == abi.agents@[found.1[k]].name@ + " return "@
                    + mode_text(ownership.mode),
                None => false,
            },
        forall|i: int|
            0 <= i < abi.agents@.len() && (#[trigger] abi.agents@[i]).return_ownership is Some
                ==> found.1.contains(i),
        found.0.len() == 0 ==> answer.answer@
            == "no explicit ownership annotations found in exported returns"@,
        found.0.len() > 0 ==> answer.answer@ == joined(found.0, "; "@),
{
    let at = lemma_findings(abi.agents@);
    (return_findings(abi.agents@), at)
}

/// Each answer cites the files that it rests on: one about approval the
/// descriptor and the manifest, one about signatures the manifest, one about
/// ownership the descriptor, one about the whole the manifest and the
/// descriptor.
pub proof fn law_answers_cite_their_files(
    loaded: LoadedManifest,
    abi: CorvidAbi,
    question: &str,
    topic: Topic,
    answer: AuditAnswer,
)
    requires
        call_ensures(answer_question, (&loaded, &abi, question), answer),
        call_ensures(topic_of, (question,), topic),
    ensures
        ({
            let dir = loaded.bundle_dir@;
            let descriptor = loaded.manifest.descriptor_path@;
            let cited = answer.citations@;
            match topic {
                Topic::Approval => cited.len() == 2 && leads(dir, descriptor, cited[0]@)
                    && cited[1]@ == loaded.manifest_path@,
                Topic::Signature => cited.len() == 1 && cited[0]@ == loaded.manifest_path@,
                Topic::Ownership => cited.len() == 1 && leads(dir, descriptor, cited[0]@),
                Topic::Overview => cited.len() == 2 && cited[0]@ == loaded.manifest_path@ && leads(
                    dir,
                    descriptor,
                    cited[1]@,
                ),
            }
        }),
{
    let place = choose|place: Seq<char>| #[trigger]
        loaded.resolves(loaded.manifest.descriptor_path@, place) && is_answer(
            loaded,
            abi,
            question@,
            place,
            answer,
        );
    let cited = answer.citations@;
    let all = texts(cited);
    assert(all.len() == cited.len());
    if cited.len() > 0 {
        assert(all[0] == cited[0]@);
    }
    if cited.len() > 1 {
        assert(all[1] == cited[1]@);
    }
}

/// Answering with the descriptor's place given is answering with that place.
pub proof fn law_answers_from_a_given_place(
    loaded: LoadedManifest,
    abi: CorvidAbi,
    question: &str,
    place: &str,
    topic: Topic,
    answer: AuditAnswer,
    other: AuditAnswer,
)
    requires
        call_ensures(answer_from, (&loaded, &abi, question, place), answer),
        call_ensures(answer_question, (&loaded, &abi, question), other),
        call_ensures(topic_of, (question,), topic),
    ensures
        answer.question@ == question@,
        answer.answer@ == other.answer@,
        answer.citations@.len() == other.citations@.len(),
        topic == Topic::Approval || topic == Topic::Ownership ==> answer.citations@[0]@ == place@,
        topic == Topic::Overview ==> answer.citations@[1]@ == place@,
        topic == Topic::Approval ==> answer.citations@[1]@ == loaded.manifest_path@,
        topic == Topic::Signature || topic == Topic::Overview ==> answer.citations@[0]@
            == loaded.manifest_path@,
{
    let all = texts(answer.citations@);
    assert(all.len() == answer.citations@.len());
    assert(texts(other.citations@).len() == other.citations@.len());
    assert(all[0] == answer.citations@[0]@);
    if all.len() > 1 {
        assert(all[1] == answer.citations@[1]@);
    }
}

/// An answer is written as its question, the answer, and a heading with one
/// line for each citation.
pub proof fn law_answers_are_written_line_by_line(answer: AuditAnswer, lines: Vec<String>, k: int)
    requires
        call_ensures(answer_lines, (&answer,), lines),
    ensures
        lines@.len() == 3 + answer.citations@.len(),
        lines@[0]@ == "question: "@ + answer.question@,
        lines@[1]@ == "answer: "@ + answer.answer@,
        lines@[2]@ == "citations:"@,
        0 <= k < answer.citations@.len() ==> lines@[3 + k]@ == "  - "@ + answer.citations@[k]@,
{
    let all = texts(lines@);
    assert(all.len() == lines@.len());
    assert(texts(answer.citations@).len() == answer.citations@.len());
    assert(all[0] == lines@[0]@);
    assert(all[1] == lines@[1]@);
    assert(all[2] == lines@[2]@);
    if 0 <= k < answer.citations@.len() {
        assert(all[3 + k] == lines@[3 + k]@);
        assert(all[3 + k] == prefixed("  - "@, texts(answer.citations@))[k]);
    }
}

// ---------------------------------------------------------------------------
// Explanations
// ---------------------------------------------------------------------------
/// An explanation holds the name, the target and the number of traces of the
/// manifest, the agents of the descriptor, whether there is a signed receipt,
/// and cites manifest and descriptor.
pub proof fn law_explanations_hold_what_the_bundle_says(
    loaded: LoadedManifest,
    abi: CorvidAbi,
    explanation: BundleExplanation,
    k: int,
)
    requires
        call_ensures(explain_bundle, (&loaded, &abi), explanation),
    ensures
        explanation.name@ == loaded.manifest.name@,
        explanation.target_triple@ == loaded.manifest.target_triple@,
        explanation.trace_count == loaded.manifest.traces@.len(),
        explanation.exported_agents@.len() == abi.agents@.len(),
        0 <= k < abi.agents@.len() ==> explanation.exported_agents@[k]@ == abi.agents@[k].name@,
        explanation.signed_receipt <==> loaded.manifest.receipt_envelope_path is Some
            && loaded.manifest.receipt_verify_key_path is Some,
        explanation.citations@.len() == 2,
        explanation.citations@[0]@ == loaded.manifest_path@,
        leads(
            loaded.bundle_dir@,
            loaded.manifest.descriptor_path@,
            explanation.citations@[1]@,
        ),
{
    let names = texts(explanation.exported_agents@);
    assert(names.len() == explanation.exported_agents@.len());
    if 0 <= k < abi.agents@.len() {
        assert(names[k] == explanation.exported_agents@[k]@);
    }
    let cited = texts(explanation.citations@);
    assert(cited.len() == explanation.citations@.len());
    assert(cited[0] == explanation.citations@[0]@);
    assert(cited[1] == explanation.citations@[1]@);
}

/// An explanation is written as one line for each field in its order, and one
/// for each citation.
pub proof fn law_explanations_are_written_line_by_line(
    e: BundleExplanation,
    lines: Vec<String>,
    agents: String,
    k: int,
)
    requires
        call_ensures(explanation_lines, (&e,), lines),
        call_ensures(join, (&e.exported_agents, ", "), agents),
    ensures
        lines@.len() == 6 + e.citations@.len(),
        lines@[0]@ == "bundle: "@ + e.name@,
        lines@[1]@ == "target: "@ + e.target_triple@,
        lines@[2]@ == "traces: "@ + decimal(e.trace_count as nat),
        lines@[3]@ == "exported agents: "@ + agents@,
        e.signed_receipt ==> lines@[4]@ == "signed receipt: "@ + "true"@,
        !e.signed_receipt ==> lines@[4]@ == "signed receipt: "@ + "false"@,
        lines@[5]@ == "citations:"@,
        0 <= k < e.citations@.len() ==> lines@[6 + k]@ == "  - "@ + e.citations@[k]@,
{
    let all = texts(lines@);
    assert(all.len() == lines@.len());
    assert(texts(e.citations@).len() == e.citations@.len());
    assert(all[0] == lines@[0]@);
    assert(all[1] == lines@[1]@);
    assert(all[2] == lines@[2]@);
    assert(all[3] == lines@[3]@);
    assert(all[4] == lines@[4]@);
    assert(all[5] == lines@[5]@);
    if 0 <= k < e.citations@.len() {
        assert(all[6 + k] == lines@[6 + k]@);
        assert(all[6 + k] == prefixed("  - "@, texts(e.citations@))[k]);
    }
}

// ---------------------------------------------------------------------------
// Reports
// ---------------------------------------------------------------------------
/// The only report format is `soc2`.
pub proof fn law_one_report_format_is_accepted(format: &str, result: Result<(), BundleError>)
    requires
        call_ensures(check_format, (format,), result),
    ensures
        result is Ok <==> format@ == "soc2"@,
        result matches Err(e) ==> e.class == ErrorClass::Other && e.message@
            == "unsupported bundle report format `"@ + format@ + "`; valid: soc2"@,
{
    if let Err(e) = result {
        reveal_strlit("");
        assert(e.message@ =~= "unsupported bundle report format `"@ + format@ + "`; valid: soc2"@);
    }
}

/// A report names the bundle and has three controls: the signed evidence, with
/// the places of descriptor and receipt; the gated agents by name; and the
/// rebuild, with the command and the places of the library and of the bindings
/// of each language.
pub proof fn law_reports_show_evidence_for_three_controls(
    loaded: LoadedManifest,
    abi: CorvidAbi,
    report: Soc2BundleReport,
    gated: Vec<String>,
    k: int,
)
    requires
        call_ensures(report_bundle, (&loaded, &abi), report),
        call_ensures(list_gated, (&abi.agents,), gated),
    ensures
        report.bundle@ == loaded.manifest.name@,
        report.controls@.len() == 3,
        ({
            let m = loaded.manifest;
            let dir = loaded.bundle_dir@;
            let signed = report.controls@[0];
            let gates = report.controls@[1];
            let rebuilt = report.controls@[2];
            &&& signed.control_id@ == "CC7.2"@
            &&& signed.title@ == "Change management and signed evidence"@
            &&& signed.evidence@.len() == 2
            &&& leads(dir, m.descriptor_path@, signed.evidence@[0]@)
            &&& match m.receipt_envelope_path {
                Some(receipt) => leads(dir, receipt@, signed.evidence@[1]@),
                None => signed.evidence@[1]@ == "manifest has no signed receipt"@,
            }
            &&& gates.control_id@ == "CC6.1"@
            &&& gates.title@ == "Approval-gated dangerous behavior"@
            &&& gated@.len() == 0 ==> gates.evidence@.len() == 1 && gates.evidence@[0]@
                == "no exported dangerous agents"@
            &&& gated@.len() > 0 ==> gates.evidence@.len() == gated@.len() && (0 <= k < gated@.len()
                ==> gates.evidence@[k]@ == gated@[k]@)
            &&& rebuilt.control_id@ == "A1.2"@
            &&& rebuilt.title@ == "Deterministic rebuild and binding projection"@
            &&& rebuilt.evidence@.len() == 4
            &&& rebuilt.evidence@[0]@ == "corvid bundle verify --rebuild"@
            &&& leads(dir, m.library_path@, rebuilt.evidence@[1]@)
            &&& leads(dir, m.bindings_rust_dir@, rebuilt.evidence@[2]@)
            &&& leads(dir, m.bindings_python_dir@, rebuilt.evidence@[3]@)
        }),
{
    let signed = report.controls@[0];
    let gates = report.controls@[1];
    let rebuilt = report.controls@[2];
    let s = texts(signed.evidence@);
    assert(s.len() == signed.evidence@.len());
    assert(s[0] == signed.evidence@[0]@);
    assert(s[1] == signed.evidence@[1]@);
    let g = texts(gates.evidence@);
    assert(g.len() == gates.evidence@.len());
    assert(texts(gated@).len() == gated@.len());
    assert(g[0] == gates.evidence@[0]@);
    if 0 <= k < gated@.len() {
        assert(g[k] == gates.evidence@[k]@);
        assert(texts(gated@)[k] == gated@[k]@);
    }
    let r = texts(rebuilt.evidence@);
    assert(r.len() == rebuilt.evidence@.len());
    assert(r[0] == rebuilt.evidence@[0]@);
    assert(r[1] == rebuilt.evidence@[1]@);
    assert(r[2] == rebuilt.evidence@[2]@);
    assert(r[3] == rebuilt.evidence@[3]@);
}

/// A report is written as a heading with the bundle's name, and behind it a
/// section for each control in its order. One more control adds its section at
/// the end: a heading with id and title, a line for each piece of evidence, and
/// an empty line.
pub proof fn law_reports_are_written_control_by_control(
    report: Soc2BundleReport,
    longer: Soc2BundleReport,
    lines: Vec<String>,
    more: Vec<String>,
    i: int,
)
    requires
        call_ensures(report_lines, (&report,), lines),
        call_ensures(report_lines, (&longer,), more),
        longer.bundle@ == report.bundle@,
        longer.controls@.len() == report.controls@.len() + 1,
        longer.controls@.drop_last() == report.controls@,
    ensures
        ({
            let added = longer.controls@.last();
            let n = lines@.len() as int;
            &&& lines@.len() >= 4
            &&& lines@[0]@ == "# SOC2-style control mapping"@
            &&& lines@[1]@ == ""@
            &&& lines@[2]@ == "bundle: "@ + report.bundle@
            &&& lines@[3]@ == ""@
            &&& report.controls@.len() == 0 ==> lines@.len() == 4
            &&& more@.len() == n + 2 + added.evidence@.len()
            &&& 0 <= i < n ==> more@[i]@ == lines@[i]@
            &&& more@[n]@ == "## "@ + added.control_id@ + " "@ + added.title@
            &&& 0 <= i < added.evidence@.len() ==> more@[n + 1 + i]@ == "- "@
                + added.evidence@[i]@
            &&& more@.last()@ == ""@
        }),
{
    let a = texts(lines@);
    let b = texts(more@);
    assert(a.len() == lines@.len());
    assert(b.len() == more@.len());
    let added = longer.controls@.last();
    assert(longer.controls@.last() == longer.controls@[longer.controls@.len() - 1]);
    assert(controls_text(longer.controls@) == controls_text(report.controls@) + control_text(
        added,
    ));
    assert(b =~= a + control_text(added));
    assert(texts(added.evidence@).len() == added.evidence@.len());
    assert(a[0] == lines@[0]@);
    assert(a[1] == lines@[1]@);
    assert(a[2] == lines@[2]@);
    assert(a[3] == lines@[3]@);
    let n = lines@.len() as int;
    assert(b[n] == more@[n]@);
    assert(b[n] == control_text(added)[0]);
    if 0 <= i < n {
        assert(b[i] == more@[i]@);
        assert(a[i] == lines@[i]@);
    }
    if 0 <= i < added.evidence@.len() {
        assert(b[n + 1 + i] == more@[n + 1 + i]@);
        assert(b[n + 1 + i] == control_text(added)[1 + i]);
        assert(control_text(added)[1 + i] == prefixed("- "@, texts(added.evidence@))[i]);
    }
    assert(b[b.len() - 1] == more@.last()@);
    assert(b.last() == control_text(added).last());
}

} // verus!
