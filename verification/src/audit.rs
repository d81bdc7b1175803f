//! Answers to questions about a bundle.
use vstd::prelude::*;
use vstd::string::*;

use crate::abi::{gated_names, list_gated, mode_text, render_mode, AbiAgent, CorvidAbi};
use crate::manifest::{BundleManifest, LoadedManifest};
use crate::text::{
    ascii_lower, contains_word, decimal, decimal_text, join, joined, occurs, prefixed, push_line,
    push_pair, push_prefixed, texts, to_ascii_lower,
};

verus! {

/// The question that is asked when none is given.
pub const DEFAULT_QUESTION: &'static str =
    "summarize the approval, ownership, and signature status";

/// An answer and the files that it rests on.
#[derive(Debug)]
pub struct AuditAnswer {
    pub question: String,
    pub answer: String,
    pub citations: Vec<String>,
}

/// What a question is about.
#[derive(Clone, Copy, Debug, PartialEq, Eq, Structural)]
pub enum Topic {
    Approval,
    Signature,
    Ownership,
    Overview,
}

/// The question has the word for danger or for approval in it, in any case.
pub open spec fn names_approval(question: Seq<char>) -> bool {
    occurs(ascii_lower(question), "dangerous"@) || occurs(ascii_lower(question), "approval"@)
}

/// The topic of a question, by the words in it. Case does not matter.
pub open spec fn question_topic(question: Seq<char>) -> Topic {
    let lower = ascii_lower(question);
    if names_approval(question) {
        Topic::Approval
    } else if occurs(lower, "signature"@) {
        Topic::Signature
    } else if occurs(lower, "ownership"@) {
        Topic::Ownership
    } else {
        Topic::Overview
    }
}

/// The manifest names a receipt and the key to it.
pub open spec fn has_signed_receipt(m: BundleManifest) -> bool {
    m.receipt_envelope_path is Some && m.receipt_verify_key_path is Some
}

/// The ownership annotations of what the agents return, in the order of the
/// agents.
pub open spec fn return_findings(agents: Seq<AbiAgent>) -> Seq<Seq<char>>
    decreases agents.len(),
{
    if agents.len() == 0 {
        Seq::empty()
    } else {
        let before = return_findings(agents.drop_last());
        match agents.last().return_ownership {
            Some(ownership) => before.push(
                agents.last().name@ + " return "@ + mode_text(ownership.mode),
            ),
            None => before,
        }
    }
}

/// The answer on a topic.
pub open spec fn topic_answer(m: BundleManifest, abi: CorvidAbi, topic: Topic) -> Seq<char> {
    match topic {
        Topic::Approval => if gated_names(abi.agents@).len() == 0 {
            "no exported agents require approval or expose dangerous behavior"@
        } else {
            "approval-gated agents: "@ + joined(gated_names(abi.agents@), ", "@)
        },
        Topic::Signature => if has_signed_receipt(m) {
            "bundle includes a signed receipt envelope and a verifying key for offline signature validation"@
        } else {
            "bundle has no signed receipt configured in its manifest"@
        },
        Topic::Ownership => if return_findings(abi.agents@).len() == 0 {
            "no explicit ownership annotations found in exported returns"@
        } else {
            joined(return_findings(abi.agents@), "; "@)
        },
        Topic::Overview => "bundle `"@ + m.name@ + "` targets "@ + m.target_triple@ + " and ships "@
            + decimal(m.traces@.len()) + " traces, "@ + decimal(abi.agents@.len())
            + " exported agents, and "@ + decimal(
            if m.receipt_envelope_path is Some {
                1
            } else {
                0
            },
        ) + " signed receipt(s)"@,
    }
}

/// The files that the answer on a topic rests on.
pub open spec fn topic_citations(
    topic: Topic,
    manifest_path: Seq<char>,
    descriptor_path: Seq<char>,
) -> Seq<Seq<char>> {
    match topic {
        Topic::Approval => seq![descriptor_path, manifest_path],
        Topic::Signature => seq![manifest_path],
        Topic::Ownership => seq![descriptor_path],
        Topic::Overview => seq![manifest_path, descriptor_path],
    }
}

/// Tells what a question is about.
pub fn topic_of(question: &str) -> (topic: Topic)
    ensures
        topic == question_topic(question@),
{
    let lower: String = to_ascii_lower(question);
    if contains_word(lower.as_str(), "dangerous") || contains_word(lower.as_str(), "approval") {
        Topic::Approval
    } else if contains_word(lower.as_str(), "signature") {
        Topic::Signature
    } else if contains_word(lower.as_str(), "ownership") {
        Topic::Ownership
    } else {
        Topic::Overview
    }
}

/// Tells whether the manifest names a receipt and the key to it.
pub fn is_receipt_signed(m: &BundleManifest) -> (signed: bool)
    ensures
        signed == has_signed_receipt(*m),
{
    m.receipt_envelope_path.is_some() && m.receipt_verify_key_path.is_some()
}

/// Lists the ownership annotations of what the agents return.
fn list_findings(agents: &Vec<AbiAgent>) -> (findings: Vec<String>)
    ensures
        texts(findings@) == return_findings(agents@),
{
    let mut findings: Vec<String> = Vec::new();
    let mut i: usize = 0;
    proof {
        assert(texts(findings@) =~= return_findings(agents@.take(0)));
    }
    while i < agents.len()
        invariant
            i <= agents@.len(),
            texts(findings@) == return_findings(agents@.take(i as int)),
        decreases agents@.len() - i,
    {
        proof {
            assert(agents@.take(i + 1).drop_last() =~= agents@.take(i as int));
        }
        if let Some(ownership) = &agents[i].return_ownership {
            let mut finding: String = agents[i].name.clone();
            finding.append(" return ");
            finding.append(render_mode(ownership.mode));
            push_line(&mut findings, finding);
        }
        i = i + 1;
    }
    proof {
        assert(agents@.take(i as int) =~= agents@);
    }
    findings
}

fn approval_answer(abi: &CorvidAbi) -> (answer: String)
    ensures
        forall|m: BundleManifest| answer@ == #[trigger] topic_answer(m, *abi, Topic::Approval),
{
    let gated: Vec<String> = list_gated(&abi.agents);
    proof {
        assert(texts(gated@).len() == gated@.len());
    }
    if gated.len() == 0 {
        return String::from_str("no exported agents require approval or expose dangerous behavior");
    }
    let mut answer: String = String::from_str("approval-gated agents: ");
    let names: String = join(&gated, ", ");
    answer.append(names.as_str());
    answer
}

fn ownership_answer(abi: &CorvidAbi) -> (answer: String)
    ensures
        forall|m: BundleManifest| answer@ == #[trigger] topic_answer(m, *abi, Topic::Ownership),
{
    let findings: Vec<String> = list_findings(&abi.agents);
    proof {
        assert(texts(findings@).len() == findings@.len());
    }
    if findings.len() == 0 {
        return String::from_str("no explicit ownership annotations found in exported returns");
    }
    join(&findings, "; ")
}

fn overview_answer(m: &BundleManifest, abi: &CorvidAbi) -> (answer: String)
    ensures
        answer@ == topic_answer(*m, *abi, Topic::Overview),
{
    let mut answer: String = String::from_str("bundle `");
    answer.append(m.name.as_str());
    answer.append("` targets ");
    answer.append(m.target_triple.as_str());
    answer.append(" and ships ");
    let traces: String = decimal_text(m.traces.len() as u64);
    answer.append(traces.as_str());
    answer.append(" traces, ");
    let agents: String = decimal_text(abi.agents.len() as u64);
    answer.append(agents.as_str());
    answer.append(" exported agents, and ");
    let receipts: String = decimal_text(
        if m.receipt_envelope_path.is_some() {
            1
        } else {
            0
        },
    );
    answer.append(receipts.as_str());
    answer.append(" signed receipt(s)");
    answer
}

/// The answer to a question about a bundle whose descriptor is at the path.
pub open spec fn is_answer(
    loaded: LoadedManifest,
    abi: CorvidAbi,
    question: Seq<char>,
    descriptor_path: Seq<char>,
    answer: AuditAnswer,
) -> bool {
    &&& answer.question@ == question
    &&& answer.answer@ == topic_answer(loaded.manifest, abi, question_topic(question))
    &&& texts(answer.citations@) == topic_citations(
        question_topic(question),
        loaded.manifest_path@,
        descriptor_path,
    )
}

/// Answers a question about a bundle whose descriptor is at the path.
pub fn answer_from(
    loaded: &LoadedManifest,
    abi: &CorvidAbi,
    question: &str,
    descriptor_path: &str,
) -> (answer: AuditAnswer)
    ensures
        is_answer(*loaded, *abi, question@, descriptor_path@, answer),
{
    let m: &BundleManifest = &loaded.manifest;
    let topic: Topic = topic_of(question);
    let mut citations: Vec<String> = Vec::new();
    let answer: String = match topic {
        Topic::Approval => {
            push_line(&mut citations, String::from_str(descriptor_path));
            push_line(&mut citations, loaded.manifest_path.clone());
            approval_answer(abi)
        },
        Topic::Signature => {
            push_line(&mut citations, loaded.manifest_path.clone());
            if is_receipt_signed(m) {
                String::from_str(
                    "bundle includes a signed receipt envelope and a verifying key for offline signature validation",
                )
            } else {
                String::from_str("bundle has no signed receipt configured in its manifest")
            }
        },
        Topic::Ownership => {
            push_line(&mut citations, String::from_str(descriptor_path));
            ownership_answer(abi)
        },
        Topic::Overview => {
            push_line(&mut citations, loaded.manifest_path.clone());
            push_line(&mut citations, String::from_str(descriptor_path));
            overview_answer(m, abi)
        },
    };
    proof {
        assert(texts(citations@) =~= topic_citations(
            topic,
            loaded.manifest_path@,
            descriptor_path@,
        ));
    }
    AuditAnswer { question: String::from_str(question), answer, citations }
}

/// Answers a question about a bundle.
pub fn answer_question(loaded: &LoadedManifest, abi: &CorvidAbi, question: &str) -> (answer:
    AuditAnswer)
    ensures
        exists|descriptor_path: Seq<char>| #[trigger]
            loaded.resolves(loaded.manifest.descriptor_path@, descriptor_path) && is_answer(
                *loaded,
                *abi,
                question@,
                descriptor_path,
                answer,
            ),
{
    let descriptor_path: String = loaded.descriptor_path();
    answer_from(loaded, abi, question, descriptor_path.as_str())
}

/// The question that is answered: the given one, or the default.
pub fn asked_question(question: Option<&str>) -> (asked: String)
    ensures
        asked@ == (match question {
            Some(given) => given@,
            None => DEFAULT_QUESTION@,
        }),
{
    match question {
        Some(given) => String::from_str(given),
        None => String::from_str(DEFAULT_QUESTION),
    }
}

/// The lines of an answer.
pub open spec fn answer_text(answer: AuditAnswer) -> Seq<Seq<char>> {
    seq!["question: "@ + answer.question@, "answer: "@ + answer.answer@, "citations:"@] + prefixed(
        "  - "@,
        texts(answer.citations@),
    )
}

/// Writes an answer as lines.
pub fn answer_lines(answer: &AuditAnswer) -> (lines: Vec<String>)
    ensures
        texts(lines@) == answer_text(*answer),
{
    let mut lines: Vec<String> = Vec::new();
    push_pair(&mut lines, "question: ", answer.question.as_str());
    push_pair(&mut lines, "answer: ", answer.answer.as_str());
    push_line(&mut lines, String::from_str("citations:"));
    push_prefixed(&mut lines, "  - ", &answer.citations);
    proof {
        assert(texts(lines@) =~= answer_text(*answer));
    }
    lines
}

/// Two questions that differ only in the case of their letters, or that both
/// name approval or danger, get the same answer, with as many citations, and
/// with the same ones where the descriptor is found under the same path. There
/// is always a citation, and each answer repeats its own question.
pub proof fn law_questions_of_one_topic_get_one_answer(
    loaded: LoadedManifest,
    abi: CorvidAbi,
    question: Seq<char>,
    descriptor_path: Seq<char>,
    answer: AuditAnswer,
    other_question: Seq<char>,
    other_path: Seq<char>,
    other_answer: AuditAnswer,
)
    requires
        ascii_lower(question) == ascii_lower(other_question) || (names_approval(question)
            && names_approval(other_question)),
        is_answer(loaded, abi, question, descriptor_path, answer),
        is_answer(loaded, abi, other_question, other_path, other_answer),
    ensures
        answer.answer@ == other_answer.answer@,
        answer.citations@.len() == other_answer.citations@.len() > 0,
        descriptor_path == other_path ==> texts(answer.citations@) == texts(
            other_answer.citations@,
        ),
        answer.question@ == question,
        other_answer.question@ == other_question,
{
    assert(texts(answer.citations@).len() == answer.citations@.len());
    assert(texts(other_answer.citations@).len() == other_answer.citations@.len());
}

} // verus!
