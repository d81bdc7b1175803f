//! The difference between two bundles.
use vstd::prelude::*;
use vstd::string::*;

use crate::abi::{
    agent_named, find_agent, ownership_text, render_ownership, AbiAgent, AbiParam, CorvidAbi,
};
use crate::digest::{
    dir_digest, file_views, hex_text, sha256, sha256_bytes, sha256_dir, FileEntry,
};
use crate::manifest::LoadedManifest;
use crate::text::{
    decimal, decimal_text, flag, flag_text, push_line, push_pair, same_text, signed_decimal,
    signed_text, texts,
};

verus! {

/// One of the two bundles: its manifest, and what its artifacts hold.
#[derive(Debug)]
pub struct BundleSide {
    pub loaded: LoadedManifest,
    pub abi: CorvidAbi,
    pub descriptor: Vec<u8>,
    pub library: Vec<u8>,
    pub bindings_rust: Vec<FileEntry>,
    pub bindings_python: Vec<FileEntry>,
}

/// The difference between an old and a new bundle.
#[derive(Debug)]
pub struct BundleDiff {
    pub old_name: String,
    pub new_name: String,
    pub target_changed: bool,
    pub descriptor_hash_changed: bool,
    pub library_hash_changed: bool,
    pub rust_bindings_hash_changed: bool,
    pub python_bindings_hash_changed: bool,
    pub trace_count_delta: i128,
    pub ownership_changes: Vec<OwnershipChange>,
}

/// An ownership annotation that is not what it was.
#[derive(Debug)]
pub struct OwnershipChange {
    pub agent: String,
    pub position: String,
    pub from: String,
    pub to: String,
}

/// An ownership change as texts.
pub struct ChangeView {
    pub agent: Seq<char>,
    pub position: Seq<char>,
    pub from: Seq<char>,
    pub to: Seq<char>,
}

impl View for OwnershipChange {
    type V = ChangeView;

    open spec fn view(&self) -> ChangeView {
        ChangeView {
            agent: self.agent@,
            position: self.position@,
            from: self.from@,
            to: self.to@,
        }
    }
}

/// The changes of a list, in its order.
pub open spec fn change_views(changes: Seq<OwnershipChange>) -> Seq<ChangeView> {
    Seq::new(changes.len(), |i: int| changes[i]@)
}

/// The change of one annotation, if there is one.
pub open spec fn change_at(
    agent: Seq<char>,
    position: Seq<char>,
    from: Seq<char>,
    to: Seq<char>,
) -> Seq<ChangeView> {
    if from != to {
        seq![ChangeView { agent, position, from, to }]
    } else {
        Seq::empty()
    }
}

/// The changes at the first `n` parameters.
pub open spec fn param_changes(
    agent: Seq<char>,
    old_params: Seq<AbiParam>,
    new_params: Seq<AbiParam>,
    n: nat,
) -> Seq<ChangeView>
    decreases n,
{
    if n == 0 {
        Seq::empty()
    } else {
        param_changes(agent, old_params, new_params, (n - 1) as nat) + change_at(
            agent,
            "arg["@ + decimal((n - 1) as nat) + "]"@,
            ownership_text(old_params[n - 1].ownership),
            ownership_text(new_params[n - 1].ownership),
        )
    }
}

/// How many parameters both agents have.
pub open spec fn shared_params(old_agent: AbiAgent, new_agent: AbiAgent) -> nat {
    if old_agent.params@.len() <= new_agent.params@.len() {
        old_agent.params@.len()
    } else {
        new_agent.params@.len()
    }
}

/// The changes of one agent: at what it returns, then at the parameters that
/// it has in both bundles.
pub open spec fn agent_changes(old_agent: AbiAgent, new_agent: AbiAgent) -> Seq<ChangeView> {
    change_at(
        old_agent.name@,
        "return"@,
        ownership_text(old_agent.return_ownership),
        ownership_text(new_agent.return_ownership),
    ) + param_changes(
        old_agent.name@,
        old_agent.params@,
        new_agent.params@,
        shared_params(old_agent, new_agent),
    )
}

/// The changes of the old agents that the new bundle still has, in the order
/// of the old ones.
pub open spec fn ownership_changes(old_agents: Seq<AbiAgent>, new_agents: Seq<AbiAgent>) -> Seq<
    ChangeView,
>
    decreases old_agents.len(),
{
    if old_agents.len() == 0 {
        Seq::empty()
    } else {
        ownership_changes(old_agents.drop_last(), new_agents) + match agent_named(
            new_agents,
            old_agents.last().name@,
        ) {
            Some(new_agent) => agent_changes(old_agents.last(), new_agent),
            None => Seq::empty(),
        }
    }
}

/// The difference of the two bundles.
pub open spec fn is_diff(old_side: BundleSide, new_side: BundleSide, diff: BundleDiff) -> bool {
    let old_manifest = old_side.loaded.manifest;
    let new_manifest = new_side.loaded.manifest;
    &&& diff.old_name@ == old_manifest.name@
    &&& diff.new_name@ == new_manifest.name@
    &&& diff.target_changed == (old_manifest.target_triple@ != new_manifest.target_triple@)
    &&& diff.descriptor_hash_changed == (hex_text(sha256(old_side.descriptor@)) != hex_text(
        sha256(new_side.descriptor@),
    ))
    &&& diff.library_hash_changed == (hex_text(sha256(old_side.library@)) != hex_text(
        sha256(new_side.library@),
    ))
    &&& diff.rust_bindings_hash_changed == (dir_digest(file_views(old_side.bindings_rust@))
        != dir_digest(file_views(new_side.bindings_rust@)))
    &&& diff.python_bindings_hash_changed == (dir_digest(file_views(old_side.bindings_python@))
        != dir_digest(file_views(new_side.bindings_python@)))
    &&& diff.trace_count_delta == new_manifest.traces@.len() - old_manifest.traces@.len()
    &&& change_views(diff.ownership_changes@) == ownership_changes(
        old_side.abi.agents@,
        new_side.abi.agents@,
    )
}

/// Notes a change of one annotation, if there is one.
fn push_change(
    changes: &mut Vec<OwnershipChange>,
    agent: &str,
    position: String,
    from: String,
    to: String,
)
    ensures
        change_views(final(changes)@) == change_views(old(changes)@) + change_at(
            agent@,
            position@,
            from@,
            to@,
        ),
{
    let ghost views = change_at(agent@, position@, from@, to@);
    if !same_text(from.as_str(), to.as_str()) {
        changes.push(OwnershipChange { agent: String::from_str(agent), position, from, to });
    }
    proof {
        assert(change_views(changes@) =~= change_views(old(changes)@) + views);
    }
}

/// Notes the changes of one agent.
fn push_agent_changes(
    changes: &mut Vec<OwnershipChange>,
    old_agent: &AbiAgent,
    new_agent: &AbiAgent,
)
    ensures
        change_views(final(changes)@) == change_views(old(changes)@) + agent_changes(
            *old_agent,
            *new_agent,
        ),
{
    let ghost start = change_views(changes@);
    push_change(
        changes,
        old_agent.name.as_str(),
        String::from_str("return"),
        render_ownership(&old_agent.return_ownership),
        render_ownership(&new_agent.return_ownership),
    );
    let ghost first = change_views(changes@);
    let mut i: usize = 0;
    proof {
        assert(first + param_changes(
            old_agent.name@,
            old_agent.params@,
            new_agent.params@,
            0,
        ) =~= first);
    }
    while i < old_agent.params.len() && i < new_agent.params.len()
        invariant
            i <= shared_params(*old_agent, *new_agent),
            change_views(changes@) == first + param_changes(
                old_agent.name@,
                old_agent.params@,
                new_agent.params@,
                i as nat,
            ),
        decreases old_agent.params@.len() - i,
    {
        let mut position: String = String::from_str("arg[");
        let number: String = decimal_text(i as u64);
        position.append(number.as_str());
        position.append("]");
        let ghost before = param_changes(
            old_agent.name@,
            old_agent.params@,
            new_agent.params@,
            i as nat,
        );
        let from: String = render_ownership(&old_agent.params[i].ownership);
        let to: String = render_ownership(&new_agent.params[i].ownership);
        let ghost change = change_at(old_agent.name@, position@, from@, to@);
        push_change(changes, old_agent.name.as_str(), position, from, to);
        proof {
            assert((first + before) + change =~= first + (before + change));
        }
        i = i + 1;
    }
    proof {
        assert(change_views(changes@) =~= start + agent_changes(*old_agent, *new_agent));
    }
}

/// Lists the ownership changes between two lists of agents.
fn list_changes(old_agents: &Vec<AbiAgent>, new_agents: &Vec<AbiAgent>) -> (changes: Vec<
    OwnershipChange,
>)
    ensures
        change_views(changes@) == ownership_changes(old_agents@, new_agents@),
{
    let mut changes: Vec<OwnershipChange> = Vec::new();
    let mut i: usize = 0;
    proof {
        assert(change_views(changes@) =~= ownership_changes(old_agents@.take(0), new_agents@));
    }
    while i < old_agents.len()
        invariant
            i <= old_agents@.len(),
            change_views(changes@) == ownership_changes(old_agents@.take(i as int), new_agents@),
        decreases old_agents@.len() - i,
    {
        let ghost done = ownership_changes(old_agents@.take(i as int), new_agents@);
        proof {
            assert(old_agents@.take(i + 1).drop_last() =~= old_agents@.take(i as int));
        }
        if let Some(new_agent) = find_agent(new_agents, old_agents[i].name.as_str()) {
            push_agent_changes(&mut changes, &old_agents[i], new_agent);
        } else {
            proof {
                assert(done + Seq::<ChangeView>::empty() =~= done);
            }
        }
        i = i + 1;
    }
    proof {
        assert(old_agents@.take(i as int) =~= old_agents@);
    }
    changes
}

fn bytes_changed(old_bytes: &Vec<u8>, new_bytes: &Vec<u8>) -> (changed: bool)
    ensures
        changed == (hex_text(sha256(old_bytes@)) != hex_text(sha256(new_bytes@))),
{
    let old_hash: String = sha256_bytes(old_bytes.as_slice());
    let new_hash: String = sha256_bytes(new_bytes.as_slice());
    !same_text(old_hash.as_str(), new_hash.as_str())
}

fn dirs_changed(old_files: &Vec<FileEntry>, new_files: &Vec<FileEntry>) -> (changed: bool)
    ensures
        changed == (dir_digest(file_views(old_files@)) != dir_digest(file_views(new_files@))),
{
    let old_hash: String = sha256_dir(old_files);
    let new_hash: String = sha256_dir(new_files);
    !same_text(old_hash.as_str(), new_hash.as_str())
}

/// Compares two bundles.
pub fn diff_bundles(old_side: &BundleSide, new_side: &BundleSide) -> (diff: BundleDiff)
    ensures
        is_diff(*old_side, *new_side, diff),
{
    BundleDiff {
        old_name: old_side.loaded.manifest.name.clone(),
        new_name: new_side.loaded.manifest.name.clone(),
        target_changed: !same_text(
            old_side.loaded.manifest.target_triple.as_str(),
            new_side.loaded.manifest.target_triple.as_str(),
        ),
        descriptor_hash_changed: bytes_changed(&old_side.descriptor, &new_side.descriptor),
        library_hash_changed: bytes_changed(&old_side.library, &new_side.library),
        rust_bindings_hash_changed: dirs_changed(
            &old_side.bindings_rust,
            &new_side.bindings_rust,
        ),
        python_bindings_hash_changed: dirs_changed(
            &old_side.bindings_python,
            &new_side.bindings_python,
        ),
        trace_count_delta: new_side.loaded.manifest.traces.len() as i128
            - old_side.loaded.manifest.traces.len() as i128,
        ownership_changes: list_changes(&old_side.abi.agents, &new_side.abi.agents),
    }
}

// ---------------------------------------------------------------------------
// Lines
// ---------------------------------------------------------------------------
/// The line of an ownership change.
pub open spec fn change_line(change: ChangeView) -> Seq<char> {
    "  - "@ + change.agent + " "@ + change.position + ": "@ + change.from + " -> "@ + change.to
}

/// The lines of the ownership changes.
pub open spec fn change_lines(changes: Seq<ChangeView>) -> Seq<Seq<char>> {
    if changes.len() == 0 {
        seq!["ownership_changes=none"@]
    } else {
        seq!["ownership_changes:"@] + Seq::new(changes.len(), |i: int| change_line(changes[i]))
    }
}

/// The lines of a difference.
pub open spec fn diff_text(diff: BundleDiff) -> Seq<Seq<char>> {
    seq![
        "bundle diff: "@ + diff.old_name@ + " -> "@ + diff.new_name@,
        "target_changed="@ + flag(diff.target_changed),
        "descriptor_hash_changed="@ + flag(diff.descriptor_hash_changed),
        "library_hash_changed="@ + flag(diff.library_hash_changed),
        "rust_bindings_hash_changed="@ + flag(diff.rust_bindings_hash_changed),
        "python_bindings_hash_changed="@ + flag(diff.python_bindings_hash_changed),
        "trace_count_delta="@ + signed_decimal(diff.trace_count_delta as int),
    ] + change_lines(change_views(diff.ownership_changes@))
}

fn push_change_lines(lines: &mut Vec<String>, changes: &Vec<OwnershipChange>)
    ensures
        texts(final(lines)@) == texts(old(lines)@) + change_lines(change_views(changes@)),
{
    let ghost start = texts(lines@);
    let ghost views = change_views(changes@);
    if changes.len() == 0 {
        push_line(lines, String::from_str("ownership_changes=none"));
        proof {
            assert(texts(lines@) =~= start + change_lines(views));
        }
        return;
    }
    push_line(lines, String::from_str("ownership_changes:"));
    let ghost head = texts(lines@);
    let ghost all = Seq::new(views.len(), |i: int| change_line(views[i]));
    let mut i: usize = 0;
    proof {
        assert(head + all.take(0) =~= head);
    }
    while i < changes.len()
        invariant
            i <= changes@.len(),
            views == change_views(changes@),
            all == Seq::new(views.len(), |i: int| change_line(views[i])),
            texts(lines@) == head + all.take(i as int),
        decreases changes@.len() - i,
    {
        let mut line: String = String::from_str("  - ");
        line.append(changes[i].agent.as_str());
        line.append(" ");
        line.append(changes[i].position.as_str());
        line.append(": ");
        line.append(changes[i].from.as_str());
        line.append(" -> ");
        line.append(changes[i].to.as_str());
        proof {
            assert(line@ == change_line(views[i as int]));
            assert(all.take(i + 1) =~= all.take(i as int).push(all[i as int]));
            assert(head + all.take(i + 1) =~= (head + all.take(i as int)).push(all[i as int]));
        }
        push_line(lines, line);
        i = i + 1;
    }
    proof {
        assert(all.take(i as int) =~= all);
        assert(head + all =~= start + change_lines(views));
    }
}

/// Writes a difference as lines.
pub fn diff_lines(diff: &BundleDiff) -> (lines: Vec<String>)
    ensures
        texts(lines@) == diff_text(*diff),
{
    let mut lines: Vec<String> = Vec::new();
    let mut title: String = String::from_str("bundle diff: ");
    title.append(diff.old_name.as_str());
    title.append(" -> ");
    title.append(diff.new_name.as_str());
    push_line(&mut lines, title);
    push_pair(&mut lines, "target_changed=", flag_text(diff.target_changed));
    push_pair(&mut lines, "descriptor_hash_changed=", flag_text(diff.descriptor_hash_changed));
    push_pair(&mut lines, "library_hash_changed=", flag_text(diff.library_hash_changed));
    push_pair(
        &mut lines,
        "rust_bindings_hash_changed=",
        flag_text(diff.rust_bindings_hash_changed),
    );
    push_pair(
        &mut lines,
        "python_bindings_hash_changed=",
        flag_text(diff.python_bindings_hash_changed),
    );
    let delta: String = signed_text(diff.trace_count_delta);
    push_pair(&mut lines, "trace_count_delta=", delta.as_str());
    push_change_lines(&mut lines, &diff.ownership_changes);
    proof {
        assert(texts(lines@) =~= diff_text(*diff));
    }
    lines
}

} // verus!
