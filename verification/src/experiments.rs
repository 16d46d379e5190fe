//! Saving experiment configurations as YAML files under `experiments/`,
//! under a name that no earlier file has.

use vstd::prelude::*;
use crate::procedure::{
    directory_task,
    ensure_directory,
    file_task,
    lemma_written_pair,
    write_file,
    written,
    PlannedTask,
    Procedure,
    ProcedureModel,
};
use crate::text::{
    blank,
    chars_of,
    concat2,
    decimal,
    ends_with,
    has_tail,
    is_blank,
    is_listed,
    lemma_decimal_injective,
    lemma_not_blank,
    push_decimal,
    string_of,
};

verus! {

/// `names` holds the text `name`.
pub open spec fn listed(names: Seq<String>, name: Seq<char>) -> bool {
    exists|i: int| 0 <= i < names.len() && (#[trigger] names[i])@ == name
}

/// A name without its extension `.yaml`: what stands before the one
/// `.yaml` at its end, or all of it when it does not end so.
pub open spec fn yaml_stem(name: Seq<char>) -> Seq<char> {
    if ".yaml"@.is_suffix_of(name) {
        name.take(name.len() - ".yaml"@.len())
    } else {
        name
    }
}

/// The `k`-th name tried for a file whose name without extension is `stem`.
pub open spec fn candidate(stem: Seq<char>, k: nat) -> Seq<char> {
    stem + "-"@ + decimal(k) + ".yaml"@
}

/// `name` is the name under which `filename` is stored beside `existing`:
/// `filename` itself when it is free, else the candidate with the smallest
/// number from 2 on that is free.
pub open spec fn is_unique_name(existing: Seq<String>, filename: Seq<char>, name: Seq<char>) -> bool {
    if !listed(existing, filename) {
        name == filename
    } else {
        exists|k: nat|
            {
                &&& k >= 2
                &&& name == #[trigger] candidate(yaml_stem(filename), k)
                &&& !listed(existing, name)
                &&& forall|j: nat|
                    2 <= j < k ==> listed(existing, #[trigger] candidate(yaml_stem(filename), j))
            }
    }
}

/// Different numbers give different candidates.
proof fn lemma_candidate_injective(stem: Seq<char>, a: nat, b: nat)
    requires
        candidate(stem, a) == candidate(stem, b),
    ensures
        a == b,
{
    let p = stem + "-"@;
    let x = candidate(stem, a);
    let y = candidate(stem, b);
    assert(x.len() == p.len() + decimal(a).len() + ".yaml"@.len());
    assert(y.len() == p.len() + decimal(b).len() + ".yaml"@.len());
    assert(x.subrange(p.len() as int, (p.len() + decimal(a).len()) as int) =~= decimal(a));
    assert(y.subrange(p.len() as int, (p.len() + decimal(b).len()) as int) =~= decimal(b));
    lemma_decimal_injective(a, b);
}

/// When the first `m` candidates are all among `existing`, `existing` has at
/// least `m` names.
proof fn lemma_taken_candidates(existing: Seq<String>, stem: Seq<char>, m: nat)
    requires
        forall|j: nat| 2 <= j < 2 + m ==> listed(existing, #[trigger] candidate(stem, j)),
    ensures
        m <= existing.len(),
{
    let tried = Seq::new(m, |i: int| candidate(stem, (i + 2) as nat));
    let names = Seq::new(existing.len(), |i: int| existing[i]@);
    assert forall|i: int, j: int| 0 <= i < m && 0 <= j < m && i != j implies tried[i]
        != tried[j] by {
        if tried[i] == tried[j] {
            lemma_candidate_injective(stem, (i + 2) as nat, (j + 2) as nat);
        }
    }
    assert(tried.no_duplicates());
    tried.unique_seq_to_set();
    names.lemma_cardinality_of_set();
    assert forall|name: Seq<char>| tried.to_set().contains(name) implies names.to_set().contains(
        name,
    ) by {
        let i = choose|i: int| 0 <= i < tried.len() && tried[i] == name;
        assert(listed(existing, candidate(stem, (i + 2) as nat)));
        let w = choose|w: int| 0 <= w < existing.len() && (#[trigger] existing[w])@ == name;
        assert(names[w] == name);
    }
    vstd::set_lib::lemma_len_subset(tried.to_set(), names.to_set());
}

/// Removes the extension `.yaml` from a name that ends with it.
fn strip_yaml(filename: &str) -> (stem: String)
    ensures
        stem@ == yaml_stem(filename@),
{
    let mut chars = chars_of(filename);
    let suffix = chars_of(".yaml");
    if has_tail(&chars, &suffix) {
        let keep: usize = chars.len() - suffix.len();
        chars.truncate(keep);
    }
    string_of(&chars)
}

/// Picks the name under which a file is stored in a directory that holds
/// the names `existing`: the wanted name when no file has it, else the
/// wanted name with `-2`, `-3`, and so on, put before its one final
/// extension `.yaml`, at the first number that no file has. The rest of the
/// name is kept as it is. The name returned is never among `existing`.
pub fn resolve_unique_filename(existing: &Vec<String>, filename: &str) -> (name: String)
    ensures
        is_unique_name(existing@, filename@, name@),
        !listed(existing@, name@),
{
    if !is_listed(existing, filename) {
        return filename.to_owned();
    }
    let stem = strip_yaml(filename);
    let mut tried: usize = 0;
    loop
        invariant
            stem@ == yaml_stem(filename@),
            listed(existing@, filename@),
            tried <= existing@.len(),
            forall|j: nat| 2 <= j < 2 + tried ==> listed(existing@, #[trigger] candidate(stem@, j)),
        decreases existing@.len() - tried,
    {
        let mut name = concat2(stem.as_str(), "-");
        push_decimal(&mut name, tried as u128 + 2);
        name.append(".yaml");
        assert(name@ == candidate(stem@, (tried + 2) as nat));
        if !is_listed(existing, name.as_str()) {
            return name;
        }
        proof {
            assert(listed(existing@, candidate(stem@, (tried + 2) as nat)));
            lemma_taken_candidates(existing@, stem@, (tried + 1) as nat);
        }
        assert(tried < existing.len());
        tried += 1;
    }
}

/// Why an experiment configuration is refused, if it is.
pub open spec fn experiment_fault(filename: Seq<char>, yaml_content: Seq<char>) -> Option<
    Seq<char>,
> {
    if blank(yaml_content) {
        Some("YAML content cannot be empty"@)
    } else if blank(filename) {
        Some("Filename cannot be empty"@)
    } else if !".yaml"@.is_suffix_of(filename) {
        Some("Filename must end with .yaml"@)
    } else {
        None
    }
}

/// What saving an accepted configuration under `name` does: the directory
/// `experiments` is made, the file is written under it, and the file is
/// committed; a commit that fails does not undo the save.
pub open spec fn experiment_plan(name: Seq<char>, yaml_content: Seq<char>) -> ProcedureModel {
    ProcedureModel {
        tasks: seq![
            directory_task("experiments"@, "Failed to create experiments directory: "@),
            file_task(
                "experiments/"@ + name,
                yaml_content,
                "Failed to write experiment config: "@,
            ),
        ],
        probe_large_objects: false,
        paths: seq!["experiments/"@ + name],
        commit_message: "[unheard] Add experiment config: "@ + name,
        commit_required: false,
    }
}

/// Plans the writing of an experiment configuration: checks the content,
/// the filename and its extension, in that order, then picks a name that no
/// file of the experiments directory has, so that nothing is overwritten.
/// `existing` holds the names of the files in that directory.
pub fn write_experiment_config(filename: &str, yaml_content: &str, existing: &Vec<String>) -> (r:
    Result<Procedure, String>)
    ensures
        match r {
            Ok(plan) => experiment_fault(filename@, yaml_content@) is None && exists|
                name: Seq<char>,
            |
                is_unique_name(existing@, filename@, name) && !listed(existing@, name) && plan@
                    == #[trigger] experiment_plan(name, yaml_content@),
            Err(e) => experiment_fault(filename@, yaml_content@) == Some(e@),
        },
{
    if is_blank(yaml_content) {
        return Err("YAML content cannot be empty".to_owned());
    }
    if is_blank(filename) {
        return Err("Filename cannot be empty".to_owned());
    }
    if !ends_with(filename, ".yaml") {
        return Err("Filename must end with .yaml".to_owned());
    }
    let name = resolve_unique_filename(existing, filename);
    let path = concat2("experiments/", name.as_str());
    let mut tasks: Vec<PlannedTask> = Vec::new();
    tasks.push(ensure_directory("experiments", "Failed to create experiments directory: "));
    tasks.push(write_file(path.as_str(), yaml_content, "Failed to write experiment config: "));
    let mut paths: Vec<String> = Vec::new();
    paths.push(path);
    let plan = Procedure {
        tasks,
        probe_large_objects: false,
        paths,
        commit_message: concat2("[unheard] Add experiment config: ", name.as_str()),
        commit_required: false,
    };
    assert(plan@.tasks =~= experiment_plan(name@, yaml_content@).tasks);
    assert(plan@.paths =~= experiment_plan(name@, yaml_content@).paths);
    Ok(plan)
}

/// What the writing of an experiment configuration reports as written is
/// what it commits, and the message of its commit is never blank: the
/// commit transaction does not refuse it.
pub proof fn lemma_experiment_is_committed(name: Seq<char>, yaml_content: Seq<char>)
    ensures
        written(experiment_plan(name, yaml_content).tasks) == experiment_plan(
            name,
            yaml_content,
        ).paths,
        !blank(experiment_plan(name, yaml_content).commit_message),
{
    let plan = experiment_plan(name, yaml_content);
    lemma_written_pair(plan.tasks[0], plan.tasks[1]);
    assert(plan.tasks =~= seq![plan.tasks[0], plan.tasks[1]]);
    reveal_strlit("[unheard] Add experiment config: ");
    assert(plan.commit_message[0] == '[');
    lemma_not_blank(plan.commit_message, 0);
}

} // verus!
