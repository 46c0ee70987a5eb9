//! Phase orchestration: turning a validated package script into the ordered
//! plan of banner lines, commands to run, and the final status line.
//!
//! The plan is what the surrounding binary performs step by step: a `Line` is
//! printed, a `Run` command is handed to a shell and waited for, and a
//! command's exit status is deliberately ignored, so the plan never depends
//! on how the commands fare.

use vstd::prelude::*;
use crate::script::{load_result, load_script, PackageScript, ScriptError, ScriptModel};
use crate::text::{
    banner_text, install_success_line, install_success_text, is_hex_colour, phase_banner,
    uninstall_success_line, uninstall_success_text,
};

verus! {

/// Which operation was requested for a package.
#[derive(Debug, Clone, Copy, PartialEq, Eq)]
pub enum Operation {
    Install,
    Uninstall,
}

/// One step of a plan: a line to print, or a shell command to run and wait
/// for.
#[derive(Debug, Clone, PartialEq, Eq)]
pub enum Step {
    Line { text: String },
    Run { command: String },
}

/// The mathematical model of one plan step.
pub enum StepModel {
    Line { text: Seq<char> },
    Run { command: Seq<char> },
}

impl Step {
    /// The step as its model.
    pub open spec fn model(&self) -> StepModel {
        match self {
            Step::Line { text } => StepModel::Line { text: text@ },
            Step::Run { command } => StepModel::Run { command: command@ },
        }
    }
}

/// A plan as the sequence of its step models.
pub open spec fn plan_model(steps: Seq<Step>) -> Seq<StepModel> {
    steps.map(|i: int, s: Step| s.model())
}

/// The banner announcing the cloning phase.
pub open spec fn cloning_banner() -> Seq<char> {
    banner_text(" "@, 241, 80, 47)
}

/// The banner announcing the building phase.
pub open spec fn building_banner() -> Seq<char> {
    banner_text(" building"@, 195, 232, 141)
}

/// The steps of one install phase: absent, nothing; present, its banner and
/// then its commands in order.
pub open spec fn spec_phase_steps(banner: Seq<char>, cmds: Option<Seq<Seq<char>>>) -> Seq<
    StepModel,
> {
    match cmds {
        Some(cs) => seq![StepModel::Line { text: banner }] + cs.map(
            |i: int, c: Seq<char>| StepModel::Run { command: c },
        ),
        None => seq![],
    }
}

/// The full install plan for a script: the cloning phase, then the building
/// phase, each only if present, and the success line last in every case.
pub open spec fn spec_install_plan(m: ScriptModel, pkg: Seq<char>) -> Seq<StepModel> {
    (match m.install {
        Some(im) => spec_phase_steps(cloning_banner(), im.cloning) + spec_phase_steps(
            building_banner(),
            im.building,
        ),
        None => seq![],
    }) + seq![StepModel::Line { text: install_success_text(pkg) }]
}

/// The uninstall plan for a script: its commands in order and then the
/// success line, or `InvalidShape` when the script has no uninstall section.
pub open spec fn spec_uninstall_plan(m: ScriptModel, pkg: Seq<char>) -> Result<
    Seq<StepModel>,
    ScriptError,
> {
    match m.uninstall {
        Some(cs) => Ok(
            cs.map(|i: int, c: Seq<char>| StepModel::Run { command: c }) + seq![
                StepModel::Line { text: uninstall_success_text(pkg) },
            ],
        ),
        None => Err(ScriptError::InvalidShape),
    }
}

/// What one package operation yields from the text of its document: the
/// load error, or the plan of the requested operation.
pub open spec fn spec_run_package(op: Operation, pkg: Seq<char>, text: Seq<char>) -> Result<
    Seq<StepModel>,
    ScriptError,
> {
    match load_result(text) {
        Err(e) => Err(e),
        Ok(m) => match op {
            Operation::Install => Ok(spec_install_plan(m, pkg)),
            Operation::Uninstall => spec_uninstall_plan(m, pkg),
        },
    }
}

/// The error line reported for a failed package operation. A shape error is
/// reported against the operation that was requested, since the tool tells
/// invalid installation steps and invalid uninstallation steps apart.
pub open spec fn error_text(op: Operation, e: ScriptError) -> Seq<char> {
    match e {
        ScriptError::HomeDirUnavailable => "Error: Failed to determine user's home directory"@,
        ScriptError::ReadError => "Error: Failed to read package script"@,
        ScriptError::ParseError => "Error: Failed to parse package script"@,
        ScriptError::InvalidShape => match op {
            Operation::Install => "Error: Invalid installation steps"@,
            Operation::Uninstall => "Error: Invalid uninstallation steps"@,
        },
    }
}

/// Builds the error line for a failed package operation.
pub fn error_line(op: Operation, e: ScriptError) -> (out: String)
    ensures
        out@ == error_text(op, e),
{
    match e {
        ScriptError::HomeDirUnavailable => String::from_str(
            "Error: Failed to determine user's home directory",
        ),
        ScriptError::ReadError => String::from_str("Error: Failed to read package script"),
        ScriptError::ParseError => String::from_str("Error: Failed to parse package script"),
        ScriptError::InvalidShape => match op {
            Operation::Install => String::from_str("Error: Invalid installation steps"),
            Operation::Uninstall => String::from_str("Error: Invalid uninstallation steps"),
        },
    }
}

/// The shell commands a plan runs, in order, with the printed lines left
/// out.
pub open spec fn runs_of(s: Seq<StepModel>) -> Seq<Seq<char>>
    decreases s.len(),
{
    if s.len() == 0 {
        seq![]
    } else {
        (match s[0] {
            StepModel::Run { command } => seq![command],
            StepModel::Line { text: _ } => seq![],
        }) + runs_of(s.drop_first())
    }
}

/// The commands of a concatenated plan are the commands of its parts, in
/// order.
pub proof fn lemma_runs_of_concat(a: Seq<StepModel>, b: Seq<StepModel>)
    ensures
        runs_of(a + b) == runs_of(a) + runs_of(b),
    decreases a.len(),
{
    if a.len() == 0 {
        assert(a + b =~= b);
        assert(runs_of(a) + runs_of(b) =~= runs_of(b));
    } else {
        assert((a + b).drop_first() =~= a.drop_first() + b);
        lemma_runs_of_concat(a.drop_first(), b);
        assert(runs_of(a + b) =~= runs_of(a) + runs_of(b));
    }
}

/// A plan of bare commands runs exactly those commands.
pub proof fn lemma_runs_of_commands(cs: Seq<Seq<char>>)
    ensures
        runs_of(cs.map(|i: int, c: Seq<char>| StepModel::Run { command: c })) == cs,
    decreases cs.len(),
{
    let mapped = cs.map(|i: int, c: Seq<char>| StepModel::Run { command: c });
    if cs.len() == 0 {
        assert(runs_of(mapped) =~= cs);
    } else {
        lemma_runs_of_commands(cs.drop_first());
        assert(mapped.drop_first() =~= cs.drop_first().map(
            |i: int, c: Seq<char>| StepModel::Run { command: c },
        ));
        assert(runs_of(mapped) =~= cs);
    }
}

/// A single printed line runs nothing.
pub proof fn lemma_runs_of_line(t: Seq<char>)
    ensures
        runs_of(seq![StepModel::Line { text: t }]) == Seq::<Seq<char>>::empty(),
{
    let s = seq![StepModel::Line { text: t }];
    assert(s.drop_first() =~= Seq::<StepModel>::empty());
    assert(runs_of(Seq::<StepModel>::empty()) =~= Seq::<Seq<char>>::empty());
    assert(runs_of(s) =~= Seq::<Seq<char>>::empty());
}

/// The commands of one phase's steps: none when the phase is absent, the
/// phase's commands when present.
pub proof fn lemma_phase_runs(banner: Seq<char>, cmds: Option<Seq<Seq<char>>>)
    ensures
        runs_of(spec_phase_steps(banner, cmds)) == (match cmds {
            Some(cs) => cs,
            None => Seq::<Seq<char>>::empty(),
        }),
{
    match cmds {
        Some(cs) => {
            let line = seq![StepModel::Line { text: banner }];
            let mapped = cs.map(|i: int, c: Seq<char>| StepModel::Run { command: c });
            lemma_runs_of_concat(line, mapped);
            lemma_runs_of_line(banner);
            lemma_runs_of_commands(cs);
            assert(runs_of(spec_phase_steps(banner, cmds)) =~= cs);
        },
        None => {
            assert(runs_of(spec_phase_steps(banner, cmds)) =~= Seq::<Seq<char>>::empty());
        },
    }
}

/// Law: when a script has both install phases, its install plan runs every
/// cloning command, in order, before any building command: the plan's command
/// sequence is exactly the cloning commands followed by the building
/// commands.
pub proof fn lemma_install_phase_order(m: ScriptModel, pkg: Seq<char>)
    requires
        m.install is Some,
        m.install->0.cloning is Some,
        m.install->0.building is Some,
    ensures
        runs_of(spec_install_plan(m, pkg)) == m.install->0.cloning->0 + m.install->0.building->0,
{
    let im = m.install->0;
    let pc = spec_phase_steps(cloning_banner(), im.cloning);
    let pb = spec_phase_steps(building_banner(), im.building);
    let succ = seq![StepModel::Line { text: install_success_text(pkg) }];
    lemma_runs_of_concat(pc + pb, succ);
    lemma_runs_of_concat(pc, pb);
    lemma_phase_runs(cloning_banner(), im.cloning);
    lemma_phase_runs(building_banner(), im.building);
    lemma_runs_of_line(install_success_text(pkg));
    assert(runs_of(spec_install_plan(m, pkg)) =~= im.cloning->0 + im.building->0);
}

/// Law: every install plan ends with the install success line, whatever
/// sections the script has, so an install whose document loads always
/// reports success.
pub proof fn lemma_install_reports_success(m: ScriptModel, pkg: Seq<char>)
    ensures
        spec_install_plan(m, pkg).len() >= 1,
        spec_install_plan(m, pkg).last() == (StepModel::Line { text: install_success_text(pkg) }),
{
}

/// Law: with one install phase missing, the install plan still ends in the
/// success line and runs exactly the present phase's commands.
pub proof fn lemma_install_single_phase(m: ScriptModel, pkg: Seq<char>)
    requires
        m.install is Some,
    ensures
        m.install->0.cloning is None && m.install->0.building is Some ==> runs_of(
            spec_install_plan(m, pkg),
        ) == m.install->0.building->0,
        m.install->0.building is None && m.install->0.cloning is Some ==> runs_of(
            spec_install_plan(m, pkg),
        ) == m.install->0.cloning->0,
{
    let im = m.install->0;
    let pc = spec_phase_steps(cloning_banner(), im.cloning);
    let pb = spec_phase_steps(building_banner(), im.building);
    let succ = seq![StepModel::Line { text: install_success_text(pkg) }];
    lemma_runs_of_concat(pc + pb, succ);
    lemma_runs_of_concat(pc, pb);
    lemma_phase_runs(cloning_banner(), im.cloning);
    lemma_phase_runs(building_banner(), im.building);
    lemma_runs_of_line(install_success_text(pkg));
    if im.cloning is None && im.building is Some {
        assert(runs_of(spec_install_plan(m, pkg)) =~= im.building->0);
    }
    if im.building is None && im.cloning is Some {
        assert(runs_of(spec_install_plan(m, pkg)) =~= im.cloning->0);
    }
}

/// Law: an uninstall plan exists exactly when the script has an uninstall
/// section; it then runs exactly those commands, in order, and ends with the
/// uninstall success line.
pub proof fn lemma_uninstall_runs(m: ScriptModel, pkg: Seq<char>)
    requires
        m.uninstall is Some,
    ensures
        spec_uninstall_plan(m, pkg) is Ok,
        runs_of(spec_uninstall_plan(m, pkg)->Ok_0) == m.uninstall->0,
        spec_uninstall_plan(m, pkg)->Ok_0.last() == (StepModel::Line {
            text: uninstall_success_text(pkg),
        }),
{
    let cs = m.uninstall->0;
    let mapped = cs.map(|i: int, c: Seq<char>| StepModel::Run { command: c });
    let succ = seq![StepModel::Line { text: uninstall_success_text(pkg) }];
    lemma_runs_of_concat(mapped, succ);
    lemma_runs_of_commands(cs);
    lemma_runs_of_line(uninstall_success_text(pkg));
    assert(runs_of(spec_uninstall_plan(m, pkg)->Ok_0) =~= cs);
}

/// Appends one `Run` step per command, in order.
#[verifier::loop_isolation(false)]
fn push_commands(steps: &mut Vec<Step>, cmds: &Vec<String>)
    ensures
        final(steps)@.len() == old(steps)@.len() + cmds@.len(),
        forall|k: int| 0 <= k < old(steps)@.len() ==> final(steps)@[k] == old(steps)@[k],
        forall|k: int|
            old(steps)@.len() <= k < final(steps)@.len() ==> (#[trigger] final(steps)@[k]).model()
                == (StepModel::Run { command: cmds@[k - old(steps)@.len()]@ }),
{
    let mut i: usize = 0;
    while i < cmds.len()
        invariant
            i <= cmds@.len(),
            steps@.len() == old(steps)@.len() + i,
            forall|k: int| 0 <= k < old(steps)@.len() ==> steps@[k] == old(steps)@[k],
            forall|k: int|
                old(steps)@.len() <= k < steps@.len() ==> (#[trigger] steps@[k]).model()
                    == (StepModel::Run { command: cmds@[k - old(steps)@.len()]@ }),
        decreases cmds@.len() - i,
    {
        steps.push(Step::Run { command: cmds[i].clone() });
        i += 1;
    }
}

/// Builds the install plan for a loaded script: announces and lists each
/// present phase in order, and ends with the success line whether or not any
/// phase was present.
pub fn install_plan(script: &PackageScript, package: &str) -> (steps: Vec<Step>)
    ensures
        plan_model(steps@) == spec_install_plan(script.model(), package@),
{
    let mut steps: Vec<Step> = Vec::new();
    match &script.install {
        Some(ins) => {
            match &ins.cloning {
                Some(cloning) => {
                    proof {
                        reveal_strlit("F1502F");
                        assert(is_hex_colour("F1502F"@));
                    }
                    steps.push(Step::Line { text: phase_banner(" ", "F1502F") });
                    push_commands(&mut steps, cloning);
                },
                None => {},
            }
            match &ins.building {
                Some(building) => {
                    proof {
                        reveal_strlit("C3E88D");
                        assert(is_hex_colour("C3E88D"@));
                    }
                    steps.push(Step::Line { text: phase_banner(" building", "C3E88D") });
                    push_commands(&mut steps, building);
                },
                None => {},
            }
        },
        None => {},
    }
    steps.push(Step::Line { text: install_success_line(package) });
    proof {
        assert(plan_model(steps@) =~= spec_install_plan(script.model(), package@));
    }
    steps
}

/// Builds the uninstall plan for a loaded script, or reports the missing
/// uninstall section.
pub fn uninstall_plan(script: &PackageScript, package: &str) -> (r: Result<Vec<Step>, ScriptError>)
    ensures
        match spec_uninstall_plan(script.model(), package@) {
            Ok(p) => r matches Ok(steps) && plan_model(steps@) == p,
            Err(e) => r matches Err(actual) && actual == e,
        },
{
    match &script.uninstall {
        Some(cmds) => {
            let mut steps: Vec<Step> = Vec::new();
            push_commands(&mut steps, cmds);
            steps.push(Step::Line { text: uninstall_success_line(package) });
            proof {
                assert(plan_model(steps@) =~= spec_uninstall_plan(script.model(), package@)->Ok_0);
            }
            Ok(steps)
        },
        None => Err(ScriptError::InvalidShape),
    }
}

/// Performs the whole decision side of one package operation: loads and
/// validates the document text, then builds the plan of the requested
/// operation. Nothing is run and no error is printed here; the caller
/// performs the steps or reports the error.
pub fn run_package(op: Operation, package: &str, text: &str) -> (r: Result<Vec<Step>, ScriptError>)
    ensures
        match spec_run_package(op, package@, text@) {
            Ok(p) => r matches Ok(steps) && plan_model(steps@) == p,
            Err(e) => r matches Err(actual) && actual == e,
        },
{
    let script = match load_script(text) {
        Ok(s) => s,
        Err(e) => {
            return Err(e);
        },
    };
    match op {
        Operation::Install => Ok(install_plan(&script, package)),
        Operation::Uninstall => uninstall_plan(&script, package),
    }
}

} // verus!
