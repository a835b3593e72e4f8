use vstd::prelude::*;

use crate::errors::{ProvisionError, StartError};

verus! {

/// One managed deployment of the bot runtime, bound to a working directory.
/// The working directory is the only configuration an instance carries: the
/// commands that provision and relaunch it are fixed conventions over it.
pub struct Instance {
    working_directory: String,
}

impl View for Instance {
    type V = Seq<char>;

    closed spec fn view(&self) -> Seq<char> {
        self.working_directory@
    }
}

impl Clone for Instance {
    fn clone(&self) -> (res: Self)
        ensures
            res == *self,
    {
        Instance { working_directory: self.working_directory.clone() }
    }
}

/// A fully determined process invocation: a program, its arguments, and the
/// directory it runs in.
pub struct CommandPlan {
    pub program: String,
    pub args: Vec<String>,
    pub cwd: String,
}

impl View for CommandPlan {
    type V = (Seq<char>, Seq<Seq<char>>, Seq<char>);

    open spec fn view(&self) -> Self::V {
        (self.program@, self.args@.map_values(|a: String| a@), self.cwd@)
    }
}

/// The fixed detached-launch invocation for an instance with the given
/// working directory: activate the isolated environment, run the entrypoint.
pub open spec fn start_plan_spec(wd: Seq<char>) -> (Seq<char>, Seq<Seq<char>>, Seq<char>) {
    ("sh"@, seq!["-c"@, ". env/bin/activate && python bot.py"@], wd)
}

impl Instance {
    pub fn new(working_directory: String) -> (r: Self)
        ensures
            r@ == working_directory@,
    {
        Self { working_directory }
    }

    /// The working directory this instance is bound to.
    pub fn working_directory(&self) -> (r: &String)
        ensures
            r@ == self@,
    {
        &self.working_directory
    }

    /// The command that launches this instance detached: the caller spawns
    /// it and does not wait for it to exit.
    pub fn start_plan(&self) -> (r: CommandPlan)
        ensures
            r@ == start_plan_spec(self@),
    {
        let mut args: Vec<String> = Vec::new();
        args.push(String::from_str("-c"));
        args.push(String::from_str(". env/bin/activate && python bot.py"));
        let r = CommandPlan {
            program: String::from_str("sh"),
            args,
            cwd: self.working_directory.clone(),
        };
        proof {
            assert(r@.1 =~= start_plan_spec(self@).1);
        }
        r
    }
}

/// The ordered steps of provisioning, each a hard failure point: a single
/// failure aborts the whole operation.
#[derive(Clone, Copy, Debug, PartialEq, Eq, Structural)]
pub enum ProvisionStage {
    /// Ensure the working directory and all missing ancestors exist.
    Directory,
    /// Create the isolated runtime environment with the external interpreter.
    Environment,
    /// Install the fixed dependency set into the activated environment.
    Dependencies,
    /// Materialize the fixed entrypoint file into the working directory.
    Entrypoint,
    /// Provisioning is complete.
    Done,
}

/// What the caller must do at one provisioning stage. The caller performs
/// the action and reports whether it succeeded; the machine decides what
/// follows.
pub enum ProvisionAction {
    /// Create this directory and all missing ancestors, succeeding when they
    /// already exist.
    CreateDirectories { path: String },
    /// Run this command synchronously, blocking until it exits; a non-zero
    /// exit is a failure.
    RunCommand { plan: CommandPlan },
    /// Write the bundled entrypoint source to this path, overwriting any
    /// existing file of that name.
    WriteEntrypoint { path: String },
}

/// The fixed invocation that creates the isolated runtime environment inside
/// the working directory.
pub open spec fn environment_plan_spec(wd: Seq<char>) -> (Seq<char>, Seq<Seq<char>>, Seq<char>) {
    ("python"@, seq!["-m"@, "venv"@, "env"@], wd)
}

/// The fixed invocation that activates the environment and installs the
/// dependency set into it.
pub open spec fn install_plan_spec(wd: Seq<char>) -> (Seq<char>, Seq<Seq<char>>, Seq<char>) {
    ("sh"@, seq!["-c"@, ". env/bin/activate && pip install nonebot2[fastapi]"@], wd)
}

impl Instance {
    /// The action of one provisioning stage for this instance. The same
    /// stage always yields the same action: re-running a stage asks for the
    /// very same work.
    pub fn provision_action(&self, stage: ProvisionStage) -> (r: Option<ProvisionAction>)
        ensures
            (match stage {
                ProvisionStage::Directory => r matches Some(
                    ProvisionAction::CreateDirectories { path },
                ) && path@ == self@,
                ProvisionStage::Environment => r matches Some(ProvisionAction::RunCommand { plan })
                    && plan@ == environment_plan_spec(self@),
                ProvisionStage::Dependencies => r matches Some(
                    ProvisionAction::RunCommand { plan },
                ) && plan@ == install_plan_spec(self@),
                ProvisionStage::Entrypoint => r matches Some(
                    ProvisionAction::WriteEntrypoint { path },
                ) && path@ == self@ + "/bot.py"@,
                ProvisionStage::Done => r is None,
            }),
    {
        match stage {
            ProvisionStage::Directory => Some(
                ProvisionAction::CreateDirectories { path: self.working_directory.clone() },
            ),
            ProvisionStage::Environment => {
                let mut args: Vec<String> = Vec::new();
                args.push(String::from_str("-m"));
                args.push(String::from_str("venv"));
                args.push(String::from_str("env"));
                let plan = CommandPlan {
                    program: String::from_str("python"),
                    args,
                    cwd: self.working_directory.clone(),
                };
                proof {
                    assert(plan@.1 =~= environment_plan_spec(self@).1);
                }
                Some(ProvisionAction::RunCommand { plan })
            },
            ProvisionStage::Dependencies => {
                let mut args: Vec<String> = Vec::new();
                args.push(String::from_str("-c"));
                args.push(String::from_str(". env/bin/activate && pip install nonebot2[fastapi]"));
                let plan = CommandPlan {
                    program: String::from_str("sh"),
                    args,
                    cwd: self.working_directory.clone(),
                };
                proof {
                    assert(plan@.1 =~= install_plan_spec(self@).1);
                }
                Some(ProvisionAction::RunCommand { plan })
            },
            ProvisionStage::Entrypoint => Some(
                ProvisionAction::WriteEntrypoint {
                    path: self.working_directory.clone().concat("/bot.py"),
                },
            ),
            ProvisionStage::Done => None,
        }
    }
}

/// The stage after `stage`, given whether its action succeeded. A failure
/// maps the stage to its error and aborts the run: tool failures fail
/// loudly, and nothing past the failing stage runs.
pub open spec fn advance_spec(stage: ProvisionStage, ok: bool) -> Result<
    ProvisionStage,
    ProvisionError,
> {
    match stage {
        ProvisionStage::Directory => if ok {
            Ok(ProvisionStage::Environment)
        } else {
            Err(ProvisionError::FilesystemFailed)
        },
        ProvisionStage::Environment => if ok {
            Ok(ProvisionStage::Dependencies)
        } else {
            Err(ProvisionError::EnvironmentCreationFailed)
        },
        ProvisionStage::Dependencies => if ok {
            Ok(ProvisionStage::Entrypoint)
        } else {
            Err(ProvisionError::DependencyInstallFailed)
        },
        ProvisionStage::Entrypoint => if ok {
            Ok(ProvisionStage::Done)
        } else {
            Err(ProvisionError::FilesystemFailed)
        },
        ProvisionStage::Done => Ok(ProvisionStage::Done),
    }
}

/// Advances the provisioning state machine by one stage outcome.
pub fn provision_advance(stage: ProvisionStage, ok: bool) -> (r: Result<
    ProvisionStage,
    ProvisionError,
>)
    ensures
        r == advance_spec(stage, ok),
{
    match stage {
        ProvisionStage::Directory => if ok {
            Ok(ProvisionStage::Environment)
        } else {
            Err(ProvisionError::FilesystemFailed)
        },
        ProvisionStage::Environment => if ok {
            Ok(ProvisionStage::Dependencies)
        } else {
            Err(ProvisionError::EnvironmentCreationFailed)
        },
        ProvisionStage::Dependencies => if ok {
            Ok(ProvisionStage::Entrypoint)
        } else {
            Err(ProvisionError::DependencyInstallFailed)
        },
        ProvisionStage::Entrypoint => if ok {
            Ok(ProvisionStage::Done)
        } else {
            Err(ProvisionError::FilesystemFailed)
        },
        ProvisionStage::Done => Ok(ProvisionStage::Done),
    }
}

/// The stage at which a provisioning run first fails, given the outcome of
/// each stage's action in order, or nothing when every stage succeeds.
pub open spec fn first_failing_stage(outcomes: Seq<bool>) -> Option<ProvisionStage>
    recommends
        outcomes.len() == 4,
{
    if !outcomes[0] {
        Some(ProvisionStage::Directory)
    } else if !outcomes[1] {
        Some(ProvisionStage::Environment)
    } else if !outcomes[2] {
        Some(ProvisionStage::Dependencies)
    } else if !outcomes[3] {
        Some(ProvisionStage::Entrypoint)
    } else {
        None
    }
}

/// What a whole provisioning run yields for the given stage outcomes.
pub open spec fn provision_result_spec(outcomes: Seq<bool>) -> Result<(), ProvisionError>
    recommends
        outcomes.len() == 4,
{
    match first_failing_stage(outcomes) {
        Some(stage) => match advance_spec(stage, false) {
            Ok(_) => Ok(()),
            Err(e) => Err(e),
        },
        None => Ok(()),
    }
}

/// Folds the provisioning state machine over the outcomes of the four stage
/// actions, in order: the run aborts at the first failure with that stage's
/// error, and otherwise completes.
pub fn provision_outcome(outcomes: &Vec<bool>) -> (r: Result<(), ProvisionError>)
    requires
        outcomes@.len() == 4,
    ensures
        r == provision_result_spec(outcomes@),
        r is Err <==> first_failing_stage(outcomes@) is Some,
{
    let mut stage = ProvisionStage::Directory;
    let mut i: usize = 0;
    while i < 4
        invariant
            i <= 4,
            outcomes@.len() == 4,
            forall|j: int| 0 <= j < i ==> outcomes@[j],
            stage == (if i == 0 {
                ProvisionStage::Directory
            } else if i == 1 {
                ProvisionStage::Environment
            } else if i == 2 {
                ProvisionStage::Dependencies
            } else if i == 3 {
                ProvisionStage::Entrypoint
            } else {
                ProvisionStage::Done
            }),
        decreases 4 - i,
    {
        stage = match provision_advance(stage, outcomes[i]) {
            Ok(next) => next,
            Err(e) => {
                return Err(e);
            },
        };
        i += 1;
    }
    Ok(())
}

/// Law: provisioning is idempotent at the directory-creation step. That
/// step creates the directory and all missing ancestors and succeeds when
/// they already exist, so on a fully provisioned path its outcome is
/// success, and a repeated run never fails at that step — though every later
/// step still runs and may fail on its own.
pub proof fn lemma_directory_step_idempotent(outcomes: Seq<bool>)
    requires
        outcomes.len() == 4,
        outcomes[0],
    ensures
        first_failing_stage(outcomes) != Some(ProvisionStage::Directory),
        (forall|j: int| 0 <= j < 4 ==> outcomes[j]) ==> provision_result_spec(outcomes) is Ok,
{
}

/// The start request's decision: an instance that was never stored cannot be
/// started; a stored one is relaunched by its fixed detached-launch command.
pub fn resolve_start(loaded: Option<Instance>) -> (r: Result<CommandPlan, StartError>)
    ensures
        loaded is None ==> r == Err::<CommandPlan, StartError>(StartError::InstanceNotFound),
        loaded matches Some(inst) ==> r matches Ok(plan) && plan@ == start_plan_spec(inst@),
{
    match loaded {
        Some(inst) => Ok(inst.start_plan()),
        None => Err(StartError::InstanceNotFound),
    }
}

} // verus!
