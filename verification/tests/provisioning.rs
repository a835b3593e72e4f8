use nonefly::errors::{ProvisionError, StartError};
use nonefly::instance::{
    provision_advance, provision_outcome, resolve_start, Instance, ProvisionAction, ProvisionStage,
};

#[test]
fn directory_action_is_the_working_directory() {
    let instance = Instance::new("bots/alpha".to_string());
    match instance.provision_action(ProvisionStage::Directory) {
        Some(ProvisionAction::CreateDirectories { path }) => assert_eq!(path, "bots/alpha"),
        _ => panic!("expected a directory-creation action"),
    }
}

#[test]
fn environment_action_runs_the_interpreter() {
    let instance = Instance::new("bots/alpha".to_string());
    match instance.provision_action(ProvisionStage::Environment) {
        Some(ProvisionAction::RunCommand { plan }) => {
            assert_eq!(plan.program, "python");
            assert_eq!(plan.args, vec!["-m".to_string(), "venv".to_string(), "env".to_string()]);
            assert_eq!(plan.cwd, "bots/alpha");
        }
        _ => panic!("expected a command"),
    }
}

#[test]
fn dependency_action_installs_the_fixed_set() {
    let instance = Instance::new("bots/alpha".to_string());
    match instance.provision_action(ProvisionStage::Dependencies) {
        Some(ProvisionAction::RunCommand { plan }) => {
            assert_eq!(plan.program, "sh");
            assert_eq!(
                plan.args,
                vec![
                    "-c".to_string(),
                    ". env/bin/activate && pip install nonebot2[fastapi]".to_string()
                ]
            );
            assert_eq!(plan.cwd, "bots/alpha");
        }
        _ => panic!("expected a command"),
    }
}

#[test]
fn entrypoint_action_targets_the_fixed_filename() {
    let instance = Instance::new("bots/alpha".to_string());
    match instance.provision_action(ProvisionStage::Entrypoint) {
        Some(ProvisionAction::WriteEntrypoint { path }) => assert_eq!(path, "bots/alpha/bot.py"),
        _ => panic!("expected an entrypoint write"),
    }
}

#[test]
fn nothing_to_do_once_done() {
    let instance = Instance::new("bots/alpha".to_string());
    assert!(instance.provision_action(ProvisionStage::Done).is_none());
}

#[test]
fn advance_maps_each_failure_to_its_error() {
    assert_eq!(
        provision_advance(ProvisionStage::Directory, false),
        Err(ProvisionError::FilesystemFailed)
    );
    assert_eq!(
        provision_advance(ProvisionStage::Environment, false),
        Err(ProvisionError::EnvironmentCreationFailed)
    );
    assert_eq!(
        provision_advance(ProvisionStage::Dependencies, false),
        Err(ProvisionError::DependencyInstallFailed)
    );
    assert_eq!(
        provision_advance(ProvisionStage::Entrypoint, false),
        Err(ProvisionError::FilesystemFailed)
    );
}

#[test]
fn advance_walks_the_stages_in_order() {
    assert_eq!(provision_advance(ProvisionStage::Directory, true), Ok(ProvisionStage::Environment));
    assert_eq!(
        provision_advance(ProvisionStage::Environment, true),
        Ok(ProvisionStage::Dependencies)
    );
    assert_eq!(
        provision_advance(ProvisionStage::Dependencies, true),
        Ok(ProvisionStage::Entrypoint)
    );
    assert_eq!(provision_advance(ProvisionStage::Entrypoint, true), Ok(ProvisionStage::Done));
}

#[test]
fn run_succeeds_when_every_stage_does() {
    assert_eq!(provision_outcome(&vec![true, true, true, true]), Ok(()));
}

#[test]
fn run_aborts_at_the_first_failure() {
    assert_eq!(
        provision_outcome(&vec![false, true, true, true]),
        Err(ProvisionError::FilesystemFailed)
    );
    assert_eq!(
        provision_outcome(&vec![true, false, true, true]),
        Err(ProvisionError::EnvironmentCreationFailed)
    );
    assert_eq!(
        provision_outcome(&vec![true, true, false, true]),
        Err(ProvisionError::DependencyInstallFailed)
    );
    assert_eq!(
        provision_outcome(&vec![true, true, true, false]),
        Err(ProvisionError::FilesystemFailed)
    );
}

#[test]
fn reprovisioning_does_not_fail_at_the_directory_step() {
    // On an already-provisioned path the directory step succeeds again
    // (creating nothing), so a second full run looks exactly like the first.
    let first = provision_outcome(&vec![true, true, true, true]);
    let second = provision_outcome(&vec![true, true, true, true]);
    assert_eq!(first, Ok(()));
    assert_eq!(second, Ok(()));
    let instance = Instance::new("bots/alpha".to_string());
    let once = instance.provision_action(ProvisionStage::Directory);
    let twice = instance.provision_action(ProvisionStage::Directory);
    match (once, twice) {
        (
            Some(ProvisionAction::CreateDirectories { path: first_path }),
            Some(ProvisionAction::CreateDirectories { path: second_path }),
        ) => assert_eq!(first_path, second_path),
        _ => panic!("expected directory-creation actions"),
    }
}

#[test]
fn start_of_a_missing_instance_is_refused() {
    match resolve_start(None) {
        Err(e) => assert_eq!(e, StartError::InstanceNotFound),
        Ok(_) => panic!("a missing instance must not start"),
    }
}

#[test]
fn start_plan_is_the_detached_launch() {
    let instance = Instance::new("bots/alpha".to_string());
    let plan = instance.start_plan();
    assert_eq!(plan.program, "sh");
    assert_eq!(
        plan.args,
        vec!["-c".to_string(), ". env/bin/activate && python bot.py".to_string()]
    );
    assert_eq!(plan.cwd, "bots/alpha");
}
