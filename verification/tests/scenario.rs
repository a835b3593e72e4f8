use nonefly::instance::{provision_outcome, resolve_start, Instance, ProvisionAction, ProvisionStage};
use nonefly::storage::{load_instance, save_instance, Store};

#[test]
fn create_save_load_start_end_to_end() {
    // Create an instance bound to its working directory.
    let instance = Instance::new("/tmp/bot1".to_string());

    // Provisioning: the four stage actions are performed and all succeed.
    match instance.provision_action(ProvisionStage::Directory) {
        Some(ProvisionAction::CreateDirectories { path }) => assert_eq!(path, "/tmp/bot1"),
        _ => panic!("expected a directory-creation action"),
    }
    match instance.provision_action(ProvisionStage::Entrypoint) {
        Some(ProvisionAction::WriteEntrypoint { path }) => assert_eq!(path, "/tmp/bot1/bot.py"),
        _ => panic!("expected an entrypoint write"),
    }
    assert_eq!(provision_outcome(&vec![true, true, true, true]), Ok(()));

    // The persistence write happens only after provisioning succeeded.
    let mut store = Store::new();
    let id = save_instance(&mut store, &"bot1".to_string(), &instance);
    assert_eq!(id, 1);

    // Every start request loads the record afresh by id.
    let loaded = load_instance(&store, 1).expect("the saved instance must load");
    assert_eq!(loaded.working_directory().as_str(), "/tmp/bot1");

    // The start is detached: the caller gets the launch plan at once and
    // nothing here waits for the spawned process to exit.
    let plan = resolve_start(Some(loaded)).expect("a stored instance must start");
    assert_eq!(plan.program, "sh");
    assert_eq!(plan.args, vec!["-c".to_string(), ". env/bin/activate && python bot.py".to_string()]);
    assert_eq!(plan.cwd, "/tmp/bot1");
}
