use chaos_engine::commands::cmd::{CommandType, ExitCmd, EXIT_CMD};
use chaos_engine::commands::manager::ChaosCmdManager;

const JUMP: CommandType = 5;

#[test]
fn new_command_manager_has_no_commands() {
    let mut cmd_man = ChaosCmdManager::<String>::new();
    assert!(!cmd_man.has_command(EXIT_CMD));
    assert!(!cmd_man.has_command(JUMP));
    assert!(cmd_man.get_render_commands().is_empty());
}

#[test]
fn raised_command_is_found_until_commands_are_cleared() {
    let mut cmd_man = ChaosCmdManager::<String>::new();
    cmd_man.add_command(JUMP);
    assert!(cmd_man.has_command(JUMP));
    assert!(!cmd_man.has_command(EXIT_CMD));
    cmd_man.add_command_raw(EXIT_CMD);
    assert!(cmd_man.has_command(EXIT_CMD));
    cmd_man.clear_commands();
    assert!(!cmd_man.has_command(JUMP));
    assert!(!cmd_man.has_command(EXIT_CMD));
}

#[test]
fn render_commands_keep_their_order() {
    let mut cmd_man = ChaosCmdManager::new();
    cmd_man.add_render_command(String::from("ground"));
    cmd_man.add_render_command(String::from("ship"));
    cmd_man.add_command(JUMP);
    assert_eq!(*cmd_man.get_render_commands(), vec![String::from("ground"), String::from("ship")]);
    for render_cmd in cmd_man.get_render_commands().iter_mut() {
        render_cmd.push('!');
    }
    assert_eq!(*cmd_man.get_render_commands(), vec![String::from("ground!"), String::from("ship!")]);
    cmd_man.clear_render_commands();
    assert!(cmd_man.get_render_commands().is_empty());
    assert!(cmd_man.has_command(JUMP));
}

#[test]
fn exit_command_can_be_made() {
    let _exit = ExitCmd {};
    assert_eq!(EXIT_CMD, 0);
}
