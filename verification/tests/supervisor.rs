use launcher_core::supervisor::Platform;
use launcher_core::supervisor::SpawnError;
use launcher_core::supervisor::spawn_command;

#[test]
fn macos_spawns_node_with_server_script() {
    let c = spawn_command(Platform::MacOs);
    assert_eq!(c.executable, "node");
    assert_eq!(c.arg, "server.js");
    assert_eq!(c.working_dir, "../");
}

#[test]
fn linux_spawns_node_with_server_script() {
    let c = spawn_command(Platform::Linux);
    assert_eq!(c.executable, "node");
    assert_eq!(c.arg, "server.js");
    assert_eq!(c.working_dir, "../");
}

#[test]
fn windows_spawns_node_exe_with_server_script() {
    let c = spawn_command(Platform::Windows);
    assert_eq!(c.executable, "node.exe");
    assert_eq!(c.arg, "server.js");
    assert_eq!(c.working_dir, "../");
}

#[test]
fn spawn_error_keeps_the_reported_reason() {
    let e = SpawnError::new(String::from("No such file or directory"));
    assert_eq!(e.describe(), "No such file or directory");
}
