use wsl_multi_launcher::config::WindowConfig;
use wsl_multi_launcher::wsl::WslLauncher;

#[test]
fn test_build_wsl_command_simple() {
    let launcher = WslLauncher::new("Ubuntu-24.04");
    let window = WindowConfig {
        name: "test".to_string(),
        command: "htop".to_string(),
        working_dir: None,
    };
    assert_eq!(launcher.build_wsl_command(&window), "htop");
}

#[test]
fn test_build_wsl_command_with_dir() {
    let launcher = WslLauncher::new("Ubuntu-24.04");
    let window = WindowConfig {
        name: "test".to_string(),
        command: "vim".to_string(),
        working_dir: Some("~/workspace".to_string()),
    };
    assert_eq!(
        launcher.build_wsl_command(&window),
        "cd $HOME/workspace && vim"
    );
}

#[test]
fn test_build_wsl_command_absolute_dir() {
    let launcher = WslLauncher::new("Ubuntu-24.04");
    let window = WindowConfig {
        name: "test".to_string(),
        command: "bash".to_string(),
        working_dir: Some("/tmp".to_string()),
    };
    assert_eq!(launcher.build_wsl_command(&window), "cd /tmp && bash");
}

#[test]
fn test_launcher_distribution() {
    let launcher = WslLauncher::new("Debian");
    assert_eq!(launcher.distribution(), "Debian");
}

#[test]
fn test_build_wsl_command_bare_tilde() {
    let launcher = WslLauncher::new("Ubuntu");
    let window = WindowConfig {
        name: "home".to_string(),
        command: "ls".to_string(),
        working_dir: Some("~".to_string()),
    };
    assert_eq!(launcher.build_wsl_command(&window), "cd $HOME && ls");
}
