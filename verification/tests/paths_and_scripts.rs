use tinyinstallj::path_var::append_to_path_var;
use tinyinstallj::paths::{first_true, get_install_paths, install_paths_for, join_path, program_path_candidates, InstallPaths};
use tinyinstallj::platform::Os;
use tinyinstallj::scripts::{
    create_app_link, create_runner_script, create_uninstall_script, desktop_entry_contents, install_jar,
    runner_script_contents, saved_jar_file_name, shortcut_script, AppLink,
};
use tinyinstallj::utils::{
    create_dir_failed_message, download_failed_message, executable_bit_result, install_error_title,
    installed_message, not_admin_message, path_append_failed_message, uninstall_instructions, write_failed_message,
};

fn unix_paths() -> InstallPaths {
    install_paths_for(Os::Linux, None, "/home/me/.config").unwrap()
}

#[test]
fn joins_paths() {
    assert_eq!(join_path(Os::Linux, "/usr/bin/", "x"), "/usr/bin/x");
    assert_eq!(join_path(Os::Linux, "/usr/share/applications", "x.desktop"), "/usr/share/applications/x.desktop");
    assert_eq!(join_path(Os::Linux, "", "x"), "x");
    assert_eq!(join_path(Os::Linux, "/a", "/b"), "/b");
    assert_eq!(join_path(Os::Windows, "C:\\Users\\me", "progs"), "C:\\Users\\me\\progs");
    assert_eq!(join_path(Os::Windows, "C:\\Users\\me\\", "progs"), "C:\\Users\\me\\progs");
    assert_eq!(join_path(Os::Windows, "C:\\x", "D:\\y"), "D:\\y");
    assert_eq!(join_path(Os::Windows, "C:\\x", "D:y"), "D:y");
    assert_eq!(join_path(Os::Windows, "C:", "java.exe"), "C:java.exe");
    assert_eq!(join_path(Os::Windows, "C:\\x\\y", "\\z"), "C:\\z");
    assert_eq!(join_path(Os::Windows, "x\\y", "\\z"), "\\z");
    assert_eq!(join_path(Os::Windows, "\\\\server\\share\\dir", "\\z"), "\\\\server\\share\\z");
    assert_eq!(join_path(Os::Windows, "\\\\server\\share", "x"), "\\\\server\\share\\x");
    assert_eq!(join_path(Os::Windows, "\\\\?\\UNC\\srv\\sh\\d", "\\z"), "\\\\?\\UNC\\srv\\sh\\z");
    assert_eq!(join_path(Os::Windows, "\\\\?\\C:\\d", "\\z"), "\\\\?\\C:\\z");
    assert_eq!(join_path(Os::Windows, "\\\\.\\COM1\\d", "\\z"), "\\\\.\\COM1\\z");
    assert_eq!(join_path(Os::Windows, "C:\\x", "\\\\server\\share\\y"), "\\\\server\\share\\y");
    assert_eq!(join_path(Os::Windows, "C:\\x", "\\\\y"), "C:\\\\y");
}

#[test]
fn joins_onto_verbatim_paths() {
    assert_eq!(join_path(Os::Windows, r"\\?\C:\a", "b"), r"\\?\C:\a\b");
    assert_eq!(join_path(Os::Windows, r"\\?\C:\a\b", r"..\c"), r"\\?\C:\a\c");
    assert_eq!(join_path(Os::Windows, r"\\?\C:\a", "./x/../y"), r"\\?\C:\a\y");
    assert_eq!(join_path(Os::Windows, r"\\?\C:\a", r"\z"), r"\\?\C:\z");
    assert_eq!(join_path(Os::Windows, r"\\?\C:", "x"), r"\\?\C:\x");
    assert_eq!(join_path(Os::Windows, r"\\?\C:\a\", ""), r"\\?\C:\a\");
    assert_eq!(join_path(Os::Windows, r"\\?\C:\a\\b", "c"), r"\\?\C:\a\b\c");
    assert_eq!(join_path(Os::Windows, r"\\?\C:\a\..", r"..\c"), r"\\?\C:\a\..\c");
    assert_eq!(join_path(Os::Windows, r"\\?\UNC\srv\sh\d", "e"), r"\\?\UNC\srv\sh\d\e");
}

#[test]
fn joins_like_std_on_this_system() {
    for (base, name) in [("/usr/bin/", "x"), ("/usr/bin", "x"), ("", "x"), ("/a", "/b"), ("rel", "y.jar")] {
        let std = std::path::Path::new(base).join(name).to_string_lossy().into_owned();
        assert_eq!(join_path(Os::Linux, base, name), std);
    }
}

#[test]
fn unix_install_paths() {
    let p = unix_paths();
    assert_eq!(p.base_dir, "/usr/bin/");
    assert_eq!(p.jar, "/usr/bin/tccweather.jar");
    assert_eq!(p.runner_script, "/usr/bin/tccweather");
    assert_eq!(p.uninstall_script, "/usr/bin/tccweather-uninstall");
    assert_eq!(p.icon, "/usr/share/icons/tccweather.ico");
    assert_eq!(p.app_link, "/usr/share/applications/tccweather.desktop");
}

#[test]
fn windows_install_paths() {
    assert!(install_paths_for(Os::Windows, None, "C:\\cfg").is_none());
    let p = install_paths_for(Os::Windows, Some("C:\\Users\\me"), "C:\\Users\\me\\AppData\\Roaming").unwrap();
    assert_eq!(p.base_dir, "C:\\Users\\me\\tinyinstallj-programs");
    assert_eq!(p.jar, "C:\\Users\\me\\tinyinstallj-programs\\tccweather.jar");
    assert_eq!(p.runner_script, "C:\\Users\\me\\tinyinstallj-programs\\tccweather.bat");
    assert_eq!(p.uninstall_script, "C:\\Users\\me\\tinyinstallj-programs\\tccweather-uninstall.bat");
    assert_eq!(p.icon, "C:\\Users\\me\\tinyinstallj-programs\\tccweather.ico");
    assert_eq!(
        p.app_link,
        "C:\\Users\\me\\AppData\\Roaming\\Microsoft\\Windows\\Start Menu\\Programs\\Weather by ThatCoolCoder.lnk"
    );
}

#[test]
fn install_paths_here_do_not_depend_on_the_environment() {
    if let Some(p) = get_install_paths(Os::Linux) {
        assert_eq!(p.jar, "/usr/bin/tccweather.jar");
        assert_eq!(p.app_link, "/usr/share/applications/tccweather.desktop");
    }
}

#[test]
fn program_candidates() {
    assert_eq!(program_path_candidates(Os::Linux, "/bin:/usr/bin", "java"), vec!["/bin/java", "/usr/bin/java"]);
    assert_eq!(program_path_candidates(Os::Linux, "", "java"), vec!["java"]);
    assert_eq!(
        program_path_candidates(Os::Windows, "C:\\Java\\bin;C:\\Windows", "java.exe"),
        vec!["C:\\Java\\bin\\java.exe", "C:\\Windows\\java.exe"]
    );
    assert_eq!(program_path_candidates(Os::Windows, "C:", "java.exe"), vec!["C:java.exe"]);
}

#[test]
fn first_true_flag() {
    assert_eq!(first_true(&vec![false, true, true]), Some(1));
    assert_eq!(first_true(&vec![false, false]), None);
    assert_eq!(first_true(&vec![]), None);
}

#[test]
fn runner_scripts() {
    assert_eq!(
        runner_script_contents(Os::Linux, "/usr/bin/tccweather.jar"),
        format!("#!/bin/sh\n            java -jar \"{}\"", "/usr/bin/tccweather.jar")
    );
    assert_eq!(
        runner_script_contents(Os::Windows, "C:\\p\\a.jar"),
        format!("@ECHO OFF\n            START /B javaw -jar \"{}\"", "C:\\p\\a.jar")
    );
    let f = create_runner_script(Os::Linux, &unix_paths());
    assert_eq!(f.path, "/usr/bin/tccweather");
    assert!(f.make_executable);
    assert!(!create_runner_script(Os::Windows, &unix_paths()).make_executable);
}

#[test]
fn unix_uninstall_script() {
    let p = unix_paths();
    let f = create_uninstall_script(Os::Linux, &p);
    assert_eq!(f.path, p.uninstall_script);
    assert!(f.make_executable);
    let mut expected = String::from("#!/bin/sh\n            if [ \"$UID\" != 0 ]\n            then\n                echo \"You must be root to run this script\"\n                exit\n            fi\n            read -p \"Are you sure you want to run this uninstaller? \" -n 1 -r\n            echo \"\"\n            if [[ ! $REPLY =~ ^[y]$ ]]\n            then\n                echo \"Cancelled\"\n                exit\n            fi\n            ");
    for path in [&p.runner_script, &p.jar, &p.icon, &p.app_link, &p.uninstall_script] {
        expected += &format!("\nrm '{}'", path);
    }
    expected += "\n echo 'Finished uninstallation'";
    assert_eq!(f.contents, expected);
}

#[test]
fn windows_uninstall_script() {
    let p = install_paths_for(Os::Windows, Some("C:\\Users\\me"), "C:\\cfg").unwrap();
    let f = create_uninstall_script(Os::Windows, &p);
    assert!(!f.make_executable);
    let mut expected = String::from("@ECHO OFF");
    for path in [&p.runner_script, &p.jar, &p.icon, &p.app_link] {
        expected += &format!("\r\ndel \"{}\"", path);
    }
    expected += "\n(goto) 2>nul & del \"%~f0\"";
    expected += "\n echo 'Finished uninstallation'";
    assert_eq!(f.contents, expected);
}

#[test]
fn desktop_entry() {
    let expected = format!(
        "\n        [Desktop Entry]\n        Encoding=UTF-8\n        Version=1.0\n        Type=Application\n        Terminal={}\n        Exec=java -jar {}\n        Name={}\n        Icon={}",
        false, "/usr/bin/tccweather.jar", "Weather by ThatCoolCoder", "/usr/share/icons/tccweather.ico"
    );
    assert_eq!(desktop_entry_contents("/usr/bin/tccweather.jar", "/usr/share/icons/tccweather.ico"), expected);
    match create_app_link(Os::Linux, &unix_paths()) {
        AppLink::DesktopEntry(f) => {
            assert_eq!(f.path, "/usr/share/applications/tccweather.desktop");
            assert_eq!(f.contents, expected);
            assert!(!f.make_executable);
        }
        AppLink::PowerShell(_) => panic!("a desktop entry was expected"),
    }
}

#[test]
fn powershell_shortcut() {
    let expected = format!(
        "\n        $WshShell = New-Object -comObject WScript.Shell\n        $Shortcut = $WshShell.CreateShortcut(\"{}\")\n        $Shortcut.TargetPath = \"javaw\"\n        $Shortcut.Arguments = '-jar \"{}\"'\n        $Shortcut.IconLocation = \"{}\" \n        $Shortcut.Save()",
        "L.lnk", "J.jar", "I.ico"
    );
    assert_eq!(shortcut_script("L.lnk", "J.jar", "I.ico"), expected);
    let p = install_paths_for(Os::Windows, Some("C:\\h"), "C:\\c").unwrap();
    match create_app_link(Os::Windows, &p) {
        AppLink::PowerShell(s) => assert_eq!(s, shortcut_script(&p.app_link, &p.jar, &p.icon)),
        AppLink::DesktopEntry(_) => panic!("a PowerShell script was expected"),
    }
}

#[test]
fn jar_install_plans() {
    let l = install_jar(Os::Linux);
    assert_eq!(l.jar_path, "/usr/bin/tccweather.jar");
    assert_eq!(l.runner_script_path, "/usr/bin/tccweather");
    assert_eq!(l.runner_script_contents, "#!/bin/sh\n            java -jar /usr/bin/tccweather.jar");
    assert!(!l.set_runner_permissions);
    let w = install_jar(Os::Windows);
    assert_eq!(w.jar_path, "C:\\Program Files\\tccweather.jar");
    assert_eq!(w.runner_script_path, "C:\\Program Files\\tccweather.bat");
    assert_eq!(w.runner_script_contents, "java -jar C:\\Program Files\\tccweather.jar");
    assert!(w.set_runner_permissions);
    assert!(install_jar(Os::Other).set_runner_permissions);
    assert_eq!(saved_jar_file_name(), "tccweather.jar");
}

#[test]
fn path_variable() {
    assert_eq!(append_to_path_var("C:\\a", "C:\\b"), "C:\\a;C:\\b");
    assert_eq!(append_to_path_var("C:\\a;C:\\b", "C:\\b"), "C:\\a;C:\\b");
    assert_eq!(append_to_path_var("C:\\a;C:\\b;C:\\c", "C:\\b"), "C:\\a;C:\\b;C:\\c");
    assert_eq!(append_to_path_var("C:\\b", "C:\\b"), "C:\\b;C:\\b");
    assert_eq!(append_to_path_var("", "C:\\b"), ";C:\\b");
    let once = append_to_path_var("C:\\a", "C:\\b");
    assert_eq!(append_to_path_var(&once, "C:\\b"), once);
}

#[test]
fn chmod_outcomes() {
    assert!(executable_bit_result("/x", Some(Some(0))).is_ok());
    assert!(executable_bit_result("/x", Some(Some(-1))).is_ok());
    assert_eq!(executable_bit_result("/x", Some(Some(1))), Err("Failed changing permissions of /x".to_string()));
    assert_eq!(executable_bit_result("/x", Some(None)), Err("Failed changing permissions of /x".to_string()));
    assert_eq!(executable_bit_result("/x", None), Err("Failed changing permissions of /x".to_string()));
}

#[test]
fn messages() {
    assert_eq!(download_failed_message("http://h/a"), "Failed to download http://h/a");
    assert_eq!(create_dir_failed_message("/d"), "Failed to create directory /d");
    assert_eq!(write_failed_message("/f"), "Failed to write /f");
    assert_eq!(path_append_failed_message("C:\\b"), "Failed to add C:\\b to path");
    assert_eq!(not_admin_message(Os::Windows), "You must be an administrator to run this installer.");
    assert_eq!(not_admin_message(Os::Linux), "This installer must be run as root");
    assert_eq!(uninstall_instructions(Os::Windows, "u.bat"), "To uninstall Weather by ThatCoolCoder, run u.bat");
    assert_eq!(uninstall_instructions(Os::Other, "/u"), "To uninstall Weather by ThatCoolCoder, run /u as root");
    assert_eq!(installed_message(), "Weather by ThatCoolCoder has been installed as \"tccweather\"");
    assert_eq!(install_error_title(), "Error installing Weather by ThatCoolCoder");
}

#[test]
fn program_files_live_in_install_directory() {
    let p = unix_paths();
    for f in [&p.jar, &p.runner_script, &p.uninstall_script] {
        assert!(f.starts_with(&p.base_dir));
    }
    let w = install_paths_for(Os::Windows, Some("C:\\Users\\me"), "C:\\cfg").unwrap();
    for f in [&w.jar, &w.runner_script, &w.uninstall_script, &w.icon] {
        assert!(f.starts_with(&w.base_dir));
    }
}
