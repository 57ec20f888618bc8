use adoptium_jdk::platform::{HostArch, HostEnvironment, HostLibc, HostOs};
use adoptium_jdk::proto::{executables_dir, locate_executables};

fn env(os: HostOs) -> HostEnvironment {
    HostEnvironment { os, arch: HostArch::X64, libc: HostLibc::Gnu }
}

#[test]
fn linux_executables_live_under_bin() {
    let exes = locate_executables(&env(HostOs::Linux));
    assert_eq!(exes.len(), 5);
    assert_eq!(exes[0].name, "java");
    assert!(exes[0].primary);
    assert_eq!(exes[0].path, "bin/java");
    assert_eq!(exes[1].name, "javac");
    assert!(!exes[1].primary);
    assert_eq!(exes[2].name, "javadoc");
    assert_eq!(exes[3].name, "jar");
    assert_eq!(exes[4].name, "keytool");
    assert_eq!(exes[4].path, "bin/keytool");
    assert_eq!(executables_dir(&env(HostOs::Linux)), "bin");
}

#[test]
fn mac_executables_live_under_contents_home() {
    let exes = locate_executables(&env(HostOs::MacOs));
    assert_eq!(exes[0].path, "Contents/Home/bin/java");
    assert_eq!(exes[3].path, "Contents/Home/bin/jar");
    assert_eq!(executables_dir(&env(HostOs::MacOs)), "Contents/Home/bin");
}

#[test]
fn windows_executables_carry_exe_suffix() {
    let exes = locate_executables(&env(HostOs::Windows));
    assert_eq!(exes[0].path, "bin/java.exe");
    assert_eq!(exes[0].name, "java");
    assert_eq!(exes[2].path, "bin/javadoc.exe");
    assert_eq!(executables_dir(&env(HostOs::Windows)), "bin");
}
