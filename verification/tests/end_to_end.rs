use sysfetch::EnvInput;
use sysfetch::Info;
use sysfetch::InfoError;
use sysfetch::Snapshot;

fn fixed_snapshot() -> Snapshot {
    Snapshot {
        os: Some("Ubuntu 22.04".to_string()),
        kernel: Some("6.1.0".to_string()),
        host_name: Some("box".to_string()),
        cpu_brand: "TestCPU".to_string(),
        uptime_seconds: 90061,
        used_memory: 2147483648,
        total_memory: 8589934592,
    }
}

fn fixed_env() -> EnvInput {
    EnvInput {
        user: Some("alice".to_string()),
        shell: Some("/usr/bin/zsh".to_string()),
        de: Some("GNOME".to_string()),
        product_name: Some(" MyBoard\n".to_string()),
        product_version: Some(" 1.0 \n".to_string()),
        resolution: Some("1920,1080\n".to_string()),
    }
}

#[test]
fn record_fully_populated() {
    let info = Info::new(&fixed_snapshot(), &fixed_env()).unwrap();
    assert_eq!(info.current_user_host, "alice@box");
    assert_eq!(info.os, "Ubuntu 22.04");
    assert_eq!(info.host, "MyBoard 1.0");
    assert_eq!(info.kernel, "6.1.0");
    assert_eq!(info.uptime, "1 days 1 hours 1 minutes (90061 seconds)");
    assert_eq!(info.shell, "zsh");
    assert_eq!(info.resolution, "1920x1080");
    assert_eq!(info.de, "GNOME");
    assert_eq!(info.cpu, "TestCPU");
    assert_eq!(info.memory, "2048 MiB / 8192 MiB");
}

#[test]
fn record_fallbacks_without_abort() {
    let snap = Snapshot {
        os: None,
        kernel: None,
        host_name: None,
        cpu_brand: "TestCPU".to_string(),
        uptime_seconds: 0,
        used_memory: 0,
        total_memory: 0,
    };
    let mut env = fixed_env();
    env.user = None;
    env.product_name = None;
    env.product_version = None;
    let info = Info::new(&snap, &env).unwrap();
    assert_eq!(info.current_user_host, "<unknown>@<unknown>");
    assert_eq!(info.os, "<unknown>");
    assert_eq!(info.kernel, "<unknown>");
    assert_eq!(info.host, " ");
}

#[test]
fn shell_failure_comes_first() {
    let mut env = fixed_env();
    env.shell = None;
    env.de = None;
    env.resolution = None;
    assert!(matches!(
        Info::new(&fixed_snapshot(), &env),
        Err(InfoError::ShellUnset)
    ));
}

#[test]
fn resolution_failure_before_de() {
    let mut env = fixed_env();
    env.de = None;
    env.resolution = Some("oops".to_string());
    assert!(matches!(
        Info::new(&fixed_snapshot(), &env),
        Err(InfoError::ResolutionMalformed)
    ));
}

#[test]
fn de_failure_last() {
    let mut env = fixed_env();
    env.de = None;
    assert!(matches!(
        Info::new(&fixed_snapshot(), &env),
        Err(InfoError::DeUnset)
    ));
}

#[test]
fn rendered_block_is_stable() {
    colored::control::set_override(false);
    let info = Info::new(&fixed_snapshot(), &fixed_env()).unwrap();
    let block = info.display();
    let expected = "\n             alice@box\
                    \n            -------------------------------\
                    \n            OS: Ubuntu 22.04\
                    \n            Host: MyBoard 1.0\
                    \n            Kernel: 6.1.0\
                    \n            Uptime: 1 days 1 hours 1 minutes (90061 seconds)\
                    \n            Shell: zsh\
                    \n            Resolution: 1920x1080\
                    \n            DE: GNOME\
                    \n            CPU: TestCPU\
                    \n            Memory: 2048 MiB / 8192 MiB\
                    \n            \n";
    assert_eq!(block, expected);
}
