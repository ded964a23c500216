// Runs with colorization forced on, in a file of its own so that the global
// override cannot race with the plain-output tests.

use sysfetch::EnvInput;
use sysfetch::Info;
use sysfetch::Snapshot;

#[test]
fn painted_pieces_carry_escape_codes() {
    colored::control::set_override(true);
    let snap = Snapshot {
        os: Some("Ubuntu 22.04".to_string()),
        kernel: Some("6.1.0".to_string()),
        host_name: Some("box".to_string()),
        cpu_brand: "TestCPU".to_string(),
        uptime_seconds: 90061,
        used_memory: 2147483648,
        total_memory: 8589934592,
    };
    let env = EnvInput {
        user: Some("alice".to_string()),
        shell: Some("/usr/bin/zsh".to_string()),
        de: Some("GNOME".to_string()),
        product_name: None,
        product_version: None,
        resolution: Some("1920,1080\n".to_string()),
    };
    let info = Info::new(&snap, &env).unwrap();
    let block = info.display();
    assert!(block.contains("\n             \u{1b}[34malice@box\u{1b}[0m\n"));
    assert!(block.contains("\n            \u{1b}[1;31m-------------------------------\u{1b}[0m\n"));
    assert!(block.contains("\n            \u{1b}[1;34mOS\u{1b}[0m: Ubuntu 22.04\n"));
    assert!(block.contains("\n            \u{1b}[1;34mMemory\u{1b}[0m: 2048 MiB / 8192 MiB\n"));
}
