use sysfetch::decompose_uptime;
use sysfetch::Info;
use sysfetch::InfoError;
use sysfetch::Snapshot;

#[test]
fn uptime_example() {
    assert_eq!(decompose_uptime(90061), (1, 1, 1));
    assert_eq!(
        Info::get_uptime(90061),
        "1 days 1 hours 1 minutes (90061 seconds)"
    );
}

#[test]
fn uptime_zero() {
    assert_eq!(decompose_uptime(0), (0, 0, 0));
    assert_eq!(Info::get_uptime(0), "0 days 0 hours 0 minutes (0 seconds)");
}

#[test]
fn uptime_just_below_next_minute() {
    assert_eq!(decompose_uptime(119), (0, 0, 1));
    assert_eq!(Info::get_uptime(119), "0 days 0 hours 1 minutes (119 seconds)");
}

#[test]
fn uptime_large_total_reported_unchanged() {
    let u: u64 = 3 * 86400 + 23 * 3600 + 59 * 60 + 59;
    assert_eq!(decompose_uptime(u), (3, 23, 59));
    assert_eq!(
        Info::get_uptime(u),
        "3 days 23 hours 59 minutes (345599 seconds)"
    );
}

#[test]
fn memory_example() {
    assert_eq!(
        Info::get_memory(2147483648, 8589934592),
        "2048 MiB / 8192 MiB"
    );
}

#[test]
fn memory_rounds_down() {
    assert_eq!(Info::get_memory(1048575, 1048577), "0 MiB / 1 MiB");
}

#[test]
fn resolution_example() {
    assert_eq!(
        Info::get_resolution(&Some("1920,1080\n".to_string())),
        Ok("1920x1080".to_string())
    );
}

#[test]
fn resolution_extra_fields_ignored() {
    assert_eq!(
        Info::get_resolution(&Some("800,600,32\n".to_string())),
        Ok("800x600".to_string())
    );
}

#[test]
fn resolution_reformats_numerals() {
    assert_eq!(
        Info::get_resolution(&Some("0012,+5\n".to_string())),
        Ok("12x5".to_string())
    );
}

#[test]
fn resolution_no_comma_fails() {
    assert_eq!(
        Info::get_resolution(&Some("1920x1080\n".to_string())),
        Err(InfoError::ResolutionMalformed)
    );
}

#[test]
fn resolution_non_numeric_fails() {
    assert_eq!(
        Info::get_resolution(&Some("abc,def\n".to_string())),
        Err(InfoError::ResolutionMalformed)
    );
}

#[test]
fn resolution_inner_space_fails() {
    assert_eq!(
        Info::get_resolution(&Some("1920, 1080\n".to_string())),
        Err(InfoError::ResolutionMalformed)
    );
}

#[test]
fn resolution_out_of_range_fails() {
    assert_eq!(
        Info::get_resolution(&Some("4294967296,1\n".to_string())),
        Err(InfoError::ResolutionMalformed)
    );
}

#[test]
fn resolution_unreadable_fails() {
    assert_eq!(
        Info::get_resolution(&None),
        Err(InfoError::ResolutionUnreadable)
    );
}

#[test]
fn shell_name_zsh() {
    assert_eq!(
        Info::get_shell_version(&Some("/usr/bin/zsh".to_string())),
        Ok("zsh".to_string())
    );
}

#[test]
fn shell_name_sh() {
    assert_eq!(
        Info::get_shell_version(&Some("/bin/sh".to_string())),
        Ok("sh".to_string())
    );
}

#[test]
fn shell_name_without_separator() {
    assert_eq!(
        Info::get_shell_version(&Some("bash".to_string())),
        Ok("bash".to_string())
    );
}

#[test]
fn shell_unset_fails() {
    assert_eq!(Info::get_shell_version(&None), Err(InfoError::ShellUnset));
}

#[test]
fn de_passes_value_through() {
    assert_eq!(
        Info::get_de(&Some("GNOME".to_string())),
        Ok("GNOME".to_string())
    );
}

#[test]
fn de_unset_fails() {
    assert_eq!(Info::get_de(&None), Err(InfoError::DeUnset));
}

#[test]
fn host_both_files_unreadable_gives_single_space() {
    assert_eq!(Info::get_host(&None, &None), " ");
}

#[test]
fn host_trims_and_joins() {
    assert_eq!(
        Info::get_host(&Some("  MyBoard\n".to_string()), &Some("\t1.0 \n".to_string())),
        "MyBoard 1.0"
    );
}

#[test]
fn host_one_file_unreadable() {
    assert_eq!(Info::get_host(&Some("Board\n".to_string()), &None), "Board ");
}

#[test]
fn current_user_joins_with_at() {
    assert_eq!(
        Info::current_user(&Some("alice".to_string()), &Some("box".to_string())),
        "alice@box"
    );
}

#[test]
fn current_user_fallbacks() {
    assert_eq!(Info::current_user(&None, &None), "<unknown>@<unknown>");
}

#[test]
fn kernel_fallback() {
    assert_eq!(Info::get_kernel_version(&None), "<unknown>");
    assert_eq!(
        Info::get_kernel_version(&Some("6.1.0".to_string())),
        "6.1.0"
    );
}

#[test]
fn cpu_taken_from_snapshot() {
    let snap = Snapshot {
        os: None,
        kernel: None,
        host_name: None,
        cpu_brand: "TestCPU".to_string(),
        uptime_seconds: 0,
        used_memory: 0,
        total_memory: 0,
    };
    assert_eq!(Info::get_cpu(&snap), "TestCPU");
}
