use easyray::config::{config_path, home_var, Backend};

#[test]
fn window_reads_homepath() {
    assert_eq!(home_var(Backend::Ray, false), "HOMEPATH");
    assert_eq!(home_var(Backend::Ray, true), "HOMEPATH");
}

#[test]
fn terminal_reads_home_off_windows() {
    assert_eq!(home_var(Backend::Tui, false), "HOME");
    assert_eq!(home_var(Backend::Tui, true), "HOMEPATH");
}

#[test]
fn window_state_file_under_config() {
    assert_eq!(config_path(Backend::Ray, "/home/ann", "Snake"), "/home/ann/.config/Snake");
}

#[test]
fn terminal_state_file_is_hidden_in_home() {
    assert_eq!(config_path(Backend::Tui, "/home/ann", "Words"), "/home/ann/.Words");
}

#[test]
fn empty_home_and_title() {
    assert_eq!(config_path(Backend::Ray, "", ""), "/.config/");
    assert_eq!(config_path(Backend::Tui, "", ""), "/.");
}
