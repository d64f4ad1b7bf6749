use probationdesk::wmic::{
    get_pids_with_args_from_wmic_output, get_pids_with_first_arg_check_session,
    get_pids_with_first_arg_from_wmic_output,
};

#[test]
fn test_get_pids_with_args_from_wmic_output() {
    let output = r#"
CommandLine=
ProcessId=33796

CommandLine=
ProcessId=34668

CommandLine="C:\Program Files\testapp\TestApp.exe" --tray
ProcessId=13728

CommandLine="C:\Program Files\testapp\TestApp.exe"
ProcessId=10136
"#;
    let name = "testapp.exe";
    let args = vec!["--tray"];
    let pids = get_pids_with_args_from_wmic_output(output, name, &args);
    assert_eq!(pids.len(), 1);
    assert_eq!(pids[0], 13728);

    let args: Vec<&str> = vec![];
    let pids = get_pids_with_args_from_wmic_output(output, name, &args);
    assert_eq!(pids.len(), 1);
    assert_eq!(pids[0], 10136);

    let args = vec!["--other"];
    let pids = get_pids_with_args_from_wmic_output(output, name, &args);
    assert_eq!(pids.len(), 0);
}

#[test]
fn test_get_pids_with_first_arg_from_wmic_output() {
    let output = r#"
CommandLine=
ProcessId=33796

CommandLine=
ProcessId=34668

CommandLine="C:\Program Files\testapp\TestApp.exe" --tray
ProcessId=13728

CommandLine="C:\Program Files\testapp\TestApp.exe"
ProcessId=10136
    "#;
    let name = "testapp.exe";
    let arg = "--tray";
    let pids = get_pids_with_first_arg_from_wmic_output(output, name, arg);
    assert_eq!(pids.len(), 1);
    assert_eq!(pids[0], 13728);

    let arg = "";
    let pids = get_pids_with_first_arg_from_wmic_output(output, name, arg);
    assert_eq!(pids.len(), 1);
    assert_eq!(pids[0], 10136);

    let arg = "--other";
    let pids = get_pids_with_first_arg_from_wmic_output(output, name, arg);
    assert_eq!(pids.len(), 0);
}

#[test]
fn every_argument_has_to_occur() {
    let output = "CommandLine=app.exe --tray --quiet\r\nProcessId=7\r\nCommandLine=app.exe --tray\r\nProcessId=8\r\n";
    assert_eq!(get_pids_with_args_from_wmic_output(output, "app.exe", &vec!["--tray", "--quiet"]), vec![7]);
    assert_eq!(get_pids_with_args_from_wmic_output(output, "app.exe", &vec!["--tray"]), vec![7, 8]);
}

#[test]
fn command_lines_are_lowered_before_they_are_held_against_the_name() {
    let output = "CommandLine=C:\\APP.EXE\nProcessId=9\n";
    assert_eq!(get_pids_with_args_from_wmic_output(output, "app.exe", &vec![]), vec![9]);
    assert_eq!(get_pids_with_args_from_wmic_output(output, "APP.EXE", &vec![]), Vec::<u32>::new());
}

#[test]
fn a_process_id_that_is_no_number_is_skipped() {
    let output = "CommandLine=app.exe\nProcessId=12x\nProcessId=13\nCommandLine=app.exe\nProcessId= 14 \n";
    assert_eq!(get_pids_with_args_from_wmic_output(output, "app.exe", &vec![]), vec![14]);
}

#[test]
fn a_last_line_without_an_end_is_read_too() {
    let output = "CommandLine=app.exe\nProcessId=21";
    assert_eq!(get_pids_with_args_from_wmic_output(output, "app.exe", &vec![]), vec![21]);
}

#[test]
fn a_command_line_that_begins_with_the_argument_matches() {
    let output = "CommandLine=--tray something\nProcessId=30\n";
    assert_eq!(get_pids_with_first_arg_from_wmic_output(output, "app.exe", "--tray"), vec![30]);
}

#[test]
fn the_name_is_cut_out_of_what_follows_it() {
    let output = "CommandLine=\"c:\\app.exe\" app.exe\" --tray\nProcessId=31\nCommandLine=c:\\app.exe app.exe\" \nProcessId=32\n";
    assert_eq!(get_pids_with_first_arg_from_wmic_output(output, "app.exe", "--tray"), vec![31]);
    assert_eq!(get_pids_with_first_arg_from_wmic_output(output, "app.exe", ""), vec![32]);
    assert_eq!(get_pids_with_first_arg_from_wmic_output(output, "app.exe", "app.exe"), Vec::<u32>::new());
}

#[test]
fn the_quoted_name_goes_before_the_bare_one() {
    let output = "CommandLine=\"c:\\app.exe\" app.exe --tray\nProcessId=33\nCommandLine=c:\\app.exe --tray\nProcessId=34\n";
    assert_eq!(get_pids_with_first_arg_from_wmic_output(output, "app.exe", "--tray"), vec![34]);
    assert_eq!(get_pids_with_first_arg_from_wmic_output(output, "app.exe", "app.exe"), vec![33]);
}

#[test]
fn only_the_first_argument_counts() {
    let output = "CommandLine=c:\\app.exe --server --tray\nProcessId=40\n";
    assert_eq!(get_pids_with_first_arg_from_wmic_output(output, "app.exe", "--tray"), Vec::<u32>::new());
    assert_eq!(get_pids_with_first_arg_from_wmic_output(output, "app.exe", "--server"), vec![40]);
    assert_eq!(get_pids_with_first_arg_from_wmic_output(output, "app.exe", "--ser"), vec![40]);
}

#[test]
fn an_empty_name_leaves_the_whole_command_line_to_look_at() {
    let output = "CommandLine=--tray\nProcessId=41\nCommandLine=x --tray\nProcessId=42\n";
    assert_eq!(get_pids_with_first_arg_from_wmic_output(output, "", "x"), vec![42]);
}

#[test]
fn process_ids_are_narrowed_to_the_session_of_the_caller() {
    let sessions = vec![Some(1), Some(2), None, Some(2)];
    assert_eq!(
        get_pids_with_first_arg_check_session(vec![10, 20, 30, 40], &sessions, true, Some(2)),
        Some(vec![20, 40])
    );
    assert_eq!(
        get_pids_with_first_arg_check_session(vec![10, 20, 30, 40], &sessions, false, None),
        Some(vec![10, 20, 30, 40])
    );
    assert_eq!(get_pids_with_first_arg_check_session(vec![10], &sessions, true, None), None);
    assert_eq!(
        get_pids_with_first_arg_check_session(vec![10, 20], &vec![Some(2)], true, Some(2)),
        Some(vec![10])
    );
}
