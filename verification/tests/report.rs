use termfmt::report::{
    crash_report, describe, dump_description, dump_message, heading, report_head, report_tail, site, CrashInfo,
    CrashSite, DumpOutcome, ISSUE_URL,
};

fn known_crash() -> CrashInfo {
    CrashInfo {
        message: Some(String::from("index out of bounds")),
        thread_name: Some(String::from("main")),
        thread_id: 1,
        site: Some(CrashSite { file: String::from("src/disk.rs"), line: 42, column: 7 }),
    }
}

fn unknown_crash() -> CrashInfo {
    CrashInfo { message: None, thread_name: None, thread_id: 17, site: None }
}

#[test]
fn issue_url_is_the_project_page() {
    assert_eq!(ISSUE_URL, "https://github.com/nix-community/disko");
}

#[test]
fn site_names_file_line_and_column() {
    let place = Some(CrashSite { file: String::from("src/disk.rs"), line: 42, column: 7 });
    assert_eq!(
        site(&place),
        "\x1b[35msrc/disk.rs\x1b[39m, line \x1b[35m42\x1b[39m, column \x1b[35m7\x1b[39m"
    );
}

#[test]
fn site_that_is_not_known() {
    assert_eq!(site(&None), "???");
}

#[test]
fn describe_puts_the_place_behind_the_sentence() {
    assert_eq!(describe("a.rs, line 1, column 2"), "Panic occurred in file a.rs, line 1, column 2");
    assert_eq!(describe(""), "Panic occurred in file ");
}

#[test]
fn dump_description_has_no_styling() {
    assert_eq!(
        dump_description(&known_crash()),
        "Panic occurred in file src/disk.rs, line 42, column 7"
    );
}

#[test]
fn dump_description_of_an_unknown_place() {
    assert_eq!(dump_description(&unknown_crash()), "Panic occurred in file ???");
}

#[test]
fn heading_is_bold_red() {
    assert_eq!(heading("Message"), "\x1b[1m\x1b[31mMessage\x1b[39m\x1b[0m");
}

#[test]
fn report_head_of_a_known_crash() {
    let expected = String::from("\nDisko had unrecoverable error and ")
        + "\x1b[1m\x1b[31mcrashed\x1b[39m\x1b[0m.\n"
        + "Here's some info about error:\n"
        + "    \x1b[1m\x1b[31mMessage\x1b[39m\x1b[0m:  \x1b[34mindex out of bounds\x1b[39m\n"
        + "    \x1b[1m\x1b[31mThread\x1b[39m\x1b[0m:   \x1b[33mmain\x1b[39m (id: \x1b[33m1\x1b[39m)\n"
        + "    \x1b[1m\x1b[31mLocation\x1b[39m\x1b[0m: "
        + "\x1b[35msrc/disk.rs\x1b[39m, line \x1b[35m42\x1b[39m, column \x1b[35m7\x1b[39m\n";
    assert_eq!(report_head(&known_crash()), expected);
}

#[test]
fn report_head_reads_plainly_without_styling() {
    let head = report_head(&known_crash());
    assert_eq!(
        console::strip_ansi_codes(&head),
        "\nDisko had unrecoverable error and crashed.\n\
         Here's some info about error:\n\
         \x20   Message:  index out of bounds\n\
         \x20   Thread:   main (id: 1)\n\
         \x20   Location: src/disk.rs, line 42, column 7\n"
    );
}

#[test]
fn report_head_fills_in_what_is_not_known() {
    let head = report_head(&unknown_crash());
    assert_eq!(
        console::strip_ansi_codes(&head),
        "\nDisko had unrecoverable error and crashed.\n\
         Here's some info about error:\n\
         \x20   Message:  <not string>\n\
         \x20   Thread:   <no name> (id: 17)\n\
         \x20   Location: ???\n"
    );
}

#[test]
fn report_tail_of_a_saved_dump() {
    let tail = report_tail(&DumpOutcome::Saved(String::from("/tmp/report-1234.toml")));
    assert_eq!(
        tail,
        "\nMore info saved at \x1b[34m/tmp/report-1234.toml\x1b[39m.\n\
         Please, submit an issue at \x1b[34mhttps://github.com/nix-community/disko\x1b[39m \
         and attach report.\n"
    );
}

#[test]
fn report_tail_of_a_failed_dump() {
    let tail = report_tail(&DumpOutcome::Failed(String::from("permission denied")));
    assert_eq!(
        tail,
        "\nTried to safe crashdump but failed: permission denied\n\
         Please, submit an issue at \x1b[34mhttps://github.com/nix-community/disko\x1b[39m.\n"
    );
}

#[test]
fn failed_dump_is_reported_before_the_issue_url() {
    let report = crash_report(&known_crash(), &DumpOutcome::Failed(String::from("disk full")));
    let failure = report.find("Tried to safe crashdump but failed").expect("the failure is told");
    let url = report.find(ISSUE_URL).expect("the issue page is named");
    assert!(failure < url);
    assert!(report.contains("disk full"));
    assert!(!report.contains("More info saved at"));
    assert!(!report.contains("attach report"));
}

#[test]
fn saved_dump_names_the_path_and_the_issue_url() {
    let report =
        crash_report(&known_crash(), &DumpOutcome::Saved(String::from("/tmp/report.toml")));
    let path = report.find("/tmp/report.toml").expect("the path is shown");
    let url = report.find(ISSUE_URL).expect("the issue page is named");
    assert!(path < url);
    assert!(!report.contains("Tried to safe crashdump but failed"));
}

#[test]
fn crash_report_is_head_and_tail() {
    let crash = unknown_crash();
    let outcome = DumpOutcome::Failed(String::from("no space left"));
    assert_eq!(
        crash_report(&crash, &outcome),
        report_head(&crash) + &report_tail(&outcome)
    );
}

#[test]
fn dump_message_is_the_message_or_its_placeholder() {
    assert_eq!(dump_message(&known_crash()), "index out of bounds");
    assert_eq!(dump_message(&unknown_crash()), "<not string>");
}
