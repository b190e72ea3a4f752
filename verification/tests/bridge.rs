use server_rs::diagnostics::{DiagnosticsConfig, Severity};
use server_rs::entry::{plan_entry, EntryPlan};
use server_rs::parameters::{ServerParameters, FIRST_TUNING, PORT, SECOND_TUNING};
use server_rs::task::{conclude_task, TaskVerdict};

fn launch_of(cache_folder: &str) -> (String, ServerParameters) {
    match plan_entry(Ok(cache_folder.to_string())) {
        EntryPlan::Launch { announcement, parameters } => (announcement, parameters),
        EntryPlan::Abort { reason } => panic!("decoded text aborted: {}", reason),
    }
}

#[test]
fn standard_diagnostics_has_tag_and_informational_level() {
    let config = DiagnosticsConfig::standard();
    assert_eq!(config.tag, "RustServer");
    assert_eq!(config.min_severity, Severity::Info);
}

#[test]
fn standard_diagnostics_is_the_same_every_time() {
    let first = DiagnosticsConfig::standard();
    for _ in 0..5 {
        assert_eq!(DiagnosticsConfig::standard(), first);
    }
}

#[test]
fn fixed_values_are_two_two_and_three_thousand() {
    assert_eq!(FIRST_TUNING, 2);
    assert_eq!(SECOND_TUNING, 2);
    assert_eq!(PORT, 3000);
}

#[test]
fn parameters_keep_the_directory_and_add_the_fixed_values() {
    let parameters = ServerParameters::for_cache_folder("/data/cache/tv".to_string());
    assert_eq!(
        parameters,
        ServerParameters {
            cache_folder: "/data/cache/tv".to_string(),
            first_tuning: 2,
            second_tuning: 2,
            port: 3000,
        }
    );
}

#[test]
fn decoded_directory_launches_with_line_and_parameters() {
    let plan = plan_entry(Ok("/data/cache/tv".to_string()));
    assert_eq!(
        plan,
        EntryPlan::Launch {
            announcement: "Starting backend server with cache folder: /data/cache/tv".to_string(),
            parameters: ServerParameters {
                cache_folder: "/data/cache/tv".to_string(),
                first_tuning: 2,
                second_tuning: 2,
                port: 3000,
            },
        }
    );
}

#[test]
fn announcement_contains_the_directory() {
    let (announcement, _) = launch_of("/data/cache/tv");
    assert!(announcement.contains("/data/cache/tv"));
    assert!(announcement.ends_with("/data/cache/tv"));
}

#[test]
fn directory_reaches_the_task_byte_for_byte() {
    let folders = [
        "",
        "/",
        " /leading and trailing blanks/ ",
        "/storage/emulated/0/Android/data/com.pbs.server/cache",
        "/data/c\u{e4}che/\u{30c6}\u{30ec}\u{30d3}/\u{1f4fa}",
        "relative\\mixed/separators\n",
    ];
    for folder in folders {
        let (announcement, parameters) = launch_of(folder);
        assert_eq!(parameters.cache_folder.as_bytes(), folder.as_bytes());
        assert_eq!(parameters.first_tuning, 2);
        assert_eq!(parameters.second_tuning, 2);
        assert_eq!(parameters.port, 3000);
        assert_eq!(
            announcement,
            format!("Starting backend server with cache folder: {}", folder)
        );
    }
}

#[test]
fn empty_directory_still_launches() {
    let (announcement, parameters) = launch_of("");
    assert_eq!(announcement, "Starting backend server with cache folder: ");
    assert_eq!(parameters.cache_folder, "");
}

#[test]
fn undecodable_text_aborts_with_the_decoders_detail() {
    let plan = plan_entry(Err("NullPtr(\"get_string obj argument\")".to_string()));
    assert_eq!(
        plan,
        EntryPlan::Abort {
            reason: "Couldn't get String from 'JString': NullPtr(\"get_string obj argument\")"
                .to_string(),
        }
    );
}

#[test]
fn undecodable_text_never_launches() {
    for detail in ["", "JavaException", "a directory like /data/cache/tv"] {
        match plan_entry(Err(detail.to_string())) {
            EntryPlan::Abort { reason } => {
                assert_eq!(reason, format!("Couldn't get String from 'JString': {}", detail));
            }
            EntryPlan::Launch { .. } => panic!("undecodable text launched a task"),
        }
    }
}

#[test]
fn successful_start_finishes_the_task() {
    assert_eq!(conclude_task(Ok(())), TaskVerdict::Finished);
}

#[test]
fn failed_start_faults_with_the_detail() {
    let verdict = conclude_task(Err("Os { code: 98, kind: AddrInUse }".to_string()));
    assert_eq!(
        verdict,
        TaskVerdict::Fault {
            reason: "Error while starting rust server: Os { code: 98, kind: AddrInUse }"
                .to_string(),
        }
    );
}

#[test]
fn failed_start_without_detail_still_faults() {
    assert_eq!(
        conclude_task(Err(String::new())),
        TaskVerdict::Fault { reason: "Error while starting rust server: ".to_string() }
    );
}

#[test]
fn two_invocations_get_a_task_each_with_their_own_directory() {
    let (first_line, first) = launch_of("/data/cache/one");
    let (second_line, second) = launch_of("/data/cache/two");
    assert_eq!(first.cache_folder, "/data/cache/one");
    assert_eq!(second.cache_folder, "/data/cache/two");
    assert_ne!(first, second);
    assert_ne!(first_line, second_line);
    assert_eq!((first.first_tuning, first.second_tuning, first.port), (2, 2, 3000));
    assert_eq!((second.first_tuning, second.second_tuning, second.port), (2, 2, 3000));
}

#[test]
fn same_directory_twice_gives_the_same_plan() {
    let first = plan_entry(Ok("/data/cache/tv".to_string()));
    let second = plan_entry(Ok("/data/cache/tv".to_string()));
    assert_eq!(first, second);
}
