use briefcase::command::{
    confirm_purge, finish_get, finish_list, finish_purge, finish_remove, finish_set, info, plan,
    purge_decision, version, Command, Request,
};
use briefcase::error::{BriefcaseError, IoFailure};
use briefcase::location::{Environment, StorePath};

fn default_dir() -> StorePath {
    StorePath { parts: vec!["/tmp".to_string(), "briefcase".to_string()] }
}

fn missing() -> IoFailure {
    IoFailure { not_found: true, detail: "No such file or directory (os error 2)".to_string() }
}

fn denied() -> IoFailure {
    IoFailure { not_found: false, detail: "Permission denied (os error 13)".to_string() }
}

#[test]
fn version_names_the_program() {
    assert_eq!(version(), "Briefcase 0.5.0\n");
}

#[test]
fn info_with_nothing_defined() {
    let env = Environment::new();
    assert_eq!(
        info(&env),
        "\tTemp Dir: /tmp\n\tSourced From: N/A\n\tBriefcase Directory Name: briefcase\n"
    );
}

#[test]
fn info_names_the_variable_that_decided() {
    let mut env = Environment::new();
    env.define("TEMP", "/scratch");
    env.define("BRIEFCASE_DIRNAME", "mine");
    assert_eq!(
        info(&env),
        "\tTemp Dir: /scratch\n\tSourced From: TEMP\n\tBriefcase Directory Name: mine\n"
    );
}

#[test]
fn plan_version_and_info_only_print() {
    let env = Environment::new();
    assert_eq!(plan(&Command::Version, &env), Ok(Request::Print { text: version() }));
    assert_eq!(plan(&Command::Info, &env), Ok(Request::Print { text: info(&env) }));
}

#[test]
fn plan_set_writes_below_the_store_directory() {
    let env = Environment::new();
    let command = Command::SetEntry { name: "x".to_string(), value: "hello".to_string() };
    assert_eq!(
        plan(&command, &env),
        Ok(Request::Write {
            dir: default_dir(),
            name: "x".to_string(),
            value: "hello".to_string()
        })
    );
}

#[test]
fn plan_get_and_remove_name_the_entry() {
    let mut env = Environment::new();
    env.define("BRIEFCASE_DIR", "/data");
    let dir = StorePath { parts: vec!["/data".to_string(), "briefcase".to_string()] };
    assert_eq!(
        plan(&Command::GetEntry { name: "x".to_string() }, &env),
        Ok(Request::Read { dir: dir.clone(), name: "x".to_string() })
    );
    assert_eq!(
        plan(&Command::RemoveEntry { name: "x".to_string() }, &env),
        Ok(Request::Delete { dir, name: "x".to_string() })
    );
}

#[test]
fn plan_refuses_an_invalid_name_before_any_request() {
    let env = Environment::new();
    let invalid = Err(BriefcaseError::InvalidEntry("2bad".to_string()));
    assert_eq!(
        plan(&Command::SetEntry { name: "2bad".to_string(), value: "v".to_string() }, &env),
        invalid
    );
    assert_eq!(plan(&Command::GetEntry { name: "2bad".to_string() }, &env), invalid);
    assert_eq!(plan(&Command::RemoveEntry { name: "2bad".to_string() }, &env), invalid);
}

#[test]
fn plan_list_reads_the_store_directory() {
    let env = Environment::new();
    assert_eq!(plan(&Command::List, &env), Ok(Request::List { dir: default_dir() }));
}

#[test]
fn plan_purge_asks_unless_forced() {
    let env = Environment::new();
    assert_eq!(
        plan(&Command::Purge { force: true }, &env),
        Ok(Request::Destroy { dir: default_dir() })
    );
    assert_eq!(
        plan(&Command::Purge { force: false }, &env),
        Ok(Request::Confirm {
            prompt: "Are you sure you want to delete all briefcase data? (y/n) ".to_string(),
            dir: default_dir()
        })
    );
}

#[test]
fn purge_goes_ahead_on_y_in_either_case() {
    let destroy = Request::Destroy { dir: default_dir() };
    assert_eq!(confirm_purge("y\n", default_dir()), destroy);
    assert_eq!(confirm_purge("Y\n", default_dir()), destroy);
    assert_eq!(confirm_purge("  y \r\n", default_dir()), destroy);
    assert_eq!(confirm_purge("y", default_dir()), destroy);
}

#[test]
fn purge_is_called_off_on_anything_else() {
    let declined = Request::Print { text: "Exiting without deleting data\n".to_string() };
    assert_eq!(confirm_purge("n\n", default_dir()), declined);
    assert_eq!(confirm_purge("\n", default_dir()), declined);
    assert_eq!(confirm_purge("", default_dir()), declined);
    assert_eq!(confirm_purge("yes\n", default_dir()), declined);
    assert_eq!(confirm_purge("y y\n", default_dir()), declined);
}

#[test]
fn purge_decision_takes_the_answer_as_it_stands() {
    let declined = Request::Print { text: "Exiting without deleting data\n".to_string() };
    assert_eq!(purge_decision("y", default_dir()), Request::Destroy { dir: default_dir() });
    assert_eq!(purge_decision("Y", default_dir()), declined);
    assert_eq!(purge_decision(" y", default_dir()), declined);
    assert_eq!(purge_decision("", default_dir()), declined);
}

#[test]
fn finish_set_confirms_or_passes_the_failure_on() {
    assert_eq!(finish_set("x", Ok(())), Ok("Set x\n".to_string()));
    assert_eq!(finish_set("x", Err(denied())), Err(BriefcaseError::Io(denied())));
    assert_eq!(finish_set("x", Err(missing())), Err(BriefcaseError::Io(missing())));
}

#[test]
fn finish_get_shows_the_value_with_nothing_added() {
    assert_eq!(finish_get("x", Ok("hello".to_string())), Ok("hello".to_string()));
    assert_eq!(finish_get("x", Ok(String::new())), Ok(String::new()));
    assert_eq!(finish_get("x", Ok("a\nb\n".to_string())), Ok("a\nb\n".to_string()));
}

#[test]
fn finish_get_tells_a_missing_entry_from_a_failure() {
    assert_eq!(
        finish_get("x", Err(missing())),
        Err(BriefcaseError::EntryNotFound("x".to_string()))
    );
    assert_eq!(finish_get("x", Err(denied())), Err(BriefcaseError::Io(denied())));
}

#[test]
fn finish_remove_confirms_or_reports() {
    assert_eq!(finish_remove("x", Ok(())), Ok("Removed x\n".to_string()));
    assert_eq!(
        finish_remove("x", Err(missing())),
        Err(BriefcaseError::EntryNotFound("x".to_string()))
    );
    assert_eq!(finish_remove("x", Err(denied())), Err(BriefcaseError::Io(denied())));
}

#[test]
fn finish_list_shows_one_line_for_each_entry() {
    let pairs = vec![("a".to_string(), "1".to_string()), ("b".to_string(), "2".to_string())];
    assert_eq!(finish_list(Ok(pairs)), Ok("a = 1\nb = 2\n".to_string()));
    assert_eq!(finish_list(Ok(vec![("k".to_string(), String::new())])), Ok("k = \n".to_string()));
}

#[test]
fn finish_list_shows_nothing_for_an_empty_or_missing_store() {
    assert_eq!(finish_list(Ok(Vec::new())), Ok(String::new()));
    assert_eq!(finish_list(Err(missing())), Ok(String::new()));
    assert_eq!(finish_list(Err(denied())), Err(BriefcaseError::Io(denied())));
}

#[test]
fn finish_purge_confirms_or_reports() {
    assert_eq!(finish_purge(Ok(())), Ok("Briefcase data purged successfully\n".to_string()));
    assert_eq!(finish_purge(Err(missing())), Err(BriefcaseError::StoreNotFound));
    assert_eq!(finish_purge(Err(denied())), Err(BriefcaseError::Io(denied())));
}
