use apw::error::{APWError, Result};
use apw::secrets::{
    delete_shared_key, interpret_delete, interpret_lookup, interpret_store, make_security_result,
    read_shared_key, reset_security_command_runner_for_tests, set_security_command_runner_for_tests,
    supports_keychain, supports_keychain_for_tests, write_shared_key, SecurityResult, SecurityTool,
};
use apw::types::Status;
use std::cell::RefCell;
use std::collections::HashMap;

fn no_runner(_args: &Vec<String>) -> Result<SecurityResult> {
    panic!("no command is run");
}

fn tool() -> SecurityTool<fn(&Vec<String>) -> Result<SecurityResult>> {
    SecurityTool {
        on_macos: false,
        keychain_override: None,
        runner: no_runner,
    }
}

#[test]
fn write_and_delete_fail_without_keychain_support() {
    let tool = supports_keychain_for_tests(tool(), Some(false));

    let write_error = write_shared_key(&tool, "alice", "secret").unwrap_err();
    assert_eq!(write_error.code, Status::ProcessNotRunning);

    let delete_error = delete_shared_key(&tool, "alice").unwrap_err();
    assert_eq!(delete_error.code, Status::ProcessNotRunning);

    let tool = supports_keychain_for_tests(tool, None);
    assert!(!supports_keychain(&tool));
}

#[test]
fn keychain_not_found_is_tolerant() {
    let tool = supports_keychain_for_tests(tool(), Some(true));
    let tool = set_security_command_runner_for_tests(tool, |args: &Vec<String>| {
        if args.len() == 6 {
            Ok(make_security_result(44, "", "item: no such item found"))
        } else {
            Ok(make_security_result(0, "", ""))
        }
    });

    let read_result = read_shared_key(&tool, "alice").unwrap();
    assert_eq!(read_result, None);

    let tool = supports_keychain_for_tests(tool, None);
    let tool = reset_security_command_runner_for_tests(tool, no_runner);
    assert!(!supports_keychain(&tool));
}

#[test]
fn keychain_errors_are_reported() {
    let tool = supports_keychain_for_tests(tool(), Some(true));
    let tool = set_security_command_runner_for_tests(tool, |_: &Vec<String>| {
        Ok(make_security_result(1, "", "boom"))
    });

    let result = read_shared_key(&tool, "alice").unwrap_err();
    assert_eq!(result.code, Status::InvalidConfig);
    assert_eq!(result.message, "boom");
}

#[test]
fn security_runner_receives_unescaped_arguments() {
    let args_seen: RefCell<Vec<Vec<String>>> = RefCell::new(Vec::new());
    let tool = supports_keychain_for_tests(tool(), Some(true));
    let tool = set_security_command_runner_for_tests(tool, |args: &Vec<String>| {
        args_seen.borrow_mut().push(args.clone());
        Ok(make_security_result(0, "", ""))
    });

    let username = "alice'; echo pwned #".to_string();
    let key = "value with spaces".to_string();
    write_shared_key(&tool, &username, &key).unwrap();
    delete_shared_key(&tool, &username).unwrap();

    let captured = args_seen.borrow();
    assert_eq!(captured.len(), 2);

    let write_command = captured
        .iter()
        .find(|entry| entry.first() == Some(&"add-generic-password".to_string()))
        .expect("write invocation recorded");
    assert!(write_command.contains(&"-a".to_string()));
    assert!(write_command.contains(&username));
    assert!(write_command.contains(&key));

    let delete_command = captured
        .iter()
        .find(|entry| entry.first() == Some(&"delete-generic-password".to_string()))
        .expect("delete invocation recorded");
    assert!(delete_command.contains(&"-a".to_string()));
    assert!(delete_command.contains(&username));
    assert!(!delete_command.contains(&key));
}

#[test]
fn a_stored_secret_is_read_as_the_tool_prints_it() {
    let tool = supports_keychain_for_tests(tool(), Some(true));
    let tool = set_security_command_runner_for_tests(tool, |args: &Vec<String>| {
        assert_eq!(args[0], "find-generic-password");
        assert_eq!(args[2], "alice");
        Ok(make_security_result(0, "AQ==", ""))
    });
    assert_eq!(read_shared_key(&tool, "alice").unwrap(), Some("AQ==".to_string()));
}

#[test]
fn replies_of_the_tool_are_read_for_what_they_say() {
    let failure = || Err(APWError::new(Status::GenericError, "not run"));
    assert_eq!(interpret_lookup(failure()).unwrap_err().message, "not run");
    assert_eq!(interpret_store(failure()).unwrap_err().code, Status::GenericError);
    assert_eq!(interpret_delete(failure()).unwrap_err().code, Status::GenericError);

    assert!(interpret_store(Ok(make_security_result(0, "", ""))).is_ok());
    assert!(interpret_delete(Ok(make_security_result(0, "", ""))).is_ok());
    assert!(interpret_delete(Ok(make_security_result(
        44,
        "",
        "The specified item could not be found in the keychain."
    )))
    .is_ok());
    let lookup = interpret_lookup(Ok(make_security_result(1, "", ""))).unwrap_err();
    assert_eq!(lookup.message, "Keychain lookup failed.");
    let store = interpret_store(Ok(make_security_result(1, "", ""))).unwrap_err();
    assert_eq!(store.message, "Failed to store secret.");
    let silent = interpret_delete(Ok(make_security_result(1, "", ""))).unwrap_err();
    assert_eq!(silent.code, Status::InvalidConfig);
    assert_eq!(silent.message, "Failed to delete secret.");
}

#[test]
fn secrets_without_a_user_are_neither_looked_up_nor_deleted() {
    let tool = supports_keychain_for_tests(tool(), Some(true));
    assert_eq!(read_shared_key(&tool, "").unwrap(), None);
    assert!(delete_shared_key(&tool, "").is_ok());
    let error = write_shared_key(&tool, "", "secret").unwrap_err();
    assert_eq!(error.message, "Invalid session username.");
    let error = write_shared_key(&tool, "alice", "").unwrap_err();
    assert_eq!(error.message, "Invalid shared key value.");
}

#[test]
fn a_key_that_is_stored_is_read_and_one_that_is_deleted_is_gone() {
    let kept: RefCell<HashMap<(String, String), String>> = RefCell::new(HashMap::new());
    let runner = |args: &Vec<String>| -> Result<SecurityResult> {
        assert_eq!((args[1].as_str(), args[3].as_str()), ("-a", "-s"));
        let entry = (args[2].clone(), args[4].clone());
        let missing = || make_security_result(44, "", "The item could not be found.");
        let mut kept = kept.borrow_mut();
        Ok(match args[0].as_str() {
            "add-generic-password" => {
                kept.insert(entry, args[6].clone());
                make_security_result(0, "", "")
            }
            "find-generic-password" => match kept.get(&entry) {
                Some(secret) => make_security_result(0, secret, ""),
                None => missing(),
            },
            _ => match kept.remove(&entry) {
                Some(_) => make_security_result(0, "", ""),
                None => missing(),
            },
        })
    };
    let tool = SecurityTool {
        on_macos: true,
        keychain_override: None,
        runner,
    };
    write_shared_key(&tool, "bob", "other").unwrap();
    assert_eq!(read_shared_key(&tool, "alice").unwrap(), None);
    write_shared_key(&tool, "alice", "secret").unwrap();
    assert_eq!(read_shared_key(&tool, "alice").unwrap(), Some("secret".to_string()));
    assert_eq!(read_shared_key(&tool, "bob").unwrap(), Some("other".to_string()));
    delete_shared_key(&tool, "alice").unwrap();
    assert_eq!(read_shared_key(&tool, "alice").unwrap(), None);
    assert_eq!(read_shared_key(&tool, "bob").unwrap(), Some("other".to_string()));
    delete_shared_key(&tool, "alice").unwrap();
}
