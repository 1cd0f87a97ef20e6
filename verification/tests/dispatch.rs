use backup::appconfig::Backup;
use backup::backup_performer::plan_backup;
use backup::uploaders::custom::{classify_pipe_outcome, pipe_command};
use backup::uploaders::github::{classify_gist_response, gist_url};
use backup::uploaders::{BackupError, UploadPlan};

#[test]
fn custom_should_upload() {
    let backup = Backup {
        name: "test".to_owned(),
        custom: Some("echo".to_owned()),
        ..Default::default()
    };

    let path = String::from("path");

    let result = plan_backup(&path, &backup);

    assert!(result.is_ok())
}

#[test]
fn should_err() {
    let backup = Backup { name: "test".to_owned(), ..Default::default() };

    let path = String::from("path");

    let result = plan_backup(&path, &backup);

    assert!(result.is_err());
}

#[test]
fn should_validate_before_calling() {
    let backup = Backup {
        name: "test".to_owned(),
        custom: None,
        credentials: None,
        destination: Some("somewhere".to_owned()),
    };

    let path = String::from("path");

    let result = backup::uploaders::github::plan_upload(&path, &backup);

    assert!(result.is_err());
}

#[test]
fn pipe_plan_carries_the_full_command() {
    let backup = Backup {
        name: "anything-else".to_owned(),
        custom: Some("gzip > /tmp/out.gz".to_owned()),
        ..Default::default()
    };
    let path = String::from("/tmp/archives/pkgs.txt");
    match plan_backup(&path, &backup) {
        Ok(UploadPlan::RunPipe { command }) => {
            assert_eq!(command, "cat /tmp/archives/pkgs.txt | gzip > /tmp/out.gz");
        }
        other => panic!("expected a pipe plan, got {:?}", other),
    }
}

#[test]
fn missing_custom_command_is_a_validation_error() {
    // No subprocess is planned: the outcome is a validation error naming
    // the skipped file.
    let backup = Backup { name: "pipe".to_owned(), ..Default::default() };
    let path = String::from("/tmp/archives/pkgs.txt");
    match plan_backup(&path, &backup) {
        Err(BackupError::Validation(m)) => {
            assert_eq!(m, "Command is necessary to backup; skipping pkgs.txt");
        }
        other => panic!("expected a validation error, got {:?}", other),
    }
}

#[test]
fn gist_name_selects_the_gist_variant() {
    let backup = Backup {
        name: "github-gists".to_owned(),
        custom: None,
        credentials: Some("SECRET-REDACTED".to_owned()),
        destination: Some("abc123".to_owned()),
    };
    let path = String::from("pkgs.txt");
    match plan_backup(&path, &backup) {
        Ok(UploadPlan::PatchGist { token, gist_id }) => {
            assert_eq!(token, "SECRET-REDACTED");
            assert_eq!(gist_id, "abc123");
        }
        other => panic!("expected a gist plan, got {:?}", other),
    }
}

#[test]
fn gist_missing_credentials_is_a_validation_error() {
    let backup = Backup {
        name: "github-gists".to_owned(),
        custom: None,
        credentials: None,
        destination: Some("abc123".to_owned()),
    };
    let path = String::from("pkgs.txt");
    match plan_backup(&path, &backup) {
        Err(BackupError::Validation(m)) => {
            assert_eq!(
                m,
                "Github OAuth token required for Github backup; did not backup pkgs.txt"
            );
        }
        other => panic!("expected a validation error, got {:?}", other),
    }
}

#[test]
fn gist_missing_destination_is_a_validation_error() {
    let backup = Backup {
        name: "github-gists".to_owned(),
        custom: None,
        credentials: Some("SECRET-REDACTED".to_owned()),
        destination: None,
    };
    let path = String::from("pkgs.txt");
    match plan_backup(&path, &backup) {
        Err(BackupError::Validation(m)) => {
            assert_eq!(m, "Gist id required for Github backup; did not backup pkgs.txt");
        }
        other => panic!("expected a validation error, got {:?}", other),
    }
}

#[test]
fn pipe_outcome_classification() {
    assert!(classify_pipe_outcome(true, &String::new()).is_ok());
    // A nonzero exit fails even with a silent standard error.
    match classify_pipe_outcome(false, &String::new()) {
        Err(BackupError::Io(m)) => assert_eq!(m, ""),
        other => panic!("expected an io error, got {:?}", other),
    }
    // Standard-error output fails even under a successful exit.
    match classify_pipe_outcome(true, &String::from("cat: no such file")) {
        Err(BackupError::Io(m)) => assert_eq!(m, "cat: no such file"),
        other => panic!("expected an io error, got {:?}", other),
    }
}

#[test]
fn should_report_err() {
    // A non-success response is a transport error carrying the body.
    match classify_gist_response(400, &String::from("error")) {
        Err(BackupError::Transport(m)) => assert_eq!(m, "error"),
        other => panic!("expected a transport error, got {:?}", other),
    }
}

#[test]
fn gist_response_classification() {
    assert!(classify_gist_response(200, &String::from("test")).is_ok());
    assert!(classify_gist_response(204, &String::new()).is_ok());
    assert!(classify_gist_response(299, &String::new()).is_ok());
    assert!(classify_gist_response(300, &String::new()).is_err());
    assert!(classify_gist_response(199, &String::new()).is_err());
    assert!(classify_gist_response(500, &String::new()).is_err());
}

#[test]
fn pipe_command_shape() {
    assert_eq!(pipe_command(&String::from("path"), &String::from("echo")), "cat path | echo");
}

#[test]
fn gist_url_shape() {
    assert_eq!(
        gist_url(&String::from("https://api.github.com"), &String::from("abc123")),
        "https://api.github.com/gists/abc123"
    );
}

#[test]
fn error_messages_move_out_as_causes() {
    let e = BackupError::Validation(String::from("missing field"));
    assert_eq!(e.into_message(), "missing field");
    let e = BackupError::Io(String::from("spawn failed"));
    assert_eq!(e.into_message(), "spawn failed");
    let e = BackupError::Transport(String::from("bad gateway"));
    assert_eq!(e.into_message(), "bad gateway");
}

#[test]
fn backup_getters_return_the_fields() {
    let backup = Backup {
        name: "github-gists".to_owned(),
        custom: Some("echo".to_owned()),
        credentials: Some("SECRET-REDACTED".to_owned()),
        destination: Some("abc123".to_owned()),
    };
    assert_eq!(backup.get_custom(), Some("echo".to_owned()));
    assert_eq!(backup.get_creds(), Some("SECRET-REDACTED".to_owned()));
    assert_eq!(backup.get_destination(), Some("abc123".to_owned()));
    let empty = Backup { name: "x".to_owned(), ..Default::default() };
    assert_eq!(empty.get_custom(), None);
    assert_eq!(empty.get_creds(), None);
    assert_eq!(empty.get_destination(), None);
}
