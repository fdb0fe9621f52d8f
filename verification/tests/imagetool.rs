use twoliter::arg_has_nul;
use twoliter::config_view_from_bytes;
use twoliter::image_tool;
use twoliter::select_tool;
use twoliter::CraneCLI;
use twoliter::DockerArchitecture;
use twoliter::ImageToolError;
use twoliter::ToolKind;

#[test]
fn crane_cmd_passes_arguments_through_without_debug_logging() {
    // No logger is installed in this process, so the log filter stays off
    // and no verbose flag is prefixed.
    let base = vec!["manifest".to_string(), "example.com/kit:v1".to_string()];
    assert_eq!(CraneCLI::crane_cmd(&base), base);
}

#[test]
fn crane_commands_are_exact() {
    let cli = CraneCLI {
        path: "/usr/bin/krane".to_string(),
    };
    assert_eq!(
        cli.pull_command("/tmp/kit.tar", "example.com/kit:v1"),
        vec!["pull", "--format", "oci", "example.com/kit:v1", "/tmp/kit.tar"]
    );
    assert_eq!(
        cli.manifest_command("example.com/kit:v1"),
        vec!["manifest", "example.com/kit:v1"]
    );
    assert_eq!(
        cli.config_command("example.com/kit:v1"),
        vec!["config", "example.com/kit:v1"]
    );
    assert_eq!(
        cli.push_command("/tmp/unpacked", "example.com/kit:v1"),
        vec!["push", "/tmp/unpacked", "example.com/kit:v1"]
    );
}

#[test]
fn index_append_lists_every_member_and_the_tag() {
    let cli = CraneCLI {
        path: "/usr/bin/krane".to_string(),
    };
    let images = vec![
        (DockerArchitecture::Amd64, "example.com/kit:v1-amd64".to_string()),
        (DockerArchitecture::Arm64, "example.com/kit:v1-arm64".to_string()),
    ];
    assert_eq!(
        cli.index_append_command(&images, "example.com/kit:v1"),
        vec![
            "index",
            "append",
            "-m",
            "example.com/kit:v1-amd64",
            "-m",
            "example.com/kit:v1-arm64",
            "-t",
            "example.com/kit:v1",
        ]
    );
}

#[test]
fn architecture_names_parse_both_spellings() {
    assert_eq!(
        DockerArchitecture::try_from("x86_64"),
        Ok(DockerArchitecture::Amd64)
    );
    assert_eq!(
        DockerArchitecture::try_from("amd64"),
        Ok(DockerArchitecture::Amd64)
    );
    assert_eq!(
        DockerArchitecture::try_from("aarch64"),
        Ok(DockerArchitecture::Arm64)
    );
    assert_eq!(
        DockerArchitecture::try_from("arm64"),
        Ok(DockerArchitecture::Arm64)
    );
    assert_eq!(DockerArchitecture::Amd64.to_text(), "amd64");
    assert_eq!(DockerArchitecture::Arm64.to_text(), "arm64");
}

#[test]
fn unknown_architecture_is_an_error() {
    let e = DockerArchitecture::try_from("riscv64").unwrap_err();
    assert_eq!(
        e,
        ImageToolError::InvalidArchitecture {
            value: "riscv64".to_string()
        }
    );
    assert_eq!(e.message(), "invalid architecture riscv64");
}

#[test]
fn config_labels_parse_from_an_image_config_document() {
    let doc = br#"{"architecture":"amd64","config":{"Labels":{"b-key":"2","a-key":"1"}}}"#;
    let view = config_view_from_bytes(doc.as_slice()).unwrap();
    // The default JSON object map orders keys.
    assert_eq!(
        view.labels,
        vec![
            ("a-key".to_string(), "1".to_string()),
            ("b-key".to_string(), "2".to_string()),
        ]
    );
}

#[test]
fn config_without_string_labels_fails_deserialization() {
    let no_labels = br#"{"config":{}}"#;
    assert_eq!(
        config_view_from_bytes(no_labels.as_slice()),
        Err(ImageToolError::ConfigDeserialize)
    );
    let wrong_type = br#"{"config":{"Labels":{"a":1}}}"#;
    assert_eq!(
        config_view_from_bytes(wrong_type.as_slice()),
        Err(ImageToolError::ConfigDeserialize)
    );
    let not_json = b"not json at all";
    assert_eq!(
        config_view_from_bytes(not_json.as_slice()),
        Err(ImageToolError::ConfigDeserialize)
    );
}

#[test]
fn tool_selection_honours_the_override() {
    let docker = Some("/usr/bin/docker".to_string());
    let krane = Some("/usr/bin/krane".to_string());
    let sel = select_tool(&Some("docker".to_string()), &krane, &None, &None, &docker).unwrap();
    assert_eq!(sel.kind, ToolKind::Docker);
    assert_eq!(sel.path, "/usr/bin/docker");

    let sel = select_tool(&Some("krane".to_string()), &krane, &None, &None, &docker).unwrap();
    assert_eq!(sel.kind, ToolKind::Crane);
    assert_eq!(sel.path, "/usr/bin/krane");

    let e = select_tool(&Some("docker".to_string()), &krane, &None, &None, &None).unwrap_err();
    assert_eq!(
        e,
        ImageToolError::NotFound {
            name: "docker".to_string()
        }
    );

    let e = select_tool(&Some("podman".to_string()), &krane, &None, &None, &docker).unwrap_err();
    assert_eq!(
        e,
        ImageToolError::Unsupported {
            name: "podman".to_string()
        }
    );
    assert_eq!(e.message(), "unsupported container image tool podman");
}

#[test]
fn probing_prefers_the_direct_client_and_falls_back_to_the_daemon() {
    let sel = select_tool(
        &None,
        &None,
        &Some("/usr/bin/gcrane".to_string()),
        &Some("/usr/bin/crane".to_string()),
        &Some("/usr/bin/docker".to_string()),
    )
    .unwrap();
    assert_eq!(sel.kind, ToolKind::Crane);
    assert_eq!(sel.path, "/usr/bin/gcrane");

    let sel = select_tool(&None, &None, &None, &None, &Some("/usr/bin/docker".to_string()))
        .unwrap();
    assert_eq!(sel.kind, ToolKind::Docker);

    let e = select_tool(&None, &None, &None, &None, &None).unwrap_err();
    assert_eq!(e, ImageToolError::NoneFound);
}

#[test]
fn overriding_with_an_unknown_name_fails_whatever_is_installed() {
    let e = image_tool(Some("podman".to_string())).unwrap_err();
    assert_eq!(
        e,
        ImageToolError::Unsupported {
            name: "podman".to_string()
        }
    );
}

#[test]
fn operation_failures_report_the_full_command() {
    let e = ImageToolError::OperationFailed {
        message: "failed to pull image archive from example.com/kit:v1".to_string(),
        program: "/usr/bin/krane".to_string(),
        args: vec!["pull".to_string(), "example.com/kit:v1".to_string()],
    };
    assert_eq!(
        e.message(),
        "failed to run operation with image tool: failed to pull image archive \
         from example.com/kit:v1; command: /usr/bin/krane pull example.com/kit:v1"
    );
}

#[test]
fn nul_bytes_in_arguments_are_detected() {
    assert!(!arg_has_nul(b"--help".as_slice()));
    assert!(arg_has_nul(b"a\0b".as_slice()));
    assert!(!arg_has_nul(b"".as_slice()));
}
