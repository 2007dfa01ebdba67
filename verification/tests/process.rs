use runx_runtime::process::{
    ChildResourceLimit, ProcessSpec, RESOURCE_LIMIT_ARG0, RESOURCE_LIMIT_FILE_BLOCK_BYTES,
    ResourceLimit, resource_limit_shell_args_for_limits, shell_limit_value,
};

#[test]
fn shell_limit_value_clamps_to_inherited_hard_limit() {
    let unlimited = ResourceLimit {
        current: None,
        maximum: None,
    };
    assert_eq!(shell_limit_value(unlimited, 128, 1), 128);

    let stricter_parent = ResourceLimit {
        current: Some(64),
        maximum: Some(64),
    };
    assert_eq!(shell_limit_value(stricter_parent, 128, 1), 64);

    let byte_limit = ResourceLimit {
        current: Some(1536),
        maximum: Some(1536),
    };
    assert_eq!(
        shell_limit_value(byte_limit, 4096, RESOURCE_LIMIT_FILE_BLOCK_BYTES),
        3
    );
}

#[test]
fn resource_limit_shell_args_do_not_interpolate_requested_command() {
    let spec = ProcessSpec::new("test", "echo $(touch should-not-run)", 128)
        .args(vec!["hello; rm -rf /".to_owned()]);
    let limits = vec![
        ChildResourceLimit {
            flag: "-n",
            value: 256,
        },
        ChildResourceLimit {
            flag: "-t",
            value: 60,
        },
    ];

    let args = resource_limit_shell_args_for_limits(&limits, &spec);

    assert_eq!(
        args,
        vec![
            "-c".to_owned(),
            "ulimit -n \"$1\" && ulimit -t \"$2\" && shift 2 && exec \"$@\"".to_owned(),
            RESOURCE_LIMIT_ARG0.to_owned(),
            "256".to_owned(),
            "60".to_owned(),
            "echo $(touch should-not-run)".to_owned(),
            "hello; rm -rf /".to_owned(),
        ]
    );
}

#[test]
fn shell_args_without_limits_exec_the_command_directly() {
    let spec = ProcessSpec::new("test", "true", 16);
    let args = resource_limit_shell_args_for_limits(&Vec::new(), &spec);
    assert_eq!(
        args,
        vec![
            "-c".to_owned(),
            "exec \"$@\"".to_owned(),
            RESOURCE_LIMIT_ARG0.to_owned(),
            "true".to_owned(),
        ]
    );
}
