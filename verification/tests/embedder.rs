use bootloader::embedder::{
    archive_file_name, archiver_args, begin, directives, is_bootloader_target, link_library_name,
    object_file_name, objcopy_args, on_tool_exit, plan_embedding, redefine_end_arg,
    redefine_size_arg, redefine_start_arg, EmbedError, EmbedInputs, EmbedderAction, EmbedderState,
};

fn good_inputs() -> EmbedInputs {
    EmbedInputs {
        kernel_path: Some(String::from("/kernels/mykernel")),
        kernel_file_name: Some(String::from("mykernel")),
        kernel_dir: String::from("/kernels"),
        out_dir: String::from("/out"),
        objcopy: Some(String::from("/tools/llvm-objcopy")),
        archiver: Some(String::from("/tools/llvm-ar")),
    }
}

#[test]
fn only_the_bootloader_target_embeds() {
    assert!(is_bootloader_target("x86_64-bootloader"));
    assert!(!is_bootloader_target("x86_64-unknown-linux-gnu"));
    assert!(!is_bootloader_target(""));
}

#[test]
fn derived_names_for_mykernel() {
    assert_eq!(object_file_name("mykernel"), "kernel_bin-mykernel.o");
    assert_eq!(archive_file_name("mykernel"), "libkernel_bin-mykernel.a");
    assert_eq!(link_library_name("mykernel"), "kernel_bin-mykernel");
}

#[test]
fn derived_names_for_empty_name() {
    assert_eq!(object_file_name(""), "kernel_bin-.o");
    assert_eq!(archive_file_name(""), "libkernel_bin-.a");
    assert_eq!(link_library_name(""), "kernel_bin-");
}

#[test]
fn rename_arguments_bind_the_fixed_symbols() {
    assert_eq!(
        redefine_start_arg("mykernel"),
        "_binary_mykernel_start=_kernel_start_addr"
    );
    assert_eq!(
        redefine_end_arg("mykernel"),
        "_binary_mykernel_end=_kernel_end_addr"
    );
    assert_eq!(
        redefine_size_arg("mykernel"),
        "_binary_mykernel_size=_kernel_size"
    );
}

#[test]
fn renamed_symbols_do_not_vary_with_the_kernel_name() {
    for name in ["mykernel", "other-kernel.elf", "a"] {
        assert!(redefine_start_arg(name).ends_with("=_kernel_start_addr"));
        assert!(redefine_end_arg(name).ends_with("=_kernel_end_addr"));
        assert!(redefine_size_arg(name).ends_with("=_kernel_size"));
    }
}

#[test]
fn objcopy_command_line_exact() {
    let args = objcopy_args("mykernel", "/out/kernel_bin-mykernel.o");
    let expected: Vec<String> = [
        "-I",
        "binary",
        "-O",
        "elf64-x86-64",
        "--binary-architecture=i386:x86-64",
        "--rename-section",
        ".data=.kernel",
        "--redefine-sym",
        "_binary_mykernel_start=_kernel_start_addr",
        "--redefine-sym",
        "_binary_mykernel_end=_kernel_end_addr",
        "--redefine-sym",
        "_binary_mykernel_size=_kernel_size",
        "mykernel",
        "/out/kernel_bin-mykernel.o",
    ]
    .iter()
    .map(|s| String::from(*s))
    .collect();
    assert_eq!(args, expected);
}

#[test]
fn archiver_command_line_exact() {
    let args = archiver_args("/out/libkernel_bin-mykernel.a", "/out/kernel_bin-mykernel.o");
    let expected: Vec<String> = [
        "crs",
        "/out/libkernel_bin-mykernel.a",
        "/out/kernel_bin-mykernel.o",
    ]
    .iter()
    .map(|s| String::from(*s))
    .collect();
    assert_eq!(args, expected);
}

#[test]
fn directives_exact() {
    let lines = directives("/kernels/mykernel", "/out", "mykernel");
    let expected: Vec<String> = [
        "cargo:rerun-if-changed=/kernels/mykernel",
        "cargo:rerun-if-changed=build.rs",
        "cargo:rustc-link-search=native=/out",
        "cargo:rustc-link-lib=static=kernel_bin-mykernel",
    ]
    .iter()
    .map(|s| String::from(*s))
    .collect();
    assert_eq!(lines, expected);
}

#[test]
fn planning_is_deterministic() {
    let p1 = plan_embedding(good_inputs()).unwrap();
    let p2 = plan_embedding(good_inputs()).unwrap();
    assert_eq!(p1.kernel_path, p2.kernel_path);
    assert_eq!(p1.kernel_file_name, p2.kernel_file_name);
    assert_eq!(p1.kernel_dir, p2.kernel_dir);
    assert_eq!(p1.out_dir, p2.out_dir);
    assert_eq!(p1.objcopy, p2.objcopy);
    assert_eq!(p1.archiver, p2.archiver);
    assert_eq!(p1.object_path, p2.object_path);
    assert_eq!(p1.archive_path, p2.archive_path);
    assert_eq!(
        objcopy_args(&p1.kernel_file_name, &p1.object_path),
        objcopy_args(&p2.kernel_file_name, &p2.object_path)
    );
    assert_eq!(
        archiver_args(&p1.archive_path, &p1.object_path),
        archiver_args(&p2.archive_path, &p2.object_path)
    );
    assert_eq!(
        directives(&p1.kernel_path, &p1.out_dir, &p1.kernel_file_name),
        directives(&p2.kernel_path, &p2.out_dir, &p2.kernel_file_name)
    );
}

#[test]
fn plan_places_artifacts_in_the_output_directory() {
    let plan = plan_embedding(good_inputs()).unwrap();
    assert_eq!(plan.object_path, "/out/kernel_bin-mykernel.o");
    assert_eq!(plan.archive_path, "/out/libkernel_bin-mykernel.a");
}

#[test]
fn missing_kernel_env_is_fatal_before_anything_runs() {
    let mut inputs = good_inputs();
    inputs.kernel_path = None;
    let (state, action) = begin(inputs);
    assert!(matches!(
        state,
        EmbedderState::Failed {
            error: EmbedError::MissingKernelEnv
        }
    ));
    match action {
        EmbedderAction::AbortBuild { message } => {
            assert_eq!(
                message,
                "The KERNEL environment variable must be set for building the bootloader."
            );
            assert!(message.contains("KERNEL"));
        }
        _ => panic!("a missing KERNEL variable must abort the build"),
    }
}

#[test]
fn invalid_kernel_file_name_fails_before_any_subprocess() {
    let mut inputs = good_inputs();
    inputs.kernel_file_name = None;
    let (state, action) = begin(inputs);
    assert!(matches!(
        state,
        EmbedderState::Failed {
            error: EmbedError::InvalidKernelFileName
        }
    ));
    assert!(matches!(action, EmbedderAction::AbortBuild { .. }));
}

#[test]
fn missing_toolchain_is_fatal_with_remediation() {
    let mut inputs = good_inputs();
    inputs.objcopy = None;
    let (state, action) = begin(inputs);
    assert!(matches!(
        state,
        EmbedderState::Failed {
            error: EmbedError::ToolchainNotFound
        }
    ));
    match action {
        EmbedderAction::AbortBuild { message } => {
            assert!(message.contains("llvm-tools not found"));
            assert!(message.contains("rustup component add llvm-tools-preview"));
        }
        _ => panic!("a missing toolchain must abort the build"),
    }
}

#[test]
fn missing_archiver_is_fatal_too() {
    let mut inputs = good_inputs();
    inputs.archiver = None;
    let (state, _) = begin(inputs);
    assert!(matches!(
        state,
        EmbedderState::Failed {
            error: EmbedError::ToolchainNotFound
        }
    ));
}

#[test]
fn failed_objcopy_aborts_without_touching_the_archiver() {
    let (state, action) = begin(good_inputs());
    assert!(matches!(action, EmbedderAction::RunTool { .. }));
    let (state, action) = on_tool_exit(state, false);
    assert!(matches!(
        state,
        EmbedderState::Failed {
            error: EmbedError::ObjcopyFailed
        }
    ));
    match action {
        EmbedderAction::AbortBuild { message } => {
            assert_eq!(message, "Error: Running objcopy failed");
        }
        _ => panic!("a failed objcopy run must abort the build"),
    }
}

#[test]
fn failed_archiver_aborts_without_emitting_directives() {
    let (state, _) = begin(good_inputs());
    let (state, action) = on_tool_exit(state, true);
    assert!(matches!(action, EmbedderAction::RunTool { .. }));
    let (state, action) = on_tool_exit(state, false);
    assert!(matches!(
        state,
        EmbedderState::Failed {
            error: EmbedError::ArchiverFailed
        }
    ));
    match action {
        EmbedderAction::AbortBuild { message } => {
            assert_eq!(message, "Error: Running ar failed");
        }
        _ => panic!("a failed archiver run must abort the build"),
    }
}

#[test]
fn end_to_end_embedding_of_mykernel() {
    let (state, action) = begin(good_inputs());
    match &action {
        EmbedderAction::RunTool {
            program,
            current_dir,
            args,
        } => {
            assert_eq!(program.as_str(), "/tools/llvm-objcopy");
            assert_eq!(current_dir.as_deref(), Some("/kernels"));
            assert_eq!(args[args.len() - 2], "mykernel");
            assert_eq!(args[args.len() - 1], "/out/kernel_bin-mykernel.o");
        }
        _ => panic!("the pipeline must first run the object-copy tool"),
    }
    let (state, action) = on_tool_exit(state, true);
    match &action {
        EmbedderAction::RunTool {
            program,
            current_dir,
            args,
        } => {
            assert_eq!(program.as_str(), "/tools/llvm-ar");
            assert!(current_dir.is_none());
            assert_eq!(args[0], "crs");
            assert_eq!(args[1], "/out/libkernel_bin-mykernel.a");
            assert_eq!(args[2], "/out/kernel_bin-mykernel.o");
        }
        _ => panic!("after a successful object-copy run the archiver runs"),
    }
    let (state, action) = on_tool_exit(state, true);
    assert!(matches!(state, EmbedderState::Finished));
    match action {
        EmbedderAction::EmitDirectives { lines } => {
            assert_eq!(lines.len(), 4);
            assert_eq!(lines[0], "cargo:rerun-if-changed=/kernels/mykernel");
            assert_eq!(lines[3], "cargo:rustc-link-lib=static=kernel_bin-mykernel");
        }
        _ => panic!("two successful runs end in the directives"),
    }
}

#[test]
fn every_error_message_is_exact() {
    assert_eq!(
        EmbedError::MissingKernelEnv.message(),
        "The KERNEL environment variable must be set for building the bootloader."
    );
    assert_eq!(
        EmbedError::InvalidKernelFileName.message(),
        "The KERNEL path must end in a file name that is valid UTF-8."
    );
    assert_eq!(
        EmbedError::ToolchainNotFound.message(),
        "Error: llvm-tools not found\nMaybe the rustup component `llvm-tools-preview` is missing?\n  Install it through: `rustup component add llvm-tools-preview`"
    );
    assert_eq!(EmbedError::ObjcopyFailed.message(), "Error: Running objcopy failed");
    assert_eq!(EmbedError::ArchiverFailed.message(), "Error: Running ar failed");
}
