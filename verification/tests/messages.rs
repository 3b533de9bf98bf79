//! Every error renders to a message carrying the full command line, and a
//! failed operation additionally renders its exit code and captured output.

use lunar_magic_wrapper::WrapperErr;

#[test]
fn missing_tool_message() {
    let e = WrapperErr::LunarMagicMissing { command: String::from("lm.exe -ExportGFX rom.smc") };
    assert_eq!(
        e.message(),
        "Lunar Magic not found while performing operation 'lm.exe -ExportGFX rom.smc'"
    );
}

#[test]
fn operation_message_with_code_and_output() {
    let e = WrapperErr::Operation {
        code: Some(42),
        command: String::from("lm.exe -ImportGFX rom.smc"),
        output: vec![String::from("error: bad ROM"), String::from("aborting")],
    };
    assert_eq!(
        e.message(),
        "Lunar Magic returned with error code 42 while performing operation \
         'lm.exe -ImportGFX rom.smc' with the following output:\n\terror: bad ROM\n\taborting"
    );
}

#[test]
fn operation_message_with_negative_code() {
    let e = WrapperErr::Operation {
        code: Some(-1073741819),
        command: String::from("lm.exe -ImportGFX rom.smc"),
        output: vec![],
    };
    assert_eq!(
        e.message(),
        "Lunar Magic returned with error code -1073741819 while performing operation \
         'lm.exe -ImportGFX rom.smc' with the following output:\n\t"
    );
}

#[test]
fn operation_message_with_smallest_code() {
    let e = WrapperErr::Operation {
        code: Some(i32::MIN),
        command: String::from("c"),
        output: vec![String::from("x")],
    };
    assert_eq!(
        e.message(),
        "Lunar Magic returned with error code -2147483648 while performing operation \
         'c' with the following output:\n\tx"
    );
}

#[test]
fn operation_message_without_code() {
    let e = WrapperErr::Operation {
        code: None,
        command: String::from("lm.exe -ImportGFX rom.smc"),
        output: vec![String::from("killed")],
    };
    assert_eq!(
        e.message(),
        "Lunar Magic failed while performing operation \
         'lm.exe -ImportGFX rom.smc' with the following output:\n\tkilled"
    );
}

#[test]
fn failed_to_execute_message() {
    let e = WrapperErr::FailedToExecute { command: String::from("lm.exe -ExportGFX rom.smc") };
    assert_eq!(
        e.message(),
        "Failed to execute Lunar Magic while attempting to perform operation \
         'lm.exe -ExportGFX rom.smc'"
    );
}

#[test]
fn no_temp_dir_message() {
    let e = WrapperErr::NoTempDir { command: String::from("lm.exe -ExportGFX rom.smc") };
    assert_eq!(
        e.message(),
        "Failed to create temporary folder while attempting to perform operation \
         'lm.exe -ExportGFX rom.smc'"
    );
}

#[test]
fn no_temp_file_message() {
    let e = WrapperErr::NoTempFile { command: String::from("lm.exe -ExportGFX rom.smc") };
    assert_eq!(
        e.message(),
        "Failed to read temporary log file while attempting to perform operation \
         'lm.exe -ExportGFX rom.smc'"
    );
}
