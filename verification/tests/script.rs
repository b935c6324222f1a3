use agent::errors::{MonitorError, UploadError};
use agent::script::{
    decimal, monitor_command, upload_command, DeviceDescriptor, RunnableCommand, ScriptFault,
    ScriptStage,
};

fn fault(stage: ScriptStage, detail: &str) -> ScriptFault {
    ScriptFault { stage, detail: detail.to_string() }
}

fn monitor_message(r: Result<RunnableCommand, MonitorError>) -> String {
    match r {
        Err(MonitorError::TempFileError(e)) => e.0.to_string(),
        Ok(command) => panic!("unexpected: {:?}", command),
    }
}

fn upload_message(r: Result<RunnableCommand, UploadError>) -> String {
    match r {
        Err(UploadError::TempFileError(e)) => e.0.to_string(),
        Ok(command) => panic!("unexpected: {:?}", command),
    }
}

#[test]
fn decimal_writes_numbers_without_leading_zeros() {
    assert_eq!(decimal(0), "0");
    assert_eq!(decimal(7), "7");
    assert_eq!(decimal(10), "10");
    assert_eq!(decimal(11520), "11520");
    assert_eq!(decimal(115200), "115200");
    assert_eq!(decimal(1000000007), "1000000007");
    assert_eq!(decimal(u32::MAX), "4294967295");
}

#[test]
fn the_monitor_command_runs_bash_on_the_script() {
    let command = monitor_command(Ok("/tmp/monitor.sh"), Some("/dev/ttyUSB0"), 115200).unwrap();
    assert_eq!(
        command,
        RunnableCommand {
            program: "bash".to_string(),
            args: vec![
                "/tmp/monitor.sh".to_string(),
                "-d".to_string(),
                "/dev/ttyUSB0".to_string(),
                "-b".to_string(),
                "115200".to_string(),
            ],
        }
    );
}

#[test]
fn the_upload_command_adds_the_firmware() {
    let command =
        upload_command(Ok("/tmp/upload.sh"), Some("/dev/ttyACM0"), 11520, Some("/srv/fw.hex"))
            .unwrap();
    assert_eq!(command.program, "bash");
    assert_eq!(
        command.args,
        vec!["/tmp/upload.sh", "-d", "/dev/ttyACM0", "-b", "11520", "-f", "/srv/fw.hex"]
    );
}

#[test]
fn the_monitor_command_reports_each_fault_of_the_script() {
    assert_eq!(
        monitor_message(monitor_command(Err(fault(ScriptStage::Create, "disk full")), Some("d"), 1)),
        "Failed to create temporary for nRF52 agent's monitor script file: disk full"
    );
    assert_eq!(
        monitor_message(monitor_command(Err(fault(ScriptStage::Write, "disk full")), Some("d"), 1)),
        "Failed to write temporary for nRF52 agent's monitor script file: disk full"
    );
    assert_eq!(
        monitor_message(monitor_command(Err(fault(ScriptStage::Persist, "denied")), Some("d"), 1)),
        "Failed to persist temporary for nRF52 agent's monitor script file: denied"
    );
    assert_eq!(
        monitor_message(monitor_command(Err(fault(ScriptStage::Path, "unused")), Some("d"), 1)),
        "Failed to process path for nRF52 agent's monitor script file"
    );
}

#[test]
fn the_monitor_command_needs_the_device_path_as_text() {
    assert_eq!(
        monitor_message(monitor_command(Ok("/tmp/monitor.sh"), None, 115200)),
        "Failed to process path for nRF52 device file"
    );
    assert_eq!(
        monitor_message(monitor_command(Err(fault(ScriptStage::Create, "first")), None, 115200)),
        "Failed to create temporary for nRF52 agent's monitor script file: first"
    );
}

#[test]
fn the_upload_command_reports_each_fault() {
    assert_eq!(
        upload_message(upload_command(Err(fault(ScriptStage::Create, "x")), Some("d"), 1, Some("f"))),
        "Failed to create temporary for nRF52 agent's upload script file: x"
    );
    assert_eq!(
        upload_message(upload_command(Err(fault(ScriptStage::Write, "y")), None, 1, None)),
        "Failed to write temporary for nRF52 agent's upload script file: y"
    );
    assert_eq!(
        upload_message(upload_command(Err(fault(ScriptStage::Path, "")), Some("d"), 1, Some("f"))),
        "Failed to process path for nRF52 agent's upload script file"
    );
    assert_eq!(
        upload_message(upload_command(Ok("s"), None, 1, None)),
        "Failed to process path for nRF52 device file"
    );
    assert_eq!(
        upload_message(upload_command(Ok("s"), Some("d"), 1, None)),
        "Failed to process path for nRF52 firmware file"
    );
}

#[test]
fn a_descriptor_keeps_its_device() {
    let device = DeviceDescriptor::new(Some("/dev/ttyUSB0".to_string()), 9600);
    assert_eq!(device.path(), Some("/dev/ttyUSB0"));
    assert_eq!(device.baudrate(), 9600);
    let command = device.monitor_command(Ok("/tmp/m.sh")).unwrap();
    assert_eq!(command.args, vec!["/tmp/m.sh", "-d", "/dev/ttyUSB0", "-b", "9600"]);
    let command = device.upload_command(Ok("/tmp/u.sh"), Some("fw.bin")).unwrap();
    assert_eq!(command.args, vec!["/tmp/u.sh", "-d", "/dev/ttyUSB0", "-b", "9600", "-f", "fw.bin"]);

    let odd = DeviceDescriptor::new(None, 9600);
    assert_eq!(odd.path(), None);
    assert_eq!(
        monitor_message(odd.monitor_command(Ok("/tmp/m.sh"))),
        "Failed to process path for nRF52 device file"
    );
}
