//! The commands that run the monitor and upload scripts of the nRF52 agent.
//!
//! A script is first written to a temporary file; this module takes what
//! came of that and says which command is to be run, or which error is to be
//! reported.

use crate::errors::{BasicAgentError, MonitorError, TempFileError, UploadError};
use vstd::prelude::*;
use vstd::string::StringExecFns;

verus! {

/// The device that the agent serves. It is set at startup and never changes.
#[derive(Debug)]
pub struct DeviceDescriptor {
    path: Option<String>,
    baudrate: u32,
}

impl DeviceDescriptor {
    /// The path of the device file, where it can be written as text.
    pub closed spec fn spec_path(&self) -> Option<Seq<char>> {
        match self.path {
            Some(p) => Some(p@),
            None => None,
        }
    }

    /// The baud rate of the serial line to the device.
    pub closed spec fn spec_baudrate(&self) -> u32 {
        self.baudrate
    }

    /// The descriptor of the device at `path` (`None` where the path cannot
    /// be written as text) with the given baud rate.
    pub fn new(path: Option<String>, baudrate: u32) -> (d: DeviceDescriptor)
        ensures
            d.spec_path() == text_model(path),
            d.spec_baudrate() == baudrate,
    {
        DeviceDescriptor { path, baudrate }
    }

    /// The path of the device file, where it can be written as text.
    pub fn path(&self) -> (p: Option<&str>)
        ensures
            str_model(p) == self.spec_path(),
    {
        match &self.path {
            Some(p) => Some(p.as_str()),
            None => None,
        }
    }

    /// The baud rate of the serial line to the device.
    #[verifier::when_used_as_spec(spec_baudrate)]
    pub fn baudrate(&self) -> (b: u32)
        ensures
            b == self.spec_baudrate(),
    {
        self.baudrate
    }
}

/// The mathematical value of a text that may be missing.
pub open spec fn text_model(text: Option<String>) -> Option<Seq<char>> {
    match text {
        Some(t) => Some(t@),
        None => None,
    }
}

/// The mathematical value of a text that may be missing.
pub open spec fn str_model(text: Option<&str>) -> Option<Seq<char>> {
    match text {
        Some(t) => Some(t@),
        None => None,
    }
}

/// A command that can be run: a program and its arguments. Nothing here
/// runs it.
#[derive(Clone, Debug, PartialEq, Eq)]
pub struct RunnableCommand {
    pub program: String,
    pub args: Vec<String>,
}

/// The mathematical value of a [`RunnableCommand`].
pub struct CommandModel {
    pub program: Seq<char>,
    pub args: Seq<Seq<char>>,
}

impl View for RunnableCommand {
    type V = CommandModel;

    open spec fn view(&self) -> CommandModel {
        CommandModel { program: self.program@, args: self.args@.map_values(|a: String| a@) }
    }
}

/// The stage at which writing a script to a temporary file went wrong.
#[derive(Clone, Copy, Debug, PartialEq, Eq, Structural)]
pub enum ScriptStage {
    /// The temporary file could not be created.
    Create,
    /// The script could not be written to the file.
    Write,
    /// The file could not be kept.
    Persist,
    /// The path of the file cannot be written as text.
    Path,
}

/// Why a script could not be written to a temporary file.
#[derive(Clone, Debug, PartialEq, Eq)]
pub struct ScriptFault {
    pub stage: ScriptStage,
    /// The words of the operating system for the failure; not used for
    /// [`ScriptStage::Path`].
    pub detail: String,
}

/// The mathematical value of what writing a script to a temporary file gave:
/// the path of the file, or the stage of the failure and its words.
pub open spec fn script_model(script: Result<&str, ScriptFault>) -> Result<
    Seq<char>,
    (ScriptStage, Seq<char>),
> {
    match script {
        Ok(path) => Ok(path@),
        Err(fault) => Err((fault.stage, fault.detail@)),
    }
}

/// The decimal digit `d`, for `d` below ten.
pub open spec fn digit_char(d: nat) -> char {
    seq!['0', '1', '2', '3', '4', '5', '6', '7', '8', '9'][d as int]
}

/// The decimal text of `n`, without leading zeros.
pub open spec fn decimal_text(n: nat) -> Seq<char>
    decreases n,
{
    if n < 10 {
        seq![digit_char(n)]
    } else {
        decimal_text(n / 10) + seq![digit_char(n % 10)]
    }
}

/// The message for a script of the given kind (`monitor` or `upload`) that
/// could not be written to a temporary file.
pub open spec fn script_fault_text(kind: Seq<char>, stage: ScriptStage, detail: Seq<char>) -> Seq<
    char,
> {
    match stage {
        ScriptStage::Create => "Failed to create temporary for nRF52 agent's "@ + kind
            + " script file: "@ + detail,
        ScriptStage::Write => "Failed to write temporary for nRF52 agent's "@ + kind
            + " script file: "@ + detail,
        ScriptStage::Persist => "Failed to persist temporary for nRF52 agent's "@ + kind
            + " script file: "@ + detail,
        ScriptStage::Path => "Failed to process path for nRF52 agent's "@ + kind + " script file"@,
    }
}

/// The arguments that every script takes: its own path, the device and the
/// baud rate.
pub open spec fn common_args(script: Seq<char>, device: Seq<char>, baudrate: u32) -> Seq<
    Seq<char>,
> {
    seq![script, "-d"@, device, "-b"@, decimal_text(baudrate as nat)]
}

/// The monitor command, or the message of the error: a fault of the script
/// comes first, then a device path that is no text.
pub open spec fn monitor_plan(
    script: Result<Seq<char>, (ScriptStage, Seq<char>)>,
    device: Option<Seq<char>>,
    baudrate: u32,
) -> Result<CommandModel, Seq<char>> {
    match script {
        Err((stage, detail)) => Err(script_fault_text("monitor"@, stage, detail)),
        Ok(path) => match device {
            None => Err("Failed to process path for nRF52 device file"@),
            Some(d) => Ok(CommandModel { program: "bash"@, args: common_args(path, d, baudrate) }),
        },
    }
}

/// The upload command, or the message of the error: a fault of the script
/// comes first, then a device path that is no text, then a firmware path
/// that is no text.
pub open spec fn upload_plan(
    script: Result<Seq<char>, (ScriptStage, Seq<char>)>,
    device: Option<Seq<char>>,
    baudrate: u32,
    firmware: Option<Seq<char>>,
) -> Result<CommandModel, Seq<char>> {
    match script {
        Err((stage, detail)) => Err(script_fault_text("upload"@, stage, detail)),
        Ok(path) => match device {
            None => Err("Failed to process path for nRF52 device file"@),
            Some(d) => match firmware {
                None => Err("Failed to process path for nRF52 firmware file"@),
                Some(f) => Ok(
                    CommandModel {
                        program: "bash"@,
                        args: common_args(path, d, baudrate) + seq!["-f"@, f],
                    },
                ),
            },
        },
    }
}

/// The decimal digit `d` as a text.
fn digit_str(d: u32) -> (s: &'static str)
    requires
        d < 10,
    ensures
        s@ == seq![digit_char(d as nat)],
{
    proof {
        reveal_strlit("0");
        reveal_strlit("1");
        reveal_strlit("2");
        reveal_strlit("3");
        reveal_strlit("4");
        reveal_strlit("5");
        reveal_strlit("6");
        reveal_strlit("7");
        reveal_strlit("8");
        reveal_strlit("9");
    }
    let s = if d == 0 {
        "0"
    } else if d == 1 {
        "1"
    } else if d == 2 {
        "2"
    } else if d == 3 {
        "3"
    } else if d == 4 {
        "4"
    } else if d == 5 {
        "5"
    } else if d == 6 {
        "6"
    } else if d == 7 {
        "7"
    } else if d == 8 {
        "8"
    } else {
        "9"
    };
    assert(s@ =~= seq![digit_char(d as nat)]);
    s
}

/// The decimal text of `n`, without leading zeros.
pub fn decimal(n: u32) -> (s: String)
    ensures
        s@ == decimal_text(n as nat),
    decreases n,
{
    if n < 10 {
        digit_str(n).to_owned()
    } else {
        let mut s = decimal(n / 10);
        s.append(digit_str(n % 10));
        s
    }
}

/// The message for a script of the given kind that could not be written to
/// a temporary file.
fn script_fault_message(kind: &str, fault: &ScriptFault) -> (s: String)
    ensures
        s@ == script_fault_text(kind@, fault.stage, fault.detail@),
{
    match fault.stage {
        ScriptStage::Create => {
            let mut s = "Failed to create temporary for nRF52 agent's ".to_owned();
            s.append(kind);
            s.append(" script file: ");
            s.append(fault.detail.as_str());
            s
        },
        ScriptStage::Write => {
            let mut s = "Failed to write temporary for nRF52 agent's ".to_owned();
            s.append(kind);
            s.append(" script file: ");
            s.append(fault.detail.as_str());
            s
        },
        ScriptStage::Persist => {
            let mut s = "Failed to persist temporary for nRF52 agent's ".to_owned();
            s.append(kind);
            s.append(" script file: ");
            s.append(fault.detail.as_str());
            s
        },
        ScriptStage::Path => {
            let mut s = "Failed to process path for nRF52 agent's ".to_owned();
            s.append(kind);
            s.append(" script file");
            s
        },
    }
}

/// The arguments that every script takes.
fn build_common_args(script: &str, device: &str, baudrate: u32) -> (args: Vec<String>)
    ensures
        args@.map_values(|a: String| a@) == common_args(script@, device@, baudrate),
{
    let mut args: Vec<String> = Vec::new();
    args.push(script.to_owned());
    args.push("-d".to_owned());
    args.push(device.to_owned());
    args.push("-b".to_owned());
    args.push(decimal(baudrate));
    assert(args@.map_values(|a: String| a@) =~= common_args(script@, device@, baudrate));
    args
}

/// A temporary-file error with the given message.
fn temp_file_error(message: &str) -> (e: TempFileError)
    ensures
        e.0@ == message@,
{
    TempFileError(BasicAgentError::new(message))
}

/// The command that monitors the device: `bash` with the path of the monitor
/// script, `-d` and the device path, `-b` and the baud rate.
///
/// `script` is what writing the monitor script to a temporary file gave;
/// `device` is the path of the device file, where it can be written as text.
pub fn monitor_command(script: Result<&str, ScriptFault>, device: Option<&str>, baudrate: u32) -> (r:
    Result<RunnableCommand, MonitorError>)
    ensures
        match r {
            Ok(command) => monitor_plan(script_model(script), str_model(device), baudrate) == Ok::<
                CommandModel,
                Seq<char>,
            >(command@),
            Err(e) => monitor_plan(script_model(script), str_model(device), baudrate) == Err::<
                CommandModel,
                Seq<char>,
            >(e.message()),
        },
{
    match script {
        Err(fault) => {
            let message = script_fault_message("monitor", &fault);
            Err(MonitorError::TempFileError(temp_file_error(message.as_str())))
        },
        Ok(path) => match device {
            None => Err(
                MonitorError::TempFileError(
                    temp_file_error("Failed to process path for nRF52 device file"),
                ),
            ),
            Some(d) => Ok(
                RunnableCommand {
                    program: "bash".to_owned(),
                    args: build_common_args(path, d, baudrate),
                },
            ),
        },
    }
}

impl DeviceDescriptor {
    /// The command that monitors this device; see [`monitor_command`].
    pub fn monitor_command(&self, script: Result<&str, ScriptFault>) -> (r: Result<
        RunnableCommand,
        MonitorError,
    >)
        ensures
            match r {
                Ok(command) => monitor_plan(
                    script_model(script),
                    self.spec_path(),
                    self.spec_baudrate(),
                ) == Ok::<CommandModel, Seq<char>>(command@),
                Err(e) => monitor_plan(script_model(script), self.spec_path(), self.spec_baudrate())
                    == Err::<CommandModel, Seq<char>>(e.message()),
            },
    {
        monitor_command(script, self.path(), self.baudrate)
    }

    /// The command that flashes a firmware to this device; see
    /// [`upload_command`].
    pub fn upload_command(&self, script: Result<&str, ScriptFault>, firmware: Option<&str>) -> (r:
        Result<RunnableCommand, UploadError>)
        ensures
            match r {
                Ok(command) => upload_plan(
                    script_model(script),
                    self.spec_path(),
                    self.spec_baudrate(),
                    str_model(firmware),
                ) == Ok::<CommandModel, Seq<char>>(command@),
                Err(e) => upload_plan(
                    script_model(script),
                    self.spec_path(),
                    self.spec_baudrate(),
                    str_model(firmware),
                ) == Err::<CommandModel, Seq<char>>(e.message()),
            },
    {
        upload_command(script, self.path(), self.baudrate, firmware)
    }
}

/// The command that flashes a firmware: the arguments of the monitor
/// command, then `-f` and the path of the firmware.
///
/// `script` is what writing the upload script to a temporary file gave;
/// `device` and `firmware` are the paths of the device file and of the
/// firmware, where they can be written as text.
pub fn upload_command(
    script: Result<&str, ScriptFault>,
    device: Option<&str>,
    baudrate: u32,
    firmware: Option<&str>,
) -> (r: Result<RunnableCommand, UploadError>)
    ensures
        match r {
            Ok(command) => upload_plan(
                script_model(script),
                str_model(device),
                baudrate,
                str_model(firmware),
            ) == Ok::<CommandModel, Seq<char>>(command@),
            Err(e) => upload_plan(
                script_model(script),
                str_model(device),
                baudrate,
                str_model(firmware),
            ) == Err::<CommandModel, Seq<char>>(e.message()),
        },
{
    match script {
        Err(fault) => {
            let message = script_fault_message("upload", &fault);
            Err(UploadError::TempFileError(temp_file_error(message.as_str())))
        },
        Ok(path) => match device {
            None => Err(
                UploadError::TempFileError(
                    temp_file_error("Failed to process path for nRF52 device file"),
                ),
            ),
            Some(d) => match firmware {
                None => Err(
                    UploadError::TempFileError(
                        temp_file_error("Failed to process path for nRF52 firmware file"),
                    ),
                ),
                Some(f) => {
                    let mut args = build_common_args(path, d, baudrate);
                    args.push("-f".to_owned());
                    args.push(f.to_owned());
                    assert(args@.map_values(|a: String| a@) =~= common_args(path@, d@, baudrate)
                        + seq!["-f"@, f@]);
                    Ok(RunnableCommand { program: "bash".to_owned(), args })
                },
            },
        },
    }
}

} // verus!
