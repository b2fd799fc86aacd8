//! Unit descriptors: what to run, where, and whether it is enabled.

use vstd::prelude::*;

verus! {

/// Program of the front-end web server that is always supervised.
pub const NGINX_PATH: &'static str = "C:/nginx/nginx.exe";

/// Working directory of the front-end web server.
pub const NGINX_CWD: &'static str = "C:/nginx";

/// Arguments that ask a running front-end web server to stop.
pub const NGINX_STOP_ARGS: [&'static str; 2] = ["-s", "stop"];

/// Program of the script interpreter that is always supervised.
pub const PHP_PATH: &'static str = "C:/php/8.1.8/php-cgi.exe";

/// Working directory of the script interpreter.
pub const PHP_CWD: &'static str = "C:/nginx/html";

/// Whether a stored unit takes part in supervision.
#[derive(Debug, Clone, Copy, PartialEq, Eq, Structural)]
pub enum ProcessConfigState {
    Enabled,
    Disabled,
}

/// Descriptor of one supervised process.
#[derive(Debug)]
pub struct ProcessConfig {
    pub program: String,
    pub args: Vec<String>,
    pub cwd: String,
    pub state: ProcessConfigState,
    pub pid: u32,
}

/// Mathematical value of a [`ProcessConfig`].
pub ghost struct ProcessConfigView {
    pub program: Seq<char>,
    pub args: Seq<Seq<char>>,
    pub cwd: Seq<char>,
    pub state: ProcessConfigState,
    pub pid: u32,
}

impl View for ProcessConfig {
    type V = ProcessConfigView;

    open spec fn view(&self) -> ProcessConfigView {
        ProcessConfigView {
            program: self.program@,
            args: self.args.deep_view(),
            cwd: self.cwd@,
            state: self.state,
            pid: self.pid,
        }
    }
}

impl DeepView for ProcessConfig {
    type V = ProcessConfigView;

    open spec fn deep_view(&self) -> ProcessConfigView {
        self@
    }
}

impl ProcessConfigView {
    /// A unit is supervised only if it names a program and is not disabled.
    pub open spec fn enabled(self) -> bool {
        self.program.len() > 0 && self.state != ProcessConfigState::Disabled
    }
}

impl ProcessConfig {
    /// An enabled descriptor for `program`, with no process id recorded.
    pub fn _new(program: String, args: Vec<String>, cwd: String) -> (config: ProcessConfig)
        ensures
            config.program == program,
            config.args == args,
            config.cwd == cwd,
            config.state == ProcessConfigState::Enabled,
            config.pid == 0,
    {
        ProcessConfig { program, args, cwd, state: ProcessConfigState::Enabled, pid: 0 }
    }

    /// Whether the unit is to be supervised.
    pub open spec fn enabled(&self) -> bool {
        self@.enabled()
    }

    /// Tells whether the unit is to be supervised: it names a program and is
    /// not disabled.
    pub fn is_valid(&self) -> (valid: bool)
        ensures
            valid == self.enabled(),
            valid == (self.program@.len() > 0 && self.state != ProcessConfigState::Disabled),
    {
        !self.program.as_str().is_empty() && self.state != ProcessConfigState::Disabled
    }
}

/// The units that are supervised whatever the stored list holds: the
/// front-end web server and the script interpreter behind it, in that order.
pub open spec fn builtin_units() -> Seq<ProcessConfigView> {
    seq![
        ProcessConfigView {
            program: NGINX_PATH@,
            args: Seq::empty(),
            cwd: NGINX_CWD@,
            state: ProcessConfigState::Enabled,
            pid: 0,
        },
        ProcessConfigView {
            program: PHP_PATH@,
            args: seq!["-b"@, "localhost:9123"@],
            cwd: PHP_CWD@,
            state: ProcessConfigState::Enabled,
            pid: 0,
        },
    ]
}

/// What a freshly written unit list holds: one enabled record that names no
/// program yet, for the operator to fill in.
pub open spec fn default_units() -> Seq<ProcessConfigView> {
    seq![
        ProcessConfigView {
            program: Seq::empty(),
            args: Seq::empty(),
            cwd: Seq::empty(),
            state: ProcessConfigState::Enabled,
            pid: 0,
        },
    ]
}

/// The unit list to supervise: the decoded stored list, in its order,
/// followed by the built-in units.
pub fn load(stored: Vec<ProcessConfig>) -> (units: Vec<ProcessConfig>)
    ensures
        units.deep_view() == stored.deep_view() + builtin_units(),
{
    let ghost before = stored.deep_view();
    let mut units = stored;
    let nginx = ProcessConfig {
        program: NGINX_PATH.to_owned(),
        args: Vec::new(),
        cwd: NGINX_CWD.to_owned(),
        state: ProcessConfigState::Enabled,
        pid: 0,
    };
    let mut php_args: Vec<String> = Vec::new();
    php_args.push("-b".to_owned());
    php_args.push("localhost:9123".to_owned());
    let php = ProcessConfig {
        program: PHP_PATH.to_owned(),
        args: php_args,
        cwd: PHP_CWD.to_owned(),
        state: ProcessConfigState::Enabled,
        pid: 0,
    };
    proof {
        assert(nginx.args.deep_view() =~= Seq::<Seq<char>>::empty());
        assert(php.args.deep_view() =~= seq!["-b"@, "localhost:9123"@]);
    }
    units.push(nginx);
    units.push(php);
    proof {
        assert(units.deep_view() =~= before + builtin_units());
    }
    units
}

/// The unit list that is stored when none exists yet.
pub fn create_default() -> (units: Vec<ProcessConfig>)
    ensures
        units.deep_view() == default_units(),
{
    let blank = ProcessConfig {
        program: String::new(),
        args: Vec::new(),
        cwd: String::new(),
        state: ProcessConfigState::Enabled,
        pid: 0,
    };
    proof {
        assert(blank.args.deep_view() =~= Seq::<Seq<char>>::empty());
    }
    let mut units: Vec<ProcessConfig> = Vec::new();
    units.push(blank);
    proof {
        assert(units.deep_view() =~= default_units());
    }
    units
}

} // verus!
