//! The subcommand executor that compiles a bridge from source and runs
//! its binary.
//!
//! Finding the bridge's directory, building it and running its binary are
//! work on the file system and on other processes; the executor's
//! decisions are a run that hands out the next piece of work and takes its
//! answer.
use vstd::prelude::*;
use crate::error::{BridgerError, BridgerErrorView};

verus! {

/// The cargo profile a bridge is compiled with.
#[derive(Clone, Copy, Debug, PartialEq, Eq)]
pub enum CompileChannel {
    Debug,
    Release,
}

impl CompileChannel {
    /// The name of the profile, which is also the directory of its build
    /// output under `target`.
    pub open spec fn spec_name(self) -> Seq<char> {
        match self {
            CompileChannel::Debug => "debug"@,
            CompileChannel::Release => "release"@,
        }
    }

    /// The name of the profile.
    pub fn name(&self) -> (res: &'static str)
        ensures
            res@ == self.spec_name(),
    {
        match self {
            CompileChannel::Debug => "debug",
            CompileChannel::Release => "release",
        }
    }
}

/// The arguments of `cargo` that build the package `package`: the
/// toolchain override if one is set, `build`, `--release` for the release
/// profile, then `-p` and the package.
pub open spec fn cargo_build_args(
    toolchain: Option<Seq<char>>,
    channel: CompileChannel,
    package: Seq<char>,
) -> Seq<Seq<char>> {
    let toolchain_args = match toolchain {
        Some(t) => seq!["+"@ + t],
        None => Seq::<Seq<char>>::empty(),
    };
    let profile_args = if channel == CompileChannel::Release {
        seq!["--"@ + channel.spec_name()]
    } else {
        Seq::<Seq<char>>::empty()
    };
    toolchain_args + seq!["build"@] + profile_args + seq!["-p"@, package]
}

/// The file name of the binary of `package` on the platform.
pub open spec fn binary_file_name(package: Seq<char>, windows: bool) -> Seq<char> {
    if windows {
        package + ".exe"@
    } else {
        package
    }
}

/// The words joined by single spaces.
pub open spec fn join_words(words: Seq<Seq<char>>) -> Seq<char>
    decreases words.len(),
{
    if words.len() == 0 {
        Seq::empty()
    } else if words.len() == 1 {
        words[0]
    } else {
        join_words(words.drop_last()) + " "@ + words.last()
    }
}

/// The words joined by single spaces.
pub fn join_with_spaces(words: &Vec<String>) -> (res: String)
    ensures
        res@ == join_words(words.deep_view()),
{
    let mut text = String::new();
    let mut i: usize = 0;
    while i < words.len()
        invariant
            0 <= i <= words.len(),
            text@ == join_words(words.deep_view().take(i as int)),
        decreases words.len() - i,
    {
        assert(words.deep_view().take(i as int + 1).drop_last() =~= words.deep_view().take(i as int));
        if i == 0 {
            text = words[i].clone();
            assert(words.deep_view().take(1) =~= seq![words[0]@]);
        } else {
            text.append(" ");
            text.append(words[i].as_str());
        }
        i = i + 1;
    }
    assert(words.deep_view().take(i as int) =~= words.deep_view());
    text
}

/// Compiles the source code of a bridge and executes its binary.
#[derive(Clone, Debug)]
pub struct CompileSourceExecutor {
    command: String,
    args: Vec<String>,
    channel: CompileChannel,
    toolchain_version: Option<String>,
}

impl CompileSourceExecutor {
    /// The subcommand, the name of the bridge.
    pub closed spec fn command_view(&self) -> Seq<char> {
        self.command@
    }

    /// The arguments handed to the bridge's binary.
    pub closed spec fn args_view(&self) -> Seq<Seq<char>> {
        self.args.deep_view()
    }

    /// The profile the bridge is compiled with.
    pub closed spec fn channel_view(&self) -> CompileChannel {
        self.channel
    }

    /// The toolchain the bridge is compiled with, if one is set.
    pub closed spec fn toolchain_view(&self) -> Option<Seq<char>> {
        match self.toolchain_version {
            Some(t) => Some(t@),
            None => None,
        }
    }

    pub fn new(
        command: String,
        args: Vec<String>,
        channel: CompileChannel,
        toolchain_version: Option<String>,
    ) -> (res: CompileSourceExecutor)
        ensures
            res.command_view() == command@,
            res.args_view() == args.deep_view(),
            res.channel_view() == channel,
            res.toolchain_view() == (match toolchain_version {
                Some(t) => Some(t@),
                None => None::<Seq<char>>,
            }),
    {
        CompileSourceExecutor { command, args, channel, toolchain_version }
    }

    /// A copy of the executor, with the same settings.
    pub fn duplicate(&self) -> (res: CompileSourceExecutor)
        ensures
            res.command_view() == self.command_view(),
            res.args_view() == self.args_view(),
            res.channel_view() == self.channel_view(),
            res.toolchain_view() == self.toolchain_view(),
    {
        let args = self.args.clone();
        assert(args.deep_view() =~= self.args.deep_view());
        let toolchain_version = match &self.toolchain_version {
            Some(t) => Some(t.clone()),
            None => None,
        };
        CompileSourceExecutor { command: self.command.clone(), args, channel: self.channel, toolchain_version }
    }

    /// The subcommand, the name of the bridge.
    pub fn command(&self) -> (res: &String)
        ensures
            res@ == self.command_view(),
    {
        &self.command
    }

    /// The arguments of `cargo` that build the package `package`.
    pub fn cargo_build_args(&self, package: &str) -> (res: Vec<String>)
        ensures
            res.deep_view() == cargo_build_args(self.toolchain_view(), self.channel_view(), package@),
    {
        let mut args: Vec<String> = Vec::new();
        let ghost toolchain_args: Seq<Seq<char>> = Seq::empty();
        match &self.toolchain_version {
            Some(toolchain) => {
                let arg = String::from_str("+").concat(toolchain.as_str());
                args.push(arg);
                proof {
                    toolchain_args = seq!["+"@ + toolchain@];
                }
            },
            None => {},
        }
        assert(args.deep_view() =~= toolchain_args);
        args.push(String::from_str("build"));
        let ghost profile_args: Seq<Seq<char>> = Seq::empty();
        match self.channel {
            CompileChannel::Release => {
                let arg = String::from_str("--").concat(self.channel.name());
                args.push(arg);
                proof {
                    profile_args = seq!["--"@ + self.channel.spec_name()];
                }
            },
            CompileChannel::Debug => {},
        }
        assert(args.deep_view() =~= toolchain_args + seq!["build"@] + profile_args);
        args.push(String::from_str("-p"));
        args.push(String::from_str(package));
        assert(args.deep_view() =~= cargo_build_args(self.toolchain_view(), self.channel_view(), package@));
        args
    }
}

/// The file name of the binary of `package`: with `.exe` on Windows.
pub fn binary_file_name_for(package: &str, windows: bool) -> (res: String)
    ensures
        res@ == binary_file_name(package@, windows),
{
    if windows {
        String::from_str(package).concat(".exe")
    } else {
        String::from_str(package)
    }
}

/// What a run of the executor works with: the executor's settings, the
/// package prefixes that are allowed, and whether binaries carry `.exe`.
pub struct CompileConfig {
    pub command: Seq<char>,
    pub args: Seq<Seq<char>>,
    pub channel: CompileChannel,
    pub toolchain: Option<Seq<char>>,
    pub prefixes: Seq<Seq<char>>,
    pub windows: bool,
}

/// How a run ended.
#[derive(Clone, Copy, Debug, PartialEq, Eq)]
pub enum CompileEnd {
    /// A bridge was built, or its build or run failed other than by not
    /// being found: the subcommand is handled.
    Completed,
    /// The directory of the bridger's own binary is unknown.
    NoBinaryPath,
    /// No allowed prefix led to a bridge that could be run.
    Unsupported,
}

/// Where a run stands. The index is that of the package prefix being
/// tried; the flag tells whether the bridge's directory is named after the
/// subcommand itself (`true`) or after the prefixed package.
#[derive(Clone, Copy, Debug, PartialEq, Eq)]
pub enum CompileStage {
    LocateSelf,
    CheckPlainDir(usize),
    CheckPrefixedDir(usize),
    Build(usize, bool),
    CheckBinary(usize, bool),
    RunBinary(usize, bool),
    Finished(CompileEnd),
}

/// How running a bridge's binary ended.
#[derive(Clone, Copy, Debug, PartialEq, Eq)]
pub enum RunOutcome {
    Succeeded,
    /// It failed with a subcommand error: another prefix may be tried.
    SubcommandFailed,
    /// It failed otherwise.
    OtherFailed,
}

/// The work a run asks for next. Directories are named relative to the
/// `bridges` directory next to the bridger's installation.
pub enum CompileAction {
    /// Find the directory of the bridger's own binary.
    LocateSelf,
    /// Tell whether the directory `bridges/<name>` exists.
    CheckDir(String),
    /// Run `cargo` with these arguments in `bridges/<dir>`.
    Build { dir: String, args: Vec<String> },
    /// Tell whether `bridges/<dir>/target/<channel>/<file>` exists.
    CheckBinary { dir: String, channel: String, file: String },
    /// Run that binary, as `command`, with these arguments, in `bridges/<dir>`.
    RunBinary { command: String, dir: String, channel: String, file: String, args: Vec<String> },
    /// The run is over, with this result.
    Done(Result<(), BridgerError>),
}

/// The contents of a `CompileAction`.
pub enum CompileActionView {
    LocateSelf,
    CheckDir(Seq<char>),
    Build { dir: Seq<char>, args: Seq<Seq<char>> },
    CheckBinary { dir: Seq<char>, channel: Seq<char>, file: Seq<char> },
    RunBinary { command: Seq<char>, dir: Seq<char>, channel: Seq<char>, file: Seq<char>, args: Seq<Seq<char>> },
    Done(Result<(), BridgerErrorView>),
}

impl View for CompileAction {
    type V = CompileActionView;

    open spec fn view(&self) -> CompileActionView {
        match self {
            CompileAction::LocateSelf => CompileActionView::LocateSelf,
            CompileAction::CheckDir(d) => CompileActionView::CheckDir(d@),
            CompileAction::Build { dir, args } => CompileActionView::Build { dir: dir@, args: args.deep_view() },
            CompileAction::CheckBinary { dir, channel, file } => CompileActionView::CheckBinary {
                dir: dir@,
                channel: channel@,
                file: file@,
            },
            CompileAction::RunBinary { command, dir, channel, file, args } => CompileActionView::RunBinary {
                command: command@,
                dir: dir@,
                channel: channel@,
                file: file@,
                args: args.deep_view(),
            },
            CompileAction::Done(r) => CompileActionView::Done(
                match r {
                    Ok(()) => Ok(()),
                    Err(e) => Err(e@),
                },
            ),
        }
    }
}

/// The package built when trying prefix `i`: the prefix, then the subcommand.
pub open spec fn package_of(cfg: CompileConfig, i: int) -> Seq<char> {
    cfg.prefixes[i] + cfg.command
}

/// The bridge's directory: named after the subcommand, or after the package.
pub open spec fn dir_of(cfg: CompileConfig, i: int, plain: bool) -> Seq<char> {
    if plain {
        cfg.command
    } else {
        package_of(cfg, i)
    }
}

/// Trying prefix `i`, or giving up when there is none left.
pub open spec fn enter_prefix(cfg: CompileConfig, i: int) -> CompileStage {
    if 0 <= i < cfg.prefixes.len() {
        CompileStage::CheckPlainDir(i as usize)
    } else {
        CompileStage::Finished(CompileEnd::Unsupported)
    }
}

/// The indices of the stage are those of allowed prefixes.
pub open spec fn stage_wf(cfg: CompileConfig, stage: CompileStage) -> bool {
    match stage {
        CompileStage::CheckPlainDir(i) => i < cfg.prefixes.len(),
        CompileStage::CheckPrefixedDir(i) => i < cfg.prefixes.len(),
        CompileStage::Build(i, _) => i < cfg.prefixes.len(),
        CompileStage::CheckBinary(i, _) => i < cfg.prefixes.len(),
        CompileStage::RunBinary(i, _) => i < cfg.prefixes.len(),
        _ => true,
    }
}

/// The work asked for in `stage`.
pub open spec fn action_for(cfg: CompileConfig, stage: CompileStage) -> CompileActionView {
    match stage {
        CompileStage::LocateSelf => CompileActionView::LocateSelf,
        CompileStage::CheckPlainDir(i) => CompileActionView::CheckDir(cfg.command),
        CompileStage::CheckPrefixedDir(i) => CompileActionView::CheckDir(package_of(cfg, i as int)),
        CompileStage::Build(i, plain) => CompileActionView::Build {
            dir: dir_of(cfg, i as int, plain),
            args: cargo_build_args(cfg.toolchain, cfg.channel, package_of(cfg, i as int)),
        },
        CompileStage::CheckBinary(i, plain) => CompileActionView::CheckBinary {
            dir: dir_of(cfg, i as int, plain),
            channel: cfg.channel.spec_name(),
            file: binary_file_name(package_of(cfg, i as int), cfg.windows),
        },
        CompileStage::RunBinary(i, plain) => CompileActionView::RunBinary {
            command: package_of(cfg, i as int),
            dir: dir_of(cfg, i as int, plain),
            channel: cfg.channel.spec_name(),
            file: binary_file_name(package_of(cfg, i as int), cfg.windows),
            args: cfg.args,
        },
        CompileStage::Finished(CompileEnd::Completed) => CompileActionView::Done(Ok(())),
        CompileStage::Finished(CompileEnd::NoBinaryPath) => CompileActionView::Done(
            Err(BridgerErrorView::Subcommand("Can not get the binary path for bridger"@)),
        ),
        CompileStage::Finished(CompileEnd::Unsupported) => CompileActionView::Done(
            Err(BridgerErrorView::UnsupportExternal("Not support this subcommand: "@ + cfg.command)),
        ),
    }
}

/// The directory of the bridger's binary was looked for.
pub open spec fn after_located(cfg: CompileConfig, found: bool) -> CompileStage {
    if found {
        enter_prefix(cfg, 0)
    } else {
        CompileStage::Finished(CompileEnd::NoBinaryPath)
    }
}

/// A candidate directory was checked: build in it if it exists, else try
/// the prefixed name, else the next prefix.
pub open spec fn after_dir_checked(cfg: CompileConfig, stage: CompileStage, exists: bool) -> CompileStage {
    match stage {
        CompileStage::CheckPlainDir(i) => if exists {
            CompileStage::Build(i, true)
        } else {
            CompileStage::CheckPrefixedDir(i)
        },
        CompileStage::CheckPrefixedDir(i) => if exists {
            CompileStage::Build(i, false)
        } else {
            enter_prefix(cfg, i + 1)
        },
        _ => stage,
    }
}

/// The build ended: look for its binary, or, when it failed, stop (the
/// failure is not a subcommand error, so the subcommand counts as handled).
pub open spec fn after_built(stage: CompileStage, succeeded: bool) -> CompileStage {
    match stage {
        CompileStage::Build(i, plain) => if succeeded {
            CompileStage::CheckBinary(i, plain)
        } else {
            CompileStage::Finished(CompileEnd::Completed)
        },
        _ => stage,
    }
}

/// The error a failed build forms: the `cargo` run, its arguments joined
/// by spaces, and the rendering of its failure.
pub open spec fn build_failure(cfg: CompileConfig, stage: CompileStage, reason: Seq<char>) -> BridgerErrorView {
    match stage {
        CompileStage::Build(i, _) => BridgerErrorView::Process(
            "cargo"@,
            join_words(cargo_build_args(cfg.toolchain, cfg.channel, package_of(cfg, i as int))),
            reason,
        ),
        _ => BridgerErrorView::Process("cargo"@, Seq::empty(), reason),
    }
}

/// The error a missing binary forms: the binary's file name and the
/// directory it was looked for in.
pub open spec fn binary_missing(cfg: CompileConfig, stage: CompileStage, base_path: Seq<char>) -> BridgerErrorView {
    match stage {
        CompileStage::CheckBinary(i, _) => BridgerErrorView::Subcommand(
            "The command "@ + binary_file_name(package_of(cfg, i as int), cfg.windows) + " not found in path: "@
                + base_path,
        ),
        _ => BridgerErrorView::Subcommand(base_path),
    }
}

/// The binary was looked for: run it, or try the next prefix.
pub open spec fn after_binary_checked(cfg: CompileConfig, stage: CompileStage, exists: bool) -> CompileStage {
    match stage {
        CompileStage::CheckBinary(i, plain) => if exists {
            CompileStage::RunBinary(i, plain)
        } else {
            enter_prefix(cfg, i + 1)
        },
        _ => stage,
    }
}

/// The binary ran: a subcommand error moves on to the next prefix, any
/// other outcome ends the run.
pub open spec fn after_binary_ran(cfg: CompileConfig, stage: CompileStage, outcome: RunOutcome) -> CompileStage {
    match stage {
        CompileStage::RunBinary(i, _) => if outcome == RunOutcome::SubcommandFailed {
            enter_prefix(cfg, i + 1)
        } else {
            CompileStage::Finished(CompileEnd::Completed)
        },
        _ => stage,
    }
}

/// A run of the executor: it tries each allowed package prefix in turn.
pub struct CompileRun {
    executor: CompileSourceExecutor,
    prefixes: Vec<String>,
    windows: bool,
    stage: CompileStage,
    failure: Option<BridgerError>,
}

impl CompileRun {
    /// What the run works with.
    pub closed spec fn config(&self) -> CompileConfig {
        CompileConfig {
            command: self.executor.command_view(),
            args: self.executor.args_view(),
            channel: self.executor.channel_view(),
            toolchain: self.executor.toolchain_view(),
            prefixes: self.prefixes.deep_view(),
            windows: self.windows,
        }
    }

    /// Where the run stands.
    pub closed spec fn stage(&self) -> CompileStage {
        self.stage
    }

    /// The error that the last answer ended the attempt with, if it formed
    /// one.
    pub closed spec fn failure_view(&self) -> Option<BridgerErrorView> {
        match self.failure {
            Some(e) => Some(e@),
            None => None,
        }
    }

    /// The error that the last answer ended the attempt with, if it formed
    /// one.
    pub fn failure(&self) -> (res: &Option<BridgerError>)
        ensures
            match res {
                Some(e) => self.failure_view() == Some(e@),
                None => self.failure_view() is None,
            },
    {
        &self.failure
    }

    pub open spec fn wf(&self) -> bool {
        stage_wf(self.config(), self.stage())
    }

    /// Where the run stands.
    pub fn current_stage(&self) -> (res: CompileStage)
        ensures
            res == self.stage(),
    {
        self.stage
    }

    /// The package for prefix `i`.
    fn package(&self, i: usize) -> (res: String)
        requires
            i < self.prefixes@.len(),
        ensures
            res@ == package_of(self.config(), i as int),
    {
        self.prefixes[i].clone().concat(self.executor.command.as_str())
    }

    /// The directory for prefix `i`.
    fn dir(&self, i: usize, plain: bool) -> (res: String)
        requires
            i < self.prefixes@.len(),
        ensures
            res@ == dir_of(self.config(), i as int, plain),
    {
        if plain {
            self.executor.command.clone()
        } else {
            self.package(i)
        }
    }

    /// The work asked for now.
    fn action(&self) -> (res: CompileAction)
        requires
            self.wf(),
        ensures
            res@ == action_for(self.config(), self.stage()),
    {
        match self.stage {
            CompileStage::LocateSelf => CompileAction::LocateSelf,
            CompileStage::CheckPlainDir(_) => CompileAction::CheckDir(self.executor.command.clone()),
            CompileStage::CheckPrefixedDir(i) => CompileAction::CheckDir(self.package(i)),
            CompileStage::Build(i, plain) => {
                let package = self.package(i);
                let args = self.executor.cargo_build_args(package.as_str());
                CompileAction::Build { dir: self.dir(i, plain), args }
            },
            CompileStage::CheckBinary(i, plain) => {
                let package = self.package(i);
                CompileAction::CheckBinary {
                    dir: self.dir(i, plain),
                    channel: String::from_str(self.executor.channel.name()),
                    file: binary_file_name_for(package.as_str(), self.windows),
                }
            },
            CompileStage::RunBinary(i, plain) => {
                let package = self.package(i);
                let file = binary_file_name_for(package.as_str(), self.windows);
                let args = self.executor.args.clone();
                assert(args.deep_view() =~= self.executor.args.deep_view());
                CompileAction::RunBinary {
                    command: package,
                    dir: self.dir(i, plain),
                    channel: String::from_str(self.executor.channel.name()),
                    file,
                    args,
                }
            },
            CompileStage::Finished(CompileEnd::Completed) => CompileAction::Done(Ok(())),
            CompileStage::Finished(CompileEnd::NoBinaryPath) => CompileAction::Done(
                Err(BridgerError::Subcommand(String::from_str("Can not get the binary path for bridger"))),
            ),
            CompileStage::Finished(CompileEnd::Unsupported) => CompileAction::Done(
                Err(
                    BridgerError::UnsupportExternal(
                        String::from_str("Not support this subcommand: ").concat(self.executor.command.as_str()),
                    ),
                ),
            ),
        }
    }

    /// Trying prefix `i`, or giving up when there is none left.
    fn enter_prefix(&mut self, i: usize)
        requires
            i <= old(self).prefixes@.len(),
        ensures
            final(self).config() == old(self).config(),
            final(self).stage() == enter_prefix(old(self).config(), i as int),
            final(self).wf(),
    {
        if i < self.prefixes.len() {
            self.stage = CompileStage::CheckPlainDir(i);
        } else {
            self.stage = CompileStage::Finished(CompileEnd::Unsupported);
        }
    }

    /// Trying the prefix after prefix `i`, or giving up when there is none
    /// left.
    fn enter_next_prefix(&mut self, i: usize)
        requires
            i < old(self).prefixes@.len(),
        ensures
            final(self).config() == old(self).config(),
            final(self).stage() == enter_prefix(old(self).config(), i + 1),
            final(self).wf(),
    {
        let count = self.prefixes.len();
        if i + 1 < count {
            self.stage = CompileStage::CheckPlainDir(i + 1);
        } else {
            self.stage = CompileStage::Finished(CompileEnd::Unsupported);
        }
    }

    /// The directory of the bridger's own binary was looked for.
    pub fn on_located(&mut self, found: bool) -> (res: CompileAction)
        requires
            old(self).wf(),
            old(self).stage() == CompileStage::LocateSelf,
        ensures
            final(self).config() == old(self).config(),
            final(self).stage() == after_located(old(self).config(), found),
            final(self).failure_view() is None,
            final(self).wf(),
            res@ == action_for(final(self).config(), final(self).stage()),
    {
        if found {
            self.enter_prefix(0);
        } else {
            self.stage = CompileStage::Finished(CompileEnd::NoBinaryPath);
        }
        self.failure = None;
        self.action()
    }

    /// A candidate directory of the bridge was checked.
    pub fn on_dir_checked(&mut self, exists: bool) -> (res: CompileAction)
        requires
            old(self).wf(),
            old(self).stage() is CheckPlainDir || old(self).stage() is CheckPrefixedDir,
        ensures
            final(self).config() == old(self).config(),
            final(self).stage() == after_dir_checked(old(self).config(), old(self).stage(), exists),
            final(self).failure_view() is None,
            final(self).wf(),
            res@ == action_for(final(self).config(), final(self).stage()),
    {
        match self.stage {
            CompileStage::CheckPlainDir(i) => {
                if exists {
                    self.stage = CompileStage::Build(i, true);
                } else {
                    self.stage = CompileStage::CheckPrefixedDir(i);
                }
            },
            CompileStage::CheckPrefixedDir(i) => {
                if exists {
                    self.stage = CompileStage::Build(i, false);
                } else {
                    self.enter_next_prefix(i);
                }
            },
            _ => {},
        }
        self.failure = None;
        self.action()
    }

    /// The build of the bridge ended; `failure` is the rendering of its
    /// error when it failed. A failure forms the `Process` error of the
    /// `cargo` run, which is no subcommand error, so the run ends.
    pub fn on_built(&mut self, failure: Option<String>) -> (res: CompileAction)
        requires
            old(self).wf(),
            old(self).stage() is Build,
        ensures
            final(self).config() == old(self).config(),
            final(self).stage() == after_built(old(self).stage(), failure is None),
            final(self).failure_view() == (match failure {
                Some(reason) => Some(build_failure(old(self).config(), old(self).stage(), reason@)),
                None => None,
            }),
            final(self).wf(),
            res@ == action_for(final(self).config(), final(self).stage()),
    {
        match self.stage {
            CompileStage::Build(i, plain) => {
                match failure {
                    None => {
                        self.stage = CompileStage::CheckBinary(i, plain);
                        self.failure = None;
                    },
                    Some(reason) => {
                        let package = self.package(i);
                        let args = self.executor.cargo_build_args(package.as_str());
                        let joined = join_with_spaces(&args);
                        self.stage = CompileStage::Finished(CompileEnd::Completed);
                        self.failure = Some(BridgerError::Process(String::from_str("cargo"), joined, reason));
                    },
                }
            },
            _ => {},
        }
        self.action()
    }

    /// The bridge's binary was looked for in `base_path`, the directory of
    /// its build output. A missing binary forms a subcommand error, and the
    /// next prefix is tried.
    pub fn on_binary_checked(&mut self, found: bool, base_path: &str) -> (res: CompileAction)
        requires
            old(self).wf(),
            old(self).stage() is CheckBinary,
        ensures
            final(self).config() == old(self).config(),
            final(self).stage() == after_binary_checked(old(self).config(), old(self).stage(), found),
            final(self).failure_view() == (if found {
                None
            } else {
                Some(binary_missing(old(self).config(), old(self).stage(), base_path@))
            }),
            final(self).wf(),
            res@ == action_for(final(self).config(), final(self).stage()),
    {
        match self.stage {
            CompileStage::CheckBinary(i, plain) => {
                if found {
                    self.stage = CompileStage::RunBinary(i, plain);
                    self.failure = None;
                } else {
                    let package = self.package(i);
                    let file = binary_file_name_for(package.as_str(), self.windows);
                    let mut message = String::from_str("The command ");
                    message.append(file.as_str());
                    message.append(" not found in path: ");
                    message.append(base_path);
                    self.enter_next_prefix(i);
                    self.failure = Some(BridgerError::Subcommand(message));
                }
            },
            _ => {},
        }
        self.action()
    }

    /// The bridge's binary ran.
    pub fn on_binary_ran(&mut self, outcome: RunOutcome) -> (res: CompileAction)
        requires
            old(self).wf(),
            old(self).stage() is RunBinary,
        ensures
            final(self).config() == old(self).config(),
            final(self).stage() == after_binary_ran(old(self).config(), old(self).stage(), outcome),
            final(self).failure_view() is None,
            final(self).wf(),
            res@ == action_for(final(self).config(), final(self).stage()),
    {
        match self.stage {
            CompileStage::RunBinary(i, _) => {
                match outcome {
                    RunOutcome::SubcommandFailed => self.enter_next_prefix(i),
                    _ => self.stage = CompileStage::Finished(CompileEnd::Completed),
                }
            },
            _ => {},
        }
        self.failure = None;
        self.action()
    }
}

impl CompileSourceExecutor {
    /// Starts compiling and executing the bridge, trying the allowed
    /// package prefixes in order; the first work is to find the directory
    /// of the bridger's own binary.
    pub fn start_run(&self, prefixes: Vec<String>, windows: bool) -> (res: (CompileRun, CompileAction))
        ensures
            res.0.config() == (CompileConfig {
                command: self.command_view(),
                args: self.args_view(),
                channel: self.channel_view(),
                toolchain: self.toolchain_view(),
                prefixes: prefixes.deep_view(),
                windows,
            }),
            res.0.stage() == CompileStage::LocateSelf,
            res.0.failure_view() is None,
            res.0.wf(),
            res.1@ == CompileActionView::LocateSelf,
    {
        let run = CompileRun { executor: self.duplicate(), prefixes, windows, stage: CompileStage::LocateSelf, failure: None };
        (run, CompileAction::LocateSelf)
    }
}

/// How far a run is from its end: prefixes left to try, then the step in
/// the current prefix.
pub open spec fn compile_measure(cfg: CompileConfig, stage: CompileStage) -> nat {
    let n = cfg.prefixes.len() as int;
    let m: int = match stage {
        CompileStage::LocateSelf => (n + 1) * 6,
        CompileStage::CheckPlainDir(i) => (n - i) * 6 + 5,
        CompileStage::CheckPrefixedDir(i) => (n - i) * 6 + 4,
        CompileStage::Build(i, _) => (n - i) * 6 + 3,
        CompileStage::CheckBinary(i, _) => (n - i) * 6 + 2,
        CompileStage::RunBinary(i, _) => (n - i) * 6 + 1,
        CompileStage::Finished(_) => 0,
    };
    if m < 0 { 0 } else { m as nat }
}

/// A run always ends: every answer that a run accepts keeps its stage
/// well formed and either finishes the run or brings it strictly closer to
/// its end, so each allowed prefix is tried at most once.
pub proof fn law_compile_run_always_ends(
    cfg: CompileConfig,
    stage: CompileStage,
    answer: bool,
    outcome: RunOutcome,
)
    requires
        stage_wf(cfg, stage),
        cfg.prefixes.len() <= usize::MAX,
    ensures
        stage == CompileStage::LocateSelf ==> {
            let t = after_located(cfg, answer);
            stage_wf(cfg, t) && (t is Finished || compile_measure(cfg, t) < compile_measure(cfg, stage))
        },
        (stage is CheckPlainDir || stage is CheckPrefixedDir) ==> {
            let t = after_dir_checked(cfg, stage, answer);
            stage_wf(cfg, t) && (t is Finished || compile_measure(cfg, t) < compile_measure(cfg, stage))
        },
        stage is Build ==> {
            let t = after_built(stage, answer);
            stage_wf(cfg, t) && (t is Finished || compile_measure(cfg, t) < compile_measure(cfg, stage))
        },
        stage is CheckBinary ==> {
            let t = after_binary_checked(cfg, stage, answer);
            stage_wf(cfg, t) && (t is Finished || compile_measure(cfg, t) < compile_measure(cfg, stage))
        },
        stage is RunBinary ==> {
            let t = after_binary_ran(cfg, stage, outcome);
            stage_wf(cfg, t) && (t is Finished || compile_measure(cfg, t) < compile_measure(cfg, stage))
        },
{
}

/// Whatever directory is found for a prefix, the package that is built,
/// looked for and run is the prefix followed by the subcommand, and the
/// build names it last, after `-p`.
pub proof fn law_built_package_is_prefixed(cfg: CompileConfig, i: usize, plain: bool)
    requires
        i < cfg.prefixes.len(),
    ensures
        action_for(cfg, CompileStage::Build(i, plain)) matches CompileActionView::Build { dir, args }
            && args.last() == cfg.prefixes[i as int] + cfg.command
            && args[args.len() - 2] == "-p"@,
        action_for(cfg, CompileStage::RunBinary(i, plain)) matches CompileActionView::RunBinary { command, .. }
            && command == cfg.prefixes[i as int] + cfg.command,
{
}

/// A binary is run only after a successful build of its package in the
/// same directory: a run reaches `RunBinary(i, plain)` only from
/// `CheckBinary(i, plain)` when the binary is found, and reaches that only
/// from `Build(i, plain)` when the build succeeded; no other answer leads to
/// either stage, and the build and the run name the same directory and
/// package.
pub proof fn law_binary_runs_only_after_its_build(
    cfg: CompileConfig,
    stage: CompileStage,
    answer: bool,
    outcome: RunOutcome,
)
    requires
        stage_wf(cfg, stage),
    ensures
        !(after_located(cfg, answer) is CheckBinary) && !(after_located(cfg, answer) is RunBinary),
        (stage is CheckPlainDir || stage is CheckPrefixedDir) ==> !(after_dir_checked(cfg, stage, answer) is CheckBinary)
            && !(after_dir_checked(cfg, stage, answer) is RunBinary),
        stage is RunBinary ==> !(after_binary_ran(cfg, stage, outcome) is CheckBinary) && !(after_binary_ran(
            cfg,
            stage,
            outcome,
        ) is RunBinary),
        stage is Build ==> !(after_built(stage, answer) is RunBinary),
        forall|i: usize, plain: bool|
            stage is Build && after_built(stage, answer) == CompileStage::CheckBinary(i, plain) ==> stage
                == CompileStage::Build(i, plain) && answer,
        stage is CheckBinary ==> !(after_binary_checked(cfg, stage, answer) is CheckBinary),
        forall|i: usize, plain: bool|
            stage is CheckBinary && after_binary_checked(cfg, stage, answer) == CompileStage::RunBinary(i, plain)
                ==> stage == CompileStage::CheckBinary(i, plain) && answer,
        forall|i: usize, plain: bool|
            #![trigger action_for(cfg, CompileStage::Build(i, plain))]
            i < cfg.prefixes.len() ==> (action_for(cfg, CompileStage::Build(i, plain)) matches CompileActionView::Build {
                dir,
                args,
            } && action_for(cfg, CompileStage::RunBinary(i, plain)) matches CompileActionView::RunBinary {
                command,
                dir: run_dir,
                ..
            } && dir == run_dir && args.last() == command),
{
}


/// A subcommand failure of the binary built for prefix `i` moves the run on
/// to the next prefix, starting with the subcommand's own directory, while
/// one is left; only after the last prefix does the run end as unsupported.
/// Every answer that ends a run as unsupported comes while the last prefix
/// is being tried (or when there is no prefix at all).
pub proof fn law_unsupported_only_after_every_prefix(
    cfg: CompileConfig,
    stage: CompileStage,
    answer: bool,
    outcome: RunOutcome,
)
    requires
        stage_wf(cfg, stage),
        cfg.prefixes.len() <= usize::MAX,
    ensures
        forall|i: usize, plain: bool|
            #![trigger after_binary_ran(cfg, CompileStage::RunBinary(i, plain), RunOutcome::SubcommandFailed)]
            i + 1 < cfg.prefixes.len() ==> {
                let t = after_binary_ran(cfg, CompileStage::RunBinary(i, plain), RunOutcome::SubcommandFailed);
                &&& t == CompileStage::CheckPlainDir((i + 1) as usize)
                &&& action_for(cfg, t) == CompileActionView::CheckDir(cfg.command)
            },
        stage == CompileStage::LocateSelf && after_located(cfg, answer) == CompileStage::Finished(CompileEnd::Unsupported)
            ==> cfg.prefixes.len() == 0,
        (stage is CheckPlainDir || stage is CheckPrefixedDir) && after_dir_checked(cfg, stage, answer)
            == CompileStage::Finished(CompileEnd::Unsupported) ==> stage == CompileStage::CheckPrefixedDir(
            (cfg.prefixes.len() - 1) as usize,
        ),
        stage is CheckBinary && after_binary_checked(cfg, stage, answer) == CompileStage::Finished(
            CompileEnd::Unsupported,
        ) ==> (stage matches CompileStage::CheckBinary(i, _) && i + 1 == cfg.prefixes.len()),
        stage is RunBinary && after_binary_ran(cfg, stage, outcome) == CompileStage::Finished(CompileEnd::Unsupported)
            ==> (stage matches CompileStage::RunBinary(i, _) && i + 1 == cfg.prefixes.len()),
        stage is Build ==> after_built(stage, answer) != CompileStage::Finished(CompileEnd::Unsupported),
{
}

/// The build arguments: the toolchain override `+<toolchain>` comes first
/// whenever a toolchain is set, whatever the profile, and `build` comes
/// first otherwise; `--release` is there exactly for the release profile;
/// the last two are `-p` and the package.
pub proof fn law_cargo_build_args_shape(toolchain: Option<Seq<char>>, channel: CompileChannel, package: Seq<char>)
    ensures
        ({
            let args = cargo_build_args(toolchain, channel, package);
            &&& args.len() == 3 + (if toolchain is Some { 1int } else { 0 }) + (if channel
                == CompileChannel::Release { 1int } else { 0 })
            &&& toolchain matches Some(t) ==> args[0] == "+"@ + t && args[1] == "build"@
            &&& toolchain is None ==> args[0] == "build"@
            &&& args[args.len() - 2] == "-p"@
            &&& args[args.len() - 1] == package
            &&& (channel == CompileChannel::Release <==> args[args.len() - 3] == "--"@ + "release"@)
        }),
{
    reveal_strlit("build");
    reveal_strlit("--");
    reveal_strlit("release");
    let args = cargo_build_args(toolchain, channel, package);
    if channel == CompileChannel::Debug {
        if args[args.len() - 3] == "--"@ + "release"@ {
            assert(args[args.len() - 3][0] == '-');
            if toolchain is Some {
                assert(args[args.len() - 3] == "build"@);
            } else {
                assert(args[args.len() - 3] == "build"@);
            }
        }
    }
}

} // verus!
